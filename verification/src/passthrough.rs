//! The pass-through backend: while it is active it hands every key event of
//! the focused field straight back to the coordinator.

use crate::message::{Ic, KeyEvent, Message, MessageView};
use vstd::prelude::*;

verus! {

/// One thing that the pass-through backend asks to have done.
#[derive(Debug, PartialEq, Eq)]
pub enum PassthroughAction {
    /// Send the message to the coordinator.
    Send(Message),
    /// Wake the coordinator, which is blocked in its event wait.
    WakeCoordinator,
}

/// What a [`PassthroughAction`] says, with its text as a sequence of
/// characters.
pub enum PassthroughActionView {
    Send(MessageView),
    WakeCoordinator,
}

impl View for PassthroughAction {
    type V = PassthroughActionView;

    open spec fn view(&self) -> PassthroughActionView {
        match *self {
            PassthroughAction::Send(m) => PassthroughActionView::Send(m@),
            PassthroughAction::WakeCoordinator => PassthroughActionView::WakeCoordinator,
        }
    }
}

impl DeepView for PassthroughAction {
    type V = PassthroughActionView;

    open spec fn deep_view(&self) -> PassthroughActionView {
        self@
    }
}

/// The slot after a message of the coordinator: a start fills it, a cancel
/// empties it, and nothing else touches it.
pub open spec fn slot_after(slot: Option<Ic>, msg: MessageView) -> Option<Ic> {
    match msg {
        MessageView::StartPreedit(ic) => Some(ic),
        MessageView::CancelPreedit => None,
        _ => slot,
    }
}

/// What the backend sends for a message `reply` that it has made for the
/// context in its slot: the message, then a wake-up; nothing if the slot is
/// empty.
pub open spec fn replies(slot: Option<Ic>, reply: MessageView) -> Seq<PassthroughActionView> {
    if slot is Some {
        seq![PassthroughActionView::Send(reply), PassthroughActionView::WakeCoordinator]
    } else {
        seq![]
    }
}

/// The pass-through backend's state: the context that it forwards for, if
/// any. Its view is that slot.
#[derive(Debug)]
pub struct Passthrough {
    current_ic: Option<Ic>,
}

impl View for Passthrough {
    type V = Option<Ic>;

    closed spec fn view(&self) -> Option<Ic> {
        self.current_ic
    }
}

impl Passthrough {
    /// A backend that forwards for no context yet.
    pub fn new() -> (p: Self)
        ensures
            p@ is None,
    {
        Passthrough { current_ic: None }
    }

    /// The context that the backend forwards for, if any.
    pub fn current_ic(&self) -> (slot: Option<Ic>)
        ensures
            slot == self@,
    {
        self.current_ic
    }

    /// Takes one message of the coordinator.
    pub fn on_message(&mut self, msg: &Message)
        ensures
            final(self)@ == slot_after(old(self)@, msg@),
    {
        match msg {
            Message::StartPreedit(ic) => {
                self.current_ic = Some(*ic);
            },
            Message::CancelPreedit => {
                self.current_ic = None;
            },
            _ => {},
        }
    }

    /// Hands a key event back to the coordinator, for the context in the
    /// slot. With an empty slot the event is dropped.
    pub fn forward_key(&self, key_event: KeyEvent) -> (actions: Vec<PassthroughAction>)
        ensures
            actions.deep_view() == replies(
                self@,
                MessageView::ForwardEvent(self@.unwrap(), key_event),
            ),
    {
        let mut actions = Vec::new();
        if let Some(ic) = self.current_ic {
            actions.push(PassthroughAction::Send(Message::ForwardEvent(ic, key_event)));
            actions.push(PassthroughAction::WakeCoordinator);
        }
        actions
    }

    /// Hands text that a native composition client has committed to the
    /// coordinator, for the context in the slot. With an empty slot the text
    /// is dropped.
    pub fn commit(&self, text: String) -> (actions: Vec<PassthroughAction>)
        ensures
            actions.deep_view() == replies(
                self@,
                MessageView::EditResult(self@.unwrap(), Some(text@)),
            ),
    {
        let mut actions = Vec::new();
        if let Some(ic) = self.current_ic {
            actions.push(PassthroughAction::Send(Message::EditResult(ic, Some(text))));
            actions.push(PassthroughAction::WakeCoordinator);
        }
        actions
    }
}

} // verus!
