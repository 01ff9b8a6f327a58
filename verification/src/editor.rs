//! The editor backend: one editing session at a time, bound to the context
//! that it edits for.

use crate::message::{text_view, Ic, Message, MessageView};
use vstd::prelude::*;

verus! {

/// One thing that the editor backend asks to have done.
#[derive(Debug, PartialEq, Eq)]
pub enum EditorAction {
    /// Send the message to the coordinator.
    Send(Message),
    /// Wake the coordinator, which is blocked in its event wait.
    WakeCoordinator,
    /// Make the popup visible.
    Show,
    /// Hide the popup.
    Hide,
    /// End the editing process.
    ClosePty,
    /// Remove the scratch file: what has been edited so far is gone.
    RemoveScratch,
    /// Start a new editing process.
    ResetPty,
}

/// What an [`EditorAction`] says, with its text as a sequence of characters.
pub enum EditorActionView {
    Send(MessageView),
    WakeCoordinator,
    Show,
    Hide,
    ClosePty,
    RemoveScratch,
    ResetPty,
}

impl View for EditorAction {
    type V = EditorActionView;

    open spec fn view(&self) -> EditorActionView {
        match *self {
            EditorAction::Send(m) => EditorActionView::Send(m@),
            EditorAction::WakeCoordinator => EditorActionView::WakeCoordinator,
            EditorAction::Show => EditorActionView::Show,
            EditorAction::Hide => EditorActionView::Hide,
            EditorAction::ClosePty => EditorActionView::ClosePty,
            EditorAction::RemoveScratch => EditorActionView::RemoveScratch,
            EditorAction::ResetPty => EditorActionView::ResetPty,
        }
    }
}

impl DeepView for EditorAction {
    type V = EditorActionView;

    open spec fn deep_view(&self) -> EditorActionView {
        self@
    }
}

/// The session's context after a request to start editing for `ic`.
pub open spec fn session_after_start(session: Option<Ic>, ic: Ic) -> Option<Ic> {
    Some(ic)
}

/// What a request to start editing for `ic` calls for. If the session is
/// already bound to `ic`, it resumes: the popup is shown and nothing else
/// happens. Otherwise the session in progress is torn down, its buffer
/// included, a fresh one is started, and the popup is shown.
pub open spec fn start_actions(session: Option<Ic>, ic: Ic) -> Seq<EditorActionView> {
    if session == Some(ic) {
        seq![EditorActionView::Show]
    } else {
        seq![
            EditorActionView::ClosePty,
            EditorActionView::RemoveScratch,
            EditorActionView::ResetPty,
            EditorActionView::Show,
        ]
    }
}

/// Whether the actions throw away the buffer of the session in progress.
pub open spec fn discards_buffer(actions: Seq<EditorActionView>) -> bool {
    actions.contains(EditorActionView::RemoveScratch)
}

/// What the loss of focus calls for: the popup is hidden; the session stays.
pub open spec fn focus_lost_actions() -> Seq<EditorActionView> {
    seq![EditorActionView::Hide]
}

/// What a cancellation calls for: the popup is hidden and the editing
/// process ended; nothing is sent.
pub open spec fn cancel_actions() -> Seq<EditorActionView> {
    seq![EditorActionView::Hide, EditorActionView::ClosePty]
}

/// Whether the editor accepts the message from the coordinator: a start, a
/// loss of focus, or a cancellation.
pub open spec fn from_coordinator(msg: MessageView) -> bool {
    msg is StartPreedit || msg is FocusOut || msg is CancelPreedit
}

/// The session's context after a message of the coordinator.
pub open spec fn session_after(session: Option<Ic>, msg: MessageView) -> Option<Ic> {
    match msg {
        MessageView::StartPreedit(ic) => session_after_start(session, ic),
        _ => session,
    }
}

/// What a message of the coordinator calls for.
pub open spec fn message_actions(session: Option<Ic>, msg: MessageView) -> Seq<EditorActionView> {
    match msg {
        MessageView::StartPreedit(ic) => start_actions(session, ic),
        MessageView::FocusOut => focus_lost_actions(),
        MessageView::CancelPreedit => cancel_actions(),
        _ => seq![],
    }
}

/// The text that a session hands over: what the scratch file held, if the
/// editing process ended with status 0 and the file could be read; nothing
/// otherwise.
pub open spec fn harvested(status: i32, buffer: Option<Seq<char>>) -> Option<Seq<char>> {
    if status == 0 {
        buffer
    } else {
        None
    }
}

/// The session's context after the editing process was checked: it is
/// cleared if the process had ended.
pub open spec fn session_after_end(session: Option<Ic>, status: Option<i32>) -> Option<Ic> {
    if status is Some {
        None
    } else {
        session
    }
}

/// What the end of the editing process calls for: the result is sent to the
/// coordinator for the session's context, the coordinator is woken, and the
/// popup is hidden. Nothing, if the process had not ended.
pub open spec fn end_actions(
    session: Option<Ic>,
    status: Option<i32>,
    buffer: Option<Seq<char>>,
) -> Seq<EditorActionView> {
    match status {
        Some(code) => seq![
            EditorActionView::Send(
                MessageView::EditResult(session.unwrap(), harvested(code, buffer)),
            ),
            EditorActionView::WakeCoordinator,
            EditorActionView::Hide,
        ],
        None => seq![],
    }
}

/// The editor backend's state: the context that the session in progress is
/// bound to, if any. Its view is that context.
#[derive(Debug)]
pub struct Editor {
    current_ic: Option<Ic>,
}

impl View for Editor {
    type V = Option<Ic>;

    closed spec fn view(&self) -> Option<Ic> {
        self.current_ic
    }
}

impl Editor {
    /// An editor with no session.
    pub fn new() -> (e: Self)
        ensures
            e@ is None,
    {
        Editor { current_ic: None }
    }

    /// The context that the session in progress is bound to, if any.
    pub fn current_ic(&self) -> (session: Option<Ic>)
        ensures
            session == self@,
    {
        self.current_ic
    }

    /// Starts editing for `ic`, or resumes if the session is already bound
    /// to `ic`.
    pub fn start_editing(&mut self, ic: Ic) -> (actions: Vec<EditorAction>)
        ensures
            final(self)@ == session_after_start(old(self)@, ic),
            actions.deep_view() == start_actions(old(self)@, ic),
    {
        let mut actions = Vec::new();
        let resume = match self.current_ic {
            Some(current) => current.id == ic.id,
            None => false,
        };
        if !resume {
            self.current_ic = Some(ic);
            actions.push(EditorAction::ClosePty);
            actions.push(EditorAction::RemoveScratch);
            actions.push(EditorAction::ResetPty);
        }
        actions.push(EditorAction::Show);
        actions
    }

    /// Reacts to the loss of focus: the popup is hidden, the session kept.
    pub fn focus_lost(&self) -> (actions: Vec<EditorAction>)
        ensures
            actions.deep_view() == focus_lost_actions(),
    {
        let mut actions = Vec::new();
        actions.push(EditorAction::Hide);
        actions
    }

    /// Cancels: the popup is hidden and the editing process ended, with
    /// nothing committed.
    pub fn cancel_editing(&self) -> (actions: Vec<EditorAction>)
        ensures
            actions.deep_view() == cancel_actions(),
    {
        let mut actions = Vec::new();
        actions.push(EditorAction::Hide);
        actions.push(EditorAction::ClosePty);
        actions
    }

    /// Takes one message of the coordinator.
    pub fn on_message(&mut self, msg: &Message) -> (actions: Vec<EditorAction>)
        requires
            from_coordinator(msg@),
        ensures
            final(self)@ == session_after(old(self)@, msg@),
            actions.deep_view() == message_actions(old(self)@, msg@),
    {
        match msg {
            Message::StartPreedit(ic) => self.start_editing(*ic),
            Message::FocusOut => self.focus_lost(),
            _ => self.cancel_editing(),
        }
    }

    /// Reacts to a check of the editing process. `status` is the exit status
    /// of the process if it has ended, `buffer` what the scratch file held
    /// if it could be read.
    ///
    /// If the process has ended, the session is over: its result goes to the
    /// coordinator and the session's context is cleared, so that a later
    /// start for the same context begins afresh.
    pub fn session_ended(&mut self, status: Option<i32>, buffer: Option<String>) -> (actions: Vec<
        EditorAction,
    >)
        requires
            status is Some ==> old(self)@ is Some,
        ensures
            final(self)@ == session_after_end(old(self)@, status),
            actions.deep_view() == end_actions(old(self)@, status, text_view(buffer)),
    {
        let mut actions = Vec::new();
        if let Some(code) = status {
            let ic = self.current_ic.unwrap();
            let result = if code == 0 {
                buffer
            } else {
                None
            };
            actions.push(EditorAction::Send(Message::EditResult(ic, result)));
            actions.push(EditorAction::WakeCoordinator);
            actions.push(EditorAction::Hide);
            self.current_ic = None;
        }
        actions
    }
}

/// Starting twice for the same context resumes: the second start leaves the
/// session bound as it was and does not throw the buffer away. A start for
/// another context throws it away and binds the session to that context.
pub proof fn lemma_start_editing_resumes(session: Option<Ic>, ic: Ic, other: Ic)
    requires
        other != ic,
    ensures
        ({
            let bound = session_after_start(session, ic);
            &&& session_after_start(bound, ic) == bound
            &&& !discards_buffer(start_actions(bound, ic))
            &&& discards_buffer(start_actions(bound, other))
            &&& session_after_start(bound, other) == Some(other)
        }),
{
    let bound = session_after_start(session, ic);
    assert(start_actions(bound, other)[1] == EditorActionView::RemoveScratch);
}

/// A loss of focus between two starts for the same context does not change
/// that: the session resumes with its buffer.
pub proof fn lemma_focus_loss_keeps_session(session: Option<Ic>, ic: Ic)
    ensures
        ({
            let bound = session_after_start(session, ic);
            let hidden = session_after(bound, MessageView::FocusOut);
            &&& hidden == bound
            &&& !discards_buffer(message_actions(bound, MessageView::FocusOut))
            &&& !discards_buffer(start_actions(hidden, ic))
        }),
{
}

/// Once a session is over, a start for the same context begins afresh.
pub proof fn lemma_start_after_end_is_fresh(session: Option<Ic>, ic: Ic, status: i32)
    ensures
        discards_buffer(
            start_actions(session_after_end(session_after_start(session, ic), Some(status)), ic),
        ),
{
    let ended = session_after_end(session_after_start(session, ic), Some(status));
    assert(start_actions(ended, ic)[1] == EditorActionView::RemoveScratch);
}

} // verus!
