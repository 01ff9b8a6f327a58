//! The coordinator: the single owner of the focus record and of the mode
//! flag. Each of its methods takes one event, updates that state, and returns
//! the actions that the event calls for, in the order in which they are to be
//! performed.

use crate::editor::{end_actions, EditorActionView};
use crate::message::{Ic, KeyEvent, Message, MessageView, Window};
use crate::mode::VimeState;
use crate::placement::{
    absolute_position, adjust_vime_window_position, adjusted_position, lemma_wrap_coord_add, sum_x,
    sum_y, wrap_coord, Monitor, Size,
};
use vstd::prelude::*;

verus! {

/// Every bit that stands for a modifier key or a pointer button.
pub const KEY_BUT_MASK_ALL: u32 = 0x1fff;

/// The key gesture that switches between the two backends: a keycode pressed
/// while a set of modifiers is held.
#[derive(Clone, Copy, Debug, PartialEq, Eq, Structural)]
pub struct TriggerChord {
    state: u32,
    keycode: u8,
}

impl TriggerChord {
    /// The modifier bits that must all be held.
    pub closed spec fn state(self) -> u32 {
        self.state
    }

    /// The keycode of the gesture.
    pub closed spec fn keycode(self) -> u8 {
        self.keycode
    }

    /// Whether `state` sets no bit but those of modifier keys and buttons.
    pub open spec fn known_bits(state: u32) -> bool {
        state & !KEY_BUT_MASK_ALL == 0
    }

    /// A chord names known modifiers only.
    #[verifier::type_invariant]
    spec fn well_formed(self) -> bool {
        Self::known_bits(self.state)
    }

    /// The chord of the given modifier bits and keycode, or nothing where
    /// `state` has a bit that stands for no modifier key or button.
    pub fn new(state: u32, keycode: u8) -> (chord: Option<Self>)
        ensures
            chord is Some <==> Self::known_bits(state),
            chord matches Some(c) ==> c.state() == state && c.keycode() == keycode,
    {
        if state & !KEY_BUT_MASK_ALL == 0 {
            Some(TriggerChord { state, keycode })
        } else {
            None
        }
    }

    /// Whether the key event is this gesture: its keycode is the chord's and
    /// every modifier of the chord is held. Press and release both match.
    pub open spec fn spec_matches(&self, key_event: &KeyEvent) -> bool {
        &&& key_event.state & self.state() == self.state()
        &&& key_event.detail == self.keycode()
    }

    /// Whether the key event is this gesture.
    #[verifier::when_used_as_spec(spec_matches)]
    pub fn matches(&self, key_event: &KeyEvent) -> (b: bool)
        ensures
            b == self.spec_matches(key_event),
    {
        key_event.state & self.state == self.state && key_event.detail == self.keycode
    }
}

/// One thing that the coordinator asks to have done.
#[derive(Debug, PartialEq, Eq)]
pub enum Action {
    /// Send the message to the editor backend.
    ToEditor(Message),
    /// Send the message to the pass-through backend.
    ToPassthrough(Message),
    /// Wake the pass-through backend, which is blocked in its event wait.
    WakePassthrough,
    /// Commit the text into the field of the given context.
    Commit(Ic, String),
    /// Deliver the key event, as a synthetic event, to the window that it
    /// names as its event window.
    Inject(KeyEvent),
    /// Forward the key event to the client that owns the context.
    ForwardToClient(Ic, KeyEvent),
    /// Move the window's upper-left corner to the position and raise it.
    Place(Window, i16, i16),
}

/// What an [`Action`] says, with its text as a sequence of characters.
pub enum ActionView {
    ToEditor(MessageView),
    ToPassthrough(MessageView),
    WakePassthrough,
    Commit(Ic, Seq<char>),
    Inject(KeyEvent),
    ForwardToClient(Ic, KeyEvent),
    Place(Window, i16, i16),
}

impl View for Action {
    type V = ActionView;

    open spec fn view(&self) -> ActionView {
        match *self {
            Action::ToEditor(m) => ActionView::ToEditor(m@),
            Action::ToPassthrough(m) => ActionView::ToPassthrough(m@),
            Action::WakePassthrough => ActionView::WakePassthrough,
            Action::Commit(ic, text) => ActionView::Commit(ic, text@),
            Action::Inject(key_event) => ActionView::Inject(key_event),
            Action::ForwardToClient(ic, key_event) => ActionView::ForwardToClient(ic, key_event),
            Action::Place(w, x, y) => ActionView::Place(w, x, y),
        }
    }
}

impl Clone for Action {
    fn clone(&self) -> (copy: Self)
        ensures
            copy@ == self@,
    {
        match self {
            Action::ToEditor(m) => Action::ToEditor(m.clone()),
            Action::ToPassthrough(m) => Action::ToPassthrough(m.clone()),
            Action::WakePassthrough => Action::WakePassthrough,
            Action::Commit(ic, text) => Action::Commit(*ic, text.clone()),
            Action::Inject(key_event) => Action::Inject(*key_event),
            Action::ForwardToClient(ic, key_event) => Action::ForwardToClient(*ic, *key_event),
            Action::Place(w, x, y) => Action::Place(*w, *x, *y),
        }
    }
}

impl DeepView for Action {
    type V = ActionView;

    open spec fn deep_view(&self) -> ActionView {
        self@
    }
}

/// A focus notification of the input-method protocol.
pub enum FocusEvent {
    In(Ic),
    Out(Ic),
}

/// The focus record after one focus notification: a focus-in makes its
/// context the focused one; a focus-out clears the record if it names the
/// focused context, and is stale otherwise.
pub open spec fn focus_step(focus: Option<Ic>, event: FocusEvent) -> Option<Ic> {
    match event {
        FocusEvent::In(ic) => Some(ic),
        FocusEvent::Out(ic) => if focus == Some(ic) {
            None
        } else {
            focus
        },
    }
}

/// The focus record after a sequence of focus notifications.
pub open spec fn focus_after(focus: Option<Ic>, events: Seq<FocusEvent>) -> Option<Ic>
    decreases events.len(),
{
    if events.len() == 0 {
        focus
    } else {
        focus_step(focus_after(focus, events.drop_last()), events.last())
    }
}

/// Whether `events[k]` is a focus-in of `ic` that no later event undoes: no
/// focus-in follows it, and no focus-out of `ic`.
pub open spec fn unmatched_focus_in(events: Seq<FocusEvent>, k: int, ic: Ic) -> bool {
    &&& 0 <= k < events.len()
    &&& events[k] == FocusEvent::In(ic)
    &&& forall|j: int|
        k < j < events.len() ==> #[trigger] events[j] is Out && events[j] != FocusEvent::Out(ic)
}

/// After any sequence of focus notifications, starting with nothing focused,
/// the focus record is the context of the most recent focus-in if no
/// focus-out of that context came after it, and empty otherwise.
pub proof fn lemma_focus_record(events: Seq<FocusEvent>, ic: Ic)
    ensures
        focus_after(None, events) == Some(ic) <==> exists|k: int|
            unmatched_focus_in(events, k, ic),
    decreases events.len(),
{
    if events.len() > 0 {
        let prev = events.drop_last();
        let last = events.len() - 1;
        lemma_focus_record(prev, ic);
        // A focus-in that nothing undoes in `events` is the last event, or
        // one that nothing undoes in `prev` either.
        if exists|k: int| unmatched_focus_in(events, k, ic) {
            let k = choose|k: int| unmatched_focus_in(events, k, ic);
            if k < last {
                assert(unmatched_focus_in(prev, k, ic));
            }
        }
        // Where `ic` has focus in the end, the last event is its focus-in,
        // or it had focus before and the last event is a focus-out of
        // another context.
        if focus_after(None, events) == Some(ic) {
            match events.last() {
                FocusEvent::In(_) => {
                    assert(unmatched_focus_in(events, last, ic));
                },
                FocusEvent::Out(_) => {
                    let k = choose|k: int| unmatched_focus_in(prev, k, ic);
                    assert(unmatched_focus_in(events, k, ic)) by {
                        assert forall|j: int| k < j < events.len() implies #[trigger] events[j]
                            is Out && events[j] != FocusEvent::Out(ic) by {
                            if j < last {
                                assert(prev[j] == events[j]);
                            }
                        }
                    }
                },
            }
        }
    }
}

/// The coordinator's state as contracts see it.
pub struct CoordinatorView {
    /// The focus record: the context that has focus, if any.
    pub focus: Option<Ic>,
    /// The mode: whether the editor backend is the active one.
    pub editor_active: bool,
    /// The coordinator's own window.
    pub win_server: Window,
    /// The editor backend's window.
    pub win_vime: Window,
    /// The pass-through backend's window.
    pub win_passthru: Window,
    /// The gesture that switches the mode.
    pub trigger: TriggerChord,
}

impl CoordinatorView {
    /// The window of the backend that is active.
    pub open spec fn active_window(self) -> Window {
        if self.editor_active {
            self.win_vime
        } else {
            self.win_passthru
        }
    }

    /// The backend that owns the window `src`, if one of them does.
    pub open spec fn sender(self, src: Window) -> Option<Backend> {
        if src == self.win_vime {
            Some(Backend::Editor)
        } else if src == self.win_passthru {
            Some(Backend::Passthrough)
        } else {
            None
        }
    }

    /// The state after a focus-in of `ic`.
    pub open spec fn after_focus_in(self, ic: Ic) -> CoordinatorView {
        CoordinatorView { focus: focus_step(self.focus, FocusEvent::In(ic)), ..self }
    }

    /// What a focus-in of `ic` calls for: the active backend is told to start
    /// on `ic`, and is woken if it is the pass-through backend.
    pub open spec fn focus_in_actions(self, ic: Ic) -> Seq<ActionView> {
        if self.editor_active {
            seq![ActionView::ToEditor(MessageView::StartPreedit(ic))]
        } else {
            seq![
                ActionView::ToPassthrough(MessageView::StartPreedit(ic)),
                ActionView::WakePassthrough,
            ]
        }
    }

    /// The state after a focus-out of `ic`.
    pub open spec fn after_focus_out(self, ic: Ic) -> CoordinatorView {
        CoordinatorView { focus: focus_step(self.focus, FocusEvent::Out(ic)), ..self }
    }

    /// What a focus-out of `ic` calls for: the editor, if it is active and
    /// `ic` had focus, is told that focus is lost.
    pub open spec fn focus_out_actions(self, ic: Ic) -> Seq<ActionView> {
        if self.focus == Some(ic) && self.editor_active {
            seq![ActionView::ToEditor(MessageView::FocusOut)]
        } else {
            seq![]
        }
    }

    /// Whether the key event, reported for `ic`, is a toggle gesture that
    /// takes effect: `ic` has focus and the event is a press of the chord.
    pub open spec fn toggles(self, ic: Ic, key_event: KeyEvent) -> bool {
        &&& self.focus == Some(ic)
        &&& self.trigger.matches(&key_event)
        &&& key_event.is_press
    }

    /// The state after a key event reported for `ic`: the mode flips on a
    /// toggle gesture and nothing else changes.
    pub open spec fn after_forward(self, ic: Ic, key_event: KeyEvent) -> CoordinatorView {
        if self.toggles(ic, key_event) {
            CoordinatorView { editor_active: !self.editor_active, ..self }
        } else {
            self
        }
    }

    /// What a key event reported for `ic` calls for.
    ///
    /// Nothing, if `ic` does not have focus. On a press of the chord the
    /// active backend is cancelled and the other one started on `ic`. Any
    /// other event, a release of the chord too, is delivered to the active
    /// backend's window.
    pub open spec fn forward_actions(self, ic: Ic, key_event: KeyEvent) -> Seq<ActionView> {
        if self.focus != Some(ic) {
            seq![]
        } else if self.trigger.matches(&key_event) && key_event.is_press {
            if !self.editor_active {
                seq![
                    ActionView::ToPassthrough(MessageView::CancelPreedit),
                    ActionView::WakePassthrough,
                    ActionView::ToEditor(MessageView::StartPreedit(ic)),
                ]
            } else {
                seq![
                    ActionView::ToEditor(MessageView::CancelPreedit),
                    ActionView::ToPassthrough(MessageView::StartPreedit(ic)),
                    ActionView::WakePassthrough,
                ]
            }
        } else {
            seq![ActionView::Inject(key_event.retargeted(self.active_window()))]
        }
    }

    /// The anchor of the popups: the absolute position of the client's window
    /// plus the position of the field inside it, as 16-bit coordinates.
    pub open spec fn anchor(offsets: Seq<(i16, i16)>, pos_x: i16, pos_y: i16) -> (i16, i16) {
        (wrap_coord(sum_x(offsets) + pos_x), wrap_coord(sum_y(offsets) + pos_y))
    }

    /// What a change of the field's position calls for, if `ic` has focus:
    /// the pass-through popup goes to the anchor, the editor popup to the
    /// position adjusted to its monitor, and both are raised.
    pub open spec fn position_actions(
        self,
        ic: Ic,
        offsets: Seq<(i16, i16)>,
        pos_x: i16,
        pos_y: i16,
        monitors: Seq<Monitor>,
        popup: Size,
    ) -> Seq<ActionView> {
        if self.focus != Some(ic) {
            seq![]
        } else {
            let (x, y) = Self::anchor(offsets, pos_x, pos_y);
            let adjusted = adjusted_position(monitors, x, y, popup);
            seq![
                ActionView::Place(self.win_passthru, x, y),
                ActionView::Place(self.win_vime, wrap_coord(adjusted.0), wrap_coord(adjusted.1)),
            ]
        }
    }

    /// The state after the editor has reported: the pass-through backend is
    /// the active one, whatever the report says.
    pub open spec fn after_editor_message(self) -> CoordinatorView {
        CoordinatorView { editor_active: false, ..self }
    }

    /// What follows the end of an editing session for `ic`: if `ic` still
    /// has focus, the pass-through backend is started on it and woken, so
    /// that the field goes on receiving keys without a new focus-in.
    pub open spec fn resume_actions(self, ic: Ic) -> Seq<ActionView> {
        if self.focus == Some(ic) {
            seq![
                ActionView::ToPassthrough(MessageView::StartPreedit(ic)),
                ActionView::WakePassthrough,
            ]
        } else {
            seq![]
        }
    }

    /// What a report of the editor calls for: its text, if it has one, is
    /// committed to the context it names; then the pass-through backend
    /// resumes on that context if it still has focus.
    pub open spec fn editor_message_actions(self, msg: MessageView) -> Seq<ActionView> {
        match msg {
            MessageView::EditResult(ic, Some(text)) => seq![ActionView::Commit(ic, text)]
                + self.resume_actions(ic),
            MessageView::EditResult(ic, None) => self.resume_actions(ic),
            _ => seq![],
        }
    }
}

/// Whether the coordinator accepts the message from the editor backend: an
/// edit result, with or without text.
pub open spec fn from_editor(msg: MessageView) -> bool {
    msg is EditResult
}

/// Whether the coordinator accepts the message from the pass-through backend:
/// an edit result with text, or a key event to forward.
pub open spec fn from_passthrough(msg: MessageView) -> bool {
    match msg {
        MessageView::EditResult(_, Some(_)) => true,
        MessageView::ForwardEvent(_, _) => true,
        _ => false,
    }
}

/// What a message of the pass-through backend calls for: text is committed
/// to the context it names; a key event is forwarded to the client that owns
/// its context, addressed to `client_window`, the client's window for it.
pub open spec fn passthrough_message_actions(msg: MessageView, client_window: Window) -> Seq<
    ActionView,
> {
    match msg {
        MessageView::EditResult(ic, Some(text)) => seq![ActionView::Commit(ic, text)],
        MessageView::ForwardEvent(ic, key_event) => seq![
            ActionView::ForwardToClient(ic, key_event.retargeted(client_window)),
        ],
        _ => seq![],
    }
}

/// One of the two backends.
#[derive(Clone, Copy, Debug, PartialEq, Eq, Structural)]
pub enum Backend {
    Editor,
    Passthrough,
}

/// The session coordinator.
#[derive(Debug)]
pub struct Coordinator {
    current_ic: Option<Ic>,
    vime_state: VimeState,
    win_server: Window,
    win_vime: Window,
    win_passthru: Window,
    trigger: TriggerChord,
}

impl View for Coordinator {
    type V = CoordinatorView;

    closed spec fn view(&self) -> CoordinatorView {
        CoordinatorView {
            focus: self.current_ic,
            editor_active: self.vime_state@,
            win_server: self.win_server,
            win_vime: self.win_vime,
            win_passthru: self.win_passthru,
            trigger: self.trigger,
        }
    }
}

impl Coordinator {
    /// A coordinator with nothing focused and the pass-through backend
    /// active, for the three windows exchanged at startup.
    pub fn new(
        win_server: Window,
        win_vime: Window,
        win_passthru: Window,
        trigger: TriggerChord,
    ) -> (c: Self)
        ensures
            c@ == (CoordinatorView {
                focus: None,
                editor_active: false,
                win_server,
                win_vime,
                win_passthru,
                trigger,
            }),
    {
        Coordinator {
            current_ic: None,
            vime_state: VimeState::new(false),
            win_server,
            win_vime,
            win_passthru,
            trigger,
        }
    }

    /// The context that has focus, if any.
    pub fn focus(&self) -> (focus: Option<Ic>)
        ensures
            focus == self@.focus,
    {
        self.current_ic
    }

    /// Whether `ic` is the context that has focus.
    pub fn is_focused(&self, ic: Ic) -> (b: bool)
        ensures
            b == (self@.focus == Some(ic)),
    {
        match self.current_ic {
            Some(current) => current.id == ic.id,
            None => false,
        }
    }

    /// Whether the editor backend is the active one.
    pub fn is_editor_active(&self) -> (b: bool)
        ensures
            b == self@.editor_active,
    {
        self.vime_state.is_active()
    }

    /// The coordinator's own window.
    pub fn server_window(&self) -> (w: Window)
        ensures
            w == self@.win_server,
    {
        self.win_server
    }

    /// The editor backend's window.
    pub fn editor_window(&self) -> (w: Window)
        ensures
            w == self@.win_vime,
    {
        self.win_vime
    }

    /// The pass-through backend's window.
    pub fn passthrough_window(&self) -> (w: Window)
        ensures
            w == self@.win_passthru,
    {
        self.win_passthru
    }

    /// The backend that a wake-up from the window `src` comes from, if it
    /// comes from one of the two.
    pub fn sender(&self, src: Window) -> (backend: Option<Backend>)
        ensures
            backend == self@.sender(src),
    {
        if src.id == self.win_vime.id {
            Some(Backend::Editor)
        } else if src.id == self.win_passthru.id {
            Some(Backend::Passthrough)
        } else {
            None
        }
    }

    /// The window of the backend that is active.
    pub fn active_window(&self) -> (w: Window)
        ensures
            w == self@.active_window(),
    {
        if self.vime_state.is_active() {
            self.win_vime
        } else {
            self.win_passthru
        }
    }

    /// Handles a focus-in of `ic`: records the focus and starts the active
    /// backend on `ic`.
    pub fn focus_in(&mut self, ic: Ic) -> (actions: Vec<Action>)
        ensures
            final(self)@ == old(self)@.after_focus_in(ic),
            actions.deep_view() == old(self)@.focus_in_actions(ic),
    {
        self.current_ic = Some(ic);
        let mut actions = Vec::new();
        if self.vime_state.is_active() {
            actions.push(Action::ToEditor(Message::StartPreedit(ic)));
        } else {
            actions.push(Action::ToPassthrough(Message::StartPreedit(ic)));
            actions.push(Action::WakePassthrough);
        }
        actions
    }

    /// Handles a focus-out of `ic`. A focus-out of a context that does not
    /// have focus is stale: it changes nothing and calls for nothing.
    pub fn focus_out(&mut self, ic: Ic) -> (actions: Vec<Action>)
        ensures
            final(self)@ == old(self)@.after_focus_out(ic),
            actions.deep_view() == old(self)@.focus_out_actions(ic),
    {
        let mut actions = Vec::new();
        if self.is_focused(ic) {
            self.current_ic = None;
            if self.vime_state.is_active() {
                actions.push(Action::ToEditor(Message::FocusOut));
            }
        }
        actions
    }

    /// Handles a key event that the protocol reports for `ic`.
    ///
    /// An event for a context that does not have focus is dropped. A press of
    /// the trigger chord switches the mode: the active backend is cancelled
    /// and the other one started on `ic`. Every other event, a release of
    /// the chord too, is handed on to the window of the active backend.
    pub fn forward(&mut self, ic: Ic, key_event: KeyEvent) -> (actions: Vec<Action>)
        ensures
            final(self)@ == old(self)@.after_forward(ic, key_event),
            actions.deep_view() == old(self)@.forward_actions(ic, key_event),
    {
        let mut actions = Vec::new();
        if !self.is_focused(ic) {
            return actions;
        }
        if self.trigger.matches(&key_event) && key_event.is_press {
            if !self.vime_state.toggle() {
                actions.push(Action::ToPassthrough(Message::CancelPreedit));
                actions.push(Action::WakePassthrough);
                actions.push(Action::ToEditor(Message::StartPreedit(ic)));
            } else {
                actions.push(Action::ToEditor(Message::CancelPreedit));
                actions.push(Action::ToPassthrough(Message::StartPreedit(ic)));
                actions.push(Action::WakePassthrough);
            }
        } else {
            let target = self.active_window();
            actions.push(Action::Inject(key_event.retargeted(target)));
        }
        actions
    }

    /// Handles a change of the position of the field of `ic` inside its
    /// window. `offsets` holds the offset of that window and of each of its
    /// ancestors, each relative to its parent; `monitors` the active
    /// monitors; `popup` the size of the editor popup.
    ///
    /// A change for a context that does not have focus is dropped.
    pub fn position_changed(
        &self,
        ic: Ic,
        offsets: &[(i16, i16)],
        pos_x: i16,
        pos_y: i16,
        monitors: &[Monitor],
        popup: Size,
    ) -> (actions: Vec<Action>)
        ensures
            actions.deep_view() == self@.position_actions(
                ic,
                offsets@,
                pos_x,
                pos_y,
                monitors@,
                popup,
            ),
    {
        let mut actions = Vec::new();
        if !self.is_focused(ic) {
            return actions;
        }
        let (win_x, win_y) = absolute_position(offsets);
        proof {
            lemma_wrap_coord_add(sum_x(offsets@), pos_x);
            lemma_wrap_coord_add(sum_y(offsets@), pos_y);
        }
        let x = win_x.wrapping_add(pos_x);
        let y = win_y.wrapping_add(pos_y);
        actions.push(Action::Place(self.win_passthru, x, y));
        let (adjusted_x, adjusted_y) = adjust_vime_window_position(x, y, monitors, popup);
        actions.push(Action::Place(self.win_vime, adjusted_x, adjusted_y));
        actions
    }

    /// Handles the report that the editor backend sends when a session is
    /// over.
    ///
    /// The text, if the report has one, is committed to the context that the
    /// report names. The pass-through backend becomes the active one, and is
    /// started at once on that context if it still has focus.
    pub fn on_editor_message(&mut self, msg: Message) -> (actions: Vec<Action>)
        requires
            from_editor(msg@),
        ensures
            final(self)@ == old(self)@.after_editor_message(),
            actions.deep_view() == old(self)@.editor_message_actions(msg@),
    {
        let mut actions = Vec::new();
        self.vime_state.inactivate();
        if let Message::EditResult(ic, text) = msg {
            if let Some(text) = text {
                actions.push(Action::Commit(ic, text));
            }
            if self.is_focused(ic) {
                actions.push(Action::ToPassthrough(Message::StartPreedit(ic)));
                actions.push(Action::WakePassthrough);
            }
        }
        actions
    }

    /// Handles a message of the pass-through backend: text to commit, or a
    /// key event to hand back to the client.
    ///
    /// `client_window` is the window of the client that owns the context of
    /// a key event; for a message without a key event it is not looked at.
    pub fn on_passthrough_message(&self, msg: Message, client_window: Window) -> (actions: Vec<
        Action,
    >)
        requires
            from_passthrough(msg@),
        ensures
            actions.deep_view() == passthrough_message_actions(msg@, client_window),
    {
        let mut actions = Vec::new();
        match msg {
            Message::EditResult(ic, Some(text)) => {
                actions.push(Action::Commit(ic, text));
            },
            Message::ForwardEvent(ic, key_event) => {
                actions.push(Action::ForwardToClient(ic, key_event.retargeted(client_window)));
            },
            _ => {},
        }
        actions
    }
}

/// A toggle gesture while nothing has focus is a no-op: it changes neither
/// the focus record nor the mode, and calls for nothing.
pub proof fn lemma_toggle_unfocused_is_noop(s: CoordinatorView, ic: Ic, key_event: KeyEvent)
    requires
        s.focus is None,
    ensures
        s.after_forward(ic, key_event) == s,
        s.forward_actions(ic, key_event) == Seq::<ActionView>::empty(),
{
}

/// A focus notification changes the focus record and nothing else. A key
/// event changes nothing but the mode, and the mode only if it is a toggle
/// gesture. A report of the editor changes nothing but the mode. So the
/// three windows and the chord never change.
pub proof fn lemma_transitions_change_one_field(s: CoordinatorView, ic: Ic, key_event: KeyEvent)
    ensures
        s.after_focus_in(ic) == (CoordinatorView { focus: s.after_focus_in(ic).focus, ..s }),
        s.after_focus_out(ic) == (CoordinatorView { focus: s.after_focus_out(ic).focus, ..s }),
        s.after_forward(ic, key_event) == (CoordinatorView {
            editor_active: s.after_forward(ic, key_event).editor_active,
            ..s
        }),
        s.after_forward(ic, key_event).editor_active != s.editor_active <==> s.toggles(
            ic,
            key_event,
        ),
        s.after_editor_message() == (CoordinatorView { editor_active: false, ..s }),
{
}

/// One press of the trigger chord for the focused context is one transition:
/// the mode flips, the backend that was active is cancelled before the other
/// one is started, and the focus record stays.
pub proof fn lemma_toggle_switches_mode(s: CoordinatorView, ic: Ic, key_event: KeyEvent)
    requires
        s.toggles(ic, key_event),
    ensures
        s.after_forward(ic, key_event).editor_active == !s.editor_active,
        s.after_forward(ic, key_event).focus == s.focus,
        s.after_forward(ic, key_event).after_forward(ic, key_event) == s,
        !s.editor_active ==> s.forward_actions(ic, key_event).first() == ActionView::ToPassthrough(
            MessageView::CancelPreedit,
        ) && s.forward_actions(ic, key_event).last() == ActionView::ToEditor(
            MessageView::StartPreedit(ic),
        ),
        s.editor_active ==> s.forward_actions(ic, key_event).first() == ActionView::ToEditor(
            MessageView::CancelPreedit,
        ) && s.forward_actions(ic, key_event)[1] == ActionView::ToPassthrough(
            MessageView::StartPreedit(ic),
        ),
{
}

/// The text that an editing session leaves behind is what the coordinator
/// commits: a session for `ic` that ends with status 0 and the buffer `text`
/// reports that text for `ic`, and on that report the coordinator first
/// commits the same text to `ic`.
pub proof fn lemma_session_text_is_committed(s: CoordinatorView, ic: Ic, text: Seq<char>)
    ensures
        ({
            let report = MessageView::EditResult(ic, Some(text));
            &&& end_actions(Some(ic), Some(0), Some(text)).first() == EditorActionView::Send(report)
            &&& from_editor(report)
            &&& s.editor_message_actions(report).first() == ActionView::Commit(ic, text)
        }),
{
}

/// A session that ends abnormally, or whose buffer cannot be read, commits
/// nothing: the field is left as it was.
pub proof fn lemma_failed_session_commits_nothing(
    s: CoordinatorView,
    ic: Ic,
    status: i32,
    buffer: Option<Seq<char>>,
)
    requires
        status != 0 || buffer is None,
    ensures
        ({
            let report = MessageView::EditResult(ic, None);
            &&& end_actions(Some(ic), Some(status), buffer).first() == EditorActionView::Send(
                report,
            )
            &&& forall|i: int|
                0 <= i < s.editor_message_actions(report).len() ==> !(
                #[trigger] s.editor_message_actions(report)[i] is Commit)
        }),
{
}

} // verus!
