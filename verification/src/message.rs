//! The values that travel between the coordinator and its two backends.

use vstd::prelude::*;

verus! {

/// An input context: one focusable text field of one client application.
///
/// Only the identifier is kept; two contexts are the same field exactly when
/// their identifiers are equal.
#[derive(Clone, Copy, Debug, PartialEq, Eq, Hash, Structural)]
pub struct Ic {
    pub id: u32,
}

impl Ic {
    /// The context with the given identifier.
    pub fn new(id: u32) -> (ic: Self)
        ensures
            ic.id == id,
    {
        Ic { id }
    }
}

/// A window of the windowing system, by its resource identifier.
#[derive(Clone, Copy, Debug, PartialEq, Eq, Hash, Structural)]
pub struct Window {
    pub id: u32,
}

impl Window {
    /// The null window.
    pub open spec fn spec_none() -> Window {
        Window { id: 0 }
    }

    /// The null window, which stands for "no window".
    #[verifier::when_used_as_spec(spec_none)]
    pub fn none() -> (w: Self)
        ensures
            w == Self::spec_none(),
    {
        Window { id: 0 }
    }

    /// The window with the given resource identifier.
    pub fn new(id: u32) -> (w: Self)
        ensures
            w.id == id,
    {
        Window { id }
    }

    /// Whether this is the null window.
    pub open spec fn spec_is_none(&self) -> bool {
        self.id == 0
    }

    /// Whether this is the null window.
    #[verifier::when_used_as_spec(spec_is_none)]
    pub fn is_none(&self) -> (b: bool)
        ensures
            b == (*self == Window::none()),
    {
        self.id == 0
    }
}

/// A key press or release as the windowing system reports it.
#[derive(Clone, Copy, Debug, PartialEq, Eq, Structural)]
pub struct KeyEvent {
    /// Press (`true`) or release (`false`).
    pub is_press: bool,
    /// The keycode.
    pub detail: u8,
    /// Server time of the event.
    pub time: u32,
    pub root: Window,
    /// The window the event is reported to.
    pub event: Window,
    pub child: Window,
    pub root_x: i16,
    pub root_y: i16,
    pub event_x: i16,
    pub event_y: i16,
    /// The modifier keys and pointer buttons held, one bit each.
    pub state: u32,
    pub same_screen: bool,
}

impl KeyEvent {
    /// This event as it is delivered to `target`: addressed to that window,
    /// with no child window, and otherwise unchanged.
    pub open spec fn spec_retargeted(self, target: Window) -> KeyEvent {
        KeyEvent { event: target, child: Window::none(), ..self }
    }

    /// Readdresses the event to `target` and clears its child window.
    #[verifier::when_used_as_spec(spec_retargeted)]
    pub fn retargeted(self, target: Window) -> (e: KeyEvent)
        ensures
            e == self.spec_retargeted(target),
    {
        KeyEvent { event: target, child: Window::none(), ..self }
    }
}

/// A message passed between the coordinator and a backend.
#[derive(Debug, PartialEq, Eq)]
pub enum Message {
    /// Announces the sender's window.
    Window(Window),
    /// Start (or resume) serving the given field.
    StartPreedit(Ic),
    /// Stop serving the current field at once.
    CancelPreedit,
    /// The field lost focus; the session may resume later.
    FocusOut,
    /// The outcome of an editing session: the text to commit, or nothing.
    EditResult(Ic, Option<String>),
    /// A key event that the backend hands back for the given field.
    ForwardEvent(Ic, KeyEvent),
}

/// The characters of an optional text.
pub open spec fn text_view(text: Option<String>) -> Option<Seq<char>> {
    match text {
        Some(t) => Some(t@),
        None => None,
    }
}

/// What a [`Message`] says, with its text as a sequence of characters.
pub enum MessageView {
    Window(Window),
    StartPreedit(Ic),
    CancelPreedit,
    FocusOut,
    EditResult(Ic, Option<Seq<char>>),
    ForwardEvent(Ic, KeyEvent),
}

impl View for Message {
    type V = MessageView;

    open spec fn view(&self) -> MessageView {
        match *self {
            Message::Window(w) => MessageView::Window(w),
            Message::StartPreedit(ic) => MessageView::StartPreedit(ic),
            Message::CancelPreedit => MessageView::CancelPreedit,
            Message::FocusOut => MessageView::FocusOut,
            Message::EditResult(ic, text) => MessageView::EditResult(ic, text_view(text)),
            Message::ForwardEvent(ic, key_event) => MessageView::ForwardEvent(ic, key_event),
        }
    }
}

impl Message {
    /// The window that the message announces, if it announces one.
    pub fn as_window(&self) -> (w: Option<Window>)
        ensures
            w == (match self@ {
                MessageView::Window(window) => Some(window),
                _ => None,
            }),
    {
        match self {
            Message::Window(window) => Some(*window),
            _ => None,
        }
    }
}

impl Clone for Message {
    fn clone(&self) -> (copy: Self)
        ensures
            copy@ == self@,
    {
        match self {
            Message::Window(w) => Message::Window(*w),
            Message::StartPreedit(ic) => Message::StartPreedit(*ic),
            Message::CancelPreedit => Message::CancelPreedit,
            Message::FocusOut => Message::FocusOut,
            Message::EditResult(ic, Some(text)) => Message::EditResult(*ic, Some(text.clone())),
            Message::EditResult(ic, None) => Message::EditResult(*ic, None),
            Message::ForwardEvent(ic, key_event) => Message::ForwardEvent(*ic, *key_event),
        }
    }
}

impl DeepView for Message {
    type V = MessageView;

    open spec fn deep_view(&self) -> MessageView {
        self@
    }
}

} // verus!
