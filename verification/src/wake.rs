//! The wake-up: an empty client message of a reserved type, sent to a
//! component's window to make its blocked event wait return. It carries no
//! data; what there is to say travels on the channel.

use crate::message::Window;
use vstd::prelude::*;

verus! {

/// The name under which the type of the wake-up is interned.
pub const VIME_MESSAGE_NAME: &'static str = "VIME_MESSAGE";

/// The number of payload bytes of a client message.
pub const PAYLOAD_LEN: usize = 20;

/// An interned name of the windowing system.
#[derive(Clone, Copy, Debug, PartialEq, Eq, Hash, Structural)]
pub struct Atom {
    pub id: u32,
}

impl Atom {
    /// The atom with the given identifier.
    pub fn new(id: u32) -> (atom: Self)
        ensures
            atom.id == id,
    {
        Atom { id }
    }
}

/// A client message as the windowing system delivers it.
#[derive(Clone, Copy, Debug, PartialEq, Eq)]
pub struct ClientMessage {
    /// The window that the message names: for a wake-up, the sender's.
    pub window: Window,
    /// The type of the message.
    pub message_type: Atom,
    /// The payload.
    pub data: [u8; 20],
}

/// Whether the client message is a wake-up from `src`: it names `src`, has
/// the reserved type, and an empty payload.
pub open spec fn is_notification(message: ClientMessage, src: Window, vime_type: Atom) -> bool {
    &&& message.window == src
    &&& message.message_type == vime_type
    &&& forall|i: int| 0 <= i < PAYLOAD_LEN ==> message.data[i] == 0
}

/// The wake-up that the component with the window `src` sends.
pub fn notification(src: Window, vime_type: Atom) -> (message: ClientMessage)
    ensures
        is_notification(message, src, vime_type),
{
    ClientMessage { window: src, message_type: vime_type, data: [0u8; 20] }
}

/// The sender of a wake-up: the window that the client message names, if
/// the event is a client message of the reserved type, and nothing for any
/// other event.
pub open spec fn wake_sender(vime_type: Atom, event: Option<ClientMessage>) -> Option<Window> {
    match event {
        Some(message) => if message.message_type == vime_type {
            Some(message.window)
        } else {
            None
        },
        None => None,
    }
}

/// Determines whether an event is a wake-up; if it is, returns the window
/// of its sender. `event` is the client message that the event holds, if it
/// is one.
pub fn is_vime_message(vime_type: Atom, event: Option<ClientMessage>) -> (src: Option<Window>)
    ensures
        src == wake_sender(vime_type, event),
{
    match event {
        Some(message) => {
            if message.message_type.id == vime_type.id {
                Some(message.window)
            } else {
                None
            }
        },
        None => None,
    }
}

/// A wake-up is recognised as one, and names its sender.
pub proof fn lemma_notification_is_recognised(message: ClientMessage, src: Window, vime_type: Atom)
    requires
        is_notification(message, src, vime_type),
    ensures
        wake_sender(vime_type, Some(message)) == Some(src),
{
}

} // verus!
