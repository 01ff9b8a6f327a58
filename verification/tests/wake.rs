use vime::message::Window;
use vime::wake::{is_vime_message, notification, Atom, ClientMessage, VIME_MESSAGE_NAME};

#[test]
fn notification_names_its_sender_and_carries_nothing() {
    let n = notification(Window::new(11), Atom::new(400));
    assert_eq!(n.window, Window::new(11));
    assert_eq!(n.message_type, Atom::new(400));
    assert_eq!(n.data, [0u8; 20]);
}

#[test]
fn notification_is_recognised_as_a_wake_up() {
    let vime_type = Atom::new(400);
    let n = notification(Window::new(11), vime_type);
    assert_eq!(is_vime_message(vime_type, Some(n)), Some(Window::new(11)));
}

#[test]
fn client_message_of_another_type_is_no_wake_up() {
    let m = ClientMessage { window: Window::new(11), message_type: Atom::new(401), data: [0; 20] };
    assert_eq!(is_vime_message(Atom::new(400), Some(m)), None);
}

#[test]
fn event_that_is_no_client_message_is_no_wake_up() {
    assert_eq!(is_vime_message(Atom::new(400), None), None);
}

#[test]
fn wake_up_type_is_interned_under_a_fixed_name() {
    assert_eq!(VIME_MESSAGE_NAME, "VIME_MESSAGE");
}
