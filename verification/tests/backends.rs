use vime::editor::{Editor, EditorAction};
use vime::message::{Ic, KeyEvent, Message, Window};
use vime::passthrough::{Passthrough, PassthroughAction};

fn plain_key() -> KeyEvent {
    KeyEvent {
        is_press: true,
        detail: 38,
        time: 5,
        root: Window::new(1),
        event: Window::new(2),
        child: Window::none(),
        root_x: 0,
        root_y: 0,
        event_x: 0,
        event_y: 0,
        state: 0,
        same_screen: true,
    }
}

fn fresh_start() -> Vec<EditorAction> {
    vec![
        EditorAction::ClosePty,
        EditorAction::RemoveScratch,
        EditorAction::ResetPty,
        EditorAction::Show,
    ]
}

#[test]
fn first_start_begins_a_fresh_session() {
    let mut e = Editor::new();
    assert_eq!(e.current_ic(), None);
    assert_eq!(e.start_editing(Ic::new(1)), fresh_start());
    assert_eq!(e.current_ic(), Some(Ic::new(1)));
}

#[test]
fn second_start_for_the_same_context_resumes() {
    let mut e = Editor::new();
    e.start_editing(Ic::new(1));
    let actions = e.start_editing(Ic::new(1));
    assert_eq!(actions, vec![EditorAction::Show]);
    assert!(!actions.contains(&EditorAction::RemoveScratch));
    assert_eq!(e.current_ic(), Some(Ic::new(1)));
}

#[test]
fn start_for_another_context_discards_the_buffer() {
    let mut e = Editor::new();
    e.start_editing(Ic::new(1));
    let actions = e.start_editing(Ic::new(2));
    assert!(actions.contains(&EditorAction::RemoveScratch));
    assert_eq!(actions, fresh_start());
    assert_eq!(e.current_ic(), Some(Ic::new(2)));
}

#[test]
fn focus_loss_hides_and_keeps_the_session() {
    let mut e = Editor::new();
    e.start_editing(Ic::new(1));
    assert_eq!(e.focus_lost(), vec![EditorAction::Hide]);
    assert_eq!(e.current_ic(), Some(Ic::new(1)));
    assert_eq!(e.start_editing(Ic::new(1)), vec![EditorAction::Show]);
}

#[test]
fn cancel_hides_and_ends_the_process() {
    let mut e = Editor::new();
    e.start_editing(Ic::new(1));
    assert_eq!(e.cancel_editing(), vec![EditorAction::Hide, EditorAction::ClosePty]);
    assert_eq!(e.current_ic(), Some(Ic::new(1)));
}

#[test]
fn editor_dispatches_the_messages_of_the_coordinator() {
    let mut e = Editor::new();
    assert_eq!(e.on_message(&Message::StartPreedit(Ic::new(9))), fresh_start());
    assert_eq!(e.on_message(&Message::FocusOut), vec![EditorAction::Hide]);
    assert_eq!(e.on_message(&Message::StartPreedit(Ic::new(9))), vec![EditorAction::Show]);
    assert_eq!(
        e.on_message(&Message::CancelPreedit),
        vec![EditorAction::Hide, EditorAction::ClosePty]
    );
    assert_eq!(e.current_ic(), Some(Ic::new(9)));
}

#[test]
fn clean_exit_reports_the_buffer() {
    let mut e = Editor::new();
    e.start_editing(Ic::new(1));
    let actions = e.session_ended(Some(0), Some("hello\n".to_string()));
    assert_eq!(
        actions,
        vec![
            EditorAction::Send(Message::EditResult(Ic::new(1), Some("hello\n".to_string()))),
            EditorAction::WakeCoordinator,
            EditorAction::Hide,
        ]
    );
    assert_eq!(e.current_ic(), None);
}

#[test]
fn abnormal_exit_reports_no_text() {
    let mut e = Editor::new();
    e.start_editing(Ic::new(1));
    let actions = e.session_ended(Some(1), Some("half done".to_string()));
    assert_eq!(
        actions,
        vec![
            EditorAction::Send(Message::EditResult(Ic::new(1), None)),
            EditorAction::WakeCoordinator,
            EditorAction::Hide,
        ]
    );
    assert_eq!(e.current_ic(), None);
    let mut e = Editor::new();
    e.start_editing(Ic::new(1));
    let actions = e.session_ended(Some(-1), Some("x".to_string()));
    assert_eq!(actions[0], EditorAction::Send(Message::EditResult(Ic::new(1), None)));
}

#[test]
fn missing_scratch_file_reports_no_text() {
    let mut e = Editor::new();
    e.start_editing(Ic::new(1));
    let actions = e.session_ended(Some(0), None);
    assert_eq!(actions[0], EditorAction::Send(Message::EditResult(Ic::new(1), None)));
    assert_eq!(actions.len(), 3);
}

#[test]
fn running_process_reports_nothing() {
    let mut e = Editor::new();
    e.start_editing(Ic::new(1));
    assert_eq!(e.session_ended(None, Some("x".to_string())), vec![]);
    assert_eq!(e.current_ic(), Some(Ic::new(1)));
    let mut idle = Editor::new();
    assert_eq!(idle.session_ended(None, None), vec![]);
    assert_eq!(idle.current_ic(), None);
}

#[test]
fn start_after_the_session_is_over_is_fresh() {
    let mut e = Editor::new();
    e.start_editing(Ic::new(1));
    e.session_ended(Some(0), Some("a".to_string()));
    assert_eq!(e.start_editing(Ic::new(1)), fresh_start());
}

#[test]
fn pass_through_slot_follows_start_and_cancel() {
    let mut p = Passthrough::new();
    assert_eq!(p.current_ic(), None);
    p.on_message(&Message::StartPreedit(Ic::new(4)));
    assert_eq!(p.current_ic(), Some(Ic::new(4)));
    p.on_message(&Message::StartPreedit(Ic::new(5)));
    assert_eq!(p.current_ic(), Some(Ic::new(5)));
    p.on_message(&Message::FocusOut);
    p.on_message(&Message::Window(Window::new(1)));
    p.on_message(&Message::EditResult(Ic::new(9), None));
    assert_eq!(p.current_ic(), Some(Ic::new(5)));
    p.on_message(&Message::CancelPreedit);
    assert_eq!(p.current_ic(), None);
}

#[test]
fn pass_through_forwards_keys_for_its_context() {
    let mut p = Passthrough::new();
    p.on_message(&Message::StartPreedit(Ic::new(4)));
    assert_eq!(
        p.forward_key(plain_key()),
        vec![
            PassthroughAction::Send(Message::ForwardEvent(Ic::new(4), plain_key())),
            PassthroughAction::WakeCoordinator,
        ]
    );
}

#[test]
fn pass_through_with_an_empty_slot_forwards_nothing() {
    let mut p = Passthrough::new();
    assert_eq!(p.forward_key(plain_key()), vec![]);
    assert_eq!(p.commit("text".to_string()), vec![]);
    p.on_message(&Message::StartPreedit(Ic::new(4)));
    p.on_message(&Message::CancelPreedit);
    assert_eq!(p.forward_key(plain_key()), vec![]);
    assert_eq!(p.commit("text".to_string()), vec![]);
}

#[test]
fn pass_through_hands_committed_text_to_the_coordinator() {
    let mut p = Passthrough::new();
    p.on_message(&Message::StartPreedit(Ic::new(4)));
    assert_eq!(
        p.commit("日本語".to_string()),
        vec![
            PassthroughAction::Send(Message::EditResult(Ic::new(4), Some("日本語".to_string()))),
            PassthroughAction::WakeCoordinator,
        ]
    );
}
