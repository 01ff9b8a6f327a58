use vime::mode::VimeState;

#[test]
fn new_state_reports_what_it_was_made_with() {
    assert!(!VimeState::new(false).is_active());
    assert!(VimeState::new(true).is_active());
}

#[test]
fn toggle_flips_and_returns_the_previous_value() {
    let mut s = VimeState::new(false);
    assert!(!s.toggle());
    assert!(s.is_active());
    assert!(s.toggle());
    assert!(!s.is_active());
}

#[test]
fn inactivate_clears_the_flag_whatever_it_was() {
    let mut s = VimeState::new(true);
    s.inactivate();
    assert!(!s.is_active());
    s.inactivate();
    assert!(!s.is_active());
}
