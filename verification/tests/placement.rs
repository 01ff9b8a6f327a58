use vime::placement::{
    absolute_position, adjust_vime_window_position, select_monitor, to_coord, Monitor, Size,
    POPUP_GAP,
};

fn full_hd() -> Vec<Monitor> {
    vec![Monitor::new(0, 0, 1920, 1080)]
}

#[test]
fn popup_near_bottom_right_corner_is_clamped_on_both_edges() {
    let pos = adjust_vime_window_position(1800, 1000, &full_hd(), Size::new(400, 300));
    assert!(pos.0 <= 1520);
    assert!(pos.1 <= 780);
    assert_eq!(pos, (1520, 660));
}

#[test]
fn popup_that_overflows_the_bottom_goes_above_the_anchor() {
    assert_eq!(POPUP_GAP, 40);
    let pos = adjust_vime_window_position(100, 1060, &full_hd(), Size::new(400, 300));
    assert_eq!(pos.1, 1060 - 300 - 40);
    assert_eq!(pos, (100, 720));
}

#[test]
fn popup_that_fits_stays_at_the_anchor() {
    let pos = adjust_vime_window_position(100, 100, &full_hd(), Size::new(400, 300));
    assert_eq!(pos, (100, 100));
}

#[test]
fn popup_that_just_fits_is_not_moved() {
    // bottom edge 780 + 300 == 1080 and right edge 1520 + 400 == 1920
    let pos = adjust_vime_window_position(1520, 780, &full_hd(), Size::new(400, 300));
    assert_eq!(pos, (1520, 780));
    let pos = adjust_vime_window_position(1521, 781, &full_hd(), Size::new(400, 300));
    assert_eq!(pos, (1520, 781 - 300 - 40));
}

#[test]
fn anchor_above_and_left_of_the_monitor_is_clamped_to_its_corner() {
    let monitors = vec![Monitor::new(100, 100, 800, 600)];
    let pos = adjust_vime_window_position(50, 50, &monitors, Size::new(200, 100));
    assert_eq!(pos, (100, 100));
}

#[test]
fn without_monitors_the_anchor_is_returned() {
    let pos = adjust_vime_window_position(-5, 7000, &[], Size::new(400, 300));
    assert_eq!(pos, (-5, 7000));
}

#[test]
fn popup_is_placed_on_the_monitor_that_holds_the_anchor() {
    let monitors = vec![Monitor::new(0, 0, 1920, 1080), Monitor::new(1920, 0, 1920, 1080)];
    let pos = adjust_vime_window_position(3700, 500, &monitors, Size::new(400, 300));
    assert_eq!(pos, (3440, 500));
}

#[test]
fn anchor_on_a_shared_edge_belongs_to_the_first_monitor() {
    let monitors = vec![Monitor::new(0, 0, 1920, 1080), Monitor::new(1920, 0, 1920, 1080)];
    assert_eq!(select_monitor(&monitors, 1920, 500), Some(monitors[0]));
    let pos = adjust_vime_window_position(1920, 500, &monitors, Size::new(400, 300));
    assert_eq!(pos, (1520, 500));
}

#[test]
fn anchor_on_no_monitor_falls_back_to_the_first() {
    let monitors = vec![Monitor::new(0, 0, 100, 100), Monitor::new(200, 200, 100, 100)];
    assert_eq!(select_monitor(&monitors, 150, 150), Some(monitors[0]));
    assert_eq!(select_monitor(&monitors, 250, 250), Some(monitors[1]));
    assert_eq!(select_monitor(&[], 0, 0), None);
}

#[test]
fn monitor_contains_its_edges() {
    let m = Monitor::new(10, 20, 100, 50);
    assert!(m.contains(10, 20));
    assert!(m.contains(110, 70));
    assert!(!m.contains(111, 70));
    assert!(!m.contains(110, 71));
    assert!(!m.contains(9, 20));
    assert!(!m.contains(10, 19));
}

#[test]
fn monitor_at_the_far_corner_of_the_coordinate_space() {
    let m = Monitor::new(32767, 32767, 65535, 65535);
    assert!(m.contains(32767, 32767));
    assert!(!m.contains(32766, 32767));
}

#[test]
fn moving_above_the_anchor_is_not_clamped_to_the_top_again() {
    let monitors = vec![Monitor::new(0, 0, 1920, 200)];
    let pos = adjust_vime_window_position(10, 100, &monitors, Size::new(400, 300));
    assert_eq!(pos, (10, -240));
}

#[test]
fn popup_wider_than_the_monitor_hangs_over_its_left_edge() {
    let monitors = vec![Monitor::new(0, 0, 300, 1080)];
    let pos = adjust_vime_window_position(10, 10, &monitors, Size::new(400, 300));
    assert_eq!(pos, (-100, 10));
}

#[test]
fn position_out_of_range_wraps_to_sixteen_bits() {
    let monitors = vec![Monitor::new(0, -32768, 100, 10)];
    let pos = adjust_vime_window_position(0, -32768, &monitors, Size::new(1, 65535));
    // -32768 - 65535 - 40 == -98343, which is 32729 modulo 2^16
    assert_eq!(pos, (0, 32729));
}

#[test]
fn to_coord_keeps_what_fits_and_wraps_the_rest() {
    assert_eq!(to_coord(0), 0);
    assert_eq!(to_coord(32767), 32767);
    assert_eq!(to_coord(-32768), -32768);
    assert_eq!(to_coord(32768), -32768);
    assert_eq!(to_coord(-32769), 32767);
    assert_eq!(to_coord(70000), 4464);
    assert_eq!(to_coord(-40000), 25536);
    assert_eq!(to_coord(i32::MAX), -1);
    assert_eq!(to_coord(i32::MIN), 0);
    assert_eq!(to_coord(-98343), -98343i32 as i16);
}

#[test]
fn absolute_position_sums_the_offsets_of_the_ancestors() {
    assert_eq!(absolute_position(&[(10, 20), (100, 200), (0, 0)]), (110, 220));
    assert_eq!(absolute_position(&[(-3, 4), (1, -10)]), (-2, -6));
    assert_eq!(absolute_position(&[(5, 6)]), (5, 6));
}

#[test]
fn absolute_position_of_no_window_is_the_origin() {
    assert_eq!(absolute_position(&[]), (0, 0));
}

#[test]
fn absolute_position_wraps_like_a_sixteen_bit_coordinate() {
    assert_eq!(absolute_position(&[(32767, -32768), (1, -1)]), (-32768, 32767));
    assert_eq!(absolute_position(&[(32767, 0), (32767, 0), (2, 0)]), (0, 0));
}
