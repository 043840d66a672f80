use autogamejournal::geometry::{is_fullscreen, Rect};

const MONITOR: Rect = Rect { left: 0, top: 0, right: 1920, bottom: 1080 };

#[test]
fn window_equal_to_its_monitor_is_fullscreen() {
    assert!(is_fullscreen(&MONITOR, &MONITOR));
}

#[test]
fn window_inset_on_one_edge_is_not_fullscreen() {
    assert!(!is_fullscreen(&Rect { left: 1, ..MONITOR }, &MONITOR));
    assert!(!is_fullscreen(&Rect { top: 1, ..MONITOR }, &MONITOR));
    assert!(!is_fullscreen(&Rect { right: 1919, ..MONITOR }, &MONITOR));
    assert!(!is_fullscreen(&Rect { bottom: 1079, ..MONITOR }, &MONITOR));
    assert!(!is_fullscreen(&Rect { bottom: 1040, ..MONITOR }, &MONITOR));
}

#[test]
fn window_larger_than_its_monitor_is_fullscreen() {
    let window = Rect { left: -8, top: -8, right: 1928, bottom: 1088 };
    assert!(is_fullscreen(&window, &MONITOR));
    assert!(is_fullscreen(&Rect { left: -1, ..MONITOR }, &MONITOR));
    assert!(is_fullscreen(&Rect { bottom: 1081, ..MONITOR }, &MONITOR));
}

#[test]
fn window_larger_on_three_edges_and_short_on_one_is_not_fullscreen() {
    let window = Rect { left: -8, top: -8, right: 1928, bottom: 1079 };
    assert!(!is_fullscreen(&window, &MONITOR));
}

#[test]
fn fullscreen_on_a_monitor_left_of_the_primary() {
    let monitor = Rect { left: -2560, top: -200, right: 0, bottom: 1240 };
    assert!(is_fullscreen(&monitor, &monitor));
    assert!(!is_fullscreen(&Rect { left: -2559, ..monitor }, &monitor));
    assert!(!is_fullscreen(&MONITOR, &monitor));
}

#[test]
fn fullscreen_at_the_limits_of_the_coordinates() {
    let all = Rect { left: i32::MIN, top: i32::MIN, right: i32::MAX, bottom: i32::MAX };
    assert!(is_fullscreen(&all, &all));
    assert!(is_fullscreen(&all, &MONITOR));
    assert!(!is_fullscreen(&MONITOR, &all));
}

#[test]
fn window_short_on_one_edge_and_far_out_on_the_others_is_not_fullscreen() {
    let window = Rect { left: 1, top: -500, right: 5000, bottom: 5000 };
    assert!(!is_fullscreen(&window, &MONITOR));
}
