use autogamejournal::activity::ActivityGate;

#[test]
fn same_time_is_rejected_and_a_later_one_accepted() {
    let mut gate = ActivityGate::new();
    gate.commit(100);
    assert_eq!(gate.last_recorded(), 100);
    assert!(!gate.should_capture(Some(100)));
    assert!(gate.should_capture(Some(101)));
    // Asking changes nothing.
    assert_eq!(gate.last_recorded(), 100);
    gate.commit(101);
    assert_eq!(gate.last_recorded(), 101);
    assert!(!gate.should_capture(Some(101)));
}

#[test]
fn new_activity_gate_has_recorded_nothing() {
    let gate = ActivityGate::new();
    assert_eq!(gate.last_recorded(), 0);
    assert!(!gate.should_capture(Some(0)));
    assert!(gate.should_capture(Some(1)));
}

#[test]
fn failed_query_is_rejected() {
    let mut gate = ActivityGate::new();
    assert!(!gate.should_capture(None));
    gate.commit(7);
    assert!(!gate.should_capture(None));
}

#[test]
fn earlier_time_is_rejected() {
    let mut gate = ActivityGate::new();
    gate.commit(100);
    assert!(!gate.should_capture(Some(99)));
    assert!(!gate.should_capture(Some(0)));
    assert!(gate.should_capture(Some(u32::MAX)));
}
