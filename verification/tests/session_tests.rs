use assistant_shim::session::SessionState;

#[test]
fn a_fresh_session_is_not_monitoring() {
    let state = SessionState::new();
    assert!(!state.is_monitoring());
}

#[test]
fn start_sets_the_flag_and_stop_clears_it() {
    let state = SessionState::new();
    state.start_monitoring();
    assert!(state.is_monitoring());
    state.stop_monitoring();
    assert!(!state.is_monitoring());
}

#[test]
fn repeated_transitions_are_idempotent() {
    let state = SessionState::new();
    state.start_monitoring();
    state.start_monitoring();
    assert!(state.is_monitoring());
    state.stop_monitoring();
    state.stop_monitoring();
    assert!(!state.is_monitoring());
    state.start_monitoring();
    assert!(state.is_monitoring());
}

#[test]
fn every_read_sees_a_whole_boolean() {
    // Each access happens under the lock, so a read returns exactly the
    // last value a serialized write stored: alternate rapidly and check
    // that only whole values ever come back.
    let state = SessionState::new();
    let mut expected = false;
    for round in 0..50 {
        if round % 2 == 0 {
            state.start_monitoring();
            expected = true;
        } else {
            state.stop_monitoring();
            expected = false;
        }
        assert_eq!(state.is_monitoring(), expected);
    }
}
