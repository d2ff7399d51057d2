use sporespawn::SkipSignal;

#[test]
fn new_signal_has_nothing_pending() {
    let mut signal = SkipSignal::new();
    assert!(!signal.is_pending());
    assert!(!signal.consume_if_set());
    assert!(!signal.is_pending());
}

#[test]
fn one_request_is_seen_once() {
    let mut signal = SkipSignal::new();
    signal.request();
    assert!(signal.is_pending());
    assert!(signal.consume_if_set());
    assert!(!signal.is_pending());
    assert!(!signal.consume_if_set());
}

#[test]
fn many_requests_are_seen_as_one() {
    let mut signal = SkipSignal::new();
    signal.request();
    signal.request();
    signal.request();
    assert!(signal.consume_if_set());
    assert!(!signal.consume_if_set());
    assert!(!signal.consume_if_set());
}

#[test]
fn a_request_after_a_take_is_seen_again() {
    let mut signal = SkipSignal::new();
    signal.request();
    assert!(signal.consume_if_set());
    signal.request();
    assert!(signal.consume_if_set());
    assert!(!signal.consume_if_set());
}
