use sanglier::dispatch::drain_cap;
use sanglier::wake::WakeSignal;

#[test]
fn fresh_signal_has_no_wake_pending() {
    let mut s = WakeSignal::new();
    assert!(!s.consume());
}

#[test]
fn requested_wake_is_consumed_once() {
    let mut s = WakeSignal::new();
    s.request_wake();
    assert!(s.consume());
    assert!(!s.consume());
}

#[test]
fn repeated_requests_coalesce_into_one() {
    let mut s = WakeSignal::new();
    s.request_wake();
    s.request_wake();
    s.request_wake();
    assert!(s.consume());
    assert!(!s.consume());
}

#[test]
fn wake_preempts_the_idle_wait() {
    // Records are queued and a wake was requested while the dispatcher sat
    // idle: the wait returns at once and the drain cycle starts early.
    let mut s = WakeSignal::new();
    s.request_wake();
    let woke_early = s.consume();
    assert!(woke_early);
    let queued = 3;
    assert!(drain_cap(queued) > 0);
}
