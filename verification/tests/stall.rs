use recompress::watchdog::Watchdog;
use recompress::watchdog::WATCHDOG_DEADLINE_MS;

#[test]
fn watchdog_aborts_when_no_input_arrived_by_the_deadline() {
    let watchdog = Watchdog::arm(WATCHDOG_DEADLINE_MS);
    assert!(!watchdog.should_abort(WATCHDOG_DEADLINE_MS - 1));
    assert!(watchdog.should_abort(WATCHDOG_DEADLINE_MS));
    assert!(watchdog.should_abort(WATCHDOG_DEADLINE_MS + 1));
}

#[test]
fn watchdog_never_fires_once_input_arrived() {
    let mut watchdog = Watchdog::arm(WATCHDOG_DEADLINE_MS);
    watchdog.record_input();
    assert!(!watchdog.should_abort(WATCHDOG_DEADLINE_MS));
    assert!(!watchdog.should_abort(u64::MAX));
}
