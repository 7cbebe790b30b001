use eink_display::error::WaitForBusyTimeoutError;
use eink_display::wait::{poll_busy, wait_for_idle, BusyPoll, BusySample};

fn trace(busy_until_ms: Option<u64>, end_ms: u64) -> Vec<BusySample> {
    (0..=end_ms)
        .map(|at_ms| BusySample { at_ms, busy: busy_until_ms.map_or(true, |t| at_ms < t) })
        .collect()
}

#[test]
fn poll_judges_each_reading() {
    assert_eq!(poll_busy(false, 0, 10), BusyPoll::Idle);
    assert_eq!(poll_busy(true, 9, 10), BusyPoll::Busy);
    assert_eq!(poll_busy(true, 10, 10), BusyPoll::TimedOut);
    assert_eq!(poll_busy(false, 10, 10), BusyPoll::TimedOut);
    assert_eq!(poll_busy(false, 0, 0), BusyPoll::TimedOut);
}

#[test]
fn wait_succeeds_when_busy_falls_before_the_bound() {
    assert_eq!(wait_for_idle(&trace(Some(5), 20), 10), Ok(()));
    assert_eq!(wait_for_idle(&trace(Some(9), 20), 10), Ok(()));
    assert_eq!(wait_for_idle(&trace(Some(0), 20), 10), Ok(()));
}

#[test]
fn wait_times_out_when_busy_falls_at_or_after_the_bound() {
    assert_eq!(wait_for_idle(&trace(Some(10), 20), 10), Err(WaitForBusyTimeoutError));
    assert_eq!(wait_for_idle(&trace(Some(15), 20), 10), Err(WaitForBusyTimeoutError));
}

#[test]
fn wait_times_out_when_busy_never_falls() {
    assert_eq!(wait_for_idle(&trace(None, 10_000), 10_000), Err(WaitForBusyTimeoutError));
    assert_eq!(wait_for_idle(&trace(None, 200), 100_000), Err(WaitForBusyTimeoutError));
    assert_eq!(wait_for_idle(&[], 10), Err(WaitForBusyTimeoutError));
}
