//! Waiting for the controller's busy line to fall, with a bound.
//!
//! The line reads high while the controller works and low once it is idle.
//! The wait polls it; each reading, with the time since the wait began, is
//! judged by `poll_busy`.
use vstd::prelude::*;
use crate::error::WaitForBusyTimeoutError;

verus! {

/// What one reading of the busy line means for a wait.
#[derive(Clone, Copy, Debug, PartialEq, Eq, Structural)]
pub enum BusyPoll {
    /// The controller is idle: the wait is over.
    Idle,
    /// Still busy and still in time: read again.
    Busy,
    /// The bound has run out.
    TimedOut,
}

/// Judges a reading `busy` of the busy line taken `elapsed_ms` after the wait
/// began. Only a low reading strictly before the bound ends the wait well.
pub fn poll_busy(busy: bool, elapsed_ms: u64, timeout_ms: u64) -> (r: BusyPoll)
    ensures
        elapsed_ms >= timeout_ms ==> r == BusyPoll::TimedOut,
        elapsed_ms < timeout_ms && !busy ==> r == BusyPoll::Idle,
        elapsed_ms < timeout_ms && busy ==> r == BusyPoll::Busy,
{
    if elapsed_ms >= timeout_ms {
        BusyPoll::TimedOut
    } else if busy {
        BusyPoll::Busy
    } else {
        BusyPoll::Idle
    }
}

/// One reading of the busy line.
#[derive(Clone, Copy, Debug, PartialEq, Eq, Structural)]
pub struct BusySample {
    /// Milliseconds since the wait began.
    pub at_ms: u64,
    /// Whether the line read high.
    pub busy: bool,
}

/// Whether `s` shows the line low strictly before `timeout_ms`.
pub open spec fn idle_in_time(s: BusySample, timeout_ms: u64) -> bool {
    !s.busy && s.at_ms < timeout_ms
}

/// A wait over the readings `samples`, taken in order of time: it succeeds
/// exactly when the line reads low at some point strictly before the bound,
/// and fails with the timeout error when it never does.
pub fn wait_for_idle(samples: &[BusySample], timeout_ms: u64) -> (r: Result<(), WaitForBusyTimeoutError>)
    requires
        forall|i: int, j: int|
            0 <= i <= j < samples@.len() ==> #[trigger] samples@[i].at_ms <= #[trigger] samples@[j].at_ms,
    ensures
        r is Ok <==> exists|i: int| 0 <= i < samples@.len() && idle_in_time(#[trigger] samples@[i], timeout_ms),
        r is Err ==> r == Err::<(), _>(WaitForBusyTimeoutError),
{
    let mut i: usize = 0;
    while i < samples.len()
        invariant
            i <= samples@.len(),
            forall|a: int, b: int|
                0 <= a <= b < samples@.len() ==> #[trigger] samples@[a].at_ms <= #[trigger] samples@[b].at_ms,
            forall|k: int| 0 <= k < i ==> !idle_in_time(#[trigger] samples@[k], timeout_ms),
        decreases samples@.len() - i,
    {
        let s = samples[i];
        match poll_busy(s.busy, s.at_ms, timeout_ms) {
            BusyPoll::Idle => {
                assert(idle_in_time(samples@[i as int], timeout_ms));
                return Ok(());
            },
            BusyPoll::TimedOut => {
                assert forall|k: int| 0 <= k < samples@.len() implies !idle_in_time(
                    #[trigger] samples@[k],
                    timeout_ms,
                ) by {
                    if k >= i {
                        assert(samples@[i as int].at_ms <= samples@[k].at_ms);
                    }
                }
                return Err(WaitForBusyTimeoutError);
            },
            BusyPoll::Busy => {},
        }
        i = i + 1;
    }
    Err(WaitForBusyTimeoutError)
}

} // verus!
