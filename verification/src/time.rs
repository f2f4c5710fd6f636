//! Wall-clock and monotonic time, read through the host.
//!
//! The guest has no clock of its own: the host answers with integer counts
//! (milliseconds since the epoch, monotonic nanoseconds) that are turned
//! into time values here.
use vstd::prelude::*;
use crate::duration::{Duration, SystemTime, duration_to_ns, saturate_u64};

verus! {

/// The wall-clock time `ms` milliseconds after the Unix epoch.
pub fn now(ms: u64) -> (t: SystemTime)
    ensures
        t.since_epoch.wf(),
        t.since_epoch.total_nanos() == ms * 1_000_000,
{
    SystemTime { since_epoch: Duration::from_millis(ms) }
}

/// A monotonic clock reading of `ns` nanoseconds.
pub fn monotonic(ns: u64) -> (d: Duration)
    ensures
        d.wf(),
        d.total_nanos() == ns,
{
    Duration::from_nanos(ns)
}

/// The nanosecond count handed to the host to sleep for `duration`,
/// saturating at `u64::MAX`.
pub fn sleep(duration: Duration) -> (ns: u64)
    ensures
        ns == saturate_u64(duration.total_nanos()),
{
    duration_to_ns(duration)
}

} // verus!
