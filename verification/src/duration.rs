use vstd::prelude::*;

verus! {

/// Nanoseconds in one second.
pub const NANOS_PER_SEC: u32 = 1_000_000_000;

/// A span of time: whole seconds plus a sub-second nanosecond part.
///
/// Mirrors the subset of `std::time::Duration` the SDK reads.
#[derive(Debug, Clone, Copy, PartialEq, Eq)]
pub struct Duration {
    secs: u64,
    nanos: u32,
}

impl Duration {
    /// Well-formedness: the sub-second part is below one second.
    pub open spec fn wf(self) -> bool {
        self.spec_nanos() < NANOS_PER_SEC
    }

    /// Total length in nanoseconds.
    pub open spec fn total_nanos(self) -> int {
        self.spec_secs() * 1_000_000_000int + self.spec_nanos()
    }

    /// Total length in whole milliseconds.
    pub open spec fn total_millis(self) -> int {
        self.spec_secs() * 1000int + (self.spec_nanos() as int) / 1_000_000
    }

    /// Whole seconds.
    pub closed spec fn spec_secs(self) -> u64 {
        self.secs
    }

    /// Sub-second nanoseconds.
    pub closed spec fn spec_nanos(self) -> u32 {
        self.nanos
    }

    /// Create a duration of `secs` seconds and `nanos` nanoseconds; excess
    /// nanoseconds carry into the seconds.
    pub fn new(secs: u64, nanos: u32) -> (d: Duration)
        requires
            secs + (nanos as int) / 1_000_000_000 <= u64::MAX,
        ensures
            d.wf(),
            d.total_nanos() == secs * 1_000_000_000int + nanos,
    {
        let carry = nanos / NANOS_PER_SEC;
        Duration { secs: secs + carry as u64, nanos: nanos % NANOS_PER_SEC }
    }

    /// The zero-length duration.
    pub fn zero() -> (d: Duration)
        ensures
            d.wf(),
            d.total_nanos() == 0,
    {
        Duration { secs: 0, nanos: 0 }
    }

    /// Create a duration of `secs` whole seconds.
    pub fn from_secs(secs: u64) -> (d: Duration)
        ensures
            d.wf(),
            d.spec_secs() == secs,
            d.spec_nanos() == 0,
    {
        Duration { secs, nanos: 0 }
    }

    /// Create a duration of `millis` milliseconds.
    pub fn from_millis(millis: u64) -> (d: Duration)
        ensures
            d.wf(),
            d.total_nanos() == millis * 1_000_000int,
            d.total_millis() == millis,
    {
        let secs = millis / 1000;
        let rem = millis % 1000;
        let nanos = (rem as u32) * 1_000_000;
        assert(d_total(secs, nanos) == millis * 1_000_000int) by (nonlinear_arith)
            requires secs == millis / 1000, rem == millis % 1000, nanos == rem * 1_000_000;
        Duration { secs, nanos }
    }
}

spec fn d_total(secs: u64, nanos: u32) -> int {
    secs * 1_000_000_000int + nanos
}

impl Duration {
    /// Create a duration of `nanos` nanoseconds.
    pub fn from_nanos(nanos: u64) -> (d: Duration)
        ensures
            d.wf(),
            d.total_nanos() == nanos,
    {
        let secs = nanos / 1_000_000_000;
        let rem = (nanos % 1_000_000_000) as u32;
        assert(d_total(secs, rem) == nanos) by (nonlinear_arith)
            requires secs == nanos / 1_000_000_000, rem == nanos % 1_000_000_000;
        Duration { secs, nanos: rem }
    }

    /// Whole seconds.
    pub fn as_secs(&self) -> (s: u64)
        ensures
            s == self.spec_secs(),
    {
        self.secs
    }

    /// Sub-second nanoseconds.
    pub fn subsec_nanos(&self) -> (n: u32)
        ensures
            n == self.spec_nanos(),
    {
        self.nanos
    }

    /// Whether this duration is zero.
    pub fn is_zero(&self) -> (b: bool)
        ensures
            b == (self.total_nanos() == 0),
    {
        self.secs == 0 && self.nanos == 0
    }
}

/// `n` clamped to the range of `u64`.
pub open spec fn saturate_u64(n: int) -> u64 {
    if n > u64::MAX {
        u64::MAX
    } else {
        n as u64
    }
}

/// Whole milliseconds of `d`, saturating at `u64::MAX` rather than wrapping
/// (an absurdly long timeout still clamps to the host ceiling).
pub fn duration_to_ms(d: Duration) -> (ms: u64)
    ensures
        ms == saturate_u64(d.total_millis()),
{
    let total: u128 = (d.secs as u128) * 1000 + ((d.nanos / 1_000_000) as u128);
    if total > (u64::MAX as u128) {
        u64::MAX
    } else {
        total as u64
    }
}

/// Whole nanoseconds of `d`, saturating at `u64::MAX`.
pub fn duration_to_ns(d: Duration) -> (ns: u64)
    ensures
        ns == saturate_u64(d.total_nanos()),
{
    let total: u128 = (d.secs as u128) * 1_000_000_000 + (d.nanos as u128);
    if total > (u64::MAX as u128) {
        u64::MAX
    } else {
        total as u64
    }
}

/// A point in wall-clock time, as the span since the Unix epoch.
#[derive(Debug, Clone, Copy, PartialEq, Eq)]
pub struct SystemTime {
    pub since_epoch: Duration,
}

} // verus!
