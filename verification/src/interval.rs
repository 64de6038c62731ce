//! Timer intervals.
use std::time::Duration;
use vstd::prelude::*;

verus! {

/// Nanoseconds in one second.
pub const NANOS_PER_SEC: u32 = 1_000_000_000;

/// The whole seconds that a `Duration` holds.
pub uninterp spec fn duration_secs(duration: Duration) -> u64;

/// The nanoseconds that a `Duration` holds beside its whole seconds.
pub uninterp spec fn duration_subsec_nanos(duration: Duration) -> u32;

/// `Duration::as_secs` returns the number of whole seconds in the duration, a value that
/// depends on the duration alone and goes by the name `duration_secs`.
pub assume_specification[ Duration::as_secs ](duration: &Duration) -> (secs: u64)
    ensures
        secs == duration_secs(*duration),
;

/// `Duration::subsec_nanos` returns the fractional part of the duration in nanoseconds. It
/// depends on the duration alone, goes by the name `duration_subsec_nanos`, and is less than
/// one second.
pub assume_specification[ Duration::subsec_nanos ](duration: &Duration) -> (nanos: u32)
    ensures
        nanos == duration_subsec_nanos(*duration),
        nanos < 1_000_000_000,
;

/// A span of time: whole seconds, and the nanoseconds beyond them.
#[derive(Clone, Copy, Debug, PartialEq, Eq, Structural)]
pub struct Interval {
    pub secs: u64,
    pub nanos: u32,
}

impl Interval {
    /// The nanoseconds make up less than a second.
    pub open spec fn wf(self) -> bool {
        self.nanos < NANOS_PER_SEC
    }

    /// The length of the interval in nanoseconds.
    pub open spec fn total_nanos(self) -> nat {
        (self.secs * NANOS_PER_SEC + self.nanos) as nat
    }

    /// The interval as long as `duration`.
    pub open spec fn of(duration: Duration) -> Interval {
        Interval { secs: duration_secs(duration), nanos: duration_subsec_nanos(duration) }
    }

    /// Takes a `Duration` apart into seconds and nanoseconds.
    pub fn from_duration(duration: Duration) -> (interval: Interval)
        ensures
            interval == Interval::of(duration),
            interval.wf(),
    {
        Interval { secs: duration.as_secs(), nanos: duration.subsec_nanos() }
    }
}

/// The interval made of a `Duration` is as long as the `Duration`: it has the same seconds and the
/// same nanoseconds, and its length in nanoseconds is theirs.
pub proof fn law_interval_is_as_long_as_the_duration(duration: Duration)
    ensures
        Interval::of(duration).secs == duration_secs(duration),
        Interval::of(duration).nanos == duration_subsec_nanos(duration),
        Interval::of(duration).total_nanos() == duration_secs(duration) * 1_000_000_000
            + duration_subsec_nanos(duration),
{
}

/// The length of an interval grows by one nanosecond with each of its nanoseconds, and by a
/// thousand million of them with each of its seconds; the empty interval has none. An interval is
/// well formed when its nanoseconds are fewer than those of a second.
pub proof fn law_length_in_nanoseconds(interval: Interval)
    ensures
        interval.total_nanos() == interval.secs * 1_000_000_000 + interval.nanos,
        interval.wf() <==> interval.nanos < 1_000_000_000,
        interval.total_nanos() == 0 <==> interval.secs == 0 && interval.nanos == 0,
{
}

/// Two well formed intervals are as long as each other only if they are the same.
pub proof fn law_length_tells_the_interval(a: Interval, b: Interval)
    requires
        a.nanos < 1_000_000_000,
        b.nanos < 1_000_000_000,
        a.total_nanos() == b.total_nanos(),
    ensures
        a == b,
{
}

} // verus!
