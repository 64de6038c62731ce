//! Timers on Linux: a timer file descriptor each.
//!
//! The system calls are the caller's. A method says what to hand to the next call, or what its
//! outcome means.
use crate::error::{call_result, einval, invalid_argument, Error};
use crate::interval::{duration_secs, duration_subsec_nanos, Interval, NANOS_PER_SEC};
use crate::schedule::Schedule;
use std::time::Duration;
use vstd::prelude::*;

verus! {

/// What to hand to `timerfd_create`.
#[derive(Clone, Copy, Debug, PartialEq, Eq, Structural)]
pub struct Creation {
    pub clock_id: i32,
    pub flags: i32,
}

/// A span of time, as the system calls take it.
#[derive(Clone, Copy, Debug, PartialEq, Eq, Structural)]
pub struct Timespec {
    pub tv_sec: i64,
    pub tv_nsec: i64,
}

impl Timespec {
    /// The length of the span in nanoseconds.
    pub open spec fn nanos(self) -> int {
        self.tv_sec * NANOS_PER_SEC + self.tv_nsec
    }

    /// `timerfd_settime` takes the span. It fails with `EINVAL` on a span that is negative or
    /// whose nanoseconds make up a second.
    pub open spec fn valid(self) -> bool {
        0 <= self.tv_sec && 0 <= self.tv_nsec < NANOS_PER_SEC
    }

    /// The seconds lie between the least and the greatest number of the system's `time_t`.
    pub open spec fn fits(self, least: i64, greatest: i64) -> bool {
        least <= self.tv_sec <= greatest
    }

    /// The seconds, as a number of the system's `time_t`, which holds those from `least` to
    /// `greatest`. Fails with `EINVAL`, as the system would if it could be asked, where the
    /// seconds are no such number.
    pub fn seconds(&self, least: i64, greatest: i64) -> (result: Result<i64, Error>)
        ensures
            self.fits(least, greatest) ==> result == Ok::<i64, Error>(self.tv_sec),
            !self.fits(least, greatest) ==> result == Err::<i64, Error>(invalid_argument()),
    {
        if least <= self.tv_sec && self.tv_sec <= greatest {
            Ok(self.tv_sec)
        } else {
            Err(Error::Os(einval()))
        }
    }
}

/// When a timer file descriptor is to expire: after `initial`, then every `interval`.
#[derive(Clone, Copy, Debug, PartialEq, Eq, Structural)]
pub struct TimerSpec {
    pub interval: Timespec,
    pub initial: Timespec,
}

impl TimerSpec {
    /// The instants at which the timer expires once it is set: none where `initial` is zero,
    /// which disarms it.
    pub open spec fn schedule(self) -> Option<Schedule> {
        if self.initial.nanos() == 0 {
            None
        } else {
            Some(
                Schedule {
                    first: self.initial.nanos() as nat,
                    period: self.interval.nanos() as nat,
                },
            )
        }
    }
}

/// What to hand to `timerfd_settime`.
#[derive(Clone, Copy, Debug, PartialEq, Eq, Structural)]
pub struct SetTime {
    pub fd: i32,
    pub flags: i32,
    pub new_value: TimerSpec,
}

/// The number of seconds as a signed integer: itself where it fits, else the negative number
/// with the same bits.
pub open spec fn signed_secs(secs: u64) -> int {
    if secs <= i64::MAX {
        secs as int
    } else {
        secs - 0x1_0000_0000_0000_0000
    }
}

/// The setting of a timer that expires first after `interval` and then every `interval`.
pub open spec fn timer_spec_for(interval: Interval) -> TimerSpec {
    let span = Timespec {
        tv_sec: signed_secs(interval.secs) as i64,
        tv_nsec: interval.nanos as i64,
    };
    TimerSpec { interval: span, initial: span }
}

/// A timer: its file descriptor.
#[derive(Debug, PartialEq, Eq, Structural)]
pub struct Timer {
    pub fd: i32,
}

impl Timer {
    /// The kind of timer to create: one on the monotonic clock, closed on `exec`, whose reads
    /// do not block. The arguments are `CLOCK_MONOTONIC`, `O_CLOEXEC` and `O_NONBLOCK`, which
    /// differ from one machine to another.
    pub fn creation(clock_monotonic: i32, o_cloexec: i32, o_nonblock: i32) -> (creation: Creation)
        ensures
            creation == (Creation { clock_id: clock_monotonic, flags: o_cloexec | o_nonblock }),
    {
        Creation { clock_id: clock_monotonic, flags: o_cloexec | o_nonblock }
    }

    /// The timer on the descriptor that `timerfd_create` returned as `ret`, or the error it
    /// failed with.
    pub fn new(ret: i32, os_error: i32) -> (result: Result<Timer, Error>)
        ensures
            ret == -1 ==> result == Err::<Timer, Error>(Error::Os(os_error)),
            ret != -1 ==> result == Ok::<Timer, Error>(Timer { fd: ret }),
    {
        match call_result(ret, os_error) {
            Ok(fd) => Ok(Timer { fd }),
            Err(error) => Err(error),
        }
    }

    /// What to hand to `timerfd_settime` so that the timer fires every `interval`, or not at
    /// all if the interval is zero. An interval that is too long for the system turns into a
    /// negative span, which the system refuses.
    pub fn reset(&self, interval: Duration) -> (set_time: SetTime)
        ensures
            set_time == (SetTime {
                fd: self.fd,
                flags: 0,
                new_value: timer_spec_for(Interval::of(interval)),
            }),
            Interval::of(interval).wf(),
    {
        self.reset_to(Interval::from_duration(interval))
    }

    /// As `reset`, for an interval that is already taken apart.
    pub fn reset_to(&self, interval: Interval) -> (set_time: SetTime)
        ensures
            set_time == (SetTime {
                fd: self.fd,
                flags: 0,
                new_value: timer_spec_for(interval),
            }),
    {
        let secs: u64 = interval.secs;
        let tv_sec: i64 = #[verifier::truncate]
        (secs as i64);
        assert(secs <= 0x7fff_ffff_ffff_ffff ==> (secs as i64) == secs) by (bit_vector);
        assert(secs > 0x7fff_ffff_ffff_ffff ==> (secs as i64) == secs - 0x1_0000_0000_0000_0000)
            by (bit_vector);
        let span: Timespec = Timespec { tv_sec, tv_nsec: interval.nanos as i64 };
        SetTime {
            fd: self.fd,
            flags: 0,
            new_value: TimerSpec { interval: span, initial: span },
        }
    }

    /// Whether the system accepted the setting that `reset` asked for.
    pub fn reset_done(&self, ret: i32, os_error: i32) -> (result: Result<(), Error>)
        ensures
            ret == -1 ==> result == Err::<(), Error>(Error::Os(os_error)),
            ret != -1 ==> result == Ok::<(), Error>(()),
    {
        match call_result(ret, os_error) {
            Ok(_) => Ok(()),
            Err(error) => Err(error),
        }
    }

    /// The outcome of `read` on the descriptor: how many bytes of the count the system stored,
    /// or the error it failed with.
    pub fn read_done(&self, ret: isize, os_error: i32) -> (result: Result<usize, Error>)
        ensures
            ret == -1 ==> result == Err::<usize, Error>(Error::Os(os_error)),
            ret != -1 ==> result == Ok::<usize, Error>(ret as usize),
    {
        if ret == -1 {
            Err(Error::Os(os_error))
        } else {
            Ok(ret as usize)
        }
    }
}

/// Once a reset is made the timer fires every interval, to the nanosecond; a reset to the zero
/// interval deactivates it.
pub proof fn law_reset_fires_every_interval(interval: Interval)
    requires
        interval.secs <= i64::MAX,
    ensures
        interval.total_nanos() == 0 ==> timer_spec_for(interval).schedule() is None,
        interval.total_nanos() != 0 ==> timer_spec_for(interval).schedule() == Some(
            Schedule::every(interval.total_nanos()),
        ),
{
}

/// What a reset asks for reaches the system and is taken by it exactly when the seconds of the
/// interval are no more than its `time_t` can hold, and then the seconds are those of the
/// interval. An interval that is too long is refused, not cut short, however wide `time_t` is.
pub proof fn law_too_long_is_refused(interval: Interval, least: i64, greatest: i64)
    requires
        interval.wf(),
        least <= 0 <= greatest,
    ensures
        ({
            let spec = timer_spec_for(interval);
            &&& spec.initial.fits(least, greatest) && spec.initial.valid() <==> interval.secs
                <= greatest
            &&& spec.interval.fits(least, greatest) && spec.interval.valid() <==> interval.secs
                <= greatest
            &&& interval.secs <= greatest ==> spec.initial.tv_sec == interval.secs
            &&& interval.secs <= greatest ==> spec.interval.tv_sec == interval.secs
        }),
{
}

/// A reset sets both spans alike, with the nanoseconds of the interval and with its seconds,
/// which come out smaller by two to the power of 64 if they do not fit.
pub proof fn law_reset_states_the_interval(interval: Interval)
    ensures
        timer_spec_for(interval).initial == timer_spec_for(interval).interval,
        timer_spec_for(interval).initial.tv_nsec == interval.nanos,
        timer_spec_for(interval).initial.tv_sec == interval.secs || timer_spec_for(
            interval,
        ).initial.tv_sec == interval.secs - 0x1_0000_0000_0000_0000,
        timer_spec_for(interval).initial.tv_sec >= 0 <==> interval.secs
            <= 0x7fff_ffff_ffff_ffff,
{
}

/// Seconds fit a `time_t` when they are neither less than its least nor more than its greatest
/// number. A span is valid when it is not negative and its nanoseconds are less than a second.
pub proof fn law_spans_that_fit(span: Timespec, least: i64, greatest: i64)
    ensures
        span.fits(least, greatest) <==> !(span.tv_sec < least) && !(span.tv_sec > greatest),
        span.valid() <==> !(span.tv_sec < 0) && !(span.tv_nsec < 0) && span.tv_nsec
            < 1_000_000_000,
        span.nanos() == span.tv_sec * 1_000_000_000 + span.tv_nsec,
{
}

/// A reset to a `Duration` makes the timer fire every time that `Duration` has passed, to the
/// nanosecond.
pub proof fn law_reset_fires_every_duration(duration: Duration)
    requires
        duration_secs(duration) <= 0x7fff_ffff_ffff_ffff,
        duration_secs(duration) != 0 || duration_subsec_nanos(duration) != 0,
    ensures
        timer_spec_for(Interval::of(duration)).schedule() == Some(
            Schedule {
                first: (duration_secs(duration) * 1_000_000_000 + duration_subsec_nanos(
                    duration,
                )) as nat,
                period: (duration_secs(duration) * 1_000_000_000 + duration_subsec_nanos(
                    duration,
                )) as nat,
            },
        ),
{
}

} // verus!
