//! Timers on systems with `kqueue`: one timer event, identified by zero, on a queue of its own.
//!
//! The system calls are the caller's. A method says what to hand to the next call, or what its
//! outcome means.
use crate::count::{decoded, encode, ByteOrder, COUNT_BYTES};
use crate::error::{call_result, einval, invalid_argument, Error};
use crate::interval::{duration_secs, duration_subsec_nanos, Interval};
use crate::schedule::Schedule;
use std::time::Duration;
use vstd::prelude::*;

verus! {

/// The units in which a timer event can state its period.
#[derive(Clone, Copy, Debug, PartialEq, Eq, Structural)]
pub enum TimeUnit {
    Seconds,
    Milliseconds,
    Microseconds,
    Nanoseconds,
}

impl TimeUnit {
    /// The length of the unit in nanoseconds.
    pub open spec fn nanos(self) -> nat {
        match self {
            TimeUnit::Seconds => 1_000_000_000,
            TimeUnit::Milliseconds => 1_000_000,
            TimeUnit::Microseconds => 1_000,
            TimeUnit::Nanoseconds => 1,
        }
    }

    /// The interval is a whole number of these units.
    pub open spec fn divides(self, interval: Interval) -> bool {
        interval.total_nanos() % self.nanos() == 0
    }
}

/// The coarsest unit of which `interval` is a whole number.
pub open spec fn coarsest_unit(interval: Interval) -> TimeUnit {
    if TimeUnit::Seconds.divides(interval) {
        TimeUnit::Seconds
    } else if TimeUnit::Milliseconds.divides(interval) {
        TimeUnit::Milliseconds
    } else if TimeUnit::Microseconds.divides(interval) {
        TimeUnit::Microseconds
    } else {
        TimeUnit::Nanoseconds
    }
}

/// How many of its coarsest units `interval` is.
pub open spec fn unit_count(interval: Interval) -> nat {
    interval.total_nanos() / coarsest_unit(interval).nanos()
}

/// The unit and the number of units in which to state the period `interval`. Fails with
/// `EINVAL` when that number is more than a timer event can hold.
pub fn interval_to_units(interval: Interval) -> (result: Result<(TimeUnit, isize), Error>)
    requires
        interval.wf(),
    ensures
        unit_count(interval) <= isize::MAX ==> result == Ok::<(TimeUnit, isize), Error>(
            (coarsest_unit(interval), unit_count(interval) as isize),
        ),
        unit_count(interval) > isize::MAX ==> result == Err::<(TimeUnit, isize), Error>(
            invalid_argument(),
        ),
{
    let secs: u64 = interval.secs;
    let nanos: u64 = interval.nanos as u64;
    let max: u64 = isize::MAX as u64;
    if nanos > max || secs > max {
        return Err(Error::Os(einval()));
    }
    let (unit, per_sec, subsec): (TimeUnit, isize, u64) = if nanos == 0 {
        (TimeUnit::Seconds, 1, 0)
    } else if nanos % 1_000_000 == 0 {
        (TimeUnit::Milliseconds, 1_000, nanos / 1_000_000)
    } else if nanos % 1_000 == 0 {
        (TimeUnit::Microseconds, 1_000_000, nanos / 1_000)
    } else {
        (TimeUnit::Nanoseconds, 1_000_000_000, nanos)
    };
    assert(unit == coarsest_unit(interval));
    assert(unit_count(interval) == secs * per_sec + subsec);
    match (secs as isize).checked_mul(per_sec) {
        None => Err(Error::Os(einval())),
        Some(whole) => match whole.checked_add(subsec as isize) {
            None => Err(Error::Os(einval())),
            Some(count) => Ok((unit, count)),
        },
    }
}

/// The numbers by which a system's headers name what the timer uses. They differ from one
/// system to another.
#[derive(Clone, Copy, Debug, PartialEq, Eq, Structural)]
pub struct Constants {
    /// `EVFILT_TIMER`
    pub evfilt_timer: i64,
    /// `EV_ADD`
    pub ev_add: u32,
    /// `EV_ENABLE`
    pub ev_enable: u32,
    /// `EV_DISABLE`
    pub ev_disable: u32,
    /// `NOTE_SECONDS`
    pub note_seconds: u32,
    /// `NOTE_MSECONDS`, or zero where milliseconds are what a timer event without a note means
    pub note_mseconds: u32,
    /// `NOTE_USECONDS`
    pub note_useconds: u32,
    /// `NOTE_NSECONDS`
    pub note_nseconds: u32,
}

impl Constants {
    /// The note that stands for `unit`.
    pub open spec fn note_of(self, unit: TimeUnit) -> u32 {
        match unit {
            TimeUnit::Seconds => self.note_seconds,
            TimeUnit::Milliseconds => self.note_mseconds,
            TimeUnit::Microseconds => self.note_useconds,
            TimeUnit::Nanoseconds => self.note_nseconds,
        }
    }

    /// No two units share a note, and an event added enabled differs from one added disabled.
    pub open spec fn distinct(self) -> bool {
        &&& forall|a: TimeUnit, b: TimeUnit|
            #![trigger self.note_of(a), self.note_of(b)]
            self.note_of(a) == self.note_of(b) ==> a == b
        &&& self.ev_add | self.ev_enable != self.ev_add | self.ev_disable
    }

    /// The note that stands for `unit`.
    pub fn note(&self, unit: TimeUnit) -> (note: u32)
        ensures
            note == self.note_of(unit),
    {
        match unit {
            TimeUnit::Seconds => self.note_seconds,
            TimeUnit::Milliseconds => self.note_mseconds,
            TimeUnit::Microseconds => self.note_useconds,
            TimeUnit::Nanoseconds => self.note_nseconds,
        }
    }
}

/// A change of the queue's timer event, as `kevent` takes it.
#[derive(Clone, Copy, Debug, PartialEq, Eq, Structural)]
pub struct Change {
    pub ident: usize,
    pub filter: i64,
    pub flags: u32,
    pub fflags: u32,
    pub data: isize,
}

impl Change {
    /// When the event occurs once the change is made: every `data` units of the kind that `fflags`
    /// notes, provided that the change adds the event and enables it.
    pub open spec fn schedule(self, constants: Constants) -> Option<Schedule> {
        if self.flags == constants.ev_add | constants.ev_enable {
            let unit = choose|unit: TimeUnit| #[trigger] constants.note_of(unit) == self.fflags;
            Some(Schedule::every((self.data * unit.nanos()) as nat))
        } else {
            None
        }
    }
}

/// The change that makes the queue's timer event periodic with the given interval, where the
/// interval can be stated.
pub open spec fn change_for(interval: Interval, constants: Constants) -> Change {
    Change {
        ident: 0,
        filter: constants.evfilt_timer,
        flags: if interval.total_nanos() == 0 {
            constants.ev_add | constants.ev_disable
        } else {
            constants.ev_add | constants.ev_enable
        },
        fflags: constants.note_of(coarsest_unit(interval)),
        data: unit_count(interval) as isize,
    }
}

/// What `kevent` reported when it was asked, without waiting, for one event.
#[derive(Clone, Copy, Debug, PartialEq, Eq, Structural)]
pub struct Report {
    /// What the call returned: -1, or the number of events.
    pub events: i32,
    /// The calling thread's error code after the call.
    pub os_error: i32,
    /// The filter of the event, where there is one.
    pub filter: i64,
    /// The data of the event, where there is one.
    pub data: isize,
}

/// A timer: the queue that its event is on.
#[derive(Debug, PartialEq, Eq, Structural)]
pub struct Timer {
    pub fd: i32,
}

impl Timer {
    /// The timer on the queue that `kqueue` returned as `ret`, or the error it failed with.
    pub fn new(ret: i32, os_error: i32) -> (result: Result<Timer, Error>)
        ensures
            ret == -1 ==> result == Err::<Timer, Error>(Error::Os(os_error)),
            ret != -1 ==> result == Ok::<Timer, Error>(Timer { fd: ret }),
    {
        match call_result(ret, os_error) {
            Ok(fd) => Ok(Timer { fd }),
            Err(error) => Err(error),
        }
    }

    /// The descriptor on which to set `FD_CLOEXEC` by `fcntl`, where the quicker `FIOCLEX`
    /// returned `ioctl_ret`: there is one exactly when that failed.
    pub fn cloexec_fallback(&self, ioctl_ret: i32) -> (fd: Option<i32>)
        ensures
            ioctl_ret == -1 ==> fd == Some(self.fd),
            ioctl_ret != -1 ==> fd is None,
    {
        if ioctl_ret == -1 {
            Some(self.fd)
        } else {
            None
        }
    }

    /// The change to hand to `kevent` so that the timer fires every `interval`, or not at all
    /// if the interval is zero. The event is the same each time, so that the change takes the
    /// place of the one before. Fails with `EINVAL` when the interval is longer than an event
    /// can state.
    pub fn reset(&self, interval: Duration, constants: &Constants) -> (result: Result<
        Change,
        Error,
    >)
        ensures
            unit_count(Interval::of(interval)) <= isize::MAX ==> result == Ok::<Change, Error>(
                change_for(Interval::of(interval), *constants),
            ),
            unit_count(Interval::of(interval)) > isize::MAX ==> result == Err::<Change, Error>(
                invalid_argument(),
            ),
    {
        Timer::reset_to(Interval::from_duration(interval), constants)
    }

    /// As `reset`, for an interval that is already taken apart.
    pub fn reset_to(interval: Interval, constants: &Constants) -> (result: Result<Change, Error>)
        requires
            interval.wf(),
        ensures
            unit_count(interval) <= isize::MAX ==> result == Ok::<Change, Error>(
                change_for(interval, *constants),
            ),
            unit_count(interval) > isize::MAX ==> result == Err::<Change, Error>(
                invalid_argument(),
            ),
    {
        let (unit, count): (TimeUnit, isize) = match interval_to_units(interval) {
            Ok(units) => units,
            Err(error) => return Err(error),
        };
        proof {
            law_units_are_exact(interval);
        }
        let active: u32 = if count == 0 {
            constants.ev_disable
        } else {
            constants.ev_enable
        };
        Ok(
            Change {
                ident: 0,
                filter: constants.evfilt_timer,
                flags: constants.ev_add | active,
                fflags: constants.note(unit),
                data: count,
            },
        )
    }

    /// Whether the system accepted the change that `reset` asked for.
    pub fn reset_done(&self, ret: i32, os_error: i32) -> (result: Result<(), Error>)
        ensures
            ret == -1 ==> result == Err::<(), Error>(Error::Os(os_error)),
            ret != -1 ==> result == Ok::<(), Error>(()),
    {
        match call_result(ret, os_error) {
            Ok(_) => Ok(()),
            Err(error) => Err(error),
        }
    }

    /// The note of the unit, and the number of units, in which an event states the period
    /// `interval`.
    pub fn duration_to_units(interval: Duration, constants: &Constants) -> (result: Result<
        (u32, isize),
        Error,
    >)
        ensures
            unit_count(Interval::of(interval)) <= isize::MAX ==> result == Ok::<
                (u32, isize),
                Error,
            >(
                (
                    constants.note_of(coarsest_unit(Interval::of(interval))),
                    unit_count(Interval::of(interval)) as isize,
                ),
            ),
            unit_count(Interval::of(interval)) > isize::MAX ==> result == Err::<
                (u32, isize),
                Error,
            >(invalid_argument()),
    {
        match interval_to_units(Interval::from_duration(interval)) {
            Ok((unit, count)) => Ok((constants.note(unit), count)),
            Err(error) => Err(error),
        }
    }

    /// Whether a buffer of `len` bytes has room for a count. Tells so before the queue is asked,
    /// since asking takes the event off the queue.
    pub fn read(&self, len: usize) -> (result: Result<(), Error>)
        ensures
            len < 8 ==> result == Err::<(), Error>(invalid_argument()),
            len >= 8 ==> result == Ok::<(), Error>(()),
    {
        if len < COUNT_BYTES {
            Err(Error::Os(einval()))
        } else {
            Ok(())
        }
    }

    /// Stores in `buf` how many times the timer fired, as the queue reported it, and returns
    /// the number of bytes stored. Fails if the call did, or if there was no event. An event of
    /// another kind than a timer's stores nothing.
    pub fn read_done(
        &self,
        report: &Report,
        constants: &Constants,
        order: ByteOrder,
        buf: &mut [u8],
    ) -> (result: Result<usize, Error>)
        requires
            old(buf)@.len() >= 8,
        ensures
            final(buf)@.len() == old(buf)@.len(),
            final(buf)@.skip(8) == old(buf)@.skip(8),
            report.events == -1 ==> result == Err::<usize, Error>(Error::Os(report.os_error)),
            report.events != -1 && report.events != 1 ==> result == Err::<usize, Error>(
                Error::WouldBlock,
            ),
            report.events == 1 && report.filter != constants.evfilt_timer ==> result == Ok::<
                usize,
                Error,
            >(0),
            report.events == 1 && report.filter == constants.evfilt_timer ==> {
                &&& result == Ok::<usize, Error>(8)
                &&& decoded(final(buf)@, order) == report.data as u64
            },
            result != Ok::<usize, Error>(8) ==> final(buf)@ == old(buf)@,
    {
        if report.events == -1 {
            Err(Error::Os(report.os_error))
        } else if report.events == 1 {
            if report.filter != constants.evfilt_timer {
                return Ok(0);
            }
            encode(report.data as u64, order, buf);
            Ok(COUNT_BYTES)
        } else {
            Err(Error::WouldBlock)
        }
    }
}

/// The unit and the number of units state the interval to the nanosecond, the unit is the
/// coarsest that can, and the number is zero for the zero interval alone.
pub proof fn law_units_are_exact(interval: Interval)
    ensures
        unit_count(interval) * coarsest_unit(interval).nanos() == interval.total_nanos(),
        forall|unit: TimeUnit|
            #[trigger] unit.divides(interval) ==> unit.nanos() <= coarsest_unit(
                interval,
            ).nanos(),
        unit_count(interval) == 0 <==> interval.total_nanos() == 0,
{
    assert forall|unit: TimeUnit| #[trigger] unit.divides(interval) implies unit.nanos()
        <= coarsest_unit(interval).nanos() by {
        match unit {
            TimeUnit::Seconds => {},
            TimeUnit::Milliseconds => {},
            TimeUnit::Microseconds => {},
            TimeUnit::Nanoseconds => {},
        }
    }
}

/// An interval of no more nanoseconds than an event can hold is never too long, and neither is
/// one of whole seconds while an event can hold those.
pub proof fn law_not_too_long(interval: Interval)
    requires
        interval.total_nanos() <= isize::MAX || interval.nanos == 0 && interval.secs
            <= isize::MAX,
    ensures
        unit_count(interval) <= isize::MAX,
{
}

/// Once a reset is made the timer fires every interval, to the nanosecond; a reset to the zero
/// interval deactivates it.
pub proof fn law_reset_fires_every_interval(interval: Interval, constants: Constants)
    requires
        unit_count(interval) <= isize::MAX,
        constants.distinct(),
    ensures
        interval.total_nanos() == 0 ==> change_for(interval, constants).schedule(constants) is None,
        interval.total_nanos() != 0 ==> change_for(interval, constants).schedule(constants)
            == Some(Schedule::every(interval.total_nanos())),
{
    law_units_are_exact(interval);
    let change = change_for(interval, constants);
    let unit = coarsest_unit(interval);
    assert(constants.note_of(unit) == change.fflags);
}

/// Every reset changes the same event, so that the timer set before is never left running.
pub proof fn law_reset_replaces_the_timer_before(
    before: Interval,
    after: Interval,
    constants: Constants,
)
    ensures
        change_for(after, constants).ident == change_for(before, constants).ident,
        change_for(after, constants).filter == change_for(before, constants).filter,
{
}

/// The units are a second and its thousandth, millionth and thousand millionth parts.
pub proof fn law_lengths_of_the_units()
    ensures
        TimeUnit::Nanoseconds.nanos() == 1,
        TimeUnit::Microseconds.nanos() == 1_000 * TimeUnit::Nanoseconds.nanos(),
        TimeUnit::Milliseconds.nanos() == 1_000 * TimeUnit::Microseconds.nanos(),
        TimeUnit::Seconds.nanos() == 1_000 * TimeUnit::Milliseconds.nanos(),
{
}

/// Each unit goes by the note that the system's headers have for it, and constants are distinct
/// when those notes are and enabling an added event is not disabling it.
pub proof fn law_notes_of_the_units(constants: Constants)
    ensures
        constants.note_of(TimeUnit::Seconds) == constants.note_seconds,
        constants.note_of(TimeUnit::Milliseconds) == constants.note_mseconds,
        constants.note_of(TimeUnit::Microseconds) == constants.note_useconds,
        constants.note_of(TimeUnit::Nanoseconds) == constants.note_nseconds,
        constants.distinct() <==> {
            &&& constants.note_seconds != constants.note_mseconds
            &&& constants.note_seconds != constants.note_useconds
            &&& constants.note_seconds != constants.note_nseconds
            &&& constants.note_mseconds != constants.note_useconds
            &&& constants.note_mseconds != constants.note_nseconds
            &&& constants.note_useconds != constants.note_nseconds
            &&& constants.ev_add | constants.ev_enable != constants.ev_add | constants.ev_disable
        },
{
    let s = constants.note_of(TimeUnit::Seconds);
    let m = constants.note_of(TimeUnit::Milliseconds);
    let u = constants.note_of(TimeUnit::Microseconds);
    let n = constants.note_of(TimeUnit::Nanoseconds);
    if s != m && s != u && s != n && m != u && m != n && u != n {
        assert forall|a: TimeUnit, b: TimeUnit|
            #![trigger constants.note_of(a), constants.note_of(b)]
            constants.note_of(a) == constants.note_of(b) implies a == b by {
            match a {
                TimeUnit::Seconds => {},
                TimeUnit::Milliseconds => {},
                TimeUnit::Microseconds => {},
                TimeUnit::Nanoseconds => {},
            }
        }
    }
}

/// An interval is stated in whole seconds if it is a whole number of seconds, else in
/// milliseconds, microseconds or nanoseconds, the first of them in which it can be stated to the
/// nanosecond; and it is stated to the nanosecond.
pub proof fn law_units_by_length(interval: Interval)
    ensures
        ({
            let length = interval.secs * 1_000_000_000 + interval.nanos;
            let count = unit_count(interval);
            match coarsest_unit(interval) {
                TimeUnit::Seconds => count * 1_000_000_000 == length,
                TimeUnit::Milliseconds => {
                    &&& count * 1_000_000 == length
                    &&& length % 1_000_000_000 != 0
                },
                TimeUnit::Microseconds => {
                    &&& count * 1_000 == length
                    &&& length % 1_000_000 != 0
                },
                TimeUnit::Nanoseconds => {
                    &&& count == length
                    &&& length % 1_000 != 0
                },
            }
        }),
{
}

/// Every change that a reset submits adds the one timer event of the queue, enabled if the
/// interval is not zero and disabled if it is, whatever the unit.
pub proof fn law_reset_adds_the_event(interval: Interval, constants: Constants)
    ensures
        change_for(interval, constants).ident == 0,
        change_for(interval, constants).filter == constants.evfilt_timer,
        interval.secs != 0 || interval.nanos != 0 ==> change_for(interval, constants).flags
            == constants.ev_add | constants.ev_enable,
        interval.secs == 0 && interval.nanos == 0 ==> change_for(interval, constants).flags
            == constants.ev_add | constants.ev_disable,
{
}

/// The note and the data of the change that a reset submits state the interval to the
/// nanosecond.
pub proof fn law_reset_states_the_interval(interval: Interval, constants: Constants)
    requires
        unit_count(interval) <= isize::MAX,
    ensures
        ({
            let length = interval.secs * 1_000_000_000 + interval.nanos;
            let change = change_for(interval, constants);
            ||| change.fflags == constants.note_seconds && change.data * 1_000_000_000 == length
            ||| change.fflags == constants.note_mseconds && change.data * 1_000_000 == length
                && length % 1_000_000_000 != 0
            ||| change.fflags == constants.note_useconds && change.data * 1_000 == length && length
                % 1_000_000 != 0
            ||| change.fflags == constants.note_nseconds && change.data == length && length % 1_000
                != 0
        }),
{
    law_units_by_length(interval);
    law_notes_of_the_units(constants);
}

/// A reset to a `Duration` makes the timer fire every time that `Duration` has passed, to the
/// nanosecond.
pub proof fn law_reset_fires_every_duration(duration: Duration, constants: Constants)
    requires
        unit_count(Interval::of(duration)) <= isize::MAX,
        constants.distinct(),
        duration_secs(duration) != 0 || duration_subsec_nanos(duration) != 0,
    ensures
        change_for(Interval::of(duration), constants).schedule(constants) == Some(
            Schedule {
                first: (duration_secs(duration) * 1_000_000_000 + duration_subsec_nanos(
                    duration,
                )) as nat,
                period: (duration_secs(duration) * 1_000_000_000 + duration_subsec_nanos(
                    duration,
                )) as nat,
            },
        ),
{
    law_reset_fires_every_interval(Interval::of(duration), constants);
}

} // verus!
