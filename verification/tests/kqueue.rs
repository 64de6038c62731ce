use std::time::Duration;
use tokio_periodic::count::ByteOrder;
use tokio_periodic::error::Error;
use tokio_periodic::interval::Interval;
use tokio_periodic::kqueue::{interval_to_units, Change, Constants, Report, TimeUnit, Timer};

const FREEBSD: Constants = Constants {
    evfilt_timer: -7,
    ev_add: 0x1,
    ev_enable: 0x4,
    ev_disable: 0x8,
    note_seconds: 0x1,
    note_mseconds: 0x2,
    note_useconds: 0x4,
    note_nseconds: 0x8,
};

fn units(secs: u64, nanos: u32) -> Result<(u32, isize), Error> {
    Timer::duration_to_units(Duration::new(secs, nanos), &FREEBSD)
}

fn too_long<T>() -> Result<T, Error> {
    Err(Error::Os(libc::EINVAL))
}

#[test]
fn states_intervals_in_the_coarsest_unit() {
    assert_eq!(units(0, 0), Ok((0x1, 0)));
    assert_eq!(units(3, 0), Ok((0x1, 3)));
    assert_eq!(units(0, 32_000_000), Ok((0x2, 32)));
    assert_eq!(units(0, 5_000_000), Ok((0x2, 5)));
    assert_eq!(units(1, 500_000_000), Ok((0x2, 1_500)));
    assert_eq!(units(1, 5_000), Ok((0x4, 1_000_005)));
    assert_eq!(units(0, 1), Ok((0x8, 1)));
    assert_eq!(units(2, 999_999_999), Ok((0x8, 2_999_999_999)));
}

#[test]
fn refuses_intervals_of_too_many_units() {
    let max = isize::MAX as u64;
    assert_eq!(units(max, 0), Ok((0x1, isize::MAX)));
    assert_eq!(units(max + 1, 0), too_long());
    assert_eq!(units(max / 1_000, 807_000_000), Ok((0x2, isize::MAX)));
    assert_eq!(units(max / 1_000, 808_000_000), too_long());
    assert_eq!(units(max / 1_000 + 1, 1_000_000), too_long());
    assert_eq!(units(max / 1_000_000_000, 854_775_807), Ok((0x8, isize::MAX)));
    assert_eq!(units(max / 1_000_000_000, 854_775_809), too_long());
    assert_eq!(units(u64::MAX, 999_999_999), too_long());
}

#[test]
fn units_of_a_taken_apart_interval() {
    assert_eq!(
        interval_to_units(Interval { secs: 0, nanos: 7_000 }),
        Ok((TimeUnit::Microseconds, 7))
    );
    assert_eq!(FREEBSD.note(TimeUnit::Microseconds), 0x4);
}

#[test]
fn kqueue_reset_enables_the_event() {
    let timer = Timer { fd: 4 };
    let change = Change { ident: 0, filter: -7, flags: 0x5, fflags: 0x2, data: 32 };
    assert_eq!(timer.reset(Duration::new(0, 32_000_000), &FREEBSD), Ok(change));
    assert_eq!(Timer::reset_to(Interval { secs: 0, nanos: 32_000_000 }, &FREEBSD), Ok(change));
}

#[test]
fn kqueue_reset_to_zero_disables_the_event() {
    let change = Change { ident: 0, filter: -7, flags: 0x9, fflags: 0x1, data: 0 };
    assert_eq!(Timer { fd: 4 }.reset(Duration::new(0, 0), &FREEBSD), Ok(change));
}

#[test]
fn kqueue_reset_refuses_too_long() {
    let longest = Duration::new(u64::MAX, 0);
    assert_eq!(Timer { fd: 4 }.reset(longest, &FREEBSD), too_long());
}

#[test]
fn kqueue_outcomes_of_calls() {
    assert_eq!(Timer::new(4, 24), Ok(Timer { fd: 4 }));
    assert_eq!(Timer::new(-1, 24), Err(Error::Os(24)));
    let timer = Timer { fd: 4 };
    assert_eq!(timer.cloexec_fallback(-1), Some(4));
    assert_eq!(timer.cloexec_fallback(0), None);
    assert_eq!(timer.reset_done(0, 2), Ok(()));
    assert_eq!(timer.reset_done(-1, 2), Err(Error::Os(2)));
    assert_eq!(timer.read(7), too_long());
    assert_eq!(timer.read(8), Ok(()));
}

fn report(events: i32, filter: i64, data: isize) -> Report {
    Report { events, os_error: 4, filter, data }
}

fn read(report: Report) -> (Result<usize, Error>, [u8; 9]) {
    let mut buf = [0xff; 9];
    let result = Timer { fd: 4 }.read_done(&report, &FREEBSD, ByteOrder::Big, &mut buf);
    (result, buf)
}

#[test]
fn kqueue_read_stores_the_count() {
    let stored = [0, 0, 0, 0, 0, 0, 1, 2, 0xff];
    assert_eq!(read(report(1, -7, 0x102)), (Ok(8), stored));
}

#[test]
fn kqueue_read_without_a_count() {
    assert_eq!(read(report(-1, -7, 3)), (Err(Error::Os(4)), [0xff; 9]));
    assert_eq!(read(report(0, -7, 3)), (Err(Error::WouldBlock), [0xff; 9]));
    assert_eq!(read(report(1, -1, 3)), (Ok(0), [0xff; 9]));
}
