use std::time::Duration;
use tokio_periodic::error::Error;
use tokio_periodic::interval::Interval;
use tokio_periodic::linux::{Creation, SetTime, Timer, TimerSpec, Timespec};

fn span(tv_sec: i64, tv_nsec: i64) -> TimerSpec {
    let span = Timespec { tv_sec, tv_nsec };
    TimerSpec { interval: span, initial: span }
}

#[test]
fn linux_timer_is_monotonic_and_does_not_block() {
    let creation = Timer::creation(libc::CLOCK_MONOTONIC, libc::O_CLOEXEC, libc::O_NONBLOCK);
    let flags = libc::TFD_CLOEXEC | libc::TFD_NONBLOCK;
    assert_eq!(creation, Creation { clock_id: libc::CLOCK_MONOTONIC, flags });
}

#[test]
fn linux_timer_is_created_or_fails() {
    assert_eq!(Timer::new(9, 24), Ok(Timer { fd: 9 }));
    assert_eq!(Timer::new(-1, 24), Err(Error::Os(24)));
}

#[test]
fn linux_reset_sets_both_spans() {
    let timer = Timer { fd: 9 };
    assert_eq!(
        timer.reset(Duration::new(1, 500_000_000)),
        SetTime { fd: 9, flags: 0, new_value: span(1, 500_000_000) }
    );
    assert_eq!(timer.reset(Duration::new(0, 0)).new_value, span(0, 0));
}

#[test]
fn linux_reset_turns_too_long_into_negative() {
    let timer = Timer { fd: 9 };
    let longest = i64::MAX as u64;
    assert_eq!(timer.reset(Duration::new(longest, 1)).new_value, span(i64::MAX, 1));
    assert_eq!(timer.reset(Duration::new(longest + 1, 1)).new_value, span(i64::MIN, 1));
    assert_eq!(
        timer.reset_to(Interval { secs: u64::MAX, nanos: 999_999_999 }).new_value,
        span(-1, 999_999_999)
    );
}

#[test]
fn linux_outcomes_of_calls() {
    let timer = Timer { fd: 9 };
    assert_eq!(timer.reset_done(0, 22), Ok(()));
    assert_eq!(timer.reset_done(-1, 22), Err(Error::Os(22)));
    assert_eq!(timer.read_done(8, 11), Ok(8));
    assert_eq!(timer.read_done(-1, 11), Err(Error::Os(11)));
}

#[test]
fn linux_seconds_must_fit_time_t() {
    let (least, greatest) = (i32::MIN as i64, i32::MAX as i64);
    let seconds = |tv_sec: i64| Timespec { tv_sec, tv_nsec: 5 }.seconds(least, greatest);
    assert_eq!(seconds(greatest), Ok(greatest));
    assert_eq!(seconds(greatest + 1), Err(Error::Os(libc::EINVAL)));
    assert_eq!(seconds(0x1_0000_0005), Err(Error::Os(libc::EINVAL)));
    assert_eq!(seconds(least), Ok(least));
    assert_eq!(seconds(least - 1), Err(Error::Os(libc::EINVAL)));
    assert_eq!(Timespec { tv_sec: -1, tv_nsec: 5 }.seconds(i64::MIN, i64::MAX), Ok(-1));
}
