use std::time::Duration;
use tokio_periodic::error::{call_result, Error};
use tokio_periodic::interest::timer_interest;
use tokio_periodic::interval::Interval;

#[test]
fn takes_durations_apart() {
    assert_eq!(
        Interval::from_duration(Duration::new(3, 1_500_000_007)),
        Interval { secs: 4, nanos: 500_000_007 }
    );
    assert_eq!(
        Interval::from_duration(Duration::new(u64::MAX, 999_999_999)),
        Interval { secs: u64::MAX, nanos: 999_999_999 }
    );
}

#[test]
fn minus_one_is_failure() {
    assert_eq!(call_result(-1, 13), Err(Error::Os(13)));
    assert_eq!(call_result(0, 13), Ok(0));
    assert_eq!(call_result(-2, 13), Ok(-2));
}

#[test]
fn timers_are_watched_for_reading_and_errors() {
    let wanted = mio::Ready::readable() | mio::unix::UnixReady::error();
    assert_eq!(timer_interest(mio::Ready::writable()), wanted);
    assert_eq!(timer_interest(mio::Ready::empty()), wanted);
    assert_eq!(timer_interest(mio::Ready::all()), wanted);
}
