use std::time::Duration;
use tokio_periodic::count::ByteOrder;
use tokio_periodic::error::Error;
use tokio_periodic::interval::Interval;
use tokio_periodic::windows::{millis, Inner, ResetAction, Timer};

fn to_millis(secs: u64, nanos: u32) -> Result<u32, Error> {
    Timer::<()>::interval_to_millis(Duration::new(secs, nanos))
}

fn timer(active: usize, times_fired: usize) -> Timer<&'static str> {
    Timer { inner: Inner { active, times_fired, registration: None } }
}

const SECOND: Duration = Duration::from_secs(1);

#[test]
fn rounds_up_to_milliseconds() {
    assert_eq!(to_millis(0, 0), Ok(0));
    assert_eq!(to_millis(0, 1), Ok(1));
    assert_eq!(to_millis(0, 1_000_000), Ok(1));
    assert_eq!(to_millis(0, 1_000_001), Ok(2));
    assert_eq!(to_millis(0, 999_999_999), Ok(1_000));
    assert_eq!(to_millis(2, 32_000_000), Ok(2_032));
    assert_eq!(millis(Interval { secs: 2, nanos: 1 }), Ok(2_001));
}

#[test]
fn longer_is_never_fewer_milliseconds() {
    let mut before = 0;
    for nanos in (0..5_000_000).step_by(250_001) {
        let ms = to_millis(0, nanos).unwrap();
        assert!(ms >= before);
        before = ms;
    }
    assert_eq!(before, 5);
}

#[test]
fn refuses_more_milliseconds_than_the_system_counts() {
    assert_eq!(to_millis(4_294_967, 295_000_000), Ok(u32::MAX));
    assert_eq!(to_millis(4_294_967, 295_000_001), Err(Error::Os(87)));
    assert_eq!(to_millis(u64::MAX / 1_000, 999_999_999), Err(Error::Os(87)));
    assert_eq!(to_millis(u64::MAX, 0), Err(Error::Os(87)));
}

#[test]
fn windows_timer_starts_unset() {
    assert_eq!(Timer::<&str>::new(), Ok(timer(0, 0)));
}

#[test]
fn windows_reset_of_an_unset_timer_creates_one() {
    let mut unset = timer(0, 3);
    let create = ResetAction::CreateTimer { due_time: 1_000, period: 1_000, flags: 0 };
    assert_eq!(unset.reset(SECOND), create);
    assert_eq!(unset, timer(0, 0));
    assert_eq!(unset.reset_created(1, 77, 5), Ok(()));
    assert_eq!(unset, timer(77, 0));
}

#[test]
fn windows_reset_of_a_set_timer_deletes_it_first() {
    let mut set = timer(77, 3);
    assert_eq!(set.reset(SECOND), ResetAction::DeleteTimer { handle: 77 });
    assert_eq!(set, timer(0, 3));
    let create = ResetAction::CreateTimer { due_time: 1_000, period: 1_000, flags: 0 };
    assert_eq!(set.reset_deleted(SECOND, 1, 5), create);
    assert_eq!(set, timer(0, 0));
}

#[test]
fn windows_reset_to_zero_creates_none() {
    let mut set = timer(77, 3);
    let zero = Interval { secs: 0, nanos: 0 };
    assert_eq!(set.reset_to(zero), ResetAction::DeleteTimer { handle: 77 });
    assert_eq!(set.reset_deleted_to(zero, 1, 5), ResetAction::Finish(Ok(())));
    assert_eq!(set, timer(0, 0));
}

#[test]
fn windows_reset_fails_when_deleting_does() {
    let mut set = timer(77, 3);
    assert_eq!(set.reset(SECOND), ResetAction::DeleteTimer { handle: 77 });
    assert_eq!(set.reset_deleted(SECOND, 0, 5), ResetAction::Finish(Err(Error::Os(5))));
    assert_eq!(set, timer(0, 3));
}

#[test]
fn windows_reset_fails_when_creating_does() {
    let mut unset = timer(0, 0);
    assert_eq!(unset.reset_created(0, 77, 5), Err(Error::Os(5)));
    assert_eq!(unset, timer(0, 0));
}

#[test]
fn windows_reset_to_too_long_fails_with_the_timer_unset() {
    let mut set = timer(77, 3);
    let longest = Duration::new(u64::MAX, 0);
    assert_eq!(set.reset(longest), ResetAction::DeleteTimer { handle: 77 });
    assert_eq!(set.reset_deleted(longest, 1, 5), ResetAction::Finish(Err(Error::Os(87))));
    assert_eq!(set, timer(0, 0));
}

#[test]
fn windows_read_takes_the_count() {
    let mut set = timer(77, 0x102);
    let mut buf = [0xff; 9];
    assert_eq!(set.read(ByteOrder::Little, &mut buf), Ok(8));
    assert_eq!(buf, [2, 1, 0, 0, 0, 0, 0, 0, 0xff]);
    assert_eq!(set, timer(77, 0));
    assert_eq!(set.read(ByteOrder::Little, &mut buf), Err(Error::WouldBlock));
    assert_eq!(buf, [0, 0, 0, 0, 0, 0, 0, 0, 0xff]);
}

#[test]
fn windows_read_needs_room() {
    let mut set = timer(77, 3);
    let mut buf = [0xff; 7];
    assert_eq!(set.read(ByteOrder::Little, &mut buf), Err(Error::Os(122)));
    assert_eq!(buf, [0xff; 7]);
    assert_eq!(set, timer(77, 3));
}

#[test]
fn windows_callback_counts_and_tells_the_event_loop() {
    let mut set = timer(77, 0);
    assert_eq!(set.inner.callback(), None);
    set.register("first");
    assert_eq!(set.inner.callback(), Some(&"first"));
    set.register("second");
    assert_eq!(set.reregister(), &"second");
    assert_eq!(set.inner.callback(), Some(&"second"));
    assert_eq!(set.deregister(), "second");
    assert_eq!(set.inner.callback(), None);
    assert_eq!(set, timer(77, 4));
}

#[test]
fn windows_count_starts_over() {
    let mut set = timer(77, usize::MAX);
    set.inner.callback();
    assert_eq!(set, timer(77, 0));
}

#[test]
fn windows_release_gives_up_the_handle() {
    let mut set = timer(77, 3);
    assert_eq!(set.release(), Some(77));
    assert_eq!(set.release(), None);
    assert_eq!(set, timer(0, 3));
}
