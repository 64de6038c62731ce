//! The periodic timer that an event loop polls.
use crate::count::{decode, decoded, ByteOrder};
use crate::error::{invalid_argument, Error};
use crate::interval::Interval;
use crate::kqueue;
use crate::linux;
use crate::windows;
use std::time::Duration;
use vstd::prelude::*;

verus! {

/// How an attempt to read a timer's count ended.
#[derive(Debug, PartialEq, Eq)]
pub enum ReadOutcome<E> {
    /// So many bytes were read: eight, where a count was.
    Bytes(usize),
    /// There is nothing to read yet.
    WouldBlock,
    /// The attempt failed.
    Failed(E),
}

/// What polling a timer comes to.
#[derive(Clone, Copy, Debug, PartialEq, Eq)]
pub enum Poll {
    /// The timer has not fired.
    NotReady,
    /// The next item of the stream of counts. The stream has no end, so there is always one.
    Ready(Option<u64>),
}

/// What polling a timer comes to when the attempt to read its count, which is eight bytes, into
/// `buf` ended so.
pub open spec fn polled<E>(outcome: ReadOutcome<E>, buf: Seq<u8>, order: ByteOrder) -> Result<
    Poll,
    E,
> {
    match outcome {
        ReadOutcome::Bytes(_) => Ok(Poll::Ready(Some(decoded(buf, order) as u64))),
        ReadOutcome::WouldBlock => Ok(Poll::NotReady),
        ReadOutcome::Failed(error) => Err(error),
    }
}

/// Asynchronous, periodic timer.
///
/// This timer, when `reset` for the first time, becomes ready to `poll` every specified
/// interval until it is destroyed. `T` is the system's timer, by itself or as an event loop
/// holds it.
#[derive(Debug, PartialEq, Eq)]
pub struct PeriodicTimer<T> {
    pub poll: T,
}

impl<T> PeriodicTimer<T> {
    /// The periodic timer on a system timer that was created and handed to an event loop, or
    /// the error with which that failed.
    pub fn new<E>(timer: Result<T, E>) -> (result: Result<PeriodicTimer<T>, E>)
        ensures
            match timer {
                Ok(poll) => result == Ok::<PeriodicTimer<T>, E>(PeriodicTimer { poll }),
                Err(error) => result == Err::<PeriodicTimer<T>, E>(error),
            },
    {
        match timer {
            Ok(poll) => Ok(PeriodicTimer { poll }),
            Err(error) => Err(error),
        }
    }

    /// Polls the timer, given how the attempt to read its count into `buf` ended.
    ///
    /// If the timer has fired at least once since it was last polled or reset, this resolves to
    /// the number of times it has fired. A count is eight bytes, so nothing else may have been
    /// read.
    pub fn poll<E>(&mut self, outcome: ReadOutcome<E>, buf: &[u8; 8], order: ByteOrder) -> (result:
        Result<Poll, E>)
        requires
            outcome matches ReadOutcome::Bytes(bytes) ==> bytes == 8,
        ensures
            *final(self) == *old(self),
            result == polled(outcome, buf@, order),
    {
        match outcome {
            ReadOutcome::Bytes(_) => Ok(Poll::Ready(Some(decode(buf, order)))),
            ReadOutcome::WouldBlock => Ok(Poll::NotReady),
            ReadOutcome::Failed(error) => Err(error),
        }
    }
}

impl PeriodicTimer<linux::Timer> {
    /// Resets the timer to `interval`: tells what to hand to the system so that the timer
    /// becomes ready to `poll` every `interval`, or is deactivated if the interval is zero.
    pub fn reset(&self, interval: Duration) -> (set_time: linux::SetTime)
        ensures
            set_time == (linux::SetTime {
                fd: self.poll.fd,
                flags: 0,
                new_value: linux::timer_spec_for(Interval::of(interval)),
            }),
            Interval::of(interval).wf(),
    {
        self.poll.reset(interval)
    }
}

impl PeriodicTimer<kqueue::Timer> {
    /// Resets the timer to `interval`: tells what to hand to the system so that the timer
    /// becomes ready to `poll` every `interval`, or is deactivated if the interval is zero.
    pub fn reset(&self, interval: Duration, constants: &kqueue::Constants) -> (result: Result<
        kqueue::Change,
        Error,
    >)
        ensures
            kqueue::unit_count(Interval::of(interval)) <= isize::MAX ==> result == Ok::<
                kqueue::Change,
                Error,
            >(kqueue::change_for(Interval::of(interval), *constants)),
            kqueue::unit_count(Interval::of(interval)) > isize::MAX ==> result == Err::<
                kqueue::Change,
                Error,
            >(invalid_argument()),
    {
        self.poll.reset(interval, constants)
    }
}

impl<R> PeriodicTimer<windows::Timer<R>> {
    /// Resets the timer to `interval`: tells what to have the system do first so that the timer
    /// becomes ready to `poll` every `interval`, or is deactivated if the interval is zero.
    pub fn reset(&mut self, interval: Duration) -> (action: windows::ResetAction)
        ensures
            final(self).poll.inner == old(self).poll.inner.after_reset(),
            action == old(self).poll.inner.reset_action(Interval::of(interval)),
    {
        self.poll.reset(interval)
    }
}

/// Polling a timer whose count, all eight bytes of it, was read resolves to that count.
pub proof fn law_poll_gives_the_count_read<E>(count: u64, buf: Seq<u8>, order: ByteOrder)
    requires
        decoded(buf, order) == count,
    ensures
        polled(ReadOutcome::<E>::Bytes(8), buf, order) == Ok::<Poll, E>(
            Poll::Ready(Some(count)),
        ),
{
}

/// The stream of counts has no end.
pub proof fn law_stream_has_no_end<E>(outcome: ReadOutcome<E>, buf: Seq<u8>, order: ByteOrder)
    ensures
        polled(outcome, buf, order) != Ok::<Poll, E>(Poll::Ready(None)),
{
}

/// Polling follows the read: it is not ready when the read would block, and fails as the read
/// did. It is ready only when something was read.
pub proof fn law_poll_follows_the_read<E>(outcome: ReadOutcome<E>, buf: Seq<u8>, order: ByteOrder)
    ensures
        outcome is WouldBlock <==> polled(outcome, buf, order) == Ok::<Poll, E>(Poll::NotReady),
        outcome is Bytes <==> polled(outcome, buf, order) matches Ok(Poll::Ready(_)),
        outcome matches ReadOutcome::Failed(error) ==> polled(outcome, buf, order) == Err::<
            Poll,
            E,
        >(error),
{
}

} // verus!
