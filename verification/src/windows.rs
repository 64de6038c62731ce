//! Timers on Windows: a timer on the default timer queue, whose callback counts.
//!
//! The system calls are the caller's. A method says which call to make next, or takes in what
//! came of it. The callback runs on a thread of the system, so the caller keeps the timer behind
//! a lock, and lets go of it while a call to the system is under way.
use crate::count::{decoded, encode, ByteOrder, COUNT_BYTES};
use crate::error::Error;
use crate::interval::{duration_secs, duration_subsec_nanos, Interval};
use crate::periodic::{polled, Poll, ReadOutcome};
use crate::schedule::Schedule;
use std::time::Duration;
use vstd::prelude::*;

verus! {

/// The system's code of an invalid parameter.
pub const ERROR_INVALID_PARAMETER: i32 = 87;

/// The system's code of a buffer that is too small.
pub const ERROR_INSUFFICIENT_BUFFER: i32 = 122;

/// The interval in milliseconds, rounded up.
pub open spec fn millis_for(interval: Interval) -> nat {
    (interval.total_nanos() + 999_999) / 1_000_000
}

/// The interval in milliseconds, rounded up. Fails with `ERROR_INVALID_PARAMETER` when they are
/// more than the system can count.
pub fn millis(interval: Interval) -> (result: Result<u32, Error>)
    requires
        interval.wf(),
    ensures
        millis_for(interval) <= u32::MAX ==> result == Ok::<u32, Error>(
            millis_for(interval) as u32,
        ),
        millis_for(interval) > u32::MAX ==> result == Err::<u32, Error>(
            Error::Os(ERROR_INVALID_PARAMETER),
        ),
{
    let subsec_ns: u64 = interval.nanos as u64 + 999_999;
    assert(millis_for(interval) == interval.secs * 1_000 + subsec_ns / 1_000_000);
    if let Some(whole) = interval.secs.checked_mul(1_000) {
        if let Some(ms) = whole.checked_add(subsec_ns / 1_000_000) {
            if ms <= u32::MAX as u64 {
                return Ok(ms as u32);
            }
        }
    }
    Err(Error::Os(ERROR_INVALID_PARAMETER))
}

/// What to do next in order to reset a timer.
#[derive(Clone, Copy, Debug, PartialEq, Eq)]
pub enum ResetAction {
    /// Delete the timer with this handle from the queue, wait for its callbacks to end, and
    /// pass on the outcome to `reset_deleted`.
    DeleteTimer { handle: usize },
    /// Create a timer on the queue that is first due after `due_time` and then every `period`
    /// milliseconds, and pass on the outcome to `reset_created`.
    CreateTimer { due_time: u32, period: u32, flags: u32 },
    /// Nothing: the reset has come to this end.
    Finish(Result<(), Error>),
}

impl ResetAction {
    /// When the timer that is to be created fires.
    pub open spec fn schedule(self) -> Option<Schedule> {
        match self {
            ResetAction::CreateTimer { due_time, period, .. } => Some(
                Schedule {
                    first: (due_time * 1_000_000) as nat,
                    period: (period * 1_000_000) as nat,
                },
            ),
            _ => None,
        }
    }
}

/// What is left to do for a reset once the timer set before is gone.
pub open spec fn arming(interval: Interval) -> ResetAction {
    if millis_for(interval) > u32::MAX {
        ResetAction::Finish(Err(Error::Os(ERROR_INVALID_PARAMETER)))
    } else if millis_for(interval) == 0 {
        ResetAction::Finish(Ok(()))
    } else {
        ResetAction::CreateTimer {
            due_time: millis_for(interval) as u32,
            period: millis_for(interval) as u32,
            flags: 0,
        }
    }
}

/// What a timer shares with its callback. `R` is how the event loop is told of a firing.
#[derive(Debug, PartialEq, Eq)]
pub struct Inner<R> {
    /// The handle of the timer on the queue, or zero if there is none.
    pub active: usize,
    /// How many times the timer has fired since it was last read or reset.
    pub times_fired: usize,
    /// The event loop's registration of the timer.
    pub registration: Option<R>,
}

impl<R> Inner<R> {
    /// The state after one more firing. The count starts over when it can go no further.
    pub open spec fn fired(self) -> Inner<R> {
        Inner {
            times_fired: if self.times_fired == usize::MAX {
                0
            } else {
                (self.times_fired + 1) as usize
            },
            ..self
        }
    }

    /// The state in which no firing is counted.
    pub open spec fn cleared(self) -> Inner<R> {
        Inner { times_fired: 0, ..self }
    }

    /// The state in which the handle of the timer on the queue is `handle`.
    pub open spec fn holding(self, handle: usize) -> Inner<R> {
        Inner { active: handle, ..self }
    }

    /// The state with this registration, or with none.
    pub open spec fn registered(self, registration: Option<R>) -> Inner<R> {
        Inner { registration, ..self }
    }

    /// How reading the count ends when there is room for it.
    pub open spec fn read_outcome(self) -> ReadOutcome<Error> {
        if self.times_fired == 0 {
            ReadOutcome::WouldBlock
        } else {
            ReadOutcome::Bytes(8)
        }
    }

    /// What a reset starts with: deleting the timer on the queue, if there is one.
    pub open spec fn reset_action(self, interval: Interval) -> ResetAction {
        if self.active != 0 {
            ResetAction::DeleteTimer { handle: self.active }
        } else {
            arming(interval)
        }
    }

    /// The state once a reset has started. The firings of a timer that is yet to be deleted
    /// still count.
    pub open spec fn after_reset(self) -> Inner<R> {
        if self.active != 0 {
            self.holding(0)
        } else {
            self.cleared()
        }
    }

    /// The state once the system has answered with `ret` whether it deleted the timer.
    pub open spec fn after_deleted(self, ret: i32) -> Inner<R> {
        if ret == 0 {
            self
        } else {
            self.cleared()
        }
    }

    /// The state once the system has answered with `ret` whether it created a timer, and with
    /// its handle.
    pub open spec fn after_created(self, ret: i32, handle: usize) -> Inner<R> {
        if ret == 0 {
            self
        } else {
            self.holding(handle)
        }
    }

    /// The timers that exist on the queue are the one whose handle is held, or none.
    pub open spec fn accounts_for(self, live: Set<usize>) -> bool {
        live == if self.active == 0 {
            Set::empty()
        } else {
            set![self.active]
        }
    }

    /// Counts a firing. Returns the registration through which to tell the event loop that the
    /// timer can be read, if there is one.
    pub fn callback(&mut self) -> (registration: Option<&R>)
        ensures
            *final(self) == old(self).fired(),
            match old(self).registration {
                Some(r) => registration == Some(&r),
                None => registration is None,
            },
    {
        self.times_fired = self.times_fired.wrapping_add(1);
        self.registration.as_ref()
    }
}

/// What a reset does once the system has answered with `ret` whether it deleted the timer.
pub open spec fn deleted_action(interval: Interval, ret: i32, os_error: i32) -> ResetAction {
    if ret == 0 {
        ResetAction::Finish(Err(Error::Os(os_error)))
    } else {
        arming(interval)
    }
}

/// A timer.
#[derive(Debug, PartialEq, Eq)]
pub struct Timer<R> {
    pub inner: Inner<R>,
}

impl<R> Timer<R> {
    /// A timer that is not set, has not fired, and is not registered.
    pub fn new() -> (result: Result<Timer<R>, Error>)
        ensures
            result == Ok::<Timer<R>, Error>(
                Timer { inner: Inner { active: 0, times_fired: 0, registration: None } },
            ),
    {
        Ok(Timer { inner: Inner { active: 0, times_fired: 0, registration: None } })
    }

    /// Starts a reset to `interval`. The timer set before, if any, is deleted first. What there
    /// is to do is for the caller to do.
    pub fn reset(&mut self, interval: Duration) -> (action: ResetAction)
        ensures
            final(self).inner == old(self).inner.after_reset(),
            action == old(self).inner.reset_action(Interval::of(interval)),
    {
        self.reset_to(Interval::from_duration(interval))
    }

    /// As `reset`, for an interval that is already taken apart.
    pub fn reset_to(&mut self, interval: Interval) -> (action: ResetAction)
        requires
            interval.wf(),
        ensures
            final(self).inner == old(self).inner.after_reset(),
            action == old(self).inner.reset_action(interval),
    {
        let handle: usize = self.inner.active;
        self.inner.active = 0;
        if handle != 0 {
            ResetAction::DeleteTimer { handle }
        } else {
            self.arm(interval)
        }
    }

    /// Goes on with a reset to `interval` once `DeleteTimerQueueTimer` has returned `ret`, zero
    /// being failure. `os_error` is the calling thread's error code after the call.
    pub fn reset_deleted(&mut self, interval: Duration, ret: i32, os_error: i32) -> (action:
        ResetAction)
        ensures
            final(self).inner == old(self).inner.after_deleted(ret),
            action == deleted_action(Interval::of(interval), ret, os_error),
    {
        self.reset_deleted_to(Interval::from_duration(interval), ret, os_error)
    }

    /// As `reset_deleted`, for an interval that is already taken apart.
    pub fn reset_deleted_to(&mut self, interval: Interval, ret: i32, os_error: i32) -> (action:
        ResetAction)
        requires
            interval.wf(),
        ensures
            final(self).inner == old(self).inner.after_deleted(ret),
            action == deleted_action(interval, ret, os_error),
    {
        if ret == 0 {
            ResetAction::Finish(Err(Error::Os(os_error)))
        } else {
            self.arm(interval)
        }
    }

    /// Forgets the firings of the timer that is gone, and tells what to create in its place.
    fn arm(&mut self, interval: Interval) -> (action: ResetAction)
        requires
            interval.wf(),
        ensures
            final(self).inner == old(self).inner.cleared(),
            action == arming(interval),
    {
        self.inner.times_fired = 0;
        match millis(interval) {
            Err(error) => ResetAction::Finish(Err(error)),
            Ok(0) => ResetAction::Finish(Ok(())),
            Ok(ms) => ResetAction::CreateTimer { due_time: ms, period: ms, flags: 0 },
        }
    }

    /// Ends a reset once `CreateTimerQueueTimer` has returned `ret`, zero being failure, and
    /// stored `handle`. `os_error` is the calling thread's error code after the call. A timer
    /// that was created takes the place of none: the one before is deleted first.
    pub fn reset_created(&mut self, ret: i32, handle: usize, os_error: i32) -> (result: Result<
        (),
        Error,
    >)
        requires
            ret != 0 ==> old(self).inner.active == 0,
        ensures
            final(self).inner == old(self).inner.after_created(ret, handle),
            ret == 0 ==> result == Err::<(), Error>(Error::Os(os_error)),
            ret != 0 ==> result == Ok::<(), Error>(()),
    {
        if ret == 0 {
            Err(Error::Os(os_error))
        } else {
            self.inner.active = handle;
            Ok(())
        }
    }

    /// The interval in milliseconds, rounded up. Fails with `ERROR_INVALID_PARAMETER` when they
    /// are more than the system can count.
    pub fn interval_to_millis(interval: Duration) -> (result: Result<u32, Error>)
        ensures
            millis_for(Interval::of(interval)) <= u32::MAX ==> result == Ok::<u32, Error>(
                millis_for(Interval::of(interval)) as u32,
            ),
            millis_for(Interval::of(interval)) > u32::MAX ==> result == Err::<u32, Error>(
                Error::Os(ERROR_INVALID_PARAMETER),
            ),
    {
        millis(Interval::from_duration(interval))
    }

    /// Takes in the event loop's registration of the timer, in place of one before it.
    pub fn register(&mut self, registration: R)
        ensures
            final(self).inner == old(self).inner.registered(Some(registration)),
    {
        self.inner.registration = Some(registration);
    }

    /// The registration to update when the event loop registers the timer anew.
    pub fn reregister(&self) -> (registration: &R)
        requires
            self.inner.registration is Some,
        ensures
            Some(*registration) == self.inner.registration,
    {
        self.inner.registration.as_ref().unwrap()
    }

    /// Gives up the registration, for the event loop to end.
    pub fn deregister(&mut self) -> (registration: R)
        requires
            old(self).inner.registration is Some,
        ensures
            Some(registration) == old(self).inner.registration,
            final(self).inner == old(self).inner.registered(None),
    {
        self.inner.registration.take().unwrap()
    }

    /// Stores in `buf` how many times the timer fired since it was last read or reset, and
    /// starts counting from zero. Returns the number of bytes stored, or fails if the timer did
    /// not fire. Fails and leaves the timer as it is if there is no room for the count.
    pub fn read(&mut self, order: ByteOrder, buf: &mut [u8]) -> (result: Result<usize, Error>)
        ensures
            final(buf)@.len() == old(buf)@.len(),
            old(buf)@.len() < 8 ==> {
                &&& result == Err::<usize, Error>(Error::Os(ERROR_INSUFFICIENT_BUFFER))
                &&& final(self).inner == old(self).inner
                &&& final(buf)@ == old(buf)@
            },
            old(buf)@.len() >= 8 ==> {
                &&& result == match old(self).inner.read_outcome() {
                    ReadOutcome::Bytes(n) => Ok::<usize, Error>(n),
                    ReadOutcome::WouldBlock => Err(Error::WouldBlock),
                    ReadOutcome::Failed(error) => Err(error),
                }
                &&& final(self).inner == old(self).inner.cleared()
                &&& decoded(final(buf)@, order) == old(self).inner.times_fired
                &&& final(buf)@.skip(8) == old(buf)@.skip(8)
            },
    {
        if buf.len() < COUNT_BYTES {
            return Err(Error::Os(ERROR_INSUFFICIENT_BUFFER));
        }
        let count: usize = self.inner.times_fired;
        self.inner.times_fired = 0;
        encode(count as u64, order, buf);
        if count == 0 {
            Err(Error::WouldBlock)
        } else {
            Ok(COUNT_BYTES)
        }
    }

    /// Gives up the timer on the queue, as the timer is dropped. Returns the handle of the timer
    /// to delete, if there is one.
    pub fn release(&mut self) -> (handle: Option<usize>)
        ensures
            old(self).inner.active != 0 ==> handle == Some(old(self).inner.active),
            old(self).inner.active == 0 ==> handle is None,
            final(self).inner == old(self).inner.holding(0),
    {
        let handle: usize = self.inner.active;
        self.inner.active = 0;
        if handle != 0 {
            Some(handle)
        } else {
            None
        }
    }
}

/// The number of milliseconds is the least that is not shorter than the interval, and it is zero
/// for the zero interval alone.
pub proof fn law_millis_round_up(interval: Interval)
    ensures
        millis_for(interval) * 1_000_000 >= interval.total_nanos(),
        forall|ms: nat|
            #![trigger ms * 1_000_000]
            ms * 1_000_000 >= interval.total_nanos() ==> ms >= millis_for(interval),
        millis_for(interval) == 0 <==> interval.total_nanos() == 0,
{
}

/// A longer interval is never rounded to fewer milliseconds.
pub proof fn law_millis_keep_order(shorter: Interval, longer: Interval)
    requires
        shorter.total_nanos() <= longer.total_nanos(),
    ensures
        millis_for(shorter) <= millis_for(longer),
{
}

/// Once a reset is made the timer fires every interval, rounded up to whole milliseconds; a
/// reset to the zero interval sets no timer; and a reset to an interval of more milliseconds than
/// the system can count sets none and fails.
pub proof fn law_reset_fires_every_interval(interval: Interval)
    ensures
        interval.total_nanos() == 0 ==> arming(interval) == ResetAction::Finish(Ok(())),
        interval.total_nanos() != 0 && millis_for(interval) <= u32::MAX ==> arming(
            interval,
        ).schedule() == Some(Schedule::every(millis_for(interval) * 1_000_000)),
        millis_for(interval) > u32::MAX ==> arming(interval) == ResetAction::Finish(
            Err(Error::Os(ERROR_INVALID_PARAMETER)),
        ),
{
    law_millis_round_up(interval);
}

/// How the system answers the calls of one reset.
pub struct Answers {
    /// What deleting the timer before returned, zero being failure.
    pub delete_ret: i32,
    /// The error code after that call.
    pub delete_error: i32,
    /// What creating the timer returned, zero being failure.
    pub create_ret: i32,
    /// The error code after that call.
    pub create_error: i32,
    /// The handle of the timer that was created.
    pub handle: usize,
}

impl Answers {
    /// A timer that was created has a handle.
    pub open spec fn wf(self) -> bool {
        self.create_ret != 0 ==> self.handle != 0
    }
}

impl<R> Inner<R> {
    /// The system refuses to delete the timer before.
    pub open spec fn stuck(self, answers: Answers) -> bool {
        self.active != 0 && answers.delete_ret == 0
    }

    /// The state once a reset is through with the timer before.
    pub open spec fn emptied(self, answers: Answers) -> Inner<R> {
        if self.active != 0 {
            self.after_reset().after_deleted(answers.delete_ret)
        } else {
            self.after_reset()
        }
    }

    /// What a reset does once it is through with the timer before.
    pub open spec fn emptied_action(self, interval: Interval, answers: Answers) -> ResetAction {
        if self.active != 0 {
            deleted_action(interval, answers.delete_ret, answers.delete_error)
        } else {
            self.reset_action(interval)
        }
    }

    /// The timers that are left of `live` once a reset is through with the timer before.
    pub open spec fn left_of(self, live: Set<usize>, answers: Answers) -> Set<usize> {
        if self.active != 0 && answers.delete_ret != 0 {
            live.remove(self.active)
        } else {
            live
        }
    }

    /// The state in which a reset ends.
    pub open spec fn reset_state(self, interval: Interval, answers: Answers) -> Inner<R> {
        match self.emptied_action(interval, answers) {
            ResetAction::CreateTimer { .. } => self.emptied(answers).after_created(
                answers.create_ret,
                answers.handle,
            ),
            _ => self.emptied(answers),
        }
    }

    /// What a reset returns in the end.
    pub open spec fn reset_result(self, interval: Interval, answers: Answers) -> Result<
        (),
        Error,
    > {
        match self.emptied_action(interval, answers) {
            ResetAction::Finish(result) => result,
            _ => if answers.create_ret == 0 {
                Err(Error::Os(answers.create_error))
            } else {
                Ok(())
            },
        }
    }

    /// The timers that exist when a reset has ended, where those in `live` did before.
    pub open spec fn reset_live(
        self,
        live: Set<usize>,
        interval: Interval,
        answers: Answers,
    ) -> Set<usize> {
        if self.emptied_action(interval, answers) is CreateTimer && answers.create_ret != 0 {
            self.left_of(live, answers).insert(answers.handle)
        } else {
            self.left_of(live, answers)
        }
    }
}

/// A timer that is new accounts for the timers on the queue, of which there are none, and a
/// firing changes nothing in this.
pub proof fn law_new_timer_accounts_for_none<R>(inner: Inner<R>, live: Set<usize>)
    ensures
        (Inner::<R> { active: 0, times_fired: 0, registration: None }).accounts_for(Set::empty()),
        inner.fired().accounts_for(live) <==> inner.accounts_for(live),
{
}

/// A reset deletes the timer before it, if there is one, and asks for a new timer only when no
/// other timer is left, whatever the system answers. If the system refuses to delete a timer the
/// reset fails; otherwise there are, at each step, no other timers than the one whose handle is
/// held. When the reset has ended a handle is held exactly if it succeeded and the interval is
/// not zero.
pub proof fn law_one_timer_at_a_time<R>(
    inner: Inner<R>,
    live: Set<usize>,
    interval: Interval,
    answers: Answers,
)
    requires
        inner.accounts_for(live),
        answers.wf(),
    ensures
        inner.reset_action(interval) is DeleteTimer <==> inner.active != 0,
        inner.emptied_action(interval, answers) !is DeleteTimer,
        inner.emptied_action(interval, answers) is CreateTimer ==> inner.left_of(live, answers)
            == Set::<usize>::empty() && inner.emptied(answers).active == 0,
        inner.stuck(answers) ==> inner.reset_result(interval, answers) == Err::<(), Error>(
            Error::Os(answers.delete_error),
        ),
        !inner.stuck(answers) ==> inner.emptied(answers).accounts_for(
            inner.left_of(live, answers),
        ),
        !inner.stuck(answers) ==> inner.reset_state(interval, answers).accounts_for(
            inner.reset_live(live, interval, answers),
        ),
        inner.reset_state(interval, answers).active != 0 <==> inner.reset_result(
            interval,
            answers,
        ) is Ok && interval.total_nanos() != 0,
{
    law_millis_round_up(interval);
    assert(live.remove(inner.active) =~= Set::<usize>::empty());
    assert(Set::<usize>::empty().insert(answers.handle) =~= set![answers.handle]);
}

/// A timer that is dropped leaves no timer on the queue once the one it gives up is deleted.
pub proof fn law_dropping_leaves_no_timer<R>(inner: Inner<R>, live: Set<usize>)
    requires
        inner.accounts_for(live),
    ensures
        inner.active == 0 ==> live == Set::<usize>::empty(),
        live.remove(inner.active) == Set::<usize>::empty(),
        inner.holding(0).accounts_for(Set::empty()),
{
    assert(live.remove(inner.active) =~= Set::<usize>::empty());
}

/// What happens to a timer.
pub enum Event<R> {
    /// The callback ran.
    Fired,
    /// The count was read.
    Read,
    /// A reset did away with the timer set before.
    Reset,
    /// The handle of the timer on the queue was given up, by a reset that goes on or fails, or
    /// because the timer is dropped.
    Released,
    /// A reset set a new timer.
    Armed { handle: usize },
    /// The event loop's registration was taken in.
    Registered { registration: R },
    /// The registration was given up.
    Deregistered,
}

/// The state that follows when `event` happens in the state `inner`.
pub open spec fn after_event<R>(inner: Inner<R>, event: Event<R>) -> Inner<R> {
    match event {
        Event::Fired => inner.fired(),
        Event::Read => inner.cleared(),
        Event::Reset => inner.holding(0).cleared(),
        Event::Released => inner.holding(0),
        Event::Armed { handle } => inner.holding(handle),
        Event::Registered { registration } => inner.registered(Some(registration)),
        Event::Deregistered => inner.registered(None),
    }
}

/// What the methods of a timer do is what happens to it. A reset starts by giving up the handle,
/// or where there is none by doing away with the firings; it does away with them once the timer
/// is deleted; and it sets the timer that was created. A call that fails changes nothing.
pub proof fn law_methods_are_events<R>(
    inner: Inner<R>,
    ret: i32,
    handle: usize,
    registration: R,
)
    ensures
        inner.fired() == after_event(inner, Event::Fired),
        inner.cleared() == after_event(inner, Event::Read),
        inner.holding(0) == after_event(inner, Event::Released),
        inner.active == 0 ==> inner.after_reset() == after_event(inner, Event::Reset),
        inner.active != 0 ==> inner.after_reset() == after_event(inner, Event::Released),
        ret != 0 && inner.active == 0 ==> inner.after_deleted(ret) == after_event(
            inner,
            Event::Reset,
        ),
        ret != 0 ==> inner.after_created(ret, handle) == after_event(
            inner,
            Event::Armed { handle },
        ),
        ret == 0 ==> inner.after_deleted(ret) == inner && inner.after_created(ret, handle)
            == inner,
        inner.registered(Some(registration)) == after_event(
            inner,
            Event::Registered { registration },
        ),
        inner.registered(None) == after_event(inner, Event::Deregistered),
{
}

/// The state that follows when all of `events` happen, in this order, from the state `inner`.
pub open spec fn after_events<R>(inner: Inner<R>, events: Seq<Event<R>>) -> Inner<R>
    decreases events.len(),
{
    if events.len() == 0 {
        inner
    } else {
        after_event(after_events(inner, events.drop_last()), events.last())
    }
}

/// How many of `events` are firings.
pub open spec fn firings<R>(events: Seq<Event<R>>) -> nat
    decreases events.len(),
{
    if events.len() == 0 {
        0
    } else {
        firings(events.drop_last()) + if events.last() is Fired {
            1nat
        } else {
            0nat
        }
    }
}

proof fn lemma_count_of_firings<R>(inner: Inner<R>, events: Seq<Event<R>>)
    requires
        inner.times_fired == 0,
        forall|i: int|
            0 <= i < events.len() ==> !(#[trigger] events[i] is Read) && !(events[i] is Reset),
        firings(events) <= usize::MAX,
    ensures
        after_events(inner, events).times_fired == firings(events),
    decreases events.len(),
{
    if events.len() > 0 {
        let before = events.drop_last();
        assert forall|i: int| 0 <= i < before.len() implies !(#[trigger] before[i] is Read)
            && !(before[i] is Reset) by {
            assert(before[i] == events[i]);
        }
        lemma_count_of_firings(inner, before);
    }
}

proof fn lemma_events_in_two_parts<R>(inner: Inner<R>, first: Seq<Event<R>>, second: Seq<Event<R>>)
    ensures
        after_events(inner, first + second) == after_events(after_events(inner, first), second),
    decreases second.len(),
{
    if second.len() == 0 {
        assert(first + second =~= first);
    } else {
        assert((first + second).drop_last() =~= first + second.drop_last());
        lemma_events_in_two_parts(inner, first, second.drop_last());
    }
}

/// Polling a timer tells how many times it fired since it was last read or reset, whatever
/// happened to it before: it resolves to that number, or is not ready if the number is zero.
/// After it the timer counts from zero.
pub proof fn law_poll_tells_firings_since<R>(
    inner: Inner<R>,
    earlier: Seq<Event<R>>,
    last: Event<R>,
    since: Seq<Event<R>>,
    buf: Seq<u8>,
    order: ByteOrder,
)
    requires
        last is Read || last is Reset,
        forall|i: int|
            0 <= i < since.len() ==> !(#[trigger] since[i] is Read) && !(since[i] is Reset),
        firings(since) <= usize::MAX,
        decoded(buf, order) == after_events(inner, earlier.push(last) + since).times_fired,
    ensures
        polled(
            after_events(inner, earlier.push(last) + since).read_outcome(),
            buf,
            order,
        ) == if firings(since) == 0 {
            Ok::<Poll, Error>(Poll::NotReady)
        } else {
            Ok(Poll::Ready(Some(firings(since) as u64)))
        },
        after_event(
            after_events(inner, earlier.push(last) + since),
            Event::Read,
        ).times_fired == 0,
{
    let middle = after_events(inner, earlier.push(last));
    assert(earlier.push(last).drop_last() =~= earlier);
    lemma_events_in_two_parts(inner, earlier.push(last), since);
    lemma_count_of_firings(middle, since);
}

/// How many firings the reads among `events` report altogether.
pub open spec fn reported<R>(inner: Inner<R>, events: Seq<Event<R>>) -> nat
    decreases events.len(),
{
    if events.len() == 0 {
        0
    } else {
        let before = events.drop_last();
        reported(inner, before) + if events.last() is Read {
            after_events(inner, before).times_fired as nat
        } else {
            0nat
        }
    }
}

/// How many firings the resets among `events` do away with altogether.
pub open spec fn forgotten<R>(inner: Inner<R>, events: Seq<Event<R>>) -> nat
    decreases events.len(),
{
    if events.len() == 0 {
        0
    } else {
        let before = events.drop_last();
        forgotten(inner, before) + if events.last() is Reset {
            after_events(inner, before).times_fired as nat
        } else {
            0nat
        }
    }
}

/// No firing comes when the counter can go no further.
pub open spec fn never_overflows<R>(inner: Inner<R>, events: Seq<Event<R>>) -> bool {
    forall|i: int|
        0 <= i < events.len() && #[trigger] events[i] is Fired ==> after_events(
            inner,
            events.take(i),
        ).times_fired < usize::MAX
}

/// No firing is lost and none is counted twice: those that reads have reported, those that
/// resets have done away with and those that wait to be read are as many as there were. Without
/// a reset nothing is done away with.
pub proof fn law_no_firing_is_lost<R>(inner: Inner<R>, events: Seq<Event<R>>)
    requires
        never_overflows(inner, events),
    ensures
        reported(inner, events) + forgotten(inner, events) + after_events(
            inner,
            events,
        ).times_fired == inner.times_fired + firings(events),
        (forall|i: int| 0 <= i < events.len() ==> !(#[trigger] events[i] is Reset)) ==> forgotten(
            inner,
            events,
        ) == 0,
    decreases events.len(),
{
    if events.len() > 0 {
        let before = events.drop_last();
        assert forall|i: int| 0 <= i < before.len() && #[trigger] before[i] is Fired implies
            after_events(inner, before.take(i)).times_fired < usize::MAX by {
            assert(events[i] is Fired);
            assert(before.take(i) =~= events.take(i));
        }
        law_no_firing_is_lost(inner, before);
        assert(events.take(events.len() - 1) =~= before);
        assert(events[events.len() - 1] == events.last());
        assert((forall|i: int| 0 <= i < events.len() ==> !(#[trigger] events[i] is Reset))
            ==> forall|i: int| 0 <= i < before.len() ==> !(#[trigger] before[i] is Reset)) by {
            assert(forall|i: int| 0 <= i < before.len() ==> before[i] == #[trigger] events[i]);
        }
    }
}

/// An entry in the history of a timer.
pub enum Entry<R> {
    /// A whole reset.
    Reset { interval: Interval, answers: Answers },
    /// What happened apart from the resets.
    Between(Event<R>),
}

impl<R> Entry<R> {
    /// In a reset the system deletes the timer that it is asked to, and a timer that it creates
    /// has a handle. Apart from resets the timer fires, is read, or is registered or no longer
    /// registered.
    pub open spec fn regular(self) -> bool {
        match self {
            Entry::Reset { answers, .. } => answers.wf() && answers.delete_ret != 0,
            Entry::Between(event) => event is Fired || event is Read || event is Registered
                || event is Deregistered,
        }
    }
}

/// The state of a timer and the timers that exist, after all of `history` in this order.
pub open spec fn after_history<R>(
    inner: Inner<R>,
    live: Set<usize>,
    history: Seq<Entry<R>>,
) -> (Inner<R>, Set<usize>)
    decreases history.len(),
{
    if history.len() == 0 {
        (inner, live)
    } else {
        let (before, left) = after_history(inner, live, history.drop_last());
        match history.last() {
            Entry::Reset { interval, answers } => (
                before.reset_state(interval, answers),
                before.reset_live(left, interval, answers),
            ),
            Entry::Between(event) => (after_event(before, event), left),
        }
    }
}

/// However often a timer is reset, and whatever firings, reads and registrations there are
/// between the resets, no other timers exist than the one whose handle it holds, while the system
/// deletes the timers that it is asked to.
pub proof fn law_resets_leave_one_timer<R>(
    inner: Inner<R>,
    live: Set<usize>,
    history: Seq<Entry<R>>,
)
    requires
        inner.accounts_for(live),
        forall|i: int| 0 <= i < history.len() ==> (#[trigger] history[i]).regular(),
    ensures
        after_history(inner, live, history).0.accounts_for(
            after_history(inner, live, history).1,
        ),
    decreases history.len(),
{
    if history.len() > 0 {
        let earlier = history.drop_last();
        assert forall|i: int| 0 <= i < earlier.len() implies (#[trigger] earlier[i]).regular() by {
            assert(earlier[i] == history[i]);
        }
        law_resets_leave_one_timer(inner, live, earlier);
        let (before, left) = after_history(inner, live, earlier);
        assert(history[history.len() - 1].regular());
        match history.last() {
            Entry::Reset { interval, answers } => {
                law_one_timer_at_a_time(before, left, interval, answers);
            },
            Entry::Between(_) => {},
        }
    }
}

/// Once the timer before is gone, a reset asks for a timer that is first due after, and then every,
/// `ms` milliseconds, the least number of them that is not shorter than the interval, whatever
/// timer there was before. A timer that is still there is deleted first.
pub proof fn law_reset_asks_for_the_interval<R>(
    inner: Inner<R>,
    interval: Interval,
    answers: Answers,
    ms: nat,
)
    requires
        1 <= ms <= u32::MAX,
        ms * 1_000_000 >= interval.secs * 1_000_000_000 + interval.nanos,
        (ms - 1) * 1_000_000 < interval.secs * 1_000_000_000 + interval.nanos,
    ensures
        ({
            let create = ResetAction::CreateTimer {
                due_time: ms as u32,
                period: ms as u32,
                flags: 0,
            };
            &&& inner.active != 0 ==> inner.reset_action(interval) == (ResetAction::DeleteTimer {
                handle: inner.active,
            })
            &&& inner.active == 0 ==> inner.reset_action(interval) == create
            &&& answers.delete_ret != 0 ==> deleted_action(
                interval,
                answers.delete_ret,
                answers.delete_error,
            ) == create
            &&& inner.active == 0 || answers.delete_ret != 0 ==> inner.emptied_action(
                interval,
                answers,
            ) == create
            &&& create.schedule() == Some(
                Schedule { first: ms * 1_000_000, period: ms * 1_000_000 },
            )
        }),
{
    law_millis_round_up(interval);
}

/// Once the timer before is gone, a reset to the zero interval is done, and one to an interval of
/// more milliseconds than the system can count has failed; neither asks for a timer. A timer that
/// is still there is deleted first, and if that fails so does the reset.
pub proof fn law_reset_asks_for_no_timer<R>(inner: Inner<R>, interval: Interval, answers: Answers)
    requires
        interval.secs == 0 && interval.nanos == 0 || interval.secs * 1_000_000_000 + interval.nanos
            > 0xffff_ffff * 1_000_000,
    ensures
        ({
            let finish = ResetAction::Finish(
                if interval.secs == 0 && interval.nanos == 0 {
                    Ok(())
                } else {
                    Err(Error::Os(87))
                },
            );
            &&& inner.active != 0 ==> inner.reset_action(interval) == (ResetAction::DeleteTimer {
                handle: inner.active,
            })
            &&& inner.active == 0 ==> inner.reset_action(interval) == finish
            &&& answers.delete_ret != 0 ==> deleted_action(
                interval,
                answers.delete_ret,
                answers.delete_error,
            ) == finish
        }),
{
    law_millis_round_up(interval);
}

/// If the system refuses to delete a timer the reset fails with the system's error.
pub proof fn law_reset_fails_as_deleting_does(interval: Interval, os_error: i32)
    ensures
        deleted_action(interval, 0, os_error) == ResetAction::Finish(Err(Error::Os(os_error))),
{
}

/// Resetting a timer that is set comes to the same, once it is deleted, as resetting one that is
/// not set.
pub proof fn law_reset_does_not_depend_on_the_timer_before<R>(
    unset: Inner<R>,
    interval: Interval,
    ret: i32,
    os_error: i32,
)
    requires
        unset.active == 0,
        ret != 0,
    ensures
        deleted_action(interval, ret, os_error) == unset.reset_action(interval),
{
}

/// A reset to a `Duration` makes the timer fire every time that `Duration`, rounded up to whole
/// milliseconds, has passed.
pub proof fn law_reset_fires_every_duration<R>(
    inner: Inner<R>,
    duration: Duration,
    answers: Answers,
    ms: nat,
)
    requires
        1 <= ms <= u32::MAX,
        ms * 1_000_000 >= duration_secs(duration) * 1_000_000_000 + duration_subsec_nanos(duration),
        (ms - 1) * 1_000_000 < duration_secs(duration) * 1_000_000_000 + duration_subsec_nanos(
            duration,
        ),
        inner.active == 0 || answers.delete_ret != 0,
    ensures
        inner.emptied_action(Interval::of(duration), answers).schedule() == Some(
            Schedule { first: ms * 1_000_000, period: ms * 1_000_000 },
        ),
{
    law_reset_asks_for_the_interval(inner, Interval::of(duration), answers, ms);
}

/// A firing adds one to the count, a read takes all of it, and neither changes anything else.
pub proof fn law_firing_and_reading_change_the_count<R>(inner: Inner<R>)
    ensures
        inner.times_fired < usize::MAX ==> inner.fired().times_fired == inner.times_fired + 1,
        inner.times_fired == usize::MAX ==> inner.fired().times_fired == 0,
        inner.fired().active == inner.active,
        inner.fired().registration == inner.registration,
        inner.cleared().times_fired == 0,
        inner.cleared().active == inner.active,
        inner.cleared().registration == inner.registration,
{
}

/// A read with room for the count reports all eight bytes of it whenever the timer has fired,
/// however often, and otherwise would block. So a timer that was read would block until it fires
/// again.
pub proof fn law_read_reports_eight_bytes<R>(inner: Inner<R>)
    ensures
        inner.times_fired != 0 <==> inner.read_outcome() == ReadOutcome::<Error>::Bytes(8),
        inner.times_fired == 0 <==> inner.read_outcome() == ReadOutcome::<Error>::WouldBlock,
        inner.cleared().read_outcome() == ReadOutcome::<Error>::WouldBlock,
        inner.cleared().fired().read_outcome() == ReadOutcome::<Error>::Bytes(8),
{
}

/// The steps of a reset change the handle and the count, and nothing else. A reset gives up the
/// handle when it starts, and holds that of the timer it created. It forgets the firings once no
/// timer is left that could fire.
pub proof fn law_steps_of_a_reset<R>(inner: Inner<R>, ret: i32, handle: usize)
    ensures
        inner.after_reset().active == 0,
        inner.after_reset().times_fired == if inner.active == 0 {
            0
        } else {
            inner.times_fired
        },
        inner.after_deleted(ret).active == inner.active,
        inner.after_deleted(ret).times_fired == if ret == 0 {
            inner.times_fired
        } else {
            0
        },
        inner.after_created(ret, handle).active == if ret == 0 {
            inner.active
        } else {
            handle
        },
        inner.after_created(ret, handle).times_fired == inner.times_fired,
        inner.holding(handle).active == handle,
        inner.holding(handle).times_fired == inner.times_fired,
{
}

/// A reset, in each of its steps and as a whole, and giving up the handle leave the registration
/// as it was.
pub proof fn law_reset_keeps_the_registration<R>(
    inner: Inner<R>,
    interval: Interval,
    answers: Answers,
    ret: i32,
    handle: usize,
)
    ensures
        inner.after_reset().registration == inner.registration,
        inner.after_deleted(ret).registration == inner.registration,
        inner.after_created(ret, handle).registration == inner.registration,
        inner.holding(handle).registration == inner.registration,
        inner.reset_state(interval, answers).registration == inner.registration,
{
}

/// Registering a timer changes its registration alone.
pub proof fn law_registering_changes_the_registration<R>(inner: Inner<R>, registration: Option<R>)
    ensures
        inner.registered(registration).registration == registration,
        inner.registered(registration).active == inner.active,
        inner.registered(registration).times_fired == inner.times_fired,
{
}

/// Whatever else happens to a timer, its registration stays as it is until the timer is registered
/// or deregistered.
pub proof fn law_registration_stays<R>(inner: Inner<R>, events: Seq<Event<R>>)
    requires
        forall|i: int|
            0 <= i < events.len() ==> !(#[trigger] events[i] is Registered)
                && !(events[i] is Deregistered),
    ensures
        after_events(inner, events).registration == inner.registration,
    decreases events.len(),
{
    if events.len() > 0 {
        let before = events.drop_last();
        assert forall|i: int| 0 <= i < before.len() implies !(#[trigger] before[i] is Registered)
            && !(before[i] is Deregistered) by {
            assert(before[i] == events[i]);
        }
        law_registration_stays(inner, before);
        assert(!(events[events.len() - 1] is Registered) && !(events[events.len() - 1]
            is Deregistered));
    }
}

/// The registration is the one that was taken in last, or none if it was given up since. So a
/// firing tells the event loop through the registration that was taken in last.
pub proof fn law_last_registration_holds<R>(
    inner: Inner<R>,
    earlier: Seq<Event<R>>,
    registration: R,
    since: Seq<Event<R>>,
)
    requires
        forall|i: int|
            0 <= i < since.len() ==> !(#[trigger] since[i] is Registered)
                && !(since[i] is Deregistered),
    ensures
        after_events(inner, earlier.push(Event::Registered { registration }) + since).registration
            == Some(registration),
        after_events(inner, earlier.push(Event::Deregistered) + since).registration is None,
{
    let taken = earlier.push(Event::Registered { registration });
    let given = earlier.push(Event::Deregistered);
    assert(taken.drop_last() =~= earlier);
    assert(given.drop_last() =~= earlier);
    lemma_events_in_two_parts(inner, taken, since);
    lemma_events_in_two_parts(inner, given, since);
    law_registration_stays(after_events(inner, taken), since);
    law_registration_stays(after_events(inner, given), since);
}

/// A timer accounts for the timers on the queue when they are the one whose handle it holds, zero
/// being the handle of none.
pub proof fn law_timers_accounted_for<R>(inner: Inner<R>, live: Set<usize>)
    ensures
        inner.accounts_for(live) <==> forall|handle: usize|
            live.contains(handle) <==> handle != 0 && handle == inner.active,
{
    if inner.accounts_for(live) {
        assert forall|handle: usize| live.contains(handle) <==> handle != 0 && handle
            == inner.active by {}
    }
    if forall|handle: usize| live.contains(handle) <==> handle != 0 && handle == inner.active {
        if inner.active == 0 {
            assert(live =~= Set::empty());
        } else {
            assert(live =~= set![inner.active]);
        }
    }
}

/// The codes of the errors are those of the system.
pub proof fn law_error_codes()
    ensures
        ERROR_INVALID_PARAMETER == 87,
        ERROR_INSUFFICIENT_BUFFER == 122,
{
}

} // verus!
