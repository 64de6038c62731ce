//! The instants at which a periodic timer fires.
use vstd::prelude::*;

verus! {

/// When a timer fires, in nanoseconds after it was set: first after `first`, then again each
/// time `period` has passed.
pub struct Schedule {
    pub first: nat,
    pub period: nat,
}

impl Schedule {
    /// The schedule of a timer that fires every `span` nanoseconds.
    pub open spec fn every(span: nat) -> Schedule {
        Schedule { first: span, period: span }
    }

    /// The instant of the firing with the given number, the first one being number one.
    pub open spec fn firing(self, number: nat) -> int {
        self.first + (number - 1) * self.period
    }
}

/// A timer that fires every `span` nanoseconds fires for the n-th time when n spans have passed.
pub proof fn law_firings_are_evenly_spaced(span: nat, number: nat)
    requires
        number >= 1,
    ensures
        Schedule::every(span).firing(number) == number * span,
{
    assert(span + (number - 1) * span == number * span) by (nonlinear_arith);
}

/// A timer fires for the first time after `first`, and from each firing to the next `period`
/// passes.
pub proof fn law_firings_follow_by_the_period(schedule: Schedule, number: nat)
    requires
        number >= 1,
    ensures
        schedule.firing(1) == schedule.first,
        schedule.firing(number + 1) - schedule.firing(number) == schedule.period,
{
    let period = schedule.period;
    assert(number * period - (number - 1) * period == period) by (nonlinear_arith);
    assert(((number + 1) as nat - 1) * period == number * period);
}

/// A timer that fires every `span` nanoseconds does so from the start.
pub proof fn law_every_span_from_the_start(span: nat)
    ensures
        Schedule::every(span).first == span,
        Schedule::every(span).period == span,
{
}

} // verus!
