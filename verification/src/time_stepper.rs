//! Fixed-period time accumulator.
//!
//! Time is counted in whole nanoseconds, the resolution of `std::time::Duration`;
//! the two periods of a stepper are given in microseconds, as type parameters.

use vstd::prelude::*;

verus! {

/// Microseconds in one second.
pub const MICROS_PER_SECOND: u64 = 1_000_000;

/// Nanoseconds in one microsecond.
pub const NANOS_PER_MICRO: u128 = 1_000;

/// Accumulates elapsed time and hands it out again in steps.
///
/// A step is due while at least `MIN_PERIOD_US` microseconds are pending; a step
/// covers `STEP_US` microseconds, or all that is pending where that is less.
pub struct TimeStepper<const MIN_PERIOD_US: u64, const STEP_US: u64> {
    processed_time: u128,
    pending_time: u128,
}

/// One step: the time processed before it, and the time it covers, in nanoseconds.
#[derive(Clone, Copy, Debug, PartialEq, Eq)]
pub struct TimeStepInfo {
    pub now: u128,
    pub delta: u128,
}

/// The steps that are due on a stepper, one per call of [`TimeStepIter::next`].
pub struct TimeStepIter<'a, const MIN_PERIOD_US: u64, const STEP_US: u64> {
    pub stepper: &'a mut TimeStepper<MIN_PERIOD_US, STEP_US>,
}

/// Period, in whole microseconds, of an event that occurs `frequency` times per second.
pub fn frequency_to_micros(frequency: u64) -> (micros: u64)
    requires
        frequency > 0,
    ensures
        micros == MICROS_PER_SECOND / frequency,
{
    MICROS_PER_SECOND / frequency
}

/// The smaller of two amounts of time.
pub open spec fn min_time(a: nat, b: nat) -> nat {
    if a <= b {
        a
    } else {
        b
    }
}

impl<const MIN_PERIOD_US: u64, const STEP_US: u64> TimeStepper<MIN_PERIOD_US, STEP_US> {
    /// The total of processed and pending time always fits the counter.
    #[verifier::type_invariant]
    spec fn total_fits(&self) -> bool {
        self.processed_time + self.pending_time <= u128::MAX
    }

    /// Nanoseconds handed out in steps so far.
    pub closed spec fn processed(&self) -> nat {
        self.processed_time as nat
    }

    /// Nanoseconds accumulated and not yet handed out.
    pub closed spec fn pending(&self) -> nat {
        self.pending_time as nat
    }

    /// The least backlog, in nanoseconds, for which a step is due.
    pub open spec fn min_period() -> nat {
        (MIN_PERIOD_US * NANOS_PER_MICRO) as nat
    }

    /// The most, in nanoseconds, that one step covers.
    pub open spec fn step_size() -> nat {
        (STEP_US * NANOS_PER_MICRO) as nat
    }

    /// Whether a step is due: a whole minimum period is pending.
    pub open spec fn step_due(&self) -> bool {
        self.pending() >= Self::min_period()
    }

    /// What the next step covers, where one is due.
    pub open spec fn next_delta(&self) -> nat {
        min_time(Self::step_size(), self.pending())
    }

    /// Adds elapsed time to the backlog.
    pub fn add_assign(&mut self, delta_time: u128)
        requires
            old(self).processed() + old(self).pending() + delta_time <= u128::MAX,
        ensures
            final(self).pending() == old(self).pending() + delta_time,
            final(self).processed() == old(self).processed(),
    {
        proof {
            use_type_invariant(&*self);
        }
        self.pending_time = self.pending_time + delta_time;
    }

    /// The steps that are due, to be taken one by one.
    pub fn into_iter(&mut self) -> (iter: TimeStepIter<'_, MIN_PERIOD_US, STEP_US>)
        ensures
            *iter.stepper == *old(self),
            *final(self) == *final(iter.stepper),
    {
        TimeStepIter { stepper: self }
    }

    /// Nanoseconds handed out in steps so far.
    pub fn processed_time(&self) -> (time: u128)
        ensures
            time == self.processed(),
    {
        self.processed_time
    }

    /// Nanoseconds accumulated and not yet handed out.
    pub fn pending_time(&self) -> (time: u128)
        ensures
            time == self.pending(),
    {
        self.pending_time
    }
}

impl<const MIN_PERIOD_US: u64, const STEP_US: u64> Default for TimeStepper<
    MIN_PERIOD_US,
    STEP_US,
> {
    fn default() -> (stepper: Self)
        ensures
            stepper.processed() == 0,
            stepper.pending() == 0,
    {
        TimeStepper { processed_time: 0, pending_time: 0 }
    }
}

impl<'a, const MIN_PERIOD_US: u64, const STEP_US: u64> TimeStepIter<'a, MIN_PERIOD_US, STEP_US> {
    /// Takes the next step, if one is due.
    ///
    /// A step is due exactly while a whole minimum period is pending. It starts at
    /// the time processed so far and moves what it covers from the backlog to the
    /// processed time; with no step due nothing changes.
    pub fn next(&mut self) -> (step: Option<TimeStepInfo>)
        ensures
            *final(final(self).stepper) == *final(old(self).stepper),
            final(self).stepper.processed() + final(self).stepper.pending() == old(
                self,
            ).stepper.processed() + old(self).stepper.pending(),
            old(self).stepper.step_due() ==> {
                let delta = old(self).stepper.next_delta();
                &&& step matches Some(info)
                &&& info.now as nat == old(self).stepper.processed()
                &&& info.delta as nat == delta
                &&& final(self).stepper.processed() == old(self).stepper.processed() + delta
                &&& final(self).stepper.pending() == old(self).stepper.pending() - delta
            },
            !old(self).stepper.step_due() ==> {
                &&& step.is_none()
                &&& *final(self).stepper == *old(self).stepper
            },
    {
        proof {
            use_type_invariant(&*self.stepper);
        }
        let min_period: u128 = (MIN_PERIOD_US as u128) * NANOS_PER_MICRO;
        if self.stepper.pending_time >= min_period {
            let step_size: u128 = (STEP_US as u128) * NANOS_PER_MICRO;
            let delta: u128 = if step_size <= self.stepper.pending_time {
                step_size
            } else {
                self.stepper.pending_time
            };
            let step_info = TimeStepInfo { now: self.stepper.processed_time, delta };
            self.stepper.pending_time = self.stepper.pending_time - delta;
            self.stepper.processed_time = self.stepper.processed_time + delta;
            Some(step_info)
        } else {
            None
        }
    }
}

} // verus!
