//! The wrapper that measures the time spent in the policy that picks the
//! next input from the corpus.

use vstd::prelude::*;
use core::time::Duration;
use crate::perf::corpus::added_nanos;
use crate::trusted::add_durations;
use crate::trusted::duration_nanos;
use crate::trusted::zero_duration;

verus! {

/// A scheduler of inputs together with the time that was spent in it.
#[derive(Debug)]
pub struct SchedulerPerf<B> {
    base: B,
    cumulative_time: Duration,
}

impl<B> SchedulerPerf<B> {
    /// The scheduler inside.
    pub closed spec fn spec_base(&self) -> B {
        self.base
    }

    /// The time spent in the scheduler so far, in nanoseconds.
    pub closed spec fn spec_nanos(&self) -> nat {
        duration_nanos(self.cumulative_time)
    }

    /// Wraps a scheduler in which no time was spent yet.
    pub fn new(base: B) -> (r: Self)
        ensures
            r.spec_base() == base,
            r.spec_nanos() == 0,
    {
        SchedulerPerf { base, cumulative_time: zero_duration() }
    }

    /// Adds to the time spent in the scheduler.
    pub fn perf_time(&mut self, time: Duration)
        ensures
            final(self).spec_base() == old(self).spec_base(),
            final(self).spec_nanos() == added_nanos(old(self).spec_nanos(), duration_nanos(time)),
    {
        self.cumulative_time = add_durations(self.cumulative_time, time);
    }

    /// The scheduler inside.
    pub fn base(&self) -> (r: &B)
        ensures
            *r == self.spec_base(),
    {
        &self.base
    }

    /// The scheduler inside, for writing.
    pub fn base_mut(&mut self) -> (r: &mut B)
        ensures
            *r == old(self).spec_base(),
            final(self).spec_base() == *final(r),
            final(self).spec_nanos() == old(self).spec_nanos(),
    {
        &mut self.base
    }

    /// The time spent in the scheduler so far.
    pub fn cumulative_time(&self) -> (r: Duration)
        ensures
            duration_nanos(r) == self.spec_nanos(),
    {
        self.cumulative_time
    }
}

} // verus!
