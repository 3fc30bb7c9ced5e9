//! The wrapper that measures the time spent in a corpus.

use vstd::prelude::*;
use core::time::Duration;
use crate::trusted::add_durations;
use crate::trusted::duration_nanos;
use crate::trusted::max_duration_nanos;
use crate::trusted::zero_duration;

verus! {

/// The sum of two lengths of time in nanoseconds, and the longest duration
/// where the sum would be longer than that.
pub open spec fn added_nanos(a: nat, b: nat) -> nat {
    if a + b <= max_duration_nanos() {
        a + b
    } else {
        max_duration_nanos()
    }
}

/// A corpus together with the time that was spent in it.
#[derive(Debug)]
pub struct CorpusPerf<B> {
    base: B,
    cumulative_time: Duration,
}

impl<B> CorpusPerf<B> {
    /// The corpus inside.
    pub closed spec fn spec_base(&self) -> B {
        self.base
    }

    /// The time spent in the corpus so far, in nanoseconds.
    pub closed spec fn spec_nanos(&self) -> nat {
        duration_nanos(self.cumulative_time)
    }

    /// Wraps a corpus in which no time was spent yet.
    pub fn new(base: B) -> (r: Self)
        ensures
            r.spec_base() == base,
            r.spec_nanos() == 0,
    {
        CorpusPerf { base, cumulative_time: zero_duration() }
    }

    /// Adds to the time spent in the corpus.
    pub fn perf_time(&mut self, time: Duration)
        ensures
            final(self).spec_base() == old(self).spec_base(),
            final(self).spec_nanos() == added_nanos(old(self).spec_nanos(), duration_nanos(time)),
    {
        self.cumulative_time = add_durations(self.cumulative_time, time);
    }

    /// The corpus inside.
    pub fn base(&self) -> (r: &B)
        ensures
            *r == self.spec_base(),
    {
        &self.base
    }

    /// The corpus inside, for writing.
    pub fn base_mut(&mut self) -> (r: &mut B)
        ensures
            *r == old(self).spec_base(),
            final(self).spec_base() == *final(r),
            final(self).spec_nanos() == old(self).spec_nanos(),
    {
        &mut self.base
    }

    /// The time spent in the corpus so far.
    pub fn cumulative_time(&self) -> (r: Duration)
        ensures
            duration_nanos(r) == self.spec_nanos(),
    {
        self.cumulative_time
    }
}

} // verus!
