//! The wrapper that measures the time spent in an executor.

use vstd::prelude::*;
use core::time::Duration;
use crate::error::Error;
use crate::executor::forkserver::ExitKind;
use crate::executor::stateful::ResettableForkserver;
use crate::perf::corpus::added_nanos;
use crate::trusted::add_durations;
use crate::trusted::duration_as_nanos;
use crate::trusted::duration_nanos;
use crate::trusted::instant_elapsed;
use crate::trusted::instant_now;
use crate::trusted::zero_duration;

verus! {

/// How often executions ended in each way.
#[derive(Debug, Clone, Copy, PartialEq, Eq, Structural)]
pub struct ExitKindCounts {
    pub okay: usize,
    pub crash: usize,
    pub oom: usize,
    pub timeout: usize,
    pub diff: usize,
}

impl ExitKindCounts {
    /// The count for one exit kind.
    pub open spec fn of(self, exit_kind: ExitKind) -> usize {
        match exit_kind {
            ExitKind::Okay => self.okay,
            ExitKind::Crash => self.crash,
            ExitKind::Oom => self.oom,
            ExitKind::Timeout => self.timeout,
            ExitKind::Diff => self.diff,
        }
    }

    /// The counts with one more for the given exit kind; a count that is
    /// at its largest stays there.
    pub open spec fn counted(self, exit_kind: ExitKind) -> ExitKindCounts {
        let more = if self.of(exit_kind) < usize::MAX {
            (self.of(exit_kind) + 1) as usize
        } else {
            self.of(exit_kind)
        };
        match exit_kind {
            ExitKind::Okay => ExitKindCounts { okay: more, ..self },
            ExitKind::Crash => ExitKindCounts { crash: more, ..self },
            ExitKind::Oom => ExitKindCounts { oom: more, ..self },
            ExitKind::Timeout => ExitKindCounts { timeout: more, ..self },
            ExitKind::Diff => ExitKindCounts { diff: more, ..self },
        }
    }
}

/// The wrapper as contracts speak of it.
pub ghost struct ExecutorPerfView<B> {
    pub base: B,
    /// The number of executions.
    pub executions: u128,
    /// The time spent in the executor, in nanoseconds.
    pub nanos: nat,
    /// The time spent in executions that ended well, in nanoseconds.
    pub nanos_ok_only: nat,
    pub exit_kinds: ExitKindCounts,
}

/// An executor together with the time that was spent in it and with counts
/// of how its executions ended.
#[derive(Debug)]
pub struct ExecutorPerf<B> {
    base: B,
    executions: u128,
    cumulative_time: Duration,
    cumulative_time_ok_only: Duration,
    exit_kinds: ExitKindCounts,
}

impl<B> View for ExecutorPerf<B> {
    type V = ExecutorPerfView<B>;

    closed spec fn view(&self) -> ExecutorPerfView<B> {
        ExecutorPerfView {
            base: self.base,
            executions: self.executions,
            nanos: duration_nanos(self.cumulative_time),
            nanos_ok_only: duration_nanos(self.cumulative_time_ok_only),
            exit_kinds: self.exit_kinds,
        }
    }
}

impl<B> ExecutorPerf<B> {
    /// Wraps an executor in which no time was spent yet.
    pub fn new(base: B) -> (r: Self)
        ensures
            r@ == (ExecutorPerfView {
                base,
                executions: 0,
                nanos: 0,
                nanos_ok_only: 0,
                exit_kinds: ExitKindCounts { okay: 0, crash: 0, oom: 0, timeout: 0, diff: 0 },
            }),
    {
        ExecutorPerf {
            base,
            executions: 0,
            cumulative_time: zero_duration(),
            cumulative_time_ok_only: zero_duration(),
            exit_kinds: ExitKindCounts { okay: 0, crash: 0, oom: 0, timeout: 0, diff: 0 },
        }
    }

    /// The executor inside.
    pub fn base(&self) -> (r: &B)
        ensures
            *r == self@.base,
    {
        &self.base
    }

    /// The executor inside, for running it.
    pub fn base_mut(&mut self) -> (r: &mut B)
        ensures
            *r == old(self)@.base,
            final(self)@ == (ExecutorPerfView { base: *final(r), ..old(self)@ }),
    {
        &mut self.base
    }

    /// Takes note of one execution of the executor inside: how long it
    /// took and how it came out. The execution is counted, and so is its
    /// time; where it came to a classification, that is counted, and the
    /// time once more if the target ended well.
    pub fn run_target(&mut self, elapsed: Duration, result: &Result<ExitKind, Error>)
        requires
            old(self)@.executions < u128::MAX,
        ensures
            final(self)@ == (ExecutorPerfView {
                executions: (old(self)@.executions + 1) as u128,
                nanos: added_nanos(old(self)@.nanos, duration_nanos(elapsed)),
                nanos_ok_only: if *result == Ok::<ExitKind, Error>(ExitKind::Okay) {
                    added_nanos(old(self)@.nanos_ok_only, duration_nanos(elapsed))
                } else {
                    old(self)@.nanos_ok_only
                },
                exit_kinds: match *result {
                    Ok(exit_kind) => old(self)@.exit_kinds.counted(exit_kind),
                    Err(_) => old(self)@.exit_kinds,
                },
                ..old(self)@
            }),
    {
        self.executions = self.executions + 1;
        self.cumulative_time = add_durations(self.cumulative_time, elapsed);
        match result {
            Ok(exit_kind) => {
                match exit_kind {
                    ExitKind::Okay => {
                        self.exit_kinds.okay = self.exit_kinds.okay.saturating_add(1);
                        self.cumulative_time_ok_only = add_durations(
                            self.cumulative_time_ok_only,
                            elapsed,
                        );
                    },
                    ExitKind::Crash => {
                        self.exit_kinds.crash = self.exit_kinds.crash.saturating_add(1);
                    },
                    ExitKind::Oom => {
                        self.exit_kinds.oom = self.exit_kinds.oom.saturating_add(1);
                    },
                    ExitKind::Timeout => {
                        self.exit_kinds.timeout = self.exit_kinds.timeout.saturating_add(1);
                    },
                    ExitKind::Diff => {
                        self.exit_kinds.diff = self.exit_kinds.diff.saturating_add(1);
                    },
                }
            },
            Err(_) => {},
        }
    }

    /// The number of executions.
    pub fn executions(&self) -> (r: u128)
        ensures
            r == self@.executions,
    {
        self.executions
    }

    /// How often executions ended in each way.
    pub fn exit_kinds(&self) -> (r: ExitKindCounts)
        ensures
            r == self@.exit_kinds,
    {
        self.exit_kinds
    }

    /// The time spent in the executor so far.
    pub fn cumulative_time(&self) -> (r: Duration)
        ensures
            duration_nanos(r) == self@.nanos,
    {
        self.cumulative_time
    }

    /// The time an execution took on average, in nanoseconds, rounded
    /// down; nothing where there was no execution.
    pub fn average_nanos(&self) -> (r: Option<u128>)
        ensures
            r is Some <==> self@.executions > 0,
            r is Some ==> r->Some_0 == self@.nanos / (self@.executions as nat),
    {
        if self.executions == 0 {
            None
        } else {
            Some(duration_as_nanos(&self.cumulative_time) / self.executions)
        }
    }

    /// The time that an execution that ended well took on average, in
    /// nanoseconds, rounded down; nothing where no execution ended well.
    pub fn average_ok_nanos(&self) -> (r: Option<u128>)
        ensures
            r is Some <==> self@.exit_kinds.okay > 0,
            r is Some ==> r->Some_0 == self@.nanos_ok_only / (self@.exit_kinds.okay as nat),
    {
        if self.exit_kinds.okay == 0 {
            None
        } else {
            Some(duration_as_nanos(&self.cumulative_time_ok_only) / (self.exit_kinds.okay as u128))
        }
    }
}

impl<B: ResettableForkserver> ResettableForkserver for ExecutorPerf<B> {
    open spec fn reset_flag(&self) -> bool {
        self@.base.reset_flag()
    }

    /// Resets the executor inside: what is returned, and what has become
    /// of the executor inside, is what its own reset gave. The time that
    /// this took is added to the time spent; nothing else is counted.
    fn reset_target_state(&mut self) -> (r: Result<Option<i32>, Error>)
        ensures
            exists|b: &mut B|
                *b == old(self)@.base && *final(b) == final(self)@.base && #[trigger] call_ensures(
                    B::reset_target_state,
                    (b,),
                    r,
                ),
            exists|elapsed: nat|
                final(self)@.nanos == #[trigger] added_nanos(old(self)@.nanos, elapsed),
            final(self)@.executions == old(self)@.executions,
            final(self)@.exit_kinds == old(self)@.exit_kinds,
            final(self)@.nanos_ok_only == old(self)@.nanos_ok_only,
    {
        let now = instant_now();
        let r = self.base.reset_target_state();
        let elapsed = instant_elapsed(&now);
        self.cumulative_time = add_durations(self.cumulative_time, elapsed);
        proof {
            assert(final(self)@.nanos == added_nanos(old(self)@.nanos, duration_nanos(elapsed)));
        }
        r
    }

    /// Asks the executor inside, and adds the time that it took to the
    /// time spent.
    fn state_reset_occurred(&mut self) -> (r: bool)
        ensures
            final(self)@.executions == old(self)@.executions,
            final(self)@.exit_kinds == old(self)@.exit_kinds,
            final(self)@.nanos_ok_only == old(self)@.nanos_ok_only,
    {
        let now = instant_now();
        let r = self.base.state_reset_occurred();
        let elapsed = instant_elapsed(&now);
        self.cumulative_time = add_durations(self.cumulative_time, elapsed);
        r
    }
}

} // verus!
