//! The executor wrapper for stateful targets in persistent mode: it can put
//! the target back into its initial state, and it tells the fuzz loop when
//! the target lost its state behind the loop's back.

use vstd::prelude::*;
use crate::error::Error;
use crate::error::ErrorView;
use crate::executor::forkserver::ExecutorView;
use crate::executor::forkserver::ExitKind;
use crate::executor::forkserver::ForkserverExecutor;
use crate::state::LibAFLStarState;
use crate::state::StateView;

verus! {

/// How many executions of a fuzzing context ran out of time. Kept in the
/// metadata of the context.
#[derive(Debug, Clone, Copy, PartialEq, Eq, Structural)]
pub struct StatefulPersistentExecutorMeta {
    pub timeouts: u64,
}

impl StatefulPersistentExecutorMeta {
    /// Counts one more timeout.
    pub fn increment_timeouts(&mut self)
        requires
            old(self).timeouts < u64::MAX,
        ensures
            final(self).timeouts == old(self).timeouts + 1,
    {
        self.timeouts = self.timeouts + 1;
    }

    /// The number of timeouts counted so far.
    pub fn timeouts(&self) -> (r: u64)
        ensures
            r == self.timeouts,
    {
        self.timeouts
    }
}

/// An executor whose target can be put back into its initial state.
pub trait ResettableForkserver: Sized {
    /// Whether the target lost its state since this was last asked,
    /// without having been told to.
    spec fn reset_flag(&self) -> bool;

    /// Puts the target back into its initial state. Where a child has to
    /// be ended for that, its identifier is returned, and the caller ends
    /// it with `SIGKILL`.
    fn reset_target_state(&mut self) -> (r: Result<Option<i32>, Error>)
        ensures
            r is Ok ==> !final(self).reset_flag(),
            r is Err ==> final(self).reset_flag() == old(self).reset_flag(),
    ;

    /// Tells whether the target lost its state without having been told
    /// to, as it does when it runs out of time and is ended. The answer is
    /// given once: asking clears it.
    fn state_reset_occurred(&mut self) -> (r: bool)
        ensures
            r == old(self).reset_flag(),
            !final(self).reset_flag(),
    ;
}

/// The wrapper as contracts speak of it.
pub ghost struct StatefulView {
    pub executor: ExecutorView,
    /// Whether the target lost its state since this was last asked.
    pub state_reset_occurred: bool,
    /// Whether the child was ended on purpose since the last execution.
    pub child_was_reset: bool,
}

impl StatefulView {
    /// What putting the target back into its initial state comes to. With
    /// a child on the books after an execution that ran out of time, the
    /// books are wrong: `IllegalState`, and nothing changes. Else a child
    /// that is there is to be ended, the forkserver is to be told with the
    /// next control word that it was, and the child is forgotten; an
    /// execution that was under way is abandoned. In either of these cases
    /// the reset is noted as done on purpose.
    pub open spec fn reset(self) -> (StatefulView, Result<Option<i32>, ErrorView>) {
        let fs = self.executor.forkserver;
        if fs.child_pid is Some && fs.last_run_timed_out != 0 {
            (
                self,
                Err(
                    ErrorView::IllegalState(
                        "Last execution timed out, but there is still a child_pid set."@,
                    ),
                ),
            )
        } else if fs.child_pid is Some && fs.child_pid->Some_0 > 0 {
            (
                StatefulView {
                    executor: self.executor.without_child(),
                    state_reset_occurred: false,
                    child_was_reset: true,
                },
                Ok(fs.child_pid),
            )
        } else {
            (StatefulView { state_reset_occurred: false, child_was_reset: true, ..self }, Ok(None))
        }
    }

    /// Whether the count of timeouts is reported after this timeout: each
    /// of the first nineteen is, and then every twentieth.
    pub open spec fn reports_timeouts(timeouts: u64) -> bool {
        timeouts < 20 || timeouts % 20 == 0
    }

    /// The count of timeouts of a fuzzing context before this timeout.
    pub open spec fn timeouts_before<C, SC>(state: StateView<C, SC>) -> u64 {
        match state.routed_executor_meta() {
            Some(meta) => meta.timeouts,
            None => 0,
        }
    }
}

/// The wrapper for executing in a stateful target in persistent mode.
#[derive(Debug)]
pub struct StatefulPersistentExecutor {
    executor: ForkserverExecutor,
    state_reset_occurred: bool,
    child_was_reset: bool,
}

impl View for StatefulPersistentExecutor {
    type V = StatefulView;

    closed spec fn view(&self) -> StatefulView {
        StatefulView {
            executor: self.executor@,
            state_reset_occurred: self.state_reset_occurred,
            child_was_reset: self.child_was_reset,
        }
    }
}

impl StatefulPersistentExecutor {
    /// Wraps an executor.
    pub fn new(executor: ForkserverExecutor) -> (r: Self)
        ensures
            r@ == (StatefulView {
                executor: executor@,
                state_reset_occurred: false,
                child_was_reset: false,
            }),
    {
        StatefulPersistentExecutor { executor, state_reset_occurred: false, child_was_reset: false }
    }

    /// Gives the executor back.
    pub fn into_inner(self) -> (r: ForkserverExecutor)
        ensures
            r@ == self@.executor,
    {
        self.executor
    }

    /// The executor inside.
    pub fn executor(&self) -> (r: &ForkserverExecutor)
        ensures
            r@ == self@.executor,
    {
        &self.executor
    }

    /// The executor inside, for taking it through an execution.
    pub fn executor_mut(&mut self) -> (r: &mut ForkserverExecutor)
        ensures
            r@ == old(self)@.executor,
            final(self)@ == (StatefulView { executor: final(r)@, ..old(self)@ }),
    {
        &mut self.executor
    }

    /// Takes note of how an execution of the executor inside ended, and
    /// returns the count of timeouts if it is to be reported as the user
    /// statistic `timeouts`. An execution that ran out of time has cost
    /// the target its state: that is noted, and the timeout is counted in
    /// the metadata of the selected target state.
    pub fn run_target<C, SC>(
        &mut self,
        state: &mut LibAFLStarState<C, SC>,
        result: &Result<ExitKind, Error>,
    ) -> (r: Option<u64>)
        requires
            old(state)@.wf(),
            StatefulView::timeouts_before(old(state)@) < u64::MAX,
        ensures
            final(state)@.wf(),
            *result == Ok::<ExitKind, Error>(ExitKind::Timeout) ==> {
                let timeouts = (StatefulView::timeouts_before(old(state)@) + 1) as u64;
                &&& final(self)@ == (StatefulView {
                    state_reset_occurred: true,
                    child_was_reset: false,
                    ..old(self)@
                })
                &&& final(state)@ == old(state)@.with_routed_executor_meta(
                    Some(StatefulPersistentExecutorMeta { timeouts }),
                )
                &&& r == (if StatefulView::reports_timeouts(timeouts) {
                    Some(timeouts)
                } else {
                    None
                })
            },
            *result != Ok::<ExitKind, Error>(ExitKind::Timeout) ==> {
                &&& final(self)@ == (StatefulView { child_was_reset: false, ..old(self)@ })
                &&& final(state)@ == old(state)@
                &&& r is None
            },
    {
        if self.child_was_reset {
            self.child_was_reset = false;
        }
        let timed_out = match result {
            Ok(ExitKind::Timeout) => true,
            _ => false,
        };
        if timed_out {
            self.state_reset_occurred = true;
            let slot = state.executor_meta_mut();
            if slot.is_none() {
                *slot = Some(StatefulPersistentExecutorMeta { timeouts: 0 });
            }
            let timeouts = match slot {
                Some(meta) => {
                    meta.increment_timeouts();
                    meta.timeouts()
                },
                None => 0,
            };
            if timeouts < 20 || timeouts % 20 == 0 {
                Some(timeouts)
            } else {
                None
            }
        } else {
            None
        }
    }
}

impl ResettableForkserver for StatefulPersistentExecutor {
    open spec fn reset_flag(&self) -> bool {
        self@.state_reset_occurred
    }

    /// See [`StatefulView::reset`].
    fn reset_target_state(&mut self) -> (r: Result<Option<i32>, Error>)
        ensures
            final(self)@ == old(self)@.reset().0,
            r is Ok <==> old(self)@.reset().1 is Ok,
            r is Ok ==> r->Ok_0 == old(self)@.reset().1->Ok_0,
            r is Err ==> r->Err_0@ == old(self)@.reset().1->Err_0,
            old(self)@.executor.wf() ==> final(self)@.executor.wf(),
    {
        let timed_out = self.executor.forkserver().last_run_timed_out();
        let mut to_kill: Option<i32> = None;
        match self.executor.forkserver().child_pid() {
            Some(child_pid) => {
                if timed_out {
                    return Err(
                        Error::illegal_state(
                            "Last execution timed out, but there is still a child_pid set.",
                        ),
                    );
                }
                if child_pid > 0 {
                    to_kill = Some(child_pid);
                    self.executor.reset_child();
                }
            },
            None => {},
        }
        self.child_was_reset = true;
        self.state_reset_occurred = false;
        Ok(to_kill)
    }

    fn state_reset_occurred(&mut self) -> (r: bool)
        ensures
            final(self)@ == (StatefulView { state_reset_occurred: false, ..old(self)@ }),
    {
        let result = self.state_reset_occurred;
        self.state_reset_occurred = false;
        result
    }
}

} // verus!
