//! The fuzz loop: when to move on to another target state, when to send the
//! prefix again, and what to make of the errors on the way.
//!
//! The loop is driven from outside. It tells its caller what to do next,
//! the caller does it, with the fuzzer, the target and the event manager,
//! and hands back what came of it.

use vstd::prelude::*;
use crate::error::Error;
use crate::error::ErrorKind;
use crate::error::ErrorView;
use crate::executor::stateful::ResettableForkserver;
use crate::executor::stateful::StatefulPersistentExecutor;
use crate::executor::stateful::StatefulView;
use crate::state::InnerState;
use crate::state::LibAFLStarState;
use crate::state::StateView;
use crate::state::TargetStateIdx;
use crate::state::count_nonzero;
use crate::state::no_coverage_error;
use crate::state_scheduler::StateScheduler;

verus! {

/// What the fuzz loop makes of an error.
#[derive(Debug, Clone, Copy, PartialEq, Eq, Structural)]
pub enum ErrorClass {
    /// A system call was interrupted by a signal: the loop ends in good
    /// order.
    Interrupted,
    /// The connection to the target failed: the loop goes on with the next
    /// target state, which starts the target anew.
    Recoverable,
    /// The forkserver did not answer in time: it has to be made anew.
    ForkserverTimeout,
    /// Anything else: the loop ends with the error.
    Fatal,
}

/// The message of the error for a system call that a signal interrupted.
pub open spec fn interrupted_message() -> Seq<char> {
    "Unix error: EINTR"@
}

/// What the fuzz loop makes of an error, by its variant, the kind of a file
/// error and the message of an unknown error.
pub open spec fn error_class(e: ErrorView) -> ErrorClass {
    match e {
        ErrorView::Unknown(msg) => if msg == interrupted_message() {
            ErrorClass::Interrupted
        } else {
            ErrorClass::Fatal
        },
        ErrorView::File(kind, _) => if kind.is_connection_failure() {
            ErrorClass::Recoverable
        } else if kind == ErrorKind::TimedOut {
            ErrorClass::ForkserverTimeout
        } else {
            ErrorClass::Fatal
        },
        _ => ErrorClass::Fatal,
    }
}

/// Tells what the fuzz loop makes of an error.
pub fn classify_error(e: &Error) -> (r: ErrorClass)
    ensures
        r == error_class(e@),
{
    match e {
        Error::Unknown(msg) => {
            let interrupted = "Unix error: EINTR".to_owned();
            if *msg == interrupted {
                ErrorClass::Interrupted
            } else {
                ErrorClass::Fatal
            }
        },
        Error::File(kind, _) => {
            if kind.connection_failure() {
                ErrorClass::Recoverable
            } else if matches!(kind, ErrorKind::TimedOut) {
                ErrorClass::ForkserverTimeout
            } else {
                ErrorClass::Fatal
            }
        },
        _ => ErrorClass::Fatal,
    }
}

/// Selects a target state and puts the target into its initial state, so
/// that the prefix of the selected state can be sent. Returns the
/// identifier of the child that the caller has to end with `SIGKILL`
/// first, if there is one. Fails with `IllegalState`, before anything is
/// reset, where the index names no target state, and as
/// [`StatefulView::reset`] says.
pub fn change_target_state<C, SC>(
    executor: &mut StatefulPersistentExecutor,
    state: &mut LibAFLStarState<C, SC>,
    new_state_id: TargetStateIdx,
) -> (r: Result<Option<i32>, Error>)
    requires
        old(state)@.wf(),
    ensures
        final(state)@.wf(),
        new_state_id.0 >= old(state)@.len() ==> r is Err && r->Err_0 is IllegalState && final(state)@ == old(state)@ && final(executor)@ == old(executor)@,
        new_state_id.0 < old(state)@.len() ==> {
            &&& final(state)@ == old(state)@.select(new_state_id.0)
            &&& final(executor)@ == old(executor)@.reset().0
            &&& r is Ok <==> old(executor)@.reset().1 is Ok
            &&& r is Ok ==> r->Ok_0 == old(executor)@.reset().1->Ok_0
            &&& r is Err ==> r->Err_0@ == old(executor)@.reset().1->Err_0
        },
        old(executor)@.executor.wf() ==> final(executor)@.executor.wf(),
{
    match state.switch_state(new_state_id) {
        Ok(()) => {},
        Err(e) => {
            return Err(e);
        },
    }
    executor.reset_target_state()
}

/// Whether the states before and after some calls follow one on the other
/// from the state `start`: the first call finds `start`, and each later call
/// finds what the call before it left.
pub open spec fn is_chain<C, SC>(
    start: StateView<C, SC>,
    befores: Seq<StateView<C, SC>>,
    afters: Seq<StateView<C, SC>>,
) -> bool {
    &&& befores.len() == afters.len()
    &&& forall|k: int|
        0 <= k < befores.len() ==> (#[trigger] befores[k]) == (if k == 0 {
            start
        } else {
            afters[k - 1]
        })
}

/// Whether the states before, between and after some pairs of calls follow
/// one on the other from the state `start`: see [`is_chain`]; and there is
/// a state between the two calls of each pair.
pub open spec fn is_chain_of_pairs<C, SC>(
    start: StateView<C, SC>,
    befores: Seq<StateView<C, SC>>,
    mids: Seq<StateView<C, SC>>,
    afters: Seq<StateView<C, SC>>,
) -> bool {
    is_chain(start, befores, afters) && mids.len() == befores.len()
}

/// What a chain of calls leaves behind: what its last call left, or the
/// state it began with where there was no call.
pub open spec fn chain_end<C, SC>(start: StateView<C, SC>, afters: Seq<StateView<C, SC>>) -> StateView<
    C,
    SC,
> {
    if afters.len() == 0 {
        start
    } else {
        afters.last()
    }
}

/// The number of messages in the prefix of the selected target state.
pub open spec fn prefix_len<C, SC>(state: StateView<C, SC>) -> nat {
    state.prefixes[state.idx as int].prefix@.len()
}

/// The message of index `k` in the prefix of the selected target state.
pub open spec fn message_of<C, SC>(state: StateView<C, SC>, k: int) -> Seq<u8> {
    state.prefixes[state.idx as int].prefix@[k]@
}

/// Sends the prefix of the selected target state: hands each of its
/// messages, first to last, to `evaluate`, which runs it in the target as
/// any other input. Stops at the first error and hands it on.
///
/// Where all goes well, there is one call of `evaluate` after the other
/// that returned without error, the call of index `k` with the message of
/// index `k` of the prefix; and there are as many calls as the prefix has
/// messages in the end.
pub fn send_prefix<C, SC, F>(state: &mut LibAFLStarState<C, SC>, evaluate: F) -> (r: Result<
    (),
    Error,
>) where F: FnMut(&mut LibAFLStarState<C, SC>, Vec<u8>) -> Result<(), Error>
    requires
        old(state)@.wf(),
        forall|s: &mut LibAFLStarState<C, SC>, input: Vec<u8>|
            (*s)@.wf() ==> #[trigger] call_requires(evaluate, (s, input)),
        forall|s: &mut LibAFLStarState<C, SC>, input: Vec<u8>, res: Result<(), Error>| #[trigger]
            call_ensures(evaluate, (s, input), res) ==> (*final(s))@.wf(),
    ensures
        final(state)@.wf(),
        r is Ok ==> exists|befores: Seq<StateView<C, SC>>, afters: Seq<StateView<C, SC>>|
            {
                &&& #[trigger] is_chain(old(state)@, befores, afters)
                &&& forall|k: int|
                    #![trigger befores[k]]
                    0 <= k < befores.len() ==> befores[k].wf() && k < prefix_len(befores[k])
                        && exists|
                        s: &mut LibAFLStarState<C, SC>,
                        input: Vec<u8>,
                        res: Result<(), Error>,
                    |
                        {
                            &&& #[trigger] call_ensures(evaluate, (s, input), res)
                            &&& res is Ok
                            &&& (*s)@ == befores[k]
                            &&& input@ == message_of(befores[k], k)
                            &&& (*final(s))@ == afters[k]
                        }
                &&& final(state)@ == chain_end(old(state)@, afters)
                &&& befores.len() >= prefix_len(final(state)@)
            },
        (forall|s: &mut LibAFLStarState<C, SC>, input: Vec<u8>, res: Result<(), Error>| #[trigger]
            call_ensures(evaluate, (s, input), res) ==> res is Ok) ==> r is Ok,
        (forall|s: &mut LibAFLStarState<C, SC>, input: Vec<u8>, res: Result<(), Error>| #[trigger]
            call_ensures(evaluate, (s, input), res) ==> res is Err) && prefix_len(old(state)@) > 0
            ==> r is Err,
        prefix_len(old(state)@) == 0 ==> r is Ok && final(state)@ == old(state)@,
{
    let mut call = evaluate;
    let mut i: usize = 0;
    let ghost mut befores: Seq<StateView<C, SC>> = Seq::empty();
    let ghost mut afters: Seq<StateView<C, SC>> = Seq::empty();
    loop
        invariant
            state@.wf(),
            old(state)@.wf(),
            call == evaluate,
            befores.len() == i,
            afters.len() == i,
            is_chain(old(state)@, befores, afters),
            state@ == chain_end(old(state)@, afters),
            forall|k: int|
                #![trigger befores[k]]
                0 <= k < befores.len() ==> befores[k].wf() && k < prefix_len(befores[k]) && exists|
                    s: &mut LibAFLStarState<C, SC>,
                    input: Vec<u8>,
                    res: Result<(), Error>,
                |
                    {
                        &&& #[trigger] call_ensures(evaluate, (s, input), res)
                        &&& res is Ok
                        &&& (*s)@ == befores[k]
                        &&& input@ == message_of(befores[k], k)
                        &&& (*final(s))@ == afters[k]
                    },
            i > 0 ==> prefix_len(old(state)@) > 0,
            (forall|s: &mut LibAFLStarState<C, SC>, input: Vec<u8>, res: Result<(), Error>|
                #[trigger] call_ensures(evaluate, (s, input), res) ==> res is Err) ==> i == 0,
            forall|s: &mut LibAFLStarState<C, SC>, input: Vec<u8>|
                (*s)@.wf() ==> #[trigger] call_requires(evaluate, (s, input)),
            forall|s: &mut LibAFLStarState<C, SC>, input: Vec<u8>, res: Result<(), Error>|
                #[trigger] call_ensures(evaluate, (s, input), res) ==> (*final(s))@.wf(),
        decreases usize::MAX - i,
    {
        let prefix = state.prefix();
        if i >= prefix.prefix.len() {
            assert(is_chain(old(state)@, befores, afters));
            return Ok(());
        }
        let input = copy_bytes(&prefix.prefix[i]);
        let ghost before = state@;
        let ghost earlier = befores;
        let ghost left = afters;
        match call(state, input) {
            Ok(()) => {},
            Err(e) => {
                return Err(e);
            },
        }
        proof {
            befores = befores.push(before);
            afters = afters.push(state@);
            assert forall|k: int| #![trigger befores[k]] 0 <= k < befores.len() implies befores[k].wf()
                && k < prefix_len(befores[k]) && exists|
                s: &mut LibAFLStarState<C, SC>,
                input: Vec<u8>,
                res: Result<(), Error>,
            |
                {
                    &&& #[trigger] call_ensures(evaluate, (s, input), res)
                    &&& res is Ok
                    &&& (*s)@ == befores[k]
                    &&& input@ == message_of(befores[k], k)
                    &&& (*final(s))@ == afters[k]
                } by {
                if k < earlier.len() {
                    assert(befores[k] == earlier[k]);
                    assert(afters[k] == left[k]);
                }
            }
        }
        i = i + 1;
    }
}

/// A copy of some bytes.
pub fn copy_bytes(bytes: &Vec<u8>) -> (r: Vec<u8>)
    ensures
        r@ == bytes@,
{
    let mut out: Vec<u8> = Vec::new();
    let mut i: usize = 0;
    while i < bytes.len()
        invariant
            i <= bytes@.len(),
            out@ == bytes@.take(i as int),
        decreases bytes@.len() - i,
    {
        out.push(bytes[i]);
        assert(bytes@.take(i + 1) == bytes@.take(i as int).push(bytes@[i as int]));
        i = i + 1;
    }
    assert(bytes@.take(i as int) == bytes@);
    out
}

/// Runs an input once in every target state, so that each state can take
/// it into its corpus: for each target state, in the order of the indices,
/// `change` changes to that state, see [`change_target_state`], and sends
/// its prefix, and `evaluate` runs the input. Stops at the first error and
/// hands it on.
///
/// Where all goes well, there is for each target state one call of
/// `change` with the index of the state and then one call of `evaluate`
/// with the input, both returned without error, and each call found what
/// the call before it left.
pub fn load_testcase<C, SC, F, G>(
    state: &mut LibAFLStarState<C, SC>,
    input: &Vec<u8>,
    change: F,
    evaluate: G,
) -> (r: Result<(), Error>) where
    F: FnMut(&mut LibAFLStarState<C, SC>, TargetStateIdx) -> Result<(), Error>,
    G: FnMut(&mut LibAFLStarState<C, SC>, Vec<u8>) -> Result<(), Error>,

    requires
        old(state)@.wf(),
        forall|s: &mut LibAFLStarState<C, SC>, idx: TargetStateIdx|
            (*s)@.wf() ==> #[trigger] call_requires(change, (s, idx)),
        forall|s: &mut LibAFLStarState<C, SC>, idx: TargetStateIdx, res: Result<(), Error>|
            #[trigger] call_ensures(change, (s, idx), res) ==> (*final(s))@.wf(),
        forall|s: &mut LibAFLStarState<C, SC>, given: Vec<u8>|
            (*s)@.wf() ==> #[trigger] call_requires(evaluate, (s, given)),
        forall|s: &mut LibAFLStarState<C, SC>, given: Vec<u8>, res: Result<(), Error>| #[trigger]
            call_ensures(evaluate, (s, given), res) ==> (*final(s))@.wf(),
    ensures
        final(state)@.wf(),
        r is Ok ==> exists|
            befores: Seq<StateView<C, SC>>,
            mids: Seq<StateView<C, SC>>,
            afters: Seq<StateView<C, SC>>,
        |
            {
                &&& befores.len() == old(state)@.len()
                &&& #[trigger] is_chain_of_pairs(old(state)@, befores, mids, afters)
                &&& forall|k: int|
                    #![trigger befores[k]]
                    0 <= k < befores.len() ==> befores[k].wf() && mids[k].wf() && (exists|
                        s: &mut LibAFLStarState<C, SC>,
                        idx: TargetStateIdx,
                        res: Result<(), Error>,
                    |
                        {
                            &&& #[trigger] call_ensures(change, (s, idx), res)
                            &&& res is Ok
                            &&& (*s)@ == befores[k]
                            &&& idx.0 == k
                            &&& (*final(s))@ == mids[k]
                        }) && (exists|
                        s: &mut LibAFLStarState<C, SC>,
                        given: Vec<u8>,
                        res: Result<(), Error>,
                    |
                        {
                            &&& #[trigger] call_ensures(evaluate, (s, given), res)
                            &&& res is Ok
                            &&& (*s)@ == mids[k]
                            &&& given@ == input@
                            &&& (*final(s))@ == afters[k]
                        })
                &&& final(state)@ == chain_end(old(state)@, afters)
            },
        (forall|s: &mut LibAFLStarState<C, SC>, idx: TargetStateIdx, res: Result<(), Error>|
            #[trigger] call_ensures(change, (s, idx), res) ==> res is Ok) && (forall|
            s: &mut LibAFLStarState<C, SC>,
            given: Vec<u8>,
            res: Result<(), Error>,
        | #[trigger] call_ensures(evaluate, (s, given), res) ==> res is Ok) ==> r is Ok,
{
    let mut change_call = change;
    let mut evaluate_call = evaluate;
    let n = state.states_len();
    let mut id: usize = 0;
    let ghost mut befores: Seq<StateView<C, SC>> = Seq::empty();
    let ghost mut mids: Seq<StateView<C, SC>> = Seq::empty();
    let ghost mut afters: Seq<StateView<C, SC>> = Seq::empty();
    while id < n
        invariant
            state@.wf(),
            id <= n,
            n == old(state)@.len(),
            change_call == change,
            evaluate_call == evaluate,
            befores.len() == id,
            mids.len() == id,
            afters.len() == id,
            is_chain(old(state)@, befores, afters),
            state@ == chain_end(old(state)@, afters),
            forall|k: int|
                #![trigger befores[k]]
                0 <= k < befores.len() ==> befores[k].wf() && mids[k].wf() && (exists|
                    s: &mut LibAFLStarState<C, SC>,
                    idx: TargetStateIdx,
                    res: Result<(), Error>,
                |
                    {
                        &&& #[trigger] call_ensures(change, (s, idx), res)
                        &&& res is Ok
                        &&& (*s)@ == befores[k]
                        &&& idx.0 == k
                        &&& (*final(s))@ == mids[k]
                    }) && (exists|
                    s: &mut LibAFLStarState<C, SC>,
                    given: Vec<u8>,
                    res: Result<(), Error>,
                |
                    {
                        &&& #[trigger] call_ensures(evaluate, (s, given), res)
                        &&& res is Ok
                        &&& (*s)@ == mids[k]
                        &&& given@ == input@
                        &&& (*final(s))@ == afters[k]
                    }),
            forall|s: &mut LibAFLStarState<C, SC>, idx: TargetStateIdx|
                (*s)@.wf() ==> #[trigger] call_requires(change, (s, idx)),
            forall|s: &mut LibAFLStarState<C, SC>, idx: TargetStateIdx, res: Result<(), Error>|
                #[trigger] call_ensures(change, (s, idx), res) ==> (*final(s))@.wf(),
            forall|s: &mut LibAFLStarState<C, SC>, given: Vec<u8>|
                (*s)@.wf() ==> #[trigger] call_requires(evaluate, (s, given)),
            forall|s: &mut LibAFLStarState<C, SC>, given: Vec<u8>, res: Result<(), Error>|
                #[trigger] call_ensures(evaluate, (s, given), res) ==> (*final(s))@.wf(),
        decreases n - id,
    {
        let ghost before = state@;
        let ghost earlier = befores;
        let ghost between = mids;
        let ghost left = afters;
        match change_call(state, TargetStateIdx(id)) {
            Ok(()) => {},
            Err(e) => {
                return Err(e);
            },
        }
        let ghost mid = state@;
        match evaluate_call(state, copy_bytes(input)) {
            Ok(()) => {},
            Err(e) => {
                return Err(e);
            },
        }
        proof {
            befores = befores.push(before);
            mids = mids.push(mid);
            afters = afters.push(state@);
            assert forall|k: int| #![trigger befores[k]] 0 <= k < befores.len() implies befores[k].wf()
                && mids[k].wf() && (exists|
                s: &mut LibAFLStarState<C, SC>,
                idx: TargetStateIdx,
                res: Result<(), Error>,
            |
                {
                    &&& #[trigger] call_ensures(change, (s, idx), res)
                    &&& res is Ok
                    &&& (*s)@ == befores[k]
                    &&& idx.0 == k
                    &&& (*final(s))@ == mids[k]
                }) && (exists|
                s: &mut LibAFLStarState<C, SC>,
                given: Vec<u8>,
                res: Result<(), Error>,
            |
                {
                    &&& #[trigger] call_ensures(evaluate, (s, given), res)
                    &&& res is Ok
                    &&& (*s)@ == mids[k]
                    &&& given@ == input@
                    &&& (*final(s))@ == afters[k]
                }) by {
                if k < earlier.len() {
                    assert(befores[k] == earlier[k]);
                    assert(mids[k] == between[k]);
                    assert(afters[k] == left[k]);
                }
            }
        }
        id = id + 1;
    }
    assert(is_chain_of_pairs(old(state)@, befores, mids, afters));
    Ok(())
}

/// Where the fuzz loop stands.
#[derive(Debug, Clone, Copy, PartialEq, Eq, Structural)]
pub enum LoopPhase {
    /// The loop has not begun, or goes on to the next target state.
    Choosing,
    /// The prefix is being sent after a change of the target state.
    AwaitPrefix,
    /// One input is being taken from the corpus and fuzzed.
    AwaitFuzz,
    /// Progress is being reported.
    AwaitProgress,
    /// The prefix is being sent again after the target lost its state.
    AwaitResend,
    /// The number of executions is being reported at the end of a cycle.
    AwaitExecStats,
    /// The coverage is being reported at the end of a cycle.
    AwaitCoverage,
    /// The numbers of executions of all states are being reported.
    AwaitFinal,
    /// The loop has ended.
    Finished,
}

/// What came of the step that the caller was told to do.
#[derive(Debug)]
pub enum LoopEvent {
    /// The prefix was sent, or sending it failed.
    PrefixSent(Result<(), Error>),
    /// One input was fuzzed, or fuzzing it failed; and whether a signal
    /// has asked the fuzzer to end.
    Fuzzed { result: Result<(), Error>, quitting: bool },
    /// Progress was reported, or reporting failed.
    ProgressReported(Result<(), Error>),
    /// The number of executions was reported, or reporting failed.
    ExecStatsFired(Result<(), Error>),
    /// The coverage was reported if it was to be, or reporting failed; and
    /// whether a signal has asked the fuzzer to end.
    CoverageFired { result: Result<(), Error>, quitting: bool },
    /// The numbers of executions of all states were reported, or reporting
    /// failed.
    FinalStatsFired(Result<(), Error>),
}

/// A loop event as contracts speak of it.
pub ghost enum LoopEventView {
    PrefixSent(Result<(), ErrorView>),
    Fuzzed { result: Result<(), ErrorView>, quitting: bool },
    ProgressReported(Result<(), ErrorView>),
    ExecStatsFired(Result<(), ErrorView>),
    CoverageFired { result: Result<(), ErrorView>, quitting: bool },
    FinalStatsFired(Result<(), ErrorView>),
}

/// A result as contracts speak of it.
pub open spec fn result_view(r: Result<(), Error>) -> Result<(), ErrorView> {
    match r {
        Ok(()) => Ok(()),
        Err(e) => Err(e@),
    }
}

impl View for LoopEvent {
    type V = LoopEventView;

    open spec fn view(&self) -> LoopEventView {
        match *self {
            LoopEvent::PrefixSent(r) => LoopEventView::PrefixSent(result_view(r)),
            LoopEvent::Fuzzed { result, quitting } => LoopEventView::Fuzzed {
                result: result_view(result),
                quitting,
            },
            LoopEvent::ProgressReported(r) => LoopEventView::ProgressReported(result_view(r)),
            LoopEvent::ExecStatsFired(r) => LoopEventView::ExecStatsFired(result_view(r)),
            LoopEvent::CoverageFired { result, quitting } => LoopEventView::CoverageFired {
                result: result_view(result),
                quitting,
            },
            LoopEvent::FinalStatsFired(r) => LoopEventView::FinalStatsFired(result_view(r)),
        }
    }
}

/// What the caller does next.
#[derive(Debug)]
pub enum LoopAction {
    /// End the child of this identifier with `SIGKILL` if there is one,
    /// then send the prefix of the selected target state, see
    /// [`send_prefix`], and report with `PrefixSent`.
    SendPrefix { kill: Option<i32> },
    /// Take one input from the corpus through the stages, and report with
    /// `Fuzzed`.
    FuzzOne,
    /// Have the event manager report progress if fifteen seconds have
    /// passed since it last did, and report with `ProgressReported`.
    ReportProgress,
    /// Fire the event that updates the number of executions of the
    /// selected state, and report with `ExecStatsFired`.
    FireExecStats { executions: u64 },
    /// Fire the user statistic `overall_cov` with this ratio of edges hit
    /// to edges there are, if there is one to fire, and report with
    /// `CoverageFired`.
    FireCoverage { coverage: Option<(usize, usize)> },
    /// Fire, for each target state, the event that updates its number of
    /// executions, and report with `FinalStatsFired`.
    FireFinalStats,
    /// Call [`FuzzLoop::next_state`]: the loop goes on with the next
    /// target state.
    NextState,
    /// The loop has ended, with this result. `ShuttingDown` asks for a new
    /// forkserver, with which the loop can begin again.
    Return(Result<(), Error>),
}

/// A loop action as contracts speak of it.
pub ghost enum LoopActionView {
    SendPrefix { kill: Option<i32> },
    FuzzOne,
    ReportProgress,
    FireExecStats { executions: u64 },
    FireCoverage { coverage: Option<(usize, usize)> },
    FireFinalStats,
    NextState,
    Return(Result<(), ErrorView>),
}

impl View for LoopAction {
    type V = LoopActionView;

    open spec fn view(&self) -> LoopActionView {
        match *self {
            LoopAction::SendPrefix { kill } => LoopActionView::SendPrefix { kill },
            LoopAction::FuzzOne => LoopActionView::FuzzOne,
            LoopAction::ReportProgress => LoopActionView::ReportProgress,
            LoopAction::FireExecStats { executions } => LoopActionView::FireExecStats { executions },
            LoopAction::FireCoverage { coverage } => LoopActionView::FireCoverage { coverage },
            LoopAction::FireFinalStats => LoopActionView::FireFinalStats,
            LoopAction::NextState => LoopActionView::NextState,
            LoopAction::Return(r) => LoopActionView::Return(result_view(r)),
        }
    }
}

/// The fuzz loop as contracts speak of it.
pub ghost struct FuzzLoopView {
    /// How many inputs are fuzzed in a target state before the next state
    /// is chosen.
    pub loops: usize,
    /// The largest number of edges hit that was reported.
    pub best_edge_coverage: usize,
    pub phase: LoopPhase,
    /// How many inputs were fuzzed in this cycle.
    pub done: usize,
}

impl FuzzLoopView {
    /// The invariant of the loop: while a cycle runs, it has inputs left to
    /// fuzz.
    pub open spec fn wf(self) -> bool {
        (self.phase is AwaitFuzz || self.phase is AwaitProgress || self.phase is AwaitResend)
            ==> self.done < self.loops
    }

    /// The loop goes on with the next target state.
    pub open spec fn choosing(self) -> (FuzzLoopView, LoopActionView) {
        (FuzzLoopView { phase: LoopPhase::Choosing, ..self }, LoopActionView::NextState)
    }

    /// The loop ended with the given result.
    pub open spec fn stopped(self, r: Result<(), ErrorView>) -> (FuzzLoopView, LoopActionView) {
        (FuzzLoopView { phase: LoopPhase::Finished, ..self }, LoopActionView::Return(r))
    }

    /// The loop winds up in good order: the numbers of executions of all
    /// states are reported once more.
    pub open spec fn winding_up(self) -> (FuzzLoopView, LoopActionView) {
        (FuzzLoopView { phase: LoopPhase::AwaitFinal, ..self }, LoopActionView::FireFinalStats)
    }

    /// The end of a cycle: the selected state has been fuzzed once more,
    /// and its number of executions is reported.
    pub open spec fn cycle_ended<C, SC>(self, state: StateView<C, SC>) -> (
        FuzzLoopView,
        StateView<C, SC>,
        LoopActionView,
    ) {
        (
            FuzzLoopView { phase: LoopPhase::AwaitExecStats, ..self },
            state.with_active(
                (InnerState {
                    fuzz_cycles: (state.active().fuzz_cycles + 1) as usize,
                    ..state.active()
                }),
            ),
            LoopActionView::FireExecStats { executions: state.active().executions },
        )
    }

    /// The beginning of a cycle, once the prefix was sent: the first input
    /// is fuzzed, or the cycle ends at once where no input is to be
    /// fuzzed.
    pub open spec fn cycle_begun<C, SC>(self, state: StateView<C, SC>) -> (
        FuzzLoopView,
        StateView<C, SC>,
        LoopActionView,
    ) {
        let begun = FuzzLoopView { done: 0, ..self };
        if self.loops == 0 {
            begun.cycle_ended(state)
        } else {
            (FuzzLoopView { phase: LoopPhase::AwaitFuzz, ..begun }, state, LoopActionView::FuzzOne)
        }
    }

    /// What follows an input that was fuzzed: the next input, or the end
    /// of the cycle once as many inputs were fuzzed as a cycle has.
    pub open spec fn input_done<C, SC>(self, state: StateView<C, SC>) -> (
        FuzzLoopView,
        StateView<C, SC>,
        LoopActionView,
    ) {
        let counted = FuzzLoopView { done: (self.done + 1) as usize, ..self };
        if counted.done < self.loops {
            (FuzzLoopView { phase: LoopPhase::AwaitFuzz, ..counted }, state, LoopActionView::FuzzOne)
        } else {
            counted.cycle_ended(state)
        }
    }

    /// What follows a failure while an input was fuzzed or while the
    /// prefix was sent again: after an interruption or a failure of the
    /// connection the cycle ends early; after a timeout of the forkserver
    /// the loop ends and asks for a new forkserver; after any other error
    /// the loop ends with it.
    pub open spec fn failed_in_cycle<C, SC>(self, state: StateView<C, SC>, e: ErrorView) -> (
        FuzzLoopView,
        StateView<C, SC>,
        LoopActionView,
    ) {
        match error_class(e) {
            ErrorClass::Interrupted => self.cycle_ended(state),
            ErrorClass::Recoverable => self.cycle_ended(state),
            ErrorClass::ForkserverTimeout => (
                self.stopped(Err(ErrorView::ShuttingDown)).0,
                state,
                self.stopped(Err(ErrorView::ShuttingDown)).1,
            ),
            ErrorClass::Fatal => (self.stopped(Err(e)).0, state, self.stopped(Err(e)).1),
        }
    }

    /// One step of the loop: the loop, the executor, the state and the
    /// next action after the given event.
    ///
    /// After the prefix was sent the cycle begins. A failure to send it is
    /// treated by its class: an interruption winds the loop up, a failure
    /// of the connection makes the loop choose anew, a timeout of the
    /// forkserver ends the loop and asks for a new forkserver, any other
    /// error ends the loop with it.
    ///
    /// After each input the signal flag is looked at, progress is
    /// reported, and the prefix is sent again if the target lost its
    /// state. A failure of fuzzing or of sending again is treated as
    /// [`Self::failed_in_cycle`] says.
    ///
    /// At the end of a cycle the number of executions is reported, then
    /// the coverage if it grew, and the signal flag is looked at again. A
    /// failure to report ends the loop with that error. An event that does
    /// not answer the action before it ends the loop with `IllegalState`.
    pub open spec fn step<C, SC>(
        self,
        executor: StatefulView,
        state: StateView<C, SC>,
        event: LoopEventView,
    ) -> (FuzzLoopView, StatefulView, StateView<C, SC>, LoopActionView) {
        match (self.phase, event) {
            (LoopPhase::AwaitPrefix, LoopEventView::PrefixSent(Ok(()))) => (
                self.cycle_begun(state).0,
                executor,
                self.cycle_begun(state).1,
                self.cycle_begun(state).2,
            ),
            (LoopPhase::AwaitPrefix, LoopEventView::PrefixSent(Err(e))) => {
                let next = match error_class(e) {
                    ErrorClass::Interrupted => self.winding_up(),
                    ErrorClass::Recoverable => self.choosing(),
                    ErrorClass::ForkserverTimeout => self.stopped(Err(ErrorView::ShuttingDown)),
                    ErrorClass::Fatal => self.stopped(Err(e)),
                };
                (next.0, executor, state, next.1)
            },
            (LoopPhase::AwaitFuzz, LoopEventView::Fuzzed { result: Ok(()), quitting }) => {
                if quitting {
                    (self.winding_up().0, executor, state, self.winding_up().1)
                } else {
                    (
                        FuzzLoopView { phase: LoopPhase::AwaitProgress, ..self },
                        executor,
                        state,
                        LoopActionView::ReportProgress,
                    )
                }
            },
            (LoopPhase::AwaitFuzz, LoopEventView::Fuzzed { result: Err(e), quitting }) => (
                self.failed_in_cycle(state, e).0,
                executor,
                self.failed_in_cycle(state, e).1,
                self.failed_in_cycle(state, e).2,
            ),
            (LoopPhase::AwaitProgress, LoopEventView::ProgressReported(Err(e))) => (
                self.stopped(Err(e)).0,
                executor,
                state,
                self.stopped(Err(e)).1,
            ),
            (LoopPhase::AwaitProgress, LoopEventView::ProgressReported(Ok(()))) => {
                let asked = StatefulView { state_reset_occurred: false, ..executor };
                if executor.state_reset_occurred {
                    (
                        FuzzLoopView { phase: LoopPhase::AwaitResend, ..self },
                        asked,
                        state,
                        LoopActionView::SendPrefix { kill: None },
                    )
                } else {
                    (
                        self.input_done(state).0,
                        asked,
                        self.input_done(state).1,
                        self.input_done(state).2,
                    )
                }
            },
            (LoopPhase::AwaitResend, LoopEventView::PrefixSent(Ok(()))) => (
                self.input_done(state).0,
                executor,
                self.input_done(state).1,
                self.input_done(state).2,
            ),
            (LoopPhase::AwaitResend, LoopEventView::PrefixSent(Err(e))) => (
                self.failed_in_cycle(state, e).0,
                executor,
                self.failed_in_cycle(state, e).1,
                self.failed_in_cycle(state, e).2,
            ),
            (LoopPhase::AwaitExecStats, LoopEventView::ExecStatsFired(Err(e))) => (
                self.stopped(Err(e)).0,
                executor,
                state,
                self.stopped(Err(e)).1,
            ),
            (LoopPhase::AwaitExecStats, LoopEventView::ExecStatsFired(Ok(()))) => {
                if !state.has_coverage() {
                    (
                        self.stopped(Err(no_coverage_error())).0,
                        executor,
                        state,
                        self.stopped(Err(no_coverage_error())).1,
                    )
                } else {
                    (
                        FuzzLoopView {
                            phase: LoopPhase::AwaitCoverage,
                            best_edge_coverage: match self.coverage_to_report(state) {
                                Some(coverage) => coverage.0,
                                None => self.best_edge_coverage,
                            },
                            ..self
                        },
                        executor,
                        state,
                        LoopActionView::FireCoverage { coverage: self.coverage_to_report(state) },
                    )
                }
            },
            (LoopPhase::AwaitCoverage, LoopEventView::CoverageFired { result: Err(e), quitting }) => (
                self.stopped(Err(e)).0,
                executor,
                state,
                self.stopped(Err(e)).1,
            ),
            (LoopPhase::AwaitCoverage, LoopEventView::CoverageFired { result: Ok(()), quitting }) => {
                if quitting {
                    (self.winding_up().0, executor, state, self.winding_up().1)
                } else {
                    (self.choosing().0, executor, state, self.choosing().1)
                }
            },
            (LoopPhase::AwaitFinal, LoopEventView::FinalStatsFired(r)) => (
                self.stopped(r).0,
                executor,
                state,
                self.stopped(r).1,
            ),
            _ => (
                self.stopped(
                    Err(ErrorView::IllegalState("This step does not follow the step before"@)),
                ).0,
                executor,
                state,
                self.stopped(
                    Err(ErrorView::IllegalState("This step does not follow the step before"@)),
                ).1,
            ),
        }
    }

    /// What the coverage of the whole run is reported as at the end of a
    /// cycle: the edges hit and the edges there are, where more edges are
    /// hit than were ever reported.
    pub open spec fn coverage_to_report<C, SC>(self, state: StateView<C, SC>) -> Option<
        (usize, usize),
    > {
        if count_nonzero(state.coverage_map()) > self.best_edge_coverage {
            Some((count_nonzero(state.coverage_map()) as usize, state.coverage_map().len() as usize))
        } else {
            None
        }
    }
}

/// The fuzz loop.
#[derive(Debug)]
pub struct FuzzLoop {
    loops: usize,
    best_edge_coverage: usize,
    phase: LoopPhase,
    done: usize,
}

impl View for FuzzLoop {
    type V = FuzzLoopView;

    closed spec fn view(&self) -> FuzzLoopView {
        FuzzLoopView {
            loops: self.loops,
            best_edge_coverage: self.best_edge_coverage,
            phase: self.phase,
            done: self.done,
        }
    }
}

impl FuzzLoop {
    /// A loop that fuzzes `loops` inputs in a target state before it
    /// chooses the next state. `loops` counts inputs taken from the
    /// corpus, not executions: the stages may execute the target many
    /// times for one input.
    pub fn new(loops: usize) -> (r: Self)
        ensures
            r@ == (FuzzLoopView {
                loops,
                best_edge_coverage: 0,
                phase: LoopPhase::Choosing,
                done: 0,
            }),
    {
        FuzzLoop { loops, best_edge_coverage: 0, phase: LoopPhase::Choosing, done: 0 }
    }

    /// Tells whether the loop holds its invariant, see
    /// [`FuzzLoopView::wf`].
    pub fn is_well_formed(&self) -> (r: bool)
        ensures
            r == self@.wf(),
    {
        match self.phase {
            LoopPhase::AwaitFuzz => self.done < self.loops,
            LoopPhase::AwaitProgress => self.done < self.loops,
            LoopPhase::AwaitResend => self.done < self.loops,
            _ => true,
        }
    }

    /// Where the loop stands.
    pub fn phase(&self) -> (r: LoopPhase)
        ensures
            r == self@.phase,
    {
        self.phase
    }

    /// The largest number of edges hit that was reported.
    pub fn best_edge_coverage(&self) -> (r: usize)
        ensures
            r == self@.best_edge_coverage,
    {
        self.best_edge_coverage
    }

    /// Ends the loop with a result.
    fn stop(&mut self, r: Result<(), Error>) -> (action: LoopAction)
        ensures
            (final(self)@, action@) == old(self)@.stopped(result_view(r)),
    {
        self.phase = LoopPhase::Finished;
        LoopAction::Return(r)
    }

    /// Winds the loop up in good order.
    fn wind_up(&mut self) -> (action: LoopAction)
        ensures
            (final(self)@, action@) == old(self)@.winding_up(),
    {
        self.phase = LoopPhase::AwaitFinal;
        LoopAction::FireFinalStats
    }

    /// Ends a cycle.
    fn end_cycle<C, SC>(&mut self, state: &mut LibAFLStarState<C, SC>) -> (action: LoopAction)
        requires
            old(state)@.wf(),
            old(state)@.active().fuzz_cycles < usize::MAX,
        ensures
            (final(self)@, final(state)@, action@) == old(self)@.cycle_ended(old(state)@),
            final(state)@.wf(),
    {
        let cycles = state.fuzz_cycles();
        *cycles = *cycles + 1;
        self.phase = LoopPhase::AwaitExecStats;
        LoopAction::FireExecStats { executions: *state.executions() }
    }

    /// Begins a cycle.
    fn begin_cycle<C, SC>(&mut self, state: &mut LibAFLStarState<C, SC>) -> (action: LoopAction)
        requires
            old(state)@.wf(),
            old(state)@.active().fuzz_cycles < usize::MAX,
        ensures
            (final(self)@, final(state)@, action@) == old(self)@.cycle_begun(old(state)@),
            final(state)@.wf(),
    {
        self.done = 0;
        if self.loops == 0 {
            self.end_cycle(state)
        } else {
            self.phase = LoopPhase::AwaitFuzz;
            LoopAction::FuzzOne
        }
    }

    /// Goes on after an input was fuzzed.
    fn finish_input<C, SC>(&mut self, state: &mut LibAFLStarState<C, SC>) -> (action: LoopAction)
        requires
            old(state)@.wf(),
            old(state)@.active().fuzz_cycles < usize::MAX,
            old(self)@.done < old(self)@.loops,
        ensures
            (final(self)@, final(state)@, action@) == old(self)@.input_done(old(state)@),
            final(state)@.wf(),
    {
        self.done = self.done + 1;
        if self.done < self.loops {
            self.phase = LoopPhase::AwaitFuzz;
            LoopAction::FuzzOne
        } else {
            self.end_cycle(state)
        }
    }

    /// Goes on after a failure in a cycle.
    fn fail_in_cycle<C, SC>(&mut self, state: &mut LibAFLStarState<C, SC>, e: Error) -> (action:
        LoopAction)
        requires
            old(state)@.wf(),
            old(state)@.active().fuzz_cycles < usize::MAX,
        ensures
            (final(self)@, final(state)@, action@) == old(self)@.failed_in_cycle(old(state)@, e@),
            final(state)@.wf(),
    {
        match classify_error(&e) {
            ErrorClass::Interrupted => self.end_cycle(state),
            ErrorClass::Recoverable => self.end_cycle(state),
            ErrorClass::ForkserverTimeout => self.stop(Err(Error::shutting_down())),
            ErrorClass::Fatal => self.stop(Err(e)),
        }
    }

    /// Chooses the next target state and changes to it: the policy is
    /// asked, the state that it names is selected, and the target is put
    /// back into its initial state, so that the caller can send the
    /// prefix. An error of the policy or of the change ends the loop with
    /// that error.
    pub fn next_state<C, SC, SS: StateScheduler<C, SC>>(
        &mut self,
        state_scheduler: &mut SS,
        executor: &mut StatefulPersistentExecutor,
        state: &mut LibAFLStarState<C, SC>,
    ) -> (action: LoopAction)
        requires
            old(state)@.wf(),
        ensures
            final(state)@.wf(),
            old(executor)@.executor.wf() ==> final(executor)@.executor.wf(),
            final(self)@ == (FuzzLoopView { phase: final(self)@.phase, ..old(self)@ }),
            final(self)@.wf(),
            exists|chosen: StateView<C, SC>, choice: Result<TargetStateIdx, Error>|
                {
                    &&& #[trigger] old(state_scheduler).choice_spec(old(state)@, chosen, choice)
                    &&& Self::changed(
                        old(executor)@,
                        chosen,
                        choice,
                        final(executor)@,
                        final(state)@,
                        final(self)@.phase,
                        action@,
                    )
                },
    {
        let choice = state_scheduler.choose_next_state(state);
        let ghost chosen = state@;
        let new_state_idx = match choice {
            Ok(idx) => idx,
            Err(e) => {
                return self.stop(Err(e));
            },
        };
        match change_target_state(executor, state, new_state_idx) {
            Ok(kill) => {
                self.phase = LoopPhase::AwaitPrefix;
                LoopAction::SendPrefix { kill }
            },
            Err(e) => self.stop(Err(e)),
        }
    }

    /// Takes what came of the last action and says what to do next, see
    /// [`FuzzLoopView::step`].
    pub fn step<C, SC>(
        &mut self,
        executor: &mut StatefulPersistentExecutor,
        state: &mut LibAFLStarState<C, SC>,
        event: LoopEvent,
    ) -> (action: LoopAction)
        requires
            old(self)@.wf(),
            old(state)@.wf(),
            old(state)@.active().fuzz_cycles < usize::MAX,
        ensures
            (final(self)@, final(executor)@, final(state)@, action@) == old(self)@.step(
                old(executor)@,
                old(state)@,
                event@,
            ),
            final(self)@.wf(),
            final(state)@.wf(),
    {
        match (self.phase, event) {
            (LoopPhase::AwaitPrefix, LoopEvent::PrefixSent(Ok(()))) => self.begin_cycle(state),
            (LoopPhase::AwaitPrefix, LoopEvent::PrefixSent(Err(e))) => {
                match classify_error(&e) {
                    ErrorClass::Interrupted => self.wind_up(),
                    ErrorClass::Recoverable => {
                        self.phase = LoopPhase::Choosing;
                        LoopAction::NextState
                    },
                    ErrorClass::ForkserverTimeout => self.stop(Err(Error::shutting_down())),
                    ErrorClass::Fatal => self.stop(Err(e)),
                }
            },
            (LoopPhase::AwaitFuzz, LoopEvent::Fuzzed { result: Ok(()), quitting }) => {
                if quitting {
                    self.wind_up()
                } else {
                    self.phase = LoopPhase::AwaitProgress;
                    LoopAction::ReportProgress
                }
            },
            (LoopPhase::AwaitFuzz, LoopEvent::Fuzzed { result: Err(e), quitting }) => {
                self.fail_in_cycle(state, e)
            },
            (LoopPhase::AwaitProgress, LoopEvent::ProgressReported(Err(e))) => self.stop(Err(e)),
            (LoopPhase::AwaitProgress, LoopEvent::ProgressReported(Ok(()))) => {
                if executor.state_reset_occurred() {
                    self.phase = LoopPhase::AwaitResend;
                    LoopAction::SendPrefix { kill: None }
                } else {
                    self.finish_input(state)
                }
            },
            (LoopPhase::AwaitResend, LoopEvent::PrefixSent(Ok(()))) => self.finish_input(state),
            (LoopPhase::AwaitResend, LoopEvent::PrefixSent(Err(e))) => self.fail_in_cycle(state, e),
            (LoopPhase::AwaitExecStats, LoopEvent::ExecStatsFired(Err(e))) => self.stop(Err(e)),
            (LoopPhase::AwaitExecStats, LoopEvent::ExecStatsFired(Ok(()))) => {
                match state.calculate_total_coverage() {
                    Err(e) => self.stop(Err(e)),
                    Ok((covered_edges, total_edges)) => {
                        self.phase = LoopPhase::AwaitCoverage;
                        if covered_edges > self.best_edge_coverage {
                            self.best_edge_coverage = covered_edges;
                            LoopAction::FireCoverage { coverage: Some((covered_edges, total_edges)) }
                        } else {
                            LoopAction::FireCoverage { coverage: None }
                        }
                    },
                }
            },
            (LoopPhase::AwaitCoverage, LoopEvent::CoverageFired { result: Err(e), quitting }) => {
                self.stop(Err(e))
            },
            (LoopPhase::AwaitCoverage, LoopEvent::CoverageFired { result: Ok(()), quitting }) => {
                if quitting {
                    self.wind_up()
                } else {
                    self.phase = LoopPhase::Choosing;
                    LoopAction::NextState
                }
            },
            (LoopPhase::AwaitFinal, LoopEvent::FinalStatsFired(r)) => self.stop(r),
            _ => self.stop(Err(Error::illegal_state("This step does not follow the step before"))),
        }
    }

    /// What changing to the chosen target state comes to, given what the
    /// policy chose: see [`Self::next_state`].
    pub open spec fn changed<C, SC>(
        executor: StatefulView,
        chosen: StateView<C, SC>,
        choice: Result<TargetStateIdx, Error>,
        executor_after: StatefulView,
        state_after: StateView<C, SC>,
        phase_after: LoopPhase,
        action: LoopActionView,
    ) -> bool {
        match choice {
            Err(e) => {
                &&& state_after == chosen
                &&& executor_after == executor
                &&& phase_after is Finished
                &&& action == LoopActionView::Return(Err(e@))
            },
            Ok(idx) => if idx.0 >= chosen.len() {
                &&& state_after == chosen
                &&& executor_after == executor
                &&& phase_after is Finished
                &&& action is Return
                &&& action->Return_0 is Err
                &&& action->Return_0->Err_0 is IllegalState
            } else {
                &&& state_after == chosen.select(idx.0)
                &&& executor_after == executor.reset().0
                &&& match executor.reset().1 {
                    Ok(kill) => phase_after is AwaitPrefix && action == (LoopActionView::SendPrefix {
                        kill,
                    }),
                    Err(e) => phase_after is Finished && action == LoopActionView::Return(Err(e)),
                }
            },
        }
    }
}

/// The prefix comes before the inputs. An input is fuzzed only right after
/// the prefix was sent, or after an input before it in the same cycle that
/// left the target in its state; and once the target has lost its state,
/// the prefix is sent again before the next input is fuzzed.
pub proof fn law_prefix_before_inputs<C, SC>(
    l: FuzzLoopView,
    executor: StatefulView,
    state: StateView<C, SC>,
    event: LoopEventView,
)
    ensures
        l.step(executor, state, event).3 is FuzzOne ==> {
            ||| l.phase is AwaitPrefix && event is PrefixSent && event->PrefixSent_0 is Ok
            ||| l.phase is AwaitResend && event is PrefixSent && event->PrefixSent_0 is Ok
            ||| l.phase is AwaitProgress && event is ProgressReported && event->ProgressReported_0
                is Ok && !executor.state_reset_occurred
        },
        l.phase is AwaitProgress && event is ProgressReported && event->ProgressReported_0 is Ok
            && executor.state_reset_occurred ==> l.step(executor, state, event).3 == (
        LoopActionView::SendPrefix { kill: None }) && !l.step(
            executor,
            state,
            event,
        ).1.state_reset_occurred,
{
}

/// A cycle is counted once, when it ends. A step of the loop changes the
/// state only by counting one more cycle for the selected target state, and
/// it does so exactly when it goes on to report the executions at the end
/// of the cycle.
pub proof fn law_cycle_counted_at_its_end<C, SC>(
    l: FuzzLoopView,
    executor: StatefulView,
    state: StateView<C, SC>,
    event: LoopEventView,
)
    requires
        state.wf(),
        state.active().fuzz_cycles < usize::MAX,
    ensures
        l.step(executor, state, event).3 is FireExecStats <==> l.step(executor, state, event).2
            != state,
        l.step(executor, state, event).3 is FireExecStats ==> l.step(executor, state, event).2
            == state.with_active(
            (InnerState {
                fuzz_cycles: (state.active().fuzz_cycles + 1) as usize,
                ..state.active()
            }),
        ) && l.step(executor, state, event).3 == (LoopActionView::FireExecStats {
            executions: state.active().executions,
        }),
{
    let counted = state.with_active(
        (InnerState { fuzz_cycles: (state.active().fuzz_cycles + 1) as usize, ..state.active() }),
    );
    assert(counted.inner[state.idx as int].fuzz_cycles != state.inner[state.idx as int].fuzz_cycles);
}

} // verus!
