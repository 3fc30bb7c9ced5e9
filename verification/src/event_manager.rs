//! The event manager of a fuzzer that runs in one process. It shows each
//! target state as a client of its own, so that the statistics of the
//! states stand side by side.
//!
//! The monitor is the caller's: the manager says what the monitor is to be
//! told for an event, and it keeps the events that are passed on to
//! handlers.

use vstd::prelude::*;
use crate::error::Error;
use crate::error::ErrorView;
use crate::state::TargetStateIdx;

verus! {

/// What the manager reads of an event.
#[derive(Debug, Clone, Copy, PartialEq, Eq, Structural)]
pub enum EventKind {
    /// A new test case was found.
    NewTestcase { corpus_size: usize, executions: u64 },
    /// The number of executions is brought up to date.
    UpdateExecStats { executions: u64 },
    /// A statistic of the user is brought up to date.
    UpdateUserStats,
    /// A new objective was found.
    Objective { objective_size: usize },
    /// A message for the log.
    Log,
    /// A buffer for the handlers that the user registered.
    CustomBuf,
}

/// Whether an event was dealt with.
#[derive(Debug, Clone, Copy, PartialEq, Eq, Structural)]
pub enum BrokerEventResult {
    /// The event was dealt with: no need to pass it on.
    Handled,
    /// The event is to be passed on to the handlers.
    Forward,
}

/// What the monitor is to be told for an event. In each case but the last
/// two the client is entered into the monitor first.
#[derive(Debug, Clone, Copy, PartialEq, Eq, Structural)]
pub enum MonitorUpdate {
    /// Update the size of the corpus and the number of executions of the
    /// client, and display under `Testcase`.
    NewTestcase { corpus_size: u64, executions: u64 },
    /// Update the number of executions of the client.
    ExecStats { executions: u64 },
    /// Update the statistic of the client, aggregate it, and display under
    /// `UserStats`.
    UserStats,
    /// Update the number of objectives of the client, and display under
    /// `Objective`.
    Objective { objective_size: u64 },
    /// Write the message to the log at its level; the monitor is not told.
    Log,
    /// Nothing.
    Nothing,
}

/// The client under which a target state is shown. The client of number 0
/// stands for the broker and is often left out of statistics, so the states
/// begin at 1; with one corpus for all states there is only the client 1.
pub open spec fn client_of(single_state: bool, state_idx: usize) -> int {
    if single_state {
        1
    } else {
        state_idx + 1
    }
}

/// What is done about an event of the given kind: all kinds are dealt with
/// at once but the custom buffers, which are passed on.
pub open spec fn broker_result(kind: EventKind) -> (BrokerEventResult, MonitorUpdate) {
    match kind {
        EventKind::NewTestcase { corpus_size, executions } => (
            BrokerEventResult::Handled,
            MonitorUpdate::NewTestcase {
                corpus_size: corpus_size as u64,
                executions,
            },
        ),
        EventKind::UpdateExecStats { executions } => (
            BrokerEventResult::Handled,
            MonitorUpdate::ExecStats { executions },
        ),
        EventKind::UpdateUserStats => (BrokerEventResult::Handled, MonitorUpdate::UserStats),
        EventKind::Objective { objective_size } => (
            BrokerEventResult::Handled,
            MonitorUpdate::Objective { objective_size: objective_size as u64 },
        ),
        EventKind::Log => (BrokerEventResult::Handled, MonitorUpdate::Log),
        EventKind::CustomBuf => (BrokerEventResult::Forward, MonitorUpdate::Nothing),
    }
}

/// The event manager: the monitor, and the events that wait to be handed
/// to the handlers.
#[derive(Debug)]
pub struct LibAFLStarManager<MT, E> {
    monitor: MT,
    events: Vec<E>,
    single_state: bool,
}

/// The event manager as contracts speak of it.
pub ghost struct ManagerView<MT, E> {
    pub monitor: MT,
    /// The events that wait, in the order in which they were fired.
    pub events: Seq<E>,
    /// Whether all target states are shown as one client.
    pub single_state: bool,
}

impl<MT, E> View for LibAFLStarManager<MT, E> {
    type V = ManagerView<MT, E>;

    closed spec fn view(&self) -> ManagerView<MT, E> {
        ManagerView { monitor: self.monitor, events: self.events@, single_state: self.single_state }
    }
}

impl<MT, E> LibAFLStarManager<MT, E> {
    /// A manager that shows each target state as a client of its own. The
    /// caller enters the client 0 into the monitor.
    pub fn new(monitor: MT) -> (r: Self)
        ensures
            r@ == (ManagerView { monitor, events: Seq::<E>::empty(), single_state: false }),
    {
        LibAFLStarManager { monitor, events: Vec::new(), single_state: false }
    }

    /// A manager for a fuzzer with one corpus for all target states: what
    /// the states find is the same, so it is counted once, under one
    /// client. The caller enters the client 0 into the monitor.
    pub fn single_corpus(monitor: MT) -> (r: Self)
        ensures
            r@ == (ManagerView { monitor, events: Seq::<E>::empty(), single_state: true }),
    {
        LibAFLStarManager { monitor, events: Vec::new(), single_state: true }
    }

    /// The monitor.
    pub fn monitor(&self) -> (r: &MT)
        ensures
            *r == self@.monitor,
    {
        &self.monitor
    }

    /// The monitor, for telling it.
    pub fn monitor_mut(&mut self) -> (r: &mut MT)
        ensures
            *r == old(self)@.monitor,
            final(self)@ == (ManagerView { monitor: *final(r), ..old(self)@ }),
    {
        &mut self.monitor
    }

    /// The identifier of this manager.
    pub fn mgr_id(&self) -> (r: usize)
        ensures
            r == 0,
    {
        0
    }

    /// The client under which the given target state is shown. Fails with
    /// `IllegalState` where the number of the client does not fit into 32
    /// bits.
    pub fn client_id(&self, state_idx: TargetStateIdx) -> (r: Result<u32, Error>)
        ensures
            r is Ok <==> client_of(self@.single_state, state_idx.0) <= u32::MAX,
            r is Ok ==> r->Ok_0 == client_of(self@.single_state, state_idx.0),
            r is Err ==> r->Err_0@ == ErrorView::IllegalState("Expected conversion failed"@),
    {
        let idx: usize = if self.single_state {
            0
        } else {
            state_idx.0
        };
        if idx < u32::MAX as usize {
            Ok((idx + 1) as u32)
        } else {
            Err(Error::illegal_state("Expected conversion failed"))
        }
    }

    /// Says what is done about an event of the given kind.
    pub fn handle_in_broker(kind: EventKind) -> (r: (BrokerEventResult, MonitorUpdate))
        ensures
            r == broker_result(kind),
    {
        match kind {
            EventKind::NewTestcase { corpus_size, executions } => (
                BrokerEventResult::Handled,
                MonitorUpdate::NewTestcase {
                    corpus_size: corpus_size as u64,
                    executions,
                },
            ),
            EventKind::UpdateExecStats { executions } => (
                BrokerEventResult::Handled,
                MonitorUpdate::ExecStats { executions },
            ),
            EventKind::UpdateUserStats => (BrokerEventResult::Handled, MonitorUpdate::UserStats),
            EventKind::Objective { objective_size } => (
                BrokerEventResult::Handled,
                MonitorUpdate::Objective { objective_size: objective_size as u64 },
            ),
            EventKind::Log => (BrokerEventResult::Handled, MonitorUpdate::Log),
            EventKind::CustomBuf => (BrokerEventResult::Forward, MonitorUpdate::Nothing),
        }
    }

    /// Takes an event that was fired while the given target state was
    /// selected. Returns the client that stands for the state, what the
    /// monitor is to be told for that client, and the event itself unless
    /// it is one that is passed on: such an event is kept until
    /// [`Self::process`] hands it out. Fails as [`Self::client_id`] does,
    /// and then keeps nothing.
    pub fn fire(&mut self, state_idx: TargetStateIdx, kind: EventKind, event: E) -> (r: Result<
        (u32, MonitorUpdate, Option<E>),
        Error,
    >)
        ensures
            r is Ok <==> client_of(old(self)@.single_state, state_idx.0) <= u32::MAX,
            r is Ok ==> r->Ok_0.0 == client_of(old(self)@.single_state, state_idx.0),
            r is Ok ==> r->Ok_0.1 == broker_result(kind).1,
            r is Ok ==> r->Ok_0.2 == (if broker_result(kind).0 is Forward {
                None::<E>
            } else {
                Some(event)
            }),
            r is Err ==> r->Err_0@ == ErrorView::IllegalState("Expected conversion failed"@),
            final(self)@ == (ManagerView {
                events: if r is Ok && broker_result(kind).0 is Forward {
                    old(self)@.events.push(event)
                } else {
                    old(self)@.events
                },
                ..old(self)@
            }),
    {
        let client_id = match self.client_id(state_idx) {
            Ok(id) => id,
            Err(e) => {
                return Err(e);
            },
        };
        let (result, update) = Self::handle_in_broker(kind);
        match result {
            BrokerEventResult::Forward => {
                self.events.push(event);
                Ok((client_id, update, None))
            },
            BrokerEventResult::Handled => Ok((client_id, update, Some(event))),
        }
    }

    /// Hands out the events that wait, the one fired last first, for the
    /// caller to give each to the handlers; none waits afterwards.
    pub fn process(&mut self) -> (r: Vec<E>)
        ensures
            r@ == old(self)@.events.reverse(),
            final(self)@ == (ManagerView { events: Seq::<E>::empty(), ..old(self)@ }),
    {
        let mut out: Vec<E> = Vec::new();
        let ghost waiting = self.events@;
        while self.events.len() > 0
            invariant
                self.monitor == old(self).monitor,
                self.single_state == old(self).single_state,
                waiting == old(self)@.events,
                self.events@ == waiting.take(self.events@.len() as int),
                out@.len() + self.events@.len() == waiting.len(),
                forall|k: int| 0 <= k < out@.len() ==> out@[k] == waiting[waiting.len() - 1 - k],
            decreases self.events@.len(),
        {
            match self.events.pop() {
                Some(event) => {
                    out.push(event);
                },
                None => {},
            }
        }
        assert(out@ =~= waiting.reverse());
        assert(self.events@ =~= Seq::<E>::empty());
        out
    }

    /// Says whether an event of the given kind is one for the handlers:
    /// only custom buffers are; any other kind should not have arrived,
    /// and gives `Unknown`.
    pub fn handle_in_client(kind: EventKind) -> (r: Result<(), Error>)
        ensures
            r is Ok <==> kind is CustomBuf,
            r is Err ==> r->Err_0@ == ErrorView::Unknown(
                "Received illegal message that message should not have arrived."@,
            ),
    {
        match kind {
            EventKind::CustomBuf => Ok(()),
            _ => Err(
                Error::unknown("Received illegal message that message should not have arrived."),
            ),
        }
    }
}

} // verus!
