//! The container of the fuzzing contexts, one per target state.
//!
//! A protocol server is fuzzed state by state. Each target state has a
//! context of its own (corpus, metadata, counters), and the container acts
//! at all times as the context of the one state that is selected. What is
//! kept per state and what is shared depends on the access mode.

use vstd::prelude::*;
use core::time::Duration;
use libafl_bolts::rands::StdRand;
use libafl_bolts::serdeany::NamedSerdeAnyMap;
use libafl_bolts::serdeany::SerdeAnyMap;
use crate::error::Error;
use crate::error::ErrorView;
use crate::executor::stateful::StatefulPersistentExecutorMeta;
use crate::state_scheduler::NoveltyIsBetterMetadata;
use crate::trusted::decimal_string;
use crate::trusted::decimal_text;
use crate::trusted::decimal_usize;
use crate::trusted::default_max_size;
use crate::trusted::history_map;
use crate::trusted::history_maps;
use crate::trusted::holds_no_history_map;
use crate::trusted::parse_usize;
use crate::trusted::trim;
use crate::trusted::trimmed;

verus! {

/// Which parts of a fuzzing context are kept per target state.
#[derive(Debug, Clone, Copy, PartialEq, Eq, Structural)]
pub enum StateAccessMode {
    /// One corpus and one set of metadata, whatever state is selected.
    SingleCorp,
    /// A corpus per target state, one set of metadata.
    MultiCorpSingleMeta,
    /// A corpus and a set of metadata per target state.
    MultiCorpMultiMeta,
}

impl StateAccessMode {
    /// Whether corpus accesses go to the shared corpus.
    pub open spec fn shares_corpus(self) -> bool {
        self is SingleCorp
    }

    /// Whether metadata accesses go to the shared maps.
    pub open spec fn shares_metadata(self) -> bool {
        !(self is MultiCorpMultiMeta)
    }
}

/// Identifier of a target state: a dense index into the list of states.
#[derive(Debug, Clone, Copy, PartialEq, Eq, Structural, Hash, PartialOrd, Ord, Default)]
pub struct TargetStateIdx(pub usize);

impl TargetStateIdx {
    /// The identifier as it is shown: `StateId(`, the index and `)`.
    pub fn to_string(&self) -> (r: String)
        ensures
            r@ == "StateId("@ + decimal_text(self.0 as nat) + ")"@,
    {
        String::from_str("StateId(").concat(decimal_string(self.0).as_str()).concat(")")
    }
}

/// What is known of a target state beside its messages.
#[derive(Debug, Clone, Copy, PartialEq, Eq, Structural)]
pub struct PrefixMetadata {
    /// Number of edges that leave the state in the protocol's state machine.
    pub outgoing_edges: usize,
}

/// The messages that bring the target from its initial state to one target
/// state, in the order in which they are sent, and the state's metadata.
#[derive(Debug, Clone)]
pub struct Prefix {
    pub prefix: Vec<Vec<u8>>,
    pub metadata: PrefixMetadata,
}

/// What is kept for one target state.
#[derive(Debug, Clone)]
pub struct InnerState<C> {
    /// The state's corpus, where each state has one.
    pub corpus: Option<C>,
    /// The state's metadata, where each state has its own.
    pub metadata: Option<SerdeAnyMap>,
    /// The state's named metadata, where each state has its own.
    pub named_metadata: Option<NamedSerdeAnyMap>,
    /// The executor's count of timeouts, where each state has its own
    /// metadata and a timeout was seen in this state.
    pub executor_meta: Option<StatefulPersistentExecutorMeta>,
    /// Number of imported test cases.
    pub imported: usize,
    /// Number of executions in this state.
    pub executions: u64,
    /// Number of times this state was chosen and fuzzed.
    pub fuzz_cycles: usize,
    /// The corpus entry that is being fuzzed, kept for resuming.
    pub corpus_idx: Option<usize>,
    /// The stage index at each depth of nesting, kept for resuming.
    pub stage_idx_stack: Vec<usize>,
    /// The current depth of nesting of stages.
    pub stage_depth: usize,
}

impl<C> InnerState<C> {
    /// This context with the stack of stage indices of another.
    pub open spec fn with_stack_of(self, other: Self) -> Self {
        InnerState { stage_idx_stack: other.stage_idx_stack, ..self }
    }

    /// Whether this is the context of a state that was never fuzzed, with
    /// the given corpus, and with empty metadata maps of its own if
    /// `own_metadata` says so.
    pub open spec fn is_fresh(self, corpus: Option<C>, own_metadata: bool) -> bool {
        &&& self.corpus == corpus
        &&& self.metadata is Some <==> own_metadata
        &&& self.named_metadata is Some <==> own_metadata
        &&& self.named_metadata is Some ==> holds_no_history_map(self.named_metadata->Some_0)
        &&& self.executor_meta is None
        &&& self.imported == 0
        &&& self.executions == 0
        &&& self.fuzz_cycles == 0
        &&& self.corpus_idx is None
        &&& self.stage_idx_stack@ == Seq::<usize>::empty()
        &&& self.stage_depth == 0
    }

    /// A fresh context around the given corpus and metadata maps.
    pub fn new(
        corpus: Option<C>,
        metadata: Option<SerdeAnyMap>,
        named_metadata: Option<NamedSerdeAnyMap>,
    ) -> (r: Self)
        ensures
            r.corpus == corpus,
            r.metadata == metadata,
            r.named_metadata == named_metadata,
            r.executor_meta is None,
            r.imported == 0,
            r.executions == 0,
            r.fuzz_cycles == 0,
            r.corpus_idx is None,
            r.stage_idx_stack@ == Seq::<usize>::empty(),
            r.stage_depth == 0,
    {
        InnerState {
            corpus,
            metadata,
            named_metadata,
            executor_meta: None,
            imported: 0,
            executions: 0,
            fuzz_cycles: 0,
            corpus_idx: None,
            stage_idx_stack: Vec::new(),
            stage_depth: 0,
        }
    }
}

/// One file of the directory of a prefix, as the caller read it. The files
/// of a directory are handed over in the order of their names.
#[derive(Debug)]
pub enum PrefixFile {
    /// The file named `metadata`, with its text.
    Metadata(String),
    /// Any other file: one message, with its bytes.
    Message(Vec<u8>),
    /// A file that could not be read as a message.
    Unreadable,
}

/// Whether a file of the directory of a prefix holds the metadata of the
/// target state: the file of the name `metadata` does.
pub fn is_metadata_file(name: &str) -> (r: bool)
    ensures
        r == (name@ == "metadata"@),
{
    let metadata = "metadata".to_owned();
    let given = name.to_owned();
    given == metadata
}

/// The number of outgoing edges that the text of a metadata file gives:
/// the text, without the white space around it, as a decimal number.
pub open spec fn outgoing_edges_in(text: Seq<char>) -> Option<usize> {
    decimal_usize(trimmed(text))
}

/// Whether a file keeps a prefix from being loaded: it could not be read
/// as a message, or it is the metadata and gives no number.
pub open spec fn is_bad_file(file: PrefixFile) -> bool {
    match file {
        PrefixFile::Metadata(text) => outgoing_edges_in(text@) is None,
        PrefixFile::Message(_) => false,
        PrefixFile::Unreadable => true,
    }
}

/// The error for a file that keeps a prefix from being loaded.
pub open spec fn bad_file_error(file: PrefixFile) -> ErrorView {
    match file {
        PrefixFile::Metadata(_) => ErrorView::IllegalState("Could not parse prefix metadata"@),
        _ => ErrorView::IllegalState("Failed to load a prefix message, this is never correct"@),
    }
}

/// The messages among some files, in the order of the files.
pub open spec fn messages_of(files: Seq<PrefixFile>) -> Seq<Vec<u8>>
    decreases files.len(),
{
    if files.len() == 0 {
        Seq::empty()
    } else {
        match files.last() {
            PrefixFile::Message(bytes) => messages_of(files.drop_last()).push(bytes),
            _ => messages_of(files.drop_last()),
        }
    }
}

/// The text of the metadata among some files, if it is among them.
pub open spec fn metadata_of(files: Seq<PrefixFile>) -> Option<Seq<char>>
    decreases files.len(),
{
    if files.len() == 0 {
        None
    } else {
        match files.last() {
            PrefixFile::Metadata(text) => Some(text@),
            _ => metadata_of(files.drop_last()),
        }
    }
}

/// Whether the file of index `i` is the first that keeps the prefix from
/// being loaded.
pub open spec fn is_first_bad_file(files: Seq<PrefixFile>, i: int) -> bool {
    &&& 0 <= i < files.len()
    &&& is_bad_file(files[i])
    &&& forall|k: int| 0 <= k < i ==> !is_bad_file(#[trigger] files[k])
}

/// Whether a prefix is the one that the files of its directory give, or
/// the error is the one that they give.
pub open spec fn loads_as(files: Seq<PrefixFile>, r: Result<Prefix, Error>) -> bool {
    if exists|i: int| is_first_bad_file(files, i) {
        &&& r is Err
        &&& exists|i: int| is_first_bad_file(files, i) && r->Err_0@ == bad_file_error(files[i])
    } else if metadata_of(files) is None {
        &&& r is Err
        &&& r->Err_0@ == ErrorView::IllegalState("No metadata file found in prefix dir"@)
    } else {
        &&& r is Ok
        &&& r->Ok_0.prefix@ == messages_of(files)
        &&& Some(r->Ok_0.metadata.outgoing_edges) == outgoing_edges_in(metadata_of(files)->Some_0)
    }
}

/// Makes the prefix of one target state from the files of its directory:
/// the file `metadata` gives the number of outgoing edges, and every other
/// file is one message, in the order of the files. Fails with
/// `IllegalState` at the first file that cannot be read as a message or
/// that is the metadata and holds no number, and where there is no
/// metadata at all.
pub fn load_prefix(files: Vec<PrefixFile>) -> (r: Result<Prefix, Error>)
    ensures
        loads_as(files@, r),
{
    let ghost all = files@;
    let mut rest = files;
    let mut prefix: Vec<Vec<u8>> = Vec::new();
    let mut metadata: Option<PrefixMetadata> = None;
    let ghost mut done: int = 0;
    while rest.len() > 0
        invariant
            all == files@,
            0 <= done <= all.len(),
            rest@ == all.skip(done),
            prefix@ == messages_of(all.take(done)),
            forall|k: int| 0 <= k < done ==> !is_bad_file(#[trigger] all[k]),
            metadata is Some <==> metadata_of(all.take(done)) is Some,
            metadata is Some ==> Some(metadata->Some_0.outgoing_edges) == outgoing_edges_in(
                metadata_of(all.take(done))->Some_0,
            ),
        decreases rest@.len(),
    {
        let file = rest.remove(0);
        proof {
            assert(file == all[done]);
            assert(all.take(done + 1).drop_last() == all.take(done));
            assert(all.take(done + 1).last() == all[done]);
            assert(all.skip(done).remove(0) == all.skip(done + 1));
        }
        match file {
            PrefixFile::Metadata(text) => {
                match parse_usize(trim(text.as_str())) {
                    Some(outgoing_edges) => {
                        metadata = Some(PrefixMetadata { outgoing_edges });
                    },
                    None => {
                        assert(is_first_bad_file(all, done));
                        return Err(Error::illegal_state("Could not parse prefix metadata"));
                    },
                }
            },
            PrefixFile::Message(bytes) => {
                prefix.push(bytes);
            },
            PrefixFile::Unreadable => {
                assert(is_first_bad_file(all, done));
                return Err(
                    Error::illegal_state("Failed to load a prefix message, this is never correct"),
                );
            },
        }
        proof {
            done = done + 1;
        }
    }
    proof {
        assert(all.take(done) == all);
        assert(!exists|i: int| is_first_bad_file(all, i));
    }
    match metadata {
        Some(meta) => Ok(Prefix { prefix, metadata: meta }),
        None => Err(Error::illegal_state("No metadata file found in prefix dir")),
    }
}

/// Whether the files of a directory give a prefix.
pub open spec fn gives_prefix(files: Seq<PrefixFile>) -> bool {
    exists|p: Prefix| loads_as(files, Ok::<Prefix, Error>(p))
}

/// Whether the directory of index `i` is the first that gives no prefix,
/// and gives this error.
pub open spec fn fails_first_at(dirs: Seq<Vec<PrefixFile>>, i: int, e: Error) -> bool {
    &&& 0 <= i < dirs.len()
    &&& loads_as(dirs[i]@, Err::<Prefix, Error>(e))
    &&& forall|k: int| 0 <= k < i ==> gives_prefix((#[trigger] dirs[k])@)
}

/// Makes the prefixes of all target states from their directories, which
/// are handed over in the order of their names: the first directory gives
/// the target state of index 0, and so on. Fails with the error of the
/// first directory that gives no prefix.
pub fn load_prefixes(dirs: Vec<Vec<PrefixFile>>) -> (r: Result<Vec<Prefix>, Error>)
    ensures
        r is Ok ==> r->Ok_0@.len() == dirs@.len() && forall|i: int|
            0 <= i < dirs@.len() ==> loads_as(
                (#[trigger] dirs@[i])@,
                Ok::<Prefix, Error>(r->Ok_0@[i]),
            ),
        r is Err ==> exists|i: int| #[trigger] fails_first_at(dirs@, i, r->Err_0),
{
    let ghost all = dirs@;
    let mut rest = dirs;
    let mut prefixes: Vec<Prefix> = Vec::new();
    let ghost mut done: int = 0;
    while rest.len() > 0
        invariant
            all == dirs@,
            0 <= done <= all.len(),
            rest@ == all.skip(done),
            prefixes@.len() == done,
            forall|i: int|
                0 <= i < done ==> loads_as((#[trigger] all[i])@, Ok::<Prefix, Error>(prefixes@[i])),
        decreases rest@.len(),
    {
        let files = rest.remove(0);
        proof {
            assert(files == all[done]);
            assert(all.skip(done).remove(0) == all.skip(done + 1));
        }
        match load_prefix(files) {
            Ok(prefix) => {
                prefixes.push(prefix);
            },
            Err(e) => {
                proof {
                    assert forall|k: int| 0 <= k < done implies gives_prefix(
                        (#[trigger] all[k])@,
                    ) by {
                        assert(loads_as(all[k]@, Ok::<Prefix, Error>(prefixes@[k])));
                    }
                }
                let r: Result<Vec<Prefix>, Error> = Err(e);
                assert(fails_first_at(dirs@, done, r->Err_0));
                return r;
            },
        }
        proof {
            done = done + 1;
        }
    }
    Ok(prefixes)
}

/// The fuzzer's state: the contexts of all target states, the parts that
/// they share, and the index of the state that is selected.
#[derive(Debug)]
pub struct LibAFLStarState<C, SC> {
    access_mode: StateAccessMode,
    idx: TargetStateIdx,
    num_states: usize,
    shared_named_metadata: NamedSerdeAnyMap,
    shared_metadata: SerdeAnyMap,
    shared_executor_meta: Option<StatefulPersistentExecutorMeta>,
    novelty: Option<NoveltyIsBetterMetadata>,
    corpus: Option<C>,
    inner: Vec<InnerState<C>>,
    prefixes: Vec<Prefix>,
    last_report_time: Option<Duration>,
    max_size: usize,
    rand: StdRand,
    solutions: SC,
}

/// The fuzzer's state as contracts speak of it.
pub ghost struct StateView<C, SC> {
    pub access_mode: StateAccessMode,
    /// The selected target state.
    pub idx: usize,
    /// The number of target states.
    pub num_states: usize,
    pub shared_named_metadata: NamedSerdeAnyMap,
    pub shared_metadata: SerdeAnyMap,
    pub shared_executor_meta: Option<StatefulPersistentExecutorMeta>,
    pub novelty: Option<NoveltyIsBetterMetadata>,
    /// The corpus that all states share, where they share one.
    pub corpus: Option<C>,
    /// The context of each target state, by its index.
    pub inner: Seq<InnerState<C>>,
    /// The prefix of each target state, by its index.
    pub prefixes: Seq<Prefix>,
    pub last_report_time: Option<Duration>,
    pub max_size: usize,
    pub rand: StdRand,
    pub solutions: SC,
}

/// What a consumer of the state sees while one target state is selected.
pub ghost struct Context<C> {
    pub corpus: C,
    pub metadata: SerdeAnyMap,
    pub named_metadata: NamedSerdeAnyMap,
    pub executor_meta: Option<StatefulPersistentExecutorMeta>,
    pub imported: usize,
    pub executions: u64,
    pub fuzz_cycles: usize,
    pub corpus_idx: Option<usize>,
    pub stage_idx_stack: Seq<usize>,
    pub stage_depth: usize,
}

impl<C, SC> StateView<C, SC> {
    /// The number of target states.
    pub open spec fn len(self) -> nat {
        self.inner.len()
    }

    /// The invariant of the container: there is at least one target state,
    /// each has a prefix, the selected index names one of them, and the
    /// storage that the access mode routes to exists.
    pub open spec fn wf(self) -> bool {
        &&& self.inner.len() >= 1
        &&& self.num_states == self.inner.len()
        &&& self.prefixes.len() == self.inner.len()
        &&& self.idx < self.inner.len()
        &&& self.access_mode.shares_corpus() ==> self.corpus is Some
        &&& !self.access_mode.shares_corpus() ==> forall|i: int|
            0 <= i < self.inner.len() ==> (#[trigger] self.inner[i]).corpus is Some
        &&& !self.access_mode.shares_metadata() ==> forall|i: int|
            0 <= i < self.inner.len() ==> {
                &&& (#[trigger] self.inner[i]).metadata is Some
                &&& self.inner[i].named_metadata is Some
            }
    }

    /// The context of the selected target state.
    pub open spec fn active(self) -> InnerState<C> {
        self.inner[self.idx as int]
    }

    /// The corpus that accesses are routed to.
    pub open spec fn routed_corpus(self) -> C {
        if self.access_mode.shares_corpus() {
            self.corpus->Some_0
        } else {
            self.active().corpus->Some_0
        }
    }

    /// The metadata map that accesses are routed to.
    pub open spec fn routed_metadata(self) -> SerdeAnyMap {
        if self.access_mode.shares_metadata() {
            self.shared_metadata
        } else {
            self.active().metadata->Some_0
        }
    }

    /// The named metadata map that accesses are routed to.
    pub open spec fn routed_named_metadata(self) -> NamedSerdeAnyMap {
        if self.access_mode.shares_metadata() {
            self.shared_named_metadata
        } else {
            self.active().named_metadata->Some_0
        }
    }

    /// The executor's count of timeouts that accesses are routed to.
    pub open spec fn routed_executor_meta(self) -> Option<StatefulPersistentExecutorMeta> {
        if self.access_mode.shares_metadata() {
            self.shared_executor_meta
        } else {
            self.active().executor_meta
        }
    }

    /// What a consumer sees of the state: the routed storage and the
    /// counters of the selected target state.
    pub open spec fn context(self) -> Context<C> {
        Context {
            corpus: self.routed_corpus(),
            metadata: self.routed_metadata(),
            named_metadata: self.routed_named_metadata(),
            executor_meta: self.routed_executor_meta(),
            imported: self.active().imported,
            executions: self.active().executions,
            fuzz_cycles: self.active().fuzz_cycles,
            corpus_idx: self.active().corpus_idx,
            stage_idx_stack: self.active().stage_idx_stack@,
            stage_depth: self.active().stage_depth,
        }
    }

    /// The state with another target state selected and nothing else
    /// changed.
    pub open spec fn select(self, idx: usize) -> Self {
        StateView { idx, ..self }
    }

    /// The state with the context of the selected target state replaced.
    pub open spec fn with_active(self, inner: InnerState<C>) -> Self {
        StateView { inner: self.inner.update(self.idx as int, inner), ..self }
    }

    /// The state with the corpus that accesses are routed to replaced.
    pub open spec fn with_routed_corpus(self, corpus: C) -> Self {
        if self.access_mode.shares_corpus() {
            StateView { corpus: Some(corpus), ..self }
        } else {
            self.with_active(InnerState { corpus: Some(corpus), ..self.active() })
        }
    }

    /// The state with the metadata map that accesses are routed to replaced.
    pub open spec fn with_routed_metadata(self, map: SerdeAnyMap) -> Self {
        if self.access_mode.shares_metadata() {
            StateView { shared_metadata: map, ..self }
        } else {
            self.with_active(InnerState { metadata: Some(map), ..self.active() })
        }
    }

    /// The state with the named metadata map that accesses are routed to
    /// replaced.
    pub open spec fn with_routed_named_metadata(self, map: NamedSerdeAnyMap) -> Self {
        if self.access_mode.shares_metadata() {
            StateView { shared_named_metadata: map, ..self }
        } else {
            self.with_active(InnerState { named_metadata: Some(map), ..self.active() })
        }
    }

    /// The state with the executor's count of timeouts that accesses are
    /// routed to replaced.
    pub open spec fn with_routed_executor_meta(
        self,
        meta: Option<StatefulPersistentExecutorMeta>,
    ) -> Self {
        if self.access_mode.shares_metadata() {
            StateView { shared_executor_meta: meta, ..self }
        } else {
            self.with_active(InnerState { executor_meta: meta, ..self.active() })
        }
    }

    /// The history map that the coverage feedback keeps for the target state
    /// of index `i` where each state has its own metadata.
    pub open spec fn own_history_map(self, i: int) -> Seq<u8> {
        history_maps(self.inner[i].named_metadata->Some_0)[history_map_name()]
    }

    /// Whether the history map of every fuzzing context is there: the shared
    /// one where metadata is shared, else one per target state.
    pub open spec fn has_coverage(self) -> bool {
        if self.access_mode.shares_metadata() {
            history_maps(self.shared_named_metadata).contains_key(history_map_name())
        } else {
            forall|i: int|
                0 <= i < self.inner.len() ==> #[trigger] history_maps(
                    self.inner[i].named_metadata->Some_0,
                ).contains_key(history_map_name())
        }
    }

    /// The coverage of the whole run: the one history map where metadata is
    /// shared, else the history maps of all target states merged.
    pub open spec fn coverage_map(self) -> Seq<u8> {
        if self.access_mode.shares_metadata() {
            history_maps(self.shared_named_metadata)[history_map_name()]
        } else {
            merge_all(Seq::new(self.inner.len(), |i: int| self.own_history_map(i)))
        }
    }

    /// The numbers of executions of the target states, added up.
    pub open spec fn total_executions(self) -> nat {
        Self::sum_executions(self.inner)
    }

    /// The numbers of executions of some contexts, added up.
    pub open spec fn sum_executions(inner: Seq<InnerState<C>>) -> nat
        decreases inner.len(),
    {
        if inner.len() == 0 {
            0
        } else {
            Self::sum_executions(inner.drop_last()) + inner.last().executions as nat
        }
    }

    /// Whether this is the state that construction yields from the given
    /// parts: the first target state selected, the prefixes as given, a
    /// fresh context per prefix, the corpora placed as the access mode asks,
    /// and nothing in the shared metadata.
    pub open spec fn is_initial(
        self,
        rand: StdRand,
        corpora: Seq<C>,
        solutions: SC,
        prefixes: Seq<Prefix>,
        access_mode: StateAccessMode,
    ) -> bool {
        &&& self.wf()
        &&& self.access_mode == access_mode
        &&& self.idx == 0
        &&& self.prefixes == prefixes
        &&& self.inner.len() == prefixes.len()
        &&& self.corpus == (if access_mode.shares_corpus() {
            Some(corpora[0])
        } else {
            None::<C>
        })
        &&& forall|i: int|
            0 <= i < self.inner.len() ==> (#[trigger] self.inner[i]).is_fresh(
                if access_mode.shares_corpus() {
                    None::<C>
                } else {
                    Some(corpora[i])
                },
                !access_mode.shares_metadata(),
            )
        &&& holds_no_history_map(self.shared_named_metadata)
        &&& self.shared_executor_meta is None
        &&& self.novelty is None
        &&& self.last_report_time is None
        &&& self.max_size == 1_048_576
        &&& self.rand == rand
        &&& self.solutions == solutions
    }
}

/// Whether that many corpora can serve that many prefixes in the given
/// access mode: there is a prefix, and there is one corpus or one per prefix
/// as the mode asks.
pub open spec fn corpora_fit(corpora: nat, prefixes: nat, access_mode: StateAccessMode) -> bool {
    &&& prefixes > 0
    &&& access_mode.shares_corpus() ==> corpora == 1
    &&& !access_mode.shares_corpus() ==> corpora == prefixes
}

/// The name under which the coverage feedback keeps its history map in the
/// named metadata.
pub open spec fn history_map_name() -> Seq<char> {
    "mapfeedback_metadata_shared_mem"@
}

/// The error for a coverage that cannot be computed because a history map
/// is missing.
pub open spec fn no_coverage_error() -> ErrorView {
    ErrorView::IllegalState(
        "Cannot calculate average coverage because different Feedback type was used. Expected MapFeedback<u8>"@,
    )
}

/// The number of bytes of a map that are not 0: the number of edges that
/// were hit at least once.
pub open spec fn count_nonzero(map: Seq<u8>) -> nat
    decreases map.len(),
{
    if map.len() == 0 {
        0
    } else {
        count_nonzero(map.drop_last()) + (if map.last() != 0 {
            1nat
        } else {
            0nat
        })
    }
}

/// The byte of a map at an index, and 0 beyond the map's end.
pub open spec fn byte_at(map: Seq<u8>, j: int) -> u8 {
    if 0 <= j < map.len() {
        map[j]
    } else {
        0
    }
}

/// Two maps merged: as long as the longer one, and at each index the larger
/// of the two bytes.
pub open spec fn merge_two(a: Seq<u8>, b: Seq<u8>) -> Seq<u8> {
    Seq::new(
        if a.len() >= b.len() {
            a.len()
        } else {
            b.len()
        },
        |j: int|
            if byte_at(a, j) >= byte_at(b, j) {
                byte_at(a, j)
            } else {
                byte_at(b, j)
            },
    )
}

/// All maps merged, from the first to the last.
pub open spec fn merge_all(maps: Seq<Seq<u8>>) -> Seq<u8>
    decreases maps.len(),
{
    if maps.len() == 0 {
        Seq::empty()
    } else {
        merge_two(merge_all(maps.drop_last()), maps.last())
    }
}

/// A map has no more nonzero bytes than it has bytes: no more edges are
/// hit than there are.
pub proof fn law_coverage_within_map(map: Seq<u8>)
    ensures
        count_nonzero(map) <= map.len(),
    decreases map.len(),
{
    if map.len() > 0 {
        law_coverage_within_map(map.drop_last());
    }
}

/// The merged map is as long as the longest of the maps, and it has a
/// nonzero byte exactly where one of the maps has one: an edge counts as
/// covered if any target state covered it.
pub proof fn law_merged_map_marks_what_any_state_covers(maps: Seq<Seq<u8>>)
    ensures
        forall|i: int| 0 <= i < maps.len() ==> (#[trigger] maps[i]).len() <= merge_all(maps).len(),
        maps.len() > 0 ==> exists|i: int|
            0 <= i < maps.len() && (#[trigger] maps[i]).len() == merge_all(maps).len(),
        maps.len() == 0 ==> merge_all(maps).len() == 0,
        forall|j: int|
            0 <= j < merge_all(maps).len() ==> (#[trigger] merge_all(maps)[j] != 0 <==> exists|
                i: int,
            |
                0 <= i < maps.len() && byte_at(#[trigger] maps[i], j) != 0),
    decreases maps.len(),
{
    if maps.len() > 0 {
        let front = maps.drop_last();
        let last = maps.last();
        law_merged_map_marks_what_any_state_covers(front);
        let m = merge_all(maps);
        assert forall|i: int| 0 <= i < maps.len() implies (#[trigger] maps[i]).len() <= m.len() by {
            if i < front.len() {
                assert(front[i] == maps[i]);
            }
        }
        if front.len() > 0 && merge_all(front).len() >= last.len() {
            let i = choose|i: int|
                0 <= i < front.len() && (#[trigger] front[i]).len() == merge_all(front).len();
            assert(maps[i] == front[i]);
        } else {
            assert(maps[maps.len() - 1].len() == m.len());
        }
        assert forall|j: int| 0 <= j < m.len() implies (#[trigger] m[j] != 0 <==> exists|i: int|
            0 <= i < maps.len() && byte_at(#[trigger] maps[i], j) != 0) by {
            if m[j] != 0 {
                if byte_at(last, j) != 0 {
                    assert(byte_at(maps[maps.len() - 1], j) != 0);
                } else {
                    assert(byte_at(merge_all(front), j) != 0);
                    assert(merge_all(front)[j] != 0);
                    let i = choose|i: int|
                        0 <= i < front.len() && byte_at(#[trigger] front[i], j) != 0;
                    assert(maps[i] == front[i]);
                }
            }
            if exists|i: int| 0 <= i < maps.len() && byte_at(#[trigger] maps[i], j) != 0 {
                let i = choose|i: int| 0 <= i < maps.len() && byte_at(#[trigger] maps[i], j) != 0;
                if i < front.len() {
                    assert(front[i] == maps[i]);
                    assert(front[i].len() <= merge_all(front).len());
                    assert(merge_all(front)[j] != 0);
                }
            }
        }
    }
}

/// Counts the bytes of a map that are not 0.
pub fn count_nonzero_bytes(map: &Vec<u8>) -> (r: usize)
    ensures
        r == count_nonzero(map@),
{
    let mut count: usize = 0;
    let mut i: usize = 0;
    while i < map.len()
        invariant
            i <= map@.len(),
            count == count_nonzero(map@.take(i as int)),
            count <= i,
        decreases map@.len() - i,
    {
        assert(map@.take(i + 1).drop_last() == map@.take(i as int));
        if map[i] != 0 {
            count = count + 1;
        }
        i = i + 1;
    }
    assert(map@.take(i as int) == map@);
    count
}

/// Merges a map into the map of the total: the total grows to the length of
/// the longer of the two and takes, at each index, the larger byte.
pub fn merge_coverage_map(total_map: &mut Vec<u8>, map: &Vec<u8>)
    ensures
        final(total_map)@ == merge_two(old(total_map)@, map@),
{
    while total_map.len() < map.len()
        invariant
            old(total_map)@.len() <= total_map@.len(),
            total_map@.len() <= map@.len() || total_map@.len() == old(total_map)@.len(),
            forall|j: int| 0 <= j < total_map@.len() ==> total_map@[j] == byte_at(old(total_map)@, j),
        decreases map@.len() - total_map@.len(),
    {
        total_map.push(0u8);
    }
    let mut i: usize = 0;
    while i < map.len()
        invariant
            i <= map@.len(),
            map@.len() <= total_map@.len(),
            total_map@.len() == merge_two(old(total_map)@, map@).len(),
            forall|j: int| 0 <= j < i ==> total_map@[j] == merge_two(old(total_map)@, map@)[j],
            forall|j: int|
                i <= j < total_map@.len() ==> total_map@[j] == byte_at(old(total_map)@, j),
        decreases map@.len() - i,
    {
        if map[i] > total_map[i] {
            total_map[i] = map[i];
        }
        i = i + 1;
    }
    assert(total_map@ =~= merge_two(old(total_map)@, map@));
}

impl<C, SC> View for LibAFLStarState<C, SC> {
    type V = StateView<C, SC>;

    closed spec fn view(&self) -> StateView<C, SC> {
        StateView {
            access_mode: self.access_mode,
            idx: self.idx.0,
            num_states: self.num_states,
            shared_named_metadata: self.shared_named_metadata,
            shared_metadata: self.shared_metadata,
            shared_executor_meta: self.shared_executor_meta,
            novelty: self.novelty,
            corpus: self.corpus,
            inner: self.inner@,
            prefixes: self.prefixes@,
            last_report_time: self.last_report_time,
            max_size: self.max_size,
            rand: self.rand,
            solutions: self.solutions,
        }
    }
}

impl<C, SC> LibAFLStarState<C, SC> {
    /// A state with a fresh context for each prefix, the first target state
    /// selected. In `SingleCorp` mode exactly one corpus is wanted, in the
    /// other modes one per prefix, and at least one prefix in any mode; with
    /// anything else this fails with `IllegalArgument`.
    pub fn new_with_access_mode(
        rand: StdRand,
        corpora: Vec<C>,
        solutions: SC,
        prefixes: Vec<Prefix>,
        access_mode: StateAccessMode,
    ) -> (r: Result<Self, Error>)
        ensures
            r is Ok <==> corpora_fit(corpora@.len(), prefixes@.len(), access_mode),
            r is Err ==> r->Err_0 is IllegalArgument,
            r is Ok ==> r->Ok_0@.is_initial(rand, corpora@, solutions, prefixes@, access_mode),
    {
        let num_states = prefixes.len();
        if num_states == 0 {
            return Err(Error::illegal_argument("Length of `prefixes` cannot be 0"));
        }
        match access_mode {
            StateAccessMode::SingleCorp => {
                if corpora.len() != 1 {
                    return Err(
                        Error::illegal_argument(
                            "When using a single corpus, exactly one corpus must be supplied",
                        ),
                    );
                }
            },
            _ => {
                if num_states != corpora.len() {
                    return Err(
                        Error::illegal_argument(
                            "The number of prefixes supplied must be equal to the number of corpora",
                        ),
                    );
                }
            },
        }
        let ghost given = corpora@;
        let mut corpora = corpora;
        let mut inner: Vec<InnerState<C>> = Vec::new();
        let mut shared_corpus: Option<C> = None;
        match access_mode {
            StateAccessMode::SingleCorp => {
                shared_corpus = corpora.pop();
                while inner.len() < num_states
                    invariant
                        inner@.len() <= num_states,
                        forall|i: int|
                            0 <= i < inner@.len() ==> (#[trigger] inner@[i]).is_fresh(
                                None::<C>,
                                false,
                            ),
                    decreases num_states - inner@.len(),
                {
                    inner.push(InnerState::new(None, None, None));
                }
            },
            _ => {
                let own_metadata = matches!(access_mode, StateAccessMode::MultiCorpMultiMeta);
                let mut rest: Vec<C> = Vec::new();
                while corpora.len() > 0
                    invariant
                        corpora@.len() + rest@.len() == given.len(),
                        corpora@ == given.take(corpora@.len() as int),
                        forall|j: int|
                            0 <= j < rest@.len() ==> rest@[j] == given[given.len() - 1 - j],
                    decreases corpora@.len(),
                {
                    let c = corpora.pop().unwrap();
                    rest.push(c);
                }
                while rest.len() > 0
                    invariant
                        inner@.len() + rest@.len() == given.len(),
                        given.len() == num_states,
                        own_metadata == !access_mode.shares_metadata(),
                        forall|j: int|
                            0 <= j < rest@.len() ==> rest@[j] == given[given.len() - 1 - j],
                        forall|i: int|
                            0 <= i < inner@.len() ==> (#[trigger] inner@[i]).is_fresh(
                                Some(given[i]),
                                own_metadata,
                            ),
                    decreases rest@.len(),
                {
                    let c = rest.pop().unwrap();
                    let fresh = if own_metadata {
                        InnerState::new(
                            Some(c),
                            Some(SerdeAnyMap::new()),
                            Some(NamedSerdeAnyMap::new()),
                        )
                    } else {
                        InnerState::new(Some(c), None, None)
                    };
                    inner.push(fresh);
                }
            },
        }
        let state = LibAFLStarState {
            access_mode,
            idx: TargetStateIdx(0),
            num_states,
            shared_named_metadata: NamedSerdeAnyMap::new(),
            shared_metadata: SerdeAnyMap::new(),
            shared_executor_meta: None,
            novelty: None,
            corpus: shared_corpus,
            inner,
            prefixes,
            last_report_time: None,
            max_size: default_max_size(),
            rand,
            solutions,
        };
        Ok(state)
    }

    /// A state in which all target states share one corpus and one set of
    /// metadata. Fails with `IllegalArgument` where no prefix is given.
    pub fn new_single_corpus(rand: StdRand, corpus: C, solutions: SC, prefixes: Vec<Prefix>) -> (r:
        Result<Self, Error>)
        ensures
            r is Ok <==> prefixes@.len() > 0,
            r is Err ==> r->Err_0 is IllegalArgument,
            r is Ok ==> r->Ok_0@.is_initial(
                rand,
                seq![corpus],
                solutions,
                prefixes@,
                StateAccessMode::SingleCorp,
            ),
    {
        let mut corpora: Vec<C> = Vec::new();
        corpora.push(corpus);
        assert(corpora@ =~= seq![corpus]);
        Self::new_with_access_mode(rand, corpora, solutions, prefixes, StateAccessMode::SingleCorp)
    }

    /// A state with a corpus for each target state and one set of metadata
    /// for all. Fails with `IllegalArgument` unless there is a prefix and as
    /// many corpora as prefixes.
    pub fn new_multi_corpus_single_meta(
        rand: StdRand,
        corpora: Vec<C>,
        solutions: SC,
        prefixes: Vec<Prefix>,
    ) -> (r: Result<Self, Error>)
        ensures
            r is Ok <==> prefixes@.len() > 0 && corpora@.len() == prefixes@.len(),
            r is Err ==> r->Err_0 is IllegalArgument,
            r is Ok ==> r->Ok_0@.is_initial(
                rand,
                corpora@,
                solutions,
                prefixes@,
                StateAccessMode::MultiCorpSingleMeta,
            ),
    {
        Self::new_with_access_mode(
            rand,
            corpora,
            solutions,
            prefixes,
            StateAccessMode::MultiCorpSingleMeta,
        )
    }

    /// A state with a corpus and a set of metadata for each target state.
    /// Fails with `IllegalArgument` unless there is a prefix and as many
    /// corpora as prefixes.
    pub fn new_multi_corpus_multi_meta(
        rand: StdRand,
        corpora: Vec<C>,
        solutions: SC,
        prefixes: Vec<Prefix>,
    ) -> (r: Result<Self, Error>)
        ensures
            r is Ok <==> prefixes@.len() > 0 && corpora@.len() == prefixes@.len(),
            r is Err ==> r->Err_0 is IllegalArgument,
            r is Ok ==> r->Ok_0@.is_initial(
                rand,
                corpora@,
                solutions,
                prefixes@,
                StateAccessMode::MultiCorpMultiMeta,
            ),
    {
        Self::new_with_access_mode(
            rand,
            corpora,
            solutions,
            prefixes,
            StateAccessMode::MultiCorpMultiMeta,
        )
    }

    /// The default construction: the same as
    /// [`Self::new_multi_corpus_multi_meta`].
    pub fn new(rand: StdRand, corpora: Vec<C>, solutions: SC, prefixes: Vec<Prefix>) -> (r: Result<
        Self,
        Error,
    >)
        ensures
            r is Ok <==> prefixes@.len() > 0 && corpora@.len() == prefixes@.len(),
            r is Err ==> r->Err_0 is IllegalArgument,
            r is Ok ==> r->Ok_0@.is_initial(
                rand,
                corpora@,
                solutions,
                prefixes@,
                StateAccessMode::MultiCorpMultiMeta,
            ),
    {
        Self::new_with_access_mode(
            rand,
            corpora,
            solutions,
            prefixes,
            StateAccessMode::MultiCorpMultiMeta,
        )
    }

    /// Tells whether the state holds its invariant, see [`StateView::wf`].
    pub fn is_well_formed(&self) -> (r: bool)
        ensures
            r == self@.wf(),
    {
        let n = self.inner.len();
        if n < 1 || self.num_states != n || self.prefixes.len() != n || self.idx.0 >= n {
            return false;
        }
        let shares_corpus = matches!(self.access_mode, StateAccessMode::SingleCorp);
        let shares_metadata = !matches!(self.access_mode, StateAccessMode::MultiCorpMultiMeta);
        if shares_corpus && self.corpus.is_none() {
            return false;
        }
        let mut i: usize = 0;
        while i < n
            invariant
                i <= n,
                n == self@.inner.len(),
                shares_corpus == self@.access_mode.shares_corpus(),
                shares_metadata == self@.access_mode.shares_metadata(),
                !shares_corpus ==> forall|k: int|
                    0 <= k < i ==> (#[trigger] self@.inner[k]).corpus is Some,
                !shares_metadata ==> forall|k: int|
                    0 <= k < i ==> {
                        &&& (#[trigger] self@.inner[k]).metadata is Some
                        &&& self@.inner[k].named_metadata is Some
                    },
            decreases n - i,
        {
            if !shares_corpus && self.inner[i].corpus.is_none() {
                return false;
            }
            if !shares_metadata && (self.inner[i].metadata.is_none()
                || self.inner[i].named_metadata.is_none()) {
                return false;
            }
            i = i + 1;
        }
        true
    }

    /// Puts a state together from its parts, as they were taken from a
    /// state before, for going on where that state stopped. Fails with
    /// `IllegalState` where the parts do not make up a state that holds the
    /// invariant, see [`StateView::wf`].
    pub fn from_parts(
        access_mode: StateAccessMode,
        idx: TargetStateIdx,
        shared_named_metadata: NamedSerdeAnyMap,
        shared_metadata: SerdeAnyMap,
        shared_executor_meta: Option<StatefulPersistentExecutorMeta>,
        novelty: Option<NoveltyIsBetterMetadata>,
        corpus: Option<C>,
        inner: Vec<InnerState<C>>,
        prefixes: Vec<Prefix>,
        last_report_time: Option<Duration>,
        max_size: usize,
        rand: StdRand,
        solutions: SC,
    ) -> (r: Result<Self, Error>)
        ensures
            r is Ok <==> Self::parts_view(
                access_mode,
                idx,
                shared_named_metadata,
                shared_metadata,
                shared_executor_meta,
                novelty,
                corpus,
                inner,
                prefixes,
                last_report_time,
                max_size,
                rand,
                solutions,
            ).wf(),
            r is Ok ==> r->Ok_0@ == Self::parts_view(
                access_mode,
                idx,
                shared_named_metadata,
                shared_metadata,
                shared_executor_meta,
                novelty,
                corpus,
                inner,
                prefixes,
                last_report_time,
                max_size,
                rand,
                solutions,
            ),
            r is Err ==> r->Err_0@ == ErrorView::IllegalState(
                "The parts do not make up a state"@,
            ),
    {
        let state = LibAFLStarState {
            access_mode,
            idx,
            num_states: inner.len(),
            shared_named_metadata,
            shared_metadata,
            shared_executor_meta,
            novelty,
            corpus,
            inner,
            prefixes,
            last_report_time,
            max_size,
            rand,
            solutions,
        };
        if state.is_well_formed() {
            Ok(state)
        } else {
            Err(Error::illegal_state("The parts do not make up a state"))
        }
    }

    /// The state that the given parts make up.
    pub open spec fn parts_view(
        access_mode: StateAccessMode,
        idx: TargetStateIdx,
        shared_named_metadata: NamedSerdeAnyMap,
        shared_metadata: SerdeAnyMap,
        shared_executor_meta: Option<StatefulPersistentExecutorMeta>,
        novelty: Option<NoveltyIsBetterMetadata>,
        corpus: Option<C>,
        inner: Vec<InnerState<C>>,
        prefixes: Vec<Prefix>,
        last_report_time: Option<Duration>,
        max_size: usize,
        rand: StdRand,
        solutions: SC,
    ) -> StateView<C, SC> {
        StateView {
            access_mode,
            idx: idx.0,
            num_states: inner@.len() as usize,
            shared_named_metadata,
            shared_metadata,
            shared_executor_meta,
            novelty,
            corpus,
            inner: inner@,
            prefixes: prefixes@,
            last_report_time,
            max_size,
            rand,
            solutions,
        }
    }

    /// The contexts of all target states, by their indices.
    pub fn inner_states(&self) -> (r: &Vec<InnerState<C>>)
        ensures
            r@ == self@.inner,
    {
        &self.inner
    }

    /// The prefixes of all target states, by their indices.
    pub fn prefixes(&self) -> (r: &Vec<Prefix>)
        ensures
            r@ == self@.prefixes,
    {
        &self.prefixes
    }

    /// The corpus that all target states share, where they share one.
    pub fn shared_corpus(&self) -> (r: &Option<C>)
        ensures
            *r == self@.corpus,
    {
        &self.corpus
    }

    /// The executor's count of timeouts in the shared metadata.
    pub fn shared_executor_meta(&self) -> (r: &Option<StatefulPersistentExecutorMeta>)
        ensures
            *r == self@.shared_executor_meta,
    {
        &self.shared_executor_meta
    }

    /// The depth of nesting of stages in the selected target state.
    pub fn stage_depth(&self) -> (r: usize)
        requires
            self@.wf(),
        ensures
            r == self@.active().stage_depth,
    {
        self.inner[self.idx.0].stage_depth
    }

    /// The access mode the state was made with.
    pub fn access_mode(&self) -> (r: StateAccessMode)
        ensures
            r == self@.access_mode,
    {
        self.access_mode
    }

    /// The prefix of the selected target state.
    pub fn prefix(&self) -> (r: &Prefix)
        requires
            self@.wf(),
        ensures
            *r == self@.prefixes[self@.idx as int],
    {
        &self.prefixes[self.idx.0]
    }

    /// Selects another target state. Fails with `IllegalState`, and changes
    /// nothing, where the index names no target state.
    pub fn switch_state(&mut self, idx: TargetStateIdx) -> (r: Result<(), Error>)
        requires
            old(self)@.wf(),
        ensures
            r is Ok <==> idx.0 < old(self)@.len(),
            r is Ok ==> final(self)@ == old(self)@.select(idx.0),
            r is Err ==> final(self)@ == old(self)@ && r->Err_0 is IllegalState,
            final(self)@.wf(),
    {
        if idx.0 > self.num_states - 1 {
            Err(Error::illegal_state("No such state"))
        } else {
            self.idx = idx;
            Ok(())
        }
    }

    /// The index of the selected target state.
    pub fn current_state_idx(&self) -> (r: TargetStateIdx)
        ensures
            r.0 == self@.idx,
    {
        self.idx
    }

    /// The number of target states.
    pub fn states_len(&self) -> (r: usize)
        requires
            self@.wf(),
        ensures
            r == self@.len(),
    {
        self.num_states
    }

    /// The count of how often the selected target state was fuzzed.
    pub fn fuzz_cycles(&mut self) -> (r: &mut usize)
        requires
            old(self)@.wf(),
        ensures
            *r == old(self)@.active().fuzz_cycles,
            final(self)@ == old(self)@.with_active(
                (InnerState { fuzz_cycles: *final(r), ..old(self)@.active() }),
            ),
            final(self)@.wf(),
    {
        &mut self.inner[self.idx.0].fuzz_cycles
    }

    /// The number of edges that leave the selected target state.
    pub fn outgoing_edges(&self) -> (r: usize)
        requires
            self@.wf(),
        ensures
            r == self@.prefixes[self@.idx as int].metadata.outgoing_edges,
    {
        self.prefix().metadata.outgoing_edges
    }

    /// The metadata map that all target states share, whatever the access
    /// mode.
    pub fn shared_metadata_map(&self) -> (r: &SerdeAnyMap)
        ensures
            *r == self@.shared_metadata,
    {
        &self.shared_metadata
    }

    /// The metadata map that all target states share, for writing.
    pub fn shared_metadata_map_mut(&mut self) -> (r: &mut SerdeAnyMap)
        ensures
            *r == old(self)@.shared_metadata,
            final(self)@ == (StateView { shared_metadata: *final(r), ..old(self)@ }),
    {
        &mut self.shared_metadata
    }

    /// The named metadata map that all target states share, whatever the
    /// access mode.
    pub fn shared_named_metadata_map(&self) -> (r: &NamedSerdeAnyMap)
        ensures
            *r == self@.shared_named_metadata,
    {
        &self.shared_named_metadata
    }

    /// The named metadata map that all target states share, for writing.
    pub fn shared_named_metadata_map_mut(&mut self) -> (r: &mut NamedSerdeAnyMap)
        ensures
            *r == old(self)@.shared_named_metadata,
            final(self)@ == (StateView { shared_named_metadata: *final(r), ..old(self)@ }),
    {
        &mut self.shared_named_metadata
    }

    /// What the novelty policy remembers, if it was set up.
    pub fn novelty_metadata(&self) -> (r: &Option<NoveltyIsBetterMetadata>)
        ensures
            *r == self@.novelty,
    {
        &self.novelty
    }

    /// What the novelty policy remembers, for writing.
    pub fn novelty_metadata_mut(&mut self) -> (r: &mut Option<NoveltyIsBetterMetadata>)
        ensures
            *r == old(self)@.novelty,
            final(self)@ == (StateView { novelty: *final(r), ..old(self)@ }),
    {
        &mut self.novelty
    }

    /// The corpus of the selected target state: the shared one in
    /// `SingleCorp` mode, the state's own in the other modes.
    pub fn corpus(&self) -> (r: &C)
        requires
            self@.wf(),
        ensures
            *r == self@.routed_corpus(),
    {
        match self.access_mode {
            StateAccessMode::SingleCorp => self.corpus.as_ref().unwrap(),
            _ => self.inner[self.idx.0].corpus.as_ref().unwrap(),
        }
    }

    /// The corpus of the selected target state, for writing.
    pub fn corpus_mut(&mut self) -> (r: &mut C)
        requires
            old(self)@.wf(),
        ensures
            *r == old(self)@.routed_corpus(),
            final(self)@ == old(self)@.with_routed_corpus(*final(r)),
            final(self)@.wf(),
    {
        match self.access_mode {
            StateAccessMode::SingleCorp => self.corpus.as_mut().unwrap(),
            _ => self.inner[self.idx.0].corpus.as_mut().unwrap(),
        }
    }

    /// The metadata of the selected target state: the state's own map in
    /// `MultiCorpMultiMeta` mode, the shared one in the other modes.
    pub fn metadata_map(&self) -> (r: &SerdeAnyMap)
        requires
            self@.wf(),
        ensures
            *r == self@.routed_metadata(),
    {
        match self.access_mode {
            StateAccessMode::MultiCorpMultiMeta => self.inner[self.idx.0].metadata.as_ref().unwrap(),
            _ => &self.shared_metadata,
        }
    }

    /// The metadata of the selected target state, for writing.
    pub fn metadata_map_mut(&mut self) -> (r: &mut SerdeAnyMap)
        requires
            old(self)@.wf(),
        ensures
            *r == old(self)@.routed_metadata(),
            final(self)@ == old(self)@.with_routed_metadata(*final(r)),
            final(self)@.wf(),
    {
        match self.access_mode {
            StateAccessMode::MultiCorpMultiMeta => self.inner[self.idx.0].metadata.as_mut().unwrap(),
            _ => &mut self.shared_metadata,
        }
    }

    /// The named metadata of the selected target state, routed as the
    /// metadata is.
    pub fn named_metadata_map(&self) -> (r: &NamedSerdeAnyMap)
        requires
            self@.wf(),
        ensures
            *r == self@.routed_named_metadata(),
    {
        match self.access_mode {
            StateAccessMode::MultiCorpMultiMeta => self.inner[self.idx.0].named_metadata.as_ref().unwrap(),
            _ => &self.shared_named_metadata,
        }
    }

    /// The named metadata of the selected target state, for writing.
    pub fn named_metadata_map_mut(&mut self) -> (r: &mut NamedSerdeAnyMap)
        requires
            old(self)@.wf(),
        ensures
            *r == old(self)@.routed_named_metadata(),
            final(self)@ == old(self)@.with_routed_named_metadata(*final(r)),
            final(self)@.wf(),
    {
        match self.access_mode {
            StateAccessMode::MultiCorpMultiMeta => self.inner[self.idx.0].named_metadata.as_mut().unwrap(),
            _ => &mut self.shared_named_metadata,
        }
    }

    /// The executor's count of timeouts for the selected target state,
    /// routed as the metadata is.
    pub fn executor_meta(&self) -> (r: &Option<StatefulPersistentExecutorMeta>)
        requires
            self@.wf(),
        ensures
            *r == self@.routed_executor_meta(),
    {
        match self.access_mode {
            StateAccessMode::MultiCorpMultiMeta => &self.inner[self.idx.0].executor_meta,
            _ => &self.shared_executor_meta,
        }
    }

    /// The executor's count of timeouts for the selected target state, for
    /// writing.
    pub fn executor_meta_mut(&mut self) -> (r: &mut Option<StatefulPersistentExecutorMeta>)
        requires
            old(self)@.wf(),
        ensures
            *r == old(self)@.routed_executor_meta(),
            final(self)@ == old(self)@.with_routed_executor_meta(*final(r)),
            final(self)@.wf(),
    {
        match self.access_mode {
            StateAccessMode::MultiCorpMultiMeta => &mut self.inner[self.idx.0].executor_meta,
            _ => &mut self.shared_executor_meta,
        }
    }

    /// The number of test cases imported into the selected target state.
    pub fn imported(&self) -> (r: &usize)
        requires
            self@.wf(),
        ensures
            *r == self@.active().imported,
    {
        &self.inner[self.idx.0].imported
    }

    /// The number of imported test cases, for writing.
    pub fn imported_mut(&mut self) -> (r: &mut usize)
        requires
            old(self)@.wf(),
        ensures
            *r == old(self)@.active().imported,
            final(self)@ == old(self)@.with_active(
                (InnerState { imported: *final(r), ..old(self)@.active() }),
            ),
            final(self)@.wf(),
    {
        &mut self.inner[self.idx.0].imported
    }

    /// The number of executions in the selected target state.
    pub fn executions(&self) -> (r: &u64)
        requires
            self@.wf(),
        ensures
            *r == self@.active().executions,
    {
        &self.inner[self.idx.0].executions
    }

    /// The number of executions in the selected target state, for writing.
    /// Nothing but that one count can change through the reference.
    pub fn executions_mut(&mut self) -> (r: &mut u64)
        requires
            old(self)@.wf(),
        ensures
            *r == old(self)@.active().executions,
            final(self)@ == old(self)@.with_active(
                (InnerState { executions: *final(r), ..old(self)@.active() }),
            ),
            final(self)@.wf(),
    {
        &mut self.inner[self.idx.0].executions
    }

    /// Remembers the corpus entry that is being fuzzed.
    pub fn set_corpus_idx(&mut self, idx: usize) -> (r: Result<(), Error>)
        requires
            old(self)@.wf(),
        ensures
            r is Ok,
            final(self)@ == old(self)@.with_active(
                (InnerState { corpus_idx: Some(idx), ..old(self)@.active() }),
            ),
            final(self)@.wf(),
    {
        self.inner[self.idx.0].corpus_idx = Some(idx);
        Ok(())
    }

    /// Forgets the corpus entry that was being fuzzed.
    pub fn clear_corpus_idx(&mut self) -> (r: Result<(), Error>)
        requires
            old(self)@.wf(),
        ensures
            r is Ok,
            final(self)@ == old(self)@.with_active(
                (InnerState { corpus_idx: None, ..old(self)@.active() }),
            ),
            final(self)@.wf(),
    {
        self.inner[self.idx.0].corpus_idx = None;
        Ok(())
    }

    /// The corpus entry that is being fuzzed, if any.
    pub fn current_corpus_idx(&self) -> (r: Result<Option<usize>, Error>)
        requires
            self@.wf(),
        ensures
            r == Ok::<Option<usize>, Error>(self@.active().corpus_idx),
    {
        Ok(self.inner[self.idx.0].corpus_idx)
    }

    /// Enters the stage with the given index at the current depth. Fails
    /// with `IllegalState`, and changes nothing, unless the stack of stage
    /// indices is exactly as deep as the current depth.
    pub fn set_stage(&mut self, idx: usize) -> (r: Result<(), Error>)
        requires
            old(self)@.wf(),
        ensures
            r is Ok <==> old(self)@.active().stage_depth == old(self)@.active().stage_idx_stack@.len(),
            r is Ok ==> final(self)@.active().stage_idx_stack@ == old(self)@.active().stage_idx_stack@.push(idx),
            r is Ok ==> final(self)@ == old(self)@.with_active(
                old(self)@.active().with_stack_of(final(self)@.active()),
            ),
            r is Err ==> final(self)@ == old(self)@ && r->Err_0 is IllegalState,
            final(self)@.wf(),
    {
        let i = self.idx.0;
        if self.inner[i].stage_depth != self.inner[i].stage_idx_stack.len() {
            return Err(Error::illegal_state("stage not resumed before setting stage"));
        }
        self.inner[i].stage_idx_stack.push(idx);
        Ok(())
    }

    /// Leaves the innermost stage: drops the top of the stack of stage
    /// indices, if there is one. Fails with `IllegalState` unless the stack
    /// is then exactly as deep as the current depth; the top is dropped in
    /// either case.
    pub fn clear_stage(&mut self) -> (r: Result<(), Error>)
        requires
            old(self)@.wf(),
        ensures
            final(self)@.active().stage_idx_stack@ == (if old(self)@.active().stage_idx_stack@.len()
                > 0 {
                old(self)@.active().stage_idx_stack@.drop_last()
            } else {
                old(self)@.active().stage_idx_stack@
            }),
            final(self)@ == old(self)@.with_active(
                old(self)@.active().with_stack_of(final(self)@.active()),
            ),
            r is Ok <==> final(self)@.active().stage_depth == final(self)@.active().stage_idx_stack@.len(),
            r is Err ==> r->Err_0 is IllegalState,
            final(self)@.wf(),
    {
        let i = self.idx.0;
        let _ = self.inner[i].stage_idx_stack.pop();
        if self.inner[i].stage_depth != self.inner[i].stage_idx_stack.len() {
            return Err(Error::illegal_state("we somehow cleared too many or too few states!"));
        }
        Ok(())
    }

    /// The index of the stage at the current depth, if the stack of stage
    /// indices is deeper than the current depth.
    pub fn current_stage(&self) -> (r: Result<Option<usize>, Error>)
        requires
            self@.wf(),
        ensures
            r is Ok,
            r->Ok_0 == (if self@.active().stage_depth < self@.active().stage_idx_stack@.len() {
                Some(self@.active().stage_idx_stack@[self@.active().stage_depth as int])
            } else {
                None::<usize>
            }),
    {
        let i = self.idx.0;
        let depth = self.inner[i].stage_depth;
        if depth < self.inner[i].stage_idx_stack.len() {
            Ok(Some(self.inner[i].stage_idx_stack[depth]))
        } else {
            Ok(None)
        }
    }

    /// Puts the depth of nesting back to 0, so that stages can be resumed
    /// from the outermost one.
    pub fn on_restart(&mut self) -> (r: Result<(), Error>)
        requires
            old(self)@.wf(),
        ensures
            r is Ok,
            final(self)@ == old(self)@.with_active(
                (InnerState { stage_depth: 0, ..old(self)@.active() }),
            ),
            final(self)@.wf(),
    {
        self.inner[self.idx.0].stage_depth = 0;
        Ok(())
    }

    /// Goes one level deeper into nested stages.
    pub fn enter_inner_stage(&mut self) -> (r: Result<(), Error>)
        requires
            old(self)@.wf(),
            old(self)@.active().stage_depth < usize::MAX,
        ensures
            r is Ok,
            final(self)@ == old(self)@.with_active(
                (InnerState {
                    stage_depth: (old(self)@.active().stage_depth + 1) as usize,
                    ..old(self)@.active()
                }),
            ),
            final(self)@.wf(),
    {
        let i = self.idx.0;
        self.inner[i].stage_depth = self.inner[i].stage_depth + 1;
        Ok(())
    }

    /// Comes one level back out of nested stages.
    pub fn exit_inner_stage(&mut self) -> (r: Result<(), Error>)
        requires
            old(self)@.wf(),
            old(self)@.active().stage_depth > 0,
        ensures
            r is Ok,
            final(self)@ == old(self)@.with_active(
                (InnerState {
                    stage_depth: (old(self)@.active().stage_depth - 1) as usize,
                    ..old(self)@.active()
                }),
            ),
            final(self)@.wf(),
    {
        let i = self.idx.0;
        self.inner[i].stage_depth = self.inner[i].stage_depth - 1;
        Ok(())
    }

    /// The corpus of the inputs that made the target crash.
    pub fn solutions(&self) -> (r: &SC)
        ensures
            *r == self@.solutions,
    {
        &self.solutions
    }

    /// The corpus of the inputs that made the target crash, for writing.
    pub fn solutions_mut(&mut self) -> (r: &mut SC)
        ensures
            *r == old(self)@.solutions,
            final(self)@ == (StateView { solutions: *final(r), ..old(self)@ }),
    {
        &mut self.solutions
    }

    /// The random number generator.
    pub fn rand(&self) -> (r: &StdRand)
        ensures
            *r == self@.rand,
    {
        &self.rand
    }

    /// The random number generator, for drawing from it.
    pub fn rand_mut(&mut self) -> (r: &mut StdRand)
        ensures
            *r == old(self)@.rand,
            final(self)@ == (StateView { rand: *final(r), ..old(self)@ }),
    {
        &mut self.rand
    }

    /// The largest size of an input.
    pub fn max_size(&self) -> (r: usize)
        ensures
            r == self@.max_size,
    {
        self.max_size
    }

    /// Sets the largest size of an input.
    pub fn set_max_size(&mut self, max_size: usize)
        ensures
            final(self)@ == (StateView { max_size, ..old(self)@ }),
    {
        self.max_size = max_size;
    }

    /// When progress was last reported.
    pub fn last_report_time(&self) -> (r: &Option<Duration>)
        ensures
            *r == self@.last_report_time,
    {
        &self.last_report_time
    }

    /// When progress was last reported, for writing.
    pub fn last_report_time_mut(&mut self) -> (r: &mut Option<Duration>)
        ensures
            *r == old(self)@.last_report_time,
            final(self)@ == (StateView { last_report_time: *final(r), ..old(self)@ }),
    {
        &mut self.last_report_time
    }

    /// Whether the states before and after some calls are those of a walk
    /// over the first target states from the state `start`: the first call
    /// finds `start` with the state of index 0 selected, and each later
    /// call finds what the call before it left, with the state of the next
    /// index selected.
    pub open spec fn is_walk(
        start: StateView<C, SC>,
        befores: Seq<StateView<C, SC>>,
        afters: Seq<StateView<C, SC>>,
    ) -> bool {
        &&& befores.len() == afters.len()
        &&& forall|k: int|
            0 <= k < befores.len() ==> (#[trigger] befores[k]) == (if k == 0 {
                start
            } else {
                afters[k - 1]
            }).select(k as usize)
    }

    /// What a walk leaves behind: what its last call left, or the state it
    /// began with where there was no call.
    pub open spec fn walk_end(start: StateView<C, SC>, afters: Seq<StateView<C, SC>>) -> StateView<
        C,
        SC,
    > {
        if afters.len() == 0 {
            start
        } else {
            afters.last()
        }
    }

    /// Calls `f` once for each target state, in the order of their indices
    /// and with that state selected, and selects the state that was selected
    /// before again. Stops at the first error, of selecting or of `f`, and
    /// hands it on; the selection is then left where it was.
    ///
    /// Where all goes well, there is for each target state one call of `f`
    /// that returned without error: it found the state in order and as the
    /// walk says, see [`Self::is_walk`], and it left what the next call
    /// found.
    pub fn for_each<F>(&mut self, f: F) -> (r: Result<(), Error>) where
        F: FnMut(&mut Self) -> Result<(), Error>,

        requires
            old(self)@.wf(),
            forall|s: &mut Self| (*s)@.wf() ==> #[trigger] call_requires(f, (s,)),
            forall|s: &mut Self, res: Result<(), Error>| #[trigger]
                call_ensures(f, (s,), res) ==> (*final(s))@.wf(),
        ensures
            final(self)@.wf(),
            r is Ok ==> final(self)@.idx == old(self)@.idx,
            r is Ok ==> exists|befores: Seq<StateView<C, SC>>, afters: Seq<StateView<C, SC>>|
                {
                    &&& befores.len() == old(self)@.len()
                    &&& #[trigger] Self::is_walk(old(self)@, befores, afters)
                    &&& forall|k: int|
                        #![trigger befores[k]]
                        0 <= k < befores.len() ==> befores[k].wf() && exists|
                            s: &mut Self,
                            res: Result<(), Error>,
                        |
                            {
                                &&& #[trigger] call_ensures(f, (s,), res)
                                &&& res is Ok
                                &&& (*s)@ == befores[k]
                                &&& (*final(s))@ == afters[k]
                            }
                    &&& final(self)@ == Self::walk_end(old(self)@, afters).select(old(self)@.idx)
                },
            (forall|s: &mut Self, res: Result<(), Error>| #[trigger]
                call_ensures(f, (s,), res) ==> res is Ok && (*final(s))@.len() == (*s)@.len())
                ==> r is Ok,
    {
        let selected_before = self.current_state_idx();
        let n = self.states_len();
        let mut idx: usize = 0;
        let mut call = f;
        let ghost mut befores: Seq<StateView<C, SC>> = Seq::empty();
        let ghost mut afters: Seq<StateView<C, SC>> = Seq::empty();
        while idx < n
            invariant
                self@.wf(),
                idx <= n,
                n == old(self)@.len(),
                selected_before.0 == old(self)@.idx,
                selected_before.0 < n,
                call == f,
                befores.len() == idx,
                afters.len() == idx,
                forall|k: int|
                    #![trigger befores[k]]
                    0 <= k < befores.len() ==> befores[k].wf() && exists|
                        s: &mut Self,
                        res: Result<(), Error>,
                    |
                        {
                            &&& #[trigger] call_ensures(f, (s,), res)
                            &&& res is Ok
                            &&& (*s)@ == befores[k]
                            &&& (*final(s))@ == afters[k]
                        },
                Self::is_walk(old(self)@, befores, afters),
                self@ == Self::walk_end(old(self)@, afters),
                forall|s: &mut Self| (*s)@.wf() ==> #[trigger] call_requires(f, (s,)),
                forall|s: &mut Self, res: Result<(), Error>| #[trigger]
                    call_ensures(f, (s,), res) ==> (*final(s))@.wf(),
                (forall|s: &mut Self, res: Result<(), Error>| #[trigger]
                    call_ensures(f, (s,), res) ==> res is Ok && (*final(s))@.len() == (*s)@.len())
                    ==> self@.len() == n,
            decreases n - idx,
        {
            match self.switch_state(TargetStateIdx(idx)) {
                Ok(()) => {},
                Err(e) => {
                    return Err(e);
                },
            }
            let ghost before = self@;
            let ghost earlier = befores;
            let ghost left = afters;
            match call(self) {
                Ok(()) => {},
                Err(e) => {
                    return Err(e);
                },
            }
            proof {
                befores = befores.push(before);
                afters = afters.push(self@);
                assert forall|k: int| #![trigger befores[k]] 0 <= k < befores.len() implies befores[k].wf()
                    && exists|s: &mut Self, res: Result<(), Error>|
                    {
                        &&& #[trigger] call_ensures(f, (s,), res)
                        &&& res is Ok
                        &&& (*s)@ == befores[k]
                        &&& (*final(s))@ == afters[k]
                    } by {
                    if k < earlier.len() {
                        assert(befores[k] == earlier[k]);
                        assert(afters[k] == left[k]);
                    }
                }
            }
            idx = idx + 1;
        }
        let r = self.switch_state(selected_before);
        proof {
            if r is Ok {
                assert(Self::is_walk(old(self)@, befores, afters));
            }
        }
        r
    }

    /// The coverage of the whole run as a map of bytes: the one history map
    /// where metadata is shared, else the history maps of all target states
    /// merged into one. Fails with `IllegalState` where a history map is
    /// missing.
    pub fn get_coverage_map_as_bytes(&self) -> (r: Result<Vec<u8>, Error>)
        requires
            self@.wf(),
        ensures
            r is Ok <==> self@.has_coverage(),
            r is Ok ==> r->Ok_0@ == self@.coverage_map(),
            r is Err ==> r->Err_0@ == no_coverage_error(),
    {
        match self.access_mode {
            StateAccessMode::MultiCorpMultiMeta => {
                let mut total_map: Vec<u8> = Vec::new();
                let ghost maps = Seq::new(self@.inner.len(), |i: int| self@.own_history_map(i));
                let mut i: usize = 0;
                while i < self.inner.len()
                    invariant
                        self@.wf(),
                        !self@.access_mode.shares_metadata(),
                        i <= self@.inner.len(),
                        maps == Seq::new(self@.inner.len(), |i: int| self@.own_history_map(i)),
                        total_map@ == merge_all(maps.take(i as int)),
                        forall|k: int|
                            0 <= k < i ==> #[trigger] history_maps(
                                self@.inner[k].named_metadata->Some_0,
                            ).contains_key(history_map_name()),
                    decreases self@.inner.len() - i,
                {
                    let named = self.inner[i].named_metadata.as_ref().unwrap();
                    match history_map(named, "mapfeedback_metadata_shared_mem") {
                        Some(map) => {
                            assert(maps.take(i + 1).drop_last() == maps.take(i as int));
                            merge_coverage_map(&mut total_map, &map);
                        },
                        None => {
                            return Err(
                                Error::illegal_state(
                                    "Cannot calculate average coverage because different Feedback type was used. Expected MapFeedback<u8>",
                                ),
                            );
                        },
                    }
                    i = i + 1;
                }
                assert(maps.take(i as int) == maps);
                Ok(total_map)
            },
            _ => {
                match history_map(&self.shared_named_metadata, "mapfeedback_metadata_shared_mem") {
                    Some(map) => Ok(map),
                    None => Err(
                        Error::illegal_state(
                            "Cannot calculate average coverage because different Feedback type was used. Expected MapFeedback<u8>",
                        ),
                    ),
                }
            },
        }
    }

    /// The coverage of the whole run as a pair: the number of edges that
    /// were hit, and the number of edges there are. Fails with
    /// `IllegalState` where a history map is missing.
    pub fn calculate_total_coverage(&self) -> (r: Result<(usize, usize), Error>)
        requires
            self@.wf(),
        ensures
            r is Ok <==> self@.has_coverage(),
            r is Ok ==> r->Ok_0.0 == count_nonzero(self@.coverage_map()),
            r is Ok ==> r->Ok_0.1 == self@.coverage_map().len(),
            r is Err ==> r->Err_0@ == no_coverage_error(),
    {
        match self.get_coverage_map_as_bytes() {
            Ok(total_map) => Ok((count_nonzero_bytes(&total_map), total_map.len())),
            Err(e) => Err(e),
        }
    }

    /// For each target state its index and its number of executions, in the
    /// order of the indices.
    pub fn executions_per_state(&self) -> (r: Vec<(usize, u64)>)
        ensures
            r@.len() == self@.inner.len(),
            forall|i: int|
                0 <= i < r@.len() ==> (#[trigger] r@[i]) == (i as usize, self@.inner[i].executions),
    {
        let mut out: Vec<(usize, u64)> = Vec::new();
        let mut i: usize = 0;
        while i < self.inner.len()
            invariant
                i <= self@.inner.len(),
                out@.len() == i,
                forall|k: int|
                    0 <= k < i ==> (#[trigger] out@[k]) == (k as usize, self@.inner[k].executions),
            decreases self@.inner.len() - i,
        {
            out.push((i, self.inner[i].executions));
            i = i + 1;
        }
        out
    }

    /// For each target state its index and the number of times it was
    /// fuzzed, in the order of the indices.
    pub fn cycles_per_state(&self) -> (r: Vec<(usize, usize)>)
        ensures
            r@.len() == self@.inner.len(),
            forall|i: int|
                0 <= i < r@.len() ==> (#[trigger] r@[i]) == (i as usize, self@.inner[i].fuzz_cycles),
    {
        let mut out: Vec<(usize, usize)> = Vec::new();
        let mut i: usize = 0;
        while i < self.inner.len()
            invariant
                i <= self@.inner.len(),
                out@.len() == i,
                forall|k: int|
                    0 <= k < i ==> (#[trigger] out@[k]) == (k as usize, self@.inner[k].fuzz_cycles),
            decreases self@.inner.len() - i,
        {
            out.push((i, self.inner[i].fuzz_cycles));
            i = i + 1;
        }
        out
    }

    /// The number of executions in all target states together, or `None`
    /// where that number is too large for a `u64`.
    pub fn total_executions(&self) -> (r: Option<u64>)
        ensures
            r is Some <==> self@.total_executions() <= u64::MAX,
            r is Some ==> r->Some_0 == self@.total_executions(),
    {
        let mut total: u64 = 0;
        let mut i: usize = 0;
        while i < self.inner.len()
            invariant
                i <= self@.inner.len(),
                total == StateView::<C, SC>::sum_executions(self@.inner.take(i as int)),
            decreases self@.inner.len() - i,
        {
            assert(self@.inner.take(i + 1).drop_last() == self@.inner.take(i as int));
            match total.checked_add(self.inner[i].executions) {
                Some(sum) => {
                    total = sum;
                },
                None => {
                    proof {
                        Self::lemma_sum_executions_grows(self@.inner, i + 1);
                    }
                    return None;
                },
            }
            i = i + 1;
        }
        assert(self@.inner.take(i as int) == self@.inner);
        Some(total)
    }

    /// The sum over a front part of the contexts is no larger than the sum
    /// over all of them.
    proof fn lemma_sum_executions_grows(inner: Seq<InnerState<C>>, n: int)
        requires
            0 <= n <= inner.len(),
        ensures
            StateView::<C, SC>::sum_executions(inner.take(n)) <= StateView::<C, SC>::sum_executions(
                inner,
            ),
        decreases inner.len(),
    {
        if n == inner.len() {
            assert(inner.take(n) == inner);
        } else {
            assert(inner.drop_last().take(n) == inner.take(n));
            Self::lemma_sum_executions_grows(inner.drop_last(), n);
        }
    }

    /// Calls `f` once for each target state, in the order of their indices
    /// and with that state selected, collects what it returns, and selects
    /// the state that was selected before again. Stops at the first error,
    /// of selecting or of `f`, and hands it on; the selection is then left
    /// where it was.
    ///
    /// Where all goes well, there is for each target state one call of `f`
    /// that returned the value that was collected for the state: it found
    /// the state in order and as the walk says, see [`Self::is_walk`], and
    /// it left what the next call found.
    pub fn map_to_vec<F, T>(&mut self, f: F) -> (r: Result<Vec<T>, Error>) where
        F: FnMut(&mut Self) -> Result<T, Error>,

        requires
            old(self)@.wf(),
            forall|s: &mut Self| (*s)@.wf() ==> #[trigger] call_requires(f, (s,)),
            forall|s: &mut Self, res: Result<T, Error>| #[trigger]
                call_ensures(f, (s,), res) ==> (*final(s))@.wf(),
        ensures
            final(self)@.wf(),
            r is Ok ==> final(self)@.idx == old(self)@.idx,
            r is Ok ==> r->Ok_0@.len() == old(self)@.len(),
            r is Ok ==> exists|befores: Seq<StateView<C, SC>>, afters: Seq<StateView<C, SC>>|
                {
                    &&& befores.len() == old(self)@.len()
                    &&& #[trigger] Self::is_walk(old(self)@, befores, afters)
                    &&& forall|k: int|
                        #![trigger befores[k]]
                        0 <= k < befores.len() ==> befores[k].wf() && exists|
                            s: &mut Self,
                            res: Result<T, Error>,
                        |
                            {
                                &&& #[trigger] call_ensures(f, (s,), res)
                                &&& res == Ok::<T, Error>(r->Ok_0@[k])
                                &&& (*s)@ == befores[k]
                                &&& (*final(s))@ == afters[k]
                            }
                    &&& final(self)@ == Self::walk_end(old(self)@, afters).select(old(self)@.idx)
                },
            (forall|s: &mut Self, res: Result<T, Error>| #[trigger]
                call_ensures(f, (s,), res) ==> res is Ok && (*final(s))@.len() == (*s)@.len())
                ==> r is Ok,
    {
        let selected_before = self.current_state_idx();
        let n = self.states_len();
        let mut v: Vec<T> = Vec::new();
        let mut idx: usize = 0;
        let mut call = f;
        let ghost mut befores: Seq<StateView<C, SC>> = Seq::empty();
        let ghost mut afters: Seq<StateView<C, SC>> = Seq::empty();
        while idx < n
            invariant
                self@.wf(),
                idx <= n,
                n == old(self)@.len(),
                selected_before.0 == old(self)@.idx,
                selected_before.0 < n,
                v@.len() == idx,
                call == f,
                befores.len() == idx,
                afters.len() == idx,
                forall|k: int|
                    #![trigger befores[k]]
                    0 <= k < befores.len() ==> befores[k].wf() && exists|
                        s: &mut Self,
                        res: Result<T, Error>,
                    |
                        {
                            &&& #[trigger] call_ensures(f, (s,), res)
                            &&& res == Ok::<T, Error>(v@[k])
                            &&& (*s)@ == befores[k]
                            &&& (*final(s))@ == afters[k]
                        },
                Self::is_walk(old(self)@, befores, afters),
                self@ == Self::walk_end(old(self)@, afters),
                forall|s: &mut Self| (*s)@.wf() ==> #[trigger] call_requires(f, (s,)),
                forall|s: &mut Self, res: Result<T, Error>| #[trigger]
                    call_ensures(f, (s,), res) ==> (*final(s))@.wf(),
                (forall|s: &mut Self, res: Result<T, Error>| #[trigger]
                    call_ensures(f, (s,), res) ==> res is Ok && (*final(s))@.len() == (*s)@.len())
                    ==> self@.len() == n,
            decreases n - idx,
        {
            match self.switch_state(TargetStateIdx(idx)) {
                Ok(()) => {},
                Err(e) => {
                    return Err(e);
                },
            }
            let ghost before = self@;
            let ghost earlier = befores;
            let ghost left = afters;
            let ghost collected = v@;
            match call(self) {
                Ok(t) => {
                    v.push(t);
                },
                Err(e) => {
                    return Err(e);
                },
            }
            proof {
                befores = befores.push(before);
                afters = afters.push(self@);
                assert forall|k: int| #![trigger befores[k]] 0 <= k < befores.len() implies befores[k].wf()
                    && exists|s: &mut Self, res: Result<T, Error>|
                    {
                        &&& #[trigger] call_ensures(f, (s,), res)
                        &&& res == Ok::<T, Error>(v@[k])
                        &&& (*s)@ == befores[k]
                        &&& (*final(s))@ == afters[k]
                    } by {
                    if k < earlier.len() {
                        assert(befores[k] == earlier[k]);
                        assert(afters[k] == left[k]);
                        assert(v@[k] == collected[k]);
                    }
                }
            }
            idx = idx + 1;
        }
        match self.switch_state(selected_before) {
            Ok(()) => {
                assert(Self::is_walk(old(self)@, befores, afters));
                Ok(v)
            },
            Err(e) => Err(e),
        }
    }
}

/// What stateful fuzzing needs of a state: target states, one of which is
/// selected.
pub trait MultipleStates: Sized {
    /// Whether the state is in order.
    spec fn in_order(&self) -> bool;

    /// The index of the selected target state.
    spec fn selected(&self) -> usize;

    /// The number of target states.
    spec fn count(&self) -> nat;

    /// The prefix of the target state of the given index.
    spec fn prefix_of(&self, idx: int) -> Prefix;

    /// How often the target state of the given index was fuzzed.
    spec fn cycles_of(&self, idx: int) -> usize;

    /// The prefix of the selected target state.
    fn prefix(&self) -> (r: &Prefix)
        requires
            self.in_order(),
        ensures
            *r == self.prefix_of(self.selected() as int),
    ;

    /// Selects another target state. Fails with `IllegalState`, and
    /// changes the selection not, where the index names no target state.
    fn switch_state(&mut self, idx: TargetStateIdx) -> (r: Result<(), Error>)
        requires
            old(self).in_order(),
        ensures
            final(self).in_order(),
            final(self).count() == old(self).count(),
            r is Ok <==> idx.0 < old(self).count(),
            r is Ok ==> final(self).selected() == idx.0,
            r is Err ==> final(self).selected() == old(self).selected() && r->Err_0
                is IllegalState,
            forall|i: int|
                0 <= i < old(self).count() ==> final(self).cycles_of(i) == old(self).cycles_of(i)
                    && final(self).prefix_of(i) == old(self).prefix_of(i),
    ;

    /// The index of the selected target state.
    fn current_state_idx(&self) -> (r: TargetStateIdx)
        ensures
            r.0 == self.selected(),
    ;

    /// The number of target states.
    fn states_len(&self) -> (r: usize)
        requires
            self.in_order(),
        ensures
            r == self.count(),
    ;

    /// The count of how often the selected target state was fuzzed.
    fn fuzz_cycles(&mut self) -> (r: &mut usize)
        requires
            old(self).in_order(),
        ensures
            *r == old(self).cycles_of(old(self).selected() as int),
            final(self).in_order(),
            final(self).count() == old(self).count(),
            final(self).selected() == old(self).selected(),
            final(self).cycles_of(old(self).selected() as int) == *final(r),
    ;

    /// The number of edges that leave the selected target state.
    fn outgoing_edges(&self) -> (r: usize)
        requires
            self.in_order(),
        ensures
            r == self.prefix_of(self.selected() as int).metadata.outgoing_edges,
    ;
}

impl<C, SC> MultipleStates for LibAFLStarState<C, SC> {
    open spec fn in_order(&self) -> bool {
        self@.wf()
    }

    open spec fn selected(&self) -> usize {
        self@.idx
    }

    open spec fn count(&self) -> nat {
        self@.len()
    }

    open spec fn prefix_of(&self, idx: int) -> Prefix {
        self@.prefixes[idx]
    }

    open spec fn cycles_of(&self, idx: int) -> usize {
        self@.inner[idx].fuzz_cycles
    }

    fn prefix(&self) -> (r: &Prefix) {
        LibAFLStarState::prefix(self)
    }

    fn switch_state(&mut self, idx: TargetStateIdx) -> (r: Result<(), Error>) {
        LibAFLStarState::switch_state(self, idx)
    }

    fn current_state_idx(&self) -> (r: TargetStateIdx) {
        LibAFLStarState::current_state_idx(self)
    }

    fn states_len(&self) -> (r: usize) {
        LibAFLStarState::states_len(self)
    }

    fn fuzz_cycles(&mut self) -> (r: &mut usize) {
        LibAFLStarState::fuzz_cycles(self)
    }

    fn outgoing_edges(&self) -> (r: usize) {
        LibAFLStarState::outgoing_edges(self)
    }
}

/// Metadata that all target states share in every access mode. The
/// policies that pick the next target state keep what they remember
/// there.
pub trait HasSharedMetadata: Sized {
    /// The shared metadata map.
    spec fn shared_map(&self) -> SerdeAnyMap;

    /// The shared named metadata map.
    spec fn shared_named_map(&self) -> NamedSerdeAnyMap;

    /// The metadata map that all target states share.
    fn shared_metadata_map(&self) -> (r: &SerdeAnyMap)
        ensures
            *r == self.shared_map(),
    ;

    /// The metadata map that all target states share, for writing.
    fn shared_metadata_map_mut(&mut self) -> (r: &mut SerdeAnyMap)
        ensures
            *r == old(self).shared_map(),
            final(self).shared_map() == *final(r),
            final(self).shared_named_map() == old(self).shared_named_map(),
    ;

    /// The named metadata map that all target states share.
    fn shared_named_metadata_map(&self) -> (r: &NamedSerdeAnyMap)
        ensures
            *r == self.shared_named_map(),
    ;

    /// The named metadata map that all target states share, for writing.
    fn shared_named_metadata_map_mut(&mut self) -> (r: &mut NamedSerdeAnyMap)
        ensures
            *r == old(self).shared_named_map(),
            final(self).shared_named_map() == *final(r),
            final(self).shared_map() == old(self).shared_map(),
    ;
}

impl<C, SC> HasSharedMetadata for LibAFLStarState<C, SC> {
    open spec fn shared_map(&self) -> SerdeAnyMap {
        self@.shared_metadata
    }

    open spec fn shared_named_map(&self) -> NamedSerdeAnyMap {
        self@.shared_named_metadata
    }

    fn shared_metadata_map(&self) -> (r: &SerdeAnyMap) {
        LibAFLStarState::shared_metadata_map(self)
    }

    fn shared_metadata_map_mut(&mut self) -> (r: &mut SerdeAnyMap) {
        LibAFLStarState::shared_metadata_map_mut(self)
    }

    fn shared_named_metadata_map(&self) -> (r: &NamedSerdeAnyMap) {
        LibAFLStarState::shared_named_metadata_map(self)
    }

    fn shared_named_metadata_map_mut(&mut self) -> (r: &mut NamedSerdeAnyMap) {
        LibAFLStarState::shared_named_metadata_map_mut(self)
    }
}

/// A detour over another target state changes nothing. Selecting state `i`,
/// then state `j`, then state `i` again gives the very state that selecting
/// `i` gave; so the context that a consumer sees (corpus, metadata maps,
/// counters) is the same as just before the detour, in every access mode
/// and for any number of target states.
pub proof fn law_detour_keeps_context<C, SC>(s: StateView<C, SC>, i: usize, j: usize)
    requires
        s.wf(),
        i < s.len(),
        j < s.len(),
    ensures
        s.select(i).wf(),
        s.select(i).select(j).wf(),
        s.select(i).select(j).select(i) == s.select(i),
        s.select(i).select(j).select(i).context() == s.select(i).context(),
{
}

/// Writing the number of executions of the selected target state changes
/// that one number: the contexts of all other target states, and every
/// other part of the state, stay as they were.
pub proof fn law_executions_of_selected_state_only<C, SC>(s: StateView<C, SC>, executions: u64)
    requires
        s.wf(),
    ensures
        ({
            let t = s.with_active((InnerState { executions, ..s.active() }));
            &&& t.wf()
            &&& t.active().executions == executions
            &&& forall|k: int| 0 <= k < s.len() && k != s.idx ==> t.inner[k] == s.inner[k]
            &&& t == StateView { inner: t.inner, ..s }
            &&& t.active() == (InnerState { executions, ..s.active() })
        }),
{
}

} // verus!
