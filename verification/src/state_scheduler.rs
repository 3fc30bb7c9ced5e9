//! The policies that pick the target state to fuzz next.

use vstd::prelude::*;
use std::collections::HashMap;
use vstd::std_specs::iter::IteratorSpec;
use libafl_bolts::rands::StdRand;
use crate::error::Error;
use crate::state::count_nonzero;
use crate::state::count_nonzero_bytes;
use crate::state::history_map_name;
use crate::state::HasSharedMetadata;
use crate::state::InnerState;
use crate::state::LibAFLStarState;
use crate::state::MultipleStates;
use crate::state::StateView;
use crate::state::TargetStateIdx;
use crate::trusted::history_map;
use crate::trusted::history_maps;
use crate::trusted::rand_below;

verus! {

broadcast use vstd::std_specs::hash::group_hash_axioms;

/// What the novelty policy remembers between two choices. It lives in the
/// state, among the metadata that all target states share.
#[derive(Debug, Clone)]
pub struct NoveltyIsBetterMetadata {
    /// For each target state that was selected before, the number of nonzero
    /// bytes its history map had at its last selection.
    pub index_counts: HashMap<usize, usize>,
    /// For each such target state, the number of bytes that became nonzero
    /// between its two most recent selections.
    pub novelties: HashMap<usize, usize>,
}

/// The values of the pairs, each as often as its weight says and once more:
/// what a uniform draw picks from. A pair of weight 0 is there once.
pub open spec fn expand<T>(pairs: Seq<(T, usize)>) -> Seq<T>
    decreases pairs.len(),
{
    if pairs.len() == 0 {
        Seq::empty()
    } else {
        expand(pairs.drop_last()) + Seq::new((pairs.last().1 + 1) as nat, |k: int| pairs.last().0)
    }
}

/// Where the copies of the pair of index `i` begin among the expanded
/// values.
pub open spec fn offset_of<T>(pairs: Seq<(T, usize)>, i: int) -> nat {
    expand(pairs.take(i)).len()
}

/// The expansion of the first `i` pairs is the beginning of the expansion of
/// all pairs.
pub proof fn lemma_expand_prefix<T>(pairs: Seq<(T, usize)>, i: int)
    requires
        0 <= i <= pairs.len(),
    ensures
        expand(pairs.take(i)).len() <= expand(pairs).len(),
        forall|d: int|
            0 <= d < expand(pairs.take(i)).len() ==> expand(pairs.take(i))[d] == expand(pairs)[d],
    decreases pairs.len(),
{
    if i == pairs.len() {
        assert(pairs.take(i) == pairs);
    } else {
        assert(pairs.drop_last().take(i) == pairs.take(i));
        lemma_expand_prefix(pairs.drop_last(), i);
    }
}

/// The copies of the pair of index `i` stand one after the other, from its
/// offset on, and there are its weight plus one of them.
pub proof fn lemma_expand_span<T>(pairs: Seq<(T, usize)>, i: int)
    requires
        0 <= i < pairs.len(),
    ensures
        offset_of(pairs, i + 1) == offset_of(pairs, i) + pairs[i].1 + 1,
        offset_of(pairs, i + 1) <= expand(pairs).len(),
        forall|d: int|
            offset_of(pairs, i) <= d < offset_of(pairs, i + 1) ==> expand(pairs)[d] == pairs[i].0,
{
    let upto = pairs.take(i + 1);
    assert(upto.drop_last() == pairs.take(i));
    assert(upto.last() == pairs[i]);
    lemma_expand_prefix(pairs, i + 1);
}

/// Every pair can be chosen, whatever its weight. Among the values that a
/// draw picks from, as many as the weights and the number of pairs add up
/// to, the pair of index `i` has its weight plus one, so at least one: a
/// uniform draw gives it with a probability of at least one in that total.
pub proof fn law_every_pair_can_be_chosen<T>(pairs: Seq<(T, usize)>, i: int)
    requires
        0 <= i < pairs.len(),
    ensures
        offset_of(pairs, i) + pairs[i].1 + 1 <= expand(pairs).len(),
        forall|k: int|
            0 <= k <= pairs[i].1 ==> #[trigger] expand(pairs)[offset_of(pairs, i) as int + k]
                == pairs[i].0,
        expand(pairs).contains(pairs[i].0),
        expand(pairs).len() == total_weight(pairs),
{
    lemma_expand_span(pairs, i);
    assert(expand(pairs)[offset_of(pairs, i) as int] == pairs[i].0);
    lemma_total_weight(pairs);
}

/// The weights added up, and one more for each pair.
pub open spec fn total_weight<T>(pairs: Seq<(T, usize)>) -> nat
    decreases pairs.len(),
{
    if pairs.len() == 0 {
        0
    } else {
        total_weight(pairs.drop_last()) + pairs.last().1 as nat + 1
    }
}

/// There are as many expanded values as the total weight says.
pub proof fn lemma_total_weight<T>(pairs: Seq<(T, usize)>)
    ensures
        expand(pairs).len() == total_weight(pairs),
    decreases pairs.len(),
{
    if pairs.len() > 0 {
        lemma_total_weight(pairs.drop_last());
    }
}

/// The total weight of the pairs, or `None` where it is too large for a
/// `u64`.
pub fn checked_total_weight<T>(pairs: &Vec<(T, usize)>) -> (r: Option<u64>)
    ensures
        r is Some <==> expand(pairs@).len() <= u64::MAX,
        r is Some ==> r->Some_0 == expand(pairs@).len(),
{
    let mut total: u64 = 0;
    let mut i: usize = 0;
    while i < pairs.len()
        invariant
            i <= pairs@.len(),
            total == offset_of(pairs@, i as int),
        decreases pairs@.len() - i,
    {
        proof {
            lemma_expand_span(pairs@, i as int);
        }
        let weight: u64 = pairs[i].1 as u64;
        let with_weight = match total.checked_add(weight) {
            Some(sum) => sum,
            None => {
                return None;
            },
        };
        total = match with_weight.checked_add(1) {
            Some(sum) => sum,
            None => {
                return None;
            },
        };
        i = i + 1;
    }
    assert(pairs@.take(i as int) == pairs@);
    Some(total)
}

/// The value at the place `draw` among the expanded values of the pairs.
pub fn weighted_pick<T: Copy>(pairs: &Vec<(T, usize)>, draw: u64) -> (r: T)
    requires
        draw < expand(pairs@).len(),
    ensures
        r == expand(pairs@)[draw as int],
{
    let mut i: usize = 0;
    let mut before: u64 = 0;
    proof {
        assert(pairs@.take(0) =~= Seq::<(T, usize)>::empty());
        if pairs@.len() == 0 {
            assert(pairs@.take(0) == pairs@);
        }
    }
    loop
        invariant
            i < pairs.len(),
            before == offset_of(pairs@, i as int),
            before <= draw < expand(pairs@).len(),
        decreases pairs@.len() - i,
    {
        proof {
            lemma_expand_span(pairs@, i as int);
        }
        let weight: u64 = pairs[i].1 as u64;
        if draw - before <= weight {
            return pairs[i].0;
        }
        before = before + weight + 1;
        proof {
            if i + 1 == pairs@.len() {
                assert(pairs@.take(i + 1) == pairs@);
            }
        }
        i = i + 1;
    }
}

/// Picks one of the values at random, each with a chance in proportion to
/// its weight plus one, so that a value of weight 0 can be picked too: the
/// values are expanded, and one number under their count is drawn.
pub fn weighted_choice<T: Copy>(weight_pairs: &Vec<(T, usize)>, rand: &mut StdRand) -> (r: T)
    requires
        0 < expand(weight_pairs@).len() <= u64::MAX,
    ensures
        expand(weight_pairs@).contains(r),
        exists|i: int| 0 <= i < weight_pairs@.len() && (#[trigger] weight_pairs@[i]).0 == r,
{
    let total = match checked_total_weight(weight_pairs) {
        Some(total) => total,
        None => 0,
    };
    let draw = rand_below(rand, total);
    proof {
        lemma_expanded_value_is_listed(weight_pairs@, draw as int);
    }
    weighted_pick(weight_pairs, draw)
}

/// Whether a policy left alone what it may not touch: choosing the next
/// target state may move the selection, draw from the random number
/// generator and update what the novelty policy remembers, and nothing
/// else.
pub open spec fn keeps_contexts<C, SC>(before: StateView<C, SC>, after: StateView<C, SC>) -> bool {
    after == (StateView { idx: after.idx, novelty: after.novelty, rand: after.rand, ..before })
}

/// The weights as contracts speak of them: the error as it is, the pairs as
/// a sequence.
pub open spec fn weights_view(r: Result<Vec<(TargetStateIdx, usize)>, Error>) -> Result<
    Seq<(TargetStateIdx, usize)>,
    Error,
> {
    match r {
        Ok(pairs) => Ok(pairs@),
        Err(e) => Err(e),
    }
}

/// Whether the target state of index `i` was never fuzzed while all states
/// before it were.
pub open spec fn is_first_unused<C>(inner: Seq<InnerState<C>>, i: int) -> bool {
    &&& 0 <= i < inner.len()
    &&& inner[i].fuzz_cycles == 0
    &&& forall|k: int| 0 <= k < i ==> (#[trigger] inner[k]).fuzz_cycles != 0
}

/// Whether some target state was never fuzzed.
pub open spec fn has_unused<C>(inner: Seq<InnerState<C>>) -> bool {
    exists|i: int| 0 <= i < inner.len() && (#[trigger] inner[i]).fuzz_cycles == 0
}

/// What a choice from given weights comes to, whatever number is drawn: the
/// error of the weights; or `IllegalState` where the weights allow no draw
/// (there is no pair, or the total weight is too large for a `u64`); or one
/// of the states that the weights list, and then nothing but the random
/// number generator has changed.
pub open spec fn choice_from_weights<C, SC>(
    weights: Result<Seq<(TargetStateIdx, usize)>, Error>,
    before: StateView<C, SC>,
    after: StateView<C, SC>,
    r: Result<TargetStateIdx, Error>,
) -> bool {
    match weights {
        Err(e) => r == Err::<TargetStateIdx, Error>(e) && after == before,
        Ok(pairs) => if 0 < expand(pairs).len() <= u64::MAX {
            &&& r is Ok
            &&& expand(pairs).contains(r->Ok_0)
            &&& after == (StateView { rand: after.rand, ..before })
        } else {
            &&& r is Err
            &&& r->Err_0 is IllegalState
            &&& after == before
        },
    }
}

/// All that the policies need of a state, under one name.
pub trait StateTraitsAlias: MultipleStates + HasSharedMetadata {

}

impl<T> StateTraitsAlias for T where T: MultipleStates + HasSharedMetadata {

}

/// A policy that picks the target state to fuzz next.
pub trait StateScheduler<C, SC>: Sized {
    /// What `choose_next_state` does to the state and returns.
    spec fn choice_spec(
        &self,
        before: StateView<C, SC>,
        after: StateView<C, SC>,
        r: Result<TargetStateIdx, Error>,
    ) -> bool;

    /// Chooses the target state to fuzz next.
    fn choose_next_state(&mut self, state: &mut LibAFLStarState<C, SC>) -> (r: Result<
        TargetStateIdx,
        Error,
    >)
        requires
            old(state)@.wf(),
        ensures
            final(state)@.wf(),
            keeps_contexts(old(state)@, final(state)@),
            old(self).choice_spec(old(state)@, final(state)@, r),
            *final(self) == *old(self),
    ;
}

/// Chooses from the weights that a policy gave: hands on their error, and
/// else draws a state with a chance in proportion to its weight plus one.
/// Fails with `IllegalState` where the weights allow no draw.
pub fn choose_from_weights<C, SC>(
    weights: Result<Vec<(TargetStateIdx, usize)>, Error>,
    state: &mut LibAFLStarState<C, SC>,
) -> (r: Result<TargetStateIdx, Error>)
    requires
        old(state)@.wf(),
    ensures
        final(state)@.wf(),
        choice_from_weights(weights_view(weights), old(state)@, final(state)@, r),
{
    let weight_pairs = match weights {
        Ok(pairs) => pairs,
        Err(e) => {
            return Err(e);
        },
    };
    match checked_total_weight(&weight_pairs) {
        Some(total) => {
            if total > 0 {
                let idx = weighted_choice(&weight_pairs, state.rand_mut());
                return Ok(idx);
            }
        },
        None => {},
    }
    Err(Error::illegal_state("The weights of the target states allow no draw"))
}

/// Each expanded value is the value of one of the pairs.
pub proof fn lemma_expanded_value_is_listed<T>(pairs: Seq<(T, usize)>, d: int)
    requires
        0 <= d < expand(pairs).len(),
    ensures
        exists|i: int| 0 <= i < pairs.len() && (#[trigger] pairs[i]).0 == expand(pairs)[d],
    decreases pairs.len(),
{
    if pairs.len() > 0 {
        let front = pairs.drop_last();
        if d < expand(front).len() {
            lemma_expanded_value_is_listed(front, d);
            let i = choose|i: int| 0 <= i < front.len() && (#[trigger] front[i]).0 == expand(front)[d];
            assert(pairs[i] == front[i]);
        } else {
            assert(pairs[pairs.len() - 1].0 == expand(pairs)[d]);
        }
    }
}

/// Whether the pairs list the entries of the map: each pair is an entry,
/// each entry is among the pairs, and no index comes twice.
pub open spec fn lists_entries(pairs: Seq<(TargetStateIdx, usize)>, map: Map<usize, usize>) -> bool {
    &&& forall|i: int|
        0 <= i < pairs.len() ==> map.contains_key((#[trigger] pairs[i]).0.0) && map[pairs[i].0.0]
            == pairs[i].1
    &&& forall|k: usize| #[trigger]
        map.contains_key(k) ==> exists|i: int|
            0 <= i < pairs.len() && #[trigger] pairs[i] == (TargetStateIdx(k), map[k])
    &&& forall|i: int, j: int|
        0 <= i < j < pairs.len() ==> (#[trigger] pairs[i]).0 != (#[trigger] pairs[j]).0
}

/// The entries of a map from state index to weight, as pairs. The order of
/// the pairs is that in which the map hands out its entries.
pub fn entries_as_pairs(map: &HashMap<usize, usize>) -> (r: Vec<(TargetStateIdx, usize)>)
    ensures
        lists_entries(r@, map@),
{
    let mut out: Vec<(TargetStateIdx, usize)> = Vec::new();
    for kv in it: map.iter()
        invariant
            it.seq() == vstd::std_specs::hash::spec_hash_map_iter(map).remaining(),
            it.seq().no_duplicates(),
            out@.len() == it.index(),
            forall|j: int|
                0 <= j < out@.len() ==> (#[trigger] out@[j]) == (
                    TargetStateIdx(*it.seq()[j].0),
                    *it.seq()[j].1,
                ),
    {
        let (k, v) = kv;
        out.push((TargetStateIdx(*k), *v));
    }
    proof {
        vstd::std_specs::hash::axiom_spec_hash_map_iter(map);
        let walked = vstd::std_specs::hash::spec_hash_map_iter(map).remaining();
        assert forall|k: usize| #[trigger] map@.contains_key(k) implies exists|i: int|
            0 <= i < out@.len() && #[trigger] out@[i] == (TargetStateIdx(k), map@[k]) by {
            assert(walked.contains((&k, &map@[k])));
            let i = choose|i: int| 0 <= i < walked.len() && walked[i] == (&k, &map@[k]);
            assert(out@[i] == (TargetStateIdx(k), map@[k]));
        }
        assert forall|i: int, j: int| 0 <= i < j < out@.len() implies (#[trigger] out@[i]).0 != (
        #[trigger] out@[j]).0 by {
            if out@[i].0 == out@[j].0 {
                assert(map@.contains_key(*walked[i].0));
                assert(map@.contains_key(*walked[j].0));
                assert(walked[i] == walked[j]);
            }
        }
    }
    out
}

/// The policy that takes the target states in turn.
pub struct Cycler;

impl<C, SC> StateScheduler<C, SC> for Cycler {
    /// The state after the selected one, and the first after the last. The
    /// state is left as it is.
    open spec fn choice_spec(
        &self,
        before: StateView<C, SC>,
        after: StateView<C, SC>,
        r: Result<TargetStateIdx, Error>,
    ) -> bool {
        &&& after == before
        &&& r == Ok::<TargetStateIdx, Error>(
            TargetStateIdx(((before.idx + 1) % (before.len() as int)) as usize),
        )
    }

    fn choose_next_state(&mut self, state: &mut LibAFLStarState<C, SC>) -> (r: Result<
        TargetStateIdx,
        Error,
    >) {
        Ok(TargetStateIdx((state.current_state_idx().0 + 1) % state.states_len()))
    }
}

/// The weights of the outgoing-edges policy: for each target state, in the
/// order of the indices, the number of edges that leave it.
pub open spec fn outgoing_edges_weights<C, SC>(state: StateView<C, SC>) -> Seq<
    (TargetStateIdx, usize),
> {
    Seq::new(
        state.len(),
        |i: int| (TargetStateIdx(i as usize), state.prefixes[i].metadata.outgoing_edges),
    )
}

/// The policy that weighs each target state by the number of edges that
/// leave it in the protocol's state machine: a state with more ways on is
/// chosen more often.
pub struct OutgoingEdges;

impl OutgoingEdges {
    /// What getting the weights does: the state is left as it is, and the
    /// weights are the numbers of outgoing edges.
    pub open spec fn weights_spec<C, SC>(
        before: StateView<C, SC>,
        after: StateView<C, SC>,
        r: Result<Seq<(TargetStateIdx, usize)>, Error>,
    ) -> bool {
        &&& after == before
        &&& r == Ok::<Seq<(TargetStateIdx, usize)>, Error>(outgoing_edges_weights(before))
    }

    /// For each target state its number of outgoing edges. Each state is
    /// selected in turn to ask it, and in the end the state that was
    /// selected before is selected again.
    pub fn get_weights<C, SC>(&mut self, state: &mut LibAFLStarState<C, SC>) -> (r: Result<
        Vec<(TargetStateIdx, usize)>,
        Error,
    >)
        requires
            old(state)@.wf(),
        ensures
            final(state)@.wf(),
            Self::weights_spec(old(state)@, final(state)@, weights_view(r)),
    {
        let selected_before = state.current_state_idx();
        let n = state.states_len();
        let mut weights: Vec<(TargetStateIdx, usize)> = Vec::new();
        let mut idx: usize = 0;
        while idx < n
            invariant
                state@.wf(),
                n == state@.len(),
                idx <= n,
                state@ == old(state)@.select(state@.idx),
                weights@.len() == idx,
                forall|k: int|
                    0 <= k < idx ==> (#[trigger] weights@[k]) == outgoing_edges_weights(
                        old(state)@,
                    )[k],
            decreases n - idx,
        {
            match state.switch_state(TargetStateIdx(idx)) {
                Ok(()) => {},
                Err(e) => {
                    return Err(e);
                },
            }
            weights.push((state.current_state_idx(), state.outgoing_edges()));
            idx = idx + 1;
        }
        match state.switch_state(selected_before) {
            Ok(()) => {},
            Err(e) => {
                return Err(e);
            },
        }
        assert(weights@ =~= outgoing_edges_weights(old(state)@));
        Ok(weights)
    }
}

impl<C, SC> StateScheduler<C, SC> for OutgoingEdges {
    /// The weights are got and the choice is made from them, see
    /// [`choice_from_weights`].
    open spec fn choice_spec(
        &self,
        before: StateView<C, SC>,
        after: StateView<C, SC>,
        r: Result<TargetStateIdx, Error>,
    ) -> bool {
        exists|mid: StateView<C, SC>, weights: Result<Seq<(TargetStateIdx, usize)>, Error>|
            #![trigger Self::weights_spec(before, mid, weights)]
            Self::weights_spec(before, mid, weights) && choice_from_weights(weights, mid, after, r)
    }

    fn choose_next_state(&mut self, state: &mut LibAFLStarState<C, SC>) -> (r: Result<
        TargetStateIdx,
        Error,
    >) {
        let weights = self.get_weights(state);
        assert(Self::weights_spec(old(state)@, state@, weights_view(weights)));
        choose_from_weights(weights, state)
    }
}

impl NoveltyIsBetterMetadata {
    /// Nothing remembered yet.
    pub fn new() -> (r: Self)
        ensures
            r.index_counts@ == Map::<usize, usize>::empty(),
            r.novelties@ == Map::<usize, usize>::empty(),
    {
        NoveltyIsBetterMetadata { index_counts: HashMap::new(), novelties: HashMap::new() }
    }

    /// The count that is remembered for a target state, and 0 for a state
    /// that was never selected.
    pub open spec fn previous_count(self, idx: usize) -> usize {
        if self.index_counts@.contains_key(idx) {
            self.index_counts@[idx]
        } else {
            0
        }
    }
}

/// The number of nonzero bytes in the history map of the selected target
/// state.
pub open spec fn covered_now<C, SC>(state: StateView<C, SC>) -> nat {
    count_nonzero(history_maps(state.routed_named_metadata())[history_map_name()])
}

/// Whether the state is as the novelty policy leaves it where there was
/// nothing for it to remember in: an empty memory was put there, and
/// nothing else has changed.
pub open spec fn novelty_set_up<C, SC>(before: StateView<C, SC>, after: StateView<C, SC>) -> bool {
    &&& after.novelty is Some
    &&& before.novelty is Some ==> after == before
    &&& before.novelty is None ==> {
        &&& after == (StateView { novelty: after.novelty, ..before })
        &&& after.novelty->Some_0.index_counts@ == Map::<usize, usize>::empty()
        &&& after.novelty->Some_0.novelties@ == Map::<usize, usize>::empty()
    }
}

/// The policy that weighs each target state by its novelty: by the number of
/// bytes of its history map that became nonzero between its two most recent
/// selections. It goes wrong if some state was never selected, so it is
/// handed out only inside [`UnusedFirst`].
pub struct NoveltySearchInner {
    sealed: (),
}

impl NoveltySearchInner {
    /// The policy, after making sure that the state has a place for what
    /// the policy remembers: where there is none yet, an empty one is put
    /// there.
    pub(crate) fn new<C, SC>(state: &mut LibAFLStarState<C, SC>) -> (r: Self)
        ensures
            novelty_set_up(old(state)@, final(state)@),
    {
        let slot = state.novelty_metadata_mut();
        if slot.is_none() {
            *slot = Some(NoveltyIsBetterMetadata::new());
        }
        NoveltySearchInner { sealed: () }
    }

    /// What getting the weights does. The selected state's count of
    /// nonzero history bytes is taken and remembered in place of the count
    /// from its previous selection. The difference of the two is the
    /// state's novelty, and the novelties of all states that were ever
    /// selected are the weights. Fails with `IllegalState` where the
    /// history map is missing, with `KeyNotFound` where the state has no
    /// place for what the policy remembers, and with `IllegalState` where
    /// the count has gone down; the lower count is remembered even so.
    pub open spec fn weights_spec<C, SC>(
        before: StateView<C, SC>,
        after: StateView<C, SC>,
        r: Result<Seq<(TargetStateIdx, usize)>, Error>,
    ) -> bool {
        if !history_maps(before.routed_named_metadata()).contains_key(history_map_name()) {
            &&& r is Err
            &&& r->Err_0 is IllegalState
            &&& after == before
        } else if before.novelty is None {
            &&& r is Err
            &&& r->Err_0 is KeyNotFound
            &&& after == before
        } else {
            let remembered = before.novelty->Some_0;
            let previous = remembered.previous_count(before.idx);
            &&& after == (StateView { novelty: after.novelty, ..before })
            &&& after.novelty is Some
            &&& after.novelty->Some_0.index_counts@ == remembered.index_counts@.insert(
                before.idx,
                covered_now(before) as usize,
            )
            &&& if covered_now(before) >= previous {
                &&& after.novelty->Some_0.novelties@ == remembered.novelties@.insert(
                    before.idx,
                    (covered_now(before) - previous) as usize,
                )
                &&& r is Ok
                &&& lists_entries(r->Ok_0, after.novelty->Some_0.novelties@)
            } else {
                &&& after.novelty->Some_0.novelties@ == remembered.novelties@
                &&& r is Err
                &&& r->Err_0 is IllegalState
            }
        }
    }

    /// For each target state that was ever selected, its novelty; that of
    /// the selected state is brought up to date first.
    pub fn get_weights<C, SC>(&mut self, state: &mut LibAFLStarState<C, SC>) -> (r: Result<
        Vec<(TargetStateIdx, usize)>,
        Error,
    >)
        requires
            old(state)@.wf(),
        ensures
            final(state)@.wf(),
            keeps_contexts(old(state)@, final(state)@),
            Self::weights_spec(old(state)@, final(state)@, weights_view(r)),
    {
        let curr_idx = state.current_state_idx();
        let curr_cnt = match history_map(
            state.named_metadata_map(),
            "mapfeedback_metadata_shared_mem",
        ) {
            Some(map) => count_nonzero_bytes(&map),
            None => {
                return Err(
                    Error::illegal_state(
                        "This state scheduler can only work if the coverage map observer has the name \"shared_mem\"",
                    ),
                );
            },
        };
        let slot = state.novelty_metadata_mut();
        match slot {
            None => Err(Error::key_not_found("NoveltyIsBetterMetadata not found")),
            Some(meta) => {
                let prev_cnt = match meta.index_counts.insert(curr_idx.0, curr_cnt) {
                    Some(count) => count,
                    None => 0,
                };
                if curr_cnt >= prev_cnt {
                    let _ = meta.novelties.insert(curr_idx.0, curr_cnt - prev_cnt);
                    Ok(entries_as_pairs(&meta.novelties))
                } else {
                    Err(
                        Error::illegal_state(
                            "MapFeedbackMetadata history map got smaller, but it should only increase",
                        ),
                    )
                }
            },
        }
    }
}

impl<C, SC> StateScheduler<C, SC> for NoveltySearchInner {
    /// The weights are got, which brings up to date what the policy
    /// remembers, and the choice is made from them, see
    /// [`choice_from_weights`].
    open spec fn choice_spec(
        &self,
        before: StateView<C, SC>,
        after: StateView<C, SC>,
        r: Result<TargetStateIdx, Error>,
    ) -> bool {
        exists|mid: StateView<C, SC>, weights: Result<Seq<(TargetStateIdx, usize)>, Error>|
            #![trigger Self::weights_spec(before, mid, weights)]
            Self::weights_spec(before, mid, weights) && choice_from_weights(weights, mid, after, r)
    }

    fn choose_next_state(&mut self, state: &mut LibAFLStarState<C, SC>) -> (r: Result<
        TargetStateIdx,
        Error,
    >) {
        let weights = self.get_weights(state);
        assert(Self::weights_spec(old(state)@, state@, weights_view(weights)));
        choose_from_weights(weights, state)
    }
}

/// The policy that makes sure that every target state is fuzzed once before
/// the policy inside it has its say.
pub struct UnusedFirst<SS>(pub SS);

impl<C, SC, SS: StateScheduler<C, SC>> StateScheduler<C, SC> for UnusedFirst<SS> {
    /// The policy inside is asked in any case, so that it can update what it
    /// remembers. Then the target state of the lowest index that was never
    /// fuzzed is the choice, and the selection is where the policy inside
    /// left it. Where every state was fuzzed before, the choice is that of
    /// the policy inside, error or not, and the last state is selected.
    open spec fn choice_spec(
        &self,
        before: StateView<C, SC>,
        after: StateView<C, SC>,
        r: Result<TargetStateIdx, Error>,
    ) -> bool {
        exists|mid: StateView<C, SC>, inner_res: Result<TargetStateIdx, Error>|
            {
                &&& #[trigger] self.0.choice_spec(before, mid, inner_res)
                &&& keeps_contexts(before, mid)
                &&& if has_unused(before.inner) {
                    &&& r is Ok
                    &&& is_first_unused(before.inner, r->Ok_0.0 as int)
                    &&& after == mid
                } else {
                    &&& r == inner_res
                    &&& after == mid.select((before.len() - 1) as usize)
                }
            }
    }

    fn choose_next_state(&mut self, state: &mut LibAFLStarState<C, SC>) -> (r: Result<
        TargetStateIdx,
        Error,
    >) {
        let inner_res = self.0.choose_next_state(state);
        let ghost mid = state@;
        let curr_idx = state.current_state_idx();
        let n = state.states_len();
        let mut idx: usize = 0;
        while idx < n
            invariant
                state@.wf(),
                mid.wf(),
                n == mid.len(),
                idx <= n,
                curr_idx.0 == mid.idx,
                keeps_contexts(old(state)@, mid),
                *self == *old(self),
                old(self).0.choice_spec(old(state)@, mid, inner_res),
                state@ == mid.select(state@.idx),
                idx > 0 ==> state@.idx == idx - 1,
                idx == 0 ==> state@.idx == mid.idx,
                forall|k: int| 0 <= k < idx ==> (#[trigger] mid.inner[k]).fuzz_cycles != 0,
            decreases n - idx,
        {
            match state.switch_state(TargetStateIdx(idx)) {
                Ok(()) => {},
                Err(e) => {
                    return Err(e);
                },
            }
            let unused = *state.fuzz_cycles() == 0;
            assert(state@.inner =~= mid.inner);
            if unused {
                match state.switch_state(curr_idx) {
                    Ok(()) => {},
                    Err(e) => {
                        return Err(e);
                    },
                }
                assert(state@ == mid);
                assert(is_first_unused(old(state)@.inner, idx as int));
                return Ok(TargetStateIdx(idx));
            }
            idx = idx + 1;
        }
        assert(!has_unused(old(state)@.inner));
        inner_res
    }
}

/// The novelty policy as it is handed out: every state once, then by
/// novelty.
pub type NoveltySearch = UnusedFirst<NoveltySearchInner>;

impl UnusedFirst<NoveltySearchInner> {
    /// The novelty policy for the given state. Where the state has no
    /// place yet for what the policy remembers, an empty one is put there.
    pub fn new<C, SC>(state: &mut LibAFLStarState<C, SC>) -> (r: Self)
        ensures
            novelty_set_up(old(state)@, final(state)@),
    {
        UnusedFirst(NoveltySearchInner::new(state))
    }
}

/// Whether one of the weights is not 0.
pub open spec fn has_nonzero_weight(pairs: Seq<(TargetStateIdx, usize)>) -> bool {
    exists|i: int| 0 <= i < pairs.len() && (#[trigger] pairs[i]).1 != 0
}

/// Tells whether one of the weights is not 0.
pub fn any_nonzero_weight(pairs: &Vec<(TargetStateIdx, usize)>) -> (r: bool)
    ensures
        r == has_nonzero_weight(pairs@),
{
    let mut i: usize = 0;
    while i < pairs.len()
        invariant
            i <= pairs@.len(),
            forall|k: int| 0 <= k < i ==> (#[trigger] pairs@[k]).1 == 0,
        decreases pairs@.len() - i,
    {
        if pairs[i].1 != 0 {
            return true;
        }
        i = i + 1;
    }
    false
}

/// The policy that goes by novelty as long as some target state has any,
/// and by the number of outgoing edges when no state has.
pub struct NoveltySearchAndOutgoingEdges {
    novelty_search: NoveltySearchInner,
    outgoing_edges: OutgoingEdges,
}

impl NoveltySearchAndOutgoingEdges {
    /// The policy for the given state, inside [`UnusedFirst`]. Where the
    /// state has no place yet for what the novelty policy remembers, an
    /// empty one is put there.
    pub fn new<C, SC>(state: &mut LibAFLStarState<C, SC>) -> (r: UnusedFirst<Self>)
        ensures
            novelty_set_up(old(state)@, final(state)@),
    {
        UnusedFirst(
            NoveltySearchAndOutgoingEdges {
                novelty_search: NoveltySearchInner::new(state),
                outgoing_edges: OutgoingEdges,
            },
        )
    }

    /// What getting the weights does: the weights of the novelty policy,
    /// with what getting them does to the state and with their errors; but
    /// where they are all 0, the weights of the outgoing-edges policy.
    pub open spec fn weights_spec<C, SC>(
        before: StateView<C, SC>,
        after: StateView<C, SC>,
        r: Result<Seq<(TargetStateIdx, usize)>, Error>,
    ) -> bool {
        exists|by_novelty: Result<Seq<(TargetStateIdx, usize)>, Error>|
            {
                &&& #[trigger] NoveltySearchInner::weights_spec(before, after, by_novelty)
                &&& match by_novelty {
                    Err(e) => r == Err::<Seq<(TargetStateIdx, usize)>, Error>(e),
                    Ok(pairs) => if has_nonzero_weight(pairs) {
                        r == Ok::<Seq<(TargetStateIdx, usize)>, Error>(pairs)
                    } else {
                        r == Ok::<Seq<(TargetStateIdx, usize)>, Error>(
                            outgoing_edges_weights(after),
                        )
                    },
                }
            }
    }

    /// The weights by novelty, or by outgoing edges where no state has any
    /// novelty.
    pub fn get_weights<C, SC>(&mut self, state: &mut LibAFLStarState<C, SC>) -> (r: Result<
        Vec<(TargetStateIdx, usize)>,
        Error,
    >)
        requires
            old(state)@.wf(),
        ensures
            final(state)@.wf(),
            keeps_contexts(old(state)@, final(state)@),
            Self::weights_spec(old(state)@, final(state)@, weights_view(r)),
    {
        let ns_weights = self.novelty_search.get_weights(state);
        assert(NoveltySearchInner::weights_spec(old(state)@, state@, weights_view(ns_weights)));
        match ns_weights {
            Err(e) => Err(e),
            Ok(pairs) => {
                if any_nonzero_weight(&pairs) {
                    Ok(pairs)
                } else {
                    self.outgoing_edges.get_weights(state)
                }
            },
        }
    }
}

impl<C, SC> StateScheduler<C, SC> for NoveltySearchAndOutgoingEdges {
    /// The weights are got, which brings up to date what the novelty
    /// policy remembers, and the choice is made from them, see
    /// [`choice_from_weights`].
    open spec fn choice_spec(
        &self,
        before: StateView<C, SC>,
        after: StateView<C, SC>,
        r: Result<TargetStateIdx, Error>,
    ) -> bool {
        exists|mid: StateView<C, SC>, weights: Result<Seq<(TargetStateIdx, usize)>, Error>|
            #![trigger Self::weights_spec(before, mid, weights)]
            Self::weights_spec(before, mid, weights) && choice_from_weights(weights, mid, after, r)
    }

    fn choose_next_state(&mut self, state: &mut LibAFLStarState<C, SC>) -> (r: Result<
        TargetStateIdx,
        Error,
    >) {
        let weights = self.get_weights(state);
        assert(Self::weights_spec(old(state)@, state@, weights_view(weights)));
        choose_from_weights(weights, state)
    }
}

} // verus!
