use libafl::feedbacks::MapFeedbackMetadata;
use libafl_bolts::rands::StdRand;
use libaflstar::error::Error;
use libaflstar::state::{
    count_nonzero_bytes, is_metadata_file, load_prefix, load_prefixes, merge_coverage_map,
    HasSharedMetadata, LibAFLStarState, MultipleStates, Prefix, PrefixFile, PrefixMetadata,
    StateAccessMode, TargetStateIdx,
};
use libaflstar::state_scheduler::StateTraitsAlias;

type State = LibAFLStarState<Vec<u32>, Vec<u32>>;

fn prefixes(edges: &[usize]) -> Vec<Prefix> {
    edges
        .iter()
        .enumerate()
        .map(|(i, e)| Prefix {
            prefix: (0..i).map(|k| vec![k as u8, 0xaa]).collect(),
            metadata: PrefixMetadata { outgoing_edges: *e },
        })
        .collect()
}

fn multi_meta(n: usize) -> State {
    let corpora = (0..n).map(|i| vec![i as u32]).collect();
    let edges: Vec<usize> = (0..n).map(|i| 2 * i + 1).collect();
    LibAFLStarState::new(StdRand::with_seed(7), corpora, vec![], prefixes(&edges)).unwrap()
}

fn set_history(state: &mut State, map: Vec<u8>) {
    state.named_metadata_map_mut().insert(
        "mapfeedback_metadata_shared_mem",
        MapFeedbackMetadata::<u8>::with_history_map(map, 0),
    );
}

#[test]
fn construction_needs_a_prefix() {
    let r: Result<State, Error> =
        LibAFLStarState::new_single_corpus(StdRand::with_seed(1), vec![], vec![], vec![]);
    assert!(matches!(r, Err(Error::IllegalArgument(_))));
    let r: Result<State, Error> = LibAFLStarState::new(StdRand::with_seed(1), vec![], vec![], vec![]);
    assert!(matches!(r, Err(Error::IllegalArgument(_))));
}

#[test]
fn construction_counts_corpora() {
    let r: Result<State, Error> = LibAFLStarState::new_multi_corpus_single_meta(
        StdRand::with_seed(1),
        vec![vec![1]],
        vec![],
        prefixes(&[1, 2]),
    );
    assert!(matches!(r, Err(Error::IllegalArgument(_))));
    let r: Result<State, Error> = LibAFLStarState::new_multi_corpus_multi_meta(
        StdRand::with_seed(1),
        vec![vec![1], vec![2], vec![3]],
        vec![],
        prefixes(&[1, 2]),
    );
    assert!(matches!(r, Err(Error::IllegalArgument(_))));
    let r: Result<State, Error> = LibAFLStarState::new_with_access_mode(
        StdRand::with_seed(1),
        vec![vec![1], vec![2]],
        vec![],
        prefixes(&[1, 2]),
        StateAccessMode::SingleCorp,
    );
    assert!(matches!(r, Err(Error::IllegalArgument(_))));
}

#[test]
fn a_fresh_state_selects_the_first_target_state() {
    let state = multi_meta(3);
    assert_eq!(state.current_state_idx(), TargetStateIdx(0));
    assert_eq!(state.states_len(), 3);
    assert_eq!(state.max_size(), 1_048_576);
    assert_eq!(state.access_mode(), StateAccessMode::MultiCorpMultiMeta);
    assert_eq!(*state.executions(), 0);
    assert_eq!(*state.imported(), 0);
    assert_eq!(state.current_corpus_idx().unwrap(), None);
    assert_eq!(state.current_stage().unwrap(), None);
    assert!(state.last_report_time().is_none());
    assert!(state.novelty_metadata().is_none());
    assert!(state.executor_meta().is_none());
    assert_eq!(state.outgoing_edges(), 1);
    assert_eq!(state.prefix().prefix.len(), 0);
}

#[test]
fn corpora_keep_their_order() {
    let mut state = multi_meta(3);
    for i in 0..3 {
        state.switch_state(TargetStateIdx(i)).unwrap();
        assert_eq!(state.corpus(), &vec![i as u32]);
        assert_eq!(state.outgoing_edges(), 2 * i + 1);
        assert_eq!(state.prefix().prefix.len(), i);
    }
}

#[test]
fn switch_state_rejects_an_index_beyond_the_states() {
    let mut state = multi_meta(2);
    state.switch_state(TargetStateIdx(1)).unwrap();
    let r = state.switch_state(TargetStateIdx(2));
    assert!(matches!(r, Err(Error::IllegalState(_))));
    assert_eq!(state.current_state_idx(), TargetStateIdx(1));
    assert!(state.switch_state(TargetStateIdx(usize::MAX)).is_err());
}

fn detour_keeps_context(mut state: State, i: usize, j: usize) {
    state.switch_state(TargetStateIdx(i)).unwrap();
    state.corpus_mut().push(99);
    *state.executions_mut() = 5;
    *state.fuzz_cycles() = 2;
    *state.imported_mut() = 3;
    state.set_corpus_idx(4).unwrap();
    state.set_stage(8).unwrap();
    state.enter_inner_stage().unwrap();
    set_history(&mut state, vec![0, 1, 0, 2]);
    let corpus = state.corpus().clone();
    let coverage = state.get_coverage_map_as_bytes().ok();

    state.switch_state(TargetStateIdx(j)).unwrap();
    state.switch_state(TargetStateIdx(i)).unwrap();

    assert_eq!(state.corpus(), &corpus);
    assert_eq!(*state.executions(), 5);
    assert_eq!(*state.fuzz_cycles(), 2);
    assert_eq!(*state.imported(), 3);
    assert_eq!(state.current_corpus_idx().unwrap(), Some(4));
    assert_eq!(state.current_stage().unwrap(), None);
    state.exit_inner_stage().unwrap();
    assert_eq!(state.current_stage().unwrap(), Some(8));
    assert_eq!(state.get_coverage_map_as_bytes().ok(), coverage);
    let kept = state
        .named_metadata_map()
        .get::<MapFeedbackMetadata<u8>>("mapfeedback_metadata_shared_mem")
        .unwrap();
    assert_eq!(kept.history_map, vec![0, 1, 0, 2]);
}

#[test]
fn detour_keeps_context_in_every_access_mode() {
    let r = StdRand::with_seed(3);
    detour_keeps_context(
        LibAFLStarState::new_single_corpus(r, vec![1], vec![], prefixes(&[1, 3, 5])).unwrap(),
        1,
        2,
    );
    detour_keeps_context(
        LibAFLStarState::new_multi_corpus_single_meta(
            r,
            vec![vec![1], vec![2], vec![3]],
            vec![],
            prefixes(&[1, 3, 5]),
        )
        .unwrap(),
        2,
        0,
    );
    detour_keeps_context(multi_meta(3), 0, 1);
    detour_keeps_context(multi_meta(1), 0, 0);
}

#[test]
fn single_corpus_is_shared_and_other_modes_keep_it_apart() {
    let mut shared: State =
        LibAFLStarState::new_single_corpus(StdRand::with_seed(3), vec![1], vec![], prefixes(&[1, 3]))
            .unwrap();
    shared.corpus_mut().push(2);
    shared.switch_state(TargetStateIdx(1)).unwrap();
    assert_eq!(shared.corpus(), &vec![1, 2]);

    let mut apart = multi_meta(2);
    apart.corpus_mut().push(7);
    apart.switch_state(TargetStateIdx(1)).unwrap();
    assert_eq!(apart.corpus(), &vec![1]);
}

#[test]
fn metadata_is_routed_by_access_mode() {
    let mut apart = multi_meta(2);
    set_history(&mut apart, vec![1, 1]);
    apart.switch_state(TargetStateIdx(1)).unwrap();
    assert!(!apart
        .named_metadata_map()
        .contains::<MapFeedbackMetadata<u8>>("mapfeedback_metadata_shared_mem"));
    assert!(!apart
        .shared_named_metadata_map()
        .contains::<MapFeedbackMetadata<u8>>("mapfeedback_metadata_shared_mem"));

    let mut shared: State = LibAFLStarState::new_multi_corpus_single_meta(
        StdRand::with_seed(3),
        vec![vec![1], vec![2]],
        vec![],
        prefixes(&[1, 3]),
    )
    .unwrap();
    set_history(&mut shared, vec![1, 1]);
    shared.switch_state(TargetStateIdx(1)).unwrap();
    assert!(shared
        .named_metadata_map()
        .contains::<MapFeedbackMetadata<u8>>("mapfeedback_metadata_shared_mem"));
    assert!(shared
        .shared_named_metadata_map()
        .contains::<MapFeedbackMetadata<u8>>("mapfeedback_metadata_shared_mem"));
}

#[test]
fn counters_belong_to_the_selected_state_only() {
    let mut state = multi_meta(3);
    state.switch_state(TargetStateIdx(1)).unwrap();
    *state.executions_mut() += 1;
    *state.fuzz_cycles() += 4;
    assert_eq!(state.executions_per_state(), vec![(0, 0), (1, 1), (2, 0)]);
    assert_eq!(state.cycles_per_state(), vec![(0, 0), (1, 4), (2, 0)]);
    assert_eq!(state.total_executions(), Some(1));
    state.switch_state(TargetStateIdx(2)).unwrap();
    *state.executions_mut() = u64::MAX;
    assert_eq!(state.total_executions(), None);
}

#[test]
fn stages_are_kept_on_a_stack() {
    let mut state = multi_meta(1);
    state.set_stage(3).unwrap();
    assert_eq!(state.current_stage().unwrap(), Some(3));
    assert!(matches!(state.set_stage(4), Err(Error::IllegalState(_))));
    state.enter_inner_stage().unwrap();
    assert_eq!(state.current_stage().unwrap(), None);
    state.set_stage(4).unwrap();
    assert_eq!(state.current_stage().unwrap(), Some(4));
    state.on_restart().unwrap();
    assert_eq!(state.current_stage().unwrap(), Some(3));
    state.enter_inner_stage().unwrap();
    state.clear_stage().unwrap();
    state.exit_inner_stage().unwrap();
    state.clear_stage().unwrap();
    assert_eq!(state.current_stage().unwrap(), None);
    assert!(state.clear_stage().is_ok());
    state.enter_inner_stage().unwrap();
    assert!(matches!(state.clear_stage(), Err(Error::IllegalState(_))));
}

#[test]
fn plain_parts_can_be_read_and_written() {
    let mut state = multi_meta(2);
    state.set_max_size(10);
    assert_eq!(state.max_size(), 10);
    *state.last_report_time_mut() = Some(std::time::Duration::from_secs(3));
    assert_eq!(*state.last_report_time(), Some(std::time::Duration::from_secs(3)));
    state.solutions_mut().push(5);
    assert_eq!(state.solutions(), &vec![5]);
    state.clear_corpus_idx().unwrap();
    assert_eq!(state.current_corpus_idx().unwrap(), None);
    let _ = state.rand();
    let _ = state.rand_mut();
    let _ = state.metadata_map();
    let _ = state.metadata_map_mut();
    let _ = state.shared_metadata_map();
    let _ = state.shared_metadata_map_mut();
    let _ = state.shared_named_metadata_map_mut();
    assert_eq!(TargetStateIdx(5).to_string(), "StateId(5)");
}

#[test]
fn for_each_visits_every_state_and_restores_the_selection() {
    let mut state = multi_meta(3);
    state.switch_state(TargetStateIdx(1)).unwrap();
    let mut seen = vec![];
    state
        .for_each(|s| {
            seen.push(s.current_state_idx().0);
            *s.imported_mut() += 1;
            Ok(())
        })
        .unwrap();
    assert_eq!(seen, vec![0, 1, 2]);
    assert_eq!(state.current_state_idx(), TargetStateIdx(1));
    let r = state.for_each(|s| {
        if s.current_state_idx().0 == 1 {
            Err(Error::Unknown("stop".to_string()))
        } else {
            Ok(())
        }
    });
    assert!(matches!(r, Err(Error::Unknown(_))));
    assert_eq!(state.current_state_idx(), TargetStateIdx(1));
}

#[test]
fn map_to_vec_collects_in_the_order_of_the_states() {
    let mut state = multi_meta(3);
    state.switch_state(TargetStateIdx(2)).unwrap();
    let v = state
        .map_to_vec(|s| Ok((s.current_state_idx().0, s.outgoing_edges(), *s.imported())))
        .unwrap();
    assert_eq!(v, vec![(0, 1, 0), (1, 3, 0), (2, 5, 0)]);
    assert_eq!(state.current_state_idx(), TargetStateIdx(2));
}

#[test]
fn a_state_is_put_together_from_its_parts() {
    let mut state = multi_meta(2);
    state.switch_state(TargetStateIdx(1)).unwrap();
    *state.executions_mut() = 9;
    assert!(state.is_well_formed());
    assert_eq!(state.stage_depth(), 0);
    assert!(state.shared_corpus().is_none());
    assert!(state.shared_executor_meta().is_none());
    let inner = state.inner_states().clone();
    let prefixes = state.prefixes().clone();
    let rebuilt: State = LibAFLStarState::from_parts(
        state.access_mode(),
        state.current_state_idx(),
        state.shared_named_metadata_map().clone(),
        state.shared_metadata_map().clone(),
        None,
        None,
        None,
        inner.clone(),
        prefixes.clone(),
        None,
        state.max_size(),
        *state.rand(),
        vec![],
    )
    .unwrap();
    assert_eq!(rebuilt.current_state_idx(), TargetStateIdx(1));
    assert_eq!(*rebuilt.executions(), 9);
    assert_eq!(rebuilt.corpus(), &vec![1]);
    let broken: Result<State, Error> = LibAFLStarState::from_parts(
        StateAccessMode::SingleCorp,
        TargetStateIdx(0),
        state.shared_named_metadata_map().clone(),
        state.shared_metadata_map().clone(),
        None,
        None,
        None,
        inner.clone(),
        prefixes.clone(),
        None,
        16,
        *state.rand(),
        vec![],
    );
    assert!(matches!(broken, Err(Error::IllegalState(_))));
    let out_of_range: Result<State, Error> = LibAFLStarState::from_parts(
        StateAccessMode::MultiCorpMultiMeta,
        TargetStateIdx(2),
        state.shared_named_metadata_map().clone(),
        state.shared_metadata_map().clone(),
        None,
        None,
        None,
        inner,
        prefixes,
        None,
        16,
        *state.rand(),
        vec![],
    );
    assert!(out_of_range.is_err());
}

fn walk<S: StateTraitsAlias>(state: &mut S) -> Vec<(usize, usize, usize)> {
    let mut seen = vec![];
    for i in 0..MultipleStates::states_len(state) {
        MultipleStates::switch_state(state, TargetStateIdx(i)).unwrap();
        *MultipleStates::fuzz_cycles(state) += i;
        seen.push((
            MultipleStates::current_state_idx(state).0,
            MultipleStates::outgoing_edges(state),
            MultipleStates::prefix(state).prefix.len(),
        ));
    }
    assert!(MultipleStates::switch_state(state, TargetStateIdx(seen.len())).is_err());
    let _ = HasSharedMetadata::shared_metadata_map(state);
    let _ = HasSharedMetadata::shared_metadata_map_mut(state);
    let _ = HasSharedMetadata::shared_named_metadata_map(state);
    let _ = HasSharedMetadata::shared_named_metadata_map_mut(state);
    seen
}

#[test]
fn the_state_serves_through_its_traits() {
    let mut state = multi_meta(3);
    assert_eq!(walk(&mut state), vec![(0, 1, 0), (1, 3, 1), (2, 5, 2)]);
    assert_eq!(state.cycles_per_state(), vec![(0, 0), (1, 1), (2, 2)]);
    assert_eq!(state.current_state_idx(), TargetStateIdx(2));
}

#[test]
fn nonzero_bytes_are_counted() {
    assert_eq!(count_nonzero_bytes(&vec![]), 0);
    assert_eq!(count_nonzero_bytes(&vec![0, 0, 0]), 0);
    assert_eq!(count_nonzero_bytes(&vec![0, 3, 0, 255, 1]), 3);
}

#[test]
fn maps_merge_to_the_pointwise_maximum_of_the_longer_length() {
    let mut total = vec![1, 0, 9];
    merge_coverage_map(&mut total, &vec![0, 4, 3, 0, 7]);
    assert_eq!(total, vec![1, 4, 9, 0, 7]);
    merge_coverage_map(&mut total, &vec![2]);
    assert_eq!(total, vec![2, 4, 9, 0, 7]);
    merge_coverage_map(&mut total, &vec![]);
    assert_eq!(total, vec![2, 4, 9, 0, 7]);
}

#[test]
fn total_coverage_merges_the_maps_of_all_states() {
    let mut state = multi_meta(2);
    let mut first = vec![0u8; 16];
    first[1] = 1;
    first[2] = 1;
    let mut second = vec![0u8; 16];
    second[2] = 4;
    second[3] = 1;
    set_history(&mut state, first);
    state.switch_state(TargetStateIdx(1)).unwrap();
    set_history(&mut state, second);
    assert_eq!(state.calculate_total_coverage().unwrap(), (3, 16));
    let merged = state.get_coverage_map_as_bytes().unwrap();
    assert_eq!(&merged[..5], &[0, 1, 4, 1, 0]);
}

#[test]
fn total_coverage_of_shared_metadata_is_the_one_map() {
    let mut state: State = LibAFLStarState::new_multi_corpus_single_meta(
        StdRand::with_seed(3),
        vec![vec![1], vec![2]],
        vec![],
        prefixes(&[1, 3]),
    )
    .unwrap();
    set_history(&mut state, vec![0, 5, 0, 0, 1, 1]);
    state.switch_state(TargetStateIdx(1)).unwrap();
    assert_eq!(state.calculate_total_coverage().unwrap(), (3, 6));
    assert_eq!(state.get_coverage_map_as_bytes().unwrap(), vec![0, 5, 0, 0, 1, 1]);
}

#[test]
fn total_coverage_needs_every_history_map() {
    let mut state = multi_meta(2);
    assert!(matches!(state.calculate_total_coverage(), Err(Error::IllegalState(_))));
    set_history(&mut state, vec![1]);
    assert!(matches!(state.get_coverage_map_as_bytes(), Err(Error::IllegalState(_))));
    let shared: State =
        LibAFLStarState::new_single_corpus(StdRand::with_seed(3), vec![1], vec![], prefixes(&[1]))
            .unwrap();
    assert!(matches!(shared.calculate_total_coverage(), Err(Error::IllegalState(_))));
}

#[test]
fn a_prefix_is_loaded_from_its_files() {
    assert!(is_metadata_file("metadata"));
    assert!(!is_metadata_file("metadata.txt"));
    assert!(!is_metadata_file(""));
    let prefix = load_prefix(vec![
        PrefixFile::Message(vec![1, 2]),
        PrefixFile::Metadata(" 17\n".to_string()),
        PrefixFile::Message(vec![]),
        PrefixFile::Message(vec![3]),
    ])
    .unwrap();
    assert_eq!(prefix.metadata.outgoing_edges, 17);
    assert_eq!(prefix.prefix, vec![vec![1, 2], vec![], vec![3]]);
    let empty = load_prefix(vec![PrefixFile::Metadata("+0".to_string())]).unwrap();
    assert_eq!(empty.metadata.outgoing_edges, 0);
    assert!(empty.prefix.is_empty());
    let spaced = load_prefix(vec![PrefixFile::Metadata("\u{2003}\t007\u{a0}\r\n".to_string())]);
    assert_eq!(spaced.unwrap().metadata.outgoing_edges, 7);
    let largest = load_prefix(vec![PrefixFile::Metadata(usize::MAX.to_string())]).unwrap();
    assert_eq!(largest.metadata.outgoing_edges, usize::MAX);
    assert_eq!(TargetStateIdx(0).to_string(), "StateId(0)");
    assert_eq!(TargetStateIdx(1234567890).to_string(), "StateId(1234567890)");
}

#[test]
fn a_prefix_needs_readable_files_and_metadata() {
    for bad in ["", " ", "abc", "-1", "-0", "1 2", "99999999999999999999999999", "+", "++1", "0x10", "1e3", "\u{663}"] {
        let r = load_prefix(vec![PrefixFile::Metadata(bad.to_string())]);
        assert!(matches!(r, Err(Error::IllegalState(_))), "{bad}");
    }
    let r = load_prefix(vec![PrefixFile::Message(vec![1])]);
    assert!(matches!(r, Err(Error::IllegalState(_))));
    let r = load_prefix(vec![]);
    assert!(matches!(r, Err(Error::IllegalState(_))));
    let r = load_prefix(vec![PrefixFile::Metadata("1".to_string()), PrefixFile::Unreadable]);
    assert!(matches!(r, Err(Error::IllegalState(_))));
}

#[test]
fn prefixes_are_loaded_in_the_order_of_their_directories() {
    let loaded = load_prefixes(vec![
        vec![PrefixFile::Metadata("1".to_string())],
        vec![PrefixFile::Message(vec![9]), PrefixFile::Metadata("3".to_string())],
    ])
    .unwrap();
    assert_eq!(loaded.len(), 2);
    assert_eq!(loaded[0].metadata.outgoing_edges, 1);
    assert_eq!(loaded[1].metadata.outgoing_edges, 3);
    assert_eq!(loaded[1].prefix, vec![vec![9]]);
    assert!(load_prefixes(vec![]).unwrap().is_empty());
    let r = load_prefixes(vec![
        vec![PrefixFile::Metadata("1".to_string())],
        vec![PrefixFile::Message(vec![9])],
    ]);
    assert!(matches!(r, Err(Error::IllegalState(_))));
}
