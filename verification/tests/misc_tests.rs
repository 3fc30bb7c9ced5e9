use libaflstar::cli::{parse_key_val, parse_key_val_pairs};
use libaflstar::error::Error;
use libaflstar::event_manager::{BrokerEventResult, EventKind, LibAFLStarManager, MonitorUpdate};
use libaflstar::executor::forkserver::ExitKind;
use libaflstar::executor::stateful::ResettableForkserver;
use libaflstar::http_mutator::HttpMutator;
use libaflstar::mutator::{FtpLightMutator, MutationResult};
use libaflstar::perf::corpus::CorpusPerf;
use libaflstar::perf::executor::{ExecutorPerf, ExitKindCounts};
use libaflstar::perf::scheduler::SchedulerPerf;
use libaflstar::replay::{
    response_to_record, FoundAtPath, RequestResponseCollector, RequestResponsePair,
    RESPONSE_CAPACITY,
};
use libaflstar::rtsp_mutator::RtspMutator;
use libaflstar::state::TargetStateIdx;
use std::time::Duration;

type Manager = LibAFLStarManager<Vec<&'static str>, &'static str>;

#[test]
fn key_and_value_are_split_at_the_first_equals_sign() {
    assert_eq!(parse_key_val("A=b").unwrap(), ("A".to_string(), "b".to_string()));
    assert_eq!(parse_key_val("A=b=c").unwrap(), ("A".to_string(), "b=c".to_string()));
    assert_eq!(parse_key_val("=").unwrap(), (String::new(), String::new()));
    assert_eq!(parse_key_val("KEY=").unwrap(), ("KEY".to_string(), String::new()));
    assert_eq!(parse_key_val("ä=ö").unwrap(), ("ä".to_string(), "ö".to_string()));
    assert_eq!(parse_key_val("ab").unwrap_err(), "invalid KEY=value: no `=` found in `ab`");
    assert_eq!(parse_key_val("").unwrap_err(), "invalid KEY=value: no `=` found in ``");
}

#[test]
fn pairs_are_split_at_commas() {
    let pair = |k: &str, v: &str| (k.to_string(), v.to_string());
    assert_eq!(parse_key_val_pairs("A=b").unwrap(), vec![pair("A", "b")]);
    assert_eq!(
        parse_key_val_pairs("A=b,C=d=e,F=").unwrap(),
        vec![pair("A", "b"), pair("C", "d=e"), pair("F", "")]
    );
    assert_eq!(parse_key_val_pairs("").unwrap_err(), "invalid KEY=value: no `=` found in ``");
    assert_eq!(parse_key_val_pairs("A=b,").unwrap_err(), "invalid KEY=value: no `=` found in ``");
    assert_eq!(
        parse_key_val_pairs("A=b,cd,e").unwrap_err(),
        "invalid KEY=value: no `=` found in `cd`"
    );
    assert_eq!(parse_key_val_pairs(",A=b").unwrap_err(), "invalid KEY=value: no `=` found in ``");
}

#[test]
fn mutators_append_their_terminator_to_mutated_inputs() {
    let mut ftp = FtpLightMutator::new("havoc");
    assert_eq!(ftp.name(), "FtpLightMutator[havoc]");
    let mut input = b"USER x".to_vec();
    assert_eq!(ftp.mutate(MutationResult::Mutated, &mut input).unwrap(), MutationResult::Mutated);
    assert_eq!(input, b"USER x\r\n".to_vec());
    assert_eq!(ftp.mutate(MutationResult::Skipped, &mut input).unwrap(), MutationResult::Skipped);
    assert_eq!(input, b"USER x\r\n".to_vec());

    let mut http = HttpMutator::new("");
    assert_eq!(http.name(), "HttpMutator[]");
    let mut input = vec![];
    http.mutate(MutationResult::Mutated, &mut input).unwrap();
    assert_eq!(input, b"\r\n\r\n".to_vec());
    http.mutate(MutationResult::Skipped, &mut input).unwrap();
    assert_eq!(input, b"\r\n\r\n".to_vec());

    let mut rtsp = RtspMutator::new("a[b]");
    assert_eq!(rtsp.name(), "RtspMutator[a[b]]");
    let mut input = b"PLAY".to_vec();
    rtsp.mutate(MutationResult::Mutated, &mut input).unwrap();
    assert_eq!(input, b"PLAY\r\n\r\n".to_vec());
}

#[test]
fn pairs_carry_the_tag_of_the_exit_kind() {
    let expected = [
        (ExitKind::Okay, "Ok"),
        (ExitKind::Crash, "Cr"),
        (ExitKind::Oom, "Oo"),
        (ExitKind::Timeout, "Tm"),
        (ExitKind::Diff, "Diff"),
    ];
    for (kind, tag) in expected {
        let pair = RequestResponsePair::new(kind, &[1, 2, 3], &[4]);
        assert_eq!(pair.ek(), tag);
        assert_eq!(pair.req(), &[1, 2, 3]);
        assert_eq!(pair.resp(), &[4]);
    }
    let request = [7u8; 10];
    let response = response_to_record(Some(vec![1; 20]));
    let pair = RequestResponsePair::new(ExitKind::Okay, &request, &response);
    assert_eq!(pair.req().len(), 10);
    assert!(pair.resp().len() <= RESPONSE_CAPACITY);
    assert_eq!(RESPONSE_CAPACITY, 4096);
    assert_eq!(response_to_record(None), b"LibAFLStar_err".to_vec());
    assert_eq!(response_to_record(Some(vec![])), Vec::<u8>::new());
}

#[test]
fn the_collector_numbers_its_traces() {
    let (mut collector, make_dir) = RequestResponseCollector::new("out/replay_traces", FoundAtPath::Nothing).unwrap();
    assert!(make_dir);
    assert_eq!(collector.traces_dir(), "out/replay_traces");
    assert_eq!(collector.trace_no(), 0);
    assert_eq!(collector.start_new_trace(), "trace_0.cbor");
    assert_eq!(collector.start_new_trace(), "trace_0.cbor");
    collector.save_this_trace();
    assert_eq!(collector.start_new_trace(), "trace_1.cbor");
    assert_eq!(RequestResponseCollector::get_filename(12345), "trace_12345.cbor");
    let (_, make_dir) = RequestResponseCollector::new("x", FoundAtPath::Directory).unwrap();
    assert!(!make_dir);
    let r = RequestResponseCollector::new("x", FoundAtPath::Other);
    assert!(matches!(r, Err(Error::IllegalArgument(_))));
}

#[test]
fn each_target_state_is_a_client_of_its_own() {
    let manager: Manager = LibAFLStarManager::new(vec![]);
    assert_eq!(manager.mgr_id(), 0);
    assert_eq!(manager.client_id(TargetStateIdx(0)).unwrap(), 1);
    assert_eq!(manager.client_id(TargetStateIdx(41)).unwrap(), 42);
    assert_eq!(manager.client_id(TargetStateIdx(u32::MAX as usize - 1)).unwrap(), u32::MAX);
    assert!(matches!(
        manager.client_id(TargetStateIdx(u32::MAX as usize)),
        Err(Error::IllegalState(_))
    ));
    assert!(manager.client_id(TargetStateIdx(usize::MAX)).is_err());
    let single: Manager = LibAFLStarManager::single_corpus(vec![]);
    assert_eq!(single.client_id(TargetStateIdx(0)).unwrap(), 1);
    assert_eq!(single.client_id(TargetStateIdx(41)).unwrap(), 1);
    assert_eq!(single.client_id(TargetStateIdx(usize::MAX)).unwrap(), 1);
}

#[test]
fn events_tell_the_monitor_or_wait_for_the_handlers() {
    assert_eq!(
        Manager::handle_in_broker(EventKind::NewTestcase { corpus_size: 3, executions: 9 }),
        (BrokerEventResult::Handled, MonitorUpdate::NewTestcase { corpus_size: 3, executions: 9 })
    );
    assert_eq!(
        Manager::handle_in_broker(EventKind::UpdateExecStats { executions: 9 }),
        (BrokerEventResult::Handled, MonitorUpdate::ExecStats { executions: 9 })
    );
    assert_eq!(
        Manager::handle_in_broker(EventKind::UpdateUserStats),
        (BrokerEventResult::Handled, MonitorUpdate::UserStats)
    );
    assert_eq!(
        Manager::handle_in_broker(EventKind::Objective { objective_size: 2 }),
        (BrokerEventResult::Handled, MonitorUpdate::Objective { objective_size: 2 })
    );
    assert_eq!(
        Manager::handle_in_broker(EventKind::Log),
        (BrokerEventResult::Handled, MonitorUpdate::Log)
    );
    assert_eq!(
        Manager::handle_in_broker(EventKind::CustomBuf),
        (BrokerEventResult::Forward, MonitorUpdate::Nothing)
    );
    assert!(Manager::handle_in_client(EventKind::CustomBuf).is_ok());
    assert!(matches!(Manager::handle_in_client(EventKind::Log), Err(Error::Unknown(_))));
    assert!(matches!(
        Manager::handle_in_client(EventKind::UpdateExecStats { executions: 1 }),
        Err(Error::Unknown(_))
    ));
}

#[test]
fn fired_events_are_processed_last_first() {
    let mut manager: Manager = LibAFLStarManager::new(vec![]);
    manager.monitor_mut().push("client 0");
    assert_eq!(manager.monitor(), &vec!["client 0"]);
    let fired = manager.fire(TargetStateIdx(2), EventKind::UpdateExecStats { executions: 5 }, "stats");
    assert_eq!(fired.unwrap(), (3, MonitorUpdate::ExecStats { executions: 5 }, Some("stats")));
    assert!(manager.process().is_empty());
    assert_eq!(
        manager.fire(TargetStateIdx(0), EventKind::CustomBuf, "a").unwrap(),
        (1, MonitorUpdate::Nothing, None)
    );
    manager.fire(TargetStateIdx(0), EventKind::Log, "log").unwrap();
    manager.fire(TargetStateIdx(1), EventKind::CustomBuf, "b").unwrap();
    assert!(manager.fire(TargetStateIdx(usize::MAX), EventKind::CustomBuf, "c").is_err());
    assert_eq!(manager.process(), vec!["b", "a"]);
    assert!(manager.process().is_empty());
}

#[test]
fn time_in_a_corpus_adds_up() {
    let mut perf = CorpusPerf::new(vec![1u8]);
    assert_eq!(perf.cumulative_time(), Duration::ZERO);
    perf.perf_time(Duration::from_millis(5));
    perf.perf_time(Duration::from_nanos(7));
    assert_eq!(perf.cumulative_time(), Duration::new(0, 5_000_007));
    perf.base_mut().push(2);
    assert_eq!(perf.base(), &vec![1, 2]);
    perf.perf_time(Duration::MAX);
    assert_eq!(perf.cumulative_time(), Duration::MAX);

    let mut perf = SchedulerPerf::new("queue");
    perf.perf_time(Duration::from_secs(2));
    perf.perf_time(Duration::from_secs(3));
    assert_eq!(perf.cumulative_time(), Duration::from_secs(5));
    *perf.base_mut() = "other";
    assert_eq!(*perf.base(), "other");
}

struct Resettable {
    flag: bool,
    resets: usize,
}

impl ResettableForkserver for Resettable {
    fn reset_flag(&self) -> bool {
        self.flag
    }

    fn reset_target_state(&mut self) -> Result<Option<i32>, Error> {
        self.resets += 1;
        self.flag = false;
        Ok(Some(17))
    }

    fn state_reset_occurred(&mut self) -> bool {
        std::mem::replace(&mut self.flag, false)
    }
}

#[test]
fn time_in_an_executor_adds_up_and_exits_are_counted() {
    let mut perf = ExecutorPerf::new(Resettable { flag: true, resets: 0 });
    assert_eq!(perf.average_nanos(), None);
    assert_eq!(perf.average_ok_nanos(), None);
    perf.run_target(Duration::from_nanos(100), &Ok(ExitKind::Okay));
    perf.run_target(Duration::from_nanos(300), &Ok(ExitKind::Okay));
    perf.run_target(Duration::from_nanos(1000), &Ok(ExitKind::Timeout));
    perf.run_target(Duration::from_nanos(10), &Ok(ExitKind::Crash));
    perf.run_target(Duration::from_nanos(90), &Err(Error::ShuttingDown));
    assert_eq!(perf.executions(), 5);
    assert_eq!(perf.cumulative_time(), Duration::from_nanos(1500));
    assert_eq!(
        perf.exit_kinds(),
        ExitKindCounts { okay: 2, crash: 1, oom: 0, timeout: 1, diff: 0 }
    );
    assert_eq!(perf.average_nanos(), Some(300));
    assert_eq!(perf.average_ok_nanos(), Some(200));
    perf.run_target(Duration::ZERO, &Ok(ExitKind::Oom));
    perf.run_target(Duration::ZERO, &Ok(ExitKind::Diff));
    assert_eq!(
        perf.exit_kinds(),
        ExitKindCounts { okay: 2, crash: 1, oom: 1, timeout: 1, diff: 1 }
    );
    assert!(perf.state_reset_occurred());
    assert!(!perf.state_reset_occurred());
    assert_eq!(perf.reset_target_state().unwrap(), Some(17));
    assert_eq!(perf.base().resets, 1);
    perf.base_mut().flag = true;
    assert!(perf.base().flag);
    assert!(perf.cumulative_time() >= Duration::from_nanos(1500));
    assert_eq!(perf.executions(), 7);
}
