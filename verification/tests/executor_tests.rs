use libafl_bolts::rands::StdRand;
use libaflstar::error::{Error, ErrorKind};
use libaflstar::executor::forkserver::{
    flag_is_set, forkserver_environment, fs_opt_get_mapsize, memory_limit_bytes,
    round_up_map_size, shmem_envelope,
    ConnectAction, ConnectResult, Delivery, ExitKind, Forkserver, ForkserverExecutor,
    ForkserverExecutorBuilder, HandshakeAction, HandshakeEvent, HandshakePhase, InputFilePlan,
    InputMode, RunAction, RunEvent, RunPhase, ServFinish, ServStart, SocketConnector,
    CONNECT_RETRIES, FORKSRV_FD, FS_OPT_AUTODICT, FS_OPT_ENABLED, FS_OPT_MAPSIZE,
    FS_OPT_SHDMEM_FUZZ, MAX_INPUT_SIZE_DEFAULT, SHMEM_FUZZ_HDR_SIZE,
};
use libaflstar::executor::stateful::{
    ResettableForkserver, StatefulPersistentExecutor, StatefulPersistentExecutorMeta,
};
use libaflstar::replay::{FoundAtPath, RequestResponseCollector};
use libaflstar::state::{LibAFLStarState, Prefix, PrefixMetadata, TargetStateIdx};

type State = LibAFLStarState<Vec<u32>, Vec<u32>>;

fn state(n: usize) -> State {
    let prefixes = (0..n)
        .map(|_| Prefix { prefix: vec![], metadata: PrefixMetadata { outgoing_edges: 1 } })
        .collect();
    let corpora = (0..n).map(|_| vec![]).collect();
    LibAFLStarState::new(StdRand::with_seed(11), corpora, vec![], prefixes).unwrap()
}

fn collector() -> RequestResponseCollector {
    RequestResponseCollector::new("traces", FoundAtPath::Directory).unwrap().0
}

fn shaken(builder: ForkserverExecutorBuilder) -> ForkserverExecutorBuilder {
    let mut builder = builder.program("target");
    match builder.handshake_step(HandshakeEvent::Hello { read: 4, status: 0 }) {
        HandshakeAction::Done { parse_dict: false } => {}
        other => panic!("{other:?}"),
    }
    builder
}

fn executor(builder: ForkserverExecutorBuilder) -> ForkserverExecutor {
    shaken(builder).build().unwrap()
}

fn signed(bits: u32) -> i32 {
    i32::from_ne_bytes(bits.to_ne_bytes())
}

#[test]
fn protocol_constants_are_those_of_afl() {
    assert_eq!(FORKSRV_FD, 198);
    assert_eq!(FS_OPT_ENABLED, signed(0x80000001));
    assert_eq!(FS_OPT_MAPSIZE, 0x40000000);
    assert_eq!(FS_OPT_SHDMEM_FUZZ, 0x01000000);
    assert_eq!(FS_OPT_AUTODICT, 0x10000000);
    assert_eq!(SHMEM_FUZZ_HDR_SIZE, 4);
    assert_eq!(MAX_INPUT_SIZE_DEFAULT, 1024 * 1024);
    assert_eq!(CONNECT_RETRIES, 20);
}

#[test]
fn map_size_is_read_from_the_status_word() {
    assert_eq!(fs_opt_get_mapsize(0), 1);
    assert_eq!(fs_opt_get_mapsize(signed(0x80000001 | 0x40000000 | ((65536 - 1) << 1))), 65536);
    assert_eq!(fs_opt_get_mapsize(signed(0xffffffff)), 0x800000);
    assert_eq!(fs_opt_get_mapsize((1000 - 1) << 1), 1000);
    assert_eq!(round_up_map_size(1000), 1024);
    assert_eq!(round_up_map_size(1024), 1024);
    assert_eq!(round_up_map_size(1), 64);
    assert_eq!(round_up_map_size(0x800000), 0x800000);
    assert!(flag_is_set(signed(0x80000001), FS_OPT_ENABLED));
    assert!(!flag_is_set(signed(0x80000000), FS_OPT_ENABLED));
    assert!(!flag_is_set(1, FS_OPT_ENABLED));
    assert!(flag_is_set(signed(0xc0000001), FS_OPT_MAPSIZE));
}

#[test]
fn shared_memory_input_is_length_and_bytes() {
    assert_eq!(shmem_envelope(&[1, 2, 3], 100), vec![3, 0, 0, 0, 1, 2, 3]);
    assert_eq!(shmem_envelope(&[], 4), vec![0, 0, 0, 0]);
    assert_eq!(shmem_envelope(&[9, 8, 7, 6, 5], 7), vec![3, 0, 0, 0, 9, 8, 7]);
    assert_eq!(shmem_envelope(&[9, 8], 4), vec![0, 0, 0, 0]);
    let long = vec![0x5a; 0x1_02_03];
    let envelope = shmem_envelope(&long, MAX_INPUT_SIZE_DEFAULT + SHMEM_FUZZ_HDR_SIZE);
    assert_eq!(&envelope[..4], &[0x03, 0x02, 0x01, 0x00]);
    assert_eq!(&envelope[4..], &long[..]);
    let too_long = vec![1; 300];
    let envelope = shmem_envelope(&too_long, 260);
    assert_eq!(&envelope[..4], &[0, 1, 0, 0]);
    assert_eq!(envelope.len(), 260);
}

#[test]
fn the_child_sees_the_input_up_to_the_capacity_of_the_mode() {
    let input: Vec<u8> = (0..200).map(|i| i as u8).collect();
    for builder in [
        ForkserverExecutorBuilder::new(),
        ForkserverExecutorBuilder::new().socket_server_port(1),
        ForkserverExecutorBuilder::new().socket_client_port(1),
        ForkserverExecutorBuilder::new().shmem_provider(),
    ] {
        let ex = executor(builder);
        assert!(ex.is_well_formed());
        assert!(ex.has_room_for_trace());
        assert_eq!(ex.input_for_child(&input), input);
        assert_eq!(ex.input_for_child(&[]), Vec::<u8>::new());
    }
    let ex = executor(ForkserverExecutorBuilder::new().shmem_provider());
    let huge = vec![3u8; MAX_INPUT_SIZE_DEFAULT + 10];
    let seen = ex.input_for_child(&huge);
    assert_eq!(seen.len(), MAX_INPUT_SIZE_DEFAULT);
    assert_eq!(&shmem_envelope(&huge, MAX_INPUT_SIZE_DEFAULT + 4)[4..], &seen[..]);
    let whole = executor(ForkserverExecutorBuilder::new());
    assert_eq!(whole.input_for_child(&huge).len(), MAX_INPUT_SIZE_DEFAULT + 10);
}

#[test]
fn the_memory_limit_is_given_in_mebibytes() {
    assert_eq!(memory_limit_bytes(0), None);
    assert_eq!(memory_limit_bytes(1), Some(1 << 20));
    assert_eq!(memory_limit_bytes(50), Some(50 * 1024 * 1024));
    assert_eq!(memory_limit_bytes(u64::MAX), Some(u64::MAX << 20));
    assert_eq!(memory_limit_bytes(1 << 44), Some(0));
}

#[test]
fn giving_up_the_forkserver_ends_the_child_first() {
    let mut fs = Forkserver::with_kill_signal(9);
    assert_eq!(fs.child_to_end(), None);
    fs.set_child_pid(12);
    assert_eq!(fs.child_to_end(), Some((12, 9)));
    assert!(!Forkserver::needs_sigkill(true, true));
    assert!(Forkserver::needs_sigkill(false, true));
    assert!(Forkserver::needs_sigkill(true, false));
    assert!(Forkserver::needs_sigkill(false, false));
    assert!(ForkserverExecutorBuilder::default().is_well_formed());
}

#[test]
fn forkserver_books_start_empty() {
    let mut fs = Forkserver::new();
    assert_eq!(fs.kill_signal(), 15);
    assert_eq!(fs.child_pid(), None);
    assert_eq!(fs.status(), 0);
    assert!(!fs.last_run_timed_out());
    fs.set_last_run_timed_out(true);
    assert_eq!(fs.last_run_timed_out_raw(), 1);
    fs.set_last_run_timed_out_raw(7);
    assert!(fs.last_run_timed_out());
    fs.set_last_run_timed_out(false);
    assert_eq!(fs.last_run_timed_out_raw(), 0);
    fs.set_child_pid(42);
    assert_eq!(fs.child_pid(), Some(42));
    fs.reset_child_pid();
    assert_eq!(fs.child_pid(), None);
    fs.set_status(9);
    assert_eq!(fs.status(), 9);
    assert_eq!(Forkserver::with_kill_signal(9).kill_signal(), 9);
}

#[test]
fn timed_pipe_operations_depend_on_readiness() {
    assert_eq!(Forkserver::read_st_timed(0, None).unwrap(), None);
    assert_eq!(Forkserver::read_st_timed(-1, Some(5)).unwrap(), None);
    assert_eq!(Forkserver::read_st_timed(1, Some(5)).unwrap(), Some(5));
    assert!(matches!(Forkserver::read_st_timed(1, None), Err(Error::Unknown(_))));
    assert_eq!(Forkserver::write_ctl_timed(1, Some(4)), Some(4));
    assert_eq!(Forkserver::write_ctl_timed(0, Some(4)), None);
}

#[test]
fn the_environment_of_the_forkserver_is_set_in_order() {
    let pair = |k: &str, v: &str| (k.to_string(), v.to_string());
    assert_eq!(forkserver_environment(false, false, vec![]), vec![pair("LD_BIND_NOW", "1")]);
    assert_eq!(
        forkserver_environment(true, true, vec![pair("A", "b"), pair("C", "")]),
        vec![
            pair("__AFL_PERSISTENT", "1"),
            pair("__AFL_DEFER_FORKSRV", "1"),
            pair("LD_BIND_NOW", "1"),
            pair("A", "b"),
            pair("C", ""),
        ]
    );
    assert_eq!(
        forkserver_environment(false, true, vec![]),
        vec![pair("__AFL_DEFER_FORKSRV", "1"), pair("LD_BIND_NOW", "1")]
    );
}

#[test]
fn the_builder_deduces_the_input_mode() {
    assert_eq!(ForkserverExecutorBuilder::new().input_mode(), InputMode::Stdin);
    assert_eq!(ForkserverExecutorBuilder::new().shmem_provider().input_mode(), InputMode::Shmem);
    assert_eq!(
        ForkserverExecutorBuilder::new().shmem_provider().socket_server_port(8021).input_mode(),
        InputMode::SocketServer(8021)
    );
    assert_eq!(
        ForkserverExecutor::builder().socket_server_port(1).socket_client_port(2).input_mode(),
        InputMode::SocketClient(2)
    );
    assert_eq!(
        ForkserverExecutorBuilder::new().socket_client_port(1).socket_server_port(2).input_mode(),
        InputMode::SocketServer(2)
    );
}

#[test]
fn the_spawn_plan_follows_the_builder() {
    let plan = ForkserverExecutorBuilder::new().build_helper();
    assert!(matches!(plan.target, Err(Error::IllegalArgument(_))));
    assert!(matches!(plan.input_file, InputFilePlan::Standard));
    assert_eq!(plan.shmem_len, None);

    let builder = ForkserverExecutorBuilder::new()
        .shmem_provider()
        .program("prog")
        .arg("-x")
        .args(vec!["a".to_string(), "b".to_string()])
        .env("K", "V")
        .envs(vec![("L".to_string(), "W".to_string())])
        .is_persistent(true)
        .is_deferred_frksrv(false)
        .debug_child(true)
        .kill_signal(9);
    let plan = builder.build_helper();
    assert_eq!(plan.input_mode, InputMode::Shmem);
    assert!(matches!(plan.input_file, InputFilePlan::NoFile));
    assert_eq!(plan.shmem_len, Some(1024 * 1024 + 4));
    let target = plan.target.unwrap();
    assert_eq!(target.program, "prog");
    assert_eq!(target.arguments, vec!["-x", "a", "b"]);
    let pair = |k: &str, v: &str| (k.to_string(), v.to_string());
    assert_eq!(
        target.envs,
        vec![pair("__AFL_PERSISTENT", "1"), pair("LD_BIND_NOW", "1"), pair("K", "V"), pair("L", "W")]
    );
    assert!(!target.use_stdin);
    assert_eq!(target.memlimit, 0);
    assert!(target.debug_child);
    assert_eq!(target.kill_signal, 9);

    let plan = ForkserverExecutorBuilder::new().program("p").arg_input_file("in.bin").build_helper();
    assert!(matches!(plan.input_file, InputFilePlan::Named(ref name) if name == "in.bin"));
    let target = plan.target.unwrap();
    assert!(target.use_stdin);
    assert_eq!(target.kill_signal, 15);
    assert_eq!(target.arguments, vec!["in.bin"]);
}

#[test]
fn shmem_provider_unsets_signal_and_timeout() {
    let plan = ForkserverExecutorBuilder::new()
        .kill_signal(9)
        .timeout(100)
        .program("p")
        .shmem_provider()
        .build_helper();
    assert_eq!(plan.target.unwrap().kill_signal, 15);
    let ex = executor(ForkserverExecutorBuilder::new().timeout(100).shmem_provider());
    assert_eq!(ex.timeout_ms(), 5000);
}

#[test]
fn an_afl_command_line_is_parsed() {
    let args = |items: &[&str]| items.iter().map(|s| s.to_string()).collect::<Vec<_>>();
    let plan = ForkserverExecutorBuilder::new()
        .parse_afl_cmdline(&args(&["prog", "-a", "x"]))
        .build_helper();
    let target = plan.target.unwrap();
    assert_eq!(target.program, "prog");
    assert_eq!(target.arguments, vec!["-a", "x"]);
    assert!(matches!(plan.input_file, InputFilePlan::Standard));

    let plan = ForkserverExecutorBuilder::new()
        .program("set")
        .arg_input_file("seed")
        .parse_afl_cmdline(&args(&["prog", "@@", "-b", "@@"]))
        .build_helper();
    let target = plan.target.unwrap();
    assert_eq!(target.program, "set");
    assert_eq!(target.arguments, vec!["seed", "prog", "seed", "-b", "seed"]);
    assert!(matches!(plan.input_file, InputFilePlan::Named(ref name) if name == "seed"));

    let plan = ForkserverExecutorBuilder::new().parse_afl_cmdline(&args(&["prog", "@@"])).build_helper();
    let target = plan.target.unwrap();
    assert_eq!(target.arguments.len(), 1);
    assert!(!target.arguments[0].is_empty());
    assert_ne!(target.arguments[0], "@@");
    assert!(matches!(plan.input_file, InputFilePlan::Named(ref name) if *name == target.arguments[0]));

    let plan = ForkserverExecutorBuilder::new().parse_afl_cmdline(&args(&[])).build_helper();
    assert!(plan.target.is_err());
    let plan = ForkserverExecutorBuilder::new().arg_input_file_std().program("p").build_helper();
    assert!(matches!(plan.input_file, InputFilePlan::Named(_)));
}

#[test]
fn handshake_without_options_is_done_after_the_hello() {
    let mut builder = ForkserverExecutorBuilder::new().shmem_provider().autotokens();
    assert_eq!(builder.handshake(), HandshakePhase::AwaitHello);
    let action = builder.handshake_step(HandshakeEvent::Hello { read: 4, status: 0x41414141 });
    assert!(matches!(action, HandshakeAction::Done { parse_dict: false }));
    assert_eq!(builder.handshake(), HandshakePhase::Done);
    assert_eq!(builder.map_size(), None);
}

#[test]
fn handshake_fails_on_a_short_hello() {
    let mut builder = ForkserverExecutorBuilder::new();
    let action = builder.handshake_step(HandshakeEvent::Hello { read: 3, status: 0 });
    assert!(matches!(action, HandshakeAction::Fail(Error::Unknown(_))));
    assert_eq!(builder.handshake(), HandshakePhase::Failed);
    assert!(matches!(builder.build(), Err(Error::IllegalState(_))));
}

#[test]
fn handshake_takes_the_map_size_rounded_up() {
    let hello = signed(0x80000001 | 0x40000000 | ((1000 - 1) << 1));
    let mut builder = ForkserverExecutorBuilder::new().coverage_map_size(65536);
    assert!(builder.hello_fits(hello));
    let action = builder.handshake_step(HandshakeEvent::Hello { read: 4, status: hello });
    assert!(matches!(action, HandshakeAction::Done { parse_dict: false }));
    assert_eq!(builder.map_size(), Some(1024));
    let builder = ForkserverExecutorBuilder::new().coverage_map_size(512);
    assert!(!builder.hello_fits(hello));
    assert!(builder.hello_fits(signed(0x80000001)));
    assert!(ForkserverExecutorBuilder::new().hello_fits(hello));
    let without_enabled = signed(0x40000000 | ((1000 - 1) << 1));
    let mut builder = ForkserverExecutorBuilder::new().coverage_map_size(16);
    assert!(builder.hello_fits(without_enabled));
    builder.handshake_step(HandshakeEvent::Hello { read: 4, status: without_enabled });
    assert_eq!(builder.map_size(), Some(16));
}

#[test]
fn handshake_acknowledges_only_what_is_offered_and_wanted() {
    let offers_both = signed(0x80000001 | 0x01000000 | 0x10000000);
    let mut builder = ForkserverExecutorBuilder::new();
    let action = builder.handshake_step(HandshakeEvent::Hello { read: 4, status: offers_both });
    assert!(matches!(action, HandshakeAction::Done { parse_dict: false }));

    let mut builder = ForkserverExecutorBuilder::new().shmem_provider();
    let action = builder.handshake_step(HandshakeEvent::Hello { read: 4, status: offers_both });
    match action {
        HandshakeAction::WriteCtl { word } => assert_eq!(word, signed(0x80000001 | 0x01000000)),
        other => panic!("{other:?}"),
    }
    let action = builder.handshake_step(HandshakeEvent::AckWritten { written: 4 });
    assert!(matches!(action, HandshakeAction::Done { parse_dict: false }));

    let mut builder = ForkserverExecutorBuilder::new().shmem_provider().autotokens();
    let action = builder.handshake_step(HandshakeEvent::Hello { read: 4, status: offers_both });
    match action {
        HandshakeAction::WriteCtl { word } => {
            assert_eq!(word, signed(0x80000001 | 0x01000000 | 0x10000000))
        }
        other => panic!("{other:?}"),
    }
    let action = builder.handshake_step(HandshakeEvent::AckWritten { written: 4 });
    assert!(matches!(action, HandshakeAction::ReadDictSize));
    let action = builder.handshake_step(HandshakeEvent::DictSize { read: 4, size: 300 });
    assert!(matches!(action, HandshakeAction::ReadDict { len: 300 }));
    let action = builder.handshake_step(HandshakeEvent::Dict { read: 300 });
    assert!(matches!(action, HandshakeAction::Done { parse_dict: true }));
    assert_eq!(builder.handshake(), HandshakePhase::Done);

    let not_enabled = signed(0x01000000 | 0x10000000);
    let mut builder = ForkserverExecutorBuilder::new().shmem_provider().autotokens();
    let action = builder.handshake_step(HandshakeEvent::Hello { read: 4, status: not_enabled });
    assert!(matches!(action, HandshakeAction::Done { parse_dict: false }));
}

fn until_dict_size() -> ForkserverExecutorBuilder {
    let mut builder = ForkserverExecutorBuilder::new().autotokens();
    builder.handshake_step(HandshakeEvent::Hello { read: 4, status: signed(0x80000001 | 0x10000000) });
    builder.handshake_step(HandshakeEvent::AckWritten { written: 4 });
    builder
}

#[test]
fn handshake_checks_the_dictionary() {
    for size in [2, 0xffffff] {
        let mut builder = until_dict_size();
        let action = builder.handshake_step(HandshakeEvent::DictSize { read: 4, size });
        assert!(matches!(action, HandshakeAction::ReadDict { len } if len == size as usize));
    }
    for size in [1, 0, -1, 0x1000000, i32::MAX, i32::MIN] {
        let mut builder = until_dict_size();
        let action = builder.handshake_step(HandshakeEvent::DictSize { read: 4, size });
        assert!(matches!(action, HandshakeAction::Fail(Error::IllegalState(_))), "{size}");
    }
    let mut builder = until_dict_size();
    let action = builder.handshake_step(HandshakeEvent::DictSize { read: 2, size: 10 });
    assert!(matches!(action, HandshakeAction::Fail(Error::Unknown(_))));
    let mut builder = until_dict_size();
    builder.handshake_step(HandshakeEvent::DictSize { read: 4, size: 10 });
    let action = builder.handshake_step(HandshakeEvent::Dict { read: 9 });
    assert!(matches!(action, HandshakeAction::Fail(Error::Unknown(_))));
}

#[test]
fn handshake_fails_on_a_short_write_and_on_steps_out_of_order() {
    let mut builder = ForkserverExecutorBuilder::new().autotokens();
    builder.handshake_step(HandshakeEvent::Hello { read: 4, status: signed(0x80000001 | 0x10000000) });
    let action = builder.handshake_step(HandshakeEvent::AckWritten { written: 2 });
    assert!(matches!(action, HandshakeAction::Fail(Error::Unknown(_))));
    let mut builder = ForkserverExecutorBuilder::new();
    let action = builder.handshake_step(HandshakeEvent::Dict { read: 0 });
    assert!(matches!(action, HandshakeAction::Fail(Error::IllegalState(_))));
}

#[test]
fn build_needs_handshake_and_program() {
    let mut builder = ForkserverExecutorBuilder::new().program("p");
    assert!(matches!(builder.build(), Err(Error::IllegalState(_))));
    let mut builder = ForkserverExecutorBuilder::new();
    builder.handshake_step(HandshakeEvent::Hello { read: 4, status: 0 });
    assert!(matches!(builder.build(), Err(Error::IllegalArgument(_))));
    assert!(matches!(builder.build_dynamic_map(), Err(Error::IllegalArgument(_))));
}

#[test]
fn build_hands_everything_to_the_executor() {
    let mut builder = shaken(
        ForkserverExecutorBuilder::new()
            .arg("-v")
            .socket_client_port(2121)
            .timeout(1200)
            .kill_signal(9)
            .coverage_map_size(65536)
            .collect_request_response_pairs(collector()),
    );
    let ex = builder.build().unwrap();
    assert_eq!(ex.target(), "target");
    assert_eq!(ex.args(), &vec!["-v".to_string()]);
    assert_eq!(ex.input_mode(), InputMode::SocketClient(2121));
    assert_eq!(ex.timeout_ms(), 1200);
    assert_eq!(ex.coverage_map_size(), Some(65536));
    assert_eq!(ex.forkserver().kill_signal(), 9);
    assert_eq!(ex.forkserver().child_pid(), None);
    assert_eq!(ex.phase(), RunPhase::Idle);
    assert_eq!(ex.socket_con().as_ref().unwrap().port(), 2121);
    assert!(!ex.socket_con().as_ref().unwrap().has_listener());
    assert_eq!(ex.collector().as_ref().unwrap().trace_no(), 0);
    assert!(matches!(builder.build(), Err(Error::IllegalArgument(_))));
    let collector = ex.shutdown();
    assert_eq!(collector.unwrap().traces_dir(), "traces");

    let ex = executor(ForkserverExecutorBuilder::new().socket_server_port(7));
    assert!(ex.socket_con().as_ref().unwrap().has_listener());
    assert_eq!(ex.timeout_ms(), 5000);
    assert_eq!(ex.forkserver().kill_signal(), 15);
    assert!(ex.collector().is_none());
    let ex = shaken(ForkserverExecutorBuilder::new().socket_server_port(7)).build_dynamic_map().unwrap();
    assert!(ex.socket_con().is_some());
    let ex = shaken(ForkserverExecutorBuilder::new().socket_client_port(7)).build_dynamic_map().unwrap();
    assert!(ex.socket_con().is_none());
    let ex = executor(ForkserverExecutorBuilder::new());
    assert!(ex.socket_con().is_none());
}

#[test]
fn a_server_connector_starts_and_finishes_in_turn() {
    let mut con = SocketConnector::new_server(80);
    assert_eq!(con.port(), 80);
    assert!(con.has_listener() && !con.has_stream());
    assert!(matches!(con.serv_finish(), Err(Error::IllegalState(_))));
    assert_eq!(con.serv_start(false, false), ServStart { shutdown_stream: false, listen: true });
    assert!(!con.has_listener());
    assert_eq!(con.serv_finish().unwrap(), ServFinish::Join);
    assert!(con.has_listener() && con.has_stream());
    assert_eq!(con.serv_start(false, false), ServStart { shutdown_stream: false, listen: false });
    assert_eq!(con.serv_finish().unwrap(), ServFinish::UseStream);
    assert_eq!(con.serv_start(false, true), ServStart { shutdown_stream: true, listen: true });
    assert!(!con.has_stream());
    con.serv_finish().unwrap();
    assert_eq!(con.serv_start(true, false), ServStart { shutdown_stream: true, listen: true });
    con.serv_finish().unwrap();
}

#[test]
fn a_client_connector_retries_twenty_times() {
    let mut con = SocketConnector::new_client(80);
    assert!(!con.client_reset());
    assert!(matches!(con.client_connect(true), ConnectAction::Connect { shutdown_old: false }));
    for _ in 0..19 {
        assert!(matches!(con.client_connected(ConnectResult::Refused), ConnectAction::Retry));
    }
    match con.client_connected(ConnectResult::Refused) {
        ConnectAction::GiveUp(Error::File(ErrorKind::TimedOut, _)) => {}
        other => panic!("{other:?}"),
    }
    assert!(matches!(
        con.client_connected(ConnectResult::Refused),
        ConnectAction::GiveUp(Error::File(ErrorKind::TimedOut, _))
    ));
    assert!(!con.has_stream());
}

#[test]
fn a_client_connector_keeps_a_good_stream() {
    let mut con = SocketConnector::new_client(80);
    assert!(matches!(con.client_connect(false), ConnectAction::Connect { shutdown_old: false }));
    for _ in 0..19 {
        assert!(matches!(con.client_connected(ConnectResult::Refused), ConnectAction::Retry));
    }
    assert!(matches!(con.client_connected(ConnectResult::Connected), ConnectAction::Configure));
    assert!(con.has_stream());
    assert!(matches!(con.client_connect(true), ConnectAction::UseStream));
    assert!(matches!(con.client_connect(false), ConnectAction::Connect { shutdown_old: true }));
    assert!(matches!(con.client_connected(ConnectResult::Failed), ConnectAction::Propagate));
    assert!(!con.has_stream());
    assert!(matches!(con.client_connect(true), ConnectAction::Connect { shutdown_old: false }));
    assert!(matches!(con.client_connected(ConnectResult::Refused), ConnectAction::Retry));
    con.client_connected(ConnectResult::Connected);
    assert!(con.client_reset());
    assert!(!con.has_stream());
}

fn run_until_status(ex: &mut ForkserverExecutor, state: &mut State, pid: i32) {
    ex.begin_run(state);
    assert!(matches!(ex.step(RunEvent::CtlWritten(Some(4))), RunAction::ReadPid));
    match ex.step(RunEvent::PidRead(Some(pid))) {
        RunAction::ReadStatus { .. } => {}
        RunAction::SendRequest => {
            assert!(matches!(ex.step(RunEvent::RequestSent), RunAction::ReadStatus { .. }));
        }
        other => panic!("{other:?}"),
    }
}

#[test]
fn an_execution_is_counted_for_the_selected_state_only() {
    let mut state = state(3);
    state.switch_state(TargetStateIdx(1)).unwrap();
    let mut ex = executor(ForkserverExecutorBuilder::new());
    for run in 1..=3 {
        ex.begin_run(&mut state);
        assert_eq!(state.executions_per_state(), vec![(0, 0), (1, run), (2, 0)]);
    }
    assert_eq!(state.current_state_idx(), TargetStateIdx(1));
}

#[test]
fn a_run_over_stdin_goes_through_its_steps() {
    let mut state = state(1);
    let mut ex = executor(ForkserverExecutorBuilder::new().timeout(1200));
    match ex.begin_run(&mut state) {
        RunAction::Prepare { start_new_trace, delivery, ctl_word } => {
            assert!(!start_new_trace);
            assert_eq!(delivery, Delivery::Stdin);
            assert_eq!(ctl_word, 0);
        }
        other => panic!("{other:?}"),
    }
    assert_eq!(ex.phase(), RunPhase::AwaitCtl);
    assert!(matches!(ex.step(RunEvent::CtlWritten(Some(4))), RunAction::ReadPid));
    assert!(matches!(
        ex.step(RunEvent::PidRead(Some(4711))),
        RunAction::ReadStatus { timeout_ms: 1200 }
    ));
    assert_eq!(ex.forkserver().child_pid(), Some(4711));
    assert!(matches!(ex.step(RunEvent::StatusRead(Some(0))), RunAction::Done(ExitKind::Okay)));
    assert_eq!(ex.forkserver().child_pid(), None);
    assert_eq!(ex.forkserver().status(), 0);
    assert_eq!(ex.phase(), RunPhase::Idle);
}

#[test]
fn a_signal_is_a_crash_and_a_stopped_child_is_kept() {
    let mut state = state(1);
    let mut ex = executor(ForkserverExecutorBuilder::new());
    for status in [11, 9, 0x8b, 1, 0x7e] {
        run_until_status(&mut ex, &mut state, 5);
        let action = ex.step(RunEvent::StatusRead(Some(status)));
        assert!(matches!(action, RunAction::Done(ExitKind::Crash)), "{status}");
        assert_eq!(ex.forkserver().child_pid(), None);
    }
    for status in [0, 0x100, 0xff00, 0x80] {
        run_until_status(&mut ex, &mut state, 5);
        let action = ex.step(RunEvent::StatusRead(Some(status)));
        assert!(matches!(action, RunAction::Done(ExitKind::Okay)), "{status}");
        assert_eq!(ex.forkserver().child_pid(), None);
    }
    run_until_status(&mut ex, &mut state, 77);
    let action = ex.step(RunEvent::StatusRead(Some(0x137f)));
    assert!(matches!(action, RunAction::Done(ExitKind::Okay)));
    assert_eq!(ex.forkserver().child_pid(), Some(77));
    match ex.begin_run(&mut state) {
        RunAction::Prepare { start_new_trace, ctl_word, .. } => {
            assert!(!start_new_trace);
            assert_eq!(ctl_word, 0);
        }
        other => panic!("{other:?}"),
    }
}

#[test]
fn a_timeout_ends_the_child_and_tells_the_forkserver() {
    let mut state = state(1);
    let mut ex = executor(ForkserverExecutorBuilder::new().kill_signal(9));
    run_until_status(&mut ex, &mut state, 31);
    match ex.step(RunEvent::StatusRead(None)) {
        RunAction::KillAndReadStatus { pid, signal } => {
            assert_eq!(pid, 31);
            assert_eq!(signal, 9);
        }
        other => panic!("{other:?}"),
    }
    assert!(ex.forkserver().last_run_timed_out());
    assert!(matches!(ex.step(RunEvent::StatusRead(Some(9))), RunAction::Done(ExitKind::Timeout)));
    assert_eq!(ex.forkserver().child_pid(), None);
    match ex.begin_run(&mut state) {
        RunAction::Prepare { ctl_word, .. } => assert_eq!(ctl_word, 1),
        other => panic!("{other:?}"),
    }
    ex.step(RunEvent::CtlWritten(Some(4)));
    assert!(!ex.forkserver().last_run_timed_out());

    run_until_status(&mut ex, &mut state, 32);
    ex.step(RunEvent::StatusRead(None));
    match ex.step(RunEvent::StatusRead(None)) {
        RunAction::Fail(Error::File(ErrorKind::TimedOut, _)) => {}
        other => panic!("{other:?}"),
    }
    assert_eq!(ex.phase(), RunPhase::Idle);
}

#[test]
fn a_run_fails_when_the_forkserver_does_not_answer() {
    let mut state = state(1);
    let mut ex = executor(ForkserverExecutorBuilder::new());
    ex.begin_run(&mut state);
    assert!(matches!(
        ex.step(RunEvent::CtlWritten(None)),
        RunAction::Fail(Error::File(ErrorKind::TimedOut, _))
    ));
    ex.begin_run(&mut state);
    assert!(matches!(ex.step(RunEvent::CtlWritten(Some(3))), RunAction::Fail(Error::Unknown(_))));
    ex.begin_run(&mut state);
    ex.step(RunEvent::CtlWritten(Some(4)));
    assert!(matches!(
        ex.step(RunEvent::PidRead(None)),
        RunAction::Fail(Error::File(ErrorKind::TimedOut, _))
    ));
    for pid in [0, -1, i32::MIN] {
        ex.begin_run(&mut state);
        ex.step(RunEvent::CtlWritten(Some(4)));
        assert!(matches!(ex.step(RunEvent::PidRead(Some(pid))), RunAction::Fail(Error::Unknown(_))));
        assert_eq!(ex.forkserver().child_pid(), None);
    }
}

#[test]
fn steps_out_of_order_fail() {
    let mut state = state(1);
    let mut ex = executor(ForkserverExecutorBuilder::new());
    assert!(matches!(ex.step(RunEvent::PidRead(Some(1))), RunAction::Fail(Error::IllegalState(_))));
    ex.begin_run(&mut state);
    assert!(matches!(
        ex.step(RunEvent::StatusRead(Some(0))),
        RunAction::Fail(Error::IllegalState(_))
    ));
    assert_eq!(ex.phase(), RunPhase::Idle);
    ex.begin_run(&mut state);
    ex.step(RunEvent::CtlWritten(Some(4)));
    assert!(matches!(ex.step(RunEvent::RequestSent), RunAction::Fail(Error::IllegalState(_))));
    ex.begin_run(&mut state);
    assert!(matches!(ex.step(RunEvent::Recorded), RunAction::Fail(Error::IllegalState(_))));
}

#[test]
fn shared_memory_delivery_names_the_length_of_the_memory() {
    let mut state = state(1);
    let mut ex = executor(ForkserverExecutorBuilder::new().shmem_provider());
    match ex.begin_run(&mut state) {
        RunAction::Prepare { delivery, .. } => {
            assert_eq!(delivery, Delivery::Shmem { map_len: 1024 * 1024 + 4 })
        }
        other => panic!("{other:?}"),
    }
}

#[test]
fn a_socket_client_run_records_the_exchange() {
    let mut state = state(1);
    let mut ex = executor(
        ForkserverExecutorBuilder::new()
            .socket_client_port(21)
            .collect_request_response_pairs(collector()),
    );
    match ex.begin_run(&mut state) {
        RunAction::Prepare { start_new_trace, delivery, .. } => {
            assert!(start_new_trace);
            assert_eq!(delivery, Delivery::ClientReset);
        }
        other => panic!("{other:?}"),
    }
    assert!(!ex.socket_con_mut().client_reset());
    ex.step(RunEvent::CtlWritten(Some(4)));
    assert!(matches!(ex.step(RunEvent::PidRead(Some(9))), RunAction::SendRequest));
    assert!(matches!(
        ex.socket_con_mut().client_connect(true),
        ConnectAction::Connect { shutdown_old: false }
    ));
    for _ in 0..5 {
        assert!(matches!(
            ex.socket_con_mut().client_connected(ConnectResult::Refused),
            ConnectAction::Retry
        ));
    }
    assert!(matches!(
        ex.socket_con_mut().client_connected(ConnectResult::Connected),
        ConnectAction::Configure
    ));
    assert!(matches!(ex.step(RunEvent::RequestSent), RunAction::ReadStatus { .. }));
    match ex.step(RunEvent::StatusRead(Some(0x137f))) {
        RunAction::Record { exit_kind } => assert_eq!(exit_kind, ExitKind::Okay),
        other => panic!("{other:?}"),
    }
    assert!(matches!(ex.step(RunEvent::Recorded), RunAction::Done(ExitKind::Okay)));
    assert_eq!(ex.collector().as_ref().unwrap().trace_no(), 0);
    match ex.begin_run(&mut state) {
        RunAction::Prepare { start_new_trace, delivery, .. } => {
            assert!(!start_new_trace);
            assert_eq!(delivery, Delivery::ClientKeep);
        }
        other => panic!("{other:?}"),
    }
}

#[test]
fn a_crash_keeps_the_trace() {
    let mut state = state(1);
    let mut ex = executor(
        ForkserverExecutorBuilder::new()
            .socket_server_port(21)
            .collect_request_response_pairs(collector()),
    );
    match ex.begin_run(&mut state) {
        RunAction::Prepare { delivery, .. } => {
            assert_eq!(delivery, Delivery::ServStart { force: true })
        }
        other => panic!("{other:?}"),
    }
    run_until_status(&mut ex, &mut state, 3);
    match ex.step(RunEvent::StatusRead(Some(11))) {
        RunAction::Record { exit_kind } => assert_eq!(exit_kind, ExitKind::Crash),
        other => panic!("{other:?}"),
    }
    assert_eq!(ex.collector().as_ref().unwrap().trace_no(), 0);
    assert!(matches!(ex.step(RunEvent::Recorded), RunAction::Done(ExitKind::Crash)));
    assert_eq!(ex.collector().as_ref().unwrap().trace_no(), 1);
    assert_eq!(ex.collector().as_ref().unwrap().start_new_trace(), "trace_1.cbor");

    let mut stdin = executor(
        ForkserverExecutorBuilder::new().collect_request_response_pairs(collector()),
    );
    run_until_status(&mut stdin, &mut state, 3);
    assert!(matches!(
        stdin.step(RunEvent::StatusRead(Some(11))),
        RunAction::Done(ExitKind::Crash)
    ));
    assert_eq!(stdin.collector().as_ref().unwrap().trace_no(), 1);
}

#[test]
fn reset_ends_a_stopped_child() {
    let mut state = state(1);
    let mut ex = StatefulPersistentExecutor::new(executor(ForkserverExecutorBuilder::new()));
    assert_eq!(ex.reset_target_state().unwrap(), None);
    assert!(!ex.executor().forkserver().last_run_timed_out());
    run_until_status(ex.executor_mut(), &mut state, 55);
    ex.executor_mut().step(RunEvent::StatusRead(Some(0x137f)));
    assert_eq!(ex.reset_target_state().unwrap(), Some(55));
    assert_eq!(ex.executor().forkserver().child_pid(), None);
    assert!(ex.executor().forkserver().last_run_timed_out());
    assert!(!ex.state_reset_occurred());
    match ex.executor_mut().begin_run(&mut state) {
        RunAction::Prepare { ctl_word, .. } => assert_eq!(ctl_word, 1),
        other => panic!("{other:?}"),
    }
    let action = ex.executor_mut().step(RunEvent::StatusRead(Some(0)));
    assert!(matches!(action, RunAction::Fail(Error::IllegalState(_))));
    let inner = ex.into_inner();
    assert_eq!(inner.phase(), RunPhase::Idle);
}

#[test]
fn reset_after_a_timeout_with_a_child_is_an_illegal_state() {
    let mut state = state(1);
    let mut ex = StatefulPersistentExecutor::new(executor(ForkserverExecutorBuilder::new()));
    run_until_status(ex.executor_mut(), &mut state, 100);
    assert!(matches!(
        ex.executor_mut().step(RunEvent::StatusRead(None)),
        RunAction::KillAndReadStatus { pid: 100, .. }
    ));
    assert!(matches!(ex.reset_target_state(), Err(Error::IllegalState(_))));
    assert_eq!(ex.executor().forkserver().child_pid(), Some(100));
    assert!(ex.executor().forkserver().last_run_timed_out());
}

#[test]
fn a_timed_reset_is_the_reset_of_the_executor_inside() {
    let mut state = state(1);
    let inner = StatefulPersistentExecutor::new(executor(ForkserverExecutorBuilder::new()));
    let mut perf = libaflstar::perf::executor::ExecutorPerf::new(inner);
    perf.run_target(std::time::Duration::from_nanos(40), &Ok(ExitKind::Okay));
    run_until_status(perf.base_mut().executor_mut(), &mut state, 55);
    perf.base_mut().executor_mut().step(RunEvent::StatusRead(Some(0x137f)));
    assert_eq!(perf.base().executor().forkserver().child_pid(), Some(55));
    assert_eq!(perf.reset_target_state().unwrap(), Some(55));
    assert_eq!(perf.base().executor().forkserver().child_pid(), None);
    assert!(perf.base().executor().forkserver().last_run_timed_out());
    assert_eq!(perf.reset_target_state().unwrap(), None);
    assert_eq!(perf.executions(), 1);
    assert_eq!(perf.exit_kinds().okay, 1);
    assert_eq!(perf.average_ok_nanos(), Some(40));
    assert!(perf.cumulative_time() >= std::time::Duration::from_nanos(40));

    let mut state = self::state(1);
    let inner = StatefulPersistentExecutor::new(executor(ForkserverExecutorBuilder::new()));
    let mut perf = libaflstar::perf::executor::ExecutorPerf::new(inner);
    run_until_status(perf.base_mut().executor_mut(), &mut state, 100);
    assert!(matches!(
        perf.base_mut().executor_mut().step(RunEvent::StatusRead(None)),
        RunAction::KillAndReadStatus { pid: 100, .. }
    ));
    match perf.reset_target_state() {
        Err(Error::IllegalState(message)) => assert_eq!(
            message,
            "Last execution timed out, but there is still a child_pid set."
        ),
        other => panic!("{other:?}"),
    }
    assert_eq!(perf.base().executor().forkserver().child_pid(), Some(100));
    assert_eq!(perf.executions(), 0);
}

#[test]
fn a_timeout_is_noted_and_counted() {
    let mut state = state(2);
    let mut ex = StatefulPersistentExecutor::new(executor(ForkserverExecutorBuilder::new()));
    assert_eq!(ex.run_target(&mut state, &Ok(ExitKind::Okay)), None);
    assert_eq!(ex.run_target(&mut state, &Ok(ExitKind::Crash)), None);
    assert_eq!(ex.run_target(&mut state, &Err(Error::ShuttingDown)), None);
    assert!(!ex.state_reset_occurred());
    assert!(state.executor_meta().is_none());
    assert_eq!(ex.run_target(&mut state, &Ok(ExitKind::Timeout)), Some(1));
    assert!(ex.state_reset_occurred());
    assert!(!ex.state_reset_occurred());
    for timeouts in 2..=45u64 {
        let reported = ex.run_target(&mut state, &Ok(ExitKind::Timeout));
        if timeouts < 20 || timeouts % 20 == 0 {
            assert_eq!(reported, Some(timeouts));
        } else {
            assert_eq!(reported, None);
        }
    }
    assert_eq!(state.executor_meta().unwrap().timeouts(), 45);
    state.switch_state(TargetStateIdx(1)).unwrap();
    assert!(state.executor_meta().is_none());
    assert!(ex.state_reset_occurred());
    ex.run_target(&mut state, &Ok(ExitKind::Timeout));
    ex.reset_target_state().unwrap();
    assert!(!ex.state_reset_occurred());
    let mut meta = StatefulPersistentExecutorMeta { timeouts: 7 };
    meta.increment_timeouts();
    assert_eq!(meta.timeouts(), 8);
}
