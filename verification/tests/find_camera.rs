use bc_camera::{
    BcCameraOpt, CameraLocation, Command, ConnectionProtocol, Credentials, DiscoveryFlags,
    DiscoveryMethods, Error, Event, FindCamera, IpAddr, Method, Progress, Round, SocketAddr,
};

/// How a scripted operation ends.
#[derive(Clone, Copy)]
enum Outcome {
    Works,
    Finds { addr: SocketAddr },
    Fails,
    Hangs,
}

/// A network whose every operation is scripted; by default all of them fail.
struct Script {
    on_check_tcp: Outcome,
    on_open: Outcome,
    on_local: Outcome,
    on_get_registration: Outcome,
    on_remote: Outcome,
    on_map: Outcome,
    on_relay: Outcome,
}

impl Script {
    fn new() -> Self {
        Script {
            on_check_tcp: Outcome::Fails,
            on_open: Outcome::Works,
            on_local: Outcome::Fails,
            on_get_registration: Outcome::Fails,
            on_remote: Outcome::Fails,
            on_map: Outcome::Fails,
            on_relay: Outcome::Fails,
        }
    }
}

/// What a search came to, what was done for it, and how long it took.
struct Report {
    result: Result<CameraLocation<SocketAddr>, Error>,
    methods: Vec<&'static str>,
    elapsed_ms: u64,
    registration_error: Option<String>,
}

fn scripted_error() -> Error {
    Error::Other("scripted".to_string())
}

fn probed(method: Method, outcome: Outcome) -> Option<Event<SocketAddr>> {
    match outcome {
        Outcome::Finds { addr } => Some(Event::Probed(method, Ok(addr))),
        Outcome::Hangs => None,
        _ => Some(Event::Probed(method, Err(scripted_error()))),
    }
}

/// Runs a search in simulated time: events happen in the order in which they
/// are due. Panics if the search waits for something that never happens.
fn run(opts: &BcCameraOpt, script: Script) -> Report {
    let mut now: u64 = 0;
    let mut methods: Vec<&'static str> = Vec::new();
    let mut due: Vec<(u64, Event<SocketAddr>)> = Vec::new();
    let (mut search, mut progress): (FindCamera, Progress<SocketAddr>) =
        FindCamera::start(opts, flags_for(opts.discovery));
    loop {
        let commands = match progress {
            Progress::Waiting(commands) => commands,
            Progress::Found(location) => {
                assert!(search.is_finished());
                return Report {
                    result: Ok(location),
                    methods,
                    elapsed_ms: now,
                    registration_error: None,
                };
            }
            Progress::Failed(error) => {
                assert!(search.is_finished());
                return Report {
                    result: Err(error),
                    methods,
                    elapsed_ms: now,
                    registration_error: search.registration_error().map(|e| format!("{e:?}")),
                };
            }
        };
        for command in commands {
            let (name, delay, event) = match command {
                Command::CheckTcp { .. } => (
                    "check_tcp",
                    0,
                    match script.on_check_tcp {
                        Outcome::Works => Some(Event::TcpChecked { reachable: true }),
                        Outcome::Hangs => None,
                        _ => Some(Event::TcpChecked { reachable: false }),
                    },
                ),
                Command::SearchLocally { .. } => ("local", 0, probed(Method::Local, script.on_local)),
                Command::OpenDiscoverer => (
                    "open",
                    0,
                    match script.on_open {
                        Outcome::Works => Some(Event::Opened(Ok(()))),
                        Outcome::Hangs => None,
                        _ => Some(Event::Opened(Err(scripted_error()))),
                    },
                ),
                Command::Register { timeout_secs, .. } => match script.on_get_registration {
                    Outcome::Works => (
                        "get_registration",
                        0,
                        Some(Event::RoundEnded(Round::Registered)),
                    ),
                    Outcome::Hangs => (
                        "get_registration",
                        timeout_secs * 1000,
                        Some(Event::RoundEnded(Round::TimedOut)),
                    ),
                    _ => (
                        "get_registration",
                        0,
                        Some(Event::RoundEnded(Round::Refused(scripted_error()))),
                    ),
                },
                Command::BackOff { secs } => ("sleep", secs * 1000, Some(Event::BackoffElapsed)),
                Command::ConnectRemote { .. } => {
                    ("remote", 0, probed(Method::Remote, script.on_remote))
                }
                Command::ConnectMapped { delay_ms } => {
                    ("map", delay_ms, probed(Method::Mapped, script.on_map))
                }
                Command::ConnectRelayed { delay_ms } => {
                    ("relay", delay_ms, probed(Method::Relayed, script.on_relay))
                }
            };
            methods.push(name);
            if let Some(event) = event {
                due.push((now + delay, event));
            }
        }
        assert!(!due.is_empty(), "the search hangs");
        due.sort_by_key(|(when, _)| *when);
        let (when, event) = due.remove(0);
        now = when;
        progress = search.step(event);
    }
}

/// The arms behind each method.
fn flags_for(discovery: DiscoveryMethods) -> DiscoveryFlags {
    let (local, remote, map, relay) = match discovery {
        DiscoveryMethods::Disabled => (false, false, false, false),
        DiscoveryMethods::Local => (true, false, false, false),
        DiscoveryMethods::Remote => (true, true, false, false),
        DiscoveryMethods::Mapped => (true, true, true, false),
        DiscoveryMethods::Relay => (true, true, true, true),
        DiscoveryMethods::Cloud => unreachable!(),
    };
    DiscoveryFlags {
        local,
        remote,
        map,
        relay,
    }
}

fn localhost() -> IpAddr {
    IpAddr::V4([127, 0, 0, 1])
}

fn at(port: u16) -> SocketAddr {
    SocketAddr {
        ip: localhost(),
        port,
    }
}

fn base_opts() -> BcCameraOpt {
    BcCameraOpt {
        name: "cam-guard".into(),
        channel_id: 0,
        addrs: vec![],
        uid: None,
        port: None,
        protocol: ConnectionProtocol::Udp,
        discovery: DiscoveryMethods::Local,
        max_discovery_retries: 1,
        credentials: Credentials::new("admin".to_string(), None),
        cloud_account: None,
        cloud_password: None,
        cloud_mfa_trust_token: None,
        cloud_refresh_token: None,
        debug: false,
    }
}

fn opts_udp_with_uid() -> BcCameraOpt {
    let mut opts = base_opts();
    opts.name = "cam".into();
    opts.uid = Some("UID".into());
    opts
}

fn opts_tcp(uid: Option<&str>, protocol: ConnectionProtocol) -> BcCameraOpt {
    let mut opts = base_opts();
    opts.name = "cam".into();
    opts.addrs = vec![localhost()];
    opts.uid = uid.map(|uid| uid.to_string());
    opts.port = Some(9000);
    opts.protocol = protocol;
    opts
}

#[test]
fn find_camera_udp_without_uid_yields_cannot_init() {
    let opts = base_opts();
    let err = run(&opts, Script::new()).result.expect_err("must err");
    assert!(
        matches!(err, Error::CannotInitCamera),
        "expected CannotInitCamera, got {err:?}"
    );
}

#[test]
fn find_camera_tcp_empty_addrs_falls_through() {
    let mut opts = base_opts();
    opts.protocol = ConnectionProtocol::Tcp;
    let err = run(&opts, Script::new()).result.expect_err("must err");
    assert!(matches!(err, Error::CannotInitCamera));
}

#[test]
fn find_camera_tcp_udp_no_uid_no_addr_falls_through() {
    let mut opts = base_opts();
    opts.protocol = ConnectionProtocol::TcpUdp;
    let err = run(&opts, Script::new()).result.expect_err("must err");
    assert!(matches!(err, Error::CannotInitCamera));
}

#[test]
fn find_camera_tcp_with_closed_port_falls_through_to_cannot_init() {
    let mut opts = base_opts();
    opts.protocol = ConnectionProtocol::Tcp;
    opts.addrs = vec![localhost()];
    opts.port = Some(1);
    let report = run(&opts, Script::new());
    let err = report.result.expect_err("must err");
    assert!(matches!(err, Error::CannotInitCamera));
    assert_eq!(report.methods, vec!["check_tcp", "check_tcp"]);
}

#[test]
fn find_camera_udp_all_methods_disabled_returns_discovery_timeout() {
    let mut opts = base_opts();
    opts.uid = Some("UID123".into());
    opts.discovery = DiscoveryMethods::Disabled;
    let err = run(&opts, Script::new())
        .result
        .expect_err("no methods, so err");
    assert!(
        matches!(err, Error::DiscoveryTimeout),
        "expected DiscoveryTimeout, got {err:?}",
    );
}

#[test]
fn local_succeeds_skips_remote_map_relay() {
    let mut sc = Script::new();
    sc.on_local = Outcome::Finds { addr: at(9000) };
    let opts = opts_udp_with_uid();
    let report = run(&opts, sc);
    let loc = report.result.expect("ok");
    assert!(matches!(loc, CameraLocation::Udp(addr) if addr == at(9000)));
    assert!(report.methods.contains(&"local"));
    assert!(!report.methods.contains(&"remote"));
}

#[test]
fn local_err_remote_err_map_err_relay_ok_wins() {
    let mut sc = Script::new();
    sc.on_get_registration = Outcome::Works;
    sc.on_relay = Outcome::Finds { addr: at(9001) };
    let mut opts = opts_udp_with_uid();
    opts.discovery = DiscoveryMethods::Relay;
    let report = run(&opts, sc);
    let loc = report.result.expect("ok");
    assert!(matches!(loc, CameraLocation::Udp(_)));
    assert!(report.methods.contains(&"get_registration"));
    assert!(report.methods.contains(&"relay"));
}

#[test]
fn all_methods_disabled_short_circuits_to_timeout() {
    let mut opts = opts_udp_with_uid();
    opts.discovery = DiscoveryMethods::Disabled;
    let report = run(&opts, Script::new());
    let err = report.result.expect_err("should err");
    assert!(matches!(err, Error::DiscoveryTimeout));
    assert!(report.methods.is_empty());
}

#[test]
fn registration_fails_until_max_retries_exhausted() {
    let mut opts = opts_udp_with_uid();
    opts.discovery = DiscoveryMethods::Relay;
    opts.max_discovery_retries = 1;
    let report = run(&opts, Script::new());
    let err = report.result.expect_err("should err");
    assert!(matches!(err, Error::DiscoveryTimeout));
    assert!(report.elapsed_ms < 4000);
    let rounds = report
        .methods
        .iter()
        .filter(|name| **name == "get_registration")
        .count();
    assert_eq!(rounds, 2);
    assert_eq!(
        report.registration_error.as_deref(),
        Some("Other(\"scripted\")")
    );
}

#[test]
fn map_wins_when_local_and_remote_fail() {
    let mut sc = Script::new();
    sc.on_local = Outcome::Fails;
    sc.on_get_registration = Outcome::Works;
    sc.on_remote = Outcome::Fails;
    sc.on_map = Outcome::Finds { addr: at(9002) };
    let mut opts = opts_udp_with_uid();
    opts.discovery = DiscoveryMethods::Mapped;
    let report = run(&opts, sc);
    let loc = report.result.expect("ok");
    assert!(matches!(loc, CameraLocation::Udp(_)));
    assert!(report.methods.contains(&"map"));
}

#[test]
fn remote_wins_when_local_fails() {
    let mut sc = Script::new();
    sc.on_local = Outcome::Fails;
    sc.on_get_registration = Outcome::Works;
    sc.on_remote = Outcome::Finds { addr: at(9003) };
    let mut opts = opts_udp_with_uid();
    opts.discovery = DiscoveryMethods::Remote;
    let report = run(&opts, sc);
    let loc = report.result.expect("ok");
    assert!(matches!(loc, CameraLocation::Udp(_)));
    assert!(report.methods.contains(&"remote"));
}

#[test]
fn relay_err_is_recorded_and_falls_through_to_timeout() {
    let mut sc = Script::new();
    sc.on_get_registration = Outcome::Works;
    let mut opts = opts_udp_with_uid();
    opts.discovery = DiscoveryMethods::Relay;
    let report = run(&opts, sc);
    let err = report.result.expect_err("should err");
    assert!(matches!(err, Error::DiscoveryTimeout));
    assert!(report.methods.contains(&"relay"));
    assert_eq!(report.elapsed_ms, 500);
}

#[test]
fn map_err_is_recorded() {
    let mut sc = Script::new();
    sc.on_get_registration = Outcome::Works;
    let mut opts = opts_udp_with_uid();
    opts.discovery = DiscoveryMethods::Mapped;
    let report = run(&opts, sc);
    assert!(matches!(report.result, Err(Error::DiscoveryTimeout)));
    assert!(!report.methods.contains(&"relay"));
}

#[test]
fn remote_err_is_recorded() {
    let mut sc = Script::new();
    sc.on_get_registration = Outcome::Works;
    let mut opts = opts_udp_with_uid();
    opts.discovery = DiscoveryMethods::Remote;
    let report = run(&opts, sc);
    assert!(matches!(report.result, Err(Error::DiscoveryTimeout)));
    assert!(!report.methods.contains(&"map"));
}

#[test]
fn tcp_with_discoverer_path_succeeds_via_check_tcp() {
    let mut sc = Script::new();
    sc.on_check_tcp = Outcome::Works;
    let opts = opts_tcp(None, ConnectionProtocol::Tcp);
    let report = run(&opts, sc);
    let loc = report.result.expect("ok");
    assert!(matches!(loc, CameraLocation::Tcp(addr) if addr == at(9000)));
    assert_eq!(report.methods, vec!["check_tcp"]);
}

#[test]
fn tcp_check_fails_falls_through_to_cannot_init_without_uid() {
    let mut sc = Script::new();
    sc.on_check_tcp = Outcome::Fails;
    let opts = opts_tcp(None, ConnectionProtocol::Tcp);
    let err = run(&opts, sc).result.expect_err("should err");
    assert!(matches!(err, Error::CannotInitCamera));
}

#[test]
fn tcp_udp_hybrid_tcp_success_wins_without_uid_check() {
    let mut sc = Script::new();
    sc.on_check_tcp = Outcome::Works;
    let opts = opts_tcp(Some("UID"), ConnectionProtocol::TcpUdp);
    let report = run(&opts, sc);
    assert!(matches!(report.result.expect("ok"), CameraLocation::Tcp(_)));
    assert!(report.methods.contains(&"check_tcp"));
    assert!(
        !report.methods.contains(&"local"),
        "local must not be called"
    );
}

#[test]
fn local_ok_cancels_remote_map_relay_hangers() {
    let mut sc = Script::new();
    sc.on_local = Outcome::Finds { addr: at(9000) };
    sc.on_get_registration = Outcome::Hangs;
    sc.on_remote = Outcome::Hangs;
    sc.on_map = Outcome::Hangs;
    sc.on_relay = Outcome::Hangs;
    let mut opts = opts_udp_with_uid();
    opts.discovery = DiscoveryMethods::Relay;
    let report = run(&opts, sc);
    let loc = report.result.expect("local must win quickly");
    assert!(matches!(loc, CameraLocation::Udp(_)));
    assert!(report.methods.contains(&"local"));
}

#[test]
fn remote_ok_wins_when_local_and_map_relay_hang() {
    let mut sc = Script::new();
    sc.on_local = Outcome::Hangs;
    sc.on_get_registration = Outcome::Works;
    sc.on_remote = Outcome::Finds { addr: at(9001) };
    sc.on_map = Outcome::Hangs;
    sc.on_relay = Outcome::Hangs;
    let mut opts = opts_udp_with_uid();
    opts.discovery = DiscoveryMethods::Relay;
    let report = run(&opts, sc);
    let loc = report.result.expect("remote must win, others cancelled");
    assert!(matches!(loc, CameraLocation::Udp(addr) if addr == at(9001)));
    assert!(report.methods.contains(&"remote"));
}

#[test]
fn map_ok_wins_when_local_remote_and_relay_hang() {
    let mut sc = Script::new();
    sc.on_local = Outcome::Hangs;
    sc.on_get_registration = Outcome::Works;
    sc.on_remote = Outcome::Hangs;
    sc.on_map = Outcome::Finds { addr: at(9002) };
    sc.on_relay = Outcome::Hangs;
    let mut opts = opts_udp_with_uid();
    opts.discovery = DiscoveryMethods::Relay;
    let report = run(&opts, sc);
    let loc = report.result.expect("map must win, relay sleep cancelled");
    assert!(matches!(loc, CameraLocation::Udp(_)));
    assert!(report.methods.contains(&"map"));
    assert_eq!(report.elapsed_ms, 250);
}

#[test]
fn tcp_failure_goes_on_to_udp() {
    let mut sc = Script::new();
    sc.on_local = Outcome::Finds { addr: at(2018) };
    let opts = opts_tcp(Some("UID"), ConnectionProtocol::TcpUdp);
    let report = run(&opts, sc);
    assert!(matches!(report.result.expect("ok"), CameraLocation::Udp(_)));
    assert_eq!(report.methods, vec!["check_tcp", "local"]);
}

#[test]
fn tcp_only_never_uses_udp() {
    let opts = opts_tcp(Some("UID"), ConnectionProtocol::Tcp);
    let report = run(&opts, Script::new());
    assert!(matches!(report.result, Err(Error::CannotInitCamera)));
    assert_eq!(report.methods, vec!["check_tcp"]);
}

#[test]
fn udp_only_never_checks_tcp() {
    let opts = opts_tcp(Some("UID"), ConnectionProtocol::Udp);
    let report = run(&opts, Script::new());
    assert!(matches!(report.result, Err(Error::DiscoveryTimeout)));
    assert_eq!(report.methods, vec!["local"]);
}

#[test]
fn backoff_doubles_up_to_its_cap() {
    let mut opts = opts_udp_with_uid();
    opts.discovery = DiscoveryMethods::Relay;
    opts.max_discovery_retries = 8;
    let report = run(&opts, Script::new());
    assert!(matches!(report.result, Err(Error::DiscoveryTimeout)));
    // 1 + 2 + 4 + 8 + 16, then 30 three times.
    assert_eq!(report.elapsed_ms, 121_000);
    let opened = report.methods.iter().filter(|name| **name == "open").count();
    assert_eq!(opened, 9);
}

#[test]
fn hung_rounds_are_cut_short() {
    let mut sc = Script::new();
    sc.on_get_registration = Outcome::Hangs;
    let mut opts = opts_udp_with_uid();
    opts.discovery = DiscoveryMethods::Relay;
    let report = run(&opts, sc);
    assert!(matches!(report.result, Err(Error::DiscoveryTimeout)));
    assert_eq!(report.elapsed_ms, 17_000);
    assert_eq!(
        report.registration_error.as_deref(),
        Some("DiscoveryTimeout")
    );
}

#[test]
fn unopened_discoverer_ends_the_registration_arm() {
    let mut sc = Script::new();
    sc.on_open = Outcome::Fails;
    let mut opts = opts_udp_with_uid();
    opts.discovery = DiscoveryMethods::Relay;
    let report = run(&opts, sc);
    assert!(matches!(report.result, Err(Error::DiscoveryTimeout)));
    assert!(!report.methods.contains(&"get_registration"));
}

#[test]
fn commands_carry_uid_sockets_and_channel() {
    let mut opts = opts_tcp(Some("UID"), ConnectionProtocol::TcpUdp);
    opts.channel_id = 4;
    opts.discovery = DiscoveryMethods::Relay;
    let (mut search, progress): (FindCamera, Progress<SocketAddr>) =
        FindCamera::start(&opts, flags_for(opts.discovery));
    match progress {
        Progress::Waiting(commands) => match &commands[..] {
            [Command::CheckTcp { socket, channel_id }] => {
                assert_eq!((*socket, *channel_id), (at(9000), 4));
            }
            other => panic!("unexpected: {other:?}"),
        },
        other => panic!("unexpected: {other:?}"),
    }
    match search.step::<SocketAddr>(Event::TcpChecked { reachable: false }) {
        Progress::Waiting(commands) => match &commands[..] {
            [Command::SearchLocally { uid, sockets }, Command::OpenDiscoverer] => {
                assert_eq!(uid, "UID");
                assert_eq!(sockets, &vec![at(9000), at(2015), at(2018)]);
            }
            other => panic!("unexpected: {other:?}"),
        },
        other => panic!("unexpected: {other:?}"),
    }
    match search.step::<SocketAddr>(Event::Opened(Ok(()))) {
        Progress::Waiting(commands) => match &commands[..] {
            [Command::Register { uid, timeout_secs }] => {
                assert_eq!((uid.as_str(), *timeout_secs), ("UID", 8));
            }
            other => panic!("unexpected: {other:?}"),
        },
        other => panic!("unexpected: {other:?}"),
    }
    match search.step::<SocketAddr>(Event::RoundEnded(Round::Registered)) {
        Progress::Waiting(commands) => match &commands[..] {
            [Command::ConnectRemote { uid }, Command::ConnectMapped { delay_ms: map_delay }, Command::ConnectRelayed {
                delay_ms: relay_delay,
            }] => {
                assert_eq!(uid, "UID");
                assert_eq!((*map_delay, *relay_delay), (250, 500));
            }
            other => panic!("unexpected: {other:?}"),
        },
        other => panic!("unexpected: {other:?}"),
    }
    assert!(search.registration_error().is_none());
}

#[test]
fn stray_and_late_events_are_ignored() {
    let opts = opts_udp_with_uid();
    let (mut search, _): (FindCamera, Progress<SocketAddr>) =
        FindCamera::start(&opts, flags_for(opts.discovery));
    assert!(matches!(
        search.step(Event::Probed(Method::Relayed, Ok(at(1)))),
        Progress::Waiting(commands) if commands.is_empty()
    ));
    assert!(matches!(
        search.step(Event::Probed(Method::Local, Ok(at(2)))),
        Progress::Found(CameraLocation::Udp(addr)) if addr == at(2)
    ));
    assert!(search.is_finished());
    assert!(matches!(
        search.step(Event::Probed(Method::Local, Ok(at(3)))),
        Progress::Waiting(commands) if commands.is_empty()
    ));
}

#[test]
fn locations_are_described_by_kind() {
    let tcp: CameraLocation<u8> = CameraLocation::Tcp(at(9000));
    assert_eq!(tcp.describe("127.0.0.1:9000"), "Tcp(127.0.0.1:9000)");
    let udp: CameraLocation<u8> = CameraLocation::Udp(7);
    assert_eq!(udp.describe("10.0.0.1:2018"), "Udp(10.0.0.1:2018)");
}

#[test]
fn each_way_to_connect_is_started_once() {
    let mut sc = Script::new();
    sc.on_get_registration = Outcome::Works;
    let mut opts = opts_udp_with_uid();
    opts.discovery = DiscoveryMethods::Relay;
    opts.max_discovery_retries = 3;
    let report = run(&opts, sc);
    for name in ["remote", "map", "relay", "get_registration"] {
        let count = report.methods.iter().filter(|done| **done == name).count();
        assert_eq!(count, 1, "{name}");
    }
}
