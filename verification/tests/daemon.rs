use minimald::boot::{
    begin_boot, boot_step, detached_args, instance_lock_path, lock_held, main_end, relocate,
    rx_window_options, server_config, spawn_detached, vsock_port, BootNext, BootStart, BootStep,
    DetachNext, DetachPoll, MainEnd, Park, StepOutcome, VsockOption,
};
use minimald::cli::{
    error_chain, is_microvm_init, log_mode, microvm_cli, provider_instance_name, userns_fix, Cli,
    Command, GlobalArgs, ListenArgs, LogMode, MainError, UsernsRestriction,
};
use minimald::maintenance::{
    clean_now, clean_outcome, prepare_clean, Mailbox, Maintenance, MaintenanceAction,
    MaintenanceEvent, MaintenanceStage, StaleKind, Wakeup, CLEAN_INTERVAL, STARTUP_DELAY,
    UNUSED_FOR,
};
use minimald::paths;
use minimald::rpc::{CleanReport, Fault, FaultKind};
use minimald::text;

#[test]
fn the_microvm_init_is_pid_1_named_init() {
    assert!(is_microvm_init(1, Some(b"/init")));
    assert!(is_microvm_init(1, Some(b"init")));
}

#[test]
fn a_spoofed_argv0_on_the_host_is_not_the_microvm_init() {
    assert!(!is_microvm_init(4242, Some(b"/init")));
    assert!(!is_microvm_init(4242, Some(b"init")));
}

#[test]
fn pid_1_under_another_name_is_not_the_microvm_init() {
    assert!(!is_microvm_init(1, Some(b"/usr/bin/minimald")));
    assert!(!is_microvm_init(1, Some(b"minimald")));
    assert!(!is_microvm_init(1, None));
}

fn oops(kind: FaultKind, text: &str) -> Fault {
    Fault {
        kind,
        text: text.to_string(),
    }
}

fn args() -> ListenArgs {
    ListenArgs {
        instance_num: 3,
        vsock: false,
        mount_dev: false,
        mount_rootfs: None,
        mk_mount_state_volume: None,
        rlimit_nofile: None,
        timekeep_listener_port: None,
        detach: false,
        gvproxy_bin: Some("/opt/gvproxy".to_string()),
    }
}

fn cli(a: ListenArgs) -> Cli {
    Cli {
        command: Command::Run(a),
        global_args: GlobalArgs {
            minimal_state_dir: None,
            minimal_cache_dir: Some("/cache".to_string()),
            stdlib_dir: None,
            num_parallel_builds: None,
        },
    }
}

#[test]
fn places_follow_from_the_command_line() {
    let c = cli(args());
    assert_eq!(c.minimal_state_dir("/state"), "/state");
    assert_eq!(c.minimal_cache_dir("/usual"), "/cache");
    assert_eq!(c.instance_num(), 3);
    assert_eq!(c.client_instance_dir("/state"), "/state/providers/local-minimald3");
    assert_eq!(c.listen_on("/state"), "/state/providers/local-minimald3/ssh.sock");
    let (options, name) = c.ssh_args("/state", false);
    assert_eq!(name, "local-minimald3");
    assert_eq!(options[0].0, "ProxyCommand");
    assert_eq!(
        options[0].1,
        "socat - UNIX-CONNECT:/state/providers/local-minimald3/ssh.sock"
    );
    assert_eq!(options[1].1, "/state/providers/local-minimald3/known_hosts");
    assert!(c.ssh_args("/state", true).0[0].1.starts_with("nc -U /state"));
    assert_eq!(provider_instance_name(0), "local-minimald0");
    let other = Cli {
        command: Command::Completions {
            shell: "bash".to_string(),
        },
        ..c
    };
    assert!(other.listen_args().is_none());
    assert_eq!(other.instance_num(), 0);
}

#[test]
fn a_microvm_is_told_without_a_command_line() {
    let c = microvm_cli(1048576, 7700);
    let a = c.listen_args().unwrap();
    assert!(a.vsock && a.mount_dev && !a.detach);
    assert_eq!(a.mount_rootfs.as_deref(), Some("/dev/vda"));
    assert_eq!(a.mk_mount_state_volume.as_deref(), Some("/dev/vdb"));
    assert_eq!(a.rlimit_nofile, Some(1048576));
    assert_eq!(a.timekeep_listener_port, Some(7700));
    assert_eq!(c.minimal_state_dir("/x"), "/run/minimal");
    assert_eq!(c.minimal_cache_dir("/x"), "/run/minimal/cache");
}

#[test]
fn logs_go_to_a_file_where_nobody_looks() {
    assert_eq!(log_mode(false, false), LogMode::Console);
    assert_eq!(log_mode(true, false), LogMode::File);
    assert_eq!(log_mode(false, true), LogMode::File);
}

#[test]
fn errors_are_told_with_their_sources() {
    assert_eq!(
        error_chain(&vec!["a".to_string(), "b".to_string(), "c".to_string()]),
        "a: b: c"
    );
    assert_eq!(error_chain(&vec!["a".to_string()]), "a");
    assert!(matches!(MainError::from_key_error("bad"), MainError::Other(e) if e == "ssh key: bad"));
}

#[test]
fn a_restricted_host_is_told_what_to_do() {
    assert_eq!(
        userns_fix(
            UsernsRestriction::ApparmorUnconfined,
            "/data",
            Some("/bin/minimald".to_string())
        ),
        "install minimald's AppArmor profile (one-time, needs root): sudo bash /data/apparmor/install-apparmor-profile.sh --path /bin/minimald (from a checkout: sudo scripts/install-apparmor-profile.sh --path /bin/minimald)"
    );
    assert!(userns_fix(UsernsRestriction::ApparmorUnconfined, "/d", None)
        .contains("<path to this minimald binary>"));
    assert!(userns_fix(UsernsRestriction::Disabled, "/d", None).contains("sysctl"));
    assert_eq!(
        userns_fix(UsernsRestriction::Unknown, "/d", None),
        "see the linux-host-setup doc"
    );
}

fn walk(a: &ListenArgs, microvm: bool) -> Vec<BootStep> {
    let mut steps = Vec::new();
    let c = cli(ListenArgs {
        mount_rootfs: a.mount_rootfs.clone(),
        mk_mount_state_volume: a.mk_mount_state_volume.clone(),
        gvproxy_bin: None,
        ..*a
    });
    let mut step = match begin_boot(&c, microvm) {
        BootStart::Run(s) => s,
        other => panic!("{other:?}"),
    };
    loop {
        steps.push(step);
        match boot_step(a, microvm, step, StepOutcome::Done) {
            BootNext::Do(s) => step = s,
            BootNext::Ended => return steps,
            other => panic!("{other:?}"),
        }
    }
}

#[test]
fn a_daemon_on_a_host_comes_up_on_its_socket() {
    assert_eq!(
        walk(&args(), false),
        vec![
            BootStep::RegisterShim,
            BootStep::CreateStateDir,
            BootStep::ActivateLog,
            BootStep::MigrateProviders,
            BootStep::CreateInstanceDir,
            BootStep::OpenLock,
            BootStep::TakeLock,
            BootStep::WritePid,
            BootStep::ProbeMinvmd,
            BootStep::LoadHostKey,
            BootStep::PruneKnownHosts,
            BootStep::LearnKnownHosts,
            BootStep::WarnUserns,
            BootStep::RemoveSocket,
            BootStep::BindSocket,
            BootStep::ServeSocket,
        ]
    );
}

fn vm_args() -> ListenArgs {
    ListenArgs {
        vsock: true,
        mount_dev: true,
        mount_rootfs: Some("/dev/vda".to_string()),
        mk_mount_state_volume: Some("/dev/vdb".to_string()),
        rlimit_nofile: Some(1024),
        timekeep_listener_port: Some(1),
        gvproxy_bin: None,
        ..args()
    }
}

#[test]
fn a_daemon_in_a_microvm_comes_up_on_its_port() {
    assert_eq!(
        walk(&vm_args(), true),
        vec![
            BootStep::RaiseNofile,
            BootStep::MountDev,
            BootStep::EnterRootfs,
            BootStep::MountState,
            BootStep::CreateStateDir,
            BootStep::ActivateLog,
            BootStep::MigrateProviders,
            BootStep::CreateInstanceDir,
            BootStep::OpenLock,
            BootStep::TakeLock,
            BootStep::WritePid,
            BootStep::ProbeMinvmd,
            BootStep::LoadHostKey,
            BootStep::PruneKnownHosts,
            BootStep::LearnKnownHosts,
            BootStep::WarnUserns,
            BootStep::FollowClock,
            BootStep::BindVsock,
            BootStep::WidenWindow,
            BootStep::EmitReady,
            BootStep::BringUpEgress,
            BootStep::ServeVsock,
        ]
    );
}

#[test]
fn a_volume_that_does_not_mount_is_not_replaced() {
    let failed = || StepOutcome::Failed(oops(FaultKind::Other, "no such device"));
    assert!(matches!(
        boot_step(&vm_args(), true, BootStep::MountState, failed()),
        BootNext::Park(Park::NoState { error }) if error == "no such device"
    ));
    let native = ListenArgs {
        vsock: false,
        ..vm_args()
    };
    assert!(matches!(
        boot_step(&native, false, BootStep::MountState, failed()),
        BootNext::Fail(MainError::IO(_, "mounting the state volume"))
    ));
    assert!(matches!(
        boot_step(&vm_args(), true, BootStep::EnterRootfs, failed()),
        BootNext::Park(Park::NoRoot)
    ));
}

#[test]
fn a_second_daemon_does_not_come_up() {
    let busy = StepOutcome::Failed(oops(FaultKind::WouldBlock, "held"));
    match boot_step(&args(), false, BootStep::TakeLock, busy) {
        BootNext::Fail(MainError::Other(e)) => assert_eq!(
            e,
            "minimald local-minimald3 is already running (instance lock held)"
        ),
        other => panic!("{other:?}"),
    }
    match boot_step(&args(), false, BootStep::ProbeMinvmd, StepOutcome::Held) {
        BootNext::Fail(MainError::Other(e)) => assert_eq!(
            e,
            "a minvmd VM is serving local-minimald3's socket; stop it first (`minvmd stop`)"
        ),
        other => panic!("{other:?}"),
    }
}

#[test]
fn failures_that_do_not_matter_are_passed_over() {
    let a = vm_args();
    let failed = |kind| StepOutcome::Failed(oops(kind, "x"));
    for (step, next) in [
        (BootStep::RaiseNofile, BootStep::MountDev),
        (BootStep::ActivateLog, BootStep::MigrateProviders),
        (BootStep::WritePid, BootStep::ProbeMinvmd),
        (BootStep::PruneKnownHosts, BootStep::LearnKnownHosts),
        (BootStep::WidenWindow, BootStep::EmitReady),
        (BootStep::EmitReady, BootStep::BringUpEgress),
        (BootStep::BringUpEgress, BootStep::ServeVsock),
    ] {
        assert!(
            matches!(boot_step(&a, true, step, failed(FaultKind::Other)), BootNext::Do(s) if s == next)
        );
    }
    assert!(matches!(
        boot_step(&args(), false, BootStep::CreateStateDir, failed(FaultKind::AlreadyExists)),
        BootNext::Do(BootStep::ActivateLog)
    ));
    assert!(matches!(
        boot_step(&args(), false, BootStep::CreateStateDir, failed(FaultKind::Other)),
        BootNext::Fail(MainError::IO(_, "creating minimal dir"))
    ));
    assert!(matches!(
        boot_step(&args(), false, BootStep::RemoveSocket, failed(FaultKind::NotFound)),
        BootNext::Do(BootStep::BindSocket)
    ));
    assert!(matches!(
        boot_step(&args(), false, BootStep::RemoveSocket, failed(FaultKind::Other)),
        BootNext::Fail(MainError::IO(_, "socket already in use"))
    ));
    for (step, what) in [
        (BootStep::CreateInstanceDir, "creating provider dir"),
        (BootStep::OpenLock, "opening instance lock"),
        (BootStep::TakeLock, "acquiring instance lock"),
        (BootStep::ProbeMinvmd, "probing minvmd lock"),
        (BootStep::BindSocket, "listening to socket"),
        (BootStep::ServeSocket, "serving on UDS"),
        (BootStep::BindVsock, "binding vsock port"),
        (BootStep::ServeVsock, "serving on guest vsock"),
    ] {
        assert!(
            matches!(boot_step(&args(), false, step, failed(FaultKind::Other)), BootNext::Fail(MainError::IO(_, w)) if w == what)
        );
    }
    assert!(matches!(
        boot_step(&args(), false, BootStep::LoadHostKey, failed(FaultKind::Other)),
        BootNext::Fail(MainError::Other(e)) if e == "ssh key: x"
    ));
}

#[test]
fn only_socket_listeners_go_to_the_background() {
    let detach = |vsock| {
        cli(ListenArgs {
            detach: true,
            vsock,
            ..args()
        })
    };
    assert!(matches!(
        begin_boot(&detach(false), false),
        BootStart::SpawnDetached
    ));
    assert!(matches!(
        begin_boot(&detach(true), false),
        BootStart::Refused(MainError::Other(e)) if e == "--detach is only supported for Unix-socket listeners (not --vsock)"
    ));
    assert_eq!(
        detached_args(&vec![
            "run".to_string(),
            "--detach".to_string(),
            "--instance-num".to_string(),
            "2".to_string()
        ]),
        vec!["run", "--instance-num", "2"]
    );
}

fn poll() -> DetachPoll {
    DetachPoll {
        exited: Ok(None),
        connectable: false,
        lock_held: Ok(false),
        late: false,
    }
}

#[test]
fn a_daemon_in_the_background_is_up_with_its_socket_and_lock() {
    let text = |next| match next {
        DetachNext::Failed(MainError::Other(e)) => e,
        other => panic!("{other:?}"),
    };
    assert!(matches!(spawn_detached(poll(), "/s"), DetachNext::Wait));
    let connectable = DetachPoll {
        connectable: true,
        ..poll()
    };
    assert!(matches!(spawn_detached(connectable, "/s"), DetachNext::Wait));
    let ready = DetachPoll {
        connectable: true,
        lock_held: Ok(true),
        late: true,
        ..poll()
    };
    assert!(matches!(spawn_detached(ready, "/s"), DetachNext::Ready));
    let late = DetachPoll {
        late: true,
        ..poll()
    };
    assert_eq!(
        text(spawn_detached(late, "/s.sock")),
        "detached minimald did not start listening on /s.sock within 8s"
    );
    let exited = DetachPoll {
        exited: Ok(Some("exit status: 1".to_string())),
        ..poll()
    };
    assert_eq!(
        text(spawn_detached(exited, "/s")),
        "detached minimald exited during startup (exit status: 1); run without --detach to see the error"
    );
    let unpolled = DetachPoll {
        exited: Err(oops(FaultKind::Other, "x")),
        ..poll()
    };
    assert!(matches!(
        spawn_detached(unpolled, "/s"),
        DetachNext::Failed(MainError::IO(_, "polling detached minimald"))
    ));
    let unprobed = DetachPoll {
        connectable: true,
        lock_held: Err(oops(FaultKind::Other, "x")),
        ..poll()
    };
    assert!(matches!(
        spawn_detached(unprobed, "/s"),
        DetachNext::Failed(MainError::IO(_, "probing instance lock"))
    ));
}

#[test]
fn a_lock_is_held_where_it_cannot_be_shared() {
    let err = |kind| Err(oops(kind, "x"));
    assert!(!lock_held(err(FaultKind::NotFound), Ok(())).unwrap());
    assert!(lock_held(err(FaultKind::Other), Ok(())).is_err());
    assert!(!lock_held(Ok(()), Ok(())).unwrap());
    assert!(lock_held(Ok(()), err(FaultKind::WouldBlock)).unwrap());
    assert!(lock_held(Ok(()), err(FaultKind::Other)).is_err());
}

#[test]
fn state_moves_onto_its_volume() {
    let mut c = cli(args());
    relocate(&mut c, "/var/lib/minimal");
    assert_eq!(c.minimal_state_dir("/x"), "/var/lib/minimal");
    assert_eq!(c.minimal_cache_dir("/x"), "/var/lib/minimal/cache");
    assert_eq!(
        instance_lock_path(&c, "/x", false, "minimald.lock"),
        "/var/lib/minimal/providers/local-minimald3/minimald.lock"
    );
    assert_eq!(
        instance_lock_path(&c, "/x", true, "minimald.lock"),
        "/run/minimald-local-minimald3.lock"
    );
    let a = args();
    let config = server_config(&c, &a, "/x", "/y", true);
    assert_eq!(
        config.host_key_path,
        "/var/lib/minimal/providers/local-minimald3/ssh_host_ed25519_key"
    );
    assert_eq!(config.gvproxy_bin.as_deref(), Some("/opt/gvproxy"));
    assert!(!config.in_microvm && config.state_volume_mounted);
    assert_eq!(vsock_port(5), 2227);
    assert_eq!(main_end(true), MainEnd::ShutDownVm);
    assert_eq!(main_end(false), MainEnd::Return);
    assert_eq!(
        rx_window_options(),
        vec![VsockOption::BufferMaxSize, VsockOption::BufferSize]
    );
}

#[test]
fn a_shutdown_comes_before_a_request_and_a_request_before_the_clock() {
    let m = Maintenance::new(0);
    assert_eq!(m.next_tick, STARTUP_DELAY);
    let request = Mailbox::Request { older_than: None };
    assert_eq!(m.wake(true, request, u128::MAX), Some(Wakeup::Shutdown));
    assert_eq!(
        m.wake(false, request, u128::MAX),
        Some(Wakeup::CleanNow { older_than: None })
    );
    assert_eq!(m.wake(false, Mailbox::Closed, 0), Some(Wakeup::Closed));
    assert_eq!(m.wake(false, Mailbox::Empty, STARTUP_DELAY), Some(Wakeup::Tick));
    assert_eq!(m.wake(false, Mailbox::Empty, STARTUP_DELAY - 1), None);
}

#[test]
fn a_requested_clean_is_answered_after_the_trim() {
    let m = Maintenance::new(0);
    let (m, action) = m.step(MaintenanceEvent::Woke(Wakeup::CleanNow { older_than: Some(9) }));
    assert_eq!(action, MaintenanceAction::Clean { older_than: 9 });
    let report = CleanReport {
        entries: 1,
        dirs: 0,
    };
    let (m, action) = m.step(MaintenanceEvent::Cleaned {
        report: Ok(report),
        mounted: true,
        now: 10,
    });
    assert_eq!(action, MaintenanceAction::Trim);
    let (m, action) = m.step(MaintenanceEvent::Trimmed { now: 20 });
    assert_eq!(action, MaintenanceAction::Answer);
    assert!(matches!(&m.stage, MaintenanceStage::Answering { report: Ok(r) } if *r == report));
    let (m, action) = m.step(MaintenanceEvent::Answered { now: 30 });
    assert_eq!(action, MaintenanceAction::Wait);
    assert_eq!(m.next_tick, 30 + CLEAN_INTERVAL);
}

#[test]
fn a_clean_that_fails_is_not_trimmed() {
    let m = Maintenance::new(0);
    let (m, action) = m.step(MaintenanceEvent::Woke(Wakeup::Tick));
    assert_eq!(action, MaintenanceAction::Clean { older_than: UNUSED_FOR });
    let (m, action) = m.step(MaintenanceEvent::Cleaned {
        report: Err(oops(FaultKind::Other, "x")),
        mounted: true,
        now: 5,
    });
    assert_eq!(action, MaintenanceAction::Wait);
    assert_eq!(m.next_tick, 5 + CLEAN_INTERVAL);
    let (m, action) = m.step(MaintenanceEvent::Woke(Wakeup::Shutdown));
    assert_eq!(action, MaintenanceAction::Stop);
    assert!(matches!(m.stage, MaintenanceStage::Stopped));
}

#[test]
fn a_clean_needs_to_know_what_is_needed() {
    let request = prepare_clean(
        60,
        Ok(vec!["h1".to_string()]),
        "/c/builds",
        "/c/tasks",
        "/c",
        "daemon-7",
    )
    .unwrap();
    assert_eq!(request.daemon_id, "daemon-7");
    assert_eq!(request.older_than, 60);
    assert_eq!(request.keep, vec!["h1"]);
    assert_eq!(
        request.sweep,
        vec![
            (StaleKind::Sandbox, "/c/builds".to_string()),
            (StaleKind::Task, "/c/tasks".to_string()),
            (StaleKind::TempDir, "/c/temp".to_string()),
        ]
    );
    let unknown = prepare_clean(60, Err(oops(FaultKind::Other, "no answer")), "", "", "", "");
    assert_eq!(unknown.unwrap_err().text, "no answer");
    assert_eq!(clean_outcome(Err("boom".to_string())).unwrap_err().text, "boom");
    let gone = clean_now(None).unwrap_err();
    assert_eq!(gone.kind, FaultKind::NotConnected);
    assert_eq!(gone.text, "maintenance actor is gone");
}

#[test]
fn what_stays_inside_keeps_the_directory() {
    let chars = |s: &str| s.chars().collect::<Vec<char>>();
    for (base, rel) in [("/a/b", "c/./d"), ("/a/b/", "./c"), ("", "x/y"), (".", "x")] {
        assert!(paths::inside(&chars(rel)));
        let joined = paths::join(base, rel);
        let all = chars(&joined);
        let names: Vec<String> = paths::split_components(&all)
            .iter()
            .map(|s| all[s.start..s.end].iter().collect())
            .collect();
        let own = chars(base);
        let prefix: Vec<String> = paths::split_components(&own)
            .iter()
            .map(|s| own[s.start..s.end].iter().collect())
            .collect();
        assert_eq!(&names[..prefix.len()], &prefix[..]);
        assert!(!names[prefix.len()..].iter().any(|n| n == ".."));
    }
}

#[test]
fn paths_are_taken_apart_as_text() {
    assert_eq!(paths::join("/a", "b"), "/a/b");
    assert_eq!(paths::join("/a/", "b"), "/a/b");
    assert_eq!(paths::join("/a", "/b"), "/b");
    assert_eq!(paths::file_name("/a/b/").as_deref(), Some("b"));
    assert_eq!(paths::file_name("/a/..").as_deref(), None);
    assert_eq!(paths::set_file_name("/a/b", ".b.tmp"), "/a/.b.tmp");
}

#[test]
fn numbers_and_words_are_read_back() {
    assert_eq!(text::decimal(0), "0");
    assert_eq!(text::decimal(u128::MAX), "340282366920938463463374607431768211455");
    assert_eq!(text::parse_u32("4294967295"), Some(u32::MAX));
    assert_eq!(text::parse_u32("4294967296"), None);
    assert_eq!(text::parse_u32("+7"), Some(7));
    assert_eq!(text::parse_u32(""), None);
    assert_eq!(text::split_words(" a\tb\n"), vec!["a", "b"]);
    assert!(text::white('\u{2003}'));
}
