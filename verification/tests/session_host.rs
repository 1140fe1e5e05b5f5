use minimald::binding::{
    asks_client, binding_end, runs_detach_hooks, Binding, BindingFarewell, BindingMsg, ChannelEvent, ExitDisposition, ExitReason,
    PtyError, StdinMsg, EIO,
};
use minimald::env::EnvMap;
use minimald::exit_prompt::{
    exit_prompt, exit_prompt_at, save_changes, ExitChoice, PromptEvent, PromptNext, ShellExit,
    DELTA_ROWS_SHOWN, SHELL_EXIT_NO_CHANGES,
};
use minimald::host::{
    after_poll, after_step, releases_network, FeedOutcome, Host, HostAction, HostAttrs, HostEvent,
    KeyAction, KeySettings, LoopStep, Moment, Notice, ProcessPoll, PtyRead, PtyWrite, RequestedPty,
    WinSize, CHORD_FLUSH_IDLE,
};
use minimald::launch::{
    layer_session_env, netmask, own_ip_tap, session_baseline_env, session_env, session_packages,
    BuildStep, Launch, LaunchEvent, LaunchNext, LaunchStage, NetworkMode, SwitchTransport,
};
use minimald::queue::StdinQueue;
use minimald::terminal::{
    read_grid, screen_to_snapshot, unwind_codes, unwind_from, wire_color, Color,
};

#[test]
fn layer_session_env_precedence() {
    let sv = |k: &str, v: &str| (k.to_string(), v.to_string());
    let env = layer_session_env(
        vec![sv("LANG", "C"), sv("NAME", "box-1")],
        vec![sv("LANG", "de_DE.UTF-8"), sv("TZ", "Europe/Berlin")],
        vec![
            sv("LANG", "fr_FR.UTF-8"),
            sv("TERM", "dumb"),
            sv("EDITOR", "hx"),
        ],
        vec![sv("TERM", "xterm-256color")],
    );

    assert_eq!(env.get("LANG").map(String::as_str), Some("fr_FR.UTF-8")); // composition > inherited > baseline
    assert_eq!(env.get("NAME").map(String::as_str), Some("box-1")); // baseline-only survives
    assert_eq!(env.get("TZ").map(String::as_str), Some("Europe/Berlin")); // inherited-only survives
    assert_eq!(env.get("TERM").map(String::as_str), Some("xterm-256color")); // connection > composition
    assert_eq!(env.get("EDITOR").map(String::as_str), Some("hx")); // composition-only survives
    assert_eq!(env.len(), 5);
}

#[test]
fn layer_session_env_seeds_baseline_banner() {
    let env = layer_session_env(
        session_baseline_env("api-server-4f2a", Some("default (built-in)")),
        vec![],
        vec![],
        vec![],
    );

    assert_eq!(
        env.get("MINIMAL_SESSION_NAME").map(String::as_str),
        Some("api-server-4f2a")
    );
    assert_eq!(
        env.get("MINIMAL_LOADOUTS").map(String::as_str),
        Some("default (built-in)")
    );
    let pc = env.get("PROMPT_COMMAND").expect("baseline PROMPT_COMMAND");
    assert!(pc.contains(r#"eval "$MINIMAL_MOTD""#));
    assert!(pc.contains("unset PROMPT_COMMAND MINIMAL_MOTD"));

    let motd = env.get("MINIMAL_MOTD").expect("baseline MINIMAL_MOTD");
    assert!(motd.starts_with("[ -t 1 ]"), "banner must be TTY-gated");
    assert!(motd.contains("${MINIMAL_SESSION_NAME:-"));
    assert!(motd.contains("${MINIMAL_LOADOUTS:-"));
    assert!(motd.contains("detach: %s"));
    assert!(motd.contains("${MINIMAL_DETACH_HINT:-ctrl-] then d}"));
    assert!(motd.contains("[ -f /workbench/minimal.toml ]"));
    assert!(motd.contains("[ -f /workbench/.minimal/minimal.toml ]"));
    assert!(
        !motd.contains("MINIMAL_BLUEPRINT"),
        "blueprint is a session-filesystem fact, not an env var"
    );
    assert!(motd.contains("min init"));
}

#[test]
fn connection_layer_seeds_negotiated_detach_hint() {
    let env = layer_session_env(
        session_baseline_env("box-1", None),
        vec![],
        vec![],
        vec![(
            "MINIMAL_DETACH_HINT".to_string(),
            "ctrl-^ then x".to_string(),
        )],
    );
    assert_eq!(
        env.get("MINIMAL_DETACH_HINT").map(String::as_str),
        Some("ctrl-^ then x"),
    );
}

#[test]
fn baseline_env_omits_loadouts_var_when_display_unknown() {
    let env = layer_session_env(session_baseline_env("box-1", None), vec![], vec![], vec![]);
    assert!(!env.contains_key("MINIMAL_LOADOUTS"));
    assert!(env.contains_key("MINIMAL_SESSION_NAME"));
}

#[test]
fn composed_prompt_command_overrides_baseline_banner() {
    let env = layer_session_env(
        session_baseline_env("box-1", Some("helix, fish")),
        vec![],
        vec![(
            "PROMPT_COMMAND".to_string(),
            r#"eval "$MY_MOTD""#.to_string(),
        )],
        vec![],
    );

    assert_eq!(
        env.get("PROMPT_COMMAND").map(String::as_str),
        Some(r#"eval "$MY_MOTD""#)
    );
    assert_eq!(
        env.get("MINIMAL_SESSION_NAME").map(String::as_str),
        Some("box-1")
    );
    assert_eq!(
        env.get("MINIMAL_LOADOUTS").map(String::as_str),
        Some("helix, fish")
    );
}

#[test]
fn an_empty_list_of_loadouts_is_unknown() {
    let env = session_env("box", "", vec![], vec![], vec![]);
    assert!(!env.contains_key("MINIMAL_LOADOUTS"));
    let env = session_env("box", "dev", vec![], vec![], vec![]);
    assert_eq!(env.get("MINIMAL_LOADOUTS").map(String::as_str), Some("dev"));
}

#[test]
fn variables_are_listed_by_name() {
    let mut env = EnvMap::new();
    env.insert("b".to_string(), "2".to_string());
    env.insert("a".to_string(), "1".to_string());
    env.insert("b".to_string(), "3".to_string());
    env.insert("B".to_string(), "4".to_string());
    let pairs: Vec<(String, String)> = env.to_pairs();
    let shown: Vec<(&str, &str)> = pairs.iter().map(|(k, v)| (k.as_str(), v.as_str())).collect();
    assert_eq!(shown, vec![("B", "4"), ("a", "1"), ("b", "3")]);
    let copy = env.clone();
    assert_eq!(copy.to_pairs(), pairs);
    let over = env.overlay(&copy);
    assert_eq!(over.len(), 3);
}

#[test]
fn packages_of_a_session_are_listed_once() {
    assert_eq!(
        session_packages(&vec!["helix".to_string(), "socat".to_string(), "helix".to_string()]),
        vec!["base", "coreutils", "socat", "helix"]
    );
}

#[test]
fn netmasks_have_their_prefix_set() {
    assert_eq!(netmask(0), 0);
    assert_eq!(netmask(24), 0xffff_ff00);
    assert_eq!(netmask(32), 0xffff_ffff);
    let tap = own_ip_tap(0x0a00_0002, 16, 0x0a00_0001, 1500);
    assert_eq!(
        (tap.address, tap.netmask, tap.gateway, tap.mtu),
        (0x0a00_0002, 0xffff_0000, 0x0a00_0001, 1500)
    );
}

#[test]
fn a_failed_launch_is_undone() {
    let mut l = Launch::new(NetworkMode::OwnIp, SwitchTransport::LocalSpawn);
    assert!(l.needs_dns());
    assert!(matches!(
        l.step(LaunchEvent::GraphDone { error: None }),
        LaunchNext::Go
    ));
    assert_eq!(l.stage, LaunchStage::Attach);
    assert!(matches!(
        l.step(LaunchEvent::AttachDone { error: None }),
        LaunchNext::Go
    ));
    match l.step(LaunchEvent::BuildDone {
        error: Some((BuildStep::PtyOpen, "no ptys".to_string())),
    }) {
        LaunchNext::Failed { error, detach, reap } => {
            assert_eq!(error, "pty open: no ptys");
            assert!(detach);
            assert!(!reap);
        }
        _ => panic!("the launch should fail"),
    }
    assert_eq!(l.stage, LaunchStage::Over);
}

#[test]
fn a_launch_without_a_network_ends_with_its_process() {
    let mut l = Launch::new(NetworkMode::HostNet, SwitchTransport::LocalSpawn);
    assert!(!l.needs_dns());
    l.step(LaunchEvent::GraphDone { error: None });
    assert_eq!(l.stage, LaunchStage::Build);
    assert!(matches!(
        l.step(LaunchEvent::BuildDone { error: None }),
        LaunchNext::Launched { network: false }
    ));
}

#[test]
fn an_abandoned_launch_reaps_its_process() {
    let mut l = Launch::new(NetworkMode::OwnIp, SwitchTransport::LocalSpawn);
    l.step(LaunchEvent::GraphDone { error: None });
    l.step(LaunchEvent::AttachDone { error: None });
    l.step(LaunchEvent::BuildDone { error: None });
    assert_eq!(l.stage, LaunchStage::RelayTap);
    assert!(matches!(
        l.step(LaunchEvent::Cancelled),
        LaunchNext::Abandoned { detach: true, reap: true }
    ));
    let mut l = Launch::new(NetworkMode::OwnIp, SwitchTransport::HostShuttle);
    l.step(LaunchEvent::GraphDone { error: None });
    l.step(LaunchEvent::BuildDone { error: None });
    assert_eq!(l.stage, LaunchStage::MoveTap);
    assert!(matches!(
        l.step(LaunchEvent::MoveDone { error: None }),
        LaunchNext::Launched { network: true }
    ));
}

#[test]
fn a_tap_that_is_missing_fails_the_launch() {
    let mut l = Launch::new(NetworkMode::OwnIp, SwitchTransport::LocalSpawn);
    l.step(LaunchEvent::GraphDone { error: None });
    l.step(LaunchEvent::AttachDone { error: None });
    l.step(LaunchEvent::BuildDone { error: None });
    match l.step(LaunchEvent::RelayDone { has_tap: false, error: None }) {
        LaunchNext::Failed { error, detach, reap } => {
            assert_eq!(error, "own-IP sandbox produced no in-namespace tap fd");
            assert!(detach && reap);
        }
        _ => panic!("the launch should fail"),
    }
}

#[test]
fn screen_snapshot_drops_wide_continuation_cells() {
    let mut parser = vt100_ctt::Parser::new(2, 10, 0);
    parser.process("abあcd".as_bytes());
    let snapshot = screen_to_snapshot(parser.screen());
    let text: String = snapshot.lines[0].cells.iter().map(|c| c.ch).collect();
    assert_eq!(text.trim_end(), "abあcd");
}

#[test]
fn a_snapshot_says_how_cells_look_and_where_the_cursor_is() {
    let mut parser = vt100_ctt::Parser::new(3, 5, 0);
    parser.process(b"\x1b[1;31mA\x1b[0m\x1b[3;4;7;38;2;1;2;255;48;5;200mB\x1b[0m");
    let s = screen_to_snapshot(parser.screen());
    assert_eq!((s.rows, s.cols), (3, 5));
    assert_eq!((s.cursor_row, s.cursor_col), (Some(0), Some(2)));
    assert_eq!(s.lines.len(), 3);
    assert_eq!(s.lines[0].cells.len(), 5);
    let a = &s.lines[0].cells[0];
    assert_eq!((a.ch, a.bold, a.fg.as_deref(), a.bg.as_deref()), ('A', true, Some("idx:1"), None));
    let b = &s.lines[0].cells[1];
    assert!(b.italic && b.underline && b.reverse && !b.bold);
    assert_eq!(b.fg.as_deref(), Some("#0102ff"));
    assert_eq!(b.bg.as_deref(), Some("idx:200"));
    assert_eq!(s.lines[2].cells[4].ch, ' ');
    parser.process(b"\x1b[?25l");
    let hidden = screen_to_snapshot(parser.screen());
    assert_eq!((hidden.cursor_row, hidden.cursor_col), (None, None));
    let grid = read_grid(parser.screen());
    assert_eq!((grid.rows, grid.cols, grid.cursor), (3, 5, None));
}

#[test]
fn colors_are_spelled_for_the_wire() {
    assert_eq!(wire_color(Color::Default), None);
    assert_eq!(wire_color(Color::Idx(9)).as_deref(), Some("idx:9"));
    assert_eq!(wire_color(Color::Rgb(0, 171, 16)).as_deref(), Some("#00ab10"));
}

#[test]
fn leaving_a_terminal_undoes_what_the_session_set() {
    let parser = vt100_ctt::Parser::new(24, 80, 0);
    let quiet = unwind_codes(parser.screen());
    let mut parser = vt100_ctt::Parser::new(24, 80, 0);
    parser.process(b"\x1b[?1049h\x1b[?25l\x1b[?2004h\x1b[?1000h");
    let codes = unwind_codes(parser.screen());
    let text = String::from_utf8(codes).unwrap();
    assert!(text.contains("\x1b[?1049l"));
    assert!(text.contains("\x1b[?25h"));
    assert!(text.contains("\x1b[?2004l"));
    assert!(text.contains("\x1b[?1000l"));
    assert!(!String::from_utf8(quiet).unwrap().contains("\x1b[?1049l"));
}

#[test]
fn codes_follow_the_modes() {
    let none = String::from_utf8(unwind_from(b"X".to_vec(), false, false)).unwrap();
    assert!(none.starts_with('X'));
    assert!(!none.contains("\x1b[?25h"));
    let both = String::from_utf8(unwind_from(Vec::new(), true, true)).unwrap();
    assert!(both.contains("\x1b[?1049l"));
    assert!(both.contains("\x1b[?25h"));
}

#[test]
fn win_size_from_requested_pty_clamps_oversized() {
    let requested = RequestedPty {
        char_sizes: (u32::MAX, u32::MAX),
        pixel_sizes: (0, 0),
        term: String::new(),
        modes: Vec::new(),
    };
    let size = WinSize::from(&requested);
    assert_eq!(size.cols, u16::MAX);
    assert_eq!(size.rows, u16::MAX);
}

#[test]
fn a_size_is_columns_first_on_the_wire() {
    let requested = RequestedPty {
        char_sizes: (80, 24),
        pixel_sizes: (640, 70000),
        term: "xterm".to_string(),
        modes: Vec::new(),
    };
    let size = WinSize::from(&requested);
    assert_eq!((size.cols, size.rows), (80, 24));
    assert_eq!((size.xpixel, size.ypixel), (640, u16::MAX));
}

const SIZE: WinSize = WinSize {
    rows: 24,
    cols: 80,
    xpixel: 0,
    ypixel: 0,
};

const KEYS: KeySettings = KeySettings {
    leader_byte: 0x1d,
    bell_on_leader: true,
};

fn at(wall: u128) -> Moment {
    Moment { wall, tick: wall }
}

fn attached() -> Host {
    let mut host = Host::new(SIZE, KEYS);
    host.attach(SIZE, true, KEYS);
    host
}

#[test]
fn a_fresh_host_knows_nothing_of_its_terminal() {
    let attrs = HostAttrs::default();
    assert!(attrs.title.is_none());
    assert_eq!(attrs.audible_bell, (0, None));
    let copy = attrs.clone();
    assert_eq!(copy.stdout_last, None);
    let host = Host::new(SIZE, KEYS);
    assert!(!host.is_attached());
    assert!(host.takes_keys());
    assert!(host.unwritten().is_none());
    assert!(host.flush_deadline().is_none());
}

#[test]
fn titles_bells_and_times_are_tracked() {
    let mut host = attached();
    host.step(HostEvent::SetTitle("t".to_string()), at(5));
    host.step(HostEvent::AudibleBell, at(6));
    host.step(HostEvent::AudibleBell, at(7));
    host.step(HostEvent::VisualBell, at(8));
    host.step(HostEvent::Output(PtyRead::Bytes(b"x".to_vec())), at(9));
    host.step(
        HostEvent::Keys {
            outcomes: vec![FeedOutcome::Forward(b"ls\n".to_vec())],
            pending: false,
        },
        at(10),
    );
    let attrs = host.attrs();
    assert_eq!(attrs.title, Some(("t".to_string(), 5)));
    assert_eq!(attrs.audible_bell, (2, Some(7)));
    assert_eq!(attrs.visual_bell, (1, Some(8)));
    assert_eq!(attrs.stdout_last, Some(9));
    assert_eq!(attrs.stdin_last, Some(10));
}

#[test]
fn keystrokes_reach_the_process_in_order() {
    let mut host = attached();
    host.step(
        HostEvent::Keys {
            outcomes: vec![
                FeedOutcome::Forward(b"ab".to_vec()),
                FeedOutcome::Action(KeyAction::ForwardLeader),
                FeedOutcome::Forward(b"cd".to_vec()),
            ],
            pending: false,
        },
        at(1),
    );
    assert!(!host.takes_keys());
    assert_eq!(host.unwritten().unwrap().as_ref(), b"ab\x1dcd");
    host.step(HostEvent::Written(PtyWrite::Wrote(2)), at(2));
    assert_eq!(host.unwritten().unwrap().as_ref(), b"\x1dcd");
    host.step(HostEvent::Written(PtyWrite::WouldBlock), at(3));
    assert_eq!(host.unwritten().unwrap().as_ref(), b"\x1dcd");
    host.step(HostEvent::Written(PtyWrite::Wrote(3)), at(4));
    assert!(host.unwritten().is_none());
    assert!(host.takes_keys());
}

#[test]
fn a_detach_leaves_the_host_running() {
    let mut host = attached();
    let out = host.step(
        HostEvent::Keys {
            outcomes: vec![FeedOutcome::Action(KeyAction::Detach)],
            pending: false,
        },
        at(1),
    );
    assert!(out.alive);
    assert!(!host.is_attached());
    assert!(out.actions.iter().any(|a| matches!(
        a,
        HostAction::TearDownBinding { notice: Notice::Detach, .. }
    )));
    assert!(host.unwritten().is_none());
}

#[test]
fn entering_command_mode_rings_and_holds() {
    let mut host = attached();
    let out = host.step(
        HostEvent::Keys {
            outcomes: vec![FeedOutcome::Action(KeyAction::EnterCommandMode)],
            pending: true,
        },
        at(1),
    );
    assert!(out
        .actions
        .iter()
        .any(|a| matches!(a, HostAction::SendToClient(b) if b == b"\x07")));
    assert_eq!(host.flush_deadline(), Some(1 + CHORD_FLUSH_IDLE));
    host.step(
        HostEvent::FlushDue {
            flushed: b"\x1b".to_vec(),
        },
        at(2),
    );
    assert_eq!(host.flush_deadline(), None);
    assert_eq!(host.unwritten().unwrap().as_ref(), b"\x1b");
}

#[test]
fn keystrokes_wait_until_they_are_written() {
    let mut host = attached();
    host.step(
        HostEvent::Keys {
            outcomes: vec![FeedOutcome::Forward(b"abc".to_vec())],
            pending: false,
        },
        at(1),
    );
    host.step(HostEvent::Output(PtyRead::Bytes(b"out".to_vec())), at(2));
    host.step(HostEvent::Written(PtyWrite::WouldBlock), at(3));
    host.step(HostEvent::FlushDue { flushed: Vec::new() }, at(4));
    assert_eq!(host.unwritten().unwrap().as_ref(), b"abc");
    host.step(HostEvent::Written(PtyWrite::Wrote(1)), at(5));
    assert_eq!(host.unwritten().unwrap().as_ref(), b"bc");
}

#[test]
fn output_goes_to_the_screen_and_to_the_client() {
    let mut host = attached();
    let out = host.step(HostEvent::Output(PtyRead::Bytes(b"hi".to_vec())), at(1));
    assert!(matches!(&out.actions[0], HostAction::ParseOutput(b) if b == b"hi"));
    assert!(matches!(&out.actions[1], HostAction::SendToClient(b) if b == b"hi"));
    host.step(HostEvent::OutputUndelivered, at(2));
    assert!(!host.is_attached());
    let out = host.step(HostEvent::Output(PtyRead::Bytes(b"hi".to_vec())), at(3));
    assert_eq!(out.actions.len(), 1);
    let out = host.step(HostEvent::Output(PtyRead::WouldBlock), at(4));
    assert!(out.actions.is_empty() && out.alive);
}

#[test]
fn a_pty_failure_ends_the_host() {
    let mut host = attached();
    let out = host.step(HostEvent::Output(PtyRead::Failed), at(1));
    assert!(!out.alive);
    assert!(matches!(out.actions[0], HostAction::NotifyPtyError));
    let out = attached().step(HostEvent::Written(PtyWrite::Failed), at(1));
    assert!(!out.alive);
}

#[test]
fn a_kill_tells_the_client_only_of_a_shutdown() {
    let mut host = attached();
    let out = host.step(HostEvent::Kill { for_shutdown: true }, at(1));
    assert!(!out.alive);
    assert!(matches!(
        out.actions[0],
        HostAction::TearDownBinding { notice: Notice::DaemonShutdown, wait: true }
    ));
    assert!(matches!(out.actions[1], HostAction::KillProcess));
    let out = attached().step(HostEvent::Kill { for_shutdown: false }, at(1));
    assert_eq!(out.actions.len(), 1);
    assert!(matches!(out.actions[0], HostAction::KillProcess));
}

#[test]
fn a_second_client_takes_over() {
    let mut host = attached();
    let wider = WinSize { cols: 120, ..SIZE };
    let out = host.step(
        HostEvent::Attach {
            size: wider,
            keys: KEYS,
        },
        at(1),
    );
    assert!(out.alive);
    assert!(host.is_attached());
    assert!(out.actions.iter().any(|a| matches!(
        a,
        HostAction::TearDownBinding { notice: Notice::Superceded, wait: true }
    )));
    assert!(out
        .actions
        .iter()
        .any(|a| matches!(a, HostAction::ResizePty(s) if s.cols == 120)));
    assert!(matches!(
        out.actions.last(),
        Some(HostAction::RunAttachHooks)
    ));
}

#[test]
fn a_size_that_is_set_is_not_set_again() {
    let mut host = attached();
    let change = || HostEvent::WindowChange {
        col_width: 100,
        row_height: 30,
        pix_width: 0,
        pix_height: 0,
    };
    assert_eq!(host.step(change(), at(1)).actions.len(), 2);
    assert!(host.step(change(), at(2)).actions.is_empty());
    let out = host.step(
        HostEvent::TerminalUpdate(RequestedPty {
            char_sizes: (90, 20),
            pixel_sizes: (0, 0),
            term: String::new(),
            modes: Vec::new(),
        }),
        at(3),
    );
    assert!(matches!(out.actions[0], HostAction::ResizePty(s) if s.rows == 20 && s.cols == 90));
    let wrapped = HostEvent::WindowChange {
        col_width: 65536 + 5,
        row_height: 20,
        pix_width: 0,
        pix_height: 0,
    };
    let out = host.step(wrapped, at(4));
    assert!(matches!(out.actions[0], HostAction::ResizePty(s) if s.cols == 5));
}

#[test]
fn questions_are_answered() {
    let mut host = attached();
    assert!(matches!(
        host.step(HostEvent::GetAttrs, at(1)).actions[0],
        HostAction::ReplyAttrs
    ));
    assert!(matches!(
        host.step(HostEvent::GetScreen, at(1)).actions[0],
        HostAction::ReplyScreen
    ));
    assert!(matches!(
        host.step(HostEvent::CommandInSession, at(1)).actions[0],
        HostAction::ReplyCommand
    ));
    assert!(matches!(
        host.step(HostEvent::GetAtRisk, at(1)).actions[0],
        HostAction::ReplyAtRisk
    ));
}

#[test]
fn a_process_that_exits_is_noticed_and_its_network_released() {
    let exited = after_poll(ProcessPoll::Exited(3), true);
    assert_eq!(exited, LoopStep::Exited { code: 3, notify: true });
    assert_eq!(after_poll(ProcessPoll::Running, true), LoopStep::Step);
    assert_eq!(after_poll(ProcessPoll::Failed, true), LoopStep::PollFailed);
    assert_eq!(after_step(false), Some(LoopStep::Reap));
    assert_eq!(after_step(true), None);
    assert!(releases_network(exited, true));
    assert!(!releases_network(exited, false));
    assert!(!releases_network(LoopStep::Step, true));
}

#[test]
fn a_queue_holds_what_was_not_written() {
    let mut q = StdinQueue::empty();
    assert!(q.is_empty());
    q.put(b"hello".to_vec());
    q.wrote(2);
    assert_eq!(q.unwritten().unwrap().as_ref(), b"llo");
    q.wrote(3);
    assert!(q.is_empty());
}

#[test]
fn a_binding_passes_on_what_the_client_sends() {
    let mut b = Binding::new();
    assert!(
        matches!(b.from_remote(ChannelEvent::Data(bytes::Bytes::from_static(b"k"))), Some(StdinMsg::Bytes(d)) if d.as_ref() == b"k")
    );
    assert!(b.from_remote(ChannelEvent::Other).is_none());
    assert!(b.is_remote_open());
    assert!(b.from_remote(ChannelEvent::Closed).is_none());
    assert!(!b.is_remote_open());
}

#[test]
fn a_binding_says_goodbye() {
    let b = Binding::new();
    let step = b.from_host(Some(BindingMsg::TeardownDueToDetach(b"C".to_vec())));
    assert_eq!(
        step.writes,
        vec![b"C".to_vec(), b"\r\nDetaching from session.\r\n".to_vec()]
    );
    assert_eq!(step.exit, Some(ExitReason::Detach));
    let step = b.from_host(Some(BindingMsg::TeardownDueToDaemonShutdown(Vec::new())));
    assert_eq!(
        step.writes[1],
        b"\r\nDisconnecting - minimald is shutting down\r\n".to_vec()
    );
    assert_eq!(step.exit, Some(ExitReason::Shutdown));
    let step = b.from_host(Some(BindingMsg::TeardownDueToSuperceded(Vec::new())));
    assert_eq!(step.exit, Some(ExitReason::Superceded));
    let step = b.from_host(Some(BindingMsg::Stdin(b"out".to_vec())));
    assert_eq!(step.writes, vec![b"out".to_vec()]);
    assert_eq!(step.exit, None);
    assert_eq!(b.from_host(None).exit, Some(ExitReason::HostGone));
}

#[test]
fn only_unexpected_pty_errors_are_shown() {
    let b = Binding::new();
    let expected = b.from_host(Some(BindingMsg::TeardownDueToProcessExit(Some(PtyError {
        os_error: Some(EIO),
        text: "io".to_string(),
    }))));
    assert!(expected.writes.is_empty());
    assert_eq!(expected.exit, Some(ExitReason::ProcessExited));
    let other = b.from_host(Some(BindingMsg::TeardownDueToProcessExit(Some(PtyError {
        os_error: None,
        text: "odd".to_string(),
    }))));
    assert_eq!(other.writes, vec![b"Error reading stdout: odd\n".to_vec()]);
}

#[test]
fn detach_hooks_run_where_the_session_lives_on() {
    assert!(asks_client(ExitReason::ProcessExited));
    assert!(!asks_client(ExitReason::Detach));
    assert!(runs_detach_hooks(
        ExitReason::Detach,
        ExitDisposition::Kept,
        true
    ));
    assert!(!runs_detach_hooks(
        ExitReason::ProcessExited,
        ExitDisposition::Destroyed,
        true
    ));
    assert!(!runs_detach_hooks(
        ExitReason::Detach,
        ExitDisposition::Kept,
        false
    ));
}

#[test]
fn every_binding_closes_its_channel() {
    let goodbye = vec![
        BindingFarewell::SendEof,
        BindingFarewell::SendExitStatus(0),
        BindingFarewell::Close,
    ];
    for reason in [
        ExitReason::HostGone,
        ExitReason::Superceded,
        ExitReason::Shutdown,
    ] {
        assert_eq!(binding_end(reason, ExitDisposition::Kept, true), goodbye);
    }
    assert_eq!(
        binding_end(ExitReason::ProcessExited, ExitDisposition::Destroyed, true),
        goodbye
    );
    assert_eq!(
        binding_end(ExitReason::Detach, ExitDisposition::Kept, false),
        goodbye
    );
    let mut left = vec![BindingFarewell::RunDetachHooks];
    left.extend(goodbye);
    assert_eq!(
        binding_end(ExitReason::Detach, ExitDisposition::Kept, true),
        left
    );
    assert_eq!(
        binding_end(ExitReason::ProcessExited, ExitDisposition::Kept, true),
        left
    );
}

fn rows(n: usize) -> Vec<String> {
    (0..n).map(|i| format!("file-{i}")).collect()
}

#[test]
fn the_exit_prompt_lists_the_first_changes() {
    let changed = rows(DELTA_ROWS_SHOWN + 2);
    let p = exit_prompt_at(Some(&changed), "/arch", "box", "20260102T030405Z");
    assert!(p.intro.starts_with("\r\n12 files changed since activation:\r\n  file-0\r\n"));
    assert!(p.intro.ends_with("  file-9\r\n  ... and 2 more\r\n\r\n"));
    assert_eq!(
        p.choices,
        vec![ExitChoice::Keep, ExitChoice::SaveThenDelete, ExitChoice::Delete]
    );
    assert_eq!(p.items.len(), 3);
    assert_eq!(
        p.archive.as_deref(),
        Some("/arch/box-20260102T030405Z.tar.zst")
    );
    let one = exit_prompt_at(Some(&rows(1)), "/arch", "box", "s");
    assert!(one.intro.starts_with("\r\n1 file changed since activation:\r\n"));
}

#[test]
fn without_changes_there_is_nothing_to_save() {
    let p = exit_prompt_at(Some(&Vec::new()), "/arch", "box", "s");
    assert_eq!(p.intro, format!("\r\n{SHELL_EXIT_NO_CHANGES}\r\n\r\n"));
    assert_eq!(p.choices, vec![ExitChoice::Keep, ExitChoice::Delete]);
    assert_eq!(p.archive, None);
    assert!(p.items[1].ends_with("nothing will be lost"));
    let unknown = exit_prompt_at(None, "/arch", "box", "s");
    assert_eq!(unknown.intro, "\r\n");
    assert!(!unknown.items[1].ends_with("nothing will be lost"));
}

#[test]
fn an_archive_is_named_by_the_time() {
    let p = exit_prompt(Some(&rows(1)), "/arch", "box");
    let archive = p.archive.unwrap();
    let stamp = archive
        .strip_prefix("/arch/box-")
        .and_then(|s| s.strip_suffix(".tar.zst"))
        .unwrap();
    assert_eq!(stamp.len(), 16);
    for (i, c) in stamp.chars().enumerate() {
        match i {
            8 => assert_eq!(c, 'T'),
            15 => assert_eq!(c, 'Z'),
            _ => assert!(c.is_ascii_digit()),
        }
    }
}

#[test]
fn a_delete_needs_someone_to_do_it() {
    let mut exit = ShellExit::new(exit_prompt_at(Some(&rows(1)), "/a", "b", "s"), true);
    assert_eq!(exit.shown().choices.len(), 3);
    let step = exit.step(PromptEvent::Selected(2));
    assert_eq!(step.next, PromptNext::Destroy);
    assert_eq!(step.say.as_deref(), Some("\r\nDeleting session...\r\n"));
    let step = exit.step(PromptEvent::Destroyed { error: None });
    assert_eq!(step.next, PromptNext::Leave(ExitDisposition::Destroyed));
    let mut exit = ShellExit::new(exit_prompt_at(Some(&rows(1)), "/a", "b", "s"), false);
    let step = exit.step(PromptEvent::Selected(2));
    assert_eq!(step.next, PromptNext::Leave(ExitDisposition::Kept));
}

#[test]
fn changes_are_saved_before_a_session_is_deleted() {
    let mut exit = ShellExit::new(exit_prompt_at(Some(&rows(2)), "/a", "b", "s"), true);
    assert_eq!(exit.step(PromptEvent::Selected(1)).next, PromptNext::Save);
    let failed = exit.step(PromptEvent::Saved {
        error: Some("full".to_string()),
    });
    assert_eq!(failed.next, PromptNext::Ask);
    assert_eq!(
        failed.say.as_deref(),
        Some("Failed to save changes: full\r\n\r\n")
    );
    exit.step(PromptEvent::Selected(1));
    let saved = exit.step(PromptEvent::Saved { error: None });
    assert_eq!(saved.next, PromptNext::Destroy);
    let kept = exit.step(PromptEvent::Destroyed {
        error: Some("busy".to_string()),
    });
    assert_eq!(kept.next, PromptNext::Leave(ExitDisposition::Kept));
    assert_eq!(
        kept.say.as_deref(),
        Some("Failed to delete session: busy\r\n")
    );
    assert_eq!(
        save_changes(true, Some(&rows(2)), "/a/x").unwrap(),
        "\r\nSaving 2 changed files -> /a/x\r\n"
    );
    assert_eq!(
        save_changes(false, None, "/a/x").unwrap_err(),
        "workspace change detection is unavailable"
    );
    assert_eq!(
        save_changes(true, None, "/a/x").unwrap_err(),
        "the workspace could not be re-walked"
    );
}

#[test]
fn silence_keeps_the_session() {
    for event in [PromptEvent::Cancelled, PromptEvent::Failed] {
        let mut exit = ShellExit::new(exit_prompt_at(None, "/a", "b", "s"), true);
        let step = exit.step(event);
        assert_eq!(step.next, PromptNext::Leave(ExitDisposition::Kept));
        assert!(step.say.is_none());
    }
}
