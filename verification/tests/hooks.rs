use minimald::hook_attempt::{
    AttemptEvent, AttemptNext, AttemptStage, FileRead, HookAttempt, HookWait, ScriptWrite,
};
use minimald::hooks::{
    contained_relative_path, hooks_to_run, keep_tail, metadata_env, not_run_over_budget, outcome,
    tail_of, tail_of_texts, HookEvent, HookRun, HookScript, HookScriptBody, HookStatus, HookStep,
    Interpreter, LifecycleHook, ProvenancedHook, Source, OUTPUT_TAIL_BYTES,
};

const SECOND: u128 = 1_000_000_000;

fn inline(text: &str, secs: u128) -> Option<HookScript> {
    Some(HookScript {
        body: HookScriptBody::Inline(text.to_string()),
        timeout: secs * SECOND,
    })
}

fn external(path: &str) -> HookScript {
    HookScript {
        body: HookScriptBody::External(path.to_string()),
        timeout: 5 * SECOND,
    }
}

fn hook(name: &str) -> ProvenancedHook {
    ProvenancedHook {
        source: Source::UserLoadout {
            name: name.to_string(),
        },
        declared_by: format!("loadout `{name}`"),
        hook: LifecycleHook {
            on_activate: None,
            on_destroy: None,
            on_attach: None,
            on_detach: None,
            description: Some(format!("hook of {name}")),
        },
    }
}

#[test]
fn contained_relative_path_rejects_anything_that_could_climb_out() {
    for bad in [
        "/etc/shadow",
        "../etc/shadow",
        "loadout/../../../etc/shadow",
        "a/b/..",
        "..",
    ] {
        assert!(
            !contained_relative_path(bad),
            "{bad:?} should be refused",
        );
    }
    for good in [
        "loadout/dev/activate.sh",
        "project/scripts/setup.sh",
        "a",
        "./a/b",
    ] {
        assert!(
            contained_relative_path(good),
            "{good:?} should be allowed",
        );
    }
}

#[test]
fn a_script_without_a_shebang_runs_under_posix_sh() {
    let i = Interpreter::for_script(b"echo hello\n");
    assert_eq!(i.program(), "sh");
    assert_eq!(i.args(), vec!["-s"]);
    assert_eq!(i, Interpreter::for_script(b""));
}

#[test]
fn a_shebang_names_the_interpreter_and_one_argument() {
    let cases: [(&[u8], &str, Vec<&str>); 5] = [
        (b"#!/bin/fish\necho hi\n", "/bin/fish", vec![]),
        (
            b"#!/usr/bin/env python3\nprint(1)\n",
            "/usr/bin/env",
            vec!["python3"],
        ),
        (
            b"#!/usr/bin/env -S python3 -u\nprint(1)\n",
            "/usr/bin/env",
            vec!["-S python3 -u"],
        ),
        (b"#!/bin/sh -e\ntrue\n", "/bin/sh", vec!["-e"]),
        (b"#!/bin/fish", "/bin/fish", vec![]),
    ];
    for (body, program, args) in cases {
        let i = Interpreter::for_script(body);
        assert_eq!(
            i.program(),
            program,
            "body: {:?}",
            String::from_utf8_lossy(body)
        );
        assert_eq!(i.args(), args, "body: {:?}", String::from_utf8_lossy(body));
    }
}

#[test]
fn a_shebang_tolerates_padding_and_crlf() {
    let i = Interpreter::for_script(b"#!  /usr/bin/env  fish  \r\nls\n");
    assert_eq!(i.program(), "/usr/bin/env");
    assert_eq!(i.args(), vec!["fish"]);
}

#[test]
fn an_unusable_shebang_falls_back_to_posix_sh() {
    for body in [
        &b"#!\necho hi\n"[..],
        &b"#!   \n"[..],
        &b"#!/bin/\xff\n"[..],
    ] {
        assert_eq!(
            Interpreter::for_script(body),
            Interpreter::for_script(b"echo hi"),
            "body: {:?}",
            String::from_utf8_lossy(body),
        );
    }
}

#[test]
fn a_shebang_below_the_first_line_is_only_a_comment() {
    let i = Interpreter::for_script(b"echo hi\n#!/bin/fish\n");
    assert_eq!(i.program(), "sh");
}

#[test]
fn output_tail_keeps_the_end_and_stays_utf8() {
    let long = "é".repeat(OUTPUT_TAIL_BYTES);
    let tail = tail_of(long.as_bytes(), b"");
    assert!(tail.len() <= OUTPUT_TAIL_BYTES + 2);
    assert!(long.ends_with(&tail));
}

#[test]
fn short_output_is_kept_whole_and_errors_follow() {
    assert_eq!(tail_of(b"out", b"err"), "out\nerr");
    assert_eq!(tail_of(b"", b"err"), "err");
    assert_eq!(tail_of(b"out", b""), "out");
    assert_eq!(tail_of(b"out\n", b"err"), "out\nerr");
    assert_eq!(tail_of_texts("out", None), "out");
    assert_eq!(keep_tail("abc"), "abc");
}

#[test]
fn output_that_is_not_utf8_is_shown_with_replacements() {
    assert_eq!(tail_of(b"a\xffb", b""), "a\u{FFFD}b");
}

#[test]
fn a_character_is_not_cut_in_two_at_the_start_of_the_tail() {
    let long = format!("{}{}", "\u{1F600}", "x".repeat(OUTPUT_TAIL_BYTES - 2));
    let tail = keep_tail(&long);
    assert_eq!(tail, long);
    let longer = format!("y{long}");
    assert_eq!(keep_tail(&longer), long);
}

#[test]
fn events_have_their_wire_names() {
    assert_eq!(HookEvent::Activate.as_str(), "on_activate");
    assert_eq!(HookEvent::Destroy.as_str(), "on_destroy");
    assert_eq!(HookEvent::Attach.as_str(), "on_attach");
    assert_eq!(HookEvent::Detach.as_str(), "on_detach");
    assert!(HookEvent::Destroy.is_teardown());
    assert!(HookEvent::Detach.is_teardown());
    assert!(!HookEvent::Activate.is_teardown());
    assert!(!HookEvent::Attach.is_teardown());
}

#[test]
fn a_hook_that_did_not_succeed_failed() {
    let h = hook("a");
    let ok = outcome(HookEvent::Attach, &h, HookStatus::Succeeded, String::new());
    assert!(!ok.failed());
    assert_eq!(ok.event, "on_attach");
    assert_eq!(ok.declared_by, "loadout `a`");
    assert_eq!(ok.description.as_deref(), Some("hook of a"));
    for status in [
        HookStatus::Failed { code: Some(3) },
        HookStatus::TimedOut {
            after: SECOND,
            budgeted: false,
        },
        HookStatus::NotRun {
            reason: "gone".to_string(),
        },
    ] {
        assert!(outcome(HookEvent::Attach, &h, status, String::new()).failed());
    }
}

#[test]
fn a_hook_over_budget_names_the_budget() {
    let out = not_run_over_budget(HookEvent::Destroy, &hook("a"), Some(10 * SECOND + 5));
    assert_eq!(
        out.status,
        HookStatus::NotRun {
            reason: "the on_destroy budget of 10s was spent by earlier hooks".to_string()
        }
    );
    assert_eq!(out.output, "");
}

#[test]
fn only_hooks_with_a_script_run_and_teardown_reverses_them() {
    let mut a = hook("a");
    a.hook.on_activate = inline("a", 1);
    a.hook.on_destroy = inline("a", 1);
    let mut b = hook("b");
    b.hook.on_attach = inline("b", 1);
    let mut c = hook("c");
    c.hook.on_activate = inline("c", 1);
    c.hook.on_destroy = inline("c", 1);
    let all = vec![a, b, c];
    assert_eq!(hooks_to_run(HookEvent::Activate, &all), vec![0, 2]);
    assert_eq!(hooks_to_run(HookEvent::Destroy, &all), vec![2, 0]);
    assert_eq!(hooks_to_run(HookEvent::Attach, &all), vec![1]);
    assert_eq!(hooks_to_run(HookEvent::Detach, &all), Vec::<usize>::new());
}

#[test]
fn a_budget_is_shared_by_all_hooks_of_a_run() {
    let mut all = Vec::new();
    for name in ["a", "b", "c"] {
        let mut h = hook(name);
        h.hook.on_destroy = inline("true", 10);
        all.push(h);
    }
    let mut run = HookRun::start(HookEvent::Destroy, &all, Some(15 * SECOND), 100 * SECOND);
    assert_eq!(
        run.next(&all, 100 * SECOND),
        HookStep::Run {
            hook: 2,
            index: 0,
            count: 3,
            allowed: 10 * SECOND
        }
    );
    run.record(&all, HookStatus::Succeeded, "ok".to_string());
    assert_eq!(
        run.next(&all, 109 * SECOND),
        HookStep::Run {
            hook: 1,
            index: 1,
            count: 3,
            allowed: 6 * SECOND
        }
    );
    run.record(
        &all,
        HookStatus::TimedOut {
            after: 6 * SECOND,
            budgeted: true,
        },
        String::new(),
    );
    assert_eq!(run.next(&all, 115 * SECOND), HookStep::Skipped);
    assert_eq!(run.next(&all, 115 * SECOND), HookStep::Finished);
    let outcomes = run.into_outcomes();
    assert_eq!(outcomes.len(), 3);
    assert_eq!(outcomes[0].declared_by, "loadout `c`");
    assert_eq!(outcomes[0].output, "ok");
    assert_eq!(
        outcomes[2].status,
        HookStatus::NotRun {
            reason: "the on_destroy budget of 15s was spent by earlier hooks".to_string()
        }
    );
}

#[test]
fn a_run_without_a_budget_gives_each_hook_its_own_time() {
    let mut all = Vec::new();
    for name in ["a", "b"] {
        let mut h = hook(name);
        h.hook.on_attach = inline("true", 30);
        all.push(h);
    }
    let mut run = HookRun::start(HookEvent::Attach, &all, None, 0);
    assert!(matches!(run.next(&all, 0), HookStep::Run { hook: 0, allowed, .. } if allowed == 30 * SECOND));
    run.record(&all, HookStatus::Succeeded, String::new());
    assert!(matches!(run.next(&all, 900 * SECOND), HookStep::Run { hook: 1, allowed, .. } if allowed == 30 * SECOND));
    run.record(&all, HookStatus::Failed { code: None }, String::new());
    assert_eq!(run.next(&all, 901 * SECOND), HookStep::Finished);
    assert_eq!(run.into_outcomes().len(), 2);
}

#[test]
fn a_run_without_hooks_is_over_at_once() {
    let all: Vec<ProvenancedHook> = Vec::new();
    let mut run = HookRun::start(HookEvent::Activate, &all, None, 0);
    assert_eq!(run.next(&all, 0), HookStep::Finished);
    assert!(run.into_outcomes().is_empty());
}

#[test]
fn a_hook_is_told_of_its_run() {
    let env = metadata_env(
        "id-1",
        "box-1",
        HookEvent::Activate,
        &Source::Project {
            path: "/src/app".to_string(),
        },
        1,
        3,
    );
    let of = |k: &str| env.get(k).map(String::as_str);
    assert_eq!(of("MINIMAL_SESSION_ID"), Some("id-1"));
    assert_eq!(of("MINIMAL_SESSION_NAME"), Some("box-1"));
    assert_eq!(of("MINIMAL_HOOK_EVENT"), Some("on_activate"));
    assert_eq!(of("MINIMAL_HOOK_SOURCE_KIND"), Some("project"));
    assert_eq!(of("MINIMAL_HOOK_SOURCE_NAME"), Some("/src/app"));
    assert_eq!(of("MINIMAL_HOOK_INDEX"), Some("2"));
    assert_eq!(of("MINIMAL_HOOK_COUNT"), Some("3"));
    assert_eq!(env.len(), 7);
}

fn goes(next: AttemptNext) -> HookAttempt {
    match next {
        AttemptNext::Goes(a) => a,
        AttemptNext::Ends(e) => panic!("ended: {e:?}"),
    }
}

fn ends(next: AttemptNext) -> (HookStatus, String, bool) {
    match next {
        AttemptNext::Goes(a) => panic!("goes on: {:?}", a.stage()),
        AttemptNext::Ends(e) => (e.status, e.output, e.kill),
    }
}

fn reason(text: &str) -> HookStatus {
    HookStatus::NotRun {
        reason: text.to_string(),
    }
}

fn begin(script: &HookScript, source: &Source, staged: Option<&str>) -> AttemptNext {
    HookAttempt::start(
        script,
        source,
        staged.map(str::to_string),
        "/var/hooks",
        "/work",
        None,
        3 * SECOND,
    )
}

fn project() -> Source {
    Source::Project {
        path: "/src".to_string(),
    }
}

fn loadout() -> Source {
    Source::UserLoadout {
        name: "dev".to_string(),
    }
}

#[test]
fn an_inline_script_is_fed_to_its_interpreter() {
    let script = inline("#!/bin/cat\nhello\n", 5).unwrap();
    let a = goes(begin(&script, &loadout(), None));
    assert!(matches!(a.stage(), AttemptStage::Build));
    assert_eq!(a.interpreter().program(), "/bin/cat");
    assert_eq!(a.body(), b"#!/bin/cat\nhello\n");
    assert_eq!(a.allowed(), 3 * SECOND);
    let a = goes(a.advance(AttemptEvent::CommandBuilt { error: None }));
    assert!(matches!(a.stage(), AttemptStage::Spawn));
    let a = goes(a.advance(AttemptEvent::Spawned { error: None }));
    assert!(matches!(a.stage(), AttemptStage::WriteScript));
    let a = goes(a.advance(AttemptEvent::ScriptWritten(ScriptWrite::Done { spent: SECOND })));
    assert!(matches!(a.stage(), AttemptStage::Wait));
    let end = ends(a.advance(AttemptEvent::Waited(HookWait::Exited {
        code: Some(0),
        stdout: b"hello\n".to_vec(),
        stderr: Vec::new(),
    })));
    assert_eq!(
        end,
        (HookStatus::Succeeded, "hello\n".to_string(), false)
    );
}

#[test]
fn an_exit_code_other_than_zero_is_reported() {
    let script = inline("exit 3", 5).unwrap();
    let a = goes(begin(&script, &loadout(), None));
    let a = goes(a.advance(AttemptEvent::CommandBuilt { error: None }));
    let a = goes(a.advance(AttemptEvent::Spawned { error: None }));
    let a = goes(a.advance(AttemptEvent::ScriptWritten(ScriptWrite::Done { spent: SECOND })));
    let end = ends(a.advance(AttemptEvent::Waited(HookWait::Exited {
        code: Some(3),
        stdout: Vec::new(),
        stderr: b"boom".to_vec(),
    })));
    assert_eq!(
        end,
        (
            HookStatus::Failed { code: Some(3) },
            "boom".to_string(),
            false
        )
    );
}

#[test]
fn a_missing_interpreter_is_named() {
    let script = inline("#!/no/such\n", 5).unwrap();
    let a = goes(begin(&script, &loadout(), None));
    let a = goes(a.advance(AttemptEvent::CommandBuilt { error: None }));
    let (status, _, kill) = ends(a.advance(AttemptEvent::Spawned {
        error: Some("not found".to_string()),
    }));
    assert_eq!(status, reason("spawning `/no/such`: not found"));
    assert!(!kill);
}

#[test]
fn waiting_gets_the_time_that_writing_left() {
    let script = inline("sleep 100", 5).unwrap();
    let at_write = || {
        let a = goes(begin(&script, &loadout(), None));
        let a = goes(a.advance(AttemptEvent::CommandBuilt { error: None }));
        goes(a.advance(AttemptEvent::Spawned { error: None }))
    };
    let a = at_write();
    assert_eq!(a.time_left(), 3 * SECOND);
    let a = goes(a.advance(AttemptEvent::ScriptWritten(ScriptWrite::Done { spent: SECOND })));
    assert_eq!(a.time_left(), 2 * SECOND);
    assert_eq!(a.allowed(), 3 * SECOND);
    let a = goes(at_write().advance(AttemptEvent::ScriptWritten(ScriptWrite::Done {
        spent: 4 * SECOND,
    })));
    assert_eq!(a.time_left(), 0);
}

#[test]
fn a_hook_past_its_time_is_killed() {
    let script = inline("sleep 100", 5).unwrap();
    let a = goes(begin(&script, &loadout(), None));
    let a = goes(a.advance(AttemptEvent::CommandBuilt { error: None }));
    let a = goes(a.advance(AttemptEvent::Spawned { error: None }));
    let a = goes(a.advance(AttemptEvent::ScriptWritten(ScriptWrite::Done { spent: SECOND })));
    let (status, output, kill) = ends(a.advance(AttemptEvent::Waited(HookWait::TimedOut)));
    assert_eq!(
        status,
        HookStatus::TimedOut {
            after: 3 * SECOND,
            budgeted: true
        }
    );
    assert_eq!(output, "");
    assert!(kill);
}

#[test]
fn an_interpreter_that_does_not_read_is_killed() {
    let script = inline("true", 5).unwrap();
    let a = goes(begin(&script, &loadout(), None));
    let a = goes(a.advance(AttemptEvent::CommandBuilt { error: None }));
    let a = goes(a.advance(AttemptEvent::Spawned { error: None }));
    let (status, _, kill) = ends(a.advance(AttemptEvent::ScriptWritten(ScriptWrite::TimedOut)));
    assert_eq!(
        status,
        reason("the interpreter did not read its script within 3s")
    );
    assert!(kill);
}

#[test]
fn a_dead_session_runs_no_hook() {
    let script = inline("true", 5).unwrap();
    let a = goes(begin(&script, &loadout(), None));
    let (status, _, kill) = ends(a.advance(AttemptEvent::CommandBuilt {
        error: Some("no session leader".to_string()),
    }));
    assert_eq!(
        status,
        reason("building the command for `sh`: no session leader")
    );
    assert!(!kill);
}

#[test]
fn a_terminal_that_does_not_open_runs_no_hook() {
    let script = inline("true", 5).unwrap();
    let a = goes(HookAttempt::start(
        &script,
        &loadout(),
        None,
        "/var/hooks",
        "/work",
        Some("/dev/pts/3".to_string()),
        SECOND,
    ));
    let a = goes(a.advance(AttemptEvent::CommandBuilt { error: None }));
    assert!(matches!(a.stage(), AttemptStage::OpenTerminal { path } if path == "/dev/pts/3"));
    let (status, _, _) = ends(a.advance(AttemptEvent::TerminalOpened { opened: false }));
    assert_eq!(
        status,
        reason("opening the session terminal `/dev/pts/3` failed")
    );
}

#[test]
fn a_staged_script_is_read_from_its_directory() {
    let a = goes(begin(
        &external("run.sh"),
        &loadout(),
        Some("loadout/dev/run.sh"),
    ));
    assert!(
        matches!(a.stage(), AttemptStage::ReadStaged { path, in_tree: None } if path == "/var/hooks/loadout/dev/run.sh")
    );
    let a = goes(a.advance(AttemptEvent::FileRead(FileRead::Contents(
        b"#!/bin/fish\n".to_vec(),
    ))));
    assert_eq!(a.interpreter().program(), "/bin/fish");
}

#[test]
fn a_missing_script_of_a_loadout_runs_no_hook() {
    let a = goes(begin(
        &external("run.sh"),
        &loadout(),
        Some("loadout/dev/run.sh"),
    ));
    let (status, _, _) = ends(a.advance(AttemptEvent::FileRead(FileRead::Missing(
        "gone".to_string(),
    ))));
    assert_eq!(
        status,
        reason(
            "no staged script at `/var/hooks/loadout/dev/run.sh` (was the hook-script upload skipped?)"
        )
    );
}

#[test]
fn a_project_script_is_looked_for_in_the_workspace_too() {
    let a = goes(begin(
        &external("scripts/run.sh"),
        &project(),
        Some("project/scripts/run.sh"),
    ));
    let a = goes(a.advance(AttemptEvent::FileRead(FileRead::Missing(
        "gone".to_string(),
    ))));
    assert!(
        matches!(a.stage(), AttemptStage::ReadTree { path } if path == "/work/scripts/run.sh")
    );
    let (status, _, _) = ends(a.advance(AttemptEvent::FileRead(FileRead::Failed(
        "denied".to_string(),
    ))));
    assert_eq!(
        status,
        reason(
            "script not staged, and reading `/work/scripts/run.sh` from the workspace failed: denied"
        )
    );
}

#[test]
fn a_script_outside_its_directory_is_not_read() {
    let (status, _, _) = ends(begin(
        &external("run.sh"),
        &loadout(),
        Some("../../etc/passwd"),
    ));
    assert_eq!(
        status,
        reason(
            "hook script path `../../etc/passwd` escapes the session's staged-hooks directory"
        )
    );
    let (status, _, _) = ends(begin(
        &external("run.sh"),
        &Source::Other {
            text: "x".to_string(),
        },
        None,
    ));
    assert_eq!(status, reason("this source cannot declare hook scripts"));
}
