use std::collections::BTreeMap;

use minimald::attach::{
    answer_or_gone, attach_answer, attach_env, destroy_answer, inherited_session_env, launch_host,
    scaffold_mfile_if_missing, unattached_win_size, AttachError, AttachEvent, AttachNext,
    AttachStage, EnsureHost, ManifestSearch, Scaffold,
};
use minimald::env::EnvMap;
use minimald::hooks::{
    HookEvent, HookScript, HookScriptBody, LifecycleHook, ProvenancedHook, Source,
};
use minimald::launch::NetworkMode;
use minimald::promotion::{
    configured, copy_failed, materialize_patches_into_home, verdict_refused, verdict_step,
    ComposeOutcome, FinalizeEvent, FinalizeNext, FinalizeStage, PatchCopy, Promotion, PromotionEnd,
    PromotionEvent, PromotionNext, SessionStep, VerdictFault,
};
use minimald::rpc::{Fault, FaultKind};
use minimald::session::{
    mainloop_end, registry_name, Composition, FarewellStep, Record, Session, SessionAction,
    SessionInner, SessionMessage, SessionPaths, SessionStatus, StopStep, Teardown,
};
use minimald::session_command::{
    archives_dir, at_risk_answer, command_answer, command_in_session, hook_plan, host_answer,
    set_title, shown_by_host, shown_by_session, AtRisk, SessionEnvironment,
};

fn env_of(pairs: &[(&str, &str)]) -> EnvMap {
    let mut env = EnvMap::new();
    for (k, v) in pairs {
        env.insert(k.to_string(), v.to_string());
    }
    env
}

#[test]
fn inherited_session_env_keeps_only_locale_and_tz() {
    let env = env_of(&[
        ("LANG", "en_US.UTF-8"),
        ("LC_CTYPE", "en_US.UTF-8"),
        ("LC_ALL", "C"),
        ("TZ", "America/New_York"),
        ("MINIMAL_SESSION_ID", "00000000-0000-0000-0000-000000000000"),
        ("TRACEPARENT", "00-abc-def-01"),
        ("PATH", "/evil/bin"),
        ("PS1", "# "),
    ]);

    let kept: BTreeMap<String, String> = inherited_session_env(&env).into_iter().collect();

    assert_eq!(kept.get("LANG").map(String::as_str), Some("en_US.UTF-8"));
    assert_eq!(
        kept.get("LC_CTYPE").map(String::as_str),
        Some("en_US.UTF-8")
    );
    assert_eq!(kept.get("LC_ALL").map(String::as_str), Some("C"));
    assert_eq!(kept.get("TZ").map(String::as_str), Some("America/New_York"));
    assert!(!kept.contains_key("MINIMAL_SESSION_ID"));
    assert!(!kept.contains_key("TRACEPARENT"));
    assert!(!kept.contains_key("PATH"));
    assert!(!kept.contains_key("PS1"));
    assert_eq!(kept.len(), 4, "only LANG, LC_*, and TZ should survive");
}

#[test]
fn inherited_session_env_prefix_not_substring() {
    let env = env_of(&[
        ("LC_MESSAGES", "C"),
        ("LC", "nope"),
        ("MYLC_VAR", "nope"),
        ("XLANG", "nope"),
    ]);

    let kept: BTreeMap<String, String> = inherited_session_env(&env).into_iter().collect();

    assert_eq!(
        kept.keys().cloned().collect::<Vec<_>>(),
        vec!["LC_MESSAGES"]
    );
}

#[test]
fn an_attach_brings_its_terminal_and_how_to_leave() {
    let env = attach_env(
        &env_of(&[("TZ", "UTC"), ("HOME", "/root")]),
        "xterm-256color",
        "ctrl-]",
        "d",
    );
    assert_eq!(env.inherited, vec![("TZ".to_string(), "UTC".to_string())]);
    assert_eq!(
        env.connection,
        vec![
            ("TERM".to_string(), "xterm-256color".to_string()),
            ("MINIMAL_DETACH_HINT".to_string(), "ctrl-] then d".to_string()),
        ]
    );
    let without = attach_env(&EnvMap::new(), "", "ctrl-a", "x");
    assert_eq!(
        without.connection,
        vec![("MINIMAL_DETACH_HINT".to_string(), "ctrl-a then x".to_string())]
    );
}

fn record(name: Option<&str>, network: NetworkMode) -> Record {
    Record {
        id: "id-1".to_string(),
        name: name.map(str::to_string),
        project_path: "/src/app".to_string(),
        status: SessionStatus::Active,
        network,
    }
}

fn composition(patches: &[&str]) -> Composition {
    Composition {
        packages: Vec::new(),
        vars: Vec::new(),
        patches: patches.iter().map(|p| p.to_string()).collect(),
        hooks: Vec::new(),
        loadouts_display: String::new(),
    }
}

fn external_hook() -> ProvenancedHook {
    ProvenancedHook {
        source: Source::UserLoadout {
            name: "dev".to_string(),
        },
        declared_by: "loadout `dev`".to_string(),
        hook: LifecycleHook {
            on_activate: None,
            on_destroy: None,
            on_attach: None,
            on_detach: Some(HookScript {
                body: HookScriptBody::External("a.sh".to_string()),
                timeout: 1,
            }),
            description: None,
        },
    }
}

fn draft(pending: bool) -> Session {
    Session {
        inner: SessionInner::Draft { pending },
    }
}

fn active(composition: Option<Composition>, host: bool, sops: usize) -> Session {
    Session {
        inner: SessionInner::Active {
            composition,
            host,
            sops,
        },
    }
}

fn oops(kind: FaultKind, text: &str) -> Fault {
    Fault {
        kind,
        text: text.to_string(),
    }
}

fn paths() -> SessionPaths {
    SessionPaths {
        working: "/s/work".to_string(),
        cache: "/s/cache".to_string(),
        home: "/s/home".to_string(),
        patches: "/s/patches".to_string(),
        hooks: "/s/hooks".to_string(),
    }
}

#[test]
fn a_host_goes_by_its_sessions_name_or_project() {
    assert_eq!(registry_name(&record(Some("box"), NetworkMode::HostNet)), "box");
    assert_eq!(registry_name(&record(None, NetworkMode::HostNet)), "app");
    let mut rootless = record(None, NetworkMode::HostNet);
    rootless.project_path = "/".to_string();
    assert_eq!(registry_name(&rootless), "session");
}

#[test]
fn a_session_comes_up_as_its_record_says() {
    assert!(matches!(
        Session::run(SessionStatus::Pending, None).unwrap().inner,
        SessionInner::Draft { pending: false }
    ));
    let s = Session::run(SessionStatus::Active, Some(composition(&["a"]))).unwrap();
    assert!(matches!(
        s.inner,
        SessionInner::Active { composition: Some(_), host: false, sops: 0 }
    ));
    assert!(matches!(
        Session::run(SessionStatus::Active, None).unwrap().inner,
        SessionInner::Active { composition: None, .. }
    ));
    let refused = Session::run(SessionStatus::Materializing, None).unwrap_err();
    assert_eq!(refused.kind, FaultKind::InvalidData);
    assert_eq!(refused.text, "session record is Materializing but has no in-memory composition (restart-orphaned actor); destroy the session and re-activate");
}

#[test]
fn a_session_is_busy_with_a_verdict_or_a_shell() {
    assert!(draft(true).is_busy());
    assert!(!draft(false).is_busy());
    assert!(active(None, true, 0).is_busy());
    assert!(!active(None, false, 3).is_busy());
}

#[test]
fn only_composed_sessions_with_a_network_have_routes() {
    let own = active(None, false, 0)
        .register_hostname(&record(None, NetworkMode::OwnIp))
        .unwrap();
    assert_eq!((own.name.as_str(), own.own_ip), ("app", true));
    let host = active(None, false, 0)
        .register_hostname(&record(Some("box"), NetworkMode::HostNet))
        .unwrap();
    assert_eq!((host.name.as_str(), host.own_ip), ("box", false));
    assert!(active(None, false, 0)
        .register_hostname(&record(None, NetworkMode::NoNet))
        .is_none());
    assert!(draft(false)
        .deregister_hostname(&record(Some("box"), NetworkMode::HostNet))
        .is_none());
    assert_eq!(
        active(None, true, 0).deregister_hostname(&record(Some("box"), NetworkMode::HostNet)),
        Some("box".to_string())
    );
}

#[test]
fn a_rename_that_fails_keeps_the_old_route() {
    let s = active(None, false, 0);
    let ok = s.rename(
        record(Some("old"), NetworkMode::HostNet),
        "new".to_string(),
        Ok(()),
    );
    assert_eq!(ok.register.unwrap().name, "new");
    assert!(ok.result.is_ok());
    let failed = s.rename(
        record(Some("old"), NetworkMode::HostNet),
        "new".to_string(),
        Err(oops(FaultKind::Other, "disk full")),
    );
    assert_eq!(failed.register.unwrap().name, "old");
    assert_eq!(failed.result.unwrap_err().text, "disk full");
    assert!(draft(false)
        .rename(record(None, NetworkMode::HostNet), "n".to_string(), Ok(()))
        .register
        .is_none());
}

#[test]
fn stopping_ends_side_operations_before_the_host() {
    let mut s = active(Some(composition(&[])), true, 2);
    assert_eq!(
        s.stop_running(true),
        vec![
            StopStep::StopSideOp,
            StopStep::StopSideOp,
            StopStep::KillHost { for_shutdown: true }
        ]
    );
    assert!(matches!(
        s.inner,
        SessionInner::Active { composition: Some(_), host: false, sops: 0 }
    ));
    assert!(s.stop_running(true).is_empty());
    assert!(draft(true).stop_running(false).is_empty());
}

#[test]
fn side_operations_and_hosts_are_counted() {
    let mut s = active(None, false, 0);
    s.add_side_op();
    s.hold_host();
    assert!(s.has_host());
    assert!(matches!(s.inner, SessionInner::Active { host: true, sops: 1, .. }));
    assert!(!draft(false).has_host());
    assert!(active(Some(composition(&["p"])), false, 0).composition().is_some());
    assert!(draft(false).composition().is_none());
}

#[test]
fn only_drafts_are_aborted() {
    assert!(draft(false)
        .abort(Ok(record(None, NetworkMode::NoNet)))
        .is_none());
    let refused = active(None, false, 0)
        .abort(Ok(record(None, NetworkMode::NoNet)))
        .unwrap();
    assert_eq!(refused.kind, FaultKind::InvalidInput);
    assert_eq!(
        refused.text,
        "cannot abort session `id-1`: status is Active, expected Pending"
    );
    let unread = active(None, false, 0)
        .abort(Err(oops(FaultKind::Other, "unreadable")))
        .unwrap();
    assert_eq!(unread.text, "unreadable");
}

#[test]
fn destroying_withdraws_the_route_before_the_record_goes() {
    let mut s = active(None, true, 1);
    let (actions, end) = s.handle_message(SessionMessage::Destroy);
    assert_eq!(
        actions,
        vec![
            SessionAction::Stop(StopStep::StopSideOp),
            SessionAction::Stop(StopStep::KillHost { for_shutdown: false }),
            SessionAction::WithdrawRoute,
            SessionAction::DeleteRecord,
        ]
    );
    assert_eq!(end, Some(Teardown::ManagerInitiated));
    assert!(!s.has_host());
}

#[test]
fn stopping_keeps_the_record() {
    let mut s = active(None, true, 0);
    let (actions, end) = s.handle_message(SessionMessage::Stop);
    assert_eq!(
        actions,
        vec![
            SessionAction::Stop(StopStep::KillHost { for_shutdown: true }),
            SessionAction::WithdrawRoute,
            SessionAction::AnswerDone,
        ]
    );
    assert_eq!(end, Some(Teardown::ManagerInitiated));
}

#[test]
fn messages_are_answered_by_what_the_session_has() {
    for msg in [
        SessionMessage::GetHostAttrs,
        SessionMessage::GetHostScreen,
        SessionMessage::GetWorkspaceDelta,
    ] {
        assert_eq!(
            active(None, true, 0).handle_message(msg),
            (vec![SessionAction::AskHost], None)
        );
        assert_eq!(
            active(None, false, 0).handle_message(msg),
            (vec![SessionAction::AnswerNoHost], None)
        );
    }
    assert_eq!(
        draft(true).handle_message(SessionMessage::IsBusy),
        (vec![SessionAction::AnswerBusy(true)], None)
    );
    assert_eq!(
        draft(true).handle_message(SessionMessage::Abort),
        (
            vec![SessionAction::DeleteRecord],
            Some(Teardown::SelfInitiated)
        )
    );
    assert_eq!(
        active(None, false, 0).handle_message(SessionMessage::Abort),
        (vec![SessionAction::RefuseAbort], None)
    );
    assert_eq!(
        draft(false).handle_message(SessionMessage::Attach),
        (vec![SessionAction::Perform], None)
    );
}

#[test]
fn a_session_that_ends_by_itself_closes_its_mailbox_first() {
    assert_eq!(
        mainloop_end(Teardown::SelfInitiated),
        vec![FarewellStep::CloseMailbox, FarewellStep::Evict]
    );
    assert_eq!(
        mainloop_end(Teardown::ManagerInitiated),
        vec![FarewellStep::CloseMailbox]
    );
}

#[test]
fn a_loadout_is_configured_once() {
    let again = active(None, false, 0).configure_loadout().unwrap_err();
    assert_eq!(again.kind, FaultKind::AlreadyExists);
    assert_eq!(again.text, "session loadout is already configured");
    let waiting = draft(true).configure_loadout().unwrap_err();
    assert_eq!(waiting.kind, FaultKind::WouldBlock);
    assert_eq!(waiting.text, "session already has a pending contribution awaiting SubmitVerdict; abort it and create a new session to retry");
    assert!(matches!(
        draft(false).configure_loadout().unwrap(),
        Promotion::Composing { resumed: false }
    ));
}

#[test]
fn a_verdict_needs_something_to_resume() {
    assert_eq!(
        active(None, false, 0).submit_verdict().unwrap_err(),
        "expected Pending, found Active"
    );
    assert_eq!(
        draft(false).submit_verdict().unwrap_err(),
        "expected Pending, found a session with no composition to resume"
    );
    assert!(matches!(
        draft(true).submit_verdict().unwrap(),
        Promotion::Composing { resumed: true }
    ));
}

fn doing(next: PromotionNext<u8>) -> Promotion {
    match next {
        PromotionNext::Store(p) | PromotionNext::Write(p) => p,
        PromotionNext::Done(e) => panic!("done: {e:?}"),
    }
}

#[test]
fn a_composition_is_stored_before_the_record_is_written() {
    let mut s = draft(false);
    let p = s.configure_loadout().unwrap();
    let next = s.promote(
        p,
        PromotionEvent::Composed(ComposeOutcome::Ready(composition(&["a"]))),
    );
    assert!(matches!(next, PromotionNext::Store(_)));
    let p = doing(next);
    assert_eq!(p.composition().unwrap().patches, vec!["a"]);
    let next = s.promote(p, PromotionEvent::Stored(Ok(())));
    assert!(matches!(next, PromotionNext::Write(_)));
    assert!(matches!(s.inner, SessionInner::Draft { .. }));
    let next = s.promote::<u8>(doing(next), PromotionEvent::Written(Ok(())));
    assert!(matches!(
        next,
        PromotionNext::Done(PromotionEnd::Materialized)
    ));
    assert!(matches!(
        s.inner,
        SessionInner::Active { composition: Some(_), host: false, sops: 0 }
    ));
}

#[test]
fn a_promotion_that_fails_leaves_the_draft() {
    let mut s = draft(true);
    let p = s.submit_verdict().unwrap();
    let next = s.promote::<u8>(
        p,
        PromotionEvent::Composed(ComposeOutcome::Failed(oops(FaultKind::Other, "no"))),
    );
    assert!(matches!(
        next,
        PromotionNext::Done(PromotionEnd::NotComposed(_))
    ));
    assert!(matches!(s.inner, SessionInner::Draft { pending: true }));
    let p = s.submit_verdict().unwrap();
    let p = doing(s.promote(
        p,
        PromotionEvent::Composed(ComposeOutcome::Ready(composition(&[]))),
    ));
    let p = doing(s.promote(p, PromotionEvent::Stored(Ok(()))));
    let next = s.promote::<u8>(
        p,
        PromotionEvent::Written(Err(oops(FaultKind::Other, "disk full"))),
    );
    assert!(matches!(
        next,
        PromotionNext::Done(PromotionEnd::NotSaved(_))
    ));
    assert!(matches!(s.inner, SessionInner::Draft { pending: true }));
}

#[test]
fn a_composition_that_needs_a_verdict_waits_for_it() {
    let mut s = draft(false);
    let p = s.configure_loadout().unwrap();
    let next = s.promote(p, PromotionEvent::Composed(ComposeOutcome::Pending(7u8)));
    assert!(matches!(
        next,
        PromotionNext::Done(PromotionEnd::VerdictOwed(7))
    ));
    assert!(matches!(s.inner, SessionInner::Draft { pending: true }));
    let owed = configured(PromotionEnd::VerdictOwed(7u8), "id-1")
        .unwrap()
        .unwrap();
    assert_eq!(owed.session_id, "id-1");
    assert_eq!(owed.items, 7);
    assert!(configured::<u8>(PromotionEnd::Materialized, "id-1")
        .unwrap()
        .is_none());
    assert_eq!(
        configured::<u8>(PromotionEnd::NotSaved(oops(FaultKind::Other, "x")), "id-1")
            .unwrap_err()
            .text,
        "x"
    );
    assert_eq!(
        configured::<u8>(PromotionEnd::NotComposed(oops(FaultKind::Other, "y")), "id-1")
            .unwrap_err()
            .text,
        "y"
    );
}

fn stage(next: FinalizeNext) -> FinalizeStage {
    match next {
        FinalizeNext::Do(s) => s,
        other => panic!("{other:?}"),
    }
}

fn refusal(next: FinalizeNext) -> (FaultKind, String) {
    match next {
        FinalizeNext::Refused(f) => (f.kind, f.text),
        other => panic!("{other:?}"),
    }
}

#[test]
fn finalizing_needs_the_patches_marker() {
    let s = active(Some(composition(&["etc/a"])), false, 0);
    let st = stage(s.finalize(
        FinalizeStage::ReadRecord,
        FinalizeEvent::Record(Ok(SessionStatus::Materializing)),
    ));
    let st = stage(s.finalize(st, FinalizeEvent::Paths(Ok(paths()))));
    assert!(
        matches!(&st, FinalizeStage::CheckPatches { marker, .. } if marker == "/s/patches/.patches_ready")
    );
    let (kind, text) = refusal(s.finalize(st, FinalizeEvent::Marker(Ok(false))));
    assert_eq!(kind, FaultKind::InvalidInput);
    assert_eq!(text, "patches upload never completed; cannot finalize (upload patches, then retry FinalizeSession)");
    let st = FinalizeStage::CheckPatches {
        paths: paths(),
        marker: "/m".to_string(),
    };
    let (kind, text) = refusal(s.finalize(
        st,
        FinalizeEvent::Marker(Err(oops(FaultKind::WouldBlock, "busy"))),
    ));
    assert_eq!(kind, FaultKind::WouldBlock);
    assert_eq!(text, "checking patches-ready marker at /m: busy");
    let st = FinalizeStage::CheckPatches {
        paths: paths(),
        marker: "/m".to_string(),
    };
    let st = stage(s.finalize(st, FinalizeEvent::Marker(Ok(true))));
    match &st {
        FinalizeStage::CopyPatches { copies } => {
            assert_eq!(copies.len(), 1);
            assert_eq!(copies[0].source, "/s/patches/etc/a");
            assert_eq!(copies[0].target, "/s/home/etc/a");
        }
        other => panic!("{other:?}"),
    }
    let st = stage(s.finalize(st, FinalizeEvent::Copied(Ok(()))));
    assert!(matches!(st, FinalizeStage::WriteRecord));
    assert!(matches!(
        s.finalize(st, FinalizeEvent::Written(Ok(()))),
        FinalizeNext::Activated
    ));
}

#[test]
fn finalizing_needs_the_scripts_marker_of_external_hooks() {
    let mut c = composition(&[]);
    c.hooks.push(external_hook());
    assert!(c.has_external_hooks());
    assert!(!c.has_patches());
    let s = active(Some(c), false, 0);
    let st = stage(s.finalize(FinalizeStage::ReadPaths, FinalizeEvent::Paths(Ok(paths()))));
    assert!(
        matches!(&st, FinalizeStage::CheckScripts { marker, .. } if marker == "/s/hooks/.hooks_ready")
    );
    let (kind, text) = refusal(s.finalize(st, FinalizeEvent::Marker(Ok(false))));
    assert_eq!(kind, FaultKind::InvalidInput);
    assert_eq!(text, "hook scripts upload never completed; cannot finalize (upload hook scripts, then retry FinalizeSession)");
}

#[test]
fn a_verdict_is_answered_by_what_came_of_it() {
    assert!(matches!(
        verdict_step::<u8>(PromotionEnd::Materialized, "id-1"),
        Ok(SessionStep::Materialized { id }) if id == "id-1"
    ));
    assert!(matches!(
        verdict_step::<u8>(PromotionEnd::NotComposed(oops(FaultKind::Other, "no")), "id-1"),
        Ok(SessionStep::Fault { error: VerdictFault::Rejected(f) }) if f.text == "no"
    ));
    assert_eq!(
        verdict_step::<u8>(PromotionEnd::NotSaved(oops(FaultKind::Other, "full")), "id-1")
            .unwrap_err()
            .text,
        "full"
    );
    let what = active(None, false, 0).submit_verdict().unwrap_err();
    assert!(matches!(
        verdict_refused(what),
        SessionStep::Fault { error: VerdictFault::WrongState { what } }
            if what == "expected Pending, found Active"
    ));
}

#[test]
fn finalizing_again_changes_nothing() {
    let s = active(Some(composition(&["a"])), true, 0);
    assert!(matches!(
        s.finalize(
            FinalizeStage::ReadRecord,
            FinalizeEvent::Record(Ok(SessionStatus::Active)),
        ),
        FinalizeNext::AlreadyActive
    ));
}

#[test]
fn finalizing_is_refused_without_a_composition() {
    let (kind, text) = refusal(draft(false).finalize(
        FinalizeStage::ReadRecord,
        FinalizeEvent::Record(Ok(SessionStatus::Pending)),
    ));
    assert_eq!(kind, FaultKind::InvalidInput);
    assert_eq!(text, "session is Pending; configure the loadout first");
    let (_, text) = refusal(active(None, false, 0).finalize(
        FinalizeStage::ReadRecord,
        FinalizeEvent::Record(Ok(SessionStatus::Materializing)),
    ));
    assert_eq!(text, "session is Materializing but has no in-memory composition (restart-orphaned actor); destroy the session and re-activate");
    let (_, text) = refusal(draft(false).finalize(
        FinalizeStage::ReadRecord,
        FinalizeEvent::Record(Err(oops(FaultKind::Other, "gone"))),
    ));
    assert_eq!(text, "gone");
}

#[test]
fn patches_keep_their_place_under_the_home() {
    let copies = materialize_patches_into_home(
        &vec![".config/a".to_string(), "b".to_string()],
        "/s/patches",
        "/s/home",
    );
    assert_eq!(copies.len(), 2);
    assert_eq!(copies[0].source, "/s/patches/.config/a");
    assert_eq!(copies[0].target, "/s/home/.config/a");
    assert_eq!(copies[1].source, "/s/patches/b");
    let failed = copy_failed(
        &PatchCopy {
            source: "/p".to_string(),
            target: "/h".to_string(),
        },
        oops(FaultKind::NotFound, "no such file"),
    );
    assert_eq!(failed.kind, FaultKind::NotFound);
    assert_eq!(failed.text, "materializing patch /p \u{2192} /h: no such file");
}

fn attach_stage(next: AttachNext) -> AttachStage {
    match next {
        AttachNext::Do(s) => s,
        other => panic!("{other:?}"),
    }
}

fn attach_refusal(next: AttachNext) -> AttachError {
    match next {
        AttachNext::Refused(e) => e,
        other => panic!("{other:?}"),
    }
}

#[test]
fn attaching_configures_a_session_that_never_was() {
    let mut s = draft(false);
    assert_eq!(s.begin_attach(true).unwrap(), AttachStage::Configure);
    s.inner = SessionInner::Active {
        composition: Some(composition(&[])),
        host: false,
        sops: 0,
    };
    let st = attach_stage(s.attach(AttachStage::Configure, AttachEvent::Configured(Ok(()))));
    assert_eq!(st, AttachStage::Finalize);
    let st = attach_stage(s.attach(st, AttachEvent::Finalized(Ok(()))));
    assert_eq!(st, AttachStage::ReadRecord);
    let st = attach_stage(s.attach(st, AttachEvent::Record(Ok(SessionStatus::Active))));
    assert_eq!(st, AttachStage::Launch);
    let st = attach_stage(s.attach(st, AttachEvent::Launched(Ok(()))));
    assert_eq!(st, AttachStage::Bind);
    assert!(!s.has_host());
    assert!(matches!(
        s.attach(st, AttachEvent::Bound(true)),
        AttachNext::Attached
    ));
    assert!(s.has_host());
}

#[test]
fn attaching_waits_for_no_verdict() {
    let mut s = draft(false);
    let st = s.begin_attach(true).unwrap();
    assert_eq!(st, AttachStage::Configure);
    let p = s.configure_loadout().unwrap();
    let next = s.promote(p, PromotionEvent::Composed(ComposeOutcome::Pending(7u8)));
    assert!(matches!(
        next,
        PromotionNext::Done(PromotionEnd::VerdictOwed(7))
    ));
    let e = attach_refusal(s.attach(st, AttachEvent::Configured(Ok(()))));
    assert!(matches!(e, AttachError::SessionPending));
    assert!(matches!(s.inner, SessionInner::Draft { pending: true }));
    assert!(s.submit_verdict().is_ok());
}

#[test]
fn attaching_cannot_upload_patches() {
    let mut s = active(Some(composition(&["a"])), false, 0);
    let e = attach_refusal(s.attach(AttachStage::Configure, AttachEvent::Configured(Ok(()))));
    assert_eq!(e.message(), "configuring session loadout: composition has patches that can only be uploaded via `min session activate` (ConfigureLoadout \u{2192} WorkspacePatchesTarZst \u{2192} FinalizeSession); the attach shortcut can't drive that sequence \u{2014} destroy this session and re-activate through the CLI");
}

#[test]
fn attaching_joins_the_host_that_runs_or_launches_another() {
    let mut s = active(None, true, 0);
    let st = attach_stage(s.attach(
        AttachStage::ReadRecord,
        AttachEvent::Record(Ok(SessionStatus::Active)),
    ));
    assert_eq!(st, AttachStage::Join);
    assert!(matches!(
        s.attach(st, AttachEvent::Joined(true)),
        AttachNext::Attached
    ));
    let st = attach_stage(s.attach(AttachStage::Join, AttachEvent::Joined(false)));
    assert_eq!(st, AttachStage::Launch);
    let e = attach_refusal(s.attach(AttachStage::Bind, AttachEvent::Bound(false)));
    assert_eq!(
        e.message(),
        "session spawn: session host exited before its channel could attach"
    );
}

#[test]
fn attaching_is_refused_until_the_session_is_active() {
    assert!(matches!(
        draft(true).begin_attach(false),
        Err(AttachError::NoPty)
    ));
    let mut s = draft(true);
    assert_eq!(s.begin_attach(true).unwrap(), AttachStage::ReadRecord);
    for status in [
        SessionStatus::Pending,
        SessionStatus::Materializing,
        SessionStatus::Active,
    ] {
        let e = attach_refusal(s.attach(AttachStage::ReadRecord, AttachEvent::Record(Ok(status))));
        assert!(matches!(e, AttachError::SessionPending));
    }
    let e = attach_refusal(active(None, false, 0).attach(
        AttachStage::ReadRecord,
        AttachEvent::Record(Ok(SessionStatus::Materializing)),
    ));
    assert_eq!(e.message(), "session isn't attachable yet (still awaiting either SubmitVerdict or FinalizeSession)");
    let e = attach_refusal(s.attach(
        AttachStage::ReadRecord,
        AttachEvent::Record(Err(oops(FaultKind::Other, "unreadable"))),
    ));
    assert_eq!(e.source(), Some("unreadable"));
}

#[test]
fn attach_errors_say_what_went_wrong() {
    assert_eq!(
        AttachError::NoPty.message(),
        "SSH channel did not configure a PTY"
    );
    assert_eq!(
        AttachError::ContextCreationFailed("x".to_string()).message(),
        "init of minimal context: x"
    );
    let policy = AttachError::InvalidPolicy("bad".to_string());
    assert_eq!(policy.message(), "invalid session policy: bad");
    assert_eq!(policy.source(), Some("bad"));
    assert_eq!(AttachError::NoPty.source(), None);
}

#[test]
fn a_host_is_reused_while_it_lives() {
    let s = active(None, true, 0);
    assert!(matches!(
        s.ensure_host(Ok(SessionStatus::Active), true),
        EnsureHost::Reuse
    ));
    assert!(matches!(
        s.ensure_host(Ok(SessionStatus::Active), false),
        EnsureHost::Launch
    ));
    assert!(matches!(
        active(None, false, 0).ensure_host(Ok(SessionStatus::Active), false),
        EnsureHost::Launch
    ));
    assert!(matches!(
        s.ensure_host(Ok(SessionStatus::Materializing), true),
        EnsureHost::Refused(AttachError::SessionPending)
    ));
    assert!(matches!(
        draft(false).ensure_host(Ok(SessionStatus::Active), true),
        EnsureHost::Refused(AttachError::SessionPending)
    ));
    assert!(matches!(
        s.ensure_host(Err(oops(FaultKind::Other, "x")), true),
        EnsureHost::Refused(AttachError::LoadoutFailed(_))
    ));
    let size = unattached_win_size();
    assert_eq!((size.rows, size.cols, size.xpixel, size.ypixel), (24, 80, 0, 0));
}

#[test]
fn packages_are_there_for_active_sessions_only() {
    assert!(active(None, false, 0)
        .context(Ok(SessionStatus::Active))
        .is_ok());
    assert_eq!(
        draft(false).context(Ok(SessionStatus::Active)).unwrap_err(),
        "session is pending composition"
    );
    assert_eq!(
        active(None, false, 0)
            .context(Ok(SessionStatus::Materializing))
            .unwrap_err(),
        "session isn't attachable yet (status is Materializing, need Active \u{2014} finish the upload + FinalizeSession sequence first)"
    );
    assert_eq!(
        active(None, false, 0)
            .context(Err(oops(FaultKind::Other, "gone")))
            .unwrap_err(),
        "reading session record: gone"
    );
}

#[test]
fn side_operations_of_drafts_are_invalid() {
    let refused = draft(false)
        .side_op_refused(Err("session is pending composition".to_string()))
        .unwrap();
    assert_eq!(refused.kind, FaultKind::InvalidInput);
    assert_eq!(refused.text, "session is pending composition");
    let refused = active(None, false, 0)
        .side_op_refused(Err("broken".to_string()))
        .unwrap();
    assert_eq!(refused.kind, FaultKind::Other);
    assert!(active(None, false, 0).side_op_refused(Ok(())).is_none());
}

#[test]
fn a_launch_fails_for_its_policy_first() {
    let bad = || Err("bad".to_string());
    assert!(matches!(
        launch_host(bad(), bad(), Err(oops(FaultKind::Other, "x"))),
        Err(AttachError::InvalidPolicy(_))
    ));
    assert!(matches!(
        launch_host(Ok(()), bad(), Err(oops(FaultKind::Other, "x"))),
        Err(AttachError::ContextCreationFailed(_))
    ));
    assert!(matches!(
        launch_host(Ok(()), Ok(()), Err(oops(FaultKind::Other, "x"))),
        Err(AttachError::SpawnFailed(_))
    ));
    assert!(launch_host(Ok(()), Ok(()), Ok(())).is_ok());
}

#[test]
fn a_manifest_is_written_only_where_there_is_none() {
    assert!(matches!(
        scaffold_mfile_if_missing(true, ManifestSearch::NotFound),
        Scaffold::Keep
    ));
    assert!(matches!(
        scaffold_mfile_if_missing(false, ManifestSearch::Found),
        Scaffold::Keep
    ));
    assert!(matches!(
        scaffold_mfile_if_missing(false, ManifestSearch::NotFound),
        Scaffold::Write
    ));
    assert!(
        matches!(scaffold_mfile_if_missing(false, ManifestSearch::Failed("e".to_string())), Scaffold::Failed(e) if e == "e")
    );
}

#[test]
fn a_session_that_is_gone_says_so() {
    let gone = answer_or_gone::<()>(None).unwrap_err();
    assert_eq!(gone.kind, FaultKind::NotConnected);
    assert_eq!(gone.text, "session actor is gone");
    assert_eq!(answer_or_gone(Some(Ok(3))).unwrap(), 3);
    assert_eq!(
        attach_answer::<()>(None, true).unwrap_err().message(),
        "session spawn: session actor terminated before the host could be launched"
    );
    assert_eq!(
        attach_answer::<()>(None, false).unwrap_err().message(),
        "session spawn: session actor terminated before the attach completed"
    );
    assert!(attach_answer(Some(Ok(())), false).is_ok());
    assert!(destroy_answer(None).is_ok());
    assert!(destroy_answer(Some(Ok(()))).is_ok());
    assert_eq!(
        destroy_answer(Some(Err(oops(FaultKind::Other, "busy"))))
            .unwrap_err()
            .text,
        "busy"
    );
}

#[test]
fn a_command_in_a_session_adds_to_its_variables() {
    let environment = SessionEnvironment {
        cwd: b"/workbench".to_vec(),
        vars: env_of(&[("A", "1"), ("B", "2")]),
    };
    let injection = command_in_session(
        Ok(42),
        b"sh".to_vec(),
        vec![b"-s".to_vec()],
        environment,
        &env_of(&[("B", "3"), ("C", "4")]),
    )
    .unwrap();
    let plan = injection
        .command(Ok(Vec::new()), Ok(()), Ok(b"/shim".to_vec()), true)
        .unwrap();
    let env = plan.env.unwrap();
    assert_eq!(env.get("A").map(String::as_str), Some("1"));
    assert_eq!(env.get("B").map(String::as_str), Some("3"));
    assert_eq!(env.get("C").map(String::as_str), Some("4"));
    assert_eq!(env.len(), 3);
    assert!(plan.args.contains(&b"/workbench".to_vec()));
}

#[test]
fn a_host_that_stopped_builds_no_command() {
    assert_eq!(
        command_answer::<()>(None).unwrap_err().text,
        "session host stopped before the command could be built"
    );
    assert_eq!(
        command_answer::<()>(Some(Err("e".to_string()))).unwrap_err().text,
        "e"
    );
    assert_eq!(command_answer(Some(Ok(1))).unwrap(), 1);
}

#[test]
fn a_host_that_is_gone_shows_nothing() {
    assert_eq!(host_answer(Some(3)), Ok(3));
    assert_eq!(host_answer::<u8>(None), Err(()));
    assert_eq!(shown_by_host(Some(Ok(3))), Some(3));
    assert_eq!(shown_by_host::<u8>(Some(Err(()))), None);
    assert_eq!(shown_by_host::<u8>(None), None);
    assert_eq!(shown_by_session(Some(Some(3))), Some(3));
    assert_eq!(shown_by_session::<u8>(None), None);
    assert!(matches!(
        at_risk_answer(Some(AtRisk::Known(3))),
        AtRisk::Known(3)
    ));
    assert!(matches!(at_risk_answer::<u8>(None), AtRisk::Unavailable));
}

#[test]
fn hooks_run_where_there_is_a_composition_and_a_shell() {
    let environment = || SessionEnvironment {
        cwd: Vec::new(),
        vars: EnvMap::new(),
    };
    let c = composition(&[]);
    let plan = hook_plan(
        HookEvent::Attach,
        Some(&c),
        Ok(7),
        environment(),
        &paths(),
        "/dev/pts/1",
    )
    .unwrap();
    assert_eq!(plan.leader_pid, 7);
    assert_eq!(plan.hooks_dir, "/s/hooks");
    assert_eq!(plan.workspace, "/s/work");
    assert_eq!(plan.tty_path, "/dev/pts/1");
    assert!(hook_plan(HookEvent::Attach, None, Ok(7), environment(), &paths(), "t").is_none());
}

#[test]
fn a_title_that_is_not_utf8_is_ignored() {
    assert_eq!(set_title("h\u{e9}".as_bytes()), Some("h\u{e9}".to_string()));
    assert_eq!(set_title(b"\xff"), None);
    assert_eq!(archives_dir("/state"), "/state/archives");
}
