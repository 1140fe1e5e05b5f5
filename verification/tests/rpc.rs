use minimald::hooks::contained_relative_path;
use minimald::host::HostAttrs;
use minimald::rpc::{
    adopt_trace, certificates_unavailable, clean_refused, configure_reply, create_session_reply,
    delta_reply, detect_resource_pool, found_reply, handle_ssh_rpc, hooks_reply, list_entry,
    logged_name, lookup_start, lookup_step, oneshot_reply, outcome_reply, policy_reply,
    requested_age, running_attrs, screen_reply, session_reply, session_reply_or_failure,
    shutdown_plan, stream_name, tally, unpack_failed, update_line, verdict_reply, CleanCacheUpdate,
    CleanEvent, CleanReport, CleanStream, Dispatch, Errorable, Fault, FaultKind, ListedSession,
    LoadoutReply, LookupEvent, LookupStage, Reply, RequestMsg, RequestReader, Rpc, RpcTable,
    ShutdownReply, ShutdownStep, TraceIds, VerdictReply,
};
use minimald::session::SessionStatus;
use minimald::session_command::AtRisk;
use minimald::upload::{
    check_entry, check_entry_as, safe_relative_path, staging_path, write_error, EntryRead, SwapEnd,
    Unpack, UnpackEvent, UnpackNext, UnpackStage, UnpackTarget, WriteEnd, WriteStep,
    MAX_HOOK_SCRIPT_BYTES, MAX_UNPACK_INFLIGHT_BYTES, MAX_PATCH_ENTRY_BYTES,
};

fn oops(kind: FaultKind, text: &str) -> Fault {
    Fault {
        kind,
        text: text.to_string(),
    }
}

fn failure<T>(reply: Result<Errorable<T>, String>) -> String {
    match reply {
        Ok(Errorable::Failure { error }) => error,
        Ok(Errorable::Value(_)) => panic!("a value"),
        Err(e) => panic!("internal: {e}"),
    }
}

fn value<T>(reply: Result<Errorable<T>, String>) -> T {
    match reply {
        Ok(Errorable::Value(v)) => v,
        Ok(Errorable::Failure { error }) => panic!("failure: {error}"),
        Err(e) => panic!("internal: {e}"),
    }
}

#[test]
fn safe_relative_path_rejects_absolute_and_traversal() {
    assert!(!safe_relative_path(b"/etc/foo"));
    assert!(!safe_relative_path(b"../evil"));
    assert!(!safe_relative_path(b"a/../b"));
    assert!(!safe_relative_path(b"a/b/.."));
    assert!(safe_relative_path(b"a"));
    assert!(safe_relative_path(b"a/b/c"));
    assert!(safe_relative_path(b".config/helix/config.toml"));
}

fn header(kind: async_tar::EntryType, size: u64) -> Vec<u8> {
    let mut h = async_tar::Header::new_gnu();
    h.set_entry_type(kind);
    h.set_size(size);
    h.set_cksum();
    h.as_bytes().to_vec()
}

#[test]
fn an_entry_is_checked_by_its_header() {
    let t = UnpackTarget::patches("/s/patches".to_string());
    assert_eq!(
        check_entry(&t, b"a/b", &header(async_tar::EntryType::Regular, 12)),
        Ok(12)
    );
    assert_eq!(
        check_entry(&t, b"a/b", &header(async_tar::EntryType::Regular, MAX_PATCH_ENTRY_BYTES)),
        Ok(MAX_PATCH_ENTRY_BYTES)
    );
    let over = check_entry(
        &t,
        b"a/b",
        &header(async_tar::EntryType::Regular, MAX_PATCH_ENTRY_BYTES + 1),
    )
    .unwrap_err();
    assert!(over.contains("1073741825 bytes"));
    assert!(over.contains("1073741824-byte per-entry cap"));
    let link = check_entry(&t, b"a", &header(async_tar::EntryType::Symlink, 0)).unwrap_err();
    assert!(link.contains("only regular files are supported"));
}

#[test]
fn entries_that_could_do_harm_are_refused() {
    let t = UnpackTarget::hook_scripts("/s/hooks".to_string());
    assert_eq!(check_entry_as(&t, b"a.sh", "a.sh", 48, 10), None);
    assert!(check_entry_as(&t, b"../a", "../a", 48, 10)
        .unwrap()
        .contains("contains an absolute path or a `..` component"));
    assert!(check_entry_as(&t, b"./.hooks_ready", "./.hooks_ready", 48, 0).is_none());
    assert!(check_entry_as(&t, b".hooks_ready", ".hooks_ready", 48, 0)
        .unwrap()
        .contains("collides with the daemon's ready-marker filename"));
    assert!(check_entry_as(&t, b"d", "d", 53, 0)
        .unwrap()
        .contains("only regular files"));
    assert!(check_entry_as(&t, b"a", "a", 48, MAX_HOOK_SCRIPT_BYTES + 1).is_some());
}

#[test]
fn an_upload_is_staged_swapped_and_marked() {
    let mut u = Unpack::start(UnpackTarget::patches("/s/patches".to_string()), 7, 1);
    assert!(matches!(u.stage(), UnpackStage::Prepare));
    assert_eq!(u.dir(), "/s/patches");
    assert_eq!(u.marker_path(), "/s/patches/.patches_ready");
    assert_eq!(u.staging(), staging_path("/s/patches", 7));
    assert_ne!(u.staging(), staging_path("/s/patches", 8));
    u.step(UnpackEvent::Prepared { error: None });
    u.step(UnpackEvent::Opened { error: None });
    for round in 0..2 {
        u.step(UnpackEvent::Entry(EntryRead::Found {
            path: b"x/y".to_vec(),
            header: header(async_tar::EntryType::Regular, 3),
        }));
        if round == 1 {
            assert!(matches!(u.stage(), UnpackStage::MakeRoom(_)));
            u.step(UnpackEvent::Joined(WriteEnd::Written));
        }
        assert!(matches!(u.stage(), UnpackStage::ReadBody(_)));
        match u.step(UnpackEvent::BodyRead { error: None }) {
            UnpackNext::Spawn(job) => {
                assert_eq!(job.shown, "x/y");
                assert_eq!(job.reserved, 3);
                assert_eq!(
                    job.dest,
                    format!("{}/x/y", u.staging()).into_bytes()
                );
            }
            _ => panic!("a file should be written"),
        }
    }
    u.step(UnpackEvent::Entry(EntryRead::End));
    assert!(matches!(u.stage(), UnpackStage::Drain));
    u.step(UnpackEvent::Joined(WriteEnd::Written));
    assert!(matches!(u.stage(), UnpackStage::Swap));
    u.step(UnpackEvent::Swapped(SwapEnd::NoPrior));
    assert!(matches!(u.stage(), UnpackStage::Rename));
    u.step(UnpackEvent::Renamed { error: None });
    assert!(matches!(u.stage(), UnpackStage::WriteMarker));
    assert!(matches!(
        u.step(UnpackEvent::MarkerWritten { error: None }),
        UnpackNext::End(Ok(()))
    ));
}

#[test]
fn what_is_held_for_all_writes_stays_within_its_limit() {
    let mut u = Unpack::start(UnpackTarget::patches("/s/patches".to_string()), 7, 4);
    u.step(UnpackEvent::Prepared { error: None });
    u.step(UnpackEvent::Opened { error: None });
    let entry = |name: &str, size: u64| {
        UnpackEvent::Entry(EntryRead::Found {
            path: name.as_bytes().to_vec(),
            header: header(async_tar::EntryType::Regular, size),
        })
    };
    u.step(entry("a", MAX_UNPACK_INFLIGHT_BYTES - 1));
    let first = match u.step(UnpackEvent::BodyRead { error: None }) {
        UnpackNext::Spawn(job) => job.reserved,
        _ => panic!("a file should be written"),
    };
    assert_eq!(first, MAX_UNPACK_INFLIGHT_BYTES - 1);
    u.step(entry("empty", 0));
    match u.step(UnpackEvent::BodyRead { error: None }) {
        UnpackNext::Spawn(job) => assert_eq!(job.reserved, 1),
        _ => panic!("a file should be written"),
    }
    u.step(entry("b", 2));
    assert!(matches!(u.stage(), UnpackStage::Reserve(_)));
    u.step(UnpackEvent::LetGo { bytes: 1 });
    assert!(matches!(u.stage(), UnpackStage::Reserve(_)));
    u.step(UnpackEvent::LetGo { bytes: first });
    assert!(matches!(u.stage(), UnpackStage::ReadBody(_)));

    let mut u = Unpack::start(UnpackTarget::patches("/s/patches".to_string()), 7, 4);
    u.step(UnpackEvent::Prepared { error: None });
    u.step(UnpackEvent::Opened { error: None });
    u.step(entry("a", MAX_UNPACK_INFLIGHT_BYTES));
    u.step(UnpackEvent::BodyRead { error: None });
    u.step(entry("b", 1));
    u.step(UnpackEvent::NoRoom {
        error: "closed".to_string(),
    });
    match u.step(UnpackEvent::Aborted) {
        UnpackNext::End(Err(e)) => assert_eq!(e, "byte-budget semaphore closed: closed"),
        _ => panic!("the upload should fail"),
    }
}

#[test]
fn what_may_be_read_may_be_written() {
    for path in [
        "", ".", "..", "...", "a/..", "../a", "a/../b", "./a", "/a", "/..", "\u{e9}/..", "..\u{e9}",
        "a//b/...", "\u{2192}/\u{1f600}",
    ] {
        assert_eq!(
            contained_relative_path(path),
            safe_relative_path(path.as_bytes()),
            "{path:?}"
        );
    }
    assert!(!safe_relative_path("\u{e9}/..".as_bytes()));
    assert!(safe_relative_path("..\u{e9}".as_bytes()));
}

#[test]
fn only_files_go_on_to_be_unpacked() {
    let mut u = Unpack::start(UnpackTarget::patches("/s/patches".to_string()), 7, 4);
    u.step(UnpackEvent::Prepared { error: None });
    u.step(UnpackEvent::Opened { error: None });
    u.step(UnpackEvent::Entry(EntryRead::Found {
        path: b"a".to_vec(),
        header: header(async_tar::EntryType::Continuous, 3),
    }));
    assert!(matches!(u.stage(), UnpackStage::ReadBody(e) if e.path == b"a" && e.size == 3));
    u.step(UnpackEvent::BodyRead { error: None });
    u.step(UnpackEvent::Entry(EntryRead::Found {
        path: b"b".to_vec(),
        header: header(async_tar::EntryType::Symlink, 0),
    }));
    assert!(matches!(u.stage(), UnpackStage::Abort { .. }));
}

#[test]
fn a_second_upload_replaces_the_first() {
    let mut u = Unpack::start(UnpackTarget::patches("/s/patches".to_string()), 7, 4);
    u.step(UnpackEvent::Prepared { error: None });
    u.step(UnpackEvent::Opened { error: None });
    u.step(UnpackEvent::Entry(EntryRead::End));
    u.step(UnpackEvent::Swapped(SwapEnd::Exchanged));
    assert!(matches!(u.stage(), UnpackStage::RemoveOld));
    u.step(UnpackEvent::OldRemoved);
    assert!(matches!(u.stage(), UnpackStage::WriteMarker));
    match u.step(UnpackEvent::MarkerWritten {
        error: Some("full".to_string()),
    }) {
        UnpackNext::End(Err(e)) => assert!(e.ends_with("-ready marker: full")),
        _ => panic!("the upload should fail"),
    }
}

#[test]
fn a_refused_entry_aborts_the_upload() {
    let mut u = Unpack::start(UnpackTarget::patches("/s/patches".to_string()), 7, 4);
    u.step(UnpackEvent::Prepared { error: None });
    u.step(UnpackEvent::Opened { error: None });
    u.step(UnpackEvent::Entry(EntryRead::Found {
        path: b"../../etc/passwd".to_vec(),
        header: header(async_tar::EntryType::Regular, 3),
    }));
    assert!(matches!(u.stage(), UnpackStage::Abort { .. }));
    match u.step(UnpackEvent::Aborted) {
        UnpackNext::End(Err(e)) => assert!(e.contains("`../../etc/passwd`")),
        _ => panic!("the upload should fail"),
    }
}

#[test]
fn errors_of_an_upload_say_where_they_happened() {
    let ended = |next: UnpackNext| match next {
        UnpackNext::End(Err(e)) => e,
        _ => panic!("the upload should fail"),
    };
    let fresh = || Unpack::start(UnpackTarget::patches("/p".to_string()), 1, 2);
    let mut u = fresh();
    let e = ended(u.step(UnpackEvent::Prepared {
        error: Some("x".to_string()),
    }));
    assert!(e.contains("staging dir: x"));
    let mut u = fresh();
    u.step(UnpackEvent::Prepared { error: None });
    let e = ended(u.step(UnpackEvent::Opened {
        error: Some("y".to_string()),
    }));
    assert!(e.contains("tar entries: y"));
    let mut u = fresh();
    u.step(UnpackEvent::Prepared { error: None });
    u.step(UnpackEvent::Opened { error: None });
    u.step(UnpackEvent::Entry(EntryRead::BadPath("z".to_string())));
    assert_eq!(ended(u.step(UnpackEvent::Aborted)), "decoding entry path: z");
    assert!(write_error(WriteStep::File, "a", "denied").contains("denied"));
    assert!(write_error(WriteStep::Parent, "a", "denied").contains("denied"));
    assert_eq!(unpack_failed("e"), "unpack failed: e");
}

#[test]
fn the_session_of_an_upload_is_looked_up() {
    assert_eq!(
        lookup_start(None).unwrap_err(),
        "missing env-var MINIMAL_SESSION_ID"
    );
    let stage = lookup_start(Some("id")).unwrap();
    assert!(matches!(&stage, LookupStage::ParseId { text } if text == "id"));
    let stage = lookup_step(stage, LookupEvent::Parsed { error: None }).unwrap();
    let stage = lookup_step(stage, LookupEvent::Looked(Ok(true))).unwrap();
    let stage = lookup_step(stage, LookupEvent::PathsTold { error: None }).unwrap();
    assert!(matches!(stage, LookupStage::Found));
    assert_eq!(
        lookup_step(LookupStage::FindSession, LookupEvent::Looked(Ok(false))).unwrap_err(),
        "unknown session UUID"
    );
    assert_eq!(
        lookup_step(
            LookupStage::AskPaths,
            LookupEvent::PathsTold { error: Some("e".to_string()) }
        )
        .unwrap_err(),
        "session is gone: e"
    );
}

#[test]
fn every_byte_is_counted() {
    assert_eq!(tally(10, 0, 5), 15);
    assert_eq!(tally(10, 5, 5), 10);
    assert_eq!(tally(10, 6, 5), 10);
}

#[test]
fn a_channel_is_served_once() {
    let table = RpcTable {
        entries: vec![
            ("p/GetVersion".to_string(), Rpc::GetVersion),
            ("p/Shutdown".to_string(), Rpc::Shutdown),
        ],
    };
    assert_eq!(
        handle_ssh_rpc(&table, "p/Shutdown", true),
        Dispatch::Serve(Rpc::Shutdown)
    );
    assert_eq!(handle_ssh_rpc(&table, "p/Shutdown", false), Dispatch::Refuse);
    assert_eq!(handle_ssh_rpc(&table, "p/Other", true), Dispatch::Refuse);
    assert_eq!(table.lookup("p/GetVersion"), Some(Rpc::GetVersion));
    assert_eq!(
        stream_name("p/", Rpc::StreamWorkspacePatches).as_deref(),
        Some("p/WorkspacePatchesTarZst")
    );
    assert_eq!(stream_name("p/", Rpc::GetVersion), None);
}

#[test]
fn a_trace_is_continued_where_the_client_has_one() {
    let fresh = TraceIds { trace: 1, span: 2 };
    let own = adopt_trace(None, fresh);
    assert_eq!((own.ids, own.parent), (fresh, None));
    let joined = adopt_trace(Some(TraceIds { trace: 8, span: 9 }), fresh);
    assert_eq!(joined.ids, TraceIds { trace: 8, span: 2 });
    assert_eq!(joined.parent, Some(9));
}

#[test]
fn a_request_is_collected_until_it_ends() {
    let mut r = RequestReader::new();
    assert!(!r.take(RequestMsg::Data(b"{\"a\"".to_vec())));
    assert!(!r.take(RequestMsg::Other));
    assert!(!r.take(RequestMsg::Data(b":1}".to_vec())));
    assert!(r.take(RequestMsg::Ended));
    assert_eq!(r.into_bytes(), b"{\"a\":1}");
    assert!(matches!(oneshot_reply(Ok(b"ok".to_vec())), Reply::Response(b) if b == b"ok"));
    assert!(matches!(oneshot_reply(Err("bad".to_string())), Reply::Error(e) if e == "bad"));
}

#[test]
fn creating_a_session_tells_a_taken_name() {
    assert_eq!(value(create_session_reply(Ok(5))), 5);
    assert_eq!(
        failure(create_session_reply::<()>(Err(oops(
            FaultKind::AlreadyExists,
            "x"
        )))),
        "A session with that name already exists"
    );
    assert_eq!(
        failure(create_session_reply::<()>(Err(oops(
            FaultKind::InvalidInput,
            "egress needs OwnIp"
        )))),
        "egress needs OwnIp"
    );
    assert!(matches!(
        create_session_reply::<()>(Err(oops(FaultKind::Other, "disk"))),
        Err(e) if e == "disk"
    ));
}

#[test]
fn unknown_sessions_are_named() {
    let none = || Ok(None);
    assert_eq!(
        failure(session_reply::<()>("u-1", none())),
        "no session with ID `u-1`"
    );
    assert_eq!(
        failure(session_reply_or_failure::<()>("u-1", none())),
        "no session with ID `u-1`"
    );
    assert!(session_reply::<()>("u", Err(oops(FaultKind::Other, "db"))).is_err());
    assert_eq!(
        failure(session_reply_or_failure::<()>(
            "u",
            Err(oops(FaultKind::Other, "db"))
        )),
        "db"
    );
    assert_eq!(value(session_reply("u", Ok(Some(Ok(1))))), 1);
    assert!(matches!(
        verdict_reply::<()>(Ok(None)),
        Ok(VerdictReply::UnknownSession)
    ));
    assert!(matches!(
        verdict_reply::<()>(Ok(Some(Err(oops(FaultKind::NotConnected, "gone"))))),
        Ok(VerdictReply::UnknownSession)
    ));
    assert!(matches!(
        verdict_reply(Ok(Some(Ok(2)))),
        Ok(VerdictReply::Step(2))
    ));
    assert!(matches!(verdict_reply::<()>(Err(oops(FaultKind::Other, "io"))), Err(e) if e == "io"));
}

#[test]
fn answers_carry_what_was_found() {
    assert_eq!(value(outcome_reply(Ok(1))), 1);
    assert_eq!(failure(outcome_reply::<()>(Err("e".to_string()))), "e");
    assert_eq!(failure(found_reply::<()>(Ok(None), "nothing")), "nothing");
    assert_eq!(failure(policy_reply::<()>(Ok(None))), "no session found");
    assert_eq!(value(policy_reply(Ok(Some(3)))), 3);
    assert!(screen_reply::<()>(Err("x".to_string())).is_err());
    assert!(matches!(
        screen_reply::<()>(Ok(None)),
        Ok(Errorable::Failure { .. })
    ));
    assert_eq!(value(hooks_reply(Ok(true), Ok(Some(vec![1])))), vec![1]);
    assert!(matches!(
        hooks_reply::<()>(Ok(false), Ok(None)),
        Ok(Errorable::Failure { .. })
    ));
    assert!(matches!(
        delta_reply(Ok(Some(AtRisk::Known(4)))),
        AtRisk::Known(4)
    ));
    assert!(matches!(delta_reply::<()>(Ok(None)), AtRisk::Unavailable));
    assert!(matches!(
        delta_reply::<()>(Err(oops(FaultKind::Other, "x"))),
        AtRisk::Unavailable
    ));
    assert!(matches!(
        value(configure_reply::<()>("u", Ok(Some(Ok(None))))),
        LoadoutReply::Materialized
    ));
    assert!(matches!(
        value(configure_reply("u", Ok(Some(Ok(Some(9)))))),
        LoadoutReply::Pending { response: 9 }
    ));
    assert_eq!(
        failure(configure_reply::<()>(
            "u",
            Ok(Some(Err(oops(FaultKind::NotConnected, "session actor is gone"))))
        )),
        "no session with ID `u`"
    );
    assert_eq!(
        failure(configure_reply::<()>("u", Ok(Some(Err(oops(FaultKind::WouldBlock, "pending")))))),
        "pending"
    );
    assert_eq!(
        failure(certificates_unavailable::<()>()),
        "minimald was built without the networking-proxy feature; client certificate issuance is unavailable"
    );
}

#[test]
fn a_shutdown_closes_the_log_before_the_volume() {
    assert_eq!(
        shutdown_plan(true, true),
        (
            vec![
                ShutdownStep::ReleaseLog,
                ShutdownStep::QuiesceVolume,
                ShutdownStep::StopAccepting
            ],
            ShutdownReply::ShuttingDown
        )
    );
    assert_eq!(
        shutdown_plan(true, false).0,
        vec![ShutdownStep::ReleaseLog, ShutdownStep::StopAccepting]
    );
    assert_eq!(
        shutdown_plan(false, true),
        (Vec::new(), ShutdownReply::SessionsLive)
    );
}

#[test]
fn resources_are_known_or_not() {
    let pool = detect_resource_pool(Some(8), 1 << 30).unwrap();
    assert_eq!((pool.cpu_cores, pool.memory_bytes), (8, 1 << 30));
    assert!(detect_resource_pool(None, 1).is_none());
    assert!(detect_resource_pool(Some(8), 0).is_none());
}

#[test]
fn a_list_tells_of_bells_that_rang() {
    let attrs = HostAttrs {
        title: Some(("t".to_string(), 4)),
        audible_bell: (2, Some(9)),
        visual_bell: (0, None),
        stdout_last: Some(1),
        stdin_last: None,
    };
    let out = running_attrs(attrs.clone());
    assert_eq!(out.audible_bell.unwrap().count, 2);
    assert!(out.visual_bell.is_none());
    assert_eq!(out.title.unwrap().updated_at, 4);
    let entry = list_entry(ListedSession {
        id: "i".to_string(),
        name: None,
        project_path: "/p".to_string(),
        status: SessionStatus::Pending,
        attrs: Some(attrs),
    });
    assert_eq!(entry.project_path.as_deref(), Some("/p"));
    assert_eq!(entry.attrs.unwrap().last_stdout, Some(1));
    assert_eq!(logged_name(None), "<anonymous>");
    assert_eq!(logged_name(Some("n")), "n");
}

#[test]
fn a_clean_streams_what_it_removes_and_then_ends() {
    assert_eq!(requested_age(0), None);
    assert_eq!(requested_age(60), Some(60));
    assert!(clean_refused(true).is_none());
    assert!(clean_refused(false).is_some());
    let s = CleanStream::Running;
    let (s, update) = s.step(CleanEvent::Removed("entry".to_string()));
    assert!(matches!(update, Some(CleanCacheUpdate::Removed { detail }) if detail == "entry"));
    let (s, update) = s.step(CleanEvent::Ended(Ok(CleanReport {
        entries: 2,
        dirs: 1,
    })));
    assert!(update.is_none());
    let (_, update) = s.step(CleanEvent::Drained);
    assert!(matches!(
        update,
        Some(CleanCacheUpdate::Done { entries: 2, dirs: 1 })
    ));
    assert_eq!(update_line(b"{}".to_vec()), b"{}\n");
}
