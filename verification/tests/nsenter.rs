use minimald::nsenter::{
    children_path, join_flags, join_names, namespaces_to_join, session_leader_pid, set_shim_exe,
    shim_exe, shim_main, shim_result, Injection, LinkPair, LinkRead, Namespace, NsenterError,
    ShimArgs, ShimOutcome, ShimRegistry, PIDFD_FD, SUBCOMMAND,
};
use nix::sched::CloneFlags;

fn bytes(s: &str) -> Vec<u8> {
    s.as_bytes().to_vec()
}

#[test]
fn the_first_registered_shim_stays() {
    let mut registry = ShimRegistry::new();
    assert!(shim_exe(&registry).is_none());
    assert!(set_shim_exe(&mut registry, bytes("/a")).is_none());
    assert_eq!(set_shim_exe(&mut registry, bytes("/b")), Some(bytes("/b")));
    assert_eq!(shim_exe(&registry), Some(&bytes("/a")));
}

#[test]
fn the_shim_is_explicit_then_registered_then_the_daemon() {
    let mut registry = ShimRegistry::new();
    let plain = || Injection::new(7, bytes("/bin/true"), Vec::new());
    let current = || Ok(bytes("/self"));
    assert_eq!(plain().choose_shim(&registry, current()).unwrap(), bytes("/self"));
    set_shim_exe(&mut registry, bytes("/registered"));
    assert_eq!(
        plain().choose_shim(&registry, current()).unwrap(),
        bytes("/registered")
    );
    assert_eq!(
        plain()
            .with_shim(bytes("/explicit"))
            .choose_shim(&registry, current())
            .unwrap(),
        bytes("/explicit")
    );
    let empty = ShimRegistry::new();
    assert!(matches!(
        plain().choose_shim(&empty, Err("gone".to_string())),
        Err(NsenterError::CurrentExe { source }) if source == "gone"
    ));
}

#[test]
fn a_shim_that_is_gone_is_named() {
    let built = Injection::new(7, bytes("/bin/true"), Vec::new()).command(
        Ok(Vec::new()),
        Ok(()),
        Ok(bytes("/gone (deleted)")),
        false,
    );
    assert!(
        matches!(built, Err(NsenterError::ShimMissing { path }) if path == bytes("/gone (deleted)"))
    );
}

#[test]
fn a_command_tells_the_shim_what_to_join_and_run() {
    let plan = Injection::new(7, bytes("/bin/ls"), vec![bytes("-l"), bytes("--")])
        .with_cwd(bytes("/work"))
        .command(
            Ok(vec![Namespace::User, Namespace::Mnt]),
            Ok(()),
            Ok(bytes("/shim")),
            true,
        )
        .unwrap();
    assert_eq!(plan.program, bytes("/shim"));
    let args: Vec<&str> = plan
        .args
        .iter()
        .map(|a| std::str::from_utf8(a).unwrap())
        .collect();
    assert_eq!(
        args,
        vec![
            SUBCOMMAND, "--pidfd", "3", "--join", "user,mnt", "--chdir", "/work", "--", "/bin/ls",
            "-l", "--"
        ]
    );
    assert_eq!(PIDFD_FD, 3);
    assert!(plan.env.is_none());
    let failed = Injection::new(7, bytes("/bin/ls"), Vec::new()).command(
        Ok(Vec::new()),
        Err("ESRCH".to_string()),
        Ok(bytes("/shim")),
        true,
    );
    assert!(matches!(failed, Err(NsenterError::PidfdOpen { pid: 7, .. })));
}

#[test]
fn namespaces_have_the_kernels_names_and_flags() {
    let all = Namespace::all();
    assert_eq!(all.len(), 7);
    assert_eq!(join_names(&all), "user,mnt,pid,uts,ipc,cgroup,net");
    assert_eq!(Namespace::Mnt.clone_flag(), CloneFlags::CLONE_NEWNS);
    assert_eq!(Namespace::User.clone_flag(), CloneFlags::CLONE_NEWUSER);
    assert_eq!(Namespace::Pid.clone_flag(), CloneFlags::CLONE_NEWPID);
    assert_eq!(Namespace::Uts.clone_flag(), CloneFlags::CLONE_NEWUTS);
    assert_eq!(Namespace::Ipc.clone_flag(), CloneFlags::CLONE_NEWIPC);
    assert_eq!(Namespace::Cgroup.clone_flag(), CloneFlags::CLONE_NEWCGROUP);
    assert_eq!(Namespace::Net.clone_flag(), CloneFlags::CLONE_NEWNET);
    assert_eq!(Namespace::Net.identity_path(Some(12)), "/proc/12/ns/net");
    assert_eq!(Namespace::Net.identity_path(None), "/proc/self/ns/net");
    assert_eq!(
        join_flags(&vec![Namespace::Net, Namespace::Uts]),
        CloneFlags::CLONE_NEWNET | CloneFlags::CLONE_NEWUTS
    );
    assert_eq!(join_flags(&Vec::new()), CloneFlags::empty());
}

fn same() -> LinkPair {
    LinkPair {
        theirs: LinkRead::Target("ns:[1]".to_string()),
        ours: LinkRead::Target("ns:[1]".to_string()),
    }
}

#[test]
fn only_namespaces_that_differ_are_joined() {
    let mut links: Vec<LinkPair> = (0..7).map(|_| same()).collect();
    assert_eq!(namespaces_to_join(5, &links).unwrap(), Vec::new());
    links[1].theirs = LinkRead::Target("ns:[2]".to_string());
    links[6].theirs = LinkRead::Target("ns:[3]".to_string());
    links[5].ours = LinkRead::Missing;
    links[4].theirs = LinkRead::Missing;
    assert_eq!(
        namespaces_to_join(5, &links).unwrap(),
        vec![Namespace::Mnt, Namespace::Net]
    );
    links[3].theirs = LinkRead::Failed("denied".to_string());
    assert!(matches!(
        namespaces_to_join(5, &links),
        Err(NsenterError::ReadNamespace { path, source }) if path == "/proc/5/ns/uts" && source == "denied"
    ));
}

#[test]
fn the_sole_child_leads_the_session() {
    assert_eq!(children_path(9), "/proc/9/task/9/children");
    assert_eq!(session_leader_pid(9, Ok("123 ".to_string())).unwrap(), 123);
    assert!(matches!(
        session_leader_pid(9, Ok(String::new())),
        Err(NsenterError::NoSessionLeader { pid: 9 })
    ));
    assert!(matches!(
        session_leader_pid(9, Ok("1 2\n".to_string())),
        Err(NsenterError::AmbiguousSessionLeader { pid: 9, count: 2, .. })
    ));
    assert!(matches!(
        session_leader_pid(9, Ok("x1".to_string())),
        Err(NsenterError::MalformedChild { pid: 9, child }) if child == "x1"
    ));
    assert!(matches!(
        session_leader_pid(9, Err("gone".to_string())),
        Err(NsenterError::ReadChildren { pid: 9, source }) if source == "gone"
    ));
}

fn shim(join: Vec<Namespace>) -> ShimArgs {
    ShimArgs {
        pidfd: 3,
        join,
        chdir: None,
        argv: vec![bytes("/bin/ls"), bytes("-l")],
    }
}

#[test]
fn the_shim_joins_and_runs() {
    let plan = shim_main(shim(vec![Namespace::Net]));
    assert_eq!(plan.flags, Some(CloneFlags::CLONE_NEWNET));
    assert_eq!(plan.program, bytes("/bin/ls"));
    assert_eq!(plan.args, vec![bytes("-l")]);
    assert_eq!(shim_main(shim(Vec::new())).flags, None);
}

#[test]
fn the_shim_ends_as_its_program_does() {
    let plan = || shim_main(shim(vec![Namespace::Net]));
    let ended = |code, signal| shim_result(plan(), ShimOutcome::Ended { code, signal }).unwrap();
    assert_eq!(ended(Some(3), None), 3);
    assert_eq!(ended(None, Some(9)), 137);
    assert_eq!(ended(None, None), 1);
    assert!(matches!(
        shim_result(plan(), ShimOutcome::SetnsFailed("e".to_string())),
        Err(NsenterError::Setns { namespaces, .. }) if namespaces == "net"
    ));
    assert!(matches!(
        shim_result(plan(), ShimOutcome::SpawnFailed("e".to_string())),
        Err(NsenterError::Spawn { program, .. }) if program == bytes("/bin/ls")
    ));
    assert!(matches!(
        shim_result(plan(), ShimOutcome::WaitFailed("e".to_string())),
        Err(NsenterError::Wait { .. })
    ));
}
