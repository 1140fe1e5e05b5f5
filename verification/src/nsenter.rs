//! Running a program inside a session's namespaces.
//!
//! The daemon re-executes itself as a small shim that joins the namespaces of
//! the session's process and starts the program there. This module says which
//! namespaces are joined, what the shim's command line is, and what its exit
//! code means; the driver reads `/proc` and starts processes. Paths and
//! arguments are bytes, as the system takes them.
use vstd::prelude::*;
use vstd::string::*;
use vstd::utf8::*;

use crate::env::EnvMap;
use crate::text;

verus! {

/// The subcommand that runs the shim.
pub const SUBCOMMAND: &'static str = "__nsenter";

/// The descriptor that carries the handle of the process to join.
pub const PIDFD_FD: i32 = 3;

/// The path that the shim is run from, once one is registered.
#[derive(Debug)]
pub struct ShimRegistry {
    path: Option<Vec<u8>>,
}

impl ShimRegistry {
    /// The registered path.
    pub closed spec fn registered(&self) -> Option<Seq<u8>> {
        match self.path {
            Some(p) => Some(p@),
            None => None,
        }
    }

    /// Nothing is registered yet.
    pub fn new() -> (r: Self)
        ensures
            r.registered() is None,
    {
        ShimRegistry { path: None }
    }
}

/// Registers `path` as where the shim is run from. The first registration
/// wins: a path that came later is handed back.
pub fn set_shim_exe(registry: &mut ShimRegistry, path: Vec<u8>) -> (rejected: Option<Vec<u8>>)
    ensures
        final(registry).registered() == registered_after(old(registry).registered(), path@),
        rejected == (if old(registry).registered() is Some {
            Some(path)
        } else {
            None
        }),
{
    match registry.path {
        Some(_) => Some(path),
        None => {
            registry.path = Some(path);
            None
        },
    }
}

/// The registered path, if there is one.
pub fn shim_exe(registry: &ShimRegistry) -> (path: Option<&Vec<u8>>)
    ensures
        match path {
            Some(p) => registry.registered() == Some(p@),
            None => registry.registered() is None,
        },
{
    registry.path.as_ref()
}

/// A namespace that a process can join.
#[derive(Clone, Copy, PartialEq, Eq, Structural, Debug)]
pub enum Namespace {
    User,
    Mnt,
    Pid,
    Uts,
    Ipc,
    Cgroup,
    Net,
}

/// Every namespace.
pub open spec fn all_namespaces() -> Seq<Namespace> {
    seq![
        Namespace::User,
        Namespace::Mnt,
        Namespace::Pid,
        Namespace::Uts,
        Namespace::Ipc,
        Namespace::Cgroup,
        Namespace::Net,
    ]
}

impl Namespace {
    /// The name of the namespace under `/proc`.
    pub open spec fn name(self) -> Seq<char> {
        match self {
            Namespace::User => "user"@,
            Namespace::Mnt => "mnt"@,
            Namespace::Pid => "pid"@,
            Namespace::Uts => "uts"@,
            Namespace::Ipc => "ipc"@,
            Namespace::Cgroup => "cgroup"@,
            Namespace::Net => "net"@,
        }
    }

    /// The bit that selects the namespace.
    pub open spec fn bit(self) -> u32 {
        match self {
            Namespace::User => 0x1000_0000,
            Namespace::Mnt => 0x2_0000,
            Namespace::Pid => 0x2000_0000,
            Namespace::Uts => 0x400_0000,
            Namespace::Ipc => 0x800_0000,
            Namespace::Cgroup => 0x200_0000,
            Namespace::Net => 0x4000_0000,
        }
    }

    /// Every namespace, in the order in which they are asked about.
    pub fn all() -> (all: Vec<Namespace>)
        ensures
            all@ == all_namespaces(),
    {
        let mut all: Vec<Namespace> = Vec::new();
        all.push(Namespace::User);
        all.push(Namespace::Mnt);
        all.push(Namespace::Pid);
        all.push(Namespace::Uts);
        all.push(Namespace::Ipc);
        all.push(Namespace::Cgroup);
        all.push(Namespace::Net);
        assert(all@ =~= all_namespaces());
        all
    }

    /// The entry under `/proc/<pid>/ns/`.
    pub fn proc_name(self) -> (name: &'static str)
        ensures
            name@ == self.name(),
    {
        match self {
            Namespace::User => "user",
            Namespace::Mnt => "mnt",
            Namespace::Pid => "pid",
            Namespace::Uts => "uts",
            Namespace::Ipc => "ipc",
            Namespace::Cgroup => "cgroup",
            Namespace::Net => "net",
        }
    }

    /// The flag that selects this namespace.
    pub fn clone_flag(self) -> (flag: nix::sched::CloneFlags)
        ensures
            flag_bits(flag) == self.bit(),
    {
        match self {
            Namespace::User => flag_newuser(),
            Namespace::Mnt => flag_newns(),
            Namespace::Pid => flag_newpid(),
            Namespace::Uts => flag_newuts(),
            Namespace::Ipc => flag_newipc(),
            Namespace::Cgroup => flag_newcgroup(),
            Namespace::Net => flag_newnet(),
        }
    }

    /// The link that identifies the namespace that a process is in; without a
    /// process, that the caller is in.
    pub fn identity_path(self, pid: Option<u32>) -> (path: String)
        ensures
            path@ == link_path(self, pid),
    {
        let who = match pid {
            Some(p) => text::decimal(p as u128),
            None => "self".to_owned(),
        };
        text::cat4("/proc/", who.as_str(), "/ns/", self.proc_name())
    }
}

/// The link that identifies a namespace of a process.
pub open spec fn link_path(ns: Namespace, pid: Option<u32>) -> Seq<char> {
    let who = match pid {
        Some(p) => text::decimal_text(p as nat),
        None => "self"@,
    };
    "/proc/"@ + who + "/ns/"@ + ns.name()
}

/// A set of flags that select namespaces.
#[verifier::external_type_specification]
#[verifier::external_body]
pub struct ExCloneFlags(nix::sched::CloneFlags);

/// The flags in a set, as bits.
pub uninterp spec fn flag_bits(flags: nix::sched::CloneFlags) -> u32;

/// `CloneFlags::empty` has no flag.
#[verifier::external_body]
fn no_flags() -> (flags: nix::sched::CloneFlags)
    ensures
        flag_bits(flags) == 0,
{
    nix::sched::CloneFlags::empty()
}

/// `|` on `CloneFlags` has the flags of both sides.
#[verifier::external_body]
fn both_flags(a: nix::sched::CloneFlags, b: nix::sched::CloneFlags) -> (flags:
    nix::sched::CloneFlags)
    ensures
        flag_bits(flags) == flag_bits(a) | flag_bits(b),
{
    a | b
}

/// `CloneFlags::CLONE_NEWUSER` is the flag with this bit.
#[verifier::external_body]
fn flag_newuser() -> (flag: nix::sched::CloneFlags)
    ensures
        flag_bits(flag) == 0x1000_0000,
{
    nix::sched::CloneFlags::CLONE_NEWUSER
}

/// `CloneFlags::CLONE_NEWNS` is the flag with this bit.
#[verifier::external_body]
fn flag_newns() -> (flag: nix::sched::CloneFlags)
    ensures
        flag_bits(flag) == 0x2_0000,
{
    nix::sched::CloneFlags::CLONE_NEWNS
}

/// `CloneFlags::CLONE_NEWPID` is the flag with this bit.
#[verifier::external_body]
fn flag_newpid() -> (flag: nix::sched::CloneFlags)
    ensures
        flag_bits(flag) == 0x2000_0000,
{
    nix::sched::CloneFlags::CLONE_NEWPID
}

/// `CloneFlags::CLONE_NEWUTS` is the flag with this bit.
#[verifier::external_body]
fn flag_newuts() -> (flag: nix::sched::CloneFlags)
    ensures
        flag_bits(flag) == 0x400_0000,
{
    nix::sched::CloneFlags::CLONE_NEWUTS
}

/// `CloneFlags::CLONE_NEWIPC` is the flag with this bit.
#[verifier::external_body]
fn flag_newipc() -> (flag: nix::sched::CloneFlags)
    ensures
        flag_bits(flag) == 0x800_0000,
{
    nix::sched::CloneFlags::CLONE_NEWIPC
}

/// `CloneFlags::CLONE_NEWCGROUP` is the flag with this bit.
#[verifier::external_body]
fn flag_newcgroup() -> (flag: nix::sched::CloneFlags)
    ensures
        flag_bits(flag) == 0x200_0000,
{
    nix::sched::CloneFlags::CLONE_NEWCGROUP
}

/// `CloneFlags::CLONE_NEWNET` is the flag with this bit.
#[verifier::external_body]
fn flag_newnet() -> (flag: nix::sched::CloneFlags)
    ensures
        flag_bits(flag) == 0x4000_0000,
{
    nix::sched::CloneFlags::CLONE_NEWNET
}

/// The bits that select some namespaces.
pub open spec fn joined_bits(join: Seq<Namespace>) -> u32
    decreases join.len(),
{
    if join.len() == 0 {
        0
    } else {
        joined_bits(join.drop_last()) | join.last().bit()
    }
}

/// The flags that select some namespaces.
pub fn join_flags(join: &Vec<Namespace>) -> (flags: nix::sched::CloneFlags)
    ensures
        flag_bits(flags) == joined_bits(join@),
{
    let mut flags = no_flags();
    let mut i: usize = 0;
    while i < join.len()
        invariant
            i <= join@.len(),
            flag_bits(flags) == joined_bits(join@.take(i as int)),
        decreases join@.len() - i,
    {
        flags = both_flags(flags, join[i].clone_flag());
        assert(join@.take(i + 1).drop_last() =~= join@.take(i as int));
        i = i + 1;
    }
    assert(join@.take(i as int) =~= join@);
    flags
}

/// The flags select exactly the namespaces that are joined: the bit of a
/// namespace is set if and only if it is among them.
pub proof fn law_flags_select_what_is_joined(join: Seq<Namespace>, ns: Namespace)
    ensures
        joined_bits(join) & ns.bit() == ns.bit() <==> join.contains(ns),
        joined_bits(join) & ns.bit() == 0 <==> !join.contains(ns),
    decreases join.len(),
{
    let b = ns.bit();
    if join.len() == 0 {
        assert(0u32 & b == 0) by (bit_vector);
    } else {
        let before = join.drop_last();
        let last = join.last();
        law_flags_select_what_is_joined(before, ns);
        let x = joined_bits(before);
        let y = last.bit();
        assert((x | y) & b == (x & b) | (y & b)) by (bit_vector);
        assert(0x1000_0000u32 & 0x2_0000 == 0 && 0x1000_0000u32 & 0x2000_0000 == 0 && 0x1000_0000u32
            & 0x400_0000 == 0 && 0x1000_0000u32 & 0x800_0000 == 0 && 0x1000_0000u32 & 0x200_0000
            == 0 && 0x1000_0000u32 & 0x4000_0000 == 0 && 0x2_0000u32 & 0x2000_0000 == 0
            && 0x2_0000u32 & 0x400_0000 == 0 && 0x2_0000u32 & 0x800_0000 == 0 && 0x2_0000u32
            & 0x200_0000 == 0 && 0x2_0000u32 & 0x4000_0000 == 0 && 0x2000_0000u32 & 0x400_0000 == 0
            && 0x2000_0000u32 & 0x800_0000 == 0 && 0x2000_0000u32 & 0x200_0000 == 0
            && 0x2000_0000u32 & 0x4000_0000 == 0 && 0x400_0000u32 & 0x800_0000 == 0 && 0x400_0000u32
            & 0x200_0000 == 0 && 0x400_0000u32 & 0x4000_0000 == 0 && 0x800_0000u32 & 0x200_0000 == 0
            && 0x800_0000u32 & 0x4000_0000 == 0 && 0x200_0000u32 & 0x4000_0000 == 0)
            by (bit_vector);
        assert(y & b == b & y) by (bit_vector);
        assert(b & b == b) by (bit_vector);
        if last == ns {
            assert(join[join.len() - 1] == ns);
            assert((x & b) | b == b) by (bit_vector);
        } else {
            assert(y & b == 0);
            assert((x & b) | 0 == x & b) by (bit_vector);
            if before.contains(ns) {
                let k = choose|k: int| 0 <= k < before.len() && before[k] == ns;
                assert(join[k] == ns);
            }
            if join.contains(ns) {
                let k = choose|k: int| 0 <= k < join.len() && join[k] == ns;
                assert(before[k] == ns);
            }
        }
    }
}

/// What went wrong on the way into a session. Errors of the system are given
/// in words.
#[derive(Debug)]
pub enum NsenterError {
    /// The list of the supervisor's children could not be read.
    ReadChildren { pid: u32, source: String },
    /// The supervisor has no child: the session's program has exited.
    NoSessionLeader { pid: u32 },
    /// The supervisor has more than one child.
    AmbiguousSessionLeader { pid: u32, count: usize, children: String },
    /// The list of children held something that is no process number.
    MalformedChild { pid: u32, child: String },
    /// A namespace's link could not be read.
    ReadNamespace { path: String, source: String },
    /// The process could not be pinned.
    PidfdOpen { pid: u32, source: String },
    /// The daemon's own executable could not be located.
    CurrentExe { source: String },
    /// The shim's executable is gone from where it was.
    ShimMissing { path: Vec<u8> },
    /// The namespaces could not be joined.
    Setns { namespaces: String, source: String },
    /// The program could not be started inside the session.
    Spawn { program: Vec<u8>, source: String },
    /// The program could not be waited for.
    Wait { program: Vec<u8>, source: String },
}

/// What an [`NsenterError`] says.
pub ghost enum NsenterErrorView {
    ReadChildren { pid: u32, source: Seq<char> },
    NoSessionLeader { pid: u32 },
    AmbiguousSessionLeader { pid: u32, count: nat, children: Seq<char> },
    MalformedChild { pid: u32, child: Seq<char> },
    ReadNamespace { path: Seq<char>, source: Seq<char> },
    PidfdOpen { pid: u32, source: Seq<char> },
    CurrentExe { source: Seq<char> },
    ShimMissing { path: Seq<u8> },
    Setns { namespaces: Seq<char>, source: Seq<char> },
    Spawn { program: Seq<u8>, source: Seq<char> },
    Wait { program: Seq<u8>, source: Seq<char> },
}

impl View for NsenterError {
    type V = NsenterErrorView;

    open spec fn view(&self) -> NsenterErrorView {
        match self {
            NsenterError::ReadChildren { pid, source } => NsenterErrorView::ReadChildren {
                pid: *pid,
                source: source@,
            },
            NsenterError::NoSessionLeader { pid } => NsenterErrorView::NoSessionLeader { pid: *pid },
            NsenterError::AmbiguousSessionLeader { pid, count, children } =>
                NsenterErrorView::AmbiguousSessionLeader {
                pid: *pid,
                count: *count as nat,
                children: children@,
            },
            NsenterError::MalformedChild { pid, child } => NsenterErrorView::MalformedChild {
                pid: *pid,
                child: child@,
            },
            NsenterError::ReadNamespace { path, source } => NsenterErrorView::ReadNamespace {
                path: path@,
                source: source@,
            },
            NsenterError::PidfdOpen { pid, source } => NsenterErrorView::PidfdOpen {
                pid: *pid,
                source: source@,
            },
            NsenterError::CurrentExe { source } => NsenterErrorView::CurrentExe {
                source: source@,
            },
            NsenterError::ShimMissing { path } => NsenterErrorView::ShimMissing { path: path@ },
            NsenterError::Setns { namespaces, source } => NsenterErrorView::Setns {
                namespaces: namespaces@,
                source: source@,
            },
            NsenterError::Spawn { program, source } => NsenterErrorView::Spawn {
                program: program@,
                source: source@,
            },
            NsenterError::Wait { program, source } => NsenterErrorView::Wait {
                program: program@,
                source: source@,
            },
        }
    }
}

/// How reading the link of a namespace went.
#[derive(Debug)]
pub enum LinkRead {
    /// The identity that it names.
    Target(String),
    /// There is no such link: the kernel lacks the namespace.
    Missing,
    Failed(String),
}

/// The error of a link that could not be read.
pub open spec fn link_error(read: LinkRead, ns: Namespace, pid: Option<u32>) -> Option<NsenterErrorView> {
    match read {
        LinkRead::Failed(e) => Some(
            NsenterErrorView::ReadNamespace { path: link_path(ns, pid), source: e@ },
        ),
        _ => None,
    }
}

/// Whether two processes are in different namespaces.
pub open spec fn differ(theirs: LinkRead, ours: LinkRead) -> bool {
    match (theirs, ours) {
        (LinkRead::Target(a), LinkRead::Target(b)) => a@ != b@,
        _ => false,
    }
}

/// What is known of one namespace: the link of the session's process, then
/// that of the caller.
pub struct LinkPair {
    pub theirs: LinkRead,
    pub ours: LinkRead,
}

/// The first error among the first `n` namespaces: theirs before ours.
pub open spec fn first_link_error(pid: u32, links: Seq<LinkPair>, n: int) -> Option<NsenterErrorView>
    decreases n,
{
    if n <= 0 {
        None
    } else if first_link_error(pid, links, n - 1) is Some {
        first_link_error(pid, links, n - 1)
    } else {
        let ns = all_namespaces()[n - 1];
        let theirs = link_error(links[n - 1].theirs, ns, Some(pid));
        if theirs is Some {
            theirs
        } else {
            link_error(links[n - 1].ours, ns, None)
        }
    }
}

/// Those of the first `n` namespaces that the two processes do not share.
pub open spec fn unshared(links: Seq<LinkPair>, n: int) -> Seq<Namespace>
    decreases n,
{
    if n <= 0 {
        Seq::empty()
    } else if differ(links[n - 1].theirs, links[n - 1].ours) {
        unshared(links, n - 1).push(all_namespaces()[n - 1])
    } else {
        unshared(links, n - 1)
    }
}

/// The namespaces of the session's process that the caller is not in already.
/// `links` holds what was read for each of [`Namespace::all`]. One that either
/// process lacks is skipped; a link that cannot be read is an error, and the
/// first is reported.
pub fn namespaces_to_join(leader_pid: u32, links: &Vec<LinkPair>) -> (join: Result<
    Vec<Namespace>,
    NsenterError,
>)
    requires
        links@.len() == all_namespaces().len(),
    ensures
        match join {
            Ok(j) => first_link_error(leader_pid, links@, 7) is None && j@ == unshared(links@, 7),
            Err(e) => first_link_error(leader_pid, links@, 7) == Some(e@),
        },
{
    let all = Namespace::all();
    let mut join: Vec<Namespace> = Vec::new();
    let mut i: usize = 0;
    while i < all.len()
        invariant
            i <= all@.len(),
            all@ == all_namespaces(),
            links@.len() == all_namespaces().len(),
            first_link_error(leader_pid, links@, i as int) is None,
            join@ == unshared(links@, i as int),
        decreases all@.len() - i,
    {
        let ns = all[i];
        let pair = &links[i];
        match &pair.theirs {
            LinkRead::Failed(e) => {
                let path = ns.identity_path(Some(leader_pid));
                let error = NsenterError::ReadNamespace { path, source: e.clone() };
                proof {
                    lemma_first_error_stays(leader_pid, links@, i + 1, 7);
                }
                return Err(error);
            },
            _ => {},
        }
        match &pair.ours {
            LinkRead::Failed(e) => {
                let path = ns.identity_path(None);
                let error = NsenterError::ReadNamespace { path, source: e.clone() };
                proof {
                    lemma_first_error_stays(leader_pid, links@, i + 1, 7);
                }
                return Err(error);
            },
            _ => {},
        }
        let differs = match (&pair.theirs, &pair.ours) {
            (LinkRead::Target(a), LinkRead::Target(b)) => !text::same_text(a.as_str(), b.as_str()),
            _ => false,
        };
        if differs {
            join.push(ns);
        }
        i = i + 1;
    }
    Ok(join)
}

proof fn lemma_first_error_stays(pid: u32, links: Seq<LinkPair>, n: int, m: int)
    requires
        0 <= n <= m,
        first_link_error(pid, links, n) is Some,
    ensures
        first_link_error(pid, links, m) == first_link_error(pid, links, n),
    decreases m - n,
{
    if n < m {
        lemma_first_error_stays(pid, links, n, m - 1);
    }
}

proof fn lemma_unshared_holds(links: Seq<LinkPair>, n: int, i: int)
    requires
        0 <= n <= 7,
        0 <= i < 7,
    ensures
        unshared(links, n).contains(all_namespaces()[i]) <==> i < n && differ(
            links[i].theirs,
            links[i].ours,
        ),
    decreases n,
{
    if n > 0 {
        lemma_unshared_holds(links, n - 1, i);
        let before = unshared(links, n - 1);
        let now = unshared(links, n);
        let ns = all_namespaces()[i];
        if before.contains(ns) {
            let k = choose|k: int| 0 <= k < before.len() && before[k] == ns;
            assert(now[k] == ns);
        }
        if now.contains(ns) && !before.contains(ns) {
            let k = choose|k: int| 0 <= k < now.len() && now[k] == ns;
            if k < before.len() {
                assert(before[k] == ns);
            }
            assert(all_namespaces()[n - 1] == ns);
        }
        if i == n - 1 && differ(links[i].theirs, links[i].ours) {
            assert(now[before.len() as int] == ns);
        }
    }
}

/// Exactly the namespaces that the session has of its own are joined: neither
/// one that it shares with the daemon, which would be refused, nor one less.
pub proof fn law_only_unshared_namespaces_are_joined(links: Seq<LinkPair>, i: int)
    requires
        links.len() == all_namespaces().len(),
        0 <= i < links.len(),
    ensures
        unshared(links, 7).contains(all_namespaces()[i]) <==> differ(
            links[i].theirs,
            links[i].ours,
        ),
{
    lemma_unshared_holds(links, 7, i);
}

/// The file that lists a process's children.
pub fn children_path(pid: u32) -> (path: String)
    ensures
        path@ == "/proc/"@ + text::decimal_text(pid as nat) + "/task/"@ + text::decimal_text(
            pid as nat,
        ) + "/children"@,
{
    let p = text::decimal(pid as u128);
    text::cat5("/proc/", p.as_str(), "/task/", p.as_str(), "/children")
}

/// What a list of a supervisor's children says of the session's process: the
/// only child, if there is exactly one and it is a number.
pub open spec fn leader_among(pid: u32, children: Seq<Seq<char>>) -> Result<u32, NsenterErrorView> {
    if children.len() == 0 {
        Err(NsenterErrorView::NoSessionLeader { pid })
    } else if children.len() == 1 {
        match text::parsed_u32(children[0]) {
            Some(child) => Ok(child),
            None => Err(NsenterErrorView::MalformedChild { pid, child: children[0] }),
        }
    } else {
        Err(
            NsenterErrorView::AmbiguousSessionLeader {
                pid,
                count: children.len(),
                children: text::joined(children, " "@),
            },
        )
    }
}

/// The process that a sandbox's supervisor started, from the list of the
/// supervisor's children.
pub fn session_leader_pid(container_pid: u32, read: Result<String, String>) -> (leader: Result<
    u32,
    NsenterError,
>)
    ensures
        match read {
            Ok(raw) => match leader {
                Ok(child) => leader_among(container_pid, text::words_of(raw@)) == Ok::<
                    u32,
                    NsenterErrorView,
                >(child),
                Err(e) => leader_among(container_pid, text::words_of(raw@)) == Err::<
                    u32,
                    NsenterErrorView,
                >(e@),
            },
            Err(e) => leader is Err && leader->Err_0@ == (NsenterErrorView::ReadChildren {
                pid: container_pid,
                source: e@,
            }),
        },
{
    let raw = match read {
        Ok(raw) => raw,
        Err(source) => {
            return Err(NsenterError::ReadChildren { pid: container_pid, source });
        },
    };
    let children = text::split_words(raw.as_str());
    assert(text::texts(children@).len() == children@.len());
    if children.len() == 0 {
        return Err(NsenterError::NoSessionLeader { pid: container_pid });
    }
    if children.len() == 1 {
        assert(text::texts(children@)[0] == children@[0]@);
        return match text::parse_u32(children[0].as_str()) {
            Some(child) => Ok(child),
            None => Err(
                NsenterError::MalformedChild { pid: container_pid, child: children[0].clone() },
            ),
        };
    }
    Err(
        NsenterError::AmbiguousSessionLeader {
            pid: container_pid,
            count: children.len(),
            children: text::join(&children, " "),
        },
    )
}

/// The bytes of a list of arguments.
pub open spec fn arg_bytes(args: Seq<Vec<u8>>) -> Seq<Seq<u8>> {
    args.map_values(|a: Vec<u8>| a@)
}

/// The bytes of an optional path.
pub open spec fn optional_bytes(p: Option<Vec<u8>>) -> Option<Seq<u8>> {
    match p {
        Some(b) => Some(b@),
        None => None,
    }
}

/// A program to run inside a session.
#[derive(Debug)]
pub struct Injection {
    leader_pid: u32,
    program: Vec<u8>,
    args: Vec<Vec<u8>>,
    cwd: Option<Vec<u8>>,
    env: Option<EnvMap>,
    shim_exe: Option<Vec<u8>>,
}

/// What an [`Injection`] holds.
pub ghost struct InjectionView {
    pub leader_pid: u32,
    pub program: Seq<u8>,
    pub args: Seq<Seq<u8>>,
    pub cwd: Option<Seq<u8>>,
    pub env: Option<Map<Seq<char>, Seq<char>>>,
    pub shim_exe: Option<Seq<u8>>,
}

impl View for Injection {
    type V = InjectionView;

    closed spec fn view(&self) -> InjectionView {
        InjectionView {
            leader_pid: self.leader_pid,
            program: self.program@,
            args: arg_bytes(self.args@),
            cwd: optional_bytes(self.cwd),
            env: match self.env {
                Some(e) => Some(e@),
                None => None,
            },
            shim_exe: optional_bytes(self.shim_exe),
        }
    }
}

/// The names of namespaces.
pub open spec fn names_of(join: Seq<Namespace>) -> Seq<Seq<char>> {
    join.map_values(|ns: Namespace| ns.name())
}

/// The names of namespaces, separated by commas.
pub fn join_names(join: &Vec<Namespace>) -> (names: String)
    ensures
        names@ == text::joined(names_of(join@), ","@),
{
    let mut names: Vec<String> = Vec::new();
    let mut i: usize = 0;
    while i < join.len()
        invariant
            i <= join@.len(),
            names@.len() == i,
            forall|k: int| 0 <= k < i ==> (#[trigger] names@[k])@ == join@[k].name(),
        decreases join@.len() - i,
    {
        names.push(join[i].proc_name().to_owned());
        i = i + 1;
    }
    assert(text::texts(names@) =~= names_of(join@));
    text::join(&names, ",")
}

/// A command line, and the environment that it runs in: exactly that one, or
/// the caller's own where it has none.
#[derive(Debug)]
pub struct CommandPlan {
    pub program: Vec<u8>,
    pub args: Vec<Vec<u8>>,
    pub env: Option<EnvMap>,
}

/// The command line of the shim.
pub open spec fn shim_args(i: InjectionView, join: Seq<Namespace>) -> Seq<Seq<u8>> {
    seq![
        encode_utf8(SUBCOMMAND@),
        encode_utf8("--pidfd"@),
        encode_utf8(text::decimal_text(PIDFD_FD as nat)),
    ] + (if join.len() > 0 {
        seq![encode_utf8("--join"@), encode_utf8(text::joined(names_of(join), ","@))]
    } else {
        Seq::empty()
    }) + (match i.cwd {
        Some(cwd) => seq![encode_utf8("--chdir"@), cwd],
        None => Seq::empty(),
    }) + seq![encode_utf8("--"@), i.program] + i.args
}

/// Where the shim is run from: what the injection names, else what is
/// registered, else the daemon's own executable.
pub open spec fn chosen_shim(
    i: InjectionView,
    registered: Option<Seq<u8>>,
    current: Result<Seq<u8>, Seq<char>>,
) -> Result<Seq<u8>, NsenterErrorView> {
    match i.shim_exe {
        Some(exe) => Ok(exe),
        None => match registered {
            Some(exe) => Ok(exe),
            None => match current {
                Ok(exe) => Ok(exe),
                Err(e) => Err(NsenterErrorView::CurrentExe { source: e }),
            },
        },
    }
}

/// What a result holds.
pub open spec fn exe_view(exe: Result<Vec<u8>, String>) -> Result<Seq<u8>, Seq<char>> {
    match exe {
        Ok(p) => Ok(p@),
        Err(e) => Err(e@),
    }
}

fn push_arg(args: &mut Vec<Vec<u8>>, arg: Vec<u8>)
    ensures
        arg_bytes(final(args)@) == arg_bytes(old(args)@).push(arg@),
{
    args.push(arg);
    assert(arg_bytes(args@) =~= arg_bytes(old(args)@).push(arg@));
}

fn copy_bytes(b: &Vec<u8>) -> (copy: Vec<u8>)
    ensures
        copy@ == b@,
{
    let mut copy: Vec<u8> = Vec::new();
    copy.extend_from_slice(b.as_slice());
    assert(copy@ =~= b@);
    copy
}

impl Injection {
    /// Runs `program` in the namespaces of the session process `leader_pid`.
    pub fn new(leader_pid: u32, program: Vec<u8>, args: Vec<Vec<u8>>) -> (i: Self)
        ensures
            i@ == (InjectionView {
                leader_pid,
                program: program@,
                args: arg_bytes(args@),
                cwd: None,
                env: None,
                shim_exe: None,
            }),
    {
        Injection { leader_pid, program, args, cwd: None, env: None, shim_exe: None }
    }

    /// Starts the program in `cwd`, a path inside the session.
    pub fn with_cwd(self, cwd: Vec<u8>) -> (i: Self)
        ensures
            i@ == (InjectionView { cwd: Some(cwd@), ..self@ }),
    {
        let mut i = self;
        i.cwd = Some(cwd);
        i
    }

    /// Runs the program with exactly `env`.
    pub fn with_env(self, env: EnvMap) -> (i: Self)
        ensures
            i@ == (InjectionView { env: Some(env@), ..self@ }),
    {
        let mut i = self;
        i.env = Some(env);
        i
    }

    /// Runs the shim from `shim_exe`.
    pub fn with_shim(self, shim_exe: Vec<u8>) -> (i: Self)
        ensures
            i@ == (InjectionView { shim_exe: Some(shim_exe@), ..self@ }),
    {
        let mut i = self;
        i.shim_exe = Some(shim_exe);
        i
    }

    /// Chooses where the shim is run from: what this injection names, else
    /// what is registered, else the daemon's own executable.
    pub fn choose_shim(&self, registry: &ShimRegistry, current_exe: Result<Vec<u8>, String>) -> (shim:
        Result<Vec<u8>, NsenterError>)
        ensures
            match shim {
                Ok(exe) => chosen_shim(self@, registry.registered(), exe_view(current_exe)) == Ok::<
                    Seq<u8>,
                    NsenterErrorView,
                >(exe@),
                Err(e) => chosen_shim(self@, registry.registered(), exe_view(current_exe)) == Err::<
                    Seq<u8>,
                    NsenterErrorView,
                >(e@),
            },
    {
        match &self.shim_exe {
            Some(exe) => Ok(copy_bytes(exe)),
            None => match shim_exe(registry) {
                Some(exe) => Ok(copy_bytes(exe)),
                None => match current_exe {
                    Ok(exe) => Ok(exe),
                    Err(source) => Err(NsenterError::CurrentExe { source }),
                },
            },
        }
    }

    /// Builds the command that runs this program in the session, out of what
    /// was found: the namespaces to join, whether the process could be pinned,
    /// the shim, and whether that is still there. The first thing that went
    /// wrong is reported, in this order.
    pub fn command(
        self,
        join: Result<Vec<Namespace>, NsenterError>,
        pinned: Result<(), String>,
        shim: Result<Vec<u8>, NsenterError>,
        shim_exists: bool,
    ) -> (plan: Result<CommandPlan, NsenterError>)
        ensures
            match (join, pinned, shim) {
                (Err(e), _, _) => plan is Err && plan->Err_0 == e,
                (Ok(_), Err(source), _) => plan is Err && plan->Err_0@ == (
                NsenterErrorView::PidfdOpen { pid: self@.leader_pid, source: source@ }),
                (Ok(_), Ok(()), Err(e)) => plan is Err && plan->Err_0 == e,
                (Ok(j), Ok(()), Ok(exe)) => if shim_exists {
                    &&& plan is Ok
                    &&& plan->Ok_0.program == exe
                    &&& arg_bytes(plan->Ok_0.args@) == shim_args(self@, j@)
                    &&& match plan->Ok_0.env {
                        Some(env) => self@.env == Some(env@),
                        None => self@.env is None,
                    }
                } else {
                    plan is Err && plan->Err_0@ == (NsenterErrorView::ShimMissing { path: exe@ })
                },
            },
    {
        let join = match join {
            Ok(j) => j,
            Err(e) => {
                return Err(e);
            },
        };
        match pinned {
            Ok(()) => {},
            Err(source) => {
                return Err(NsenterError::PidfdOpen { pid: self.leader_pid, source });
            },
        }
        let shim = match shim {
            Ok(exe) => exe,
            Err(e) => {
                return Err(e);
            },
        };
        if !shim_exists {
            return Err(NsenterError::ShimMissing { path: shim });
        }
        let mut args: Vec<Vec<u8>> = Vec::new();
        push_arg(&mut args, SUBCOMMAND.as_bytes_vec());
        push_arg(&mut args, "--pidfd".as_bytes_vec());
        push_arg(&mut args, text::decimal(PIDFD_FD as u128).as_str().as_bytes_vec());
        if join.len() > 0 {
            push_arg(&mut args, "--join".as_bytes_vec());
            push_arg(&mut args, join_names(&join).as_str().as_bytes_vec());
        }
        match &self.cwd {
            Some(cwd) => {
                push_arg(&mut args, "--chdir".as_bytes_vec());
                push_arg(&mut args, copy_bytes(cwd));
            },
            None => {},
        }
        push_arg(&mut args, "--".as_bytes_vec());
        push_arg(&mut args, copy_bytes(&self.program));
        let ghost head = arg_bytes(args@);
        let mut i: usize = 0;
        assert(arg_bytes(self.args@).take(0) =~= Seq::empty());
        assert(head + Seq::empty() =~= head);
        while i < self.args.len()
            invariant
                i <= self.args@.len(),
                arg_bytes(args@) == head + arg_bytes(self.args@).take(i as int),
            decreases self.args@.len() - i,
        {
            push_arg(&mut args, copy_bytes(&self.args[i]));
            assert(arg_bytes(self.args@).take(i + 1) =~= arg_bytes(self.args@).take(i as int).push(
                self.args@[i as int]@,
            ));
            assert(arg_bytes(args@) =~= head + arg_bytes(self.args@).take(i + 1));
            i = i + 1;
        }
        assert(arg_bytes(self.args@).take(i as int) =~= arg_bytes(self.args@));
        assert(arg_bytes(args@) =~= shim_args(self@, join@));
        Ok(CommandPlan { program: shim, args, env: self.env })
    }
}

/// What the shim is told.
#[derive(Debug)]
pub struct ShimArgs {
    /// The descriptor that carries the handle of the process to join.
    pub pidfd: i32,
    /// The namespaces to join; none where the process shares them all.
    pub join: Vec<Namespace>,
    /// The directory to enter, inside the session.
    pub chdir: Option<Vec<u8>>,
    /// The program, and its arguments.
    pub argv: Vec<Vec<u8>>,
}

/// What the shim does: join, where there is something to join, and run the
/// program.
#[derive(Debug)]
pub struct ShimPlan {
    pub flags: Option<nix::sched::CloneFlags>,
    /// The names of the namespaces, for an error.
    pub names: String,
    pub program: Vec<u8>,
    pub args: Vec<Vec<u8>>,
    pub chdir: Option<Vec<u8>>,
}

/// Plans what the shim does. All namespaces are joined at once: the kernel
/// enters the user namespace first, which is what permits the others.
pub fn shim_main(args: ShimArgs) -> (plan: ShimPlan)
    requires
        args.argv@.len() > 0,
    ensures
        match plan.flags {
            Some(flags) => args.join@.len() > 0 && flag_bits(flags) == joined_bits(args.join@),
            None => args.join@.len() == 0,
        },
        plan.names@ == text::joined(names_of(args.join@), ","@),
        plan.program@ == args.argv@[0]@,
        arg_bytes(plan.args@) == arg_bytes(args.argv@).skip(1),
        plan.chdir == args.chdir,
{
    let flags = if args.join.len() > 0 {
        Some(join_flags(&args.join))
    } else {
        None
    };
    let names = join_names(&args.join);
    let mut argv = args.argv;
    let ghost all = argv@;
    let program = argv.remove(0);
    assert(arg_bytes(argv@) =~= arg_bytes(all).skip(1));
    ShimPlan { flags, names, program, args: argv, chdir: args.chdir }
}

/// What became of the shim's plan.
#[derive(Debug)]
pub enum ShimOutcome {
    SetnsFailed(String),
    SpawnFailed(String),
    WaitFailed(String),
    /// The program ended, with a code or by a signal.
    Ended { code: Option<i32>, signal: Option<i32> },
}

/// The code that stands for how a program ended: its own, or 128 and the
/// signal that ended it.
pub open spec fn exit_code(code: Option<i32>, signal: Option<i32>) -> int {
    match (code, signal) {
        (Some(c), _) => c as int,
        (None, Some(s)) => 128 + s,
        (None, None) => 1,
    }
}

/// The shim's own exit code, or what went wrong.
pub fn shim_result(plan: ShimPlan, outcome: ShimOutcome) -> (result: Result<i32, NsenterError>)
    requires
        outcome matches ShimOutcome::Ended { code, signal: Some(s) } ==> s <= i32::MAX - 128,
    ensures
        match outcome {
            ShimOutcome::SetnsFailed(source) => result is Err && result->Err_0@ == (
            NsenterErrorView::Setns { namespaces: plan.names@, source: source@ }),
            ShimOutcome::SpawnFailed(source) => result is Err && result->Err_0@ == (
            NsenterErrorView::Spawn { program: plan.program@, source: source@ }),
            ShimOutcome::WaitFailed(source) => result is Err && result->Err_0@ == (
            NsenterErrorView::Wait { program: plan.program@, source: source@ }),
            ShimOutcome::Ended { code, signal } => result is Ok && result->Ok_0 == exit_code(
                code,
                signal,
            ),
        },
{
    match outcome {
        ShimOutcome::SetnsFailed(source) => Err(
            NsenterError::Setns { namespaces: plan.names, source },
        ),
        ShimOutcome::SpawnFailed(source) => Err(
            NsenterError::Spawn { program: plan.program, source },
        ),
        ShimOutcome::WaitFailed(source) => Err(
            NsenterError::Wait { program: plan.program, source },
        ),
        ShimOutcome::Ended { code, signal } => match code {
            Some(c) => Ok(c),
            None => match signal {
                Some(s) => Ok(128 + s),
                None => Ok(1),
            },
        },
    }
}

/// A registration can be made once, and never changes afterwards.
pub proof fn law_the_first_registration_wins(before: Option<Seq<u8>>, first: Seq<u8>, second: Seq<u8>)
    ensures
        registered_after(registered_after(before, first), second) == registered_after(
            before,
            first,
        ),
{
}

/// What is registered after a path was offered.
pub open spec fn registered_after(before: Option<Seq<u8>>, offered: Seq<u8>) -> Option<Seq<u8>> {
    match before {
        Some(p) => Some(p),
        None => Some(offered),
    }
}

/// Every namespace is asked about once, under the name that it has below
/// `/proc`, and selected by the bit that the kernel gives it.
pub proof fn law_each_namespace_has_its_name_and_bit(ns: Namespace, i: int, j: int)
    ensures
        all_namespaces().len() == 7,
        all_namespaces().contains(ns),
        0 <= i < j < 7 ==> all_namespaces()[i] != all_namespaces()[j],
        ns is User ==> ns.name() == "user"@ && ns.bit() == 0x1000_0000,
        ns is Mnt ==> ns.name() == "mnt"@ && ns.bit() == 0x0002_0000,
        ns is Pid ==> ns.name() == "pid"@ && ns.bit() == 0x2000_0000,
        ns is Uts ==> ns.name() == "uts"@ && ns.bit() == 0x0400_0000,
        ns is Ipc ==> ns.name() == "ipc"@ && ns.bit() == 0x0800_0000,
        ns is Cgroup ==> ns.name() == "cgroup"@ && ns.bit() == 0x0200_0000,
        ns is Net ==> ns.name() == "net"@ && ns.bit() == 0x4000_0000,
{
    let all = all_namespaces();
    assert(all[0] is User && all[1] is Mnt && all[2] is Pid && all[3] is Uts && all[4] is Ipc
        && all[5] is Cgroup && all[6] is Net);
}

/// A namespace is identified by its link below the process that is asked about,
/// or below the caller itself.
pub proof fn law_a_namespace_is_identified_by_its_link(ns: Namespace, pid: u32)
    ensures
        link_path(ns, Some(pid)) == "/proc/"@ + text::decimal_text(pid as nat) + "/ns/"@
            + ns.name(),
        link_path(ns, None) == "/proc/"@ + "self"@ + "/ns/"@ + ns.name(),
{
}

/// A namespace is joined where both links name one and the two are not the same;
/// one that either process lacks is left alone. None is joined twice.
pub proof fn law_a_namespace_is_joined_if_the_links_differ(links: Seq<LinkPair>, i: int)
    requires
        links.len() == 7,
        0 <= i < 7,
    ensures
        unshared(links, 7).contains(all_namespaces()[i]) <==> (links[i].theirs is Target
            && links[i].ours is Target && links[i].theirs->Target_0@
            != links[i].ours->Target_0@),
        unshared(links, 7).no_duplicates(),
{
    lemma_unshared_holds(links, 7, i);
    lemma_unshared_once(links, 7);
}

proof fn lemma_unshared_once(links: Seq<LinkPair>, n: int)
    requires
        0 <= n <= 7,
        links.len() == 7,
    ensures
        unshared(links, n).no_duplicates(),
    decreases n,
{
    if n > 0 {
        lemma_unshared_once(links, n - 1);
        lemma_unshared_holds(links, n - 1, n - 1);
        let before = unshared(links, n - 1);
        let now = unshared(links, n);
        assert forall|a: int, b: int| 0 <= a < now.len() && 0 <= b < now.len() && a != b implies
            now[a] != now[b] by {
            if a < before.len() {
                assert(before[a] == now[a]);
                assert(before.contains(before[a]));
            }
            if b < before.len() {
                assert(before[b] == now[b]);
                assert(before.contains(before[b]));
            }
        }
    }
}

/// A link that cannot be read is an error that names it, the first one in the
/// order in which the namespaces are asked about; where every link can be read
/// or is not there, there is none.
pub proof fn law_the_first_unreadable_link_is_reported(pid: u32, links: Seq<LinkPair>, n: int)
    requires
        links.len() == 7,
        0 <= n <= 7,
        forall|i: int|
            0 <= i < n ==> !((#[trigger] links[i]).theirs is Failed) && !(links[i].ours is Failed),
    ensures
        n == 7 ==> first_link_error(pid, links, 7) is None,
        n < 7 && links[n].theirs is Failed ==> first_link_error(pid, links, 7) == Some(
            NsenterErrorView::ReadNamespace {
                path: "/proc/"@ + text::decimal_text(pid as nat) + "/ns/"@
                    + all_namespaces()[n].name(),
                source: links[n].theirs->Failed_0@,
            },
        ),
        n < 7 && !(links[n].theirs is Failed) && links[n].ours is Failed ==> first_link_error(
            pid,
            links,
            7,
        ) == Some(
            NsenterErrorView::ReadNamespace {
                path: "/proc/"@ + "self"@ + "/ns/"@ + all_namespaces()[n].name(),
                source: links[n].ours->Failed_0@,
            },
        ),
{
    lemma_no_error_before(pid, links, n);
    if n < 7 && (links[n].theirs is Failed || links[n].ours is Failed) {
        assert(first_link_error(pid, links, n + 1) is Some);
        lemma_first_error_stays(pid, links, n + 1, 7);
    }
}

proof fn lemma_no_error_before(pid: u32, links: Seq<LinkPair>, n: int)
    requires
        links.len() == 7,
        0 <= n <= 7,
        forall|i: int|
            0 <= i < n ==> !((#[trigger] links[i]).theirs is Failed) && !(links[i].ours is Failed),
    ensures
        first_link_error(pid, links, n) is None,
    decreases n,
{
    if n > 0 {
        lemma_no_error_before(pid, links, n - 1);
        assert(!(links[n - 1].theirs is Failed) && !(links[n - 1].ours is Failed));
    }
}

/// The session's process is the supervisor's only child. A supervisor without
/// one, with several, or with one that has no number, has no such process, and
/// each is told apart.
pub proof fn law_the_only_child_leads_the_session(pid: u32, children: Seq<Seq<char>>, child: u32)
    ensures
        leader_among(pid, seq![text::decimal_text(child as nat)]) == Ok::<u32, NsenterErrorView>(
            child,
        ),
        children.len() == 0 ==> leader_among(pid, children) == Err::<u32, NsenterErrorView>(
            NsenterErrorView::NoSessionLeader { pid },
        ),
        children.len() > 1 ==> leader_among(pid, children) == Err::<u32, NsenterErrorView>(
            NsenterErrorView::AmbiguousSessionLeader {
                pid,
                count: children.len(),
                children: text::joined(children, " "@),
            },
        ),
        children.len() == 1 && text::parsed_u32(children[0]) is None ==> leader_among(pid, children)
            == Err::<u32, NsenterErrorView>(
            NsenterErrorView::MalformedChild { pid, child: children[0] },
        ),
        leader_among(pid, children) is Ok <==> children.len() == 1 && text::parsed_u32(
            children[0],
        ) is Some,
{
    text::law_numerals_read_back(child);
}

/// The children of a supervisor are read as the list that the kernel writes:
/// numbers with a blank between them.
pub proof fn law_a_list_of_children_is_read(
    pid: u32,
    children: Seq<Seq<char>>,
    raw: String,
    error: String,
    leader: Result<u32, NsenterError>,
    failed: Result<u32, NsenterError>,
)
    requires
        forall|i: int| 0 <= i < children.len() ==> text::is_word(#[trigger] children[i]),
        raw@ == text::joined(children, seq![' ']),
        call_ensures(session_leader_pid, (pid, Ok(raw)), leader),
        call_ensures(session_leader_pid, (pid, Err(error)), failed),
    ensures
        leader is Ok <==> children.len() == 1 && text::parsed_u32(children[0]) is Some,
        leader is Ok ==> Some(leader->Ok_0) == text::parsed_u32(children[0]),
        children.len() == 0 ==> leader->Err_0@ == (NsenterErrorView::NoSessionLeader { pid }),
        children.len() > 1 ==> leader->Err_0@ is AmbiguousSessionLeader
            && leader->Err_0@->AmbiguousSessionLeader_count == children.len(),
        failed is Err && failed->Err_0@ == (NsenterErrorView::ReadChildren { pid, source: error@ }),
{
    text::law_words_come_apart_again(children);
}

/// The command line of the shim: the subcommand, the descriptor of the pinned
/// process, the namespaces to join and the directory to enter where there are
/// any, and behind the two dashes the program and its arguments as they were
/// given.
pub proof fn law_the_shim_is_told_everything(i: InjectionView, join: Seq<Namespace>)
    ensures
        ({
            let line = shim_args(i, join);
            let at: int = 3 + (if join.len() > 0 { 2int } else { 0 });
            let end: int = at + (if i.cwd is Some { 2int } else { 0 });
            &&& line.len() == end + 2 + i.args.len()
            &&& line[0] == encode_utf8("__nsenter"@)
            &&& line[1] == encode_utf8("--pidfd"@)
            &&& line[2] == encode_utf8(seq!['3'])
            &&& join.len() > 0 ==> line[3] == encode_utf8("--join"@) && line[4] == encode_utf8(
                text::joined(names_of(join), ","@),
            )
            &&& i.cwd is Some ==> line[at] == encode_utf8("--chdir"@) && line[at + 1] == i.cwd->0
            &&& line[end] == encode_utf8("--"@)
            &&& line[end + 1] == i.program
            &&& line.skip(end + 2) == i.args
        }),
{
    let line = shim_args(i, join);
    let at: int = 3 + (if join.len() > 0 { 2int } else { 0 });
    let end: int = at + (if i.cwd is Some { 2int } else { 0 });
    assert(line.skip(end + 2) =~= i.args);
    assert(text::decimal_text(3) =~= seq!['3']);
}

/// The shim is run from where the injection says, and else from where it was
/// registered; only without either is the daemon's own executable asked for.
pub proof fn law_the_shim_is_chosen_from_the_nearest(
    i: InjectionView,
    registered: Option<Seq<u8>>,
    current: Result<Seq<u8>, Seq<char>>,
)
    ensures
        i.shim_exe is Some ==> chosen_shim(i, registered, current) == Ok::<
            Seq<u8>,
            NsenterErrorView,
        >(i.shim_exe->0),
        i.shim_exe is None && registered is Some ==> chosen_shim(i, registered, current) == Ok::<
            Seq<u8>,
            NsenterErrorView,
        >(registered->0),
        i.shim_exe is None && registered is None && current is Ok ==> chosen_shim(
            i,
            registered,
            current,
        ) == Ok::<Seq<u8>, NsenterErrorView>(current->Ok_0),
        i.shim_exe is None && registered is None && current is Err ==> chosen_shim(
            i,
            registered,
            current,
        ) == Err::<Seq<u8>, NsenterErrorView>(
            NsenterErrorView::CurrentExe { source: current->Err_0 },
        ),
{
}

/// A path that is offered is registered where there is none yet.
pub proof fn law_a_registered_path_stays(before: Option<Seq<u8>>, offered: Seq<u8>)
    ensures
        before is None ==> registered_after(before, offered) == Some(offered),
        before is Some ==> registered_after(before, offered) == before,
{
}

/// The shim exits as its program did: with the same code, and after a signal
/// with that signal's number above one hundred and twenty-eight.
pub proof fn law_the_shim_exits_as_its_program_did(
    plan: ShimPlan,
    code: Option<i32>,
    signal: Option<i32>,
    result: Result<i32, NsenterError>,
)
    requires
        signal is Some ==> signal->0 <= i32::MAX - 128,
        call_ensures(shim_result, (plan, ShimOutcome::Ended { code, signal }), result),
    ensures
        result is Ok,
        code is Some ==> result->Ok_0 == code->0,
        code is None && signal is Some ==> result->Ok_0 == 128 + signal->0,
        code is None && signal is None ==> result->Ok_0 == 1,
{
}

/// What stopped the shim is named with what it was about: the namespaces that
/// could not be joined, or the program that could not be started or waited for.
pub proof fn law_the_shims_failures_are_told_apart(
    plan: ShimPlan,
    source: String,
    unjoined: Result<i32, NsenterError>,
    unstarted: Result<i32, NsenterError>,
    unwaited: Result<i32, NsenterError>,
)
    requires
        call_ensures(shim_result, (plan, ShimOutcome::SetnsFailed(source)), unjoined),
        call_ensures(shim_result, (plan, ShimOutcome::SpawnFailed(source)), unstarted),
        call_ensures(shim_result, (plan, ShimOutcome::WaitFailed(source)), unwaited),
    ensures
        unjoined is Err && unjoined->Err_0@ == (NsenterErrorView::Setns {
            namespaces: plan.names@,
            source: source@,
        }),
        unstarted is Err && unstarted->Err_0@ == (NsenterErrorView::Spawn {
            program: plan.program@,
            source: source@,
        }),
        unwaited is Err && unwaited->Err_0@ == (NsenterErrorView::Wait {
            program: plan.program@,
            source: source@,
        }),
{
}

/// The shim joins exactly the namespaces that it is told, all at once, and runs
/// the first of what is behind the dashes with the rest of it.
pub proof fn law_the_shim_does_what_it_is_told(args: ShimArgs, plan: ShimPlan, ns: Namespace)
    requires
        args.argv@.len() > 0,
        call_ensures(shim_main, (args,), plan),
    ensures
        plan.flags is Some <==> args.join@.len() > 0,
        plan.flags is Some ==> (flag_bits(plan.flags->0) & ns.bit() == ns.bit()
            <==> args.join@.contains(ns)),
        plan.program@ == args.argv@[0]@,
        plan.args@.len() == args.argv@.len() - 1,
        forall|k: int|
            0 <= k < plan.args@.len() ==> (#[trigger] plan.args@[k])@ == args.argv@[k + 1]@,
        plan.chdir == args.chdir,
{
    law_flags_select_what_is_joined(args.join@, ns);
    assert(arg_bytes(plan.args@).len() == plan.args@.len());
    assert forall|k: int| 0 <= k < plan.args@.len() implies (#[trigger] plan.args@[k])@
        == args.argv@[k + 1]@ by {
        assert(arg_bytes(plan.args@)[k] == plan.args@[k]@);
        assert(arg_bytes(args.argv@)[k + 1] == args.argv@[k + 1]@);
    }
}

/// A command into a session is there if and only if nothing on the way to it
/// failed, and what failed first is what is reported.
pub proof fn law_an_injection_fails_with_what_failed_first(
    i: Injection,
    join: Result<Vec<Namespace>, NsenterError>,
    pinned: Result<(), String>,
    shim: Result<Vec<u8>, NsenterError>,
    there: bool,
    plan: Result<CommandPlan, NsenterError>,
)
    requires
        call_ensures(Injection::command, (i, join, pinned, shim, there), plan),
    ensures
        plan is Ok <==> join is Ok && pinned is Ok && shim is Ok && there,
        join is Err ==> plan->Err_0 == join->Err_0,
        join is Ok && pinned is Err ==> plan->Err_0@ == (NsenterErrorView::PidfdOpen {
            pid: i@.leader_pid,
            source: pinned->Err_0@,
        }),
        join is Ok && pinned is Ok && shim is Err ==> plan->Err_0 == shim->Err_0,
        join is Ok && pinned is Ok && shim is Ok && !there ==> plan->Err_0@ == (
        NsenterErrorView::ShimMissing { path: shim->Ok_0@ }),
        plan is Ok ==> plan->Ok_0.program == shim->Ok_0 && arg_bytes(plan->Ok_0.args@)
            == shim_args(i@, join->Ok_0@) && (plan->Ok_0.env is Some <==> i@.env is Some) && (
        plan->Ok_0.env is Some ==> plan->Ok_0.env->0@ == i@.env->0),
{
}

/// The first path that is offered is registered, and any later one is handed
/// back as it was.
pub proof fn law_a_later_path_is_handed_back(
    path: Vec<u8>,
    rejected: Option<Vec<u8>>,
    r: &ShimRegistry,
    known: Option<&Vec<u8>>,
    fresh: ShimRegistry,
)
    requires
        call_ensures(shim_exe, (r,), known),
        call_ensures(ShimRegistry::new, (), fresh),
    ensures
        forall|m: &mut ShimRegistry| #[trigger]
            call_ensures(set_shim_exe, (m, path), rejected) ==> {
                &&& m.registered() is None ==> final(m).registered() == Some(path@)
                    && rejected is None
                &&& m.registered() is Some ==> final(m).registered() == m.registered() && rejected
                    == Some(path)
            },
        known is Some <==> r.registered() is Some,
        known is Some ==> known->0@ == r.registered()->0,
        fresh.registered() is None,
{
}

/// Namespaces are asked about, found and joined as is said here.
pub proof fn law_namespaces_are_joined_as_stated(
    ns: Namespace,
    pid: Option<u32>,
    leader: u32,
    links: &Vec<LinkPair>,
    all: Vec<Namespace>,
    name: &'static str,
    flag: nix::sched::CloneFlags,
    link: String,
    join: Result<Vec<Namespace>, NsenterError>,
    list: &Vec<Namespace>,
    names: String,
    children: String,
)
    requires
        links@.len() == 7,
        call_ensures(Namespace::all, (), all),
        call_ensures(Namespace::proc_name, (ns,), name),
        call_ensures(Namespace::clone_flag, (ns,), flag),
        call_ensures(Namespace::identity_path, (ns, pid), link),
        call_ensures(namespaces_to_join, (leader, links), join),
        call_ensures(join_names, (list,), names),
        call_ensures(children_path, (leader,), children),
    ensures
        all@ == all_namespaces(),
        name@ == ns.name(),
        flag_bits(flag) == ns.bit(),
        link@ == link_path(ns, pid),
        join is Ok <==> first_link_error(leader, links@, 7) is None,
        join is Ok ==> join->Ok_0@ == unshared(links@, 7),
        join is Err ==> Some(join->Err_0@) == first_link_error(leader, links@, 7),
        names@ == text::joined(names_of(list@), ","@),
        children@ == "/proc/"@ + text::decimal_text(leader as nat) + "/task/"@
            + text::decimal_text(leader as nat) + "/children"@,
{
}

/// An injection holds what it was made of, and each further thing that it is
/// given takes its own place and no other's.
pub proof fn law_an_injection_holds_what_it_is_given(
    pid: u32,
    program: Vec<u8>,
    args: Vec<Vec<u8>>,
    bytes: Vec<u8>,
    env: EnvMap,
    i: Injection,
    plain: Injection,
    there: Injection,
    with: Injection,
    from: Injection,
    registry: &ShimRegistry,
    current: Result<Vec<u8>, String>,
    shim: Result<Vec<u8>, NsenterError>,
)
    requires
        call_ensures(Injection::new, (pid, program, args), plain),
        call_ensures(Injection::with_cwd, (i, bytes), there),
        call_ensures(Injection::with_env, (i, env), with),
        call_ensures(Injection::with_shim, (i, bytes), from),
        call_ensures(Injection::choose_shim, (&i, registry, current), shim),
    ensures
        plain@.leader_pid == pid && plain@.program == program@ && plain@.args == arg_bytes(args@),
        plain@.cwd is None && plain@.env is None && plain@.shim_exe is None,
        there@ == (InjectionView { cwd: Some(bytes@), ..i@ }),
        with@ == (InjectionView { env: Some(env@), ..i@ }),
        from@ == (InjectionView { shim_exe: Some(bytes@), ..i@ }),
        i@.shim_exe is Some ==> shim is Ok && shim->Ok_0@ == i@.shim_exe->0,
        i@.shim_exe is None && registry.registered() is Some ==> shim is Ok && shim->Ok_0@
            == registry.registered()->0,
        i@.shim_exe is None && registry.registered() is None && current is Ok ==> shim is Ok
            && shim->Ok_0@ == current->Ok_0@,
        i@.shim_exe is None && registry.registered() is None && current is Err ==> shim is Err
            && shim->Err_0@ == (NsenterErrorView::CurrentExe { source: current->Err_0@ }),
{
}

/// Lists of arguments and of names are taken item by item, in order.
pub proof fn law_arguments_are_taken_one_by_one(
    args: Seq<Vec<u8>>,
    join: Seq<Namespace>,
    i: int,
    p: Vec<u8>,
)
    ensures
        arg_bytes(args).len() == args.len(),
        0 <= i < args.len() ==> arg_bytes(args)[i] == args[i]@,
        names_of(join).len() == join.len(),
        0 <= i < join.len() ==> names_of(join)[i] == join[i].name(),
        optional_bytes(Some(p)) == Some(p@),
        optional_bytes(None) == None::<Seq<u8>>,
{
}

/// What an error says is what it was made of.
pub proof fn law_an_error_says_what_it_was_made_of(
    pid: u32,
    count: usize,
    a: String,
    b: String,
    bytes: Vec<u8>,
)
    ensures
        (NsenterError::ReadChildren { pid, source: a })@ == (NsenterErrorView::ReadChildren {
            pid,
            source: a@,
        }),
        (NsenterError::NoSessionLeader { pid })@ == (NsenterErrorView::NoSessionLeader { pid }),
        (NsenterError::AmbiguousSessionLeader { pid, count, children: a })@ == (
        NsenterErrorView::AmbiguousSessionLeader { pid, count: count as nat, children: a@ }),
        (NsenterError::MalformedChild { pid, child: a })@ == (NsenterErrorView::MalformedChild {
            pid,
            child: a@,
        }),
        (NsenterError::ReadNamespace { path: a, source: b })@ == (
        NsenterErrorView::ReadNamespace { path: a@, source: b@ }),
        (NsenterError::PidfdOpen { pid, source: a })@ == (NsenterErrorView::PidfdOpen {
            pid,
            source: a@,
        }),
        (NsenterError::CurrentExe { source: a })@ == (NsenterErrorView::CurrentExe { source: a@ }),
        (NsenterError::ShimMissing { path: bytes })@ == (NsenterErrorView::ShimMissing {
            path: bytes@,
        }),
        (NsenterError::Setns { namespaces: a, source: b })@ == (NsenterErrorView::Setns {
            namespaces: a@,
            source: b@,
        }),
        (NsenterError::Spawn { program: bytes, source: a })@ == (NsenterErrorView::Spawn {
            program: bytes@,
            source: a@,
        }),
        (NsenterError::Wait { program: bytes, source: a })@ == (NsenterErrorView::Wait {
            program: bytes@,
            source: a@,
        }),
{
}

} // verus!
