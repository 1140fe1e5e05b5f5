//! Commands in a running session: their environment and directory, and what a
//! host that is gone says of them.
use vstd::prelude::*;
use vstd::string::*;

use crate::env::EnvMap;
use crate::hooks::HookEvent;
use crate::nsenter::{arg_bytes, Injection, InjectionView, NsenterError};
use crate::rpc::{Fault, FaultKind};
use crate::session::{fault, is_fault, Composition, SessionPaths};
use crate::text;

verus! {

/// The directory and the variables that a command in a session runs with.
pub struct SessionEnvironment {
    pub cwd: Vec<u8>,
    pub vars: EnvMap,
}

/// A program in the session of `leader_pid`, with the session's directory and
/// variables, and further variables on top of those.
pub open spec fn injected(
    leader_pid: u32,
    program: Seq<u8>,
    args: Seq<Seq<u8>>,
    environment: SessionEnvironment,
    extra_env: Map<Seq<char>, Seq<char>>,
) -> InjectionView {
    InjectionView {
        leader_pid,
        program,
        args,
        cwd: Some(environment.cwd@),
        env: Some(environment.vars@.union_prefer_right(extra_env)),
        shim_exe: None,
    }
}

/// Prepares a command in a session: `extra_env` on top of the session's
/// variables, which an injection replaces as a whole. It needs the session's
/// shell to run still.
pub fn command_in_session(
    leader: Result<u32, NsenterError>,
    program: Vec<u8>,
    args: Vec<Vec<u8>>,
    environment: SessionEnvironment,
    extra_env: &EnvMap,
) -> (injection: Result<Injection, NsenterError>)
    ensures
        match leader {
            Ok(pid) => injection matches Ok(i) && i@ == injected(
                pid,
                program@,
                arg_bytes(args@),
                environment,
                extra_env@,
            ),
            Err(e) => injection matches Err(f) && f == e,
        },
{
    match leader {
        Ok(pid) => {
            let vars = environment.vars.overlay(extra_env);
            Ok(Injection::new(pid, program, args).with_cwd(environment.cwd).with_env(vars))
        },
        Err(e) => Err(e),
    }
}

/// What a host answers to a request for a command, or that it stopped before.
pub fn command_answer<T>(answer: Option<Result<T, String>>) -> (out: Result<T, Fault>)
    ensures
        match answer {
            Some(Ok(c)) => out == Ok::<T, Fault>(c),
            Some(Err(e)) => out matches Err(f) && is_fault(f, FaultKind::Other, e@),
            None => out matches Err(f) && is_fault(
                f,
                FaultKind::Other,
                "session host stopped before the command could be built"@,
            ),
        },
{
    match answer {
        Some(Ok(c)) => Ok(c),
        Some(Err(e)) => Err(Fault { kind: FaultKind::Other, text: e }),
        None => Err(
            fault(
                FaultKind::Other,
                "session host stopped before the command could be built",
            ),
        ),
    }
}

/// What a host answers of its attributes or its screen. One that is gone, when
/// it is asked or before it answers, has none: that is an error, which says no
/// more.
pub fn host_answer<T>(answer: Option<T>) -> (out: Result<T, ()>)
    ensures
        out == (match answer {
            Some(a) => Ok::<T, ()>(a),
            None => Err(()),
        }),
{
    match answer {
        Some(a) => Ok(a),
        None => Err(()),
    }
}

/// What a session says of its host's attributes or screen: nothing where it has
/// no host to ask, or that is gone.
pub fn shown_by_host<T>(asked: Option<Result<T, ()>>) -> (shown: Option<T>)
    ensures
        shown == (match asked {
            Some(Ok(a)) => Some(a),
            _ => None,
        }),
{
    match asked {
        Some(Ok(a)) => Some(a),
        _ => None,
    }
}

/// What is shown of a session's host: nothing where the session itself is gone
/// either, since whoever lists sessions asks while they come and go.
pub fn shown_by_session<T>(answer: Option<Option<T>>) -> (shown: Option<T>)
    ensures
        shown == (match answer {
            Some(a) => a,
            None => None,
        }),
{
    match answer {
        Some(a) => a,
        None => None,
    }
}

/// What deleting a session would lose.
#[derive(Debug)]
pub enum AtRisk<T> {
    Known(T),
    /// It cannot be told.
    Unavailable,
}

/// What a host, or the session that asked it, answers of what deleting the
/// session would lose. Those who ask may do so while the session comes down, so
/// one that is gone is no error: the report is unavailable, as it is where it
/// could not be made.
pub fn at_risk_answer<T>(answer: Option<AtRisk<T>>) -> (out: AtRisk<T>)
    ensures
        out == (match answer {
            Some(report) => report,
            None => AtRisk::Unavailable,
        }),
{
    match answer {
        Some(report) => report,
        None => AtRisk::Unavailable,
    }
}

/// Everything that a run of hooks in a session needs. Their output goes to the
/// session's terminal.
pub struct HookPlan {
    pub event: HookEvent,
    pub leader_pid: u32,
    pub environment: SessionEnvironment,
    pub hooks_dir: String,
    pub workspace: String,
    pub tty_path: String,
}

/// Plans a run of hooks, or none where the session has no composition or its
/// shell has exited.
pub fn hook_plan(
    event: HookEvent,
    composition: Option<&Composition>,
    leader: Result<u32, NsenterError>,
    environment: SessionEnvironment,
    paths: &SessionPaths,
    tty_path: &str,
) -> (plan: Option<HookPlan>)
    ensures
        plan is Some <==> composition is Some && leader is Ok,
        plan matches Some(p) ==> {
            &&& p.event == event
            &&& leader == Ok::<u32, NsenterError>(p.leader_pid)
            &&& p.environment == environment
            &&& p.hooks_dir@ == paths.hooks@
            &&& p.workspace@ == paths.working@
            &&& p.tty_path@ == tty_path@
        },
{
    match composition {
        None => None,
        Some(_) => match leader {
            Err(_) => None,
            Ok(leader_pid) => Some(
                HookPlan {
                    event,
                    leader_pid,
                    environment,
                    hooks_dir: paths.hooks.clone(),
                    workspace: paths.working.clone(),
                    tty_path: tty_path.to_owned(),
                },
            ),
        },
    }
}

/// The title that a terminal was given, in words. One that is not UTF-8 is
/// ignored.
pub fn set_title(title: &[u8]) -> (words: Option<String>)
    ensures
        match words {
            Some(t) => vstd::utf8::valid_utf8(title@) && t@ == vstd::utf8::decode_utf8(title@),
            None => !vstd::utf8::valid_utf8(title@),
        },
{
    text::utf8_text(title)
}

/// Where the archives of changed files go: beside what the daemon keeps.
pub fn archives_dir(state_dir: &str) -> (dir: String)
    ensures
        dir@ == crate::paths::joined_path(state_dir@, "archives"@),
{
    crate::paths::join(state_dir, "archives")
}

/// A command in a session runs with the session's directory and variables, over
/// which those of the command itself win. Without the session's shell there is
/// no command.
pub proof fn law_a_commands_own_variables_win(
    leader: Result<u32, NsenterError>,
    program: Vec<u8>,
    args: Vec<Vec<u8>>,
    environment: SessionEnvironment,
    extra: &EnvMap,
    out: Result<Injection, NsenterError>,
    key: Seq<char>,
)
    requires
        call_ensures(command_in_session, (leader, program, args, environment, extra), out),
    ensures
        out is Ok <==> leader is Ok,
        leader is Err ==> out->Err_0 == leader->Err_0,
        leader is Ok ==> {
            let i = out->Ok_0@;
            &&& i.leader_pid == leader->Ok_0
            &&& i.program == program@
            &&& i.args == arg_bytes(args@)
            &&& i.cwd == Some(environment.cwd@)
            &&& i.shim_exe is None
            &&& i.env is Some
            &&& i.env->0.contains_key(key) <==> extra@.contains_key(key)
                || environment.vars@.contains_key(key)
            &&& extra@.contains_key(key) ==> i.env->0[key] == extra@[key]
            &&& environment.vars@.contains_key(key) && !extra@.contains_key(key)
                ==> i.env->0[key] == environment.vars@[key]
        },
{
}

/// What a host answers is passed on as it is. A host that is gone is an error to
/// whoever wanted a command, and nothing to show to whoever wanted to see it.
pub proof fn law_a_gone_host_shows_nothing<T>(
    command: Option<Result<T, String>>,
    answer: Option<T>,
    asked: Option<Result<T, ()>>,
    relayed: Option<Option<T>>,
    risk: Option<AtRisk<T>>,
    built: Result<T, Fault>,
    told: Result<T, ()>,
    shown: Option<T>,
    listed: Option<T>,
    report: AtRisk<T>,
)
    requires
        call_ensures(command_answer::<T>, (command,), built),
        call_ensures(host_answer::<T>, (answer,), told),
        call_ensures(shown_by_host::<T>, (asked,), shown),
        call_ensures(shown_by_session::<T>, (relayed,), listed),
        call_ensures(at_risk_answer::<T>, (risk,), report),
    ensures
        built is Ok <==> command is Some && command->0 is Ok,
        built is Ok ==> built->Ok_0 == command->0->Ok_0,
        built is Err ==> built->Err_0.kind is Other,
        command is Some && command->0 is Err ==> built->Err_0.text@ == command->0->Err_0@,
        command is None ==> built->Err_0.text@
            == "session host stopped before the command could be built"@,
        told is Ok <==> answer is Some,
        told is Ok ==> told->Ok_0 == answer->0,
        shown is Some <==> asked is Some && asked->0 is Ok,
        shown is Some ==> shown->0 == asked->0->Ok_0,
        listed is Some <==> relayed is Some && relayed->0 is Some,
        listed is Some ==> listed->0 == relayed->0->0,
        risk is Some ==> report == risk->0,
        risk is None ==> report is Unavailable,
{
}

/// Hooks run in a composed session whose shell is there, with the scripts and
/// the workspace of that session, on its terminal.
pub proof fn law_hooks_run_where_the_session_is(
    event: HookEvent,
    composition: Option<&Composition>,
    leader: Result<u32, NsenterError>,
    environment: SessionEnvironment,
    paths: &SessionPaths,
    tty: &str,
    plan: Option<HookPlan>,
)
    requires
        call_ensures(hook_plan, (event, composition, leader, environment, paths, tty), plan),
    ensures
        plan is Some <==> composition is Some && leader is Ok,
        plan is Some ==> plan->0.event == event && plan->0.leader_pid == leader->Ok_0
            && plan->0.environment == environment && plan->0.hooks_dir@ == paths.hooks@
            && plan->0.workspace@ == paths.working@ && plan->0.tty_path@ == tty@,
{
}

/// A title is taken as the text that it is, where it is one, and archives go
/// into a directory of their own.
pub proof fn law_a_title_is_taken_as_it_is(
    title: &[u8],
    words: Option<String>,
    state: &str,
    dir: String,
)
    requires
        call_ensures(set_title, (title,), words),
        call_ensures(archives_dir, (state,), dir),
    ensures
        words is Some <==> vstd::utf8::valid_utf8(title@),
        words is Some ==> words->0@ == vstd::utf8::decode_utf8(title@),
        dir@ == crate::paths::joined_path(state@, "archives"@),
{
}

} // verus!
