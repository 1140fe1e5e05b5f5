//! The life of a session: from its record being allocated, through the
//! composition of its loadout, to its end.
//!
//! A session is a draft until its loadout is composed. Its record is `Pending`
//! then, `Materializing` until the client has uploaded what the composition
//! needs, and `Active` from there on. Each operation is taken step by step:
//! the driver reads and writes the record, composes and copies files, and the
//! session decides.
use vstd::prelude::*;
use vstd::string::*;

use crate::hooks::{HookScript, HookScriptBody, ProvenancedHook};
use crate::launch::NetworkMode;
use crate::paths;
use crate::rpc::{Fault, FaultKind};
use crate::text;

verus! {

/// How far a session's record has come.
#[derive(Clone, Copy, PartialEq, Eq, Structural, Debug)]
pub enum SessionStatus {
    /// Its loadout is not composed.
    Pending,
    /// Its loadout is composed, and what that needs is being uploaded.
    Materializing,
    /// It can be attached to.
    Active,
}

impl SessionStatus {
    /// The name of a status.
    pub open spec fn name(self) -> Seq<char> {
        match self {
            SessionStatus::Pending => "Pending"@,
            SessionStatus::Materializing => "Materializing"@,
            SessionStatus::Active => "Active"@,
        }
    }

    /// The name of a status.
    pub fn as_str(self) -> (name: &'static str)
        ensures
            name@ == self.name(),
    {
        match self {
            SessionStatus::Pending => "Pending",
            SessionStatus::Materializing => "Materializing",
            SessionStatus::Active => "Active",
        }
    }
}

/// What the logic reads of a session's record.
#[derive(Debug)]
pub struct Record {
    /// The session's id, in words.
    pub id: String,
    pub name: Option<String>,
    pub project_path: String,
    pub status: SessionStatus,
    pub network: NetworkMode,
}

/// Where the daemon keeps what belongs to a session.
#[derive(Debug)]
pub struct SessionPaths {
    pub working: String,
    pub cache: String,
    pub home: String,
    /// Where uploaded patches are staged.
    pub patches: String,
    /// Where uploaded hook scripts are staged.
    pub hooks: String,
}

/// A composed loadout.
#[derive(Debug)]
pub struct Composition {
    pub packages: Vec<String>,
    pub vars: Vec<(String, String)>,
    /// Where each patch goes, relative to the session's home.
    pub patches: Vec<String>,
    pub hooks: Vec<ProvenancedHook>,
    /// The loadouts as the banner displays them; empty where unknown.
    pub loadouts_display: String,
}

/// Whether a script is read from a file.
pub open spec fn is_external(script: Option<HookScript>) -> bool {
    script is Some && script->0.body is External
}

/// Whether a hook reads any of its scripts from a file.
pub open spec fn has_external_script(hook: ProvenancedHook) -> bool {
    ||| is_external(hook.hook.on_activate)
    ||| is_external(hook.hook.on_destroy)
    ||| is_external(hook.hook.on_attach)
    ||| is_external(hook.hook.on_detach)
}

impl Composition {
    /// Whether patches have to be uploaded.
    pub open spec fn needs_patches(&self) -> bool {
        self.patches@.len() > 0
    }

    /// Whether hook scripts have to be uploaded.
    pub open spec fn needs_scripts(&self) -> bool {
        exists|i: int| 0 <= i < self.hooks@.len() && has_external_script(#[trigger] self.hooks@[i])
    }

    /// Whether patches have to be uploaded.
    pub fn has_patches(&self) -> (yes: bool)
        ensures
            yes == self.needs_patches(),
    {
        self.patches.len() > 0
    }

    /// Whether hook scripts have to be uploaded.
    pub fn has_external_hooks(&self) -> (yes: bool)
        ensures
            yes == self.needs_scripts(),
    {
        let mut i: usize = 0;
        while i < self.hooks.len()
            invariant
                i <= self.hooks@.len(),
                forall|k: int| 0 <= k < i ==> !has_external_script(#[trigger] self.hooks@[k]),
            decreases self.hooks@.len() - i,
        {
            let hook = &self.hooks[i].hook;
            if external(&hook.on_activate) || external(&hook.on_destroy) || external(
                &hook.on_attach,
            ) || external(&hook.on_detach) {
                assert(has_external_script(self.hooks@[i as int]));
                return true;
            }
            i = i + 1;
        }
        false
    }
}

fn external(script: &Option<HookScript>) -> (yes: bool)
    ensures
        yes == is_external(*script),
{
    match script {
        Some(s) => match s.body {
            HookScriptBody::External(_) => true,
            HookScriptBody::Inline(_) => false,
        },
        None => false,
    }
}

/// The name that an unnamed session goes by.
pub open spec fn display_name(name: Option<Seq<char>>, project_path: Seq<char>) -> Seq<char> {
    match name {
        Some(n) => n,
        None => match paths::file_name_of(project_path) {
            Some(n) => n,
            None => "session"@,
        },
    }
}

/// The name that a session's host goes by: its own, or the last component of
/// its project's directory.
pub fn registry_name(record: &Record) -> (name: String)
    ensures
        name@ == display_name(text::optional(record.name), record.project_path@),
{
    match &record.name {
        Some(n) => n.clone(),
        None => match paths::file_name(record.project_path.as_str()) {
            Some(n) => n,
            None => "session".to_owned(),
        },
    }
}

/// The state of a session.
#[derive(Debug)]
pub enum SessionInner {
    /// The loadout is not composed; `pending` says that the client owes a
    /// verdict on what was composed so far.
    Draft { pending: bool },
    /// The loadout is composed. It is missing only where it was lost on the
    /// way back from disk.
    Active { composition: Option<Composition>, host: bool, sops: usize },
}

/// A session.
#[derive(Debug)]
pub struct Session {
    pub inner: SessionInner,
}

/// Whether a fault is of a kind and says this.
pub open spec fn is_fault(f: Fault, kind: FaultKind, words: Seq<char>) -> bool {
    f.kind == kind && f.text@ == words
}

/// A fault of a kind that says this.
pub fn fault(kind: FaultKind, words: &str) -> (f: Fault)
    ensures
        is_fault(f, kind, words@),
{
    Fault { kind, text: words.to_owned() }
}

/// What is said of a session whose composition was lost.
pub open spec fn orphaned_record() -> Seq<char> {
    "session record is Materializing but has no in-memory composition (restart-orphaned actor); destroy the session and re-activate"@
}

/// The record and the state of a session fit together: a pending record is a
/// draft's, one that is being materialized has its composition at hand, and an
/// active one is no draft's.
pub open spec fn consistent(inner: SessionInner, status: SessionStatus) -> bool {
    match status {
        SessionStatus::Pending => inner is Draft,
        SessionStatus::Materializing => inner matches SessionInner::Active {
            composition: Some(_),
            host: false,
            ..
        },
        SessionStatus::Active => inner is Active,
    }
}

impl Session {
    /// Brings a session up from its record. One that was being materialized
    /// has lost its composition, and cannot be.
    pub fn run(status: SessionStatus, loaded: Option<Composition>) -> (session: Result<Session, Fault>)
        ensures
            match session {
                Ok(s) => {
                    &&& consistent(s.inner, status)
                    &&& s.inner == (match status {
                        SessionStatus::Active => SessionInner::Active {
                            composition: loaded,
                            host: false,
                            sops: 0,
                        },
                        _ => SessionInner::Draft { pending: false },
                    })
                },
                Err(f) => is_fault(f, FaultKind::InvalidData, orphaned_record()),
            },
            session is Err <==> status == SessionStatus::Materializing,
    {
        match status {
            SessionStatus::Active => Ok(
                Session {
                    inner: SessionInner::Active { composition: loaded, host: false, sops: 0 },
                },
            ),
            SessionStatus::Pending => Ok(Session { inner: SessionInner::Draft { pending: false } }),
            SessionStatus::Materializing => Err(
                fault(
                    FaultKind::InvalidData,
                    "session record is Materializing but has no in-memory composition (restart-orphaned actor); destroy the session and re-activate",
                ),
            ),
        }
    }

    /// Whether a client is being waited for, or a shell is running, so that the
    /// daemon does not go down unless it is told to insist.
    pub fn is_busy(&self) -> (busy: bool)
        ensures
            busy == (match self.inner {
                SessionInner::Draft { pending } => pending,
                SessionInner::Active { host, .. } => host,
            }),
    {
        match &self.inner {
            SessionInner::Draft { pending } => *pending,
            SessionInner::Active { host, .. } => *host,
        }
    }

    /// Whether a host is running.
    pub fn has_host(&self) -> (yes: bool)
        ensures
            yes == (self.inner matches SessionInner::Active { host: true, .. }),
    {
        match &self.inner {
            SessionInner::Active { host, .. } => *host,
            SessionInner::Draft { .. } => false,
        }
    }

    /// The composition, if there is one.
    pub fn composition(&self) -> (c: Option<&Composition>)
        ensures
            match self.inner {
                SessionInner::Active { composition: Some(comp), .. } => c == Some(&comp),
                _ => c is None,
            },
    {
        match &self.inner {
            SessionInner::Active { composition, .. } => composition.as_ref(),
            SessionInner::Draft { .. } => None,
        }
    }
}

/// Whether a session has a route of its own: it is composed, and its network
/// can be reached.
pub open spec fn owns_route(inner: SessionInner, network: NetworkMode) -> bool {
    inner is Active && network != NetworkMode::NoNet
}

/// A route to a session by its name.
#[derive(Debug)]
pub struct Route {
    pub name: String,
    /// Whether the session has an address of its own, or uses the host's.
    pub own_ip: bool,
}

/// The route of a session, if it has one.
pub open spec fn route_of(inner: SessionInner, record: Record) -> Option<(Seq<char>, bool)> {
    if owns_route(inner, record.network) {
        Some(
            (
                display_name(text::optional(record.name), record.project_path@),
                record.network == NetworkMode::OwnIp,
            ),
        )
    } else {
        None
    }
}

/// What a route says.
pub open spec fn route_view(route: Option<Route>) -> Option<(Seq<char>, bool)> {
    match route {
        Some(r) => Some((r.name@, r.own_ip)),
        None => None,
    }
}

impl Session {
    /// Whether this session has a route.
    pub fn owns_hostname_route(&self, record: &Record) -> (yes: bool)
        ensures
            yes == owns_route(self.inner, record.network),
    {
        let active = match &self.inner {
            SessionInner::Active { .. } => true,
            SessionInner::Draft { .. } => false,
        };
        active && record.network != NetworkMode::NoNet
    }

    /// The route to register for this session. A draft has nothing to route
    /// to, and neither has a session without a network.
    pub fn register_hostname(&self, record: &Record) -> (route: Option<Route>)
        ensures
            route_view(route) == route_of(self.inner, *record),
    {
        if self.owns_hostname_route(record) {
            Some(
                Route {
                    name: registry_name(record),
                    own_ip: record.network == NetworkMode::OwnIp,
                },
            )
        } else {
            None
        }
    }

    /// The name to withdraw the route of. The registry goes by names alone, so
    /// a session without a route of its own withdraws none: it might be
    /// another's.
    pub fn deregister_hostname(&self, record: &Record) -> (name: Option<String>)
        ensures
            text::optional(name) == (match route_of(self.inner, *record) {
                Some(r) => Some(r.0),
                None => None,
            }),
    {
        if self.owns_hostname_route(record) {
            Some(registry_name(record))
        } else {
            None
        }
    }
}

/// What a change of name does to the routes: the old one is withdrawn before
/// the record is written, and the one that stuck is registered afterwards.
#[derive(Debug)]
pub struct RenameEnd {
    pub register: Option<Route>,
    pub result: Result<(), Fault>,
}

impl Session {
    /// Finishes a change of name once the record was written, or not: the new
    /// name is routed where it stuck, and the old one where it did not.
    pub fn rename(&self, record: Record, new_name: String, written: Result<(), Fault>) -> (end:
        RenameEnd)
        ensures
            end.result == written,
            route_view(end.register) == (if owns_route(self.inner, record.network) {
                Some(
                    (
                        if written is Ok {
                            new_name@
                        } else {
                            display_name(text::optional(record.name), record.project_path@)
                        },
                        record.network == NetworkMode::OwnIp,
                    ),
                )
            } else {
                None
            }),
    {
        let mut record = record;
        match &written {
            Ok(()) => {
                record.name = Some(new_name);
            },
            Err(_) => {},
        }
        let register = self.register_hostname(&record);
        RenameEnd { register, result: written }
    }
}

/// Something that is done to stop what a session runs.
#[derive(Clone, Copy, PartialEq, Eq, Structural, Debug)]
pub enum StopStep {
    /// Stop the next side operation, and wait for it.
    StopSideOp,
    /// Kill the host, and wait for it; it tells its clients where the daemon is
    /// going down.
    KillHost { for_shutdown: bool },
}

/// What stopping a session takes: its side operations first, then its host.
pub open spec fn stop_steps(inner: SessionInner, for_shutdown: bool) -> Seq<StopStep> {
    match inner {
        SessionInner::Active { host, sops, .. } => Seq::new(
            sops as nat,
            |i: int| StopStep::StopSideOp,
        ) + (if host {
            seq![StopStep::KillHost { for_shutdown }]
        } else {
            Seq::empty()
        }),
        SessionInner::Draft { .. } => Seq::empty(),
    }
}

/// A session that runs nothing, and is the same otherwise.
pub open spec fn stopped(inner: SessionInner) -> SessionInner {
    match inner {
        SessionInner::Active { composition, .. } => SessionInner::Active {
            composition,
            host: false,
            sops: 0,
        },
        draft => draft,
    }
}

impl Session {
    /// Stops what the session runs. Afterwards it runs nothing.
    pub fn stop_running(&mut self, for_shutdown: bool) -> (steps: Vec<StopStep>)
        ensures
            steps@ == stop_steps(old(self).inner, for_shutdown),
            final(self).inner == stopped(old(self).inner),
    {
        let mut steps: Vec<StopStep> = Vec::new();
        match &mut self.inner {
            SessionInner::Active { composition, host, sops } => {
                let mut i: usize = 0;
                let n = *sops;
                while i < n
                    invariant
                        i <= n,
                        steps@ == Seq::new(i as nat, |k: int| StopStep::StopSideOp),
                    decreases n - i,
                {
                    steps.push(StopStep::StopSideOp);
                    assert(steps@ =~= Seq::new((i + 1) as nat, |k: int| StopStep::StopSideOp));
                    i = i + 1;
                }
                if *host {
                    steps.push(StopStep::KillHost { for_shutdown });
                }
                *host = false;
                *sops = 0;
            },
            SessionInner::Draft { .. } => {},
        }
        assert(steps@ =~= stop_steps(old(self).inner, for_shutdown));
        steps
    }

    /// Notes that a side operation runs. Only a composed session runs any.
    pub fn add_side_op(&mut self)
        requires
            old(self).inner matches SessionInner::Active { sops, .. } && sops < usize::MAX,
        ensures
            old(self).inner matches SessionInner::Active { composition, host, sops }
                && final(self).inner == (SessionInner::Active {
                composition,
                host,
                sops: (sops + 1) as usize,
            }),
    {
        match &mut self.inner {
            SessionInner::Active { sops, .. } => {
                *sops = *sops + 1;
            },
            SessionInner::Draft { .. } => {},
        }
    }

    /// Notes that a host runs. Only a composed session runs one.
    pub fn hold_host(&mut self)
        requires
            old(self).inner is Active,
        ensures
            old(self).inner matches SessionInner::Active { composition, host, sops }
                && final(self).inner == (SessionInner::Active { composition, host: true, sops }),
    {
        match &mut self.inner {
            SessionInner::Active { host, .. } => {
                *host = true;
            },
            SessionInner::Draft { .. } => {},
        }
    }

    /// Refuses to give up a session that is composed. A draft is given up: its
    /// record is deleted, and the session ends by itself.
    pub fn abort(&self, record: Result<Record, Fault>) -> (refused: Option<Fault>)
        ensures
            self.inner is Draft ==> refused is None,
            self.inner is Active ==> refused is Some && match record {
                Ok(r) => is_fault(
                    refused->0,
                    FaultKind::InvalidInput,
                    "cannot abort session `"@ + r.id@ + "`: status is "@ + r.status.name()
                        + ", expected Pending"@,
                ),
                Err(f) => refused->0 == f,
            },
    {
        match &self.inner {
            SessionInner::Draft { .. } => None,
            SessionInner::Active { .. } => match record {
                Ok(r) => Some(
                    Fault {
                        kind: FaultKind::InvalidInput,
                        text: text::cat5(
                            "cannot abort session `",
                            r.id.as_str(),
                            "`: status is ",
                            r.status.as_str(),
                            ", expected Pending",
                        ),
                    },
                ),
                Err(f) => Some(f),
            },
        }
    }
}

/// Who ends a session.
#[derive(Clone, Copy, PartialEq, Eq, Structural, Debug)]
pub enum Teardown {
    /// The manager of all sessions, which forgets it by itself.
    ManagerInitiated,
    /// The session itself, which has the manager forget it.
    SelfInitiated,
}

/// What a session is asked.
#[derive(Clone, Copy, PartialEq, Eq, Structural, Debug)]
pub enum SessionMessage {
    GetPaths,
    MakeContext,
    Attach,
    EnsureHost,
    GetHostAttrs,
    GetWorkspaceDelta,
    GetHostScreen,
    ConfigureLoadout,
    SubmitVerdict,
    Finalize,
    Abort,
    Rename,
    IsBusy,
    Stop,
    Destroy,
    GetPatchesUploadLock,
    StartBuild,
    StartCheck,
    StartMaterialize,
    GetRecord,
}

/// Something that the driver does for a message.
#[derive(Clone, Copy, PartialEq, Eq, Structural, Debug)]
pub enum SessionAction {
    /// Do what the message names, and answer with the result.
    Perform,
    /// Pass the question to the host, and its answer back.
    AskHost,
    /// Answer that there is no host to ask.
    AnswerNoHost,
    /// Answer whether the session is busy.
    AnswerBusy(bool),
    /// Refuse to give up a composed session.
    RefuseAbort,
    /// Stop something that runs.
    Stop(StopStep),
    /// Withdraw the session's route, if it has one.
    WithdrawRoute,
    /// Delete the record, and answer with the result.
    DeleteRecord,
    /// Answer that it is done.
    AnswerDone,
}

/// What ending a session takes: what runs is stopped, and the route withdrawn,
/// before the record goes.
pub open spec fn ending_steps(inner: SessionInner, for_shutdown: bool) -> Seq<SessionAction> {
    stop_steps(inner, for_shutdown).map_values(|s: StopStep| SessionAction::Stop(s)).push(
        SessionAction::WithdrawRoute,
    ).push(
        if for_shutdown {
            SessionAction::AnswerDone
        } else {
            SessionAction::DeleteRecord
        },
    )
}

/// What is done for a message, in order, and who ends the session by it, if it
/// ends.
pub open spec fn message_plan(inner: SessionInner, msg: SessionMessage) -> (
    Seq<SessionAction>,
    Option<Teardown>,
) {
    match msg {
        SessionMessage::GetHostAttrs
        | SessionMessage::GetHostScreen
        | SessionMessage::GetWorkspaceDelta => (
            seq![
                if inner matches SessionInner::Active { host: true, .. } {
                    SessionAction::AskHost
                } else {
                    SessionAction::AnswerNoHost
                },
            ],
            None,
        ),
        SessionMessage::Abort => if inner is Draft {
            (seq![SessionAction::DeleteRecord], Some(Teardown::SelfInitiated))
        } else {
            (seq![SessionAction::RefuseAbort], None)
        },
        SessionMessage::IsBusy => (
            seq![
                SessionAction::AnswerBusy(
                    match inner {
                        SessionInner::Draft { pending } => pending,
                        SessionInner::Active { host, .. } => host,
                    },
                ),
            ],
            None,
        ),
        SessionMessage::Stop => (ending_steps(inner, true), Some(Teardown::ManagerInitiated)),
        SessionMessage::Destroy => (ending_steps(inner, false), Some(Teardown::ManagerInitiated)),
        _ => (seq![SessionAction::Perform], None),
    }
}

/// What a message leaves a session as.
pub open spec fn left_by(inner: SessionInner, msg: SessionMessage) -> SessionInner {
    if msg == SessionMessage::Stop || msg == SessionMessage::Destroy {
        stopped(inner)
    } else {
        inner
    }
}

impl Session {
    fn end_session(&mut self, for_shutdown: bool) -> (actions: Vec<SessionAction>)
        ensures
            actions@ == ending_steps(old(self).inner, for_shutdown),
            final(self).inner == stopped(old(self).inner),
    {
        let stops = self.stop_running(for_shutdown);
        let mut actions: Vec<SessionAction> = Vec::new();
        let mut i: usize = 0;
        while i < stops.len()
            invariant
                i <= stops@.len(),
                actions@ == stops@.take(i as int).map_values(|s: StopStep| SessionAction::Stop(s)),
            decreases stops@.len() - i,
        {
            actions.push(SessionAction::Stop(stops[i]));
            assert(actions@ =~= stops@.take(i + 1).map_values(
                |s: StopStep| SessionAction::Stop(s),
            ));
            i = i + 1;
        }
        assert(stops@.take(i as int) =~= stops@);
        actions.push(SessionAction::WithdrawRoute);
        if for_shutdown {
            actions.push(SessionAction::AnswerDone);
        } else {
            actions.push(SessionAction::DeleteRecord);
        }
        actions
    }

    /// Decides what is done for a message. Stopping and destroying leave
    /// nothing running.
    pub fn handle_message(&mut self, msg: SessionMessage) -> (plan: (
        Vec<SessionAction>,
        Option<Teardown>,
    ))
        ensures
            (plan.0@, plan.1) == message_plan(old(self).inner, msg),
            final(self).inner == left_by(old(self).inner, msg),
    {
        let mut actions: Vec<SessionAction> = Vec::new();
        let mut end: Option<Teardown> = None;
        match msg {
            SessionMessage::GetHostAttrs
            | SessionMessage::GetHostScreen
            | SessionMessage::GetWorkspaceDelta => {
                if self.has_host() {
                    actions.push(SessionAction::AskHost);
                } else {
                    actions.push(SessionAction::AnswerNoHost);
                }
            },
            SessionMessage::Abort => match &self.inner {
                SessionInner::Draft { .. } => {
                    actions.push(SessionAction::DeleteRecord);
                    end = Some(Teardown::SelfInitiated);
                },
                SessionInner::Active { .. } => {
                    actions.push(SessionAction::RefuseAbort);
                },
            },
            SessionMessage::IsBusy => {
                actions.push(SessionAction::AnswerBusy(self.is_busy()));
            },
            SessionMessage::Stop => {
                actions = self.end_session(true);
                end = Some(Teardown::ManagerInitiated);
            },
            SessionMessage::Destroy => {
                actions = self.end_session(false);
                end = Some(Teardown::ManagerInitiated);
            },
            _ => {
                actions.push(SessionAction::Perform);
            },
        }
        assert(actions@ =~= message_plan(old(self).inner, msg).0);
        (actions, end)
    }
}

/// Something that is done once a session has ended.
#[derive(Clone, Copy, PartialEq, Eq, Structural, Debug)]
pub enum FarewellStep {
    /// Take no more messages.
    CloseMailbox,
    /// Have the manager forget the session.
    Evict,
}

/// What is done once a session has ended: one that ended by itself takes no
/// more messages before it has the manager forget it, so that a manager that
/// waits for an answer at that moment gets an error and does not wait on.
pub fn mainloop_end(teardown: Teardown) -> (steps: Vec<FarewellStep>)
    ensures
        steps@ == (match teardown {
            Teardown::ManagerInitiated => seq![FarewellStep::CloseMailbox],
            Teardown::SelfInitiated => seq![FarewellStep::CloseMailbox, FarewellStep::Evict],
        }),
{
    let mut steps: Vec<FarewellStep> = Vec::new();
    steps.push(FarewellStep::CloseMailbox);
    match teardown {
        Teardown::ManagerInitiated => {},
        Teardown::SelfInitiated => {
            steps.push(FarewellStep::Evict);
        },
    }
    steps
}

/// A session that was stopped has nothing left to stop, and keeps its record
/// and its composition as they were.
pub proof fn law_stopping_leaves_nothing_running(
    inner: SessionInner,
    status: SessionStatus,
    for_shutdown: bool,
)
    requires
        consistent(inner, status),
    ensures
        stop_steps(stopped(inner), for_shutdown) == Seq::<StopStep>::empty(),
        consistent(stopped(inner), status),
{
    assert(stop_steps(stopped(inner), for_shutdown) =~= Seq::<StopStep>::empty());
}

/// A session ends when it is stopped, destroyed, or aborted as a draft, and by
/// nothing else.
pub proof fn law_only_three_messages_end_a_session(inner: SessionInner, msg: SessionMessage)
    ensures
        message_plan(inner, msg).1 is Some <==> (msg == SessionMessage::Stop || msg
            == SessionMessage::Destroy || (msg == SessionMessage::Abort && inner is Draft)),
        message_plan(inner, msg).1 == Some(Teardown::SelfInitiated) <==> (msg
            == SessionMessage::Abort && inner is Draft),
{
}

/// A record is deleted only by destroying its session or aborting a draft, and
/// then last: everything that ran is stopped, and the route withdrawn, before.
pub proof fn law_the_record_goes_last(inner: SessionInner, msg: SessionMessage, i: int)
    requires
        0 <= i < message_plan(inner, msg).0.len(),
        message_plan(inner, msg).0[i] == SessionAction::DeleteRecord,
    ensures
        i == message_plan(inner, msg).0.len() - 1,
        msg == SessionMessage::Destroy || (msg == SessionMessage::Abort && inner is Draft),
        msg == SessionMessage::Destroy ==> message_plan(inner, msg).0[i - 1]
            == SessionAction::WithdrawRoute && message_plan(inner, msg).0.take(i - 1)
            == stop_steps(inner, false).map_values(|s: StopStep| SessionAction::Stop(s)),
{
    let plan = message_plan(inner, msg).0;
    if msg == SessionMessage::Destroy || msg == SessionMessage::Stop {
        let for_shutdown = msg == SessionMessage::Stop;
        let stops = stop_steps(inner, for_shutdown).map_values(
            |s: StopStep| SessionAction::Stop(s),
        );
        assert(plan == ending_steps(inner, for_shutdown));
        assert(plan.take(plan.len() - 2) =~= stops);
        if i < plan.len() - 2 {
            assert(stops[i] == plan[i]);
            assert(stops[i] == SessionAction::Stop(stop_steps(inner, for_shutdown)[i]));
        }
    }
}

/// A session that has no route withdraws none and registers none, whatever
/// name it goes by: so a draft never takes another session's route away.
pub proof fn law_routes_are_withdrawn_by_their_owners(inner: SessionInner, record: Record)
    ensures
        route_of(inner, record) is Some <==> inner is Active && record.network
            != NetworkMode::NoNet,
        inner is Draft ==> route_of(inner, record) is None,
{
}

/// Stopping a session stops each of its side operations, and then its host
/// where it has one; the host is told whether the daemon goes down. A draft
/// has nothing to stop.
pub proof fn law_everything_that_runs_is_stopped(inner: SessionInner, for_shutdown: bool)
    ensures
        inner is Draft ==> stop_steps(inner, for_shutdown).len() == 0,
        inner is Active ==> {
            let steps = stop_steps(inner, for_shutdown);
            let n = inner->sops as int;
            &&& steps.len() == n + (if inner->host { 1int } else { 0 })
            &&& forall|i: int| 0 <= i < n ==> #[trigger] steps[i] == StopStep::StopSideOp
            &&& inner->host ==> steps[n] == (StopStep::KillHost { for_shutdown })
        },
        inner is Draft ==> stopped(inner) == inner,
        inner is Active ==> stopped(inner) is Active && stopped(inner)->composition
            == inner->composition && !stopped(inner)->host && stopped(inner)->sops == 0,
{
}

/// What each message has done. A question to the host reaches it where it runs,
/// and is answered without one where it does not; a composed session is not
/// given up; whether it is busy is answered by what it waits for; stopping
/// keeps the record and destroying deletes it, both behind all that has to be
/// stopped and the withdrawal of the route. Whatever else is asked is done.
pub proof fn law_each_message_has_its_own_plan(inner: SessionInner, msg: SessionMessage)
    ensures
        ({
            let (plan, end) = message_plan(inner, msg);
            let running = inner is Active && inner->host;
            let asks = msg is GetHostAttrs || msg is GetHostScreen || msg is GetWorkspaceDelta;
            let ends = msg is Stop || msg is Destroy;
            &&& asks ==> plan == seq![
                if running {
                    SessionAction::AskHost
                } else {
                    SessionAction::AnswerNoHost
                },
            ] && end is None
            &&& msg is Abort && inner is Draft ==> plan == seq![SessionAction::DeleteRecord] && end
                == Some(Teardown::SelfInitiated)
            &&& msg is Abort && inner is Active ==> plan == seq![SessionAction::RefuseAbort]
                && end is None
            &&& msg is IsBusy ==> end is None && plan.len() == 1 && plan[0] is AnswerBusy && (
            plan[0]->AnswerBusy_0 <==> (running || (inner is Draft && inner->pending)))
            &&& ends ==> {
                let stops = stop_steps(inner, msg is Stop);
                &&& end == Some(Teardown::ManagerInitiated)
                &&& plan.len() == stops.len() + 2
                &&& forall|i: int|
                    0 <= i < stops.len() ==> #[trigger] plan[i] == SessionAction::Stop(stops[i])
                &&& plan[stops.len() as int] == SessionAction::WithdrawRoute
                &&& msg is Stop ==> plan.last() == SessionAction::AnswerDone
                &&& msg is Destroy ==> plan.last() == SessionAction::DeleteRecord
            }
            &&& !asks && !ends && !(msg is Abort) && !(msg is IsBusy) ==> plan
                == seq![SessionAction::Perform] && end is None
        }),
{
}

/// Stopping and destroying leave nothing running, and no other message changes
/// what a session is.
pub proof fn law_messages_change_only_what_they_stop(inner: SessionInner, msg: SessionMessage)
    ensures
        !(msg is Stop) && !(msg is Destroy) ==> left_by(inner, msg) == inner,
        inner is Draft ==> left_by(inner, msg) == inner,
        (msg is Stop || msg is Destroy) && inner is Active ==> {
            let after = left_by(inner, msg);
            after is Active && !after->host && after->sops == 0 && after->composition
                == inner->composition
        },
{
}

/// A session is known by its own name, and without one by the directory of its
/// project; its route leads to an address of its own only where it has one.
pub proof fn law_a_route_goes_by_the_sessions_name(inner: SessionInner, record: Record)
    ensures
        route_of(inner, record) is Some <==> (inner is Active && !(record.network is NoNet)),
        ({
            let route = route_of(inner, record)->0;
            inner is Active && !(record.network is NoNet) ==> {
                &&& record.name is Some ==> route.0 == record.name->0@
                &&& record.name is None && paths::file_name_of(record.project_path@) is Some
                    ==> route.0 == paths::file_name_of(record.project_path@)->0
                &&& record.name is None && paths::file_name_of(record.project_path@) is None
                    ==> route.0 == "session"@
                &&& route.1 <==> record.network is OwnIp
            }
        }),
{
}

/// The name that is withdrawn is the one that was registered.
pub proof fn law_what_is_registered_is_withdrawn(
    s: &Session,
    record: &Record,
    route: Option<Route>,
    name: Option<String>,
)
    requires
        call_ensures(Session::register_hostname, (s, record), route),
        call_ensures(Session::deregister_hostname, (s, record), name),
    ensures
        route is Some <==> name is Some,
        route is Some ==> name->0@ == route->0.name@,
        route is Some <==> (s.inner is Active && !(record.network is NoNet)),
        route is Some ==> (route->0.own_ip <==> record.network is OwnIp),
        route is Some && record.name is Some ==> route->0.name@ == record.name->0@,
{
}

/// A change of name is answered as the record was written, and routes the name
/// that stuck, if the session has a route at all.
pub proof fn law_the_name_that_stuck_is_routed(
    s: &Session,
    record: Record,
    new_name: String,
    written: Result<(), Fault>,
    end: RenameEnd,
)
    requires
        call_ensures(Session::rename, (s, record, new_name, written), end),
    ensures
        end.result == written,
        end.register is Some <==> (s.inner is Active && !(record.network is NoNet)),
        end.register is Some && written is Ok ==> end.register->0.name@ == new_name@,
        end.register is Some && written is Err && record.name is Some ==> end.register->0.name@
            == record.name->0@,
        end.register is Some ==> (end.register->0.own_ip <==> record.network is OwnIp),
{
}

/// Patches are needed where there are any; hook scripts where some hook reads
/// one of its four from a file.
pub proof fn law_uploads_are_needed_for_what_is_in_files(c: Composition)
    ensures
        c.needs_patches() <==> c.patches@.len() != 0,
        c.needs_scripts() <==> exists|i: int|
            0 <= i < c.hooks@.len() && ({
                let h = (#[trigger] c.hooks@[i]).hook;
                ||| h.on_activate is Some && h.on_activate->0.body is External
                ||| h.on_destroy is Some && h.on_destroy->0.body is External
                ||| h.on_attach is Some && h.on_attach->0.body is External
                ||| h.on_detach is Some && h.on_detach->0.body is External
            }),
{
    if c.needs_scripts() {
        let i = choose|i: int|
            0 <= i < c.hooks@.len() && has_external_script(#[trigger] c.hooks@[i]);
        let h = c.hooks@[i].hook;
        assert(is_external(h.on_activate) || is_external(h.on_destroy) || is_external(h.on_attach)
            || is_external(h.on_detach));
    }
    if exists|i: int|
        0 <= i < c.hooks@.len() && ({
            let h = (#[trigger] c.hooks@[i]).hook;
            ||| h.on_activate is Some && h.on_activate->0.body is External
            ||| h.on_destroy is Some && h.on_destroy->0.body is External
            ||| h.on_attach is Some && h.on_attach->0.body is External
            ||| h.on_detach is Some && h.on_detach->0.body is External
        }) {
        let i = choose|i: int|
            0 <= i < c.hooks@.len() && ({
                let h = (#[trigger] c.hooks@[i]).hook;
                ||| h.on_activate is Some && h.on_activate->0.body is External
                ||| h.on_destroy is Some && h.on_destroy->0.body is External
                ||| h.on_attach is Some && h.on_attach->0.body is External
                ||| h.on_detach is Some && h.on_detach->0.body is External
            });
        assert(has_external_script(c.hooks@[i]));
    }
}

/// A session comes back as its record says: an active one with the composition
/// that was read, a pending one as a draft that waits for nothing. One that was
/// being materialized does not come back.
pub proof fn law_a_session_comes_back_as_its_record_says(
    status: SessionStatus,
    loaded: Option<Composition>,
    back: Result<Session, Fault>,
)
    requires
        call_ensures(Session::run, (status, loaded), back),
    ensures
        back is Ok <==> status is Pending || status is Active,
        status is Active ==> back->Ok_0.inner is Active && back->Ok_0.inner->composition == loaded
            && !back->Ok_0.inner->host && back->Ok_0.inner->sops == 0,
        status is Pending ==> back->Ok_0.inner is Draft && !back->Ok_0.inner->pending,
        status is Materializing ==> back->Err_0.kind is InvalidData && back->Err_0.text@
            == "session record is Materializing but has no in-memory composition (restart-orphaned actor); destroy the session and re-activate"@,
{
}

/// A session is busy while a client owes it a verdict or its shell runs, and
/// has a host only while that runs.
pub proof fn law_a_session_is_busy_while_someone_works(s: &Session, busy: bool, hosted: bool)
    requires
        call_ensures(Session::is_busy, (s,), busy),
        call_ensures(Session::has_host, (s,), hosted),
    ensures
        hosted <==> (s.inner is Active && s.inner->host),
        busy <==> (hosted || (s.inner is Draft && s.inner->pending)),
{
}

/// Only a draft is given up. The refusal names the session and how far it is,
/// or is what reading its record failed with.
pub proof fn law_only_a_draft_is_given_up(
    s: &Session,
    record: Result<Record, Fault>,
    refused: Option<Fault>,
)
    requires
        call_ensures(Session::abort, (s, record), refused),
    ensures
        refused is None <==> s.inner is Draft,
        refused is Some && record is Err ==> refused->0 == record->Err_0,
        refused is Some && record is Ok ==> refused->0.kind is InvalidInput && refused->0.text@
            == "cannot abort session `"@ + record->Ok_0.id@ + "`: status is "@ + (
        match record->Ok_0.status {
            SessionStatus::Pending => "Pending"@,
            SessionStatus::Materializing => "Materializing"@,
            SessionStatus::Active => "Active"@,
        }) + ", expected Pending"@,
{
}

/// A session that ended takes no more messages, and has the manager forget it
/// only afterwards and only where it ended by itself.
pub proof fn law_a_mailbox_closes_before_the_session_is_forgotten(
    teardown: Teardown,
    steps: Vec<FarewellStep>,
)
    requires
        call_ensures(mainloop_end, (teardown,), steps),
    ensures
        steps@.len() >= 1,
        steps@[0] is CloseMailbox,
        teardown is ManagerInitiated ==> steps@.len() == 1,
        teardown is SelfInitiated ==> steps@.len() == 2 && steps@[1] is Evict,
{
}

/// A composition belongs to a composed session alone, and is handed out as it
/// is.
pub proof fn law_the_composition_is_handed_out_as_it_is(s: &Session, c: Option<&Composition>)
    requires
        call_ensures(Session::composition, (s,), c),
    ensures
        c is Some <==> (s.inner is Active && s.inner->composition is Some),
        c is Some ==> *c->0 == s.inner->composition->0,
{
}

/// Messages, stops, side operations and hosts change a session as is said here,
/// and nothing else of it.
pub proof fn law_a_session_changes_as_stated(
    msg: SessionMessage,
    plan: (Vec<SessionAction>, Option<Teardown>),
    for_shutdown: bool,
    steps: Vec<StopStep>,
)
    ensures
        forall|s: &mut Session| #[trigger]
            call_ensures(Session::handle_message, (s, msg), plan) ==> (plan.0@, plan.1)
                == message_plan(s.inner, msg) && final(s).inner == left_by(s.inner, msg),
        forall|s: &mut Session| #[trigger]
            call_ensures(Session::stop_running, (s, for_shutdown), steps) ==> steps@ == stop_steps(
                s.inner,
                for_shutdown,
            ) && final(s).inner == stopped(s.inner),
        forall|s: &mut Session| #[trigger]
            call_ensures(Session::add_side_op, (s,), ()) && s.inner is Active && s.inner->sops
                < usize::MAX ==> {
                &&& final(s).inner is Active
                &&& final(s).inner->sops == s.inner->sops + 1
                &&& final(s).inner->host == s.inner->host
                &&& final(s).inner->composition == s.inner->composition
            },
        forall|s: &mut Session| #[trigger]
            call_ensures(Session::hold_host, (s,), ()) && s.inner is Active ==> {
                &&& final(s).inner is Active
                &&& final(s).inner->host
                &&& final(s).inner->sops == s.inner->sops
                &&& final(s).inner->composition == s.inner->composition
            },
{
}

/// What is asked of a session, its record and its composition is answered by
/// what they hold.
pub proof fn law_a_session_tells_what_it_holds(
    s: &Session,
    record: &Record,
    c: &Composition,
    kind: FaultKind,
    words: &str,
    name: String,
    owns: bool,
    patches: bool,
    scripts: bool,
    f: Fault,
    status: SessionStatus,
    shown: &'static str,
)
    requires
        call_ensures(registry_name, (record,), name),
        call_ensures(Session::owns_hostname_route, (s, record), owns),
        call_ensures(Composition::has_patches, (c,), patches),
        call_ensures(Composition::has_external_hooks, (c,), scripts),
        call_ensures(fault, (kind, words), f),
        call_ensures(SessionStatus::as_str, (status,), shown),
    ensures
        record.name is Some ==> name@ == record.name->0@,
        record.name is None && paths::file_name_of(record.project_path@) is Some ==> name@
            == paths::file_name_of(record.project_path@)->0,
        record.name is None && paths::file_name_of(record.project_path@) is None ==> name@
            == "session"@,
        owns <==> s.inner is Active && !(record.network is NoNet),
        patches <==> c.patches@.len() > 0,
        scripts <==> c.needs_scripts(),
        f.kind == kind && f.text@ == words@,
        status is Pending ==> shown@ == "Pending"@,
        status is Materializing ==> shown@ == "Materializing"@,
        status is Active ==> shown@ == "Active"@,
{
}

/// The record and the state of a session fit together only in these ways.
pub proof fn law_a_record_fits_its_session(inner: SessionInner, status: SessionStatus)
    ensures
        consistent(inner, SessionStatus::Pending) <==> inner is Draft,
        consistent(inner, SessionStatus::Active) <==> inner is Active,
        consistent(inner, SessionStatus::Materializing) <==> inner is Active
            && inner->composition is Some && !inner->host,
{
}

} // verus!
