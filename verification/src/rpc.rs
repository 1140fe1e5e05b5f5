//! Serving remote procedure calls: which call a channel asks for, how its
//! request is collected, and how what came of it is answered.
use vstd::prelude::*;
use vstd::string::*;

use crate::host::HostAttrs;
use crate::session::SessionStatus;
use crate::session_command::AtRisk;
use crate::text;

verus! {

/// The calls that the daemon serves.
#[derive(Clone, Copy, PartialEq, Eq, Structural, Debug)]
pub enum Rpc {
    GetVersion,
    ListSessions,
    GetSessionRecord,
    CreateSession,
    ConfigureLoadout,
    SubmitVerdict,
    FinalizeSession,
    RenameSession,
    DestroySession,
    Shutdown,
    AbortSession,
    GetSessionPolicy,
    GetSessionHooks,
    SessionDelta,
    GetSessionScreen,
    GetMeshStatus,
    StreamWorkspaceFiles,
    StreamWorkspacePatches,
    StreamWorkspaceHookScripts,
    DiagBundle,
    CleanCache,
    IssueClientCert,
}

/// The names that calls go by.
#[derive(Debug)]
pub struct RpcTable {
    pub entries: Vec<(String, Rpc)>,
}

impl RpcTable {
    /// The first call among the first `n` that goes by a name.
    pub open spec fn find_up_to(&self, name: Seq<char>, n: int) -> Option<Rpc>
        decreases n,
    {
        if n <= 0 {
            None
        } else if self.find_up_to(name, n - 1) is Some {
            self.find_up_to(name, n - 1)
        } else if self.entries@[n - 1].0@ == name {
            Some(self.entries@[n - 1].1)
        } else {
            None
        }
    }

    /// The call that goes by a name.
    pub open spec fn find(&self, name: Seq<char>) -> Option<Rpc> {
        self.find_up_to(name, self.entries@.len() as int)
    }

    proof fn lemma_found_stays(&self, name: Seq<char>, n: int, m: int)
        requires
            0 <= n <= m,
            self.find_up_to(name, n) is Some,
        ensures
            self.find_up_to(name, m) == self.find_up_to(name, n),
        decreases m - n,
    {
        if n < m {
            self.lemma_found_stays(name, n, m - 1);
        }
    }

    /// Looks a call up by its name.
    pub fn lookup(&self, name: &str) -> (rpc: Option<Rpc>)
        ensures
            rpc == self.find(name@),
    {
        let mut i: usize = 0;
        while i < self.entries.len()
            invariant
                i <= self.entries@.len(),
                self.find_up_to(name@, i as int) is None,
            decreases self.entries@.len() - i,
        {
            if text::same_text(self.entries[i].0.as_str(), name) {
                proof {
                    self.lemma_found_stays(name@, i + 1, self.entries@.len() as int);
                }
                return Some(self.entries[i].1);
            }
            i = i + 1;
        }
        None
    }
}

/// The name of an upload, below the prefix that all calls share.
pub open spec fn stream_suffix(rpc: Rpc) -> Option<Seq<char>> {
    match rpc {
        Rpc::StreamWorkspaceFiles => Some("WorkspaceFilesTarZst"@),
        Rpc::StreamWorkspacePatches => Some("WorkspacePatchesTarZst"@),
        Rpc::StreamWorkspaceHookScripts => Some("WorkspaceHookScriptsTarZst"@),
        _ => None,
    }
}

/// The name that an upload goes by, if the call is one.
pub fn stream_name(prefix: &str, rpc: Rpc) -> (name: Option<String>)
    ensures
        text::optional(name) == (match stream_suffix(rpc) {
            Some(suffix) => Some(prefix@ + suffix),
            None => None,
        }),
{
    match rpc {
        Rpc::StreamWorkspaceFiles => Some(text::cat2(prefix, "WorkspaceFilesTarZst")),
        Rpc::StreamWorkspacePatches => Some(text::cat2(prefix, "WorkspacePatchesTarZst")),
        Rpc::StreamWorkspaceHookScripts => Some(text::cat2(prefix, "WorkspaceHookScriptsTarZst")),
        _ => None,
    }
}

/// What becomes of a channel that asks for a call.
#[derive(Clone, Copy, PartialEq, Eq, Structural, Debug)]
pub enum Dispatch {
    /// The request fails.
    Refuse,
    /// The request succeeds, and the call takes the channel over.
    Serve(Rpc),
}

/// Decides what becomes of a channel that asks for the call `name`: it is
/// served where the call is known and the channel was not taken already.
pub fn handle_ssh_rpc(table: &RpcTable, name: &str, channel_free: bool) -> (dispatch: Dispatch)
    ensures
        dispatch == (match table.find(name@) {
            Some(rpc) => if channel_free {
                Dispatch::Serve(rpc)
            } else {
                Dispatch::Refuse
            },
            None => Dispatch::Refuse,
        }),
{
    match table.lookup(name) {
        Some(rpc) => {
            if channel_free {
                Dispatch::Serve(rpc)
            } else {
                Dispatch::Refuse
            }
        },
        None => Dispatch::Refuse,
    }
}

/// The identity of a piece of work in a trace.
#[derive(Clone, Copy, PartialEq, Eq, Structural, Debug)]
pub struct TraceIds {
    pub trace: u128,
    pub span: u64,
}

/// The identity of a call in a trace, and the span that it belongs to.
#[derive(Clone, Copy, PartialEq, Eq, Structural, Debug)]
pub struct RpcTrace {
    pub ids: TraceIds,
    pub parent: Option<u64>,
}

/// Traces a call: in the client's trace, below its span, where it sent one,
/// else in a trace of its own. `fresh` is new either way.
pub fn adopt_trace(client: Option<TraceIds>, fresh: TraceIds) -> (trace: RpcTrace)
    ensures
        trace == (match client {
            Some(c) => RpcTrace {
                ids: TraceIds { trace: c.trace, span: fresh.span },
                parent: Some(c.span),
            },
            None => RpcTrace { ids: fresh, parent: None },
        }),
{
    match client {
        Some(c) => RpcTrace {
            ids: TraceIds { trace: c.trace, span: fresh.span },
            parent: Some(c.span),
        },
        None => RpcTrace { ids: fresh, parent: None },
    }
}

/// What arrives on the channel of a call.
#[derive(Debug)]
pub enum RequestMsg {
    Data(Vec<u8>),
    /// The client has sent all, or closed the channel, or is gone.
    Ended,
    /// Anything else.
    Other,
}

/// A request that is being collected.
#[derive(Debug)]
pub struct RequestReader {
    buf: Vec<u8>,
    complete: bool,
}

impl RequestReader {
    /// The bytes so far.
    pub closed spec fn bytes(&self) -> Seq<u8> {
        self.buf@
    }

    /// Whether the request is complete.
    pub closed spec fn is_complete(&self) -> bool {
        self.complete
    }

    /// A request of which nothing has arrived.
    pub fn new() -> (r: Self)
        ensures
            r.bytes() == Seq::<u8>::empty(),
            !r.is_complete(),
    {
        RequestReader { buf: Vec::new(), complete: false }
    }

    /// Takes what arrived, and says whether the request is complete.
    pub fn take(&mut self, msg: RequestMsg) -> (complete: bool)
        requires
            !old(self).is_complete(),
        ensures
            final(self).bytes() == (match msg {
                RequestMsg::Data(data) => old(self).bytes() + data@,
                _ => old(self).bytes(),
            }),
            final(self).is_complete() == (msg is Ended),
            complete == final(self).is_complete(),
    {
        match msg {
            RequestMsg::Data(data) => {
                self.buf.extend_from_slice(data.as_slice());
                assert(self.buf@ =~= old(self).buf@ + data@);
                false
            },
            RequestMsg::Ended => {
                self.complete = true;
                true
            },
            RequestMsg::Other => false,
        }
    }

    /// The request.
    pub fn into_bytes(self) -> (bytes: Vec<u8>)
        ensures
            bytes@ == self.bytes(),
    {
        self.buf
    }
}

/// What is sent back on the channel of a call, before it is closed.
#[derive(Debug)]
pub enum Reply {
    /// The response, then the end of the data.
    Response(Vec<u8>),
    /// An error in words, on the stream for errors.
    Error(String),
}

/// Answers a call: with its response, or with what went wrong in reading the
/// request, handling it or writing the response, so that a client never sees a
/// channel that just ends.
pub fn oneshot_reply(result: Result<Vec<u8>, String>) -> (reply: Reply)
    ensures
        match result {
            Ok(bytes) => reply == Reply::Response(bytes),
            Err(e) => reply == Reply::Error(e),
        },
{
    match result {
        Ok(bytes) => Reply::Response(bytes),
        Err(e) => Reply::Error(e),
    }
}

/// The kinds of error that calls tell apart.
#[derive(Clone, Copy, PartialEq, Eq, Structural, Debug)]
pub enum FaultKind {
    AlreadyExists,
    InvalidInput,
    InvalidData,
    NotConnected,
    NotFound,
    WouldBlock,
    Other,
}

/// An error, by its kind and in words.
#[derive(Debug)]
pub struct Fault {
    pub kind: FaultKind,
    pub text: String,
}

/// A response that may be an error which the client can act on.
#[derive(Debug)]
pub enum Errorable<T> {
    Value(T),
    Failure { error: String },
}

/// Whether a response is the failure with these words.
pub open spec fn is_failure<T>(r: Result<Errorable<T>, String>, words: Seq<char>) -> bool {
    r matches Ok(Errorable::Failure { error }) && error@ == words
}

/// Whether a response is this value.
pub open spec fn is_value<T>(r: Result<Errorable<T>, String>, value: T) -> bool {
    r matches Ok(Errorable::Value(v)) && v == value
}

/// Whether a call fails as such, with these words.
pub open spec fn is_internal<T>(r: Result<Errorable<T>, String>, words: Seq<char>) -> bool {
    r matches Err(e) && e@ == words
}

/// The words for a session that does not exist.
pub open spec fn unknown_session(id: Seq<char>) -> Seq<char> {
    "no session with ID `"@ + id + "`"@
}

fn say_unknown(id: &str) -> (words: String)
    ensures
        words@ == unknown_session(id@),
{
    text::cat3("no session with ID `", id, "`")
}

/// Answers the creation of a session. A name in use and a policy that does not
/// fit are for the client to mend; anything else is the daemon's failure.
pub fn create_session_reply<T>(created: Result<T, Fault>) -> (reply: Result<Errorable<T>, String>)
    ensures
        match created {
            Ok(id) => is_value(reply, id),
            Err(f) => match f.kind {
                FaultKind::AlreadyExists => is_failure(
                    reply,
                    "A session with that name already exists"@,
                ),
                FaultKind::InvalidInput => is_failure(reply, f.text@),
                _ => is_internal(reply, f.text@),
            },
        },
{
    match created {
        Ok(id) => Ok(Errorable::Value(id)),
        Err(f) => match f.kind {
            FaultKind::AlreadyExists => Ok(
                Errorable::Failure { error: "A session with that name already exists".to_owned() },
            ),
            FaultKind::InvalidInput => Ok(Errorable::Failure { error: f.text }),
            _ => Err(f.text),
        },
    }
}

/// Answers a call on one session whose lookup failing is the daemon's failure:
/// what the session said, or that there is none.
pub fn session_reply<T>(id: &str, found: Result<Option<Result<T, Fault>>, Fault>) -> (reply: Result<
    Errorable<T>,
    String,
>)
    ensures
        match found {
            Ok(Some(Ok(v))) => is_value(reply, v),
            Ok(Some(Err(f))) => is_failure(reply, f.text@),
            Ok(None) => is_failure(reply, unknown_session(id@)),
            Err(f) => is_internal(reply, f.text@),
        },
{
    match found {
        Ok(Some(Ok(v))) => Ok(Errorable::Value(v)),
        Ok(Some(Err(f))) => Ok(Errorable::Failure { error: f.text }),
        Ok(None) => Ok(Errorable::Failure { error: say_unknown(id) }),
        Err(f) => Err(f.text),
    }
}

/// Answers a call on one session that reports every failure to the client, that
/// of the lookup too.
pub fn session_reply_or_failure<T>(id: &str, found: Result<Option<Result<T, Fault>>, Fault>) -> (reply:
    Result<Errorable<T>, String>)
    ensures
        match found {
            Ok(Some(Ok(v))) => is_value(reply, v),
            Ok(Some(Err(f))) => is_failure(reply, f.text@),
            Ok(None) => is_failure(reply, unknown_session(id@)),
            Err(f) => is_failure(reply, f.text@),
        },
{
    match found {
        Ok(Some(Ok(v))) => Ok(Errorable::Value(v)),
        Ok(Some(Err(f))) => Ok(Errorable::Failure { error: f.text }),
        Ok(None) => Ok(Errorable::Failure { error: say_unknown(id) }),
        Err(f) => Ok(Errorable::Failure { error: f.text }),
    }
}

/// Answers the destruction of a session, or the issue of a certificate: with
/// what it gave, or with the failure for the client.
pub fn outcome_reply<T>(outcome: Result<T, String>) -> (reply: Result<Errorable<T>, String>)
    ensures
        match outcome {
            Ok(v) => is_value(reply, v),
            Err(e) => is_failure(reply, e@),
        },
{
    match outcome {
        Ok(v) => Ok(Errorable::Value(v)),
        Err(e) => Ok(Errorable::Failure { error: e }),
    }
}

/// Answers the issue of a certificate where the daemon has no authority to
/// issue any.
pub fn certificates_unavailable<T>() -> (reply: Result<Errorable<T>, String>)
    ensures
        is_failure(
            reply,
            "minimald was built without the networking-proxy feature; client certificate issuance is unavailable"@,
        ),
{
    Ok(
        Errorable::Failure {
            error: "minimald was built without the networking-proxy feature; client certificate issuance is unavailable".to_owned(),
        },
    )
}

/// Answers a call for something that may not be there.
pub fn found_reply<T>(found: Result<Option<T>, String>, missing: &str) -> (reply: Result<
    Errorable<T>,
    String,
>)
    ensures
        match found {
            Ok(Some(v)) => is_value(reply, v),
            Ok(None) => is_failure(reply, missing@),
            Err(e) => is_internal(reply, e@),
        },
{
    match found {
        Ok(Some(v)) => Ok(Errorable::Value(v)),
        Ok(None) => Ok(Errorable::Failure { error: missing.to_owned() }),
        Err(e) => Err(e),
    }
}

/// Answers a call for a session's policy.
pub fn policy_reply<T>(record: Result<Option<T>, String>) -> (reply: Result<Errorable<T>, String>)
    ensures
        match record {
            Ok(Some(policy)) => is_value(reply, policy),
            Ok(None) => is_failure(reply, "no session found"@),
            Err(e) => is_internal(reply, e@),
        },
{
    found_reply(record, "no session found")
}

/// Answers a call for a session's screen.
pub fn screen_reply<T>(snapshot: Result<Option<T>, String>) -> (reply: Result<Errorable<T>, String>)
    ensures
        match snapshot {
            Ok(Some(s)) => is_value(reply, s),
            Ok(None) => is_failure(reply, "session is not active"@),
            Err(e) => is_internal(reply, e@),
        },
{
    found_reply(snapshot, "session is not active")
}

/// Answers a call for a session's hooks. A session without a recorded
/// composition has none; a session that does not exist is an error.
pub fn hooks_reply<T>(known: Result<bool, String>, hooks: Result<Option<Vec<T>>, String>) -> (reply:
    Result<Errorable<Vec<T>>, String>)
    ensures
        match known {
            Err(e) => is_internal(reply, e@),
            Ok(false) => is_failure(reply, "no session found"@),
            Ok(true) => match hooks {
                Err(e) => is_internal(reply, e@),
                Ok(Some(h)) => is_value(reply, h),
                Ok(None) => reply matches Ok(Errorable::Value(h)) && h@ == Seq::<T>::empty(),
            },
        },
{
    match known {
        Err(e) => Err(e),
        Ok(false) => Ok(Errorable::Failure { error: "no session found".to_owned() }),
        Ok(true) => match hooks {
            Err(e) => Err(e),
            Ok(Some(h)) => Ok(Errorable::Value(h)),
            Ok(None) => Ok(Errorable::Value(Vec::new())),
        },
    }
}

/// What came of composing a loadout: nothing left to ask, or a question.
#[derive(Debug)]
pub enum LoadoutReply<T> {
    Materialized,
    Pending { response: T },
}

/// Answers the configuration of a session's loadout. A session that is gone,
/// before or while the contribution reaches it, is unknown.
pub fn configure_reply<T>(id: &str, found: Result<Option<Result<Option<T>, Fault>>, Fault>) -> (reply:
    Result<Errorable<LoadoutReply<T>>, String>)
    ensures
        match found {
            Ok(Some(Ok(None))) => is_value(reply, LoadoutReply::Materialized),
            Ok(Some(Ok(Some(response)))) => is_value(reply, LoadoutReply::Pending { response }),
            Ok(Some(Err(f))) => if f.kind == FaultKind::NotConnected {
                is_failure(reply, unknown_session(id@))
            } else {
                is_failure(reply, f.text@)
            },
            Ok(None) => is_failure(reply, unknown_session(id@)),
            Err(f) => is_internal(reply, f.text@),
        },
{
    let mapped: Result<Option<Result<LoadoutReply<T>, Fault>>, Fault> = match found {
        Ok(Some(Ok(None))) => Ok(Some(Ok(LoadoutReply::Materialized))),
        Ok(Some(Ok(Some(response)))) => Ok(Some(Ok(LoadoutReply::Pending { response }))),
        Ok(Some(Err(f))) => if f.kind == FaultKind::NotConnected {
            Ok(None)
        } else {
            Ok(Some(Err(f)))
        },
        Ok(None) => Ok(None),
        Err(f) => Err(f),
    };
    session_reply(id, mapped)
}

/// The step that a session took upon a verdict, or that there is no such
/// session.
#[derive(Debug)]
pub enum VerdictReply<T> {
    Step(T),
    UnknownSession,
}

/// Answers a verdict. A session that is gone, before or while the verdict
/// reaches it, is unknown.
pub fn verdict_reply<T>(found: Result<Option<Result<T, Fault>>, Fault>) -> (reply: Result<
    VerdictReply<T>,
    String,
>)
    ensures
        match found {
            Ok(Some(Ok(step))) => reply matches Ok(VerdictReply::Step(s)) && s == step,
            Ok(None) => reply matches Ok(VerdictReply::UnknownSession),
            Ok(Some(Err(f))) => if f.kind == FaultKind::NotConnected {
                reply matches Ok(VerdictReply::UnknownSession)
            } else {
                reply matches Err(e) && e@ == f.text@
            },
            Err(f) => reply matches Err(e) && e@ == f.text@,
        },
{
    match found {
        Ok(Some(Ok(step))) => Ok(VerdictReply::Step(step)),
        Ok(None) => Ok(VerdictReply::UnknownSession),
        Ok(Some(Err(f))) => {
            if f.kind == FaultKind::NotConnected {
                Ok(VerdictReply::UnknownSession)
            } else {
                Err(f.text)
            }
        },
        Err(f) => Err(f.text),
    }
}

/// Answers a call for what deleting a session would lose: what the session
/// says, and that the report is unavailable where there is none or it cannot be
/// found. The one who asks is never given an error.
pub fn delta_reply<T>(found: Result<Option<AtRisk<T>>, Fault>) -> (report: AtRisk<T>)
    ensures
        report == (match found {
            Ok(Some(r)) => r,
            _ => AtRisk::Unavailable,
        }),
{
    match found {
        Ok(Some(r)) => r,
        _ => AtRisk::Unavailable,
    }
}

/// Something that the daemon does on its way down.
#[derive(Clone, Copy, PartialEq, Eq, Structural, Debug)]
pub enum ShutdownStep {
    /// Close the log file.
    ReleaseLog,
    /// Write the state volume out and let it go.
    QuiesceVolume,
    /// Stop accepting connections.
    StopAccepting,
}

/// How long letting the state volume go may take, in seconds.
pub const QUIESCE_TIMEOUT_SECS: u64 = 10;

/// What a request to shut down is answered.
#[derive(Clone, Copy, PartialEq, Eq, Structural, Debug)]
pub enum ShutdownReply {
    ShuttingDown,
    /// Sessions are running, and the request did not insist.
    SessionsLive,
}

/// What the daemon does for a request to shut down: nothing while its sessions
/// were not drained; else it closes the log, which would keep the volume busy,
/// lets the volume go if it was mounted, and stops.
pub open spec fn shutdown_steps(drained: bool, volume_mounted: bool) -> Seq<ShutdownStep> {
    if !drained {
        Seq::empty()
    } else if volume_mounted {
        seq![ShutdownStep::ReleaseLog, ShutdownStep::QuiesceVolume, ShutdownStep::StopAccepting]
    } else {
        seq![ShutdownStep::ReleaseLog, ShutdownStep::StopAccepting]
    }
}

/// Decides what a request to shut down comes to.
pub fn shutdown_plan(drained: bool, volume_mounted: bool) -> (plan: (Vec<ShutdownStep>, ShutdownReply))
    ensures
        plan.0@ == shutdown_steps(drained, volume_mounted),
        plan.1 == (if drained {
            ShutdownReply::ShuttingDown
        } else {
            ShutdownReply::SessionsLive
        }),
{
    let mut steps: Vec<ShutdownStep> = Vec::new();
    if !drained {
        assert(steps@ =~= shutdown_steps(drained, volume_mounted));
        return (steps, ShutdownReply::SessionsLive);
    }
    steps.push(ShutdownStep::ReleaseLog);
    if volume_mounted {
        steps.push(ShutdownStep::QuiesceVolume);
    }
    steps.push(ShutdownStep::StopAccepting);
    assert(steps@ =~= shutdown_steps(drained, volume_mounted));
    (steps, ShutdownReply::ShuttingDown)
}

/// A shutdown that is refused changes nothing, and one that is granted stops
/// last of all, with the volume let go before.
pub proof fn law_a_refused_shutdown_changes_nothing(drained: bool, volume_mounted: bool)
    ensures
        !drained ==> shutdown_steps(drained, volume_mounted).len() == 0,
        drained ==> shutdown_steps(drained, volume_mounted).last() == ShutdownStep::StopAccepting,
        shutdown_steps(drained, volume_mounted).contains(ShutdownStep::QuiesceVolume) <==> drained
            && volume_mounted,
{
    let steps = shutdown_steps(drained, volume_mounted);
    if drained && volume_mounted {
        assert(steps[1] == ShutdownStep::QuiesceVolume);
    }
}

/// The machine that the daemon runs on.
#[derive(Clone, Copy, PartialEq, Eq, Structural, Debug)]
pub struct ResourcePool {
    pub cpu_cores: u32,
    pub memory_bytes: u64,
}

/// What is known of the machine: nothing, unless both its cores and its memory
/// could be determined.
pub fn detect_resource_pool(cores: Option<usize>, memory_bytes: u64) -> (pool: Option<ResourcePool>)
    ensures
        pool == (match cores {
            Some(n) => if n <= u32::MAX && memory_bytes > 0 {
                Some(ResourcePool { cpu_cores: n as u32, memory_bytes })
            } else {
                None
            },
            None => None,
        }),
{
    match cores {
        Some(n) => {
            if n <= 0xffff_ffff && memory_bytes > 0 {
                Some(ResourcePool { cpu_cores: n as u32, memory_bytes })
            } else {
                None
            }
        },
        None => None,
    }
}

/// A title, and when it was set.
#[derive(Debug)]
pub struct Title {
    pub value: String,
    pub updated_at: u128,
}

/// How often a bell rang, and when it last did.
#[derive(Clone, Copy, PartialEq, Eq, Structural, Debug)]
pub struct Bell {
    pub count: usize,
    pub last: u128,
}

/// What a list of sessions says of one that runs.
#[derive(Debug)]
pub struct RunningAttrs {
    pub last_stdout: Option<u128>,
    pub last_stdin: Option<u128>,
    pub title: Option<Title>,
    pub visual_bell: Option<Bell>,
    pub audible_bell: Option<Bell>,
}

/// A bell, if it ever rang.
pub open spec fn rung(bell: (usize, Option<u128>)) -> Option<Bell> {
    match bell.1 {
        Some(last) => Some(Bell { count: bell.0, last }),
        None => None,
    }
}

fn bell_of(bell: (usize, Option<u128>)) -> (b: Option<Bell>)
    ensures
        b == rung(bell),
{
    match bell.1 {
        Some(last) => Some(Bell { count: bell.0, last }),
        None => None,
    }
}

/// Whether a list of sessions says this of a terminal.
pub open spec fn tells(out: RunningAttrs, attrs: HostAttrs) -> bool {
    &&& out.last_stdout == attrs@.stdout_last
    &&& out.last_stdin == attrs@.stdin_last
    &&& match out.title {
        Some(t) => attrs@.title == Some((t.value@, t.updated_at)),
        None => attrs@.title is None,
    }
    &&& out.visual_bell == rung(attrs@.visual_bell)
    &&& out.audible_bell == rung(attrs@.audible_bell)
}

/// What a list of sessions says of the terminal of one that runs.
pub fn running_attrs(attrs: HostAttrs) -> (out: RunningAttrs)
    ensures
        tells(out, attrs),
{
    RunningAttrs {
        last_stdout: attrs.stdout_last,
        last_stdin: attrs.stdin_last,
        visual_bell: bell_of(attrs.visual_bell),
        audible_bell: bell_of(attrs.audible_bell),
        title: match attrs.title {
            Some((value, updated_at)) => Some(Title { value, updated_at }),
            None => None,
        },
    }
}

/// A session as the manager lists it.
#[derive(Debug)]
pub struct ListedSession {
    pub id: String,
    pub name: Option<String>,
    pub project_path: String,
    pub status: SessionStatus,
    /// What its terminal says, if it runs.
    pub attrs: Option<HostAttrs>,
}

/// A session as clients are told of it.
#[derive(Debug)]
pub struct SessionEntry {
    pub id: String,
    pub name: Option<String>,
    pub project_path: Option<String>,
    pub status: SessionStatus,
    pub attrs: Option<RunningAttrs>,
}

/// What clients are told of a session: all that the manager lists.
pub fn list_entry(session: ListedSession) -> (entry: SessionEntry)
    ensures
        entry.id == session.id,
        entry.name == session.name,
        entry.project_path == Some(session.project_path),
        entry.status == session.status,
        match (session.attrs, entry.attrs) {
            (Some(a), Some(r)) => tells(r, a),
            (None, None) => true,
            _ => false,
        },
{
    SessionEntry {
        id: session.id,
        name: session.name,
        project_path: Some(session.project_path),
        status: session.status,
        attrs: match session.attrs {
            Some(a) => Some(running_attrs(a)),
            None => None,
        },
    }
}

/// What stands for the name of a session that has none.
pub const ANONYMOUS_SESSION: &'static str = "<anonymous>";

/// The name that a session is logged by.
pub fn logged_name<'a>(name: Option<&'a str>) -> (shown: &'a str)
    ensures
        shown@ == (match name {
            Some(n) => n@,
            None => ANONYMOUS_SESSION@,
        }),
{
    match name {
        Some(n) => n,
        None => ANONYMOUS_SESSION,
    }
}

/// An update of a clean of the cache.
#[derive(Debug)]
pub enum CleanCacheUpdate {
    /// Something was removed.
    Removed { detail: String },
    /// The clean is done, with so many entries and directories removed.
    Done { entries: u64, dirs: u64 },
    /// The clean failed.
    Failed { error: String },
}

impl CleanCacheUpdate {
    /// Whether nothing follows the update.
    pub open spec fn is_last(self) -> bool {
        !(self is Removed)
    }
}

/// What a clean removed.
#[derive(Clone, Copy, PartialEq, Eq, Structural, Debug)]
pub struct CleanReport {
    pub entries: u64,
    pub dirs: u64,
}

/// The age, in seconds, that a request asks to clean from; zero asks for the
/// usual one.
pub fn requested_age(older_than_secs: u64) -> (age: Option<u64>)
    ensures
        age == (if older_than_secs == 0 {
            None
        } else {
            Some(older_than_secs)
        }),
{
    if older_than_secs == 0 {
        None
    } else {
        Some(older_than_secs)
    }
}

/// Refuses a clean where nothing could do it.
pub fn clean_refused(housekeeping: bool) -> (why: Option<String>)
    ensures
        text::optional(why) == (if housekeeping {
            None
        } else {
            Some("daemon housekeeping is not running"@)
        }),
{
    if housekeeping {
        None
    } else {
        Some("daemon housekeeping is not running".to_owned())
    }
}

/// What happens while a clean is reported to a client.
#[derive(Debug)]
pub enum CleanEvent {
    /// Something was removed, in the daemon's words.
    Removed(String),
    /// The clean ended; what it had removed may still be waiting to be told.
    Ended(Result<CleanReport, String>),
    /// Nothing is waiting to be told any more.
    Drained,
}

/// The report of a clean, under way.
#[derive(Debug)]
pub enum CleanStream {
    Running,
    Draining(Result<CleanReport, String>),
    Over,
}

/// Whether an event can happen to the report of a clean.
pub open spec fn clean_expects(s: CleanStream, event: CleanEvent) -> bool {
    match event {
        CleanEvent::Removed(_) => !(s is Over),
        CleanEvent::Ended(_) => s is Running,
        CleanEvent::Drained => s is Draining,
    }
}

/// The last update, for how a clean ended.
pub open spec fn last_update(result: Result<CleanReport, String>) -> CleanCacheUpdate {
    match result {
        Ok(r) => CleanCacheUpdate::Done { entries: r.entries, dirs: r.dirs },
        Err(error) => CleanCacheUpdate::Failed { error },
    }
}

/// What an event comes to: the report afterwards, and what the client is sent.
pub open spec fn clean_step(s: CleanStream, event: CleanEvent) -> (CleanStream, Option<CleanCacheUpdate>) {
    match event {
        CleanEvent::Removed(detail) => (s, Some(CleanCacheUpdate::Removed { detail })),
        CleanEvent::Ended(result) => (CleanStream::Draining(result), None),
        CleanEvent::Drained => (
            CleanStream::Over,
            match s {
                CleanStream::Draining(result) => Some(last_update(result)),
                _ => None,
            },
        ),
    }
}

impl CleanStream {
    /// Takes what happened, and says what the client is sent.
    pub fn step(self, event: CleanEvent) -> (out: (CleanStream, Option<CleanCacheUpdate>))
        requires
            clean_expects(self, event),
        ensures
            out == clean_step(self, event),
    {
        match event {
            CleanEvent::Removed(detail) => (self, Some(CleanCacheUpdate::Removed { detail })),
            CleanEvent::Ended(result) => (CleanStream::Draining(result), None),
            CleanEvent::Drained => match self {
                CleanStream::Draining(Ok(r)) => (
                    CleanStream::Over,
                    Some(CleanCacheUpdate::Done { entries: r.entries, dirs: r.dirs }),
                ),
                CleanStream::Draining(Err(error)) => (
                    CleanStream::Over,
                    Some(CleanCacheUpdate::Failed { error }),
                ),
                _ => (CleanStream::Over, None),
            },
        }
    }
}

/// A clean that ran is reported to its end: the last update comes once, after
/// everything that was removed was told, and nothing can follow it.
pub proof fn law_a_clean_ends_with_one_last_update(s: CleanStream, event: CleanEvent)
    requires
        clean_expects(s, event),
    ensures
        clean_step(s, event).0 is Over <==> event is Drained,
        clean_step(s, event).0 is Over <==> clean_step(s, event).1 is Some && clean_step(
            s,
            event,
        ).1->0.is_last(),
{
}

/// One update as it goes over the channel: on a line of its own.
pub fn update_line(json: Vec<u8>) -> (line: Vec<u8>)
    ensures
        line@ == json@.push(10u8),
{
    let mut line = json;
    line.push(10);
    line
}

/// Counts what a read delivered: `before` and `after` are how full the buffer
/// was. A read that delivered nothing leaves the count as it is.
pub fn tally(count: u64, before: usize, after: usize) -> (total: u64)
    ensures
        before <= after && count + (after - before) <= u64::MAX ==> total == count + (after
            - before),
        before > after ==> total == count,
        total == count.wrapping_add(after.saturating_sub(before) as u64),
{
    let read: usize = after.saturating_sub(before);
    count.wrapping_add(read as u64)
}

/// What the lookup of an upload's session waits for.
#[derive(Debug)]
pub enum LookupStage {
    /// The text to be read as the session's id.
    ParseId { text: String },
    /// The session to be found.
    FindSession,
    /// The session to tell its paths.
    AskPaths,
    /// Nothing: the session is found.
    Found,
}

/// What the driver of a lookup has done.
#[derive(Debug)]
pub enum LookupEvent {
    Parsed { error: Option<String> },
    /// Looked the session up, and found one or not.
    Looked(Result<bool, String>),
    PathsTold { error: Option<String> },
}

/// Begins to look up the session that an upload is for, by what its channel's
/// environment names.
pub fn lookup_start(id_var: Option<&str>) -> (stage: Result<LookupStage, String>)
    ensures
        match id_var {
            Some(t) => stage matches Ok(LookupStage::ParseId { text }) && text@ == t@,
            None => stage matches Err(e) && e@ == "missing env-var MINIMAL_SESSION_ID"@,
        },
{
    match id_var {
        Some(t) => Ok(LookupStage::ParseId { text: t.to_owned() }),
        None => Err("missing env-var MINIMAL_SESSION_ID".to_owned()),
    }
}

/// Whether an event is the answer to what a lookup asked for.
pub open spec fn lookup_expects(stage: LookupStage, event: LookupEvent) -> bool {
    match event {
        LookupEvent::Parsed { .. } => stage is ParseId,
        LookupEvent::Looked(_) => stage is FindSession,
        LookupEvent::PathsTold { .. } => stage is AskPaths,
    }
}

/// Takes what the driver has done, and says what is next or what went wrong.
pub fn lookup_step(stage: LookupStage, event: LookupEvent) -> (next: Result<LookupStage, String>)
    requires
        lookup_expects(stage, event),
    ensures
        match event {
            LookupEvent::Parsed { error: None } => next matches Ok(LookupStage::FindSession),
            LookupEvent::Parsed { error: Some(e) } => next matches Err(w) && w@
                == "parsing session UUID: "@ + e@,
            LookupEvent::Looked(Ok(true)) => next matches Ok(LookupStage::AskPaths),
            LookupEvent::Looked(Ok(false)) => next matches Err(w) && w@ == "unknown session UUID"@,
            LookupEvent::Looked(Err(e)) => next matches Err(w) && w@
                == "session UUID lookup failed: "@ + e@,
            LookupEvent::PathsTold { error: None } => next matches Ok(LookupStage::Found),
            LookupEvent::PathsTold { error: Some(e) } => next matches Err(w) && w@
                == "session is gone: "@ + e@,
        },
{
    match event {
        LookupEvent::Parsed { error } => match error {
            None => Ok(LookupStage::FindSession),
            Some(e) => Err(text::cat2("parsing session UUID: ", e.as_str())),
        },
        LookupEvent::Looked(found) => match found {
            Ok(true) => Ok(LookupStage::AskPaths),
            Ok(false) => Err("unknown session UUID".to_owned()),
            Err(e) => Err(text::cat2("session UUID lookup failed: ", e.as_str())),
        },
        LookupEvent::PathsTold { error } => match error {
            None => Ok(LookupStage::Found),
            Some(e) => Err(text::cat2("session is gone: ", e.as_str())),
        },
    }
}

/// The failure of an upload of a workspace, in words.
pub fn unpack_failed(error: &str) -> (words: String)
    ensures
        words@ == "unpack failed: "@ + error@,
{
    text::cat2("unpack failed: ", error)
}

proof fn lemma_found_up_to(table: RpcTable, name: Seq<char>, n: int)
    requires
        0 <= n <= table.entries@.len(),
    ensures
        table.find_up_to(name, n) is None ==> forall|i: int|
            0 <= i < n ==> (#[trigger] table.entries@[i]).0@ != name,
        table.find_up_to(name, n) is Some ==> exists|i: int|
            0 <= i < n && (#[trigger] table.entries@[i]).0@ == name && table.find_up_to(name, n)
                == Some(table.entries@[i].1) && forall|j: int|
                0 <= j < i ==> (#[trigger] table.entries@[j]).0@ != name,
    decreases n,
{
    if n > 0 {
        lemma_found_up_to(table, name, n - 1);
        if table.find_up_to(name, n - 1) is None && table.find_up_to(name, n) is Some {
            assert(table.entries@[n - 1].0@ == name);
        }
    }
}

/// A call is found by its very name: the first entry that has it says which call
/// it is, and a name that no entry has finds none.
pub proof fn law_a_call_is_found_by_its_name(table: RpcTable, i: int, name: Seq<char>)
    requires
        0 <= i < table.entries@.len(),
        forall|j: int| 0 <= j < i ==> (#[trigger] table.entries@[j]).0@ != table.entries@[i].0@,
    ensures
        table.find(table.entries@[i].0@) == Some(table.entries@[i].1),
        (forall|j: int| 0 <= j < table.entries@.len() ==> (#[trigger] table.entries@[j]).0@ != name)
            ==> table.find(name) is None,
{
    let n = table.entries@.len() as int;
    let own = table.entries@[i].0@;
    lemma_found_up_to(table, own, n);
    lemma_found_up_to(table, name, n);
    if table.find_up_to(own, n) is Some {
        let k = choose|k: int|
            0 <= k < n && (#[trigger] table.entries@[k]).0@ == own && table.find_up_to(own, n)
                == Some(table.entries@[k].1) && forall|j: int|
                0 <= j < k ==> (#[trigger] table.entries@[j]).0@ != own;
        if k < i {
            assert(table.entries@[k].0@ != own);
        }
        if i < k {
            assert(table.entries@[i].0@ != own);
        }
    } else {
        assert(table.entries@[i].0@ != own);
    }
}

/// A channel is served the call that it names if the call is known and the
/// channel is its own to give, and refused otherwise.
pub proof fn law_a_known_call_is_served_on_a_free_channel(
    table: &RpcTable,
    name: &str,
    free: bool,
    dispatch: Dispatch,
)
    requires
        call_ensures(handle_ssh_rpc, (table, name, free), dispatch),
    ensures
        dispatch is Serve <==> free && table.find(name@) is Some,
        dispatch is Serve ==> Some(dispatch->Serve_0) == table.find(name@),
{
}

/// The three uploads have names of their own behind what all calls share, and
/// no other call is one.
pub proof fn law_only_uploads_have_stream_names(prefix: &str, rpc: Rpc, name: Option<String>)
    requires
        call_ensures(stream_name, (prefix, rpc), name),
    ensures
        name is Some <==> rpc is StreamWorkspaceFiles || rpc is StreamWorkspacePatches
            || rpc is StreamWorkspaceHookScripts,
        rpc is StreamWorkspaceFiles ==> name->0@ == prefix@ + "WorkspaceFilesTarZst"@,
        rpc is StreamWorkspacePatches ==> name->0@ == prefix@ + "WorkspacePatchesTarZst"@,
        rpc is StreamWorkspaceHookScripts ==> name->0@ == prefix@ + "WorkspaceHookScriptsTarZst"@,
{
}

/// A call is traced below the span of the client that sent one, and has a span
/// of its own either way.
pub proof fn law_a_call_joins_the_clients_trace(
    client: Option<TraceIds>,
    fresh: TraceIds,
    trace: RpcTrace,
)
    requires
        call_ensures(adopt_trace, (client, fresh), trace),
    ensures
        trace.ids.span == fresh.span,
        client is Some ==> trace.ids.trace == client->0.trace && trace.parent == Some(
            client->0.span,
        ),
        client is None ==> trace.ids.trace == fresh.trace && trace.parent is None,
{
}

/// A client gets the response or the error, whichever there is, as it is.
pub proof fn law_a_call_is_always_answered(result: Result<Vec<u8>, String>, reply: Reply)
    requires
        call_ensures(oneshot_reply, (result,), reply),
    ensures
        result is Ok ==> reply is Response && reply->Response_0 == result->Ok_0,
        result is Err ==> reply is Error && reply->Error_0 == result->Err_0,
{
}

/// The creation of a session succeeds with its id. What the client can mend is
/// told to it: a name in use, in words of its own, and an invalid request in
/// those of the fault. Anything else fails the call.
pub proof fn law_a_creation_tells_what_can_be_mended<T>(
    created: Result<T, Fault>,
    reply: Result<Errorable<T>, String>,
)
    requires
        call_ensures(create_session_reply::<T>, (created,), reply),
    ensures
        created is Ok <==> reply is Ok && reply->Ok_0 is Value,
        created is Ok ==> reply->Ok_0->Value_0 == created->Ok_0,
        created is Err && created->Err_0.kind is AlreadyExists ==> reply is Ok
            && reply->Ok_0->Failure_error@ == "A session with that name already exists"@,
        created is Err && created->Err_0.kind is InvalidInput ==> reply is Ok
            && reply->Ok_0->Failure_error@ == created->Err_0.text@,
        reply is Err <==> created is Err && !(created->Err_0.kind is AlreadyExists) && !(
        created->Err_0.kind is InvalidInput),
        reply is Err ==> reply->Err_0@ == created->Err_0.text@,
{
}

/// A call on a session is answered with what the session said, and a session
/// that is not there is named in the failure. Only a lookup that failed is told
/// apart: it fails the one kind of call, and is a failure for the client in the
/// other.
pub proof fn law_a_session_answers_for_itself<T>(
    id: &str,
    found: Result<Option<Result<T, Fault>>, Fault>,
    reply: Result<Errorable<T>, String>,
    lenient: Result<Errorable<T>, String>,
)
    requires
        call_ensures(session_reply::<T>, (id, found), reply),
        call_ensures(session_reply_or_failure::<T>, (id, found), lenient),
    ensures
        found is Err ==> reply is Err && reply->Err_0@ == found->Err_0.text@ && lenient is Ok
            && lenient->Ok_0 is Failure && lenient->Ok_0->Failure_error@ == found->Err_0.text@,
        found is Ok ==> reply is Ok && lenient is Ok,
        found is Ok && found->Ok_0 is None ==> reply->Ok_0 is Failure && lenient->Ok_0 is Failure
            && reply->Ok_0->Failure_error@ == "no session with ID `"@ + id@ + "`"@
            && lenient->Ok_0->Failure_error@ == "no session with ID `"@ + id@ + "`"@,
        found is Ok && found->Ok_0 is Some && found->Ok_0->0 is Err ==> reply->Ok_0 is Failure
            && lenient->Ok_0 is Failure && reply->Ok_0->Failure_error@
            == found->Ok_0->0->Err_0.text@ && lenient->Ok_0->Failure_error@
            == found->Ok_0->0->Err_0.text@,
        found is Ok && found->Ok_0 is Some && found->Ok_0->0 is Ok ==> reply->Ok_0 is Value
            && lenient->Ok_0 is Value && reply->Ok_0->Value_0 == found->Ok_0->0->Ok_0
            && lenient->Ok_0->Value_0 == found->Ok_0->0->Ok_0,
{
}

/// What was asked for is answered if it is there; that it is not is told to the
/// client, and a failure to look fails the call.
pub proof fn law_what_is_missing_is_told<T>(
    outcome: Result<T, String>,
    found: Result<Option<T>, String>,
    given: Result<Errorable<T>, String>,
    policy: Result<Errorable<T>, String>,
    screen: Result<Errorable<T>, String>,
    refused: Result<Errorable<T>, String>,
)
    requires
        call_ensures(outcome_reply::<T>, (outcome,), given),
        call_ensures(policy_reply::<T>, (found,), policy),
        call_ensures(screen_reply::<T>, (found,), screen),
        call_ensures(certificates_unavailable::<T>, (), refused),
    ensures
        given is Ok,
        outcome is Ok ==> given->Ok_0 is Value && given->Ok_0->Value_0 == outcome->Ok_0,
        outcome is Err ==> given->Ok_0 is Failure && given->Ok_0->Failure_error@
            == outcome->Err_0@,
        found is Err ==> policy is Err && screen is Err && policy->Err_0@ == found->Err_0@
            && screen->Err_0@ == found->Err_0@,
        found is Ok ==> policy is Ok && screen is Ok,
        found is Ok && found->Ok_0 is Some ==> policy->Ok_0 is Value && screen->Ok_0 is Value
            && policy->Ok_0->Value_0 == found->Ok_0->0 && screen->Ok_0->Value_0
            == found->Ok_0->0,
        found is Ok && found->Ok_0 is None ==> policy->Ok_0 is Failure && screen->Ok_0 is Failure
            && policy->Ok_0->Failure_error@ == "no session found"@ && screen->Ok_0->Failure_error@
            == "session is not active"@,
        refused is Ok && refused->Ok_0 is Failure && refused->Ok_0->Failure_error@
            == "minimald was built without the networking-proxy feature; client certificate issuance is unavailable"@,
{
}

/// A session that is known has the hooks that were recorded for it, and none
/// where nothing was; one that is not known is a failure for the client.
pub proof fn law_a_known_session_has_its_hooks<T>(
    known: Result<bool, String>,
    hooks: Result<Option<Vec<T>>, String>,
    reply: Result<Errorable<Vec<T>>, String>,
)
    requires
        call_ensures(hooks_reply::<T>, (known, hooks), reply),
    ensures
        known is Err ==> reply is Err && reply->Err_0@ == known->Err_0@,
        known is Ok && !known->Ok_0 ==> reply is Ok && reply->Ok_0 is Failure
            && reply->Ok_0->Failure_error@ == "no session found"@,
        known is Ok && known->Ok_0 && hooks is Err ==> reply is Err && reply->Err_0@
            == hooks->Err_0@,
        known is Ok && known->Ok_0 && hooks is Ok ==> reply is Ok && reply->Ok_0 is Value && (
        hooks->Ok_0 is Some ==> reply->Ok_0->Value_0 == hooks->Ok_0->0) && (hooks->Ok_0 is None
            ==> reply->Ok_0->Value_0@.len() == 0),
{
}

/// A loadout without a question is materialized, and a question is passed on. A
/// session that is not there, or is gone by the time, is unknown.
pub proof fn law_a_gone_session_is_unknown<T>(
    id: &str,
    found: Result<Option<Result<Option<T>, Fault>>, Fault>,
    reply: Result<Errorable<LoadoutReply<T>>, String>,
)
    requires
        call_ensures(configure_reply::<T>, (id, found), reply),
    ensures
        found is Err ==> reply is Err && reply->Err_0@ == found->Err_0.text@,
        found is Ok ==> reply is Ok,
        found is Ok && (found->Ok_0 is None || (found->Ok_0->0 is Err
            && found->Ok_0->0->Err_0.kind is NotConnected)) ==> reply->Ok_0 is Failure
            && reply->Ok_0->Failure_error@ == "no session with ID `"@ + id@ + "`"@,
        found is Ok && found->Ok_0 is Some && found->Ok_0->0 is Err && !(
        found->Ok_0->0->Err_0.kind is NotConnected) ==> reply->Ok_0 is Failure
            && reply->Ok_0->Failure_error@ == found->Ok_0->0->Err_0.text@,
        found is Ok && found->Ok_0 is Some && found->Ok_0->0 is Ok ==> {
            let asked = found->Ok_0->0->Ok_0;
            &&& reply->Ok_0 is Value
            &&& asked is None ==> reply->Ok_0->Value_0 is Materialized
            &&& asked is Some ==> reply->Ok_0->Value_0 is Pending
                && reply->Ok_0->Value_0->response == asked->0
        },
{
}

/// A verdict is answered with the step that the session took; that there is no
/// such session, or none any more, is no error.
pub proof fn law_a_verdict_is_answered_with_its_step<T>(
    found: Result<Option<Result<T, Fault>>, Fault>,
    reply: Result<VerdictReply<T>, String>,
)
    requires
        call_ensures(verdict_reply::<T>, (found,), reply),
    ensures
        found is Err ==> reply is Err && reply->Err_0@ == found->Err_0.text@,
        found is Ok && found->Ok_0 is None ==> reply is Ok && reply->Ok_0 is UnknownSession,
        found is Ok && found->Ok_0 is Some && found->Ok_0->0 is Ok ==> reply is Ok
            && reply->Ok_0 is Step && reply->Ok_0->Step_0 == found->Ok_0->0->Ok_0,
        found is Ok && found->Ok_0 is Some && found->Ok_0->0 is Err ==> {
            let f = found->Ok_0->0->Err_0;
            &&& f.kind is NotConnected ==> reply is Ok && reply->Ok_0 is UnknownSession
            &&& !(f.kind is NotConnected) ==> reply is Err && reply->Err_0@ == f.text@
        },
{
}

/// What deleting a session would lose is told as the session tells it, and is
/// unavailable where nobody can tell.
pub proof fn law_a_delta_is_never_an_error<T>(
    found: Result<Option<AtRisk<T>>, Fault>,
    report: AtRisk<T>,
)
    requires
        call_ensures(delta_reply::<T>, (found,), report),
    ensures
        found is Ok && found->Ok_0 is Some ==> report == found->Ok_0->0,
        found is Err || found->Ok_0 is None ==> report is Unavailable,
{
}

/// A daemon whose sessions are drained closes its log, lets a mounted volume go
/// and then stops accepting; one whose sessions run says so and does nothing.
pub proof fn law_a_shutdown_goes_in_order(
    drained: bool,
    mounted: bool,
    plan: (Vec<ShutdownStep>, ShutdownReply),
)
    requires
        call_ensures(shutdown_plan, (drained, mounted), plan),
    ensures
        plan.1 is ShuttingDown <==> drained,
        plan.1 is SessionsLive <==> !drained,
        !drained ==> plan.0@.len() == 0,
        drained && mounted ==> plan.0@ == seq![
            ShutdownStep::ReleaseLog,
            ShutdownStep::QuiesceVolume,
            ShutdownStep::StopAccepting,
        ],
        drained && !mounted ==> plan.0@ == seq![
            ShutdownStep::ReleaseLog,
            ShutdownStep::StopAccepting,
        ],
        QUIESCE_TIMEOUT_SECS == 10,
{
}

/// The machine is told with its cores and its memory as they were found, or not
/// at all.
pub proof fn law_a_machine_is_told_as_found(
    cores: Option<usize>,
    memory: u64,
    pool: Option<ResourcePool>,
)
    requires
        call_ensures(detect_resource_pool, (cores, memory), pool),
    ensures
        pool is Some <==> cores is Some && cores->0 <= 0xffff_ffff && memory > 0,
        pool is Some ==> pool->0.cpu_cores == cores->0 && pool->0.memory_bytes == memory,
{
}

/// A session is listed as it is. One that runs is listed with what its terminal
/// showed last, its title, and the bells that ever rang, each under its own
/// name.
pub proof fn law_a_session_is_listed_as_it_is(session: ListedSession, entry: SessionEntry)
    requires
        call_ensures(list_entry, (session,), entry),
    ensures
        entry.id == session.id,
        entry.name == session.name,
        entry.project_path == Some(session.project_path),
        entry.status == session.status,
        entry.attrs is Some <==> session.attrs is Some,
        session.attrs is Some ==> {
            let told = entry.attrs->0;
            let seen = session.attrs->0@;
            &&& told.last_stdout == seen.stdout_last
            &&& told.last_stdin == seen.stdin_last
            &&& told.title is Some <==> seen.title is Some
            &&& told.title is Some ==> told.title->0.value@ == (seen.title->0).0
                && told.title->0.updated_at == (seen.title->0).1
            &&& told.visual_bell is Some <==> seen.visual_bell.1 is Some
            &&& told.visual_bell is Some ==> told.visual_bell->0.count == seen.visual_bell.0
                && told.visual_bell->0.last == seen.visual_bell.1->0
            &&& told.audible_bell is Some <==> seen.audible_bell.1 is Some
            &&& told.audible_bell is Some ==> told.audible_bell->0.count == seen.audible_bell.0
                && told.audible_bell->0.last == seen.audible_bell.1->0
        },
{
}

/// What a clean removed is told at once, in its words. How it ended is kept back
/// until all of that was told, and is then told as it was.
pub proof fn law_a_clean_is_told_as_it_went(
    s: CleanStream,
    detail: String,
    result: Result<CleanReport, String>,
)
    ensures
        s is Running || s is Draining ==> clean_step(s, CleanEvent::Removed(detail)) == (
            s,
            Some(CleanCacheUpdate::Removed { detail }),
        ),
        clean_step(CleanStream::Running, CleanEvent::Ended(result)) == (
            CleanStream::Draining(result),
            None::<CleanCacheUpdate>,
        ),
        ({
            let told = clean_step(CleanStream::Draining(result), CleanEvent::Drained);
            &&& told.0 is Over
            &&& told.1 is Some
            &&& result is Ok ==> told.1->0 == (CleanCacheUpdate::Done {
                entries: result->Ok_0.entries,
                dirs: result->Ok_0.dirs,
            })
            &&& result is Err ==> told.1->0 == (CleanCacheUpdate::Failed { error: result->Err_0 })
        }),
{
}

/// A clean needs someone to do it, and an age of zero asks for the usual one.
pub proof fn law_a_clean_is_asked_for_by_age(
    secs: u64,
    housekeeping: bool,
    age: Option<u64>,
    why: Option<String>,
)
    requires
        call_ensures(requested_age, (secs,), age),
        call_ensures(clean_refused, (housekeeping,), why),
    ensures
        age is None <==> secs == 0,
        age is Some ==> age->0 == secs,
        why is None <==> housekeeping,
        why is Some ==> why->0@ == "daemon housekeeping is not running"@,
{
}

/// What a read delivered is counted, and a read that delivered nothing is not.
pub proof fn law_every_byte_is_counted(count: u64, before: usize, after: usize, total: u64)
    requires
        before <= after ==> count + (after - before) <= u64::MAX,
        call_ensures(tally, (count, before, after), total),
    ensures
        before <= after ==> total - count == after - before,
        before > after ==> total == count,
{
}

/// The session of an upload is looked up in one order: its id is read, it is
/// found, and it is asked where its files go. Whatever fails ends the lookup,
/// and says so.
pub proof fn law_an_uploads_session_is_looked_up_in_order(
    stage: LookupStage,
    event: LookupEvent,
    next: Result<LookupStage, String>,
    id: Option<&str>,
    first: Result<LookupStage, String>,
)
    requires
        lookup_expects(stage, event),
        call_ensures(lookup_step, (stage, event), next),
        call_ensures(lookup_start, (id,), first),
    ensures
        first is Ok <==> id is Some,
        first is Ok ==> first->Ok_0 is ParseId && first->Ok_0->text@ == id->0@,
        first is Err ==> first->Err_0@ == "missing env-var MINIMAL_SESSION_ID"@,
        stage is ParseId && next is Ok ==> next->Ok_0 is FindSession,
        stage is FindSession && next is Ok ==> next->Ok_0 is AskPaths,
        stage is AskPaths && next is Ok ==> next->Ok_0 is Found,
        match event {
            LookupEvent::Parsed { error } => (next is Err <==> error is Some) && (error is Some
                ==> next->Err_0@ == "parsing session UUID: "@ + error->0@),
            LookupEvent::Looked(found) => (next is Ok <==> found is Ok && found->Ok_0) && (
            found is Err ==> next->Err_0@ == "session UUID lookup failed: "@ + found->Err_0@) && (
            found is Ok && !found->Ok_0 ==> next->Err_0@ == "unknown session UUID"@),
            LookupEvent::PathsTold { error } => (next is Err <==> error is Some) && (error is Some
                ==> next->Err_0@ == "session is gone: "@ + error->0@),
        },
{
}

/// A session without a name is logged as anonymous, and any other by its name.
pub proof fn law_a_session_is_logged_by_its_name(name: Option<&str>, shown: &str)
    requires
        call_ensures(logged_name, (name,), shown),
    ensures
        name is Some ==> shown@ == name->0@,
        name is None ==> shown@ == "<anonymous>"@,
{
}

/// A request is everything that arrived before its end, in order, and is complete
/// with that end and not before.
pub proof fn law_a_request_is_all_that_arrived(
    msg: RequestMsg,
    complete: bool,
    fresh: RequestReader,
    r: RequestReader,
    bytes: Vec<u8>,
)
    requires
        call_ensures(RequestReader::new, (), fresh),
        call_ensures(RequestReader::into_bytes, (r,), bytes),
    ensures
        fresh.bytes().len() == 0 && !fresh.is_complete(),
        bytes@ == r.bytes(),
        forall|m: &mut RequestReader| #[trigger]
            call_ensures(RequestReader::take, (m, msg), complete) ==> {
                &&& msg is Data ==> final(m).bytes() == m.bytes() + msg->Data_0@
                &&& !(msg is Data) ==> final(m).bytes() == m.bytes()
                &&& complete <==> msg is Ended
                &&& final(m).is_complete() <==> msg is Ended
            },
{
}

/// Calls are looked up, cleans are reported and lines are ended as is said here.
pub proof fn law_calls_are_served_as_stated(
    table: &RpcTable,
    name: &str,
    rpc: Option<Rpc>,
    s: CleanStream,
    event: CleanEvent,
    out: (CleanStream, Option<CleanCacheUpdate>),
    json: Vec<u8>,
    line: Vec<u8>,
    error: &str,
    words: String,
)
    requires
        call_ensures(RpcTable::lookup, (table, name), rpc),
        call_ensures(CleanStream::step, (s, event), out),
        call_ensures(update_line, (json,), line),
        call_ensures(unpack_failed, (error,), words),
    ensures
        rpc == table.find(name@),
        out == clean_step(s, event),
        line@.len() == json@.len() + 1,
        line@.drop_last() == json@,
        line@.last() == 10,
        words@ == "unpack failed: "@ + error@,
{
    assert(line@.drop_last() =~= json@);
}

/// Something that may not be there is answered if it is, and else with the words
/// that were given for its absence.
pub proof fn law_an_absence_is_told_in_given_words<T>(
    found: Result<Option<T>, String>,
    missing: &str,
    reply: Result<Errorable<T>, String>,
)
    requires
        call_ensures(found_reply::<T>, (found, missing), reply),
    ensures
        found is Err ==> reply is Err && reply->Err_0@ == found->Err_0@,
        found is Ok ==> reply is Ok,
        found is Ok && found->Ok_0 is Some ==> reply->Ok_0 is Value && reply->Ok_0->Value_0
            == found->Ok_0->0,
        found is Ok && found->Ok_0 is None ==> reply->Ok_0 is Failure
            && reply->Ok_0->Failure_error@ == missing@,
{
}

} // verus!
