//! Attaching to a session: what a client contributes to its shell, and which
//! host it ends up with.
use vstd::prelude::*;
use vstd::string::*;

use crate::env::{pair_texts, EnvMap};
use crate::host::WinSize;
use crate::promotion::{
    composition_of, promotion_step, ComposeOutcome, Promotion, PromotionEnd, PromotionEvent,
    PromotionNext,
};
use crate::rpc::{Fault, FaultKind};
use crate::session::{fault, is_fault, Session, SessionInner, SessionStatus};
use crate::text;

verus! {

/// Whether a client may pass a variable on to its shell: those of the locale
/// and of the time zone.
pub open spec fn may_inherit(key: Seq<char>) -> bool {
    key == "LANG"@ || key == "TZ"@ || "LC_"@.is_prefix_of(key)
}

/// What a client set on its channel that its shell inherits, by name. The rest
/// is between the client and the daemon.
pub fn inherited_session_env(channel_env: &EnvMap) -> (kept: Vec<(String, String)>)
    ensures
        pair_texts(kept@) == channel_env.pairs().filter(
            |p: (Seq<char>, Seq<char>)| may_inherit(p.0),
        ),
{
    let all = channel_env.to_pairs();
    let mut kept: Vec<(String, String)> = Vec::new();
    let ghost wanted = |p: (Seq<char>, Seq<char>)| may_inherit(p.0);
    let mut i: usize = 0;
    assert(pair_texts(all@).take(0).filter(wanted) =~= Seq::empty()) by {
        reveal(Seq::filter);
    }
    assert(pair_texts(kept@) =~= Seq::empty());
    while i < all.len()
        invariant
            i <= all@.len(),
            wanted == (|p: (Seq<char>, Seq<char>)| may_inherit(p.0)),
            pair_texts(kept@) == pair_texts(all@).take(i as int).filter(wanted),
        decreases all@.len() - i,
    {
        let ghost before = kept@;
        let key = all[i].0.as_str();
        let ghost pair = pair_texts(all@)[i as int];
        if text::same_text(key, "LANG") || text::same_text(key, "TZ") || text::begins_with(
            key,
            "LC_",
        ) {
            kept.push((all[i].0.clone(), all[i].1.clone()));
            assert(pair_texts(kept@) =~= pair_texts(before).push(pair));
        }
        proof {
            let shorter = pair_texts(all@).take(i as int);
            assert(pair_texts(all@).take(i + 1) =~= shorter.push(pair));
            reveal(Seq::filter);
            assert(shorter.push(pair).drop_last() =~= shorter);
        }
        i = i + 1;
    }
    assert(pair_texts(all@).take(i as int) =~= pair_texts(all@));
    kept
}

/// What an attach contributes to the environment of the shell that it may
/// start: defaults from the client, and facts of the connection that nothing
/// overrides.
#[derive(Debug)]
pub struct AttachEnv {
    pub inherited: Vec<(String, String)>,
    pub connection: Vec<(String, String)>,
}

/// How to leave a session, in words.
pub open spec fn detach_hint(leader: Seq<char>, detach: Seq<char>) -> Seq<char> {
    leader + " then "@ + detach
}

/// The facts of a connection: the terminal's type, if the client has one, and
/// how to leave.
pub open spec fn connection_facts(term: Seq<char>, leader: Seq<char>, detach: Seq<char>) -> Seq<
    (Seq<char>, Seq<char>),
> {
    (if term.len() > 0 {
        seq![("TERM"@, term)]
    } else {
        Seq::empty()
    }).push(("MINIMAL_DETACH_HINT"@, detach_hint(leader, detach)))
}

/// What an attach contributes, from what the client set on its channel, the
/// type of its terminal and the keys that it negotiated.
pub fn attach_env(channel_env: &EnvMap, term: &str, leader: &str, detach: &str) -> (env: AttachEnv)
    ensures
        pair_texts(env.inherited@) == channel_env.pairs().filter(
            |p: (Seq<char>, Seq<char>)| may_inherit(p.0),
        ),
        pair_texts(env.connection@) == connection_facts(term@, leader@, detach@),
{
    let inherited = inherited_session_env(channel_env);
    let mut connection: Vec<(String, String)> = Vec::new();
    if term.unicode_len() > 0 {
        connection.push(("TERM".to_owned(), term.to_owned()));
    }
    connection.push(("MINIMAL_DETACH_HINT".to_owned(), text::cat3(leader, " then ", detach)));
    assert(pair_texts(connection@) =~= connection_facts(term@, leader@, detach@));
    AttachEnv { inherited, connection }
}

/// Nothing that a client inherits is one of the daemon's own variables.
pub proof fn law_control_variables_are_not_inherited(
    pairs: Seq<(Seq<char>, Seq<char>)>,
    i: int,
)
    requires
        0 <= i < pairs.filter(|p: (Seq<char>, Seq<char>)| may_inherit(p.0)).len(),
    ensures
        pairs.contains(pairs.filter(|p: (Seq<char>, Seq<char>)| may_inherit(p.0))[i]),
        !"MINIMAL_"@.is_prefix_of(
            pairs.filter(|p: (Seq<char>, Seq<char>)| may_inherit(p.0))[i].0,
        ),
        pairs.filter(|p: (Seq<char>, Seq<char>)| may_inherit(p.0))[i].0 != "TRACEPARENT"@,
{
    let wanted = |p: (Seq<char>, Seq<char>)| may_inherit(p.0);
    let kept = pairs.filter(wanted);
    broadcast use vstd::seq_lib::group_filter_ensures;

    assert(wanted(kept[i]));
    assert(kept.contains(kept[i]));
    pairs.lemma_filter_contains_rev(wanted, kept[i]);
    let key = kept[i].0;
    assert(may_inherit(key));
    reveal_strlit("LANG");
    reveal_strlit("TZ");
    reveal_strlit("LC_");
    reveal_strlit("MINIMAL_");
    reveal_strlit("TRACEPARENT");
    assert("LC_"@[0] == 'L');
    assert("LANG"@[0] == 'L');
    assert("TZ"@[1] == 'Z');
    assert("TRACEPARENT"@[1] == 'R');
    assert("MINIMAL_"@[0] == 'M');
    if "LC_"@.is_prefix_of(key) {
        assert(key[0] == 'L');
    }
    if "MINIMAL_"@.is_prefix_of(key) {
        assert(key[0] == 'M');
    }
}

/// Why a client could not be attached.
#[derive(Debug)]
pub enum AttachError {
    /// The session's host could not be started.
    SpawnFailed(Fault),
    /// The client asked for no terminal.
    NoPty,
    /// The packages could not be resolved.
    ContextCreationFailed(String),
    /// The session's policy does not fit its network.
    InvalidPolicy(String),
    /// The loadout could not be composed or finalized.
    LoadoutFailed(Fault),
    /// The session is not active: its composition awaits the client's verdict,
    /// or what that needs has not been uploaded.
    SessionPending,
}

impl AttachError {
    /// The error in words.
    pub open spec fn words(&self) -> Seq<char> {
        match *self {
            AttachError::ContextCreationFailed(e) => "init of minimal context: "@ + e@,
            AttachError::NoPty => "SSH channel did not configure a PTY"@,
            AttachError::SpawnFailed(e) => "session spawn: "@ + e.text@,
            AttachError::InvalidPolicy(e) => "invalid session policy: "@ + e@,
            AttachError::LoadoutFailed(e) => "configuring session loadout: "@ + e.text@,
            AttachError::SessionPending => "session isn't attachable yet (still awaiting either SubmitVerdict or FinalizeSession)"@,
        }
    }

    /// The error in words.
    pub fn message(&self) -> (words: String)
        ensures
            words@ == self.words(),
    {
        match self {
            AttachError::ContextCreationFailed(e) => text::cat2(
                "init of minimal context: ",
                e.as_str(),
            ),
            AttachError::NoPty => "SSH channel did not configure a PTY".to_owned(),
            AttachError::SpawnFailed(e) => text::cat2("session spawn: ", e.text.as_str()),
            AttachError::InvalidPolicy(e) => text::cat2("invalid session policy: ", e.as_str()),
            AttachError::LoadoutFailed(e) => text::cat2(
                "configuring session loadout: ",
                e.text.as_str(),
            ),
            AttachError::SessionPending => "session isn't attachable yet (still awaiting either SubmitVerdict or FinalizeSession)".to_owned(),
        }
    }

    /// What the error came from, where it keeps that: the words of a policy's
    /// or a loadout's failure.
    pub fn source(&self) -> (source: Option<&str>)
        ensures
            match *self {
                AttachError::InvalidPolicy(e) => source matches Some(s) && s@ == e@,
                AttachError::LoadoutFailed(e) => source matches Some(s) && s@ == e.text@,
                _ => source is None,
            },
    {
        match self {
            AttachError::InvalidPolicy(e) => Some(e.as_str()),
            AttachError::LoadoutFailed(e) => Some(e.text.as_str()),
            _ => None,
        }
    }
}

/// The size that a shell sees while nobody is attached to it.
pub fn unattached_win_size() -> (size: WinSize)
    ensures
        size == (WinSize { rows: 24, cols: 80, xpixel: 0, ypixel: 0 }),
{
    WinSize { rows: 24, cols: 80, xpixel: 0, ypixel: 0 }
}

/// An attach on its way: what the driver does next.
#[derive(Clone, Copy, PartialEq, Eq, Structural, Debug)]
pub enum AttachStage {
    /// Configure the loadout with nothing from the client.
    Configure,
    /// Finalize the session.
    Finalize,
    /// Read the record.
    ReadRecord,
    /// Hand the channel to the host that runs.
    Join,
    /// Launch a host.
    Launch,
    /// Hand the channel to the host that was launched.
    Bind,
}

/// What the driver reports of an attach.
#[derive(Debug)]
pub enum AttachEvent {
    Configured(Result<(), Fault>),
    Finalized(Result<(), Fault>),
    Record(Result<SessionStatus, Fault>),
    /// Whether the running host took the channel.
    Joined(bool),
    Launched(Result<(), AttachError>),
    /// Whether the new host took the channel.
    Bound(bool),
}

/// What follows for an attach.
#[derive(Debug)]
pub enum AttachNext {
    Do(AttachStage),
    Attached,
    Refused(AttachError),
}

/// The events that a stage waits for, in a session of this state.
pub open spec fn attach_expects(
    stage: AttachStage,
    inner: SessionInner,
    event: AttachEvent,
) -> bool {
    match stage {
        AttachStage::Configure => event is Configured,
        AttachStage::Finalize => event is Finalized,
        AttachStage::ReadRecord => event is Record,
        AttachStage::Join => event is Joined && inner is Active,
        AttachStage::Launch => event is Launched && inner is Active,
        AttachStage::Bind => event is Bound && inner is Active,
    }
}

/// Whether an attach is refused because the loadout failed with this.
pub open spec fn loadout_failed(next: AttachNext, f: Fault) -> bool {
    next == AttachNext::Refused(AttachError::LoadoutFailed(f))
}

/// What follows an event.
pub open spec fn attach_follows(
    stage: AttachStage,
    inner: SessionInner,
    event: AttachEvent,
    next: AttachNext,
) -> bool {
    match (stage, event) {
        (AttachStage::Configure, AttachEvent::Configured(Ok(_))) => if inner is Draft {
            next == AttachNext::Refused(AttachError::SessionPending)
        } else if composition_of(inner) matches Some(c) && c.needs_patches() {
            next matches AttachNext::Refused(AttachError::LoadoutFailed(f)) && is_fault(
                f,
                FaultKind::InvalidInput,
                "composition has patches that can only be uploaded via `min session activate` (ConfigureLoadout \u{2192} WorkspacePatchesTarZst \u{2192} FinalizeSession); the attach shortcut can't drive that sequence \u{2014} destroy this session and re-activate through the CLI"@,
            )
        } else {
            next == AttachNext::Do(AttachStage::Finalize)
        },
        (AttachStage::Finalize, AttachEvent::Finalized(Ok(_))) => next == AttachNext::Do(
            AttachStage::ReadRecord,
        ),
        (AttachStage::ReadRecord, AttachEvent::Record(Ok(status))) => match inner {
            SessionInner::Active { host, .. } if status == SessionStatus::Active => next
                == AttachNext::Do(
                if host {
                    AttachStage::Join
                } else {
                    AttachStage::Launch
                },
            ),
            _ => next == AttachNext::Refused(AttachError::SessionPending),
        },
        (AttachStage::Join, AttachEvent::Joined(taken)) => if taken {
            next is Attached
        } else {
            next == AttachNext::Do(AttachStage::Launch)
        },
        (AttachStage::Launch, AttachEvent::Launched(launched)) => match launched {
            Ok(_) => next == AttachNext::Do(AttachStage::Bind),
            Err(e) => next == AttachNext::Refused(e),
        },
        (AttachStage::Bind, AttachEvent::Bound(bound)) => if bound {
            next is Attached
        } else {
            next matches AttachNext::Refused(AttachError::SpawnFailed(f)) && is_fault(
                f,
                FaultKind::Other,
                "session host exited before its channel could attach"@,
            )
        },
        (_, AttachEvent::Configured(Err(f))) => loadout_failed(next, f),
        (_, AttachEvent::Finalized(Err(f))) => loadout_failed(next, f),
        (_, AttachEvent::Record(Err(f))) => loadout_failed(next, f),
        _ => true,
    }
}

/// The state of the session after an event: it has a host once one is bound.
pub open spec fn after_attach_event(inner: SessionInner, event: AttachEvent) -> SessionInner {
    match (inner, event) {
        (SessionInner::Active { composition, sops, .. }, AttachEvent::Bound(true)) => {
            SessionInner::Active { composition, host: true, sops }
        },
        _ => inner,
    }
}

impl Session {
    /// Begins an attach. A client without a terminal is refused. A session
    /// that was never configured is configured on the way.
    pub fn begin_attach(&self, has_pty: bool) -> (begun: Result<AttachStage, AttachError>)
        ensures
            begun == (if !has_pty {
                Err::<AttachStage, AttachError>(AttachError::NoPty)
            } else if self.inner == (SessionInner::Draft { pending: false }) {
                Ok(AttachStage::Configure)
            } else {
                Ok(AttachStage::ReadRecord)
            }),
    {
        if !has_pty {
            return Err(AttachError::NoPty);
        }
        match &self.inner {
            SessionInner::Draft { pending } => {
                if *pending {
                    Ok(AttachStage::ReadRecord)
                } else {
                    Ok(AttachStage::Configure)
                }
            },
            SessionInner::Active { .. } => Ok(AttachStage::ReadRecord),
        }
    }

    /// Takes an attach a step further.
    pub fn attach(&mut self, stage: AttachStage, event: AttachEvent) -> (next: AttachNext)
        requires
            attach_expects(stage, old(self).inner, event),
        ensures
            attach_follows(stage, old(self).inner, event, next),
            final(self).inner == after_attach_event(old(self).inner, event),
    {
        match (stage, event) {
            (AttachStage::Configure, AttachEvent::Configured(Ok(()))) => {
                if let SessionInner::Draft { .. } = &self.inner {
                    return AttachNext::Refused(AttachError::SessionPending);
                }
                let patched = match self.composition() {
                    Some(c) => c.has_patches(),
                    None => false,
                };
                if patched {
                    AttachNext::Refused(
                        AttachError::LoadoutFailed(
                            fault(
                                FaultKind::InvalidInput,
                                "composition has patches that can only be uploaded via `min session activate` (ConfigureLoadout \u{2192} WorkspacePatchesTarZst \u{2192} FinalizeSession); the attach shortcut can't drive that sequence \u{2014} destroy this session and re-activate through the CLI",
                            ),
                        ),
                    )
                } else {
                    AttachNext::Do(AttachStage::Finalize)
                }
            },
            (AttachStage::Finalize, AttachEvent::Finalized(Ok(()))) => AttachNext::Do(
                AttachStage::ReadRecord,
            ),
            (AttachStage::ReadRecord, AttachEvent::Record(Ok(status))) => {
                if status != SessionStatus::Active {
                    return AttachNext::Refused(AttachError::SessionPending);
                }
                match &self.inner {
                    SessionInner::Draft { .. } => AttachNext::Refused(AttachError::SessionPending),
                    SessionInner::Active { host, .. } => {
                        if *host {
                            AttachNext::Do(AttachStage::Join)
                        } else {
                            AttachNext::Do(AttachStage::Launch)
                        }
                    },
                }
            },
            (AttachStage::Join, AttachEvent::Joined(taken)) => {
                if taken {
                    AttachNext::Attached
                } else {
                    AttachNext::Do(AttachStage::Launch)
                }
            },
            (AttachStage::Launch, AttachEvent::Launched(launched)) => match launched {
                Ok(()) => AttachNext::Do(AttachStage::Bind),
                Err(e) => AttachNext::Refused(e),
            },
            (AttachStage::Bind, AttachEvent::Bound(bound)) => {
                if bound {
                    self.hold_host();
                    AttachNext::Attached
                } else {
                    AttachNext::Refused(
                        AttachError::SpawnFailed(
                            fault(
                                FaultKind::Other,
                                "session host exited before its channel could attach",
                            ),
                        ),
                    )
                }
            },
            (_, AttachEvent::Configured(Err(f))) => AttachNext::Refused(
                AttachError::LoadoutFailed(f),
            ),
            (_, AttachEvent::Finalized(Err(f))) => AttachNext::Refused(
                AttachError::LoadoutFailed(f),
            ),
            (_, AttachEvent::Record(Err(f))) => AttachNext::Refused(AttachError::LoadoutFailed(f)),
            (stage, _) => AttachNext::Do(stage),
        }
    }
}

/// A run of an attach: the stage, the state of the session, what the driver
/// reported, and what followed, in order.
pub open spec fn is_attaching(
    steps: Seq<(AttachStage, SessionInner, AttachEvent, AttachNext)>,
) -> bool {
    &&& steps.len() > 0
    &&& steps[0].0 is Configure || steps[0].0 is ReadRecord
    &&& forall|i: int|
        0 <= i < steps.len() ==> attach_expects((#[trigger] steps[i]).0, steps[i].1, steps[i].2)
            && attach_follows(steps[i].0, steps[i].1, steps[i].2, steps[i].3)
    &&& forall|i: int|
        0 < i < steps.len() ==> steps[i - 1].3 == AttachNext::Do((#[trigger] steps[i]).0)
}

/// Whether the record of a composed session was read as `Active`.
pub open spec fn seen_active(
    steps: Seq<(AttachStage, SessionInner, AttachEvent, AttachNext)>,
) -> bool {
    exists|i: int|
        0 <= i < steps.len() && (#[trigger] steps[i]).2 == AttachEvent::Record(
            Ok(SessionStatus::Active),
        ) && steps[i].1 is Active
}

proof fn lemma_hosts_follow_an_active_record(
    steps: Seq<(AttachStage, SessionInner, AttachEvent, AttachNext)>,
    n: int,
)
    requires
        is_attaching(steps),
        0 <= n < steps.len(),
    ensures
        (steps[n].0 is Join || steps[n].0 is Launch || steps[n].0 is Bind) ==> seen_active(steps),
    decreases n,
{
    if n > 0 {
        lemma_hosts_follow_an_active_record(steps, n - 1);
        assert(steps[n - 1].3 == AttachNext::Do(steps[n].0));
        assert(attach_expects(steps[n - 1].0, steps[n - 1].1, steps[n - 1].2));
        assert(attach_follows(steps[n - 1].0, steps[n - 1].1, steps[n - 1].2, steps[n - 1].3));
    }
}

/// A client is attached, and a host is launched, only once the record of a
/// composed session was read as `Active`: one whose uploads are not complete
/// has no shell.
pub proof fn law_only_active_sessions_have_shells(
    steps: Seq<(AttachStage, SessionInner, AttachEvent, AttachNext)>,
)
    requires
        is_attaching(steps),
        steps.last().3 is Attached || steps.last().3 == AttachNext::Do(AttachStage::Launch),
    ensures
        seen_active(steps),
{
    let n = steps.len() - 1;
    assert(attach_expects(steps[n].0, steps[n].1, steps[n].2));
    assert(attach_follows(steps[n].0, steps[n].1, steps[n].2, steps[n].3));
    lemma_hosts_follow_an_active_record(steps, n);
}

/// An attach whose loadout turns out to await the client's verdict is refused
/// as pending; the session stays a draft, which the verdict can still resume.
pub proof fn law_a_loadout_that_awaits_a_verdict_is_not_attached_to<T>(
    inner: SessionInner,
    items: T,
    next: AttachNext,
)
    requires
        inner is Draft,
        ({
            let asked = PromotionEvent::Composed(ComposeOutcome::Pending(items));
            let after = promotion_step(Promotion::Composing { resumed: false }, inner, asked).0;
            attach_follows(AttachStage::Configure, after, AttachEvent::Configured(Ok(())), next)
        }),
    ensures
        ({
            let asked = PromotionEvent::Composed(ComposeOutcome::Pending(items));
            let (after, end) = promotion_step(
                Promotion::Composing { resumed: false },
                inner,
                asked,
            );
            &&& end == PromotionNext::Done(PromotionEnd::VerdictOwed(items))
            &&& after == (SessionInner::Draft { pending: true })
            &&& next == AttachNext::Refused(AttachError::SessionPending)
            &&& after_attach_event(after, AttachEvent::Configured(Ok(()))) == after
        }),
{
}

/// How a caller gets a host without a terminal.
#[derive(Debug)]
pub enum EnsureHost {
    /// The one that runs.
    Reuse,
    /// One is launched, with nothing attached, and kept.
    Launch,
    Refused(AttachError),
}

impl Session {
    /// Finds the host for a caller without a terminal: only an active session
    /// has one, and one that runs and is `alive` is taken.
    pub fn ensure_host(&self, record: Result<SessionStatus, Fault>, alive: bool) -> (out: EnsureHost)
        ensures
            out == (match record {
                Err(f) => EnsureHost::Refused(AttachError::LoadoutFailed(f)),
                Ok(status) => match self.inner {
                    SessionInner::Active { host, .. } if status == SessionStatus::Active => if host
                        && alive {
                        EnsureHost::Reuse
                    } else {
                        EnsureHost::Launch
                    },
                    _ => EnsureHost::Refused(AttachError::SessionPending),
                },
            }),
    {
        match record {
            Err(f) => EnsureHost::Refused(AttachError::LoadoutFailed(f)),
            Ok(status) => {
                if status != SessionStatus::Active {
                    return EnsureHost::Refused(AttachError::SessionPending);
                }
                match &self.inner {
                    SessionInner::Draft { .. } => EnsureHost::Refused(AttachError::SessionPending),
                    SessionInner::Active { host, .. } => {
                        if *host && alive {
                            EnsureHost::Reuse
                        } else {
                            EnsureHost::Launch
                        }
                    },
                }
            },
        }
    }

    /// Why the session has no packages to work with yet, if it has none: it is
    /// a draft, or its record cannot be read or is not `Active`.
    pub fn context(&self, record: Result<SessionStatus, Fault>) -> (out: Result<(), String>)
        ensures
            match (self.inner, record) {
                (SessionInner::Draft { .. }, _) => out matches Err(e) && e@
                    == "session is pending composition"@,
                (_, Err(f)) => out matches Err(e) && e@ == "reading session record: "@ + f.text@,
                (_, Ok(status)) => if status == SessionStatus::Active {
                    out is Ok
                } else {
                    out matches Err(e) && e@ == "session isn't attachable yet (status is "@
                        + status.name()
                        + ", need Active \u{2014} finish the upload + FinalizeSession sequence first)"@
                },
            },
    {
        match &self.inner {
            SessionInner::Draft { .. } => Err("session is pending composition".to_owned()),
            SessionInner::Active { .. } => match record {
                Err(f) => Err(text::cat2("reading session record: ", f.text.as_str())),
                Ok(status) => {
                    if status == SessionStatus::Active {
                        Ok(())
                    } else {
                        Err(
                            text::cat3(
                                "session isn't attachable yet (status is ",
                                status.as_str(),
                                ", need Active \u{2014} finish the upload + FinalizeSession sequence first)",
                            ),
                        )
                    }
                },
            },
        }
    }

    /// Refuses a side operation (a build, a check, a materialization) of a
    /// session that has no packages to work with: a draft's as an invalid
    /// request, any other with what went wrong.
    pub fn side_op_refused(&self, context: Result<(), String>) -> (refused: Option<Fault>)
        ensures
            match context {
                Ok(_) => refused is None,
                Err(e) => refused matches Some(f) && is_fault(
                    f,
                    if self.inner is Draft {
                        FaultKind::InvalidInput
                    } else {
                        FaultKind::Other
                    },
                    e@,
                ),
            },
    {
        match context {
            Ok(()) => None,
            Err(e) => {
                let kind = match &self.inner {
                    SessionInner::Draft { .. } => FaultKind::InvalidInput,
                    SessionInner::Active { .. } => FaultKind::Other,
                };
                Some(Fault { kind, text: e })
            },
        }
    }
}

/// What a launch comes to: the policy must fit the network, the packages must
/// be resolved, and the host must start, in this order.
pub fn launch_host(
    policy: Result<(), String>,
    context: Result<(), String>,
    spawned: Result<(), Fault>,
) -> (launched: Result<(), AttachError>)
    ensures
        launched == (match (policy, context, spawned) {
            (Err(e), _, _) => Err::<(), AttachError>(AttachError::InvalidPolicy(e)),
            (_, Err(e), _) => Err(AttachError::ContextCreationFailed(e)),
            (_, _, Err(f)) => Err(AttachError::SpawnFailed(f)),
            _ => Ok(()),
        }),
{
    match policy {
        Err(e) => Err(AttachError::InvalidPolicy(e)),
        Ok(()) => match context {
            Err(e) => Err(AttachError::ContextCreationFailed(e)),
            Ok(()) => match spawned {
                Err(f) => Err(AttachError::SpawnFailed(f)),
                Ok(()) => Ok(()),
            },
        },
    }
}

/// What becomes of a workspace that may lack its manifest.
#[derive(Debug)]
pub enum Scaffold {
    /// It has one.
    Keep,
    /// A default one is written.
    Write,
    Failed(String),
}

/// How a search for a workspace's manifest ended.
#[derive(Debug)]
pub enum ManifestSearch {
    Found,
    NotFound,
    Failed(String),
}

/// Decides whether a workspace gets a default manifest: only one that has none
/// does. A manifest right there is not searched for.
pub fn scaffold_mfile_if_missing(present: bool, search: ManifestSearch) -> (out: Scaffold)
    ensures
        out == (if present {
            Scaffold::Keep
        } else {
            match search {
                ManifestSearch::Found => Scaffold::Keep,
                ManifestSearch::NotFound => Scaffold::Write,
                ManifestSearch::Failed(e) => Scaffold::Failed(e),
            }
        }),
{
    if present {
        return Scaffold::Keep;
    }
    match search {
        ManifestSearch::Found => Scaffold::Keep,
        ManifestSearch::NotFound => Scaffold::Write,
        ManifestSearch::Failed(e) => Scaffold::Failed(e),
    }
}

/// What a session answers, or that it is gone.
pub fn answer_or_gone<T>(answer: Option<Result<T, Fault>>) -> (out: Result<T, Fault>)
    ensures
        match answer {
            Some(a) => out == a,
            None => out matches Err(f) && is_fault(
                f,
                FaultKind::NotConnected,
                "session actor is gone"@,
            ),
        },
{
    match answer {
        Some(a) => a,
        None => Err(fault(FaultKind::NotConnected, "session actor is gone")),
    }
}

/// What a session answers to its destruction. One that is gone by then has come
/// down already, which is all that was asked for.
pub fn destroy_answer(answer: Option<Result<(), Fault>>) -> (out: Result<(), Fault>)
    ensures
        out == (match answer {
            Some(a) => a,
            None => Ok::<(), Fault>(()),
        }),
{
    match answer {
        Some(a) => a,
        None => Ok(()),
    }
}

/// What a session answers to an attach, or to a caller in need of its host:
/// one that is gone by then did not start it.
pub fn attach_answer<T>(answer: Option<Result<T, AttachError>>, for_host: bool) -> (out: Result<
    T,
    AttachError,
>)
    ensures
        match answer {
            Some(a) => out == a,
            None => out matches Err(AttachError::SpawnFailed(f)) && is_fault(
                f,
                FaultKind::Other,
                if for_host {
                    "session actor terminated before the host could be launched"@
                } else {
                    "session actor terminated before the attach completed"@
                },
            ),
        },
{
    match answer {
        Some(a) => a,
        None => {
            if for_host {
                Err(
                    AttachError::SpawnFailed(
                        fault(
                            FaultKind::Other,
                            "session actor terminated before the host could be launched",
                        ),
                    ),
                )
            } else {
                Err(
                    AttachError::SpawnFailed(
                        fault(
                            FaultKind::Other,
                            "session actor terminated before the attach completed",
                        ),
                    ),
                )
            }
        },
    }
}

/// An attach goes in one order: what was configured is finalized, the record is
/// read, the host that runs is joined, and where there is none, or it would not
/// take the channel, one is launched and bound.
pub proof fn law_an_attach_goes_in_order(
    stage: AttachStage,
    inner: SessionInner,
    event: AttachEvent,
    next: AttachNext,
)
    requires
        attach_expects(stage, inner, event),
        attach_follows(stage, inner, event, next),
    ensures
        next is Attached <==> ({
            ||| event is Joined && event->Joined_0
            ||| event is Bound && event->Bound_0
        }),
        next is Do <==> ({
            ||| event is Configured && event->Configured_0 is Ok && inner is Active && !(
            inner->composition is Some && inner->composition->0.patches@.len() > 0)
            ||| event is Finalized && event->Finalized_0 is Ok
            ||| event is Record && event->Record_0 is Ok && event->Record_0->Ok_0 is Active
                && inner is Active
            ||| event is Joined && !event->Joined_0
            ||| event is Launched && event->Launched_0 is Ok
        }),
        next is Do ==> match event {
            AttachEvent::Configured(_) => next->Do_0 is Finalize,
            AttachEvent::Finalized(_) => next->Do_0 is ReadRecord,
            AttachEvent::Record(_) => (inner->host ==> next->Do_0 is Join) && (!inner->host
                ==> next->Do_0 is Launch),
            AttachEvent::Joined(_) => next->Do_0 is Launch,
            AttachEvent::Launched(_) => next->Do_0 is Bind,
            AttachEvent::Bound(_) => false,
        },
{
}

/// Why an attach is refused: a step that failed is told with what it failed
/// with, a session that is not active as pending, one whose patches have to be
/// uploaded as an invalid request, and a host that was gone at once as one that
/// did not start.
pub proof fn law_a_refused_attach_says_why(
    stage: AttachStage,
    inner: SessionInner,
    event: AttachEvent,
    next: AttachNext,
)
    requires
        attach_expects(stage, inner, event),
        attach_follows(stage, inner, event, next),
        next is Refused,
    ensures
        match event {
            AttachEvent::Configured(Err(f)) => next->Refused_0 == AttachError::LoadoutFailed(f),
            AttachEvent::Configured(Ok(_)) => {
                &&& inner is Draft ==> next->Refused_0 is SessionPending
                &&& inner is Active ==> next->Refused_0 is LoadoutFailed
                    && next->Refused_0->LoadoutFailed_0.kind is InvalidInput
                    && next->Refused_0->LoadoutFailed_0.text@
                    == "composition has patches that can only be uploaded via `min session activate` (ConfigureLoadout \u{2192} WorkspacePatchesTarZst \u{2192} FinalizeSession); the attach shortcut can't drive that sequence \u{2014} destroy this session and re-activate through the CLI"@
            },
            AttachEvent::Finalized(Err(f)) => next->Refused_0 == AttachError::LoadoutFailed(f),
            AttachEvent::Record(Err(f)) => next->Refused_0 == AttachError::LoadoutFailed(f),
            AttachEvent::Record(Ok(status)) => next->Refused_0 is SessionPending && (!(
            status is Active) || inner is Draft),
            AttachEvent::Launched(Err(e)) => next->Refused_0 == e,
            AttachEvent::Bound(bound) => !bound && next->Refused_0 is SpawnFailed
                && next->Refused_0->SpawnFailed_0.kind is Other
                && next->Refused_0->SpawnFailed_0.text@
                == "session host exited before its channel could attach"@,
            _ => false,
        },
{
}

/// A session holds a host once one took the channel, and an attach changes
/// nothing else of it.
pub proof fn law_an_attach_leaves_a_host_behind(inner: SessionInner, event: AttachEvent)
    ensures
        ({
            let after = after_attach_event(inner, event);
            &&& inner is Draft ==> after == inner
            &&& !(event is Bound && event->Bound_0) ==> after == inner
            &&& inner is Active && event is Bound && event->Bound_0 ==> after is Active
                && after->host && after->composition == inner->composition && after->sops
                == inner->sops
        }),
{
}

/// A client needs a terminal to attach. Only a draft that waits for nothing is
/// configured on the way; for any other session its record decides.
pub proof fn law_an_attach_begins_with_what_is_missing(
    s: &Session,
    has_pty: bool,
    begun: Result<AttachStage, AttachError>,
)
    requires
        call_ensures(Session::begin_attach, (s, has_pty), begun),
    ensures
        begun is Ok <==> has_pty,
        begun is Err ==> begun->Err_0 is NoPty,
        has_pty && s.inner is Draft && !s.inner->pending ==> begun->Ok_0 is Configure,
        has_pty && s.inner is Draft && s.inner->pending ==> begun->Ok_0 is ReadRecord,
        has_pty && s.inner is Active ==> begun->Ok_0 is ReadRecord,
{
}

/// A caller without a terminal gets the host that runs and is alive, and a new
/// one where there is none, of an active session alone.
pub proof fn law_a_live_host_is_reused(
    s: &Session,
    record: Result<SessionStatus, Fault>,
    alive: bool,
    out: EnsureHost,
)
    requires
        call_ensures(Session::ensure_host, (s, record, alive), out),
    ensures
        record is Err ==> out is Refused && out->Refused_0 == AttachError::LoadoutFailed(
            record->Err_0,
        ),
        record is Ok && (s.inner is Draft || !(record->Ok_0 is Active)) ==> out is Refused
            && out->Refused_0 is SessionPending,
        record is Ok && s.inner is Active && record->Ok_0 is Active ==> {
            &&& s.inner->host && alive ==> out is Reuse
            &&& !(s.inner->host && alive) ==> out is Launch
        },
{
}

/// There are packages to work with in an active session alone; otherwise it is
/// told what is missing, and a side operation is refused with just that.
pub proof fn law_side_operations_need_an_active_session(
    s: &Session,
    record: Result<SessionStatus, Fault>,
    context: Result<(), String>,
    refused: Option<Fault>,
)
    requires
        call_ensures(Session::context, (s, record), context),
        call_ensures(Session::side_op_refused, (s, context), refused),
    ensures
        refused is None <==> (s.inner is Active && record is Ok && record->Ok_0 is Active),
        refused is Some && s.inner is Draft ==> refused->0.kind is InvalidInput
            && refused->0.text@ == "session is pending composition"@,
        refused is Some && s.inner is Active ==> refused->0.kind is Other,
        refused is Some && s.inner is Active && record is Err ==> refused->0.text@
            == "reading session record: "@ + record->Err_0.text@,
        refused is Some && s.inner is Active && record is Ok ==> refused->0.text@
            == "session isn't attachable yet (status is "@ + (if record->Ok_0 is Pending {
            "Pending"@
        } else {
            "Materializing"@
        }) + ", need Active \u{2014} finish the upload + FinalizeSession sequence first)"@,
{
}

/// A host is launched if its policy fits, its packages are resolved and it
/// starts; the first of these that fails is what the launch fails with.
pub proof fn law_a_launch_fails_with_what_failed_first(
    policy: Result<(), String>,
    context: Result<(), String>,
    spawned: Result<(), Fault>,
    launched: Result<(), AttachError>,
)
    requires
        call_ensures(launch_host, (policy, context, spawned), launched),
    ensures
        launched is Ok <==> policy is Ok && context is Ok && spawned is Ok,
        policy is Err ==> launched->Err_0 == AttachError::InvalidPolicy(policy->Err_0),
        policy is Ok && context is Err ==> launched->Err_0 == AttachError::ContextCreationFailed(
            context->Err_0,
        ),
        policy is Ok && context is Ok && spawned is Err ==> launched->Err_0
            == AttachError::SpawnFailed(spawned->Err_0),
{
}

/// A default manifest is written only where a search found none at all.
pub proof fn law_a_manifest_is_never_written_over(
    present: bool,
    search: ManifestSearch,
    out: Scaffold,
)
    requires
        call_ensures(scaffold_mfile_if_missing, (present, search), out),
    ensures
        out is Write <==> !present && search is NotFound,
        out is Failed <==> !present && search is Failed,
        out is Failed ==> out->Failed_0 == search->Failed_0,
{
}

/// What a session answers is passed on as it is. Where it is gone, that is an
/// error to whoever asked for something, and no error to whoever wanted it gone.
pub proof fn law_answers_are_passed_on(
    answer: Option<Result<(), Fault>>,
    attached: Option<Result<(), AttachError>>,
    for_host: bool,
    asked: Result<(), Fault>,
    destroyed: Result<(), Fault>,
    joined: Result<(), AttachError>,
)
    requires
        call_ensures(answer_or_gone::<()>, (answer,), asked),
        call_ensures(destroy_answer, (answer,), destroyed),
        call_ensures(attach_answer::<()>, (attached, for_host), joined),
    ensures
        answer is Some ==> asked == answer->0 && destroyed == answer->0,
        answer is None ==> asked is Err && asked->Err_0.kind is NotConnected
            && asked->Err_0.text@ == "session actor is gone"@ && destroyed is Ok,
        attached is Some ==> joined == attached->0,
        attached is None ==> joined is Err && joined->Err_0 is SpawnFailed
            && joined->Err_0->SpawnFailed_0.kind is Other,
        attached is None && for_host ==> joined->Err_0->SpawnFailed_0.text@
            == "session actor terminated before the host could be launched"@,
        attached is None && !for_host ==> joined->Err_0->SpawnFailed_0.text@
            == "session actor terminated before the attach completed"@,
{
}

/// A shell inherits from the client its language, its time zone and what
/// belongs to its locale, and no other variable.
pub proof fn law_locale_and_time_zone_are_inherited(key: Seq<char>, rest: Seq<char>)
    ensures
        may_inherit("LANG"@),
        may_inherit("TZ"@),
        may_inherit("LC_"@ + rest),
        may_inherit(key) && key != "LANG"@ && key != "TZ"@ ==> key.len() >= 3 && key.take(3)
            == "LC_"@,
{
    reveal_strlit("LC_");
    assert("LC_"@ =~= ("LC_"@ + rest).subrange(0, 3));
    if may_inherit(key) && key != "LANG"@ && key != "TZ"@ {
        assert(key.take(3) =~= key.subrange(0, 3));
    }
}

/// A shell is told the type of the client's terminal where there is one, and
/// always the keys that leave it, in the order in which they are pressed.
pub proof fn law_a_shell_is_told_how_to_leave(
    term: Seq<char>,
    leader: Seq<char>,
    detach: Seq<char>,
)
    ensures
        connection_facts(term, leader, detach).last() == (
            "MINIMAL_DETACH_HINT"@,
            leader + " then "@ + detach,
        ),
        term.len() == 0 ==> connection_facts(term, leader, detach).len() == 1,
        term.len() > 0 ==> connection_facts(term, leader, detach).len() == 2
            && connection_facts(term, leader, detach)[0] == ("TERM"@, term),
{
}

/// An error that keeps the words of what went wrong ends in them.
pub proof fn law_an_attach_error_ends_in_its_cause(e: AttachError)
    ensures
        match e {
            AttachError::SpawnFailed(f) => e.words() == "session spawn: "@ + f.text@,
            AttachError::NoPty => e.words() == "SSH channel did not configure a PTY"@,
            AttachError::ContextCreationFailed(t) => e.words() == "init of minimal context: "@
                + t@,
            AttachError::InvalidPolicy(t) => e.words() == "invalid session policy: "@ + t@,
            AttachError::LoadoutFailed(f) => e.words() == "configuring session loadout: "@
                + f.text@,
            AttachError::SessionPending => e.words()
                == "session isn't attachable yet (still awaiting either SubmitVerdict or FinalizeSession)"@,
        },
{
}

/// A shell that nobody is attached to has the usual terminal.
pub proof fn law_a_shell_without_a_client_has_the_usual_size(size: WinSize)
    requires
        call_ensures(unattached_win_size, (), size),
    ensures
        size.rows == 24 && size.cols == 80,
        size.xpixel == 0 && size.ypixel == 0,
{
}

/// What [`Session::attach`] does is what is said of an attach here.
pub proof fn law_an_attach_goes_as_stated(stage: AttachStage, event: AttachEvent, next: AttachNext)
    ensures
        forall|s: &mut Session| #[trigger]
            call_ensures(Session::attach, (s, stage, event), next) ==> attach_follows(
                stage,
                s.inner,
                event,
                next,
            ) && final(s).inner == after_attach_event(s.inner, event),
{
}

/// A shell inherits just what it may of what the client set, as it was set, and
/// is told of the connection besides.
pub proof fn law_a_shell_inherits_what_it_may(
    channel: &EnvMap,
    term: &str,
    leader: &str,
    detach: &str,
    kept: Vec<(String, String)>,
    env: AttachEnv,
    key: Seq<char>,
    value: Seq<char>,
)
    requires
        call_ensures(inherited_session_env, (channel,), kept),
        call_ensures(attach_env, (channel, term, leader, detach), env),
    ensures
        pair_texts(env.inherited@) == pair_texts(kept@),
        pair_texts(kept@).contains((key, value)) <==> channel.pairs().contains((key, value)) && (key
            == "LANG"@ || key == "TZ"@ || "LC_"@.is_prefix_of(key)),
        pair_texts(env.connection@) == connection_facts(term@, leader@, detach@),
{
    let wanted = |p: (Seq<char>, Seq<char>)| may_inherit(p.0);
    let all = channel.pairs();
    let pair = (key, value);
    broadcast use vstd::seq_lib::group_filter_ensures;

    if all.contains(pair) && wanted(pair) {
        let i = choose|i: int| 0 <= i < all.len() && all[i] == pair;
        all.lemma_filter_contains_rev(wanted, pair);
    }
    if all.filter(wanted).contains(pair) {
        let i = choose|i: int| 0 <= i < all.filter(wanted).len() && all.filter(wanted)[i] == pair;
        assert(wanted(all.filter(wanted)[i]));
        all.lemma_filter_contains_rev(wanted, pair);
    }
}

/// An error is told in its words, and keeps what it came from where that is a
/// policy or a loadout.
pub proof fn law_an_attach_error_is_told_in_words(
    e: &AttachError,
    words: String,
    source: Option<&str>,
)
    requires
        call_ensures(AttachError::message, (e,), words),
        call_ensures(AttachError::source, (e,), source),
    ensures
        words@ == e.words(),
        source is Some <==> e is InvalidPolicy || e is LoadoutFailed,
        e is InvalidPolicy ==> source->0@ == e->InvalidPolicy_0@,
        e is LoadoutFailed ==> source->0@ == e->LoadoutFailed_0.text@,
{
}

} // verus!
