//! How a session comes to be attachable: its loadout is composed, which makes
//! its record `Materializing`, and it is finalized, which makes it `Active`.
use vstd::prelude::*;
use vstd::string::*;

use crate::paths;
use crate::rpc::{Fault, FaultKind};
use crate::session::{
    consistent, fault, has_external_script, is_fault, Composition, Session, SessionInner,
    SessionPaths, SessionStatus,
};
use crate::text;
use crate::upload::{HOOKS_READY_MARKER, PATCHES_READY_MARKER};

verus! {

/// What composing a loadout came to. `T` is what a client is asked.
#[derive(Debug)]
pub enum ComposeOutcome<T> {
    /// It is complete.
    Ready(Composition),
    /// The client has to give its verdict on some of it first.
    Pending(T),
    /// It failed.
    Failed(Fault),
}

/// A composition on its way into a session. The snapshot is stored before the
/// record is written, so that a record that says `Materializing` always has
/// one.
#[derive(Debug)]
pub enum Promotion {
    /// It is being composed, for the first time or, `resumed`, upon a verdict.
    Composing { resumed: bool },
    /// Its snapshot is being stored.
    Storing { composition: Composition },
    /// The record is being written as `Materializing`.
    Writing { composition: Composition },
}

/// What the driver reports of a promotion.
#[derive(Debug)]
pub enum PromotionEvent<T> {
    Composed(ComposeOutcome<T>),
    Stored(Result<(), Fault>),
    Written(Result<(), Fault>),
}

/// What a promotion came to.
#[derive(Debug)]
pub enum PromotionEnd<T> {
    /// The session is composed, and its record says so.
    Materialized,
    /// The client owes a verdict on this.
    VerdictOwed(T),
    /// Nothing was composed.
    NotComposed(Fault),
    /// The snapshot or the record could not be written.
    NotSaved(Fault),
}

/// What the driver does next for a promotion.
#[derive(Debug)]
pub enum PromotionNext<T> {
    /// Store the snapshot of the composition.
    Store(Promotion),
    /// Write the record as `Materializing`.
    Write(Promotion),
    Done(PromotionEnd<T>),
}

/// The events that a promotion waits for. A verdict is not followed by
/// another.
pub open spec fn promotion_expects<T>(p: Promotion, event: PromotionEvent<T>) -> bool {
    match p {
        Promotion::Composing { resumed } => event matches PromotionEvent::Composed(o) && !(resumed
            && o is Pending),
        Promotion::Storing { .. } => event is Stored,
        Promotion::Writing { .. } => event is Written,
    }
}

/// A composed session that runs nothing.
pub open spec fn composed(composition: Composition) -> SessionInner {
    SessionInner::Active { composition: Some(composition), host: false, sops: 0 }
}

/// The state of the session, and what comes next, after an event. Only the
/// record's being written makes the session a composed one.
pub open spec fn promotion_step<T>(
    p: Promotion,
    inner: SessionInner,
    event: PromotionEvent<T>,
) -> (SessionInner, PromotionNext<T>) {
    match (p, event) {
        (
            Promotion::Composing { .. },
            PromotionEvent::Composed(ComposeOutcome::Ready(composition)),
        ) => (inner, PromotionNext::Store(Promotion::Storing { composition })),
        (
            Promotion::Composing { .. },
            PromotionEvent::Composed(ComposeOutcome::Pending(items)),
        ) => (
            SessionInner::Draft { pending: true },
            PromotionNext::Done(PromotionEnd::VerdictOwed(items)),
        ),
        (Promotion::Composing { .. }, PromotionEvent::Composed(ComposeOutcome::Failed(f))) => (
            inner,
            PromotionNext::Done(PromotionEnd::NotComposed(f)),
        ),
        (Promotion::Storing { composition }, PromotionEvent::Stored(Ok(_))) => (
            inner,
            PromotionNext::Write(Promotion::Writing { composition }),
        ),
        (Promotion::Writing { composition }, PromotionEvent::Written(Ok(_))) => (
            composed(composition),
            PromotionNext::Done(PromotionEnd::Materialized),
        ),
        (_, PromotionEvent::Stored(Err(f))) => (
            inner,
            PromotionNext::Done(PromotionEnd::NotSaved(f)),
        ),
        (_, PromotionEvent::Written(Err(f))) => (
            inner,
            PromotionNext::Done(PromotionEnd::NotSaved(f)),
        ),
        (p, _) => (inner, PromotionNext::Write(p)),
    }
}

impl Session {
    /// Begins to compose the loadout, unless that is done already or waits for
    /// a verdict.
    pub fn configure_loadout(&self) -> (begun: Result<Promotion, Fault>)
        ensures
            match self.inner {
                SessionInner::Active { .. } => begun matches Err(f) && is_fault(
                    f,
                    FaultKind::AlreadyExists,
                    "session loadout is already configured"@,
                ),
                SessionInner::Draft { pending: true } => begun matches Err(f) && is_fault(
                    f,
                    FaultKind::WouldBlock,
                    "session already has a pending contribution awaiting SubmitVerdict; abort it and create a new session to retry"@,
                ),
                SessionInner::Draft { pending: false } => begun == Ok::<Promotion, Fault>(
                    Promotion::Composing { resumed: false },
                ),
            },
    {
        match &self.inner {
            SessionInner::Active { .. } => Err(
                fault(FaultKind::AlreadyExists, "session loadout is already configured"),
            ),
            SessionInner::Draft { pending } => {
                if *pending {
                    Err(
                        fault(
                            FaultKind::WouldBlock,
                            "session already has a pending contribution awaiting SubmitVerdict; abort it and create a new session to retry",
                        ),
                    )
                } else {
                    Ok(Promotion::Composing { resumed: false })
                }
            },
        }
    }

    /// Begins to resume the composition upon a verdict, or says why there is
    /// none to resume.
    pub fn submit_verdict(&self) -> (begun: Result<Promotion, String>)
        ensures
            match self.inner {
                SessionInner::Active { .. } => begun matches Err(what) && what@
                    == "expected Pending, found Active"@,
                SessionInner::Draft { pending: false } => begun matches Err(what) && what@
                    == "expected Pending, found a session with no composition to resume"@,
                SessionInner::Draft { pending: true } => begun == Ok::<Promotion, String>(
                    Promotion::Composing { resumed: true },
                ),
            },
    {
        match &self.inner {
            SessionInner::Active { .. } => Err("expected Pending, found Active".to_owned()),
            SessionInner::Draft { pending } => {
                if *pending {
                    Ok(Promotion::Composing { resumed: true })
                } else {
                    Err(
                        "expected Pending, found a session with no composition to resume".to_owned(),
                    )
                }
            },
        }
    }

    /// Takes a promotion a step further.
    pub fn promote<T>(&mut self, p: Promotion, event: PromotionEvent<T>) -> (next: PromotionNext<T>)
        requires
            promotion_expects(p, event),
        ensures
            (final(self).inner, next) == promotion_step(p, old(self).inner, event),
    {
        match (p, event) {
            (Promotion::Composing { .. }, PromotionEvent::Composed(outcome)) => match outcome {
                ComposeOutcome::Ready(composition) => PromotionNext::Store(
                    Promotion::Storing { composition },
                ),
                ComposeOutcome::Pending(items) => {
                    self.inner = SessionInner::Draft { pending: true };
                    PromotionNext::Done(PromotionEnd::VerdictOwed(items))
                },
                ComposeOutcome::Failed(f) => PromotionNext::Done(PromotionEnd::NotComposed(f)),
            },
            (Promotion::Storing { composition }, PromotionEvent::Stored(result)) => match result {
                Ok(()) => PromotionNext::Write(Promotion::Writing { composition }),
                Err(f) => PromotionNext::Done(PromotionEnd::NotSaved(f)),
            },
            (Promotion::Writing { composition }, PromotionEvent::Written(result)) => match result {
                Ok(()) => {
                    self.inner = SessionInner::Active {
                        composition: Some(composition),
                        host: false,
                        sops: 0,
                    };
                    PromotionNext::Done(PromotionEnd::Materialized)
                },
                Err(f) => PromotionNext::Done(PromotionEnd::NotSaved(f)),
            },
            (p, _) => PromotionNext::Write(p),
        }
    }
}

impl Promotion {
    /// The composition to store, once there is one.
    pub fn composition(&self) -> (c: Option<&Composition>)
        ensures
            match *self {
                Promotion::Composing { .. } => c is None,
                Promotion::Storing { composition } => c == Some(&composition),
                Promotion::Writing { composition } => c == Some(&composition),
            },
    {
        match self {
            Promotion::Composing { .. } => None,
            Promotion::Storing { composition } => Some(composition),
            Promotion::Writing { composition } => Some(composition),
        }
    }
}

/// What the record says after an event of a promotion.
pub open spec fn status_after_promotion<T>(
    status: SessionStatus,
    event: PromotionEvent<T>,
) -> SessionStatus {
    match event {
        PromotionEvent::Written(Ok(_)) => SessionStatus::Materializing,
        _ => status,
    }
}

/// A promotion keeps a draft and its record consistent at every step, and one
/// that fails leaves the draft as it was: a refused verdict, or a store that
/// could not write, can be tried again.
pub proof fn law_a_failed_promotion_can_be_retried<T>(
    p: Promotion,
    inner: SessionInner,
    status: SessionStatus,
    event: PromotionEvent<T>,
)
    requires
        promotion_expects(p, event),
        inner is Draft,
        consistent(inner, status),
    ensures
        ({
            let (after, next) = promotion_step(p, inner, event);
            let written = status_after_promotion(status, event);
            &&& consistent(after, written)
            &&& (next is Done && (next->Done_0 is NotComposed || next->Done_0 is NotSaved)) ==> after
                == inner && written == status
            &&& after is Active <==> (next is Done && next->Done_0 is Materialized)
            &&& written == SessionStatus::Materializing <==> after is Active
        }),
{
}

/// What a client is asked before a loadout is complete, and the session that
/// its verdict goes to.
#[derive(Debug)]
pub struct ContributionResponse<T> {
    pub session_id: String,
    pub items: T,
}

/// What an ended promotion tells the one who asked for the loadout: what is
/// owed a verdict, under the id of the session, which the composer does not
/// know; nothing where the session is composed; or the fault.
pub fn configured<T>(end: PromotionEnd<T>, id: &str) -> (owed: Result<
    Option<ContributionResponse<T>>,
    Fault,
>)
    ensures
        match end {
            PromotionEnd::Materialized => owed matches Ok(None),
            PromotionEnd::VerdictOwed(items) => owed matches Ok(Some(r)) && r.session_id@ == id@
                && r.items == items,
            PromotionEnd::NotComposed(f) => owed matches Err(e) && e == f,
            PromotionEnd::NotSaved(f) => owed matches Err(e) && e == f,
        },
{
    match end {
        PromotionEnd::Materialized => Ok(None),
        PromotionEnd::VerdictOwed(items) => Ok(
            Some(ContributionResponse { session_id: id.to_owned(), items }),
        ),
        PromotionEnd::NotComposed(f) => Err(f),
        PromotionEnd::NotSaved(f) => Err(f),
    }
}

/// Why a verdict was not taken. The session stays as it was, so that another
/// can be given.
#[derive(Debug)]
pub enum VerdictFault {
    /// There is nothing that awaits one; what was found, in words.
    WrongState { what: String },
    /// The composition cannot be resumed with it.
    Rejected(Fault),
}

/// What a client that gave its verdict is told.
#[derive(Debug)]
pub enum SessionStep {
    /// The session of this id is composed; what that needs is to be uploaded.
    Materialized { id: String },
    Fault { error: VerdictFault },
}

/// Whether an answer is that the session of this id is composed.
pub open spec fn is_materialized(answer: Result<SessionStep, Fault>, id: Seq<char>) -> bool {
    answer matches Ok(SessionStep::Materialized { id: named }) && named@ == id
}

/// Whether a promotion that began upon a verdict can end so: it never asks for
/// another verdict.
pub open spec fn ends_a_verdict<T>(end: PromotionEnd<T>) -> bool {
    !(end is VerdictOwed)
}

/// What a verdict is answered once the promotion that it began has ended: that
/// the session is composed; a fault that the client can mend, where the
/// composition could not be resumed; or an error, where it could not be saved.
pub fn verdict_step<T>(end: PromotionEnd<T>, id: &str) -> (answer: Result<SessionStep, Fault>)
    requires
        ends_a_verdict(end),
    ensures
        match end {
            PromotionEnd::Materialized => is_materialized(answer, id@),
            PromotionEnd::NotComposed(f) => answer == Ok::<SessionStep, Fault>(
                SessionStep::Fault { error: VerdictFault::Rejected(f) },
            ),
            PromotionEnd::NotSaved(f) => answer == Err::<SessionStep, Fault>(f),
            PromotionEnd::VerdictOwed(_) => true,
        },
{
    match end {
        PromotionEnd::Materialized => Ok(SessionStep::Materialized { id: id.to_owned() }),
        PromotionEnd::NotComposed(f) => Ok(
            SessionStep::Fault { error: VerdictFault::Rejected(f) },
        ),
        PromotionEnd::NotSaved(f) => Err(f),
        PromotionEnd::VerdictOwed(_) => Ok(
            SessionStep::Fault {
                error: VerdictFault::WrongState { what: "a verdict is owed".to_owned() },
            },
        ),
    }
}

/// What a verdict is answered that there was nothing to resume for: what was
/// found in place of a composition that awaits one.
pub fn verdict_refused(what: String) -> (step: SessionStep)
    ensures
        step == (SessionStep::Fault { error: VerdictFault::WrongState { what } }),
{
    SessionStep::Fault { error: VerdictFault::WrongState { what } }
}

/// A verdict is answered for good: a promotion that it began ends without asking
/// for another, succeeds only once the record says so, and where it is answered
/// a fault the draft still awaits a verdict.
pub proof fn law_a_verdict_is_answered<T>(p: Promotion, event: PromotionEvent<T>)
    requires
        promotion_expects(p, event),
        p matches Promotion::Composing { resumed } ==> resumed,
    ensures
        ({
            let before = SessionInner::Draft { pending: true };
            let (after, next) = promotion_step(p, before, event);
            next matches PromotionNext::Done(end) ==> {
                &&& ends_a_verdict(end)
                &&& end is Materialized <==> after is Active
                &&& end is NotComposed || end is NotSaved ==> after == before
            }
        }),
{
}

/// A session that is being finalized: what the driver does next.
#[derive(Debug)]
pub enum FinalizeStage {
    /// Read the record.
    ReadRecord,
    /// Find out where the session's files are.
    ReadPaths,
    /// See whether the marker of the patches is there.
    CheckPatches { paths: SessionPaths, marker: String },
    /// See whether the marker of the hook scripts is there.
    CheckScripts { paths: SessionPaths, marker: String },
    /// Copy the patches into the session's home, one after the other.
    CopyPatches { copies: Vec<PatchCopy> },
    /// Write the record as `Active`.
    WriteRecord,
}

/// What the driver reports of a session that is being finalized.
#[derive(Debug)]
pub enum FinalizeEvent {
    Record(Result<SessionStatus, Fault>),
    Paths(Result<SessionPaths, Fault>),
    /// Whether the marker is there.
    Marker(Result<bool, Fault>),
    Copied(Result<(), Fault>),
    Written(Result<(), Fault>),
}

/// What finalizing came to.
#[derive(Debug)]
pub enum FinalizeNext {
    Do(FinalizeStage),
    /// It was done before: nothing is changed.
    AlreadyActive,
    /// The record is `Active`: its route is registered.
    Activated,
    Refused(Fault),
}

/// The events that a stage waits for.
pub open spec fn finalize_expects(stage: FinalizeStage, event: FinalizeEvent) -> bool {
    match stage {
        FinalizeStage::ReadRecord => event is Record,
        FinalizeStage::ReadPaths => event is Paths,
        FinalizeStage::CheckPatches { .. } => event is Marker,
        FinalizeStage::CheckScripts { .. } => event is Marker,
        FinalizeStage::CopyPatches { .. } => event is Copied,
        FinalizeStage::WriteRecord => event is Written,
    }
}

/// A session is refused with a fault of this kind that says this.
pub open spec fn refuses(next: FinalizeNext, kind: FaultKind, words: Seq<char>) -> bool {
    next matches FinalizeNext::Refused(f) && is_fault(f, kind, words)
}

/// The next stage copies every patch of the composition from where it is staged
/// to its place in the session's home.
pub open spec fn goes_to_copying(
    next: FinalizeNext,
    composition: Composition,
    paths: SessionPaths,
) -> bool {
    next matches FinalizeNext::Do(FinalizeStage::CopyPatches { copies }) && copy_texts(copies@)
        == copies_of(paths.patches@, paths.home@, text::texts(composition.patches@))
}

/// The next stage is the check of the hook scripts, where the composition has
/// any, and the copying of the patches where it has none.
pub open spec fn goes_past_patches(
    next: FinalizeNext,
    composition: Composition,
    paths: SessionPaths,
) -> bool {
    if composition.needs_scripts() {
        next matches FinalizeNext::Do(FinalizeStage::CheckScripts { paths: p, marker }) && p
            == paths && marker@ == paths::joined_path(paths.hooks@, HOOKS_READY_MARKER@)
    } else {
        goes_to_copying(next, composition, paths)
    }
}

/// What follows an event, for the composition that the session has.
pub open spec fn finalize_follows(
    stage: FinalizeStage,
    composition: Option<Composition>,
    event: FinalizeEvent,
    next: FinalizeNext,
) -> bool {
    match (stage, event) {
        (FinalizeStage::ReadRecord, FinalizeEvent::Record(Ok(status))) => match status {
            SessionStatus::Active => next is AlreadyActive,
            SessionStatus::Pending => refuses(
                next,
                FaultKind::InvalidInput,
                "session is Pending; configure the loadout first"@,
            ),
            SessionStatus::Materializing => if composition is Some {
                next matches FinalizeNext::Do(FinalizeStage::ReadPaths)
            } else {
                refuses(
                    next,
                    FaultKind::InvalidInput,
                    "session is Materializing but has no in-memory composition (restart-orphaned actor); destroy the session and re-activate"@,
                )
            },
        },
        (FinalizeStage::ReadPaths, FinalizeEvent::Paths(Ok(paths))) => composition matches Some(c)
            && if c.needs_patches() {
            next matches FinalizeNext::Do(FinalizeStage::CheckPatches { paths: p, marker }) && p
                == paths && marker@ == paths::joined_path(paths.patches@, PATCHES_READY_MARKER@)
        } else {
            goes_past_patches(next, c, paths)
        },
        (FinalizeStage::CheckPatches { paths, marker }, FinalizeEvent::Marker(found)) => match found {
            Ok(true) => composition matches Some(c) && goes_past_patches(next, c, paths),
            Ok(false) => refuses(
                next,
                FaultKind::InvalidInput,
                "patches upload never completed; cannot finalize (upload patches, then retry FinalizeSession)"@,
            ),
            Err(f) => refuses(
                next,
                f.kind,
                "checking patches-ready marker at "@ + marker@ + ": "@ + f.text@,
            ),
        },
        (FinalizeStage::CheckScripts { paths, marker }, FinalizeEvent::Marker(found)) => match found {
            Ok(true) => composition matches Some(c) && goes_to_copying(next, c, paths),
            Ok(false) => refuses(
                next,
                FaultKind::InvalidInput,
                "hook scripts upload never completed; cannot finalize (upload hook scripts, then retry FinalizeSession)"@,
            ),
            Err(f) => refuses(
                next,
                f.kind,
                "checking hooks-ready marker at "@ + marker@ + ": "@ + f.text@,
            ),
        },
        (FinalizeStage::CopyPatches { .. }, FinalizeEvent::Copied(Ok(_))) => next
            == FinalizeNext::Do(FinalizeStage::WriteRecord),
        (FinalizeStage::WriteRecord, FinalizeEvent::Written(Ok(_))) => next is Activated,
        (_, FinalizeEvent::Record(Err(f))) => next == FinalizeNext::Refused(f),
        (_, FinalizeEvent::Paths(Err(f))) => next == FinalizeNext::Refused(f),
        (_, FinalizeEvent::Copied(Err(f))) => next == FinalizeNext::Refused(f),
        (_, FinalizeEvent::Written(Err(f))) => next == FinalizeNext::Refused(f),
        _ => true,
    }
}

/// The composition that a session has.
pub open spec fn composition_of(inner: SessionInner) -> Option<Composition> {
    match inner {
        SessionInner::Active { composition, .. } => composition,
        SessionInner::Draft { .. } => None,
    }
}

impl Session {
    fn to_copying(&self, paths: SessionPaths) -> (next: FinalizeNext)
        requires
            composition_of(self.inner) is Some,
        ensures
            goes_to_copying(next, composition_of(self.inner)->0, paths),
    {
        let copies = match self.composition() {
            Some(c) => materialize_patches_into_home(
                &c.patches,
                paths.patches.as_str(),
                paths.home.as_str(),
            ),
            None => Vec::new(),
        };
        FinalizeNext::Do(FinalizeStage::CopyPatches { copies })
    }

    fn past_patches(&self, paths: SessionPaths) -> (next: FinalizeNext)
        requires
            composition_of(self.inner) is Some,
        ensures
            goes_past_patches(next, composition_of(self.inner)->0, paths),
    {
        let scripts = match self.composition() {
            Some(c) => c.has_external_hooks(),
            None => false,
        };
        if scripts {
            let marker = paths::join(paths.hooks.as_str(), HOOKS_READY_MARKER);
            FinalizeNext::Do(FinalizeStage::CheckScripts { paths, marker })
        } else {
            self.to_copying(paths)
        }
    }

    /// Takes finalizing a step further. It begins with reading the record; a
    /// session of which the record is `Active` already is left as it is, and
    /// what the composition needs must have been uploaded completely, as its
    /// markers show, before the record becomes `Active`.
    pub fn finalize(&self, stage: FinalizeStage, event: FinalizeEvent) -> (next: FinalizeNext)
        requires
            finalize_expects(stage, event),
            !(stage is ReadRecord) ==> composition_of(self.inner) is Some,
        ensures
            finalize_follows(stage, composition_of(self.inner), event, next),
    {
        match (stage, event) {
            (FinalizeStage::ReadRecord, FinalizeEvent::Record(Ok(status))) => match status {
                SessionStatus::Active => FinalizeNext::AlreadyActive,
                SessionStatus::Pending => FinalizeNext::Refused(
                    fault(
                        FaultKind::InvalidInput,
                        "session is Pending; configure the loadout first",
                    ),
                ),
                SessionStatus::Materializing => match self.composition() {
                    Some(_) => FinalizeNext::Do(FinalizeStage::ReadPaths),
                    None => FinalizeNext::Refused(
                        fault(
                            FaultKind::InvalidInput,
                            "session is Materializing but has no in-memory composition (restart-orphaned actor); destroy the session and re-activate",
                        ),
                    ),
                },
            },
            (FinalizeStage::ReadPaths, FinalizeEvent::Paths(Ok(paths))) => {
                let patched = match self.composition() {
                    Some(c) => c.has_patches(),
                    None => false,
                };
                if patched {
                    let marker = paths::join(paths.patches.as_str(), PATCHES_READY_MARKER);
                    FinalizeNext::Do(FinalizeStage::CheckPatches { paths, marker })
                } else {
                    self.past_patches(paths)
                }
            },
            (FinalizeStage::CheckPatches { paths, marker }, FinalizeEvent::Marker(found)) => {
                match found {
                    Ok(true) => self.past_patches(paths),
                    Ok(false) => FinalizeNext::Refused(
                        fault(
                            FaultKind::InvalidInput,
                            "patches upload never completed; cannot finalize (upload patches, then retry FinalizeSession)",
                        ),
                    ),
                    Err(f) => FinalizeNext::Refused(
                        Fault {
                            kind: f.kind,
                            text: text::cat4(
                                "checking patches-ready marker at ",
                                marker.as_str(),
                                ": ",
                                f.text.as_str(),
                            ),
                        },
                    ),
                }
            },
            (FinalizeStage::CheckScripts { paths, marker }, FinalizeEvent::Marker(found)) => {
                match found {
                    Ok(true) => self.to_copying(paths),
                    Ok(false) => FinalizeNext::Refused(
                        fault(
                            FaultKind::InvalidInput,
                            "hook scripts upload never completed; cannot finalize (upload hook scripts, then retry FinalizeSession)",
                        ),
                    ),
                    Err(f) => FinalizeNext::Refused(
                        Fault {
                            kind: f.kind,
                            text: text::cat4(
                                "checking hooks-ready marker at ",
                                marker.as_str(),
                                ": ",
                                f.text.as_str(),
                            ),
                        },
                    ),
                }
            },
            (FinalizeStage::CopyPatches { .. }, FinalizeEvent::Copied(Ok(()))) => {
                FinalizeNext::Do(FinalizeStage::WriteRecord)
            },
            (FinalizeStage::WriteRecord, FinalizeEvent::Written(Ok(()))) => FinalizeNext::Activated,
            (_, FinalizeEvent::Record(Err(f))) => FinalizeNext::Refused(f),
            (_, FinalizeEvent::Paths(Err(f))) => FinalizeNext::Refused(f),
            (_, FinalizeEvent::Copied(Err(f))) => FinalizeNext::Refused(f),
            (_, FinalizeEvent::Written(Err(f))) => FinalizeNext::Refused(f),
            (stage, _) => FinalizeNext::Do(stage),
        }
    }
}

/// Finalizing a session that is active changes nothing and succeeds, so that
/// it can be asked for again.
pub proof fn law_finalizing_twice_is_finalizing_once(
    composition: Option<Composition>,
    next: FinalizeNext,
)
    requires
        finalize_follows(
            FinalizeStage::ReadRecord,
            composition,
            FinalizeEvent::Record(Ok(SessionStatus::Active)),
            next,
        ),
    ensures
        next is AlreadyActive,
{
}

/// A run of finalizing: what the driver reported, in order, with the stage
/// that each report was made at.
pub open spec fn is_finalizing(
    composition: Option<Composition>,
    steps: Seq<(FinalizeStage, FinalizeEvent, FinalizeNext)>,
) -> bool {
    &&& steps.len() > 0
    &&& steps[0].0 is ReadRecord
    &&& forall|i: int|
        0 <= i < steps.len() ==> finalize_expects((#[trigger] steps[i]).0, steps[i].1)
            && finalize_follows(steps[i].0, composition, steps[i].1, steps[i].2)
    &&& forall|i: int|
        0 < i < steps.len() ==> steps[i - 1].2 == FinalizeNext::Do((#[trigger] steps[i]).0)
}

/// Whether the marker at this place was found.
pub open spec fn found_marker(
    steps: Seq<(FinalizeStage, FinalizeEvent, FinalizeNext)>,
    scripts: bool,
) -> bool {
    exists|i: int|
        0 <= i < steps.len() && (#[trigger] steps[i]).1 == FinalizeEvent::Marker(Ok(true)) && (
        if scripts {
            steps[i].0 is CheckScripts
        } else {
            steps[i].0 is CheckPatches
        })
}

/// How far a stage of a run can be, and what was found by then.
proof fn lemma_stages_follow_the_markers(
    composition: Option<Composition>,
    steps: Seq<(FinalizeStage, FinalizeEvent, FinalizeNext)>,
    n: int,
)
    requires
        is_finalizing(composition, steps),
        0 <= n < steps.len(),
    ensures
        !(steps[n].0 is ReadRecord) ==> composition is Some && steps[0].1
            == FinalizeEvent::Record(Ok(SessionStatus::Materializing)),
        (steps[n].0 is CheckScripts || steps[n].0 is CopyPatches || steps[n].0 is WriteRecord) ==> (
        composition->0.needs_patches() ==> found_marker(steps, false)),
        (steps[n].0 is CopyPatches || steps[n].0 is WriteRecord) ==> (
        composition->0.needs_scripts() ==> found_marker(steps, true)),
    decreases n,
{
    if n > 0 {
        lemma_stages_follow_the_markers(composition, steps, n - 1);
        assert(steps[n - 1].2 == FinalizeNext::Do(steps[n].0));
        assert(finalize_expects(steps[n - 1].0, steps[n - 1].1));
        assert(finalize_follows(steps[n - 1].0, composition, steps[n - 1].1, steps[n - 1].2));
        if steps[n - 1].0 is ReadRecord && n - 1 > 0 {
            assert(steps[n - 2].2 == FinalizeNext::Do(steps[n - 1].0));
            assert(finalize_expects(steps[n - 2].0, steps[n - 2].1));
            assert(finalize_follows(steps[n - 2].0, composition, steps[n - 2].1, steps[n - 2].2));
        }
    }
}

/// A session becomes active only from being materialized, and only if the
/// marker of a complete upload was found for everything that its composition
/// needs to have uploaded.
pub proof fn law_only_complete_uploads_are_activated(
    composition: Option<Composition>,
    steps: Seq<(FinalizeStage, FinalizeEvent, FinalizeNext)>,
)
    requires
        is_finalizing(composition, steps),
        steps.last().2 is Activated,
    ensures
        composition is Some,
        steps[0].1 == FinalizeEvent::Record(Ok(SessionStatus::Materializing)),
        composition->0.needs_patches() ==> found_marker(steps, false),
        composition->0.needs_scripts() ==> found_marker(steps, true),
{
    let n = steps.len() - 1;
    assert(finalize_expects(steps[n].0, steps[n].1));
    assert(finalize_follows(steps[n].0, composition, steps[n].1, steps[n].2));
    lemma_stages_follow_the_markers(composition, steps, n);
}

/// One patch to copy: from where it was staged to where it goes.
#[derive(Debug)]
pub struct PatchCopy {
    pub source: String,
    pub target: String,
}

/// What is copied where: each patch from under the staged patches to the same
/// place under the session's home.
pub open spec fn copies_of(patches_dir: Seq<char>, home: Seq<char>, patches: Seq<Seq<char>>) -> Seq<
    (Seq<char>, Seq<char>),
> {
    patches.map_values(
        |p: Seq<char>| (paths::joined_path(patches_dir, p), paths::joined_path(home, p)),
    )
}

/// The copies as texts.
pub open spec fn copy_texts(copies: Seq<PatchCopy>) -> Seq<(Seq<char>, Seq<char>)> {
    copies.map_values(|c: PatchCopy| (c.source@, c.target@))
}

/// What is copied into the session's home, in order. Each copy makes the
/// target's directory first, and the first one that fails is the last.
pub fn materialize_patches_into_home(
    patches: &Vec<String>,
    patches_dir: &str,
    home: &str,
) -> (copies: Vec<PatchCopy>)
    ensures
        copy_texts(copies@) == copies_of(patches_dir@, home@, text::texts(patches@)),
{
    let mut copies: Vec<PatchCopy> = Vec::new();
    let mut i: usize = 0;
    while i < patches.len()
        invariant
            i <= patches@.len(),
            copy_texts(copies@) == copies_of(patches_dir@, home@, text::texts(patches@.take(i as int))),
        decreases patches@.len() - i,
    {
        let rel = patches[i].as_str();
        let ghost before = copies@;
        copies.push(
            PatchCopy { source: paths::join(patches_dir, rel), target: paths::join(home, rel) },
        );
        proof {
            assert(copy_texts(copies@) =~= copy_texts(before).push(
                (copies@.last().source@, copies@.last().target@),
            ));
            let shorter = text::texts(patches@.take(i as int));
            let longer = text::texts(patches@.take(i + 1));
            assert(longer =~= shorter.push(patches@[i as int]@));
            assert(copies_of(patches_dir@, home@, longer) =~= copies_of(
                patches_dir@,
                home@,
                shorter,
            ).push(
                (
                    paths::joined_path(patches_dir@, patches@[i as int]@),
                    paths::joined_path(home@, patches@[i as int]@),
                ),
            ));
        }
        i = i + 1;
    }
    assert(patches@.take(i as int) =~= patches@);
    copies
}

/// What is said of a patch that could not be copied. The fault keeps its kind.
pub fn copy_failed(copy: &PatchCopy, f: Fault) -> (out: Fault)
    ensures
        is_fault(
            out,
            f.kind,
            "materializing patch "@ + copy.source@ + " \u{2192} "@ + copy.target@ + ": "@ + f.text@,
        ),
{
    let what = text::cat4(
        "materializing patch ",
        copy.source.as_str(),
        " \u{2192} ",
        copy.target.as_str(),
    );
    Fault { kind: f.kind, text: text::cat3(what.as_str(), ": ", f.text.as_str()) }
}

/// Whether these copies bring every patch of a composition, in order, from where
/// it was staged to the same place in the session's home.
pub open spec fn brings_every_patch(
    copies: Seq<PatchCopy>,
    composition: Composition,
    paths: SessionPaths,
) -> bool {
    &&& copies.len() == composition.patches@.len()
    &&& forall|k: int|
        0 <= k < copies.len() ==> (#[trigger] copies[k]).source@ == paths::joined_path(
            paths.patches@,
            composition.patches@[k]@,
        ) && copies[k].target@ == paths::joined_path(paths.home@, composition.patches@[k]@)
}

/// Whether the session's paths were told in the first `n` steps of a run.
pub open spec fn told_paths(
    steps: Seq<(FinalizeStage, FinalizeEvent, FinalizeNext)>,
    n: int,
    paths: SessionPaths,
) -> bool {
    exists|j: int|
        0 <= j < n && (#[trigger] steps[j]).1 == FinalizeEvent::Paths(Ok(paths))
}

/// Whether a step of a run has copied every patch.
pub open spec fn copied_at(
    composition: Composition,
    steps: Seq<(FinalizeStage, FinalizeEvent, FinalizeNext)>,
    i: int,
) -> bool {
    &&& steps[i].0 is CopyPatches
    &&& steps[i].1 == FinalizeEvent::Copied(Ok(()))
    &&& exists|paths: SessionPaths|
        #[trigger] told_paths(steps, i, paths) && brings_every_patch(
            steps[i].0->CopyPatches_copies@,
            composition,
            paths,
        )
}

proof fn lemma_copies_bring_every_patch(
    copies: Seq<PatchCopy>,
    composition: Composition,
    paths: SessionPaths,
)
    requires
        copy_texts(copies) == copies_of(
            paths.patches@,
            paths.home@,
            text::texts(composition.patches@),
        ),
    ensures
        brings_every_patch(copies, composition, paths),
{
    let all = text::texts(composition.patches@);
    assert(copy_texts(copies).len() == copies.len());
    assert(copies_of(paths.patches@, paths.home@, all).len() == all.len());
    assert forall|k: int| 0 <= k < copies.len() implies (#[trigger] copies[k]).source@
        == paths::joined_path(paths.patches@, composition.patches@[k]@) && copies[k].target@
        == paths::joined_path(paths.home@, composition.patches@[k]@) by {
        assert(copy_texts(copies)[k] == (copies[k].source@, copies[k].target@));
        assert(copies_of(paths.patches@, paths.home@, all)[k] == copy_texts(copies)[k]);
        assert(all[k] == composition.patches@[k]@);
    }
}

proof fn lemma_writing_follows_copying(
    composition: Option<Composition>,
    steps: Seq<(FinalizeStage, FinalizeEvent, FinalizeNext)>,
    n: int,
)
    requires
        is_finalizing(composition, steps),
        0 <= n < steps.len(),
    ensures
        !(steps[n].0 is ReadRecord) ==> composition is Some,
        steps[n].0 matches FinalizeStage::CheckPatches { paths, marker } ==> told_paths(
            steps,
            n,
            paths,
        ),
        steps[n].0 matches FinalizeStage::CheckScripts { paths, marker } ==> told_paths(
            steps,
            n,
            paths,
        ),
        steps[n].0 is CopyPatches ==> exists|paths: SessionPaths|
            #[trigger] told_paths(steps, n, paths) && brings_every_patch(
                steps[n].0->CopyPatches_copies@,
                composition->0,
                paths,
            ),
        steps[n].0 is WriteRecord ==> exists|i: int|
            0 <= i < n && #[trigger] copied_at(composition->0, steps, i),
    decreases n,
{
    if n > 0 {
        lemma_writing_follows_copying(composition, steps, n - 1);
        lemma_stages_follow_the_markers(composition, steps, n);
        let (stage, event, next) = steps[n - 1];
        assert(next == FinalizeNext::Do(steps[n].0));
        assert(finalize_expects(stage, event));
        assert(finalize_follows(stage, composition, event, next));
        match (stage, event) {
            (FinalizeStage::ReadPaths, FinalizeEvent::Paths(Ok(paths))) => {
                assert(steps[n - 1].1 == FinalizeEvent::Paths(Ok(paths)));
                assert(told_paths(steps, n, paths));
                if steps[n].0 is CopyPatches {
                    lemma_copies_bring_every_patch(
                        steps[n].0->CopyPatches_copies@,
                        composition->0,
                        paths,
                    );
                }
            },
            (FinalizeStage::CheckPatches { paths, marker }, FinalizeEvent::Marker(Ok(true))) => {
                lemma_told_paths_stay(steps, n - 1, n, paths);
                if steps[n].0 is CopyPatches {
                    lemma_copies_bring_every_patch(
                        steps[n].0->CopyPatches_copies@,
                        composition->0,
                        paths,
                    );
                }
            },
            (FinalizeStage::CheckScripts { paths, marker }, FinalizeEvent::Marker(Ok(true))) => {
                lemma_told_paths_stay(steps, n - 1, n, paths);
                if steps[n].0 is CopyPatches {
                    lemma_copies_bring_every_patch(
                        steps[n].0->CopyPatches_copies@,
                        composition->0,
                        paths,
                    );
                }
            },
            (FinalizeStage::CopyPatches { copies }, FinalizeEvent::Copied(Ok(done))) => {
                assert(done == ());
                assert(copied_at(composition->0, steps, n - 1));
            },
            _ => {},
        }
    }
}

proof fn lemma_told_paths_stay(
    steps: Seq<(FinalizeStage, FinalizeEvent, FinalizeNext)>,
    n: int,
    m: int,
    paths: SessionPaths,
)
    requires
        n <= m,
        told_paths(steps, n, paths),
    ensures
        told_paths(steps, m, paths),
{
    let j = choose|j: int|
        0 <= j < n && (#[trigger] steps[j]).1 == FinalizeEvent::Paths(Ok(paths));
    assert(steps[j].1 == FinalizeEvent::Paths(Ok(paths)));
}

/// A session becomes active only once every patch of its composition was copied
/// from where it was staged into its home.
pub proof fn law_patches_are_in_place_before_a_session_is_active(
    composition: Option<Composition>,
    steps: Seq<(FinalizeStage, FinalizeEvent, FinalizeNext)>,
)
    requires
        is_finalizing(composition, steps),
        steps.last().2 is Activated,
    ensures
        composition is Some,
        exists|i: int|
            0 <= i < steps.len() && #[trigger] copied_at(composition->0, steps, i),
        steps.last().0 is WriteRecord && steps.last().1 == FinalizeEvent::Written(Ok(())),
{
    let n = steps.len() - 1;
    let (stage, event, next) = steps[n];
    assert(finalize_expects(stage, event));
    assert(finalize_follows(stage, composition, event, next));
    lemma_writing_follows_copying(composition, steps, n);
    let i = choose|i: int| 0 <= i < n && #[trigger] copied_at(composition->0, steps, i);
    assert(copied_at(composition->0, steps, i));
    assert(event matches FinalizeEvent::Written(Ok(done)) && done == ());
}

/// The fault that a report of finalizing is of, if it is of one.
pub open spec fn reported_fault(event: FinalizeEvent) -> Option<Fault> {
    match event {
        FinalizeEvent::Record(Err(f)) => Some(f),
        FinalizeEvent::Paths(Err(f)) => Some(f),
        FinalizeEvent::Marker(Err(f)) => Some(f),
        FinalizeEvent::Copied(Err(f)) => Some(f),
        FinalizeEvent::Written(Err(f)) => Some(f),
        _ => None,
    }
}

/// Finalizing is refused exactly where it cannot go on: for a fault that was
/// reported, which the refusal hands on by kind and in words, for a marker that
/// is not there, and for a session that has nothing to finalize. In all other
/// cases it goes on, is over, or was over before.
pub proof fn law_finalizing_stops_only_for_a_reason(
    stage: FinalizeStage,
    composition: Option<Composition>,
    event: FinalizeEvent,
    next: FinalizeNext,
)
    requires
        finalize_expects(stage, event),
        !(stage is ReadRecord) ==> composition is Some,
        finalize_follows(stage, composition, event, next),
    ensures
        next is Refused <==> {
            ||| reported_fault(event) is Some
            ||| event == FinalizeEvent::Marker(Ok(false))
            ||| event == FinalizeEvent::Record(Ok(SessionStatus::Pending))
            ||| event == FinalizeEvent::Record(Ok(SessionStatus::Materializing)) && composition
                is None
        },
        reported_fault(event) matches Some(f) ==> next->Refused_0.kind == f.kind
            && f.text@.is_suffix_of(next->Refused_0.text@),
        next is Refused && reported_fault(event) is None ==> next->Refused_0.kind
            == FaultKind::InvalidInput,
        next is AlreadyActive <==> event == FinalizeEvent::Record(Ok(SessionStatus::Active)),
        next is Activated <==> (event matches FinalizeEvent::Written(Ok(_))),
{
    if let Some(f) = reported_fault(event) {
        let words = next->Refused_0.text@;
        assert(f.text@ =~= words.subrange(words.len() - f.text@.len(), words.len() as int));
    }
}

/// Finalizing goes through its stages in order: the record, the paths, the
/// marker of the patches where there are any, that of the scripts where there
/// are any, the copying, the record again. Each marker is looked for where its
/// upload leaves it.
pub proof fn law_finalizing_goes_in_order(
    stage: FinalizeStage,
    composition: Composition,
    event: FinalizeEvent,
    next: FinalizeNext,
)
    requires
        finalize_expects(stage, event),
        finalize_follows(stage, Some(composition), event, next),
        next is Do,
    ensures
        ({
            let to = next->Do_0;
            let patches = composition.patches@.len() > 0;
            let scripts = exists|i: int|
                0 <= i < composition.hooks@.len() && has_external_script(
                    #[trigger] composition.hooks@[i],
                );
            &&& stage is ReadRecord ==> to is ReadPaths
            &&& to is ReadPaths ==> event == FinalizeEvent::Record(
                Ok(SessionStatus::Materializing),
            )
            &&& stage is ReadPaths ==> if patches {
                to is CheckPatches
            } else if scripts {
                to is CheckScripts
            } else {
                to is CopyPatches
            }
            &&& stage is CheckPatches ==> if scripts {
                to is CheckScripts
            } else {
                to is CopyPatches
            }
            &&& stage is CheckScripts ==> to is CopyPatches
            &&& stage is CopyPatches ==> to is WriteRecord
            &&& to is WriteRecord ==> stage is CopyPatches
            &&& !(stage is WriteRecord)
            &&& to matches FinalizeStage::CheckPatches { paths, marker } ==> marker@
                == paths::joined_path(paths.patches@, ".patches_ready"@)
            &&& to matches FinalizeStage::CheckScripts { paths, marker } ==> marker@
                == paths::joined_path(paths.hooks@, ".hooks_ready"@)
        }),
{
}

/// A composition goes from the composer to the store, to the record, and into the
/// session as it is, each step only once the one before it has worked; a verdict
/// that is owed is owed on what the composer asked; and a fault is the one that
/// was met.
pub proof fn law_a_composition_is_kept_as_it_was_composed<T>(
    inner: SessionInner,
    composition: Composition,
    items: T,
    f: Fault,
    resumed: bool,
)
    ensures
        promotion_step(
            Promotion::Composing { resumed },
            inner,
            PromotionEvent::<T>::Composed(ComposeOutcome::Ready(composition)),
        ) == (inner, PromotionNext::<T>::Store(Promotion::Storing { composition })),
        promotion_step(
            Promotion::Storing { composition },
            inner,
            PromotionEvent::<T>::Stored(Ok(())),
        ) == (inner, PromotionNext::<T>::Write(Promotion::Writing { composition })),
        promotion_step(
            Promotion::Writing { composition },
            inner,
            PromotionEvent::<T>::Written(Ok(())),
        ) == (
            SessionInner::Active { composition: Some(composition), host: false, sops: 0 },
            PromotionNext::<T>::Done(PromotionEnd::Materialized),
        ),
        promotion_step(
            Promotion::Composing { resumed },
            inner,
            PromotionEvent::Composed(ComposeOutcome::Pending(items)),
        ) == (
            SessionInner::Draft { pending: true },
            PromotionNext::Done(PromotionEnd::VerdictOwed(items)),
        ),
        promotion_step(
            Promotion::Composing { resumed },
            inner,
            PromotionEvent::<T>::Composed(ComposeOutcome::Failed(f)),
        ) == (inner, PromotionNext::<T>::Done(PromotionEnd::NotComposed(f))),
        promotion_step(
            Promotion::Storing { composition },
            inner,
            PromotionEvent::<T>::Stored(Err(f)),
        ) == (inner, PromotionNext::<T>::Done(PromotionEnd::NotSaved(f))),
        promotion_step(
            Promotion::Writing { composition },
            inner,
            PromotionEvent::<T>::Written(Err(f)),
        ) == (inner, PromotionNext::<T>::Done(PromotionEnd::NotSaved(f))),
{
}

/// A loadout can be configured, and a verdict given, each in one state only: the
/// one by a draft that awaits nothing, the other by a draft that awaits a
/// verdict. No session takes both.
pub proof fn law_a_draft_takes_a_loadout_or_a_verdict(
    s: &Session,
    loadout: Result<Promotion, Fault>,
    verdict: Result<Promotion, String>,
)
    requires
        call_ensures(Session::configure_loadout, (s,), loadout),
        call_ensures(Session::submit_verdict, (s,), verdict),
    ensures
        loadout is Ok <==> s.inner == (SessionInner::Draft { pending: false }),
        verdict is Ok <==> s.inner == (SessionInner::Draft { pending: true }),
        loadout is Ok ==> loadout->Ok_0 == (Promotion::Composing { resumed: false }),
        verdict is Ok ==> verdict->Ok_0 == (Promotion::Composing { resumed: true }),
        s.inner is Active ==> loadout->Err_0.kind == FaultKind::AlreadyExists,
        s.inner == (SessionInner::Draft { pending: true }) ==> loadout->Err_0.kind
            == FaultKind::WouldBlock,
{
}

/// Whoever asked for a loadout, or gave a verdict, is told what came of it: that
/// it is composed, what is owed a verdict, or the fault that was met; each under
/// the id of the session.
pub proof fn law_what_came_of_a_promotion_is_told<T>(
    end: PromotionEnd<T>,
    id: &str,
    owed: Result<Option<ContributionResponse<T>>, Fault>,
    answer: Result<SessionStep, Fault>,
)
    requires
        call_ensures(configured::<T>, (end, id), owed),
        !(end is VerdictOwed) ==> call_ensures(verdict_step::<T>, (end, id), answer),
    ensures
        owed matches Ok(None) <==> end is Materialized,
        owed matches Ok(Some(r)) <==> end is VerdictOwed,
        owed is Ok && owed->Ok_0 is Some ==> owed->Ok_0->0.session_id@ == id@
            && owed->Ok_0->0.items == end->VerdictOwed_0,
        end matches PromotionEnd::NotComposed(f) ==> owed is Err && owed->Err_0 == f
            && answer is Ok && answer->Ok_0 == (SessionStep::Fault {
            error: VerdictFault::Rejected(f),
        }),
        end matches PromotionEnd::NotSaved(f) ==> owed is Err && owed->Err_0 == f && answer is Err
            && answer->Err_0 == f,
        end is Materialized ==> answer is Ok && answer->Ok_0 is Materialized
            && answer->Ok_0->Materialized_id@ == id@,
{
}

/// What finalizing is refused with says what is missing, and names the marker
/// that could not be looked for.
pub proof fn law_a_refused_finalization_says_what_is_missing(
    stage: FinalizeStage,
    composition: Option<Composition>,
    event: FinalizeEvent,
    next: FinalizeNext,
)
    requires
        finalize_expects(stage, event),
        !(stage is ReadRecord) ==> composition is Some,
        finalize_follows(stage, composition, event, next),
        next is Refused,
    ensures
        ({
            let words = next->Refused_0.text@;
            &&& event == FinalizeEvent::Record(Ok(SessionStatus::Pending)) ==> words
                == "session is Pending; configure the loadout first"@
            &&& event == FinalizeEvent::Record(Ok(SessionStatus::Materializing)) ==> words
                == "session is Materializing but has no in-memory composition (restart-orphaned actor); destroy the session and re-activate"@
            &&& stage is CheckPatches && event == FinalizeEvent::Marker(Ok(false)) ==> words
                == "patches upload never completed; cannot finalize (upload patches, then retry FinalizeSession)"@
            &&& stage is CheckScripts && event == FinalizeEvent::Marker(Ok(false)) ==> words
                == "hook scripts upload never completed; cannot finalize (upload hook scripts, then retry FinalizeSession)"@
            &&& stage is CheckPatches && event->Marker_0 is Err ==> words
                == "checking patches-ready marker at "@ + stage->CheckPatches_marker@ + ": "@
                + event->Marker_0->Err_0.text@
            &&& stage is CheckScripts && event->Marker_0 is Err ==> words
                == "checking hooks-ready marker at "@ + stage->CheckScripts_marker@ + ": "@
                + event->Marker_0->Err_0.text@
            &&& event is Record && event->Record_0 is Err ==> next->Refused_0
                == event->Record_0->Err_0
            &&& event is Paths && event->Paths_0 is Err ==> next->Refused_0 == event->Paths_0->Err_0
            &&& event is Copied && event->Copied_0 is Err ==> next->Refused_0
                == event->Copied_0->Err_0
            &&& event is Written && event->Written_0 is Err ==> next->Refused_0
                == event->Written_0->Err_0
        }),
{
}

/// What a loadout or a verdict is refused with says what the session is in, and
/// a verdict that was refused hands that on.
pub proof fn law_a_refused_loadout_says_why(
    s: &Session,
    loadout: Result<Promotion, Fault>,
    verdict: Result<Promotion, String>,
    what: String,
    told: SessionStep,
)
    requires
        call_ensures(Session::configure_loadout, (s,), loadout),
        call_ensures(Session::submit_verdict, (s,), verdict),
        call_ensures(verdict_refused, (what,), told),
    ensures
        s.inner is Active ==> loadout->Err_0.text@ == "session loadout is already configured"@,
        s.inner is Active ==> verdict->Err_0@ == "expected Pending, found Active"@,
        s.inner == (SessionInner::Draft { pending: true }) ==> loadout->Err_0.text@
            == "session already has a pending contribution awaiting SubmitVerdict; abort it and create a new session to retry"@,
        s.inner == (SessionInner::Draft { pending: false }) ==> verdict->Err_0@
            == "expected Pending, found a session with no composition to resume"@,
        told is Fault && told->error is WrongState && told->error->what == what,
{
}

/// What [`Session::promote`] does is what is said of a promotion here.
pub proof fn law_a_promotion_goes_as_stated<T>(
    p: Promotion,
    event: PromotionEvent<T>,
    next: PromotionNext<T>,
)
    ensures
        forall|s: &mut Session| #[trigger]
            call_ensures(Session::promote::<T>, (s, p, event), next) ==> (final(s).inner, next)
                == promotion_step(p, s.inner, event),
{
}

/// Once the marker of the hook scripts was found, [`Session::finalize`] goes on
/// to copy the patches, every one of them, from where it was staged to the same
/// place in the session's home.
pub proof fn law_patches_are_copied_behind_the_scripts(
    s: &Session,
    composition: Composition,
    host: bool,
    sops: usize,
    paths: SessionPaths,
    marker: String,
    next: FinalizeNext,
)
    requires
        s.inner == (SessionInner::Active { composition: Some(composition), host, sops }),
        call_ensures(
            Session::finalize,
            (
                s,
                FinalizeStage::CheckScripts { paths, marker },
                FinalizeEvent::Marker(Ok(true)),
            ),
            next,
        ),
    ensures
        next is Do,
        next->Do_0 is CopyPatches,
        ({
            let copies = next->Do_0->copies@;
            &&& copies.len() == composition.patches@.len()
            &&& forall|i: int|
                0 <= i < copies.len() ==> (#[trigger] copies[i]).source@ == paths::joined_path(
                    paths.patches@,
                    composition.patches@[i]@,
                ) && copies[i].target@ == paths::joined_path(paths.home@, composition.patches@[i]@)
        }),
{
    let copies = next->Do_0->copies@;
    let all = copies_of(paths.patches@, paths.home@, text::texts(composition.patches@));
    assert(copy_texts(copies).len() == copies.len());
    assert(all.len() == composition.patches@.len());
    assert forall|i: int| 0 <= i < copies.len() implies (#[trigger] copies[i]).source@
        == paths::joined_path(paths.patches@, composition.patches@[i]@) && copies[i].target@
        == paths::joined_path(paths.home@, composition.patches@[i]@) by {
        assert(copy_texts(copies)[i] == (copies[i].source@, copies[i].target@));
        assert(all[i] == (
            paths::joined_path(paths.patches@, text::texts(composition.patches@)[i]),
            paths::joined_path(paths.home@, text::texts(composition.patches@)[i]),
        ));
    }
}

/// What [`Session::finalize`] does is what is said of finalizing here, and a
/// patch that could not be copied is named with where it was to go.
pub proof fn law_finalizing_goes_as_stated(
    s: &Session,
    stage: FinalizeStage,
    event: FinalizeEvent,
    next: FinalizeNext,
    copy: &PatchCopy,
    f: Fault,
    told: Fault,
    p: &Promotion,
    held: Option<&Composition>,
)
    requires
        call_ensures(Session::finalize, (s, stage, event), next),
        call_ensures(copy_failed, (copy, f), told),
        call_ensures(Promotion::composition, (p,), held),
    ensures
        s.inner is Draft ==> finalize_follows(stage, None, event, next),
        s.inner is Active ==> finalize_follows(stage, s.inner->composition, event, next),
        told.kind == f.kind,
        told.text@ == "materializing patch "@ + copy.source@ + " \u{2192} "@ + copy.target@ + ": "@
            + f.text@,
        p is Composing ==> held is None,
        p is Storing ==> held is Some && *held->0 == p->Storing_composition,
        p is Writing ==> held is Some && *held->0 == p->Writing_composition,
{
}

} // verus!
