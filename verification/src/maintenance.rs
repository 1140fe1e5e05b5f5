//! Housekeeping: when the cache is cleaned, what a clean may touch, and when
//! the space that it freed is handed back.
//!
//! One clean runs at a time, whoever asked for it: the clock, or a caller that
//! waits for the answer.
use vstd::prelude::*;
use vstd::string::*;

use crate::paths;
use crate::rpc::{CleanReport, Fault, FaultKind};
use crate::session::{fault, is_fault};

verus! {

/// How long after the daemon came up the first clean is due, in nanoseconds.
pub const STARTUP_DELAY: u128 = 300_000_000_000;

/// How long after a clean the next one is due, in nanoseconds.
pub const CLEAN_INTERVAL: u128 = 21_600_000_000_000;

/// How long an entry must have gone unread before it is reclaimed, in seconds,
/// unless a caller says otherwise.
pub const UNUSED_FOR: u64 = 432_000;

/// What the housekeeping wakes up for.
#[derive(Clone, Copy, PartialEq, Eq, Structural, Debug)]
pub enum Wakeup {
    /// The daemon goes down.
    Shutdown,
    /// Nobody can ask for a clean any more.
    Closed,
    /// A caller asks for a clean of what went unread for so many seconds.
    CleanNow { older_than: Option<u64> },
    /// A clean is due.
    Tick,
}

/// What waits in the mailbox.
#[derive(Clone, Copy, PartialEq, Eq, Structural, Debug)]
pub enum Mailbox {
    Empty,
    Closed,
    Request { older_than: Option<u64> },
}

/// What the housekeeping wakes up for, if for anything: going down before a
/// request, and a request before the clock.
pub open spec fn wakes_for(shutdown: bool, mailbox: Mailbox, due: bool) -> Option<Wakeup> {
    if shutdown {
        Some(Wakeup::Shutdown)
    } else {
        match mailbox {
            Mailbox::Closed => Some(Wakeup::Closed),
            Mailbox::Request { older_than } => Some(Wakeup::CleanNow { older_than }),
            Mailbox::Empty => if due {
                Some(Wakeup::Tick)
            } else {
                None
            },
        }
    }
}

/// What the housekeeping does.
#[derive(Debug)]
pub enum MaintenanceStage {
    /// It waits for something to wake up for.
    Idle,
    /// A clean runs; `requested` says that a caller waits for it.
    Cleaning { requested: bool },
    /// What the clean freed is handed back.
    Trimming { requested: bool, report: Result<CleanReport, Fault> },
    /// The caller is answered.
    Answering { report: Result<CleanReport, Fault> },
    Stopped,
}

/// The housekeeping, with the time at which the next clean is due.
#[derive(Debug)]
pub struct Maintenance {
    pub stage: MaintenanceStage,
    pub next_tick: u128,
}

/// What the driver reports.
#[derive(Debug)]
pub enum MaintenanceEvent {
    Woke(Wakeup),
    /// A clean ended, at this time, with a data volume mounted or not.
    Cleaned { report: Result<CleanReport, Fault>, mounted: bool, now: u128 },
    /// The trim is over, whatever came of it.
    Trimmed { now: u128 },
    Answered { now: u128 },
}

/// What the driver does next.
#[derive(Clone, Copy, PartialEq, Eq, Structural, Debug)]
pub enum MaintenanceAction {
    /// Wait to be woken up.
    Wait,
    /// Clean what went unread for so many seconds.
    Clean { older_than: u64 },
    /// Hand freed space back.
    Trim,
    /// Answer the caller with the report that is held.
    Answer,
    Stop,
}

/// The events that a stage waits for, at times that leave room for the next
/// clean.
pub open spec fn maintenance_expects(stage: MaintenanceStage, event: MaintenanceEvent) -> bool {
    match event {
        MaintenanceEvent::Woke(_) => stage is Idle,
        MaintenanceEvent::Cleaned { now, .. } => stage is Cleaning && now + CLEAN_INTERVAL
            <= u128::MAX,
        MaintenanceEvent::Trimmed { now } => stage is Trimming && now + CLEAN_INTERVAL
            <= u128::MAX,
        MaintenanceEvent::Answered { now } => stage is Answering && now + CLEAN_INTERVAL
            <= u128::MAX,
    }
}

/// A clean is over at this time: a caller is answered first, and the next
/// clean is due an interval later.
pub open spec fn settle(
    next_tick: u128,
    requested: bool,
    report: Result<CleanReport, Fault>,
    now: u128,
) -> (Maintenance, MaintenanceAction) {
    if requested {
        (
            Maintenance { stage: MaintenanceStage::Answering { report }, next_tick },
            MaintenanceAction::Answer,
        )
    } else {
        (
            Maintenance {
                stage: MaintenanceStage::Idle,
                next_tick: (now + CLEAN_INTERVAL) as u128,
            },
            MaintenanceAction::Wait,
        )
    }
}

/// What follows an event.
pub open spec fn maintenance_step(m: Maintenance, event: MaintenanceEvent) -> (
    Maintenance,
    MaintenanceAction,
) {
    match (m.stage, event) {
        (MaintenanceStage::Idle, MaintenanceEvent::Woke(wakeup)) => match wakeup {
            Wakeup::Shutdown | Wakeup::Closed => (
                Maintenance { stage: MaintenanceStage::Stopped, next_tick: m.next_tick },
                MaintenanceAction::Stop,
            ),
            Wakeup::CleanNow { older_than } => (
                Maintenance {
                    stage: MaintenanceStage::Cleaning { requested: true },
                    next_tick: m.next_tick,
                },
                MaintenanceAction::Clean {
                    older_than: match older_than {
                        Some(age) => age,
                        None => UNUSED_FOR,
                    },
                },
            ),
            Wakeup::Tick => (
                Maintenance {
                    stage: MaintenanceStage::Cleaning { requested: false },
                    next_tick: m.next_tick,
                },
                MaintenanceAction::Clean { older_than: UNUSED_FOR },
            ),
        },
        (
            MaintenanceStage::Cleaning { requested },
            MaintenanceEvent::Cleaned { report, mounted, now },
        ) => if report is Ok && mounted {
            (
                Maintenance {
                    stage: MaintenanceStage::Trimming { requested, report },
                    next_tick: m.next_tick,
                },
                MaintenanceAction::Trim,
            )
        } else {
            settle(m.next_tick, requested, report, now)
        },
        (
            MaintenanceStage::Trimming { requested, report },
            MaintenanceEvent::Trimmed { now },
        ) => settle(m.next_tick, requested, report, now),
        (MaintenanceStage::Answering { .. }, MaintenanceEvent::Answered { now }) => (
            Maintenance {
                stage: MaintenanceStage::Idle,
                next_tick: (now + CLEAN_INTERVAL) as u128,
            },
            MaintenanceAction::Wait,
        ),
        _ => (m, MaintenanceAction::Wait),
    }
}

impl Maintenance {
    /// The housekeeping of a daemon that came up at this time.
    pub fn new(now: u128) -> (m: Self)
        requires
            now + STARTUP_DELAY <= u128::MAX,
        ensures
            m.stage is Idle,
            m.next_tick == now + STARTUP_DELAY,
    {
        Maintenance { stage: MaintenanceStage::Idle, next_tick: now + STARTUP_DELAY }
    }

    /// Chooses what to wake up for.
    pub fn wake(&self, shutdown: bool, mailbox: Mailbox, now: u128) -> (wakeup: Option<Wakeup>)
        ensures
            wakeup == wakes_for(shutdown, mailbox, now >= self.next_tick),
    {
        if shutdown {
            return Some(Wakeup::Shutdown);
        }
        match mailbox {
            Mailbox::Closed => Some(Wakeup::Closed),
            Mailbox::Request { older_than } => Some(Wakeup::CleanNow { older_than }),
            Mailbox::Empty => {
                if now >= self.next_tick {
                    Some(Wakeup::Tick)
                } else {
                    None
                }
            },
        }
    }

    fn settled(
        next_tick: u128,
        requested: bool,
        report: Result<CleanReport, Fault>,
        now: u128,
    ) -> (out: (Maintenance, MaintenanceAction))
        requires
            now + CLEAN_INTERVAL <= u128::MAX,
        ensures
            out == settle(next_tick, requested, report, now),
    {
        if requested {
            (
                Maintenance { stage: MaintenanceStage::Answering { report }, next_tick },
                MaintenanceAction::Answer,
            )
        } else {
            (
                Maintenance { stage: MaintenanceStage::Idle, next_tick: now + CLEAN_INTERVAL },
                MaintenanceAction::Wait,
            )
        }
    }

    /// Takes the housekeeping a step further.
    pub fn step(self, event: MaintenanceEvent) -> (out: (Maintenance, MaintenanceAction))
        requires
            maintenance_expects(self.stage, event),
        ensures
            out == maintenance_step(self, event),
    {
        let next_tick = self.next_tick;
        match (self.stage, event) {
            (MaintenanceStage::Idle, MaintenanceEvent::Woke(wakeup)) => match wakeup {
                Wakeup::Shutdown | Wakeup::Closed => (
                    Maintenance { stage: MaintenanceStage::Stopped, next_tick },
                    MaintenanceAction::Stop,
                ),
                Wakeup::CleanNow { older_than } => {
                    let age: u64 = match older_than {
                        Some(age) => age,
                        None => UNUSED_FOR,
                    };
                    (
                        Maintenance {
                            stage: MaintenanceStage::Cleaning { requested: true },
                            next_tick,
                        },
                        MaintenanceAction::Clean { older_than: age },
                    )
                },
                Wakeup::Tick => (
                    Maintenance {
                        stage: MaintenanceStage::Cleaning { requested: false },
                        next_tick,
                    },
                    MaintenanceAction::Clean { older_than: UNUSED_FOR },
                ),
            },
            (
                MaintenanceStage::Cleaning { requested },
                MaintenanceEvent::Cleaned { report, mounted, now },
            ) => {
                if report.is_ok() && mounted {
                    (
                        Maintenance {
                            stage: MaintenanceStage::Trimming { requested, report },
                            next_tick,
                        },
                        MaintenanceAction::Trim,
                    )
                } else {
                    Maintenance::settled(next_tick, requested, report, now)
                }
            },
            (
                MaintenanceStage::Trimming { requested, report },
                MaintenanceEvent::Trimmed { now },
            ) => Maintenance::settled(next_tick, requested, report, now),
            (MaintenanceStage::Answering { .. }, MaintenanceEvent::Answered { now }) => (
                Maintenance { stage: MaintenanceStage::Idle, next_tick: now + CLEAN_INTERVAL },
                MaintenanceAction::Wait,
            ),
            (stage, _) => (Maintenance { stage, next_tick }, MaintenanceAction::Wait),
        }
    }
}

/// A clean is started only where none runs, and nothing else is woken up for
/// until it is over: two cleans never walk the same cache.
pub proof fn law_cleans_run_one_at_a_time(m: Maintenance, event: MaintenanceEvent)
    requires
        maintenance_expects(m.stage, event),
    ensures
        maintenance_step(m, event).1 is Clean ==> m.stage is Idle
            && maintenance_step(m, event).0.stage is Cleaning,
        event is Woke ==> m.stage is Idle,
{
}

/// A caller is answered only once the reclaim is over end to end: a clean that
/// succeeded on a mounted volume is followed by the trim, never by the answer.
/// A clean that failed frees nothing, and is not followed by a trim.
pub proof fn law_the_answer_follows_the_trim(
    m: Maintenance,
    report: Result<CleanReport, Fault>,
    mounted: bool,
    now: u128,
)
    requires
        maintenance_expects(m.stage, MaintenanceEvent::Cleaned { report, mounted, now }),
    ensures
        ({
            let action = maintenance_step(m, MaintenanceEvent::Cleaned { report, mounted, now }).1;
            &&& action == MaintenanceAction::Trim <==> report is Ok && mounted
            &&& action == MaintenanceAction::Answer ==> report is Err || !mounted
        }),
{
}

/// Whoever asked for a clean, the next one is due an interval after it is
/// over, and not before.
pub proof fn law_every_clean_puts_off_the_next(m: Maintenance, event: MaintenanceEvent)
    requires
        maintenance_expects(m.stage, event),
        !(m.stage is Idle),
        maintenance_step(m, event).0.stage is Idle,
    ensures
        maintenance_step(m, event).0.next_tick == CLEAN_INTERVAL + (match event {
            MaintenanceEvent::Cleaned { now, .. } => now,
            MaintenanceEvent::Trimmed { now } => now,
            MaintenanceEvent::Answered { now } => now,
            MaintenanceEvent::Woke(_) => 0,
        }),
{
}

/// A daemon on its way down starts no clean, however long one has been due or
/// whoever asks for one.
pub proof fn law_shutdown_starts_no_clean(m: Maintenance, mailbox: Mailbox, due: bool)
    requires
        m.stage is Idle,
    ensures
        wakes_for(true, mailbox, due) == Some(Wakeup::Shutdown),
        maintenance_step(m, MaintenanceEvent::Woke(Wakeup::Shutdown)).1
            == MaintenanceAction::Stop,
{
}

/// A kind of directory that executions leave behind.
#[derive(Clone, Copy, PartialEq, Eq, Structural, Debug)]
pub enum StaleKind {
    Sandbox,
    Task,
    TempDir,
}

/// What a clean is told: how old an entry must be, what it keeps whatever its
/// age, and where left-over directories are swept. It sweeps none that carries
/// the id of the daemon: those are in use.
#[derive(Debug)]
pub struct CleanRequest {
    pub older_than: u64,
    pub keep: Vec<String>,
    pub sweep: Vec<(StaleKind, String)>,
    pub daemon_id: String,
}

/// Where left-over directories are swept.
pub open spec fn swept(builds: Seq<char>, tasks: Seq<char>, cache: Seq<char>) -> Seq<
    (StaleKind, Seq<char>),
> {
    seq![
        (StaleKind::Sandbox, builds),
        (StaleKind::Task, tasks),
        (StaleKind::TempDir, paths::joined_path(cache, "temp"@)),
    ]
}

/// Prepares a clean. Everything that is not kept may be deleted, so a clean
/// for which it is not known what every session needs is not run at all. The
/// daemon's own sandboxes and tasks, which carry its id, are not left over.
pub fn prepare_clean(
    older_than: u64,
    needed: Result<Vec<String>, Fault>,
    builds: &str,
    tasks: &str,
    cache: &str,
    daemon_id: &str,
) -> (request: Result<CleanRequest, Fault>)
    ensures
        match needed {
            Err(f) => request == Err::<CleanRequest, Fault>(f),
            Ok(keep) => request matches Ok(r) && r.older_than == older_than && r.keep == keep
                && r.sweep@.map_values(|s: (StaleKind, String)| (s.0, s.1@)) == swept(
                builds@,
                tasks@,
                cache@,
            ) && r.daemon_id@ == daemon_id@,
        },
{
    match needed {
        Err(f) => Err(f),
        Ok(keep) => {
            let mut sweep: Vec<(StaleKind, String)> = Vec::new();
            sweep.push((StaleKind::Sandbox, builds.to_owned()));
            sweep.push((StaleKind::Task, tasks.to_owned()));
            sweep.push((StaleKind::TempDir, paths::join(cache, "temp")));
            assert(sweep@.map_values(|s: (StaleKind, String)| (s.0, s.1@)) =~= swept(
                builds@,
                tasks@,
                cache@,
            ));
            Ok(CleanRequest { older_than, keep, sweep, daemon_id: daemon_id.to_owned() })
        },
    }
}

/// What a clean that ran came to: its report, or what it failed of in words.
pub fn clean_outcome(ran: Result<CleanReport, String>) -> (report: Result<CleanReport, Fault>)
    ensures
        match ran {
            Ok(r) => report == Ok::<CleanReport, Fault>(r),
            Err(e) => report matches Err(f) && is_fault(f, FaultKind::Other, e@),
        },
{
    match ran {
        Ok(r) => Ok(r),
        Err(e) => Err(Fault { kind: FaultKind::Other, text: e }),
    }
}

/// What a caller that asked for a clean is told, also where the housekeeping
/// has stopped.
pub fn clean_now(answer: Option<Result<CleanReport, Fault>>) -> (out: Result<CleanReport, Fault>)
    ensures
        match answer {
            Some(a) => out == a,
            None => out matches Err(f) && is_fault(
                f,
                FaultKind::NotConnected,
                "maintenance actor is gone"@,
            ),
        },
{
    match answer {
        Some(a) => a,
        None => Err(fault(FaultKind::NotConnected, "maintenance actor is gone")),
    }
}

/// Going down comes before anything that waits in the mailbox, and that before
/// the clock, which rings once the time has come and nothing else is there.
pub proof fn law_what_waits_is_taken_in_turn(
    m: &Maintenance,
    shutdown: bool,
    mailbox: Mailbox,
    now: u128,
    wakeup: Option<Wakeup>,
)
    requires
        call_ensures(Maintenance::wake, (m, shutdown, mailbox, now), wakeup),
    ensures
        shutdown ==> wakeup == Some(Wakeup::Shutdown),
        !shutdown && mailbox is Closed ==> wakeup == Some(Wakeup::Closed),
        !shutdown && mailbox is Request ==> wakeup == Some(
            Wakeup::CleanNow { older_than: mailbox->older_than },
        ),
        !shutdown && mailbox is Empty && now >= m.next_tick ==> wakeup == Some(Wakeup::Tick),
        !shutdown && mailbox is Empty && now < m.next_tick ==> wakeup is None,
{
}

/// The first clean is due five minutes after the daemon came up.
pub proof fn law_the_first_clean_waits(now: u128, m: Maintenance)
    requires
        now + 300_000_000_000 <= u128::MAX,
        call_ensures(Maintenance::new, (now,), m),
    ensures
        m.stage is Idle,
        m.next_tick - now == 300_000_000_000,
{
}

/// What wakes the housekeeping up decides what it does: a request is cleaned for
/// at the age that it names, and at five days where it names none, as when a
/// clean is due by the clock; nothing else is cleaned for.
pub proof fn law_a_wakeup_cleans_or_stops(m: Maintenance, wakeup: Wakeup)
    requires
        m.stage is Idle,
    ensures
        ({
            let (after, action) = maintenance_step(m, MaintenanceEvent::Woke(wakeup));
            &&& after.next_tick == m.next_tick
            &&& wakeup is Shutdown || wakeup is Closed ==> after.stage is Stopped
                && action is Stop
            &&& wakeup is CleanNow ==> after.stage is Cleaning && after.stage->Cleaning_requested
                && action is Clean
            &&& wakeup is CleanNow && wakeup->older_than is Some ==> action->older_than
                == wakeup->older_than->0
            &&& wakeup is CleanNow && wakeup->older_than is None ==> action->older_than == 432_000
            &&& wakeup is Tick ==> after.stage is Cleaning && !after.stage->Cleaning_requested
                && action is Clean && action->older_than == 432_000
        }),
{
}

/// Space is handed back after a clean that succeeded on a mounted volume. Then
/// whoever asked for the clean is answered with its report, and where nobody
/// did, or once the answer is given, the next clean is due six hours later.
pub proof fn law_a_clean_runs_to_its_answer(m: Maintenance, event: MaintenanceEvent)
    requires
        maintenance_expects(m.stage, event),
        !(event is Woke),
    ensures
        ({
            let (after, action) = maintenance_step(m, event);
            let trims = event is Cleaned && event->report is Ok && event->mounted;
            let requested = match m.stage {
                MaintenanceStage::Cleaning { requested } => requested,
                MaintenanceStage::Trimming { requested, .. } => requested,
                _ => false,
            };
            let report = match m.stage {
                MaintenanceStage::Trimming { report, .. } => report,
                _ => event->report,
            };
            let now = match event {
                MaintenanceEvent::Cleaned { now, .. } => now,
                MaintenanceEvent::Trimmed { now } => now,
                MaintenanceEvent::Answered { now } => now,
                MaintenanceEvent::Woke(_) => 0,
            };
            &&& trims ==> action is Trim && after.stage == (MaintenanceStage::Trimming {
                requested,
                report: event->report,
            }) && after.next_tick == m.next_tick
            &&& !trims && requested ==> action is Answer && after.stage == (
            MaintenanceStage::Answering { report }) && after.next_tick == m.next_tick
            &&& !trims && !requested ==> action is Wait && after.stage is Idle
                && after.next_tick - now == 21_600_000_000_000
        }),
{
}

/// A clean is told what every session needs, and keeps it; where that is not
/// known there is no clean. It sweeps what builds, tasks and unpacked files left
/// behind, each for what it is.
pub proof fn law_a_clean_keeps_what_is_needed(
    older_than: u64,
    needed: Result<Vec<String>, Fault>,
    builds: &str,
    tasks: &str,
    cache: &str,
    id: &str,
    request: Result<CleanRequest, Fault>,
)
    requires
        call_ensures(prepare_clean, (older_than, needed, builds, tasks, cache, id), request),
    ensures
        request is Ok <==> needed is Ok,
        needed is Err ==> request->Err_0 == needed->Err_0,
        needed is Ok ==> {
            let r = request->Ok_0;
            &&& r.older_than == older_than
            &&& r.keep == needed->Ok_0
            &&& r.daemon_id@ == id@
            &&& r.sweep@.len() == 3
            &&& r.sweep@[0].0 is Sandbox && r.sweep@[0].1@ == builds@
            &&& r.sweep@[1].0 is Task && r.sweep@[1].1@ == tasks@
            &&& r.sweep@[2].0 is TempDir && r.sweep@[2].1@ == paths::joined_path(cache@, "temp"@)
        },
{
    if needed is Ok {
        let views = request->Ok_0.sweep@.map_values(|s: (StaleKind, String)| (s.0, s.1@));
        assert(views.len() == 3);
        assert(views[0] == (request->Ok_0.sweep@[0].0, request->Ok_0.sweep@[0].1@));
        assert(views[1] == (request->Ok_0.sweep@[1].0, request->Ok_0.sweep@[1].1@));
        assert(views[2] == (request->Ok_0.sweep@[2].0, request->Ok_0.sweep@[2].1@));
    }
}

/// How a clean ended is told as it was: its report, its failure in words, or
/// that nobody is there to clean any more.
pub proof fn law_a_cleans_end_is_told(
    ran: Result<CleanReport, String>,
    answer: Option<Result<CleanReport, Fault>>,
    report: Result<CleanReport, Fault>,
    told: Result<CleanReport, Fault>,
)
    requires
        call_ensures(clean_outcome, (ran,), report),
        call_ensures(clean_now, (answer,), told),
    ensures
        ran is Ok ==> report is Ok && report->Ok_0 == ran->Ok_0,
        ran is Err ==> report is Err && report->Err_0.kind is Other && report->Err_0.text@
            == ran->Err_0@,
        answer is Some ==> told == answer->0,
        answer is None ==> told is Err && told->Err_0.kind is NotConnected && told->Err_0.text@
            == "maintenance actor is gone"@,
{
}

/// What [`Maintenance::step`] does is what is said of a step here.
pub proof fn law_housekeeping_goes_as_stated(
    m: Maintenance,
    event: MaintenanceEvent,
    out: (Maintenance, MaintenanceAction),
)
    requires
        call_ensures(Maintenance::step, (m, event), out),
    ensures
        out == maintenance_step(m, event),
{
}

} // verus!
