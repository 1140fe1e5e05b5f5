//! How the daemon comes up: what it sets up, in which order, what it can do
//! without, and what it ends for.
use vstd::prelude::*;
use vstd::string::*;

use crate::cli::{
    instance_dir, instance_name, key_error_words, provider_instance_name, Cli, Command, ListenArgs,
    MainError, DEFAULT_VSOCK_PORT_BASE,
};
use crate::paths;
use crate::rpc::{Fault, FaultKind};
use crate::text;

verus! {

/// Something that the daemon does on its way up, in this order.
#[derive(Clone, Copy, PartialEq, Eq, Structural, Debug)]
pub enum BootStep {
    /// Remember where the daemon's own program is, to run it again later.
    RegisterShim,
    /// Ask for more open files.
    RaiseNofile,
    MountDev,
    /// Mount the root and switch to it.
    EnterRootfs,
    /// Mount the volume that state is kept on.
    MountState,
    CreateStateDir,
    /// Send the log to its file.
    ActivateLog,
    /// Bring directories of an older layout into the present one.
    MigrateProviders,
    CreateInstanceDir,
    /// Open the lock of the instance.
    OpenLock,
    /// Take the lock of the instance, for as long as the daemon runs.
    TakeLock,
    /// Leave the daemon's number in the lock.
    WritePid,
    /// See whether a virtual machine serves this instance.
    ProbeMinvmd,
    LoadHostKey,
    /// Drop what clients were told of former keys.
    PruneKnownHosts,
    /// Tell clients of the key.
    LearnKnownHosts,
    /// Warn of a host that refuses what sandboxes need.
    WarnUserns,
    /// Follow the host's clock.
    FollowClock,
    RemoveSocket,
    BindSocket,
    ServeSocket,
    BindVsock,
    /// Widen the receive window of the listener.
    WidenWindow,
    /// Tell the host that the daemon can be connected to.
    EmitReady,
    /// Connect the daemon itself to the host's network.
    BringUpEgress,
    ServeVsock,
}

/// A step's place in the order.
pub open spec fn place(step: BootStep) -> int {
    match step {
        BootStep::RegisterShim => 0,
        BootStep::RaiseNofile => 1,
        BootStep::MountDev => 2,
        BootStep::EnterRootfs => 3,
        BootStep::MountState => 4,
        BootStep::CreateStateDir => 5,
        BootStep::ActivateLog => 6,
        BootStep::MigrateProviders => 7,
        BootStep::CreateInstanceDir => 8,
        BootStep::OpenLock => 9,
        BootStep::TakeLock => 10,
        BootStep::WritePid => 11,
        BootStep::ProbeMinvmd => 12,
        BootStep::LoadHostKey => 13,
        BootStep::PruneKnownHosts => 14,
        BootStep::LearnKnownHosts => 15,
        BootStep::WarnUserns => 16,
        BootStep::FollowClock => 17,
        BootStep::RemoveSocket => 18,
        BootStep::BindSocket => 19,
        BootStep::ServeSocket => 20,
        BootStep::BindVsock => 21,
        BootStep::WidenWindow => 22,
        BootStep::EmitReady => 23,
        BootStep::BringUpEgress => 24,
        BootStep::ServeVsock => 25,
    }
}

/// The step in the next place; the last one has none.
pub open spec fn following(step: BootStep) -> Option<BootStep> {
    match step {
        BootStep::RegisterShim => Some(BootStep::RaiseNofile),
        BootStep::RaiseNofile => Some(BootStep::MountDev),
        BootStep::MountDev => Some(BootStep::EnterRootfs),
        BootStep::EnterRootfs => Some(BootStep::MountState),
        BootStep::MountState => Some(BootStep::CreateStateDir),
        BootStep::CreateStateDir => Some(BootStep::ActivateLog),
        BootStep::ActivateLog => Some(BootStep::MigrateProviders),
        BootStep::MigrateProviders => Some(BootStep::CreateInstanceDir),
        BootStep::CreateInstanceDir => Some(BootStep::OpenLock),
        BootStep::OpenLock => Some(BootStep::TakeLock),
        BootStep::TakeLock => Some(BootStep::WritePid),
        BootStep::WritePid => Some(BootStep::ProbeMinvmd),
        BootStep::ProbeMinvmd => Some(BootStep::LoadHostKey),
        BootStep::LoadHostKey => Some(BootStep::PruneKnownHosts),
        BootStep::PruneKnownHosts => Some(BootStep::LearnKnownHosts),
        BootStep::LearnKnownHosts => Some(BootStep::WarnUserns),
        BootStep::WarnUserns => Some(BootStep::FollowClock),
        BootStep::FollowClock => Some(BootStep::RemoveSocket),
        BootStep::RemoveSocket => Some(BootStep::BindSocket),
        BootStep::BindSocket => Some(BootStep::ServeSocket),
        BootStep::ServeSocket => Some(BootStep::BindVsock),
        BootStep::BindVsock => Some(BootStep::WidenWindow),
        BootStep::WidenWindow => Some(BootStep::EmitReady),
        BootStep::EmitReady => Some(BootStep::BringUpEgress),
        BootStep::BringUpEgress => Some(BootStep::ServeVsock),
        BootStep::ServeVsock => None,
    }
}

/// Whether a step is to be done: some only in or out of a microVM, some only
/// where they were asked for, and one of the two ways to listen.
pub open spec fn applies(args: ListenArgs, microvm: bool, step: BootStep) -> bool {
    match step {
        BootStep::RegisterShim => !microvm,
        BootStep::RaiseNofile => args.rlimit_nofile is Some,
        BootStep::MountDev => args.mount_dev,
        BootStep::EnterRootfs => args.mount_rootfs is Some,
        BootStep::MountState => args.mk_mount_state_volume is Some,
        BootStep::FollowClock => args.timekeep_listener_port is Some,
        BootStep::RemoveSocket | BootStep::BindSocket | BootStep::ServeSocket => !args.vsock,
        BootStep::BindVsock
        | BootStep::WidenWindow
        | BootStep::EmitReady
        | BootStep::BringUpEgress
        | BootStep::ServeVsock => args.vsock,
        _ => true,
    }
}

/// The first step to be done from this one on.
pub open spec fn first_from(args: ListenArgs, microvm: bool, step: BootStep) -> Option<BootStep>
    decreases 26 - place(step),
{
    if applies(args, microvm, step) {
        Some(step)
    } else {
        match following(step) {
            Some(next) => first_from(args, microvm, next),
            None => None,
        }
    }
}

/// What a step came to.
#[derive(Debug)]
pub enum StepOutcome {
    Done,
    /// The lock that was probed is held.
    Held,
    Failed(Fault),
}

/// How a daemon stays behind that cannot come up but must not end.
#[derive(Debug)]
pub enum Park {
    /// There is no root: the early file systems are mounted, and the host is
    /// told that much.
    NoRoot,
    /// State could not be mounted: the host is told of that, with the error.
    NoState { error: String },
}

/// What follows a step.
#[derive(Debug)]
pub enum BootNext {
    Do(BootStep),
    /// The daemon has served.
    Ended,
    Fail(MainError),
    Park(Park),
}

/// Whether a daemon ends for a failure of the system, and with which words.
pub open spec fn fails_for(step: BootStep, kind: FaultKind) -> Option<Seq<char>> {
    match step {
        BootStep::MountState => Some("mounting the state volume"@),
        BootStep::CreateStateDir => if kind == FaultKind::AlreadyExists {
            None
        } else {
            Some("creating minimal dir"@)
        },
        BootStep::CreateInstanceDir => if kind == FaultKind::AlreadyExists {
            None
        } else {
            Some("creating provider dir"@)
        },
        BootStep::OpenLock => Some("opening instance lock"@),
        BootStep::TakeLock => Some("acquiring instance lock"@),
        BootStep::ProbeMinvmd => Some("probing minvmd lock"@),
        BootStep::RemoveSocket => if kind == FaultKind::NotFound {
            None
        } else {
            Some("socket already in use"@)
        },
        BootStep::BindSocket => Some("listening to socket"@),
        BootStep::ServeSocket => Some("serving on UDS"@),
        BootStep::BindVsock => Some("binding vsock port"@),
        BootStep::ServeVsock => Some("serving on guest vsock"@),
        _ => None,
    }
}

/// Whether the next thing is a failure with these words.
pub open spec fn fails_with(next: BootNext, words: Seq<char>) -> bool {
    next matches BootNext::Fail(MainError::Other(w)) && w@ == words
}

/// Whether the next thing is the first step to be done after this one, or the
/// end where there is none.
pub open spec fn goes_on(args: ListenArgs, microvm: bool, step: BootStep, next: BootNext) -> bool {
    match step {
        BootStep::ServeSocket => next is Ended,
        BootStep::ServeVsock => next is Ended,
        _ => match following(step) {
            Some(f) => match first_from(args, microvm, f) {
                Some(s) => next == BootNext::Do(s),
                None => next is Ended,
            },
            None => next is Ended,
        },
    }
}

/// What follows a step that came to this.
pub open spec fn boot_follows(
    args: ListenArgs,
    microvm: bool,
    step: BootStep,
    outcome: StepOutcome,
    next: BootNext,
) -> bool {
    match (step, outcome) {
        (BootStep::EnterRootfs, StepOutcome::Failed(_)) => next == BootNext::Park(Park::NoRoot),
        (BootStep::MountState, StepOutcome::Failed(f)) if args.vsock => next
            matches BootNext::Park(Park::NoState { error }) && error@ == f.text@,
        (BootStep::TakeLock, StepOutcome::Failed(f)) if f.kind == FaultKind::WouldBlock => {
            fails_with(
                next,
                "minimald "@ + instance_name(args.instance_num as nat)
                    + " is already running (instance lock held)"@,
            )
        },
        (BootStep::ProbeMinvmd, StepOutcome::Held) => fails_with(
            next,
            "a minvmd VM is serving "@ + instance_name(args.instance_num as nat)
                + "'s socket; stop it first (`minvmd stop`)"@,
        ),
        (BootStep::LoadHostKey, StepOutcome::Failed(f)) => fails_with(
            next,
            key_error_words(f.text@),
        ),
        (BootStep::LearnKnownHosts, StepOutcome::Failed(f)) => fails_with(
            next,
            key_error_words(f.text@),
        ),
        (_, StepOutcome::Failed(f)) => match fails_for(step, f.kind) {
            Some(what) => next matches BootNext::Fail(MainError::IO(e, w)) && e == f && w@ == what,
            None => goes_on(args, microvm, step, next),
        },
        _ => goes_on(args, microvm, step, next),
    }
}

fn follow(step: BootStep) -> (next: Option<BootStep>)
    ensures
        next == following(step),
{
    match step {
        BootStep::RegisterShim => Some(BootStep::RaiseNofile),
        BootStep::RaiseNofile => Some(BootStep::MountDev),
        BootStep::MountDev => Some(BootStep::EnterRootfs),
        BootStep::EnterRootfs => Some(BootStep::MountState),
        BootStep::MountState => Some(BootStep::CreateStateDir),
        BootStep::CreateStateDir => Some(BootStep::ActivateLog),
        BootStep::ActivateLog => Some(BootStep::MigrateProviders),
        BootStep::MigrateProviders => Some(BootStep::CreateInstanceDir),
        BootStep::CreateInstanceDir => Some(BootStep::OpenLock),
        BootStep::OpenLock => Some(BootStep::TakeLock),
        BootStep::TakeLock => Some(BootStep::WritePid),
        BootStep::WritePid => Some(BootStep::ProbeMinvmd),
        BootStep::ProbeMinvmd => Some(BootStep::LoadHostKey),
        BootStep::LoadHostKey => Some(BootStep::PruneKnownHosts),
        BootStep::PruneKnownHosts => Some(BootStep::LearnKnownHosts),
        BootStep::LearnKnownHosts => Some(BootStep::WarnUserns),
        BootStep::WarnUserns => Some(BootStep::FollowClock),
        BootStep::FollowClock => Some(BootStep::RemoveSocket),
        BootStep::RemoveSocket => Some(BootStep::BindSocket),
        BootStep::BindSocket => Some(BootStep::ServeSocket),
        BootStep::ServeSocket => Some(BootStep::BindVsock),
        BootStep::BindVsock => Some(BootStep::WidenWindow),
        BootStep::WidenWindow => Some(BootStep::EmitReady),
        BootStep::EmitReady => Some(BootStep::BringUpEgress),
        BootStep::BringUpEgress => Some(BootStep::ServeVsock),
        BootStep::ServeVsock => None,
    }
}

fn is_to_do(args: &ListenArgs, microvm: bool, step: BootStep) -> (yes: bool)
    ensures
        yes == applies(*args, microvm, step),
{
    match step {
        BootStep::RegisterShim => !microvm,
        BootStep::RaiseNofile => args.rlimit_nofile.is_some(),
        BootStep::MountDev => args.mount_dev,
        BootStep::EnterRootfs => args.mount_rootfs.is_some(),
        BootStep::MountState => args.mk_mount_state_volume.is_some(),
        BootStep::FollowClock => args.timekeep_listener_port.is_some(),
        BootStep::RemoveSocket | BootStep::BindSocket | BootStep::ServeSocket => !args.vsock,
        BootStep::BindVsock
        | BootStep::WidenWindow
        | BootStep::EmitReady
        | BootStep::BringUpEgress
        | BootStep::ServeVsock => args.vsock,
        _ => true,
    }
}

fn first(args: &ListenArgs, microvm: bool, step: BootStep) -> (found: Option<BootStep>)
    ensures
        found == first_from(*args, microvm, step),
    decreases 26 - place(step),
{
    if is_to_do(args, microvm, step) {
        Some(step)
    } else {
        match follow(step) {
            Some(next) => first(args, microvm, next),
            None => None,
        }
    }
}

/// How a daemon that was told this begins.
#[derive(Debug)]
pub enum BootStart {
    /// Print the completions of the shell, and end.
    PrintCompletions,
    /// Go on in the background, and end as that does.
    SpawnDetached,
    Refused(MainError),
    /// Come up, with this step first.
    Run(BootStep),
}

/// How a daemon that was told this begins. One in the background is found out
/// about through a socket in the file system, so a vsock listener cannot be
/// started there.
pub fn begin_boot(cli: &Cli, microvm: bool) -> (start: BootStart)
    requires
        !(cli.command is Nsenter),
    ensures
        match cli.command {
            Command::Run(args) => if args.detach {
                if args.vsock {
                    start matches BootStart::Refused(MainError::Other(w)) && w@
                        == "--detach is only supported for Unix-socket listeners (not --vsock)"@
                } else {
                    start is SpawnDetached
                }
            } else {
                start matches BootStart::Run(s) && Some(s) == first_from(
                    args,
                    microvm,
                    BootStep::RegisterShim,
                )
            },
            _ => start is PrintCompletions,
        },
{
    match cli.listen_args() {
        None => BootStart::PrintCompletions,
        Some(args) => {
            if args.detach {
                if args.vsock {
                    BootStart::Refused(
                        MainError::Other(
                            "--detach is only supported for Unix-socket listeners (not --vsock)".to_owned(),
                        ),
                    )
                } else {
                    BootStart::SpawnDetached
                }
            } else {
                proof {
                    reveal_with_fuel(first_from, 7);
                }
                match first(args, microvm, BootStep::RegisterShim) {
                    Some(s) => BootStart::Run(s),
                    None => BootStart::Run(BootStep::CreateStateDir),
                }
            }
        },
    }
}

fn go_on(args: &ListenArgs, microvm: bool, step: BootStep) -> (next: BootNext)
    ensures
        goes_on(*args, microvm, step, next),
{
    match step {
        BootStep::ServeSocket => BootNext::Ended,
        BootStep::ServeVsock => BootNext::Ended,
        _ => match follow(step) {
            Some(f) => match first(args, microvm, f) {
                Some(s) => BootNext::Do(s),
                None => BootNext::Ended,
            },
            None => BootNext::Ended,
        },
    }
}

fn failure(step: BootStep, kind: FaultKind) -> (what: Option<&'static str>)
    ensures
        match what {
            Some(w) => fails_for(step, kind) == Some(w@),
            None => fails_for(step, kind) is None,
        },
{
    match step {
        BootStep::MountState => Some("mounting the state volume"),
        BootStep::CreateStateDir => {
            if kind == FaultKind::AlreadyExists {
                None
            } else {
                Some("creating minimal dir")
            }
        },
        BootStep::CreateInstanceDir => {
            if kind == FaultKind::AlreadyExists {
                None
            } else {
                Some("creating provider dir")
            }
        },
        BootStep::OpenLock => Some("opening instance lock"),
        BootStep::TakeLock => Some("acquiring instance lock"),
        BootStep::ProbeMinvmd => Some("probing minvmd lock"),
        BootStep::RemoveSocket => {
            if kind == FaultKind::NotFound {
                None
            } else {
                Some("socket already in use")
            }
        },
        BootStep::BindSocket => Some("listening to socket"),
        BootStep::ServeSocket => Some("serving on UDS"),
        BootStep::BindVsock => Some("binding vsock port"),
        BootStep::ServeVsock => Some("serving on guest vsock"),
        _ => None,
    }
}

/// Decides what follows a step that came to this.
pub fn boot_step(
    args: &ListenArgs,
    microvm: bool,
    step: BootStep,
    outcome: StepOutcome,
) -> (next: BootNext)
    ensures
        boot_follows(*args, microvm, step, outcome, next),
{
    match outcome {
        StepOutcome::Done => go_on(args, microvm, step),
        StepOutcome::Held => {
            if step == BootStep::ProbeMinvmd {
                let name = provider_instance_name(args.instance_num);
                BootNext::Fail(
                    MainError::Other(
                        text::cat3(
                            "a minvmd VM is serving ",
                            name.as_str(),
                            "'s socket; stop it first (`minvmd stop`)",
                        ),
                    ),
                )
            } else {
                go_on(args, microvm, step)
            }
        },
        StepOutcome::Failed(f) => {
            if step == BootStep::EnterRootfs {
                return BootNext::Park(Park::NoRoot);
            }
            if step == BootStep::MountState && args.vsock {
                return BootNext::Park(Park::NoState { error: f.text });
            }
            if step == BootStep::TakeLock && f.kind == FaultKind::WouldBlock {
                let name = provider_instance_name(args.instance_num);
                return BootNext::Fail(
                    MainError::Other(
                        text::cat3(
                            "minimald ",
                            name.as_str(),
                            " is already running (instance lock held)",
                        ),
                    ),
                );
            }
            if step == BootStep::LoadHostKey || step == BootStep::LearnKnownHosts {
                return BootNext::Fail(MainError::from_key_error(f.text.as_str()));
            }
            match failure(step, f.kind) {
                Some(what) => BootNext::Fail(MainError::IO(f, what)),
                None => go_on(args, microvm, step),
            }
        },
    }
}

/// A run of coming up: each step with what it came to and what followed.
pub open spec fn is_booting(
    args: ListenArgs,
    microvm: bool,
    steps: Seq<(BootStep, StepOutcome, BootNext)>,
) -> bool {
    &&& steps.len() > 0
    &&& Some(steps[0].0) == first_from(args, microvm, BootStep::RegisterShim)
    &&& forall|i: int|
        0 <= i < steps.len() ==> boot_follows(
            args,
            microvm,
            (#[trigger] steps[i]).0,
            steps[i].1,
            steps[i].2,
        )
    &&& forall|i: int|
        0 < i < steps.len() ==> steps[i - 1].2 == BootNext::Do((#[trigger] steps[i]).0)
}

/// Whether a step was done in a run, with an outcome that a daemon goes on
/// after.
pub open spec fn was_done(
    args: ListenArgs,
    microvm: bool,
    steps: Seq<(BootStep, StepOutcome, BootNext)>,
    step: BootStep,
    before: int,
) -> bool {
    exists|i: int|
        0 <= i < before && (#[trigger] steps[i]).0 == step && goes_on(
            args,
            microvm,
            step,
            steps[i].2,
        )
}

proof fn lemma_first_from(args: ListenArgs, microvm: bool, step: BootStep)
    ensures
        first_from(args, microvm, step) matches Some(s) ==> {
            &&& applies(args, microvm, s)
            &&& place(step) <= place(s)
            &&& forall|t: BootStep|
                place(step) <= #[trigger] place(t) < place(s) ==> !applies(args, microvm, t)
        },
    decreases 26 - place(step),
{
    if !applies(args, microvm, step) {
        match following(step) {
            Some(next) => {
                assert(place(next) == place(step) + 1);
                lemma_first_from(args, microvm, next);
                assert forall|t: BootStep|
                    first_from(args, microvm, step) is Some && place(step) <= #[trigger] place(t)
                        < place(first_from(args, microvm, step)->0) implies !applies(
                    args,
                    microvm,
                    t,
                ) by {
                    if place(t) == place(step) {
                        assert(t == step);
                    }
                }
            },
            None => {},
        }
    }
}

/// Every step before the one that a run has come to was done, if it is to be
/// done at all, and none of them ended the run.
pub proof fn law_nothing_is_skipped_on_the_way_up(
    args: ListenArgs,
    microvm: bool,
    steps: Seq<(BootStep, StepOutcome, BootNext)>,
    n: int,
    step: BootStep,
)
    requires
        is_booting(args, microvm, steps),
        0 <= n < steps.len(),
        place(step) < place(steps[n].0),
        applies(args, microvm, step),
    ensures
        was_done(args, microvm, steps, step, n),
    decreases n,
{
    if n == 0 {
        lemma_first_from(args, microvm, BootStep::RegisterShim);
        assert(place(BootStep::RegisterShim) <= place(step));
    } else {
        let before = steps[n - 1].0;
        assert(steps[n - 1].2 == BootNext::Do(steps[n].0));
        assert(boot_follows(args, microvm, before, steps[n - 1].1, steps[n - 1].2));
        assert(goes_on(args, microvm, before, steps[n - 1].2));
        let f = following(before)->0;
        assert(place(f) == place(before) + 1);
        lemma_first_from(args, microvm, f);
        if place(step) < place(before) {
            law_nothing_is_skipped_on_the_way_up(args, microvm, steps, n - 1, step);
            let i = choose|i: int|
                0 <= i < n - 1 && (#[trigger] steps[i]).0 == step && goes_on(
                    args,
                    microvm,
                    step,
                    steps[i].2,
                );
            assert(steps[i].0 == step);
        } else {
            if place(step) > place(before) {
                assert(place(f) <= place(step));
                assert(!applies(args, microvm, step));
            }
            assert(step == before);
            assert(steps[n - 1].0 == step);
        }
    }
}

/// A daemon that was told to keep its state on a volume serves only with that
/// volume mounted: where mounting it failed, it ends or stays behind, and
/// nothing else takes the volume's place.
pub proof fn law_state_is_never_kept_elsewhere(
    args: ListenArgs,
    microvm: bool,
    steps: Seq<(BootStep, StepOutcome, BootNext)>,
    n: int,
)
    requires
        is_booting(args, microvm, steps),
        0 <= n < steps.len(),
        args.mk_mount_state_volume is Some,
        place(steps[n].0) > place(BootStep::MountState),
    ensures
        exists|i: int|
            0 <= i < n && (#[trigger] steps[i]).0 == BootStep::MountState && !(steps[i].1
                is Failed),
{
    law_nothing_is_skipped_on_the_way_up(args, microvm, steps, n, BootStep::MountState);
    let i = choose|i: int|
        0 <= i < n && (#[trigger] steps[i]).0 == BootStep::MountState && goes_on(
            args,
            microvm,
            BootStep::MountState,
            steps[i].2,
        );
    assert(steps[i].0 == BootStep::MountState);
    assert(boot_follows(args, microvm, steps[i].0, steps[i].1, steps[i].2));
    if steps[i].1 is Failed {
        lemma_first_from(args, microvm, BootStep::CreateStateDir);
        assert(false);
    }
}

/// A daemon touches the instance's socket only once it holds the instance's
/// lock and no virtual machine serves the instance: it takes no other
/// daemon's socket.
pub proof fn law_a_socket_is_not_taken_from_another(
    args: ListenArgs,
    microvm: bool,
    steps: Seq<(BootStep, StepOutcome, BootNext)>,
    n: int,
)
    requires
        is_booting(args, microvm, steps),
        0 <= n < steps.len(),
        place(steps[n].0) >= place(BootStep::RemoveSocket),
    ensures
        exists|i: int|
            0 <= i < n && (#[trigger] steps[i]).0 == BootStep::TakeLock && !(steps[i].1 is Failed),
        exists|i: int|
            0 <= i < n && (#[trigger] steps[i]).0 == BootStep::ProbeMinvmd && steps[i].1 is Done,
{
    law_nothing_is_skipped_on_the_way_up(args, microvm, steps, n, BootStep::TakeLock);
    let i = choose|i: int|
        0 <= i < n && (#[trigger] steps[i]).0 == BootStep::TakeLock && goes_on(
            args,
            microvm,
            BootStep::TakeLock,
            steps[i].2,
        );
    assert(steps[i].0 == BootStep::TakeLock);
    assert(boot_follows(args, microvm, steps[i].0, steps[i].1, steps[i].2));
    law_nothing_is_skipped_on_the_way_up(args, microvm, steps, n, BootStep::ProbeMinvmd);
    let j = choose|j: int|
        0 <= j < n && (#[trigger] steps[j]).0 == BootStep::ProbeMinvmd && goes_on(
            args,
            microvm,
            BootStep::ProbeMinvmd,
            steps[j].2,
        );
    assert(steps[j].0 == BootStep::ProbeMinvmd);
    assert(boot_follows(args, microvm, steps[j].0, steps[j].1, steps[j].2));
}

/// The host is told that the daemon is ready only once the port is bound.
pub proof fn law_ready_means_connectable(
    args: ListenArgs,
    microvm: bool,
    steps: Seq<(BootStep, StepOutcome, BootNext)>,
    n: int,
)
    requires
        is_booting(args, microvm, steps),
        0 <= n < steps.len(),
        steps[n].0 == BootStep::EmitReady,
    ensures
        exists|i: int|
            0 <= i < n && (#[trigger] steps[i]).0 == BootStep::BindVsock && !(steps[i].1 is Failed),
{
    if n == 0 {
        lemma_first_from(args, microvm, BootStep::RegisterShim);
        assert(place(BootStep::CreateStateDir) < place(steps[0].0));
        assert(applies(args, microvm, BootStep::CreateStateDir));
        assert(false);
    }
    assert(steps[n - 1].2 == BootNext::Do(steps[n].0));
    assert(boot_follows(args, microvm, steps[n - 1].0, steps[n - 1].1, steps[n - 1].2));
    let f = following(steps[n - 1].0)->0;
    lemma_first_from(args, microvm, f);
    assert(applies(args, microvm, BootStep::EmitReady));
    law_nothing_is_skipped_on_the_way_up(args, microvm, steps, n, BootStep::BindVsock);
    let i = choose|i: int|
        0 <= i < n && (#[trigger] steps[i]).0 == BootStep::BindVsock && goes_on(
            args,
            microvm,
            BootStep::BindVsock,
            steps[i].2,
        );
    assert(steps[i].0 == BootStep::BindVsock);
    assert(boot_follows(args, microvm, steps[i].0, steps[i].1, steps[i].2));
}

/// Has state and cache kept on the volume that was mounted here.
pub fn relocate(cli: &mut Cli, mountpoint: &str)
    ensures
        final(cli).command == old(cli).command,
        text::optional(final(cli).global_args.minimal_state_dir) == Some(mountpoint@),
        text::optional(final(cli).global_args.minimal_cache_dir) == Some(mountpoint@ + "/cache"@),
        final(cli).global_args.stdlib_dir == old(cli).global_args.stdlib_dir,
        final(cli).global_args.num_parallel_builds == old(cli).global_args.num_parallel_builds,
{
    cli.global_args.minimal_state_dir = Some(mountpoint.to_owned());
    cli.global_args.minimal_cache_dir = Some(text::cat2(mountpoint, "/cache"));
}

/// Where an instance's lock is: beside its socket, but in a microVM where
/// nothing outlives it, so that the lock does not hold the volume busy.
pub open spec fn lock_path(
    instance_dir: Seq<char>,
    name: Seq<char>,
    microvm: bool,
    lock_file: Seq<char>,
) -> Seq<char> {
    if microvm {
        "/run/minimald-"@ + name + ".lock"@
    } else {
        paths::joined_path(instance_dir, lock_file)
    }
}

/// Where an instance's lock is.
pub fn instance_lock_path(cli: &Cli, usual_state_dir: &str, microvm: bool, lock_file: &str) -> (path:
    String)
    ensures
        path@ == lock_path(
            instance_dir(cli.state_dir(usual_state_dir@), cli.number() as nat),
            instance_name(cli.number() as nat),
            microvm,
            lock_file@,
        ),
{
    if microvm {
        let name = provider_instance_name(cli.instance_num());
        text::cat3("/run/minimald-", name.as_str(), ".lock")
    } else {
        paths::join(cli.client_instance_dir(usual_state_dir).as_str(), lock_file)
    }
}

/// The port that an instance listens on.
pub fn vsock_port(instance_num: u32) -> (port: u32)
    requires
        DEFAULT_VSOCK_PORT_BASE + instance_num <= u32::MAX,
    ensures
        port == DEFAULT_VSOCK_PORT_BASE + instance_num,
{
    DEFAULT_VSOCK_PORT_BASE + instance_num
}

/// What a server is told.
#[derive(Debug)]
pub struct Config {
    /// Where the host's key is, or is put if there is none.
    pub host_key_path: String,
    pub minimal_state_dir: String,
    pub minimal_cache_dir: String,
    pub gvproxy_bin: Option<String>,
    /// Whether the network is reached through the host of a microVM.
    pub in_microvm: bool,
    pub state_volume_mounted: bool,
}

/// What the server of an instance is told.
pub fn server_config(
    cli: &Cli,
    args: &ListenArgs,
    usual_state_dir: &str,
    usual_cache_dir: &str,
    state_volume_mounted: bool,
) -> (config: Config)
    ensures
        config.host_key_path@ == paths::joined_path(
            instance_dir(cli.state_dir(usual_state_dir@), cli.number() as nat),
            "ssh_host_ed25519_key"@,
        ),
        config.minimal_state_dir@ == cli.state_dir(usual_state_dir@),
        config.minimal_cache_dir@ == cli.cache_dir(usual_cache_dir@),
        text::optional(config.gvproxy_bin) == text::optional(args.gvproxy_bin),
        config.in_microvm == args.vsock,
        config.state_volume_mounted == state_volume_mounted,
{
    let dir = cli.client_instance_dir(usual_state_dir);
    Config {
        host_key_path: paths::join(dir.as_str(), "ssh_host_ed25519_key"),
        minimal_state_dir: cli.minimal_state_dir(usual_state_dir),
        minimal_cache_dir: cli.minimal_cache_dir(usual_cache_dir),
        gvproxy_bin: text::copy_optional(&args.gvproxy_bin),
        in_microvm: args.vsock,
        state_volume_mounted,
    }
}

/// What the process does at its end.
#[derive(Clone, Copy, PartialEq, Eq, Structural, Debug)]
pub enum MainEnd {
    /// Take the virtual machine down, and stay behind if that fails.
    ShutDownVm,
    /// End with the result.
    Return,
}

/// What the process does at its end: the init of a microVM must not end, or
/// the kernel would panic.
pub fn main_end(microvm: bool) -> (end: MainEnd)
    ensures
        end == (if microvm {
            MainEnd::ShutDownVm
        } else {
            MainEnd::Return
        }),
{
    if microvm {
        MainEnd::ShutDownVm
    } else {
        MainEnd::Return
    }
}

/// How long a daemon in the background has to come up, in seconds.
pub const DETACH_TIMEOUT_SECS: u64 = 8;

/// How long to wait before looking again whether it has, in milliseconds.
pub const DETACH_POLL_MILLIS: u64 = 100;

/// What a daemon in the background is told: the same, but for that.
pub open spec fn foreground_args(args: Seq<Seq<char>>) -> Seq<Seq<char>> {
    args.filter(|a: Seq<char>| a != "--detach"@)
}

/// What a daemon in the background is told, from what this one was told, its
/// own name apart.
pub fn detached_args(args: &Vec<String>) -> (kept: Vec<String>)
    ensures
        text::texts(kept@) == foreground_args(text::texts(args@)),
{
    let mut kept: Vec<String> = Vec::new();
    let ghost wanted = |a: Seq<char>| a != "--detach"@;
    let mut i: usize = 0;
    assert(text::texts(args@).take(0).filter(wanted) =~= Seq::empty()) by {
        reveal(Seq::filter);
    }
    assert(text::texts(kept@) =~= Seq::empty());
    while i < args.len()
        invariant
            i <= args@.len(),
            wanted == (|a: Seq<char>| a != "--detach"@),
            text::texts(kept@) == text::texts(args@).take(i as int).filter(wanted),
        decreases args@.len() - i,
    {
        let ghost before = kept@;
        let ghost arg = text::texts(args@)[i as int];
        if !text::same_text(args[i].as_str(), "--detach") {
            kept.push(args[i].clone());
            assert(text::texts(kept@) =~= text::texts(before).push(arg));
        }
        proof {
            let shorter = text::texts(args@).take(i as int);
            assert(text::texts(args@).take(i + 1) =~= shorter.push(arg));
            reveal(Seq::filter);
            assert(shorter.push(arg).drop_last() =~= shorter);
        }
        i = i + 1;
    }
    assert(text::texts(args@).take(i as int) =~= text::texts(args@));
    kept
}

/// What is known of a daemon that was sent to the background.
#[derive(Debug)]
pub struct DetachPoll {
    /// How it ended, in words, if it has.
    pub exited: Result<Option<String>, Fault>,
    /// Whether its socket can be connected to.
    pub connectable: bool,
    /// Whether its lock is held. It is looked at only with a socket that can
    /// be connected to.
    pub lock_held: Result<bool, Fault>,
    /// Whether its time is up.
    pub late: bool,
}

/// What is made of it.
#[derive(Debug)]
pub enum DetachNext {
    /// It is up.
    Ready,
    Failed(MainError),
    /// Look again a little later.
    Wait,
}

/// Decides whether a daemon in the background is up. A socket that can be
/// connected to is not enough: another one may serve it, so the lock must be
/// held too. One that has ended, or whose time is up, is an error.
pub fn spawn_detached(poll: DetachPoll, sock: &str) -> (next: DetachNext)
    ensures
        match poll.exited {
            Err(f) => next matches DetachNext::Failed(MainError::IO(e, w)) && e == f && w@
                == "polling detached minimald"@,
            Ok(Some(status)) => next matches DetachNext::Failed(MainError::Other(w)) && w@
                == "detached minimald exited during startup ("@ + status@
                + "); run without --detach to see the error"@,
            Ok(None) => match (poll.connectable, poll.lock_held) {
                (true, Err(f)) => next matches DetachNext::Failed(MainError::IO(e, w)) && e == f
                    && w@ == "probing instance lock"@,
                (true, Ok(true)) => next is Ready,
                _ => if poll.late {
                    next matches DetachNext::Failed(MainError::Other(w)) && w@
                        == "detached minimald did not start listening on "@ + sock@ + " within "@
                        + text::decimal_text(DETACH_TIMEOUT_SECS as nat) + "s"@
                } else {
                    next is Wait
                },
            },
        },
{
    match poll.exited {
        Err(f) => {
            return DetachNext::Failed(MainError::IO(f, "polling detached minimald"));
        },
        Ok(Some(status)) => {
            return DetachNext::Failed(
                MainError::Other(
                    text::cat3(
                        "detached minimald exited during startup (",
                        status.as_str(),
                        "); run without --detach to see the error",
                    ),
                ),
            );
        },
        Ok(None) => {},
    }
    if poll.connectable {
        match poll.lock_held {
            Err(f) => {
                return DetachNext::Failed(MainError::IO(f, "probing instance lock"));
            },
            Ok(true) => {
                return DetachNext::Ready;
            },
            Ok(false) => {},
        }
    }
    if poll.late {
        DetachNext::Failed(
            MainError::Other(
                text::cat5(
                    "detached minimald did not start listening on ",
                    sock,
                    " within ",
                    text::decimal(DETACH_TIMEOUT_SECS as u128).as_str(),
                    "s",
                ),
            ),
        )
    } else {
        DetachNext::Wait
    }
}

/// Whether a lock is held, from opening its file and trying to share it: a
/// file that is not there is held by nobody, and one that cannot be shared at
/// the moment is held.
pub fn lock_held(opened: Result<(), Fault>, shared: Result<(), Fault>) -> (held: Result<bool, Fault>)
    ensures
        held == (match opened {
            Err(f) => if f.kind == FaultKind::NotFound {
                Ok::<bool, Fault>(false)
            } else {
                Err(f)
            },
            Ok(_) => match shared {
                Ok(_) => Ok(false),
                Err(f) => if f.kind == FaultKind::WouldBlock {
                    Ok(true)
                } else {
                    Err(f)
                },
            },
        }),
{
    match opened {
        Err(f) => {
            if f.kind == FaultKind::NotFound {
                Ok(false)
            } else {
                Err(f)
            }
        },
        Ok(()) => match shared {
            Ok(()) => Ok(false),
            Err(f) => {
                if f.kind == FaultKind::WouldBlock {
                    Ok(true)
                } else {
                    Err(f)
                }
            },
        },
    }
}

/// An option of a vsock listener.
#[derive(Clone, Copy, PartialEq, Eq, Structural, Debug)]
pub enum VsockOption {
    /// The largest window that can be set.
    BufferMaxSize,
    /// The window.
    BufferSize,
}

/// The options that are set for a window, in order: the largest one comes
/// first, since the other is clamped to it without an error.
pub fn rx_window_options() -> (options: Vec<VsockOption>)
    ensures
        options@ == seq![VsockOption::BufferMaxSize, VsockOption::BufferSize],
{
    let mut options: Vec<VsockOption> = Vec::new();
    options.push(VsockOption::BufferMaxSize);
    options.push(VsockOption::BufferSize);
    options
}

/// A lock is held exactly where its file is there and cannot be shared at the
/// moment; a file that is not there is held by nobody.
pub proof fn law_a_held_lock_cannot_be_shared(
    opened: Result<(), Fault>,
    shared: Result<(), Fault>,
    held: Result<bool, Fault>,
)
    requires
        call_ensures(lock_held, (opened, shared), held),
    ensures
        held == Ok::<bool, Fault>(true) <==> opened is Ok && shared is Err && shared->Err_0.kind
            == FaultKind::WouldBlock,
        opened is Err && opened->Err_0.kind == FaultKind::NotFound ==> held == Ok::<bool, Fault>(
            false,
        ),
        opened is Ok && shared is Ok ==> held == Ok::<bool, Fault>(false),
{
}

/// The order in which a daemon comes up. Mounts come before what is kept on
/// them, the lock before anything that another daemon could be using, and the
/// word that it is ready behind the port that it listens on.
pub proof fn law_a_daemon_comes_up_in_order(step: BootStep)
    ensures
        place(BootStep::RegisterShim) < place(BootStep::RaiseNofile),
        place(BootStep::RaiseNofile) < place(BootStep::MountDev),
        place(BootStep::MountDev) < place(BootStep::EnterRootfs),
        place(BootStep::EnterRootfs) < place(BootStep::MountState),
        place(BootStep::MountState) < place(BootStep::CreateStateDir),
        place(BootStep::CreateStateDir) < place(BootStep::ActivateLog),
        place(BootStep::ActivateLog) < place(BootStep::MigrateProviders),
        place(BootStep::MigrateProviders) < place(BootStep::CreateInstanceDir),
        place(BootStep::CreateInstanceDir) < place(BootStep::OpenLock),
        place(BootStep::OpenLock) < place(BootStep::TakeLock),
        place(BootStep::TakeLock) < place(BootStep::WritePid),
        place(BootStep::WritePid) < place(BootStep::ProbeMinvmd),
        place(BootStep::ProbeMinvmd) < place(BootStep::LoadHostKey),
        place(BootStep::LoadHostKey) < place(BootStep::PruneKnownHosts),
        place(BootStep::PruneKnownHosts) < place(BootStep::LearnKnownHosts),
        place(BootStep::LearnKnownHosts) < place(BootStep::WarnUserns),
        place(BootStep::WarnUserns) < place(BootStep::FollowClock),
        place(BootStep::FollowClock) < place(BootStep::RemoveSocket),
        place(BootStep::RemoveSocket) < place(BootStep::BindSocket),
        place(BootStep::BindSocket) < place(BootStep::ServeSocket),
        place(BootStep::ServeSocket) < place(BootStep::BindVsock),
        place(BootStep::BindVsock) < place(BootStep::WidenWindow),
        place(BootStep::WidenWindow) < place(BootStep::EmitReady),
        place(BootStep::EmitReady) < place(BootStep::BringUpEgress),
        place(BootStep::BringUpEgress) < place(BootStep::ServeVsock),
        following(step) is None <==> step is ServeVsock,
        following(step) is Some ==> place(following(step)->0) == place(step) + 1,
{
}

/// What a daemon does on its way up: what belongs to every daemon, and of the
/// rest what it was told, the shim out of a microVM alone, and one of the two
/// ways to listen.
pub proof fn law_a_daemon_does_what_it_was_told(args: ListenArgs, microvm: bool)
    ensures
        applies(args, microvm, BootStep::CreateStateDir),
        applies(args, microvm, BootStep::ActivateLog),
        applies(args, microvm, BootStep::MigrateProviders),
        applies(args, microvm, BootStep::CreateInstanceDir),
        applies(args, microvm, BootStep::OpenLock),
        applies(args, microvm, BootStep::TakeLock),
        applies(args, microvm, BootStep::WritePid),
        applies(args, microvm, BootStep::ProbeMinvmd),
        applies(args, microvm, BootStep::LoadHostKey),
        applies(args, microvm, BootStep::PruneKnownHosts),
        applies(args, microvm, BootStep::LearnKnownHosts),
        applies(args, microvm, BootStep::WarnUserns),
        applies(args, microvm, BootStep::RegisterShim) <==> !microvm,
        applies(args, microvm, BootStep::RaiseNofile) <==> args.rlimit_nofile is Some,
        applies(args, microvm, BootStep::MountDev) <==> args.mount_dev,
        applies(args, microvm, BootStep::EnterRootfs) <==> args.mount_rootfs is Some,
        applies(args, microvm, BootStep::MountState) <==> args.mk_mount_state_volume is Some,
        applies(args, microvm, BootStep::FollowClock) <==> args.timekeep_listener_port is Some,
        applies(args, microvm, BootStep::RemoveSocket) <==> !args.vsock,
        applies(args, microvm, BootStep::BindSocket) <==> !args.vsock,
        applies(args, microvm, BootStep::ServeSocket) <==> !args.vsock,
        applies(args, microvm, BootStep::BindVsock) <==> args.vsock,
        applies(args, microvm, BootStep::WidenWindow) <==> args.vsock,
        applies(args, microvm, BootStep::EmitReady) <==> args.vsock,
        applies(args, microvm, BootStep::BringUpEgress) <==> args.vsock,
        applies(args, microvm, BootStep::ServeVsock) <==> args.vsock,
{
}

/// The next step is the first in the order that is to be done at all.
pub proof fn law_the_next_step_is_the_first_to_do(
    args: ListenArgs,
    microvm: bool,
    step: BootStep,
    other: BootStep,
)
    requires
        place(step) <= place(other),
        applies(args, microvm, other),
    ensures
        first_from(args, microvm, step) is Some,
        applies(args, microvm, first_from(args, microvm, step)->0),
        place(step) <= place(first_from(args, microvm, step)->0) <= place(other),
    decreases 26 - place(step),
{
    lemma_first_from(args, microvm, step);
    if !applies(args, microvm, step) {
        if place(step) == place(other) {
            assert(step == other);
        }
        law_the_next_step_is_the_first_to_do(args, microvm, following(step)->0, other);
    }
}

/// What a failed step comes to. A daemon whose root or whose state, in a
/// microVM, could not be mounted stays behind; it ends where its directories,
/// its lock, its key or its listener could not be had, and goes on without the
/// rest. A directory that is there already, and a socket that is not there, are
/// no failures.
pub proof fn law_what_a_daemon_cannot_do_without(
    args: ListenArgs,
    microvm: bool,
    step: BootStep,
    f: Fault,
    next: BootNext,
)
    requires
        boot_follows(args, microvm, step, StepOutcome::Failed(f), next),
    ensures
        next is Park <==> step is EnterRootfs || (step is MountState && args.vsock),
        step is EnterRootfs ==> next->Park_0 is NoRoot,
        step is MountState && args.vsock ==> next->Park_0 is NoState && next->Park_0->error@
            == f.text@,
        next is Fail <==> ({
            ||| step is MountState && !args.vsock
            ||| step is CreateStateDir && !(f.kind is AlreadyExists)
            ||| step is CreateInstanceDir && !(f.kind is AlreadyExists)
            ||| step is OpenLock
            ||| step is TakeLock
            ||| step is ProbeMinvmd
            ||| step is LoadHostKey
            ||| step is LearnKnownHosts
            ||| step is RemoveSocket && !(f.kind is NotFound)
            ||| step is BindSocket
            ||| step is ServeSocket
            ||| step is BindVsock
            ||| step is ServeVsock
        }),
        next is Fail && next->Fail_0 is IO ==> next->Fail_0->IO_0 == f,
        step is TakeLock && f.kind is WouldBlock ==> next->Fail_0 is Other
            && next->Fail_0->Other_0@ == "minimald "@ + "local-minimald"@ + text::decimal_text(
            args.instance_num as nat,
        ) + " is already running (instance lock held)"@,
        step is TakeLock && !(f.kind is WouldBlock) ==> next->Fail_0 is IO && next->Fail_0->IO_1@
            == "acquiring instance lock"@,
        step is LoadHostKey || step is LearnKnownHosts ==> next->Fail_0 is Other
            && next->Fail_0->Other_0@ == "ssh key: "@ + f.text@,
        step is BindSocket ==> next->Fail_0 is IO && next->Fail_0->IO_1@
            == "listening to socket"@,
        step is BindVsock ==> next->Fail_0 is IO && next->Fail_0->IO_1@ == "binding vsock port"@,
        step is OpenLock ==> next->Fail_0 is IO && next->Fail_0->IO_1@
            == "opening instance lock"@,
        step is ProbeMinvmd ==> next->Fail_0 is IO && next->Fail_0->IO_1@
            == "probing minvmd lock"@,
        step is ServeSocket ==> next->Fail_0 is IO && next->Fail_0->IO_1@ == "serving on UDS"@,
        step is ServeVsock ==> next->Fail_0 is IO && next->Fail_0->IO_1@
            == "serving on guest vsock"@,
        next is Fail && step is MountState ==> next->Fail_0 is IO && next->Fail_0->IO_1@
            == "mounting the state volume"@,
        next is Fail && step is CreateStateDir ==> next->Fail_0 is IO && next->Fail_0->IO_1@
            == "creating minimal dir"@,
        next is Fail && step is CreateInstanceDir ==> next->Fail_0 is IO && next->Fail_0->IO_1@
            == "creating provider dir"@,
        next is Fail && step is RemoveSocket ==> next->Fail_0 is IO && next->Fail_0->IO_1@
            == "socket already in use"@,
{
    assert(text_of_instance(args.instance_num as nat)
        =~= "minimald "@ + "local-minimald"@ + text::decimal_text(args.instance_num as nat));
}

spec fn text_of_instance(n: nat) -> Seq<char> {
    "minimald "@ + instance_name(n)
}

/// A step that was done, or could be done without, leads to the next one that is
/// to be done; serving leads to the end. A machine that serves the instance ends
/// the daemon.
pub proof fn law_a_daemon_goes_on_to_what_is_next(
    args: ListenArgs,
    microvm: bool,
    step: BootStep,
    outcome: StepOutcome,
    next: BootNext,
)
    requires
        boot_follows(args, microvm, step, outcome, next),
        !(outcome is Failed),
    ensures
        step is ServeSocket || step is ServeVsock ==> next is Ended,
        outcome is Held && step is ProbeMinvmd ==> next is Fail && next->Fail_0 is Other
            && next->Fail_0->Other_0@ == "a minvmd VM is serving "@ + ("local-minimald"@
            + text::decimal_text(args.instance_num as nat))
            + "'s socket; stop it first (`minvmd stop`)"@,
        next is Fail ==> outcome is Held && step is ProbeMinvmd,
        !(next is Park),
        next is Do ==> applies(args, microvm, next->Do_0) && place(step) < place(next->Do_0)
            && forall|t: BootStep|
            place(step) < #[trigger] place(t) < place(next->Do_0) ==> !applies(args, microvm, t),
        outcome is Done && !(step is ServeSocket) && !(step is ServeVsock) && (args.vsock || place(
            step,
        ) < place(BootStep::ServeSocket)) ==> next is Do,
{
    if following(step) is Some {
        lemma_first_from(args, microvm, following(step)->0);
        if args.vsock {
            law_the_next_step_is_the_first_to_do(
                args,
                microvm,
                following(step)->0,
                BootStep::ServeVsock,
            );
        } else if place(step) < place(BootStep::ServeSocket) {
            law_the_next_step_is_the_first_to_do(
                args,
                microvm,
                following(step)->0,
                BootStep::ServeSocket,
            );
        }
    }
}

/// A daemon that is to run comes up, one that is to go on in the background is
/// sent there, and only a socket in the file system can be waited for from
/// outside.
pub proof fn law_only_a_socket_can_be_waited_for(cli: &Cli, microvm: bool, start: BootStart)
    requires
        !(cli.command is Nsenter),
        call_ensures(begin_boot, (cli, microvm), start),
    ensures
        cli.command is Completions ==> start is PrintCompletions,
        cli.command is Run ==> {
            let args = cli.command->Run_0;
            &&& start is Refused <==> args.detach && args.vsock
            &&& start is SpawnDetached <==> args.detach && !args.vsock
            &&& start is Run <==> !args.detach
            &&& start is Refused ==> start->Refused_0 is Other && start->Refused_0->Other_0@
                == "--detach is only supported for Unix-socket listeners (not --vsock)"@
            &&& start is Run ==> applies(args, microvm, start->Run_0) && forall|t: BootStep|
                #[trigger] place(t) < place(start->Run_0) ==> !applies(args, microvm, t)
        },
{
    if cli.command is Run {
        let args = cli.command->Run_0;
        lemma_first_from(args, microvm, BootStep::RegisterShim);
        if start is Run {
            assert forall|t: BootStep| #[trigger] place(t) < place(start->Run_0) implies !applies(
                args,
                microvm,
                t,
            ) by {
                assert(place(BootStep::RegisterShim) <= place(t));
            }
        }
    }
}

/// A lock is beside the socket of its instance, and in a microVM where nothing
/// outlives the machine; two instances never share one there.
pub proof fn law_an_instance_has_its_own_lock(
    dir: Seq<char>,
    name: Seq<char>,
    file: Seq<char>,
)
    ensures
        lock_path(dir, name, true, file) == "/run/minimald-"@ + name + ".lock"@,
        lock_path(dir, name, false, file) == paths::joined_path(dir, file),
{
}

/// What a daemon in the background is told is what this one was told, in the
/// same order, but for being in the background.
pub proof fn law_a_daemon_in_the_background_is_told_the_same(args: Seq<Seq<char>>, arg: Seq<char>)
    ensures
        foreground_args(args.push(arg)) == (if arg == "--detach"@ {
            foreground_args(args)
        } else {
            foreground_args(args).push(arg)
        }),
        foreground_args(Seq::empty()).len() == 0,
{
    reveal(Seq::filter);
    assert(args.push(arg).drop_last() =~= args);
}

/// A daemon in the background is up once its socket can be connected to while
/// it holds its lock, and it has not ended. One that ended, that cannot be asked
/// after, or that is late is an error.
pub proof fn law_a_daemon_in_the_background_is_up_with_its_lock(
    poll: DetachPoll,
    sock: &str,
    next: DetachNext,
)
    requires
        call_ensures(spawn_detached, (poll, sock), next),
    ensures
        next is Ready <==> poll.exited is Ok && poll.exited->Ok_0 is None && poll.connectable
            && poll.lock_held is Ok && poll.lock_held->Ok_0,
        next is Wait <==> poll.exited is Ok && poll.exited->Ok_0 is None && !poll.late && !(
        poll.connectable && (poll.lock_held is Err || poll.lock_held->Ok_0)),
        poll.exited is Err ==> next is Failed && next->Failed_0 is IO && next->Failed_0->IO_0
            == poll.exited->Err_0 && next->Failed_0->IO_1@ == "polling detached minimald"@,
        poll.exited is Ok && poll.exited->Ok_0 is Some ==> next is Failed
            && next->Failed_0 is Other && next->Failed_0->Other_0@
            == "detached minimald exited during startup ("@ + poll.exited->Ok_0->0@
            + "); run without --detach to see the error"@,
        poll.exited is Ok && poll.exited->Ok_0 is None && poll.connectable && poll.lock_held is Err
            ==> next is Failed && next->Failed_0 is IO && next->Failed_0->IO_0
            == poll.lock_held->Err_0 && next->Failed_0->IO_1@ == "probing instance lock"@,
        poll.exited is Ok && poll.exited->Ok_0 is None && poll.late && !(poll.connectable && (
        poll.lock_held is Err || poll.lock_held->Ok_0)) ==> next is Failed
            && next->Failed_0 is Other && next->Failed_0->Other_0@
            == "detached minimald did not start listening on "@ + sock@ + " within "@ + seq!['8']
            + "s"@,
{
    assert(text::decimal_text(8) =~= seq!['8']);
}

/// The server is told where state, cache and key are, and of the switch what the
/// command line says of it; it is in a microVM where it listens on vsock.
pub proof fn law_a_server_is_told_what_the_command_line_says(
    cli: &Cli,
    args: &ListenArgs,
    state: &str,
    cache: &str,
    mounted: bool,
    config: Config,
)
    requires
        call_ensures(server_config, (cli, args, state, cache, mounted), config),
    ensures
        config.in_microvm <==> args.vsock,
        config.state_volume_mounted <==> mounted,
        config.gvproxy_bin is Some <==> args.gvproxy_bin is Some,
        config.gvproxy_bin is Some ==> config.gvproxy_bin->0@ == args.gvproxy_bin->0@,
        cli.global_args.minimal_state_dir is Some ==> config.minimal_state_dir@
            == cli.global_args.minimal_state_dir->0@,
        cli.global_args.minimal_state_dir is None ==> config.minimal_state_dir@ == state@,
        cli.global_args.minimal_cache_dir is Some ==> config.minimal_cache_dir@
            == cli.global_args.minimal_cache_dir->0@,
        cli.global_args.minimal_cache_dir is None ==> config.minimal_cache_dir@ == cache@,
        config.host_key_path@ == paths::joined_path(
            paths::joined_path(
                paths::joined_path(config.minimal_state_dir@, "providers"@),
                "local-minimald"@ + text::decimal_text(cli.number() as nat),
            ),
            "ssh_host_ed25519_key"@,
        ),
{
}

/// The init of a microVM takes the machine down with it, and any other process
/// just ends; every instance listens on a port of its own; the largest window
/// is set before the window.
pub proof fn law_the_ends_of_a_daemon(
    microvm: bool,
    n: u32,
    end: MainEnd,
    port: u32,
    options: Vec<VsockOption>,
)
    requires
        2222 + n <= u32::MAX,
        call_ensures(main_end, (microvm,), end),
        call_ensures(vsock_port, (n,), port),
        call_ensures(rx_window_options, (), options),
    ensures
        end is ShutDownVm <==> microvm,
        port - n == 2222,
        options@.len() == 2,
        options@[0] is BufferMaxSize,
        options@[1] is BufferSize,
{
}

/// A lock that can neither be opened nor shared for any other reason is an
/// error, and says what it was.
pub proof fn law_a_lock_that_cannot_be_probed_is_an_error(
    opened: Result<(), Fault>,
    shared: Result<(), Fault>,
    held: Result<bool, Fault>,
)
    requires
        call_ensures(lock_held, (opened, shared), held),
    ensures
        opened is Err && !(opened->Err_0.kind is NotFound) ==> held is Err && held->Err_0
            == opened->Err_0,
        opened is Ok && shared is Err && !(shared->Err_0.kind is WouldBlock) ==> held is Err
            && held->Err_0 == shared->Err_0,
{
}

/// What [`boot_step`] decides is what is said of coming up here, and locks and
/// arguments are as is said here too.
pub proof fn law_a_daemon_comes_up_as_stated(
    args: &ListenArgs,
    microvm: bool,
    step: BootStep,
    outcome: StepOutcome,
    next: BootNext,
    cli: &Cli,
    state: &str,
    file: &str,
    lock: String,
    told: &Vec<String>,
    kept: Vec<String>,
)
    requires
        call_ensures(boot_step, (args, microvm, step, outcome), next),
        call_ensures(instance_lock_path, (cli, state, microvm, file), lock),
        call_ensures(detached_args, (told,), kept),
    ensures
        boot_follows(*args, microvm, step, outcome, next),
        microvm ==> lock@ == "/run/minimald-"@ + ("local-minimald"@ + text::decimal_text(
            cli.number() as nat,
        )) + ".lock"@,
        !microvm ==> lock@ == paths::joined_path(
            instance_dir(cli.state_dir(state@), cli.number() as nat),
            file@,
        ),
        text::texts(kept@) == foreground_args(text::texts(told@)),
{
}

/// A daemon whose state is kept on a volume keeps its cache there too, and is
/// otherwise told the same.
pub proof fn law_state_and_cache_move_together(mountpoint: &str)
    ensures
        forall|cli: &mut Cli| #[trigger]
            call_ensures(relocate, (cli, mountpoint), ()) ==> {
                &&& final(cli).command == cli.command
                &&& final(cli).global_args.minimal_state_dir is Some
                &&& final(cli).global_args.minimal_state_dir->0@ == mountpoint@
                &&& final(cli).global_args.minimal_cache_dir is Some
                &&& final(cli).global_args.minimal_cache_dir->0@ == mountpoint@ + "/cache"@
                &&& final(cli).global_args.stdlib_dir == cli.global_args.stdlib_dir
                &&& final(cli).global_args.num_parallel_builds
                    == cli.global_args.num_parallel_builds
            },
{
}

} // verus!
