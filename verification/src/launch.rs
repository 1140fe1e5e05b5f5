//! Launching a session's shell: its packages, its environment, its network,
//! and what is undone when a launch is abandoned.
use vstd::prelude::*;
use vstd::string::*;

use crate::env::EnvMap;
use crate::text;

verus! {

/// The part of the orientation banner that prints it: at the first prompt,
/// once, and then both variables are gone.
pub const BASELINE_PROMPT_COMMAND: &'static str =
    "eval \"$MINIMAL_MOTD\"; unset PROMPT_COMMAND MINIMAL_MOTD";

/// The part of the orientation banner that says what it says. What it needs to
/// know it takes from the environment, or looks for in the workspace, when it
/// prints.
pub const BASELINE_MOTD: &'static str =
    "[ -t 1 ] && { printf 'minimal · session %s · loadout %s\\ndetach: %s' \"${MINIMAL_SESSION_NAME:-unnamed}\" \"${MINIMAL_LOADOUTS:-none}\" \"${MINIMAL_DETACH_HINT:-ctrl-] then d}\"; [ -f /workbench/minimal.toml ] || [ -f /workbench/.minimal/minimal.toml ] || printf ' · no minimal.toml here — min init to add one'; printf '\\n'; }";

/// The variables that every session starts from: who it is, and the banner.
pub open spec fn baseline_pairs(name: Seq<char>, loadouts: Option<Seq<char>>) -> Seq<(Seq<char>, Seq<char>)> {
    let base = seq![
        ("MINIMAL_SESSION_NAME"@, name),
        ("PROMPT_COMMAND"@, BASELINE_PROMPT_COMMAND@),
        ("MINIMAL_MOTD"@, BASELINE_MOTD@),
    ];
    match loadouts {
        Some(display) => base.push(("MINIMAL_LOADOUTS"@, display)),
        None => base,
    }
}

/// The lowest layer of a session's environment. Without a list of loadouts to
/// display that variable stays unset, and the banner's own words stand in.
pub fn session_baseline_env(session_name: &str, loadouts_display: Option<&str>) -> (env: Vec<
    (String, String),
>)
    ensures
        crate::env::pair_texts(env@) == baseline_pairs(
            session_name@,
            match loadouts_display {
                Some(d) => Some(d@),
                None => None,
            },
        ),
{
    let mut env: Vec<(String, String)> = Vec::new();
    env.push(("MINIMAL_SESSION_NAME".to_owned(), session_name.to_owned()));
    env.push(("PROMPT_COMMAND".to_owned(), BASELINE_PROMPT_COMMAND.to_owned()));
    env.push(("MINIMAL_MOTD".to_owned(), BASELINE_MOTD.to_owned()));
    match loadouts_display {
        Some(display) => {
            env.push(("MINIMAL_LOADOUTS".to_owned(), display.to_owned()));
        },
        None => {},
    }
    assert(crate::env::pair_texts(env@) =~= baseline_pairs(
        session_name@,
        match loadouts_display {
            Some(d) => Some(d@),
            None => None,
        },
    ));
    env
}

/// Layers a session's environment, the lowest layer first: the baseline, what
/// the client's own shell passes on, the composition, and the facts of the
/// connection. A later layer wins.
pub fn layer_session_env(
    baseline: Vec<(String, String)>,
    inherited: Vec<(String, String)>,
    composition: Vec<(String, String)>,
    connection: Vec<(String, String)>,
) -> (env: EnvMap)
    ensures
        env@ == crate::env::layered(
            crate::env::pair_texts(baseline@ + inherited@ + composition@ + connection@),
        ),
{
    let mut env = EnvMap::new();
    env.extend(&baseline);
    env.extend(&inherited);
    env.extend(&composition);
    env.extend(&connection);
    proof {
        let b = crate::env::pair_texts(baseline@);
        let i = crate::env::pair_texts(inherited@);
        let c = crate::env::pair_texts(composition@);
        let n = crate::env::pair_texts(connection@);
        assert(Map::<Seq<char>, Seq<char>>::empty().union_prefer_right(crate::env::layered(b))
            =~= crate::env::layered(b));
        crate::env::law_later_layers_win(b, i);
        crate::env::law_later_layers_win(b + i, c);
        crate::env::law_later_layers_win(b + i + c, n);
        assert(crate::env::pair_texts(baseline@ + inherited@ + composition@ + connection@) =~= b + i
            + c + n);
    }
    env
}

/// The environment that a session's shell starts in. A display list that is
/// empty counts as unknown.
pub fn session_env(
    session_name: &str,
    loadouts_display: &str,
    inherited: Vec<(String, String)>,
    composition: Vec<(String, String)>,
    connection: Vec<(String, String)>,
) -> (env: EnvMap)
    ensures
        env@ == crate::env::layered(
            baseline_pairs(
                session_name@,
                if loadouts_display@.len() > 0 {
                    Some(loadouts_display@)
                } else {
                    None
                },
            ) + crate::env::pair_texts(inherited@ + composition@ + connection@),
        ),
{
    let display = if loadouts_display.is_empty() {
        None
    } else {
        Some(loadouts_display)
    };
    let baseline = session_baseline_env(session_name, display);
    proof {
        assert(crate::env::pair_texts(baseline@ + inherited@ + composition@ + connection@)
            =~= crate::env::pair_texts(baseline@) + crate::env::pair_texts(
            inherited@ + composition@ + connection@,
        ));
    }
    layer_session_env(baseline, inherited, composition, connection)
}

/// The packages that every session has: a shell, the usual tools, and the
/// relay behind the `min` command.
pub open spec fn baseline_packages() -> Seq<Seq<char>> {
    seq!["base"@, "coreutils"@, "socat"@]
}

/// `first`, and then what of `rest` is not there yet, in order.
pub open spec fn union_in_order(first: Seq<Seq<char>>, rest: Seq<Seq<char>>) -> Seq<Seq<char>>
    decreases rest.len(),
{
    if rest.len() == 0 {
        first
    } else {
        let so_far = union_in_order(first, rest.drop_last());
        if so_far.contains(rest.last()) {
            so_far
        } else {
            so_far.push(rest.last())
        }
    }
}

fn holds(list: &Vec<String>, s: &str) -> (yes: bool)
    ensures
        yes == text::texts(list@).contains(s@),
{
    let mut i: usize = 0;
    while i < list.len()
        invariant
            i <= list@.len(),
            forall|k: int| 0 <= k < i ==> (#[trigger] list@[k])@ != s@,
        decreases list@.len() - i,
    {
        if text::same_text(list[i].as_str(), s) {
            assert(text::texts(list@)[i as int] == s@);
            return true;
        }
        i = i + 1;
    }
    proof {
        if text::texts(list@).contains(s@) {
            let k = choose|k: int| 0 <= k < text::texts(list@).len() && text::texts(list@)[k] == s@;
            assert(list@[k]@ == s@);
        }
    }
    false
}

/// The packages of a session: the baseline first, then what the composition
/// adds, each once.
pub fn session_packages(composition: &Vec<String>) -> (packages: Vec<String>)
    ensures
        text::texts(packages@) == union_in_order(baseline_packages(), text::texts(composition@)),
{
    let mut packages: Vec<String> = Vec::new();
    packages.push("base".to_owned());
    packages.push("coreutils".to_owned());
    packages.push("socat".to_owned());
    let ghost all = text::texts(composition@);
    assert(text::texts(packages@) =~= union_in_order(baseline_packages(), all.take(0)));
    let mut i: usize = 0;
    while i < composition.len()
        invariant
            i <= composition@.len(),
            all == text::texts(composition@),
            text::texts(packages@) == union_in_order(baseline_packages(), all.take(i as int)),
        decreases composition@.len() - i,
    {
        proof {
            assert(all.take(i + 1).drop_last() =~= all.take(i as int));
            assert(all.take(i + 1).last() == composition@[i as int]@);
        }
        if !holds(&packages, composition[i].as_str()) {
            let ghost before = packages@;
            packages.push(composition[i].clone());
            assert(text::texts(packages@) =~= text::texts(before).push(composition@[i as int]@));
        }
        i = i + 1;
    }
    assert(all.take(i as int) =~= all);
    packages
}

/// No package is listed twice, the first list comes first and whole, and
/// nothing of the second is missing.
pub proof fn law_union_in_order(first: Seq<Seq<char>>, rest: Seq<Seq<char>>)
    requires
        first.no_duplicates(),
    ensures
        union_in_order(first, rest).no_duplicates(),
        first.is_prefix_of(union_in_order(first, rest)),
        forall|i: int|
            0 <= i < rest.len() ==> union_in_order(first, rest).contains(#[trigger] rest[i]),
    decreases rest.len(),
{
    if rest.len() > 0 {
        let before = rest.drop_last();
        let so_far = union_in_order(first, before);
        let all = union_in_order(first, rest);
        law_union_in_order(first, before);
        assert forall|i: int| 0 <= i < rest.len() implies all.contains(#[trigger] rest[i]) by {
            if i < before.len() {
                assert(so_far.contains(before[i]));
                let k = choose|k: int| 0 <= k < so_far.len() && so_far[k] == before[i];
                assert(all[k] == rest[i]);
            } else if !so_far.contains(rest.last()) {
                assert(all[so_far.len() as int] == rest[i]);
            }
        }
        if !so_far.contains(rest.last()) {
            assert(all.no_duplicates()) by {
                assert forall|i: int, j: int|
                    0 <= i < all.len() && 0 <= j < all.len() && i != j implies all[i] != all[j] by {
                    if i < so_far.len() && j < so_far.len() {
                        assert(all[i] == so_far[i] && all[j] == so_far[j]);
                    } else if i < so_far.len() {
                        assert(so_far.contains(so_far[i]));
                    } else {
                        assert(so_far.contains(so_far[j]));
                    }
                }
            }
            assert(first =~= all.subrange(0, first.len() as int));
        }
    } else {
        assert(first =~= first.subrange(0, first.len() as int));
    }
}

/// How a session reaches the network.
#[derive(Clone, Copy, PartialEq, Eq, Structural, Debug)]
pub enum NetworkMode {
    /// Through the network of the host.
    HostNet,
    /// Not at all.
    NoNet,
    /// With an address of its own, on the daemon's switch.
    OwnIp,
}

/// How the daemon reaches its switch.
#[derive(Clone, Copy, PartialEq, Eq, Structural, Debug)]
pub enum SwitchTransport {
    /// The switch is a process beside it, and a session's tap is built inside
    /// the session.
    LocalSpawn,
    /// The switch is outside the machine, and taps are moved into sessions.
    HostShuttle,
}

/// Whether the `i`th bit of `n`, counted from the lowest, is set.
pub open spec fn bit(n: u32, i: u32) -> bool {
    (n >> i) & 1 == 1
}

/// Whether `mask` has exactly its highest `prefix` bits set.
pub open spec fn masks(mask: u32, prefix: u32) -> bool {
    forall|i: u32| i < 32 ==> (#[trigger] bit(mask, i) <==> i >= 32 - prefix)
}

/// The mask of a network whose addresses share their first `prefix` bits.
pub fn netmask(prefix: u32) -> (mask: u32)
    requires
        prefix <= 32,
    ensures
        masks(mask, prefix),
{
    if prefix == 0 {
        assert forall|i: u32| i < 32 implies !(#[trigger] bit(0, i)) by {
            assert((0u32 >> i) & 1 == 0) by (bit_vector);
        }
        0
    } else {
        let shift: u32 = 32 - prefix;
        let mask = 0xffff_ffffu32 << shift;
        assert forall|i: u32| i < 32 implies (#[trigger] bit(mask, i) <==> i >= 32 - prefix) by {
            assert(((0xffff_ffffu32 << shift) >> i) & 1 == 1 <==> i >= shift) by (bit_vector)
                requires
                    shift < 32,
                    i < 32,
            ;
        }
        mask
    }
}

/// The tap that a session with an address of its own is built with.
#[derive(Clone, Copy, PartialEq, Eq, Structural, Debug)]
pub struct OwnIpTap {
    pub address: u32,
    pub netmask: u32,
    pub gateway: u32,
    pub mtu: u32,
}

/// Describes the tap for a lease on the switch's network.
pub fn own_ip_tap(address: u32, prefix: u32, gateway: u32, mtu: u32) -> (tap: OwnIpTap)
    requires
        prefix <= 32,
    ensures
        tap.address == address,
        masks(tap.netmask, prefix),
        tap.gateway == gateway,
        tap.mtu == mtu,
{
    OwnIpTap { address, netmask: netmask(prefix), gateway, mtu }
}

/// Where a launch stands.
#[derive(Clone, Copy, PartialEq, Eq, Structural, Debug)]
pub enum LaunchStage {
    /// The package graph is being evaluated.
    Graph,
    /// The session is being attached to the switch before it is built.
    Attach,
    /// The environment, the container and the process are being made.
    Build,
    /// The tap that the session built is being relayed to the switch.
    RelayTap,
    /// A tap is being moved into the session.
    MoveTap,
    /// The launch is over.
    Over,
}

/// The step of building that failed.
#[derive(Clone, Copy, PartialEq, Eq, Structural, Debug)]
pub enum BuildStep {
    Env,
    Container,
    PtyOpen,
    Command,
    /// Handing the pty to the command.
    Stdio,
    Exec,
}

/// What the driver of a launch has done. Each error is given in words.
#[derive(Debug)]
pub enum LaunchEvent {
    GraphDone { error: Option<String> },
    AttachDone { error: Option<String> },
    BuildDone { error: Option<(BuildStep, String)> },
    /// The tap was relayed, if the session made one.
    RelayDone { has_tap: bool, error: Option<String> },
    MoveDone { error: Option<String> },
    /// The launch was given up.
    Cancelled,
}

/// A launch, under way. It counts what would be left behind: an attachment to
/// the switch that no session owns yet, and a process likewise.
#[derive(Clone, Copy, PartialEq, Eq, Structural, Debug)]
pub struct Launch {
    pub mode: NetworkMode,
    pub transport: SwitchTransport,
    pub stage: LaunchStage,
    pub attach_armed: bool,
    pub process_armed: bool,
}

/// What an event comes to.
#[derive(Debug)]
pub enum LaunchNext {
    /// Go on with the stage that the launch is in now.
    Go,
    /// The session is launched, with a network attachment to release at its
    /// end where `network` says so.
    Launched { network: bool },
    /// The launch failed. What it had made is undone: the attachment, the
    /// process, or both.
    Failed { error: String, detach: bool, reap: bool },
    /// The launch was given up, and is undone likewise.
    Abandoned { detach: bool, reap: bool },
}

/// What a [`LaunchNext`] says.
pub ghost enum LaunchNextView {
    Go,
    Launched { network: bool },
    Failed { error: Seq<char>, detach: bool, reap: bool },
    Abandoned { detach: bool, reap: bool },
}

impl View for LaunchNext {
    type V = LaunchNextView;

    open spec fn view(&self) -> LaunchNextView {
        match self {
            LaunchNext::Go => LaunchNextView::Go,
            LaunchNext::Launched { network } => LaunchNextView::Launched { network: *network },
            LaunchNext::Failed { error, detach, reap } => LaunchNextView::Failed {
                error: error@,
                detach: *detach,
                reap: *reap,
            },
            LaunchNext::Abandoned { detach, reap } => LaunchNextView::Abandoned {
                detach: *detach,
                reap: *reap,
            },
        }
    }
}

/// Whether a session is attached to the switch before it is built.
pub open spec fn attaches_first(l: Launch) -> bool {
    l.mode == NetworkMode::OwnIp && l.transport == SwitchTransport::LocalSpawn
}

/// The launch has a state that it can be in.
pub open spec fn launch_wf(l: Launch) -> bool {
    match l.stage {
        LaunchStage::Graph => !l.attach_armed && !l.process_armed,
        LaunchStage::Attach => attaches_first(l) && !l.attach_armed && !l.process_armed,
        LaunchStage::Build => l.attach_armed == attaches_first(l) && !l.process_armed,
        LaunchStage::RelayTap => attaches_first(l) && l.attach_armed && l.process_armed,
        LaunchStage::MoveTap => l.mode == NetworkMode::OwnIp && !attaches_first(l)
            && !l.attach_armed && l.process_armed,
        LaunchStage::Over => !l.attach_armed && !l.process_armed,
    }
}

/// Whether an event can happen to a launch.
pub open spec fn launch_expects(l: Launch, event: LaunchEvent) -> bool {
    match event {
        LaunchEvent::GraphDone { .. } => l.stage == LaunchStage::Graph,
        LaunchEvent::AttachDone { .. } => l.stage == LaunchStage::Attach,
        LaunchEvent::BuildDone { .. } => l.stage == LaunchStage::Build,
        LaunchEvent::RelayDone { .. } => l.stage == LaunchStage::RelayTap,
        LaunchEvent::MoveDone { .. } => l.stage == LaunchStage::MoveTap,
        LaunchEvent::Cancelled => l.stage != LaunchStage::Over,
    }
}

/// A launch that is over, with nothing left behind.
pub open spec fn launch_over(l: Launch) -> Launch {
    Launch { stage: LaunchStage::Over, attach_armed: false, process_armed: false, ..l }
}

/// A launch that failed, with what it had made undone.
pub open spec fn launch_fails(l: Launch, error: Seq<char>) -> (Launch, LaunchNextView) {
    (
        launch_over(l),
        LaunchNextView::Failed { error, detach: l.attach_armed, reap: l.process_armed },
    )
}

/// The words for a step of building that failed.
pub open spec fn build_error(step: BuildStep, error: Seq<char>) -> Seq<char> {
    match step {
        BuildStep::Env => error,
        BuildStep::Container => "container build: "@ + error,
        BuildStep::PtyOpen => "pty open: "@ + error,
        BuildStep::Command => "build command: "@ + error,
        BuildStep::Stdio => error,
        BuildStep::Exec => "exec failed: "@ + error,
    }
}

/// What an event comes to.
pub open spec fn launch_step(l: Launch, event: LaunchEvent) -> (Launch, LaunchNextView) {
    match event {
        LaunchEvent::GraphDone { error } => match error {
            Some(e) => launch_fails(l, e@),
            None => (
                Launch {
                    stage: if attaches_first(l) {
                        LaunchStage::Attach
                    } else {
                        LaunchStage::Build
                    },
                    ..l
                },
                LaunchNextView::Go,
            ),
        },
        LaunchEvent::AttachDone { error } => match error {
            Some(e) => launch_fails(l, "attaching OwnIp PTask to switch: "@ + e@),
            None => (
                Launch { stage: LaunchStage::Build, attach_armed: true, ..l },
                LaunchNextView::Go,
            ),
        },
        LaunchEvent::BuildDone { error } => match error {
            Some((step, e)) => launch_fails(l, build_error(step, e@)),
            None => if attaches_first(l) {
                (
                    Launch { stage: LaunchStage::RelayTap, process_armed: true, ..l },
                    LaunchNextView::Go,
                )
            } else if l.mode == NetworkMode::OwnIp {
                (
                    Launch { stage: LaunchStage::MoveTap, process_armed: true, ..l },
                    LaunchNextView::Go,
                )
            } else {
                (launch_over(l), LaunchNextView::Launched { network: false })
            },
        },
        LaunchEvent::RelayDone { has_tap, error } => if !has_tap {
            launch_fails(l, "own-IP sandbox produced no in-namespace tap fd"@)
        } else {
            match error {
                Some(e) => launch_fails(l, e@),
                None => (launch_over(l), LaunchNextView::Launched { network: true }),
            }
        },
        LaunchEvent::MoveDone { error } => match error {
            Some(e) => launch_fails(l, e@),
            None => (launch_over(l), LaunchNextView::Launched { network: true }),
        },
        LaunchEvent::Cancelled => (
            launch_over(l),
            LaunchNextView::Abandoned { detach: l.attach_armed, reap: l.process_armed },
        ),
    }
}

impl Launch {
    /// A launch that has just begun.
    pub fn new(mode: NetworkMode, transport: SwitchTransport) -> (l: Self)
        ensures
            launch_wf(l),
            l == (Launch {
                mode,
                transport,
                stage: LaunchStage::Graph,
                attach_armed: false,
                process_armed: false,
            }),
    {
        Launch {
            mode,
            transport,
            stage: LaunchStage::Graph,
            attach_armed: false,
            process_armed: false,
        }
    }

    /// Whether the session is told the switch's name server: every one with an
    /// address of its own is.
    pub fn needs_dns(&self) -> (yes: bool)
        ensures
            yes == (self.mode == NetworkMode::OwnIp),
    {
        self.mode == NetworkMode::OwnIp
    }

    /// Whether the session is attached to the switch before it is built.
    fn first_attaches(&self) -> (yes: bool)
        ensures
            yes == attaches_first(*self),
    {
        self.mode == NetworkMode::OwnIp && self.transport == SwitchTransport::LocalSpawn
    }

    fn over(&mut self)
        ensures
            *final(self) == launch_over(*old(self)),
    {
        self.stage = LaunchStage::Over;
        self.attach_armed = false;
        self.process_armed = false;
    }

    fn fail(&mut self, error: String) -> (next: LaunchNext)
        ensures
            (*final(self), next@) == launch_fails(*old(self), error@),
    {
        let detach = self.attach_armed;
        let reap = self.process_armed;
        self.over();
        LaunchNext::Failed { error, detach, reap }
    }

    /// Takes what the driver has done.
    pub fn step(&mut self, event: LaunchEvent) -> (next: LaunchNext)
        requires
            launch_wf(*old(self)),
            launch_expects(*old(self), event),
        ensures
            launch_wf(*final(self)),
            (*final(self), next@) == launch_step(*old(self), event),
    {
        match event {
            LaunchEvent::GraphDone { error } => match error {
                Some(e) => self.fail(e),
                None => {
                    self.stage = if self.first_attaches() {
                        LaunchStage::Attach
                    } else {
                        LaunchStage::Build
                    };
                    LaunchNext::Go
                },
            },
            LaunchEvent::AttachDone { error } => match error {
                Some(e) => self.fail(text::cat2("attaching OwnIp PTask to switch: ", e.as_str())),
                None => {
                    self.stage = LaunchStage::Build;
                    self.attach_armed = true;
                    LaunchNext::Go
                },
            },
            LaunchEvent::BuildDone { error } => match error {
                Some((step, e)) => {
                    let words = match step {
                        BuildStep::Env | BuildStep::Stdio => e,
                        BuildStep::Container => text::cat2("container build: ", e.as_str()),
                        BuildStep::PtyOpen => text::cat2("pty open: ", e.as_str()),
                        BuildStep::Command => text::cat2("build command: ", e.as_str()),
                        BuildStep::Exec => text::cat2("exec failed: ", e.as_str()),
                    };
                    self.fail(words)
                },
                None => {
                    if self.first_attaches() {
                        self.stage = LaunchStage::RelayTap;
                        self.process_armed = true;
                        LaunchNext::Go
                    } else if self.mode == NetworkMode::OwnIp {
                        self.stage = LaunchStage::MoveTap;
                        self.process_armed = true;
                        LaunchNext::Go
                    } else {
                        self.over();
                        LaunchNext::Launched { network: false }
                    }
                },
            },
            LaunchEvent::RelayDone { has_tap, error } => {
                if !has_tap {
                    return self.fail("own-IP sandbox produced no in-namespace tap fd".to_owned());
                }
                match error {
                    Some(e) => self.fail(e),
                    None => {
                        self.over();
                        LaunchNext::Launched { network: true }
                    },
                }
            },
            LaunchEvent::MoveDone { error } => match error {
                Some(e) => self.fail(e),
                None => {
                    self.over();
                    LaunchNext::Launched { network: true }
                },
            },
            LaunchEvent::Cancelled => {
                let detach = self.attach_armed;
                let reap = self.process_armed;
                self.over();
                LaunchNext::Abandoned { detach, reap }
            },
        }
    }
}

/// An abandoned launch leaves nothing behind: whatever ends it, an attachment
/// that no session took over is detached and a process likewise is reaped; and
/// a launch that succeeds hands both over.
pub proof fn law_a_launch_leaves_nothing_behind(l: Launch, event: LaunchEvent)
    requires
        launch_wf(l),
        launch_expects(l, event),
    ensures
        launch_wf(launch_step(l, event).0),
        launch_step(l, event).1 matches LaunchNextView::Failed { error, detach, reap } ==> {
            &&& detach == l.attach_armed
            &&& reap == l.process_armed
            &&& launch_step(l, event).0 == launch_over(l)
        },
        launch_step(l, event).1 matches LaunchNextView::Abandoned { detach, reap } ==> {
            &&& detach == l.attach_armed
            &&& reap == l.process_armed
            &&& launch_step(l, event).0 == launch_over(l)
        },
        launch_step(l, event).1 matches LaunchNextView::Launched { network } ==> {
            &&& network == (l.mode == NetworkMode::OwnIp)
            &&& launch_step(l, event).0 == launch_over(l)
        },
{
}

/// Every session is told its name and prints the banner once; the loadouts are
/// told where there is something to display.
pub proof fn law_every_session_starts_from_the_baseline(name: Seq<char>, display: Seq<char>)
    ensures
        baseline_pairs(name, None).len() == 3,
        baseline_pairs(name, None)[0] == ("MINIMAL_SESSION_NAME"@, name),
        baseline_pairs(name, None)[1].0 == "PROMPT_COMMAND"@,
        baseline_pairs(name, None)[1].1
            == "eval \"$MINIMAL_MOTD\"; unset PROMPT_COMMAND MINIMAL_MOTD"@,
        baseline_pairs(name, None)[2] == ("MINIMAL_MOTD"@, BASELINE_MOTD@),
        baseline_pairs(name, Some(display)) == baseline_pairs(name, None).push(
            ("MINIMAL_LOADOUTS"@, display),
        ),
{
}

/// What the environment of a session's shell says of a name: the facts of the
/// connection come first, then the composition, then what the client passes on,
/// and the baseline only where none of them says anything.
pub proof fn law_the_connection_has_the_last_word(
    name: &str,
    display: &str,
    inherited: Vec<(String, String)>,
    composition: Vec<(String, String)>,
    connection: Vec<(String, String)>,
    env: EnvMap,
    key: Seq<char>,
    value: Seq<char>,
)
    requires
        call_ensures(session_env, (name, display, inherited, composition, connection), env),
    ensures
        ({
            let i = crate::env::pair_texts(inherited@);
            let c = crate::env::pair_texts(composition@);
            let n = crate::env::pair_texts(connection@);
            let quiet_n = crate::env::is_silent(n, key);
            let quiet_c = crate::env::is_silent(c, key);
            let quiet_i = crate::env::is_silent(i, key);
            &&& crate::env::sets(n, key, value) ==> env@.contains_key(key) && env@[key] == value
            &&& quiet_n && crate::env::sets(c, key, value) ==> env@.contains_key(key) && env@[key]
                == value
            &&& quiet_n && quiet_c && crate::env::sets(i, key, value) ==> env@.contains_key(key)
                && env@[key] == value
            &&& quiet_n && quiet_c && quiet_i && key == "MINIMAL_SESSION_NAME"@
                ==> env@.contains_key(key) && env@[key] == name@
            &&& quiet_n && quiet_c && quiet_i && key == "MINIMAL_LOADOUTS"@ ==> (
            env@.contains_key(key) <==> display@.len() > 0) && (display@.len() > 0 ==> env@[key]
                == display@)
            &&& quiet_n && quiet_c && quiet_i && env@.contains_key(key) ==> key
                == "MINIMAL_SESSION_NAME"@ || key == "PROMPT_COMMAND"@ || key == "MINIMAL_MOTD"@
                || key == "MINIMAL_LOADOUTS"@
        }),
{
    let i = crate::env::pair_texts(inherited@);
    let c = crate::env::pair_texts(composition@);
    let n = crate::env::pair_texts(connection@);
    let shown = if display@.len() > 0 {
        Some(display@)
    } else {
        None
    };
    let b = baseline_pairs(name@, shown);
    assert(crate::env::pair_texts(inherited@ + composition@ + connection@) =~= i + c + n);
    assert(b + (i + c + n) =~= b + i + c + n);
    crate::env::law_later_layers_win(b, i);
    crate::env::law_later_layers_win(b + i, c);
    crate::env::law_later_layers_win(b + i + c, n);
    crate::env::law_the_last_pair_stays(i, key, value);
    crate::env::law_the_last_pair_stays(c, key, value);
    crate::env::law_the_last_pair_stays(n, key, value);
    reveal_strlit("MINIMAL_SESSION_NAME");
    reveal_strlit("PROMPT_COMMAND");
    reveal_strlit("MINIMAL_MOTD");
    reveal_strlit("MINIMAL_LOADOUTS");
    assert("MINIMAL_SESSION_NAME"@.len() == 20);
    assert("PROMPT_COMMAND"@.len() == 14);
    assert("MINIMAL_MOTD"@.len() == 12);
    assert("MINIMAL_LOADOUTS"@.len() == 16);
    assert(b[0] == ("MINIMAL_SESSION_NAME"@, name@));
    assert(crate::env::sets(b, "MINIMAL_SESSION_NAME"@, name@));
    crate::env::law_the_last_pair_stays(b, "MINIMAL_SESSION_NAME"@, name@);
    crate::env::law_the_last_pair_stays(b, key, display@);
    if display@.len() > 0 {
        assert(b[3] == ("MINIMAL_LOADOUTS"@, display@));
        assert(crate::env::sets(b, "MINIMAL_LOADOUTS"@, display@));
    }
}

/// Every session has a shell, the usual tools and the relay, and then what its
/// composition adds, in its order, nothing twice and nothing else.
pub proof fn law_every_session_has_its_tools(
    composition: &Vec<String>,
    packages: Vec<String>,
    k: int,
)
    requires
        call_ensures(session_packages, (composition,), packages),
    ensures
        packages@.len() >= 3,
        packages@[0]@ == "base"@,
        packages@[1]@ == "coreutils"@,
        packages@[2]@ == "socat"@,
        text::texts(packages@).no_duplicates(),
        0 <= k < composition@.len() ==> text::texts(packages@).contains(composition@[k]@),
        3 <= k < packages@.len() ==> text::texts(composition@).contains(packages@[k]@),
{
    let base = baseline_packages();
    let rest = text::texts(composition@);
    let all = union_in_order(base, rest);
    reveal_strlit("base");
    reveal_strlit("coreutils");
    reveal_strlit("socat");
    assert("base"@.len() == 4 && "coreutils"@.len() == 9 && "socat"@.len() == 5);
    assert(base.no_duplicates());
    law_union_in_order(base, rest);
    lemma_union_adds_nothing_else(base, rest);
    assert(text::texts(packages@) == all);
    assert(text::texts(packages@).len() == packages@.len());
    assert(base =~= all.subrange(0, 3));
    assert(all[0] == base[0] && all[1] == base[1] && all[2] == base[2]) by {
        assert(all.subrange(0, 3)[0] == all[0]);
        assert(all.subrange(0, 3)[1] == all[1]);
        assert(all.subrange(0, 3)[2] == all[2]);
    }
    assert(all[0] == packages@[0]@ && all[1] == packages@[1]@ && all[2] == packages@[2]@);
    if 0 <= k < composition@.len() {
        assert(rest[k] == composition@[k]@);
    }
    if 3 <= k < packages@.len() {
        assert(all[k] == packages@[k]@);
    }
}

proof fn lemma_union_adds_nothing_else(first: Seq<Seq<char>>, rest: Seq<Seq<char>>)
    ensures
        union_in_order(first, rest).len() >= first.len(),
        forall|k: int|
            first.len() <= k < union_in_order(first, rest).len() ==> rest.contains(
                #[trigger] union_in_order(first, rest)[k],
            ),
    decreases rest.len(),
{
    if rest.len() > 0 {
        let before = rest.drop_last();
        lemma_union_adds_nothing_else(first, before);
        let so_far = union_in_order(first, before);
        let all = union_in_order(first, rest);
        assert forall|k: int| first.len() <= k < all.len() implies rest.contains(
            #[trigger] all[k],
        ) by {
            if k < so_far.len() {
                assert(all[k] == so_far[k]);
                assert(before.contains(so_far[k]));
                let j = choose|j: int| 0 <= j < before.len() && before[j] == so_far[k];
                assert(rest[j] == all[k]);
            } else {
                assert(rest[rest.len() - 1] == all[k]);
            }
        }
    }
}

/// A mask has the highest bits set, as many as the addresses of its network
/// share, and a tap is described by its lease.
pub proof fn law_a_mask_covers_the_shared_bits(
    address: u32,
    prefix: u32,
    gateway: u32,
    mtu: u32,
    tap: OwnIpTap,
    i: u32,
)
    requires
        prefix <= 32,
        i < 32,
        call_ensures(own_ip_tap, (address, prefix, gateway, mtu), tap),
    ensures
        (tap.netmask >> i) & 1 == 1 <==> i + prefix >= 32,
        tap.address == address,
        tap.gateway == gateway,
        tap.mtu == mtu,
{
    assert(bit(tap.netmask, i) <==> i >= 32 - prefix);
}

/// A launch goes in one order: the packages, the attachment to a switch beside
/// the daemon where the session has an address of its own, the build, and then
/// the tap, relayed where the session was attached before and moved in where it
/// was not. What is made on the way is armed as it is made.
pub proof fn law_a_launch_goes_in_order(l: Launch, event: LaunchEvent)
    requires
        launch_wf(l),
        launch_expects(l, event),
        launch_step(l, event).1 is Go,
    ensures
        ({
            let after = launch_step(l, event).0;
            let own = l.mode is OwnIp;
            let beside = l.transport is LocalSpawn;
            &&& after.mode == l.mode && after.transport == l.transport
            &&& match event {
                LaunchEvent::GraphDone { error } => error is None && !after.attach_armed
                    && !after.process_armed && (own && beside ==> after.stage is Attach) && (!(
                own && beside) ==> after.stage is Build),
                LaunchEvent::AttachDone { error } => error is None && after.stage is Build
                    && after.attach_armed && !after.process_armed,
                LaunchEvent::BuildDone { error } => error is None && own && after.process_armed
                    && after.attach_armed == l.attach_armed && (beside ==> after.stage is RelayTap)
                    && (!beside ==> after.stage is MoveTap),
                _ => false,
            }
        }),
{
}

/// A launch is done once the session is built and, with an address of its own,
/// has its tap; nothing that went wrong is passed over.
pub proof fn law_a_launch_is_done_with_its_network(l: Launch, event: LaunchEvent)
    requires
        launch_wf(l),
        launch_expects(l, event),
    ensures
        ({
            let (after, next) = launch_step(l, event);
            let wrong = match event {
                LaunchEvent::GraphDone { error } => error is Some,
                LaunchEvent::AttachDone { error } => error is Some,
                LaunchEvent::BuildDone { error } => error is Some,
                LaunchEvent::RelayDone { has_tap, error } => !has_tap || error is Some,
                LaunchEvent::MoveDone { error } => error is Some,
                LaunchEvent::Cancelled => false,
            };
            &&& next is Failed <==> wrong
            &&& next is Abandoned <==> event is Cancelled
            &&& next is Launched <==> !wrong && (event is RelayDone || event is MoveDone || (
            event is BuildDone && !(l.mode is OwnIp)))
            &&& next is Launched ==> (next->network <==> l.mode is OwnIp)
            &&& next is Failed ==> next->Failed_detach == l.attach_armed && next->Failed_reap
                == l.process_armed
            &&& next is Abandoned ==> next->Abandoned_detach == l.attach_armed
                && next->Abandoned_reap == l.process_armed
            &&& !(next is Go) ==> after.stage is Over && !after.attach_armed
                && !after.process_armed
            &&& next is Failed ==> match event {
                LaunchEvent::GraphDone { error } => next->error == error->0@,
                LaunchEvent::AttachDone { error } => next->error
                    == "attaching OwnIp PTask to switch: "@ + error->0@,
                LaunchEvent::BuildDone { error } => next->error == (match (error->0).0 {
                    BuildStep::Env => (error->0).1@,
                    BuildStep::Container => "container build: "@ + (error->0).1@,
                    BuildStep::PtyOpen => "pty open: "@ + (error->0).1@,
                    BuildStep::Command => "build command: "@ + (error->0).1@,
                    BuildStep::Stdio => (error->0).1@,
                    BuildStep::Exec => "exec failed: "@ + (error->0).1@,
                }),
                LaunchEvent::RelayDone { has_tap, error } => next->error == (if has_tap {
                    error->0@
                } else {
                    "own-IP sandbox produced no in-namespace tap fd"@
                }),
                LaunchEvent::MoveDone { error } => next->error == error->0@,
                LaunchEvent::Cancelled => false,
            }
        }),
{
}

/// A launch begins with nothing made, and tells a session the name server where
/// it has an address of its own.
pub proof fn law_a_launch_begins_with_nothing(
    mode: NetworkMode,
    transport: SwitchTransport,
    l: Launch,
    dns: bool,
)
    requires
        call_ensures(Launch::new, (mode, transport), l),
        call_ensures(Launch::needs_dns, (&l,), dns),
    ensures
        l.mode == mode,
        l.transport == transport,
        l.stage is Graph,
        !l.attach_armed && !l.process_armed,
        dns <==> mode is OwnIp,
{
}

/// What [`Launch::step`] does is what is said of a launch here, and a baseline
/// and its layers are as is said here too.
pub proof fn law_a_launch_goes_as_stated(
    event: LaunchEvent,
    next: LaunchNext,
    name: &str,
    display: Option<&str>,
    base: Vec<(String, String)>,
    inherited: Vec<(String, String)>,
    composition: Vec<(String, String)>,
    connection: Vec<(String, String)>,
    env: EnvMap,
)
    requires
        call_ensures(session_baseline_env, (name, display), base),
        call_ensures(layer_session_env, (base, inherited, composition, connection), env),
    ensures
        forall|l: &mut Launch| #[trigger]
            call_ensures(Launch::step, (l, event), next) ==> (*final(l), next@) == launch_step(
                *l,
                event,
            ),
        display is None ==> crate::env::pair_texts(base@) == baseline_pairs(name@, None),
        display is Some ==> crate::env::pair_texts(base@) == baseline_pairs(
            name@,
            Some(display->0@),
        ),
        env@ == crate::env::layered(
            crate::env::pair_texts(base@ + inherited@ + composition@ + connection@),
        ),
{
}

/// A mask by itself has the bits that are shared, and no other.
pub proof fn law_a_mask_has_the_shared_bits(prefix: u32, mask: u32, i: u32)
    requires
        prefix <= 32,
        i < 32,
        call_ensures(netmask, (prefix,), mask),
    ensures
        (mask >> i) & 1 == 1 <==> i + prefix >= 32,
{
    assert(bit(mask, i) <==> i >= 32 - prefix);
}

/// What a step of a launch says is what it was made of.
pub proof fn law_a_launchs_step_says_what_it_was_made_of(
    error: String,
    detach: bool,
    reap: bool,
    network: bool,
)
    ensures
        LaunchNext::Go@ is Go,
        (LaunchNext::Launched { network })@ == (LaunchNextView::Launched { network }),
        (LaunchNext::Failed { error, detach, reap })@ == (LaunchNextView::Failed {
            error: error@,
            detach,
            reap,
        }),
        (LaunchNext::Abandoned { detach, reap })@ == (LaunchNextView::Abandoned { detach, reap }),
{
}

} // verus!
