//! The runtime of a session host: what it does for each thing that happens.
//!
//! A host supervises the session's process and relays between its pty and the
//! client that is attached, if there is one. [`Host::step`] takes one event
//! and says what to do about it; whoever drives the host does it.
use vstd::prelude::*;

use crate::queue::StdinQueue;

verus! {

/// How long a half-typed key chord is held before it goes to the pty as data,
/// in nanoseconds: long enough for a chord that arrives in two chunks, short
/// enough that nobody notices a lone escape being held.
pub const CHORD_FLUSH_IDLE: u128 = 50_000_000;

/// The dimensions of a terminal.
#[derive(Clone, Copy, PartialEq, Eq, Structural, Debug)]
pub struct WinSize {
    pub rows: u16,
    pub cols: u16,
    pub xpixel: u16,
    pub ypixel: u16,
}

/// The terminal that a client asked for.
#[derive(Debug)]
pub struct RequestedPty {
    /// Columns and rows.
    pub char_sizes: (u32, u32),
    /// Width and height.
    pub pixel_sizes: (u32, u32),
    pub term: String,
    /// Terminal modes, each an opcode and its argument.
    pub modes: Vec<(u8, u32)>,
}

/// A dimension as far as sixteen bits can say it.
pub open spec fn clamped(n: u32) -> u16 {
    if n <= 0xffff {
        n as u16
    } else {
        0xffff
    }
}

fn clamp(n: u32) -> (c: u16)
    ensures
        c == clamped(n),
{
    if n <= 0xffff {
        n as u16
    } else {
        0xffff
    }
}

/// The size that a request comes to: clamped to sixteen bits, and 24 rows or
/// 80 columns where the client gave none.
pub open spec fn requested_size(pty: RequestedPty) -> WinSize {
    let rows = clamped(pty.char_sizes.1);
    let cols = clamped(pty.char_sizes.0);
    WinSize {
        rows: if rows == 0 { 24 } else { rows },
        cols: if cols == 0 { 80 } else { cols },
        xpixel: clamped(pty.pixel_sizes.0),
        ypixel: clamped(pty.pixel_sizes.1),
    }
}

impl<'a> vstd::std_specs::convert::FromSpecImpl<&'a RequestedPty> for WinSize {
    open spec fn obeys_from_spec() -> bool {
        true
    }

    open spec fn from_spec(pty: &'a RequestedPty) -> Self {
        requested_size(*pty)
    }
}

impl<'a> From<&'a RequestedPty> for WinSize {
    fn from(pty: &'a RequestedPty) -> (size: Self) {
        let (cols, rows) = pty.char_sizes;
        let (xpixel, ypixel) = pty.pixel_sizes;
        let rows = clamp(rows);
        let cols = clamp(cols);
        WinSize {
            rows: if rows == 0 { 24 } else { rows },
            cols: if cols == 0 { 80 } else { cols },
            xpixel: clamp(xpixel),
            ypixel: clamp(ypixel),
        }
    }
}

/// A dimension cut to its low sixteen bits.
pub open spec fn low_bits(n: u32) -> u16 {
    (n % 0x10000) as u16
}

fn truncate(n: u32) -> (t: u16)
    ensures
        t == low_bits(n),
{
    (n % 0x10000) as u16
}

/// The size that a window-change message stands for. Unlike a pty request it
/// is cut to sixteen bits, not clamped.
pub open spec fn changed_size(col_width: u32, row_height: u32, pix_width: u32, pix_height: u32) -> WinSize {
    WinSize {
        rows: low_bits(row_height),
        cols: low_bits(col_width),
        xpixel: low_bits(pix_width),
        ypixel: low_bits(pix_height),
    }
}

/// A moment by two clocks, both in nanoseconds: the time of day, and a clock
/// that only moves forward.
#[derive(Clone, Copy, PartialEq, Eq, Structural, Debug)]
pub struct Moment {
    pub wall: u128,
    pub tick: u128,
}

/// What the host knows of the terminal in use.
#[derive(Debug, PartialEq, Eq)]
pub struct HostAttrs {
    /// The title set by the terminal, and when.
    pub title: Option<(String, u128)>,
    /// How often the audible bell rang, and when it last did.
    pub audible_bell: (usize, Option<u128>),
    /// How often the visual bell rang, and when it last did.
    pub visual_bell: (usize, Option<u128>),
    /// When the process last wrote to the terminal.
    pub stdout_last: Option<u128>,
    /// When a client last sent something to the process.
    pub stdin_last: Option<u128>,
}

/// What [`HostAttrs`] say.
pub ghost struct AttrsView {
    pub title: Option<(Seq<char>, u128)>,
    pub audible_bell: (usize, Option<u128>),
    pub visual_bell: (usize, Option<u128>),
    pub stdout_last: Option<u128>,
    pub stdin_last: Option<u128>,
}

impl View for HostAttrs {
    type V = AttrsView;

    open spec fn view(&self) -> AttrsView {
        AttrsView {
            title: match self.title {
                Some((t, at)) => Some((t@, at)),
                None => None,
            },
            audible_bell: self.audible_bell,
            visual_bell: self.visual_bell,
            stdout_last: self.stdout_last,
            stdin_last: self.stdin_last,
        }
    }
}

/// The attributes of a terminal that nothing has happened in.
pub open spec fn fresh_attrs() -> AttrsView {
    AttrsView {
        title: None,
        audible_bell: (0, None),
        visual_bell: (0, None),
        stdout_last: None,
        stdin_last: None,
    }
}

impl Default for HostAttrs {
    fn default() -> (attrs: Self)
        ensures
            attrs@ == fresh_attrs(),
    {
        HostAttrs {
            title: None,
            audible_bell: (0, None),
            visual_bell: (0, None),
            stdout_last: None,
            stdin_last: None,
        }
    }
}

impl Clone for HostAttrs {
    fn clone(&self) -> (copy: Self)
        ensures
            copy@ == self@,
    {
        HostAttrs {
            title: match &self.title {
                Some(pair) => Some((pair.0.clone(), pair.1)),
                None => None,
            },
            audible_bell: self.audible_bell,
            visual_bell: self.visual_bell,
            stdout_last: self.stdout_last,
            stdin_last: self.stdin_last,
        }
    }
}

/// What the host needs of the session keys that a client negotiated.
#[derive(Clone, Copy, PartialEq, Eq, Structural, Debug)]
pub struct KeySettings {
    /// The byte that the leader chord sends when it is passed on.
    pub leader_byte: u8,
    /// Whether entering command mode rings the client's bell.
    pub bell_on_leader: bool,
}

/// What a recognised key asks for.
#[derive(Clone, Copy, PartialEq, Eq, Structural, Debug)]
pub enum KeyAction {
    /// Nothing: the key is dropped.
    Swallow,
    /// The leader: the next key is a command.
    EnterCommandMode,
    /// Leave the session running and disconnect.
    Detach,
    /// Pass a leader on to the layer below.
    ForwardLeader,
}

/// What the chord matcher made of a stretch of input.
#[derive(Debug)]
pub enum FeedOutcome {
    /// Data for the process.
    Forward(Vec<u8>),
    Action(KeyAction),
}

/// What a [`FeedOutcome`] says.
pub ghost enum FeedView {
    Forward(Seq<u8>),
    Action(KeyAction),
}

impl View for FeedOutcome {
    type V = FeedView;

    open spec fn view(&self) -> FeedView {
        match self {
            FeedOutcome::Forward(b) => FeedView::Forward(b@),
            FeedOutcome::Action(a) => FeedView::Action(*a),
        }
    }
}

/// How reading from the pty went.
#[derive(Debug)]
pub enum PtyRead {
    /// Bytes were read; none at all is possible.
    Bytes(Vec<u8>),
    /// There was nothing to read after all.
    WouldBlock,
    /// Reading, or waiting for something to read, failed.
    Failed,
}

/// How writing to the pty went.
#[derive(Debug)]
pub enum PtyWrite {
    /// So many bytes were written.
    Wrote(usize),
    /// The pty was not ready after all.
    WouldBlock,
    /// Writing, or waiting for the pty, failed.
    Failed,
}

/// Something that happened to a host.
#[derive(Debug)]
pub enum HostEvent {
    /// The session is to end, for the daemon's shutdown or otherwise.
    Kill { for_shutdown: bool },
    /// A client attached.
    Attach { size: WinSize, keys: KeySettings },
    /// The terminal set its title.
    SetTitle(String),
    AudibleBell,
    VisualBell,
    GetAttrs,
    GetScreen,
    CommandInSession,
    GetAtRisk,
    /// The pty was read.
    Output(PtyRead),
    /// Output could not be handed to the attached client.
    OutputUndelivered,
    /// A client's keystrokes, as the chord matcher took them apart, and
    /// whether it holds a part of a chord back.
    Keys { outcomes: Vec<FeedOutcome>, pending: bool },
    /// A client asked for another terminal.
    TerminalUpdate(RequestedPty),
    /// A client's window changed.
    WindowChange { col_width: u32, row_height: u32, pix_width: u32, pix_height: u32 },
    /// The pty was written to.
    Written(PtyWrite),
    /// The time for a held part of a chord ran out; this is what was held.
    FlushDue { flushed: Vec<u8> },
}

/// Why a client is disconnected.
#[derive(Clone, Copy, PartialEq, Eq, Structural, Debug)]
pub enum Notice {
    /// Another client took the session over.
    Superceded,
    /// The client asked to detach.
    Detach,
    /// The daemon is going down.
    DaemonShutdown,
}

/// Something that the driver of a host has to do.
#[derive(Debug)]
pub enum HostAction {
    /// Use a fresh chord matcher with these keys.
    ResetMatcher(KeySettings),
    /// Give the in-memory screen these rows and columns.
    ResizeScreen { rows: u16, cols: u16 },
    /// Give the pty this size. A failure is ignored.
    ResizePty(WinSize),
    /// Write the whole state of the screen to the new client's channel.
    SendScreenState,
    /// Bind the new client's channel to this host.
    SpawnBinding,
    /// Tell the binding that is being let go why, and wait for it to end
    /// where `wait` says so.
    TearDownBinding { notice: Notice, wait: bool },
    /// Run the hooks of the attach transition.
    RunAttachHooks,
    /// Kill the session's process.
    KillProcess,
    /// Feed these bytes to the in-memory terminal.
    ParseOutput(Vec<u8>),
    /// Hand these bytes to the attached client.
    SendToClient(Vec<u8>),
    /// Tell the attached client of the pty's failure.
    NotifyPtyError,
    ReplyAttrs,
    ReplyScreen,
    ReplyCommand,
    ReplyAtRisk,
}

/// What a [`HostAction`] asks for.
pub ghost enum ActionView {
    ResetMatcher(KeySettings),
    ResizeScreen { rows: u16, cols: u16 },
    ResizePty(WinSize),
    SendScreenState,
    SpawnBinding,
    TearDownBinding { notice: Notice, wait: bool },
    RunAttachHooks,
    KillProcess,
    ParseOutput(Seq<u8>),
    SendToClient(Seq<u8>),
    NotifyPtyError,
    ReplyAttrs,
    ReplyScreen,
    ReplyCommand,
    ReplyAtRisk,
}

impl View for HostAction {
    type V = ActionView;

    open spec fn view(&self) -> ActionView {
        match self {
            HostAction::ResetMatcher(k) => ActionView::ResetMatcher(*k),
            HostAction::ResizeScreen { rows, cols } => ActionView::ResizeScreen {
                rows: *rows,
                cols: *cols,
            },
            HostAction::ResizePty(s) => ActionView::ResizePty(*s),
            HostAction::SendScreenState => ActionView::SendScreenState,
            HostAction::SpawnBinding => ActionView::SpawnBinding,
            HostAction::TearDownBinding { notice, wait } => ActionView::TearDownBinding {
                notice: *notice,
                wait: *wait,
            },
            HostAction::RunAttachHooks => ActionView::RunAttachHooks,
            HostAction::KillProcess => ActionView::KillProcess,
            HostAction::ParseOutput(b) => ActionView::ParseOutput(b@),
            HostAction::SendToClient(b) => ActionView::SendToClient(b@),
            HostAction::NotifyPtyError => ActionView::NotifyPtyError,
            HostAction::ReplyAttrs => ActionView::ReplyAttrs,
            HostAction::ReplyScreen => ActionView::ReplyScreen,
            HostAction::ReplyCommand => ActionView::ReplyCommand,
            HostAction::ReplyAtRisk => ActionView::ReplyAtRisk,
        }
    }
}

/// What a list of actions asks for.
pub open spec fn action_views(actions: Seq<HostAction>) -> Seq<ActionView> {
    actions.map_values(|a: HostAction| a@)
}

/// What a list of outcomes says.
pub open spec fn feed_views(outcomes: Seq<FeedOutcome>) -> Seq<FeedView> {
    outcomes.map_values(|o: FeedOutcome| o@)
}

/// The state of a host.
pub struct Host {
    size: WinSize,
    attrs: HostAttrs,
    attached: bool,
    stdin: StdinQueue,
    flush_at: Option<u128>,
    keys: KeySettings,
}

/// What a [`Host`] is in.
pub ghost struct HostView {
    /// The size that the pty was last given.
    pub size: WinSize,
    pub attrs: AttrsView,
    /// Whether a client is attached.
    pub attached: bool,
    /// The bytes that still have to be written to the pty.
    pub stdin: Seq<u8>,
    /// When a held part of a chord goes to the pty as data.
    pub flush_at: Option<u128>,
    pub keys: KeySettings,
}

impl View for Host {
    type V = HostView;

    closed spec fn view(&self) -> HostView {
        HostView {
            size: self.size,
            attrs: self.attrs@,
            attached: self.attached,
            stdin: self.stdin@,
            flush_at: self.flush_at,
            keys: self.keys,
        }
    }
}

/// What one step comes to: the host afterwards, what to do, and whether the
/// host goes on.
pub ghost struct StepView {
    pub host: HostView,
    pub actions: Seq<ActionView>,
    pub alive: bool,
}

/// The bytes that go to the process for a run of outcomes: the data, and a
/// leader byte for each leader that is passed on, in the order of the input.
pub open spec fn forwarded(outcomes: Seq<FeedView>, keys: KeySettings) -> Seq<u8>
    decreases outcomes.len(),
{
    if outcomes.len() == 0 {
        Seq::empty()
    } else {
        forwarded(outcomes.drop_last(), keys) + match outcomes.last() {
            FeedView::Forward(b) => b,
            FeedView::Action(KeyAction::ForwardLeader) => seq![keys.leader_byte],
            FeedView::Action(_) => Seq::empty(),
        }
    }
}

/// Whether a client that was attached still is after a run of outcomes.
pub open spec fn stays_attached(outcomes: Seq<FeedView>, attached: bool) -> bool {
    attached && !outcomes.contains(FeedView::Action(KeyAction::Detach))
}

/// What the attached client is sent for a run of outcomes: a bell for each
/// leader where it asked for one, and the goodbye when it detaches; nothing
/// once it is gone.
pub open spec fn key_actions(outcomes: Seq<FeedView>, keys: KeySettings, attached: bool) -> Seq<ActionView>
    decreases outcomes.len(),
{
    if outcomes.len() == 0 {
        Seq::empty()
    } else {
        let rest = outcomes.drop_last();
        let still = stays_attached(rest, attached);
        key_actions(rest, keys, attached) + match outcomes.last() {
            FeedView::Action(KeyAction::EnterCommandMode) if keys.bell_on_leader && still => seq![
                ActionView::SendToClient(seq![7u8]),
            ],
            FeedView::Action(KeyAction::Detach) if still => seq![
                ActionView::TearDownBinding { notice: Notice::Detach, wait: false },
            ],
            _ => Seq::empty(),
        }
    }
}

/// What giving the terminal a size takes: nothing where it has it already.
pub open spec fn resize_actions(from: WinSize, to: WinSize) -> Seq<ActionView> {
    if from == to {
        Seq::empty()
    } else {
        seq![
            ActionView::ResizePty(to),
            ActionView::ResizeScreen { rows: to.rows, cols: to.cols },
        ]
    }
}

/// The failure of the pty as the attached client hears of it.
pub open spec fn failure_actions(attached: bool) -> Seq<ActionView> {
    if attached {
        seq![ActionView::NotifyPtyError]
    } else {
        Seq::empty()
    }
}

/// What binding a client to the host takes: a fresh matcher, the screen as it
/// stands (unless the host is new), the goodbye to whoever was attached
/// before, the new size, and the attach hooks.
pub open spec fn attach_view(h: HostView, size: WinSize, skip_flush: bool, keys: KeySettings) -> StepView {
    StepView {
        host: HostView { size, attached: true, flush_at: None, keys, ..h },
        actions: seq![ActionView::ResetMatcher(keys)] + (if skip_flush {
            Seq::empty()
        } else {
            seq![
                ActionView::ResizeScreen { rows: size.rows, cols: size.cols },
                ActionView::SendScreenState,
            ]
        }) + seq![ActionView::SpawnBinding] + (if h.attached {
            seq![ActionView::TearDownBinding { notice: Notice::Superceded, wait: true }]
        } else {
            Seq::empty()
        }) + resize_actions(h.size, size) + seq![ActionView::RunAttachHooks],
        alive: true,
    }
}

/// What an event comes to.
pub open spec fn step_view(h: HostView, event: HostEvent, now: Moment) -> StepView {
    match event {
        HostEvent::Kill { for_shutdown } => {
            let leaving = for_shutdown && h.attached;
            StepView {
                host: HostView { attached: h.attached && !leaving, ..h },
                actions: (if leaving {
                    seq![ActionView::TearDownBinding { notice: Notice::DaemonShutdown, wait: true }]
                } else {
                    Seq::empty()
                }).push(ActionView::KillProcess),
                alive: false,
            }
        },
        HostEvent::Attach { size, keys } => attach_view(h, size, false, keys),
        HostEvent::SetTitle(title) => stays(
            HostView { attrs: AttrsView { title: Some((title@, now.wall)), ..h.attrs }, ..h },
        ),
        HostEvent::AudibleBell => stays(
            HostView {
                attrs: AttrsView {
                    audible_bell: ((h.attrs.audible_bell.0 + 1) as usize, Some(now.wall)),
                    ..h.attrs
                },
                ..h
            },
        ),
        HostEvent::VisualBell => stays(
            HostView {
                attrs: AttrsView {
                    visual_bell: ((h.attrs.visual_bell.0 + 1) as usize, Some(now.wall)),
                    ..h.attrs
                },
                ..h
            },
        ),
        HostEvent::GetAttrs => answers(h, ActionView::ReplyAttrs),
        HostEvent::GetScreen => answers(h, ActionView::ReplyScreen),
        HostEvent::CommandInSession => answers(h, ActionView::ReplyCommand),
        HostEvent::GetAtRisk => answers(h, ActionView::ReplyAtRisk),
        HostEvent::Output(PtyRead::Bytes(b)) => if b@.len() == 0 {
            stays(h)
        } else {
            StepView {
                host: HostView {
                    attrs: AttrsView { stdout_last: Some(now.wall), ..h.attrs },
                    ..h
                },
                actions: seq![ActionView::ParseOutput(b@)] + (if h.attached {
                    seq![ActionView::SendToClient(b@)]
                } else {
                    Seq::empty()
                }),
                alive: true,
            }
        },
        HostEvent::Output(PtyRead::WouldBlock) => stays(h),
        HostEvent::Output(PtyRead::Failed) => fails(h),
        HostEvent::OutputUndelivered => stays(HostView { attached: false, ..h }),
        HostEvent::Keys { outcomes, pending } => {
            let fed = feed_views(outcomes@);
            StepView {
                host: HostView {
                    attrs: AttrsView { stdin_last: Some(now.wall), ..h.attrs },
                    attached: stays_attached(fed, h.attached),
                    stdin: forwarded(fed, h.keys),
                    flush_at: if pending {
                        Some((now.tick + CHORD_FLUSH_IDLE) as u128)
                    } else {
                        None
                    },
                    ..h
                },
                actions: key_actions(fed, h.keys, h.attached),
                alive: true,
            }
        },
        HostEvent::TerminalUpdate(pty) => resizes(h, requested_size(pty)),
        HostEvent::WindowChange { col_width, row_height, pix_width, pix_height } => resizes(
            h,
            changed_size(col_width, row_height, pix_width, pix_height),
        ),
        HostEvent::Written(PtyWrite::Wrote(n)) => stays(
            HostView { stdin: h.stdin.skip(n as int), ..h },
        ),
        HostEvent::Written(PtyWrite::WouldBlock) => stays(h),
        HostEvent::Written(PtyWrite::Failed) => fails(h),
        HostEvent::FlushDue { flushed } => stays(
            HostView {
                flush_at: None,
                stdin: if flushed@.len() > 0 { flushed@ } else { h.stdin },
                ..h
            },
        ),
    }
}

/// The host goes on as `h`, and nothing is to be done.
pub open spec fn stays(h: HostView) -> StepView {
    StepView { host: h, actions: Seq::empty(), alive: true }
}

/// The host goes on unchanged after one answer.
pub open spec fn answers(h: HostView, reply: ActionView) -> StepView {
    StepView { host: h, actions: seq![reply], alive: true }
}

/// The pty failed: the client is told and the host ends.
pub open spec fn fails(h: HostView) -> StepView {
    StepView { host: h, actions: failure_actions(h.attached), alive: false }
}

/// The terminal takes a new size.
pub open spec fn resizes(h: HostView, to: WinSize) -> StepView {
    StepView {
        host: HostView { size: to, ..h },
        actions: resize_actions(h.size, to),
        alive: true,
    }
}

/// Whether an event can happen to a host: bells are counted up to the largest
/// count, keystrokes are taken only when none wait to be written, and no more
/// is written than waits.
pub open spec fn can_happen(h: HostView, event: HostEvent, now: Moment) -> bool {
    match event {
        HostEvent::AudibleBell => h.attrs.audible_bell.0 < usize::MAX,
        HostEvent::VisualBell => h.attrs.visual_bell.0 < usize::MAX,
        HostEvent::Keys { .. } => h.stdin.len() == 0 && now.tick <= u128::MAX - CHORD_FLUSH_IDLE,
        HostEvent::Written(PtyWrite::Wrote(n)) => n <= h.stdin.len(),
        _ => true,
    }
}

/// What one step asks for.
#[derive(Debug)]
pub struct StepOutcome {
    pub actions: Vec<HostAction>,
    /// Whether the host goes on; if not, its process is waited for.
    pub alive: bool,
}

impl StepOutcome {
    fn nothing() -> (out: Self)
        ensures
            action_views(out.actions@) == Seq::<ActionView>::empty(),
            out.alive,
    {
        let actions: Vec<HostAction> = Vec::new();
        assert(action_views(actions@) =~= Seq::<ActionView>::empty());
        StepOutcome { actions, alive: true }
    }

    fn one(action: HostAction) -> (out: Self)
        ensures
            action_views(out.actions@) == seq![action@],
            out.alive,
    {
        let mut actions: Vec<HostAction> = Vec::new();
        actions.push(action);
        assert(action_views(actions@) =~= seq![action@]);
        StepOutcome { actions, alive: true }
    }
}

fn push_action(actions: &mut Vec<HostAction>, action: HostAction)
    ensures
        action_views(final(actions)@) == action_views(old(actions)@).push(action@),
{
    actions.push(action);
    assert(action_views(actions@) =~= action_views(old(actions)@).push(action@));
}

impl Host {
    /// The queue of keystrokes holds no spent buffer.
    pub closed spec fn wf(&self) -> bool {
        self.stdin.wf()
    }

    /// A host whose terminal has the given size, with no client attached.
    pub fn new(size: WinSize, keys: KeySettings) -> (host: Self)
        ensures
            host.wf(),
            host@ == (HostView {
                size,
                attrs: fresh_attrs(),
                attached: false,
                stdin: Seq::empty(),
                flush_at: None,
                keys,
            }),
    {
        let host = Host {
            size,
            attrs: HostAttrs::default(),
            attached: false,
            stdin: StdinQueue::empty(),
            flush_at: None,
            keys,
        };
        assert(host.stdin@ =~= Seq::empty());
        host
    }

    /// What the host knows of its terminal.
    pub fn attrs(&self) -> (attrs: &HostAttrs)
        ensures
            attrs@ == self@.attrs,
    {
        &self.attrs
    }

    /// Whether a client is attached.
    pub fn is_attached(&self) -> (yes: bool)
        ensures
            yes == self@.attached,
    {
        self.attached
    }

    /// Whether the host takes keystrokes now: only while none wait to be
    /// written to the pty.
    pub fn takes_keys(&self) -> (yes: bool)
        requires
            self.wf(),
        ensures
            yes == (self@.stdin.len() == 0),
    {
        self.stdin.is_empty()
    }

    /// The keystrokes to write to the pty next, if there are any.
    pub fn unwritten(&self) -> (rest: Option<bytes::Bytes>)
        requires
            self.wf(),
        ensures
            rest is None <==> self@.stdin.len() == 0,
            rest is Some ==> crate::queue::bytes_of(rest->0) == self@.stdin,
    {
        self.stdin.unwritten()
    }

    /// When a held part of a chord is due to go to the pty.
    pub fn flush_deadline(&self) -> (at: Option<u128>)
        ensures
            at == self@.flush_at,
    {
        self.flush_at
    }

    /// Gives the terminal a size, unless it has it already.
    fn set_size(&mut self, size: WinSize, actions: &mut Vec<HostAction>)
        requires
            old(self).wf(),
        ensures
            final(self).wf(),
            final(self)@ == (HostView { size, ..old(self)@ }),
            action_views(final(actions)@) == action_views(old(actions)@) + resize_actions(
                old(self)@.size,
                size,
            ),
    {
        if size != self.size {
            push_action(actions, HostAction::ResizePty(size));
            push_action(actions, HostAction::ResizeScreen { rows: size.rows, cols: size.cols });
            self.size = size;
        }
        assert(action_views(actions@) =~= action_views(old(actions)@) + resize_actions(
            old(self)@.size,
            size,
        ));
    }

    /// Binds a client to the host. A host that was just made has no screen to
    /// show yet, and skips that.
    pub fn attach(&mut self, size: WinSize, skip_flush: bool, keys: KeySettings) -> (out:
        StepOutcome)
        requires
            old(self).wf(),
        ensures
            final(self).wf(),
            final(self)@ == attach_view(old(self)@, size, skip_flush, keys).host,
            action_views(out.actions@) == attach_view(
                old(self)@,
                size,
                skip_flush,
                keys,
            ).actions,
            out.alive,
    {
        let mut actions: Vec<HostAction> = Vec::new();
        self.keys = keys;
        self.flush_at = None;
        push_action(&mut actions, HostAction::ResetMatcher(keys));
        if !skip_flush {
            push_action(
                &mut actions,
                HostAction::ResizeScreen { rows: size.rows, cols: size.cols },
            );
            push_action(&mut actions, HostAction::SendScreenState);
        }
        push_action(&mut actions, HostAction::SpawnBinding);
        if self.attached {
            push_action(
                &mut actions,
                HostAction::TearDownBinding { notice: Notice::Superceded, wait: true },
            );
        }
        self.attached = true;
        self.set_size(size, &mut actions);
        push_action(&mut actions, HostAction::RunAttachHooks);
        assert(action_views(actions@) =~= attach_view(old(self)@, size, skip_flush, keys).actions);
        StepOutcome { actions, alive: true }
    }
}

/// Sorts a run of outcomes into what goes to the process and what the attached
/// client is sent.
fn take_keys(
    outcomes: &Vec<FeedOutcome>,
    keys: KeySettings,
    attached: bool,
    actions: &mut Vec<HostAction>,
) -> (taken: (Vec<u8>, bool))
    requires
        old(actions)@.len() == 0,
    ensures
        taken.0@ == forwarded(feed_views(outcomes@), keys),
        taken.1 == stays_attached(feed_views(outcomes@), attached),
        action_views(final(actions)@) == key_actions(feed_views(outcomes@), keys, attached),
{
    let ghost fed = feed_views(outcomes@);
    let mut forward: Vec<u8> = Vec::new();
    let mut still = attached;
    let mut i: usize = 0;
    assert(action_views(actions@) =~= key_actions(fed.take(0), keys, attached));
    while i < outcomes.len()
        invariant
            i <= outcomes@.len(),
            fed == feed_views(outcomes@),
            forward@ == forwarded(fed.take(i as int), keys),
            still == stays_attached(fed.take(i as int), attached),
            action_views(actions@) == key_actions(fed.take(i as int), keys, attached),
        decreases outcomes@.len() - i,
    {
        let ghost now = fed.take(i + 1);
        let ghost last = now.last();
        proof {
            assert(now.drop_last() =~= fed.take(i as int));
            assert(last == outcomes@[i as int]@);
            assert(now =~= fed.take(i as int).push(last));
            let detach = FeedView::Action(KeyAction::Detach);
            if now.drop_last().contains(detach) {
                let k = choose|k: int|
                    0 <= k < now.drop_last().len() && now.drop_last()[k] == detach;
                assert(now[k] == detach);
            }
            if now.contains(detach) && last != detach {
                let k = choose|k: int| 0 <= k < now.len() && now[k] == detach;
                assert(now.drop_last()[k] == detach);
            }
            if last == detach {
                assert(now[i as int] == detach);
            }
        }
        match &outcomes[i] {
            FeedOutcome::Forward(bytes) => {
                forward.extend_from_slice(bytes.as_slice());
            },
            FeedOutcome::Action(KeyAction::Swallow) => {},
            FeedOutcome::Action(KeyAction::EnterCommandMode) => {
                if keys.bell_on_leader && still {
                    let mut bell: Vec<u8> = Vec::new();
                    bell.push(7);
                    assert(bell@ =~= seq![7u8]);
                    push_action(actions, HostAction::SendToClient(bell));
                }
            },
            FeedOutcome::Action(KeyAction::Detach) => {
                if still {
                    push_action(
                        actions,
                        HostAction::TearDownBinding { notice: Notice::Detach, wait: false },
                    );
                    still = false;
                }
            },
            FeedOutcome::Action(KeyAction::ForwardLeader) => {
                forward.push(keys.leader_byte);
            },
        }
        assert(forward@ =~= forwarded(now, keys));
        assert(action_views(actions@) =~= key_actions(now, keys, attached));
        i = i + 1;
    }
    assert(fed.take(i as int) =~= fed);
    (forward, still)
}

impl Host {
    /// Takes the failure of the pty: the host is to end.
    fn fail(&self) -> (out: StepOutcome)
        ensures
            action_views(out.actions@) == failure_actions(self@.attached),
            !out.alive,
    {
        let mut out = if self.attached {
            StepOutcome::one(HostAction::NotifyPtyError)
        } else {
            StepOutcome::nothing()
        };
        out.alive = false;
        out
    }

    /// Takes one event, and says what to do about it.
    pub fn step(&mut self, event: HostEvent, now: Moment) -> (out: StepOutcome)
        requires
            old(self).wf(),
            can_happen(old(self)@, event, now),
        ensures
            final(self).wf(),
            final(self)@ == step_view(old(self)@, event, now).host,
            action_views(out.actions@) == step_view(old(self)@, event, now).actions,
            out.alive == step_view(old(self)@, event, now).alive,
    {
        match event {
            HostEvent::Kill { for_shutdown } => {
                let mut actions: Vec<HostAction> = Vec::new();
                if for_shutdown && self.attached {
                    push_action(
                        &mut actions,
                        HostAction::TearDownBinding { notice: Notice::DaemonShutdown, wait: true },
                    );
                    self.attached = false;
                }
                push_action(&mut actions, HostAction::KillProcess);
                assert(action_views(actions@) =~= step_view(old(self)@, event, now).actions);
                StepOutcome { actions, alive: false }
            },
            HostEvent::Attach { size, keys } => self.attach(size, false, keys),
            HostEvent::SetTitle(title) => {
                self.attrs.title = Some((title, now.wall));
                StepOutcome::nothing()
            },
            HostEvent::AudibleBell => {
                self.attrs.audible_bell = (self.attrs.audible_bell.0 + 1, Some(now.wall));
                StepOutcome::nothing()
            },
            HostEvent::VisualBell => {
                self.attrs.visual_bell = (self.attrs.visual_bell.0 + 1, Some(now.wall));
                StepOutcome::nothing()
            },
            HostEvent::GetAttrs => StepOutcome::one(HostAction::ReplyAttrs),
            HostEvent::GetScreen => StepOutcome::one(HostAction::ReplyScreen),
            HostEvent::CommandInSession => StepOutcome::one(HostAction::ReplyCommand),
            HostEvent::GetAtRisk => StepOutcome::one(HostAction::ReplyAtRisk),
            HostEvent::Output(PtyRead::Bytes(b)) => {
                if b.len() == 0 {
                    return StepOutcome::nothing();
                }
                self.attrs.stdout_last = Some(now.wall);
                let mut actions: Vec<HostAction> = Vec::new();
                if self.attached {
                    let mut copy: Vec<u8> = Vec::new();
                    copy.extend_from_slice(b.as_slice());
                    assert(copy@ =~= b@);
                    push_action(&mut actions, HostAction::ParseOutput(copy));
                    push_action(&mut actions, HostAction::SendToClient(b));
                } else {
                    push_action(&mut actions, HostAction::ParseOutput(b));
                }
                assert(action_views(actions@) =~= step_view(old(self)@, event, now).actions);
                StepOutcome { actions, alive: true }
            },
            HostEvent::Output(PtyRead::WouldBlock) => StepOutcome::nothing(),
            HostEvent::Output(PtyRead::Failed) => self.fail(),
            HostEvent::OutputUndelivered => {
                self.attached = false;
                StepOutcome::nothing()
            },
            HostEvent::Keys { outcomes, pending } => {
                self.attrs.stdin_last = Some(now.wall);
                let mut actions: Vec<HostAction> = Vec::new();
                let (forward, still) = take_keys(&outcomes, self.keys, self.attached, &mut actions);
                self.attached = still;
                self.stdin.put(forward);
                assert(self.stdin@ =~= forward@);
                self.flush_at = if pending {
                    Some(now.tick + CHORD_FLUSH_IDLE)
                } else {
                    None
                };
                StepOutcome { actions, alive: true }
            },
            HostEvent::TerminalUpdate(pty) => {
                let mut actions: Vec<HostAction> = Vec::new();
                let size = WinSize::from(&pty);
                self.set_size(size, &mut actions);
                assert(action_views(actions@) =~= resize_actions(old(self)@.size, size));
                StepOutcome { actions, alive: true }
            },
            HostEvent::WindowChange { col_width, row_height, pix_width, pix_height } => {
                let mut actions: Vec<HostAction> = Vec::new();
                let size = WinSize {
                    rows: truncate(row_height),
                    cols: truncate(col_width),
                    xpixel: truncate(pix_width),
                    ypixel: truncate(pix_height),
                };
                self.set_size(size, &mut actions);
                assert(action_views(actions@) =~= resize_actions(old(self)@.size, size));
                StepOutcome { actions, alive: true }
            },
            HostEvent::Written(PtyWrite::Wrote(n)) => {
                self.stdin.wrote(n);
                StepOutcome::nothing()
            },
            HostEvent::Written(PtyWrite::WouldBlock) => StepOutcome::nothing(),
            HostEvent::Written(PtyWrite::Failed) => self.fail(),
            HostEvent::FlushDue { flushed } => {
                self.flush_at = None;
                self.stdin.put(flushed);
                StepOutcome::nothing()
            },
        }
    }
}

/// What the process was doing when it was asked.
#[derive(Debug)]
pub enum ProcessPoll {
    Running,
    Exited(i32),
    /// It could not be asked.
    Failed,
}

/// What the loop that drives a host does next.
#[derive(Clone, Copy, PartialEq, Eq, Structural, Debug)]
pub enum LoopStep {
    /// Wait for the next event and take a step.
    Step,
    /// End with this exit code, after telling an attached client that the
    /// process has exited.
    Exited { code: i32, notify: bool },
    /// End with the failure to ask the process.
    PollFailed,
    /// Wait for the process, and end with what that gives.
    Reap,
}

/// What to do once the process has been asked: go on while it runs. A process
/// that has exited is told to the attached client here, since the pty may
/// never show it.
pub fn after_poll(poll: ProcessPoll, attached: bool) -> (next: LoopStep)
    ensures
        next == (match poll {
            ProcessPoll::Running => LoopStep::Step,
            ProcessPoll::Exited(code) => LoopStep::Exited { code, notify: attached },
            ProcessPoll::Failed => LoopStep::PollFailed,
        }),
{
    match poll {
        ProcessPoll::Running => LoopStep::Step,
        ProcessPoll::Exited(code) => LoopStep::Exited { code, notify: attached },
        ProcessPoll::Failed => LoopStep::PollFailed,
    }
}

/// What to do after a step: ask the process again while the host is alive.
/// `None` stands for asking.
pub fn after_step(alive: bool) -> (next: Option<LoopStep>)
    ensures
        next == (if alive {
            None
        } else {
            Some(LoopStep::Reap)
        }),
{
    if alive {
        None
    } else {
        Some(LoopStep::Reap)
    }
}

/// Whether the loop is over, which is when the session's network is released.
pub open spec fn loop_is_over(step: LoopStep) -> bool {
    step != LoopStep::Step
}

/// Whether the network attachment is to be released now: once, when the loop
/// has ended, and if there is one.
pub fn releases_network(step: LoopStep, has_network: bool) -> (yes: bool)
    ensures
        yes == (has_network && loop_is_over(step)),
{
    match step {
        LoopStep::Step => false,
        _ => has_network,
    }
}

/// A host ends only when it is killed or its pty fails; nothing that a client
/// types, and no client that comes or goes, ends it.
pub proof fn law_only_kill_or_pty_failure_ends_a_host(h: HostView, event: HostEvent, now: Moment)
    ensures
        !step_view(h, event, now).alive <==> (event is Kill || event matches HostEvent::Output(
            PtyRead::Failed,
        ) || event matches HostEvent::Written(PtyWrite::Failed)),
{
}

proof fn lemma_key_actions_kill_nothing(outcomes: Seq<FeedView>, keys: KeySettings, attached: bool)
    ensures
        !key_actions(outcomes, keys, attached).contains(ActionView::KillProcess),
    decreases outcomes.len(),
{
    if outcomes.len() > 0 {
        lemma_key_actions_kill_nothing(outcomes.drop_last(), keys, attached);
        let all = key_actions(outcomes, keys, attached);
        let before = key_actions(outcomes.drop_last(), keys, attached);
        if all.contains(ActionView::KillProcess) {
            let k = choose|k: int| 0 <= k < all.len() && all[k] == ActionView::KillProcess;
            if k < before.len() {
                assert(before[k] == ActionView::KillProcess);
            }
        }
    }
}

proof fn lemma_detach_says_goodbye(outcomes: Seq<FeedView>, keys: KeySettings, attached: bool)
    requires
        attached,
        outcomes.contains(FeedView::Action(KeyAction::Detach)),
    ensures
        key_actions(outcomes, keys, attached).contains(
            ActionView::TearDownBinding { notice: Notice::Detach, wait: false },
        ),
    decreases outcomes.len(),
{
    let goodbye = ActionView::TearDownBinding { notice: Notice::Detach, wait: false };
    let detach = FeedView::Action(KeyAction::Detach);
    let rest = outcomes.drop_last();
    let all = key_actions(outcomes, keys, attached);
    let before = key_actions(rest, keys, attached);
    if rest.contains(detach) {
        lemma_detach_says_goodbye(rest, keys, attached);
        let k = choose|k: int| 0 <= k < before.len() && before[k] == goodbye;
        assert(all[k] == goodbye);
    } else {
        let k = choose|k: int| 0 <= k < outcomes.len() && outcomes[k] == detach;
        if k < rest.len() {
            assert(rest[k] == detach);
        }
        assert(outcomes.last() == detach);
        assert(all[before.len() as int] == goodbye);
    }
}

/// Detaching is not exiting: the keys that detach say goodbye to the client
/// and leave the process, the terminal and the host as they are.
pub proof fn law_detaching_keeps_the_session(
    h: HostView,
    outcomes: Vec<FeedOutcome>,
    pending: bool,
    now: Moment,
)
    requires
        h.attached,
        feed_views(outcomes@).contains(FeedView::Action(KeyAction::Detach)),
    ensures
        ({
            let after = step_view(h, HostEvent::Keys { outcomes, pending }, now);
            &&& after.alive
            &&& !after.actions.contains(ActionView::KillProcess)
            &&& after.actions.contains(
                ActionView::TearDownBinding { notice: Notice::Detach, wait: false },
            )
            &&& !after.host.attached
            &&& after.host.size == h.size
        }),
{
    let fed = feed_views(outcomes@);
    lemma_key_actions_kill_nothing(fed, h.keys, h.attached);
    lemma_detach_says_goodbye(fed, h.keys, h.attached);
}

/// The keys of a chord never reach the process: a run of outcomes without data
/// and without a leader that is passed on forwards nothing.
pub proof fn law_chords_are_swallowed(outcomes: Seq<FeedView>, keys: KeySettings)
    requires
        forall|i: int|
            0 <= i < outcomes.len() ==> (#[trigger] outcomes[i]) is Action && outcomes[i]
                != FeedView::Action(KeyAction::ForwardLeader),
    ensures
        forwarded(outcomes, keys) == Seq::<u8>::empty(),
    decreases outcomes.len(),
{
    if outcomes.len() > 0 {
        let rest = outcomes.drop_last();
        assert forall|i: int| 0 <= i < rest.len() implies (#[trigger] rest[i]) is Action && rest[i]
            != FeedView::Action(KeyAction::ForwardLeader) by {
            assert(rest[i] == outcomes[i]);
        }
        law_chords_are_swallowed(rest, keys);
        assert(outcomes.last() == outcomes[outcomes.len() - 1]);
        assert(forwarded(outcomes, keys) =~= Seq::<u8>::empty());
    }
}

/// What two runs of outcomes forward is what they forward one after the other,
/// however the input was cut into runs.
pub proof fn law_forwarding_follows_the_input(
    first: Seq<FeedView>,
    second: Seq<FeedView>,
    keys: KeySettings,
)
    ensures
        forwarded(first + second, keys) == forwarded(first, keys) + forwarded(second, keys),
    decreases second.len(),
{
    if second.len() == 0 {
        assert(first + second =~= first);
        assert(forwarded(first, keys) + forwarded(second, keys) =~= forwarded(first, keys));
    } else {
        law_forwarding_follows_the_input(first, second.drop_last(), keys);
        assert((first + second).drop_last() =~= first + second.drop_last());
        assert((first + second).last() == second.last());
        assert(forwarded(first + second, keys) =~= forwarded(first, keys) + forwarded(second, keys));
    }
}

/// Keystrokes reach the pty in order: writing `a` bytes and then `b` leaves
/// what writing `a + b` at once would.
pub proof fn law_partial_writes_keep_the_order(h: HostView, a: usize, b: usize, sum: usize, now: Moment)
    requires
        sum == a + b,
        sum <= h.stdin.len(),
    ensures
        ({
            let once = step_view(h, HostEvent::Written(PtyWrite::Wrote(a)), now).host;
            step_view(once, HostEvent::Written(PtyWrite::Wrote(b)), now)
        }) == step_view(h, HostEvent::Written(PtyWrite::Wrote(sum)), now),
{
    assert(h.stdin.skip(a as int).skip(b as int) =~= h.stdin.skip(sum as int));
}

/// Keystrokes that wait for the pty wait until they are written: an event
/// leaves them in front of what it adds, and a write takes them from the
/// front. The exception is a held part of a chord that comes due while
/// keystrokes wait, which takes their place.
pub proof fn law_waiting_keystrokes_stay(h: HostView, event: HostEvent, now: Moment)
    requires
        can_happen(h, event, now),
        event matches HostEvent::FlushDue { flushed } ==> flushed@.len() == 0 || h.stdin.len() == 0,
    ensures
        ({
            let after = step_view(h, event, now).host.stdin;
            match event {
                HostEvent::Written(PtyWrite::Wrote(n)) => h.stdin == h.stdin.take(n as int) + after,
                _ => h.stdin.is_prefix_of(after),
            }
        }),
{
    let after = step_view(h, event, now).host.stdin;
    match event {
        HostEvent::Written(PtyWrite::Wrote(n)) => {
            assert(h.stdin =~= h.stdin.take(n as int) + after);
        },
        _ => {
            assert(h.stdin =~= after.subrange(0, h.stdin.len() as int));
        },
    }
}

/// A size that the terminal has already is not given to it again.
pub proof fn law_resizing_settles(h: HostView, size: WinSize)
    ensures
        resizes(resizes(h, size).host, size) == stays(resizes(h, size).host),
{
    assert(resizes(resizes(h, size).host, size).actions =~= Seq::empty());
}

/// A client that attaches gets its own keys and no held part of a chord,
/// whatever the client before it left behind; that client, if there was one,
/// is told that it was superceded.
pub proof fn law_attaching_starts_afresh(h: HostView, size: WinSize, keys: KeySettings, now: Moment)
    ensures
        ({
            let after = step_view(h, HostEvent::Attach { size, keys }, now);
            &&& after.alive
            &&& after.host.attached
            &&& after.host.keys == keys
            &&& after.host.flush_at is None
            &&& after.host.size == size
            &&& after.actions.contains(ActionView::SendScreenState)
            &&& h.attached ==> after.actions.contains(
                ActionView::TearDownBinding { notice: Notice::Superceded, wait: true },
            )
        }),
{
    let after = step_view(h, HostEvent::Attach { size, keys }, now);
    assert(after.actions[2] == ActionView::SendScreenState);
    if h.attached {
        assert(after.actions[4] == ActionView::TearDownBinding {
            notice: Notice::Superceded,
            wait: true,
        });
    }
}

/// A window that the client changed is the window that the shell gets: rows from
/// the height and columns from the width, and the pixels likewise, each as far
/// as sixteen bits hold it. Where that is a new size, the pty and the screen are
/// given just that, and nothing else changes; where it is not, nothing happens.
pub proof fn law_the_window_follows_the_client(
    h: HostView,
    col_width: u32,
    row_height: u32,
    pix_width: u32,
    pix_height: u32,
    now: Moment,
)
    ensures
        ({
            let after = step_view(
                h,
                HostEvent::WindowChange { col_width, row_height, pix_width, pix_height },
                now,
            );
            let size = after.host.size;
            &&& size.rows as int == row_height as int % 0x10000
            &&& size.cols as int == col_width as int % 0x10000
            &&& size.xpixel as int == pix_width as int % 0x10000
            &&& size.ypixel as int == pix_height as int % 0x10000
            &&& size != h.size ==> after.actions == seq![
                ActionView::ResizePty(size),
                ActionView::ResizeScreen { rows: size.rows, cols: size.cols },
            ]
            &&& size == h.size ==> after.actions == Seq::<ActionView>::empty()
            &&& after.host == (HostView { size, ..h })
            &&& after.alive
        }),
{
}

/// A terminal that a client asks for is the one it gets: as many rows and
/// columns as it asked for, up to the most that there can be, and the usual 24
/// by 80 where it named none.
pub proof fn law_the_terminal_is_the_one_asked_for(h: HostView, pty: RequestedPty, now: Moment)
    ensures
        ({
            let after = step_view(h, HostEvent::TerminalUpdate(pty), now);
            let size = after.host.size;
            let (cols, rows) = pty.char_sizes;
            let (width, height) = pty.pixel_sizes;
            &&& size.rows as int == (if rows == 0 {
                24
            } else if rows > 0xffff {
                0xffff
            } else {
                rows as int
            })
            &&& size.cols as int == (if cols == 0 {
                80
            } else if cols > 0xffff {
                0xffff
            } else {
                cols as int
            })
            &&& size.xpixel as int == (if width > 0xffff {
                0xffff
            } else {
                width as int
            })
            &&& size.ypixel as int == (if height > 0xffff {
                0xffff
            } else {
                height as int
            })
            &&& size != h.size ==> after.actions == seq![
                ActionView::ResizePty(size),
                ActionView::ResizeScreen { rows: size.rows, cols: size.cols },
            ]
            &&& size == h.size ==> after.actions == Seq::<ActionView>::empty()
            &&& after.host == (HostView { size, ..h })
            &&& after.alive
        }),
{
}

/// What the process writes reaches the screen, and the client where there is
/// one, whole and unchanged, and leaves a trace of when; a read without bytes
/// changes nothing.
pub proof fn law_output_reaches_screen_and_client(h: HostView, bytes: Vec<u8>, now: Moment)
    ensures
        ({
            let after = step_view(h, HostEvent::Output(PtyRead::Bytes(bytes)), now);
            &&& after.alive
            &&& bytes@.len() == 0 ==> after.host == h && after.actions.len() == 0
            &&& bytes@.len() > 0 ==> {
                &&& after.actions[0] == ActionView::ParseOutput(bytes@)
                &&& h.attached ==> after.actions.len() == 2 && after.actions[1]
                    == ActionView::SendToClient(bytes@)
                &&& !h.attached ==> after.actions.len() == 1
                &&& after.host.attrs.stdout_last == Some(now.wall)
                &&& after.host == (HostView {
                    attrs: AttrsView { stdout_last: Some(now.wall), ..h.attrs },
                    ..h
                })
            }
        }),
        step_view(h, HostEvent::Output(PtyRead::WouldBlock), now).actions.len() == 0,
        step_view(h, HostEvent::Output(PtyRead::WouldBlock), now).host == h,
        step_view(h, HostEvent::OutputUndelivered, now).host == (HostView {
            attached: false,
            ..h
        }),
        step_view(h, HostEvent::OutputUndelivered, now).actions.len() == 0,
{
}

/// One piece of input comes to what it stands for: data goes to the process as
/// it is, a leader that is passed on goes as its byte, and the rest goes nowhere;
/// entering command mode rings the client's bell where it asked for that, and
/// detaching says goodbye. A client that is not there is sent nothing.
pub proof fn law_a_piece_of_input_is_taken_for_what_it_is(
    keys: KeySettings,
    attached: bool,
    data: Seq<u8>,
)
    ensures
        forwarded(Seq::empty(), keys) == Seq::<u8>::empty(),
        key_actions(Seq::empty(), keys, attached) == Seq::<ActionView>::empty(),
        forwarded(seq![FeedView::Forward(data)], keys) == data,
        forwarded(seq![FeedView::Action(KeyAction::ForwardLeader)], keys) == seq![
            keys.leader_byte,
        ],
        forwarded(seq![FeedView::Action(KeyAction::Swallow)], keys) == Seq::<u8>::empty(),
        forwarded(seq![FeedView::Action(KeyAction::EnterCommandMode)], keys) == Seq::<u8>::empty(),
        forwarded(seq![FeedView::Action(KeyAction::Detach)], keys) == Seq::<u8>::empty(),
        key_actions(seq![FeedView::Forward(data)], keys, attached) == Seq::<ActionView>::empty(),
        key_actions(seq![FeedView::Action(KeyAction::ForwardLeader)], keys, attached) == Seq::<
            ActionView,
        >::empty(),
        key_actions(seq![FeedView::Action(KeyAction::Swallow)], keys, attached) == Seq::<
            ActionView,
        >::empty(),
        key_actions(seq![FeedView::Action(KeyAction::EnterCommandMode)], keys, attached) == (
        if attached && keys.bell_on_leader {
            seq![ActionView::SendToClient(seq![7u8])]
        } else {
            Seq::<ActionView>::empty()
        }),
        key_actions(seq![FeedView::Action(KeyAction::Detach)], keys, attached) == (if attached {
            seq![ActionView::TearDownBinding { notice: Notice::Detach, wait: false }]
        } else {
            Seq::<ActionView>::empty()
        }),
{
    reveal_with_fuel(forwarded, 2);
    reveal_with_fuel(key_actions, 2);
    let none = Seq::<FeedView>::empty();
    assert forall|o: FeedView| (#[trigger] seq![o]).drop_last() =~= none by {}
    assert(!none.contains(FeedView::Action(KeyAction::Detach)));
    assert(forwarded(seq![FeedView::Forward(data)], keys) =~= data);
    assert(forwarded(seq![FeedView::Action(KeyAction::ForwardLeader)], keys) =~= seq![
        keys.leader_byte,
    ]);
    assert(forwarded(seq![FeedView::Action(KeyAction::Swallow)], keys) =~= Seq::<u8>::empty());
    assert(forwarded(seq![FeedView::Action(KeyAction::EnterCommandMode)], keys) =~= Seq::<
        u8,
    >::empty());
    assert(forwarded(seq![FeedView::Action(KeyAction::Detach)], keys) =~= Seq::<u8>::empty());
    assert(key_actions(seq![FeedView::Forward(data)], keys, attached) =~= Seq::<
        ActionView,
    >::empty());
    assert(key_actions(seq![FeedView::Action(KeyAction::ForwardLeader)], keys, attached) =~= Seq::<
        ActionView,
    >::empty());
    assert(key_actions(seq![FeedView::Action(KeyAction::Swallow)], keys, attached) =~= Seq::<
        ActionView,
    >::empty());
    assert(key_actions(seq![FeedView::Action(KeyAction::EnterCommandMode)], keys, attached) =~= (
    if attached && keys.bell_on_leader {
        seq![ActionView::SendToClient(seq![7u8])]
    } else {
        Seq::<ActionView>::empty()
    }));
    assert(key_actions(seq![FeedView::Action(KeyAction::Detach)], keys, attached) =~= (
    if attached {
        seq![ActionView::TearDownBinding { notice: Notice::Detach, wait: false }]
    } else {
        Seq::<ActionView>::empty()
    }));
}

/// What the client is sent for two runs of input is what it is sent for the one
/// and then for the other, for as long as it is there.
pub proof fn law_actions_follow_the_input(
    first: Seq<FeedView>,
    second: Seq<FeedView>,
    keys: KeySettings,
    attached: bool,
)
    ensures
        key_actions(first + second, keys, attached) == key_actions(first, keys, attached)
            + key_actions(
            second,
            keys,
            attached && !first.contains(FeedView::Action(KeyAction::Detach)),
        ),
    decreases second.len(),
{
    let detach = FeedView::Action(KeyAction::Detach);
    let still = attached && !first.contains(detach);
    if second.len() == 0 {
        assert(first + second =~= first);
        assert(key_actions(first, keys, attached) + key_actions(second, keys, still)
            =~= key_actions(first, keys, attached));
    } else {
        let rest = second.drop_last();
        law_actions_follow_the_input(first, rest, keys, attached);
        let all = first + second;
        assert(all.drop_last() =~= first + rest);
        assert(all.last() == second.last());
        assert((first + rest).contains(detach) <==> first.contains(detach) || rest.contains(detach))
            by {
            if first.contains(detach) {
                let k = choose|k: int| 0 <= k < first.len() && first[k] == detach;
                assert((first + rest)[k] == detach);
            }
            if rest.contains(detach) {
                let k = choose|k: int| 0 <= k < rest.len() && rest[k] == detach;
                assert((first + rest)[first.len() + k] == detach);
            }
            if (first + rest).contains(detach) {
                let k = choose|k: int| 0 <= k < (first + rest).len() && (first + rest)[k] == detach;
                if k < first.len() {
                    assert(first[k] == detach);
                } else {
                    assert(rest[k - first.len()] == detach);
                }
            }
        }
        assert(key_actions(all, keys, attached) =~= key_actions(first, keys, attached)
            + key_actions(second, keys, still));
    }
}

/// Keystrokes are taken as the matcher took them apart: what is forwarded is what
/// waits for the pty, the client stays unless it detached, it is noted when they
/// came, and a part of a chord that is held back is given fifty milliseconds.
pub proof fn law_keystrokes_are_taken_as_they_come(
    h: HostView,
    outcomes: Vec<FeedOutcome>,
    pending: bool,
    now: Moment,
)
    requires
        h.stdin.len() == 0,
        now.tick <= u128::MAX - 50_000_000,
    ensures
        ({
            let after = step_view(h, HostEvent::Keys { outcomes, pending }, now);
            let fed = feed_views(outcomes@);
            &&& after.alive
            &&& after.actions == key_actions(fed, h.keys, h.attached)
            &&& after.host.stdin == forwarded(fed, h.keys)
            &&& after.host.attached <==> h.attached && !fed.contains(
                FeedView::Action(KeyAction::Detach),
            )
            &&& after.host.attrs == (AttrsView { stdin_last: Some(now.wall), ..h.attrs })
            &&& pending ==> after.host.flush_at is Some && after.host.flush_at->0 == now.tick
                + 50_000_000
            &&& !pending ==> after.host.flush_at is None
            &&& after.host.size == h.size && after.host.keys == h.keys
        }),
{
}

/// A part of a chord that comes due goes to the pty as it is, and is not due
/// again; what is written to the pty is what waited first.
pub proof fn law_what_waits_is_written_from_the_front(
    h: HostView,
    flushed: Vec<u8>,
    n: usize,
    now: Moment,
)
    requires
        n <= h.stdin.len(),
    ensures
        ({
            let after = step_view(h, HostEvent::FlushDue { flushed }, now);
            &&& after.alive && after.actions.len() == 0
            &&& after.host == (HostView {
                flush_at: None,
                stdin: if flushed@.len() > 0 { flushed@ } else { h.stdin },
                ..h
            })
        }),
        ({
            let after = step_view(h, HostEvent::Written(PtyWrite::Wrote(n)), now);
            &&& after.alive && after.actions.len() == 0
            &&& h.stdin == h.stdin.take(n as int) + after.host.stdin
            &&& after.host == (HostView { stdin: after.host.stdin, ..h })
        }),
        step_view(h, HostEvent::Written(PtyWrite::WouldBlock), now) == (StepView {
            host: h,
            actions: Seq::empty(),
            alive: true,
        }),
{
    assert(h.stdin =~= h.stdin.take(n as int) + h.stdin.skip(n as int));
}

/// What the terminal tells of itself is kept: a title with its time, and each
/// bell counted with the time of the last; one does not touch another.
pub proof fn law_titles_and_bells_are_kept(h: HostView, title: String, now: Moment)
    requires
        h.attrs.audible_bell.0 < usize::MAX,
        h.attrs.visual_bell.0 < usize::MAX,
    ensures
        step_view(h, HostEvent::SetTitle(title), now) == (StepView {
            host: HostView { attrs: AttrsView { title: Some((title@, now.wall)), ..h.attrs }, ..h },
            actions: Seq::empty(),
            alive: true,
        }),
        ({
            let after = step_view(h, HostEvent::AudibleBell, now);
            &&& after.host.attrs.audible_bell.0 == h.attrs.audible_bell.0 + 1
            &&& after.host.attrs.audible_bell.1 == Some(now.wall)
            &&& after.host == (HostView {
                attrs: AttrsView { audible_bell: after.host.attrs.audible_bell, ..h.attrs },
                ..h
            })
            &&& after.actions.len() == 0 && after.alive
        }),
        ({
            let after = step_view(h, HostEvent::VisualBell, now);
            &&& after.host.attrs.visual_bell.0 == h.attrs.visual_bell.0 + 1
            &&& after.host.attrs.visual_bell.1 == Some(now.wall)
            &&& after.host == (HostView {
                attrs: AttrsView { visual_bell: after.host.attrs.visual_bell, ..h.attrs },
                ..h
            })
            &&& after.actions.len() == 0 && after.alive
        }),
{
}

/// A question is answered, and changes nothing: each with its own answer.
pub proof fn law_questions_change_nothing(h: HostView, now: Moment)
    ensures
        step_view(h, HostEvent::GetAttrs, now) == (StepView {
            host: h,
            actions: seq![ActionView::ReplyAttrs],
            alive: true,
        }),
        step_view(h, HostEvent::GetScreen, now) == (StepView {
            host: h,
            actions: seq![ActionView::ReplyScreen],
            alive: true,
        }),
        step_view(h, HostEvent::CommandInSession, now) == (StepView {
            host: h,
            actions: seq![ActionView::ReplyCommand],
            alive: true,
        }),
        step_view(h, HostEvent::GetAtRisk, now) == (StepView {
            host: h,
            actions: seq![ActionView::ReplyAtRisk],
            alive: true,
        }),
{
}

/// A kill ends the process, whatever else it does: a client is told, and waited
/// for, where the daemon goes down, and not otherwise. A pty that fails is told
/// to the client, if there is one.
pub proof fn law_an_end_is_told_to_the_client(h: HostView, for_shutdown: bool, now: Moment)
    ensures
        ({
            let after = step_view(h, HostEvent::Kill { for_shutdown }, now);
            &&& !after.alive
            &&& after.actions.last() == ActionView::KillProcess
            &&& after.actions == (if for_shutdown && h.attached {
                seq![
                    ActionView::TearDownBinding { notice: Notice::DaemonShutdown, wait: true },
                    ActionView::KillProcess,
                ]
            } else {
                seq![ActionView::KillProcess]
            })
        }),
        step_view(h, HostEvent::Output(PtyRead::Failed), now).actions == (if h.attached {
            seq![ActionView::NotifyPtyError]
        } else {
            Seq::<ActionView>::empty()
        }),
        step_view(h, HostEvent::Written(PtyWrite::Failed), now).actions == (if h.attached {
            seq![ActionView::NotifyPtyError]
        } else {
            Seq::<ActionView>::empty()
        }),
{
    let after = step_view(h, HostEvent::Kill { for_shutdown }, now);
    assert(after.actions =~= (if for_shutdown && h.attached {
        seq![
            ActionView::TearDownBinding { notice: Notice::DaemonShutdown, wait: true },
            ActionView::KillProcess,
        ]
    } else {
        seq![ActionView::KillProcess]
    }));
}

/// A client that attaches is served in order: its keys are set up, the screen is
/// brought to its size and shown, unless the host is new, it is bound, whoever
/// was there before is told and waited for, the pty gets the new size if that is
/// one, and only then the hooks run.
pub proof fn law_attaching_goes_in_order(
    h: HostView,
    size: WinSize,
    skip_flush: bool,
    keys: KeySettings,
    now: Moment,
)
    ensures
        ({
            let after = attach_view(h, size, skip_flush, keys);
            let shown = if skip_flush {
                Seq::empty()
            } else {
                seq![
                    ActionView::ResizeScreen { rows: size.rows, cols: size.cols },
                    ActionView::SendScreenState,
                ]
            };
            let told = if h.attached {
                seq![ActionView::TearDownBinding { notice: Notice::Superceded, wait: true }]
            } else {
                Seq::empty()
            };
            let sized = if h.size != size {
                seq![
                    ActionView::ResizePty(size),
                    ActionView::ResizeScreen { rows: size.rows, cols: size.cols },
                ]
            } else {
                Seq::empty()
            };
            &&& after.alive
            &&& after.actions == seq![ActionView::ResetMatcher(keys)] + shown + seq![
                ActionView::SpawnBinding,
            ] + told + sized + seq![ActionView::RunAttachHooks]
            &&& after.host.attached && after.host.size == size && after.host.keys == keys
            &&& after.host.flush_at is None
            &&& after.host.stdin == h.stdin && after.host.attrs == h.attrs
        }),
        step_view(h, HostEvent::Attach { size, keys }, now) == attach_view(h, size, false, keys),
{
    let after = attach_view(h, size, skip_flush, keys);
    let shown = if skip_flush {
        Seq::empty()
    } else {
        seq![
            ActionView::ResizeScreen { rows: size.rows, cols: size.cols },
            ActionView::SendScreenState,
        ]
    };
    let told = if h.attached {
        seq![ActionView::TearDownBinding { notice: Notice::Superceded, wait: true }]
    } else {
        Seq::empty()
    };
    let sized = if h.size != size {
        seq![
            ActionView::ResizePty(size),
            ActionView::ResizeScreen { rows: size.rows, cols: size.cols },
        ]
    } else {
        Seq::empty()
    };
    assert(after.actions =~= seq![ActionView::ResetMatcher(keys)] + shown + seq![
        ActionView::SpawnBinding,
    ] + told + sized + seq![ActionView::RunAttachHooks]);
}

/// The loop goes on exactly while the process runs and the host is alive; a
/// process that exited gives its code, and is told to the client that is there;
/// the network is released once the loop is over, and only then.
pub proof fn law_the_loop_ends_with_the_process(
    poll: ProcessPoll,
    attached: bool,
    next: LoopStep,
    alive: bool,
    then_next: Option<LoopStep>,
    has_network: bool,
    releases: bool,
)
    requires
        call_ensures(after_poll, (poll, attached), next),
        call_ensures(after_step, (alive,), then_next),
        call_ensures(releases_network, (next, has_network), releases),
    ensures
        next == LoopStep::Step <==> poll is Running,
        poll matches ProcessPoll::Exited(code) ==> next == (LoopStep::Exited {
            code,
            notify: attached,
        }),
        poll is Failed ==> next == LoopStep::PollFailed,
        then_next is None <==> alive,
        !alive ==> then_next == Some(LoopStep::Reap),
        releases <==> has_network && !(poll is Running),
{
}

/// A pty that fails ends the host, and nothing else about it changes; a kill lets
/// go of the client only where the daemon goes down. A host goes on after
/// anything else.
pub proof fn law_only_a_failure_or_a_kill_ends_the_host(h: HostView, event: HostEvent, now: Moment)
    requires
        can_happen(h, event, now),
    ensures
        !step_view(h, event, now).alive <==> ({
            ||| event is Kill
            ||| event is Output && event->Output_0 is Failed
            ||| event is Written && event->Written_0 is Failed
        }),
        event is Output && event->Output_0 is Failed ==> step_view(h, event, now).host == h,
        event is Written && event->Written_0 is Failed ==> step_view(h, event, now).host == h,
        event is Kill && event->for_shutdown ==> step_view(h, event, now).host == (HostView {
            attached: false,
            ..h
        }),
        event is Kill && !event->for_shutdown ==> step_view(h, event, now).host == h,
{
}

/// A new host has no client, no keystrokes to write and nothing to tell of its
/// terminal, which has the size and the keys that it was given.
pub proof fn law_a_new_host_has_nothing_yet(size: WinSize, keys: KeySettings, host: Host)
    requires
        call_ensures(Host::new, (size, keys), host),
    ensures
        host@.size == size,
        host@.keys == keys,
        !host@.attached,
        host@.stdin.len() == 0,
        host@.flush_at is None,
        host@.attrs.title is None,
        host@.attrs.audible_bell == (0usize, None::<u128>),
        host@.attrs.visual_bell == (0usize, None::<u128>),
        host@.attrs.stdout_last is None,
        host@.attrs.stdin_last is None,
{
}

/// What [`Host::step`] and [`Host::attach`] do is what is said of a step here,
/// for every host, every event and every moment.
pub proof fn law_a_host_takes_its_steps_as_stated(
    event: HostEvent,
    now: Moment,
    size: WinSize,
    skip_flush: bool,
    keys: KeySettings,
    out: StepOutcome,
)
    ensures
        forall|h: &mut Host| #[trigger]
            call_ensures(Host::step, (h, event, now), out) ==> {
                let said = step_view(h@, event, now);
                &&& final(h)@ == said.host
                &&& out.alive == said.alive
                &&& out.actions@.len() == said.actions.len()
                &&& forall|i: int|
                    0 <= i < out.actions@.len() ==> (#[trigger] out.actions@[i])@ == said.actions[i]
            },
        forall|h: &mut Host| #[trigger]
            call_ensures(Host::attach, (h, size, skip_flush, keys), out) ==> {
                let said = attach_view(h@, size, skip_flush, keys);
                &&& final(h)@ == said.host
                &&& out.alive == said.alive
                &&& out.actions@.len() == said.actions.len()
                &&& forall|i: int|
                    0 <= i < out.actions@.len() ==> (#[trigger] out.actions@[i])@ == said.actions[i]
            },
{
    assert(action_views(out.actions@).len() == out.actions@.len());
    assert forall|i: int| 0 <= i < out.actions@.len() implies (#[trigger] out.actions@[i])@
        == action_views(out.actions@)[i] by {}
}

/// A window that changed is handed to the pty and to the screen as the client
/// sent it, by [`Host::step`] itself: rows from the height, columns from the
/// width.
pub proof fn law_a_changed_window_reaches_the_pty(
    cols: u16,
    rows: u16,
    width: u16,
    height: u16,
    now: Moment,
    out: StepOutcome,
)
    ensures
        forall|h: &mut Host|
            h@.size != (WinSize { rows, cols, xpixel: width, ypixel: height })
                && #[trigger] call_ensures(
                Host::step,
                (
                    h,
                    HostEvent::WindowChange {
                        col_width: cols as u32,
                        row_height: rows as u32,
                        pix_width: width as u32,
                        pix_height: height as u32,
                    },
                    now,
                ),
                out,
            ) ==> {
                &&& final(h)@.size == (WinSize { rows, cols, xpixel: width, ypixel: height })
                &&& out.alive
                &&& out.actions@.len() == 2
                &&& out.actions@[0] == HostAction::ResizePty(
                    WinSize { rows, cols, xpixel: width, ypixel: height },
                )
                &&& out.actions@[1] == (HostAction::ResizeScreen { rows, cols })
            },
{
    assert(action_views(out.actions@).len() == out.actions@.len());
    assert forall|i: int| 0 <= i < out.actions@.len() implies (#[trigger] out.actions@[i])@
        == action_views(out.actions@)[i] by {}
}

/// An action asks for what it says: no number of it is changed on the way.
pub proof fn law_actions_ask_for_what_they_say(
    rows: u16,
    cols: u16,
    size: WinSize,
    bytes: Vec<u8>,
    notice: Notice,
    wait: bool,
    keys: KeySettings,
)
    ensures
        (HostAction::ResizeScreen { rows, cols })@ == (ActionView::ResizeScreen { rows, cols }),
        HostAction::ResizePty(size)@ == ActionView::ResizePty(size),
        HostAction::ParseOutput(bytes)@ == ActionView::ParseOutput(bytes@),
        HostAction::SendToClient(bytes)@ == ActionView::SendToClient(bytes@),
        (HostAction::TearDownBinding { notice, wait })@ == (ActionView::TearDownBinding {
            notice,
            wait,
        }),
        HostAction::ResetMatcher(keys)@ == ActionView::ResetMatcher(keys),
        HostAction::KillProcess@ is KillProcess,
        HostAction::SpawnBinding@ is SpawnBinding,
        HostAction::SendScreenState@ is SendScreenState,
        HostAction::RunAttachHooks@ is RunAttachHooks,
        HostAction::NotifyPtyError@ is NotifyPtyError,
        HostAction::ReplyAttrs@ is ReplyAttrs,
        HostAction::ReplyScreen@ is ReplyScreen,
        HostAction::ReplyCommand@ is ReplyCommand,
        HostAction::ReplyAtRisk@ is ReplyAtRisk,
        FeedOutcome::Forward(bytes)@ == FeedView::Forward(bytes@),
{
}

/// What a host tells of itself is what it is in.
pub proof fn law_a_host_tells_what_it_is_in(
    h: &Host,
    attrs: &HostAttrs,
    attached: bool,
    takes: bool,
    rest: Option<bytes::Bytes>,
    due: Option<u128>,
)
    requires
        h.wf(),
        call_ensures(Host::attrs, (h,), attrs),
        call_ensures(Host::is_attached, (h,), attached),
        call_ensures(Host::takes_keys, (h,), takes),
        call_ensures(Host::unwritten, (h,), rest),
        call_ensures(Host::flush_deadline, (h,), due),
    ensures
        attrs@ == h@.attrs,
        attached <==> h@.attached,
        takes <==> h@.stdin.len() == 0,
        rest is Some <==> h@.stdin.len() > 0,
        rest is Some ==> crate::queue::bytes_of(rest->0) == h@.stdin,
        due == h@.flush_at,
{
}

} // verus!
