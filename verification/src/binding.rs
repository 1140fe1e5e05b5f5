//! The connection between a host and the channel of an attached client.
use vstd::prelude::*;
use vstd::string::*;
use vstd::utf8::*;

use crate::host::RequestedPty;
use crate::text;

verus! {

/// What arrives on a client's channel.
#[derive(Debug)]
pub enum ChannelEvent {
    /// Nothing more will arrive.
    Closed,
    Data(bytes::Bytes),
    RequestPty(RequestedPty),
    WindowChange { col_width: u32, row_height: u32, pix_width: u32, pix_height: u32 },
    /// Anything else, which an attached channel has no use for.
    Other,
}

/// What a binding passes on to its host.
#[derive(Debug)]
pub enum StdinMsg {
    Bytes(bytes::Bytes),
    TerminalUpdate(RequestedPty),
    WindowChange { col_width: u32, row_height: u32, pix_width: u32, pix_height: u32 },
}

/// Why the pty failed.
#[derive(Debug)]
pub struct PtyError {
    /// The number of the system's error, if it was one.
    pub os_error: Option<i32>,
    pub text: String,
}

/// What a host tells its binding.
#[derive(Debug)]
pub enum BindingMsg {
    /// Output of the session, for the client.
    Stdin(Vec<u8>),
    /// The session's process ended, with the pty's failure if that is how it
    /// showed.
    TeardownDueToProcessExit(Option<PtyError>),
    /// Another client took over; the codes return the terminal to normal.
    TeardownDueToSuperceded(Vec<u8>),
    TeardownDueToDetach(Vec<u8>),
    TeardownDueToDaemonShutdown(Vec<u8>),
}

/// Why a binding stops relaying.
#[derive(Clone, Copy, PartialEq, Eq, Structural, Debug)]
pub enum ExitReason {
    HostGone,
    Detach,
    Superceded,
    ProcessExited,
    Shutdown,
}

/// What the prompt after a shell's exit settled on.
#[derive(Clone, Copy, PartialEq, Eq, Structural, Debug)]
pub enum ExitDisposition {
    /// The session survives the shell that exited.
    Kept,
    /// The session was torn down.
    Destroyed,
}

/// The number of the error that a pty reports when its process is gone.
pub const EIO: i32 = 5;

/// A binding, as far as it decides anything: whether its client may still send.
pub struct Binding {
    remote_open: bool,
}

/// What a message from the host comes to: what is written to the client, one
/// piece after the other, and whether the binding stops.
#[derive(Debug)]
pub struct BindingStep {
    pub writes: Vec<Vec<u8>>,
    pub exit: Option<ExitReason>,
}

/// The pieces that are written.
pub open spec fn pieces(writes: Seq<Vec<u8>>) -> Seq<Seq<u8>> {
    writes.map_values(|w: Vec<u8>| w@)
}

/// What is written to the client for a message from the host. The failure that
/// a pty always shows when its process exits is not worth a word; another is.
pub open spec fn written_for(msg: Option<BindingMsg>) -> Seq<Seq<u8>> {
    match msg {
        None => Seq::empty(),
        Some(BindingMsg::Stdin(b)) => seq![b@],
        Some(BindingMsg::TeardownDueToProcessExit(Some(e))) => if e.os_error == Some(EIO) {
            Seq::empty()
        } else {
            seq![encode_utf8("Error reading stdout: "@ + e.text@ + "\n"@)]
        },
        Some(BindingMsg::TeardownDueToProcessExit(None)) => Seq::empty(),
        Some(BindingMsg::TeardownDueToSuperceded(codes)) => seq![
            codes@,
            encode_utf8(
                "\r\nDisconnecting - session attached to from a different connection\r\n"@,
            ),
        ],
        Some(BindingMsg::TeardownDueToDaemonShutdown(codes)) => seq![
            codes@,
            encode_utf8("\r\nDisconnecting - minimald is shutting down\r\n"@),
        ],
        Some(BindingMsg::TeardownDueToDetach(codes)) => seq![
            codes@,
            encode_utf8("\r\nDetaching from session.\r\n"@),
        ],
    }
}

/// Whether a message from the host stops the binding, and why.
pub open spec fn exit_for(msg: Option<BindingMsg>) -> Option<ExitReason> {
    match msg {
        None => Some(ExitReason::HostGone),
        Some(BindingMsg::Stdin(_)) => None,
        Some(BindingMsg::TeardownDueToProcessExit(_)) => Some(ExitReason::ProcessExited),
        Some(BindingMsg::TeardownDueToSuperceded(_)) => Some(ExitReason::Superceded),
        Some(BindingMsg::TeardownDueToDaemonShutdown(_)) => Some(ExitReason::Shutdown),
        Some(BindingMsg::TeardownDueToDetach(_)) => Some(ExitReason::Detach),
    }
}

/// What is passed on to the host of what arrives on the channel.
pub open spec fn passed_on(event: ChannelEvent) -> Option<StdinMsg> {
    match event {
        ChannelEvent::Closed => None,
        ChannelEvent::Data(data) => Some(StdinMsg::Bytes(data)),
        ChannelEvent::RequestPty(pty) => Some(StdinMsg::TerminalUpdate(pty)),
        ChannelEvent::WindowChange { col_width, row_height, pix_width, pix_height } => Some(
            StdinMsg::WindowChange { col_width, row_height, pix_width, pix_height },
        ),
        ChannelEvent::Other => None,
    }
}

fn farewell(codes: Vec<u8>, words: &str) -> (writes: Vec<Vec<u8>>)
    ensures
        pieces(writes@) == seq![codes@, encode_utf8(words@)],
{
    let mut writes: Vec<Vec<u8>> = Vec::new();
    writes.push(codes);
    writes.push(words.as_bytes_vec());
    assert(pieces(writes@) =~= seq![codes@, encode_utf8(words@)]);
    writes
}

impl Binding {
    /// Whether the client's channel is still read.
    pub closed spec fn reads_channel(&self) -> bool {
        self.remote_open
    }

    /// A binding to a channel that was just attached.
    pub fn new() -> (b: Self)
        ensures
            b.reads_channel(),
    {
        Binding { remote_open: true }
    }

    /// Whether to read the client's channel.
    pub fn is_remote_open(&self) -> (yes: bool)
        ensures
            yes == self.reads_channel(),
    {
        self.remote_open
    }

    /// Takes what arrived on the channel, and says what to pass on to the host.
    /// A channel that has ended is not read again; output still goes to it.
    pub fn from_remote(&mut self, event: ChannelEvent) -> (msg: Option<StdinMsg>)
        requires
            old(self).reads_channel(),
        ensures
            msg == passed_on(event),
            final(self).reads_channel() == !(event is Closed),
    {
        match event {
            ChannelEvent::Closed => {
                self.remote_open = false;
                None
            },
            ChannelEvent::Data(data) => Some(StdinMsg::Bytes(data)),
            ChannelEvent::RequestPty(pty) => Some(StdinMsg::TerminalUpdate(pty)),
            ChannelEvent::WindowChange { col_width, row_height, pix_width, pix_height } => Some(
                StdinMsg::WindowChange { col_width, row_height, pix_width, pix_height },
            ),
            ChannelEvent::Other => None,
        }
    }

    /// Takes a message from the host; `None` says that the host is gone.
    pub fn from_host(&self, msg: Option<BindingMsg>) -> (step: BindingStep)
        ensures
            pieces(step.writes@) == written_for(msg),
            step.exit == exit_for(msg),
    {
        let none: Vec<Vec<u8>> = Vec::new();
        assert(pieces(none@) =~= Seq::empty());
        match msg {
            None => BindingStep { writes: none, exit: Some(ExitReason::HostGone) },
            Some(BindingMsg::Stdin(b)) => {
                let mut writes: Vec<Vec<u8>> = Vec::new();
                writes.push(b);
                assert(pieces(writes@) =~= seq![b@]);
                BindingStep { writes, exit: None }
            },
            Some(BindingMsg::TeardownDueToProcessExit(err)) => {
                let mut writes: Vec<Vec<u8>> = Vec::new();
                match err {
                    Some(e) => {
                        let expected = match e.os_error {
                            Some(n) => n == EIO,
                            None => false,
                        };
                        if !expected {
                            let words = text::cat3("Error reading stdout: ", e.text.as_str(), "\n");
                            writes.push(words.as_str().as_bytes_vec());
                        }
                    },
                    None => {},
                }
                assert(pieces(writes@) =~= written_for(msg));
                BindingStep { writes, exit: Some(ExitReason::ProcessExited) }
            },
            Some(BindingMsg::TeardownDueToSuperceded(codes)) => BindingStep {
                writes: farewell(
                    codes,
                    "\r\nDisconnecting - session attached to from a different connection\r\n",
                ),
                exit: Some(ExitReason::Superceded),
            },
            Some(BindingMsg::TeardownDueToDaemonShutdown(codes)) => BindingStep {
                writes: farewell(codes, "\r\nDisconnecting - minimald is shutting down\r\n"),
                exit: Some(ExitReason::Shutdown),
            },
            Some(BindingMsg::TeardownDueToDetach(codes)) => BindingStep {
                writes: farewell(codes, "\r\nDetaching from session.\r\n"),
                exit: Some(ExitReason::Detach),
            },
        }
    }
}

/// Whether the client is asked what becomes of the session.
pub fn asks_client(reason: ExitReason) -> (yes: bool)
    ensures
        yes == (reason == ExitReason::ProcessExited),
{
    match reason {
        ExitReason::ProcessExited => true,
        _ => false,
    }
}

/// Whether the session outlives a binding that stops, and so has been detached
/// from. Without a host there is none; a client that was superceded leaves a
/// session that is still attached; a daemon that goes down suspends it.
pub open spec fn outlives(reason: ExitReason, prompt: ExitDisposition) -> bool {
    match reason {
        ExitReason::HostGone => false,
        ExitReason::ProcessExited => prompt == ExitDisposition::Kept,
        ExitReason::Detach => true,
        ExitReason::Superceded => false,
        ExitReason::Shutdown => false,
    }
}

/// Whether a binding that stops asks for the detach hooks: when the session
/// outlives it and there is someone to ask. `prompt` counts only after an exit
/// of the shell.
pub fn runs_detach_hooks(reason: ExitReason, prompt: ExitDisposition, has_control: bool) -> (yes:
    bool)
    ensures
        yes == (outlives(reason, prompt) && has_control),
{
    let lives = match reason {
        ExitReason::HostGone => false,
        ExitReason::ProcessExited => prompt == ExitDisposition::Kept,
        ExitReason::Detach => true,
        ExitReason::Superceded => false,
        ExitReason::Shutdown => false,
    };
    lives && has_control
}

/// Something that a binding does on its way out.
#[derive(Clone, Copy, PartialEq, Eq, Structural, Debug)]
pub enum BindingFarewell {
    /// Have the detach hooks run, and wait for them.
    RunDetachHooks,
    /// Tell the client that there is no more data.
    SendEof,
    /// Tell the client how the shell exited.
    SendExitStatus(u32),
    /// Close the channel, which lets the client go.
    Close,
}

/// What a binding that stops does, in order: it has the detach hooks run where
/// the session outlives it and there is someone to ask; then, whatever stopped
/// it, the client gets the end of the data, an exit status of zero and the end
/// of the channel.
pub fn binding_end(reason: ExitReason, prompt: ExitDisposition, has_control: bool) -> (steps: Vec<
    BindingFarewell,
>)
    ensures
        steps@ == (if outlives(reason, prompt) && has_control {
            seq![BindingFarewell::RunDetachHooks]
        } else {
            Seq::empty()
        }) + seq![
            BindingFarewell::SendEof,
            BindingFarewell::SendExitStatus(0),
            BindingFarewell::Close,
        ],
{
    let mut steps: Vec<BindingFarewell> = Vec::new();
    if runs_detach_hooks(reason, prompt, has_control) {
        steps.push(BindingFarewell::RunDetachHooks);
    }
    steps.push(BindingFarewell::SendEof);
    steps.push(BindingFarewell::SendExitStatus(0));
    steps.push(BindingFarewell::Close);
    steps
}

/// A destroyed session runs no detach hooks: destruction runs its own.
pub proof fn law_a_destroyed_session_is_not_detached_from(reason: ExitReason)
    ensures
        reason == ExitReason::ProcessExited ==> !outlives(reason, ExitDisposition::Destroyed),
        outlives(reason, ExitDisposition::Destroyed) ==> reason == ExitReason::Detach,
{
}

/// A binding relays output without end: only a teardown, or a host that is
/// gone, stops it, and each for its own reason.
pub proof fn law_output_never_stops_a_binding(msg: Option<BindingMsg>)
    ensures
        exit_for(msg) is None <==> msg matches Some(BindingMsg::Stdin(_)),
        exit_for(msg) == Some(ExitReason::HostGone) <==> msg is None,
{
}

/// Output reaches the client as it is. A client that is taken leave of first
/// gets its terminal back to normal and then the words that say why, and the
/// exit of its shell needs no word unless the pty failed for another reason.
pub proof fn law_a_client_is_told_why_it_is_left(
    output: Vec<u8>,
    codes: Vec<u8>,
    e: PtyError,
)
    ensures
        written_for(Some(BindingMsg::Stdin(output))) == seq![output@],
        written_for(Some(BindingMsg::TeardownDueToSuperceded(codes))) == seq![
            codes@,
            encode_utf8("\r\nDisconnecting - session attached to from a different connection\r\n"@),
        ],
        written_for(Some(BindingMsg::TeardownDueToDaemonShutdown(codes))) == seq![
            codes@,
            encode_utf8("\r\nDisconnecting - minimald is shutting down\r\n"@),
        ],
        written_for(Some(BindingMsg::TeardownDueToDetach(codes))) == seq![
            codes@,
            encode_utf8("\r\nDetaching from session.\r\n"@),
        ],
        written_for(None).len() == 0,
        written_for(Some(BindingMsg::TeardownDueToProcessExit(None))).len() == 0,
        e.os_error is Some && e.os_error->0 == 5 ==> written_for(
            Some(BindingMsg::TeardownDueToProcessExit(Some(e))),
        ).len() == 0,
        e.os_error is None || e.os_error->0 != 5 ==> written_for(
            Some(BindingMsg::TeardownDueToProcessExit(Some(e))),
        ) == seq![encode_utf8("Error reading stdout: "@ + e.text@ + "\n"@)],
{
}

/// Each way of being taken leave of stops the binding for its own reason.
pub proof fn law_each_teardown_has_its_reason(msg: BindingMsg)
    ensures
        exit_for(None) == Some(ExitReason::HostGone),
        msg is Stdin ==> exit_for(Some(msg)) is None,
        msg is TeardownDueToProcessExit ==> exit_for(Some(msg)) == Some(ExitReason::ProcessExited),
        msg is TeardownDueToSuperceded ==> exit_for(Some(msg)) == Some(ExitReason::Superceded),
        msg is TeardownDueToDetach ==> exit_for(Some(msg)) == Some(ExitReason::Detach),
        msg is TeardownDueToDaemonShutdown ==> exit_for(Some(msg)) == Some(ExitReason::Shutdown),
{
}

/// What the client types, its terminal and its window reach the host as they
/// were sent, and nothing else does.
pub proof fn law_what_a_client_sends_is_passed_on(
    event: ChannelEvent,
    data: bytes::Bytes,
    pty: RequestedPty,
    cols: u32,
    rows: u32,
    width: u32,
    height: u32,
)
    ensures
        passed_on(ChannelEvent::Data(data)) == Some(StdinMsg::Bytes(data)),
        passed_on(ChannelEvent::RequestPty(pty)) == Some(StdinMsg::TerminalUpdate(pty)),
        passed_on(
            ChannelEvent::WindowChange {
                col_width: cols,
                row_height: rows,
                pix_width: width,
                pix_height: height,
            },
        ) == Some(
            StdinMsg::WindowChange {
                col_width: cols,
                row_height: rows,
                pix_width: width,
                pix_height: height,
            },
        ),
        passed_on(event) is None <==> event is Closed || event is Other,
{
}

/// The client is asked what becomes of a session whose shell exited, and of no
/// other. The session outlives its client where that detached, or chose to keep
/// it; then, and only then, and only with someone to ask, the detach hooks run,
/// before the client is let go. It is let go in one way, whatever stopped it.
pub proof fn law_a_binding_ends_in_one_way(
    reason: ExitReason,
    prompt: ExitDisposition,
    has_control: bool,
    asks: bool,
    hooks: bool,
    steps: Vec<BindingFarewell>,
)
    requires
        call_ensures(asks_client, (reason,), asks),
        call_ensures(runs_detach_hooks, (reason, prompt, has_control), hooks),
        call_ensures(binding_end, (reason, prompt, has_control), steps),
    ensures
        asks <==> reason is ProcessExited,
        outlives(reason, prompt) <==> reason is Detach || (reason is ProcessExited
            && prompt is Kept),
        hooks <==> has_control && (reason is Detach || (reason is ProcessExited
            && prompt is Kept)),
        ({
            let n = if hooks { 1int } else { 0 };
            &&& steps@.len() == n + 3
            &&& hooks ==> steps@[0] == BindingFarewell::RunDetachHooks
            &&& steps@[n] == BindingFarewell::SendEof
            &&& steps@[n + 1] == BindingFarewell::SendExitStatus(0)
            &&& steps@[n + 2] == BindingFarewell::Close
        }),
{
}

/// What [`Binding::from_host`] writes and why it stops, for a detach and for the
/// output of the session.
pub proof fn law_a_detach_is_the_clients_own(
    b: &Binding,
    codes: Vec<u8>,
    left: BindingStep,
    shown: BindingStep,
)
    requires
        call_ensures(Binding::from_host, (b, Some(BindingMsg::TeardownDueToDetach(codes))), left),
        call_ensures(Binding::from_host, (b, Some(BindingMsg::Stdin(codes))), shown),
    ensures
        left.exit == Some(ExitReason::Detach),
        left.writes@.len() == 2,
        left.writes@[0]@ == codes@,
        left.writes@[1]@ == encode_utf8("\r\nDetaching from session.\r\n"@),
        shown.exit is None,
        shown.writes@.len() == 1,
        shown.writes@[0]@ == codes@,
{
    assert(pieces(left.writes@).len() == 2);
    assert(pieces(left.writes@)[0] == left.writes@[0]@);
    assert(pieces(left.writes@)[1] == left.writes@[1]@);
    assert(pieces(shown.writes@).len() == 1);
    assert(pieces(shown.writes@)[0] == shown.writes@[0]@);
}

/// What arrives on a channel is passed on as is said here, and the channel is
/// read until it ends, and no longer.
pub proof fn law_a_channel_is_read_until_it_ends(
    event: ChannelEvent,
    msg: Option<StdinMsg>,
    b: &Binding,
    open: bool,
    fresh: Binding,
    host: Option<BindingMsg>,
    step: BindingStep,
)
    requires
        call_ensures(Binding::is_remote_open, (b,), open),
        call_ensures(Binding::new, (), fresh),
        call_ensures(Binding::from_host, (b, host), step),
    ensures
        forall|m: &mut Binding| #[trigger]
            call_ensures(Binding::from_remote, (m, event), msg) ==> {
                &&& msg == passed_on(event)
                &&& final(m).reads_channel() <==> !(event is Closed)
            },
        open <==> b.reads_channel(),
        fresh.reads_channel(),
        step.exit == exit_for(host),
        pieces(step.writes@) == written_for(host),
{
}

} // verus!
