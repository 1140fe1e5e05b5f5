//! Running a session's lifecycle hooks.
//!
//! A hook is a script that a loadout or a project asks to run at one of a
//! session's transitions. This module says which hooks run, in which order and
//! for how long, what runs a script, and what is reported of each; the driver
//! reads files, starts processes and waits for them.
use vstd::prelude::*;
use vstd::string::*;
use vstd::utf8::*;

use crate::env::EnvMap;
use crate::paths;
use crate::text;

verus! {

/// The transition that a hook runs for.
#[derive(Clone, Copy, PartialEq, Eq, Structural, Debug)]
pub enum HookEvent {
    Activate,
    Destroy,
    Attach,
    Detach,
}

/// What runs at a transition.
#[derive(Debug)]
pub enum HookScriptBody {
    /// The script itself.
    Inline(String),
    /// A file, named relative to where the hook was declared.
    External(String),
}

/// A script and the time that it may take, in nanoseconds.
#[derive(Debug)]
pub struct HookScript {
    pub body: HookScriptBody,
    pub timeout: u128,
}

/// The scripts that one declaration carries.
#[derive(Debug)]
pub struct LifecycleHook {
    pub on_activate: Option<HookScript>,
    pub on_destroy: Option<HookScript>,
    pub on_attach: Option<HookScript>,
    pub on_detach: Option<HookScript>,
    pub description: Option<String>,
}

/// Where a hook was declared.
#[derive(Debug)]
pub enum Source {
    UserLoadout { name: String },
    Project { path: String },
    Package { name: String },
    /// Anything else, by the words that describe it.
    Other { text: String },
}

/// A hook together with where it was declared.
#[derive(Debug)]
pub struct ProvenancedHook {
    pub source: Source,
    /// The source in words, such as ``user loadout `dev` ``.
    pub declared_by: String,
    pub hook: LifecycleHook,
}

impl HookEvent {
    /// The name of the event in configuration.
    pub open spec fn name(self) -> Seq<char> {
        match self {
            HookEvent::Activate => "on_activate"@,
            HookEvent::Destroy => "on_destroy"@,
            HookEvent::Attach => "on_attach"@,
            HookEvent::Detach => "on_detach"@,
        }
    }

    /// Whether the event takes a session down.
    pub open spec fn tears_down(self) -> bool {
        self == HookEvent::Destroy || self == HookEvent::Detach
    }

    /// The script that a hook declares for the event.
    pub open spec fn script(self, hook: LifecycleHook) -> Option<HookScript> {
        match self {
            HookEvent::Activate => hook.on_activate,
            HookEvent::Destroy => hook.on_destroy,
            HookEvent::Attach => hook.on_attach,
            HookEvent::Detach => hook.on_detach,
        }
    }

    /// The name as declared in configuration, and as the hook is told it.
    pub fn as_str(self) -> (name: &'static str)
        ensures
            name@ == self.name(),
    {
        match self {
            HookEvent::Activate => "on_activate",
            HookEvent::Destroy => "on_destroy",
            HookEvent::Attach => "on_attach",
            HookEvent::Detach => "on_detach",
        }
    }

    /// Teardown events run in reverse, so that a project is taken down after
    /// every loadout that was layered on top of it.
    pub fn is_teardown(self) -> (yes: bool)
        ensures
            yes == self.tears_down(),
    {
        match self {
            HookEvent::Destroy | HookEvent::Detach => true,
            _ => false,
        }
    }

    /// This event's script on `hook`, if it declares one.
    pub fn script_of<'a>(self, hook: &'a LifecycleHook) -> (script: Option<&'a HookScript>)
        ensures
            match script {
                Some(s) => self.script(*hook) == Some(*s),
                None => self.script(*hook) is None,
            },
    {
        match self {
            HookEvent::Activate => hook.on_activate.as_ref(),
            HookEvent::Destroy => hook.on_destroy.as_ref(),
            HookEvent::Attach => hook.on_attach.as_ref(),
            HookEvent::Detach => hook.on_detach.as_ref(),
        }
    }
}

/// How one run of a hook ended.
#[derive(Debug, PartialEq, Eq)]
pub enum HookStatus {
    /// It exited with zero.
    Succeeded,
    /// It exited otherwise, or by a signal, which leaves no code.
    Failed { code: Option<i32> },
    /// It exceeded its time and was killed. `after` is the time that it got,
    /// in nanoseconds, and `budgeted` says that this was less than it asked
    /// for, because the run as a whole had no more.
    TimedOut { after: u128, budgeted: bool },
    /// It never ran.
    NotRun { reason: String },
}

/// What a [`HookStatus`] says.
pub ghost enum StatusView {
    Succeeded,
    Failed { code: Option<i32> },
    TimedOut { after: u128, budgeted: bool },
    NotRun { reason: Seq<char> },
}

impl View for HookStatus {
    type V = StatusView;

    open spec fn view(&self) -> StatusView {
        match self {
            HookStatus::Succeeded => StatusView::Succeeded,
            HookStatus::Failed { code } => StatusView::Failed { code: *code },
            HookStatus::TimedOut { after, budgeted } => StatusView::TimedOut {
                after: *after,
                budgeted: *budgeted,
            },
            HookStatus::NotRun { reason } => StatusView::NotRun { reason: reason@ },
        }
    }
}

/// What a hook did.
#[derive(Debug, PartialEq, Eq)]
pub struct HookOutcome {
    /// The name of the event that it ran for.
    pub event: &'static str,
    pub declared_by: String,
    pub description: Option<String>,
    pub status: HookStatus,
    /// The end of its output, where that was captured.
    pub output: String,
}

/// What a [`HookOutcome`] says.
pub ghost struct OutcomeView {
    pub event: Seq<char>,
    pub declared_by: Seq<char>,
    pub description: Option<Seq<char>>,
    pub status: StatusView,
    pub output: Seq<char>,
}

impl View for HookOutcome {
    type V = OutcomeView;

    open spec fn view(&self) -> OutcomeView {
        OutcomeView {
            event: self.event@,
            declared_by: self.declared_by@,
            description: text::optional(self.description),
            status: self.status@,
            output: self.output@,
        }
    }
}

impl HookOutcome {
    /// Whether callers that depend on the hook take this for a failure.
    pub fn failed(&self) -> (yes: bool)
        ensures
            yes == !(self.status is Succeeded),
    {
        match self.status {
            HookStatus::Succeeded => false,
            _ => true,
        }
    }
}

/// What is reported of a hook for an event.
pub open spec fn outcome_view(
    event: HookEvent,
    hook: ProvenancedHook,
    status: StatusView,
    output: Seq<char>,
) -> OutcomeView {
    OutcomeView {
        event: event.name(),
        declared_by: hook.declared_by@,
        description: text::optional(hook.hook.description),
        status,
        output,
    }
}

/// Reports on a hook for an event.
pub fn outcome(event: HookEvent, hook: &ProvenancedHook, status: HookStatus, output: String) -> (out:
    HookOutcome)
    ensures
        out@ == outcome_view(event, *hook, status@, output@),
{
    HookOutcome {
        event: event.as_str(),
        declared_by: hook.declared_by.clone(),
        description: text::copy_optional(&hook.hook.description),
        status,
        output,
    }
}

/// Whole seconds in a time given in nanoseconds.
pub open spec fn whole_secs(nanos: u128) -> nat {
    nanos as nat / 1_000_000_000
}

/// The reason reported for a hook that the run had no time left to start.
pub open spec fn over_budget_reason(event: HookEvent, budget: Option<u128>) -> Seq<char> {
    let spent = match budget {
        Some(b) => b,
        None => 0,
    };
    "the "@ + event.name() + " budget of "@ + text::decimal_text(whole_secs(spent))
        + "s was spent by earlier hooks"@
}

/// Reports a hook that the run had no time left to start. It names the
/// budget, so that the reason is not taken for the hook's own failure.
pub fn not_run_over_budget(event: HookEvent, hook: &ProvenancedHook, budget: Option<u128>) -> (out:
    HookOutcome)
    ensures
        out@ == outcome_view(
            event,
            *hook,
            StatusView::NotRun { reason: over_budget_reason(event, budget) },
            Seq::empty(),
        ),
{
    let spent: u128 = match budget {
        Some(b) => b,
        None => 0,
    };
    let secs = text::decimal(spent / 1_000_000_000);
    let reason = text::cat5(
        "the ",
        event.as_str(),
        " budget of ",
        secs.as_str(),
        "s was spent by earlier hooks",
    );
    outcome(event, hook, HookStatus::NotRun { reason }, String::new())
}

/// What a hook's script is fed to, and with which arguments.
#[derive(Debug, PartialEq, Eq)]
pub struct Interpreter {
    program: String,
    args: Vec<String>,
}

/// What an [`Interpreter`] is.
pub ghost struct InterpreterView {
    pub program: Seq<char>,
    pub args: Seq<Seq<char>>,
}

impl View for Interpreter {
    type V = InterpreterView;

    closed spec fn view(&self) -> InterpreterView {
        InterpreterView { program: self.program@, args: text::texts(self.args@) }
    }
}

/// The POSIX shell, reading its commands from standard input.
pub open spec fn posix() -> InterpreterView {
    InterpreterView { program: "sh"@, args: seq!["-s"@] }
}

/// The bytes before the first line feed.
pub open spec fn first_line(bytes: Seq<u8>) -> Seq<u8>
    decreases bytes.len(),
{
    if bytes.len() == 0 || bytes[0] == 10u8 {
        Seq::empty()
    } else {
        seq![bytes[0]] + first_line(bytes.drop_first())
    }
}

/// The number of characters before the first white space.
pub open spec fn first_word_len(s: Seq<char>) -> nat
    decreases s.len(),
{
    if s.len() == 0 || text::is_white(s[0]) {
        0
    } else {
        1 + first_word_len(s.drop_first())
    }
}

/// The interpreter that the line after a `#!` names: its first word, with all
/// that follows as one argument. A line that names nothing is no shebang.
pub open spec fn named_by(line: Seq<char>) -> InterpreterView {
    let l = text::trimmed(line);
    let n = first_word_len(l) as int;
    let arg = if n < l.len() { text::trimmed(l.skip(n + 1)) } else { Seq::empty() };
    if n == 0 {
        posix()
    } else {
        InterpreterView {
            program: l.take(n),
            args: if arg.len() == 0 { Seq::empty() } else { seq![arg] },
        }
    }
}

/// Whether a script starts with `#!`.
pub open spec fn has_shebang(body: Seq<u8>) -> bool {
    body.len() >= 2 && body[0] == 35u8 && body[1] == 33u8
}

/// The interpreter that a script asks for: what its shebang names, or the
/// POSIX shell where it has none that can be read.
pub open spec fn interpreter_for(body: Seq<u8>) -> InterpreterView {
    let line = first_line(body.skip(2));
    if has_shebang(body) && valid_utf8(line) {
        named_by(decode_utf8(line))
    } else {
        posix()
    }
}

/// The end of the first line of `bytes[from..]`.
fn line_end(bytes: &[u8], from: usize) -> (end: usize)
    requires
        from <= bytes@.len(),
    ensures
        from <= end <= bytes@.len(),
        bytes@.subrange(from as int, end as int) == first_line(bytes@.skip(from as int)),
{
    let mut end: usize = from;
    let ghost line = first_line(bytes@.skip(from as int));
    assert(bytes@.subrange(from as int, from as int) + line =~= line);
    while end < bytes.len() && bytes[end] != 10
        invariant
            from <= end <= bytes@.len(),
            line == bytes@.subrange(from as int, end as int) + first_line(bytes@.skip(end as int)),
        decreases bytes@.len() - end,
    {
        proof {
            assert(bytes@.skip(end as int).drop_first() =~= bytes@.skip(end + 1));
            assert(bytes@.subrange(from as int, end + 1) + first_line(bytes@.skip(end + 1))
                =~= bytes@.subrange(from as int, end as int) + first_line(bytes@.skip(end as int)));
        }
        end = end + 1;
    }
    assert(first_line(bytes@.skip(end as int)) =~= Seq::<u8>::empty());
    assert(line =~= bytes@.subrange(from as int, end as int));
    end
}

impl Interpreter {
    /// The POSIX shell reading the script from standard input.
    pub fn posix_shell() -> (i: Self)
        ensures
            i@ == posix(),
    {
        let mut args: Vec<String> = Vec::new();
        args.push("-s".to_owned());
        let i = Interpreter { program: "sh".to_owned(), args };
        assert(text::texts(i.args@) =~= seq!["-s"@]);
        i
    }

    /// The interpreter that the line after a `#!` names.
    pub fn from_line(line: &str) -> (i: Self)
        ensures
            i@ == named_by(line@),
    {
        let chars = text::chars_of(line);
        let (from, to) = text::trim_range(&chars, 0, chars.len());
        let ghost l = text::trimmed(line@);
        assert(chars@.subrange(0, chars@.len() as int) =~= line@);
        let mut end: usize = from;
        assert(l.skip(0) =~= l);
        while end < to && !text::white(chars[end])
            invariant
                from <= end <= to <= chars@.len(),
                l == chars@.subrange(from as int, to as int),
                first_word_len(l) == end - from + first_word_len(l.skip(end - from)),
            decreases to - end,
        {
            assert(l.skip(end - from).drop_first() =~= l.skip(end + 1 - from));
            end = end + 1;
        }
        assert(first_word_len(l.skip(end - from)) == 0);
        if end == from {
            return Self::posix_shell();
        }
        let program = text::text_of(chars.as_slice(), from, end);
        assert(program@ =~= l.take(end - from));
        let mut args: Vec<String> = Vec::new();
        if end < to {
            let (a, b) = text::trim_range(&chars, end + 1, to);
            assert(chars@.subrange(end + 1, to as int) =~= l.skip(end - from + 1));
            if a < b {
                args.push(text::text_of(chars.as_slice(), a, b));
            }
        }
        let i = Interpreter { program, args };
        assert(i@.args =~= named_by(line@).args);
        i
    }

    /// The interpreter that `body` asks for in a shebang, or the POSIX shell
    /// where it asks for nothing. The first word is the interpreter and all
    /// that follows is one argument, as the kernel reads such a line.
    pub fn for_script(body: &[u8]) -> (i: Self)
        ensures
            i@ == interpreter_for(body@),
    {
        if body.len() < 2 || body[0] != 35 || body[1] != 33 {
            return Self::posix_shell();
        }
        let end = line_end(body, 2);
        let line = vstd::slice::slice_subrange(body, 2, end);
        match text::utf8_text(line) {
            Some(text) => Self::from_line(text.as_str()),
            None => Self::posix_shell(),
        }
    }

    /// The program to run.
    pub fn program(&self) -> (program: &str)
        ensures
            program@ == self@.program,
    {
        self.program.as_str()
    }

    /// Its arguments.
    pub fn args(&self) -> (args: Vec<&str>)
        ensures
            args@.len() == self@.args.len(),
            forall|i: int| 0 <= i < args@.len() ==> (#[trigger] args@[i])@ == self@.args[i],
    {
        let mut args: Vec<&str> = Vec::new();
        let mut i: usize = 0;
        while i < self.args.len()
            invariant
                i <= self.args@.len(),
                args@.len() == i,
                forall|k: int| 0 <= k < i ==> (#[trigger] args@[k])@ == self.args@[k]@,
            decreases self.args@.len() - i,
        {
            args.push(self.args[i].as_str());
            i = i + 1;
        }
        args
    }
}

/// Whether `p` stays inside the directory that it is joined to: it is
/// relative, and no component of it is `..`.
pub fn contained_relative_path(p: &str) -> (yes: bool)
    ensures
        yes == paths::stays_inside(p@),
{
    let chars = text::chars_of(p);
    paths::inside(&chars)
}

/// The kind of a source, and its name, as a hook is told them.
pub open spec fn source_label(source: Source) -> (Seq<char>, Seq<char>) {
    match source {
        Source::UserLoadout { name } => ("loadout"@, name@),
        Source::Project { path } => ("project"@, path@),
        Source::Package { name } => ("package"@, name@),
        Source::Other { text } => ("other"@, text@),
    }
}

/// What a hook is told of the run that it is part of. The index counts from
/// one.
pub open spec fn metadata_view(
    session_id: Seq<char>,
    session_name: Seq<char>,
    event: HookEvent,
    source: Source,
    index: nat,
    count: nat,
) -> Map<Seq<char>, Seq<char>> {
    Map::empty().insert("MINIMAL_SESSION_ID"@, session_id).insert(
        "MINIMAL_SESSION_NAME"@,
        session_name,
    ).insert("MINIMAL_HOOK_EVENT"@, event.name()).insert(
        "MINIMAL_HOOK_SOURCE_KIND"@,
        source_label(source).0,
    ).insert("MINIMAL_HOOK_SOURCE_NAME"@, source_label(source).1).insert(
        "MINIMAL_HOOK_INDEX"@,
        text::decimal_text(index + 1),
    ).insert("MINIMAL_HOOK_COUNT"@, text::decimal_text(count))
}

/// The variables that a hook gets on top of the session's own.
pub fn metadata_env(
    session_id: &str,
    session_name: &str,
    event: HookEvent,
    source: &Source,
    index: usize,
    count: usize,
) -> (env: EnvMap)
    ensures
        env@ == metadata_view(
            session_id@,
            session_name@,
            event,
            *source,
            index as nat,
            count as nat,
        ),
{
    let (kind, name) = match source {
        Source::UserLoadout { name } => ("loadout", name),
        Source::Project { path } => ("project", path),
        Source::Package { name } => ("package", name),
        Source::Other { text } => ("other", text),
    };
    let mut env = EnvMap::new();
    env.insert("MINIMAL_SESSION_ID".to_owned(), session_id.to_owned());
    env.insert("MINIMAL_SESSION_NAME".to_owned(), session_name.to_owned());
    env.insert("MINIMAL_HOOK_EVENT".to_owned(), event.as_str().to_owned());
    env.insert("MINIMAL_HOOK_SOURCE_KIND".to_owned(), kind.to_owned());
    env.insert("MINIMAL_HOOK_SOURCE_NAME".to_owned(), name.clone());
    env.insert("MINIMAL_HOOK_INDEX".to_owned(), text::decimal(index as u128 + 1));
    env.insert("MINIMAL_HOOK_COUNT".to_owned(), text::decimal(count as u128));
    env
}

/// How many bytes of output are kept: enough for a compiler error or a stack
/// trace, without letting a chatty hook fill a log line.
pub const OUTPUT_TAIL_BYTES: usize = 4096;

/// The two streams as one text, the errors, where there are any, after the
/// output and on a line of their own.
pub open spec fn both_streams(stdout: Seq<char>, errors: Option<Seq<char>>) -> Seq<char> {
    match errors {
        None => stdout,
        Some(e) => if stdout.len() > 0 && stdout.last() != '\n' {
            stdout.push('\n') + e
        } else {
            stdout + e
        },
    }
}

/// What a hook wrote as errors, in words; none where it wrote no byte.
pub open spec fn errors_of(stderr: Seq<u8>) -> Option<Seq<char>> {
    if stderr.len() > 0 {
        Some(text::lossy_text(stderr))
    } else {
        None
    }
}

/// The last position up to `i` from which a text still has as many bytes as
/// are kept.
pub open spec fn tail_start(s: Seq<char>, i: int) -> int
    decreases i,
{
    if i <= 0 || encode_utf8(s.skip(i)).len() >= OUTPUT_TAIL_BYTES {
        i
    } else {
        tail_start(s, i - 1)
    }
}

/// The end of a text: all of it where it is short, else the shortest stretch
/// of whole characters that has as many bytes as are kept.
pub open spec fn kept_tail(s: Seq<char>) -> Seq<char> {
    if encode_utf8(s).len() <= OUTPUT_TAIL_BYTES {
        s
    } else {
        s.skip(tail_start(s, s.len() as int))
    }
}

/// The number of bytes that a character takes in UTF-8.
fn width_of(c: char) -> (n: usize)
    ensures
        n == encode_scalar(c as u32).len(),
        1 <= n <= 4,
{
    let code = c as u32;
    if code < 0x80 {
        1
    } else if code < 0x800 {
        2
    } else if code < 0x10000 {
        3
    } else {
        4
    }
}

/// Keeps the end of a text.
pub fn keep_tail(s: &str) -> (tail: String)
    ensures
        tail@ == kept_tail(s@),
{
    let chars = text::chars_of(s);
    let mut i: usize = chars.len();
    let mut size: usize = 0;
    assert(s@.skip(i as int) =~= Seq::<char>::empty());
    while i > 0 && size < OUTPUT_TAIL_BYTES
        invariant
            i <= chars@.len(),
            chars@ == s@,
            size == encode_utf8(s@.skip(i as int)).len(),
            size < OUTPUT_TAIL_BYTES + 4,
            tail_start(s@, s@.len() as int) == tail_start(s@, i as int),
        decreases i,
    {
        proof {
            assert(s@.skip(i - 1).drop_first() =~= s@.skip(i as int));
            assert(s@.skip(i - 1)[0] == s@[i - 1]);
        }
        size = size + width_of(chars[i - 1]);
        i = i - 1;
    }
    let tail = text::text_of(chars.as_slice(), i, chars.len());
    proof {
        assert(tail@ =~= s@.skip(i as int));
        assert(s@.skip(0) =~= s@);
        if i > 0 {
            lemma_shorter_suffix(s@, 0, i as int);
        }
    }
    tail
}

/// A suffix that leaves characters out has fewer bytes.
proof fn lemma_shorter_suffix(s: Seq<char>, from: int, to: int)
    requires
        0 <= from < to <= s.len(),
    ensures
        encode_utf8(s.skip(to)).len() < encode_utf8(s.skip(from)).len(),
    decreases to - from,
{
    assert(s.skip(from).drop_first() =~= s.skip(from + 1));
    char_is_scalar(s[from]);
    if from + 1 < to {
        lemma_shorter_suffix(s, from + 1, to);
    }
}

/// The end of the two streams of a hook, the errors after the output.
pub fn tail_of(stdout: &[u8], stderr: &[u8]) -> (tail: String)
    ensures
        tail@ == kept_tail(both_streams(text::lossy_text(stdout@), errors_of(stderr@))),
{
    let out = text::lossy(stdout);
    if stderr.len() > 0 {
        let errors = text::lossy(stderr);
        tail_of_texts(out.as_str(), Some(errors.as_str()))
    } else {
        tail_of_texts(out.as_str(), None)
    }
}

/// The end of two texts, the second, where there is one, after the first.
pub fn tail_of_texts(stdout: &str, errors: Option<&str>) -> (tail: String)
    ensures
        tail@ == kept_tail(
            both_streams(
                stdout@,
                match errors {
                    Some(e) => Some(e@),
                    None => None,
                },
            ),
        ),
{
    let mut joined = stdout.to_owned();
    match errors {
        Some(e) => {
            if !stdout.is_empty() && stdout.get_char(stdout.unicode_len() - 1) != '\n' {
                joined.push('\n');
            }
            joined.append(e);
            assert(joined@ =~= both_streams(stdout@, Some(e@)));
        },
        None => {},
    }
    keep_tail(joined.as_str())
}

proof fn lemma_tail_start(s: Seq<char>, i: int)
    requires
        0 <= i <= s.len(),
        encode_utf8(s).len() > OUTPUT_TAIL_BYTES,
        i < s.len() ==> encode_utf8(s.skip(i + 1)).len() < OUTPUT_TAIL_BYTES,
    ensures
        0 <= tail_start(s, i) < s.len(),
        OUTPUT_TAIL_BYTES <= encode_utf8(s.skip(tail_start(s, i))).len() < OUTPUT_TAIL_BYTES + 4,
    decreases i,
{
    assert(s.skip(0) =~= s);
    if i == s.len() {
        assert(s.skip(i) =~= Seq::<char>::empty());
    } else {
        assert(s.skip(i).drop_first() =~= s.skip(i + 1));
        char_is_scalar(s[i]);
    }
    if i > 0 && encode_utf8(s.skip(i)).len() < OUTPUT_TAIL_BYTES {
        lemma_tail_start(s, i - 1);
    }
}

/// What is kept of a text is the end of it, whole characters all, and no more
/// than three bytes over the limit; a text within the limit is kept whole.
pub proof fn law_tail_is_a_bounded_end(s: Seq<char>)
    ensures
        kept_tail(s).is_suffix_of(s),
        encode_utf8(kept_tail(s)).len() < OUTPUT_TAIL_BYTES + 4,
        encode_utf8(s).len() <= OUTPUT_TAIL_BYTES ==> kept_tail(s) == s,
        encode_utf8(s).len() > OUTPUT_TAIL_BYTES ==> encode_utf8(kept_tail(s)).len()
            >= OUTPUT_TAIL_BYTES,
{
    if encode_utf8(s).len() > OUTPUT_TAIL_BYTES {
        lemma_tail_start(s, s.len() as int);
    }
    assert(kept_tail(s) =~= s.subrange(s.len() - kept_tail(s).len(), s.len() as int));
}

/// Whether a hook declares a script for an event.
pub open spec fn declares(event: HookEvent, hook: ProvenancedHook) -> bool {
    event.script(hook.hook) is Some
}

/// The places among the first `n` hooks of those that declare a script.
pub open spec fn declaring(event: HookEvent, hooks: Seq<ProvenancedHook>, n: int) -> Seq<usize>
    decreases n,
{
    if n <= 0 {
        Seq::empty()
    } else if declares(event, hooks[n - 1]) {
        declaring(event, hooks, n - 1).push((n - 1) as usize)
    } else {
        declaring(event, hooks, n - 1)
    }
}

/// The hooks that run for an event, in the order in which they do: that of the
/// composition, or its reverse at teardown.
pub open spec fn running_order(event: HookEvent, hooks: Seq<ProvenancedHook>) -> Seq<usize> {
    let all = declaring(event, hooks, hooks.len() as int);
    if event.tears_down() {
        all.reverse()
    } else {
        all
    }
}

proof fn lemma_declaring(event: HookEvent, hooks: Seq<ProvenancedHook>, n: int)
    requires
        0 <= n <= hooks.len() <= usize::MAX,
    ensures
        forall|i: int|
            0 <= i < declaring(event, hooks, n).len() ==> (#[trigger] declaring(
                event,
                hooks,
                n,
            )[i]) < n && declares(event, hooks[declaring(event, hooks, n)[i] as int]),
    decreases n,
{
    if n > 0 {
        lemma_declaring(event, hooks, n - 1);
        let before = declaring(event, hooks, n - 1);
        let all = declaring(event, hooks, n);
        assert forall|i: int| 0 <= i < all.len() implies (#[trigger] all[i]) < n && declares(
            event,
            hooks[all[i] as int],
        ) by {
            if i < before.len() {
                assert(all[i] == before[i]);
            }
        }
    }
}

/// Every hook that runs is one of the composition and declares a script for
/// the event.
proof fn lemma_running_order(event: HookEvent, hooks: Seq<ProvenancedHook>)
    requires
        hooks.len() <= usize::MAX,
    ensures
        forall|i: int|
            0 <= i < running_order(event, hooks).len() ==> (#[trigger] running_order(
                event,
                hooks,
            )[i]) < hooks.len() && declares(event, hooks[running_order(event, hooks)[i] as int]),
{
    lemma_declaring(event, hooks, hooks.len() as int);
    let all = declaring(event, hooks, hooks.len() as int);
    assert forall|i: int| 0 <= i < running_order(event, hooks).len() implies (
    #[trigger] running_order(event, hooks)[i]) < hooks.len() && declares(
        event,
        hooks[running_order(event, hooks)[i] as int],
    ) by {
        if event.tears_down() {
            assert(all.reverse()[i] == all[all.len() - 1 - i]);
        }
    }
}

/// The hooks that run for an event, in the order in which they do.
pub fn hooks_to_run(event: HookEvent, hooks: &Vec<ProvenancedHook>) -> (order: Vec<usize>)
    ensures
        order@ == running_order(event, hooks@),
{
    let mut all: Vec<usize> = Vec::new();
    let mut i: usize = 0;
    while i < hooks.len()
        invariant
            i <= hooks@.len(),
            all@ == declaring(event, hooks@, i as int),
        decreases hooks@.len() - i,
    {
        if event.script_of(&hooks[i].hook).is_some() {
            all.push(i);
        }
        i = i + 1;
    }
    if !event.is_teardown() {
        return all;
    }
    let mut back: Vec<usize> = Vec::new();
    let mut k: usize = all.len();
    while k > 0
        invariant
            k <= all@.len(),
            back@.len() == all@.len() - k,
            forall|j: int| 0 <= j < back@.len() ==> #[trigger] back@[j] == all@[all@.len() - 1 - j],
        decreases k,
    {
        back.push(all[k - 1]);
        k = k - 1;
    }
    assert(back@ =~= all@.reverse());
    back
}

/// A run of all hooks for one event, under way.
pub struct HookRun {
    event: HookEvent,
    order: Vec<usize>,
    budget: Option<u128>,
    deadline: Option<u128>,
    outcomes: Vec<HookOutcome>,
}

/// What a [`HookRun`] is in.
pub ghost struct HookRunView {
    pub event: HookEvent,
    /// The hooks to run, in order; the first ones have an outcome already.
    pub order: Seq<usize>,
    pub budget: Option<u128>,
    /// When the budget is spent.
    pub deadline: Option<u128>,
    pub outcomes: Seq<OutcomeView>,
}

impl View for HookRun {
    type V = HookRunView;

    closed spec fn view(&self) -> HookRunView {
        HookRunView {
            event: self.event,
            order: self.order@,
            budget: self.budget,
            deadline: self.deadline,
            outcomes: self.outcomes@.map_values(|o: HookOutcome| o@),
        }
    }
}

/// Whether an outcome is the report on a hook for an event, however it ended.
pub open spec fn reports_on(o: OutcomeView, event: HookEvent, hook: ProvenancedHook) -> bool {
    o == outcome_view(event, hook, o.status, o.output)
}

impl HookRunView {
    /// The run is one of these hooks, and each outcome so far reports on the
    /// hook whose turn it was.
    pub open spec fn wf(self, hooks: Seq<ProvenancedHook>) -> bool {
        &&& self.order == running_order(self.event, hooks)
        &&& self.outcomes.len() <= self.order.len()
        &&& forall|i: int|
            0 <= i < self.outcomes.len() ==> reports_on(
                #[trigger] self.outcomes[i],
                self.event,
                hooks[self.order[i] as int],
            )
    }
}

/// What a run does next.
#[derive(Clone, Copy, PartialEq, Eq, Structural, Debug)]
pub enum HookStep {
    /// Run the hook at this place of the composition, which is the `index`th
    /// of `count`, for at most so many nanoseconds.
    Run { hook: usize, index: usize, count: usize, allowed: u128 },
    /// A hook was passed over, because the budget is spent.
    Skipped,
    /// Every hook has its outcome.
    Finished,
}

/// The time that is left for a hook: its own, or what the budget still has.
pub open spec fn time_allowed(timeout: u128, deadline: Option<u128>, now: u128) -> u128 {
    match deadline {
        None => timeout,
        Some(d) => {
            let left = if d > now { (d - now) as u128 } else { 0 };
            if timeout < left { timeout } else { left }
        },
    }
}

/// Whether the budget of a run is spent.
pub open spec fn is_spent(deadline: Option<u128>, now: u128) -> bool {
    deadline is Some && deadline->0 <= now
}

/// What a run does next, and where it then stands.
pub open spec fn run_next(before: HookRunView, hooks: Seq<ProvenancedHook>, now: u128) -> (
    HookRunView,
    HookStep,
) {
    let turn = before.outcomes.len() as int;
    if turn == before.order.len() {
        (before, HookStep::Finished)
    } else {
        let place = before.order[turn];
        let hook = hooks[place as int];
        if is_spent(before.deadline, now) {
            let missed = outcome_view(
                before.event,
                hook,
                StatusView::NotRun { reason: over_budget_reason(before.event, before.budget) },
                Seq::empty(),
            );
            (
                HookRunView { outcomes: before.outcomes.push(missed), ..before },
                HookStep::Skipped,
            )
        } else {
            (
                before,
                HookStep::Run {
                    hook: place,
                    index: turn as usize,
                    count: before.order.len() as usize,
                    allowed: time_allowed(
                        before.event.script(hook.hook)->0.timeout,
                        before.deadline,
                        now,
                    ),
                },
            )
        }
    }
}

/// Where a run stands once the hook whose turn it was has an outcome.
pub open spec fn run_record(
    before: HookRunView,
    hooks: Seq<ProvenancedHook>,
    status: StatusView,
    output: Seq<char>,
) -> HookRunView {
    let turn = before.outcomes.len() as int;
    let done = outcome_view(before.event, hooks[before.order[turn] as int], status, output);
    HookRunView { outcomes: before.outcomes.push(done), ..before }
}

impl HookRun {
    /// Starts a run of the hooks that declare a script for `event`, under a
    /// budget for all of them together where one is given.
    pub fn start(event: HookEvent, hooks: &Vec<ProvenancedHook>, budget: Option<u128>, now: u128) -> (run:
        Self)
        requires
            budget is Some ==> now + budget->0 <= u128::MAX,
        ensures
            run@.wf(hooks@),
            run@ == (HookRunView {
                event,
                order: running_order(event, hooks@),
                budget,
                deadline: match budget {
                    Some(b) => Some((now + b) as u128),
                    None => None,
                },
                outcomes: Seq::empty(),
            }),
    {
        let deadline: Option<u128> = match budget {
            Some(b) => Some(now + b),
            None => None,
        };
        let outcomes: Vec<HookOutcome> = Vec::new();
        let run = HookRun { event, order: hooks_to_run(event, hooks), budget, deadline, outcomes };
        assert(run@.outcomes =~= Seq::empty());
        run
    }

    /// Says what to do next. A hook gets the smaller of its own time and what
    /// the budget has left; one that the budget leaves nothing for is reported
    /// without being started.
    pub fn next(&mut self, hooks: &Vec<ProvenancedHook>, now: u128) -> (step: HookStep)
        requires
            old(self)@.wf(hooks@),
        ensures
            final(self)@.wf(hooks@),
            (final(self)@, step) == run_next(old(self)@, hooks@, now),
    {
        let turn = self.outcomes.len();
        if turn == self.order.len() {
            return HookStep::Finished;
        }
        proof {
            assert(hooks.len() == hooks@.len());
            lemma_running_order(self.event, hooks@);
        }
        let place = self.order[turn];
        let hook = &hooks[place];
        assert(declares(self.event, *hook));
        let timeout: u128 = match self.event.script_of(&hook.hook) {
            Some(script) => script.timeout,
            None => 0,
        };
        let allowed: u128 = match self.deadline {
            None => timeout,
            Some(d) => {
                if d <= now {
                    let ghost before = self@;
                    let missed = not_run_over_budget(self.event, hook, self.budget);
                    self.outcomes.push(missed);
                    proof {
                        assert(self@.outcomes =~= before.outcomes.push(missed@));
                    }
                    return HookStep::Skipped;
                }
                let left: u128 = d - now;
                if timeout < left {
                    timeout
                } else {
                    left
                }
            },
        };
        HookStep::Run { hook: place, index: turn, count: self.order.len(), allowed }
    }

    /// Takes the outcome of the hook whose turn it was.
    pub fn record(&mut self, hooks: &Vec<ProvenancedHook>, status: HookStatus, output: String)
        requires
            old(self)@.wf(hooks@),
            old(self)@.outcomes.len() < old(self)@.order.len(),
        ensures
            final(self)@.wf(hooks@),
            final(self)@ == run_record(old(self)@, hooks@, status@, output@),
    {
        proof {
            assert(hooks.len() == hooks@.len());
            lemma_running_order(self.event, hooks@);
        }
        let turn = self.outcomes.len();
        let ghost before = self@;
        let place = self.order[turn];
        let done = outcome(self.event, &hooks[place], status, output);
        self.outcomes.push(done);
        proof {
            assert(self@.outcomes =~= before.outcomes.push(done@));
        }
    }

    /// The outcomes of the run, in the order in which the hooks ran.
    pub fn into_outcomes(self) -> (outcomes: Vec<HookOutcome>)
        ensures
            outcomes@.map_values(|o: HookOutcome| o@) == self@.outcomes,
    {
        self.outcomes
    }
}

/// A run that is finished has one outcome for each hook that declared a
/// script, in the order in which they ran, whatever became of each.
pub proof fn law_every_hook_is_accounted_for(
    before: HookRunView,
    hooks: Seq<ProvenancedHook>,
)
    requires
        before.wf(hooks),
        before.outcomes.len() == before.order.len(),
    ensures
        before.outcomes.len() == running_order(before.event, hooks).len(),
        forall|i: int|
            0 <= i < before.outcomes.len() ==> reports_on(
                #[trigger] before.outcomes[i],
                before.event,
                hooks[running_order(before.event, hooks)[i] as int],
            ),
{
}

/// Teardown takes the hooks in the reverse of the order in which the same
/// declarations run at setup.
pub proof fn law_teardown_reverses_setup(
    setup: HookEvent,
    teardown: HookEvent,
    hooks: Seq<ProvenancedHook>,
)
    requires
        !setup.tears_down(),
        teardown.tears_down(),
        forall|i: int|
            0 <= i < hooks.len() ==> declares(setup, #[trigger] hooks[i]) == declares(
                teardown,
                hooks[i],
            ),
    ensures
        running_order(teardown, hooks) == running_order(setup, hooks).reverse(),
{
    lemma_same_declarations(setup, teardown, hooks, hooks.len() as int);
}

proof fn lemma_same_declarations(
    a: HookEvent,
    b: HookEvent,
    hooks: Seq<ProvenancedHook>,
    n: int,
)
    requires
        0 <= n <= hooks.len(),
        forall|i: int|
            0 <= i < hooks.len() ==> declares(a, #[trigger] hooks[i]) == declares(b, hooks[i]),
    ensures
        declaring(a, hooks, n) == declaring(b, hooks, n),
    decreases n,
{
    if n > 0 {
        lemma_same_declarations(a, b, hooks, n - 1);
        assert(declares(a, hooks[n - 1]) == declares(b, hooks[n - 1]));
    }
}

/// A budget bounds the run as a whole: the time that a hook is given as it
/// starts ends by the deadline, and is no more than it asked for.
pub proof fn law_no_hook_runs_past_the_budget(timeout: u128, deadline: u128, now: u128)
    requires
        !is_spent(Some(deadline), now),
    ensures
        now + time_allowed(timeout, Some(deadline), now) <= deadline,
        time_allowed(timeout, Some(deadline), now) <= timeout,
        time_allowed(timeout, None, now) == timeout,
{
}

/// Each event runs the script that is declared under its own name, and the two
/// that take a session down are those that destroy it and detach from it.
pub proof fn law_each_event_has_its_own_script(hook: LifecycleHook)
    ensures
        HookEvent::Activate.script(hook) == hook.on_activate,
        HookEvent::Destroy.script(hook) == hook.on_destroy,
        HookEvent::Attach.script(hook) == hook.on_attach,
        HookEvent::Detach.script(hook) == hook.on_detach,
        HookEvent::Activate.name() == "on_activate"@,
        HookEvent::Destroy.name() == "on_destroy"@,
        HookEvent::Attach.name() == "on_attach"@,
        HookEvent::Detach.name() == "on_detach"@,
        HookEvent::Destroy.tears_down() && HookEvent::Detach.tears_down(),
        !HookEvent::Activate.tears_down() && !HookEvent::Attach.tears_down(),
{
}

/// Whether a hook has a script for an event, read off its fields.
pub open spec fn has_script_for(event: HookEvent, hook: LifecycleHook) -> bool {
    ||| event is Activate && hook.on_activate is Some
    ||| event is Destroy && hook.on_destroy is Some
    ||| event is Attach && hook.on_attach is Some
    ||| event is Detach && hook.on_detach is Some
}

proof fn lemma_declaring_all(event: HookEvent, hooks: Seq<ProvenancedHook>, n: int)
    requires
        0 <= n <= hooks.len() <= usize::MAX,
    ensures
        ({
            let all = declaring(event, hooks, n);
            &&& forall|k: usize|
                k < n ==> (#[trigger] all.contains(k) <==> has_script_for(
                    event,
                    hooks[k as int].hook,
                ))
            &&& forall|i: int| 0 <= i < all.len() ==> (#[trigger] all[i]) < n
            &&& forall|i: int, j: int| 0 <= i < j < all.len() ==> all[i] < all[j]
        }),
    decreases n,
{
    if n > 0 {
        lemma_declaring_all(event, hooks, n - 1);
        let before = declaring(event, hooks, n - 1);
        let all = declaring(event, hooks, n);
        let last = (n - 1) as usize;
        if declares(event, hooks[n - 1]) {
            assert(all == before.push(last));
            assert(all[before.len() as int] == last);
            assert forall|k: usize| k < n implies (#[trigger] all.contains(k) <==> has_script_for(
                event,
                hooks[k as int].hook,
            )) by {
                if k < n - 1 {
                    if before.contains(k) {
                        let i = choose|i: int| 0 <= i < before.len() && before[i] == k;
                        assert(all[i] == k);
                    }
                    if all.contains(k) {
                        let i = choose|i: int| 0 <= i < all.len() && all[i] == k;
                        assert(before[i] == k);
                    }
                }
            }
        } else {
            assert(!before.contains(last)) by {
                if before.contains(last) {
                    let i = choose|i: int| 0 <= i < before.len() && before[i] == last;
                    assert(before[i] < n - 1);
                }
            }
        }
    }
}

/// The hooks that run are those with a script for the event, each of them once:
/// in the order of the composition for what sets a session up, and in the
/// reverse of it for what takes one down.
pub proof fn law_the_hooks_with_a_script_run_in_order(
    event: HookEvent,
    hooks: Seq<ProvenancedHook>,
    k: usize,
)
    requires
        k < hooks.len() <= usize::MAX,
    ensures
        running_order(event, hooks).contains(k) <==> has_script_for(event, hooks[k as int].hook),
        forall|i: int|
            0 <= i < running_order(event, hooks).len() ==> (#[trigger] running_order(
                event,
                hooks,
            )[i]) < hooks.len(),
        event is Activate || event is Attach ==> forall|i: int, j: int|
            0 <= i < j < running_order(event, hooks).len() ==> running_order(event, hooks)[i]
                < running_order(event, hooks)[j],
        event is Destroy || event is Detach ==> forall|i: int, j: int|
            0 <= i < j < running_order(event, hooks).len() ==> running_order(event, hooks)[i]
                > running_order(event, hooks)[j],
{
    let all = declaring(event, hooks, hooks.len() as int);
    let order = running_order(event, hooks);
    lemma_declaring_all(event, hooks, hooks.len() as int);
    if event.tears_down() {
        assert forall|i: int| 0 <= i < order.len() implies (#[trigger] order[i]) < hooks.len() by {
            assert(order[i] == all[all.len() - 1 - i]);
        }
        assert(order.contains(k) <==> all.contains(k)) by {
            if all.contains(k) {
                let i = choose|i: int| 0 <= i < all.len() && all[i] == k;
                assert(order[all.len() - 1 - i] == k);
            }
            if order.contains(k) {
                let i = choose|i: int| 0 <= i < order.len() && order[i] == k;
                assert(all[all.len() - 1 - i] == k);
            }
        }
    }
}

/// A hook gets the smaller of its own time and what is left up to the deadline,
/// and a deadline that has come leaves nothing.
pub proof fn law_time_is_the_smaller_of_two(timeout: u128, deadline: u128, now: u128)
    ensures
        time_allowed(timeout, None, now) == timeout,
        !is_spent(None, now),
        is_spent(Some(deadline), now) <==> now >= deadline,
        now < deadline && timeout <= deadline - now ==> time_allowed(timeout, Some(deadline), now)
            == timeout,
        now < deadline && timeout >= deadline - now ==> now + time_allowed(
            timeout,
            Some(deadline),
            now,
        ) == deadline,
        now >= deadline ==> time_allowed(timeout, Some(deadline), now) == 0,
{
}

/// A run takes the hooks one after the other: it is finished when each has its
/// outcome, passes over one whose turn comes once the budget is spent, saying
/// so, and has any other run, counted from nought among all that run.
pub proof fn law_a_run_takes_each_hook_in_turn(
    run: HookRunView,
    hooks: Seq<ProvenancedHook>,
    now: u128,
)
    requires
        run.wf(hooks),
        hooks.len() <= usize::MAX,
        run.order.len() <= usize::MAX,
    ensures
        ({
            let (after, step) = run_next(run, hooks, now);
            let place = run.order[run.outcomes.len() as int];
            let hook = hooks[place as int];
            &&& after.event == run.event && after.order == run.order && after.budget == run.budget
                && after.deadline == run.deadline
            &&& step is Finished <==> run.outcomes.len() == run.order.len()
            &&& step is Skipped <==> run.outcomes.len() < run.order.len() && run.deadline is Some
                && run.deadline->0 <= now
            &&& !(step is Skipped) ==> after.outcomes == run.outcomes
            &&& step is Skipped ==> {
                let told = after.outcomes.last();
                &&& after.outcomes.drop_last() == run.outcomes
                &&& told.event == run.event.name()
                &&& told.declared_by == hook.declared_by@
                &&& told.description == text::optional(hook.hook.description)
                &&& told.output.len() == 0
                &&& told.status is NotRun
                &&& run.budget is Some ==> told.status->NotRun_reason == "the "@
                    + run.event.name() + " budget of "@ + text::decimal_text(
                    (run.budget->0 / 1_000_000_000) as nat,
                ) + "s was spent by earlier hooks"@
            }
            &&& step is Run ==> {
                let timeout = match run.event {
                    HookEvent::Activate => hook.hook.on_activate->0.timeout,
                    HookEvent::Destroy => hook.hook.on_destroy->0.timeout,
                    HookEvent::Attach => hook.hook.on_attach->0.timeout,
                    HookEvent::Detach => hook.hook.on_detach->0.timeout,
                };
                &&& step->hook == place
                &&& step->index == run.outcomes.len()
                &&& step->count == run.order.len()
                &&& step->allowed <= timeout
                &&& run.deadline is None ==> step->allowed == timeout
                &&& run.deadline is Some ==> now + step->allowed <= run.deadline->0 && (
                step->allowed == timeout || now + step->allowed == run.deadline->0)
            }
        }),
{
    let (after, step) = run_next(run, hooks, now);
    if step is Skipped {
        assert(after.outcomes.drop_last() =~= run.outcomes);
    }
}

/// What became of a hook is put behind the outcomes that are there, under the
/// hook whose turn it was, as it was reported.
pub proof fn law_an_outcome_is_recorded_as_it_was(
    run: HookRunView,
    hooks: Seq<ProvenancedHook>,
    status: StatusView,
    output: Seq<char>,
)
    requires
        run.wf(hooks),
        run.outcomes.len() < run.order.len(),
    ensures
        ({
            let after = run_record(run, hooks, status, output);
            let hook = hooks[run.order[run.outcomes.len() as int] as int];
            let told = after.outcomes.last();
            &&& after.event == run.event && after.order == run.order && after.budget == run.budget
                && after.deadline == run.deadline
            &&& after.outcomes.drop_last() == run.outcomes
            &&& told.event == run.event.name()
            &&& told.declared_by == hook.declared_by@
            &&& told.description == text::optional(hook.hook.description)
            &&& told.status == status
            &&& told.output == output
        }),
{
    assert(run_record(run, hooks, status, output).outcomes.drop_last() =~= run.outcomes);
}

/// A run starts with no outcome, its deadline as far off as its budget.
pub proof fn law_a_run_starts_with_its_whole_budget(
    event: HookEvent,
    hooks: &Vec<ProvenancedHook>,
    budget: Option<u128>,
    now: u128,
    run: HookRun,
)
    requires
        budget is Some ==> now + budget->0 <= u128::MAX,
        call_ensures(HookRun::start, (event, hooks, budget, now), run),
    ensures
        run@.event == event,
        run@.order == running_order(event, hooks@),
        run@.outcomes.len() == 0,
        run@.budget == budget,
        budget is None ==> run@.deadline is None,
        budget is Some ==> run@.deadline is Some && run@.deadline->0 == now + budget->0,
{
}

/// Only a hook that succeeded did not fail.
pub proof fn law_anything_but_success_is_a_failure(o: &HookOutcome, failed: bool)
    requires
        call_ensures(HookOutcome::failed, (o,), failed),
    ensures
        o.status is Succeeded ==> !failed,
        o.status is Failed || o.status is TimedOut || o.status is NotRun ==> failed,
{
}

proof fn lemma_metadata_names()
    ensures
        "MINIMAL_SESSION_ID"@ != "MINIMAL_SESSION_NAME"@,
        "MINIMAL_SESSION_ID"@ != "MINIMAL_HOOK_EVENT"@,
        "MINIMAL_SESSION_ID"@ != "MINIMAL_HOOK_SOURCE_KIND"@,
        "MINIMAL_SESSION_ID"@ != "MINIMAL_HOOK_SOURCE_NAME"@,
        "MINIMAL_SESSION_ID"@ != "MINIMAL_HOOK_INDEX"@,
        "MINIMAL_SESSION_ID"@ != "MINIMAL_HOOK_COUNT"@,
        "MINIMAL_SESSION_NAME"@ != "MINIMAL_HOOK_EVENT"@,
        "MINIMAL_SESSION_NAME"@ != "MINIMAL_HOOK_SOURCE_KIND"@,
        "MINIMAL_SESSION_NAME"@ != "MINIMAL_HOOK_SOURCE_NAME"@,
        "MINIMAL_SESSION_NAME"@ != "MINIMAL_HOOK_INDEX"@,
        "MINIMAL_SESSION_NAME"@ != "MINIMAL_HOOK_COUNT"@,
        "MINIMAL_HOOK_EVENT"@ != "MINIMAL_HOOK_SOURCE_KIND"@,
        "MINIMAL_HOOK_EVENT"@ != "MINIMAL_HOOK_SOURCE_NAME"@,
        "MINIMAL_HOOK_EVENT"@ != "MINIMAL_HOOK_INDEX"@,
        "MINIMAL_HOOK_EVENT"@ != "MINIMAL_HOOK_COUNT"@,
        "MINIMAL_HOOK_SOURCE_KIND"@ != "MINIMAL_HOOK_SOURCE_NAME"@,
        "MINIMAL_HOOK_SOURCE_KIND"@ != "MINIMAL_HOOK_INDEX"@,
        "MINIMAL_HOOK_SOURCE_KIND"@ != "MINIMAL_HOOK_COUNT"@,
        "MINIMAL_HOOK_SOURCE_NAME"@ != "MINIMAL_HOOK_INDEX"@,
        "MINIMAL_HOOK_SOURCE_NAME"@ != "MINIMAL_HOOK_COUNT"@,
        "MINIMAL_HOOK_INDEX"@ != "MINIMAL_HOOK_COUNT"@,
{
    reveal_strlit("MINIMAL_SESSION_ID");
    reveal_strlit("MINIMAL_SESSION_NAME");
    reveal_strlit("MINIMAL_HOOK_EVENT");
    reveal_strlit("MINIMAL_HOOK_SOURCE_KIND");
    reveal_strlit("MINIMAL_HOOK_SOURCE_NAME");
    reveal_strlit("MINIMAL_HOOK_INDEX");
    reveal_strlit("MINIMAL_HOOK_COUNT");
    assert("MINIMAL_SESSION_ID"@.len() == 18);
    assert("MINIMAL_SESSION_NAME"@.len() == 20);
    assert("MINIMAL_HOOK_EVENT"@.len() == 18);
    assert("MINIMAL_HOOK_INDEX"@.len() == 18);
    assert("MINIMAL_HOOK_COUNT"@.len() == 18);
    assert("MINIMAL_HOOK_SOURCE_KIND"@.len() == 24);
    assert("MINIMAL_HOOK_SOURCE_NAME"@.len() == 24);
    assert("MINIMAL_HOOK_INDEX"@ != "MINIMAL_HOOK_COUNT"@) by {
        assert("MINIMAL_HOOK_INDEX"@[13] != "MINIMAL_HOOK_COUNT"@[13]);
    }
    assert("MINIMAL_HOOK_INDEX"@ != "MINIMAL_HOOK_EVENT"@) by {
        assert("MINIMAL_HOOK_INDEX"@[13] != "MINIMAL_HOOK_EVENT"@[13]);
    }
    assert("MINIMAL_HOOK_COUNT"@ != "MINIMAL_HOOK_EVENT"@) by {
        assert("MINIMAL_HOOK_COUNT"@[13] != "MINIMAL_HOOK_EVENT"@[13]);
    }
    assert("MINIMAL_SESSION_ID"@ != "MINIMAL_HOOK_EVENT"@) by {
        assert("MINIMAL_SESSION_ID"@[8] != "MINIMAL_HOOK_EVENT"@[8]);
    }
    assert("MINIMAL_SESSION_ID"@ != "MINIMAL_HOOK_INDEX"@) by {
        assert("MINIMAL_SESSION_ID"@[8] != "MINIMAL_HOOK_INDEX"@[8]);
    }
    assert("MINIMAL_SESSION_ID"@ != "MINIMAL_HOOK_COUNT"@) by {
        assert("MINIMAL_SESSION_ID"@[8] != "MINIMAL_HOOK_COUNT"@[8]);
    }
    assert("MINIMAL_HOOK_SOURCE_KIND"@ != "MINIMAL_HOOK_SOURCE_NAME"@) by {
        assert("MINIMAL_HOOK_SOURCE_KIND"@[20] != "MINIMAL_HOOK_SOURCE_NAME"@[20]);
    }
}

/// A hook is told the session, the event, where it was declared, and its place
/// among all that run, counted from one: these and nothing else.
pub proof fn law_a_hook_is_told_what_it_is_part_of(
    session_id: Seq<char>,
    session_name: Seq<char>,
    event: HookEvent,
    source: Source,
    index: nat,
    count: nat,
    key: Seq<char>,
)
    ensures
        ({
            let m = metadata_view(session_id, session_name, event, source, index, count);
            let kind = "MINIMAL_HOOK_SOURCE_KIND"@;
            let name = "MINIMAL_HOOK_SOURCE_NAME"@;
            &&& m.dom().contains(key) <==> (key == "MINIMAL_SESSION_ID"@ || key
                == "MINIMAL_SESSION_NAME"@ || key == "MINIMAL_HOOK_EVENT"@ || key == kind || key
                == name || key == "MINIMAL_HOOK_INDEX"@ || key == "MINIMAL_HOOK_COUNT"@)
            &&& m["MINIMAL_SESSION_ID"@] == session_id
            &&& m["MINIMAL_SESSION_NAME"@] == session_name
            &&& m["MINIMAL_HOOK_EVENT"@] == event.name()
            &&& m["MINIMAL_HOOK_INDEX"@] == text::decimal_text(index + 1)
            &&& m["MINIMAL_HOOK_COUNT"@] == text::decimal_text(count)
            &&& source is UserLoadout ==> m[kind] == "loadout"@ && m[name]
                == source->UserLoadout_name@
            &&& source is Project ==> m[kind] == "project"@ && m[name] == source->Project_path@
            &&& source is Package ==> m[kind] == "package"@ && m[name] == source->Package_name@
            &&& source is Other ==> m[kind] == "other"@ && m[name] == source->Other_text@
        }),
{
    lemma_metadata_names();
}

proof fn lemma_first_line(line: Seq<u8>, rest: Seq<u8>)
    requires
        forall|i: int| 0 <= i < line.len() ==> (#[trigger] line[i]) != 10u8,
        rest.len() > 0 ==> rest[0] == 10u8,
    ensures
        first_line(line + rest) == line,
    decreases line.len(),
{
    let all = line + rest;
    if line.len() > 0 {
        assert(line[0] != 10u8);
        assert(all.drop_first() =~= line.drop_first() + rest);
        assert forall|i: int| 0 <= i < line.drop_first().len() implies (
        #[trigger] line.drop_first()[i]) != 10u8 by {
            assert(line.drop_first()[i] == line[i + 1]);
        }
        lemma_first_line(line.drop_first(), rest);
        assert(seq![line[0]] + line.drop_first() =~= line);
    } else {
        assert(all =~= rest);
        assert(first_line(all) =~= line);
    }
}

proof fn lemma_first_word(word: Seq<char>, rest: Seq<char>)
    requires
        forall|i: int| 0 <= i < word.len() ==> !text::is_white(#[trigger] word[i]),
        rest.len() > 0 ==> text::is_white(rest[0]),
    ensures
        first_word_len(word + rest) == word.len(),
    decreases word.len(),
{
    let all = word + rest;
    if word.len() > 0 {
        assert(!text::is_white(word[0]));
        assert(all.drop_first() =~= word.drop_first() + rest);
        assert forall|i: int| 0 <= i < word.drop_first().len() implies !text::is_white(
            #[trigger] word.drop_first()[i],
        ) by {
            assert(word.drop_first()[i] == word[i + 1]);
        }
        lemma_first_word(word.drop_first(), rest);
    } else {
        assert(all =~= rest);
    }
}

/// A script that starts with `#!` is run by what its first line names: the first
/// word is the program, and what follows it, blanks within it and all, is one
/// argument, without the blanks round it.
pub proof fn law_a_shebang_names_the_interpreter(
    line: Seq<u8>,
    rest: Seq<u8>,
    lead: Seq<char>,
    program: Seq<char>,
    gap: Seq<char>,
    arg: Seq<char>,
    trail: Seq<char>,
)
    requires
        forall|i: int| 0 <= i < line.len() ==> (#[trigger] line[i]) != 10u8,
        rest.len() > 0 ==> rest[0] == 10u8,
        valid_utf8(line),
        decode_utf8(line) == lead + (program + gap + arg) + trail,
        forall|i: int| 0 <= i < lead.len() ==> text::is_white(#[trigger] lead[i]),
        forall|i: int| 0 <= i < gap.len() ==> text::is_white(#[trigger] gap[i]),
        forall|i: int| 0 <= i < trail.len() ==> text::is_white(#[trigger] trail[i]),
        program.len() > 0,
        forall|i: int| 0 <= i < program.len() ==> !text::is_white(#[trigger] program[i]),
        gap.len() == 0 <==> arg.len() == 0,
        arg.len() > 0 ==> !text::is_white(arg[0]) && !text::is_white(arg.last()),
    ensures
        interpreter_for(seq![35u8, 33u8] + line + rest).program == program,
        arg.len() == 0 ==> interpreter_for(seq![35u8, 33u8] + line + rest).args.len() == 0,
        arg.len() > 0 ==> interpreter_for(seq![35u8, 33u8] + line + rest).args == seq![arg],
{
    let body = seq![35u8, 33u8] + line + rest;
    assert(body.skip(2) =~= line + rest);
    lemma_first_line(line, rest);
    let kept = program + gap + arg;
    assert(!text::is_white(program[0]));
    assert(!text::is_white(program[program.len() - 1]));
    assert(kept[0] == program[0]);
    if arg.len() == 0 {
        assert(kept =~= program);
    } else {
        assert(kept.last() == arg.last());
    }
    text::law_trimming_takes_white_space_alone(lead, kept, trail);
    assert(kept =~= program + (gap + arg));
    if gap.len() > 0 {
        assert(text::is_white(gap[0]));
    }
    lemma_first_word(program, gap + arg);
    assert(kept.take(program.len() as int) =~= program);
    if arg.len() > 0 {
        let after = gap.skip(1);
        let none = Seq::<char>::empty();
        assert(kept.skip(program.len() as int + 1) =~= after + arg + none);
        assert forall|i: int| 0 <= i < after.len() implies text::is_white(#[trigger] after[i]) by {
            assert(after[i] == gap[i + 1]);
        }
        text::law_trimming_takes_white_space_alone(after, arg, none);
    }
}

/// A script that does not start with `#!`, or whose first line names nothing or
/// is no text, is read by the POSIX shell from its input.
pub proof fn law_other_scripts_are_run_by_the_shell(body: Seq<u8>, line: Seq<u8>, rest: Seq<u8>)
    requires
        forall|i: int| 0 <= i < line.len() ==> (#[trigger] line[i]) != 10u8,
        rest.len() > 0 ==> rest[0] == 10u8,
        valid_utf8(line) ==> forall|i: int|
            0 <= i < decode_utf8(line).len() ==> text::is_white(#[trigger] decode_utf8(line)[i]),
    ensures
        body.len() < 2 || body[0] != 35 || body[1] != 33 ==> interpreter_for(body)
            == (InterpreterView { program: "sh"@, args: seq!["-s"@] }),
        interpreter_for(seq![35u8, 33u8] + line + rest) == (InterpreterView {
            program: "sh"@,
            args: seq!["-s"@],
        }),
{
    let all = seq![35u8, 33u8] + line + rest;
    assert(all.skip(2) =~= line + rest);
    lemma_first_line(line, rest);
    if valid_utf8(line) {
        let t = decode_utf8(line);
        let none = Seq::<char>::empty();
        assert(t + none + none =~= t);
        text::law_trimming_takes_white_space_alone(t, none, none);
    }
}

/// A report that is too long is cut at its start: what is kept are the last
/// four thousand and ninety-six bytes, and what of a character they start in.
pub proof fn law_the_end_of_a_long_report_is_kept(s: Seq<char>)
    ensures
        encode_utf8(s).len() <= 4096 ==> kept_tail(s) == s,
        encode_utf8(s).len() > 4096 ==> 4096 <= encode_utf8(kept_tail(s)).len() < 4100,
        kept_tail(s).len() <= s.len() && kept_tail(s) == s.skip(s.len() - kept_tail(s).len()),
{
    law_tail_is_a_bounded_end(s);
    assert(s.skip(0) =~= s);
    assert(kept_tail(s) =~= s.skip(s.len() - kept_tail(s).len()));
}

/// What [`HookRun::next`] and [`HookRun::record`] do is what is said of a run
/// here, and the outcomes come out in the order in which they went in.
pub proof fn law_a_run_goes_as_stated(
    hooks: &Vec<ProvenancedHook>,
    now: u128,
    step: HookStep,
    status: HookStatus,
    output: String,
    run: HookRun,
    outcomes: Vec<HookOutcome>,
    event: HookEvent,
    order: Vec<usize>,
)
    requires
        call_ensures(HookRun::into_outcomes, (run,), outcomes),
        call_ensures(hooks_to_run, (event, hooks), order),
    ensures
        forall|r: &mut HookRun| #[trigger]
            call_ensures(HookRun::next, (r, hooks, now), step) ==> (final(r)@, step) == run_next(
                r@,
                hooks@,
                now,
            ),
        forall|r: &mut HookRun| #[trigger]
            call_ensures(HookRun::record, (r, hooks, status, output), ()) ==> final(r)@
                == run_record(r@, hooks@, status@, output@),
        outcomes@.len() == run@.outcomes.len(),
        forall|i: int|
            0 <= i < outcomes@.len() ==> (#[trigger] outcomes@[i])@ == run@.outcomes[i],
        order@ == running_order(event, hooks@),
{
    let views = outcomes@.map_values(|o: HookOutcome| o@);
    assert(views.len() == outcomes@.len());
    assert forall|i: int| 0 <= i < outcomes@.len() implies (#[trigger] outcomes@[i])@
        == run@.outcomes[i] by {
        assert(views[i] == outcomes@[i]@);
    }
}

/// A script is run by what it asks for, and a hook is told what it is part of,
/// as is said here.
pub proof fn law_a_hook_is_run_as_stated(
    body: &[u8],
    line: &str,
    interpreter: Interpreter,
    shell: Interpreter,
    named: Interpreter,
    program: &str,
    args: Vec<&str>,
    path: &str,
    contained: bool,
    event: HookEvent,
    name: &'static str,
    teardown: bool,
)
    requires
        call_ensures(Interpreter::for_script, (body,), interpreter),
        call_ensures(Interpreter::posix_shell, (), shell),
        call_ensures(Interpreter::from_line, (line,), named),
        call_ensures(Interpreter::program, (&interpreter,), program),
        call_ensures(Interpreter::args, (&interpreter,), args),
        call_ensures(contained_relative_path, (path,), contained),
        call_ensures(HookEvent::as_str, (event,), name),
        call_ensures(HookEvent::is_teardown, (event,), teardown),
    ensures
        interpreter@ == interpreter_for(body@),
        shell@.program == "sh"@ && shell@.args == seq!["-s"@],
        named@ == named_by(line@),
        program@ == interpreter_for(body@).program,
        args@.len() == interpreter_for(body@).args.len(),
        forall|i: int|
            0 <= i < args@.len() ==> (#[trigger] args@[i])@ == interpreter_for(body@).args[i],
        contained <==> paths::stays_inside(path@),
        name@ == event.name(),
        teardown <==> event is Destroy || event is Detach,
{
}

/// What a hook is told, and what is told of it, are what is said here.
pub proof fn law_a_hook_is_told_as_stated(
    id: &str,
    session: &str,
    event: HookEvent,
    source: &Source,
    index: usize,
    count: usize,
    env: EnvMap,
    hook: &ProvenancedHook,
    status: HookStatus,
    output: String,
    done: HookOutcome,
    budget: Option<u128>,
    missed: HookOutcome,
    out: &[u8],
    err: &[u8],
    tail: String,
)
    requires
        call_ensures(metadata_env, (id, session, event, source, index, count), env),
        call_ensures(outcome, (event, hook, status, output), done),
        call_ensures(not_run_over_budget, (event, hook, budget), missed),
        call_ensures(tail_of, (out, err), tail),
    ensures
        env@ == metadata_view(id@, session@, event, *source, index as nat, count as nat),
        done.event@ == event.name(),
        done.declared_by@ == hook.declared_by@,
        text::optional(done.description) == text::optional(hook.hook.description),
        done.status@ == status@,
        done.output@ == output@,
        missed.event@ == event.name(),
        missed.declared_by@ == hook.declared_by@,
        missed.status is NotRun,
        missed.output@.len() == 0,
        tail@ == kept_tail(both_streams(text::lossy_text(out@), errors_of(err@))),
        err@.len() == 0 ==> tail@ == kept_tail(text::lossy_text(out@)),
{
}

/// What a status and an outcome say is what they were made of.
pub proof fn law_an_outcome_says_what_it_was_made_of(
    o: HookOutcome,
    code: Option<i32>,
    after: u128,
    budgeted: bool,
    reason: String,
)
    ensures
        HookStatus::Succeeded@ is Succeeded,
        (HookStatus::Failed { code })@ == (StatusView::Failed { code }),
        (HookStatus::TimedOut { after, budgeted })@ == (StatusView::TimedOut { after, budgeted }),
        (HookStatus::NotRun { reason })@ == (StatusView::NotRun { reason: reason@ }),
        o@.event == o.event@,
        o@.declared_by == o.declared_by@,
        o@.description is Some <==> o.description is Some,
        o.description is Some ==> o@.description->0 == o.description->0@,
        o@.status == o.status@,
        o@.output == o.output@,
{
}

} // verus!
