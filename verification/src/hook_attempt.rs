//! One run of one hook, from finding its script to reporting how it ended.
use vstd::prelude::*;
use vstd::string::*;

use crate::hooks::{
    contained_relative_path, tail_of, HookScript, HookScriptBody, HookStatus, Interpreter, Source,
};
use crate::paths;
use crate::text;

verus! {

/// How reading a file went.
#[derive(Debug)]
pub enum FileRead {
    Contents(Vec<u8>),
    /// There is no such file; the error in words.
    Missing(String),
    /// Reading it failed; the error in words.
    Failed(String),
}

/// How handing the script to its interpreter went.
#[derive(Debug)]
pub enum ScriptWrite {
    /// It was read, in so many nanoseconds.
    Done { spent: u128 },
    Failed(String),
    /// The interpreter did not read it in time.
    TimedOut,
}

/// How waiting for the hook went.
#[derive(Debug)]
pub enum HookWait {
    /// It exited; a signal leaves no code.
    Exited { code: Option<i32>, stdout: Vec<u8>, stderr: Vec<u8> },
    Failed(String),
    /// It was still running when its time was up.
    TimedOut,
}

/// What the driver has done.
#[derive(Debug)]
pub enum AttemptEvent {
    /// Read the file that the attempt asked for.
    FileRead(FileRead),
    /// Built the command, or not.
    CommandBuilt { error: Option<String> },
    /// Opened the terminal for the hook's output and for its errors, or not.
    TerminalOpened { opened: bool },
    /// Started the command, or not.
    Spawned { error: Option<String> },
    /// Wrote the script to the interpreter.
    ScriptWritten(ScriptWrite),
    /// Waited for the hook.
    Waited(HookWait),
}

/// What the driver is to do.
#[derive(Debug)]
pub enum AttemptStage {
    /// Read the staged script; a project's may stand in the workspace instead.
    ReadStaged { path: String, in_tree: Option<String> },
    /// Read the script from the workspace.
    ReadTree { path: String },
    /// Build the command for the interpreter.
    Build,
    /// Open the terminal that the hook writes to.
    OpenTerminal { path: String },
    /// Start the command.
    Spawn,
    /// Write the script to the interpreter's input and close it.
    WriteScript,
    /// Wait for the hook to end.
    Wait,
}

/// What an [`AttemptStage`] asks for.
pub ghost enum StageView {
    ReadStaged { path: Seq<char>, in_tree: Option<Seq<char>> },
    ReadTree { path: Seq<char> },
    Build,
    OpenTerminal { path: Seq<char> },
    Spawn,
    WriteScript,
    Wait,
}

impl View for AttemptStage {
    type V = StageView;

    open spec fn view(&self) -> StageView {
        match self {
            AttemptStage::ReadStaged { path, in_tree } => StageView::ReadStaged {
                path: path@,
                in_tree: text::optional(*in_tree),
            },
            AttemptStage::ReadTree { path } => StageView::ReadTree { path: path@ },
            AttemptStage::Build => StageView::Build,
            AttemptStage::OpenTerminal { path } => StageView::OpenTerminal { path: path@ },
            AttemptStage::Spawn => StageView::Spawn,
            AttemptStage::WriteScript => StageView::WriteScript,
            AttemptStage::Wait => StageView::Wait,
        }
    }
}

/// A run of one hook, under way.
pub struct HookAttempt {
    stage: AttemptStage,
    /// The time that the hook may take, in nanoseconds.
    allowed: u128,
    /// What is left of that time.
    left: u128,
    /// The time that its declaration asked for.
    declared: u128,
    /// The terminal that it writes to; without one its output is captured.
    terminal: Option<String>,
    body: Vec<u8>,
    interpreter: Interpreter,
}

/// What a [`HookAttempt`] is in.
pub ghost struct AttemptView {
    pub stage: StageView,
    pub allowed: u128,
    /// What is left of the time.
    pub left: u128,
    pub declared: u128,
    pub terminal: Option<Seq<char>>,
    /// The script, once it is known.
    pub body: Seq<u8>,
}

impl View for HookAttempt {
    type V = AttemptView;

    closed spec fn view(&self) -> AttemptView {
        AttemptView {
            stage: self.stage@,
            allowed: self.allowed,
            left: self.left,
            declared: self.declared,
            terminal: text::optional(self.terminal),
            body: self.body@,
        }
    }
}

/// How an attempt ended. `kill` says that the hook's process is still there and
/// has to be killed and waited for.
#[derive(Debug)]
pub struct AttemptEnd {
    pub status: HookStatus,
    pub output: String,
    pub kill: bool,
}

/// What an [`AttemptEnd`] says.
pub ghost struct EndView {
    pub status: crate::hooks::StatusView,
    pub output: Seq<char>,
    pub kill: bool,
}

impl View for AttemptEnd {
    type V = EndView;

    open spec fn view(&self) -> EndView {
        EndView { status: self.status@, output: self.output@, kill: self.kill }
    }
}

/// Where an attempt stands after an event.
pub enum AttemptNext {
    Goes(HookAttempt),
    Ends(AttemptEnd),
}

/// What an [`AttemptNext`] says.
pub ghost enum NextView {
    Goes(AttemptView),
    Ends(EndView),
}

impl View for AttemptNext {
    type V = NextView;

    open spec fn view(&self) -> NextView {
        match self {
            AttemptNext::Goes(a) => NextView::Goes(a@),
            AttemptNext::Ends(e) => NextView::Ends(e@),
        }
    }
}

/// The attempt ends because the hook could not be run.
pub open spec fn not_run(reason: Seq<char>) -> NextView {
    NextView::Ends(
        EndView {
            status: crate::hooks::StatusView::NotRun { reason },
            output: Seq::empty(),
            kill: false,
        },
    )
}

/// The attempt goes on in another stage.
pub open spec fn moves(a: AttemptView, stage: StageView) -> NextView {
    NextView::Goes(AttemptView { stage, ..a })
}

/// What is left of a time once some of it is spent.
pub open spec fn time_after(left: u128, spent: u128) -> u128 {
    if spent < left {
        (left - spent) as u128
    } else {
        0
    }
}

/// The attempt has its script.
pub open spec fn has_script(a: AttemptView, body: Seq<u8>) -> NextView {
    NextView::Goes(AttemptView { stage: StageView::Build, body, ..a })
}

/// Whether an event is the answer to what the attempt asked for.
pub open spec fn answers_stage(stage: StageView, event: AttemptEvent) -> bool {
    match event {
        AttemptEvent::FileRead(_) => stage is ReadStaged || stage is ReadTree,
        AttemptEvent::CommandBuilt { .. } => stage is Build,
        AttemptEvent::TerminalOpened { .. } => stage is OpenTerminal,
        AttemptEvent::Spawned { .. } => stage is Spawn,
        AttemptEvent::ScriptWritten(_) => stage is WriteScript,
        AttemptEvent::Waited(_) => stage is Wait,
    }
}

/// What a finished wait says of the hook.
pub open spec fn waited(a: AttemptView, wait: HookWait) -> EndView {
    match wait {
        HookWait::Exited { code, stdout, stderr } => EndView {
            status: if code == Some(0i32) {
                crate::hooks::StatusView::Succeeded
            } else {
                crate::hooks::StatusView::Failed { code }
            },
            output: crate::hooks::kept_tail(
                crate::hooks::both_streams(
                    text::lossy_text(stdout@),
                    crate::hooks::errors_of(stderr@),
                ),
            ),
            kill: false,
        },
        HookWait::Failed(e) => EndView {
            status: crate::hooks::StatusView::NotRun { reason: "waiting: "@ + e@ },
            output: Seq::empty(),
            kill: false,
        },
        HookWait::TimedOut => EndView {
            status: crate::hooks::StatusView::TimedOut {
                after: a.allowed,
                budgeted: a.allowed < a.declared,
            },
            output: Seq::empty(),
            kill: true,
        },
    }
}

/// Where an attempt stands after an event.
pub open spec fn next_view(a: AttemptView, event: AttemptEvent) -> NextView {
    let program = crate::hooks::interpreter_for(a.body).program;
    match event {
        AttemptEvent::FileRead(read) => match (a.stage, read) {
            (_, FileRead::Contents(b)) => has_script(a, b@),
            (StageView::ReadStaged { path, in_tree }, FileRead::Failed(e)) => not_run(
                "reading `"@ + path + "`: "@ + e@,
            ),
            (StageView::ReadStaged { path, in_tree }, FileRead::Missing(e)) => match in_tree {
                Some(tree) => moves(a, StageView::ReadTree { path: tree }),
                None => not_run(
                    "no staged script at `"@ + path
                        + "` (was the hook-script upload skipped?)"@,
                ),
            },
            (StageView::ReadTree { path }, FileRead::Failed(e)) => not_run(
                "script not staged, and reading `"@ + path + "` from the workspace failed: "@
                    + e@,
            ),
            (StageView::ReadTree { path }, FileRead::Missing(e)) => not_run(
                "script not staged, and reading `"@ + path + "` from the workspace failed: "@
                    + e@,
            ),
            _ => moves(a, a.stage),
        },
        AttemptEvent::CommandBuilt { error } => match error {
            Some(e) => not_run("building the command for `"@ + program + "`: "@ + e@),
            None => match a.terminal {
                Some(path) => moves(a, StageView::OpenTerminal { path }),
                None => moves(a, StageView::Spawn),
            },
        },
        AttemptEvent::TerminalOpened { opened } => if opened {
            moves(a, StageView::Spawn)
        } else {
            not_run(
                "opening the session terminal `"@ + a.stage->OpenTerminal_path + "` failed"@,
            )
        },
        AttemptEvent::Spawned { error } => match error {
            Some(e) => not_run("spawning `"@ + program + "`: "@ + e@),
            None => moves(a, StageView::WriteScript),
        },
        AttemptEvent::ScriptWritten(write) => match write {
            ScriptWrite::Done { spent } => NextView::Goes(
                AttemptView { stage: StageView::Wait, left: time_after(a.left, spent), ..a },
            ),
            ScriptWrite::Failed(e) => stopped("writing the script to stdin: "@ + e@),
            ScriptWrite::TimedOut => stopped(
                "the interpreter did not read its script within "@ + text::decimal_text(
                    crate::hooks::whole_secs(a.allowed),
                ) + "s"@,
            ),
        },
        AttemptEvent::Waited(wait) => NextView::Ends(waited(a, wait)),
    }
}

/// The attempt ends because the script did not reach its interpreter, which is
/// killed.
pub open spec fn stopped(reason: Seq<char>) -> NextView {
    NextView::Ends(
        EndView {
            status: crate::hooks::StatusView::NotRun { reason },
            output: Seq::empty(),
            kill: true,
        },
    )
}

/// Where an attempt starts. An inline script is there already. An external one
/// is read from where the session's scripts are staged, or else, for a
/// project, from the workspace; neither path may lead out of its directory.
pub open spec fn start_view(
    script: HookScript,
    source: Source,
    staged: Option<Seq<char>>,
    hooks_dir: Seq<char>,
    workspace: Seq<char>,
    terminal: Option<Seq<char>>,
    allowed: u128,
) -> NextView {
    let a = AttemptView {
        stage: StageView::Build,
        allowed,
        left: allowed,
        declared: script.timeout,
        terminal,
        body: Seq::empty(),
    };
    match script.body {
        HookScriptBody::Inline(body) => has_script(a, vstd::utf8::encode_utf8(body@)),
        HookScriptBody::External(rel) => match staged {
            None => not_run("this source cannot declare hook scripts"@),
            Some(s) => if !paths::stays_inside(s) || !paths::stays_inside(rel@) {
                not_run(
                    "hook script path `"@ + s
                        + "` escapes the session's staged-hooks directory"@,
                )
            } else {
                moves(
                    a,
                    StageView::ReadStaged {
                        path: paths::joined_path(hooks_dir, s),
                        in_tree: if source is Project {
                            Some(paths::joined_path(workspace, rel@))
                        } else {
                            None
                        },
                    },
                )
            },
        },
    }
}

fn end_not_run(reason: String, kill: bool) -> (next: AttemptNext)
    ensures
        next@ == NextView::Ends(
            EndView {
                status: crate::hooks::StatusView::NotRun { reason: reason@ },
                output: Seq::empty(),
                kill,
            },
        ),
{
    AttemptNext::Ends(
        AttemptEnd { status: HookStatus::NotRun { reason }, output: String::new(), kill },
    )
}

impl HookAttempt {
    /// The interpreter is the one that the script asks for.
    pub closed spec fn wf(&self) -> bool {
        self.interpreter@ == crate::hooks::interpreter_for(self.body@)
    }

    /// What the driver is to do.
    pub fn stage(&self) -> (stage: &AttemptStage)
        ensures
            stage@ == self@.stage,
    {
        &self.stage
    }

    /// What runs the script.
    pub fn interpreter(&self) -> (interpreter: &Interpreter)
        requires
            self.wf(),
        ensures
            interpreter@ == crate::hooks::interpreter_for(self@.body),
    {
        &self.interpreter
    }

    /// The script.
    pub fn body(&self) -> (body: &Vec<u8>)
        ensures
            body@ == self@.body,
    {
        &self.body
    }

    /// The time that the hook may take, in nanoseconds.
    pub fn allowed(&self) -> (nanos: u128)
        ensures
            nanos == self@.allowed,
    {
        self.allowed
    }

    /// The time that the stage at hand may take, in nanoseconds: handing over
    /// the script may take all of the hook's time, and waiting what that left.
    pub fn time_left(&self) -> (nanos: u128)
        ensures
            nanos == self@.left,
    {
        self.left
    }

    fn with_body(self, body: Vec<u8>) -> (next: AttemptNext)
        ensures
            next@ == has_script(self@, body@),
            next is Goes ==> next->Goes_0.wf(),
    {
        let interpreter = Interpreter::for_script(body.as_slice());
        AttemptNext::Goes(
            HookAttempt {
                stage: AttemptStage::Build,
                allowed: self.allowed,
                left: self.left,
                declared: self.declared,
                terminal: self.terminal,
                body,
                interpreter,
            },
        )
    }

    fn at(self, stage: AttemptStage) -> (next: AttemptNext)
        requires
            self.wf(),
        ensures
            next@ == moves(self@, stage@),
            next is Goes ==> next->Goes_0.wf(),
    {
        let mut a = self;
        a.stage = stage;
        AttemptNext::Goes(a)
    }

    /// Starts an attempt. `staged` is where the source's script is staged,
    /// relative to `hooks_dir`, where the source can have one.
    pub fn start(
        script: &HookScript,
        source: &Source,
        staged: Option<String>,
        hooks_dir: &str,
        workspace: &str,
        terminal: Option<String>,
        allowed: u128,
    ) -> (next: AttemptNext)
        ensures
            next@ == start_view(
                *script,
                *source,
                text::optional(staged),
                hooks_dir@,
                workspace@,
                text::optional(terminal),
                allowed,
            ),
            next is Goes ==> next->Goes_0.wf(),
    {
        let body: Vec<u8> = Vec::new();
        let interpreter = Interpreter::for_script(body.as_slice());
        let attempt = HookAttempt {
            stage: AttemptStage::Build,
            allowed,
            left: allowed,
            declared: script.timeout,
            terminal,
            body,
            interpreter,
        };
        assert(attempt.body@ =~= Seq::empty());
        match &script.body {
            HookScriptBody::Inline(text) => attempt.with_body(text.as_str().as_bytes_vec()),
            HookScriptBody::External(rel) => {
                let staged = match staged {
                    Some(s) => s,
                    None => {
                        return end_not_run(
                            "this source cannot declare hook scripts".to_owned(),
                            false,
                        );
                    },
                };
                if !contained_relative_path(staged.as_str()) || !contained_relative_path(
                    rel.as_str(),
                ) {
                    return end_not_run(
                        text::cat3(
                            "hook script path `",
                            staged.as_str(),
                            "` escapes the session's staged-hooks directory",
                        ),
                        false,
                    );
                }
                let path = paths::join(hooks_dir, staged.as_str());
                let in_tree = match source {
                    Source::Project { .. } => Some(paths::join(workspace, rel.as_str())),
                    _ => None,
                };
                attempt.at(AttemptStage::ReadStaged { path, in_tree })
            },
        }
    }

    /// Takes what the driver has done.
    pub fn advance(self, event: AttemptEvent) -> (next: AttemptNext)
        requires
            self.wf(),
            answers_stage(self@.stage, event),
        ensures
            next@ == next_view(self@, event),
            next is Goes ==> next->Goes_0.wf(),
    {
        match event {
            AttemptEvent::FileRead(FileRead::Contents(b)) => self.with_body(b),
            AttemptEvent::FileRead(FileRead::Failed(e)) => {
                let reason = match &self.stage {
                    AttemptStage::ReadStaged { path, .. } => text::cat4(
                        "reading `",
                        path.as_str(),
                        "`: ",
                        e.as_str(),
                    ),
                    AttemptStage::ReadTree { path } => text::cat4(
                        "script not staged, and reading `",
                        path.as_str(),
                        "` from the workspace failed: ",
                        e.as_str(),
                    ),
                    _ => String::new(),
                };
                end_not_run(reason, false)
            },
            AttemptEvent::FileRead(FileRead::Missing(e)) => {
                let mut tree: Option<String> = None;
                let mut reason = String::new();
                match &self.stage {
                    AttemptStage::ReadStaged { path, in_tree } => match in_tree {
                        Some(t) => {
                            tree = Some(t.clone());
                        },
                        None => {
                            reason = text::cat3(
                                "no staged script at `",
                                path.as_str(),
                                "` (was the hook-script upload skipped?)",
                            );
                        },
                    },
                    AttemptStage::ReadTree { path } => {
                        reason = text::cat4(
                            "script not staged, and reading `",
                            path.as_str(),
                            "` from the workspace failed: ",
                            e.as_str(),
                        );
                    },
                    _ => {},
                }
                match tree {
                    Some(path) => self.at(AttemptStage::ReadTree { path }),
                    None => end_not_run(reason, false),
                }
            },
            AttemptEvent::CommandBuilt { error } => match error {
                Some(e) => end_not_run(
                    text::cat4(
                        "building the command for `",
                        self.interpreter.program(),
                        "`: ",
                        e.as_str(),
                    ),
                    false,
                ),
                None => match text::copy_optional(&self.terminal) {
                    Some(path) => self.at(AttemptStage::OpenTerminal { path }),
                    None => self.at(AttemptStage::Spawn),
                },
            },
            AttemptEvent::TerminalOpened { opened } => {
                if opened {
                    return self.at(AttemptStage::Spawn);
                }
                let reason = match &self.stage {
                    AttemptStage::OpenTerminal { path } => text::cat3(
                        "opening the session terminal `",
                        path.as_str(),
                        "` failed",
                    ),
                    _ => String::new(),
                };
                end_not_run(reason, false)
            },
            AttemptEvent::Spawned { error } => match error {
                Some(e) => end_not_run(
                    text::cat4("spawning `", self.interpreter.program(), "`: ", e.as_str()),
                    false,
                ),
                None => self.at(AttemptStage::WriteScript),
            },
            AttemptEvent::ScriptWritten(write) => match write {
                ScriptWrite::Done { spent } => {
                    let mut a = self;
                    a.left = if spent < a.left {
                        a.left - spent
                    } else {
                        0
                    };
                    a.at(AttemptStage::Wait)
                },
                ScriptWrite::Failed(e) => end_not_run(
                    text::cat2("writing the script to stdin: ", e.as_str()),
                    true,
                ),
                ScriptWrite::TimedOut => {
                    let secs = text::decimal(self.allowed / 1_000_000_000);
                    end_not_run(
                        text::cat3(
                            "the interpreter did not read its script within ",
                            secs.as_str(),
                            "s",
                        ),
                        true,
                    )
                },
            },
            AttemptEvent::Waited(wait) => match wait {
                HookWait::Exited { code, stdout, stderr } => {
                    let output = tail_of(stdout.as_slice(), stderr.as_slice());
                    let status = match code {
                        Some(0) => HookStatus::Succeeded,
                        _ => HookStatus::Failed { code },
                    };
                    AttemptNext::Ends(AttemptEnd { status, output, kill: false })
                },
                HookWait::Failed(e) => end_not_run(text::cat2("waiting: ", e.as_str()), false),
                HookWait::TimedOut => AttemptNext::Ends(
                    AttemptEnd {
                        status: HookStatus::TimedOut {
                            after: self.allowed,
                            budgeted: self.allowed < self.declared,
                        },
                        output: String::new(),
                        kill: true,
                    },
                ),
            },
        }
    }
}

/// How many stages may still follow a stage.
pub open spec fn stages_left(stage: StageView) -> nat {
    match stage {
        StageView::ReadStaged { .. } => 6,
        StageView::ReadTree { .. } => 5,
        StageView::Build => 4,
        StageView::OpenTerminal { .. } => 3,
        StageView::Spawn => 2,
        StageView::WriteScript => 1,
        StageView::Wait => 0,
    }
}

/// An attempt ends: every answer either ends it or brings it to a later stage.
pub proof fn law_an_attempt_ends(a: AttemptView, event: AttemptEvent)
    requires
        answers_stage(a.stage, event),
    ensures
        next_view(a, event) matches NextView::Goes(b) ==> stages_left(b.stage) < stages_left(
            a.stage,
        ),
{
}

/// All of the time is there until the script is handed over, and there is never
/// more.
pub open spec fn keeps_time(a: AttemptView) -> bool {
    &&& a.left <= a.allowed
    &&& !(a.stage is Wait) ==> a.left == a.allowed
}

/// An attempt starts with all of its time.
pub proof fn law_an_attempt_starts_with_its_time(
    script: HookScript,
    source: Source,
    staged: Option<Seq<char>>,
    hooks_dir: Seq<char>,
    workspace: Seq<char>,
    terminal: Option<Seq<char>>,
    allowed: u128,
)
    ensures
        start_view(script, source, staged, hooks_dir, workspace, terminal, allowed) matches
            NextView::Goes(a) ==> a.allowed == allowed && a.left == allowed && keeps_time(a),
{
}

/// The time of an attempt only runs down.
pub proof fn law_time_only_runs_down(a: AttemptView, event: AttemptEvent)
    requires
        answers_stage(a.stage, event),
        keeps_time(a),
    ensures
        next_view(a, event) matches NextView::Goes(b) ==> keeps_time(b) && b.left <= a.left
            && b.allowed == a.allowed,
{
}

/// A run takes no more than its time, whether its interpreter is slow to read
/// the script, slow to end, or both: handing the script over and waiting each
/// end once what is left of the time is spent, and so they stay within the
/// time together. Under a budget they end by its deadline, and a run that is
/// out of time is killed.
pub proof fn law_write_and_wait_share_the_time(
    a: AttemptView,
    spent: u128,
    waited: u128,
    timeout: u128,
    deadline: Option<u128>,
    now: u128,
)
    requires
        a.stage is WriteScript,
        keeps_time(a),
        a.allowed == crate::hooks::time_allowed(timeout, deadline, now),
        !crate::hooks::is_spent(deadline, now),
        spent <= a.left,
        next_view(a, AttemptEvent::ScriptWritten(ScriptWrite::Done { spent })) matches
            NextView::Goes(b) && waited <= b.left,
    ensures
        spent + waited <= a.allowed <= timeout,
        deadline matches Some(d) ==> now + spent + waited <= d,
        next_view(a, AttemptEvent::ScriptWritten(ScriptWrite::TimedOut))->Ends_0.kill,
        ({
            let b = next_view(a, AttemptEvent::ScriptWritten(ScriptWrite::Done { spent }))->Goes_0;
            let end = next_view(b, AttemptEvent::Waited(HookWait::TimedOut))->Ends_0;
            &&& end.kill
            &&& end.status == crate::hooks::StatusView::TimedOut {
                after: a.allowed,
                budgeted: a.allowed < a.declared,
            }
        }),
{
}

/// A process is left to be killed only by an attempt that has started one, and
/// an attempt whose process exited by itself leaves none.
pub proof fn law_only_a_started_hook_is_killed(a: AttemptView, event: AttemptEvent)
    requires
        answers_stage(a.stage, event),
        next_view(a, event) is Ends,
    ensures
        next_view(a, event)->Ends_0.kill ==> a.stage is WriteScript || a.stage is Wait,
        event matches AttemptEvent::Waited(HookWait::Exited { .. })
            ==> !next_view(a, event)->Ends_0.kill,
{
}

/// No file outside the two directories is read: what an attempt asks for is a
/// contained path joined to the one, or, for a project, to the other.
pub proof fn law_scripts_are_read_inside_their_directories(
    script: HookScript,
    source: Source,
    staged: Option<Seq<char>>,
    hooks_dir: Seq<char>,
    workspace: Seq<char>,
    terminal: Option<Seq<char>>,
    allowed: u128,
)
    ensures
        start_view(script, source, staged, hooks_dir, workspace, terminal, allowed) matches
            NextView::Goes(a) ==> (a.stage matches StageView::ReadStaged { path, in_tree } ==> {
            &&& staged is Some
            &&& paths::stays_inside(staged->0)
            &&& path == paths::joined_path(hooks_dir, staged->0)
            &&& in_tree is Some ==> source is Project && paths::stays_inside(
                script.body->External_0@,
            ) && in_tree == Some(paths::joined_path(workspace, script.body->External_0@))
        }),
{
}

/// A hook has succeeded if and only if it exited with zero. One that exited with
/// anything else, or that a signal ended, has failed, with the very code that
/// was reported. Either way the process is gone.
pub proof fn law_a_hook_succeeds_only_by_exiting_with_zero(
    a: AttemptView,
    code: Option<i32>,
    stdout: Vec<u8>,
    stderr: Vec<u8>,
)
    requires
        a.stage is Wait,
    ensures
        next_view(a, AttemptEvent::Waited(HookWait::Exited { code, stdout, stderr })) is Ends,
        ({
            let end = next_view(
                a,
                AttemptEvent::Waited(HookWait::Exited { code, stdout, stderr }),
            )->Ends_0;
            &&& end.status is Succeeded <==> (code is Some && code->0 == 0)
            &&& !(end.status is Succeeded) ==> end.status is Failed && end.status->Failed_code
                == code
            &&& !end.kill
        }),
{
}

/// What [`HookAttempt::advance`] hands back of a hook that exited: success for
/// the code zero, and for any other the failure with that code.
pub proof fn law_an_exit_is_reported_as_it_was(
    a: HookAttempt,
    code: Option<i32>,
    stdout: Vec<u8>,
    stderr: Vec<u8>,
    next: AttemptNext,
)
    requires
        a@.stage is Wait,
        call_ensures(
            HookAttempt::advance,
            (a, AttemptEvent::Waited(HookWait::Exited { code, stdout, stderr })),
            next,
        ),
    ensures
        next is Ends,
        next->Ends_0.status is Succeeded <==> (code is Some && code->0 == 0),
        !(next->Ends_0.status is Succeeded) ==> next->Ends_0.status == (HookStatus::Failed { code }),
        !next->Ends_0.kill,
{
}

/// What a hook wrote is reported: a short output without errors is there as it
/// was, short errors without output too, and of both together the output comes
/// first and the errors start on a line of their own.
pub proof fn law_what_a_hook_wrote_is_reported(
    a: AttemptView,
    code: Option<i32>,
    stdout: Vec<u8>,
    stderr: Vec<u8>,
)
    requires
        a.stage is Wait,
        ({
            let out = text::lossy_text(stdout@);
            let err = text::lossy_text(stderr@);
            vstd::utf8::encode_utf8(out).len() <= 4096 && vstd::utf8::encode_utf8(out + err).len()
                <= 4096 && vstd::utf8::encode_utf8(out + seq!['\n'] + err).len() <= 4096
        }),
    ensures
        ({
            let out = text::lossy_text(stdout@);
            let err = text::lossy_text(stderr@);
            let told = next_view(
                a,
                AttemptEvent::Waited(HookWait::Exited { code, stdout, stderr }),
            )->Ends_0.output;
            &&& stderr@.len() == 0 ==> told == out
            &&& stderr@.len() > 0 && out.len() == 0 ==> told == err
            &&& stderr@.len() > 0 && out.len() > 0 && out.last() == '\n' ==> told == out + err
            &&& stderr@.len() > 0 && out.len() > 0 && out.last() != '\n' ==> told == out
                + seq!['\n'] + err
        }),
{
    let out = text::lossy_text(stdout@);
    let err = text::lossy_text(stderr@);
    assert(out.push('\n') =~= out + seq!['\n']);
    if out.len() == 0 {
        assert(out + err =~= err);
    }
}

/// A hook that could not be waited for, or whose time was up, is neither a
/// success nor a failure of its own. What was still running is killed, and the
/// time that is named is the one that it was given.
pub proof fn law_a_hook_that_did_not_exit_is_told_apart(
    a: AttemptView,
    e: String,
    event: AttemptEvent,
)
    requires
        a.stage is Wait,
    ensures
        next_view(a, AttemptEvent::Waited(HookWait::TimedOut)) is Ends,
        next_view(a, AttemptEvent::Waited(HookWait::TimedOut))->Ends_0.status == (
        crate::hooks::StatusView::TimedOut {
            after: a.allowed,
            budgeted: a.allowed < a.declared,
        }),
        next_view(a, AttemptEvent::Waited(HookWait::TimedOut))->Ends_0.kill,
        next_view(a, AttemptEvent::Waited(HookWait::Failed(e))) is Ends,
        next_view(a, AttemptEvent::Waited(HookWait::Failed(e)))->Ends_0.status == (
        crate::hooks::StatusView::NotRun { reason: "waiting: "@ + e@ }),
        answers_stage(a.stage, event) && next_view(a, event) is Ends && next_view(
            a,
            event,
        )->Ends_0.status is Succeeded ==> event is Waited && event->Waited_0 is Exited,
{
}

/// Before its process has exited, a hook can end only as not run, and then the
/// driver reported something that went wrong: what it said stands in the
/// reason.
pub proof fn law_a_hook_is_given_up_only_for_a_reason(a: AttemptView, event: AttemptEvent)
    requires
        answers_stage(a.stage, event),
        !(a.stage is Wait),
    ensures
        next_view(a, event) is Ends <==> match event {
            AttemptEvent::FileRead(FileRead::Contents(_)) => false,
            AttemptEvent::FileRead(FileRead::Failed(_)) => true,
            AttemptEvent::FileRead(FileRead::Missing(_)) => a.stage is ReadTree || (
            a.stage is ReadStaged && a.stage->ReadStaged_in_tree is None),
            AttemptEvent::CommandBuilt { error } => error is Some,
            AttemptEvent::TerminalOpened { opened } => !opened,
            AttemptEvent::Spawned { error } => error is Some,
            AttemptEvent::ScriptWritten(w) => !(w is Done),
            AttemptEvent::Waited(_) => true,
        },
        next_view(a, event) is Ends ==> {
            let end = next_view(a, event)->Ends_0;
            &&& end.status is NotRun
            &&& end.output.len() == 0
            &&& end.kill <==> a.stage is WriteScript
        },
        ({
            let reason = next_view(a, event)->Ends_0.status->NotRun_reason;
            let program = crate::hooks::interpreter_for(a.body).program;
            match event {
                AttemptEvent::FileRead(FileRead::Failed(e)) => {
                    &&& a.stage is ReadStaged ==> reason == "reading `"@
                        + a.stage->ReadStaged_path + "`: "@ + e@
                    &&& a.stage is ReadTree ==> reason == "script not staged, and reading `"@
                        + a.stage->ReadTree_path + "` from the workspace failed: "@ + e@
                },
                AttemptEvent::FileRead(FileRead::Missing(e)) => {
                    &&& a.stage is ReadStaged && a.stage->ReadStaged_in_tree is None ==> reason
                        == "no staged script at `"@ + a.stage->ReadStaged_path
                        + "` (was the hook-script upload skipped?)"@
                    &&& a.stage is ReadTree ==> reason == "script not staged, and reading `"@
                        + a.stage->ReadTree_path + "` from the workspace failed: "@ + e@
                },
                AttemptEvent::CommandBuilt { error: Some(e) } => reason
                    == "building the command for `"@ + program + "`: "@ + e@,
                AttemptEvent::TerminalOpened { opened: false } => reason
                    == "opening the session terminal `"@ + a.stage->OpenTerminal_path
                    + "` failed"@,
                AttemptEvent::Spawned { error: Some(e) } => reason == "spawning `"@ + program
                    + "`: "@ + e@,
                AttemptEvent::ScriptWritten(ScriptWrite::Failed(e)) => reason
                    == "writing the script to stdin: "@ + e@,
                AttemptEvent::ScriptWritten(ScriptWrite::TimedOut) => reason
                    == "the interpreter did not read its script within "@ + text::decimal_text(
                    (a.allowed / 1_000_000_000) as nat,
                ) + "s"@,
                _ => true,
            }
        }),
{
}

/// An attempt goes from stage to stage in one order: its script is read, its
/// command is built, the session's terminal is opened where there is one, the
/// command is started, the script is handed over, and the hook is waited for.
/// The script is the one that was read, and nothing else changes on the way but
/// the time that handing it over took.
pub proof fn law_an_attempt_goes_in_order(a: AttemptView, event: AttemptEvent)
    requires
        answers_stage(a.stage, event),
        next_view(a, event) is Goes,
    ensures
        ({
            let b = next_view(a, event)->Goes_0;
            &&& b.allowed == a.allowed
            &&& b.declared == a.declared
            &&& b.terminal == a.terminal
            &&& match event {
                AttemptEvent::FileRead(FileRead::Contents(bytes)) => b.stage is Build && b.body
                    == bytes@ && b.left == a.left,
                AttemptEvent::FileRead(FileRead::Missing(_)) => a.stage is ReadStaged && b.stage == (
                StageView::ReadTree { path: a.stage->ReadStaged_in_tree->0 }) && b.body == a.body
                    && b.left == a.left,
                AttemptEvent::CommandBuilt { .. } => {
                    &&& b.body == a.body
                    &&& b.left == a.left
                    &&& a.terminal is Some ==> b.stage == (StageView::OpenTerminal {
                        path: a.terminal->0,
                    })
                    &&& a.terminal is None ==> b.stage is Spawn
                },
                AttemptEvent::TerminalOpened { .. } => b.stage is Spawn && b.body == a.body
                    && b.left == a.left,
                AttemptEvent::Spawned { .. } => b.stage is WriteScript && b.body == a.body
                    && b.left == a.left,
                AttemptEvent::ScriptWritten(w) => {
                    &&& b.stage is Wait
                    &&& b.body == a.body
                    &&& w->Done_spent <= a.left ==> b.left + w->Done_spent == a.left
                    &&& w->Done_spent > a.left ==> b.left == 0
                },
                _ => false,
            }
        }),
{
}

/// An inline script is run as it is written. An external one needs a source that
/// has scripts staged, and paths that lead nowhere else; it is then read from
/// below the session's scripts and, for a project alone, looked for in the
/// workspace under the name that was declared.
pub proof fn law_an_attempt_starts_with_its_script(
    script: HookScript,
    source: Source,
    staged: Option<Seq<char>>,
    hooks_dir: Seq<char>,
    workspace: Seq<char>,
    terminal: Option<Seq<char>>,
    allowed: u128,
)
    ensures
        ({
            let next = start_view(
                script,
                source,
                staged,
                hooks_dir,
                workspace,
                terminal,
                allowed,
            );
            let a = next->Goes_0;
            &&& next is Goes ==> a.allowed == allowed && a.declared == script.timeout && a.terminal
                == terminal
            &&& script.body is Inline ==> next is Goes && a.stage is Build && a.body
                == vstd::utf8::encode_utf8(script.body->Inline_0@)
            &&& script.body is External ==> {
                &&& next is Goes <==> (staged is Some && paths::stays_inside(staged->0)
                    && paths::stays_inside(script.body->External_0@))
                &&& next is Goes ==> a.stage is ReadStaged && a.stage->ReadStaged_path
                    == paths::joined_path(hooks_dir, staged->0)
                &&& next is Goes && source is Project ==> a.stage->ReadStaged_in_tree == Some(
                    paths::joined_path(workspace, script.body->External_0@),
                )
                &&& next is Goes && !(source is Project) ==> a.stage->ReadStaged_in_tree is None
                &&& next is Ends ==> next->Ends_0.status is NotRun && !next->Ends_0.kill
                    && next->Ends_0.output.len() == 0
                &&& next is Ends && staged is None ==> next->Ends_0.status->NotRun_reason
                    == "this source cannot declare hook scripts"@
                &&& next is Ends && staged is Some ==> next->Ends_0.status->NotRun_reason
                    == "hook script path `"@ + staged->0
                    + "` escapes the session's staged-hooks directory"@
            }
        }),
{
}

/// What [`HookAttempt::start`] and [`HookAttempt::advance`] do is what is said of
/// an attempt here.
pub proof fn law_an_attempt_goes_as_stated(
    a: HookAttempt,
    event: AttemptEvent,
    next: AttemptNext,
    script: &HookScript,
    source: &Source,
    staged: Option<String>,
    hooks_dir: &str,
    workspace: &str,
    terminal: Option<String>,
    allowed: u128,
    first: AttemptNext,
)
    requires
        call_ensures(HookAttempt::advance, (a, event), next),
        call_ensures(
            HookAttempt::start,
            (script, source, staged, hooks_dir, workspace, terminal, allowed),
            first,
        ),
    ensures
        next@ == next_view(a@, event),
        first@ == start_view(
            *script,
            *source,
            match staged {
                Some(s) => Some(s@),
                None => None,
            },
            hooks_dir@,
            workspace@,
            match terminal {
                Some(t) => Some(t@),
                None => None,
            },
            allowed,
        ),
{
}

/// What an attempt tells of itself is what it is in: its stage, its script and
/// what runs that, the time that it was given, and what is left of it.
pub proof fn law_an_attempt_tells_what_it_is_in(
    a: &HookAttempt,
    stage: &AttemptStage,
    body: &Vec<u8>,
    allowed: u128,
    left: u128,
    interpreter: &Interpreter,
)
    requires
        a.wf(),
        call_ensures(HookAttempt::stage, (a,), stage),
        call_ensures(HookAttempt::body, (a,), body),
        call_ensures(HookAttempt::allowed, (a,), allowed),
        call_ensures(HookAttempt::time_left, (a,), left),
        call_ensures(HookAttempt::interpreter, (a,), interpreter),
    ensures
        stage@ == a@.stage,
        body@ == a@.body,
        allowed == a@.allowed,
        left == a@.left,
        interpreter@ == crate::hooks::interpreter_for(a@.body),
{
}

/// What a stage and an end say is what they were made of.
pub proof fn law_a_stage_says_what_it_was_made_of(
    end: AttemptEnd,
    a: HookAttempt,
    path: String,
    tree: Option<String>,
)
    ensures
        end@.status == end.status@,
        end@.output == end.output@,
        end@.kill == end.kill,
        AttemptNext::Ends(end)@ == NextView::Ends(end@),
        AttemptNext::Goes(a)@ == NextView::Goes(a@),
        (AttemptStage::ReadStaged { path, in_tree: tree })@ == (StageView::ReadStaged {
            path: path@,
            in_tree: match tree {
                Some(t) => Some(t@),
                None => None,
            },
        }),
        (AttemptStage::ReadTree { path })@ == (StageView::ReadTree { path: path@ }),
        (AttemptStage::OpenTerminal { path })@ == (StageView::OpenTerminal { path: path@ }),
        AttemptStage::Build@ is Build,
        AttemptStage::Spawn@ is Spawn,
        AttemptStage::WriteScript@ is WriteScript,
        AttemptStage::Wait@ is Wait,
{
}

} // verus!
