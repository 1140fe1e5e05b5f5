//! What a client is asked when the shell of its session has exited.
use vstd::prelude::*;
use vstd::string::*;

use crate::binding::ExitDisposition;
use crate::paths;
use crate::text;

verus! {

/// Header of the prompt that offers to keep or to delete the session.
pub const SHELL_EXIT_PROMPT: &'static str =
    "Session shell process exited. What would you like to do with this session?";

/// The line above the prompt when nothing in the workspace changed.
pub const SHELL_EXIT_NO_CHANGES: &'static str = "No files changed since activation.";

/// How many changed files are listed before the rest is only counted.
pub const DELTA_ROWS_SHOWN: usize = 10;

/// What an item of the prompt does.
#[derive(Clone, Copy, PartialEq, Eq, Structural, Debug)]
pub enum ExitChoice {
    Keep,
    SaveThenDelete,
    Delete,
}

/// The prompt: the words above it, its items and what each does, and where
/// changes are saved when there are any.
#[derive(Debug)]
pub struct ExitPrompt {
    pub intro: String,
    pub items: Vec<String>,
    pub choices: Vec<ExitChoice>,
    pub archive: Option<String>,
}

/// What an [`ExitPrompt`] says.
pub ghost struct PromptView {
    pub intro: Seq<char>,
    pub items: Seq<Seq<char>>,
    pub choices: Seq<ExitChoice>,
    pub archive: Option<Seq<char>>,
}

impl View for ExitPrompt {
    type V = PromptView;

    open spec fn view(&self) -> PromptView {
        PromptView {
            intro: self.intro@,
            items: text::texts(self.items@),
            choices: self.choices@,
            archive: text::optional(self.archive),
        }
    }
}

/// The ending that makes a plural.
pub open spec fn plural(n: nat) -> Seq<char> {
    if n == 1 {
        ""@
    } else {
        "s"@
    }
}

fn plural_end(n: usize) -> (s: &'static str)
    ensures
        s@ == plural(n as nat),
{
    if n == 1 {
        ""
    } else {
        "s"
    }
}

/// The first `n` rows, each on a line of its own.
pub open spec fn row_lines(rows: Seq<Seq<char>>, n: int) -> Seq<char>
    decreases n,
{
    if n <= 0 {
        Seq::empty()
    } else {
        row_lines(rows, n - 1) + ("  "@ + rows[n - 1] + "\r\n"@)
    }
}

/// The words above the prompt: what changed since activation, where that is
/// known, the first files by name and the rest by number.
pub open spec fn intro_text(changed: Option<Seq<Seq<char>>>) -> Seq<char> {
    "\r\n"@ + match changed {
        None => Seq::empty(),
        Some(rows) => if rows.len() == 0 {
            SHELL_EXIT_NO_CHANGES@ + "\r\n\r\n"@
        } else {
            let shown = if rows.len() < DELTA_ROWS_SHOWN { rows.len() as int } else {
                DELTA_ROWS_SHOWN as int
            };
            text::decimal_text(rows.len()) + " file"@ + plural(rows.len())
                + " changed since activation:\r\n"@ + row_lines(rows, shown) + (if rows.len()
                > DELTA_ROWS_SHOWN {
                "  ... and "@ + text::decimal_text((rows.len() - DELTA_ROWS_SHOWN) as nat)
                    + " more\r\n"@
            } else {
                Seq::empty()
            }) + "\r\n"@
        },
    }
}

/// The file that changes are saved in.
pub open spec fn archive_path(dir: Seq<char>, name: Seq<char>, stamp: Seq<char>) -> Seq<char> {
    paths::joined_path(dir, name + "-"@ + stamp + ".tar.zst"@)
}

/// The item that deletes the session.
pub open spec fn delete_item(changed: Option<Seq<Seq<char>>>) -> Seq<char> {
    if changed is Some && changed->0.len() == 0 {
        "Delete, all in-session files permanently deleted"@ + " — nothing will be lost"@
    } else {
        "Delete, all in-session files permanently deleted"@
    }
}

/// Whether there are changes that could be saved.
pub open spec fn has_changes(changed: Option<Seq<Seq<char>>>) -> bool {
    changed is Some && changed->0.len() > 0
}

/// The prompt for what changed: keep, delete, and, where there is something to
/// save, save first.
pub open spec fn prompt_view(
    changed: Option<Seq<Seq<char>>>,
    dir: Seq<char>,
    name: Seq<char>,
    stamp: Seq<char>,
) -> PromptView {
    let keep = "Exit, leaving the session filesystem in place and recoverable"@;
    let dest = archive_path(dir, name, stamp);
    if has_changes(changed) {
        PromptView {
            intro: intro_text(changed),
            items: seq![
                keep,
                "Save changes to "@ + dest + ", then delete"@,
                delete_item(changed),
            ],
            choices: seq![ExitChoice::Keep, ExitChoice::SaveThenDelete, ExitChoice::Delete],
            archive: Some(dest),
        }
    } else {
        PromptView {
            intro: intro_text(changed),
            items: seq![keep, delete_item(changed)],
            choices: seq![ExitChoice::Keep, ExitChoice::Delete],
            archive: None,
        }
    }
}

/// The texts of an optional list.
pub open spec fn optional_rows(rows: Option<&Vec<String>>) -> Option<Seq<Seq<char>>> {
    match rows {
        Some(r) => Some(text::texts(r@)),
        None => None,
    }
}

/// Writes the words above the prompt.
fn intro(changed: Option<&Vec<String>>) -> (out: String)
    ensures
        out@ == intro_text(optional_rows(changed)),
{
    let mut out = "\r\n".to_owned();
    match changed {
        None => {
            assert(out@ =~= intro_text(optional_rows(changed)));
        },
        Some(rows) => {
            let n = rows.len();
            if n == 0 {
                out.append(SHELL_EXIT_NO_CHANGES);
                out.append("\r\n\r\n");
                assert(out@ =~= intro_text(optional_rows(changed)));
            } else {
                let ghost all = text::texts(rows@);
                out.append(text::decimal(n as u128).as_str());
                out.append(" file");
                out.append(plural_end(n));
                out.append(" changed since activation:\r\n");
                let shown: usize = if n < DELTA_ROWS_SHOWN {
                    n
                } else {
                    DELTA_ROWS_SHOWN
                };
                let ghost head = out@;
                let mut i: usize = 0;
                assert(head + row_lines(all, 0) =~= head);
                while i < shown
                    invariant
                        i <= shown <= n,
                        n == rows@.len(),
                        all == text::texts(rows@),
                        out@ == head + row_lines(all, i as int),
                    decreases shown - i,
                {
                    let line = text::cat3("  ", rows[i].as_str(), "\r\n");
                    out.append(line.as_str());
                    assert(out@ =~= head + row_lines(all, i + 1));
                    i = i + 1;
                }
                let ghost listed = out@;
                if n > DELTA_ROWS_SHOWN {
                    out.append("  ... and ");
                    out.append(text::decimal((n - DELTA_ROWS_SHOWN) as u128).as_str());
                    out.append(" more\r\n");
                }
                out.append("\r\n");
                assert(out@ =~= intro_text(optional_rows(changed)));
            }
        },
    }
    out
}

/// Makes the prompt for what changed, with the time that names an archive.
pub fn exit_prompt_at(changed: Option<&Vec<String>>, dir: &str, name: &str, stamp: &str) -> (prompt:
    ExitPrompt)
    ensures
        prompt@ == prompt_view(optional_rows(changed), dir@, name@, stamp@),
{
    let mut items: Vec<String> = Vec::new();
    let mut choices: Vec<ExitChoice> = Vec::new();
    items.push("Exit, leaving the session filesystem in place and recoverable".to_owned());
    choices.push(ExitChoice::Keep);
    let mut delete = "Delete, all in-session files permanently deleted".to_owned();
    let mut archive: Option<String> = None;
    match changed {
        Some(rows) => {
            if rows.len() == 0 {
                delete.append(" — nothing will be lost");
            } else {
                let file = text::cat4(name, "-", stamp, ".tar.zst");
                let dest = paths::join(dir, file.as_str());
                items.push(text::cat3("Save changes to ", dest.as_str(), ", then delete"));
                choices.push(ExitChoice::SaveThenDelete);
                archive = Some(dest);
            }
        },
        None => {},
    }
    items.push(delete);
    choices.push(ExitChoice::Delete);
    let prompt = ExitPrompt { intro: intro(changed), items, choices, archive };
    proof {
        let said = prompt_view(optional_rows(changed), dir@, name@, stamp@);
        assert(prompt@.items =~= said.items);
        assert(prompt@.choices =~= said.choices);
    }
    prompt
}

/// How the time is written in the name of an archive: year, month, day, `T`,
/// hours, minutes, seconds and `Z`.
pub const STAMP_FORMAT: &'static str = "%Y%m%dT%H%M%SZ";

/// Whether the characters from `from` up to `to` are decimal digits.
pub open spec fn are_digits(s: Seq<char>, from: int, to: int) -> bool {
    forall|i: int| from <= i < to ==> '0' <= #[trigger] s[i] <= '9'
}

/// Whether a text is a year as it is written in a stamp: four digits, or, after
/// the year 9999, a plus sign and five or six.
pub open spec fn is_year(year: Seq<char>) -> bool {
    ||| year.len() == 4 && are_digits(year, 0, 4)
    ||| 6 <= year.len() <= 7 && year[0] == '+' && are_digits(year, 1, year.len() as int)
}

/// Whether a text can be the time in the name of an archive: a year, four digits
/// for the month and the day, a `T`, six digits for the time of the day, and a
/// `Z`.
pub open spec fn is_stamp(stamp: Seq<char>) -> bool {
    let year = stamp.len() - 12;
    &&& year >= 4
    &&& is_year(stamp.take(year))
    &&& are_digits(stamp, year, year + 4)
    &&& stamp[year + 4] == 'T'
    &&& are_digits(stamp, year + 5, year + 11)
    &&& stamp[year + 11] == 'Z'
}

/// `chrono::Utc::now().format(..)`, with [`STAMP_FORMAT`]. The time decides
/// which digits they are. A year is written with at least four; one after 9999,
/// of which the crate knows up to 262142, with a plus sign before it.
#[verifier::external_body]
fn utc_stamp(format: &str) -> (stamp: String)
    requires
        format@ == STAMP_FORMAT@,
    ensures
        is_stamp(stamp@),
{
    chrono::Utc::now().format(format).to_string()
}

/// Makes the prompt for what changed, naming an archive after the time.
pub fn exit_prompt(changed: Option<&Vec<String>>, dir: &str, name: &str) -> (prompt: ExitPrompt)
    ensures
        exists|stamp: Seq<char>|
            prompt@ == #[trigger] prompt_view(optional_rows(changed), dir@, name@, stamp)
                && is_stamp(stamp),
        !has_changes(optional_rows(changed)) ==> prompt@ == prompt_view(
            optional_rows(changed),
            dir@,
            name@,
            Seq::empty(),
        ),
{
    let stamp = utc_stamp(STAMP_FORMAT);
    exit_prompt_at(changed, dir, name, stamp.as_str())
}

/// What is said before changed files are saved.
pub open spec fn saving_text(n: nat, dest: Seq<char>) -> Seq<char> {
    "\r\nSaving "@ + text::decimal_text(n) + " changed file"@ + plural(n) + " -> "@ + dest
        + "\r\n"@
}

/// Begins to save the changes to `dest`: says what is said, or why nothing can
/// be saved. `files` is what changed, where the workspace could be walked.
pub fn save_changes(detects_changes: bool, files: Option<&Vec<String>>, dest: &str) -> (said: Result<
    String,
    String,
>)
    ensures
        match said {
            Ok(words) => detects_changes && files is Some && words@ == saving_text(
                files->0@.len(),
                dest@,
            ),
            Err(why) => {
                ||| !detects_changes && why@ == "workspace change detection is unavailable"@
                ||| detects_changes && files is None && why@
                    == "the workspace could not be re-walked"@
            },
        },
{
    if !detects_changes {
        return Err("workspace change detection is unavailable".to_owned());
    }
    match files {
        None => Err("the workspace could not be re-walked".to_owned()),
        Some(files) => {
            let n = files.len();
            let mut words = "\r\nSaving ".to_owned();
            words.append(text::decimal(n as u128).as_str());
            words.append(" changed file");
            words.append(plural_end(n));
            words.append(" -> ");
            words.append(dest);
            words.append("\r\n");
            Ok(words)
        },
    }
}

/// What the driver of the prompt has done.
#[derive(Debug)]
pub enum PromptEvent {
    /// The client picked this item.
    Selected(usize),
    /// The client picked none.
    Cancelled,
    /// The client could not be asked.
    Failed,
    /// Saving the changes ended, with an error or without.
    Saved { error: Option<String> },
    /// Destroying the session ended, with an error or without.
    Destroyed { error: Option<String> },
}

/// What the driver of the prompt waits for.
#[derive(Clone, Copy, PartialEq, Eq, Structural, Debug)]
pub enum PromptStage {
    /// The client's choice.
    Asking,
    /// The changes being saved.
    Saving,
    /// The session being destroyed.
    Destroying,
}

/// What the driver of the prompt does next.
#[derive(Clone, Copy, PartialEq, Eq, Structural, Debug)]
pub enum PromptNext {
    /// Ask the client, or ask again.
    Ask,
    /// Save the changes to the archive.
    Save,
    /// Destroy the session.
    Destroy,
    /// Leave, with this settled.
    Leave(ExitDisposition),
}

/// What an event comes to: words for the client, and what to do.
#[derive(Debug)]
pub struct PromptStep {
    pub say: Option<String>,
    pub next: PromptNext,
}

/// Whether an event can follow in a stage.
pub open spec fn prompt_expects(stage: PromptStage, event: PromptEvent, choices: Seq<ExitChoice>) -> bool {
    match event {
        PromptEvent::Selected(i) => stage == PromptStage::Asking && i < choices.len(),
        PromptEvent::Cancelled => stage == PromptStage::Asking,
        PromptEvent::Failed => stage == PromptStage::Asking,
        PromptEvent::Saved { .. } => stage == PromptStage::Saving,
        PromptEvent::Destroyed { .. } => stage == PromptStage::Destroying,
    }
}

/// The session is to be deleted, where there is someone to do it; else it stays.
pub open spec fn deletes(has_control: bool) -> (Option<Seq<char>>, PromptNext) {
    if has_control {
        (Some("\r\nDeleting session...\r\n"@), PromptNext::Destroy)
    } else {
        (None, PromptNext::Leave(ExitDisposition::Kept))
    }
}

/// What an event comes to. Only a client that picks deletion, after a save that
/// worked where it asked for one, ends the session; everything else keeps it.
pub open spec fn prompt_step(event: PromptEvent, choices: Seq<ExitChoice>, has_control: bool) -> (Option<Seq<char>>, PromptNext) {
    match event {
        PromptEvent::Selected(i) => match choices[i as int] {
            ExitChoice::Keep => (None, PromptNext::Leave(ExitDisposition::Kept)),
            ExitChoice::SaveThenDelete => (None, PromptNext::Save),
            ExitChoice::Delete => deletes(has_control),
        },
        PromptEvent::Cancelled => (None, PromptNext::Leave(ExitDisposition::Kept)),
        PromptEvent::Failed => (None, PromptNext::Leave(ExitDisposition::Kept)),
        PromptEvent::Saved { error } => match error {
            None => deletes(has_control),
            Some(e) => (
                Some("Failed to save changes: "@ + e@ + "\r\n\r\n"@),
                PromptNext::Ask,
            ),
        },
        PromptEvent::Destroyed { error } => match error {
            None => (None, PromptNext::Leave(ExitDisposition::Destroyed)),
            Some(e) => (
                Some("Failed to delete session: "@ + e@ + "\r\n"@),
                PromptNext::Leave(ExitDisposition::Kept),
            ),
        },
    }
}

/// The stage that an answer leads to.
pub open spec fn stage_after(next: PromptNext) -> PromptStage {
    match next {
        PromptNext::Save => PromptStage::Saving,
        PromptNext::Destroy => PromptStage::Destroying,
        _ => PromptStage::Asking,
    }
}

/// The prompt after a shell's exit, under way.
pub struct ShellExit {
    prompt: ExitPrompt,
    has_control: bool,
    stage: PromptStage,
}

impl ShellExit {
    /// The prompt that the client is shown.
    pub closed spec fn prompt(&self) -> PromptView {
        self.prompt@
    }

    /// What is waited for.
    pub closed spec fn stage(&self) -> PromptStage {
        self.stage
    }

    /// Whether there is someone to destroy the session.
    pub closed spec fn controls(&self) -> bool {
        self.has_control
    }

    /// Starts to ask.
    pub fn new(prompt: ExitPrompt, has_control: bool) -> (s: Self)
        ensures
            s.prompt() == prompt@,
            s.controls() == has_control,
            s.stage() == PromptStage::Asking,
    {
        ShellExit { prompt, has_control, stage: PromptStage::Asking }
    }

    /// The prompt that the client is shown.
    pub fn shown(&self) -> (prompt: &ExitPrompt)
        ensures
            prompt@ == self.prompt(),
    {
        &self.prompt
    }

    fn delete(&self) -> (step: PromptStep)
        ensures
            (text::optional(step.say), step.next) == deletes(self.controls()),
    {
        if self.has_control {
            PromptStep {
                say: Some("\r\nDeleting session...\r\n".to_owned()),
                next: PromptNext::Destroy,
            }
        } else {
            PromptStep { say: None, next: PromptNext::Leave(ExitDisposition::Kept) }
        }
    }

    /// Takes what the driver has done.
    pub fn step(&mut self, event: PromptEvent) -> (step: PromptStep)
        requires
            prompt_expects(old(self).stage(), event, old(self).prompt().choices),
        ensures
            (text::optional(step.say), step.next) == prompt_step(
                event,
                old(self).prompt().choices,
                old(self).controls(),
            ),
            final(self).stage() == stage_after(step.next),
            final(self).prompt() == old(self).prompt(),
            final(self).controls() == old(self).controls(),
    {
        let step = match event {
            PromptEvent::Selected(i) => match self.prompt.choices[i] {
                ExitChoice::Keep => PromptStep {
                    say: None,
                    next: PromptNext::Leave(ExitDisposition::Kept),
                },
                ExitChoice::SaveThenDelete => PromptStep { say: None, next: PromptNext::Save },
                ExitChoice::Delete => self.delete(),
            },
            PromptEvent::Cancelled | PromptEvent::Failed => PromptStep {
                say: None,
                next: PromptNext::Leave(ExitDisposition::Kept),
            },
            PromptEvent::Saved { error } => match error {
                None => self.delete(),
                Some(e) => PromptStep {
                    say: Some(text::cat3("Failed to save changes: ", e.as_str(), "\r\n\r\n")),
                    next: PromptNext::Ask,
                },
            },
            PromptEvent::Destroyed { error } => match error {
                None => PromptStep {
                    say: None,
                    next: PromptNext::Leave(ExitDisposition::Destroyed),
                },
                Some(e) => PromptStep {
                    say: Some(text::cat3("Failed to delete session: ", e.as_str(), "\r\n")),
                    next: PromptNext::Leave(ExitDisposition::Kept),
                },
            },
        };
        self.stage = match step.next {
            PromptNext::Save => PromptStage::Saving,
            PromptNext::Destroy => PromptStage::Destroying,
            _ => PromptStage::Asking,
        };
        step
    }
}

/// The items of a prompt and what they do go together: the first keeps, the
/// last deletes, and one saves first exactly where there is something to save.
pub proof fn law_items_match_choices(
    changed: Option<Seq<Seq<char>>>,
    dir: Seq<char>,
    name: Seq<char>,
    stamp: Seq<char>,
)
    ensures
        ({
            let p = prompt_view(changed, dir, name, stamp);
            &&& p.items.len() == p.choices.len()
            &&& p.choices.first() == ExitChoice::Keep
            &&& p.choices.last() == ExitChoice::Delete
            &&& p.choices.contains(ExitChoice::SaveThenDelete) <==> has_changes(changed)
            &&& p.archive is Some <==> has_changes(changed)
        }),
{
    let p = prompt_view(changed, dir, name, stamp);
    if has_changes(changed) {
        assert(p.choices[1] == ExitChoice::SaveThenDelete);
    }
}

/// A session is destroyed only on request: where the client picked the item
/// that deletes, or where the save that it asked for has worked.
pub proof fn law_deletion_follows_a_choice_or_a_confirmed_save(
    stage: PromptStage,
    event: PromptEvent,
    choices: Seq<ExitChoice>,
    has_control: bool,
)
    requires
        prompt_expects(stage, event, choices),
        prompt_step(event, choices, has_control).1 == PromptNext::Destroy,
    ensures
        has_control,
        (event matches PromptEvent::Selected(i) && choices[i as int] == ExitChoice::Delete) || (
        stage == PromptStage::Saving && event matches PromptEvent::Saved { error: None }),
{
}

/// A client that goes away, or cannot be asked, keeps its session; so does a
/// failed save, which asks again.
pub proof fn law_silence_keeps_the_session(choices: Seq<ExitChoice>, has_control: bool, why: String)
    ensures
        prompt_step(PromptEvent::Cancelled, choices, has_control).1 == PromptNext::Leave(
            ExitDisposition::Kept,
        ),
        prompt_step(PromptEvent::Failed, choices, has_control).1 == PromptNext::Leave(
            ExitDisposition::Kept,
        ),
        prompt_step(PromptEvent::Saved { error: Some(why) }, choices, has_control).1
            == PromptNext::Ask,
        prompt_step(PromptEvent::Destroyed { error: Some(why) }, choices, has_control).1
            == PromptNext::Leave(ExitDisposition::Kept),
{
}

/// Each item does what it says. Keeping leaves at once, says nothing and keeps
/// the session, whoever controls it; changes are saved if and only if the item
/// is the one that saves them; and deleting destroys the session where there is
/// someone to do it, and keeps it where there is not.
pub proof fn law_each_choice_does_what_it_says(
    choices: Seq<ExitChoice>,
    i: usize,
    has_control: bool,
)
    requires
        i < choices.len(),
    ensures
        ({
            let (say, next) = prompt_step(PromptEvent::Selected(i), choices, has_control);
            &&& choices[i as int] == ExitChoice::Keep ==> say is None && next == PromptNext::Leave(
                ExitDisposition::Kept,
            )
            &&& next == PromptNext::Save <==> choices[i as int] == ExitChoice::SaveThenDelete
            &&& next == PromptNext::Destroy <==> choices[i as int] == ExitChoice::Delete
                && has_control
            &&& choices[i as int] == ExitChoice::Delete && !has_control ==> next
                == PromptNext::Leave(ExitDisposition::Kept)
            &&& next != PromptNext::Ask
            &&& next != PromptNext::Leave(ExitDisposition::Destroyed)
        }),
{
}

/// What the driver reports decides how the prompt ends. A save that worked goes
/// on to the destruction, and one that failed asks again, with the reason; the
/// session counts as destroyed if and only if its destruction worked, and else
/// is kept, again with the reason.
pub proof fn law_reports_decide_the_end(
    event: PromptEvent,
    choices: Seq<ExitChoice>,
    has_control: bool,
)
    requires
        event matches PromptEvent::Selected(i) ==> i < choices.len(),
    ensures
        ({
            let (say, next) = prompt_step(event, choices, has_control);
            &&& next == PromptNext::Leave(ExitDisposition::Destroyed) <==> (event
                matches PromptEvent::Destroyed { error: None })
            &&& next == PromptNext::Ask <==> (event matches PromptEvent::Saved { error: Some(_) })
            &&& event matches PromptEvent::Saved { error: None } ==> next == (if has_control {
                PromptNext::Destroy
            } else {
                PromptNext::Leave(ExitDisposition::Kept)
            })
            &&& event matches PromptEvent::Saved { error: Some(e) } ==> say is Some && exists|
                head: Seq<char>,
                tail: Seq<char>,
            | #[trigger] (head + e@ + tail) == say->0
            &&& event matches PromptEvent::Destroyed { error: Some(e) } ==> next
                == PromptNext::Leave(ExitDisposition::Kept) && say is Some && exists|
                head: Seq<char>,
                tail: Seq<char>,
            | #[trigger] (head + e@ + tail) == say->0
            &&& next == PromptNext::Destroy ==> say is Some
        }),
{
    match event {
        PromptEvent::Saved { error: Some(e) } => {
            assert("Failed to save changes: "@ + e@ + "\r\n\r\n"@ == prompt_step(
                event,
                choices,
                has_control,
            ).0->0);
        },
        PromptEvent::Destroyed { error: Some(e) } => {
            assert("Failed to delete session: "@ + e@ + "\r\n"@ == prompt_step(
                event,
                choices,
                has_control,
            ).0->0);
        },
        _ => {},
    }
}

/// Whether the client picked an item that does this.
pub open spec fn picks(event: PromptEvent, choices: Seq<ExitChoice>, choice: ExitChoice) -> bool {
    event matches PromptEvent::Selected(i) && choices[i as int] == choice
}

/// A run of the prompt: what was waited for and what the driver reported, in
/// order. It begins with asking, each report is one that can be made, and it
/// goes on until it is left.
pub open spec fn is_prompting(
    steps: Seq<(PromptStage, PromptEvent)>,
    choices: Seq<ExitChoice>,
    has_control: bool,
) -> bool {
    &&& steps.len() > 0
    &&& steps[0].0 == PromptStage::Asking
    &&& forall|i: int|
        0 <= i < steps.len() ==> prompt_expects((#[trigger] steps[i]).0, steps[i].1, choices)
    &&& forall|i: int|
        0 < i < steps.len() ==> #[trigger] waits_for_what_was_asked(steps, i, choices, has_control)
}

/// What a step of a run waits for is what the step before it led to.
pub open spec fn waits_for_what_was_asked(
    steps: Seq<(PromptStage, PromptEvent)>,
    i: int,
    choices: Seq<ExitChoice>,
    has_control: bool,
) -> bool {
    steps[i].0 == stage_after(prompt_step(steps[i - 1].1, choices, has_control).1)
}

/// In every run of the prompt, the session is destroyed only for a client that
/// picked the item that deletes, or that picked the one that saves first and
/// whose changes were saved then; and only where there is someone to do it.
pub proof fn law_only_a_client_ends_its_session(
    steps: Seq<(PromptStage, PromptEvent)>,
    choices: Seq<ExitChoice>,
    has_control: bool,
)
    requires
        is_prompting(steps, choices, has_control),
        steps.last().1 matches PromptEvent::Destroyed { .. },
    ensures
        has_control,
        steps.len() >= 2,
        ({
            let n = steps.len() - 2;
            ||| picks(steps[n].1, choices, ExitChoice::Delete)
            ||| n >= 1 && (steps[n].1 matches PromptEvent::Saved { error: None }) && picks(
                steps[n - 1].1,
                choices,
                ExitChoice::SaveThenDelete,
            )
        }),
{
    let last = steps.len() - 1;
    assert(prompt_expects(steps[last].0, steps[last].1, choices));
    assert(last > 0);
    let n = last - 1;
    assert(waits_for_what_was_asked(steps, n + 1, choices, has_control));
    assert(prompt_expects(steps[n].0, steps[n].1, choices));
    if !(steps[n].1 is Selected) {
        assert(n > 0);
        assert(waits_for_what_was_asked(steps, n, choices, has_control));
        assert(prompt_expects(steps[n - 1].0, steps[n - 1].1, choices));
    }
}

/// What the prompt offers: to keep the session first and to delete it last, and
/// between them, where files changed, to save them to the archive, which the
/// item names. The archive is a file in the directory, named by the session and
/// the time.
pub proof fn law_the_prompt_offers_what_it_can_do(
    changed: Option<Seq<Seq<char>>>,
    dir: Seq<char>,
    name: Seq<char>,
    stamp: Seq<char>,
)
    ensures
        ({
            let p = prompt_view(changed, dir, name, stamp);
            let some = changed is Some && changed->0.len() > 0;
            &&& p.choices == (if some {
                seq![ExitChoice::Keep, ExitChoice::SaveThenDelete, ExitChoice::Delete]
            } else {
                seq![ExitChoice::Keep, ExitChoice::Delete]
            })
            &&& p.items.len() == p.choices.len()
            &&& p.items[0] == "Exit, leaving the session filesystem in place and recoverable"@
            &&& "Delete, all in-session files permanently deleted"@.is_prefix_of(p.items.last())
            &&& p.items.last() == "Delete, all in-session files permanently deleted"@ <==> !(changed
                is Some && changed->0.len() == 0)
            &&& p.archive is Some <==> some
            &&& some ==> p.items[1] == "Save changes to "@ + p.archive->0 + ", then delete"@
            &&& some && dir.len() > 0 && dir.last() != '/' && name.len() > 0 && name[0] != '/'
                ==> p.archive->0 == dir + seq!['/'] + name + seq!['-'] + stamp + ".tar.zst"@
        }),
{
    let p = prompt_view(changed, dir, name, stamp);
    let plain = "Delete, all in-session files permanently deleted"@;
    assert(plain.is_prefix_of(plain + " — nothing will be lost"@)) by {
        assert((plain + " — nothing will be lost"@).subrange(0, plain.len() as int) =~= plain);
    }
    assert(plain.is_prefix_of(plain)) by {
        assert(plain.subrange(0, plain.len() as int) =~= plain);
    }
    reveal_strlit(" — nothing will be lost");
    assert(" — nothing will be lost"@.len() > 0);
    assert((plain + " — nothing will be lost"@).len() != plain.len());
    reveal_strlit("-");
    assert("-"@ =~= seq!['-']);
    if changed is Some && changed->0.len() > 0 && dir.len() > 0 && dir.last() != '/' && name.len()
        > 0 && name[0] != '/' {
        let rel = name + "-"@ + stamp + ".tar.zst"@;
        assert(rel[0] == name[0]);
        assert(p.archive->0 =~= dir + seq!['/'] + name + seq!['-'] + stamp + ".tar.zst"@);
    }
}

/// The words above the prompt tell how many files changed, name the first ten of
/// them, each on its line and in order, and count those beyond; where nothing is
/// known, nothing is said, and where nothing changed, just that.
pub proof fn law_the_intro_tells_what_changed(rows: Seq<Seq<char>>, i: int)
    requires
        0 <= i < rows.len(),
        i < 10,
    ensures
        exists|head: Seq<char>, tail: Seq<char>|
            #[trigger] (head + ("  "@ + rows[i] + "\r\n"@) + tail) == intro_text(Some(rows)),
        ("\r\n"@ + text::decimal_text(rows.len()) + " file"@).is_prefix_of(intro_text(Some(rows))),
        rows.len() > 10 ==> ("  ... and "@ + text::decimal_text((rows.len() - 10) as nat)
            + " more\r\n\r\n"@).is_suffix_of(intro_text(Some(rows))),
        intro_text(None) == "\r\n"@,
        intro_text(Some(Seq::empty())) == "\r\n"@ + "No files changed since activation."@
            + "\r\n\r\n"@,
{
    let n = rows.len();
    let shown = if n < 10 { n as int } else { 10int };
    let intro = intro_text(Some(rows));
    let count = text::decimal_text(n) + " file"@ + plural(n) + " changed since activation:\r\n"@;
    let more = if n > 10 {
        "  ... and "@ + text::decimal_text((n - 10) as nat) + " more\r\n"@
    } else {
        Seq::empty()
    };
    lemma_row_lines_hold(rows, shown, i);
    let line = "  "@ + rows[i] + "\r\n"@;
    let (a, b) = choose|a: Seq<char>, b: Seq<char>|
        #[trigger] (a + line + b) == row_lines(rows, shown);
    assert(intro =~= "\r\n"@ + count + row_lines(rows, shown) + more + "\r\n"@);
    assert(("\r\n"@ + count + a) + line + (b + more + "\r\n"@) =~= intro);
    let start = "\r\n"@ + text::decimal_text(n) + " file"@;
    assert(start =~= intro.subrange(0, start.len() as int));
    if n > 10 {
        reveal_strlit(" more\r\n");
        reveal_strlit("\r\n");
        reveal_strlit(" more\r\n\r\n");
        assert(" more\r\n\r\n"@ =~= " more\r\n"@ + "\r\n"@);
        let end = "  ... and "@ + text::decimal_text((n - 10) as nat) + " more\r\n\r\n"@;
        assert(end =~= more + "\r\n"@);
        assert(end =~= intro.subrange(intro.len() - end.len(), intro.len() as int));
    }
    assert(intro_text(None) =~= "\r\n"@);
    assert(intro_text(Some(Seq::empty())) =~= "\r\n"@ + "No files changed since activation."@
        + "\r\n\r\n"@);
}

proof fn lemma_row_lines_hold(rows: Seq<Seq<char>>, n: int, i: int)
    requires
        0 <= i < n <= rows.len(),
    ensures
        exists|a: Seq<char>, b: Seq<char>|
            #[trigger] (a + ("  "@ + rows[i] + "\r\n"@) + b) == row_lines(rows, n),
    decreases n,
{
    let line = "  "@ + rows[i] + "\r\n"@;
    if i == n - 1 {
        let a = row_lines(rows, n - 1);
        assert(a + line + Seq::empty() =~= row_lines(rows, n));
    } else {
        lemma_row_lines_hold(rows, n - 1, i);
        let (a, b) = choose|a: Seq<char>, b: Seq<char>|
            #[trigger] (a + line + b) == row_lines(rows, n - 1);
        let last = "  "@ + rows[n - 1] + "\r\n"@;
        assert(a + line + (b + last) =~= row_lines(rows, n));
    }
}

/// Saving says how many files go where, and is refused only where changes cannot
/// be told or the workspace could not be walked again.
pub proof fn law_saving_names_its_archive(
    detects_changes: bool,
    files: Option<&Vec<String>>,
    dest: &str,
    said: Result<String, String>,
)
    requires
        call_ensures(save_changes, (detects_changes, files, dest), said),
    ensures
        said is Ok <==> detects_changes && files is Some,
        said matches Ok(words) ==> exists|head: Seq<char>, tail: Seq<char>|
            #[trigger] (head + dest@ + tail) == words@,
        said matches Ok(words) ==> ("\r\nSaving "@ + text::decimal_text(files->0@.len())).is_prefix_of(
            words@,
        ),
{
    if said is Ok {
        let n = files->0@.len();
        let words = said->Ok_0@;
        let head = "\r\nSaving "@ + text::decimal_text(n) + " changed file"@ + plural(n) + " -> "@;
        assert(head + dest@ + "\r\n"@ =~= words);
        let start = "\r\nSaving "@ + text::decimal_text(n);
        assert(start =~= words.subrange(0, start.len() as int));
    }
}

/// What the client is told on the way: that its session is being deleted as that
/// begins, what a save or a deletion failed of, and nothing else.
pub proof fn law_the_client_is_told_what_happens(
    event: PromptEvent,
    choices: Seq<ExitChoice>,
    has_control: bool,
)
    requires
        event matches PromptEvent::Selected(i) ==> i < choices.len(),
    ensures
        ({
            let (say, next) = prompt_step(event, choices, has_control);
            &&& next is Destroy ==> say == Some("\r\nDeleting session...\r\n"@)
            &&& event is Saved && event->Saved_error is Some ==> say == Some(
                "Failed to save changes: "@ + event->Saved_error->0@ + "\r\n\r\n"@,
            )
            &&& event is Destroyed && event->Destroyed_error is Some ==> say == Some(
                "Failed to delete session: "@ + event->Destroyed_error->0@ + "\r\n"@,
            )
            &&& say is Some <==> next is Destroy || (event is Saved && event->Saved_error is Some)
                || (event is Destroyed && event->Destroyed_error is Some)
        }),
{
}

/// The words above the prompt, where files changed: their number, the first ten
/// by name in their order, each on a line of its own and once, and the number of
/// those that are left.
pub proof fn law_the_intro_in_full(rows: Seq<Seq<char>>)
    requires
        rows.len() > 0,
    ensures
        ({
            let shown = if rows.len() > 10 { 10nat } else { rows.len() };
            let lines = Seq::new(shown, |i: int| "  "@ + rows[i] + "\r\n"@);
            let more = if rows.len() > 10 {
                "  ... and "@ + text::decimal_text((rows.len() - 10) as nat) + " more\r\n"@
            } else {
                Seq::empty()
            };
            intro_text(Some(rows)) == "\r\n"@ + (text::decimal_text(rows.len()) + " file"@ + (
            if rows.len() == 1 {
                ""@
            } else {
                "s"@
            }) + " changed since activation:\r\n"@ + text::joined(lines, Seq::empty()) + more
                + "\r\n"@)
        }),
{
    let shown = if rows.len() > 10 { 10nat } else { rows.len() };
    lemma_lines_in_a_row(rows, shown as int);
}

proof fn lemma_lines_in_a_row(rows: Seq<Seq<char>>, n: int)
    requires
        0 <= n <= rows.len(),
    ensures
        row_lines(rows, n) == text::joined(
            Seq::new(n as nat, |i: int| "  "@ + rows[i] + "\r\n"@),
            Seq::empty(),
        ),
    decreases n,
{
    let lines = Seq::new(n as nat, |i: int| "  "@ + rows[i] + "\r\n"@);
    if n > 0 {
        lemma_lines_in_a_row(rows, n - 1);
        let before = Seq::new((n - 1) as nat, |i: int| "  "@ + rows[i] + "\r\n"@);
        assert(lines.drop_last() =~= before);
        assert(lines.last() == "  "@ + rows[n - 1] + "\r\n"@);
        if n == 1 {
            assert(before =~= Seq::empty());
            assert(row_lines(rows, 1) =~= lines[0]) by {
                assert(row_lines(rows, 0) =~= Seq::<char>::empty());
            }
        } else {
            assert(row_lines(rows, n) =~= text::joined(lines, Seq::empty()));
        }
    } else {
        assert(row_lines(rows, n) =~= text::joined(lines, Seq::empty()));
    }
}

/// What is said of a save, and why there is none, in full.
pub proof fn law_a_save_is_told_in_full(
    detects_changes: bool,
    files: Option<&Vec<String>>,
    dest: &str,
    said: Result<String, String>,
)
    requires
        call_ensures(save_changes, (detects_changes, files, dest), said),
    ensures
        detects_changes && files is Some ==> said is Ok && said->Ok_0@ == "\r\nSaving "@
            + text::decimal_text(files->0@.len()) + " changed file"@ + (if files->0@.len() == 1 {
            ""@
        } else {
            "s"@
        }) + " -> "@ + dest@ + "\r\n"@,
        !detects_changes ==> said is Err && said->Err_0@
            == "workspace change detection is unavailable"@,
        detects_changes && files is None ==> said is Err && said->Err_0@
            == "the workspace could not be re-walked"@,
{
}

/// The prompt of a shell that exited is made for what changed, under a time that
/// is written as one: a year of four digits or more, the month and the day, and
/// the time of the day, told apart by a letter.
pub proof fn law_an_archive_is_named_by_the_time(
    changed: Option<&Vec<String>>,
    dir: &str,
    name: &str,
    prompt: ExitPrompt,
)
    requires
        call_ensures(exit_prompt, (changed, dir, name), prompt),
    ensures
        exists|stamp: Seq<char>|
            {
                &&& prompt@ == #[trigger] prompt_view(optional_rows(changed), dir@, name@, stamp)
                &&& stamp.len() >= 16
                &&& stamp.last() == 'Z'
                &&& stamp[stamp.len() - 8] == 'T'
            },
{
    let stamp = choose|stamp: Seq<char>|
        prompt@ == #[trigger] prompt_view(optional_rows(changed), dir@, name@, stamp) && is_stamp(
            stamp,
        );
    assert(stamp.len() - 12 + 4 == stamp.len() - 8);
}

/// What [`ShellExit::step`] does is what is said of a step here; the prompt and
/// who controls the session stay, and it waits for what it asked for.
pub proof fn law_a_shells_exit_is_taken_as_stated(event: PromptEvent, step: PromptStep)
    ensures
        forall|s: &mut ShellExit| #[trigger]
            call_ensures(ShellExit::step, (s, event), step) ==> {
                &&& (text::optional(step.say), step.next) == prompt_step(
                    event,
                    s.prompt().choices,
                    s.controls(),
                )
                &&& final(s).prompt() == s.prompt()
                &&& final(s).controls() == s.controls()
                &&& final(s).stage() is Saving <==> step.next is Save
                &&& final(s).stage() is Destroying <==> step.next is Destroy
            },
{
}

/// A client that picks an item gets what the item says, from [`ShellExit::step`]
/// itself: keeping leaves at once, whoever controls the session.
pub proof fn law_keeping_a_session_keeps_it(i: usize, step: PromptStep)
    ensures
        forall|s: &mut ShellExit|
            i < s.prompt().choices.len() && #[trigger] call_ensures(
                ShellExit::step,
                (s, PromptEvent::Selected(i)),
                step,
            ) ==> {
                let choice = s.prompt().choices[i as int];
                &&& choice is Keep ==> step.say is None && step.next == PromptNext::Leave(
                    ExitDisposition::Kept,
                )
                &&& step.next is Save <==> choice is SaveThenDelete
                &&& step.next is Destroy <==> choice is Delete && s.controls()
            },
{
}

/// A prompt is shown as it was made, and waits for the client first.
pub proof fn law_a_prompt_is_shown_as_it_was_made(
    changed: Option<&Vec<String>>,
    dir: &str,
    name: &str,
    stamp: &str,
    prompt: ExitPrompt,
    control: bool,
    s: ShellExit,
    shown: &ExitPrompt,
)
    requires
        call_ensures(exit_prompt_at, (changed, dir, name, stamp), prompt),
        call_ensures(ShellExit::new, (prompt, control), s),
        call_ensures(ShellExit::shown, (&s,), shown),
    ensures
        prompt@ == prompt_view(
            match changed {
                Some(rows) => Some(text::texts(rows@)),
                None => None,
            },
            dir@,
            name@,
            stamp@,
        ),
        shown@ == prompt@,
        s.controls() == control,
        s.stage() is Asking,
{
}

/// What a prompt says is what it was made of.
pub proof fn law_a_prompt_says_what_it_was_made_of(p: ExitPrompt)
    ensures
        p@.intro == p.intro@,
        p@.items == text::texts(p.items@),
        p@.choices == p.choices@,
        p@.archive is Some <==> p.archive is Some,
        p.archive is Some ==> p@.archive->0 == p.archive->0@,
{
}

} // verus!
