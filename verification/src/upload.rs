//! Unpacking an archive that a client uploads.
//!
//! Entries land in a staging directory first and are swapped into place once
//! all of them are written; a marker is written last. Every entry is checked
//! before a byte of it reaches the disk. The driver reads the archive, writes
//! the files and moves directories; what it does next is decided here.
use vstd::prelude::*;
use vstd::string::*;
use vstd::utf8::*;

use crate::paths;
use crate::text;

verus! {

/// The marker of a complete upload of patches.
pub const PATCHES_READY_MARKER: &'static str = ".patches_ready";

/// The marker of a complete upload of hook scripts.
pub const HOOKS_READY_MARKER: &'static str = ".hooks_ready";

/// The most bytes that a hook script may declare.
pub const MAX_HOOK_SCRIPT_BYTES: u64 = 1_048_576;

/// The most bytes that a patch may declare.
pub const MAX_PATCH_ENTRY_BYTES: u64 = 1_073_741_824;

/// The bytes that may be held in memory over all files being written.
pub const MAX_UNPACK_INFLIGHT_BYTES: u64 = 1_073_741_824;

/// The length of the header of an archive's entry.
pub const HEADER_LEN: usize = 512;

/// What distinguishes one kind of upload from another.
#[derive(Debug)]
pub struct UnpackTarget {
    /// The directory that the new tree is swapped into.
    pub dir: String,
    /// The file that is written there last.
    pub marker: String,
    /// The most bytes that an entry may declare.
    pub max_entry_bytes: u64,
    /// What an entry is called in errors.
    pub label: String,
}

impl UnpackTarget {
    /// An entry within the limit fits into what may be held in memory.
    pub open spec fn wf(&self) -> bool {
        self.max_entry_bytes <= MAX_UNPACK_INFLIGHT_BYTES
    }

    /// An upload of patches into `dir`.
    pub fn patches(dir: String) -> (t: Self)
        ensures
            t.wf(),
            t.dir == dir,
            t.marker@ == PATCHES_READY_MARKER@,
            t.max_entry_bytes == MAX_PATCH_ENTRY_BYTES,
            t.label@ == "patch"@,
    {
        UnpackTarget {
            dir,
            marker: PATCHES_READY_MARKER.to_owned(),
            max_entry_bytes: MAX_PATCH_ENTRY_BYTES,
            label: "patch".to_owned(),
        }
    }

    /// An upload of hook scripts into `dir`.
    pub fn hook_scripts(dir: String) -> (t: Self)
        ensures
            t.wf(),
            t.dir == dir,
            t.marker@ == HOOKS_READY_MARKER@,
            t.max_entry_bytes == MAX_HOOK_SCRIPT_BYTES,
            t.label@ == "hook script"@,
    {
        UnpackTarget {
            dir,
            marker: HOOKS_READY_MARKER.to_owned(),
            max_entry_bytes: MAX_HOOK_SCRIPT_BYTES,
            label: "hook script".to_owned(),
        }
    }
}

/// Whether a path, as bytes, is relative and has no `..` component.
pub open spec fn is_safe(p: Seq<u8>) -> bool {
    paths::stays_inside(paths::widened(p))
}

/// Whether `p` is a relative path without `..` components.
pub fn safe_relative_path(p: &[u8]) -> (yes: bool)
    ensures
        yes == is_safe(p@),
{
    let chars = paths::widen(p);
    paths::inside(&chars)
}

/// Whether a path has the components of a marker's, one for one. Two slashes in
/// a row, or a `.` further on, make no difference; a `.` at the start does.
pub open spec fn is_marker(p: Seq<u8>, marker: Seq<char>) -> bool {
    paths::components(paths::widened(p)) == paths::components(
        paths::widened(encode_utf8(marker)),
    )
}

/// The kind of an entry as its header spells it, with a zero standing for a
/// regular file.
pub open spec fn kind_byte(header: Seq<u8>) -> u8 {
    if header[156] == 0 {
        48
    } else {
        header[156]
    }
}

/// The size that an entry's header declares, if it can be read.
pub uninterp spec fn declared_size(header: Seq<u8>) -> Option<u64>;

/// `Header::entry_type` of `async_tar`, and `EntryType::as_byte`: the byte at
/// the place of the link flag, where both spellings of a regular file become
/// the digit zero. A header of another length is refused by a panic.
#[verifier::external_body]
fn header_kind(header: &[u8]) -> (kind: u8)
    requires
        header@.len() == HEADER_LEN,
    ensures
        kind == kind_byte(header@),
{
    async_tar::Header::from_byte_slice(header).entry_type().as_byte()
}

/// `Header::size` of `async_tar`: the size that the header declares, or an
/// error where its field cannot be read. A header of another length is refused
/// by a panic.
#[verifier::external_body]
fn header_size(header: &[u8]) -> (size: Option<u64>)
    requires
        header@.len() == HEADER_LEN,
    ensures
        size == declared_size(header@),
{
    async_tar::Header::from_byte_slice(header).size().ok()
}

/// Whether an entry of this kind is a file with contents.
pub open spec fn is_regular(kind: u8) -> bool {
    kind == 48 || kind == 55
}

/// The name of an entry's kind.
pub open spec fn kind_name(kind: u8) -> Seq<char> {
    if kind == 48 {
        "Regular"@
    } else if kind == 49 {
        "Link"@
    } else if kind == 50 {
        "Symlink"@
    } else if kind == 51 {
        "Char"@
    } else if kind == 52 {
        "Block"@
    } else if kind == 53 {
        "Directory"@
    } else if kind == 54 {
        "Fifo"@
    } else if kind == 55 {
        "Continuous"@
    } else if kind == 120 {
        "XHeader"@
    } else if kind == 103 {
        "XGlobalHeader"@
    } else if kind == 76 {
        "GNULongName"@
    } else if kind == 75 {
        "GNULongLink"@
    } else if kind == 83 {
        "GNUSparse"@
    } else {
        "Other("@ + text::decimal_text(kind as nat) + ")"@
    }
}

fn name_kind(kind: u8) -> (name: String)
    ensures
        name@ == kind_name(kind),
{
    if kind == 48 {
        "Regular".to_owned()
    } else if kind == 49 {
        "Link".to_owned()
    } else if kind == 50 {
        "Symlink".to_owned()
    } else if kind == 51 {
        "Char".to_owned()
    } else if kind == 52 {
        "Block".to_owned()
    } else if kind == 53 {
        "Directory".to_owned()
    } else if kind == 54 {
        "Fifo".to_owned()
    } else if kind == 55 {
        "Continuous".to_owned()
    } else if kind == 120 {
        "XHeader".to_owned()
    } else if kind == 103 {
        "XGlobalHeader".to_owned()
    } else if kind == 76 {
        "GNULongName".to_owned()
    } else if kind == 75 {
        "GNULongLink".to_owned()
    } else if kind == 83 {
        "GNUSparse".to_owned()
    } else {
        text::cat3("Other(", text::decimal(kind as u128).as_str(), ")")
    }
}

/// The reason why an entry is refused, if it is: a path that leads elsewhere,
/// then the name of the marker, then anything but a file, then a size over the
/// limit.
pub open spec fn refusal(
    target: UnpackTarget,
    path: Seq<u8>,
    shown: Seq<char>,
    kind: u8,
    size: u64,
) -> Option<Seq<char>> {
    let head = target.label@ + " archive entry rejected: `"@ + shown;
    if !is_safe(path) {
        Some(head + "` contains an absolute path or a `..` component"@)
    } else if is_marker(path, target.marker@) {
        Some(head + "` collides with the daemon's ready-marker filename"@)
    } else if !is_regular(kind) {
        Some(head + "` is "@ + kind_name(kind) + "; only regular files are supported"@)
    } else if size > target.max_entry_bytes {
        Some(
            head + "` declares "@ + text::decimal_text(size as nat) + " bytes, exceeds the "@
                + text::decimal_text(target.max_entry_bytes as nat) + "-byte per-entry cap"@,
        )
    } else {
        None
    }
}

/// Checks an entry whose kind and size are known. `shown` is the path in words.
pub fn check_entry_as(target: &UnpackTarget, path: &[u8], shown: &str, kind: u8, size: u64) -> (refused:
    Option<String>)
    ensures
        text::optional(refused) == refusal(*target, path@, shown@, kind, size),
{
    let head = text::cat3(target.label.as_str(), " archive entry rejected: `", shown);
    if !safe_relative_path(path) {
        return Some(
            text::cat2(head.as_str(), "` contains an absolute path or a `..` component"),
        );
    }
    let entry_chars = paths::widen(path);
    let marker_bytes = target.marker.as_str().as_bytes_vec();
    let marker_chars = paths::widen(marker_bytes.as_slice());
    if paths::same_components(&entry_chars, &marker_chars) {
        return Some(
            text::cat2(head.as_str(), "` collides with the daemon's ready-marker filename"),
        );
    }
    if kind != 48 && kind != 55 {
        let name = name_kind(kind);
        return Some(
            text::cat4(
                head.as_str(),
                "` is ",
                name.as_str(),
                "; only regular files are supported",
            ),
        );
    }
    if size > target.max_entry_bytes {
        let declared = text::decimal(size as u128);
        let cap = text::decimal(target.max_entry_bytes as u128);
        let mut reason = text::cat5(
            head.as_str(),
            "` declares ",
            declared.as_str(),
            " bytes, exceeds the ",
            cap.as_str(),
        );
        reason.append("-byte per-entry cap");
        return Some(reason);
    }
    None
}

/// The size of an entry, as far as its header says.
pub open spec fn entry_size(header: Seq<u8>) -> u64 {
    match declared_size(header) {
        Some(n) => n,
        None => 0,
    }
}

/// Checks an entry by its path and its header, and gives the size that it
/// declares; a size that cannot be read counts as none.
pub fn check_entry(target: &UnpackTarget, path: &[u8], header: &[u8]) -> (checked: Result<
    u64,
    String,
>)
    requires
        header@.len() == HEADER_LEN,
    ensures
        ({
            let refused = refusal(
                *target,
                path@,
                text::lossy_text(path@),
                kind_byte(header@),
                entry_size(header@),
            );
            match checked {
                Ok(size) => refused is None && size == entry_size(header@),
                Err(e) => refused == Some(e@),
            }
        }),
{
    let shown = text::lossy(path);
    let size: u64 = match header_size(header) {
        Some(n) => n,
        None => 0,
    };
    match check_entry_as(target, path, shown.as_str(), header_kind(header), size) {
        Some(reason) => Err(reason),
        None => Ok(size),
    }
}

/// The bytes that are reserved for an entry: its size, and at least one.
pub open spec fn permits_for(size: u64) -> u64 {
    if size == 0 {
        1
    } else {
        size
    }
}

fn permits(size: u64) -> (n: u64)
    ensures
        n == permits_for(size),
{
    if size == 0 {
        1
    } else {
        size
    }
}

/// The staging directory beside a directory, made unique by a time.
pub open spec fn staging_dir(dir: Seq<char>, nanos: nat) -> Seq<char> {
    let suffix = ".upload."@ + text::decimal_text(nanos) + ".tmp"@;
    paths::with_name(
        dir,
        match paths::file_name_of(dir) {
            Some(name) => name + suffix,
            None => "upload"@ + suffix,
        },
    )
}

/// Names the staging directory for an upload that starts at this time.
pub fn staging_path(dir: &str, nanos: u128) -> (path: String)
    ensures
        path@ == staging_dir(dir@, nanos as nat),
{
    let suffix = text::cat3(".upload.", text::decimal(nanos).as_str(), ".tmp");
    let name = match paths::file_name(dir) {
        Some(name) => text::cat2(name.as_str(), suffix.as_str()),
        None => text::cat2("upload", suffix.as_str()),
    };
    paths::set_file_name(dir, name.as_str())
}

/// Where a file of the archive is written: its path below the staging
/// directory.
pub open spec fn staged_file(staging: Seq<char>, path: Seq<u8>) -> Seq<u8> {
    encode_utf8(staging).push(47u8) + path
}

/// An entry that passed its checks.
#[derive(Debug)]
pub struct CheckedEntry {
    pub path: Vec<u8>,
    pub size: u64,
}

/// What the driver of an unpack is to do.
#[derive(Debug)]
pub enum UnpackStage {
    /// Make a fresh staging directory.
    Prepare,
    /// Open the archive.
    Open,
    /// Read the next entry.
    NextEntry,
    /// Wait for a file to be written, to make room for this entry.
    MakeRoom(CheckedEntry),
    /// Wait for a write to let its bytes go: there is no room for those of this
    /// entry.
    Reserve(CheckedEntry),
    /// Read the contents of this entry.
    ReadBody(CheckedEntry),
    /// Wait for a file to be written: there are no more entries.
    Drain,
    /// Stop all writes and wait for them to end.
    Abort { error: String },
    /// Take the lock and exchange the staging directory with the live one.
    Swap,
    /// Remove what the live directory held before.
    RemoveOld,
    /// Move the staging directory to where there was no live one.
    Rename,
    /// Write the marker.
    WriteMarker,
}

/// What an [`UnpackStage`] asks for.
pub ghost enum UnpackStageView {
    Prepare,
    Open,
    NextEntry,
    MakeRoom { path: Seq<u8>, size: u64 },
    Reserve { path: Seq<u8>, size: u64 },
    ReadBody { path: Seq<u8>, size: u64 },
    Drain,
    Abort { error: Seq<char> },
    Swap,
    RemoveOld,
    Rename,
    WriteMarker,
}

impl View for UnpackStage {
    type V = UnpackStageView;

    open spec fn view(&self) -> UnpackStageView {
        match self {
            UnpackStage::Prepare => UnpackStageView::Prepare,
            UnpackStage::Open => UnpackStageView::Open,
            UnpackStage::NextEntry => UnpackStageView::NextEntry,
            UnpackStage::MakeRoom(e) => UnpackStageView::MakeRoom { path: e.path@, size: e.size },
            UnpackStage::Reserve(e) => UnpackStageView::Reserve { path: e.path@, size: e.size },
            UnpackStage::ReadBody(e) => UnpackStageView::ReadBody { path: e.path@, size: e.size },
            UnpackStage::Drain => UnpackStageView::Drain,
            UnpackStage::Abort { error } => UnpackStageView::Abort { error: error@ },
            UnpackStage::Swap => UnpackStageView::Swap,
            UnpackStage::RemoveOld => UnpackStageView::RemoveOld,
            UnpackStage::Rename => UnpackStageView::Rename,
            UnpackStage::WriteMarker => UnpackStageView::WriteMarker,
        }
    }
}

/// What reading the next entry gave.
#[derive(Debug)]
pub enum EntryRead {
    /// There are no more entries.
    End,
    Failed(String),
    /// The entry's path could not be decoded.
    BadPath(String),
    /// An entry, by its path and its header.
    Found { path: Vec<u8>, header: Vec<u8> },
}

/// How a task that wrote a file ended.
#[derive(Debug)]
pub enum WriteEnd {
    Written,
    /// It failed; the reason is complete.
    Failed(String),
    /// It was cancelled.
    Cancelled(String),
    /// It panicked.
    Panicked(String),
}

/// How exchanging the directories went.
#[derive(Debug)]
pub enum SwapEnd {
    Exchanged,
    /// There is no live directory yet.
    NoPrior,
    Failed(String),
    /// The task that did it panicked.
    Panicked(String),
}

/// What the driver of an unpack has done. Errors are given in words.
#[derive(Debug)]
pub enum UnpackEvent {
    Prepared { error: Option<String> },
    Opened { error: Option<String> },
    Entry(EntryRead),
    Joined(WriteEnd),
    /// A write let its bytes go: so many were reserved for it.
    LetGo { bytes: u64 },
    /// No write can let its bytes go any more.
    NoRoom { error: String },
    BodyRead { error: Option<String> },
    Aborted,
    Swapped(SwapEnd),
    OldRemoved,
    Renamed { error: Option<String> },
    MarkerWritten { error: Option<String> },
}

/// The file that a new write task writes.
#[derive(Debug)]
pub struct WriteJob {
    /// Where it is written.
    pub dest: Vec<u8>,
    /// The path in words, for errors.
    pub shown: String,
    /// The bytes that are reserved for it, which it lets go when it ends.
    pub reserved: u64,
}

/// Where an unpack stands after an event.
#[derive(Debug)]
pub enum UnpackNext {
    /// Go on with the stage that the unpack is in now.
    Go,
    /// Start to write a file, and go on.
    Spawn(WriteJob),
    /// The unpack is over.
    End(Result<(), String>),
}

/// What an [`UnpackNext`] says.
pub ghost enum UnpackNextView {
    Go,
    Spawn { dest: Seq<u8>, shown: Seq<char>, reserved: u64 },
    Done,
    Failed { error: Seq<char> },
}

impl View for UnpackNext {
    type V = UnpackNextView;

    open spec fn view(&self) -> UnpackNextView {
        match self {
            UnpackNext::Go => UnpackNextView::Go,
            UnpackNext::Spawn(job) => UnpackNextView::Spawn {
                dest: job.dest@,
                shown: job.shown@,
                reserved: job.reserved,
            },
            UnpackNext::End(Ok(())) => UnpackNextView::Done,
            UnpackNext::End(Err(e)) => UnpackNextView::Failed { error: e@ },
        }
    }
}

/// An unpack, under way.
pub struct Unpack {
    target: UnpackTarget,
    staging: String,
    concurrency: usize,
    inflight: usize,
    held: u64,
    stage: UnpackStage,
}

/// What an [`Unpack`] is in.
pub ghost struct UnpackView {
    pub target: UnpackTarget,
    /// The staging directory.
    pub staging: Seq<char>,
    /// The most files that are written at a time.
    pub concurrency: usize,
    /// The files that are being written, or whose end was not taken yet.
    pub inflight: usize,
    /// The bytes that are reserved, for the entry at hand and for all writes
    /// that have not let theirs go.
    pub held: u64,
    pub stage: UnpackStageView,
}

impl View for Unpack {
    type V = UnpackView;

    closed spec fn view(&self) -> UnpackView {
        UnpackView {
            target: self.target,
            staging: self.staging@,
            concurrency: self.concurrency,
            inflight: self.inflight,
            held: self.held,
            stage: self.stage@,
        }
    }
}

/// Whether an entry passed its checks.
pub open spec fn passed(u: UnpackView, path: Seq<u8>, size: u64) -> bool {
    &&& is_safe(path)
    &&& !is_marker(path, u.target.marker@)
    &&& size <= u.target.max_entry_bytes
}

/// The entry that is being unpacked, by its path and its size.
pub open spec fn entry_at_hand(u: UnpackView) -> Option<(Seq<u8>, u64)> {
    match u.stage {
        UnpackStageView::MakeRoom { path, size } => Some((path, size)),
        UnpackStageView::Reserve { path, size } => Some((path, size)),
        UnpackStageView::ReadBody { path, size } => Some((path, size)),
        _ => None,
    }
}

/// Whether the bytes of an entry can be reserved beside those that are.
pub open spec fn has_room(u: UnpackView, size: u64) -> bool {
    u.held + permits_for(size) <= MAX_UNPACK_INFLIGHT_BYTES
}

impl UnpackView {
    /// No more files are being written than may be, none is before the first
    /// entry or once the archive is installed, no more bytes are reserved than
    /// may be held, and what is being unpacked has passed its checks.
    pub open spec fn wf(self) -> bool {
        &&& self.target.wf()
        &&& 0 < self.concurrency
        &&& self.inflight <= self.concurrency
        &&& self.held <= MAX_UNPACK_INFLIGHT_BYTES
        &&& match self.stage {
            UnpackStageView::Prepare => self.inflight == 0,
            UnpackStageView::Open => self.inflight == 0,
            UnpackStageView::NextEntry => true,
            UnpackStageView::MakeRoom { path, size } => self.inflight == self.concurrency
                && passed(self, path, size),
            UnpackStageView::Reserve { path, size } => self.inflight < self.concurrency && passed(
                self,
                path,
                size,
            ) && !has_room(self, size),
            UnpackStageView::ReadBody { path, size } => self.inflight < self.concurrency && passed(
                self,
                path,
                size,
            ) && permits_for(size) <= self.held,
            UnpackStageView::Drain => self.inflight > 0,
            UnpackStageView::Abort { .. } => true,
            UnpackStageView::Swap => self.inflight == 0,
            UnpackStageView::RemoveOld => self.inflight == 0,
            UnpackStageView::Rename => self.inflight == 0,
            UnpackStageView::WriteMarker => self.inflight == 0,
        }
    }
}

/// The bytes that are reserved for writes.
pub open spec fn held_by_writes(u: UnpackView) -> int {
    match u.stage {
        UnpackStageView::ReadBody { path, size } => u.held - permits_for(size),
        _ => u.held as int,
    }
}

/// Whether an event is the answer to what an unpack asked for. A write may let
/// its bytes go at any time, and lets go only what was reserved for writes.
pub open spec fn unpack_expects(u: UnpackView, event: UnpackEvent) -> bool {
    let stage = u.stage;
    match event {
        UnpackEvent::Prepared { .. } => stage is Prepare,
        UnpackEvent::Opened { .. } => stage is Open,
        UnpackEvent::Entry(EntryRead::Found { path, header }) => stage is NextEntry
            && header@.len() == HEADER_LEN,
        UnpackEvent::Entry(_) => stage is NextEntry,
        UnpackEvent::Joined(_) => stage is MakeRoom || stage is Drain,
        UnpackEvent::LetGo { bytes } => bytes <= held_by_writes(u),
        UnpackEvent::NoRoom { .. } => stage is Reserve,
        UnpackEvent::BodyRead { .. } => stage is ReadBody,
        UnpackEvent::Aborted => stage is Abort,
        UnpackEvent::Swapped(_) => stage is Swap,
        UnpackEvent::OldRemoved => stage is RemoveOld,
        UnpackEvent::Renamed { .. } => stage is Rename,
        UnpackEvent::MarkerWritten { .. } => stage is WriteMarker,
    }
}

/// The unpack goes on in another stage.
pub open spec fn unpack_at(u: UnpackView, stage: UnpackStageView) -> (UnpackView, UnpackNextView) {
    (UnpackView { stage, ..u }, UnpackNextView::Go)
}

/// The unpack is over with an error.
pub open spec fn unpack_fails(u: UnpackView, error: Seq<char>) -> (UnpackView, UnpackNextView) {
    (u, UnpackNextView::Failed { error })
}

/// The unpack stops its writes first, and is then over with an error.
pub open spec fn unpack_aborts(u: UnpackView, error: Seq<char>) -> (UnpackView, UnpackNextView) {
    unpack_at(u, UnpackStageView::Abort { error })
}

/// An entry is unpacked once there is room for another write.
pub open spec fn unpack_entry(u: UnpackView, path: Seq<u8>, size: u64) -> (UnpackView, UnpackNextView) {
    if u.inflight >= u.concurrency {
        unpack_at(u, UnpackStageView::MakeRoom { path, size })
    } else {
        unpack_reserve(u, path, size)
    }
}

/// The contents of an entry are read once its bytes are reserved.
pub open spec fn unpack_reserve(u: UnpackView, path: Seq<u8>, size: u64) -> (
    UnpackView,
    UnpackNextView,
) {
    if has_room(u, size) {
        unpack_at(
            UnpackView { held: (u.held + permits_for(size)) as u64, ..u },
            UnpackStageView::ReadBody { path, size },
        )
    } else {
        unpack_at(u, UnpackStageView::Reserve { path, size })
    }
}

/// All entries are read: the archive is installed once all are written.
pub open spec fn unpack_drains(u: UnpackView) -> (UnpackView, UnpackNextView) {
    if u.inflight > 0 {
        unpack_at(u, UnpackStageView::Drain)
    } else {
        unpack_at(u, UnpackStageView::Swap)
    }
}

/// One write less is under way.
pub open spec fn unpack_joined(u: UnpackView) -> UnpackView {
    UnpackView { inflight: (u.inflight - 1) as usize, ..u }
}

/// What an event comes to.
pub open spec fn unpack_step(u: UnpackView, event: UnpackEvent) -> (UnpackView, UnpackNextView) {
    let label = u.target.label@;
    match event {
        UnpackEvent::Prepared { error } => match error {
            Some(e) => unpack_fails(u, "creating "@ + label + " staging dir: "@ + e@),
            None => unpack_at(u, UnpackStageView::Open),
        },
        UnpackEvent::Opened { error } => match error {
            Some(e) => unpack_fails(u, "reading "@ + label + " tar entries: "@ + e@),
            None => unpack_at(u, UnpackStageView::NextEntry),
        },
        UnpackEvent::Entry(read) => match read {
            EntryRead::End => unpack_drains(u),
            EntryRead::Failed(e) => unpack_aborts(u, "reading "@ + label + " tar entry: "@ + e@),
            EntryRead::BadPath(e) => unpack_aborts(u, "decoding entry path: "@ + e@),
            EntryRead::Found { path, header } => {
                let size = entry_size(header@);
                match refusal(
                    u.target,
                    path@,
                    text::lossy_text(path@),
                    kind_byte(header@),
                    size,
                ) {
                    Some(reason) => unpack_aborts(u, reason),
                    None => unpack_entry(u, path@, size),
                }
            },
        },
        UnpackEvent::Joined(write) => {
            let v = unpack_joined(u);
            match (u.stage, write) {
                (_, WriteEnd::Failed(e)) => unpack_aborts(v, e@),
                (_, WriteEnd::Panicked(e)) => unpack_aborts(v, "write task panicked: "@ + e@),
                (UnpackStageView::MakeRoom { path, size }, WriteEnd::Written) => unpack_entry(
                    v,
                    path,
                    size,
                ),
                (UnpackStageView::MakeRoom { .. }, WriteEnd::Cancelled(e)) => unpack_aborts(
                    v,
                    "write task panicked: "@ + e@,
                ),
                _ => unpack_drains(v),
            }
        },
        UnpackEvent::LetGo { bytes } => {
            let v = UnpackView { held: (u.held - bytes) as u64, ..u };
            match u.stage {
                UnpackStageView::Reserve { path, size } => unpack_reserve(v, path, size),
                _ => unpack_at(v, u.stage),
            }
        },
        UnpackEvent::NoRoom { error } => unpack_aborts(
            u,
            "byte-budget semaphore closed: "@ + error@,
        ),
        UnpackEvent::BodyRead { error } => match u.stage {
            UnpackStageView::ReadBody { path, size } => match error {
                Some(e) => unpack_aborts(
                    u,
                    "reading body of `"@ + text::lossy_text(path) + "`: "@ + e@,
                ),
                None => (
                    UnpackView {
                        stage: UnpackStageView::NextEntry,
                        inflight: (u.inflight + 1) as usize,
                        ..u
                    },
                    UnpackNextView::Spawn {
                        dest: staged_file(u.staging, path),
                        shown: text::lossy_text(path),
                        reserved: permits_for(size),
                    },
                ),
            },
            _ => unpack_at(u, u.stage),
        },
        UnpackEvent::Aborted => match u.stage {
            UnpackStageView::Abort { error } => unpack_fails(
                UnpackView { inflight: 0, held: 0, ..u },
                error,
            ),
            _ => unpack_at(u, u.stage),
        },
        UnpackEvent::Swapped(swap) => match swap {
            SwapEnd::Exchanged => unpack_at(u, UnpackStageView::RemoveOld),
            SwapEnd::NoPrior => unpack_at(u, UnpackStageView::Rename),
            SwapEnd::Failed(e) => unpack_fails(
                u,
                "atomic-swap of "@ + label + " dir failed: "@ + e@,
            ),
            SwapEnd::Panicked(e) => unpack_fails(u, "atomic-swap task panicked: "@ + e@),
        },
        UnpackEvent::OldRemoved => unpack_at(u, UnpackStageView::WriteMarker),
        UnpackEvent::Renamed { error } => match error {
            Some(e) => unpack_fails(u, "swapping "@ + label + " dir into place: "@ + e@),
            None => unpack_at(u, UnpackStageView::WriteMarker),
        },
        UnpackEvent::MarkerWritten { error } => match error {
            Some(e) => unpack_fails(u, "writing "@ + label + "-ready marker: "@ + e@),
            None => (u, UnpackNextView::Done),
        },
    }
}

impl Unpack {
    /// Begins to unpack an upload into its target. `nanos` is the time, which
    /// makes the staging directory unique; `concurrency` is how many files may
    /// be written at a time.
    pub fn start(target: UnpackTarget, nanos: u128, concurrency: usize) -> (u: Self)
        requires
            target.wf(),
            0 < concurrency,
        ensures
            u@.wf(),
            u@ == (UnpackView {
                target,
                staging: staging_dir(target.dir@, nanos as nat),
                concurrency,
                inflight: 0,
                held: 0,
                stage: UnpackStageView::Prepare,
            }),
    {
        let staging = staging_path(target.dir.as_str(), nanos);
        Unpack { target, staging, concurrency, inflight: 0, held: 0, stage: UnpackStage::Prepare }
    }

    /// What the driver is to do.
    pub fn stage(&self) -> (stage: &UnpackStage)
        ensures
            stage@ == self@.stage,
    {
        &self.stage
    }

    /// The staging directory.
    pub fn staging(&self) -> (dir: &str)
        ensures
            dir@ == self@.staging,
    {
        self.staging.as_str()
    }

    /// The directory that the archive is installed in.
    pub fn dir(&self) -> (dir: &str)
        ensures
            dir@ == self@.target.dir@,
    {
        self.target.dir.as_str()
    }

    /// Where the marker is written.
    pub fn marker_path(&self) -> (path: String)
        ensures
            path@ == paths::joined_path(self@.target.dir@, self@.target.marker@),
    {
        paths::join(self.target.dir.as_str(), self.target.marker.as_str())
    }

    fn at(&mut self, stage: UnpackStage) -> (next: UnpackNext)
        ensures
            (final(self)@, next@) == unpack_at(old(self)@, stage@),
    {
        self.stage = stage;
        UnpackNext::Go
    }

    /// Reserves the bytes of an entry, where there is room for them.
    fn reserve(&mut self, entry: CheckedEntry) -> (next: UnpackNext)
        requires
            old(self)@.held <= MAX_UNPACK_INFLIGHT_BYTES,
            entry.size <= MAX_UNPACK_INFLIGHT_BYTES,
        ensures
            (final(self)@, next@) == unpack_reserve(old(self)@, entry.path@, entry.size),
    {
        let wanted = permits(entry.size);
        if self.held + wanted <= MAX_UNPACK_INFLIGHT_BYTES {
            self.held = self.held + wanted;
            self.at(UnpackStage::ReadBody(entry))
        } else {
            self.at(UnpackStage::Reserve(entry))
        }
    }

    fn unpack(&mut self, entry: CheckedEntry) -> (next: UnpackNext)
        requires
            old(self)@.held <= MAX_UNPACK_INFLIGHT_BYTES,
            entry.size <= MAX_UNPACK_INFLIGHT_BYTES,
        ensures
            (final(self)@, next@) == unpack_entry(old(self)@, entry.path@, entry.size),
    {
        if self.inflight >= self.concurrency {
            self.at(UnpackStage::MakeRoom(entry))
        } else {
            self.reserve(entry)
        }
    }

    fn drain(&mut self) -> (next: UnpackNext)
        ensures
            (final(self)@, next@) == unpack_drains(old(self)@),
    {
        if self.inflight > 0 {
            self.at(UnpackStage::Drain)
        } else {
            self.at(UnpackStage::Swap)
        }
    }

    fn take_entry(&mut self, read: EntryRead) -> (next: UnpackNext)
        requires
            old(self)@.wf(),
            unpack_expects(old(self)@, UnpackEvent::Entry(read)),
        ensures
            (final(self)@, next@) == unpack_step(old(self)@, UnpackEvent::Entry(read)),
    {
        match read {
            EntryRead::End => self.drain(),
            EntryRead::Failed(e) => {
                let error = text::cat4(
                    "reading ",
                    self.target.label.as_str(),
                    " tar entry: ",
                    e.as_str(),
                );
                self.at(UnpackStage::Abort { error })
            },
            EntryRead::BadPath(e) => {
                let error = text::cat2("decoding entry path: ", e.as_str());
                self.at(UnpackStage::Abort { error })
            },
            EntryRead::Found { path, header } => match check_entry(
                &self.target,
                path.as_slice(),
                header.as_slice(),
            ) {
                Err(error) => self.at(UnpackStage::Abort { error }),
                Ok(size) => self.unpack(CheckedEntry { path, size }),
            },
        }
    }

    /// The entry at hand, out of the stage that holds it.
    fn take_held(&mut self) -> (entry: Option<CheckedEntry>)
        ensures
            match old(self)@.stage {
                UnpackStageView::MakeRoom { path, size } => entry is Some && entry->0.path@ == path
                    && entry->0.size == size,
                UnpackStageView::Reserve { path, size } => entry is Some && entry->0.path@ == path
                    && entry->0.size == size,
                UnpackStageView::ReadBody { path, size } => entry is Some && entry->0.path@ == path
                    && entry->0.size == size,
                _ => entry is None,
            },
            final(self)@ == (UnpackView { stage: final(self)@.stage, ..old(self)@ }),
    {
        let mut stage = UnpackStage::NextEntry;
        std::mem::swap(&mut stage, &mut self.stage);
        match stage {
            UnpackStage::MakeRoom(e) | UnpackStage::Reserve(e) | UnpackStage::ReadBody(e) => Some(e),
            _ => None,
        }
    }

    fn take_join(&mut self, write: WriteEnd) -> (next: UnpackNext)
        requires
            old(self)@.wf(),
            unpack_expects(old(self)@, UnpackEvent::Joined(write)),
        ensures
            (final(self)@, next@) == unpack_step(old(self)@, UnpackEvent::Joined(write)),
    {
        self.inflight = self.inflight - 1;
        match write {
            WriteEnd::Failed(error) => self.at(UnpackStage::Abort { error }),
            WriteEnd::Panicked(e) => {
                let error = text::cat2("write task panicked: ", e.as_str());
                self.at(UnpackStage::Abort { error })
            },
            WriteEnd::Written => match self.take_held() {
                Some(entry) => self.unpack(entry),
                None => self.drain(),
            },
            WriteEnd::Cancelled(e) => match self.take_held() {
                Some(_) => {
                    let error = text::cat2("write task panicked: ", e.as_str());
                    self.at(UnpackStage::Abort { error })
                },
                None => self.drain(),
            },
        }
    }

    fn take_body(&mut self, error: Option<String>) -> (next: UnpackNext)
        requires
            old(self)@.wf(),
            old(self)@.stage is ReadBody,
        ensures
            (final(self)@, next@) == unpack_step(old(self)@, UnpackEvent::BodyRead { error }),
    {
        let entry = match self.take_held() {
            Some(entry) => entry,
            None => {
                return UnpackNext::Go;
            },
        };
        let shown = text::lossy(entry.path.as_slice());
        match error {
            Some(e) => {
                let error = text::cat4("reading body of `", shown.as_str(), "`: ", e.as_str());
                self.at(UnpackStage::Abort { error })
            },
            None => {
                let mut dest = self.staging.as_str().as_bytes_vec();
                dest.push(47);
                dest.extend_from_slice(entry.path.as_slice());
                assert(dest@ =~= staged_file(self@.staging, entry.path@));
                self.inflight = self.inflight + 1;
                self.stage = UnpackStage::NextEntry;
                UnpackNext::Spawn(WriteJob { dest, shown, reserved: permits(entry.size) })
            },
        }
    }

    /// Takes what the driver has done.
    pub fn step(&mut self, event: UnpackEvent) -> (next: UnpackNext)
        requires
            old(self)@.wf(),
            unpack_expects(old(self)@, event),
        ensures
            (final(self)@, next@) == unpack_step(old(self)@, event),
            final(self)@.wf(),
    {
        match event {
            UnpackEvent::Prepared { error } => match error {
                Some(e) => UnpackNext::End(
                    Err(
                        text::cat4(
                            "creating ",
                            self.target.label.as_str(),
                            " staging dir: ",
                            e.as_str(),
                        ),
                    ),
                ),
                None => self.at(UnpackStage::Open),
            },
            UnpackEvent::Opened { error } => match error {
                Some(e) => UnpackNext::End(
                    Err(
                        text::cat4(
                            "reading ",
                            self.target.label.as_str(),
                            " tar entries: ",
                            e.as_str(),
                        ),
                    ),
                ),
                None => self.at(UnpackStage::NextEntry),
            },
            UnpackEvent::Entry(read) => self.take_entry(read),
            UnpackEvent::Joined(write) => self.take_join(write),
            UnpackEvent::LetGo { bytes } => {
                self.held = self.held - bytes;
                let waits = match &self.stage {
                    UnpackStage::Reserve(_) => true,
                    _ => false,
                };
                if !waits {
                    return UnpackNext::Go;
                }
                match self.take_held() {
                    Some(entry) => self.reserve(entry),
                    None => UnpackNext::Go,
                }
            },
            UnpackEvent::NoRoom { error } => {
                let error = text::cat2("byte-budget semaphore closed: ", error.as_str());
                self.at(UnpackStage::Abort { error })
            },
            UnpackEvent::BodyRead { error } => self.take_body(error),
            UnpackEvent::Aborted => {
                self.inflight = 0;
                self.held = 0;
                let error = match &self.stage {
                    UnpackStage::Abort { error } => error.clone(),
                    _ => String::new(),
                };
                UnpackNext::End(Err(error))
            },
            UnpackEvent::Swapped(swap) => match swap {
                SwapEnd::Exchanged => self.at(UnpackStage::RemoveOld),
                SwapEnd::NoPrior => self.at(UnpackStage::Rename),
                SwapEnd::Failed(e) => UnpackNext::End(
                    Err(
                        text::cat4(
                            "atomic-swap of ",
                            self.target.label.as_str(),
                            " dir failed: ",
                            e.as_str(),
                        ),
                    ),
                ),
                SwapEnd::Panicked(e) => UnpackNext::End(
                    Err(text::cat2("atomic-swap task panicked: ", e.as_str())),
                ),
            },
            UnpackEvent::OldRemoved => self.at(UnpackStage::WriteMarker),
            UnpackEvent::Renamed { error } => match error {
                Some(e) => UnpackNext::End(
                    Err(
                        text::cat4(
                            "swapping ",
                            self.target.label.as_str(),
                            " dir into place: ",
                            e.as_str(),
                        ),
                    ),
                ),
                None => self.at(UnpackStage::WriteMarker),
            },
            UnpackEvent::MarkerWritten { error } => match error {
                Some(e) => UnpackNext::End(
                    Err(
                        text::cat4(
                            "writing ",
                            self.target.label.as_str(),
                            "-ready marker: ",
                            e.as_str(),
                        ),
                    ),
                ),
                None => UnpackNext::End(Ok(())),
            },
        }
    }
}

/// The step of writing a file that failed.
#[derive(Clone, Copy, PartialEq, Eq, Structural, Debug)]
pub enum WriteStep {
    /// Making the directory that holds it.
    Parent,
    /// Writing it.
    File,
}

/// The words for a file that could not be written.
pub fn write_error(step: WriteStep, shown: &str, error: &str) -> (words: String)
    ensures
        words@ == (match step {
            WriteStep::Parent => "creating parent dir for `"@,
            WriteStep::File => "writing `"@,
        }) + shown@ + "`: "@ + error@,
{
    let head = match step {
        WriteStep::Parent => "creating parent dir for `",
        WriteStep::File => "writing `",
    };
    text::cat4(head, shown, "`: ", error)
}

/// The marker is written last, and only over a complete tree: an unpack gets to
/// write it only where the new tree is in place, which it is only after every
/// write was waited for, and it succeeds only by writing it.
pub proof fn law_the_marker_comes_last(u: UnpackView, event: UnpackEvent)
    requires
        u.wf(),
        unpack_expects(u, event),
    ensures
        unpack_step(u, event).0.stage is WriteMarker && !(u.stage is WriteMarker) ==> {
            ||| u.stage is RemoveOld && event is OldRemoved
            ||| u.stage is Rename && event matches UnpackEvent::Renamed { error: None }
        },
        unpack_step(u, event).0.stage is RemoveOld && !(u.stage is RemoveOld) ==> u.stage is Swap
            && u.inflight == 0 && event matches UnpackEvent::Swapped(SwapEnd::Exchanged),
        unpack_step(u, event).0.stage is Rename && !(u.stage is Rename) ==> u.stage is Swap
            && u.inflight == 0 && event matches UnpackEvent::Swapped(SwapEnd::NoPrior),
        unpack_step(u, event).1 is Done ==> u.stage is WriteMarker
            && event matches UnpackEvent::MarkerWritten { error: None },
{
}

/// An upload that goes wrong before it is installed never is: an unpack that
/// has begun to stop only ever ends with its error.
pub proof fn law_a_failed_upload_is_never_installed(u: UnpackView, event: UnpackEvent, error: Seq<char>)
    requires
        u.wf(),
        u.stage == (UnpackStageView::Abort { error }),
        unpack_expects(u, event),
    ensures
        event is Aborted ==> unpack_step(u, event).1 == (UnpackNextView::Failed { error }),
        !(event is Aborted) ==> unpack_step(u, event).0.stage == u.stage && unpack_step(u, event).1
            is Go,
{
}

/// An entry goes on to be unpacked only if it passed every check, and goes on as
/// it was declared: it has a relative path without `..` that is not the
/// marker's, it is a file with contents, and its size is within the limit. Any
/// other stops the unpack. From there on the entry at hand stays the same until
/// its file is written.
pub proof fn law_only_checked_entries_go_on(u: UnpackView, event: UnpackEvent)
    requires
        u.wf(),
        unpack_expects(u, event),
    ensures
        ({
            let v = unpack_step(u, event).0;
            &&& event matches UnpackEvent::Entry(EntryRead::Found { path, header }) ==> {
                if is_safe(path@) && !is_marker(path@, u.target.marker@) && is_regular(
                    kind_byte(header@),
                ) && entry_size(header@) <= u.target.max_entry_bytes {
                    entry_at_hand(v) == Some((path@, entry_size(header@)))
                } else {
                    v.stage is Abort
                }
            }
            &&& entry_at_hand(v) is Some ==> entry_at_hand(v) == entry_at_hand(u)
                || event matches UnpackEvent::Entry(EntryRead::Found { .. })
        }),
{
}

/// Only an entry that went on is written, and below the staging directory: at a
/// relative path without `..` that is not the marker's.
pub proof fn law_only_checked_files_are_written(u: UnpackView, event: UnpackEvent)
    requires
        u.wf(),
        unpack_expects(u, event),
    ensures
        unpack_step(u, event).1 matches UnpackNextView::Spawn { dest, shown, reserved } ==> {
            &&& u.stage matches UnpackStageView::ReadBody { path, size } && {
                &&& is_safe(path)
                &&& !is_marker(path, u.target.marker@)
                &&& size <= u.target.max_entry_bytes
                &&& dest == staged_file(u.staging, path)
            }
        },
{
}

/// The guard of what is read and the guard of what is written are twins: a text
/// is a contained path exactly where its bytes are a safe one.
pub proof fn law_both_guards_agree(p: Seq<char>)
    ensures
        is_safe(encode_utf8(p)) == paths::stays_inside(p),
{
    paths::lemma_bytes_stay_inside(p);
}

/// No more files are being written than may be, and what is held in memory for
/// all of them together, and for the entry at hand, stays within its limit.
pub proof fn law_writes_are_bounded(u: UnpackView, event: UnpackEvent)
    requires
        u.wf(),
        unpack_expects(u, event),
    ensures
        unpack_step(u, event).0.wf(),
        unpack_step(u, event).0.inflight <= u.concurrency,
        unpack_step(u, event).0.held <= MAX_UNPACK_INFLIGHT_BYTES,
{
}

/// What is held is the sum of what was reserved and not let go: the contents of
/// an entry are read only with its bytes reserved beside all others, a write
/// takes over what was reserved for its file, and only a write that lets go, or
/// the end of them all, lowers the sum.
pub proof fn law_every_byte_is_reserved(u: UnpackView, event: UnpackEvent)
    requires
        u.wf(),
        unpack_expects(u, event),
    ensures
        ({
            let (v, next) = unpack_step(u, event);
            let let_go = match event {
                UnpackEvent::LetGo { bytes } => bytes as int,
                _ => 0,
            };
            &&& !(event is Aborted) ==> v.held == u.held - let_go + (match v.stage {
                UnpackStageView::ReadBody { path, size } if !(u.stage is ReadBody) => permits_for(
                    size,
                ) as int,
                _ => 0,
            })
            &&& v.stage matches UnpackStageView::ReadBody { path, size } ==> size <= permits_for(
                size,
            ) <= v.held
            &&& next matches UnpackNextView::Spawn { dest, shown, reserved } ==> {
                &&& u.stage matches UnpackStageView::ReadBody { path, size } && reserved
                    == permits_for(size)
                &&& held_by_writes(v) == held_by_writes(u) + reserved
            }
        }),
{
}

/// An entry never waits for room that cannot come: once no write holds any
/// bytes, every entry that passed its checks fits.
pub proof fn law_room_comes_back(u: UnpackView, path: Seq<u8>, size: u64)
    requires
        u.wf(),
        u.stage == (UnpackStageView::Reserve { path, size }),
    ensures
        u.held > 0,
        unpack_step(u, UnpackEvent::LetGo { bytes: u.held }).0.stage == (
        UnpackStageView::ReadBody { path, size }),
{
}

/// An entry whose contents were read is written, and nothing else is: under its
/// own path below the staging directory, with what was reserved for it, as one
/// more write under way; and the next entry is read.
pub proof fn law_what_was_read_is_written(u: UnpackView, path: Seq<u8>, size: u64)
    requires
        u.wf(),
        u.stage == (UnpackStageView::ReadBody { path, size }),
    ensures
        ({
            let (v, next) = unpack_step(u, UnpackEvent::BodyRead { error: None });
            &&& next matches UnpackNextView::Spawn { dest, shown, reserved } && {
                &&& dest == encode_utf8(u.staging).push(47u8) + path
                &&& shown == text::lossy_text(path)
                &&& reserved as int == (if size == 0 { 1 } else { size as int })
            }
            &&& v.inflight == u.inflight + 1
            &&& v.stage is NextEntry
            &&& v.held == u.held
            &&& v.target == u.target && v.staging == u.staging && v.concurrency == u.concurrency
        }),
{
}

/// Whether a report is of something that went wrong, and how that is told.
pub open spec fn goes_wrong(u: UnpackView, event: UnpackEvent) -> Option<Seq<char>> {
    match event {
        UnpackEvent::Prepared { error: Some(e) } => Some(e@),
        UnpackEvent::Opened { error: Some(e) } => Some(e@),
        UnpackEvent::Entry(EntryRead::Failed(e)) => Some(e@),
        UnpackEvent::Entry(EntryRead::BadPath(e)) => Some(e@),
        UnpackEvent::Joined(WriteEnd::Failed(e)) => Some(e@),
        UnpackEvent::Joined(WriteEnd::Panicked(e)) => Some(e@),
        UnpackEvent::NoRoom { error } => Some(error@),
        UnpackEvent::BodyRead { error: Some(e) } => Some(e@),
        UnpackEvent::Swapped(SwapEnd::Failed(e)) => Some(e@),
        UnpackEvent::Swapped(SwapEnd::Panicked(e)) => Some(e@),
        UnpackEvent::Renamed { error: Some(e) } => Some(e@),
        UnpackEvent::MarkerWritten { error: Some(e) } => Some(e@),
        _ => None,
    }
}

/// Nothing that goes wrong is passed over: the unpack ends with an error, or
/// stops its writes first and then does, and the error tells what was reported.
/// Nothing else ends it with an error but an entry that is refused, and writes
/// that were stopped.
pub proof fn law_no_failure_is_passed_over(u: UnpackView, event: UnpackEvent)
    requires
        u.wf(),
        unpack_expects(u, event),
    ensures
        ({
            let (v, next) = unpack_step(u, event);
            &&& goes_wrong(u, event) matches Some(e) ==> {
                ||| next is Failed && e.is_suffix_of(next->Failed_error)
                ||| next is Go && v.stage is Abort && e.is_suffix_of(v.stage->Abort_error)
            }
            &&& next is Failed && !(event is Aborted) ==> goes_wrong(u, event) is Some
            &&& v.stage is Abort && !(u.stage is Abort) ==> goes_wrong(u, event) is Some || (event
                matches UnpackEvent::Entry(EntryRead::Found { .. })) || (u.stage is MakeRoom && (
            event matches UnpackEvent::Joined(WriteEnd::Cancelled(_))))
        }),
{
    let (v, next) = unpack_step(u, event);
    match goes_wrong(u, event) {
        Some(e) => {
            let words = if next is Failed { next->Failed_error } else { v.stage->Abort_error };
            assert(e =~= words.subrange(words.len() - e.len(), words.len() as int));
        },
        None => {},
    }
}

/// An unpack goes through its stages in order, and waits for every write: the
/// archive is opened once there is a staging directory, its entries are read
/// once it is open, and the directories are exchanged once the last entry was
/// read and no write is under way.
pub proof fn law_an_unpack_goes_in_order(u: UnpackView, event: UnpackEvent)
    requires
        u.wf(),
        unpack_expects(u, event),
    ensures
        ({
            let (v, next) = unpack_step(u, event);
            &&& (event matches UnpackEvent::Prepared { error: None }) ==> v.stage is Open
            &&& (event matches UnpackEvent::Opened { error: None }) ==> v.stage is NextEntry
            &&& (event matches UnpackEvent::Entry(EntryRead::End)) ==> if u.inflight == 0 {
                v.stage is Swap
            } else {
                v.stage is Drain
            }
            &&& (event matches UnpackEvent::Joined(_)) ==> v.inflight == u.inflight - 1
            &&& u.stage is Drain && (event matches UnpackEvent::Joined(WriteEnd::Written)) ==> if u.inflight
                == 1 {
                v.stage is Swap
            } else {
                v.stage is Drain
            }
            &&& (event matches UnpackEvent::Swapped(SwapEnd::Exchanged)) ==> v.stage is RemoveOld
            &&& (event matches UnpackEvent::Swapped(SwapEnd::NoPrior)) ==> v.stage is Rename
            &&& (event matches UnpackEvent::OldRemoved) ==> v.stage is WriteMarker
            &&& (event matches UnpackEvent::Renamed { error: None }) ==> v.stage is WriteMarker
            &&& (event matches UnpackEvent::MarkerWritten { error: None }) ==> next is Done
            &&& v.stage is Swap && !(u.stage is Swap) ==> v.inflight == 0 && (u.stage is NextEntry
                || u.stage is Drain)
            &&& v.target == u.target && v.staging == u.staging && v.concurrency == u.concurrency
        }),
{
}

/// An entry is taken or refused by what its header and its path say: it is taken
/// exactly where its path is relative, leads nowhere up and is not the marker's,
/// its kind is that of a file (a zero or a `0`, or a `7` for one in one piece),
/// and it declares no more bytes than an entry may have; a size that cannot be
/// read counts as none. The reason for a refusal names the entry.
pub proof fn law_entries_are_taken_by_their_headers(
    target: UnpackTarget,
    path: Seq<u8>,
    shown: Seq<char>,
    header: Seq<u8>,
)
    requires
        header.len() == 512,
    ensures
        ({
            let refused = refusal(target, path, shown, kind_byte(header), entry_size(header));
            let size = match declared_size(header) {
                Some(n) => n,
                None => 0,
            };
            &&& refused is None <==> {
                &&& paths::stays_inside(paths::widened(path))
                &&& paths::components(paths::widened(path)) != paths::components(
                    paths::widened(encode_utf8(target.marker@)),
                )
                &&& header[156] == 0 || header[156] == 48 || header[156] == 55
                &&& size <= target.max_entry_bytes
            }
            &&& refused matches Some(words) ==> (target.label@ + " archive entry rejected: `"@
                + shown).is_prefix_of(words)
        }),
{
    let refused = refusal(target, path, shown, kind_byte(header), entry_size(header));
    if refused is Some {
        let start = target.label@ + " archive entry rejected: `"@ + shown;
        assert(start =~= refused->0.subrange(0, start.len() as int));
    }
}

/// A file that is named like the marker is refused, and one in the same place
/// under another name is not taken for it.
pub proof fn law_the_marker_is_known_by_its_name(name: Seq<char>, marker: Seq<char>)
    requires
        name.len() > 0,
        marker.len() > 0,
        !name.contains('/'),
        !marker.contains('/'),
    ensures
        is_marker(encode_utf8(name), marker) <==> name == marker,
{
    paths::lemma_single_component(name);
    paths::lemma_single_component(marker);
    if encode_utf8(name) == encode_utf8(marker) {
        encode_utf8_decode_utf8(name);
        encode_utf8_decode_utf8(marker);
    }
    let a = paths::widened(encode_utf8(name));
    let b = paths::widened(encode_utf8(marker));
    if is_marker(encode_utf8(name), marker) {
        assert(paths::components(a)[0] == paths::components(b)[0]);
        assert(a == b);
        paths::lemma_widened_is_injective(encode_utf8(name), encode_utf8(marker));
    }
}

/// The staging directory of an upload stands beside the live one, under a name
/// of its own: what it is called begins with the other's name.
pub proof fn law_staging_is_beside_the_live_directory(
    parent: Seq<char>,
    name: Seq<char>,
    nanos: nat,
)
    requires
        parent.len() > 0,
        parent[0] == '/',
        parent.last() != '/',
        parent.last() != '.',
        name.len() > 0,
        !name.contains('/'),
        name != seq!['.'],
        name != seq!['.', '.'],
    ensures
        staging_dir(parent + seq!['/'] + name, nanos) == parent + seq!['/'] + name + ".upload."@
            + text::decimal_text(nanos) + ".tmp"@,
{
    paths::law_a_name_stands_behind_its_directory(parent, name);
    let suffix = ".upload."@ + text::decimal_text(nanos) + ".tmp"@;
    assert(name.contains(name[0]));
    paths::law_a_renamed_entry_stays_in_its_directory(parent, name, name + suffix);
    assert(parent + seq!['/'] + (name + suffix) =~= parent + seq!['/'] + name + ".upload."@
        + text::decimal_text(nanos) + ".tmp"@);
}

/// A run of an unpack: what it was in, what was reported, in order, from the
/// start on. Each report is one that can be made, and nothing ends the run
/// before its last step.
pub open spec fn is_unpacking(steps: Seq<(UnpackView, UnpackEvent)>) -> bool {
    &&& steps.len() > 0
    &&& steps[0].0.wf()
    &&& steps[0].0.stage is Prepare
    &&& forall|i: int| 0 <= i < steps.len() ==> #[trigger] unpacks_at(steps, i)
}

/// A step of a run follows from the one before it.
pub open spec fn unpacks_at(steps: Seq<(UnpackView, UnpackEvent)>, i: int) -> bool {
    &&& unpack_expects(steps[i].0, steps[i].1)
    &&& i > 0 ==> steps[i].0 == unpack_step(steps[i - 1].0, steps[i - 1].1).0 && !(unpack_step(
        steps[i - 1].0,
        steps[i - 1].1,
    ).1 is Failed)
}

/// The paths of the entries that were found in the first `n` steps of a run.
pub open spec fn found(steps: Seq<(UnpackView, UnpackEvent)>, n: int) -> Seq<Seq<u8>>
    decreases n,
{
    if n <= 0 {
        Seq::empty()
    } else {
        match steps[n - 1].1 {
            UnpackEvent::Entry(EntryRead::Found { path, header }) => found(steps, n - 1).push(path@),
            _ => found(steps, n - 1),
        }
    }
}

/// Where files were written in the first `n` steps of a run.
pub open spec fn written(steps: Seq<(UnpackView, UnpackEvent)>, n: int) -> Seq<Seq<u8>>
    decreases n,
{
    if n <= 0 {
        Seq::empty()
    } else {
        match unpack_step(steps[n - 1].0, steps[n - 1].1).1 {
            UnpackNextView::Spawn { dest, shown, reserved } => written(steps, n - 1).push(dest),
            _ => written(steps, n - 1),
        }
    }
}

/// The paths below a directory.
pub open spec fn below(dir: Seq<char>, files: Seq<Seq<u8>>) -> Seq<Seq<u8>> {
    files.map_values(|f: Seq<u8>| encode_utf8(dir).push(47u8) + f)
}

proof fn lemma_every_entry_is_written(steps: Seq<(UnpackView, UnpackEvent)>, n: int)
    requires
        is_unpacking(steps),
        0 <= n < steps.len(),
    ensures
        steps[n].0.wf(),
        steps[n].0.staging == steps[0].0.staging,
        !(steps[n].0.stage is Abort) ==> match entry_at_hand(steps[n].0) {
            Some((path, size)) => found(steps, n).len() > 0 && found(steps, n).last() == path
                && written(steps, n) == below(steps[0].0.staging, found(steps, n).drop_last()),
            None => written(steps, n) == below(steps[0].0.staging, found(steps, n)),
        },
    decreases n,
{
    let dir = steps[0].0.staging;
    if n == 0 {
        assert(written(steps, 0) =~= below(dir, found(steps, 0)));
    } else {
        lemma_every_entry_is_written(steps, n - 1);
        assert(unpacks_at(steps, n));
        assert(unpacks_at(steps, n - 1));
        let u = steps[n - 1].0;
        let event = steps[n - 1].1;
        let v = steps[n].0;
        law_writes_are_bounded(u, event);
        let before = found(steps, n - 1);
        let after = found(steps, n);
        if !(v.stage is Abort) {
            if event matches UnpackEvent::Entry(EntryRead::Found { path, header }) {
                assert(after.drop_last() =~= before);
            }
            if event matches UnpackEvent::BodyRead { error: None } {
                let path = u.stage->ReadBody_path;
                assert(after == before);
                assert(before =~= before.drop_last().push(path));
                assert(below(dir, before) =~= below(dir, before.drop_last()).push(
                    encode_utf8(dir).push(47u8) + path,
                ));
            }
        }
    }
}

/// An upload that ends well has written every file of its archive, each once and
/// under its own path below the staging directory, in the order of the archive,
/// and nothing besides.
pub proof fn law_every_file_of_an_upload_is_written(steps: Seq<(UnpackView, UnpackEvent)>)
    requires
        is_unpacking(steps),
        unpack_step(steps.last().0, steps.last().1).1 is Done,
    ensures
        written(steps, steps.len() as int) == below(
            steps[0].0.staging,
            found(steps, steps.len() as int),
        ),
        steps.last().0.stage is WriteMarker,
{
    let n = steps.len() - 1;
    lemma_every_entry_is_written(steps, n);
    assert(unpacks_at(steps, n));
}

/// An entry that passed its checks waits for nothing but room: for a write to
/// end where as many are under way as may be, and for bytes to be let go where
/// its own would go beyond one GiB in all; else its contents are read at once.
pub proof fn law_entries_wait_only_for_room(u: UnpackView, path: Seq<u8>, size: u64)
    ensures
        ({
            let v = unpack_entry(u, path, size).0;
            let wanted = if size == 0 { 1 } else { size as int };
            &&& unpack_entry(u, path, size).1 is Go
            &&& u.inflight >= u.concurrency ==> v.stage == (UnpackStageView::MakeRoom {
                path,
                size,
            }) && v.held == u.held
            &&& u.inflight < u.concurrency && u.held + wanted > 1024 * 1024 * 1024 ==> v.stage == (
            UnpackStageView::Reserve { path, size }) && v.held == u.held
            &&& u.inflight < u.concurrency && u.held + wanted <= 1024 * 1024 * 1024 ==> v.stage == (
            UnpackStageView::ReadBody { path, size }) && v.held == u.held + wanted
        }),
{
}

/// A write that ends makes room for the entry that waits for it, and bytes that
/// are let go are there for the entry that waits for those.
pub proof fn law_room_is_used(u: UnpackView, path: Seq<u8>, size: u64, bytes: u64)
    requires
        u.wf(),
    ensures
        u.stage == (UnpackStageView::MakeRoom { path, size }) ==> unpack_step(
            u,
            UnpackEvent::Joined(WriteEnd::Written),
        ) == unpack_entry(
            UnpackView { inflight: (u.inflight - 1) as usize, ..u },
            path,
            size,
        ),
        u.stage == (UnpackStageView::Reserve { path, size }) && bytes <= u.held ==> unpack_step(
            u,
            UnpackEvent::LetGo { bytes },
        ) == unpack_entry(UnpackView { held: (u.held - bytes) as u64, ..u }, path, size),
        !(u.stage is Reserve) && bytes <= held_by_writes(u) ==> unpack_step(
            u,
            UnpackEvent::LetGo { bytes },
        ) == (UnpackView { held: (u.held - bytes) as u64, ..u }, UnpackNextView::Go),
{
}

/// Patches may have up to one GiB each and hook scripts up to one MiB, and each
/// kind of upload has a marker of its own.
pub proof fn law_uploads_have_their_own_limits(
    dir: String,
    patches: UnpackTarget,
    scripts: UnpackTarget,
)
    requires
        call_ensures(UnpackTarget::patches, (dir,), patches),
        call_ensures(UnpackTarget::hook_scripts, (dir,), scripts),
    ensures
        patches.dir == dir && scripts.dir == dir,
        patches.max_entry_bytes == 1024 * 1024 * 1024,
        scripts.max_entry_bytes == 1024 * 1024,
        patches.marker@ == ".patches_ready"@,
        scripts.marker@ == ".hooks_ready"@,
        patches.label@ == "patch"@,
        scripts.label@ == "hook script"@,
{
}

/// A refusal says why, and of several reasons the first: where the path leads,
/// the marker that it would take, the kind of the entry, or its size and the
/// limit.
pub proof fn law_a_refused_entry_is_told_why(
    target: UnpackTarget,
    path: Seq<u8>,
    shown: Seq<char>,
    kind: u8,
    size: u64,
)
    ensures
        ({
            let words = refusal(target, path, shown, kind, size);
            let head = target.label@ + " archive entry rejected: `"@ + shown;
            let file = kind == 48 || kind == 55;
            &&& !is_safe(path) ==> words == Some(
                head + "` contains an absolute path or a `..` component"@,
            )
            &&& is_safe(path) && is_marker(path, target.marker@) ==> words == Some(
                head + "` collides with the daemon's ready-marker filename"@,
            )
            &&& is_safe(path) && !is_marker(path, target.marker@) && !file ==> words == Some(
                head + "` is "@ + kind_name(kind) + "; only regular files are supported"@,
            )
            &&& is_safe(path) && !is_marker(path, target.marker@) && file && size
                > target.max_entry_bytes ==> words == Some(
                head + "` declares "@ + text::decimal_text(size as nat) + " bytes, exceeds the "@
                    + text::decimal_text(target.max_entry_bytes as nat) + "-byte per-entry cap"@,
            )
        }),
        kind_name(49) == "Link"@,
        kind_name(50) == "Symlink"@,
        kind_name(51) == "Char"@,
        kind_name(52) == "Block"@,
        kind_name(53) == "Directory"@,
        kind_name(54) == "Fifo"@,
{
}

/// An error of an unpack says what was being done, and to which upload.
pub proof fn law_an_unpacks_error_says_what_was_done(u: UnpackView, e: String)
    ensures
        unpack_step(u, UnpackEvent::Prepared { error: Some(e) }).1 == (UnpackNextView::Failed {
            error: "creating "@ + u.target.label@ + " staging dir: "@ + e@,
        }),
        unpack_step(u, UnpackEvent::Opened { error: Some(e) }).1 == (UnpackNextView::Failed {
            error: "reading "@ + u.target.label@ + " tar entries: "@ + e@,
        }),
        unpack_step(u, UnpackEvent::Swapped(SwapEnd::Failed(e))).1 == (UnpackNextView::Failed {
            error: "atomic-swap of "@ + u.target.label@ + " dir failed: "@ + e@,
        }),
        unpack_step(u, UnpackEvent::Swapped(SwapEnd::Panicked(e))).1 == (UnpackNextView::Failed {
            error: "atomic-swap task panicked: "@ + e@,
        }),
        unpack_step(u, UnpackEvent::Renamed { error: Some(e) }).1 == (UnpackNextView::Failed {
            error: "swapping "@ + u.target.label@ + " dir into place: "@ + e@,
        }),
        unpack_step(u, UnpackEvent::MarkerWritten { error: Some(e) }).1 == (
        UnpackNextView::Failed { error: "writing "@ + u.target.label@ + "-ready marker: "@ + e@ }),
        unpack_step(u, UnpackEvent::Entry(EntryRead::Failed(e))).0.stage == (
        UnpackStageView::Abort { error: "reading "@ + u.target.label@ + " tar entry: "@ + e@ }),
        unpack_step(u, UnpackEvent::Entry(EntryRead::BadPath(e))).0.stage == (
        UnpackStageView::Abort { error: "decoding entry path: "@ + e@ }),
        unpack_step(u, UnpackEvent::NoRoom { error: e }).0.stage == (UnpackStageView::Abort {
            error: "byte-budget semaphore closed: "@ + e@,
        }),
        u.inflight > 0 ==> unpack_step(u, UnpackEvent::Joined(WriteEnd::Failed(e))).0.stage == (
        UnpackStageView::Abort { error: e@ }),
        u.inflight > 0 ==> unpack_step(u, UnpackEvent::Joined(WriteEnd::Panicked(e))).0.stage == (
        UnpackStageView::Abort { error: "write task panicked: "@ + e@ }),
        u.stage is ReadBody ==> unpack_step(u, UnpackEvent::BodyRead { error: Some(e) }).0.stage
            == (UnpackStageView::Abort {
            error: "reading body of `"@ + text::lossy_text(u.stage->ReadBody_path) + "`: "@ + e@,
        }),
{
}

/// A write that was cancelled makes no room for an entry that waits for it, and
/// is as good as done where nothing waits but the end. Writes that were stopped
/// hold nothing any more.
pub proof fn law_a_cancelled_write_is_over(u: UnpackView, e: String)
    requires
        u.wf(),
        u.inflight > 0,
    ensures
        u.stage is MakeRoom ==> unpack_step(u, UnpackEvent::Joined(WriteEnd::Cancelled(e))).0.stage
            == (UnpackStageView::Abort { error: "write task panicked: "@ + e@ }),
        u.stage is Drain ==> unpack_step(u, UnpackEvent::Joined(WriteEnd::Cancelled(e)))
            == unpack_step(u, UnpackEvent::Joined(WriteEnd::Written)),
        u.stage is Abort ==> unpack_step(u, UnpackEvent::Aborted).0.inflight == 0 && unpack_step(
            u,
            UnpackEvent::Aborted,
        ).0.held == 0,
{
}

/// The words for a file that could not be written name the file and the step
/// that failed.
pub proof fn law_an_unwritten_file_is_named(shown: &str, error: &str, dir: String, file: String)
    requires
        call_ensures(write_error, (WriteStep::Parent, shown, error), dir),
        call_ensures(write_error, (WriteStep::File, shown, error), file),
    ensures
        dir@ == "creating parent dir for `"@ + shown@ + "`: "@ + error@,
        file@ == "writing `"@ + shown@ + "`: "@ + error@,
{
}

/// What [`Unpack::step`] does is what is said of a step here, for every unpack
/// and every event.
pub proof fn law_an_unpack_takes_its_steps_as_stated(event: UnpackEvent, next: UnpackNext)
    ensures
        forall|u: &mut Unpack| #[trigger]
            call_ensures(Unpack::step, (u, event), next) ==> (final(u)@, next@) == unpack_step(
                u@,
                event,
            ),
{
}

/// A file whose contents were read is written by [`Unpack::step`] itself, whatever
/// its name is: below the staging directory, under its own path.
pub proof fn law_every_file_that_was_read_is_written(next: UnpackNext)
    ensures
        forall|u: &mut Unpack|
            u@.wf() && u@.stage is ReadBody && #[trigger] call_ensures(
                Unpack::step,
                (u, UnpackEvent::BodyRead { error: None }),
                next,
            ) ==> {
                &&& next is Spawn
                &&& next->Spawn_0.dest@ == encode_utf8(u@.staging).push(47u8)
                    + u@.stage->ReadBody_path
                &&& next->Spawn_0.shown@ == text::lossy_text(u@.stage->ReadBody_path)
                &&& final(u)@.inflight == u@.inflight + 1
                &&& final(u)@.stage is NextEntry
            },
{
}

/// An unpack that starts has written nothing, stages beside its target, and
/// installs into that; its marker goes into the target too.
pub proof fn law_an_unpack_starts_beside_its_target(
    target: UnpackTarget,
    nanos: u128,
    concurrency: usize,
    u: Unpack,
    dir: &str,
    staging: &str,
    marker: String,
    stage: &UnpackStage,
)
    requires
        target.wf(),
        0 < concurrency,
        call_ensures(Unpack::start, (target, nanos, concurrency), u),
        call_ensures(Unpack::dir, (&u,), dir),
        call_ensures(Unpack::staging, (&u,), staging),
        call_ensures(Unpack::marker_path, (&u,), marker),
        call_ensures(Unpack::stage, (&u,), stage),
    ensures
        u@.target == target,
        u@.concurrency == concurrency,
        u@.inflight == 0 && u@.held == 0,
        u@.stage is Prepare,
        stage@ is Prepare,
        dir@ == target.dir@,
        staging@ == staging_dir(target.dir@, nanos as nat),
        marker@ == paths::joined_path(target.dir@, target.marker@),
{
}

/// An entry is checked by its path and its header, and taken with the size that
/// the header declares.
pub proof fn law_an_entry_is_checked_by_what_it_says(
    target: &UnpackTarget,
    path: &[u8],
    header: &[u8],
    checked: Result<u64, String>,
    safe: bool,
    shown: &str,
    kind: u8,
    size: u64,
    refused: Option<String>,
)
    requires
        header@.len() == 512,
        call_ensures(check_entry, (target, path, header), checked),
        call_ensures(safe_relative_path, (path,), safe),
        call_ensures(check_entry_as, (target, path, shown, kind, size), refused),
    ensures
        safe <==> paths::stays_inside(paths::widened(path@)),
        checked is Ok <==> refusal(
            *target,
            path@,
            text::lossy_text(path@),
            kind_byte(header@),
            entry_size(header@),
        ) is None,
        checked is Ok ==> checked->Ok_0 == (match declared_size(header@) {
            Some(n) => n,
            None => 0,
        }),
        checked is Ok ==> checked->Ok_0 <= target.max_entry_bytes && safe,
        refused is Some <==> refusal(*target, path@, shown@, kind, size) is Some,
        refused is Some ==> refused->0@ == refusal(*target, path@, shown@, kind, size)->0,
{
}

/// What a stage and a step say is what they were made of: in particular an unpack
/// is done only where it is told to have ended well.
pub proof fn law_an_unpacks_stage_says_what_it_was_made_of(
    entry: CheckedEntry,
    error: String,
    job: WriteJob,
)
    ensures
        UnpackNext::Go@ is Go,
        UnpackNext::End(Ok(()))@ is Done,
        UnpackNext::End(Err(error))@ == (UnpackNextView::Failed { error: error@ }),
        UnpackNext::Spawn(job)@ == (UnpackNextView::Spawn {
            dest: job.dest@,
            shown: job.shown@,
            reserved: job.reserved,
        }),
        UnpackStage::MakeRoom(entry)@ == (UnpackStageView::MakeRoom {
            path: entry.path@,
            size: entry.size,
        }),
        UnpackStage::Reserve(entry)@ == (UnpackStageView::Reserve {
            path: entry.path@,
            size: entry.size,
        }),
        UnpackStage::ReadBody(entry)@ == (UnpackStageView::ReadBody {
            path: entry.path@,
            size: entry.size,
        }),
        (UnpackStage::Abort { error })@ == (UnpackStageView::Abort { error: error@ }),
        UnpackStage::Prepare@ is Prepare,
        UnpackStage::Open@ is Open,
        UnpackStage::NextEntry@ is NextEntry,
        UnpackStage::Drain@ is Drain,
        UnpackStage::Swap@ is Swap,
        UnpackStage::RemoveOld@ is RemoveOld,
        UnpackStage::Rename@ is Rename,
        UnpackStage::WriteMarker@ is WriteMarker,
{
}

} // verus!
