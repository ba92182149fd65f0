//! The patch run: its events, its progress counting, and the decisions it
//! takes between the downloads, writes and notifications that the caller performs.
use crate::error::{error_text, Error, ErrorView};
use crate::text::str_eq;
use crate::manifest::{entries_view, protected_spec, FileEntry, FileEntryView, Manifest, ProtectedResult};
use crate::path::{resolve_relative, resolve_spec};
pub use crate::plan::PatchPlan;
use crate::plan::{hash_reason, hashes_match, items_view, same_hash, size_reason, ItemReason, PlanItem, PlanItemView};
use vstd::prelude::*;

verus! {

/// The outcome of a finished patch.
#[derive(Debug, Clone)]
pub struct PatchResult {
    pub status: String,
    pub checked_files: usize,
    pub files_to_patch: usize,
    pub files_patched: usize,
    pub bytes_downloaded: u64,
}

#[derive(Debug, Clone)]
pub struct PatchChecking {
    pub checked_files: usize,
    pub total_files: usize,
}

#[derive(Debug, Clone)]
pub struct PatchFileStarted {
    pub path: String,
    pub file_index: usize,
    pub file_total: usize,
    pub file_size: u64,
}

#[derive(Debug, Clone)]
pub struct PatchFileProgress {
    pub path: String,
    pub file_index: usize,
    pub file_total: usize,
    pub file_downloaded_bytes: u64,
    pub file_total_bytes: u64,
    pub total_downloaded_bytes: u64,
    pub total_bytes: u64,
}

#[derive(Debug, Clone)]
pub struct PatchFileCompleted {
    pub path: String,
    pub file_index: usize,
    pub file_total: usize,
    pub status: String,
}

#[derive(Debug, Clone)]
pub enum PatchWarning {
    ProtectedFileSkipped { path: String, message: String },
}

#[derive(Debug, Clone)]
pub struct PatchErrorEvent {
    pub code: String,
    pub path: String,
    pub message: String,
    pub retryable: bool,
}

/// Receives the events of a patch run; the launcher's window and the console implement it.
pub trait PatchEmitter {
    fn emit_started(&mut self);

    fn emit_manifest_downloaded(&mut self);

    fn emit_checking(&mut self, payload: PatchChecking);

    fn emit_plan_ready(&mut self, plan: PatchPlan);

    fn emit_file_started(&mut self, payload: PatchFileStarted);

    fn emit_file_progress(&mut self, payload: PatchFileProgress);

    fn emit_file_completed(&mut self, payload: PatchFileCompleted);

    fn emit_warning(&mut self, warning: &PatchWarning);

    fn emit_error(&mut self, error: PatchErrorEvent);

    fn emit_completed(&mut self, result: PatchResult);
}

/// Progress is reported once 64 KiB more have arrived since the last report.
pub const PROGRESS_STEP: u64 = 65536;

/// Whether a progress report is due: `total` exceeds the last reported total
/// by at least (or, when `inclusive` is false, more than) one step.
pub open spec fn progress_due_spec(total: u64, last: u64, inclusive: bool) -> bool {
    let gap = if total >= last { total - last } else { 0 };
    if inclusive { gap >= PROGRESS_STEP } else { gap > PROGRESS_STEP }
}

pub fn progress_due(total: u64, last: u64, inclusive: bool) -> (r: bool)
    ensures
        r == progress_due_spec(total, last, inclusive),
{
    let gap = total.saturating_sub(last);
    if inclusive {
        gap >= PROGRESS_STEP
    } else {
        gap > PROGRESS_STEP
    }
}

/// Counts the bytes of one file's download and decides when to report progress.
#[derive(Debug)]
pub struct ProgressThrottle {
    pub path: String,
    pub file_index: usize,
    pub file_total: usize,
    pub file_total_bytes: u64,
    pub total_bytes: u64,
    pub file_downloaded: u64,
    pub total_downloaded: u64,
    pub last_emitted_total: u64,
}

impl ProgressThrottle {
    /// Counting starts from the bytes downloaded before this file.
    pub fn new(path: &str, file_index: usize, file_total: usize, file_total_bytes: u64, total_bytes: u64, start_total: u64) -> (t: ProgressThrottle)
        ensures
            t.path@ == path@,
            t.file_index == file_index,
            t.file_total == file_total,
            t.file_total_bytes == file_total_bytes,
            t.total_bytes == total_bytes,
            t.file_downloaded == 0,
            t.total_downloaded == start_total,
            t.last_emitted_total == start_total,
    {
        ProgressThrottle {
            path: path.to_owned(),
            file_index,
            file_total,
            file_total_bytes,
            total_bytes,
            file_downloaded: 0,
            total_downloaded: start_total,
            last_emitted_total: start_total,
        }
    }

    /// Adds a chunk; reports progress when 64 KiB or more arrived since the last report.
    pub fn on_bytes(&mut self, bytes: u64) -> (r: Option<PatchFileProgress>)
        requires
            old(self).file_downloaded + bytes <= u64::MAX,
            old(self).total_downloaded + bytes <= u64::MAX,
        ensures
            final(self).file_downloaded == old(self).file_downloaded + bytes,
            final(self).total_downloaded == old(self).total_downloaded + bytes,
            final(self).path == old(self).path,
            final(self).file_index == old(self).file_index,
            final(self).file_total == old(self).file_total,
            final(self).file_total_bytes == old(self).file_total_bytes,
            final(self).total_bytes == old(self).total_bytes,
            if progress_due_spec(final(self).total_downloaded, old(self).last_emitted_total, true) {
                &&& final(self).last_emitted_total == final(self).total_downloaded
                &&& r matches Some(p) && {
                    &&& p.path@ == old(self).path@
                    &&& p.file_index == old(self).file_index
                    &&& p.file_total == old(self).file_total
                    &&& p.file_downloaded_bytes == final(self).file_downloaded
                    &&& p.file_total_bytes == old(self).file_total_bytes
                    &&& p.total_downloaded_bytes == final(self).total_downloaded
                    &&& p.total_bytes == old(self).total_bytes
                }
            } else {
                &&& final(self).last_emitted_total == old(self).last_emitted_total
                &&& r is None
            },
    {
        self.file_downloaded = self.file_downloaded + bytes;
        self.total_downloaded = self.total_downloaded + bytes;
        if progress_due(self.total_downloaded, self.last_emitted_total, true) {
            self.last_emitted_total = self.total_downloaded;
            Some(PatchFileProgress {
                path: self.path.clone(),
                file_index: self.file_index,
                file_total: self.file_total,
                file_downloaded_bytes: self.file_downloaded,
                file_total_bytes: self.file_total_bytes,
                total_downloaded_bytes: self.total_downloaded,
                total_bytes: self.total_bytes,
            })
        } else {
            None
        }
    }
}


/// Two results that say the same.
pub open spec fn same_result(a: PatchResult, b: PatchResult) -> bool {
    &&& a.status@ == b.status@
    &&& a.checked_files == b.checked_files
    &&& a.files_to_patch == b.files_to_patch
    &&& a.files_patched == b.files_patched
    &&& a.bytes_downloaded == b.bytes_downloaded
}

/// Where a patch run stands.
#[derive(Debug, Clone, Copy, PartialEq, Eq, Structural)]
pub enum PatchPhase {
    Idle,
    AwaitManifest,
    AwaitCheck,
    AwaitHash,
    AwaitDownload,
    AwaitReplace,
    Done,
}

/// Something to tell the user.
#[derive(Debug)]
pub enum PatchNotice {
    Started,
    ManifestDownloaded,
    Warning(PatchWarning),
    Checking(PatchChecking),
    PlanReady(PatchPlan),
    FileStarted(PatchFileStarted),
    FileCompleted(PatchFileCompleted),
    Completed(PatchResult),
}

/// The work the caller performs next.
#[derive(Debug)]
pub enum PatchAction {
    /// Download the manifest at `url` and parse it.
    FetchManifest { url: String },
    /// Find whether the local file `path` exists, and its length.
    CheckFile { path: String },
    /// Compute the MD5 of the local file `path`.
    HashFile { path: String },
    /// Download `path` to a staging file, reporting progress, and check its MD5.
    Download {
        path: String,
        md5: String,
        file_index: usize,
        file_total: usize,
        file_size: u64,
        total_bytes: u64,
        start_total: u64,
    },
    /// Move the verified staging file over `path`.
    Replace { path: String },
    /// The run is over.
    Finish(PatchResult),
    /// The run stopped with this error.
    Fail(Error),
}

/// What the caller reports back.
#[derive(Debug)]
pub enum PatchEvent {
    ManifestFetched(Result<Manifest, Error>),
    /// The local file: `None` when it does not exist, else its length.
    FileChecked(Result<Option<u64>, Error>),
    /// The MD5 of the local file, in hex.
    FileHashed(Result<String, Error>),
    /// The download finished; the total of bytes downloaded in this run so far.
    Downloaded(Result<u64, Error>),
    Replaced(Result<(), Error>),
    Cancelled,
}

/// The first index at or after `i` of an entry with path `p`, or -1.
pub open spec fn find_path(es: Seq<FileEntryView>, p: Seq<char>, i: int) -> int
    decreases es.len() - i,
{
    if i >= es.len() || i < 0 {
        -1
    } else if es[i].path == p {
        i
    } else {
        find_path(es, p, i + 1)
    }
}

pub proof fn lemma_find_path(es: Seq<FileEntryView>, p: Seq<char>, i: int)
    requires
        0 <= i,
    ensures
        find_path(es, p, i) == -1 || (i <= find_path(es, p, i) < es.len() && es[find_path(es, p, i)].path == p),
        (exists|k: int| i <= k < es.len() && es[k].path == p) ==> find_path(es, p, i) != -1,
    decreases es.len() - i,
{
    if i < es.len() && es[i].path != p {
        lemma_find_path(es, p, i + 1);
        if exists|k: int| i <= k < es.len() && es[k].path == p {
            let k = choose|k: int| i <= k < es.len() && es[k].path == p;
            assert(k != i);
            assert(i + 1 <= k);
        }
    }
}

/// Every planned item names an entry.
pub open spec fn items_in(items: Seq<PlanItemView>, es: Seq<FileEntryView>) -> bool {
    forall|i: int| 0 <= i < items.len() ==> exists|k: int| 0 <= k < es.len() && (#[trigger] es[k]).path == (#[trigger] items[i]).path
}

/// The entries of the manifest that may be patched, in order.
pub open spec fn allowed_entries(files: Seq<FileEntryView>, dir: Seq<char>, exe: Seq<char>, cfg: Seq<char>, cwd: Seq<char>) -> Seq<FileEntryView>
    decreases files.len(),
{
    if files.len() == 0 {
        Seq::<FileEntryView>::empty()
    } else {
        let rest = allowed_entries(files.drop_last(), dir, exe, cfg, cwd);
        if protected_spec(files.last().path, dir, exe, cfg, cwd) is Ok {
            rest.push(files.last())
        } else {
            rest
        }
    }
}

/// The warnings for the entries that are skipped, in order: path and message.
pub open spec fn skip_warnings(files: Seq<FileEntryView>, dir: Seq<char>, exe: Seq<char>, cfg: Seq<char>, cwd: Seq<char>) -> Seq<(Seq<char>, Seq<char>)>
    decreases files.len(),
{
    if files.len() == 0 {
        Seq::<(Seq<char>, Seq<char>)>::empty()
    } else {
        let rest = skip_warnings(files.drop_last(), dir, exe, cfg, cwd);
        match protected_spec(files.last().path, dir, exe, cfg, cwd) {
            Ok(_) => rest,
            Err(e) => rest.push((files.last().path, error_text(e))),
        }
    }
}

/// `w` is the warning for skipping `f`: its path and the message of its failed check.
pub open spec fn warns_of(f: FileEntryView, w: (Seq<char>, Seq<char>), dir: Seq<char>, exe: Seq<char>, cfg: Seq<char>, cwd: Seq<char>) -> bool {
    match protected_spec(f.path, dir, exe, cfg, cwd) {
        Err(e) => w == (f.path, error_text(e)),
        Ok(_) => false,
    }
}

/// Every entry of the manifest is either kept for patching or skipped with
/// a warning: kept entries pass the protection check, each warning names an
/// entry that fails it with that failure's message, and none is lost.
pub proof fn law_entries_kept_or_warned(files: Seq<FileEntryView>, dir: Seq<char>, exe: Seq<char>, cfg: Seq<char>, cwd: Seq<char>)
    ensures
        allowed_entries(files, dir, exe, cfg, cwd).len() + skip_warnings(files, dir, exe, cfg, cwd).len() == files.len(),
        forall|k: int| 0 <= k < allowed_entries(files, dir, exe, cfg, cwd).len() ==>
            protected_spec((#[trigger] allowed_entries(files, dir, exe, cfg, cwd)[k]).path, dir, exe, cfg, cwd) is Ok
            && files.contains(allowed_entries(files, dir, exe, cfg, cwd)[k]),
        forall|k: int| 0 <= k < skip_warnings(files, dir, exe, cfg, cwd).len() ==> exists|j: int| 0 <= j < files.len()
            && warns_of(files[j], #[trigger] skip_warnings(files, dir, exe, cfg, cwd)[k], dir, exe, cfg, cwd),
    decreases files.len(),
{
    if files.len() > 0 {
        let d = files.drop_last();
        law_entries_kept_or_warned(d, dir, exe, cfg, cwd);
        let a = allowed_entries(d, dir, exe, cfg, cwd);
        let w = skip_warnings(d, dir, exe, cfg, cwd);
        let n = files.len() - 1;
        assert forall|k: int| 0 <= k < allowed_entries(files, dir, exe, cfg, cwd).len() implies
            protected_spec((#[trigger] allowed_entries(files, dir, exe, cfg, cwd)[k]).path, dir, exe, cfg, cwd) is Ok
            && files.contains(allowed_entries(files, dir, exe, cfg, cwd)[k]) by {
            if k < a.len() {
                assert(allowed_entries(files, dir, exe, cfg, cwd)[k] == a[k]);
                let j = choose|j: int| 0 <= j < d.len() && d[j] == a[k];
                assert(files[j] == d[j]);
            } else {
                assert(files[n] == files.last());
            }
        }
        assert forall|k: int| 0 <= k < skip_warnings(files, dir, exe, cfg, cwd).len() implies exists|j: int| 0 <= j < files.len()
            && warns_of(files[j], #[trigger] skip_warnings(files, dir, exe, cfg, cwd)[k], dir, exe, cfg, cwd) by {
            if k < w.len() {
                assert(skip_warnings(files, dir, exe, cfg, cwd)[k] == w[k]);
                let j = choose|j: int| 0 <= j < d.len() && warns_of(d[j], #[trigger] w[k], dir, exe, cfg, cwd);
                assert(files[j] == d[j]);
            } else {
                assert(files[n] == files.last());
            }
        }
    }
}

pub open spec fn warning_view(n: PatchNotice) -> Option<(Seq<char>, Seq<char>)> {
    match n {
        PatchNotice::Warning(PatchWarning::ProtectedFileSkipped { path, message }) => Some((path@, message@)),
        _ => None,
    }
}

/// One patch run: the decisions between the steps that the caller performs.
pub struct PatchSession {
    launcher_dir: String,
    exe_path: String,
    config_path: String,
    manifest_url: String,
    cwd: String,
    phase: PatchPhase,
    entries: Vec<FileEntry>,
    skipped: usize,
    plan: PatchPlan,
    checking: usize,
    local: String,
    current: usize,
    bytes_downloaded: u64,
    pending_total: u64,
    manifest: Ghost<Seq<FileEntryView>>,
}

impl PatchSession {
    pub closed spec fn phase_of(&self) -> PatchPhase {
        self.phase
    }

    pub closed spec fn launcher_dir_view(&self) -> Seq<char> {
        self.launcher_dir@
    }

    pub closed spec fn manifest_url_view(&self) -> Seq<char> {
        self.manifest_url@
    }

    pub closed spec fn exe_path_view(&self) -> Seq<char> {
        self.exe_path@
    }

    pub closed spec fn config_path_view(&self) -> Seq<char> {
        self.config_path@
    }

    /// The current directory, which places a launcher directory that is not absolute.
    pub closed spec fn cwd_view(&self) -> Seq<char> {
        self.cwd@
    }

    /// The files of the manifest that this run received.
    pub closed spec fn manifest_files(&self) -> Seq<FileEntryView> {
        self.manifest@
    }

    /// The entries that may be patched.
    pub closed spec fn entries_view(&self) -> Seq<FileEntryView> {
        entries_view(self.entries@)
    }

    pub closed spec fn plan_items(&self) -> Seq<PlanItemView> {
        items_view(self.plan.items@)
    }

    pub closed spec fn plan_checked(&self) -> usize {
        self.plan.checked_files
    }

    pub closed spec fn plan_valid(&self) -> usize {
        self.plan.valid_files
    }

    pub closed spec fn plan_missing(&self) -> usize {
        self.plan.missing_files
    }

    pub closed spec fn plan_changed(&self) -> usize {
        self.plan.changed_files
    }

    pub closed spec fn plan_to_download(&self) -> usize {
        self.plan.files_to_download
    }

    /// The entry being compared with the local file.
    pub closed spec fn checking_index(&self) -> int {
        self.checking as int
    }

    /// Where the entry being compared lies on disk.
    pub closed spec fn local_view(&self) -> Seq<char> {
        self.local@
    }

    pub closed spec fn current_item(&self) -> int {
        self.current as int
    }

    pub closed spec fn downloaded(&self) -> u64 {
        self.bytes_downloaded
    }

    pub closed spec fn pending(&self) -> u64 {
        self.pending_total
    }

    pub closed spec fn skipped_count(&self) -> usize {
        self.skipped
    }

    pub closed spec fn total_bytes(&self) -> u64 {
        self.plan.bytes_to_download
    }

    /// The entry being compared with the local file.
    pub open spec fn current_entry(&self) -> FileEntryView {
        self.entries_view()[self.checking_index()]
    }

    /// The request to look at the local file of the entry being compared:
    /// the entry's path resolved inside the launcher directory.
    pub open spec fn checks_current(&self, a: PatchAction) -> bool {
        &&& a matches PatchAction::CheckFile { path } && path@ == self.local_view()
        &&& self.phase_of() == PatchPhase::AwaitCheck
        &&& 0 <= self.checking_index() < self.entries_view().len()
        &&& resolve_spec(self.launcher_dir_view(), self.current_entry().path, self.cwd_view()) == Ok::<Seq<char>, ErrorView>(self.local_view())
    }

    /// The announcement of the finished plan, with the count of skipped files.
    pub open spec fn announces_plan(&self, n: PatchNotice) -> bool {
        n matches PatchNotice::PlanReady(p) && {
            &&& p.protected_skipped == self.skipped_count()
            &&& p.checked_files == self.plan_checked()
            &&& p.valid_files == self.plan_valid()
            &&& p.missing_files == self.plan_missing()
            &&& p.changed_files == self.plan_changed()
            &&& p.files_to_download == self.plan_to_download()
            &&& p.bytes_to_download == self.total_bytes()
            &&& items_view(p.items@) == self.plan_items()
            &&& p.checked_files == p.valid_files + p.missing_files + p.changed_files
            &&& p.files_to_download == p.missing_files + p.changed_files
            &&& p.files_to_download == p.items@.len()
            &&& p.wf()
        }
    }

    /// The download of the current item: its path, the MD5 of the first
    /// entry with that path, its place among the items, its size, and the
    /// byte counts that its progress starts from.
    pub open spec fn downloads_current(&self, a: PatchAction) -> bool {
        a matches PatchAction::Download { path, md5, file_index, file_total, file_size, total_bytes, start_total } && {
            let k = find_path(self.entries_view(), path@, 0);
            &&& 0 <= self.current_item() < self.plan_items().len()
            &&& path@ == self.plan_items()[self.current_item()].path
            &&& self.writable(path@)
            &&& 0 <= k < self.entries_view().len()
            &&& md5@ == self.entries_view()[k].md5
            &&& file_index == self.current_item() + 1
            &&& file_total == self.plan_items().len()
            &&& file_size == self.plan_items()[self.current_item()].size
            &&& total_bytes == self.total_bytes()
            &&& start_total == self.downloaded()
        }
    }

    /// A finished run reports the plan's counts, has gone through every item,
    /// and announces the same result last.
    pub open spec fn finishes(&self, ns: Seq<PatchNotice>, a: PatchAction) -> bool {
        a matches PatchAction::Finish(res) ==> {
            &&& self.phase_of() == PatchPhase::Done
            &&& res.status@ == "completed"@
            &&& res.checked_files == self.plan_checked()
            &&& res.checked_files == self.entries_view().len()
            &&& res.files_to_patch == self.plan_to_download()
            &&& res.files_patched == self.plan_to_download()
            &&& res.files_patched == self.plan_items().len()
            &&& res.bytes_downloaded == self.downloaded()
            &&& self.current_item() == self.plan_items().len()
            &&& (ns.last() matches PatchNotice::Completed(c) && same_result(c, res))
        }
    }

    /// What follows the comparison of an entry: the comparison of the next
    /// entry, or, once every entry is compared, the announcement of the plan
    /// and the first download (or the end when nothing is to download).
    pub open spec fn continues(&self, ns: Seq<PatchNotice>, a: PatchAction) -> bool {
        if self.checking_index() < self.entries_view().len() {
            &&& ns.len() == 0
            &&& self.checks_current(a)
        } else {
            &&& ns.len() == 2
            &&& self.announces_plan(ns[0])
            &&& self.plan_checked() == self.entries_view().len()
            &&& self.current_item() == 0
            &&& (a is Download || a is Finish)
            &&& (a is Download ==> self.downloads_current(a) && self.phase_of() == PatchPhase::AwaitDownload
                && ns[1] is FileStarted)
            &&& self.finishes(ns, a)
        }
    }

    /// The plan after the comparison of `cur`: counted, and with an item when
    /// there is a reason to download it.
    pub open spec fn recorded(&self, before: &PatchSession, cur: FileEntryView, reason: Option<ItemReason>) -> bool {
        &&& self.plan_checked() == before.plan_checked() + 1
        &&& self.checking_index() == before.checking_index() + 1
        &&& match reason {
            None => {
                &&& self.plan_items() == before.plan_items()
                &&& self.plan_valid() == before.plan_valid() + 1
            },
            Some(why) => self.plan_items() == before.plan_items().push(
                PlanItemView { path: cur.path, reason: why, size: cur.size },
            ),
        }
    }

    /// The same entries and the same plan, counts and items.
    pub open spec fn same_plan(&self, before: &PatchSession) -> bool {
        &&& self.entries_view() == before.entries_view()
        &&& self.plan_items() == before.plan_items()
        &&& self.plan_checked() == before.plan_checked()
        &&& self.plan_valid() == before.plan_valid()
        &&& self.plan_missing() == before.plan_missing()
        &&& self.plan_changed() == before.plan_changed()
        &&& self.plan_to_download() == before.plan_to_download()
        &&& self.total_bytes() == before.total_bytes()
    }

    /// The plan's counts agree: every compared entry is valid, missing or
    /// changed, and every missing or changed one is an item to download.
    pub open spec fn counts_agree(&self) -> bool {
        &&& self.plan_checked() == self.plan_valid() + self.plan_missing() + self.plan_changed()
        &&& self.plan_to_download() == self.plan_missing() + self.plan_changed()
        &&& self.plan_to_download() == self.plan_items().len()
    }

    /// A path the run may write: a file the manifest lists that is not protected.
    pub open spec fn writable(&self, path: Seq<char>) -> bool {
        &&& exists|j: int| 0 <= j < self.manifest_files().len() && (#[trigger] self.manifest_files()[j]).path == path
        &&& protected_spec(path, self.launcher_dir_view(), self.exe_path_view(), self.config_path_view(), self.cwd_view()) is Ok
    }

    pub closed spec fn wf(&self) -> bool {
        let es = entries_view(self.entries@);
        &&& forall|k: int| 0 <= k < es.len() ==> protected_spec(
            (#[trigger] es[k]).path,
            self.launcher_dir@,
            self.exe_path@,
            self.config_path@,
            self.cwd@,
        ) is Ok && self.manifest@.contains(es[k])
        &&& self.plan.wf()
        &&& items_in(items_view(self.plan.items@), es)
        &&& self.checking <= self.entries.len()
        &&& (self.phase == PatchPhase::AwaitCheck || self.phase == PatchPhase::AwaitHash) ==> {
            &&& self.checking < self.entries.len()
            &&& self.plan.checked_files == self.checking
            &&& resolve_spec(self.launcher_dir@, es[self.checking as int].path, self.cwd@) == Ok::<Seq<char>, ErrorView>(self.local@)
        }
        &&& self.current <= self.plan.items.len()
        &&& (self.phase == PatchPhase::AwaitDownload || self.phase == PatchPhase::AwaitReplace) ==> self.current
            < self.plan.items.len()
        &&& (self.phase == PatchPhase::AwaitDownload || self.phase == PatchPhase::AwaitReplace) ==> self.plan.checked_files
            == self.entries.len()
    }

    /// Whether the run can take `event` now. A report that adds the current
    /// entry to the download needs the total of bytes to stay within `u64`.
    pub open spec fn accepts(&self, event: &PatchEvent) -> bool {
        match event {
            PatchEvent::Cancelled => self.phase_of() != PatchPhase::Idle && self.phase_of() != PatchPhase::Done,
            PatchEvent::ManifestFetched(_) => self.phase_of() == PatchPhase::AwaitManifest,
            PatchEvent::FileChecked(r) => self.phase_of() == PatchPhase::AwaitCheck && (r matches Ok(found) && (
            found is None || found->Some_0 != self.current_entry().size) ==> self.total_bytes() + self.current_entry().size
                <= u64::MAX),
            PatchEvent::FileHashed(r) => self.phase_of() == PatchPhase::AwaitHash && (r matches Ok(h) && !same_hash(
                h@,
                self.current_entry().md5,
            ) ==> self.total_bytes() + self.current_entry().size <= u64::MAX),
            PatchEvent::Downloaded(_) => self.phase_of() == PatchPhase::AwaitDownload,
            PatchEvent::Replaced(_) => self.phase_of() == PatchPhase::AwaitReplace,
        }
    }

    pub fn new(launcher_dir: &str, exe_path: &str, config_path: &str, manifest_url: &str, cwd: &str) -> (s: PatchSession)
        ensures
            s.cwd_view() == cwd@,
            s.wf(),
            s.phase_of() == PatchPhase::Idle,
            s.launcher_dir_view() == launcher_dir@,
            s.exe_path_view() == exe_path@,
            s.config_path_view() == config_path@,
            s.manifest_url_view() == manifest_url@,
            s.manifest_files().len() == 0,
    {
        PatchSession {
            launcher_dir: launcher_dir.to_owned(),
            exe_path: exe_path.to_owned(),
            config_path: config_path.to_owned(),
            manifest_url: manifest_url.to_owned(),
            cwd: cwd.to_owned(),
            phase: PatchPhase::Idle,
            entries: Vec::new(),
            skipped: 0,
            plan: PatchPlan::empty(),
            checking: 0,
            local: String::new(),
            current: 0,
            bytes_downloaded: 0,
            pending_total: 0,
            manifest: Ghost(Seq::empty()),
        }
    }

    pub fn phase(&self) -> (p: PatchPhase)
        ensures
            p == self.phase_of(),
    {
        self.phase
    }

    /// Whether [`PatchSession::step`] can take `event` now.
    pub fn can_take(&self, event: &PatchEvent) -> (r: bool)
        requires
            self.wf(),
        ensures
            r == self.accepts(event),
    {
        match event {
            PatchEvent::Cancelled => self.phase != PatchPhase::Idle && self.phase != PatchPhase::Done,
            PatchEvent::ManifestFetched(_) => self.phase == PatchPhase::AwaitManifest,
            PatchEvent::FileChecked(r) => {
                if self.phase != PatchPhase::AwaitCheck {
                    return false;
                }
                let e = &self.entries[self.checking];
                assert(e@ == self.current_entry());
                let adds = match r {
                    Ok(None) => true,
                    Ok(Some(len)) => *len != e.size,
                    Err(_) => false,
                };
                !adds || e.size <= u64::MAX - self.plan.bytes_to_download
            },
            PatchEvent::FileHashed(r) => {
                if self.phase != PatchPhase::AwaitHash {
                    return false;
                }
                let e = &self.entries[self.checking];
                assert(e@ == self.current_entry());
                let adds = match r {
                    Ok(h) => !hashes_match(h.as_str(), e.md5.as_str()),
                    Err(_) => false,
                };
                !adds || e.size <= u64::MAX - self.plan.bytes_to_download
            },
            PatchEvent::Downloaded(_) => self.phase == PatchPhase::AwaitDownload,
            PatchEvent::Replaced(_) => self.phase == PatchPhase::AwaitReplace,
        }
    }

    /// The run begins: announce it and fetch the manifest.
    pub fn start(&mut self) -> (r: (Vec<PatchNotice>, PatchAction))
        requires
            old(self).wf(),
            old(self).phase_of() == PatchPhase::Idle,
        ensures
            final(self).wf(),
            final(self).phase_of() == PatchPhase::AwaitManifest,
            final(self).launcher_dir_view() == old(self).launcher_dir_view(),
            final(self).exe_path_view() == old(self).exe_path_view(),
            final(self).config_path_view() == old(self).config_path_view(),
            final(self).cwd_view() == old(self).cwd_view(),
            r.0@.len() == 1,
            r.0@[0] is Started,
            r.1 matches PatchAction::FetchManifest { url } && url@ == old(self).manifest_url_view(),
    {
        self.phase = PatchPhase::AwaitManifest;
        let mut notices: Vec<PatchNotice> = Vec::new();
        notices.push(PatchNotice::Started);
        (notices, PatchAction::FetchManifest { url: self.manifest_url.clone() })
    }

    /// An entry the run may patch has a writable path.
    proof fn lemma_entry_writable(&self, k: int)
        requires
            self.wf(),
            0 <= k < self.entries_view().len(),
        ensures
            self.writable(self.entries_view()[k].path),
    {
        let es = self.entries_view();
        assert(protected_spec(es[k].path, self.launcher_dir@, self.exe_path@, self.config_path@, self.cwd@) is Ok);
        assert(self.manifest@.contains(es[k]));
        let j = choose|j: int| 0 <= j < self.manifest@.len() && self.manifest@[j] == es[k];
        assert(self.manifest_files()[j].path == es[k].path);
    }

    /// The announcement and the download of the current item.
    fn begin_item(&self) -> (r: (PatchNotice, PatchAction))
        requires
            self.wf(),
            self.current < self.plan.items.len(),
        ensures
            r.1 matches PatchAction::Download { path, md5, file_index, file_total, file_size, total_bytes, start_total } && {
                &&& path@ == self.plan_items()[self.current_item()].path
                &&& self.writable(path@)
                &&& file_index == self.current + 1
                &&& file_total == self.plan.items.len()
                &&& file_size == self.plan.items@[self.current_item()].size
                &&& total_bytes == self.plan.bytes_to_download
                &&& start_total == self.bytes_downloaded
                &&& {
                    let k = find_path(self.entries_view(), path@, 0);
                    0 <= k < self.entries_view().len() && md5@ == self.entries_view()[k].md5
                }
            },
            r.0 matches PatchNotice::FileStarted(fs) && fs.path@ == self.plan_items()[self.current_item()].path
                && fs.file_index == self.current + 1 && fs.file_total == self.plan.items.len()
                && fs.file_size == self.plan.items@[self.current_item()].size,
    {
        let item = &self.plan.items[self.current];
        let ghost es = entries_view(self.entries@);
        let ghost p = item.path@;
        assert(items_view(self.plan.items@)[self.current as int] == item@);
        proof {
            lemma_find_path(es, p, 0);
            let k = choose|k: int| 0 <= k < es.len() && (#[trigger] es[k]).path == items_view(self.plan.items@)[self.current as int].path;
            assert(0 <= k < es.len() && es[k].path == p);
        }
        let mut i: usize = 0;
        while i < self.entries.len()
            invariant
                es == entries_view(self.entries@),
                i <= self.entries.len(),
                find_path(es, p, 0) == find_path(es, p, i as int),
                find_path(es, p, 0) != -1,
                p == item.path@,
            ensures
                i < self.entries.len(),
                es[i as int].path == p,
                find_path(es, p, 0) == find_path(es, p, i as int),
            decreases self.entries.len() - i,
        {
            if str_eq(self.entries[i].path.as_str(), item.path.as_str()) {
                assert(es[i as int].path == p);
                break;
            }
            i = i + 1;
        }
        let k = i;
        assert(find_path(es, p, 0) == k as int);
        proof {
            self.lemma_entry_writable(k as int);
        }
        let notice = PatchNotice::FileStarted(PatchFileStarted {
            path: item.path.clone(),
            file_index: self.current + 1,
            file_total: self.plan.items.len(),
            file_size: item.size,
        });
        let action = PatchAction::Download {
            path: item.path.clone(),
            md5: self.entries[k].md5.clone(),
            file_index: self.current + 1,
            file_total: self.plan.items.len(),
            file_size: item.size,
            total_bytes: self.plan.bytes_to_download,
            start_total: self.bytes_downloaded,
        };
        (notice, action)
    }

    /// The result once every item is in place.
    fn result(&self) -> (r: PatchResult)
        ensures
            r.status@ == "completed"@,
            r.checked_files == self.plan.checked_files,
            r.files_to_patch == self.plan.files_to_download,
            r.files_patched == self.plan.files_to_download,
            r.bytes_downloaded == self.bytes_downloaded,
    {
        PatchResult {
            status: "completed".to_owned(),
            checked_files: self.plan.checked_files,
            files_to_patch: self.plan.files_to_download,
            files_patched: self.plan.files_to_download,
            bytes_downloaded: self.bytes_downloaded,
        }
    }

    /// The manifest arrived: validate it, skip the protected entries with a
    /// warning each, and start comparing the others with the local files.
    #[verifier::spinoff_prover]
    #[verifier::rlimit(50)]
    fn on_manifest(&mut self, fetched: Result<Manifest, Error>) -> (r: (Vec<PatchNotice>, PatchAction))
        requires
            old(self).wf(),
            old(self).phase_of() == PatchPhase::AwaitManifest,
        ensures
            final(self).wf(),
            final(self).launcher_dir_view() == old(self).launcher_dir_view(),
            final(self).exe_path_view() == old(self).exe_path_view(),
            final(self).config_path_view() == old(self).config_path_view(),
            final(self).cwd_view() == old(self).cwd_view(),
            match fetched {
                Err(e) => final(self).phase_of() == PatchPhase::Done && r.0@.len() == 0 && (r.1 matches PatchAction::Fail(x) && x@ == e@),
                Ok(m) => match m.valid() {
                    Err(ev) => final(self).phase_of() == PatchPhase::Done && r.0@.len() == 0 && (r.1 matches PatchAction::Fail(x) && x@ == ev),
                    Ok(_) => {
                        let files = entries_view(m.files@);
                        let dir = old(self).launcher_dir_view();
                        let exe = old(self).exe_path_view();
                        let cfg = old(self).config_path_view();
                        let cwd = old(self).cwd_view();
                        let allowed = allowed_entries(files, dir, exe, cfg, cwd);
                        let warns = skip_warnings(files, dir, exe, cfg, cwd);
                        &&& final(self).manifest_files() == files
                        &&& final(self).entries_view() == allowed
                        &&& final(self).skipped_count() == warns.len()
                        &&& final(self).plan_items().len() == 0
                        &&& final(self).plan_valid() == 0
                        &&& final(self).plan_checked() == 0
                        &&& final(self).checking_index() == 0
                        &&& final(self).downloaded() == old(self).downloaded()
                        &&& r.0@.len() >= warns.len() + 2
                        &&& r.0@[0] is ManifestDownloaded
                        &&& forall|i: int| 0 <= i < warns.len() ==> warning_view(#[trigger] r.0@[i + 1]) == Some(warns[i])
                        &&& (r.0@[warns.len() + 1int] matches PatchNotice::Checking(c) && c.checked_files == 0 && c.total_files == allowed.len())
                        &&& final(self).continues(r.0@.skip(warns.len() + 2int), r.1)
                    },
                },
            },
    {
        let m = match fetched {
            Err(e) => return self.fail(e),
            Ok(m) => m,
        };
        match m.validate() {
            Err(e) => return self.fail(e),
            Ok(()) => {},
        }
        let ghost files = entries_view(m.files@);
        self.manifest = Ghost(files);
        self.entries = Vec::new();
        self.plan = PatchPlan::empty();
        self.current = 0;
        self.checking = 0;
        self.skipped = 0;
        let filtered = m.entries_excluding_protected(self.launcher_dir.as_str(), self.exe_path.as_str(), self.config_path.as_str(), self.cwd.as_str());
        let mut notices: Vec<PatchNotice> = Vec::new();
        notices.push(PatchNotice::ManifestDownloaded);
        let ghost dir = self.launcher_dir@;
        let ghost exe = self.exe_path@;
        let ghost cfg = self.config_path@;
        let ghost cwd = self.cwd@;
        let ghost mut warns: Seq<(Seq<char>, Seq<char>)> = Seq::empty();
        let mut k: usize = 0;
        while k < filtered.len()
            invariant
                files == entries_view(m.files@),
                self.manifest@ == files,
                dir == self.launcher_dir@,
                exe == self.exe_path@,
                cfg == self.config_path@,
                cwd == self.cwd@,
                filtered.len() == m.files.len(),
                forall|i: int| 0 <= i < filtered.len() ==> match #[trigger] filtered@[i] {
                    ProtectedResult::Allowed(e) => *e == m.files@[i] && protected_spec(e.path@, dir, exe, cfg, cwd) is Ok,
                    ProtectedResult::Skipped { entry, error } => *entry == m.files@[i] && protected_spec(entry.path@, dir, exe, cfg, cwd) == Err::<(), ErrorView>(error@),
                },
                k <= filtered.len(),
                entries_view(self.entries@) == allowed_entries(files.take(k as int), dir, exe, cfg, cwd),
                warns == skip_warnings(files.take(k as int), dir, exe, cfg, cwd),
                warns.len() <= k,
                self.skipped == warns.len(),
                notices@.len() == warns.len() + 1,
                notices@[0] is ManifestDownloaded,
                forall|i: int| 0 <= i < warns.len() ==> warning_view(#[trigger] notices@[i + 1]) == Some(warns[i]),
                forall|q: int| 0 <= q < self.entries@.len() ==> protected_spec(
                    (#[trigger] entries_view(self.entries@)[q]).path, dir, exe, cfg, cwd) is Ok && files.contains(entries_view(self.entries@)[q]),
                self.plan.wf(),
                self.plan.items@.len() == 0,
                self.plan.checked_files == 0,
                self.plan.valid_files == 0,
                self.current == 0,
                self.checking == 0,
                self.phase == PatchPhase::AwaitManifest,
                self.bytes_downloaded == old(self).bytes_downloaded,
            decreases filtered.len() - k,
        {
            assert(files.take(k + 1).drop_last() == files.take(k as int));
            assert(files[k as int] == m.files@[k as int]@);
            match &filtered[k] {
                ProtectedResult::Allowed(e) => {
                    let ghost before = entries_view(self.entries@);
                    self.entries.push(e.duplicate());
                    assert(entries_view(self.entries@) =~= before.push(files[k as int]));
                    assert(files.contains(files[k as int]));
                },
                ProtectedResult::Skipped { entry, error } => {
                    let ghost before = notices@;
                    notices.push(PatchNotice::Warning(PatchWarning::ProtectedFileSkipped { path: entry.path.clone(), message: error.message() }));
                    proof {
                        warns = warns.push((files[k as int].path, error_text(error@)));
                        assert forall|i: int| 0 <= i < warns.len() implies warning_view(#[trigger] notices@[i + 1]) == Some(warns[i]) by {
                            if i < warns.len() - 1 {
                                assert(notices@[i + 1] == before[i + 1]);
                            }
                        }
                    }
                    self.skipped = self.skipped + 1;
                },
            }
            k = k + 1;
        }
        assert(files.take(k as int) == files);
        let ghost before = notices@;
        notices.push(PatchNotice::Checking(PatchChecking { checked_files: 0, total_files: self.entries.len() }));
        assert forall|i: int| 0 <= i < warns.len() implies warning_view(#[trigger] notices@[i + 1]) == Some(warns[i]) by {
            assert(notices@[i + 1] == before[i + 1]);
        }
        let ghost head = notices@;
        let r = self.next_check(notices);
        proof {
            assert(r.0@.take(head.len() as int) == head);
            assert forall|i: int| 0 <= i < warns.len() implies warning_view(#[trigger] r.0@[i + 1]) == Some(warns[i]) by {
                assert(r.0@[i + 1] == r.0@.take(head.len() as int)[i + 1]);
            }
            assert(r.0@[0] == r.0@.take(head.len() as int)[0]);
            assert(r.0@[warns.len() + 1int] == r.0@.take(head.len() as int)[warns.len() + 1int]);
        }
        r
    }

    /// Asks for the local file of the next entry to compare, or, once every
    /// entry is compared, announces the plan and starts on its first item.
    fn next_check(&mut self, notices: Vec<PatchNotice>) -> (r: (Vec<PatchNotice>, PatchAction))
        requires
            old(self).wf(),
            old(self).plan_checked() == old(self).checking_index(),
        ensures
            final(self).wf(),
            final(self).launcher_dir_view() == old(self).launcher_dir_view(),
            final(self).exe_path_view() == old(self).exe_path_view(),
            final(self).config_path_view() == old(self).config_path_view(),
            final(self).cwd_view() == old(self).cwd_view(),
            final(self).manifest_files() == old(self).manifest_files(),
            final(self).entries_view() == old(self).entries_view(),
            final(self).skipped_count() == old(self).skipped_count(),
            final(self).plan_items() == old(self).plan_items(),
            final(self).plan_checked() == old(self).plan_checked(),
            final(self).plan_valid() == old(self).plan_valid(),
            final(self).checking_index() == old(self).checking_index(),
            final(self).downloaded() == old(self).downloaded(),
            r.0@.len() >= notices@.len(),
            r.0@.take(notices@.len() as int) == notices@,
            final(self).continues(r.0@.skip(notices@.len() as int), r.1),
    {
        if self.checking < self.entries.len() {
            self.ask_local(notices)
        } else {
            self.announce_plan(notices)
        }
    }

    /// Asks whether the local file of the entry to compare exists.
    fn ask_local(&mut self, notices: Vec<PatchNotice>) -> (r: (Vec<PatchNotice>, PatchAction))
        requires
            old(self).wf(),
            old(self).plan_checked() == old(self).checking_index(),
            old(self).checking_index() < old(self).entries_view().len(),
        ensures
            final(self).wf(),
            final(self).launcher_dir_view() == old(self).launcher_dir_view(),
            final(self).exe_path_view() == old(self).exe_path_view(),
            final(self).config_path_view() == old(self).config_path_view(),
            final(self).cwd_view() == old(self).cwd_view(),
            final(self).manifest_files() == old(self).manifest_files(),
            final(self).entries_view() == old(self).entries_view(),
            final(self).skipped_count() == old(self).skipped_count(),
            final(self).plan_items() == old(self).plan_items(),
            final(self).plan_checked() == old(self).plan_checked(),
            final(self).plan_valid() == old(self).plan_valid(),
            final(self).checking_index() == old(self).checking_index(),
            final(self).downloaded() == old(self).downloaded(),
            r.0@ == notices@,
            final(self).checks_current(r.1),
    {
        let ghost es = entries_view(self.entries@);
        assert(protected_spec(es[self.checking as int].path, self.launcher_dir@, self.exe_path@, self.config_path@, self.cwd@) is Ok);
        let local = match resolve_relative(self.launcher_dir.as_str(), self.entries[self.checking].path.as_str(), self.cwd.as_str()) {
            Ok(l) => l,
            Err(e) => {
                assert(false);
                return (notices, PatchAction::Fail(e));
            },
        };
        self.local = local;
        self.phase = PatchPhase::AwaitCheck;
        (notices, PatchAction::CheckFile { path: self.local.clone() })
    }

    /// Every entry is compared: announce the plan and start on its first item.
    fn announce_plan(&mut self, notices: Vec<PatchNotice>) -> (r: (Vec<PatchNotice>, PatchAction))
        requires
            old(self).wf(),
            old(self).plan_checked() == old(self).checking_index(),
            old(self).checking_index() >= old(self).entries_view().len(),
        ensures
            final(self).wf(),
            final(self).launcher_dir_view() == old(self).launcher_dir_view(),
            final(self).exe_path_view() == old(self).exe_path_view(),
            final(self).config_path_view() == old(self).config_path_view(),
            final(self).cwd_view() == old(self).cwd_view(),
            final(self).manifest_files() == old(self).manifest_files(),
            final(self).entries_view() == old(self).entries_view(),
            final(self).skipped_count() == old(self).skipped_count(),
            final(self).plan_items() == old(self).plan_items(),
            final(self).plan_checked() == old(self).plan_checked(),
            final(self).plan_valid() == old(self).plan_valid(),
            final(self).checking_index() == old(self).checking_index(),
            final(self).downloaded() == old(self).downloaded(),
            r.0@.len() >= notices@.len(),
            r.0@.take(notices@.len() as int) == notices@,
            final(self).continues(r.0@.skip(notices@.len() as int), r.1),
    {
        let ghost before = notices@;
        let mut notices = notices;
        self.current = 0;
        let ready = self.plan.with_protected_skipped(self.skipped);
        notices.push(PatchNotice::PlanReady(ready));
        let ghost mid = notices@;
        let r = self.next_item(notices);
        proof {
            assert(r.0@.take(mid.len() as int) == mid);
            assert(r.0@.take(before.len() as int) =~= mid.take(before.len() as int));
            assert(mid.take(before.len() as int) == before);
            let tail = r.0@.skip(before.len() as int);
            assert(tail.len() == 2);
            assert(tail[0] == mid[before.len() as int]);
            assert(tail[1] == r.0@.last());
            assert(tail.last() == r.0@.last());
        }
        r
    }

    /// The current entry is counted in the plan, with `reason` if it must be
    /// downloaded.
    #[verifier::spinoff_prover]
    #[verifier::rlimit(40)]
    fn count_current(&mut self, reason: Option<ItemReason>)
        requires
            old(self).wf(),
            old(self).phase_of() == PatchPhase::AwaitCheck || old(self).phase_of() == PatchPhase::AwaitHash,
            reason is Some ==> old(self).total_bytes() + old(self).current_entry().size <= u64::MAX,
        ensures
            final(self).wf(),
            final(self).phase_of() == PatchPhase::Done,
            final(self).plan_checked() == final(self).checking_index(),
            final(self).launcher_dir_view() == old(self).launcher_dir_view(),
            final(self).exe_path_view() == old(self).exe_path_view(),
            final(self).config_path_view() == old(self).config_path_view(),
            final(self).cwd_view() == old(self).cwd_view(),
            final(self).manifest_files() == old(self).manifest_files(),
            final(self).entries_view() == old(self).entries_view(),
            final(self).skipped_count() == old(self).skipped_count(),
            final(self).downloaded() == old(self).downloaded(),
            final(self).recorded(old(self), old(self).current_entry(), reason),
    {
        let ghost es = entries_view(self.entries@);
        let ghost items0 = items_view(self.plan.items@);
        let entry = self.entries[self.checking].duplicate();
        assert(entry@ == es[self.checking as int]);
        self.plan.record(&entry, reason);
        proof {
            if reason is Some {
                assert(items_view(self.plan.items@) =~= items0.push(self.plan.items@.last()@));
                assert forall|i: int| 0 <= i < items_view(self.plan.items@).len() implies exists|k: int| 0 <= k < es.len()
                    && (#[trigger] es[k]).path == (#[trigger] items_view(self.plan.items@)[i]).path by {
                    if i == items0.len() {
                        assert(es[self.checking as int].path == items_view(self.plan.items@)[i].path);
                    } else {
                        assert(items_view(self.plan.items@)[i] == items0[i]);
                    }
                }
            } else {
                assert(items_view(self.plan.items@) == items0);
            }
        }
        self.checking = self.checking + 1;
        self.phase = PatchPhase::Done;
    }

    /// The current entry is counted; the run goes on with the next entry.
    fn record_current(&mut self, reason: Option<ItemReason>) -> (r: (Vec<PatchNotice>, PatchAction))
        requires
            old(self).wf(),
            old(self).phase_of() == PatchPhase::AwaitCheck || old(self).phase_of() == PatchPhase::AwaitHash,
            reason is Some ==> old(self).total_bytes() + old(self).current_entry().size <= u64::MAX,
        ensures
            final(self).wf(),
            final(self).launcher_dir_view() == old(self).launcher_dir_view(),
            final(self).exe_path_view() == old(self).exe_path_view(),
            final(self).config_path_view() == old(self).config_path_view(),
            final(self).cwd_view() == old(self).cwd_view(),
            final(self).manifest_files() == old(self).manifest_files(),
            final(self).entries_view() == old(self).entries_view(),
            final(self).recorded(old(self), old(self).current_entry(), reason),
            final(self).continues(r.0@, r.1),
    {
        self.count_current(reason);
        let r = self.next_check(Vec::new());
        assert(r.0@.skip(0) == r.0@);
        r
    }

    /// The local file of the current entry was looked at: missing or of
    /// another size, it is to download; of the same size, its hash decides.
    fn on_checked(&mut self, checked: Result<Option<u64>, Error>) -> (r: (Vec<PatchNotice>, PatchAction))
        requires
            old(self).wf(),
            old(self).accepts(&PatchEvent::FileChecked(checked)),
        ensures
            final(self).wf(),
            final(self).launcher_dir_view() == old(self).launcher_dir_view(),
            final(self).exe_path_view() == old(self).exe_path_view(),
            final(self).config_path_view() == old(self).config_path_view(),
            final(self).cwd_view() == old(self).cwd_view(),
            final(self).manifest_files() == old(self).manifest_files(),
            final(self).entries_view() == old(self).entries_view(),
            match checked {
                Err(e) => final(self).phase_of() == PatchPhase::Done && r.0@.len() == 0 && (r.1 matches PatchAction::Fail(x) && x@ == e@),
                Ok(None) => final(self).recorded(old(self), old(self).current_entry(), Some(ItemReason::Missing))
                    && final(self).continues(r.0@, r.1),
                Ok(Some(len)) => if len != old(self).current_entry().size {
                    final(self).recorded(old(self), old(self).current_entry(), Some(ItemReason::SizeMismatch))
                        && final(self).continues(r.0@, r.1)
                } else {
                    &&& final(self).phase_of() == PatchPhase::AwaitHash
                    &&& r.0@.len() == 0
                    &&& (r.1 matches PatchAction::HashFile { path } && path@ == old(self).local_view())
                    &&& final(self).plan_items() == old(self).plan_items()
                    &&& final(self).plan_checked() == old(self).plan_checked()
                    &&& final(self).checking_index() == old(self).checking_index()
                    &&& final(self).local_view() == old(self).local_view()
                },
            },
    {
        match checked {
            Err(e) => self.fail(e),
            Ok(None) => self.record_current(Some(ItemReason::Missing)),
            Ok(Some(len)) => {
                let entry = &self.entries[self.checking];
                assert(entry@ == self.current_entry());
                match size_reason(len, entry) {
                    Some(why) => self.record_current(Some(why)),
                    None => {
                        self.phase = PatchPhase::AwaitHash;
                        (Vec::new(), PatchAction::HashFile { path: self.local.clone() })
                    },
                }
            },
        }
    }

    /// The hash of the current entry's local file arrived: a different hash
    /// (ignoring case) means it is to download.
    fn on_hashed(&mut self, hashed: Result<String, Error>) -> (r: (Vec<PatchNotice>, PatchAction))
        requires
            old(self).wf(),
            old(self).accepts(&PatchEvent::FileHashed(hashed)),
        ensures
            final(self).wf(),
            final(self).launcher_dir_view() == old(self).launcher_dir_view(),
            final(self).exe_path_view() == old(self).exe_path_view(),
            final(self).config_path_view() == old(self).config_path_view(),
            final(self).cwd_view() == old(self).cwd_view(),
            final(self).manifest_files() == old(self).manifest_files(),
            final(self).entries_view() == old(self).entries_view(),
            match hashed {
                Err(e) => final(self).phase_of() == PatchPhase::Done && r.0@.len() == 0 && (r.1 matches PatchAction::Fail(x) && x@ == e@),
                Ok(h) => final(self).recorded(
                    old(self),
                    old(self).current_entry(),
                    if same_hash(h@, old(self).current_entry().md5) { None } else { Some(ItemReason::HashMismatch) },
                ) && final(self).continues(r.0@, r.1),
            },
    {
        match hashed {
            Err(e) => self.fail(e),
            Ok(h) => {
                let entry = &self.entries[self.checking];
                assert(entry@ == self.current_entry());
                let why = hash_reason(h.as_str(), entry);
                self.record_current(why)
            },
        }
    }

    /// The current item was downloaded and verified: put it in place.
    fn on_downloaded(&mut self, done: Result<u64, Error>) -> (r: (Vec<PatchNotice>, PatchAction))
        requires
            old(self).wf(),
            old(self).phase_of() == PatchPhase::AwaitDownload,
        ensures
            final(self).wf(),
            final(self).launcher_dir_view() == old(self).launcher_dir_view(),
            final(self).exe_path_view() == old(self).exe_path_view(),
            final(self).config_path_view() == old(self).config_path_view(),
            final(self).cwd_view() == old(self).cwd_view(),
            final(self).manifest_files() == old(self).manifest_files(),
            final(self).same_plan(old(self)),
            r.0@.len() == 0,
            match done {
                Err(e) => final(self).phase_of() == PatchPhase::Done && (r.1 matches PatchAction::Fail(x) && x@ == e@),
                Ok(total) => {
                    &&& final(self).phase_of() == PatchPhase::AwaitReplace
                    &&& final(self).pending() == total
                    &&& final(self).current_item() == old(self).current_item()
                    &&& final(self).plan_items() == old(self).plan_items()
                    &&& final(self).downloaded() == old(self).downloaded()
                    &&& (r.1 matches PatchAction::Replace { path } && path@ == old(self).plan_items()[old(self).current_item()].path
                        && final(self).writable(path@))
                },
            },
    {
        let total = match done {
            Err(e) => return self.fail(e),
            Ok(t) => t,
        };
        self.pending_total = total;
        self.phase = PatchPhase::AwaitReplace;
        let item = &self.plan.items[self.current];
        assert(items_view(self.plan.items@)[self.current as int] == item@);
        proof {
            let es = entries_view(self.entries@);
            let k = choose|k: int| 0 <= k < es.len() && (#[trigger] es[k]).path == items_view(self.plan.items@)[self.current as int].path;
            self.lemma_entry_writable(k);
        }
        (Vec::new(), PatchAction::Replace { path: item.path.clone() })
    }

    /// The current item is in place: count it and go on to the next.
    fn on_replaced(&mut self, done: Result<(), Error>) -> (r: (Vec<PatchNotice>, PatchAction))
        requires
            old(self).wf(),
            old(self).phase_of() == PatchPhase::AwaitReplace,
        ensures
            final(self).wf(),
            final(self).same_plan(old(self)),
            final(self).launcher_dir_view() == old(self).launcher_dir_view(),
            final(self).exe_path_view() == old(self).exe_path_view(),
            final(self).config_path_view() == old(self).config_path_view(),
            final(self).cwd_view() == old(self).cwd_view(),
            final(self).manifest_files() == old(self).manifest_files(),
            match done {
                Err(e) => final(self).phase_of() == PatchPhase::Done && r.0@.len() == 0 && (r.1 matches PatchAction::Fail(x) && x@ == e@),
                Ok(_) => {
                    &&& final(self).downloaded() == old(self).pending()
                    &&& final(self).current_item() == old(self).current_item() + 1
                    &&& final(self).plan_items() == old(self).plan_items()
                    &&& r.0@.len() == 2
                    &&& (r.0@[0] matches PatchNotice::FileCompleted(fc) && {
                        &&& fc.path@ == old(self).plan_items()[old(self).current_item()].path
                        &&& fc.file_index == old(self).current_item() + 1
                        &&& fc.file_total == old(self).plan_items().len()
                        &&& fc.status@ == "completed"@
                    })
                    &&& r.1 is Download || r.1 is Finish
                    &&& r.1 is Download ==> final(self).downloads_current(r.1) && final(self).phase_of() == PatchPhase::AwaitDownload
                    &&& final(self).finishes(r.0@, r.1)
                    &&& (r.1 matches PatchAction::Finish(res) ==> {
                        &&& final(self).phase_of() == PatchPhase::Done
                        &&& old(self).current_item() + 1 == old(self).plan_items().len()
                        &&& res.status@ == "completed"@
                        &&& res.checked_files == final(self).plan_checked()
                        &&& res.files_to_patch == final(self).plan_to_download()
                        &&& res.files_patched == final(self).plan_to_download()
                        &&& res.bytes_downloaded == old(self).pending()
                    })
                },
            },
    {
        match done {
            Err(e) => self.fail(e),
            Ok(()) => {
                self.bytes_downloaded = self.pending_total;
                let item = &self.plan.items[self.current];
                assert(items_view(self.plan.items@)[self.current as int] == item@);
                let fc = PatchFileCompleted {
                    path: item.path.clone(),
                    file_index: self.current + 1,
                    file_total: self.plan.items.len(),
                    status: "completed".to_owned(),
                };
                self.phase = PatchPhase::Done;
                self.current = self.current + 1;
                let mut notices: Vec<PatchNotice> = Vec::new();
                notices.push(PatchNotice::FileCompleted(fc));
                let ghost first = notices@;
                let r = self.next_item(notices);
                assert(r.0@[0] == r.0@.take(1)[0]);
                assert(r.0@.take(1) == first);
                r
            },
        }
    }

    /// Takes the caller's report of the last action and decides the next one.
    ///
    /// Whatever the events, the run reads only the local files of the entries
    /// it may patch, asks to download and to replace only files that the
    /// manifest lists and that are not protected, compares each entry first
    /// by presence, then by size, then by MD5, keeps the plan as it is while
    /// it downloads and replaces, finishes with the plan's counts (every entry
    /// compared, every item downloaded), and ends with the error of a
    /// cancellation or of a failed step.
    pub fn step(&mut self, event: PatchEvent) -> (r: (Vec<PatchNotice>, PatchAction))
        requires
            old(self).wf(),
            old(self).accepts(&event),
        ensures
            final(self).wf(),
            final(self).launcher_dir_view() == old(self).launcher_dir_view(),
            final(self).exe_path_view() == old(self).exe_path_view(),
            final(self).config_path_view() == old(self).config_path_view(),
            final(self).cwd_view() == old(self).cwd_view(),
            r.1 is CheckFile ==> final(self).checks_current(r.1),
            r.1 matches PatchAction::HashFile { path } ==> final(self).phase_of() == PatchPhase::AwaitHash
                && resolve_spec(final(self).launcher_dir_view(), final(self).current_entry().path, final(self).cwd_view()) == Ok::<Seq<char>, ErrorView>(path@),
            r.1 is Download ==> final(self).downloads_current(r.1) && final(self).phase_of() == PatchPhase::AwaitDownload,
            r.1 matches PatchAction::Replace { path } ==> final(self).writable(path@) && final(self).phase_of() == PatchPhase::AwaitReplace,
            final(self).finishes(r.0@, r.1),
            final(self).counts_agree(),
            r.1 is Fail ==> final(self).phase_of() == PatchPhase::Done && r.0@.len() == 0,
            (event is Downloaded || event is Replaced || event is Cancelled) ==> final(self).same_plan(old(self)),
            match event {
                PatchEvent::Cancelled => (r.1 matches PatchAction::Fail(x) && x@ == ErrorView::DownloadCancelled),
                PatchEvent::ManifestFetched(fetched) => match fetched {
                    Err(e) => (r.1 matches PatchAction::Fail(x) && x@ == e@),
                    Ok(m) => match m.valid() {
                        Err(ev) => (r.1 matches PatchAction::Fail(x) && x@ == ev),
                        Ok(_) => {
                            let files = entries_view(m.files@);
                            let dir = old(self).launcher_dir_view();
                            let exe = old(self).exe_path_view();
                            let cfg = old(self).config_path_view();
                            let cwd = old(self).cwd_view();
                            let allowed = allowed_entries(files, dir, exe, cfg, cwd);
                            let warns = skip_warnings(files, dir, exe, cfg, cwd);
                            &&& final(self).manifest_files() == files
                            &&& final(self).entries_view() == allowed
                            &&& final(self).plan_checked() == 0
                            &&& r.0@.len() >= warns.len() + 2
                            &&& r.0@[0] is ManifestDownloaded
                            &&& forall|i: int| 0 <= i < warns.len() ==> warning_view(#[trigger] r.0@[i + 1]) == Some(warns[i])
                            &&& (r.0@[warns.len() + 1int] matches PatchNotice::Checking(c) && c.checked_files == 0 && c.total_files == allowed.len())
                            &&& final(self).continues(r.0@.skip(warns.len() + 2int), r.1)
                        },
                    },
                },
                PatchEvent::FileChecked(checked) => match checked {
                    Err(e) => (r.1 matches PatchAction::Fail(x) && x@ == e@),
                    Ok(None) => final(self).recorded(old(self), old(self).current_entry(), Some(ItemReason::Missing))
                        && final(self).continues(r.0@, r.1),
                    Ok(Some(len)) => if len != old(self).current_entry().size {
                        final(self).recorded(old(self), old(self).current_entry(), Some(ItemReason::SizeMismatch))
                            && final(self).continues(r.0@, r.1)
                    } else {
                        &&& r.0@.len() == 0
                        &&& (r.1 matches PatchAction::HashFile { path } && path@ == old(self).local_view())
                        &&& final(self).plan_items() == old(self).plan_items()
                        &&& final(self).plan_checked() == old(self).plan_checked()
                    },
                },
                PatchEvent::FileHashed(hashed) => match hashed {
                    Err(e) => (r.1 matches PatchAction::Fail(x) && x@ == e@),
                    Ok(h) => final(self).recorded(
                        old(self),
                        old(self).current_entry(),
                        if same_hash(h@, old(self).current_entry().md5) { None } else { Some(ItemReason::HashMismatch) },
                    ) && final(self).continues(r.0@, r.1),
                },
                PatchEvent::Downloaded(done) => match done {
                    Err(e) => (r.1 matches PatchAction::Fail(x) && x@ == e@),
                    Ok(total) => {
                        &&& final(self).pending() == total
                        &&& (r.1 matches PatchAction::Replace { path } && path@ == old(self).plan_items()[old(self).current_item()].path)
                    },
                },
                PatchEvent::Replaced(done) => match done {
                    Err(e) => (r.1 matches PatchAction::Fail(x) && x@ == e@),
                    Ok(_) => {
                        &&& final(self).downloaded() == old(self).pending()
                        &&& final(self).current_item() == old(self).current_item() + 1
                        &&& (r.0@[0] matches PatchNotice::FileCompleted(fc) && {
                            &&& fc.path@ == old(self).plan_items()[old(self).current_item()].path
                            &&& fc.file_index == old(self).current_item() + 1
                            &&& fc.file_total == old(self).plan_items().len()
                            &&& fc.status@ == "completed"@
                        })
                        &&& r.1 is Download || r.1 is Finish
                    },
                },
            },
    {
        match event {
            PatchEvent::Cancelled => self.fail(Error::DownloadCancelled),
            PatchEvent::ManifestFetched(fetched) => self.on_manifest(fetched),
            PatchEvent::FileChecked(checked) => self.on_checked(checked),
            PatchEvent::FileHashed(hashed) => self.on_hashed(hashed),
            PatchEvent::Downloaded(done) => self.on_downloaded(done),
            PatchEvent::Replaced(done) => self.on_replaced(done),
        }
    }

    /// Ends the run with `e`.
    fn fail(&mut self, e: Error) -> (r: (Vec<PatchNotice>, PatchAction))
        requires
            old(self).wf(),
        ensures
            final(self).wf(),
            final(self).phase_of() == PatchPhase::Done,
            final(self).launcher_dir_view() == old(self).launcher_dir_view(),
            final(self).exe_path_view() == old(self).exe_path_view(),
            final(self).config_path_view() == old(self).config_path_view(),
            final(self).cwd_view() == old(self).cwd_view(),
            final(self).manifest_files() == old(self).manifest_files(),
            final(self).entries_view() == old(self).entries_view(),
            final(self).same_plan(old(self)),
            final(self).current_item() == old(self).current_item(),
            final(self).downloaded() == old(self).downloaded(),
            r.0@.len() == 0,
            r.1 matches PatchAction::Fail(x) && x@ == e@,
    {
        self.phase = PatchPhase::Done;
        (Vec::new(), PatchAction::Fail(e))
    }

    /// Announces the current item and asks for its download, or finishes
    /// when no item is left.
    fn next_item(&mut self, notices: Vec<PatchNotice>) -> (r: (Vec<PatchNotice>, PatchAction))
        requires
            old(self).wf(),
            old(self).plan_checked() == old(self).entries_view().len(),
        ensures
            final(self).wf(),
            final(self).launcher_dir_view() == old(self).launcher_dir_view(),
            final(self).exe_path_view() == old(self).exe_path_view(),
            final(self).config_path_view() == old(self).config_path_view(),
            final(self).cwd_view() == old(self).cwd_view(),
            final(self).manifest_files() == old(self).manifest_files(),
            final(self).plan_items() == old(self).plan_items(),
            final(self).plan_checked() == old(self).plan_checked(),
            final(self).plan_valid() == old(self).plan_valid(),
            final(self).plan_missing() == old(self).plan_missing(),
            final(self).plan_changed() == old(self).plan_changed(),
            final(self).plan_to_download() == old(self).plan_to_download(),
            final(self).current_item() == old(self).current_item(),
            final(self).checking_index() == old(self).checking_index(),
            final(self).downloaded() == old(self).downloaded(),
            r.0@.len() == notices@.len() + 1,
            r.0@.take(notices@.len() as int) == notices@,
            final(self).skipped_count() == old(self).skipped_count(),
            final(self).entries_view() == old(self).entries_view(),
            final(self).pending() == old(self).pending(),
            final(self).total_bytes() == old(self).total_bytes(),
            r.1 is Download ==> final(self).downloads_current(r.1) && final(self).phase_of() == PatchPhase::AwaitDownload
                && r.0@.last() is FileStarted,
            r.1 is Download || r.1 is Finish,
            final(self).finishes(r.0@, r.1),
    {
        let mut notices = notices;
        let ghost before = notices@;
        if self.current < self.plan.items.len() {
            self.phase = PatchPhase::AwaitDownload;
            let (n, a) = self.begin_item();
            notices.push(n);
            assert(notices@.take(before.len() as int) == before);
            (notices, a)
        } else {
            let res = self.result();
            let res2 = self.result();
            notices.push(PatchNotice::Completed(res));
            assert(notices@.take(before.len() as int) == before);
            self.phase = PatchPhase::Done;
            (notices, PatchAction::Finish(res2))
        }
    }
}

} // verus!
