//! The remote manifest: the list of files the launcher may write.
use crate::error::{unit_result, Error, ErrorView};
use crate::path::{invalid_path, invalid_path_error, resolve_relative, resolve_spec};
use crate::text::{
    ascii_lower, ascii_lower_seq, chars_of, concat2, to_ascii_lowercase, to_lowercase, unicode_lowercase, vec_eq,
};
use vstd::prelude::*;

verus! {

pub const MANIFEST_VERSION: i64 = 1;

pub const MANIFEST_HASH_ALGORITHM_MD5: &'static str = "md5";

/// One file that the manifest lists.
#[derive(Debug, Clone)]
pub struct FileEntry {
    pub path: String,
    pub size: u64,
    pub md5: String,
}

pub struct FileEntryView {
    pub path: Seq<char>,
    pub size: u64,
    pub md5: Seq<char>,
}

impl View for FileEntry {
    type V = FileEntryView;

    open spec fn view(&self) -> FileEntryView {
        FileEntryView { path: self.path@, size: self.size, md5: self.md5@ }
    }
}

/// The manifest that a patch server publishes.
#[derive(Debug, Clone)]
pub struct Manifest {
    pub manifest_version: i64,
    pub hash_algorithm: String,
    pub generated_at: Option<String>,
    pub files: Vec<FileEntry>,
}

pub open spec fn entries_view(files: Seq<FileEntry>) -> Seq<FileEntryView> {
    files.map_values(|f: FileEntry| f@)
}

/// Whether a name is `md5` in any ASCII case.
pub open spec fn is_md5_name(s: Seq<char>) -> bool {
    ascii_lower_seq(s) =~= seq!['m', 'd', '5']
}

/// A `:` followed by a separator, as in `C:/` or `C:\`.
pub open spec fn has_drive_colon(p: Seq<char>) -> bool {
    exists|i: int| 0 <= i < p.len() - 1 && #[trigger] p[i] == ':' && (p[i + 1] == '/' || p[i + 1] == '\\')
}

/// A segment, between `/` or `\\` separators, that is exactly `..`.
pub open spec fn has_dotdot_segment(p: Seq<char>) -> bool {
    exists|i: int|
        0 <= i && i + 2 <= p.len() && #[trigger] p[i] == '.' && p[i + 1] == '.' && (i == 0 || p[i - 1] == '/'
            || p[i - 1] == '\\') && (i + 2 == p.len() || p[i + 2] == '/' || p[i + 2] == '\\')
}

/// `validate_entry_path`.
pub open spec fn entry_path_spec(p: Seq<char>) -> Result<(), ErrorView> {
    if p.len() == 0 {
        Err(invalid_path(p, "empty path"@))
    } else if p[0] == '/' || p[0] == '\\' || has_drive_colon(p) {
        Err(invalid_path(p, "absolute path"@))
    } else if has_dotdot_segment(p) {
        Err(invalid_path(p, "path traversal"@))
    } else {
        Ok(())
    }
}

pub fn validate_entry_path(path: &str) -> (r: Result<(), Error>)
    ensures
        unit_result(r) == entry_path_spec(path@),
{
    let p = chars_of(path);
    let n = p.len();
    if n == 0 {
        return Err(invalid_path_error(path, "empty path"));
    }
    if p[0] == '/' || p[0] == '\\' {
        return Err(invalid_path_error(path, "absolute path"));
    }
    let mut i: usize = 0;
    while i < n && n - i > 1
        invariant
            p@ == path@,
            n == p.len(),
            i <= n,
            forall|k: int| 0 <= k < i && k < n - 1 ==> !(#[trigger] p@[k] == ':' && (p@[k + 1] == '/' || p@[k + 1] == '\\')),
        decreases n - i,
    {
        if p[i] == ':' && (p[i + 1] == '/' || p[i + 1] == '\\') {
            assert(p@[i as int] == ':');
            return Err(invalid_path_error(path, "absolute path"));
        }
        i = i + 1;
    }
    let mut j: usize = 0;
    while j < n && n - j >= 2
        invariant
            p@ == path@,
            n == p.len(),
            n > 0,
            p@[0] != '/' && p@[0] != '\\',
            !has_drive_colon(p@),
            forall|k: int|
                0 <= k < j && k + 2 <= n ==> !(#[trigger] p@[k] == '.' && p@[k + 1] == '.' && (k == 0 || p@[k - 1] == '/'
                    || p@[k - 1] == '\\') && (k + 2 == n || p@[k + 2] == '/' || p@[k + 2] == '\\')),
        decreases n - j,
    {
        if p[j] == '.' && p[j + 1] == '.' && (j == 0 || p[j - 1] == '/' || p[j - 1] == '\\') && (j + 2 == n
            || p[j + 2] == '/' || p[j + 2] == '\\') {
            assert(p@[j as int] == '.');
            return Err(invalid_path_error(path, "path traversal"));
        }
        j = j + 1;
    }
    Ok(())
}

pub open spec fn is_hex_digit(c: char) -> bool {
    ('0' <= c && c <= '9') || ('a' <= c && c <= 'f') || ('A' <= c && c <= 'F')
}

/// `validate_entry_hash`: 32 bytes, all ASCII hex digits.
pub open spec fn entry_hash_spec(hash: Seq<char>, path: Seq<char>) -> Result<(), ErrorView> {
    if vstd::utf8::encode_utf8(hash).len() != 32 {
        Err(invalid_path(path, "md5 hash must be 32 hex characters"@))
    } else if !(forall|i: int| 0 <= i < hash.len() ==> is_hex_digit(#[trigger] hash[i])) {
        Err(invalid_path(path, "md5 hash contains non-hex characters"@))
    } else {
        Ok(())
    }
}

pub fn validate_entry_hash(hash: &str, path: &str) -> (r: Result<(), Error>)
    ensures
        unit_result(r) == entry_hash_spec(hash@, path@),
{
    if hash.as_bytes().len() != 32 {
        return Err(invalid_path_error(path, "md5 hash must be 32 hex characters"));
    }
    let h = chars_of(hash);
    let mut i: usize = 0;
    while i < h.len()
        invariant
            h@ == hash@,
            vstd::utf8::encode_utf8(hash@).len() == 32,
            i <= h.len(),
            forall|k: int| 0 <= k < i ==> is_hex_digit(#[trigger] h@[k]),
        decreases h.len() - i,
    {
        let c = h[i];
        if !(('0' <= c && c <= '9') || ('a' <= c && c <= 'f') || ('A' <= c && c <= 'F')) {
            assert(!is_hex_digit(hash@[i as int]));
            return Err(invalid_path_error(path, "md5 hash contains non-hex characters"));
        }
        i = i + 1;
    }
    Ok(())
}

/// The check of the entry at index `i`: its path, its hash, and no earlier
/// entry with the same path in lower case.
pub open spec fn entry_spec(fs: Seq<FileEntryView>, i: int) -> Result<(), ErrorView> {
    match entry_path_spec(fs[i].path) {
        Err(e) => Err(e),
        Ok(_) => match entry_hash_spec(fs[i].md5, fs[i].path) {
            Err(e) => Err(e),
            Ok(_) => if exists|j: int| 0 <= j < i && unicode_lowercase(#[trigger] fs[j].path) == unicode_lowercase(fs[i].path) {
                Err(ErrorView::ManifestDuplicatePath { path: fs[i].path })
            } else {
                Ok(())
            },
        },
    }
}

/// The entries `0..n` checked in order; the first failure is reported.
pub open spec fn entries_spec(fs: Seq<FileEntryView>, n: int) -> Result<(), ErrorView>
    decreases n,
{
    if n <= 0 {
        Ok(())
    } else {
        match entries_spec(fs, n - 1) {
            Err(e) => Err(e),
            Ok(_) => entry_spec(fs, n - 1),
        }
    }
}

pub proof fn lemma_entries_err_persists(fs: Seq<FileEntryView>, k: int, n: int)
    requires
        0 <= k <= n,
        entries_spec(fs, k) is Err,
    ensures
        entries_spec(fs, n) == entries_spec(fs, k),
    decreases n - k,
{
    if n > k {
        lemma_entries_err_persists(fs, k, n - 1);
    }
}

/// Entries that pass the checks `0..n` each passed their own check.
pub proof fn lemma_entries_ok(fs: Seq<FileEntryView>, n: int)
    requires
        entries_spec(fs, n) is Ok,
    ensures
        forall|k: int| 0 <= k < n ==> (#[trigger] entry_spec(fs, k)) is Ok,
    decreases n,
{
    if n > 0 {
        lemma_entries_ok(fs, n - 1);
    }
}

/// A manifest that passes validation has version 1 and the hash `md5`; each
/// of its paths is relative, holds no `..` segment and has a well-formed MD5;
/// no two of its paths are equal once put in lower case.
pub proof fn law_valid_manifest(version: i64, algo: Seq<char>, fs: Seq<FileEntryView>)
    requires
        manifest_spec(version, algo, fs) is Ok,
    ensures
        version == MANIFEST_VERSION,
        is_md5_name(algo),
        forall|i: int| 0 <= i < fs.len() ==> entry_path_spec(#[trigger] fs[i].path) is Ok && entry_hash_spec(fs[i].md5, fs[i].path) is Ok,
        forall|i: int| 0 <= i < fs.len() ==> !has_drive_colon(#[trigger] fs[i].path) && !has_dotdot_segment(fs[i].path),
        forall|i: int, j: int| 0 <= i < j < fs.len() ==> unicode_lowercase(#[trigger] fs[i].path) != unicode_lowercase(#[trigger] fs[j].path),
{
    lemma_entries_ok(fs, fs.len() as int);
    assert forall|i: int| 0 <= i < fs.len() implies entry_path_spec(#[trigger] fs[i].path) is Ok && entry_hash_spec(fs[i].md5, fs[i].path) is Ok by {
        assert(entry_spec(fs, i) is Ok);
    }
    assert forall|i: int| 0 <= i < fs.len() implies !has_drive_colon(#[trigger] fs[i].path) && !has_dotdot_segment(fs[i].path) by {
        assert(entry_spec(fs, i) is Ok);
    }
    assert forall|i: int, j: int| 0 <= i < j < fs.len() implies unicode_lowercase(#[trigger] fs[i].path) != unicode_lowercase(#[trigger] fs[j].path) by {
        assert(entry_spec(fs, j) is Ok);
        if unicode_lowercase(fs[i].path) == unicode_lowercase(fs[j].path) {
            assert(exists|k: int| 0 <= k < j && unicode_lowercase(#[trigger] fs[k].path) == unicode_lowercase(fs[j].path));
        }
    }
}

/// `Manifest::validate`.
pub open spec fn manifest_spec(version: i64, algo: Seq<char>, fs: Seq<FileEntryView>) -> Result<(), ErrorView> {
    if version != MANIFEST_VERSION {
        Err(ErrorView::ManifestUnsupportedVersion(version))
    } else if !is_md5_name(algo) {
        Err(ErrorView::ManifestUnsupportedHash(algo))
    } else {
        entries_spec(fs, fs.len() as int)
    }
}

impl Manifest {
    pub open spec fn valid(&self) -> Result<(), ErrorView> {
        manifest_spec(self.manifest_version, self.hash_algorithm@, entries_view(self.files@))
    }

    pub fn validate(&self) -> (r: Result<(), Error>)
        ensures
            unit_result(r) == self.valid(),
    {
        if self.manifest_version != MANIFEST_VERSION {
            return Err(Error::ManifestUnsupportedVersion(self.manifest_version));
        }
        let algo = to_ascii_lowercase(self.hash_algorithm.as_str());
        if !(algo.len() == 3 && algo[0] == 'm' && algo[1] == 'd' && algo[2] == '5') {
            proof {
                if is_md5_name(self.hash_algorithm@) {
                    assert(algo@ == seq!['m', 'd', '5']);
                }
            }
            return Err(Error::ManifestUnsupportedHash(self.hash_algorithm.clone()));
        }
        assert(algo@ =~= seq!['m', 'd', '5']);
        let ghost fs = entries_view(self.files@);
        let mut seen: Vec<Vec<char>> = Vec::new();
        let mut i: usize = 0;
        while i < self.files.len()
            invariant
                fs == entries_view(self.files@),
                self.manifest_version == MANIFEST_VERSION,
                is_md5_name(self.hash_algorithm@),
                i <= self.files.len(),
                entries_spec(fs, i as int) == Ok::<(), ErrorView>(()),
                seen.len() == i,
                forall|k: int| 0 <= k < i ==> (#[trigger] seen@[k])@ == unicode_lowercase(fs[k].path),
            decreases self.files.len() - i,
        {
            let entry = &self.files[i];
            assert(fs[i as int] == entry@);
            match validate_entry_path(entry.path.as_str()) {
                Ok(()) => {},
                Err(e) => {
                    proof { lemma_entries_err_persists(fs, i + 1, fs.len() as int); }
                    return Err(e);
                },
            }
            match validate_entry_hash(entry.md5.as_str(), entry.path.as_str()) {
                Ok(()) => {},
                Err(e) => {
                    proof { lemma_entries_err_persists(fs, i + 1, fs.len() as int); }
                    return Err(e);
                },
            }
            let lower_text = to_lowercase(entry.path.as_str());
            let lower = chars_of(lower_text.as_str());
            let mut j: usize = 0;
            while j < seen.len()
                invariant
                    fs == entries_view(self.files@),
                    self.manifest_version == MANIFEST_VERSION,
                    is_md5_name(self.hash_algorithm@),
                    i < self.files.len(),
                    seen.len() == i,
                    j <= seen.len(),
                    lower@ == unicode_lowercase(fs[i as int].path),
                    fs[i as int] == entry@,
                    entries_spec(fs, i as int) == Ok::<(), ErrorView>(()),
                    entry_path_spec(fs[i as int].path) == Ok::<(), ErrorView>(()),
                    entry_hash_spec(fs[i as int].md5, fs[i as int].path) == Ok::<(), ErrorView>(()),
                    forall|k: int| 0 <= k < i ==> (#[trigger] seen@[k])@ == unicode_lowercase(fs[k].path),
                    forall|k: int| 0 <= k < j ==> unicode_lowercase(#[trigger] fs[k].path) != unicode_lowercase(fs[i as int].path),
                decreases seen.len() - j,
            {
                if vec_eq(&seen[j], &lower) {
                    assert(unicode_lowercase(fs[j as int].path) == unicode_lowercase(fs[i as int].path));
                    proof { lemma_entries_err_persists(fs, i + 1, fs.len() as int); }
                    return Err(Error::ManifestDuplicatePath { path: entry.path.clone() });
                }
                j = j + 1;
            }
            seen.push(lower);
            i = i + 1;
        }
        Ok(())
    }
}

impl Manifest {
    /// The manifest that the TOML parser made of a text, validated: a parse
    /// failure is reported with the parser's message.
    pub fn from_parsed(parsed: Result<Manifest, String>) -> (r: Result<Manifest, Error>)
        ensures
            match parsed {
                Err(m) => r matches Err(e) && e@ == ErrorView::ManifestParseFailed(m@),
                Ok(man) => match man.valid() {
                    Err(ev) => r matches Err(e) && e@ == ev,
                    Ok(_) => r matches Ok(out) && out == man,
                },
            },
    {
        match parsed {
            Err(m) => Err(Error::ManifestParseFailed(m)),
            Ok(man) => match man.validate() {
                Err(e) => Err(e),
                Ok(()) => Ok(man),
            },
        }
    }
}

/// What `std::str::from_utf8` says of bytes that are not UTF-8.
pub uninterp spec fn utf8_error_text(bytes: Seq<u8>) -> Seq<char>;

/// `std::str::from_utf8`: the text that the bytes encode when they are
/// valid UTF-8; otherwise the error's message, a function of the bytes.
#[verifier::external_body]
fn utf8_text(bytes: &[u8]) -> (r: Result<String, String>)
    ensures
        match r {
            Ok(s) => vstd::utf8::valid_utf8(bytes@) && s@ == vstd::utf8::decode_utf8(bytes@),
            Err(m) => !vstd::utf8::valid_utf8(bytes@) && m@ == utf8_error_text(bytes@),
        },
{
    match std::str::from_utf8(bytes) {
        Ok(s) => Ok(s.to_string()),
        Err(e) => Err(e.to_string()),
    }
}

/// The text of a downloaded manifest; bytes that are not UTF-8 fail to parse.
pub fn manifest_text(bytes: &[u8]) -> (r: Result<String, Error>)
    ensures
        match r {
            Ok(s) => vstd::utf8::valid_utf8(bytes@) && s@ == vstd::utf8::decode_utf8(bytes@),
            Err(e) => !vstd::utf8::valid_utf8(bytes@) && e@ == ErrorView::ManifestParseFailed(
                "manifest is not valid UTF-8: "@ + utf8_error_text(bytes@),
            ),
        },
{
    match utf8_text(bytes) {
        Ok(s) => Ok(s),
        Err(m) => Err(Error::ManifestParseFailed(concat2("manifest is not valid UTF-8: ", m.as_str()))),
    }
}

/// `check_protected`: the entry resolves inside the launcher directory and is
/// neither the launcher executable nor its configuration (compared in lower case).
pub open spec fn protected_spec(entry_path: Seq<char>, launcher_dir: Seq<char>, exe_path: Seq<char>, config_path: Seq<char>, cwd: Seq<char>) -> Result<(), ErrorView> {
    match resolve_spec(launcher_dir, entry_path, cwd) {
        Err(e) => Err(e),
        Ok(local) => if unicode_lowercase(local) == unicode_lowercase(exe_path) || unicode_lowercase(local)
            == unicode_lowercase(config_path) {
            Err(ErrorView::ProtectedFileSkipped { path: local })
        } else {
            Ok(())
        },
    }
}

/// Only the launcher's own files are protected: an entry is skipped exactly
/// when it resolves to the executable or the configuration (ignoring case);
/// any other entry that resolves is accepted, and one that does not resolve
/// fails with the resolution's error.
pub proof fn law_protected_only_launcher_files(
    entry_path: Seq<char>,
    launcher_dir: Seq<char>,
    exe_path: Seq<char>,
    config_path: Seq<char>,
    cwd: Seq<char>,
)
    ensures
        resolve_spec(launcher_dir, entry_path, cwd) is Ok ==> ((protected_spec(entry_path, launcher_dir, exe_path, config_path, cwd) is Ok)
            <==> (unicode_lowercase(resolve_spec(launcher_dir, entry_path, cwd)->Ok_0) != unicode_lowercase(exe_path)
            && unicode_lowercase(resolve_spec(launcher_dir, entry_path, cwd)->Ok_0) != unicode_lowercase(config_path))),
        resolve_spec(launcher_dir, entry_path, cwd) is Ok && protected_spec(entry_path, launcher_dir, exe_path, config_path, cwd) is Err
            ==> protected_spec(entry_path, launcher_dir, exe_path, config_path, cwd) == Err::<(), ErrorView>(
            ErrorView::ProtectedFileSkipped { path: resolve_spec(launcher_dir, entry_path, cwd)->Ok_0 },
        ),
        resolve_spec(launcher_dir, entry_path, cwd) is Err ==> protected_spec(entry_path, launcher_dir, exe_path, config_path, cwd)
            == Err::<(), ErrorView>(resolve_spec(launcher_dir, entry_path, cwd)->Err_0),
{
}

/// Whether two paths name the same file, compared in lower case.
pub open spec fn same_file(left: Seq<char>, right: Seq<char>) -> bool {
    unicode_lowercase(left) == unicode_lowercase(right)
}

fn is_same_file(left: &str, right: &str) -> (r: bool)
    ensures
        r == same_file(left@, right@),
{
    let a = to_lowercase(left);
    let b = to_lowercase(right);
    a == b
}

/// Check whether a manifest entry points to a protected file (launcher exe or config).
/// Returns Ok(()) if safe, Err(ProtectedFileSkipped) if protected.
pub fn check_protected(entry: &FileEntry, launcher_dir: &str, exe_path: &str, config_path: &str, cwd: &str) -> (r: Result<(), Error>)
    ensures
        unit_result(r) == protected_spec(entry.path@, launcher_dir@, exe_path@, config_path@, cwd@),
{
    let local_path = match resolve_relative(launcher_dir, entry.path.as_str(), cwd) {
        Ok(p) => p,
        Err(e) => return Err(e),
    };
    if is_same_file(local_path.as_str(), exe_path) || is_same_file(local_path.as_str(), config_path) {
        return Err(Error::ProtectedFileSkipped { path: local_path });
    }
    Ok(())
}


impl FileEntry {
    /// A copy of the entry.
    pub fn duplicate(&self) -> (r: FileEntry)
        ensures
            r@ == self@,
    {
        FileEntry { path: self.path.clone(), size: self.size, md5: self.md5.clone() }
    }
}

/// An entry of the manifest, either safe to patch or skipped with the reason.
pub enum ProtectedResult<'a> {
    Allowed(&'a FileEntry),
    Skipped { entry: &'a FileEntry, error: Error },
}

impl Manifest {
    /// Every entry, in manifest order, marked safe or skipped by [`check_protected`].
    pub fn entries_excluding_protected(&self, launcher_dir: &str, exe_path: &str, config_path: &str, cwd: &str) -> (r: Vec<ProtectedResult<'_>>)
        ensures
            r.len() == self.files.len(),
            forall|i: int| 0 <= i < r.len() ==> match #[trigger] r@[i] {
                ProtectedResult::Allowed(e) => *e == self.files@[i] && protected_spec(e.path@, launcher_dir@, exe_path@, config_path@, cwd@) is Ok,
                ProtectedResult::Skipped { entry, error } => *entry == self.files@[i] && protected_spec(entry.path@, launcher_dir@, exe_path@, config_path@, cwd@) == Err::<(), ErrorView>(error@),
            },
    {
        let mut r: Vec<ProtectedResult<'_>> = Vec::new();
        let mut i: usize = 0;
        while i < self.files.len()
            invariant
                i <= self.files.len(),
                r.len() == i,
                forall|k: int| 0 <= k < r.len() ==> match #[trigger] r@[k] {
                    ProtectedResult::Allowed(e) => *e == self.files@[k] && protected_spec(e.path@, launcher_dir@, exe_path@, config_path@, cwd@) is Ok,
                    ProtectedResult::Skipped { entry, error } => *entry == self.files@[k] && protected_spec(entry.path@, launcher_dir@, exe_path@, config_path@, cwd@) == Err::<(), ErrorView>(error@),
                },
            decreases self.files.len() - i,
        {
            let entry = &self.files[i];
            match check_protected(entry, launcher_dir, exe_path, config_path, cwd) {
                Ok(()) => r.push(ProtectedResult::Allowed(entry)),
                Err(e) => r.push(ProtectedResult::Skipped { entry, error: e }),
            }
            i = i + 1;
        }
        r
    }
}

} // verus!
