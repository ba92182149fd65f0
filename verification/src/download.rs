//! What the downloader decides: where a download is staged, when its hash is
//! accepted, how a failed replacement is reported.
use crate::error::{text_result, unit_result, Error, ErrorView};
use crate::path::{resolve_relative, resolve_spec};
use crate::plan::{hashes_match, same_hash};
use crate::text::{chars_of, concat2, string_of};
use crate::winpath::{join_exec, join_spec};
use vstd::prelude::*;

verus! {

/// A downloaded file whose hash matched, waiting in the staging directory.
#[derive(Debug, Clone)]
pub struct TempVerifiedFile {
    pub temp_path: String,
    pub manifest_path: String,
}

/// Receives the number of bytes of each chunk as a download goes on.
pub trait DownloadProgress {
    fn on_bytes(&mut self, bytes: u64);
}

impl DownloadProgress for () {
    fn on_bytes(&mut self, bytes: u64) {
    }
}

pub open spec fn is_lower_hex(c: char) -> bool {
    ('0' <= c && c <= '9') || ('a' <= c && c <= 'f')
}

/// The hyphenated lower-case form of a UUID: 8-4-4-4-12 hex digits.
pub open spec fn uuid_form(s: Seq<char>) -> bool {
    &&& s.len() == 36
    &&& forall|i: int| 0 <= i < 36 ==> if i == 8 || i == 13 || i == 18 || i == 23 {
        #[trigger] s[i] == '-'
    } else {
        is_lower_hex(s[i])
    }
}

/// `uuid::Uuid::new_v4` written with `to_string`: a random UUID in its
/// hyphenated lower-case form. Which UUID comes out is left unsaid.
#[verifier::external_body]
fn new_uuid_text() -> (s: String)
    ensures
        uuid_form(s@),
{
    uuid::Uuid::new_v4().to_string()
}

/// Where a download with identifier `id` is staged: `<id>.bosspatcher.tmp`
/// in the `.bosspatcher` directory inside the launcher directory.
pub open spec fn temp_path_spec(launcher_dir: Seq<char>, id: Seq<char>, cwd: Seq<char>) -> Result<Seq<char>, ErrorView> {
    match resolve_spec(launcher_dir, ".bosspatcher"@, cwd) {
        Err(e) => Err(e),
        Ok(dir) => Ok(join_spec(dir, id + ".bosspatcher.tmp"@)),
    }
}

pub fn temp_file_path(launcher_dir: &str, id: &str, cwd: &str) -> (r: Result<String, Error>)
    ensures
        text_result(r) == temp_path_spec(launcher_dir@, id@, cwd@),
{
    let dir = match resolve_relative(launcher_dir, ".bosspatcher", cwd) {
        Ok(d) => d,
        Err(e) => return Err(e),
    };
    let name = concat2(id, ".bosspatcher.tmp");
    let d = chars_of(dir.as_str());
    let n = chars_of(name.as_str());
    let joined = join_exec(&d, &n);
    Ok(string_of(&joined))
}

/// A fresh staging path for a download; its name is a random UUID.
pub fn temp_path_for(manifest_path: &str, launcher_dir: &str, cwd: &str) -> (r: Result<String, Error>)
    ensures
        exists|id: Seq<char>| uuid_form(id) && text_result(r) == temp_path_spec(launcher_dir@, id, cwd@),
{
    let id = new_uuid_text();
    temp_file_path(launcher_dir, id.as_str(), cwd)
}

/// After a download, its MD5 must equal the manifest's, ignoring case.
pub open spec fn download_hash_spec(actual: Seq<char>, expected: Seq<char>, temp_path: Seq<char>) -> Result<(), ErrorView> {
    if same_hash(actual, expected) {
        Ok(())
    } else {
        Err(ErrorView::HashMismatch { path: temp_path })
    }
}

pub fn check_download_hash(actual: &str, expected: &str, temp_path: &str) -> (r: Result<(), Error>)
    ensures
        unit_result(r) == download_hash_spec(actual@, expected@, temp_path@),
{
    if hashes_match(actual, expected) {
        Ok(())
    } else {
        Err(Error::HashMismatch { path: temp_path.to_owned() })
    }
}

/// A refused rename is a locked file; any other failure is a failed replacement.
pub fn replace_error(target: &str, permission_denied: bool, reason: &str) -> (e: Error)
    ensures
        e@ == (if permission_denied {
            ErrorView::FileLocked { path: target@, reason: reason@ }
        } else {
            ErrorView::ReplaceFailed { path: target@, reason: reason@ }
        }),
{
    if permission_denied {
        Error::FileLocked { path: target.to_owned(), reason: reason.to_owned() }
    } else {
        Error::ReplaceFailed { path: target.to_owned(), reason: reason.to_owned() }
    }
}

/// A step of a download that failed: the manifest path, and the step's name
/// with what went wrong.
pub fn download_failed(manifest_path: &str, step: &str, detail: &str) -> (e: Error)
    ensures
        e@ == (ErrorView::DownloadFailed { path: manifest_path@, reason: step@ + ": "@ + detail@ }),
{
    let head = concat2(step, ": ");
    Error::DownloadFailed { path: manifest_path.to_owned(), reason: concat2(head.as_str(), detail) }
}

/// The server answered a download with an unsuccessful status.
pub fn download_refused(manifest_path: &str, status: &str) -> (e: Error)
    ensures
        e@ == (ErrorView::DownloadFailed { path: manifest_path@, reason: "server returned "@ + status@ }),
{
    Error::DownloadFailed { path: manifest_path.to_owned(), reason: concat2("server returned ", status) }
}

} // verus!
