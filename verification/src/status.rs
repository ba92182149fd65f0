//! What the launcher's commands report: status, error codes, error events.
use crate::config::{config_path_spec, derive_config_path, Config};
use crate::error::{error_text, Error, ErrorView};
use crate::text::{chars_of, concat2, string_of};
use crate::winpath::{parent_exec, parent_spec};
use crate::patch::PatchErrorEvent;
use vstd::prelude::*;

verus! {

/// The stable code of an error, as the user interface receives it.
pub open spec fn code_of(e: ErrorView) -> Seq<char> {
    match e {
        ErrorView::PatchAlreadyRunning => "PATCH_ALREADY_RUNNING"@,
        ErrorView::PatchInProgress => "PATCH_IN_PROGRESS"@,
        ErrorView::ManifestDownloadFailed(..) => "MANIFEST_DOWNLOAD_FAILED"@,
        ErrorView::ManifestParseFailed(..) => "MANIFEST_PARSE_FAILED"@,
        ErrorView::ManifestUnsupportedVersion(..) => "MANIFEST_UNSUPPORTED_VERSION"@,
        ErrorView::ManifestUnsupportedHash(..) => "MANIFEST_UNSUPPORTED_HASH"@,
        ErrorView::ManifestDuplicatePath { .. } => "MANIFEST_DUPLICATE_PATH"@,
        ErrorView::ManifestInvalidPath { .. } => "MANIFEST_INVALID_PATH"@,
        ErrorView::ProtectedFileSkipped { .. } => "PROTECTED_FILE_SKIPPED"@,
        ErrorView::LocalFileReadFailed { .. } => "LOCAL_FILE_READ_FAILED"@,
        ErrorView::LocalHashFailed { .. } => "LOCAL_HASH_FAILED"@,
        ErrorView::DownloadFailed { .. } => "DOWNLOAD_FAILED"@,
        ErrorView::DownloadCancelled => "DOWNLOAD_CANCELLED"@,
        ErrorView::HashMismatch { .. } => "HASH_MISMATCH"@,
        ErrorView::FileLocked { .. } => "FILE_LOCKED"@,
        ErrorView::ReplaceFailed { .. } => "REPLACE_FAILED"@,
        ErrorView::UnknownAlias { .. } => "UNKNOWN_ALIAS"@,
        ErrorView::InvalidAliasTarget { .. } => "INVALID_ALIAS_TARGET"@,
        ErrorView::TargetNotFound { .. } => "TARGET_NOT_FOUND"@,
        ErrorView::TargetNotExecutable { .. } => "TARGET_NOT_EXECUTABLE"@,
        ErrorView::ProcessStartFailed { .. } => "PROCESS_START_FAILED"@,
        ErrorView::ConfigNotFound { .. } => "CONFIG_NOT_FOUND"@,
        ErrorView::ConfigParseFailed(..) => "CONFIG_PARSE_FAILED"@,
        ErrorView::ConfigMissingField { .. } => "CONFIG_MISSING_FIELD"@,
        ErrorView::ConfigInvalidField { .. } => "CONFIG_INVALID_FIELD"@,
        ErrorView::LauncherUrlInvalid(..) => "LAUNCHER_URL_INVALID"@,
        ErrorView::LauncherUrlNotHttps(..) => "LAUNCHER_URL_NOT_HTTPS"@,
        ErrorView::ManifestUrlInvalid(..) => "MANIFEST_URL_INVALID"@,
        ErrorView::DataUrlInvalid(..) => "DATA_URL_INVALID"@,
        ErrorView::CallsMissing => "CALLS_MISSING"@,
        ErrorView::RemoteUiLoadFailed => "REMOTE_UI_LOAD_FAILED"@,
        ErrorView::Io(..) => "INTERNAL_ERROR"@,
        ErrorView::Join(..) => "INTERNAL_ERROR"@,
        ErrorView::Reqwest(..) => "INTERNAL_ERROR"@,
        ErrorView::Url(..) => "INTERNAL_ERROR"@,
    }
}

fn code_str(e: &Error) -> (s: &'static str)
    ensures
        s@ == code_of(e@),
{
    match e {
        Error::PatchAlreadyRunning => "PATCH_ALREADY_RUNNING",
        Error::PatchInProgress => "PATCH_IN_PROGRESS",
        Error::ManifestDownloadFailed(..) => "MANIFEST_DOWNLOAD_FAILED",
        Error::ManifestParseFailed(..) => "MANIFEST_PARSE_FAILED",
        Error::ManifestUnsupportedVersion(..) => "MANIFEST_UNSUPPORTED_VERSION",
        Error::ManifestUnsupportedHash(..) => "MANIFEST_UNSUPPORTED_HASH",
        Error::ManifestDuplicatePath { .. } => "MANIFEST_DUPLICATE_PATH",
        Error::ManifestInvalidPath { .. } => "MANIFEST_INVALID_PATH",
        Error::ProtectedFileSkipped { .. } => "PROTECTED_FILE_SKIPPED",
        Error::LocalFileReadFailed { .. } => "LOCAL_FILE_READ_FAILED",
        Error::LocalHashFailed { .. } => "LOCAL_HASH_FAILED",
        Error::DownloadFailed { .. } => "DOWNLOAD_FAILED",
        Error::DownloadCancelled => "DOWNLOAD_CANCELLED",
        Error::HashMismatch { .. } => "HASH_MISMATCH",
        Error::FileLocked { .. } => "FILE_LOCKED",
        Error::ReplaceFailed { .. } => "REPLACE_FAILED",
        Error::UnknownAlias { .. } => "UNKNOWN_ALIAS",
        Error::InvalidAliasTarget { .. } => "INVALID_ALIAS_TARGET",
        Error::TargetNotFound { .. } => "TARGET_NOT_FOUND",
        Error::TargetNotExecutable { .. } => "TARGET_NOT_EXECUTABLE",
        Error::ProcessStartFailed { .. } => "PROCESS_START_FAILED",
        Error::ConfigNotFound { .. } => "CONFIG_NOT_FOUND",
        Error::ConfigParseFailed(..) => "CONFIG_PARSE_FAILED",
        Error::ConfigMissingField { .. } => "CONFIG_MISSING_FIELD",
        Error::ConfigInvalidField { .. } => "CONFIG_INVALID_FIELD",
        Error::LauncherUrlInvalid(..) => "LAUNCHER_URL_INVALID",
        Error::LauncherUrlNotHttps(..) => "LAUNCHER_URL_NOT_HTTPS",
        Error::ManifestUrlInvalid(..) => "MANIFEST_URL_INVALID",
        Error::DataUrlInvalid(..) => "DATA_URL_INVALID",
        Error::CallsMissing => "CALLS_MISSING",
        Error::RemoteUiLoadFailed => "REMOTE_UI_LOAD_FAILED",
        Error::Io(..) => "INTERNAL_ERROR",
        Error::Join(..) => "INTERNAL_ERROR",
        Error::Reqwest(..) => "INTERNAL_ERROR",
        Error::Url(..) => "INTERNAL_ERROR",
    }
}

pub fn error_code(e: &Error) -> (s: String)
    ensures
        s@ == code_of(e@),
{
    code_str(e).to_owned()
}

/// The path an error is about, or nothing.
pub open spec fn path_of(e: ErrorView) -> Seq<char> {
    match e {
        ErrorView::ManifestDuplicatePath { path, .. } => path,
        ErrorView::ManifestInvalidPath { path, .. } => path,
        ErrorView::DownloadFailed { path, .. } => path,
        ErrorView::ProtectedFileSkipped { path, .. } => path,
        ErrorView::LocalFileReadFailed { path, .. } => path,
        ErrorView::LocalHashFailed { path, .. } => path,
        ErrorView::HashMismatch { path, .. } => path,
        ErrorView::FileLocked { path, .. } => path,
        ErrorView::ReplaceFailed { path, .. } => path,
        ErrorView::TargetNotFound { path, .. } => path,
        ErrorView::TargetNotExecutable { path, .. } => path,
        ErrorView::ProcessStartFailed { path, .. } => path,
        ErrorView::ConfigNotFound { path, .. } => path,
        _ => Seq::<char>::empty(),
    }
}

pub fn error_path(e: &Error) -> (s: String)
    ensures
        s@ == path_of(e@),
{
    match e {
        Error::ManifestDuplicatePath { path, .. } => path.clone(),
        Error::ManifestInvalidPath { path, .. } => path.clone(),
        Error::DownloadFailed { path, .. } => path.clone(),
        Error::ProtectedFileSkipped { path, .. } => path.clone(),
        Error::LocalFileReadFailed { path, .. } => path.clone(),
        Error::LocalHashFailed { path, .. } => path.clone(),
        Error::HashMismatch { path, .. } => path.clone(),
        Error::FileLocked { path, .. } => path.clone(),
        Error::ReplaceFailed { path, .. } => path.clone(),
        Error::TargetNotFound { path, .. } => path.clone(),
        Error::TargetNotExecutable { path, .. } => path.clone(),
        Error::ProcessStartFailed { path, .. } => path.clone(),
        Error::ConfigNotFound { path, .. } => path.clone(),
        _ => String::new(),
    }
}

/// A failed download, a locked file or a failed manifest download may succeed when retried.
pub open spec fn retryable(e: ErrorView) -> bool {
    e is DownloadFailed || e is FileLocked || e is ManifestDownloadFailed
}

pub fn is_retryable(e: &Error) -> (b: bool)
    ensures
        b == retryable(e@),
{
    match e {
        Error::DownloadFailed { .. } | Error::FileLocked { .. } | Error::ManifestDownloadFailed(_) => true,
        _ => false,
    }
}

impl PatchErrorEvent {
    /// The event that reports a failed patch.
    pub fn from_error(e: &Error) -> (ev: PatchErrorEvent)
        ensures
            ev.code@ == code_of(e@),
            ev.path@ == path_of(e@),
            ev.message@ == error_text(e@),
            ev.retryable == retryable(e@),
    {
        PatchErrorEvent { code: error_code(e), path: error_path(e), message: e.message(), retryable: is_retryable(e) }
    }
}

/// A command that would disturb a running patch is refused with `PATCH_IN_PROGRESS`.
pub fn command_allowed(patch_running: bool) -> (r: Result<(), String>)
    ensures
        patch_running <==> r is Err,
        r matches Err(m) ==> m@ == "PATCH_IN_PROGRESS"@,
{
    if patch_running {
        Err("PATCH_IN_PROGRESS".to_owned())
    } else {
        Ok(())
    }
}

/// What the user interface learns of the launcher.
#[derive(Debug, Clone)]
pub struct Status {
    pub config_loaded: bool,
    pub title: Option<String>,
    pub launcher_url: Option<String>,
    pub aliases: Vec<String>,
    pub patch_running: bool,
    pub last_error: Option<String>,
}

impl Status {
    /// The status of a launcher whose configuration is loaded.
    pub fn for_config(config: &Config, patch_running: bool, last_error: Option<String>) -> (s: Status)
        ensures
            s.config_loaded,
            s.title matches Some(t) && t@ == config.title@,
            s.launcher_url matches Some(u) && u@ == config.launcher_url@,
            s.aliases@.len() == config.calls@.len(),
            forall|i: int| 0 <= i < s.aliases@.len() ==> (#[trigger] s.aliases@[i])@ == config.calls@[i].0@,
            s.patch_running == patch_running,
            s.last_error == last_error,
    {
        let mut aliases: Vec<String> = Vec::new();
        let mut i: usize = 0;
        while i < config.calls.len()
            invariant
                i <= config.calls.len(),
                aliases@.len() == i,
                forall|k: int| 0 <= k < i ==> (#[trigger] aliases@[k])@ == config.calls@[k].0@,
            decreases config.calls.len() - i,
        {
            aliases.push(config.calls[i].0.clone());
            i = i + 1;
        }
        Status {
            config_loaded: true,
            title: Some(config.title.clone()),
            launcher_url: Some(config.launcher_url.clone()),
            aliases,
            patch_running,
            last_error,
        }
    }
}

/// Cancelling is accepted only while a patch runs; otherwise the command is
/// answered with `PATCH_NOT_RUNNING`.
pub fn cancel_reply(accepted: bool) -> (r: Result<(), String>)
    ensures
        accepted <==> r is Ok,
        r matches Err(m) ==> m@ == "PATCH_NOT_RUNNING"@,
{
    if accepted {
        Ok(())
    } else {
        Err("PATCH_NOT_RUNNING".to_owned())
    }
}

/// At start-up: the launcher directory is the executable's parent, the
/// configuration sits beside the executable; each failure has its message.
pub open spec fn startup_spec(exe: Seq<char>) -> Result<(Seq<char>, Seq<char>), Seq<char>> {
    match parent_spec(exe) {
        None => Err("Executable has no parent directory"@),
        Some(dir) => match config_path_spec(exe) {
            Err(e) => Err("Failed to derive config path: "@ + error_text(e)),
            Ok(c) => Ok((dir, c)),
        },
    }
}

/// The launcher directory and the configuration path of the executable at `exe_path`.
pub fn startup_paths(exe_path: &str) -> (r: Result<(String, String), String>)
    ensures
        match r {
            Ok((d, c)) => startup_spec(exe_path@) == Ok::<(Seq<char>, Seq<char>), Seq<char>>((d@, c@)),
            Err(m) => startup_spec(exe_path@) == Err::<(Seq<char>, Seq<char>), Seq<char>>(m@),
        },
{
    let exe = chars_of(exe_path);
    let dir = match parent_exec(&exe) {
        None => return Err("Executable has no parent directory".to_owned()),
        Some(d) => d,
    };
    match derive_config_path(exe_path) {
        Err(e) => {
            let m = e.message();
            Err(concat2("Failed to derive config path: ", m.as_str()))
        },
        Ok(c) => Ok((string_of(&dir), c)),
    }
}

/// Which code an error gets: its variant, with `Io`, `Join`, `Reqwest` and
/// `Url` together as internal errors.
pub open spec fn error_class(e: ErrorView) -> int {
    match e {
        ErrorView::PatchAlreadyRunning => 0,
        ErrorView::PatchInProgress => 1,
        ErrorView::ManifestDownloadFailed(..) => 2,
        ErrorView::ManifestParseFailed(..) => 3,
        ErrorView::ManifestUnsupportedVersion(..) => 4,
        ErrorView::ManifestUnsupportedHash(..) => 5,
        ErrorView::ManifestDuplicatePath { .. } => 6,
        ErrorView::ManifestInvalidPath { .. } => 7,
        ErrorView::ProtectedFileSkipped { .. } => 8,
        ErrorView::LocalFileReadFailed { .. } => 9,
        ErrorView::LocalHashFailed { .. } => 10,
        ErrorView::DownloadFailed { .. } => 11,
        ErrorView::DownloadCancelled => 12,
        ErrorView::HashMismatch { .. } => 13,
        ErrorView::FileLocked { .. } => 14,
        ErrorView::ReplaceFailed { .. } => 15,
        ErrorView::UnknownAlias { .. } => 16,
        ErrorView::InvalidAliasTarget { .. } => 17,
        ErrorView::TargetNotFound { .. } => 18,
        ErrorView::TargetNotExecutable { .. } => 19,
        ErrorView::ProcessStartFailed { .. } => 20,
        ErrorView::ConfigNotFound { .. } => 21,
        ErrorView::ConfigParseFailed(..) => 22,
        ErrorView::ConfigMissingField { .. } => 23,
        ErrorView::ConfigInvalidField { .. } => 24,
        ErrorView::LauncherUrlInvalid(..) => 25,
        ErrorView::LauncherUrlNotHttps(..) => 26,
        ErrorView::ManifestUrlInvalid(..) => 27,
        ErrorView::DataUrlInvalid(..) => 28,
        ErrorView::CallsMissing => 29,
        ErrorView::RemoteUiLoadFailed => 30,
        ErrorView::Io(..) => 31,
        ErrorView::Join(..) => 31,
        ErrorView::Reqwest(..) => 31,
        ErrorView::Url(..) => 31,
    }
}

/// The error class that a code names.
pub open spec fn class_of_code(s: Seq<char>) -> int {
    if s == "PATCH_ALREADY_RUNNING"@ {
        0
    } else if s == "PATCH_IN_PROGRESS"@ {
        1
    } else if s == "MANIFEST_DOWNLOAD_FAILED"@ {
        2
    } else if s == "MANIFEST_PARSE_FAILED"@ {
        3
    } else if s == "MANIFEST_UNSUPPORTED_VERSION"@ {
        4
    } else if s == "MANIFEST_UNSUPPORTED_HASH"@ {
        5
    } else if s == "MANIFEST_DUPLICATE_PATH"@ {
        6
    } else if s == "MANIFEST_INVALID_PATH"@ {
        7
    } else if s == "PROTECTED_FILE_SKIPPED"@ {
        8
    } else if s == "LOCAL_FILE_READ_FAILED"@ {
        9
    } else if s == "LOCAL_HASH_FAILED"@ {
        10
    } else if s == "DOWNLOAD_FAILED"@ {
        11
    } else if s == "DOWNLOAD_CANCELLED"@ {
        12
    } else if s == "HASH_MISMATCH"@ {
        13
    } else if s == "FILE_LOCKED"@ {
        14
    } else if s == "REPLACE_FAILED"@ {
        15
    } else if s == "UNKNOWN_ALIAS"@ {
        16
    } else if s == "INVALID_ALIAS_TARGET"@ {
        17
    } else if s == "TARGET_NOT_FOUND"@ {
        18
    } else if s == "TARGET_NOT_EXECUTABLE"@ {
        19
    } else if s == "PROCESS_START_FAILED"@ {
        20
    } else if s == "CONFIG_NOT_FOUND"@ {
        21
    } else if s == "CONFIG_PARSE_FAILED"@ {
        22
    } else if s == "CONFIG_MISSING_FIELD"@ {
        23
    } else if s == "CONFIG_INVALID_FIELD"@ {
        24
    } else if s == "LAUNCHER_URL_INVALID"@ {
        25
    } else if s == "LAUNCHER_URL_NOT_HTTPS"@ {
        26
    } else if s == "MANIFEST_URL_INVALID"@ {
        27
    } else if s == "DATA_URL_INVALID"@ {
        28
    } else if s == "CALLS_MISSING"@ {
        29
    } else if s == "REMOTE_UI_LOAD_FAILED"@ {
        30
    } else if s == "INTERNAL_ERROR"@ {
        31
    } else {
        -1
    }
}

/// The class read back from an error's code is the error's class.
pub proof fn lemma_class_of_code(e: ErrorView)
    ensures
        class_of_code(code_of(e)) == error_class(e),
{
    reveal_strlit("PATCH_ALREADY_RUNNING");
    reveal_strlit("PATCH_IN_PROGRESS");
    reveal_strlit("MANIFEST_DOWNLOAD_FAILED");
    reveal_strlit("MANIFEST_PARSE_FAILED");
    reveal_strlit("MANIFEST_UNSUPPORTED_VERSION");
    reveal_strlit("MANIFEST_UNSUPPORTED_HASH");
    reveal_strlit("MANIFEST_DUPLICATE_PATH");
    reveal_strlit("MANIFEST_INVALID_PATH");
    reveal_strlit("PROTECTED_FILE_SKIPPED");
    reveal_strlit("LOCAL_FILE_READ_FAILED");
    reveal_strlit("LOCAL_HASH_FAILED");
    reveal_strlit("DOWNLOAD_FAILED");
    reveal_strlit("DOWNLOAD_CANCELLED");
    reveal_strlit("HASH_MISMATCH");
    reveal_strlit("FILE_LOCKED");
    reveal_strlit("REPLACE_FAILED");
    reveal_strlit("UNKNOWN_ALIAS");
    reveal_strlit("INVALID_ALIAS_TARGET");
    reveal_strlit("TARGET_NOT_FOUND");
    reveal_strlit("TARGET_NOT_EXECUTABLE");
    reveal_strlit("PROCESS_START_FAILED");
    reveal_strlit("CONFIG_NOT_FOUND");
    reveal_strlit("CONFIG_PARSE_FAILED");
    reveal_strlit("CONFIG_MISSING_FIELD");
    reveal_strlit("CONFIG_INVALID_FIELD");
    reveal_strlit("LAUNCHER_URL_INVALID");
    reveal_strlit("LAUNCHER_URL_NOT_HTTPS");
    reveal_strlit("MANIFEST_URL_INVALID");
    reveal_strlit("DATA_URL_INVALID");
    reveal_strlit("CALLS_MISSING");
    reveal_strlit("REMOTE_UI_LOAD_FAILED");
    reveal_strlit("INTERNAL_ERROR");
    assert("PATCH_ALREADY_RUNNING"@.len() == 21);
    assert("PATCH_IN_PROGRESS"@.len() == 17);
    assert("MANIFEST_DOWNLOAD_FAILED"@.len() == 24);
    assert("MANIFEST_PARSE_FAILED"@.len() == 21);
    assert("MANIFEST_UNSUPPORTED_VERSION"@.len() == 28);
    assert("MANIFEST_UNSUPPORTED_HASH"@.len() == 25);
    assert("MANIFEST_DUPLICATE_PATH"@.len() == 23);
    assert("MANIFEST_INVALID_PATH"@.len() == 21);
    assert("PROTECTED_FILE_SKIPPED"@.len() == 22);
    assert("LOCAL_FILE_READ_FAILED"@.len() == 22);
    assert("LOCAL_HASH_FAILED"@.len() == 17);
    assert("DOWNLOAD_FAILED"@.len() == 15);
    assert("DOWNLOAD_CANCELLED"@.len() == 18);
    assert("HASH_MISMATCH"@.len() == 13);
    assert("FILE_LOCKED"@.len() == 11);
    assert("REPLACE_FAILED"@.len() == 14);
    assert("UNKNOWN_ALIAS"@.len() == 13);
    assert("INVALID_ALIAS_TARGET"@.len() == 20);
    assert("TARGET_NOT_FOUND"@.len() == 16);
    assert("TARGET_NOT_EXECUTABLE"@.len() == 21);
    assert("PROCESS_START_FAILED"@.len() == 20);
    assert("CONFIG_NOT_FOUND"@.len() == 16);
    assert("CONFIG_PARSE_FAILED"@.len() == 19);
    assert("CONFIG_MISSING_FIELD"@.len() == 20);
    assert("CONFIG_INVALID_FIELD"@.len() == 20);
    assert("LAUNCHER_URL_INVALID"@.len() == 20);
    assert("LAUNCHER_URL_NOT_HTTPS"@.len() == 22);
    assert("MANIFEST_URL_INVALID"@.len() == 20);
    assert("DATA_URL_INVALID"@.len() == 16);
    assert("CALLS_MISSING"@.len() == 13);
    assert("REMOTE_UI_LOAD_FAILED"@.len() == 21);
    assert("INTERNAL_ERROR"@.len() == 14);
    assert("PATCH_ALREADY_RUNNING"@[0] == 'P');
    assert("TARGET_NOT_EXECUTABLE"@[0] == 'T');
    assert("REMOTE_UI_LOAD_FAILED"@[0] == 'R');
    assert("MANIFEST_PARSE_FAILED"@[0] == 'M');
    assert("MANIFEST_INVALID_PATH"@[0] == 'M');
    assert("MANIFEST_INVALID_PATH"@[9] == 'I');
    assert("MANIFEST_PARSE_FAILED"@[9] == 'P');
    assert("LOCAL_FILE_READ_FAILED"@[0] == 'L');
    assert("PROTECTED_FILE_SKIPPED"@[0] == 'P');
    assert("LOCAL_HASH_FAILED"@[0] == 'L');
    assert("PATCH_IN_PROGRESS"@[0] == 'P');
    assert("HASH_MISMATCH"@[0] == 'H');
    assert("UNKNOWN_ALIAS"@[0] == 'U');
    assert("INVALID_ALIAS_TARGET"@[0] == 'I');
    assert("PROCESS_START_FAILED"@[0] == 'P');
    assert("LAUNCHER_URL_INVALID"@[0] == 'L');
    assert("MANIFEST_URL_INVALID"@[0] == 'M');
    assert("CONFIG_NOT_FOUND"@[0] == 'C');
    assert("TARGET_NOT_FOUND"@[0] == 'T');
    assert("DATA_URL_INVALID"@[0] == 'D');
    assert("CONFIG_MISSING_FIELD"@[0] == 'C');
    assert("CONFIG_INVALID_FIELD"@[0] == 'C');
    assert("CONFIG_INVALID_FIELD"@[7] == 'I');
    assert("CONFIG_MISSING_FIELD"@[7] == 'M');
    assert("LAUNCHER_URL_NOT_HTTPS"@[0] == 'L');
    assert("LAUNCHER_URL_NOT_HTTPS"@[1] == 'A');
    assert("LOCAL_FILE_READ_FAILED"@[1] == 'O');
    assert("CALLS_MISSING"@[0] == 'C');
    assert("INTERNAL_ERROR"@[0] == 'I');
    assert("REPLACE_FAILED"@[0] == 'R');
    match e {
        ErrorView::PatchAlreadyRunning => {},
        ErrorView::PatchInProgress => {},
        ErrorView::ManifestDownloadFailed(..) => {},
        ErrorView::ManifestParseFailed(..) => {},
        ErrorView::ManifestUnsupportedVersion(..) => {},
        ErrorView::ManifestUnsupportedHash(..) => {},
        ErrorView::ManifestDuplicatePath { .. } => {},
        ErrorView::ManifestInvalidPath { .. } => {},
        ErrorView::ProtectedFileSkipped { .. } => {},
        ErrorView::LocalFileReadFailed { .. } => {},
        ErrorView::LocalHashFailed { .. } => {},
        ErrorView::DownloadFailed { .. } => {},
        ErrorView::DownloadCancelled => {},
        ErrorView::HashMismatch { .. } => {},
        ErrorView::FileLocked { .. } => {},
        ErrorView::ReplaceFailed { .. } => {},
        ErrorView::UnknownAlias { .. } => {},
        ErrorView::InvalidAliasTarget { .. } => {},
        ErrorView::TargetNotFound { .. } => {},
        ErrorView::TargetNotExecutable { .. } => {},
        ErrorView::ProcessStartFailed { .. } => {},
        ErrorView::ConfigNotFound { .. } => {},
        ErrorView::ConfigParseFailed(..) => {},
        ErrorView::ConfigMissingField { .. } => {},
        ErrorView::ConfigInvalidField { .. } => {},
        ErrorView::LauncherUrlInvalid(..) => {},
        ErrorView::LauncherUrlNotHttps(..) => {},
        ErrorView::ManifestUrlInvalid(..) => {},
        ErrorView::DataUrlInvalid(..) => {},
        ErrorView::CallsMissing => {},
        ErrorView::RemoteUiLoadFailed => {},
        ErrorView::Io(..) => {},
        ErrorView::Join(..) => {},
        ErrorView::Reqwest(..) => {},
        ErrorView::Url(..) => {},
    }
}

/// Two errors get the same code exactly when they are of the same variant,
/// the internal ones sharing `INTERNAL_ERROR`.
pub proof fn law_error_codes_distinct(a: ErrorView, b: ErrorView)
    ensures
        (code_of(a) == code_of(b)) <==> (error_class(a) == error_class(b)),
{
    lemma_class_of_code(a);
    lemma_class_of_code(b);
}

} // verus!
