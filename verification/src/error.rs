use crate::text::{concat2, concat3, concat4, i64_to_string, signed_decimal};
use vstd::prelude::*;

verus! {

/// Every failure the launcher reports. Paths are held as the text of the path.
#[derive(Debug, Clone)]
pub enum Error {
    ConfigNotFound { path: String },
    ConfigParseFailed(String),
    ConfigMissingField { field: String },
    ConfigInvalidField { field: String, reason: String },
    LauncherUrlInvalid(String),
    LauncherUrlNotHttps(String),
    ManifestUrlInvalid(String),
    DataUrlInvalid(String),
    CallsMissing,
    UnknownAlias { alias: String },
    InvalidAliasTarget { alias: String, reason: String },
    TargetNotFound { path: String },
    TargetNotExecutable { path: String },
    ProcessStartFailed { path: String, reason: String },
    PatchAlreadyRunning,
    PatchInProgress,
    ManifestDownloadFailed(String),
    ManifestParseFailed(String),
    ManifestUnsupportedVersion(i64),
    ManifestUnsupportedHash(String),
    ManifestDuplicatePath { path: String },
    ManifestInvalidPath { path: String, reason: String },
    ProtectedFileSkipped { path: String },
    LocalFileReadFailed { path: String, reason: String },
    LocalHashFailed { path: String, reason: String },
    DownloadFailed { path: String, reason: String },
    DownloadCancelled,
    HashMismatch { path: String },
    FileLocked { path: String, reason: String },
    ReplaceFailed { path: String, reason: String },
    RemoteUiLoadFailed,
    Io(String),
    Join(String),
    Reqwest(String),
    Url(String),
}

/// The mathematical value of an [`Error`]: the same variant, texts as character sequences.
pub enum ErrorView {
    ConfigNotFound { path: Seq<char> },
    ConfigParseFailed(Seq<char>),
    ConfigMissingField { field: Seq<char> },
    ConfigInvalidField { field: Seq<char>, reason: Seq<char> },
    LauncherUrlInvalid(Seq<char>),
    LauncherUrlNotHttps(Seq<char>),
    ManifestUrlInvalid(Seq<char>),
    DataUrlInvalid(Seq<char>),
    CallsMissing,
    UnknownAlias { alias: Seq<char> },
    InvalidAliasTarget { alias: Seq<char>, reason: Seq<char> },
    TargetNotFound { path: Seq<char> },
    TargetNotExecutable { path: Seq<char> },
    ProcessStartFailed { path: Seq<char>, reason: Seq<char> },
    PatchAlreadyRunning,
    PatchInProgress,
    ManifestDownloadFailed(Seq<char>),
    ManifestParseFailed(Seq<char>),
    ManifestUnsupportedVersion(i64),
    ManifestUnsupportedHash(Seq<char>),
    ManifestDuplicatePath { path: Seq<char> },
    ManifestInvalidPath { path: Seq<char>, reason: Seq<char> },
    ProtectedFileSkipped { path: Seq<char> },
    LocalFileReadFailed { path: Seq<char>, reason: Seq<char> },
    LocalHashFailed { path: Seq<char>, reason: Seq<char> },
    DownloadFailed { path: Seq<char>, reason: Seq<char> },
    DownloadCancelled,
    HashMismatch { path: Seq<char> },
    FileLocked { path: Seq<char>, reason: Seq<char> },
    ReplaceFailed { path: Seq<char>, reason: Seq<char> },
    RemoteUiLoadFailed,
    Io(Seq<char>),
    Join(Seq<char>),
    Reqwest(Seq<char>),
    Url(Seq<char>),
}

impl View for Error {
    type V = ErrorView;

    open spec fn view(&self) -> ErrorView {
        match self {
            Error::ConfigNotFound { path } => ErrorView::ConfigNotFound { path: path@ },
            Error::ConfigParseFailed(m) => ErrorView::ConfigParseFailed(m@),
            Error::ConfigMissingField { field } => ErrorView::ConfigMissingField { field: field@ },
            Error::ConfigInvalidField { field, reason } => ErrorView::ConfigInvalidField {
                field: field@,
                reason: reason@,
            },
            Error::LauncherUrlInvalid(m) => ErrorView::LauncherUrlInvalid(m@),
            Error::LauncherUrlNotHttps(m) => ErrorView::LauncherUrlNotHttps(m@),
            Error::ManifestUrlInvalid(m) => ErrorView::ManifestUrlInvalid(m@),
            Error::DataUrlInvalid(m) => ErrorView::DataUrlInvalid(m@),
            Error::CallsMissing => ErrorView::CallsMissing,
            Error::UnknownAlias { alias } => ErrorView::UnknownAlias { alias: alias@ },
            Error::InvalidAliasTarget { alias, reason } => ErrorView::InvalidAliasTarget {
                alias: alias@,
                reason: reason@,
            },
            Error::TargetNotFound { path } => ErrorView::TargetNotFound { path: path@ },
            Error::TargetNotExecutable { path } => ErrorView::TargetNotExecutable { path: path@ },
            Error::ProcessStartFailed { path, reason } => ErrorView::ProcessStartFailed {
                path: path@,
                reason: reason@,
            },
            Error::PatchAlreadyRunning => ErrorView::PatchAlreadyRunning,
            Error::PatchInProgress => ErrorView::PatchInProgress,
            Error::ManifestDownloadFailed(m) => ErrorView::ManifestDownloadFailed(m@),
            Error::ManifestParseFailed(m) => ErrorView::ManifestParseFailed(m@),
            Error::ManifestUnsupportedVersion(v) => ErrorView::ManifestUnsupportedVersion(*v),
            Error::ManifestUnsupportedHash(m) => ErrorView::ManifestUnsupportedHash(m@),
            Error::ManifestDuplicatePath { path } => ErrorView::ManifestDuplicatePath {
                path: path@,
            },
            Error::ManifestInvalidPath { path, reason } => ErrorView::ManifestInvalidPath {
                path: path@,
                reason: reason@,
            },
            Error::ProtectedFileSkipped { path } => ErrorView::ProtectedFileSkipped { path: path@ },
            Error::LocalFileReadFailed { path, reason } => ErrorView::LocalFileReadFailed {
                path: path@,
                reason: reason@,
            },
            Error::LocalHashFailed { path, reason } => ErrorView::LocalHashFailed {
                path: path@,
                reason: reason@,
            },
            Error::DownloadFailed { path, reason } => ErrorView::DownloadFailed {
                path: path@,
                reason: reason@,
            },
            Error::DownloadCancelled => ErrorView::DownloadCancelled,
            Error::HashMismatch { path } => ErrorView::HashMismatch { path: path@ },
            Error::FileLocked { path, reason } => ErrorView::FileLocked {
                path: path@,
                reason: reason@,
            },
            Error::ReplaceFailed { path, reason } => ErrorView::ReplaceFailed {
                path: path@,
                reason: reason@,
            },
            Error::RemoteUiLoadFailed => ErrorView::RemoteUiLoadFailed,
            Error::Io(m) => ErrorView::Io(m@),
            Error::Join(m) => ErrorView::Join(m@),
            Error::Reqwest(m) => ErrorView::Reqwest(m@),
            Error::Url(m) => ErrorView::Url(m@),
        }
    }
}

/// The view of a result whose success value is a string.
pub open spec fn text_result(r: Result<String, Error>) -> Result<Seq<char>, ErrorView> {
    match r {
        Ok(s) => Ok(s@),
        Err(e) => Err(e@),
    }
}

/// The view of a result that carries nothing on success.
pub open spec fn unit_result(r: Result<(), Error>) -> Result<(), ErrorView> {
    match r {
        Ok(_) => Ok(()),
        Err(e) => Err(e@),
    }
}


/// The text of an error, as the launcher shows it.
pub open spec fn error_text(e: ErrorView) -> Seq<char> {
    match e {
        ErrorView::ConfigNotFound { path } => "config not found: "@ + path,
        ErrorView::ConfigParseFailed(m) => "failed to parse config: "@ + m,
        ErrorView::ConfigMissingField { field } => "config missing required field: "@ + field,
        ErrorView::ConfigInvalidField { field, reason } => "config invalid field `"@ + field + "`: "@ + reason,
        ErrorView::LauncherUrlInvalid(m) => "launcher_url invalid: "@ + m,
        ErrorView::LauncherUrlNotHttps(m) => "launcher_url must use https in production: "@ + m,
        ErrorView::ManifestUrlInvalid(m) => "manifest_url invalid: "@ + m,
        ErrorView::DataUrlInvalid(m) => "data_url invalid: "@ + m,
        ErrorView::CallsMissing => "[calls] section is missing"@,
        ErrorView::UnknownAlias { alias } => "unknown alias: "@ + alias,
        ErrorView::InvalidAliasTarget { alias, reason } => "invalid alias target `"@ + alias + "`: "@ + reason,
        ErrorView::TargetNotFound { path } => "target not found: "@ + path,
        ErrorView::TargetNotExecutable { path } => "target is not an executable: "@ + path,
        ErrorView::ProcessStartFailed { path, reason } => "failed to start process `"@ + path + "`: "@ + reason,
        ErrorView::PatchAlreadyRunning => "patch already running"@,
        ErrorView::PatchInProgress => "patch in progress"@,
        ErrorView::ManifestDownloadFailed(m) => "manifest download failed: "@ + m,
        ErrorView::ManifestParseFailed(m) => "manifest parse failed: "@ + m,
        ErrorView::ManifestUnsupportedVersion(m) => "unsupported manifest version: "@ + signed_decimal(m as int),
        ErrorView::ManifestUnsupportedHash(m) => "unsupported hash algorithm: "@ + m,
        ErrorView::ManifestDuplicatePath { path } => "duplicate manifest path: "@ + path,
        ErrorView::ManifestInvalidPath { path, reason } => "invalid manifest path `"@ + path + "`: "@ + reason,
        ErrorView::ProtectedFileSkipped { path } => "protected file skipped: "@ + path,
        ErrorView::LocalFileReadFailed { path, reason } => "local file read failed `"@ + path + "`: "@ + reason,
        ErrorView::LocalHashFailed { path, reason } => "local hash failed `"@ + path + "`: "@ + reason,
        ErrorView::DownloadFailed { path, reason } => "download failed for `"@ + path + "`: "@ + reason,
        ErrorView::DownloadCancelled => "download cancelled"@,
        ErrorView::HashMismatch { path } => "hash mismatch for `"@ + path + "`"@,
        ErrorView::FileLocked { path, reason } => "file locked `"@ + path + "`: "@ + reason,
        ErrorView::ReplaceFailed { path, reason } => "replace failed `"@ + path + "`: "@ + reason,
        ErrorView::RemoteUiLoadFailed => "remote UI load failed"@,
        ErrorView::Io(m) => m,
        ErrorView::Join(m) => m,
        ErrorView::Reqwest(m) => m,
        ErrorView::Url(m) => m,
    }
}

impl Error {
    /// The text of the error, as the launcher shows it.
    pub fn message(&self) -> (s: String)
        ensures
            s@ == error_text(self@),
    {
        match self {
            Error::ConfigNotFound { path } => concat2("config not found: ", path.as_str()),
            Error::ConfigParseFailed(m) => concat2("failed to parse config: ", m.as_str()),
            Error::ConfigMissingField { field } => concat2("config missing required field: ", field.as_str()),
            Error::ConfigInvalidField { field, reason } => concat4("config invalid field `", field.as_str(), "`: ", reason.as_str()),
            Error::LauncherUrlInvalid(m) => concat2("launcher_url invalid: ", m.as_str()),
            Error::LauncherUrlNotHttps(m) => concat2("launcher_url must use https in production: ", m.as_str()),
            Error::ManifestUrlInvalid(m) => concat2("manifest_url invalid: ", m.as_str()),
            Error::DataUrlInvalid(m) => concat2("data_url invalid: ", m.as_str()),
            Error::CallsMissing => "[calls] section is missing".to_owned(),
            Error::UnknownAlias { alias } => concat2("unknown alias: ", alias.as_str()),
            Error::InvalidAliasTarget { alias, reason } => concat4("invalid alias target `", alias.as_str(), "`: ", reason.as_str()),
            Error::TargetNotFound { path } => concat2("target not found: ", path.as_str()),
            Error::TargetNotExecutable { path } => concat2("target is not an executable: ", path.as_str()),
            Error::ProcessStartFailed { path, reason } => concat4("failed to start process `", path.as_str(), "`: ", reason.as_str()),
            Error::PatchAlreadyRunning => "patch already running".to_owned(),
            Error::PatchInProgress => "patch in progress".to_owned(),
            Error::ManifestDownloadFailed(m) => concat2("manifest download failed: ", m.as_str()),
            Error::ManifestParseFailed(m) => concat2("manifest parse failed: ", m.as_str()),
            Error::ManifestUnsupportedVersion(m) => {
                let d = i64_to_string(*m);
                concat2("unsupported manifest version: ", d.as_str())
            },
            Error::ManifestUnsupportedHash(m) => concat2("unsupported hash algorithm: ", m.as_str()),
            Error::ManifestDuplicatePath { path } => concat2("duplicate manifest path: ", path.as_str()),
            Error::ManifestInvalidPath { path, reason } => concat4("invalid manifest path `", path.as_str(), "`: ", reason.as_str()),
            Error::ProtectedFileSkipped { path } => concat2("protected file skipped: ", path.as_str()),
            Error::LocalFileReadFailed { path, reason } => concat4("local file read failed `", path.as_str(), "`: ", reason.as_str()),
            Error::LocalHashFailed { path, reason } => concat4("local hash failed `", path.as_str(), "`: ", reason.as_str()),
            Error::DownloadFailed { path, reason } => concat4("download failed for `", path.as_str(), "`: ", reason.as_str()),
            Error::DownloadCancelled => "download cancelled".to_owned(),
            Error::HashMismatch { path } => concat3("hash mismatch for `", path.as_str(), "`"),
            Error::FileLocked { path, reason } => concat4("file locked `", path.as_str(), "`: ", reason.as_str()),
            Error::ReplaceFailed { path, reason } => concat4("replace failed `", path.as_str(), "`: ", reason.as_str()),
            Error::RemoteUiLoadFailed => "remote UI load failed".to_owned(),
            Error::Io(m) => m.clone(),
            Error::Join(m) => m.clone(),
            Error::Reqwest(m) => m.clone(),
            Error::Url(m) => m.clone(),
        }
    }
}

} // verus!
