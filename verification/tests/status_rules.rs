use launcher_core::config::{Config, PatchConfig, SecurityConfig};
use launcher_core::error::Error;
use launcher_core::patch::PatchErrorEvent;
use launcher_core::status::{cancel_reply, command_allowed, error_code, error_path, is_retryable, startup_paths, Status};

fn config() -> Config {
    Config {
        config_version: 1,
        title: "Launcher".into(),
        launcher_url: "https://launcher.example.com/".into(),
        manifest_url: "https://patch.example.com/manifest.toml".into(),
        data_url: "https://patch.example.com/data/".into(),
        calls: vec![("game".into(), "Game.exe".into()), ("setup".into(), "Setup.exe".into())],
        patch: PatchConfig::default(),
        security: SecurityConfig::default(),
    }
}

#[test]
fn error_codes_are_stable() {
    assert_eq!(error_code(&Error::DownloadCancelled), "DOWNLOAD_CANCELLED");
    assert_eq!(error_code(&Error::CallsMissing), "CALLS_MISSING");
    assert_eq!(error_code(&Error::Io("x".into())), "INTERNAL_ERROR");
    assert_eq!(error_code(&Error::HashMismatch { path: "p".into() }), "HASH_MISMATCH");
}

#[test]
fn error_paths_and_retry() {
    assert_eq!(error_path(&Error::HashMismatch { path: "C:\\t".into() }), "C:\\t");
    assert_eq!(error_path(&Error::DownloadCancelled), "");
    assert!(is_retryable(&Error::DownloadFailed { path: "a".into(), reason: "b".into() }));
    assert!(is_retryable(&Error::ManifestDownloadFailed("x".into())));
    assert!(!is_retryable(&Error::HashMismatch { path: "a".into() }));
    let ev = PatchErrorEvent::from_error(&Error::FileLocked { path: "C:\\a".into(), reason: "busy".into() });
    assert_eq!(ev.code, "FILE_LOCKED");
    assert_eq!(ev.path, "C:\\a");
    assert!(ev.retryable);
    assert_eq!(ev.message, Error::FileLocked { path: "C:\\a".into(), reason: "busy".into() }.message());
}

#[test]
fn commands_wait_for_the_patch() {
    assert_eq!(command_allowed(true), Err("PATCH_IN_PROGRESS".to_string()));
    assert_eq!(command_allowed(false), Ok(()));
    assert_eq!(cancel_reply(false), Err("PATCH_NOT_RUNNING".to_string()));
    assert_eq!(cancel_reply(true), Ok(()));
}

#[test]
fn status_lists_the_aliases() {
    let s = Status::for_config(&config(), true, Some("boom".into()));
    assert!(s.config_loaded);
    assert_eq!(s.title.as_deref(), Some("Launcher"));
    assert_eq!(s.aliases, vec!["game".to_string(), "setup".to_string()]);
    assert!(s.patch_running);
    assert_eq!(s.last_error.as_deref(), Some("boom"));
}

#[test]
fn startup_paths_sit_beside_the_executable() {
    assert_eq!(
        startup_paths("C:\\Games\\Test\\BossPatcher.exe").unwrap(),
        ("C:\\Games\\Test".to_string(), "C:\\Games\\Test\\BossPatcher.toml".to_string())
    );
    assert_eq!(startup_paths("C:\\").unwrap_err(), "Executable has no parent directory");
}

#[test]
fn distinct_variants_have_distinct_codes() {
    let errors = vec![
        Error::PatchAlreadyRunning,
        Error::PatchInProgress,
        Error::CallsMissing,
        Error::DownloadCancelled,
        Error::RemoteUiLoadFailed,
        Error::HashMismatch { path: "p".into() },
        Error::ManifestDuplicatePath { path: "p".into() },
        Error::ConfigNotFound { path: "p".into() },
    ];
    let codes: Vec<String> = errors.iter().map(error_code).collect();
    for i in 0..codes.len() {
        for j in 0..i {
            assert_ne!(codes[i], codes[j]);
        }
    }
    assert_eq!(error_code(&Error::Url("x".into())), error_code(&Error::Join("y".into())));
}
