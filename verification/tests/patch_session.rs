use launcher_core::download::{check_download_hash, download_failed, download_refused, replace_error, temp_file_path, temp_path_for};
use launcher_core::error::Error;
use launcher_core::hash::md5_bytes;
use launcher_core::manifest::{FileEntry, Manifest};
use launcher_core::patch::{
    progress_due, PatchAction, PatchEvent, PatchNotice, PatchPhase, PatchSession, PatchWarning,
    ProgressThrottle,
};
use launcher_core::plan::ItemReason;

const LAUNCHER_DIR: &str = "C:\\Games\\Integration\\launcher";
const EXE_PATH: &str = "C:\\Games\\Integration\\launcher\\BossPatcher_test.exe";
const CONFIG_PATH: &str = "C:\\Games\\Integration\\launcher\\BossPatcher_test.toml";
const CWD: &str = "D:\\Work";
const MANIFEST_URL: &str = "http://127.0.0.1:8080/manifest.toml";

fn remote_files() -> Vec<(&'static str, &'static [u8])> {
    vec![
        ("data/client.grf", b"Hello from client.grf"),
        ("data/한국어/스프라이트.spr", b"Korean asset"),
        ("BGM/日本語/track 01.mp3", b"Japanese bgm"),
        ("data/简体中文/说明.txt", b"Chinese text"),
        ("extra_remote.txt", b"Extra remote"),
        ("BossPatcher_test.exe", b"Protected launcher"),
        ("BossPatcher_test.toml", b"Protected config"),
    ]
}

fn manifest_of(files: &[(&str, &[u8])]) -> Manifest {
    Manifest {
        manifest_version: 1,
        hash_algorithm: "md5".into(),
        generated_at: Some("2026-07-09T00:00:00Z".into()),
        files: files
            .iter()
            .map(|(p, c)| FileEntry { path: (*p).into(), size: c.len() as u64, md5: md5_bytes(c) })
            .collect(),
    }
}

/// Local files, by the path the session resolves: `client.grf` holds old
/// data, nothing else of the manifest exists.
fn local_file(path: &str) -> Option<&'static [u8]> {
    if path == "C:\\Games\\Integration\\launcher\\data\\client.grf" {
        Some(b"old data")
    } else {
        None
    }
}

/// Answers the session's questions about local files until it is done
/// comparing; returns the first action past the comparison and every notice.
fn answer_checks(
    session: &mut PatchSession,
    mut notices: Vec<PatchNotice>,
    mut action: PatchAction,
    local: &dyn Fn(&str) -> Option<&'static [u8]>,
) -> (Vec<PatchNotice>, PatchAction, Vec<String>) {
    let mut checked = Vec::new();
    loop {
        let event = match &action {
            PatchAction::CheckFile { path } => {
                checked.push(path.clone());
                PatchEvent::FileChecked(Ok(local(path).map(|c| c.len() as u64)))
            }
            PatchAction::HashFile { path } => PatchEvent::FileHashed(Ok(md5_bytes(local(path).unwrap()))),
            _ => return (notices, action, checked),
        };
        assert!(session.can_take(&event));
        let (more, next) = session.step(event);
        notices.extend(more);
        action = next;
    }
}

#[test]
fn integration_patch_flow() {
    let files = remote_files();
    let mut session = PatchSession::new(LAUNCHER_DIR, EXE_PATH, CONFIG_PATH, MANIFEST_URL, CWD);
    let (notices, action) = session.start();
    assert!(matches!(notices[0], PatchNotice::Started));
    match action {
        PatchAction::FetchManifest { url } => assert_eq!(url, MANIFEST_URL),
        other => panic!("unexpected {:?}", other),
    }

    let (notices, action) = session.step(PatchEvent::ManifestFetched(Ok(manifest_of(&files))));
    let warnings: Vec<&PatchWarning> = notices
        .iter()
        .filter_map(|n| match n {
            PatchNotice::Warning(w) => Some(w),
            _ => None,
        })
        .collect();
    assert_eq!(warnings.len(), 2, "expected 2 protected-file warnings");
    match &notices[3] {
        PatchNotice::Checking(c) => assert_eq!(c.total_files, 5),
        other => panic!("unexpected {:?}", other),
    }
    let (notices, mut action, checked) = answer_checks(&mut session, Vec::new(), action, &local_file);
    assert_eq!(checked.len(), 5);
    assert_eq!(checked[0], "C:\\Games\\Integration\\launcher\\data\\client.grf");
    assert!(checked.iter().all(|p| !p.contains("BossPatcher_test")));
    match &notices[0] {
        PatchNotice::PlanReady(p) => {
            assert_eq!(p.protected_skipped, 2);
            assert_eq!(p.checked_files, 5);
            assert_eq!(p.changed_files, 1);
            assert_eq!(p.missing_files, 4);
            assert_eq!(p.items[0].reason, ItemReason::SizeMismatch);
        }
        other => panic!("unexpected {:?}", other),
    }

    let mut downloaded: Vec<String> = Vec::new();
    let mut total: u64 = 0;
    let result = loop {
        match action {
            PatchAction::Download { path, md5, file_size, start_total, .. } => {
                let (_, contents) = files.iter().find(|(p, _)| *p == path).unwrap();
                assert_eq!(md5, md5_bytes(contents));
                assert_eq!(start_total, total);
                total += file_size;
                let (_, next) = session.step(PatchEvent::Downloaded(Ok(total)));
                match next {
                    PatchAction::Replace { path: replaced } => assert_eq!(replaced, path),
                    other => panic!("unexpected {:?}", other),
                }
                downloaded.push(path);
                let (notices, next) = session.step(PatchEvent::Replaced(Ok(())));
                assert!(matches!(notices[0], PatchNotice::FileCompleted(_)));
                action = next;
            }
            PatchAction::Finish(result) => break result,
            other => panic!("unexpected {:?}", other),
        }
    };
    assert_eq!(result.status, "completed");
    assert_eq!(result.checked_files, 5);
    assert_eq!(result.files_patched, 5);
    assert_eq!(result.bytes_downloaded, total);
    assert_eq!(session.phase(), PatchPhase::Done);
    assert!(!downloaded.iter().any(|p| p.starts_with("BossPatcher_test")));
    assert_eq!(downloaded[0], "data/client.grf");
}

#[test]
fn integration_patch_flow_can_be_cancelled_mid_download() {
    let big = vec![b'x'; 512 * 1024];
    let files: Vec<(&str, &[u8])> = vec![("data/client.grf", &big)];
    let mut session = PatchSession::new(LAUNCHER_DIR, EXE_PATH, CONFIG_PATH, MANIFEST_URL, CWD);
    session.start();
    let (_, action) = session.step(PatchEvent::ManifestFetched(Ok(manifest_of(&files))));
    let (_, action, _) = answer_checks(&mut session, Vec::new(), action, &|_| None);
    assert!(matches!(action, PatchAction::Download { .. }));
    assert_eq!(session.phase(), PatchPhase::AwaitDownload);
    assert!(session.can_take(&PatchEvent::Cancelled));
    let (notices, action) = session.step(PatchEvent::Cancelled);
    assert!(notices.is_empty());
    assert!(matches!(action, PatchAction::Fail(Error::DownloadCancelled)));
    assert_eq!(session.phase(), PatchPhase::Done);
    assert!(!session.can_take(&PatchEvent::Cancelled));
}

#[test]
fn session_fails_on_invalid_manifest() {
    let files: Vec<(&str, &[u8])> = vec![("../escape.txt", b"x")];
    let mut session = PatchSession::new(LAUNCHER_DIR, EXE_PATH, CONFIG_PATH, MANIFEST_URL, CWD);
    session.start();
    let (notices, action) = session.step(PatchEvent::ManifestFetched(Ok(manifest_of(&files))));
    assert!(notices.is_empty());
    assert!(matches!(action, PatchAction::Fail(Error::ManifestInvalidPath { .. })));
}

#[test]
fn session_passes_errors_through() {
    let files: Vec<(&str, &[u8])> = vec![("a.txt", b"abc")];
    let mut session = PatchSession::new(LAUNCHER_DIR, EXE_PATH, CONFIG_PATH, MANIFEST_URL, CWD);
    session.start();
    let (_, action) = session.step(PatchEvent::ManifestFetched(Ok(manifest_of(&files))));
    assert!(matches!(action, PatchAction::CheckFile { .. }));
    let (_, action) = session.step(PatchEvent::FileChecked(Err(Error::Io("denied".into()))));
    assert!(matches!(action, PatchAction::Fail(Error::Io(m)) if m == "denied"));

    let mut session = PatchSession::new(LAUNCHER_DIR, EXE_PATH, CONFIG_PATH, MANIFEST_URL, CWD);
    session.start();
    let (_, action) = session.step(PatchEvent::ManifestFetched(Ok(manifest_of(&files))));
    let (_, action, _) = answer_checks(&mut session, Vec::new(), action, &|_| None);
    assert!(matches!(action, PatchAction::Download { .. }));
    let (_, action) = session.step(PatchEvent::Downloaded(Err(Error::HashMismatch { path: "a.txt".into() })));
    assert!(matches!(action, PatchAction::Fail(Error::HashMismatch { .. })));
}

#[test]
fn local_files_are_compared_by_presence_size_then_hash() {
    let files: Vec<(&str, &[u8])> = vec![("same.txt", b"abc"), ("other.txt", b"abc"), ("short.txt", b"abc")];
    let local = |p: &str| -> Option<&'static [u8]> {
        if p.ends_with("same.txt") {
            Some(b"abc")
        } else if p.ends_with("other.txt") {
            Some(b"xyz")
        } else {
            Some(b"ab")
        }
    };
    let mut session = PatchSession::new(LAUNCHER_DIR, EXE_PATH, CONFIG_PATH, MANIFEST_URL, CWD);
    session.start();
    let (_, action) = session.step(PatchEvent::ManifestFetched(Ok(manifest_of(&files))));
    match &action {
        PatchAction::CheckFile { path } => assert_eq!(path, "C:\\Games\\Integration\\launcher\\same.txt"),
        other => panic!("unexpected {:?}", other),
    }
    let (_, action) = session.step(PatchEvent::FileChecked(Ok(Some(3))));
    match &action {
        PatchAction::HashFile { path } => assert_eq!(path, "C:\\Games\\Integration\\launcher\\same.txt"),
        other => panic!("unexpected {:?}", other),
    }
    let (notices, action, _) = answer_checks(&mut session, Vec::new(), action, &local);
    match &notices[0] {
        PatchNotice::PlanReady(p) => {
            assert_eq!(p.checked_files, 3);
            assert_eq!(p.valid_files, 1);
            assert_eq!(p.changed_files, 2);
            assert_eq!(p.items[0].path, "other.txt");
            assert_eq!(p.items[0].reason, ItemReason::HashMismatch);
            assert_eq!(p.items[1].path, "short.txt");
            assert_eq!(p.items[1].reason, ItemReason::SizeMismatch);
            assert_eq!(p.bytes_to_download, 6);
        }
        other => panic!("unexpected {:?}", other),
    }
    assert!(matches!(action, PatchAction::Download { file_index: 1, file_total: 2, .. }));
}

#[test]
fn session_with_nothing_to_download_finishes_at_once() {
    let files: Vec<(&str, &[u8])> = vec![("a.txt", b"abc")];
    let mut session = PatchSession::new(LAUNCHER_DIR, EXE_PATH, CONFIG_PATH, MANIFEST_URL, CWD);
    session.start();
    let (_, action) = session.step(PatchEvent::ManifestFetched(Ok(manifest_of(&files))));
    let (notices, action, _) = answer_checks(&mut session, Vec::new(), action, &|_| Some(b"abc"));
    assert!(matches!(notices.last(), Some(PatchNotice::Completed(_))));
    match action {
        PatchAction::Finish(r) => {
            assert_eq!(r.checked_files, 1);
            assert_eq!(r.files_patched, 0);
            assert_eq!(r.bytes_downloaded, 0);
        }
        other => panic!("unexpected {:?}", other),
    }
}

#[test]
fn overflowing_totals_are_refused_before_the_step() {
    let files: Vec<(&str, &[u8])> = vec![("a.txt", b"abc"), ("b.txt", b"abc")];
    let mut m = manifest_of(&files);
    m.files[0].size = u64::MAX;
    m.files[1].size = 1;
    let mut session = PatchSession::new(LAUNCHER_DIR, EXE_PATH, CONFIG_PATH, MANIFEST_URL, CWD);
    session.start();
    session.step(PatchEvent::ManifestFetched(Ok(m)));
    let (_, _) = session.step(PatchEvent::FileChecked(Ok(None)));
    assert!(!session.can_take(&PatchEvent::FileChecked(Ok(None))));
    assert!(session.can_take(&PatchEvent::FileChecked(Ok(Some(1)))));
    assert!(session.can_take(&PatchEvent::FileChecked(Err(Error::Io("x".into())))));
    assert!(!session.can_take(&PatchEvent::Downloaded(Ok(1))));
}

#[test]
fn progress_is_throttled_every_64_kib() {
    assert!(!progress_due(1000, 0, false));
    assert!(progress_due(64 * 1024, 0, true));
    assert!(!progress_due(64 * 1024, 0, false));
    assert!(progress_due(64 * 1024 + 1, 0, false));
    assert!(!progress_due(5, 10, true));
    let mut t = ProgressThrottle::new("a.txt", 1, 1, 1_000_000, 1_000_000, 100);
    assert!(t.on_bytes(30_000).is_none());
    assert!(t.on_bytes(30_000).is_none());
    let p = t.on_bytes(30_000).unwrap();
    assert_eq!(p.file_downloaded_bytes, 90_000);
    assert_eq!(p.total_downloaded_bytes, 90_100);
    assert_eq!(p.path, "a.txt");
    assert!(t.on_bytes(10).is_none());
}

#[test]
fn download_failures_name_the_step() {
    match download_failed("data/a.txt", "request failed", "timeout") {
        Error::DownloadFailed { path, reason } => {
            assert_eq!(path, "data/a.txt");
            assert_eq!(reason, "request failed: timeout");
        }
        other => panic!("unexpected {:?}", other),
    }
    match download_refused("data/a.txt", "404 Not Found") {
        Error::DownloadFailed { reason, .. } => assert_eq!(reason, "server returned 404 Not Found"),
        other => panic!("unexpected {:?}", other),
    }
    assert!(matches!(replace_error("C:\\x", true, "denied"), Error::FileLocked { .. }));
    assert!(matches!(replace_error("C:\\x", false, "gone"), Error::ReplaceFailed { .. }));
    assert!(check_download_hash("ABCDEF", "abcdef", "t").is_ok());
    assert!(matches!(check_download_hash("abcdee", "abcdef", "t"), Err(Error::HashMismatch { path }) if path == "t"));
    assert_eq!(
        temp_file_path("C:\\Games\\L", "id", CWD).unwrap(),
        "C:\\Games\\L\\.bosspatcher\\id.bosspatcher.tmp"
    );
    let t = temp_path_for("data/a.txt", "C:\\Games\\L", CWD).unwrap();
    assert!(t.starts_with("C:\\Games\\L\\.bosspatcher\\"));
    assert!(t.ends_with(".bosspatcher.tmp"));
    let id = &t["C:\\Games\\L\\.bosspatcher\\".len()..t.len() - ".bosspatcher.tmp".len()];
    assert_eq!(id.len(), 36);
    assert_ne!(temp_path_for("data/a.txt", "C:\\Games\\L", CWD).unwrap(), t);
}
