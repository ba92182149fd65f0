use launcher_core::error::Error;
use launcher_core::manifest::{check_protected, manifest_text, validate_entry_path, FileEntry, Manifest, ProtectedResult};

fn entry(path: &str, size: u64, md5: &str) -> FileEntry {
    FileEntry { path: path.into(), size, md5: md5.into() }
}

fn manifest(files: Vec<FileEntry>) -> Manifest {
    Manifest { manifest_version: 1, hash_algorithm: "md5".into(), generated_at: None, files }
}

#[test]
fn parse_valid_manifest() {
    let m = Manifest {
        manifest_version: 1,
        hash_algorithm: "md5".into(),
        generated_at: Some("2026-07-09T00:00:00Z".into()),
        files: vec![entry("data/client.grf", 100, "9e107d9d372bb6826bd81d3542a419d6")],
    };
    m.validate().unwrap();
    assert_eq!(m.files.len(), 1);
}

#[test]
fn reject_duplicate_case_insensitive() {
    let m = manifest(vec![
        entry("Data/File.txt", 1, "00000000000000000000000000000000"),
        entry("data/file.txt", 1, "00000000000000000000000000000000"),
    ]);
    assert!(matches!(m.validate().unwrap_err(), Error::ManifestDuplicatePath { .. }));
}

#[test]
fn reject_absolute_path() {
    let m = manifest(vec![entry("C:/evil.txt", 1, "00000000000000000000000000000000")]);
    assert!(m.validate().is_err());
}

#[test]
fn manifest_version_and_algorithm() {
    let mut m = manifest(vec![]);
    m.manifest_version = 2;
    assert!(matches!(m.validate().unwrap_err(), Error::ManifestUnsupportedVersion(2)));
    let mut m = manifest(vec![]);
    m.hash_algorithm = "sha1".into();
    assert!(matches!(m.validate().unwrap_err(), Error::ManifestUnsupportedHash(_)));
    m.hash_algorithm = "Md5".into();
    m.validate().unwrap();
}

#[test]
fn entry_paths_and_hashes() {
    assert!(validate_entry_path("").is_err());
    assert!(validate_entry_path("/etc/passwd").is_err());
    assert!(validate_entry_path("\\server\\x").is_err());
    assert!(validate_entry_path("a/../b").is_err());
    assert!(validate_entry_path("..").is_err());
    validate_entry_path("a/..b/c..").unwrap();
    let short = manifest(vec![entry("a.txt", 1, "abc")]);
    match short.validate().unwrap_err() {
        Error::ManifestInvalidPath { path, reason } => {
            assert_eq!(path, "a.txt");
            assert_eq!(reason, "md5 hash must be 32 hex characters");
        }
        other => panic!("unexpected {:?}", other),
    }
    let nonhex = manifest(vec![entry("a.txt", 1, "0000000000000000000000000000000g")]);
    match nonhex.validate().unwrap_err() {
        Error::ManifestInvalidPath { reason, .. } => assert_eq!(reason, "md5 hash contains non-hex characters"),
        other => panic!("unexpected {:?}", other),
    }
}

#[test]
fn protected_files_are_skipped() {
    let dir = "C:\\Games\\launcher";
    let exe = "C:\\Games\\launcher\\BossPatcher.exe";
    let cfg = "C:\\Games\\launcher\\BossPatcher.toml";
    let m = manifest(vec![
        entry("data/client.grf", 1, "00000000000000000000000000000000"),
        entry("bosspatcher.EXE", 1, "00000000000000000000000000000000"),
        entry("BossPatcher.toml", 1, "00000000000000000000000000000000"),
    ]);
    assert!(check_protected(&m.files[0], dir, exe, cfg, "D:\\Work").is_ok());
    match check_protected(&m.files[1], dir, exe, cfg, "D:\\Work").unwrap_err() {
        Error::ProtectedFileSkipped { path } => assert_eq!(path, "C:\\Games\\launcher\\bosspatcher.EXE"),
        other => panic!("unexpected {:?}", other),
    }
    let r = m.entries_excluding_protected(dir, exe, cfg, "D:\\Work");
    assert_eq!(r.len(), 3);
    assert!(matches!(r[0], ProtectedResult::Allowed(_)));
    assert!(matches!(r[1], ProtectedResult::Skipped { .. }));
    assert!(matches!(r[2], ProtectedResult::Skipped { .. }));
}

#[test]
fn parsed_manifest_is_validated() {
    assert!(matches!(
        Manifest::from_parsed(Err("expected `=`".into())),
        Err(Error::ManifestParseFailed(m)) if m == "expected `=`"
    ));
    let bad = manifest(vec![entry("../x", 1, "00000000000000000000000000000000")]);
    assert!(matches!(Manifest::from_parsed(Ok(bad)), Err(Error::ManifestInvalidPath { .. })));
    let good = manifest(vec![entry("data/x", 1, "00000000000000000000000000000000")]);
    assert_eq!(Manifest::from_parsed(Ok(good)).unwrap().files[0].path, "data/x");
}

#[test]
fn manifest_bytes_must_be_utf8() {
    assert_eq!(manifest_text("manifest_version = 1\n# 日本語".as_bytes()).unwrap(), "manifest_version = 1\n# 日本語");
    match manifest_text(&[0x61, 0xff, 0x62]) {
        Err(Error::ManifestParseFailed(m)) => {
            assert!(m.starts_with("manifest is not valid UTF-8: "));
            assert_eq!(m, format!("manifest is not valid UTF-8: {}", std::str::from_utf8(&[0x61, 0xff, 0x62]).unwrap_err()));
        }
        other => panic!("unexpected {:?}", other),
    }
}

#[test]
fn backslash_traversal_is_refused() {
    for p in ["..\\outside.txt", "data\\..\\..\\x", "data/..\\x", "a\\.."] {
        match validate_entry_path(p) {
            Err(Error::ManifestInvalidPath { reason, .. }) => assert_eq!(reason, "path traversal", "{p}"),
            other => panic!("{p}: {:?}", other),
        }
    }
    assert!(validate_entry_path("data\\..x\\y").is_ok());
}

#[test]
fn duplicates_differing_in_unicode_case_are_refused() {
    let m = manifest(vec![
        entry("data/Ä.txt", 1, "00000000000000000000000000000000"),
        entry("data/ä.txt", 1, "00000000000000000000000000000000"),
    ]);
    assert!(matches!(m.validate().unwrap_err(), Error::ManifestDuplicatePath { .. }));
}
