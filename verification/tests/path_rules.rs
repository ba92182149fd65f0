use launcher_core::manifest::{check_protected, FileEntry};
use launcher_core::path::same_windows_path_case_insensitive;
use launcher_core::config::derive_config_path;
use launcher_core::path::{
    canonicalize_within_base, normalize_slashes, path_starts_with, resolve_relative, url_path_segment_for_data_url,
    validate_alias_target,
};

const CWD: &str = "D:\\Work";

#[test]
fn rejects_traversal() {
    assert!(normalize_slashes("../outside.txt").is_err());
    assert!(normalize_slashes("data/../../outside.txt").is_err());
}

#[test]
fn rejects_absolute() {
    assert!(normalize_slashes("C:/Windows/cmd.exe").is_err());
    assert!(normalize_slashes("C:\\Windows\\cmd.exe").is_err());
}

#[test]
fn accepts_unicode_and_spaces() {
    let p = normalize_slashes("BGM/日本語/track 01.mp3").unwrap();
    let rendered = p.replace('\\', "/");
    assert_eq!(rendered, "BGM/日本語/track 01.mp3");
}

#[test]
fn resolves_within_base() {
    let base = "C:\\Games\\Test";
    let resolved = resolve_relative(base, "data/file.txt", CWD).unwrap();
    assert!(path_starts_with(&resolved, base));
}

#[test]
fn rejects_escaping_resolution() {
    let base = "C:\\Games\\Test";
    assert!(resolve_relative(base, "..\\outside.txt", CWD).is_err());
}

#[test]
fn validate_alias_target_rejects_absolute() {
    assert!(validate_alias_target("bad", "C:/Windows/cmd.exe").is_err());
    assert!(validate_alias_target("bad", "../bad.exe").is_err());
}

#[test]
fn url_path_segment_encoding() {
    let url = url_path_segment_for_data_url(
        "https://patch.example.com/data/",
        "BGM/日本語/track 01.mp3",
    )
    .unwrap();
    assert_eq!(
        url.as_str(),
        "https://patch.example.com/data/BGM/%E6%97%A5%E6%9C%AC%E8%AA%9E/track%2001.mp3"
    );
}

#[test]
fn derive_config_path_works() {
    assert_eq!(
        derive_config_path("C:\\Games\\Test\\testLauncher.exe").unwrap(),
        "C:\\Games\\Test\\testLauncher.toml"
    );
    assert_eq!(
        derive_config_path("C:\\Games\\Test\\BossPatcher.exe").unwrap(),
        "C:\\Games\\Test\\BossPatcher.toml"
    );
}

#[test]
fn resolved_path_is_in_full_form() {
    assert_eq!(
        resolve_relative("C:\\Games\\Test", "data/file.txt", CWD).unwrap(),
        "C:\\Games\\Test\\data\\file.txt"
    );
    assert_eq!(
        resolve_relative("C:/Games/./Test/", "./data//file.txt", CWD).unwrap(),
        "C:\\Games\\Test\\data\\file.txt"
    );
}

#[test]
fn case_insensitive_comparison_covers_unicode() {
    assert!(same_windows_path_case_insensitive("C:\\ÄÖ\\Game.EXE", "c:\\äö\\game.exe"));
    assert!(!same_windows_path_case_insensitive("C:\\a\\b", "C:\\a\\c"));
}

#[test]
fn protected_files_are_detected_in_any_case() {
    let e = FileEntry { path: "bosspatcher.EXE".into(), size: 1, md5: "00000000000000000000000000000000".into() };
    assert!(check_protected(&e, "C:\\L", "C:\\L\\BossPatcher.exe", "C:\\L\\BossPatcher.toml", CWD).is_err());
    let ok = FileEntry { path: "data/a.txt".into(), size: 1, md5: "00000000000000000000000000000000".into() };
    assert!(check_protected(&ok, "C:\\L", "C:\\L\\BossPatcher.exe", "C:\\L\\BossPatcher.toml", CWD).is_ok());
}

#[test]
fn rooted_path_without_drive_is_absolute() {
    assert!(normalize_slashes("\\Windows\\cmd.exe").is_err());
    assert!(normalize_slashes("/Windows/cmd.exe").is_err());
    assert!(validate_alias_target("bad", "\\Windows\\cmd.exe").is_err());
    assert_eq!(normalize_slashes("data\\a.txt").unwrap(), "data/a.txt");
}

#[test]
fn paths_that_are_not_absolute_use_the_current_directory() {
    assert_eq!(resolve_relative("Games\\Test", "data/file.txt", "D:\\Work").unwrap(), "D:\\Work\\Games\\Test\\data\\file.txt");
    assert_eq!(resolve_relative("\\Games", "a.txt", "D:\\Work").unwrap(), "D:\\Games\\a.txt");
    assert_eq!(resolve_relative("D:Games", "a.txt", "d:\\Work").unwrap(), "d:\\Work\\Games\\a.txt");
    assert_eq!(resolve_relative("E:Games", "a.txt", "D:\\Work").unwrap(), "E:\\Games\\a.txt");
    assert_eq!(canonicalize_within_base("..", "..\\x", "D:\\Work\\Sub").unwrap(), "D:\\Work\\x");
    assert!(canonicalize_within_base("C:\\G", "C:\\G\\a\\..\\..\\x", "D:\\Work").is_err());
    assert!(resolve_relative("", "a.txt", "D:\\Work").is_err());
}

#[test]
fn trailing_dots_and_spaces_are_trimmed_like_windows() {
    assert_eq!(canonicalize_within_base("C:\\G", "C:\\G\\a.", CWD).unwrap(), "C:\\G\\a");
    assert_eq!(resolve_relative("C:\\G", "a.txt.", CWD).unwrap(), "C:\\G\\a.txt");
    assert_eq!(resolve_relative("C:\\G", "a.txt . ", CWD).unwrap(), "C:\\G\\a.txt");
    assert_eq!(resolve_relative("C:\\G", "dir./a.txt", CWD).unwrap(), "C:\\G\\dir\\a.txt");
    assert_eq!(resolve_relative("C:\\G", "dir../a.txt", CWD).unwrap(), "C:\\G\\dir.\\a.txt");
    assert_eq!(resolve_relative("C:\\G\\Test.", "Game.exe", CWD).unwrap(), "C:\\G\\Test\\Game.exe");
    assert!(path_starts_with(&resolve_relative("C:\\G\\Test.", "Game.exe", CWD).unwrap(), "C:\\G\\Test"));
    let exe = "C:\\L\\BossPatcher.exe";
    let cfg = "C:\\L\\BossPatcher.toml";
    for name in ["BossPatcher.exe.", "BossPatcher.exe ", "bosspatcher.EXE. .", "BossPatcher.toml."] {
        let e = FileEntry { path: name.into(), size: 1, md5: "00000000000000000000000000000000".into() };
        assert!(check_protected(&e, "C:\\L", exe, cfg, CWD).is_err(), "{name}");
    }
}
