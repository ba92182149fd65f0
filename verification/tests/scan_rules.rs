use launcher_core::manifest::{FileEntry, Manifest};
use launcher_core::scan::{path_le_exec, relative_manifest_path, same_path, sort_entries_by_path};

fn entry(path: &str, size: u64) -> FileEntry {
    FileEntry { path: path.into(), size, md5: "00000000000000000000000000000000".into() }
}

#[test]
fn entries_are_sorted_by_path() {
    let files = vec![
        entry("data/b.txt", 1),
        entry("BGM/日本語/track 01.mp3", 2),
        entry("data/a.txt", 3),
        entry("Data/z.txt", 4),
        entry("data/a.txt", 5),
    ];
    let sorted = sort_entries_by_path(&files);
    let paths: Vec<(&str, u64)> = sorted.iter().map(|e| (e.path.as_str(), e.size)).collect();
    assert_eq!(
        paths,
        vec![
            ("BGM/日本語/track 01.mp3", 2),
            ("Data/z.txt", 4),
            ("data/a.txt", 3),
            ("data/a.txt", 5),
            ("data/b.txt", 1),
        ]
    );
    let mut expected: Vec<String> = files.iter().map(|e| e.path.clone()).collect();
    expected.sort();
    let got: Vec<String> = sorted.iter().map(|e| e.path.clone()).collect();
    assert_eq!(got, expected);
}

#[test]
fn path_order_is_the_order_of_str() {
    for (a, b) in [("a", "b"), ("a", "ab"), ("", "a"), ("é", "z"), ("Z", "a"), ("日本", "日本語"), ("x", "x")] {
        assert_eq!(path_le_exec(a, b), a <= b, "{a} {b}");
        assert_eq!(path_le_exec(b, a), b <= a, "{b} {a}");
    }
}

#[test]
fn relative_paths_use_forward_slashes() {
    assert_eq!(
        relative_manifest_path("C:\\PatchRoot", "C:\\PatchRoot\\BGM\\日本語\\track 01.mp3").as_deref(),
        Some("BGM/日本語/track 01.mp3")
    );
    assert_eq!(relative_manifest_path("C:\\PatchRoot", "c:\\PatchRoot\\data\\a.txt").as_deref(), Some("data/a.txt"));
    assert_eq!(relative_manifest_path("C:\\PatchRoot", "C:\\Other\\a.txt"), None);
    assert_eq!(relative_manifest_path("C:\\PatchRoot", "C:\\PatchRootX\\a.txt"), None);
    assert_eq!(relative_manifest_path("C:\\PatchRoot", "C:\\PatchRoot").as_deref(), Some(""));
}

#[test]
fn same_path_compares_components() {
    assert!(same_path("C:\\root\\manifest.toml", "c:\\root\\manifest.toml"));
    assert!(same_path("C:\\root\\\\manifest.toml", "C:/root/manifest.toml"));
    assert!(!same_path("C:\\root\\manifest.toml", "C:\\root\\Manifest.toml"));
    assert!(!same_path("C:\\root", "C:\\root\\manifest.toml"));
}

#[test]
fn generated_manifest_is_sorted_md5_version_one() {
    let m = Manifest::generated(&vec![entry("b", 1), entry("a", 2)], "2026-07-09T00:00:00+00:00");
    assert_eq!(m.manifest_version, 1);
    assert_eq!(m.hash_algorithm, "md5");
    assert_eq!(m.generated_at.as_deref(), Some("2026-07-09T00:00:00+00:00"));
    assert_eq!(m.files[0].path, "a");
    assert_eq!(m.files[1].path, "b");
    m.validate().unwrap();
}
