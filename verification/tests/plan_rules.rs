use launcher_core::manifest::FileEntry;
use launcher_core::plan::{hash_reason, hashes_match, size_reason, ItemReason, PatchPlan};

fn entry(path: &str, size: u64, md5: &str) -> FileEntry {
    FileEntry { path: path.into(), size, md5: md5.into() }
}

#[test]
fn plan_counts_every_checked_file() {
    let a = entry("a", 10, "AB");
    let b = entry("b", 20, "cd");
    let c = entry("c", 30, "ef");
    let mut plan = PatchPlan::empty();
    plan.record(&a, None);
    plan.record(&b, Some(ItemReason::Missing));
    plan.record(&c, Some(ItemReason::HashMismatch));
    assert_eq!(plan.checked_files, 3);
    assert_eq!(plan.valid_files, 1);
    assert_eq!(plan.missing_files, 1);
    assert_eq!(plan.changed_files, 1);
    assert_eq!(plan.files_to_download, 2);
    assert_eq!(plan.bytes_to_download, 50);
    assert_eq!(plan.items[1].path, "c");
    let ready = plan.with_protected_skipped(2);
    assert_eq!(ready.protected_skipped, 2);
    assert_eq!(ready.items.len(), 2);
}

#[test]
fn reasons_follow_size_then_hash() {
    let e = entry("a", 3, "900150983CD24FB0D6963F7D28E17F72");
    assert_eq!(size_reason(2, &e), Some(ItemReason::SizeMismatch));
    assert_eq!(size_reason(3, &e), None);
    assert_eq!(hash_reason("900150983cd24fb0d6963f7d28e17f72", &e), None);
    assert_eq!(hash_reason("00000000000000000000000000000000", &e), Some(ItemReason::HashMismatch));
    assert!(hashes_match("aBc", "AbC"));
    assert!(!hashes_match("abc", "abd"));
}
