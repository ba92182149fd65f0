//! The patch plan: which manifest files must be downloaded, and why.
use crate::manifest::FileEntry;
use crate::text::{ascii_lower_seq, to_ascii_lowercase, vec_eq};
use vstd::prelude::*;

verus! {

/// Why a file is downloaded.
#[derive(Debug, Clone, Copy, PartialEq, Eq, Structural)]
pub enum ItemReason {
    Missing,
    SizeMismatch,
    HashMismatch,
}

/// One file to download.
#[derive(Debug, Clone)]
pub struct PlanItem {
    pub path: String,
    pub reason: ItemReason,
    pub size: u64,
}

/// The result of comparing the manifest with the local files.
#[derive(Debug, Clone)]
pub struct PatchPlan {
    pub checked_files: usize,
    pub valid_files: usize,
    pub missing_files: usize,
    pub changed_files: usize,
    pub protected_skipped: usize,
    pub files_to_download: usize,
    pub bytes_to_download: u64,
    pub items: Vec<PlanItem>,
}

/// The sum of the sizes of `items`.
pub open spec fn items_bytes(items: Seq<PlanItem>) -> int
    decreases items.len(),
{
    if items.len() == 0 {
        0
    } else {
        items_bytes(items.drop_last()) + items.last().size
    }
}

pub open spec fn items_missing(items: Seq<PlanItem>) -> int
    decreases items.len(),
{
    if items.len() == 0 {
        0
    } else {
        items_missing(items.drop_last()) + (if items.last().reason == ItemReason::Missing { 1int } else { 0 })
    }
}

impl PatchPlan {
    /// The counts agree with each other and with the items: every checked
    /// file is valid, missing or changed; every missing or changed file is an
    /// item; the bytes to download are the items' sizes summed.
    pub open spec fn wf(&self) -> bool {
        &&& self.checked_files == self.valid_files + self.missing_files + self.changed_files
        &&& self.files_to_download == self.items.len()
        &&& self.files_to_download == self.missing_files + self.changed_files
        &&& self.missing_files == items_missing(self.items@)
        &&& self.bytes_to_download == items_bytes(self.items@)
    }

    pub fn empty() -> (p: Self)
        ensures
            p.wf(),
            p.checked_files == 0,
            p.valid_files == 0,
            p.missing_files == 0,
            p.changed_files == 0,
            p.protected_skipped == 0,
            p.files_to_download == 0,
            p.bytes_to_download == 0,
            p.items@.len() == 0,
    {
        PatchPlan {
            checked_files: 0,
            valid_files: 0,
            missing_files: 0,
            changed_files: 0,
            protected_skipped: 0,
            files_to_download: 0,
            bytes_to_download: 0,
            items: Vec::new(),
        }
    }

    /// Counts one checked entry: valid when `reason` is `None`, otherwise an
    /// item to download for that reason.
    pub fn record(&mut self, entry: &FileEntry, reason: Option<ItemReason>)
        requires
            old(self).wf(),
            old(self).checked_files < usize::MAX,
            reason is Some ==> old(self).bytes_to_download + entry.size <= u64::MAX,
        ensures
            final(self).wf(),
            final(self).checked_files == old(self).checked_files + 1,
            final(self).protected_skipped == old(self).protected_skipped,
            match reason {
                None => {
                    &&& final(self).valid_files == old(self).valid_files + 1
                    &&& final(self).items@ == old(self).items@
                },
                Some(r) => {
                    &&& final(self).valid_files == old(self).valid_files
                    &&& final(self).items@.len() == old(self).items@.len() + 1
                    &&& final(self).items@.drop_last() == old(self).items@
                    &&& final(self).items@.last().path@ == entry.path@
                    &&& final(self).items@.last().reason == r
                    &&& final(self).items@.last().size == entry.size
                    &&& (r == ItemReason::Missing ==> final(self).missing_files == old(self).missing_files + 1
                        && final(self).changed_files == old(self).changed_files)
                    &&& (r != ItemReason::Missing ==> final(self).changed_files == old(self).changed_files + 1
                        && final(self).missing_files == old(self).missing_files)
                },
            },
    {
        self.checked_files = self.checked_files + 1;
        match reason {
            None => {
                self.valid_files = self.valid_files + 1;
            },
            Some(r) => {
                match r {
                    ItemReason::Missing => {
                        self.missing_files = self.missing_files + 1;
                    },
                    _ => {
                        self.changed_files = self.changed_files + 1;
                    },
                }
                let ghost before = self.items@;
                self.items.push(PlanItem { path: entry.path.clone(), reason: r, size: entry.size });
                assert(self.items@.drop_last() == before);
                self.files_to_download = self.files_to_download + 1;
                self.bytes_to_download = self.bytes_to_download + entry.size;
            },
        }
    }
}

/// A local file whose size differs from the manifest's is changed; one of
/// the same size still needs its hash compared.
pub fn size_reason(local_len: u64, entry: &FileEntry) -> (r: Option<ItemReason>)
    ensures
        r == (if local_len != entry.size { Some(ItemReason::SizeMismatch) } else { None::<ItemReason> }),
{
    if local_len != entry.size {
        Some(ItemReason::SizeMismatch)
    } else {
        None
    }
}

/// Whether two hashes are equal ignoring ASCII case.
pub open spec fn same_hash(a: Seq<char>, b: Seq<char>) -> bool {
    ascii_lower_seq(a) == ascii_lower_seq(b)
}

pub fn hashes_match(a: &str, b: &str) -> (r: bool)
    ensures
        r == same_hash(a@, b@),
{
    let x = to_ascii_lowercase(a);
    let y = to_ascii_lowercase(b);
    vec_eq(&x, &y)
}

/// A local file whose MD5 differs (ignoring case) from the manifest's is changed.
pub fn hash_reason(local_md5: &str, entry: &FileEntry) -> (r: Option<ItemReason>)
    ensures
        r == (if !same_hash(local_md5@, entry.md5@) { Some(ItemReason::HashMismatch) } else { None::<ItemReason> }),
{
    if !hashes_match(local_md5, entry.md5.as_str()) {
        Some(ItemReason::HashMismatch)
    } else {
        None
    }
}


pub struct PlanItemView {
    pub path: Seq<char>,
    pub reason: ItemReason,
    pub size: u64,
}

impl View for PlanItem {
    type V = PlanItemView;

    open spec fn view(&self) -> PlanItemView {
        PlanItemView { path: self.path@, reason: self.reason, size: self.size }
    }
}

pub open spec fn items_view(items: Seq<PlanItem>) -> Seq<PlanItemView> {
    items.map_values(|i: PlanItem| i@)
}

/// Items that read the same have the same byte total and the same count of
/// missing files.
pub proof fn lemma_items_same_view(a: Seq<PlanItem>, b: Seq<PlanItem>)
    requires
        items_view(a) == items_view(b),
    ensures
        items_bytes(a) == items_bytes(b),
        items_missing(a) == items_missing(b),
    decreases a.len(),
{
    assert(a.len() == items_view(a).len());
    assert(b.len() == items_view(b).len());
    if a.len() > 0 {
        assert(items_view(a.drop_last()) =~= items_view(a).drop_last());
        assert(items_view(b.drop_last()) =~= items_view(b).drop_last());
        assert(a.last()@ == items_view(a)[a.len() - 1]);
        assert(b.last()@ == items_view(b)[b.len() - 1]);
        lemma_items_same_view(a.drop_last(), b.drop_last());
    }
}

impl PatchPlan {
    /// The same plan, with the count of protected files that were skipped.
    pub fn with_protected_skipped(&self, protected_skipped: usize) -> (p: PatchPlan)
        ensures
            p.checked_files == self.checked_files,
            p.valid_files == self.valid_files,
            p.missing_files == self.missing_files,
            p.changed_files == self.changed_files,
            p.protected_skipped == protected_skipped,
            p.files_to_download == self.files_to_download,
            p.bytes_to_download == self.bytes_to_download,
            items_view(p.items@) == items_view(self.items@),
            self.wf() ==> p.wf(),
    {
        let mut items: Vec<PlanItem> = Vec::new();
        let mut i: usize = 0;
        while i < self.items.len()
            invariant
                i <= self.items.len(),
                items_view(items@) == items_view(self.items@.take(i as int)),
            decreases self.items.len() - i,
        {
            let it = &self.items[i];
            items.push(PlanItem { path: it.path.clone(), reason: it.reason, size: it.size });
            assert(items_view(self.items@.take(i + 1)) =~= items_view(self.items@.take(i as int)).push(self.items@[i as int]@));
            assert(items_view(items@) =~= items_view(self.items@.take(i + 1)));
            i = i + 1;
        }
        assert(self.items@.take(self.items.len() as int) == self.items@);
        proof {
            lemma_items_same_view(items@, self.items@);
        }
        PatchPlan {
            checked_files: self.checked_files,
            valid_files: self.valid_files,
            missing_files: self.missing_files,
            changed_files: self.changed_files,
            protected_skipped,
            files_to_download: self.files_to_download,
            bytes_to_download: self.bytes_to_download,
            items,
        }
    }
}

} // verus!
