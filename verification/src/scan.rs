//! Building a manifest from a folder: which files it lists, under which
//! relative paths, and in which order.
use crate::manifest::{entries_view, FileEntry, FileEntryView, Manifest, MANIFEST_HASH_ALGORITHM_MD5, MANIFEST_VERSION};
use crate::text::{chars_of, string_of};
use crate::web::opt_text;
use crate::winpath::{
    comp_eq, components, components_exec, lemma_components_bounds, lemma_components_ordered, lemma_normal_comps_nonempty,
    lemma_starts_before_last, starts_with_exec, starts_with_spec, CompKind,
};
use vstd::prelude::*;

verus! {

broadcast use vstd::seq_lib::group_to_multiset_ensures;

/// The order of `str`: character by character by code point, a prefix
/// first. (On UTF-8 text this is the order of the bytes.)
pub open spec fn path_le(a: Seq<char>, b: Seq<char>) -> bool
    decreases a.len(),
{
    if a.len() == 0 {
        true
    } else if b.len() == 0 {
        false
    } else if a[0] != b[0] {
        (a[0] as int) < (b[0] as int)
    } else {
        path_le(a.drop_first(), b.drop_first())
    }
}

pub proof fn lemma_path_le_total(a: Seq<char>, b: Seq<char>)
    ensures
        path_le(a, b) || path_le(b, a),
    decreases a.len(),
{
    if a.len() > 0 && b.len() > 0 && a[0] == b[0] {
        lemma_path_le_total(a.drop_first(), b.drop_first());
    }
}

pub proof fn lemma_path_le_trans(a: Seq<char>, b: Seq<char>, c: Seq<char>)
    requires
        path_le(a, b),
        path_le(b, c),
    ensures
        path_le(a, c),
    decreases a.len(),
{
    if a.len() > 0 && b.len() > 0 && c.len() > 0 && a[0] == b[0] && b[0] == c[0] {
        lemma_path_le_trans(a.drop_first(), b.drop_first(), c.drop_first());
    }
}

/// `e` placed after every entry whose path comes no later than its own,
/// scanning from the end: the step of a stable insertion sort.
pub open spec fn insert_by_path(s: Seq<FileEntryView>, e: FileEntryView) -> Seq<FileEntryView>
    decreases s.len(),
{
    if s.len() == 0 {
        seq![e]
    } else if path_le(s.last().path, e.path) {
        s.push(e)
    } else {
        insert_by_path(s.drop_last(), e).push(s.last())
    }
}

/// The index at which [`insert_by_path`] places `e`.
pub open spec fn insert_pos(s: Seq<FileEntryView>, e: FileEntryView) -> int
    decreases s.len(),
{
    if s.len() == 0 {
        0
    } else if path_le(s.last().path, e.path) {
        s.len() as int
    } else {
        insert_pos(s.drop_last(), e)
    }
}

/// The entries sorted by path, entries with equal paths kept in their order
/// (what the stable `sort_by` on the paths gives).
pub open spec fn sorted_by_path(s: Seq<FileEntryView>) -> Seq<FileEntryView>
    decreases s.len(),
{
    if s.len() == 0 {
        s
    } else {
        insert_by_path(sorted_by_path(s.drop_last()), s.last())
    }
}

pub open spec fn path_sorted(s: Seq<FileEntryView>) -> bool {
    forall|i: int, j: int| 0 <= i < j < s.len() ==> path_le((#[trigger] s[i]).path, (#[trigger] s[j]).path)
}

pub proof fn lemma_insert_pos(s: Seq<FileEntryView>, e: FileEntryView)
    ensures
        0 <= insert_pos(s, e) <= s.len(),
        insert_by_path(s, e) == s.insert(insert_pos(s, e), e),
    decreases s.len(),
{
    if s.len() > 0 {
        if path_le(s.last().path, e.path) {
            assert(s.push(e) =~= s.insert(s.len() as int, e));
        } else {
            lemma_insert_pos(s.drop_last(), e);
            let p = insert_pos(s.drop_last(), e);
            assert(s.drop_last().insert(p, e).push(s.last()) =~= s.insert(p, e));
        }
    } else {
        assert(seq![e] =~= s.insert(0, e));
    }
}

/// Inserting into a sorted list keeps it sorted and adds just `e`.
pub proof fn lemma_insert_sorted(s: Seq<FileEntryView>, e: FileEntryView)
    requires
        path_sorted(s),
    ensures
        path_sorted(insert_by_path(s, e)),
        insert_by_path(s, e).to_multiset() == s.to_multiset().insert(e),
    decreases s.len(),
{
    let r = insert_by_path(s, e);
    if s.len() == 0 {
        assert(seq![e] =~= s.push(e));
    } else if path_le(s.last().path, e.path) {
        assert forall|i: int, j: int| 0 <= i < j < r.len() implies path_le((#[trigger] r[i]).path, (#[trigger] r[j]).path) by {
            if j == s.len() {
                if i < s.len() - 1 {
                    lemma_path_le_trans(s[i].path, s.last().path, e.path);
                }
            }
        }
    } else {
        let d = s.drop_last();
        let last = s.last();
        let q = insert_by_path(d, e);
        lemma_insert_sorted(d, e);
        lemma_path_le_total(last.path, e.path);
        assert forall|i: int| 0 <= i < q.len() implies path_le((#[trigger] q[i]).path, last.path) by {
            assert(q.to_multiset().count(q[i]) > 0);
            assert(q.contains(q[i]));
            if q[i] != e {
                assert(d.to_multiset().count(q[i]) > 0);
                assert(d.contains(q[i]));
                let k = choose|k: int| 0 <= k < d.len() && d[k] == q[i];
                assert(s[k] == d[k]);
            }
        }
        assert forall|i: int, j: int| 0 <= i < j < r.len() implies path_le((#[trigger] r[i]).path, (#[trigger] r[j]).path) by {
            if j == q.len() {
                assert(r[i] == q[i]);
            } else {
                assert(r[i] == q[i] && r[j] == q[j]);
            }
        }
        assert(r.to_multiset() =~= q.to_multiset().insert(last));
        assert(s == d.push(last));
    }
}

/// The sorted entries are sorted by path, and they are the same entries.
pub proof fn law_sorted_by_path(s: Seq<FileEntryView>)
    ensures
        path_sorted(sorted_by_path(s)),
        sorted_by_path(s).to_multiset() == s.to_multiset(),
        sorted_by_path(s).len() == s.len(),
    decreases s.len(),
{
    if s.len() > 0 {
        law_sorted_by_path(s.drop_last());
        lemma_insert_sorted(sorted_by_path(s.drop_last()), s.last());
        lemma_insert_pos(sorted_by_path(s.drop_last()), s.last());
        assert(s == s.drop_last().push(s.last()));
    }
}

pub fn path_le_exec(a: &str, b: &str) -> (r: bool)
    ensures
        r == path_le(a@, b@),
{
    let x = chars_of(a);
    let y = chars_of(b);
    let mut i: usize = 0;
    assert(x@.skip(0) == x@);
    assert(y@.skip(0) == y@);
    while i < x.len() && i < y.len() && x[i] == y[i]
        invariant
            x@ == a@,
            y@ == b@,
            i <= x.len(),
            i <= y.len(),
            path_le(a@, b@) == path_le(x@.skip(i as int), y@.skip(i as int)),
        decreases x.len() - i,
    {
        assert(x@.skip(i as int).drop_first() == x@.skip(i + 1));
        assert(y@.skip(i as int).drop_first() == y@.skip(i + 1));
        i = i + 1;
    }
    if i == x.len() {
        true
    } else if i == y.len() {
        false
    } else {
        assert(x@.skip(i as int)[0] == x@[i as int]);
        assert(y@.skip(i as int)[0] == y@[i as int]);
        x[i] < y[i]
    }
}

/// The entries sorted by path, equal paths kept in their order.
pub fn sort_entries_by_path(files: &Vec<FileEntry>) -> (r: Vec<FileEntry>)
    ensures
        entries_view(r@) == sorted_by_path(entries_view(files@)),
{
    let ghost fv = entries_view(files@);
    let mut r: Vec<FileEntry> = Vec::new();
    let mut i: usize = 0;
    while i < files.len()
        invariant
            fv == entries_view(files@),
            i <= files.len(),
            entries_view(r@) == sorted_by_path(fv.take(i as int)),
        decreases files.len() - i,
    {
        let e = files[i].duplicate();
        let ghost rv = entries_view(r@);
        let mut j: usize = r.len();
        assert(rv.take(j as int) == rv);
        while j > 0 && !path_le_exec(r[j - 1].path.as_str(), e.path.as_str())
            invariant
                rv == entries_view(r@),
                j <= r.len(),
                insert_pos(rv, e@) == insert_pos(rv.take(j as int), e@),
            decreases j,
        {
            assert(rv.take(j as int).drop_last() == rv.take(j - 1));
            assert(rv.take(j as int).last() == r@[j - 1]@);
            j = j - 1;
        }
        proof {
            if j > 0 {
                assert(rv.take(j as int).last() == r@[j - 1]@);
            }
            lemma_insert_pos(rv, e@);
            assert(fv.take(i + 1).drop_last() == fv.take(i as int));
            assert(fv.take(i + 1).last() == files@[i as int]@);
        }
        r.insert(j, e);
        assert(entries_view(r@) =~= rv.insert(j as int, e@));
        i = i + 1;
    }
    assert(fv.take(files.len() as int) == fv);
    r
}

pub open spec fn slashed(c: char) -> char {
    if c == '\\' { '/' } else { c }
}

/// `Path::strip_prefix` written with `/`: when the components of `root`
/// begin those of `file`, the text of `file` from the first component after
/// them to the end of its last component, each `\` made `/`; otherwise nothing.
pub open spec fn relative_spec(root: Seq<char>, file: Seq<char>) -> Option<Seq<char>> {
    let cs = components(file);
    let k = components(root).len() as int;
    if !starts_with_spec(file, root) {
        None
    } else if k >= cs.len() {
        Some(Seq::<char>::empty())
    } else {
        Some(file.subrange(cs[k].start as int, cs.last().end as int).map_values(|c: char| slashed(c)))
    }
}

/// A listed path is written with `/`: it holds no `\\`.
pub proof fn law_relative_paths_use_slashes(root: Seq<char>, file: Seq<char>)
    requires
        relative_spec(root, file) is Some,
    ensures
        forall|i: int| 0 <= i < (relative_spec(root, file)->Some_0).len() ==> (#[trigger] (relative_spec(root, file)->Some_0)[i]) != '\\',
{
}

/// A file inside the scanned folder is listed under the text of its path
/// after the folder's components, with `/` for `\\`; a file whose last
/// component is a name (any file below the folder) gets a non-empty path,
/// as long as its text.
pub proof fn law_inner_file_listed(root: Seq<char>, file: Seq<char>)
    requires
        file.len() <= usize::MAX,
        starts_with_spec(file, root),
        components(file).len() > components(root).len(),
    ensures
        relative_spec(root, file) is Some,
        ({
            let cs = components(file);
            let first = cs[components(root).len() as int];
            let rel = relative_spec(root, file)->Some_0;
            &&& rel.len() == cs.last().end - first.start
            &&& forall|i: int| 0 <= i < rel.len() ==> #[trigger] rel[i] == slashed(file[first.start + i])
            &&& cs.last().kind == CompKind::Normal ==> rel.len() > 0
        }),
{
    let cs = components(file);
    let k = components(root).len() as int;
    lemma_components_bounds(file);
    lemma_components_ordered(file);
    lemma_normal_comps_nonempty(file);
    assert(cs.last() == cs[cs.len() - 1]);
    if cs.last().kind == CompKind::Normal {
        assert(cs[cs.len() - 1].start < cs[cs.len() - 1].end);
        assert(cs[k].start <= cs[cs.len() - 1].start) by {
            lemma_starts_before_last(file, k);
        }
    }
}

/// The path under which a file of the scanned folder is listed, or `None`
/// for a file outside the folder.
pub fn relative_manifest_path(root: &str, file: &str) -> (r: Option<String>)
    ensures
        opt_text(r) == relative_spec(root@, file@),
{
    let f = chars_of(file);
    let b = chars_of(root);
    if !starts_with_exec(&f, &b) {
        return None;
    }
    let cs = components_exec(&f);
    let bs = components_exec(&b);
    let k = bs.len();
    let mut out: Vec<char> = Vec::new();
    let flen = f.len();
    if k < cs.len() {
        proof {
            lemma_components_bounds(f@);
            lemma_components_ordered(f@);
        }
        let start = cs[k].start;
        let end = cs[cs.len() - 1].end;
        let mut i: usize = start;
        while i < end
            invariant
                start <= i <= end <= f.len(),
                out@ == f@.subrange(start as int, i as int).map_values(|c: char| slashed(c)),
            decreases end - i,
        {
            let c = f[i];
            out.push(if c == '\\' { '/' } else { c });
            assert(f@.subrange(start as int, i + 1) == f@.subrange(start as int, i as int).push(c));
            i = i + 1;
        }
    }
    Some(string_of(&out))
}

/// `Path` equality: the same components, drive letters without case.
pub open spec fn same_path_spec(a: Seq<char>, b: Seq<char>) -> bool {
    starts_with_spec(a, b) && components(a).len() == components(b).len()
}

pub fn same_path(a: &str, b: &str) -> (r: bool)
    ensures
        r == same_path_spec(a@, b@),
{
    let x = chars_of(a);
    let y = chars_of(b);
    starts_with_exec(&x, &y) && components_exec(&x).len() == components_exec(&y).len()
}

impl Manifest {
    /// The manifest of a scanned folder: version 1, MD5, the given time,
    /// and the entries sorted by path.
    pub fn generated(files: &Vec<FileEntry>, generated_at: &str) -> (m: Manifest)
        ensures
            m.manifest_version == MANIFEST_VERSION,
            m.hash_algorithm@ == MANIFEST_HASH_ALGORITHM_MD5@,
            m.generated_at matches Some(t) && t@ == generated_at@,
            entries_view(m.files@) == sorted_by_path(entries_view(files@)),
    {
        Manifest {
            manifest_version: MANIFEST_VERSION,
            hash_algorithm: MANIFEST_HASH_ALGORITHM_MD5.to_owned(),
            generated_at: Some(generated_at.to_owned()),
            files: sort_entries_by_path(files),
        }
    }
}

} // verus!
