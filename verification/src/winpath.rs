//! A model of Windows path syntax: prefixes, roots and components, over the
//! characters of a path. The launcher is a Windows program; every path it
//! handles is read the way Windows reads it, whatever machine runs the code.
use crate::text::{extend_from, extend_from_range};
use vstd::prelude::*;

verus! {

/// Both `/` and `\` separate components.
pub open spec fn is_sep(c: char) -> bool {
    c == '/' || c == '\\'
}

/// In verbatim (`\\?\`) paths only `\` separates components.
pub open spec fn is_sep_for(c: char, verbatim: bool) -> bool {
    c == '\\' || (!verbatim && c == '/')
}

pub open spec fn is_ascii_alpha(c: char) -> bool {
    ('a' <= c && c <= 'z') || ('A' <= c && c <= 'Z')
}

/// Index of the first separator at or after `i`, or the length of `p`.
pub open spec fn next_sep(p: Seq<char>, i: int, verbatim: bool) -> int
    decreases p.len() - i,
{
    if i >= p.len() {
        p.len() as int
    } else if is_sep_for(p[i], verbatim) {
        i
    } else {
        next_sep(p, i + 1, verbatim)
    }
}

pub proof fn lemma_next_sep_bounds(p: Seq<char>, i: int, verbatim: bool)
    requires
        0 <= i,
    ensures
        i <= p.len() ==> i <= next_sep(p, i, verbatim) <= p.len(),
        i > p.len() ==> next_sep(p, i, verbatim) == p.len(),
        next_sep(p, i, verbatim) < p.len() ==> is_sep_for(p[next_sep(p, i, verbatim)], verbatim),
        forall|k: int| i <= k < next_sep(p, i, verbatim) ==> !is_sep_for(#[trigger] p[k], verbatim),
    decreases p.len() - i,
{
    if i < p.len() && !is_sep_for(p[i], verbatim) {
        lemma_next_sep_bounds(p, i + 1, verbatim);
    }
}

/// The kinds of prefix a Windows path may start with.
#[derive(Clone, Copy, Debug, PartialEq, Eq, Structural)]
pub enum PrefixKind {
    /// `\\?\name`
    Verbatim,
    /// `\\?\UNC\server\share`
    VerbatimUNC,
    /// `\\?\C:`
    VerbatimDisk,
    /// `\\.\device`
    DeviceNS,
    /// `\\server\share`
    UNC,
    /// `C:`
    Disk,
}

/// Where a prefix ends, and where its one or two named parts stand.
#[derive(Clone, Copy, Debug, PartialEq, Eq, Structural)]
pub struct PrefixSpan {
    pub kind: PrefixKind,
    pub len: usize,
    pub a_start: usize,
    pub a_end: usize,
    pub b_start: usize,
    pub b_end: usize,
}

pub open spec fn mk_prefix(kind: PrefixKind, len: int, a_start: int, a_end: int, b_start: int, b_end: int) -> PrefixSpan {
    PrefixSpan {
        kind,
        len: len as usize,
        a_start: a_start as usize,
        a_end: a_end as usize,
        b_start: b_start as usize,
        b_end: b_end as usize,
    }
}

pub open spec fn is_verbatim_kind(k: PrefixKind) -> bool {
    k == PrefixKind::Verbatim || k == PrefixKind::VerbatimUNC || k == PrefixKind::VerbatimDisk
}

/// The prefix of `p`, read as Windows reads it.
pub open spec fn parse_prefix(p: Seq<char>) -> Option<PrefixSpan> {
    if p.len() >= 2 && is_sep(p[0]) && is_sep(p[1]) {
        if p.len() >= 4 && p[0] == '\\' && p[1] == '\\' && p[2] == '?' && p[3] == '\\' {
            if p.len() >= 8 && p[4] == 'U' && p[5] == 'N' && p[6] == 'C' && is_sep(p[7]) {
                let s_end = next_sep(p, 8, true);
                if s_end < p.len() {
                    let sh_end = next_sep(p, s_end + 1, true);
                    if sh_end > s_end + 1 {
                        Some(mk_prefix(PrefixKind::VerbatimUNC, sh_end, 8, s_end, s_end + 1, sh_end))
                    } else {
                        Some(mk_prefix(PrefixKind::VerbatimUNC, s_end, 8, s_end, s_end + 1, s_end + 1))
                    }
                } else {
                    Some(mk_prefix(PrefixKind::VerbatimUNC, s_end, 8, s_end, s_end, s_end))
                }
            } else if p.len() >= 6 && is_ascii_alpha(p[4]) && p[5] == ':' && (p.len() == 6 || is_sep(p[6])) {
                Some(mk_prefix(PrefixKind::VerbatimDisk, 6, 4, 5, 6, 6))
            } else {
                let e = next_sep(p, 4, true);
                Some(mk_prefix(PrefixKind::Verbatim, e, 4, e, e, e))
            }
        } else if p.len() >= 4 && p[2] == '.' && is_sep(p[3]) {
            let e = next_sep(p, 4, false);
            Some(mk_prefix(PrefixKind::DeviceNS, e, 4, e, e, e))
        } else {
            let s_end = next_sep(p, 2, false);
            if s_end < p.len() {
                let sh_end = next_sep(p, s_end + 1, false);
                if s_end > 2 && sh_end > s_end + 1 {
                    Some(mk_prefix(PrefixKind::UNC, sh_end, 2, s_end, s_end + 1, sh_end))
                } else {
                    None
                }
            } else {
                None
            }
        }
    } else if p.len() >= 2 && is_ascii_alpha(p[0]) && p[1] == ':' {
        Some(mk_prefix(PrefixKind::Disk, 2, 0, 1, 2, 2))
    } else {
        None
    }
}

pub open spec fn prefix_len(p: Seq<char>) -> int {
    match parse_prefix(p) {
        Some(s) => s.len as int,
        None => 0,
    }
}

pub open spec fn is_verbatim(p: Seq<char>) -> bool {
    parse_prefix(p) matches Some(s) && is_verbatim_kind(s.kind)
}

pub open spec fn has_prefix(p: Seq<char>) -> bool {
    parse_prefix(p) is Some
}

/// A separator right after the prefix.
pub open spec fn has_physical_root(p: Seq<char>) -> bool {
    prefix_len(p) < p.len() && is_sep(p[prefix_len(p)])
}

/// Every prefix but a drive letter implies a root.
pub open spec fn has_implicit_root(p: Seq<char>) -> bool {
    parse_prefix(p) matches Some(s) && s.kind != PrefixKind::Disk
}

pub open spec fn has_root(p: Seq<char>) -> bool {
    has_physical_root(p) || has_implicit_root(p)
}

/// A path is absolute when it has both a prefix and a root (`C:\x`, `\\server\share\x`).
pub open spec fn is_absolute(p: Seq<char>) -> bool {
    has_root(p) && has_prefix(p)
}

/// A relative path that starts with `.` keeps it as its first component.
pub open spec fn include_cur_dir(p: Seq<char>) -> bool {
    let k = prefix_len(p);
    !has_root(p) && k < p.len() && p[k] == '.' && (k + 1 == p.len() || is_sep(p[k + 1]))
}

/// Whether a root component is listed.
pub open spec fn lists_root(p: Seq<char>) -> bool {
    has_physical_root(p) || (has_implicit_root(p) && !is_verbatim(p))
}

pub open spec fn body_start(p: Seq<char>) -> int {
    prefix_len(p) + (if has_physical_root(p) { 1int } else { 0 }) + (if include_cur_dir(p) { 1int } else { 0 })
}

/// The kinds of component.
#[derive(Clone, Copy, Debug, PartialEq, Eq, Structural)]
pub enum CompKind {
    Prefix,
    RootDir,
    CurDir,
    ParentDir,
    Normal,
}

/// A component of a path: its kind and the characters it spans.
#[derive(Clone, Copy, Debug, PartialEq, Eq, Structural)]
pub struct Comp {
    pub kind: CompKind,
    pub start: usize,
    pub end: usize,
}

pub open spec fn mk_comp(kind: CompKind, start: int, end: int) -> Comp {
    Comp { kind, start: start as usize, end: end as usize }
}

/// What the characters `p[i..j]` between two separators are.
pub open spec fn piece_kind(p: Seq<char>, i: int, j: int, verbatim: bool) -> Option<CompKind> {
    if j == i {
        None
    } else if j - i == 1 && p[i] == '.' {
        if verbatim {
            Some(CompKind::CurDir)
        } else {
            None
        }
    } else if j - i == 2 && p[i] == '.' && p[i + 1] == '.' {
        Some(CompKind::ParentDir)
    } else {
        Some(CompKind::Normal)
    }
}

/// The components of the body of `p` from position `i` on.
pub open spec fn body_comps(p: Seq<char>, i: int, verbatim: bool) -> Seq<Comp>
    decreases p.len() - i,
{
    if i >= p.len() || i < 0 {
        seq![]
    } else {
        proof {
            lemma_next_sep_bounds(p, i, verbatim);
            assert(next_sep(p, i, verbatim) >= i);
        }
        let j = next_sep(p, i, verbatim);
        let head = match piece_kind(p, i, j, verbatim) {
            Some(k) => seq![mk_comp(k, i, j)],
            None => Seq::<Comp>::empty(),
        };
        if j < p.len() {
            head + body_comps(p, j + 1, verbatim)
        } else {
            head
        }
    }
}

/// The components of `p`, in order.
pub open spec fn components(p: Seq<char>) -> Seq<Comp> {
    let pre = if has_prefix(p) { seq![mk_comp(CompKind::Prefix, 0, prefix_len(p))] } else { Seq::<Comp>::empty() };
    let root = if lists_root(p) {
        seq![mk_comp(CompKind::RootDir, prefix_len(p), prefix_len(p) + (if has_physical_root(p) { 1int } else { 0 }))]
    } else {
        Seq::<Comp>::empty()
    };
    let cur = if include_cur_dir(p) {
        seq![mk_comp(CompKind::CurDir, prefix_len(p), prefix_len(p) + 1)]
    } else {
        Seq::<Comp>::empty()
    };
    pre + root + cur + body_comps(p, body_start(p), is_verbatim(p))
}

pub open spec fn comp_text(p: Seq<char>, c: Comp) -> Seq<char> {
    p.subrange(c.start as int, c.end as int)
}

pub proof fn lemma_body_comps_bounds(p: Seq<char>, i: int, verbatim: bool)
    requires
        p.len() <= usize::MAX,
    ensures
        forall|k: int| 0 <= k < body_comps(p, i, verbatim).len() ==> {
            let c = #[trigger] body_comps(p, i, verbatim)[k];
            i <= c.start <= c.end <= p.len()
        },
    decreases p.len() - i,
{
    if i < p.len() && i >= 0 {
        lemma_next_sep_bounds(p, i, verbatim);
        let j = next_sep(p, i, verbatim);
        if j < p.len() {
            lemma_body_comps_bounds(p, j + 1, verbatim);
        }
    }
}

pub proof fn lemma_prefix_bounds(p: Seq<char>)
    requires
        p.len() <= usize::MAX,
    ensures
        parse_prefix(p) matches Some(s) ==> 0 < s.len <= p.len() && s.len == prefix_len(p),
        parse_prefix(p) matches Some(s) ==> s.a_start <= s.a_end <= p.len() && s.b_start <= s.b_end <= p.len(),
        parse_prefix(p) matches Some(s) ==> ((s.kind == PrefixKind::Disk || s.kind == PrefixKind::VerbatimDisk) ==> s.a_start < p.len()),
        0 <= prefix_len(p) <= p.len(),
{
    lemma_next_sep_bounds(p, 2, false);
    lemma_next_sep_bounds(p, 4, false);
    lemma_next_sep_bounds(p, 4, true);
    lemma_next_sep_bounds(p, 8, true);
    if p.len() >= 3 {
        let s_end = next_sep(p, 2, false);
        lemma_next_sep_bounds(p, s_end + 1, false);
    }
    if p.len() >= 9 {
        let s_end = next_sep(p, 8, true);
        lemma_next_sep_bounds(p, s_end + 1, true);
    }
}

/// Every component spans characters of the path.
pub proof fn lemma_components_bounds(p: Seq<char>)
    requires
        p.len() <= usize::MAX,
    ensures
        body_start(p) <= p.len(),
        forall|k: int| 0 <= k < components(p).len() ==> {
            let c = #[trigger] components(p)[k];
            0 <= c.start <= c.end <= p.len()
        },
{
    lemma_prefix_bounds(p);
    lemma_body_comps_bounds(p, body_start(p), is_verbatim(p));
}

/// The body's components come in order and do not overlap.
pub proof fn lemma_body_comps_ordered(p: Seq<char>, i: int, verbatim: bool)
    requires
        p.len() <= usize::MAX,
    ensures
        forall|a: int, b: int| 0 <= a < b < body_comps(p, i, verbatim).len() ==>
            (#[trigger] body_comps(p, i, verbatim)[a]).end <= (#[trigger] body_comps(p, i, verbatim)[b]).start,
    decreases p.len() - i,
{
    if i < p.len() && i >= 0 {
        lemma_next_sep_bounds(p, i, verbatim);
        let j = next_sep(p, i, verbatim);
        if j < p.len() {
            lemma_body_comps_ordered(p, j + 1, verbatim);
            lemma_body_comps_bounds(p, j + 1, verbatim);
            let head = match piece_kind(p, i, j, verbatim) {
                Some(k) => seq![mk_comp(k, i, j)],
                None => Seq::<Comp>::empty(),
            };
            let rest = body_comps(p, j + 1, verbatim);
            assert(body_comps(p, i, verbatim) == head + rest);
            assert forall|a: int, b: int| 0 <= a < b < body_comps(p, i, verbatim).len() implies
                (#[trigger] body_comps(p, i, verbatim)[a]).end <= (#[trigger] body_comps(p, i, verbatim)[b]).start by {
                if a >= head.len() {
                    assert(body_comps(p, i, verbatim)[a] == rest[a - head.len()]);
                    assert(body_comps(p, i, verbatim)[b] == rest[b - head.len()]);
                } else {
                    assert(body_comps(p, i, verbatim)[b] == rest[b - head.len()]);
                }
            }
        }
    }
}

/// No component starts after the end of the last one.
#[verifier::spinoff_prover]
#[verifier::rlimit(40)]
pub proof fn lemma_components_ordered(p: Seq<char>)
    requires
        p.len() <= usize::MAX,
    ensures
        forall|k: int| 0 <= k < components(p).len() ==> (#[trigger] components(p)[k]).start <= components(p).last().end,
{
    lemma_components_bounds(p);
    lemma_prefix_bounds(p);
    lemma_body_comps_ordered(p, body_start(p), is_verbatim(p));
    lemma_body_comps_bounds(p, body_start(p), is_verbatim(p));
    let cs = components(p);
    let body = body_comps(p, body_start(p), is_verbatim(p));
    let head = cs.len() - body.len();
    assert forall|k: int| 0 <= k < cs.len() implies (#[trigger] cs[k]).start <= cs.last().end by {
        if body.len() > 0 {
            assert(cs.last() == body.last());
            if k >= head {
                assert(cs[k] == body[k - head]);
                if k < cs.len() - 1 {
                    assert(body[k - head].end <= body[body.len() - 1].start);
                }
            } else {
                assert(cs[k].start <= prefix_len(p));
                assert(body.last().start >= body_start(p));
            }
        }
    }
}

/// A normal component of the body spans at least one character.
pub proof fn lemma_body_normal_nonempty(p: Seq<char>, i: int, verbatim: bool)
    requires
        p.len() <= usize::MAX,
    ensures
        forall|k: int| 0 <= k < body_comps(p, i, verbatim).len() ==> (#[trigger] body_comps(p, i, verbatim)[k]).start
            < body_comps(p, i, verbatim)[k].end,
    decreases p.len() - i,
{
    if i < p.len() && i >= 0 {
        lemma_next_sep_bounds(p, i, verbatim);
        let j = next_sep(p, i, verbatim);
        let head = match piece_kind(p, i, j, verbatim) {
            Some(k) => seq![mk_comp(k, i, j)],
            None => Seq::<Comp>::empty(),
        };
        if j < p.len() {
            lemma_body_normal_nonempty(p, j + 1, verbatim);
            let rest = body_comps(p, j + 1, verbatim);
            assert(body_comps(p, i, verbatim) == head + rest);
            assert forall|k: int| 0 <= k < body_comps(p, i, verbatim).len() implies (#[trigger] body_comps(p, i, verbatim)[k]).start
                < body_comps(p, i, verbatim)[k].end by {
                if k >= head.len() {
                    assert(body_comps(p, i, verbatim)[k] == rest[k - head.len()]);
                }
            }
        }
    }
}

/// Every normal component of a path spans at least one character.
#[verifier::spinoff_prover]
#[verifier::rlimit(40)]
pub proof fn lemma_normal_comps_nonempty(p: Seq<char>)
    requires
        p.len() <= usize::MAX,
    ensures
        forall|k: int| 0 <= k < components(p).len() && (#[trigger] components(p)[k]).kind == CompKind::Normal ==>
            components(p)[k].start < components(p)[k].end,
{
    lemma_body_normal_nonempty(p, body_start(p), is_verbatim(p));
    let cs = components(p);
    let body = body_comps(p, body_start(p), is_verbatim(p));
    let head = cs.len() - body.len();
    assert forall|k: int| 0 <= k < cs.len() && (#[trigger] cs[k]).kind == CompKind::Normal implies cs[k].start < cs[k].end by {
        if k >= head {
            assert(cs[k] == body[k - head]);
        }
    }
}

/// When the last component is a name, no component starts after it.
#[verifier::spinoff_prover]
#[verifier::rlimit(40)]
pub proof fn lemma_starts_before_last(p: Seq<char>, k: int)
    requires
        p.len() <= usize::MAX,
        0 <= k < components(p).len(),
        components(p).last().kind == CompKind::Normal,
    ensures
        components(p)[k].start <= components(p).last().start,
{
    lemma_components_bounds(p);
    lemma_prefix_bounds(p);
    lemma_body_comps_ordered(p, body_start(p), is_verbatim(p));
    lemma_body_comps_bounds(p, body_start(p), is_verbatim(p));
    let cs = components(p);
    let body = body_comps(p, body_start(p), is_verbatim(p));
    let head = cs.len() - body.len();
    if body.len() == 0 {
        assert(cs.last().kind != CompKind::Normal);
    } else {
        assert(cs.last() == body.last());
        if k >= head {
            assert(cs[k] == body[k - head]);
            if k < cs.len() - 1 {
                assert(body[k - head].end <= body[body.len() - 1].start);
            }
        } else {
            assert(cs[k].start <= prefix_len(p));
            assert(body.last().start >= body_start(p));
        }
    }
}

pub open spec fn is_body_comp(p: Seq<char>, c: Comp) -> bool {
    c.start >= body_start(p) && (c.kind == CompKind::Normal || c.kind == CompKind::CurDir || c.kind == CompKind::ParentDir)
}

/// The parent of `p` (`Path::parent`): the path up to the end of the
/// component before the last, or `None` when the path ends in a prefix or a root.
pub open spec fn parent_spec(p: Seq<char>) -> Option<Seq<char>> {
    let cs = components(p);
    if cs.len() == 0 {
        None
    } else {
        let last = cs.last();
        if is_body_comp(p, last) {
            if cs.len() >= 2 && is_body_comp(p, cs[cs.len() - 2]) {
                Some(p.take(cs[cs.len() - 2].end as int))
            } else {
                Some(p.take(body_start(p)))
            }
        } else if last.kind == CompKind::CurDir {
            Some(p.take(prefix_len(p)))
        } else {
            None
        }
    }
}

/// The last component of `p` when it is a normal one (`Path::file_name`).
pub open spec fn file_name_spec(p: Seq<char>) -> Option<Seq<char>> {
    let cs = components(p);
    if cs.len() > 0 && cs.last().kind == CompKind::Normal {
        Some(comp_text(p, cs.last()))
    } else {
        None
    }
}

/// Index of the last `.` in `s` before position `i`, or -1.
pub open spec fn last_dot_before(s: Seq<char>, i: int) -> int
    decreases i,
{
    if i <= 0 {
        -1
    } else if s[i - 1] == '.' {
        i - 1
    } else {
        last_dot_before(s, i - 1)
    }
}

pub open spec fn last_dot(s: Seq<char>) -> int {
    last_dot_before(s, s.len() as int)
}

/// The last dot before `i`: no dot stands after it, and without one there is
/// no dot at all.
pub proof fn lemma_last_dot_before(s: Seq<char>, i: int)
    requires
        i <= s.len(),
    ensures
        -1 <= last_dot_before(s, i) < i || (i <= 0 && last_dot_before(s, i) == -1),
        last_dot_before(s, i) >= 0 ==> s[last_dot_before(s, i)] == '.',
        forall|j: int| last_dot_before(s, i) < j < i && 0 <= j ==> s[j] != '.',
    decreases i,
{
    if i > 0 && s[i - 1] != '.' {
        lemma_last_dot_before(s, i - 1);
    }
}

/// The file name without its extension; a name whose only dot leads keeps it.
pub open spec fn stem_of(name: Seq<char>) -> Seq<char> {
    if last_dot(name) <= 0 {
        name
    } else {
        name.take(last_dot(name))
    }
}

/// The text after the last dot of a file name, when that dot does not lead.
pub open spec fn extension_of(name: Seq<char>) -> Option<Seq<char>> {
    if last_dot(name) <= 0 {
        None
    } else {
        Some(name.skip(last_dot(name) + 1))
    }
}

pub open spec fn file_stem_spec(p: Seq<char>) -> Option<Seq<char>> {
    match file_name_spec(p) {
        Some(n) => Some(stem_of(n)),
        None => None,
    }
}

pub open spec fn extension_spec(p: Seq<char>) -> Option<Seq<char>> {
    match file_name_spec(p) {
        Some(n) => extension_of(n),
        None => None,
    }
}

/// Whether pushing onto `base` puts a `\` in between (not after a separator,
/// not after a bare drive such as `C:`).
pub open spec fn need_sep(base: Seq<char>) -> bool {
    &&& base.len() > 0
    &&& !is_sep(base.last())
    &&& !(parse_prefix(base) matches Some(s) && s.kind == PrefixKind::Disk && s.len == base.len())
}

/// A component of a verbatim join, taken from the base or from the pushed path.
#[derive(Clone, Copy, Debug)]
pub struct Piece {
    pub kind: CompKind,
    pub in_base: bool,
    pub start: usize,
    pub end: usize,
}

pub open spec fn piece_text(base: Seq<char>, path: Seq<char>, pc: Piece) -> Seq<char> {
    match pc.kind {
        CompKind::RootDir => seq!['\\'],
        CompKind::CurDir => seq!['.'],
        CompKind::ParentDir => seq!['.', '.'],
        _ => (if pc.in_base { base } else { path }).subrange(pc.start as int, pc.end as int),
    }
}

pub open spec fn to_pieces(cs: Seq<Comp>, in_base: bool) -> Seq<Piece> {
    cs.map_values(|c: Comp| Piece { kind: c.kind, in_base, start: c.start, end: c.end })
}

/// One step of pushing a component onto a verbatim path: a root keeps only
/// the prefix, `.` is dropped, `..` removes a trailing normal component.
pub open spec fn verbatim_step(buf: Seq<Piece>, c: Piece) -> Seq<Piece> {
    match c.kind {
        CompKind::RootDir => (if buf.len() > 0 { buf.take(1) } else { buf }).push(c),
        CompKind::CurDir => buf,
        CompKind::ParentDir => if buf.len() > 0 && buf.last().kind == CompKind::Normal {
            buf.drop_last()
        } else {
            buf
        },
        _ => buf.push(c),
    }
}

pub open spec fn verbatim_steps(buf: Seq<Piece>, cs: Seq<Piece>) -> Seq<Piece>
    decreases cs.len(),
{
    if cs.len() == 0 {
        buf
    } else {
        verbatim_step(verbatim_steps(buf, cs.drop_last()), cs.last())
    }
}

/// The components written out, `\` between them except around a root.
pub open spec fn render(base: Seq<char>, path: Seq<char>, buf: Seq<Piece>) -> Seq<char>
    decreases buf.len(),
{
    if buf.len() == 0 {
        Seq::<char>::empty()
    } else {
        let prev = render(base, path, buf.drop_last());
        let c = buf.last();
        let sep = buf.len() >= 2 && buf[buf.len() - 2].kind != CompKind::RootDir && c.kind != CompKind::RootDir;
        (if sep { prev.push('\\') } else { prev }) + piece_text(base, path, c)
    }
}

pub open spec fn verbatim_join(base: Seq<char>, path: Seq<char>) -> Seq<char> {
    render(base, path, verbatim_steps(to_pieces(components(base), true), to_pieces(components(path), false)))
}

/// `base.join(path)` as Windows does it (`PathBuf::push`).
pub open spec fn join_spec(base: Seq<char>, path: Seq<char>) -> Seq<char> {
    if has_prefix(path) {
        path
    } else if is_verbatim(base) && path.len() > 0 {
        verbatim_join(base, path)
    } else if has_root(path) {
        base.take(prefix_len(base)) + path
    } else if need_sep(base) {
        base.push('\\') + path
    } else {
        base + path
    }
}

/// The normal components left after resolving `.` and `..` from left to
/// right (`..` at the top stays at the top); a name left empty is dropped.
pub open spec fn name_stack(cs: Seq<Comp>) -> Seq<Comp>
    decreases cs.len(),
{
    if cs.len() == 0 {
        Seq::<Comp>::empty()
    } else {
        let r = name_stack(cs.drop_last());
        let c = cs.last();
        if c.kind == CompKind::Normal {
            if c.start < c.end { r.push(c) } else { r }
        } else if c.kind == CompKind::ParentDir {
            if r.len() > 0 { r.drop_last() } else { r }
        } else {
            r
        }
    }
}

/// The texts of `st` joined by `\`.
pub open spec fn render_names(p: Seq<char>, st: Seq<Comp>) -> Seq<char>
    decreases st.len(),
{
    if st.len() == 0 {
        Seq::<char>::empty()
    } else if st.len() == 1 {
        comp_text(p, st[0])
    } else {
        render_names(p, st.drop_last()).push('\\') + comp_text(p, st.last())
    }
}

pub open spec fn backslashed(c: char) -> char {
    if c == '/' { '\\' } else { c }
}

/// The end of `p[start..end]` once its trailing `.` and ` ` are removed.
pub open spec fn trailing_trim(p: Seq<char>, start: int, end: int) -> int
    decreases end - start,
{
    if end > start && (p[end - 1] == '.' || p[end - 1] == ' ') {
        trailing_trim(p, start, end - 1)
    } else {
        end
    }
}

/// Whether the path ends with a separator.
pub open spec fn ends_with_sep(p: Seq<char>) -> bool {
    p.len() > 0 && is_sep(p.last())
}

/// The trimming `GetFullPathNameW` applies to a name: the last component of
/// a path that does not end with a separator loses its trailing `.` and ` `;
/// any other name loses a single trailing `.`.
pub open spec fn trim_comp(p: Seq<char>, c: Comp, last: bool) -> Comp {
    if c.kind != CompKind::Normal {
        c
    } else if last {
        Comp { kind: c.kind, start: c.start, end: trailing_trim(p, c.start as int, c.end as int) as usize }
    } else if c.end > c.start && p[c.end - 1] == '.' {
        Comp { kind: c.kind, start: c.start, end: (c.end - 1) as usize }
    } else {
        c
    }
}

/// The components of `p`, their names trimmed.
pub open spec fn trimmed_comps(p: Seq<char>) -> Seq<Comp> {
    let cs = components(p);
    Seq::new(cs.len(), |i: int| trim_comp(p, cs[i], i == cs.len() - 1 && !ends_with_sep(p)))
}

/// A path in full form: its prefix with `\` separators, a root, and the
/// names, trimmed as [`trim_comp`] says, with `.` and `..` resolved, joined
/// by `\`.
pub open spec fn lexical_full(p: Seq<char>) -> Seq<char> {
    let st = name_stack(trimmed_comps(p));
    let pre = p.take(prefix_len(p)).map_values(|c: char| backslashed(c));
    let root = has_physical_root(p) || (has_implicit_root(p) && st.len() > 0);
    (if root { pre.push('\\') } else { pre }) + render_names(p, st)
}

pub open spec fn has_nul(p: Seq<char>) -> bool {
    exists|i: int| 0 <= i < p.len() && p[i] == '\0'
}

/// The full form of a path on its own: empty paths and paths holding NUL are
/// refused, verbatim paths are kept as they are, every other path is brought
/// to full form.
pub open spec fn absolute_spec(p: Seq<char>) -> Result<Seq<char>, crate::error::ErrorView> {
    if p.len() == 0 {
        Err(crate::error::ErrorView::Io("cannot make an empty path absolute"@))
    } else if has_nul(p) {
        Err(crate::error::ErrorView::Io("strings passed to WinAPI cannot contain NULs"@))
    } else if is_verbatim(p) {
        Ok(p)
    } else {
        Ok(lexical_full(p))
    }
}

/// Both paths start with the same drive letter (`C:`), in any case.
pub open spec fn same_drive(cwd: Seq<char>, p: Seq<char>) -> bool {
    parse_prefix(cwd) matches Some(a) && parse_prefix(p) matches Some(b) && a.kind == PrefixKind::Disk && b.kind
        == PrefixKind::Disk && upper_drive(cwd[a.a_start as int]) == upper_drive(p[b.a_start as int])
}

/// Where a path that is not absolute lands against the current directory
/// `cwd`: a relative path is joined to it; a root without a drive takes the
/// drive (prefix) of `cwd`; a drive without a root is joined to `cwd` when
/// `cwd` is on that drive, and is taken from the drive's root otherwise.
pub open spec fn anchored(cwd: Seq<char>, p: Seq<char>) -> Seq<char> {
    if !has_prefix(p) {
        if has_physical_root(p) {
            cwd.take(prefix_len(cwd)) + p
        } else {
            join_spec(cwd, p)
        }
    } else if has_root(p) {
        p
    } else if same_drive(cwd, p) {
        join_spec(cwd, p.skip(prefix_len(p)))
    } else {
        p.take(prefix_len(p)) + seq!['\\'] + p.skip(prefix_len(p))
    }
}

/// `std::path::absolute` on Windows (`GetFullPathNameW`) with `cwd` as the
/// current directory: an absolute path is brought to full form on its own;
/// any other non-empty path without NUL is first placed against `cwd`.
pub open spec fn full_path_spec(cwd: Seq<char>, p: Seq<char>) -> Result<Seq<char>, crate::error::ErrorView> {
    if p.len() > 0 && !has_nul(p) && !is_absolute(p) {
        absolute_spec(anchored(cwd, p))
    } else {
        absolute_spec(p)
    }
}

pub open spec fn upper_drive(c: char) -> char {
    crate::text::ascii_upper(c)
}

/// Prefixes compare by what they name: drive letters without case, servers,
/// shares and device names exactly.
pub open spec fn prefix_eq(a: Seq<char>, pa: PrefixSpan, b: Seq<char>, pb: PrefixSpan) -> bool {
    &&& pa.kind == pb.kind
    &&& if pa.kind == PrefixKind::Disk || pa.kind == PrefixKind::VerbatimDisk {
        upper_drive(a[pa.a_start as int]) == upper_drive(b[pb.a_start as int])
    } else if pa.kind == PrefixKind::Verbatim || pa.kind == PrefixKind::DeviceNS {
        a.subrange(pa.a_start as int, pa.a_end as int) == b.subrange(pb.a_start as int, pb.a_end as int)
    } else {
        &&& a.subrange(pa.a_start as int, pa.a_end as int) == b.subrange(pb.a_start as int, pb.a_end as int)
        &&& a.subrange(pa.b_start as int, pa.b_end as int) == b.subrange(pb.b_start as int, pb.b_end as int)
    }
}

pub open spec fn comp_eq(a: Seq<char>, x: Comp, b: Seq<char>, y: Comp) -> bool {
    &&& x.kind == y.kind
    &&& x.kind == CompKind::Prefix ==> (parse_prefix(a) matches Some(pa) && parse_prefix(b) matches Some(pb) && prefix_eq(a, pa, b, pb))
    &&& x.kind == CompKind::Normal ==> comp_text(a, x) == comp_text(b, y)
}

/// `Path::starts_with`: the components of `base` begin the components of `p`.
pub open spec fn starts_with_spec(p: Seq<char>, base: Seq<char>) -> bool {
    let ca = components(p);
    let cb = components(base);
    &&& cb.len() <= ca.len()
    &&& forall|i: int| 0 <= i < cb.len() ==> comp_eq(p, #[trigger] ca[i], base, cb[i])
}

// ---------------------------------------------------------------------------
// Executable parsing

pub fn next_sep_exec(p: &Vec<char>, i: usize, verbatim: bool) -> (j: usize)
    requires
        i <= p.len(),
    ensures
        j == next_sep(p@, i as int, verbatim),
        i <= j <= p.len(),
{
    proof { lemma_next_sep_bounds(p@, i as int, verbatim); }
    let mut j = i;
    while j < p.len() && !(p[j] == '\\' || (!verbatim && p[j] == '/'))
        invariant
            i <= j <= p.len(),
            next_sep(p@, j as int, verbatim) == next_sep(p@, i as int, verbatim),
        decreases p.len() - j,
    {
        j = j + 1;
    }
    j
}

fn is_sep_exec(c: char) -> (b: bool)
    ensures
        b == is_sep(c),
{
    c == '/' || c == '\\'
}

fn is_ascii_alpha_exec(c: char) -> (b: bool)
    ensures
        b == is_ascii_alpha(c),
{
    ('a' <= c && c <= 'z') || ('A' <= c && c <= 'Z')
}

/// The prefix of `p`.
pub fn parse_prefix_exec(p: &Vec<char>) -> (r: Option<PrefixSpan>)
    ensures
        r == parse_prefix(p@),
        r matches Some(s) ==> 0 < s.len <= p.len(),
{
    let n = p.len();
    if n >= 2 && is_sep_exec(p[0]) && is_sep_exec(p[1]) {
        if n >= 4 && p[0] == '\\' && p[1] == '\\' && p[2] == '?' && p[3] == '\\' {
            if n >= 8 && p[4] == 'U' && p[5] == 'N' && p[6] == 'C' && is_sep_exec(p[7]) {
                let s_end = next_sep_exec(p, 8, true);
                if s_end < n {
                    let sh_end = next_sep_exec(p, s_end + 1, true);
                    if sh_end > s_end + 1 {
                        Some(PrefixSpan { kind: PrefixKind::VerbatimUNC, len: sh_end, a_start: 8, a_end: s_end, b_start: s_end + 1, b_end: sh_end })
                    } else {
                        Some(PrefixSpan { kind: PrefixKind::VerbatimUNC, len: s_end, a_start: 8, a_end: s_end, b_start: s_end + 1, b_end: s_end + 1 })
                    }
                } else {
                    Some(PrefixSpan { kind: PrefixKind::VerbatimUNC, len: s_end, a_start: 8, a_end: s_end, b_start: s_end, b_end: s_end })
                }
            } else if n >= 6 && is_ascii_alpha_exec(p[4]) && p[5] == ':' && (n == 6 || is_sep_exec(p[6])) {
                Some(PrefixSpan { kind: PrefixKind::VerbatimDisk, len: 6, a_start: 4, a_end: 5, b_start: 6, b_end: 6 })
            } else {
                let e = next_sep_exec(p, 4, true);
                Some(PrefixSpan { kind: PrefixKind::Verbatim, len: e, a_start: 4, a_end: e, b_start: e, b_end: e })
            }
        } else if n >= 4 && p[2] == '.' && is_sep_exec(p[3]) {
            let e = next_sep_exec(p, 4, false);
            Some(PrefixSpan { kind: PrefixKind::DeviceNS, len: e, a_start: 4, a_end: e, b_start: e, b_end: e })
        } else {
            let s_end = next_sep_exec(p, 2, false);
            if s_end < n {
                let sh_end = next_sep_exec(p, s_end + 1, false);
                if s_end > 2 && sh_end > s_end + 1 {
                    Some(PrefixSpan { kind: PrefixKind::UNC, len: sh_end, a_start: 2, a_end: s_end, b_start: s_end + 1, b_end: sh_end })
                } else {
                    None
                }
            } else {
                None
            }
        }
    } else if n >= 2 && is_ascii_alpha_exec(p[0]) && p[1] == ':' {
        Some(PrefixSpan { kind: PrefixKind::Disk, len: 2, a_start: 0, a_end: 1, b_start: 2, b_end: 2 })
    } else {
        None
    }
}


fn piece_kind_exec(p: &Vec<char>, i: usize, j: usize, verbatim: bool) -> (r: Option<CompKind>)
    requires
        i <= j <= p.len(),
    ensures
        r == piece_kind(p@, i as int, j as int, verbatim),
{
    if j == i {
        None
    } else if j - i == 1 && p[i] == '.' {
        if verbatim {
            Some(CompKind::CurDir)
        } else {
            None
        }
    } else if j - i == 2 && p[i] == '.' && p[i + 1] == '.' {
        Some(CompKind::ParentDir)
    } else {
        Some(CompKind::Normal)
    }
}

fn body_components(p: &Vec<char>, start: usize, verbatim: bool) -> (r: Vec<Comp>)
    requires
        start <= p.len(),
    ensures
        r@ == body_comps(p@, start as int, verbatim),
{
    let mut r: Vec<Comp> = Vec::new();
    let mut i = start;
    while i < p.len()
        invariant
            start <= i <= p.len(),
            r@ + body_comps(p@, i as int, verbatim) == body_comps(p@, start as int, verbatim),
        decreases p.len() - i,
    {
        let j = next_sep_exec(p, i, verbatim);
        let k = piece_kind_exec(p, i, j, verbatim);
        let ghost old_r = r@;
        match k {
            Some(kind) => {
                r.push(Comp { kind, start: i, end: j });
            },
            None => {},
        }
        assert(r@ == old_r + match piece_kind(p@, i as int, j as int, verbatim) {
            Some(kk) => seq![mk_comp(kk, i as int, j as int)],
            None => Seq::<Comp>::empty(),
        });
        if j < p.len() {
            i = j + 1;
        } else {
            i = p.len();
        }
        assert(r@ + body_comps(p@, i as int, verbatim) == body_comps(p@, start as int, verbatim));
    }
    assert(r@ + body_comps(p@, i as int, verbatim) == r@);
    r
}

/// What the prefix and root of a path look like.
#[derive(Clone, Copy, Debug)]
pub struct PathHead {
    pub prefix: Option<PrefixSpan>,
    pub prefix_len: usize,
    pub verbatim: bool,
    pub physical_root: bool,
    pub implicit_root: bool,
    pub cur_dir: bool,
    pub body_start: usize,
}

pub open spec fn head_matches(h: PathHead, p: Seq<char>) -> bool {
    &&& h.prefix == parse_prefix(p)
    &&& h.prefix_len == prefix_len(p)
    &&& h.verbatim == is_verbatim(p)
    &&& h.physical_root == has_physical_root(p)
    &&& h.implicit_root == has_implicit_root(p)
    &&& h.cur_dir == include_cur_dir(p)
    &&& h.body_start == body_start(p)
    &&& h.body_start <= p.len()
}

pub fn path_head(p: &Vec<char>) -> (h: PathHead)
    ensures
        head_matches(h, p@),
{
    let prefix = parse_prefix_exec(p);
    let (pl, verbatim, implicit) = match prefix {
        Some(s) => (s.len, s.kind == PrefixKind::Verbatim || s.kind == PrefixKind::VerbatimUNC || s.kind == PrefixKind::VerbatimDisk, s.kind != PrefixKind::Disk),
        None => (0, false, false),
    };
    let physical = pl < p.len() && is_sep_exec(p[pl]);
    let cur = !(physical || implicit) && pl < p.len() && p[pl] == '.' && (pl + 1 == p.len() || is_sep_exec(p[pl + 1]));
    let bs = pl + (if physical { 1 } else { 0 }) + (if cur { 1 } else { 0 });
    PathHead { prefix, prefix_len: pl, verbatim, physical_root: physical, implicit_root: implicit, cur_dir: cur, body_start: bs }
}

/// The components of `p`, in order.
pub fn components_exec(p: &Vec<char>) -> (r: Vec<Comp>)
    ensures
        r@ == components(p@),
{
    let h = path_head(p);
    let mut r: Vec<Comp> = Vec::new();
    if h.prefix.is_some() {
        r.push(Comp { kind: CompKind::Prefix, start: 0, end: h.prefix_len });
    }
    if h.physical_root || (h.implicit_root && !h.verbatim) {
        r.push(Comp { kind: CompKind::RootDir, start: h.prefix_len, end: h.prefix_len + (if h.physical_root { 1 } else { 0 }) });
    }
    if h.cur_dir {
        r.push(Comp { kind: CompKind::CurDir, start: h.prefix_len, end: h.prefix_len + 1 });
    }
    let body = body_components(p, h.body_start, h.verbatim);
    let ghost pre = r@;
    r.append(&mut body.clone());
    assert(r@ == pre + body@);
    r
}


/// `Path::parent`.
pub fn parent_exec(p: &Vec<char>) -> (r: Option<Vec<char>>)
    ensures
        match r {
            Some(v) => parent_spec(p@) == Some(v@),
            None => parent_spec(p@) is None,
        },
{
    let n = p.len();
    proof { lemma_components_bounds(p@); }
    let h = path_head(p);
    let cs = components_exec(p);
    let len = cs.len();
    if len == 0 {
        return None;
    }
    let last = cs[len - 1];
    let last_body = last.start >= h.body_start && (last.kind == CompKind::Normal || last.kind == CompKind::CurDir || last.kind == CompKind::ParentDir);
    if last_body {
        let end = if len >= 2 && cs[len - 2].start >= h.body_start && (cs[len - 2].kind == CompKind::Normal || cs[len - 2].kind == CompKind::CurDir || cs[len - 2].kind == CompKind::ParentDir) {
            cs[len - 2].end
        } else {
            h.body_start
        };
        let mut v: Vec<char> = Vec::new();
        crate::text::extend_from_range(&mut v, p, 0, end);
        assert(v@ == p@.take(end as int));
        Some(v)
    } else if last.kind == CompKind::CurDir {
        let mut v: Vec<char> = Vec::new();
        crate::text::extend_from_range(&mut v, p, 0, h.prefix_len);
        assert(v@ == p@.take(h.prefix_len as int));
        Some(v)
    } else {
        None
    }
}

/// `Path::file_name`.
pub fn file_name_exec(p: &Vec<char>) -> (r: Option<Vec<char>>)
    ensures
        match r {
            Some(v) => file_name_spec(p@) == Some(v@),
            None => file_name_spec(p@) is None,
        },
{
    let n = p.len();
    proof { lemma_components_bounds(p@); }
    let cs = components_exec(p);
    let len = cs.len();
    if len > 0 && cs[len - 1].kind == CompKind::Normal {
        let c = cs[len - 1];
        let mut v: Vec<char> = Vec::new();
        crate::text::extend_from_range(&mut v, p, c.start, c.end);
        Some(v)
    } else {
        None
    }
}

/// Index of the last `.` in `s`, when there is one.
pub fn last_dot_exec(s: &Vec<char>) -> (r: Option<usize>)
    ensures
        match r {
            Some(i) => i as int == last_dot(s@) && 0 <= i < s.len(),
            None => last_dot(s@) == -1,
        },
{
    let mut i = s.len();
    while i > 0
        invariant
            i <= s.len(),
            last_dot(s@) == last_dot_before(s@, i as int),
        decreases i,
    {
        if s[i - 1] == '.' {
            return Some(i - 1);
        }
        i = i - 1;
    }
    None
}


fn piece_text_exec(out: &mut Vec<char>, base: &Vec<char>, path: &Vec<char>, pc: Piece)
    requires
        pc.start <= pc.end <= (if pc.in_base { base@ } else { path@ }).len(),
    ensures
        final(out)@ == old(out)@ + piece_text(base@, path@, pc),
{
    match pc.kind {
        CompKind::RootDir => {
            out.push('\\');
        },
        CompKind::CurDir => {
            out.push('.');
        },
        CompKind::ParentDir => {
            out.push('.');
            out.push('.');
        },
        _ => {
            if pc.in_base {
                crate::text::extend_from_range(out, base, pc.start, pc.end);
            } else {
                crate::text::extend_from_range(out, path, pc.start, pc.end);
            }
        },
    }
    assert(seq!['.'].push('.') == seq!['.', '.']);
}

pub open spec fn pieces_fit(base: Seq<char>, path: Seq<char>, buf: Seq<Piece>) -> bool {
    forall|i: int| 0 <= i < buf.len() ==> {
        let pc = #[trigger] buf[i];
        pc.start <= pc.end <= (if pc.in_base { base } else { path }).len()
    }
}

fn verbatim_join_exec(base: &Vec<char>, path: &Vec<char>) -> (r: Vec<char>)
    ensures
        r@ == verbatim_join(base@, path@),
{
    let nb = base.len();
    let np = path.len();
    proof {
        lemma_components_bounds(base@);
        lemma_components_bounds(path@);
    }
    let bcs = components_exec(base);
    let pcs = components_exec(path);
    let mut buf: Vec<Piece> = Vec::new();
    let mut i: usize = 0;
    while i < bcs.len()
        invariant
            bcs@ == components(base@),
            i <= bcs.len(),
            buf@ == to_pieces(bcs@, true).take(i as int),
            forall|k: int| 0 <= k < bcs.len() ==> (#[trigger] bcs@[k]).start <= bcs@[k].end <= base@.len(),
        decreases bcs.len() - i,
    {
        let c = bcs[i];
        buf.push(Piece { kind: c.kind, in_base: true, start: c.start, end: c.end });
        assert(to_pieces(bcs@, true).take(i + 1) == to_pieces(bcs@, true).take(i as int).push(to_pieces(bcs@, true)[i as int]));
        i = i + 1;
    }
    assert(to_pieces(bcs@, true).take(bcs.len() as int) == to_pieces(bcs@, true));
    let ghost start_buf = buf@;
    assert(pieces_fit(base@, path@, buf@));
    let mut j: usize = 0;
    while j < pcs.len()
        invariant
            pcs@ == components(path@),
            j <= pcs.len(),
            buf@ == verbatim_steps(start_buf, to_pieces(pcs@, false).take(j as int)),
            pieces_fit(base@, path@, buf@),
            forall|k: int| 0 <= k < pcs.len() ==> (#[trigger] pcs@[k]).start <= pcs@[k].end <= path@.len(),
        decreases pcs.len() - j,
    {
        let c = pcs[j];
        let pc = Piece { kind: c.kind, in_base: false, start: c.start, end: c.end };
        let ghost before = buf@;
        assert(to_pieces(pcs@, false).take(j + 1).drop_last() == to_pieces(pcs@, false).take(j as int));
        assert(to_pieces(pcs@, false).take(j + 1).last() == pc);
        match c.kind {
            CompKind::RootDir => {
                buf.truncate(1);
                buf.push(pc);
            },
            CompKind::CurDir => {},
            CompKind::ParentDir => {
                let l = buf.len();
                if l > 0 && buf[l - 1].kind == CompKind::Normal {
                    buf.truncate(l - 1);
                    assert(buf@ == before.drop_last());
                }
            },
            _ => {
                buf.push(pc);
            },
        }
        assert(buf@ == verbatim_step(before, pc));
        j = j + 1;
    }
    assert(to_pieces(pcs@, false).take(pcs.len() as int) == to_pieces(pcs@, false));
    let mut out: Vec<char> = Vec::new();
    let mut k: usize = 0;
    while k < buf.len()
        invariant
            k <= buf.len(),
            pieces_fit(base@, path@, buf@),
            out@ == render(base@, path@, buf@.take(k as int)),
        decreases buf.len() - k,
    {
        let pc = buf[k];
        assert(buf@.take(k + 1).drop_last() == buf@.take(k as int));
        if k >= 1 && buf[k - 1].kind != CompKind::RootDir && pc.kind != CompKind::RootDir {
            out.push('\\');
        }
        piece_text_exec(&mut out, base, path, pc);
        k = k + 1;
    }
    assert(buf@.take(buf.len() as int) == buf@);
    out
}

/// `base.join(path)` on Windows.
pub fn join_exec(base: &Vec<char>, path: &Vec<char>) -> (r: Vec<char>)
    ensures
        r@ == join_spec(base@, path@),
{
    let hb = path_head(base);
    let hp = path_head(path);
    if hp.prefix.is_some() {
        return path.clone();
    }
    if hb.verbatim && path.len() > 0 {
        return verbatim_join_exec(base, path);
    }
    let mut out: Vec<char> = Vec::new();
    if hp.physical_root || hp.implicit_root {
        let nb = base.len();
        proof { lemma_prefix_bounds(base@); }
        crate::text::extend_from_range(&mut out, base, 0, hb.prefix_len);
        assert(out@ == base@.take(prefix_len(base@)));
    } else {
        crate::text::extend_from(&mut out, base);
        let l = base.len();
        let bare_drive = match hb.prefix {
            Some(s) => s.kind == PrefixKind::Disk && s.len == l,
            None => false,
        };
        if l > 0 && !is_sep_exec(base[l - 1]) && !bare_drive {
            out.push('\\');
        }
    }
    crate::text::extend_from(&mut out, path);
    out
}


/// The full form of a path on its own, as [`absolute_spec`] states it.
pub fn absolute_exec(p: &Vec<char>) -> (r: Result<Vec<char>, crate::error::Error>)
    ensures
        match r {
            Ok(v) => absolute_spec(p@) == Ok::<Seq<char>, crate::error::ErrorView>(v@),
            Err(e) => absolute_spec(p@) == Err::<Seq<char>, crate::error::ErrorView>(e@),
        },
{
    let n = p.len();
    if n == 0 {
        return Err(crate::error::Error::Io("cannot make an empty path absolute".to_owned()));
    }
    let mut i: usize = 0;
    while i < n
        invariant
            n == p.len(),
            i <= n,
            forall|k: int| 0 <= k < i ==> p@[k] != '\0',
        decreases n - i,
    {
        if p[i] == '\0' {
            return Err(crate::error::Error::Io("strings passed to WinAPI cannot contain NULs".to_owned()));
        }
        i = i + 1;
    }
    let h = path_head(p);
    if h.verbatim {
        return Ok(p.clone());
    }
    proof { lemma_components_bounds(p@); }
    let cs = components_exec(p);
    let ends_sep = is_sep_exec(p[n - 1]);
    let ghost tc = trimmed_comps(p@);
    // trim and resolve the names
    let mut st: Vec<Comp> = Vec::new();
    let mut k: usize = 0;
    while k < cs.len()
        invariant
            cs@ == components(p@),
            tc == trimmed_comps(p@),
            ends_sep == ends_with_sep(p@),
            n == p.len(),
            k <= cs.len(),
            st@ == name_stack(tc.take(k as int)),
            forall|q: int| 0 <= q < cs.len() ==> (#[trigger] cs@[q]).start <= cs@[q].end <= p@.len(),
            forall|q: int| 0 <= q < st.len() ==> (#[trigger] st@[q]).start <= st@[q].end <= p@.len(),
        decreases cs.len() - k,
    {
        let c = trim_comp_exec(p, cs[k], k + 1 == cs.len() && !ends_sep);
        assert(tc[k as int] == c);
        assert(tc.take(k + 1).drop_last() == tc.take(k as int));
        if c.kind == CompKind::Normal {
            if c.start < c.end {
                st.push(c);
            }
        } else if c.kind == CompKind::ParentDir {
            let l = st.len();
            if l > 0 {
                st.truncate(l - 1);
            }
        }
        k = k + 1;
    }
    assert(tc.take(cs.len() as int) == tc);
    // the prefix, with backslashes
    let mut out: Vec<char> = Vec::new();
    let pl = h.prefix_len;
    proof { lemma_prefix_bounds(p@); }
    let mut j: usize = 0;
    while j < pl
        invariant
            pl == prefix_len(p@),
            pl <= p.len(),
            j <= pl,
            out@ == p@.take(j as int).map_values(|c: char| backslashed(c)),
        decreases pl - j,
    {
        let c = p[j];
        out.push(if c == '/' { '\\' } else { c });
        assert(p@.take(j + 1).map_values(|c: char| backslashed(c)) =~= p@.take(j as int).map_values(|c: char| backslashed(c)).push(backslashed(p@[j as int])));
        j = j + 1;
    }
    if h.physical_root || (h.implicit_root && st.len() > 0) {
        out.push('\\');
    }
    let ghost head_part = out@;
    let mut m: usize = 0;
    while m < st.len()
        invariant
            m <= st.len(),
            forall|q: int| 0 <= q < cs.len() ==> (#[trigger] cs@[q]).start <= cs@[q].end <= p@.len(),
            st@ == name_stack(tc),
            forall|q: int| 0 <= q < st.len() ==> (#[trigger] st@[q]).start <= st@[q].end <= p@.len(),
            out@ == head_part + render_names(p@, st@.take(m as int)),
        decreases st.len() - m,
    {
        let c = st[m];
        assert(st@.take(m + 1).drop_last() == st@.take(m as int));
        if m > 0 {
            out.push('\\');
        }
        crate::text::extend_from_range(&mut out, p, c.start, c.end);
        m = m + 1;
    }
    assert(st@.take(st.len() as int) == st@);
    Ok(out)
}

fn trim_comp_exec(p: &Vec<char>, c: Comp, last: bool) -> (r: Comp)
    requires
        c.start <= c.end <= p.len(),
    ensures
        r == trim_comp(p@, c, last),
        r.start <= r.end <= c.end,
{
    if c.kind != CompKind::Normal {
        return c;
    }
    if last {
        let mut e = c.end;
        while e > c.start && (p[e - 1] == '.' || p[e - 1] == ' ')
            invariant
                c.start <= e <= c.end <= p.len(),
                trailing_trim(p@, c.start as int, c.end as int) == trailing_trim(p@, c.start as int, e as int),
            decreases e,
        {
            e = e - 1;
        }
        Comp { kind: c.kind, start: c.start, end: e }
    } else if c.end > c.start && p[c.end - 1] == '.' {
        Comp { kind: c.kind, start: c.start, end: c.end - 1 }
    } else {
        c
    }
}

fn prefix_eq_exec(a: &Vec<char>, pa: PrefixSpan, b: &Vec<char>, pb: PrefixSpan) -> (r: bool)
    requires
        parse_prefix(a@) == Some(pa),
        parse_prefix(b@) == Some(pb),
    ensures
        r == prefix_eq(a@, pa, b@, pb),
{
    let na = a.len();
    let nb = b.len();
    proof {
        lemma_prefix_bounds(a@);
        lemma_prefix_bounds(b@);
    }
    if pa.kind != pb.kind {
        return false;
    }
    if pa.kind == PrefixKind::Disk || pa.kind == PrefixKind::VerbatimDisk {
        crate::text::ascii_upper_exec(a[pa.a_start]) == crate::text::ascii_upper_exec(b[pb.a_start])
    } else if pa.kind == PrefixKind::Verbatim || pa.kind == PrefixKind::DeviceNS {
        crate::text::range_eq(a, pa.a_start, pa.a_end, b, pb.a_start, pb.a_end)
    } else {
        crate::text::range_eq(a, pa.a_start, pa.a_end, b, pb.a_start, pb.a_end)
            && crate::text::range_eq(a, pa.b_start, pa.b_end, b, pb.b_start, pb.b_end)
    }
}

/// `Path::starts_with`.
pub fn starts_with_exec(p: &Vec<char>, base: &Vec<char>) -> (r: bool)
    ensures
        r == starts_with_spec(p@, base@),
{
    let np = p.len();
    let nb = base.len();
    proof {
        lemma_components_bounds(p@);
        lemma_components_bounds(base@);
    }
    let ca = components_exec(p);
    let cb = components_exec(base);
    if cb.len() > ca.len() {
        return false;
    }
    let mut i: usize = 0;
    while i < cb.len()
        invariant
            ca@ == components(p@),
            cb@ == components(base@),
            cb.len() <= ca.len(),
            i <= cb.len(),
            forall|q: int| 0 <= q < ca.len() ==> (#[trigger] ca@[q]).start <= ca@[q].end <= p@.len(),
            forall|q: int| 0 <= q < cb.len() ==> (#[trigger] cb@[q]).start <= cb@[q].end <= base@.len(),
            forall|q: int| 0 <= q < i ==> comp_eq(p@, #[trigger] ca@[q], base@, cb@[q]),
        decreases cb.len() - i,
    {
        let x = ca[i];
        let y = cb[i];
        let same = if x.kind != y.kind {
            false
        } else if x.kind == CompKind::Prefix {
            let pa = parse_prefix_exec(p);
            let pb = parse_prefix_exec(base);
            match (pa, pb) {
                (Some(sa), Some(sb)) => prefix_eq_exec(p, sa, base, sb),
                _ => false,
            }
        } else if x.kind == CompKind::Normal {
            crate::text::range_eq(p, x.start, x.end, base, y.start, y.end)
        } else {
            true
        };
        if !same {
            assert(!comp_eq(p@, ca@[i as int], base@, cb@[i as int]));
            return false;
        }
        i = i + 1;
    }
    true
}

fn has_nul_exec(p: &Vec<char>) -> (b: bool)
    ensures
        b == has_nul(p@),
{
    let mut i: usize = 0;
    while i < p.len()
        invariant
            i <= p.len(),
            forall|k: int| 0 <= k < i ==> p@[k] != '\0',
        decreases p.len() - i,
    {
        if p[i] == '\0' {
            return true;
        }
        i = i + 1;
    }
    false
}

fn anchored_exec(cwd: &Vec<char>, p: &Vec<char>) -> (r: Vec<char>)
    ensures
        r@ == anchored(cwd@, p@),
{
    let np = p.len();
    let nc = cwd.len();
    proof {
        lemma_prefix_bounds(p@);
        lemma_prefix_bounds(cwd@);
    }
    let hp = path_head(p);
    let hc = path_head(cwd);
    match hp.prefix {
        None => {
            if hp.physical_root {
                let mut out: Vec<char> = Vec::new();
                extend_from_range(&mut out, cwd, 0, hc.prefix_len);
                extend_from(&mut out, p);
                assert(cwd@.subrange(0, hc.prefix_len as int) == cwd@.take(prefix_len(cwd@)));
                out
            } else {
                join_exec(cwd, p)
            }
        },
        Some(sp) => {
            if hp.physical_root || hp.implicit_root {
                return p.clone();
            }
            let pl = hp.prefix_len;
            let mut rest: Vec<char> = Vec::new();
            extend_from_range(&mut rest, p, pl, np);
            assert(rest@ == p@.skip(prefix_len(p@)));
            let same = match hc.prefix {
                Some(sc) => sc.kind == PrefixKind::Disk && sp.kind == PrefixKind::Disk && crate::text::ascii_upper_exec(
                    cwd[sc.a_start],
                ) == crate::text::ascii_upper_exec(p[sp.a_start]),
                None => false,
            };
            if same {
                join_exec(cwd, &rest)
            } else {
                let mut out: Vec<char> = Vec::new();
                extend_from_range(&mut out, p, 0, pl);
                out.push('\\');
                extend_from(&mut out, &rest);
                assert(p@.subrange(0, pl as int) == p@.take(prefix_len(p@)));
                out
            }
        },
    }
}

/// [`full_path_spec`]: the full form of `p` with `cwd` as the current directory.
pub fn full_path_exec(cwd: &Vec<char>, p: &Vec<char>) -> (r: Result<Vec<char>, crate::error::Error>)
    ensures
        match r {
            Ok(v) => full_path_spec(cwd@, p@) == Ok::<Seq<char>, crate::error::ErrorView>(v@),
            Err(e) => full_path_spec(cwd@, p@) == Err::<Seq<char>, crate::error::ErrorView>(e@),
        },
{
    if p.len() == 0 || has_nul_exec(p) {
        return absolute_exec(p);
    }
    let h = path_head(p);
    if (h.physical_root || h.implicit_root) && h.prefix.is_some() {
        absolute_exec(p)
    } else {
        let a = anchored_exec(cwd, p);
        absolute_exec(&a)
    }
}

} // verus!
