//! Validation of the paths that the configuration and the manifest name.
use crate::error::{error_text, text_result, unit_result, Error, ErrorView};
use crate::text::{chars_of, concat2, to_lowercase, unicode_lowercase, extend_from_range, is_blank, is_blank_exec, join_with, string_of};
use crate::winpath::{
    absolute_spec, full_path_exec, full_path_spec, comp_text, components, components_exec, has_physical_root, has_prefix, is_absolute,
    join_exec, join_spec, lemma_components_bounds, lists_root, path_head, starts_with_exec,
    starts_with_spec, Comp, CompKind,
};
use crate::web::{encode_segment, join_url, parse_url, percent_encoded, url_join_spec, url_parse_spec, UrlParts, UrlPartsView};
use vstd::prelude::*;

verus! {

pub open spec fn invalid_path(path: Seq<char>, reason: Seq<char>) -> ErrorView {
    ErrorView::ManifestInvalidPath { path, reason }
}

pub fn invalid_path_error(path: &str, reason: &str) -> (e: Error)
    ensures
        e@ == invalid_path(path@, reason@),
{
    Error::ManifestInvalidPath { path: path.to_owned(), reason: reason.to_owned() }
}

/// The texts of the normal components among `cs`, in order.
pub open spec fn normal_parts(p: Seq<char>, cs: Seq<Comp>) -> Seq<Seq<char>>
    decreases cs.len(),
{
    if cs.len() == 0 {
        Seq::<Seq<char>>::empty()
    } else {
        let rest = normal_parts(p, cs.drop_last());
        if cs.last().kind == CompKind::Normal {
            rest.push(comp_text(p, cs.last()))
        } else {
            rest
        }
    }
}

pub open spec fn has_kind(cs: Seq<Comp>, k: CompKind) -> bool {
    exists|i: int| 0 <= i < cs.len() && (#[trigger] cs[i]).kind == k
}

/// `normalize_slashes`: a relative path without prefix, root or `..`,
/// rewritten as its normal components joined by `/`. A root without a drive
/// (`\Windows`) counts as absolute.
pub open spec fn normalize_spec(p: Seq<char>) -> Result<Seq<char>, ErrorView> {
    if is_absolute(p) {
        Err(invalid_path(p, "absolute path"@))
    } else if has_prefix(p) {
        Err(invalid_path(p, "prefix component not allowed"@))
    } else if has_physical_root(p) {
        Err(invalid_path(p, "absolute path"@))
    } else if has_kind(components(p), CompKind::ParentDir) {
        Err(invalid_path(p, "path traversal"@))
    } else {
        Ok(join_with(normal_parts(p, components(p)), '/'))
    }
}

/// Normalize a path to forward slashes, preserving Unicode and spaces.
/// Returns an error for absolute paths (a backslash-only rooted path among
/// them), for a drive prefix, or for any `..` component.
pub fn normalize_slashes(path: &str) -> (r: Result<String, Error>)
    ensures
        text_result(r) == normalize_spec(path@),
{
    let p = chars_of(path);
    let h = path_head(&p);
    if (h.physical_root || h.implicit_root) && h.prefix.is_some() {
        return Err(invalid_path_error(path, "absolute path"));
    }
    if h.prefix.is_some() {
        return Err(invalid_path_error(path, "prefix component not allowed"));
    }
    if h.physical_root {
        return Err(invalid_path_error(path, "absolute path"));
    }
    let cs = components_exec(&p);
    let mut out: Vec<char> = Vec::new();
    let mut k: usize = 0;
    let mut any = false;
    let n = p.len();
    proof { lemma_components_bounds(p@); }
    while k < cs.len()
        invariant
            p@ == path@,
            !has_prefix(p@),
            !has_physical_root(p@),
            cs@ == components(p@),
            k <= cs.len(),
            forall|i: int| 0 <= i < k ==> (#[trigger] cs@[i]).kind != CompKind::ParentDir,
            out@ == join_with(normal_parts(p@, cs@.take(k as int)), '/'),
            any == (normal_parts(p@, cs@.take(k as int)).len() > 0),
            forall|i: int| 0 <= i < cs.len() ==> (#[trigger] cs@[i]).start <= cs@[i].end <= p.len(),
        decreases cs.len() - k,
    {
        let c = cs[k];
        assert(cs@.take(k + 1).drop_last() == cs@.take(k as int));
        if c.kind == CompKind::ParentDir {
            assert(cs@[k as int].kind == CompKind::ParentDir);
            return Err(invalid_path_error(path, "path traversal"));
        }
        let ghost rest = normal_parts(p@, cs@.take(k as int));
        if c.kind == CompKind::Normal {
            let ghost t = comp_text(p@, c);
            assert(rest.push(t).drop_last() == rest);
            if any {
                out.push('/');
            }
            extend_from_range(&mut out, &p, c.start, c.end);
            any = true;
            assert(normal_parts(p@, cs@.take(k + 1)) == rest.push(t));
        }
        k = k + 1;
    }
    assert(cs@.take(cs.len() as int) == cs@);
    Ok(string_of(&out))
}


/// `check_path_for_traversal`: a prefix or a root is refused as absolute,
/// then any `..` as traversal.
pub open spec fn traversal_spec(p: Seq<char>) -> Result<(), ErrorView> {
    if has_prefix(p) || lists_root(p) {
        Err(invalid_path(p, "absolute path"@))
    } else if has_kind(components(p), CompKind::ParentDir) {
        Err(invalid_path(p, "path traversal"@))
    } else {
        Ok(())
    }
}

pub fn check_path_for_traversal(path: &str) -> (r: Result<(), Error>)
    ensures
        unit_result(r) == traversal_spec(path@),
{
    let p = chars_of(path);
    let h = path_head(&p);
    if h.prefix.is_some() || h.physical_root || (h.implicit_root && !h.verbatim) {
        return Err(invalid_path_error(path, "absolute path"));
    }
    let cs = components_exec(&p);
    let mut k: usize = 0;
    while k < cs.len()
        invariant
            p@ == path@,
            !has_prefix(p@),
            !lists_root(p@),
            cs@ == components(p@),
            k <= cs.len(),
            forall|i: int| 0 <= i < k ==> (#[trigger] cs@[i]).kind != CompKind::ParentDir,
        decreases cs.len() - k,
    {
        if cs[k].kind == CompKind::ParentDir {
            assert(cs@[k as int].kind == CompKind::ParentDir);
            return Err(invalid_path_error(path, "path traversal"));
        }
        k = k + 1;
    }
    Ok(())
}

/// `canonicalize_within_base`: both paths in full form, a path that is not
/// absolute placed against the current directory `cwd`; the target must lie
/// inside the base.
pub open spec fn canonicalize_spec(base: Seq<char>, target: Seq<char>, cwd: Seq<char>) -> Result<Seq<char>, ErrorView> {
    match full_path_spec(cwd, base) {
        Err(e) => Err(e),
        Ok(b) => match full_path_spec(cwd, target) {
            Err(e) => Err(e),
            Ok(t) => if starts_with_spec(t, b) {
                Ok(t)
            } else {
                Err(invalid_path(target, "path escapes launcher directory"@))
            },
        },
    }
}

/// Validate that a target stays inside base; `cwd` is the current directory,
/// against which paths that are not absolute are placed.
pub fn canonicalize_within_base(base: &str, target: &str, cwd: &str) -> (r: Result<String, Error>)
    ensures
        text_result(r) == canonicalize_spec(base@, target@, cwd@),
{
    let b = chars_of(base);
    let t = chars_of(target);
    let c = chars_of(cwd);
    let base_abs = match full_path_exec(&c, &b) {
        Ok(v) => v,
        Err(e) => return Err(e),
    };
    let target_abs = match full_path_exec(&c, &t) {
        Ok(v) => v,
        Err(e) => return Err(e),
    };
    if !starts_with_exec(&target_abs, &base_abs) {
        return Err(invalid_path_error(target, "path escapes launcher directory"));
    }
    Ok(string_of(&target_abs))
}

/// `resolve_relative`: normalize the relative path, refuse traversal, join it
/// to the base and keep the result inside the base.
pub open spec fn resolve_spec(base: Seq<char>, rel: Seq<char>, cwd: Seq<char>) -> Result<Seq<char>, ErrorView> {
    match normalize_spec(rel) {
        Err(e) => Err(e),
        Ok(n) => match traversal_spec(n) {
            Err(e) => Err(e),
            Ok(_) => canonicalize_spec(base, join_spec(base, n), cwd),
        },
    }
}

/// Resolve a manifest/alias path relative to a base directory.
/// Rejects absolute paths and paths that escape the base directory. `cwd` is
/// the current directory, which places a base that is not absolute.
pub fn resolve_relative(base: &str, rel: &str, cwd: &str) -> (r: Result<String, Error>)
    ensures
        text_result(r) == resolve_spec(base@, rel@, cwd@),
{
    let n = match normalize_slashes(rel) {
        Ok(n) => n,
        Err(e) => return Err(e),
    };
    match check_path_for_traversal(n.as_str()) {
        Ok(()) => {},
        Err(e) => return Err(e),
    }
    let b = chars_of(base);
    let nv = chars_of(n.as_str());
    let joined = join_exec(&b, &nv);
    let js = string_of(&joined);
    canonicalize_within_base(base, js.as_str(), cwd)
}

/// A path that `resolve_relative` accepts is a relative path without `..`,
/// and what it resolves to lies inside the base directory in its full form;
/// the current directory plays no part when the base is absolute.
pub proof fn law_resolved_inside_base(base: Seq<char>, rel: Seq<char>, cwd: Seq<char>)
    requires
        resolve_spec(base, rel, cwd) is Ok,
    ensures
        normalize_spec(rel) is Ok,
        !is_absolute(rel),
        !has_kind(components(rel), CompKind::ParentDir),
        full_path_spec(cwd, base) is Ok,
        starts_with_spec(resolve_spec(base, rel, cwd)->Ok_0, full_path_spec(cwd, base)->Ok_0),
        is_absolute(base) ==> full_path_spec(cwd, base) == absolute_spec(base),
{
}

/// `validate_alias_target`: the alias must not be blank; the target must be
/// a relative path that [`normalize_slashes`] accepts.
pub open spec fn alias_target_spec(alias: Seq<char>, target: Seq<char>) -> Result<(), ErrorView> {
    if is_blank(alias) {
        Err(ErrorView::InvalidAliasTarget { alias, reason: "alias is empty"@ })
    } else if is_absolute(target) {
        Err(ErrorView::InvalidAliasTarget { alias, reason: "absolute path"@ })
    } else {
        match normalize_spec(target) {
            Err(e) => Err(ErrorView::InvalidAliasTarget { alias, reason: error_text(e) }),
            Ok(_) => Ok(()),
        }
    }
}

/// A relative path is normalized exactly when it has no drive prefix, no
/// root and no `..` component; its normal components are then kept, in
/// order, joined by `/`.
pub proof fn law_normalize_accepts_plain_relative(p: Seq<char>)
    ensures
        (normalize_spec(p) is Ok) <==> (!has_prefix(p) && !has_physical_root(p) && !has_kind(components(p), CompKind::ParentDir)),
        normalize_spec(p) is Ok ==> normalize_spec(p) == Ok::<Seq<char>, ErrorView>(join_with(normal_parts(p, components(p)), '/')),
{
}

/// An alias target is accepted exactly when the alias is not blank and the
/// target is a relative path that `normalize_slashes` accepts: no drive, no
/// root, no `..`; subdirectories are fine.
pub proof fn law_alias_target_accepts_relative(alias: Seq<char>, target: Seq<char>)
    ensures
        (alias_target_spec(alias, target) is Ok) <==> (!is_blank(alias) && !has_prefix(target) && !has_physical_root(target)
            && !has_kind(components(target), CompKind::ParentDir)),
{
    law_normalize_accepts_plain_relative(target);
}

/// Validate alias target from config: must be relative, point inside launcher dir.
pub fn validate_alias_target(alias: &str, target: &str) -> (r: Result<(), Error>)
    ensures
        unit_result(r) == alias_target_spec(alias@, target@),
{
    if is_blank_exec(alias) {
        return Err(Error::InvalidAliasTarget { alias: alias.to_owned(), reason: "alias is empty".to_owned() });
    }
    let t = chars_of(target);
    let h = path_head(&t);
    if (h.physical_root || h.implicit_root) && h.prefix.is_some() {
        return Err(Error::InvalidAliasTarget { alias: alias.to_owned(), reason: "absolute path".to_owned() });
    }
    match normalize_slashes(target) {
        Ok(_) => Ok(()),
        Err(e) => Err(Error::InvalidAliasTarget { alias: alias.to_owned(), reason: e.message() }),
    }
}


/// Index of the first `/` at or after `i`, or the length.
pub open spec fn next_slash(p: Seq<char>, i: int) -> int
    decreases p.len() - i,
{
    if i >= p.len() {
        p.len() as int
    } else if p[i] == '/' {
        i
    } else {
        next_slash(p, i + 1)
    }
}

pub proof fn lemma_next_slash(p: Seq<char>, i: int)
    requires
        0 <= i <= p.len(),
    ensures
        i <= next_slash(p, i) <= p.len(),
        next_slash(p, i) < p.len() ==> p[next_slash(p, i)] == '/',
    decreases p.len() - i,
{
    if i < p.len() && p[i] != '/' {
        lemma_next_slash(p, i + 1);
    }
}

/// The non-empty pieces of `p[i..]` between `/` (what `split('/')` yields, empties left out).
pub open spec fn slash_segments(p: Seq<char>, i: int) -> Seq<Seq<char>>
    decreases p.len() - i,
{
    if i >= p.len() || i < 0 {
        Seq::<Seq<char>>::empty()
    } else {
        proof {
            lemma_next_slash(p, i);
        }
        let j = next_slash(p, i);
        let head = if j > i { seq![p.subrange(i, j)] } else { Seq::<Seq<char>>::empty() };
        if j < p.len() {
            head + slash_segments(p, j + 1)
        } else {
            head
        }
    }
}

/// Joining each segment, percent-encoded and followed by `/`, to the URL in turn.
pub open spec fn join_segments(start: Result<UrlPartsView, Seq<char>>, segs: Seq<Seq<char>>) -> Result<UrlPartsView, Seq<char>>
    decreases segs.len(),
{
    if segs.len() == 0 {
        start
    } else {
        match join_segments(start, segs.drop_last()) {
            Err(m) => Err(m),
            Ok(u) => url_join_spec(u.href, percent_encoded(vstd::utf8::encode_utf8(segs.last())).push('/')),
        }
    }
}

pub open spec fn without_trailing_slash(s: Seq<char>) -> Seq<char> {
    if s.len() > 0 && s.last() == '/' {
        s.drop_last()
    } else {
        s
    }
}

/// `url_path_segment_for_data_url`: each non-empty segment of the manifest
/// path, percent-encoded, joined to the data URL; the final slash removed and
/// the result parsed again.
pub open spec fn data_url_spec(data_url: Seq<char>, manifest_path: Seq<char>) -> Result<UrlPartsView, ErrorView> {
    match url_parse_spec(data_url) {
        Err(m) => Err(ErrorView::Url(m)),
        Ok(base) => match join_segments(Ok(base), slash_segments(manifest_path, 0)) {
            Err(m) => Err(ErrorView::Url(m)),
            Ok(u) => match url_parse_spec(without_trailing_slash(u.href)) {
                Err(m) => Err(ErrorView::Url(m)),
                Ok(v) => Ok(v),
            },
        },
    }
}

pub open spec fn url_result(r: Result<UrlParts, Error>) -> Result<UrlPartsView, ErrorView> {
    match r {
        Ok(u) => Ok(u@),
        Err(e) => Err(e@),
    }
}

/// Append a manifest path to a data URL base, URL-encoding each path segment.
/// Skips trailing slash handling because the caller already supplies a base
/// URL that ends with `/`.
pub fn url_path_segment_for_data_url(data_url: &str, manifest_path: &str) -> (r: Result<UrlParts, Error>)
    ensures
        url_result(r) == data_url_spec(data_url@, manifest_path@),
{
    let base = match parse_url(data_url) {
        Ok(u) => u,
        Err(m) => return Err(Error::Url(m)),
    };
    let p = chars_of(manifest_path);
    let n = p.len();
    let ghost start: Result<UrlPartsView, Seq<char>> = Ok(base@);
    let ghost base_view = base@;
    let ghost done: Seq<Seq<char>> = Seq::empty();
    let mut result = base;
    let mut i: usize = 0;
    while i < n
        invariant
            p@ == manifest_path@,
            n == p.len(),
            i <= n,
            start == url_parse_spec(data_url@),
            start == Ok::<UrlPartsView, Seq<char>>(base_view),
            slash_segments(p@, 0) == done + slash_segments(p@, i as int),
            join_segments(start, done) == Ok::<UrlPartsView, Seq<char>>(result@),
        decreases n - i,
    {
        proof { lemma_next_slash(p@, i as int); }
        let mut j = i;
        while j < n && p[j] != '/'
            invariant
                i <= j <= n,
                n == p.len(),
                next_slash(p@, j as int) == next_slash(p@, i as int),
            decreases n - j,
        {
            j = j + 1;
        }
        if j > i {
            let mut seg: Vec<char> = Vec::new();
            extend_from_range(&mut seg, &p, i, j);
            let seg_s = string_of(&seg);
            let enc = encode_segment(seg_s.as_str());
            let rel = concat2(enc.as_str(), "/");
            proof {
                reveal_strlit("/");
            }
            assert(rel@ == percent_encoded(vstd::utf8::encode_utf8(seg@)).push('/'));
            result = match join_url(result.href.as_str(), rel.as_str()) {
                Ok(u) => u,
                Err(m) => {
                    proof {
                        assert(done.push(seg@).drop_last() == done);
                        assert(slash_segments(p@, 0) == done.push(seg@) + slash_segments(p@, if j < n { j + 1 } else { n as int }));
                        assert(join_segments(start, done.push(seg@)) == Err::<UrlPartsView, Seq<char>>(m@));
                        lemma_join_segments_err(start, done.push(seg@), slash_segments(p@, if j < n { j + 1 } else { n as int }));
                        assert(join_segments(start, slash_segments(p@, 0)) == Err::<UrlPartsView, Seq<char>>(m@));
                        assert(start == Ok::<UrlPartsView, Seq<char>>(base_view));
                    }
                    return Err(Error::Url(m));
                },
            };
            proof {
                assert(done.push(seg@).drop_last() == done);
                done = done.push(seg@);
            }
        }
        if j < n {
            i = j + 1;
        } else {
            i = n;
        }
        assert(slash_segments(p@, 0) == done + slash_segments(p@, i as int));
    }
    assert(done + slash_segments(p@, i as int) == done);
    let h = chars_of(result.href.as_str());
    let hl = h.len();
    let mut s: Vec<char> = Vec::new();
    if hl > 0 && h[hl - 1] == '/' {
        extend_from_range(&mut s, &h, 0, hl - 1);
    } else {
        extend_from_range(&mut s, &h, 0, hl);
    }
    assert(s@ == without_trailing_slash(h@));
    let ss = string_of(&s);
    match parse_url(ss.as_str()) {
        Ok(u) => Ok(u),
        Err(m) => Err(Error::Url(m)),
    }
}

/// Once joining fails, joining more segments fails with the same text.
pub proof fn lemma_join_segments_err(start: Result<UrlPartsView, Seq<char>>, done: Seq<Seq<char>>, more: Seq<Seq<char>>)
    requires
        join_segments(start, done) is Err,
    ensures
        join_segments(start, done + more) == join_segments(start, done),
    decreases more.len(),
{
    if more.len() > 0 {
        lemma_join_segments_err(start, done, more.drop_last());
        assert((done + more).drop_last() == done + more.drop_last());
    } else {
        assert(done + more == done);
    }
}


/// `Path::starts_with`: the components of `base` begin those of `path`.
pub fn path_starts_with(path: &str, base: &str) -> (r: bool)
    ensures
        r == starts_with_spec(path@, base@),
{
    let p = chars_of(path);
    let b = chars_of(base);
    starts_with_exec(&p, &b)
}

/// Whether two paths are the same once both are in lower case.
pub fn same_windows_path_case_insensitive(left: &str, right: &str) -> (r: bool)
    ensures
        r == (unicode_lowercase(left@) == unicode_lowercase(right@)),
{
    let a = to_lowercase(left);
    let b = to_lowercase(right);
    a == b
}

} // verus!
