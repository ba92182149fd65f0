//! Launching the executables that the configuration names by alias.
use crate::config::{calls_view, Config};
use crate::error::{text_result, unit_result, Error, ErrorView};
use crate::path::{has_kind, law_resolved_inside_base, resolve_relative, resolve_spec};
use crate::text::{ascii_lower_seq, chars_of, str_eq, to_ascii_lowercase};
use crate::winpath::{full_path_spec, components, extension_spec, file_name_exec, is_absolute, last_dot_exec, starts_with_spec, CompKind};
use vstd::prelude::*;

verus! {

/// The first target listed under `alias`.
pub open spec fn lookup_alias(calls: Seq<(Seq<char>, Seq<char>)>, alias: Seq<char>) -> Option<Seq<char>>
    decreases calls.len(),
{
    if calls.len() == 0 {
        None
    } else if calls[0].0 == alias {
        Some(calls[0].1)
    } else {
        lookup_alias(calls.drop_first(), alias)
    }
}

/// `resolve_alias_target`: only a configured alias resolves, to its target
/// inside the launcher directory.
pub open spec fn alias_resolution_spec(launcher_dir: Seq<char>, alias: Seq<char>, calls: Seq<(Seq<char>, Seq<char>)>, cwd: Seq<char>) -> Result<Seq<char>, ErrorView> {
    match lookup_alias(calls, alias) {
        None => Err(ErrorView::UnknownAlias { alias }),
        Some(t) => resolve_spec(launcher_dir, t, cwd),
    }
}

/// The alias found first names a listed target.
pub proof fn lemma_lookup_alias(calls: Seq<(Seq<char>, Seq<char>)>, alias: Seq<char>)
    ensures
        lookup_alias(calls, alias) matches Some(t) ==> exists|i: int| 0 <= i < calls.len() && #[trigger] calls[i] == (alias, t),
        lookup_alias(calls, alias) is None ==> forall|i: int| 0 <= i < calls.len() ==> (#[trigger] calls[i]).0 != alias,
    decreases calls.len(),
{
    if calls.len() > 0 {
        lemma_lookup_alias(calls.drop_first(), alias);
        if calls[0].0 != alias {
            if let Some(t) = lookup_alias(calls, alias) {
                let i = choose|i: int| 0 <= i < calls.len() - 1 && #[trigger] calls.drop_first()[i] == (alias, t);
                assert(calls[i + 1] == (alias, t));
            }
            assert forall|i: int| 0 <= i < calls.len() && lookup_alias(calls, alias) is None implies (#[trigger] calls[i]).0 != alias by {
                if i > 0 {
                    assert(calls[i] == calls.drop_first()[i - 1]);
                }
            }
        }
    }
}

/// Only an alias that the configuration lists can be launched; it resolves
/// to that alias's target, which is relative, holds no `..`, and lies inside
/// the launcher directory.
pub proof fn law_only_configured_aliases(launcher_dir: Seq<char>, alias: Seq<char>, calls: Seq<(Seq<char>, Seq<char>)>, cwd: Seq<char>)
    requires
        alias_resolution_spec(launcher_dir, alias, calls, cwd) is Ok,
    ensures
        exists|i: int| 0 <= i < calls.len() && (#[trigger] calls[i]).0 == alias
            && alias_resolution_spec(launcher_dir, alias, calls, cwd) == resolve_spec(launcher_dir, calls[i].1, cwd)
            && !is_absolute(calls[i].1)
            && !has_kind(components(calls[i].1), CompKind::ParentDir),
        full_path_spec(cwd, launcher_dir) is Ok,
        starts_with_spec(alias_resolution_spec(launcher_dir, alias, calls, cwd)->Ok_0, full_path_spec(cwd, launcher_dir)->Ok_0),
{
    lemma_lookup_alias(calls, alias);
    let t = lookup_alias(calls, alias)->Some_0;
    let i = choose|i: int| 0 <= i < calls.len() && #[trigger] calls[i] == (alias, t);
    law_resolved_inside_base(launcher_dir, t, cwd);
    assert(calls[i].0 == alias);
}

/// An alias that the configuration does not list is refused as unknown.
pub proof fn law_unknown_alias_refused(launcher_dir: Seq<char>, alias: Seq<char>, calls: Seq<(Seq<char>, Seq<char>)>, cwd: Seq<char>)
    requires
        forall|i: int| 0 <= i < calls.len() ==> (#[trigger] calls[i]).0 != alias,
    ensures
        alias_resolution_spec(launcher_dir, alias, calls, cwd) == Err::<Seq<char>, ErrorView>(ErrorView::UnknownAlias { alias }),
{
    lemma_lookup_alias(calls, alias);
    if lookup_alias(calls, alias) is Some {
        let t = lookup_alias(calls, alias)->Some_0;
        let i = choose|i: int| 0 <= i < calls.len() && #[trigger] calls[i] == (alias, t);
        assert(calls[i].0 == alias);
    }
}

/// Resolve and validate an alias target; `cwd` is the current directory.
pub fn resolve_alias_target(launcher_dir: &str, alias: &str, config: &Config, cwd: &str) -> (r: Result<String, Error>)
    ensures
        text_result(r) == alias_resolution_spec(launcher_dir@, alias@, calls_view(config.calls@), cwd@),
{
    let ghost cv = calls_view(config.calls@);
    let mut i: usize = 0;
    assert(cv.skip(0) == cv);
    while i < config.calls.len()
        invariant
            cv == calls_view(config.calls@),
            i <= config.calls.len(),
            lookup_alias(cv, alias@) == lookup_alias(cv.skip(i as int), alias@),
        decreases config.calls.len() - i,
    {
        let (a, t) = &config.calls[i];
        assert(cv.skip(i as int)[0] == (a@, t@));
        if str_eq(a.as_str(), alias) {
            return resolve_relative(launcher_dir, t.as_str(), cwd);
        }
        assert(cv.skip(i as int).drop_first() == cv.skip(i + 1));
        i = i + 1;
    }
    assert(cv.skip(i as int).len() == 0);
    Err(Error::UnknownAlias { alias: alias.to_owned() })
}

/// The extensions a launched target may have: `exe`, `bat`, `cmd`, `com`, in any ASCII case.
pub open spec fn executable_extension(ext: Seq<char>) -> bool {
    let l = ascii_lower_seq(ext);
    l == seq!['e', 'x', 'e'] || l == seq!['b', 'a', 't'] || l == seq!['c', 'm', 'd'] || l == seq!['c', 'o', 'm']
}

pub fn is_executable_extension(ext: &str) -> (r: bool)
    ensures
        r == executable_extension(ext@),
{
    let l = to_ascii_lowercase(ext);
    let r = l.len() == 3 && ((l[0] == 'e' && l[1] == 'x' && l[2] == 'e') || (l[0] == 'b' && l[1] == 'a' && l[2] == 't')
        || (l[0] == 'c' && l[1] == 'm' && l[2] == 'd') || (l[0] == 'c' && l[1] == 'o' && l[2] == 'm'));
    proof {
        if l.len() == 3 {
            assert(l@ == seq![l@[0], l@[1], l@[2]]);
        }
    }
    r
}

/// What the launcher decides about a resolved target before starting it:
/// it must exist, its metadata must be readable, it must not be a directory,
/// and its extension must be one of an executable.
pub open spec fn launch_check_spec(target: Seq<char>, exists: bool, is_dir: Result<bool, Seq<char>>) -> Result<(), ErrorView> {
    if !exists {
        Err(ErrorView::TargetNotFound { path: target })
    } else {
        match is_dir {
            Err(m) => Err(ErrorView::LocalFileReadFailed { path: target, reason: m }),
            Ok(true) => Err(ErrorView::TargetNotExecutable { path: target }),
            Ok(false) => if executable_extension(
                match extension_spec(target) {
                    Some(e) => e,
                    None => Seq::<char>::empty(),
                },
            ) {
                Ok(())
            } else {
                Err(ErrorView::TargetNotExecutable { path: target })
            },
        }
    }
}

/// What the launch check gives: a missing target is not found; an unreadable
/// one fails with the reason; a directory is not executable; an existing file
/// starts exactly when its extension, in ASCII lower case, is `exe`, `bat`,
/// `cmd` or `com` (so `SETUP.EXE` starts and `notes.txt` does not).
pub proof fn law_launch_check(target: Seq<char>, exists: bool, is_dir: Result<bool, Seq<char>>)
    ensures
        !exists ==> launch_check_spec(target, exists, is_dir) == Err::<(), ErrorView>(ErrorView::TargetNotFound { path: target }),
        exists && is_dir is Err ==> launch_check_spec(target, exists, is_dir) == Err::<(), ErrorView>(
            ErrorView::LocalFileReadFailed { path: target, reason: is_dir->Err_0 },
        ),
        exists && is_dir == Ok::<bool, Seq<char>>(true) ==> launch_check_spec(target, exists, is_dir) == Err::<(), ErrorView>(
            ErrorView::TargetNotExecutable { path: target },
        ),
        exists && is_dir == Ok::<bool, Seq<char>>(false) ==> ((launch_check_spec(target, exists, is_dir) is Ok) <==> (
        extension_spec(target) is Some && {
            let l = ascii_lower_seq(extension_spec(target)->Some_0);
            l == seq!['e', 'x', 'e'] || l == seq!['b', 'a', 't'] || l == seq!['c', 'm', 'd'] || l == seq!['c', 'o', 'm']
        })),
        exists && is_dir == Ok::<bool, Seq<char>>(false) && launch_check_spec(target, exists, is_dir) is Err ==> launch_check_spec(
            target,
            exists,
            is_dir,
        ) == Err::<(), ErrorView>(ErrorView::TargetNotExecutable { path: target }),
{
    assert(ascii_lower_seq(Seq::<char>::empty()).len() == 0);
}

pub open spec fn flag_result(r: Result<bool, String>) -> Result<bool, Seq<char>> {
    match r {
        Ok(b) => Ok(b),
        Err(m) => Err(m@),
    }
}

/// The checks `launch_alias` makes on what the file system says of the target.
pub fn check_launch_target(target: &str, exists: bool, is_dir: Result<bool, String>) -> (r: Result<(), Error>)
    ensures
        unit_result(r) == launch_check_spec(target@, exists, flag_result(is_dir)),
{
    if !exists {
        return Err(Error::TargetNotFound { path: target.to_owned() });
    }
    match is_dir {
        Err(m) => Err(Error::LocalFileReadFailed { path: target.to_owned(), reason: m }),
        Ok(true) => Err(Error::TargetNotExecutable { path: target.to_owned() }),
        Ok(false) => {
            let p = chars_of(target);
            let ext: Vec<char> = match file_name_exec(&p) {
                Some(name) => match last_dot_exec(&name) {
                    Some(k) if k > 0 => {
                        let mut e: Vec<char> = Vec::new();
                        crate::text::extend_from_range(&mut e, &name, k + 1, name.len());
                        assert(e@ == name@.skip(k + 1));
                        e
                    },
                    _ => Vec::new(),
                },
                None => Vec::new(),
            };
            let es = crate::text::string_of(&ext);
            if is_executable_extension(es.as_str()) {
                Ok(())
            } else {
                Err(Error::TargetNotExecutable { path: target.to_owned() })
            }
        },
    }
}

/// What `launch_alias` reports once the process is started.
#[derive(Debug, Clone)]
pub struct LaunchResult {
    pub alias: String,
    pub target: String,
    pub started: bool,
    pub pid: Option<u32>,
}

impl LaunchResult {
    pub fn started(alias: &str, target: &str, pid: Option<u32>) -> (r: LaunchResult)
        ensures
            r.alias@ == alias@,
            r.target@ == target@,
            r.started,
            r.pid == pid,
    {
        LaunchResult { alias: alias.to_owned(), target: target.to_owned(), started: true, pid }
    }
}

} // verus!
