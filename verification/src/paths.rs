//! Where rgl keeps its files: the shared cache directory and its areas, and
//! the project's `.regolith` directory.

use vstd::prelude::*;
use crate::path::{
    has_prefix, lemma_join_keeps_absolute, spec_is_absolute, spec_join,
    spec_starts_with, Component, ComponentView, FsPath,
};
use crate::digest::{project_hash, spec_project_hash};

verus! {

/// The operating systems rgl runs on.
#[derive(Clone, Copy, PartialEq, Eq, Structural, Debug)]
pub enum Os {
    Linux,
    MacOs,
    Windows,
}

/// `p` joined with one plain name.
pub open spec fn child(p: Seq<ComponentView>, name: Seq<char>) -> Seq<ComponentView> {
    spec_join(p, seq![ComponentView::Normal(name)])
}

/// The user's cache directory, from `$HOME` on Linux and macOS and from
/// `%LocalAppData%` on Windows.
pub open spec fn spec_user_cache_dir(os: Os, base: Seq<ComponentView>) -> Seq<ComponentView> {
    match os {
        Os::Linux => child(base, ".cache"@),
        Os::MacOs => child(child(base, "Library"@), "Caches"@),
        Os::Windows => base,
    }
}

pub open spec fn spec_project_cache_dir(cache: Seq<ComponentView>) -> Seq<ComponentView> {
    child(cache, "project-cache"@)
}

pub open spec fn spec_app_data_dot_regolith_dir(cache: Seq<ComponentView>, project_dir: Seq<char>) -> Seq<ComponentView> {
    child(spec_project_cache_dir(cache), spec_project_hash(project_dir))
}

pub open spec fn spec_dot_regolith_dir(
    use_app_data: bool,
    current_dir: Seq<ComponentView>,
    current_dir_text: Seq<char>,
    cache: Seq<ComponentView>,
) -> Seq<ComponentView> {
    if use_app_data {
        spec_app_data_dot_regolith_dir(cache, current_dir_text)
    } else {
        child(current_dir, ".regolith"@)
    }
}

pub open spec fn spec_filters_cache_dir(cache: Seq<ComponentView>) -> Seq<ComponentView> {
    child(cache, "filters"@)
}

pub open spec fn spec_filter_cache_dir(
    cache: Seq<ComponentView>,
    name: Seq<ComponentView>,
    url: Seq<ComponentView>,
    version: Seq<ComponentView>,
) -> Seq<ComponentView> {
    spec_join(spec_join(spec_join(spec_filters_cache_dir(cache), url), name), version)
}

pub open spec fn spec_repo_cache_dir(cache: Seq<ComponentView>) -> Seq<ComponentView> {
    child(cache, "repo"@)
}

pub open spec fn spec_resolver_cache_dir(cache: Seq<ComponentView>) -> Seq<ComponentView> {
    child(cache, "resolver"@)
}

pub open spec fn spec_user_config_path(cache: Seq<ComponentView>) -> Seq<ComponentView> {
    child(cache, "user_config.json"@)
}

pub open spec fn spec_global_filters_path(cache: Seq<ComponentView>) -> Seq<ComponentView> {
    child(cache, "global_filters.json"@)
}

/// The user's cache directory: `base/.cache` on Linux, `base/Library/Caches`
/// on macOS and `base` itself on Windows, where `base` is `$HOME` or, on
/// Windows, `%LocalAppData%`.
pub fn get_user_cache_dir(os: Os, base: &FsPath) -> (r: FsPath)
    ensures
        r@ == spec_user_cache_dir(os, base@),
{
    match os {
        Os::Linux => base.join_name(".cache"),
        Os::MacOs => base.join_name("Library").join_name("Caches"),
        Os::Windows => base.copy(),
    }
}

/// Whether a path is absolute whenever it carries a prefix, so that joining
/// it onto an absolute path keeps the result absolute. A drive-relative
/// path such as `D:cache` fails this: it names a folder relative to the
/// current folder of drive `D:`, which only the operating system knows.
pub open spec fn no_bare_prefix(p: Seq<ComponentView>, w: bool) -> bool {
    has_prefix(p) ==> spec_is_absolute(p, w)
}

/// The cache directory as configured: `$RGL_DIR` when set, else `rgl` inside
/// the user's cache directory; none when neither is known.
pub open spec fn spec_cache_choice(
    rgl_dir: Option<Seq<ComponentView>>,
    user_cache_dir: Option<Seq<ComponentView>>,
) -> Option<Seq<ComponentView>> {
    match rgl_dir {
        Some(d) => Some(d),
        None => match user_cache_dir {
            Some(u) => Some(child(u, "rgl"@)),
            None => None,
        },
    }
}

/// The view of an optional path.
pub open spec fn opt_path(p: Option<&FsPath>) -> Option<Seq<ComponentView>> {
    match p {
        Some(x) => Some(x@),
        None => None,
    }
}

fn has_bare_prefix(p: &FsPath, windows: bool) -> (b: bool)
    ensures
        b == !no_bare_prefix(p@, windows),
{
    if p.len() == 0 {
        return false;
    }
    match p.component(0) {
        Component::Prefix(_) => !p.is_absolute(windows),
        _ => false,
    }
}

/// rgl's cache directory, as an absolute path: `$RGL_DIR` when it is set,
/// else `rgl` inside the user's cache directory, resolved against the
/// current directory, so that a relative `$RGL_DIR` names the same folder
/// wherever rgl later looks for it. None when neither is known, or when the
/// folder is drive-relative (such as `D:cache`), which cannot be resolved
/// here: the caller hands such a setting over made absolute by the
/// operating system.
pub fn get_cache_dir(
    current_dir: &FsPath,
    rgl_dir: Option<&FsPath>,
    user_cache_dir: Option<&FsPath>,
    windows: bool,
) -> (r: Option<FsPath>)
    ensures
        match spec_cache_choice(opt_path(rgl_dir), opt_path(user_cache_dir)) {
            None => r is None,
            Some(c) => if no_bare_prefix(c, windows) {
                r matches Some(q) && q@ == spec_join(current_dir@, c)
            } else {
                r is None
            },
        },
        spec_is_absolute(current_dir@, windows) && r is Some ==> spec_is_absolute(r->0@, windows),
{
    let chosen = match rgl_dir {
        Some(d) => d.copy(),
        None => match user_cache_dir {
            Some(u) => u.join_name("rgl"),
            None => {
                return None;
            },
        },
    };
    if has_bare_prefix(&chosen, windows) {
        return None;
    }
    proof {
        lemma_join_keeps_absolute(current_dir@, chosen@, windows);
    }
    Some(current_dir.join(&chosen))
}

/// Directory inside the shared cache directory that holds one subdirectory
/// per project when `use_project_app_data_storage` is enabled.
pub fn get_project_cache_dir(cache_dir: &FsPath) -> (r: FsPath)
    ensures
        r@ == spec_project_cache_dir(cache_dir@),
{
    cache_dir.join_name("project-cache")
}

/// The project's `.regolith` directory inside the shared cache directory,
/// keyed by the hash of the project directory's text, whatever the
/// `use_project_app_data_storage` setting.
pub fn get_app_data_dot_regolith_dir(current_dir_text: &str, cache_dir: &FsPath) -> (r: FsPath)
    ensures
        r@ == spec_app_data_dot_regolith_dir(cache_dir@, current_dir_text@),
{
    let hash = project_hash(current_dir_text);
    get_project_cache_dir(cache_dir).join_name(hash.as_str())
}

/// The project's `.regolith` directory: `<project>/.regolith`, or the one
/// inside the shared cache directory when `use_project_app_data_storage` is
/// enabled. It is absolute when the project directory and the cache
/// directory are.
pub fn get_dot_regolith_dir(
    use_app_data: bool,
    current_dir: &FsPath,
    current_dir_text: &str,
    cache_dir: &FsPath,
) -> (r: FsPath)
    ensures
        r@ == spec_dot_regolith_dir(use_app_data, current_dir@, current_dir_text@, cache_dir@),
        forall|w: bool|
            spec_is_absolute(current_dir@, w) && spec_is_absolute(cache_dir@, w)
                ==> #[trigger] spec_is_absolute(r@, w),
{
    proof {
        assert forall|w: bool| spec_is_absolute(current_dir@, w) && spec_is_absolute(cache_dir@, w)
            implies #[trigger] spec_is_absolute(
            spec_dot_regolith_dir(use_app_data, current_dir@, current_dir_text@, cache_dir@),
            w,
        ) by {
            lemma_join_keeps_absolute(current_dir@, seq![ComponentView::Normal(".regolith"@)], w);
            lemma_join_keeps_absolute(cache_dir@, seq![ComponentView::Normal("project-cache"@)], w);
            lemma_join_keeps_absolute(
                spec_project_cache_dir(cache_dir@),
                seq![ComponentView::Normal(spec_project_hash(current_dir_text@))],
                w,
            );
        }
    }
    if !use_app_data {
        return current_dir.join_name(".regolith");
    }
    get_app_data_dot_regolith_dir(current_dir_text, cache_dir)
}

/// The user configuration file.
pub fn get_user_config_path(cache_dir: &FsPath) -> (r: FsPath)
    ensures
        r@ == spec_user_config_path(cache_dir@),
{
    cache_dir.join_name("user_config.json")
}

/// The file that lists globally installed filters.
pub fn get_global_filters_path(cache_dir: &FsPath) -> (r: FsPath)
    ensures
        r@ == spec_global_filters_path(cache_dir@),
{
    cache_dir.join_name("global_filters.json")
}

/// Root directory of all installed filter caches.
pub fn get_filters_cache_dir(cache_dir: &FsPath) -> (r: FsPath)
    ensures
        r@ == spec_filters_cache_dir(cache_dir@),
{
    cache_dir.join_name("filters")
}

/// The cache directory of one installed filter: the filters cache joined
/// with the remote's URL, the filter's name and the remote's version, each
/// taken as a path.
pub fn get_filter_cache_dir(cache_dir: &FsPath, name: &FsPath, url: &FsPath, version: &FsPath) -> (r: FsPath)
    ensures
        r@ == spec_filter_cache_dir(cache_dir@, name@, url@, version@),
{
    get_filters_cache_dir(cache_dir).join(url).join(name).join(version)
}

/// The cache of filter repositories.
pub fn get_repo_cache_dir(cache_dir: &FsPath) -> (r: FsPath)
    ensures
        r@ == spec_repo_cache_dir(cache_dir@),
{
    cache_dir.join_name("repo")
}

/// The cache of resolver files.
pub fn get_resolver_cache_dir(cache_dir: &FsPath) -> (r: FsPath)
    ensures
        r@ == spec_resolver_cache_dir(cache_dir@),
{
    cache_dir.join_name("resolver")
}

/// Whether a path is relative and holds no `..`, so that joining it keeps
/// the result inside the base.
pub open spec fn descends(p: Seq<ComponentView>) -> bool {
    forall|i: int| 0 <= i < p.len() ==> (#[trigger] p[i] is Normal || p[i] is CurDir)
}

proof fn lemma_join_descending(base: Seq<ComponentView>, p: Seq<ComponentView>)
    requires
        base.len() > 0,
        descends(p),
    ensures
        spec_starts_with(spec_join(base, p), base),
        spec_join(base, p).len() >= base.len(),
{
    if p.len() > 0 {
        assert(!(p[0] is Prefix) && !(p[0] is RootDir));
    }
    let r = spec_join(base, p);
    assert(r.subrange(0, base.len() as int) =~= base);
}

/// Two distinct names under one directory are distinct paths, neither
/// inside the other.
pub(crate) proof fn lemma_siblings_apart(cache: Seq<ComponentView>, a: Seq<char>, b: Seq<char>)
    requires
        a != b,
    ensures
        child(cache, a) != child(cache, b),
        !spec_starts_with(child(cache, a), child(cache, b)),
        !spec_starts_with(child(cache, b), child(cache, a)),
{
    let ca = child(cache, a);
    let cb = child(cache, b);
    if cache.len() == 0 {
        assert(ca[0] != cb[0]);
        assert(ca.subrange(0, 1)[0] == ca[0]);
        assert(cb.subrange(0, 1)[0] == cb[0]);
    } else {
        assert(ca =~= cache.push(ComponentView::Normal(a))) by {
            reveal_with_fuel(Seq::filter, 2);
        }
        assert(cb =~= cache.push(ComponentView::Normal(b))) by {
            reveal_with_fuel(Seq::filter, 2);
        }
        assert(ca[cache.len() as int] != cb[cache.len() as int]);
        assert(ca.subrange(0, cb.len() as int)[cache.len() as int] == ca[cache.len() as int]);
        assert(cb.subrange(0, ca.len() as int)[cache.len() as int] == cb[cache.len() as int]);
    }
}

/// The areas of the shared cache directory are apart: the project caches,
/// the installed filters, the filter repositories and the resolver cache
/// are distinct directories, none inside another, so clearing one of them
/// leaves the others alone.
pub proof fn lemma_cache_areas_apart(cache: Seq<ComponentView>)
    ensures
        !spec_starts_with(spec_project_cache_dir(cache), spec_filters_cache_dir(cache)),
        !spec_starts_with(spec_filters_cache_dir(cache), spec_project_cache_dir(cache)),
        !spec_starts_with(spec_project_cache_dir(cache), spec_repo_cache_dir(cache)),
        !spec_starts_with(spec_repo_cache_dir(cache), spec_project_cache_dir(cache)),
        !spec_starts_with(spec_filters_cache_dir(cache), spec_repo_cache_dir(cache)),
        !spec_starts_with(spec_repo_cache_dir(cache), spec_filters_cache_dir(cache)),
        !spec_starts_with(spec_resolver_cache_dir(cache), spec_repo_cache_dir(cache)),
        !spec_starts_with(spec_repo_cache_dir(cache), spec_resolver_cache_dir(cache)),
        !spec_starts_with(spec_resolver_cache_dir(cache), spec_filters_cache_dir(cache)),
        !spec_starts_with(spec_filters_cache_dir(cache), spec_resolver_cache_dir(cache)),
        !spec_starts_with(spec_resolver_cache_dir(cache), spec_project_cache_dir(cache)),
        !spec_starts_with(spec_project_cache_dir(cache), spec_resolver_cache_dir(cache)),
{
    reveal_strlit("project-cache");
    reveal_strlit("filters");
    reveal_strlit("repo");
    reveal_strlit("resolver");
    assert("project-cache"@.len() == 13);
    assert("filters"@.len() == 7);
    assert("repo"@.len() == 4);
    assert("resolver"@.len() == 8);
    lemma_siblings_apart(cache, "project-cache"@, "filters"@);
    lemma_siblings_apart(cache, "project-cache"@, "repo"@);
    lemma_siblings_apart(cache, "filters"@, "repo"@);
    lemma_siblings_apart(cache, "resolver"@, "repo"@);
    lemma_siblings_apart(cache, "resolver"@, "filters"@);
    lemma_siblings_apart(cache, "resolver"@, "project-cache"@);
}

/// An installed filter's cache directory lies inside the filters cache
/// when the remote URL, the filter name and the version are relative paths
/// without `..`.
pub proof fn lemma_filter_cache_inside_filters_cache(
    cache: Seq<ComponentView>,
    name: Seq<ComponentView>,
    url: Seq<ComponentView>,
    version: Seq<ComponentView>,
)
    requires
        descends(name),
        descends(url),
        descends(version),
    ensures
        spec_starts_with(spec_filter_cache_dir(cache, name, url, version), spec_filters_cache_dir(cache)),
{
    let f = spec_filters_cache_dir(cache);
    assert(f.len() > 0) by {
        reveal_with_fuel(Seq::filter, 2);
    }
    lemma_join_descending(f, url);
    let a = spec_join(f, url);
    lemma_join_descending(a, name);
    let b = spec_join(a, name);
    lemma_join_descending(b, version);
    let c = spec_join(b, version);
    assert(c.subrange(0, f.len() as int) =~= b.subrange(0, a.len() as int).subrange(0, f.len() as int));
    assert(b.subrange(0, f.len() as int) =~= b.subrange(0, a.len() as int).subrange(0, f.len() as int));
}

/// The project's `.regolith` directory in the shared cache lies strictly
/// inside the project caches directory, which `rgl clean --user-cache`
/// clears.
pub proof fn lemma_app_data_dir_inside_project_cache(cache: Seq<ComponentView>, project_dir: Seq<char>)
    ensures
        spec_starts_with(spec_app_data_dot_regolith_dir(cache, project_dir), spec_project_cache_dir(cache)),
        spec_app_data_dot_regolith_dir(cache, project_dir).len() == spec_project_cache_dir(cache).len() + 1,
{
    let p = spec_project_cache_dir(cache);
    assert(p.len() > 0) by {
        reveal_with_fuel(Seq::filter, 2);
    }
    let h = spec_project_hash(project_dir);
    let r = spec_app_data_dot_regolith_dir(cache, project_dir);
    assert(r =~= p.push(ComponentView::Normal(h))) by {
        reveal_with_fuel(Seq::filter, 2);
    }
    assert(r.subrange(0, p.len() as int) =~= p);
}

} // verus!
