//! Export targets: where a profile's built packs go, and the check that no
//! two targets of a run write to the same or overlapping directories.

use vstd::prelude::*;
use crate::path::{
    clean_path, path_contains, spec_clean, spec_contains, spec_is_absolute, spec_join,
    Component, ComponentView, FsPath,
};
use crate::paths::child;
use crate::text::concat_strs;

verus! {

/// Export to the game's development pack folders.
pub struct DevelopmentExport {
    /// Which game build's `com.mojang` folder to use.
    pub build: Option<String>,
    /// Name template of the behavior pack folder.
    pub bp_name: Option<String>,
    /// Name template of the resource pack folder.
    pub rp_name: Option<String>,
    pub read_only: bool,
}

/// Export to the project's `build` folder.
pub struct LocalExport {
    pub bp_name: Option<String>,
    pub rp_name: Option<String>,
    pub read_only: bool,
}

/// Export to two given folders.
pub struct ExactExport {
    pub bp_path: FsPath,
    pub rp_path: FsPath,
    pub read_only: bool,
}

/// No export: the packs stay in the working directory.
pub struct NoneExport {
    pub read_only: bool,
}

/// Export into a world's pack folders.
pub struct WorldExport {
    pub build: Option<String>,
    pub world_name: Option<String>,
    pub world_path: Option<FsPath>,
    pub bp_name: Option<String>,
    pub rp_name: Option<String>,
    pub read_only: bool,
}

/// One export target of a profile.
pub enum Export {
    Development(DevelopmentExport),
    Local(LocalExport),
    Exact(ExactExport),
    NoExport(NoneExport),
    World(WorldExport),
}

/// Why an export target could not be resolved or used.
#[derive(Debug)]
pub enum ExportError {
    /// Two export paths are the same or one lies inside the other.
    Collision { first_label: String, second_label: String, path: FsPath },
    /// The `export` array of a profile is empty.
    EmptyExportArray,
    /// The `com.mojang` folder does not exist.
    MojangDirNotFound,
    /// `bpPath` and `rpPath` resolve to the same folder.
    SamePackPaths,
    /// A world target names both `worldName` and `worldPath`.
    BothWorldNameAndPath,
    /// A world target names neither `worldName` nor `worldPath`.
    MissingWorldNameOrPath,
    /// A `%NAME%` component names an environment variable that is not set.
    MissingEnvVar(String),
}

impl Export {
    /// Whether this target is the `none` target, which is skipped when
    /// exporting.
    pub fn is_none(&self) -> (b: bool)
        ensures
            b == (self is NoExport),
    {
        match self {
            Export::NoExport(_) => true,
            _ => false,
        }
    }

    /// Short name used in log messages and error labels.
    pub fn kind(&self) -> (s: &'static str)
        ensures
            s@ == spec_kind(*self),
    {
        match self {
            Export::Development(_) => "development",
            Export::Local(_) => "local",
            Export::Exact(_) => "exact",
            Export::NoExport(_) => "none",
            Export::World(_) => "world",
        }
    }

    /// Whether the exported files are made read-only after export.
    pub fn read_only(&self) -> (b: bool)
        ensures
            b == spec_read_only(*self),
    {
        match self {
            Export::Development(e) => e.read_only,
            Export::Local(e) => e.read_only,
            Export::Exact(e) => e.read_only,
            Export::NoExport(e) => e.read_only,
            Export::World(e) => e.read_only,
        }
    }
}

pub open spec fn spec_kind(e: Export) -> Seq<char> {
    match e {
        Export::Development(_) => "development"@,
        Export::Local(_) => "local"@,
        Export::Exact(_) => "exact"@,
        Export::NoExport(_) => "none"@,
        Export::World(_) => "world"@,
    }
}

pub open spec fn spec_read_only(e: Export) -> bool {
    match e {
        Export::Development(x) => x.read_only,
        Export::Local(x) => x.read_only,
        Export::Exact(x) => x.read_only,
        Export::NoExport(x) => x.read_only,
        Export::World(x) => x.read_only,
    }
}

/// A profile's `export` value: one target or several, in declaration order.
pub struct ExportTargets(pub Vec<Export>);

/// The two shapes the `export` value takes in a configuration file.
pub enum ExportTargetsRepr {
    Single(Export),
    Multiple(Vec<Export>),
}

/// Indices below `n` of the targets that are not `none`, in order.
pub open spec fn spec_active_upto(t: Seq<Export>, n: int) -> Seq<usize>
    decreases n,
{
    if n <= 0 {
        seq![]
    } else if t[n - 1] is NoExport {
        spec_active_upto(t, n - 1)
    } else {
        spec_active_upto(t, n - 1).push((n - 1) as usize)
    }
}

/// Indices of the targets that are not `none`, in order.
pub open spec fn spec_active(t: Seq<Export>) -> Seq<usize> {
    spec_active_upto(t, t.len() as int)
}

/// The targets that a configured `export` value stands for.
pub open spec fn spec_from_repr(r: ExportTargetsRepr) -> Result<Seq<Export>, ()> {
    match r {
        ExportTargetsRepr::Single(e) => Ok(seq![e]),
        ExportTargetsRepr::Multiple(v) => if v@.len() == 0 {
            Err(())
        } else {
            Ok(v@)
        },
    }
}

impl ExportTargets {
    pub fn targets(&self) -> (s: &[Export])
        ensures
            s@ == self.0@,
    {
        self.0.as_slice()
    }

    /// Indices of the export targets that aren't `none`, in declaration
    /// order.
    pub fn active(&self) -> (v: Vec<usize>)
        ensures
            v@ == spec_active(self.0@),
    {
        let mut v: Vec<usize> = Vec::new();
        let n = self.0.len();
        let mut i: usize = 0;
        while i < n
            invariant
                n == self.0@.len(),
                i <= n,
                v@ == spec_active_upto(self.0@, i as int),
            decreases n - i,
        {
            if !self.0[i].is_none() {
                v.push(i);
            }
            i = i + 1;
        }
        v
    }

    /// One target.
    pub fn from_export(export: Export) -> (t: ExportTargets)
        ensures
            t.0@ == seq![export],
    {
        let t = ExportTargets(vec![export]);
        assert(t.0@ =~= seq![export]);
        t
    }

    /// The targets of a configured `export` value: one object gives one
    /// target, an array gives its entries and must not be empty.
    pub fn from_repr(repr: ExportTargetsRepr) -> (r: Result<ExportTargets, ExportError>)
        ensures
            match spec_from_repr(repr) {
                Ok(t) => r matches Ok(x) && x.0@ == t,
                Err(_) => r matches Err(ExportError::EmptyExportArray),
            },
    {
        match repr {
            ExportTargetsRepr::Single(export) => Ok(ExportTargets::from_export(export)),
            ExportTargetsRepr::Multiple(exports) => {
                if exports.len() == 0 {
                    return Err(ExportError::EmptyExportArray);
                }
                Ok(ExportTargets(exports))
            },
        }
    }

    /// The shape in which the targets are written back: a single target as
    /// a plain object, any other number as an array.
    pub fn into_repr(self) -> (r: ExportTargetsRepr)
        ensures
            self.0@.len() == 1 ==> r == ExportTargetsRepr::Single(self.0@[0]),
            self.0@.len() != 1 ==> (r matches ExportTargetsRepr::Multiple(v) && v@ == self.0@),
    {
        let mut v = self.0;
        if v.len() == 1 {
            let e = v.pop().unwrap();
            ExportTargetsRepr::Single(e)
        } else {
            ExportTargetsRepr::Multiple(v)
        }
    }
}

/// Reading back what was written gives the same targets, for any non-empty
/// list of targets.
pub proof fn lemma_repr_round_trip(t: Seq<Export>, r: ExportTargetsRepr)
    requires
        t.len() > 0,
        t.len() == 1 ==> r == ExportTargetsRepr::Single(t[0]),
        t.len() != 1 ==> (r matches ExportTargetsRepr::Multiple(v) && v@ == t),
    ensures
        spec_from_repr(r) == Ok::<Seq<Export>, ()>(t),
{
    if t.len() == 1 {
        assert(seq![t[0]] =~= t);
    }
}

/// Every index that `active` gives refers to a target that is not `none`,
/// the indices rise strictly, and every target that is not `none` is among
/// them.
pub proof fn lemma_active_exact(t: Seq<Export>, n: int)
    requires
        0 <= n <= t.len(),
        t.len() <= usize::MAX,
    ensures
        forall|k: int| 0 <= k < spec_active_upto(t, n).len() ==> {
            let i = #[trigger] spec_active_upto(t, n)[k];
            &&& i < n
            &&& !(t[i as int] is NoExport)
        },
        forall|k: int, l: int|
            0 <= k < l < spec_active_upto(t, n).len() ==> #[trigger] spec_active_upto(t, n)[k]
                < #[trigger] spec_active_upto(t, n)[l],
        forall|i: int| 0 <= i < n && !(t[i] is NoExport) ==> #[trigger] spec_active_upto(t, n).contains(i as usize),
    decreases n,
{
    if n > 0 {
        lemma_active_exact(t, n - 1);
        let prev = spec_active_upto(t, n - 1);
        if !(t[n - 1] is NoExport) {
            let cur = spec_active_upto(t, n);
            assert(cur == prev.push((n - 1) as usize));
            assert forall|i: int| 0 <= i < n && !(t[i] is NoExport) implies #[trigger] cur.contains(i as usize) by {
                if i < n - 1 {
                    assert(prev.contains(i as usize));
                    let k = choose|k: int| 0 <= k < prev.len() && prev[k] == i as usize;
                    assert(cur[k] == i as usize);
                } else {
                    assert(cur[prev.len() as int] == i as usize);
                }
            }
            assert forall|k: int, l: int| 0 <= k < l < cur.len() implies #[trigger] cur[k] < #[trigger] cur[l] by {
                if l < prev.len() {
                    assert(cur[k] == prev[k]);
                    assert(cur[l] == prev[l]);
                } else {
                    assert(cur[k] == prev[k]);
                }
            }
        }
    }
}

/// Whether two paths are the same or one lies inside the other.
pub open spec fn overlaps(a: Seq<ComponentView>, b: Seq<ComponentView>) -> bool {
    a == b || spec_contains(a, b) || spec_contains(b, a)
}

/// Whether no two of the paths seen so far overlap.
pub open spec fn pairwise_apart(seen: Seq<(FsPath, String)>) -> bool {
    forall|i: int, j: int|
        0 <= i < seen.len() && 0 <= j < seen.len() && i != j ==> !overlaps(
            #[trigger] seen[i].0@,
            #[trigger] seen[j].0@,
        )
}

/// The first index below `n` whose path overlaps `p`, if any.
pub open spec fn first_overlap(seen: Seq<(FsPath, String)>, p: Seq<ComponentView>, n: int) -> Option<int>
    decreases n,
{
    if n <= 0 {
        None
    } else {
        match first_overlap(seen, p, n - 1) {
            Some(i) => Some(i),
            None => if overlaps(p, seen[n - 1].0@) {
                Some(n - 1)
            } else {
                None
            },
        }
    }
}

pub(crate) proof fn lemma_first_overlap(seen: Seq<(FsPath, String)>, p: Seq<ComponentView>, n: int)
    requires
        0 <= n <= seen.len(),
    ensures
        first_overlap(seen, p, n) is None <==> forall|i: int| 0 <= i < n ==> !overlaps(p, #[trigger] seen[i].0@),
        first_overlap(seen, p, n) matches Some(i) ==> 0 <= i < n && overlaps(p, seen[i].0@),
    decreases n,
{
    if n > 0 {
        lemma_first_overlap(seen, p, n - 1);
    }
}

/// Resolves `path` against the current directory and removes `.` and `..`
/// lexically; an absolute path is taken as it is.
pub fn normalize_export_path(path: &FsPath, current_dir: &FsPath, windows: bool) -> (r: FsPath)
    ensures
        r@ == spec_clean(
            if spec_is_absolute(path@, windows) {
                path@
            } else {
                spec_join(current_dir@, path@)
            },
        ),
{
    let absolute = if path.is_absolute(windows) {
        path.copy()
    } else {
        current_dir.join(path)
    };
    clean_path(&absolute)
}

/// Checks whether `normalized` (labelled `label`) collides with any export
/// path seen so far: the same path, or one inside the other. On a collision
/// the first such path is reported and nothing is recorded; otherwise the
/// path is recorded.
pub fn check_export_path_collision(seen: &mut Vec<(FsPath, String)>, normalized: FsPath, label: &str) -> (r: Result<(), ExportError>)
    ensures
        match first_overlap(old(seen)@, normalized@, old(seen)@.len() as int) {
            None => {
                &&& r is Ok
                &&& final(seen)@.len() == old(seen)@.len() + 1
                &&& final(seen)@.subrange(0, old(seen)@.len() as int) == old(seen)@
                &&& final(seen)@.last().0@ == normalized@
                &&& final(seen)@.last().1@ == label@
            },
            Some(i) => {
                &&& r matches Err(ExportError::Collision { first_label, second_label, path })
                &&& first_label@ == old(seen)@[i].1@
                &&& second_label@ == label@
                &&& path@ == normalized@
                &&& final(seen)@ == old(seen)@
            },
        },
{
    let n = seen.len();
    let mut i: usize = 0;
    while i < n
        invariant
            n == seen@.len(),
            i <= n,
            first_overlap(seen@, normalized@, i as int) is None,
        decreases n - i,
    {
        let hit = seen[i].0.same(&normalized) || path_contains(&normalized, &seen[i].0)
            || path_contains(&seen[i].0, &normalized);
        if hit {
            let first_label = seen[i].1.clone();
            proof {
                lemma_first_overlap_stays(seen@, normalized@, i as int + 1, n as int);
            }
            return Err(ExportError::Collision { first_label, second_label: label.to_owned(), path: normalized });
        }
        i = i + 1;
    }
    let ghost before = seen@;
    seen.push((normalized, label.to_owned()));
    assert(seen@.subrange(0, before.len() as int) =~= before);
    Ok(())
}

proof fn lemma_first_overlap_stays(seen: Seq<(FsPath, String)>, p: Seq<ComponentView>, m: int, n: int)
    requires
        0 < m <= n <= seen.len(),
        first_overlap(seen, p, m) is Some,
    ensures
        first_overlap(seen, p, n) == first_overlap(seen, p, m),
    decreases n - m,
{
    if n > m {
        lemma_first_overlap_stays(seen, p, m, n - 1);
    }
}

/// Recording an export path only after the collision check passes keeps the
/// recorded paths pairwise apart: no two export targets of a run write to
/// the same folder or to folders inside one another.
pub proof fn lemma_collision_check_keeps_apart(
    before: Seq<(FsPath, String)>,
    after: Seq<(FsPath, String)>,
    p: Seq<ComponentView>,
)
    requires
        pairwise_apart(before),
        first_overlap(before, p, before.len() as int) is None,
        after.len() == before.len() + 1,
        after.subrange(0, before.len() as int) == before,
        after.last().0@ == p,
    ensures
        pairwise_apart(after),
{
    lemma_first_overlap(before, p, before.len() as int);
    assert forall|i: int, j: int|
        0 <= i < after.len() && 0 <= j < after.len() && i != j implies !overlaps(
        #[trigger] after[i].0@,
        #[trigger] after[j].0@,
    ) by {
        if i < before.len() {
            assert(after[i] == after.subrange(0, before.len() as int)[i]);
        }
        if j < before.len() {
            assert(after[j] == after.subrange(0, before.len() as int)[j]);
        }
        if i == before.len() {
            assert(!overlaps(p, before[j].0@));
        } else if j == before.len() {
            assert(!overlaps(p, before[i].0@));
        }
    }
}

/// Where a pack folder's name comes from: a name template to evaluate, or
/// the default `<project>_bp` / `<project>_rp`.
#[derive(Debug)]
pub enum PackName {
    Template(String),
    Default(String),
}

/// The name of a pack folder: the template when one is given, else the
/// project name followed by `suffix`.
pub fn pack_name(template: &Option<String>, project_name: &str, suffix: &str) -> (n: PackName)
    ensures
        match template {
            Some(t) => n matches PackName::Template(x) && x@ == t@,
            None => n matches PackName::Default(x) && x@ == project_name@ + suffix@,
        },
{
    match template {
        Some(t) => PackName::Template(t.clone()),
        None => PackName::Default(concat_strs(project_name, suffix)),
    }
}

impl DevelopmentExport {
    /// The folders that hold the development behavior and resource packs,
    /// inside the `com.mojang` folder, which must exist.
    pub fn pack_parents(&self, mojang_dir: &FsPath, mojang_dir_exists: bool) -> (r: Result<(FsPath, FsPath), ExportError>)
        ensures
            !mojang_dir_exists ==> r matches Err(ExportError::MojangDirNotFound),
            mojang_dir_exists ==> (r matches Ok((bp, rp)) && bp@ == child(mojang_dir@, "development_behavior_packs"@)
                && rp@ == child(mojang_dir@, "development_resource_packs"@)),
    {
        if !mojang_dir_exists {
            return Err(ExportError::MojangDirNotFound);
        }
        Ok((mojang_dir.join_name("development_behavior_packs"), mojang_dir.join_name("development_resource_packs")))
    }

    pub fn bp_pack_name(&self, project_name: &str) -> (n: PackName)
        ensures
            match self.bp_name {
                Some(t) => n matches PackName::Template(x) && x@ == t@,
                None => n matches PackName::Default(x) && x@ == project_name@ + "_bp"@,
            },
    {
        pack_name(&self.bp_name, project_name, "_bp")
    }

    pub fn rp_pack_name(&self, project_name: &str) -> (n: PackName)
        ensures
            match self.rp_name {
                Some(t) => n matches PackName::Template(x) && x@ == t@,
                None => n matches PackName::Default(x) && x@ == project_name@ + "_rp"@,
            },
    {
        pack_name(&self.rp_name, project_name, "_rp")
    }
}

impl LocalExport {
    /// The folder that holds both packs: `build`, relative to the project.
    pub fn pack_parent(&self) -> (p: FsPath)
        ensures
            p@ == seq![ComponentView::Normal("build"@)],
    {
        FsPath::from_name("build")
    }

    pub fn bp_pack_name(&self, project_name: &str) -> (n: PackName)
        ensures
            match self.bp_name {
                Some(t) => n matches PackName::Template(x) && x@ == t@,
                None => n matches PackName::Default(x) && x@ == project_name@ + "_bp"@,
            },
    {
        pack_name(&self.bp_name, project_name, "_bp")
    }

    pub fn rp_pack_name(&self, project_name: &str) -> (n: PackName)
        ensures
            match self.rp_name {
                Some(t) => n matches PackName::Template(x) && x@ == t@,
                None => n matches PackName::Default(x) && x@ == project_name@ + "_rp"@,
            },
    {
        pack_name(&self.rp_name, project_name, "_rp")
    }
}

impl ExactExport {
    /// The two resolved folders, which must differ.
    pub fn check_paths(bp: FsPath, rp: FsPath) -> (r: Result<(FsPath, FsPath), ExportError>)
        ensures
            bp@ == rp@ ==> r matches Err(ExportError::SamePackPaths),
            bp@ != rp@ ==> (r matches Ok((b, p)) && b@ == bp@ && p@ == rp@),
    {
        if bp.same(&rp) {
            return Err(ExportError::SamePackPaths);
        }
        Ok((bp, rp))
    }
}

impl NoneExport {
    /// The working directory's pack folders, so that log messages name a
    /// real place: `<dot_regolith>/tmp/BP` and `<dot_regolith>/tmp/RP`.
    pub fn get_paths(&self, dot_regolith: &FsPath) -> (r: (FsPath, FsPath))
        ensures
            r.0@ == child(child(dot_regolith@, "tmp"@), "BP"@),
            r.1@ == child(child(dot_regolith@, "tmp"@), "RP"@),
    {
        let temp = dot_regolith.join_name("tmp");
        (temp.join_name("BP"), temp.join_name("RP"))
    }
}

/// How a world target names its world.
#[derive(Debug)]
pub enum WorldDir {
    /// By the world's name, looked up among the game's worlds.
    Name(String),
    /// By a path, resolved like the paths of an exact target.
    Path(FsPath),
}

impl WorldExport {
    /// How this target names its world: exactly one of `worldName` and
    /// `worldPath` must be given.
    pub fn world_dir(&self) -> (r: Result<WorldDir, ExportError>)
        ensures
            match (self.world_name, self.world_path) {
                (Some(n), None) => r matches Ok(WorldDir::Name(x)) && x@ == n@,
                (None, Some(p)) => r matches Ok(WorldDir::Path(x)) && x@ == p@,
                (Some(_), Some(_)) => r matches Err(ExportError::BothWorldNameAndPath),
                (None, None) => r matches Err(ExportError::MissingWorldNameOrPath),
            },
    {
        match (&self.world_name, &self.world_path) {
            (Some(n), None) => Ok(WorldDir::Name(n.clone())),
            (None, Some(p)) => Ok(WorldDir::Path(p.copy())),
            (Some(_), Some(_)) => Err(ExportError::BothWorldNameAndPath),
            (None, None) => Err(ExportError::MissingWorldNameOrPath),
        }
    }

    /// The world's behavior and resource pack folders.
    pub fn pack_parents(&self, world_dir: &FsPath) -> (r: (FsPath, FsPath))
        ensures
            r.0@ == child(world_dir@, "behavior_packs"@),
            r.1@ == child(world_dir@, "resource_packs"@),
    {
        (world_dir.join_name("behavior_packs"), world_dir.join_name("resource_packs"))
    }

    pub fn bp_pack_name(&self, project_name: &str) -> (n: PackName)
        ensures
            match self.bp_name {
                Some(t) => n matches PackName::Template(x) && x@ == t@,
                None => n matches PackName::Default(x) && x@ == project_name@ + "_bp"@,
            },
    {
        pack_name(&self.bp_name, project_name, "_bp")
    }

    pub fn rp_pack_name(&self, project_name: &str) -> (n: PackName)
        ensures
            match self.rp_name {
                Some(t) => n matches PackName::Template(x) && x@ == t@,
                None => n matches PackName::Default(x) && x@ == project_name@ + "_rp"@,
            },
    {
        pack_name(&self.rp_name, project_name, "_rp")
    }
}

/// Whether a component name has the `%NAME%` form.
pub open spec fn is_env_ref(s: Seq<char>) -> bool {
    s.len() >= 2 && s[0] == '%' && s[s.len() - 1] == '%'
}

/// The variable name inside `%NAME%`.
pub open spec fn env_ref_name(s: Seq<char>) -> Seq<char> {
    s.subrange(1, s.len() - 1)
}

/// Whether `s` is the lone `%`, which has the `%…%` shape with nothing
/// between and which the component check does not accept.
pub open spec fn is_lone_percent(s: Seq<char>) -> bool {
    s.len() == 1 && s[0] == '%'
}

/// The value of the first variable called `name` in `env`, from index `i`.
pub open spec fn env_value_from(env: Seq<(String, FsPath)>, name: Seq<char>, i: int) -> Option<Seq<ComponentView>>
    decreases env.len() - i,
{
    if i < 0 || i >= env.len() {
        None
    } else if env[i].0@ == name {
        Some(env[i].1@)
    } else {
        env_value_from(env, name, i + 1)
    }
}

/// One component of a path being resolved: `%NAME%` becomes the value of
/// that variable, pushed onto the result; anything else is pushed as it is.
pub open spec fn expand_piece(r: Seq<ComponentView>, c: ComponentView, env: Seq<(String, FsPath)>) -> Result<Seq<ComponentView>, Seq<char>> {
    match c {
        ComponentView::Normal(s) => if is_env_ref(s) {
            match env_value_from(env, env_ref_name(s), 0) {
                Some(v) => Ok(spec_join(r, v)),
                None => Err(env_ref_name(s)),
            }
        } else {
            Ok(spec_join(r, seq![c]))
        },
        _ => Ok(spec_join(r, seq![c])),
    }
}

/// A path with every `%NAME%` component replaced by the value of that
/// environment variable; the first missing variable's name otherwise.
pub open spec fn spec_expand(p: Seq<ComponentView>, env: Seq<(String, FsPath)>) -> Result<Seq<ComponentView>, Seq<char>>
    decreases p.len(),
{
    if p.len() == 0 {
        Ok(seq![])
    } else {
        match spec_expand(p.drop_last(), env) {
            Err(e) => Err(e),
            Ok(r) => expand_piece(r, p.last(), env),
        }
    }
}

proof fn lemma_expand_error_stays(p: Seq<ComponentView>, env: Seq<(String, FsPath)>, m: int)
    requires
        0 <= m <= p.len(),
        spec_expand(p.subrange(0, m), env) is Err,
    ensures
        spec_expand(p, env) == spec_expand(p.subrange(0, m), env),
    decreases p.len() - m,
{
    if m < p.len() {
        assert(p.subrange(0, m + 1).drop_last() =~= p.subrange(0, m));
        lemma_expand_error_stays(p, env, m + 1);
    } else {
        assert(p.subrange(0, m) =~= p);
    }
}

fn lookup_env(env: &Vec<(String, FsPath)>, name: &str) -> (r: Option<FsPath>)
    ensures
        match env_value_from(env@, name@, 0) {
            Some(v) => r matches Some(p) && p@ == v,
            None => r is None,
        },
{
    let n = env.len();
    let mut i: usize = 0;
    while i < n
        invariant
            n == env@.len(),
            i <= n,
            env_value_from(env@, name@, 0) == env_value_from(env@, name@, i as int),
        decreases n - i,
    {
        if env[i].0.eq(&name.to_owned()) {
            return Some(env[i].1.copy());
        }
        i = i + 1;
    }
    None
}

/// The variable names of a path's `%NAME%` components, in order.
pub open spec fn spec_env_ref_names(p: Seq<ComponentView>) -> Seq<Seq<char>>
    decreases p.len(),
{
    if p.len() == 0 {
        seq![]
    } else {
        spec_env_ref_names(p.drop_last()) + match p.last() {
            ComponentView::Normal(s) => if is_env_ref(s) {
                seq![env_ref_name(s)]
            } else {
                seq![]
            },
            _ => seq![],
        }
    }
}

/// The names of the environment variables that a configured path refers to
/// with `%NAME%` components, in order, so that each can be looked up by the
/// operating system's own rules before the path is expanded.
pub fn env_ref_names(path: &FsPath) -> (v: Vec<String>)
    ensures
        v@.map_values(|x: String| x@) == spec_env_ref_names(path@),
{
    let mut v: Vec<String> = Vec::new();
    let n = path.len();
    let mut i: usize = 0;
    while i < n
        invariant
            n == path@.len(),
            i <= n,
            v@.map_values(|x: String| x@) == spec_env_ref_names(path@.subrange(0, i as int)),
        decreases n - i,
    {
        let ghost before = v@;
        assert(path@.subrange(0, i + 1).drop_last() =~= path@.subrange(0, i as int));
        assert(path@.subrange(0, i + 1).last() == path@[i as int]);
        match path.component(i) {
            Component::Normal(s) => {
                let text = s.as_str();
                let len = text.unicode_len();
                if len >= 2 && text.get_char(0) == '%' && text.get_char(len - 1) == '%' {
                    let name = text.substring_char(1, len - 1);
                    v.push(name.to_owned());
                    assert(v@.map_values(|x: String| x@) =~= before.map_values(|x: String| x@) + seq![name@]);
                } else {
                    assert(v@ == before);
                }
            },
            _ => {},
        }
        assert(v@.map_values(|x: String| x@) =~= spec_env_ref_names(path@.subrange(0, i + 1)));
        i = i + 1;
    }
    assert(path@.subrange(0, n as int) =~= path@);
    v
}

/// Replaces each `%NAME%` component of a configured path with the value of
/// that environment variable (each value given as a path), keeping the other
/// components. Fails on the first variable that is not set.
pub fn expand_env_vars(path: &FsPath, env: &Vec<(String, FsPath)>) -> (r: Result<FsPath, ExportError>)
    requires
        forall|i: int|
            0 <= i < path@.len() ==> !(#[trigger] path@[i] matches ComponentView::Normal(s) && is_lone_percent(s)),
    ensures
        match spec_expand(path@, env@) {
            Ok(p) => r matches Ok(x) && x@ == p,
            Err(name) => r matches Err(ExportError::MissingEnvVar(x)) && x@ == name,
        },
{
    let mut res = FsPath::new();
    let n = path.len();
    let mut i: usize = 0;
    while i < n
        invariant
            n == path@.len(),
            i <= n,
            forall|k: int|
                0 <= k < path@.len() ==> !(#[trigger] path@[k] matches ComponentView::Normal(s) && is_lone_percent(s)),
            spec_expand(path@.subrange(0, i as int), env@) == Ok::<Seq<ComponentView>, Seq<char>>(res@),
        decreases n - i,
    {
        let ghost before = path@.subrange(0, i as int);
        assert(path@.subrange(0, i + 1).drop_last() =~= before);
        assert(path@.subrange(0, i + 1).last() == path@[i as int]);
        let c = path.component(i);
        let mut single = FsPath::new();
        single.push_component(c.copy());
        assert(single@ =~= seq![path@[i as int]]);
        match c {
            Component::Normal(s) => {
                let text = s.as_str();
                let len = text.unicode_len();
                let is_ref = len >= 1 && text.get_char(0) == '%' && text.get_char(len - 1) == '%';
                if is_ref {
                    assert(len >= 2) by {
                        assert(!(path@[i as int] matches ComponentView::Normal(s) && is_lone_percent(s)));
                    }
                    let name = text.substring_char(1, len - 1);
                    match lookup_env(env, name) {
                        Some(v) => {
                            res = res.join(&v);
                        },
                        None => {
                            proof {
                                lemma_expand_error_stays(path@, env@, i + 1);
                            }
                            return Err(ExportError::MissingEnvVar(name.to_owned()));
                        },
                    }
                } else {
                    res = res.join(&single);
                }
            },
            _ => {
                res = res.join(&single);
            },
        }
        i = i + 1;
    }
    assert(path@.subrange(0, n as int) =~= path@);
    Ok(res)
}

} // verus!
