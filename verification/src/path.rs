//! File system paths as sequences of components.
//!
//! A path is held as the list of components that `std::path::Path::components`
//! yields for it: an optional prefix (Windows only), an optional root, and then
//! `.`, `..` and plain names. Joining, taking the parent, stripping a prefix and
//! lexical cleaning all work on that list, so each can be stated exactly.

use vstd::prelude::*;

verus! {

/// One component of a path.
#[derive(Debug)]
pub enum Component {
    /// A Windows path prefix such as `C:` or `\\server\share`.
    Prefix(String),
    /// The root directory separator.
    RootDir,
    /// A leading `.`.
    CurDir,
    /// A `..`.
    ParentDir,
    /// A plain file or directory name.
    Normal(String),
}

/// The mathematical value of a [`Component`].
pub enum ComponentView {
    Prefix(Seq<char>),
    RootDir,
    CurDir,
    ParentDir,
    Normal(Seq<char>),
}

impl View for Component {
    type V = ComponentView;

    open spec fn view(&self) -> ComponentView {
        match self {
            Component::Prefix(s) => ComponentView::Prefix(s@),
            Component::RootDir => ComponentView::RootDir,
            Component::CurDir => ComponentView::CurDir,
            Component::ParentDir => ComponentView::ParentDir,
            Component::Normal(s) => ComponentView::Normal(s@),
        }
    }
}

impl Component {
    /// A plain name component.
    pub fn normal(name: &str) -> (c: Component)
        ensures
            c@ == ComponentView::Normal(name@),
    {
        Component::Normal(name.to_owned())
    }

    /// A copy of this component.
    pub fn copy(&self) -> (c: Component)
        ensures
            c@ == self@,
    {
        match self {
            Component::Prefix(s) => Component::Prefix(s.clone()),
            Component::RootDir => Component::RootDir,
            Component::CurDir => Component::CurDir,
            Component::ParentDir => Component::ParentDir,
            Component::Normal(s) => Component::Normal(s.clone()),
        }
    }

    /// Whether two components are equal.
    pub fn same(&self, other: &Component) -> (b: bool)
        ensures
            b == (self@ == other@),
    {
        match (self, other) {
            (Component::Prefix(a), Component::Prefix(b)) => a.eq(b),
            (Component::RootDir, Component::RootDir) => true,
            (Component::CurDir, Component::CurDir) => true,
            (Component::ParentDir, Component::ParentDir) => true,
            (Component::Normal(a), Component::Normal(b)) => a.eq(b),
            _ => false,
        }
    }

    /// Whether this is a plain name.
    pub fn is_normal(&self) -> (b: bool)
        ensures
            b == (self@ is Normal),
    {
        match self {
            Component::Normal(_) => true,
            _ => false,
        }
    }
}

/// A path, held as its components.
#[derive(Debug)]
pub struct FsPath {
    comps: Vec<Component>,
}

/// The views of a vector of components.
pub open spec fn comps_view(v: Seq<Component>) -> Seq<ComponentView> {
    v.map_values(|c: Component| c@)
}

impl View for FsPath {
    type V = Seq<ComponentView>;

    closed spec fn view(&self) -> Seq<ComponentView> {
        comps_view(self.comps@)
    }
}

impl FsPath {
    /// Every path holds its prefix and root only where `Path::components`
    /// puts them.
    #[verifier::type_invariant]
    spec fn components_in_place(self) -> bool {
        well_formed(comps_view(self.comps@))
    }
}

/// Whether a path starts with a prefix or a root, so that joining it onto
/// another path replaces (all or most of) that path.
pub open spec fn has_prefix(p: Seq<ComponentView>) -> bool {
    p.len() > 0 && p[0] is Prefix
}

pub open spec fn starts_at_root(p: Seq<ComponentView>) -> bool {
    p.len() > 0 && p[0] is RootDir
}

/// `p` without any `.` component.
pub open spec fn without_cur_dir(p: Seq<ComponentView>) -> Seq<ComponentView> {
    p.filter(|c: ComponentView| !(c is CurDir))
}

/// The components of `base` joined with `p`, as `Path::join` documents it:
/// a path with a prefix replaces `base`; a path with a root but no prefix
/// replaces everything of `base` but its prefix; any other path is appended,
/// where a `.` only survives at the very start of the result.
pub open spec fn spec_join(base: Seq<ComponentView>, p: Seq<ComponentView>) -> Seq<ComponentView> {
    if has_prefix(p) {
        p
    } else if starts_at_root(p) {
        if has_prefix(base) {
            seq![base[0]] + p
        } else {
            p
        }
    } else if base.len() == 0 {
        p
    } else {
        base + without_cur_dir(p)
    }
}

/// The parent of a path, as `Path::parent` documents it: the path without
/// its last component when that is a name, `.` or `..`; none for a path
/// that is empty or ends at a root or prefix.
pub open spec fn spec_parent(p: Seq<ComponentView>) -> Option<Seq<ComponentView>> {
    if p.len() > 0 && (p.last() is Normal || p.last() is CurDir || p.last() is ParentDir) {
        Some(p.drop_last())
    } else {
        None
    }
}

/// Whether a Windows prefix carries a root of its own, as
/// `Prefix::has_implicit_root` tells: every kind but a plain drive such as
/// `C:` (verbatim `\\?\…`, device `\\.\…` and UNC `\\server\share`
/// prefixes do).
pub open spec fn prefix_has_implicit_root(s: Seq<char>) -> bool {
    !(s.len() == 2 && s[1] == ':')
}

/// Whether a path is absolute on the given platform, as `Path::is_absolute`
/// has it: on Windows it needs a prefix and a root, where the root may be
/// the prefix's own; elsewhere a root.
pub open spec fn spec_is_absolute(p: Seq<ComponentView>, windows: bool) -> bool {
    if windows {
        p.len() > 0 && p[0] is Prefix && ((p.len() > 1 && p[1] is RootDir) || prefix_has_implicit_root(
            p[0]->Prefix_0,
        ))
    } else {
        starts_at_root(p)
    }
}

/// One step of lexical cleaning: `.` is dropped, `..` removes a preceding
/// name (and is kept when there is none), anything else is appended.
pub open spec fn clean_step(r: Seq<ComponentView>, c: ComponentView) -> Seq<ComponentView> {
    match c {
        ComponentView::CurDir => r,
        ComponentView::ParentDir => {
            if r.len() > 0 && r.last() is Normal {
                r.drop_last()
            } else {
                r.push(ComponentView::ParentDir)
            }
        },
        _ => r.push(c),
    }
}

/// A path with `.` and `..` removed lexically, without consulting the file
/// system.
pub open spec fn spec_clean(p: Seq<ComponentView>) -> Seq<ComponentView>
    decreases p.len(),
{
    if p.len() == 0 {
        seq![]
    } else {
        clean_step(spec_clean(p.drop_last()), p.last())
    }
}

/// A path that holds no `.` and in which no `..` directly follows a name.
pub open spec fn is_clean(p: Seq<ComponentView>) -> bool {
    &&& forall|i: int| 0 <= i < p.len() ==> !(#[trigger] p[i] is CurDir)
    &&& forall|i: int| 0 < i < p.len() && #[trigger] p[i] is ParentDir ==> !(p[i - 1] is Normal)
}

/// Whether the components of `parent` begin those of `child`, which is when
/// `child.strip_prefix(parent)` succeeds.
pub open spec fn spec_starts_with(child: Seq<ComponentView>, parent: Seq<ComponentView>) -> bool {
    parent.len() <= child.len() && child.subrange(0, parent.len() as int) == parent
}

/// Whether `child` lies strictly inside `parent`.
pub open spec fn spec_contains(parent: Seq<ComponentView>, child: Seq<ComponentView>) -> bool {
    parent != child && spec_starts_with(child, parent)
}

/// Whether a path's prefix and root only stand where `Path::components`
/// puts them: a prefix first, a root first or right after the prefix.
pub open spec fn well_formed(p: Seq<ComponentView>) -> bool {
    &&& forall|i: int| 0 < i < p.len() ==> !(#[trigger] p[i] is Prefix)
    &&& forall|i: int|
        0 < i < p.len() && #[trigger] p[i] is RootDir ==> i == 1 && p[0] is Prefix
}

/// Whether every `..` of a path stands before all of its names.
pub open spec fn parents_lead(p: Seq<ComponentView>) -> bool {
    forall|i: int, j: int| 0 <= i < j < p.len() && #[trigger] p[i] is Normal ==> #[trigger] p[j] is Normal
}

proof fn lemma_comps_view_push(v: Seq<Component>, c: Component)
    ensures
        comps_view(v.push(c)) == comps_view(v).push(c@),
{
    assert(comps_view(v.push(c)) =~= comps_view(v).push(c@));
}

proof fn lemma_wf_subrange(p: Seq<ComponentView>, a: int, b: int)
    requires
        well_formed(p),
        0 <= a <= b <= p.len(),
    ensures
        well_formed(p.subrange(a, b)),
{
    let q = p.subrange(a, b);
    assert forall|i: int| 0 < i < q.len() implies !(#[trigger] q[i] is Prefix) by {
        assert(q[i] == p[a + i]);
    }
    assert forall|i: int| 0 < i < q.len() && #[trigger] q[i] is RootDir implies i == 1 && q[0] is Prefix by {
        assert(q[i] == p[a + i]);
        assert(q[0] == p[a]);
    }
}

proof fn lemma_wf_push(p: Seq<ComponentView>, c: ComponentView)
    requires
        well_formed(p),
        p.len() == 0 || !(c is Prefix),
        c is RootDir ==> p.len() == 0 || (p.len() == 1 && p[0] is Prefix),
    ensures
        well_formed(p.push(c)),
{
    let q = p.push(c);
    assert forall|i: int| 0 < i < q.len() implies !(#[trigger] q[i] is Prefix) by {
        if i < p.len() {
            assert(q[i] == p[i]);
        }
    }
    assert forall|i: int| 0 < i < q.len() && #[trigger] q[i] is RootDir implies i == 1 && q[0] is Prefix by {
        if i < p.len() {
            assert(q[i] == p[i]);
        }
        if p.len() > 0 {
            assert(q[0] == p[0]);
        }
    }
}

/// A cleaned path holds no `.`, and no `..` in it directly follows a name.
pub proof fn lemma_clean_removes_dots(p: Seq<ComponentView>)
    ensures
        is_clean(spec_clean(p)),
    decreases p.len(),
{
    if p.len() > 0 {
        lemma_clean_removes_dots(p.drop_last());
        let r = spec_clean(p.drop_last());
        let c = p.last();
        let out = clean_step(r, c);
        assert(out == spec_clean(p));
        match c {
            ComponentView::CurDir => {},
            ComponentView::ParentDir => {
                if r.len() > 0 && r.last() is Normal {
                    assert forall|i: int| 0 < i < out.len() && #[trigger] out[i] is ParentDir implies !(out[i - 1] is Normal) by {
                        assert(out[i] == r[i]);
                        assert(out[i - 1] == r[i - 1]);
                    }
                } else {
                    assert forall|i: int| 0 < i < out.len() && #[trigger] out[i] is ParentDir implies !(out[i - 1] is Normal) by {
                        if i < r.len() {
                            assert(out[i] == r[i]);
                        }
                        assert(out[i - 1] == r[i - 1]);
                    }
                    assert forall|i: int| 0 <= i < out.len() implies !(#[trigger] out[i] is CurDir) by {
                        if i < r.len() {
                            assert(out[i] == r[i]);
                        }
                    }
                }
            },
            _ => {
                assert forall|i: int| 0 < i < out.len() && #[trigger] out[i] is ParentDir implies !(out[i - 1] is Normal) by {
                    assert(out[i] == r[i]);
                    assert(out[i - 1] == r[i - 1]);
                }
                assert forall|i: int| 0 <= i < out.len() implies !(#[trigger] out[i] is CurDir) by {
                    if i < r.len() {
                        assert(out[i] == r[i]);
                    }
                }
            },
        }
    }
}

/// Cleaning leaves a clean path unchanged.
proof fn lemma_clean_fixes_clean(p: Seq<ComponentView>)
    requires
        is_clean(p),
    ensures
        spec_clean(p) == p,
    decreases p.len(),
{
    if p.len() > 0 {
        let q = p.drop_last();
        assert(is_clean(q)) by {
            assert forall|i: int| 0 <= i < q.len() implies !(#[trigger] q[i] is CurDir) by {
                assert(q[i] == p[i]);
            }
            assert forall|i: int| 0 < i < q.len() && #[trigger] q[i] is ParentDir implies !(q[i - 1] is Normal) by {
                assert(q[i] == p[i]);
                assert(q[i - 1] == p[i - 1]);
            }
        }
        lemma_clean_fixes_clean(q);
        let c = p.last();
        assert(!(c is CurDir)) by {
            assert(p[p.len() - 1] == c);
        }
        if c is ParentDir && q.len() > 0 {
            assert(p[p.len() - 1] is ParentDir);
            assert(q.last() == p[p.len() - 2]);
        }
        assert(q.push(c) =~= p);
    }
}

/// Cleaning a path twice gives what cleaning it once gives.
pub proof fn lemma_clean_idempotent(p: Seq<ComponentView>)
    ensures
        spec_clean(spec_clean(p)) == spec_clean(p),
{
    lemma_clean_removes_dots(p);
    lemma_clean_fixes_clean(spec_clean(p));
}

/// In a cleaned path every `..` stands before all names, when the path's
/// prefix and root stand where `Path::components` puts them.
pub proof fn lemma_clean_parents_lead(p: Seq<ComponentView>)
    requires
        well_formed(p),
    ensures
        parents_lead(spec_clean(p)),
    decreases p.len(),
{
    if p.len() > 0 {
        let q = p.drop_last();
        assert(well_formed(q)) by {
            assert forall|i: int| 0 < i < q.len() implies !(#[trigger] q[i] is Prefix) by {
                assert(q[i] == p[i]);
            }
            assert forall|i: int| 0 < i < q.len() && #[trigger] q[i] is RootDir implies i == 1 && q[0] is Prefix by {
                assert(q[i] == p[i]);
            }
        }
        lemma_clean_parents_lead(q);
        let r = spec_clean(q);
        let c = p.last();
        let out = spec_clean(p);
        assert(out == clean_step(r, c));
        lemma_clean_has_name_ends_with_name(q);
        if c is Prefix || c is RootDir {
            // Only at the start of a well formed path, where nothing has been kept.
            assert(p[p.len() - 1] == c);
            lemma_clean_no_name_when_prefix_only(p, q);
        }
        assert forall|i: int, j: int| 0 <= i < j < out.len() && #[trigger] out[i] is Normal implies #[trigger] out[j] is Normal by {
            match c {
                ComponentView::CurDir => {},
                ComponentView::ParentDir => {
                    if r.len() > 0 && r.last() is Normal {
                        assert(out[i] == r[i]);
                        assert(out[j] == r[j]);
                    } else {
                        assert(out[i] == r[i]);
                        if j < r.len() {
                            assert(out[j] == r[j]);
                        } else {
                            // r holds a name at i, so it ends with a name.
                            assert(r[i] is Normal);
                            assert(r.last() is Normal);
                        }
                    }
                },
                _ => {
                    assert(out[i] == r[i] || i == r.len());
                    if j < r.len() {
                        assert(out[i] == r[i]);
                        assert(out[j] == r[j]);
                    } else {
                        assert(out[i] == r[i]);
                        assert(r[i] is Normal);
                    }
                },
            }
        }
    }
}

/// A cleaned path that holds a name ends with a name, when no root or prefix
/// was appended after that name.
proof fn lemma_clean_has_name_ends_with_name(p: Seq<ComponentView>)
    requires
        well_formed(p),
    ensures
        forall|i: int|
            0 <= i < spec_clean(p).len() && #[trigger] spec_clean(p)[i] is Normal ==> spec_clean(
                p,
            ).last() is Normal,
    decreases p.len(),
{
    if p.len() > 0 {
        let q = p.drop_last();
        assert(well_formed(q)) by {
            assert forall|i: int| 0 < i < q.len() implies !(#[trigger] q[i] is Prefix) by {
                assert(q[i] == p[i]);
            }
            assert forall|i: int| 0 < i < q.len() && #[trigger] q[i] is RootDir implies i == 1 && q[0] is Prefix by {
                assert(q[i] == p[i]);
            }
        }
        lemma_clean_has_name_ends_with_name(q);
        lemma_clean_parents_lead(q);
        let r = spec_clean(q);
        let c = p.last();
        let out = spec_clean(p);
        if c is Prefix || c is RootDir {
            assert(p[p.len() - 1] == c);
            lemma_clean_no_name_when_prefix_only(p, q);
        }
        assert forall|i: int| 0 <= i < out.len() && #[trigger] out[i] is Normal implies out.last() is Normal by {
            match c {
                ComponentView::CurDir => {},
                ComponentView::ParentDir => {
                    if r.len() > 0 && r.last() is Normal {
                        assert(out[i] == r[i]);
                        // r's names all stand after its `..`, so the one before the last is a name.
                        assert(r[r.len() - 2] is Normal);
                    } else {
                        assert(out[i] == r[i]);
                    }
                },
                ComponentView::Normal(_) => {},
                _ => {},
            }
        }
    }
}

/// In a well formed path a prefix or root at the end means everything before
/// it cleans to no name at all.
proof fn lemma_clean_no_name_when_prefix_only(p: Seq<ComponentView>, q: Seq<ComponentView>)
    requires
        well_formed(p),
        p.len() > 0,
        q == p.drop_last(),
        p.last() is Prefix || p.last() is RootDir,
    ensures
        q.len() == 0 || (q.len() == 1 && q[0] is Prefix),
        forall|i: int| 0 <= i < spec_clean(q).len() ==> !(#[trigger] spec_clean(q)[i] is Normal),
{
    assert(p[p.len() - 1] == p.last());
    if q.len() == 1 {
        reveal_with_fuel(spec_clean, 2);
        assert(spec_clean(q.drop_last()) =~= Seq::<ComponentView>::empty());
        assert(spec_clean(q) =~= seq![q[0]]);
    } else {
        assert(spec_clean(q) =~= Seq::<ComponentView>::empty());
    }
}

/// Whether the components hold a prefix only first and a root only first
/// or right after the prefix.
fn components_well_formed(v: &Vec<Component>) -> (b: bool)
    ensures
        b == well_formed(comps_view(v@)),
{
    let ghost p = comps_view(v@);
    let n = v.len();
    let mut i: usize = 1;
    while i < n
        invariant
            n == v@.len(),
            p == comps_view(v@),
            1 <= i,
            forall|k: int| 0 < k < i && k < n ==> !(#[trigger] p[k] is Prefix),
            forall|k: int| 0 < k < i && k < n && #[trigger] p[k] is RootDir ==> k == 1 && p[0] is Prefix,
        decreases n - i,
    {
        match &v[i] {
            Component::Prefix(_) => {
                assert(p[i as int] is Prefix);
                return false;
            },
            Component::RootDir => {
                let after_prefix = i == 1 && match &v[0] {
                    Component::Prefix(_) => true,
                    _ => false,
                };
                if !after_prefix {
                    assert(p[i as int] is RootDir);
                    return false;
                }
            },
            _ => {},
        }
        i = i + 1;
    }
    true
}

impl FsPath {
    /// The empty path.
    pub fn new() -> (p: FsPath)
        ensures
            p@ == Seq::<ComponentView>::empty(),
    {
        let p = FsPath { comps: Vec::new() };
        assert(p@ =~= Seq::<ComponentView>::empty());
        p
    }

    /// A path made of the given components, in order, when its prefix and
    /// root stand where `Path::components` puts them (as they always do in
    /// the components of a `std` path); none otherwise.
    pub fn from_components(comps: Vec<Component>) -> (p: Option<FsPath>)
        ensures
            p is Some <==> well_formed(comps_view(comps@)),
            p matches Some(q) ==> q@ == comps_view(comps@),
    {
        if components_well_formed(&comps) {
            Some(FsPath { comps })
        } else {
            None
        }
    }

    /// A relative path of one plain name.
    pub fn from_name(name: &str) -> (p: FsPath)
        ensures
            p@ == seq![ComponentView::Normal(name@)],
    {
        let mut comps: Vec<Component> = Vec::new();
        comps.push(Component::normal(name));
        let p = FsPath { comps };
        assert(p@ =~= seq![ComponentView::Normal(name@)]);
        p
    }

    /// The number of components.
    pub fn len(&self) -> (n: usize)
        ensures
            n == self@.len(),
    {
        self.comps.len()
    }

    /// The component at `i`.
    pub fn component(&self, i: usize) -> (c: &Component)
        requires
            i < self@.len(),
        ensures
            c@ == self@[i as int],
    {
        &self.comps[i]
    }

    /// A copy of the components, in order.
    pub fn components(&self) -> (v: Vec<Component>)
        ensures
            comps_view(v@) == self@,
    {
        let mut v: Vec<Component> = Vec::new();
        let n = self.comps.len();
        let mut i: usize = 0;
        while i < n
            invariant
                n == self.comps.len(),
                i <= n,
                comps_view(v@) == self@.subrange(0, i as int),
            decreases n - i,
        {
            let c = self.comps[i].copy();
            proof {
                lemma_comps_view_push(v@, c);
            }
            v.push(c);
            assert(comps_view(v@) =~= self@.subrange(0, i + 1));
            i = i + 1;
        }
        assert(self@.subrange(0, n as int) =~= self@);
        v
    }

    /// A copy of this path.
    pub fn copy(&self) -> (p: FsPath)
        ensures
            p@ == self@,
    {
        proof {
            use_type_invariant(self);
        }
        FsPath { comps: self.components() }
    }

    /// Whether two paths have the same components.
    pub fn same(&self, other: &FsPath) -> (b: bool)
        ensures
            b == (self@ == other@),
    {
        if self.comps.len() != other.comps.len() {
            return false;
        }
        let n = self.comps.len();
        let mut i: usize = 0;
        while i < n
            invariant
                n == self.comps.len(),
                n == other.comps.len(),
                i <= n,
                self@.subrange(0, i as int) == other@.subrange(0, i as int),
            decreases n - i,
        {
            if !self.comps[i].same(&other.comps[i]) {
                assert(self@[i as int] != other@[i as int]);
                return false;
            }
            assert(self@.subrange(0, i + 1) =~= self@.subrange(0, i as int).push(self@[i as int]));
            assert(other@.subrange(0, i + 1) =~= other@.subrange(0, i as int).push(other@[i as int]));
            i = i + 1;
        }
        assert(self@ =~= self@.subrange(0, n as int));
        assert(other@ =~= other@.subrange(0, n as int));
        true
    }

    /// Appends one component; a prefix only to an empty path, a root only
    /// to an empty path or one that is just a prefix.
    pub fn push_component(&mut self, c: Component)
        requires
            old(self)@.len() == 0 || !(c@ is Prefix),
            c@ is RootDir ==> old(self)@.len() == 0 || (old(self)@.len() == 1 && old(self)@[0] is Prefix),
        ensures
            final(self)@ == old(self)@.push(c@),
    {
        proof {
            use_type_invariant(&*self);
            lemma_wf_push(self@, c@);
            lemma_comps_view_push(self.comps@, c);
        }
        let mut comps: Vec<Component> = Vec::new();
        std::mem::swap(&mut comps, &mut self.comps);
        comps.push(c);
        *self = FsPath { comps };
    }

    /// This path joined with `p`, as `Path::join` does it.
    pub fn join(&self, p: &FsPath) -> (r: FsPath)
        ensures
            r@ == spec_join(self@, p@),
    {
        proof {
            use_type_invariant(self);
            use_type_invariant(p);
        }
        let n = p.comps.len();
        if n > 0 {
            match &p.comps[0] {
                Component::Prefix(_) => {
                    return p.copy();
                },
                Component::RootDir => {
                    if self.comps.len() > 0 {
                        if let Component::Prefix(_) = &self.comps[0] {
                            let mut r = FsPath::new();
                            r.push_component(self.comps[0].copy());
                            let mut i: usize = 0;
                            while i < n
                                invariant
                                    n == p.comps.len(),
                                    n > 0,
                                    i <= n,
                                    self@.len() > 0,
                                    self@[0] is Prefix,
                                    p@[0] is RootDir,
                                    well_formed(p@),
                                    r@ == seq![self@[0]] + p@.subrange(0, i as int),
                                decreases n - i,
                            {
                                assert(r@[0] == self@[0]);
                                assert(i > 0 ==> !(p@[i as int] is RootDir) && !(p@[i as int] is Prefix));
                                r.push_component(p.comps[i].copy());
                                assert(p@.subrange(0, i + 1) =~= p@.subrange(0, i as int).push(p@[i as int]));
                                i = i + 1;
                            }
                            assert(p@.subrange(0, n as int) =~= p@);
                            return r;
                        }
                    }
                    return p.copy();
                },
                _ => {},
            }
        }
        if self.comps.len() == 0 {
            return p.copy();
        }
        let mut r = self.copy();
        let mut i: usize = 0;
        while i < n
            invariant
                n == p.comps.len(),
                i <= n,
                self@.len() > 0,
                well_formed(p@),
                n > 0 ==> !(p@[0] is Prefix) && !(p@[0] is RootDir),
                r@ == self@ + without_cur_dir(p@.subrange(0, i as int)),
            decreases n - i,
        {
            assert(!(p@[i as int] is Prefix) && !(p@[i as int] is RootDir));
            let ghost before = p@.subrange(0, i as int);
            assert(p@.subrange(0, i + 1) =~= before.push(p@[i as int]));
            reveal_with_fuel(Seq::filter, 1);
            assert(p@.subrange(0, i + 1).drop_last() =~= before);
            match &p.comps[i] {
                Component::CurDir => {},
                _ => {
                    r.push_component(p.comps[i].copy());
                },
            }
            i = i + 1;
        }
        assert(p@.subrange(0, n as int) =~= p@);
        r
    }

    /// This path joined with one plain name.
    pub fn join_name(&self, name: &str) -> (r: FsPath)
        ensures
            r@ == spec_join(self@, seq![ComponentView::Normal(name@)]),
    {
        self.join(&FsPath::from_name(name))
    }

    /// The parent of this path, as `Path::parent` gives it.
    pub fn parent(&self) -> (r: Option<FsPath>)
        ensures
            r matches Some(q) ==> spec_parent(self@) == Some(q@),
            r is None ==> spec_parent(self@) is None,
    {
        proof {
            use_type_invariant(self);
        }
        let n = self.comps.len();
        if n == 0 {
            return None;
        }
        match &self.comps[n - 1] {
            Component::Prefix(_) => None,
            Component::RootDir => None,
            _ => {
                let mut r = FsPath::new();
                let mut i: usize = 0;
                while i < n - 1
                    invariant
                        n == self.comps.len(),
                        n > 0,
                        i <= n - 1,
                        well_formed(self@),
                        r@ == self@.subrange(0, i as int),
                    decreases n - 1 - i,
                {
                    if i > 0 {
                        assert(r@[0] == self@[0]);
                        assert(self@[i as int] is RootDir ==> i == 1 && self@[0] is Prefix);
                    }
                    r.push_component(self.comps[i].copy());
                    assert(self@.subrange(0, i + 1) =~= self@.subrange(0, i as int).push(self@[i as int]));
                    i = i + 1;
                }
                assert(self@.subrange(0, n - 1) =~= self@.drop_last());
                Some(r)
            },
        }
    }

    /// Truncates this path to its parent, as `PathBuf::pop` does; returns
    /// whether there was a parent.
    pub fn pop(&mut self) -> (b: bool)
        ensures
            b == (spec_parent(old(self)@) is Some),
            b ==> Some(final(self)@) == spec_parent(old(self)@),
            !b ==> final(self)@ == old(self)@,
    {
        match self.parent() {
            Some(q) => {
                *self = q;
                true
            },
            None => false,
        }
    }

    /// Whether this path is absolute on the given platform.
    pub fn is_absolute(&self, windows: bool) -> (b: bool)
        ensures
            b == spec_is_absolute(self@, windows),
    {
        if windows {
            if self.comps.len() == 0 {
                return false;
            }
            match &self.comps[0] {
                Component::Prefix(s) => {
                    let rooted = self.comps.len() > 1 && match &self.comps[1] {
                        Component::RootDir => true,
                        _ => false,
                    };
                    let text = s.as_str();
                    let drive = text.unicode_len() == 2 && text.get_char(1) == ':';
                    rooted || !drive
                },
                _ => false,
            }
        } else {
            self.comps.len() > 0 && match &self.comps[0] {
                Component::RootDir => true,
                _ => false,
            }
        }
    }

    /// Whether the components of `base` begin those of this path.
    pub fn starts_with(&self, base: &FsPath) -> (b: bool)
        ensures
            b == spec_starts_with(self@, base@),
    {
        let n = base.comps.len();
        if n > self.comps.len() {
            return false;
        }
        let mut i: usize = 0;
        while i < n
            invariant
                n == base.comps.len(),
                n <= self.comps.len(),
                i <= n,
                self@.subrange(0, i as int) == base@.subrange(0, i as int),
            decreases n - i,
        {
            if !self.comps[i].same(&base.comps[i]) {
                assert(self@.subrange(0, n as int)[i as int] != base@[i as int]);
                return false;
            }
            assert(self@.subrange(0, i + 1) =~= self@.subrange(0, i as int).push(self@[i as int]));
            assert(base@.subrange(0, i + 1) =~= base@.subrange(0, i as int).push(base@[i as int]));
            i = i + 1;
        }
        assert(base@ =~= base@.subrange(0, n as int));
        true
    }

    /// What is left of this path after `base`, as `Path::strip_prefix` gives
    /// it; none when `base` does not begin this path.
    pub fn strip_prefix(&self, base: &FsPath) -> (r: Option<FsPath>)
        ensures
            r is Some == spec_starts_with(self@, base@),
            r matches Some(q) ==> q@ == self@.subrange(base@.len() as int, self@.len() as int),
    {
        if !self.starts_with(base) {
            return None;
        }
        proof {
            use_type_invariant(self);
        }
        let n = self.comps.len();
        let start = base.comps.len();
        let mut r = FsPath::new();
        let mut i: usize = start;
        while i < n
            invariant
                n == self.comps.len(),
                start <= i <= n,
                well_formed(self@),
                r@ == self@.subrange(start as int, i as int),
            decreases n - i,
        {
            if i > 0 {
                assert(self@[i as int] is RootDir ==> i == 1 && self@[0] is Prefix);
            }
            if i > start {
                assert(r@[0] == self@[start as int]);
            }
            r.push_component(self.comps[i].copy());
            assert(self@.subrange(start as int, i + 1) =~= self@.subrange(start as int, i as int).push(self@[i as int]));
            i = i + 1;
        }
        Some(r)
    }
}

/// Lexically removes `.` and `..` components without touching the file
/// system (the path may not exist yet). The result holds no `.`, no `..`
/// directly after a name, and every `..` in it stands before all names.
pub fn clean_path(path: &FsPath) -> (r: FsPath)
    ensures
        r@ == spec_clean(path@),
        is_clean(r@),
        parents_lead(r@),
{
    proof {
        use_type_invariant(path);
        lemma_clean_removes_dots(path@);
        lemma_clean_parents_lead(path@);
    }
    let mut result = FsPath::new();
    let n = path.comps.len();
    let mut i: usize = 0;
    while i < n
        invariant
            n == path.comps.len(),
            i <= n,
            well_formed(path@),
            result@ == spec_clean(path@.subrange(0, i as int)),
        decreases n - i,
    {
        let ghost before = path@.subrange(0, i as int);
        assert(path@.subrange(0, i + 1).drop_last() =~= before);
        assert(path@.subrange(0, i + 1).last() == path@[i as int]);
        proof {
            if path@[i as int] is Prefix || path@[i as int] is RootDir {
                // A prefix or root comes only at the start, where nothing but
                // a prefix has been kept.
                if i > 0 {
                    assert(!(path@[i as int] is Prefix));
                }
                lemma_wf_subrange(path@, 0, i + 1);
                lemma_clean_no_name_when_prefix_only(path@.subrange(0, i + 1), before);
                lemma_clean_fixes_clean(before);
            }
        }
        match &path.comps[i] {
            Component::CurDir => {},
            Component::ParentDir => {
                let last_is_name = result.comps.len() > 0 && result.comps[result.comps.len() - 1].is_normal();
                if last_is_name {
                    let popped = result.pop();
                    assert(popped);
                } else {
                    result.push_component(Component::ParentDir);
                }
            },
            other => {
                result.push_component(other.copy());
            },
        }
        i = i + 1;
    }
    assert(path@.subrange(0, n as int) =~= path@);
    result
}

/// Whether `child` lies strictly inside `parent`.
pub fn path_contains(parent: &FsPath, child: &FsPath) -> (b: bool)
    ensures
        b == spec_contains(parent@, child@),
{
    !parent.same(child) && child.starts_with(parent)
}

/// Joining a path onto an absolute path gives an absolute path, unless the
/// joined path carries a prefix of its own without being absolute.
pub proof fn lemma_join_keeps_absolute(base: Seq<ComponentView>, p: Seq<ComponentView>, windows: bool)
    ensures
        spec_is_absolute(base, windows) && (has_prefix(p) ==> spec_is_absolute(p, windows))
            ==> spec_is_absolute(spec_join(base, p), windows),
{
    if spec_is_absolute(base, windows) && (has_prefix(p) ==> spec_is_absolute(p, windows)) {
        let r = spec_join(base, p);
        if has_prefix(p) {
        } else if starts_at_root(p) {
            if has_prefix(base) {
                assert(r[0] == base[0]);
                assert(r[1] == p[0]);
            }
        } else {
            assert(r[0] == base[0]);
            if windows && base.len() > 1 {
                assert(r[1] == base[1]);
            }
        }
    }
}

/// A path never lies strictly inside itself.
pub proof fn lemma_contains_irreflexive(p: Seq<ComponentView>)
    ensures
        !spec_contains(p, p),
{
}

/// If `a` lies inside `b`, then `b` does not lie inside `a`.
pub proof fn lemma_contains_antisymmetric(a: Seq<ComponentView>, b: Seq<ComponentView>)
    requires
        spec_contains(a, b),
    ensures
        !spec_contains(b, a),
{
    if spec_contains(b, a) {
        assert(a.len() == b.len());
        assert(b =~= b.subrange(0, a.len() as int));
    }
}

/// Lying inside is transitive.
pub proof fn lemma_contains_transitive(a: Seq<ComponentView>, b: Seq<ComponentView>, c: Seq<ComponentView>)
    requires
        spec_contains(a, b),
        spec_contains(b, c),
    ensures
        spec_contains(a, c),
{
    assert(c.subrange(0, a.len() as int) =~= c.subrange(0, b.len() as int).subrange(0, a.len() as int));
    assert(a.len() < b.len()) by {
        if a.len() == b.len() {
            assert(b =~= b.subrange(0, a.len() as int));
        }
    }
    assert(a.len() < c.len());
}

/// Joining a relative path onto a non-empty path that has no `.` appends its
/// components.
pub proof fn lemma_join_relative_appends(base: Seq<ComponentView>, p: Seq<ComponentView>)
    requires
        base.len() > 0,
        forall|i: int| 0 <= i < p.len() ==> (#[trigger] p[i] is Normal || p[i] is ParentDir),
    ensures
        spec_join(base, p) == base + p,
{
    reveal_with_fuel(Seq::filter, 1);
    assert(without_cur_dir(p) == p) by {
        lemma_filter_keeps_all(p);
    }
}

proof fn lemma_filter_keeps_all(p: Seq<ComponentView>)
    requires
        forall|i: int| 0 <= i < p.len() ==> (#[trigger] p[i] is Normal || p[i] is ParentDir),
    ensures
        without_cur_dir(p) == p,
    decreases p.len(),
{
    reveal_with_fuel(Seq::filter, 1);
    if p.len() > 0 {
        let q = p.drop_last();
        assert forall|i: int| 0 <= i < q.len() implies (#[trigger] q[i] is Normal || q[i] is ParentDir) by {
            assert(q[i] == p[i]);
        }
        lemma_filter_keeps_all(q);
        assert(p[p.len() - 1] == p.last());
        assert(q.push(p.last()) =~= p);
    }
}

} // verus!
