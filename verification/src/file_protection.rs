//! Protection of files that rgl did not create. For each export folder rgl
//! records the files it exported there; before it clears a folder for the
//! next export it checks that every file found there is one it recorded.

use vstd::prelude::*;
use crate::path::{ComponentView, Component, FsPath, spec_starts_with};

verus! {

/// The character views of a list of strings.
pub open spec fn strings_view(v: Seq<String>) -> Seq<Seq<char>> {
    v.map_values(|s: String| s@)
}

/// The recorded files of each export folder, by the folder's key; each key
/// at most once.
pub struct FileLists {
    entries: Vec<(String, Vec<String>)>,
}

/// Whether entry `i` has key `k`.
pub open spec fn has_key(e: Seq<(String, Vec<String>)>, k: Seq<char>, i: int) -> bool {
    0 <= i < e.len() && e[i].0@ == k
}

/// Whether no two entries share a key.
pub open spec fn keys_unique(e: Seq<(String, Vec<String>)>) -> bool {
    forall|i: int, j: int|
        0 <= i < e.len() && 0 <= j < e.len() && i != j ==> (#[trigger] e[i]).0@ != (#[trigger] e[j]).0@
}

/// The map that a list of entries stands for.
pub open spec fn map_of(e: Seq<(String, Vec<String>)>) -> Map<Seq<char>, Seq<Seq<char>>> {
    Map::new(
        |k: Seq<char>| exists|i: int| #[trigger] has_key(e, k, i),
        |k: Seq<char>| strings_view(e[choose|i: int| #[trigger] has_key(e, k, i)].1@),
    )
}

proof fn lemma_map_of_at(e: Seq<(String, Vec<String>)>, k: Seq<char>, i: int)
    requires
        keys_unique(e),
        has_key(e, k, i),
    ensures
        map_of(e).contains_key(k),
        map_of(e)[k] == strings_view(e[i].1@),
{
    let j = choose|j: int| #[trigger] has_key(e, k, j);
    assert(has_key(e, k, j));
    assert(j == i);
}

proof fn lemma_map_of_set(e: Seq<(String, Vec<String>)>, i: int, key: String, files: Vec<String>)
    requires
        keys_unique(e),
        has_key(e, key@, i),
    ensures
        keys_unique(e.update(i, (key, files))),
        map_of(e.update(i, (key, files))) == map_of(e).insert(key@, strings_view(files@)),
{
    let n = e.update(i, (key, files));
    assert forall|a: int, b: int| 0 <= a < n.len() && 0 <= b < n.len() && a != b implies (#[trigger] n[a]).0@ != (#[trigger] n[b]).0@ by {
        if a != i && b != i {
            assert(n[a] == e[a] && n[b] == e[b]);
        } else if a == i {
            assert(n[b] == e[b]);
            assert(e[i].0@ == key@);
        } else {
            assert(n[a] == e[a]);
            assert(e[i].0@ == key@);
        }
    }
    let m = map_of(e).insert(key@, strings_view(files@));
    assert forall|k: Seq<char>| map_of(n).dom().contains(k) <==> m.dom().contains(k) by {
        if map_of(n).dom().contains(k) {
            let j = choose|j: int| #[trigger] has_key(n, k, j);
            if j != i {
                assert(has_key(e, k, j));
            }
        }
        if m.dom().contains(k) && k != key@ {
            let j = choose|j: int| #[trigger] has_key(e, k, j);
            assert(j != i);
            assert(has_key(n, k, j));
        }
        if k == key@ {
            assert(has_key(n, k, i));
        }
    }
    assert forall|k: Seq<char>| #[trigger] map_of(n).dom().contains(k) implies map_of(n)[k] == m[k] by {
        let j = choose|j: int| #[trigger] has_key(n, k, j);
        lemma_map_of_at(n, k, j);
        if j != i {
            assert(has_key(e, k, j));
            lemma_map_of_at(e, k, j);
        }
    }
    assert(map_of(n) =~= m);
}

proof fn lemma_map_of_push(e: Seq<(String, Vec<String>)>, key: String, files: Vec<String>)
    requires
        keys_unique(e),
        forall|i: int| !#[trigger] has_key(e, key@, i),
    ensures
        keys_unique(e.push((key, files))),
        map_of(e.push((key, files))) == map_of(e).insert(key@, strings_view(files@)),
{
    let n = e.push((key, files));
    assert forall|a: int, b: int| 0 <= a < n.len() && 0 <= b < n.len() && a != b implies (#[trigger] n[a]).0@ != (#[trigger] n[b]).0@ by {
        if a < e.len() && b < e.len() {
            assert(n[a] == e[a] && n[b] == e[b]);
        } else if a < e.len() {
            assert(n[a] == e[a]);
            assert(!has_key(e, key@, a));
        } else {
            assert(n[b] == e[b]);
            assert(!has_key(e, key@, b));
        }
    }
    let m = map_of(e).insert(key@, strings_view(files@));
    assert forall|k: Seq<char>| map_of(n).dom().contains(k) <==> m.dom().contains(k) by {
        if map_of(n).dom().contains(k) {
            let j = choose|j: int| #[trigger] has_key(n, k, j);
            if j < e.len() {
                assert(has_key(e, k, j));
            }
        }
        if m.dom().contains(k) && k != key@ {
            let j = choose|j: int| #[trigger] has_key(e, k, j);
            assert(has_key(n, k, j));
        }
        if k == key@ {
            assert(has_key(n, k, e.len() as int));
        }
    }
    assert forall|k: Seq<char>| #[trigger] map_of(n).dom().contains(k) implies map_of(n)[k] == m[k] by {
        let j = choose|j: int| #[trigger] has_key(n, k, j);
        lemma_map_of_at(n, k, j);
        if j < e.len() {
            assert(has_key(e, k, j));
            lemma_map_of_at(e, k, j);
        }
    }
    assert(map_of(n) =~= m);
}

impl FileLists {
    #[verifier::type_invariant]
    closed spec fn inv(&self) -> bool {
        keys_unique(self.entries@)
    }
}

impl View for FileLists {
    type V = Map<Seq<char>, Seq<Seq<char>>>;

    closed spec fn view(&self) -> Map<Seq<char>, Seq<Seq<char>>> {
        map_of(self.entries@)
    }
}

fn clone_strings(v: &Vec<String>) -> (r: Vec<String>)
    ensures
        r@ == v@,
{
    let mut r: Vec<String> = Vec::new();
    let n = v.len();
    let mut i: usize = 0;
    while i < n
        invariant
            n == v.len(),
            i <= n,
            r@ == v@.subrange(0, i as int),
        decreases n - i,
    {
        r.push(v[i].clone());
        assert(r@ =~= v@.subrange(0, i + 1));
        i = i + 1;
    }
    assert(v@.subrange(0, n as int) =~= v@);
    r
}

impl FileLists {
    /// No folder recorded.
    pub fn new() -> (m: FileLists)
        ensures
            m@ == Map::<Seq<char>, Seq<Seq<char>>>::empty(),
    {
        let m = FileLists { entries: Vec::new() };
        assert(m@ =~= Map::<Seq<char>, Seq<Seq<char>>>::empty());
        m
    }

    fn find(&self, key: &str) -> (r: Option<usize>)
        ensures
            match r {
                Some(i) => has_key(self.entries@, key@, i as int),
                None => forall|i: int| !#[trigger] has_key(self.entries@, key@, i),
            },
    {
        let n = self.entries.len();
        let mut i: usize = 0;
        while i < n
            invariant
                n == self.entries@.len(),
                i <= n,
                forall|j: int| 0 <= j < i ==> self.entries@[j].0@ != key@,
            decreases n - i,
        {
            if self.entries[i].0.eq(&key.to_owned()) {
                return Some(i);
            }
            i = i + 1;
        }
        None
    }

    /// The files recorded for `key`.
    pub fn get(&self, key: &str) -> (r: Option<&Vec<String>>)
        ensures
            match r {
                Some(v) => self@.contains_key(key@) && self@[key@] == strings_view(v@),
                None => !self@.contains_key(key@),
            },
    {
        proof {
            use_type_invariant(self);
        }
        match self.find(key) {
            Some(i) => {
                proof {
                    lemma_map_of_at(self.entries@, key@, i as int);
                }
                Some(&self.entries[i].1)
            },
            None => None,
        }
    }

    /// Records `files` for `key`, replacing what was recorded for it.
    pub fn insert(&mut self, key: String, files: Vec<String>)
        ensures
            final(self)@ == old(self)@.insert(key@, strings_view(files@)),
    {
        proof {
            use_type_invariant(&*self);
        }
        let found = self.find(key.as_str());
        let ghost e = self.entries@;
        let mut entries: Vec<(String, Vec<String>)> = Vec::new();
        std::mem::swap(&mut entries, &mut self.entries);
        match found {
            Some(i) => {
                proof {
                    lemma_map_of_set(e, i as int, key, files);
                }
                entries.set(i, (key, files));
            },
            None => {
                proof {
                    lemma_map_of_push(e, key, files);
                }
                entries.push((key, files));
            },
        }
        self.entries = entries;
    }

    /// The recorded folders and their files, each folder once.
    pub fn entries(&self) -> (r: &Vec<(String, Vec<String>)>)
        ensures
            forall|i: int| 0 <= i < r@.len() ==> self@.contains_key((#[trigger] r@[i]).0@) && self@[r@[i].0@] == strings_view(r@[i].1@),
            forall|k: Seq<char>| #[trigger] self@.contains_key(k) ==> exists|i: int| 0 <= i < r@.len() && r@[i].0@ == k,
            r@.len() == self@.dom().len(),
    {
        proof {
            use_type_invariant(self);
            assert forall|i: int| 0 <= i < self.entries@.len() implies self@.contains_key((#[trigger] self.entries@[i]).0@) && self@[self.entries@[i].0@] == strings_view(self.entries@[i].1@) by {
                lemma_map_of_at(self.entries@, self.entries@[i].0@, i);
            }
            assert forall|k: Seq<char>| #[trigger] self@.contains_key(k) implies exists|i: int| 0 <= i < self.entries@.len() && self.entries@[i].0@ == k by {
                let i = choose|i: int| #[trigger] has_key(self.entries@, k, i);
                assert(self.entries@[i].0@ == k);
            }
            self.lemma_dom_is_keys();
            lemma_keys_len(self.entries@);
        }
        &self.entries
    }
}

/// The set of keys of a list of entries with distinct keys.
spec fn keys_of(e: Seq<(String, Vec<String>)>) -> Set<Seq<char>> {
    Set::new(|k: Seq<char>| exists|i: int| 0 <= i < e.len() && e[i].0@ == k)
}

proof fn lemma_keys_len(e: Seq<(String, Vec<String>)>)
    requires
        forall|i: int, j: int| 0 <= i < e.len() && 0 <= j < e.len() && i != j ==> (#[trigger] e[i]).0@ != (#[trigger] e[j]).0@,
    ensures
        keys_of(e).finite(),
        keys_of(e).len() == e.len(),
    decreases e.len(),
{
    if e.len() == 0 {
        assert(keys_of(e) =~= Set::<Seq<char>>::empty());
    } else {
        let d = e.drop_last();
        assert forall|i: int, j: int| 0 <= i < d.len() && 0 <= j < d.len() && i != j implies (#[trigger] d[i]).0@ != (#[trigger] d[j]).0@ by {
            assert(d[i] == e[i]);
            assert(d[j] == e[j]);
        }
        lemma_keys_len(d);
        let k = e.last().0@;
        assert(!keys_of(d).contains(k)) by {
            if keys_of(d).contains(k) {
                let i = choose|i: int| 0 <= i < d.len() && d[i].0@ == k;
                assert(e[i] == d[i]);
                assert(e[e.len() - 1] == e.last());
            }
        }
        assert(keys_of(e) =~= keys_of(d).insert(k)) by {
            assert forall|x: Seq<char>| keys_of(e).contains(x) implies keys_of(d).insert(k).contains(x) by {
                let i = choose|i: int| 0 <= i < e.len() && e[i].0@ == x;
                if i < d.len() {
                    assert(d[i] == e[i]);
                }
            }
            assert forall|x: Seq<char>| keys_of(d).insert(k).contains(x) implies keys_of(e).contains(x) by {
                if x == k {
                    assert(e[e.len() - 1].0@ == k);
                } else {
                    let i = choose|i: int| 0 <= i < d.len() && d[i].0@ == x;
                    assert(e[i] == d[i]);
                }
            }
        }
    }
}

impl FileLists {
    proof fn lemma_dom_is_keys(&self)
        requires
            keys_unique(self.entries@),
        ensures
            self@.dom() == keys_of(self.entries@),
    {
        assert forall|k: Seq<char>| self@.dom().contains(k) <==> keys_of(self.entries@).contains(k) by {
            if self@.dom().contains(k) {
                let i = choose|i: int| #[trigger] has_key(self.entries@, k, i);
                assert(0 <= i < self.entries@.len() && self.entries@[i].0@ == k);
            }
            if keys_of(self.entries@).contains(k) {
                let i = choose|i: int| 0 <= i < self.entries@.len() && self.entries@[i].0@ == k;
                assert(has_key(self.entries@, k, i));
            }
        }
        assert(self@.dom() =~= keys_of(self.entries@));
    }
}


/// The text of a component, as `Component::as_os_str` gives it.
pub open spec fn component_text(c: ComponentView, windows: bool) -> Seq<char> {
    match c {
        ComponentView::Prefix(s) => s,
        ComponentView::RootDir => if windows { seq!['\\'] } else { seq!['/'] },
        ComponentView::CurDir => seq!['.'],
        ComponentView::ParentDir => seq!['.', '.'],
        ComponentView::Normal(s) => s,
    }
}

/// Texts joined with `/`.
pub open spec fn join_slash(parts: Seq<Seq<char>>) -> Seq<char>
    decreases parts.len(),
{
    if parts.len() == 0 {
        seq![]
    } else if parts.len() == 1 {
        parts[0]
    } else {
        join_slash(parts.drop_last()) + seq!['/'] + parts.last()
    }
}

/// The `/`-separated form of a path, the same on every platform for paths
/// of plain names.
pub open spec fn spec_to_slash(p: Seq<ComponentView>, windows: bool) -> Seq<char> {
    join_slash(p.map_values(|c: ComponentView| component_text(c, windows)))
}

fn component_text_of(c: &Component, windows: bool) -> (s: String)
    ensures
        s@ == component_text(c@, windows),
{
    match c {
        Component::Prefix(p) => p.clone(),
        Component::RootDir => if windows {
            let mut s = String::new();
            crate::digest::string_push(&mut s, '\\');
            s
        } else {
            let mut s = String::new();
            crate::digest::string_push(&mut s, '/');
            s
        },
        Component::CurDir => {
            let mut s = String::new();
            crate::digest::string_push(&mut s, '.');
            s
        },
        Component::ParentDir => {
            let mut s = String::new();
            crate::digest::string_push(&mut s, '.');
            crate::digest::string_push(&mut s, '.');
            s
        },
        Component::Normal(n) => n.clone(),
    }
}

/// The `/`-separated form of a path, for storage independent of the host's
/// path separator.
pub fn to_slash(path: &FsPath, windows: bool) -> (s: String)
    ensures
        s@ == spec_to_slash(path@, windows),
{
    let ghost parts = path@.map_values(|c: ComponentView| component_text(c, windows));
    let mut s = String::new();
    let n = path.len();
    let mut i: usize = 0;
    while i < n
        invariant
            n == path@.len(),
            parts == path@.map_values(|c: ComponentView| component_text(c, windows)),
            i <= n,
            s@ == join_slash(parts.subrange(0, i as int)),
        decreases n - i,
    {
        assert(parts.subrange(0, i + 1).drop_last() =~= parts.subrange(0, i as int));
        let t = component_text_of(path.component(i), windows);
        if i > 0 {
            crate::digest::string_push(&mut s, '/');
        }
        s.append(t.as_str());
        assert(s@ =~= join_slash(parts.subrange(0, i + 1)));
        i = i + 1;
    }
    assert(parts.subrange(0, n as int) =~= parts);
    s
}

/// What walking a directory gave: the files found (not directories) in walk
/// order, and the error that stopped the walk, if any.
pub struct Walk {
    pub root: FsPath,
    pub files: Vec<FsPath>,
    pub error: Option<String>,
}

/// Why the files under a directory could not be listed.
#[derive(Debug)]
pub enum ListError {
    /// The walk failed.
    Walk(String),
    /// A file found does not lie under the walked directory.
    NotInside(FsPath),
}

/// What is left of `f` after `root`.
pub open spec fn rel(root: Seq<ComponentView>, f: Seq<ComponentView>) -> Seq<ComponentView> {
    f.subrange(root.len() as int, f.len() as int)
}

/// The `/`-separated forms of the files, relative to the root.
pub open spec fn spec_relative(root: Seq<ComponentView>, files: Seq<FsPath>, windows: bool) -> Seq<Seq<char>> {
    files.map_values(|f: FsPath| spec_to_slash(rel(root, f@), windows))
}

/// Whether every file lies under the root.
pub open spec fn all_inside(root: Seq<ComponentView>, files: Seq<FsPath>) -> bool {
    forall|i: int| 0 <= i < files.len() ==> spec_starts_with(#[trigger] files[i]@, root)
}

/// Whether file `i` is the first one outside the root.
pub open spec fn first_outside(root: Seq<ComponentView>, files: Seq<FsPath>, i: int) -> bool {
    &&& 0 <= i < files.len()
    &&& !spec_starts_with(files[i]@, root)
    &&& forall|j: int| 0 <= j < i ==> spec_starts_with(#[trigger] files[j]@, root)
}

/// The files found under the walked directory, as `/`-separated paths
/// relative to it. Fails on the first file outside it, else on the walk's
/// error.
pub fn relative_files(walk: &Walk, windows: bool) -> (r: Result<Vec<String>, ListError>)
    ensures
        forall|i: int| #[trigger] first_outside(walk.root@, walk.files@, i) ==> (r matches Err(ListError::NotInside(p)) && p@ == walk.files@[i]@),
        all_inside(walk.root@, walk.files@) ==> match walk.error {
            Some(e) => r matches Err(ListError::Walk(x)) && x@ == e@,
            None => r matches Ok(v) && strings_view(v@) == spec_relative(walk.root@, walk.files@, windows),
        },
{
    let mut result: Vec<String> = Vec::new();
    let n = walk.files.len();
    let mut i: usize = 0;
    while i < n
        invariant
            n == walk.files@.len(),
            i <= n,
            forall|j: int| 0 <= j < i ==> spec_starts_with(#[trigger] walk.files@[j]@, walk.root@),
            strings_view(result@) == spec_relative(walk.root@, walk.files@.subrange(0, i as int), windows),
        decreases n - i,
    {
        match walk.files[i].strip_prefix(&walk.root) {
            None => {
                let p = walk.files[i].copy();
                proof {
                    assert forall|k: int| #[trigger] first_outside(walk.root@, walk.files@, k) implies k == i by {
                        if k < i {
                        } else if k > i {
                            assert(spec_starts_with(walk.files@[i as int]@, walk.root@));
                        }
                    }
                }
                return Err(ListError::NotInside(p));
            },
            Some(relative) => {
                let ghost before = result@;
                let t = to_slash(&relative, windows);
                result.push(t);
                assert(strings_view(result@) =~= strings_view(before).push(t@));
                assert(spec_relative(walk.root@, walk.files@.subrange(0, i + 1), windows) =~= spec_relative(
                    walk.root@,
                    walk.files@.subrange(0, i as int),
                    windows,
                ).push(spec_to_slash(rel(walk.root@, walk.files@[i as int]@), windows)));
                assert(strings_view(result@) =~= spec_relative(walk.root@, walk.files@.subrange(0, i + 1), windows));
            },
        }
        i = i + 1;
    }
    assert(walk.files@.subrange(0, n as int) =~= walk.files@);
    match &walk.error {
        Some(e) => Err(ListError::Walk(e.clone())),
        None => Ok(result),
    }
}

/// What listing a folder gives: nothing when it does not exist; else the
/// first file outside it fails, then the walk's error; else the files'
/// `/`-separated paths relative to it.
pub open spec fn spec_list_result(r: Result<Vec<String>, ListError>, exists: bool, walk: Walk, windows: bool) -> bool {
    &&& !exists ==> (r matches Ok(v) && v@.len() == 0)
    &&& exists ==> forall|i: int| #[trigger] first_outside(walk.root@, walk.files@, i) ==> (r matches Err(ListError::NotInside(p)) && p@ == walk.files@[i]@)
    &&& exists && all_inside(walk.root@, walk.files@) ==> match walk.error {
        Some(e) => r matches Err(ListError::Walk(x)) && x@ == e@,
        None => r matches Ok(v) && strings_view(v@) == spec_relative(walk.root@, walk.files@, windows),
    }
}

/// Every file (not directory) under a folder, as `/`-separated paths
/// relative to it; nothing when the folder does not exist.
pub fn list_files(exists: bool, walk: &Walk, windows: bool) -> (r: Result<Vec<String>, ListError>)
    ensures
        spec_list_result(r, exists, *walk, windows),
{
    if !exists {
        return Ok(Vec::new());
    }
    relative_files(walk, windows)
}

/// Why files under a folder may not be deleted.
#[derive(Debug)]
pub enum SafetyError {
    /// The folder is a file, not a directory.
    NotADirectory(FsPath),
    /// A file found does not lie under the folder.
    NotInside(FsPath),
    /// A file found is not one rgl recorded (its `/`-separated path).
    Unrecognized(String),
    /// The walk failed.
    Walk(String),
}

/// Whether `f` lies under `root` and its `/`-separated relative path is
/// among the removable ones.
pub open spec fn removable_at(root: Seq<ComponentView>, f: Seq<ComponentView>, removable: Seq<Seq<char>>, windows: bool) -> bool {
    spec_starts_with(f, root) && removable.contains(spec_to_slash(rel(root, f), windows))
}

/// Whether file `i` is the first that may not be removed.
pub open spec fn first_unremovable(
    root: Seq<ComponentView>,
    files: Seq<FsPath>,
    removable: Seq<Seq<char>>,
    windows: bool,
    i: int,
) -> bool {
    &&& 0 <= i < files.len()
    &&& !removable_at(root, files[i]@, removable, windows)
    &&& forall|j: int| 0 <= j < i ==> removable_at(root, #[trigger] files[j]@, removable, windows)
}

fn contains_string(v: &Vec<String>, s: &String) -> (b: bool)
    ensures
        b == strings_view(v@).contains(s@),
{
    let n = v.len();
    let mut i: usize = 0;
    while i < n
        invariant
            n == v@.len(),
            i <= n,
            forall|j: int| 0 <= j < i ==> v@[j]@ != s@,
        decreases n - i,
    {
        if v[i].eq(s) {
            assert(strings_view(v@)[i as int] == s@);
            return true;
        }
        i = i + 1;
    }
    assert(!strings_view(v@).contains(s@)) by {
        if strings_view(v@).contains(s@) {
            let j = choose|j: int| 0 <= j < strings_view(v@).len() && strings_view(v@)[j] == s@;
            assert(v@[j]@ == s@);
        }
    }
    false
}

/// What the deletion safety check of a folder gives; see
/// [`check_files_removable`].
pub open spec fn spec_removable_result(
    r: Result<(), SafetyError>,
    exists: bool,
    is_dir: bool,
    walk: Walk,
    removable: Seq<Seq<char>>,
    windows: bool,
) -> bool {
    &&& !exists ==> r is Ok
    &&& exists && !is_dir ==> (r matches Err(SafetyError::NotADirectory(p)) && p@ == walk.root@)
    &&& exists && is_dir ==> forall|i: int| #[trigger] first_unremovable(walk.root@, walk.files@, removable, windows, i) ==> {
        if !spec_starts_with(walk.files@[i]@, walk.root@) {
            r matches Err(SafetyError::NotInside(p)) && p@ == walk.files@[i]@
        } else {
            r matches Err(SafetyError::Unrecognized(x)) && x@ == spec_to_slash(rel(walk.root@, walk.files@[i]@), windows)
        }
    }
    &&& exists && is_dir && (forall|i: int| 0 <= i < walk.files@.len() ==> removable_at(walk.root@, #[trigger] walk.files@[i]@, removable, windows)) ==> match walk.error {
        Some(e) => r matches Err(SafetyError::Walk(x)) && x@ == e@,
        None => r is Ok,
    }
}

/// Checks that every file under a folder may be deleted, given the
/// `/`-separated relative paths of the files known to be safe to delete
/// there. A folder that does not exist holds nothing to check; one that is
/// not a directory fails; otherwise the first file that is outside the
/// folder or not among the removable ones fails, then the walk's error.
pub fn check_files_removable(exists: bool, is_dir: bool, walk: &Walk, removable: &Vec<String>, windows: bool) -> (r: Result<(), SafetyError>)
    ensures
        spec_removable_result(r, exists, is_dir, *walk, strings_view(removable@), windows),
{
    if !exists {
        return Ok(());
    }
    if !is_dir {
        return Err(SafetyError::NotADirectory(walk.root.copy()));
    }
    let ghost rm = strings_view(removable@);
    let n = walk.files.len();
    let mut i: usize = 0;
    while i < n
        invariant
            n == walk.files@.len(),
            rm == strings_view(removable@),
            exists,
            is_dir,
            i <= n,
            forall|j: int| 0 <= j < i ==> removable_at(walk.root@, #[trigger] walk.files@[j]@, rm, windows),
        decreases n - i,
    {
        proof {
            assert forall|k: int| #[trigger] first_unremovable(walk.root@, walk.files@, rm, windows, k) && !removable_at(walk.root@, walk.files@[i as int]@, rm, windows) implies k == i by {
                if k > i {
                    assert(removable_at(walk.root@, walk.files@[i as int]@, rm, windows));
                }
            }
        }
        match walk.files[i].strip_prefix(&walk.root) {
            None => {
                return Err(SafetyError::NotInside(walk.files[i].copy()));
            },
            Some(relative) => {
                let normalized = to_slash(&relative, windows);
                if !contains_string(removable, &normalized) {
                    return Err(SafetyError::Unrecognized(normalized));
                }
            },
        }
        i = i + 1;
    }
    match &walk.error {
        Some(e) => Err(SafetyError::Walk(e.clone())),
        None => Ok(()),
    }
}

/// The files recorded for `key`, or none.
pub open spec fn recorded(m: Map<Seq<char>, Seq<Seq<char>>>, key: Seq<char>) -> Seq<Seq<char>> {
    if m.contains_key(key) {
        m[key]
    } else {
        seq![]
    }
}

/// An export folder as rgl finds it: its key in the records (its path as
/// given), whether it exists and is a directory, and the files found in it.
pub struct PackFolder {
    pub key: String,
    pub exists: bool,
    pub is_dir: bool,
    pub walk: Walk,
}

/// Which pack a check or listing concerns.
#[derive(Debug)]
pub enum PackKind {
    Resource,
    Behavior,
}

/// A failed deletion safety check, with the pack it concerns.
#[derive(Debug)]
pub struct DeletionError {
    pub pack: PackKind,
    pub cause: SafetyError,
}

/// A failed listing of a pack's files, with the pack it concerns.
#[derive(Debug)]
pub struct ListingError {
    pub pack: PackKind,
    pub cause: ListError,
}

/// Tracks, per export folder, the files rgl created there on the last
/// successful export, so that the next export can tell its own files apart
/// from ones a user or another tool put there.
pub struct EditedFiles {
    pub rp: FileLists,
    pub bp: FileLists,
}

/// Whether a folder passes the deletion safety check against `removable`.
pub open spec fn folder_safe(f: PackFolder, removable: Seq<Seq<char>>, windows: bool) -> bool {
    !f.exists || (f.is_dir && f.walk.error is None && forall|i: int|
        0 <= i < f.walk.files@.len() ==> removable_at(f.walk.root@, #[trigger] f.walk.files@[i]@, removable, windows))
}

impl EditedFiles {
    /// Nothing recorded.
    pub fn new() -> (e: EditedFiles)
        ensures
            e.rp@ == Map::<Seq<char>, Seq<Seq<char>>>::empty(),
            e.bp@ == Map::<Seq<char>, Seq<Seq<char>>>::empty(),
    {
        EditedFiles { rp: FileLists::new(), bp: FileLists::new() }
    }

    /// The records as read from the cache, or nothing recorded when they
    /// could not be read.
    pub fn load(read: Option<EditedFiles>) -> (e: EditedFiles)
        ensures
            match read {
                Some(x) => e == x,
                None => e.rp@ == Map::<Seq<char>, Seq<Seq<char>>>::empty() && e.bp@ == Map::<Seq<char>, Seq<Seq<char>>>::empty(),
            },
    {
        match read {
            Some(x) => x,
            None => EditedFiles::new(),
        }
    }

    /// Checks that it is safe to overwrite or delete what the resource and
    /// behavior pack folders hold now, that is, every file found there is one
    /// rgl recorded for that folder. The resource pack is checked first.
    pub fn check_deletion_safety(&self, rp: &PackFolder, bp: &PackFolder, windows: bool) -> (r: Result<(), DeletionError>)
        ensures
            r is Ok <==> folder_safe(*rp, recorded(self.rp@, rp.key@), windows) && folder_safe(*bp, recorded(self.bp@, bp.key@), windows),
            !folder_safe(*rp, recorded(self.rp@, rp.key@), windows) ==> (r matches Err(e) && e.pack is Resource),
            folder_safe(*rp, recorded(self.rp@, rp.key@), windows) && !folder_safe(*bp, recorded(self.bp@, bp.key@), windows)
                ==> (r matches Err(e) && e.pack is Behavior),
            r matches Err(e) ==> match e.pack {
                PackKind::Resource => spec_removable_result(Err(e.cause), rp.exists, rp.is_dir, rp.walk, recorded(self.rp@, rp.key@), windows),
                PackKind::Behavior => spec_removable_result(Err(e.cause), bp.exists, bp.is_dir, bp.walk, recorded(self.bp@, bp.key@), windows),
            },
    {
        let empty: Vec<String> = Vec::new();
        let rp_removable = match self.rp.get(rp.key.as_str()) {
            Some(v) => v,
            None => &empty,
        };
        assert(strings_view(rp_removable@) =~= recorded(self.rp@, rp.key@));
        match check_files_removable(rp.exists, rp.is_dir, &rp.walk, rp_removable, windows) {
            Err(cause) => {
                proof {
                    lemma_unsafe_has_first(*rp, strings_view(rp_removable@), windows);
                }
                return Err(DeletionError { pack: PackKind::Resource, cause });
            },
            Ok(()) => {
                proof {
                    lemma_unsafe_has_first(*rp, strings_view(rp_removable@), windows);
                }
            },
        }
        let bp_removable = match self.bp.get(bp.key.as_str()) {
            Some(v) => v,
            None => &empty,
        };
        assert(strings_view(bp_removable@) =~= recorded(self.bp@, bp.key@));
        let res = check_files_removable(bp.exists, bp.is_dir, &bp.walk, bp_removable, windows);
        proof {
            lemma_unsafe_has_first(*bp, strings_view(bp_removable@), windows);
        }
        match res {
            Err(cause) => Err(DeletionError { pack: PackKind::Behavior, cause }),
            Ok(()) => Ok(()),
        }
    }

    /// Records every file found under the resource and behavior pack
    /// folders as created by rgl, so that they are known as safe to delete
    /// on the next export. Nothing is recorded when either listing fails.
    pub fn update_from_paths(&mut self, rp: &PackFolder, bp: &PackFolder, windows: bool) -> (r: Result<(), ListingError>)
        ensures
            r is Ok ==> {
                &&& final(self).rp@ == old(self).rp@.insert(
                    rp.key@,
                    if rp.exists { spec_relative(rp.walk.root@, rp.walk.files@, windows) } else { seq![] },
                )
                &&& final(self).bp@ == old(self).bp@.insert(
                    bp.key@,
                    if bp.exists { spec_relative(bp.walk.root@, bp.walk.files@, windows) } else { seq![] },
                )
            },
            r is Err ==> final(self).rp@ == old(self).rp@ && final(self).bp@ == old(self).bp@,
            r is Ok <==> listable(*rp) && listable(*bp),
            !listable(*rp) ==> (r matches Err(e) && e.pack is Resource),
            listable(*rp) && !listable(*bp) ==> (r matches Err(e) && e.pack is Behavior),
            r matches Err(e) ==> match e.pack {
                PackKind::Resource => spec_list_result(Err(e.cause), rp.exists, rp.walk, windows),
                PackKind::Behavior => spec_list_result(Err(e.cause), bp.exists, bp.walk, windows),
            },
    {
        let rp_files = match list_files(rp.exists, &rp.walk, windows) {
            Ok(v) => v,
            Err(cause) => {
                proof {
                    lemma_unlistable_has_first(*rp);
                }
                return Err(ListingError { pack: PackKind::Resource, cause });
            },
        };
        proof {
            lemma_unlistable_has_first(*rp);
        }
        let bp_files = match list_files(bp.exists, &bp.walk, windows) {
            Ok(v) => v,
            Err(cause) => {
                proof {
                    lemma_unlistable_has_first(*bp);
                }
                return Err(ListingError { pack: PackKind::Behavior, cause });
            },
        };
        proof {
            lemma_unlistable_has_first(*bp);
        }
        if !rp.exists {
            assert(strings_view(rp_files@) =~= seq![]);
        }
        if !bp.exists {
            assert(strings_view(bp_files@) =~= seq![]);
        }
        self.rp.insert(rp.key.clone(), rp_files);
        self.bp.insert(bp.key.clone(), bp_files);
        Ok(())
    }
}

/// Whether a folder's files can be listed.
pub open spec fn listable(f: PackFolder) -> bool {
    !f.exists || (f.walk.error is None && all_inside(f.walk.root@, f.walk.files@))
}

proof fn lemma_unlistable_has_first(f: PackFolder)
    ensures
        f.exists && !all_inside(f.walk.root@, f.walk.files@) ==> exists|i: int| #[trigger] first_outside(f.walk.root@, f.walk.files@, i),
{
    if f.exists && !all_inside(f.walk.root@, f.walk.files@) {
        let files = f.walk.files@;
        let root = f.walk.root@;
        let k = choose|k: int| 0 <= k < files.len() && !spec_starts_with(#[trigger] files[k]@, root);
        lemma_first_outside_exists(root, files, k);
    }
}

proof fn lemma_first_outside_exists(root: Seq<ComponentView>, files: Seq<FsPath>, k: int)
    requires
        0 <= k < files.len(),
        !spec_starts_with(files[k]@, root),
    ensures
        exists|i: int| #[trigger] first_outside(root, files, i),
    decreases k,
{
    if forall|j: int| 0 <= j < k ==> spec_starts_with(#[trigger] files[j]@, root) {
        assert(first_outside(root, files, k));
    } else {
        let j = choose|j: int| 0 <= j < k && !spec_starts_with(#[trigger] files[j]@, root);
        lemma_first_outside_exists(root, files, j);
    }
}

proof fn lemma_unsafe_has_first(f: PackFolder, removable: Seq<Seq<char>>, windows: bool)
    ensures
        !(forall|i: int| 0 <= i < f.walk.files@.len() ==> removable_at(f.walk.root@, #[trigger] f.walk.files@[i]@, removable, windows))
            ==> exists|i: int| #[trigger] first_unremovable(f.walk.root@, f.walk.files@, removable, windows, i),
{
    let files = f.walk.files@;
    let root = f.walk.root@;
    if !(forall|i: int| 0 <= i < files.len() ==> removable_at(root, #[trigger] files[i]@, removable, windows)) {
        let k = choose|k: int| 0 <= k < files.len() && !removable_at(root, #[trigger] files[k]@, removable, windows);
        lemma_first_unremovable_exists(root, files, removable, windows, k);
    }
}

proof fn lemma_first_unremovable_exists(root: Seq<ComponentView>, files: Seq<FsPath>, removable: Seq<Seq<char>>, windows: bool, k: int)
    requires
        0 <= k < files.len(),
        !removable_at(root, files[k]@, removable, windows),
    ensures
        exists|i: int| #[trigger] first_unremovable(root, files, removable, windows, i),
    decreases k,
{
    if forall|j: int| 0 <= j < k ==> removable_at(root, #[trigger] files[j]@, removable, windows) {
        assert(first_unremovable(root, files, removable, windows, k));
    } else {
        let j = choose|j: int| 0 <= j < k && !removable_at(root, #[trigger] files[j]@, removable, windows);
        lemma_first_unremovable_exists(root, files, removable, windows, j);
    }
}

/// The files rgl records for a folder pass the next deletion safety check
/// of that folder: when a later walk of the folder finds only files that the
/// recording walk found, each of them is removable.
pub proof fn lemma_recorded_files_removable(
    m: Map<Seq<char>, Seq<Seq<char>>>,
    key: Seq<char>,
    root: Seq<ComponentView>,
    files: Seq<FsPath>,
    later: Seq<FsPath>,
    windows: bool,
)
    requires
        all_inside(root, files),
        forall|i: int| 0 <= i < later.len() ==> exists|j: int| 0 <= j < files.len() && (#[trigger] later[i])@ == files[j]@,
    ensures
        forall|i: int| 0 <= i < later.len() ==> removable_at(
            root,
            #[trigger] later[i]@,
            recorded(m.insert(key, spec_relative(root, files, windows)), key),
            windows,
        ),
{
    let v = spec_relative(root, files, windows);
    assert(recorded(m.insert(key, v), key) == v);
    assert forall|i: int| 0 <= i < later.len() implies removable_at(root, #[trigger] later[i]@, v, windows) by {
        let j = choose|j: int| 0 <= j < files.len() && later[i]@ == files[j]@;
        assert(spec_starts_with(files[j]@, root));
        assert(v[j] == spec_to_slash(rel(root, files[j]@), windows));
    }
}

/// What `update_from_paths` records for a folder whose listing succeeds.
pub open spec fn spec_recorded_files(f: PackFolder, windows: bool) -> Seq<Seq<char>> {
    if f.exists {
        spec_relative(f.walk.root@, f.walk.files@, windows)
    } else {
        seq![]
    }
}

/// Whether a later look at a folder finds it as a directory (or absent),
/// walked without error, under the same key and root, holding only files
/// that the earlier walk found.
pub open spec fn nothing_added(earlier: PackFolder, later: PackFolder) -> bool {
    &&& later.key@ == earlier.key@
    &&& later.walk.root@ == earlier.walk.root@
    &&& later.exists ==> later.is_dir && later.walk.error is None
    &&& forall|i: int| 0 <= i < later.walk.files@.len() ==> earlier.exists && exists|j: int|
        0 <= j < earlier.walk.files@.len() && (#[trigger] later.walk.files@[i])@ == earlier.walk.files@[j]@
}

/// After `update_from_paths` succeeds on the two pack folders, the next
/// `check_deletion_safety` of those folders passes, as long as each is a
/// directory or absent and no file has been added under either since.
pub proof fn lemma_update_then_check_passes(
    before: EditedFiles,
    after: EditedFiles,
    rp: PackFolder,
    bp: PackFolder,
    later_rp: PackFolder,
    later_bp: PackFolder,
    windows: bool,
)
    requires
        listable(rp),
        listable(bp),
        after.rp@ == before.rp@.insert(rp.key@, spec_recorded_files(rp, windows)),
        after.bp@ == before.bp@.insert(bp.key@, spec_recorded_files(bp, windows)),
        nothing_added(rp, later_rp),
        nothing_added(bp, later_bp),
    ensures
        folder_safe(later_rp, recorded(after.rp@, later_rp.key@), windows),
        folder_safe(later_bp, recorded(after.bp@, later_bp.key@), windows),
{
    lemma_unchanged_folder_safe(before.rp@, rp, later_rp, windows);
    lemma_unchanged_folder_safe(before.bp@, bp, later_bp, windows);
}

proof fn lemma_unchanged_folder_safe(
    m: Map<Seq<char>, Seq<Seq<char>>>,
    f: PackFolder,
    later: PackFolder,
    windows: bool,
)
    requires
        listable(f),
        nothing_added(f, later),
    ensures
        folder_safe(later, recorded(m.insert(f.key@, spec_recorded_files(f, windows)), later.key@), windows),
{
    let v = spec_recorded_files(f, windows);
    assert(recorded(m.insert(f.key@, v), later.key@) == v);
    if later.exists && later.walk.files@.len() > 0 {
        // The first later file was found by the earlier walk, so that walk ran.
        let first = later.walk.files@[0];
        assert(f.exists && first@ == later.walk.files@[0]@);
        assert forall|i: int| 0 <= i < later.walk.files@.len() implies exists|j: int|
            0 <= j < f.walk.files@.len() && (#[trigger] later.walk.files@[i])@ == f.walk.files@[j]@ by {
            assert(f.exists && exists|j: int|
                0 <= j < f.walk.files@.len() && later.walk.files@[i]@ == f.walk.files@[j]@);
        }
        lemma_recorded_files_removable(m, f.key@, f.walk.root@, f.walk.files@, later.walk.files@, windows);
        assert forall|i: int| 0 <= i < later.walk.files@.len() implies removable_at(
            later.walk.root@,
            #[trigger] later.walk.files@[i]@,
            v,
            windows,
        ) by {
            assert(removable_at(
                f.walk.root@,
                later.walk.files@[i]@,
                recorded(m.insert(f.key@, spec_relative(f.walk.root@, f.walk.files@, windows)), f.key@),
                windows,
            ));
        }
    }
}

/// Recording one pack folder leaves what is recorded for every other folder
/// as it was.
pub proof fn lemma_recording_keeps_others(
    m: Map<Seq<char>, Seq<Seq<char>>>,
    key: Seq<char>,
    files: Seq<Seq<char>>,
    other: Seq<char>,
)
    requires
        other != key,
    ensures
        recorded(m.insert(key, files), other) == recorded(m, other),
{
}

} // verus!
