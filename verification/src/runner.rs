//! A profile run's work on the file system: resolving the active export
//! targets in order and refusing overlapping ones before anything is
//! touched, preparing the working directory before the filters run, and
//! exporting the packs after. The steps are planned here and carried out by
//! the caller.

use vstd::prelude::*;
use crate::export::{
    check_export_path_collision, first_overlap, lemma_active_exact, lemma_collision_check_keeps_apart,
    normalize_export_path, overlaps, pairwise_apart,
    spec_active, spec_active_upto, spec_kind, spec_read_only, Export, ExportError, ExportTargets,
};
use crate::path::{spec_clean, spec_is_absolute, spec_join, ComponentView, FsPath};
use crate::paths::child;
use crate::temp::Temp;
use crate::text::{concat_strs, decimal, spec_decimal};

verus! {

/// An export target whose paths have been resolved.
pub struct ResolvedTarget {
    pub bp: FsPath,
    pub rp: FsPath,
    pub read_only: bool,
}

/// One step on the file system.
#[derive(Debug)]
pub enum FsAction {
    /// Remove a file or folder with everything in it.
    RemoveAll(FsPath),
    /// Create a folder and its missing parents.
    CreateDirAll(FsPath),
    /// Remove the path when it is a symbolic link.
    RemoveIfSymlink(FsPath),
    /// Make `to` hold what `from` holds.
    Sync { from: FsPath, to: FsPath },
    /// Make `link` a symbolic link to `target`.
    Symlink { target: FsPath, link: FsPath },
    /// Make everything under the path read-only.
    SetReadOnly(FsPath),
    /// Make `to` hold what `from` holds, when `from` is a folder.
    SyncIfDir { from: FsPath, to: FsPath },
    /// Tell the user where a pack went.
    PrintExport { label: String, path: FsPath },
}

pub enum ActionView {
    RemoveAll(Seq<ComponentView>),
    CreateDirAll(Seq<ComponentView>),
    RemoveIfSymlink(Seq<ComponentView>),
    Sync(Seq<ComponentView>, Seq<ComponentView>),
    Symlink(Seq<ComponentView>, Seq<ComponentView>),
    SetReadOnly(Seq<ComponentView>),
    SyncIfDir(Seq<ComponentView>, Seq<ComponentView>),
    PrintExport(Seq<char>, Seq<ComponentView>),
}

impl View for FsAction {
    type V = ActionView;

    open spec fn view(&self) -> ActionView {
        match self {
            FsAction::RemoveAll(p) => ActionView::RemoveAll(p@),
            FsAction::CreateDirAll(p) => ActionView::CreateDirAll(p@),
            FsAction::RemoveIfSymlink(p) => ActionView::RemoveIfSymlink(p@),
            FsAction::Sync { from, to } => ActionView::Sync(from@, to@),
            FsAction::Symlink { target, link } => ActionView::Symlink(target@, link@),
            FsAction::SetReadOnly(p) => ActionView::SetReadOnly(p@),
            FsAction::SyncIfDir { from, to } => ActionView::SyncIfDir(from@, to@),
            FsAction::PrintExport { label, path } => ActionView::PrintExport(label@, path@),
        }
    }
}

pub open spec fn actions_view(v: Seq<FsAction>) -> Seq<ActionView> {
    v.map_values(|a: FsAction| a@)
}

fn push_action(v: &mut Vec<FsAction>, a: FsAction)
    ensures
        actions_view(final(v)@) == actions_view(old(v)@).push(a@),
{
    let ghost before = v@;
    v.push(a);
    assert(actions_view(v@) =~= actions_view(before).push(a@));
}

/// Whether to link the packs straight into the export target: only when
/// compatibility mode is off and there is exactly one target.
pub fn use_symlink(compat: bool, resolved_count: usize) -> (b: bool)
    ensures
        b == (!compat && resolved_count == 1),
{
    !compat && resolved_count == 1
}

/// The label of an export target in messages: `export target <n> (<kind>)`,
/// counting from one.
pub open spec fn spec_target_label(index: nat, kind: Seq<char>) -> Seq<char> {
    "export target "@ + spec_decimal(index + 1) + " ("@ + kind + ")"@
}

/// The label of an export target in messages.
pub fn target_label(index: usize, kind: &str) -> (s: String)
    requires
        index < usize::MAX,
    ensures
        s@ == spec_target_label(index as nat, kind@),
{
    let n = decimal((index + 1) as u64);
    let mut s = concat_strs("export target ", n.as_str());
    s.append(" (");
    s.append(kind);
    s.append(")");
    s
}

/// The label of one pack of an export target in collision messages:
/// `<target label> <pack>: <path>`.
pub fn pack_label(target_label: &str, pack: &str, path_text: &str) -> (s: String)
    ensures
        s@ == target_label@ + " "@ + pack@ + ": "@ + path_text@,
{
    let mut s = concat_strs(target_label, " ");
    s.append(pack);
    s.append(": ");
    s.append(path_text);
    s
}

/// Removing the export targets' folders before a clean run.
pub open spec fn spec_clean_targets(t: Seq<ResolvedTarget>) -> Seq<ActionView>
    decreases t.len(),
{
    if t.len() == 0 {
        seq![]
    } else {
        spec_clean_targets(t.drop_last()) + seq![ActionView::RemoveAll(t.last().bp@), ActionView::RemoveAll(t.last().rp@)]
    }
}

/// Preparing the working directory: on a clean run remove it and the
/// targets first; create the data folder and the working directory; then
/// either copy the packs and data in (replacing links left by an earlier
/// linked run), or copy the packs into the single target and link them from
/// the working directory.
pub open spec fn spec_setup(
    clean: bool,
    use_symlink: bool,
    resolved: Seq<ResolvedTarget>,
    temp: Temp,
    bp: Option<Seq<ComponentView>>,
    rp: Option<Seq<ComponentView>>,
    data: Seq<ComponentView>,
    primary_bp: Seq<ComponentView>,
    primary_rp: Seq<ComponentView>,
) -> Seq<ActionView> {
    (if clean {
        seq![ActionView::RemoveAll(temp.root@)] + spec_clean_targets(resolved)
    } else {
        seq![]
    }) + seq![ActionView::CreateDirAll(data), ActionView::CreateDirAll(temp.root@)] + if !use_symlink {
        seq![
            ActionView::RemoveIfSymlink(temp.bp@),
            ActionView::RemoveIfSymlink(temp.rp@),
            ActionView::RemoveIfSymlink(temp.data@),
        ] + match bp {
            Some(b) => seq![ActionView::Sync(b, temp.bp@)],
            None => seq![],
        } + match rp {
            Some(r) => seq![ActionView::Sync(r, temp.rp@)],
            None => seq![],
        } + seq![ActionView::Sync(data, temp.data@)]
    } else {
        seq![
            ActionView::RemoveAll(temp.bp@),
            ActionView::RemoveAll(temp.rp@),
            ActionView::RemoveIfSymlink(temp.data@),
        ] + match bp {
            Some(b) => seq![ActionView::Sync(b, primary_bp), ActionView::Symlink(primary_bp, temp.bp@)],
            None => seq![],
        } + match rp {
            Some(r) => seq![ActionView::Sync(r, primary_rp), ActionView::Symlink(primary_rp, temp.rp@)],
            None => seq![],
        } + seq![ActionView::Sync(data, temp.data@)]
    }
}

fn copy_opt(p: &Option<FsPath>) -> (r: Option<FsPath>)
    ensures
        match p {
            Some(x) => r matches Some(y) && y@ == x@,
            None => r is None,
        },
{
    match p {
        Some(x) => Some(x.copy()),
        None => None,
    }
}

/// The steps that prepare the working directory before the filters run;
/// see [`spec_setup`]. `bp` and `rp` are the project's pack folders, when
/// it has them; `primary_bp` and `primary_rp` the first target's folders.
pub fn plan_setup(
    clean: bool,
    use_symlink: bool,
    resolved: &Vec<ResolvedTarget>,
    temp: &Temp,
    bp: &Option<FsPath>,
    rp: &Option<FsPath>,
    data: &FsPath,
    primary_bp: &FsPath,
    primary_rp: &FsPath,
) -> (v: Vec<FsAction>)
    ensures
        actions_view(v@) == spec_setup(
            clean,
            use_symlink,
            resolved@,
            *temp,
            match bp {
                Some(b) => Some(b@),
                None => None,
            },
            match rp {
                Some(r) => Some(r@),
                None => None,
            },
            data@,
            primary_bp@,
            primary_rp@,
        ),
{
    let mut v: Vec<FsAction> = Vec::new();
    if clean {
        push_action(&mut v, FsAction::RemoveAll(temp.root.copy()));
        let n = resolved.len();
        let mut i: usize = 0;
        while i < n
            invariant
                n == resolved@.len(),
                i <= n,
                actions_view(v@) == seq![ActionView::RemoveAll(temp.root@)] + spec_clean_targets(resolved@.subrange(0, i as int)),
            decreases n - i,
        {
            assert(resolved@.subrange(0, i + 1).drop_last() =~= resolved@.subrange(0, i as int));
            push_action(&mut v, FsAction::RemoveAll(resolved[i].bp.copy()));
            push_action(&mut v, FsAction::RemoveAll(resolved[i].rp.copy()));
            assert(actions_view(v@) =~= seq![ActionView::RemoveAll(temp.root@)] + spec_clean_targets(resolved@.subrange(0, i + 1)));
            i = i + 1;
        }
        assert(resolved@.subrange(0, n as int) =~= resolved@);
    }
    let ghost head = actions_view(v@);
    push_action(&mut v, FsAction::CreateDirAll(data.copy()));
    push_action(&mut v, FsAction::CreateDirAll(temp.root.copy()));
    let ghost mid = actions_view(v@);
    assert(mid =~= head + seq![ActionView::CreateDirAll(data@), ActionView::CreateDirAll(temp.root@)]);
    if !use_symlink {
        push_action(&mut v, FsAction::RemoveIfSymlink(temp.bp.copy()));
        push_action(&mut v, FsAction::RemoveIfSymlink(temp.rp.copy()));
        push_action(&mut v, FsAction::RemoveIfSymlink(temp.data.copy()));
        if let Some(b) = bp {
            push_action(&mut v, FsAction::Sync { from: b.copy(), to: temp.bp.copy() });
        }
        if let Some(r) = rp {
            push_action(&mut v, FsAction::Sync { from: r.copy(), to: temp.rp.copy() });
        }
        push_action(&mut v, FsAction::Sync { from: data.copy(), to: temp.data.copy() });
    } else {
        push_action(&mut v, FsAction::RemoveAll(temp.bp.copy()));
        push_action(&mut v, FsAction::RemoveAll(temp.rp.copy()));
        push_action(&mut v, FsAction::RemoveIfSymlink(temp.data.copy()));
        if let Some(b) = bp {
            push_action(&mut v, FsAction::Sync { from: b.copy(), to: primary_bp.copy() });
            push_action(&mut v, FsAction::Symlink { target: primary_bp.copy(), link: temp.bp.copy() });
        }
        if let Some(r) = rp {
            push_action(&mut v, FsAction::Sync { from: r.copy(), to: primary_rp.copy() });
            push_action(&mut v, FsAction::Symlink { target: primary_rp.copy(), link: temp.rp.copy() });
        }
        push_action(&mut v, FsAction::Sync { from: data.copy(), to: temp.data.copy() });
    }
    let ghost bpv = match bp {
        Some(b) => Some(b@),
        None => None::<Seq<ComponentView>>,
    };
    let ghost rpv = match rp {
        Some(r) => Some(r@),
        None => None::<Seq<ComponentView>>,
    };
    assert(actions_view(v@) =~= spec_setup(clean, use_symlink, resolved@, *temp, bpv, rpv, data@, primary_bp@, primary_rp@));
    v
}

/// The label a pack is announced with: `BP` alone, or `BP (target <n>)`
/// when there are several targets.
pub open spec fn spec_export_label(pack: Seq<char>, index: nat, multiple: bool) -> Seq<char> {
    if multiple {
        pack + " (target "@ + spec_decimal(index + 1) + ")"@
    } else {
        pack
    }
}

fn export_label(pack: &str, index: usize, multiple: bool) -> (s: String)
    requires
        index < usize::MAX,
    ensures
        s@ == spec_export_label(pack@, index as nat, multiple),
{
    if multiple {
        let n = decimal((index + 1) as u64);
        let mut s = concat_strs(pack, " (target ");
        s.append(n.as_str());
        s.append(")");
        s
    } else {
        pack.to_owned()
    }
}

/// The export steps of one target: for each pack the project has, announce
/// it; unless linked, copy it from the working directory and, for a
/// read-only target, make it read-only.
pub open spec fn spec_target_export(
    t: ResolvedTarget,
    index: nat,
    multiple: bool,
    use_symlink: bool,
    temp: Temp,
    has_bp: bool,
    has_rp: bool,
) -> Seq<ActionView> {
    (if has_bp {
        seq![ActionView::PrintExport(spec_export_label("BP"@, index, multiple), t.bp@)] + if !use_symlink {
            seq![ActionView::Sync(temp.bp@, t.bp@)] + if t.read_only {
                seq![ActionView::SetReadOnly(t.bp@)]
            } else {
                seq![]
            }
        } else {
            seq![]
        }
    } else {
        seq![]
    }) + (if has_rp {
        seq![ActionView::PrintExport(spec_export_label("RP"@, index, multiple), t.rp@)] + if !use_symlink {
            seq![ActionView::Sync(temp.rp@, t.rp@)] + if t.read_only {
                seq![ActionView::SetReadOnly(t.rp@)]
            } else {
                seq![]
            }
        } else {
            seq![]
        }
    } else {
        seq![]
    })
}

/// The export steps of the first `n` targets, in order.
pub open spec fn spec_targets_export(
    t: Seq<ResolvedTarget>,
    n: int,
    multiple: bool,
    use_symlink: bool,
    temp: Temp,
    has_bp: bool,
    has_rp: bool,
) -> Seq<ActionView>
    decreases n,
{
    if n <= 0 {
        seq![]
    } else {
        spec_targets_export(t, n - 1, multiple, use_symlink, temp, has_bp, has_rp) + spec_target_export(
            t[n - 1],
            (n - 1) as nat,
            multiple,
            use_symlink,
            temp,
            has_bp,
            has_rp,
        )
    }
}

/// Exporting the built packs: with no active target, only announce where
/// the packs are; otherwise export to each target in turn.
pub open spec fn spec_export(
    resolved: Seq<ResolvedTarget>,
    use_symlink: bool,
    temp: Temp,
    has_bp: bool,
    has_rp: bool,
    primary_bp: Seq<ComponentView>,
    primary_rp: Seq<ComponentView>,
) -> Seq<ActionView> {
    if resolved.len() == 0 {
        (if has_bp {
            seq![ActionView::PrintExport("BP"@, primary_bp)]
        } else {
            seq![]
        }) + (if has_rp {
            seq![ActionView::PrintExport("RP"@, primary_rp)]
        } else {
            seq![]
        })
    } else {
        spec_targets_export(resolved, resolved.len() as int, resolved.len() > 1, use_symlink, temp, has_bp, has_rp)
    }
}

fn plan_target_export(
    v: &mut Vec<FsAction>,
    t: &ResolvedTarget,
    index: usize,
    multiple: bool,
    use_symlink: bool,
    temp: &Temp,
    has_bp: bool,
    has_rp: bool,
)
    requires
        index < usize::MAX,
    ensures
        actions_view(final(v)@) == actions_view(old(v)@) + spec_target_export(*t, index as nat, multiple, use_symlink, *temp, has_bp, has_rp),
{
    let ghost start = actions_view(v@);
    if has_bp {
        push_action(v, FsAction::PrintExport { label: export_label("BP", index, multiple), path: t.bp.copy() });
        if !use_symlink {
            push_action(v, FsAction::Sync { from: temp.bp.copy(), to: t.bp.copy() });
            if t.read_only {
                push_action(v, FsAction::SetReadOnly(t.bp.copy()));
            }
        }
    }
    let ghost mid = actions_view(v@);
    if has_rp {
        push_action(v, FsAction::PrintExport { label: export_label("RP", index, multiple), path: t.rp.copy() });
        if !use_symlink {
            push_action(v, FsAction::Sync { from: temp.rp.copy(), to: t.rp.copy() });
            if t.read_only {
                push_action(v, FsAction::SetReadOnly(t.rp.copy()));
            }
        }
    }
    assert(actions_view(v@) =~= start + spec_target_export(*t, index as nat, multiple, use_symlink, *temp, has_bp, has_rp));
}

/// The steps that export the built packs; see [`spec_export`]. `has_bp`
/// and `has_rp` tell whether the project has each pack.
pub fn plan_export(
    resolved: &Vec<ResolvedTarget>,
    use_symlink: bool,
    temp: &Temp,
    has_bp: bool,
    has_rp: bool,
    primary_bp: &FsPath,
    primary_rp: &FsPath,
) -> (v: Vec<FsAction>)
    ensures
        actions_view(v@) == spec_export(resolved@, use_symlink, *temp, has_bp, has_rp, primary_bp@, primary_rp@),
{
    let mut v: Vec<FsAction> = Vec::new();
    let n = resolved.len();
    if n == 0 {
        if has_bp {
            push_action(&mut v, FsAction::PrintExport { label: "BP".to_owned(), path: primary_bp.copy() });
        }
        let ghost mid = actions_view(v@);
        if has_rp {
            push_action(&mut v, FsAction::PrintExport { label: "RP".to_owned(), path: primary_rp.copy() });
        }
        assert(actions_view(v@) =~= spec_export(resolved@, use_symlink, *temp, has_bp, has_rp, primary_bp@, primary_rp@));
        return v;
    }
    let multiple = n > 1;
    let mut i: usize = 0;
    while i < n
        invariant
            n == resolved@.len(),
            n > 0,
            multiple == (n > 1),
            i <= n,
            actions_view(v@) == spec_targets_export(resolved@, i as int, multiple, use_symlink, *temp, has_bp, has_rp),
        decreases n - i,
    {
        plan_target_export(&mut v, &resolved[i], i, multiple, use_symlink, temp, has_bp, has_rp);
        i = i + 1;
    }
    v
}

/// Copying each filter's exported data back into the project's data
/// folder, for the filters that export data and left a folder of it.
pub open spec fn spec_export_data(names: Seq<String>, temp_data: Seq<ComponentView>, data: Seq<ComponentView>) -> Seq<ActionView>
    decreases names.len(),
{
    if names.len() == 0 {
        seq![]
    } else {
        spec_export_data(names.drop_last(), temp_data, data).push(
            ActionView::SyncIfDir(
                crate::paths::child(temp_data, names.last()@),
                crate::paths::child(data, names.last()@),
            ),
        )
    }
}

/// The steps that copy the filters' exported data back; see
/// [`spec_export_data`].
pub fn plan_export_data(names: &Vec<String>, temp_data: &FsPath, data: &FsPath) -> (v: Vec<FsAction>)
    ensures
        actions_view(v@) == spec_export_data(names@, temp_data@, data@),
{
    let mut v: Vec<FsAction> = Vec::new();
    let n = names.len();
    let mut i: usize = 0;
    while i < n
        invariant
            n == names@.len(),
            i <= n,
            actions_view(v@) == spec_export_data(names@.subrange(0, i as int), temp_data@, data@),
        decreases n - i,
    {
        assert(names@.subrange(0, i + 1).drop_last() =~= names@.subrange(0, i as int));
        push_action(
            &mut v,
            FsAction::SyncIfDir { from: temp_data.join_name(names[i].as_str()), to: data.join_name(names[i].as_str()) },
        );
        i = i + 1;
    }
    assert(names@.subrange(0, n as int) =~= names@);
    v
}

/// Whether a list of steps makes anything read-only.
pub open spec fn sets_read_only(a: Seq<ActionView>) -> bool {
    exists|i: int| 0 <= i < a.len() && #[trigger] a[i] is SetReadOnly
}

proof fn lemma_targets_no_read_only(
    t: Seq<ResolvedTarget>,
    n: int,
    multiple: bool,
    temp: Temp,
    has_bp: bool,
    has_rp: bool,
)
    ensures
        forall|i: int|
            0 <= i < spec_targets_export(t, n, multiple, true, temp, has_bp, has_rp).len() ==> !(
            #[trigger] spec_targets_export(t, n, multiple, true, temp, has_bp, has_rp)[i] is SetReadOnly)
            && !(spec_targets_export(t, n, multiple, true, temp, has_bp, has_rp)[i] is Sync),
    decreases n,
{
    if n > 0 {
        lemma_targets_no_read_only(t, n - 1, multiple, temp, has_bp, has_rp);
        let prev = spec_targets_export(t, n - 1, multiple, true, temp, has_bp, has_rp);
        let last = spec_target_export(t[n - 1], (n - 1) as nat, multiple, true, temp, has_bp, has_rp);
        let all = spec_targets_export(t, n, multiple, true, temp, has_bp, has_rp);
        assert(all == prev + last);
        assert forall|i: int| 0 <= i < all.len() implies !(#[trigger] all[i] is SetReadOnly) && !(all[i] is Sync) by {
            if i < prev.len() {
                assert(all[i] == prev[i]);
            } else {
                assert(all[i] == last[i - prev.len()]);
            }
        }
    }
}

/// When the packs are linked into the single export target, exporting
/// copies nothing and makes nothing read-only: the target is the folder the
/// filters write into, and must stay writable for the next run.
pub proof fn lemma_linked_export_leaves_target_alone(
    resolved: Seq<ResolvedTarget>,
    temp: Temp,
    has_bp: bool,
    has_rp: bool,
    primary_bp: Seq<ComponentView>,
    primary_rp: Seq<ComponentView>,
)
    ensures
        forall|i: int|
            0 <= i < spec_export(resolved, true, temp, has_bp, has_rp, primary_bp, primary_rp).len() ==> !(
            #[trigger] spec_export(resolved, true, temp, has_bp, has_rp, primary_bp, primary_rp)[i] is SetReadOnly)
            && !(spec_export(resolved, true, temp, has_bp, has_rp, primary_bp, primary_rp)[i] is Sync),
{
    if resolved.len() == 0 {
        let a = spec_export(resolved, true, temp, has_bp, has_rp, primary_bp, primary_rp);
        assert forall|i: int| 0 <= i < a.len() implies !(#[trigger] a[i] is SetReadOnly) && !(a[i] is Sync) by {
            if has_bp && i == 0 {
            } else {
            }
        }
    } else {
        lemma_targets_no_read_only(resolved, resolved.len() as int, resolved.len() > 1, temp, has_bp, has_rp);
    }
}

/// A read-only target that receives a pack has that pack made read-only
/// right after it is copied.
pub proof fn lemma_read_only_follows_copy(
    t: ResolvedTarget,
    index: nat,
    multiple: bool,
    temp: Temp,
    has_bp: bool,
    has_rp: bool,
)
    requires
        t.read_only,
        has_bp,
    ensures
        spec_target_export(t, index, multiple, false, temp, has_bp, has_rp)[1] == ActionView::Sync(temp.bp@, t.bp@),
        spec_target_export(t, index, multiple, false, temp, has_bp, has_rp)[2] == ActionView::SetReadOnly(t.bp@),
{
}

/// The key under which an export folder is compared for collisions: its
/// canonical form when the file system gave one, else the folder resolved
/// against the current directory and cleaned lexically.
pub open spec fn collision_key(
    folder: Seq<ComponentView>,
    canonical: Option<Seq<ComponentView>>,
    current_dir: Seq<ComponentView>,
    windows: bool,
) -> Seq<ComponentView> {
    match canonical {
        Some(c) => c,
        None => spec_clean(
            if spec_is_absolute(folder, windows) {
                folder
            } else {
                spec_join(current_dir, folder)
            },
        ),
    }
}

/// The export targets of a run being resolved, one active target after the
/// other in declaration order, each checked against the folders of the ones
/// before it before anything on the file system is touched.
pub struct ExportResolution<'a> {
    targets: &'a ExportTargets,
    active: Vec<usize>,
    resolved: Vec<ResolvedTarget>,
    seen: Vec<(FsPath, String)>,
}

/// What a run does on the file system: the steps before the filters run,
/// and the export steps after.
pub struct RunPlan {
    pub use_symlink: bool,
    pub setup: Vec<FsAction>,
    pub export: Vec<FsAction>,
}

/// The folders the working directory is set up against: the first active
/// target's, or, when every target is `none`, the working directory's own
/// pack folders.
pub open spec fn spec_primary(resolved: Seq<ResolvedTarget>, dot_regolith: Seq<ComponentView>) -> (Seq<ComponentView>, Seq<ComponentView>) {
    if resolved.len() > 0 {
        (resolved[0].bp@, resolved[0].rp@)
    } else {
        (child(child(dot_regolith, "tmp"@), "BP"@), child(child(dot_regolith, "tmp"@), "RP"@))
    }
}

impl<'a> ExportResolution<'a> {
    /// The export targets.
    pub closed spec fn targets_view(&self) -> Seq<Export> {
        self.targets.0@
    }

    /// The indices of the active targets, in order.
    pub closed spec fn active_view(&self) -> Seq<usize> {
        self.active@
    }

    /// The active targets resolved so far, in order.
    pub closed spec fn resolved_view(&self) -> Seq<ResolvedTarget> {
        self.resolved@
    }

    /// The collision keys and labels recorded so far.
    pub closed spec fn seen_view(&self) -> Seq<(FsPath, String)> {
        self.seen@
    }

    /// The active indices are those of the targets, no more targets are
    /// resolved than are active, and no two recorded folders overlap.
    pub closed spec fn wf(&self) -> bool {
        &&& self.active@ == spec_active(self.targets.0@)
        &&& self.resolved@.len() <= self.active@.len()
        &&& pairwise_apart(self.seen@)
    }

    /// No two folders recorded so far are the same or lie one inside the
    /// other: every target that was recorded writes apart from the others.
    pub proof fn lemma_recorded_apart(&self)
        requires
            self.wf(),
        ensures
            pairwise_apart(self.seen_view()),
    {
    }

    /// Starts resolving the given targets: nothing resolved yet.
    pub fn new(targets: &'a ExportTargets) -> (s: ExportResolution<'a>)
        ensures
            s.wf(),
            s.targets_view() == targets.0@,
            s.active_view() == spec_active(targets.0@),
            s.resolved_view().len() == 0,
            s.seen_view().len() == 0,
    {
        ExportResolution { targets, active: targets.active(), resolved: Vec::new(), seen: Vec::new() }
    }

    /// The index of the target to resolve next: the next active one in
    /// declaration order; none once all are resolved.
    pub fn next(&self) -> (r: Option<usize>)
        requires
            self.wf(),
        ensures
            self.resolved_view().len() < self.active_view().len() ==> r == Some(
                self.active_view()[self.resolved_view().len() as int],
            ),
            self.resolved_view().len() >= self.active_view().len() ==> r is None,
    {
        if self.resolved.len() < self.active.len() {
            Some(self.active[self.resolved.len()])
        } else {
            None
        }
    }

    /// Records the folders of the next active target: its behavior and
    /// resource pack folders, their canonical forms when the file system
    /// gave them, and their text for messages. Each folder's collision key
    /// is checked against those recorded before (the behavior pack first);
    /// the first overlap refuses the target with a collision naming both.
    pub fn record(
        &mut self,
        current_dir: &FsPath,
        windows: bool,
        bp: FsPath,
        rp: FsPath,
        bp_canonical: Option<FsPath>,
        rp_canonical: Option<FsPath>,
        bp_text: &str,
        rp_text: &str,
    ) -> (r: Result<(), ExportError>)
        requires
            old(self).wf(),
            old(self).resolved_view().len() < old(self).active_view().len(),
        ensures
            final(self).wf(),
            final(self).targets_view() == old(self).targets_view(),
            final(self).active_view() == old(self).active_view(),
            ({
                let k = old(self).resolved_view().len() as int;
                let i = old(self).active_view()[k];
                let t = old(self).targets_view()[i as int];
                let label = spec_target_label(i as nat, spec_kind(t));
                let bp_label = label + " "@ + "behavior pack"@ + ": "@ + bp_text@;
                let rp_label = label + " "@ + "resource pack"@ + ": "@ + rp_text@;
                let seen = old(self).seen_view();
                let n = seen.len() as int;
                let bp_key = collision_key(bp@, opt_key(bp_canonical), current_dir@, windows);
                let rp_key = collision_key(rp@, opt_key(rp_canonical), current_dir@, windows);
                &&& match first_overlap(seen, bp_key, n) {
                    Some(j) => r matches Err(ExportError::Collision { first_label, second_label, path })
                        && first_label@ == seen[j].1@ && second_label@ == bp_label && path@ == bp_key,
                    None => match first_overlap(seen, rp_key, n) {
                        Some(j) => r matches Err(ExportError::Collision { first_label, second_label, path })
                            && first_label@ == seen[j].1@ && second_label@ == rp_label && path@ == rp_key,
                        None => if overlaps(rp_key, bp_key) {
                            r matches Err(ExportError::Collision { first_label, second_label, path })
                                && first_label@ == bp_label && second_label@ == rp_label && path@ == rp_key
                        } else {
                            &&& r is Ok
                            &&& final(self).seen_view().len() == n + 2
                            &&& final(self).seen_view().subrange(0, n) == seen
                            &&& final(self).seen_view()[n].0@ == bp_key
                            &&& final(self).seen_view()[n].1@ == bp_label
                            &&& final(self).seen_view()[n + 1].0@ == rp_key
                            &&& final(self).seen_view()[n + 1].1@ == rp_label
                        },
                    },
                }
                &&& r is Ok ==> {
                    &&& final(self).resolved_view().len() == k + 1
                    &&& final(self).resolved_view().subrange(0, k) == old(self).resolved_view()
                    &&& final(self).resolved_view()[k].bp@ == bp@
                    &&& final(self).resolved_view()[k].rp@ == rp@
                    &&& final(self).resolved_view()[k].read_only == spec_read_only(t)
                }
                &&& r is Err ==> final(self).resolved_view() == old(self).resolved_view()
            }),
    {
        let k = self.resolved.len();
        let i = self.active[k];
        let count = self.targets.0.len();
        proof {
            lemma_active_exact(self.targets.0@, self.targets.0@.len() as int);
        }
        let target = &self.targets.0[i];
        let label = target_label(i, target.kind());
        let bp_label = pack_label(label.as_str(), "behavior pack", bp_text);
        let rp_label = pack_label(label.as_str(), "resource pack", rp_text);
        let bp_key = match bp_canonical {
            Some(c) => c,
            None => normalize_export_path(&bp, current_dir, windows),
        };
        let rp_key = match rp_canonical {
            Some(c) => c,
            None => normalize_export_path(&rp, current_dir, windows),
        };
        let ghost seen0 = self.seen@;
        check_export_path_collision(&mut self.seen, bp_key, bp_label.as_str())?;
        proof {
            assert(first_overlap(self.seen@, rp_key@, seen0.len() + 1 as int) == match first_overlap(
                seen0,
                rp_key@,
                seen0.len() as int,
            ) {
                Some(j) => Some(j),
                None => if overlaps(rp_key@, self.seen@[seen0.len() as int].0@) {
                    Some(seen0.len() as int)
                } else {
                    None
                },
            }) by {
                lemma_first_overlap_prefix(seen0, self.seen@, rp_key@, seen0.len() as int);
            }
        }
        let ghost seen1 = self.seen@;
        proof {
            assert forall|j: int| 0 <= j < seen0.len() implies #[trigger] seen1[j] == seen0[j] by {
                assert(seen1.subrange(0, seen0.len() as int)[j] == seen1[j]);
            }
            assert(seen1[seen0.len() as int] == seen1.last());
            crate::export::lemma_first_overlap(seen0, rp_key@, seen0.len() as int);
            lemma_collision_check_keeps_apart(seen0, seen1, seen1.last().0@);
        }
        match check_export_path_collision(&mut self.seen, rp_key, rp_label.as_str()) {
            Err(e) => {
                return Err(e);
            },
            Ok(()) => {},
        }
        proof {
            assert(self.seen@[seen0.len() as int] == seen1[seen0.len() as int]);
            assert(self.seen@.subrange(0, seen0.len() as int) =~= seen0);
            assert(self.seen@.subrange(0, seen1.len() as int) =~= seen1);
            lemma_collision_check_keeps_apart(seen1, self.seen@, rp_key@);
        }
        let ghost before = self.resolved@;
        self.resolved.push(ResolvedTarget { bp, rp, read_only: target.read_only() });
        assert(self.resolved@.subrange(0, k as int) =~= before);
        Ok(())
    }

    /// The run's file system steps, once every active target is resolved:
    /// the working directory is linked into the single target when
    /// compatibility mode is off and exactly one target is active, and set
    /// up against the primary folders (see [`spec_primary`]). None while a
    /// target is left to resolve, or when there are no targets at all.
    pub fn plan(
        &self,
        clean: bool,
        compat: bool,
        temp: &Temp,
        bp: &Option<FsPath>,
        rp: &Option<FsPath>,
        data: &FsPath,
        dot_regolith: &FsPath,
    ) -> (r: Option<RunPlan>)
        requires
            self.wf(),
        ensures
            r is Some <==> self.resolved_view().len() == self.active_view().len() && self.targets_view().len() > 0,
            r matches Some(p) ==> {
                let resolved = self.resolved_view();
                let linked = !compat && resolved.len() == 1;
                let primary = spec_primary(resolved, dot_regolith@);
                &&& p.use_symlink == linked
                &&& actions_view(p.setup@) == spec_setup(
                    clean,
                    linked,
                    resolved,
                    *temp,
                    match bp {
                        Some(b) => Some(b@),
                        None => None,
                    },
                    match rp {
                        Some(x) => Some(x@),
                        None => None,
                    },
                    data@,
                    primary.0,
                    primary.1,
                )
                &&& actions_view(p.export@) == spec_export(
                    resolved,
                    linked,
                    *temp,
                    bp is Some,
                    rp is Some,
                    primary.0,
                    primary.1,
                )
            },
    {
        if self.resolved.len() < self.active.len() || self.targets.0.len() == 0 {
            return None;
        }
        let linked = use_symlink(compat, self.resolved.len());
        let (primary_bp, primary_rp) = if self.resolved.len() > 0 {
            (self.resolved[0].bp.copy(), self.resolved[0].rp.copy())
        } else {
            let count = self.targets.0.len();
            proof {
                let t = self.targets.0@;
                lemma_active_exact(t, t.len() as int);
                if !(t[0] is NoExport) {
                    assert(spec_active_upto(t, t.len() as int).contains(0int as usize));
                }
            }
            match &self.targets.0[0] {
                Export::NoExport(e) => e.get_paths(dot_regolith),
                _ => {
                    proof {
                        assert(false);
                    }
                    (FsPath::new(), FsPath::new())
                },
            }
        };
        let setup = plan_setup(clean, linked, &self.resolved, temp, bp, rp, data, &primary_bp, &primary_rp);
        let export = plan_export(&self.resolved, linked, temp, bp.is_some(), rp.is_some(), &primary_bp, &primary_rp);
        Some(RunPlan { use_symlink: linked, setup, export })
    }
}

/// The view of an optional path.
pub open spec fn opt_key(p: Option<FsPath>) -> Option<Seq<ComponentView>> {
    match p {
        Some(x) => Some(x@),
        None => None,
    }
}

proof fn lemma_first_overlap_prefix(
    seen: Seq<(FsPath, String)>,
    longer: Seq<(FsPath, String)>,
    p: Seq<ComponentView>,
    n: int,
)
    requires
        0 <= n <= seen.len(),
        longer.len() > seen.len(),
        longer.subrange(0, seen.len() as int) == seen,
    ensures
        first_overlap(longer, p, n) == first_overlap(seen, p, n),
    decreases n,
{
    if n > 0 {
        lemma_first_overlap_prefix(seen, longer, p, n - 1);
        assert(longer[n - 1] == longer.subrange(0, seen.len() as int)[n - 1]);
    }
}

} // verus!
