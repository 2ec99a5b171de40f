//! The working directory in which rgl runs filters.

use vstd::prelude::*;
use crate::path::{has_prefix, lemma_join_keeps_absolute, spec_is_absolute, spec_join, spec_starts_with, ComponentView, FsPath};
use crate::paths::{child, lemma_siblings_apart};
use crate::digest::{project_hash, spec_project_hash};

verus! {

/// The working directory and its pack and data subdirectories.
pub struct Temp {
    pub bp: FsPath,
    pub rp: FsPath,
    pub data: FsPath,
    pub root: FsPath,
}

/// The directory in which rgl builds filters: `<dot_regolith>/tmp` by
/// default; with a `tmp_dir` setting, an absolute one gets a subdirectory
/// keyed by the project hash and a relative one is resolved inside the
/// `.regolith` directory, like the default `tmp` folder name.
pub open spec fn spec_working_dir(
    tmp_dir: Option<Seq<ComponentView>>,
    windows: bool,
    dot_regolith: Seq<ComponentView>,
    current_dir_text: Seq<char>,
) -> Seq<ComponentView> {
    match tmp_dir {
        None => child(dot_regolith, "tmp"@),
        Some(t) => if spec_is_absolute(t, windows) {
            child(t, spec_project_hash(current_dir_text))
        } else {
            spec_join(dot_regolith, t)
        },
    }
}

/// The directory in which rgl builds filters; see [`spec_working_dir`].
/// `tmp_dir` is the user setting of that name, taken as a path. The result
/// is absolute when the `.regolith` directory is, unless a relative
/// `tmp_dir` carries a drive prefix of its own (such as `D:tmp`), which
/// `Path::join` keeps as it is.
pub fn get_working_dir(
    tmp_dir: Option<&FsPath>,
    windows: bool,
    dot_regolith: &FsPath,
    current_dir_text: &str,
) -> (r: FsPath)
    ensures
        r@ == spec_working_dir(
            match tmp_dir {
                Some(t) => Some(t@),
                None => None,
            },
            windows,
            dot_regolith@,
            current_dir_text@,
        ),
        spec_is_absolute(dot_regolith@, windows) && (tmp_dir matches Some(t) ==> !has_prefix(t@)
            || spec_is_absolute(t@, windows)) ==> spec_is_absolute(r@, windows),
{
    proof {
        match tmp_dir {
            Some(t) => {
                lemma_join_keeps_absolute(dot_regolith@, t@, windows);
                lemma_join_keeps_absolute(
                    t@,
                    seq![ComponentView::Normal(spec_project_hash(current_dir_text@))],
                    windows,
                );
            },
            None => lemma_join_keeps_absolute(dot_regolith@, seq![ComponentView::Normal("tmp"@)], windows),
        }
    }
    match tmp_dir {
        None => dot_regolith.join_name("tmp"),
        Some(t) => {
            if t.is_absolute(windows) {
                let hash = project_hash(current_dir_text);
                t.join_name(hash.as_str())
            } else {
                dot_regolith.join(t)
            }
        },
    }
}

impl Temp {
    /// The working directory with its `BP`, `RP` and `data` subdirectories.
    pub fn from_dot_regolith(
        tmp_dir: Option<&FsPath>,
        windows: bool,
        dot_regolith: &FsPath,
        current_dir_text: &str,
    ) -> (t: Temp)
        ensures
            t.root@ == spec_working_dir(
                match tmp_dir {
                    Some(p) => Some(p@),
                    None => None,
                },
                windows,
                dot_regolith@,
                current_dir_text@,
            ),
            t.bp@ == child(t.root@, "BP"@),
            t.rp@ == child(t.root@, "RP"@),
            t.data@ == child(t.root@, "data"@),
    {
        let temp = get_working_dir(tmp_dir, windows, dot_regolith, current_dir_text);
        Temp {
            bp: temp.join_name("BP"),
            rp: temp.join_name("RP"),
            data: temp.join_name("data"),
            root: temp,
        }
    }
}

/// The three subdirectories of the working directory are distinct and none
/// lies inside another, whatever the working directory is.
pub proof fn lemma_temp_dirs_apart(root: Seq<ComponentView>)
    ensures
        child(root, "BP"@) != child(root, "RP"@),
        child(root, "BP"@) != child(root, "data"@),
        child(root, "RP"@) != child(root, "data"@),
        !spec_starts_with(child(root, "BP"@), child(root, "RP"@)),
        !spec_starts_with(child(root, "RP"@), child(root, "BP"@)),
        !spec_starts_with(child(root, "BP"@), child(root, "data"@)),
        !spec_starts_with(child(root, "data"@), child(root, "BP"@)),
        !spec_starts_with(child(root, "RP"@), child(root, "data"@)),
        !spec_starts_with(child(root, "data"@), child(root, "RP"@)),
{
    reveal_strlit("BP");
    reveal_strlit("RP");
    reveal_strlit("data");
    assert("BP"@[0] != "RP"@[0]);
    assert("data"@.len() == 4);
    lemma_siblings_apart(root, "BP"@, "RP"@);
    lemma_siblings_apart(root, "BP"@, "data"@);
    lemma_siblings_apart(root, "RP"@, "data"@);
}

} // verus!
