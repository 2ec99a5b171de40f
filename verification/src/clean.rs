//! The `clean` and `update-resolvers` commands.

use vstd::prelude::*;
use crate::path::{spec_starts_with, ComponentView, FsPath};
use crate::paths::{
    child, get_app_data_dot_regolith_dir, get_filters_cache_dir, get_project_cache_dir,
    get_repo_cache_dir, lemma_cache_areas_apart, spec_app_data_dot_regolith_dir,
    spec_dot_regolith_dir, spec_filters_cache_dir, spec_project_cache_dir, spec_repo_cache_dir,
};

verus! {

/// Clean the current project's cache and build files.
pub struct Clean {
    /// Clear all caches stored in the user's app data directory, instead of
    /// the cache of the current project.
    pub user_cache: bool,
    /// Clear the shared filter repository cache, instead of the cache of
    /// the current project.
    pub filter_cache: bool,
}

/// Force-update the cached resolver repositories, bypassing the update
/// cooldown.
pub struct UpdateResolvers;

/// What a removed folder is, for the messages around its removal.
#[derive(Debug)]
pub enum CleanTarget {
    ProjectCaches,
    FilterRepositories,
    InstalledFilters,
    DotRegolith,
    AppDataDotRegolith,
    Build,
}

/// One step of `clean`.
#[derive(Debug)]
pub enum CleanStep {
    /// Check that the current folder holds a valid project.
    ValidateProject,
    /// Take the project's session lock.
    LockSession,
    /// Remove a folder with everything in it.
    Remove { path: FsPath, what: CleanTarget },
    /// Release the session lock.
    UnlockSession,
}

/// The folders a list of steps removes.
pub open spec fn removed(steps: Seq<CleanStep>) -> Seq<Seq<ComponentView>>
    decreases steps.len(),
{
    if steps.len() == 0 {
        seq![]
    } else {
        match steps.last() {
            CleanStep::Remove { path, .. } => removed(steps.drop_last()).push(path@),
            _ => removed(steps.drop_last()),
        }
    }
}

impl Clean {
    /// The steps of `clean`: with `--user-cache`, remove the project caches
    /// of the shared cache folder; with `--filter-cache`, remove the filter
    /// repository cache and the installed filters; otherwise check the
    /// project, lock its session, remove both places its `.regolith` folder
    /// may be (whatever `use_project_app_data_storage` says) and its `build`
    /// folder, and unlock.
    pub fn dispatch(&self, cache_dir: &FsPath, current_dir: &FsPath, current_dir_text: &str) -> (steps: Vec<CleanStep>)
        ensures
            self.user_cache ==> {
                &&& steps@.len() == 1
                &&& steps@[0] matches CleanStep::Remove { path, what: CleanTarget::ProjectCaches } && path@ == spec_project_cache_dir(cache_dir@)
            },
            !self.user_cache && self.filter_cache ==> {
                &&& steps@.len() == 2
                &&& steps@[0] matches CleanStep::Remove { path: p0, what: CleanTarget::FilterRepositories } && p0@ == spec_repo_cache_dir(cache_dir@)
                &&& steps@[1] matches CleanStep::Remove { path: p1, what: CleanTarget::InstalledFilters } && p1@ == spec_filters_cache_dir(cache_dir@)
            },
            !self.user_cache && !self.filter_cache ==> {
                &&& steps@.len() == 6
                &&& steps@[0] is ValidateProject
                &&& steps@[1] is LockSession
                &&& steps@[2] matches CleanStep::Remove { path: p2, what: CleanTarget::DotRegolith } && p2@ == child(current_dir@, ".regolith"@)
                &&& steps@[3] matches CleanStep::Remove { path: p3, what: CleanTarget::AppDataDotRegolith } && p3@ == spec_app_data_dot_regolith_dir(cache_dir@, current_dir_text@)
                &&& steps@[4] matches CleanStep::Remove { path: p4, what: CleanTarget::Build } && p4@ == seq![ComponentView::Normal("build"@)]
                &&& steps@[5] is UnlockSession
            },
    {
        if self.user_cache {
            return vec![CleanStep::Remove { path: get_project_cache_dir(cache_dir), what: CleanTarget::ProjectCaches }];
        }
        if self.filter_cache {
            return vec![
                CleanStep::Remove { path: get_repo_cache_dir(cache_dir), what: CleanTarget::FilterRepositories },
                CleanStep::Remove { path: get_filters_cache_dir(cache_dir), what: CleanTarget::InstalledFilters },
            ];
        }
        vec![
            CleanStep::ValidateProject,
            CleanStep::LockSession,
            CleanStep::Remove { path: current_dir.join_name(".regolith"), what: CleanTarget::DotRegolith },
            CleanStep::Remove {
                path: get_app_data_dot_regolith_dir(current_dir_text, cache_dir),
                what: CleanTarget::AppDataDotRegolith,
            },
            CleanStep::Remove { path: FsPath::from_name("build"), what: CleanTarget::Build },
            CleanStep::UnlockSession,
        ]
    }

    /// The context given to an error of this command.
    pub fn error_context(&self) -> (s: String)
        ensures
            s@ == "Error cleaning files"@,
    {
        "Error cleaning files".to_owned()
    }
}

impl UpdateResolvers {
    /// The context given to an error of this command.
    pub fn error_context(&self) -> (s: String)
        ensures
            s@ == "Error updating resolvers"@,
    {
        "Error updating resolvers".to_owned()
    }
}

/// Cleaning a project removes its `.regolith` folder wherever the
/// `use_project_app_data_storage` setting puts it, so that switching the
/// setting leaves no stale cache behind.
pub proof fn lemma_clean_removes_dot_regolith(
    steps: Seq<CleanStep>,
    use_app_data: bool,
    cache_dir: Seq<ComponentView>,
    current_dir: Seq<ComponentView>,
    current_dir_text: Seq<char>,
)
    requires
        steps.len() == 6,
        steps[2] matches CleanStep::Remove { path: p2, .. } && p2@ == child(current_dir, ".regolith"@),
        steps[3] matches CleanStep::Remove { path: p3, .. } && p3@ == spec_app_data_dot_regolith_dir(cache_dir, current_dir_text),
    ensures
        steps[2] matches CleanStep::Remove { path: p2, .. } && steps[3] matches CleanStep::Remove { path: p3, .. } && (
        p2@ == spec_dot_regolith_dir(use_app_data, current_dir, current_dir_text, cache_dir)
            || p3@ == spec_dot_regolith_dir(use_app_data, current_dir, current_dir_text, cache_dir)),
{
}

/// Clearing the user cache leaves the filter caches alone, and clearing the
/// filter caches leaves the project caches alone: no removed folder lies
/// inside, or holds, a folder of the other kind.
pub proof fn lemma_clean_modes_apart(cache_dir: Seq<ComponentView>)
    ensures
        !spec_starts_with(spec_repo_cache_dir(cache_dir), spec_project_cache_dir(cache_dir)),
        !spec_starts_with(spec_filters_cache_dir(cache_dir), spec_project_cache_dir(cache_dir)),
        !spec_starts_with(spec_project_cache_dir(cache_dir), spec_repo_cache_dir(cache_dir)),
        !spec_starts_with(spec_project_cache_dir(cache_dir), spec_filters_cache_dir(cache_dir)),
{
    lemma_cache_areas_apart(cache_dir);
}

} // verus!
