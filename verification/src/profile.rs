//! Profiles: an export value and the filters to run, in order, some of them
//! in parallel groups. This module decides what one entry of a profile
//! does: skip, run a filter with which arguments, or run a nested profile;
//! and how the outcomes of entries combine into the names of the filters
//! whose data is exported, or the error that stops the profile.

use vstd::prelude::*;
use crate::export::ExportTargets;

verus! {

/// One entry of a profile's `filters` list.
#[derive(Debug)]
pub enum FilterRunner {
    Filter {
        filter_name: String,
        disabled: bool,
        arguments: Option<Vec<String>>,
        /// The filter's settings, as JSON text.
        settings: Option<String>,
        /// The `when` condition.
        expression: Option<String>,
        /// How the run's extra arguments combine with `arguments`.
        extra_arguments_mode: Option<String>,
    },
    ProfileFilter { profile_name: String, disabled: bool },
}

/// An entry of a profile: one filter, or a group that runs in parallel.
pub enum ProfileEntry {
    Filter(FilterRunner),
    AsyncFilter { async_filters: Vec<FilterRunner> },
}

/// A profile: where to export, and what to run.
pub struct Profile {
    pub export: ExportTargets,
    pub filters: Vec<ProfileEntry>,
}

/// What one entry does.
#[derive(Debug)]
pub enum RunnerStep {
    /// A disabled filter, skipped.
    DisabledFilter(String),
    /// A disabled nested profile, skipped.
    DisabledProfile(String),
    /// Run a filter with these arguments, if its `when` condition, when
    /// present, holds.
    RunFilter { name: String, run_args: Vec<String>, expression: Option<String> },
    /// Run a nested profile, without the run's extra arguments.
    RunProfile(String),
}

/// Why an entry cannot run.
#[derive(Debug)]
pub enum ProfileError {
    /// The `extraArguments` value is not one of `ignore`, `override`,
    /// `append`.
    InvalidExtraArguments(String),
    /// A nested profile refers to the profile being run.
    CircularProfile(String),
}

pub open spec fn strings_of(v: Seq<String>) -> Seq<Seq<char>> {
    v.map_values(|s: String| s@)
}

/// The filter's own arguments combined with the run's extra arguments: no
/// mode (or `""` or `ignore`) keeps the filter's, `override` takes the
/// extra ones instead, `append` adds them after; any other mode is refused.
pub open spec fn spec_filter_arguments(
    arguments: Option<Vec<String>>,
    mode: Option<String>,
    extra: Seq<Seq<char>>,
) -> Result<Seq<Seq<char>>, Seq<char>> {
    let own = match arguments {
        Some(a) => strings_of(a@),
        None => seq![],
    };
    match mode {
        None => Ok(own),
        Some(m) => if m@ == ""@ || m@ == "ignore"@ {
            Ok(own)
        } else if m@ == "override"@ {
            Ok(extra)
        } else if m@ == "append"@ {
            Ok(own + extra)
        } else {
            Err(m@)
        },
    }
}

/// The arguments a filter runs with: its settings as JSON first, when
/// given, then its combined arguments.
pub open spec fn spec_run_args(
    settings: Option<String>,
    arguments: Option<Vec<String>>,
    mode: Option<String>,
    extra: Seq<Seq<char>>,
) -> Result<Seq<Seq<char>>, Seq<char>> {
    match spec_filter_arguments(arguments, mode, extra) {
        Err(m) => Err(m),
        Ok(args) => Ok(
            match settings {
                Some(s) => seq![s@],
                None => seq![],
            } + args,
        ),
    }
}

fn clone_strings(v: &Vec<String>) -> (r: Vec<String>)
    ensures
        r@ == v@,
{
    let mut r: Vec<String> = Vec::new();
    let n = v.len();
    let mut i: usize = 0;
    while i < n
        invariant
            n == v.len(),
            i <= n,
            r@ == v@.subrange(0, i as int),
        decreases n - i,
    {
        r.push(v[i].clone());
        assert(r@ =~= v@.subrange(0, i + 1));
        i = i + 1;
    }
    assert(v@.subrange(0, n as int) =~= v@);
    r
}

fn append_strings(r: &mut Vec<String>, v: &Vec<String>)
    ensures
        final(r)@ == old(r)@ + v@,
{
    let n = v.len();
    let mut i: usize = 0;
    while i < n
        invariant
            n == v.len(),
            i <= n,
            r@ == old(r)@ + v@.subrange(0, i as int),
        decreases n - i,
    {
        r.push(v[i].clone());
        assert(r@ =~= old(r)@ + v@.subrange(0, i + 1));
        i = i + 1;
    }
    assert(v@.subrange(0, n as int) =~= v@);
}

/// The names that the successful outcomes among the first `n` give, in
/// order.
pub open spec fn ok_names<E>(rs: Seq<Result<Vec<String>, E>>, n: int) -> Seq<Seq<char>>
    decreases n,
{
    if n <= 0 {
        seq![]
    } else {
        ok_names(rs, n - 1) + match rs[n - 1] {
            Ok(v) => strings_of(v@),
            Err(_) => seq![],
        }
    }
}

/// Adds the outcomes of a profile's entries, in declaration order, to the
/// names of the filters whose data is exported: each successful outcome
/// adds its names; the first failed one stops the profile, and its index is
/// given back, so that its error is the one reported.
pub fn merge_entry_results<E>(names: &mut Vec<String>, results: &Vec<Result<Vec<String>, E>>) -> (r: Result<(), usize>)
    ensures
        match r {
            Ok(()) => {
                &&& forall|k: int| 0 <= k < results.len() ==> #[trigger] results@[k] is Ok
                &&& strings_of(final(names)@) == strings_of(old(names)@) + ok_names(results@, results.len() as int)
            },
            Err(k) => {
                &&& k < results.len()
                &&& results@[k as int] is Err
                &&& forall|j: int| 0 <= j < k ==> #[trigger] results@[j] is Ok
                &&& strings_of(final(names)@) == strings_of(old(names)@) + ok_names(results@, k as int)
            },
        },
{
    let n = results.len();
    let mut i: usize = 0;
    while i < n
        invariant
            n == results.len(),
            i <= n,
            forall|j: int| 0 <= j < i ==> #[trigger] results@[j] is Ok,
            strings_of(names@) == strings_of(old(names)@) + ok_names(results@, i as int),
        decreases n - i,
    {
        match &results[i] {
            Ok(v) => {
                let ghost before = names@;
                append_strings(names, v);
                assert(strings_of(names@) =~= strings_of(before) + strings_of(v@));
                assert(ok_names(results@, i + 1) == ok_names(results@, i as int) + strings_of(v@));
                assert(strings_of(names@) =~= strings_of(old(names)@) + ok_names(results@, i + 1));
            },
            Err(_) => {
                return Err(i);
            },
        }
        i = i + 1;
    }
    Ok(())
}

fn is_text(s: &String, lit: &str) -> (b: bool)
    ensures
        b == (s@ == lit@),
{
    s.eq(&lit.to_owned())
}

impl FilterRunner {
    /// The name of the filter or nested profile.
    pub fn get_name(&self) -> (s: &String)
        ensures
            match self {
                FilterRunner::Filter { filter_name, .. } => s == filter_name,
                FilterRunner::ProfileFilter { profile_name, .. } => s == profile_name,
            },
    {
        match self {
            FilterRunner::Filter { filter_name, .. } => filter_name,
            FilterRunner::ProfileFilter { profile_name, .. } => profile_name,
        }
    }

    /// What this entry does when the profile `root_profile` runs with
    /// `extra_args`: disabled entries are skipped; a filter runs with its
    /// settings and combined arguments; a nested profile runs, unless it is
    /// the profile being run.
    pub fn plan(&self, root_profile: &str, extra_args: &Vec<String>) -> (r: Result<RunnerStep, ProfileError>)
        ensures
            match self {
                FilterRunner::Filter { filter_name, disabled, arguments, settings, expression, extra_arguments_mode } => {
                    if *disabled {
                        r matches Ok(RunnerStep::DisabledFilter(n)) && n@ == filter_name@
                    } else {
                        match spec_run_args(*settings, *arguments, *extra_arguments_mode, strings_of(extra_args@)) {
                            Ok(a) => r matches Ok(RunnerStep::RunFilter { name, run_args, expression: e })
                                && name@ == filter_name@ && strings_of(run_args@) == a && e == *expression,
                            Err(m) => r matches Err(ProfileError::InvalidExtraArguments(x)) && x@ == m,
                        }
                    }
                },
                FilterRunner::ProfileFilter { profile_name, disabled } => {
                    if *disabled {
                        r matches Ok(RunnerStep::DisabledProfile(n)) && n@ == profile_name@
                    } else if profile_name@ == root_profile@ {
                        r matches Err(ProfileError::CircularProfile(n)) && n@ == profile_name@
                    } else {
                        r matches Ok(RunnerStep::RunProfile(n)) && n@ == profile_name@
                    }
                },
            },
    {
        match self {
            FilterRunner::Filter { filter_name, disabled, arguments, settings, expression, extra_arguments_mode } => {
                if *disabled {
                    return Ok(RunnerStep::DisabledFilter(filter_name.clone()));
                }
                let mut run_args: Vec<String> = Vec::new();
                if let Some(s) = settings {
                    run_args.push(s.clone());
                }
                let ghost head = run_args@;
                let own = match arguments {
                    Some(a) => clone_strings(a),
                    None => Vec::new(),
                };
                let ghost own_v = strings_of(own@);
                let combined = match extra_arguments_mode {
                    None => own,
                    Some(m) => {
                        if is_text(m, "") || is_text(m, "ignore") {
                            own
                        } else if is_text(m, "override") {
                            clone_strings(extra_args)
                        } else if is_text(m, "append") {
                            let mut c = own;
                            append_strings(&mut c, extra_args);
                            assert(strings_of(c@) =~= own_v + strings_of(extra_args@));
                            c
                        } else {
                            return Err(ProfileError::InvalidExtraArguments(m.clone()));
                        }
                    },
                };
                proof {
                    let own_spec = match arguments {
                        Some(a) => strings_of(a@),
                        None => seq![],
                    };
                    assert(own_v =~= own_spec);
                }
                append_strings(&mut run_args, &combined);
                assert(strings_of(run_args@) =~= strings_of(head) + strings_of(combined@));
                proof {
                    match settings {
                        Some(s) => assert(strings_of(head) =~= seq![s@]),
                        None => assert(strings_of(head) =~= Seq::<Seq<char>>::empty()),
                    }
                }
                let expression = match expression {
                    Some(e) => Some(e.clone()),
                    None => None,
                };
                Ok(RunnerStep::RunFilter { name: filter_name.clone(), run_args, expression })
            },
            FilterRunner::ProfileFilter { profile_name, disabled } => {
                if *disabled {
                    return Ok(RunnerStep::DisabledProfile(profile_name.clone()));
                }
                if profile_name.eq(&root_profile.to_owned()) {
                    return Err(ProfileError::CircularProfile(profile_name.clone()));
                }
                Ok(RunnerStep::RunProfile(profile_name.clone()))
            },
        }
    }
}

/// A profile run in progress: its entries run one after the other in
/// declaration order, each adding the names of the filters whose data is
/// exported, until all have run or one fails.
pub struct ProfileProgress {
    count: usize,
    done: usize,
    names: Vec<String>,
}

impl ProfileProgress {
    /// The number of entries of the profile.
    pub closed spec fn count_view(&self) -> nat {
        self.count as nat
    }

    /// The number of entries that have run.
    pub closed spec fn done_view(&self) -> nat {
        self.done as nat
    }

    /// The names gathered so far, in order.
    pub closed spec fn names_view(&self) -> Seq<Seq<char>> {
        strings_of(self.names@)
    }

    /// No more entries have run than there are.
    pub closed spec fn wf(&self) -> bool {
        self.done <= self.count
    }

    /// A run of a profile with `count` entries, none of them run yet.
    pub fn new(count: usize) -> (p: ProfileProgress)
        ensures
            p.wf(),
            p.count_view() == count,
            p.done_view() == 0,
            p.names_view() == Seq::<Seq<char>>::empty(),
    {
        let p = ProfileProgress { count, done: 0, names: Vec::new() };
        assert(strings_of(p.names@) =~= Seq::<Seq<char>>::empty());
        p
    }

    /// The index of the entry to run next; none once all have run.
    pub fn next(&self) -> (r: Option<usize>)
        requires
            self.wf(),
        ensures
            self.done_view() < self.count_view() ==> r == Some(self.done_view() as usize),
            self.done_view() >= self.count_view() ==> r is None,
    {
        if self.done < self.count {
            Some(self.done)
        } else {
            None
        }
    }

    /// Takes in the outcomes of the entry that ran (one for a single
    /// filter, one per filter of a parallel group, in declaration order).
    /// When all succeeded, their names are added and the next entry is due;
    /// otherwise the index of the first failed outcome is given back, and
    /// its error is the one the profile fails with.
    pub fn finish_entry<E>(&mut self, results: &Vec<Result<Vec<String>, E>>) -> (r: Result<(), usize>)
        requires
            old(self).wf(),
            old(self).done_view() < old(self).count_view(),
        ensures
            final(self).wf(),
            final(self).count_view() == old(self).count_view(),
            match r {
                Ok(()) => {
                    &&& forall|k: int| 0 <= k < results.len() ==> #[trigger] results@[k] is Ok
                    &&& final(self).done_view() == old(self).done_view() + 1
                    &&& final(self).names_view() == old(self).names_view() + ok_names(results@, results.len() as int)
                },
                Err(k) => {
                    &&& k < results.len()
                    &&& results@[k as int] is Err
                    &&& forall|j: int| 0 <= j < k ==> #[trigger] results@[j] is Ok
                    &&& final(self).done_view() == old(self).done_view()
                },
            },
    {
        let r = merge_entry_results(&mut self.names, results);
        if r.is_ok() {
            self.done = self.done + 1;
        }
        r
    }

    /// The names gathered from the entries that ran.
    pub fn into_names(self) -> (v: Vec<String>)
        ensures
            strings_of(v@) == self.names_view(),
    {
        self.names
    }
}

/// A filter's own arguments: those given, or none.
pub open spec fn own_arguments(arguments: Option<Vec<String>>) -> Seq<Seq<char>> {
    match arguments {
        Some(a) => strings_of(a@),
        None => Seq::<Seq<char>>::empty(),
    }
}

/// How the run's extra arguments combine with a filter's own ones, for
/// every mode and every argument list: no mode, `""` and `ignore` keep the
/// filter's own arguments and drop the extra ones; `override` uses the extra
/// ones instead; `append` puts them after the filter's own; any other mode
/// is refused by name. The settings, when given, come first.
pub proof fn lemma_extra_arguments_modes(
    arguments: Option<Vec<String>>,
    mode: String,
    settings: Option<String>,
    extra: Seq<Seq<char>>,
)
    ensures
        spec_filter_arguments(arguments, None, extra) == Ok::<Seq<Seq<char>>, Seq<char>>(own_arguments(arguments)),
        (mode@ == ""@ || mode@ == "ignore"@) ==> spec_filter_arguments(arguments, Some(mode), extra) == Ok::<
            Seq<Seq<char>>,
            Seq<char>,
        >(own_arguments(arguments)),
        mode@ == "override"@ ==> spec_filter_arguments(arguments, Some(mode), extra) == Ok::<
            Seq<Seq<char>>,
            Seq<char>,
        >(extra),
        mode@ == "append"@ ==> spec_filter_arguments(arguments, Some(mode), extra) == Ok::<
            Seq<Seq<char>>,
            Seq<char>,
        >(own_arguments(arguments) + extra),
        !(mode@ == ""@ || mode@ == "ignore"@ || mode@ == "override"@ || mode@ == "append"@)
            ==> spec_filter_arguments(arguments, Some(mode), extra) == Err::<Seq<Seq<char>>, Seq<char>>(mode@),
        forall|m: Option<String>|
            #[trigger] spec_filter_arguments(arguments, m, extra) is Ok
                ==> spec_run_args(settings, arguments, m, extra) == Ok::<Seq<Seq<char>>, Seq<char>>(
                match settings {
                    Some(s) => seq![s@],
                    None => Seq::<Seq<char>>::empty(),
                } + spec_filter_arguments(arguments, m, extra)->Ok_0,
            ),
{
    reveal_strlit("");
    reveal_strlit("ignore");
    reveal_strlit("override");
    reveal_strlit("append");
    assert(""@.len() == 0);
    assert("override"@.len() == 8 && "override"@[0] == 'o');
    assert("append"@.len() == 6 && "append"@[0] == 'a');
    assert("ignore"@.len() == 6 && "ignore"@[0] == 'i');
    assert("override"@ != ""@ && "override"@ != "ignore"@);
    assert("append"@ != ""@ && "append"@ != "ignore"@ && "append"@ != "override"@);
}

/// With the `ignore` mode (or none) a filter's arguments do not depend on
/// the run's extra arguments at all.
pub proof fn lemma_ignore_drops_extra(
    arguments: Option<Vec<String>>,
    mode: Option<String>,
    extra1: Seq<Seq<char>>,
    extra2: Seq<Seq<char>>,
)
    requires
        mode matches Some(m) ==> m@ == ""@ || m@ == "ignore"@,
    ensures
        spec_filter_arguments(arguments, mode, extra1) == spec_filter_arguments(arguments, mode, extra2),
        spec_filter_arguments(arguments, mode, extra1) is Ok,
{
}

} // verus!
