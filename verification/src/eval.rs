//! What filter conditions and name templates are evaluated against: the
//! run-wide state, the variables exposed to an expression, and how an
//! expression's value is read as a condition or a name.

use vstd::prelude::*;

verus! {

/// The run-wide state exposed to expressions.
#[derive(Debug)]
pub struct RunState {
    /// `run` or `watch`, set once near the start of the command.
    pub mode: Option<String>,
    /// Whether the profile run about to happen is the first of the process.
    pub initial: bool,
    /// The project's name and author.
    pub project_name: String,
    pub project_author: Option<String>,
}

impl RunState {
    /// The state before anything is set: no mode, the first run, an
    /// unnamed project without author.
    pub fn new() -> (s: RunState)
        ensures
            s.mode is None,
            s.initial,
            s.project_name@ == Seq::<char>::empty(),
            s.project_author is None,
    {
        RunState { mode: None, initial: true, project_name: String::new(), project_author: None }
    }

    /// Sets the run mode for the whole process; only the first setting
    /// counts.
    pub fn set_run_mode(&mut self, mode: &str)
        ensures
            old(self).mode is None ==> (final(self).mode matches Some(m) && m@ == mode@),
            old(self).mode is Some ==> final(self).mode == old(self).mode,
            final(self).initial == old(self).initial,
            final(self).project_name == old(self).project_name,
            final(self).project_author == old(self).project_author,
    {
        if self.mode.is_none() {
            self.mode = Some(mode.to_owned());
        }
    }

    /// The run mode, `run` when none was set.
    pub fn run_mode(&self) -> (s: String)
        ensures
            match self.mode {
                Some(m) => s@ == m@,
                None => s@ == "run"@,
            },
    {
        match &self.mode {
            Some(m) => m.clone(),
            None => "run".to_owned(),
        }
    }

    /// Marks whether the profile run about to happen is the first one.
    pub fn set_run_initial(&mut self, initial: bool)
        ensures
            final(self).initial == initial,
            final(self).mode == old(self).mode,
            final(self).project_name == old(self).project_name,
            final(self).project_author == old(self).project_author,
    {
        self.initial = initial;
    }

    /// Whether the top-level profile run is the first one of the process.
    pub fn get_run_initial(&self) -> (b: bool)
        ensures
            b == self.initial,
    {
        self.initial
    }

    /// Sets the project's name and author.
    pub fn set_project_info(&mut self, name: &str, author: Option<&str>)
        ensures
            final(self).project_name@ == name@,
            match author {
                Some(a) => final(self).project_author matches Some(x) && x@ == a@,
                None => final(self).project_author is None,
            },
            final(self).mode == old(self).mode,
            final(self).initial == old(self).initial,
    {
        self.project_name = name.to_owned();
        self.project_author = match author {
            Some(a) => Some(a.to_owned()),
            None => None,
        };
    }
}

/// A variable's value in an expression's scope. Three are supplied by the
/// caller: the filter's settings, the number pi and the environment.
#[derive(Debug)]
pub enum ScopeValue {
    Text(String),
    Bool(bool),
    Null,
    /// The filter's settings object.
    Settings,
    /// The number pi.
    Pi,
    /// The project object.
    Project { name: String, author: Option<String> },
    /// The process environment, as an object of strings.
    Environment,
}

pub enum ScopeValueView {
    Text(Seq<char>),
    Bool(bool),
    Null,
    Settings,
    Pi,
    Project(Seq<char>, Option<Seq<char>>),
    Environment,
}

impl View for ScopeValue {
    type V = ScopeValueView;

    open spec fn view(&self) -> ScopeValueView {
        match self {
            ScopeValue::Text(s) => ScopeValueView::Text(s@),
            ScopeValue::Bool(b) => ScopeValueView::Bool(*b),
            ScopeValue::Null => ScopeValueView::Null,
            ScopeValue::Settings => ScopeValueView::Settings,
            ScopeValue::Pi => ScopeValueView::Pi,
            ScopeValue::Project { name, author } => ScopeValueView::Project(
                name@,
                match author {
                    Some(a) => Some(a@),
                    None => None,
                },
            ),
            ScopeValue::Environment => ScopeValueView::Environment,
        }
    }
}

pub open spec fn scope_view(v: Seq<(String, ScopeValue)>) -> Seq<(Seq<char>, ScopeValueView)> {
    v.map_values(|e: (String, ScopeValue)| (e.0@, e.1@))
}

/// What a run's state exposes as the `mode` variable.
pub open spec fn spec_mode(state: RunState) -> Seq<char> {
    match state.mode {
        Some(m) => m@,
        None => "run"@,
    }
}

/// The variables of an expression's scope, in order.
pub open spec fn spec_scope(
    profile: Seq<char>,
    filter_location: Seq<char>,
    has_settings: bool,
    debug: bool,
    nested: bool,
    initial: bool,
    state: RunState,
    os: Seq<char>,
    arch: Seq<char>,
    version: Seq<char>,
) -> Seq<(Seq<char>, ScopeValueView)> {
    seq![
        ("os"@, ScopeValueView::Text(os)),
        ("arch"@, ScopeValueView::Text(arch)),
        ("version"@, ScopeValueView::Text(version)),
        ("profile"@, ScopeValueView::Text(profile)),
        ("filterLocation"@, ScopeValueView::Text(filter_location)),
        ("mode"@, ScopeValueView::Text(spec_mode(state))),
        ("settings"@, if has_settings { ScopeValueView::Settings } else { ScopeValueView::Null }),
        ("debug"@, ScopeValueView::Bool(debug)),
        ("pi"@, ScopeValueView::Pi),
        ("nested"@, ScopeValueView::Bool(nested)),
        ("initial"@, ScopeValueView::Bool(initial && !nested)),
        (
            "project"@,
            ScopeValueView::Project(
                state.project_name@,
                match state.project_author {
                    Some(a) => Some(a@),
                    None => None,
                },
            ),
        ),
        ("env"@, ScopeValueView::Environment),
    ]
}

fn entry(name: &str, value: ScopeValue) -> (e: (String, ScopeValue))
    ensures
        e.0@ == name@,
        e.1 == value,
{
    (name.to_owned(), value)
}

/// The variables that a `when` condition or a name template sees: the
/// platform, rgl's version, the profile, the filter's folder, the run mode,
/// the filter's settings (`null` without), the debug flag, pi, whether the
/// filter is in a nested profile, whether this is the first run (never
/// inside a nested profile), the project and the environment.
pub fn scope_variables(
    profile: &str,
    filter_location: &str,
    has_settings: bool,
    debug: bool,
    nested: bool,
    initial: bool,
    state: &RunState,
    os: &str,
    arch: &str,
    version: &str,
) -> (v: Vec<(String, ScopeValue)>)
    ensures
        scope_view(v@) == spec_scope(
            profile@,
            filter_location@,
            has_settings,
            debug,
            nested,
            initial,
            *state,
            os@,
            arch@,
            version@,
        ),
{
    let author = match &state.project_author {
        Some(a) => Some(a.clone()),
        None => None,
    };
    let v = vec![
        entry("os", ScopeValue::Text(os.to_owned())),
        entry("arch", ScopeValue::Text(arch.to_owned())),
        entry("version", ScopeValue::Text(version.to_owned())),
        entry("profile", ScopeValue::Text(profile.to_owned())),
        entry("filterLocation", ScopeValue::Text(filter_location.to_owned())),
        entry("mode", ScopeValue::Text(state.run_mode())),
        entry("settings", if has_settings { ScopeValue::Settings } else { ScopeValue::Null }),
        entry("debug", ScopeValue::Bool(debug)),
        entry("pi", ScopeValue::Pi),
        entry("nested", ScopeValue::Bool(nested)),
        entry("initial", ScopeValue::Bool(initial && !nested)),
        entry("project", ScopeValue::Project { name: state.project_name.clone(), author }),
        entry("env", ScopeValue::Environment),
    ];
    assert(scope_view(v@) =~= spec_scope(
        profile@,
        filter_location@,
        has_settings,
        debug,
        nested,
        initial,
        *state,
        os@,
        arch@,
        version@,
    ));
    v
}

/// An expression's value, as far as reading it needs: a number is known
/// by whether it is zero.
#[derive(Debug)]
pub enum ExprValue {
    Text(String),
    Number { is_zero: bool },
    Bool(bool),
    Null,
    /// An array or an object.
    Other,
}

/// Why an expression's value cannot be read as asked.
#[derive(Debug)]
pub enum EvalError {
    /// The value of a condition is an array or an object.
    InvalidResult,
    /// The value of a name template is not a string.
    NotAString,
}

/// Whether a condition holds: a non-empty string, a non-zero number,
/// `true`; `null` does not; an array or object is an error.
pub fn truthiness(v: &ExprValue) -> (r: Result<bool, EvalError>)
    ensures
        match v {
            ExprValue::Text(s) => r == Ok::<bool, EvalError>(s@.len() > 0),
            ExprValue::Number { is_zero } => r == Ok::<bool, EvalError>(!*is_zero),
            ExprValue::Bool(b) => r == Ok::<bool, EvalError>(*b),
            ExprValue::Null => r == Ok::<bool, EvalError>(false),
            ExprValue::Other => r matches Err(EvalError::InvalidResult),
        },
{
    match v {
        ExprValue::Text(s) => Ok(!s.as_str().is_empty()),
        ExprValue::Number { is_zero } => Ok(!*is_zero),
        ExprValue::Bool(b) => Ok(*b),
        ExprValue::Null => Ok(false),
        ExprValue::Other => Err(EvalError::InvalidResult),
    }
}

/// A name template's value, which must be a string.
pub fn expect_string(v: ExprValue) -> (r: Result<String, EvalError>)
    ensures
        match v {
            ExprValue::Text(s) => r == Ok::<String, EvalError>(s),
            _ => r matches Err(EvalError::NotAString),
        },
{
    match v {
        ExprValue::Text(s) => Ok(s),
        _ => Err(EvalError::NotAString),
    }
}

/// The file environment variables are loaded from: the one given, unless
/// empty, else `.env`.
pub fn env_file_name(env: Option<&str>) -> (s: String)
    ensures
        match env {
            Some(e) => if e@.len() > 0 { s@ == e@ } else { s@ == ".env"@ },
            None => s@ == ".env"@,
        },
{
    match env {
        Some(e) => if !e.is_empty() {
            e.to_owned()
        } else {
            ".env".to_owned()
        },
        None => ".env".to_owned(),
    }
}

} // verus!
