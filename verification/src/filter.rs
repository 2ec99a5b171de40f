//! Filters: their definitions, the context a filter runs in, and the
//! commands that run a filter or install its dependencies.

use vstd::prelude::*;
use crate::path::{spec_join, spec_parent, ComponentView, FsPath, Component};
use crate::paths::{child, get_filter_cache_dir, spec_filter_cache_dir};
use crate::subprocess::{args_view, texts, Arg, ArgView, Run, Subprocess};
use crate::text::{decimal, spec_decimal};
use crate::user_config::{or_default, spec_runner_override, UserConfig};

verus! {

/// A filter's `filter.json` settings that rgl reads.
#[derive(Debug)]
pub struct RemoteFilterConfig {
    /// Whether the filter's data folder is exported back to the project.
    pub export_data: bool,
}

/// A filter installed from a remote repository.
pub struct RemoteFilter {
    pub url: String,
    pub version: String,
}

/// A filter that runs a local script with `bun`.
pub struct FilterBun {
    pub script: FsPath,
}

/// A filter that runs a .NET program.
pub struct FilterDotnet {
    pub path: FsPath,
}

/// A filter that compiles and runs a Nim script.
pub struct FilterNim {
    pub script: FsPath,
    /// Folder with the nimble file; the script's folder when absent.
    pub requirements: Option<FsPath>,
}

/// A filter that runs a JavaScript script.
pub struct FilterNodejs {
    pub script: FsPath,
    /// Folder with the `package.json` file; the script's folder when absent.
    /// Only the `node` runtime uses it.
    pub requirements: Option<FsPath>,
}

/// A filter that runs a Python script.
pub struct FilterPython {
    pub script: FsPath,
    /// The requirements file, relative to the filter's folder;
    /// `requirements.txt` next to the script when absent.
    pub requirements: Option<FsPath>,
    /// Filters sharing a slot share one virtual environment in the cache.
    pub venv_slot: Option<u32>,
}

/// A filter defined in the project.
pub enum LocalFilter {
    Bun(FilterBun),
    Dotnet(FilterDotnet),
    Nim(FilterNim),
    Nodejs(FilterNodejs),
    Python(FilterPython),
}

/// A filter definition: local, or installed from a remote repository.
pub enum FilterDefinition {
    Local(LocalFilter),
    Remote(RemoteFilter),
}

/// What a filter runs with.
pub struct FilterContext {
    pub name: String,
    pub filter_dir: FsPath,
    pub remote_config: Option<RemoteFilterConfig>,
    /// Whether the filter belongs to a profile reached through a nested
    /// `profile` filter.
    pub nested: bool,
    /// Whether the filter belongs to the first profile run of the process;
    /// never for a nested one.
    pub initial: bool,
}

/// The folder a filter's files are relative to: a remote filter's install
/// folder, else the folder of the given path.
pub open spec fn spec_filter_dir(ctx: FilterContext, path: Seq<ComponentView>) -> Seq<ComponentView> {
    if ctx.remote_config is Some {
        ctx.filter_dir@
    } else {
        match spec_parent(path) {
            Some(p) => p,
            None => path,
        }
    }
}

/// The parts of a remote filter's install folder, each taken as a path: the
/// filter's name, and the remote's URL and version.
pub struct RemoteLocation {
    pub name: FsPath,
    pub url: FsPath,
    pub version: FsPath,
}

impl RemoteLocation {
    /// The install folder inside the filters cache:
    /// `<cache>/filters/<url>/<name>/<version>`.
    pub fn install_dir(&self, cache_dir: &FsPath) -> (d: FsPath)
        ensures
            d@ == spec_filter_cache_dir(cache_dir@, self.name@, self.url@, self.version@),
    {
        get_filter_cache_dir(cache_dir, &self.name, &self.url, &self.version)
    }
}

impl FilterContext {
    /// The context of a filter: a local filter runs from the project
    /// folder; a remote one from its install folder in the filters cache,
    /// with its settings. A nested profile never counts as the initial run.
    pub fn new(
        name: &str,
        filter: &FilterDefinition,
        nested: bool,
        initial: bool,
        current_dir: &FsPath,
        cache_dir: &FsPath,
        location: &RemoteLocation,
        remote_config: Option<RemoteFilterConfig>,
    ) -> (c: FilterContext)
        ensures
            c.name@ == name@,
            c.nested == nested,
            c.initial == (initial && !nested),
            filter is Local ==> c.filter_dir@ == current_dir@ && c.remote_config is None,
            filter is Remote ==> c.filter_dir@ == spec_filter_cache_dir(
                cache_dir@,
                location.name@,
                location.url@,
                location.version@,
            ) && c.remote_config == remote_config,
    {
        match filter {
            FilterDefinition::Local(_) => FilterContext {
                name: name.to_owned(),
                filter_dir: current_dir.copy(),
                remote_config: None,
                nested,
                initial: initial && !nested,
            },
            FilterDefinition::Remote(_) => FilterContext {
                name: name.to_owned(),
                filter_dir: location.install_dir(cache_dir),
                remote_config,
                nested,
                initial: initial && !nested,
            },
        }
    }

    /// Whether the filter's data folder is exported back to the project: a
    /// remote filter whose settings ask for it.
    pub fn exports_data(&self) -> (b: bool)
        ensures
            b == (self.remote_config matches Some(c) && c.export_data),
    {
        match &self.remote_config {
            Some(c) => c.export_data,
            None => false,
        }
    }

    /// The folder of a filter's files: the install folder of a remote
    /// filter, else the folder holding `path`.
    pub fn filter_dir(&self, path: &FsPath) -> (d: FsPath)
        ensures
            d@ == spec_filter_dir(*self, path@),
    {
        if self.remote_config.is_some() {
            self.filter_dir.copy()
        } else {
            let mut dir = path.copy();
            dir.pop();
            dir
        }
    }
}

/// Whether `r` runs `program` with `own` arguments followed by the run
/// arguments, in the working directory, with the environment set up from
/// the filter folder, prefixing output with the filter's name when
/// subprocess logging is on.
pub open spec fn runs(
    r: Run,
    program: ArgView,
    own: Seq<ArgView>,
    run_args: Seq<String>,
    temp: Seq<ComponentView>,
    ctx: FilterContext,
    logging: bool,
) -> bool {
    &&& r.process.program@ == program
    &&& args_view(r.process.args@) == own + texts(run_args)
    &&& r.process.current_dir matches Some(d) && d@ == temp
    &&& r.process.env_dir matches Some(e) && e@ == ctx.filter_dir@
    &&& if logging {
        r.log_prefix matches Some(p) && p@ == ctx.name@
    } else {
        r.log_prefix is None
    }
}

/// Whether `s` runs `program` with `args` in `dir`, output passed through.
pub open spec fn runs_in(s: Subprocess, program: ArgView, args: Seq<ArgView>, dir: Seq<ComponentView>) -> bool {
    &&& s.program@ == program
    &&& args_view(s.args@) == args
    &&& s.current_dir matches Some(d) && d@ == dir
    &&& s.env_dir is None
}

fn finish_run(sub: Subprocess, run_args: &Vec<String>, temp: &FsPath, context: &FilterContext, logging: bool) -> (r: Run)
    ensures
        runs(r, sub.program@, args_view(sub.args@), run_args@, temp@, *context, logging),
{
    let mut sub = sub;
    sub.text_args(run_args);
    sub.set_current_dir(temp.copy());
    sub.setup_env(context.filter_dir.copy());
    let log_prefix = if logging {
        Some(context.name.clone())
    } else {
        None
    };
    Run { process: sub, log_prefix }
}

fn command_in(program: Arg, args: Vec<Arg>, dir: FsPath) -> (s: Subprocess)
    ensures
        runs_in(s, program@, args_view(args@), dir@),
{
    Subprocess { program, args, current_dir: Some(dir), env_dir: None }
}

impl FilterBun {
    /// `bun run <script> <run args…>` in the working directory.
    pub fn run(&self, context: &FilterContext, temp: &FsPath, run_args: &Vec<String>, config: &UserConfig) -> (r: Run)
        ensures
            runs(
                r,
                ArgView::Text(or_default(config.bun_runner, "bun"@)),
                seq![ArgView::Text("run"@), ArgView::Path(spec_join(context.filter_dir@, self.script@))],
                run_args@,
                temp@,
                *context,
                config.subprocess_logging,
            ),
    {
        let script = context.filter_dir.join(&self.script);
        let mut sub = Subprocess::new(Arg::Text(config.bun_runner()));
        sub.arg(Arg::text("run"));
        sub.arg(Arg::Path(script));
        assert(args_view(sub.args@) =~= seq![ArgView::Text("run"@), ArgView::Path(spec_join(context.filter_dir@, self.script@))]);
        finish_run(sub, run_args, temp, context, config.subprocess_logging())
    }

    /// `bun i` in the script's folder.
    pub fn install_dependencies(&self, context: &FilterContext, config: &UserConfig) -> (s: Subprocess)
        ensures
            runs_in(
                s,
                ArgView::Text(or_default(config.bun_runner, "bun"@)),
                seq![ArgView::Text("i"@)],
                spec_filter_dir(*context, self.script@),
            ),
    {
        let dir = context.filter_dir(&self.script);
        let args = vec![Arg::text("i")];
        assert(args_view(args@) =~= seq![ArgView::Text("i"@)]);
        command_in(Arg::Text(config.bun_runner()), args, dir)
    }
}

impl FilterDotnet {
    /// `dotnet <path> <run args…>` in the working directory.
    pub fn run(&self, context: &FilterContext, temp: &FsPath, run_args: &Vec<String>, config: &UserConfig) -> (r: Run)
        ensures
            runs(
                r,
                ArgView::Text(or_default(config.dotnet_runner, "dotnet"@)),
                seq![ArgView::Path(spec_join(context.filter_dir@, self.path@))],
                run_args@,
                temp@,
                *context,
                config.subprocess_logging,
            ),
    {
        let path = context.filter_dir.join(&self.path);
        let mut sub = Subprocess::new(Arg::Text(config.dotnet_runner()));
        sub.arg(Arg::Path(path));
        assert(args_view(sub.args@) =~= seq![ArgView::Path(spec_join(context.filter_dir@, self.path@))]);
        finish_run(sub, run_args, temp, context, config.subprocess_logging())
    }
}

/// The fixed flags with which Nim compiles and runs a script.
pub open spec fn nim_flags() -> Seq<ArgView> {
    seq![
        ArgView::Text("-r"@),
        ArgView::Text("c"@),
        ArgView::Text("--hints:off"@),
        ArgView::Text("--warnings:off"@),
        ArgView::Text("--mm:orc"@),
    ]
}

/// The folder with a Nim filter's nimble file.
pub open spec fn spec_nim_requirements_dir(f: FilterNim, ctx: FilterContext) -> Seq<ComponentView> {
    match f.requirements {
        Some(r) => spec_join(ctx.filter_dir@, r@),
        None => match spec_parent(spec_join(ctx.filter_dir@, f.script@)) {
            Some(p) => p,
            None => ctx.filter_dir@,
        },
    }
}

impl FilterNim {
    /// `nim -r c --hints:off --warnings:off --mm:orc <script> <run args…>`
    /// in the working directory.
    pub fn run(&self, context: &FilterContext, temp: &FsPath, run_args: &Vec<String>, config: &UserConfig) -> (r: Run)
        ensures
            runs(
                r,
                ArgView::Text(or_default(config.nim_runner, "nim"@)),
                nim_flags().push(ArgView::Path(spec_join(context.filter_dir@, self.script@))),
                run_args@,
                temp@,
                *context,
                config.subprocess_logging,
            ),
    {
        let script = context.filter_dir.join(&self.script);
        let mut sub = Subprocess::new(Arg::Text(config.nim_runner()));
        sub.arg(Arg::text("-r"));
        sub.arg(Arg::text("c"));
        sub.arg(Arg::text("--hints:off"));
        sub.arg(Arg::text("--warnings:off"));
        sub.arg(Arg::text("--mm:orc"));
        sub.arg(Arg::Path(script));
        assert(args_view(sub.args@) =~= nim_flags().push(ArgView::Path(spec_join(context.filter_dir@, self.script@))));
        finish_run(sub, run_args, temp, context, config.subprocess_logging())
    }

    /// The folder with the nimble file: the `requirements` folder when
    /// given, else the script's folder.
    pub fn requirements_dir(&self, context: &FilterContext) -> (d: FsPath)
        ensures
            d@ == spec_nim_requirements_dir(*self, *context),
    {
        match &self.requirements {
            Some(requirements) => context.filter_dir.join(requirements),
            None => {
                let script = context.filter_dir.join(&self.script);
                match script.parent() {
                    Some(parent) => parent,
                    None => context.filter_dir.copy(),
                }
            },
        }
    }

    /// `nimble install -d -y` in the requirements folder, when that folder
    /// holds a nimble file.
    pub fn install_dependencies(&self, context: &FilterContext, config: &UserConfig, has_nimble: bool) -> (s: Option<Subprocess>)
        ensures
            !has_nimble ==> s is None,
            has_nimble ==> (s matches Some(c) && runs_in(
                c,
                ArgView::Text(or_default(config.nimble_runner, "nimble"@)),
                seq![ArgView::Text("install"@), ArgView::Text("-d"@), ArgView::Text("-y"@)],
                spec_nim_requirements_dir(*self, *context),
            )),
    {
        if !has_nimble {
            return None;
        }
        let dir = self.requirements_dir(context);
        let args = vec![Arg::text("install"), Arg::text("-d"), Arg::text("-y")];
        assert(args_view(args@) =~= seq![ArgView::Text("install"@), ArgView::Text("-d"@), ArgView::Text("-y"@)]);
        Some(command_in(Arg::Text(config.nimble_runner()), args, dir))
    }
}

/// The JS runtime family a `nodejs` filter runs with.
#[derive(Debug)]
pub enum NodeRuntime {
    Node,
    Bun,
    Deno,
}

pub open spec fn spec_node_runtime(config: UserConfig, filter_name: Seq<char>) -> NodeRuntime {
    match spec_runner_override(config.node_runner_override, filter_name) {
        Some(v) => if v == "bun"@ {
            NodeRuntime::Bun
        } else if v == "deno"@ {
            NodeRuntime::Deno
        } else {
            NodeRuntime::Node
        },
        None => NodeRuntime::Node,
    }
}

impl NodeRuntime {
    /// The runtime for a filter, from the user's `node_runner_override`
    /// (the filter's own entry, then `"*"`); `node` without one.
    pub fn resolve(config: &UserConfig, filter_name: &str) -> (r: NodeRuntime)
        ensures
            r == spec_node_runtime(*config, filter_name@),
    {
        match config.node_runner_override(filter_name) {
            Some(v) => {
                if v.eq(&"bun".to_owned()) {
                    NodeRuntime::Bun
                } else if v.eq(&"deno".to_owned()) {
                    NodeRuntime::Deno
                } else {
                    NodeRuntime::Node
                }
            },
            None => NodeRuntime::Node,
        }
    }
}

/// The folder with a `nodejs` filter's `package.json`.
pub open spec fn spec_nodejs_install_dir(f: FilterNodejs, ctx: FilterContext) -> Seq<ComponentView> {
    match f.requirements {
        Some(r) => spec_join(ctx.filter_dir@, r@),
        None => spec_filter_dir(ctx, f.script@),
    }
}

impl FilterNodejs {
    /// `node <script>`, `bun run <script>` or `deno run -A --no-lock
    /// <script>`, by the resolved runtime, then the run arguments, in the
    /// working directory.
    pub fn run(&self, context: &FilterContext, temp: &FsPath, run_args: &Vec<String>, config: &UserConfig) -> (r: Run)
        ensures
            ({
                let script = ArgView::Path(spec_join(context.filter_dir@, self.script@));
                match spec_node_runtime(*config, context.name@) {
                    NodeRuntime::Node => runs(
                        r,
                        ArgView::Text(or_default(config.node_runner, or_default(config.nodejs_runtime, "node"@))),
                        seq![script],
                        run_args@,
                        temp@,
                        *context,
                        config.subprocess_logging,
                    ),
                    NodeRuntime::Bun => runs(
                        r,
                        ArgView::Text(or_default(config.bun_runner, "bun"@)),
                        seq![ArgView::Text("run"@), script],
                        run_args@,
                        temp@,
                        *context,
                        config.subprocess_logging,
                    ),
                    NodeRuntime::Deno => runs(
                        r,
                        ArgView::Text(or_default(config.deno_runner, "deno"@)),
                        seq![ArgView::Text("run"@), ArgView::Text("-A"@), ArgView::Text("--no-lock"@), script],
                        run_args@,
                        temp@,
                        *context,
                        config.subprocess_logging,
                    ),
                }
            }),
    {
        let script = context.filter_dir.join(&self.script);
        let ghost sv = ArgView::Path(script@);
        let sub = match NodeRuntime::resolve(config, context.name.as_str()) {
            NodeRuntime::Node => {
                let mut sub = Subprocess::new(Arg::Text(config.node_runner()));
                sub.arg(Arg::Path(script));
                assert(args_view(sub.args@) =~= seq![sv]);
                sub
            },
            NodeRuntime::Bun => {
                let mut sub = Subprocess::new(Arg::Text(config.bun_runner()));
                sub.arg(Arg::text("run"));
                sub.arg(Arg::Path(script));
                assert(args_view(sub.args@) =~= seq![ArgView::Text("run"@), sv]);
                sub
            },
            NodeRuntime::Deno => {
                let mut sub = Subprocess::new(Arg::Text(config.deno_runner()));
                sub.arg(Arg::text("run"));
                sub.arg(Arg::text("-A"));
                sub.arg(Arg::text("--no-lock"));
                sub.arg(Arg::Path(script));
                assert(args_view(sub.args@) =~= seq![ArgView::Text("run"@), ArgView::Text("-A"@), ArgView::Text("--no-lock"@), sv]);
                sub
            },
        };
        finish_run(sub, run_args, temp, context, config.subprocess_logging())
    }

    /// The folder with the `package.json` file: the `requirements` folder
    /// when given, else the script's folder.
    pub fn install_dir(&self, context: &FilterContext) -> (d: FsPath)
        ensures
            d@ == spec_nodejs_install_dir(*self, *context),
    {
        match &self.requirements {
            Some(requirements) => context.filter_dir.join(requirements),
            None => context.filter_dir(&self.script),
        }
    }

    /// The dependency install for the resolved runtime: on node, `npm i` in
    /// the install folder when it holds a `package.json`; on bun, `bun i` in
    /// the script's folder, since `requirements` only concerns node; nothing
    /// on deno.
    pub fn install_dependencies(
        &self,
        context: &FilterContext,
        config: &UserConfig,
        package_json_exists: bool,
        windows: bool,
    ) -> (s: Option<Subprocess>)
        ensures
            match spec_node_runtime(*config, context.name@) {
                NodeRuntime::Node => if package_json_exists {
                    s matches Some(c) && runs_in(
                        c,
                        ArgView::Text(or_default(
                            config.npm_runner,
                            or_default(config.nodejs_package_manager, if windows { "npm.cmd"@ } else { "npm"@ }),
                        )),
                        seq![ArgView::Text("i"@)],
                        spec_nodejs_install_dir(*self, *context),
                    )
                } else {
                    s is None
                },
                NodeRuntime::Bun => s matches Some(c) && runs_in(
                    c,
                    ArgView::Text(or_default(config.bun_runner, "bun"@)),
                    seq![ArgView::Text("i"@)],
                    spec_filter_dir(*context, self.script@),
                ),
                NodeRuntime::Deno => s is None,
            },
    {
        let args = vec![Arg::text("i")];
        assert(args_view(args@) =~= seq![ArgView::Text("i"@)]);
        match NodeRuntime::resolve(config, context.name.as_str()) {
            NodeRuntime::Node => {
                if package_json_exists {
                    Some(command_in(Arg::Text(config.npm_runner(windows)), args, self.install_dir(context)))
                } else {
                    None
                }
            },
            NodeRuntime::Bun => Some(command_in(Arg::Text(config.bun_runner()), args, context.filter_dir(&self.script))),
            NodeRuntime::Deno => None,
        }
    }
}

/// The shared virtual environment of a slot:
/// `<dot_regolith>/cache/venvs/<slot>`.
pub open spec fn spec_shared_venv_dir(dot_regolith: Seq<ComponentView>, slot: u32) -> Seq<ComponentView> {
    child(child(child(dot_regolith, "cache"@), "venvs"@), spec_decimal(slot as nat))
}

/// The shared virtual environment of a slot.
pub fn shared_venv_dir(dot_regolith: &FsPath, slot: u32) -> (d: FsPath)
    ensures
        d@ == spec_shared_venv_dir(dot_regolith@, slot),
{
    let name = decimal(slot as u64);
    dot_regolith.join_name("cache").join_name("venvs").join_name(name.as_str())
}

/// The Python interpreter inside a virtual environment.
pub open spec fn venv_python(venv: Seq<ComponentView>, windows: bool) -> Seq<ComponentView> {
    if windows {
        child(child(venv, "Scripts"@), "python.exe"@)
    } else {
        child(child(venv, "bin"@), "python"@)
    }
}

/// The pip program inside a virtual environment.
pub open spec fn venv_pip(venv: Seq<ComponentView>, windows: bool) -> Seq<ComponentView> {
    if windows {
        child(child(venv, "Scripts"@), "pip.exe"@)
    } else {
        child(child(venv, "bin"@), "pip"@)
    }
}

/// The virtual environment a Python filter runs from.
pub open spec fn spec_run_venv_dir(f: FilterPython, ctx: FilterContext, dot_regolith: Seq<ComponentView>) -> Seq<ComponentView> {
    match f.venv_slot {
        Some(slot) => spec_shared_venv_dir(dot_regolith, slot),
        None => child(ctx.filter_dir@, ".venv"@),
    }
}

/// The virtual environment a Python filter's dependencies are installed
/// into: the slot's shared one, else `.venv` in the script's folder.
pub open spec fn spec_install_venv_dir(f: FilterPython, ctx: FilterContext, dot_regolith: Seq<ComponentView>) -> Seq<ComponentView> {
    match f.venv_slot {
        Some(slot) => spec_shared_venv_dir(dot_regolith, slot),
        None => child(spec_filter_dir(ctx, f.script@), ".venv"@),
    }
}

/// The folder that holds a filter's script: for a remote filter, the
/// script's folder inside the install folder; for a local one, the script's
/// folder as the script path gives it, relative to the project folder.
pub open spec fn spec_script_dir(ctx: FilterContext, script: Seq<ComponentView>) -> Seq<ComponentView> {
    if ctx.remote_config is Some {
        spec_join(
            ctx.filter_dir@,
            match spec_parent(script) {
                Some(p) => p,
                None => script,
            },
        )
    } else {
        spec_filter_dir(ctx, script)
    }
}

/// A Python filter's requirements file: `requirements` relative to the
/// filter folder, else `requirements.txt` next to the script.
pub open spec fn spec_requirements_file(f: FilterPython, ctx: FilterContext) -> Seq<ComponentView> {
    match f.requirements {
        Some(r) => spec_join(ctx.filter_dir@, r@),
        None => child(spec_script_dir(ctx, f.script@), "requirements.txt"@),
    }
}

/// The final name of a path, as `Path::file_name` gives it: the last
/// component when it is a plain name.
pub open spec fn spec_file_name(p: Seq<ComponentView>) -> Option<Seq<char>> {
    if p.len() > 0 && p.last() is Normal {
        Some(p.last()->Normal_0)
    } else {
        None
    }
}

fn file_name(p: &FsPath) -> (r: Option<String>)
    ensures
        match spec_file_name(p@) {
            Some(n) => r matches Some(x) && x@ == n,
            None => r is None,
        },
{
    let n = p.len();
    if n == 0 {
        return None;
    }
    match p.component(n - 1) {
        Component::Normal(s) => Some(s.clone()),
        _ => None,
    }
}

/// How a Python filter's dependencies get installed: create the folder that
/// holds the virtual environment, create the environment, then install the
/// requirements with its pip.
pub struct PythonInstall {
    pub create_dir: Option<FsPath>,
    pub create_venv: Subprocess,
    pub install: Subprocess,
}

impl FilterPython {
    /// The virtual environment the filter runs from: the slot's shared one,
    /// else `.venv` in the filter folder.
    pub fn venv_dir(&self, context: &FilterContext, dot_regolith: &FsPath) -> (d: FsPath)
        ensures
            d@ == spec_run_venv_dir(*self, *context, dot_regolith@),
    {
        match self.venv_slot {
            Some(slot) => shared_venv_dir(dot_regolith, slot),
            None => context.filter_dir.join_name(".venv"),
        }
    }

    /// `python -u <script> <run args…>` in the working directory, with the
    /// virtual environment's interpreter when that environment exists.
    pub fn run(
        &self,
        context: &FilterContext,
        temp: &FsPath,
        run_args: &Vec<String>,
        config: &UserConfig,
        dot_regolith: &FsPath,
        venv_exists: bool,
        windows: bool,
    ) -> (r: Run)
        ensures
            runs(
                r,
                if venv_exists {
                    ArgView::Path(venv_python(spec_run_venv_dir(*self, *context, dot_regolith@), windows))
                } else {
                    ArgView::Text(or_default(config.python_runner, or_default(config.python_command, "python"@)))
                },
                seq![ArgView::Text("-u"@), ArgView::Path(spec_join(context.filter_dir@, self.script@))],
                run_args@,
                temp@,
                *context,
                config.subprocess_logging,
            ),
    {
        let script = context.filter_dir.join(&self.script);
        let venv = self.venv_dir(context, dot_regolith);
        let program = if venv_exists {
            if windows {
                Arg::Path(venv.join_name("Scripts").join_name("python.exe"))
            } else {
                Arg::Path(venv.join_name("bin").join_name("python"))
            }
        } else {
            Arg::Text(config.python_runner())
        };
        let mut sub = Subprocess::new(program);
        sub.arg(Arg::text("-u"));
        sub.arg(Arg::Path(script));
        assert(args_view(sub.args@) =~= seq![ArgView::Text("-u"@), ArgView::Path(spec_join(context.filter_dir@, self.script@))]);
        finish_run(sub, run_args, temp, context, config.subprocess_logging())
    }

    /// The requirements file: `requirements` relative to the filter folder
    /// when given, else `requirements.txt` next to the script.
    pub fn requirements_file(&self, context: &FilterContext) -> (f: FsPath)
        ensures
            f@ == spec_requirements_file(*self, *context),
    {
        match &self.requirements {
            Some(requirements) => context.filter_dir.join(requirements),
            None => {
                if context.remote_config.is_some() {
                    let mut dir = self.script.copy();
                    dir.pop();
                    context.filter_dir.join(&dir).join_name("requirements.txt")
                } else {
                    context.filter_dir(&self.script).join_name("requirements.txt")
                }
            },
        }
    }

    /// The dependency install, when the requirements file exists: create the
    /// environment with `python -m venv <venv>`, then run
    /// `pip install -r <file name>` in the requirements file's folder.
    pub fn install_dependencies(
        &self,
        context: &FilterContext,
        config: &UserConfig,
        dot_regolith: &FsPath,
        requirements_is_file: bool,
        windows: bool,
    ) -> (r: Option<PythonInstall>)
        ensures
            !requirements_is_file ==> r is None,
            requirements_is_file ==> (r matches Some(plan) && {
                let venv = spec_install_venv_dir(*self, *context, dot_regolith@);
                let req = spec_requirements_file(*self, *context);
                &&& match spec_parent(venv) {
                    Some(p) => plan.create_dir matches Some(d) && d@ == p,
                    None => plan.create_dir is None,
                }
                &&& plan.create_venv.program@ == ArgView::Text(or_default(config.python_runner, or_default(config.python_command, "python"@)))
                &&& args_view(plan.create_venv.args@) == seq![ArgView::Text("-m"@), ArgView::Text("venv"@), ArgView::Path(venv)]
                &&& plan.create_venv.current_dir is None
                &&& plan.create_venv.env_dir is None
                &&& runs_in(
                    plan.install,
                    ArgView::Path(venv_pip(venv, windows)),
                    seq![
                        ArgView::Text("install"@),
                        ArgView::Text("-r"@),
                        ArgView::Text(match spec_file_name(req) {
                            Some(n) => n,
                            None => "requirements.txt"@,
                        }),
                    ],
                    match spec_parent(req) {
                        Some(p) => p,
                        None => context.filter_dir@,
                    },
                )
            }),
    {
        if !requirements_is_file {
            return None;
        }
        let requirements = self.requirements_file(context);
        let filter_dir = context.filter_dir(&self.script);
        let venv = match self.venv_slot {
            Some(slot) => shared_venv_dir(dot_regolith, slot),
            None => filter_dir.join_name(".venv"),
        };
        let create_dir = venv.parent();
        let mut create_venv = Subprocess::new(Arg::Text(config.python_runner()));
        create_venv.arg(Arg::text("-m"));
        create_venv.arg(Arg::text("venv"));
        create_venv.arg(Arg::Path(venv.copy()));
        assert(args_view(create_venv.args@) =~= seq![ArgView::Text("-m"@), ArgView::Text("venv"@), ArgView::Path(venv@)]);
        let pip = if windows {
            venv.join_name("Scripts").join_name("pip.exe")
        } else {
            venv.join_name("bin").join_name("pip")
        };
        let requirements_dir = match requirements.parent() {
            Some(parent) => parent,
            None => context.filter_dir.copy(),
        };
        let name = match file_name(&requirements) {
            Some(n) => n,
            None => "requirements.txt".to_owned(),
        };
        let args = vec![Arg::text("install"), Arg::text("-r"), Arg::Text(name)];
        assert(args_view(args@) =~= seq![
            ArgView::Text("install"@),
            ArgView::Text("-r"@),
            ArgView::Text(match spec_file_name(requirements@) {
                Some(n) => n,
                None => "requirements.txt"@,
            }),
        ]);
        let install = command_in(Arg::Path(pip), args, requirements_dir);
        Some(PythonInstall { create_dir, create_venv, install })
    }
}

/// Python filters that name the same `venvSlot` run from, and install into,
/// the same virtual environment, wherever their scripts are.
pub proof fn lemma_slot_shares_venv(
    f1: FilterPython,
    c1: FilterContext,
    f2: FilterPython,
    c2: FilterContext,
    dot_regolith: Seq<ComponentView>,
)
    requires
        f1.venv_slot is Some,
        f1.venv_slot == f2.venv_slot,
    ensures
        spec_run_venv_dir(f1, c1, dot_regolith) == spec_run_venv_dir(f2, c2, dot_regolith),
        spec_install_venv_dir(f1, c1, dot_regolith) == spec_install_venv_dir(f2, c2, dot_regolith),
        spec_run_venv_dir(f1, c1, dot_regolith) == spec_install_venv_dir(f1, c1, dot_regolith),
{
}

/// The folder of a local filter's files is the folder that holds the path
/// given (its parent), and that of a remote filter is its install folder,
/// whatever the path.
pub proof fn lemma_filter_dir_is_script_folder(ctx: FilterContext, path: Seq<ComponentView>)
    ensures
        ctx.remote_config is None && spec_parent(path) is Some ==> spec_filter_dir(ctx, path) == spec_parent(
            path,
        )->0,
        ctx.remote_config is Some ==> spec_filter_dir(ctx, path) == ctx.filter_dir@,
{
}

/// A remote Python filter without a `venvSlot` installs its dependencies
/// into the very environment it runs from: `.venv` in its install folder,
/// wherever its script lies inside that folder.
pub proof fn lemma_remote_python_installs_where_it_runs(
    f: FilterPython,
    ctx: FilterContext,
    dot_regolith: Seq<ComponentView>,
)
    requires
        ctx.remote_config is Some,
        f.venv_slot is None,
    ensures
        spec_install_venv_dir(f, ctx, dot_regolith) == spec_run_venv_dir(f, ctx, dot_regolith),
        spec_install_venv_dir(f, ctx, dot_regolith) == spec_join(
            ctx.filter_dir@,
            seq![ComponentView::Normal(".venv"@)],
        ),
{
}

/// A local Python filter without a `venvSlot` installs its dependencies
/// into `.venv` in the folder of its script, and runs from `.venv` in the
/// project folder.
pub proof fn lemma_local_python_venvs(f: FilterPython, ctx: FilterContext, dot_regolith: Seq<ComponentView>)
    requires
        ctx.remote_config is None,
        f.venv_slot is None,
        spec_parent(f.script@) is Some,
    ensures
        spec_install_venv_dir(f, ctx, dot_regolith) == spec_join(
            spec_parent(f.script@)->0,
            seq![ComponentView::Normal(".venv"@)],
        ),
        spec_run_venv_dir(f, ctx, dot_regolith) == spec_join(
            ctx.filter_dir@,
            seq![ComponentView::Normal(".venv"@)],
        ),
{
}

/// A Python filter's requirements file is `requirements` taken relative to
/// the filter folder when given; otherwise `requirements.txt` in the folder
/// of the script: for a local filter the script's parent, for a remote one
/// that parent inside the install folder.
pub proof fn lemma_python_requirements_file(f: FilterPython, ctx: FilterContext)
    ensures
        f.requirements matches Some(r) ==> spec_requirements_file(f, ctx) == spec_join(ctx.filter_dir@, r@),
        f.requirements is None && ctx.remote_config is None && spec_parent(f.script@) is Some
            ==> spec_requirements_file(f, ctx) == spec_join(
            spec_parent(f.script@)->0,
            seq![ComponentView::Normal("requirements.txt"@)],
        ),
        f.requirements is None && ctx.remote_config is Some && spec_parent(f.script@) is Some
            ==> spec_requirements_file(f, ctx) == spec_join(
            spec_join(ctx.filter_dir@, spec_parent(f.script@)->0),
            seq![ComponentView::Normal("requirements.txt"@)],
        ),
{
}

/// A `nodejs` filter's dependencies are installed in its `requirements`
/// folder (relative to the filter folder) when given; otherwise in the
/// folder of its script: the script's parent for a local filter, the
/// install folder for a remote one, never the project folder as such.
pub proof fn lemma_nodejs_install_dir(f: FilterNodejs, ctx: FilterContext)
    ensures
        f.requirements matches Some(r) ==> spec_nodejs_install_dir(f, ctx) == spec_join(ctx.filter_dir@, r@),
        f.requirements is None && ctx.remote_config is None && spec_parent(f.script@) is Some
            ==> spec_nodejs_install_dir(f, ctx) == spec_parent(f.script@)->0,
        f.requirements is None && ctx.remote_config is Some ==> spec_nodejs_install_dir(f, ctx)
            == ctx.filter_dir@,
{
}

/// A Nim filter's nimble folder is `requirements` (relative to the filter
/// folder) when given; otherwise the folder that holds the script, taken
/// inside the filter folder.
pub proof fn lemma_nim_requirements_dir(f: FilterNim, ctx: FilterContext)
    ensures
        f.requirements matches Some(r) ==> spec_nim_requirements_dir(f, ctx) == spec_join(ctx.filter_dir@, r@),
        f.requirements is None && spec_parent(spec_join(ctx.filter_dir@, f.script@)) is Some
            ==> spec_nim_requirements_dir(f, ctx) == spec_parent(spec_join(ctx.filter_dir@, f.script@))->0,
{
}

} // verus!
