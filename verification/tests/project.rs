use rgl::clean::{Clean, CleanStep, CleanTarget, UpdateResolvers};
use rgl::export::{
    check_export_path_collision, env_ref_names, expand_env_vars, normalize_export_path, DevelopmentExport,
    ExactExport, Export, ExportError, ExportTargets, ExportTargetsRepr, LocalExport, NoneExport,
    PackName, WorldDir, WorldExport,
};
use rgl::file_protection::{
    check_files_removable, list_files, to_slash, EditedFiles, FileLists, ListError, PackFolder,
    PackKind, SafetyError, Walk,
};
use rgl::filter::{
    shared_venv_dir, FilterBun, FilterContext, FilterDefinition, FilterDotnet, FilterNim,
    FilterNodejs, FilterPython, LocalFilter, NodeRuntime, RemoteFilter, RemoteFilterConfig,
    RemoteLocation,
};
use rgl::path::{Component, FsPath};
use rgl::profile::{merge_entry_results, FilterRunner, ProfileError, ProfileProgress, RunnerStep};
use rgl::runner::{
    pack_label, plan_export, plan_export_data, plan_setup, target_label, use_symlink,
    ExportResolution, FsAction, ResolvedTarget,
};
use rgl::subprocess::{Arg, Run, Subprocess};
use rgl::temp::Temp;
use rgl::user_config::UserConfig;

fn pth(parts: &[&str]) -> FsPath {
    let comps = parts
        .iter()
        .map(|p| match *p {
            "/" => Component::RootDir,
            "." => Component::CurDir,
            ".." => Component::ParentDir,
            s if s.ends_with(':') => Component::Prefix(s.to_string()),
            s => Component::Normal(s.to_string()),
        })
        .collect();
    FsPath::from_components(comps).unwrap()
}

fn show(p: &FsPath) -> Vec<String> {
    p.components()
        .into_iter()
        .map(|c| match c {
            Component::RootDir => "/".to_string(),
            Component::CurDir => ".".to_string(),
            Component::ParentDir => "..".to_string(),
            Component::Prefix(s) => s,
            Component::Normal(s) => s,
        })
        .collect()
}

fn render(p: &FsPath) -> String {
    let parts = show(p);
    if parts.first().map(|s| s.as_str()) == Some("/") {
        format!("/{}", parts[1..].join("/"))
    } else {
        parts.join("/")
    }
}

fn arg_text(a: &Arg) -> String {
    match a {
        Arg::Text(s) => s.clone(),
        Arg::Path(p) => show(p).join("|"),
    }
}

fn args_of(s: &Subprocess) -> Vec<String> {
    s.args.iter().map(arg_text).collect()
}

fn none_target() -> Export {
    Export::NoExport(NoneExport { read_only: false })
}

fn local_target(read_only: bool) -> Export {
    Export::Local(LocalExport { bp_name: None, rp_name: None, read_only })
}

fn strings(v: &[&str]) -> Vec<String> {
    v.iter().map(|s| s.to_string()).collect()
}

#[test]
fn export_kind_and_flags() {
    let dev = Export::Development(DevelopmentExport { build: None, bp_name: None, rp_name: None, read_only: true });
    assert_eq!(dev.kind(), "development");
    assert!(dev.read_only());
    assert!(!dev.is_none());
    assert_eq!(none_target().kind(), "none");
    assert!(none_target().is_none());
    assert_eq!(local_target(false).kind(), "local");
    let exact = Export::Exact(ExactExport { bp_path: pth(&["a"]), rp_path: pth(&["b"]), read_only: false });
    assert_eq!(exact.kind(), "exact");
    let world = Export::World(WorldExport {
        build: None,
        world_name: Some("w".to_string()),
        world_path: None,
        bp_name: None,
        rp_name: None,
        read_only: false,
    });
    assert_eq!(world.kind(), "world");
}

#[test]
fn active_skips_none_targets() {
    let t = ExportTargets(vec![local_target(false), none_target(), local_target(true), none_target()]);
    assert_eq!(t.active(), vec![0, 2]);
    assert_eq!(t.targets().len(), 4);
    let only_none = ExportTargets::from_export(none_target());
    assert!(only_none.active().is_empty());
}

#[test]
fn export_array_must_not_be_empty() {
    assert!(matches!(ExportTargets::from_repr(ExportTargetsRepr::Multiple(vec![])), Err(ExportError::EmptyExportArray)));
    let one = ExportTargets::from_repr(ExportTargetsRepr::Single(local_target(false))).ok().unwrap();
    assert_eq!(one.0.len(), 1);
    let two = ExportTargets::from_repr(ExportTargetsRepr::Multiple(vec![local_target(false), none_target()])).ok().unwrap();
    assert_eq!(two.0.len(), 2);
}

#[test]
fn export_repr_round_trip() {
    let single = ExportTargets(vec![local_target(true)]);
    let repr = single.into_repr();
    assert!(matches!(repr, ExportTargetsRepr::Single(Export::Local(_))));
    let back = ExportTargets::from_repr(repr).ok().unwrap();
    assert_eq!(back.0.len(), 1);
    assert!(back.0[0].read_only());
    let many = ExportTargets(vec![local_target(false), none_target()]);
    let repr = many.into_repr();
    assert!(matches!(&repr, ExportTargetsRepr::Multiple(v) if v.len() == 2));
    let back = ExportTargets::from_repr(repr).ok().unwrap();
    assert!(back.0[1].is_none());
}

#[test]
fn collision_detected_for_same_and_nested_paths() {
    let mut seen: Vec<(FsPath, String)> = Vec::new();
    assert!(check_export_path_collision(&mut seen, pth(&["/", "out", "bp"]), "first").is_ok());
    assert!(check_export_path_collision(&mut seen, pth(&["/", "out", "rp"]), "second").is_ok());
    assert_eq!(seen.len(), 2);
    match check_export_path_collision(&mut seen, pth(&["/", "out"]), "third") {
        Err(ExportError::Collision { first_label, second_label, path }) => {
            assert_eq!(first_label, "first");
            assert_eq!(second_label, "third");
            assert_eq!(show(&path), vec!["/", "out"]);
        },
        _ => panic!("expected a collision"),
    }
    assert_eq!(seen.len(), 2);
    match check_export_path_collision(&mut seen, pth(&["/", "out", "rp", "inner"]), "fourth") {
        Err(ExportError::Collision { first_label, .. }) => assert_eq!(first_label, "second"),
        _ => panic!("expected a collision"),
    }
    match check_export_path_collision(&mut seen, pth(&["/", "out", "bp"]), "fifth") {
        Err(ExportError::Collision { first_label, .. }) => assert_eq!(first_label, "first"),
        _ => panic!("expected a collision"),
    }
    assert!(check_export_path_collision(&mut seen, pth(&["/", "out", "bpx"]), "sixth").is_ok());
    assert_eq!(seen.len(), 3);
}

#[test]
fn normalize_resolves_relative_paths() {
    let cwd = pth(&["/", "proj"]);
    assert_eq!(show(&normalize_export_path(&pth(&[".", "build", "..", "out"]), &cwd, false)), vec!["/", "proj", "out"]);
    assert_eq!(show(&normalize_export_path(&pth(&["/", "x", ".", "y"]), &cwd, false)), vec!["/", "x", "y"]);
}

#[test]
fn env_vars_expand_in_paths() {
    let env = vec![
        ("APPDATA".to_string(), pth(&["/", "data"])),
        ("SUB".to_string(), pth(&["one", "two"])),
    ];
    let p = pth(&["%APPDATA%", "packs", "%SUB%", "x"]);
    assert_eq!(show(&expand_env_vars(&p, &env).ok().unwrap()), vec!["/", "data", "packs", "one", "two", "x"]);
    let missing = pth(&["a", "%NOPE%", "%APPDATA%"]);
    match expand_env_vars(&missing, &env) {
        Err(ExportError::MissingEnvVar(name)) => assert_eq!(name, "NOPE"),
        _ => panic!("expected a missing variable"),
    }
    let plain = pth(&["/", "50%", "%x"]);
    assert_eq!(show(&expand_env_vars(&plain, &env).ok().unwrap()), vec!["/", "50%", "%x"]);
    assert_eq!(env_ref_names(&p), strings(&["APPDATA", "SUB"]));
    assert_eq!(env_ref_names(&pth(&["/", "%", "%%", "50%", "%A%"])), strings(&["", "A"]));
    assert!(env_ref_names(&plain).is_empty());
}

#[test]
fn pack_names_default_to_project_name() {
    let local = LocalExport { bp_name: None, rp_name: Some("custom".to_string()), read_only: false };
    assert!(matches!(local.bp_pack_name("proj"), PackName::Default(n) if n == "proj_bp"));
    assert!(matches!(local.rp_pack_name("proj"), PackName::Template(n) if n == "custom"));
    assert_eq!(show(&local.pack_parent()), vec!["build"]);
}

#[test]
fn development_needs_mojang_dir() {
    let dev = DevelopmentExport { build: None, bp_name: None, rp_name: None, read_only: false };
    let mojang = pth(&["/", "games", "com.mojang"]);
    assert!(matches!(dev.pack_parents(&mojang, false), Err(ExportError::MojangDirNotFound)));
    let (bp, rp) = dev.pack_parents(&mojang, true).ok().unwrap();
    assert_eq!(show(&bp), vec!["/", "games", "com.mojang", "development_behavior_packs"]);
    assert_eq!(show(&rp), vec!["/", "games", "com.mojang", "development_resource_packs"]);
    assert!(matches!(dev.rp_pack_name("p"), PackName::Default(n) if n == "p_rp"));
}

#[test]
fn exact_paths_must_differ() {
    assert!(matches!(ExactExport::check_paths(pth(&["/", "a"]), pth(&["/", "a"])), Err(ExportError::SamePackPaths)));
    assert!(ExactExport::check_paths(pth(&["/", "a"]), pth(&["/", "b"])).is_ok());
}

#[test]
fn none_export_points_at_working_dir() {
    let (bp, rp) = NoneExport { read_only: false }.get_paths(&pth(&["/", "p", ".regolith"]));
    assert_eq!(show(&bp), vec!["/", "p", ".regolith", "tmp", "BP"]);
    assert_eq!(show(&rp), vec!["/", "p", ".regolith", "tmp", "RP"]);
}

#[test]
fn world_needs_exactly_one_of_name_and_path() {
    let mut w = WorldExport { build: None, world_name: None, world_path: None, bp_name: None, rp_name: None, read_only: false };
    assert!(matches!(w.world_dir(), Err(ExportError::MissingWorldNameOrPath)));
    w.world_name = Some("My World".to_string());
    assert!(matches!(w.world_dir(), Ok(WorldDir::Name(n)) if n == "My World"));
    w.world_path = Some(pth(&["/", "w"]));
    assert!(matches!(w.world_dir(), Err(ExportError::BothWorldNameAndPath)));
    w.world_name = None;
    assert!(matches!(w.world_dir(), Ok(WorldDir::Path(_))));
    let (bp, rp) = w.pack_parents(&pth(&["/", "w"]));
    assert_eq!(show(&bp), vec!["/", "w", "behavior_packs"]);
    assert_eq!(show(&rp), vec!["/", "w", "resource_packs"]);
}

#[test]
fn to_slash_joins_with_slashes() {
    assert_eq!(to_slash(&pth(&["a", "b", "c.json"]), false), "a/b/c.json");
    assert_eq!(to_slash(&pth(&["a", "b"]), true), "a/b");
    assert_eq!(to_slash(&pth(&[]), false), "");
}

#[test]
fn file_lists_insert_and_get() {
    let mut m = FileLists::new();
    assert!(m.get("k").is_none());
    m.insert("k".to_string(), strings(&["a"]));
    m.insert("j".to_string(), strings(&["b", "c"]));
    m.insert("k".to_string(), strings(&["d"]));
    assert_eq!(m.get("k").unwrap(), &strings(&["d"]));
    assert_eq!(m.get("j").unwrap(), &strings(&["b", "c"]));
    assert_eq!(m.entries().len(), 2);
}

fn walk(root: &[&str], files: &[&[&str]], error: Option<&str>) -> Walk {
    Walk {
        root: pth(root),
        files: files.iter().map(|f| pth(f)).collect(),
        error: error.map(|e| e.to_string()),
    }
}

#[test]
fn list_files_relative_to_folder() {
    let w = walk(&["/", "rp"], &[&["/", "rp", "pack_info.json"], &["/", "rp", "textures", "a.png"]], None);
    assert_eq!(list_files(true, &w, false).ok().unwrap(), strings(&["pack_info.json", "textures/a.png"]));
    assert!(list_files(false, &w, false).ok().unwrap().is_empty());
    let failing = walk(&["/", "rp"], &[&["/", "rp", "x"]], Some("denied"));
    assert!(matches!(list_files(true, &failing, false), Err(ListError::Walk(e)) if e == "denied"));
    let outside = walk(&["/", "rp"], &[&["/", "other", "x"]], Some("denied"));
    assert!(matches!(list_files(true, &outside, false), Err(ListError::NotInside(_))));
}

#[test]
fn removable_check_cases() {
    let removable = strings(&["pack_info.json", "textures/a.png"]);
    let w = walk(&["/", "rp"], &[&["/", "rp", "pack_info.json"], &["/", "rp", "textures", "a.png"]], None);
    assert!(check_files_removable(false, false, &w, &removable, false).is_ok());
    assert!(matches!(check_files_removable(true, false, &w, &removable, false), Err(SafetyError::NotADirectory(_))));
    assert!(check_files_removable(true, true, &w, &removable, false).is_ok());
    let extra = walk(&["/", "rp"], &[&["/", "rp", "pack_info.json"], &["/", "rp", "notes.txt"]], None);
    assert!(matches!(check_files_removable(true, true, &extra, &removable, false), Err(SafetyError::Unrecognized(f)) if f == "notes.txt"));
    let outside = walk(&["/", "rp"], &[&["/", "elsewhere", "x"]], None);
    assert!(matches!(check_files_removable(true, true, &outside, &removable, false), Err(SafetyError::NotInside(_))));
    let failing = walk(&["/", "rp"], &[&["/", "rp", "pack_info.json"]], Some("io"));
    assert!(matches!(check_files_removable(true, true, &failing, &removable, false), Err(SafetyError::Walk(e)) if e == "io"));
}

fn folder(key: &str, exists: bool, w: Walk) -> PackFolder {
    PackFolder { key: key.to_string(), exists, is_dir: true, walk: w }
}

#[test]
fn exported_files_pass_next_safety_check() {
    let mut edited = EditedFiles::load(None);
    let rp = folder("/out/rp", true, walk(&["/", "out", "rp"], &[&["/", "out", "rp", "a.json"]], None));
    let bp = folder("/out/bp", true, walk(&["/", "out", "bp"], &[&["/", "out", "bp", "b.json"], &["/", "out", "bp", "s", "c.js"]], None));
    assert!(matches!(edited.check_deletion_safety(&rp, &bp, false), Err(e) if matches!(e.pack, PackKind::Resource)));
    assert!(edited.update_from_paths(&rp, &bp, false).is_ok());
    assert!(edited.check_deletion_safety(&rp, &bp, false).is_ok());
    let bp_fewer = folder("/out/bp", true, walk(&["/", "out", "bp"], &[&["/", "out", "bp", "s", "c.js"]], None));
    let rp_gone = folder("/out/rp", false, walk(&["/", "out", "rp"], &[], None));
    assert!(edited.check_deletion_safety(&rp_gone, &bp_fewer, false).is_ok());
    let bp_more = folder(
        "/out/bp",
        true,
        walk(&["/", "out", "bp"], &[&["/", "out", "bp", "b.json"], &["/", "out", "bp", "user.txt"]], None),
    );
    match edited.check_deletion_safety(&rp, &bp_more, false) {
        Err(e) => {
            assert!(matches!(e.pack, PackKind::Behavior));
            assert!(matches!(e.cause, SafetyError::Unrecognized(f) if f == "user.txt"));
        },
        Ok(()) => panic!("an unrecorded file must stop the export"),
    }
}

#[test]
fn failed_listing_records_nothing() {
    let mut edited = EditedFiles::new();
    let rp = folder("/out/rp", true, walk(&["/", "out", "rp"], &[&["/", "out", "rp", "a.json"]], None));
    let bp = folder("/out/bp", true, walk(&["/", "out", "bp"], &[], Some("broken")));
    match edited.update_from_paths(&rp, &bp, false) {
        Err(e) => assert!(matches!(e.pack, PackKind::Behavior)),
        Ok(()) => panic!("listing must fail"),
    }
    assert!(edited.rp.get("/out/rp").is_none());
    let missing = folder("/out/bp", false, walk(&["/", "out", "bp"], &[], None));
    assert!(edited.update_from_paths(&rp, &missing, false).is_ok());
    assert_eq!(edited.bp.get("/out/bp").unwrap().len(), 0);
}

fn context(remote: bool) -> FilterContext {
    FilterContext {
        name: "f".to_string(),
        filter_dir: pth(&["/", "proj"]),
        remote_config: if remote { Some(RemoteFilterConfig { export_data: true }) } else { None },
        nested: false,
        initial: true,
    }
}

fn check_run(r: &Run, program: &str, args: &[&str], logging: bool) {
    assert_eq!(arg_text(&r.process.program), program);
    assert_eq!(args_of(&r.process), strings(args));
    assert_eq!(show(r.process.current_dir.as_ref().unwrap()), vec!["/", "tmp"]);
    assert_eq!(show(r.process.env_dir.as_ref().unwrap()), vec!["/", "proj"]);
    assert_eq!(r.log_prefix.is_some(), logging);
}

#[test]
fn filter_context_for_local_and_remote() {
    let local = FilterDefinition::Local(LocalFilter::Bun(FilterBun { script: pth(&["a.js"]) }));
    let cache = pth(&["/", "cache"]);
    let location = RemoteLocation { name: pth(&["n"]), url: pth(&["github.com", "x", "y"]), version: pth(&["1.0"]) };
    let c = FilterContext::new("n", &local, true, false, &pth(&["/", "proj"]), &cache, &location, None);
    assert_eq!(show(&c.filter_dir), vec!["/", "proj"]);
    assert!(c.remote_config.is_none());
    assert!(c.nested && !c.initial);
    let c = FilterContext::new("n", &local, true, true, &pth(&["/", "proj"]), &cache, &location, None);
    assert!(c.nested && !c.initial);
    let c = FilterContext::new("n", &local, false, true, &pth(&["/", "proj"]), &cache, &location, None);
    assert!(!c.nested && c.initial);
    let remote = FilterDefinition::Remote(RemoteFilter { url: "github.com/x/y".to_string(), version: "1.0".to_string() });
    let c = FilterContext::new("n", &remote, false, true, &pth(&["/", "proj"]), &cache, &location, Some(RemoteFilterConfig { export_data: false }));
    assert_eq!(show(&c.filter_dir), vec!["/", "cache", "filters", "github.com", "x", "y", "n", "1.0"]);
    assert!(c.initial);
    let c = FilterContext::new("n", &remote, false, true, &pth(&["/", "proj"]), &pth(&["/", "cache", "n"]), &RemoteLocation { name: FsPath::new(), url: FsPath::new(), version: FsPath::new() }, Some(RemoteFilterConfig { export_data: false }));
    assert_eq!(show(&c.filter_dir), vec!["/", "cache", "n", "filters"]);
    assert!(c.remote_config.is_some());
    assert_eq!(show(&c.filter_dir(&pth(&["filters", "x.py"]))), vec!["/", "cache", "n", "filters"]);
    assert_eq!(show(&context(false).filter_dir(&pth(&["filters", "x.py"]))), vec!["filters"]);
    assert_eq!(show(&context(false).filter_dir(&pth(&["x.py"]))), Vec::<String>::new());
}

#[test]
fn bun_and_dotnet_commands() {
    let mut config = UserConfig::default();
    let run_args = strings(&["{\"a\":1}", "extra"]);
    let r = FilterBun { script: pth(&["s", "main.ts"]) }.run(&context(false), &pth(&["/", "tmp"]), &run_args, &config);
    check_run(&r, "bun", &["run", "/|proj|s|main.ts", "{\"a\":1}", "extra"], false);
    let install = FilterBun { script: pth(&["s", "main.ts"]) }.install_dependencies(&context(false), &config);
    assert_eq!(args_of(&install), strings(&["i"]));
    assert_eq!(show(install.current_dir.as_ref().unwrap()), vec!["s"]);
    config.subprocess_logging = true;
    config.dotnet_runner = Some("/usr/bin/dotnet".to_string());
    let r = FilterDotnet { path: pth(&["bin", "f.dll"]) }.run(&context(false), &pth(&["/", "tmp"]), &vec![], &config);
    check_run(&r, "/usr/bin/dotnet", &["/|proj|bin|f.dll"], true);
    assert_eq!(r.log_prefix.as_deref(), Some("f"));
}

#[test]
fn nim_command_and_install() {
    let config = UserConfig::default();
    let nim = FilterNim { script: pth(&["n", "main.nim"]), requirements: None };
    let r = nim.run(&context(false), &pth(&["/", "tmp"]), &vec![], &config);
    check_run(&r, "nim", &["-r", "c", "--hints:off", "--warnings:off", "--mm:orc", "/|proj|n|main.nim"], false);
    assert_eq!(show(&nim.requirements_dir(&context(false))), vec!["/", "proj", "n"]);
    assert!(nim.install_dependencies(&context(false), &config, false).is_none());
    let install = nim.install_dependencies(&context(false), &config, true).unwrap();
    assert_eq!(arg_text(&install.program), "nimble");
    assert_eq!(args_of(&install), strings(&["install", "-d", "-y"]));
    let with_req = FilterNim { script: pth(&["main.nim"]), requirements: Some(pth(&["deps"])) };
    assert_eq!(show(&with_req.requirements_dir(&context(false))), vec!["/", "proj", "deps"]);
}

#[test]
fn nodejs_runtime_by_override() {
    let mut config = UserConfig::default();
    let f = FilterNodejs { script: pth(&["main.js"]), requirements: None };
    assert!(matches!(NodeRuntime::resolve(&config, "f"), NodeRuntime::Node));
    let r = f.run(&context(false), &pth(&["/", "tmp"]), &vec![], &config);
    check_run(&r, "node", &["/|proj|main.js"], false);
    let install = f.install_dependencies(&context(false), &config, true, false).unwrap();
    assert_eq!(arg_text(&install.program), "npm");
    assert!(f.install_dependencies(&context(false), &config, false, false).is_none());
    let mut m = indexmap::IndexMap::new();
    m.insert("*".to_string(), "deno".to_string());
    m.insert("f".to_string(), "bun".to_string());
    config.node_runner_override = Some(m);
    assert!(matches!(NodeRuntime::resolve(&config, "f"), NodeRuntime::Bun));
    assert!(matches!(NodeRuntime::resolve(&config, "g"), NodeRuntime::Deno));
    let r = f.run(&context(false), &pth(&["/", "tmp"]), &vec![], &config);
    check_run(&r, "bun", &["run", "/|proj|main.js"], false);
    let install = f.install_dependencies(&context(false), &config, false, false).unwrap();
    assert_eq!(args_of(&install), strings(&["i"]));
    let mut deno_ctx = context(false);
    deno_ctx.name = "g".to_string();
    let r = f.run(&deno_ctx, &pth(&["/", "tmp"]), &vec![], &config);
    assert_eq!(arg_text(&r.process.program), "deno");
    assert_eq!(args_of(&r.process), strings(&["run", "-A", "--no-lock", "/|proj|main.js"]));
    assert!(f.install_dependencies(&deno_ctx, &config, true, false).is_none());
}

#[test]
fn python_run_and_install() {
    let config = UserConfig::default();
    let dot = pth(&["/", "proj", ".regolith"]);
    let f = FilterPython { script: pth(&["py", "main.py"]), requirements: None, venv_slot: None };
    let r = f.run(&context(false), &pth(&["/", "tmp"]), &vec![], &config, &dot, false, false);
    check_run(&r, "python", &["-u", "/|proj|py|main.py"], false);
    let r = f.run(&context(false), &pth(&["/", "tmp"]), &vec![], &config, &dot, true, false);
    assert_eq!(arg_text(&r.process.program), "/|proj|.venv|bin|python");
    let r = f.run(&context(false), &pth(&["/", "tmp"]), &vec![], &config, &dot, true, true);
    assert_eq!(arg_text(&r.process.program), "/|proj|.venv|Scripts|python.exe");
    assert_eq!(show(&f.requirements_file(&context(false))), vec!["py", "requirements.txt"]);
    assert!(f.install_dependencies(&context(false), &config, &dot, false, false).is_none());
    let plan = f.install_dependencies(&context(false), &config, &dot, true, false).unwrap();
    assert_eq!(show(plan.create_dir.as_ref().unwrap()), vec!["py"]);
    assert_eq!(args_of(&plan.create_venv), strings(&["-m", "venv", "py|.venv"]));
    assert_eq!(arg_text(&plan.install.program), "py|.venv|bin|pip");
    assert_eq!(args_of(&plan.install), strings(&["install", "-r", "requirements.txt"]));
    assert_eq!(show(plan.install.current_dir.as_ref().unwrap()), vec!["py"]);
    let slotted = FilterPython { script: pth(&["main.py"]), requirements: Some(pth(&["reqs", "dev.txt"])), venv_slot: Some(12) };
    assert_eq!(show(&shared_venv_dir(&dot, 12)), vec!["/", "proj", ".regolith", "cache", "venvs", "12"]);
    assert_eq!(show(&slotted.venv_dir(&context(false), &dot)), vec!["/", "proj", ".regolith", "cache", "venvs", "12"]);
    let plan = slotted.install_dependencies(&context(false), &config, &dot, true, true).unwrap();
    assert_eq!(args_of(&plan.install), strings(&["install", "-r", "dev.txt"]));
    assert_eq!(show(plan.install.current_dir.as_ref().unwrap()), vec!["/", "proj", "reqs"]);
    assert_eq!(arg_text(&plan.install.program), "/|proj|.regolith|cache|venvs|12|Scripts|pip.exe");
}

#[test]
fn python_filters_in_one_slot_share_a_venv() {
    let config = UserConfig::default();
    let dot = pth(&["/", "proj", ".regolith"]);
    let a = FilterPython { script: pth(&["a", "main.py"]), requirements: None, venv_slot: Some(3) };
    let b = FilterPython { script: pth(&["b", "run.py"]), requirements: None, venv_slot: Some(3) };
    let mut other = context(false);
    other.name = "g".to_string();
    other.filter_dir = pth(&["/", "elsewhere"]);
    let shared = vec!["/", "proj", ".regolith", "cache", "venvs", "3"];
    assert_eq!(show(&a.venv_dir(&context(false), &dot)), shared);
    assert_eq!(show(&b.venv_dir(&other, &dot)), shared);
    let plan = b.install_dependencies(&other, &config, &dot, true, false).unwrap();
    assert_eq!(args_of(&plan.create_venv), strings(&["-m", "venv", "/|proj|.regolith|cache|venvs|3"]));
    let own = FilterPython { script: pth(&["a", "main.py"]), requirements: None, venv_slot: None };
    assert_eq!(show(&own.venv_dir(&other, &dot)), vec!["/", "elsewhere", ".venv"]);
}

#[test]
fn bun_runtime_installs_in_the_script_folder() {
    let mut config = UserConfig::default();
    let mut m = indexmap::IndexMap::new();
    m.insert("f".to_string(), "bun".to_string());
    config.node_runner_override = Some(m);
    let f = FilterNodejs { script: pth(&["js", "main.js"]), requirements: Some(pth(&["deps"])) };
    let install = f.install_dependencies(&context(false), &config, false, false).unwrap();
    assert_eq!(arg_text(&install.program), "bun");
    assert_eq!(show(install.current_dir.as_ref().unwrap()), vec!["js"]);
    config.node_runner_override = None;
    let install = f.install_dependencies(&context(false), &config, true, false).unwrap();
    assert_eq!(arg_text(&install.program), "npm");
    assert_eq!(show(install.current_dir.as_ref().unwrap()), vec!["/", "proj", "deps"]);
}

#[test]
fn remote_python_requirements_sit_next_to_the_script() {
    let f = FilterPython { script: pth(&["src", "main.py"]), requirements: None, venv_slot: None };
    assert_eq!(show(&f.requirements_file(&context(true))), vec!["/", "proj", "src", "requirements.txt"]);
    let top = FilterPython { script: pth(&["main.py"]), requirements: None, venv_slot: None };
    assert_eq!(show(&top.requirements_file(&context(true))), vec!["/", "proj", "requirements.txt"]);
    let given = FilterPython { script: pth(&["src", "main.py"]), requirements: Some(pth(&["req.txt"])), venv_slot: None };
    assert_eq!(show(&given.requirements_file(&context(true))), vec!["/", "proj", "req.txt"]);
}

#[test]
fn entry_outcomes_merge_in_order() {
    let mut names = strings(&["a"]);
    let ok: Vec<Result<Vec<String>, String>> = vec![Ok(strings(&["b"])), Ok(vec![]), Ok(strings(&["c", "d"]))];
    assert!(merge_entry_results(&mut names, &ok).is_ok());
    assert_eq!(names, strings(&["a", "b", "c", "d"]));
    let mut names = Vec::new();
    let failing: Vec<Result<Vec<String>, String>> =
        vec![Ok(strings(&["x"])), Err("first".to_string()), Err("second".to_string()), Ok(strings(&["y"]))];
    assert_eq!(merge_entry_results(&mut names, &failing), Err(1));
    assert_eq!(names, strings(&["x"]));
}

#[test]
fn only_remote_filters_that_ask_export_data() {
    assert!(!context(false).exports_data());
    let mut c = context(true);
    assert!(c.exports_data());
    c.remote_config = Some(RemoteFilterConfig { export_data: false });
    assert!(!c.exports_data());
}

fn filter_entry(mode: Option<&str>, args: Option<&[&str]>, settings: Option<&str>) -> FilterRunner {
    FilterRunner::Filter {
        filter_name: "f".to_string(),
        disabled: false,
        arguments: args.map(strings),
        settings: settings.map(|s| s.to_string()),
        expression: None,
        extra_arguments_mode: mode.map(|s| s.to_string()),
    }
}

fn run_args_of(step: Result<RunnerStep, ProfileError>) -> Vec<String> {
    match step {
        Ok(RunnerStep::RunFilter { run_args, .. }) => run_args,
        _ => panic!("expected a filter run"),
    }
}

#[test]
fn extra_argument_modes() {
    let extra = strings(&["x", "y"]);
    assert_eq!(run_args_of(filter_entry(None, Some(&["a"]), Some("{}")).plan("p", &extra)), strings(&["{}", "a"]));
    assert_eq!(run_args_of(filter_entry(Some(""), Some(&["a"]), None).plan("p", &extra)), strings(&["a"]));
    assert_eq!(run_args_of(filter_entry(Some("ignore"), None, None).plan("p", &extra)), Vec::<String>::new());
    assert_eq!(run_args_of(filter_entry(Some("override"), Some(&["a"]), Some("{}")).plan("p", &extra)), strings(&["{}", "x", "y"]));
    assert_eq!(run_args_of(filter_entry(Some("append"), Some(&["a"]), None).plan("p", &extra)), strings(&["a", "x", "y"]));
    match filter_entry(Some("prepend"), None, None).plan("p", &extra) {
        Err(ProfileError::InvalidExtraArguments(m)) => assert_eq!(m, "prepend"),
        _ => panic!("expected an invalid mode"),
    }
}

#[test]
fn disabled_and_nested_profiles() {
    let disabled = FilterRunner::Filter {
        filter_name: "f".to_string(),
        disabled: true,
        arguments: None,
        settings: None,
        expression: Some("true".to_string()),
        extra_arguments_mode: Some("bogus".to_string()),
    };
    assert!(matches!(disabled.plan("p", &vec![]), Ok(RunnerStep::DisabledFilter(n)) if n == "f"));
    let nested = FilterRunner::ProfileFilter { profile_name: "build".to_string(), disabled: false };
    assert_eq!(nested.get_name(), "build");
    assert!(matches!(nested.plan("default", &vec![]), Ok(RunnerStep::RunProfile(n)) if n == "build"));
    assert!(matches!(nested.plan("build", &vec![]), Err(ProfileError::CircularProfile(n)) if n == "build"));
    let off = FilterRunner::ProfileFilter { profile_name: "build".to_string(), disabled: true };
    assert!(matches!(off.plan("build", &vec![]), Ok(RunnerStep::DisabledProfile(_))));
}

fn temp() -> Temp {
    Temp::from_dot_regolith(None, false, &pth(&["/", "p", ".regolith"]), "/p")
}

fn action(a: &FsAction) -> String {
    match a {
        FsAction::RemoveAll(p) => format!("rm {}", render(p)),
        FsAction::CreateDirAll(p) => format!("mkdir {}", render(p)),
        FsAction::RemoveIfSymlink(p) => format!("unlink {}", render(p)),
        FsAction::Sync { from, to } => format!("sync {} {}", render(from), render(to)),
        FsAction::Symlink { target, link } => format!("ln {} {}", render(target), render(link)),
        FsAction::SetReadOnly(p) => format!("ro {}", render(p)),
        FsAction::SyncIfDir { from, to } => format!("syncdir {} {}", render(from), render(to)),
        FsAction::PrintExport { label, path } => format!("print {} {}", label, render(path)),
    }
}

fn target(bp: &str, rp: &str, read_only: bool) -> ResolvedTarget {
    ResolvedTarget { bp: pth(&["/", "out", bp]), rp: pth(&["/", "out", rp]), read_only }
}

#[test]
fn labels_and_symlink_choice() {
    assert_eq!(target_label(0, "local"), "export target 1 (local)");
    assert_eq!(target_label(9, "world"), "export target 10 (world)");
    assert_eq!(pack_label("export target 1 (local)", "behavior pack", "/out/bp"), "export target 1 (local) behavior pack: /out/bp");
    assert!(use_symlink(false, 1));
    assert!(!use_symlink(true, 1));
    assert!(!use_symlink(false, 2));
    assert!(!use_symlink(false, 0));
}

#[test]
fn setup_plan_copies_or_links() {
    let t = temp();
    let resolved = vec![target("bp", "rp", false)];
    let data = pth(&["data"]);
    let bp = Some(pth(&["packs", "BP"]));
    let rp: Option<FsPath> = None;
    let copied: Vec<String> = plan_setup(true, false, &resolved, &t, &bp, &rp, &data, &resolved[0].bp, &resolved[0].rp).iter().map(action).collect();
    assert_eq!(
        copied,
        vec![
            "rm /p/.regolith/tmp", "rm /out/bp", "rm /out/rp", "mkdir data", "mkdir /p/.regolith/tmp",
            "unlink /p/.regolith/tmp/BP", "unlink /p/.regolith/tmp/RP", "unlink /p/.regolith/tmp/data",
            "sync packs/BP /p/.regolith/tmp/BP", "sync data /p/.regolith/tmp/data",
        ]
    );
    let linked: Vec<String> = plan_setup(false, true, &resolved, &t, &bp, &rp, &data, &resolved[0].bp, &resolved[0].rp).iter().map(action).collect();
    assert_eq!(
        linked,
        vec![
            "mkdir data", "mkdir /p/.regolith/tmp", "rm /p/.regolith/tmp/BP", "rm /p/.regolith/tmp/RP",
            "unlink /p/.regolith/tmp/data", "sync packs/BP /out/bp", "ln /out/bp /p/.regolith/tmp/BP",
            "sync data /p/.regolith/tmp/data",
        ]
    );
}

#[test]
fn export_plan_per_target() {
    let t = temp();
    let resolved = vec![target("bp1", "rp1", true), target("bp2", "rp2", false)];
    let copied: Vec<String> = plan_export(&resolved, false, &t, true, true, &resolved[0].bp, &resolved[0].rp).iter().map(action).collect();
    assert_eq!(
        copied,
        vec![
            "print BP (target 1) /out/bp1", "sync /p/.regolith/tmp/BP /out/bp1", "ro /out/bp1",
            "print RP (target 1) /out/rp1", "sync /p/.regolith/tmp/RP /out/rp1", "ro /out/rp1",
            "print BP (target 2) /out/bp2", "sync /p/.regolith/tmp/BP /out/bp2",
            "print RP (target 2) /out/rp2", "sync /p/.regolith/tmp/RP /out/rp2",
        ]
    );
    let single = vec![target("bp", "rp", true)];
    let linked: Vec<String> = plan_export(&single, true, &t, true, false, &single[0].bp, &single[0].rp).iter().map(action).collect();
    assert_eq!(linked, vec!["print BP /out/bp"]);
    let none: Vec<String> = plan_export(&vec![], false, &t, true, true, &t.bp, &t.rp).iter().map(action).collect();
    assert_eq!(none, vec!["print BP /p/.regolith/tmp/BP", "print RP /p/.regolith/tmp/RP"]);
}

#[test]
fn export_data_plan() {
    let plan: Vec<String> = plan_export_data(&strings(&["a", "b"]), &pth(&["/", "t", "data"]), &pth(&["data"])).iter().map(action).collect();
    assert_eq!(plan, vec!["syncdir /t/data/a data/a", "syncdir /t/data/b data/b"]);
}

fn step(s: &CleanStep) -> String {
    match s {
        CleanStep::ValidateProject => "validate".to_string(),
        CleanStep::LockSession => "lock".to_string(),
        CleanStep::UnlockSession => "unlock".to_string(),
        CleanStep::Remove { path, what } => {
            let w = match what {
                CleanTarget::ProjectCaches => "projects",
                CleanTarget::FilterRepositories => "repos",
                CleanTarget::InstalledFilters => "filters",
                CleanTarget::DotRegolith => "dot",
                CleanTarget::AppDataDotRegolith => "appdata",
                CleanTarget::Build => "build",
            };
            format!("rm {} {}", w, render(path))
        },
    }
}

#[test]
fn clean_steps_by_flags() {
    let cache = pth(&["/", "c"]);
    let cwd = pth(&["/", "proj"]);
    let user = Clean { user_cache: true, filter_cache: true };
    assert_eq!(user.dispatch(&cache, &cwd, "/proj").iter().map(step).collect::<Vec<_>>(), vec!["rm projects /c/project-cache"]);
    let filters = Clean { user_cache: false, filter_cache: true };
    assert_eq!(
        filters.dispatch(&cache, &cwd, "/proj").iter().map(step).collect::<Vec<_>>(),
        vec!["rm repos /c/repo", "rm filters /c/filters"]
    );
    let project = Clean { user_cache: false, filter_cache: false };
    assert_eq!(
        project.dispatch(&cache, &cwd, "/proj").iter().map(step).collect::<Vec<_>>(),
        vec![
            "validate", "lock", "rm dot /proj/.regolith",
            "rm appdata /c/project-cache/70ec297f7fbe1a752f6d0c7a2a5afaf5", "rm build build", "unlock",
        ]
    );
    assert_eq!(project.error_context(), "Error cleaning files");
    assert_eq!(UpdateResolvers.error_context(), "Error updating resolvers");
}

fn exact_target(bp: &[&str], rp: &[&str], read_only: bool) -> Export {
    Export::Exact(ExactExport { bp_path: pth(bp), rp_path: pth(rp), read_only })
}

#[test]
fn export_resolution_walks_active_targets_in_order() {
    let targets = ExportTargets(vec![
        none_target(),
        exact_target(&["/", "a", "bp"], &["/", "a", "rp"], true),
        none_target(),
        exact_target(&["/", "b", "bp"], &["/", "b", "rp"], false),
    ]);
    let cwd = pth(&["/", "proj"]);
    let mut res = ExportResolution::new(&targets);
    assert_eq!(res.next(), Some(1));
    res.record(&cwd, false, pth(&["/", "a", "bp"]), pth(&["/", "a", "rp"]), None, None, "/a/bp", "/a/rp").unwrap();
    assert_eq!(res.next(), Some(3));
    res.record(&cwd, false, pth(&["/", "b", "bp"]), pth(&["/", "b", "rp"]), None, None, "/b/bp", "/b/rp").unwrap();
    assert_eq!(res.next(), None);
    let bp = Some(pth(&["/", "proj", "BP"]));
    let rp = Some(pth(&["/", "proj", "RP"]));
    let plan = res.plan(false, false, &temp(), &bp, &rp, &pth(&["/", "proj", "data"]), &pth(&["/", "p", ".regolith"])).unwrap();
    assert!(!plan.use_symlink);
    let export: Vec<String> = plan.export.iter().map(action).collect();
    assert!(export.contains(&"ro /a/bp".to_string()));
    assert!(!export.contains(&"ro /b/bp".to_string()));
    assert!(export.contains(&"sync /p/.regolith/tmp/BP /b/bp".to_string()));
}

#[test]
fn export_resolution_links_a_single_target_and_refuses_collisions() {
    let cwd = pth(&["/", "proj"]);
    let single = ExportTargets(vec![exact_target(&["out", "bp"], &["out", "rp"], true)]);
    let mut res = ExportResolution::new(&single);
    res.record(&cwd, false, pth(&["out", "bp"]), pth(&["out", "rp"]), None, None, "out/bp", "out/rp").unwrap();
    let plan = res.plan(false, false, &temp(), &Some(pth(&["BP"])), &None, &pth(&["data"]), &pth(&["/", "p", ".regolith"])).unwrap();
    assert!(plan.use_symlink);
    let setup: Vec<String> = plan.setup.iter().map(action).collect();
    assert!(setup.contains(&"ln out/bp /p/.regolith/tmp/BP".to_string()));
    assert!(plan.export.iter().all(|a| !matches!(a, FsAction::SetReadOnly(_))));

    let twice = ExportTargets(vec![local_target(false), local_target(false)]);
    let mut res = ExportResolution::new(&twice);
    res.record(&cwd, false, pth(&["build", "bp"]), pth(&["build", "rp"]), None, None, "build/bp", "build/rp").unwrap();
    match res.record(&cwd, false, pth(&[".", "build", "bp"]), pth(&["x"]), None, None, "./build/bp", "x") {
        Err(ExportError::Collision { first_label, second_label, path }) => {
            assert_eq!(first_label, "export target 1 (local) behavior pack: build/bp");
            assert_eq!(second_label, "export target 2 (local) behavior pack: ./build/bp");
            assert_eq!(show(&path), vec!["/", "proj", "build", "bp"]);
        },
        _ => panic!("expected a collision"),
    }
    assert!(res.plan(false, false, &temp(), &None, &None, &pth(&["data"]), &pth(&["/", "p", ".regolith"])).is_none());

    let same = ExportTargets(vec![exact_target(&["/", "o"], &["/", "o", "rp"], false)]);
    let mut res = ExportResolution::new(&same);
    assert!(matches!(
        res.record(&cwd, false, pth(&["/", "o"]), pth(&["/", "o", "rp"]), None, None, "/o", "/o/rp"),
        Err(ExportError::Collision { .. })
    ));
    let canonical = ExportTargets(vec![local_target(false), local_target(false)]);
    let mut res = ExportResolution::new(&canonical);
    res.record(&cwd, false, pth(&["a"]), pth(&["b"]), Some(pth(&["/", "real"])), None, "a", "b").unwrap();
    assert!(res.record(&cwd, false, pth(&["c"]), pth(&["d"]), None, Some(pth(&["/", "real", "x"])), "c", "d").is_err());
}

#[test]
fn export_resolution_with_only_none_targets_uses_working_dir() {
    let targets = ExportTargets(vec![none_target()]);
    let res = ExportResolution::new(&targets);
    assert_eq!(res.next(), None);
    let plan = res.plan(false, false, &temp(), &Some(pth(&["BP"])), &Some(pth(&["RP"])), &pth(&["data"]), &pth(&["/", "p", ".regolith"])).unwrap();
    let export: Vec<String> = plan.export.iter().map(action).collect();
    assert_eq!(export, vec!["print BP /p/.regolith/tmp/BP", "print RP /p/.regolith/tmp/RP"]);
    let empty = ExportTargets(vec![]);
    assert!(ExportResolution::new(&empty).plan(false, false, &temp(), &None, &None, &pth(&["data"]), &pth(&["/", "p", ".regolith"])).is_none());
}

#[test]
fn profile_entries_run_in_order_until_one_fails() {
    let mut progress = ProfileProgress::new(3);
    assert_eq!(progress.next(), Some(0));
    let first: Vec<Result<Vec<String>, String>> = vec![Ok(strings(&["a"]))];
    assert!(progress.finish_entry(&first).is_ok());
    assert_eq!(progress.next(), Some(1));
    let group: Vec<Result<Vec<String>, String>> = vec![Ok(strings(&["b"])), Err("boom".to_string()), Err("later".to_string())];
    assert_eq!(progress.finish_entry(&group), Err(1));
    assert_eq!(progress.next(), Some(1));
    assert_eq!(progress.into_names(), strings(&["a", "b"]));
    let mut done = ProfileProgress::new(1);
    let ok: Vec<Result<Vec<String>, String>> = vec![Ok(strings(&["x"])), Ok(vec![])];
    assert!(done.finish_entry(&ok).is_ok());
    assert_eq!(done.next(), None);
    assert_eq!(done.into_names(), strings(&["x"]));
}
