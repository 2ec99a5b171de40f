use indexmap::IndexMap;
use rgl::digest::{lower_hex, project_hash};
use rgl::eval::{env_file_name, expect_string, scope_variables, truthiness, EvalError, ExprValue, RunState, ScopeValue};
use rgl::path::{clean_path, path_contains, Component, FsPath};
use rgl::paths::{
    get_app_data_dot_regolith_dir, get_cache_dir, get_dot_regolith_dir, get_filter_cache_dir,
    get_filters_cache_dir, get_global_filters_path, get_project_cache_dir, get_repo_cache_dir,
    get_resolver_cache_dir, get_user_cache_dir, get_user_config_path, Os,
};
use rgl::temp::{get_working_dir, Temp};
use rgl::text::{concat_strs, decimal};
use rgl::user_config::{
    default_filter_cache_update_cooldown, default_resolver_update_interval, default_resolvers,
    default_username, default_websocket_port, UserConfig,
};

/// A path from parts: "/" is the root, "." and ".." themselves, "C:" a
/// prefix, anything else a name.
fn path_of(parts: &[&str]) -> FsPath {
    let comps = parts
        .iter()
        .map(|p| match *p {
            "/" => Component::RootDir,
            "." => Component::CurDir,
            ".." => Component::ParentDir,
            s if s.ends_with(':') => Component::Prefix(s.to_string()),
            s => Component::Normal(s.to_string()),
        })
        .collect();
    FsPath::from_components(comps).unwrap()
}

fn parts_of(p: &FsPath) -> Vec<String> {
    p.components()
        .into_iter()
        .map(|c| match c {
            Component::RootDir => "/".to_string(),
            Component::CurDir => ".".to_string(),
            Component::ParentDir => "..".to_string(),
            Component::Prefix(s) => s,
            Component::Normal(s) => s,
        })
        .collect()
}

#[test]
fn clean_path_removes_dots_and_resolves_parents() {
    let p = path_of(&["/", "a", ".", "b", "..", "c"]);
    assert_eq!(parts_of(&clean_path(&p)), vec!["/", "a", "c"]);
}

#[test]
fn components_out_of_place_are_refused() {
    let misplaced_root = vec![Component::Normal("a".to_string()), Component::RootDir];
    assert!(FsPath::from_components(misplaced_root).is_none());
    let misplaced_prefix = vec![Component::RootDir, Component::Prefix("C:".to_string())];
    assert!(FsPath::from_components(misplaced_prefix).is_none());
    let windows = vec![Component::Prefix("C:".to_string()), Component::RootDir, Component::Normal("x".to_string())];
    assert!(FsPath::from_components(windows).is_some());
}

#[test]
fn clean_path_keeps_leading_parents() {
    let p = path_of(&["..", "a", "..", ".."]);
    assert_eq!(parts_of(&clean_path(&p)), vec!["..", ".."]);
    let rooted = path_of(&["/", "..", "a"]);
    assert_eq!(parts_of(&clean_path(&rooted)), vec!["/", "..", "a"]);
}

#[test]
fn clean_path_is_idempotent_on_example() {
    let p = path_of(&[".", "x", "..", "..", "y", ".", "z"]);
    let once = clean_path(&p);
    let twice = clean_path(&once);
    assert_eq!(parts_of(&once), vec!["..", "y", "z"]);
    assert!(once.same(&twice));
}

#[test]
fn path_contains_is_strict() {
    let a = path_of(&["/", "a"]);
    let ab = path_of(&["/", "a", "b"]);
    let a_sibling = path_of(&["/", "ab"]);
    assert!(path_contains(&a, &ab));
    assert!(!path_contains(&ab, &a));
    assert!(!path_contains(&a, &a));
    assert!(!path_contains(&a, &a_sibling));
}

#[test]
fn join_follows_path_rules() {
    let base = path_of(&["a"]);
    assert_eq!(parts_of(&base.join(&path_of(&[".", "b"]))), vec!["a", "b"]);
    assert_eq!(parts_of(&base.join(&path_of(&["/", "y"]))), vec!["/", "y"]);
    assert_eq!(parts_of(&FsPath::new().join(&path_of(&[".", "b"]))), vec![".", "b"]);
    let drive = path_of(&["C:", "/", "a"]);
    assert_eq!(parts_of(&drive.join(&path_of(&["/", "b"]))), vec!["C:", "/", "b"]);
    assert_eq!(parts_of(&drive.join(&path_of(&["D:", "x"]))), vec!["D:", "x"]);
}

#[test]
fn parent_pop_and_strip_prefix() {
    let mut p = path_of(&["/", "a", "b"]);
    assert!(p.pop());
    assert_eq!(parts_of(&p), vec!["/", "a"]);
    let mut root = path_of(&["/"]);
    assert!(!root.pop());
    assert_eq!(parts_of(&root), vec!["/"]);
    let full = path_of(&["/", "a", "b", "c"]);
    let rest = full.strip_prefix(&path_of(&["/", "a"])).unwrap();
    assert_eq!(parts_of(&rest), vec!["b", "c"]);
    assert!(full.strip_prefix(&path_of(&["/", "b"])).is_none());
    assert!(path_of(&["/", "x"]).is_absolute(false));
    assert!(!path_of(&["/", "x"]).is_absolute(true));
    assert!(path_of(&["C:", "/", "x"]).is_absolute(true));
}

#[test]
fn lower_hex_writes_two_digits_per_byte() {
    assert_eq!(lower_hex(&[0x00, 0xff, 0x0a, 0x9c]), "00ff0a9c");
    assert_eq!(lower_hex(&[]), "");
}

#[test]
fn project_hash_is_md5_hex() {
    assert_eq!(project_hash(""), "d41d8cd98f00b204e9800998ecf8427e");
    assert_eq!(project_hash("abc"), "900150983cd24fb0d6963f7d28e17f72");
    assert_eq!(project_hash("/proj"), format!("{:x}", md5::compute("/proj")));
}

#[test]
fn decimal_and_concat() {
    assert_eq!(decimal(0), "0");
    assert_eq!(decimal(7), "7");
    assert_eq!(decimal(1234), "1234");
    assert_eq!(decimal(u64::MAX), u64::MAX.to_string());
    assert_eq!(concat_strs("proj", "_bp"), "proj_bp");
}

#[test]
fn cache_dir_prefers_rgl_dir() {
    let cwd = path_of(&["/", "proj"]);
    let rgl = path_of(&["/", "custom"]);
    let user = path_of(&["/", "home", "u", ".cache"]);
    assert_eq!(parts_of(&get_cache_dir(&cwd, Some(&rgl), Some(&user), false).unwrap()), vec!["/", "custom"]);
    assert_eq!(parts_of(&get_cache_dir(&cwd, None, Some(&user), false).unwrap()), vec!["/", "home", "u", ".cache", "rgl"]);
    assert!(get_cache_dir(&cwd, None, None, false).is_none());
}

#[test]
fn relative_rgl_dir_resolves_against_current_dir() {
    let cwd = path_of(&["/", "proj"]);
    let rgl = path_of(&[".", "cache"]);
    let cache = get_cache_dir(&cwd, Some(&rgl), None, false).unwrap();
    assert_eq!(parts_of(&cache), vec!["/", "proj", "cache"]);
    assert!(cache.is_absolute(false));
    let dot = get_dot_regolith_dir(true, &cwd, "/proj", &cache);
    assert!(dot.is_absolute(false));
    assert_eq!(parts_of(&dot)[..4].to_vec(), vec!["/", "proj", "cache", "project-cache"]);
}

#[test]
fn drive_relative_rgl_dir_is_not_resolved() {
    let cwd = path_of(&["C:", "/", "proj"]);
    let drive_relative = path_of(&["D:", "cache"]);
    assert!(get_cache_dir(&cwd, Some(&drive_relative), None, true).is_none());
    let absolute = path_of(&["D:", "/", "cache"]);
    let cache = get_cache_dir(&cwd, Some(&absolute), None, true).unwrap();
    assert_eq!(parts_of(&cache), vec!["D:", "/", "cache"]);
    assert!(cache.is_absolute(true));
    let relative = path_of(&["cache"]);
    let cache = get_cache_dir(&cwd, Some(&relative), None, true).unwrap();
    assert_eq!(parts_of(&cache), vec!["C:", "/", "proj", "cache"]);
    let dot = get_dot_regolith_dir(true, &cwd, "C:\\proj", &cache);
    assert!(dot.is_absolute(true));
}

#[test]
fn verbatim_and_unc_prefixes_carry_a_root() {
    let verbatim = FsPath::from_components(vec![Component::Prefix("\\\\?\\C:".to_string())]).unwrap();
    assert!(verbatim.is_absolute(true));
    let unc = FsPath::from_components(vec![Component::Prefix("\\\\server\\share".to_string())]).unwrap();
    assert!(unc.is_absolute(true));
    assert!(!path_of(&["C:"]).is_absolute(true));
    assert!(path_of(&["C:", "/"]).is_absolute(true));
    assert!(!path_of(&["/", "x"]).is_absolute(true));
    assert!(path_of(&["/", "x"]).is_absolute(false));
}

#[test]
fn user_cache_dir_per_os() {
    let home = path_of(&["/", "home", "u"]);
    assert_eq!(parts_of(&get_user_cache_dir(Os::Linux, &home)), vec!["/", "home", "u", ".cache"]);
    assert_eq!(parts_of(&get_user_cache_dir(Os::MacOs, &home)), vec!["/", "home", "u", "Library", "Caches"]);
    let app_data = path_of(&["C:", "/", "Users", "u", "AppData", "Local"]);
    assert_eq!(parts_of(&get_user_cache_dir(Os::Windows, &app_data)), vec!["C:", "/", "Users", "u", "AppData", "Local"]);
}

#[test]
fn cache_areas() {
    let cache = path_of(&["/", "c"]);
    assert_eq!(parts_of(&get_project_cache_dir(&cache)), vec!["/", "c", "project-cache"]);
    assert_eq!(parts_of(&get_user_config_path(&cache)), vec!["/", "c", "user_config.json"]);
    assert_eq!(parts_of(&get_global_filters_path(&cache)), vec!["/", "c", "global_filters.json"]);
    assert_eq!(parts_of(&get_filters_cache_dir(&cache)), vec!["/", "c", "filters"]);
    assert_eq!(parts_of(&get_repo_cache_dir(&cache)), vec!["/", "c", "repo"]);
    assert_eq!(parts_of(&get_resolver_cache_dir(&cache)), vec!["/", "c", "resolver"]);
    let url = path_of(&["github.com", "Bedrock-OSS", "regolith-filters"]);
    let dir = get_filter_cache_dir(&cache, &path_of(&["name_ninja"]), &url, &path_of(&["1.0.0"]));
    assert_eq!(
        parts_of(&dir),
        vec!["/", "c", "filters", "github.com", "Bedrock-OSS", "regolith-filters", "name_ninja", "1.0.0"]
    );
}

#[test]
fn dot_regolith_dir_by_setting() {
    let cache = path_of(&["/", "c"]);
    let project = path_of(&["/", "proj"]);
    assert_eq!(parts_of(&get_dot_regolith_dir(false, &project, "/proj", &cache)), vec!["/", "proj", ".regolith"]);
    let hash = format!("{:x}", md5::compute("/proj"));
    assert_eq!(
        parts_of(&get_dot_regolith_dir(true, &project, "/proj", &cache)),
        vec!["/".to_string(), "c".to_string(), "project-cache".to_string(), hash.clone()]
    );
    assert_eq!(
        parts_of(&get_app_data_dot_regolith_dir("/proj", &cache)),
        vec!["/".to_string(), "c".to_string(), "project-cache".to_string(), hash]
    );
}

#[test]
fn working_dir_by_tmp_dir_setting() {
    let dot = path_of(&["/", "proj", ".regolith"]);
    assert_eq!(parts_of(&get_working_dir(None, false, &dot, "/proj")), vec!["/", "proj", ".regolith", "tmp"]);
    let relative = path_of(&["mytmp"]);
    assert_eq!(
        parts_of(&get_working_dir(Some(&relative), false, &dot, "/proj")),
        vec!["/", "proj", ".regolith", "mytmp"]
    );
    let absolute = path_of(&["/", "var", "tmp"]);
    assert_eq!(
        parts_of(&get_working_dir(Some(&absolute), false, &dot, "/proj")),
        vec!["/", "var", "tmp", "70ec297f7fbe1a752f6d0c7a2a5afaf5"]
    );
}

#[test]
fn temp_dirs_are_children_of_root() {
    let dot = path_of(&["/", "proj", ".regolith"]);
    let t = Temp::from_dot_regolith(None, false, &dot, "/proj");
    assert_eq!(parts_of(&t.root), vec!["/", "proj", ".regolith", "tmp"]);
    assert_eq!(parts_of(&t.bp), vec!["/", "proj", ".regolith", "tmp", "BP"]);
    assert_eq!(parts_of(&t.rp), vec!["/", "proj", ".regolith", "tmp", "RP"]);
    assert_eq!(parts_of(&t.data), vec!["/", "proj", ".regolith", "tmp", "data"]);
    assert!(!t.bp.same(&t.rp));
    assert!(!path_contains(&t.bp, &t.rp));
}

#[test]
fn user_config_defaults() {
    assert_eq!(default_username(), "Your name");
    assert_eq!(default_resolvers(), vec!["github.com/Bedrock-OSS/regolith-filter-resolver/resolver.json".to_string()]);
    assert_eq!(default_resolver_update_interval(), 300);
    assert_eq!(default_filter_cache_update_cooldown(), 300);
    assert_eq!(default_websocket_port(), 80);
    let c = UserConfig::default();
    assert_eq!(c.username(), "Your name");
    assert_eq!(c.websocket_port(), 80);
    assert!(!c.force_compat());
    assert!(!c.subprocess_logging());
    assert!(!c.use_project_app_data_storage());
    assert_eq!(c.mojang_dir(), None);
    assert_eq!(c.tmp_dir(), None);
    assert_eq!(c.nodejs_runtime(), "node");
    assert_eq!(c.nodejs_package_manager(false), "npm");
    assert_eq!(c.nodejs_package_manager(true), "npm.cmd");
    assert_eq!(c.python_command(), "python");
    assert_eq!(c.bun_runner(), "bun");
    assert_eq!(c.deno_runner(), "deno");
    assert_eq!(c.dotnet_runner(), "dotnet");
    assert_eq!(c.java_runner(), "java");
    assert_eq!(c.nim_runner(), "nim");
    assert_eq!(c.nimble_runner(), "nimble");
    assert_eq!(c.node_runner(), "node");
    assert_eq!(c.npm_runner(false), "npm");
    assert_eq!(c.python_runner(), "python");
    assert_eq!(c.resolver_update_interval(), 300);
    assert_eq!(c.filter_cache_update_cooldown(), 300);
    assert_eq!(c.resolvers().len(), 1);
}

#[test]
fn runner_fallbacks() {
    let mut c = UserConfig::default();
    c.nodejs_runtime = Some("bun".to_string());
    assert_eq!(c.node_runner(), "bun");
    c.node_runner = Some("/opt/node".to_string());
    assert_eq!(c.node_runner(), "/opt/node");
    c.nodejs_package_manager = Some("pnpm".to_string());
    assert_eq!(c.npm_runner(true), "pnpm");
    c.npm_runner = Some("yarn".to_string());
    assert_eq!(c.npm_runner(true), "yarn");
    c.python_command = Some("python3".to_string());
    assert_eq!(c.python_runner(), "python3");
    c.python_runner = Some("py".to_string());
    assert_eq!(c.python_runner(), "py");
}

#[test]
fn node_runner_override_lookup() {
    let mut c = UserConfig::default();
    assert_eq!(c.node_runner_override("anything"), None);
    let mut m = IndexMap::new();
    m.insert("fast".to_string(), "bun".to_string());
    c.node_runner_override = Some(m.clone());
    assert_eq!(c.node_runner_override("fast"), Some("bun".to_string()));
    assert_eq!(c.node_runner_override("other"), None);
    m.insert("*".to_string(), "deno".to_string());
    c.node_runner_override = Some(m);
    assert_eq!(c.node_runner_override("fast"), Some("bun".to_string()));
    assert_eq!(c.node_runner_override("other"), Some("deno".to_string()));
}

#[test]
fn run_mode_first_setting_wins() {
    let mut s = RunState::new();
    assert_eq!(s.run_mode(), "run");
    assert!(s.get_run_initial());
    s.set_run_mode("watch");
    s.set_run_mode("run");
    assert_eq!(s.run_mode(), "watch");
    s.set_run_initial(false);
    assert!(!s.get_run_initial());
    s.set_project_info("proj", Some("me"));
    assert_eq!(s.project_name, "proj");
    assert_eq!(s.project_author.as_deref(), Some("me"));
    s.set_project_info("other", None);
    assert_eq!(s.project_author, None);
}

#[test]
fn scope_lists_every_variable() {
    let mut s = RunState::new();
    s.set_project_info("proj", None);
    let v = scope_variables("default", "/proj", false, true, false, true, &s, "linux", "x86_64", "1.0.0");
    let names: Vec<&str> = v.iter().map(|(n, _)| n.as_str()).collect();
    assert_eq!(
        names,
        vec![
            "os", "arch", "version", "profile", "filterLocation", "mode", "settings", "debug", "pi",
            "nested", "initial", "project", "env"
        ]
    );
    assert!(matches!(&v[5].1, ScopeValue::Text(m) if m == "run"));
    assert!(matches!(&v[6].1, ScopeValue::Null));
    assert!(matches!(&v[7].1, ScopeValue::Bool(true)));
    assert!(matches!(&v[9].1, ScopeValue::Bool(false)));
    assert!(matches!(&v[11].1, ScopeValue::Project { name, author: None } if name == "proj"));
    let with_settings = scope_variables("p", "/x", true, false, true, false, &s, "windows", "aarch64", "2");
    assert!(matches!(&with_settings[6].1, ScopeValue::Settings));
    assert!(matches!(&v[10].1, ScopeValue::Bool(true)));
    let nested_initial = scope_variables("p", "/x", false, false, true, true, &s, "linux", "x86_64", "2");
    assert!(matches!(&nested_initial[9].1, ScopeValue::Bool(true)));
    assert!(matches!(&nested_initial[10].1, ScopeValue::Bool(false)));
}

#[test]
fn truthiness_of_values() {
    assert!(truthiness(&ExprValue::Text("x".to_string())).unwrap());
    assert!(!truthiness(&ExprValue::Text(String::new())).unwrap());
    assert!(truthiness(&ExprValue::Number { is_zero: false }).unwrap());
    assert!(!truthiness(&ExprValue::Number { is_zero: true }).unwrap());
    assert!(truthiness(&ExprValue::Bool(true)).unwrap());
    assert!(!truthiness(&ExprValue::Null).unwrap());
    assert!(matches!(truthiness(&ExprValue::Other), Err(EvalError::InvalidResult)));
}

#[test]
fn expect_string_values() {
    assert_eq!(expect_string(ExprValue::Text("name".to_string())).ok(), Some("name".to_string()));
    assert!(matches!(expect_string(ExprValue::Bool(true)), Err(EvalError::NotAString)));
    assert!(matches!(expect_string(ExprValue::Null), Err(EvalError::NotAString)));
}

#[test]
fn env_file_defaults_to_dot_env() {
    assert_eq!(env_file_name(None), ".env");
    assert_eq!(env_file_name(Some("")), ".env");
    assert_eq!(env_file_name(Some("custom.env")), "custom.env");
}
