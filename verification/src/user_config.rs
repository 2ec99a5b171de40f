//! The user's settings, shared by all projects, and the defaults that stand
//! in for settings the user left out.

use vstd::prelude::*;
use indexmap::IndexMap;

verus! {

#[verifier::external_type_specification]
#[verifier::external_body]
#[verifier::reject_recursive_types(K)]
#[verifier::reject_recursive_types(V)]
#[verifier::reject_recursive_types(S)]
pub struct ExIndexMap<K, V, S>(indexmap::IndexMap<K, V, S>);

/// The entries of a string-to-string `IndexMap`, in insertion order.
pub uninterp spec fn index_map_entries(m: IndexMap<String, String>) -> Seq<(Seq<char>, Seq<char>)>;

/// Looks `key` up with `IndexMap::get` and clones the value found. The
/// contract claims that a value is found exactly when some entry has the
/// key, and that the value found is the value of every entry with that key
/// (an `IndexMap` holds each key once).
#[verifier::external_body]
fn index_map_get(m: &IndexMap<String, String>, key: &str) -> (r: Option<String>)
    ensures
        r is Some <==> (exists|i: int|
            0 <= i < index_map_entries(*m).len() && (#[trigger] index_map_entries(*m)[i]).0 == key@),
        r is Some ==> forall|i: int|
            0 <= i < index_map_entries(*m).len() && (#[trigger] index_map_entries(*m)[i]).0 == key@
                ==> index_map_entries(*m)[i].1 == r->0@,
{
    m.get(key).cloned()
}

/// The value stored under `key` in a list of entries, if any.
pub open spec fn entry_value(entries: Seq<(Seq<char>, Seq<char>)>, key: Seq<char>) -> Option<Seq<char>> {
    if exists|i: int| 0 <= i < entries.len() && (#[trigger] entries[i]).0 == key {
        let i = choose|i: int| 0 <= i < entries.len() && (#[trigger] entries[i]).0 == key;
        Some(entries[i].1)
    } else {
        None
    }
}

/// The runtime override for a filter: its own entry, else the `"*"` entry.
pub open spec fn spec_runner_override(m: Option<IndexMap<String, String>>, filter_name: Seq<char>) -> Option<Seq<char>> {
    match m {
        None => None,
        Some(m) => match entry_value(index_map_entries(m), filter_name) {
            Some(v) => Some(v),
            None => entry_value(index_map_entries(m), "*"@),
        },
    }
}

fn map_get(m: &IndexMap<String, String>, key: &str) -> (r: Option<String>)
    ensures
        match r {
            Some(v) => entry_value(index_map_entries(*m), key@) == Some(v@),
            None => entry_value(index_map_entries(*m), key@) is None,
        },
{
    let r = index_map_get(m, key);
    proof {
        let e = index_map_entries(*m);
        if r is Some {
            let i = choose|i: int| 0 <= i < e.len() && (#[trigger] e[i]).0 == key@;
            assert(e[i].1 == r->0@);
        }
    }
    r
}

fn clone_opt(o: &Option<String>) -> (r: Option<String>)
    ensures
        r == *o,
{
    match o {
        Some(s) => Some(s.clone()),
        None => None,
    }
}

fn clone_strings(v: &Vec<String>) -> (r: Vec<String>)
    ensures
        r@ == v@,
{
    let mut r: Vec<String> = Vec::new();
    let n = v.len();
    let mut i: usize = 0;
    while i < n
        invariant
            n == v.len(),
            i <= n,
            r@ == v@.subrange(0, i as int),
        decreases n - i,
    {
        r.push(v[i].clone());
        assert(r@ =~= v@.subrange(0, i + 1));
        i = i + 1;
    }
    assert(v@.subrange(0, n as int) =~= v@);
    r
}

/// The user's settings.
pub struct UserConfig {
    pub username: String,
    pub resolvers: Vec<String>,
    pub resolver_update_interval: u64,
    pub filter_cache_update_cooldown: u64,
    pub websocket_port: u16,
    pub force_compat: bool,
    pub subprocess_logging: bool,
    pub use_project_app_data_storage: bool,
    pub mojang_dir: Option<String>,
    pub nodejs_runtime: Option<String>,
    pub nodejs_package_manager: Option<String>,
    pub python_command: Option<String>,
    pub tmp_dir: Option<String>,
    /// Which JS runtime family (`bun`, `deno` or `node`) runs `nodejs`
    /// filters, by filter name, with `"*"` for every filter without an entry
    /// of its own.
    pub node_runner_override: Option<IndexMap<String, String>>,
    pub bun_runner: Option<String>,
    pub deno_runner: Option<String>,
    pub dotnet_runner: Option<String>,
    pub java_runner: Option<String>,
    pub nim_runner: Option<String>,
    pub nimble_runner: Option<String>,
    pub node_runner: Option<String>,
    pub npm_runner: Option<String>,
    pub python_runner: Option<String>,
}

/// `o`'s value, or `d` when it has none.
pub open spec fn or_default(o: Option<String>, d: Seq<char>) -> Seq<char> {
    match o {
        Some(s) => s@,
        None => d,
    }
}

pub open spec fn spec_default_resolvers() -> Seq<Seq<char>> {
    seq!["github.com/Bedrock-OSS/regolith-filter-resolver/resolver.json"@]
}

/// The name used when the user gave none.
pub fn default_username() -> (s: String)
    ensures
        s@ == "Your name"@,
{
    "Your name".to_owned()
}

/// The resolvers used when the user listed none.
pub fn default_resolvers() -> (v: Vec<String>)
    ensures
        v@.map_values(|s: String| s@) == spec_default_resolvers(),
{
    let v = vec!["github.com/Bedrock-OSS/regolith-filter-resolver/resolver.json".to_owned()];
    assert(v@.map_values(|s: String| s@) =~= spec_default_resolvers());
    v
}

/// Seconds between resolver updates, by default.
pub fn default_resolver_update_interval() -> (n: u64)
    ensures
        n == 300,
{
    300
}

/// Seconds between filter cache updates, by default.
pub fn default_filter_cache_update_cooldown() -> (n: u64)
    ensures
        n == 300,
{
    300
}

/// The websocket port, by default.
pub fn default_websocket_port() -> (n: u16)
    ensures
        n == 80,
{
    80
}

impl UserConfig {
    /// The settings of a user who has set nothing.
    pub fn default() -> (c: UserConfig)
        ensures
            c.username@ == "Your name"@,
            c.resolvers@.map_values(|s: String| s@) == spec_default_resolvers(),
            c.resolver_update_interval == 300,
            c.filter_cache_update_cooldown == 300,
            c.websocket_port == 80,
            !c.force_compat,
            !c.subprocess_logging,
            !c.use_project_app_data_storage,
            c.mojang_dir is None,
            c.nodejs_runtime is None,
            c.nodejs_package_manager is None,
            c.python_command is None,
            c.tmp_dir is None,
            c.node_runner_override is None,
            c.bun_runner is None,
            c.deno_runner is None,
            c.dotnet_runner is None,
            c.java_runner is None,
            c.nim_runner is None,
            c.nimble_runner is None,
            c.node_runner is None,
            c.npm_runner is None,
            c.python_runner is None,
    {
        UserConfig {
            username: default_username(),
            resolvers: default_resolvers(),
            resolver_update_interval: default_resolver_update_interval(),
            filter_cache_update_cooldown: default_filter_cache_update_cooldown(),
            websocket_port: default_websocket_port(),
            force_compat: false,
            subprocess_logging: false,
            use_project_app_data_storage: false,
            mojang_dir: None,
            nodejs_runtime: None,
            nodejs_package_manager: None,
            python_command: None,
            tmp_dir: None,
            node_runner_override: None,
            bun_runner: None,
            deno_runner: None,
            dotnet_runner: None,
            java_runner: None,
            nim_runner: None,
            nimble_runner: None,
            node_runner: None,
            npm_runner: None,
            python_runner: None,
        }
    }

    pub fn username(&self) -> (s: String)
        ensures
            s@ == self.username@,
    {
        self.username.clone()
    }

    pub fn resolvers(&self) -> (v: Vec<String>)
        ensures
            v@ == self.resolvers@,
    {
        clone_strings(&self.resolvers)
    }

    pub fn resolver_update_interval(&self) -> (n: u64)
        ensures
            n == self.resolver_update_interval,
    {
        self.resolver_update_interval
    }

    pub fn filter_cache_update_cooldown(&self) -> (n: u64)
        ensures
            n == self.filter_cache_update_cooldown,
    {
        self.filter_cache_update_cooldown
    }

    pub fn websocket_port(&self) -> (n: u16)
        ensures
            n == self.websocket_port,
    {
        self.websocket_port
    }

    pub fn force_compat(&self) -> (b: bool)
        ensures
            b == self.force_compat,
    {
        self.force_compat
    }

    pub fn subprocess_logging(&self) -> (b: bool)
        ensures
            b == self.subprocess_logging,
    {
        self.subprocess_logging
    }

    pub fn use_project_app_data_storage(&self) -> (b: bool)
        ensures
            b == self.use_project_app_data_storage,
    {
        self.use_project_app_data_storage
    }

    pub fn mojang_dir(&self) -> (s: Option<String>)
        ensures
            s == self.mojang_dir,
    {
        clone_opt(&self.mojang_dir)
    }

    pub fn tmp_dir(&self) -> (s: Option<String>)
        ensures
            s == self.tmp_dir,
    {
        clone_opt(&self.tmp_dir)
    }

    /// The JS runtime binary, `node` unless set.
    pub fn nodejs_runtime(&self) -> (s: String)
        ensures
            s@ == or_default(self.nodejs_runtime, "node"@),
    {
        match &self.nodejs_runtime {
            Some(s) => s.clone(),
            None => "node".to_owned(),
        }
    }

    /// The package manager binary, `npm` (`npm.cmd` on Windows) unless set.
    pub fn nodejs_package_manager(&self, windows: bool) -> (s: String)
        ensures
            s@ == or_default(self.nodejs_package_manager, if windows { "npm.cmd"@ } else { "npm"@ }),
    {
        match &self.nodejs_package_manager {
            Some(s) => s.clone(),
            None => if windows {
                "npm.cmd".to_owned()
            } else {
                "npm".to_owned()
            },
        }
    }

    /// The Python binary, `python` unless set.
    pub fn python_command(&self) -> (s: String)
        ensures
            s@ == or_default(self.python_command, "python"@),
    {
        match &self.python_command {
            Some(s) => s.clone(),
            None => "python".to_owned(),
        }
    }

    /// The JS runtime family override for a `nodejs` filter: the entry for
    /// the filter's name, else the `"*"` entry.
    pub fn node_runner_override(&self, filter_name: &str) -> (r: Option<String>)
        ensures
            match r {
                Some(v) => spec_runner_override(self.node_runner_override, filter_name@) == Some(v@),
                None => spec_runner_override(self.node_runner_override, filter_name@) is None,
            },
    {
        match &self.node_runner_override {
            None => None,
            Some(m) => match map_get(m, filter_name) {
                Some(v) => Some(v),
                None => map_get(m, "*"),
            },
        }
    }

    pub fn bun_runner(&self) -> (s: String)
        ensures
            s@ == or_default(self.bun_runner, "bun"@),
    {
        match &self.bun_runner {
            Some(s) => s.clone(),
            None => "bun".to_owned(),
        }
    }

    pub fn deno_runner(&self) -> (s: String)
        ensures
            s@ == or_default(self.deno_runner, "deno"@),
    {
        match &self.deno_runner {
            Some(s) => s.clone(),
            None => "deno".to_owned(),
        }
    }

    pub fn dotnet_runner(&self) -> (s: String)
        ensures
            s@ == or_default(self.dotnet_runner, "dotnet"@),
    {
        match &self.dotnet_runner {
            Some(s) => s.clone(),
            None => "dotnet".to_owned(),
        }
    }

    pub fn java_runner(&self) -> (s: String)
        ensures
            s@ == or_default(self.java_runner, "java"@),
    {
        match &self.java_runner {
            Some(s) => s.clone(),
            None => "java".to_owned(),
        }
    }

    pub fn nim_runner(&self) -> (s: String)
        ensures
            s@ == or_default(self.nim_runner, "nim"@),
    {
        match &self.nim_runner {
            Some(s) => s.clone(),
            None => "nim".to_owned(),
        }
    }

    pub fn nimble_runner(&self) -> (s: String)
        ensures
            s@ == or_default(self.nimble_runner, "nimble"@),
    {
        match &self.nimble_runner {
            Some(s) => s.clone(),
            None => "nimble".to_owned(),
        }
    }

    /// The binary that runs `nodejs` filters on node: `node_runner`, else
    /// `nodejs_runtime`, else `node`.
    pub fn node_runner(&self) -> (s: String)
        ensures
            s@ == or_default(self.node_runner, or_default(self.nodejs_runtime, "node"@)),
    {
        match &self.node_runner {
            Some(s) => s.clone(),
            None => self.nodejs_runtime(),
        }
    }

    /// The binary that installs `nodejs` filter dependencies on node:
    /// `npm_runner`, else the package manager setting or its default.
    pub fn npm_runner(&self, windows: bool) -> (s: String)
        ensures
            s@ == or_default(
                self.npm_runner,
                or_default(self.nodejs_package_manager, if windows { "npm.cmd"@ } else { "npm"@ }),
            ),
    {
        match &self.npm_runner {
            Some(s) => s.clone(),
            None => self.nodejs_package_manager(windows),
        }
    }

    /// The binary that runs `python` filters: `python_runner`, else
    /// `python_command`, else `python`.
    pub fn python_runner(&self) -> (s: String)
        ensures
            s@ == or_default(self.python_runner, or_default(self.python_command, "python"@)),
    {
        match &self.python_runner {
            Some(s) => s.clone(),
            None => self.python_command(),
        }
    }
}

} // verus!
