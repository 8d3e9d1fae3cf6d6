//! Moving servers between installations: the export of the stored servers
//! and the import of the servers that a desktop MCP client is configured with.
use vstd::prelude::*;
use crate::json::{parse_string_list, string_list_parse};
use crate::registration::{opt_texts, texts};
use crate::strmap::StrMap;
use crate::text::{join2, join3, owned, str_eq};

verus! {

/// An environment variable as exported.
pub struct ExportedEnvVar {
    pub value: String,
    pub description: String,
    pub required: bool,
}

/// A server as exported.
pub struct ExportedServer {
    pub id: String,
    pub name: String,
    pub description: String,
    pub tools_type: String,
    pub enabled: bool,
    pub entry_point: Option<String>,
    pub command: Option<String>,
    pub args: Option<Vec<String>>,
    pub distribution_type: Option<String>,
    pub distribution_package: Option<String>,
    pub server_type: Option<String>,
    pub working_directory: Option<String>,
    pub executable_path: Option<String>,
    pub env_vars: StrMap<ExportedEnvVar>,
}

/// The exported servers, under a format version.
pub struct ExportData {
    pub version: String,
    pub servers: Vec<ExportedServer>,
}

/// A stored server, as the database holds it; `args` is a JSON array's text.
pub struct ServerRecord {
    pub id: String,
    pub name: String,
    pub description: String,
    pub tools_type: String,
    pub enabled: bool,
    pub entry_point: Option<String>,
    pub command: Option<String>,
    pub args: Option<String>,
    pub distribution_type: Option<String>,
    pub distribution_package: Option<String>,
    pub server_type: Option<String>,
    pub working_directory: Option<String>,
    pub executable_path: Option<String>,
}

/// A stored environment variable of a server.
pub struct ServerEnvRecord {
    pub server_id: String,
    pub env_key: String,
    pub env_value: String,
    pub env_description: String,
    pub env_required: bool,
}

/// A desktop MCP client's configuration: its MCP servers by name.
pub struct DesktopClientConfig {
    pub mcp_servers: StrMap<DesktopServerConfig>,
}

/// How the desktop client starts one MCP server.
pub struct DesktopServerConfig {
    pub command: String,
    pub args: Vec<String>,
    pub env: StrMap<String>,
}

/// The exported arguments of a stored server: the list its text holds, or
/// the text itself as the only argument when it holds no list of strings.
pub open spec fn exported_args(args: Option<String>) -> Option<Seq<Seq<char>>> {
    match args {
        None => None,
        Some(t) => Some(match string_list_parse(t@) {
            Some(v) => v,
            None => seq![t@],
        }),
    }
}

/// The environment variables that `envs` hold for server `id`; a later
/// record of a variable replaces an earlier one.
pub open spec fn env_of(envs: Seq<ServerEnvRecord>, id: Seq<char>) -> Map<Seq<char>, ExportedEnvVar>
    decreases envs.len(),
{
    if envs.len() == 0 {
        Map::empty()
    } else {
        let m = env_of(envs.drop_last(), id);
        let e = envs.last();
        if e.server_id@ == id {
            m.insert(e.env_key@, ExportedEnvVar { value: e.env_value, description: e.env_description, required: e.env_required })
        } else {
            m
        }
    }
}

/// Whether record `i` is the first with its identifier.
pub open spec fn first_with_id(records: Seq<ServerRecord>, i: int) -> bool {
    forall|k: int| 0 <= k < i ==> #[trigger] records[k].id@ != records[i].id@
}

/// Whether `e` exports the stored server `s` with the variables `env`.
pub open spec fn exports(e: ExportedServer, s: ServerRecord, env: Map<Seq<char>, ExportedEnvVar>) -> bool {
    &&& e.id == s.id
    &&& e.name == s.name
    &&& e.description == s.description
    &&& e.tools_type == s.tools_type
    &&& e.enabled == s.enabled
    &&& e.entry_point == s.entry_point
    &&& e.command == s.command
    &&& opt_texts(e.args) == exported_args(s.args)
    &&& e.distribution_type == s.distribution_type
    &&& e.distribution_package == s.distribution_package
    &&& e.server_type == s.server_type
    &&& e.working_directory == s.working_directory
    &&& e.executable_path == s.executable_path
    &&& e.env_vars.wf()
    &&& e.env_vars@ == env
}

fn env_for(envs: &Vec<ServerEnvRecord>, id: &str) -> (r: StrMap<ExportedEnvVar>)
    ensures
        r.wf(),
        r@ == env_of(envs@, id@),
{
    let mut m: StrMap<ExportedEnvVar> = StrMap::new();
    let mut j: usize = 0;
    while j < envs.len()
        invariant
            j <= envs@.len(),
            m.wf(),
            m@ == env_of(envs@.take(j as int), id@),
        decreases envs@.len() - j,
    {
        let e = &envs[j];
        assert(envs@.take(j + 1).drop_last() =~= envs@.take(j as int));
        if str_eq(e.server_id.as_str(), id) {
            m.insert(e.env_key.clone(), ExportedEnvVar {
                value: e.env_value.clone(),
                description: e.env_description.clone(),
                required: e.env_required,
            });
        }
        j = j + 1;
    }
    assert(envs@.take(j as int) =~= envs@);
    m
}

fn export_args(args: Option<String>) -> (r: Option<Vec<String>>)
    ensures
        opt_texts(r) == exported_args(args),
{
    match args {
        None => None,
        Some(t) => match parse_string_list(t.as_str()) {
            Some(v) => Some(v),
            None => {
                let ghost tv = t@;
                let v = vec![t];
                assert(texts(v@) =~= seq![tv]);
                Some(v)
            }
        },
    }
}

fn contains_id(seen: &Vec<String>, id: &str) -> (r: bool)
    ensures
        r == texts(seen@).contains(id@),
{
    let mut i: usize = 0;
    while i < seen.len()
        invariant
            i <= seen@.len(),
            forall|k: int| 0 <= k < i ==> seen@[k]@ != id@,
        decreases seen@.len() - i,
    {
        if str_eq(seen[i].as_str(), id) {
            assert(texts(seen@)[i as int] == id@);
            return true;
        }
        i = i + 1;
    }
    assert forall|k: int| 0 <= k < texts(seen@).len() implies #[trigger] texts(seen@)[k] != id@ by {
        assert(texts(seen@)[k] == seen@[k]@);
    }
    false
}

/// Exports the stored servers, in order, each with its environment
/// variables (a server whose identifier was already exported gets none), under
/// format version 1.0.
pub fn export_servers(servers: Vec<ServerRecord>, envs: &Vec<ServerEnvRecord>) -> (r: ExportData)
    ensures
        r.version@ == "1.0"@,
        r.servers@.len() == servers@.len(),
        forall|i: int| 0 <= i < servers@.len() ==> exports(#[trigger] r.servers@[i], servers@[i],
            if first_with_id(servers@, i) { env_of(envs@, servers@[i].id@) } else { Map::empty() }),
{
    proof { reveal_strlit("1.0"); }
    let ghost all = servers@;
    let mut rest = servers;
    let mut out: Vec<ExportedServer> = Vec::new();
    let mut seen: Vec<String> = Vec::new();
    while rest.len() > 0
        invariant
            out@.len() + rest@.len() == all.len(),
            rest@ == all.skip(out@.len() as int),
            seen@.len() == out@.len(),
            forall|k: int| 0 <= k < seen@.len() ==> #[trigger] seen@[k] == all[k].id,
            forall|i: int| 0 <= i < out@.len() ==> exports(#[trigger] out@[i], all[i],
                if first_with_id(all, i) { env_of(envs@, all[i].id@) } else { Map::empty() }),
        decreases rest@.len(),
    {
        let ghost n = out@.len() as int;
        let s = rest.remove(0);
        assert(all[n] == s);
        let repeated = contains_id(&seen, s.id.as_str());
        assert(repeated == !first_with_id(all, n)) by {
            if repeated {
                let k = choose|k: int| 0 <= k < texts(seen@).len() && texts(seen@)[k] == s.id@;
                assert(all[k].id@ == all[n].id@);
            } else {
                assert forall|k: int| 0 <= k < n implies #[trigger] all[k].id@ != all[n].id@ by {
                    assert(texts(seen@)[k] == seen@[k]@);
                }
            }
        }
        let env_vars = if repeated {
            let m: StrMap<ExportedEnvVar> = StrMap::new();
            m
        } else {
            env_for(envs, s.id.as_str())
        };
        seen.push(s.id.clone());
        let e = ExportedServer {
            id: s.id,
            name: s.name,
            description: s.description,
            tools_type: s.tools_type,
            enabled: s.enabled,
            entry_point: s.entry_point,
            command: s.command,
            args: export_args(s.args),
            distribution_type: s.distribution_type,
            distribution_package: s.distribution_package,
            server_type: s.server_type,
            working_directory: s.working_directory,
            executable_path: s.executable_path,
            env_vars,
        };
        out.push(e);
        assert(rest@ =~= all.skip(out@.len() as int));
    }
    ExportData { version: owned("1.0"), servers: out }
}


/// Whether `x` is among `s`.
pub open spec fn has_item(s: Seq<Seq<char>>, x: Seq<char>) -> bool {
    exists|i: int| 0 <= i < s.len() && s[i] == x
}

/// The first position of `x` in `s`, or -1.
pub open spec fn position_of(s: Seq<Seq<char>>, x: Seq<char>) -> int
    decreases s.len(),
{
    if s.len() == 0 {
        -1
    } else if s[0] == x {
        0
    } else {
        let r = position_of(s.drop_first(), x);
        if r < 0 { -1 } else { r + 1 }
    }
}

/// A position that is the first holding `x` (or -1 when none does) is
/// `position_of`.
proof fn lemma_position_of(s: Seq<Seq<char>>, x: Seq<char>, i: int)
    requires
        -1 <= i < s.len(),
        i >= 0 ==> s[i] == x,
        forall|j: int| 0 <= j < s.len() && (i < 0 || j < i) ==> #[trigger] s[j] != x,
    ensures
        position_of(s, x) == i,
    decreases s.len(),
{
    if s.len() > 0 && i != 0 {
        let t = s.drop_first();
        assert forall|j: int| 0 <= j < t.len() && (i - 1 < 0 || j < i - 1) implies #[trigger] t[j] != x by {
            assert(t[j] == s[j + 1]);
        }
        if i > 0 {
            assert(t[i - 1] == s[i]);
            lemma_position_of(t, x, i - 1);
        } else {
            lemma_position_of(t, x, -1);
        }
    }
}

/// Whether the desktop client starts a local Node.js script: `node` on one
/// absolute path.
pub open spec fn is_local_node(command: Seq<char>, args: Seq<Seq<char>>) -> bool {
    command == "node"@ && args.len() == 1 && args[0].len() > 0 && args[0][0] == '/'
}

/// Whether the desktop client runs a local Python project with `uv`: `uv` with
/// `run` and `--directory`.
pub open spec fn is_local_uv(command: Seq<char>, args: Seq<Seq<char>>) -> bool {
    command == "uv"@ && has_item(args, "run"@) && has_item(args, "--directory"@)
}

/// The argument that follows the first `--directory`, if any.
pub open spec fn uv_working_dir(args: Seq<Seq<char>>) -> Option<Seq<char>> {
    let d = position_of(args, "--directory"@);
    if d + 1 < args.len() { Some(args[d + 1]) } else { None }
}

/// What kind of server the desktop client starts with `command` and `args`:
/// its server type, tool type, working directory and executable. A local
/// Node.js script, a local `uv` project (in the directory that follows
/// `--directory`), an absolute command (a local custom server), or else a
/// custom server.
pub open spec fn server_kind(command: Seq<char>, args: Seq<Seq<char>>)
    -> (Seq<char>, Seq<char>, Option<Seq<char>>, Option<Seq<char>>) {
    if is_local_node(command, args) {
        ("local"@, "node"@, None, Some(args[0]))
    } else if is_local_uv(command, args) {
        ("local"@, "python"@, uv_working_dir(args), None)
    } else if command.len() > 0 && command[0] == '/' {
        ("local"@, "custom"@, None, Some(command))
    } else {
        ("custom"@, "custom"@, None, None)
    }
}

fn position_in(s: &Vec<String>, x: &str) -> (r: Option<usize>)
    ensures
        match r {
            Some(i) => i < s@.len() && texts(s@)[i as int] == x@ && position_of(texts(s@), x@) == i
                && has_item(texts(s@), x@),
            None => !has_item(texts(s@), x@) && position_of(texts(s@), x@) == -1,
        },
{
    let ghost t = texts(s@);
    let mut i: usize = 0;
    while i < s.len()
        invariant
            i <= s@.len(),
            t == texts(s@),
            forall|k: int| 0 <= k < i ==> #[trigger] t[k] != x@,
        decreases s@.len() - i,
    {
        if str_eq(s[i].as_str(), x) {
            proof {
                assert(t[i as int] == x@);
                lemma_position_of(t, x@, i as int);
            }
            return Some(i);
        }
        i = i + 1;
    }
    proof { lemma_position_of(t, x@, -1); }
    None
}

fn starts_with_slash(s: &str) -> (r: bool)
    ensures
        r == (s@.len() > 0 && s@[0] == '/'),
{
    s.unicode_len() > 0 && s.get_char(0) == '/'
}

fn local_node(config: &DesktopServerConfig) -> (r: bool)
    ensures
        r == is_local_node(config.command@, texts(config.args@)),
{
    proof { reveal_strlit("node"); }
    str_eq(config.command.as_str(), "node") && config.args.len() == 1 && starts_with_slash(config.args[0].as_str())
}

fn local_uv(config: &DesktopServerConfig) -> (r: Option<Option<String>>)
    ensures
        match r {
            None => !is_local_uv(config.command@, texts(config.args@)),
            Some(w) => is_local_uv(config.command@, texts(config.args@)) && match uv_working_dir(texts(config.args@)) {
                Some(d) => w is Some && w->0@ == d,
                None => w is None,
            },
        },
{
    proof {
        reveal_strlit("uv");
        reveal_strlit("run");
        reveal_strlit("--directory");
    }
    let args = &config.args;
    if !str_eq(config.command.as_str(), "uv") {
        return None;
    }
    if position_in(args, "run").is_none() {
        return None;
    }
    match position_in(args, "--directory") {
        Some(d) => Some(if d < args.len() - 1 { Some(args[d + 1].clone()) } else { None }),
        None => None,
    }
}

/// Works out what kind of server the desktop client starts.
pub fn analyze_server_config(config: &DesktopServerConfig) -> (r: (String, String, Option<String>, Option<String>))
    ensures
        ({
            let k = server_kind(config.command@, texts(config.args@));
            &&& r.0@ == k.0
            &&& r.1@ == k.1
            &&& match k.2 { Some(w) => r.2 is Some && r.2->0@ == w, None => r.2 is None }
            &&& match k.3 { Some(x) => r.3 is Some && r.3->0@ == x, None => r.3 is None }
        }),
{
    proof {
        reveal_strlit("local");
        reveal_strlit("node");
        reveal_strlit("python");
        reveal_strlit("custom");
    }
    if local_node(config) {
        return (owned("local"), owned("node"), None, Some(config.args[0].clone()));
    }
    match local_uv(config) {
        Some(working_dir) => (owned("local"), owned("python"), working_dir, None),
        None => {
            if starts_with_slash(config.command.as_str()) {
                (owned("local"), owned("custom"), None, Some(config.command.clone()))
            } else {
                (owned("custom"), owned("custom"), None, None)
            }
        }
    }
}

/// The servers of the desktop client's configuration that are imported: all
/// but the proxy server of this application itself, in order.
pub open spec fn importable(s: Seq<(String, DesktopServerConfig)>) -> Seq<(String, DesktopServerConfig)>
    decreases s.len(),
{
    if s.len() == 0 {
        Seq::empty()
    } else {
        let rest = importable(s.drop_last());
        if s.last().0@ == "mcp-dockmaster"@ { rest } else { rest.push(s.last()) }
    }
}

/// Whether `e` is the import of server `name` of the desktop client called
/// `source`, started by `c`.
pub open spec fn imports(e: ExportedServer, source: Seq<char>, name: String, c: DesktopServerConfig) -> bool {
    let k = server_kind(c.command@, texts(c.args@));
    &&& e.id@ == "imported/"@ + name@
    &&& e.name == name
    &&& e.description@ == "Imported from "@ + source + ": "@ + name@
    &&& e.tools_type@ == k.1
    &&& e.enabled
    &&& e.entry_point is None
    &&& e.command == Some(c.command)
    &&& e.args == (if c.args@.len() == 0 { None } else { Some(c.args) })
    &&& e.distribution_type is None
    &&& e.distribution_package is None
    &&& e.server_type is Some && e.server_type->0@ == k.0
    &&& match k.2 { Some(w) => e.working_directory is Some && e.working_directory->0@ == w, None => e.working_directory is None }
    &&& match k.3 { Some(x) => e.executable_path is Some && e.executable_path->0@ == x, None => e.executable_path is None }
    &&& e.env_vars.wf()
    &&& e.env_vars@.dom() == c.env@.dom()
    &&& forall|v: Seq<char>| #[trigger] e.env_vars@.contains_key(v) ==> e.env_vars@[v].value == c.env@[v]
        && e.env_vars@[v].description@ == "Imported from "@ + source + " config"@ && !e.env_vars@[v].required
}

fn imported_env(env: &StrMap<String>, source: &str) -> (r: StrMap<ExportedEnvVar>)
    requires
        env.wf(),
    ensures
        r.wf(),
        r@.dom() == env@.dom(),
        forall|v: Seq<char>| #[trigger] r@.contains_key(v) ==> r@[v].value == env@[v]
            && r@[v].description@ == "Imported from "@ + source@ + " config"@ && !r@[v].required,
{
    proof {
        reveal_strlit("Imported from ");
        reveal_strlit(" config");
    }
    let description = join3("Imported from ", source, " config");
    let mut m: StrMap<ExportedEnvVar> = StrMap::new();
    let mut i: usize = 0;
    while i < env.len()
        invariant
            i <= env.entries().len(),
            env.wf(),
            m.wf(),
            description@ == "Imported from "@ + source@ + " config"@,
            forall|v: Seq<char>| #[trigger] m@.contains_key(v) <==>
                exists|k: int| 0 <= k < i && #[trigger] env.entries()[k].0@ == v,
            forall|v: Seq<char>| #[trigger] m@.contains_key(v) ==> m@[v].value == env@[v]
                && m@[v].description@ == "Imported from "@ + source@ + " config"@ && !m@[v].required,
        decreases env.entries().len() - i,
    {
        let (k, v) = env.entry(i);
        proof { env.lemma_entry(i as int); }
        m.insert(k.clone(), ExportedEnvVar {
            value: v.clone(),
            description: description.clone(),
            required: false,
        });
        proof {
            assert forall|q: Seq<char>| #[trigger] m@.contains_key(q) <==>
                exists|j: int| 0 <= j < i + 1 && #[trigger] env.entries()[j].0@ == q by {
                if q == k@ {
                    assert(env.entries()[i as int].0@ == q);
                }
            }
        }
        i = i + 1;
    }
    proof {
        assert forall|v: Seq<char>| #[trigger] env@.contains_key(v) implies m@.contains_key(v) by {
            env.lemma_keys(v);
            let j = choose|j: int| 0 <= j < env.entries().len() && #[trigger] env.entries()[j].0@ == v;
            assert(env.entries()[j].0@ == v);
        }
        assert forall|v: Seq<char>| #[trigger] m@.contains_key(v) implies env@.contains_key(v) by {
            let j = choose|j: int| 0 <= j < env.entries().len() && #[trigger] env.entries()[j].0@ == v;
            env.lemma_entry(j);
        }
        assert(m@.dom() =~= env@.dom());
    }
    m
}

/// Imports the MCP servers that the desktop client called `source` is
/// configured with, in order, leaving out this application's own proxy
/// server.
pub fn import_desktop_config(config: DesktopClientConfig, source: &str) -> (r: Vec<ExportedServer>)
    requires
        forall|i: int| 0 <= i < config.mcp_servers.entries().len()
            ==> (#[trigger] config.mcp_servers.entries()[i]).1.env.wf(),
    ensures
        r@.len() == importable(config.mcp_servers.entries()).len(),
        forall|i: int| 0 <= i < r@.len() ==> imports(#[trigger] r@[i], source@,
            importable(config.mcp_servers.entries())[i].0, importable(config.mcp_servers.entries())[i].1),
{
    proof {
        reveal_strlit("mcp-dockmaster");
        reveal_strlit("imported/");
        reveal_strlit("Imported from ");
        reveal_strlit(": ");
    }
    let ghost all = config.mcp_servers.entries();
    let mut rest = config.mcp_servers.entries;
    let total = rest.len();
    let mut out: Vec<ExportedServer> = Vec::new();
    let mut done: usize = 0;
    while rest.len() > 0
        invariant
            all.len() == total,
            done + rest@.len() == all.len(),
            rest@ == all.skip(done as int),
            forall|i: int| 0 <= i < all.len() ==> (#[trigger] all[i]).1.env.wf(),
            out@.len() == importable(all.take(done as int)).len(),
            forall|i: int| 0 <= i < out@.len() ==> imports(#[trigger] out@[i], source@,
                importable(all.take(done as int))[i].0, importable(all.take(done as int))[i].1),
        decreases rest@.len(),
    {
        let (name, c) = rest.remove(0);
        assert(all[done as int] == (name, c));
        assert(all.take(done + 1).drop_last() =~= all.take(done as int));
        assert(all.take(done + 1).last() == (name, c));
        if !str_eq(name.as_str(), "mcp-dockmaster") {
            let kind = analyze_server_config(&c);
            let env_vars = imported_env(&c.env, source);
            let args = if c.args.len() == 0 { None } else { Some(c.args) };
            let e = ExportedServer {
                id: join2("imported/", name.as_str()),
                name: name.clone(),
                description: {
                    let mut d = join3("Imported from ", source, ": ");
                    d.append(name.as_str());
                    d
                },
                tools_type: kind.1,
                enabled: true,
                entry_point: None,
                command: Some(c.command),
                args,
                distribution_type: None,
                distribution_package: None,
                server_type: Some(kind.0),
                working_directory: kind.2,
                executable_path: kind.3,
                env_vars,
            };
            out.push(e);
        }
        done = done + 1;
        assert(rest@ =~= all.skip(done as int));
    }
    assert(all.take(done as int) =~= all);
    out
}


/// No server imported from a desktop client's configuration is this
/// application's own proxy server.
pub proof fn law_import_leaves_out_the_proxy(s: Seq<(String, DesktopServerConfig)>)
    ensures
        forall|i: int| 0 <= i < importable(s).len() ==> (#[trigger] importable(s)[i]).0@ != "mcp-dockmaster"@,
    decreases s.len(),
{
    if s.len() > 0 {
        let t = s.drop_last();
        law_import_leaves_out_the_proxy(t);
        assert forall|i: int| 0 <= i < importable(s).len() implies (#[trigger] importable(s)[i]).0@ != "mcp-dockmaster"@ by {
            if i < importable(t).len() {
                assert(importable(s)[i] == importable(t)[i]);
            }
        }
    }
}


/// An imported server is started the way the desktop client starts it: the
/// same command, and the same arguments (none when it has none).
pub proof fn law_import_keeps_the_launch_command(e: ExportedServer, source: Seq<char>, name: String, c: DesktopServerConfig)
    requires
        imports(e, source, name, c),
    ensures
        e.command is Some && e.command->0 == c.command,
        c.args@.len() > 0 ==> e.args == Some(c.args),
        e.name == name,
{
}

/// An exported server is started the way the stored server is: the same
/// command, under the same identifier and name.
pub proof fn law_export_keeps_the_launch_command(e: ExportedServer, s: ServerRecord, env: Map<Seq<char>, ExportedEnvVar>)
    requires
        exports(e, s, env),
    ensures
        e.command == s.command,
        e.id == s.id,
        e.name == s.name,
        opt_texts(e.args) == exported_args(s.args),
{
}

} // verus!
