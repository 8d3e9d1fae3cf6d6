//! The MCP servers that the core manages: their definitions, registration,
//! configuration and status changes, and the registration requests made
//! for projects imported from a repository.
use vstd::prelude::*;
use crate::json::{Json, JsonV, json_parse, lemma_object_view, member_views, parse_json_text, parse_toml_text, toml_parse};
use crate::registration::{opt_texts, text_map, texts};
use crate::strmap::StrMap;
use crate::text::{join2, join3, join4, owned, replace_all_char, replace_char};

verus! {

/// What a server expects of one environment variable.
pub struct ServerEnvironment {
    pub description: String,
    pub default: Option<String>,
    pub required: bool,
}

/// How a server's process is started.
pub struct ServerConfiguration {
    pub command: Option<String>,
    pub args: Option<Vec<String>>,
    pub env: Option<StrMap<ServerEnvironment>>,
}

/// Where a server's package comes from.
pub struct Distribution {
    pub dist_type: String,
    pub package: String,
}

/// A registered server.
pub struct ServerDefinition {
    pub name: String,
    pub description: String,
    pub enabled: bool,
    pub tools_type: String,
    pub entry_point: Option<String>,
    pub configuration: Option<ServerConfiguration>,
    pub distribution: Option<Distribution>,
}

pub struct ServerRegistrationRequest {
    pub server_id: String,
    pub server_name: String,
    pub description: String,
    pub tools_type: String,
    pub configuration: Option<ServerConfiguration>,
    pub distribution: Option<Distribution>,
}

pub struct ServerRegistrationResponse {
    pub success: bool,
    pub message: String,
    pub tool_id: Option<String>,
}

pub struct ServerUpdateRequest {
    pub server_id: String,
    pub enabled: bool,
}

pub struct ServerConfigUpdateRequest {
    pub server_id: String,
    pub config: StrMap<String>,
}

pub struct ServerUninstallResponse {
    pub success: bool,
    pub message: String,
}

/// A registered server as listed, with its runtime state.
pub struct RuntimeServer {
    pub definition: ServerDefinition,
    pub id: String,
    pub process_running: bool,
    pub tool_count: usize,
}

/// The definition stored for a registration: enabled, without entry point,
/// with the request's name, description, type, configuration and distribution.
pub fn registration_definition(req: ServerRegistrationRequest) -> (d: ServerDefinition)
    ensures
        d.name == req.server_name,
        d.description == req.description,
        d.enabled,
        d.tools_type == req.tools_type,
        d.entry_point is None,
        d.configuration == req.configuration,
        d.distribution == req.distribution,
{
    ServerDefinition {
        name: req.server_name,
        description: req.description,
        enabled: true,
        tools_type: req.tools_type,
        entry_point: None,
        configuration: req.configuration,
        distribution: req.distribution,
    }
}

/// The environment handed to a server's process: each variable that has a
/// default, set to it.
pub open spec fn default_values(m: Map<Seq<char>, ServerEnvironment>) -> Map<Seq<char>, Seq<char>> {
    Map::new(
        |k: Seq<char>| m.contains_key(k) && m[k].default is Some,
        |k: Seq<char>| m[k].default->0@,
    )
}

/// The defaults of a server's environment variables.
pub fn default_env(env: &StrMap<ServerEnvironment>) -> (r: StrMap<String>)
    requires
        env.wf(),
    ensures
        r.wf(),
        text_map(r@) == default_values(env@),
{
    let mut out: StrMap<String> = StrMap::new();
    let mut i: usize = 0;
    while i < env.len()
        invariant
            env.wf(),
            out.wf(),
            i <= env.entries().len(),
            forall|k: Seq<char>| #[trigger] out@.contains_key(k) ==
                (exists|j: int| 0 <= j < i && env.entries()[j].0@ == k && env.entries()[j].1.default is Some),
            forall|k: Seq<char>| #[trigger] out@.contains_key(k) ==>
                env@.contains_key(k) && env@[k].default is Some && out@[k]@ == env@[k].default->0@,
        decreases env.entries().len() - i,
    {
        let (k, v) = env.entry(i);
        proof { env.lemma_entry(i as int); }
        match &v.default {
            Some(d) => {
                let ghost pre = out@;
                out.insert(k.clone(), d.clone());
                proof {
                    assert forall|q: Seq<char>| #[trigger] out@.contains_key(q) ==
                        (exists|j: int| 0 <= j < i + 1 && env.entries()[j].0@ == q && env.entries()[j].1.default is Some) by {
                        if q == k@ {
                            assert(env.entries()[i as int].0@ == q);
                        } else if exists|j: int| 0 <= j < i + 1 && env.entries()[j].0@ == q && env.entries()[j].1.default is Some {
                            let j = choose|j: int| 0 <= j < i + 1 && env.entries()[j].0@ == q && env.entries()[j].1.default is Some;
                            assert(j != i);
                        }
                    }
                }
            }
            None => {
                proof {
                    assert forall|q: Seq<char>| #[trigger] out@.contains_key(q) ==
                        (exists|j: int| 0 <= j < i + 1 && env.entries()[j].0@ == q && env.entries()[j].1.default is Some) by {
                        if exists|j: int| 0 <= j < i + 1 && env.entries()[j].0@ == q && env.entries()[j].1.default is Some {
                            let j = choose|j: int| 0 <= j < i + 1 && env.entries()[j].0@ == q && env.entries()[j].1.default is Some;
                            assert(j != i);
                        }
                    }
                }
            }
        }
        i = i + 1;
    }
    proof {
        assert forall|k: Seq<char>| #[trigger] default_values(env@).contains_key(k) implies out@.contains_key(k) by {
            env.lemma_keys(k);
            let j = choose|j: int| 0 <= j < env.entries().len() && #[trigger] env.entries()[j].0@ == k;
            env.lemma_entry(j);
        }
        assert(text_map(out@) =~= default_values(env@));
    }
    out
}

/// JSON for an optional string: `null` when absent.
pub open spec fn opt_str_json(s: Option<String>) -> JsonV {
    match s {
        Some(x) => JsonV::Str(x@),
        None => JsonV::Null,
    }
}

/// The launch settings of a server: `{"command": .., "args": ..}` from its
/// configuration; a server without configuration has nothing to launch.
pub open spec fn server_launch_settings(d: ServerDefinition) -> Option<JsonV> {
    match d.configuration {
        Some(c) => Some(crate::registration::command_object_any(opt_str_json(c.command), crate::registration::args_json(c.args))),
        None => None,
    }
}

/// The launch settings of a server, or the error that it has none.
pub fn server_launch_config(d: &ServerDefinition) -> (r: Result<Json, String>)
    ensures
        match r {
            Ok(j) => server_launch_settings(*d) == Some(j.view()),
            Err(e) => server_launch_settings(*d) is None && e@ == crate::registration::missing_configuration_text(),
        },
{
    proof {
        reveal_strlit("Configuration is required for tools");
        reveal_strlit("command");
        reveal_strlit("args");
    }
    match &d.configuration {
        Some(c) => {
            let command = match &c.command {
                Some(s) => Json::Str(s.clone()),
                None => Json::Null,
            };
            let args = match &c.args {
                Some(v) => Json::string_array(v),
                None => Json::Null,
            };
            let ghost cv = command.view();
            let ghost av = args.view();
            let mut m: Vec<(String, Json)> = Vec::new();
            m.push((owned("command"), command));
            m.push((owned("args"), args));
            proof {
                lemma_object_view(m);
                assert(member_views(m@) =~= seq![("command"@, cv), ("args"@, av)]);
            }
            Ok(Json::Object(m))
        }
        None => Err(owned("Configuration is required for tools")),
    }
}

/// The answer to a server registration, given whether the process started.
pub fn server_registration_response(name: &str, server_id: String, spawn_error: Option<&str>) -> (r: ServerRegistrationResponse)
    ensures
        r.tool_id is Some && r.tool_id->0@ == server_id@,
        match spawn_error {
            Some(e) => !r.success && r.message@ == "Tool registered but failed to start process: "@ + e@,
            None => r.success && r.message@ == "Tool '"@ + name@ + "' registered successfully"@,
        },
{
    proof {
        reveal_strlit("Tool registered but failed to start process: ");
        reveal_strlit("Tool '");
        reveal_strlit("' registered successfully");
    }
    match spawn_error {
        Some(e) => ServerRegistrationResponse {
            success: false,
            message: join2("Tool registered but failed to start process: ", e),
            tool_id: Some(server_id),
        },
        None => ServerRegistrationResponse {
            success: true,
            message: join3("Tool '", name, "' registered successfully"),
            tool_id: Some(server_id),
        },
    }
}

/// The message for a server that is not registered.
pub fn not_found_message(server_id: &str) -> (r: String)
    ensures
        r@ == "Tool with ID '"@ + server_id@ + "' not found"@,
{
    proof {
        reveal_strlit("Tool with ID '");
        reveal_strlit("' not found");
    }
    join3("Tool with ID '", server_id, "' not found")
}

/// The message once a server's status changed: enabled servers are
/// started, disabled ones stopped.
pub fn status_changed_message(server_id: &str, enabled: bool) -> (r: String)
    ensures
        r@ == "Tool '"@ + server_id@ + "' status updated to "@
            + (if enabled { "enabled"@ } else { "disabled"@ }) + " and process "@
            + (if enabled { "started"@ } else { "stopped"@ }),
{
    proof {
        reveal_strlit("Tool '");
        reveal_strlit("' status updated to ");
        reveal_strlit("enabled");
        reveal_strlit("disabled");
        reveal_strlit(" and process ");
        reveal_strlit("started");
        reveal_strlit("stopped");
    }
    let mut m = join4("Tool '", server_id, "' status updated to ", if enabled { "enabled" } else { "disabled" });
    m.append(" and process ");
    m.append(if enabled { "started" } else { "stopped" });
    m
}

/// A server's definition with its `enabled` flag set.
pub fn definition_with_enabled(d: ServerDefinition, enabled: bool) -> (r: ServerDefinition)
    ensures
        r == (ServerDefinition { enabled, ..d }),
{
    let mut d = d;
    d.enabled = enabled;
    d
}

/// The variable that a configuration update sets: no description, the
/// given value as default, not required.
pub open spec fn set_variable(v: Seq<char>, e: ServerEnvironment) -> bool {
    e.description@ == Seq::<char>::empty() && e.default is Some && e.default->0@ == v && !e.required
}

/// Whether `r` is `d` after a configuration update setting `config`: a
/// missing configuration or environment is created, then each given variable
/// is set (replacing what the server had for it) and the other variables kept;
/// nothing else changes.
pub open spec fn config_applied(d: ServerDefinition, r: ServerDefinition, config: Map<Seq<char>, String>) -> bool {
    &&& r.name == d.name && r.description == d.description && r.enabled == d.enabled
        && r.tools_type == d.tools_type && r.entry_point == d.entry_point && r.distribution == d.distribution
    &&& r.configuration is Some
    &&& r.configuration->0.command == match d.configuration { Some(c) => c.command, None => None }
    &&& r.configuration->0.args == match d.configuration { Some(c) => c.args, None => None }
    &&& r.configuration->0.env is Some && r.configuration->0.env->0.wf()
    &&& ({
        let e = r.configuration->0.env->0@;
        let before = match d.configuration { Some(c) => match c.env { Some(x) => x@, None => Map::empty() }, None => Map::empty() };
        &&& forall|k: Seq<char>| #[trigger] e.contains_key(k) == (before.contains_key(k) || config.contains_key(k))
        &&& forall|k: Seq<char>| config.contains_key(k) ==> #[trigger] set_variable(config[k]@, e[k])
        &&& forall|k: Seq<char>| !config.contains_key(k) && before.contains_key(k) ==> #[trigger] e[k] == before[k]
    })
}

/// A server's configuration update.
pub fn update_server_env(d: ServerDefinition, config: &StrMap<String>) -> (r: ServerDefinition)
    requires
        config.wf(),
        d.configuration is Some && d.configuration->0.env is Some ==> d.configuration->0.env->0.wf(),
    ensures
        config_applied(d, r, config@),
{
    proof { reveal_strlit(""); }
    let mut d = d;
    let (command, args, env) = match d.configuration {
        Some(c) => (c.command, c.args, c.env),
        None => (None, None, None),
    };
    let mut env = match env {
        Some(e) => e,
        None => StrMap::new(),
    };
    let ghost before = env@;
    let mut i: usize = 0;
    while i < config.len()
        invariant
            config.wf(),
            env.wf(),
            i <= config.entries().len(),
            forall|k: Seq<char>| #[trigger] env@.contains_key(k) ==
                (before.contains_key(k) || exists|j: int| 0 <= j < i && config.entries()[j].0@ == k),
            forall|j: int| 0 <= j < i ==> #[trigger] set_variable(config.entries()[j].1@, env@[config.entries()[j].0@]),
            forall|k: Seq<char>| (forall|j: int| 0 <= j < i ==> #[trigger] config.entries()[j].0@ != k) && before.contains_key(k)
                ==> #[trigger] env@[k] == before[k],
        decreases config.entries().len() - i,
    {
        let (k, v) = config.entry(i);
        let ghost pre = env@;
        env.insert(k.clone(), ServerEnvironment { description: String::new(), default: Some(v.clone()), required: false });
        proof {
            assert forall|q: Seq<char>| #[trigger] env@.contains_key(q) ==
                (before.contains_key(q) || exists|j: int| 0 <= j < i + 1 && config.entries()[j].0@ == q) by {
                if q == k@ {
                    assert(config.entries()[i as int].0@ == q);
                } else if exists|j: int| 0 <= j < i + 1 && config.entries()[j].0@ == q {
                    let j = choose|j: int| 0 <= j < i + 1 && config.entries()[j].0@ == q;
                    assert(j != i);
                    assert(exists|j: int| 0 <= j < i && config.entries()[j].0@ == q);
                }
            }
            assert forall|j: int| 0 <= j < i + 1 implies #[trigger] set_variable(config.entries()[j].1@, env@[config.entries()[j].0@]) by {
                if j < i {
                    assert(config.entries()[j].0@ != config.entries()[i as int].0@);
                }
            }
            assert forall|q: Seq<char>| (forall|j: int| 0 <= j < i + 1 ==> #[trigger] config.entries()[j].0@ != q) && before.contains_key(q)
                implies #[trigger] env@[q] == before[q] by {
                assert(config.entries()[i as int].0@ != q);
            }
        }
        i = i + 1;
    }
    proof {
        assert forall|k: Seq<char>| #[trigger] config@.contains_key(k) <==>
            (exists|j: int| 0 <= j < config.entries().len() && config.entries()[j].0@ == k) by {
            config.lemma_keys(k);
            if config@.contains_key(k) {
                let j = choose|j: int| 0 <= j < config.entries().len() && #[trigger] config.entries()[j].0@ == k;
            }
        }
        assert forall|k: Seq<char>| config@.contains_key(k) implies #[trigger] set_variable(config@[k]@, env@[k]) by {
            let j = choose|j: int| 0 <= j < config.entries().len() && config.entries()[j].0@ == k;
            config.lemma_entry(j);
            assert(set_variable(config.entries()[j].1@, env@[config.entries()[j].0@]));
        }
        assert forall|k: Seq<char>| !config@.contains_key(k) && before.contains_key(k) implies #[trigger] env@[k] == before[k] by {
            assert forall|j: int| 0 <= j < config.entries().len() implies #[trigger] config.entries()[j].0@ != k by {
                config.lemma_entry(j);
            }
        }
    }
    d.configuration = Some(ServerConfiguration { command, args, env: Some(env) });
    d
}

/// What a configuration update sets reaches the server's process: every
/// variable given to the update is handed, with the given value, to the
/// process when the server is next started.
pub proof fn law_configured_variables_reach_the_process(env: Map<Seq<char>, ServerEnvironment>,
    config: Map<Seq<char>, String>)
    requires
        forall|k: Seq<char>| #[trigger] config.contains_key(k) ==> env.contains_key(k),
        forall|k: Seq<char>| config.contains_key(k) ==> #[trigger] set_variable(config[k]@, env[k]),
    ensures
        forall|k: Seq<char>| #[trigger] config.contains_key(k) ==> default_values(env).contains_key(k)
            && default_values(env)[k] == config[k]@,
{
    assert forall|k: Seq<char>| #[trigger] config.contains_key(k) implies default_values(env).contains_key(k)
        && default_values(env)[k] == config[k]@ by {
        assert(set_variable(config[k]@, env[k]));
    }
}

/// The message once a server's configuration was stored.
pub fn config_updated_message(server_id: &str) -> (r: String)
    ensures
        r@ == "Tool '"@ + server_id@ + "' configuration updated"@,
{
    proof {
        reveal_strlit("Tool '");
        reveal_strlit("' configuration updated");
    }
    join3("Tool '", server_id, "' configuration updated")
}

/// A variable named in a project's README: required, defaulting to empty.
pub open spec fn readme_variable(name: Seq<char>, e: ServerEnvironment) -> bool {
    e.description@ == "Extracted from README.md: "@ + name && e.default is Some
        && e.default->0@ == Seq::<char>::empty() && e.required
}

/// The environment of a project imported from a repository: one variable
/// per name found in its README.
pub fn readme_env(names: &Vec<String>) -> (r: StrMap<ServerEnvironment>)
    ensures
        r.wf(),
        forall|k: Seq<char>| #[trigger] r@.contains_key(k) == texts(names@).contains(k),
        forall|k: Seq<char>| r@.contains_key(k) ==> #[trigger] readme_variable(k, r@[k]),
{
    proof {
        reveal_strlit("Extracted from README.md: ");
        reveal_strlit("");
    }
    let mut out: StrMap<ServerEnvironment> = StrMap::new();
    let mut i: usize = 0;
    while i < names.len()
        invariant
            out.wf(),
            i <= names@.len(),
            forall|k: Seq<char>| #[trigger] out@.contains_key(k) == texts(names@).take(i as int).contains(k),
            forall|k: Seq<char>| out@.contains_key(k) ==> #[trigger] readme_variable(k, out@[k]),
        decreases names@.len() - i,
    {
        let name = &names[i];
        let ghost pre = out@;
        let empty = String::new();
        assert(empty@ =~= Seq::<char>::empty());
        let desc = join2("Extracted from README.md: ", name.as_str());
        assert(desc@ == "Extracted from README.md: "@ + name@);
        let var = ServerEnvironment {
            description: desc,
            default: Some(empty),
            required: true,
        };
        assert(var.description@ == "Extracted from README.md: "@ + name@);
        assert(var.default is Some);
        assert(var.default->0@ == Seq::<char>::empty());
        assert(var.required);
        assert(readme_variable(name@, var));
        out.insert(name.clone(), var);
        proof {
            assert forall|k: Seq<char>| out@.contains_key(k) implies #[trigger] readme_variable(k, out@[k]) by {
                if k != name@ {
                    assert(pre.contains_key(k));
                    assert(readme_variable(k, pre[k]));
                }
            }
            assert(texts(names@).take(i + 1) =~= texts(names@).take(i as int).push(name@));
            assert forall|k: Seq<char>| #[trigger] out@.contains_key(k) == texts(names@).take(i + 1).contains(k) by {
                if k == name@ {
                    assert(texts(names@).take(i + 1)[i as int] == k);
                }
                if texts(names@).take(i + 1).contains(k) && k != name@ {
                    let j = choose|j: int| 0 <= j < i + 1 && #[trigger] texts(names@).take(i + 1)[j] == k;
                    assert(texts(names@).take(i as int)[j] == k);
                }
            }
        }
        i = i + 1;
    }
    assert(texts(names@).take(names@.len() as int) =~= texts(names@));
    out
}

/// Whether `env` holds exactly the variables named in a README, each as
/// `readme_variable` describes it.
pub open spec fn readme_environment(env: StrMap<ServerEnvironment>, names: Seq<String>) -> bool {
    &&& env.wf()
    &&& forall|k: Seq<char>| #[trigger] env@.contains_key(k) == texts(names).contains(k)
    &&& forall|k: Seq<char>| env@.contains_key(k) ==> #[trigger] readme_variable(k, env@[k])
}

/// The registration request for a Node.js project whose `package.json` is
/// `package_json`: `npx -y <package>`, named after the package, with the
/// README's variables; a package without a `name` string cannot be
/// imported.
pub open spec fn node_request(r: Result<ServerRegistrationRequest, String>, package_json: JsonV,
    owner: Seq<char>, repo: Seq<char>, env_vars: Seq<String>) -> bool {
    match package_json.str_field("name"@) {
        None => r is Err && r->Err_0@ == "Missing 'name' field in package.json"@,
        Some(pkg) => r is Ok && ({
            let q = r->Ok_0;
            &&& q.server_id@ == owner + "/"@ + repo
            &&& q.server_name@ == pkg + " MCP Server"@
            &&& q.description@ == match package_json.str_field("description"@) {
                    Some(d) => d,
                    None => "MCP Server imported from GitHub"@,
                }
            &&& q.tools_type@ == "node"@
            &&& q.configuration is Some
            &&& q.configuration->0.command is Some && q.configuration->0.command->0@ == "npx"@
            &&& opt_texts(q.configuration->0.args) == Some(seq!["-y"@, pkg])
            &&& q.configuration->0.env is Some && readme_environment(q.configuration->0.env->0, env_vars)
            &&& q.distribution is Some && q.distribution->0.dist_type@ == "npm"@ && q.distribution->0.package@ == pkg
        }),
    }
}

/// Builds the registration request for a Node.js project from its
/// `package.json`.
pub fn node_project_request(package_json: &Json, owner: &str, repo: &str, env_vars: &Vec<String>)
    -> (r: Result<ServerRegistrationRequest, String>)
    ensures
        node_request(r, package_json.view(), owner@, repo@, env_vars@),
{
    proof {
        reveal_strlit("Missing 'name' field in package.json");
        reveal_strlit("name");
        reveal_strlit("description");
        reveal_strlit("MCP Server imported from GitHub");
        reveal_strlit("/");
        reveal_strlit(" MCP Server");
        reveal_strlit("node");
        reveal_strlit("npx");
        reveal_strlit("-y");
        reveal_strlit("npm");
    }
    let pkg = match package_json.str_field("name") {
        Some(n) => n.clone(),
        None => return Err(owned("Missing 'name' field in package.json")),
    };
    let description = match package_json.str_field("description") {
        Some(d) => d.clone(),
        None => owned("MCP Server imported from GitHub"),
    };
    let mut args: Vec<String> = Vec::new();
    args.push(owned("-y"));
    args.push(pkg.clone());
    assert(texts(args@) =~= seq!["-y"@, pkg@]);
    let env = readme_env(env_vars);
    Ok(ServerRegistrationRequest {
        server_id: join3(owner, "/", repo),
        server_name: join2(pkg.as_str(), " MCP Server"),
        description,
        tools_type: owned("node"),
        configuration: Some(ServerConfiguration { command: Some(owned("npx")), args: Some(args), env: Some(env) }),
        distribution: Some(Distribution { dist_type: owned("npm"), package: pkg }),
    })
}

/// The first member of an object, if any.
pub open spec fn first_key(v: JsonV) -> Option<Seq<char>> {
    match v {
        JsonV::Object(m) => if m.len() > 0 { Some(m[0].0) } else { None },
        _ => None,
    }
}

/// The script that starts a Python project: the first of its
/// `project.scripts`, when that is a table.
pub open spec fn python_entry_point(project: JsonV) -> Option<Seq<char>> {
    match project.field("scripts"@) {
        Some(s) => first_key(s),
        None => None,
    }
}

/// Why a `pyproject.toml` cannot be imported, if it cannot.
pub open spec fn pyproject_problem(doc: JsonV) -> Option<Seq<char>> {
    match doc.field("project"@) {
        None => Some("Missing 'project' section in pyproject.toml"@),
        Some(p) => if !(p is Object) {
            Some("Invalid 'project' section in pyproject.toml"@)
        } else {
            match p.field("name"@) {
                None => Some("Missing 'name' field in pyproject.toml"@),
                Some(n) => if n.str_of() is None { Some("Invalid 'name' field in pyproject.toml"@) } else { None },
            }
        },
    }
}

/// The registration request for a Python project whose `pyproject.toml`
/// (as a JSON value) is `doc`: `uvx run <script>` when the project declares
/// scripts, else `python -m <package>` with dashes made underscores; named
/// after the package, with the README's variables.
pub open spec fn python_request(r: Result<ServerRegistrationRequest, String>, doc: JsonV,
    owner: Seq<char>, repo: Seq<char>, env_vars: Seq<String>) -> bool {
    match pyproject_problem(doc) {
        Some(p) => r is Err && r->Err_0@ == p,
        None => r is Ok && ({
            let q = r->Ok_0;
            let project = doc.field("project"@)->0;
            let pkg = project.str_field("name"@)->0;
            &&& q.server_id@ == owner + "/"@ + repo
            &&& q.server_name@ == pkg + " MCP Server"@
            &&& q.description@ == match project.str_field("description"@) {
                    Some(d) => d,
                    None => "MCP Server imported from GitHub"@,
                }
            &&& q.tools_type@ == "python"@
            &&& q.configuration is Some
            &&& q.configuration->0.env is Some && readme_environment(q.configuration->0.env->0, env_vars)
            &&& match python_entry_point(project) {
                Some(script) => q.configuration->0.command is Some && q.configuration->0.command->0@ == "uvx"@
                    && opt_texts(q.configuration->0.args) == Some(seq!["run"@, script]),
                None => q.configuration->0.command is Some && q.configuration->0.command->0@ == "python"@
                    && opt_texts(q.configuration->0.args) == Some(seq!["-m"@, replace_char(pkg, '-', '_')]),
            }
            &&& q.distribution is Some && q.distribution->0.dist_type@ == "python"@ && q.distribution->0.package@ == pkg
        }),
    }
}

/// Builds the registration request for a Python project from its
/// `pyproject.toml` (as a JSON value).
pub fn python_project_request(doc: &Json, owner: &str, repo: &str, env_vars: &Vec<String>)
    -> (r: Result<ServerRegistrationRequest, String>)
    ensures
        python_request(r, doc.view(), owner@, repo@, env_vars@),
{
    proof {
        reveal_strlit("Missing 'project' section in pyproject.toml");
        reveal_strlit("Invalid 'project' section in pyproject.toml");
        reveal_strlit("Missing 'name' field in pyproject.toml");
        reveal_strlit("Invalid 'name' field in pyproject.toml");
        reveal_strlit("project");
        reveal_strlit("name");
        reveal_strlit("description");
        reveal_strlit("scripts");
        reveal_strlit("MCP Server imported from GitHub");
        reveal_strlit("/");
        reveal_strlit(" MCP Server");
        reveal_strlit("python");
        reveal_strlit("uvx");
        reveal_strlit("run");
        reveal_strlit("-m");
    }
    let project = match doc.get("project") {
        Some(p) => p,
        None => return Err(owned("Missing 'project' section in pyproject.toml")),
    };
    if project.as_object().is_none() {
        return Err(owned("Invalid 'project' section in pyproject.toml"));
    }
    let pkg = match project.get("name") {
        None => return Err(owned("Missing 'name' field in pyproject.toml")),
        Some(n) => match n.as_str() {
            Some(s) => s.clone(),
            None => return Err(owned("Invalid 'name' field in pyproject.toml")),
        },
    };
    let description = match project.str_field("description") {
        Some(d) => d.clone(),
        None => owned("MCP Server imported from GitHub"),
    };
    let entry_point: Option<String> = match project.get("scripts") {
        Some(s) => match s.as_object() {
            Some(m) => if m.len() > 0 { Some(m[0].0.clone()) } else { None },
            None => None,
        },
        None => None,
    };
    let env = readme_env(env_vars);
    let configuration = match entry_point {
        Some(script) => {
            let mut args: Vec<String> = Vec::new();
            args.push(owned("run"));
            args.push(script);
            assert(texts(args@) =~= seq!["run"@, args@[1]@]);
            ServerConfiguration { command: Some(owned("uvx")), args: Some(args), env: Some(env) }
        }
        None => {
            let module = replace_all_char(pkg.as_str(), '-', '_');
            let mut args: Vec<String> = Vec::new();
            args.push(owned("-m"));
            args.push(module);
            assert(texts(args@) =~= seq!["-m"@, args@[1]@]);
            ServerConfiguration { command: Some(owned("python")), args: Some(args), env: Some(env) }
        }
    };
    Ok(ServerRegistrationRequest {
        server_id: join3(owner, "/", repo),
        server_name: join2(pkg.as_str(), " MCP Server"),
        description,
        tools_type: owned("python"),
        configuration: Some(configuration),
        distribution: Some(Distribution { dist_type: owned("python"), package: pkg }),
    })
}


/// What importing a project from its `package.json` text builds: a text
/// that is no JSON is refused with the parse error.
pub open spec fn nodejs_import(r: Result<ServerRegistrationRequest, String>, content: Seq<char>,
    owner: Seq<char>, repo: Seq<char>, env_vars: Seq<String>) -> bool {
    match json_parse(content) {
        Err(e) => r is Err && r->Err_0@ == "Failed to parse package.json: "@ + e,
        Ok(v) => node_request(r, v, owner, repo, env_vars),
    }
}

/// What importing a project from its `pyproject.toml` text builds: a text
/// that is no TOML table is refused with the parse error.
pub open spec fn python_import(r: Result<ServerRegistrationRequest, String>, content: Seq<char>,
    owner: Seq<char>, repo: Seq<char>, env_vars: Seq<String>) -> bool {
    match toml_parse(content) {
        Err(e) => r is Err && r->Err_0@ == "Failed to parse pyproject.toml: "@ + e,
        Ok(v) => python_request(r, v, owner, repo, env_vars),
    }
}

/// Builds the registration request of a Node.js project from the text of
/// its `package.json`.
pub fn process_nodejs_project(content: &str, owner: &str, repo: &str, env_vars: &Vec<String>)
    -> (r: Result<ServerRegistrationRequest, String>)
    ensures
        nodejs_import(r, content@, owner@, repo@, env_vars@),
{
    proof { reveal_strlit("Failed to parse package.json: "); }
    match parse_json_text(content) {
        Ok(v) => node_project_request(&v, owner, repo, env_vars),
        Err(e) => Err(join2("Failed to parse package.json: ", e.as_str())),
    }
}

/// Builds the registration request of a Python project from the text of
/// its `pyproject.toml`.
pub fn process_python_project(content: &str, owner: &str, repo: &str, env_vars: &Vec<String>)
    -> (r: Result<ServerRegistrationRequest, String>)
    ensures
        python_import(r, content@, owner@, repo@, env_vars@),
{
    proof { reveal_strlit("Failed to parse pyproject.toml: "); }
    match parse_toml_text(content) {
        Ok(v) => python_project_request(&v, owner, repo, env_vars),
        Err(e) => Err(join2("Failed to parse pyproject.toml: ", e.as_str())),
    }
}

/// Builds the registration request of a project imported from repository
/// `owner/repo`, given the texts of its `package.json` and `pyproject.toml`
/// where found: a Node.js project comes first; with neither file there is
/// nothing to import.
pub fn import_request(package_json: Option<&str>, pyproject: Option<&str>, owner: &str, repo: &str,
    env_vars: &Vec<String>) -> (r: Result<ServerRegistrationRequest, String>)
    ensures
        match package_json {
            Some(c) => nodejs_import(r, c@, owner@, repo@, env_vars@),
            None => match pyproject {
                Some(c) => python_import(r, c@, owner@, repo@, env_vars@),
                None => r is Err && r->Err_0@ == "Could not find package.json or pyproject.toml in repository "@
                    + owner@ + "/"@ + repo@,
            },
        },
{
    proof {
        reveal_strlit("Could not find package.json or pyproject.toml in repository ");
        reveal_strlit("/");
    }
    match package_json {
        Some(c) => process_nodejs_project(c, owner, repo, env_vars),
        None => match pyproject {
            Some(c) => process_python_project(c, owner, repo, env_vars),
            None => Err(join4("Could not find package.json or pyproject.toml in repository ", owner, "/", repo)),
        },
    }
}

} // verus!
