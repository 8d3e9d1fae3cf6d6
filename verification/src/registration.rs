//! Registering a tool: the tool record built from a registration request,
//! the launch settings of its process and the answer given to the caller.
use vstd::prelude::*;
use crate::entities::{DomainError, Tool, ToolConfig, ToolConfiguration, ToolRegistrationRequest,
    ToolRegistrationResponse, error_text};
use crate::json::{Json, JsonV, json_text, lookup, member_views, str_views, to_json_text, views};
use crate::strmap::StrMap;
use crate::text::{decimal, join2, join3, owned, usize_to_string};

verus! {

/// The texts of a sequence of strings.
pub open spec fn texts(v: Seq<String>) -> Seq<Seq<char>> {
    Seq::new(v.len(), |i: int| v[i]@)
}

/// The string elements of a JSON array, in order; other elements are skipped.
pub open spec fn string_elements(a: Seq<JsonV>) -> Seq<Seq<char>>
    decreases a.len(),
{
    if a.len() == 0 {
        Seq::empty()
    } else {
        let rest = string_elements(a.drop_last());
        match a.last() {
            JsonV::Str(s) => rest.push(s),
            _ => rest,
        }
    }
}

/// The command of a configuration object: its `command` string, or empty.
pub open spec fn config_command(config: JsonV) -> Seq<char> {
    match config.str_field("command"@) {
        Some(c) => c,
        None => Seq::empty(),
    }
}

/// The arguments of a configuration object: the strings of its `args` array,
/// if it has one.
pub open spec fn config_args(config: JsonV) -> Option<Seq<Seq<char>>> {
    match config.field("args"@) {
        Some(JsonV::Array(a)) => Some(string_elements(a)),
        _ => None,
    }
}

/// The text of optional arguments.
pub open spec fn opt_texts(a: Option<Vec<String>>) -> Option<Seq<Seq<char>>> {
    match a {
        Some(v) => Some(texts(v@)),
        None => None,
    }
}

/// The strings among the elements of `a`, in order.
pub fn collect_strings(a: &Vec<Json>) -> (r: Vec<String>)
    ensures
        texts(r@) == string_elements(views(a@)),
{
    let mut out: Vec<String> = Vec::new();
    let mut i: usize = 0;
    while i < a.len()
        invariant
            i <= a@.len(),
            texts(out@) == string_elements(views(a@).take(i as int)),
        decreases a@.len() - i,
    {
        assert(views(a@).take(i + 1).drop_last() =~= views(a@).take(i as int));
        match &a[i] {
            Json::Str(s) => {
                out.push(s.clone());
                assert(texts(out@) =~= string_elements(views(a@).take(i + 1)));
            }
            _ => {
                assert(texts(out@) =~= string_elements(views(a@).take(i + 1)));
            }
        }
        i = i + 1;
    }
    assert(views(a@).take(a@.len() as int) =~= views(a@));
    out
}

/// The launch configuration described by a registration's `configuration`
/// object: its `command` string (empty when absent) and the strings of its
/// `args` array (none when there is no array).
pub fn configuration_from_json(config: &Json) -> (r: ToolConfiguration)
    ensures
        r.command@ == config_command(config.view()),
        opt_texts(r.args) == config_args(config.view()),
{
    let command = match config.str_field("command") {
        Some(c) => c.clone(),
        None => String::new(),
    };
    let args = match config.get("args") {
        Some(v) => match v.as_array() {
            Some(a) => Some(collect_strings(a)),
            None => None,
        },
        None => None,
    };
    ToolConfiguration { command, args }
}

/// The text an environment value stands for: strings as they are, numbers
/// and booleans as written, an object with a `description` is a template
/// with no value yet, anything else is its JSON text.
pub open spec fn env_value(v: JsonV) -> Option<Seq<char>> {
    match v {
        JsonV::Str(s) => Some(s),
        JsonV::Number(n) => Some(n),
        JsonV::Bool(b) => Some(if b { "true"@ } else { "false"@ }),
        JsonV::Object(m) => if lookup(m, "description"@) is Some { None } else { Some(json_text(v)) },
        _ => Some(json_text(v)),
    }
}

/// The environment that the members of an `env` object describe.
pub open spec fn env_map(m: Seq<(Seq<char>, JsonV)>) -> Map<Seq<char>, Seq<char>>
    decreases m.len(),
{
    if m.len() == 0 {
        Map::empty()
    } else {
        let prev = env_map(m.drop_last());
        match env_value(m.last().1) {
            Some(t) => prev.insert(m.last().0, t),
            None => prev,
        }
    }
}

/// The texts held by a string-valued map.
pub open spec fn text_map(m: Map<Seq<char>, String>) -> Map<Seq<char>, Seq<char>> {
    Map::new(|k: Seq<char>| m.contains_key(k), |k: Seq<char>| m[k]@)
}

/// The environment that an `authentication` object's `env` member gives,
/// when that member is an object.
pub open spec fn auth_env(auth: JsonV) -> Option<Map<Seq<char>, Seq<char>>> {
    match auth.field("env"@) {
        Some(JsonV::Object(m)) => Some(env_map(m)),
        _ => None,
    }
}

/// The text of one environment value, `None` for a template.
pub fn env_value_text(v: &Json) -> (r: Option<String>)
    ensures
        match r {
            Some(t) => env_value(v.view()) == Some(t@),
            None => env_value(v.view()) is None,
        },
{
    proof {
        reveal_strlit("true");
        reveal_strlit("false");
    }
    match v {
        Json::Str(s) => Some(s.clone()),
        Json::Number(n) => Some(n.clone()),
        Json::Bool(b) => Some(if *b { owned("true") } else { owned("false") }),
        Json::Object(_) => {
            if v.contains_key("description") {
                None
            } else {
                Some(to_json_text(v))
            }
        }
        _ => Some(to_json_text(v)),
    }
}

/// The environment variables that an `authentication` object carries in its
/// `env` member, when that member is an object.
pub fn env_from_authentication(auth: &Json) -> (r: Option<StrMap<String>>)
    ensures
        match r {
            Some(m) => m.wf() && auth_env(auth.view()) == Some(text_map(m@)),
            None => auth_env(auth.view()) is None,
        },
{
    let env = match auth.get("env") {
        Some(e) => e,
        None => return None,
    };
    let members = match env.as_object() {
        Some(m) => m,
        None => return None,
    };
    let ghost s = member_views(members@);
    let mut out: StrMap<String> = StrMap::new();
    let mut i: usize = 0;
    while i < members.len()
        invariant
            i <= members@.len(),
            s == member_views(members@),
            out.wf(),
            text_map(out@) == env_map(s.take(i as int)),
        decreases members@.len() - i,
    {
        assert(s.take(i + 1).drop_last() =~= s.take(i as int));
        assert(s.take(i + 1).last() == s[i as int]);
        match env_value_text(&members[i].1) {
            Some(t) => {
                let ghost before = out@;
                out.insert(members[i].0.clone(), t);
                assert(text_map(out@) =~= text_map(before).insert(s[i as int].0, t@));
            }
            None => {}
        }
        i = i + 1;
    }
    assert(s.take(members@.len() as int) =~= s);
    Some(out)
}

/// The number that the next registered tool gets: one more than the tools
/// already registered.
pub open spec fn tool_id_text(count: nat) -> Seq<char> {
    "tool_"@ + decimal(count + 1)
}

/// The identifier given to a new tool when `count` tools are registered.
pub fn tool_id_for(count: usize) -> (r: String)
    requires
        count < usize::MAX,
    ensures
        r@ == tool_id_text(count as nat),
{
    proof { reveal_strlit("tool_"); }
    let n = usize_to_string(count + 1);
    join2("tool_", n.as_str())
}

/// A copy of optional JSON.
pub fn clone_opt_json(j: &Option<Json>) -> (r: Option<Json>)
    ensures
        r is Some == j is Some,
        r is Some ==> r->0.view() == j->0.view(),
{
    match j {
        Some(v) => Some(crate::json::clone_json(v)),
        None => None,
    }
}

/// The JSON value of optional JSON.
pub open spec fn opt_json(j: Option<Json>) -> Option<JsonV> {
    match j {
        Some(v) => Some(v.view()),
        None => None,
    }
}

/// The tool that a registration request describes: enabled, with no entry
/// point, the launch configuration read from the request's `configuration`,
/// the request's distribution and authentication, and a `config` carrying
/// the environment variables of the authentication's `env` object, if any.
pub open spec fn registered_tool(t: Tool, req: ToolRegistrationRequest) -> bool {
    &&& t.name@ == req.tool_name@
    &&& t.description@ == req.description@
    &&& t.enabled
    &&& t.tool_type@ == req.tool_type@
    &&& t.entry_point is None
    &&& (match req.configuration {
            Some(c) => t.configuration is Some
                && t.configuration->0.command@ == config_command(c.view())
                && opt_texts(t.configuration->0.args) == config_args(c.view()),
            None => t.configuration is None,
        })
    &&& opt_json(t.distribution) == opt_json(req.distribution)
    &&& opt_json(t.authentication) == opt_json(req.authentication)
    &&& (match req.authentication {
            Some(a) => match auth_env(a.view()) {
                Some(e) => t.config is Some && t.config->0.command is None && t.config->0.args is None
                    && t.config->0.env is Some && t.config->0.env->0.wf()
                    && text_map(t.config->0.env->0@) == e,
                None => t.config is None,
            },
            None => t.config is None,
        })
}

/// Builds the tool record for a registration request.
pub fn build_tool(req: &ToolRegistrationRequest) -> (t: Tool)
    ensures
        registered_tool(t, *req),
{
    let configuration = match &req.configuration {
        Some(c) => Some(configuration_from_json(c)),
        None => None,
    };
    let config = match &req.authentication {
        Some(a) => match env_from_authentication(a) {
            Some(env) => Some(ToolConfig { env: Some(env), command: None, args: None }),
            None => None,
        },
        None => None,
    };
    Tool {
        name: req.tool_name.clone(),
        description: req.description.clone(),
        enabled: true,
        tool_type: req.tool_type.clone(),
        entry_point: None,
        configuration,
        distribution: clone_opt_json(&req.distribution),
        config,
        authentication: clone_opt_json(&req.authentication),
    }
}

/// JSON for optional arguments: `null` when there are none.
pub open spec fn args_json(a: Option<Vec<String>>) -> JsonV {
    match a {
        Some(v) => JsonV::Array(str_views(v@)),
        None => JsonV::Null,
    }
}

/// The object `{"command": command, "args": args}`.
pub open spec fn command_object(command: Seq<char>, args: JsonV) -> JsonV {
    JsonV::Object(seq![("command"@, JsonV::Str(command)), ("args"@, args)])
}

/// The object `{"command": command, "args": args}` for any command value.
pub open spec fn command_object_any(command: JsonV, args: JsonV) -> JsonV {
    JsonV::Object(seq![("command"@, command), ("args"@, args)])
}

/// The message given when a tool has nothing to launch.
pub open spec fn missing_configuration_text() -> Seq<char> {
    "Configuration is required for tools"@
}

/// The launch settings handed to the process manager: the tool's launch
/// configuration if it has one, else the command of its `config` (with its
/// arguments, none meaning an empty list); without either there is nothing
/// to launch.
pub open spec fn launch_settings(t: Tool) -> Option<JsonV> {
    match t.configuration {
        Some(c) => Some(command_object(c.command@, args_json(c.args))),
        None => match t.config {
            Some(cf) => match cf.command {
                Some(cmd) => Some(command_object(cmd@, JsonV::Array(match cf.args {
                    Some(v) => str_views(v@),
                    None => Seq::empty(),
                }))),
                None => None,
            },
            None => None,
        },
    }
}

fn command_json(command: &String, args: Json) -> (r: Json)
    ensures
        r.view() == command_object(command@, args.view()),
{
    proof {
        reveal_strlit("command");
        reveal_strlit("args");
    }
    let ghost av = args.view();
    let mut m: Vec<(String, Json)> = Vec::new();
    m.push((owned("command"), Json::Str(command.clone())));
    m.push((owned("args"), args));
    proof {
        crate::json::lemma_object_view(m);
        assert(member_views(m@) =~= seq![("command"@, JsonV::Str(command@)), ("args"@, av)]);
    }
    Json::Object(m)
}

/// The launch settings of a tool, or the error that it has none.
pub fn launch_config(t: &Tool) -> (r: Result<Json, String>)
    ensures
        match r {
            Ok(j) => launch_settings(*t) == Some(j.view()),
            Err(e) => launch_settings(*t) is None && e@ == missing_configuration_text(),
        },
{
    proof { reveal_strlit("Configuration is required for tools"); }
    match &t.configuration {
        Some(c) => {
            let args = match &c.args {
                Some(v) => Json::string_array(v),
                None => Json::Null,
            };
            Ok(command_json(&c.command, args))
        }
        None => match &t.config {
            Some(cf) => match &cf.command {
                Some(cmd) => {
                    let args = match &cf.args {
                        Some(v) => Json::string_array(v),
                        None => {
                            let empty: Vec<Json> = Vec::new();
                            proof {
                                crate::json::lemma_array_view(empty);
                                assert(views(empty@) =~= Seq::<JsonV>::empty());
                            }
                            Json::Array(empty)
                        }
                    };
                    Ok(command_json(cmd, args))
                }
                None => Err(owned("Configuration is required for tools")),
            },
            None => Err(owned("Configuration is required for tools")),
        },
    }
}

/// The answer to a registration: when the process could not be started the
/// tool stays registered and the answer says so with the error; otherwise
/// registration succeeded. Either way it names the new tool's identifier.
pub open spec fn registration_answer(r: ToolRegistrationResponse, name: Seq<char>, tool_id: Seq<char>, spawn_error: Option<DomainError>) -> bool {
    &&& r.tool_id is Some && r.tool_id->0@ == tool_id
    &&& match spawn_error {
        Some(e) => !r.success && r.message@ == "Tool registered but failed to start process: "@ + error_text(e),
        None => r.success && r.message@ == "Tool '"@ + name + "' registered successfully"@,
    }
}

/// The answer to a registration, given how starting the process went.
pub fn registration_response(name: &str, tool_id: String, spawn_error: Option<&DomainError>) -> (r: ToolRegistrationResponse)
    ensures
        registration_answer(r, name@, tool_id@, match spawn_error { Some(e) => Some(*e), None => None }),
{
    proof {
        reveal_strlit("Tool registered but failed to start process: ");
        reveal_strlit("Tool '");
        reveal_strlit("' registered successfully");
    }
    match spawn_error {
        Some(e) => {
            let text = e.message();
            ToolRegistrationResponse {
                success: false,
                message: join2("Tool registered but failed to start process: ", text.as_str()),
                tool_id: Some(tool_id),
            }
        }
        None => ToolRegistrationResponse {
            success: true,
            message: join3("Tool '", name, "' registered successfully"),
            tool_id: Some(tool_id),
        },
    }
}

/// What came of the last action of a tool registration.
pub enum ToolRegistrationEvent {
    /// The registration begins.
    Begin,
    /// Listing the registered tools gave their number, or an error.
    Listed(Result<usize, DomainError>),
    /// Saving the tool under the identifier went so; both are handed back.
    Saved(Result<(), DomainError>, String, Tool),
    /// Starting the tool's process went so.
    Spawned(Result<(), DomainError>, String),
    /// The started tool was asked for its tools (whatever it answered).
    Discovered(String),
}

/// What a tool registration does next.
pub enum ToolRegistrationAction {
    /// List the registered tools.
    ListTools,
    /// Save this tool under this identifier.
    Save { tool_id: String, tool: Tool },
    /// Start the tool's process with these launch settings and the
    /// environment of the tool's `config`.
    Spawn { tool_id: String, launch: Json, tool: Tool },
    /// Wait for the tool, then ask it for its tools.
    Discover(String),
    /// The registration fails with this error.
    Fail(DomainError),
    /// The registration is answered so.
    Answer(ToolRegistrationResponse),
}

/// One step of registering a tool: the registered tools are listed (an
/// error stops the registration before anything is saved); the new tool is
/// saved under the next identifier; a tool without launch settings then
/// fails with a configuration error, and stays saved; otherwise its process
/// is started, and a failure to start it is answered with the error; a
/// started tool is asked for its tools and the registration succeeds.
pub fn register_tool_step(request: &ToolRegistrationRequest, event: ToolRegistrationEvent) -> (r: ToolRegistrationAction)
    requires
        event matches ToolRegistrationEvent::Listed(Ok(n)) ==> n < usize::MAX,
    ensures
        match event {
            ToolRegistrationEvent::Begin => r is ListTools,
            ToolRegistrationEvent::Listed(Err(e)) => r == ToolRegistrationAction::Fail(e),
            ToolRegistrationEvent::Listed(Ok(n)) => r matches ToolRegistrationAction::Save { tool_id, tool }
                && tool_id@ == tool_id_text(n as nat) && registered_tool(tool, *request),
            ToolRegistrationEvent::Saved(Err(e), _, _) => r == ToolRegistrationAction::Fail(e),
            ToolRegistrationEvent::Saved(Ok(()), id, t) => match launch_settings(t) {
                None => r matches ToolRegistrationAction::Fail(DomainError::ConfigurationError(m))
                    && m@ == missing_configuration_text(),
                Some(s) => r matches ToolRegistrationAction::Spawn { tool_id, launch, tool }
                    && tool_id == id && launch.view() == s && tool == t,
            },
            ToolRegistrationEvent::Spawned(Err(e), id) => r matches ToolRegistrationAction::Answer(a)
                && registration_answer(a, request.tool_name@, id@, Some(e)),
            ToolRegistrationEvent::Spawned(Ok(()), id) => r == ToolRegistrationAction::Discover(id),
            ToolRegistrationEvent::Discovered(id) => r matches ToolRegistrationAction::Answer(a)
                && registration_answer(a, request.tool_name@, id@, None),
        },
{
    match event {
        ToolRegistrationEvent::Begin => ToolRegistrationAction::ListTools,
        ToolRegistrationEvent::Listed(Err(e)) => ToolRegistrationAction::Fail(e),
        ToolRegistrationEvent::Listed(Ok(n)) => ToolRegistrationAction::Save { tool_id: tool_id_for(n), tool: build_tool(request) },
        ToolRegistrationEvent::Saved(Err(e), _, _) => ToolRegistrationAction::Fail(e),
        ToolRegistrationEvent::Saved(Ok(()), id, t) => match launch_config(&t) {
            Err(m) => ToolRegistrationAction::Fail(DomainError::ConfigurationError(m)),
            Ok(launch) => ToolRegistrationAction::Spawn { tool_id: id, launch, tool: t },
        },
        ToolRegistrationEvent::Spawned(Err(e), id) => {
            ToolRegistrationAction::Answer(registration_response(request.tool_name.as_str(), id, Some(&e)))
        }
        ToolRegistrationEvent::Spawned(Ok(()), id) => ToolRegistrationAction::Discover(id),
        ToolRegistrationEvent::Discovered(id) => {
            ToolRegistrationAction::Answer(registration_response(request.tool_name.as_str(), id, None))
        }
    }
}

} // verus!
