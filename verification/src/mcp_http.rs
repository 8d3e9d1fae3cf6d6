//! The tool calls, installs and registry listings that the core's HTTP
//! endpoint serves.
use vstd::prelude::*;
use crate::entities::{ToolExecutionRequest, ToolExecutionResponse};
use crate::json::{Json, JsonV, lemma_object_view, lookup, member_views, set_member, upsert, views};
use crate::listing::{copied_members, empty_object_schema, empty_object_schema_json, members_of, with_default};
use crate::registration::{collect_strings, string_elements, texts};
use crate::rpc::{error_json, error_object};
use crate::server_model::{Distribution, ServerConfiguration, ServerEnvironment};
use crate::strmap::StrMap;
use crate::text::{join2, join3, opt_text, owned};

verus! {

/// Whether a server's tool is the one called `name`, by `id` or by `name`.
pub open spec fn tool_matches(tool: JsonV, name: Seq<char>) -> bool {
    tool.str_field("id"@) == Some(name) || tool.str_field("name"@) == Some(name)
}

/// Whether one of `tools` is called `name`.
pub open spec fn offers(tools: Seq<Json>, name: Seq<char>) -> bool {
    exists|j: int| 0 <= j < tools.len() && tool_matches(#[trigger] tools[j].view(), name)
}

fn tool_is_named(tool: &Json, name: &str) -> (r: bool)
    ensures
        r == tool_matches(tool.view(), name@),
{
    proof {
        reveal_strlit("id");
        reveal_strlit("name");
    }
    let by_id = match tool.str_field("id") {
        Some(i) => crate::text::str_eq(i.as_str(), name),
        None => false,
    };
    if by_id {
        return true;
    }
    match tool.str_field("name") {
        Some(n) => crate::text::str_eq(n.as_str(), name),
        None => false,
    }
}

/// The first server, in order, that offers a tool called `name`.
pub fn find_tool_server(st: &StrMap<Vec<Json>>, name: &str) -> (r: Option<String>)
    ensures
        match r {
            Some(sid) => exists|i: int| 0 <= i < st.entries().len() && st.entries()[i].0 == sid
                && offers(st.entries()[i].1@, name@)
                && forall|k: int| 0 <= k < i ==> !offers(#[trigger] st.entries()[k].1@, name@),
            None => forall|k: int| 0 <= k < st.entries().len() ==> !offers(#[trigger] st.entries()[k].1@, name@),
        },
{
    let mut i: usize = 0;
    while i < st.len()
        invariant
            i <= st.entries().len(),
            forall|k: int| 0 <= k < i ==> !offers(#[trigger] st.entries()[k].1@, name@),
        decreases st.entries().len() - i,
    {
        let (sid, tools) = st.entry(i);
        let mut j: usize = 0;
        while j < tools.len()
            invariant
                i < st.entries().len(),
                *tools == st.entries()[i as int].1,
                *sid == st.entries()[i as int].0,
                forall|k: int| 0 <= k < i ==> !offers(#[trigger] st.entries()[k].1@, name@),
                j <= tools@.len(),
                forall|q: int| 0 <= q < j ==> !tool_matches(#[trigger] tools@[q].view(), name@),
            decreases tools@.len() - j,
        {
            if tool_is_named(&tools[j], name) {
                assert(tool_matches(tools@[j as int].view(), name@));
                assert(offers(st.entries()[i as int].1@, name@));
                return Some(sid.clone());
            }
            j = j + 1;
        }
        i = i + 1;
    }
    None
}

/// The request that calls tool `name` of server `server_id`.
pub fn proxy_call(server_id: &str, name: &str, arguments: Json) -> (r: ToolExecutionRequest)
    ensures
        r.tool_id@ == server_id@ + ":"@ + name@,
        r.parameters == arguments,
{
    proof { reveal_strlit(":"); }
    ToolExecutionRequest { tool_id: join3(server_id, ":", name), parameters: arguments }
}

/// The outcome of a proxied call: a successful execution gives its result
/// (`null` when it has none); a failed one is an error with code -32000 and
/// its error (or `Unknown error`); a failure to run it at all is reported
/// with its reason.
pub open spec fn core_call_outcome(resp: Result<ToolExecutionResponse, Seq<char>>) -> Result<JsonV, JsonV> {
    match resp {
        Ok(r) => if r.success {
            Ok(match r.result { Some(v) => v.view(), None => JsonV::Null })
        } else {
            Err(error_object("-32000"@, match r.error { Some(e) => e@, None => "Unknown error"@ }))
        },
        Err(e) => Err(error_object("-32000"@, "Failed to execute tool: "@ + e)),
    }
}

/// Turns the answer to a proxied call into the endpoint's outcome.
pub fn core_call_result(resp: Result<ToolExecutionResponse, String>) -> (r: Result<Json, Json>)
    ensures
        match core_call_outcome(match resp { Ok(x) => Ok(x), Err(e) => Err(e@) }) {
            Ok(v) => r is Ok && r->Ok_0.view() == v,
            Err(v) => r is Err && r->Err_0.view() == v,
        },
{
    proof {
        reveal_strlit("-32000");
        reveal_strlit("Unknown error");
        reveal_strlit("Failed to execute tool: ");
    }
    match resp {
        Ok(r) => {
            if r.success {
                Ok(match r.result {
                    Some(v) => v,
                    None => Json::Null,
                })
            } else {
                Err(error_json("-32000", match r.error {
                    Some(e) => e,
                    None => owned("Unknown error"),
                }))
            }
        }
        Err(e) => Err(error_json("-32000", join2("Failed to execute tool: ", e.as_str()))),
    }
}

/// The error for a call of a tool that no server offers.
pub fn unknown_tool_error(name: &str) -> (r: Json)
    ensures
        r.view() == error_object("-32601"@, "Tool '"@ + name@ + "' not found"@),
{
    proof {
        reveal_strlit("Tool '");
        reveal_strlit("' not found");
    }
    error_json("-32601", join3("Tool '", name, "' not found"))
}

/// A registry install request, as the endpoint reads it from its parameters.
pub struct InstallRequest {
    pub tool_name: String,
    pub description: String,
    pub tool_type: String,
    pub configuration: Option<ServerConfiguration>,
    pub distribution: Option<Distribution>,
}

/// The defaults that an install's `env` object gives, member by member (a
/// later member replaces an earlier one of the same name).
pub open spec fn install_env(m: Seq<(Seq<char>, JsonV)>) -> Map<Seq<char>, Option<Seq<char>>>
    decreases m.len(),
{
    if m.len() == 0 {
        Map::empty()
    } else {
        install_env(m.drop_last()).insert(m.last().0, m.last().1.str_of())
    }
}

/// A string member, with a fallback.
pub open spec fn str_or(v: JsonV, key: Seq<char>, fallback: Seq<char>) -> Seq<char> {
    match v.str_field(key) {
        Some(s) => s,
        None => fallback,
    }
}

fn str_member_or(v: &Json, key: &str, fallback: &str) -> (r: String)
    ensures
        r@ == str_or(v.view(), key@, fallback@),
{
    match v.str_field(key) {
        Some(s) => s.clone(),
        None => owned(fallback),
    }
}

/// The environment of an install's configuration.
fn install_env_map(env: &Json) -> (r: StrMap<ServerEnvironment>)
    ensures
        r.wf(),
        forall|k: Seq<char>| #[trigger] r@.contains_key(k) == install_env(members_of(env.view())).contains_key(k),
        forall|k: Seq<char>| r@.contains_key(k) ==> r@[k].description@ == Seq::<char>::empty()
            && !r@[k].required && #[trigger] opt_text(r@[k].default) == install_env(members_of(env.view()))[k],
{
    let mut out: StrMap<ServerEnvironment> = StrMap::new();
    let members = match env.as_object() {
        Some(m) => m,
        None => {
            assert(install_env(members_of(env.view())) =~= Map::empty());
            return out;
        }
    };
    let ghost s = member_views(members@);
    let mut i: usize = 0;
    while i < members.len()
        invariant
            out.wf(),
            i <= members@.len(),
            s == member_views(members@),
            s == members_of(env.view()),
            forall|k: Seq<char>| #[trigger] out@.contains_key(k) == install_env(s.take(i as int)).contains_key(k),
            forall|k: Seq<char>| out@.contains_key(k) ==> out@[k].description@ == Seq::<char>::empty()
                && !out@[k].required && #[trigger] opt_text(out@[k].default) == install_env(s.take(i as int))[k],
        decreases members@.len() - i,
    {
        assert(s.take(i + 1).drop_last() =~= s.take(i as int));
        let default = match members[i].1.as_str() {
            Some(x) => Some(x.clone()),
            None => None,
        };
        out.insert(members[i].0.clone(), ServerEnvironment { description: String::new(), default, required: false });
        i = i + 1;
    }
    assert(s.take(members@.len() as int) =~= s);
    out
}

/// What an install's `configuration` object gives: the `command` string,
/// the strings of `args` (none when absent, empty when not an array) and the
/// environment of `env` (none when absent).
pub open spec fn install_configuration(c: ServerConfiguration, config: JsonV) -> bool {
    &&& opt_text(c.command) == config.str_field("command"@)
    &&& match config.field("args"@) {
        Some(a) => c.args is Some && texts(c.args->0@) == match a {
            JsonV::Array(x) => string_elements(x),
            _ => Seq::empty(),
        },
        None => c.args is None,
    }
    &&& match config.field("env"@) {
        Some(e) => c.env is Some && c.env->0.wf()
            && (forall|k: Seq<char>| #[trigger] c.env->0@.contains_key(k) == install_env(members_of(e)).contains_key(k))
            && (forall|k: Seq<char>| c.env->0@.contains_key(k) ==> c.env->0@[k].description@ == Seq::<char>::empty()
                && !c.env->0@[k].required && #[trigger] opt_text(c.env->0@[k].default) == install_env(members_of(e))[k]),
        None => c.env is None,
    }
}

/// Reads an install request from its parameters; without a `name` member
/// there is nothing to install.
pub fn install_request(params: &Json) -> (r: Option<InstallRequest>)
    ensures
        match params.view().field("name"@) {
            None => r is None,
            Some(n) => r is Some && ({
                let q = r->0;
                &&& q.tool_name@ == match n.str_of() { Some(s) => s, None => Seq::empty() }
                &&& q.description@ == str_or(params.view(), "description"@, Seq::empty())
                &&& q.tool_type@ == str_or(params.view(), "type"@, "node"@)
                &&& match params.view().field("configuration"@) {
                    Some(c) => q.configuration is Some && install_configuration(q.configuration->0, c),
                    None => q.configuration is None,
                }
                &&& match params.view().field("distribution"@) {
                    Some(d) => q.distribution is Some
                        && q.distribution->0.dist_type@ == str_or(d, "type"@, "error"@)
                        && q.distribution->0.package@ == str_or(d, "package"@, "error"@),
                    None => q.distribution is None,
                }
            }),
        },
{
    proof {
        reveal_strlit("name");
        reveal_strlit("description");
        reveal_strlit("type");
        reveal_strlit("node");
        reveal_strlit("configuration");
        reveal_strlit("command");
        reveal_strlit("args");
        reveal_strlit("env");
        reveal_strlit("distribution");
        reveal_strlit("package");
        reveal_strlit("error");
        reveal_strlit("");
    }
    let name = match params.get("name") {
        Some(n) => n,
        None => return None,
    };
    let tool_name = match name.as_str() {
        Some(s) => s.clone(),
        None => String::new(),
    };
    let description = str_member_or(params, "description", "");
    assert(description@ =~= str_or(params.view(), "description"@, Seq::empty()));
    let tool_type = str_member_or(params, "type", "node");
    let configuration = match params.get("configuration") {
        Some(config) => {
            let command = match config.str_field("command") {
                Some(c) => Some(c.clone()),
                None => None,
            };
            let args = match config.get("args") {
                Some(a) => match a.as_array() {
                    Some(items) => Some(collect_strings(items)),
                    None => {
                        let v: Vec<String> = Vec::new();
                        assert(texts(v@) =~= Seq::<Seq<char>>::empty());
                        Some(v)
                    }
                },
                None => None,
            };
            let env = match config.get("env") {
                Some(e) => Some(install_env_map(e)),
                None => None,
            };
            Some(ServerConfiguration { command, args, env })
        }
        None => None,
    };
    let distribution = match params.get("distribution") {
        Some(d) => Some(Distribution {
            dist_type: str_member_or(d, "type", "error"),
            package: str_member_or(d, "package", "error"),
        }),
        None => None,
    };
    Some(InstallRequest { tool_name, description, tool_type, configuration, distribution })
}

/// The reply once an install was handed on.
pub fn install_reply() -> (r: Json)
    ensures
        r.view() == JsonV::Object(seq![("code"@, JsonV::Number("0"@)), ("message"@, JsonV::Str("Tool installed successfully"@))]),
{
    proof {
        reveal_strlit("code");
        reveal_strlit("message");
        reveal_strlit("0");
    }
    let mut m: Vec<(String, Json)> = Vec::new();
    m.push((owned("code"), Json::Number(owned("0"))));
    m.push((owned("message"), Json::string("Tool installed successfully")));
    proof {
        lemma_object_view(m);
        assert(member_views(m@) =~= seq![("code"@, JsonV::Number("0"@)), ("message"@, JsonV::Str("Tool installed successfully"@))]);
    }
    Json::Object(m)
}

/// The error when an install names no tool.
pub fn install_without_name() -> (r: Json)
    ensures
        r.view() == error_object("-32602"@, "Tool not found: None"@),
{
    error_json("-32602", owned("Tool not found: None"))
}

/// A registry tool as listed: its members, with a description and an input
/// schema where it has none.
pub open spec fn registry_entry(tool: JsonV) -> JsonV {
    JsonV::Object(with_default(with_default(members_of(tool), "description"@, JsonV::Str("Tool from registry"@)),
        "inputSchema"@, empty_object_schema()))
}

/// Decorates the tools fetched from the registry.
pub fn registry_entries(tools: &Vec<Json>) -> (r: Vec<Json>)
    ensures
        r@.len() == tools@.len(),
        forall|i: int| 0 <= i < r@.len() ==> #[trigger] r@[i].view() == registry_entry(tools@[i].view()),
{
    proof {
        reveal_strlit("description");
        reveal_strlit("inputSchema");
    }
    let mut out: Vec<Json> = Vec::new();
    let mut i: usize = 0;
    while i < tools.len()
        invariant
            i <= tools@.len(),
            out@.len() == i,
            forall|k: int| 0 <= k < i ==> #[trigger] out@[k].view() == registry_entry(tools@[k].view()),
        decreases tools@.len() - i,
    {
        let mut m = match tools[i].as_object() {
            Some(members) => crate::json::clone_members(members),
            None => {
                let m: Vec<(String, Json)> = Vec::new();
                assert(member_views(m@) =~= Seq::<(Seq<char>, JsonV)>::empty());
                m
            }
        };
        proof { lemma_object_view(m); }
        if crate::json::member_position(&m, "description").is_none() {
            set_member(&mut m, owned("description"), Json::string("Tool from registry"));
        }
        proof { lemma_object_view(m); }
        if crate::json::member_position(&m, "inputSchema").is_none() {
            set_member(&mut m, owned("inputSchema"), empty_object_schema_json());
        }
        proof { lemma_object_view(m); }
        out.push(Json::Object(m));
        i = i + 1;
    }
    out
}

/// A registry tool marked with whether a server of its name is installed.
pub open spec fn marked_entry<V>(tool: JsonV, installed: Map<Seq<char>, V>) -> JsonV {
    JsonV::Object(upsert(members_of(tool), "installed"@,
        JsonV::Bool(installed.contains_key(tool.str_field("name"@)->0))))
}

/// Marks each registry tool as installed or not; each must be an object with
/// a `name` string.
pub fn mark_installed<V>(tools: &Vec<Json>, installed: &StrMap<V>) -> (r: Vec<Json>)
    requires
        installed.wf(),
        forall|i: int| 0 <= i < tools@.len() ==> (#[trigger] tools@[i].view()) is Object
            && tools@[i].view().str_field("name"@) is Some,
    ensures
        r@.len() == tools@.len(),
        forall|i: int| 0 <= i < r@.len() ==> #[trigger] r@[i].view() == marked_entry(tools@[i].view(), installed@),
{
    proof {
        reveal_strlit("name");
        reveal_strlit("installed");
    }
    let mut out: Vec<Json> = Vec::new();
    let mut i: usize = 0;
    while i < tools.len()
        invariant
            installed.wf(),
            forall|i: int| 0 <= i < tools@.len() ==> (#[trigger] tools@[i].view()) is Object
                && tools@[i].view().str_field("name"@) is Some,
            i <= tools@.len(),
            out@.len() == i,
            forall|k: int| 0 <= k < i ==> #[trigger] out@[k].view() == marked_entry(tools@[k].view(), installed@),
        decreases tools@.len() - i,
    {
        let tool = &tools[i];
        assert(tool.view() == tools@[i as int].view());
        let name = match tool.str_field("name") {
            Some(n) => n,
            None => { assert(false); return out; }
        };
        let present = installed.contains_key(name.as_str());
        let mut m = match tool.as_object() {
            Some(members) => crate::json::clone_members(members),
            None => { assert(false); return out; }
        };
        set_member(&mut m, owned("installed"), Json::Bool(present));
        proof { lemma_object_view(m); }
        out.push(Json::Object(m));
        i = i + 1;
    }
    out
}

/// The schema given to a listed tool that has none.
pub open spec fn default_input_schema() -> JsonV {
    JsonV::Object(seq![("properties"@, JsonV::Object(Seq::empty())), ("required"@, JsonV::Array(Seq::empty())),
        ("type"@, JsonV::Str("object"@))])
}

/// Whether member `k` of `m` is missing or `null`.
pub open spec fn missing_or_null(m: Seq<(Seq<char>, JsonV)>, k: Seq<char>) -> bool {
    match lookup(m, k) {
        None => true,
        Some(JsonV::Null) => true,
        _ => false,
    }
}

/// A listed server tool, with the default input schema where it has none.
pub open spec fn with_input_schema(tool: JsonV) -> JsonV {
    let m = members_of(tool);
    JsonV::Object(if missing_or_null(m, "input_schema"@) { upsert(m, "input_schema"@, default_input_schema()) } else { m })
}

fn default_input_schema_json() -> (r: Json)
    ensures
        r.view() == default_input_schema(),
{
    proof {
        reveal_strlit("properties");
        reveal_strlit("required");
        reveal_strlit("type");
        reveal_strlit("object");
    }
    let props: Vec<(String, Json)> = Vec::new();
    let req: Vec<Json> = Vec::new();
    proof {
        lemma_object_view(props);
        assert(member_views(props@) =~= Seq::<(Seq<char>, JsonV)>::empty());
        crate::json::lemma_array_view(req);
        assert(views(req@) =~= Seq::<JsonV>::empty());
    }
    let m = vec![
        (owned("properties"), Json::Object(props)),
        (owned("required"), Json::Array(req)),
        (owned("type"), Json::Str(owned("object"))),
    ];
    proof {
        lemma_object_view(m);
        assert(member_views(m@) =~= seq![("properties"@, JsonV::Object(Seq::empty())), ("required"@, JsonV::Array(Seq::empty())),
            ("type"@, JsonV::Str("object"@))]);
    }
    Json::Object(m)
}

fn with_schema(tool: &Json) -> (r: Json)
    ensures
        r.view() == with_input_schema(tool.view()),
{
    proof { reveal_strlit("input_schema"); }
    let mut m = copied_members(tool);
    let missing = match crate::json::member_position(&m, "input_schema") {
        Some(i) => match &m[i].1 {
            Json::Null => true,
            _ => false,
        },
        None => true,
    };
    proof {
        lemma_object_view(m);
        crate::json::lemma_key_index(member_views(m@), "input_schema"@);
    }
    if missing {
        set_member(&mut m, owned("input_schema"), default_input_schema_json());
    }
    proof { lemma_object_view(m); }
    Json::Object(m)
}

/// The answer to a listing of the running servers' tools: `{"tools": ..}`
/// with each tool given the default input schema where it has none, or the
/// error -32000 with the reason the listing failed.
pub fn tools_list_reply(tools: Result<Vec<Json>, String>) -> (r: Result<Json, Json>)
    ensures
        match tools {
            Ok(ts) => r is Ok && r->Ok_0.view() == JsonV::Object(seq![("tools"@,
                JsonV::Array(Seq::new(ts@.len(), |i: int| with_input_schema(ts@[i].view()))))]),
            Err(e) => r is Err && r->Err_0.view() == error_object("-32000"@, "Failed to list tools: "@ + e@),
        },
{
    proof {
        reveal_strlit("tools");
        reveal_strlit("-32000");
        reveal_strlit("Failed to list tools: ");
    }
    match tools {
        Ok(ts) => {
            let mut out: Vec<Json> = Vec::new();
            let mut i: usize = 0;
            while i < ts.len()
                invariant
                    i <= ts@.len(),
                    out@.len() == i,
                    forall|k: int| 0 <= k < i ==> #[trigger] out@[k].view() == with_input_schema(ts@[k].view()),
                decreases ts@.len() - i,
            {
                out.push(with_schema(&ts[i]));
                i = i + 1;
            }
            proof {
                crate::json::lemma_array_view(out);
                assert(views(out@) =~= Seq::new(ts@.len(), |i: int| with_input_schema(ts@[i].view())));
            }
            let m = vec![(owned("tools"), Json::Array(out))];
            proof {
                lemma_object_view(m);
                assert(member_views(m@) =~= seq![("tools"@,
                    JsonV::Array(Seq::new(ts@.len(), |i: int| with_input_schema(ts@[i].view()))))]);
            }
            Ok(Json::Object(m))
        }
        Err(e) => Err(error_json("-32000", join2("Failed to list tools: ", e.as_str()))),
    }
}


/// An install launches the server the way the registry entry says: the
/// command is the configuration's `command` string, and an `args` array is
/// handed on as its strings, in order (all of them when every element is a
/// string).
pub proof fn law_install_keeps_launch_settings(c: ServerConfiguration, config: JsonV, x: Seq<JsonV>)
    requires
        install_configuration(c, config),
        config.field("args"@) == Some(JsonV::Array(x)),
    ensures
        opt_text(c.command) == config.str_field("command"@),
        c.args is Some,
        texts(c.args->0@) == string_elements(x),
        (forall|i: int| 0 <= i < x.len() ==> #[trigger] x[i] is Str) ==> (texts(c.args->0@).len() == x.len()
            && forall|i: int| 0 <= i < x.len() ==> #[trigger] texts(c.args->0@)[i] == x[i]->Str_0),
{
    if forall|i: int| 0 <= i < x.len() ==> #[trigger] x[i] is Str {
        lemma_all_strings(x);
    }
}

/// The string elements of an array of strings are its strings, in order.
proof fn lemma_all_strings(x: Seq<JsonV>)
    requires
        forall|i: int| 0 <= i < x.len() ==> #[trigger] x[i] is Str,
    ensures
        string_elements(x).len() == x.len(),
        forall|i: int| 0 <= i < x.len() ==> #[trigger] string_elements(x)[i] == x[i]->Str_0,
    decreases x.len(),
{
    if x.len() > 0 {
        let t = x.drop_last();
        assert forall|i: int| 0 <= i < t.len() implies #[trigger] t[i] is Str by {
            assert(t[i] == x[i]);
        }
        lemma_all_strings(t);
        assert(x.last() == x[x.len() - 1]);
        assert forall|i: int| 0 <= i < x.len() implies #[trigger] string_elements(x)[i] == x[i]->Str_0 by {
            if i < x.len() - 1 {
                assert(t[i] == x[i]);
            }
        }
    }
}

} // verus!
