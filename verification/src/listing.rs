//! The JSON views of registered tools and of the tools their servers offer,
//! as the listing operations hand them out.
use vstd::prelude::*;
use crate::entities::{Tool, ToolConfig};
use crate::json::{Json, JsonV, clone_json, clone_members, lemma_object_view, lookup, member_views, set_member, str_views, upsert, views};
use crate::registration::{args_json, command_object};
use crate::strmap::StrMap;
use crate::text::{decimal, join3, owned};

verus! {

/// A one-member sequence when `o` holds a value, else nothing.
pub open spec fn opt_member(k: Seq<char>, o: Option<JsonV>) -> Seq<(Seq<char>, JsonV)> {
    match o {
        Some(v) => seq![(k, v)],
        None => Seq::empty(),
    }
}

/// The JSON object of a string map, member by member.
pub open spec fn env_object(entries: Seq<(String, String)>) -> JsonV {
    JsonV::Object(Seq::new(entries.len(), |i: int| (entries[i].0@, JsonV::Str(entries[i].1@))))
}

/// The JSON of a tool's `config`: its environment, command and arguments,
/// each where present.
pub open spec fn config_object(cf: ToolConfig) -> JsonV {
    JsonV::Object(
        opt_member("env"@, match cf.env { Some(e) => Some(env_object(e.entries())), None => None })
        + opt_member("command"@, match cf.command { Some(c) => Some(JsonV::Str(c@)), None => None })
        + opt_member("args"@, match cf.args { Some(a) => Some(JsonV::Array(str_views(a@))), None => None }))
}

/// The identifying members of a tool's listing JSON.
pub open spec fn summary_head(id: Seq<char>, t: Tool) -> Seq<(Seq<char>, JsonV)> {
    seq![
        ("name"@, JsonV::Str(t.name@)),
        ("description"@, JsonV::Str(t.description@)),
        ("enabled"@, JsonV::Bool(t.enabled)),
        ("tool_type"@, JsonV::Str(t.tool_type@)),
        ("id"@, JsonV::Str(id)),
    ]
}

/// The optional members of a tool's listing JSON, those present.
pub open spec fn summary_optional(t: Tool) -> Seq<(Seq<char>, JsonV)> {
    opt_member("entry_point"@, match t.entry_point { Some(e) => Some(JsonV::Str(e@)), None => None })
    + opt_member("configuration"@, match t.configuration {
        Some(c) => Some(command_object(c.command@, args_json(c.args))),
        None => None,
    })
    + opt_member("distribution"@, match t.distribution { Some(d) => Some(d.view()), None => None })
    + opt_member("config"@, match t.config { Some(cf) => Some(config_object(cf)), None => None })
    + opt_member("authentication"@, match t.authentication { Some(a) => Some(a.view()), None => None })
}

/// The JSON that listing gives for a registered tool: its properties, those
/// that are optional where present, the process marked as running, and the
/// number of tools its server offers.
pub open spec fn tool_summary(id: Seq<char>, t: Tool, count: nat) -> JsonV {
    JsonV::Object(summary_head(id, t) + summary_optional(t)
        + seq![("process_running"@, JsonV::Bool(true)), ("tool_count"@, JsonV::Number(decimal(count)))])
}

/// The number of tools that server `id` offers (none when it is unknown).
pub open spec fn tool_count(st: Map<Seq<char>, Vec<Json>>, id: Seq<char>) -> nat {
    if st.contains_key(id) { st[id]@.len() } else { 0 }
}

/// The members of a JSON value when it is an object, else none.
pub open spec fn members_of(v: JsonV) -> Seq<(Seq<char>, JsonV)> {
    match v {
        JsonV::Object(m) => m,
        _ => Seq::empty(),
    }
}

/// `upsert` only where the member is missing.
pub open spec fn with_default(m: Seq<(Seq<char>, JsonV)>, k: Seq<char>, v: JsonV) -> Seq<(Seq<char>, JsonV)> {
    if lookup(m, k) is Some { m } else { upsert(m, k, v) }
}

/// The schema given to a tool that declares none: an object without properties.
pub open spec fn empty_object_schema() -> JsonV {
    JsonV::Object(seq![("type"@, JsonV::Str("object"@)), ("properties"@, JsonV::Object(Seq::empty()))])
}

/// A server's tool as listed with the registered tools: its members, the
/// server's identifier, and a description and an input schema where it
/// has none.
pub open spec fn decorated_tool(server_id: Seq<char>, tool: JsonV, fallback_description: Seq<char>) -> JsonV {
    JsonV::Object(with_default(
        with_default(upsert(members_of(tool), "server_id"@, JsonV::Str(server_id)), "description"@, JsonV::Str(fallback_description)),
        "inputSchema"@, empty_object_schema()))
}

/// The proxy identifier of a server's tool: the server, a colon, and the
/// tool's `id` (empty when it has none).
pub open spec fn proxy_id(server_id: Seq<char>, tool: JsonV) -> Seq<char> {
    server_id + ":"@ + match tool.str_field("id"@) { Some(i) => i, None => Seq::empty() }
}

/// A server's tool as the proxy lists it: its members, the server's
/// identifier and the proxy identifier.
pub open spec fn proxied_tool(server_id: Seq<char>, tool: JsonV) -> JsonV {
    JsonV::Object(upsert(
        upsert(members_of(tool), "server_id"@, JsonV::Str(server_id)),
        "proxy_id"@, JsonV::Str(proxy_id(server_id, tool))))
}

/// The decorated tools of every server, server after server.
pub open spec fn all_decorated(st: Seq<(String, Vec<Json>)>) -> Seq<JsonV>
    decreases st.len(),
{
    if st.len() == 0 {
        Seq::empty()
    } else {
        all_decorated(st.drop_last()) + Seq::new(st.last().1@.len(), |j: int|
            decorated_tool(st.last().0@, st.last().1@[j].view(), "Tool from server"@))
    }
}

/// The proxied tools of every server, server after server.
pub open spec fn all_proxied(st: Seq<(String, Vec<Json>)>) -> Seq<JsonV>
    decreases st.len(),
{
    if st.len() == 0 {
        Seq::empty()
    } else {
        all_proxied(st.drop_last()) + Seq::new(st.last().1@.len(), |j: int|
            proxied_tool(st.last().0@, st.last().1@[j].view()))
    }
}

/// The summaries of the registered tools, in order.
pub open spec fn summaries(tools: Seq<(String, Tool)>, st: Map<Seq<char>, Vec<Json>>) -> Seq<JsonV> {
    Seq::new(tools.len(), |i: int| tool_summary(tools[i].0@, tools[i].1, tool_count(st, tools[i].0@)))
}

/// Pushes `(k, v)` onto the members being built.
fn push_member(m: &mut Vec<(String, Json)>, k: &str, v: Json)
    ensures
        member_views(final(m)@) == member_views(old(m)@).push((k@, v.view())),
{
    let ghost vv = v.view();
    m.push((owned(k), v));
    assert(member_views(m@) =~= member_views(old(m)@).push((k@, vv)));
}

/// The JSON object of a string map.
pub fn env_json(env: &StrMap<String>) -> (r: Json)
    ensures
        r.view() == env_object(env.entries()),
{
    let mut m: Vec<(String, Json)> = Vec::new();
    let mut i: usize = 0;
    while i < env.len()
        invariant
            i <= env.entries().len(),
            m@.len() == i,
            forall|k: int| #![trigger m@[k]] 0 <= k < i ==> m@[k].0@ == env.entries()[k].0@ && m@[k].1.view() == JsonV::Str(env.entries()[k].1@),
        decreases env.entries().len() - i,
    {
        let (k, v) = env.entry(i);
        m.push((k.clone(), Json::Str(v.clone())));
        i = i + 1;
    }
    proof {
        lemma_object_view(m);
        assert(member_views(m@) =~= env_object(env.entries())->Object_0);
    }
    Json::Object(m)
}

/// The JSON of a tool's `config`.
pub fn config_json(cf: &ToolConfig) -> (r: Json)
    ensures
        r.view() == config_object(*cf),
{
    proof {
        reveal_strlit("env");
        reveal_strlit("command");
        reveal_strlit("args");
    }
    let mut m: Vec<(String, Json)> = Vec::new();
    if let Some(env) = &cf.env {
        push_member(&mut m, "env", env_json(env));
    }
    let ghost after_env = member_views(m@);
    if let Some(c) = &cf.command {
        push_member(&mut m, "command", Json::Str(c.clone()));
    }
    let ghost after_command = member_views(m@);
    if let Some(a) = &cf.args {
        push_member(&mut m, "args", Json::string_array(a));
    }
    proof {
        lemma_object_view(m);
        assert(member_views(m@) =~= config_object(*cf)->Object_0);
    }
    Json::Object(m)
}

/// The number of tools that server `id` offers.
pub fn server_tool_count(st: &StrMap<Vec<Json>>, id: &str) -> (n: usize)
    requires
        st.wf(),
    ensures
        n == tool_count(st@, id@),
{
    match st.get(id) {
        Some(v) => v.len(),
        None => 0,
    }
}

fn summary_head_members(id: &str, t: &Tool) -> (m: Vec<(String, Json)>)
    ensures
        member_views(m@) == summary_head(id@, *t),
{
    proof {
        reveal_strlit("name");
        reveal_strlit("description");
        reveal_strlit("enabled");
        reveal_strlit("tool_type");
        reveal_strlit("id");
    }
    let mut m: Vec<(String, Json)> = Vec::new();
    push_member(&mut m, "name", Json::Str(t.name.clone()));
    push_member(&mut m, "description", Json::Str(t.description.clone()));
    push_member(&mut m, "enabled", Json::Bool(t.enabled));
    push_member(&mut m, "tool_type", Json::Str(t.tool_type.clone()));
    push_member(&mut m, "id", Json::string(id));
    assert(member_views(m@) =~= summary_head(id@, *t));
    m
}

fn configuration_json(c: &crate::entities::ToolConfiguration) -> (r: Json)
    ensures
        r.view() == command_object(c.command@, args_json(c.args)),
{
    proof {
        reveal_strlit("command");
        reveal_strlit("args");
    }
    let args = match &c.args {
        Some(v) => Json::string_array(v),
        None => Json::Null,
    };
    let mut cm: Vec<(String, Json)> = Vec::new();
    push_member(&mut cm, "command", Json::Str(c.command.clone()));
    push_member(&mut cm, "args", args);
    proof {
        lemma_object_view(cm);
        assert(member_views(cm@) =~= command_object(c.command@, args_json(c.args))->Object_0);
    }
    Json::Object(cm)
}

#[verifier::rlimit(30)]
fn push_optional_members(m: &mut Vec<(String, Json)>, t: &Tool)
    ensures
        member_views(final(m)@) == member_views(old(m)@) + summary_optional(*t),
{
    proof {
        reveal_strlit("entry_point");
        reveal_strlit("configuration");
        reveal_strlit("distribution");
        reveal_strlit("config");
        reveal_strlit("authentication");
    }
    let ghost s0 = member_views(m@);
    if let Some(e) = &t.entry_point {
        push_member(m, "entry_point", Json::Str(e.clone()));
    }
    let ghost s1 = member_views(m@);
    assert(s1 =~= s0 + opt_member("entry_point"@, match t.entry_point { Some(e) => Some(JsonV::Str(e@)), None => None }));
    if let Some(c) = &t.configuration {
        push_member(m, "configuration", configuration_json(c));
    }
    let ghost s2 = member_views(m@);
    assert(s2 =~= s1 + opt_member("configuration"@, match t.configuration {
            Some(c) => Some(command_object(c.command@, args_json(c.args))),
            None => None,
        }));
    if let Some(d) = &t.distribution {
        push_member(m, "distribution", clone_json(d));
    }
    let ghost s3 = member_views(m@);
    assert(s3 =~= s2 + opt_member("distribution"@, match t.distribution { Some(d) => Some(d.view()), None => None }));
    if let Some(cf) = &t.config {
        push_member(m, "config", config_json(cf));
    }
    let ghost s4 = member_views(m@);
    assert(s4 =~= s3 + opt_member("config"@, match t.config { Some(cf) => Some(config_object(cf)), None => None }));
    if let Some(a) = &t.authentication {
        push_member(m, "authentication", clone_json(a));
    }
    let ghost s5 = member_views(m@);
    assert(s5 =~= s4 + opt_member("authentication"@, match t.authentication { Some(a) => Some(a.view()), None => None }));
    assert(s5 =~= s0 + summary_optional(*t));
}

/// The listing JSON of the registered tool `t` under identifier `id`.
pub fn tool_summary_json(id: &str, t: &Tool, count: usize) -> (r: Json)
    ensures
        r.view() == tool_summary(id@, *t, count as nat),
{
    proof {
        reveal_strlit("process_running");
        reveal_strlit("tool_count");
    }
    let mut m = summary_head_members(id, t);
    push_optional_members(&mut m, t);
    push_member(&mut m, "process_running", Json::Bool(true));
    push_member(&mut m, "tool_count", Json::from_usize(count));
    proof {
        lemma_object_view(m);
        assert(member_views(m@) =~= tool_summary(id@, *t, count as nat)->Object_0);
    }
    Json::Object(m)
}

/// Sets member `k` only where it is missing.
fn set_default(m: &mut Vec<(String, Json)>, k: &str, v: Json)
    ensures
        member_views(final(m)@) == with_default(member_views(old(m)@), k@, v.view()),
{
    proof { lemma_object_view(*m); }
    let present = crate::json::member_position(m, k).is_some();
    if !present {
        set_member(m, owned(k), v);
    }
}

/// The members of a copy of `tool` when it is an object, else none.
pub(crate) fn copied_members(tool: &Json) -> (m: Vec<(String, Json)>)
    ensures
        member_views(m@) == members_of(tool.view()),
{
    match tool.as_object() {
        Some(members) => clone_members(members),
        None => {
            let m: Vec<(String, Json)> = Vec::new();
            assert(member_views(m@) =~= Seq::<(Seq<char>, JsonV)>::empty());
            m
        }
    }
}

/// The schema object `{"type": "object", "properties": {}}`.
pub fn empty_object_schema_json() -> (r: Json)
    ensures
        r.view() == empty_object_schema(),
{
    proof {
        reveal_strlit("type");
        reveal_strlit("object");
        reveal_strlit("properties");
    }
    let props: Vec<(String, Json)> = Vec::new();
    proof {
        lemma_object_view(props);
        assert(member_views(props@) =~= Seq::<(Seq<char>, JsonV)>::empty());
    }
    let mut m: Vec<(String, Json)> = Vec::new();
    push_member(&mut m, "type", Json::string("object"));
    push_member(&mut m, "properties", Json::Object(props));
    proof {
        lemma_object_view(m);
        assert(member_views(m@) =~= empty_object_schema()->Object_0);
    }
    Json::Object(m)
}

/// A server's tool decorated for listing, with `fallback_description` given
/// where the tool has no description.
pub fn decorated_tool_json(server_id: &str, tool: &Json, fallback_description: &str) -> (r: Json)
    ensures
        r.view() == decorated_tool(server_id@, tool.view(), fallback_description@),
{
    proof {
        reveal_strlit("server_id");
        reveal_strlit("description");
        reveal_strlit("inputSchema");
    }
    let mut m = copied_members(tool);
    set_member(&mut m, owned("server_id"), Json::string(server_id));
    set_default(&mut m, "description", Json::string(fallback_description));
    set_default(&mut m, "inputSchema", empty_object_schema_json());
    proof { lemma_object_view(m); }
    Json::Object(m)
}

/// A server's tool as the proxy lists it.
pub fn proxied_tool_json(server_id: &str, tool: &Json) -> (r: Json)
    ensures
        r.view() == proxied_tool(server_id@, tool.view()),
{
    proof {
        reveal_strlit("server_id");
        reveal_strlit("proxy_id");
        reveal_strlit(":");
        reveal_strlit("");
    }
    let tool_id = match tool.str_field("id") {
        Some(i) => i.as_str(),
        None => "",
    };
    let pid = join3(server_id, ":", tool_id);
    let mut m = copied_members(tool);
    set_member(&mut m, owned("server_id"), Json::string(server_id));
    set_member(&mut m, owned("proxy_id"), Json::Str(pid));
    proof { lemma_object_view(m); }
    Json::Object(m)
}

/// The summaries of the registered tools, in order.
pub fn tool_summaries(tools: &StrMap<Tool>, st: &StrMap<Vec<Json>>) -> (r: Vec<Json>)
    requires
        st.wf(),
    ensures
        views(r@) == summaries(tools.entries(), st@),
{
    let mut out: Vec<Json> = Vec::new();
    let mut i: usize = 0;
    while i < tools.len()
        invariant
            st.wf(),
            i <= tools.entries().len(),
            out@.len() == i,
            forall|k: int| 0 <= k < i ==> #[trigger] out@[k].view() == summaries(tools.entries(), st@)[k],
        decreases tools.entries().len() - i,
    {
        let (id, t) = tools.entry(i);
        let count = server_tool_count(st, id.as_str());
        out.push(tool_summary_json(id.as_str(), t, count));
        i = i + 1;
    }
    assert(views(out@) =~= summaries(tools.entries(), st@));
    out
}

/// The decorated tools of every server.
pub fn decorated_server_tools(st: &StrMap<Vec<Json>>) -> (r: Vec<Json>)
    ensures
        views(r@) == all_decorated(st.entries()),
{
    proof { reveal_strlit("Tool from server"); }
    let mut out: Vec<Json> = Vec::new();
    let mut i: usize = 0;
    while i < st.len()
        invariant
            i <= st.entries().len(),
            views(out@) == all_decorated(st.entries().take(i as int)),
        decreases st.entries().len() - i,
    {
        let (sid, tools) = st.entry(i);
        let ghost before = views(out@);
        let mut j: usize = 0;
        while j < tools.len()
            invariant
                i < st.entries().len(),
                j <= tools@.len(),
                *tools == st.entries()[i as int].1,
                *sid == st.entries()[i as int].0,
                views(out@) == before + Seq::new(j as nat, |q: int|
                    decorated_tool(sid@, tools@[q].view(), "Tool from server"@)),
            decreases tools@.len() - j,
        {
            let ghost prev_out = out@;
            let x = decorated_tool_json(sid.as_str(), &tools[j], "Tool from server");
            out.push(x);
            assert(views(out@) =~= views(prev_out).push(x.view()));
            assert(views(out@) =~= before + Seq::new((j + 1) as nat, |q: int|
                decorated_tool(sid@, tools@[q].view(), "Tool from server"@)));
            j = j + 1;
        }
        assert(st.entries().take(i + 1).drop_last() =~= st.entries().take(i as int));
        i = i + 1;
    }
    assert(st.entries().take(st.entries().len() as int) =~= st.entries());
    out
}

/// The proxied tools of every server.
pub fn proxied_server_tools(st: &StrMap<Vec<Json>>) -> (r: Vec<Json>)
    ensures
        views(r@) == all_proxied(st.entries()),
{
    let mut out: Vec<Json> = Vec::new();
    let mut i: usize = 0;
    while i < st.len()
        invariant
            i <= st.entries().len(),
            views(out@) == all_proxied(st.entries().take(i as int)),
        decreases st.entries().len() - i,
    {
        let (sid, tools) = st.entry(i);
        let ghost before = views(out@);
        let mut j: usize = 0;
        while j < tools.len()
            invariant
                i < st.entries().len(),
                j <= tools@.len(),
                *tools == st.entries()[i as int].1,
                *sid == st.entries()[i as int].0,
                views(out@) == before + Seq::new(j as nat, |q: int| proxied_tool(sid@, tools@[q].view())),
            decreases tools@.len() - j,
        {
            let ghost prev_out = out@;
            let x = proxied_tool_json(sid.as_str(), &tools[j]);
            out.push(x);
            assert(views(out@) =~= views(prev_out).push(x.view()));
            assert(views(out@) =~= before + Seq::new((j + 1) as nat, |q: int| proxied_tool(sid@, tools@[q].view())));
            j = j + 1;
        }
        assert(st.entries().take(i + 1).drop_last() =~= st.entries().take(i as int));
        i = i + 1;
    }
    assert(st.entries().take(st.entries().len() as int) =~= st.entries());
    out
}


/// Reading a member after a default was given for `k`: `k` reads as it did
/// when it was present, else as the default; other members read as before.
proof fn lemma_with_default_reads(m: Seq<(Seq<char>, JsonV)>, k: Seq<char>, v: JsonV, k2: Seq<char>)
    ensures
        lookup(with_default(m, k, v), k) == (if lookup(m, k) is Some { lookup(m, k) } else { Some(v) }),
        k2 != k ==> lookup(with_default(m, k, v), k2) == lookup(m, k2),
{
    crate::json::law_set_member_reads_back(m, k, v, k2);
}

/// A server's tool, as listed with the registered tools, keeps every member
/// it had except `server_id`, which names its server; it gets the fallback
/// description and the empty input schema only where it has none.
pub proof fn law_listed_server_tool_keeps_its_members(server_id: Seq<char>, tool: JsonV, fallback: Seq<char>, k: Seq<char>)
    ensures
        decorated_tool(server_id, tool, fallback).field("server_id"@) == Some(JsonV::Str(server_id)),
        k != "server_id"@ && lookup(members_of(tool), k) is Some
            ==> decorated_tool(server_id, tool, fallback).field(k) == lookup(members_of(tool), k),
        lookup(members_of(tool), "description"@) is None
            ==> decorated_tool(server_id, tool, fallback).field("description"@) == Some(JsonV::Str(fallback)),
        lookup(members_of(tool), "inputSchema"@) is None
            ==> decorated_tool(server_id, tool, fallback).field("inputSchema"@) == Some(empty_object_schema()),
{
    reveal_strlit("server_id");
    reveal_strlit("description");
    reveal_strlit("inputSchema");
    assert("server_id"@ != "description"@) by { assert("server_id"@.len() != "description"@.len()); }
    assert("server_id"@ != "inputSchema"@) by { assert("server_id"@.len() != "inputSchema"@.len()); }
    assert("description"@ != "inputSchema"@) by { assert("description"@[0] != "inputSchema"@[0]); }
    let m0 = members_of(tool);
    let m1 = upsert(m0, "server_id"@, JsonV::Str(server_id));
    let m2 = with_default(m1, "description"@, JsonV::Str(fallback));
    crate::json::law_set_member_reads_back(m0, "server_id"@, JsonV::Str(server_id), k);
    crate::json::law_set_member_reads_back(m0, "server_id"@, JsonV::Str(server_id), "description"@);
    crate::json::law_set_member_reads_back(m0, "server_id"@, JsonV::Str(server_id), "inputSchema"@);
    lemma_with_default_reads(m1, "description"@, JsonV::Str(fallback), k);
    lemma_with_default_reads(m1, "description"@, JsonV::Str(fallback), "server_id"@);
    lemma_with_default_reads(m1, "description"@, JsonV::Str(fallback), "inputSchema"@);
    lemma_with_default_reads(m2, "inputSchema"@, empty_object_schema(), k);
    lemma_with_default_reads(m2, "inputSchema"@, empty_object_schema(), "server_id"@);
    lemma_with_default_reads(m2, "inputSchema"@, empty_object_schema(), "description"@);
}

/// A server's tool, as the proxy lists it, keeps every member it had except
/// `server_id` and `proxy_id`, which name its server and its proxy identifier.
pub proof fn law_proxied_server_tool_keeps_its_members(server_id: Seq<char>, tool: JsonV, k: Seq<char>)
    ensures
        proxied_tool(server_id, tool).field("server_id"@) == Some(JsonV::Str(server_id)),
        proxied_tool(server_id, tool).field("proxy_id"@) == Some(JsonV::Str(proxy_id(server_id, tool))),
        k != "server_id"@ && k != "proxy_id"@ ==> proxied_tool(server_id, tool).field(k) == lookup(members_of(tool), k),
{
    reveal_strlit("server_id");
    reveal_strlit("proxy_id");
    assert("server_id"@ != "proxy_id"@) by { assert("server_id"@[0] != "proxy_id"@[0]); }
    let m0 = members_of(tool);
    let m1 = upsert(m0, "server_id"@, JsonV::Str(server_id));
    crate::json::law_set_member_reads_back(m0, "server_id"@, JsonV::Str(server_id), k);
    crate::json::law_set_member_reads_back(m1, "proxy_id"@, JsonV::Str(proxy_id(server_id, tool)), k);
    crate::json::law_set_member_reads_back(m1, "proxy_id"@, JsonV::Str(proxy_id(server_id, tool)), "server_id"@);
}

} // verus!
