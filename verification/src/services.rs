//! The decisions of the tool service: what listing returns, where an
//! execution is routed, and what the status, configuration, uninstall and
//! discovery operations answer and store.
use vstd::prelude::*;
use crate::dto::{ToolConfigUpdateResponseDTO, ToolUninstallResponseDTO, ToolUpdateResponseDTO};
use crate::entities::{DiscoverServerToolsResponse, DomainError, Tool, ToolConfig, ToolConfigUpdateResponse,
    ToolConfigUpdateRequest, ToolExecutionRequest, ToolExecutionResponse, ToolUninstallResponse, ToolUpdateResponse, error_text};
use crate::json::{Json, JsonV, clone_elements, clone_json, lemma_array_view, lemma_object_view, member_views, views};
use crate::listing::{all_decorated, all_proxied, decorated_server_tools, proxied_server_tools, summaries,
    tool_count, tool_summaries};
use crate::registration::text_map;
use crate::strmap::StrMap;
use crate::text::{find_char, has_char, join2, join3, join4, owned};

verus! {

/// What the application's listing returns: every registered tool's summary,
/// then the decorated tools of every server.
pub open spec fn listed_tools(tools: Seq<(String, Tool)>, st: StrMap<Vec<Json>>) -> Seq<JsonV> {
    summaries(tools, st@) + all_decorated(st.entries())
}

/// Lists the registered tools and the tools their servers offer.
pub fn list_tools(tools: &StrMap<Tool>, st: &StrMap<Vec<Json>>) -> (r: Vec<Json>)
    requires
        st.wf(),
    ensures
        views(r@) == listed_tools(tools.entries(), *st),
{
    let mut out = tool_summaries(tools, st);
    let mut more = decorated_server_tools(st);
    let ghost a = out@;
    let ghost b = more@;
    out.append(&mut more);
    assert(views(out@) =~= views(a) + views(b));
    out
}

/// Lists the registered tools only.
pub fn list_registered_tools(tools: &StrMap<Tool>, st: &StrMap<Vec<Json>>) -> (r: Vec<Json>)
    requires
        st.wf(),
    ensures
        views(r@) == summaries(tools.entries(), st@),
{
    tool_summaries(tools, st)
}

/// The domain service's listing, given what reading the registered tools
/// and the servers' tools gave: the registered tools' summaries, or the
/// text of the error met first.
pub fn domain_list_tools(tools: Result<StrMap<Tool>, DomainError>, st: Result<StrMap<Vec<Json>>, DomainError>)
    -> (r: Result<Vec<Json>, String>)
    requires
        st matches Ok(m) ==> m.wf(),
    ensures
        match tools {
            Err(e) => r is Err && r->Err_0@ == error_text(e),
            Ok(t) => match st {
                Err(e) => r is Err && r->Err_0@ == error_text(e),
                Ok(m) => r is Ok && views(r->Ok_0@) == summaries(t.entries(), m@),
            },
        },
{
    match tools {
        Err(e) => Err(e.message()),
        Ok(t) => match st {
            Err(e) => Err(e.message()),
            Ok(m) => Ok(list_registered_tools(&t, &m)),
        },
    }
}

/// Lists the tools of every server with their proxy identifiers.
pub fn list_all_server_tools(st: &StrMap<Vec<Json>>) -> (r: Vec<Json>)
    ensures
        views(r@) == all_proxied(st.entries()),
{
    proxied_server_tools(st)
}

/// The tools that server `id` offers, as JSON (none when it is unknown).
pub open spec fn server_tools_json(st: Map<Seq<char>, Vec<Json>>, id: Seq<char>) -> JsonV {
    JsonV::Array(if st.contains_key(id) { views(st[id]@) } else { Seq::empty() })
}

/// A registered tool's summary with the tools of its server added.
pub open spec fn server_record(id: Seq<char>, t: Tool, st: Map<Seq<char>, Vec<Json>>) -> JsonV {
    JsonV::Object(crate::listing::tool_summary(id, t, tool_count(st, id))->Object_0.push(("tools"@, server_tools_json(st, id))))
}

/// Every registered tool with its state and the tools its server offers.
pub fn server_data(tools: &StrMap<Tool>, st: &StrMap<Vec<Json>>) -> (r: Vec<Json>)
    requires
        st.wf(),
    ensures
        r@.len() == tools.entries().len(),
        forall|i: int| 0 <= i < r@.len() ==> #[trigger] r@[i].view()
            == server_record(tools.entries()[i].0@, tools.entries()[i].1, st@),
{
    proof { reveal_strlit("tools"); }
    let mut out: Vec<Json> = Vec::new();
    let mut i: usize = 0;
    while i < tools.len()
        invariant
            st.wf(),
            i <= tools.entries().len(),
            out@.len() == i,
            forall|k: int| 0 <= k < i ==> #[trigger] out@[k].view()
                == server_record(tools.entries()[k].0@, tools.entries()[k].1, st@),
        decreases tools.entries().len() - i,
    {
        let (id, t) = tools.entry(i);
        let count = crate::listing::server_tool_count(st, id.as_str());
        let summary = crate::listing::tool_summary_json(id.as_str(), t, count);
        let list = match st.get(id.as_str()) {
            Some(v) => clone_elements(v),
            None => Vec::new(),
        };
        proof {
            lemma_array_view(list);
            assert(views(list@) =~= server_tools_json(st@, id@)->Array_0);
        }
        let record = match summary {
            Json::Object(mut m) => {
                proof { lemma_object_view(m); }
                let ghost before = member_views(m@);
                let lv = Json::Array(list);
                let ghost lvv = lv.view();
                m.push((owned("tools"), lv));
                proof {
                    lemma_object_view(m);
                    assert(member_views(m@) =~= before.push(("tools"@, lvv)));
                }
                Json::Object(m)
            }
            other => other,
        };
        out.push(record);
        i = i + 1;
    }
    out
}

/// The domain's single view of all server data: `servers` holds the
/// summaries of the registered tools and `tools` the proxied tools of every
/// server.
pub open spec fn all_server_data(tools: Seq<(String, Tool)>, st: StrMap<Vec<Json>>) -> JsonV {
    JsonV::Object(seq![
        ("servers"@, JsonV::Array(summaries(tools, st@))),
        ("tools"@, JsonV::Array(all_proxied(st.entries()))),
    ])
}

/// All server data in one value.
pub fn get_all_server_data(tools: &StrMap<Tool>, st: &StrMap<Vec<Json>>) -> (r: Json)
    requires
        st.wf(),
    ensures
        r.view() == all_server_data(tools.entries(), *st),
{
    proof {
        reveal_strlit("servers");
        reveal_strlit("tools");
    }
    let servers = tool_summaries(tools, st);
    let proxied = proxied_server_tools(st);
    proof {
        lemma_array_view(servers);
        lemma_array_view(proxied);
    }
    let mut m: Vec<(String, Json)> = Vec::new();
    m.push((owned("servers"), Json::Array(servers)));
    m.push((owned("tools"), Json::Array(proxied)));
    proof {
        lemma_object_view(m);
        assert(member_views(m@) =~= all_server_data(tools.entries(), *st)->Object_0);
    }
    Json::Object(m)
}

/// The server and tool that a proxy identifier names: exactly one colon
/// parts it into the two.
pub open spec fn proxy_parts(s: Seq<char>) -> Option<(Seq<char>, Seq<char>)> {
    if has_char(s, ':') {
        let i = choose|i: int| 0 <= i < s.len() && s[i] == ':' && !has_char(s.take(i), ':');
        if has_char(s.skip(i + 1), ':') { None } else { Some((s.take(i), s.skip(i + 1))) }
    } else {
        None
    }
}

/// Splits `server:tool` at its only colon (`split(':')` with two parts).
pub fn split_proxy_id(s: &str) -> (r: Option<(String, String)>)
    ensures
        match proxy_parts(s@) {
            Some((a, b)) => r matches Some((x, y)) && x@ == a && y@ == b,
            None => r is None,
        },
{
    let n = s.unicode_len();
    match find_char(s, ':') {
        None => None,
        Some(i) => {
            proof {
                let j = choose|j: int| 0 <= j < s@.len() && s@[j] == ':' && !has_char(s@.take(j), ':');
                if j < i {
                    assert(s@.take(i as int)[j] == ':');
                } else if i < j {
                    assert(s@.take(j)[i as int] == ':');
                }
            }
            let before = s.substring_char(0, i);
            let after = s.substring_char(i + 1, n);
            assert(after@ =~= s@.skip(i + 1));
            match find_char(after, ':') {
                Some(_) => None,
                None => Some((owned(before), owned(after))),
            }
        }
    }
}

/// A proxy identifier made of a server identifier and a tool identifier,
/// neither holding a colon, splits back into the two.
pub proof fn law_proxy_id_splits_back(server_id: Seq<char>, tool_id: Seq<char>)
    requires
        !has_char(server_id, ':'),
        !has_char(tool_id, ':'),
    ensures
        proxy_parts(server_id + ":"@ + tool_id) == Some((server_id, tool_id)),
{
    reveal_strlit(":");
    let s = server_id + ":"@ + tool_id;
    let n = server_id.len() as int;
    assert(s[n] == ':');
    assert(s.take(n) =~= server_id);
    assert(s.skip(n + 1) =~= tool_id);
    assert(has_char(s, ':'));
    let i = choose|i: int| 0 <= i < s.len() && s[i] == ':' && !has_char(s.take(i), ':');
    if i < n {
        assert(server_id[i] == s[i]);
    } else if i > n {
        assert(s.take(i)[n] == ':');
    }
}

/// Where the application sends an execution.
pub enum ExecutionRoute {
    /// Straight to the process manager: tool `tool_id` of server `server_id`.
    ServerTool { server_id: String, tool_id: String },
    /// To the repository, with this request.
    Repository(ToolExecutionRequest),
}

/// The tool that the `tool_name` parameter names, if it is a string.
pub open spec fn named_tool(params: JsonV) -> Option<Seq<char>> {
    params.str_field("tool_name"@)
}

/// Routes an execution: a `server:tool` identifier goes to that server; else
/// a `tool_name` parameter turns the identifier into `id:tool_name` for the
/// repository; else the request goes to the repository as it is.
pub fn execution_route(req: &ToolExecutionRequest) -> (r: ExecutionRoute)
    ensures
        match proxy_parts(req.tool_id@) {
            Some((a, b)) => r matches ExecutionRoute::ServerTool { server_id, tool_id } && server_id@ == a && tool_id@ == b,
            None => r matches ExecutionRoute::Repository(q) && q.parameters.view() == req.parameters.view()
                && q.tool_id@ == match named_tool(req.parameters.view()) {
                    Some(n) => req.tool_id@ + ":"@ + n,
                    None => req.tool_id@,
                },
        },
{
    proof {
        reveal_strlit(":");
        reveal_strlit("tool_name");
    }
    match split_proxy_id(req.tool_id.as_str()) {
        Some((server_id, tool_id)) => ExecutionRoute::ServerTool { server_id, tool_id },
        None => {
            let id = match req.parameters.str_field("tool_name") {
                Some(n) => join3(req.tool_id.as_str(), ":", n.as_str()),
                None => req.tool_id.clone(),
            };
            ExecutionRoute::Repository(ToolExecutionRequest { tool_id: id, parameters: clone_json(&req.parameters) })
        }
    }
}

/// The answer to an execution on a server: its result, or the error
/// introduced by `prefix`.
pub open spec fn execution_answer(r: ToolExecutionResponse, outcome: Result<JsonV, DomainError>, prefix: Seq<char>) -> bool {
    match outcome {
        Ok(v) => r.success && r.result is Some && r.result->0.view() == v && r.error is None,
        Err(e) => !r.success && r.result is None && r.error is Some && r.error->0@ == prefix + error_text(e),
    }
}

/// Turns what the process manager gave back into the execution's answer.
pub fn execution_response(outcome: Result<Json, DomainError>, prefix: &str) -> (r: ToolExecutionResponse)
    ensures
        execution_answer(r, match outcome { Ok(v) => Ok(v.view()), Err(e) => Err(e) }, prefix@),
{
    match outcome {
        Ok(v) => ToolExecutionResponse { success: true, result: Some(v), error: None },
        Err(e) => {
            let text = e.message();
            ToolExecutionResponse { success: false, result: None, error: Some(join2(prefix, text.as_str())) }
        }
    }
}

/// How the repository executes a request.
pub enum RepositoryExecution {
    /// Run tool `tool_id` on server `server_id`; errors are introduced by `prefix`.
    Run { server_id: String, tool_id: String, prefix: String },
    /// Answer at once: no tool was named.
    MissingToolName(ToolExecutionResponse),
}

/// The repository's routing: a `server:tool` identifier runs that tool; an
/// identifier with a `tool_name` parameter runs that tool on that server;
/// without a tool name nothing runs and the answer says so.
pub fn repository_execution(req: &ToolExecutionRequest) -> (r: RepositoryExecution)
    ensures
        match proxy_parts(req.tool_id@) {
            Some((a, b)) => r matches RepositoryExecution::Run { server_id, tool_id, prefix }
                && server_id@ == a && tool_id@ == b && prefix@ == "Error executing server tool: "@,
            None => match named_tool(req.parameters.view()) {
                Some(n) => r matches RepositoryExecution::Run { server_id, tool_id, prefix }
                    && server_id@ == req.tool_id@ && tool_id@ == n && prefix@ == "Error executing tool: "@,
                None => r matches RepositoryExecution::MissingToolName(a)
                    && !a.success && a.result is None && a.error is Some
                    && a.error->0@ == "No tool_name provided in parameters"@,
            },
        },
{
    proof {
        reveal_strlit("Error executing server tool: ");
        reveal_strlit("Error executing tool: ");
        reveal_strlit("No tool_name provided in parameters");
        reveal_strlit("tool_name");
    }
    match split_proxy_id(req.tool_id.as_str()) {
        Some((server_id, tool_id)) => RepositoryExecution::Run {
            server_id, tool_id, prefix: owned("Error executing server tool: "),
        },
        None => match req.parameters.str_field("tool_name") {
            Some(n) => RepositoryExecution::Run {
                server_id: req.tool_id.clone(), tool_id: n.clone(), prefix: owned("Error executing tool: "),
            },
            None => RepositoryExecution::MissingToolName(ToolExecutionResponse {
                success: false, result: None, error: Some(owned("No tool_name provided in parameters")),
            }),
        },
    }
}

/// The tool that the registry repository runs: the `tool_name` parameter,
/// `hello_world` when there is none.
pub fn registry_tool_name(params: &Json) -> (r: String)
    ensures
        r@ == match named_tool(params.view()) { Some(n) => n, None => "hello_world"@ },
{
    proof {
        reveal_strlit("tool_name");
        reveal_strlit("hello_world");
    }
    match params.str_field("tool_name") {
        Some(n) => n.clone(),
        None => owned("hello_world"),
    }
}

/// `enabled` or `disabled`.
pub open spec fn state_word(enabled: bool) -> Seq<char> {
    if enabled { "enabled"@ } else { "disabled"@ }
}

fn state_text(enabled: bool) -> (r: &'static str)
    ensures
        r@ == state_word(enabled),
{
    proof {
        reveal_strlit("enabled");
        reveal_strlit("disabled");
    }
    if enabled { "enabled" } else { "disabled" }
}

/// The application's answer once a tool was enabled or disabled.
pub fn tool_update_done(tool_id: &str, enabled: bool) -> (r: ToolUpdateResponseDTO)
    ensures
        r.success,
        r.message@ == "Tool '"@ + tool_id@ + "' "@ + state_word(enabled) + " successfully"@,
{
    proof {
        reveal_strlit("Tool '");
        reveal_strlit("' ");
        reveal_strlit(" successfully");
    }
    let mut m = join4("Tool '", tool_id, "' ", state_text(enabled));
    m.append(" successfully");
    ToolUpdateResponseDTO { success: true, message: m }
}

/// The domain's answers while changing a tool's status.
pub enum StatusStep {
    NotFound,
    SaveFailed(DomainError),
    RestartFailed(DomainError),
    Done,
}

/// The domain's answer to a status change, given how far it got.
pub fn status_update_response(tool_id: &str, enabled: bool, step: StatusStep) -> (r: ToolUpdateResponse)
    ensures
        match step {
            StatusStep::NotFound => !r.success && r.message@ == "Tool with ID '"@ + tool_id@ + "' not found"@,
            StatusStep::SaveFailed(e) => !r.success && r.message@ == "Failed to update tool: "@ + error_text(e),
            StatusStep::RestartFailed(e) => !r.success && r.message@ == error_text(e),
            StatusStep::Done => r.success && r.message@ == "Tool '"@ + tool_id@ + "' status updated to "@ + state_word(enabled),
        },
{
    proof {
        reveal_strlit("Tool with ID '");
        reveal_strlit("' not found");
        reveal_strlit("Failed to update tool: ");
        reveal_strlit("Tool '");
        reveal_strlit("' status updated to ");
    }
    match step {
        StatusStep::NotFound => ToolUpdateResponse { success: false, message: join3("Tool with ID '", tool_id, "' not found") },
        StatusStep::SaveFailed(e) => {
            let t = e.message();
            ToolUpdateResponse { success: false, message: join2("Failed to update tool: ", t.as_str()) }
        }
        StatusStep::RestartFailed(e) => ToolUpdateResponse { success: false, message: e.message() },
        StatusStep::Done => ToolUpdateResponse {
            success: true,
            message: join4("Tool '", tool_id, "' status updated to ", state_text(enabled)),
        },
    }
}

/// A tool with its `enabled` flag set.
pub fn with_enabled(t: Tool, enabled: bool) -> (r: Tool)
    ensures
        r == (Tool { enabled, ..t }),
{
    let mut t = t;
    t.enabled = enabled;
    t
}

/// A copy of a string map.
pub fn clone_string_map(m: &StrMap<String>) -> (r: StrMap<String>)
    requires
        m.wf(),
    ensures
        r.wf(),
        text_map(r@) == text_map(m@),
{
    let mut out: StrMap<String> = StrMap::new();
    let mut i: usize = 0;
    while i < m.len()
        invariant
            m.wf(),
            out.wf(),
            i <= m.entries().len(),
            forall|k: Seq<char>| #[trigger] out@.contains_key(k) ==
                (exists|j: int| 0 <= j < i && m.entries()[j].0@ == k),
            forall|k: Seq<char>| #[trigger] out@.contains_key(k) ==> m@.contains_key(k) && out@[k]@ == m@[k]@,
        decreases m.entries().len() - i,
    {
        let (k, v) = m.entry(i);
        proof { m.lemma_entry(i as int); }
        out.insert(k.clone(), v.clone());
        i = i + 1;
    }
    proof {
        assert forall|k: Seq<char>| #[trigger] m@.contains_key(k) implies out@.contains_key(k) by {
            m.lemma_keys(k);
            let j = choose|j: int| 0 <= j < m.entries().len() && #[trigger] m.entries()[j].0@ == k;
        }
        assert(text_map(out@) =~= text_map(m@));
    }
    out
}

/// The application's configuration update: the tool's environment becomes
/// exactly the given one, its command and arguments stay.
pub fn replace_env(t: Tool, env: Option<StrMap<String>>) -> (r: Tool)
    ensures
        r.name == t.name && r.description == t.description && r.enabled == t.enabled
            && r.tool_type == t.tool_type && r.entry_point == t.entry_point
            && r.configuration == t.configuration && r.distribution == t.distribution
            && r.authentication == t.authentication,
        r.config is Some,
        r.config->0.env == env,
        r.config->0.command == match t.config { Some(c) => c.command, None => None },
        r.config->0.args == match t.config { Some(c) => c.args, None => None },
{
    let mut t = t;
    let (command, args) = match t.config {
        Some(c) => (c.command, c.args),
        None => (None, None),
    };
    t.config = Some(ToolConfig { env, command, args });
    t
}

/// The environment after the domain's configuration update: the tool's
/// variables with the given ones set over them.
pub open spec fn merged_env(old: Option<ToolConfig>, new_env: Option<StrMap<String>>) -> Map<Seq<char>, Seq<char>> {
    let base = match old {
        Some(c) => match c.env { Some(e) => text_map(e@), None => Map::empty() },
        None => Map::empty(),
    };
    match new_env {
        Some(n) => base.union_prefer_right(text_map(n@)),
        None => base,
    }
}

/// The domain's configuration update: a missing `config` or environment is
/// created, then every given variable is set, the others kept.
pub fn merge_env(t: Tool, new_env: &Option<StrMap<String>>) -> (r: Tool)
    requires
        t.config is Some && t.config->0.env is Some ==> t.config->0.env->0.wf(),
        new_env is Some ==> new_env->0.wf(),
    ensures
        r.name == t.name && r.description == t.description && r.enabled == t.enabled
            && r.tool_type == t.tool_type && r.entry_point == t.entry_point
            && r.configuration == t.configuration && r.distribution == t.distribution
            && r.authentication == t.authentication,
        r.config is Some && r.config->0.env is Some && r.config->0.env->0.wf(),
        text_map(r.config->0.env->0@) == merged_env(t.config, *new_env),
        r.config->0.command == match t.config { Some(c) => c.command, None => None },
        r.config->0.args == match t.config { Some(c) => c.args, None => None },
{
    let ghost old_config = t.config;
    let mut t = t;
    let (env, command, args) = match t.config {
        Some(c) => (c.env, c.command, c.args),
        None => (None, None, None),
    };
    let mut env = match env {
        Some(e) => e,
        None => StrMap::new(),
    };
    let ghost base = text_map(env@);
    assert(base =~= match old_config {
        Some(c) => match c.env { Some(e) => text_map(e@), None => Map::empty() },
        None => Map::empty(),
    });
    if let Some(n) = new_env {
        let mut i: usize = 0;
        while i < n.len()
            invariant
                n.wf(),
                env.wf(),
                i <= n.entries().len(),
                forall|k: Seq<char>| #[trigger] text_map(env@).contains_key(k) ==
                    (base.contains_key(k) || exists|j: int| 0 <= j < i && n.entries()[j].0@ == k),
                forall|k: Seq<char>| #[trigger] text_map(env@).contains_key(k) ==>
                    text_map(env@)[k] == if (exists|j: int| 0 <= j < i && n.entries()[j].0@ == k) {
                        text_map(n@)[k]
                    } else {
                        base[k]
                    },
            decreases n.entries().len() - i,
        {
            let (k, v) = n.entry(i);
            proof { n.lemma_entry(i as int); }
            let ghost pre = env@;
            env.insert(k.clone(), v.clone());
            proof {
                assert forall|q: Seq<char>| #[trigger] text_map(env@).contains_key(q) implies
                    text_map(env@)[q] == if (exists|j: int| 0 <= j < i + 1 && n.entries()[j].0@ == q) {
                        text_map(n@)[q]
                    } else {
                        base[q]
                    } by {
                    if q == k@ {
                        assert(n.entries()[i as int].0@ == q);
                    } else {
                        assert(text_map(pre).contains_key(q));
                        if exists|j: int| 0 <= j < i + 1 && n.entries()[j].0@ == q {
                            let j = choose|j: int| 0 <= j < i + 1 && n.entries()[j].0@ == q;
                            assert(j != i);
                            assert(exists|j: int| 0 <= j < i && n.entries()[j].0@ == q);
                        } else {
                            assert(!exists|j: int| 0 <= j < i && n.entries()[j].0@ == q);
                        }
                    }
                }
                assert forall|q: Seq<char>| #[trigger] text_map(env@).contains_key(q) ==
                    (base.contains_key(q) || exists|j: int| 0 <= j < i + 1 && n.entries()[j].0@ == q) by {
                    assert(text_map(pre).contains_key(q) ==
                        (base.contains_key(q) || exists|j: int| 0 <= j < i && n.entries()[j].0@ == q));
                    if q == k@ {
                        assert(n.entries()[i as int].0@ == q);
                    } else if exists|j: int| 0 <= j < i + 1 && n.entries()[j].0@ == q {
                        let j = choose|j: int| 0 <= j < i + 1 && n.entries()[j].0@ == q;
                        assert(j != i);
                        assert(exists|j: int| 0 <= j < i && n.entries()[j].0@ == q);
                    }
                }
            }
            i = i + 1;
        }
        proof {
            assert forall|k: Seq<char>| #[trigger] text_map(n@).contains_key(k) implies
                (exists|j: int| 0 <= j < n.entries().len() && n.entries()[j].0@ == k) by {
                n.lemma_keys(k);
                let j = choose|j: int| 0 <= j < n.entries().len() && #[trigger] n.entries()[j].0@ == k;
            }
            assert forall|k: Seq<char>| (exists|j: int| 0 <= j < n.entries().len() && n.entries()[j].0@ == k)
                implies #[trigger] text_map(n@).contains_key(k) by {
                let j = choose|j: int| 0 <= j < n.entries().len() && n.entries()[j].0@ == k;
                n.lemma_entry(j);
            }
            assert(text_map(env@) =~= base.union_prefer_right(text_map(n@)));
        }
    }
    t.config = Some(ToolConfig { env: Some(env), command, args });
    t
}

/// The application's answer once a configuration was stored.
pub fn config_update_done(tool_id: &str) -> (r: ToolConfigUpdateResponseDTO)
    ensures
        r.success,
        r.message@ == "Tool '"@ + tool_id@ + "' configuration updated successfully"@,
{
    proof {
        reveal_strlit("Tool '");
        reveal_strlit("' configuration updated successfully");
    }
    ToolConfigUpdateResponseDTO { success: true, message: join3("Tool '", tool_id, "' configuration updated successfully") }
}

/// The domain's answer to a configuration update: not found, or stored.
pub fn config_update_response(tool_id: &str, found: bool) -> (r: ToolConfigUpdateResponse)
    ensures
        r.success == found,
        found ==> r.message@ == "Tool '"@ + tool_id@ + "' configuration updated"@,
        !found ==> r.message@ == "Tool with ID '"@ + tool_id@ + "' not found"@,
{
    proof {
        reveal_strlit("Tool '");
        reveal_strlit("' configuration updated");
        reveal_strlit("Tool with ID '");
        reveal_strlit("' not found");
    }
    if found {
        ToolConfigUpdateResponse { success: true, message: join3("Tool '", tool_id, "' configuration updated") }
    } else {
        ToolConfigUpdateResponse { success: false, message: join3("Tool with ID '", tool_id, "' not found") }
    }
}

/// How an uninstall went.
pub enum UninstallStep {
    NotFound(DomainError),
    DeleteFailed(DomainError),
    Done,
}

/// The application's answer to an uninstall.
pub fn uninstall_response(tool_id: &str, step: UninstallStep) -> (r: ToolUninstallResponseDTO)
    ensures
        match step {
            UninstallStep::NotFound(e) => !r.success && r.message@ == "Failed to uninstall tool: "@ + error_text(e),
            UninstallStep::DeleteFailed(e) => !r.success && r.message@ == "Failed to uninstall tool: "@ + error_text(e),
            UninstallStep::Done => r.success && r.message@ == "Tool '"@ + tool_id@ + "' uninstalled successfully"@,
        },
{
    proof {
        reveal_strlit("Failed to uninstall tool: ");
        reveal_strlit("Tool '");
        reveal_strlit("' uninstalled successfully");
    }
    match step {
        UninstallStep::NotFound(e) | UninstallStep::DeleteFailed(e) => {
            let t = e.message();
            ToolUninstallResponseDTO { success: false, message: join2("Failed to uninstall tool: ", t.as_str()) }
        }
        UninstallStep::Done => ToolUninstallResponseDTO {
            success: true, message: join3("Tool '", tool_id, "' uninstalled successfully"),
        },
    }
}

/// The domain's answer to an uninstall.
pub fn domain_uninstall_response(tool_id: &str, step: UninstallStep) -> (r: ToolUninstallResponse)
    ensures
        match step {
            UninstallStep::NotFound(_) => !r.success && r.message@ == "Tool with ID '"@ + tool_id@ + "' not found"@,
            UninstallStep::DeleteFailed(e) => !r.success && r.message@ == "Failed to delete tool: "@ + error_text(e),
            UninstallStep::Done => r.success && r.message@ == "Tool uninstalled successfully"@,
        },
{
    proof {
        reveal_strlit("Tool with ID '");
        reveal_strlit("' not found");
        reveal_strlit("Failed to delete tool: ");
        reveal_strlit("Tool uninstalled successfully");
    }
    match step {
        UninstallStep::NotFound(_) => ToolUninstallResponse {
            success: false, message: join3("Tool with ID '", tool_id, "' not found"),
        },
        UninstallStep::DeleteFailed(e) => {
            let t = e.message();
            ToolUninstallResponse { success: false, message: join2("Failed to delete tool: ", t.as_str()) }
        }
        UninstallStep::Done => ToolUninstallResponse { success: true, message: owned("Tool uninstalled successfully") },
    }
}

/// The answer to a discovery request for a server that is not registered.
pub fn discovery_unknown_server(server_id: &str) -> (r: DiscoverServerToolsResponse)
    ensures
        !r.success && r.tools is None && r.error is Some,
        r.error->0@ == "Server with ID '"@ + server_id@ + "' not found"@,
{
    proof {
        reveal_strlit("Server with ID '");
        reveal_strlit("' not found");
    }
    DiscoverServerToolsResponse { success: false, tools: None, error: Some(join3("Server with ID '", server_id, "' not found")) }
}

/// The answer to a discovery request, given what the server reported.
pub fn discovery_response(outcome: Result<Vec<Json>, DomainError>) -> (r: DiscoverServerToolsResponse)
    ensures
        match outcome {
            Ok(tools) => r.success && r.tools == Some(tools) && r.error is None,
            Err(e) => !r.success && r.tools is None && r.error is Some
                && r.error->0@ == "Failed to discover tools: "@ + error_text(e),
        },
{
    proof { reveal_strlit("Failed to discover tools: "); }
    match outcome {
        Ok(tools) => DiscoverServerToolsResponse { success: true, tools: Some(tools), error: None },
        Err(e) => {
            let t = e.message();
            DiscoverServerToolsResponse { success: false, tools: None, error: Some(join2("Failed to discover tools: ", t.as_str())) }
        }
    }
}

/// What came of the last action of the domain's configuration update.
pub enum DomainConfigEvent {
    Begin,
    /// Looking the tool up gave this (`None`: it is not registered).
    Found(Option<Tool>),
    /// Saving the updated tool went so.
    Saved(Result<(), DomainError>),
}

/// What the domain's configuration update does next.
pub enum DomainConfigAction {
    Lookup,
    Save(Tool),
    Fail(String),
    Answer(ToolConfigUpdateResponse),
}

/// One step of the domain's update of tool `request.tool_id`'s environment:
/// a tool that is not registered is answered so; otherwise the tool with the
/// given variables merged into its environment is saved; a failed save
/// fails the update with the error's text.
pub fn domain_config_step(request: &ToolConfigUpdateRequest, event: DomainConfigEvent) -> (r: DomainConfigAction)
    requires
        request.config.env is Some ==> request.config.env->0.wf(),
        event matches DomainConfigEvent::Found(Some(t)) ==> (t.config is Some && t.config->0.env is Some
            ==> t.config->0.env->0.wf()),
    ensures
        match event {
            DomainConfigEvent::Begin => r is Lookup,
            DomainConfigEvent::Found(None) => r matches DomainConfigAction::Answer(a) && !a.success
                && a.message@ == "Tool with ID '"@ + request.tool_id@ + "' not found"@,
            DomainConfigEvent::Found(Some(t)) => r matches DomainConfigAction::Save(u)
                && u.name == t.name && u.description == t.description && u.enabled == t.enabled
                && u.tool_type == t.tool_type && u.entry_point == t.entry_point
                && u.configuration == t.configuration && u.distribution == t.distribution
                && u.authentication == t.authentication
                && u.config is Some && u.config->0.env is Some && u.config->0.env->0.wf()
                && text_map(u.config->0.env->0@) == merged_env(t.config, request.config.env)
                && u.config->0.command == (match t.config { Some(c) => c.command, None => None })
                && u.config->0.args == (match t.config { Some(c) => c.args, None => None }),
            DomainConfigEvent::Saved(Err(e)) => r matches DomainConfigAction::Fail(m) && m@ == error_text(e),
            DomainConfigEvent::Saved(Ok(())) => r matches DomainConfigAction::Answer(a) && a.success
                && a.message@ == "Tool '"@ + request.tool_id@ + "' configuration updated"@,
        },
{
    proof {
        reveal_strlit("Tool with ID '");
        reveal_strlit("' not found");
        reveal_strlit("Tool '");
        reveal_strlit("' configuration updated");
    }
    let id = request.tool_id.as_str();
    match event {
        DomainConfigEvent::Begin => DomainConfigAction::Lookup,
        DomainConfigEvent::Found(None) => DomainConfigAction::Answer(ToolConfigUpdateResponse {
            success: false, message: join3("Tool with ID '", id, "' not found"),
        }),
        DomainConfigEvent::Found(Some(t)) => DomainConfigAction::Save(merge_env(t, &request.config.env)),
        DomainConfigEvent::Saved(Err(e)) => DomainConfigAction::Fail(e.message()),
        DomainConfigEvent::Saved(Ok(())) => DomainConfigAction::Answer(ToolConfigUpdateResponse {
            success: true, message: join3("Tool '", id, "' configuration updated"),
        }),
    }
}

} // verus!
