//! The core's bookkeeping of the servers it runs: what it lists, which
//! servers it starts, what a discovery stores, and the answers to status
//! changes, restarts, uninstalls and proxied executions.
use vstd::prelude::*;
use crate::entities::{DomainError, ToolExecutionResponse, ToolUpdateResponse};
use crate::json::{Json, JsonV, clone_elements, views};
use crate::registration::texts;
use crate::server_model::{RuntimeServer, ServerDefinition, ServerUninstallResponse, not_found_message,
    status_changed_message};
use crate::services::{proxy_parts, split_proxy_id};
use crate::strmap::StrMap;
use crate::text::{join2, join3, owned};

verus! {

/// The number of tools recorded for server `id`: none when nothing is recorded.
pub open spec fn recorded_tool_count(server_tools: Map<Seq<char>, Vec<Json>>, id: Seq<char>) -> nat {
    if server_tools.contains_key(id) { server_tools[id]@.len() } else { 0 }
}

/// Whether `r` lists the server `(id, d)`: its definition, identifier,
/// whether a process is recorded for it and how many tools it offers.
pub open spec fn lists_server(r: RuntimeServer, id: String, d: ServerDefinition,
    processes: Map<Seq<char>, bool>, server_tools: Map<Seq<char>, Vec<Json>>) -> bool {
    &&& r.id@ == id@
    &&& r.definition == d
    &&& r.process_running == processes.contains_key(id@)
    &&& r.tool_count == recorded_tool_count(server_tools, id@)
}

/// Lists every registered server, in order, with its runtime state.
pub fn list_servers(defs: StrMap<ServerDefinition>, processes: &StrMap<bool>, server_tools: &StrMap<Vec<Json>>)
    -> (r: Vec<RuntimeServer>)
    requires
        processes.wf(),
        server_tools.wf(),
    ensures
        r@.len() == defs.entries().len(),
        forall|i: int| 0 <= i < r@.len() ==> lists_server(#[trigger] r@[i], defs.entries()[i].0,
            defs.entries()[i].1, processes@, server_tools@),
{
    let ghost all = defs.entries();
    let mut rest = defs.entries;
    let mut out: Vec<RuntimeServer> = Vec::new();
    while rest.len() > 0
        invariant
            out@.len() + rest@.len() == all.len(),
            rest@ == all.skip(out@.len() as int),
            processes.wf(),
            server_tools.wf(),
            forall|i: int| 0 <= i < out@.len() ==> lists_server(#[trigger] out@[i], all[i].0, all[i].1,
                processes@, server_tools@),
        decreases rest@.len(),
    {
        let ghost n = out@.len();
        let (id, d) = rest.remove(0);
        assert(all[n as int] == (id, d));
        let process_running = processes.contains_key(id.as_str());
        let tool_count: usize = match server_tools.get(id.as_str()) {
            Some(tools) => tools.len(),
            None => 0,
        };
        out.push(RuntimeServer { definition: d, id, process_running, tool_count });
        assert(rest@ =~= all.skip(out@.len() as int));
    }
    out
}

/// The identifiers of the enabled servers among `s`, in order.
pub open spec fn enabled_ids(s: Seq<(String, ServerDefinition)>) -> Seq<Seq<char>>
    decreases s.len(),
{
    if s.len() == 0 {
        Seq::empty()
    } else {
        let rest = enabled_ids(s.drop_last());
        if s.last().1.enabled { rest.push(s.last().0@) } else { rest }
    }
}

/// The servers that the core starts when it initializes: the enabled ones,
/// in order.
pub fn enabled_servers(defs: &StrMap<ServerDefinition>) -> (r: Vec<String>)
    ensures
        texts(r@) == enabled_ids(defs.entries()),
{
    let mut out: Vec<String> = Vec::new();
    let mut i: usize = 0;
    while i < defs.len()
        invariant
            i <= defs.entries().len(),
            texts(out@) == enabled_ids(defs.entries().take(i as int)),
        decreases defs.entries().len() - i,
    {
        let (id, d) = defs.entry(i);
        assert(defs.entries().take(i + 1).drop_last() =~= defs.entries().take(i as int));
        if d.enabled {
            out.push(id.clone());
            assert(texts(out@) =~= enabled_ids(defs.entries().take(i + 1)));
        } else {
            assert(texts(out@) =~= enabled_ids(defs.entries().take(i + 1)));
        }
        i = i + 1;
    }
    assert(defs.entries().take(i as int) =~= defs.entries());
    out
}

proof fn lemma_enabled_ids(s: Seq<(String, ServerDefinition)>, id: Seq<char>)
    ensures
        enabled_ids(s).contains(id) <==> exists|i: int| 0 <= i < s.len() && #[trigger] s[i].0@ == id && s[i].1.enabled,
    decreases s.len(),
{
    if s.len() > 0 {
        let t = s.drop_last();
        lemma_enabled_ids(t, id);
        if enabled_ids(s).contains(id) {
            if s.last().1.enabled && id == s.last().0@ {
                assert(s[s.len() - 1].0@ == id);
            } else {
                if s.last().1.enabled {
                    let j = choose|j: int| 0 <= j < enabled_ids(s).len() && enabled_ids(s)[j] == id;
                    assert(enabled_ids(t)[j] == id);
                }
                let i = choose|i: int| 0 <= i < t.len() && #[trigger] t[i].0@ == id && t[i].1.enabled;
                assert(s[i] == t[i]);
            }
        } else {
            assert forall|i: int| 0 <= i < s.len() && #[trigger] s[i].0@ == id implies !s[i].1.enabled by {
                if i < t.len() {
                    assert(s[i] == t[i]);
                    if s[i].1.enabled {
                        assert(enabled_ids(t).contains(id));
                        let j = choose|j: int| 0 <= j < enabled_ids(t).len() && enabled_ids(t)[j] == id;
                        if s.last().1.enabled {
                            assert(enabled_ids(s)[j] == id);
                        }
                    }
                } else if s.last().1.enabled {
                    assert(enabled_ids(s)[enabled_ids(s).len() - 1] == id);
                }
            }
        }
    }
}

/// A server is started when the core initializes exactly when it is
/// registered and enabled.
pub proof fn law_started_servers_are_the_enabled_ones(defs: StrMap<ServerDefinition>, id: Seq<char>)
    requires
        defs.wf(),
    ensures
        enabled_ids(defs.entries()).contains(id) <==> (defs@.contains_key(id) && defs@[id].enabled),
{
    lemma_enabled_ids(defs.entries(), id);
    if defs@.contains_key(id) {
        let i = choose|i: int| 0 <= i < defs.entries().len() && #[trigger] defs.entries()[i].0@ == id;
        defs.lemma_entry(i);
    }
    if enabled_ids(defs.entries()).contains(id) {
        let i = choose|i: int| 0 <= i < defs.entries().len() && #[trigger] defs.entries()[i].0@ == id && defs.entries()[i].1.enabled;
        defs.lemma_entry(i);
    }
}

/// How asking a server for its tools went.
pub enum DiscoveryAttempt {
    /// No process runs for the server.
    NotRunning,
    /// A process runs but no connection to it is kept.
    NoConnection,
    /// The server was asked and the exchange failed.
    Failed(String),
    /// The server listed these tools.
    Found(Vec<Json>),
}

/// The outcome of asking server `server_id` for its tools: the tools it
/// listed, which are recorded as its tools (replacing what was recorded),
/// or an error, which leaves the record unchanged.
pub fn server_tools_outcome(server_id: &str, attempt: DiscoveryAttempt, server_tools: &mut StrMap<Vec<Json>>)
    -> (r: Result<Vec<Json>, String>)
    requires
        old(server_tools).wf(),
    ensures
        final(server_tools).wf(),
        match attempt {
            DiscoveryAttempt::NotRunning => r is Err
                && r->Err_0@ == "Server with ID '"@ + server_id@ + "' is not running"@
                && final(server_tools)@ == old(server_tools)@,
            DiscoveryAttempt::NoConnection => r is Err
                && r->Err_0@ == "Failed to discover tools: Server "@ + server_id@ + " not found or not running"@
                && final(server_tools)@ == old(server_tools)@,
            DiscoveryAttempt::Failed(e) => r is Err
                && r->Err_0@ == "Failed to discover tools: "@ + e@
                && final(server_tools)@ == old(server_tools)@,
            DiscoveryAttempt::Found(tools) => r == Ok::<Vec<Json>, String>(tools)
                && final(server_tools)@.dom() == old(server_tools)@.dom().insert(server_id@)
                && views(final(server_tools)@[server_id@]@) == views(tools@)
                && forall|k: Seq<char>| k != server_id@ && #[trigger] old(server_tools)@.contains_key(k)
                    ==> final(server_tools)@[k] == old(server_tools)@[k],
        },
{
    proof {
        reveal_strlit("Server with ID '");
        reveal_strlit("' is not running");
        reveal_strlit("Failed to discover tools: Server ");
        reveal_strlit(" not found or not running");
        reveal_strlit("Failed to discover tools: ");
    }
    match attempt {
        DiscoveryAttempt::NotRunning => Err(join3("Server with ID '", server_id, "' is not running")),
        DiscoveryAttempt::NoConnection => Err(join3("Failed to discover tools: Server ", server_id, " not found or not running")),
        DiscoveryAttempt::Failed(e) => Err(join2("Failed to discover tools: ", e.as_str())),
        DiscoveryAttempt::Found(tools) => {
            let stored = clone_elements(&tools);
            server_tools.insert(owned(server_id), stored);
            Ok(tools)
        }
    }
}

/// The server and tool that a proxied execution targets, or the error for
/// an identifier that is not of the form `server_id:tool_id`.
pub fn proxy_target(tool_id: &str) -> (r: Result<(String, String), String>)
    ensures
        match proxy_parts(tool_id@) {
            Some((a, b)) => r matches Ok((x, y)) && x@ == a && y@ == b,
            None => r is Err && r->Err_0@ == "Invalid tool_id format. Expected 'server_id:tool_id'"@,
        },
{
    proof { reveal_strlit("Invalid tool_id format. Expected 'server_id:tool_id'"); }
    match split_proxy_id(tool_id) {
        Some(p) => Ok(p),
        None => Err(owned("Invalid tool_id format. Expected 'server_id:tool_id'")),
    }
}

/// The answer to a proxied execution: the result, or the error's text.
pub fn proxy_execution_response(result: Result<Json, String>) -> (r: ToolExecutionResponse)
    ensures
        match result {
            Ok(v) => r.success && r.result == Some(v) && r.error is None,
            Err(e) => !r.success && r.result is None && r.error == Some(e),
        },
{
    match result {
        Ok(v) => ToolExecutionResponse { success: true, result: Some(v), error: None },
        Err(e) => ToolExecutionResponse { success: false, result: None, error: Some(e) },
    }
}

/// The answer to a proxied execution on a server to which no connection
/// is kept: it failed, with the not-found error's text.
pub fn unconnected_response(server_id: &str) -> (r: ToolExecutionResponse)
    ensures
        !r.success,
        r.result is None,
        r.error matches Some(e) && e@ == "Server not found: "@ + server_id@,
{
    let e = DomainError::ServerNotFound(owned(server_id));
    proof { reveal_strlit("Server not found: "); }
    ToolExecutionResponse { success: false, result: None, error: Some(e.message()) }
}

/// How a change of a server's status went.
pub enum StatusChange {
    /// The server is not registered.
    NotFound,
    /// Its running process could not be killed.
    KillFailed(String),
    /// Storing the change or restarting the server failed.
    Failed(String),
    /// The change was stored and the process started or stopped.
    Done,
}

/// The answer to a change of server `server_id`'s status to `enabled`.
pub fn server_status_response(server_id: &str, enabled: bool, change: StatusChange) -> (r: ToolUpdateResponse)
    ensures
        match change {
            StatusChange::NotFound => !r.success && r.message@ == "Tool with ID '"@ + server_id@ + "' not found"@,
            StatusChange::KillFailed(e) => !r.success && r.message@ == "Failed to kill process: "@ + e@,
            StatusChange::Failed(e) => !r.success && r.message == e,
            StatusChange::Done => r.success && r.message@ == "Tool '"@ + server_id@ + "' status updated to "@
                + (if enabled { "enabled"@ } else { "disabled"@ }) + " and process "@
                + (if enabled { "started"@ } else { "stopped"@ }),
        },
{
    proof { reveal_strlit("Failed to kill process: "); }
    match change {
        StatusChange::NotFound => ToolUpdateResponse { success: false, message: not_found_message(server_id) },
        StatusChange::KillFailed(e) => ToolUpdateResponse { success: false, message: join2("Failed to kill process: ", e.as_str()) },
        StatusChange::Failed(e) => ToolUpdateResponse { success: false, message: e },
        StatusChange::Done => ToolUpdateResponse { success: true, message: status_changed_message(server_id, enabled) },
    }
}

/// How an uninstall of a server went.
pub enum ServerUninstallStep {
    NotFound,
    KillFailed(String),
    DeleteFailed(String),
    Done,
}

/// The answer to the uninstall of server `server_id`.
pub fn server_uninstall_response(server_id: &str, step: ServerUninstallStep) -> (r: ServerUninstallResponse)
    ensures
        match step {
            ServerUninstallStep::NotFound => !r.success && r.message@ == "Tool with ID '"@ + server_id@ + "' not found"@,
            ServerUninstallStep::KillFailed(e) => !r.success && r.message@ == "Failed to kill process: "@ + e@,
            ServerUninstallStep::DeleteFailed(e) => !r.success && r.message@ == "Failed to delete tool: "@ + e@,
            ServerUninstallStep::Done => r.success && r.message@ == "Tool uninstalled successfully"@,
        },
{
    proof {
        reveal_strlit("Failed to kill process: ");
        reveal_strlit("Failed to delete tool: ");
        reveal_strlit("Tool uninstalled successfully");
    }
    match step {
        ServerUninstallStep::NotFound => ServerUninstallResponse { success: false, message: not_found_message(server_id) },
        ServerUninstallStep::KillFailed(e) => ServerUninstallResponse {
            success: false, message: join2("Failed to kill process: ", e.as_str()),
        },
        ServerUninstallStep::DeleteFailed(e) => ServerUninstallResponse {
            success: false, message: join2("Failed to delete tool: ", e.as_str()),
        },
        ServerUninstallStep::Done => ServerUninstallResponse { success: true, message: owned("Tool uninstalled successfully") },
    }
}

/// The answer to a restart of server `server_id`: `None` when it is not
/// registered, else how the restart went.
pub fn restart_response(server_id: &str, restart: Option<Result<(), String>>) -> (r: ToolUpdateResponse)
    ensures
        match restart {
            None => !r.success && r.message@ == "Tool with ID '"@ + server_id@ + "' not found"@,
            Some(Ok(())) => r.success && r.message@ == "Tool '"@ + server_id@ + "' restarted successfully"@,
            Some(Err(e)) => !r.success && r.message@ == "Failed to restart tool: "@ + e@,
        },
{
    proof {
        reveal_strlit("Tool '");
        reveal_strlit("' restarted successfully");
        reveal_strlit("Failed to restart tool: ");
    }
    match restart {
        None => ToolUpdateResponse { success: false, message: not_found_message(server_id) },
        Some(Ok(())) => ToolUpdateResponse { success: true, message: join3("Tool '", server_id, "' restarted successfully") },
        Some(Err(e)) => ToolUpdateResponse { success: false, message: join2("Failed to restart tool: ", e.as_str()) },
    }
}


/// Whether a stored tool record says it is enabled: its `enabled` member
/// is `true`.
pub open spec fn record_enabled(record: JsonV) -> bool {
    record.field("enabled"@) == Some(JsonV::Bool(true))
}

/// The identifiers of the enabled records among `s`, in order.
pub open spec fn enabled_records(s: Seq<(String, Json)>) -> Seq<Seq<char>>
    decreases s.len(),
{
    if s.len() == 0 {
        Seq::empty()
    } else {
        let rest = enabled_records(s.drop_last());
        if record_enabled(s.last().1.view()) { rest.push(s.last().0@) } else { rest }
    }
}

/// The tools of a registry of JSON records that are restarted after loading:
/// those whose record says they are enabled, in order.
pub fn enabled_tool_ids(tools: &StrMap<Json>) -> (r: Vec<String>)
    ensures
        texts(r@) == enabled_records(tools.entries()),
{
    proof { reveal_strlit("enabled"); }
    let mut out: Vec<String> = Vec::new();
    let mut i: usize = 0;
    while i < tools.len()
        invariant
            i <= tools.entries().len(),
            texts(out@) == enabled_records(tools.entries().take(i as int)),
        decreases tools.entries().len() - i,
    {
        let (id, record) = tools.entry(i);
        assert(tools.entries().take(i + 1).drop_last() =~= tools.entries().take(i as int));
        let enabled = match record.get("enabled") {
            Some(Json::Bool(b)) => *b,
            _ => false,
        };
        if enabled {
            out.push(id.clone());
            assert(texts(out@) =~= enabled_records(tools.entries().take(i + 1)));
        } else {
            assert(texts(out@) =~= enabled_records(tools.entries().take(i + 1)));
        }
        i = i + 1;
    }
    assert(tools.entries().take(i as int) =~= tools.entries());
    out
}

} // verus!
