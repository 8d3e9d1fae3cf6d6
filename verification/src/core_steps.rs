//! The core's multi-step operations on its servers, each written as a step
//! function: given the request, what came of the last outside action (a
//! registry call, a process start or kill, a discovery), and the core's
//! tables, it updates the tables and says what to do next. The caller
//! performs each action and hands back its outcome, until an answer comes.
use vstd::prelude::*;
use crate::entities::{ToolConfigUpdateResponse, ToolUpdateResponse};
use crate::json::{Json, JsonV, views};
use crate::registration::text_map;
use crate::server_model::{ServerDefinition, ServerRegistrationRequest,
    ServerConfigUpdateRequest, ServerRegistrationResponse, ServerUpdateRequest, ServerUninstallResponse,
    config_applied, config_updated_message, default_env, default_values, not_found_message, update_server_env,
    definition_with_enabled, registration_definition, server_launch_config, server_launch_settings,
    server_registration_response};
use crate::server_ops::{DiscoveryAttempt, ServerUninstallStep, StatusChange, server_status_response,
    server_tools_outcome, server_uninstall_response};
use crate::strmap::StrMap;
use crate::text::owned;

verus! {

/// Whether a process is running for server `id`: one is recorded for it.
pub open spec fn process_running(processes: Map<Seq<char>, bool>, id: Seq<char>) -> bool {
    processes.contains_key(id) && processes[id]
}

/// Whether `after` is `before` with `id`'s tools replaced by `tools`.
pub open spec fn tools_recorded(before: Map<Seq<char>, Vec<Json>>, after: Map<Seq<char>, Vec<Json>>,
    id: Seq<char>, tools: Seq<JsonV>) -> bool {
    &&& after.dom() == before.dom().insert(id)
    &&& views(after[id]@) == tools
    &&& forall|k: Seq<char>| k != id && #[trigger] before.contains_key(k) ==> after[k] == before[k]
}

// ---------------------------------------------------------------------------
// Registering a server

/// What came of the last action of a server registration.
pub enum RegisterEvent {
    /// The registration begins with this request.
    Begin(ServerRegistrationRequest),
    /// Saving the definition to the registry went so; the definition is handed back.
    Saved(Result<(), String>, ServerDefinition),
    /// Starting the server's process went so.
    Spawned(Result<(), String>),
    /// Asking the started server for its tools went so (`None`: no answer in time).
    Discovered(Option<Result<Vec<Json>, String>>),
}

/// What a server registration does next.
pub enum RegisterAction {
    /// Save this definition in the registry under the server's identifier.
    Save(ServerDefinition),
    /// Start the server's process with these launch settings and environment.
    Spawn { launch: Json, env: Option<StrMap<String>> },
    /// Wait for the server, then ask it for its tools.
    Discover,
    /// The registration fails with this error.
    Fail(String),
    /// The registration is answered so.
    Answer(ServerRegistrationResponse),
}

/// Whether a definition's environment, if any, has distinct names.
pub open spec fn env_wf(d: ServerDefinition) -> bool {
    d.configuration is Some && d.configuration->0.env is Some ==> d.configuration->0.env->0.wf()
}

/// One step of registering server `server_id` (named `server_name`):
/// the definition is saved first; once saved the server gets an empty tool
/// list, which stays even when the registration then fails for want of a
/// configuration; its process is started with the launch settings and the
/// default values of its variables; a started process is recorded, and the
/// tools the server lists, if it answers, are recorded as its tools.
pub fn register_server_step(server_id: &str, server_name: &str, event: RegisterEvent,
    processes: &mut StrMap<bool>, server_tools: &mut StrMap<Vec<Json>>) -> (r: RegisterAction)
    requires
        old(processes).wf(),
        old(server_tools).wf(),
        event matches RegisterEvent::Saved(_, d) ==> env_wf(d),
    ensures
        final(processes).wf(),
        final(server_tools).wf(),
        match event {
            RegisterEvent::Begin(req) => r matches RegisterAction::Save(d)
                && d.name == req.server_name && d.description == req.description && d.enabled
                && d.tools_type == req.tools_type && d.entry_point is None
                && d.configuration == req.configuration && d.distribution == req.distribution
                && final(processes)@ == old(processes)@ && final(server_tools)@ == old(server_tools)@,
            RegisterEvent::Saved(Err(e), _) => r == RegisterAction::Fail(e)
                && final(processes)@ == old(processes)@ && final(server_tools)@ == old(server_tools)@,
            RegisterEvent::Saved(Ok(()), d) => {
                &&& final(processes)@ == old(processes)@
                &&& tools_recorded(old(server_tools)@, final(server_tools)@, server_id@, Seq::empty())
                &&& match server_launch_settings(d) {
                    None => r matches RegisterAction::Fail(m) && m@ == "Configuration is required for tools"@,
                    Some(s) => r matches RegisterAction::Spawn { launch, env } && launch.view() == s
                        && (match d.configuration->0.env {
                            Some(vars) => env matches Some(m) && m.wf() && text_map(m@) == default_values(vars@),
                            None => env is None,
                        }),
                }
            },
            RegisterEvent::Spawned(Err(e)) => r matches RegisterAction::Answer(a) && !a.success
                && a.message@ == "Tool registered but failed to start process: "@ + e@
                && a.tool_id is Some && a.tool_id->0@ == server_id@
                && final(processes)@ == old(processes)@ && final(server_tools)@ == old(server_tools)@,
            RegisterEvent::Spawned(Ok(())) => r is Discover
                && final(processes)@ == old(processes)@.insert(server_id@, true)
                && final(server_tools)@ == old(server_tools)@,
            RegisterEvent::Discovered(found) => {
                &&& r matches RegisterAction::Answer(a) && a.success
                    && a.message@ == "Tool '"@ + server_name@ + "' registered successfully"@
                    && a.tool_id is Some && a.tool_id->0@ == server_id@
                &&& final(processes)@ == old(processes)@
                &&& match found {
                    Some(Ok(tools)) => tools_recorded(old(server_tools)@, final(server_tools)@, server_id@, views(tools@)),
                    _ => final(server_tools)@ == old(server_tools)@,
                }
            },
        },
{
    proof { reveal_strlit("Configuration is required for tools"); }
    match event {
        RegisterEvent::Begin(req) => RegisterAction::Save(registration_definition(req)),
        RegisterEvent::Saved(Err(e), _) => RegisterAction::Fail(e),
        RegisterEvent::Saved(Ok(()), d) => {
            let empty: Vec<Json> = Vec::new();
            proof { assert(views(empty@) =~= Seq::<JsonV>::empty()); }
            let _ = server_tools_outcome(server_id, DiscoveryAttempt::Found(empty), server_tools);
            match server_launch_config(&d) {
                Err(m) => RegisterAction::Fail(m),
                Ok(launch) => {
                    let env = match &d.configuration {
                        Some(c) => match &c.env {
                            Some(vars) => Some(default_env(vars)),
                            None => None,
                        },
                        None => None,
                    };
                    RegisterAction::Spawn { launch, env }
                }
            }
        }
        RegisterEvent::Spawned(Err(e)) => {
            RegisterAction::Answer(server_registration_response(server_name, owned(server_id), Some(e.as_str())))
        }
        RegisterEvent::Spawned(Ok(())) => {
            processes.insert(owned(server_id), true);
            RegisterAction::Discover
        }
        RegisterEvent::Discovered(found) => {
            match found {
                Some(Ok(tools)) => {
                    let _ = server_tools_outcome(server_id, DiscoveryAttempt::Found(tools), server_tools);
                }
                _ => {}
            }
            RegisterAction::Answer(server_registration_response(server_name, owned(server_id), None))
        }
    }
}

// ---------------------------------------------------------------------------
// Changing a server's status

/// What came of the last action of a status change.
pub enum StatusEvent {
    /// The change begins.
    Begin,
    /// Looking the server up in the registry gave this (`None`: not registered).
    Found(Option<ServerDefinition>),
    /// Saving the changed definition went so.
    Saved(Result<(), String>),
    /// Killing the server's running process went so.
    Killed(Result<(), String>),
    /// Restarting the server went so.
    Restarted(Result<(), String>),
    /// Asking the restarted server for its tools went so (`None`: no connection to it).
    Discovered(Option<Result<Vec<Json>, String>>),
}

/// What a status change does next.
pub enum StatusAction {
    /// Look the server up in the registry.
    Lookup,
    /// Save this definition under the server's identifier.
    Save(ServerDefinition),
    /// Kill the server's running process.
    Kill,
    /// Restart the server.
    Restart,
    /// Ask the server for its tools.
    Discover,
    /// The change fails with this error.
    Fail(String),
    /// The change is answered so.
    Answer(ToolUpdateResponse),
}

/// The message of a completed status change.
pub open spec fn status_done_text(id: Seq<char>, enabled: bool) -> Seq<char> {
    "Tool '"@ + id + "' status updated to "@ + (if enabled { "enabled"@ } else { "disabled"@ })
        + " and process "@ + (if enabled { "started"@ } else { "stopped"@ })
}

/// One step of changing a server's status to `request.enabled`: a server
/// that is not registered is answered so; otherwise the definition is saved
/// with the new flag; enabling restarts the server and records the tools it
/// then lists; disabling kills a running process and forgets the process
/// and the server's tools. A failed kill or restart is answered with its
/// error, and leaves the tables as they were.
pub fn status_update_step(request: &ServerUpdateRequest, event: StatusEvent,
    processes: &mut StrMap<bool>, server_tools: &mut StrMap<Vec<Json>>) -> (r: StatusAction)
    requires
        old(processes).wf(),
        old(server_tools).wf(),
    ensures
        final(processes).wf(),
        final(server_tools).wf(),
        ({
            let id = request.server_id@;
            let unchanged = final(processes)@ == old(processes)@ && final(server_tools)@ == old(server_tools)@;
            let done = r matches StatusAction::Answer(a) && a.success && a.message@ == status_done_text(id, request.enabled);
            match event {
                StatusEvent::Begin => r is Lookup && unchanged,
                StatusEvent::Found(None) => r matches StatusAction::Answer(a) && !a.success
                    && a.message@ == "Tool with ID '"@ + id + "' not found"@ && unchanged,
                StatusEvent::Found(Some(d)) => r == StatusAction::Save(ServerDefinition { enabled: request.enabled, ..d })
                    && unchanged,
                StatusEvent::Saved(Err(e)) => r == StatusAction::Fail(e) && unchanged,
                StatusEvent::Saved(Ok(())) => unchanged && if request.enabled {
                    r is Restart
                } else if process_running(old(processes)@, id) {
                    r is Kill
                } else {
                    done
                },
                StatusEvent::Killed(Err(e)) => r matches StatusAction::Answer(a) && !a.success
                    && a.message@ == "Failed to kill process: "@ + e@ && unchanged,
                StatusEvent::Killed(Ok(())) => done
                    && final(processes)@ == old(processes)@.remove(id)
                    && final(server_tools)@ == old(server_tools)@.remove(id),
                StatusEvent::Restarted(Err(e)) => r matches StatusAction::Answer(a) && !a.success
                    && a.message == e && unchanged,
                StatusEvent::Restarted(Ok(())) => r is Discover
                    && final(processes)@ == old(processes)@.insert(id, true)
                    && final(server_tools)@ == old(server_tools)@,
                StatusEvent::Discovered(found) => done && final(processes)@ == old(processes)@
                    && match found {
                        Some(Ok(tools)) => tools_recorded(old(server_tools)@, final(server_tools)@, id, views(tools@)),
                        _ => final(server_tools)@ == old(server_tools)@,
                    },
            }
        }),
{
    let id = request.server_id.as_str();
    let enabled = request.enabled;
    match event {
        StatusEvent::Begin => StatusAction::Lookup,
        StatusEvent::Found(None) => StatusAction::Answer(server_status_response(id, enabled, StatusChange::NotFound)),
        StatusEvent::Found(Some(d)) => StatusAction::Save(definition_with_enabled(d, enabled)),
        StatusEvent::Saved(Err(e)) => StatusAction::Fail(e),
        StatusEvent::Saved(Ok(())) => {
            if enabled {
                StatusAction::Restart
            } else {
                let running = match processes.get(id) {
                    Some(p) => *p,
                    None => false,
                };
                if running {
                    StatusAction::Kill
                } else {
                    StatusAction::Answer(server_status_response(id, enabled, StatusChange::Done))
                }
            }
        }
        StatusEvent::Killed(Err(e)) => StatusAction::Answer(server_status_response(id, enabled, StatusChange::KillFailed(e))),
        StatusEvent::Killed(Ok(())) => {
            let _ = processes.remove(id);
            let _ = server_tools.remove(id);
            StatusAction::Answer(server_status_response(id, enabled, StatusChange::Done))
        }
        StatusEvent::Restarted(Err(e)) => StatusAction::Answer(server_status_response(id, enabled, StatusChange::Failed(e))),
        StatusEvent::Restarted(Ok(())) => {
            processes.insert(owned(id), true);
            StatusAction::Discover
        }
        StatusEvent::Discovered(found) => {
            match found {
                Some(Ok(tools)) => {
                    let _ = server_tools_outcome(id, DiscoveryAttempt::Found(tools), server_tools);
                }
                _ => {}
            }
            StatusAction::Answer(server_status_response(id, enabled, StatusChange::Done))
        }
    }
}

// ---------------------------------------------------------------------------
// Uninstalling a server

/// What came of the last action of an uninstall.
pub enum UninstallEvent {
    /// The uninstall begins.
    Begin,
    /// Looking the server up in the registry found it or not.
    Found(bool),
    /// Killing the server's running process went so.
    Killed(Result<(), String>),
    /// Deleting the server from the registry went so.
    Deleted(Result<(), String>),
}

/// What an uninstall does next.
pub enum UninstallAction {
    Lookup,
    Kill,
    Delete,
    Answer(ServerUninstallResponse),
}

/// One step of uninstalling server `server_id`: a server that is not
/// registered is answered so; a running process is killed first (a failed
/// kill is answered and changes nothing); then the process and the
/// server's tools are forgotten and the server is deleted from the registry.
pub fn uninstall_step(server_id: &str, event: UninstallEvent,
    processes: &mut StrMap<bool>, server_tools: &mut StrMap<Vec<Json>>) -> (r: UninstallAction)
    requires
        old(processes).wf(),
        old(server_tools).wf(),
    ensures
        final(processes).wf(),
        final(server_tools).wf(),
        ({
            let id = server_id@;
            let unchanged = final(processes)@ == old(processes)@ && final(server_tools)@ == old(server_tools)@;
            let forgotten = final(processes)@ == old(processes)@.remove(id)
                && final(server_tools)@ == old(server_tools)@.remove(id);
            match event {
                UninstallEvent::Begin => r is Lookup && unchanged,
                UninstallEvent::Found(false) => r matches UninstallAction::Answer(a) && !a.success
                    && a.message@ == "Tool with ID '"@ + id + "' not found"@ && unchanged,
                UninstallEvent::Found(true) => if process_running(old(processes)@, id) {
                    r is Kill && unchanged
                } else {
                    r is Delete && forgotten
                },
                UninstallEvent::Killed(Err(e)) => r matches UninstallAction::Answer(a) && !a.success
                    && a.message@ == "Failed to kill process: "@ + e@ && unchanged,
                UninstallEvent::Killed(Ok(())) => r is Delete && forgotten,
                UninstallEvent::Deleted(Err(e)) => r matches UninstallAction::Answer(a) && !a.success
                    && a.message@ == "Failed to delete tool: "@ + e@ && unchanged,
                UninstallEvent::Deleted(Ok(())) => r matches UninstallAction::Answer(a) && a.success
                    && a.message@ == "Tool uninstalled successfully"@ && unchanged,
            }
        }),
{
    match event {
        UninstallEvent::Begin => UninstallAction::Lookup,
        UninstallEvent::Found(false) => UninstallAction::Answer(server_uninstall_response(server_id, ServerUninstallStep::NotFound)),
        UninstallEvent::Found(true) => {
            let running = match processes.get(server_id) {
                Some(p) => *p,
                None => false,
            };
            if running {
                UninstallAction::Kill
            } else {
                let _ = processes.remove(server_id);
                let _ = server_tools.remove(server_id);
                UninstallAction::Delete
            }
        }
        UninstallEvent::Killed(Err(e)) => UninstallAction::Answer(server_uninstall_response(server_id, ServerUninstallStep::KillFailed(e))),
        UninstallEvent::Killed(Ok(())) => {
            let _ = processes.remove(server_id);
            let _ = server_tools.remove(server_id);
            UninstallAction::Delete
        }
        UninstallEvent::Deleted(Err(e)) => UninstallAction::Answer(server_uninstall_response(server_id, ServerUninstallStep::DeleteFailed(e))),
        UninstallEvent::Deleted(Ok(())) => UninstallAction::Answer(server_uninstall_response(server_id, ServerUninstallStep::Done)),
    }
}

// ---------------------------------------------------------------------------
// Updating a server's configuration

/// What came of the last action of a configuration update.
pub enum ConfigEvent {
    Begin,
    /// Looking the server up in the registry gave this (`None`: not registered).
    Found(Option<ServerDefinition>),
    /// Saving the updated definition went so.
    Saved(Result<(), String>),
}

/// What a configuration update does next.
pub enum ConfigAction {
    Lookup,
    Save(ServerDefinition),
    Fail(String),
    Answer(ToolConfigUpdateResponse),
}

/// One step of updating the environment of server `request.server_id`: a
/// server that is not registered is answered so; otherwise its definition
/// with the given variables set is saved, and a failed save fails the update.
pub fn config_update_step(request: &ServerConfigUpdateRequest, event: ConfigEvent) -> (r: ConfigAction)
    requires
        request.config.wf(),
        event matches ConfigEvent::Found(Some(d)) ==> env_wf(d),
    ensures
        match event {
            ConfigEvent::Begin => r is Lookup,
            ConfigEvent::Found(None) => r matches ConfigAction::Answer(a) && !a.success
                && a.message@ == "Tool with ID '"@ + request.server_id@ + "' not found"@,
            ConfigEvent::Found(Some(d)) => r matches ConfigAction::Save(d2) && config_applied(d, d2, request.config@),
            ConfigEvent::Saved(Err(e)) => r == ConfigAction::Fail(e),
            ConfigEvent::Saved(Ok(())) => r matches ConfigAction::Answer(a) && a.success
                && a.message@ == "Tool '"@ + request.server_id@ + "' configuration updated"@,
        },
{
    match event {
        ConfigEvent::Begin => ConfigAction::Lookup,
        ConfigEvent::Found(None) => ConfigAction::Answer(ToolConfigUpdateResponse {
            success: false, message: not_found_message(request.server_id.as_str()),
        }),
        ConfigEvent::Found(Some(d)) => ConfigAction::Save(update_server_env(d, &request.config)),
        ConfigEvent::Saved(Err(e)) => ConfigAction::Fail(e),
        ConfigEvent::Saved(Ok(())) => ConfigAction::Answer(ToolConfigUpdateResponse {
            success: true, message: config_updated_message(request.server_id.as_str()),
        }),
    }
}

} // verus!
