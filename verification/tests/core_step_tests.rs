use mcp_core::config::ToolConfig;
use mcp_core::core_steps::{config_update_step, register_server_step, status_update_step, uninstall_step,
    ConfigAction, ConfigEvent, RegisterAction, RegisterEvent, StatusAction, StatusEvent, UninstallAction,
    UninstallEvent};
use mcp_core::entities::{DomainError, Tool, ToolConfigUpdate, ToolConfigUpdateRequest, ToolConfiguration,
    ToolRegistrationRequest};
use mcp_core::json::Json;
use mcp_core::process::TokioProcessManager;
use mcp_core::registration::{register_tool_step, ToolRegistrationAction, ToolRegistrationEvent};
use mcp_core::server_model::{ServerConfigUpdateRequest, ServerConfiguration, ServerDefinition, ServerEnvironment,
    ServerRegistrationRequest, ServerUpdateRequest};
use mcp_core::services::{domain_config_step, domain_list_tools, DomainConfigAction, DomainConfigEvent};
use mcp_core::strmap::StrMap;

fn s(x: &str) -> Json {
    Json::Str(x.to_string())
}

fn request(configuration: Option<ServerConfiguration>) -> ServerRegistrationRequest {
    ServerRegistrationRequest {
        server_id: "srv".to_string(),
        server_name: "Server".to_string(),
        description: "d".to_string(),
        tools_type: "node".to_string(),
        configuration,
        distribution: None,
    }
}

fn config_with_env() -> ServerConfiguration {
    let mut env = StrMap::new();
    env.insert("KEY".to_string(), ServerEnvironment { description: "k".to_string(), default: Some("v".to_string()), required: true });
    env.insert("OTHER".to_string(), ServerEnvironment { description: "o".to_string(), default: None, required: false });
    ServerConfiguration { command: Some("npx".to_string()), args: Some(vec!["-y".to_string(), "pkg".to_string()]), env: Some(env) }
}

fn definition(enabled: bool) -> ServerDefinition {
    ServerDefinition {
        name: "Server".to_string(),
        description: "d".to_string(),
        enabled,
        tools_type: "node".to_string(),
        entry_point: None,
        configuration: None,
        distribution: None,
    }
}

#[test]
fn registration_without_configuration_fails_after_saving() {
    let mut processes: StrMap<bool> = StrMap::new();
    let mut tools: StrMap<Vec<Json>> = StrMap::new();
    let a = register_server_step("srv", "Server", RegisterEvent::Begin(request(None)), &mut processes, &mut tools);
    let d = match a {
        RegisterAction::Save(d) => d,
        _ => panic!("expected a save"),
    };
    assert!(d.enabled);
    assert_eq!(d.name, "Server");
    assert!(d.entry_point.is_none());
    let a = register_server_step("srv", "Server", RegisterEvent::Saved(Ok(()), d), &mut processes, &mut tools);
    match a {
        RegisterAction::Fail(m) => assert_eq!(m, "Configuration is required for tools"),
        _ => panic!("expected the configuration error"),
    }
    assert_eq!(tools.get("srv").map(|t| t.len()), Some(0));
    assert_eq!(processes.len(), 0);
}

#[test]
fn registration_save_error_is_the_error() {
    let mut processes: StrMap<bool> = StrMap::new();
    let mut tools: StrMap<Vec<Json>> = StrMap::new();
    let a = register_server_step("srv", "Server", RegisterEvent::Saved(Err("disk full".to_string()), definition(true)),
        &mut processes, &mut tools);
    match a {
        RegisterAction::Fail(m) => assert_eq!(m, "disk full"),
        _ => panic!("expected the save error"),
    }
    assert_eq!(tools.len(), 0);
}

#[test]
fn registration_starts_with_launch_settings_and_defaults() {
    let mut processes: StrMap<bool> = StrMap::new();
    let mut tools: StrMap<Vec<Json>> = StrMap::new();
    let mut d = definition(true);
    d.configuration = Some(config_with_env());
    let a = register_server_step("srv", "Server", RegisterEvent::Saved(Ok(()), d), &mut processes, &mut tools);
    match a {
        RegisterAction::Spawn { launch, env } => {
            assert!(matches!(launch.get("command"), Some(Json::Str(c)) if c == "npx"));
            match launch.get("args") {
                Some(Json::Array(items)) => {
                    assert_eq!(items.len(), 2);
                    assert!(matches!(&items[1], Json::Str(x) if x == "pkg"));
                }
                _ => panic!("expected the arguments"),
            }
            let env = env.expect("defaults");
            assert_eq!(env.len(), 1);
            assert_eq!(env.get("KEY").map(|v| v.as_str()), Some("v"));
        }
        _ => panic!("expected a spawn"),
    }
    let a = register_server_step("srv", "Server", RegisterEvent::Spawned(Err("no such file".to_string())),
        &mut processes, &mut tools);
    match a {
        RegisterAction::Answer(r) => {
            assert!(!r.success);
            assert_eq!(r.message, "Tool registered but failed to start process: no such file");
            assert_eq!(r.tool_id.as_deref(), Some("srv"));
        }
        _ => panic!("expected an answer"),
    }
    assert_eq!(processes.len(), 0);
}

#[test]
fn registration_records_process_and_tools() {
    let mut processes: StrMap<bool> = StrMap::new();
    let mut tools: StrMap<Vec<Json>> = StrMap::new();
    let a = register_server_step("srv", "Server", RegisterEvent::Spawned(Ok(())), &mut processes, &mut tools);
    assert!(matches!(a, RegisterAction::Discover));
    assert_eq!(processes.get("srv"), Some(&true));
    let a = register_server_step("srv", "Server", RegisterEvent::Discovered(Some(Ok(vec![s("t1"), s("t2")]))),
        &mut processes, &mut tools);
    match a {
        RegisterAction::Answer(r) => {
            assert!(r.success);
            assert_eq!(r.message, "Tool 'Server' registered successfully");
        }
        _ => panic!("expected an answer"),
    }
    assert_eq!(tools.get("srv").map(|t| t.len()), Some(2));
    let a = register_server_step("srv", "Server", RegisterEvent::Discovered(None), &mut processes, &mut tools);
    assert!(matches!(a, RegisterAction::Answer(r) if r.success));
    assert_eq!(tools.get("srv").map(|t| t.len()), Some(2));
}

fn update(enabled: bool) -> ServerUpdateRequest {
    ServerUpdateRequest { server_id: "srv".to_string(), enabled }
}

#[test]
fn status_change_of_unknown_server() {
    let mut processes: StrMap<bool> = StrMap::new();
    let mut tools: StrMap<Vec<Json>> = StrMap::new();
    assert!(matches!(status_update_step(&update(false), StatusEvent::Begin, &mut processes, &mut tools), StatusAction::Lookup));
    match status_update_step(&update(false), StatusEvent::Found(None), &mut processes, &mut tools) {
        StatusAction::Answer(r) => {
            assert!(!r.success);
            assert_eq!(r.message, "Tool with ID 'srv' not found");
        }
        _ => panic!("expected an answer"),
    }
}

#[test]
fn disabling_a_running_server_kills_and_forgets_it() {
    let mut processes: StrMap<bool> = StrMap::new();
    processes.insert("srv".to_string(), true);
    processes.insert("other".to_string(), true);
    let mut tools: StrMap<Vec<Json>> = StrMap::new();
    tools.insert("srv".to_string(), vec![s("t")]);
    match status_update_step(&update(false), StatusEvent::Found(Some(definition(true))), &mut processes, &mut tools) {
        StatusAction::Save(d) => {
            assert!(!d.enabled);
            assert_eq!(d.name, "Server");
        }
        _ => panic!("expected a save"),
    }
    assert!(matches!(status_update_step(&update(false), StatusEvent::Saved(Ok(())), &mut processes, &mut tools), StatusAction::Kill));
    match status_update_step(&update(false), StatusEvent::Killed(Err("denied".to_string())), &mut processes, &mut tools) {
        StatusAction::Answer(r) => {
            assert!(!r.success);
            assert_eq!(r.message, "Failed to kill process: denied");
        }
        _ => panic!("expected an answer"),
    }
    assert_eq!(processes.len(), 2);
    match status_update_step(&update(false), StatusEvent::Killed(Ok(())), &mut processes, &mut tools) {
        StatusAction::Answer(r) => {
            assert!(r.success);
            assert_eq!(r.message, "Tool 'srv' status updated to disabled and process stopped");
        }
        _ => panic!("expected an answer"),
    }
    assert!(!processes.contains_key("srv"));
    assert!(processes.contains_key("other"));
    assert!(!tools.contains_key("srv"));
}

#[test]
fn status_change_save_error_and_idle_disable() {
    let mut processes: StrMap<bool> = StrMap::new();
    let mut tools: StrMap<Vec<Json>> = StrMap::new();
    match status_update_step(&update(false), StatusEvent::Saved(Err("locked".to_string())), &mut processes, &mut tools) {
        StatusAction::Fail(e) => assert_eq!(e, "locked"),
        _ => panic!("expected the error"),
    }
    assert!(matches!(status_update_step(&update(false), StatusEvent::Saved(Ok(())), &mut processes, &mut tools),
        StatusAction::Answer(r) if r.success));
}

#[test]
fn enabling_restarts_and_records_tools() {
    let mut processes: StrMap<bool> = StrMap::new();
    let mut tools: StrMap<Vec<Json>> = StrMap::new();
    assert!(matches!(status_update_step(&update(true), StatusEvent::Saved(Ok(())), &mut processes, &mut tools), StatusAction::Restart));
    match status_update_step(&update(true), StatusEvent::Restarted(Err("spawn failed".to_string())), &mut processes, &mut tools) {
        StatusAction::Answer(r) => {
            assert!(!r.success);
            assert_eq!(r.message, "spawn failed");
        }
        _ => panic!("expected an answer"),
    }
    assert!(matches!(status_update_step(&update(true), StatusEvent::Restarted(Ok(())), &mut processes, &mut tools), StatusAction::Discover));
    assert_eq!(processes.get("srv"), Some(&true));
    match status_update_step(&update(true), StatusEvent::Discovered(Some(Ok(vec![s("a")]))), &mut processes, &mut tools) {
        StatusAction::Answer(r) => assert_eq!(r.message, "Tool 'srv' status updated to enabled and process started"),
        _ => panic!("expected an answer"),
    }
    assert_eq!(tools.get("srv").map(|t| t.len()), Some(1));
}

#[test]
fn uninstall_steps() {
    let mut processes: StrMap<bool> = StrMap::new();
    processes.insert("srv".to_string(), true);
    let mut tools: StrMap<Vec<Json>> = StrMap::new();
    tools.insert("srv".to_string(), vec![]);
    match uninstall_step("srv", UninstallEvent::Found(false), &mut processes, &mut tools) {
        UninstallAction::Answer(r) => assert_eq!(r.message, "Tool with ID 'srv' not found"),
        _ => panic!("expected an answer"),
    }
    assert!(matches!(uninstall_step("srv", UninstallEvent::Found(true), &mut processes, &mut tools), UninstallAction::Kill));
    assert!(matches!(uninstall_step("srv", UninstallEvent::Killed(Ok(())), &mut processes, &mut tools), UninstallAction::Delete));
    assert_eq!(processes.len(), 0);
    assert_eq!(tools.len(), 0);
    match uninstall_step("srv", UninstallEvent::Deleted(Err("gone".to_string())), &mut processes, &mut tools) {
        UninstallAction::Answer(r) => assert_eq!(r.message, "Failed to delete tool: gone"),
        _ => panic!("expected an answer"),
    }
    match uninstall_step("srv", UninstallEvent::Deleted(Ok(())), &mut processes, &mut tools) {
        UninstallAction::Answer(r) => {
            assert!(r.success);
            assert_eq!(r.message, "Tool uninstalled successfully");
        }
        _ => panic!("expected an answer"),
    }
}

#[test]
fn configuration_update_steps() {
    let mut config = StrMap::new();
    config.insert("KEY".to_string(), "new".to_string());
    let req = ServerConfigUpdateRequest { server_id: "srv".to_string(), config };
    match config_update_step(&req, ConfigEvent::Found(None)) {
        ConfigAction::Answer(r) => assert_eq!(r.message, "Tool with ID 'srv' not found"),
        _ => panic!("expected an answer"),
    }
    match config_update_step(&req, ConfigEvent::Found(Some(definition(true)))) {
        ConfigAction::Save(d) => {
            let env = d.configuration.and_then(|c| c.env).expect("environment");
            assert_eq!(env.get("KEY").and_then(|e| e.default.clone()).as_deref(), Some("new"));
        }
        _ => panic!("expected a save"),
    }
    match config_update_step(&req, ConfigEvent::Saved(Ok(()))) {
        ConfigAction::Answer(r) => {
            assert!(r.success);
            assert_eq!(r.message, "Tool 'srv' configuration updated");
        }
        _ => panic!("expected an answer"),
    }
}

fn tool_request(configuration: Option<Json>) -> ToolRegistrationRequest {
    ToolRegistrationRequest {
        tool_name: "weather".to_string(),
        description: "Forecasts".to_string(),
        authentication: None,
        tool_type: "node".to_string(),
        configuration,
        distribution: None,
    }
}

#[test]
fn tool_registration_steps() {
    let req = tool_request(None);
    assert!(matches!(register_tool_step(&req, ToolRegistrationEvent::Begin), ToolRegistrationAction::ListTools));
    match register_tool_step(&req, ToolRegistrationEvent::Listed(Err(DomainError::RepositoryError("down".to_string())))) {
        ToolRegistrationAction::Fail(DomainError::RepositoryError(m)) => assert_eq!(m, "down"),
        _ => panic!("expected the listing error"),
    }
    let (id, tool) = match register_tool_step(&req, ToolRegistrationEvent::Listed(Ok(2))) {
        ToolRegistrationAction::Save { tool_id, tool } => (tool_id, tool),
        _ => panic!("expected a save"),
    };
    assert_eq!(id, "tool_3");
    assert!(tool.enabled);
    match register_tool_step(&req, ToolRegistrationEvent::Saved(Ok(()), id, tool)) {
        ToolRegistrationAction::Fail(DomainError::ConfigurationError(m)) => assert_eq!(m, "Configuration is required for tools"),
        _ => panic!("expected the configuration error"),
    }
}

#[test]
fn tool_registration_spawn_outcomes() {
    let req = tool_request(Some(Json::Object(vec![("command".to_string(), s("node"))])));
    let tool = Tool {
        name: "weather".to_string(),
        description: "Forecasts".to_string(),
        enabled: true,
        tool_type: "node".to_string(),
        entry_point: None,
        configuration: Some(ToolConfiguration { command: "node".to_string(), args: None }),
        distribution: None,
        config: None,
        authentication: None,
    };
    match register_tool_step(&req, ToolRegistrationEvent::Saved(Ok(()), "tool_1".to_string(), tool)) {
        ToolRegistrationAction::Spawn { tool_id, launch, .. } => {
            assert_eq!(tool_id, "tool_1");
            assert!(matches!(launch.get("command"), Some(Json::Str(c)) if c == "node"));
        }
        _ => panic!("expected a spawn"),
    }
    let err = DomainError::ProcessError("Mock process manager doesn't actually spawn processes".to_string());
    match register_tool_step(&req, ToolRegistrationEvent::Spawned(Err(err), "tool_1".to_string())) {
        ToolRegistrationAction::Answer(r) => {
            assert!(!r.success);
            assert_eq!(r.message, "Tool registered but failed to start process: Process error: Mock process manager doesn't actually spawn processes");
            assert_eq!(r.tool_id.as_deref(), Some("tool_1"));
        }
        _ => panic!("expected an answer"),
    }
    match register_tool_step(&req, ToolRegistrationEvent::Discovered("tool_1".to_string())) {
        ToolRegistrationAction::Answer(r) => assert_eq!(r.message, "Tool 'weather' registered successfully"),
        _ => panic!("expected an answer"),
    }
}

#[test]
fn tokio_manager_kills_what_it_started() {
    let mut m = TokioProcessManager::new();
    assert!(m.kill_all_processes().is_empty());
    m.track_process("a".to_string());
    m.track_process("b".to_string());
    assert_eq!(m.kill_all_processes(), vec!["a".to_string(), "b".to_string()]);
    assert!(m.kill_all_processes().is_empty());
}

#[test]
fn disabled_mode_in_capitals() {
    let c = ToolConfig::from_env_values(Some("DISABLED"), Some("dm_"));
    assert!(!c.namespace_enabled);
    assert_eq!(c.prefix, "");
}

#[test]
fn domain_listing_reports_errors_as_text() {
    let r = domain_list_tools(Err(DomainError::RepositoryError("db".to_string())), Ok(StrMap::new()));
    assert_eq!(r.err().as_deref(), Some("Repository error: db"));
    let r = domain_list_tools(Ok(StrMap::new()), Err(DomainError::ToolNotFound("x".to_string())));
    assert_eq!(r.err().as_deref(), Some("Tool not found: x"));
    let r = domain_list_tools(Ok(StrMap::new()), Ok(StrMap::new()));
    assert_eq!(r.map(|v| v.len()), Ok(0));
}

#[test]
fn frame_fits_ordinary_buffers() {
    let codec = mcp_core::frame_codec::JsonRpcFrameCodec;
    let dst = bytes::BytesMut::from(&b"abc"[..]);
    assert!(codec.fits(&vec![1u8, 2, 3], &dst));
}

#[test]
fn clearing_the_database_reports_its_cause() {
    assert_eq!(mcp_core::db_rows::cleared_outcome(Ok(())), Ok(()));
    assert_eq!(
        mcp_core::db_rows::cleared_outcome(Err("locked".to_string())),
        Err("Failed to clear database: locked".to_string())
    );
}

#[test]
fn domain_configuration_update_steps() {
    let mut env = StrMap::new();
    env.insert("API_KEY".to_string(), "secret".to_string());
    let req = ToolConfigUpdateRequest { tool_id: "tool_1".to_string(), config: ToolConfigUpdate { env: Some(env) } };
    match domain_config_step(&req, DomainConfigEvent::Found(None)) {
        DomainConfigAction::Answer(r) => assert_eq!(r.message, "Tool with ID 'tool_1' not found"),
        _ => panic!("expected an answer"),
    }
    let tool = Tool {
        name: "t".to_string(),
        description: "d".to_string(),
        enabled: true,
        tool_type: "node".to_string(),
        entry_point: None,
        configuration: None,
        distribution: None,
        config: None,
        authentication: None,
    };
    match domain_config_step(&req, DomainConfigEvent::Found(Some(tool))) {
        DomainConfigAction::Save(t) => {
            let env = t.config.and_then(|c| c.env).expect("environment");
            assert_eq!(env.get("API_KEY").map(|v| v.as_str()), Some("secret"));
        }
        _ => panic!("expected a save"),
    }
    match domain_config_step(&req, DomainConfigEvent::Saved(Err(DomainError::RepositoryError("ro".to_string())))) {
        DomainConfigAction::Fail(m) => assert_eq!(m, "Repository error: ro"),
        _ => panic!("expected the error"),
    }
    match domain_config_step(&req, DomainConfigEvent::Saved(Ok(()))) {
        DomainConfigAction::Answer(r) => {
            assert!(r.success);
            assert_eq!(r.message, "Tool 'tool_1' configuration updated");
        }
        _ => panic!("expected an answer"),
    }
}

#[test]
fn tokio_manager_reads_answer_lines() {
    let t = TokioProcessManager::new();
    match t.execution_result_of_line("{\"result\": \"ok\"}") {
        Ok(Json::Str(x)) => assert_eq!(x, "ok"),
        _ => panic!("expected the result"),
    }
    assert!(matches!(t.execution_result_of_line("{\"other\": 1}"), Err(DomainError::NoResultField)));
    assert!(matches!(t.execution_result_of_line("not json"), Err(DomainError::JsonParseError(_))));
    match t.discovered_tools_of_line("{\"tools\": [{\"name\": \"a\"}, {\"name\": \"b\"}]}") {
        Ok(tools) => assert_eq!(tools.len(), 2),
        Err(_) => panic!("expected the tools"),
    }
    assert!(matches!(t.discovered_tools_of_line("{}"), Ok(v) if v.is_empty()));
    assert!(matches!(t.discovered_tools_of_line("{"), Err(DomainError::JsonParseError(_))));
    assert!(matches!(t.not_connected("srv"), DomainError::ServerNotFound(s) if s == "srv"));
}

#[test]
fn node_project_from_package_text() {
    let present = vec!["package.json".to_string()];
    let dev = "{\"scripts\": {\"dev\": \"vite\"}}";
    assert_eq!(mcp_core::desktop::check_node_project_text(&present, Some(dev)), Some("npm run dev".to_string()));
    assert_eq!(mcp_core::desktop::check_node_project_text(&present, Some("not json")), Some("node".to_string()));
    assert_eq!(mcp_core::desktop::check_node_project_text(&vec!["README.md".to_string()], None), None);
}

#[test]
fn proxied_call_without_connection() {
    let r = mcp_core::server_ops::unconnected_response("srv");
    assert!(!r.success);
    assert!(r.result.is_none());
    assert_eq!(r.error.as_deref(), Some("Server not found: srv"));
}
