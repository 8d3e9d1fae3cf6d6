use mcp_core::desktop::{sidecar_copy_is_current, sidecar_plan, tray_action, update_dialog, SidecarPlan, TrayAction};
use mcp_core::dto::{DiscoverServerToolsResponseDTO, ToolRegistrationResponseDTO};
use mcp_core::entities::{DomainError, Tool, ToolConfig, ToolConfiguration, ToolExecutionResponse,
    ToolRegistrationRequest};
use mcp_core::json::Json;
use mcp_core::mcp_http::{core_call_result, install_reply, install_request, install_without_name, mark_installed,
    proxy_call, registry_entries, unknown_tool_error};
use mcp_core::registration::{build_tool, env_from_authentication, launch_config, registration_response};
use mcp_core::rpc::{app_call_result, call_arguments, make_response, missing_name_response, route_app_request,
    text_content_json, AppRoute};
use mcp_core::server_model::{default_env, node_project_request, python_project_request, readme_env,
    server_launch_config, server_registration_response, update_server_env, ServerConfiguration, ServerDefinition,
    ServerEnvironment};
use mcp_core::server_ops::enabled_tool_ids;
use mcp_core::server_model::{import_request, process_nodejs_project, process_python_project};
use mcp_core::proxy_router::{argument_members, router_instructions, router_name};
use mcp_core::services::{discovery_response, discovery_unknown_server, domain_uninstall_response,
    get_all_server_data, list_all_server_tools, list_registered_tools, list_tools, merge_env, replace_env,
    server_data, status_update_response, uninstall_response, StatusStep, UninstallStep};
use mcp_core::strmap::StrMap;

fn obj(members: Vec<(&str, Json)>) -> Json {
    Json::Object(members.into_iter().map(|(k, v)| (k.to_string(), v)).collect())
}

fn s(x: &str) -> Json {
    Json::Str(x.to_string())
}

fn num(n: &str) -> Json {
    Json::Number(n.to_string())
}

fn string_map(pairs: &[(&str, &str)]) -> StrMap<String> {
    let mut m = StrMap::new();
    for (k, v) in pairs {
        m.insert(k.to_string(), v.to_string());
    }
    m
}

fn tool(name: &str) -> Tool {
    Tool {
        name: name.to_string(),
        description: "d".to_string(),
        enabled: true,
        tool_type: "node".to_string(),
        entry_point: None,
        configuration: Some(ToolConfiguration { command: "npx".to_string(), args: Some(vec!["-y".to_string()]) }),
        distribution: None,
        config: None,
        authentication: None,
    }
}

#[test]
fn registration_builds_the_tool_record() {
    let req = ToolRegistrationRequest {
        tool_name: "weather".to_string(),
        description: "Forecasts".to_string(),
        authentication: Some(obj(vec![("env", obj(vec![
            ("KEY", s("k")),
            ("PORT", num("8080")),
            ("DEBUG", Json::Bool(true)),
            ("TEMPLATE", obj(vec![("description", s("fill me"))])),
            ("LIST", Json::Array(vec![num("1")])),
        ]))])),
        tool_type: "node".to_string(),
        configuration: Some(obj(vec![("command", s("npx")), ("args", Json::Array(vec![s("-y"), s("w")]))])),
        distribution: None,
    };
    let t = build_tool(&req);
    assert!(t.enabled);
    let c = t.configuration.as_ref().unwrap();
    assert_eq!(c.command, "npx");
    assert_eq!(c.args, Some(vec!["-y".to_string(), "w".to_string()]));
    let env = t.config.as_ref().unwrap().env.as_ref().unwrap();
    assert_eq!(env.get("KEY").unwrap(), "k");
    assert_eq!(env.get("PORT").unwrap(), "8080");
    assert_eq!(env.get("DEBUG").unwrap(), "true");
    assert!(env.get("TEMPLATE").is_none());
    assert_eq!(env.get("LIST").unwrap(), "[1]");
    let launch = launch_config(&t).ok().unwrap();
    assert_eq!(launch.str_field("command").unwrap(), "npx");
    assert_eq!(launch.get("args").unwrap().as_array().unwrap().len(), 2);
    assert!(env_from_authentication(&obj(vec![("env", s("x"))])).is_none());
}

#[test]
fn tools_without_a_command_cannot_be_launched() {
    let mut t = tool("x");
    t.configuration = None;
    assert_eq!(launch_config(&t).err().unwrap(), "Configuration is required for tools");
    t.config = Some(ToolConfig { env: None, command: Some("run".to_string()), args: None });
    let launch = launch_config(&t).ok().unwrap();
    assert!(launch.get("args").unwrap().as_array().unwrap().is_empty());
}

#[test]
fn registration_answers() {
    let ok = registration_response("weather", "tool_3".to_string(), None);
    assert!(ok.success);
    assert_eq!(ok.message, "Tool 'weather' registered successfully");
    assert_eq!(ok.tool_id.as_deref(), Some("tool_3"));
    let e = DomainError::ProcessError("no such file".to_string());
    let failed = registration_response("weather", "tool_3".to_string(), Some(&e));
    assert!(!failed.success);
    assert_eq!(failed.message, "Tool registered but failed to start process: Process error: no such file");
    let dto = ToolRegistrationResponseDTO::from_domain(failed);
    assert_eq!(dto.tool_id.as_deref(), Some("tool_3"));
    let srv = server_registration_response("srv", "a/b".to_string(), Some("spawn failed"));
    assert_eq!(srv.message, "Tool registered but failed to start process: spawn failed");
}

#[test]
fn listing_shows_registered_and_server_tools() {
    let mut tools = StrMap::new();
    tools.insert("tool_1".to_string(), tool("weather"));
    let mut st: StrMap<Vec<Json>> = StrMap::new();
    st.insert("tool_1".to_string(), vec![obj(vec![("id", s("forecast"))])]);
    let listed = list_tools(&tools, &st);
    assert_eq!(listed.len(), 2);
    assert_eq!(listed[0].str_field("id").unwrap(), "tool_1");
    assert_eq!(listed[0].get("tool_count").unwrap().as_str(), None);
    assert!(matches!(listed[0].get("tool_count"), Some(Json::Number(n)) if n == "1"));
    assert_eq!(listed[1].str_field("server_id").unwrap(), "tool_1");
    assert_eq!(listed[1].str_field("description").unwrap(), "Tool from server");
    assert!(listed[1].get("inputSchema").is_some());
    assert_eq!(list_registered_tools(&tools, &st).len(), 1);
    let proxied = list_all_server_tools(&st);
    assert_eq!(proxied[0].str_field("proxy_id").unwrap(), "tool_1:forecast");
    let data = server_data(&tools, &st);
    assert_eq!(data[0].get("tools").unwrap().as_array().unwrap().len(), 1);
    let all = get_all_server_data(&tools, &st);
    assert_eq!(all.get("servers").unwrap().as_array().unwrap().len(), 1);
    assert_eq!(all.get("tools").unwrap().as_array().unwrap().len(), 1);
}

#[test]
fn configuration_updates() {
    let mut t = tool("x");
    t.config = Some(ToolConfig { env: Some(string_map(&[("A", "1"), ("B", "2")])), command: Some("c".to_string()), args: None });
    let merged = merge_env(t, &Some(string_map(&[("B", "3"), ("C", "4")])));
    let cfg = merged.config.as_ref().unwrap();
    let env = cfg.env.as_ref().unwrap();
    assert_eq!(env.get("A").unwrap(), "1");
    assert_eq!(env.get("B").unwrap(), "3");
    assert_eq!(env.get("C").unwrap(), "4");
    assert_eq!(cfg.command.as_deref(), Some("c"));
    let replaced = replace_env(merged, Some(string_map(&[("Z", "9")])));
    let env = replaced.config.as_ref().unwrap().env.as_ref().unwrap();
    assert_eq!(env.len(), 1);
    assert_eq!(env.get("Z").unwrap(), "9");
}

#[test]
fn domain_answers() {
    assert_eq!(status_update_response("t", true, StatusStep::Done).message, "Tool 't' status updated to enabled");
    assert_eq!(status_update_response("t", true, StatusStep::NotFound).message, "Tool with ID 't' not found");
    let r = status_update_response("t", true, StatusStep::SaveFailed(DomainError::RepositoryError("disk".to_string())));
    assert_eq!(r.message, "Failed to update tool: Repository error: disk");
    let u = uninstall_response("t", UninstallStep::NotFound(DomainError::ToolNotFound("t".to_string())));
    assert_eq!(u.message, "Failed to uninstall tool: Tool not found: t");
    assert_eq!(uninstall_response("t", UninstallStep::Done).message, "Tool 't' uninstalled successfully");
    assert_eq!(domain_uninstall_response("t", UninstallStep::Done).message, "Tool uninstalled successfully");
    let d = discovery_unknown_server("s");
    assert_eq!(d.error.as_deref(), Some("Server with ID 's' not found"));
    let d = discovery_response(Err(DomainError::NoResponse));
    assert_eq!(d.error.as_deref(), Some("Failed to discover tools: No response from process"));
    let dto = DiscoverServerToolsResponseDTO::from_domain(discovery_response(Ok(vec![Json::Null])));
    assert!(dto.success);
    assert_eq!(dto.tools.unwrap().len(), 1);
}

#[test]
fn rpc_responses() {
    let r = make_response(num("7"), Err(obj(vec![("code", num("-32602")), ("message", s("bad")), ("data", s("x"))])), -32000, true);
    let e = r.error.unwrap();
    assert_eq!(e.code, -32602);
    assert_eq!(e.message, "bad");
    assert!(e.data.is_some());
    let r = make_response(num("7"), Err(obj(vec![])), -32000, false);
    let e = r.error.unwrap();
    assert_eq!(e.code, -32000);
    assert_eq!(e.message, "Unknown error");
    let r = make_response(Json::Null, Ok(s("fine")), -32000, false);
    assert_eq!(r.jsonrpc, "2.0");
    assert!(r.error.is_none());
    let m = missing_name_response(num("1"));
    assert_eq!(m.error.unwrap().message, "Missing name in parameters");
    let (name, args) = call_arguments(&obj(vec![("name", s("echo"))])).unwrap();
    assert_eq!(name, "echo");
    assert!(args.as_object().unwrap().is_empty());
    assert!(call_arguments(&obj(vec![])).is_none());
    match route_app_request("resources/read", Some(Json::Null)) {
        AppRoute::Reply(Err(e)) => assert_eq!(e.str_field("message").unwrap(), "Resource reading not implemented yet"),
        _ => panic!("expected an error"),
    }
    let c = text_content_json("hi".to_string());
    let item = &c.get("content").unwrap().as_array().unwrap()[0];
    assert_eq!(item.str_field("type").unwrap(), "text");
}

#[test]
fn tool_call_outcomes() {
    let ok = app_call_result(Ok(ToolExecutionResponse { success: true, result: Some(obj(vec![("a", num("1"))])), error: None }));
    let v = ok.ok().unwrap();
    let item = &v.get("content").unwrap().as_array().unwrap()[0];
    assert_eq!(item.str_field("text").unwrap(), "{\"a\":1}");
    let none = app_call_result(Ok(ToolExecutionResponse { success: true, result: None, error: None })).ok().unwrap();
    assert_eq!(none.get("content").unwrap().as_array().unwrap()[0].str_field("text").unwrap(), "\"No result\"");
    let err = app_call_result(Err(DomainError::NoResultField)).err().unwrap();
    assert_eq!(err.str_field("message").unwrap(), "Tool execution error: Response missing result field");
    let core = core_call_result(Ok(ToolExecutionResponse { success: false, result: None, error: None })).err().unwrap();
    assert_eq!(core.str_field("message").unwrap(), "Unknown error");
    let core = core_call_result(Err("pipe".to_string())).err().unwrap();
    assert_eq!(core.str_field("message").unwrap(), "Failed to execute tool: pipe");
    assert_eq!(unknown_tool_error("z").str_field("message").unwrap(), "Tool 'z' not found");
    let call = proxy_call("srv", "echo", Json::Null);
    assert_eq!(call.tool_id, "srv:echo");
}

#[test]
fn registry_installs() {
    let params = obj(vec![
        ("name", s("weather")),
        ("configuration", obj(vec![("command", s("npx")), ("args", Json::Array(vec![s("-y")])),
            ("env", obj(vec![("KEY", obj(vec![("default", s("k"))]))]))])),
    ]);
    let req = install_request(&params).unwrap();
    assert_eq!(req.tool_name, "weather");
    assert_eq!(req.tool_type, "node");
    let c = req.configuration.unwrap();
    assert_eq!(c.command.as_deref(), Some("npx"));
    assert!(install_request(&obj(vec![])).is_none());
    assert_eq!(install_reply().str_field("message").unwrap(), "Tool installed successfully");
    assert_eq!(install_without_name().str_field("message").unwrap(), "Tool not found: None");
    let entries = registry_entries(&vec![obj(vec![("name", s("weather"))]), obj(vec![("name", s("other")), ("description", s("x"))])]);
    assert_eq!(entries[0].str_field("description").unwrap(), "Tool from registry");
    assert_eq!(entries[1].str_field("description").unwrap(), "x");
    let mut installed: StrMap<bool> = StrMap::new();
    installed.insert("weather".to_string(), true);
    let marked = mark_installed(&entries, &installed);
    assert!(matches!(marked[0].get("installed"), Some(Json::Bool(true))));
    assert!(matches!(marked[1].get("installed"), Some(Json::Bool(false))));
}

fn server(env: Option<StrMap<ServerEnvironment>>) -> ServerDefinition {
    ServerDefinition {
        name: "s".to_string(),
        description: String::new(),
        enabled: true,
        tools_type: "node".to_string(),
        entry_point: None,
        configuration: Some(ServerConfiguration { command: Some("npx".to_string()), args: None, env }),
        distribution: None,
    }
}

#[test]
fn server_environments() {
    let mut env = StrMap::new();
    env.insert("A".to_string(), ServerEnvironment { description: "a".to_string(), default: Some("1".to_string()), required: true });
    env.insert("B".to_string(), ServerEnvironment { description: "b".to_string(), default: None, required: false });
    let defaults = default_env(&env);
    assert_eq!(defaults.len(), 1);
    assert_eq!(defaults.get("A").unwrap(), "1");
    let updated = update_server_env(server(Some(env)), &string_map(&[("B", "2"), ("C", "3")]));
    let e = updated.configuration.unwrap().env.unwrap();
    let launched = default_env(&e);
    assert_eq!(launched.get("B").unwrap(), "2");
    assert_eq!(launched.get("C").unwrap(), "3");
    assert_eq!(launched.get("A").unwrap(), "1");
    assert_eq!(e.len(), 3);
    assert_eq!(e.get("A").unwrap().description, "a");
    let b = e.get("B").unwrap();
    assert_eq!(b.default.as_deref(), Some("2"));
    assert_eq!(b.description, "");
    assert!(!b.required);
    let launch = server_launch_config(&server(None)).ok().unwrap();
    assert!(matches!(launch.get("args"), Some(Json::Null)));
    let readme = readme_env(&vec!["API_KEY".to_string()]);
    assert!(readme.get("API_KEY").unwrap().required);
}

#[test]
fn imported_projects() {
    let vars = vec!["TOKEN".to_string()];
    let req = node_project_request(&obj(vec![("name", s("@acme/weather"))]), "acme", "weather", &vars).ok().unwrap();
    assert_eq!(req.server_id, "acme/weather");
    assert_eq!(req.server_name, "@acme/weather MCP Server");
    assert_eq!(req.description, "MCP Server imported from GitHub");
    assert_eq!(req.configuration.unwrap().args, Some(vec!["-y".to_string(), "@acme/weather".to_string()]));
    assert_eq!(node_project_request(&obj(vec![]), "a", "b", &vars).err().unwrap(), "Missing 'name' field in package.json");
    let doc = obj(vec![("project", obj(vec![("name", s("my-tool"))]))]);
    let req = python_project_request(&doc, "o", "r", &vars).ok().unwrap();
    let c = req.configuration.unwrap();
    assert_eq!(c.command.as_deref(), Some("python"));
    assert_eq!(c.args, Some(vec!["-m".to_string(), "my_tool".to_string()]));
    let doc = obj(vec![("project", obj(vec![("name", s("t")), ("scripts", obj(vec![("serve", s("t:main"))]))]))]);
    let c = python_project_request(&doc, "o", "r", &vars).ok().unwrap().configuration.unwrap();
    assert_eq!(c.command.as_deref(), Some("uvx"));
    assert_eq!(c.args, Some(vec!["run".to_string(), "serve".to_string()]));
    assert_eq!(python_project_request(&obj(vec![]), "o", "r", &vars).err().unwrap(), "Missing 'project' section in pyproject.toml");
}

#[test]
fn desktop_decisions() {
    assert!(matches!(tray_action("quit"), Some(TrayAction::Quit)));
    assert!(matches!(tray_action("show"), Some(TrayAction::ShowMainWindow)));
    assert!(tray_action("other").is_none());
    let d = update_dialog(Some("1.2.3"), false).unwrap();
    assert_eq!(d.title, "New Update Available v1.2.3");
    assert!(d.offers_install);
    assert!(update_dialog(None, false).is_none());
    assert_eq!(update_dialog(None, true).unwrap().title, "No Updates Available");
    assert!(matches!(sidecar_plan("windows"), SidecarPlan::BesideExecutable(f) if f == "mcp-proxy-server.exe"));
    assert!(matches!(sidecar_plan("linux"), SidecarPlan::CopyToAppData { .. }));
    assert!(matches!(sidecar_plan("freebsd"), SidecarPlan::Unsupported(e) if e == "failed to get proxy server sidecar path"));
    assert!(sidecar_copy_is_current(true, Some("0.3.0"), "0.3.0"));
    assert!(!sidecar_copy_is_current(true, None, "0.3.0"));
    assert!(!sidecar_copy_is_current(false, Some("0.3.0"), "0.3.0"));
}

#[test]
fn enabled_records_are_restarted() {
    let mut records: StrMap<Json> = StrMap::new();
    records.insert("a".to_string(), obj(vec![("enabled", Json::Bool(true))]));
    records.insert("b".to_string(), obj(vec![("enabled", s("true"))]));
    records.insert("c".to_string(), obj(vec![("enabled", Json::Bool(false))]));
    records.insert("d".to_string(), obj(vec![("enabled", Json::Bool(true))]));
    assert_eq!(enabled_tool_ids(&records), vec!["a".to_string(), "d".to_string()]);
}

#[test]
fn projects_are_imported_from_their_manifests() {
    let vars = vec!["API_KEY".to_string()];
    let node = process_nodejs_project("{\"name\":\"pkg\",\"description\":\"A tool\"}", "o", "r", &vars).ok().unwrap();
    assert_eq!(node.description, "A tool");
    assert_eq!(node.distribution.unwrap().package, "pkg");
    let env = node.configuration.unwrap().env.unwrap();
    let key = env.get("API_KEY").unwrap();
    assert_eq!(key.description, "Extracted from README.md: API_KEY");
    assert_eq!(key.default.as_deref(), Some(""));
    assert!(key.required);
    let bad = process_nodejs_project("{not json", "o", "r", &vars).err().unwrap();
    assert!(bad.starts_with("Failed to parse package.json: "));
    let toml = "[project]\nname = \"py-tool\"\ndescription = \"Py\"\n[project.scripts]\nzeta = \"m:z\"\nalpha = \"m:a\"\n";
    let py = process_python_project(toml, "o", "r", &vars).ok().unwrap();
    let c = py.configuration.unwrap();
    assert_eq!(c.command.as_deref(), Some("uvx"));
    assert_eq!(c.args, Some(vec!["run".to_string(), "alpha".to_string()]));
    assert!(process_python_project("[project", "o", "r", &vars).err().unwrap().starts_with("Failed to parse pyproject.toml: "));
    let none = import_request(None, None, "o", "r", &vars).err().unwrap();
    assert_eq!(none, "Could not find package.json or pyproject.toml in repository o/r");
    let first = import_request(Some("{\"name\":\"n\"}"), Some(toml), "o", "r", &vars).ok().unwrap();
    assert_eq!(first.tools_type, "node");
    let second = import_request(None, Some(toml), "o", "r", &vars).ok().unwrap();
    assert_eq!(second.tools_type, "python");
}

#[test]
fn call_arguments_are_the_object_members() {
    assert_eq!(argument_members(&obj(vec![("a", num("1"))])).len(), 1);
    assert!(argument_members(&s("x")).is_empty());
    assert_eq!(router_name(), "dockmaster");
    assert_eq!(router_instructions(), "This server is a proxy to the MCP Dockmaster Application.");
}
