use mcp_core::entities::{DomainError, ToolExecutionRequest, ToolExecutionResponse};
use mcp_core::json::Json;
use mcp_core::mcp_http::{find_tool_server, tools_list_reply};
use mcp_core::proxy_router::{call_contents, call_params, forwarded_request, prompt_not_found,
    proxy_server_instructions, resource_not_found, sse_address, sse_server_url, Content};
use mcp_core::registration::tool_id_for;
use mcp_core::rpc::{json_as_i64, route_core_request, McpRoute};
use mcp_core::server_model::{ServerDefinition, ServerUninstallResponse};
use mcp_core::server_ops::{enabled_servers, list_servers, proxy_execution_response, proxy_target, restart_response,
    server_status_response, server_tools_outcome, server_uninstall_response, DiscoveryAttempt, ServerUninstallStep,
    StatusChange};
use mcp_core::services::{execution_response, execution_route, split_proxy_id, ExecutionRoute};
use mcp_core::strmap::StrMap;

fn obj(members: Vec<(&str, Json)>) -> Json {
    Json::Object(members.into_iter().map(|(k, v)| (k.to_string(), v)).collect())
}

fn s(x: &str) -> Json {
    Json::Str(x.to_string())
}

fn def(name: &str, enabled: bool) -> ServerDefinition {
    ServerDefinition {
        name: name.to_string(),
        description: String::new(),
        enabled,
        tools_type: "node".to_string(),
        entry_point: None,
        configuration: None,
        distribution: None,
    }
}

#[test]
fn proxy_ids_split_at_their_only_colon() {
    assert_eq!(split_proxy_id("srv:tool"), Some(("srv".to_string(), "tool".to_string())));
    assert_eq!(split_proxy_id("srv:"), Some(("srv".to_string(), String::new())));
    assert_eq!(split_proxy_id("plain"), None);
    assert_eq!(split_proxy_id("a:b:c"), None);
    match proxy_target("a:b:c") {
        Err(e) => assert_eq!(e, "Invalid tool_id format. Expected 'server_id:tool_id'"),
        Ok(_) => panic!("expected an error"),
    }
    assert_eq!(proxy_target("s:t"), Ok(("s".to_string(), "t".to_string())));
}

#[test]
fn executions_are_routed() {
    let r = execution_route(&ToolExecutionRequest { tool_id: "srv:echo".to_string(), parameters: Json::Null });
    assert!(matches!(r, ExecutionRoute::ServerTool { server_id, tool_id } if server_id == "srv" && tool_id == "echo"));
    let r = execution_route(&ToolExecutionRequest { tool_id: "tool_1".to_string(), parameters: obj(vec![("tool_name", s("echo"))]) });
    assert!(matches!(r, ExecutionRoute::Repository(q) if q.tool_id == "tool_1:echo"));
    let r = execution_route(&ToolExecutionRequest { tool_id: "tool_1".to_string(), parameters: obj(vec![]) });
    assert!(matches!(r, ExecutionRoute::Repository(q) if q.tool_id == "tool_1"));
}

#[test]
fn execution_errors_are_introduced() {
    let r = execution_response(Err(DomainError::ServerNotFound("x".to_string())), "Error executing tool: ");
    assert!(!r.success);
    assert_eq!(r.error.as_deref(), Some("Error executing tool: Server not found: x"));
    let r = proxy_execution_response(Err("boom".to_string()));
    assert_eq!(r.error.as_deref(), Some("boom"));
    assert!(proxy_execution_response(Ok(Json::Null)).success);
}

#[test]
fn registration_ids_count_up() {
    assert_eq!(tool_id_for(0), "tool_1");
    assert_eq!(tool_id_for(41), "tool_42");
}

#[test]
fn core_requests_are_routed() {
    assert!(matches!(route_core_request("tools/list", None), McpRoute::ListTools));
    assert!(matches!(route_core_request("registry/list", None), McpRoute::ListRegistry));
    match route_core_request("tools/call", None) {
        McpRoute::Reply(Err(e)) => {
            assert_eq!(json_as_i64(e.get("code").unwrap()), Some(-32602));
            assert_eq!(e.str_field("message").unwrap(), "Missing parameters");
        }
        _ => panic!("expected an error"),
    }
    match route_core_request("nope", None) {
        McpRoute::Reply(Err(e)) => {
            assert_eq!(json_as_i64(e.get("code").unwrap()), Some(-32601));
            assert_eq!(e.str_field("message").unwrap(), "Method 'nope' not found");
        }
        _ => panic!("expected an error"),
    }
    match route_core_request("prompts/list", None) {
        McpRoute::Reply(Ok(v)) => assert_eq!(v.get("prompts").unwrap().as_array().unwrap().len(), 0),
        _ => panic!("expected a reply"),
    }
}

#[test]
fn numbers_read_as_i64() {
    assert_eq!(json_as_i64(&Json::Number("-9223372036854775808".to_string())), Some(i64::MIN));
    assert_eq!(json_as_i64(&Json::Number("9223372036854775808".to_string())), None);
    assert_eq!(json_as_i64(&Json::Number("1.5".to_string())), None);
    assert_eq!(json_as_i64(&s("3")), None);
}

#[test]
fn the_first_server_offering_a_tool_is_found() {
    let mut st: StrMap<Vec<Json>> = StrMap::new();
    st.insert("a".to_string(), vec![obj(vec![("id", s("x"))])]);
    st.insert("b".to_string(), vec![obj(vec![("name", s("y"))])]);
    st.insert("c".to_string(), vec![obj(vec![("id", s("y"))])]);
    assert_eq!(find_tool_server(&st, "y"), Some("b".to_string()));
    assert_eq!(find_tool_server(&st, "x"), Some("a".to_string()));
    assert_eq!(find_tool_server(&st, "z"), None);
}

#[test]
fn listed_tools_get_a_schema() {
    let tools = vec![obj(vec![("id", s("a"))]), obj(vec![("id", s("b")), ("input_schema", s("kept"))]),
        obj(vec![("input_schema", Json::Null)])];
    let reply = tools_list_reply(Ok(tools)).ok().unwrap();
    let list = reply.get("tools").unwrap().as_array().unwrap();
    assert_eq!(list[0].get("input_schema").unwrap().str_field("type").unwrap(), "object");
    assert_eq!(list[1].str_field("input_schema").unwrap(), "kept");
    assert!(list[2].get("input_schema").unwrap().get("required").unwrap().as_array().unwrap().is_empty());
    let err = tools_list_reply(Err("down".to_string())).err().unwrap();
    assert_eq!(err.str_field("message").unwrap(), "Failed to list tools: down");
}

#[test]
fn servers_are_listed_with_their_state() {
    let mut defs = StrMap::new();
    defs.insert("a".to_string(), def("A", true));
    defs.insert("b".to_string(), def("B", false));
    let mut processes = StrMap::new();
    processes.insert("a".to_string(), true);
    let mut tools: StrMap<Vec<Json>> = StrMap::new();
    tools.insert("a".to_string(), vec![Json::Null, Json::Null]);
    let started = enabled_servers(&defs);
    assert_eq!(started, vec!["a".to_string()]);
    let listed = list_servers(defs, &processes, &tools);
    assert_eq!(listed.len(), 2);
    assert_eq!(listed[0].id, "a");
    assert!(listed[0].process_running);
    assert_eq!(listed[0].tool_count, 2);
    assert_eq!(listed[1].definition.name, "B");
    assert!(!listed[1].process_running);
    assert_eq!(listed[1].tool_count, 0);
}

#[test]
fn discovered_tools_are_recorded() {
    let mut st: StrMap<Vec<Json>> = StrMap::new();
    let r = server_tools_outcome("a", DiscoveryAttempt::NotRunning, &mut st);
    assert_eq!(r.err().unwrap(), "Server with ID 'a' is not running");
    let r = server_tools_outcome("a", DiscoveryAttempt::NoConnection, &mut st);
    assert_eq!(r.err().unwrap(), "Failed to discover tools: Server a not found or not running");
    let r = server_tools_outcome("a", DiscoveryAttempt::Failed("eof".to_string()), &mut st);
    assert_eq!(r.err().unwrap(), "Failed to discover tools: eof");
    assert_eq!(st.len(), 0);
    let r = server_tools_outcome("a", DiscoveryAttempt::Found(vec![s("t")]), &mut st);
    assert_eq!(r.ok().unwrap().len(), 1);
    assert_eq!(st.get("a").unwrap().len(), 1);
}

#[test]
fn server_answers() {
    let r = server_status_response("x", true, StatusChange::Done);
    assert_eq!(r.message, "Tool 'x' status updated to enabled and process started");
    let r = server_status_response("x", false, StatusChange::Done);
    assert_eq!(r.message, "Tool 'x' status updated to disabled and process stopped");
    let r = server_status_response("x", false, StatusChange::KillFailed("busy".to_string()));
    assert_eq!(r.message, "Failed to kill process: busy");
    assert!(!server_status_response("x", true, StatusChange::NotFound).success);
    let u: ServerUninstallResponse = server_uninstall_response("x", ServerUninstallStep::DeleteFailed("locked".to_string()));
    assert_eq!(u.message, "Failed to delete tool: locked");
    assert_eq!(server_uninstall_response("x", ServerUninstallStep::Done).message, "Tool uninstalled successfully");
    assert_eq!(restart_response("x", None).message, "Tool with ID 'x' not found");
    assert_eq!(restart_response("x", Some(Ok(()))).message, "Tool 'x' restarted successfully");
    assert_eq!(restart_response("x", Some(Err("e".to_string()))).message, "Failed to restart tool: e");
}

#[test]
fn proxy_reads_tool_answers() {
    let item_text = obj(vec![("type", s("text")), ("text", s("hi"))]);
    let item_image = obj(vec![("type", s("image")), ("data", s("AAA")), ("mimeType", s("image/png"))]);
    let item_other = obj(vec![("type", s("audio"))]);
    let answer = obj(vec![("content", Json::Array(vec![item_text, item_other, item_image]))]);
    let contents = call_contents(Ok(answer)).ok().unwrap();
    assert_eq!(contents.len(), 2);
    assert!(matches!(&contents[0], Content::Text(t) if t == "hi"));
    assert!(matches!(&contents[1], Content::Image { data, mime_type } if data == "AAA" && mime_type == "image/png"));
    let none = call_contents(Ok(obj(vec![("content", Json::Array(vec![]))])));
    assert_eq!(none.err().unwrap(), "No valid content found in response");
    let plain = call_contents(Ok(obj(vec![("ok", Json::Bool(true))]))).ok().unwrap();
    assert!(matches!(&plain[0], Content::Text(t) if t == "{\"ok\":true}"));
    assert_eq!(call_contents(Err("down".to_string())).err().unwrap(), "down");
}

#[test]
fn proxy_forwards_requests() {
    let p = call_params("echo", obj(vec![]));
    assert_eq!(p.str_field("name").unwrap(), "echo");
    let r = forwarded_request("tools/call", p);
    assert_eq!(r.jsonrpc, "2.0");
    assert_eq!(json_as_i64(&r.id), Some(1));
    assert_eq!(r.method, "tools/call");
    assert_eq!(sse_address(None), "http://127.0.0.1:11011/sse");
    assert_eq!(sse_address(Some("http://h/sse".to_string())), "http://h/sse");
    assert_eq!(resource_not_found("r://x"), "Resource r://x not found");
    assert_eq!(prompt_not_found("p"), "Prompt p not found");
    assert_eq!(sse_server_url(None), "http://localhost:11011/mcp/sse");
    assert_eq!(sse_server_url(Some("8080")), "http://localhost:8080/mcp/sse");
    assert_eq!(sse_server_url(Some("port")), "http://localhost:11011/mcp/sse");
    assert_eq!(proxy_server_instructions(), "Dockmaster MCP Proxy Server");
}

#[test]
fn execution_response_keeps_the_result() {
    let r: ToolExecutionResponse = execution_response(Ok(s("done")), "x");
    assert!(r.success);
    assert_eq!(r.result.unwrap().as_str().unwrap(), "done");
}
