use mcp_core::entities::DomainError;
use mcp_core::json::Json;
use mcp_core::process::{MockProcessManager, TokioProcessManager};

fn obj(members: Vec<(&str, Json)>) -> Json {
    Json::Object(members.into_iter().map(|(k, v)| (k.to_string(), v)).collect())
}

fn s(x: &str) -> Json {
    Json::Str(x.to_string())
}

fn first_text(result: &Json) -> String {
    let content = result.get("content").expect("content");
    let items = content.as_array().expect("array");
    items[0].str_field("text").expect("text").clone()
}

#[test]
fn mock_lists_three_tools() {
    let m = MockProcessManager::new();
    let tools = m.discover_server_tools("any").ok().expect("tools");
    let ids: Vec<String> = tools.iter().map(|t| t.str_field("id").unwrap().clone()).collect();
    assert_eq!(ids, vec!["hello_world", "hello_world_with_input", "hello_world_with_config"]);
    assert_eq!(tools[0].str_field("description").unwrap(), "A simple hello world tool");
}

#[test]
fn mock_runs_its_tools() {
    let m = MockProcessManager::new();
    let r = m.execute_server_tool("s", "hello_world", &Json::Null).ok().unwrap();
    assert_eq!(first_text(&r), "hello world");
    let r = m.execute_server_tool("s", "hello_world_with_input", &obj(vec![("message", s("there"))])).ok().unwrap();
    assert_eq!(first_text(&r), "hello world there");
    let r = m.execute_server_tool("s", "hello_world_with_input", &obj(vec![])).ok().unwrap();
    assert_eq!(first_text(&r), "hello world default message");
    let r = m.execute_server_tool("s", "hello_world_with_config", &obj(vec![("config", s("c1"))])).ok().unwrap();
    assert_eq!(first_text(&r), "hello configuration c1");
    let r = m.execute_server_tool("s", "hello_world_with_config", &obj(vec![("config", Json::Bool(true))])).ok().unwrap();
    assert_eq!(first_text(&r), "hello configuration default config");
}

#[test]
fn mock_refuses_unknown_tools() {
    let m = MockProcessManager::new();
    match m.execute_server_tool("s", "nope", &Json::Null) {
        Err(DomainError::ToolNotFound(msg)) => assert_eq!(msg, "Unknown tool: nope"),
        _ => panic!("expected ToolNotFound"),
    }
    match m.spawn_process() {
        Err(DomainError::ProcessError(msg)) => assert_eq!(msg, "Mock process manager doesn't actually spawn processes"),
        _ => panic!("expected ProcessError"),
    }
    assert!(m.kill_process().is_ok());
    assert!(m.kill_all_processes().is_ok());
}

#[test]
fn tokio_manager_frames_commands() {
    let t = TokioProcessManager::new();
    assert_eq!(t.command_line("discover"), "discover\n");
    let line = t.execute_command_line("echo", obj(vec![("x", Json::Number("1".to_string()))]));
    let v: serde_json::Value = serde_json::from_str(line.trim_end()).unwrap();
    assert!(line.ends_with('\n'));
    assert_eq!(v["command"], "execute");
    assert_eq!(v["tool_id"], "echo");
    assert_eq!(v["parameters"]["x"], 1);
}

#[test]
fn tokio_manager_reads_answers() {
    let t = TokioProcessManager::new();
    assert!(matches!(t.response_line(None, "srv"), Err(DomainError::TimeoutError(id)) if id == "srv"));
    assert!(matches!(t.response_line(Some(Ok(String::new())), "srv"), Err(DomainError::ServerClosedConnection)));
    assert!(matches!(t.response_line(Some(Err("boom".to_string())), "srv"), Err(DomainError::StdoutReadError(e)) if e == "boom"));
    assert_eq!(t.response_line(Some(Ok("{}\n".to_string())), "srv").ok().unwrap(), "{}\n");
}

#[test]
fn tokio_manager_reads_launch_settings() {
    let t = TokioProcessManager::new();
    let cfg = obj(vec![("command", s("npx")), ("args", Json::Array(vec![s("-y"), Json::Bool(true), s("pkg")]))]);
    let (cmd, args) = t.spawn_command(&cfg).ok().unwrap();
    assert_eq!(cmd, "npx");
    assert_eq!(args, vec!["-y", "pkg"]);
    let (_, args) = t.spawn_command(&obj(vec![("command", s("node"))])).ok().unwrap();
    assert!(args.is_empty());
    match t.spawn_command(&obj(vec![("args", Json::Array(vec![]))])) {
        Err(DomainError::InvalidToolConfiguration(m)) => assert_eq!(m, "Missing command"),
        _ => panic!("expected InvalidToolConfiguration"),
    }
}

#[test]
fn tokio_manager_reads_tools_and_results() {
    let t = TokioProcessManager::new();
    let tools = t.discovered_tools(Ok(obj(vec![("tools", Json::Array(vec![obj(vec![("id", s("a"))])]))]))).ok().unwrap();
    assert_eq!(tools.len(), 1);
    assert!(t.discovered_tools(Ok(obj(vec![]))).ok().unwrap().is_empty());
    assert!(matches!(t.discovered_tools(Err("bad".to_string())), Err(DomainError::JsonParseError(e)) if e == "bad"));
    let r = t.execution_result(Ok(obj(vec![("result", s("ok"))]))).ok().unwrap();
    assert_eq!(r.as_str().unwrap(), "ok");
    assert!(matches!(t.execution_result(Ok(obj(vec![]))), Err(DomainError::NoResultField)));
}
