use mcp_core::desktop::{check_docker_project, check_node_project, check_uv_project, package_json_name, pyproject_name, Window};
use mcp_core::dto::{ToolConfigUpdateDTO, ToolUpdateDTO};
use mcp_core::entities::ToolConfig;
use mcp_core::json::Json;
use mcp_core::services::{config_update_done, tool_update_done};

fn files(names: &[&str]) -> Vec<String> {
    names.iter().map(|n| n.to_string()).collect()
}

fn obj(members: Vec<(&str, Json)>) -> Json {
    Json::Object(members.into_iter().map(|(k, v)| (k.to_string(), v)).collect())
}

#[test]
fn main_window_label() {
    assert_eq!(Window::Main.as_str(), "main");
}

#[test]
fn uv_projects_are_recognised() {
    assert!(check_uv_project(&files(&["uv.lock"]), None));
    assert!(check_uv_project(&files(&["pyproject.toml"]), None));
    assert!(check_uv_project(&files(&["pyproject.toml"]), Some("[Build-System]\nrequires = []".to_string())));
    assert!(check_uv_project(&files(&["pyproject.toml"]), Some("[tool.UV]".to_string())));
    assert!(!check_uv_project(&files(&["pyproject.toml"]), Some("[project]\nname = \"x\"".to_string())));
    assert!(!check_uv_project(&files(&["setup.py"]), Some("uv".to_string())));
    assert_eq!(pyproject_name(), "pyproject.toml");
}

#[test]
fn node_projects_are_recognised() {
    let scripts = |names: &[&str]| obj(vec![("scripts", obj(names.iter().map(|n| (*n, Json::Str(String::new()))).collect()))]);
    let pkg = files(&["package.json"]);
    assert_eq!(check_node_project(&pkg, Some(scripts(&["dev", "serve"]))).as_deref(), Some("npm run serve"));
    assert_eq!(check_node_project(&pkg, Some(scripts(&["run", "dev"]))).as_deref(), Some("npm run dev"));
    assert_eq!(check_node_project(&pkg, Some(scripts(&["build"]))).as_deref(), Some("npm start"));
    assert_eq!(check_node_project(&pkg, Some(scripts(&[]))).as_deref(), Some("node"));
    assert_eq!(check_node_project(&pkg, Some(obj(vec![]))).as_deref(), Some("node"));
    assert_eq!(check_node_project(&pkg, None).as_deref(), Some("node"));
    assert_eq!(check_node_project(&files(&["yarn.lock"]), None).as_deref(), Some("node"));
    assert_eq!(check_node_project(&files(&["README.md"]), None), None);
    assert_eq!(package_json_name(), "package.json");
}

#[test]
fn docker_projects_are_recognised() {
    assert_eq!(check_docker_project(&files(&["Dockerfile", "compose.yaml"])).as_deref(), Some("docker-compose up"));
    assert_eq!(check_docker_project(&files(&["dockerfile"])).as_deref(), Some("docker run"));
    assert_eq!(check_docker_project(&files(&["Makefile"])), None);
}

#[test]
fn application_requests_become_domain_requests() {
    let q = ToolUpdateDTO { tool_id: "t".to_string(), enabled: false }.into_request();
    assert_eq!(q.tool_id, "t");
    assert!(!q.enabled);
    let c = ToolConfigUpdateDTO { tool_id: "t".to_string(), config: ToolConfig { env: None, command: Some("x".to_string()), args: None } }
        .into_request();
    assert!(c.config.env.is_none());
    assert_eq!(tool_update_done("t", false).message, "Tool 't' disabled successfully");
    assert_eq!(config_update_done("t").message, "Tool 't' configuration updated successfully");
}
