use mcp_core::db_rows::{env_rows, read_all, read_definition, tool_row, DBTool, DBToolEnv};
use mcp_core::migration::{analyze_server_config, export_servers, import_desktop_config, DesktopClientConfig,
    DesktopServerConfig, ServerEnvRecord, ServerRecord};
use mcp_core::server_model::{Distribution, ServerConfiguration, ServerDefinition, ServerEnvironment};
use mcp_core::strmap::StrMap;

fn definition() -> ServerDefinition {
    let mut env = StrMap::new();
    env.insert("API_KEY".to_string(), ServerEnvironment {
        description: "the key".to_string(),
        default: Some("k1".to_string()),
        required: true,
    });
    env.insert("REGION".to_string(), ServerEnvironment {
        description: String::new(),
        default: Some("eu".to_string()),
        required: false,
    });
    ServerDefinition {
        name: "Weather".to_string(),
        description: "Forecasts".to_string(),
        enabled: true,
        tools_type: "node".to_string(),
        entry_point: None,
        configuration: Some(ServerConfiguration {
            command: Some("npx".to_string()),
            args: Some(vec!["-y".to_string(), "weather \"server\"".to_string()]),
            env: Some(env),
        }),
        distribution: Some(Distribution { dist_type: "npm".to_string(), package: "weather".to_string() }),
    }
}

#[test]
fn stored_definition_reads_back() {
    let d = definition();
    let row = tool_row("srv/1", &d);
    assert_eq!(row.id, "srv/1");
    assert_eq!(row.args.as_deref(), Some("[\"-y\",\"weather \\\"server\\\"\"]"));
    let rows = env_rows("srv/1", &d);
    assert_eq!(rows.len(), 2);
    let back = read_definition(row, &rows);
    assert_eq!(back.name, "Weather");
    let c = back.configuration.expect("configuration");
    assert_eq!(c.command.as_deref(), Some("npx"));
    assert_eq!(c.args, Some(vec!["-y".to_string(), "weather \"server\"".to_string()]));
    let env = c.env.expect("env");
    assert_eq!(env.len(), 2);
    let key = env.get("API_KEY").expect("API_KEY");
    assert_eq!(key.default.as_deref(), Some("k1"));
    assert!(key.required);
    let dist = back.distribution.expect("distribution");
    assert_eq!(dist.dist_type, "npm");
    assert_eq!(dist.package, "weather");
}

#[test]
fn empty_command_is_not_stored() {
    let mut d = definition();
    d.configuration = Some(ServerConfiguration { command: Some(String::new()), args: None, env: None });
    d.distribution = None;
    let row = tool_row("a", &d);
    assert!(row.command.is_none());
    assert!(row.args.is_none());
    assert!(row.distribution_type.is_none() && row.distribution_package.is_none());
    assert!(env_rows("a", &d).is_empty());
}

fn db_tool(id: &str, args: Option<&str>) -> DBTool {
    DBTool {
        id: id.to_string(),
        name: format!("n-{}", id),
        description: String::new(),
        tool_type: "python".to_string(),
        enabled: false,
        entry_point: None,
        command: None,
        args: args.map(|a| a.to_string()),
        distribution_type: Some("pip".to_string()),
        distribution_package: None,
    }
}

fn env_row(tool: &str, key: &str, value: &str) -> DBToolEnv {
    DBToolEnv {
        tool_id: tool.to_string(),
        env_key: key.to_string(),
        env_value: value.to_string(),
        env_description: String::new(),
        env_required: false,
    }
}

#[test]
fn rows_read_as_definitions() {
    let rows = vec![db_tool("a", Some("[\"x\"]")), db_tool("b", Some("not json"))];
    let envs = vec![env_row("a", "K", "1"), env_row("b", "K", "2"), env_row("a", "K", "3")];
    let all = read_all(rows, &envs);
    assert_eq!(all.len(), 2);
    let a = all.get("a").expect("a");
    let ca = a.configuration.as_ref().unwrap();
    assert_eq!(ca.args, Some(vec!["x".to_string()]));
    assert_eq!(ca.env.as_ref().unwrap().get("K").unwrap().default.as_deref(), Some("3"));
    let b = all.get("b").expect("b");
    let cb = b.configuration.as_ref().unwrap();
    assert!(cb.args.is_none());
    assert_eq!(b.distribution.as_ref().unwrap().package, "");
    let lone = read_definition(db_tool("c", None), &envs);
    assert!(lone.configuration.unwrap().env.is_none());
}

fn client(command: &str, args: &[&str]) -> DesktopServerConfig {
    DesktopServerConfig {
        command: command.to_string(),
        args: args.iter().map(|a| a.to_string()).collect(),
        env: StrMap::new(),
    }
}

#[test]
fn server_kinds_are_recognised() {
    let (t, k, w, e) = analyze_server_config(&client("node", &["/opt/clanki/index.js"]));
    assert_eq!((t.as_str(), k.as_str(), w, e.as_deref()), ("local", "node", None, Some("/opt/clanki/index.js")));
    let (t, k, w, e) = analyze_server_config(&client("uv", &["--directory", "/src/sheets", "run", "main.py"]));
    assert_eq!((t.as_str(), k.as_str(), w.as_deref(), e), ("local", "python", Some("/src/sheets"), None));
    let (_, k, w, _) = analyze_server_config(&client("uv", &["run", "--directory"]));
    assert_eq!((k.as_str(), w), ("python", None));
    let (t, k, _, e) = analyze_server_config(&client("/usr/bin/tool", &[]));
    assert_eq!((t.as_str(), k.as_str(), e.as_deref()), ("local", "custom", Some("/usr/bin/tool")));
    let (t, k, w, e) = analyze_server_config(&client("npx", &["-y", "pkg"]));
    assert_eq!((t.as_str(), k.as_str(), w, e), ("custom", "custom", None, None));
}

#[test]
fn client_servers_are_imported_except_the_proxy() {
    let mut servers = StrMap::new();
    let mut with_env = client("npx", &["-y", "pkg"]);
    with_env.env.insert("TOKEN".to_string(), "t".to_string());
    servers.insert("github".to_string(), with_env);
    servers.insert("mcp-dockmaster".to_string(), client("/bin/proxy", &[]));
    servers.insert("local".to_string(), client("node", &["/x.js"]));
    let out = import_desktop_config(DesktopClientConfig { mcp_servers: servers }, "Desk App");
    assert_eq!(out.len(), 2);
    assert_eq!(out[0].id, "imported/github");
    assert_eq!(out[0].description, "Imported from Desk App: github");
    assert_eq!(out[0].server_type.as_deref(), Some("custom"));
    assert_eq!(out[0].args, Some(vec!["-y".to_string(), "pkg".to_string()]));
    let token = out[0].env_vars.get("TOKEN").expect("TOKEN");
    assert_eq!(token.value, "t");
    assert_eq!(token.description, "Imported from Desk App config");
    assert!(!token.required);
    assert_eq!(out[1].tools_type, "node");
    assert_eq!(out[1].executable_path.as_deref(), Some("/x.js"));
    assert!(out.iter().all(|s| s.enabled));
}

fn record(id: &str, args: Option<&str>) -> ServerRecord {
    ServerRecord {
        id: id.to_string(),
        name: id.to_string(),
        description: String::new(),
        tools_type: "node".to_string(),
        enabled: true,
        entry_point: None,
        command: Some("npx".to_string()),
        args: args.map(|a| a.to_string()),
        distribution_type: None,
        distribution_package: None,
        server_type: None,
        working_directory: None,
        executable_path: None,
    }
}

#[test]
fn servers_are_exported_with_their_variables() {
    let envs = vec![
        ServerEnvRecord { server_id: "a".to_string(), env_key: "K".to_string(), env_value: "1".to_string(),
            env_description: "d".to_string(), env_required: true },
        ServerEnvRecord { server_id: "b".to_string(), env_key: "K".to_string(), env_value: "2".to_string(),
            env_description: String::new(), env_required: false },
    ];
    let data = export_servers(vec![record("a", Some("[\"-y\",\"x\"]")), record("b", Some("plain")), record("c", None)], &envs);
    assert_eq!(data.version, "1.0");
    assert_eq!(data.servers.len(), 3);
    assert_eq!(data.servers[0].args, Some(vec!["-y".to_string(), "x".to_string()]));
    assert_eq!(data.servers[1].args, Some(vec!["plain".to_string()]));
    assert!(data.servers[2].args.is_none());
    let k = data.servers[0].env_vars.get("K").expect("K");
    assert_eq!(k.value, "1");
    assert!(k.required);
    assert_eq!(data.servers[1].env_vars.get("K").unwrap().value, "2");
    assert_eq!(data.servers[2].env_vars.len(), 0);
}

#[test]
fn all_tools_read_as_each_alone() {
    let rows = vec![db_tool("a", Some("[\"x\", \"y\"]")), db_tool("b", None)];
    let envs = vec![env_row("a", "K", "1"), env_row("b", "Q", "2")];
    let all = read_all(rows, &envs);
    for id in ["a", "b"] {
        let together = all.get(id).expect("read among all");
        let alone = read_definition(db_tool(id, if id == "a" { Some("[\"x\", \"y\"]") } else { None }), &envs);
        assert_eq!(together.name, alone.name);
        let (ct, ca) = (together.configuration.as_ref().unwrap(), alone.configuration.as_ref().unwrap());
        assert_eq!(ct.args, ca.args);
        assert_eq!(ct.command, ca.command);
        let (et, ea) = (ct.env.as_ref().unwrap(), ca.env.as_ref().unwrap());
        assert_eq!(et.len(), ea.len());
        for (k, v) in &ea.entries {
            assert_eq!(et.get(k).unwrap().default, v.default);
        }
    }
}
