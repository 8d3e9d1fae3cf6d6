use mcp_core::config::ToolConfig;
use mcp_core::core_settings::{http_port, parse_u16};

#[test]
fn test_default_config() {
    let config = ToolConfig::default();
    assert_eq!(config.tool_name("register_server"), "dockmaster_register_server");
    assert!(config.is_namespace_enabled());
}

#[test]
fn test_custom_prefix() {
    let config = ToolConfig::from_env_values(None, Some("dm_"));
    assert_eq!(config.tool_name("register_server"), "dm_register_server");
}

#[test]
fn test_disabled_namespace() {
    let config = ToolConfig::from_env_values(Some("disabled"), None);
    assert_eq!(config.tool_name("register_server"), "register_server");
    assert!(!config.is_namespace_enabled());
}

#[test]
fn disabled_mode_is_read_without_regard_to_case() {
    let config = ToolConfig::from_env_values(Some("DISABLED"), Some("dm_"));
    assert!(!config.is_namespace_enabled());
    assert_eq!(config.prefix, "");
    assert_eq!(config.tool_name("list_servers"), "list_servers");
}

#[test]
fn other_modes_keep_namespacing() {
    let config = ToolConfig::from_env_values(Some("enabled"), None);
    assert!(config.is_namespace_enabled());
    assert_eq!(config.tool_name("x"), "dockmaster_x");
}

#[test]
fn port_setting_is_read_as_a_number() {
    assert_eq!(http_port(None), 11011);
    assert_eq!(http_port(Some("8080")), 8080);
    assert_eq!(http_port(Some("+42")), 42);
    assert_eq!(http_port(Some("65535")), 65535);
    assert_eq!(http_port(Some("65536")), 11011);
    assert_eq!(http_port(Some("")), 11011);
    assert_eq!(http_port(Some("80a")), 11011);
    assert_eq!(http_port(Some("-1")), 11011);
}

#[test]
fn port_parse_agrees_with_std() {
    for s in ["0", "1", "007", "+", "+0", "12345", "99999", " 1", "1 ", "6553a", "65535", "65536"] {
        assert_eq!(parse_u16(s), s.parse::<u16>().ok(), "input {:?}", s);
    }
}
