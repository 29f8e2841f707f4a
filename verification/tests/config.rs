use manifest_core::config::ServerConfig;

#[test]
fn default_config_has_no_database_path() {
    let config = ServerConfig::default();
    assert!(config.database_path.is_none());
    assert!(config.default_agent.is_none());
    assert!(config.terminal_enabled.is_none());
}

#[test]
fn terminal_disabled_by_default() {
    let config = ServerConfig::default();
    assert!(!config.is_terminal_enabled());
}

#[test]
fn terminal_enabled_when_set() {
    let config = ServerConfig { terminal_enabled: Some(true), ..Default::default() };
    assert!(config.is_terminal_enabled());
}

#[test]
fn terminal_disabled_when_set_false() {
    let config = ServerConfig { terminal_enabled: Some(false), ..Default::default() };
    assert!(!config.is_terminal_enabled());
}
