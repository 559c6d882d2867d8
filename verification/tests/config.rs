use cloudmesh::config::{reads_env_file, AppConfig, ConfigSource, LaunchMode};

fn source() -> ConfigSource {
    ConfigSource {
        database_url: None,
        cloudmesh_server_url: None,
        api_key: None,
        node_id: None,
        hostname: None,
        telemetry_interval: None,
        offline_threshold: None,
    }
}

#[test]
fn defaults_apply_where_nothing_is_set() {
    let c = AppConfig::from_source(source());
    assert_eq!(c.database_url, None);
    assert_eq!(c.cloudmesh_server_url, None);
    assert_eq!(c.api_key, None);
    assert_eq!(c.node_id, "unknown-node");
    assert_eq!(c.telemetry_interval_secs, 5);
    assert_eq!(c.offline_threshold_secs, 30);
    assert!(!c.is_server());
    assert_eq!(c.launch_mode(), LaunchMode::MissingServerUrl);
}

#[test]
fn a_server_reports_to_itself_by_default() {
    let mut s = source();
    s.database_url = Some("postgres://db".to_string());
    s.hostname = Some("box".to_string());
    let c = AppConfig::from_source(s);
    assert!(c.is_server());
    assert_eq!(c.cloudmesh_server_url.as_deref(), Some("http://127.0.0.1:3000"));
    assert_eq!(c.node_id, "box");
    assert_eq!(c.launch_mode(), LaunchMode::Server { local_agent: true });
}

#[test]
fn configured_values_win() {
    let mut s = source();
    s.cloudmesh_server_url = Some("http://central:3000".to_string());
    s.api_key = Some("secret".to_string());
    s.node_id = Some("node-7".to_string());
    s.hostname = Some("box".to_string());
    s.telemetry_interval = Some("15".to_string());
    s.offline_threshold = Some("-4".to_string());
    let c = AppConfig::from_source(s);
    assert_eq!(c.cloudmesh_server_url.as_deref(), Some("http://central:3000"));
    assert_eq!(c.api_key.as_deref(), Some("secret"));
    assert_eq!(c.node_id, "node-7");
    assert_eq!(c.telemetry_interval_secs, 15);
    assert_eq!(c.offline_threshold_secs, -4);
    assert_eq!(c.launch_mode(), LaunchMode::AgentOnly);
}

#[test]
fn unparsable_numbers_fall_back_to_defaults() {
    let mut s = source();
    s.telemetry_interval = Some("-1".to_string());
    s.offline_threshold = Some("30s".to_string());
    let c = AppConfig::from_source(s);
    assert_eq!(c.telemetry_interval_secs, 5);
    assert_eq!(c.offline_threshold_secs, 30);
}

#[test]
fn env_file_is_skipped_only_for_an_explicit_agent() {
    assert!(!reads_env_file(true, false));
    assert!(reads_env_file(true, true));
    assert!(reads_env_file(false, false));
    assert!(reads_env_file(false, true));
}
