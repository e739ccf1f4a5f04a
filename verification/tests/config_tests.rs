use manatan_proxy::config::{backend_base_url, default_backend_port, parse_bool_setting};
use manatan_proxy::handle::ManatanServerConfig;
use manatan_proxy::urls::{backend_ws_url, join_url};
use manatan_proxy::Config;

fn sample_config() -> Config {
    Config {
        host: "127.0.0.1".to_string(),
        port: 4568,
        java_runtime_url: "http://127.0.0.1:4566".to_string(),
        webview_enabled: false,
        aidoku_index_url: String::new(),
        aidoku_enabled: true,
        aidoku_cache_path: "aidoku".to_string(),
        db_path: "manatan.sqlite".to_string(),
        migrate_path: None,
        tracker_remote_search: true,
        tracker_search_ttl_seconds: 3600,
        downloads_path: "downloads".to_string(),
        local_manga_path: "local-manga".to_string(),
        local_anime_path: "local-anime".to_string(),
    }
}

#[test]
fn addr_joins_host_and_port() {
    let config = sample_config();
    assert_eq!(config.addr(), "127.0.0.1:4568");
}

#[test]
fn addr_renders_port_zero() {
    let mut config = sample_config();
    config.port = 0;
    assert_eq!(config.addr(), "127.0.0.1:0");
}

#[test]
fn bool_settings_parse_in_any_ascii_case() {
    for value in ["1", "true", "TRUE", "yes", "Yes", "on", "ON"] {
        assert_eq!(parse_bool_setting(value), Some(true), "for {value}");
    }
    for value in ["0", "false", "False", "no", "NO", "off", "Off"] {
        assert_eq!(parse_bool_setting(value), Some(false), "for {value}");
    }
    for value in ["", "2", "maybe", "truth", "onn"] {
        assert_eq!(parse_bool_setting(value), None, "for {value}");
    }
}

#[test]
fn backend_port_defaults_to_one_above_listen_port() {
    assert_eq!(default_backend_port(4568), 4569);
    assert_eq!(default_backend_port(0), 1);
    assert_eq!(default_backend_port(u16::MAX), u16::MAX);
}

#[test]
fn backend_base_url_is_plain_http() {
    assert_eq!(backend_base_url("127.0.0.1", 4569), "http://127.0.0.1:4569");
}

#[test]
fn ws_url_translates_the_scheme() {
    assert_eq!(backend_ws_url("http://127.0.0.1:4569"), "ws://127.0.0.1:4569");
    assert_eq!(backend_ws_url("https://backend.test"), "wss://backend.test");
    assert_eq!(backend_ws_url("backend.test:9000"), "ws://backend.test:9000");
}

#[test]
fn join_url_concatenates() {
    assert_eq!(join_url("ws://127.0.0.1:4569", "/api/v1/library?x=1"), "ws://127.0.0.1:4569/api/v1/library?x=1");
}

#[test]
fn startup_record_carries_fields_over() {
    let config = sample_config();
    let record = ManatanServerConfig::from_config(&config, "127.0.0.1", 4569).unwrap();
    assert_eq!(record.host, "127.0.0.1");
    assert_eq!(record.port, 4569);
    assert_eq!(record.java_runtime_url, "http://127.0.0.1:4566");
    assert!(!record.webview_enabled);
    assert!(record.aidoku_enabled);
    assert_eq!(record.db_path, "manatan.sqlite");
    assert_eq!(record.migrate_path, None);
    assert!(record.tracker_remote_search);
    assert_eq!(record.tracker_search_ttl_seconds, 3600);
}

#[test]
fn empty_migrate_path_is_not_handed_on() {
    let mut config = sample_config();
    config.migrate_path = Some(String::new());
    let record = ManatanServerConfig::from_config(&config, "127.0.0.1", 4569).unwrap();
    assert_eq!(record.migrate_path, None);
    config.migrate_path = Some("old.sqlite".to_string());
    let record = ManatanServerConfig::from_config(&config, "127.0.0.1", 4569).unwrap();
    assert_eq!(record.migrate_path, Some("old.sqlite".to_string()));
}

#[test]
fn nul_in_a_field_is_a_configuration_error() {
    let config = sample_config();
    let err = ManatanServerConfig::from_config(&config, "127.0\0.1", 4569).unwrap_err();
    assert_eq!(err.message(), "backend_host contains NUL bytes");

    let mut config = sample_config();
    config.db_path = "bad\0path".to_string();
    let err = ManatanServerConfig::from_config(&config, "127.0.0.1", 4569).unwrap_err();
    assert_eq!(err.message(), "db_path contains NUL bytes");

    let mut config = sample_config();
    config.migrate_path = Some("bad\0migrate".to_string());
    let err = ManatanServerConfig::from_config(&config, "127.0.0.1", 4569).unwrap_err();
    assert_eq!(err.message(), "migrate_path contains NUL bytes");
}
