//! Tests for cluster settings: URL rendering, lookup by name, and the
//! settings file path.

use escli::config::{config_file_path, Cluster, Config, ConfigPathError, Protocol};

fn cluster(host: &str, port: Option<usize>, protocol: Option<Protocol>) -> Cluster {
    Cluster { host: host.to_string(), port, protocol }
}

#[test]
fn url_uses_defaults_for_missing_parts() {
    let c = cluster("search.example.com", None, None);
    assert_eq!(c.url(), "https://search.example.com:9200");
}

#[test]
fn url_uses_explicit_parts() {
    let c = cluster("localhost", Some(9300), Some(Protocol::Http));
    assert_eq!(c.url(), "http://localhost:9300");
}

#[test]
fn url_mixed_default_port() {
    let c = cluster("node-1", None, Some(Protocol::Http));
    assert_eq!(c.url(), "http://node-1:9200");
}

#[test]
fn protocol_text() {
    assert_eq!(Protocol::Http.as_str(), "http");
    assert_eq!(Protocol::Https.as_str(), "https");
}

#[test]
fn known_cluster_is_found() {
    let config = Config::new(vec![
        ("local".to_string(), cluster("localhost", Some(9200), Some(Protocol::Http))),
        ("prod".to_string(), cluster("search.example.com", None, None)),
    ]);
    let c = config.get_cluster_by_name("prod").unwrap();
    assert_eq!(c.host, "search.example.com");
    assert_eq!(c.port, None);
}

#[test]
fn unknown_cluster_reports_valid_names() {
    let config = Config::new(vec![
        ("local".to_string(), cluster("localhost", None, None)),
        ("prod".to_string(), cluster("search.example.com", None, None)),
    ]);
    let e = config.get_cluster_by_name("staging").unwrap_err();
    assert_eq!(e.name, "staging");
    assert_eq!(e.valid_names, vec!["local".to_string(), "prod".to_string()]);
}

#[test]
fn empty_config_finds_nothing() {
    let config = Config::new(vec![]);
    let e = config.get_cluster_by_name("any").unwrap_err();
    assert_eq!(e.name, "any");
    assert!(e.valid_names.is_empty());
}

#[test]
fn valid_names_keep_order() {
    let config = Config::new(vec![
        ("b".to_string(), cluster("h1", None, None)),
        ("a".to_string(), cluster("h2", None, None)),
    ]);
    assert_eq!(config.get_valid_cluster_names(), vec!["b".to_string(), "a".to_string()]);
}

#[test]
fn explicit_config_path_wins() {
    let explicit = "/tmp/other.yaml".to_string();
    let home = "/home/someone".to_string();
    let r = config_file_path(Some(&explicit), Some(&home));
    assert_eq!(r.unwrap(), "/tmp/other.yaml");
}

#[test]
fn default_config_path_under_home() {
    let home = "/home/someone".to_string();
    let r = config_file_path(None, Some(&home));
    assert_eq!(r.unwrap(), "/home/someone/.escli/config.yaml");
}

#[test]
fn no_home_no_path() {
    let r = config_file_path(None, None);
    assert_eq!(r.unwrap_err(), ConfigPathError::HomeDirectoryUnknown);
}
