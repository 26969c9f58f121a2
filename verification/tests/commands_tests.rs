//! Tests for the command helpers: listing cells, health colouring, version
//! attachment, response rendering decisions and the reindex acceptance.

use escli::application::{Application, ApplicationArguments};
use escli::commands::indices_list::{color_for_health, display_option, HealthColor, Index};
use escli::commands::reindex::{handle_from_task_field, SubmitParseError, POLL_INTERVAL_MS};
use escli::config::{Cluster, Config};
use escli::utils::handle_response::{response_plan, RenderPlan};
use escli::utils::output::Output;

fn sample_index() -> Index {
    Index {
        name: "logs-2024".to_string(),
        health: "green".to_string(),
        status: "open".to_string(),
        pri: "1".to_string(),
        rep: "1".to_string(),
        size: Some("10kb".to_string()),
        docs_count: None,
        version: None,
    }
}

#[test]
fn display_option_shows_value_or_nothing() {
    assert_eq!(display_option(&Some("10kb".to_string())), "10kb");
    assert_eq!(display_option(&None), "");
}

#[test]
fn health_colors() {
    assert_eq!(color_for_health("yellow"), HealthColor::Yellow);
    assert_eq!(color_for_health("green"), HealthColor::Green);
    assert_eq!(color_for_health("red"), HealthColor::Red);
    assert_eq!(color_for_health("unknown"), HealthColor::Plain);
    assert_eq!(color_for_health(""), HealthColor::Plain);
}

#[test]
fn colorized_name_contains_the_name() {
    let index = sample_index();
    assert!(index.display_name_colorized().contains("logs-2024"));
}

#[test]
fn with_version_only_sets_version() {
    let index = sample_index();
    let updated = index.with_version(Some("8.10.0".to_string()));
    assert_eq!(updated.name, "logs-2024");
    assert_eq!(updated.health, "green");
    assert_eq!(updated.size, Some("10kb".to_string()));
    assert_eq!(updated.docs_count, None);
    assert_eq!(updated.version, Some("8.10.0".to_string()));
}

#[test]
fn response_plans() {
    assert_eq!(response_plan(&Output::Default, true), RenderPlan::SuccessMessage);
    assert_eq!(response_plan(&Output::Json, true), RenderPlan::SuccessBody);
    assert_eq!(response_plan(&Output::Default, false), RenderPlan::ErrorMessageAndTable);
    assert_eq!(response_plan(&Output::Json, false), RenderPlan::ErrorBody);
}

#[test]
fn task_field_becomes_handle() {
    let h = handle_from_task_field(Some("node:1234".to_string())).unwrap();
    assert_eq!(h.id, "node:1234");
    assert_eq!(handle_from_task_field(None), Err(SubmitParseError::MissingTask));
}

#[test]
fn poll_interval_is_fifteen_seconds() {
    assert_eq!(POLL_INTERVAL_MS, 15000);
}

#[test]
fn application_resolves_its_cluster() {
    let config = Config::new(vec![(
        "local".to_string(),
        Cluster { host: "localhost".to_string(), port: None, protocol: None },
    )]);
    let args = ApplicationArguments {
        sub_command: None,
        cluster: "local".to_string(),
        config: None,
        verbose: false,
        ui: false,
    };
    let app = Application::new(config, args);
    let cluster = app.get_current_cluster().unwrap();
    assert_eq!(cluster.host, "localhost");
    assert_eq!(cluster.url(), "https://localhost:9200");
}

#[test]
fn application_rejects_unknown_cluster() {
    let config = Config::new(vec![(
        "local".to_string(),
        Cluster { host: "localhost".to_string(), port: None, protocol: None },
    )]);
    let args = ApplicationArguments {
        sub_command: None,
        cluster: "prod".to_string(),
        config: None,
        verbose: false,
        ui: false,
    };
    let app = Application::new(config, args);
    let e = app.get_current_cluster().unwrap_err();
    assert_eq!(e.name, "prod");
    assert_eq!(e.valid_names, vec!["local".to_string()]);
}
