//! Configuration building and event construction.

use api_backend::events::{
    fallback_source_url, map_source_type, topic_source_sync_requested, EventHeaders, SourceType,
};
use api_backend::health::{overall_status, ComponentHealth};
use api_backend::models::source;
use api_backend::models::user::{User, UserContext};
use api_backend::{Config, ConfigError, SourceSyncRequestedEvent, SyncRequestResponse};

fn full_values() -> Vec<Option<String>> {
    vec![
        Some("9000".to_string()),                 // port
        Some("postgres://db".to_string()),        // database url
        Some("SECRET-REDACTED".to_string()),      // jwt secret
        Some("http://auth".to_string()),
        Some("http://data".to_string()),
        Some("http://graph".to_string()),
        Some("http://mcp".to_string()),
        Some("http://toggles".to_string()),
        Some("http://processor".to_string()),
        Some("http://enhanced".to_string()),
        Some("http://a.example, http://b.example".to_string()),
        Some("100".to_string()),
        Some("50".to_string()),
        Some("25".to_string()),
        Some("5".to_string()),
    ]
}

fn build(values: Vec<Option<String>>) -> Result<Config, ConfigError> {
    let mut it = values.into_iter();
    Config::from_values(
        it.next().unwrap(),
        it.next().unwrap(),
        it.next().unwrap(),
        it.next().unwrap(),
        it.next().unwrap(),
        it.next().unwrap(),
        it.next().unwrap(),
        it.next().unwrap(),
        it.next().unwrap(),
        it.next().unwrap(),
        it.next().unwrap(),
        it.next().unwrap(),
        it.next().unwrap(),
        it.next().unwrap(),
        it.next().unwrap(),
    )
}

#[test]
fn config_builds_from_complete_values() {
    let c = build(full_values()).expect("all required values are present");
    assert_eq!(c.port, 9000);
    assert_eq!(c.database_url, "postgres://db");
    assert_eq!(c.cors_origins, vec!["http://a.example", "http://b.example"]);
    assert_eq!(c.rate_limit_default, 100);
    assert_eq!(c.rate_limit_search, 50);
    assert_eq!(c.rate_limit_sources, 25);
    assert_eq!(c.rate_limit_sync, 5);
}

#[test]
fn first_missing_required_value_is_reported() {
    let mut values = full_values();
    values[1] = None;
    match build(values) {
        Err(ConfigError::MissingEnv(name)) => assert_eq!(name, "DATABASE_URL"),
        _ => panic!("a missing database url must be reported"),
    }
    let mut values = full_values();
    values[6] = None;
    match build(values) {
        Err(ConfigError::MissingEnv(name)) => assert_eq!(name, "MCP_SERVICE_URL"),
        _ => panic!("a missing service url must be reported"),
    }
}

#[test]
fn optional_values_fall_back_to_defaults() {
    let mut values = full_values();
    values[0] = Some("not-a-port".to_string());
    values[10] = None;
    values[11] = None;
    let c = build(values).expect("only optional values are absent");
    assert_eq!(c.port, 8000);
    assert_eq!(c.cors_origins, vec!["http://localhost:3000"]);
    assert_eq!(c.rate_limit_default, 120);
}

#[test]
fn sync_event_carries_fresh_identifiers_and_builders_fill_fields() {
    let event = SourceSyncRequestedEvent::new(
        "src-1".to_string(),
        SourceType::Github,
        "https://example.com/repo.git".to_string(),
    )
    .with_user("u1".to_string())
    .with_branch("main".to_string())
    .with_token("SECRET-REDACTED".to_string())
    .with_full_sync();

    assert_eq!(event.event_id.len(), 36);
    assert_eq!(event.headers.correlation_id.len(), 36);
    assert_eq!(event.headers.event_type, "source.sync.requested");
    assert_eq!(event.headers.source_service, "api-backend");
    assert_eq!(event.headers.event_version, "1.0");
    assert_eq!(event.metadata.user_id.as_deref(), Some("u1"));
    assert_eq!(event.branch.as_deref(), Some("main"));
    assert!(event.access_token.is_some());
    assert!(event.full_sync);
    assert_eq!(event.correlation_id(), event.headers.correlation_id);

    let response = SyncRequestResponse::from_event(&event);
    assert_eq!(response.correlation_id, event.headers.correlation_id);
    assert_eq!(response.event_id, event.event_id);
    assert_eq!(response.status, "sync_requested");
}

#[test]
fn correlation_is_kept_across_an_operation() {
    let headers = EventHeaders::with_correlation("source.sync.requested", "corr-9".to_string());
    assert_eq!(headers.correlation_id, "corr-9");
    assert_eq!(headers.event_type, topic_source_sync_requested());
}

#[test]
fn event_identifiers_are_fresh_for_each_event() {
    let make = || {
        SourceSyncRequestedEvent::new(
            "s".to_string(),
            SourceType::Local,
            "u".to_string(),
        )
    };
    let a = make();
    let b = make();
    assert_eq!(a.event_id.len(), 36);
    assert_ne!(a.event_id, b.event_id);
    assert_ne!(a.headers.correlation_id, b.headers.correlation_id);
}

#[test]
fn sources_without_an_address_get_a_synthetic_one() {
    assert_eq!(fallback_source_url("src-9"), "source://src-9");
}

#[test]
fn platform_source_kinds_map_to_ingestion_kinds() {
    assert_eq!(map_source_type(&source::SourceType::Github), SourceType::Github);
    assert_eq!(map_source_type(&source::SourceType::Gitlab), SourceType::Gitlab);
    assert_eq!(map_source_type(&source::SourceType::Gdrive), SourceType::GoogleDrive);
    assert_eq!(map_source_type(&source::SourceType::Notion), SourceType::Notion);
    assert_eq!(map_source_type(&source::SourceType::Upload), SourceType::FileUpload);
    assert_eq!(map_source_type(&source::SourceType::Jira), SourceType::Local);
}

#[test]
fn user_context_copies_identity_and_workspace() {
    let user = User {
        id: "u1".to_string(),
        email: "u1@example.com".to_string(),
        name: None,
        picture: None,
        roles: vec!["admin".to_string()],
        workspace_id: None,
    };
    let ctx = UserContext::from_user(&user, "ws-9".to_string());
    assert_eq!(ctx.user_id, "u1");
    assert_eq!(ctx.email, "u1@example.com");
    assert_eq!(ctx.workspace_id, "ws-9");
    assert_eq!(ctx.roles, vec!["admin".to_string()]);
}

#[test]
fn gateway_health_follows_its_components() {
    let healthy = |name: &str| ComponentHealth {
        name: name.to_string(),
        status: "healthy".to_string(),
        message: None,
    };
    let mut components = vec![healthy("auth"), healthy("data")];
    assert_eq!(overall_status(&components), "healthy");
    components.push(ComponentHealth {
        name: "graph".to_string(),
        status: "unreachable: connection refused".to_string(),
        message: None,
    });
    assert_eq!(overall_status(&components), "degraded");
    assert_eq!(overall_status(&Vec::new()), "healthy");
}
