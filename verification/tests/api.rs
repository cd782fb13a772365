use simple_network_monitor::api::auth::authorize;
use simple_network_monitor::api::dto::{health_response, ErrorResponse, ModuleResponse};
use simple_network_monitor::api::errors::ApiError;
use simple_network_monitor::api::routes::{history_limit, module_catalog, parse_unique_query, unique_query_params};
use simple_network_monitor::config::ModuleConfigs;
use simple_network_monitor::domain::api_token::ApiToken;
use simple_network_monitor::modules::{ConfigOptionDoc, ModuleKind};
use simple_network_monitor::storage::StorageError;

fn check(token: Option<&str>, header: Option<&str>) -> Result<(), ApiError> {
    let token = token.map(ApiToken::new);
    authorize(token.as_ref(), header.map(|h| h.as_bytes()))
}

#[test]
fn accepts_correct_bearer() {
    assert!(check(Some("secret"), Some("Bearer secret")).is_ok());
}

#[test]
fn rejects_wrong_bearer() {
    assert!(check(Some("secret"), Some("Bearer wrong")).is_err());
}

#[test]
fn rejects_length_mismatch_without_panic() {
    assert!(check(Some("longer-token"), Some("Bearer x")).is_err());
}

#[test]
fn rejects_missing_bearer_prefix() {
    assert!(check(Some("secret"), Some("Basic secret")).is_err());
}

#[test]
fn allows_when_no_token_configured() {
    assert!(check(None, None).is_ok());
}

#[test]
fn rejects_missing_or_non_text_header() {
    assert!(matches!(check(Some("secret"), None), Err(ApiError::Unauthorized)));
    let token = ApiToken::new("s\u{e9}");
    let header = "Bearer s\u{e9}".as_bytes();
    assert!(authorize(Some(&token), Some(header)).is_err());
    assert!(check(Some("a\tb"), Some("Bearer a\tb")).is_ok());
    assert!(check(Some("secret"), Some("bearer secret")).is_err());
}

#[test]
fn history_limit_defaults_and_clamps() {
    assert_eq!(history_limit(None), 100);
    assert_eq!(history_limit(Some(0)), 1);
    assert_eq!(history_limit(Some(25)), 25);
    assert_eq!(history_limit(Some(1_000_000)), 1000);
}

#[test]
fn rejects_duplicate_query_keys() {
    let err = parse_unique_query("group=core&group=edge").unwrap_err();
    assert_eq!(err.status_code(), 400);
    assert_eq!(err.message(), "bad request: duplicate query parameter \"group\"");
}

#[test]
fn query_pairs_are_decoded_in_order() {
    let pairs = parse_unique_query("icmp.status=down&metadata.room=net%20a").unwrap();
    assert_eq!(
        pairs,
        vec![("icmp.status".to_string(), "down".to_string()), ("metadata.room".to_string(), "net a".to_string())]
    );
    assert!(parse_unique_query("").unwrap().is_empty());
    let err = unique_query_params(Err("bad".to_string())).unwrap_err();
    assert_eq!(err.message(), "bad request: invalid query string: bad");
}

#[test]
fn errors_answer_with_their_status() {
    assert_eq!(ApiError::Unauthorized.status_code(), 401);
    assert_eq!(ApiError::NotFound("r9".into()).status_code(), 404);
    assert_eq!(ApiError::NotFound("r9".into()).message(), "r9 not found");
    assert_eq!(ApiError::Storage(StorageError::NotFound("r9".into())).status_code(), 404);
    assert_eq!(ApiError::Storage(StorageError::LockPoisoned).status_code(), 500);
    let body = ErrorResponse::from_error(&ApiError::Storage(StorageError::NotFound("r9".into())));
    assert_eq!(body.error, "host \"r9\" not found");
    assert_eq!(ApiError::Internal("x".into()).message(), "internal error: x");
    assert_eq!(health_response().status, "ok");
}

#[test]
fn module_catalog_reports_enabled_modules() {
    let mut modules = ModuleConfigs::default_configs();
    modules.usage.enabled = true;
    modules.icmp.enabled = false;
    let catalog = module_catalog(&modules);
    assert_eq!(catalog.len(), 2);
    assert_eq!(catalog[0].id, "icmp");
    assert!(!catalog[0].enabled);
    assert_eq!(catalog[1].id, "usage");
    assert!(catalog[1].enabled);
    let keys: Vec<&str> = catalog[1].filters.iter().map(|(k, _)| *k).collect();
    assert_eq!(keys, vec!["inactive_console_for", "no_users_for", "status"]);
    assert!(!catalog[1].config_options.is_empty());
}

#[test]
fn module_response_keeps_the_last_filter_per_key() {
    let meta = ModuleKind::Icmp.metadata();
    let specs = ModuleKind::Usage.filter_specs();
    let mut twice = specs.clone();
    twice.extend(specs);
    let option = ConfigOptionDoc { key: "k", value_type: "t", default_value: "d", description: "x" };
    let r = ModuleResponse::new(meta, true, twice, vec![option]);
    assert_eq!(r.filters.len(), 3);
    assert_eq!(r.config_options[0].key, "k");
    assert!(r.enabled);
}

#[test]
fn module_catalog_documents_filters_and_options() {
    let catalog = module_catalog(&ModuleConfigs::default_configs());
    assert_eq!(catalog[0].name, "ICMP reachability");
    assert!(catalog[0].enabled_by_default);
    assert!(!catalog[1].enabled_by_default);
    assert_eq!(catalog[1].description, "Collects console and remote user counts over SSH.");
    let icmp_keys: Vec<&str> = catalog[0].config_options.iter().map(|o| o.key).collect();
    assert_eq!(
        icmp_keys,
        vec!["enabled", "backend", "interval", "timeout", "concurrency", "failure_threshold", "success_threshold"]
    );
    assert_eq!(catalog[0].config_options[1].default_value, "auto");
    assert_eq!(catalog[1].config_options.len(), 8);
    let (key, status) = &catalog[0].filters[0];
    assert_eq!(*key, "status");
    assert_eq!(status.values, vec!["unknown", "up", "down"]);
    let no_users = catalog[1].filters.iter().find(|(k, _)| *k == "no_users_for").unwrap();
    assert_eq!(no_users.1.value_type, "duration");
    assert_eq!(no_users.1.values, vec!["24h", "7days"]);
}
