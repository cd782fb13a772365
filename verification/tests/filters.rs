use simple_network_monitor::app::filters::{
    known_bare_keys, known_namespace_keys, known_namespaces, lookup, namespace_catalog, parse_host_filter,
    parse_usage_filter, split_filter_key, supported_module_filter_specs, FilterAction, FilterParseError,
};
use simple_network_monitor::domain::icmp::HostStatus;
use simple_network_monitor::domain::usage::UsageCollectionStatus;
use simple_network_monitor::modules::ModuleKind;

const NOW: i64 = 1_700_000_000_000_000_000;
const SEC: u128 = 1_000_000_000;

fn params(pairs: &[(&str, &str)]) -> Vec<(String, String)> {
    pairs.iter().map(|(k, v)| (k.to_string(), v.to_string())).collect()
}

fn has_key<V>(entries: &[(&'static str, V)], key: &str) -> bool {
    entries.iter().any(|(k, _)| *k == key)
}

#[test]
fn parses_combined_host_filter() {
    let filter = parse_host_filter(
        &params(&[
            ("icmp.status", "down"),
            ("group", "core"),
            ("metadata.room", "net-a"),
            ("usage.no_users_for", "7days"),
        ]),
        NOW,
    )
    .unwrap();

    assert_eq!(filter.icmp_status, Some(HostStatus::Down));
    assert_eq!(filter.group.as_deref(), Some("core"));
    assert_eq!(filter.metadata, vec![("room".to_string(), "net-a".to_string())]);
    assert!(filter.usage.no_users_for.is_some());
    assert_eq!(filter.usage.no_users_for, Some(7 * 86_400 * SEC));
}

#[test]
fn catalog_is_derived_from_registry() {
    let cat = namespace_catalog();
    assert!(has_key(&cat.bare, "group"));
    let ns = |name: &str| cat.namespaces.iter().find(|(n, _)| *n == name).map(|(_, keys)| keys).unwrap();
    assert!(has_key(ns("icmp"), "status"));
    assert!(has_key(ns("metadata"), "*"));
    assert!(has_key(ns("usage"), "inactive_console_for"));
}

#[test]
fn catalog_namespaces_are_sorted() {
    let cat = namespace_catalog();
    let names: Vec<&str> = cat.namespaces.iter().map(|(n, _)| *n).collect();
    assert_eq!(names, vec!["icmp", "metadata", "usage"]);
    let usage: Vec<&str> = cat.namespaces[2].1.iter().map(|(k, _)| *k).collect();
    assert_eq!(usage, vec!["inactive_console_for", "no_users_for", "status"]);
    assert_eq!(cat.examples.len(), 4);
}

#[test]
fn lookup_resolves_registered_keys() {
    assert_eq!(lookup(None, "group"), Some(FilterAction::Group));
    assert_eq!(lookup(Some("icmp"), "status"), Some(FilterAction::IcmpStatus));
    assert_eq!(lookup(Some("metadata"), "anything"), Some(FilterAction::MetadataField));
    assert_eq!(lookup(Some("usage"), "status"), Some(FilterAction::UsageStatus));
    assert_eq!(lookup(Some("usage"), "bogus"), None);
    assert_eq!(lookup(None, "status"), None);
}

#[test]
fn split_key_rejects_empty_parts() {
    assert!(split_filter_key("group").is_ok());
    assert!(split_filter_key("icmp.status").is_ok());
    assert_eq!(split_filter_key(".x").unwrap_err(), FilterParseError::InvalidKey { key: ".x".into() });
    assert_eq!(split_filter_key("x.").unwrap_err(), FilterParseError::InvalidKey { key: "x.".into() });
}

#[test]
fn unknown_keys_list_what_is_valid() {
    assert_eq!(known_bare_keys(), "group");
    assert_eq!(known_namespaces(), "icmp, metadata, usage");
    assert_eq!(known_namespace_keys("usage"), "inactive_console_for, no_users_for, status");
    let err = parse_host_filter(&params(&[("colour", "red")]), NOW).unwrap_err();
    assert_eq!(
        err.message(),
        "unknown filter key \"colour\"; valid bare keys: group; valid namespaces: icmp, metadata, usage"
    );
    let err = parse_host_filter(&params(&[("disk.free", "1")]), NOW).unwrap_err();
    assert!(matches!(err, FilterParseError::UnknownNamespace { .. }));
    let err = parse_host_filter(&params(&[("icmp.latency", "1")]), NOW).unwrap_err();
    assert!(matches!(err, FilterParseError::UnknownNamespaceKey { .. }));
}

#[test]
fn invalid_values_are_refused() {
    let err = parse_host_filter(&params(&[("icmp.status", "sideways")]), NOW).unwrap_err();
    assert!(matches!(err, FilterParseError::InvalidValue { .. }));
    let err = parse_usage_filter(&params(&[("usage.inactive_console_for", "soon")]), NOW).unwrap_err();
    assert!(matches!(err, FilterParseError::InvalidValue { .. }));
}

#[test]
fn usage_filter_reads_only_usage_keys() {
    let f = parse_usage_filter(&params(&[("usage.status", "error"), ("usage.inactive_console_for", "24h")]), NOW)
        .unwrap();
    assert_eq!(f.status, Some(UsageCollectionStatus::Failed));
    assert_eq!(f.inactive_console_for, Some(24 * 3_600 * SEC));
    assert_eq!(f.now, NOW);
    assert!(parse_usage_filter(&params(&[("group", "core")]), NOW).is_err());
}

#[test]
fn module_filter_specs_keep_registered_keys() {
    let specs = supported_module_filter_specs("usage", ModuleKind::Usage.filter_specs());
    let keys: Vec<&str> = specs.iter().map(|(k, _)| *k).collect();
    assert_eq!(keys, vec!["status", "inactive_console_for", "no_users_for"]);
    assert!(supported_module_filter_specs("disk", ModuleKind::Usage.filter_specs()).is_empty());
}

#[test]
fn overlong_duration_values_are_refused_before_parsing() {
    for value in ["18446744073709551615s 1000000000ns", "18446744073709551615s 500ms 500ms", "100000000000.5s"] {
        let err = parse_usage_filter(&params(&[("usage.no_users_for", value)]), NOW).unwrap_err();
        match err {
            FilterParseError::InvalidValue { name, message, .. } => {
                assert_eq!(name, "usage.no_users_for");
                assert_eq!(message, "duration with parts below a second has more than 11 digits");
            }
            _ => panic!("expected an invalid value"),
        }
    }
    let f = parse_usage_filter(&params(&[("usage.no_users_for", "99999999999999ms")]), NOW).unwrap_err();
    assert!(matches!(f, FilterParseError::InvalidValue { .. }));
    let f = parse_usage_filter(&params(&[("usage.no_users_for", "99999999999s")]), NOW).unwrap();
    assert_eq!(f.no_users_for, Some(99_999_999_999 * SEC));
    let f = parse_usage_filter(&params(&[("usage.no_users_for", "123456789012h")]), NOW).unwrap();
    assert_eq!(f.no_users_for, Some(123_456_789_012 * 3_600 * SEC));
    let twelve = vec!["1h"; 12].join(" ");
    let f = parse_usage_filter(&params(&[("usage.no_users_for", twelve.as_str())]), NOW).unwrap();
    assert_eq!(f.no_users_for, Some(12 * 3_600 * SEC));
    let f = parse_usage_filter(&params(&[("usage.no_users_for", "18446744073709551615s")]), NOW).unwrap();
    assert_eq!(f.no_users_for, Some(18_446_744_073_709_551_615 * SEC));
}

#[test]
fn catalog_lists_its_examples() {
    let cat = namespace_catalog();
    assert_eq!(
        cat.examples,
        vec![
            "/v1/hosts?icmp.status=down&group=core",
            "/v1/hosts?metadata.room=net-a",
            "/v1/hosts?usage.status=error",
            "/v1/hosts?icmp.status=up&group=core&usage.no_users_for=7days",
        ]
    );
}
