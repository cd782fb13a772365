use simple_network_monitor::config::{
    default_bind, default_database_path, AppConfig, BackendKind, BindAddress, ConfigError, ModuleScope,
    RawConfig, RawGroupSettings, RawHost, UsageGroupConfig,
};
use simple_network_monitor::domain::api_token::ApiToken;
use simple_network_monitor::domain::host::MetadataValue;
use simple_network_monitor::domain::icmp::IpAddress;
use simple_network_monitor::domain::usage::UsageOs;
use simple_network_monitor::modules::icmp::{IcmpHostConfig, IcmpModuleConfig};
use simple_network_monitor::modules::usage::{UsageHostConfig, UsageModuleConfig};

const SEC: u128 = 1_000_000_000;

fn other<T>() -> Result<T, String> {
    Err("not read with this schema".to_string())
}

fn scope() -> ModuleScope {
    ModuleScope { as_icmp: other(), as_usage: other(), as_icmp_host: other(), as_usage_host: other(), as_usage_group: other() }
}

fn icmp_scope(c: IcmpModuleConfig) -> ModuleScope {
    ModuleScope { as_icmp: Ok(c), ..scope() }
}

fn usage_scope(c: UsageModuleConfig) -> ModuleScope {
    ModuleScope { as_usage: Ok(c), ..scope() }
}

fn host_usage_scope(c: UsageHostConfig) -> ModuleScope {
    ModuleScope { as_usage_host: Ok(c), ..scope() }
}

fn group_usage_scope(verify: Option<bool>) -> ModuleScope {
    ModuleScope { as_usage_group: Ok(UsageGroupConfig { ssh_verify_host_key: verify }), ..scope() }
}

fn raw_host(id: &str, address: &str, groups: &[&str]) -> RawHost {
    RawHost {
        id: id.to_string(),
        address: address.to_string(),
        name: None,
        groups: groups.iter().map(|g| g.to_string()).collect(),
        metadata: Vec::new(),
        modules: Vec::new(),
    }
}

fn raw_config(hosts: Vec<RawHost>) -> RawConfig {
    RawConfig {
        bind: default_bind(),
        database_path: default_database_path(),
        api_workers: None,
        modules: Vec::new(),
        api_token: None,
        allow_unauthenticated_non_loopback: false,
        groups: Vec::new(),
        group_settings: Vec::new(),
        hosts,
    }
}

fn usage_enabled() -> UsageModuleConfig {
    let mut u = UsageModuleConfig::default_config();
    u.enabled = true;
    u
}

fn no_host_usage() -> UsageHostConfig {
    UsageHostConfig::empty()
}

fn invalid(raw: RawConfig) -> String {
    match raw.validate() {
        Ok(_) => panic!("config unexpectedly valid"),
        Err(err) => err.message(),
    }
}

fn valid(raw: RawConfig) -> AppConfig {
    match raw.validate() {
        Ok(cfg) => cfg,
        Err(err) => panic!("config invalid: {}", err.message()),
    }
}

#[test]
fn applies_defaults_and_preserves_metadata() {
    let mut h = raw_host("r1", "192.0.2.1", &["core"]);
    h.metadata.push(("room".to_string(), MetadataValue::Text("A1".to_string())));
    let cfg = valid(raw_config(vec![h]));

    assert_eq!(cfg.modules.icmp.backend, BackendKind::Auto);
    assert_eq!(cfg.api_workers, None);
    assert_eq!(cfg.modules.icmp.concurrency, 128);
    assert!(cfg.modules.icmp.enabled);
    assert!(!cfg.modules.usage.enabled);
    assert_eq!(cfg.hosts[0].name, "r1");
    assert!(cfg.hosts[0].modules.icmp.enabled);
    assert!(!cfg.hosts[0].modules.usage.enabled);
    assert_eq!(cfg.hosts[0].metadata[0].0, "room");
    assert!(matches!(&cfg.hosts[0].metadata[0].1, MetadataValue::Text(v) if v == "A1"));
}

#[test]
fn loads_structured_module_config() {
    let mut icmp = IcmpModuleConfig::default_config();
    icmp.backend = BackendKind::System;
    icmp.interval = 10 * SEC;
    icmp.timeout = 2 * SEC;
    icmp.concurrency = 8;
    let mut usage = usage_enabled();
    usage.interval = 600 * SEC;
    usage.timeout = 7 * SEC;
    usage.concurrency = 7;
    let mut h = raw_host("r1", "192.0.2.1", &["core"]);
    let mut host_usage = no_host_usage();
    host_usage.enabled = Some(true);
    host_usage.os = Some(UsageOs::Linux);
    host_usage.interval = Some(60 * SEC);
    h.modules.push(("usage".to_string(), host_usage_scope(host_usage)));
    let mut raw = raw_config(vec![h]);
    raw.modules.push(("icmp".to_string(), icmp_scope(icmp)));
    raw.modules.push(("usage".to_string(), usage_scope(usage)));
    let cfg = valid(raw);

    assert_eq!(cfg.modules.icmp.backend, BackendKind::System);
    assert_eq!(cfg.modules.icmp.concurrency, 8);
    assert_eq!(cfg.modules.usage.concurrency, 7);
    assert_eq!(cfg.hosts[0].modules.usage.os, UsageOs::Linux);
    assert_eq!(cfg.hosts[0].modules.usage.interval, 60 * SEC);
    assert_eq!(cfg.hosts[0].modules.usage.timeout, 7 * SEC);
}

#[test]
fn applies_group_usage_settings() {
    let mut usage = usage_enabled();
    usage.ssh_verify_host_key = false;
    let r1 = raw_host("r1", "192.0.2.1", &["linux"]);
    let r2 = raw_host("r2", "192.0.2.2", &["mac"]);
    let mut r3 = raw_host("r3", "192.0.2.3", &["mac"]);
    let mut own = no_host_usage();
    own.ssh_verify_host_key = Some(true);
    r3.modules.push(("usage".to_string(), host_usage_scope(own)));
    let mut raw = raw_config(vec![r1, r2, r3]);
    raw.modules.push(("usage".to_string(), usage_scope(usage)));
    raw.group_settings.push((
        "mac".to_string(),
        RawGroupSettings { modules: vec![("usage".to_string(), group_usage_scope(Some(false)))] },
    ));
    raw.group_settings.push((
        "linux".to_string(),
        RawGroupSettings { modules: vec![("usage".to_string(), group_usage_scope(Some(true)))] },
    ));
    let cfg = valid(raw);

    assert!(cfg.hosts[0].modules.usage.ssh_verify_host_key);
    assert!(!cfg.hosts[1].modules.usage.ssh_verify_host_key);
    assert!(cfg.hosts[2].modules.usage.ssh_verify_host_key);
}

#[test]
fn groups_that_disagree_on_host_keys_turn_checking_off() {
    let h = raw_host("r1", "192.0.2.1", &["a", "b", "c"]);
    let mut raw = raw_config(vec![h]);
    raw.group_settings.push(("a".to_string(), RawGroupSettings { modules: vec![("usage".to_string(), group_usage_scope(Some(true)))] }));
    raw.group_settings.push(("b".to_string(), RawGroupSettings { modules: vec![("usage".to_string(), group_usage_scope(Some(false)))] }));
    raw.group_settings.push(("c".to_string(), RawGroupSettings { modules: vec![("usage".to_string(), group_usage_scope(None))] }));
    let cfg = valid(raw);
    assert!(!cfg.hosts[0].modules.usage.ssh_verify_host_key);
}

#[test]
fn rejects_host_usage_enabled_when_global_usage_disabled() {
    let mut h = raw_host("r1", "192.0.2.1", &["core"]);
    let mut own = no_host_usage();
    own.enabled = Some(true);
    h.modules.push(("usage".to_string(), host_usage_scope(own)));
    let err = invalid(raw_config(vec![h]));
    assert!(err.contains("modules.usage.enabled = true"), "got: {err}");
    assert_eq!(err, "invalid config: host \"r1\": modules.usage.enabled requires modules.usage.enabled = true");
}

#[test]
fn rejects_unknown_module_key() {
    let mut raw = raw_config(vec![raw_host("r1", "192.0.2.1", &["core"])]);
    let mut s = scope();
    s.as_usage = Err("unknown field `enabld`, expected one of `enabled`, `interval`".to_string());
    raw.modules.push(("usage".to_string(), s));
    let err = invalid(raw);
    assert!(err.contains("enabld"), "got: {err}");
    assert!(err.starts_with("invalid config: modules.usage: unknown field"));
}

#[test]
fn rejects_unknown_host_module_key() {
    let mut h = raw_host("r1", "192.0.2.1", &["core"]);
    let mut s = scope();
    s.as_usage_host = Err("unknown field `enabld`".to_string());
    h.modules.push(("usage".to_string(), s));
    let err = invalid(raw_config(vec![h]));
    assert!(err.contains("enabld"), "got: {err}");
    assert_eq!(err, "invalid config: hosts.r1.modules.usage: unknown field `enabld`");
}

#[test]
fn rejects_unknown_module_id() {
    let mut raw = raw_config(vec![raw_host("r1", "192.0.2.1", &["core"])]);
    raw.modules.push(("disk".to_string(), scope()));
    assert_eq!(invalid(raw), "invalid config: unknown module \"disk\"; valid modules: icmp, usage");
}

#[test]
fn accepts_multiline_hosts_and_root_group_memberships() {
    let mut r1 = raw_host("router-core-1", "192.0.2.1", &[]);
    r1.name = Some("Core Router 1".to_string());
    r1.metadata.push(("room".to_string(), MetadataValue::Text("net-a".to_string())));
    r1.metadata.push(("rack".to_string(), MetadataValue::Text("rack-1".to_string())));
    let mut own = no_host_usage();
    own.enabled = Some(false);
    own.os = Some(UsageOs::Auto);
    own.interval = Some(300 * SEC);
    r1.modules.push(("usage".to_string(), host_usage_scope(own)));
    let mut r2 = raw_host("switch-edge-1", "192.0.2.2", &[]);
    r2.name = Some("Edge Switch 1".to_string());
    let mut raw = raw_config(vec![r1, r2]);
    raw.modules.push(("usage".to_string(), usage_scope(usage_enabled())));
    raw.groups.push(("core".to_string(), vec!["router-core-1".to_string()]));
    raw.groups.push(("routers".to_string(), vec!["router-core-1".to_string()]));
    raw.groups.push(("edge".to_string(), vec!["switch-edge-1".to_string()]));
    raw.groups.push(("switches".to_string(), vec!["switch-edge-1".to_string()]));
    let cfg = valid(raw);

    assert_eq!(cfg.hosts[0].groups, vec!["core", "routers"]);
    assert_eq!(cfg.hosts[0].modules.usage.interval, 300 * SEC);
    assert_eq!(cfg.hosts[1].groups, vec!["edge", "switches"]);
    assert_eq!(cfg.hosts[0].name, "Core Router 1");
}

#[test]
fn host_groups_are_sorted_and_merged_once() {
    let h = raw_host("r1", "192.0.2.1", &["zeta", "alpha", "zeta"]);
    let mut raw = raw_config(vec![h]);
    raw.groups.push(("alpha".to_string(), vec!["r1".to_string()]));
    raw.groups.push(("beta".to_string(), vec!["r1".to_string(), "r1".to_string()]));
    let cfg = valid(raw);
    assert_eq!(cfg.hosts[0].groups, vec!["alpha", "beta", "zeta"]);
}

#[test]
fn rejects_unknown_group_settings_group() {
    let mut raw = raw_config(vec![raw_host("r1", "192.0.2.1", &["core"])]);
    raw.group_settings.push((
        "missing".to_string(),
        RawGroupSettings { modules: vec![("usage".to_string(), group_usage_scope(Some(false)))] },
    ));
    let err = invalid(raw);
    assert!(err.contains("unknown group"), "got: {err}");
    assert_eq!(err, "invalid config: group_settings \"missing\" references unknown group");
}

#[test]
fn rejects_zero_module_interval() {
    let mut icmp = IcmpModuleConfig::default_config();
    icmp.interval = 0;
    let mut raw = raw_config(vec![raw_host("r1", "192.0.2.1", &["core"])]);
    raw.modules.push(("icmp".to_string(), icmp_scope(icmp)));
    let err = invalid(raw);
    assert!(err.contains("interval"), "got: {err}");
    assert_eq!(err, "invalid config: modules.icmp.interval must be at least 1ms");
}

#[test]
fn rejects_short_host_timeout() {
    let mut h = raw_host("r1", "192.0.2.1", &["core"]);
    h.modules.push((
        "icmp".to_string(),
        ModuleScope { as_icmp_host: Ok(IcmpHostConfig { enabled: None, interval: None, timeout: Some(999_999) }), ..scope() },
    ));
    assert_eq!(invalid(raw_config(vec![h])), "invalid config: host \"r1\": modules.icmp.timeout must be at least 1ms");
}

#[test]
fn rejects_blank_api_token() {
    let mut raw = raw_config(vec![raw_host("r1", "192.0.2.1", &["core"])]);
    raw.api_token = Some(ApiToken::new("  "));
    let err = invalid(raw);
    assert!(err.contains("api_token"), "got: {err}");
}

#[test]
fn non_loopback_bind_needs_a_token_or_an_explicit_opt_out() {
    let mut raw = raw_config(vec![raw_host("r1", "192.0.2.1", &["core"])]);
    raw.bind = BindAddress { ip: IpAddress::V4(0), port: 3000, flowinfo: 0, scope_id: 0 };
    assert_eq!(
        invalid(raw),
        "invalid config: non-loopback bind requires api_token or allow_unauthenticated_non_loopback = true"
    );
    let mut raw = raw_config(vec![raw_host("r1", "192.0.2.1", &["core"])]);
    raw.bind = BindAddress { ip: IpAddress::V4(0), port: 3000, flowinfo: 0, scope_id: 0 };
    raw.api_token = Some(ApiToken::new("secret"));
    valid(raw);
    let mut raw = raw_config(vec![raw_host("r1", "192.0.2.1", &["core"])]);
    raw.bind = BindAddress { ip: IpAddress::V6(1), port: 3000, flowinfo: 0, scope_id: 0 };
    valid(raw);
}

#[test]
fn rejects_duplicate_hosts() {
    let raw = raw_config(vec![raw_host("r1", "192.0.2.1", &["core"]), raw_host("r1", "192.0.2.2", &["edge"])]);
    let err = invalid(raw);
    assert!(err.contains("duplicate host id"));
}

#[test]
fn rejects_hosts_without_groups_or_address() {
    assert_eq!(
        invalid(raw_config(vec![raw_host("r1", "192.0.2.1", &[])])),
        "invalid config: host \"r1\" must be in at least one group"
    );
    assert_eq!(
        invalid(raw_config(vec![raw_host("r1", " \t", &["core"])])),
        "invalid config: host \"r1\" has an empty address"
    );
    assert_eq!(invalid(raw_config(vec![])), "invalid config: at least one host is required");
}

#[test]
fn rejects_invalid_ids_in_order() {
    assert_eq!(
        invalid(raw_config(vec![raw_host("r 1", "192.0.2.1", &["core"])])),
        "invalid config: host id \"r 1\" must contain only ASCII letters, digits, dash, underscore, or dot"
    );
    assert_eq!(
        invalid(raw_config(vec![raw_host("r1", "192.0.2.1", &["z!", "a?"])])),
        "invalid config: group \"a?\" must contain only ASCII letters, digits, dash, underscore, or dot"
    );
    let mut raw = raw_config(vec![raw_host("r1", "192.0.2.1", &["core"])]);
    raw.groups.push(("edge".to_string(), vec!["r9".to_string()]));
    assert_eq!(invalid(raw), "invalid config: group \"edge\" references unknown host \"r9\"");
    let mut raw = raw_config(vec![raw_host("r1", "192.0.2.1", &["core"])]);
    raw.groups.push(("edge".to_string(), vec![]));
    assert_eq!(invalid(raw), "invalid config: group \"edge\" must contain at least one host");
}

#[test]
fn rejects_zero_workers_and_thresholds() {
    let mut raw = raw_config(vec![raw_host("r1", "192.0.2.1", &["core"])]);
    raw.api_workers = Some(0);
    assert_eq!(invalid(raw), "invalid config: api_workers must be at least 1");
    let mut icmp = IcmpModuleConfig::default_config();
    icmp.failure_threshold = 0;
    let mut raw = raw_config(vec![raw_host("r1", "192.0.2.1", &["core"])]);
    raw.modules.push(("icmp".to_string(), icmp_scope(icmp)));
    assert_eq!(
        invalid(raw),
        "invalid config: modules.icmp.success_threshold and modules.icmp.failure_threshold must be at least 1"
    );
}

#[test]
fn config_errors_render_like_the_program() {
    let e = ConfigError::Read { path: "monitor.toml".into(), source: "No such file or directory".into() };
    assert_eq!(e.message(), "failed to read config monitor.toml: No such file or directory");
    let e = ConfigError::Parse { path: "<inline>".into(), source: "expected `=`".into() };
    assert_eq!(e.message(), "failed to parse config <inline>: expected `=`");
}
