use simple_network_monitor::config::{default_bind, AppConfig, BindAddress, ModuleConfigs};
use simple_network_monitor::domain::filters::{ActivityPredicate, HostFilter, InactivityHistory, StateAtCutoff, UsageFilter};
use simple_network_monitor::domain::host::{Host, HostModuleConfig, HostRecord, HostRuntimeState, MetadataValue};
use simple_network_monitor::domain::icmp::{HostStatus, IpAddress};
use simple_network_monitor::domain::usage::{HostUsage, UsageCollectionStatus, UsageSnapshot};
use simple_network_monitor::manager::{icmp_monitor_needed, manager_step, restart_only_changes, ManagerAction, ManagerEvent, ManagerState};
use simple_network_monitor::modules::{jitter_bound_millis, ModuleKind};
use simple_network_monitor::storage::cache::UsageCache;
use simple_network_monitor::storage::filtering::{
    activity_sql, matches_host_filter, matches_usage_filter, metadata_value_matches, usage_summary, UsageTable,
};
use simple_network_monitor::storage::records::{
    host_usage, runtime_state_from_row, sort_by_id, state_or_default, transition_from_row, usage_report,
    usage_report_lines, usage_snapshot_from_row,
};
use simple_network_monitor::storage::StorageError;

const NOW: i64 = 1_700_000_000_000_000_000;
const SEC: u128 = 1_000_000_000;

fn host(id: &str) -> Host {
    Host {
        id: id.into(),
        address: "192.0.2.1".into(),
        name: id.to_uppercase(),
        groups: vec!["core".into()],
        metadata: vec![("room".into(), MetadataValue::Text("net-a".into())), ("rack".into(), MetadataValue::Number("7".into()))],
        modules: HostModuleConfig::default_config(),
    }
}

struct NoHistory;

impl InactivityHistory for NoHistory {
    type Error = StorageError;
    fn state_at(&self, _: i64, _: ActivityPredicate) -> Option<StateAtCutoff> {
        Some(StateAtCutoff::Observed { activity_matched: false })
    }
    fn breaks_after(&self, _: i64, _: ActivityPredicate) -> bool {
        false
    }
    fn state_at_or_before(&self, _: i64, _: ActivityPredicate) -> Result<Option<StateAtCutoff>, StorageError> {
        Ok(Some(StateAtCutoff::Observed { activity_matched: false }))
    }
    fn window_breaks_inactivity(&self, _: i64, _: ActivityPredicate) -> Result<bool, StorageError> {
        Ok(false)
    }
}

fn filter() -> HostFilter {
    HostFilter { icmp_status: None, group: None, metadata: Vec::new(), usage: UsageFilter::empty(NOW) }
}

fn record(id: &str, status: HostStatus, usage: Option<UsageSnapshot>) -> HostRecord {
    let mut state = HostRuntimeState::default_state();
    state.status = status;
    HostRecord::new(host(id), state, usage)
}

#[test]
fn changed_error_message_writes_history_row() {
    let mut cache = UsageCache::new();
    assert!(cache.record("r1", UsageSnapshot::error(NOW, "timeout".into())));
    assert!(!cache.record("r1", UsageSnapshot::error(NOW + 1, "timeout".into())));
    assert!(cache.record("r1", UsageSnapshot::error(NOW + 2, "refused".into())));
    assert!(cache.record("r1", UsageSnapshot::success(NOW + 3, 0, 1)));
    assert!(!cache.record("r1", UsageSnapshot::success(NOW + 4, 0, 1)));
    assert!(cache.record("r2", UsageSnapshot::success(NOW + 4, 0, 1)));
    assert_eq!(cache.get("r1").unwrap().collected_at, NOW + 4);
    assert!(cache.get("r3").is_none());
}

#[test]
fn host_filter_checks_status_group_and_metadata() {
    let r = record("r1", HostStatus::Down, None);
    let mut f = filter();
    assert!(matches_host_filter(&r, &f, &NoHistory).unwrap());
    f.icmp_status = Some(HostStatus::Up);
    assert!(!matches_host_filter(&r, &f, &NoHistory).unwrap());
    f.icmp_status = Some(HostStatus::Down);
    f.group = Some("core".into());
    assert!(matches_host_filter(&r, &f, &NoHistory).unwrap());
    f.group = Some("edge".into());
    assert!(!matches_host_filter(&r, &f, &NoHistory).unwrap());
    f.group = None;
    f.metadata = vec![("room".into(), "net-a".into()), ("rack".into(), "7".into())];
    assert!(matches_host_filter(&r, &f, &NoHistory).unwrap());
    f.metadata = vec![("room".into(), "lab-2".into())];
    assert!(!matches_host_filter(&r, &f, &NoHistory).unwrap());
    f.metadata = vec![("floor".into(), "1".into())];
    assert!(!matches_host_filter(&r, &f, &NoHistory).unwrap());
}

#[test]
fn usage_filters_need_a_snapshot() {
    let mut f = filter();
    f.usage.status = Some(UsageCollectionStatus::Okay);
    assert!(!matches_host_filter(&record("r1", HostStatus::Up, None), &f, &NoHistory).unwrap());
    let with = record("r1", HostStatus::Up, Some(UsageSnapshot::success(NOW, 0, 0)));
    assert!(matches_host_filter(&with, &f, &NoHistory).unwrap());
    f.usage.no_users_for = Some(3_600 * SEC);
    assert!(matches_host_filter(&with, &f, &NoHistory).unwrap());
    let busy = record("r1", HostStatus::Up, Some(UsageSnapshot::success(NOW, 0, 2)));
    assert!(!matches_host_filter(&busy, &f, &NoHistory).unwrap());
    f.usage.no_users_for = None;
    f.usage.inactive_console_for = Some(3_600 * SEC);
    assert!(matches_host_filter(&busy, &f, &NoHistory).unwrap());
}

#[test]
fn out_of_range_inactivity_is_invalid_data() {
    let mut f = UsageFilter::empty(NOW);
    f.inactive_console_for = Some(u128::MAX);
    match matches_usage_filter(&UsageSnapshot::success(NOW, 0, 0), &f, &NoHistory) {
        Err(StorageError::InvalidData(m)) => {
            assert_eq!(m, "invalid inactivity duration: Source duration value is out of range for the target type")
        }
        _ => panic!("expected invalid data"),
    }
}

#[test]
fn metadata_matches_scalars_by_text() {
    assert!(metadata_value_matches(&MetadataValue::Text("a".into()), "a"));
    assert!(metadata_value_matches(&MetadataValue::Bool(true), "true"));
    assert!(!metadata_value_matches(&MetadataValue::Bool(false), "true"));
    assert!(metadata_value_matches(&MetadataValue::Number("1.5".into()), "1.5"));
    assert!(!metadata_value_matches(&MetadataValue::Null, "null"));
    assert!(!metadata_value_matches(&MetadataValue::Array(vec![]), "[]"));
}

#[test]
fn usage_report_summarizes_latest_usage() {
    let lines = vec![
        host_usage(&host("r2"), UsageSnapshot::success(NOW, 2, 1)),
        host_usage(&host("r1"), UsageSnapshot::error(NOW, "timeout".into())),
        host_usage(&host("r3"), UsageSnapshot::success(NOW, 1, 0)),
    ];
    let report = usage_report(lines);
    let ids: Vec<&str> = report.hosts.iter().map(|h| h.id.as_str()).collect();
    assert_eq!(ids, vec!["r1", "r2", "r3"]);
    assert_eq!(report.summary.hosts_reporting, 3);
    assert_eq!(report.summary.hosts_with_errors, 1);
    assert_eq!(report.summary.console_users, 3);
    assert_eq!(report.summary.remote_users, 1);
    assert_eq!(report.hosts[0].name, "R1");
}

#[test]
fn summary_of_nothing_is_zero() {
    let s = usage_summary(&Vec::new());
    assert_eq!((s.hosts_reporting, s.hosts_with_errors, s.console_users, s.remote_users), (0, 0, 0, 0));
}

#[test]
fn records_sort_by_id() {
    let sorted = sort_by_id(vec![
        record("b", HostStatus::Up, None),
        record("a", HostStatus::Down, None),
        record("c", HostStatus::Unknown, None),
        record("a", HostStatus::Up, None),
    ]);
    let ids: Vec<(&str, HostStatus)> = sorted.iter().map(|r| (r.host.id.as_str(), r.state.status)).collect();
    assert_eq!(ids, vec![("a", HostStatus::Down), ("a", HostStatus::Up), ("b", HostStatus::Up), ("c", HostStatus::Unknown)]);
    let usage: Vec<HostUsage> = Vec::new();
    assert!(sort_by_id(usage).is_empty());
}

#[test]
fn stored_rows_read_back() {
    let s = usage_snapshot_from_row(Ok(NOW), Some(1), None, "ok", None).unwrap();
    assert_eq!(s.status, UsageCollectionStatus::Okay);
    match usage_snapshot_from_row(Ok(NOW), None, None, "weird", None) {
        Err(StorageError::InvalidData(m)) => assert_eq!(m, "invalid usage collection status \"weird\""),
        _ => panic!("expected invalid data"),
    }
    let t = transition_from_row(Some(3), "r1".into(), "up", "down", Ok(NOW), None, None, "raw".into(), "x".into()).unwrap();
    assert_eq!((t.previous_status, t.new_status, t.changed_at), (HostStatus::Up, HostStatus::Down, NOW));
    match transition_from_row(None, "r1".into(), "up", "gone", Err(StorageError::InvalidData("ts".into())), None, None, "raw".into(), "x".into()) {
        Err(StorageError::InvalidData(m)) => assert_eq!(m, "invalid host status \"gone\""),
        _ => panic!("status is read before the time"),
    }
    let st = runtime_state_from_row("down", Ok(Some(NOW)), Ok(None), Some(5), 0, 3, Some("timeout".into())).unwrap();
    assert_eq!(st.consecutive_failures, 3);
    assert_eq!(state_or_default(None).status, HostStatus::Unknown);
    assert_eq!(activity_sql(ActivityPredicate::AnyUser), "console_users > 0 OR remote_users > 0");
    assert_eq!(UsageTable::Samples.name(), "usage_samples");
}

fn app_config(hosts: Vec<Host>) -> AppConfig {
    AppConfig {
        bind: default_bind(),
        database_path: "./db.sqlite3".into(),
        api_workers: None,
        modules: ModuleConfigs::default_configs(),
        api_token: None,
        allow_unauthenticated_non_loopback: false,
        hosts,
    }
}

#[test]
fn icmp_disabled_does_not_build_ping_backend() {
    let mut cfg = app_config(vec![host("r1")]);
    assert!(icmp_monitor_needed(&cfg));
    cfg.modules.icmp.enabled = false;
    assert!(!icmp_monitor_needed(&cfg));
    let mut cfg = app_config(vec![host("r1")]);
    cfg.hosts[0].modules.icmp.enabled = false;
    assert!(!icmp_monitor_needed(&cfg));
}

#[test]
fn monitors_watch_only_enabled_hosts() {
    let mut cfg = app_config(vec![host("r1"), host("r2"), host("r3")]);
    cfg.hosts[1].modules.usage.enabled = true;
    assert_eq!(ModuleKind::Usage.monitored_hosts(&cfg), vec![1]);
    assert_eq!(ModuleKind::Icmp.monitored_hosts(&cfg), vec![0, 1, 2]);
    assert!(!ModuleKind::Usage.runs_monitor(&cfg));
    assert_eq!(jitter_bound_millis(30 * SEC), 2000);
    assert_eq!(jitter_bound_millis(5 * SEC), 500);
}

#[test]
fn reloads_start_a_new_generation_and_old_exits_are_ignored() {
    let s0 = ManagerState { generation: 0 };
    let (s1, action) = manager_step(s0, ManagerEvent::Reloaded);
    assert_eq!(s1.generation, 1);
    assert!(matches!(action, ManagerAction::Respawn { generation: 1 }));
    let (s2, action) = manager_step(s1, ManagerEvent::MonitorExited { generation: 0, kind: "icmp".into() });
    assert_eq!(s2, s1);
    assert!(matches!(action, ManagerAction::Ignore));
    let (_, action) = manager_step(s1, ManagerEvent::MonitorExited { generation: 1, kind: "usage".into() });
    assert!(matches!(action, ManagerAction::Stop { ref error } if error == "usage monitor exited"));
    let (s3, action) = manager_step(s1, ManagerEvent::ReloadFailed("bad".into()));
    assert_eq!(s3, s1);
    assert!(matches!(action, ManagerAction::KeepCurrent { ref error } if error == "bad"));
}

#[test]
fn restart_only_settings_are_reported() {
    let a = app_config(vec![host("r1")]);
    let mut b = app_config(vec![host("r1")]);
    assert_eq!(restart_only_changes(&a, &b).bind, false);
    b.bind = BindAddress { ip: IpAddress::V4(0), port: 3000, flowinfo: 0, scope_id: 0 };
    b.api_workers = Some(4);
    let c = restart_only_changes(&a, &b);
    assert!(c.bind && c.api_workers && !c.database_path);
}

#[test]
fn usage_report_lines_keep_matching_configured_hosts() {
    let rows = vec![
        ("r2".to_string(), UsageSnapshot::success(NOW, 0, 0)),
        ("gone".to_string(), UsageSnapshot::success(NOW, 0, 0)),
        ("r1".to_string(), UsageSnapshot::error(NOW, "timeout".into())),
        ("r3".to_string(), UsageSnapshot::success(NOW, 2, 1)),
    ];
    let histories = vec![NoHistory, NoHistory, NoHistory, NoHistory];
    let hosts = vec![host("r1"), host("r2"), host("r3")];
    let mut f = UsageFilter::empty(NOW);
    let all = usage_report_lines(&rows, &histories, &hosts, &f).unwrap();
    let ids: Vec<&str> = all.iter().map(|l| l.id.as_str()).collect();
    assert_eq!(ids, vec!["r2", "r1", "r3"]);
    assert_eq!(all[2].name, "R3");
    f.no_users_for = Some(60 * SEC);
    let idle = usage_report_lines(&rows, &histories, &hosts, &f).unwrap();
    let ids: Vec<&str> = idle.iter().map(|l| l.id.as_str()).collect();
    assert_eq!(ids, vec!["r2"]);
}

#[test]
fn usage_writes_add_history_only_on_change() {
    let mut cache = UsageCache::new();
    let first = UsageSnapshot::success(NOW, 1, 0);
    assert_eq!(cache.usage_writes("r1", &first), vec![UsageTable::Samples, UsageTable::History]);
    cache.insert("r1", first);
    assert_eq!(cache.usage_writes("r1", &UsageSnapshot::success(NOW + 1, 1, 0)), vec![UsageTable::Samples]);
    assert_eq!(
        cache.usage_writes("r1", &UsageSnapshot::success(NOW + 2, 0, 0)),
        vec![UsageTable::Samples, UsageTable::History]
    );
}

#[test]
fn status_only_host_filter_follows_the_snapshot() {
    let mut f = filter();
    f.usage.status = Some(UsageCollectionStatus::Failed);
    let failed = record("r1", HostStatus::Up, Some(UsageSnapshot::error(NOW, "timeout".into())));
    let fine = record("r2", HostStatus::Up, Some(UsageSnapshot::success(NOW, 0, 0)));
    assert!(matches!(matches_host_filter(&failed, &f, &NoHistory), Ok(true)));
    assert!(matches!(matches_host_filter(&fine, &f, &NoHistory), Ok(false)));
}

#[test]
fn database_path_compares_by_components() {
    let mut a = app_config(vec![host("r1")]);
    let mut b = app_config(vec![host("r1")]);
    a.database_path = "data/monitor/".into();
    b.database_path = "data//monitor".into();
    assert!(!restart_only_changes(&a, &b).database_path);
    b.database_path = "data/other".into();
    assert!(restart_only_changes(&a, &b).database_path);
}

#[test]
fn to_record_copies_host_and_state() {
    let mut state = HostRuntimeState::default_state();
    state.status = HostStatus::Down;
    state.consecutive_failures = 3;
    state.last_error = Some("timeout".into());
    let h = host("r7");
    let r = state.to_record(&h, None);
    assert_eq!(r.host.id, "r7");
    assert_eq!(r.host.name, "R7");
    assert_eq!(r.host.groups, vec!["core".to_string()]);
    assert_eq!(r.host.metadata.len(), 2);
    assert_eq!(r.host.metadata[0].0, "room");
    assert!(metadata_value_matches(&r.host.metadata[0].1, "net-a"));
    assert_eq!(r.state.status, HostStatus::Down);
    assert_eq!(r.state.consecutive_failures, 3);
    assert_eq!(r.state.last_error.as_deref(), Some("timeout"));
    assert!(r.usage.is_none());
}

#[test]
fn bind_scope_change_is_restart_only() {
    let mut a = app_config(vec![host("r1")]);
    let mut b = app_config(vec![host("r1")]);
    a.bind = BindAddress { ip: IpAddress::V6(0xfe80 << 112 | 1), port: 3000, flowinfo: 0, scope_id: 2 };
    b.bind = BindAddress { ip: IpAddress::V6(0xfe80 << 112 | 1), port: 3000, flowinfo: 0, scope_id: 2 };
    assert!(!restart_only_changes(&a, &b).bind);
    b.bind.scope_id = 3;
    assert!(restart_only_changes(&a, &b).bind);
}

struct BrokenHistory;

impl InactivityHistory for BrokenHistory {
    type Error = StorageError;
    fn state_at(&self, _: i64, _: ActivityPredicate) -> Option<StateAtCutoff> {
        None
    }
    fn breaks_after(&self, _: i64, _: ActivityPredicate) -> bool {
        false
    }
    fn state_at_or_before(&self, _: i64, _: ActivityPredicate) -> Result<Option<StateAtCutoff>, StorageError> {
        Err(StorageError::LockPoisoned)
    }
    fn window_breaks_inactivity(&self, _: i64, _: ActivityPredicate) -> Result<bool, StorageError> {
        Err(StorageError::LockPoisoned)
    }
}

#[test]
fn inactivity_filters_decided_without_history_do_not_fail() {
    let mut f = filter();
    f.usage.no_users_for = Some(3_600 * SEC);
    let busy = record("r1", HostStatus::Up, Some(UsageSnapshot::success(NOW, 1, 0)));
    assert!(matches!(matches_host_filter(&busy, &f, &BrokenHistory), Ok(false)));
    let idle = record("r2", HostStatus::Up, Some(UsageSnapshot::success(NOW, 0, 0)));
    assert!(matches!(matches_host_filter(&idle, &f, &BrokenHistory), Err(StorageError::LockPoisoned)));
    let rows = vec![("r1".to_string(), UsageSnapshot::success(NOW, 1, 0))];
    let lines = usage_report_lines(&rows, &vec![BrokenHistory], &vec![host("r1")], &f.usage).unwrap();
    assert!(lines.is_empty());
}

#[test]
fn reload_effects_take_hosts_token_and_modules() {
    let mut c = app_config(vec![host("r1"), host("r2")]);
    c.modules.usage.sample_retention = 60 * SEC;
    let e = simple_network_monitor::manager::reload_effects(c);
    assert_eq!(e.hosts.len(), 2);
    assert_eq!(e.hosts[1].id, "r2");
    assert!(e.api_token.is_none());
    assert_eq!(e.sample_retention, 60 * SEC);
    assert_eq!(e.modules.usage.sample_retention, 60 * SEC);
}
