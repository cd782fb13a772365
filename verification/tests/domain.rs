use simple_network_monitor::backends::usage::{UsageCounts, UsageFailure};
use simple_network_monitor::domain::api_token::ApiToken;
use simple_network_monitor::domain::filters::{
    evaluate_inactivity, window_start, ActivityPredicate, InactivityError, InactivityHistory, StateAtCutoff,
};
use simple_network_monitor::domain::host::{Host, HostModuleConfig, HostRuntimeState};
use simple_network_monitor::domain::icmp::{CheckFailure, HostStatus, PingOutcome};
use simple_network_monitor::domain::usage::{UsageCollectionStatus, UsageSnapshot};
use simple_network_monitor::modules::icmp::monitor::{apply_check_result, check_request, IcmpMonitorConfig};
use simple_network_monitor::modules::usage::monitor::{collection_request, snapshot_from_collection};

const NOW: i64 = 1_700_000_000_000_000_000;
const SEC: u128 = 1_000_000_000;

#[test]
fn debug_is_redacted() {
    let t = ApiToken::new("supersecret");
    let s = t.debug_text();
    assert!(!s.contains("supersecret"));
    assert!(s.contains("redacted"));
}

#[test]
fn expose_bytes_round_trips() {
    let t = ApiToken::new("abc");
    assert_eq!(t.expose_bytes(), b"abc");
}

#[test]
fn detects_blank_tokens() {
    assert!(ApiToken::new("").is_blank());
    assert!(ApiToken::new(" \t").is_blank());
    assert!(!ApiToken::new("secret").is_blank());
}

struct StubHistory {
    state: Option<StateAtCutoff>,
    breaks: bool,
}

impl InactivityHistory for StubHistory {
    type Error = std::convert::Infallible;
    fn state_at(&self, _: i64, _: ActivityPredicate) -> Option<StateAtCutoff> {
        self.state
    }
    fn breaks_after(&self, _: i64, _: ActivityPredicate) -> bool {
        self.breaks
    }
    fn state_at_or_before(&self, _: i64, _: ActivityPredicate) -> Result<Option<StateAtCutoff>, Self::Error> {
        Ok(self.state)
    }
    fn window_breaks_inactivity(&self, _: i64, _: ActivityPredicate) -> Result<bool, Self::Error> {
        Ok(self.breaks)
    }
}

fn snap_ok(console: u32, remote: u32) -> UsageSnapshot {
    UsageSnapshot::success(NOW, console, remote)
}

fn inactive(snap: &UsageSnapshot, h: &StubHistory) -> bool {
    evaluate_inactivity(snap, 60 * SEC, NOW, ActivityPredicate::ConsoleOnly, h).unwrap()
}

#[test]
fn current_active_state_is_not_inactive() {
    let h = StubHistory { state: Some(StateAtCutoff::Observed { activity_matched: false }), breaks: false };
    assert!(!inactive(&snap_ok(1, 0), &h), "host with console_users=1 must not be inactive");
}

#[test]
fn no_prior_observation_is_not_inactive() {
    let h = StubHistory { state: None, breaks: false };
    assert!(!inactive(&snap_ok(0, 0), &h), "no history before cutoff → cannot claim inactivity");
}

#[test]
fn unknown_state_at_cutoff_is_not_inactive() {
    let h = StubHistory { state: Some(StateAtCutoff::Unknown), breaks: false };
    assert!(!inactive(&snap_ok(0, 0), &h));
}

#[test]
fn active_at_cutoff_is_not_inactive() {
    let h = StubHistory { state: Some(StateAtCutoff::Observed { activity_matched: true }), breaks: false };
    assert!(!inactive(&snap_ok(0, 0), &h));
}

#[test]
fn window_break_is_not_inactive() {
    let h = StubHistory { state: Some(StateAtCutoff::Observed { activity_matched: false }), breaks: true };
    assert!(!inactive(&snap_ok(0, 0), &h));
}

#[test]
fn inactive_when_prior_ok_zero_and_no_breaks() {
    let h = StubHistory { state: Some(StateAtCutoff::Observed { activity_matched: false }), breaks: false };
    assert!(inactive(&snap_ok(0, 0), &h));
}

#[test]
fn remote_users_only_count_for_any_user() {
    let h = StubHistory { state: Some(StateAtCutoff::Observed { activity_matched: false }), breaks: false };
    let snap = snap_ok(0, 3);
    assert!(evaluate_inactivity(&snap, 60 * SEC, NOW, ActivityPredicate::ConsoleOnly, &h).unwrap());
    assert!(!evaluate_inactivity(&snap, 60 * SEC, NOW, ActivityPredicate::AnyUser, &h).unwrap());
}

#[test]
fn failed_snapshot_is_never_inactive() {
    let h = StubHistory { state: Some(StateAtCutoff::Observed { activity_matched: false }), breaks: false };
    let snap = UsageSnapshot::error(NOW, "timeout".to_string());
    assert!(!evaluate_inactivity(&snap, 60 * SEC, NOW, ActivityPredicate::AnyUser, &h).unwrap());
}

#[test]
fn duration_beyond_the_epoch_range_is_refused() {
    let h = StubHistory { state: None, breaks: false };
    match evaluate_inactivity(&snap_ok(0, 0), u128::MAX, i64::MIN, ActivityPredicate::AnyUser, &h) {
        Err(InactivityError::InvalidDuration(m)) => {
            assert_eq!(m, "Source duration value is out of range for the target type")
        }
        _ => panic!("expected an invalid duration"),
    }
}

#[test]
fn window_before_any_timestamp_is_not_inactive() {
    let h = StubHistory { state: Some(StateAtCutoff::Observed { activity_matched: false }), breaks: false };
    let long = 400 * 365 * 24 * 3_600 * SEC;
    assert!(!evaluate_inactivity(&snap_ok(0, 0), long, NOW, ActivityPredicate::AnyUser, &h).unwrap());
    assert_eq!(window_start(NOW, long), Ok(None));
    assert_eq!(window_start(NOW, 60 * SEC), Ok(Some(NOW - 60_000_000_000)));
    assert!(window_start(NOW, u128::MAX).is_err());
}

fn host() -> Host {
    Host {
        id: "r1".into(),
        address: "192.0.2.1".into(),
        name: "Router 1".into(),
        groups: vec!["core".into()],
        metadata: Vec::new(),
        modules: HostModuleConfig::default_config(),
    }
}

fn failure() -> Result<PingOutcome, CheckFailure> {
    Err(CheckFailure { message: "timeout".into() })
}

fn success() -> Result<PingOutcome, CheckFailure> {
    Ok(PingOutcome { address: None, latency: 5_000_000 })
}

#[test]
fn transitions_down_after_failure_threshold() {
    let config = IcmpMonitorConfig { concurrency: 10, failure_threshold: 2, success_threshold: 1 };
    let mut state = HostRuntimeState::default_state();

    assert!(apply_check_result(&host(), &config, &mut state, NOW, failure(), "fake").is_none());
    let event = apply_check_result(&host(), &config, &mut state, NOW + 1, failure(), "fake").unwrap();

    assert_eq!(event.new_status, HostStatus::Down);
    assert_eq!(state.status, HostStatus::Down);
}

#[test]
fn success_threshold_brings_host_up_and_resets_failures() {
    let config = IcmpMonitorConfig { concurrency: 1, failure_threshold: 1, success_threshold: 2 };
    let mut state = HostRuntimeState::default_state();
    let down = apply_check_result(&host(), &config, &mut state, NOW, failure(), "raw").unwrap();
    assert_eq!(down.previous_status, HostStatus::Unknown);
    assert_eq!(down.error.as_deref(), Some("timeout"));
    assert_eq!(down.reason, "failure threshold reached");
    assert_eq!(state.last_error.as_deref(), Some("timeout"));

    assert!(apply_check_result(&host(), &config, &mut state, NOW + 1, success(), "raw").is_none());
    assert_eq!(state.consecutive_failures, 0);
    assert_eq!(state.consecutive_successes, 1);
    assert_eq!(state.status, HostStatus::Down);
    assert!(state.last_error.is_none());

    let up = apply_check_result(&host(), &config, &mut state, NOW + 2, success(), "raw").unwrap();
    assert_eq!(up.previous_status, HostStatus::Down);
    assert_eq!(up.new_status, HostStatus::Up);
    assert_eq!(up.latency, Some(5_000_000));
    assert_eq!(up.backend, "raw");
    assert_eq!(up.reason, "success threshold reached");
    assert_eq!(up.changed_at, NOW + 2);
    assert_eq!(state.last_change_at, Some(NOW + 2));
    assert_eq!(state.last_checked_at, Some(NOW + 2));

    assert!(apply_check_result(&host(), &config, &mut state, NOW + 3, success(), "raw").is_none());
    assert_eq!(state.status, HostStatus::Up);
}

#[test]
fn counters_saturate() {
    let config = IcmpMonitorConfig { concurrency: 1, failure_threshold: 1, success_threshold: 1 };
    let mut state = HostRuntimeState::default_state();
    state.consecutive_failures = u32::MAX;
    state.status = HostStatus::Down;
    assert!(apply_check_result(&host(), &config, &mut state, NOW, failure(), "raw").is_none());
    assert_eq!(state.consecutive_failures, u32::MAX);
}

#[test]
fn requests_carry_the_host_settings() {
    let h = host();
    let ping = check_request(&h);
    assert_eq!(ping.address, "192.0.2.1");
    assert_eq!(ping.timeout, SEC);
    let usage = collection_request(&h);
    assert_eq!(usage.host_id, "r1");
    assert_eq!(usage.timeout, 5 * SEC);
    assert_eq!(usage.linux_min_uid, 1000);
    assert!(usage.ssh_verify_host_key);
}

#[test]
fn collect_once_returns_success_snapshot() {
    let snapshot = snapshot_from_collection(NOW, Ok(UsageCounts { console_users: 1, remote_users: 2 }));
    assert_eq!(snapshot.console_users, Some(1));
    assert_eq!(snapshot.remote_users, Some(2));
    assert_eq!(snapshot.status, UsageCollectionStatus::Okay);
}

#[test]
fn failed_collection_keeps_its_message() {
    let snapshot = snapshot_from_collection(NOW, Err(UsageFailure { message: "ssh collection timed out".into() }));
    assert_eq!(snapshot.status, UsageCollectionStatus::Failed);
    assert_eq!(snapshot.error.as_deref(), Some("ssh collection timed out"));
    assert_eq!(snapshot.console_users, None);
}

#[test]
fn status_names_round_trip() {
    for s in [HostStatus::Unknown, HostStatus::Up, HostStatus::Down] {
        assert_eq!(HostStatus::try_from_str(s.as_str()).unwrap(), s);
    }
    assert_eq!(HostStatus::try_from_str("UP").unwrap_err(), "invalid host status \"UP\"");
    assert_eq!(UsageCollectionStatus::try_from_str("ok").unwrap(), UsageCollectionStatus::Okay);
    assert_eq!(UsageCollectionStatus::Failed.as_str(), "error");
}
