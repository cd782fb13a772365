use simple_network_monitor::backends::ping::{
    choose_backend, command_failure_message, icmp_socket_for, IcmpSocket, next_unique_identifier, pick_resolved_address, ping_args,
    system_ping_result, tries_raw_backend, BackendChoice, PingError, PingPlatform, SystemPingBackend,
};
use simple_network_monitor::backends::usage::{
    remote_usage_script, ssh_args, ssh_collection_result, SystemSshUsageCollector, UsageCollector, UsageCounts,
};
use simple_network_monitor::config::BackendKind;
use simple_network_monitor::domain::icmp::IpAddress;
use simple_network_monitor::domain::usage::UsageOs;
use std::collections::HashSet;

const MS: u128 = 1_000_000;
const SEC: u128 = 1_000_000_000;

#[test]
fn linux_timeout_uses_fractional_seconds() {
    let args = ping_args(PingPlatform::Linux, "192.0.2.1", 250 * MS);
    let w = args.iter().position(|s| s == "-W").expect("ping_args is missing -W");
    let value = &args[w + 1];
    let parsed: f32 = value.parse().expect("non-numeric -W value");
    assert!((parsed - 0.25).abs() < 1e-3, "expected ~0.25, got {value}");
}

#[test]
fn linux_timeout_never_below_one_millisecond() {
    let args = ping_args(PingPlatform::Linux, "192.0.2.1", 0);
    let w = args.iter().position(|s| s == "-W").unwrap();
    let parsed: f32 = args[w + 1].parse().unwrap();
    assert!(parsed >= 0.001, "expected ≥1ms floor, got {parsed}");
}

#[test]
fn ping_args_use_platform_timeout_units_linux() {
    assert_eq!(
        ping_args(PingPlatform::Linux, "192.0.2.1", 1_500 * MS),
        vec!["-n", "-c", "1", "-W", "1.500", "192.0.2.1"]
    );
}

#[test]
fn ping_args_use_platform_timeout_units_macos() {
    assert_eq!(
        ping_args(PingPlatform::MacOs, "192.0.2.1", 1_500 * MS),
        vec!["-n", "-c", "1", "-W", "1500", "192.0.2.1"]
    );
}

#[test]
fn ping_args_round_to_the_millisecond() {
    assert_eq!(ping_args(PingPlatform::Linux, "h", 1_234_600)[4], "0.001");
    assert_eq!(ping_args(PingPlatform::Linux, "h", 1_600_000)[4], "0.002");
    assert_eq!(ping_args(PingPlatform::Linux, "h", 12 * SEC + 345 * MS)[4], "12.345");
    assert_eq!(ping_args(PingPlatform::MacOs, "h", 400_000)[4], "1");
    assert_eq!(ping_args(PingPlatform::MacOs, "h", 2 * SEC + 999_999)[4], "2000");
}

#[test]
fn raw_backend_does_not_reuse_in_flight_identifier() {
    let mut inflight: HashSet<u16> = HashSet::new();

    let mut taken = Vec::new();
    for _ in 0..1024 {
        let id = next_unique_identifier(&mut inflight, 0xABCDu16).unwrap();
        assert!(inflight.contains(&id), "helper must reserve {id} in the set");
        assert!(!taken.contains(&id), "helper handed out duplicate in-flight id {id}");
        taken.push(id);
    }
    assert_eq!(inflight.len(), 1024);

    for id in taken.iter().step_by(2) {
        inflight.remove(id);
    }
    let mut second_round = Vec::new();
    for _ in 0..256 {
        let id = next_unique_identifier(&mut inflight, 0xABCDu16).unwrap();
        assert!(!second_round.contains(&id));
        second_round.push(id);
    }
    assert_eq!(inflight.len(), 1024 - 512 + 256);
}

#[test]
fn identifier_probe_wraps_around() {
    let mut inflight: HashSet<u16> = HashSet::new();
    inflight.insert(u16::MAX);
    assert_eq!(next_unique_identifier(&mut inflight, u16::MAX).unwrap(), 0);
    assert_eq!(next_unique_identifier(&mut inflight, u16::MAX).unwrap(), 1);
}

#[test]
fn identifier_space_exhausted_is_an_error() {
    let mut inflight: HashSet<u16> = (0..=u16::MAX).collect();
    let err = next_unique_identifier(&mut inflight, 7).unwrap_err();
    assert_eq!(err.message, "all 65536 icmp identifiers are in flight");
    assert_eq!(inflight.len(), 65536);
}

#[test]
fn resolution_prefers_the_first_ipv4_address() {
    let v6 = IpAddress::V6(1);
    let a = IpAddress::V4(0xc000_0201);
    let b = IpAddress::V4(0xc000_0202);
    assert_eq!(pick_resolved_address("h", &vec![v6, a, b]).unwrap(), a);
    assert_eq!(pick_resolved_address("h", &vec![v6, IpAddress::V6(2)]).unwrap(), v6);
    let err = pick_resolved_address("nowhere.example", &vec![]).unwrap_err();
    assert_eq!(err.message, "nowhere.example resolved to no IP addresses");
}

#[test]
fn backend_choice_follows_the_configured_kind() {
    assert!(!tries_raw_backend(BackendKind::System));
    assert!(tries_raw_backend(BackendKind::Auto));
    assert_eq!(choose_backend(BackendKind::System, None).unwrap(), BackendChoice::System);
    assert_eq!(choose_backend(BackendKind::Raw, Some(Ok(()))).unwrap(), BackendChoice::Raw);
    let err = choose_backend(BackendKind::Raw, Some(Err(PingError::BackendUnavailable("denied".into()))))
        .unwrap_err();
    assert_eq!(err.message(), "backend unavailable: denied");
    assert_eq!(
        choose_backend(BackendKind::Auto, Some(Err(PingError::Io("x".into())))).unwrap(),
        BackendChoice::System
    );
    assert_eq!(choose_backend(BackendKind::Auto, Some(Ok(()))).unwrap(), BackendChoice::Raw);
}

#[test]
fn system_backend_keeps_its_platform() {
    let backend = SystemPingBackend::new(PingPlatform::MacOs);
    assert_eq!(backend.platform(), PingPlatform::MacOs);
    assert_eq!(backend.name(), "system");
}

#[test]
fn failed_command_reports_stderr_or_status() {
    assert_eq!(command_failure_message("ping", "  no route \n", "exit status: 1"), "no route");
    assert_eq!(command_failure_message("ping", " \t\n", "exit status: 2"), "ping exited with exit status: 2");
    let err = system_ping_result(false, "", "exit status: 1", None, 0).unwrap_err();
    assert_eq!(err.message, "ping exited with exit status: 1");
    let ok = system_ping_result(true, "", "", Some(IpAddress::V4(1)), 42).unwrap();
    assert_eq!(ok.latency, 42);
}

#[test]
fn ssh_args_use_batch_mode_and_remote_shell() {
    let args = ssh_args("host.example", 5 * SEC, true, "echo ok");
    assert_eq!(args[0], "-o");
    assert!(args.contains(&"BatchMode=yes".into()));
    assert!(!args.contains(&"StrictHostKeyChecking=no".into()));
    assert!(args.contains(&"host.example".into()));
    assert!(args.contains(&"sh".into()));
}

#[test]
fn ssh_args_can_disable_host_key_verification() {
    let args = ssh_args("host.example", 5 * SEC, false, "echo ok");
    assert!(args.contains(&"StrictHostKeyChecking=no".into()));
    assert!(args.contains(&"UserKnownHostsFile=/dev/null".into()));
}

#[test]
fn ssh_connect_timeout_is_whole_seconds_at_least_one() {
    assert_eq!(ssh_args("h", 500 * MS, true, "s")[3], "ConnectTimeout=1");
    assert_eq!(ssh_args("h", 7 * SEC + 900 * MS, true, "s")[3], "ConnectTimeout=7");
    let args = ssh_args("h", 5 * SEC, true, "s");
    assert_eq!(args, vec!["-o", "BatchMode=yes", "-o", "ConnectTimeout=5", "-o", "NumberOfPasswordPrompts=0", "h", "sh", "-lc", "s"]);
}

#[test]
fn remote_script_outputs_json_without_names_in_format() {
    let script = remote_usage_script(UsageOs::Auto, 1000, 500);
    assert!(script.contains("console_users"));
    assert!(script.contains("remote_users"));
    assert!(!script.contains("username"));
}

#[test]
fn explicit_linux_skips_uname_probe() {
    let script = remote_usage_script(UsageOs::Linux, 1000, 500);
    assert!(!script.contains("uname"));
    assert!(script.contains("min_uid=1000"));
}

#[test]
fn explicit_macos_skips_uname_probe() {
    let script = remote_usage_script(UsageOs::Macos, 1000, 500);
    assert!(!script.contains("uname"));
    assert!(script.contains("min_uid=500"));
}

#[test]
fn auto_keeps_uname_probe() {
    let script = remote_usage_script(UsageOs::Auto, 1000, 500);
    assert!(script.contains("uname"));
}

#[test]
fn linux_script_prefers_loginctl_and_treats_seats_as_console() {
    let script = remote_usage_script(UsageOs::Linux, 1000, 500);
    assert!(script.contains("loginctl list-sessions"));
    assert!(script.contains("loginctl show-session"));
    assert!(script.contains("console|seat*|tty*|vc/*"));
}

#[test]
fn script_starts_with_the_os_resolution() {
    let script = remote_usage_script(UsageOs::Linux, 1200, 500);
    assert!(script.starts_with("snm_os=Linux\nmin_uid=1200\nconsole=0\n"));
    let auto = remote_usage_script(UsageOs::Auto, 1000, 501);
    assert!(auto.contains("Darwin) min_uid=501 ;;\n  *) min_uid=1000 ;;\nesac\n"));
    assert!(auto.contains("awk '{print $1}'"));
    assert!(auto.ends_with("printf '{\"console_users\":%s,\"remote_users\":%s}\\n' \"$console\" \"$remote\"\n"));
}

#[test]
fn ssh_collection_outcomes() {
    let counts = UsageCounts { console_users: 1, remote_users: 2 };
    assert_eq!(ssh_collection_result(true, "", "", Some(Ok(counts))).unwrap(), counts);
    let err = ssh_collection_result(true, "", "", Some(Err("expected value".into()))).unwrap_err();
    assert_eq!(err.message, "failed to parse usage json: expected value");
    let err = ssh_collection_result(false, "Permission denied\n", "exit status: 255", None).unwrap_err();
    assert_eq!(err.message, "Permission denied");
    let err = ssh_collection_result(false, "", "exit status: 255", None).unwrap_err();
    assert_eq!(err.message, "ssh exited with exit status: 255");
    assert_eq!(SystemSshUsageCollector.name(), "system-ssh");
}

#[test]
fn icmp_socket_follows_the_address_family() {
    assert_eq!(icmp_socket_for(IpAddress::V4(0x7f00_0001), "127.0.0.1", false).unwrap(), IcmpSocket::V4);
    assert_eq!(icmp_socket_for(IpAddress::V6(1), "::1", true).unwrap(), IcmpSocket::V6);
    let err = icmp_socket_for(IpAddress::V6(1), "::1", false).unwrap_err();
    assert_eq!(err.message, "ipv6 address ::1 cannot be pinged: no IPv6 raw socket available");
}
