//! The usage monitor's decisions: what a collection asks for and what its
//! result becomes.
use crate::backends::usage::{UsageCollectionRequest, UsageCounts, UsageFailure};
use crate::config::AppConfig;
use crate::domain::host::Host;
use crate::domain::usage::{opt_text, UsageCollectionStatus, UsageSnapshot};
use crate::text::owned;
use vstd::prelude::*;

verus! {

/// The settings the usage monitor runs with.
#[derive(Clone, Copy, Debug)]
pub struct UsageMonitorConfig {
    pub concurrency: usize,
}

/// The usage monitor's settings from the configuration.
pub fn monitor_config(config: &AppConfig) -> (r: UsageMonitorConfig)
    ensures
        r.concurrency == config.modules.usage.concurrency,
{
    UsageMonitorConfig { concurrency: config.modules.usage.concurrency }
}

/// The collection a host gets: its address and its resolved usage settings.
pub fn collection_request(host: &Host) -> (r: UsageCollectionRequest)
    ensures
        r.host_id@ == host.id@,
        r.address@ == host.address@,
        r.os == host.modules.usage.os,
        r.ssh_verify_host_key == host.modules.usage.ssh_verify_host_key,
        r.timeout == host.modules.usage.timeout,
        r.linux_min_uid == host.modules.usage.linux_min_uid,
        r.macos_min_uid == host.modules.usage.macos_min_uid,
{
    UsageCollectionRequest {
        host_id: owned(host.id.as_str()),
        address: owned(host.address.as_str()),
        os: host.modules.usage.os,
        ssh_verify_host_key: host.modules.usage.ssh_verify_host_key,
        timeout: host.modules.usage.timeout,
        linux_min_uid: host.modules.usage.linux_min_uid,
        macos_min_uid: host.modules.usage.macos_min_uid,
    }
}

/// The snapshot a collection taken at `collected_at` yields: the counts on
/// success, the failure message otherwise.
pub fn snapshot_from_collection(collected_at: i64, result: Result<UsageCounts, UsageFailure>) -> (r: UsageSnapshot)
    ensures
        r.collected_at == collected_at,
        match result {
            Ok(c) => r.status == UsageCollectionStatus::Okay && r.console_users == Some(c.console_users)
                && r.remote_users == Some(c.remote_users) && r.error is None,
            Err(f) => r.status == UsageCollectionStatus::Failed && r.console_users is None
                && r.remote_users is None && opt_text(r.error) == Some(f.message@),
        },
{
    match result {
        Ok(c) => UsageSnapshot::success(collected_at, c.console_users, c.remote_users),
        Err(f) => UsageSnapshot::error(collected_at, f.message),
    }
}

} // verus!
