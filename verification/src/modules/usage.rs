//! The usage module: configuration, defaults and documentation of console and
//! remote user collection over SSH.
pub mod monitor;
use crate::app::filters::FilterKeyMetadata;
use crate::domain::usage::UsageOs;
use crate::modules::icmp::{or_inherit, NANOS_PER_SECOND};
use crate::modules::{
    filter_docs, module_description, module_enabled_by_default, module_filter_docs, module_id, module_name,
    module_option_docs, option_docs, ConfigOptionDoc, ModuleKind, ModuleMetadata,
};
use vstd::prelude::*;

verus! {

/// `[modules.usage]`: the global usage settings. Durations are in nanoseconds.
#[derive(Clone, Copy, Debug, PartialEq, Eq, Structural)]
pub struct UsageModuleConfig {
    pub enabled: bool,
    pub interval: u128,
    pub timeout: u128,
    pub concurrency: usize,
    pub ssh_verify_host_key: bool,
    pub sample_retention: u128,
    pub linux_min_uid: u32,
    pub macos_min_uid: u32,
}

/// `[hosts.modules.usage]`: per-host overrides; `None` inherits.
#[derive(Clone, Copy, Debug, PartialEq, Eq, Structural)]
pub struct UsageHostConfig {
    pub enabled: Option<bool>,
    pub os: Option<UsageOs>,
    pub ssh_verify_host_key: Option<bool>,
    pub interval: Option<u128>,
    pub timeout: Option<u128>,
    pub linux_min_uid: Option<u32>,
    pub macos_min_uid: Option<u32>,
}

/// The usage settings that apply to one host.
#[derive(Clone, Copy, Debug, PartialEq, Eq, Structural)]
pub struct ResolvedUsageHostConfig {
    pub enabled: bool,
    pub os: UsageOs,
    pub ssh_verify_host_key: bool,
    pub interval: u128,
    pub timeout: u128,
    pub linux_min_uid: u32,
    pub macos_min_uid: u32,
}

impl UsageHostConfig {
    pub fn empty() -> (r: UsageHostConfig)
        ensures
            r.enabled.is_none(),
            r.os.is_none(),
            r.ssh_verify_host_key.is_none(),
            r.interval.is_none(),
            r.timeout.is_none(),
            r.linux_min_uid.is_none(),
            r.macos_min_uid.is_none(),
    {
        UsageHostConfig {
            enabled: None,
            os: None,
            ssh_verify_host_key: None,
            interval: None,
            timeout: None,
            linux_min_uid: None,
            macos_min_uid: None,
        }
    }
}

/// A host's usage settings: the host's own value, else (for host key
/// checking) the value its groups agree on, else the global one.
pub open spec fn resolve_usage_host(
    m: UsageModuleConfig,
    raw: UsageHostConfig,
    group_ssh_verify_host_key: Option<bool>,
) -> ResolvedUsageHostConfig {
    ResolvedUsageHostConfig {
        enabled: or_inherit(raw.enabled, m.enabled),
        os: or_inherit(raw.os, UsageOs::Auto),
        ssh_verify_host_key: or_inherit(
            raw.ssh_verify_host_key,
            or_inherit(group_ssh_verify_host_key, m.ssh_verify_host_key),
        ),
        interval: or_inherit(raw.interval, m.interval),
        timeout: or_inherit(raw.timeout, m.timeout),
        linux_min_uid: or_inherit(raw.linux_min_uid, m.linux_min_uid),
        macos_min_uid: or_inherit(raw.macos_min_uid, m.macos_min_uid),
    }
}

impl UsageModuleConfig {
    /// Host settings: the host's own value, else (for host key checking) the
    /// value its groups agree on, else the global one. The OS defaults to
    /// `auto`.
    pub fn resolve_host(&self, raw: UsageHostConfig, group_ssh_verify_host_key: Option<bool>) -> (r:
        ResolvedUsageHostConfig)
        ensures
            r == resolve_usage_host(*self, raw, group_ssh_verify_host_key),
            r.enabled == or_inherit(raw.enabled, self.enabled),
            r.os == or_inherit(raw.os, UsageOs::Auto),
            r.ssh_verify_host_key == or_inherit(
                raw.ssh_verify_host_key,
                or_inherit(group_ssh_verify_host_key, self.ssh_verify_host_key),
            ),
            r.interval == or_inherit(raw.interval, self.interval),
            r.timeout == or_inherit(raw.timeout, self.timeout),
            r.linux_min_uid == or_inherit(raw.linux_min_uid, self.linux_min_uid),
            r.macos_min_uid == or_inherit(raw.macos_min_uid, self.macos_min_uid),
    {
        let verify = match raw.ssh_verify_host_key {
            Some(v) => v,
            None => match group_ssh_verify_host_key {
                Some(v) => v,
                None => self.ssh_verify_host_key,
            },
        };
        ResolvedUsageHostConfig {
            enabled: match raw.enabled { Some(v) => v, None => self.enabled },
            os: match raw.os { Some(v) => v, None => UsageOs::Auto },
            ssh_verify_host_key: verify,
            interval: match raw.interval { Some(v) => v, None => self.interval },
            timeout: match raw.timeout { Some(v) => v, None => self.timeout },
            linux_min_uid: match raw.linux_min_uid { Some(v) => v, None => self.linux_min_uid },
            macos_min_uid: match raw.macos_min_uid { Some(v) => v, None => self.macos_min_uid },
        }
    }

    /// The documented defaults.
    pub fn default_config() -> (r: UsageModuleConfig)
        ensures
            !r.enabled,
            r.interval == 300_000_000_000,
            r.timeout == 5_000_000_000,
            r.concurrency == 32,
            r.ssh_verify_host_key,
            r.sample_retention == 2_592_000_000_000_000,
            r.linux_min_uid == 1000,
            r.macos_min_uid == 500,
    {
        UsageModuleConfig {
            enabled: default_enabled(),
            interval: default_interval(),
            timeout: default_timeout(),
            concurrency: default_concurrency(),
            ssh_verify_host_key: default_ssh_verify_host_key(),
            sample_retention: default_sample_retention(),
            linux_min_uid: default_linux_min_uid(),
            macos_min_uid: default_macos_min_uid(),
        }
    }
}

impl ResolvedUsageHostConfig {
    /// The defaults resolved for a host that overrides nothing.
    pub fn default_config() -> (r: ResolvedUsageHostConfig)
        ensures
            !r.enabled,
            r.os == UsageOs::Auto,
            r.ssh_verify_host_key,
            r.interval == 300_000_000_000,
            r.timeout == 5_000_000_000,
            r.linux_min_uid == 1000,
            r.macos_min_uid == 500,
    {
        UsageModuleConfig::default_config().resolve_host(UsageHostConfig::empty(), None)
    }
}

/// Usage collection is off by default.
pub fn default_enabled() -> (r: bool)
    ensures
        !r,
{
    false
}

/// Five minutes between collections.
pub fn default_interval() -> (r: u128)
    ensures
        r == 300_000_000_000,
{
    300 * NANOS_PER_SECOND
}

/// Five seconds for the SSH command.
pub fn default_timeout() -> (r: u128)
    ensures
        r == 5_000_000_000,
{
    5 * NANOS_PER_SECOND
}

/// SSH host keys must verify by default.
pub fn default_ssh_verify_host_key() -> (r: bool)
    ensures
        r,
{
    true
}

/// At most 32 collections at once.
pub fn default_concurrency() -> (r: usize)
    ensures
        r == 32,
{
    32
}

/// Per-poll samples are kept for thirty days.
pub fn default_sample_retention() -> (r: u128)
    ensures
        r == 2_592_000_000_000_000,
{
    30 * 24 * 60 * 60 * NANOS_PER_SECOND
}

/// The lowest Linux uid counted as an interactive user.
pub fn default_linux_min_uid() -> (r: u32)
    ensures
        r == 1000,
{
    1000
}

/// The lowest macOS uid counted as an interactive user.
pub fn default_macos_min_uid() -> (r: u32)
    ensures
        r == 500,
{
    500
}

/// Module catalog entry.
pub fn metadata() -> (r: ModuleMetadata)
    ensures
        r.id@ == module_id(ModuleKind::Usage),
        r.name@ == module_name(ModuleKind::Usage),
        r.description@ == module_description(ModuleKind::Usage),
        r.enabled_by_default == module_enabled_by_default(ModuleKind::Usage),
{
    ModuleMetadata {
        id: "usage",
        name: "Console usage",
        description: "Collects console and remote user counts over SSH.",
        enabled_by_default: false,
    }
}

/// The filter keys this module documents under the `usage` namespace.
pub fn filter_specs() -> (r: Vec<(&'static str, FilterKeyMetadata)>)
    ensures
        filter_docs(crate::sorted::entry_views(r@)) == module_filter_docs(ModuleKind::Usage),
        crate::sorted::keys_of(crate::sorted::entry_views(r@)) == seq!["status"@, "inactive_console_for"@, "no_users_for"@],
{
    let mut status_values: Vec<&'static str> = Vec::new();
    status_values.push("ok");
    status_values.push("error");
    let mut inactive_values: Vec<&'static str> = Vec::new();
    inactive_values.push("24h");
    inactive_values.push("7days");
    let mut no_users_values: Vec<&'static str> = Vec::new();
    no_users_values.push("24h");
    no_users_values.push("7days");
    proof {
        assert(status_values@.map_values(|v: &'static str| v@) =~= seq!["ok"@, "error"@]);
        assert(inactive_values@.map_values(|v: &'static str| v@) =~= seq!["24h"@, "7days"@]);
        assert(no_users_values@.map_values(|v: &'static str| v@) =~= seq!["24h"@, "7days"@]);
    }
    let mut specs: Vec<(&'static str, FilterKeyMetadata)> = Vec::new();
    specs.push(("status", FilterKeyMetadata {
        value_type: "enum",
        values: status_values,
        description: "latest usage collection status",
    }));
    specs.push(("inactive_console_for", FilterKeyMetadata {
        value_type: "duration",
        values: inactive_values,
        description: "no console users during the duration window",
    }));
    specs.push(("no_users_for", FilterKeyMetadata {
        value_type: "duration",
        values: no_users_values,
        description: "no console or remote users during the duration window",
    }));
    proof {
        assert(crate::sorted::keys_of(crate::sorted::entry_views(specs@)) =~= seq!["status"@, "inactive_console_for"@, "no_users_for"@]);
    }
    proof {
        assert(filter_docs(crate::sorted::entry_views(specs@)) =~= module_filter_docs(ModuleKind::Usage));
    }
    specs
}

/// The documented `[modules.usage]` keys with their defaults.
pub fn config_options() -> (r: Vec<ConfigOptionDoc>)
    ensures
        option_docs(r@) == module_option_docs(ModuleKind::Usage),
{
    let mut docs: Vec<ConfigOptionDoc> = Vec::new();
    docs.push(ConfigOptionDoc {
        key: "enabled",
        value_type: "boolean",
        default_value: "false",
        description: "whether usage collection is enabled globally",
    });
    docs.push(ConfigOptionDoc {
        key: "interval",
        value_type: "duration",
        default_value: "5m",
        description: "default host collection interval",
    });
    docs.push(ConfigOptionDoc {
        key: "timeout",
        value_type: "duration",
        default_value: "5s",
        description: "SSH command timeout",
    });
    docs.push(ConfigOptionDoc {
        key: "concurrency",
        value_type: "integer",
        default_value: "32",
        description: "maximum concurrent usage collections",
    });
    docs.push(ConfigOptionDoc {
        key: "ssh_verify_host_key",
        value_type: "boolean",
        default_value: "true",
        description: "whether SSH host keys must verify",
    });
    docs.push(ConfigOptionDoc {
        key: "sample_retention",
        value_type: "duration",
        default_value: "30d",
        description: "how long per-poll usage samples are retained",
    });
    docs.push(ConfigOptionDoc {
        key: "linux_min_uid",
        value_type: "integer",
        default_value: "1000",
        description: "minimum Linux UID counted as an interactive user",
    });
    docs.push(ConfigOptionDoc {
        key: "macos_min_uid",
        value_type: "integer",
        default_value: "500",
        description: "minimum macOS UID counted as an interactive user",
    });
    proof {
        assert(option_docs(docs@) =~= module_option_docs(ModuleKind::Usage));
    }
    docs
}

/// The usage module in the module registry.
#[derive(Clone, Copy, Debug)]
pub struct UsageModule;

impl UsageModule {
    /// Which registry entry this module is.
    pub fn kind(&self) -> (r: crate::modules::ModuleKind)
        ensures
            r == crate::modules::ModuleKind::Usage,
    {
        crate::modules::ModuleKind::Usage
    }

    pub fn metadata(&self) -> (r: ModuleMetadata)
        ensures
            r.id@ == crate::modules::module_id(crate::modules::ModuleKind::Usage),
    {
        crate::modules::ModuleKind::Usage.metadata()
    }

    pub fn globally_enabled(&self, config: &crate::config::AppConfig) -> (r: bool)
        ensures
            r == crate::modules::module_globally_enabled(crate::modules::ModuleKind::Usage, config.modules),
    {
        crate::modules::ModuleKind::Usage.globally_enabled(config)
    }

    pub fn has_enabled_hosts(&self, config: &crate::config::AppConfig) -> (r: bool)
        ensures
            r == crate::modules::module_has_enabled_host(crate::modules::ModuleKind::Usage, config.hosts@),
    {
        crate::modules::ModuleKind::Usage.has_enabled_hosts(config)
    }
}

} // verus!
