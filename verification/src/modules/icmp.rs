//! The ICMP reachability module: its configuration, defaults, documentation
//! and the status machine that turns probe results into transitions.
pub mod monitor;
use crate::config::BackendKind;
use crate::app::filters::FilterKeyMetadata;
use crate::modules::{
    filter_docs, module_description, module_enabled_by_default, module_filter_docs, module_id, module_name,
    module_option_docs, option_docs, ConfigOptionDoc, ModuleKind, ModuleMetadata,
};
use vstd::prelude::*;

verus! {

/// Nanoseconds in a second.
pub const NANOS_PER_SECOND: u128 = 1_000_000_000;

/// `[modules.icmp]`: the global ICMP settings. Durations are in nanoseconds.
#[derive(Clone, Copy, Debug, PartialEq, Eq, Structural)]
pub struct IcmpModuleConfig {
    pub enabled: bool,
    pub backend: BackendKind,
    pub interval: u128,
    pub timeout: u128,
    pub concurrency: usize,
    pub failure_threshold: u32,
    pub success_threshold: u32,
}

/// `[hosts.modules.icmp]`: per-host overrides; `None` inherits the global value.
#[derive(Clone, Copy, Debug, PartialEq, Eq, Structural)]
pub struct IcmpHostConfig {
    pub enabled: Option<bool>,
    pub interval: Option<u128>,
    pub timeout: Option<u128>,
}

/// The ICMP settings that apply to one host.
#[derive(Clone, Copy, Debug, PartialEq, Eq, Structural)]
pub struct ResolvedIcmpHostConfig {
    pub enabled: bool,
    pub interval: u128,
    pub timeout: u128,
}

/// An override if given, else the inherited value.
pub open spec fn or_inherit<T>(value: Option<T>, inherited: T) -> T {
    match value {
        Some(v) => v,
        None => inherited,
    }
}

impl IcmpHostConfig {
    pub fn empty() -> (r: IcmpHostConfig)
        ensures
            r.enabled.is_none(),
            r.interval.is_none(),
            r.timeout.is_none(),
    {
        IcmpHostConfig { enabled: None, interval: None, timeout: None }
    }
}

/// A host's ICMP settings: each field the host overrides, else the global one.
pub open spec fn resolve_icmp_host(m: IcmpModuleConfig, raw: IcmpHostConfig) -> ResolvedIcmpHostConfig {
    ResolvedIcmpHostConfig {
        enabled: or_inherit(raw.enabled, m.enabled),
        interval: or_inherit(raw.interval, m.interval),
        timeout: or_inherit(raw.timeout, m.timeout),
    }
}

impl IcmpModuleConfig {
    /// Host settings: each field the host overrides, else the global one.
    pub fn resolve_host(&self, raw: IcmpHostConfig) -> (r: ResolvedIcmpHostConfig)
        ensures
            r == resolve_icmp_host(*self, raw),
            r.enabled == or_inherit(raw.enabled, self.enabled),
            r.interval == or_inherit(raw.interval, self.interval),
            r.timeout == or_inherit(raw.timeout, self.timeout),
    {
        ResolvedIcmpHostConfig {
            enabled: match raw.enabled { Some(v) => v, None => self.enabled },
            interval: match raw.interval { Some(v) => v, None => self.interval },
            timeout: match raw.timeout { Some(v) => v, None => self.timeout },
        }
    }

    /// The documented defaults.
    pub fn default_config() -> (r: IcmpModuleConfig)
        ensures
            r.enabled,
            r.backend == BackendKind::Auto,
            r.interval == 30_000_000_000,
            r.timeout == 1_000_000_000,
            r.concurrency == 128,
            r.failure_threshold == 2,
            r.success_threshold == 1,
    {
        IcmpModuleConfig {
            enabled: default_enabled(),
            backend: BackendKind::Auto,
            interval: default_interval(),
            timeout: default_timeout(),
            concurrency: default_concurrency(),
            failure_threshold: default_failure_threshold(),
            success_threshold: default_success_threshold(),
        }
    }
}

impl ResolvedIcmpHostConfig {
    /// The defaults resolved for a host that overrides nothing.
    pub fn default_config() -> (r: ResolvedIcmpHostConfig)
        ensures
            r.enabled,
            r.interval == 30_000_000_000,
            r.timeout == 1_000_000_000,
    {
        IcmpModuleConfig::default_config().resolve_host(IcmpHostConfig::empty())
    }
}

/// ICMP monitoring is on by default.
pub fn default_enabled() -> (r: bool)
    ensures
        r,
{
    true
}

/// Thirty seconds between probes.
pub fn default_interval() -> (r: u128)
    ensures
        r == 30_000_000_000,
{
    30 * NANOS_PER_SECOND
}

/// One second to wait for an answer.
pub fn default_timeout() -> (r: u128)
    ensures
        r == 1_000_000_000,
{
    NANOS_PER_SECOND
}

/// At most 128 probes at once.
pub fn default_concurrency() -> (r: usize)
    ensures
        r == 128,
{
    128
}

/// Two failures in a row mark a host down.
pub fn default_failure_threshold() -> (r: u32)
    ensures
        r == 2,
{
    2
}

/// One success marks a host up.
pub fn default_success_threshold() -> (r: u32)
    ensures
        r == 1,
{
    1
}

/// Module catalog entry.
pub fn metadata() -> (r: ModuleMetadata)
    ensures
        r.id@ == module_id(ModuleKind::Icmp),
        r.name@ == module_name(ModuleKind::Icmp),
        r.description@ == module_description(ModuleKind::Icmp),
        r.enabled_by_default == module_enabled_by_default(ModuleKind::Icmp),
{
    ModuleMetadata {
        id: "icmp",
        name: "ICMP reachability",
        description: "Polls hosts with ping and records status transitions.",
        enabled_by_default: true,
    }
}

/// The filter keys this module documents under the `icmp` namespace.
pub fn filter_specs() -> (r: Vec<(&'static str, FilterKeyMetadata)>)
    ensures
        filter_docs(crate::sorted::entry_views(r@)) == module_filter_docs(ModuleKind::Icmp),
        crate::sorted::keys_of(crate::sorted::entry_views(r@)) == seq!["status"@],
{
    let mut values: Vec<&'static str> = Vec::new();
    values.push("unknown");
    values.push("up");
    values.push("down");
    proof {
        assert(values@.map_values(|v: &'static str| v@) =~= seq!["unknown"@, "up"@, "down"@]);
    }
    let mut specs: Vec<(&'static str, FilterKeyMetadata)> = Vec::new();
    specs.push(("status", FilterKeyMetadata {
        value_type: "enum",
        values,
        description: "host ICMP status",
    }));
    proof {
        assert(crate::sorted::keys_of(crate::sorted::entry_views(specs@)) =~= seq!["status"@]);
    }
    proof {
        assert(filter_docs(crate::sorted::entry_views(specs@)) =~= module_filter_docs(ModuleKind::Icmp));
    }
    specs
}

/// The documented `[modules.icmp]` keys with their defaults.
pub fn config_options() -> (r: Vec<ConfigOptionDoc>)
    ensures
        option_docs(r@) == module_option_docs(ModuleKind::Icmp),
{
    let mut docs: Vec<ConfigOptionDoc> = Vec::new();
    docs.push(ConfigOptionDoc {
        key: "enabled",
        value_type: "boolean",
        default_value: "true",
        description: "whether ICMP monitoring is enabled globally",
    });
    docs.push(ConfigOptionDoc {
        key: "backend",
        value_type: "enum",
        default_value: "auto",
        description: "ping backend: auto, raw, or system",
    });
    docs.push(ConfigOptionDoc {
        key: "interval",
        value_type: "duration",
        default_value: "30s",
        description: "default host polling interval",
    });
    docs.push(ConfigOptionDoc {
        key: "timeout",
        value_type: "duration",
        default_value: "1s",
        description: "default ping timeout",
    });
    docs.push(ConfigOptionDoc {
        key: "concurrency",
        value_type: "integer",
        default_value: "128",
        description: "maximum concurrent ping checks",
    });
    docs.push(ConfigOptionDoc {
        key: "failure_threshold",
        value_type: "integer",
        default_value: "2",
        description: "failed checks required before a host is down",
    });
    docs.push(ConfigOptionDoc {
        key: "success_threshold",
        value_type: "integer",
        default_value: "1",
        description: "successful checks required before a host is up",
    });
    proof {
        assert(option_docs(docs@) =~= module_option_docs(ModuleKind::Icmp));
    }
    docs
}

/// The icmp module in the module registry.
#[derive(Clone, Copy, Debug)]
pub struct IcmpModule;

impl IcmpModule {
    /// Which registry entry this module is.
    pub fn kind(&self) -> (r: crate::modules::ModuleKind)
        ensures
            r == crate::modules::ModuleKind::Icmp,
    {
        crate::modules::ModuleKind::Icmp
    }

    pub fn metadata(&self) -> (r: ModuleMetadata)
        ensures
            r.id@ == crate::modules::module_id(crate::modules::ModuleKind::Icmp),
    {
        crate::modules::ModuleKind::Icmp.metadata()
    }

    pub fn globally_enabled(&self, config: &crate::config::AppConfig) -> (r: bool)
        ensures
            r == crate::modules::module_globally_enabled(crate::modules::ModuleKind::Icmp, config.modules),
    {
        crate::modules::ModuleKind::Icmp.globally_enabled(config)
    }

    pub fn has_enabled_hosts(&self, config: &crate::config::AppConfig) -> (r: bool)
        ensures
            r == crate::modules::module_has_enabled_host(crate::modules::ModuleKind::Icmp, config.hosts@),
    {
        crate::modules::ModuleKind::Icmp.has_enabled_hosts(config)
    }
}

} // verus!
