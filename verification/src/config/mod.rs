//! Configuration: the parsed TOML as plain values, its validation, and the
//! resolution of each host's module settings.
pub mod checks;
pub mod hosts;
pub mod validate;

use crate::domain::api_token::ApiToken;
use crate::domain::host::{Host, MetadataValue};
use crate::domain::icmp::IpAddress;
use crate::modules::icmp::{IcmpHostConfig, IcmpModuleConfig};
use crate::modules::usage::{UsageHostConfig, UsageModuleConfig};
use crate::text::{concat2, concat3};
use vstd::prelude::*;

verus! {

/// Which ping backend the ICMP module uses.
#[derive(Clone, Copy, Debug, PartialEq, Eq, Structural)]
pub enum BackendKind {
    Auto,
    Raw,
    System,
}

/// The socket address the API binds to. An IPv6 address also carries its
/// flow information and scope id; both are 0 for IPv4.
#[derive(Clone, Copy, Debug, PartialEq, Eq, Structural)]
pub struct BindAddress {
    pub ip: IpAddress,
    pub port: u16,
    pub flowinfo: u32,
    pub scope_id: u32,
}

/// `127.0.0.0/8` for IPv4 and `::1` for IPv6, as `IpAddr::is_loopback` has it.
pub open spec fn is_loopback(ip: IpAddress) -> bool {
    match ip {
        IpAddress::V4(bits) => bits / 0x0100_0000 == 127,
        IpAddress::V6(bits) => bits == 1,
    }
}

impl IpAddress {
    pub fn is_loopback(&self) -> (r: bool)
        ensures
            r == is_loopback(*self),
    {
        match self {
            IpAddress::V4(bits) => *bits / 0x0100_0000 == 127,
            IpAddress::V6(bits) => *bits == 1,
        }
    }
}

/// The global settings of every module.
#[derive(Clone, Copy, Debug, PartialEq, Eq, Structural)]
pub struct ModuleConfigs {
    pub icmp: IcmpModuleConfig,
    pub usage: UsageModuleConfig,
}

impl ModuleConfigs {
    /// Every module with its documented defaults.
    pub fn default_configs() -> (r: ModuleConfigs)
        ensures
            r == default_module_configs(),
    {
        ModuleConfigs { icmp: IcmpModuleConfig::default_config(), usage: UsageModuleConfig::default_config() }
    }
}

/// The module settings before any `[modules.*]` table applies.
pub open spec fn default_module_configs() -> ModuleConfigs {
    ModuleConfigs {
        icmp: IcmpModuleConfig {
            enabled: true,
            backend: BackendKind::Auto,
            interval: 30_000_000_000,
            timeout: 1_000_000_000,
            concurrency: 128,
            failure_threshold: 2,
            success_threshold: 1,
        },
        usage: UsageModuleConfig {
            enabled: false,
            interval: 300_000_000_000,
            timeout: 5_000_000_000,
            concurrency: 32,
            ssh_verify_host_key: true,
            sample_retention: 2_592_000_000_000_000,
            linux_min_uid: 1000,
            macos_min_uid: 500,
        },
    }
}

/// `[group_settings.<group>.modules.usage]`.
#[derive(Clone, Copy, Debug, PartialEq, Eq, Structural)]
pub struct UsageGroupConfig {
    pub ssh_verify_host_key: Option<bool>,
}

/// A module table of the TOML document, read against each schema a module
/// table can have; each field holds the value or the loader's error text.
/// Which schema applies depends on where the table stands and under which
/// module id, which validation decides.
#[derive(Debug)]
pub struct ModuleScope {
    pub as_icmp: Result<IcmpModuleConfig, String>,
    pub as_usage: Result<UsageModuleConfig, String>,
    pub as_icmp_host: Result<IcmpHostConfig, String>,
    pub as_usage_host: Result<UsageHostConfig, String>,
    pub as_usage_group: Result<UsageGroupConfig, String>,
}

/// A `[[hosts]]` entry as written.
#[derive(Debug)]
pub struct RawHost {
    pub id: String,
    pub address: String,
    pub name: Option<String>,
    pub groups: Vec<String>,
    pub metadata: Vec<(String, MetadataValue)>,
    pub modules: Vec<(String, ModuleScope)>,
}

/// A `[group_settings.<group>]` table as written.
#[derive(Debug)]
pub struct RawGroupSettings {
    pub modules: Vec<(String, ModuleScope)>,
}

/// The configuration document as written, before validation. Tables keyed
/// by name are (name, value) lists with distinct names.
pub struct RawConfig {
    pub bind: BindAddress,
    pub database_path: String,
    pub api_workers: Option<usize>,
    pub modules: Vec<(String, ModuleScope)>,
    pub api_token: Option<ApiToken>,
    pub allow_unauthenticated_non_loopback: bool,
    pub groups: Vec<(String, Vec<String>)>,
    pub group_settings: Vec<(String, RawGroupSettings)>,
    pub hosts: Vec<RawHost>,
}

/// The validated configuration.
#[derive(Clone)]
pub struct AppConfig {
    pub bind: BindAddress,
    pub database_path: String,
    pub api_workers: Option<usize>,
    pub modules: ModuleConfigs,
    pub api_token: Option<ApiToken>,
    pub allow_unauthenticated_non_loopback: bool,
    pub hosts: Vec<Host>,
}

/// Why a configuration was not loaded.
#[derive(Debug)]
pub enum ConfigError {
    Read { path: String, source: String },
    Parse { path: String, source: String },
    Invalid(String),
}

/// The bind address used when the document names none: 127.0.0.1:3000.
pub fn default_bind() -> (r: BindAddress)
    ensures
        r.ip == IpAddress::V4(0x7f00_0001),
        r.port == 3000,
        r.flowinfo == 0,
        r.scope_id == 0,
{
    BindAddress { ip: IpAddress::V4(0x7f00_0001), port: 3000, flowinfo: 0, scope_id: 0 }
}

/// The database file used when the document names none.
pub fn default_database_path() -> (r: String)
    ensures
        r@ == "./network-monitor.sqlite3"@,
{
    "./network-monitor.sqlite3".to_owned()
}

impl ConfigError {
    /// The error as the program reports it.
    pub fn message(&self) -> (r: String)
        ensures
            match self {
                ConfigError::Read { path, source } => r@ == "failed to read config "@ + path@ + ": "@ + source@,
                ConfigError::Parse { path, source } => r@ == "failed to parse config "@ + path@ + ": "@
                    + source@,
                ConfigError::Invalid(m) => r@ == "invalid config: "@ + m@,
            },
    {
        match self {
            ConfigError::Read { path, source } => {
                let mut r = concat3("failed to read config ", path.as_str(), ": ");
                r.append(source.as_str());
                r
            },
            ConfigError::Parse { path, source } => {
                let mut r = concat3("failed to parse config ", path.as_str(), ": ");
                r.append(source.as_str());
                r
            },
            ConfigError::Invalid(m) => concat2("invalid config: ", m.as_str()),
        }
    }
}

} // verus!
