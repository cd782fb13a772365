//! Monitor modules: the catalog of what each module is, which settings it
//! documents, and whether it is switched on.
pub mod icmp;
pub mod usage;

use crate::config::{AppConfig, ModuleConfigs};
use crate::domain::host::Host;
use crate::app::filters::FilterKeyMetadata;
use vstd::prelude::*;

verus! {

/// What `GET /v1/modules` says of a module.
#[derive(Clone, Copy, Debug)]
pub struct ModuleMetadata {
    pub id: &'static str,
    pub name: &'static str,
    pub description: &'static str,
    pub enabled_by_default: bool,
}

/// One documented configuration key of a module.
#[derive(Clone, Copy, Debug)]
pub struct ConfigOptionDoc {
    pub key: &'static str,
    pub value_type: &'static str,
    pub default_value: &'static str,
    pub description: &'static str,
}

/// The monitor modules, in registry order.
#[derive(Clone, Copy, Debug, PartialEq, Eq, Structural)]
pub enum ModuleKind {
    Icmp,
    Usage,
}

/// The registered modules in the order the catalog lists them.
pub fn registry() -> (r: Vec<ModuleKind>)
    ensures
        r@ == seq![ModuleKind::Icmp, ModuleKind::Usage],
{
    let mut v: Vec<ModuleKind> = Vec::new();
    v.push(ModuleKind::Icmp);
    v.push(ModuleKind::Usage);
    v
}

/// The id of each module.
pub open spec fn module_id(kind: ModuleKind) -> Seq<char> {
    match kind {
        ModuleKind::Icmp => "icmp"@,
        ModuleKind::Usage => "usage"@,
    }
}

/// A configuration option's documentation as texts: key, value type,
/// default and description.
pub open spec fn option_doc(d: ConfigOptionDoc) -> (Seq<char>, Seq<char>, Seq<char>, Seq<char>) {
    (d.key@, d.value_type@, d.default_value@, d.description@)
}

/// The documentation texts of a list of configuration options.
pub open spec fn option_docs(ds: Seq<ConfigOptionDoc>) -> Seq<(Seq<char>, Seq<char>, Seq<char>, Seq<char>)> {
    ds.map_values(|d: ConfigOptionDoc| option_doc(d))
}

/// The configuration options each module documents, in order.
pub open spec fn module_option_docs(kind: ModuleKind) -> Seq<(Seq<char>, Seq<char>, Seq<char>, Seq<char>)> {
    match kind {
        ModuleKind::Icmp => seq![
            ("enabled"@, "boolean"@, "true"@, "whether ICMP monitoring is enabled globally"@),
            ("backend"@, "enum"@, "auto"@, "ping backend: auto, raw, or system"@),
            ("interval"@, "duration"@, "30s"@, "default host polling interval"@),
            ("timeout"@, "duration"@, "1s"@, "default ping timeout"@),
            ("concurrency"@, "integer"@, "128"@, "maximum concurrent ping checks"@),
            ("failure_threshold"@, "integer"@, "2"@, "failed checks required before a host is down"@),
            ("success_threshold"@, "integer"@, "1"@, "successful checks required before a host is up"@),
        ],
        ModuleKind::Usage => seq![
            ("enabled"@, "boolean"@, "false"@, "whether usage collection is enabled globally"@),
            ("interval"@, "duration"@, "5m"@, "default host collection interval"@),
            ("timeout"@, "duration"@, "5s"@, "SSH command timeout"@),
            ("concurrency"@, "integer"@, "32"@, "maximum concurrent usage collections"@),
            ("ssh_verify_host_key"@, "boolean"@, "true"@, "whether SSH host keys must verify"@),
            ("sample_retention"@, "duration"@, "30d"@, "how long per-poll usage samples are retained"@),
            ("linux_min_uid"@, "integer"@, "1000"@, "minimum Linux UID counted as an interactive user"@),
            ("macos_min_uid"@, "integer"@, "500"@, "minimum macOS UID counted as an interactive user"@),
        ],
    }
}

/// The name each module is listed under.
pub open spec fn module_name(kind: ModuleKind) -> Seq<char> {
    match kind {
        ModuleKind::Icmp => "ICMP reachability"@,
        ModuleKind::Usage => "Console usage"@,
    }
}

/// What each module does, as the catalog says it.
pub open spec fn module_description(kind: ModuleKind) -> Seq<char> {
    match kind {
        ModuleKind::Icmp => "Polls hosts with ping and records status transitions."@,
        ModuleKind::Usage => "Collects console and remote user counts over SSH."@,
    }
}

/// Whether a module is on when the configuration does not say.
pub open spec fn module_enabled_by_default(kind: ModuleKind) -> bool {
    kind == ModuleKind::Icmp
}

/// A filter key's documentation as texts: value type, example values and
/// description.
pub open spec fn filter_doc(m: FilterKeyMetadata) -> (Seq<char>, Seq<Seq<char>>, Seq<char>) {
    (m.value_type@, m.values@.map_values(|v: &'static str| v@), m.description@)
}

/// The documentation texts of (key, filter documentation) entries.
pub open spec fn filter_docs(entries: Seq<(Seq<char>, FilterKeyMetadata)>) -> Seq<
    (Seq<char>, (Seq<char>, Seq<Seq<char>>, Seq<char>)),
> {
    entries.map_values(|p: (Seq<char>, FilterKeyMetadata)| (p.0, filter_doc(p.1)))
}

/// The filter keys each module documents with their documentation, in the
/// order it lists them.
pub open spec fn module_filter_docs(kind: ModuleKind) -> Seq<(Seq<char>, (Seq<char>, Seq<Seq<char>>, Seq<char>))> {
    match kind {
        ModuleKind::Icmp => seq![("status"@, ("enum"@, seq!["unknown"@, "up"@, "down"@], "host ICMP status"@))],
        ModuleKind::Usage => seq![
            ("status"@, ("enum"@, seq!["ok"@, "error"@], "latest usage collection status"@)),
            (
                "inactive_console_for"@,
                ("duration"@, seq!["24h"@, "7days"@], "no console users during the duration window"@),
            ),
            (
                "no_users_for"@,
                ("duration"@, seq!["24h"@, "7days"@], "no console or remote users during the duration window"@),
            ),
        ],
    }
}

/// The filter keys each module documents, in the order it lists them.
pub open spec fn module_filter_keys(kind: ModuleKind) -> Seq<Seq<char>> {
    match kind {
        ModuleKind::Icmp => seq!["status"@],
        ModuleKind::Usage => seq!["status"@, "inactive_console_for"@, "no_users_for"@],
    }
}

impl ModuleKind {
    pub fn metadata(&self) -> (r: ModuleMetadata)
        ensures
            r.id@ == module_id(*self),
            r.name@ == module_name(*self),
            r.description@ == module_description(*self),
            r.enabled_by_default == module_enabled_by_default(*self),
    {
        match self {
            ModuleKind::Icmp => icmp::metadata(),
            ModuleKind::Usage => usage::metadata(),
        }
    }

    pub fn filter_specs(&self) -> (r: Vec<(&'static str, crate::app::filters::FilterKeyMetadata)>)
        ensures
            crate::sorted::keys_of(crate::sorted::entry_views(r@)) == module_filter_keys(*self),
            filter_docs(crate::sorted::entry_views(r@)) == module_filter_docs(*self),
    {
        match self {
            ModuleKind::Icmp => icmp::filter_specs(),
            ModuleKind::Usage => usage::filter_specs(),
        }
    }

    /// The documented options of the module's settings table, in order.
    pub fn config_options(&self) -> (r: Vec<ConfigOptionDoc>)
        ensures
            option_docs(r@) == module_option_docs(*self),
    {
        match self {
            ModuleKind::Icmp => icmp::config_options(),
            ModuleKind::Usage => usage::config_options(),
        }
    }
}

/// Whether the module is switched on globally.
pub open spec fn module_globally_enabled(kind: ModuleKind, m: ModuleConfigs) -> bool {
    match kind {
        ModuleKind::Icmp => m.icmp.enabled,
        ModuleKind::Usage => m.usage.enabled,
    }
}

/// Whether the module is switched on for the host.
pub open spec fn module_enabled_for(kind: ModuleKind, h: Host) -> bool {
    match kind {
        ModuleKind::Icmp => h.modules.icmp.enabled,
        ModuleKind::Usage => h.modules.usage.enabled,
    }
}

/// Whether some host has the module switched on.
pub open spec fn module_has_enabled_host(kind: ModuleKind, hosts: Seq<Host>) -> bool {
    exists|i: int| 0 <= i < hosts.len() && module_enabled_for(kind, #[trigger] hosts[i])
}

impl ModuleKind {
    /// Whether the module is switched on globally.
    pub fn globally_enabled(&self, config: &AppConfig) -> (r: bool)
        ensures
            r == module_globally_enabled(*self, config.modules),
    {
        match self {
            ModuleKind::Icmp => config.modules.icmp.enabled,
            ModuleKind::Usage => config.modules.usage.enabled,
        }
    }

    /// Whether the module is switched on for the host.
    pub fn enabled_for(&self, host: &Host) -> (r: bool)
        ensures
            r == module_enabled_for(*self, *host),
    {
        match self {
            ModuleKind::Icmp => host.modules.icmp.enabled,
            ModuleKind::Usage => host.modules.usage.enabled,
        }
    }

    /// Whether some host has the module switched on.
    pub fn has_enabled_hosts(&self, config: &AppConfig) -> (r: bool)
        ensures
            r == module_has_enabled_host(*self, config.hosts@),
    {
        let mut i: usize = 0;
        while i < config.hosts.len()
            invariant
                0 <= i <= config.hosts@.len(),
                forall|j: int| 0 <= j < i ==> !module_enabled_for(*self, #[trigger] config.hosts@[j]),
            decreases config.hosts.len() - i,
        {
            if self.enabled_for(&config.hosts[i]) {
                return true;
            }
            i += 1;
        }
        false
    }

    /// Whether the module's monitor runs: the module is on globally and for
    /// at least one host.
    pub fn runs_monitor(&self, config: &AppConfig) -> (r: bool)
        ensures
            r == (module_globally_enabled(*self, config.modules) && module_has_enabled_host(
                *self,
                config.hosts@,
            )),
    {
        self.globally_enabled(config) && self.has_enabled_hosts(config)
    }

    /// The positions of the hosts the module's monitor watches, in order.
    pub fn monitored_hosts(&self, config: &AppConfig) -> (r: Vec<usize>)
        ensures
            forall|k: int| 0 <= k < r@.len() ==> #[trigger] r@[k] < config.hosts@.len() && module_enabled_for(
                *self,
                config.hosts@[r@[k] as int],
            ),
            forall|k: int, l: int| 0 <= k < l < r@.len() ==> #[trigger] r@[k] < #[trigger] r@[l],
            forall|j: int|
                0 <= j < config.hosts@.len() && module_enabled_for(*self, #[trigger] config.hosts@[j])
                    ==> exists|k: int| 0 <= k < r@.len() && r@[k] == j,
    {
        let mut r: Vec<usize> = Vec::new();
        let mut i: usize = 0;
        while i < config.hosts.len()
            invariant
                0 <= i <= config.hosts@.len(),
                forall|k: int| 0 <= k < r@.len() ==> #[trigger] r@[k] < i && module_enabled_for(
                    *self,
                    config.hosts@[r@[k] as int],
                ),
                forall|k: int, l: int| 0 <= k < l < r@.len() ==> #[trigger] r@[k] < #[trigger] r@[l],
                forall|j: int|
                    0 <= j < i && module_enabled_for(*self, #[trigger] config.hosts@[j]) ==> exists|k: int|
                        0 <= k < r@.len() && r@[k] == j,
            decreases config.hosts.len() - i,
        {
            let ghost before = r@;
            if self.enabled_for(&config.hosts[i]) {
                r.push(i);
            }
            proof {
                assert forall|j: int|
                    0 <= j < i + 1 && module_enabled_for(*self, #[trigger] config.hosts@[j]) implies exists|k: int|
                    0 <= k < r@.len() && r@[k] == j by {
                    if j < i {
                        let k = choose|k: int| 0 <= k < before.len() && before[k] == j;
                        assert(r@[k] == j);
                    } else {
                        assert(r@[r@.len() - 1] == j);
                    }
                }
            }
            i += 1;
        }
        r
    }
}

/// The longest random delay, in milliseconds, before a monitor's first
/// check: a tenth of its interval (given in nanoseconds), at most two
/// seconds.
pub fn jitter_bound_millis(interval: u128) -> (r: u64)
    ensures
        r == (if interval / 1_000_000 / 10 < 2000 { interval / 1_000_000 / 10 } else { 2000 }),
{
    let tenth = interval / 1_000_000 / 10;
    if tenth < 2000 {
        tenth as u64
    } else {
        2000
    }
}

} // verus!
