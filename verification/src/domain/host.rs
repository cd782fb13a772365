//! Configured hosts and their runtime ICMP state.
use crate::domain::icmp::HostStatus;
use crate::domain::usage::{opt_text, UsageSnapshot};
use crate::names::name_views;
use crate::storage::records::copy_names;
use crate::text::owned;
use crate::modules::icmp::ResolvedIcmpHostConfig;
use crate::modules::usage::ResolvedUsageHostConfig;
use vstd::prelude::*;

verus! {

/// A JSON value of host metadata. Numbers are kept in the text form the JSON
/// document gave them.
#[derive(Debug)]
pub enum MetadataValue {
    Null,
    Bool(bool),
    Number(String),
    Text(String),
    Array(Vec<MetadataValue>),
    /// A JSON object as its keys and the values at the same positions.
    Object(Vec<String>, Vec<MetadataValue>),
}


/// A deep copy of a metadata value.
pub fn copy_metadata_value(value: &MetadataValue) -> (r: MetadataValue)
    ensures
        metadata_scalar_text(r) == metadata_scalar_text(*value),
    decreases value,
{
    match value {
        MetadataValue::Null => MetadataValue::Null,
        MetadataValue::Bool(b) => MetadataValue::Bool(*b),
        MetadataValue::Number(n) => MetadataValue::Number(n.clone()),
        MetadataValue::Text(t) => MetadataValue::Text(t.clone()),
        MetadataValue::Array(items) => {
            let mut copied: Vec<MetadataValue> = Vec::new();
            let mut i: usize = 0;
            while i < items.len()
                invariant
                    i <= items@.len(),
                    *value == MetadataValue::Array(*items),
                decreases items@.len() - i,
            {
                proof {
                    assert(decreases_to!(*value => (*value)->Array_0));
                    assert(decreases_to!(items => items@));
                    assert(decreases_to!(items@ => items@[i as int]));
                }
                copied.push(copy_metadata_value(&items[i]));
                i = i + 1;
            }
            MetadataValue::Array(copied)
        },
        MetadataValue::Object(keys, values) => {
            let mut copied: Vec<MetadataValue> = Vec::new();
            let mut i: usize = 0;
            while i < values.len()
                invariant
                    i <= values@.len(),
                    *value == MetadataValue::Object(*keys, *values),
                decreases values@.len() - i,
            {
                proof {
                    assert(decreases_to!(*value => (*value)->Object_1));
                    assert(decreases_to!(values => values@));
                    assert(decreases_to!(values@ => values@[i as int]));
                }
                copied.push(copy_metadata_value(&values[i]));
                i = i + 1;
            }
            MetadataValue::Object(keys.clone(), copied)
        },
    }
}

impl Clone for MetadataValue {
    fn clone(&self) -> (r: Self)
        ensures
            metadata_scalar_text(r) == metadata_scalar_text(*self),
    {
        copy_metadata_value(self)
    }
}

/// The text a scalar metadata value is compared by; arrays, objects and null
/// compare by nothing.
pub open spec fn metadata_scalar_text(value: MetadataValue) -> Option<Seq<char>> {
    match value {
        MetadataValue::Text(s) => Some(s@),
        MetadataValue::Bool(b) => Some(if b { "true"@ } else { "false"@ }),
        MetadataValue::Number(n) => Some(n@),
        _ => None,
    }
}

/// The module settings resolved for one host.
#[derive(Clone, Copy, Debug, PartialEq, Eq, Structural)]
pub struct HostModuleConfig {
    pub icmp: ResolvedIcmpHostConfig,
    pub usage: ResolvedUsageHostConfig,
}

impl HostModuleConfig {
    pub fn default_config() -> (r: HostModuleConfig)
        ensures
            r.icmp.enabled,
            r.icmp.interval == 30_000_000_000,
            r.icmp.timeout == 1_000_000_000,
            !r.usage.enabled,
            r.usage.os == crate::domain::usage::UsageOs::Auto,
            r.usage.ssh_verify_host_key,
            r.usage.interval == 300_000_000_000,
            r.usage.timeout == 5_000_000_000,
            r.usage.linux_min_uid == 1000,
            r.usage.macos_min_uid == 500,
    {
        HostModuleConfig {
            icmp: ResolvedIcmpHostConfig::default_config(),
            usage: ResolvedUsageHostConfig::default_config(),
        }
    }
}

/// A monitored host as configured.
#[derive(Clone, Debug)]
pub struct Host {
    pub id: String,
    pub address: String,
    pub name: String,
    pub groups: Vec<String>,
    pub metadata: Vec<(String, MetadataValue)>,
    pub modules: HostModuleConfig,
}

/// The ICMP state the monitor keeps for a host. Times are nanoseconds since
/// the Unix epoch; the latency is in nanoseconds.
#[derive(Clone, Debug)]
pub struct HostRuntimeState {
    pub status: HostStatus,
    pub last_checked_at: Option<i64>,
    pub last_change_at: Option<i64>,
    pub latency: Option<u128>,
    pub consecutive_successes: u32,
    pub consecutive_failures: u32,
    pub last_error: Option<String>,
}

impl HostRuntimeState {
    /// The state of a host that was never checked.
    pub fn default_state() -> (r: HostRuntimeState)
        ensures
            r.status == HostStatus::Unknown,
            r.last_checked_at.is_none(),
            r.last_change_at.is_none(),
            r.latency.is_none(),
            r.consecutive_successes == 0,
            r.consecutive_failures == 0,
            r.last_error.is_none(),
    {
        HostRuntimeState {
            status: HostStatus::Unknown,
            last_checked_at: None,
            last_change_at: None,
            latency: None,
            consecutive_successes: 0,
            consecutive_failures: 0,
            last_error: None,
        }
    }
}

/// A host with its latest ICMP state and latest usage snapshot.
#[derive(Clone, Debug)]
pub struct HostRecord {
    pub host: Host,
    pub state: HostRuntimeState,
    pub usage: Option<UsageSnapshot>,
}

impl HostRecord {
    pub fn new(host: Host, state: HostRuntimeState, usage: Option<UsageSnapshot>) -> (r: HostRecord)
        ensures
            r.host == host,
            r.state == state,
            r.usage == usage,
    {
        HostRecord { host, state, usage }
    }
}

/// What a record copied from a host and its state says of them: the same
/// id, address, name, groups and module settings; the same metadata keys in
/// order, each compared by the same text; the same ICMP state and error text.
pub open spec fn record_copies(r: HostRecord, host: Host, state: HostRuntimeState) -> bool {
    &&& r.host.id@ == host.id@
    &&& r.host.address@ == host.address@
    &&& r.host.name@ == host.name@
    &&& name_views(r.host.groups@) == name_views(host.groups@)
    &&& r.host.metadata@.len() == host.metadata@.len()
    &&& forall|i: int|
        0 <= i < host.metadata@.len() ==> (#[trigger] r.host.metadata@[i]).0@ == host.metadata@[i].0@
            && metadata_scalar_text(r.host.metadata@[i].1) == metadata_scalar_text(host.metadata@[i].1)
    &&& r.host.modules == host.modules
    &&& r.state.status == state.status
    &&& r.state.last_checked_at == state.last_checked_at
    &&& r.state.last_change_at == state.last_change_at
    &&& r.state.latency == state.latency
    &&& r.state.consecutive_successes == state.consecutive_successes
    &&& r.state.consecutive_failures == state.consecutive_failures
    &&& opt_text(r.state.last_error) == opt_text(state.last_error)
}

fn copy_metadata(entries: &Vec<(String, MetadataValue)>) -> (r: Vec<(String, MetadataValue)>)
    ensures
        r@.len() == entries@.len(),
        forall|i: int|
            0 <= i < entries@.len() ==> (#[trigger] r@[i]).0@ == entries@[i].0@ && metadata_scalar_text(r@[i].1)
                == metadata_scalar_text(entries@[i].1),
{
    let mut out: Vec<(String, MetadataValue)> = Vec::new();
    let mut i: usize = 0;
    while i < entries.len()
        invariant
            0 <= i <= entries@.len(),
            out@.len() == i,
            forall|k: int|
                0 <= k < i ==> (#[trigger] out@[k]).0@ == entries@[k].0@ && metadata_scalar_text(out@[k].1)
                    == metadata_scalar_text(entries@[k].1),
        decreases entries.len() - i,
    {
        out.push((owned(entries[i].0.as_str()), copy_metadata_value(&entries[i].1)));
        i = i + 1;
    }
    out
}

impl HostRuntimeState {
    /// The record of `host` in this state with its latest usage.
    pub fn to_record(&self, host: &Host, usage: Option<UsageSnapshot>) -> (r: HostRecord)
        ensures
            record_copies(r, *host, *self),
            r.usage == usage,
    {
        let copied = Host {
            id: owned(host.id.as_str()),
            address: owned(host.address.as_str()),
            name: owned(host.name.as_str()),
            groups: copy_names(&host.groups),
            metadata: copy_metadata(&host.metadata),
            modules: host.modules,
        };
        let last_error = match &self.last_error {
            Some(e) => Some(owned(e.as_str())),
            None => None,
        };
        let state = HostRuntimeState {
            status: self.status,
            last_checked_at: self.last_checked_at,
            last_change_at: self.last_change_at,
            latency: self.latency,
            consecutive_successes: self.consecutive_successes,
            consecutive_failures: self.consecutive_failures,
            last_error,
        };
        HostRecord::new(copied, state, usage)
    }
}

} // verus!
