//! ICMP reachability states and transition records.
use crate::text::{concat2, quote, debug_quoted};
use vstd::prelude::*;

verus! {

/// Reachability state of a host as decided by the ICMP monitor.
#[derive(Clone, Copy, Debug, PartialEq, Eq, Structural)]
pub enum HostStatus {
    Unknown,
    Up,
    Down,
}

/// The lowercase name under which a status is stored and queried.
pub open spec fn host_status_text(status: HostStatus) -> Seq<char> {
    match status {
        HostStatus::Unknown => "unknown"@,
        HostStatus::Up => "up"@,
        HostStatus::Down => "down"@,
    }
}

/// The message of a refused status name.
pub open spec fn invalid_host_status_message(value: Seq<char>) -> Seq<char> {
    "invalid host status "@ + debug_quoted(value)
}

impl HostStatus {
    pub fn as_str(&self) -> (r: &'static str)
        ensures
            r@ == host_status_text(*self),
    {
        match self {
            HostStatus::Unknown => "unknown",
            HostStatus::Up => "up",
            HostStatus::Down => "down",
        }
    }

    /// Parses a stored or queried status name; only the exact lowercase
    /// names are accepted.
    pub fn try_from_str(value: &str) -> (r: Result<HostStatus, String>)
        ensures
            match r {
                Ok(status) => host_status_text(status) == value@,
                Err(message) => message@ == invalid_host_status_message(value@)
                    && (forall|s: HostStatus| host_status_text(s) != value@),
            },
    {
        if crate::text::str_eq(value, "unknown") {
            Ok(HostStatus::Unknown)
        } else if crate::text::str_eq(value, "up") {
            Ok(HostStatus::Up)
        } else if crate::text::str_eq(value, "down") {
            Ok(HostStatus::Down)
        } else {
            let q = quote(value);
            Err(concat2("invalid host status ", q.as_str()))
        }
    }
}

/// An IP address by its numeric value (big-endian bits, as
/// `Ipv4Addr::to_bits` and `Ipv6Addr::to_bits` give them).
#[derive(Clone, Copy, Debug, PartialEq, Eq, Structural)]
pub enum IpAddress {
    V4(u32),
    V6(u128),
}

/// A successful probe: the address that answered and the round trip time
/// in nanoseconds.
#[derive(Clone, Debug)]
pub struct PingOutcome {
    pub address: Option<IpAddress>,
    pub latency: u128,
}

/// A failed probe and why it failed.
#[derive(Clone, Debug)]
pub struct CheckFailure {
    pub message: String,
}

/// A change of a host's ICMP status. Times are nanoseconds since the Unix
/// epoch; the latency, when known, is in nanoseconds.
#[derive(Clone, Debug)]
pub struct IcmpTransition {
    pub id: Option<i64>,
    pub host_id: String,
    pub previous_status: HostStatus,
    pub new_status: HostStatus,
    pub changed_at: i64,
    pub latency: Option<u128>,
    pub error: Option<String>,
    pub backend: String,
    pub reason: String,
}

} // verus!
