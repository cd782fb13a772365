//! Console and remote user counts collected from hosts.
use crate::text::{concat2, quote, debug_quoted};
use vstd::prelude::*;

verus! {

/// Which operating system a host runs, for picking the login-counting rules.
#[derive(Clone, Copy, Debug, PartialEq, Eq, Structural)]
pub enum UsageOs {
    Auto,
    Linux,
    Macos,
}

/// Whether the latest collection succeeded.
#[derive(Clone, Copy, Debug, PartialEq, Eq, Structural)]
pub enum UsageCollectionStatus {
    Okay,
    Failed,
}

/// The name under which a collection status is stored and queried.
pub open spec fn usage_status_text(status: UsageCollectionStatus) -> Seq<char> {
    match status {
        UsageCollectionStatus::Okay => "ok"@,
        UsageCollectionStatus::Failed => "error"@,
    }
}

/// The message of a refused collection status name.
pub open spec fn invalid_usage_status_message(value: Seq<char>) -> Seq<char> {
    "invalid usage collection status "@ + debug_quoted(value)
}

impl UsageCollectionStatus {
    pub fn as_str(&self) -> (r: &'static str)
        ensures
            r@ == usage_status_text(*self),
    {
        match self {
            UsageCollectionStatus::Okay => "ok",
            UsageCollectionStatus::Failed => "error",
        }
    }

    /// Parses a stored or queried status name (`ok` or `error`).
    pub fn try_from_str(value: &str) -> (r: Result<UsageCollectionStatus, String>)
        ensures
            match r {
                Ok(status) => usage_status_text(status) == value@,
                Err(message) => message@ == invalid_usage_status_message(value@)
                    && (forall|s: UsageCollectionStatus| usage_status_text(s) != value@),
            },
    {
        if crate::text::str_eq(value, "ok") {
            Ok(UsageCollectionStatus::Okay)
        } else if crate::text::str_eq(value, "error") {
            Ok(UsageCollectionStatus::Failed)
        } else {
            let q = quote(value);
            Err(concat2("invalid usage collection status ", q.as_str()))
        }
    }
}

/// The view of an optional string.
pub open spec fn opt_text(value: Option<String>) -> Option<Seq<char>> {
    match value {
        Some(s) => Some(s@),
        None => None,
    }
}

/// Equality of two optional strings by their text.
pub fn opt_text_eq(a: &Option<String>, b: &Option<String>) -> (r: bool)
    ensures
        r == (opt_text(*a) == opt_text(*b)),
{
    match (a, b) {
        (Some(x), Some(y)) => crate::text::str_eq(x.as_str(), y.as_str()),
        (None, None) => true,
        _ => false,
    }
}

/// One usage observation of a host. `collected_at` is in nanoseconds since
/// the Unix epoch.
#[derive(Clone, Debug)]
pub struct UsageSnapshot {
    pub collected_at: i64,
    pub console_users: Option<u32>,
    pub remote_users: Option<u32>,
    pub status: UsageCollectionStatus,
    pub error: Option<String>,
}

/// Two observations differ for the change history when status, counts or
/// error text differ; the collection time does not count.
pub open spec fn differs_for_history(current: UsageSnapshot, previous: UsageSnapshot) -> bool {
    ||| current.status != previous.status
    ||| current.console_users != previous.console_users
    ||| current.remote_users != previous.remote_users
    ||| opt_text(current.error) != opt_text(previous.error)
}

impl UsageSnapshot {
    pub fn success(collected_at: i64, console_users: u32, remote_users: u32) -> (r: UsageSnapshot)
        ensures
            r.collected_at == collected_at,
            r.console_users == Some(console_users),
            r.remote_users == Some(remote_users),
            r.status == UsageCollectionStatus::Okay,
            r.error.is_none(),
    {
        UsageSnapshot {
            collected_at,
            console_users: Some(console_users),
            remote_users: Some(remote_users),
            status: UsageCollectionStatus::Okay,
            error: None,
        }
    }

    pub fn error(collected_at: i64, error: String) -> (r: UsageSnapshot)
        ensures
            r.collected_at == collected_at,
            r.console_users.is_none(),
            r.remote_users.is_none(),
            r.status == UsageCollectionStatus::Failed,
            opt_text(r.error) == Some(error@),
    {
        UsageSnapshot {
            collected_at,
            console_users: None,
            remote_users: None,
            status: UsageCollectionStatus::Failed,
            error: Some(error),
        }
    }

    /// A copy of the snapshot.
    pub fn copy(&self) -> (r: UsageSnapshot)
        ensures
            r.collected_at == self.collected_at,
            r.console_users == self.console_users,
            r.remote_users == self.remote_users,
            r.status == self.status,
            opt_text(r.error) == opt_text(self.error),
    {
        UsageSnapshot {
            collected_at: self.collected_at,
            console_users: self.console_users,
            remote_users: self.remote_users,
            status: self.status,
            error: match &self.error {
                Some(e) => Some(crate::text::owned(e.as_str())),
                None => None,
            },
        }
    }

    pub fn differs_for_history(&self, previous: &UsageSnapshot) -> (r: bool)
        ensures
            r == differs_for_history(*self, *previous),
    {
        self.status != previous.status || self.console_users != previous.console_users
            || self.remote_users != previous.remote_users || !opt_text_eq(&self.error, &previous.error)
    }
}

/// A recorded usage observation: the same shape serves the per-poll samples
/// and the on-change history.
#[derive(Clone, Debug)]
pub struct UsageEvent {
    pub id: Option<i64>,
    pub host_id: String,
    pub collected_at: i64,
    pub console_users: Option<u32>,
    pub remote_users: Option<u32>,
    pub status: UsageCollectionStatus,
    pub error: Option<String>,
}

/// A per-poll observation.
pub type UsageSample = UsageEvent;

/// An observation recorded because it differed from the previous one.
pub type UsageHistory = UsageEvent;

/// Aggregate over the hosts of a usage report.
#[derive(Clone, Copy, Debug, PartialEq, Eq, Structural)]
pub struct UsageSummary {
    pub hosts_reporting: usize,
    pub hosts_with_errors: usize,
    pub console_users: u32,
    pub remote_users: u32,
}

/// A host's identity and its latest usage snapshot.
#[derive(Clone, Debug)]
pub struct HostUsage {
    pub id: String,
    pub address: String,
    pub name: String,
    pub groups: Vec<String>,
    pub usage: UsageSnapshot,
}

/// The usage report: a summary and the hosts it covers.
#[derive(Clone, Debug)]
pub struct UsageReport {
    pub summary: UsageSummary,
    pub hosts: Vec<HostUsage>,
}

/// The same observation with another remote user count.
pub open spec fn with_remote_users(s: UsageSnapshot, remote: Option<u32>) -> UsageSnapshot {
    UsageSnapshot { remote_users: remote, ..s }
}

/// Whether the history counts a change is decided by the observation alone:
/// a snapshot never differs from itself, the relation is symmetric, and a
/// new collection time alone is no change; while a change of the status,
/// of either user count or of the error text on its own is always one.
pub proof fn lemma_history_change_fields(s: UsageSnapshot, t: UsageSnapshot)
    ensures
        !differs_for_history(s, s),
        differs_for_history(s, t) == differs_for_history(t, s),
        !differs_for_history(UsageSnapshot { collected_at: t.collected_at, ..s }, s),
        s.status != t.status ==> differs_for_history(UsageSnapshot { status: t.status, ..s }, s),
        s.console_users != t.console_users ==> differs_for_history(
            UsageSnapshot { console_users: t.console_users, ..s },
            s,
        ),
        s.remote_users != t.remote_users ==> differs_for_history(with_remote_users(s, t.remote_users), s),
        opt_text(s.error) != opt_text(t.error) ==> differs_for_history(UsageSnapshot { error: t.error, ..s }, s),
        s.status == t.status && s.console_users == t.console_users && s.remote_users == t.remote_users && opt_text(
            s.error,
        ) == opt_text(t.error) ==> !differs_for_history(s, t),
{
}

} // verus!
