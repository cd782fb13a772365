//! Which hosts a filter keeps, and the usage summary.
use crate::domain::filters::{
    current_state_is_inactive, evaluate_inactivity, inactivity_cutoff, inactivity_verdict,
    window_out_of_range_text, ActivityPredicate, HostFilter, InactivityError, InactivityHistory, UsageFilter,
    MAX_WINDOW_NANOS,
};
use crate::domain::host::{metadata_scalar_text, HostRecord, MetadataValue};
use crate::domain::usage::{UsageCollectionStatus, UsageSnapshot, UsageSummary};
use crate::names::name_views;
use crate::storage::StorageError;
use crate::text::{concat2, str_eq};
use vstd::prelude::*;

verus! {

/// Whether a metadata value matches the expected text: strings by their
/// text, booleans and numbers by their JSON rendering; nothing else matches.
pub open spec fn metadata_matches(actual: MetadataValue, expected: Seq<char>) -> bool {
    metadata_scalar_text(actual) == Some(expected)
}

/// Compares a metadata value with the expected text.
pub fn metadata_value_matches(actual: &MetadataValue, expected: &str) -> (r: bool)
    ensures
        r == metadata_matches(*actual, expected@),
{
    match actual {
        MetadataValue::Text(value) => str_eq(value.as_str(), expected),
        MetadataValue::Number(value) => str_eq(value.as_str(), expected),
        MetadataValue::Bool(value) => {
            proof {
                reveal_strlit("true");
                reveal_strlit("false");
            }
            if *value {
                str_eq("true", expected)
            } else {
                str_eq("false", expected)
            }
        },
        _ => false,
    }
}

/// The value of the first metadata entry named `key`.
pub open spec fn metadata_get(entries: Seq<(String, MetadataValue)>, key: Seq<char>) -> Option<MetadataValue>
    decreases entries.len(),
{
    if entries.len() == 0 {
        None
    } else if entries[0].0@ == key {
        Some(entries[0].1)
    } else {
        metadata_get(entries.drop_first(), key)
    }
}

fn metadata_entry_matches(entries: &Vec<(String, MetadataValue)>, key: &str, expected: &str) -> (r: bool)
    ensures
        r == (metadata_get(entries@, key@) matches Some(actual) && metadata_matches(actual, expected@)),
{
    let ghost e = entries@;
    let mut k: usize = 0;
    assert(e.skip(0) =~= e);
    while k < entries.len()
        invariant
            0 <= k <= e.len(),
            e == entries@,
            metadata_get(e, key@) == metadata_get(e.skip(k as int), key@),
        decreases entries.len() - k,
    {
        assert(e.skip(k as int).drop_first() =~= e.skip(k + 1));
        if str_eq(entries[k].0.as_str(), key) {
            return metadata_value_matches(&entries[k].1, expected);
        }
        k += 1;
    }
    assert(e.skip(k as int).len() == 0);
    false
}

/// The parts of a host filter that the record alone decides: the ICMP
/// status, the group and every metadata field.
pub open spec fn record_matches_fields(record: HostRecord, filter: HostFilter) -> bool {
    &&& filter.icmp_status matches Some(s) ==> record.state.status == s
    &&& filter.group matches Some(g) ==> name_views(record.host.groups@).contains(g@)
    &&& forall|i: int|
        0 <= i < filter.metadata@.len() ==> (metadata_get(
            record.host.metadata@,
            (#[trigger] filter.metadata@[i]).0@,
        ) matches Some(actual) && metadata_matches(actual, filter.metadata@[i].1@))
}

fn group_listed(groups: &Vec<String>, group: &str) -> (r: bool)
    ensures
        r == name_views(groups@).contains(group@),
{
    let mut k: usize = 0;
    while k < groups.len()
        invariant
            0 <= k <= groups@.len(),
            forall|j: int| 0 <= j < k ==> #[trigger] groups@[j]@ != group@,
        decreases groups.len() - k,
    {
        if str_eq(groups[k].as_str(), group) {
            assert(name_views(groups@)[k as int] == group@);
            return true;
        }
        k += 1;
    }
    proof {
        if name_views(groups@).contains(group@) {
            let j = choose|j: int| 0 <= j < name_views(groups@).len() && name_views(groups@)[j] == group@;
            assert(groups@[j]@ == group@);
        }
    }
    false
}

fn record_fields_match(record: &HostRecord, filter: &HostFilter) -> (r: bool)
    ensures
        r == record_matches_fields(*record, *filter),
{
    if let Some(status) = filter.icmp_status {
        if record.state.status != status {
            return false;
        }
    }
    if let Some(group) = &filter.group {
        if !group_listed(&record.host.groups, group.as_str()) {
            return false;
        }
    }
    let mut i: usize = 0;
    while i < filter.metadata.len()
        invariant
            0 <= i <= filter.metadata@.len(),
            forall|j: int|
                0 <= j < i ==> (metadata_get(
                    record.host.metadata@,
                    (#[trigger] filter.metadata@[j]).0@,
                ) matches Some(actual) && metadata_matches(actual, filter.metadata@[j].1@)),
        decreases filter.metadata.len() - i,
    {
        if !metadata_entry_matches(&record.host.metadata, filter.metadata[i].0.as_str(), filter.metadata[i].1.as_str()) {
            return false;
        }
        i += 1;
    }
    true
}

/// The error a failed inactivity evaluation is reported as.
pub fn map_inactivity_error(err: InactivityError<StorageError>) -> (r: StorageError)
    ensures
        match err {
            InactivityError::InvalidDuration(m) => r matches StorageError::InvalidData(d) && d@
                == "invalid inactivity duration: "@ + m@,
            InactivityError::Storage(e) => r == e,
        },
{
    match err {
        InactivityError::InvalidDuration(m) => StorageError::InvalidData(
            concat2("invalid inactivity duration: ", m.as_str()),
        ),
        InactivityError::Storage(e) => e,
    }
}

/// What a usage filter requires of a host's latest snapshot, as far as the
/// snapshot alone decides: the status, and no current activity of the kind
/// each inactivity filter names.
pub open spec fn snapshot_may_match(snapshot: UsageSnapshot, filter: UsageFilter) -> bool {
    &&& filter.status matches Some(s) ==> snapshot.status == s
    &&& filter.inactive_console_for is Some ==> current_state_is_inactive(ActivityPredicate::ConsoleOnly, snapshot)
    &&& filter.no_users_for is Some ==> current_state_is_inactive(ActivityPredicate::AnyUser, snapshot)
}

/// The usage filter's verdict on a snapshot, with the history's answers:
/// the status, then each inactivity filter by `inactivity_verdict`.
pub open spec fn usage_verdict<H: InactivityHistory>(snapshot: UsageSnapshot, filter: UsageFilter, history: H) -> bool {
    &&& filter.status matches Some(s) ==> snapshot.status == s
    &&& filter.inactive_console_for matches Some(d) ==> inactivity_verdict(
        ActivityPredicate::ConsoleOnly,
        snapshot,
        filter.now,
        d,
        history,
    )
    &&& filter.no_users_for matches Some(d) ==> inactivity_verdict(
        ActivityPredicate::AnyUser,
        snapshot,
        filter.now,
        d,
        history,
    )
}

/// Whether a usage filter asks anything.
pub open spec fn usage_filter_empty(filter: UsageFilter) -> bool {
    filter.status is None && filter.inactive_console_for is None && filter.no_users_for is None
}

/// The host filter's verdict on a record: its fields, then, when the usage
/// filter asks anything, the record's snapshot (none fails it).
pub open spec fn host_verdict<H: InactivityHistory>(record: HostRecord, filter: HostFilter, history: H) -> bool {
    &&& record_matches_fields(record, filter)
    &&& !usage_filter_empty(filter.usage) ==> (record.usage matches Some(s) && usage_verdict(s, filter.usage, history))
}

/// Whether the snapshot passes the status part of the usage filter.
pub open spec fn status_passes(snapshot: UsageSnapshot, filter: UsageFilter) -> bool {
    filter.status matches Some(s) ==> snapshot.status == s
}

/// An inactivity filter over `duration` reads the history: the snapshot
/// shows none of the counted users now, and the window is in range and
/// starts at a timestamp.
pub open spec fn window_reads_history(
    predicate: ActivityPredicate,
    snapshot: UsageSnapshot,
    now: i64,
    duration: u128,
) -> bool {
    &&& current_state_is_inactive(predicate, snapshot)
    &&& duration <= MAX_WINDOW_NANOS
    &&& inactivity_cutoff(now, duration) is Some
}

/// An inactivity filter over `duration` is refused: the snapshot shows none
/// of the counted users now, and the window is out of range.
pub open spec fn window_refused(predicate: ActivityPredicate, snapshot: UsageSnapshot, duration: u128) -> bool {
    current_state_is_inactive(predicate, snapshot) && duration > MAX_WINDOW_NANOS
}

/// The console filter lets the evaluation go on to `no_users_for`: it is
/// unset, or in range and the history's verdict is inactive.
pub open spec fn console_passes<H: InactivityHistory>(snapshot: UsageSnapshot, filter: UsageFilter, history: H) -> bool {
    match filter.inactive_console_for {
        None => true,
        Some(d) => d <= MAX_WINDOW_NANOS && inactivity_verdict(
            ActivityPredicate::ConsoleOnly,
            snapshot,
            filter.now,
            d,
            history,
        ),
    }
}

/// Where evaluating the usage filter can fail: once the status passes, an
/// inactivity filter that is reached and either reads the history or is
/// refused. Everywhere else the filter is decided without the history.
pub open spec fn usage_may_fail<H: InactivityHistory>(snapshot: UsageSnapshot, filter: UsageFilter, history: H) -> bool {
    let console = filter.inactive_console_for;
    let no_users = filter.no_users_for;
    &&& status_passes(snapshot, filter)
    &&& {
        ||| console is Some && (window_reads_history(ActivityPredicate::ConsoleOnly, snapshot, filter.now, console->0)
            || window_refused(ActivityPredicate::ConsoleOnly, snapshot, console->0))
        ||| console_passes(snapshot, filter, history) && no_users is Some && (window_reads_history(
            ActivityPredicate::AnyUser,
            snapshot,
            filter.now,
            no_users->0,
        ) || window_refused(ActivityPredicate::AnyUser, snapshot, no_users->0))
    }
}

/// The error a refused inactivity window is reported with.
pub open spec fn is_window_refusal(e: StorageError) -> bool {
    e matches StorageError::InvalidData(m) && m@ == "invalid inactivity duration: "@ + window_out_of_range_text()
}

/// What evaluating the usage filter on a snapshot answers, given the
/// history's answers: the verdict when it succeeds; an error only where
/// `usage_may_fail`; and the refusal error where a refused window is reached
/// before any history read.
pub open spec fn usage_filter_outcome<H: InactivityHistory>(
    r: Result<bool, StorageError>,
    snapshot: UsageSnapshot,
    filter: UsageFilter,
    history: H,
) -> bool {
    let console = filter.inactive_console_for;
    let no_users = filter.no_users_for;
    &&& r matches Ok(b) ==> b == usage_verdict(snapshot, filter, history)
    &&& r is Err ==> usage_may_fail(snapshot, filter, history)
    &&& (status_passes(snapshot, filter) && console is Some && window_refused(
        ActivityPredicate::ConsoleOnly,
        snapshot,
        console->0,
    )) ==> (r is Err && is_window_refusal(r->Err_0))
    &&& (status_passes(snapshot, filter) && console is None && no_users is Some && window_refused(
        ActivityPredicate::AnyUser,
        snapshot,
        no_users->0,
    )) ==> (r is Err && is_window_refusal(r->Err_0))
}

/// Whether a host's latest snapshot passes the usage filter; the inactivity
/// filters consult the host's usage history.
pub fn matches_usage_filter<H: InactivityHistory<Error = StorageError>>(
    snapshot: &UsageSnapshot,
    filter: &UsageFilter,
    history: &H,
) -> (r: Result<bool, StorageError>)
    ensures
        (filter.status matches Some(s) && snapshot.status != s) ==> r matches Ok(false),
        (filter.status is None || filter.status == Some(snapshot.status)) && filter.inactive_console_for is Some
            && !current_state_is_inactive(ActivityPredicate::ConsoleOnly, *snapshot) ==> r matches Ok(false),
        (filter.status is None || filter.status == Some(snapshot.status)) && filter.inactive_console_for is None
            && filter.no_users_for is Some && !current_state_is_inactive(ActivityPredicate::AnyUser, *snapshot)
            ==> r matches Ok(false),
        (filter.status is None || filter.status == Some(snapshot.status)) && (filter.inactive_console_for matches Some(
            d,
        ) && current_state_is_inactive(ActivityPredicate::ConsoleOnly, *snapshot) && d > MAX_WINDOW_NANOS) ==> (
        r matches Err(StorageError::InvalidData(m)) && m@ == "invalid inactivity duration: "@
            + window_out_of_range_text()),
        filter.status is None || filter.status == Some(snapshot.status) ==> (filter.inactive_console_for is None
            && filter.no_users_for is None ==> r matches Ok(true)),
        r matches Ok(true) ==> snapshot_may_match(*snapshot, *filter) && (filter.inactive_console_for matches Some(
            d,
        ) ==> inactivity_cutoff(filter.now, d) is Some) && (filter.no_users_for matches Some(d)
            ==> inactivity_cutoff(filter.now, d) is Some),
        r matches Ok(b) ==> b == usage_verdict(*snapshot, *filter, *history),
        r is Err ==> filter.inactive_console_for is Some || filter.no_users_for is Some,
        usage_filter_outcome(r, *snapshot, *filter, *history),
{
    if let Some(status) = filter.status {
        if snapshot.status != status {
            return Ok(false);
        }
    }
    if let Some(duration) = filter.inactive_console_for {
        match evaluate_inactivity(snapshot, duration, filter.now, ActivityPredicate::ConsoleOnly, history) {
            Ok(inactive) => {
                if !inactive {
                    return Ok(false);
                }
            },
            Err(e) => {
                return Err(map_inactivity_error(e));
            },
        }
    }
    if let Some(duration) = filter.no_users_for {
        match evaluate_inactivity(snapshot, duration, filter.now, ActivityPredicate::AnyUser, history) {
            Ok(inactive) => {
                if !inactive {
                    return Ok(false);
                }
            },
            Err(e) => {
                return Err(map_inactivity_error(e));
            },
        }
    }
    Ok(true)
}

/// Whether a host record passes the host filter: status, group and
/// metadata by the record, then, when the usage filter asks anything, the
/// host's latest snapshot (none fails it) by the usage filter.
pub fn matches_host_filter<H: InactivityHistory<Error = StorageError>>(
    record: &HostRecord,
    filter: &HostFilter,
    history: &H,
) -> (r: Result<bool, StorageError>)
    ensures
        !record_matches_fields(*record, *filter) ==> r matches Ok(false),
        record_matches_fields(*record, *filter) && filter.usage.status is None
            && filter.usage.inactive_console_for is None && filter.usage.no_users_for is None ==> r matches Ok(
            true,
        ),
        record_matches_fields(*record, *filter) && record.usage is None && !(filter.usage.status is None
            && filter.usage.inactive_console_for is None && filter.usage.no_users_for is None) ==> r matches Ok(
            false,
        ),
        r matches Ok(true) ==> record_matches_fields(*record, *filter) && (!(filter.usage.status is None
            && filter.usage.inactive_console_for is None && filter.usage.no_users_for is None)
            ==> (record.usage matches Some(s) && snapshot_may_match(s, filter.usage))),
        ({
            &&& record_matches_fields(*record, *filter)
            &&& record.usage is Some
            &&& filter.usage.status is Some
            &&& filter.usage.inactive_console_for is None
            &&& filter.usage.no_users_for is None
        }) ==> r == Ok::<bool, StorageError>(record.usage->0.status == filter.usage.status->0),
        r matches Ok(b) ==> b == host_verdict(*record, *filter, *history),
        r is Err ==> record_matches_fields(*record, *filter) && record.usage is Some && (
        filter.usage.inactive_console_for is Some || filter.usage.no_users_for is Some),
        record_matches_fields(*record, *filter) && record.usage is Some && !usage_filter_empty(filter.usage)
            ==> usage_filter_outcome(r, record.usage->0, filter.usage, *history),
{
    if !record_fields_match(record, filter) {
        return Ok(false);
    }
    if !filter.usage.is_empty() {
        match &record.usage {
            None => {
                return Ok(false);
            },
            Some(snapshot) => {
                return matches_usage_filter(snapshot, &filter.usage, history);
            },
        }
    }
    Ok(true)
}

/// The summary of a list of snapshots: how many there are, how many
/// failed, and the users the successful ones count (an absent count is 0).
pub open spec fn summary_of(s: Seq<UsageSnapshot>) -> (nat, nat, nat, nat)
    decreases s.len(),
{
    if s.len() == 0 {
        (0, 0, 0, 0)
    } else {
        let p = summary_of(s.drop_last());
        let x = s.last();
        let ok = x.status == UsageCollectionStatus::Okay;
        (
            p.0 + 1,
            p.1 + if ok { 0nat } else { 1nat },
            p.2 + if ok { match x.console_users { Some(c) => c as nat, None => 0nat } } else { 0nat },
            p.3 + if ok { match x.remote_users { Some(c) => c as nat, None => 0nat } } else { 0nat },
        )
    }
}

proof fn lemma_summary_prefix(s: Seq<UsageSnapshot>, n: int)
    requires
        0 <= n <= s.len(),
    ensures
        summary_of(s.take(n)).2 <= summary_of(s).2,
        summary_of(s.take(n)).3 <= summary_of(s).3,
        summary_of(s.take(n)).1 <= summary_of(s).1,
    decreases s.len() - n,
{
    if n < s.len() {
        lemma_summary_prefix(s, n + 1);
        assert(s.take(n + 1).drop_last() =~= s.take(n));
    } else {
        assert(s.take(n) =~= s);
    }
}

/// Sums up the snapshots; the user totals must fit their counters.
pub fn usage_summary(snapshots: &Vec<UsageSnapshot>) -> (r: UsageSummary)
    requires
        summary_of(snapshots@).2 <= u32::MAX,
        summary_of(snapshots@).3 <= u32::MAX,
    ensures
        r.hosts_reporting == summary_of(snapshots@).0,
        r.hosts_with_errors == summary_of(snapshots@).1,
        r.console_users == summary_of(snapshots@).2,
        r.remote_users == summary_of(snapshots@).3,
{
    let mut summary = UsageSummary { hosts_reporting: 0, hosts_with_errors: 0, console_users: 0, remote_users: 0 };
    let mut i: usize = 0;
    assert(snapshots@.take(0) =~= Seq::<UsageSnapshot>::empty());
    while i < snapshots.len()
        invariant
            0 <= i <= snapshots@.len(),
            summary_of(snapshots@).2 <= u32::MAX,
            summary_of(snapshots@).3 <= u32::MAX,
            summary.hosts_reporting == summary_of(snapshots@.take(i as int)).0,
            summary.hosts_with_errors == summary_of(snapshots@.take(i as int)).1,
            summary.console_users == summary_of(snapshots@.take(i as int)).2,
            summary.remote_users == summary_of(snapshots@.take(i as int)).3,
            summary_of(snapshots@.take(i as int)).0 == i,
            summary.hosts_with_errors <= i,
        decreases snapshots.len() - i,
    {
        proof {
            assert(snapshots@.take(i + 1).drop_last() =~= snapshots@.take(i as int));
            lemma_summary_prefix(snapshots@, i + 1);
        }
        let snapshot = &snapshots[i];
        summary.hosts_reporting += 1;
        match snapshot.status {
            UsageCollectionStatus::Okay => {
                summary.console_users += match snapshot.console_users { Some(c) => c, None => 0 };
                summary.remote_users += match snapshot.remote_users { Some(c) => c, None => 0 };
            },
            UsageCollectionStatus::Failed => {
                summary.hosts_with_errors += 1;
            },
        }
        i += 1;
    }
    assert(snapshots@.take(i as int) =~= snapshots@);
    summary
}

/// The SQL condition that counts as activity for a predicate.
pub fn activity_sql(predicate: ActivityPredicate) -> (r: &'static str)
    ensures
        r@ == match predicate {
            ActivityPredicate::ConsoleOnly => "console_users > 0"@,
            ActivityPredicate::AnyUser => "console_users > 0 OR remote_users > 0"@,
        },
{
    match predicate {
        ActivityPredicate::ConsoleOnly => "console_users > 0",
        ActivityPredicate::AnyUser => "console_users > 0 OR remote_users > 0",
    }
}

/// The two tables usage rows are written to.
#[derive(Clone, Copy, Debug, PartialEq, Eq, Structural)]
pub enum UsageTable {
    History,
    Samples,
}

impl UsageTable {
    /// The table's name.
    pub fn name(self) -> (r: &'static str)
        ensures
            r@ == match self {
                UsageTable::History => "usage_history"@,
                UsageTable::Samples => "usage_samples"@,
            },
    {
        match self {
            UsageTable::History => "usage_history",
            UsageTable::Samples => "usage_samples",
        }
    }
}

/// Only scalar metadata can match a query value: null, arrays and objects
/// never do.
pub proof fn lemma_structured_metadata_never_matches(actual: MetadataValue, expected: Seq<char>)
    requires
        actual is Null || actual is Array || actual is Object,
    ensures
        !metadata_matches(actual, expected),
{
}

/// A boolean metadata value matches exactly its JSON text: `true` matches
/// the text `true` and nothing else, `false` the text `false` and nothing
/// else. A string or a number matches exactly its own text.
pub proof fn lemma_bool_metadata_matches(b: bool, t: Seq<char>, text: String)
    ensures
        metadata_matches(MetadataValue::Text(text), t) <==> t == text@,
        metadata_matches(MetadataValue::Number(text), t) <==> t == text@,
        metadata_matches(MetadataValue::Bool(b), seq!['t', 'r', 'u', 'e']) == b,
        metadata_matches(MetadataValue::Bool(b), seq!['f', 'a', 'l', 's', 'e']) == !b,
        metadata_matches(MetadataValue::Bool(b), t) ==> t == seq!['t', 'r', 'u', 'e'] || t == seq![
            'f',
            'a',
            'l',
            's',
            'e',
        ],
{
    reveal_strlit("true");
    reveal_strlit("false");
    assert("true"@ =~= seq!['t', 'r', 'u', 'e']);
    assert("false"@ =~= seq!['f', 'a', 'l', 's', 'e']);
}

} // verus!
