//! Listings in id order, usage reports, and stored rows read back into
//! domain values.
use crate::domain::host::{Host, HostRecord, HostRuntimeState};
use crate::domain::icmp::{host_status_text, invalid_host_status_message, HostStatus, IcmpTransition};
use crate::domain::usage::{
    invalid_usage_status_message, usage_status_text, HostUsage, UsageCollectionStatus, UsageEvent,
    UsageReport, UsageSnapshot,
};
use crate::names::name_views;
use crate::domain::filters::{InactivityHistory, UsageFilter};
use crate::domain::usage::opt_text;
use crate::storage::filtering::{
    matches_usage_filter, summary_of, usage_filter_outcome, usage_may_fail, usage_summary, usage_verdict,
};
use crate::storage::StorageError;
use crate::text::{lemma_lex_lt_total, lemma_lex_lt_transitive, lex_lt, owned, str_eq, str_lt};
use vstd::prelude::*;

verus! {

/// Something listed by a text id.
pub trait KeyedById {
    spec fn id_key(&self) -> Seq<char>;

    fn id_text(&self) -> (r: &str)
        ensures
            r@ == self.id_key(),
    ;
}

impl KeyedById for HostRecord {
    open spec fn id_key(&self) -> Seq<char> {
        self.host.id@
    }

    fn id_text(&self) -> (r: &str) {
        self.host.id.as_str()
    }
}

impl KeyedById for HostUsage {
    open spec fn id_key(&self) -> Seq<char> {
        self.id@
    }

    fn id_text(&self) -> (r: &str) {
        self.id.as_str()
    }
}

/// In id order: no item has a smaller id than one before it.
pub open spec fn sorted_by_id<T: KeyedById>(s: Seq<T>) -> bool {
    forall|i: int, j: int| 0 <= i < j < s.len() ==> !lex_lt(#[trigger] s[j].id_key(), #[trigger] s[i].id_key())
}

/// The items in id order, equal ids in their original order; the same
/// items as given.
pub fn sort_by_id<T: KeyedById>(items: Vec<T>) -> (r: Vec<T>)
    ensures
        sorted_by_id(r@),
        r@.to_multiset() == items@.to_multiset(),
{
    broadcast use vstd::seq_lib::group_to_multiset_ensures;

    let ghost all = items@;
    let mut out: Vec<T> = Vec::new();
    for item in it: items.into_iter()
        invariant
            it.seq() == all,
            sorted_by_id(out@),
            out@.to_multiset() == all.take(it.index() as int).to_multiset(),
    {
        let ghost idx = it.index();
        let mut k: usize = 0;
        while k < out.len() && !str_lt(item.id_text(), out[k].id_text())
            invariant
                0 <= k <= out@.len(),
                forall|a: int| 0 <= a < k ==> !lex_lt(item.id_key(), #[trigger] out@[a].id_key()),
            decreases out.len() - k,
        {
            k += 1;
        }
        let ghost before = out@;
        proof {
            vstd::seq_lib::to_multiset_insert(before, k as int, item);
            assert(all.take(idx + 1) =~= all.take(idx as int).push(item));
            all.take(idx as int).to_multiset_ensures();
        }
        out.insert(k, item);
        proof {
            assert(out@ =~= before.insert(k as int, item));
            if k < before.len() {
                lemma_lex_lt_total(item.id_key(), before[k as int].id_key());
            }
            assert forall|i: int, j: int| 0 <= i < j < out@.len() implies !lex_lt(
                #[trigger] out@[j].id_key(),
                #[trigger] out@[i].id_key(),
            ) by {
                if j < k {
                } else if j == k {
                    lemma_lex_lt_total(item.id_key(), before[i].id_key());
                } else if i < k {
                    assert(out@[j] == before[j - 1]);
                    assert(!lex_lt(before[j - 1].id_key(), before[i].id_key()));
                } else if i == k {
                    assert(out@[j] == before[j - 1]);
                    if lex_lt(before[j - 1].id_key(), item.id_key()) {
                        lemma_lex_lt_total(before[k as int].id_key(), before[j - 1].id_key());
                        if before[k as int].id_key() != before[j - 1].id_key() {
                            lemma_lex_lt_transitive(item.id_key(), before[k as int].id_key(), before[j - 1].id_key());
                        }
                        lemma_lex_lt_total(item.id_key(), before[j - 1].id_key());
                    }
                } else {
                    assert(out@[i] == before[i - 1]);
                    assert(out@[j] == before[j - 1]);
                }
            }
        }
    }
    proof {
        assert(all.take(all.len() as int) =~= all);
    }
    out
}

/// The texts of a list copied into fresh strings.
pub fn copy_names(v: &Vec<String>) -> (r: Vec<String>)
    ensures
        name_views(r@) == name_views(v@),
{
    let mut r: Vec<String> = Vec::new();
    let mut i: usize = 0;
    while i < v.len()
        invariant
            0 <= i <= v@.len(),
            r@.len() == i,
            forall|k: int| 0 <= k < i ==> #[trigger] r@[k]@ == v@[k]@,
        decreases v.len() - i,
    {
        r.push(owned(v[i].as_str()));
        i += 1;
    }
    assert(name_views(r@) =~= name_views(v@));
    r
}

/// A usage report line: the host's identity with its latest snapshot.
pub fn host_usage(host: &Host, usage: UsageSnapshot) -> (r: HostUsage)
    ensures
        r.id@ == host.id@,
        r.address@ == host.address@,
        r.name@ == host.name@,
        name_views(r.groups@) == name_views(host.groups@),
        r.usage == usage,
{
    HostUsage {
        id: owned(host.id.as_str()),
        address: owned(host.address.as_str()),
        name: owned(host.name.as_str()),
        groups: copy_names(&host.groups),
        usage,
    }
}

/// The snapshots of report lines, in order.
pub open spec fn usages_of(hosts: Seq<HostUsage>) -> Seq<UsageSnapshot> {
    hosts.map_values(|h: HostUsage| h.usage)
}

proof fn lemma_summary_permutation(a: Seq<HostUsage>, b: Seq<HostUsage>)
    requires
        a.to_multiset() == b.to_multiset(),
    ensures
        summary_of(usages_of(a)) == summary_of(usages_of(b)),
    decreases a.len(),
{
    broadcast use vstd::seq_lib::group_to_multiset_ensures;

    if a.len() > 0 {
        let x = a.last();
        assert(a.to_multiset().count(x) > 0) by {
            assert(a.contains(x)) by {
                assert(a[a.len() - 1] == x);
            }
        }
        assert(b.contains(x));
        let j = choose|j: int| 0 <= j < b.len() && b[j] == x;
        let b2 = b.remove(j);
        vstd::seq_lib::to_multiset_remove(b, j);
        assert(a.drop_last().to_multiset() =~= a.to_multiset().remove(x)) by {
            assert(a =~= a.drop_last().push(x));
        }
        lemma_summary_permutation(a.drop_last(), b2);
        lemma_summary_remove(b, j);
        assert(usages_of(a.drop_last()) =~= usages_of(a).drop_last());
    } else {
        assert(b.to_multiset().len() == 0);
        assert(b.len() == 0);
        assert(usages_of(a) =~= usages_of(b));
    }
}

proof fn lemma_summary_remove(b: Seq<HostUsage>, j: int)
    requires
        0 <= j < b.len(),
    ensures
        ({
            let p = summary_of(usages_of(b.remove(j)));
            let q = summary_of(usages_of(b));
            let x = b[j].usage;
            let ok = x.status == UsageCollectionStatus::Okay;
            &&& q.0 == p.0 + 1
            &&& q.1 == p.1 + if ok { 0nat } else { 1nat }
            &&& q.2 == p.2 + if ok { match x.console_users { Some(c) => c as nat, None => 0nat } } else { 0nat }
            &&& q.3 == p.3 + if ok { match x.remote_users { Some(c) => c as nat, None => 0nat } } else { 0nat }
        }),
    decreases b.len(),
{
    assert(usages_of(b).drop_last() =~= usages_of(b.drop_last()));
    if j < b.len() - 1 {
        lemma_summary_remove(b.drop_last(), j);
        assert(b.remove(j).drop_last() =~= b.drop_last().remove(j));
        assert(usages_of(b.remove(j)).drop_last() =~= usages_of(b.remove(j).drop_last()));
        assert(b.remove(j).last() == b.last());
    } else {
        assert(b.remove(j) =~= b.drop_last());
    }
}

/// Two snapshots with the same status and user counts.
pub open spec fn same_counts(a: UsageSnapshot, b: UsageSnapshot) -> bool {
    a.status == b.status && a.console_users == b.console_users && a.remote_users == b.remote_users
}

proof fn lemma_summary_same_counts(a: Seq<UsageSnapshot>, b: Seq<UsageSnapshot>)
    requires
        a.len() == b.len(),
        forall|k: int| 0 <= k < a.len() ==> same_counts(#[trigger] a[k], b[k]),
    ensures
        summary_of(a) == summary_of(b),
    decreases a.len(),
{
    if a.len() > 0 {
        lemma_summary_same_counts(a.drop_last(), b.drop_last());
        assert(same_counts(a[a.len() - 1], b[b.len() - 1]));
    }
}

/// Two snapshots that say the same: time, status, counts and error text.
pub open spec fn same_snapshot(a: UsageSnapshot, b: UsageSnapshot) -> bool {
    &&& a.collected_at == b.collected_at
    &&& a.status == b.status
    &&& a.console_users == b.console_users
    &&& a.remote_users == b.remote_users
    &&& opt_text(a.error) == opt_text(b.error)
}

/// The first host with the given id.
pub open spec fn host_with_id(hosts: Seq<Host>, id: Seq<char>) -> Option<Host>
    decreases hosts.len(),
{
    if hosts.len() == 0 {
        None
    } else if hosts[0].id@ == id {
        Some(hosts[0])
    } else {
        host_with_id(hosts.drop_first(), id)
    }
}

/// The report line of a host with a snapshot: the host's id, address, name
/// and groups, and the snapshot.
pub open spec fn is_usage_line(line: HostUsage, host: Host, snapshot: UsageSnapshot) -> bool {
    &&& line.id@ == host.id@
    &&& line.address@ == host.address@
    &&& line.name@ == host.name@
    &&& name_views(line.groups@) == name_views(host.groups@)
    &&& same_snapshot(line.usage, snapshot)
}

/// The (host, snapshot) pairs a usage report covers among the first `n`
/// latest-usage rows, in row order: a row is kept when its snapshot passes
/// the filter with the row's history and its id names a configured host.
pub open spec fn report_rows<H: InactivityHistory>(
    rows: Seq<(String, UsageSnapshot)>,
    histories: Seq<H>,
    hosts: Seq<Host>,
    filter: UsageFilter,
    n: int,
) -> Seq<(Host, UsageSnapshot)>
    decreases n,
{
    if n <= 0 {
        Seq::empty()
    } else {
        let before = report_rows(rows, histories, hosts, filter, n - 1);
        let row = rows[n - 1];
        if usage_verdict(row.1, filter, histories[n - 1]) && host_with_id(hosts, row.0@) is Some {
            before.push((host_with_id(hosts, row.0@)->0, row.1))
        } else {
            before
        }
    }
}

/// The first host with the given id, if any.
fn find_host<'a>(hosts: &'a Vec<Host>, id: &str) -> (r: Option<&'a Host>)
    ensures
        match r {
            Some(h) => host_with_id(hosts@, id@) == Some(*h),
            None => host_with_id(hosts@, id@) is None,
        },
{
    let ghost all = hosts@;
    let mut i: usize = 0;
    assert(all.skip(0) =~= all);
    while i < hosts.len()
        invariant
            0 <= i <= all.len(),
            all == hosts@,
            host_with_id(all, id@) == host_with_id(all.skip(i as int), id@),
        decreases hosts.len() - i,
    {
        assert(all.skip(i as int).drop_first() =~= all.skip(i + 1));
        if str_eq(hosts[i].id.as_str(), id) {
            return Some(&hosts[i]);
        }
        i += 1;
    }
    None
}

/// The lines of a usage report: each latest-usage row, with its own
/// history, whose snapshot passes the filter and whose id names a
/// configured host; in row order. The first failed history lookup is the
/// error.
pub fn usage_report_lines<H: InactivityHistory<Error = StorageError>>(
    rows: &Vec<(String, UsageSnapshot)>,
    histories: &Vec<H>,
    hosts: &Vec<Host>,
    filter: &UsageFilter,
) -> (r: Result<Vec<HostUsage>, StorageError>)
    requires
        histories@.len() == rows@.len(),
    ensures
        r matches Ok(lines) ==> ({
            let kept = report_rows(rows@, histories@, hosts@, *filter, rows@.len() as int);
            &&& lines@.len() == kept.len()
            &&& forall|k: int| 0 <= k < kept.len() ==> is_usage_line(#[trigger] lines@[k], kept[k].0, kept[k].1)
        }),
        filter.inactive_console_for is None && filter.no_users_for is None ==> r is Ok,
        (forall|i: int| 0 <= i < rows@.len() ==> !#[trigger] usage_may_fail(rows@[i].1, *filter, histories@[i]))
            ==> r is Ok,
        r is Err ==> exists|i: int|
            0 <= i < rows@.len() && #[trigger] usage_filter_outcome(
                Err::<bool, StorageError>(r->Err_0),
                rows@[i].1,
                *filter,
                histories@[i],
            ),
{
    let mut lines: Vec<HostUsage> = Vec::new();
    let mut i: usize = 0;
    while i < rows.len()
        invariant
            0 <= i <= rows@.len(),
            histories@.len() == rows@.len(),
            ({
                let kept = report_rows(rows@, histories@, hosts@, *filter, i as int);
                &&& lines@.len() == kept.len()
                &&& forall|k: int| 0 <= k < kept.len() ==> is_usage_line(#[trigger] lines@[k], kept[k].0, kept[k].1)
            }),
        decreases rows.len() - i,
    {
        let ghost before = report_rows(rows@, histories@, hosts@, *filter, i as int);
        let passes = match matches_usage_filter(&rows[i].1, filter, &histories[i]) {
            Ok(b) => b,
            Err(e) => {
                proof {
                    assert(usage_may_fail(rows@[i as int].1, *filter, histories@[i as int]));
                    let res = Err::<Vec<HostUsage>, StorageError>(e);
                    assert(usage_filter_outcome(
                        Err::<bool, StorageError>(res->Err_0),
                        rows@[i as int].1,
                        *filter,
                        histories@[i as int],
                    ));
                }
                return Err(e);
            },
        };
        if passes {
            if let Some(host) = find_host(hosts, rows[i].0.as_str()) {
                let line = host_usage(host, rows[i].1.copy());
                let ghost old_lines = lines@;
                lines.push(line);
                proof {
                    let kept = report_rows(rows@, histories@, hosts@, *filter, i + 1);
                    assert(kept == before.push((*host, rows@[i as int].1)));
                    assert forall|k: int| 0 <= k < kept.len() implies is_usage_line(
                        #[trigger] lines@[k],
                        kept[k].0,
                        kept[k].1,
                    ) by {
                        if k < before.len() {
                            assert(lines@[k] == old_lines[k]);
                        }
                    }
                }
            }
        }
        i += 1;
    }
    Ok(lines)
}

/// The usage report of the given lines: the lines in id order and the
/// summary of their snapshots (whose user totals must fit their counters).
pub fn usage_report(hosts: Vec<HostUsage>) -> (r: UsageReport)
    requires
        summary_of(usages_of(hosts@)).2 <= u32::MAX,
        summary_of(usages_of(hosts@)).3 <= u32::MAX,
    ensures
        sorted_by_id(r.hosts@),
        r.hosts@.to_multiset() == hosts@.to_multiset(),
        r.summary.hosts_reporting == summary_of(usages_of(hosts@)).0,
        r.summary.hosts_with_errors == summary_of(usages_of(hosts@)).1,
        r.summary.console_users == summary_of(usages_of(hosts@)).2,
        r.summary.remote_users == summary_of(usages_of(hosts@)).3,
{
    let ghost given = hosts@;
    let sorted = sort_by_id(hosts);
    proof {
        lemma_summary_permutation(sorted@, given);
    }
    let mut snapshots: Vec<UsageSnapshot> = Vec::new();
    let mut i: usize = 0;
    while i < sorted.len()
        invariant
            0 <= i <= sorted@.len(),
            snapshots@.len() == i,
            forall|k: int| 0 <= k < i ==> same_counts(#[trigger] snapshots@[k], sorted@[k].usage),
        decreases sorted.len() - i,
    {
        snapshots.push(sorted[i].usage.copy());
        i += 1;
    }
    proof {
        lemma_summary_same_counts(snapshots@, usages_of(sorted@));
    }
    let summary = usage_summary(&snapshots);
    UsageReport { summary, hosts: sorted }
}

/// A stored status name read back: the status it names, or the storage
/// error that refuses it.
pub open spec fn stored_usage_status(text: Seq<char>) -> Option<UsageCollectionStatus> {
    if text == usage_status_text(UsageCollectionStatus::Okay) {
        Some(UsageCollectionStatus::Okay)
    } else if text == usage_status_text(UsageCollectionStatus::Failed) {
        Some(UsageCollectionStatus::Failed)
    } else {
        None
    }
}

fn read_usage_status(text: &str) -> (r: Result<UsageCollectionStatus, StorageError>)
    ensures
        match r {
            Ok(s) => usage_status_text(s) == text@,
            Err(e) => e matches StorageError::InvalidData(m) && m@ == invalid_usage_status_message(text@)
                && forall|s: UsageCollectionStatus| usage_status_text(s) != text@,
        },
{
    match UsageCollectionStatus::try_from_str(text) {
        Ok(s) => Ok(s),
        Err(m) => Err(StorageError::InvalidData(m)),
    }
}

fn read_host_status(text: &str) -> (r: Result<HostStatus, StorageError>)
    ensures
        match r {
            Ok(s) => host_status_text(s) == text@,
            Err(e) => e matches StorageError::InvalidData(m) && m@ == invalid_host_status_message(text@)
                && forall|s: HostStatus| host_status_text(s) != text@,
        },
{
    match HostStatus::try_from_str(text) {
        Ok(s) => Ok(s),
        Err(m) => Err(StorageError::InvalidData(m)),
    }
}

/// A stored usage row read back as a snapshot: its time (already parsed,
/// or why it did not parse), its counts, its status name and its error.
pub fn usage_snapshot_from_row(
    collected_at: Result<i64, StorageError>,
    console_users: Option<u32>,
    remote_users: Option<u32>,
    status: &str,
    error: Option<String>,
) -> (r: Result<UsageSnapshot, StorageError>)
    ensures
        (collected_at matches Err(e) ==> r == Err::<UsageSnapshot, StorageError>(e)),
        collected_at matches Ok(t) ==> match r {
            Ok(snap) => snap.collected_at == t && snap.console_users == console_users && snap.remote_users
                == remote_users && usage_status_text(snap.status) == status@ && snap.error == error,
            Err(e) => e matches StorageError::InvalidData(m) && m@ == invalid_usage_status_message(status@)
                && forall|s: UsageCollectionStatus| usage_status_text(s) != status@,
        },
{
    let collected_at = match collected_at {
        Ok(t) => t,
        Err(e) => {
            return Err(e);
        },
    };
    let status = read_usage_status(status)?;
    Ok(UsageSnapshot { collected_at, console_users, remote_users, status, error })
}

/// A stored usage row read back as a recorded observation.
pub fn usage_event_from_row(
    id: Option<i64>,
    host_id: String,
    collected_at: Result<i64, StorageError>,
    console_users: Option<u32>,
    remote_users: Option<u32>,
    status: &str,
    error: Option<String>,
) -> (r: Result<UsageEvent, StorageError>)
    ensures
        (collected_at matches Err(e) ==> r == Err::<UsageEvent, StorageError>(e)),
        collected_at matches Ok(t) ==> match r {
            Ok(ev) => ev.id == id && ev.host_id == host_id && ev.collected_at == t && ev.console_users
                == console_users && ev.remote_users == remote_users && usage_status_text(ev.status)
                == status@ && ev.error == error,
            Err(e) => e matches StorageError::InvalidData(m) && m@ == invalid_usage_status_message(status@)
                && forall|s: UsageCollectionStatus| usage_status_text(s) != status@,
        },
{
    let collected_at = match collected_at {
        Ok(t) => t,
        Err(e) => {
            return Err(e);
        },
    };
    let status = read_usage_status(status)?;
    Ok(UsageEvent { id, host_id, collected_at, console_users, remote_users, status, error })
}

/// A stored transition row read back: the two status names are read before
/// its time.
pub fn transition_from_row(
    id: Option<i64>,
    host_id: String,
    previous_status: &str,
    new_status: &str,
    changed_at: Result<i64, StorageError>,
    latency: Option<u128>,
    error: Option<String>,
    backend: String,
    reason: String,
) -> (r: Result<IcmpTransition, StorageError>)
    ensures
        match r {
            Ok(t) => t.id == id && t.host_id == host_id && host_status_text(t.previous_status)
                == previous_status@ && host_status_text(t.new_status) == new_status@ && changed_at
                == Ok::<i64, StorageError>(t.changed_at) && t.latency == latency && t.error == error
                && t.backend == backend && t.reason == reason,
            Err(e) => {
                ||| (forall|s: HostStatus| host_status_text(s) != previous_status@) && (e matches StorageError::InvalidData(
                    m,
                ) && m@ == invalid_host_status_message(previous_status@))
                ||| (exists|s: HostStatus| host_status_text(s) == previous_status@) && (forall|s: HostStatus|
                    host_status_text(s) != new_status@) && (e matches StorageError::InvalidData(m) && m@
                    == invalid_host_status_message(new_status@))
                ||| (exists|s: HostStatus| host_status_text(s) == previous_status@) && (exists|s: HostStatus|
                    host_status_text(s) == new_status@) && changed_at == Err::<i64, StorageError>(e)
            },
        },
{
    let previous_status = read_host_status(previous_status)?;
    let new_status = read_host_status(new_status)?;
    let changed_at = match changed_at {
        Ok(t) => t,
        Err(e) => {
            return Err(e);
        },
    };
    Ok(
        IcmpTransition {
            id,
            host_id,
            previous_status,
            new_status,
            changed_at,
            latency,
            error,
            backend,
            reason,
        },
    )
}

/// A stored latest-state row read back: the status name is read before the
/// two times.
pub fn runtime_state_from_row(
    status: &str,
    last_checked_at: Result<Option<i64>, StorageError>,
    last_change_at: Result<Option<i64>, StorageError>,
    latency: Option<u128>,
    consecutive_successes: u32,
    consecutive_failures: u32,
    last_error: Option<String>,
) -> (r: Result<HostRuntimeState, StorageError>)
    ensures
        match r {
            Ok(s) => host_status_text(s.status) == status@ && last_checked_at == Ok::<
                Option<i64>,
                StorageError,
            >(s.last_checked_at) && last_change_at == Ok::<Option<i64>, StorageError>(s.last_change_at)
                && s.latency == latency && s.consecutive_successes == consecutive_successes
                && s.consecutive_failures == consecutive_failures && s.last_error == last_error,
            Err(e) => {
                ||| (forall|s: HostStatus| host_status_text(s) != status@) && (e matches StorageError::InvalidData(
                    m,
                ) && m@ == invalid_host_status_message(status@))
                ||| (exists|s: HostStatus| host_status_text(s) == status@) && last_checked_at == Err::<
                    Option<i64>,
                    StorageError,
                >(e)
                ||| (exists|s: HostStatus| host_status_text(s) == status@) && last_checked_at is Ok
                    && last_change_at == Err::<Option<i64>, StorageError>(e)
            },
        },
{
    let status = read_host_status(status)?;
    let last_checked_at = match last_checked_at {
        Ok(t) => t,
        Err(e) => {
            return Err(e);
        },
    };
    let last_change_at = match last_change_at {
        Ok(t) => t,
        Err(e) => {
            return Err(e);
        },
    };
    Ok(
        HostRuntimeState {
            status,
            last_checked_at,
            last_change_at,
            latency,
            consecutive_successes,
            consecutive_failures,
            last_error,
        },
    )
}

/// The state of a host without a stored state: never checked.
pub fn state_or_default(state: Option<HostRuntimeState>) -> (r: HostRuntimeState)
    ensures
        match state {
            Some(s) => r == s,
            None => r.status == HostStatus::Unknown && r.last_checked_at is None && r.last_change_at is None
                && r.latency is None && r.consecutive_successes == 0 && r.consecutive_failures == 0
                && r.last_error is None,
        },
{
    match state {
        Some(s) => s,
        None => HostRuntimeState::default_state(),
    }
}

} // verus!
