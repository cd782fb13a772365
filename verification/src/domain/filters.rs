//! Host and usage filters, and the inactivity decision behind the
//! `inactive_console_for` / `no_users_for` filters.
use crate::domain::icmp::HostStatus;
use crate::domain::usage::{UsageCollectionStatus, UsageSnapshot};
use vstd::prelude::*;

verus! {

/// Filter on the latest usage snapshot. Durations are in nanoseconds and
/// `now` in nanoseconds since the Unix epoch.
#[derive(Clone, Debug)]
pub struct UsageFilter {
    pub status: Option<UsageCollectionStatus>,
    pub inactive_console_for: Option<u128>,
    pub no_users_for: Option<u128>,
    pub now: i64,
}

impl UsageFilter {
    pub fn empty(now: i64) -> (r: UsageFilter)
        ensures
            r.status.is_none(),
            r.inactive_console_for.is_none(),
            r.no_users_for.is_none(),
            r.now == now,
    {
        UsageFilter { status: None, inactive_console_for: None, no_users_for: None, now }
    }

    pub fn is_empty(&self) -> (r: bool)
        ensures
            r == (self.status.is_none() && self.inactive_console_for.is_none()
                && self.no_users_for.is_none()),
    {
        self.status.is_none() && self.inactive_console_for.is_none() && self.no_users_for.is_none()
    }
}

/// Filter on hosts. `metadata` holds (field, expected text) pairs with
/// distinct fields.
#[derive(Clone, Debug)]
pub struct HostFilter {
    pub icmp_status: Option<HostStatus>,
    pub group: Option<String>,
    pub metadata: Vec<(String, String)>,
    pub usage: UsageFilter,
}

/// What the history says of a host at the cutoff, when it says anything.
#[derive(Clone, Copy, Debug, PartialEq, Eq, Structural)]
pub enum StateAtCutoff {
    /// The observation at the cutoff was a failed collection: state unknown.
    Unknown,
    /// A successful observation; `activity_matched` tells whether users that
    /// the predicate counts were present.
    Observed { activity_matched: bool },
}

/// Which users count as activity.
#[derive(Clone, Copy, Debug, PartialEq, Eq, Structural)]
pub enum ActivityPredicate {
    ConsoleOnly,
    AnyUser,
}

/// The current snapshot shows no activity: the collection succeeded and the
/// counted users are zero (an absent count reads as zero).
pub open spec fn current_state_is_inactive(predicate: ActivityPredicate, snapshot: UsageSnapshot) -> bool {
    let console = match snapshot.console_users { Some(c) => c, None => 0 };
    let remote = match snapshot.remote_users { Some(r) => r, None => 0 };
    &&& snapshot.status == UsageCollectionStatus::Okay
    &&& match predicate {
        ActivityPredicate::ConsoleOnly => console == 0,
        ActivityPredicate::AnyUser => console == 0 && remote == 0,
    }
}

impl ActivityPredicate {
    pub fn current_state_is_inactive(self, snapshot: &UsageSnapshot) -> (r: bool)
        ensures
            r == current_state_is_inactive(self, *snapshot),
    {
        if snapshot.status != UsageCollectionStatus::Okay {
            return false;
        }
        let console = match snapshot.console_users { Some(c) => c, None => 0 };
        let remote = match snapshot.remote_users { Some(r) => r, None => 0 };
        match self {
            ActivityPredicate::ConsoleOnly => console == 0,
            ActivityPredicate::AnyUser => console == 0 && remote == 0,
        }
    }
}

/// The two questions about a host's usage history that inactivity needs.
/// Storage adapters implement it per host.
pub trait InactivityHistory {
    type Error;

    /// What the history holds at or before `cutoff`: the latest observation
    /// read for `predicate`, if any.
    spec fn state_at(&self, cutoff: i64, predicate: ActivityPredicate) -> Option<StateAtCutoff>;

    /// Whether the history holds an observation after `cutoff` that was
    /// active for `predicate` or failed.
    spec fn breaks_after(&self, cutoff: i64, predicate: ActivityPredicate) -> bool;

    /// The latest observation at or before `cutoff`, if any.
    fn state_at_or_before(&self, cutoff: i64, predicate: ActivityPredicate) -> (r: Result<
        Option<StateAtCutoff>,
        Self::Error,
    >)
        ensures
            r matches Ok(s) ==> s == self.state_at(cutoff, predicate),
    ;

    /// Whether any observation after `cutoff` was active or failed.
    fn window_breaks_inactivity(&self, cutoff: i64, predicate: ActivityPredicate) -> (r: Result<
        bool,
        Self::Error,
    >)
        ensures
            r matches Ok(b) ==> b == self.breaks_after(cutoff, predicate),
    ;
}

/// Why inactivity could not be decided.
#[derive(Debug)]
pub enum InactivityError<E> {
    InvalidDuration(String),
    Storage(E),
}

/// The start of the window `duration` before `now`, if a timestamp can hold it.
pub open spec fn inactivity_cutoff(now: i64, duration: u128) -> Option<i64> {
    if now - duration >= i64::MIN {
        Some((now - duration) as i64)
    } else {
        None
    }
}

/// The longest duration a window may span: `i64::MAX` milliseconds, in
/// nanoseconds. A longer one is refused as out of range.
pub const MAX_WINDOW_NANOS: u128 = 9_223_372_036_854_775_807_000_000;

/// The text a refused window duration is reported with.
pub open spec fn window_out_of_range_text() -> Seq<char> {
    "Source duration value is out of range for the target type"@
}

/// The inactivity rule: inactive now, observed inactive at the cutoff, and
/// nothing in the window since then broke it.
pub open spec fn inactive_for(
    predicate: ActivityPredicate,
    snapshot: UsageSnapshot,
    at_cutoff: Option<StateAtCutoff>,
    window_breaks: bool,
) -> bool {
    &&& current_state_is_inactive(predicate, snapshot)
    &&& at_cutoff == Some(StateAtCutoff::Observed { activity_matched: false })
    &&& !window_breaks
}

/// The verdict the history gives: inactive for `duration` before `now`
/// exactly when the cutoff exists and the rule holds there. An active
/// current snapshot is never inactive, nor is a window that starts before
/// any timestamp (no observation can lie there).
pub open spec fn inactivity_verdict<H: InactivityHistory>(
    predicate: ActivityPredicate,
    snapshot: UsageSnapshot,
    now: i64,
    duration: u128,
    history: H,
) -> bool {
    match inactivity_cutoff(now, duration) {
        Some(c) => inactive_for(predicate, snapshot, history.state_at(c, predicate), history.breaks_after(c, predicate)),
        None => false,
    }
}

/// The cutoff `duration` before `now`.
pub fn cutoff_before(now: i64, duration: u128) -> (r: Option<i64>)
    ensures
        r == inactivity_cutoff(now, duration),
{
    let min_distance: u128 = (now as i128 - i64::MIN as i128) as u128;
    if duration <= min_distance {
        let d = duration as i128;
        Some((now as i128 - d) as i64)
    } else {
        None
    }
}

/// The start of a window `duration` long that ends at `now`: refused when
/// the duration is out of range, `None` when it starts before any
/// timestamp (nothing can lie before it).
pub fn window_start(now: i64, duration: u128) -> (r: Result<Option<i64>, String>)
    ensures
        duration > MAX_WINDOW_NANOS ==> (r matches Err(m) && m@ == window_out_of_range_text()),
        duration <= MAX_WINDOW_NANOS ==> r == Ok::<Option<i64>, String>(inactivity_cutoff(now, duration)),
{
    if duration > MAX_WINDOW_NANOS {
        return Err("Source duration value is out of range for the target type".to_owned());
    }
    Ok(cutoff_before(now, duration))
}

/// Decides inactivity from the current snapshot and the two answers of the
/// history.
pub fn decide_inactivity(
    predicate: ActivityPredicate,
    snapshot: &UsageSnapshot,
    at_cutoff: Option<StateAtCutoff>,
    window_breaks: bool,
) -> (r: bool)
    ensures
        r == inactive_for(predicate, *snapshot, at_cutoff, window_breaks),
{
    if !predicate.current_state_is_inactive(snapshot) {
        return false;
    }
    match at_cutoff {
        Some(StateAtCutoff::Observed { activity_matched: false }) => !window_breaks,
        _ => false,
    }
}

/// Is the host inactive for at least `duration` before `now`? Asks the
/// history only as far as the answer needs it: nothing when the current
/// snapshot is active, the window only when the cutoff state was inactive.
pub fn evaluate_inactivity<H: InactivityHistory>(
    snapshot: &UsageSnapshot,
    duration: u128,
    now: i64,
    predicate: ActivityPredicate,
    history: &H,
) -> (r: Result<bool, InactivityError<H::Error>>)
    ensures
        !current_state_is_inactive(predicate, *snapshot) ==> r matches Ok(false),
        current_state_is_inactive(predicate, *snapshot) && duration > MAX_WINDOW_NANOS
            ==> r matches Err(InactivityError::InvalidDuration(_)),
        r matches Err(InactivityError::InvalidDuration(m)) ==> m@ == window_out_of_range_text()
            && duration > MAX_WINDOW_NANOS,
        r matches Ok(true) ==> current_state_is_inactive(predicate, *snapshot)
            && inactivity_cutoff(now, duration).is_some(),
        r matches Ok(b) ==> b == inactivity_verdict(predicate, *snapshot, now, duration, *history),
        r matches Ok(true) ==> duration <= MAX_WINDOW_NANOS,
        r matches Err(InactivityError::Storage(_)) ==> current_state_is_inactive(predicate, *snapshot)
            && duration <= MAX_WINDOW_NANOS && inactivity_cutoff(now, duration) is Some,
{
    if !predicate.current_state_is_inactive(snapshot) {
        return Ok(false);
    }
    if duration > MAX_WINDOW_NANOS {
        return Err(InactivityError::InvalidDuration(
            "Source duration value is out of range for the target type".to_owned(),
        ));
    }
    let cutoff = match cutoff_before(now, duration) {
        Some(c) => c,
        None => {
            return Ok(false);
        },
    };
    let at_cutoff = match history.state_at_or_before(cutoff, predicate) {
        Ok(state) => state,
        Err(e) => {
            return Err(InactivityError::Storage(e));
        },
    };
    match at_cutoff {
        Some(StateAtCutoff::Observed { activity_matched: false }) => {},
        _ => {
            return Ok(false);
        },
    }
    let breaks = match history.window_breaks_inactivity(cutoff, predicate) {
        Ok(b) => b,
        Err(e) => {
            return Err(InactivityError::Storage(e));
        },
    };
    Ok(decide_inactivity(predicate, snapshot, at_cutoff, breaks))
}

/// A snapshot is currently inactive only if its collection succeeded: a
/// failed collection leaves the state unknown, for every predicate, so no
/// inactivity verdict holds for it whatever the history says. A successful
/// one with a console user is active for both predicates; one with only
/// remote users is console-inactive but not inactive for all users; and
/// being inactive for all users implies being console-inactive.
pub proof fn lemma_inactivity_needs_success<H: InactivityHistory>(
    p: ActivityPredicate,
    s: UsageSnapshot,
    now: i64,
    duration: u128,
    history: H,
)
    ensures
        current_state_is_inactive(p, s) ==> s.status == UsageCollectionStatus::Okay,
        s.status == UsageCollectionStatus::Failed ==> !current_state_is_inactive(ActivityPredicate::ConsoleOnly, s)
            && !current_state_is_inactive(ActivityPredicate::AnyUser, s) && !inactivity_verdict(
            p,
            s,
            now,
            duration,
            history,
        ),
        s.status == UsageCollectionStatus::Okay && s.console_users is Some && s.console_users->0 > 0 ==> !current_state_is_inactive(
            p,
            s,
        ),
        s.status == UsageCollectionStatus::Okay && (s.console_users is None || s.console_users == Some(0u32))
            ==> current_state_is_inactive(ActivityPredicate::ConsoleOnly, s),
        s.status == UsageCollectionStatus::Okay && s.console_users == Some(0u32) && s.remote_users is Some
            && s.remote_users->0 > 0 ==> current_state_is_inactive(ActivityPredicate::ConsoleOnly, s)
            && !current_state_is_inactive(ActivityPredicate::AnyUser, s),
        current_state_is_inactive(ActivityPredicate::AnyUser, s) ==> current_state_is_inactive(
            ActivityPredicate::ConsoleOnly,
            s,
        ),
{
}

} // verus!
