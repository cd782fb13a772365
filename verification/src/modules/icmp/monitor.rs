//! The ICMP status machine: what one probe result does to a host's state,
//! and when it changes the host's status.
use crate::backends::ping::PingCheckRequest;
use crate::config::AppConfig;
use crate::domain::host::{Host, HostRuntimeState};
use crate::domain::icmp::{CheckFailure, HostStatus, IcmpTransition, PingOutcome};
use crate::text::owned;
use vstd::prelude::*;

verus! {

/// The settings the ICMP monitor runs with.
#[derive(Clone, Copy, Debug)]
pub struct IcmpMonitorConfig {
    pub concurrency: usize,
    pub failure_threshold: u32,
    pub success_threshold: u32,
}

/// The ICMP monitor's settings from the configuration.
pub fn monitor_config(config: &AppConfig) -> (r: IcmpMonitorConfig)
    ensures
        r.concurrency == config.modules.icmp.concurrency,
        r.failure_threshold == config.modules.icmp.failure_threshold,
        r.success_threshold == config.modules.icmp.success_threshold,
{
    IcmpMonitorConfig {
        concurrency: config.modules.icmp.concurrency,
        failure_threshold: config.modules.icmp.failure_threshold,
        success_threshold: config.modules.icmp.success_threshold,
    }
}

/// A counter increased by one, staying at its maximum.
pub open spec fn saturating_inc(n: u32) -> u32 {
    if n == u32::MAX {
        n
    } else {
        (n + 1) as u32
    }
}

/// Whether a successful probe brings the host up: it is not up yet and the
/// successes, this one included, reach the threshold.
pub open spec fn success_brings_up(s: HostRuntimeState, success_threshold: u32) -> bool {
    s.status != HostStatus::Up && saturating_inc(s.consecutive_successes) >= success_threshold
}

/// Whether a failed probe brings the host down.
pub open spec fn failure_brings_down(s: HostRuntimeState, failure_threshold: u32) -> bool {
    s.status != HostStatus::Down && saturating_inc(s.consecutive_failures) >= failure_threshold
}

/// The state after a probe that checked at `at` gave `result`.
pub open spec fn state_after_check(
    s: HostRuntimeState,
    success_threshold: u32,
    failure_threshold: u32,
    at: i64,
    result: Result<PingOutcome, CheckFailure>,
) -> HostRuntimeState {
    match result {
        Ok(outcome) => {
            let up = success_brings_up(s, success_threshold);
            HostRuntimeState {
                status: if up { HostStatus::Up } else { s.status },
                last_checked_at: Some(at),
                last_change_at: if up { Some(at) } else { s.last_change_at },
                latency: Some(outcome.latency),
                consecutive_successes: saturating_inc(s.consecutive_successes),
                consecutive_failures: 0,
                last_error: None,
            }
        },
        Err(failure) => {
            let down = failure_brings_down(s, failure_threshold);
            HostRuntimeState {
                status: if down { HostStatus::Down } else { s.status },
                last_checked_at: Some(at),
                last_change_at: if down { Some(at) } else { s.last_change_at },
                latency: None,
                consecutive_successes: 0,
                consecutive_failures: saturating_inc(s.consecutive_failures),
                last_error: Some(failure.message),
            }
        },
    }
}

fn saturating_inc_exec(n: u32) -> (r: u32)
    ensures
        r == saturating_inc(n),
{
    if n == u32::MAX {
        n
    } else {
        n + 1
    }
}

/// The probe a host gets: its id, its address and its ICMP timeout.
pub fn check_request(host: &Host) -> (r: PingCheckRequest)
    ensures
        r.host_id@ == host.id@,
        r.address@ == host.address@,
        r.timeout == host.modules.icmp.timeout,
{
    PingCheckRequest {
        host_id: owned(host.id.as_str()),
        address: owned(host.address.as_str()),
        timeout: host.modules.icmp.timeout,
    }
}

/// Sets the host's new status and records the change.
pub fn transition_to(
    host: &Host,
    state: &mut HostRuntimeState,
    new_status: HostStatus,
    changed_at: i64,
    latency: Option<u128>,
    error: Option<String>,
    backend: &str,
    reason: &str,
) -> (r: Option<IcmpTransition>)
    ensures
        final(state).status == new_status,
        final(state).last_change_at == Some(changed_at),
        final(state).last_checked_at == old(state).last_checked_at,
        final(state).latency == old(state).latency,
        final(state).consecutive_successes == old(state).consecutive_successes,
        final(state).consecutive_failures == old(state).consecutive_failures,
        final(state).last_error == old(state).last_error,
        r matches Some(t) && t.id is None && t.host_id@ == host.id@ && t.previous_status == old(
            state,
        ).status && t.new_status == new_status && t.changed_at == changed_at && t.latency == latency
            && t.error == error && t.backend@ == backend@ && t.reason@ == reason@,
{
    let previous_status = state.status;
    state.status = new_status;
    state.last_change_at = Some(changed_at);
    Some(
        IcmpTransition {
            id: None,
            host_id: owned(host.id.as_str()),
            previous_status,
            new_status,
            changed_at,
            latency,
            error,
            backend: owned(backend),
            reason: owned(reason),
        },
    )
}

/// Applies the result of one probe, taken at `checked_at`, to the host's
/// state. A success clears the failure count and the last error; a failure
/// clears the success count and the latency. The status changes, and a
/// transition is returned, exactly when the count of the result reaches its
/// threshold and the host is not already in the status that result leads to.
pub fn apply_check_result(
    host: &Host,
    config: &IcmpMonitorConfig,
    state: &mut HostRuntimeState,
    checked_at: i64,
    result: Result<PingOutcome, CheckFailure>,
    backend: &str,
) -> (r: Option<IcmpTransition>)
    ensures
        *final(state) == state_after_check(
            *old(state),
            config.success_threshold,
            config.failure_threshold,
            checked_at,
            result,
        ),
        r is Some <==> final(state).status != old(state).status,
        match result {
            Ok(outcome) => r is Some <==> success_brings_up(*old(state), config.success_threshold),
            Err(_) => r is Some <==> failure_brings_down(*old(state), config.failure_threshold),
        },
        r matches Some(t) ==> {
            &&& t.id is None
            &&& t.host_id@ == host.id@
            &&& t.previous_status == old(state).status
            &&& t.new_status == final(state).status
            &&& t.changed_at == checked_at
            &&& t.backend@ == backend@
            &&& match result {
                Ok(outcome) => t.latency == Some(outcome.latency) && t.error is None && t.reason@
                    == "success threshold reached"@,
                Err(failure) => t.latency is None && t.reason@ == "failure threshold reached"@ && (
                t.error matches Some(e) && e@ == failure.message@),
            }
        },
{
    state.last_checked_at = Some(checked_at);
    match result {
        Ok(outcome) => {
            state.latency = Some(outcome.latency);
            state.consecutive_successes = saturating_inc_exec(state.consecutive_successes);
            state.consecutive_failures = 0;
            state.last_error = None;
            if state.status != HostStatus::Up && state.consecutive_successes >= config.success_threshold {
                return transition_to(
                    host,
                    state,
                    HostStatus::Up,
                    checked_at,
                    Some(outcome.latency),
                    None,
                    backend,
                    "success threshold reached",
                );
            }
        },
        Err(failure) => {
            state.latency = None;
            state.consecutive_failures = saturating_inc_exec(state.consecutive_failures);
            state.consecutive_successes = 0;
            let message = owned(failure.message.as_str());
            state.last_error = Some(failure.message);
            if state.status != HostStatus::Down && state.consecutive_failures >= config.failure_threshold {
                return transition_to(
                    host,
                    state,
                    HostStatus::Down,
                    checked_at,
                    None,
                    Some(message),
                    backend,
                    "failure threshold reached",
                );
            }
        },
    }
    None
}

/// The state after the probes `checks`, each a check time and its result,
/// are applied in order to `s`.
pub open spec fn state_after_checks(
    s: HostRuntimeState,
    success_threshold: u32,
    failure_threshold: u32,
    checks: Seq<(i64, Result<PingOutcome, CheckFailure>)>,
) -> HostRuntimeState
    decreases checks.len(),
{
    if checks.len() == 0 {
        s
    } else {
        state_after_check(
            state_after_checks(s, success_threshold, failure_threshold, checks.drop_last()),
            success_threshold,
            failure_threshold,
            checks.last().0,
            checks.last().1,
        )
    }
}

/// From any state, `failure_threshold` or more failed probes in a row leave
/// the host down; the failure count is then at least the number of those
/// probes, up to the counter's maximum.
pub proof fn lemma_failures_bring_down(
    s: HostRuntimeState,
    success_threshold: u32,
    failure_threshold: u32,
    checks: Seq<(i64, Result<PingOutcome, CheckFailure>)>,
)
    requires
        1 <= failure_threshold,
        forall|i: int| 0 <= i < checks.len() ==> (#[trigger] checks[i]).1 is Err,
    ensures
        ({
            let after = state_after_checks(s, success_threshold, failure_threshold, checks);
            &&& checks.len() >= 1 ==> after.consecutive_failures >= checks.len() || after.consecutive_failures
                == u32::MAX
            &&& checks.len() >= failure_threshold ==> after.status == HostStatus::Down
        }),
    decreases checks.len(),
{
    if checks.len() > 0 {
        let rest = checks.drop_last();
        assert forall|i: int| 0 <= i < rest.len() implies (#[trigger] rest[i]).1 is Err by {
            assert(rest[i] == checks[i]);
        }
        lemma_failures_bring_down(s, success_threshold, failure_threshold, rest);
        assert(checks.last() == checks[checks.len() - 1]);
    }
}

/// From any state, `success_threshold` or more successful probes in a row
/// leave the host up; the success count is then at least the number of
/// those probes, up to the counter's maximum.
pub proof fn lemma_successes_bring_up(
    s: HostRuntimeState,
    success_threshold: u32,
    failure_threshold: u32,
    checks: Seq<(i64, Result<PingOutcome, CheckFailure>)>,
)
    requires
        1 <= success_threshold,
        forall|i: int| 0 <= i < checks.len() ==> (#[trigger] checks[i]).1 is Ok,
    ensures
        ({
            let after = state_after_checks(s, success_threshold, failure_threshold, checks);
            &&& checks.len() >= 1 ==> after.consecutive_successes >= checks.len() || after.consecutive_successes
                == u32::MAX
            &&& checks.len() >= success_threshold ==> after.status == HostStatus::Up
        }),
    decreases checks.len(),
{
    if checks.len() > 0 {
        let rest = checks.drop_last();
        assert forall|i: int| 0 <= i < rest.len() implies (#[trigger] rest[i]).1 is Ok by {
            assert(rest[i] == checks[i]);
        }
        lemma_successes_bring_up(s, success_threshold, failure_threshold, rest);
        assert(checks.last() == checks[checks.len() - 1]);
    }
}

/// A probe result never moves the host away from the status it leads to:
/// a success leaves an up host up, a failure leaves a down host down; and a
/// success never brings a host down, nor a failure up.
pub proof fn lemma_check_keeps_direction(
    s: HostRuntimeState,
    success_threshold: u32,
    failure_threshold: u32,
    at: i64,
    result: Result<PingOutcome, CheckFailure>,
)
    ensures
        ({
            let after = state_after_check(s, success_threshold, failure_threshold, at, result);
            &&& result is Ok ==> after.status == s.status || after.status == HostStatus::Up
            &&& result is Err ==> after.status == s.status || after.status == HostStatus::Down
            &&& result is Ok && s.status == HostStatus::Up ==> after.status == HostStatus::Up
            &&& result is Err && s.status == HostStatus::Down ==> after.status == HostStatus::Down
        }),
{
}

/// A probe resets the opposite count: after a failure no success is counted
/// in a row, after a success no failure is; the count of the result's own
/// kind goes up by one (up to the counter's maximum).
pub proof fn lemma_check_resets_other_count(
    s: HostRuntimeState,
    success_threshold: u32,
    failure_threshold: u32,
    at: i64,
    result: Result<PingOutcome, CheckFailure>,
)
    ensures
        ({
            let after = state_after_check(s, success_threshold, failure_threshold, at, result);
            &&& result is Err ==> after.consecutive_successes == 0
            &&& result is Ok ==> after.consecutive_failures == 0
            &&& result is Err && s.consecutive_failures < u32::MAX ==> after.consecutive_failures
                == s.consecutive_failures + 1
            &&& result is Ok && s.consecutive_successes < u32::MAX ==> after.consecutive_successes
                == s.consecutive_successes + 1
        }),
{
}

/// The success threshold counts only successes in a row: when the probe at
/// index `i` failed and every later one succeeded, the success count is the
/// number of those later probes, and the host is up at the end only if it
/// already was right after that failure or those successes reached the
/// threshold.
pub proof fn lemma_successes_since_failure(
    s: HostRuntimeState,
    success_threshold: u32,
    failure_threshold: u32,
    checks: Seq<(i64, Result<PingOutcome, CheckFailure>)>,
    i: int,
)
    requires
        0 <= i < checks.len(),
        checks[i].1 is Err,
        forall|j: int| i < j < checks.len() ==> (#[trigger] checks[j]).1 is Ok,
        checks.len() - 1 - i < u32::MAX,
    ensures
        ({
            let after = state_after_checks(s, success_threshold, failure_threshold, checks);
            let at_failure = state_after_checks(s, success_threshold, failure_threshold, checks.take(i + 1));
            &&& after.consecutive_successes == checks.len() - 1 - i
            &&& after.status == HostStatus::Up ==> at_failure.status == HostStatus::Up || checks.len() - 1 - i
                >= success_threshold
        }),
    decreases checks.len(),
{
    if checks.len() == i + 1 {
        assert(checks.take(i + 1) =~= checks);
        assert(checks.last() == checks[i]);
    } else {
        let rest = checks.drop_last();
        assert forall|j: int| i < j < rest.len() implies (#[trigger] rest[j]).1 is Ok by {
            assert(rest[j] == checks[j]);
        }
        assert(rest[i] == checks[i]);
        lemma_successes_since_failure(s, success_threshold, failure_threshold, rest, i);
        assert(rest.take(i + 1) =~= checks.take(i + 1));
        assert(checks.last() == checks[checks.len() - 1]);
    }
}

} // verus!
