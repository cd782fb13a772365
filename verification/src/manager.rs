//! The monitor manager's decisions: what a configuration reload or a
//! monitor's exit leads to. The process runs the loop and performs the
//! actions.
use crate::config::{AppConfig, BindAddress, ModuleConfigs};
use crate::domain::api_token::ApiToken;
use crate::domain::host::Host;
use crate::modules::{module_globally_enabled, module_has_enabled_host, ModuleKind};
use crate::text::concat2;
use vstd::prelude::*;

verus! {

/// Whether the ICMP monitor (and so a ping backend) is needed: the module is
/// on globally and for at least one host.
pub fn icmp_monitor_needed(config: &AppConfig) -> (r: bool)
    ensures
        r == (module_globally_enabled(ModuleKind::Icmp, config.modules) && module_has_enabled_host(
            ModuleKind::Icmp,
            config.hosts@,
        )),
{
    ModuleKind::Icmp.runs_monitor(config)
}

/// Settings a reload cannot change while the process runs; each flag says
/// the reloaded file changed it, so it is ignored until restart.
#[derive(Clone, Copy, Debug, PartialEq, Eq, Structural)]
pub struct RestartOnlyChanges {
    pub bind: bool,
    pub database_path: bool,
    pub api_workers: bool,
}

/// Which restart-only settings differ between the running and the reloaded
/// configuration.
pub fn restart_only_changes(current: &AppConfig, next: &AppConfig) -> (r: RestartOnlyChanges)
    ensures
        r.bind == (current.bind != next.bind),
        r.database_path == !paths_equal(current.database_path@, next.database_path@),
        r.api_workers == (current.api_workers != next.api_workers),
{
    let bind_changed = !(current.bind.port == next.bind.port && same_ip(current.bind, next.bind)
        && current.bind.flowinfo == next.bind.flowinfo && current.bind.scope_id == next.bind.scope_id);
    let workers_changed = match (current.api_workers, next.api_workers) {
        (Some(a), Some(b)) => a != b,
        (None, None) => false,
        _ => true,
    };
    RestartOnlyChanges {
        bind: bind_changed,
        database_path: !same_path(current.database_path.as_str(), next.database_path.as_str()),
        api_workers: workers_changed,
    }
}

/// Whether two path texts name the same path as `std::path::Path`'s `==`
/// compares them: component by component, so `a/b/` and `a/b` are one path.
pub uninterp spec fn paths_equal(a: Seq<char>, b: Seq<char>) -> bool;

/// Compares two paths with `std::path::Path`'s `==`. Trusted: the result is
/// named; that equal texts are equal paths is all that is stated of it.
#[verifier::external_body]
fn same_path(a: &str, b: &str) -> (r: bool)
    ensures
        r == paths_equal(a@, b@),
        a@ == b@ ==> r,
{
    std::path::Path::new(a) == std::path::Path::new(b)
}

fn same_ip(a: BindAddress, b: BindAddress) -> (r: bool)
    ensures
        r == (a.ip == b.ip),
{
    match (a.ip, b.ip) {
        (crate::domain::icmp::IpAddress::V4(x), crate::domain::icmp::IpAddress::V4(y)) => x == y,
        (crate::domain::icmp::IpAddress::V6(x), crate::domain::icmp::IpAddress::V6(y)) => x == y,
        _ => false,
    }
}

/// What happened to the manager.
#[derive(Debug)]
pub enum ManagerEvent {
    /// The configuration file was reloaded and applied.
    Reloaded,
    /// Reloading the configuration failed; the message says why.
    ReloadFailed(String),
    /// A monitor of some generation stopped.
    MonitorExited { generation: u64, kind: String },
}

/// What the manager does next.
#[derive(Debug)]
pub enum ManagerAction {
    /// Stop the running monitors and start those of this generation.
    Respawn { generation: u64 },
    /// Keep running as before, reporting the failed reload.
    KeepCurrent { error: String },
    /// An old monitor ended after a reload: nothing to do.
    Ignore,
    /// A monitor of the running generation ended: stop with this error.
    Stop { error: String },
}

/// The manager's state: the generation of the running monitors.
#[derive(Clone, Copy, Debug, PartialEq, Eq, Structural)]
pub struct ManagerState {
    pub generation: u64,
}

/// Reacts to one event. A reload starts the next generation; a failed
/// reload keeps everything; a monitor of an older generation ending is
/// ignored, while one of the running generation ending stops the manager.
pub fn manager_step(state: ManagerState, event: ManagerEvent) -> (r: (ManagerState, ManagerAction))
    requires
        event is Reloaded ==> state.generation < u64::MAX,
    ensures
        generation_after_event(state.generation as int, event) matches Some(g) ==> r.0.generation == g,
        generation_after_event(state.generation as int, event) is None ==> r.1 is Stop,
        match event {
            ManagerEvent::Reloaded => r.0.generation == state.generation + 1 && r.1 == ManagerAction::Respawn {
                generation: r.0.generation,
            },
            ManagerEvent::ReloadFailed(e) => r.0 == state && (r.1 matches ManagerAction::KeepCurrent { error }
                && error@ == e@),
            ManagerEvent::MonitorExited { generation, kind } => r.0 == state && if generation
                == state.generation {
                r.1 matches ManagerAction::Stop { error } && error@ == kind@ + " monitor exited"@
            } else {
                r.1 == ManagerAction::Ignore
            },
        },
{
    match event {
        ManagerEvent::Reloaded => {
            let next = ManagerState { generation: state.generation + 1 };
            (next, ManagerAction::Respawn { generation: next.generation })
        },
        ManagerEvent::ReloadFailed(e) => (state, ManagerAction::KeepCurrent { error: e }),
        ManagerEvent::MonitorExited { generation, kind } => {
            if generation == state.generation {
                (state, ManagerAction::Stop { error: concat2(kind.as_str(), " monitor exited") })
            } else {
                (state, ManagerAction::Ignore)
            }
        },
    }
}

/// The generation running after an event, or `None` when the manager
/// stops: a reload moves to the next generation, a failed reload or the
/// exit of an older monitor keeps it, the exit of a running monitor stops.
pub open spec fn generation_after_event(generation: int, event: ManagerEvent) -> Option<int> {
    match event {
        ManagerEvent::Reloaded => Some(generation + 1),
        ManagerEvent::ReloadFailed(_) => Some(generation),
        ManagerEvent::MonitorExited { generation: g, .. } => if g == generation {
            None
        } else {
            Some(generation)
        },
    }
}

/// The generation running after a run of events, or `None` when the
/// manager stopped on the way.
pub open spec fn generation_after_run(generation: int, events: Seq<ManagerEvent>) -> Option<int>
    decreases events.len(),
{
    if events.len() == 0 {
        Some(generation)
    } else {
        match generation_after_event(generation, events[0]) {
            Some(g) => generation_after_run(g, events.drop_first()),
            None => None,
        }
    }
}

/// How many reloads succeeded in a run of events.
pub open spec fn reload_count(events: Seq<ManagerEvent>) -> nat
    decreases events.len(),
{
    if events.len() == 0 {
        0
    } else {
        (if events[0] is Reloaded { 1nat } else { 0nat }) + reload_count(events.drop_first())
    }
}

/// Over a run of reloads, failed reloads and exits of monitors older than
/// the running generation, the manager keeps running and ends on the
/// starting generation plus the number of successful reloads: a failed
/// reload changes nothing, and an old monitor ending never stops it.
pub proof fn lemma_manager_run(generation: int, events: Seq<ManagerEvent>)
    requires
        forall|i: int|
            0 <= i < events.len() ==> (#[trigger] events[i] matches ManagerEvent::MonitorExited { generation: g, .. }
                ==> g < generation),
    ensures
        generation_after_run(generation, events) == Some(generation + reload_count(events)),
    decreases events.len(),
{
    if events.len() > 0 {
        let rest = events.drop_first();
        let next = generation_after_event(generation, events[0]);
        let g = next->0;
        assert forall|i: int|
            0 <= i < rest.len() implies (#[trigger] rest[i] matches ManagerEvent::MonitorExited { generation: h, .. }
                ==> h < g) by {
            assert(rest[i] == events[i + 1]);
        }
        lemma_manager_run(g, rest);
    }
}

/// What a successful reload puts in effect while the process runs: the
/// hosts, the API token, the module settings and the usage sample retention
/// they carry. The bind address, database path and API worker count are not
/// among them: they wait for a restart.
pub struct ReloadEffects {
    pub hosts: Vec<Host>,
    pub api_token: Option<ApiToken>,
    pub modules: ModuleConfigs,
    pub sample_retention: u128,
}

/// Takes what a reload puts in effect out of the reloaded configuration.
pub fn reload_effects(config: AppConfig) -> (r: ReloadEffects)
    ensures
        r.hosts@ == config.hosts@,
        r.api_token == config.api_token,
        r.modules == config.modules,
        r.sample_retention == config.modules.usage.sample_retention,
{
    let retention = config.modules.usage.sample_retention;
    ReloadEffects {
        hosts: config.hosts,
        api_token: config.api_token,
        modules: config.modules,
        sample_retention: retention,
    }
}

/// The shared state a running process serves from: the hosts, the API
/// token, the module settings and sample retention in effect, and the
/// generation of the running monitors.
pub struct SharedState {
    pub hosts: Seq<Host>,
    pub api_token: Option<ApiToken>,
    pub modules: ModuleConfigs,
    pub sample_retention: u128,
    pub generation: int,
}

/// The shared state after one reload attempt: a failed one (`None`)
/// changes nothing; a successful one puts the configuration's reload
/// effects in place and moves to the next generation.
pub open spec fn after_reload(s: SharedState, outcome: Option<AppConfig>) -> SharedState {
    match outcome {
        None => s,
        Some(c) => SharedState {
            hosts: c.hosts@,
            api_token: c.api_token,
            modules: c.modules,
            sample_retention: c.modules.usage.sample_retention,
            generation: s.generation + 1,
        },
    }
}

/// The shared state after a run of reload attempts.
pub open spec fn after_reloads(s: SharedState, outcomes: Seq<Option<AppConfig>>) -> SharedState
    decreases outcomes.len(),
{
    if outcomes.len() == 0 {
        s
    } else {
        after_reloads(after_reload(s, outcomes[0]), outcomes.drop_first())
    }
}

/// How many reload attempts of a run succeeded.
pub open spec fn successes(outcomes: Seq<Option<AppConfig>>) -> nat
    decreases outcomes.len(),
{
    if outcomes.len() == 0 {
        0
    } else {
        (if outcomes[0] is Some { 1nat } else { 0nat }) + successes(outcomes.drop_first())
    }
}

/// Over any run of reload attempts: when none succeeds the shared state is
/// unchanged; otherwise the hosts, token, module settings and retention are
/// those of the last successful reload, and the generation has moved on by
/// the number of successful reloads.
pub proof fn lemma_reload_run(s: SharedState, outcomes: Seq<Option<AppConfig>>)
    ensures
        after_reloads(s, outcomes).generation == s.generation + successes(outcomes),
        successes(outcomes) == 0 ==> after_reloads(s, outcomes) == s,
        forall|i: int|
            0 <= i < outcomes.len() && #[trigger] outcomes[i] is Some && (forall|k: int|
                i < k < outcomes.len() ==> outcomes[k] is None) ==> ({
                let c = outcomes[i]->0;
                let t = after_reloads(s, outcomes);
                &&& t.hosts == c.hosts@
                &&& t.api_token == c.api_token
                &&& t.modules == c.modules
                &&& t.sample_retention == c.modules.usage.sample_retention
            }),
    decreases outcomes.len(),
{
    if outcomes.len() > 0 {
        let first = after_reload(s, outcomes[0]);
        let rest = outcomes.drop_first();
        lemma_reload_run(first, rest);
        assert forall|i: int|
            0 <= i < outcomes.len() && #[trigger] outcomes[i] is Some && (forall|k: int|
                i < k < outcomes.len() ==> outcomes[k] is None) implies ({
            let c = outcomes[i]->0;
            let t = after_reloads(s, outcomes);
            &&& t.hosts == c.hosts@
            &&& t.api_token == c.api_token
            &&& t.modules == c.modules
            &&& t.sample_retention == c.modules.usage.sample_retention
        }) by {
            if i > 0 {
                assert(rest[i - 1] == outcomes[i]);
                assert forall|k: int| i - 1 < k < rest.len() implies rest[k] is None by {
                    assert(rest[k] == outcomes[k + 1]);
                }
            } else {
                lemma_failed_reloads_keep(first, rest);
                assert forall|k: int| 0 <= k < rest.len() implies rest[k] is None by {
                    assert(rest[k] == outcomes[k + 1]);
                }
            }
        }
    }
}

proof fn lemma_failed_reloads_keep(s: SharedState, outcomes: Seq<Option<AppConfig>>)
    ensures
        (forall|k: int| 0 <= k < outcomes.len() ==> #[trigger] outcomes[k] is None) ==> after_reloads(s, outcomes)
            == s,
    decreases outcomes.len(),
{
    if outcomes.len() > 0 {
        let rest = outcomes.drop_first();
        if forall|k: int| 0 <= k < outcomes.len() ==> #[trigger] outcomes[k] is None {
            assert(outcomes[0] is None);
            assert forall|k: int| 0 <= k < rest.len() implies #[trigger] rest[k] is None by {
                assert(rest[k] == outcomes[k + 1]);
            }
        }
        lemma_failed_reloads_keep(after_reload(s, outcomes[0]), rest);
    }
}

} // verus!
