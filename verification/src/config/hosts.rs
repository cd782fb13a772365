//! Building each configured host: its module overrides, its groups, and the
//! settings that apply to it.
use crate::config::checks::{
    invalid_id_message, is_valid_id, short_duration_message, validate_duration, validate_id, MIN_DURATION,
};
use crate::config::validate::{first_error, named_settings_view};
use crate::config::{ModuleConfigs, ModuleScope, RawHost, UsageGroupConfig};
use crate::domain::api_token::{is_blank_str, is_blank_text};
use crate::domain::host::{Host, HostModuleConfig};
use crate::modules::icmp::{resolve_icmp_host, IcmpHostConfig, ResolvedIcmpHostConfig};
use crate::modules::usage::{resolve_usage_host, ResolvedUsageHostConfig, UsageHostConfig};
use crate::names::{insert_name, lemma_sorted_names_of, name_views, names_sorted, sorted_names_of};
use crate::text::{concat3, debug_quoted, quote, str_eq};
use vstd::prelude::*;

verus! {

/// The overrides of a host that has no `[hosts.modules]` table.
pub open spec fn no_host_modules() -> (IcmpHostConfig, UsageHostConfig) {
    (
        IcmpHostConfig { enabled: None, interval: None, timeout: None },
        UsageHostConfig {
            enabled: None,
            os: None,
            ssh_verify_host_key: None,
            interval: None,
            timeout: None,
            linux_min_uid: None,
            macos_min_uid: None,
        },
    )
}

/// One table of `[hosts.modules]` of the host `host_id`, read over `acc`.
pub open spec fn apply_host_module(
    host_id: Seq<char>,
    acc: (IcmpHostConfig, UsageHostConfig),
    entry: (String, ModuleScope),
) -> Result<(IcmpHostConfig, UsageHostConfig), Seq<char>> {
    let id = entry.0@;
    if id == "icmp"@ {
        match entry.1.as_icmp_host {
            Ok(c) => Ok((c, acc.1)),
            Err(e) => Err("hosts."@ + host_id + ".modules.icmp: "@ + e@),
        }
    } else if id == "usage"@ {
        match entry.1.as_usage_host {
            Ok(c) => Ok((acc.0, c)),
            Err(e) => Err("hosts."@ + host_id + ".modules.usage: "@ + e@),
        }
    } else {
        Err(
            "host "@ + debug_quoted(host_id) + ": unknown module "@ + debug_quoted(id)
                + "; valid modules: icmp, usage"@,
        )
    }
}

/// The host's overrides after its module tables from index `i` on.
pub open spec fn host_modules_from(
    host_id: Seq<char>,
    entries: Seq<(String, ModuleScope)>,
    i: int,
    acc: (IcmpHostConfig, UsageHostConfig),
) -> Result<(IcmpHostConfig, UsageHostConfig), Seq<char>>
    decreases entries.len() - i,
{
    if i < 0 || i >= entries.len() {
        Ok(acc)
    } else {
        match apply_host_module(host_id, acc, entries[i]) {
            Ok(next) => host_modules_from(host_id, entries, i + 1, next),
            Err(e) => Err(e),
        }
    }
}

fn apply_host_module_exec(host_id: &str, acc: (IcmpHostConfig, UsageHostConfig), entry: &(String, ModuleScope)) -> (r:
    Result<(IcmpHostConfig, UsageHostConfig), String>)
    ensures
        match r {
            Ok(c) => apply_host_module(host_id@, acc, *entry) == Ok::<
                (IcmpHostConfig, UsageHostConfig),
                Seq<char>,
            >(c),
            Err(e) => apply_host_module(host_id@, acc, *entry) == Err::<
                (IcmpHostConfig, UsageHostConfig),
                Seq<char>,
            >(e@),
        },
{
    let id = entry.0.as_str();
    if str_eq(id, "icmp") {
        match &entry.1.as_icmp_host {
            Ok(c) => Ok((*c, acc.1)),
            Err(e) => {
                let mut m = concat3("hosts.", host_id, ".modules.icmp: ");
                m.append(e.as_str());
                Err(m)
            },
        }
    } else if str_eq(id, "usage") {
        match &entry.1.as_usage_host {
            Ok(c) => Ok((acc.0, *c)),
            Err(e) => {
                let mut m = concat3("hosts.", host_id, ".modules.usage: ");
                m.append(e.as_str());
                Err(m)
            },
        }
    } else {
        let qh = quote(host_id);
        let qi = quote(id);
        let mut m = concat3("host ", qh.as_str(), ": unknown module ");
        m.append(qi.as_str());
        m.append("; valid modules: icmp, usage");
        Err(m)
    }
}

/// Reads the `[hosts.modules]` tables of the host `host_id`.
pub fn parse_host_modules(host_id: &str, entries: &Vec<(String, ModuleScope)>) -> (r: Result<
    (IcmpHostConfig, UsageHostConfig),
    String,
>)
    ensures
        match r {
            Ok(c) => host_modules_from(host_id@, entries@, 0, no_host_modules()) == Ok::<
                (IcmpHostConfig, UsageHostConfig),
                Seq<char>,
            >(c),
            Err(e) => host_modules_from(host_id@, entries@, 0, no_host_modules()) == Err::<
                (IcmpHostConfig, UsageHostConfig),
                Seq<char>,
            >(e@),
        },
{
    let mut acc = (IcmpHostConfig::empty(), UsageHostConfig::empty());
    let mut i: usize = 0;
    let ghost mut n: int = 0;
    while i < entries.len()
        invariant
            n == i,
            0 <= i <= entries@.len(),
            host_modules_from(host_id@, entries@, 0, no_host_modules()) == host_modules_from(
                host_id@,
                entries@,
                n,
                acc,
            ),
        decreases entries.len() - i,
    {
        acc = apply_host_module_exec(host_id, acc, &entries[i])?;
        i += 1;
        proof {
            n = n + 1;
        }
    }
    Ok(acc)
}

/// Whether the root group `[groups]` entry `name` lists the host `id`.
pub open spec fn in_root_group(groups: Seq<(String, Vec<String>)>, id: Seq<char>, name: Seq<char>) -> bool {
    exists|j: int| 0 <= j < groups.len() && #[trigger] groups[j].0@ == name && name_views(groups[j].1@).contains(id)
}

/// The groups of a host: those it lists and the root groups that list it.
pub open spec fn host_group_set(own: Seq<String>, id: Seq<char>, groups: Seq<(String, Vec<String>)>) -> Set<
    Seq<char>,
> {
    Set::new(|x: Seq<char>| name_views(own).contains(x) || in_root_group(groups, id, x))
}

/// A host's groups, sorted and each once.
pub open spec fn host_groups(own: Seq<String>, id: Seq<char>, groups: Seq<(String, Vec<String>)>) -> Seq<Seq<char>> {
    sorted_names_of(host_group_set(own, id, groups))
}

/// Whether `name` is among `v`.
pub fn names_contain(v: &Vec<String>, name: &str) -> (r: bool)
    ensures
        r == name_views(v@).contains(name@),
{
    let mut k: usize = 0;
    while k < v.len()
        invariant
            0 <= k <= v@.len(),
            forall|j: int| 0 <= j < k ==> #[trigger] v@[j]@ != name@,
        decreases v.len() - k,
    {
        if str_eq(v[k].as_str(), name) {
            assert(name_views(v@)[k as int] == name@);
            return true;
        }
        k += 1;
    }
    proof {
        if name_views(v@).contains(name@) {
            let j = choose|j: int| 0 <= j < name_views(v@).len() && name_views(v@)[j] == name@;
            assert(v@[j]@ == name@);
        }
    }
    false
}

/// The groups of the host `id` that lists `own`, sorted and each once.
pub fn collect_host_groups(own: &Vec<String>, id: &str, groups: &Vec<(String, Vec<String>)>) -> (r: Vec<String>)
    ensures
        name_views(r@) == host_groups(own@, id@, groups@),
        names_sorted(name_views(r@)),
{
    let mut names: Vec<String> = Vec::new();
    assert(name_views(names@) =~= Seq::empty());
    let mut i: usize = 0;
    while i < own.len()
        invariant
            0 <= i <= own@.len(),
            names_sorted(name_views(names@)),
            forall|x: Seq<char>| #[trigger]
                name_views(names@).contains(x) <==> exists|k: int| 0 <= k < i && own@[k]@ == x,
        decreases own.len() - i,
    {
        insert_name(&mut names, own[i].as_str());
        proof {
            assert forall|x: Seq<char>| #[trigger] name_views(names@).contains(x) <==> exists|k: int|
                0 <= k < i + 1 && own@[k]@ == x by {
                if x == own@[i as int]@ {
                    assert(0 <= i < i + 1 && own@[i as int]@ == x);
                }
            }
        }
        i += 1;
    }
    let mut j: usize = 0;
    while j < groups.len()
        invariant
            0 <= j <= groups@.len(),
            names_sorted(name_views(names@)),
            forall|x: Seq<char>| #[trigger]
                name_views(names@).contains(x) <==> ((exists|k: int| 0 <= k < own@.len() && own@[k]@ == x)
                    || exists|g: int|
                    0 <= g < j && #[trigger] groups@[g].0@ == x && name_views(groups@[g].1@).contains(id@)),
        decreases groups.len() - j,
    {
        if names_contain(&groups[j].1, id) {
            insert_name(&mut names, groups[j].0.as_str());
            proof {
                assert forall|x: Seq<char>| #[trigger] name_views(names@).contains(x) <==> ((exists|k: int|
                    0 <= k < own@.len() && own@[k]@ == x) || exists|g: int|
                    0 <= g < j + 1 && #[trigger] groups@[g].0@ == x && name_views(groups@[g].1@).contains(
                        id@,
                    )) by {
                    if x == groups@[j as int].0@ {
                        assert(0 <= j < j + 1 && groups@[j as int].0@ == x);
                    }
                }
            }
        }
        j += 1;
    }
    proof {
        let set = host_group_set(own@, id@, groups@);
        assert forall|x: Seq<char>| #[trigger] name_views(names@).contains(x) <==> set.contains(x) by {
            if name_views(own@).contains(x) {
                let k = choose|k: int| 0 <= k < name_views(own@).len() && name_views(own@)[k] == x;
                assert(own@[k]@ == x);
            }
            if exists|k: int| 0 <= k < own@.len() && own@[k]@ == x {
                let k = choose|k: int| 0 <= k < own@.len() && own@[k]@ == x;
                assert(name_views(own@)[k] == x);
            }
        }
        lemma_sorted_names_of(name_views(names@), set);
    }
    names
}

/// The settings of the group `name`: those of its first table.
pub open spec fn group_setting(settings: Seq<(Seq<char>, UsageGroupConfig)>, name: Seq<char>) -> Option<
    UsageGroupConfig,
>
    decreases settings.len(),
{
    if settings.len() == 0 {
        None
    } else if settings[0].0 == name {
        Some(settings[0].1)
    } else {
        group_setting(settings.drop_first(), name)
    }
}

/// The host key setting that the group `gs[k]` gives, if any.
pub open spec fn group_verify_at(settings: Seq<(Seq<char>, UsageGroupConfig)>, gs: Seq<Seq<char>>, k: int) -> Option<
    bool,
> {
    match group_setting(settings, gs[k]) {
        Some(c) => c.ssh_verify_host_key,
        None => None,
    }
}

/// What a host's groups say of host key checking: nothing when none of them
/// gives a value, else whether every one that gives a value says yes.
pub open spec fn groups_ssh_verify_host_key(settings: Seq<(Seq<char>, UsageGroupConfig)>, gs: Seq<Seq<char>>) -> Option<
    bool,
> {
    if exists|k: int| 0 <= k < gs.len() && #[trigger] group_verify_at(settings, gs, k) is Some {
        Some(
            forall|k: int|
                0 <= k < gs.len() && #[trigger] group_verify_at(settings, gs, k) is Some ==> group_verify_at(
                    settings,
                    gs,
                    k,
                ) == Some(true),
        )
    } else {
        None
    }
}

/// Looks up the settings of the group `name`.
pub fn find_group_setting(settings: &Vec<(String, UsageGroupConfig)>, name: &str) -> (r: Option<UsageGroupConfig>)
    ensures
        r == group_setting(named_settings_view(settings@), name@),
{
    let ghost view = named_settings_view(settings@);
    let mut k: usize = 0;
    assert(view.skip(0) =~= view);
    while k < settings.len()
        invariant
            0 <= k <= settings@.len(),
            view == named_settings_view(settings@),
            group_setting(view, name@) == group_setting(view.skip(k as int), name@),
        decreases settings.len() - k,
    {
        assert(view.skip(k as int).drop_first() =~= view.skip(k + 1));
        if str_eq(settings[k].0.as_str(), name) {
            return Some(settings[k].1);
        }
        k += 1;
    }
    assert(view.skip(k as int).len() == 0);
    None
}

/// Combines the host key settings of a host's groups.
pub fn group_settings_usage_ssh_verify_host_key(settings: &Vec<(String, UsageGroupConfig)>, gs: &Vec<String>) -> (r:
    Option<bool>)
    ensures
        r == groups_ssh_verify_host_key(named_settings_view(settings@), name_views(gs@)),
{
    let ghost view = named_settings_view(settings@);
    let ghost names = name_views(gs@);
    let mut configured: Option<bool> = None;
    let mut i: usize = 0;
    while i < gs.len()
        invariant
            0 <= i <= gs@.len(),
            view == named_settings_view(settings@),
            names == name_views(gs@),
            configured == (if exists|k: int| 0 <= k < i && #[trigger] group_verify_at(view, names, k) is Some {
                Some(
                    forall|k: int|
                        0 <= k < i && #[trigger] group_verify_at(view, names, k) is Some ==> group_verify_at(
                            view,
                            names,
                            k,
                        ) == Some(true),
                )
            } else {
                None
            }),
        decreases gs.len() - i,
    {
        let found = find_group_setting(settings, gs[i].as_str());
        assert(group_verify_at(view, names, i as int) == match found {
            Some(c) => c.ssh_verify_host_key,
            None => None,
        });
        if let Some(c) = found {
            if let Some(v) = c.ssh_verify_host_key {
                let so_far = match configured {
                    Some(b) => b,
                    None => true,
                };
                configured = Some(so_far && v);
            }
        }
        i += 1;
    }
    configured
}

/// The check of the name of a host's group `gs[k]`.
pub open spec fn group_name_error(gs: Seq<Seq<char>>, k: int) -> Option<Seq<char>> {
    if !is_valid_id(gs[k]) {
        Some(invalid_id_message("group"@, gs[k]))
    } else {
        None
    }
}

pub open spec fn group_name_check(gs: Seq<Seq<char>>) -> spec_fn(int) -> Option<Seq<char>> {
    |k: int| group_name_error(gs, k)
}

/// The first invalid name among a host's groups.
pub open spec fn group_names_error(gs: Seq<Seq<char>>) -> Option<Seq<char>> {
    first_error(0, gs.len() as int, group_name_check(gs))
}

/// Checks the names of a host's groups, in their order.
pub fn validate_group_names(gs: &Vec<String>) -> (r: Result<(), String>)
    ensures
        match r {
            Ok(_) => group_names_error(name_views(gs@)) is None,
            Err(e) => group_names_error(name_views(gs@)) == Some(e@),
        },
{
    let ghost names = name_views(gs@);
    let mut i: usize = 0;
    while i < gs.len()
        invariant
            0 <= i <= gs@.len(),
            names == name_views(gs@),
            group_names_error(names) == first_error(i as int, names.len() as int, group_name_check(names)),
        decreases gs.len() - i,
    {
        validate_id("group", gs[i].as_str())?;
        i += 1;
    }
    Ok(())
}

/// The first error of a host's resolved settings: a module enabled for the
/// host but not globally, or a too short interval or timeout.
pub open spec fn host_settings_error(
    id: Seq<char>,
    m: ModuleConfigs,
    icmp: ResolvedIcmpHostConfig,
    usage: ResolvedUsageHostConfig,
) -> Option<Seq<char>> {
    let q = debug_quoted(id);
    if !m.icmp.enabled && icmp.enabled {
        Some("host "@ + q + ": modules.icmp.enabled requires modules.icmp.enabled = true"@)
    } else if !m.usage.enabled && usage.enabled {
        Some("host "@ + q + ": modules.usage.enabled requires modules.usage.enabled = true"@)
    } else {
        host_durations_error(id, icmp, usage)
    }
}

/// The first too short interval or timeout among a host's resolved module
/// settings.
pub open spec fn host_durations_error(
    id: Seq<char>,
    icmp: ResolvedIcmpHostConfig,
    usage: ResolvedUsageHostConfig,
) -> Option<Seq<char>> {
    let q = debug_quoted(id);
    if icmp.interval < MIN_DURATION {
        Some(short_duration_message("host "@ + q + ": modules.icmp.interval"@))
    } else if icmp.timeout < MIN_DURATION {
        Some(short_duration_message("host "@ + q + ": modules.icmp.timeout"@))
    } else if usage.interval < MIN_DURATION {
        Some(short_duration_message("host "@ + q + ": modules.usage.interval"@))
    } else if usage.timeout < MIN_DURATION {
        Some(short_duration_message("host "@ + q + ": modules.usage.timeout"@))
    } else {
        None
    }
}

/// Checks that a host's intervals and timeouts are at least a millisecond.
pub fn validate_host_module_durations(
    id: &str,
    icmp: &ResolvedIcmpHostConfig,
    usage: &ResolvedUsageHostConfig,
) -> (r: Result<(), String>)
    ensures
        match r {
            Ok(_) => host_durations_error(id@, *icmp, *usage) is None,
            Err(e) => host_durations_error(id@, *icmp, *usage) == Some(e@),
        },
{
    let q = quote(id);
    validate_duration(concat3("host ", q.as_str(), ": modules.icmp.interval").as_str(), icmp.interval)?;
    validate_duration(concat3("host ", q.as_str(), ": modules.icmp.timeout").as_str(), icmp.timeout)?;
    validate_duration(concat3("host ", q.as_str(), ": modules.usage.interval").as_str(), usage.interval)?;
    validate_duration(concat3("host ", q.as_str(), ": modules.usage.timeout").as_str(), usage.timeout)?;
    Ok(())
}

/// Checks a host's resolved settings against the global ones: a module on
/// for the host must be on globally; then the durations.
pub fn check_host_settings(
    id: &str,
    m: &ModuleConfigs,
    icmp: &ResolvedIcmpHostConfig,
    usage: &ResolvedUsageHostConfig,
) -> (r: Result<(), String>)
    ensures
        match r {
            Ok(_) => host_settings_error(id@, *m, *icmp, *usage) is None,
            Err(e) => host_settings_error(id@, *m, *icmp, *usage) == Some(e@),
        },
{
    let q = quote(id);
    if !m.icmp.enabled && icmp.enabled {
        return Err(concat3("host ", q.as_str(), ": modules.icmp.enabled requires modules.icmp.enabled = true"));
    }
    if !m.usage.enabled && usage.enabled {
        return Err(
            concat3("host ", q.as_str(), ": modules.usage.enabled requires modules.usage.enabled = true"),
        );
    }
    validate_host_module_durations(id, icmp, usage)
}

/// The first error of a host, in the order it is checked: its address, its
/// module tables, its groups, then its resolved settings.
pub open spec fn host_error(
    h: RawHost,
    m: ModuleConfigs,
    settings: Seq<(Seq<char>, UsageGroupConfig)>,
    groups: Seq<(String, Vec<String>)>,
) -> Option<Seq<char>> {
    let id = h.id@;
    let q = debug_quoted(id);
    if is_blank_text(h.address@) {
        Some("host "@ + q + " has an empty address"@)
    } else {
        match host_modules_from(id, h.modules@, 0, no_host_modules()) {
            Err(e) => Some(e),
            Ok(p) => {
                let gs = host_groups(h.groups@, id, groups);
                if gs.len() == 0 {
                    Some("host "@ + q + " must be in at least one group"@)
                } else if group_names_error(gs) is Some {
                    group_names_error(gs)
                } else {
                    host_settings_error(
                        id,
                        m,
                        resolve_icmp_host(m.icmp, p.0),
                        resolve_usage_host(m.usage, p.1, groups_ssh_verify_host_key(settings, gs)),
                    )
                }
            },
        }
    }
}

/// `out` is the host that `h` describes under the global settings `m`.
pub open spec fn host_built(
    out: Host,
    h: RawHost,
    m: ModuleConfigs,
    settings: Seq<(Seq<char>, UsageGroupConfig)>,
    groups: Seq<(String, Vec<String>)>,
) -> bool {
    let gs = host_groups(h.groups@, h.id@, groups);
    &&& out.id@ == h.id@
    &&& out.address@ == h.address@
    &&& out.name@ == match h.name {
        Some(n) => n@,
        None => h.id@,
    }
    &&& name_views(out.groups@) == gs
    &&& names_sorted(gs)
    &&& out.metadata == h.metadata
    &&& host_modules_from(h.id@, h.modules@, 0, no_host_modules()) matches Ok(p) && out.modules
        == HostModuleConfig {
        icmp: resolve_icmp_host(m.icmp, p.0),
        usage: resolve_usage_host(m.usage, p.1, groups_ssh_verify_host_key(settings, gs)),
    }
}

/// Builds the host that `h` describes, or gives its first error.
pub fn build_host(
    h: RawHost,
    m: &ModuleConfigs,
    settings: &Vec<(String, UsageGroupConfig)>,
    groups: &Vec<(String, Vec<String>)>,
) -> (r: Result<Host, String>)
    ensures
        match r {
            Ok(out) => host_error(h, *m, named_settings_view(settings@), groups@) is None && host_built(
                out,
                h,
                *m,
                named_settings_view(settings@),
                groups@,
            ),
            Err(e) => host_error(h, *m, named_settings_view(settings@), groups@) == Some(e@),
        },
{
    if is_blank_str(h.address.as_str()) {
        let q = quote(h.id.as_str());
        return Err(concat3("host ", q.as_str(), " has an empty address"));
    }
    let parsed = parse_host_modules(h.id.as_str(), &h.modules)?;
    let gs = collect_host_groups(&h.groups, h.id.as_str(), groups);
    if gs.len() == 0 {
        let q = quote(h.id.as_str());
        return Err(concat3("host ", q.as_str(), " must be in at least one group"));
    }
    validate_group_names(&gs)?;
    let verify = group_settings_usage_ssh_verify_host_key(settings, &gs);
    let icmp = m.icmp.resolve_host(parsed.0);
    let usage = m.usage.resolve_host(parsed.1, verify);
    check_host_settings(h.id.as_str(), m, &icmp, &usage)?;
    let name = match h.name {
        Some(n) => n,
        None => h.id.as_str().to_owned(),
    };
    Ok(
        Host {
            id: h.id,
            address: h.address,
            name,
            groups: gs,
            metadata: h.metadata,
            modules: HostModuleConfig { icmp, usage },
        },
    )
}

} // verus!
