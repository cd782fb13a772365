//! The validation of a configuration document. Each step states the first
//! error it finds, in the order in which the document is read.
use crate::config::checks::{
    invalid_id_message, is_valid_id, short_duration_message, validate_duration, validate_id, MIN_DURATION,
};
use crate::config::hosts::{
    build_host, group_name_check, group_names_error, host_built, host_error, host_groups,
};
use crate::names::{name_views, names_sorted};
use crate::config::{
    default_module_configs, is_loopback, AppConfig, ConfigError, ModuleConfigs, ModuleScope, RawConfig,
    RawGroupSettings, RawHost, UsageGroupConfig,
};
use crate::domain::host::Host;
use crate::domain::api_token::is_blank_text;
use crate::text::{concat2, concat3, debug_quoted, quote, str_eq};
use vstd::prelude::*;

verus! {

/// The first error of the basic settings: the worker count and the host list.
pub open spec fn core_error(raw: RawConfig) -> Option<Seq<char>> {
    if raw.api_workers == Some(0usize) {
        Some("api_workers must be at least 1"@)
    } else if raw.hosts@.len() == 0 {
        Some("at least one host is required"@)
    } else {
        None
    }
}

/// The first error of the authentication settings.
pub open spec fn auth_error(raw: RawConfig) -> Option<Seq<char>> {
    if raw.api_token matches Some(t) && is_blank_text(t@) {
        Some("api_token must not be empty"@)
    } else if !is_loopback(raw.bind.ip) && raw.api_token is None
        && !raw.allow_unauthenticated_non_loopback {
        Some(
            "non-loopback bind requires api_token or allow_unauthenticated_non_loopback = true"@,
        )
    } else {
        None
    }
}

pub fn validate_core_settings(raw: &RawConfig) -> (r: Result<(), String>)
    ensures
        match r {
            Ok(_) => core_error(*raw) is None,
            Err(m) => core_error(*raw) == Some(m@),
        },
{
    if let Some(w) = raw.api_workers {
        if w == 0 {
            return Err("api_workers must be at least 1".to_owned());
        }
    }
    if raw.hosts.len() == 0 {
        return Err("at least one host is required".to_owned());
    }
    Ok(())
}

pub fn validate_auth_settings(raw: &RawConfig) -> (r: Result<(), String>)
    ensures
        match r {
            Ok(_) => auth_error(*raw) is None,
            Err(m) => auth_error(*raw) == Some(m@),
        },
{
    if let Some(t) = &raw.api_token {
        if t.is_blank() {
            return Err("api_token must not be empty".to_owned());
        }
    }
    if !raw.bind.ip.is_loopback() && raw.api_token.is_none() && !raw.allow_unauthenticated_non_loopback {
        return Err(
            "non-loopback bind requires api_token or allow_unauthenticated_non_loopback = true".to_owned(),
        );
    }
    Ok(())
}

/// `unknown module <id>; valid modules: icmp, usage`.
pub open spec fn unknown_module_message(id: Seq<char>) -> Seq<char> {
    "unknown module "@ + debug_quoted(id) + "; valid modules: icmp, usage"@
}

/// One `[modules.<id>]` table applied to the global settings.
pub open spec fn apply_global_module(m: ModuleConfigs, entry: (String, ModuleScope)) -> Result<
    ModuleConfigs,
    Seq<char>,
> {
    let id = entry.0@;
    if id == "icmp"@ {
        match entry.1.as_icmp {
            Ok(c) => Ok(ModuleConfigs { icmp: c, usage: m.usage }),
            Err(e) => Err("modules.icmp: "@ + e@),
        }
    } else if id == "usage"@ {
        match entry.1.as_usage {
            Ok(c) => Ok(ModuleConfigs { icmp: m.icmp, usage: c }),
            Err(e) => Err("modules.usage: "@ + e@),
        }
    } else {
        Err(unknown_module_message(id))
    }
}

/// The global settings after the module tables from index `i` on are read
/// over `m`; the first table that fails gives the error.
pub open spec fn global_modules_from(entries: Seq<(String, ModuleScope)>, i: int, m: ModuleConfigs) -> Result<
    ModuleConfigs,
    Seq<char>,
>
    decreases entries.len() - i,
{
    if i < 0 || i >= entries.len() {
        Ok(m)
    } else {
        match apply_global_module(m, entries[i]) {
            Ok(next) => global_modules_from(entries, i + 1, next),
            Err(e) => Err(e),
        }
    }
}

/// The global module settings a document gives.
pub open spec fn global_modules_of(entries: Seq<(String, ModuleScope)>) -> Result<ModuleConfigs, Seq<char>> {
    global_modules_from(entries, 0, default_module_configs())
}

fn apply_global_module_exec(m: ModuleConfigs, entry: &(String, ModuleScope)) -> (r: Result<
    ModuleConfigs,
    String,
>)
    ensures
        match r {
            Ok(c) => apply_global_module(m, *entry) == Ok::<ModuleConfigs, Seq<char>>(c),
            Err(e) => apply_global_module(m, *entry) == Err::<ModuleConfigs, Seq<char>>(e@),
        },
{
    if str_eq(entry.0.as_str(), "icmp") {
        match &entry.1.as_icmp {
            Ok(c) => Ok(ModuleConfigs { icmp: *c, usage: m.usage }),
            Err(e) => Err(concat2("modules.icmp: ", e.as_str())),
        }
    } else if str_eq(entry.0.as_str(), "usage") {
        match &entry.1.as_usage {
            Ok(c) => Ok(ModuleConfigs { icmp: m.icmp, usage: *c }),
            Err(e) => Err(concat2("modules.usage: ", e.as_str())),
        }
    } else {
        let q = quote(entry.0.as_str());
        Err(concat3("unknown module ", q.as_str(), "; valid modules: icmp, usage"))
    }
}

/// Reads the `[modules.*]` tables over the defaults.
pub fn parse_global_modules(entries: &Vec<(String, ModuleScope)>) -> (r: Result<ModuleConfigs, String>)
    ensures
        match r {
            Ok(m) => global_modules_of(entries@) == Ok::<ModuleConfigs, Seq<char>>(m),
            Err(e) => global_modules_of(entries@) == Err::<ModuleConfigs, Seq<char>>(e@),
        },
{
    let mut modules = ModuleConfigs::default_configs();
    let mut i: usize = 0;
    while i < entries.len()
        invariant
            0 <= i <= entries@.len(),
            global_modules_of(entries@) == global_modules_from(entries@, i as int, modules),
        decreases entries.len() - i,
    {
        match apply_global_module_exec(modules, &entries[i]) {
            Ok(m) => modules = m,
            Err(e) => {
                return Err(e);
            },
        }
        i += 1;
    }
    Ok(modules)
}

/// The first error among the checks `f(i)`, ..., `f(n - 1)`, in that order.
pub open spec fn first_error(i: int, n: int, f: spec_fn(int) -> Option<Seq<char>>) -> Option<Seq<char>>
    decreases n - i,
{
    if i >= n {
        None
    } else {
        match f(i) {
            Some(e) => Some(e),
            None => first_error(i + 1, n, f),
        }
    }
}

/// The first error of the global module settings.
pub open spec fn module_config_error(m: ModuleConfigs) -> Option<Seq<char>> {
    if m.icmp.concurrency == 0 {
        Some("modules.icmp.concurrency must be at least 1"@)
    } else if m.icmp.failure_threshold == 0 || m.icmp.success_threshold == 0 {
        Some(
            "modules.icmp.success_threshold and modules.icmp.failure_threshold must be at least 1"@,
        )
    } else if m.icmp.interval < MIN_DURATION {
        Some(short_duration_message("modules.icmp.interval"@))
    } else if m.icmp.timeout < MIN_DURATION {
        Some(short_duration_message("modules.icmp.timeout"@))
    } else if m.usage.concurrency == 0 {
        Some("modules.usage.concurrency must be at least 1"@)
    } else if m.usage.interval < MIN_DURATION {
        Some(short_duration_message("modules.usage.interval"@))
    } else if m.usage.timeout < MIN_DURATION {
        Some(short_duration_message("modules.usage.timeout"@))
    } else if m.usage.sample_retention < MIN_DURATION {
        Some(short_duration_message("modules.usage.sample_retention"@))
    } else {
        None
    }
}

/// Checks the global module settings.
pub fn validate_module_config(m: &ModuleConfigs) -> (r: Result<(), String>)
    ensures
        match r {
            Ok(_) => module_config_error(*m) is None,
            Err(e) => module_config_error(*m) == Some(e@),
        },
{
    if m.icmp.concurrency == 0 {
        return Err("modules.icmp.concurrency must be at least 1".to_owned());
    }
    if m.icmp.failure_threshold == 0 || m.icmp.success_threshold == 0 {
        return Err(
            "modules.icmp.success_threshold and modules.icmp.failure_threshold must be at least 1".to_owned(),
        );
    }
    validate_duration("modules.icmp.interval", m.icmp.interval)?;
    validate_duration("modules.icmp.timeout", m.icmp.timeout)?;
    if m.usage.concurrency == 0 {
        return Err("modules.usage.concurrency must be at least 1".to_owned());
    }
    validate_duration("modules.usage.interval", m.usage.interval)?;
    validate_duration("modules.usage.timeout", m.usage.timeout)?;
    validate_duration("modules.usage.sample_retention", m.usage.sample_retention)?;
    Ok(())
}

/// Whether some host has the id `id`.
pub open spec fn host_id_known(hosts: Seq<RawHost>, id: Seq<char>) -> bool {
    exists|j: int| 0 <= j < hosts.len() && #[trigger] hosts[j].id@ == id
}

/// The check of the id of host `i`: valid, and not the id of an earlier host.
pub open spec fn host_id_error(hosts: Seq<RawHost>, i: int) -> Option<Seq<char>> {
    let id = hosts[i].id@;
    if !is_valid_id(id) {
        Some(invalid_id_message("host id"@, id))
    } else if exists|j: int| 0 <= j < i && #[trigger] hosts[j].id@ == id {
        Some("duplicate host id "@ + debug_quoted(id))
    } else {
        None
    }
}

pub open spec fn host_id_check(hosts: Seq<RawHost>) -> spec_fn(int) -> Option<Seq<char>> {
    |i: int| host_id_error(hosts, i)
}

/// The first error among the host ids.
pub open spec fn host_ids_error(hosts: Seq<RawHost>) -> Option<Seq<char>> {
    first_error(0, hosts.len() as int, host_id_check(hosts))
}

/// Checks that every host id is valid and used once.
pub fn validate_host_ids(hosts: &Vec<RawHost>) -> (r: Result<(), String>)
    ensures
        match r {
            Ok(_) => host_ids_error(hosts@) is None,
            Err(e) => host_ids_error(hosts@) == Some(e@),
        },
{
    let mut i: usize = 0;
    while i < hosts.len()
        invariant
            0 <= i <= hosts@.len(),
            host_ids_error(hosts@) == first_error(i as int, hosts@.len() as int, host_id_check(hosts@)),
        decreases hosts.len() - i,
    {
        let id = hosts[i].id.as_str();
        validate_id("host id", id)?;
        let mut j: usize = 0;
        while j < i
            invariant
                0 <= j <= i < hosts@.len(),
                id@ == hosts@[i as int].id@,
                is_valid_id(id@),
                host_ids_error(hosts@) == first_error(i as int, hosts@.len() as int, host_id_check(hosts@)),
                forall|k: int| 0 <= k < j ==> #[trigger] hosts@[k].id@ != id@,
            decreases i - j,
        {
            if str_eq(hosts[j].id.as_str(), id) {
                let q = quote(id);
                assert(hosts@[j as int].id@ == hosts@[i as int].id@);
                assert(host_id_error(hosts@, i as int) == Some("duplicate host id "@ + q@));
                return Err(concat2("duplicate host id ", q.as_str()));
            }
            j += 1;
        }
        i += 1;
    }
    Ok(())
}

/// The check of member `k` of the group `group`: a valid id of a known host.
pub open spec fn member_error(group: Seq<char>, members: Seq<String>, hosts: Seq<RawHost>, k: int) -> Option<
    Seq<char>,
> {
    let m = members[k]@;
    if !is_valid_id(m) {
        Some(invalid_id_message("host id"@, m))
    } else if !host_id_known(hosts, m) {
        Some("group "@ + debug_quoted(group) + " references unknown host "@ + debug_quoted(m))
    } else {
        None
    }
}

pub open spec fn member_check(group: Seq<char>, members: Seq<String>, hosts: Seq<RawHost>) -> spec_fn(
    int,
) -> Option<Seq<char>> {
    |k: int| member_error(group, members, hosts, k)
}

/// The check of the root group `i`: a valid name, members, each of them valid.
pub open spec fn group_entry_error(groups: Seq<(String, Vec<String>)>, hosts: Seq<RawHost>, i: int) -> Option<
    Seq<char>,
> {
    let g = groups[i].0@;
    let members = groups[i].1@;
    if !is_valid_id(g) {
        Some(invalid_id_message("group"@, g))
    } else if members.len() == 0 {
        Some("group "@ + debug_quoted(g) + " must contain at least one host"@)
    } else {
        first_error(0, members.len() as int, member_check(g, members, hosts))
    }
}

pub open spec fn group_entry_check(groups: Seq<(String, Vec<String>)>, hosts: Seq<RawHost>) -> spec_fn(
    int,
) -> Option<Seq<char>> {
    |i: int| group_entry_error(groups, hosts, i)
}

/// The first error among the root `[groups]` table.
pub open spec fn root_groups_error(groups: Seq<(String, Vec<String>)>, hosts: Seq<RawHost>) -> Option<Seq<char>> {
    first_error(0, groups.len() as int, group_entry_check(groups, hosts))
}

fn host_id_known_exec(hosts: &Vec<RawHost>, id: &str) -> (r: bool)
    ensures
        r == host_id_known(hosts@, id@),
{
    let mut j: usize = 0;
    while j < hosts.len()
        invariant
            0 <= j <= hosts@.len(),
            forall|k: int| 0 <= k < j ==> #[trigger] hosts@[k].id@ != id@,
        decreases hosts.len() - j,
    {
        if str_eq(hosts[j].id.as_str(), id) {
            return true;
        }
        j += 1;
    }
    false
}

fn validate_group_entry(groups: &Vec<(String, Vec<String>)>, hosts: &Vec<RawHost>, i: usize) -> (r: Result<
    (),
    String,
>)
    requires
        i < groups@.len(),
    ensures
        match r {
            Ok(_) => group_entry_error(groups@, hosts@, i as int) is None,
            Err(e) => group_entry_error(groups@, hosts@, i as int) == Some(e@),
        },
{
    let g = groups[i].0.as_str();
    let members = &groups[i].1;
    validate_id("group", g)?;
    if members.len() == 0 {
        let q = quote(g);
        return Err(concat3("group ", q.as_str(), " must contain at least one host"));
    }
    let mut k: usize = 0;
    while k < members.len()
        invariant
            0 <= k <= members@.len(),
            g@ == groups@[i as int].0@,
            members@ == groups@[i as int].1@,
            group_entry_error(groups@, hosts@, i as int) == first_error(
                k as int,
                members@.len() as int,
                member_check(g@, members@, hosts@),
            ),
        decreases members.len() - k,
    {
        let m = members[k].as_str();
        validate_id("host id", m)?;
        if !host_id_known_exec(hosts, m) {
            let qg = quote(g);
            let qm = quote(m);
            let mut e = concat3("group ", qg.as_str(), " references unknown host ");
            e.append(qm.as_str());
            return Err(e);
        }
        k += 1;
    }
    Ok(())
}

/// Checks the root `[groups]` table: valid names, members, each a known host.
pub fn validate_root_groups(groups: &Vec<(String, Vec<String>)>, hosts: &Vec<RawHost>) -> (r: Result<
    (),
    String,
>)
    ensures
        match r {
            Ok(_) => root_groups_error(groups@, hosts@) is None,
            Err(e) => root_groups_error(groups@, hosts@) == Some(e@),
        },
{
    let mut i: usize = 0;
    while i < groups.len()
        invariant
            0 <= i <= groups@.len(),
            root_groups_error(groups@, hosts@) == first_error(
                i as int,
                groups@.len() as int,
                group_entry_check(groups@, hosts@),
            ),
        decreases groups.len() - i,
    {
        validate_group_entry(groups, hosts, i)?;
        i += 1;
    }
    Ok(())
}

/// A group is known when a host lists it or it is a root group with members.
pub open spec fn group_known(hosts: Seq<RawHost>, groups: Seq<(String, Vec<String>)>, name: Seq<char>) -> bool {
    ||| exists|j: int, k: int|
        0 <= j < hosts.len() && 0 <= k < hosts[j].groups@.len() && #[trigger] hosts[j].groups@[k]@ == name
    ||| exists|j: int| 0 <= j < groups.len() && groups[j].1@.len() > 0 && #[trigger] groups[j].0@ == name
}

/// The check of the name of `[group_settings.<name>]` number `i`.
pub open spec fn settings_name_error(
    settings: Seq<(String, RawGroupSettings)>,
    hosts: Seq<RawHost>,
    groups: Seq<(String, Vec<String>)>,
    i: int,
) -> Option<Seq<char>> {
    let g = settings[i].0@;
    if !is_valid_id(g) {
        Some(invalid_id_message("group"@, g))
    } else if !group_known(hosts, groups, g) {
        Some("group_settings "@ + debug_quoted(g) + " references unknown group"@)
    } else {
        None
    }
}

pub open spec fn settings_name_check(
    settings: Seq<(String, RawGroupSettings)>,
    hosts: Seq<RawHost>,
    groups: Seq<(String, Vec<String>)>,
) -> spec_fn(int) -> Option<Seq<char>> {
    |i: int| settings_name_error(settings, hosts, groups, i)
}

/// The first error among the names of the `[group_settings]` tables.
pub open spec fn settings_names_error(
    settings: Seq<(String, RawGroupSettings)>,
    hosts: Seq<RawHost>,
    groups: Seq<(String, Vec<String>)>,
) -> Option<Seq<char>> {
    first_error(0, settings.len() as int, settings_name_check(settings, hosts, groups))
}

fn group_known_exec(hosts: &Vec<RawHost>, groups: &Vec<(String, Vec<String>)>, name: &str) -> (r: bool)
    ensures
        r == group_known(hosts@, groups@, name@),
{
    let mut j: usize = 0;
    while j < hosts.len()
        invariant
            0 <= j <= hosts@.len(),
            forall|a: int, b: int|
                0 <= a < j && 0 <= b < hosts@[a].groups@.len() ==> #[trigger] hosts@[a].groups@[b]@ != name@,
        decreases hosts.len() - j,
    {
        let own = &hosts[j].groups;
        let mut k: usize = 0;
        while k < own.len()
            invariant
                0 <= j < hosts@.len(),
                0 <= k <= own@.len(),
                own@ == hosts@[j as int].groups@,
                forall|a: int, b: int|
                    0 <= a < j && 0 <= b < hosts@[a].groups@.len() ==> #[trigger] hosts@[a].groups@[b]@ != name@,
                forall|b: int| 0 <= b < k ==> #[trigger] own@[b]@ != name@,
            decreases own.len() - k,
        {
            if str_eq(own[k].as_str(), name) {
                assert(hosts@[j as int].groups@[k as int]@ == name@);
                return true;
            }
            k += 1;
        }
        j += 1;
    }
    let mut i: usize = 0;
    while i < groups.len()
        invariant
            0 <= i <= groups@.len(),
            forall|a: int, b: int|
                0 <= a < hosts@.len() && 0 <= b < hosts@[a].groups@.len() ==> #[trigger] hosts@[a].groups@[b]@
                    != name@,
            forall|a: int| 0 <= a < i && groups@[a].1@.len() > 0 ==> #[trigger] groups@[a].0@ != name@,
        decreases groups.len() - i,
    {
        if groups[i].1.len() > 0 && str_eq(groups[i].0.as_str(), name) {
            return true;
        }
        i += 1;
    }
    false
}

/// Checks that each `[group_settings]` table names a known group.
pub fn validate_group_settings_names(
    settings: &Vec<(String, RawGroupSettings)>,
    hosts: &Vec<RawHost>,
    groups: &Vec<(String, Vec<String>)>,
) -> (r: Result<(), String>)
    ensures
        match r {
            Ok(_) => settings_names_error(settings@, hosts@, groups@) is None,
            Err(e) => settings_names_error(settings@, hosts@, groups@) == Some(e@),
        },
{
    let mut i: usize = 0;
    while i < settings.len()
        invariant
            0 <= i <= settings@.len(),
            settings_names_error(settings@, hosts@, groups@) == first_error(
                i as int,
                settings@.len() as int,
                settings_name_check(settings@, hosts@, groups@),
            ),
        decreases settings.len() - i,
    {
        let g = settings[i].0.as_str();
        validate_id("group", g)?;
        if !group_known_exec(hosts, groups, g) {
            let q = quote(g);
            return Err(concat3("group_settings ", q.as_str(), " references unknown group"));
        }
        i += 1;
    }
    Ok(())
}

/// One module table of `[group_settings.<group>.modules]` read over `acc`.
pub open spec fn apply_group_module(group: Seq<char>, acc: UsageGroupConfig, entry: (String, ModuleScope)) -> Result<
    UsageGroupConfig,
    Seq<char>,
> {
    if entry.0@ == "usage"@ {
        match entry.1.as_usage_group {
            Ok(c) => Ok(c),
            Err(e) => Err("group_settings."@ + group + ".modules.usage: "@ + e@),
        }
    } else {
        Err(
            "group_settings "@ + debug_quoted(group) + ": unknown module "@ + debug_quoted(entry.0@)
                + "; valid modules: usage"@,
        )
    }
}

/// The group's module settings after its tables from index `i` on.
pub open spec fn group_modules_from(
    group: Seq<char>,
    entries: Seq<(String, ModuleScope)>,
    i: int,
    acc: UsageGroupConfig,
) -> Result<UsageGroupConfig, Seq<char>>
    decreases entries.len() - i,
{
    if i < 0 || i >= entries.len() {
        Ok(acc)
    } else {
        match apply_group_module(group, acc, entries[i]) {
            Ok(next) => group_modules_from(group, entries, i + 1, next),
            Err(e) => Err(e),
        }
    }
}

/// The settings read from the group tables from index `i` on, after `acc`.
pub open spec fn group_settings_from(
    settings: Seq<(String, RawGroupSettings)>,
    i: int,
    acc: Seq<(Seq<char>, UsageGroupConfig)>,
) -> Result<Seq<(Seq<char>, UsageGroupConfig)>, Seq<char>>
    decreases settings.len() - i,
{
    if i < 0 || i >= settings.len() {
        Ok(acc)
    } else {
        match group_modules_from(
            settings[i].0@,
            settings[i].1.modules@,
            0,
            UsageGroupConfig { ssh_verify_host_key: None },
        ) {
            Ok(c) => group_settings_from(settings, i + 1, acc.push((settings[i].0@, c))),
            Err(e) => Err(e),
        }
    }
}

/// The per-group settings a document gives, by group name.
pub open spec fn group_settings_of(settings: Seq<(String, RawGroupSettings)>) -> Result<
    Seq<(Seq<char>, UsageGroupConfig)>,
    Seq<char>,
> {
    group_settings_from(settings, 0, Seq::empty())
}

/// Group settings with the names taken by their views.
pub open spec fn named_settings_view(v: Seq<(String, UsageGroupConfig)>) -> Seq<(Seq<char>, UsageGroupConfig)> {
    Seq::new(v.len(), |i: int| (v[i].0@, v[i].1))
}

fn parse_group_modules(group: &str, entries: &Vec<(String, ModuleScope)>) -> (r: Result<UsageGroupConfig, String>)
    ensures
        match r {
            Ok(c) => group_modules_from(group@, entries@, 0, UsageGroupConfig { ssh_verify_host_key: None })
                == Ok::<UsageGroupConfig, Seq<char>>(c),
            Err(e) => group_modules_from(group@, entries@, 0, UsageGroupConfig { ssh_verify_host_key: None })
                == Err::<UsageGroupConfig, Seq<char>>(e@),
        },
{
    let mut acc = UsageGroupConfig { ssh_verify_host_key: None };
    let mut i: usize = 0;
    while i < entries.len()
        invariant
            0 <= i <= entries@.len(),
            group_modules_from(group@, entries@, 0, UsageGroupConfig { ssh_verify_host_key: None })
                == group_modules_from(group@, entries@, i as int, acc),
        decreases entries.len() - i,
    {
        let id = entries[i].0.as_str();
        if str_eq(id, "usage") {
            match &entries[i].1.as_usage_group {
                Ok(c) => acc = *c,
                Err(e) => {
                    let mut m = concat3("group_settings.", group, ".modules.usage: ");
                    m.append(e.as_str());
                    return Err(m);
                },
            }
        } else {
            let qg = quote(group);
            let qi = quote(id);
            let mut m = concat3("group_settings ", qg.as_str(), ": unknown module ");
            m.append(qi.as_str());
            m.append("; valid modules: usage");
            return Err(m);
        }
        i += 1;
    }
    Ok(acc)
}

/// Reads each `[group_settings.<group>.modules]` table.
pub fn parse_group_settings(settings: &Vec<(String, RawGroupSettings)>) -> (r: Result<
    Vec<(String, UsageGroupConfig)>,
    String,
>)
    ensures
        match r {
            Ok(v) => group_settings_of(settings@) == Ok::<Seq<(Seq<char>, UsageGroupConfig)>, Seq<char>>(
                named_settings_view(v@),
            ),
            Err(e) => group_settings_of(settings@) == Err::<Seq<(Seq<char>, UsageGroupConfig)>, Seq<char>>(
                e@,
            ),
        },
{
    let mut parsed: Vec<(String, UsageGroupConfig)> = Vec::new();
    assert(named_settings_view(parsed@) =~= Seq::empty());
    let mut i: usize = 0;
    while i < settings.len()
        invariant
            0 <= i <= settings@.len(),
            group_settings_of(settings@) == group_settings_from(settings@, i as int, named_settings_view(parsed@)),
        decreases settings.len() - i,
    {
        let group = settings[i].0.as_str();
        let c = parse_group_modules(group, &settings[i].1.modules)?;
        let ghost before = named_settings_view(parsed@);
        parsed.push((group.to_owned(), c));
        assert(named_settings_view(parsed@) =~= before.push((settings@[i as int].0@, c)));
        i += 1;
    }
    Ok(parsed)
}

/// With no error among `f(i)`, ..., `f(n - 1)`, each of them is fine.
pub proof fn lemma_first_error_none(i: int, n: int, f: spec_fn(int) -> Option<Seq<char>>)
    requires
        first_error(i, n, f) is None,
    ensures
        forall|k: int| i <= k < n ==> #[trigger] f(k) is None,
    decreases n - i,
{
    if i < n {
        lemma_first_error_none(i + 1, n, f);
    }
}

pub open spec fn host_check(
    hosts: Seq<RawHost>,
    m: ModuleConfigs,
    settings: Seq<(Seq<char>, UsageGroupConfig)>,
    groups: Seq<(String, Vec<String>)>,
) -> spec_fn(int) -> Option<Seq<char>> {
    |i: int| host_error(hosts[i], m, settings, groups)
}

/// The first error among the hosts, in their order.
pub open spec fn hosts_error(
    hosts: Seq<RawHost>,
    m: ModuleConfigs,
    settings: Seq<(Seq<char>, UsageGroupConfig)>,
    groups: Seq<(String, Vec<String>)>,
) -> Option<Seq<char>> {
    first_error(0, hosts.len() as int, host_check(hosts, m, settings, groups))
}

/// Builds every host, in order, or gives the first error.
pub fn build_hosts(
    hosts: Vec<RawHost>,
    m: &ModuleConfigs,
    settings: &Vec<(String, UsageGroupConfig)>,
    groups: &Vec<(String, Vec<String>)>,
) -> (r: Result<Vec<Host>, String>)
    ensures
        match r {
            Ok(out) => hosts_error(hosts@, *m, named_settings_view(settings@), groups@) is None && out@.len()
                == hosts@.len() && forall|k: int|
                0 <= k < out@.len() ==> host_built(
                    #[trigger] out@[k],
                    hosts@[k],
                    *m,
                    named_settings_view(settings@),
                    groups@,
                ),
            Err(e) => hosts_error(hosts@, *m, named_settings_view(settings@), groups@) == Some(e@),
        },
{
    let ghost hs = hosts@;
    let ghost sv = named_settings_view(settings@);
    let mut out: Vec<Host> = Vec::new();
    for h in it: hosts.into_iter()
        invariant
            it.seq() == hs,
            sv == named_settings_view(settings@),
            out@.len() == it.index(),
            forall|k: int| 0 <= k < out@.len() ==> host_built(#[trigger] out@[k], hs[k], *m, sv, groups@),
            hosts_error(hs, *m, sv, groups@) == first_error(
                it.index() as int,
                hs.len() as int,
                host_check(hs, *m, sv, groups@),
            ),
    {
        let built = build_host(h, m, settings, groups)?;
        out.push(built);
    }
    Ok(out)
}

/// The first error of a configuration document, in the order validation
/// reads it.
pub open spec fn config_error(raw: RawConfig) -> Option<Seq<char>> {
    if core_error(raw) is Some {
        core_error(raw)
    } else if auth_error(raw) is Some {
        auth_error(raw)
    } else {
        match global_modules_of(raw.modules@) {
            Err(e) => Some(e),
            Ok(m) => if module_config_error(m) is Some {
                module_config_error(m)
            } else if host_ids_error(raw.hosts@) is Some {
                host_ids_error(raw.hosts@)
            } else if root_groups_error(raw.groups@, raw.hosts@) is Some {
                root_groups_error(raw.groups@, raw.hosts@)
            } else if settings_names_error(raw.group_settings@, raw.hosts@, raw.groups@) is Some {
                settings_names_error(raw.group_settings@, raw.hosts@, raw.groups@)
            } else {
                match group_settings_of(raw.group_settings@) {
                    Err(e) => Some(e),
                    Ok(gs) => hosts_error(raw.hosts@, m, gs, raw.groups@),
                }
            },
        }
    }
}

/// `cfg` is the configuration that the valid document `raw` describes.
pub open spec fn config_built(cfg: AppConfig, raw: RawConfig) -> bool {
    &&& global_modules_of(raw.modules@) matches Ok(m) && cfg.modules == m
    &&& group_settings_of(raw.group_settings@) matches Ok(gs) && cfg.hosts@.len() == raw.hosts@.len()
        && forall|k: int|
        0 <= k < cfg.hosts@.len() ==> host_built(
            #[trigger] cfg.hosts@[k],
            raw.hosts@[k],
            cfg.modules,
            gs,
            raw.groups@,
        )
    &&& cfg.bind == raw.bind
    &&& cfg.database_path@ == raw.database_path@
    &&& cfg.api_workers == raw.api_workers
    &&& cfg.api_token == raw.api_token
    &&& cfg.allow_unauthenticated_non_loopback == raw.allow_unauthenticated_non_loopback
}

impl RawConfig {
    /// Validates the document and builds the configuration it describes.
    pub fn validate(self) -> (r: Result<AppConfig, ConfigError>)
        ensures
            match r {
                Ok(cfg) => config_error(self) is None && config_built(cfg, self),
                Err(ConfigError::Invalid(e)) => config_error(self) == Some(e@),
                Err(_) => false,
            },
    {
        let ghost raw = self;
        match validate_document(&self) {
            Err(e) => Err(ConfigError::Invalid(e)),
            Ok((modules, settings)) => {
                match build_hosts(self.hosts, &modules, &settings, &self.groups) {
                    Err(e) => Err(ConfigError::Invalid(e)),
                    Ok(hosts) => Ok(
                        AppConfig {
                            bind: self.bind,
                            database_path: self.database_path,
                            api_workers: self.api_workers,
                            modules,
                            api_token: self.api_token,
                            allow_unauthenticated_non_loopback: self.allow_unauthenticated_non_loopback,
                            hosts,
                        },
                    ),
                }
            },
        }
    }
}

/// Every check that comes before the hosts are built; gives the global
/// module settings and the group settings.
fn validate_document(raw: &RawConfig) -> (r: Result<(ModuleConfigs, Vec<(String, UsageGroupConfig)>), String>)
    ensures
        match r {
            Ok((m, gs)) => {
                &&& core_error(*raw) is None
                &&& auth_error(*raw) is None
                &&& global_modules_of(raw.modules@) == Ok::<ModuleConfigs, Seq<char>>(m)
                &&& module_config_error(m) is None
                &&& host_ids_error(raw.hosts@) is None
                &&& root_groups_error(raw.groups@, raw.hosts@) is None
                &&& settings_names_error(raw.group_settings@, raw.hosts@, raw.groups@) is None
                &&& group_settings_of(raw.group_settings@) == Ok::<
                    Seq<(Seq<char>, UsageGroupConfig)>,
                    Seq<char>,
                >(named_settings_view(gs@))
            },
            Err(e) => config_error(*raw) == Some(e@),
        },
{
    validate_core_settings(raw)?;
    validate_auth_settings(raw)?;
    let modules = parse_global_modules(&raw.modules)?;
    validate_module_config(&modules)?;
    validate_host_ids(&raw.hosts)?;
    validate_root_groups(&raw.groups, &raw.hosts)?;
    validate_group_settings_names(&raw.group_settings, &raw.hosts, &raw.groups)?;
    let settings = parse_group_settings(&raw.group_settings)?;
    Ok((modules, settings))
}

/// What every configuration that validated satisfies: at least one host;
/// valid host ids, each used once; each host in at least one group, its
/// groups sorted, each once and each a valid id; a module enabled for a
/// host only where it is enabled globally; intervals and timeouts of at
/// least a millisecond, globally and for each host; concurrency and
/// thresholds of at least one.
pub proof fn lemma_validated_config(raw: RawConfig, cfg: AppConfig)
    requires
        config_error(raw) is None,
        config_built(cfg, raw),
    ensures
        cfg.hosts@.len() >= 1,
        forall|i: int| 0 <= i < cfg.hosts@.len() ==> is_valid_id(#[trigger] cfg.hosts@[i].id@),
        forall|i: int, j: int|
            0 <= i < j < cfg.hosts@.len() ==> #[trigger] cfg.hosts@[i].id@ != #[trigger] cfg.hosts@[j].id@,
        forall|i: int|
            0 <= i < cfg.hosts@.len() ==> {
                let gs = name_views(#[trigger] cfg.hosts@[i].groups@);
                &&& gs.len() >= 1
                &&& names_sorted(gs)
                &&& forall|k: int| 0 <= k < gs.len() ==> is_valid_id(#[trigger] gs[k])
            },
        forall|i: int|
            0 <= i < cfg.hosts@.len() ==> {
                let hm = (#[trigger] cfg.hosts@[i]).modules;
                &&& hm.icmp.enabled ==> cfg.modules.icmp.enabled
                &&& hm.usage.enabled ==> cfg.modules.usage.enabled
                &&& hm.icmp.interval >= MIN_DURATION
                &&& hm.icmp.timeout >= MIN_DURATION
                &&& hm.usage.interval >= MIN_DURATION
                &&& hm.usage.timeout >= MIN_DURATION
            },
        cfg.modules.icmp.concurrency >= 1,
        cfg.modules.icmp.failure_threshold >= 1,
        cfg.modules.icmp.success_threshold >= 1,
        cfg.modules.icmp.interval >= MIN_DURATION,
        cfg.modules.icmp.timeout >= MIN_DURATION,
        cfg.modules.usage.concurrency >= 1,
        cfg.modules.usage.interval >= MIN_DURATION,
        cfg.modules.usage.timeout >= MIN_DURATION,
        cfg.modules.usage.sample_retention >= MIN_DURATION,
        forall|g: int|
            0 <= g < raw.groups@.len() ==> {
                let members = (#[trigger] raw.groups@[g]).1@;
                &&& members.len() >= 1
                &&& forall|k: int| 0 <= k < members.len() ==> host_id_known(raw.hosts@, #[trigger] members[k]@)
            },
{
    let m = cfg.modules;
    let gsv = group_settings_of(raw.group_settings@)->Ok_0;
    let hosts = raw.hosts@;
    lemma_host_ids_ok(hosts);
    lemma_hosts_ok(hosts, m, gsv, raw.groups@);
    lemma_root_groups_ok(raw.groups@, hosts);
    assert forall|i: int| 0 <= i < cfg.hosts@.len() implies is_valid_id(#[trigger] cfg.hosts@[i].id@) by {
        assert(host_id_error(hosts, i) is None);
    }
    assert forall|i: int, j: int| 0 <= i < j < cfg.hosts@.len() implies #[trigger] cfg.hosts@[i].id@
        != #[trigger] cfg.hosts@[j].id@ by {
        assert(host_id_error(hosts, j) is None);
        assert(host_built(cfg.hosts@[i], hosts[i], m, gsv, raw.groups@));
        assert(host_built(cfg.hosts@[j], hosts[j], m, gsv, raw.groups@));
    }
    assert forall|i: int| 0 <= i < cfg.hosts@.len() implies {
        let gs = name_views(#[trigger] cfg.hosts@[i].groups@);
        &&& gs.len() >= 1
        &&& names_sorted(gs)
        &&& forall|k: int| 0 <= k < gs.len() ==> is_valid_id(#[trigger] gs[k])
    } by {
        assert(host_error(hosts[i], m, gsv, raw.groups@) is None);
        assert(host_built(cfg.hosts@[i], hosts[i], m, gsv, raw.groups@));
        let gs = host_groups(hosts[i].groups@, hosts[i].id@, raw.groups@);
        lemma_group_names_ok(gs);
    }
    assert forall|i: int| 0 <= i < cfg.hosts@.len() implies {
        let hm = (#[trigger] cfg.hosts@[i]).modules;
        &&& hm.icmp.enabled ==> cfg.modules.icmp.enabled
        &&& hm.usage.enabled ==> cfg.modules.usage.enabled
        &&& hm.icmp.interval >= MIN_DURATION
        &&& hm.icmp.timeout >= MIN_DURATION
        &&& hm.usage.interval >= MIN_DURATION
        &&& hm.usage.timeout >= MIN_DURATION
    } by {
        assert(host_error(hosts[i], m, gsv, raw.groups@) is None);
        assert(host_built(cfg.hosts@[i], hosts[i], m, gsv, raw.groups@));
    }
}

proof fn lemma_root_groups_ok(groups: Seq<(String, Vec<String>)>, hosts: Seq<RawHost>)
    requires
        root_groups_error(groups, hosts) is None,
    ensures
        forall|g: int|
            0 <= g < groups.len() ==> {
                let members = (#[trigger] groups[g]).1@;
                &&& members.len() >= 1
                &&& forall|k: int| 0 <= k < members.len() ==> host_id_known(hosts, #[trigger] members[k]@)
            },
{
    lemma_first_error_none(0, groups.len() as int, group_entry_check(groups, hosts));
    assert forall|g: int| 0 <= g < groups.len() implies {
        let members = (#[trigger] groups[g]).1@;
        &&& members.len() >= 1
        &&& forall|k: int| 0 <= k < members.len() ==> host_id_known(hosts, #[trigger] members[k]@)
    } by {
        assert(group_entry_check(groups, hosts)(g) is None);
        let members = groups[g].1@;
        lemma_first_error_none(0, members.len() as int, member_check(groups[g].0@, members, hosts));
        assert forall|k: int| 0 <= k < members.len() implies host_id_known(hosts, #[trigger] members[k]@) by {
            assert(member_check(groups[g].0@, members, hosts)(k) is None);
        }
    }
}

proof fn lemma_host_ids_ok(hosts: Seq<RawHost>)
    requires
        host_ids_error(hosts) is None,
    ensures
        forall|i: int| 0 <= i < hosts.len() ==> #[trigger] host_id_error(hosts, i) is None,
{
    lemma_first_error_none(0, hosts.len() as int, host_id_check(hosts));
    assert forall|i: int| 0 <= i < hosts.len() implies #[trigger] host_id_error(hosts, i) is None by {
        assert(host_id_check(hosts)(i) is None);
    }
}

proof fn lemma_hosts_ok(
    hosts: Seq<RawHost>,
    m: ModuleConfigs,
    settings: Seq<(Seq<char>, UsageGroupConfig)>,
    groups: Seq<(String, Vec<String>)>,
)
    requires
        hosts_error(hosts, m, settings, groups) is None,
    ensures
        forall|i: int| 0 <= i < hosts.len() ==> #[trigger] host_error(hosts[i], m, settings, groups) is None,
{
    lemma_first_error_none(0, hosts.len() as int, host_check(hosts, m, settings, groups));
    assert forall|i: int| 0 <= i < hosts.len() implies #[trigger] host_error(hosts[i], m, settings, groups) is None by {
        assert(host_check(hosts, m, settings, groups)(i) is None);
    }
}

proof fn lemma_group_names_ok(gs: Seq<Seq<char>>)
    requires
        group_names_error(gs) is None,
    ensures
        forall|k: int| 0 <= k < gs.len() ==> is_valid_id(#[trigger] gs[k]),
{
    lemma_first_error_none(0, gs.len() as int, group_name_check(gs));
    assert forall|k: int| 0 <= k < gs.len() implies is_valid_id(#[trigger] gs[k]) by {
        assert(group_name_check(gs)(k) is None);
    }
}

} // verus!
