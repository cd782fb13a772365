//! The shapes of the API's answers that the library builds.
use crate::api::errors::ApiError;
use crate::app::filters::{FilterKeyMetadata, FilterNamespaceCatalog};
use crate::domain::usage::UsageSummary;
use crate::storage::storage_error_text;
use crate::modules::{ConfigOptionDoc, ModuleMetadata};
use crate::sorted::{entry_views, insert_entry, insert_sorted};
use vstd::prelude::*;

verus! {

/// The key-sorted map that collecting `entries` into an ordered map gives:
/// each key once, the last value given for it.
pub open spec fn sorted_map_of<V>(entries: Seq<(Seq<char>, V)>) -> Seq<(Seq<char>, V)>
    decreases entries.len(),
{
    if entries.len() == 0 {
        Seq::empty()
    } else {
        insert_sorted(sorted_map_of(entries.drop_last()), entries.last().0, entries.last().1)
    }
}

/// Building the sorted map commutes with changing the values.
pub proof fn lemma_sorted_map_of_map_values<V, W>(s: Seq<(Seq<char>, V)>, f: spec_fn(V) -> W)
    ensures
        sorted_map_of(s).map_values(|p: (Seq<char>, V)| (p.0, f(p.1))) == sorted_map_of(
            s.map_values(|p: (Seq<char>, V)| (p.0, f(p.1))),
        ),
    decreases s.len(),
{
    let g = |p: (Seq<char>, V)| (p.0, f(p.1));
    let ms = s.map_values(g);
    if s.len() == 0 {
        assert(sorted_map_of(s).map_values(g) =~= sorted_map_of(ms));
    } else {
        lemma_sorted_map_of_map_values(s.drop_last(), f);
        assert(ms.drop_last() =~= s.drop_last().map_values(g));
        crate::sorted::lemma_insert_sorted_map_values(sorted_map_of(s.drop_last()), s.last().0, s.last().1, f);
        assert(sorted_map_of(s).map_values(g) =~= sorted_map_of(ms));
    }
}

/// Collects entries into a key-sorted map; a later entry replaces an earlier
/// one with the same key.
pub fn to_sorted_map<V>(entries: Vec<(&'static str, V)>) -> (r: Vec<(&'static str, V)>)
    ensures
        entry_views(r@) == sorted_map_of(entry_views(entries@)),
{
    let ghost all = entry_views(entries@);
    let mut out: Vec<(&'static str, V)> = Vec::new();
    assert(entry_views(out@) =~= sorted_map_of(all.take(0)));
    for item in it: entries.into_iter()
        invariant
            all == entry_views(it.seq()),
            entry_views(out@) == sorted_map_of(all.take(it.index() as int)),
    {
        let ghost idx = it.index();
        let (key, value) = item;
        insert_entry(&mut out, key, value);
        proof {
            assert(all.take(idx + 1).drop_last() =~= all.take(idx as int));
            assert(all.take(idx + 1).last() == all[idx as int]);
        }
    }
    proof {
        assert(all.take(all.len() as int) =~= all);
    }
    out
}

/// The body of an error answer.
#[derive(Debug)]
pub struct ErrorResponse {
    pub error: String,
}

impl ErrorResponse {
    /// The body that answers a failed request.
    pub fn from_error(e: &ApiError) -> (r: ErrorResponse)
        ensures
            match *e {
                ApiError::Unauthorized => r.error@ == "unauthorized"@,
                ApiError::BadRequest(v) => r.error@ == "bad request: "@ + v@,
                ApiError::NotFound(v) => r.error@ == v@ + " not found"@,
                ApiError::Internal(v) => r.error@ == "internal error: "@ + v@,
                ApiError::Storage(se) => r.error@ == storage_error_text(se),
            },
    {
        ErrorResponse { error: e.message() }
    }
}

/// The body of `GET /healthz`.
#[derive(Debug)]
pub struct HealthResponse {
    pub status: &'static str,
}

/// The health answer: always `ok`.
pub fn health_response() -> (r: HealthResponse)
    ensures
        r.status@ == "ok"@,
{
    HealthResponse { status: "ok" }
}

/// The summary of a usage report as the API shows it.
#[derive(Clone, Copy, Debug, PartialEq, Eq, Structural)]
pub struct UsageSummaryResponse {
    pub hosts_reporting: usize,
    pub hosts_with_errors: usize,
    pub console_users: u32,
    pub remote_users: u32,
}

impl UsageSummaryResponse {
    pub fn from_summary(summary: UsageSummary) -> (r: UsageSummaryResponse)
        ensures
            r.hosts_reporting == summary.hosts_reporting,
            r.hosts_with_errors == summary.hosts_with_errors,
            r.console_users == summary.console_users,
            r.remote_users == summary.remote_users,
    {
        UsageSummaryResponse {
            hosts_reporting: summary.hosts_reporting,
            hosts_with_errors: summary.hosts_with_errors,
            console_users: summary.console_users,
            remote_users: summary.remote_users,
        }
    }
}

/// A filter key as the API documents it.
#[derive(Debug)]
pub struct FilterKeyResponse {
    pub value_type: &'static str,
    pub values: Vec<&'static str>,
    pub description: &'static str,
}

/// The documentation of a filter key, field by field.
pub open spec fn filter_key_response(m: FilterKeyMetadata) -> FilterKeyResponse {
    FilterKeyResponse { value_type: m.value_type, values: m.values, description: m.description }
}

impl FilterKeyResponse {
    pub fn from_metadata(m: FilterKeyMetadata) -> (r: FilterKeyResponse)
        ensures
            r == filter_key_response(m),
    {
        FilterKeyResponse { value_type: m.value_type, values: m.values, description: m.description }
    }
}

/// A configuration option as the API documents it.
#[derive(Clone, Copy, Debug)]
pub struct ConfigOptionResponse {
    pub key: &'static str,
    pub value_type: &'static str,
    pub default_value: &'static str,
    pub description: &'static str,
}

/// A documented filter key as texts: value type, example values and
/// description.
pub open spec fn filter_response_doc(m: FilterKeyResponse) -> (Seq<char>, Seq<Seq<char>>, Seq<char>) {
    (m.value_type@, m.values@.map_values(|v: &'static str| v@), m.description@)
}

/// The documentation texts of (key, documented filter key) entries.
pub open spec fn filter_response_docs(entries: Seq<(Seq<char>, FilterKeyResponse)>) -> Seq<
    (Seq<char>, (Seq<char>, Seq<Seq<char>>, Seq<char>)),
> {
    entries.map_values(|p: (Seq<char>, FilterKeyResponse)| (p.0, filter_response_doc(p.1)))
}

/// A documented configuration option as texts: key, value type, default
/// and description.
pub open spec fn option_response_doc(c: ConfigOptionResponse) -> (Seq<char>, Seq<char>, Seq<char>, Seq<char>) {
    (c.key@, c.value_type@, c.default_value@, c.description@)
}

/// The documentation of a configuration option, field by field.
pub open spec fn config_option_response(d: ConfigOptionDoc) -> ConfigOptionResponse {
    ConfigOptionResponse {
        key: d.key,
        value_type: d.value_type,
        default_value: d.default_value,
        description: d.description,
    }
}

impl ConfigOptionResponse {
    pub fn from_doc(d: ConfigOptionDoc) -> (r: ConfigOptionResponse)
        ensures
            r == config_option_response(d),
    {
        ConfigOptionResponse {
            key: d.key,
            value_type: d.value_type,
            default_value: d.default_value,
            description: d.description,
        }
    }
}

/// Filter documentation entries with each value as the API shows it.
pub open spec fn filter_responses(entries: Seq<(Seq<char>, FilterKeyMetadata)>) -> Seq<(Seq<char>, FilterKeyResponse)> {
    entries.map_values(|e: (Seq<char>, FilterKeyMetadata)| (e.0, filter_key_response(e.1)))
}

/// Converts filter documentation entries, keeping keys and order.
pub fn filter_entries_response(entries: Vec<(&'static str, FilterKeyMetadata)>) -> (r: Vec<
    (&'static str, FilterKeyResponse),
>)
    ensures
        entry_views(r@) == filter_responses(entry_views(entries@)),
{
    let ghost all = entry_views(entries@);
    let mut out: Vec<(&'static str, FilterKeyResponse)> = Vec::new();
    for item in it: entries.into_iter()
        invariant
            all == entry_views(it.seq()),
            entry_views(out@) == filter_responses(all.take(it.index() as int)),
    {
        let ghost idx = it.index();
        let (key, m) = item;
        proof {
            assert(all.take(idx + 1) =~= all.take(idx as int).push((key@, m)));
        }
        let ghost before = entry_views(out@);
        out.push((key, FilterKeyResponse::from_metadata(m)));
        assert(entry_views(out@) =~= before.push((key@, filter_key_response(m))));
        assert(filter_responses(all.take(idx as int).push((key@, m))) =~= filter_responses(all.take(idx as int)).push(
            (key@, filter_key_response(m)),
        ));
    }
    assert(all.take(all.len() as int) =~= all);
    out
}

/// The filter catalog as the API shows it.
#[derive(Debug)]
pub struct NamespaceCatalogResponse {
    pub bare: Vec<(&'static str, FilterKeyResponse)>,
    pub namespaces: Vec<(&'static str, Vec<(&'static str, FilterKeyResponse)>)>,
    pub examples: Vec<&'static str>,
}

impl NamespaceCatalogResponse {
    /// The catalog with each key's documentation as the API shows it; keys,
    /// namespaces and examples as they are.
    pub fn from_catalog(catalog: FilterNamespaceCatalog) -> (r: NamespaceCatalogResponse)
        ensures
            entry_views(r.bare@) == filter_responses(entry_views(catalog.bare@)),
            r.namespaces@.len() == catalog.namespaces@.len(),
            forall|i: int|
                0 <= i < r.namespaces@.len() ==> (#[trigger] r.namespaces@[i]).0 == catalog.namespaces@[i].0
                    && entry_views(r.namespaces@[i].1@) == filter_responses(entry_views(catalog.namespaces@[i].1@)),
            r.examples == catalog.examples,
    {
        let ghost given = catalog.namespaces@;
        let mut namespaces: Vec<(&'static str, Vec<(&'static str, FilterKeyResponse)>)> = Vec::new();
        for item in it: catalog.namespaces.into_iter()
            invariant
                it.seq() == given,
                namespaces@.len() == it.index(),
                forall|i: int|
                    0 <= i < namespaces@.len() ==> (#[trigger] namespaces@[i]).0 == given[i].0 && entry_views(
                        namespaces@[i].1@,
                    ) == filter_responses(entry_views(given[i].1@)),
        {
            let (name, keys) = item;
            namespaces.push((name, filter_entries_response(keys)));
        }
        NamespaceCatalogResponse {
            bare: filter_entries_response(catalog.bare),
            namespaces,
            examples: catalog.examples,
        }
    }
}

/// The body of `GET /v1/modules`.
#[derive(Debug)]
pub struct ModulesResponse {
    pub modules: Vec<ModuleResponse>,
}

/// A module as `GET /v1/modules` lists it.
#[derive(Debug)]
pub struct ModuleResponse {
    pub id: &'static str,
    pub name: &'static str,
    pub description: &'static str,
    pub enabled: bool,
    pub enabled_by_default: bool,
    pub filters: Vec<(&'static str, FilterKeyResponse)>,
    pub config_options: Vec<ConfigOptionResponse>,
}

impl ModuleResponse {
    /// The catalog entry of a module: its metadata, whether it is on, its
    /// filters by key and its configuration options.
    pub fn new(
        metadata: ModuleMetadata,
        enabled: bool,
        filters: Vec<(&'static str, FilterKeyMetadata)>,
        config_options: Vec<ConfigOptionDoc>,
    ) -> (r: ModuleResponse)
        ensures
            r.id == metadata.id,
            r.name == metadata.name,
            r.description == metadata.description,
            r.enabled == enabled,
            r.enabled_by_default == metadata.enabled_by_default,
            entry_views(r.filters@) == sorted_map_of(filter_responses(entry_views(filters@))),
            r.config_options@.len() == config_options@.len(),
            forall|i: int|
                0 <= i < r.config_options@.len() ==> #[trigger] r.config_options@[i] == config_option_response(
                    config_options@[i],
                ),
    {
        let mut options: Vec<ConfigOptionResponse> = Vec::new();
        let mut i: usize = 0;
        while i < config_options.len()
            invariant
                0 <= i <= config_options@.len(),
                options@.len() == i,
                forall|k: int| 0 <= k < i ==> #[trigger] options@[k] == config_option_response(config_options@[k]),
            decreases config_options.len() - i,
        {
            options.push(ConfigOptionResponse::from_doc(config_options[i]));
            i += 1;
        }
        ModuleResponse {
            id: metadata.id,
            name: metadata.name,
            description: metadata.description,
            enabled,
            enabled_by_default: metadata.enabled_by_default,
            filters: to_sorted_map(filter_entries_response(filters)),
            config_options: options,
        }
    }
}

} // verus!
