//! Filter query keys: the registry of supported keys, the catalog derived
//! from it, and the parsers for host and usage filters.
use crate::domain::filters::{HostFilter, UsageFilter};
use crate::domain::icmp::{HostStatus, invalid_host_status_message};
use crate::domain::usage::{UsageCollectionStatus, invalid_usage_status_message};
use crate::modules::{module_id, registry as module_registry, ModuleKind};
use crate::sorted::{entry_keys, entry_views, insert_entry, insert_sorted, keys_of};
use crate::text::{chars_of, debug_quoted, join, join_comma, lex_lt, owned, quote, str_eq, string_of};
use vstd::prelude::*;

verus! {

/// Documentation of one filter key.
#[derive(Clone, Debug)]
pub struct FilterKeyMetadata {
    pub value_type: &'static str,
    pub values: Vec<&'static str>,
    pub description: &'static str,
}

/// The filter keys the API documents: bare keys, and per namespace its keys
/// (`*` standing for any key), each sorted by key; plus example queries.
#[derive(Clone, Debug)]
pub struct FilterNamespaceCatalog {
    pub bare: Vec<(&'static str, FilterKeyMetadata)>,
    pub namespaces: Vec<(&'static str, Vec<(&'static str, FilterKeyMetadata)>)>,
    pub examples: Vec<&'static str>,
}

/// What a matched filter key does.
#[derive(Clone, Copy, Debug, PartialEq, Eq, Structural)]
pub enum FilterAction {
    Group,
    IcmpStatus,
    MetadataField,
    UsageStatus,
    InactiveConsoleFor,
    NoUsersFor,
}

/// One row of the filter registry: `namespace: None` is a bare key, and the
/// key `*` matches any key of its namespace.
#[derive(Clone, Copy, Debug)]
pub struct FilterEntry {
    pub namespace: Option<&'static str>,
    pub key: &'static str,
    pub action: FilterAction,
}

/// The registry rows as text.
pub open spec fn registry_rows() -> Seq<(Option<Seq<char>>, Seq<char>, FilterAction)> {
    seq![
        (None, "group"@, FilterAction::Group),
        (Some("icmp"@), "status"@, FilterAction::IcmpStatus),
        (Some("metadata"@), "*"@, FilterAction::MetadataField),
        (Some("usage"@), "status"@, FilterAction::UsageStatus),
        (Some("usage"@), "inactive_console_for"@, FilterAction::InactiveConsoleFor),
        (Some("usage"@), "no_users_for"@, FilterAction::NoUsersFor),
    ]
}

/// The view of an optional string slice.
pub open spec fn opt_view(ns: Option<&str>) -> Option<Seq<char>> {
    match ns {
        Some(n) => Some(n@),
        None => None,
    }
}

/// The view of a registry row.
pub open spec fn row_view(e: FilterEntry) -> (Option<Seq<char>>, Seq<char>, FilterAction) {
    (match e.namespace { Some(n) => Some(n@), None => None }, e.key@, e.action)
}

/// The single table of supported filter keys.
pub fn registry() -> (r: Vec<FilterEntry>)
    ensures
        r@.map_values(|e: FilterEntry| row_view(e)) == registry_rows(),
{
    let mut v: Vec<FilterEntry> = Vec::new();
    v.push(FilterEntry { namespace: None, key: "group", action: FilterAction::Group });
    v.push(FilterEntry { namespace: Some("icmp"), key: "status", action: FilterAction::IcmpStatus });
    v.push(FilterEntry { namespace: Some("metadata"), key: "*", action: FilterAction::MetadataField });
    v.push(FilterEntry { namespace: Some("usage"), key: "status", action: FilterAction::UsageStatus });
    v.push(FilterEntry {
        namespace: Some("usage"),
        key: "inactive_console_for",
        action: FilterAction::InactiveConsoleFor,
    });
    v.push(FilterEntry { namespace: Some("usage"), key: "no_users_for", action: FilterAction::NoUsersFor });
    assert(v@.map_values(|e: FilterEntry| row_view(e)) =~= registry_rows());
    v
}

/// The first registry row at or after `from` with this namespace and key.
pub open spec fn first_row(ns: Option<Seq<char>>, key: Seq<char>, from: int) -> Option<FilterAction>
    decreases 6 - from,
{
    if from >= 6 || from < 0 {
        None
    } else if registry_rows()[from].0 == ns && registry_rows()[from].1 == key {
        Some(registry_rows()[from].2)
    } else {
        first_row(ns, key, from + 1)
    }
}

/// Registry lookup: an exact row first, else the namespace's `*` row.
pub open spec fn lookup_filter(ns: Option<Seq<char>>, key: Seq<char>) -> Option<FilterAction> {
    match first_row(ns, key, 0) {
        Some(a) => Some(a),
        None => first_row(ns, "*"@, 0),
    }
}

fn row_matches(e: &FilterEntry, ns: Option<&str>, key: &str) -> (r: bool)
    ensures
        r == (row_view(*e).0 == opt_view(ns) && row_view(*e).1 == key@),
{
    let ns_matches = match (e.namespace, ns) {
        (Some(a), Some(b)) => str_eq(a, b),
        (None, None) => true,
        _ => false,
    };
    ns_matches && str_eq(e.key, key)
}

fn scan_registry(rows: &Vec<FilterEntry>, ns: Option<&str>, key: &str) -> (r: Option<FilterAction>)
    requires
        rows@.map_values(|e: FilterEntry| row_view(e)) == registry_rows(),
    ensures
        r == first_row(opt_view(ns), key@, 0),
{
    let ghost nsv = opt_view(ns);
    proof {
        assert(rows@.len() == 6) by {
            assert(rows@.map_values(|e: FilterEntry| row_view(e)).len() == 6);
        }
    }
    let mut i: usize = 0;
    while i < rows.len()
        invariant
            rows@.map_values(|e: FilterEntry| row_view(e)) == registry_rows(),
            rows@.len() == 6,
            nsv == opt_view(ns),
            i <= rows@.len(),
            first_row(nsv, key@, 0) == first_row(nsv, key@, i as int),
        decreases rows@.len() - i,
    {
        proof {
            assert(rows@.map_values(|e: FilterEntry| row_view(e))[i as int] == row_view(rows@[i as int]));
            assert(registry_rows()[i as int] == row_view(rows@[i as int]));
            assert(first_row(nsv, key@, i as int) == if registry_rows()[i as int].0 == nsv
                && registry_rows()[i as int].1 == key@ {
                Some(registry_rows()[i as int].2)
            } else {
                first_row(nsv, key@, i + 1)
            });
        }
        let e = rows[i];
        let m = row_matches(&e, ns, key);
        if m {
            return Some(e.action);
        }
        i = i + 1;
    }
    None
}

/// The registry action for a (namespace, key) pair.
pub fn lookup(ns: Option<&str>, key: &str) -> (r: Option<FilterAction>)
    ensures
        r == lookup_filter(opt_view(ns), key@),
{
    let rows = registry();
    match scan_registry(&rows, ns, key) {
        Some(a) => Some(a),
        None => scan_registry(&rows, ns, "*"),
    }
}

/// The module's documented keys that the registry supports, in order.
pub open spec fn supported_keys<V>(module: Seq<char>, specs: Seq<(Seq<char>, V)>) -> Seq<(Seq<char>, V)>
    decreases specs.len(),
{
    if specs.len() == 0 {
        specs
    } else {
        let rest = supported_keys(module, specs.drop_last());
        if lookup_filter(Some(module), specs.last().0).is_some() {
            rest.push(specs.last())
        } else {
            rest
        }
    }
}

/// Keeping the supported keys commutes with changing the values.
pub proof fn lemma_supported_keys_map_values<V, W>(
    module: Seq<char>,
    s: Seq<(Seq<char>, V)>,
    f: spec_fn(V) -> W,
)
    ensures
        supported_keys(module, s).map_values(|p: (Seq<char>, V)| (p.0, f(p.1))) == supported_keys(
            module,
            s.map_values(|p: (Seq<char>, V)| (p.0, f(p.1))),
        ),
    decreases s.len(),
{
    let g = |p: (Seq<char>, V)| (p.0, f(p.1));
    let ms = s.map_values(g);
    if s.len() > 0 {
        lemma_supported_keys_map_values(module, s.drop_last(), f);
        assert(ms.drop_last() =~= s.drop_last().map_values(g));
        assert(ms.last() == g(s.last()));
        assert(supported_keys(module, s).map_values(g) =~= supported_keys(module, ms));
    } else {
        assert(supported_keys(module, s).map_values(g) =~= supported_keys(module, ms));
    }
}

/// Keeps the filter specs of a module whose keys the registry supports.
pub fn supported_module_filter_specs(
    module_id: &'static str,
    specs: Vec<(&'static str, FilterKeyMetadata)>,
) -> (r: Vec<(&'static str, FilterKeyMetadata)>)
    ensures
        entry_views(r@) == supported_keys(module_id@, entry_views(specs@)),
{
    let ghost all = entry_views(specs@);
    let mut kept: Vec<(&'static str, FilterKeyMetadata)> = Vec::new();
    for item in it: specs
        invariant
            all == entry_views(it.seq()),
            entry_views(kept@) == supported_keys(module_id@, all.take(it.index() as int)),
    {
        let ghost i = it.index();
        proof {
            assert(all.take(i + 1).drop_last() =~= all.take(i as int));
            assert(all.take(i + 1).last() == all[i as int]);
            assert(all[i as int] == (item.0@, item.1));
        }
        if lookup(Some(module_id), item.0).is_some() {
            kept.push(item);
            proof {
                assert(entry_views(kept@) =~= supported_keys(module_id@, all.take(i as int)).push(all[i as int]));
            }
        }
    }
    proof {
        assert(all.take(all.len() as int) =~= all);
    }
    kept
}

/// Key-only sorted insertion, folded over a list of keys.
pub open spec fn sorted_key_set(keys: Seq<Seq<char>>) -> Seq<(Seq<char>, ())>
    decreases keys.len(),
{
    if keys.len() == 0 {
        Seq::empty()
    } else {
        insert_sorted(sorted_key_set(keys.drop_last()), keys.last(), ())
    }
}

/// Forgetting the values of an entry sequence.
pub open spec fn unit_values<V>(s: Seq<(Seq<char>, V)>) -> Seq<(Seq<char>, ())> {
    s.map_values(|p: (Seq<char>, V)| (p.0, ()))
}

/// The namespace names of the catalog, in key order.
pub open spec fn catalog_namespace_names() -> Seq<Seq<char>> {
    seq!["icmp"@, "metadata"@, "usage"@]
}

/// The keys the catalog lists for a namespace, in key order.
pub open spec fn catalog_namespace_keys(ns: Seq<char>) -> Seq<Seq<char>> {
    if ns == "icmp"@ {
        seq!["status"@]
    } else if ns == "metadata"@ {
        seq!["*"@]
    } else if ns == "usage"@ {
        seq!["inactive_console_for"@, "no_users_for"@, "status"@]
    } else {
        Seq::empty()
    }
}

/// Builds a namespace's key map from its (key, documentation) pairs.
fn namespace_map(specs: Vec<(&'static str, FilterKeyMetadata)>) -> (r: Vec<(&'static str, FilterKeyMetadata)>)
    ensures
        unit_values(entry_views(r@)) == sorted_key_set(keys_of(entry_views(specs@))),
{
    let ghost all = entry_views(specs@);
    let mut inner: Vec<(&'static str, FilterKeyMetadata)> = Vec::new();
    proof {
        assert(unit_values(entry_views(inner@)) =~= sorted_key_set(keys_of(all.take(0))));
    }
    for item in it: specs
        invariant
            all == entry_views(it.seq()),
            unit_values(entry_views(inner@)) == sorted_key_set(keys_of(all.take(it.index() as int))),
    {
        let ghost i = it.index();
        let ghost before = entry_views(inner@);
        insert_entry(&mut inner, item.0, item.1);
        proof {
            let f = |v: FilterKeyMetadata| ();
            crate::sorted::lemma_insert_sorted_map_values(before, item.0@, item.1, f);
            assert(unit_values(before) =~= before.map_values(|p: (Seq<char>, FilterKeyMetadata)| (p.0, f(p.1))));
            assert(unit_values(entry_views(inner@)) =~= entry_views(inner@).map_values(
                |p: (Seq<char>, FilterKeyMetadata)| (p.0, f(p.1)),
            ));
            assert(keys_of(all.take(i + 1)).drop_last() =~= keys_of(all.take(i as int)));
            assert(all[i as int] == (item.0@, item.1));
            assert(unit_values(entry_views(inner@)) =~= insert_sorted(unit_values(before), item.0@, ()));
        }
    }
    proof {
        assert(all.take(all.len() as int) =~= all);
    }
    inner
}

/// The example queries the catalog shows.
pub open spec fn catalog_examples() -> Seq<Seq<char>> {
    seq![
        "/v1/hosts?icmp.status=down&group=core"@,
        "/v1/hosts?metadata.room=net-a"@,
        "/v1/hosts?usage.status=error"@,
        "/v1/hosts?icmp.status=up&group=core&usage.no_users_for=7days"@,
    ]
}

/// The catalog of filter keys: `group`, `metadata.*`, and each module's
/// documented keys that the registry supports.
pub fn catalog() -> (r: FilterNamespaceCatalog)
    ensures
        unit_values(entry_views(r.bare@)) == seq![("group"@, ())],
        nested_units(r.namespaces@) == catalog_after(2),
        r.examples@.len() == 4,
        r.examples@.map_values(|e: &'static str| e@) == catalog_examples(),
{
    proof {
        reveal_strlit("group");
        reveal_strlit("*");
        reveal_strlit("icmp");
        reveal_strlit("metadata");
        reveal_strlit("usage");
        reveal_strlit("status");
        reveal_strlit("inactive_console_for");
        reveal_strlit("no_users_for");
    }
    let mut bare: Vec<(&'static str, FilterKeyMetadata)> = Vec::new();
    insert_entry(&mut bare, "group", FilterKeyMetadata {
        value_type: "string",
        values: Vec::new(),
        description: "host must belong to the named group",
    });
    let mut metadata_keys: Vec<(&'static str, FilterKeyMetadata)> = Vec::new();
    insert_entry(&mut metadata_keys, "*", FilterKeyMetadata {
        value_type: "string",
        values: Vec::new(),
        description: "host metadata field must match exactly, for example metadata.room=net-a",
    });
    let mut namespaces: Vec<(&'static str, Vec<(&'static str, FilterKeyMetadata)>)> = Vec::new();
    insert_entry(&mut namespaces, "metadata", metadata_keys);
    let modules = module_registry();
    proof {
        let mk = entry_views(namespaces@)[0].1;
        assert(entry_views(namespaces@) =~= seq![("metadata"@, mk)]);
        assert(unit_values(entry_views(mk@)) =~= seq![("*"@, ())]);
        assert(nested_units(namespaces@)[0] == ("metadata"@, unit_values(entry_views(mk@))));
        assert(nested_units(namespaces@) =~= catalog_after(0));
        assert(unit_values(entry_views(bare@)) =~= seq![("group"@, ())]);
    }
    for kind in it: modules
        invariant
            it.seq() == seq![ModuleKind::Icmp, ModuleKind::Usage],
            nested_units(namespaces@) == catalog_after(it.index()),
            unit_values(entry_views(bare@)) == seq![("group"@, ())],
    {
        let ghost before = namespaces@;
        let ghost k = it.index();
        assert(kind == seq![ModuleKind::Icmp, ModuleKind::Usage][k]);
        let meta = kind.metadata();
        let specs = kind.filter_specs();
        let ghost spec_views = entry_views(specs@);
        let supported = supported_module_filter_specs(meta.id, specs);
        let keys = namespace_map(supported);
        proof {
            reveal_with_fuel(first_row, 7);
            reveal_with_fuel(supported_keys, 4);
            reveal_with_fuel(sorted_key_set, 4);
            reveal_with_fuel(insert_sorted, 4);
        }
        proof {
            lemma_module_catalog_units(kind, spec_views);
            assert(meta.id@ == module_id(kind));
            assert(unit_values(entry_views(keys@)) == module_catalog_units(kind));
            assert(keys@.len() > 0) by {
                assert(unit_values(entry_views(keys@)).len() > 0);
            }
        }
        if keys.len() > 0 {
            insert_entry(&mut namespaces, meta.id, keys);
            proof {
                lemma_nested_insert(before, meta.id, keys);
                assert(nested_units(namespaces@) == insert_sorted(nested_units(before), module_id(kind), module_catalog_units(kind)));
            }
        }
        proof {
            lemma_catalog_step(k);
            assert(nested_units(namespaces@) == catalog_after(k + 1));
        }
    }
    let mut examples: Vec<&'static str> = Vec::new();
    examples.push("/v1/hosts?icmp.status=down&group=core");
    examples.push("/v1/hosts?metadata.room=net-a");
    examples.push("/v1/hosts?usage.status=error");
    examples.push("/v1/hosts?icmp.status=up&group=core&usage.no_users_for=7days");
    proof {
        assert(examples@.map_values(|e: &'static str| e@) =~= catalog_examples());
    }
    FilterNamespaceCatalog { bare, namespaces, examples }
}

/// The key set a module contributes to the catalog.
pub open spec fn module_catalog_units(kind: ModuleKind) -> Seq<(Seq<char>, ())> {
    match kind {
        ModuleKind::Icmp => seq![("status"@, ())],
        ModuleKind::Usage => seq![("inactive_console_for"@, ()), ("no_users_for"@, ()), ("status"@, ())],
    }
}

/// The filter key literals, spelled out.
pub proof fn lemma_filter_literals()
    ensures
        "group"@ =~= seq!['g', 'r', 'o', 'u', 'p'],
        "*"@ =~= seq!['*'],
        "icmp"@ =~= seq!['i', 'c', 'm', 'p'],
        "metadata"@ =~= seq!['m', 'e', 't', 'a', 'd', 'a', 't', 'a'],
        "usage"@ =~= seq!['u', 's', 'a', 'g', 'e'],
        "status"@ =~= seq!['s', 't', 'a', 't', 'u', 's'],
        "inactive_console_for"@.len() == 20 && "inactive_console_for"@[0] == 'i',
        "no_users_for"@.len() == 12 && "no_users_for"@[0] == 'n',
{
    reveal_strlit("group");
    reveal_strlit("*");
    reveal_strlit("icmp");
    reveal_strlit("metadata");
    reveal_strlit("usage");
    reveal_strlit("status");
    reveal_strlit("inactive_console_for");
    reveal_strlit("no_users_for");
}

proof fn lemma_catalog_step(k: int)
    requires
        0 <= k < 2,
    ensures
        ({
            let kind = seq![ModuleKind::Icmp, ModuleKind::Usage][k];
            insert_sorted(catalog_after(k), module_id(kind), module_catalog_units(kind)) == catalog_after(k + 1)
        }),
{
    lemma_filter_literals();
    let icmp_units = module_catalog_units(ModuleKind::Icmp);
    let usage_units = module_catalog_units(ModuleKind::Usage);
    if k == 0 {
        assert(lex_lt("icmp"@, "metadata"@));
        assert(insert_sorted(catalog_after(0), "icmp"@, icmp_units) =~= catalog_after(1));
    } else {
        assert(!lex_lt("usage"@, "icmp"@));
        assert(!lex_lt("usage"@, "metadata"@));
        let c1 = catalog_after(1);
        assert(c1.drop_first() =~= seq![("metadata"@, seq![("*"@, ())])]);
        assert(c1.drop_first().drop_first() =~= Seq::<(Seq<char>, Seq<(Seq<char>, ())>)>::empty());
        assert("usage"@ != "metadata"@);
        assert(insert_sorted(c1.drop_first().drop_first(), "usage"@, usage_units) =~= seq![("usage"@, usage_units)]);
        assert(insert_sorted(c1.drop_first(), "usage"@, usage_units) =~= seq![("metadata"@, seq![("*"@, ())]), ("usage"@, usage_units)]);
        assert(insert_sorted(c1, "usage"@, usage_units) =~= catalog_after(2));
    }
}

proof fn lemma_module_catalog_units(kind: ModuleKind, s: Seq<(Seq<char>, FilterKeyMetadata)>)
    requires
        keys_of(s) == crate::modules::module_filter_keys(kind),
    ensures
        sorted_key_set(keys_of(supported_keys(module_id(kind), s))) == module_catalog_units(kind),
{
    reveal_strlit("icmp");
    reveal_strlit("metadata");
    reveal_strlit("usage");
    reveal_strlit("group");
    reveal_strlit("*");
    reveal_strlit("status");
    reveal_strlit("inactive_console_for");
    reveal_strlit("no_users_for");
    reveal_with_fuel(first_row, 7);
    assert(s.len() == keys_of(s).len());
    match kind {
        ModuleKind::Icmp => {
            assert(s.len() == 1);
            assert(s[0].0 == "status"@) by { assert(keys_of(s)[0] == s[0].0); }
            assert(lookup_filter(Some("icmp"@), "status"@) == Some(FilterAction::IcmpStatus));
            assert(s.drop_last() =~= Seq::<(Seq<char>, FilterKeyMetadata)>::empty());
            assert(supported_keys("icmp"@, s.drop_last()) =~= Seq::<(Seq<char>, FilterKeyMetadata)>::empty());
            assert(supported_keys("icmp"@, s) =~= seq![s[0]]);
            let ks = keys_of(supported_keys(module_id(kind), s));
            assert(ks =~= seq!["status"@]);
            assert(ks.drop_last() =~= Seq::<Seq<char>>::empty());
            assert(ks.last() == "status"@);
            assert(sorted_key_set(ks.drop_last()) =~= Seq::<(Seq<char>, ())>::empty());
            assert(sorted_key_set(ks) == insert_sorted(Seq::<(Seq<char>, ())>::empty(), "status"@, ()));
            assert(sorted_key_set(ks) =~= module_catalog_units(kind));
        },
        ModuleKind::Usage => {
            assert(s.len() == 3);
            assert(s[0].0 == "status"@) by { assert(keys_of(s)[0] == s[0].0); }
            assert(s[1].0 == "inactive_console_for"@) by { assert(keys_of(s)[1] == s[1].0); }
            assert(s[2].0 == "no_users_for"@) by { assert(keys_of(s)[2] == s[2].0); }
            assert("icmp"@.len() == 4);
            assert("usage"@.len() == 5);
            assert("icmp"@ != "usage"@);
            assert("metadata"@ != "usage"@);
            assert(first_row(Some("usage"@), "status"@, 3) == Some(FilterAction::UsageStatus));
            assert(first_row(Some("usage"@), "status"@, 2) == Some(FilterAction::UsageStatus));
            assert(first_row(Some("usage"@), "status"@, 1) == Some(FilterAction::UsageStatus));
            assert(first_row(Some("usage"@), "status"@, 0) == Some(FilterAction::UsageStatus));
            assert(lookup_filter(Some("usage"@), "status"@) == Some(FilterAction::UsageStatus));
            lemma_filter_literals();
            assert(first_row(Some("usage"@), "inactive_console_for"@, 4) == Some(FilterAction::InactiveConsoleFor));
            assert(first_row(Some("usage"@), "inactive_console_for"@, 0) == Some(FilterAction::InactiveConsoleFor));
            assert(lookup_filter(Some("usage"@), "inactive_console_for"@) == Some(FilterAction::InactiveConsoleFor));
            assert(first_row(Some("usage"@), "no_users_for"@, 5) == Some(FilterAction::NoUsersFor));
            assert(first_row(Some("usage"@), "no_users_for"@, 0) == Some(FilterAction::NoUsersFor));
            assert(lookup_filter(Some("usage"@), "no_users_for"@) == Some(FilterAction::NoUsersFor));
            let s1 = s.take(1);
            let s2 = s.take(2);
            assert(s.drop_last() =~= s2);
            assert(s2.drop_last() =~= s1);
            assert(s1.drop_last() =~= Seq::<(Seq<char>, FilterKeyMetadata)>::empty());
            assert(s1.last() == s[0]);
            assert(s2.last() == s[1]);
            assert(s.last() == s[2]);
            assert(supported_keys("usage"@, s1.drop_last()) =~= Seq::<(Seq<char>, FilterKeyMetadata)>::empty());
            assert(supported_keys("usage"@, s1) =~= s1);
            assert(supported_keys("usage"@, s2) =~= s2);
            assert(supported_keys("usage"@, s) =~= s);
            let ks = keys_of(s);
            assert(ks.drop_last() =~= seq!["status"@, "inactive_console_for"@]);
            assert(ks.drop_last().drop_last() =~= seq!["status"@]);
            assert(ks.drop_last().drop_last().drop_last() =~= Seq::<Seq<char>>::empty());
            let k1 = ks.drop_last().drop_last();
            assert(k1.last() == "status"@);
            assert(sorted_key_set(k1.drop_last()) =~= Seq::<(Seq<char>, ())>::empty());
            let a = sorted_key_set(k1);
            assert(a == insert_sorted(Seq::<(Seq<char>, ())>::empty(), "status"@, ()));
            assert(a =~= seq![("status"@, ())]);
            assert(ks.drop_last().last() == "inactive_console_for"@);
            assert(ks.last() == "no_users_for"@);
            let b = sorted_key_set(ks.drop_last());
            assert(b =~= seq![("inactive_console_for"@, ()), ("status"@, ())]);
            assert(insert_sorted(b.drop_first(), "no_users_for"@, ()) =~= seq![("no_users_for"@, ()), ("status"@, ())]);
            assert(sorted_key_set(ks) =~= module_catalog_units(kind));
        },
    }
}

/// A catalog namespace map by namespace name and key set.
pub open spec fn nested_units(entries: Seq<(&'static str, Vec<(&'static str, FilterKeyMetadata)>)>) -> Seq<
    (Seq<char>, Seq<(Seq<char>, ())>),
> {
    entries.map_values(
        |p: (&'static str, Vec<(&'static str, FilterKeyMetadata)>)|
            (p.0@, unit_values(entry_views(p.1@))),
    )
}

/// The catalog namespaces after `k` modules of the registry were added.
pub open spec fn catalog_after(k: int) -> Seq<(Seq<char>, Seq<(Seq<char>, ())>)> {
    let metadata = ("metadata"@, seq![("*"@, ())]);
    let icmp = ("icmp"@, seq![("status"@, ())]);
    let usage = ("usage"@, seq![("inactive_console_for"@, ()), ("no_users_for"@, ()), ("status"@, ())]);
    if k == 0 {
        seq![metadata]
    } else if k == 1 {
        seq![icmp, metadata]
    } else {
        seq![icmp, metadata, usage]
    }
}

proof fn lemma_nested_insert(
    before: Seq<(&'static str, Vec<(&'static str, FilterKeyMetadata)>)>,
    ns: &'static str,
    keys: Vec<(&'static str, FilterKeyMetadata)>,
)
    ensures
        forall|after: Seq<(&'static str, Vec<(&'static str, FilterKeyMetadata)>)>|
            entry_views(after) == insert_sorted(entry_views(before), ns@, keys) ==> #[trigger] nested_units(after)
                == insert_sorted(nested_units(before), ns@, unit_values(entry_views(keys@))),
{
    let f = |v: Vec<(&'static str, FilterKeyMetadata)>| unit_values(entry_views(v@));
    crate::sorted::lemma_insert_sorted_map_values(entry_views(before), ns@, keys, f);
    assert forall|after: Seq<(&'static str, Vec<(&'static str, FilterKeyMetadata)>)>|
        entry_views(after) == insert_sorted(entry_views(before), ns@, keys) implies #[trigger] nested_units(after)
            == insert_sorted(nested_units(before), ns@, unit_values(entry_views(keys@))) by {
        assert(nested_units(after) =~= entry_views(after).map_values(
            |p: (Seq<char>, Vec<(&'static str, FilterKeyMetadata)>)| (p.0, f(p.1)),
        ));
        assert(nested_units(before) =~= entry_views(before).map_values(
            |p: (Seq<char>, Vec<(&'static str, FilterKeyMetadata)>)| (p.0, f(p.1)),
        ));
    }
}

/// A fresh copy of the catalog.
pub fn namespace_catalog() -> (r: FilterNamespaceCatalog)
    ensures
        unit_values(entry_views(r.bare@)) == seq![("group"@, ())],
        nested_units(r.namespaces@) == catalog_after(2),
        r.examples@.len() == 4,
        r.examples@.map_values(|e: &'static str| e@) == catalog_examples(),
{
    catalog()
}

/// The key texts of a unit entry sequence.
proof fn lemma_keys_of_units<V>(s: Seq<(Seq<char>, V)>)
    ensures
        keys_of(s) == keys_of(unit_values(s)),
{
    assert(keys_of(s) =~= keys_of(unit_values(s)));
}

/// `group`: the bare keys, joined.
pub open spec fn known_bare_keys_text() -> Seq<char> {
    join_comma(seq!["group"@])
}

/// The namespaces, joined.
pub open spec fn known_namespaces_text() -> Seq<char> {
    join_comma(catalog_namespace_names())
}

/// The valid keys of a namespace as error messages list them.
pub open spec fn namespace_keys_text(ns: Seq<char>) -> Seq<char> {
    if ns == "metadata"@ {
        "any field name"@
    } else if ns == "icmp"@ || ns == "usage"@ {
        join_comma(catalog_namespace_keys(ns))
    } else {
        Seq::empty()
    }
}

/// The bare keys of the catalog, joined by `", "`.
pub fn known_bare_keys() -> (r: String)
    ensures
        r@ == known_bare_keys_text(),
{
    let cat = catalog();
    let keys = entry_keys(&cat.bare);
    proof {
        lemma_keys_of_units(entry_views(cat.bare@));
        assert(keys_of(unit_values(entry_views(cat.bare@))) =~= seq!["group"@]);
    }
    join(&keys)
}

/// The namespaces of the catalog, joined by `", "`.
pub fn known_namespaces() -> (r: String)
    ensures
        r@ == known_namespaces_text(),
{
    let cat = catalog();
    let keys = entry_keys(&cat.namespaces);
    proof {
        assert(nested_units(cat.namespaces@).len() == 3);
        assert(cat.namespaces@.len() == 3);
        assert(keys_of(entry_views(cat.namespaces@)) =~= catalog_namespace_names()) by {
            assert forall|i: int| 0 <= i < 3 implies keys_of(entry_views(cat.namespaces@))[i]
                == catalog_namespace_names()[i] by {
                assert(nested_units(cat.namespaces@)[i] == catalog_after(2)[i]);
                assert(keys_of(entry_views(cat.namespaces@))[i] == cat.namespaces@[i].0@);
            }
        }
    }
    join(&keys)
}

/// The valid keys of a namespace: "any field name" where the namespace
/// takes any key, else its keys joined; empty for an unknown namespace.
pub fn known_namespace_keys(ns: &str) -> (r: String)
    ensures
        r@ == namespace_keys_text(ns@),
{
    let cat = catalog();
    proof {
        lemma_filter_literals();
        assert(nested_units(cat.namespaces@).len() == 3);
        assert forall|i: int| 0 <= i < 3 implies (#[trigger] cat.namespaces@[i]).0@ == catalog_after(2)[i].0
            && unit_values(entry_views(cat.namespaces@[i].1@)) == catalog_after(2)[i].1 by {
            assert(nested_units(cat.namespaces@)[i] == catalog_after(2)[i]);
        }
    }
    match crate::sorted::find_entry(&cat.namespaces, ns) {
        Some(i) => {
            let inner = &cat.namespaces[i].1;
            let ghost units = unit_values(entry_views(inner@));
            proof {
                lemma_keys_of_units(entry_views(inner@));
            }
            if crate::sorted::find_entry(inner, "*").is_some() {
                proof {
                    if ns@ != "metadata"@ {
                        let j = choose|j: int| 0 <= j < inner@.len() && (#[trigger] inner@[j]).0@ == "*"@;
                        assert(units[j].0 == "*"@);
                    }
                }
                "any field name".to_owned()
            } else {
                let keys = entry_keys(inner);
                proof {
                    if ns@ == "metadata"@ {
                        assert(units[0].0 == "*"@);
                        assert(inner@[0].0@ == "*"@);
                    }
                    assert(keys_of(units) =~= catalog_namespace_keys(ns@));
                }
                join(&keys)
            }
        },
        None => {
            proof {
                assert(cat.namespaces@[0].0@ == "icmp"@);
                assert(cat.namespaces@[1].0@ == "metadata"@);
                assert(cat.namespaces@[2].0@ == "usage"@);
            }
            String::new()
        },
    }
}

/// Why a filter query was refused.
#[derive(Debug, PartialEq, Eq)]
pub enum FilterParseError {
    InvalidKey { key: String },
    UnknownBareKey { key: String, bare: String, namespaces: String },
    UnknownNamespace { namespace: String, namespaces: String },
    UnknownNamespaceKey { namespace: String, key: String, valid: String },
    InvalidValue { name: String, value: String, message: String },
}

/// A refused filter query, by its texts.
pub enum FilterParseErrorView {
    InvalidKey { key: Seq<char> },
    UnknownBareKey { key: Seq<char>, bare: Seq<char>, namespaces: Seq<char> },
    UnknownNamespace { namespace: Seq<char>, namespaces: Seq<char> },
    UnknownNamespaceKey { namespace: Seq<char>, key: Seq<char>, valid: Seq<char> },
    InvalidValue { name: Seq<char>, value: Seq<char>, message: Seq<char> },
}

impl View for FilterParseError {
    type V = FilterParseErrorView;

    open spec fn view(&self) -> FilterParseErrorView {
        match self {
            FilterParseError::InvalidKey { key } => FilterParseErrorView::InvalidKey { key: key@ },
            FilterParseError::UnknownBareKey { key, bare, namespaces } => FilterParseErrorView::UnknownBareKey {
                key: key@,
                bare: bare@,
                namespaces: namespaces@,
            },
            FilterParseError::UnknownNamespace { namespace, namespaces } => FilterParseErrorView::UnknownNamespace {
                namespace: namespace@,
                namespaces: namespaces@,
            },
            FilterParseError::UnknownNamespaceKey { namespace, key, valid } => FilterParseErrorView::UnknownNamespaceKey {
                namespace: namespace@,
                key: key@,
                valid: valid@,
            },
            FilterParseError::InvalidValue { name, value, message } => FilterParseErrorView::InvalidValue {
                name: name@,
                value: value@,
                message: message@,
            },
        }
    }
}

/// The text of a refused filter query.
pub open spec fn filter_error_message(e: FilterParseErrorView) -> Seq<char> {
    match e {
        FilterParseErrorView::InvalidKey { key } => "invalid filter key "@ + debug_quoted(key)
            + "; expected either group or namespace.key"@,
        FilterParseErrorView::UnknownBareKey { key, bare, namespaces } => "unknown filter key "@
            + debug_quoted(key) + "; valid bare keys: "@ + bare + "; valid namespaces: "@ + namespaces,
        FilterParseErrorView::UnknownNamespace { namespace, namespaces } => "unknown filter namespace "@
            + debug_quoted(namespace) + "; valid namespaces: "@ + namespaces,
        FilterParseErrorView::UnknownNamespaceKey { namespace, key, valid } => "unknown filter key "@
            + namespace + "."@ + key + "; valid keys for "@ + namespace + ": "@ + valid,
        FilterParseErrorView::InvalidValue { name, value, message } => name + "="@ + debug_quoted(value)
            + ": "@ + message,
    }
}

impl FilterParseError {
    /// The message the API returns for this error.
    pub fn message(&self) -> (r: String)
        ensures
            r@ == filter_error_message(self@),
    {
        match self {
            FilterParseError::InvalidKey { key } => {
                let mut s = "invalid filter key ".to_owned();
                s.append(quote(key.as_str()).as_str());
                s.append("; expected either group or namespace.key");
                s
            },
            FilterParseError::UnknownBareKey { key, bare, namespaces } => {
                let mut s = "unknown filter key ".to_owned();
                s.append(quote(key.as_str()).as_str());
                s.append("; valid bare keys: ");
                s.append(bare.as_str());
                s.append("; valid namespaces: ");
                s.append(namespaces.as_str());
                s
            },
            FilterParseError::UnknownNamespace { namespace, namespaces } => {
                let mut s = "unknown filter namespace ".to_owned();
                s.append(quote(namespace.as_str()).as_str());
                s.append("; valid namespaces: ");
                s.append(namespaces.as_str());
                s
            },
            FilterParseError::UnknownNamespaceKey { namespace, key, valid } => {
                let mut s = "unknown filter key ".to_owned();
                s.append(namespace.as_str());
                s.append(".");
                s.append(key.as_str());
                s.append("; valid keys for ");
                s.append(namespace.as_str());
                s.append(": ");
                s.append(valid.as_str());
                s
            },
            FilterParseError::InvalidValue { name, value, message } => {
                let mut s = name.clone();
                s.append("=");
                s.append(quote(value.as_str()).as_str());
                s.append(": ");
                s.append(message.as_str());
                s
            },
        }
    }
}

/// The error for an unknown bare key.
pub open spec fn unknown_bare_key_error(key: Seq<char>) -> FilterParseErrorView {
    FilterParseErrorView::UnknownBareKey { key, bare: known_bare_keys_text(), namespaces: known_namespaces_text() }
}

/// The error for an unknown namespace.
pub open spec fn unknown_namespace_error(ns: Seq<char>) -> FilterParseErrorView {
    FilterParseErrorView::UnknownNamespace { namespace: ns, namespaces: known_namespaces_text() }
}

/// The error for an unknown key in a known namespace.
pub open spec fn unknown_namespace_key_error(ns: Seq<char>, key: Seq<char>) -> FilterParseErrorView {
    FilterParseErrorView::UnknownNamespaceKey { namespace: ns, key, valid: namespace_keys_text(ns) }
}

/// The error for a value its key refuses.
pub open spec fn invalid_value_error(name: Seq<char>, value: Seq<char>, message: Seq<char>) -> FilterParseErrorView {
    FilterParseErrorView::InvalidValue { name, value, message }
}

fn unknown_bare_key(key: &str) -> (r: FilterParseError)
    ensures
        r@ == unknown_bare_key_error(key@),
{
    FilterParseError::UnknownBareKey { key: key.to_owned(), bare: known_bare_keys(), namespaces: known_namespaces() }
}

fn unknown_namespace(ns: &str) -> (r: FilterParseError)
    ensures
        r@ == unknown_namespace_error(ns@),
{
    FilterParseError::UnknownNamespace { namespace: ns.to_owned(), namespaces: known_namespaces() }
}

fn unknown_namespace_key(ns: &str, key: &str) -> (r: FilterParseError)
    ensures
        r@ == unknown_namespace_key_error(ns@, key@),
{
    FilterParseError::UnknownNamespaceKey {
        namespace: ns.to_owned(),
        key: key.to_owned(),
        valid: known_namespace_keys(ns),
    }
}

fn invalid_value(name: &str, value: &str, message: String) -> (r: FilterParseError)
    ensures
        r@ == invalid_value_error(name@, value@, message@),
{
    FilterParseError::InvalidValue { name: name.to_owned(), value: value.to_owned(), message }
}

/// Whether the catalog has this namespace.
fn is_catalog_namespace(ns: &str) -> (r: bool)
    ensures
        r == catalog_namespace_names().contains(ns@),
{
    let cat = catalog();
    proof {
        assert(cat.namespaces@.len() == 3) by {
            assert(nested_units(cat.namespaces@).len() == 3);
        }
        assert forall|i: int| 0 <= i < 3 implies (#[trigger] cat.namespaces@[i]).0@ == catalog_namespace_names()[i] by {
            assert(nested_units(cat.namespaces@)[i] == catalog_after(2)[i]);
        }
    }
    let found = crate::sorted::find_entry(&cat.namespaces, ns);
    proof {
        if found.is_none() {
            assert forall|i: int| 0 <= i < 3 implies catalog_namespace_names()[i] != ns@ by {
                assert(cat.namespaces@[i].0@ == catalog_namespace_names()[i]);
            }
        } else {
            let i = found.unwrap() as int;
            assert(catalog_namespace_names()[i] == ns@);
        }
    }
    found.is_some()
}

/// A filter key split at its first dot.
pub enum KeySplit {
    Bare(Seq<char>),
    Namespaced(Seq<char>, Seq<char>),
    Invalid,
}

/// `group` is bare; `namespace.key` needs both parts non-empty and no
/// second dot.
pub open spec fn split_key(raw: Seq<char>) -> KeySplit {
    match raw.index_of_first('.') {
        None => KeySplit::Bare(raw),
        Some(i) => if i == 0 || i + 1 == raw.len() || raw.skip(i + 1).contains('.') {
            KeySplit::Invalid
        } else {
            KeySplit::Namespaced(raw.take(i), raw.skip(i + 1))
        },
    }
}

/// A split filter key.
#[derive(Debug)]
pub enum FilterKey {
    Bare(String),
    Namespaced { namespace: String, key: String },
}

/// Splits a filter key at its first dot.
pub fn split_filter_key(key: &str) -> (r: Result<FilterKey, FilterParseError>)
    ensures
        match (r, split_key(key@)) {
            (Ok(FilterKey::Bare(k)), KeySplit::Bare(sk)) => k@ == sk,
            (Ok(FilterKey::Namespaced { namespace, key: k }), KeySplit::Namespaced(sn, sk)) => namespace@ == sn
                && k@ == sk,
            (Err(e), KeySplit::Invalid) => e@ == (FilterParseErrorView::InvalidKey { key: key@ }),
            _ => false,
        },
{
    let cs = chars_of(key);
    proof {
        key@.index_of_first_ensures('.');
    }
    let mut i: usize = 0;
    while i < cs.len() && cs[i] != '.'
        invariant
            cs@ == key@,
            i <= cs@.len(),
            forall|j: int| 0 <= j < i ==> cs@[j] != '.',
        decreases cs@.len() - i,
    {
        i = i + 1;
    }
    if i == cs.len() {
        proof {
            assert(!key@.contains('.'));
        }
        return Ok(FilterKey::Bare(key.to_owned()));
    }
    proof {
        let f = key@.index_of_first('.');
        assert(key@.contains('.')) by {
            assert(key@[i as int] == '.');
        }
        let fi = f.unwrap();
        assert(fi == i) by {
            if fi < i {
                assert(cs@[fi] != '.');
            } else if fi > i {
                assert(key@[i as int] == '.');
            }
        }
    }
    let mut j: usize = i + 1;
    let mut extra = false;
    while j < cs.len()
        invariant
            cs@ == key@,
            i < cs@.len(),
            i + 1 <= j <= cs@.len(),
            extra == (exists|m: int| i + 1 <= m < j && cs@[m] == '.'),
        decreases cs@.len() - j,
    {
        if cs[j] == '.' {
            extra = true;
        }
        j = j + 1;
    }
    proof {
        let rest = key@.skip(i + 1);
        if extra {
            let m = choose|m: int| i + 1 <= m < cs@.len() && cs@[m] == '.';
            assert(rest[m - i - 1] == '.');
        } else {
            assert forall|m: int| 0 <= m < rest.len() implies rest[m] != '.' by {
                assert(rest[m] == cs@[m + i + 1]);
            }
        }
    }
    if i == 0 || i + 1 == cs.len() || extra {
        return Err(FilterParseError::InvalidKey { key: key.to_owned() });
    }
    let namespace = string_of(&cs, 0, i);
    let child = string_of(&cs, i + 1, cs.len());
    proof {
        assert(cs@.subrange(0, i as int) =~= key@.take(i as int));
        assert(cs@.subrange(i + 1, cs@.len() as int) =~= key@.skip(i + 1));
    }
    Ok(FilterKey::Namespaced { namespace, key: child })
}

/// What `humantime::parse_duration` gives for a text: the duration in
/// nanoseconds, or the text of its error.
pub uninterp spec fn humantime_duration(text: Seq<char>) -> Result<u128, Seq<char>>;

/// The number of ASCII digits in a text.
pub open spec fn digit_count(text: Seq<char>) -> nat
    decreases text.len(),
{
    if text.len() == 0 {
        0
    } else {
        digit_count(text.drop_last()) + if '0' <= text.last() && text.last() <= '9' { 1nat } else { 0nat }
    }
}

/// The most digits a duration query value with parts below a second may
/// hold. Each span of a
/// `humantime` duration is at most a year (31 557 600 s) per unit of its
/// integer part, plus less than one unit for a fraction, so a text with at
/// most eleven digits stays below 10^11 years, about 3.2e18 s, far from
/// `u64::MAX` seconds, where `parse_duration` can panic when it adds a
/// nanosecond part of exactly one second.
pub const MAX_DURATION_DIGITS: usize = 11;

/// Counts the ASCII digits of a text.
fn count_digits(text: &str) -> (r: usize)
    ensures
        r == digit_count(text@),
{
    let cs = chars_of(text);
    let mut n: usize = 0;
    let mut i: usize = 0;
    while i < cs.len()
        invariant
            0 <= i <= cs@.len(),
            cs@ == text@,
            n == digit_count(cs@.take(i as int)),
            n <= i,
        decreases cs.len() - i,
    {
        proof {
            assert(cs@.take(i + 1).drop_last() =~= cs@.take(i as int));
        }
        if '0' <= cs[i] && cs[i] <= '9' {
            n = n + 1;
        }
        i = i + 1;
    }
    proof {
        assert(cs@.take(cs@.len() as int) =~= cs@);
    }
    n
}

/// A character `humantime` reads as part of a unit name.
pub open spec fn is_unit_char(c: char) -> bool {
    ('a' <= c && c <= 'z') || ('A' <= c && c <= 'Z') || c == 'µ'
}

/// A unit name below one second.
pub open spec fn is_subsecond_unit(u: Seq<char>) -> bool {
    ||| u == "nanos"@ || u == "nsec"@ || u == "ns"@
    ||| u == "usec"@ || u == "us"@ || u == "µs"@
    ||| u == "millis"@ || u == "msec"@ || u == "ms"@
}

/// `text[i..j]` is a whole unit name: unit characters, not preceded or
/// followed by one.
pub open spec fn unit_run(text: Seq<char>, i: int, j: int) -> bool {
    &&& 0 <= i < j <= text.len()
    &&& forall|k: int| i <= k < j ==> is_unit_char(#[trigger] text[k])
    &&& i == 0 || !is_unit_char(text[i - 1])
    &&& j == text.len() || !is_unit_char(text[j])
}

/// Whether a duration text can add up nanoseconds: it has a decimal point or
/// a unit below one second. Without either, every span is whole seconds.
pub open spec fn has_subsecond_part(text: Seq<char>) -> bool {
    ||| text.contains('.')
    ||| exists|i: int, j: int| unit_run(text, i, j) && #[trigger] is_subsecond_unit(text.subrange(i, j))
}

fn subsecond_name(cs: &Vec<char>, start: usize, end: usize) -> (r: bool)
    requires
        start <= end <= cs@.len(),
    ensures
        r == is_subsecond_unit(cs@.subrange(start as int, end as int)),
{
    let u = string_of(cs, start, end);
    let s = u.as_str();
    str_eq(s, "nanos") || str_eq(s, "nsec") || str_eq(s, "ns") || str_eq(s, "usec") || str_eq(s, "us")
        || str_eq(s, "µs") || str_eq(s, "millis") || str_eq(s, "msec") || str_eq(s, "ms")
}

/// Whether a duration text has a decimal point or a unit below one second.
fn subsecond_part(text: &str) -> (r: bool)
    ensures
        r == has_subsecond_part(text@),
{
    let cs = chars_of(text);
    let ghost t = cs@;
    let mut run: Option<usize> = None;
    let mut k: usize = 0;
    while k < cs.len()
        invariant
            0 <= k <= t.len(),
            t == cs@,
            t == text@,
            forall|m: int| 0 <= m < k ==> t[m] != '.',
            forall|i: int, j: int| #![trigger unit_run(t, i, j)] j < k && unit_run(t, i, j) ==> !is_subsecond_unit(t.subrange(i, j)),
            match run {
                Some(s) => s < k && (s == 0 || !is_unit_char(t[s - 1])) && forall|m: int|
                    s <= m < k ==> is_unit_char(#[trigger] t[m]),
                None => k == 0 || !is_unit_char(t[k - 1]),
            },
        decreases cs.len() - k,
    {
        let c = cs[k];
        if c == '.' {
            proof {
                assert(t[k as int] == '.');
            }
            return true;
        }
        let unit = ('a' <= c && c <= 'z') || ('A' <= c && c <= 'Z') || c == 'µ';
        if unit {
            if run.is_none() {
                run = Some(k);
            }
        } else {
            if let Some(s) = run {
                proof {
                    assert(unit_run(t, s as int, k as int));
                }
                if subsecond_name(&cs, s, k) {
                    return true;
                }
                proof {
                    assert forall|i: int| #![trigger unit_run(t, i, k as int)] unit_run(t, i, k as int) implies i == s by {
                        if i < s {
                            assert(is_unit_char(t[s - 1]));
                        } else if i > s {
                            assert(is_unit_char(t[i - 1]));
                        }
                    }
                }
            } else {
                proof {
                    assert forall|i: int| #![trigger unit_run(t, i, k as int)] !unit_run(t, i, k as int) by {
                        if unit_run(t, i, k as int) {
                            assert(is_unit_char(t[k - 1]));
                        }
                    }
                }
            }
            run = None;
        }
        k += 1;
    }
    if let Some(s) = run {
        proof {
            assert(unit_run(t, s as int, k as int));
            assert forall|i: int| #![trigger unit_run(t, i, k as int)] unit_run(t, i, k as int) implies i == s by {
                if i < s {
                    assert(is_unit_char(t[s - 1]));
                } else if i > s {
                    assert(is_unit_char(t[i - 1]));
                }
            }
        }
        if subsecond_name(&cs, s, k) {
            return true;
        }
    } else {
        proof {
            assert forall|i: int| #![trigger unit_run(t, i, k as int)] !unit_run(t, i, k as int) by {
                if unit_run(t, i, k as int) {
                    assert(is_unit_char(t[k - 1]));
                }
            }
        }
    }
    proof {
        assert(!t.contains('.'));
        assert forall|i: int, j: int| unit_run(t, i, j) implies !#[trigger] is_subsecond_unit(t.subrange(i, j)) by {
            assert(unit_run(t, i, j));
        }
    }
    false
}

/// Parses a human-readable duration such as `24h` or `7days` with
/// `humantime::parse_duration`. Trusted: the result is named, not described.
/// The call panics only when the seconds reach `u64::MAX` together with a
/// nanosecond carry of exactly one second. A text of at most eleven digits
/// cannot reach those seconds, and a text with no decimal point and no unit
/// below one second adds no nanoseconds at all.
#[verifier::external_body]
fn parse_humantime(text: &str) -> (r: Result<u128, String>)
    requires
        digit_count(text@) <= MAX_DURATION_DIGITS || !has_subsecond_part(text@),
    ensures
        match r {
            Ok(n) => humantime_duration(text@) == Ok::<u128, Seq<char>>(n),
            Err(e) => humantime_duration(text@) == Err::<u128, Seq<char>>(e@),
        },
{
    match humantime::parse_duration(text) {
        Ok(d) => Ok(d.as_nanos()),
        Err(e) => Err(e.to_string()),
    }
}

/// The status a query value names, if it names one.
pub open spec fn host_status_named(value: Seq<char>) -> Option<HostStatus> {
    if value == "unknown"@ {
        Some(HostStatus::Unknown)
    } else if value == "up"@ {
        Some(HostStatus::Up)
    } else if value == "down"@ {
        Some(HostStatus::Down)
    } else {
        None
    }
}

/// The collection status a query value names, if it names one.
pub open spec fn usage_status_named(value: Seq<char>) -> Option<UsageCollectionStatus> {
    if value == "ok"@ {
        Some(UsageCollectionStatus::Okay)
    } else if value == "error"@ {
        Some(UsageCollectionStatus::Failed)
    } else {
        None
    }
}

/// A duration query value, or the error naming the key it was given for.
pub open spec fn duration_value(name: Seq<char>, value: Seq<char>) -> Result<u128, FilterParseErrorView> {
    if digit_count(value) > MAX_DURATION_DIGITS && has_subsecond_part(value) {
        Err(invalid_value_error(name, value, "duration with parts below a second has more than 11 digits"@))
    } else {
        match humantime_duration(value) {
            Ok(n) => Ok(n),
            Err(m) => Err(invalid_value_error(name, value, m)),
        }
    }
}

fn parse_duration_query(name: &str, value: &str) -> (r: Result<u128, FilterParseError>)
    ensures
        match (r, duration_value(name@, value@)) {
            (Ok(n), Ok(m)) => n == m,
            (Err(e), Err(m)) => e@ == m,
            _ => false,
        },
{
    if count_digits(value) > MAX_DURATION_DIGITS && subsecond_part(value) {
        return Err(invalid_value(name, value, owned("duration with parts below a second has more than 11 digits")));
    }
    match parse_humantime(value) {
        Ok(n) => Ok(n),
        Err(message) => Err(invalid_value(name, value, message)),
    }
}

fn parse_icmp_status(name: &str, value: &str) -> (r: Result<HostStatus, FilterParseError>)
    ensures
        match r {
            Ok(s) => host_status_named(value@) == Some(s),
            Err(e) => host_status_named(value@).is_none()
                && e@ == invalid_value_error(name@, value@, invalid_host_status_message(value@)),
        },
{
    proof {
        reveal_strlit("unknown");
        reveal_strlit("up");
        reveal_strlit("down");
        assert("unknown"@.len() == 7 && "up"@.len() == 2 && "down"@.len() == 4);
    }
    match HostStatus::try_from_str(value) {
        Ok(s) => Ok(s),
        Err(message) => {
            proof {
                assert(crate::domain::icmp::host_status_text(HostStatus::Unknown) != value@);
                assert(crate::domain::icmp::host_status_text(HostStatus::Up) != value@);
                assert(crate::domain::icmp::host_status_text(HostStatus::Down) != value@);
            }
            Err(invalid_value(name, value, message))
        },
    }
}

fn parse_usage_status(name: &str, value: &str) -> (r: Result<UsageCollectionStatus, FilterParseError>)
    ensures
        match r {
            Ok(s) => usage_status_named(value@) == Some(s),
            Err(e) => usage_status_named(value@).is_none()
                && e@ == invalid_value_error(name@, value@, invalid_usage_status_message(value@)),
        },
{
    proof {
        reveal_strlit("ok");
        reveal_strlit("error");
        assert("ok"@.len() == 2 && "error"@.len() == 5);
    }
    match UsageCollectionStatus::try_from_str(value) {
        Ok(s) => Ok(s),
        Err(message) => {
            proof {
                assert(crate::domain::usage::usage_status_text(UsageCollectionStatus::Okay) != value@);
                assert(crate::domain::usage::usage_status_text(UsageCollectionStatus::Failed) != value@);
            }
            Err(invalid_value(name, value, message))
        },
    }
}

/// The usage filter fields a query sets.
pub struct UsageFilterView {
    pub status: Option<UsageCollectionStatus>,
    pub inactive_console_for: Option<u128>,
    pub no_users_for: Option<u128>,
}

/// The host filter fields a query sets; metadata as (field, text) pairs in
/// query order.
pub struct HostFilterView {
    pub icmp_status: Option<HostStatus>,
    pub group: Option<Seq<char>>,
    pub metadata: Seq<(Seq<char>, Seq<char>)>,
    pub usage: UsageFilterView,
}

pub open spec fn usage_filter_view(u: UsageFilter) -> UsageFilterView {
    UsageFilterView { status: u.status, inactive_console_for: u.inactive_console_for, no_users_for: u.no_users_for }
}

/// The views of (text, text) pairs.
pub open spec fn pair_views(pairs: Seq<(String, String)>) -> Seq<(Seq<char>, Seq<char>)> {
    pairs.map_values(|p: (String, String)| (p.0@, p.1@))
}

pub open spec fn host_filter_view(f: HostFilter) -> HostFilterView {
    HostFilterView {
        icmp_status: f.icmp_status,
        group: match f.group { Some(g) => Some(g@), None => None },
        metadata: pair_views(f.metadata@),
        usage: usage_filter_view(f.usage),
    }
}

pub open spec fn empty_usage_filter() -> UsageFilterView {
    UsageFilterView { status: None, inactive_console_for: None, no_users_for: None }
}

pub open spec fn empty_host_filter() -> HostFilterView {
    HostFilterView { icmp_status: None, group: None, metadata: Seq::empty(), usage: empty_usage_filter() }
}

/// Applies a usage action's value.
pub open spec fn apply_usage_action(u: UsageFilterView, action: FilterAction, value: Seq<char>) -> Result<
    UsageFilterView,
    FilterParseErrorView,
> {
    match action {
        FilterAction::UsageStatus => match usage_status_named(value) {
            Some(s) => Ok(UsageFilterView { status: Some(s), ..u }),
            None => Err(invalid_value_error("usage.status"@, value, invalid_usage_status_message(value))),
        },
        FilterAction::InactiveConsoleFor => match duration_value("usage.inactive_console_for"@, value) {
            Ok(n) => Ok(UsageFilterView { inactive_console_for: Some(n), ..u }),
            Err(e) => Err(e),
        },
        FilterAction::NoUsersFor => match duration_value("usage.no_users_for"@, value) {
            Ok(n) => Ok(UsageFilterView { no_users_for: Some(n), ..u }),
            Err(e) => Err(e),
        },
        _ => Ok(u),
    }
}

/// Whether an action sets a usage field.
pub open spec fn is_usage_action(action: FilterAction) -> bool {
    action == FilterAction::UsageStatus || action == FilterAction::InactiveConsoleFor || action
        == FilterAction::NoUsersFor
}

/// Applies a matched action of the host parser.
pub open spec fn apply_host_action(f: HostFilterView, action: FilterAction, key: Seq<char>, value: Seq<char>) -> Result<
    HostFilterView,
    FilterParseErrorView,
> {
    match action {
        FilterAction::Group => Ok(HostFilterView { group: Some(value), ..f }),
        FilterAction::IcmpStatus => match host_status_named(value) {
            Some(s) => Ok(HostFilterView { icmp_status: Some(s), ..f }),
            None => Err(invalid_value_error("icmp.status"@, value, invalid_host_status_message(value))),
        },
        FilterAction::MetadataField => Ok(HostFilterView { metadata: f.metadata.push((key, value)), ..f }),
        _ => match apply_usage_action(f.usage, action, value) {
            Ok(u) => Ok(HostFilterView { usage: u, ..f }),
            Err(e) => Err(e),
        },
    }
}

/// The error for a key the registry does not know.
pub open spec fn lookup_error(ns: Option<Seq<char>>, key: Seq<char>) -> FilterParseErrorView {
    match ns {
        None => unknown_bare_key_error(key),
        Some(n) => if !catalog_namespace_names().contains(n) {
            unknown_namespace_error(n)
        } else {
            unknown_namespace_key_error(n, key)
        },
    }
}

/// One query parameter applied by the host parser.
pub open spec fn host_step(f: HostFilterView, raw: Seq<char>, value: Seq<char>) -> Result<
    HostFilterView,
    FilterParseErrorView,
> {
    let (ns, key) = match split_key(raw) {
        KeySplit::Bare(k) => (None, k),
        KeySplit::Namespaced(n, k) => (Some(n), k),
        KeySplit::Invalid => (None, raw),
    };
    if split_key(raw) is Invalid {
        Err(FilterParseErrorView::InvalidKey { key: raw })
    } else {
        match lookup_filter(ns, key) {
            None => Err(lookup_error(ns, key)),
            Some(action) => apply_host_action(f, action, key, value),
        }
    }
}

/// The host parser over the parameters in order: the first refused
/// parameter decides the error.
pub open spec fn parse_host_params(params: Seq<(Seq<char>, Seq<char>)>) -> Result<HostFilterView, FilterParseErrorView>
    decreases params.len(),
{
    if params.len() == 0 {
        Ok(empty_host_filter())
    } else {
        match parse_host_params(params.drop_last()) {
            Err(e) => Err(e),
            Ok(f) => host_step(f, params.last().0, params.last().1),
        }
    }
}

/// One query parameter applied by the usage parser: only `usage.*` keys.
pub open spec fn usage_step(u: UsageFilterView, raw: Seq<char>, value: Seq<char>) -> Result<
    UsageFilterView,
    FilterParseErrorView,
> {
    match split_key(raw) {
        KeySplit::Invalid => Err(FilterParseErrorView::InvalidKey { key: raw }),
        KeySplit::Bare(k) => Err(unknown_bare_key_error(k)),
        KeySplit::Namespaced(n, k) => match lookup_filter(Some(n), k) {
            None => Err(lookup_error(Some(n), k)),
            Some(action) => if is_usage_action(action) {
                apply_usage_action(u, action, value)
            } else {
                Err(unknown_namespace_key_error(n, k))
            },
        },
    }
}

/// The usage parser over the parameters in order.
pub open spec fn parse_usage_params(params: Seq<(Seq<char>, Seq<char>)>) -> Result<UsageFilterView, FilterParseErrorView>
    decreases params.len(),
{
    if params.len() == 0 {
        Ok(empty_usage_filter())
    } else {
        match parse_usage_params(params.drop_last()) {
            Err(e) => Err(e),
            Ok(u) => usage_step(u, params.last().0, params.last().1),
        }
    }
}

fn apply_usage_value(u: &mut UsageFilter, action: FilterAction, value: &str) -> (r: Result<(), FilterParseError>)
    requires
        is_usage_action(action),
    ensures
        final(u).now == old(u).now,
        match r {
            Ok(()) => apply_usage_action(usage_filter_view(*old(u)), action, value@) == Ok::<
                UsageFilterView,
                FilterParseErrorView,
            >(usage_filter_view(*final(u))),
            Err(e) => apply_usage_action(usage_filter_view(*old(u)), action, value@) == Err::<
                UsageFilterView,
                FilterParseErrorView,
            >(e@),
        },
{
    match action {
        FilterAction::UsageStatus => {
            let s = parse_usage_status("usage.status", value)?;
            u.status = Some(s);
            Ok(())
        },
        FilterAction::InactiveConsoleFor => {
            let n = parse_duration_query("usage.inactive_console_for", value)?;
            u.inactive_console_for = Some(n);
            Ok(())
        },
        _ => {
            let n = parse_duration_query("usage.no_users_for", value)?;
            u.no_users_for = Some(n);
            Ok(())
        },
    }
}

fn lookup_failure(ns: Option<&str>, key: &str) -> (r: FilterParseError)
    ensures
        r@ == lookup_error(opt_view(ns), key@),
{
    match ns {
        None => unknown_bare_key(key),
        Some(n) => if !is_catalog_namespace(n) {
            unknown_namespace(n)
        } else {
            unknown_namespace_key(n, key)
        },
    }
}

fn apply_host_param(f: &mut HostFilter, raw: &str, value: &str) -> (r: Result<(), FilterParseError>)
    ensures
        final(f).usage.now == old(f).usage.now,
        match r {
            Ok(()) => host_step(host_filter_view(*old(f)), raw@, value@) == Ok::<
                HostFilterView,
                FilterParseErrorView,
            >(host_filter_view(*final(f))),
            Err(e) => host_step(host_filter_view(*old(f)), raw@, value@) == Err::<
                HostFilterView,
                FilterParseErrorView,
            >(e@),
        },
{
    let split = split_filter_key(raw)?;
    let (ns, key): (Option<String>, String) = match split {
        FilterKey::Bare(k) => (None, k),
        FilterKey::Namespaced { namespace, key } => (Some(namespace), key),
    };
    let ns_ref: Option<&str> = match &ns {
        Some(n) => Some(n.as_str()),
        None => None,
    };
    let action = match lookup(ns_ref, key.as_str()) {
        Some(a) => a,
        None => {
            return Err(lookup_failure(ns_ref, key.as_str()));
        },
    };
    match action {
        FilterAction::Group => {
            f.group = Some(value.to_owned());
        },
        FilterAction::IcmpStatus => {
            let s = parse_icmp_status("icmp.status", value)?;
            f.icmp_status = Some(s);
        },
        FilterAction::MetadataField => {
            f.metadata.push((key, value.to_owned()));
            proof {
                assert(pair_views(f.metadata@) =~= pair_views(old(f).metadata@).push((key@, value@)));
            }
        },
        _ => {
            apply_usage_value(&mut f.usage, action, value)?;
        },
    }
    Ok(())
}

/// The filter that keeps every host.
pub fn unfiltered_hosts(now: i64) -> (r: HostFilter)
    ensures
        host_filter_view(r) == empty_host_filter(),
        r.usage.now == now,
{
    let f = HostFilter { icmp_status: None, group: None, metadata: Vec::new(), usage: UsageFilter::empty(now) };
    assert(pair_views(f.metadata@) =~= Seq::<(Seq<char>, Seq<char>)>::empty());
    f
}

/// Parses the query parameters of `/v1/hosts` into a host filter, in
/// parameter order; `now` becomes the reference time of the usage filter.
pub fn parse_host_filter(params: &Vec<(String, String)>, now: i64) -> (r: Result<HostFilter, FilterParseError>)
    ensures
        match r {
            Ok(f) => parse_host_params(pair_views(params@)) == Ok::<HostFilterView, FilterParseErrorView>(
                host_filter_view(f),
            ) && f.usage.now == now,
            Err(e) => parse_host_params(pair_views(params@)) == Err::<HostFilterView, FilterParseErrorView>(e@),
        },
{
    let ghost all = pair_views(params@);
    let mut f = unfiltered_hosts(now);
    proof {
        assert(all.take(0) =~= Seq::<(Seq<char>, Seq<char>)>::empty());
    }
    let mut i: usize = 0;
    while i < params.len()
        invariant
            all == pair_views(params@),
            i <= params@.len(),
            f.usage.now == now,
            parse_host_params(all.take(i as int)) == Ok::<HostFilterView, FilterParseErrorView>(host_filter_view(f)),
        decreases params@.len() - i,
    {
        let ghost before = host_filter_view(f);
        let r = apply_host_param(&mut f, params[i].0.as_str(), params[i].1.as_str());
        proof {
            assert(all.take(i + 1).drop_last() =~= all.take(i as int));
            assert(all.take(i + 1).last() == all[i as int]);
            assert(all[i as int] == (params@[i as int].0@, params@[i as int].1@));
        }
        match r {
            Ok(()) => {},
            Err(e) => {
                proof {
                    assert(all.take(i + 1) =~= all.take(i as int).push(all[i as int]));
                    lemma_fold_error_persists(all, i as int + 1);
                }
                return Err(e);
            },
        }
        i = i + 1;
    }
    proof {
        assert(all.take(params@.len() as int) =~= all);
    }
    Ok(f)
}

proof fn lemma_fold_error_persists(all: Seq<(Seq<char>, Seq<char>)>, i: int)
    requires
        0 <= i <= all.len(),
        parse_host_params(all.take(i)) is Err,
    ensures
        parse_host_params(all) == parse_host_params(all.take(i)),
    decreases all.len() - i,
{
    if i < all.len() {
        assert(all.take(i + 1).drop_last() =~= all.take(i));
        lemma_fold_error_persists(all, i + 1);
    } else {
        assert(all.take(i) =~= all);
    }
}

proof fn lemma_usage_fold_error_persists(all: Seq<(Seq<char>, Seq<char>)>, i: int)
    requires
        0 <= i <= all.len(),
        parse_usage_params(all.take(i)) is Err,
    ensures
        parse_usage_params(all) == parse_usage_params(all.take(i)),
    decreases all.len() - i,
{
    if i < all.len() {
        assert(all.take(i + 1).drop_last() =~= all.take(i));
        lemma_usage_fold_error_persists(all, i + 1);
    } else {
        assert(all.take(i) =~= all);
    }
}

fn apply_usage_param(u: &mut UsageFilter, raw: &str, value: &str) -> (r: Result<(), FilterParseError>)
    ensures
        final(u).now == old(u).now,
        match r {
            Ok(()) => usage_step(usage_filter_view(*old(u)), raw@, value@) == Ok::<
                UsageFilterView,
                FilterParseErrorView,
            >(usage_filter_view(*final(u))),
            Err(e) => usage_step(usage_filter_view(*old(u)), raw@, value@) == Err::<
                UsageFilterView,
                FilterParseErrorView,
            >(e@),
        },
{
    let split = split_filter_key(raw)?;
    let (ns, key) = match split {
        FilterKey::Bare(k) => {
            return Err(unknown_bare_key(k.as_str()));
        },
        FilterKey::Namespaced { namespace, key } => (namespace, key),
    };
    let action = match lookup(Some(ns.as_str()), key.as_str()) {
        Some(a) => a,
        None => {
            return Err(lookup_failure(Some(ns.as_str()), key.as_str()));
        },
    };
    match action {
        FilterAction::UsageStatus | FilterAction::InactiveConsoleFor | FilterAction::NoUsersFor => {
            apply_usage_value(u, action, value)
        },
        _ => Err(unknown_namespace_key(ns.as_str(), key.as_str())),
    }
}

/// Parses the query parameters of `/v1/usage`: only `usage.*` keys.
pub fn parse_usage_filter(params: &Vec<(String, String)>, now: i64) -> (r: Result<UsageFilter, FilterParseError>)
    ensures
        match r {
            Ok(u) => parse_usage_params(pair_views(params@)) == Ok::<UsageFilterView, FilterParseErrorView>(
                usage_filter_view(u),
            ) && u.now == now,
            Err(e) => parse_usage_params(pair_views(params@)) == Err::<UsageFilterView, FilterParseErrorView>(e@),
        },
{
    let ghost all = pair_views(params@);
    let mut u = UsageFilter::empty(now);
    proof {
        assert(all.take(0) =~= Seq::<(Seq<char>, Seq<char>)>::empty());
    }
    let mut i: usize = 0;
    while i < params.len()
        invariant
            all == pair_views(params@),
            i <= params@.len(),
            u.now == now,
            parse_usage_params(all.take(i as int)) == Ok::<UsageFilterView, FilterParseErrorView>(usage_filter_view(u)),
        decreases params@.len() - i,
    {
        let r = apply_usage_param(&mut u, params[i].0.as_str(), params[i].1.as_str());
        proof {
            assert(all.take(i + 1).drop_last() =~= all.take(i as int));
            assert(all.take(i + 1).last() == all[i as int]);
            assert(all[i as int] == (params@[i as int].0@, params@[i as int].1@));
        }
        match r {
            Ok(()) => {},
            Err(e) => {
                proof {
                    lemma_usage_fold_error_persists(all, i as int + 1);
                }
                return Err(e);
            },
        }
        i = i + 1;
    }
    proof {
        assert(all.take(params@.len() as int) =~= all);
    }
    Ok(u)
}

} // verus!
