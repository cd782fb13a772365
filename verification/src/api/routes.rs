//! What the routes decide: the history page size, the query parameters a
//! request carries, and the module catalog.
use crate::api::dto::{
    filter_response_doc, filter_response_docs, filter_responses, lemma_sorted_map_of_map_values,
    option_response_doc, sorted_map_of, ConfigOptionResponse, FilterKeyResponse, ModuleResponse,
};
use crate::api::errors::ApiError;
use crate::app::filters::{
    lemma_supported_keys_map_values, supported_keys, supported_module_filter_specs, FilterKeyMetadata,
};
use crate::config::ModuleConfigs;
use crate::modules::{
    filter_doc, filter_docs, module_description, module_enabled_by_default, module_filter_docs,
    module_globally_enabled, module_id, module_name, module_option_docs, option_docs, registry, ModuleKind,
};
use crate::sorted::entry_views;
use crate::text::{concat2, debug_quoted, quote, str_eq};
use vstd::prelude::*;

verus! {

/// Rows a history endpoint returns when the request names no limit.
pub const HISTORY_LIMIT_DEFAULT: usize = 100;

/// The most rows a history endpoint returns.
pub const HISTORY_LIMIT_MAX: usize = 1000;

/// The page size of a history request: the requested limit, or 100, kept
/// within 1..=1000.
pub fn history_limit(limit: Option<usize>) -> (r: usize)
    ensures
        1 <= r <= HISTORY_LIMIT_MAX,
        r == ({
            let l = match limit {
                Some(l) => l,
                None => HISTORY_LIMIT_DEFAULT,
            };
            if l < 1 {
                1
            } else if l > HISTORY_LIMIT_MAX {
                HISTORY_LIMIT_MAX
            } else {
                l
            }
        }),
{
    let l = match limit {
        Some(l) => l,
        None => HISTORY_LIMIT_DEFAULT,
    };
    if l < 1 {
        1
    } else if l > HISTORY_LIMIT_MAX {
        HISTORY_LIMIT_MAX
    } else {
        l
    }
}

/// What `serde_urlencoded::from_str` makes of a query string read as a list
/// of (key, value) pairs: the pairs in order, or the text of its error.
pub uninterp spec fn urlencoded_pairs(query: Seq<char>) -> Result<Seq<(Seq<char>, Seq<char>)>, Seq<char>>;

/// The texts of a list of (key, value) pairs.
pub open spec fn pair_views(v: Seq<(String, String)>) -> Seq<(Seq<char>, Seq<char>)> {
    v.map_values(|p: (String, String)| (p.0@, p.1@))
}

/// Decodes a query string with `serde_urlencoded::from_str` into its
/// (key, value) pairs, in order; its error is given as text. The contract
/// only names the crate's result.
#[verifier::external_body]
fn decode_query(query: &str) -> (r: Result<Vec<(String, String)>, String>)
    ensures
        match r {
            Ok(v) => urlencoded_pairs(query@) == Ok::<Seq<(Seq<char>, Seq<char>)>, Seq<char>>(pair_views(v@)),
            Err(e) => urlencoded_pairs(query@) == Err::<Seq<(Seq<char>, Seq<char>)>, Seq<char>>(e@),
        },
{
    serde_urlencoded::from_str::<Vec<(String, String)>>(query).map_err(|err| err.to_string())
}

/// Whether the key of pair `j` is the key of an earlier pair.
pub open spec fn repeats_earlier(pairs: Seq<(Seq<char>, Seq<char>)>, j: int) -> bool {
    exists|k: int| 0 <= k < j && #[trigger] pairs[k].0 == pairs[j].0
}

/// The first pair from index `j` on whose key repeats an earlier one.
pub open spec fn first_duplicate_from(pairs: Seq<(Seq<char>, Seq<char>)>, j: int) -> Option<int>
    decreases pairs.len() - j,
{
    if j < 0 || j >= pairs.len() {
        None
    } else if repeats_earlier(pairs, j) {
        Some(j)
    } else {
        first_duplicate_from(pairs, j + 1)
    }
}

proof fn lemma_first_duplicate_in_range(pairs: Seq<(Seq<char>, Seq<char>)>, i: int)
    ensures
        first_duplicate_from(pairs, i) matches Some(j) ==> 0 <= i <= j < pairs.len(),
    decreases pairs.len() - i,
{
    if 0 <= i < pairs.len() && !repeats_earlier(pairs, i) {
        lemma_first_duplicate_in_range(pairs, i + 1);
    }
}

/// The first pair whose key repeats an earlier one, if any.
pub open spec fn first_duplicate_key(pairs: Seq<(Seq<char>, Seq<char>)>) -> Option<int> {
    first_duplicate_from(pairs, 0)
}

/// What the decoded pairs of a query string make: the parameters, each key
/// once, or the error of the first key given twice.
pub fn unique_query_params(decoded: Result<Vec<(String, String)>, String>) -> (r: Result<
    Vec<(String, String)>,
    ApiError,
>)
    ensures
        decoded matches Err(e) ==> (r matches Err(ApiError::BadRequest(m)) && m@ == "invalid query string: "@
            + e@),
        decoded matches Ok(v) ==> (first_duplicate_key(pair_views(v@)) is None ==> r == Ok::<
            Vec<(String, String)>,
            ApiError,
        >(v)),
        decoded matches Ok(v) ==> (first_duplicate_key(pair_views(v@)) matches Some(j) ==> (r matches Err(
            ApiError::BadRequest(m),
        ) && m@ == "duplicate query parameter "@ + debug_quoted(v@[j].0@))),
{
    let pairs = match decoded {
        Err(e) => {
            return Err(ApiError::BadRequest(concat2("invalid query string: ", e.as_str())));
        },
        Ok(v) => v,
    };
    let ghost pv = pair_views(pairs@);
    let mut j: usize = 0;
    while j < pairs.len()
        invariant
            0 <= j <= pairs@.len(),
            pv == pair_views(pairs@),
            decoded == Ok::<Vec<(String, String)>, String>(pairs),
            first_duplicate_key(pv) == first_duplicate_from(pv, j as int),
        decreases pairs.len() - j,
    {
        let mut k: usize = 0;
        while k < j
            invariant
                0 <= k <= j < pairs@.len(),
                pv == pair_views(pairs@),
                decoded == Ok::<Vec<(String, String)>, String>(pairs),
                first_duplicate_key(pv) == first_duplicate_from(pv, j as int),
                forall|k2: int| 0 <= k2 < k ==> #[trigger] pv[k2].0 != pv[j as int].0,
            decreases j - k,
        {
            if str_eq(pairs[k].0.as_str(), pairs[j].0.as_str()) {
                assert(pv[k as int].0 == pv[j as int].0);
                assert(repeats_earlier(pv, j as int));
                let q = quote(pairs[j].0.as_str());
                return Err(ApiError::BadRequest(concat2("duplicate query parameter ", q.as_str())));
            }
            k += 1;
        }
        assert(!repeats_earlier(pv, j as int));
        j += 1;
    }
    Ok(pairs)
}

/// The parameters of a query string, each key once.
pub fn parse_unique_query(query: &str) -> (r: Result<Vec<(String, String)>, ApiError>)
    ensures
        match urlencoded_pairs(query@) {
            Err(e) => r matches Err(ApiError::BadRequest(m)) && m@ == "invalid query string: "@ + e,
            Ok(pairs) => match first_duplicate_key(pairs) {
                None => r matches Ok(v) && pair_views(v@) == pairs,
                Some(j) => r matches Err(ApiError::BadRequest(m)) && m@ == "duplicate query parameter "@
                    + debug_quoted(pairs[j].0),
            },
        },
{
    let decoded = decode_query(query);
    proof {
        if decoded is Ok {
            lemma_first_duplicate_in_range(pair_views(decoded->Ok_0@), 0);
        }
    }
    unique_query_params(decoded)
}

/// What the catalog says of a module: its id, name and description, whether
/// it is on under the current settings and by default, its supported filter
/// keys sorted by key with their documentation, and its configuration
/// options in order.
pub open spec fn module_entry_shows(r: ModuleResponse, kind: ModuleKind, modules: ModuleConfigs) -> bool {
    &&& r.id@ == module_id(kind)
    &&& r.name@ == module_name(kind)
    &&& r.description@ == module_description(kind)
    &&& r.enabled == module_globally_enabled(kind, modules)
    &&& r.enabled_by_default == module_enabled_by_default(kind)
    &&& filter_response_docs(entry_views(r.filters@)) == sorted_map_of(
        supported_keys(module_id(kind), module_filter_docs(kind)),
    )
    &&& r.config_options@.map_values(|c: ConfigOptionResponse| option_response_doc(c)) == module_option_docs(kind)
}

/// The catalog entry of one module under the current module settings.
pub fn module_entry(kind: ModuleKind, modules: &ModuleConfigs) -> (r: ModuleResponse)
    ensures
        module_entry_shows(r, kind, *modules),
{
    let metadata = kind.metadata();
    let enabled = match kind {
        ModuleKind::Icmp => modules.icmp.enabled,
        ModuleKind::Usage => modules.usage.enabled,
    };
    let specs = kind.filter_specs();
    let ghost all = entry_views(specs@);
    let filters = supported_module_filter_specs(metadata.id, specs);
    let options = kind.config_options();
    let r = ModuleResponse::new(metadata, enabled, filters, options);
    proof {
        let id = module_id(kind);
        let kept = supported_keys(id, all);
        let fr = |m: FilterKeyResponse| filter_response_doc(m);
        let fd = |m: FilterKeyMetadata| filter_doc(m);
        lemma_sorted_map_of_map_values(filter_responses(kept), fr);
        assert(filter_response_docs(entry_views(r.filters@)) =~= sorted_map_of(filter_responses(kept)).map_values(
            |p: (Seq<char>, FilterKeyResponse)| (p.0, fr(p.1)),
        ));
        assert(filter_responses(kept).map_values(|p: (Seq<char>, FilterKeyResponse)| (p.0, fr(p.1)))
            =~= kept.map_values(|p: (Seq<char>, FilterKeyMetadata)| (p.0, fd(p.1))));
        lemma_supported_keys_map_values(id, all, fd);
        assert(all.map_values(|p: (Seq<char>, FilterKeyMetadata)| (p.0, fd(p.1))) =~= filter_docs(all));
        assert(r.config_options@.map_values(|c: ConfigOptionResponse| option_response_doc(c)) =~= option_docs(
            options@,
        ));
    }
    r
}

/// The module catalog: each registered module, in registry order, with
/// whether it is on under the current module settings.
pub fn module_catalog(modules: &ModuleConfigs) -> (r: Vec<ModuleResponse>)
    ensures
        r@.len() == 2,
        module_entry_shows(r@[0], ModuleKind::Icmp, *modules),
        module_entry_shows(r@[1], ModuleKind::Usage, *modules),
{
    let kinds = registry();
    let mut out: Vec<ModuleResponse> = Vec::new();
    let mut i: usize = 0;
    while i < kinds.len()
        invariant
            0 <= i <= kinds@.len(),
            kinds@ == seq![ModuleKind::Icmp, ModuleKind::Usage],
            out@.len() == i,
            forall|k: int| 0 <= k < i ==> module_entry_shows(#[trigger] out@[k], kinds@[k], *modules),
        decreases kinds.len() - i,
    {
        out.push(module_entry(kinds[i], modules));
        i += 1;
    }
    out
}

/// Pairs with no repeated key have pairwise distinct keys: what a query
/// string that passed the duplicate check holds.
pub proof fn lemma_no_duplicate_means_distinct(pairs: Seq<(Seq<char>, Seq<char>)>)
    requires
        first_duplicate_key(pairs) is None,
    ensures
        forall|j: int, k: int| 0 <= k < j < pairs.len() ==> #[trigger] pairs[k].0 != #[trigger] pairs[j].0,
{
    assert forall|j: int, k: int| 0 <= k < j < pairs.len() implies #[trigger] pairs[k].0 != #[trigger] pairs[j].0 by {
        lemma_no_duplicate_from(pairs, 0, j, k);
    }
}

proof fn lemma_no_duplicate_from(pairs: Seq<(Seq<char>, Seq<char>)>, i: int, j: int, k: int)
    requires
        0 <= i <= j,
        0 <= k < j < pairs.len(),
        first_duplicate_from(pairs, i) is None,
    ensures
        pairs[k].0 != pairs[j].0,
    decreases j - i,
{
    if i < j {
        lemma_no_duplicate_from(pairs, i + 1, j, k);
    } else {
        assert(!repeats_earlier(pairs, j));
    }
}

} // verus!
