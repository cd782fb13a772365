//! Ordered maps keyed by static text, kept as vectors sorted by key: the
//! shape the filter catalog and the module catalog publish.
use crate::text::{lex_lt, lemma_lex_lt_total, str_eq, str_lt, str_views};
use vstd::prelude::*;

verus! {

/// The (key text, value) pairs of an entry vector.
pub open spec fn entry_views<V>(entries: Seq<(&'static str, V)>) -> Seq<(Seq<char>, V)> {
    entries.map_values(|p: (&'static str, V)| (p.0@, p.1))
}

/// The keys of a sequence of pairs.
pub open spec fn keys_of<V>(entries: Seq<(Seq<char>, V)>) -> Seq<Seq<char>> {
    entries.map_values(|p: (Seq<char>, V)| p.0)
}

/// Inserting into a key-sorted map: the value replaces the entry with the
/// same key, or goes before the first greater key.
pub open spec fn insert_sorted<V>(s: Seq<(Seq<char>, V)>, k: Seq<char>, v: V) -> Seq<(Seq<char>, V)>
    decreases s.len(),
{
    if s.len() == 0 {
        seq![(k, v)]
    } else if s[0].0 == k {
        s.update(0, (k, v))
    } else if lex_lt(k, s[0].0) {
        seq![(k, v)] + s
    } else {
        seq![s[0]] + insert_sorted(s.drop_first(), k, v)
    }
}

/// Keys strictly increasing.
pub open spec fn strictly_sorted<V>(s: Seq<(Seq<char>, V)>) -> bool {
    forall|i: int, j: int| 0 <= i < j < s.len() ==> lex_lt(#[trigger] s[i].0, #[trigger] s[j].0)
}

proof fn lemma_insert_sorted_prefix<V>(s: Seq<(Seq<char>, V)>, k: Seq<char>, v: V, i: int)
    requires
        0 <= i <= s.len(),
        forall|j: int| 0 <= j < i ==> lex_lt(#[trigger] s[j].0, k),
    ensures
        insert_sorted(s, k, v) == s.take(i) + insert_sorted(s.skip(i), k, v),
    decreases i,
{
    if i == 0 {
        assert(s.take(0) + insert_sorted(s.skip(0), k, v) =~= insert_sorted(s, k, v)) by {
            assert(s.skip(0) =~= s);
        }
    } else {
        lemma_lex_lt_total(s[0].0, k);
        let t = s.drop_first();
        assert forall|j: int| 0 <= j < i - 1 implies lex_lt(#[trigger] t[j].0, k) by {
            assert(t[j] == s[j + 1]);
        }
        lemma_insert_sorted_prefix(t, k, v, i - 1);
        assert(t.skip(i - 1) =~= s.skip(i));
        assert(s.take(i) =~= seq![s[0]] + t.take(i - 1));
        assert(insert_sorted(s, k, v) == seq![s[0]] + insert_sorted(t, k, v));
        assert(insert_sorted(s, k, v) =~= s.take(i) + insert_sorted(s.skip(i), k, v));
    }
}

/// Inserts `value` under `key`, keeping the vector sorted by key.
pub fn insert_entry<V>(entries: &mut Vec<(&'static str, V)>, key: &'static str, value: V)
    ensures
        entry_views(final(entries)@) == insert_sorted(entry_views(old(entries)@), key@, value),
{
    let ghost s = entry_views(entries@);
    let mut i: usize = 0;
    while i < entries.len() && str_lt(entries[i].0, key)
        invariant
            s == entry_views(entries@),
            i <= entries@.len(),
            forall|j: int| 0 <= j < i ==> lex_lt(#[trigger] s[j].0, key@),
        decreases entries@.len() - i,
    {
        i = i + 1;
    }
    proof {
        lemma_insert_sorted_prefix(s, key@, value, i as int);
    }
    if i < entries.len() && str_eq(entries[i].0, key) {
        let _old = entries.remove(i);
        entries.insert(i, (key, value));
        proof {
            assert(s.skip(i as int)[0].0 == key@);
            assert(entry_views(entries@) =~= s.take(i as int) + insert_sorted(s.skip(i as int), key@, value));
        }
    } else {
        entries.insert(i, (key, value));
        proof {
            if (i as int) < s.len() {
                lemma_lex_lt_total(s[i as int].0, key@);
                assert(s.skip(i as int)[0] == s[i as int]);
            }
            assert(entry_views(entries@) =~= s.take(i as int) + insert_sorted(s.skip(i as int), key@, value));
        }
    }
}

/// Applying a function to the values commutes with sorted insertion.
pub proof fn lemma_insert_sorted_map_values<V, W>(
    s: Seq<(Seq<char>, V)>,
    k: Seq<char>,
    v: V,
    f: spec_fn(V) -> W,
)
    ensures
        insert_sorted(s, k, v).map_values(|p: (Seq<char>, V)| (p.0, f(p.1))) == insert_sorted(
            s.map_values(|p: (Seq<char>, V)| (p.0, f(p.1))),
            k,
            f(v),
        ),
    decreases s.len(),
{
    let g = |p: (Seq<char>, V)| (p.0, f(p.1));
    let ms = s.map_values(g);
    if s.len() == 0 {
        assert(insert_sorted(s, k, v).map_values(g) =~= insert_sorted(ms, k, f(v)));
    } else if s[0].0 == k {
        assert(insert_sorted(s, k, v).map_values(g) =~= insert_sorted(ms, k, f(v)));
    } else if lex_lt(k, s[0].0) {
        assert(insert_sorted(s, k, v).map_values(g) =~= insert_sorted(ms, k, f(v)));
    } else {
        lemma_insert_sorted_map_values(s.drop_first(), k, v, f);
        assert(ms.drop_first() =~= s.drop_first().map_values(g));
        assert(insert_sorted(s, k, v).map_values(g) =~= insert_sorted(ms, k, f(v)));
    }
}

/// The keys of an entry vector as a vector of slices.
pub fn entry_keys<V>(entries: &Vec<(&'static str, V)>) -> (r: Vec<&'static str>)
    ensures
        str_views(r@) == keys_of(entry_views(entries@)),
{
    let mut keys: Vec<&'static str> = Vec::new();
    let mut i: usize = 0;
    while i < entries.len()
        invariant
            i <= entries@.len(),
            keys@.len() == i,
            str_views(keys@) == keys_of(entry_views(entries@)).take(i as int),
        decreases entries@.len() - i,
    {
        let ghost before = keys@;
        keys.push(entries[i].0);
        proof {
            let target = keys_of(entry_views(entries@)).take(i + 1);
            assert(entry_views(entries@)[i as int] == (entries@[i as int].0@, entries@[i as int].1));
            assert(keys@[i as int] == entries@[i as int].0);
            assert(str_views(keys@)[i as int] == entries@[i as int].0@);
            assert(keys_of(entry_views(entries@))[i as int] == entries@[i as int].0@);
            assert(target[i as int] == entries@[i as int].0@);
            assert forall|j: int| 0 <= j < i + 1 implies str_views(keys@)[j] == target[j] by {
                if j < i {
                    assert(str_views(before)[j] == keys_of(entry_views(entries@)).take(i as int)[j]);
                }
            }
            assert(str_views(keys@) =~= target);
        }
        i = i + 1;
    }
    proof {
        assert(keys_of(entry_views(entries@)).take(entries@.len() as int) =~= keys_of(entry_views(entries@)));
    }
    keys
}

/// The position of `key`, if present.
pub fn find_entry<V>(entries: &Vec<(&'static str, V)>, key: &str) -> (r: Option<usize>)
    ensures
        match r {
            Some(i) => i < entries@.len() && entries@[i as int].0@ == key@,
            None => forall|j: int| 0 <= j < entries@.len() ==> (#[trigger] entries@[j]).0@ != key@,
        },
{
    let mut i: usize = 0;
    while i < entries.len()
        invariant
            i <= entries@.len(),
            forall|j: int| 0 <= j < i ==> (#[trigger] entries@[j]).0@ != key@,
        decreases entries@.len() - i,
    {
        if str_eq(entries[i].0, key) {
            return Some(i);
        }
        i = i + 1;
    }
    None
}

} // verus!
