//! Sorted sets of names: each name once, in the order of `str`'s `Ord`.
use crate::text::{lemma_lex_lt_total, lemma_lex_lt_transitive, lex_lt, str_eq, str_lt};
use vstd::prelude::*;

verus! {

/// The texts of a list of strings.
pub open spec fn name_views(v: Seq<String>) -> Seq<Seq<char>> {
    v.map_values(|s: String| s@)
}

/// Strictly increasing: sorted, and no name twice.
pub open spec fn names_sorted(s: Seq<Seq<char>>) -> bool {
    forall|i: int, j: int| 0 <= i < j < s.len() ==> lex_lt(#[trigger] s[i], #[trigger] s[j])
}

/// The names of `set` in increasing order, each once.
pub open spec fn sorted_names_of(set: Set<Seq<char>>) -> Seq<Seq<char>> {
    choose|s: Seq<Seq<char>>| names_sorted(s) && forall|x: Seq<char>| #[trigger] s.contains(x) <==> set.contains(x)
}

/// Two increasing lists of the same names are the same list.
pub proof fn lemma_sorted_names_unique(a: Seq<Seq<char>>, b: Seq<Seq<char>>)
    requires
        names_sorted(a),
        names_sorted(b),
        forall|x: Seq<char>| #[trigger] a.contains(x) <==> b.contains(x),
    ensures
        a == b,
    decreases a.len(),
{
    if a.len() == 0 {
        if b.len() > 0 {
            assert(b.contains(b[0]));
            assert(a.contains(b[0]));
        }
        assert(a =~= b);
    } else {
        assert(a.contains(a[0]));
        assert(b.contains(a[0]));
        let j = choose|j: int| 0 <= j < b.len() && b[j] == a[0];
        assert(b.contains(b[0]));
        assert(a.contains(b[0]));
        let i = choose|i: int| 0 <= i < a.len() && a[i] == b[0];
        lemma_lex_lt_total(a[0], a[0]);
        if j > 0 {
            assert(lex_lt(b[0], b[j]));
            if i > 0 {
                assert(lex_lt(a[0], a[i]));
                lemma_lex_lt_total(a[0], a[i]);
            }
            assert(false);
        }
        let a1 = a.drop_first();
        let b1 = b.drop_first();
        assert forall|x: Seq<char>| #[trigger] a1.contains(x) <==> b1.contains(x) by {
            if a1.contains(x) {
                let k = choose|k: int| 0 <= k < a1.len() && a1[k] == x;
                assert(lex_lt(a[0], a[k + 1]));
                lemma_lex_lt_total(a[0], x);
                assert(a.contains(x));
                let m = choose|m: int| 0 <= m < b.len() && b[m] == x;
                assert(m != 0);
                assert(b1[m - 1] == x);
            }
            if b1.contains(x) {
                let k = choose|k: int| 0 <= k < b1.len() && b1[k] == x;
                assert(lex_lt(b[0], b[k + 1]));
                lemma_lex_lt_total(b[0], x);
                assert(b.contains(x));
                assert(a.contains(x));
                let m = choose|m: int| 0 <= m < a.len() && a[m] == x;
                assert(m != 0);
                assert(a1[m - 1] == x);
            }
        }
        lemma_sorted_names_unique(a1, b1);
        assert(a =~= seq![a[0]] + a1);
        assert(b =~= seq![b[0]] + b1);
    }
}

/// An increasing list holding exactly the names of `set` is `sorted_names_of(set)`.
pub proof fn lemma_sorted_names_of(s: Seq<Seq<char>>, set: Set<Seq<char>>)
    requires
        names_sorted(s),
        forall|x: Seq<char>| #[trigger] s.contains(x) <==> set.contains(x),
    ensures
        sorted_names_of(set) == s,
{
    let t = sorted_names_of(set);
    assert(names_sorted(t) && forall|x: Seq<char>| #[trigger] t.contains(x) <==> set.contains(x));
    lemma_sorted_names_unique(s, t);
}

/// Adds `name` to the increasing list `names` unless it is there already.
pub fn insert_name(names: &mut Vec<String>, name: &str)
    requires
        names_sorted(name_views(old(names)@)),
    ensures
        names_sorted(name_views(final(names)@)),
        forall|x: Seq<char>| #[trigger] name_views(final(names)@).contains(x) <==> (name_views(
            old(names)@,
        ).contains(x) || x == name@),
{
    let ghost old_views = name_views(names@);
    let mut k: usize = 0;
    while k < names.len() && str_lt(names[k].as_str(), name)
        invariant
            0 <= k <= names@.len(),
            name_views(names@) == old_views,
            names_sorted(old_views),
            forall|i: int| 0 <= i < k ==> lex_lt(#[trigger] old_views[i], name@),
        decreases names.len() - k,
    {
        k += 1;
    }
    if k < names.len() && str_eq(names[k].as_str(), name) {
        proof {
            assert(old_views[k as int] == name@);
        }
        return;
    }
    names.insert(k, name.to_owned());
    let ghost new_views = name_views(names@);
    proof {
        assert(new_views =~= old_views.insert(k as int, name@));
        if k < old_views.len() {
            lemma_lex_lt_total(old_views[k as int], name@);
        }
        assert forall|i: int, j: int| 0 <= i < j < new_views.len() implies lex_lt(
            #[trigger] new_views[i],
            #[trigger] new_views[j],
        ) by {
            if j < k {
            } else if j == k {
            } else if i < k {
                assert(new_views[j] == old_views[j - 1]);
                if i < j - 1 {
                } else {
                }
            } else if i == k {
                assert(new_views[j] == old_views[j - 1]);
                if j - 1 > k {
                    lemma_lex_lt_transitive(name@, old_views[k as int], old_views[j - 1]);
                }
            } else {
            }
        }
        assert forall|x: Seq<char>| #[trigger] new_views.contains(x) <==> (old_views.contains(x) || x
            == name@) by {
            if new_views.contains(x) {
                let m = choose|m: int| 0 <= m < new_views.len() && new_views[m] == x;
                if m < k {
                    assert(old_views[m] == x);
                } else if m > k {
                    assert(old_views[m - 1] == x);
                }
            }
            if old_views.contains(x) {
                let m = choose|m: int| 0 <= m < old_views.len() && old_views[m] == x;
                if m < k {
                    assert(new_views[m] == x);
                } else {
                    assert(new_views[m + 1] == x);
                }
            }
            if x == name@ {
                assert(new_views[k as int] == x);
            }
        }
    }
}

/// `x` placed into the increasing list `s` before the first greater name.
pub open spec fn insert_in_order(s: Seq<Seq<char>>, x: Seq<char>) -> Seq<Seq<char>>
    decreases s.len(),
{
    if s.len() == 0 {
        seq![x]
    } else if lex_lt(x, s[0]) {
        seq![x] + s
    } else {
        seq![s[0]] + insert_in_order(s.drop_first(), x)
    }
}

proof fn lemma_insert_in_order(s: Seq<Seq<char>>, x: Seq<char>)
    requires
        names_sorted(s),
        !s.contains(x),
    ensures
        names_sorted(insert_in_order(s, x)),
        forall|y: Seq<char>| #[trigger] insert_in_order(s, x).contains(y) <==> (s.contains(y) || y == x),
        insert_in_order(s, x).len() == s.len() + 1,
        insert_in_order(s, x).len() > 0 && (insert_in_order(s, x)[0] == x || (s.len() > 0 && insert_in_order(
            s,
            x,
        )[0] == s[0])),
    decreases s.len(),
{
    let r = insert_in_order(s, x);
    if s.len() == 0 {
        assert forall|y: Seq<char>| #[trigger] r.contains(y) <==> (s.contains(y) || y == x) by {
            if r.contains(y) {
                assert(r[0] == y);
            }
            if y == x {
                assert(r[0] == x);
            }
        }
    } else if lex_lt(x, s[0]) {
        assert forall|i: int, j: int| 0 <= i < j < r.len() implies lex_lt(#[trigger] r[i], #[trigger] r[j]) by {
            if i == 0 {
                if j > 1 {
                    lemma_lex_lt_transitive(x, s[0], s[j - 1]);
                }
            } else {
                assert(r[i] == s[i - 1] && r[j] == s[j - 1]);
            }
        }
        assert forall|y: Seq<char>| #[trigger] r.contains(y) <==> (s.contains(y) || y == x) by {
            if r.contains(y) {
                let m = choose|m: int| 0 <= m < r.len() && r[m] == y;
                if m > 0 {
                    assert(s[m - 1] == y);
                }
            }
            if s.contains(y) {
                let m = choose|m: int| 0 <= m < s.len() && s[m] == y;
                assert(r[m + 1] == y);
            }
            if y == x {
                assert(r[0] == x);
            }
        }
    } else {
        let t = s.drop_first();
        assert forall|i: int, j: int| 0 <= i < j < t.len() implies lex_lt(#[trigger] t[i], #[trigger] t[j]) by {
            assert(t[i] == s[i + 1] && t[j] == s[j + 1]);
        }
        assert(!t.contains(x)) by {
            if t.contains(x) {
                let m = choose|m: int| 0 <= m < t.len() && t[m] == x;
                assert(s[m + 1] == x);
            }
        }
        lemma_insert_in_order(t, x);
        let rt = insert_in_order(t, x);
        lemma_lex_lt_total(x, s[0]);
        assert(s.contains(s[0]));
        assert(x != s[0]);
        assert(lex_lt(s[0], x));
        assert forall|i: int, j: int| 0 <= i < j < r.len() implies lex_lt(#[trigger] r[i], #[trigger] r[j]) by {
            if i == 0 {
                assert(r[j] == rt[j - 1]);
                assert(rt.contains(rt[j - 1]));
                if rt[j - 1] == x {
                } else {
                    let m = choose|m: int| 0 <= m < t.len() && t[m] == rt[j - 1];
                    assert(s[m + 1] == rt[j - 1]);
                }
            } else {
                assert(r[i] == rt[i - 1] && r[j] == rt[j - 1]);
            }
        }
        assert forall|y: Seq<char>| #[trigger] r.contains(y) <==> (s.contains(y) || y == x) by {
            if r.contains(y) {
                let m = choose|m: int| 0 <= m < r.len() && r[m] == y;
                if m > 0 {
                    assert(rt[m - 1] == y);
                    assert(rt.contains(y));
                    if t.contains(y) {
                        let k = choose|k: int| 0 <= k < t.len() && t[k] == y;
                        assert(s[k + 1] == y);
                    }
                }
            }
            if s.contains(y) {
                let m = choose|m: int| 0 <= m < s.len() && s[m] == y;
                if m > 0 {
                    assert(t[m - 1] == y);
                    assert(t.contains(y));
                    assert(rt.contains(y));
                    let k = choose|k: int| 0 <= k < rt.len() && rt[k] == y;
                    assert(r[k + 1] == y);
                } else {
                    assert(r[0] == y);
                }
            }
            if y == x {
                assert(rt.contains(x));
                let k = choose|k: int| 0 <= k < rt.len() && rt[k] == x;
                assert(r[k + 1] == x);
            }
        }
    }
}

/// A finite set of names has an increasing list holding exactly its names.
proof fn lemma_sorted_names_exist(set: Set<Seq<char>>)
    requires
        set.finite(),
    ensures
        exists|s: Seq<Seq<char>>| names_sorted(s) && forall|x: Seq<char>| #[trigger] s.contains(x) <==> set.contains(x),
    decreases set.len(),
{
    if set.len() == 0 {
        let s = Seq::<Seq<char>>::empty();
        assert forall|x: Seq<char>| #[trigger] s.contains(x) <==> set.contains(x) by {
            if set.contains(x) {
                assert(set.remove(x).len() + 1 == set.len());
            }
        }
        assert(names_sorted(s) && forall|x: Seq<char>| #[trigger] s.contains(x) <==> set.contains(x));
    } else {
        let x = set.choose();
        let rest = set.remove(x);
        lemma_sorted_names_exist(rest);
        let s = choose|s: Seq<Seq<char>>| names_sorted(s) && forall|y: Seq<char>| #[trigger] s.contains(y) <==> rest.contains(y);
        lemma_insert_in_order(s, x);
        let r = insert_in_order(s, x);
        assert forall|y: Seq<char>| #[trigger] r.contains(y) <==> set.contains(y) by {
            if y == x {
            } else {
                assert(rest.contains(y) <==> set.contains(y));
            }
        }
        assert(names_sorted(r) && forall|y: Seq<char>| #[trigger] r.contains(y) <==> set.contains(y));
    }
}

/// For a finite set, `sorted_names_of` is increasing, holds exactly the
/// set's names, and has one entry per name.
pub proof fn lemma_sorted_names_of_finite(set: Set<Seq<char>>)
    requires
        set.finite(),
    ensures
        names_sorted(sorted_names_of(set)),
        forall|x: Seq<char>| #[trigger] sorted_names_of(set).contains(x) <==> set.contains(x),
{
    lemma_sorted_names_exist(set);
}

} // verus!
