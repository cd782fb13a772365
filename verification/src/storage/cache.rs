//! The latest usage snapshot of each host, kept to decide whether a new
//! snapshot is recorded in the history.
use crate::domain::usage::{differs_for_history, UsageSnapshot};
use crate::names::name_views;
use crate::storage::filtering::UsageTable;
use crate::text::{owned, str_eq};
use vstd::prelude::*;

verus! {

/// The latest usage snapshot of each host, by host id.
pub struct UsageCache {
    entries: Vec<(String, UsageSnapshot)>,
}

/// The ids of a list of (id, value) entries.
pub open spec fn entry_ids<V>(entries: Seq<(String, V)>) -> Seq<Seq<char>> {
    entries.map_values(|e: (String, V)| e.0@)
}

impl View for UsageCache {
    type V = Map<Seq<char>, UsageSnapshot>;

    closed spec fn view(&self) -> Map<Seq<char>, UsageSnapshot> {
        Map::new(
            |id: Seq<char>| exists|i: int| 0 <= i < self.entries@.len() && #[trigger] self.entries@[i].0@ == id,
            |id: Seq<char>|
                self.entries@[choose|i: int| 0 <= i < self.entries@.len() && #[trigger] self.entries@[i].0@ == id].1,
        )
    }
}

impl UsageCache {
    /// No host id twice.
    #[verifier::type_invariant]
    closed spec fn wf(&self) -> bool {
        forall|i: int, j: int|
            0 <= i < j < self.entries@.len() ==> #[trigger] self.entries@[i].0@ != #[trigger] self.entries@[j].0@
    }

    pub fn new() -> (r: UsageCache)
        ensures
            r@ == Map::<Seq<char>, UsageSnapshot>::empty(),
    {
        let r = UsageCache { entries: Vec::new() };
        assert(r@ =~= Map::<Seq<char>, UsageSnapshot>::empty());
        r
    }

    fn position(&self, id: &str) -> (r: Option<usize>)
        ensures
            match r {
                Some(i) => i < self.entries@.len() && self.entries@[i as int].0@ == id@,
                None => !self@.contains_key(id@),
            },
    {
        proof {
            use_type_invariant(self);
        }
        let mut i: usize = 0;
        while i < self.entries.len()
            invariant
                0 <= i <= self.entries@.len(),
                forall|j: int| 0 <= j < i ==> #[trigger] self.entries@[j].0@ != id@,
            decreases self.entries.len() - i,
        {
            if str_eq(self.entries[i].0.as_str(), id) {
                return Some(i);
            }
            i += 1;
        }
        None
    }

    proof fn lemma_value_at(&self, i: int)
        requires
            self.wf(),
            0 <= i < self.entries@.len(),
        ensures
            self@.contains_key(self.entries@[i].0@),
            self@[self.entries@[i].0@] == self.entries@[i].1,
    {
        let id = self.entries@[i].0@;
        assert(self@.contains_key(id));
        let k = choose|k: int| 0 <= k < self.entries@.len() && #[trigger] self.entries@[k].0@ == id;
        assert(k == i);
    }

    /// The snapshot kept for the host, if any.
    pub fn get(&self, id: &str) -> (r: Option<&UsageSnapshot>)
        ensures
            match r {
                Some(s) => self@.contains_key(id@) && *s == self@[id@],
                None => !self@.contains_key(id@),
            },
    {
        proof {
            use_type_invariant(self);
        }
        match self.position(id) {
            Some(i) => {
                proof {
                    self.lemma_value_at(i as int);
                }
                Some(&self.entries[i].1)
            },
            None => None,
        }
    }

    /// Keeps `snapshot` as the host's latest.
    pub fn insert(&mut self, id: &str, snapshot: UsageSnapshot)
        ensures
            final(self)@ == old(self)@.insert(id@, snapshot),
    {
        proof {
            use_type_invariant(&*self);
        }
        let ghost before = self@;
        let ghost before_cache = *self;
        let pos = self.position(id);
        let mut entries: Vec<(String, UsageSnapshot)> = Vec::new();
        std::mem::swap(&mut entries, &mut self.entries);
        let ghost old_entries = entries@;
        match pos {
            Some(i) => {
                entries.set(i, (owned(id), snapshot));
                proof {
                    assert forall|a: int, b: int|
                        0 <= a < b < entries@.len() implies #[trigger] entries@[a].0@
                        != #[trigger] entries@[b].0@ by {
                        assert(old_entries[a].0@ != old_entries[b].0@);
                    }
                }
            },
            None => {
                entries.push((owned(id), snapshot));
                proof {
                    assert forall|a: int, b: int|
                        0 <= a < b < entries@.len() implies #[trigger] entries@[a].0@
                        != #[trigger] entries@[b].0@ by {
                        if b == old_entries.len() {
                            assert(old_entries[a].0@ != id@) by {
                                if old_entries[a].0@ == id@ {
                                    assert(before.contains_key(id@));
                                }
                            }
                        } else {
                            assert(old_entries[a].0@ != old_entries[b].0@);
                        }
                    }
                }
            },
        }
        self.entries = entries;
        proof {
            assert forall|k: Seq<char>| #[trigger] self@.contains_key(k) <==> before.insert(id@, snapshot).contains_key(k) by {
                if before.contains_key(k) {
                    let j = choose|j: int| 0 <= j < old_entries.len() && #[trigger] old_entries[j].0@ == k;
                    if pos is Some && j == pos->Some_0 {
                        assert(self.entries@[j].0@ == id@);
                    } else {
                        assert(self.entries@[j].0@ == k);
                    }
                }
                if k == id@ {
                    match pos {
                        Some(i) => assert(self.entries@[i as int].0@ == k),
                        None => assert(self.entries@[old_entries.len() as int].0@ == k),
                    }
                }
                if self@.contains_key(k) {
                    let j = choose|j: int| 0 <= j < self.entries@.len() && #[trigger] self.entries@[j].0@ == k;
                    if j < old_entries.len() && !(pos is Some && j == pos->Some_0) {
                        assert(old_entries[j].0@ == k);
                    }
                }
            }
            assert forall|k: Seq<char>| #[trigger] self@.contains_key(k) implies self@[k] == before.insert(id@, snapshot)[k] by {
                let j = choose|j: int| 0 <= j < self.entries@.len() && #[trigger] self.entries@[j].0@ == k;
                self.lemma_value_at(j);
                if j < old_entries.len() && !(pos is Some && j == pos->Some_0) {
                    assert(old_entries[j] == self.entries@[j]);
                    before_cache.lemma_value_at(j);
                }
            }
            assert(self@ =~= before.insert(id@, snapshot));
        }
    }

    /// Forgets every host that is not among `ids`.
    pub fn retain_hosts(&mut self, ids: &Vec<String>)
        ensures
            forall|id: Seq<char>| #[trigger] final(self)@.contains_key(id) <==> (old(self)@.contains_key(id)
                && name_views(ids@).contains(id)),
            forall|id: Seq<char>| #[trigger] final(self)@.contains_key(id) ==> final(self)@[id] == old(self)@[id],
    {
        proof {
            use_type_invariant(&*self);
        }
        let ghost before = *self;
        let mut kept: Vec<(String, UsageSnapshot)> = Vec::new();
        let mut old_entries: Vec<(String, UsageSnapshot)> = Vec::new();
        std::mem::swap(&mut old_entries, &mut self.entries);
        let ghost all = old_entries@;
        let ghost mut origin: Seq<int> = Seq::empty();
        for e in it: old_entries.into_iter()
            invariant
                it.seq() == all,
                all == before.entries@,
                before.wf(),
                kept@.len() == origin.len(),
                forall|a: int| 0 <= a < origin.len() ==> 0 <= #[trigger] origin[a] < it.index(),
                forall|a: int, b: int| 0 <= a < b < origin.len() ==> #[trigger] origin[a] < #[trigger] origin[b],
                forall|a: int| 0 <= a < kept@.len() ==> #[trigger] kept@[a] == all[origin[a]],
                forall|a: int| 0 <= a < kept@.len() ==> name_views(ids@).contains(#[trigger] kept@[a].0@),
                forall|j: int|
                    0 <= j < it.index() && name_views(ids@).contains(#[trigger] all[j].0@) ==> exists|a: int|
                        0 <= a < origin.len() && origin[a] == j,
        {
            let ghost idx = it.index();
            let ghost ev = e;
            let ghost old_origin = origin;
            assert(ev == all[idx as int]);
            let keep = crate::config::hosts::names_contain(ids, e.0.as_str());
            if keep {
                kept.push(e);
                proof {
                    origin = origin.push(idx as int);
                }
            }
            proof {
                assert forall|j: int|
                    0 <= j < idx + 1 && name_views(ids@).contains(#[trigger] all[j].0@) implies exists|a: int|
                    0 <= a < origin.len() && origin[a] == j by {
                    if j == idx {
                        assert(keep);
                        assert(origin[origin.len() - 1] == j);
                    } else {
                        let a = choose|a: int| 0 <= a < old_origin.len() && old_origin[a] == j;
                        assert(origin[a] == j);
                    }
                }
            }
        }
        proof {
            assert forall|a: int, b: int|
                0 <= a < b < kept@.len() implies #[trigger] kept@[a].0@ != #[trigger] kept@[b].0@ by {
                assert(origin[a] < origin[b]);
            }
        }
        self.entries = kept;
        proof {
            assert forall|id: Seq<char>| #[trigger] self@.contains_key(id) <==> (before@.contains_key(id)
                && name_views(ids@).contains(id)) by {
                if self@.contains_key(id) {
                    let a = choose|a: int| 0 <= a < self.entries@.len() && #[trigger] self.entries@[a].0@ == id;
                    assert(before.entries@[origin[a]].0@ == id);
                }
                if before@.contains_key(id) && name_views(ids@).contains(id) {
                    let j = choose|j: int| 0 <= j < before.entries@.len() && #[trigger] before.entries@[j].0@ == id;
                    let a = choose|a: int| 0 <= a < origin.len() && origin[a] == j;
                    assert(self.entries@[a].0@ == id);
                }
            }
            assert forall|id: Seq<char>| #[trigger] self@.contains_key(id) implies self@[id] == before@[id] by {
                let a = choose|a: int| 0 <= a < self.entries@.len() && #[trigger] self.entries@[a].0@ == id;
                self.lemma_value_at(a);
                before.lemma_value_at(origin[a]);
            }
        }
    }

    /// Whether a new snapshot of a host belongs in the history: when the host
    /// has none yet, or when it differs from the last one in status, counts
    /// or error.
    pub fn should_record_history(&self, id: &str, snapshot: &UsageSnapshot) -> (r: bool)
        ensures
            r == (!self@.contains_key(id@) || differs_for_history(*snapshot, self@[id@])),
    {
        match self.get(id) {
            Some(previous) => snapshot.differs_for_history(previous),
            None => true,
        }
    }

    /// Records a new snapshot of a host and says whether it belongs in the
    /// history: when the host had none, or when it differs from the last one
    /// in status, counts or error.
    pub fn record(&mut self, id: &str, snapshot: UsageSnapshot) -> (r: bool)
        ensures
            final(self)@ == old(self)@.insert(id@, snapshot),
            r == (!old(self)@.contains_key(id@) || differs_for_history(snapshot, old(self)@[id@])),
    {
        let should_insert = self.should_record_history(id, &snapshot);
        self.insert(id, snapshot);
        should_insert
    }

    /// The tables an update of host `id` with `snapshot` writes a row to.
    pub fn usage_writes(&self, id: &str, snapshot: &UsageSnapshot) -> (r: Vec<UsageTable>)
        ensures
            r@ == usage_tables(!self@.contains_key(id@) || differs_for_history(*snapshot, self@[id@])),
    {
        let mut tables: Vec<UsageTable> = Vec::new();
        tables.push(UsageTable::Samples);
        if self.should_record_history(id, snapshot) {
            tables.push(UsageTable::History);
        }
        proof {
            assert(tables@ =~= usage_tables(!self@.contains_key(id@) || differs_for_history(*snapshot, self@[id@])));
        }
        tables
    }
}

/// Recording a snapshot keeps it as the host's latest; recording the same
/// status, counts and error again adds nothing to the history.
pub proof fn lemma_record_then_repeat(before: Map<Seq<char>, UsageSnapshot>, id: Seq<char>, first: UsageSnapshot, second: UsageSnapshot)
    requires
        !differs_for_history(second, first),
    ensures
        before.insert(id, first).contains_key(id),
        before.insert(id, first)[id] == first,
        !(!before.insert(id, first).contains_key(id) || differs_for_history(second, before.insert(id, first)[id])),
{
}

/// The tables one usage update writes a row to: the samples always, and the
/// history when the update is recorded there.
pub open spec fn usage_tables(record_history: bool) -> Seq<UsageTable> {
    if record_history {
        seq![UsageTable::Samples, UsageTable::History]
    } else {
        seq![UsageTable::Samples]
    }
}

/// The history rows a run of updates of one host writes, in order, from
/// the host's latest snapshot before the run: each update that differs from
/// the latest snapshot, which every update then replaces.
pub open spec fn history_rows(latest: Option<UsageSnapshot>, updates: Seq<UsageSnapshot>) -> Seq<UsageSnapshot>
    decreases updates.len(),
{
    if updates.len() == 0 {
        Seq::empty()
    } else {
        let rest = history_rows(Some(updates[0]), updates.drop_first());
        if latest is None || differs_for_history(updates[0], latest->0) {
            seq![updates[0]] + rest
        } else {
            rest
        }
    }
}

/// The snapshot a run of updates leaves as the host's latest.
pub open spec fn latest_after(latest: Option<UsageSnapshot>, updates: Seq<UsageSnapshot>) -> Option<UsageSnapshot> {
    if updates.len() == 0 {
        latest
    } else {
        Some(updates.last())
    }
}

proof fn lemma_history_rows_shape(latest: Option<UsageSnapshot>, updates: Seq<UsageSnapshot>)
    ensures
        ({
            let h = history_rows(latest, updates);
            &&& forall|i: int| 0 <= i < h.len() - 1 ==> differs_for_history(#[trigger] h[i + 1], h[i])
            &&& h.len() > 0 && latest is Some ==> differs_for_history(h[0], latest->0)
            &&& h.len() > 0 ==> !differs_for_history(latest_after(latest, updates)->0, h.last())
            &&& h.len() == 0 && latest is Some ==> !differs_for_history(latest_after(latest, updates)->0, latest->0)
            &&& h.len() <= updates.len()
            &&& latest is None && updates.len() > 0 ==> h.len() > 0
        }),
    decreases updates.len(),
{
    if updates.len() > 0 {
        let first = updates[0];
        let tail = updates.drop_first();
        lemma_history_rows_shape(Some(first), tail);
        let rest = history_rows(Some(first), tail);
        if tail.len() > 0 {
            assert(tail.last() == updates.last());
        }
        let h = history_rows(latest, updates);
        if latest is None || differs_for_history(first, latest->0) {
            assert(h == seq![first] + rest);
            assert forall|i: int| 0 <= i < h.len() - 1 implies differs_for_history(#[trigger] h[i + 1], h[i]) by {
                if i > 0 {
                    assert(h[i] == rest[i - 1]);
                    assert(h[i + 1] == rest[(i - 1) + 1]);
                    assert(differs_for_history(rest[(i - 1) + 1], rest[i - 1]));
                } else {
                    assert(h[0] == first);
                    assert(h[1] == rest[0]);
                    assert(differs_for_history(rest[0], first));
                }
            }
        } else {
            assert(h == rest);
            if rest.len() > 0 {
                assert(differs_for_history(rest[0], first));
            }
        }
    }
}

/// Over any run of updates of one host, no history row repeats the status,
/// counts and error of the row before it (nor of the latest snapshot
/// before the run), and the snapshot the run leaves as latest says the same
/// as the last history row.
pub proof fn lemma_history_rows_change(latest: Option<UsageSnapshot>, updates: Seq<UsageSnapshot>)
    ensures
        forall|i: int|
            0 <= i < history_rows(latest, updates).len() - 1 ==> differs_for_history(
                #[trigger] history_rows(latest, updates)[i + 1],
                history_rows(latest, updates)[i],
            ),
        history_rows(latest, updates).len() > 0 && latest is Some ==> differs_for_history(
            history_rows(latest, updates)[0],
            latest->0,
        ),
        history_rows(latest, updates).len() > 0 ==> !differs_for_history(
            latest_after(latest, updates)->0,
            history_rows(latest, updates).last(),
        ),
        history_rows(latest, updates).len() <= updates.len(),
{
    lemma_history_rows_shape(latest, updates);
}

/// The rows of one host's samples and history tables after `snapshot` is
/// written to each table of `tables`.
pub open spec fn rows_after_writes(
    samples: Seq<UsageSnapshot>,
    history: Seq<UsageSnapshot>,
    tables: Seq<UsageTable>,
    snapshot: UsageSnapshot,
) -> (Seq<UsageSnapshot>, Seq<UsageSnapshot>)
    decreases tables.len(),
{
    if tables.len() == 0 {
        (samples, history)
    } else {
        let rest = tables.drop_first();
        match tables[0] {
            UsageTable::Samples => rows_after_writes(samples.push(snapshot), history, rest, snapshot),
            UsageTable::History => rows_after_writes(samples, history.push(snapshot), rest, snapshot),
        }
    }
}

/// One usage update of host `id`: the samples gain exactly one row, the
/// history gains one row exactly when the snapshot is recorded there (no
/// earlier snapshot, or one that differs in status, counts or error), and
/// the snapshot becomes the host's latest.
pub proof fn lemma_update_usage_rows(
    latest: Map<Seq<char>, UsageSnapshot>,
    id: Seq<char>,
    snapshot: UsageSnapshot,
    samples: Seq<UsageSnapshot>,
    history: Seq<UsageSnapshot>,
)
    ensures
        ({
            let record = !latest.contains_key(id) || differs_for_history(snapshot, latest[id]);
            let rows = rows_after_writes(samples, history, usage_tables(record), snapshot);
            &&& rows.0 == samples.push(snapshot)
            &&& rows.1 == if record { history.push(snapshot) } else { history }
            &&& latest.insert(id, snapshot)[id] == snapshot
        }),
{
    let record = !latest.contains_key(id) || differs_for_history(snapshot, latest[id]);
    let t = usage_tables(record);
    assert(t.drop_first().len() == t.len() - 1);
    if record {
        assert(t.drop_first() =~= seq![UsageTable::History]);
        assert(t.drop_first().drop_first() =~= Seq::<UsageTable>::empty());
        assert(rows_after_writes(samples.push(snapshot), history.push(snapshot), t.drop_first().drop_first(), snapshot)
            == (samples.push(snapshot), history.push(snapshot)));
        assert(rows_after_writes(samples.push(snapshot), history, t.drop_first(), snapshot) == (
            samples.push(snapshot),
            history.push(snapshot),
        ));
    } else {
        assert(t.drop_first() =~= Seq::<UsageTable>::empty());
        assert(rows_after_writes(samples.push(snapshot), history, t.drop_first(), snapshot) == (
            samples.push(snapshot),
            history,
        ));
    }
}

} // verus!
