//! A small association list, seen from outside as a finite map.

use vstd::prelude::*;

verus! {

/// A key that can be compared at run time. Two keys are the same key when their
/// identities are equal.
pub trait TableKey: Sized {
    /// What tells one key from another.
    type Id;

    spec fn id(&self) -> Self::Id;

    fn same_key(&self, other: &Self) -> (same: bool)
        ensures
            same == (self.id() == other.id()),
    ;
}

impl TableKey for String {
    type Id = Seq<char>;

    open spec fn id(&self) -> Seq<char> {
        self@
    }

    fn same_key(&self, other: &Self) -> (same: bool) {
        *self == *other
    }
}

/// The map that a list of entries stands for; a later entry overrides an
/// earlier one of the same key.
pub open spec fn entries_map<K: TableKey, V>(entries: Seq<(K, V)>) -> Map<K::Id, V>
    decreases entries.len(),
{
    if entries.len() == 0 {
        Map::empty()
    } else {
        entries_map(entries.drop_last()).insert(entries.last().0.id(), entries.last().1)
    }
}

/// No key occurs twice.
pub open spec fn distinct_keys<K: TableKey, V>(entries: Seq<(K, V)>) -> bool {
    forall|i: int, j: int|
        #![trigger entries[i], entries[j]]
        0 <= i < j < entries.len() ==> entries[i].0.id() != entries[j].0.id()
}

/// Whether some entry has the key `id`.
pub open spec fn has_key<K: TableKey, V>(entries: Seq<(K, V)>, id: K::Id) -> bool {
    exists|i: int| 0 <= i < entries.len() && (#[trigger] entries[i]).0.id() == id
}

/// The map of distinct entries holds exactly the entries, and as many of them.
pub proof fn lemma_entries_map<K: TableKey, V>(entries: Seq<(K, V)>)
    requires
        distinct_keys(entries),
    ensures
        forall|id: K::Id| #[trigger] entries_map(entries).dom().contains(id) <==> has_key(entries, id),
        forall|i: int|
            #![trigger entries[i]]
            0 <= i < entries.len() ==> entries_map(entries).dom().contains(entries[i].0.id())
                && entries_map(entries)[entries[i].0.id()] == entries[i].1,
        entries_map(entries).dom().finite(),
        entries_map(entries).dom().len() == entries.len(),
    decreases entries.len(),
{
    if entries.len() > 0 {
        let front = entries.drop_last();
        let last = entries.last();
        assert forall|i: int, j: int|
            #![trigger front[i], front[j]]
            0 <= i < j < front.len() implies front[i].0.id() != front[j].0.id() by {
            assert(entries[i].0.id() != entries[j].0.id());
        }
        lemma_entries_map(front);
        assert(!has_key(front, last.0.id())) by {
            assert forall|i: int| 0 <= i < front.len() implies (#[trigger] front[i]).0.id()
                != last.0.id() by {
                assert(entries[i].0.id() != entries[entries.len() - 1].0.id());
            }
        }
        assert(!entries_map(front).dom().contains(last.0.id()));
        assert forall|id: K::Id| #[trigger]
            entries_map(entries).dom().contains(id) <==> has_key(entries, id) by {
            if has_key(front, id) {
                let i = choose|i: int| 0 <= i < front.len() && (#[trigger] front[i]).0.id() == id;
                assert(entries[i].0.id() == id);
            }
            if has_key(entries, id) {
                let i = choose|i: int|
                    0 <= i < entries.len() && (#[trigger] entries[i]).0.id() == id;
                if i < front.len() {
                    assert(front[i].0.id() == id);
                } else {
                    assert(id == last.0.id());
                }
            }
            if id == last.0.id() {
                assert(entries[entries.len() - 1].0.id() == id);
            }
        }
        assert forall|i: int|
            #![trigger entries[i]]
            0 <= i < entries.len() implies entries_map(entries).dom().contains(entries[i].0.id())
            && entries_map(entries)[entries[i].0.id()] == entries[i].1 by {
            if i < front.len() {
                assert(front[i] == entries[i]);
                assert(entries[i].0.id() != entries[entries.len() - 1].0.id());
            }
        }
    } else {
        assert(entries_map(entries).dom() =~= Set::empty());
        assert forall|id: K::Id| #[trigger]
            entries_map(entries).dom().contains(id) <==> has_key(entries, id) by {}
    }
}

/// Entries in order, each key once.
pub struct Table<K: TableKey, V> {
    pub entries: Vec<(K, V)>,
}

impl<K: TableKey, V> Table<K, V> {
    /// The map that the table stands for.
    pub open spec fn map(&self) -> Map<K::Id, V> {
        entries_map(self.entries@)
    }

    /// Each key occurs once.
    pub open spec fn wf(&self) -> bool {
        distinct_keys(self.entries@)
    }

    pub fn new() -> (table: Self)
        ensures
            table.wf(),
            table.map() == Map::<K::Id, V>::empty(),
            table.entries@.len() == 0,
    {
        Table { entries: Vec::new() }
    }

    /// Where the entry of `key` stands, if there is one.
    pub fn position(&self, key: &K) -> (at: Option<usize>)
        requires
            self.wf(),
        ensures
            match at {
                Some(i) => i < self.entries@.len() && self.entries@[i as int].0.id() == key.id()
                    && self.map().dom().contains(key.id())
                    && self.map()[key.id()] == self.entries@[i as int].1,
                None => !self.map().dom().contains(key.id()),
            },
    {
        proof {
            lemma_entries_map(self.entries@);
        }
        for i in 0..self.entries.len()
            invariant
                forall|j: int|
                    0 <= j < i ==> (#[trigger] self.entries@[j]).0.id() != key.id(),
                forall|j: int|
                    #![trigger self.entries@[j]]
                    0 <= j < self.entries@.len() ==> self.map().dom().contains(
                        self.entries@[j].0.id(),
                    ) && self.map()[self.entries@[j].0.id()] == self.entries@[j].1,
        {
            if self.entries[i].0.same_key(key) {
                return Some(i);
            }
        }
        assert(!has_key(self.entries@, key.id()));
        None
    }

    /// Takes the entry at `at` out.
    pub fn remove_at(&mut self, at: usize) -> (value: V)
        requires
            old(self).wf(),
            at < old(self).entries@.len(),
        ensures
            final(self).wf(),
            final(self).map() == old(self).map().remove(old(self).entries@[at as int].0.id()),
            final(self).entries@ == old(self).entries@.remove(at as int),
            value == old(self).entries@[at as int].1,
    {
        let ghost before = self.entries@;
        let (_, value) = self.entries.remove(at);
        proof {
            let after = self.entries@;
            let gone = before[at as int].0.id();
            assert forall|i: int, j: int|
                #![trigger after[i], after[j]]
                0 <= i < j < after.len() implies after[i].0.id() != after[j].0.id() by {
                let p = if i < at { i } else { i + 1 };
                let q = if j < at { j } else { j + 1 };
                assert(before[p].0.id() != before[q].0.id());
            }
            lemma_entries_map(before);
            lemma_entries_map(after);
            assert forall|id: K::Id|
                entries_map(after).dom().contains(id) <==> entries_map(before).remove(
                    gone,
                ).dom().contains(id) by {
                if has_key(after, id) {
                    let i = choose|i: int|
                        0 <= i < after.len() && (#[trigger] after[i]).0.id() == id;
                    let p = if i < at { i } else { i + 1 };
                    assert(before[p].0.id() == id);
                    if p < at {
                        assert(before[p].0.id() != before[at as int].0.id());
                    } else {
                        assert(before[at as int].0.id() != before[p].0.id());
                    }
                }
                if has_key(before, id) && id != gone {
                    let p = choose|p: int|
                        0 <= p < before.len() && (#[trigger] before[p]).0.id() == id;
                    let i = if p < at { p } else { p - 1 };
                    assert(after[i] == before[p]);
                }
            }
            assert forall|id: K::Id|
                entries_map(after).dom().contains(id) implies entries_map(after)[id]
                == entries_map(before)[id] by {
                let i = choose|i: int| 0 <= i < after.len() && (#[trigger] after[i]).0.id() == id;
                let p = if i < at { i } else { i + 1 };
                assert(after[i] == before[p]);
            }
            assert(entries_map(after) =~= entries_map(before).remove(gone));
        }
        value
    }

    /// Takes the entry of `key` out, if there is one.
    pub fn remove(&mut self, key: &K) -> (value: Option<V>)
        requires
            old(self).wf(),
        ensures
            final(self).wf(),
            final(self).map() == old(self).map().remove(key.id()),
            match value {
                Some(v) => old(self).map().dom().contains(key.id()) && v == old(self).map()[key.id()],
                None => !old(self).map().dom().contains(key.id()),
            },
            final(self).entries@.len() <= old(self).entries@.len(),
    {
        match self.position(key) {
            Some(at) => Some(self.remove_at(at)),
            None => {
                assert(self.map() =~= self.map().remove(key.id()));
                None
            },
        }
    }

    /// Puts `value` under `key`, in place of what was there.
    pub fn insert(&mut self, key: K, value: V)
        requires
            old(self).wf(),
        ensures
            final(self).wf(),
            final(self).map() == old(self).map().insert(key.id(), value),
            final(self).entries@.len() == old(self).entries@.len() + if old(
                self,
            ).map().dom().contains(key.id()) {
                0int
            } else {
                1int
            },
    {
        let ghost held = self.map();
        let known = self.position(&key);
        proof {
            lemma_entries_map(self.entries@);
        }
        if let Some(at) = known {
            let _ = self.remove_at(at);
        }
        let ghost front = self.entries@;
        proof {
            lemma_entries_map(front);
        }
        assert(!entries_map(front).dom().contains(key.id()));
        self.entries.push((key, value));
        proof {
            let after = self.entries@;
            assert(after.drop_last() =~= front);
            assert forall|i: int, j: int|
                #![trigger after[i], after[j]]
                0 <= i < j < after.len() implies after[i].0.id() != after[j].0.id() by {
                if j < front.len() {
                    assert(front[i].0.id() != front[j].0.id());
                } else {
                    assert(front[i] == after[i]);
                    if after[i].0.id() == key.id() {
                        assert(has_key(front, key.id()));
                    }
                }
            }
            assert(entries_map(after) =~= held.insert(key.id(), value));
        }
    }
}

} // verus!
