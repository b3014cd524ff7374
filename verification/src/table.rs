//! An association table: each key occurs at most once. It asks nothing of a
//! key but that it can be compared, and its entries can be walked.

use vstd::prelude::*;

verus! {

/// A key that can be compared; two keys are the same when their views are.
pub trait Key: View {
    fn same(&self, other: &Self) -> (same: bool)
        ensures
            same == (self@ == other@),
    ;
}

impl Key for String {
    fn same(&self, other: &Self) -> (same: bool) {
        *self == *other
    }
}

pub struct Table<K: Key, V> {
    entries: Vec<(K, V)>,
}

/// The position of the entry for `key`, where there is one.
pub open spec fn holds_at<K: Key, V>(entries: Seq<(K, V)>, key: K::V, i: int) -> bool {
    0 <= i < entries.len() && entries[i].0@ == key
}

/// No key occurs twice.
pub open spec fn distinct_keys<K: Key, V>(entries: Seq<(K, V)>) -> bool {
    forall|i: int, j: int|
        #![trigger entries[i], entries[j]]
        0 <= i < j < entries.len() ==> entries[i].0@ != entries[j].0@
}

/// The map that a list of entries stands for.
pub open spec fn map_of<K: Key, V>(entries: Seq<(K, V)>) -> Map<K::V, V> {
    Map::new(
        |key: K::V| exists|i: int| holds_at(entries, key, i),
        |key: K::V| entries[choose|i: int| holds_at(entries, key, i)].1,
    )
}

impl<K: Key, V> View for Table<K, V> {
    type V = Map<K::V, V>;

    closed spec fn view(&self) -> Map<K::V, V> {
        map_of(self.entries@)
    }
}

impl<K: Key, V> Table<K, V> {
    /// The invariant of a table: its keys are distinct.
    pub closed spec fn wf(&self) -> bool {
        distinct_keys(self.entries@)
    }

    proof fn lemma_entry(&self, i: int)
        requires
            self.wf(),
            0 <= i < self.entries@.len(),
        ensures
            self@.contains_key(self.entries@[i].0@),
            self@[self.entries@[i].0@] == self.entries@[i].1,
    {
        let key = self.entries@[i].0@;
        assert(holds_at(self.entries@, key, i));
        let j = choose|j: int| holds_at(self.entries@, key, j);
        assert(holds_at(self.entries@, key, j));
        assert(i == j);
    }

    pub fn new() -> (table: Self)
        ensures
            table.wf(),
            table@ == Map::<K::V, V>::empty(),
    {
        let table = Table { entries: Vec::new() };
        proof {
            assert forall|key: K::V| !table@.contains_key(key) by {
                assert forall|i: int| !holds_at(table.entries@, key, i) by {}
            }
            assert(table@ =~= Map::<K::V, V>::empty());
        }
        table
    }

    fn find(&self, key: &K) -> (found: Option<usize>)
        requires
            self.wf(),
        ensures
            match found {
                Some(i) => holds_at(self.entries@, key@, i as int) && self@.contains_key(key@)
                    && self@[key@] == self.entries@[i as int].1,
                None => !self@.contains_key(key@),
            },
    {
        let mut i: usize = 0;
        while i < self.entries.len()
            invariant
                self.wf(),
                i <= self.entries@.len(),
                forall|j: int| 0 <= j < i ==> !holds_at(self.entries@, key@, j),
            decreases self.entries@.len() - i,
        {
            if self.entries[i].0.same(key) {
                proof {
                    self.lemma_entry(i as int);
                }
                return Some(i);
            }
            i = i + 1;
        }
        None
    }

    /// The value that `key` has, where it has one.
    pub fn get(&self, key: &K) -> (value: Option<&V>)
        requires
            self.wf(),
        ensures
            match value {
                Some(v) => self@.contains_key(key@) && *v == self@[key@],
                None => !self@.contains_key(key@),
            },
    {
        match self.find(key) {
            Some(i) => Some(&self.entries[i].1),
            None => None,
        }
    }

    pub fn contains_key(&self, key: &K) -> (found: bool)
        requires
            self.wf(),
        ensures
            found == self@.contains_key(key@),
    {
        self.find(key).is_some()
    }

    /// Takes the entry of `key` out.
    pub fn remove(&mut self, key: &K) -> (removed: Option<V>)
        requires
            old(self).wf(),
        ensures
            final(self).wf(),
            final(self)@ == old(self)@.remove(key@),
            match removed {
                Some(v) => old(self)@.contains_key(key@) && v == old(self)@[key@],
                None => !old(self)@.contains_key(key@),
            },
    {
        let ghost before = *self;
        match self.find(key) {
            Some(i) => {
                let entry = self.entries.remove(i);
                proof {
                    let i: int = i as int;
                    assert(distinct_keys(self.entries@)) by {
                        assert forall|a: int, b: int|
                            #![trigger self.entries@[a], self.entries@[b]]
                            0 <= a < b
                                < self.entries@.len() implies self.entries@[a].0@
                            != self.entries@[b].0@ by {
                            let a0 = if a < i { a } else { a + 1 };
                            let b0 = if b < i { b } else { b + 1 };
                            assert(self.entries@[a] == before.entries@[a0]);
                            assert(self.entries@[b] == before.entries@[b0]);
                        }
                    }
                    assert forall|k: K::V| #[trigger]
                        self@.contains_key(k) implies before@.remove(key@).contains_key(k)
                        && self@[k] == before@[k] by {
                        let j = choose|j: int| holds_at(self.entries@, k, j);
                        let j0 = if j < i { j } else { j + 1 };
                        assert(self.entries@[j] == before.entries@[j0]);
                        self.lemma_entry(j);
                        before.lemma_entry(j0);
                        assert(j0 != i);
                        assert(before.entries@[i].0@ == key@);
                    }
                    assert forall|k: K::V| #[trigger]
                        before@.remove(key@).contains_key(k) implies self@.contains_key(k) by {
                        let j0 = choose|j: int| holds_at(before.entries@, k, j);
                        let j = if j0 < i { j0 } else { j0 - 1 };
                        assert(j0 != i);
                        assert(self.entries@[j] == before.entries@[j0]);
                        assert(holds_at(self.entries@, k, j));
                    }
                    assert(self@ =~= before@.remove(key@));
                }
                Some(entry.1)
            },
            None => {
                proof {
                    assert(before@.remove(key@) =~= before@);
                }
                None
            },
        }
    }

    /// Gives `key` the value `value`, in place of the one it had.
    pub fn insert(&mut self, key: K, value: V)
        requires
            old(self).wf(),
        ensures
            final(self).wf(),
            final(self)@ == old(self)@.insert(key@, value),
    {
        self.remove(&key);
        let ghost before = *self;
        let ghost k0 = key@;
        self.entries.push((key, value));
        proof {
            let last = before.entries@.len() as int;
            assert(forall|j: int| 0 <= j < last ==> self.entries@[j] == before.entries@[j]);
            assert forall|j: int| 0 <= j < last implies before.entries@[j].0@ != k0 by {
                before.lemma_entry(j);
            }
            assert(self.wf());
            self.lemma_entry(last);
            assert forall|k: K::V| #[trigger]
                self@.contains_key(k) implies before@.insert(k0, value).contains_key(k) && self@[k]
                == before@.insert(k0, value)[k] by {
                let j = choose|j: int| holds_at(self.entries@, k, j);
                self.lemma_entry(j);
                if j < last {
                    before.lemma_entry(j);
                }
            }
            assert forall|k: K::V| #[trigger]
                before@.insert(k0, value).contains_key(k) implies self@.contains_key(k) by {
                if k != k0 {
                    let j = choose|j: int| holds_at(before.entries@, k, j);
                    assert(holds_at(self.entries@, k, j));
                }
            }
            assert(self@ =~= before@.insert(k0, value));
            assert(self@ =~= old(self)@.insert(k0, value));
        }
    }

    pub fn len(&self) -> (len: usize)
        ensures
            len == self.count(),
    {
        self.entries.len()
    }

    /// How many entries there are to walk.
    pub closed spec fn count(&self) -> nat {
        self.entries@.len()
    }

    /// The key of the entry at a position of the walk.
    pub closed spec fn key_at(&self, i: int) -> K::V {
        self.entries@[i].0@
    }

    /// The value at a position of the walk.
    pub fn value_at(&self, i: usize) -> (value: &V)
        requires
            self.wf(),
            i < self.count(),
        ensures
            self@.contains_key(self.key_at(i as int)),
            *value == self@[self.key_at(i as int)],
    {
        proof {
            self.lemma_entry(i as int);
        }
        &self.entries[i].1
    }

    /// The walk reaches every key.
    pub proof fn lemma_walk_is_complete(&self, key: K::V)
        requires
            self.wf(),
            self@.contains_key(key),
        ensures
            exists|i: int| 0 <= i < self.count() && self.key_at(i) == key,
    {
        let i = choose|i: int| holds_at(self.entries@, key, i);
        assert(0 <= i < self.count() && self.key_at(i) == key);
    }
}

} // verus!
