//! A verified key-value table: the storage map that the stores of this crate
//! are built on.
//!
//! Entries are kept in a vector with pairwise distinct keys; the table is
//! viewed as a finite `Map` from keys to values.

use vstd::prelude::*;

verus! {

broadcast use vstd::array::group_array_axioms;

/// A key whose equality executable code can decide.
pub trait TableKey: Copy {
    /// Whether two keys are equal.
    fn key_eq(&self, other: &Self) -> (r: bool)
        ensures
            r == (*self == *other),
    ;
}

impl TableKey for u32 {
    fn key_eq(&self, other: &Self) -> (r: bool) {
        *self == *other
    }
}

impl TableKey for u64 {
    fn key_eq(&self, other: &Self) -> (r: bool) {
        *self == *other
    }
}

impl TableKey for u128 {
    fn key_eq(&self, other: &Self) -> (r: bool) {
        *self == *other
    }
}

impl TableKey for [u8; 32] {
    fn key_eq(&self, other: &Self) -> (r: bool) {
        let mut i: usize = 0;
        while i < 32
            invariant
                0 <= i <= 32,
                forall|j: int| 0 <= j < i ==> self[j] == other[j],
            decreases 32 - i,
        {
            if self[i] != other[i] {
                return false;
            }
            i = i + 1;
        }
        assert(*self =~= *other);
        true
    }
}

/// A finite map from keys to values.
pub struct Table<K, V> {
    entries: Vec<(K, V)>,
}

impl<K, V> Table<K, V> {
    /// No key occurs twice among the entries.
    pub closed spec fn wf(&self) -> bool {
        forall|i: int, j: int|
            0 <= i < self.entries@.len() && 0 <= j < self.entries@.len() && i != j
                ==> #[trigger] self.entries@[i].0 != #[trigger] self.entries@[j].0
    }

    spec fn index_of(&self, k: K) -> int {
        choose|i: int| 0 <= i < self.entries@.len() && self.entries@[i].0 == k
    }

    /// The table as a map.
    pub closed spec fn map(&self) -> Map<K, V> {
        Map::new(
            |k: K| exists|i: int| 0 <= i < self.entries@.len() && self.entries@[i].0 == k,
            |k: K| self.entries@[self.index_of(k)].1,
        )
    }

    proof fn lemma_index(&self, k: K, i: int)
        requires
            self.wf(),
            0 <= i < self.entries@.len(),
            self.entries@[i].0 == k,
        ensures
            self.index_of(k) == i,
            self.map().contains_key(k),
            self.map()[k] == self.entries@[i].1,
    {
        assert(exists|j: int| 0 <= j < self.entries@.len() && self.entries@[j].0 == k);
        let j = self.index_of(k);
        assert(self.entries@[j].0 == k);
    }
}

impl<K, V> View for Table<K, V> {
    type V = Map<K, V>;

    open spec fn view(&self) -> Map<K, V> {
        self.map()
    }
}

impl<K: TableKey, V> Table<K, V> {
    /// An empty table.
    pub fn new() -> (t: Self)
        ensures
            t.wf(),
            t@ == Map::<K, V>::empty(),
    {
        let t = Table { entries: Vec::new() };
        assert(t@ =~= Map::<K, V>::empty());
        t
    }

    fn find(&self, k: &K) -> (r: Option<usize>)
        requires
            self.wf(),
        ensures
            match r {
                Some(i) => i < self.entries@.len() && self.entries@[i as int].0 == *k,
                None => !self@.contains_key(*k),
            },
    {
        let mut i: usize = 0;
        while i < self.entries.len()
            invariant
                0 <= i <= self.entries@.len(),
                forall|j: int| 0 <= j < i ==> self.entries@[j].0 != *k,
            decreases self.entries@.len() - i,
        {
            if self.entries[i].0.key_eq(k) {
                return Some(i);
            }
            i = i + 1;
        }
        None
    }

    /// Whether the table holds the key.
    pub fn contains_key(&self, k: &K) -> (r: bool)
        requires
            self.wf(),
        ensures
            r == self@.contains_key(*k),
    {
        match self.find(k) {
            Some(i) => {
                proof {
                    self.lemma_index(*k, i as int);
                }
                true
            },
            None => false,
        }
    }

    /// The value stored under the key, if any.
    pub fn get(&self, k: &K) -> (r: Option<&V>)
        requires
            self.wf(),
        ensures
            r is Some == self@.contains_key(*k),
            r matches Some(v) ==> *v == self@[*k],
    {
        match self.find(k) {
            Some(i) => {
                proof {
                    self.lemma_index(*k, i as int);
                }
                Some(&self.entries[i].1)
            },
            None => None,
        }
    }

    /// Stores the value under the key, replacing any previous value.
    pub fn insert(&mut self, k: K, v: V)
        requires
            old(self).wf(),
        ensures
            final(self).wf(),
            final(self)@ == old(self)@.insert(k, v),
    {
        let ghost pre = *self;
        match self.find(&k) {
            Some(i) => {
                self.entries.set(i, (k, v));
                proof {
                    assert(self.wf());
                    self.lemma_index(k, i as int);
                    assert forall|kk: K| #[trigger] self@.contains_key(kk) implies pre@.insert(
                        k,
                        v,
                    ).contains_key(kk) && self@[kk] == pre@.insert(k, v)[kk] by {
                        let j = self.index_of(kk);
                        if kk != k {
                            assert(self.entries@[j].0 == kk);
                            pre.lemma_index(kk, j);
                        }
                    }
                    assert forall|kk: K| #[trigger] pre@.insert(k, v).contains_key(kk)
                        implies self@.contains_key(kk) by {
                        if kk != k {
                            let j = pre.index_of(kk);
                            assert(pre.entries@[j].0 == kk);
                            assert(self.entries@[j].0 == kk);
                        }
                    }
                    assert(self@ =~= pre@.insert(k, v));
                }
            },
            None => {
                self.entries.push((k, v));
                proof {
                    let n = pre.entries@.len() as int;
                    assert(self.wf());
                    self.lemma_index(k, n);
                    assert forall|kk: K| #[trigger] self@.contains_key(kk) implies pre@.insert(
                        k,
                        v,
                    ).contains_key(kk) && self@[kk] == pre@.insert(k, v)[kk] by {
                        let j = self.index_of(kk);
                        if kk != k {
                            assert(self.entries@[j].0 == kk);
                            assert(j != n);
                            pre.lemma_index(kk, j);
                            self.lemma_index(kk, j);
                        }
                    }
                    assert forall|kk: K| #[trigger] pre@.insert(k, v).contains_key(kk)
                        implies self@.contains_key(kk) by {
                        if kk != k {
                            let j = pre.index_of(kk);
                            assert(pre.entries@[j].0 == kk);
                            assert(self.entries@[j].0 == kk);
                        }
                    }
                    assert(self@ =~= pre@.insert(k, v));
                }
            },
        }
    }

    /// Removes the key, giving back the value that was stored under it.
    pub fn remove(&mut self, k: &K) -> (r: Option<V>)
        requires
            old(self).wf(),
        ensures
            final(self).wf(),
            final(self)@ == old(self)@.remove(*k),
            r == old(self)@.get(*k),
    {
        let ghost pre = *self;
        match self.find(k) {
            Some(i) => {
                proof {
                    pre.lemma_index(*k, i as int);
                }
                let (_, v) = self.entries.remove(i);
                proof {
                    let ii = i as int;
                    assert(self.wf()) by {
                        assert forall|a: int, b: int|
                            0 <= a < self.entries@.len() && 0 <= b < self.entries@.len() && a
                                != b implies #[trigger] self.entries@[a].0
                            != #[trigger] self.entries@[b].0 by {
                            let a0 = if a < ii {
                                a
                            } else {
                                a + 1
                            };
                            let b0 = if b < ii {
                                b
                            } else {
                                b + 1
                            };
                            assert(self.entries@[a] == pre.entries@[a0]);
                            assert(self.entries@[b] == pre.entries@[b0]);
                        }
                    }
                    assert forall|kk: K| #[trigger] self@.contains_key(kk) implies pre@.remove(
                        *k,
                    ).contains_key(kk) && self@[kk] == pre@.remove(*k)[kk] by {
                        let j = self.index_of(kk);
                        assert(self.entries@[j].0 == kk);
                        let j0 = if j < ii {
                            j
                        } else {
                            j + 1
                        };
                        assert(self.entries@[j] == pre.entries@[j0]);
                        assert(j0 != ii);
                        pre.lemma_index(kk, j0);
                        self.lemma_index(kk, j);
                    }
                    assert forall|kk: K| #[trigger] pre@.remove(*k).contains_key(kk)
                        implies self@.contains_key(kk) by {
                        let j0 = pre.index_of(kk);
                        assert(pre.entries@[j0].0 == kk);
                        assert(j0 != ii);
                        let j = if j0 < ii {
                            j0
                        } else {
                            j0 - 1
                        };
                        assert(self.entries@[j] == pre.entries@[j0]);
                    }
                    assert(self@ =~= pre@.remove(*k));
                }
                Some(v)
            },
            None => {
                assert(self@ =~= pre@.remove(*k));
                None
            },
        }
    }
}

impl<K: TableKey, V: Copy> Table<K, V> {
    /// Every entry of the table, each key once, in storage order.
    pub fn pairs(&self) -> (r: Vec<(K, V)>)
        requires
            self.wf(),
        ensures
            forall|i: int| 0 <= i < r@.len() ==> #[trigger] self@.contains_key(r@[i].0) && self@[r@[i].0] == r@[i].1,
            forall|k: K| #[trigger] self@.contains_key(k) ==> exists|i: int| 0 <= i < r@.len() && r@[i].0 == k,
            forall|i: int, j: int| 0 <= i < r@.len() && 0 <= j < r@.len() && i != j ==> #[trigger] r@[i].0 != #[trigger] r@[j].0,
    {
        let mut r: Vec<(K, V)> = Vec::new();
        let mut i: usize = 0;
        while i < self.entries.len()
            invariant
                self.wf(),
                0 <= i <= self.entries@.len(),
                r@ == self.entries@.subrange(0, i as int),
            decreases self.entries@.len() - i,
        {
            r.push(self.entries[i]);
            i = i + 1;
            assert(r@ =~= self.entries@.subrange(0, i as int));
        }
        assert(r@ =~= self.entries@);
        proof {
            assert forall|i: int| 0 <= i < r@.len() implies #[trigger] self@.contains_key(r@[i].0) && self@[r@[i].0] == r@[i].1 by {
                self.lemma_index(r@[i].0, i);
            }
            assert forall|k: K| #[trigger] self@.contains_key(k) implies exists|i: int| 0 <= i < r@.len() && r@[i].0 == k by {
                let j = self.index_of(k);
                assert(r@[j].0 == k);
            }
        }
        r
    }
}

} // verus!
