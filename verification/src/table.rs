//! A small verified key-value table: the in-memory model of one family of
//! storage cells (all cells whose key is `DataKey::X(k)` for some `k`).

use vstd::prelude::*;

verus! {

/// Keys that can be compared for exact equality.
pub trait TableKey: Copy + Sized {
    fn same_key(&self, other: &Self) -> (r: bool)
        ensures
            r == (*self == *other),
    ;
}

impl TableKey for u32 {
    fn same_key(&self, other: &Self) -> (r: bool) {
        *self == *other
    }
}

impl TableKey for u64 {
    fn same_key(&self, other: &Self) -> (r: bool) {
        *self == *other
    }
}

/// A finite map from keys to values, held as a list of entries with distinct keys.
pub struct Table<K, V> {
    entries: Vec<(K, V)>,
}

impl<K, V> Table<K, V> {
    /// No key occurs twice.
    #[verifier::type_invariant]
    closed spec fn keys_distinct(self) -> bool {
        forall|i: int, j: int|
            0 <= i < j < self.entries@.len() ==> #[trigger] self.entries@[i].0 != #[trigger] self.entries@[j].0
    }

    closed spec fn has_key(self, k: K) -> bool {
        exists|i: int| 0 <= i < self.entries@.len() && #[trigger] self.entries@[i].0 == k
    }

    closed spec fn index_of(self, k: K) -> int {
        choose|i: int| 0 <= i < self.entries@.len() && #[trigger] self.entries@[i].0 == k
    }
}

impl<K, V> View for Table<K, V> {
    type V = Map<K, V>;

    closed spec fn view(&self) -> Map<K, V> {
        Map::new(|k: K| self.has_key(k), |k: K| self.entries@[self.index_of(k)].1)
    }
}

impl<K: TableKey, V: Copy> Table<K, V> {
    proof fn lemma_entry_in_view(self, i: int)
        requires
            0 <= i < self.entries@.len(),
            self.keys_distinct(),
        ensures
            self@.contains_key(self.entries@[i].0),
            self@[self.entries@[i].0] == self.entries@[i].1,
    {
        let k = self.entries@[i].0;
        assert(self.has_key(k));
        let j = self.index_of(k);
        assert(self.entries@[j].0 == k);
        if i < j {
            assert(self.entries@[i].0 != self.entries@[j].0);
        } else if j < i {
            assert(self.entries@[j].0 != self.entries@[i].0);
        }
    }

    /// An empty table.
    pub fn new() -> (t: Self)
        ensures
            t@ == Map::<K, V>::empty(),
    {
        let t = Table { entries: Vec::new() };
        assert(t@ =~= Map::<K, V>::empty());
        t
    }

    fn find(&self, k: &K) -> (r: Option<usize>)
        ensures
            match r {
                Some(i) => i < self.entries@.len() && self.entries@[i as int].0 == *k,
                None => forall|i: int| 0 <= i < self.entries@.len() ==> self.entries@[i].0 != *k,
            },
    {
        let mut i: usize = 0;
        while i < self.entries.len()
            invariant
                0 <= i <= self.entries@.len(),
                forall|j: int| 0 <= j < i ==> self.entries@[j].0 != *k,
            decreases self.entries@.len() - i,
        {
            if self.entries[i].0.same_key(k) {
                return Some(i);
            }
            i = i + 1;
        }
        None
    }

    /// The value stored under `k`, if any.
    pub fn get(&self, k: &K) -> (r: Option<V>)
        ensures
            r == self@.get(*k),
    {
        proof {
            use_type_invariant(self);
        }
        match self.find(k) {
            Some(i) => {
                proof {
                    self.lemma_entry_in_view(i as int);
                }
                Some(self.entries[i].1)
            },
            None => {
                assert(!self@.contains_key(*k));
                None
            },
        }
    }

    /// Whether a value is stored under `k`.
    pub fn contains(&self, k: &K) -> (r: bool)
        ensures
            r == self@.contains_key(*k),
    {
        self.get(k).is_some()
    }

    /// Stores `v` under `k`, replacing any earlier value.
    pub fn insert(&mut self, k: K, v: V)
        ensures
            final(self)@ == old(self)@.insert(k, v),
    {
        proof {
            use_type_invariant(&*self);
        }
        let ghost before = *self;
        let found = self.find(&k);
        let mut entries: Vec<(K, V)> = Vec::new();
        std::mem::swap(&mut entries, &mut self.entries);
        assert(entries@ == before.entries@);
        match found {
            Some(i) => {
                entries.set(i, (k, v));
            },
            None => {
                entries.push((k, v));
            },
        }
        let after = Table { entries };
        proof {
            assert(after.keys_distinct()) by {
                assert forall|a: int, b: int| 0 <= a < b < after.entries@.len() implies
                    #[trigger] after.entries@[a].0 != #[trigger] after.entries@[b].0 by {
                    if found is None {
                        assert(before.entries@[a].0 != before.entries@[b].0 || b == before.entries@.len());
                    } else {
                        assert(before.entries@[a].0 != before.entries@[b].0);
                    }
                }
            }
            assert forall|kk: K| #[trigger] after@.contains_key(kk) == before@.insert(k, v).contains_key(kk) by {
                if after.has_key(kk) {
                    let j = after.index_of(kk);
                    if kk != k {
                        assert(before.entries@[j].0 == kk);
                    }
                }
                if before.has_key(kk) {
                    let j = before.index_of(kk);
                    if kk != k {
                        assert(after.entries@[j].0 == kk);
                    }
                }
                if kk == k {
                    match found {
                        Some(i) => { assert(after.entries@[i as int].0 == k); },
                        None => { assert(after.entries@[before.entries@.len() as int].0 == k); },
                    }
                }
            }
            assert forall|kk: K| #[trigger] after@.contains_key(kk) implies after@[kk] == before@.insert(k, v)[kk] by {
                let j = after.index_of(kk);
                after.lemma_entry_in_view(j);
                if kk != k {
                    assert(before.entries@[j].0 == kk);
                    before.lemma_entry_in_view(j);
                }
            }
            assert(after@ =~= before@.insert(k, v));
        }
        self.entries = after.entries;
    }

    /// Removes whatever is stored under `k`.
    pub fn remove(&mut self, k: &K)
        ensures
            final(self)@ == old(self)@.remove(*k),
    {
        proof {
            use_type_invariant(&*self);
        }
        let ghost before = *self;
        let found = self.find(k);
        match found {
            None => {
                assert(self@ =~= before@.remove(*k));
            },
            Some(i) => {
                let mut entries: Vec<(K, V)> = Vec::new();
                std::mem::swap(&mut entries, &mut self.entries);
                entries.remove(i);
                let after = Table { entries };
                proof {
                    let n = before.entries@.len();
                    assert forall|a: int| 0 <= a < n - 1 implies #[trigger] after.entries@[a]
                        == before.entries@[if a < i { a } else { a + 1 }] by {}
                    assert(after.keys_distinct()) by {
                        assert forall|a: int, b: int| 0 <= a < b < after.entries@.len() implies
                            #[trigger] after.entries@[a].0 != #[trigger] after.entries@[b].0 by {
                            let a2 = if a < i { a } else { a + 1 };
                            let b2 = if b < i { b } else { b + 1 };
                            assert(before.entries@[a2].0 != before.entries@[b2].0);
                        }
                    }
                    assert forall|kk: K| #[trigger] after@.contains_key(kk) == before@.remove(*k).contains_key(kk) by {
                        if after.has_key(kk) {
                            let j = after.index_of(kk);
                            let j2 = if j < i { j } else { j + 1 };
                            assert(before.entries@[j2].0 == kk);
                            if kk == *k {
                                assert(before.entries@[i as int].0 == *k);
                            }
                        }
                        if before.has_key(kk) && kk != *k {
                            let j = before.index_of(kk);
                            if j < i {
                                assert(after.entries@[j].0 == kk);
                            } else {
                                assert(j != i);
                                assert(after.entries@[j - 1].0 == kk);
                            }
                        }
                    }
                    assert forall|kk: K| #[trigger] after@.contains_key(kk) implies after@[kk] == before@.remove(*k)[kk] by {
                        let j = after.index_of(kk);
                        after.lemma_entry_in_view(j);
                        let j2 = if j < i { j } else { j + 1 };
                        before.lemma_entry_in_view(j2);
                    }
                    assert(after@ =~= before@.remove(*k));
                }
                self.entries = after.entries;
            },
        }
    }
}

} // verus!
