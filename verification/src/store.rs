use vstd::prelude::*;

use crate::types::bytes_eq;

verus! {

/// One key/value pair of a [`KeyedStore`].
pub struct StoreEntry<V> {
    pub key: Vec<u8>,
    pub value: V,
}

/// A map from byte-string keys to values, kept in insertion order, in which
/// no key occurs twice. It holds what a contract keeps in a keyed storage
/// mapper.
pub struct KeyedStore<V> {
    entries: Vec<StoreEntry<V>>,
}

impl<V> KeyedStore<V> {
    /// No key occurs twice.
    pub closed spec fn wf(&self) -> bool {
        forall|i: int, j: int|
            0 <= i < j < self.entries@.len() ==> #[trigger] self.entries@[i].key@
                != #[trigger] self.entries@[j].key@
    }

    /// Whether an entry holds `k`.
    spec fn has_key(&self, k: Seq<u8>) -> bool {
        exists|i: int| 0 <= i < self.entries@.len() && #[trigger] self.entries@[i].key@ == k
    }

    /// The position of the entry that holds `k`.
    spec fn index_of(&self, k: Seq<u8>) -> int {
        choose|i: int| 0 <= i < self.entries@.len() && #[trigger] self.entries@[i].key@ == k
    }

    /// The map that the store holds.
    pub closed spec fn view(&self) -> Map<Seq<u8>, V> {
        Map::new(|k: Seq<u8>| self.has_key(k), |k: Seq<u8>| self.entries@[self.index_of(k)].value)
    }


    proof fn lemma_index_of(&self, i: int)
        requires
            self.wf(),
            0 <= i < self.entries@.len(),
        ensures
            self.has_key(self.entries@[i].key@),
            self.index_of(self.entries@[i].key@) == i,
            self.view().dom().contains(self.entries@[i].key@),
            self.view()[self.entries@[i].key@] == self.entries@[i].value,
    {
        let k = self.entries@[i].key@;
        assert(self.has_key(k));
        let j = self.index_of(k);
        if j < i {
            assert(self.entries@[j].key@ != self.entries@[i].key@);
        } else if i < j {
            assert(self.entries@[i].key@ != self.entries@[j].key@);
        }
    }

    /// An empty store.
    pub fn new() -> (r: Self)
        ensures
            r.wf(),
            r.view() == Map::<Seq<u8>, V>::empty(),
    {
        let r = KeyedStore { entries: Vec::new() };
        assert(r.view() =~= Map::<Seq<u8>, V>::empty());
        r
    }

    /// The position of the entry holding `key`, if any.
    fn find(&self, key: &[u8]) -> (r: Option<usize>)
        requires
            self.wf(),
        ensures
            match r {
                Some(i) => i < self.entries@.len() && self.entries@[i as int].key@ == key@,
                None => !self.has_key(key@),
            },
    {
        let mut i: usize = 0;
        while i < self.entries.len()
            invariant
                0 <= i <= self.entries@.len(),
                forall|j: int| 0 <= j < i ==> self.entries@[j].key@ != key@,
            decreases self.entries@.len() - i,
        {
            if bytes_eq(self.entries[i].key.as_slice(), key) {
                return Some(i);
            }
            i = i + 1;
        }
        None
    }

    /// Whether `key` is in the store.
    pub fn contains_key(&self, key: &[u8]) -> (r: bool)
        requires
            self.wf(),
        ensures
            r == self.view().dom().contains(key@),
    {
        self.find(key).is_some()
    }

    /// The value stored under `key`, if any.
    pub fn get(&self, key: &[u8]) -> (r: Option<&V>)
        requires
            self.wf(),
        ensures
            match r {
                Some(v) => self.view().dom().contains(key@) && *v == self.view()[key@],
                None => !self.view().dom().contains(key@),
            },
    {
        match self.find(key) {
            Some(i) => {
                proof {
                    self.lemma_index_of(i as int);
                }
                Some(&self.entries[i].value)
            },
            None => None,
        }
    }

    /// Stores `value` under `key`, replacing what was there.
    pub fn insert(&mut self, key: Vec<u8>, value: V)
        requires
            old(self).wf(),
        ensures
            final(self).wf(),
            final(self).view() == old(self).view().insert(key@, value),
    {
        let ghost k = key@;
        match self.find(key.as_slice()) {
            Some(i) => {
                let ghost prev = *self;
                let ghost v = value;
                self.entries.set(i, StoreEntry { key, value });
                proof {
                    assert(self.entries@ == prev.entries@.update(i as int, StoreEntry { key: self.entries@[i as int].key, value: v }));
                    assert(self.wf()) by {
                        assert forall|a: int, b: int|
                            0 <= a < b < self.entries@.len() implies #[trigger] self.entries@[a].key@
                                != #[trigger] self.entries@[b].key@ by {
                            assert(prev.entries@[a].key@ != prev.entries@[b].key@);
                        }
                    }
                    self.lemma_index_of(i as int);
                    assert forall|kk: Seq<u8>| #[trigger] prev.view().dom().contains(kk) && kk != k
                        implies self.view().dom().contains(kk) && self.view()[kk] == prev.view()[kk] by {
                        let j = prev.index_of(kk);
                        prev.lemma_index_of(j);
                        assert(j != i);
                        assert(self.entries@[j] == prev.entries@[j]);
                        self.lemma_index_of(j);
                    }
                    assert forall|kk: Seq<u8>| #[trigger] self.view().dom().contains(kk) && kk != k
                        implies prev.view().dom().contains(kk) by {
                        let j = self.index_of(kk);
                        assert(j != i);
                        assert(self.entries@[j] == prev.entries@[j]);
                        prev.lemma_index_of(j);
                    }
                    prev.lemma_index_of(i as int);
                    assert(self.view() =~= prev.view().insert(k, v));
                }
            },
            None => {
                let ghost prev = *self;
                let ghost v = value;
                self.entries.push(StoreEntry { key, value });
                proof {
                    let n = prev.entries@.len() as int;
                    assert(self.wf()) by {
                        assert forall|a: int, b: int|
                            0 <= a < b < self.entries@.len() implies #[trigger] self.entries@[a].key@
                                != #[trigger] self.entries@[b].key@ by {
                            if b == n {
                                assert(prev.entries@[a].key@ != k);
                            } else {
                                assert(prev.entries@[a].key@ != prev.entries@[b].key@);
                            }
                        }
                    }
                    self.lemma_index_of(n);
                    assert forall|kk: Seq<u8>| #[trigger] prev.view().dom().contains(kk)
                        implies self.view().dom().contains(kk) && self.view()[kk] == prev.view()[kk] by {
                        let j = prev.index_of(kk);
                        prev.lemma_index_of(j);
                        assert(self.entries@[j] == prev.entries@[j]);
                        self.lemma_index_of(j);
                    }
                    assert forall|kk: Seq<u8>| #[trigger] self.view().dom().contains(kk) && kk != k
                        implies prev.view().dom().contains(kk) by {
                        let j = self.index_of(kk);
                        assert(j != n);
                        assert(self.entries@[j] == prev.entries@[j]);
                        prev.lemma_index_of(j);
                    }
                    assert(self.view() =~= prev.view().insert(k, v));
                }
            },
        }
    }

    /// Removes the entry stored under `key`, if any.
    pub fn remove(&mut self, key: &[u8])
        requires
            old(self).wf(),
        ensures
            final(self).wf(),
            final(self).view() == old(self).view().remove(key@),
    {
        let ghost k = key@;
        match self.find(key) {
            Some(i) => {
                let ghost prev = *self;
                let _removed = self.entries.remove(i);
                proof {
                    let ii = i as int;
                    assert(forall|j: int| 0 <= j < ii ==> self.entries@[j] == prev.entries@[j]);
                    assert(forall|j: int| ii <= j < self.entries@.len() ==> self.entries@[j] == prev.entries@[j + 1]);
                    assert(self.wf()) by {
                        assert forall|a: int, b: int|
                            0 <= a < b < self.entries@.len() implies #[trigger] self.entries@[a].key@
                                != #[trigger] self.entries@[b].key@ by {
                            let pa = if a < ii { a } else { a + 1 };
                            let pb = if b < ii { b } else { b + 1 };
                            assert(self.entries@[a] == prev.entries@[pa]);
                            assert(self.entries@[b] == prev.entries@[pb]);
                            assert(prev.entries@[pa].key@ != prev.entries@[pb].key@);
                        }
                    }
                    assert forall|kk: Seq<u8>| #[trigger] prev.view().dom().contains(kk) && kk != k
                        implies self.view().dom().contains(kk) && self.view()[kk] == prev.view()[kk] by {
                        let j = prev.index_of(kk);
                        prev.lemma_index_of(j);
                        assert(j != ii);
                        let nj = if j < ii { j } else { j - 1 };
                        assert(self.entries@[nj] == prev.entries@[j]);
                        self.lemma_index_of(nj);
                    }
                    assert forall|kk: Seq<u8>| #[trigger] self.view().dom().contains(kk)
                        implies prev.view().dom().contains(kk) && kk != k by {
                        let j = self.index_of(kk);
                        let pj = if j < ii { j } else { j + 1 };
                        assert(self.entries@[j] == prev.entries@[pj]);
                        prev.lemma_index_of(pj);
                        prev.lemma_index_of(ii);
                        assert(pj != ii);
                        assert(prev.entries@[pj].key@ != prev.entries@[ii].key@);
                    }
                    assert(self.view() =~= prev.view().remove(k));
                }
            },
            None => {
                assert(self.view() =~= old(self).view().remove(k));
            },
        }
    }
}

} // verus!
