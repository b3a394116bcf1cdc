//! A map keyed by 256-bit digests, kept as a list of entries in which no key
//! occurs twice.

use vstd::prelude::*;
use crate::hash::H256;

verus! {

struct Entry<V> {
    key: H256,
    value: V,
}

/// Map from digests to values.
pub struct DigestMap<V> {
    entries: Vec<Entry<V>>,
}

impl<V> View for DigestMap<V> {
    type V = Map<Seq<u8>, V>;

    closed spec fn view(&self) -> Map<Seq<u8>, V> {
        Map::new(
            |key: Seq<u8>| self.holds(key),
            |key: Seq<u8>| self.entries[self.position(key)].value,
        )
    }
}

impl<V> DigestMap<V> {
    #[verifier::type_invariant]
    spec fn distinct_keys(&self) -> bool {
        forall|i: int, j: int|
            0 <= i < j < self.entries.len() ==> self.entries[i].key@ != self.entries[j].key@
    }

    spec fn holds(&self, key: Seq<u8>) -> bool {
        exists|i: int| 0 <= i < self.entries.len() && self.entries[i].key@ == key
    }

    spec fn position(&self, key: Seq<u8>) -> int {
        choose|i: int| 0 <= i < self.entries.len() && self.entries[i].key@ == key
    }

    /// The empty map.
    pub fn new() -> (r: Self)
        ensures
            r@ == Map::<Seq<u8>, V>::empty(),
    {
        let r = DigestMap { entries: Vec::new() };
        assert(r@ =~= Map::<Seq<u8>, V>::empty());
        r
    }

    /// Where `key` stands among the entries, if it does.
    fn find(&self, key: &H256) -> (r: Option<usize>)
        ensures
            match r {
                Some(i) => i < self.entries.len() && self.entries[i as int].key@ == key@,
                None => !self.holds(key@),
            },
    {
        let mut i: usize = 0;
        while i < self.entries.len()
            invariant
                i <= self.entries.len(),
                forall|j: int| 0 <= j < i ==> self.entries[j].key@ != key@,
            decreases self.entries.len() - i,
        {
            if self.entries[i].key.equals(key) {
                return Some(i);
            }
            i += 1;
        }
        None
    }

    /// The value stored under `key`.
    pub fn get(&self, key: &H256) -> (r: Option<&V>)
        ensures
            match r {
                Some(value) => self@.contains_key(key@) && *value == self@[key@],
                None => !self@.contains_key(key@),
            },
    {
        proof {
            use_type_invariant(self);
        }
        match self.find(key) {
            Some(i) => {
                assert(self.holds(key@));
                Some(&self.entries[i].value)
            },
            None => None,
        }
    }

    /// Store `value` under `key`, in place of what was stored there.
    pub fn insert(&mut self, key: H256, value: V)
        ensures
            final(self)@ == old(self)@.insert(key@, value),
    {
        proof {
            use_type_invariant(&*self);
        }
        let ghost before = *self;
        let found = self.find(&key);
        let mut entries = Vec::new();
        core::mem::swap(&mut entries, &mut self.entries);
        match found {
            Some(i) => {
                entries.set(i, Entry { key, value });
                self.entries = entries;
                proof {
                    assert forall|k: Seq<u8>| #[trigger] self@.contains_key(k) == (before@.contains_key(k) || k == key@) by {
                        if before.holds(k) {
                            let j = before.position(k);
                            assert(self.entries[j].key@ == k);
                        }
                        if self.holds(k) {
                            let j = self.position(k);
                            assert(before.entries[j].key@ == k);
                        }
                    }
                    assert forall|k: Seq<u8>| self@.contains_key(k) implies #[trigger] self@[k]
                        == before@.insert(key@, value)[k] by {
                        let j = self.position(k);
                        if k != key@ {
                            assert(j != i);
                            assert(before.entries[j].key@ == k);
                            assert(before.position(k) == j);
                        } else {
                            assert(j == i);
                        }
                    }
                    assert(self@ =~= before@.insert(key@, value));
                }
            },
            None => {
                entries.push(Entry { key, value });
                self.entries = entries;
                proof {
                    let n = before.entries.len() as int;
                    assert forall|k: Seq<u8>| #[trigger] self@.contains_key(k) == (before@.contains_key(k) || k == key@) by {
                        if before.holds(k) {
                            let j = before.position(k);
                            assert(self.entries[j].key@ == k);
                        }
                        if k == key@ {
                            assert(self.entries[n].key@ == k);
                        }
                        if self.holds(k) {
                            let j = self.position(k);
                            if j < n {
                                assert(before.entries[j].key@ == k);
                            }
                        }
                    }
                    assert forall|k: Seq<u8>| self@.contains_key(k) implies #[trigger] self@[k]
                        == before@.insert(key@, value)[k] by {
                        let j = self.position(k);
                        if k != key@ {
                            assert(j < n);
                            assert(before.entries[j].key@ == k);
                            assert(before.position(k) == j);
                        } else {
                            assert(j == n);
                        }
                    }
                    assert(self@ =~= before@.insert(key@, value));
                }
            },
        }
    }
}

} // verus!
