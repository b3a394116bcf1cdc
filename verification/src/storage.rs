//! The keys of the state, and an in-memory state storage that keeps the
//! value stored under each key and can be told to fail.

use vstd::prelude::*;
use crate::bytes::{bytes_equal, copy_bytes};
use crate::hash::{Address, H256};

verus! {

/// What kind of entry a key names.
#[derive(Clone, Copy, Debug, PartialEq, Eq, Structural, Hash)]
pub enum KeyKind {
    Account,
    StorageRoot,
    Storage,
    Code,
    DepositList,
    VoteList,
    SlotTxQueue,
    Signal,
    Slot,
}

/// A key, as plain values.
pub struct StorageKeyView {
    pub kind: KeyKind,
    pub address: Seq<u8>,
    pub suffix: Seq<u8>,
}

/// A key of the state: the kind of entry, the account it belongs to, and
/// what tells the account's entries of that kind apart.
#[derive(Debug, PartialEq, Eq)]
pub struct StorageKey {
    kind: KeyKind,
    address: Address,
    suffix: Vec<u8>,
}

impl View for StorageKey {
    type V = StorageKeyView;

    closed spec fn view(&self) -> StorageKeyView {
        StorageKeyView { kind: self.kind, address: self.address@, suffix: self.suffix@ }
    }
}

impl Clone for StorageKey {
    fn clone(&self) -> (r: Self)
        ensures
            r@ == self@,
    {
        StorageKey {
            kind: self.kind,
            address: self.address,
            suffix: copy_bytes(self.suffix.as_slice()),
        }
    }
}

/// Whether `prefix` covers `key`: the same kind and account, and a suffix
/// that `key`'s suffix starts with.
pub open spec fn covers(prefix: StorageKeyView, key: StorageKeyView) -> bool {
    &&& prefix.kind == key.kind
    &&& prefix.address == key.address
    &&& prefix.suffix.len() <= key.suffix.len()
    &&& key.suffix.subrange(0, prefix.suffix.len() as int) == prefix.suffix
}

impl StorageKey {
    fn of(kind: KeyKind, address: &Address, suffix: &[u8]) -> (r: Self)
        ensures
            r@ == (StorageKeyView { kind, address: address@, suffix: suffix@ }),
    {
        StorageKey { kind, address: *address, suffix: copy_bytes(suffix) }
    }

    fn whole(kind: KeyKind, address: &Address) -> (r: Self)
        ensures
            r@ == (StorageKeyView { kind, address: address@, suffix: Seq::empty() }),
    {
        let r = StorageKey { kind, address: *address, suffix: Vec::new() };
        assert(r@.suffix =~= Seq::empty());
        r
    }

    pub fn new_account_key(address: &Address) -> (r: Self)
        ensures
            r@ == (StorageKeyView {
                kind: KeyKind::Account,
                address: address@,
                suffix: Seq::empty(),
            }),
    {
        Self::whole(KeyKind::Account, address)
    }

    pub fn new_storage_root_key(address: &Address) -> (r: Self)
        ensures
            r@ == (StorageKeyView {
                kind: KeyKind::StorageRoot,
                address: address@,
                suffix: Seq::empty(),
            }),
    {
        Self::whole(KeyKind::StorageRoot, address)
    }

    pub fn new_storage_key(address: &Address, storage_key: &[u8]) -> (r: Self)
        ensures
            r@ == (StorageKeyView {
                kind: KeyKind::Storage,
                address: address@,
                suffix: storage_key@,
            }),
    {
        Self::of(KeyKind::Storage, address, storage_key)
    }

    pub fn new_code_key(address: &Address, code_hash: &H256) -> (r: Self)
        ensures
            r@ == (StorageKeyView { kind: KeyKind::Code, address: address@, suffix: code_hash@ }),
    {
        Self::of(KeyKind::Code, address, code_hash.0.as_slice())
    }

    pub fn new_deposit_list_key(address: &Address) -> (r: Self)
        ensures
            r@ == (StorageKeyView {
                kind: KeyKind::DepositList,
                address: address@,
                suffix: Seq::empty(),
            }),
    {
        Self::whole(KeyKind::DepositList, address)
    }

    pub fn new_vote_list_key(address: &Address) -> (r: Self)
        ensures
            r@ == (StorageKeyView {
                kind: KeyKind::VoteList,
                address: address@,
                suffix: Seq::empty(),
            }),
    {
        Self::whole(KeyKind::VoteList, address)
    }

    pub fn new_slot_tx_queue_key(address: &Address) -> (r: Self)
        ensures
            r@ == (StorageKeyView {
                kind: KeyKind::SlotTxQueue,
                address: address@,
                suffix: Seq::empty(),
            }),
    {
        Self::whole(KeyKind::SlotTxQueue, address)
    }

    pub fn new_signal_key(address: &Address, signal_key: &[u8]) -> (r: Self)
        ensures
            r@ == (StorageKeyView {
                kind: KeyKind::Signal,
                address: address@,
                suffix: signal_key@,
            }),
    {
        Self::of(KeyKind::Signal, address, signal_key)
    }

    pub fn new_slot_key(address: &Address, slot_key: &[u8]) -> (r: Self)
        ensures
            r@ == (StorageKeyView { kind: KeyKind::Slot, address: address@, suffix: slot_key@ }),
    {
        Self::of(KeyKind::Slot, address, slot_key)
    }

    /// Whether two keys name the same entry.
    pub fn equals(&self, other: &StorageKey) -> (r: bool)
        ensures
            r == (self@ == other@),
    {
        self.kind == other.kind && self.address.equals(&other.address) && bytes_equal(
            self.suffix.as_slice(),
            other.suffix.as_slice(),
        )
    }

    /// Whether this key, taken as a prefix, covers `key`.
    pub fn covers(&self, key: &StorageKey) -> (r: bool)
        ensures
            r == covers(self@, key@),
    {
        if !(self.kind == key.kind && self.address.equals(&key.address)) {
            return false;
        }
        let n = self.suffix.len();
        if n > key.suffix.len() {
            return false;
        }
        let mut i: usize = 0;
        while i < n
            invariant
                i <= n,
                n == self.suffix@.len(),
                n <= key.suffix@.len(),
                forall|j: int| 0 <= j < i ==> key.suffix@[j] == self.suffix@[j],
            decreases n - i,
        {
            if key.suffix[i] != self.suffix[i] {
                assert(key.suffix@.subrange(0, n as int)[i as int] != self.suffix@[i as int]);
                return false;
            }
            i += 1;
        }
        assert(key.suffix@.subrange(0, n as int) =~= self.suffix@);
        true
    }
}

/// Why the storage refused an operation.
#[derive(Clone, Copy, Debug, PartialEq, Eq, Structural, Hash)]
pub enum StorageErrorKind {
    MPTKeyNotFound,
    OutOfCapacity,
    OutOfMem,
}

struct StorageEntry {
    key: StorageKey,
    value: Vec<u8>,
}

/// A key with the value that was stored under it.
#[derive(Debug, PartialEq, Eq)]
pub struct RemovedEntry {
    pub key: StorageKey,
    pub value: Vec<u8>,
}

/// State storage in memory: the value stored under each key. While a fault
/// is set, every operation fails with it and changes nothing.
pub struct StorageState {
    entries: Vec<StorageEntry>,
    fault: Option<StorageErrorKind>,
}

impl View for StorageState {
    type V = Map<StorageKeyView, Seq<u8>>;

    closed spec fn view(&self) -> Map<StorageKeyView, Seq<u8>> {
        Map::new(
            |key: StorageKeyView| self.holds(key),
            |key: StorageKeyView| self.entries[self.position(key)].value@,
        )
    }
}

impl StorageState {
    #[verifier::type_invariant]
    spec fn distinct_keys(&self) -> bool {
        distinct(self.entries@)
    }

    spec fn holds(&self, key: StorageKeyView) -> bool {
        exists|i: int| 0 <= i < self.entries.len() && self.entries[i].key@ == key
    }

    spec fn position(&self, key: StorageKeyView) -> int {
        choose|i: int| 0 <= i < self.entries.len() && self.entries[i].key@ == key
    }

    /// The fault that the storage fails with, if one is set.
    pub closed spec fn fault(&self) -> Option<StorageErrorKind> {
        self.fault
    }

    /// An empty storage, without a fault.
    pub fn new() -> (r: Self)
        ensures
            r@ == Map::<StorageKeyView, Seq<u8>>::empty(),
            r.fault() is None,
    {
        let r = StorageState { entries: Vec::new(), fault: None };
        assert(r@ =~= Map::<StorageKeyView, Seq<u8>>::empty());
        r
    }

    /// Make every later operation fail with `fault`, or succeed again.
    pub fn set_fault(&mut self, fault: Option<StorageErrorKind>)
        ensures
            final(self)@ == old(self)@,
            final(self).fault() == fault,
    {
        proof {
            use_type_invariant(&*self);
        }
        self.fault = fault;
        assert(self@ =~= old(self)@);
    }

    fn find(&self, key: &StorageKey) -> (r: Option<usize>)
        ensures
            match r {
                Some(i) => i < self.entries.len() && self.entries[i as int].key@ == key@,
                None => !self.holds(key@),
            },
    {
        let mut i: usize = 0;
        while i < self.entries.len()
            invariant
                i <= self.entries.len(),
                forall|j: int| 0 <= j < i ==> self.entries[j].key@ != key@,
            decreases self.entries.len() - i,
        {
            if self.entries[i].key.equals(key) {
                return Some(i);
            }
            i += 1;
        }
        None
    }

    /// The value stored under `key`.
    pub fn get(&self, key: &StorageKey) -> (r: Result<Option<Vec<u8>>, StorageErrorKind>)
        ensures
            match r {
                Ok(Some(value)) => self.fault() is None && self@.contains_key(key@) && value@
                    == self@[key@],
                Ok(None) => self.fault() is None && !self@.contains_key(key@),
                Err(kind) => self.fault() == Some(kind),
            },
    {
        proof {
            use_type_invariant(self);
        }
        if let Some(kind) = self.fault {
            return Err(kind);
        }
        match self.find(key) {
            Some(i) => {
                assert(self.holds(key@));
                Ok(Some(copy_bytes(self.entries[i].value.as_slice())))
            },
            None => Ok(None),
        }
    }

    /// Store `value` under `key`, in place of what was stored there.
    pub fn set(&mut self, key: StorageKey, value: Vec<u8>) -> (r: Result<(), StorageErrorKind>)
        ensures
            final(self).fault() == old(self).fault(),
            match r {
                Ok(_) => old(self).fault() is None && final(self)@ == old(self)@.insert(
                    key@,
                    value@,
                ),
                Err(kind) => old(self).fault() == Some(kind) && final(self)@ == old(self)@,
            },
    {
        proof {
            use_type_invariant(&*self);
        }
        if let Some(kind) = self.fault {
            return Err(kind);
        }
        let ghost before = *self;
        let found = self.find(&key);
        let mut entries = Vec::new();
        core::mem::swap(&mut entries, &mut self.entries);
        match found {
            Some(i) => {
                entries.set(i, StorageEntry { key, value });
                self.entries = entries;
                proof {
                    assert forall|k: StorageKeyView| #[trigger]
                        self@.contains_key(k) == (before@.contains_key(k) || k == key@) by {
                        if before.holds(k) {
                            let j = before.position(k);
                            assert(self.entries[j].key@ == k);
                        }
                        if self.holds(k) {
                            let j = self.position(k);
                            assert(before.entries[j].key@ == k);
                        }
                    }
                    assert forall|k: StorageKeyView| self@.contains_key(k) implies #[trigger] self@[k]
                        == before@.insert(key@, value@)[k] by {
                        let j = self.position(k);
                        if k != key@ {
                            assert(j != i);
                            assert(before.entries[j].key@ == k);
                            assert(before.position(k) == j);
                        } else {
                            assert(j == i);
                        }
                    }
                    assert(self@ =~= before@.insert(key@, value@));
                }
            },
            None => {
                entries.push(StorageEntry { key, value });
                self.entries = entries;
                proof {
                    let n = before.entries.len() as int;
                    assert forall|k: StorageKeyView| #[trigger]
                        self@.contains_key(k) == (before@.contains_key(k) || k == key@) by {
                        if before.holds(k) {
                            let j = before.position(k);
                            assert(self.entries[j].key@ == k);
                        }
                        if k == key@ {
                            assert(self.entries[n].key@ == k);
                        }
                        if self.holds(k) {
                            let j = self.position(k);
                            if j < n {
                                assert(before.entries[j].key@ == k);
                            }
                        }
                    }
                    assert forall|k: StorageKeyView| self@.contains_key(k) implies #[trigger] self@[k]
                        == before@.insert(key@, value@)[k] by {
                        let j = self.position(k);
                        if k != key@ {
                            assert(j < n);
                            assert(before.entries[j].key@ == k);
                            assert(before.position(k) == j);
                        } else {
                            assert(j == n);
                        }
                    }
                    assert(self@ =~= before@.insert(key@, value@));
                }
            },
        }
        Ok(())
    }

    /// Remove the entry under `key`, and return the value it held.
    pub fn delete(&mut self, key: &StorageKey) -> (r: Result<Option<Vec<u8>>, StorageErrorKind>)
        ensures
            final(self).fault() == old(self).fault(),
            match r {
                Ok(Some(value)) => old(self).fault() is None && old(self)@.contains_key(key@)
                    && value@ == old(self)@[key@] && final(self)@ == old(self)@.remove(key@),
                Ok(None) => old(self).fault() is None && !old(self)@.contains_key(key@)
                    && final(self)@ == old(self)@,
                Err(kind) => old(self).fault() == Some(kind) && final(self)@ == old(self)@,
            },
    {
        proof {
            use_type_invariant(&*self);
        }
        if let Some(kind) = self.fault {
            return Err(kind);
        }
        let ghost before = *self;
        match self.find(key) {
            Some(i) => {
                let mut entries = Vec::new();
                core::mem::swap(&mut entries, &mut self.entries);
                let entry = entries.remove(i);
                self.entries = entries;
                proof {
                    let gone = i as int;
                    assert(before.holds(key@));
                    assert(before.position(key@) == gone);
                    assert forall|k: StorageKeyView| #[trigger]
                        self@.contains_key(k) == (before@.contains_key(k) && k != key@) by {
                        if before.holds(k) && k != key@ {
                            let j = before.position(k);
                            if j < gone {
                                assert(self.entries[j].key@ == k);
                            } else {
                                assert(self.entries[j - 1].key@ == k);
                            }
                        }
                        if self.holds(k) {
                            let j = self.position(k);
                            if j < gone {
                                assert(before.entries[j].key@ == k);
                            } else {
                                assert(before.entries[j + 1].key@ == k);
                            }
                        }
                    }
                    assert forall|k: StorageKeyView| self@.contains_key(k) implies #[trigger] self@[k]
                        == before@[k] by {
                        let j = self.position(k);
                        if j < gone {
                            assert(before.entries[j].key@ == k);
                            assert(before.position(k) == j);
                        } else {
                            assert(before.entries[j + 1].key@ == k);
                            assert(before.position(k) == j + 1);
                        }
                    }
                    assert(self@ =~= before@.remove(key@));
                }
                Ok(Some(entry.value))
            },
            None => Ok(None),
        }
    }
}

/// The keys that `prefix` covers.
pub open spec fn covered_keys(prefix: StorageKeyView) -> Set<StorageKeyView> {
    Set::new(|key: StorageKeyView| covers(prefix, key))
}

/// `removed` lists, once each, the entries of `before` that `prefix` covers.
pub open spec fn removed_exactly(
    removed: Seq<RemovedEntry>,
    before: Map<StorageKeyView, Seq<u8>>,
    prefix: StorageKeyView,
) -> bool {
    &&& forall|i: int|
        0 <= i < removed.len() ==> {
            &&& covers(prefix, #[trigger] removed[i].key@)
            &&& before.contains_key(removed[i].key@)
            &&& before[removed[i].key@] == removed[i].value@
        }
    &&& forall|i: int, j: int|
        0 <= i < j < removed.len() ==> #[trigger] removed[i].key@ != #[trigger] removed[j].key@
    &&& forall|key: StorageKeyView|
        #[trigger] before.contains_key(key) && covers(prefix, key) ==> exists|i: int|
            0 <= i < removed.len() && #[trigger] removed[i].key@ == key
}

impl StorageState {
    /// Remove every entry that `key_prefix` covers, and return what was
    /// removed; `None` where nothing was.
    pub fn delete_all(&mut self, key_prefix: &StorageKey) -> (r: Result<
        Option<Vec<RemovedEntry>>,
        StorageErrorKind,
    >)
        ensures
            final(self).fault() == old(self).fault(),
            match r {
                Ok(Some(removed)) => old(self).fault() is None && removed@.len() > 0
                    && removed_exactly(removed@, old(self)@, key_prefix@)
                    && final(self)@ == old(self)@.remove_keys(covered_keys(key_prefix@)),
                Ok(None) => old(self).fault() is None && final(self)@ == old(self)@ && forall|
                    key: StorageKeyView,
                |
                    old(self)@.contains_key(key) ==> !covers(key_prefix@, key),
                Err(kind) => old(self).fault() == Some(kind) && final(self)@ == old(self)@,
            },
    {
        proof {
            use_type_invariant(&*self);
        }
        if let Some(kind) = self.fault {
            return Err(kind);
        }
        let ghost before = *self;
        let ghost all = self.entries@;
        let ghost prefix = key_prefix@;
        let mut entries = Vec::new();
        core::mem::swap(&mut entries, &mut self.entries);
        let mut kept: Vec<StorageEntry> = Vec::new();
        let mut removed: Vec<RemovedEntry> = Vec::new();
        let ghost mut kept_from: Seq<int> = Seq::empty();
        let ghost mut removed_from: Seq<int> = Seq::empty();
        let ghost mut slot_of: Map<int, int> = Map::empty();
        while entries.len() > 0
            invariant
                distinct(all),
                entries@ == all.subrange(0, entries@.len() as int),
                entries@.len() <= all.len(),
                kept_from.len() == kept@.len(),
                removed_from.len() == removed@.len(),
                forall|x: int|
                    0 <= x < kept@.len() ==> {
                        &&& entries@.len() <= #[trigger] kept_from[x] < all.len()
                        &&& kept@[x].key@ == all[kept_from[x]].key@
                        &&& kept@[x].value@ == all[kept_from[x]].value@
                        &&& !covers(prefix, all[kept_from[x]].key@)
                    },
                forall|x: int|
                    0 <= x < removed@.len() ==> {
                        &&& entries@.len() <= #[trigger] removed_from[x] < all.len()
                        &&& removed@[x].key@ == all[removed_from[x]].key@
                        &&& removed@[x].value@ == all[removed_from[x]].value@
                        &&& covers(prefix, all[removed_from[x]].key@)
                    },
                forall|x: int, y: int|
                    0 <= x < y < kept@.len() ==> #[trigger] kept_from[x] != #[trigger] kept_from[y],
                forall|x: int, y: int|
                    0 <= x < y < removed@.len() ==> #[trigger] removed_from[x]
                        != #[trigger] removed_from[y],
                placed(all, entries@.len() as int, prefix, slot_of, removed_from, kept_from),
                prefix == key_prefix@,
            decreases entries@.len(),
        {
            let ghost at = entries@.len() - 1;
            let entry = entries.pop().unwrap();
            assert(entry == all[at]);
            let ghost slots = slot_of;
            let ghost kept_before = kept_from;
            let ghost removed_before = removed_from;
            if key_prefix.covers(&entry.key) {
                proof {
                    slot_of = slot_of.insert(at, removed@.len() as int);
                    removed_from = removed_from.push(at);
                }
                removed.push(RemovedEntry { key: entry.key, value: entry.value });
            } else {
                proof {
                    slot_of = slot_of.insert(at, kept@.len() as int);
                    kept_from = kept_from.push(at);
                }
                kept.push(entry);
            }
            assert(placed(all, entries@.len() as int, prefix, slot_of, removed_from, kept_from)) by {
                assert forall|j: int| entries@.len() <= j < all.len() implies {
                    &&& #[trigger] slot_of.contains_key(j)
                    &&& covers(prefix, all[j].key@) ==> 0 <= slot_of[j] < removed_from.len()
                        && removed_from[slot_of[j]] == j
                    &&& !covers(prefix, all[j].key@) ==> 0 <= slot_of[j] < kept_from.len()
                        && kept_from[slot_of[j]] == j
                } by {
                    if j > at {
                        assert(slots.contains_key(j));
                        assert(slot_of[j] == slots[j]);
                        if covers(prefix, all[j].key@) {
                            assert(removed_from[slots[j]] == removed_before[slots[j]]);
                        } else {
                            assert(kept_from[slots[j]] == kept_before[slots[j]]);
                        }
                    }
                }
            }
        }
        proof {
            assert forall|x: int, y: int| 0 <= x < y < kept@.len() implies kept@[x].key@
                != kept@[y].key@ by {
                let a = kept_from[x];
                let b = kept_from[y];
                assert(a != b);
                if a < b {
                    assert(all[a].key@ != all[b].key@);
                } else {
                    assert(all[b].key@ != all[a].key@);
                }
            }
        }
        self.entries = kept;
        proof {
            let gone = covered_keys(prefix);
            assert forall|k: StorageKeyView| #[trigger]
                self@.contains_key(k) == (before@.contains_key(k) && !covers(prefix, k)) by {
                if before.holds(k) && !covers(prefix, k) {
                    let j = before.position(k);
                    assert(slot_of.contains_key(j));
                    assert(self.entries[slot_of[j]].key@ == k);
                }
                if self.holds(k) {
                    let x = self.position(k);
                    assert(all[kept_from[x]].key@ == k);
                }
            }
            assert forall|k: StorageKeyView| self@.contains_key(k) implies #[trigger] self@[k]
                == before@[k] by {
                let x = self.position(k);
                let j = kept_from[x];
                assert(all[j].key@ == k);
                let p = before.position(k);
                if p < j {
                    assert(all[p].key@ != all[j].key@);
                } else if j < p {
                    assert(all[j].key@ != all[p].key@);
                }
            }
            assert(self@ =~= before@.remove_keys(gone));
            assert forall|i: int| 0 <= i < removed@.len() implies {
                &&& covers(prefix, #[trigger] removed@[i].key@)
                &&& before@.contains_key(removed@[i].key@)
                &&& before@[removed@[i].key@] == removed@[i].value@
            } by {
                let j = removed_from[i];
                let k = all[j].key@;
                assert(before.entries[j].key@ == k);
                let p = before.position(k);
                if p < j {
                    assert(all[p].key@ != all[j].key@);
                } else if j < p {
                    assert(all[j].key@ != all[p].key@);
                }
            }
            assert forall|i: int, j: int| 0 <= i < j < removed@.len() implies #[trigger] removed@[i].key@
                != #[trigger] removed@[j].key@ by {
                let a = removed_from[i];
                let b = removed_from[j];
                assert(a != b);
                if a < b {
                    assert(all[a].key@ != all[b].key@);
                } else {
                    assert(all[b].key@ != all[a].key@);
                }
            }
            assert forall|key: StorageKeyView| #[trigger]
                before@.contains_key(key) && covers(prefix, key) implies exists|i: int|
                0 <= i < removed@.len() && #[trigger] removed@[i].key@ == key by {
                let j = before.position(key);
                assert(slot_of.contains_key(j));
                assert(removed@[slot_of[j]].key@ == key);
            }
            if removed@.len() == 0 {
                assert(self@ =~= before@);
            }
        }
        if removed.len() == 0 {
            Ok(None)
        } else {
            Ok(Some(removed))
        }
    }
}

/// Every entry of `all` from index `from` on has its place: `slot_of` leads
/// from its index to where it stands among the removed entries, if `prefix`
/// covers it, and among the kept ones, if not.
spec fn placed(
    all: Seq<StorageEntry>,
    from: int,
    prefix: StorageKeyView,
    slot_of: Map<int, int>,
    removed_from: Seq<int>,
    kept_from: Seq<int>,
) -> bool {
    forall|j: int|
        from <= j < all.len() ==> {
            &&& #[trigger] slot_of.contains_key(j)
            &&& covers(prefix, all[j].key@) ==> 0 <= slot_of[j] < removed_from.len()
                && removed_from[slot_of[j]] == j
            &&& !covers(prefix, all[j].key@) ==> 0 <= slot_of[j] < kept_from.len()
                && kept_from[slot_of[j]] == j
        }
}

/// No key occurs twice among `entries`.
spec fn distinct(entries: Seq<StorageEntry>) -> bool {
    forall|i: int, j: int| 0 <= i < j < entries.len() ==> entries[i].key@ != entries[j].key@
}

} // verus!
