//! The state database: typed access to the entries of a state storage.

use vstd::prelude::*;
use vstd::bytes::{spec_u64_to_le_bytes, u64_to_le_bytes};
use vstd::string::StringSliceAdditionalSpecFns;
use crate::hash::{Address, H256};
use crate::signal::{SignalInfo, SlotInfo};
use crate::storage::{
    KeyKind, RemovedEntry, StorageErrorKind, StorageKey, StorageKeyView, StorageState, covered_keys,
    covers, removed_exactly,
};
use crate::uint::U256;

verus! {

/// `rlp::DecoderError`: why the decoder refused some bytes. It is passed on
/// as it comes.
#[verifier::external_type_specification]
#[verifier::external_body]
pub struct ExDecoderError(rlp::DecoderError);

/// Why an access to the state failed.
#[derive(Debug, PartialEq, Eq)]
pub enum Error {
    /// The storage refused the operation.
    Storage(StorageErrorKind),
    /// A stored value is not the encoding of what was asked for.
    Decoder(rlp::DecoderError),
}

pub type Result<T> = core::result::Result<T, Error>;

/// What decoding stored bytes gives.
pub type Decoded<T> = core::result::Result<T, rlp::DecoderError>;

/// The value that `bytes` encode in RLP as a 256-bit integer, where they
/// encode one.
pub uninterp spec fn rlp_decoded_u256(bytes: Seq<u8>) -> Option<nat>;

/// The RLP encoding of `value` as a 256-bit integer.
pub uninterp spec fn rlp_encoded_u256(value: nat) -> Seq<u8>;

/// `rlp::decode` for `cfx_types::U256`: the integer that the bytes encode,
/// or the decoder's error where they encode none.
#[verifier::external_body]
fn rlp_decode_u256(bytes: &[u8]) -> (r: core::result::Result<U256, rlp::DecoderError>)
    ensures
        match r {
            Ok(value) => rlp_decoded_u256(bytes@) == Some(value@),
            Err(_) => rlp_decoded_u256(bytes@) is None,
        },
{
    match rlp::decode::<cfx_types::U256>(bytes) {
        Ok(v) => Ok(U256 { w3: v.0[3], w2: v.0[2], w1: v.0[1], w0: v.0[0] }),
        Err(e) => Err(e),
    }
}

/// `rlp::encode` for `cfx_types::U256`: the RLP encoding of the integer.
#[verifier::external_body]
fn rlp_encode_u256(value: &U256) -> (r: Vec<u8>)
    ensures
        r@ == rlp_encoded_u256(value@),
{
    rlp::encode(&cfx_types::U256([value.w0, value.w1, value.w2, value.w3]))
}

/// The accounts under which the state keeps its global entries, and the
/// rates that hold before any were stored.
#[derive(Debug, Clone, Copy)]
pub struct StateDbParameters {
    pub storage_interest_staking_contract_address: Address,
    pub global_slot_tx_queue_address: Address,
    pub global_slot_tx_account_list_address: Address,
    pub initial_annual_interest_rate: U256,
    pub accumulated_interest_rate_scale: U256,
}

pub struct StateDb {
    storage: StorageState,
    parameters: StateDbParameters,
}

impl StateDb {
    /// The value stored under each key.
    pub closed spec fn contents(&self) -> Map<StorageKeyView, Seq<u8>> {
        self.storage@
    }

    /// The fault that the storage fails with, if one is set.
    pub closed spec fn fault(&self) -> Option<StorageErrorKind> {
        self.storage.fault()
    }

    /// The parameters that the database was made with.
    pub closed spec fn parameters(&self) -> StateDbParameters {
        self.parameters
    }

    /// The key of the entry called `name` of the staking contract.
    pub open spec fn staking_key(&self, name: &str) -> StorageKeyView {
        named_key_of(self.parameters().storage_interest_staking_contract_address, name)
    }

    /// The key of the list of accounts with slot transactions ready to run.
    pub open spec fn ready_list_key(&self) -> StorageKeyView {
        named_key_of(
            self.parameters().global_slot_tx_account_list_address,
            SLOT_TX_READY_LIST_KEY,
        )
    }

    /// The key of the global queue of slot transactions of an epoch.
    pub open spec fn global_queue_key(&self, epoch_height: u64) -> StorageKeyView {
        queue_key_of(self.parameters().global_slot_tx_queue_address@, epoch_height)
    }

    pub fn new(storage: StorageState, parameters: StateDbParameters) -> (r: Self)
        ensures
            r.contents() == storage@,
            r.fault() == storage.fault(),
            r.parameters() == parameters,
    {
        StateDb { storage, parameters }
    }

    pub fn get_raw(&self, key: StorageKey) -> (r: Result<Option<Vec<u8>>>)
        ensures
            match r {
                Ok(Some(value)) => self.fault() is None && self.contents().contains_key(key@)
                    && value@ == self.contents()[key@],
                Ok(None) => self.fault() is None && !self.contents().contains_key(key@),
                Err(e) => self.fault() is Some && e == Error::Storage(self.fault().unwrap()),
            },
    {
        match self.storage.get(&key) {
            Ok(value) => Ok(value),
            Err(kind) => Err(Error::Storage(kind)),
        }
    }

    pub fn set_raw(&mut self, key: StorageKey, value: Vec<u8>) -> (r: Result<()>)
        ensures
            final(self).fault() == old(self).fault(),
            final(self).parameters() == old(self).parameters(),
            final(self).contents() == (if old(self).fault() is None {
                old(self).contents().insert(key@, value@)
            } else {
                old(self).contents()
            }),
            r == (match old(self).fault() {
                None => Ok(()),
                Some(StorageErrorKind::MPTKeyNotFound) => Ok(()),
                Some(kind) => Err(Error::Storage(kind)),
            }),
    {
        match self.storage.set(key, value) {
            Ok(_) => Ok(()),
            Err(StorageErrorKind::MPTKeyNotFound) => Ok(()),
            Err(kind) => Err(Error::Storage(kind)),
        }
    }

    pub fn delete(&mut self, key: StorageKey) -> (r: Result<()>)
        ensures
            final(self).fault() == old(self).fault(),
            final(self).parameters() == old(self).parameters(),
            final(self).contents() == (if old(self).fault() is None {
                old(self).contents().remove(key@)
            } else {
                old(self).contents()
            }),
            r == (match old(self).fault() {
                None => Ok(()),
                Some(kind) => Err(Error::Storage(kind)),
            }),
    {
        match self.storage.delete(&key) {
            Ok(_) => Ok(()),
            Err(kind) => Err(Error::Storage(kind)),
        }
    }

    pub fn delete_all(&mut self, key_prefix: StorageKey) -> (r: Result<Option<Vec<RemovedEntry>>>)
        ensures
            final(self).fault() == old(self).fault(),
            final(self).parameters() == old(self).parameters(),
            match r {
                Ok(Some(removed)) => old(self).fault() is None && removed@.len() > 0
                    && removed_exactly(removed@, old(self).contents(), key_prefix@)
                    && final(self).contents() == old(self).contents().remove_keys(
                    covered_keys(key_prefix@),
                ),
                Ok(None) => old(self).fault() is None
                    && final(self).contents() == old(self).contents() && forall|
                    key: StorageKeyView,
                |
                    old(self).contents().contains_key(key) ==> !covers(key_prefix@, key),
                Err(e) => old(self).fault() is Some && e == Error::Storage(
                    old(self).fault().unwrap(),
                ) && final(self).contents() == old(self).contents(),
            },
    {
        match self.storage.delete_all(&key_prefix) {
            Ok(removed) => Ok(removed),
            Err(kind) => Err(Error::Storage(kind)),
        }
    }
}

/// The storage key of a global queue of slot transactions: the epoch
/// height, least significant byte first.
pub open spec fn queue_key_of(address: Seq<u8>, epoch_height: u64) -> StorageKeyView {
    StorageKeyView {
        kind: KeyKind::Storage,
        address,
        suffix: spec_u64_to_le_bytes(epoch_height),
    }
}

/// What a read of a stored 256-bit integer gives: the storage's fault, else
/// `default` where nothing is stored, else the integer that the stored
/// bytes encode, else the decoder's error.
pub open spec fn read_u256(
    db: StateDb,
    key: StorageKeyView,
    default: U256,
    r: Result<U256>,
) -> bool {
    match r {
        Ok(value) => db.fault() is None && (if db.contents().contains_key(key) {
            rlp_decoded_u256(db.contents()[key]) == Some(value@)
        } else {
            value == default
        }),
        Err(Error::Storage(kind)) => db.fault() == Some(kind),
        Err(Error::Decoder(_)) => db.fault() is None && db.contents().contains_key(key)
            && rlp_decoded_u256(db.contents()[key]) is None,
    }
}

/// What a write of `value` under `key` does: with a fault the state stays
/// as it is, and only a fault other than a missing key is reported.
pub open spec fn written(
    before: StateDb,
    after: StateDb,
    key: StorageKeyView,
    value: Seq<u8>,
    r: Result<()>,
) -> bool {
    &&& after.fault() == before.fault()
    &&& after.parameters() == before.parameters()
    &&& after.contents() == (if before.fault() is None {
        before.contents().insert(key, value)
    } else {
        before.contents()
    })
    &&& r == (match before.fault() {
        None => Ok(()),
        Some(StorageErrorKind::MPTKeyNotFound) => Ok(()),
        Some(kind) => Err(Error::Storage(kind)),
    })
}

/// What a removal of the entry under `key` does: with a fault the state
/// stays as it is, and the fault is reported.
pub open spec fn removed(
    before: StateDb,
    after: StateDb,
    key: StorageKeyView,
    r: Result<()>,
) -> bool {
    &&& after.fault() == before.fault()
    &&& after.parameters() == before.parameters()
    &&& after.contents() == (if before.fault() is None {
        before.contents().remove(key)
    } else {
        before.contents()
    })
    &&& r == (match before.fault() {
        None => Ok(()),
        Some(kind) => Err(Error::Storage(kind)),
    })
}

/// What a read of the bytes under `key` gives.
pub open spec fn read_raw(db: StateDb, key: StorageKeyView, r: Result<Option<Vec<u8>>>) -> bool {
    match r {
        Ok(Some(value)) => db.fault() is None && db.contents().contains_key(key) && value@
            == db.contents()[key],
        Ok(None) => db.fault() is None && !db.contents().contains_key(key),
        Err(e) => db.fault() is Some && e == Error::Storage(db.fault().unwrap()),
    }
}

/// The stored value where there is one, else the default.
pub fn stored_or(stored: Option<U256>, default: U256) -> (r: U256)
    ensures
        r == (match stored {
            Some(value) => value,
            None => default,
        }),
{
    match stored {
        Some(value) => value,
        None => default,
    }
}

impl StateDb {
    #[allow(unused)]
    pub fn get_storage_mut(&mut self) -> (r: &mut StorageState)
        ensures
            r@ == old(self).contents(),
            r.fault() == old(self).fault(),
            final(self).contents() == final(r)@,
            final(self).fault() == final(r).fault(),
            final(self).parameters() == old(self).parameters(),
    {
        &mut self.storage
    }

    /// The value stored under `key`, as `decode` reads it.
    pub fn get<T, F>(&self, key: StorageKey, decode: F) -> (r: Result<Option<T>>) where
        F: Fn(&[u8]) -> Decoded<T>,

        requires
            forall|raw: &[u8]| decode.requires((raw,)),
        ensures
            read_decoded(*self, key@, decode, r),
    {
        let raw = match self.storage.get(&key) {
            Ok(maybe_value) => match maybe_value {
                None => {
                    return Ok(None);
                },
                Some(raw) => raw,
            },
            Err(kind) => {
                return Err(Error::Storage(kind));
            },
        };
        match decode(raw.as_slice()) {
            Ok(value) => Ok(Some(value)),
            Err(e) => Err(Error::Decoder(e)),
        }
    }

    /// Store under `key` what `encode` makes of `value`.
    pub fn set<T, F>(&mut self, key: StorageKey, value: &T, encode: F) -> (r: Result<()>) where
        F: Fn(&T) -> Vec<u8>,

        requires
            encode.requires((value,)),
        ensures
            written_encoded(*old(self), *final(self), key@, value, encode, r),
    {
        let encoded = encode(value);
        let ghost bytes = encoded;
        let r = self.set_raw(key, encoded);
        assert(encode.ensures((value,), bytes) && written(*old(self), *self, key@, bytes@, r));
        r
    }

    /// The 256-bit integer stored under `key`, or `default` where nothing is
    /// stored there.
    pub fn get_u256(&self, key: StorageKey, default: U256) -> (r: Result<U256>)
        ensures
            read_u256(*self, key@, default, r),
    {
        let stored = match self.storage.get(&key) {
            Ok(None) => None,
            Ok(Some(raw)) => match rlp_decode_u256(raw.as_slice()) {
                Ok(value) => Some(value),
                Err(e) => {
                    return Err(Error::Decoder(e));
                },
            },
            Err(kind) => {
                return Err(Error::Storage(kind));
            },
        };
        Ok(stored_or(stored, default))
    }

    /// Store a 256-bit integer under `key`.
    pub fn set_u256(&mut self, key: StorageKey, value: &U256) -> (r: Result<()>)
        ensures
            written(*old(self), *final(self), key@, rlp_encoded_u256(value@), r),
    {
        self.set_raw(key, rlp_encode_u256(value))
    }
}

/// What a read of the value under `key` gives, as `decode` reads it: `None`
/// where nothing is stored, the storage's fault, or what `decode` makes of
/// the stored bytes, a value or an error.
pub open spec fn read_decoded<T, F: Fn(&[u8]) -> Decoded<T>>(
    db: StateDb,
    key: StorageKeyView,
    decode: F,
    r: Result<Option<T>>,
) -> bool {
    match r {
        Ok(Some(value)) => db.fault() is None && db.contents().contains_key(key) && exists|
            raw: &[u8],
        |
            raw@ == db.contents()[key] && decode.ensures((raw,), Ok(value)),
        Ok(None) => db.fault() is None && !db.contents().contains_key(key),
        Err(Error::Storage(kind)) => db.fault() == Some(kind),
        Err(Error::Decoder(e)) => db.fault() is None && db.contents().contains_key(key) && exists|
            raw: &[u8],
        |
            raw@ == db.contents()[key] && decode.ensures((raw,), Err(e)),
    }
}

/// What a write of `value` under `key` does, as `encode` writes it: the
/// bytes that `encode` made are stored, unless the storage has a fault.
pub open spec fn written_encoded<T, F: Fn(&T) -> Vec<u8>>(
    before: StateDb,
    after: StateDb,
    key: StorageKeyView,
    value: &T,
    encode: F,
    r: Result<()>,
) -> bool {
    exists|encoded: Vec<u8>|
        encode.ensures((value,), encoded) && written(before, after, key, encoded@, r)
}

/// The key of the entry called `name` in the storage of the account at
/// `address`.
pub open spec fn named_key_of(address: Address, name: &str) -> StorageKeyView {
    StorageKeyView { kind: KeyKind::Storage, address: address@, suffix: name.spec_bytes() }
}

/// The key of the entry of `kind` that `suffix` names among those of the
/// account at `address`.
pub open spec fn key_of(kind: KeyKind, address: Address, suffix: Seq<u8>) -> StorageKeyView {
    StorageKeyView { kind, address: address@, suffix }
}

/// The key of the only entry of its kind that the account at `address` has.
pub open spec fn account_entry(kind: KeyKind, address: Address) -> StorageKeyView {
    StorageKeyView { kind, address: address@, suffix: Seq::empty() }
}

pub const ACCUMULATE_INTEREST_RATE_KEY: &'static str = "accumulate_interest_rate";

pub const INTEREST_RATE_KEY: &'static str = "interest_rate";

pub const TOTAL_BANK_TOKENS_KEY: &'static str = "total_staking_tokens";

pub const TOTAL_STORAGE_TOKENS_KEY: &'static str = "total_storage_tokens";

pub const TOTAL_TOKENS_KEY: &'static str = "total_issued_tokens";

pub const SLOT_TX_READY_LIST_KEY: &'static str = "ready_list_key";

fn named_key(address: &Address, name: &str) -> (r: StorageKey)
    ensures
        r@ == named_key_of(*address, name),
{
    StorageKey::new_storage_key(address, name.as_bytes())
}

impl StateDb {
    pub fn get_code<T, F>(
        &self,
        address: &Address,
        code_hash: &H256,
        decode: F,
    ) -> (r: Result<Option<T>>) where F: Fn(&[u8]) -> Decoded<T>
        requires
            forall|raw: &[u8]| decode.requires((raw,)),
        ensures
            read_decoded(*self, key_of(KeyKind::Code, *address, code_hash@), decode, r),
    {
        let key = StorageKey::new_code_key(address, code_hash);
        self.get(key, decode)
    }

    pub fn get_deposit_list<T, F>(
        &self,
        address: &Address,
        decode: F,
    ) -> (r: Result<Option<T>>) where F: Fn(&[u8]) -> Decoded<T>
        requires
            forall|raw: &[u8]| decode.requires((raw,)),
        ensures
            read_decoded(*self, account_entry(KeyKind::DepositList, *address), decode, r),
    {
        let key = StorageKey::new_deposit_list_key(address);
        self.get(key, decode)
    }

    pub fn get_vote_list<T, F>(
        &self,
        address: &Address,
        decode: F,
    ) -> (r: Result<Option<T>>) where F: Fn(&[u8]) -> Decoded<T>
        requires
            forall|raw: &[u8]| decode.requires((raw,)),
        ensures
            read_decoded(*self, account_entry(KeyKind::VoteList, *address), decode, r),
    {
        let key = StorageKey::new_vote_list_key(address);
        self.get(key, decode)
    }

    pub fn get_account<T, F>(
        &self,
        address: &Address,
        decode: F,
    ) -> (r: Result<Option<T>>) where F: Fn(&[u8]) -> Decoded<T>
        requires
            forall|raw: &[u8]| decode.requires((raw,)),
        ensures
            read_decoded(*self, account_entry(KeyKind::Account, *address), decode, r),
    {
        let key = StorageKey::new_account_key(address);
        self.get(key, decode)
    }

    /// The bytes of the storage layout of the account at `address`.
    pub fn get_storage_layout(&self, address: &Address) -> (r: Result<Option<Vec<u8>>>)
        ensures
            read_raw(*self, account_entry(KeyKind::StorageRoot, *address), r),
    {
        self.get_raw(StorageKey::new_storage_root_key(address))
    }

    /// Store the bytes of the storage layout of the account at `address`.
    pub fn set_storage_layout(&mut self, address: &Address, layout: Vec<u8>) -> (r: Result<()>)
        ensures
            written(
                *old(self),
                *final(self),
                account_entry(KeyKind::StorageRoot, *address),
                layout@,
                r,
            ),
    {
        let key = StorageKey::new_storage_root_key(address);
        self.set_raw(key, layout)
    }

    pub fn get_annual_interest_rate(&self) -> (r: Result<U256>)
        ensures
            read_u256(
                *self,
                self.staking_key(INTEREST_RATE_KEY),
                self.parameters().initial_annual_interest_rate,
                r,
            ),
    {
        let interest_rate_key = named_key(
            &self.parameters.storage_interest_staking_contract_address,
            INTEREST_RATE_KEY,
        );
        self.get_u256(interest_rate_key, self.parameters.initial_annual_interest_rate)
    }

    pub fn get_accumulate_interest_rate(&self) -> (r: Result<U256>)
        ensures
            read_u256(
                *self,
                self.staking_key(ACCUMULATE_INTEREST_RATE_KEY),
                self.parameters().accumulated_interest_rate_scale,
                r,
            ),
    {
        let acc_interest_rate_key = named_key(
            &self.parameters.storage_interest_staking_contract_address,
            ACCUMULATE_INTEREST_RATE_KEY,
        );
        self.get_u256(acc_interest_rate_key, self.parameters.accumulated_interest_rate_scale)
    }

    pub fn get_total_issued_tokens(&self) -> (r: Result<U256>)
        ensures
            read_u256(
                *self,
                self.staking_key(TOTAL_TOKENS_KEY),
                U256 { w3: 0, w2: 0, w1: 0, w0: 0 },
                r,
            ),
    {
        let total_issued_tokens_key = named_key(
            &self.parameters.storage_interest_staking_contract_address,
            TOTAL_TOKENS_KEY,
        );
        self.get_u256(total_issued_tokens_key, U256::zero())
    }

    pub fn get_total_staking_tokens(&self) -> (r: Result<U256>)
        ensures
            read_u256(
                *self,
                self.staking_key(TOTAL_BANK_TOKENS_KEY),
                U256 { w3: 0, w2: 0, w1: 0, w0: 0 },
                r,
            ),
    {
        let total_staking_tokens_key = named_key(
            &self.parameters.storage_interest_staking_contract_address,
            TOTAL_BANK_TOKENS_KEY,
        );
        self.get_u256(total_staking_tokens_key, U256::zero())
    }

    pub fn get_total_storage_tokens(&self) -> (r: Result<U256>)
        ensures
            read_u256(
                *self,
                self.staking_key(TOTAL_STORAGE_TOKENS_KEY),
                U256 { w3: 0, w2: 0, w1: 0, w0: 0 },
                r,
            ),
    {
        let total_storage_tokens_key = named_key(
            &self.parameters.storage_interest_staking_contract_address,
            TOTAL_STORAGE_TOKENS_KEY,
        );
        self.get_u256(total_storage_tokens_key, U256::zero())
    }

    pub fn set_annual_interest_rate(&mut self, interest_rate: &U256) -> (r: Result<()>)
        ensures
            written(
                *old(self),
                *final(self),
                old(self).staking_key(INTEREST_RATE_KEY),
                rlp_encoded_u256(interest_rate@),
                r,
            ),
    {
        let interest_rate_key = named_key(
            &self.parameters.storage_interest_staking_contract_address,
            INTEREST_RATE_KEY,
        );
        self.set_u256(interest_rate_key, interest_rate)
    }

    pub fn set_accumulate_interest_rate(&mut self, accumulate_interest_rate: &U256) -> (r: Result<
        (),
    >)
        ensures
            written(
                *old(self),
                *final(self),
                old(self).staking_key(ACCUMULATE_INTEREST_RATE_KEY),
                rlp_encoded_u256(accumulate_interest_rate@),
                r,
            ),
    {
        let acc_interest_rate_key = named_key(
            &self.parameters.storage_interest_staking_contract_address,
            ACCUMULATE_INTEREST_RATE_KEY,
        );
        self.set_u256(acc_interest_rate_key, accumulate_interest_rate)
    }

    pub fn set_total_issued_tokens(&mut self, total_issued_tokens: &U256) -> (r: Result<()>)
        ensures
            written(
                *old(self),
                *final(self),
                old(self).staking_key(TOTAL_TOKENS_KEY),
                rlp_encoded_u256(total_issued_tokens@),
                r,
            ),
    {
        let total_issued_tokens_key = named_key(
            &self.parameters.storage_interest_staking_contract_address,
            TOTAL_TOKENS_KEY,
        );
        self.set_u256(total_issued_tokens_key, total_issued_tokens)
    }

    pub fn set_total_staking_tokens(&mut self, total_staking_tokens: &U256) -> (r: Result<()>)
        ensures
            written(
                *old(self),
                *final(self),
                old(self).staking_key(TOTAL_BANK_TOKENS_KEY),
                rlp_encoded_u256(total_staking_tokens@),
                r,
            ),
    {
        let total_staking_tokens_key = named_key(
            &self.parameters.storage_interest_staking_contract_address,
            TOTAL_BANK_TOKENS_KEY,
        );
        self.set_u256(total_staking_tokens_key, total_staking_tokens)
    }

    pub fn set_total_storage_tokens(&mut self, total_storage_tokens: &U256) -> (r: Result<()>)
        ensures
            written(
                *old(self),
                *final(self),
                old(self).staking_key(TOTAL_STORAGE_TOKENS_KEY),
                rlp_encoded_u256(total_storage_tokens@),
                r,
            ),
    {
        let total_storage_tokens_key = named_key(
            &self.parameters.storage_interest_staking_contract_address,
            TOTAL_STORAGE_TOKENS_KEY,
        );
        self.set_u256(total_storage_tokens_key, total_storage_tokens)
    }
}

impl StateDb {
    // Retrieve the list of contract addresses with pending slot transaction ready to be handled
    pub fn get_addresses_with_ready_slot_tx<T, F>(
        &self,
        decode: F,
    ) -> (r: Result<Option<T>>) where F: Fn(&[u8]) -> Decoded<T>
        requires
            forall|raw: &[u8]| decode.requires((raw,)),
        ensures
            read_decoded(*self, self.ready_list_key(), decode, r),
    {
        let key = named_key(
            &self.parameters.global_slot_tx_account_list_address,
            SLOT_TX_READY_LIST_KEY,
        );
        self.get(key, decode)
    }

    pub fn set_addresses_with_ready_slot_tx<T, F>(
        &mut self,
        accounts: &T,
        encode: F,
    ) -> (r: Result<()>) where F: Fn(&T) -> Vec<u8>
        requires
            encode.requires((accounts,)),
        ensures
            written_encoded(*old(self), *final(self), old(self).ready_list_key(), accounts, encode, r),
    {
        let key = named_key(
            &self.parameters.global_slot_tx_account_list_address,
            SLOT_TX_READY_LIST_KEY,
        );
        self.set(key, accounts, encode)
    }

    pub fn delete_addresses_with_ready_slot_tx(&mut self) -> (r: Result<()>)
        ensures
            removed(*old(self), *final(self), old(self).ready_list_key(), r),
    {
        let key = named_key(
            &self.parameters.global_slot_tx_account_list_address,
            SLOT_TX_READY_LIST_KEY,
        );
        self.delete(key)
    }

    // Given an epoch number, retrieve the queue.
    pub fn get_global_slot_tx_queue<T, F>(
        &self,
        epoch_height: u64,
        decode: F,
    ) -> (r: Result<Option<T>>) where F: Fn(&[u8]) -> Decoded<T>
        requires
            forall|raw: &[u8]| decode.requires((raw,)),
        ensures
            read_decoded(*self, self.global_queue_key(epoch_height), decode, r),
    {
        let key = queue_key(&self.parameters.global_slot_tx_queue_address, epoch_height);
        self.get(key, decode)
    }

    pub fn set_global_slot_tx_queue<T, F>(
        &mut self,
        epoch_height: u64,
        queue: &T,
        encode: F,
    ) -> (r: Result<()>) where F: Fn(&T) -> Vec<u8>
        requires
            encode.requires((queue,)),
        ensures
            written_encoded(*old(self), *final(self), old(self).global_queue_key(epoch_height), queue, encode, r),
    {
        let key = queue_key(&self.parameters.global_slot_tx_queue_address, epoch_height);
        self.set(key, queue, encode)
    }

    pub fn delete_global_slot_tx_queue(&mut self, epoch_height: u64) -> (r: Result<()>)
        ensures
            removed(*old(self), *final(self), old(self).global_queue_key(epoch_height), r),
    {
        let key = queue_key(&self.parameters.global_slot_tx_queue_address, epoch_height);
        self.delete(key)
    }

    pub fn get_account_slot_tx_queue<T, F>(
        &self,
        address: &Address,
        decode: F,
    ) -> (r: Result<Option<T>>) where F: Fn(&[u8]) -> Decoded<T>
        requires
            forall|raw: &[u8]| decode.requires((raw,)),
        ensures
            read_decoded(*self, account_entry(KeyKind::SlotTxQueue, *address), decode, r),
    {
        let key = StorageKey::new_slot_tx_queue_key(address);
        self.get(key, decode)
    }

    pub fn set_account_slot_tx_queue<T, F>(
        &mut self,
        address: &Address,
        slot_tx_queue: &T,
        encode: F,
    ) -> (r: Result<()>) where F: Fn(&T) -> Vec<u8>
        requires
            encode.requires((slot_tx_queue,)),
        ensures
            written_encoded(*old(self), *final(self), account_entry(KeyKind::SlotTxQueue, *address), slot_tx_queue, encode, r),
    {
        let key = StorageKey::new_slot_tx_queue_key(address);
        self.set(key, slot_tx_queue, encode)
    }

    pub fn delete_account_slot_tx_queue(&mut self, address: &Address) -> (r: Result<()>)
        ensures
            removed(*old(self), *final(self), account_entry(KeyKind::SlotTxQueue, *address), r),
    {
        let key = StorageKey::new_slot_tx_queue_key(address);
        self.delete(key)
    }

    pub fn get_signal_info<F>(
        &self,
        address: &Address,
        signal_key: &Vec<u8>,
        decode: F,
    ) -> (r: Result<Option<SignalInfo>>) where F: Fn(&[u8]) -> Decoded<SignalInfo>
        requires
            forall|raw: &[u8]| decode.requires((raw,)),
        ensures
            read_decoded(*self, key_of(KeyKind::Signal, *address, signal_key@), decode, r),
    {
        let key = StorageKey::new_signal_key(address, signal_key.as_slice());
        self.get(key, decode)
    }

    pub fn set_signal_info<F>(
        &mut self,
        address: &Address,
        signal_key: &Vec<u8>,
        sig_info: &SignalInfo,
        encode: F,
    ) -> (r: Result<()>) where F: Fn(&SignalInfo) -> Vec<u8>
        requires
            encode.requires((sig_info,)),
        ensures
            written_encoded(*old(self), *final(self), key_of(KeyKind::Signal, *address, signal_key@), sig_info, encode, r),
    {
        let key = StorageKey::new_signal_key(address, signal_key.as_slice());
        self.set(key, sig_info, encode)
    }

    pub fn delete_signal_info(&mut self, address: &Address, signal_key: &Vec<u8>) -> (r: Result<()>)
        ensures
            removed(*old(self), *final(self), key_of(KeyKind::Signal, *address, signal_key@), r),
    {
        let key = StorageKey::new_signal_key(address, signal_key.as_slice());
        self.delete(key)
    }

    pub fn get_slot_info<F>(
        &self,
        address: &Address,
        slot_key: &Vec<u8>,
        decode: F,
    ) -> (r: Result<Option<SlotInfo>>) where F: Fn(&[u8]) -> Decoded<SlotInfo>
        requires
            forall|raw: &[u8]| decode.requires((raw,)),
        ensures
            read_decoded(*self, key_of(KeyKind::Slot, *address, slot_key@), decode, r),
    {
        let key = StorageKey::new_slot_key(address, slot_key.as_slice());
        self.get(key, decode)
    }

    pub fn set_slot_info<F>(
        &mut self,
        address: &Address,
        slot_key: &Vec<u8>,
        slot_info: &SlotInfo,
        encode: F,
    ) -> (r: Result<()>) where F: Fn(&SlotInfo) -> Vec<u8>
        requires
            encode.requires((slot_info,)),
        ensures
            written_encoded(*old(self), *final(self), key_of(KeyKind::Slot, *address, slot_key@), slot_info, encode, r),
    {
        let key = StorageKey::new_slot_key(address, slot_key.as_slice());
        self.set(key, slot_info, encode)
    }

    pub fn delete_slot_info(&mut self, address: &Address, slot_key: &Vec<u8>) -> (r: Result<()>)
        ensures
            removed(*old(self), *final(self), key_of(KeyKind::Slot, *address, slot_key@), r),
    {
        let key = StorageKey::new_slot_key(address, slot_key.as_slice());
        self.delete(key)
    }
}

fn queue_key(address: &Address, epoch_height: u64) -> (r: StorageKey)
    ensures
        r@ == queue_key_of(address@, epoch_height),
{
    let buffer = u64_to_le_bytes(epoch_height);
    StorageKey::new_storage_key(address, buffer.as_slice())
}

/// The Merkle roots of an account's storage in the three tries of the state.
#[derive(Debug, Clone, Copy, PartialEq, Eq)]
pub struct StorageRoot {
    pub delta: H256,
    pub intermediate: H256,
    pub snapshot: H256,
}

/// The storage root of an account whose storage has the given roots in the
/// delta, intermediate and snapshot tries: none where it is in no trie,
/// else the three roots, with `null_node` for a trie it is not in.
pub fn storage_root_of(
    maybe_delta: Option<H256>,
    maybe_intermediate: Option<H256>,
    maybe_snapshot: Option<H256>,
    null_node: H256,
) -> (r: Option<StorageRoot>)
    ensures
        r == (if maybe_delta is None && maybe_intermediate is None && maybe_snapshot is None {
            None
        } else {
            Some(
                StorageRoot {
                    delta: match maybe_delta {
                        Some(root) => root,
                        None => null_node,
                    },
                    intermediate: match maybe_intermediate {
                        Some(root) => root,
                        None => null_node,
                    },
                    snapshot: match maybe_snapshot {
                        Some(root) => root,
                        None => null_node,
                    },
                },
            )
        }),
{
    match (maybe_delta, maybe_intermediate, maybe_snapshot) {
        (None, None, None) => None,
        (maybe_delta, maybe_intermediate, maybe_snapshot) => Some(
            StorageRoot {
                delta: match maybe_delta {
                    Some(root) => root,
                    None => null_node,
                },
                intermediate: match maybe_intermediate {
                    Some(root) => root,
                    None => null_node,
                },
                snapshot: match maybe_snapshot {
                    Some(root) => root,
                    None => null_node,
                },
            },
        ),
    }
}

/// What a commit returns: the failure of the commit itself, else what the
/// computation of the state root gave before it.
pub fn commit_outcome<R, E>(
    state_root: core::result::Result<R, E>,
    committed: core::result::Result<(), E>,
) -> (r: core::result::Result<R, E>)
    ensures
        r == (match committed {
            Err(e) => Err(e),
            Ok(_) => state_root,
        }),
{
    match committed {
        Err(e) => Err(e),
        Ok(_) => state_root,
    }
}

} // verus!
