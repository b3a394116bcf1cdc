//! Signals and slots: where they live in the state, what their owners keep
//! of them, and the transactions that run a slot when a signal is emitted.
//!
//! SignalLocation and SlotLocation define the locations in the state trie.
//! SignalInfo and SlotInfo are held in the state information of the account
//! that owns them. Slot is the structure appended to a signal; it aids in
//! the generation of slot transactions, which are described by SlotTx.

use vstd::prelude::*;
use crate::bytes::{append_bytes, bytes_equal, copy_bytes};
use crate::hash::Address;
use crate::uint::{U256, u256_div_mod, u256_max, u256_mul};

verus! {

pub type Bytes = Vec<u8>;

/// A signal's location, as plain values.
pub struct SignalLocationView {
    pub address: Seq<u8>,
    pub signal_key: Seq<u8>,
}

// SignalLocation and SlotLocation.
// Structs that keeps track of the location of a signal or slot on the network.
// The two types are the same. We keep them seperate just for readability.
#[derive(Debug, PartialEq, Eq, PartialOrd, Ord)]
pub struct SignalLocation {
    address: Address,
    signal_key: Bytes,
}

impl View for SignalLocation {
    type V = SignalLocationView;

    closed spec fn view(&self) -> SignalLocationView {
        SignalLocationView { address: self.address@, signal_key: self.signal_key@ }
    }
}

impl Clone for SignalLocation {
    fn clone(&self) -> (r: Self)
        ensures
            r@ == self@,
    {
        SignalLocation { address: self.address, signal_key: copy_bytes(self.signal_key.as_slice()) }
    }
}

impl SignalLocation {
    pub fn new(owner: &Address, signal_key: &[u8]) -> (r: Self)
        ensures
            r@ == (SignalLocationView { address: owner@, signal_key: signal_key@ }),
    {
        SignalLocation { address: *owner, signal_key: copy_bytes(signal_key) }
    }

    // Getters
    pub fn address(&self) -> (r: &Address)
        ensures
            r@ == self@.address,
    {
        &self.address
    }

    pub fn signal_key(&self) -> (r: &Bytes)
        ensures
            r@ == self@.signal_key,
    {
        &self.signal_key
    }
}

/// A slot's location, as plain values.
pub struct SlotLocationView {
    pub address: Seq<u8>,
    pub contract_address: Seq<u8>,
    pub slot_key: Seq<u8>,
}

#[derive(Debug, PartialEq, Eq, PartialOrd, Ord)]
pub struct SlotLocation {
    address: Address,
    contract_address: Address,
    slot_key: Bytes,
}

impl View for SlotLocation {
    type V = SlotLocationView;

    closed spec fn view(&self) -> SlotLocationView {
        SlotLocationView {
            address: self.address@,
            contract_address: self.contract_address@,
            slot_key: self.slot_key@,
        }
    }
}

impl Clone for SlotLocation {
    fn clone(&self) -> (r: Self)
        ensures
            r@ == self@,
    {
        SlotLocation {
            address: self.address,
            contract_address: self.contract_address,
            slot_key: copy_bytes(self.slot_key.as_slice()),
        }
    }
}

impl SlotLocation {
    pub fn new(owner: &Address, contract: &Address, slot_key: &[u8]) -> (r: Self)
        ensures
            r@ == (SlotLocationView {
                address: owner@,
                contract_address: contract@,
                slot_key: slot_key@,
            }),
    {
        SlotLocation {
            address: *owner,
            contract_address: *contract,
            slot_key: copy_bytes(slot_key),
        }
    }

    // Getters
    pub fn address(&self) -> (r: &Address)
        ensures
            r@ == self@.address,
    {
        &self.address
    }

    pub fn contract_address(&self) -> (r: &Address)
        ensures
            r@ == self@.contract_address,
    {
        &self.contract_address
    }

    pub fn slot_key(&self) -> (r: &Bytes)
        ensures
            r@ == self@.slot_key,
    {
        &self.slot_key
    }

    /// Whether both locations hold the same values.
    pub fn equals(&self, other: &SlotLocation) -> (r: bool)
        ensures
            r == (self@ == other@),
    {
        self.address.equals(&other.address) && self.contract_address.equals(
            &other.contract_address,
        ) && bytes_equal(self.slot_key.as_slice(), other.slot_key.as_slice())
    }
}

/// The first four bytes of a slot key: the method id of the slot's handler.
pub open spec fn method_id_of(slot_key: Seq<u8>) -> Seq<u8> {
    slot_key.subrange(0, 4)
}

/// The method id of the slot at `location`.
fn method_id(location: &SlotLocation) -> (r: Bytes)
    requires
        location@.slot_key.len() >= 4,
    ensures
        r@ == method_id_of(location@.slot_key),
{
    let key = location.slot_key();
    let mut r: Vec<u8> = Vec::new();
    r.push(key[0]);
    r.push(key[1]);
    r.push(key[2]);
    r.push(key[3]);
    assert(r@ =~= method_id_of(location@.slot_key));
    r
}

/// A slot as a signal keeps it, as plain values.
pub struct SlotView {
    pub location: SlotLocationView,
    pub gas_limit: U256,
    pub gas_ratio_numerator: U256,
    pub gas_ratio_denominator: U256,
}

// Slot. Holds the information that the signal needs to maintain. Helps in the creation of
// construction of a Slot Transaction upon the emission of a signal. Although almost all
// information is derived from the SlotInfo, we need the address of the owner of the slot as
// well as a unique id to be provided. This id allows us to parse through the list of slots
// when we need to cleanup or delete entries.
#[derive(Debug, PartialEq, Eq, PartialOrd, Ord)]
pub struct Slot {
    // Address of contract that owns this slot.
    location: SlotLocation,
    // Gas limit for slot execution.
    gas_limit: U256,
    // Gas ratio for slot execution.
    gas_ratio_numerator: U256,
    gas_ratio_denominator: U256,
}

impl View for Slot {
    type V = SlotView;

    closed spec fn view(&self) -> SlotView {
        SlotView {
            location: self.location@,
            gas_limit: self.gas_limit,
            gas_ratio_numerator: self.gas_ratio_numerator,
            gas_ratio_denominator: self.gas_ratio_denominator,
        }
    }
}

impl Clone for Slot {
    fn clone(&self) -> (r: Self)
        ensures
            r@ == self@,
    {
        Slot {
            location: self.location.clone(),
            gas_limit: self.gas_limit,
            gas_ratio_numerator: self.gas_ratio_numerator,
            gas_ratio_denominator: self.gas_ratio_denominator,
        }
    }
}

impl Slot {
    // Create a new slot out of a SlotInfo.
    pub fn new(slot_info: &SlotInfo) -> (r: Self)
        ensures
            r@ == (SlotView {
                location: slot_info@.location,
                gas_limit: slot_info@.gas_limit,
                gas_ratio_numerator: slot_info@.gas_ratio_numerator,
                gas_ratio_denominator: slot_info@.gas_ratio_denominator,
            }),
    {
        Slot {
            location: slot_info.location.clone(),
            gas_limit: slot_info.gas_limit,
            gas_ratio_numerator: slot_info.gas_ratio_numerator,
            gas_ratio_denominator: slot_info.gas_ratio_denominator,
        }
    }

    // Getters.
    pub fn location(&self) -> (r: &SlotLocation)
        ensures
            r@ == self@.location,
    {
        &self.location
    }

    pub fn gas_limit(&self) -> (r: &U256)
        ensures
            *r == self@.gas_limit,
    {
        &self.gas_limit
    }

    pub fn gas_ratio_numerator(&self) -> (r: &U256)
        ensures
            *r == self@.gas_ratio_numerator,
    {
        &self.gas_ratio_numerator
    }

    pub fn gas_ratio_denominator(&self) -> (r: &U256)
        ensures
            *r == self@.gas_ratio_denominator,
    {
        &self.gas_ratio_denominator
    }

    // Returns the method id of the slot
    pub fn get_method_id(&self) -> (r: Bytes)
        requires
            self@.location.slot_key.len() >= 4,
        ensures
            r@ == method_id_of(self@.location.slot_key),
    {
        method_id(&self.location)
    }
}

/// Whether `slot` is the slot that `location` names: the owner and the key
/// decide, the contract does not.
pub open spec fn slot_is_at(slot: SlotView, location: SlotLocationView) -> bool {
    slot.location.address == location.address && slot.location.slot_key == location.slot_key
}

/// The views of the slots in a list.
pub open spec fn slot_views(slots: Seq<Slot>) -> Seq<SlotView> {
    slots.map_values(|slot: Slot| slot@)
}

/// What a signal's owner keeps of it, as plain values.
pub struct SignalInfoView {
    pub location: SignalLocationView,
    pub arg_count: U256,
    pub slot_list: Seq<SlotView>,
}

// SignalInfo. Holds the mapping of a signal to a list of slots that are subscribed to it. This info
// is used when a signal is emitted. The list of slots is modified accodingly when a slot binds to it.
#[derive(Debug, PartialEq, Eq, PartialOrd, Ord)]
pub struct SignalInfo {
    location: SignalLocation,
    arg_count: U256,
    slot_list: Vec<Slot>,
}

impl View for SignalInfo {
    type V = SignalInfoView;

    closed spec fn view(&self) -> SignalInfoView {
        SignalInfoView {
            location: self.location@,
            arg_count: self.arg_count,
            slot_list: slot_views(self.slot_list@),
        }
    }
}

impl SignalInfo {
    // Return a fresh SignalInfo.
    pub fn new(owner: &Address, signal_key: &[u8], arg_count: &U256) -> (r: Self)
        ensures
            r@ == (SignalInfoView {
                location: SignalLocationView { address: owner@, signal_key: signal_key@ },
                arg_count: *arg_count,
                slot_list: Seq::empty(),
            }),
    {
        let r = SignalInfo {
            location: SignalLocation::new(owner, signal_key),
            arg_count: *arg_count,
            slot_list: Vec::new(),
        };
        assert(r@.slot_list =~= Seq::empty());
        r
    }

    // Bind a slot to this signal.
    pub fn add_to_slot_list(&mut self, slot_info: &SlotInfo)
        ensures
            final(self)@ == (SignalInfoView {
                slot_list: old(self)@.slot_list.push(
                    SlotView {
                        location: slot_info@.location,
                        gas_limit: slot_info@.gas_limit,
                        gas_ratio_numerator: slot_info@.gas_ratio_numerator,
                        gas_ratio_denominator: slot_info@.gas_ratio_denominator,
                    },
                ),
                ..old(self)@
            }),
    {
        let slot = Slot::new(slot_info);
        self.slot_list.push(slot);
        assert(slot_views(self.slot_list@) =~= slot_views(old(self).slot_list@).push(slot@));
    }

    // Removes a slot given a location.
    pub fn remove_from_slot_list(&mut self, loc: &SlotLocation)
        requires
            forall|i: int|
                0 <= i < old(self)@.slot_list.len() - 1 ==> !slot_is_at(
                    #[trigger] old(self)@.slot_list[i],
                    loc@,
                ),
        ensures
            final(self)@ == (SignalInfoView {
                slot_list: if old(self)@.slot_list.len() > 0 && slot_is_at(
                    old(self)@.slot_list.last(),
                    loc@,
                ) {
                    old(self)@.slot_list.drop_last()
                } else {
                    old(self)@.slot_list
                },
                ..old(self)@
            }),
    {
        let n = self.slot_list.len();
        let mut i: usize = 0;
        while i < n
            invariant
                i <= n,
                n == old(self).slot_list@.len(),
                self.location == old(self).location,
                self.arg_count == old(self).arg_count,
                i < n || n == 0 ==> self.slot_list@ == old(self).slot_list@,
                i == n && n > 0 ==> slot_views(self.slot_list@) == (if slot_is_at(
                    old(self)@.slot_list.last(),
                    loc@,
                ) {
                    old(self)@.slot_list.drop_last()
                } else {
                    old(self)@.slot_list
                }),
                forall|k: int|
                    0 <= k < n - 1 ==> !slot_is_at(#[trigger] old(self)@.slot_list[k], loc@),
            decreases n - i,
        {
            let slot = &self.slot_list[i];
            assert(slot@ == old(self)@.slot_list[i as int]);
            if slot.location().address().equals(loc.address()) && bytes_equal(
                slot.location().slot_key().as_slice(),
                loc.slot_key().as_slice(),
            ) {
                assert(i == n - 1);
                self.slot_list.remove(i);
                assert(slot_views(self.slot_list@) =~= old(self)@.slot_list.drop_last());
            }
            i += 1;
        }
    }

    // Getters
    pub fn location(&self) -> (r: &SignalLocation)
        ensures
            r@ == self@.location,
    {
        &self.location
    }

    pub fn arg_count(&self) -> (r: &U256)
        ensures
            *r == self@.arg_count,
    {
        &self.arg_count
    }

    pub fn slot_list(&self) -> (r: &Vec<Slot>)
        ensures
            slot_views(r@) == self@.slot_list,
    {
        &self.slot_list
    }
}

/// Whether `signal` is the signal that `location` names.
pub open spec fn signal_is_at(signal: SignalLocationView, location: SignalLocationView) -> bool {
    signal.address == location.address && signal.signal_key == location.signal_key
}

/// The views of the signal locations in a list.
pub open spec fn signal_location_views(signals: Seq<SignalLocation>) -> Seq<SignalLocationView> {
    signals.map_values(|signal: SignalLocation| signal@)
}

/// What a slot's owner keeps of it, as plain values.
pub struct SlotInfoView {
    pub location: SlotLocationView,
    pub arg_count: U256,
    pub gas_limit: U256,
    pub gas_ratio_numerator: U256,
    pub gas_ratio_denominator: U256,
    pub bind_list: Seq<SignalLocationView>,
}

// SlotInfo. Holds the information that the owner of the slot needs maintain.
// Whereas Slot is maintained by the owner of the signal that we binded to,
// SlotInfo is owned by the owner contract who implements the handler. As a
// result a few things are different, most notably, we need to keep a list
// of the signals this slot is binded to.
#[derive(Debug, PartialEq, Eq, PartialOrd, Ord)]
pub struct SlotInfo {
    // Location on the network. Used to identify this slot uniquely.
    location: SlotLocation,
    // Number of arguments expected from a binded signal
    arg_count: U256,
    // Gas limit for slot execution.
    gas_limit: U256,
    // Gas ratio for slot execution.
    gas_ratio_numerator: U256,
    gas_ratio_denominator: U256,
    // List of keys to the signals that this slot is binded to.
    // This may not be neccessary for functionality, but might be
    // useful down the road when implementing automatic cleanup.
    bind_list: Vec<SignalLocation>,
}

impl View for SlotInfo {
    type V = SlotInfoView;

    closed spec fn view(&self) -> SlotInfoView {
        SlotInfoView {
            location: self.location@,
            arg_count: self.arg_count,
            gas_limit: self.gas_limit,
            gas_ratio_numerator: self.gas_ratio_numerator,
            gas_ratio_denominator: self.gas_ratio_denominator,
            bind_list: signal_location_views(self.bind_list@),
        }
    }
}

impl SlotInfo {
    // Create a new SlotInfo.
    pub fn new(
        owner: &Address,
        contract: &Address,
        slot_key: &[u8],
        arg_count: &U256,
        gas_limit: &U256,
        numerator: &U256,
        denominator: &U256,
    ) -> (r: Self)
        ensures
            r@ == (SlotInfoView {
                location: SlotLocationView {
                    address: owner@,
                    contract_address: contract@,
                    slot_key: slot_key@,
                },
                arg_count: *arg_count,
                gas_limit: *gas_limit,
                gas_ratio_numerator: *numerator,
                gas_ratio_denominator: *denominator,
                bind_list: Seq::empty(),
            }),
    {
        let loc = SlotLocation::new(owner, contract, slot_key);
        let r = SlotInfo {
            location: loc,
            arg_count: *arg_count,
            gas_limit: *gas_limit,
            gas_ratio_numerator: *numerator,
            gas_ratio_denominator: *denominator,
            bind_list: Vec::new(),
        };
        assert(r@.bind_list =~= Seq::empty());
        r
    }

    // Add a signal to the bind list.
    pub fn add_to_bind_list(&mut self, loc: &SignalLocation)
        ensures
            final(self)@ == (SlotInfoView {
                bind_list: old(self)@.bind_list.push(loc@),
                ..old(self)@
            }),
    {
        let loc = loc.clone();
        self.bind_list.push(loc);
        assert(signal_location_views(self.bind_list@) =~= signal_location_views(
            old(self).bind_list@,
        ).push(loc@));
    }

    // Remove a signal from the bind list.
    pub fn remove_from_bind_list(&mut self, loc: &SignalLocation)
        requires
            forall|i: int|
                0 <= i < old(self)@.bind_list.len() - 1 ==> !signal_is_at(
                    #[trigger] old(self)@.bind_list[i],
                    loc@,
                ),
        ensures
            final(self)@ == (SlotInfoView {
                bind_list: if old(self)@.bind_list.len() > 0 && signal_is_at(
                    old(self)@.bind_list.last(),
                    loc@,
                ) {
                    old(self)@.bind_list.drop_last()
                } else {
                    old(self)@.bind_list
                },
                ..old(self)@
            }),
    {
        let n = self.bind_list.len();
        let mut i: usize = 0;
        while i < n
            invariant
                i <= n,
                n == old(self).bind_list@.len(),
                self.location == old(self).location,
                self.arg_count == old(self).arg_count,
                self.gas_limit == old(self).gas_limit,
                self.gas_ratio_numerator == old(self).gas_ratio_numerator,
                self.gas_ratio_denominator == old(self).gas_ratio_denominator,
                i < n || n == 0 ==> self.bind_list@ == old(self).bind_list@,
                i == n && n > 0 ==> signal_location_views(self.bind_list@) == (if signal_is_at(
                    old(self)@.bind_list.last(),
                    loc@,
                ) {
                    old(self)@.bind_list.drop_last()
                } else {
                    old(self)@.bind_list
                }),
                forall|k: int|
                    0 <= k < n - 1 ==> !signal_is_at(#[trigger] old(self)@.bind_list[k], loc@),
            decreases n - i,
        {
            let sig = &self.bind_list[i];
            assert(sig@ == old(self)@.bind_list[i as int]);
            if sig.address().equals(loc.address()) && bytes_equal(
                sig.signal_key().as_slice(),
                loc.signal_key().as_slice(),
            ) {
                assert(i == n - 1);
                self.bind_list.remove(i);
                assert(signal_location_views(self.bind_list@) =~= old(self)@.bind_list.drop_last());
            }
            i += 1;
        }
    }

    // Getters
    pub fn location(&self) -> (r: &SlotLocation)
        ensures
            r@ == self@.location,
    {
        &self.location
    }

    pub fn arg_count(&self) -> (r: &U256)
        ensures
            *r == self@.arg_count,
    {
        &self.arg_count
    }

    pub fn gas_limit(&self) -> (r: &U256)
        ensures
            *r == self@.gas_limit,
    {
        &self.gas_limit
    }

    pub fn gas_ratio_numerator(&self) -> (r: &U256)
        ensures
            *r == self@.gas_ratio_numerator,
    {
        &self.gas_ratio_numerator
    }

    pub fn gas_ratio_denominator(&self) -> (r: &U256)
        ensures
            *r == self@.gas_ratio_denominator,
    {
        &self.gas_ratio_denominator
    }

    pub fn bind_list(&self) -> (r: &Vec<SignalLocation>)
        ensures
            signal_location_views(r@) == self@.bind_list,
    {
        &self.bind_list
    }
}

/// A slot transaction, as plain values.
pub struct SlotTxView {
    pub location: SlotLocationView,
    pub gas_limit: U256,
    pub gas_ratio_numerator: U256,
    pub gas_ratio_denominator: U256,
    pub epoch_height: u64,
    pub argv: Seq<u8>,
    pub is_fix: bool,
    pub data_length: Seq<u8>,
    pub gas_price: U256,
    pub gas_upfront: U256,
}

/// The call data of a slot transaction: the method id, then the arguments
/// as they are where they have a fixed size; else an offset word of 64, the
/// length and the arguments.
pub open spec fn encoding_of(tx: SlotTxView) -> Seq<u8> {
    let id = method_id_of(tx.location.slot_key);
    if tx.is_fix {
        id + tx.argv
    } else {
        id + Seq::new(31, |i: int| 0u8).push(64u8) + tx.data_length + tx.argv
    }
}

// SlotTx. Transactions that execute a slot. It holds a slot as well as the block number for execution and
// the a vector of arguments passed in by the signal.
#[derive(Debug, PartialEq, Eq, PartialOrd, Ord)]
pub struct SlotTx {
    // Address of contract that owns this slot.
    location: SlotLocation,
    // Gas limit for slot execution.
    gas_limit: U256,
    // Gas ratio for slot execution.
    gas_ratio_numerator: U256,
    gas_ratio_denominator: U256,
    // Block number of when this transaction becomes available for execution.
    epoch_height: u64,
    // Vector of arguments emitted by the signal.
    argv: Bytes,
    //check data is fix or dynamic for abi encoding
    is_fix: bool,
    //the length of the data if dynamic
    data_length: Vec<u8>,
    // Gas price. Determined during packing.
    gas_price: U256,
    // Gas upfront cost.
    gas_upfront: U256,
}

impl View for SlotTx {
    type V = SlotTxView;

    closed spec fn view(&self) -> SlotTxView {
        SlotTxView {
            location: self.location@,
            gas_limit: self.gas_limit,
            gas_ratio_numerator: self.gas_ratio_numerator,
            gas_ratio_denominator: self.gas_ratio_denominator,
            epoch_height: self.epoch_height,
            argv: self.argv@,
            is_fix: self.is_fix,
            data_length: self.data_length@,
            gas_price: self.gas_price,
            gas_upfront: self.gas_upfront,
        }
    }
}

impl Clone for SlotTx {
    fn clone(&self) -> (r: Self)
        ensures
            r@ == self@,
    {
        SlotTx {
            location: self.location.clone(),
            gas_limit: self.gas_limit,
            gas_ratio_numerator: self.gas_ratio_numerator,
            gas_ratio_denominator: self.gas_ratio_denominator,
            epoch_height: self.epoch_height,
            argv: copy_bytes(self.argv.as_slice()),
            is_fix: self.is_fix,
            data_length: copy_bytes(self.data_length.as_slice()),
            gas_price: self.gas_price,
            gas_upfront: self.gas_upfront,
        }
    }
}

impl SlotTx {
    pub fn new(
        slot: &Slot,
        epoch_height: &u64,
        argv: &Bytes,
        is_fix: bool,
        data_length: &Vec<u8>,
    ) -> (r: Self)
        ensures
            r@ == (SlotTxView {
                location: slot@.location,
                gas_limit: slot@.gas_limit,
                gas_ratio_numerator: slot@.gas_ratio_numerator,
                gas_ratio_denominator: slot@.gas_ratio_denominator,
                epoch_height: *epoch_height,
                argv: argv@,
                is_fix,
                data_length: data_length@,
                gas_price: U256 { w3: 0, w2: 0, w1: 0, w0: 0 },
                gas_upfront: U256 { w3: 0, w2: 0, w1: 0, w0: 0 },
            }),
    {
        SlotTx {
            location: slot.location().clone(),
            gas_limit: slot.gas_limit,
            gas_ratio_numerator: *slot.gas_ratio_numerator(),
            gas_ratio_denominator: slot.gas_ratio_denominator,
            epoch_height: *epoch_height,
            argv: copy_bytes(argv.as_slice()),
            is_fix,
            data_length: copy_bytes(data_length.as_slice()),
            // Gas price is set when packed in the transaction pool.
            gas_price: U256::zero(),
            gas_upfront: U256::zero(),
        }
    }

    /// A transaction as it was packed: that of `slot` with the gas price and
    /// the upfront cost that were set on it.
    pub fn packed(
        slot: &Slot,
        epoch_height: &u64,
        argv: &Bytes,
        is_fix: bool,
        data_length: &Vec<u8>,
        gas_price: U256,
        gas_upfront: U256,
    ) -> (r: Self)
        ensures
            r@ == (SlotTxView {
                location: slot@.location,
                gas_limit: slot@.gas_limit,
                gas_ratio_numerator: slot@.gas_ratio_numerator,
                gas_ratio_denominator: slot@.gas_ratio_denominator,
                epoch_height: *epoch_height,
                argv: argv@,
                is_fix,
                data_length: data_length@,
                gas_price,
                gas_upfront,
            }),
    {
        let mut tx = SlotTx::new(slot, epoch_height, argv, is_fix, data_length);
        tx.gas_price = gas_price;
        tx.gas_upfront = gas_upfront;
        tx
    }

    // Getters
    pub fn location(&self) -> (r: &SlotLocation)
        ensures
            r@ == self@.location,
    {
        &self.location
    }

    pub fn address(&self) -> (r: &Address)
        ensures
            r@ == self@.location.address,
    {
        self.location.address()
    }

    pub fn contract_address(&self) -> (r: &Address)
        ensures
            r@ == self@.location.contract_address,
    {
        self.location.contract_address()
    }

    pub fn slot_key(&self) -> (r: &Bytes)
        ensures
            r@ == self@.location.slot_key,
    {
        self.location.slot_key()
    }

    pub fn gas_limit(&self) -> (r: &U256)
        ensures
            *r == self@.gas_limit,
    {
        &self.gas_limit
    }

    pub fn gas_ratio_numerator(&self) -> (r: &U256)
        ensures
            *r == self@.gas_ratio_numerator,
    {
        &self.gas_ratio_numerator
    }

    pub fn gas_ratio_denominator(&self) -> (r: &U256)
        ensures
            *r == self@.gas_ratio_denominator,
    {
        &self.gas_ratio_denominator
    }

    pub fn epoch_height(&self) -> (r: u64)
        ensures
            r == self@.epoch_height,
    {
        self.epoch_height
    }

    pub fn argv(&self) -> (r: Bytes)
        ensures
            r@ == self@.argv,
    {
        copy_bytes(self.argv.as_slice())
    }

    pub fn gas_price(&self) -> (r: &U256)
        ensures
            *r == self@.gas_price,
    {
        &self.gas_price
    }

    pub fn is_fix(&self) -> (r: bool)
        ensures
            r == self@.is_fix,
    {
        self.is_fix
    }

    pub fn data_length(&self) -> (r: &Vec<u8>)
        ensures
            r@ == self@.data_length,
    {
        &self.data_length
    }

    pub fn gas_upfront(&self) -> (r: &U256)
        ensures
            *r == self@.gas_upfront,
    {
        &self.gas_upfront
    }

    pub fn is_duplicated(&self, tx: &SlotTx) -> (r: bool)
        ensures
            r == (self@.location == tx@.location && self@.argv == tx@.argv && self@.epoch_height
                == tx@.epoch_height),
    {
        self.location.equals(tx.location()) && bytes_equal(
            self.argv.as_slice(),
            tx.argv.as_slice(),
        ) && self.epoch_height == tx.epoch_height()
    }

    // Functions for ABI purposes. This becomes important when calling slot code.
    // The standard ABI protocol involves having each function assigned a method id.
    // To call a function, the 4 byte method ID is prepended to the argument/data vector.
    pub fn get_method_id(&self) -> (r: Bytes)
        requires
            self@.location.slot_key.len() >= 4,
        ensures
            r@ == method_id_of(self@.location.slot_key),
    {
        method_id(&self.location)
    }

    // The arguments are expected to be padded already: only whether they
    // have a fixed or a dynamic size matters here.
    pub fn encode(&self) -> (r: Bytes)
        requires
            self@.location.slot_key.len() >= 4,
        ensures
            r@ == encoding_of(self@),
    {
        let mut ret = self.get_method_id();
        if self.is_fix {
            append_bytes(&mut ret, self.argv.as_slice());
        } else {
            let mut off_part: Vec<u8> = Vec::new();
            let mut i: usize = 0;
            while i < 31
                invariant
                    i <= 31,
                    off_part@ == Seq::new(i as nat, |k: int| 0u8),
                decreases 31 - i,
            {
                off_part.push(0u8);
                assert(off_part@ =~= Seq::new((i + 1) as nat, |k: int| 0u8));
                i += 1;
            }
            off_part.push(64);
            append_bytes(&mut ret, off_part.as_slice());
            append_bytes(&mut ret, self.data_length.as_slice());
            append_bytes(&mut ret, self.argv.as_slice());
        }
        ret
    }

    // The two functions below are called in the tx pool, when these transactions are getting packed.
    // Calculate gas price.
    pub fn calculate_and_set_gas_price(&mut self, average_gas_price: &U256)
        requires
            average_gas_price@ * old(self)@.gas_ratio_numerator@ <= u256_max(),
            old(self)@.gas_ratio_denominator@ != 0,
        ensures
            final(self)@.gas_price@ == average_gas_price@ * old(self)@.gas_ratio_numerator@
                / old(self)@.gas_ratio_denominator@,
            final(self)@ == (SlotTxView { gas_price: final(self)@.gas_price, ..old(self)@ }),
    {
        let scaled = u256_mul(average_gas_price, &self.gas_ratio_numerator);
        self.gas_price = u256_div_mod(&scaled, &self.gas_ratio_denominator).0;
    }

    // Calculate gas upfront cost.
    pub fn set_gas_upfront(&mut self, gas_upfront: U256)
        ensures
            final(self)@ == (SlotTxView { gas_upfront, ..old(self)@ }),
    {
        self.gas_upfront = gas_upfront;
    }
}

} // verus!
