//! 256-bit digests, 160-bit addresses and the Keccak-256 primitive.

use vstd::prelude::*;
use crate::bytes::be_value;
use crate::uint::U256;

verus! {

/// A 32-byte digest, most significant byte first when read as a number.
#[derive(Clone, Copy, Debug, PartialEq, Eq, PartialOrd, Ord, Hash)]
pub struct H256(pub [u8; 32]);

impl View for H256 {
    type V = Seq<u8>;

    open spec fn view(&self) -> Seq<u8> {
        self.0@
    }
}

/// The Keccak-256 digest of `data`.
pub uninterp spec fn keccak256(data: Seq<u8>) -> Seq<u8>;

/// `keccak_hash::keccak`: the Keccak-256 digest of the bytes given.
#[verifier::external_body]
pub(crate) fn keccak(data: &[u8]) -> (r: H256)
    ensures
        r@ == keccak256(data@),
{
    H256(keccak_hash::keccak(data).0)
}

/// `cfx_types::BigEndianHash::into_uint` for `H256`: the number that the
/// digest's bytes spell, most significant byte first.
#[verifier::external_body]
pub(crate) fn h256_into_uint(hash: &H256) -> (r: U256)
    ensures
        r@ == be_value(hash@),
{
    let v = cfx_types::BigEndianHash::into_uint(&cfx_types::H256(hash.0));
    U256 { w0: v.0[0], w1: v.0[1], w2: v.0[2], w3: v.0[3] }
}

impl H256 {
    /// The digest whose bytes are all zero.
    pub fn zero() -> (r: H256)
        ensures
            r@ == Seq::new(32, |i: int| 0u8),
    {
        let r = H256([0u8; 32]);
        assert(r@ =~= Seq::new(32, |i: int| 0u8));
        r
    }

    /// Whether two digests hold the same bytes.
    pub fn equals(&self, other: &H256) -> (r: bool)
        ensures
            r == (self@ == other@),
    {
        let mut i: usize = 0;
        while i < 32
            invariant
                i <= 32,
                forall|j: int| 0 <= j < i ==> self@[j] == other@[j],
            decreases 32 - i,
        {
            if self.0[i] != other.0[i] {
                return false;
            }
            i += 1;
        }
        assert(self@ =~= other@);
        true
    }
}

/// A 20-byte account address.
#[derive(Clone, Copy, Debug, PartialEq, Eq, PartialOrd, Ord, Hash)]
pub struct Address(pub [u8; 20]);

impl View for Address {
    type V = Seq<u8>;

    open spec fn view(&self) -> Seq<u8> {
        self.0@
    }
}

impl Address {
    /// Whether two addresses hold the same bytes.
    pub fn equals(&self, other: &Address) -> (r: bool)
        ensures
            r == (self@ == other@),
    {
        let mut i: usize = 0;
        while i < 20
            invariant
                i <= 20,
                forall|j: int| 0 <= j < i ==> self@[j] == other@[j],
            decreases 20 - i,
        {
            if self.0[i] != other.0[i] {
                return false;
            }
            i += 1;
        }
        assert(self@ =~= other@);
        true
    }
}

} // verus!
