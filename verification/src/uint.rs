//! Fixed-width unsigned integers of 256 and 512 bits.
//!
//! A value is held in 64-bit words and is viewed as the natural number that
//! those words spell. Word-level operations are verified here; full-width
//! arithmetic is done by `cfx_types`.

use vstd::prelude::*;
use crate::bytes::{be_value, le_bytes};

verus! {

/// The weight of the second word: 2^64.
pub open spec fn word1() -> nat {
    0x1_0000_0000_0000_0000nat
}

/// The weight of the third word: 2^128.
pub open spec fn word2() -> nat {
    0x1_0000_0000_0000_0000_0000_0000_0000_0000nat
}

/// The weight of the fourth word: 2^192.
pub open spec fn word3() -> nat {
    0x1_0000_0000_0000_0000_0000_0000_0000_0000_0000_0000_0000_0000nat
}

/// 2^256, one more than the largest `U256`.
pub open spec fn pow2_256() -> nat {
    0x1_0000_0000_0000_0000_0000_0000_0000_0000_0000_0000_0000_0000_0000_0000_0000_0000nat
}

/// The largest value a `U256` holds: 2^256 - 1.
pub open spec fn u256_max() -> nat {
    0xffff_ffff_ffff_ffff_ffff_ffff_ffff_ffff_ffff_ffff_ffff_ffff_ffff_ffff_ffff_ffffnat
}

/// 256-bit unsigned integer in four words, `w0` the least significant. The
/// words are declared from the most significant down, so that the derived
/// order is the order of the values.
#[derive(Clone, Copy, Debug, PartialEq, Eq, Structural, PartialOrd, Ord, Hash)]
pub struct U256 {
    pub w3: u64,
    pub w2: u64,
    pub w1: u64,
    pub w0: u64,
}

impl View for U256 {
    type V = nat;

    open spec fn view(&self) -> nat {
        (self.w0 + self.w1 * word1() + self.w2 * word2() + self.w3 * word3()) as nat
    }
}

impl U256 {
    /// Every value lies below 2^256.
    pub proof fn lemma_bounded(self)
        ensures
            self@ <= u256_max(),
            self@ < pow2_256(),
    {
    }

    /// Two values with the same view have the same words.
    pub proof fn lemma_view_injective(self, other: U256)
        requires
            self@ == other@,
        ensures
            self == other,
    {
        let a = self.w0 + self.w1 * word1();
        let b = other.w0 + other.w1 * word1();
        assert(a < word2() && b < word2());
        assert(a + self.w2 * word2() < word3() && b + other.w2 * word2() < word3());
        assert(self.w3 == other.w3);
        assert(self.w2 == other.w2);
        assert(self.w1 == other.w1);
    }

    pub fn zero() -> (r: U256)
        ensures
            r@ == 0,
    {
        U256 { w0: 0, w1: 0, w2: 0, w3: 0 }
    }

    pub fn one() -> (r: U256)
        ensures
            r@ == 1,
    {
        U256 { w0: 1, w1: 0, w2: 0, w3: 0 }
    }

    pub fn max_value() -> (r: U256)
        ensures
            r@ == u256_max(),
    {
        U256 { w0: u64::MAX, w1: u64::MAX, w2: u64::MAX, w3: u64::MAX }
    }

    pub fn from_u64(value: u64) -> (r: U256)
        ensures
            r@ == value,
    {
        U256 { w0: value, w1: 0, w2: 0, w3: 0 }
    }

    pub fn is_zero(&self) -> (r: bool)
        ensures
            r == (self@ == 0),
    {
        self.w0 == 0 && self.w1 == 0 && self.w2 == 0 && self.w3 == 0
    }

    /// Strict order of the values.
    pub fn lt(&self, other: &U256) -> (r: bool)
        ensures
            r == (self@ < other@),
    {
        if self.w3 != other.w3 {
            self.w3 < other.w3
        } else if self.w2 != other.w2 {
            self.w2 < other.w2
        } else if self.w1 != other.w1 {
            self.w1 < other.w1
        } else {
            self.w0 < other.w0
        }
    }
}

/// `cfx_types::U256::to_big_endian` on a 32-byte buffer: the bytes written
/// spell the value, most significant byte first.
#[verifier::external_body]
pub(crate) fn u256_to_big_endian(x: &U256) -> (bytes: [u8; 32])
    ensures
        be_value(bytes@) == x@,
{
    let mut bytes = [0u8; 32];
    cfx_types::U256([x.w0, x.w1, x.w2, x.w3]).to_big_endian(&mut bytes[..]);
    bytes
}

/// `cfx_types::U256::to_little_endian` on a 32-byte buffer: the bytes
/// written are the value's 32 bytes, least significant byte first.
#[verifier::external_body]
pub(crate) fn u256_to_little_endian(x: &U256) -> (bytes: [u8; 32])
    ensures
        bytes@ == le_bytes(x@, 32),
{
    let mut bytes = [0u8; 32];
    cfx_types::U256([x.w0, x.w1, x.w2, x.w3]).to_little_endian(&mut bytes[..]);
    bytes
}

/// `cfx_types::U256::from` on a 32-byte array: the value that the bytes
/// spell, most significant byte first.
#[verifier::external_body]
pub(crate) fn u256_from_big_endian(bytes: [u8; 32]) -> (r: U256)
    ensures
        r@ == be_value(bytes@),
{
    let v = cfx_types::U256::from(bytes);
    U256 { w0: v.0[0], w1: v.0[1], w2: v.0[2], w3: v.0[3] }
}

/// `+` of `cfx_types::U256`: the sum. The operator panics when the sum leaves
/// 256 bits, which the precondition rules out.
#[verifier::external_body]
pub(crate) fn u256_add(a: &U256, b: &U256) -> (r: U256)
    requires
        a@ + b@ <= u256_max(),
    ensures
        r@ == a@ + b@,
{
    let v = cfx_types::U256([a.w0, a.w1, a.w2, a.w3]) + cfx_types::U256([b.w0, b.w1, b.w2, b.w3]);
    U256 { w0: v.0[0], w1: v.0[1], w2: v.0[2], w3: v.0[3] }
}

/// `-` of `cfx_types::U256`: the difference. The operator panics when the
/// difference is negative, which the precondition rules out.
#[verifier::external_body]
pub(crate) fn u256_sub(a: &U256, b: &U256) -> (r: U256)
    requires
        b@ <= a@,
    ensures
        r@ == a@ - b@,
{
    let v = cfx_types::U256([a.w0, a.w1, a.w2, a.w3]) - cfx_types::U256([b.w0, b.w1, b.w2, b.w3]);
    U256 { w0: v.0[0], w1: v.0[1], w2: v.0[2], w3: v.0[3] }
}

/// `*` of `cfx_types::U256`: the product. The operator panics when the
/// product leaves 256 bits, which the precondition rules out.
#[verifier::external_body]
pub(crate) fn u256_mul(a: &U256, b: &U256) -> (r: U256)
    requires
        a@ * b@ <= u256_max(),
    ensures
        r@ == a@ * b@,
{
    let v = cfx_types::U256([a.w0, a.w1, a.w2, a.w3]) * cfx_types::U256([b.w0, b.w1, b.w2, b.w3]);
    U256 { w0: v.0[0], w1: v.0[1], w2: v.0[2], w3: v.0[3] }
}

/// `cfx_types::U256::overflowing_sub`: the difference modulo 2^256, and
/// whether the subtraction wrapped.
#[verifier::external_body]
pub(crate) fn u256_overflowing_sub(a: &U256, b: &U256) -> (r: (U256, bool))
    ensures
        r.0@ == wrapping_sub_256(a@, b@),
        r.1 == (a@ < b@),
{
    let x = cfx_types::U256([a.w0, a.w1, a.w2, a.w3]);
    let (v, wrapped) = x.overflowing_sub(cfx_types::U256([b.w0, b.w1, b.w2, b.w3]));
    (U256 { w0: v.0[0], w1: v.0[1], w2: v.0[2], w3: v.0[3] }, wrapped)
}

/// `cfx_types::U256::div_mod`: quotient and remainder. The method panics on
/// a zero divisor, which the precondition rules out.
#[verifier::external_body]
pub(crate) fn u256_div_mod(a: &U256, b: &U256) -> (r: (U256, U256))
    requires
        b@ != 0,
    ensures
        r.0@ == a@ / b@,
        r.1@ == a@ % b@,
{
    let x = cfx_types::U256([a.w0, a.w1, a.w2, a.w3]);
    let (q, m) = x.div_mod(cfx_types::U256([b.w0, b.w1, b.w2, b.w3]));
    (
        U256 { w0: q.0[0], w1: q.0[1], w2: q.0[2], w3: q.0[3] },
        U256 { w0: m.0[0], w1: m.0[1], w2: m.0[2], w3: m.0[3] },
    )
}

/// `a - b` modulo 2^256.
pub open spec fn wrapping_sub_256(a: nat, b: nat) -> nat {
    if a >= b {
        (a - b) as nat
    } else {
        (a + pow2_256() - b) as nat
    }
}


/// The weight of the fifth word: 2^256.
pub open spec fn word4() -> nat {
    0x1_0000_0000_0000_0000_0000_0000_0000_0000_0000_0000_0000_0000_0000_0000_0000_0000nat
}

/// The weight of the sixth word: 2^320.
pub open spec fn word5() -> nat {
    0x1_0000_0000_0000_0000_0000_0000_0000_0000_0000_0000_0000_0000_0000_0000_0000_0000_0000_0000_0000_0000nat
}

/// The weight of the seventh word: 2^384.
pub open spec fn word6() -> nat {
    0x1_0000_0000_0000_0000_0000_0000_0000_0000_0000_0000_0000_0000_0000_0000_0000_0000_0000_0000_0000_0000_0000_0000_0000_0000nat
}

/// The weight of the eighth word: 2^448.
pub open spec fn word7() -> nat {
    0x1_0000_0000_0000_0000_0000_0000_0000_0000_0000_0000_0000_0000_0000_0000_0000_0000_0000_0000_0000_0000_0000_0000_0000_0000_0000_0000_0000_0000nat
}

/// 2^512, one more than the largest `U512`.
pub open spec fn pow2_512() -> nat {
    0x1_0000_0000_0000_0000_0000_0000_0000_0000_0000_0000_0000_0000_0000_0000_0000_0000_0000_0000_0000_0000_0000_0000_0000_0000_0000_0000_0000_0000_0000_0000_0000_0000nat
}

/// 512-bit unsigned integer, as eight words from the least significant up.
#[derive(Clone, Copy, Debug, PartialEq, Eq, Structural, Hash)]
pub struct U512 {
    pub w0: u64,
    pub w1: u64,
    pub w2: u64,
    pub w3: u64,
    pub w4: u64,
    pub w5: u64,
    pub w6: u64,
    pub w7: u64,
}

impl View for U512 {
    type V = nat;

    open spec fn view(&self) -> nat {
        (self.w0 + self.w1 * word1() + self.w2 * word2() + self.w3 * word3() + self.w4 * word4()
            + self.w5 * word5() + self.w6 * word6() + self.w7 * word7()) as nat
    }
}

impl U512 {
    /// Widen a 256-bit value.
    pub fn from_u256(value: &U256) -> (r: U512)
        ensures
            r@ == value@,
    {
        U512 {
            w0: value.w0,
            w1: value.w1,
            w2: value.w2,
            w3: value.w3,
            w4: 0,
            w5: 0,
            w6: 0,
            w7: 0,
        }
    }

    pub fn from_u64(value: u64) -> (r: U512)
        ensures
            r@ == value,
    {
        U512 { w0: value, w1: 0, w2: 0, w3: 0, w4: 0, w5: 0, w6: 0, w7: 0 }
    }

    pub fn is_zero(&self) -> (r: bool)
        ensures
            r == (self@ == 0),
    {
        self.w0 == 0 && self.w1 == 0 && self.w2 == 0 && self.w3 == 0 && self.w4 == 0 && self.w5
            == 0 && self.w6 == 0 && self.w7 == 0
    }

    /// Narrow to 256 bits, where the value fits.
    pub fn to_u256(&self) -> (r: Option<U256>)
        ensures
            match r {
                Some(v) => v@ == self@,
                None => self@ > u256_max(),
            },
    {
        if self.w4 == 0 && self.w5 == 0 && self.w6 == 0 && self.w7 == 0 {
            Some(U256 { w0: self.w0, w1: self.w1, w2: self.w2, w3: self.w3 })
        } else {
            None
        }
    }
}

/// `*` of `cfx_types::U512`: the product. The operator panics when the
/// product leaves 512 bits, which the precondition rules out.
#[verifier::external_body]
pub(crate) fn u512_mul(a: &U512, b: &U512) -> (r: U512)
    requires
        a@ * b@ < pow2_512(),
    ensures
        r@ == a@ * b@,
{
    let x = cfx_types::U512([a.w0, a.w1, a.w2, a.w3, a.w4, a.w5, a.w6, a.w7]);
    let v = x * cfx_types::U512([b.w0, b.w1, b.w2, b.w3, b.w4, b.w5, b.w6, b.w7]);
    U512 {
        w0: v.0[0],
        w1: v.0[1],
        w2: v.0[2],
        w3: v.0[3],
        w4: v.0[4],
        w5: v.0[5],
        w6: v.0[6],
        w7: v.0[7],
    }
}

/// `/` of `cfx_types::U512`: the quotient, rounded down. The operator panics
/// on a zero divisor, which the precondition rules out.
#[verifier::external_body]
pub(crate) fn u512_div(a: &U512, b: &U512) -> (r: U512)
    requires
        b@ != 0,
    ensures
        r@ == a@ / b@,
{
    let x = cfx_types::U512([a.w0, a.w1, a.w2, a.w3, a.w4, a.w5, a.w6, a.w7]);
    let v = x / cfx_types::U512([b.w0, b.w1, b.w2, b.w3, b.w4, b.w5, b.w6, b.w7]);
    U512 {
        w0: v.0[0],
        w1: v.0[1],
        w2: v.0[2],
        w3: v.0[3],
        w4: v.0[4],
        w5: v.0[5],
        w6: v.0[6],
        w7: v.0[7],
    }
}

} // verus!
