//! Proof-of-work problems and solutions: the conversion between difficulty
//! and boundary, the nonce-derived lower bound, the two-round work hash and
//! the acceptance test.

use vstd::prelude::*;
use vstd::arithmetic::div_mod::{
    lemma_fundamental_div_mod, lemma_fundamental_div_mod_converse, lemma_mod_bound,
};
use crate::bytes::{
    be_value, le_bytes, lemma_be_value_bound, lemma_be_value_single, lemma_be_value_split,
    lemma_be_value_zeros, lemma_pow256_values, pow256,
};
use crate::hash::{H256, h256_into_uint, keccak, keccak256};
use crate::uint::{
    U256, pow2_256, u256_add, u256_div_mod, u256_from_big_endian, u256_max,
    u256_overflowing_sub, u256_to_big_endian, u256_to_little_endian, word2, word3,
    wrapping_sub_256,
};

verus! {

/// Boundary of a difficulty, and difficulty of a boundary: `2^256 / x`
/// rounded down, except that `1` maps to the largest 256-bit value.
pub open spec fn reciprocal(x: nat) -> nat {
    if x == 1 {
        u256_max()
    } else {
        pow2_256() / x
    }
}

/// A difficulty has a boundary of at least one, and a boundary a difficulty
/// of at least one: neither is ever zero.
pub proof fn lemma_reciprocal_positive(x: nat)
    requires
        1 <= x <= u256_max(),
    ensures
        1 <= reciprocal(x) <= u256_max(),
{
    if x != 1 {
        let n = pow2_256() as int;
        let d = x as int;
        lemma_fundamental_div_mod(n, d);
        lemma_mod_bound(n, d);
        assert(n / d >= 1) by (nonlinear_arith)
            requires
                n == d * (n / d) + n % d,
                0 <= n % d < d,
                d < n,
        ;
        assert(2 * (n / d) <= n) by (nonlinear_arith)
            requires
                n == d * (n / d) + n % d,
                0 <= n % d,
                d >= 2,
                n / d >= 1,
        ;
    }
}

/// Compute [2^256 / x], where x >= 2 and x < 2^256.
pub fn compute_inv_x_times_2_pow_256_floor(x: &U256) -> (r: U256)
    requires
        x@ >= 2,
    ensures
        r@ == pow2_256() / x@,
{
    let max = U256::max_value();
    let (div, modular) = u256_div_mod(&max, x);
    let one = U256::one();
    proof {
        x.lemma_bounded();
        lemma_fundamental_div_mod(u256_max() as int, x@ as int);
        lemma_mod_bound(u256_max() as int, x@ as int);
    }
    let bumped = u256_add(&modular, &one);
    if bumped == *x {
        proof {
            let q = div@ as int;
            let d = x@ as int;
            assert((q + 1) * d + 0 == d * q + d) by (nonlinear_arith);
            lemma_fundamental_div_mod_converse(pow2_256() as int, d, q + 1, 0);
            assert(2 * q <= d * q) by (nonlinear_arith)
                requires
                    d >= 2,
                    q >= 0,
            ;
        }
        u256_add(&div, &one)
    } else {
        proof {
            let q = div@ as int;
            let d = x@ as int;
            if bumped@ == x@ {
                bumped.lemma_view_injective(*x);
            }
            assert(q * d == d * q) by (nonlinear_arith);
            lemma_fundamental_div_mod_converse(pow2_256() as int, d, q, modular@ as int + 1);
        }
        div
    }
}

/// Convert boundary to the difficulty it stands for. Basically just
/// `f(x) = 2^256 / x`.
pub fn boundary_to_difficulty(boundary: &U256) -> (r: U256)
    requires
        boundary@ != 0,
    ensures
        r@ == reciprocal(boundary@),
{
    if *boundary == U256::one() {
        U256::max_value()
    } else {
        compute_inv_x_times_2_pow_256_floor(boundary)
    }
}

/// Convert difficulty to the target boundary. Basically just `f(x) = 2^256 /
/// x`.
pub fn difficulty_to_boundary(difficulty: &U256) -> (r: U256)
    requires
        difficulty@ != 0,
    ensures
        r@ == reciprocal(difficulty@),
{
    if *difficulty == U256::one() {
        ProofOfWorkProblem::no_boundary()
    } else {
        compute_inv_x_times_2_pow_256_floor(difficulty)
    }
}


/// 2^127: the weight of the bit that the lower bound leaves clear.
pub open spec fn pow2_127() -> nat {
    0x8000_0000_0000_0000_0000_0000_0000_0000nat
}

/// The lower bound that a nonce enforces: its top 128 bits without the
/// highest one, the low 128 bits cleared.
pub open spec fn lower_bound_of(nonce: nat) -> nat {
    ((nonce / word2()) % pow2_127()) * word2()
}

/// Clearing the top bit and the low sixteen bytes of a 32-byte big-endian
/// number yields the lower bound of that number.
proof fn lemma_masked_bytes_value(s: Seq<u8>, t: Seq<u8>)
    requires
        s.len() == 32,
        t.len() == 32,
        t[0] == s[0] % 128,
        forall|i: int| 1 <= i < 16 ==> t[i] == s[i],
        forall|i: int| 16 <= i < 32 ==> t[i] == 0,
    ensures
        be_value(t) == lower_bound_of(be_value(s)),
{
    lemma_pow256_values();
    let weight15 = pow256(15) as int;
    let weight16 = pow256(16) as int;
    let s_hi = s.subrange(0, 16);
    let t_hi = t.subrange(0, 16);
    let low_s = be_value(s.subrange(16, 32)) as int;
    let hs = be_value(s_hi) as int;
    let ht = be_value(t_hi) as int;

    lemma_be_value_split(s, 16);
    lemma_be_value_split(t, 16);
    lemma_be_value_bound(s.subrange(16, 32));
    lemma_be_value_zeros(t.subrange(16, 32));
    assert(be_value(s) == hs * weight16 + low_s);
    assert(be_value(t) == ht * weight16);

    lemma_be_value_split(s_hi, 1);
    lemma_be_value_split(t_hi, 1);
    lemma_be_value_single(s_hi.subrange(0, 1));
    lemma_be_value_single(t_hi.subrange(0, 1));
    assert(t_hi.subrange(1, 16) =~= s_hi.subrange(1, 16));
    let rest = be_value(s_hi.subrange(1, 16)) as int;
    lemma_be_value_bound(s_hi.subrange(1, 16));
    assert(rest < weight15);
    let top = s[0] as int;
    assert(hs == top * weight15 + rest);
    assert(ht == (top % 128) * weight15 + rest);

    lemma_fundamental_div_mod_converse(be_value(s) as int, weight16, hs, low_s);
    assert(be_value(s) / word2() == hs);

    assert(top == 128 * (top / 128) + top % 128);
    assert(hs == (top / 128) * (128 * weight15) + ht) by (nonlinear_arith)
        requires
            hs == top * weight15 + rest,
            ht == (top % 128) * weight15 + rest,
            top == 128 * (top / 128) + top % 128,
    ;
    assert(ht < 128 * weight15) by (nonlinear_arith)
        requires
            ht == (top % 128) * weight15 + rest,
            0 <= top % 128 <= 127,
            0 <= rest < weight15,
    ;
    assert(0 <= ht) by (nonlinear_arith)
        requires
            ht == (top % 128) * weight15 + rest,
            0 <= top % 128,
            0 <= rest,
            0 <= weight15,
    ;
    lemma_fundamental_div_mod_converse(hs, pow2_127() as int, top / 128, ht);
}

// We will use the top 128 bits (excluding the highest bit) to be the lower
// bound of our PoW. The rationale is to provide a solution for block
// withholding attack among mining pools.
pub fn nonce_to_lower_bound(nonce: &U256) -> (r: U256)
    ensures
        r@ == lower_bound_of(nonce@),
{
    let mut buf = u256_to_big_endian(nonce);
    let ghost written = buf@;
    let mut i: usize = 16;
    while i < 32
        invariant
            16 <= i <= 32,
            buf@.len() == 32,
            forall|j: int| 0 <= j < 16 ==> buf@[j] == written[j],
            forall|j: int| 16 <= j < i ==> buf@[j] == 0,
        decreases 32 - i,
    {
        buf[i] = 0;
        i += 1;
    }
    let top = buf[0];
    buf[0] = top & 0x7f;
    proof {
        assert(top & 0x7f == top % 128) by (bit_vector);
        lemma_masked_bytes_value(written, buf@);
    }
    // Note that the conversion reads the bytes most significant first.
    u256_from_big_endian(buf)
}


/// A lower bound has its low 128 bits and its highest bit clear, whatever
/// the nonce.
pub proof fn lemma_lower_bound_shape(nonce: nat)
    ensures
        lower_bound_of(nonce) % word2() == 0,
        lower_bound_of(nonce) < pow2_127() * word2(),
        pow2_127() * word2() == pow2_256() / 2,
{
    let top = ((nonce / word2()) % pow2_127()) as int;
    let w = word2() as int;
    lemma_fundamental_div_mod_converse(top * w, w, top, 0);
    assert(top * w < pow2_127() * w) by (nonlinear_arith)
        requires
            0 <= top < pow2_127(),
            w > 0,
    ;
    assert(pow2_127() * word2() == pow2_256() / 2) by (nonlinear_arith)
        requires
            pow2_127() == 0x8000_0000_0000_0000_0000_0000_0000_0000nat,
            word2() == 0x1_0000_0000_0000_0000_0000_0000_0000_0000nat,
            pow2_256() == 0x1_0000_0000_0000_0000_0000_0000_0000_0000_0000_0000_0000_0000_0000_0000_0000_0000nat,
    ;
}

/// In words: a lower bound has two zero low words, and a top word below
/// 2^63.
pub proof fn lemma_lower_bound_words(nonce: nat, bound: U256)
    requires
        bound@ == lower_bound_of(nonce),
    ensures
        bound.w0 == 0,
        bound.w1 == 0,
        bound.w3 < 0x8000_0000_0000_0000u64,
{
    lemma_lower_bound_shape(nonce);
    let low = (bound.w0 + bound.w1 * crate::uint::word1()) as int;
    let high = (bound.w2 + bound.w3 * crate::uint::word1()) as int;
    assert(bound@ == high * word2() + low) by (nonlinear_arith)
        requires
            bound@ == bound.w0 + bound.w1 * crate::uint::word1() + bound.w2 * word2() + bound.w3
                * word3(),
            low == bound.w0 + bound.w1 * crate::uint::word1(),
            high == bound.w2 + bound.w3 * crate::uint::word1(),
            word3() == word2() * crate::uint::word1(),
    ;
    lemma_fundamental_div_mod_converse(bound@ as int, word2() as int, high, low);
    assert(low == 0);
}

/// What a miner must satisfy: a block, and the work asked for it.
#[derive(Debug, Copy, Clone, PartialOrd, PartialEq)]
pub struct ProofOfWorkProblem {
    pub block_hash: H256,
    pub difficulty: U256,
    pub boundary: U256,
}

/// What a miner submits.
#[derive(Debug, Copy, Clone)]
pub struct ProofOfWorkSolution {
    pub nonce: U256,
}

/// Whether `hash`, moved down by the nonce's lower bound with wraparound,
/// falls under `boundary`; the largest boundary admits every hash.
pub open spec fn meets_boundary(hash: Seq<u8>, nonce: nat, boundary: nat) -> bool {
    wrapping_sub_256(be_value(hash), lower_bound_of(nonce)) < boundary || boundary == u256_max()
}

/// The difficulty that a hash found with `nonce` would have satisfied.
pub open spec fn quality_of(hash: Seq<u8>, nonce: nat) -> nat {
    let delta = wrapping_sub_256(be_value(hash), lower_bound_of(nonce));
    if delta == u256_max() {
        1
    } else {
        reciprocal(delta + 1)
    }
}

/// Byte-wise exclusive or of two strings of one length.
pub open spec fn xor_bytes(a: Seq<u8>, b: Seq<u8>) -> Seq<u8> {
    Seq::new(a.len(), |i: int| a[i] ^ b[i])
}

/// The first-round input: the block hash, then the nonce least
/// significant byte first.
pub open spec fn preimage_of(nonce: nat, block_hash: Seq<u8>) -> Seq<u8> {
    block_hash + le_bytes(nonce, 32)
}

/// The work hash: the digest of the first-round digest folded into the
/// block hash.
pub open spec fn pow_hash(nonce: nat, block_hash: Seq<u8>) -> Seq<u8> {
    keccak256(xor_bytes(keccak256(preimage_of(nonce, block_hash)), block_hash))
}

impl ProofOfWorkProblem {
    /// The boundary that constrains nothing.
    pub fn no_boundary() -> (r: U256)
        ensures
            r@ == u256_max(),
    {
        U256::max_value()
    }

    /// The boundary is the one that the difficulty implies.
    pub open spec fn wf(&self) -> bool {
        &&& self.difficulty@ != 0
        &&& self.boundary@ == reciprocal(self.difficulty@)
    }

    pub fn new(block_hash: H256, difficulty: U256) -> (r: Self)
        requires
            difficulty@ != 0,
        ensures
            r.block_hash == block_hash,
            r.difficulty == difficulty,
            r.boundary@ == reciprocal(difficulty@),
            r.wf(),
    {
        let boundary = difficulty_to_boundary(&difficulty);
        Self { block_hash, difficulty, boundary }
    }

    pub fn validate_hash_against_boundary(hash: &H256, nonce: &U256, boundary: &U256) -> (r: bool)
        ensures
            r == meets_boundary(hash@, nonce@, boundary@),
    {
        let lower_bound = nonce_to_lower_bound(nonce);
        let (against_lower_bound_u256, _) = u256_overflowing_sub(
            &h256_into_uint(hash),
            &lower_bound,
        );
        let unbounded = ProofOfWorkProblem::no_boundary();
        proof {
            if boundary@ == unbounded@ {
                boundary.lemma_view_injective(unbounded);
            }
        }
        against_lower_bound_u256.lt(boundary) || *boundary == unbounded
    }
}

pub fn pow_hash_to_quality(hash: &H256, nonce: &U256) -> (r: U256)
    ensures
        r@ == quality_of(hash@, nonce@),
{
    let hash_as_uint = h256_into_uint(hash);
    let lower_bound = nonce_to_lower_bound(nonce);
    let (against_bound_u256, _) = u256_overflowing_sub(&hash_as_uint, &lower_bound);
    let max = U256::max_value();
    proof {
        against_bound_u256.lemma_bounded();
        if against_bound_u256@ == max@ {
            against_bound_u256.lemma_view_injective(max);
        }
    }
    if against_bound_u256 == max {
        U256::one()
    } else {
        boundary_to_difficulty(&u256_add(&against_bound_u256, &U256::one()))
    }
}

/// Lay out the first-round input for `nonce` on `block_hash`.
pub fn pow_preimage(nonce: &U256, block_hash: &H256) -> (buf: [u8; 64])
    ensures
        buf@ == preimage_of(nonce@, block_hash@),
{
    let mut buf = [0u8; 64];
    let tail = u256_to_little_endian(nonce);
    let mut i: usize = 0;
    while i < 32
        invariant
            i <= 32,
            buf@.len() == 64,
            forall|j: int| 0 <= j < i ==> buf@[j] == block_hash@[j],
            forall|j: int| 0 <= j < i ==> buf@[32 + j] == tail@[j],
        decreases 32 - i,
    {
        buf[i] = block_hash.0[i];
        buf[32 + i] = tail[i];
        i += 1;
    }
    assert(buf@ =~= block_hash@ + tail@);
    buf
}

/// Fold a first-round digest into the block hash, byte by byte.
pub fn fold_into_block_hash(intermediate: &H256, block_hash: &H256) -> (tmp: [u8; 32])
    ensures
        tmp@ == xor_bytes(intermediate@, block_hash@),
{
    let mut tmp = [0u8; 32];
    let mut i: usize = 0;
    while i < 32
        invariant
            i <= 32,
            tmp@.len() == 32,
            forall|j: int| 0 <= j < i ==> tmp@[j] == intermediate@[j] ^ block_hash@[j],
        decreases 32 - i,
    {
        tmp[i] = intermediate.0[i] ^ block_hash.0[i];
        i += 1;
    }
    assert(tmp@ =~= xor_bytes(intermediate@, block_hash@));
    tmp
}

pub fn compute(nonce: &U256, block_hash: &H256) -> (r: H256)
    ensures
        r@ == pow_hash(nonce@, block_hash@),
{
    let buf = pow_preimage(nonce, block_hash);
    let intermediate = keccak(buf.as_slice());
    let tmp = fold_into_block_hash(&intermediate, block_hash);
    keccak(tmp.as_slice())
}

pub fn validate(problem: &ProofOfWorkProblem, solution: &ProofOfWorkSolution) -> (r: bool)
    ensures
        r == meets_boundary(
            pow_hash(solution.nonce@, problem.block_hash@),
            solution.nonce@,
            problem.boundary@,
        ),
{
    let nonce = solution.nonce;
    let hash = compute(&nonce, &problem.block_hash);
    ProofOfWorkProblem::validate_hash_against_boundary(&hash, &nonce, &problem.boundary)
}

/// The work hash is a function of nonce and block hash: two digests computed
/// for one nonce on one block are the same.
pub proof fn lemma_work_hash_deterministic(
    nonce: nat,
    block_hash: Seq<u8>,
    first: H256,
    second: H256,
)
    requires
        first@ == pow_hash(nonce, block_hash),
        second@ == pow_hash(nonce, block_hash),
    ensures
        first == second,
{
    assert(first.0@ =~= second.0@);
    assert(first.0 =~= second.0);
}

/// The largest boundary admits every hash with every nonce.
pub proof fn lemma_no_boundary_admits_all(hash: Seq<u8>, nonce: nat)
    ensures
        meets_boundary(hash, nonce, u256_max()),
{
}


/// Converting a difficulty of at least two to its boundary and back gives
/// the difficulty again exactly when the boundary's rounding loses less
/// than one unit of difficulty, and at the largest difficulty.
pub proof fn lemma_round_trip(d: nat)
    requires
        2 <= d <= u256_max(),
    ensures
        reciprocal(reciprocal(d)) == d <==> ((d + 1) * (pow2_256() / d) > pow2_256() || d
            == u256_max()),
{
    let n = pow2_256() as int;
    let di = d as int;
    let b = n / di;
    lemma_fundamental_div_mod(n, di);
    lemma_mod_bound(n, di);
    assert(b >= 1) by (nonlinear_arith)
        requires
            n == di * b + n % di,
            0 <= n % di < di,
            di < n,
    ;
    if di == u256_max() {
        lemma_fundamental_div_mod_converse(n, di, 1, 1);
    }
    if b == 1 {
        assert((di + 1) * 1 == di + 1) by (nonlinear_arith);
    } else {
        assert(di != u256_max());
        lemma_fundamental_div_mod(n, b);
        lemma_mod_bound(n, b);
        assert((di + 1) * b == di * b + b) by (nonlinear_arith);
        if (di + 1) * b > n {
            assert(b * di == di * b) by (nonlinear_arith);
            lemma_fundamental_div_mod_converse(n, b, di, n % di);
        }
        if n / b == di {
            assert(b * di == di * b) by (nonlinear_arith);
        }
    }
}

/// Up to 2^128 - 1, and for every difficulty `d` with `d * (d + 1)` not
/// above 2^256, the round trip through the boundary is exact.
pub proof fn lemma_round_trip_small(d: nat)
    requires
        2 <= d,
        d * (d + 1) <= pow2_256(),
    ensures
        reciprocal(reciprocal(d)) == d,
{
    let n = pow2_256() as int;
    let di = d as int;
    let b = n / di;
    assert(di <= u256_max()) by (nonlinear_arith)
        requires
            2 <= di,
            di * (di + 1) <= n,
            n == u256_max() + 1,
    ;
    lemma_fundamental_div_mod(n, di);
    lemma_mod_bound(n, di);
    assert(b >= di + 1) by (nonlinear_arith)
        requires
            n == di * b + n % di,
            0 <= n % di < di,
            di * (di + 1) <= n,
            di >= 2,
    ;
    assert((di + 1) * b > n) by (nonlinear_arith)
        requires
            n == di * b + n % di,
            0 <= n % di < di,
            b >= di + 1,
    ;
    lemma_round_trip(d);
}

} // verus!
