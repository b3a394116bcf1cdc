//! Byte strings read as numbers, and the facts about them that the
//! proof-of-work arithmetic rests on.

use vstd::prelude::*;

verus! {

/// 256 to the power `n`.
pub open spec fn pow256(n: nat) -> nat
    decreases n,
{
    if n == 0 {
        1
    } else {
        256 * pow256((n - 1) as nat)
    }
}

/// The number that `bytes` spell when read most significant byte first.
pub open spec fn be_value(bytes: Seq<u8>) -> nat
    decreases bytes.len(),
{
    if bytes.len() == 0 {
        0
    } else {
        be_value(bytes.drop_last()) * 256 + bytes.last() as nat
    }
}

/// The `len` low bytes of `value`, least significant byte first.
pub open spec fn le_bytes(value: nat, len: nat) -> Seq<u8>
    decreases len,
{
    if len == 0 {
        Seq::empty()
    } else {
        seq![(value % 256) as u8] + le_bytes(value / 256, (len - 1) as nat)
    }
}

/// A byte string spells a number below `256^len`.
pub proof fn lemma_be_value_bound(bytes: Seq<u8>)
    ensures
        be_value(bytes) < pow256(bytes.len()),
    decreases bytes.len(),
{
    if bytes.len() > 0 {
        lemma_be_value_bound(bytes.drop_last());
    }
}

/// A string of zero bytes spells zero.
pub proof fn lemma_be_value_zeros(bytes: Seq<u8>)
    requires
        forall|i: int| 0 <= i < bytes.len() ==> bytes[i] == 0,
    ensures
        be_value(bytes) == 0,
    decreases bytes.len(),
{
    if bytes.len() > 0 {
        lemma_be_value_zeros(bytes.drop_last());
    }
}

/// A one-byte string spells its byte.
pub proof fn lemma_be_value_single(bytes: Seq<u8>)
    requires
        bytes.len() == 1,
    ensures
        be_value(bytes) == bytes[0],
{
    assert(be_value(bytes.drop_last()) == 0);
}

/// Cutting a string at `k` splits its number into the head, shifted left by
/// the tail's length, plus the tail.
pub proof fn lemma_be_value_split(bytes: Seq<u8>, k: int)
    requires
        0 <= k <= bytes.len(),
    ensures
        be_value(bytes) == be_value(bytes.subrange(0, k)) * pow256((bytes.len() - k) as nat)
            + be_value(bytes.subrange(k, bytes.len() as int)),
    decreases bytes.len() - k,
{
    let len = bytes.len() as int;
    if k == len {
        assert(bytes.subrange(0, k) =~= bytes);
        assert(bytes.subrange(k, len).len() == 0);
        assert(be_value(bytes.subrange(k, len)) == 0);
        assert(pow256(0) == 1);
        assert(be_value(bytes) * 1 == be_value(bytes)) by (nonlinear_arith);
    } else {
        let front = bytes.drop_last();
        let tail = bytes.subrange(k, len);
        lemma_be_value_split(front, k);
        assert(front.subrange(0, k) =~= bytes.subrange(0, k));
        assert(tail.drop_last() =~= front.subrange(k, len - 1));
        assert(tail.last() == bytes.last());
        let head = be_value(bytes.subrange(0, k)) as int;
        let mid = be_value(front.subrange(k, len - 1)) as int;
        let p = pow256((len - 1 - k) as nat) as int;
        assert(be_value(front) == head * p + mid);
        assert(be_value(bytes) == be_value(front) * 256 + bytes.last() as nat);
        assert(be_value(tail) == mid * 256 + bytes.last() as nat);
        assert(pow256((len - k) as nat) == 256 * p);
        assert((head * p + mid) * 256 == head * (256 * p) + mid * 256) by (nonlinear_arith);
    }
}

/// The powers of 256 that the 32-byte layout uses.
pub proof fn lemma_pow256_values()
    ensures
        pow256(1) == 0x100,
        pow256(15) == 0x1_0000_0000_0000_0000_0000_0000_0000_00nat,
        pow256(16) == 0x1_0000_0000_0000_0000_0000_0000_0000_0000nat,
{
    reveal_with_fuel(pow256, 17);
}

/// A fresh vector with the bytes of `source`.
pub fn copy_bytes(source: &[u8]) -> (r: Vec<u8>)
    ensures
        r@ == source@,
{
    let mut r: Vec<u8> = Vec::new();
    let mut i: usize = 0;
    while i < source.len()
        invariant
            i <= source.len(),
            r@ == source@.subrange(0, i as int),
        decreases source.len() - i,
    {
        r.push(source[i]);
        assert(r@ =~= source@.subrange(0, i + 1));
        i += 1;
    }
    assert(r@ =~= source@);
    r
}

/// Append the bytes of `source` to `target`.
pub fn append_bytes(target: &mut Vec<u8>, source: &[u8])
    ensures
        final(target)@ == old(target)@ + source@,
{
    let mut i: usize = 0;
    while i < source.len()
        invariant
            i <= source.len(),
            target@ == old(target)@ + source@.subrange(0, i as int),
        decreases source.len() - i,
    {
        target.push(source[i]);
        assert(target@ =~= old(target)@ + source@.subrange(0, i + 1));
        i += 1;
    }
    assert(source@.subrange(0, source@.len() as int) =~= source@);
}

/// Whether two byte strings are the same.
pub fn bytes_equal(a: &[u8], b: &[u8]) -> (r: bool)
    ensures
        r == (a@ == b@),
{
    if a.len() != b.len() {
        return false;
    }
    let mut i: usize = 0;
    while i < a.len()
        invariant
            i <= a.len(),
            a.len() == b.len(),
            forall|j: int| 0 <= j < i ==> a@[j] == b@[j],
        decreases a.len() - i,
    {
        if a[i] != b[i] {
            return false;
        }
        i += 1;
    }
    assert(a@ =~= b@);
    true
}

} // verus!
