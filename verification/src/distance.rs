//! The XOR metric on identifiers: its definition over bits and the facts that
//! make it a metric.

use crate::node_id::{bit, xor_bytes, NodeId, B};
use vstd::math::max;
use vstd::prelude::*;

verus! {

/// Length of the run of zero bits of `x` that starts at bit `from`.
pub open spec fn zero_run(x: Seq<u8>, from: int) -> nat
    decreases 8 * x.len() - from,
{
    if 0 <= from < 8 * x.len() && !bit(x, from) {
        1 + zero_run(x, from + 1)
    } else {
        0
    }
}

/// Number of zero bits before the first set bit of `x`; all its bits when
/// none is set.
pub open spec fn leading_zero_bits(x: Seq<u8>) -> nat {
    zero_run(x, 0)
}

/// Bit length of `x`: the number of bits that are left once the leading zero
/// bits are taken away.
pub open spec fn bit_length(x: Seq<u8>) -> nat {
    (8 * x.len() - leading_zero_bits(x)) as nat
}

/// Distance of two identifiers: the bit length of their exclusive or.
pub open spec fn distance(a: NodeId, b: NodeId) -> nat {
    bit_length(xor_bytes(a@, b@))
}

/// A run of zero bits ends before the end of the string, every bit in it is
/// zero, and the bit after it, if there is one, is set.
pub proof fn lemma_zero_run(x: Seq<u8>, from: int)
    requires
        0 <= from <= 8 * x.len(),
    ensures
        from + zero_run(x, from) <= 8 * x.len(),
        forall|i: int| from <= i < from + zero_run(x, from) ==> !bit(x, i),
        from + zero_run(x, from) < 8 * x.len() ==> bit(x, from + zero_run(x, from)),
    decreases 8 * x.len() - from,
{
    if from < 8 * x.len() && !bit(x, from) {
        lemma_zero_run(x, from + 1);
    }
}

/// The run of zero bits from `from` is the only `n` with zero bits in
/// `from .. from + n` and either a set bit or the end of the string after them.
pub proof fn lemma_zero_run_unique(x: Seq<u8>, from: int, n: nat)
    requires
        0 <= from,
        from + n <= 8 * x.len(),
        forall|i: int| from <= i < from + n ==> !bit(x, i),
        from + n < 8 * x.len() ==> bit(x, from + n),
    ensures
        zero_run(x, from) == n,
    decreases n,
{
    if n > 0 {
        lemma_zero_run_unique(x, from + 1, (n - 1) as nat);
    }
}

/// A bit of the exclusive or is set where the two operands differ.
pub proof fn lemma_xor_bit(a: Seq<u8>, b: Seq<u8>, i: int)
    requires
        a.len() == b.len(),
        0 <= i < 8 * a.len(),
    ensures
        bit(xor_bytes(a, b), i) == (bit(a, i) != bit(b, i)),
{
    let x = a[i / 8];
    let y = b[i / 8];
    let k = (i % 8) as u8;
    assert(((x ^ y) & (0x80u8 >> k) != 0) == ((x & (0x80u8 >> k) != 0) != (y & (0x80u8 >> k)
        != 0))) by (bit_vector)
        requires
            k < 8,
    ;
}

/// Two bytes with the same eight bits are the same byte.
pub proof fn lemma_byte_from_bits(x: u8, y: u8)
    requires
        forall|k: u8| k < 8 ==> ((x & (0x80u8 >> k) != 0) == (y & (0x80u8 >> k) != 0)),
    ensures
        x == y,
{
    assert(x == y) by (bit_vector)
        requires
            (x & (0x80u8 >> 0u8) != 0) == (y & (0x80u8 >> 0u8) != 0),
            (x & (0x80u8 >> 1u8) != 0) == (y & (0x80u8 >> 1u8) != 0),
            (x & (0x80u8 >> 2u8) != 0) == (y & (0x80u8 >> 2u8) != 0),
            (x & (0x80u8 >> 3u8) != 0) == (y & (0x80u8 >> 3u8) != 0),
            (x & (0x80u8 >> 4u8) != 0) == (y & (0x80u8 >> 4u8) != 0),
            (x & (0x80u8 >> 5u8) != 0) == (y & (0x80u8 >> 5u8) != 0),
            (x & (0x80u8 >> 6u8) != 0) == (y & (0x80u8 >> 6u8) != 0),
            (x & (0x80u8 >> 7u8) != 0) == (y & (0x80u8 >> 7u8) != 0),
    ;
}

/// Two byte strings of one length with the same bits are the same string.
pub proof fn lemma_bytes_from_bits(a: Seq<u8>, b: Seq<u8>)
    requires
        a.len() == b.len(),
        forall|i: int| 0 <= i < 8 * a.len() ==> bit(a, i) == bit(b, i),
    ensures
        a == b,
{
    assert forall|j: int| 0 <= j < a.len() implies a[j] == b[j] by {
        assert forall|k: u8| k < 8 implies ((a[j] & (0x80u8 >> k) != 0) == (b[j] & (0x80u8 >> k)
            != 0)) by {
            let i = 8 * j + k;
            assert(i / 8 == j && i % 8 == k);
            assert(bit(a, i) == bit(b, i));
        }
        lemma_byte_from_bits(a[j], b[j]);
    }
    assert(a =~= b);
}

/// The distance says where two identifiers first differ: their first
/// `B - distance` bits agree, and the bit after those, if the distance is not
/// zero, differs. Counted from the least significant bit, the distance is the
/// position of the highest bit in which the two differ.
pub proof fn lemma_distance_bits(a: NodeId, b: NodeId)
    ensures
        distance(a, b) <= B,
        forall|i: int| 0 <= i < B - distance(a, b) ==> bit(a@, i) == bit(b@, i),
        distance(a, b) > 0 ==> bit(a@, B - distance(a, b)) != bit(b@, B - distance(a, b)),
{
    let x = xor_bytes(a@, b@);
    lemma_zero_run(x, 0);
    assert forall|i: int| 0 <= i < B - distance(a, b) implies bit(a@, i) == bit(b@, i) by {
        lemma_xor_bit(a@, b@, i);
    }
    if distance(a, b) > 0 {
        lemma_xor_bit(a@, b@, B - distance(a, b));
    }
}

/// The distance is the only number that says where two identifiers first
/// differ.
pub proof fn lemma_distance_unique(a: NodeId, b: NodeId, d: nat)
    requires
        d <= B,
        forall|i: int| 0 <= i < B - d ==> bit(a@, i) == bit(b@, i),
        d > 0 ==> bit(a@, B - d) != bit(b@, B - d),
    ensures
        distance(a, b) == d,
{
    let x = xor_bytes(a@, b@);
    assert forall|i: int| 0 <= i < B - d implies !bit(x, i) by {
        lemma_xor_bit(a@, b@, i);
    }
    if d > 0 {
        lemma_xor_bit(a@, b@, B - d);
    }
    lemma_zero_run_unique(x, 0, (B - d) as nat);
}

/// The distance is at most the width of the identifier space.
pub proof fn lemma_distance_in_range(a: NodeId, b: NodeId)
    ensures
        0 <= distance(a, b) <= B,
{
    lemma_distance_bits(a, b);
}

/// An identifier is at distance zero from itself.
pub proof fn lemma_distance_to_self(x: NodeId)
    ensures
        distance(x, x) == 0,
{
    lemma_distance_unique(x, x, 0);
}

/// Only identifiers with the same bytes are at distance zero.
pub proof fn lemma_distance_zero(a: NodeId, b: NodeId)
    ensures
        distance(a, b) == 0 <==> a@ == b@,
{
    lemma_distance_bits(a, b);
    if distance(a, b) == 0 {
        lemma_bytes_from_bits(a@, b@);
    }
    if a@ == b@ {
        lemma_distance_unique(a, b, 0);
    }
}

/// The distance does not depend on the order of the two identifiers.
pub proof fn lemma_distance_symmetric(a: NodeId, b: NodeId)
    ensures
        distance(a, b) == distance(b, a),
{
    lemma_distance_bits(b, a);
    lemma_distance_unique(a, b, distance(b, a));
}

/// The strong triangle inequality: two identifiers are no farther apart than
/// the farther of them is from any third.
pub proof fn lemma_distance_ultrametric(a: NodeId, b: NodeId, c: NodeId)
    ensures
        distance(a, b) <= max(distance(a, c) as int, distance(c, b) as int),
        distance(a, b) <= max(distance(a, c) as int, distance(b, c) as int),
{
    lemma_distance_bits(a, b);
    lemma_distance_bits(a, c);
    lemma_distance_bits(c, b);
    lemma_distance_symmetric(b, c);
}

} // verus!
