//! The scalar field of the Ristretto group, modelled as natural numbers
//! modulo the prime group order.

use vstd::prelude::*;

verus! {

/// The prime order of the Ristretto scalar field,
/// `2^252 + 27742317777372353535851937790883648493`.
pub open spec fn group_order() -> nat {
    0x1000000000000000000000000000000014def9dea2f79cd65812631a5cf5d3ed as nat
}

/// Field addition: `(a + b) mod l`.
pub open spec fn fadd(a: nat, b: nat) -> nat {
    (a + b) % group_order()
}

/// Field negation: `(-a) mod l`.
pub open spec fn fneg(a: nat) -> nat {
    (((group_order() - a % group_order()) as nat) % group_order()) as nat
}

/// Field subtraction: `(a - b) mod l`.
pub open spec fn fsub(a: nat, b: nat) -> nat {
    fadd(a, fneg(b))
}

/// Field multiplication: `(a * b) mod l`.
pub open spec fn fmul(a: nat, b: nat) -> nat {
    (a * b) % group_order()
}

/// Field exponentiation: `b^e mod l`.
pub open spec fn fpow(b: nat, e: nat) -> nat
    decreases e,
{
    if e == 0 {
        1
    } else {
        fmul(b, fpow(b, (e - 1) as nat))
    }
}

/// The multiplicative inverse modulo the group order; zero maps to zero.
pub open spec fn finv(a: nat) -> nat {
    if a % group_order() == 0 {
        0
    } else {
        choose|b: nat| b < group_order() && #[trigger] ((a * b) % group_order()) == 1
    }
}

/// The value of a little-endian byte string, least significant byte first.
pub open spec fn le_bytes_to_nat(bytes: Seq<u8>) -> nat
    decreases bytes.len(),
{
    if bytes.len() == 0 {
        0
    } else {
        (bytes[0] + 256 * le_bytes_to_nat(bytes.skip(1))) as nat
    }
}

/// A byte string of zeros encodes zero.
pub proof fn lemma_le_bytes_zero(bytes: Seq<u8>)
    requires
        forall|i: int| 0 <= i < bytes.len() ==> bytes[i] == 0,
    ensures
        le_bytes_to_nat(bytes) == 0,
    decreases bytes.len(),
{
    if bytes.len() > 0 {
        lemma_le_bytes_zero(bytes.skip(1));
    }
}

/// `2^e`.
pub open spec fn pow2(e: nat) -> nat
    decreases e,
{
    if e == 0 {
        1
    } else {
        2 * pow2((e - 1) as nat)
    }
}

/// The position of the highest set bit: `floor(log2(i))`, with
/// `log2(0) == 0`.
pub open spec fn log2(i: nat) -> nat
    decreases i,
{
    if i < 2 {
        0
    } else {
        1 + log2(i / 2)
    }
}

/// The least power of two that is at least `n`, except that zero maps to
/// zero.
pub open spec fn next_pow2(n: nat) -> nat
    decreases n,
{
    if n <= 1 {
        n
    } else {
        2 * next_pow2((n + 1) / 2)
    }
}

pub proof fn lemma_pow2_pos(e: nat)
    ensures
        pow2(e) >= 1,
    decreases e,
{
    if e > 0 {
        lemma_pow2_pos((e - 1) as nat);
    }
}

pub proof fn lemma_pow2_increases(a: nat, b: nat)
    requires
        a <= b,
    ensures
        pow2(a) <= pow2(b),
    decreases b,
{
    if a < b && b > 0 {
        lemma_pow2_increases(a, (b - 1) as nat);
        lemma_pow2_pos((b - 1) as nat);
    }
}

/// A number between two neighbouring powers of two has the lower one's
/// exponent as its logarithm.
pub proof fn lemma_log2_of_range(i: nat, b: nat)
    requires
        pow2(b) <= i,
        i < 2 * pow2(b),
    ensures
        log2(i) == b,
    decreases b,
{
    if b == 0 {
        assert(i == 1);
    } else {
        lemma_pow2_pos((b - 1) as nat);
        assert(pow2(b) == 2 * pow2((b - 1) as nat));
        assert(i >= 2);
        assert(i / 2 >= pow2((b - 1) as nat));
        assert(i / 2 < 2 * pow2((b - 1) as nat));
        lemma_log2_of_range(i / 2, (b - 1) as nat);
    }
}

/// `next_pow2` is at least its argument.
pub proof fn lemma_next_pow2_ge(n: nat)
    ensures
        next_pow2(n) >= n,
    decreases n,
{
    if n > 1 {
        lemma_next_pow2_ge((n + 1) / 2);
    }
}

/// The little-endian value of the 8 bytes of a 64-bit integer.
pub open spec fn u64_le_bytes(x: u64) -> Seq<u8> {
    Seq::new(8, |i: int| ((x as nat / fpow256(i as nat)) % 256) as u8)
}

/// `256^e`, the place value of the `e`-th byte of a little-endian string.
pub open spec fn fpow256(e: nat) -> nat
    decreases e,
{
    if e == 0 {
        1
    } else {
        256 * fpow256((e - 1) as nat)
    }
}

} // verus!
