//! Field elements carried as 32-byte little-endian encodings, with the
//! arithmetic done by `curve25519_dalek`.

use vstd::prelude::*;
use crate::field::{fadd, fmul, fneg, fsub, finv, group_order, le_bytes_to_nat, lemma_le_bytes_zero};

verus! {

/// A scalar of the Ristretto group, as 32 little-endian bytes.
/// Its field value is `sval(self)`; the bytes need not be reduced.
#[derive(Clone, Copy, Debug)]
pub struct ScalarBytes {
    pub bytes: [u8; 32],
}

/// The field value that a 32-byte scalar encoding stands for.
pub open spec fn sval(s: ScalarBytes) -> nat {
    le_bytes_to_nat(s.bytes@) % group_order()
}

impl ScalarBytes {
    /// The scalar zero.
    pub fn zero() -> (r: ScalarBytes)
        ensures
            sval(r) == 0,
    {
        let r = ScalarBytes { bytes: [0u8; 32] };
        proof {
            lemma_le_bytes_zero(r.bytes@);
        }
        r
    }
}

/// Relies on `curve25519_dalek::scalar::Scalar`'s `Add`: addition in the
/// field of order `group_order()`.
#[verifier::external_body]
pub(crate) fn scalar_add(a: &ScalarBytes, b: &ScalarBytes) -> (r: ScalarBytes)
    ensures
        sval(r) == fadd(sval(*a), sval(*b)),
{
    let x = curve25519_dalek::scalar::Scalar::from_bytes_mod_order(a.bytes);
    let y = curve25519_dalek::scalar::Scalar::from_bytes_mod_order(b.bytes);
    ScalarBytes { bytes: (&x + &y).to_bytes() }
}

/// Relies on `curve25519_dalek::scalar::Scalar`'s `Sub`: subtraction in the
/// field of order `group_order()`.
#[verifier::external_body]
pub(crate) fn scalar_sub(a: &ScalarBytes, b: &ScalarBytes) -> (r: ScalarBytes)
    ensures
        sval(r) == fsub(sval(*a), sval(*b)),
{
    let x = curve25519_dalek::scalar::Scalar::from_bytes_mod_order(a.bytes);
    let y = curve25519_dalek::scalar::Scalar::from_bytes_mod_order(b.bytes);
    ScalarBytes { bytes: (&x - &y).to_bytes() }
}

/// Relies on `curve25519_dalek::scalar::Scalar`'s `Mul`: multiplication in
/// the field of order `group_order()`.
#[verifier::external_body]
pub(crate) fn scalar_mul(a: &ScalarBytes, b: &ScalarBytes) -> (r: ScalarBytes)
    ensures
        sval(r) == fmul(sval(*a), sval(*b)),
{
    let x = curve25519_dalek::scalar::Scalar::from_bytes_mod_order(a.bytes);
    let y = curve25519_dalek::scalar::Scalar::from_bytes_mod_order(b.bytes);
    ScalarBytes { bytes: (&x * &y).to_bytes() }
}

/// Relies on `curve25519_dalek::scalar::Scalar`'s `Neg`: negation in the
/// field of order `group_order()`.
#[verifier::external_body]
pub(crate) fn scalar_neg(a: &ScalarBytes) -> (r: ScalarBytes)
    ensures
        sval(r) == fneg(sval(*a)),
{
    let x = curve25519_dalek::scalar::Scalar::from_bytes_mod_order(a.bytes);
    ScalarBytes { bytes: (-&x).to_bytes() }
}

/// Relies on `curve25519_dalek::scalar::Scalar::invert`: the multiplicative
/// inverse of a nonzero scalar; its inversion chain maps zero to zero.
#[verifier::external_body]
pub(crate) fn scalar_invert(a: &ScalarBytes) -> (r: ScalarBytes)
    ensures
        sval(r) == finv(sval(*a)),
{
    let x = curve25519_dalek::scalar::Scalar::from_bytes_mod_order(a.bytes);
    ScalarBytes { bytes: x.invert().to_bytes() }
}

/// Relies on `curve25519_dalek::scalar::Scalar`'s `From<u64>`: the scalar
/// with the given small integer value.
#[verifier::external_body]
pub(crate) fn scalar_from_u64(x: u64) -> (r: ScalarBytes)
    ensures
        sval(r) == x as nat,
{
    ScalarBytes { bytes: curve25519_dalek::scalar::Scalar::from(x).to_bytes() }
}

/// Relies on `curve25519_dalek::scalar::Scalar::from_bytes_mod_order_wide`:
/// reduction of a 64-byte little-endian integer modulo the group order.
#[verifier::external_body]
pub(crate) fn scalar_from_wide(bytes: &[u8; 64]) -> (r: ScalarBytes)
    ensures
        sval(r) == le_bytes_to_nat(bytes@) % group_order(),
{
    ScalarBytes { bytes: curve25519_dalek::scalar::Scalar::from_bytes_mod_order_wide(bytes).to_bytes() }
}

} // verus!
