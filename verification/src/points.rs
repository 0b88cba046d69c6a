//! Ristretto group elements carried in their compressed 32-byte form,
//! with the one group computation — the mega-check multiscalar
//! multiplication — done by `curve25519_dalek`.

use vstd::prelude::*;
use curve25519_dalek::traits::VartimeMultiscalarMul;
use crate::scalar::{ScalarBytes, sval};

verus! {

/// A compressed Ristretto point. The bytes may or may not decompress to a
/// group element; only the multiscalar multiplication finds out.
#[derive(Clone, Copy, Debug)]
pub struct PointBytes {
    pub bytes: [u8; 32],
}

/// The field values of a list of scalar encodings.
pub open spec fn svals(s: Seq<ScalarBytes>) -> Seq<nat> {
    s.map_values(|x: ScalarBytes| sval(x))
}

/// The byte strings of a list of compressed points.
pub open spec fn pviews(p: Seq<PointBytes>) -> Seq<Seq<u8>> {
    p.map_values(|x: PointBytes| x.bytes@)
}

/// The compressed encoding of the group identity: 32 zero bytes.
pub open spec fn identity_encoding() -> Seq<u8> {
    Seq::new(32, |i: int| 0u8)
}

/// What the variable-time multiscalar multiplication returns on the given
/// scalar values and compressed points: `None` when some point fails to
/// decompress, otherwise the compressed sum `sum_i s_i * P_i`.
pub uninterp spec fn msm_result(scalars: Seq<nat>, points: Seq<Seq<u8>>) -> Option<Seq<u8>>;

/// Relies on `curve25519_dalek::ristretto::RistrettoPoint::
/// optional_multiscalar_mul`: the variable-time multiscalar multiplication
/// over optional points, `None` exactly when a decompression fails.
#[verifier::external_body]
pub(crate) fn ristretto_msm(scalars: &Vec<ScalarBytes>, points: &Vec<PointBytes>) -> (r: Option<
    PointBytes,
>)
    requires
        scalars@.len() == points@.len(),
    ensures
        r matches Some(q) ==> msm_result(svals(scalars@), pviews(points@)) == Some(q.bytes@),
        r is None ==> msm_result(svals(scalars@), pviews(points@)) is None,
{
    let ss = scalars.iter().map(|s| curve25519_dalek::scalar::Scalar::from_bytes_mod_order(s.bytes));
    let ps = points.iter().map(|p| curve25519_dalek::ristretto::CompressedRistretto(p.bytes).decompress());
    curve25519_dalek::ristretto::RistrettoPoint::optional_multiscalar_mul(ss, ps).map(|q| PointBytes {
        bytes: q.compress().to_bytes(),
    })
}

} // verus!
