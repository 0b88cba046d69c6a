//! The closed error taxonomy of the verifier.

use vstd::prelude::*;

verus! {

/// Everything that can go wrong while assembling or verifying a proof.
///
/// Every cryptographic rejection collapses into `VerificationError`, so
/// that the cause of a rejection is not observable.
#[derive(Clone, Debug, PartialEq, Eq)]
pub enum R1CSError {
    /// The generator set is smaller than the padded multiplier count.
    InvalidGeneratorsLength,
    /// The proof is structurally malformed; found before any
    /// cryptographic check.
    FormatError,
    /// The proof does not verify. Sub-causes are deliberately not
    /// distinguished.
    VerificationError,
    /// An error propagated verbatim from a gadget closure.
    GadgetError(String),
}

} // verus!
