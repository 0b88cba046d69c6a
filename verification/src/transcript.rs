//! The deterministic challenge oracle, a thin semantic layer over a
//! `merlin` transcript. The transcript's history is modelled as a log of
//! labelled events; every challenge is a fixed function of the log so far.

use vstd::prelude::*;
use crate::field::{group_order, le_bytes_to_nat, u64_le_bytes};
use crate::scalar::{ScalarBytes, sval, scalar_from_wide};

verus! {

#[verifier::external_type_specification]
#[verifier::external_body]
pub struct ExTranscript(merlin::Transcript);

#[verifier::external_type_specification]
#[verifier::external_body]
pub struct ExTranscriptRng(merlin::TranscriptRng);

/// One event in a transcript's history: its construction, an absorbed
/// labelled message, or an extracted challenge.
pub enum TsEntry {
    Init { label: Seq<char> },
    Msg { label: Seq<char>, body: Seq<u8> },
    Chal { label: Seq<char> },
}

/// The history of a transcript: every event since its construction, in
/// order. The bytes and labels fed in uniquely determine every subsequent
/// challenge.
pub uninterp spec fn ts_log(t: merlin::Transcript) -> Seq<TsEntry>;

/// What a transcript with the given history answers to a 64-byte
/// challenge request under the given label.
pub uninterp spec fn ts_challenge(log: Seq<TsEntry>, label: Seq<char>) -> Seq<u8>;

/// The field scalar drawn from a transcript with the given history under
/// the given label: its 64-byte challenge reduced modulo the group order.
pub open spec fn chal_scalar(log: Seq<TsEntry>, label: Seq<char>) -> nat {
    le_bytes_to_nat(ts_challenge(log, label)) % group_order()
}

/// Relies on `merlin::Transcript::append_message`: absorbs a 32-byte
/// string under a label, extending the transcript's history by exactly
/// that event.
#[verifier::external_body]
pub(crate) fn transcript_append_bytes32(
    t: &mut merlin::Transcript,
    label: &'static str,
    message: &[u8; 32],
)
    ensures
        ts_log(*final(t)) == ts_log(*old(t)).push(
            TsEntry::Msg { label: label@, body: message@ },
        ),
{
    t.append_message(label.as_bytes(), message)
}

/// Relies on `merlin::Transcript::append_u64`: absorbs the 8 little-endian
/// bytes of a 64-bit integer under a label.
#[verifier::external_body]
pub(crate) fn transcript_append_u64(t: &mut merlin::Transcript, label: &'static str, x: u64)
    ensures
        ts_log(*final(t)) == ts_log(*old(t)).push(
            TsEntry::Msg { label: label@, body: u64_le_bytes(x) },
        ),
{
    t.append_u64(label.as_bytes(), x)
}

/// Relies on `merlin::Transcript::challenge_bytes`: 64 challenge bytes
/// determined by the history so far and the label; drawing them is itself
/// an event in the history.
#[verifier::external_body]
pub(crate) fn transcript_challenge_bytes64(t: &mut merlin::Transcript, label: &'static str) -> (r:
    [u8; 64])
    ensures
        r@ == ts_challenge(ts_log(*old(t)), label@),
        ts_log(*final(t)) == ts_log(*old(t)).push(TsEntry::Chal { label: label@ }),
{
    let mut buf = [0u8; 64];
    t.challenge_bytes(label.as_bytes(), &mut buf);
    buf
}

/// Relies on `merlin::Transcript::build_rng` and
/// `TranscriptRngBuilder::finalize`, with `rand::thread_rng` as the
/// operating-system entropy source: an RNG seeded from the transcript
/// state mixed with fresh OS randomness. Nothing is promised of its
/// output, and the transcript itself is not changed.
#[verifier::external_body]
pub(crate) fn transcript_rng(t: &merlin::Transcript) -> merlin::TranscriptRng {
    t.build_rng().finalize(&mut rand::thread_rng())
}

/// Relies on `curve25519_dalek::scalar::Scalar::random`: a scalar drawn
/// from the given RNG. Nothing is promised of the value.
#[verifier::external_body]
pub(crate) fn scalar_random(rng: &mut merlin::TranscriptRng) -> ScalarBytes {
    ScalarBytes { bytes: curve25519_dalek::scalar::Scalar::random(rng).to_bytes() }
}

/// Draws a field scalar from the transcript under the given label.
pub(crate) fn challenge_scalar(t: &mut merlin::Transcript, label: &'static str) -> (r: ScalarBytes)
    ensures
        sval(r) == chal_scalar(ts_log(*old(t)), label@),
        ts_log(*final(t)) == ts_log(*old(t)).push(TsEntry::Chal { label: label@ }),
{
    let buf = transcript_challenge_bytes64(t, label);
    scalar_from_wide(&buf)
}

} // verus!
