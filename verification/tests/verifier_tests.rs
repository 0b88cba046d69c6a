use curve25519_dalek::constants::RISTRETTO_BASEPOINT_POINT;
use curve25519_dalek::scalar::Scalar;
use r1cs_verifier::cs::{CommittedVerifierCS, VerifierCS};
use r1cs_verifier::errors::R1CSError;
use r1cs_verifier::generators::{BulletproofGens, PedersenGens};
use r1cs_verifier::ipp::InnerProductProof;
use r1cs_verifier::megacheck::R1CSProof;
use r1cs_verifier::points::PointBytes;
use r1cs_verifier::scalar::ScalarBytes;
use r1cs_verifier::types::{Assignment, LinearCombination, OpaqueScalar, VariableIndex};

fn basepoint_mult(k: u64) -> PointBytes {
    let p = RISTRETTO_BASEPOINT_POINT * Scalar::from(k);
    PointBytes {
        bytes: p.compress().to_bytes(),
    }
}

fn scalar(k: u64) -> ScalarBytes {
    ScalarBytes {
        bytes: Scalar::from(k).to_bytes(),
    }
}

fn neg_scalar(k: u64) -> [u8; 32] {
    (-Scalar::from(k)).to_bytes()
}

fn identity_point() -> PointBytes {
    PointBytes { bytes: [0u8; 32] }
}

fn gens(capacity: usize) -> (BulletproofGens, PedersenGens) {
    let mut g = Vec::new();
    let mut h = Vec::new();
    for i in 0..capacity {
        g.push(basepoint_mult(2 * i as u64 + 2));
        h.push(basepoint_mult(2 * i as u64 + 3));
    }
    let pc = PedersenGens {
        B: basepoint_mult(1),
        B_blinding: basepoint_mult(7),
    };
    (BulletproofGens::new(g, h), pc)
}

fn trivial_proof() -> R1CSProof {
    R1CSProof {
        A_I: identity_point(),
        A_O: identity_point(),
        S: identity_point(),
        T_1: identity_point(),
        T_3: identity_point(),
        T_4: identity_point(),
        T_5: identity_point(),
        T_6: identity_point(),
        t_x: scalar(0),
        t_x_blinding: scalar(0),
        e_blinding: scalar(0),
        ipp_proof: InnerProductProof {
            L_vec: Vec::new(),
            R_vec: Vec::new(),
            a: scalar(0),
            b: scalar(0),
        },
    }
}

/// One multiplier and two constraints, flattened under a chosen `z`:
/// every weight matches the hand-computed field value.
#[test]
fn flatten_single_constraint_exact_values() {
    let (bp, pc) = gens(4);
    let transcript = merlin::Transcript::new(b"test");
    let (mut cs, _vars) = VerifierCS::new(bp, pc, transcript, vec![basepoint_mult(9)]);
    let (l, r, _o) = cs
        .assign_multiplier(
            Assignment::<OpaqueScalar>::Missing,
            Assignment::Missing,
            Assignment::Missing,
        )
        .unwrap();
    // 2 * left + 3 * one = 0
    let mut lc = LinearCombination::new();
    lc.push_term(l.index, OpaqueScalar::from_u64(2));
    lc.push_term(VariableIndex::One, OpaqueScalar::from_u64(3));
    cs.add_constraint(lc);
    // 1 * right + 4 * committed(0) = 0
    let mut lc2 = LinearCombination::new();
    lc2.push_term(r.index, OpaqueScalar::from_u64(1));
    lc2.push_term(VariableIndex::Committed(0), OpaqueScalar::from_u64(4));
    cs.add_constraint(lc2);
    let committed = cs.commit();
    let z = scalar(5);
    let (wl, wr, wo, wv, wc) = committed.flattened_constraints(&z);
    assert_eq!(wl.len(), 1);
    assert_eq!(wl[0].bytes, Scalar::from(10u64).to_bytes()); // z * 2
    assert_eq!(wr[0].bytes, Scalar::from(25u64).to_bytes()); // z^2 * 1
    assert_eq!(wo[0].bytes, Scalar::from(0u64).to_bytes());
    assert_eq!(wv.len(), 1);
    assert_eq!(wv[0].bytes, neg_scalar(100)); // -(z^2 * 4)
    assert_eq!(wc.bytes, neg_scalar(15)); // -(z * 3)
}

fn sample_committed_cs() -> CommittedVerifierCS {
    let (bp, pc) = gens(4);
    let transcript = merlin::Transcript::new(b"test");
    let (mut cs, vars) = VerifierCS::new(bp, pc, transcript, vec![basepoint_mult(9)]);
    let (l, r, o) = cs
        .assign_multiplier(
            Assignment::<OpaqueScalar>::Missing,
            Assignment::Missing,
            Assignment::Missing,
        )
        .unwrap();
    let mut lc = LinearCombination::new();
    lc.push_term(l.index, OpaqueScalar::from_u64(2));
    lc.push_term(r.index, OpaqueScalar::from_u64(6));
    lc.push_term(o.index, OpaqueScalar::from_u64(11));
    lc.push_term(vars[0].index, OpaqueScalar::from_u64(3));
    cs.add_constraint(lc);
    cs.commit()
}

/// Two gadget runs producing identical constraint lists derive identical
/// weights from the same challenge.
#[test]
fn flatten_is_deterministic() {
    let one = sample_committed_cs();
    let two = sample_committed_cs();
    let z = scalar(77);
    let (wl1, wr1, wo1, wv1, wc1) = one.flattened_constraints(&z);
    let (wl2, wr2, wo2, wv2, wc2) = two.flattened_constraints(&z);
    for i in 0..wl1.len() {
        assert_eq!(wl1[i].bytes, wl2[i].bytes);
        assert_eq!(wr1[i].bytes, wr2[i].bytes);
        assert_eq!(wo1[i].bytes, wo2[i].bytes);
    }
    assert_eq!(wv1[0].bytes, wv2[0].bytes);
    assert_eq!(wc1.bytes, wc2.bytes);
}

/// Inserting a trivially-zero constraint — no terms, or terms with zero
/// coefficients — leaves every flattened weight unchanged.
#[test]
fn flatten_ignores_trivially_zero_constraint() {
    let plain = sample_committed_cs();
    let mut with_empty = sample_committed_cs();
    with_empty.add_constraint(LinearCombination::new());
    let mut with_zero = sample_committed_cs();
    let mut zero_lc = LinearCombination::new();
    zero_lc.push_term(VariableIndex::MultiplierLeft(0), OpaqueScalar::from_u64(0));
    zero_lc.push_term(VariableIndex::One, OpaqueScalar::from_u64(0));
    with_zero.add_constraint(zero_lc);
    let z = scalar(13);
    let (wl0, wr0, wo0, wv0, wc0) = plain.flattened_constraints(&z);
    let (wl1, _wr1, _wo1, wv1, wc1) = with_empty.flattened_constraints(&z);
    let (wl2, wr2, wo2, wv2, wc2) = with_zero.flattened_constraints(&z);
    assert_eq!(wl0[0].bytes, wl1[0].bytes);
    assert_eq!(wv0[0].bytes, wv1[0].bytes);
    assert_eq!(wc0.bytes, wc1.bytes);
    assert_eq!(wl0[0].bytes, wl2[0].bytes);
    assert_eq!(wr0[0].bytes, wr2[0].bytes);
    assert_eq!(wo0[0].bytes, wo2[0].bytes);
    assert_eq!(wv0[0].bytes, wv2[0].bytes);
    assert_eq!(wc0.bytes, wc2.bytes);
}

/// Opaque-scalar arithmetic reaches the flattened weights: the
/// coefficient `(2 * 3 + 4) - 1` weighs exactly `9 * z`, and negation
/// flips the sign.
#[test]
fn opaque_scalar_arithmetic_through_flattening() {
    let (bp, pc) = gens(4);
    let transcript = merlin::Transcript::new(b"test");
    let (mut cs, _vars) = VerifierCS::new(bp, pc, transcript, Vec::new());
    let (l, r, _o) = cs
        .assign_multiplier(
            Assignment::<OpaqueScalar>::Missing,
            Assignment::Missing,
            Assignment::Missing,
        )
        .unwrap();
    let coeff = OpaqueScalar::from_u64(2)
        .times(&OpaqueScalar::from_u64(3))
        .plus(&OpaqueScalar::from_u64(4))
        .minus(&OpaqueScalar::from_u64(1));
    let mut lc = LinearCombination::new();
    lc.push_term(l.index, coeff);
    lc.push_term(r.index, OpaqueScalar::from_u64(1).negated());
    let lc = lc.scaled_by(&OpaqueScalar::from_u64(2));
    cs.add_constraint(lc);
    let committed = cs.commit();
    let z = scalar(1);
    let (wl, wr, _wo, _wv, _wc) = committed.flattened_constraints(&z);
    assert_eq!(wl[0].bytes, Scalar::from(18u64).to_bytes()); // 2 * 9
    assert_eq!(wr[0].bytes, neg_scalar(2)); // 2 * (-1)
}

/// A generator set smaller than the padded multiplier count is the one
/// recoverable pre-check failure.
#[test]
fn undersized_generators_rejected() {
    let (bp, pc) = gens(0);
    let transcript = merlin::Transcript::new(b"test");
    let (mut cs, _vars) = VerifierCS::new(bp, pc, transcript, Vec::new());
    cs.assign_multiplier(
        Assignment::<OpaqueScalar>::Missing,
        Assignment::Missing,
        Assignment::Missing,
    )
    .unwrap();
    let committed = cs.commit();
    let res = committed.verify(&trivial_proof());
    assert_eq!(res, Err(R1CSError::InvalidGeneratorsLength));
}

/// Truncating `L_vec` by one element makes the inner-product vectors
/// malformed, and the proof is rejected before any challenge-dependent
/// work.
#[test]
fn truncated_l_vec_rejected() {
    let (bp, pc) = gens(4);
    let transcript = merlin::Transcript::new(b"test");
    let (mut cs, _vars) = VerifierCS::new(bp, pc, transcript, Vec::new());
    cs.assign_multiplier(
        Assignment::<OpaqueScalar>::Missing,
        Assignment::Missing,
        Assignment::Missing,
    )
    .unwrap();
    let committed = cs.commit();
    // one multiplier: the padded count is 1, so both vectors must be empty.
    let mut proof = trivial_proof();
    proof.ipp_proof.R_vec = vec![basepoint_mult(4)];
    let res = committed.verify(&proof);
    assert_eq!(res, Err(R1CSError::FormatError));
}

/// With two multipliers the padded count is 2: one halving round is
/// required, so empty inner-product vectors are malformed too.
#[test]
fn wrong_round_count_rejected() {
    let (bp, pc) = gens(4);
    let transcript = merlin::Transcript::new(b"test");
    let (mut cs, _vars) = VerifierCS::new(bp, pc, transcript, Vec::new());
    for _ in 0..2 {
        cs.assign_multiplier(
            Assignment::<OpaqueScalar>::Missing,
            Assignment::Missing,
            Assignment::Missing,
        )
        .unwrap();
    }
    let committed = cs.commit();
    let res = committed.verify(&trivial_proof());
    assert_eq!(res, Err(R1CSError::FormatError));
}

/// The empty constraint system with all-identity commitments and
/// all-zero scalars verifies: its mega-check is a combination of
/// identity points with zero weights on the bases.
#[test]
fn empty_cs_trivial_proof_accepts() {
    let (bp, pc) = gens(4);
    let transcript = merlin::Transcript::new(b"test");
    let (cs, _vars) = VerifierCS::new(bp, pc, transcript, vec![basepoint_mult(5)]);
    let committed = cs.commit();
    let res = committed.verify(&trivial_proof());
    assert_eq!(res, Ok(()));
}

/// Tampering with a single scalar of an otherwise accepting proof makes
/// the mega-check land off the identity.
#[test]
fn tampered_blinding_rejected() {
    let (bp, pc) = gens(4);
    let transcript = merlin::Transcript::new(b"test");
    let (cs, _vars) = VerifierCS::new(bp, pc, transcript, vec![basepoint_mult(5)]);
    let committed = cs.commit();
    let mut proof = trivial_proof();
    proof.e_blinding = scalar(1);
    let res = committed.verify(&proof);
    assert_eq!(res, Err(R1CSError::VerificationError));
}

/// A commitment that is not a canonical group encoding fails
/// decompression, and the failure is reported as the one opaque
/// verification error.
#[test]
fn malformed_point_rejected() {
    let (bp, pc) = gens(4);
    let transcript = merlin::Transcript::new(b"test");
    let (cs, _vars) = VerifierCS::new(bp, pc, transcript, Vec::new());
    let committed = cs.commit();
    let mut proof = trivial_proof();
    proof.A_I = PointBytes { bytes: [0xffu8; 32] };
    let res = committed.verify(&proof);
    assert_eq!(res, Err(R1CSError::VerificationError));
}

/// With the randomization scalar pinned, verification is a function of
/// the committed system and the proof alone: repeated runs agree, for an
/// accepting proof and for a rejected one.
#[test]
fn verify_with_randomizer_is_deterministic() {
    for r in [scalar(3), scalar(415), scalar(123456789)] {
        let (bp, pc) = gens(4);
        let transcript = merlin::Transcript::new(b"test");
        let (cs, _vars) = VerifierCS::new(bp, pc, transcript, vec![basepoint_mult(5)]);
        let committed = cs.commit();
        assert_eq!(committed.verify_with_randomizer(&trivial_proof(), &r), Ok(()));

        let (bp, pc) = gens(4);
        let transcript = merlin::Transcript::new(b"test");
        let (cs, _vars) = VerifierCS::new(bp, pc, transcript, vec![basepoint_mult(5)]);
        let committed = cs.commit();
        let mut proof = trivial_proof();
        proof.t_x = scalar(2);
        assert_eq!(
            committed.verify_with_randomizer(&proof, &r),
            Err(R1CSError::VerificationError)
        );
    }
}

/// Challenges drawn after the commitment transition are deterministic in
/// the transcript history: identical runs see identical challenge
/// scalars, observable once a challenge is used as a coefficient.
#[test]
fn post_commitment_challenges_deterministic() {
    let run = || {
        let (bp, pc) = gens(4);
        let transcript = merlin::Transcript::new(b"test");
        let (mut cs, _vars) = VerifierCS::new(bp, pc, transcript, vec![basepoint_mult(5)]);
        let (l, _r, _o) = cs
            .assign_multiplier(
                Assignment::<OpaqueScalar>::Missing,
                Assignment::Missing,
                Assignment::Missing,
            )
            .unwrap();
        let mut committed = cs.commit();
        let c = committed.challenge_scalar("gadget");
        let mut lc = LinearCombination::new();
        lc.push_term(l.index, c);
        committed.add_constraint(lc);
        let z = scalar(2);
        let (wl, _wr, _wo, _wv, _wc) = committed.flattened_constraints(&z);
        wl[0].bytes
    };
    let a = run();
    let b = run();
    assert_eq!(a, b);
    // the challenge is uniform, so it is not the zero scalar
    assert_ne!(a, [0u8; 32]);
}

/// The external commitments are bound into the transcript: two runs that
/// differ only in a commitment see different challenge scalars.
#[test]
fn absorbed_commitments_bind_challenges() {
    let run = |com: PointBytes| {
        let (bp, pc) = gens(4);
        let transcript = merlin::Transcript::new(b"test");
        let (mut cs, _vars) = VerifierCS::new(bp, pc, transcript, vec![com]);
        let (l, _r, _o) = cs
            .assign_multiplier(
                Assignment::<OpaqueScalar>::Missing,
                Assignment::Missing,
                Assignment::Missing,
            )
            .unwrap();
        let mut committed = cs.commit();
        let c = committed.challenge_scalar("gadget");
        let mut lc = LinearCombination::new();
        lc.push_term(l.index, c);
        committed.add_constraint(lc);
        let (wl, _wr, _wo, _wv, _wc) = committed.flattened_constraints(&scalar(1));
        wl[0].bytes
    };
    assert_ne!(run(basepoint_mult(5)), run(basepoint_mult(6)));
}

/// Assignments lift arithmetic through missingness: the verifier's
/// missing assignments stay missing under every operation.
#[test]
fn assignment_arithmetic_lifts_missingness() {
    let v = Assignment::Value(OpaqueScalar::from_u64(4));
    let w = Assignment::Value(OpaqueScalar::from_u64(2));
    assert!(matches!(v.plus(w), Assignment::Value(_)));
    assert!(matches!(v.times(w), Assignment::Value(_)));
    assert!(matches!(v.minus(w), Assignment::Value(_)));
    assert!(matches!(
        v.plus(Assignment::Missing),
        Assignment::Missing
    ));
    assert!(matches!(
        Assignment::<OpaqueScalar>::Missing.times(w),
        Assignment::Missing
    ));
}

/// With no externals at all there are no `V` contributions, and the
/// trivial proof still verifies over the empty system.
#[test]
fn no_externals_trivial_proof_accepts() {
    let (bp, pc) = gens(4);
    let transcript = merlin::Transcript::new(b"test");
    let (cs, vars) = VerifierCS::new(bp, pc, transcript, Vec::new());
    assert!(vars.is_empty());
    let committed = cs.commit();
    assert_eq!(committed.verify(&trivial_proof()), Ok(()));
}
