//! Consuming a committed constraint system and an R1CS proof: the
//! protocol-ordered transcript traffic, the flattened weights, and the
//! single multiscalar equation — the mega-check — whose equality to the
//! group identity decides acceptance.

#![allow(non_snake_case)]

use vstd::prelude::*;
use crate::cs::CommittedVerifierCS;
use crate::errors::R1CSError;
use crate::generators::BulletproofGens;
use crate::field::{
    fadd, finv, fmul, fneg, fpow, fsub, group_order, lemma_next_pow2_ge, next_pow2,
};
use crate::flatten::{FlatWeights, flatten_cs};
use crate::ipp::{InnerProductProof, ipp_format_ok, ipp_u, prod_finv, s_value};
use crate::points::{PointBytes, identity_encoding, msm_result, pviews, ristretto_msm, svals};
use crate::scalar::{
    ScalarBytes, scalar_add, scalar_from_u64, scalar_invert, scalar_mul, scalar_neg, scalar_sub,
    sval,
};
use crate::transcript::{
    TsEntry, chal_scalar, challenge_scalar as challenge_scalar_ts, scalar_random,
    transcript_append_bytes32, transcript_rng, ts_log,
};

verus! {

/// The proof object the verifier consumes: three pre-challenge
/// commitments, five polynomial coefficient commitments (the second
/// coefficient is absent by construction), three scalars, and the
/// embedded inner-product argument.
#[derive(Clone, Debug)]
pub struct R1CSProof {
    pub A_I: PointBytes,
    pub A_O: PointBytes,
    pub S: PointBytes,
    pub T_1: PointBytes,
    pub T_3: PointBytes,
    pub T_4: PointBytes,
    pub T_5: PointBytes,
    pub T_6: PointBytes,
    pub t_x: ScalarBytes,
    pub t_x_blinding: ScalarBytes,
    pub e_blinding: ScalarBytes,
    pub ipp_proof: InnerProductProof,
}

/// The transcript history once `A_I`, `A_O`, `S` are absorbed.
pub open spec fn log_pre_y(log0: Seq<TsEntry>, proof: R1CSProof) -> Seq<TsEntry> {
    log0.push(TsEntry::Msg { label: "A_I"@, body: proof.A_I.bytes@ }).push(
        TsEntry::Msg { label: "A_O"@, body: proof.A_O.bytes@ },
    ).push(TsEntry::Msg { label: "S"@, body: proof.S.bytes@ })
}

/// The challenge `y`.
pub open spec fn challenge_y(log0: Seq<TsEntry>, proof: R1CSProof) -> nat {
    chal_scalar(log_pre_y(log0, proof), "y"@)
}

/// The history once `y` is drawn.
pub open spec fn log_pre_z(log0: Seq<TsEntry>, proof: R1CSProof) -> Seq<TsEntry> {
    log_pre_y(log0, proof).push(TsEntry::Chal { label: "y"@ })
}

/// The challenge `z`, which flattens the constraints.
pub open spec fn challenge_z(log0: Seq<TsEntry>, proof: R1CSProof) -> nat {
    chal_scalar(log_pre_z(log0, proof), "z"@)
}

/// The history once the five `T` commitments are absorbed.
pub open spec fn log_pre_x(log0: Seq<TsEntry>, proof: R1CSProof) -> Seq<TsEntry> {
    log_pre_z(log0, proof).push(TsEntry::Chal { label: "z"@ }).push(
        TsEntry::Msg { label: "T_1"@, body: proof.T_1.bytes@ },
    ).push(TsEntry::Msg { label: "T_3"@, body: proof.T_3.bytes@ }).push(
        TsEntry::Msg { label: "T_4"@, body: proof.T_4.bytes@ },
    ).push(TsEntry::Msg { label: "T_5"@, body: proof.T_5.bytes@ }).push(
        TsEntry::Msg { label: "T_6"@, body: proof.T_6.bytes@ },
    )
}

/// The challenge `x`.
pub open spec fn challenge_x(log0: Seq<TsEntry>, proof: R1CSProof) -> nat {
    chal_scalar(log_pre_x(log0, proof), "x"@)
}

/// The history once the three proof scalars are absorbed.
pub open spec fn log_pre_w(log0: Seq<TsEntry>, proof: R1CSProof) -> Seq<TsEntry> {
    log_pre_x(log0, proof).push(TsEntry::Chal { label: "x"@ }).push(
        TsEntry::Msg { label: "t_x"@, body: proof.t_x.bytes@ },
    ).push(TsEntry::Msg { label: "t_x_blinding"@, body: proof.t_x_blinding.bytes@ }).push(
        TsEntry::Msg { label: "e_blinding"@, body: proof.e_blinding.bytes@ },
    )
}

/// The challenge `w`.
pub open spec fn challenge_w(log0: Seq<TsEntry>, proof: R1CSProof) -> nat {
    chal_scalar(log_pre_w(log0, proof), "w"@)
}

/// The history handed to the inner-product subverifier.
pub open spec fn log_pre_ipp(log0: Seq<TsEntry>, proof: R1CSProof) -> Seq<TsEntry> {
    log_pre_w(log0, proof).push(TsEntry::Chal { label: "w"@ })
}

/// The inner-product round challenges.
pub open spec fn ipp_us(log0: Seq<TsEntry>, proof: R1CSProof) -> Seq<nat> {
    Seq::new(
        proof.ipp_proof.L_vec@.len(),
        |j: int|
            ipp_u(
                log_pre_ipp(log0, proof),
                pviews(proof.ipp_proof.L_vec@),
                pviews(proof.ipp_proof.R_vec@),
                j as nat,
            ),
    )
}

/// `wR` folded against the inverse powers of `y`, zero on the padding.
pub open spec fn yneg_wr_at(wr: Seq<nat>, yinv: nat, n: nat, i: int) -> nat {
    if 0 <= i < n {
        fmul(wr[i], fpow(yinv, i as nat))
    } else {
        0
    }
}

/// A weight vector read with zeros on the padding.
pub open spec fn padded_at(v: Seq<nat>, i: int) -> nat {
    if 0 <= i < v.len() {
        v[i]
    } else {
        0
    }
}

/// The inner product of two scalar vectors, in the field.
pub open spec fn fdot(a: Seq<nat>, b: Seq<nat>) -> nat
    decreases a.len(),
{
    if a.len() == 0 {
        0
    } else {
        fadd(fdot(a.drop_last(), b.drop_last()), fmul(a.last(), b.last()))
    }
}

/// The head of the mega-check scalar column: the scalars on `A_I`,
/// `A_O`, `S`, the externals, the five `T` commitments, and the two
/// Pedersen bases.
pub open spec fn mega_head_scalars(
    x: nat,
    w_ch: nat,
    r: nat,
    wv: Seq<nat>,
    wc: nat,
    delta: nat,
    t_x: nat,
    t_x_blinding: nat,
    e_blinding: nat,
    a: nat,
    b: nat,
) -> Seq<nat> {
    let xx = fmul(x, x);
    let xxx = fmul(x, xx);
    let rxx = fmul(r, xx);
    seq![x, xx, xxx] + Seq::new(wv.len(), |i: int| fmul(wv[i], rxx)) + seq![
        fmul(r, x),
        fmul(rxx, x),
        fmul(rxx, xx),
        fmul(rxx, xxx),
        fmul(rxx, fmul(xx, xx)),
    ] + seq![
        fadd(fmul(w_ch, fsub(t_x, fmul(a, b))), fmul(r, fsub(fmul(xx, fadd(wc, delta)), t_x))),
        fsub(fneg(e_blinding), fmul(r, t_x_blinding)),
    ]
}

/// The scalars on the `G` generators: `g_i = x * yneg_wR_i - a * s_i`.
pub open spec fn mega_g_scalars(x: nat, yneg: Seq<nat>, a: nat, s: Seq<nat>) -> Seq<nat> {
    Seq::new(yneg.len(), |i: int| fsub(fmul(x, yneg[i]), fmul(a, s[i])))
}

/// The scalars on the `H` generators:
/// `h_i = y^-i * (x * wL_i + wO_i - b * s_{N-1-i}) - 1`, the weight
/// vectors read as zero on the padding.
pub open spec fn mega_h_scalars(
    x: nat,
    ypows: Seq<nat>,
    wl: Seq<nat>,
    wo: Seq<nat>,
    b: nat,
    s: Seq<nat>,
) -> Seq<nat> {
    Seq::new(
        ypows.len(),
        |i: int|
            fsub(
                fmul(
                    ypows[i],
                    fsub(
                        fadd(fmul(x, padded_at(wl, i)), padded_at(wo, i)),
                        fmul(b, s[ypows.len() - 1 - i]),
                    ),
                ),
                1,
            ),
    )
}

/// The ordered scalars of the mega-check, given the challenges, the
/// randomization scalar `r`, the flattened weights, the proof scalars and
/// the inner-product verification scalars.
pub open spec fn mega_scalars(
    x: nat,
    y: nat,
    w_ch: nat,
    r: nat,
    fw: FlatWeights,
    t_x: nat,
    t_x_blinding: nat,
    e_blinding: nat,
    a: nat,
    b: nat,
    usq: Seq<nat>,
    uinvsq: Seq<nat>,
    s: Seq<nat>,
    n: nat,
    big_n: nat,
) -> Seq<nat> {
    let yinv = finv(y);
    let yneg = Seq::new(big_n, |i: int| yneg_wr_at(fw.wr, yinv, n, i));
    let ypows = Seq::new(big_n, |i: int| fpow(yinv, i as nat));
    let delta = fdot(Seq::new(n, |i: int| yneg_wr_at(fw.wr, yinv, n, i)), fw.wl);
    mega_head_scalars(x, w_ch, r, fw.wv, fw.wc, delta, t_x, t_x_blinding, e_blinding, a, b)
        + mega_g_scalars(x, yneg, a, s) + mega_h_scalars(x, ypows, fw.wl, fw.wo, b, s) + usq
        + uinvsq
}

/// Mapping to field values distributes over concatenation.
pub proof fn lemma_svals_concat(a: Seq<ScalarBytes>, b: Seq<ScalarBytes>)
    ensures
        svals(a + b) == svals(a) + svals(b),
{
    assert(svals(a + b) =~= svals(a) + svals(b));
}

/// Mapping to byte strings distributes over concatenation.
pub proof fn lemma_pviews_concat(a: Seq<PointBytes>, b: Seq<PointBytes>)
    ensures
        pviews(a + b) == pviews(a) + pviews(b),
{
    assert(pviews(a + b) =~= pviews(a) + pviews(b));
}

/// The ordered base points of the mega-check.
pub open spec fn mega_points(
    proof: R1CSProof,
    v: Seq<PointBytes>,
    b: PointBytes,
    b_blinding: PointBytes,
    g: Seq<PointBytes>,
    h: Seq<PointBytes>,
    big_n: nat,
) -> Seq<Seq<u8>> {
    seq![proof.A_I.bytes@, proof.A_O.bytes@, proof.S.bytes@] + pviews(v) + seq![
        proof.T_1.bytes@,
        proof.T_3.bytes@,
        proof.T_4.bytes@,
        proof.T_5.bytes@,
        proof.T_6.bytes@,
    ] + seq![b.bytes@, b_blinding.bytes@] + pviews(g.take(big_n as int)) + pviews(
        h.take(big_n as int),
    ) + pviews(proof.ipp_proof.L_vec@) + pviews(proof.ipp_proof.R_vec@)
}

/// The whole verification equation for a given randomization scalar
/// `rnd`: the mega-check over the scalars and points that the committed
/// system and the proof determine equals the compressed group identity.
pub open spec fn accepts_with(cs: CommittedVerifierCS, proof: R1CSProof, rnd: nat) -> bool {
    let n = cs.multipliers();
    let big_n = next_pow2(n);
    let log0 = cs.log();
    let lg = proof.ipp_proof.L_vec@.len();
    let y = challenge_y(log0, proof);
    let z = challenge_z(log0, proof);
    let x = challenge_x(log0, proof);
    let w_ch = challenge_w(log0, proof);
    let fw = flatten_cs(cs.constraint_list(), n, cs.externals().len(), z);
    let us = ipp_us(log0, proof);
    let usq = Seq::new(lg, |j: int| fmul(us[j], us[j]));
    let uinvsq = Seq::new(lg, |j: int| fmul(finv(us[j]), finv(us[j])));
    let s = Seq::new(big_n, |i: int| s_value(usq, prod_finv(us, lg), lg, i as nat));
    msm_result(
        mega_scalars(
            x,
            y,
            w_ch,
            rnd,
            fw,
            sval(proof.t_x),
            sval(proof.t_x_blinding),
            sval(proof.e_blinding),
            sval(proof.ipp_proof.a),
            sval(proof.ipp_proof.b),
            usq,
            uinvsq,
            s,
            n,
            big_n,
        ),
        mega_points(
            proof,
            cs.externals(),
            cs.pedersen_b(),
            cs.pedersen_b_blinding(),
            cs.gens_g(),
            cs.gens_h(),
            big_n,
        ),
    ) == Some(identity_encoding())
}

/// The least power of two at least `n`, or `None` where it does not fit
/// in the machine word.
fn checked_next_pow2(n: usize) -> (r: Option<usize>)
    ensures
        r matches Some(p) ==> p as nat == next_pow2(n as nat),
        r is None ==> next_pow2(n as nat) > usize::MAX as nat,
    decreases n,
{
    if n <= 1 {
        Some(n)
    } else {
        let half = n / 2 + n % 2;
        proof {
            assert(half as nat == ((n + 1) as nat) / 2);
        }
        match checked_next_pow2(half) {
            None => None,
            Some(p) => {
                if p <= usize::MAX / 2 {
                    Some(2 * p)
                } else {
                    None
                }
            },
        }
    }
}

/// Whether 32 bytes are the compressed encoding of the group identity.
fn bytes32_all_zero(b: &[u8; 32]) -> (r: bool)
    ensures
        r <==> b@ == identity_encoding(),
{
    let mut i: usize = 0;
    while i < 32
        invariant
            i <= 32,
            forall|j: int| 0 <= j < i as int ==> b@[j] == 0,
        decreases 32 - i,
    {
        if b[i] != 0 {
            proof {
                assert(b@[i as int] != identity_encoding()[i as int]);
            }
            return false;
        }
        i = i + 1;
    }
    proof {
        assert(b@ =~= identity_encoding());
    }
    true
}

/// The consecutive powers of a scalar, starting from the zeroth.
fn powers_vec(base: &ScalarBytes, count: usize) -> (r: Vec<ScalarBytes>)
    ensures
        r@.len() == count,
        forall|i: int| 0 <= i < count ==> sval(#[trigger] r@[i]) == fpow(sval(*base), i as nat),
{
    let mut r: Vec<ScalarBytes> = Vec::new();
    let mut cur = scalar_from_u64(1);
    let mut i: usize = 0;
    while i < count
        invariant
            i <= count,
            r@.len() == i as int,
            sval(cur) == fpow(sval(*base), i as nat),
            forall|j: int| 0 <= j < i as int ==> sval(#[trigger] r@[j]) == fpow(sval(*base), j as nat),
        decreases count - i,
    {
        r.push(cur);
        cur = scalar_mul(base, &cur);
        i = i + 1;
    }
    r
}

/// The field inner product of the first `count` entries of two vectors.
fn inner_product_prefix(a: &Vec<ScalarBytes>, b: &Vec<ScalarBytes>, count: usize) -> (r:
    ScalarBytes)
    requires
        count <= a@.len(),
        count <= b@.len(),
    ensures
        sval(r) == fdot(svals(a@).take(count as int), svals(b@).take(count as int)),
{
    let mut acc = ScalarBytes::zero();
    let mut i: usize = 0;
    while i < count
        invariant
            i <= count,
            count <= a@.len(),
            count <= b@.len(),
            sval(acc) == fdot(svals(a@).take(i as int), svals(b@).take(i as int)),
        decreases count - i,
    {
        let ai = a[i];
        let bi = b[i];
        acc = scalar_add(&acc, &scalar_mul(&ai, &bi));
        proof {
            assert(svals(a@).take(i as int + 1).drop_last() =~= svals(a@).take(i as int));
            assert(svals(b@).take(i as int + 1).drop_last() =~= svals(b@).take(i as int));
            assert(svals(a@).take(i as int + 1).last() == sval(a@[i as int]));
            assert(svals(b@).take(i as int + 1).last() == sval(b@[i as int]));
        }
        i = i + 1;
    }
    acc
}

/// Every external weight multiplied by `r * x^2`.
fn v_scalars_vec(wv: &Vec<ScalarBytes>, rxx: &ScalarBytes) -> (r: Vec<ScalarBytes>)
    ensures
        r@.len() == wv@.len(),
        forall|i: int|
            0 <= i < wv@.len() ==> sval(#[trigger] r@[i]) == fmul(sval(wv@[i]), sval(*rxx)),
{
    let mut r: Vec<ScalarBytes> = Vec::new();
    let mut i: usize = 0;
    while i < wv.len()
        invariant
            i <= wv@.len(),
            r@.len() == i as int,
            forall|j: int|
                0 <= j < i as int ==> sval(#[trigger] r@[j]) == fmul(sval(wv@[j]), sval(*rxx)),
        decreases wv@.len() - i,
    {
        let e = wv[i];
        r.push(scalar_mul(&e, rxx));
        i = i + 1;
    }
    r
}

/// `wR` folded against the inverse powers of `y`, zeros on the padding.
fn yneg_wr_vec(wr: &Vec<ScalarBytes>, ypows: &Vec<ScalarBytes>, big_n: usize) -> (r: Vec<
    ScalarBytes,
>)
    requires
        wr@.len() <= big_n,
        ypows@.len() == big_n,
    ensures
        r@.len() == big_n,
        forall|i: int|
            0 <= i < wr@.len() ==> sval(#[trigger] r@[i]) == fmul(sval(wr@[i]), sval(ypows@[i])),
        forall|i: int| wr@.len() <= i < big_n ==> sval(#[trigger] r@[i]) == 0,
{
    let mut r: Vec<ScalarBytes> = Vec::new();
    let mut i: usize = 0;
    while i < big_n
        invariant
            i <= big_n,
            wr@.len() <= big_n,
            ypows@.len() == big_n,
            r@.len() == i as int,
            forall|j: int|
                0 <= j < i as int && j < wr@.len() ==> sval(#[trigger] r@[j]) == fmul(
                    sval(wr@[j]),
                    sval(ypows@[j]),
                ),
            forall|j: int| wr@.len() <= j < i as int ==> sval(#[trigger] r@[j]) == 0,
        decreases big_n - i,
    {
        if i < wr.len() {
            let a = wr[i];
            let b = ypows[i];
            r.push(scalar_mul(&a, &b));
        } else {
            r.push(ScalarBytes::zero());
        }
        i = i + 1;
    }
    r
}

/// Runs the protocol-ordered transcript traffic of the verifier: absorbs
/// the proof's commitments and scalars, draws `(y, z, x, w)`, and leaves
/// the transcript ready for the inner-product subverifier.
fn transcript_phase(t: &mut merlin::Transcript, proof: &R1CSProof) -> (r: (
    ScalarBytes,
    ScalarBytes,
    ScalarBytes,
    ScalarBytes,
))
    ensures
        sval(r.0) == challenge_y(ts_log(*old(t)), *proof),
        sval(r.1) == challenge_z(ts_log(*old(t)), *proof),
        sval(r.2) == challenge_x(ts_log(*old(t)), *proof),
        sval(r.3) == challenge_w(ts_log(*old(t)), *proof),
        ts_log(*final (t)) == log_pre_ipp(ts_log(*old(t)), *proof),
{
    let ghost log0 = ts_log(*t);
    transcript_append_bytes32(t, "A_I", &proof.A_I.bytes);
    transcript_append_bytes32(t, "A_O", &proof.A_O.bytes);
    transcript_append_bytes32(t, "S", &proof.S.bytes);
    proof {
        assert(ts_log(*t) == log_pre_y(log0, *proof));
    }
    let y = challenge_scalar_ts(t, "y");
    let z = challenge_scalar_ts(t, "z");
    transcript_append_bytes32(t, "T_1", &proof.T_1.bytes);
    transcript_append_bytes32(t, "T_3", &proof.T_3.bytes);
    transcript_append_bytes32(t, "T_4", &proof.T_4.bytes);
    transcript_append_bytes32(t, "T_5", &proof.T_5.bytes);
    transcript_append_bytes32(t, "T_6", &proof.T_6.bytes);
    proof {
        assert(ts_log(*t) == log_pre_x(log0, *proof));
    }
    let x = challenge_scalar_ts(t, "x");
    transcript_append_bytes32(t, "t_x", &proof.t_x.bytes);
    transcript_append_bytes32(t, "t_x_blinding", &proof.t_x_blinding.bytes);
    transcript_append_bytes32(t, "e_blinding", &proof.e_blinding.bytes);
    proof {
        assert(ts_log(*t) == log_pre_w(log0, *proof));
    }
    let w_ch = challenge_scalar_ts(t, "w");
    (y, z, x, w_ch)
}

/// The scalars on the `G` generators, elementwise.
fn g_scalars_vec(
    x: &ScalarBytes,
    yneg: &Vec<ScalarBytes>,
    a: &ScalarBytes,
    s: &Vec<ScalarBytes>,
    big_n: usize,
) -> (r: Vec<ScalarBytes>)
    requires
        yneg@.len() == big_n,
        s@.len() == big_n,
    ensures
        r@.len() == big_n,
        svals(r@) == mega_g_scalars(sval(*x), svals(yneg@), sval(*a), svals(s@)),
{
    let mut r: Vec<ScalarBytes> = Vec::new();
    let mut i: usize = 0;
    while i < big_n
        invariant
            i <= big_n,
            yneg@.len() == big_n,
            s@.len() == big_n,
            r@.len() == i as int,
            forall|j: int|
                0 <= j < i as int ==> sval(#[trigger] r@[j]) == fsub(
                    fmul(sval(*x), sval(yneg@[j])),
                    fmul(sval(*a), sval(s@[j])),
                ),
        decreases big_n - i,
    {
        let yn = yneg[i];
        let si = s[i];
        r.push(scalar_sub(&scalar_mul(x, &yn), &scalar_mul(a, &si)));
        i = i + 1;
    }
    proof {
        assert(svals(r@) =~= mega_g_scalars(sval(*x), svals(yneg@), sval(*a), svals(s@)));
    }
    r
}

/// The scalars on the `H` generators, elementwise, the weight vectors
/// read as zero on the padding.
fn h_scalars_vec(
    x: &ScalarBytes,
    ypows: &Vec<ScalarBytes>,
    wl: &Vec<ScalarBytes>,
    wo: &Vec<ScalarBytes>,
    b: &ScalarBytes,
    s: &Vec<ScalarBytes>,
    big_n: usize,
) -> (r: Vec<ScalarBytes>)
    requires
        ypows@.len() == big_n,
        s@.len() == big_n,
        wl@.len() <= big_n,
        wo@.len() == wl@.len(),
    ensures
        r@.len() == big_n,
        svals(r@) == mega_h_scalars(
            sval(*x),
            svals(ypows@),
            svals(wl@),
            svals(wo@),
            sval(*b),
            svals(s@),
        ),
{
    let one = scalar_from_u64(1);
    let zero = ScalarBytes::zero();
    let mut r: Vec<ScalarBytes> = Vec::new();
    let mut i: usize = 0;
    while i < big_n
        invariant
            i <= big_n,
            ypows@.len() == big_n,
            s@.len() == big_n,
            wl@.len() <= big_n,
            wo@.len() == wl@.len(),
            sval(one) == 1,
            sval(zero) == 0,
            r@.len() == i as int,
            forall|j: int|
                0 <= j < i as int ==> sval(#[trigger] r@[j]) == fsub(
                    fmul(
                        sval(ypows@[j]),
                        fsub(
                            fadd(
                                fmul(sval(*x), padded_at(svals(wl@), j)),
                                padded_at(svals(wo@), j),
                            ),
                            fmul(sval(*b), sval(s@[big_n - 1 - j])),
                        ),
                    ),
                    1,
                ),
        decreases big_n - i,
    {
        let wli = if i < wl.len() {
            wl[i]
        } else {
            zero
        };
        let woi = if i < wo.len() {
            wo[i]
        } else {
            zero
        };
        let yp = ypows[i];
        let srev = s[big_n - 1 - i];
        let inner = scalar_sub(&scalar_add(&scalar_mul(x, &wli), &woi), &scalar_mul(b, &srev));
        r.push(scalar_sub(&scalar_mul(&yp, &inner), &one));
        i = i + 1;
    }
    proof {
        assert(svals(r@) =~= mega_h_scalars(
            sval(*x),
            svals(ypows@),
            svals(wl@),
            svals(wo@),
            sval(*b),
            svals(s@),
        ));
    }
    r
}

/// The head of the mega-check scalar column.
#[verifier::spinoff_prover]
#[verifier::rlimit(100)]
fn head_scalars_vec(
    x: &ScalarBytes,
    w_ch: &ScalarBytes,
    rnd: &ScalarBytes,
    wv_v: &Vec<ScalarBytes>,
    wc_s: &ScalarBytes,
    delta: &ScalarBytes,
    t_x: &ScalarBytes,
    t_x_blinding: &ScalarBytes,
    e_blinding: &ScalarBytes,
    a_s: &ScalarBytes,
    b_s: &ScalarBytes,
) -> (r: Vec<ScalarBytes>)
    ensures
        r@.len() == 10 + wv_v@.len(),
        svals(r@) == mega_head_scalars(
            sval(*x),
            sval(*w_ch),
            sval(*rnd),
            svals(wv_v@),
            sval(*wc_s),
            sval(*delta),
            sval(*t_x),
            sval(*t_x_blinding),
            sval(*e_blinding),
            sval(*a_s),
            sval(*b_s),
        ),
{
    let xx = scalar_mul(x, x);
    let xxx = scalar_mul(x, &xx);
    let rxx = scalar_mul(rnd, &xx);
    let t_1 = scalar_mul(rnd, x);
    let t_2 = scalar_mul(&rxx, x);
    let t_3 = scalar_mul(&rxx, &xx);
    let t_4 = scalar_mul(&rxx, &xxx);
    let t_5 = scalar_mul(&rxx, &scalar_mul(&xx, &xx));
    let vs = v_scalars_vec(wv_v, &rxx);
    let b_sc = scalar_add(
        &scalar_mul(w_ch, &scalar_sub(t_x, &scalar_mul(a_s, b_s))),
        &scalar_mul(rnd, &scalar_sub(&scalar_mul(&xx, &scalar_add(wc_s, delta)), t_x)),
    );
    let bb_sc = scalar_sub(&scalar_neg(e_blinding), &scalar_mul(rnd, t_x_blinding));
    let mut r: Vec<ScalarBytes> = Vec::new();
    r.push(*x);
    r.push(xx);
    r.push(xxx);
    proof {
        assert(svals(r@) =~= seq![sval(*x), fmul(sval(*x), sval(*x))].push(
            fmul(sval(*x), fmul(sval(*x), sval(*x))),
        ));
    }
    let ghost snap1 = svals(r@);
    let mut vs_m = vs;
    r.append(&mut vs_m);
    proof {
        assert(svals(r@) =~= snap1 + svals(vs@));
    }
    let ghost snap2 = svals(r@);
    r.push(t_1);
    r.push(t_2);
    r.push(t_3);
    r.push(t_4);
    r.push(t_5);
    r.push(b_sc);
    r.push(bb_sc);
    proof {
        assert(svals(r@) =~= snap2 + seq![
            sval(t_1),
            sval(t_2),
            sval(t_3),
            sval(t_4),
            sval(t_5),
            sval(b_sc),
            sval(bb_sc),
        ]);
        assert(svals(vs@) =~= Seq::new(
            svals(wv_v@).len(),
            |i: int| fmul(svals(wv_v@)[i], sval(rxx)),
        ));
        assert(svals(r@) =~= mega_head_scalars(
            sval(*x),
            sval(*w_ch),
            sval(*rnd),
            svals(wv_v@),
            sval(*wc_s),
            sval(*delta),
            sval(*t_x),
            sval(*t_x_blinding),
            sval(*e_blinding),
            sval(*a_s),
            sval(*b_s),
        ));
    }
    r
}

/// A copy of the first `count` generators of a vector.
fn prefix_points(v: &Vec<PointBytes>, count: usize) -> (r: Vec<PointBytes>)
    requires
        count <= v@.len(),
    ensures
        r@ == v@.take(count as int),
{
    let mut r: Vec<PointBytes> = Vec::new();
    let mut i: usize = 0;
    while i < count
        invariant
            i <= count,
            count <= v@.len(),
            r@.len() == i as int,
            forall|j: int| 0 <= j < i as int ==> (#[trigger] r@[j]) == v@[j],
        decreases count - i,
    {
        let p = v[i];
        r.push(p);
        i = i + 1;
    }
    proof {
        assert(r@ =~= v@.take(count as int));
    }
    r
}

/// Builds the ordered base-point column of the mega-check.
#[verifier::spinoff_prover]
fn assemble_points(
    proof: &R1CSProof,
    v: Vec<PointBytes>,
    b: PointBytes,
    b_blinding: PointBytes,
    bp_gens: &BulletproofGens,
    big_n: usize,
) -> (r: Vec<PointBytes>)
    requires
        big_n <= bp_gens.g().len(),
        big_n <= bp_gens.h().len(),
    ensures
        r@.len() == 10 + v@.len() + 2 * big_n + proof.ipp_proof.L_vec@.len()
            + proof.ipp_proof.R_vec@.len(),
        pviews(r@) == mega_points(
            *proof,
            v@,
            b,
            b_blinding,
            bp_gens.g(),
            bp_gens.h(),
            big_n as nat,
        ),
{
    let ghost v0 = v@;
    let mut points: Vec<PointBytes> = Vec::new();
    points.push(proof.A_I);
    points.push(proof.A_O);
    points.push(proof.S);
    proof {
        assert(pviews(points@) =~= seq![proof.A_I.bytes@, proof.A_O.bytes@, proof.S.bytes@]);
    }
    let ghost psnap1 = pviews(points@);
    let mut v_m = v;
    points.append(&mut v_m);
    proof {
        assert(pviews(points@) =~= psnap1 + pviews(v0));
    }
    let ghost psnap2 = pviews(points@);
    points.push(proof.T_1);
    points.push(proof.T_3);
    points.push(proof.T_4);
    points.push(proof.T_5);
    points.push(proof.T_6);
    points.push(b);
    points.push(b_blinding);
    proof {
        assert(pviews(points@) =~= psnap2 + seq![
            proof.T_1.bytes@,
            proof.T_3.bytes@,
            proof.T_4.bytes@,
            proof.T_5.bytes@,
            proof.T_6.bytes@,
        ] + seq![b.bytes@, b_blinding.bytes@]);
    }
    let ghost psnap3 = pviews(points@);
    let gp = prefix_points(bp_gens.g_vec_ref(), big_n);
    let mut gp_m = gp;
    points.append(&mut gp_m);
    proof {
        assert(pviews(points@) =~= psnap3 + pviews(bp_gens.g().take(big_n as int)));
    }
    let ghost psnap4 = pviews(points@);
    let hp = prefix_points(bp_gens.h_vec_ref(), big_n);
    let mut hp_m = hp;
    points.append(&mut hp_m);
    proof {
        assert(pviews(points@) =~= psnap4 + pviews(bp_gens.h().take(big_n as int)));
    }
    let ghost psnap5 = pviews(points@);
    let lg = proof.ipp_proof.L_vec.len();
    let lp = prefix_points(&proof.ipp_proof.L_vec, lg);
    let mut lp_m = lp;
    points.append(&mut lp_m);
    proof {
        assert(proof.ipp_proof.L_vec@.take(lg as int) =~= proof.ipp_proof.L_vec@);
        assert(pviews(points@) =~= psnap5 + pviews(proof.ipp_proof.L_vec@));
    }
    let ghost psnap6 = pviews(points@);
    let rg = proof.ipp_proof.R_vec.len();
    let rp = prefix_points(&proof.ipp_proof.R_vec, rg);
    let mut rp_m = rp;
    points.append(&mut rp_m);
    proof {
        assert(proof.ipp_proof.R_vec@.take(rg as int) =~= proof.ipp_proof.R_vec@);
        assert(pviews(points@) =~= psnap6 + pviews(proof.ipp_proof.R_vec@));
        assert(pviews(points@) =~= mega_points(
            *proof,
            v0,
            b,
            b_blinding,
            bp_gens.g(),
            bp_gens.h(),
            big_n as nat,
        ));
    }
    points
}

impl CommittedVerifierCS {
    /// The whole verification pipeline, with the randomization scalar
    /// either supplied or drawn from the transcript RNG.
    #[verifier::spinoff_prover]
    #[verifier::rlimit(100)]
    fn verify_inner(self, proof: &R1CSProof, forced: Option<ScalarBytes>) -> (res: Result<
        (),
        R1CSError,
    >)
        requires
            self.gens_wf(),
            self.constraints_in_range(),
        ensures
            ({
                let big_n = next_pow2(self.multipliers());
                let gens_ok = self.gens_g().len() >= big_n;
                let fmt_ok = ipp_format_ok(
                    proof.ipp_proof.L_vec@.len(),
                    proof.ipp_proof.R_vec@.len(),
                    big_n,
                );
                &&& (res matches Err(e) ==> (e == R1CSError::InvalidGeneratorsLength || e
                    == R1CSError::FormatError || e == R1CSError::VerificationError))
                &&& ((res matches Err(e) && e == R1CSError::InvalidGeneratorsLength) <==> !gens_ok)
                &&& (gens_ok ==> ((res matches Err(e) && e == R1CSError::FormatError) <==> !fmt_ok))
                &&& (forced matches Some(fr) ==> ((gens_ok && fmt_ok) ==> (res is Ok
                    <==> accepts_with(self, *proof, sval(fr)))))
                &&& ((gens_ok && fmt_ok && forced is None) ==> (exists|rnd: nat|
                    rnd < group_order() && (res is Ok <==> accepts_with(self, *proof, rnd))))
                &&& (res is Ok ==> (exists|rnd: nat|
                    rnd < group_order() && accepts_with(self, *proof, rnd)))
            }),
    {
        let mut this = self;
        let ghost cs0 = this;
        let ghost log0 = this.log();
        let n = this.cs.num_vars;
        let ghost nn = cs0.multipliers();
        let ghost mm = cs0.externals().len();

        let capacity = this.cs.bp_gens.gens_capacity();
        let big_n = match checked_next_pow2(n) {
            None => {
                return Err(R1CSError::InvalidGeneratorsLength);
            },
            Some(p) => p,
        };
        if capacity < big_n {
            return Err(R1CSError::InvalidGeneratorsLength);
        }
        let ghost big_nn = next_pow2(nn);
        proof {
            assert(big_n as nat == big_nn);
            lemma_next_pow2_ge(nn);
        }

        let (y, z, x, w_ch) = transcript_phase(&mut this.cs.transcript, proof);
        proof {
            assert(sval(y) == challenge_y(log0, *proof));
            assert(sval(z) == challenge_z(log0, *proof));
            assert(sval(x) == challenge_x(log0, *proof));
            assert(sval(w_ch) == challenge_w(log0, *proof));
            assert(ts_log(this.cs.transcript) == log_pre_ipp(log0, *proof));
            assert(this.constraint_list() == cs0.constraint_list());
            assert(this.constraints_in_range());
        }
        let (wl_v, wr_v, wo_v, wv_v, wc_s) = this.flattened_constraints(&z);
        let ghost fw = flatten_cs(cs0.constraint_list(), nn, mm, challenge_z(log0, *proof));
        proof {
            assert(svals(wl_v@) == fw.wl);
            assert(svals(wr_v@) == fw.wr);
            assert(svals(wo_v@) == fw.wo);
            assert(svals(wv_v@) == fw.wv);
            assert(sval(wc_s) == fw.wc);
        }

        let lg = proof.ipp_proof.L_vec.len();
        let ghost ls = pviews(proof.ipp_proof.L_vec@);
        let ghost rs = pviews(proof.ipp_proof.R_vec@);
        let (u_sq, u_inv_sq, s_vec) = match proof.ipp_proof.verification_scalars(
            &mut this.cs.transcript,
            big_n,
        ) {
            Err(_e) => {
                return Err(R1CSError::FormatError);
            },
            Ok(t) => t,
        };
        let ghost usv = ipp_us(log0, *proof);
        let ghost usq_spec = Seq::new(lg as nat, |j: int| fmul(usv[j], usv[j]));
        let ghost uinvsq_spec = Seq::new(lg as nat, |j: int| fmul(finv(usv[j]), finv(usv[j])));
        let ghost s_spec = Seq::new(
            big_nn,
            |i: int| s_value(usq_spec, prod_finv(usv, lg as nat), lg as nat, i as nat),
        );
        proof {
            assert(usv =~= Seq::new(
                lg as nat,
                |j: int| ipp_u(log_pre_ipp(log0, *proof), ls, rs, j as nat),
            ));
            assert(svals(u_sq@) =~= usq_spec);
            assert(svals(u_inv_sq@) =~= uinvsq_spec);
            assert(svals(s_vec@) =~= s_spec);
        }

        let y_inv = scalar_invert(&y);
        let ghost yinv_g = finv(challenge_y(log0, *proof));
        let ypows = powers_vec(&y_inv, big_n);
        let yneg = yneg_wr_vec(&wr_v, &ypows, big_n);
        proof {
            assert forall|i: int| 0 <= i < big_nn implies sval(#[trigger] yneg@[i]) == yneg_wr_at(
                fw.wr,
                yinv_g,
                nn,
                i,
            ) by {
                if i < nn {
                    assert(sval(yneg@[i]) == fmul(sval(wr_v@[i]), sval(ypows@[i])));
                    assert(sval(wr_v@[i]) == fw.wr[i]);
                }
            }
        }
        let delta = inner_product_prefix(&yneg, &wl_v, n);
        proof {
            assert(svals(yneg@).take(n as int) =~= Seq::new(
                nn,
                |i: int| yneg_wr_at(fw.wr, yinv_g, nn, i),
            ));
            assert(svals(wl_v@).take(n as int) =~= fw.wl);
            assert(sval(delta) == fdot(
                Seq::new(nn, |i: int| yneg_wr_at(fw.wr, yinv_g, nn, i)),
                fw.wl,
            ));
        }

        let rnd = match forced {
            Some(fr) => fr,
            None => {
                let mut rng = transcript_rng(&this.cs.transcript);
                scalar_random(&mut rng)
            },
        };
        let ghost rv = sval(rnd);

        let a_s = proof.ipp_proof.a;
        let b_s = proof.ipp_proof.b;
        let head = head_scalars_vec(
            &x,
            &w_ch,
            &rnd,
            &wv_v,
            &wc_s,
            &delta,
            &proof.t_x,
            &proof.t_x_blinding,
            &proof.e_blinding,
            &a_s,
            &b_s,
        );
        let gs = g_scalars_vec(&x, &yneg, &a_s, &s_vec, big_n);
        let hs = h_scalars_vec(&x, &ypows, &wl_v, &wo_v, &b_s, &s_vec, big_n);
        let ghost gs0 = gs@;
        let ghost hs0 = hs@;
        let ghost usq0 = u_sq@;
        let ghost uis0 = u_inv_sq@;
        let mut scalars = head;
        let mut gs_m = gs;
        proof {
            lemma_svals_concat(scalars@, gs0);
        }
        scalars.append(&mut gs_m);
        let mut hs_m = hs;
        proof {
            lemma_svals_concat(scalars@, hs0);
        }
        scalars.append(&mut hs_m);
        let mut usq_m = u_sq;
        proof {
            lemma_svals_concat(scalars@, usq0);
        }
        scalars.append(&mut usq_m);
        let mut uis_m = u_inv_sq;
        proof {
            lemma_svals_concat(scalars@, uis0);
        }
        scalars.append(&mut uis_m);
        let ghost mega_s = mega_scalars(
            sval(x),
            sval(y),
            sval(w_ch),
            rv,
            fw,
            sval(proof.t_x),
            sval(proof.t_x_blinding),
            sval(proof.e_blinding),
            sval(a_s),
            sval(b_s),
            usq_spec,
            uinvsq_spec,
            s_spec,
            nn,
            big_nn,
        );
        proof {
            assert(svals(ypows@) =~= Seq::new(big_nn, |i: int| fpow(yinv_g, i as nat)));
            assert(svals(yneg@) =~= Seq::new(big_nn, |i: int| yneg_wr_at(fw.wr, yinv_g, nn, i)));
            assert(svals(scalars@) == mega_s);
        }

        let cs_inner = this.cs;
        let points = assemble_points(
            proof,
            cs_inner.v,
            cs_inner.pc_gens.B,
            cs_inner.pc_gens.B_blinding,
            &cs_inner.bp_gens,
            big_n,
        );
        let ghost mega_p = mega_points(
            *proof,
            cs0.externals(),
            cs0.pedersen_b(),
            cs0.pedersen_b_blinding(),
            cs0.gens_g(),
            cs0.gens_h(),
            big_nn,
        );
        proof {
            assert(pviews(points@) == mega_p);
            assert(scalars@.len() == points@.len());
        }

        let res: Result<(), R1CSError> = match ristretto_msm(&scalars, &points) {
            None => Err(R1CSError::VerificationError),
            Some(pt) => {
                if bytes32_all_zero(&pt.bytes) {
                    Ok(())
                } else {
                    Err(R1CSError::VerificationError)
                }
            },
        };
        proof {
            assert(res is Ok <==> msm_result(mega_s, mega_p) == Some(identity_encoding()));
            assert(res is Ok <==> accepts_with(cs0, *proof, rv));
            assert(rv < group_order());
        }
        res
    }
    /// Consumes the committed system and decides the supplied proof: the
    /// protocol-ordered transcript traffic, the flattened constraints and
    /// the inner-product scalars feed the single mega-check, and the
    /// proof is accepted exactly when that multiscalar combination is the
    /// group identity. The randomization scalar is drawn from the
    /// transcript RNG mixed with operating-system entropy.
    pub fn verify(self, proof: &R1CSProof) -> (res: Result<(), R1CSError>)
        requires
            self.gens_wf(),
            self.constraints_in_range(),
        ensures
            ({
                let big_n = next_pow2(self.multipliers());
                let gens_ok = self.gens_g().len() >= big_n;
                let fmt_ok = ipp_format_ok(
                    proof.ipp_proof.L_vec@.len(),
                    proof.ipp_proof.R_vec@.len(),
                    big_n,
                );
                &&& (res matches Err(e) ==> (e == R1CSError::InvalidGeneratorsLength || e
                    == R1CSError::FormatError || e == R1CSError::VerificationError))
                &&& ((res matches Err(e) && e == R1CSError::InvalidGeneratorsLength) <==> !gens_ok)
                &&& (gens_ok ==> ((res matches Err(e) && e == R1CSError::FormatError) <==> !fmt_ok))
                &&& ((gens_ok && fmt_ok) ==> (exists|rnd: nat|
                    rnd < group_order() && (res is Ok <==> accepts_with(self, *proof, rnd))))
                &&& (res is Ok ==> (exists|rnd: nat|
                    rnd < group_order() && accepts_with(self, *proof, rnd)))
            }),
    {
        self.verify_inner(proof, None)
    }

    /// As `verify`, but with the randomization scalar supplied by the
    /// caller, so that a run is reproducible: the outcome is then a
    /// function of the committed system, the proof and that scalar alone.
    pub fn verify_with_randomizer(self, proof: &R1CSProof, randomizer: &ScalarBytes) -> (res:
        Result<(), R1CSError>)
        requires
            self.gens_wf(),
            self.constraints_in_range(),
        ensures
            ({
                let big_n = next_pow2(self.multipliers());
                let gens_ok = self.gens_g().len() >= big_n;
                let fmt_ok = ipp_format_ok(
                    proof.ipp_proof.L_vec@.len(),
                    proof.ipp_proof.R_vec@.len(),
                    big_n,
                );
                &&& (res matches Err(e) ==> (e == R1CSError::InvalidGeneratorsLength || e
                    == R1CSError::FormatError || e == R1CSError::VerificationError))
                &&& ((res matches Err(e) && e == R1CSError::InvalidGeneratorsLength) <==> !gens_ok)
                &&& (gens_ok ==> ((res matches Err(e) && e == R1CSError::FormatError) <==> !fmt_ok))
                &&& ((gens_ok && fmt_ok) ==> (res is Ok <==> accepts_with(
                    self,
                    *proof,
                    sval(*randomizer),
                )))
            }),
    {
        self.verify_inner(proof, Some(*randomizer))
    }
}

} // verus!
