//! The inner-product subverifier's contribution to the mega-check: from
//! the proof's `L`/`R` vectors and the transcript it recomputes the
//! verification scalars `(u^2, u^-2, s)`, with `|s|` the padded
//! multiplier count.

#![allow(non_snake_case)]

use vstd::prelude::*;
use crate::errors::R1CSError;
use crate::field::{
    finv, fmul, lemma_log2_of_range, lemma_pow2_increases, lemma_pow2_pos, log2, pow2,
};
use crate::points::{PointBytes, pviews, svals};
use crate::scalar::{ScalarBytes, scalar_from_u64, scalar_invert, scalar_mul, sval};
use crate::transcript::{
    TsEntry, chal_scalar, challenge_scalar, transcript_append_bytes32, ts_log,
};

verus! {

/// The inner-product argument embedded in a proof: two point vectors and
/// the two closing scalars.
#[derive(Clone, Debug)]
pub struct InnerProductProof {
    pub L_vec: Vec<PointBytes>,
    pub R_vec: Vec<PointBytes>,
    pub a: ScalarBytes,
    pub b: ScalarBytes,
}

/// The inner-product vectors fit the padded multiplier count: equal
/// lengths, and one round per halving.
pub open spec fn ipp_format_ok(l_len: nat, r_len: nat, padded_n: nat) -> bool {
    &&& l_len == r_len
    &&& if padded_n == 0 {
        l_len == 0
    } else {
        pow2(l_len) == padded_n
    }
}

/// The transcript history after `j` complete rounds, each absorbing one
/// `L` and one `R` point and drawing one challenge `u`.
pub open spec fn ipp_round_log(
    log0: Seq<TsEntry>,
    ls: Seq<Seq<u8>>,
    rs: Seq<Seq<u8>>,
    j: nat,
) -> Seq<TsEntry>
    decreases j,
{
    if j == 0 {
        log0
    } else {
        ipp_round_log(log0, ls, rs, (j - 1) as nat).push(
            TsEntry::Msg { label: "L"@, body: ls[j - 1] },
        ).push(TsEntry::Msg { label: "R"@, body: rs[j - 1] }).push(TsEntry::Chal { label: "u"@ })
    }
}

/// The challenge of round `j`, drawn after that round's points are
/// absorbed.
pub open spec fn ipp_u(log0: Seq<TsEntry>, ls: Seq<Seq<u8>>, rs: Seq<Seq<u8>>, j: nat) -> nat {
    chal_scalar(
        ipp_round_log(log0, ls, rs, j).push(TsEntry::Msg { label: "L"@, body: ls[j as int] }).push(
            TsEntry::Msg { label: "R"@, body: rs[j as int] },
        ),
        "u"@,
    )
}

/// The product of the inverses of the first `j` challenges.
pub open spec fn prod_finv(us: Seq<nat>, j: nat) -> nat
    decreases j,
{
    if j == 0 {
        1
    } else {
        fmul(prod_finv(us, (j - 1) as nat), finv(us[j - 1]))
    }
}

/// The `i`-th verification scalar `s_i`, by its defining recurrence:
/// `s_0` is the product of all challenge inverses, and clearing the top
/// bit of `i` multiplies by the matching squared challenge.
pub open spec fn s_value(usq: Seq<nat>, allinv: nat, lg: nat, i: nat) -> nat
    decreases i,
{
    if i == 0 {
        allinv
    } else {
        let k = pow2(log2(i));
        if 1 <= k && k <= i && log2(i) < lg {
            fmul(s_value(usq, allinv, lg, (i - k) as nat), usq[lg - 1 - log2(i)])
        } else {
            0
        }
    }
}

impl InnerProductProof {
    /// Recomputes the verification scalars `(u^2, u^-2, s)` from the
    /// proof and the transcript, one challenge per round. Rejects with a
    /// format error, before touching the transcript, unless the vectors
    /// fit the padded multiplier count.
    pub fn verification_scalars(
        &self,
        transcript: &mut merlin::Transcript,
        padded_n: usize,
    ) -> (r: Result<(Vec<ScalarBytes>, Vec<ScalarBytes>, Vec<ScalarBytes>), R1CSError>)
        ensures
            r matches Err(e) ==> e == R1CSError::FormatError && ts_log(*final(transcript)) == ts_log(
                *old(transcript),
            ) && !ipp_format_ok(self.L_vec@.len(), self.R_vec@.len(), padded_n as nat),
            r is Ok ==> ipp_format_ok(self.L_vec@.len(), self.R_vec@.len(), padded_n as nat),
            r matches Ok(t) ==> ({
                let log0 = ts_log(*old(transcript));
                let ls = pviews(self.L_vec@);
                let rs = pviews(self.R_vec@);
                let lg = self.L_vec@.len();
                let us = Seq::new(lg, |j: int| ipp_u(log0, ls, rs, j as nat));
                let usq = Seq::new(lg, |j: int| fmul(us[j], us[j]));
                &&& ts_log(*final(transcript)) == ipp_round_log(log0, ls, rs, lg)
                &&& t.0@.len() == lg
                &&& t.1@.len() == lg
                &&& t.2@.len() == padded_n as nat
                &&& forall|j: int|
                    0 <= j < lg ==> sval(#[trigger] t.0@[j]) == fmul(us[j], us[j])
                &&& forall|j: int|
                    0 <= j < lg ==> sval(#[trigger] t.1@[j]) == fmul(finv(us[j]), finv(us[j]))
                &&& forall|i: int|
                    0 <= i < padded_n as nat ==> sval(#[trigger] t.2@[i]) == s_value(
                        usq,
                        prod_finv(us, lg),
                        lg,
                        i as nat,
                    )
            }),
    {
        let lg = self.L_vec.len();
        if self.R_vec.len() != lg {
            return Err(R1CSError::FormatError);
        }
        if padded_n == 0 {
            if lg != 0 {
                return Err(R1CSError::FormatError);
            }
            let r: (Vec<ScalarBytes>, Vec<ScalarBytes>, Vec<ScalarBytes>) = (
                Vec::new(),
                Vec::new(),
                Vec::new(),
            );
            return Ok(r);
        }
        // `padded_n >= 1`: the round count must satisfy `2^lg == padded_n`.
        let mut p: usize = 1;
        let mut e: usize = 0;
        while e < lg
            invariant
                e <= lg,
                p == pow2(e as nat),
                p <= padded_n,
                padded_n >= 1,
                lg == self.L_vec@.len(),
                lg == self.R_vec@.len(),
                ts_log(*transcript) == ts_log(*old(transcript)),
            decreases lg - e,
        {
            if p > padded_n / 2 {
                proof {
                    assert(2 * (p as int) > padded_n as int);
                    assert(pow2((e + 1) as nat) == 2 * pow2(e as nat));
                    lemma_pow2_increases((e + 1) as nat, lg as nat);
                    assert(pow2(lg as nat) > padded_n as nat);
                }
                return Err(R1CSError::FormatError);
            }
            p = p * 2;
            e = e + 1;
        }
        if p != padded_n {
            return Err(R1CSError::FormatError);
        }

        let ghost log0 = ts_log(*transcript);
        let ghost ls = pviews(self.L_vec@);
        let ghost rs = pviews(self.R_vec@);
        let ghost us = Seq::new(lg as nat, |j: int| ipp_u(log0, ls, rs, j as nat));

        let mut u_sq: Vec<ScalarBytes> = Vec::new();
        let mut u_inv_sq: Vec<ScalarBytes> = Vec::new();
        let mut allinv = scalar_from_u64(1);
        let mut j: usize = 0;
        while j < lg
            invariant
                j <= lg,
                lg == self.L_vec@.len(),
                lg == self.R_vec@.len(),
                log0 == ts_log(*old(transcript)),
                ls == pviews(self.L_vec@),
                rs == pviews(self.R_vec@),
                us == Seq::new(lg as nat, |jj: int| ipp_u(log0, ls, rs, jj as nat)),
                ts_log(*transcript) == ipp_round_log(log0, ls, rs, j as nat),
                u_sq@.len() == j as int,
                u_inv_sq@.len() == j as int,
                forall|jj: int| 0 <= jj < j as int ==> sval(#[trigger] u_sq@[jj]) == fmul(us[jj], us[jj]),
                forall|jj: int|
                    0 <= jj < j as int ==> sval(#[trigger] u_inv_sq@[jj]) == fmul(
                        finv(us[jj]),
                        finv(us[jj]),
                    ),
                sval(allinv) == prod_finv(us, j as nat),
            decreases lg - j,
        {
            let l = self.L_vec[j];
            transcript_append_bytes32(transcript, "L", &l.bytes);
            let rr = self.R_vec[j];
            transcript_append_bytes32(transcript, "R", &rr.bytes);
            let u = challenge_scalar(transcript, "u");
            proof {
                assert(ls[j as int] == self.L_vec@[j as int].bytes@);
                assert(rs[j as int] == self.R_vec@[j as int].bytes@);
                assert(sval(u) == ipp_u(log0, ls, rs, j as nat));
                assert(sval(u) == us[j as int]);
                assert(ipp_round_log(log0, ls, rs, j as nat + 1) == ipp_round_log(
                    log0,
                    ls,
                    rs,
                    j as nat,
                ).push(TsEntry::Msg { label: "L"@, body: ls[j as int] }).push(
                    TsEntry::Msg { label: "R"@, body: rs[j as int] },
                ).push(TsEntry::Chal { label: "u"@ }));
            }
            let u_inv = scalar_invert(&u);
            u_sq.push(scalar_mul(&u, &u));
            u_inv_sq.push(scalar_mul(&u_inv, &u_inv));
            allinv = scalar_mul(&allinv, &u_inv);
            proof {
                assert(prod_finv(us, j as nat + 1) == fmul(prod_finv(us, j as nat), finv(us[j as int])));
            }
            j = j + 1;
        }

        let ghost usq = Seq::new(lg as nat, |jj: int| fmul(us[jj], us[jj]));
        let ghost ainv = prod_finv(us, lg as nat);
        proof {
            assert(svals(u_sq@) =~= usq);
        }
        let mut s: Vec<ScalarBytes> = Vec::new();
        s.push(allinv);
        let mut i: usize = 1;
        let mut k: usize = 1;
        let mut lg_i: usize = 0;
        while i < padded_n
            invariant
                1 <= i <= padded_n,
                k == pow2(lg_i as nat),
                k <= i,
                i as int <= 2 * (k as int),
                lg_i <= lg,
                padded_n == pow2(lg as nat),
                lg == self.L_vec@.len(),
                us == Seq::new(lg as nat, |jj: int| ipp_u(log0, ls, rs, jj as nat)),
                usq == Seq::new(lg as nat, |jj: int| fmul(us[jj], us[jj])),
                ainv == prod_finv(us, lg as nat),
                u_sq@.len() == lg as int,
                forall|jj: int| 0 <= jj < lg as int ==> sval(#[trigger] u_sq@[jj]) == usq[jj],
                s@.len() == i as int,
                forall|idx: int|
                    0 <= idx < i as int ==> sval(#[trigger] s@[idx]) == s_value(
                        usq,
                        ainv,
                        lg as nat,
                        idx as nat,
                    ),
            decreases padded_n - i,
        {
            if i - k >= k {
                proof {
                    assert(k + k == pow2((lg_i + 1) as nat));
                    if lg_i as nat + 1 > lg as nat {
                        lemma_pow2_increases(lg as nat, (lg_i + 1) as nat);
                        assert(false);
                    }
                }
                k = k + k;
                lg_i = lg_i + 1;
            }
            proof {
                lemma_pow2_pos(lg_i as nat);
                lemma_log2_of_range(i as nat, lg_i as nat);
                if lg_i as nat >= lg as nat {
                    lemma_pow2_increases(lg as nat, lg_i as nat);
                    assert(false);
                }
            }
            let prev = s[i - k];
            let usq_l = u_sq[lg - 1 - lg_i];
            s.push(scalar_mul(&prev, &usq_l));
            proof {
                assert(sval(s@[i as int]) == s_value(usq, ainv, lg as nat, i as nat));
            }
            i = i + 1;
        }
        Ok((u_sq, u_inv_sq, s))
    }
}

/// Truncating either inner-product vector of a well-fitted proof by one
/// element leaves the pair malformed, so verification rejects it rather
/// than accepting.
pub proof fn lemma_truncated_vectors_rejected(l_len: nat, r_len: nat, padded_n: nat)
    requires
        ipp_format_ok(l_len, r_len, padded_n),
        l_len >= 1,
    ensures
        !ipp_format_ok((l_len - 1) as nat, r_len, padded_n),
        !ipp_format_ok(l_len, (r_len - 1) as nat, padded_n),
{
}

} // verus!
