//! The two-state constraint-system assembly engine for the verifier.
//!
//! A `VerifierCS` is built from the external commitments and exposes the
//! gadget-facing API; `commit` consumes it and yields a
//! `CommittedVerifierCS`, in which Fiat-Shamir challenges become
//! available. Challenges are impossible to draw before the transition, so
//! they depend on all committed commitments.

use vstd::prelude::*;
use crate::errors::R1CSError;
use crate::field::u64_le_bytes;
use crate::field::{fmul, fpow, le_bytes_to_nat};
use crate::flatten::{
    flatten_cs, lemma_flatten_shape, lemma_terms_applied_shape, lemma_terms_applied_split,
    term_applied, terms_applied,
};
use crate::generators::{BulletproofGens, PedersenGens};
use crate::points::{PointBytes, svals};
use crate::scalar::{ScalarBytes, sval, scalar_add, scalar_sub, scalar_mul};
use crate::transcript::{
    TsEntry, chal_scalar, challenge_scalar, transcript_append_bytes32, transcript_append_u64,
    ts_log,
};
use crate::types::{Assignment, LinearCombination, OpaqueScalar, Variable, VariableIndex, lc_view, oval};

verus! {

/// The transcript event that binds the external-commitment count.
pub open spec fn domsep_entry(m: u64) -> TsEntry {
    TsEntry::Msg { label: "dom-sep"@, body: u64_le_bytes(m) }
}

/// The transcript events that absorb the external commitments, in order.
pub open spec fn external_entries(commitments: Seq<PointBytes>) -> Seq<TsEntry> {
    Seq::new(commitments.len(), |i: int| TsEntry::Msg { label: "V"@, body: commitments[i].bytes@ })
}

/// One term's wire exists among `n` multipliers and `m` externals.
pub open spec fn term_in_range(t: (VariableIndex, nat), n: nat, m: nat) -> bool {
    match t.0 {
        VariableIndex::One => true,
        VariableIndex::Committed(i) => i < m,
        VariableIndex::MultiplierLeft(i) => i < n,
        VariableIndex::MultiplierRight(i) => i < n,
        VariableIndex::MultiplierOutput(i) => i < n,
    }
}

/// Every term of every constraint names an existing wire: multiplier
/// indices are dense below `n` and committed indices dense below `m`.
pub open spec fn cs_in_range(cs: Seq<Seq<(VariableIndex, nat)>>, n: nat, m: nat) -> bool {
    forall|q: int, j: int|
        0 <= q < cs.len() && 0 <= j < cs[q].len() ==> term_in_range(#[trigger] cs[q][j], n, m)
}

/// The pre-commitment state: gadgets may allocate multipliers and add
/// constraints, but no challenge can be drawn.
pub struct VerifierCS {
    pub(crate) bp_gens: BulletproofGens,
    pub(crate) pc_gens: PedersenGens,
    pub(crate) transcript: merlin::Transcript,
    pub(crate) num_vars: usize,
    pub(crate) v: Vec<PointBytes>,
    pub(crate) constraints: Vec<LinearCombination>,
}

impl VerifierCS {
    /// How many multiplication gates have been allocated.
    pub open(crate) spec fn multipliers(self) -> nat {
        self.num_vars as nat
    }

    /// The external commitments, fixed at construction.
    pub open(crate) spec fn externals(self) -> Seq<PointBytes> {
        self.v@
    }

    /// The constraints added so far, in order, as term lists over field
    /// values.
    pub open(crate) spec fn constraint_list(self) -> Seq<Seq<(VariableIndex, nat)>> {
        self.constraints@.map_values(|lc: LinearCombination| lc_view(lc))
    }

    /// The transcript history so far.
    pub open(crate) spec fn log(self) -> Seq<TsEntry> {
        ts_log(self.transcript)
    }

    /// The Bulletproofs `G` generators.
    pub open(crate) spec fn gens_g(self) -> Seq<PointBytes> {
        self.bp_gens.g()
    }

    /// The Bulletproofs `H` generators.
    pub open(crate) spec fn gens_h(self) -> Seq<PointBytes> {
        self.bp_gens.h()
    }

    /// The Pedersen base `B`.
    pub open(crate) spec fn pedersen_b(self) -> PointBytes {
        self.pc_gens.B
    }

    /// The Pedersen blinding base `B_blinding`.
    pub open(crate) spec fn pedersen_b_blinding(self) -> PointBytes {
        self.pc_gens.B_blinding
    }

    /// The generator vectors have equal lengths.
    pub open(crate) spec fn gens_wf(self) -> bool {
        self.bp_gens.wf()
    }

    /// Every constraint names only existing wires.
    pub open spec fn constraints_in_range(self) -> bool {
        cs_in_range(self.constraint_list(), self.multipliers(), self.externals().len())
    }

    /// Builds an empty constraint system over the given external
    /// commitments, binding the commitment count and every commitment to
    /// the transcript, and returns one symbolic variable per external.
    pub fn new(
        bp_gens: BulletproofGens,
        pc_gens: PedersenGens,
        transcript: merlin::Transcript,
        commitments: Vec<PointBytes>,
    ) -> (r: (VerifierCS, Vec<Variable<OpaqueScalar>>))
        requires
            bp_gens.wf(),
        ensures
            r.0.multipliers() == 0,
            r.0.constraint_list() == Seq::<Seq<(VariableIndex, nat)>>::empty(),
            r.0.externals() == commitments@,
            r.0.gens_g() == bp_gens.g(),
            r.0.gens_h() == bp_gens.h(),
            r.0.pedersen_b() == pc_gens.B,
            r.0.pedersen_b_blinding() == pc_gens.B_blinding,
            r.0.gens_wf(),
            r.0.log() == ts_log(transcript).push(domsep_entry(commitments@.len() as u64))
                + external_entries(commitments@),
            r.1@.len() == commitments@.len(),
            forall|i: int|
                0 <= i < r.1@.len() ==> (#[trigger] r.1@[i]).index == VariableIndex::Committed(
                    i as usize,
                ) && r.1@[i].assignment is Missing,
    {
        let m = commitments.len();
        let mut transcript = transcript;
        let ghost log0 = ts_log(transcript);
        transcript_append_u64(&mut transcript, "dom-sep", m as u64);
        let mut variables: Vec<Variable<OpaqueScalar>> = Vec::new();
        let mut i: usize = 0;
        while i < m
            invariant
                i <= m,
                m == commitments@.len(),
                ts_log(transcript) == log0.push(domsep_entry(m as u64)) + external_entries(
                    commitments@.take(i as int),
                ),
                variables@.len() == i as int,
                forall|j: int|
                    0 <= j < i as int ==> (#[trigger] variables@[j]).index
                        == VariableIndex::Committed(j as usize) && variables@[j].assignment
                        is Missing,
            decreases m - i,
        {
            let c = commitments[i];
            transcript_append_bytes32(&mut transcript, "V", &c.bytes);
            variables.push(Variable { index: VariableIndex::Committed(i), assignment: Assignment::Missing });
            proof {
                assert(external_entries(commitments@.take(i + 1)) =~= external_entries(
                    commitments@.take(i as int),
                ).push(TsEntry::Msg { label: "V"@, body: commitments@[i as int].bytes@ }));
            }
            i = i + 1;
        }
        let cs = VerifierCS {
            bp_gens,
            pc_gens,
            transcript,
            num_vars: 0,
            v: commitments,
            constraints: Vec::new(),
        };
        proof {
            assert(cs.constraint_list() =~= Seq::<Seq<(VariableIndex, nat)>>::empty());
            assert(commitments@.take(m as int) =~= commitments@);
        }
        (cs, variables)
    }

    /// Allocates the next multiplication gate and returns its three wires
    /// with the supplied assignments. No arithmetic relation between the
    /// assignments is checked here.
    pub fn assign_multiplier<S>(
        &mut self,
        left: Assignment<S>,
        right: Assignment<S>,
        out: Assignment<S>,
    ) -> (r: Result<(Variable<S>, Variable<S>, Variable<S>), R1CSError>)
        requires
            old(self).multipliers() < usize::MAX,
        ensures
            final (self).multipliers() == old(self).multipliers() + 1,
            final (self).externals() == old(self).externals(),
            final (self).constraint_list() == old(self).constraint_list(),
            final (self).log() == old(self).log(),
            final (self).gens_g() == old(self).gens_g(),
            final (self).gens_h() == old(self).gens_h(),
            final (self).pedersen_b() == old(self).pedersen_b(),
            final (self).pedersen_b_blinding() == old(self).pedersen_b_blinding(),
            r matches Ok(t) && t.0.index == VariableIndex::MultiplierLeft(
                old(self).multipliers() as usize,
            ) && t.1.index == VariableIndex::MultiplierRight(old(self).multipliers() as usize)
                && t.2.index == VariableIndex::MultiplierOutput(old(self).multipliers() as usize)
                && t.0.assignment == left && t.1.assignment == right && t.2.assignment == out,
    {
        let var = self.num_vars;
        self.num_vars = self.num_vars + 1;
        Ok(
            (
                Variable { index: VariableIndex::MultiplierLeft(var), assignment: left },
                Variable { index: VariableIndex::MultiplierRight(var), assignment: right },
                Variable { index: VariableIndex::MultiplierOutput(var), assignment: out },
            ),
        )
    }

    /// Appends a constraint asserting that the linear combination equals
    /// zero.
    pub fn add_constraint(&mut self, lc: LinearCombination)
        ensures
            final (self).constraint_list() == old(self).constraint_list().push(lc_view(lc)),
            final (self).multipliers() == old(self).multipliers(),
            final (self).externals() == old(self).externals(),
            final (self).log() == old(self).log(),
            final (self).gens_g() == old(self).gens_g(),
            final (self).gens_h() == old(self).gens_h(),
            final (self).pedersen_b() == old(self).pedersen_b(),
            final (self).pedersen_b_blinding() == old(self).pedersen_b_blinding(),
    {
        let ghost before = self.constraints@;
        self.constraints.push(lc);
        proof {
            assert(self.constraint_list() =~= old(self).constraint_list().push(lc_view(lc)));
        }
    }

    /// Transitions to the committed state, from which challenges can be
    /// drawn. Deferred gadget work runs against the committed system.
    pub fn commit(self) -> (r: CommittedVerifierCS)
        ensures
            r.committed_variables_count() == self.multipliers(),
            r.multipliers() == self.multipliers(),
            r.externals() == self.externals(),
            r.constraint_list() == self.constraint_list(),
            r.log() == self.log(),
            r.gens_g() == self.gens_g(),
            r.gens_h() == self.gens_h(),
            r.pedersen_b() == self.pedersen_b(),
            r.pedersen_b_blinding() == self.pedersen_b_blinding(),
            self.gens_wf() ==> r.gens_wf(),
            self.constraints_in_range() ==> r.constraints_in_range(),
    {
        CommittedVerifierCS { committed_variables_count: self.num_vars, cs: self }
    }
}

/// A vector of `n` zero scalars.
fn zero_scalar_vec(n: usize) -> (r: Vec<ScalarBytes>)
    ensures
        r@.len() == n,
        svals(r@) == Seq::new(n as nat, |i: int| 0nat),
{
    let mut v: Vec<ScalarBytes> = Vec::new();
    let mut i: usize = 0;
    while i < n
        invariant
            i <= n,
            v@.len() == i as int,
            forall|j: int| 0 <= j < i as int ==> sval(#[trigger] v@[j]) == 0,
        decreases n - i,
    {
        v.push(ScalarBytes::zero());
        i = i + 1;
    }
    proof {
        assert(svals(v@) =~= Seq::new(n as nat, |i: int| 0nat));
    }
    v
}

/// The post-commitment state: the same multiplier and constraint
/// operations, plus challenge scalars.
pub struct CommittedVerifierCS {
    pub(crate) cs: VerifierCS,
    pub(crate) committed_variables_count: usize,
}

impl CommittedVerifierCS {
    /// How many multipliers existed when the commitment transition ran.
    pub open(crate) spec fn committed_variables_count(self) -> nat {
        self.committed_variables_count as nat
    }

    /// How many multiplication gates have been allocated.
    pub open(crate) spec fn multipliers(self) -> nat {
        self.cs.multipliers()
    }

    /// The external commitments, fixed at construction.
    pub open(crate) spec fn externals(self) -> Seq<PointBytes> {
        self.cs.externals()
    }

    /// The constraints added so far, in order.
    pub open(crate) spec fn constraint_list(self) -> Seq<Seq<(VariableIndex, nat)>> {
        self.cs.constraint_list()
    }

    /// The transcript history so far.
    pub open(crate) spec fn log(self) -> Seq<TsEntry> {
        self.cs.log()
    }

    /// The Bulletproofs `G` generators.
    pub open(crate) spec fn gens_g(self) -> Seq<PointBytes> {
        self.cs.gens_g()
    }

    /// The Bulletproofs `H` generators.
    pub open(crate) spec fn gens_h(self) -> Seq<PointBytes> {
        self.cs.gens_h()
    }

    /// The Pedersen base `B`.
    pub open(crate) spec fn pedersen_b(self) -> PointBytes {
        self.cs.pedersen_b()
    }

    /// The Pedersen blinding base `B_blinding`.
    pub open(crate) spec fn pedersen_b_blinding(self) -> PointBytes {
        self.cs.pedersen_b_blinding()
    }

    /// The generator vectors have equal lengths.
    pub open(crate) spec fn gens_wf(self) -> bool {
        self.cs.gens_wf()
    }

    /// Every constraint names only existing wires.
    pub open spec fn constraints_in_range(self) -> bool {
        cs_in_range(self.constraint_list(), self.multipliers(), self.externals().len())
    }

    /// Allocates the next multiplication gate, as in the pre-commitment
    /// state.
    pub fn assign_multiplier<S>(
        &mut self,
        left: Assignment<S>,
        right: Assignment<S>,
        out: Assignment<S>,
    ) -> (r: Result<(Variable<S>, Variable<S>, Variable<S>), R1CSError>)
        requires
            old(self).multipliers() < usize::MAX,
        ensures
            final (self).multipliers() == old(self).multipliers() + 1,
            final (self).committed_variables_count() == old(self).committed_variables_count(),
            final (self).externals() == old(self).externals(),
            final (self).constraint_list() == old(self).constraint_list(),
            final (self).log() == old(self).log(),
            final (self).gens_g() == old(self).gens_g(),
            final (self).gens_h() == old(self).gens_h(),
            final (self).pedersen_b() == old(self).pedersen_b(),
            final (self).pedersen_b_blinding() == old(self).pedersen_b_blinding(),
            r matches Ok(t) && t.0.index == VariableIndex::MultiplierLeft(
                old(self).multipliers() as usize,
            ) && t.1.index == VariableIndex::MultiplierRight(old(self).multipliers() as usize)
                && t.2.index == VariableIndex::MultiplierOutput(old(self).multipliers() as usize)
                && t.0.assignment == left && t.1.assignment == right && t.2.assignment == out,
    {
        self.cs.assign_multiplier(left, right, out)
    }

    /// Appends a constraint, as in the pre-commitment state.
    pub fn add_constraint(&mut self, lc: LinearCombination)
        ensures
            final (self).constraint_list() == old(self).constraint_list().push(lc_view(lc)),
            final (self).committed_variables_count() == old(self).committed_variables_count(),
            final (self).multipliers() == old(self).multipliers(),
            final (self).externals() == old(self).externals(),
            final (self).log() == old(self).log(),
            final (self).gens_g() == old(self).gens_g(),
            final (self).gens_h() == old(self).gens_h(),
            final (self).pedersen_b() == old(self).pedersen_b(),
            final (self).pedersen_b_blinding() == old(self).pedersen_b_blinding(),
    {
        self.cs.add_constraint(lc)
    }

    /// Runs deferred gadget work synchronously: in the committed state
    /// there is nothing to wait for.
    pub fn after_commitment<F: FnOnce(CommittedVerifierCS) -> Result<
        CommittedVerifierCS,
        R1CSError,
    >>(self, callback: F) -> (r: Result<CommittedVerifierCS, R1CSError>)
        requires
            call_requires(callback, (self,)),
        ensures
            call_ensures(callback, (self,), r),
    {
        callback(self)
    }

    /// Draws a Fiat-Shamir challenge bound to everything absorbed so far.
    /// The result is opaque: gadget code can combine it, but not branch
    /// on it.
    pub fn challenge_scalar(&mut self, label: &'static str) -> (r: OpaqueScalar)
        ensures
            oval(r) == chal_scalar(old(self).log(), label@),
            final (self).log() == old(self).log().push(TsEntry::Chal { label: label@ }),
            final (self).committed_variables_count() == old(self).committed_variables_count(),
            final (self).multipliers() == old(self).multipliers(),
            final (self).externals() == old(self).externals(),
            final (self).constraint_list() == old(self).constraint_list(),
            final (self).gens_g() == old(self).gens_g(),
            final (self).gens_h() == old(self).gens_h(),
            final (self).pedersen_b() == old(self).pedersen_b(),
            final (self).pedersen_b_blinding() == old(self).pedersen_b_blinding(),
    {
        let s = challenge_scalar(&mut self.cs.transcript, label);
        OpaqueScalar { inner: s }
    }

    /// Uses a challenge `z` to flatten the constraints into the weight
    /// vectors `(wL, wR, wO, wV)` and the constant weight `wc`.
    pub fn flattened_constraints(&self, z: &ScalarBytes) -> (r: (
        Vec<ScalarBytes>,
        Vec<ScalarBytes>,
        Vec<ScalarBytes>,
        Vec<ScalarBytes>,
        ScalarBytes,
    ))
        requires
            self.constraints_in_range(),
        ensures
            ({
                let w = flatten_cs(
                    self.constraint_list(),
                    self.multipliers(),
                    self.externals().len(),
                    sval(*z),
                );
                &&& r.0@.len() == self.multipliers()
                &&& r.1@.len() == self.multipliers()
                &&& r.2@.len() == self.multipliers()
                &&& r.3@.len() == self.externals().len()
                &&& svals(r.0@) == w.wl
                &&& svals(r.1@) == w.wr
                &&& svals(r.2@) == w.wo
                &&& svals(r.3@) == w.wv
                &&& sval(r.4) == w.wc
            }),
    {
        let ghost clist = self.constraint_list();
        let ghost nn = self.multipliers();
        let ghost mm = self.externals().len();
        let ghost zv = sval(*z);
        let n = self.cs.num_vars;
        let m = self.cs.v.len();
        let mut wl = zero_scalar_vec(n);
        let mut wr = zero_scalar_vec(n);
        let mut wo = zero_scalar_vec(n);
        let mut wv = zero_scalar_vec(m);
        let mut wc = ScalarBytes::zero();
        proof {
            assert(clist.take(0) =~= Seq::<Seq<(VariableIndex, nat)>>::empty());
            assert(svals(wl@) =~= flatten_cs(clist.take(0), nn, mm, zv).wl);
            assert(svals(wr@) =~= flatten_cs(clist.take(0), nn, mm, zv).wr);
            assert(svals(wo@) =~= flatten_cs(clist.take(0), nn, mm, zv).wo);
            assert(svals(wv@) =~= flatten_cs(clist.take(0), nn, mm, zv).wv);
        }
        let mut exp_z = *z;
        proof {
            assert(fpow(zv, 0) == 1);
            assert(fpow(zv, 1) == fmul(zv, 1));
            assert(zv * 1 == zv);
            assert(sval(*z) == le_bytes_to_nat(z.bytes@) % crate::field::group_order());
            assert(zv < crate::field::group_order());
            assert(fmul(zv, 1) == zv);
        }
        let mut q: usize = 0;
        while q < self.cs.constraints.len()
            invariant
                q <= self.cs.constraints.len(),
                clist == self.constraint_list(),
                nn == self.multipliers(),
                mm == self.externals().len(),
                zv == sval(*z),
                n == self.cs.num_vars,
                m == self.cs.v@.len(),
                self.constraints_in_range(),
                clist.len() == self.cs.constraints@.len(),
                wl@.len() == n,
                wr@.len() == n,
                wo@.len() == n,
                wv@.len() == m,
                sval(exp_z) == fpow(zv, (q + 1) as nat),
                svals(wl@) == flatten_cs(clist.take(q as int), nn, mm, zv).wl,
                svals(wr@) == flatten_cs(clist.take(q as int), nn, mm, zv).wr,
                svals(wo@) == flatten_cs(clist.take(q as int), nn, mm, zv).wo,
                svals(wv@) == flatten_cs(clist.take(q as int), nn, mm, zv).wv,
                sval(wc) == flatten_cs(clist.take(q as int), nn, mm, zv).wc,
            decreases self.cs.constraints@.len() - q,
        {
            let ghost wpre = flatten_cs(clist.take(q as int), nn, mm, zv);
            let ghost e = fpow(zv, (q + 1) as nat);
            let ghost terms = clist[q as int];
            proof {
                assert(clist[q as int] == lc_view(self.cs.constraints@[q as int]));
            }
            let terms_len = self.cs.constraints[q].terms.len();
            let mut j: usize = 0;
            while j < terms_len
                invariant
                    j <= terms_len,
                    q < self.cs.constraints@.len(),
                    clist == self.constraint_list(),
                    nn == self.multipliers(),
                    mm == self.externals().len(),
                    n == self.cs.num_vars,
                    m == self.cs.v@.len(),
                    self.constraints_in_range(),
                    clist.len() == self.cs.constraints@.len(),
                    terms == clist[q as int],
                    terms == lc_view(self.cs.constraints@[q as int]),
                    terms_len == terms.len(),
                    wpre == flatten_cs(clist.take(q as int), nn, mm, zv),
                    e == fpow(zv, (q + 1) as nat),
                    sval(exp_z) == e,
                    wl@.len() == n,
                    wr@.len() == n,
                    wo@.len() == n,
                    wv@.len() == m,
                    svals(wl@) == terms_applied(wpre, terms.take(j as int), e).wl,
                    svals(wr@) == terms_applied(wpre, terms.take(j as int), e).wr,
                    svals(wo@) == terms_applied(wpre, terms.take(j as int), e).wo,
                    svals(wv@) == terms_applied(wpre, terms.take(j as int), e).wv,
                    sval(wc) == terms_applied(wpre, terms.take(j as int), e).wc,
                decreases terms_len - j,
            {
                let ghost wnow = terms_applied(wpre, terms.take(j as int), e);
                let ghost wnext = term_applied(wnow, terms[j as int], e);
                let t = self.cs.constraints[q].terms[j];
                let tv = scalar_mul(&exp_z, &t.1.inner);
                proof {
                    let single = seq![terms[j as int]];
                    lemma_terms_applied_split(wpre, terms.take(j as int), single, e);
                    assert(terms.take(j as int + 1) =~= terms.take(j as int) + single);
                    assert(single[0] == terms[j as int]);
                    assert(single.skip(1) =~= Seq::<(VariableIndex, nat)>::empty());
                    assert(terms_applied(wnext, single.skip(1), e) == wnext);
                    assert(terms_applied(wnow, single, e) == wnext);
                    assert(terms_applied(wpre, terms.take(j as int + 1), e) == wnext);
                    assert(terms[j as int] == (t.0, oval(t.1)));
                    assert(term_in_range(clist[q as int][j as int], nn, mm));
                    lemma_terms_applied_shape(wpre, terms.take(j as int), e);
                    lemma_flatten_shape(clist.take(q as int), nn, mm, zv);
                }
                match t.0 {
                    VariableIndex::MultiplierLeft(i) => {
                        let cur = wl[i];
                        wl.set(i, scalar_add(&cur, &tv));
                        proof {
                            assert(svals(wl@) =~= wnext.wl);
                        }
                    },
                    VariableIndex::MultiplierRight(i) => {
                        let cur = wr[i];
                        wr.set(i, scalar_add(&cur, &tv));
                        proof {
                            assert(svals(wr@) =~= wnext.wr);
                        }
                    },
                    VariableIndex::MultiplierOutput(i) => {
                        let cur = wo[i];
                        wo.set(i, scalar_add(&cur, &tv));
                        proof {
                            assert(svals(wo@) =~= wnext.wo);
                        }
                    },
                    VariableIndex::Committed(i) => {
                        let cur = wv[i];
                        wv.set(i, scalar_sub(&cur, &tv));
                        proof {
                            assert(svals(wv@) =~= wnext.wv);
                        }
                    },
                    VariableIndex::One => {
                        wc = scalar_sub(&wc, &tv);
                    },
                }
                proof {
                    assert(svals(wl@) =~= wnext.wl);
                    assert(svals(wr@) =~= wnext.wr);
                    assert(svals(wo@) =~= wnext.wo);
                    assert(svals(wv@) =~= wnext.wv);
                    assert(sval(wc) == wnext.wc);
                }
                j = j + 1;
            }
            proof {
                assert(terms.take(terms.len() as int) =~= terms);
                assert(clist.take(q as int + 1).drop_last() =~= clist.take(q as int));
                assert(clist.take(q as int + 1).last() == clist[q as int]);
                assert(flatten_cs(clist.take(q as int + 1), nn, mm, zv) == terms_applied(
                    wpre,
                    terms,
                    e,
                ));
            }
            exp_z = scalar_mul(&exp_z, z);
            proof {
                assert(fpow(zv, (q + 2) as nat) == fmul(zv, fpow(zv, (q + 1) as nat)));
                assert(fmul(fpow(zv, (q + 1) as nat), zv) == fmul(zv, fpow(zv, (q + 1) as nat)));
            }
            q = q + 1;
        }
        proof {
            assert(clist.take(self.cs.constraints@.len() as int) =~= clist);
        }
        (wl, wr, wo, wv, wc)
    }
}

/// Determinism of flattening: two committed systems holding identical
/// constraint lists in identical order, and identical multiplier and
/// external counts, derive identical weights from any challenge.
pub proof fn lemma_flattening_deterministic(
    cs1: CommittedVerifierCS,
    cs2: CommittedVerifierCS,
    z: nat,
)
    requires
        cs1.constraint_list() == cs2.constraint_list(),
        cs1.multipliers() == cs2.multipliers(),
        cs1.externals().len() == cs2.externals().len(),
    ensures
        flatten_cs(cs1.constraint_list(), cs1.multipliers(), cs1.externals().len(), z)
            == flatten_cs(cs2.constraint_list(), cs2.multipliers(), cs2.externals().len(), z),
{
}

} // verus!
