//! Folding a constraint list into the flattened weight vectors
//! `(wL, wR, wO, wV, wc)` under a verifier challenge `z`.
//!
//! The `q`-th constraint (counting from zero) contributes with weight
//! `z^(q+1)`; within a constraint, terms are folded in order, and a wire
//! occurring twice accumulates additively.

use vstd::prelude::*;
use crate::field::{fadd, fsub, fmul, fneg, fpow, group_order};
use crate::types::VariableIndex;

verus! {

/// The flattened weights: one entry per multiplier in `wl`, `wr`, `wo`,
/// one per external commitment in `wv`, and the constant weight `wc`.
#[verifier::ext_equal]
pub struct FlatWeights {
    pub wl: Seq<nat>,
    pub wr: Seq<nat>,
    pub wo: Seq<nat>,
    pub wv: Seq<nat>,
    pub wc: nat,
}

/// All weights zero, for `n` multipliers and `m` externals.
pub open spec fn zero_weights(n: nat, m: nat) -> FlatWeights {
    FlatWeights {
        wl: Seq::new(n, |i: int| 0nat),
        wr: Seq::new(n, |i: int| 0nat),
        wo: Seq::new(n, |i: int| 0nat),
        wv: Seq::new(m, |i: int| 0nat),
        wc: 0,
    }
}

/// One term `(wire, coeff)` folded into the weights with weight `e`:
/// multiplier wires add `e * coeff` to their vector, external and
/// constant wires subtract it. An out-of-range wire leaves the weights
/// unchanged; a well-formed system never holds one.
pub open spec fn term_applied(w: FlatWeights, t: (VariableIndex, nat), e: nat) -> FlatWeights {
    match t.0 {
        VariableIndex::MultiplierLeft(i) => if i < w.wl.len() {
            FlatWeights { wl: w.wl.update(i as int, fadd(w.wl[i as int], fmul(e, t.1))), ..w }
        } else {
            w
        },
        VariableIndex::MultiplierRight(i) => if i < w.wr.len() {
            FlatWeights { wr: w.wr.update(i as int, fadd(w.wr[i as int], fmul(e, t.1))), ..w }
        } else {
            w
        },
        VariableIndex::MultiplierOutput(i) => if i < w.wo.len() {
            FlatWeights { wo: w.wo.update(i as int, fadd(w.wo[i as int], fmul(e, t.1))), ..w }
        } else {
            w
        },
        VariableIndex::Committed(i) => if i < w.wv.len() {
            FlatWeights { wv: w.wv.update(i as int, fsub(w.wv[i as int], fmul(e, t.1))), ..w }
        } else {
            w
        },
        VariableIndex::One => FlatWeights { wc: fsub(w.wc, fmul(e, t.1)), ..w },
    }
}

/// A whole term list folded into the weights, left to right, with
/// weight `e`.
pub open spec fn terms_applied(
    w: FlatWeights,
    terms: Seq<(VariableIndex, nat)>,
    e: nat,
) -> FlatWeights
    decreases terms.len(),
{
    if terms.len() == 0 {
        w
    } else {
        terms_applied(term_applied(w, terms[0], e), terms.skip(1), e)
    }
}

/// The flattened weights of a constraint list under challenge `z`, for
/// `n` multipliers and `m` externals.
pub open spec fn flatten_cs(
    cs: Seq<Seq<(VariableIndex, nat)>>,
    n: nat,
    m: nat,
    z: nat,
) -> FlatWeights
    decreases cs.len(),
{
    if cs.len() == 0 {
        zero_weights(n, m)
    } else {
        terms_applied(flatten_cs(cs.drop_last(), n, m, z), cs.last(), fpow(z, cs.len()))
    }
}

/// Folding terms never changes the weight vectors' lengths, and keeps
/// every entry reduced below the group order.
pub proof fn lemma_terms_applied_shape(w: FlatWeights, terms: Seq<(VariableIndex, nat)>, e: nat)
    ensures
        terms_applied(w, terms, e).wl.len() == w.wl.len(),
        terms_applied(w, terms, e).wr.len() == w.wr.len(),
        terms_applied(w, terms, e).wo.len() == w.wo.len(),
        terms_applied(w, terms, e).wv.len() == w.wv.len(),
    decreases terms.len(),
{
    if terms.len() > 0 {
        lemma_terms_applied_shape(term_applied(w, terms[0], e), terms.skip(1), e);
    }
}

/// The flattened weight vectors have lengths `(n, n, n, m)`.
pub proof fn lemma_flatten_shape(cs: Seq<Seq<(VariableIndex, nat)>>, n: nat, m: nat, z: nat)
    ensures
        flatten_cs(cs, n, m, z).wl.len() == n,
        flatten_cs(cs, n, m, z).wr.len() == n,
        flatten_cs(cs, n, m, z).wo.len() == n,
        flatten_cs(cs, n, m, z).wv.len() == m,
    decreases cs.len(),
{
    if cs.len() > 0 {
        lemma_flatten_shape(cs.drop_last(), n, m, z);
        lemma_terms_applied_shape(flatten_cs(cs.drop_last(), n, m, z), cs.last(), fpow(z, cs.len()));
    }
}

/// Flattening is linear in a constraint's terms: a constraint whose term
/// list is the concatenation `ta + tb` contributes exactly what folding
/// `ta` and then `tb` at the same power contributes.
pub proof fn lemma_terms_applied_split(
    w: FlatWeights,
    ta: Seq<(VariableIndex, nat)>,
    tb: Seq<(VariableIndex, nat)>,
    e: nat,
)
    ensures
        terms_applied(w, ta + tb, e) == terms_applied(terms_applied(w, ta, e), tb, e),
    decreases ta.len(),
{
    if ta.len() == 0 {
        assert(ta + tb =~= tb);
    } else {
        assert((ta + tb)[0] == ta[0]);
        assert((ta + tb).skip(1) =~= ta.skip(1) + tb);
        lemma_terms_applied_split(term_applied(w, ta[0], e), ta.skip(1), tb, e);
    }
}

/// Appending a constraint with no terms leaves the flattened weights
/// unchanged.
pub proof fn lemma_flatten_push_empty(
    cs: Seq<Seq<(VariableIndex, nat)>>,
    n: nat,
    m: nat,
    z: nat,
)
    ensures
        flatten_cs(cs.push(Seq::empty()), n, m, z) == flatten_cs(cs, n, m, z),
{
    assert(cs.push(Seq::empty()).drop_last() =~= cs);
}

/// Folding terms keeps every weight entry reduced below the group order.
pub proof fn lemma_terms_applied_range(w: FlatWeights, terms: Seq<(VariableIndex, nat)>, e: nat)
    requires
        forall|i: int| 0 <= i < w.wl.len() ==> w.wl[i] < group_order(),
        forall|i: int| 0 <= i < w.wr.len() ==> w.wr[i] < group_order(),
        forall|i: int| 0 <= i < w.wo.len() ==> w.wo[i] < group_order(),
        forall|i: int| 0 <= i < w.wv.len() ==> w.wv[i] < group_order(),
        w.wc < group_order(),
    ensures
        forall|i: int|
            0 <= i < terms_applied(w, terms, e).wl.len() ==> terms_applied(w, terms, e).wl[i]
                < group_order(),
        forall|i: int|
            0 <= i < terms_applied(w, terms, e).wr.len() ==> terms_applied(w, terms, e).wr[i]
                < group_order(),
        forall|i: int|
            0 <= i < terms_applied(w, terms, e).wo.len() ==> terms_applied(w, terms, e).wo[i]
                < group_order(),
        forall|i: int|
            0 <= i < terms_applied(w, terms, e).wv.len() ==> terms_applied(w, terms, e).wv[i]
                < group_order(),
        terms_applied(w, terms, e).wc < group_order(),
    decreases terms.len(),
{
    if terms.len() > 0 {
        lemma_terms_applied_range(term_applied(w, terms[0], e), terms.skip(1), e);
    }
}

/// A term with coefficient zero leaves reduced weights unchanged.
pub proof fn lemma_term_applied_zero(w: FlatWeights, t: (VariableIndex, nat), e: nat)
    requires
        t.1 == 0,
        forall|i: int| 0 <= i < w.wl.len() ==> w.wl[i] < group_order(),
        forall|i: int| 0 <= i < w.wr.len() ==> w.wr[i] < group_order(),
        forall|i: int| 0 <= i < w.wo.len() ==> w.wo[i] < group_order(),
        forall|i: int| 0 <= i < w.wv.len() ==> w.wv[i] < group_order(),
        w.wc < group_order(),
    ensures
        term_applied(w, t, e) == w,
{
    assert(fmul(e, 0) == 0);
    assert(fneg(0) == 0);
    match t.0 {
        VariableIndex::MultiplierLeft(i) => {
            if i < w.wl.len() {
                assert(fadd(w.wl[i as int], 0) == w.wl[i as int]);
                assert(w.wl.update(i as int, w.wl[i as int]) =~= w.wl);
                assert(term_applied(w, t, e) =~= w);
            }
        },
        VariableIndex::MultiplierRight(i) => {
            if i < w.wr.len() {
                assert(fadd(w.wr[i as int], 0) == w.wr[i as int]);
                assert(w.wr.update(i as int, w.wr[i as int]) =~= w.wr);
                assert(term_applied(w, t, e) =~= w);
            }
        },
        VariableIndex::MultiplierOutput(i) => {
            if i < w.wo.len() {
                assert(fadd(w.wo[i as int], 0) == w.wo[i as int]);
                assert(w.wo.update(i as int, w.wo[i as int]) =~= w.wo);
                assert(term_applied(w, t, e) =~= w);
            }
        },
        VariableIndex::Committed(i) => {
            if i < w.wv.len() {
                assert(fsub(w.wv[i as int], 0) == w.wv[i as int]);
                assert(w.wv.update(i as int, w.wv[i as int]) =~= w.wv);
                assert(term_applied(w, t, e) =~= w);
            }
        },
        VariableIndex::One => {
            assert(fsub(w.wc, 0) == w.wc);
            assert(term_applied(w, t, e) =~= w);
        },
    }
}

/// A whole term list of zero coefficients leaves reduced weights
/// unchanged.
pub proof fn lemma_terms_applied_zero(w: FlatWeights, terms: Seq<(VariableIndex, nat)>, e: nat)
    requires
        forall|j: int| 0 <= j < terms.len() ==> (#[trigger] terms[j]).1 == 0,
        forall|i: int| 0 <= i < w.wl.len() ==> w.wl[i] < group_order(),
        forall|i: int| 0 <= i < w.wr.len() ==> w.wr[i] < group_order(),
        forall|i: int| 0 <= i < w.wo.len() ==> w.wo[i] < group_order(),
        forall|i: int| 0 <= i < w.wv.len() ==> w.wv[i] < group_order(),
        w.wc < group_order(),
    ensures
        terms_applied(w, terms, e) == w,
    decreases terms.len(),
{
    if terms.len() > 0 {
        lemma_term_applied_zero(w, terms[0], e);
        lemma_terms_applied_zero(w, terms.skip(1), e);
    }
}

/// Every flattened weight entry is reduced below the group order.
pub proof fn lemma_flatten_range(cs: Seq<Seq<(VariableIndex, nat)>>, n: nat, m: nat, z: nat)
    ensures
        forall|i: int|
            0 <= i < flatten_cs(cs, n, m, z).wl.len() ==> flatten_cs(cs, n, m, z).wl[i]
                < group_order(),
        forall|i: int|
            0 <= i < flatten_cs(cs, n, m, z).wr.len() ==> flatten_cs(cs, n, m, z).wr[i]
                < group_order(),
        forall|i: int|
            0 <= i < flatten_cs(cs, n, m, z).wo.len() ==> flatten_cs(cs, n, m, z).wo[i]
                < group_order(),
        forall|i: int|
            0 <= i < flatten_cs(cs, n, m, z).wv.len() ==> flatten_cs(cs, n, m, z).wv[i]
                < group_order(),
        flatten_cs(cs, n, m, z).wc < group_order(),
    decreases cs.len(),
{
    if cs.len() == 0 {
    } else {
        lemma_flatten_range(cs.drop_last(), n, m, z);
        lemma_terms_applied_range(flatten_cs(cs.drop_last(), n, m, z), cs.last(), fpow(z, cs.len()));
    }
}

/// Flattening is linear in `z`'s coefficient column: appending a
/// constraint all of whose coefficients are zero — the trivially-zero
/// constraint — produces identical weights.
pub proof fn lemma_flatten_push_zero_constraint(
    cs: Seq<Seq<(VariableIndex, nat)>>,
    n: nat,
    m: nat,
    z: nat,
    c: Seq<(VariableIndex, nat)>,
)
    requires
        forall|j: int| 0 <= j < c.len() ==> (#[trigger] c[j]).1 == 0,
    ensures
        flatten_cs(cs.push(c), n, m, z) == flatten_cs(cs, n, m, z),
{
    assert(cs.push(c).drop_last() =~= cs);
    assert(cs.push(c).last() == c);
    lemma_flatten_range(cs, n, m, z);
    lemma_terms_applied_zero(flatten_cs(cs, n, m, z), c, fpow(z, cs.push(c).len()));
}

} // verus!
