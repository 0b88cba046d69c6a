//! The symbolic wires, assignments and linear combinations that gadget
//! code builds constraints from.

use vstd::prelude::*;
use crate::scalar::{ScalarBytes, sval, scalar_add, scalar_sub, scalar_mul, scalar_neg, scalar_from_u64};
use crate::field::{fadd, fsub, fmul, fneg};

verus! {

/// A tagged wire identifier: the constant-one wire, an external
/// (committed) input, or one of the three wires of a multiplication gate.
#[derive(Clone, Copy, Debug, PartialEq, Eq, Structural)]
pub enum VariableIndex {
    One,
    Committed(usize),
    MultiplierLeft(usize),
    MultiplierRight(usize),
    MultiplierOutput(usize),
}

/// A scalar whose value gadget code must treat symbolically: arithmetic is
/// exposed, but no equality, ordering or extraction.
#[derive(Clone, Copy, Debug)]
pub struct OpaqueScalar {
    pub(crate) inner: ScalarBytes,
}

/// The field value inside an opaque scalar. Contracts may speak of it;
/// executable gadget code cannot reach it.
pub open(crate) spec fn oval(o: OpaqueScalar) -> nat {
    sval(o.inner)
}

impl OpaqueScalar {
    /// The opaque scalar with the given small integer value.
    pub fn from_u64(x: u64) -> (r: OpaqueScalar)
        ensures
            oval(r) == x as nat,
    {
        OpaqueScalar { inner: scalar_from_u64(x) }
    }

    /// Addition in the scalar field.
    pub fn plus(&self, other: &OpaqueScalar) -> (r: OpaqueScalar)
        ensures
            oval(r) == fadd(oval(*self), oval(*other)),
    {
        OpaqueScalar { inner: scalar_add(&self.inner, &other.inner) }
    }

    /// Subtraction in the scalar field.
    pub fn minus(&self, other: &OpaqueScalar) -> (r: OpaqueScalar)
        ensures
            oval(r) == fsub(oval(*self), oval(*other)),
    {
        OpaqueScalar { inner: scalar_sub(&self.inner, &other.inner) }
    }

    /// Multiplication in the scalar field.
    pub fn times(&self, other: &OpaqueScalar) -> (r: OpaqueScalar)
        ensures
            oval(r) == fmul(oval(*self), oval(*other)),
    {
        OpaqueScalar { inner: scalar_mul(&self.inner, &other.inner) }
    }

    /// Negation in the scalar field.
    pub fn negated(&self) -> (r: OpaqueScalar)
        ensures
            oval(r) == fneg(oval(*self)),
    {
        OpaqueScalar { inner: scalar_neg(&self.inner) }
    }
}

/// Either a concrete witness value or, on the verifier side, missing.
/// Arithmetic on assignments lifts through missingness.
#[derive(Clone, Copy, Debug)]
pub enum Assignment<S> {
    Value(S),
    Missing,
}

impl Assignment<OpaqueScalar> {
    /// Addition lifted through missingness: missing plus anything is
    /// missing.
    pub fn plus(self, other: Self) -> (r: Self)
        ensures
            ({
                match (self, other) {
                    (Assignment::Value(a), Assignment::Value(b)) => r matches Assignment::Value(c)
                        && oval(c) == fadd(oval(a), oval(b)),
                    _ => r is Missing,
                }
            }),
    {
        match (self, other) {
            (Assignment::Value(a), Assignment::Value(b)) => Assignment::Value(a.plus(&b)),
            _ => Assignment::Missing,
        }
    }

    /// Subtraction lifted through missingness.
    pub fn minus(self, other: Self) -> (r: Self)
        ensures
            ({
                match (self, other) {
                    (Assignment::Value(a), Assignment::Value(b)) => r matches Assignment::Value(c)
                        && oval(c) == fsub(oval(a), oval(b)),
                    _ => r is Missing,
                }
            }),
    {
        match (self, other) {
            (Assignment::Value(a), Assignment::Value(b)) => Assignment::Value(a.minus(&b)),
            _ => Assignment::Missing,
        }
    }

    /// Multiplication lifted through missingness.
    pub fn times(self, other: Self) -> (r: Self)
        ensures
            ({
                match (self, other) {
                    (Assignment::Value(a), Assignment::Value(b)) => r matches Assignment::Value(c)
                        && oval(c) == fmul(oval(a), oval(b)),
                    _ => r is Missing,
                }
            }),
    {
        match (self, other) {
            (Assignment::Value(a), Assignment::Value(b)) => Assignment::Value(a.times(&b)),
            _ => Assignment::Missing,
        }
    }
}

/// A wire together with its (possibly missing) assignment.
#[derive(Clone, Copy, Debug)]
pub struct Variable<S> {
    pub index: VariableIndex,
    pub assignment: Assignment<S>,
}

/// An ordered sequence of `(wire, coefficient)` terms. Sums concatenate;
/// duplicate wires accumulate additively only at flattening time.
#[derive(Clone, Debug)]
pub struct LinearCombination {
    pub terms: Vec<(VariableIndex, OpaqueScalar)>,
}

/// A linear combination asserted to equal zero.
pub type Constraint = LinearCombination;

/// The mathematical content of a linear combination: its terms in order,
/// coefficients as field values.
pub open spec fn lc_view(lc: LinearCombination) -> Seq<(VariableIndex, nat)> {
    lc.terms@.map_values(|t: (VariableIndex, OpaqueScalar)| (t.0, oval(t.1)))
}

impl LinearCombination {
    /// The empty linear combination.
    pub fn new() -> (r: LinearCombination)
        ensures
            lc_view(r) == Seq::<(VariableIndex, nat)>::empty(),
    {
        let r = LinearCombination { terms: Vec::new() };
        proof {
            assert(lc_view(r) =~= Seq::<(VariableIndex, nat)>::empty());
        }
        r
    }

    /// Appends one term.
    pub fn push_term(&mut self, var: VariableIndex, coeff: OpaqueScalar)
        ensures
            lc_view(*final(self)) == lc_view(*old(self)).push((var, oval(coeff))),
    {
        self.terms.push((var, coeff));
        proof {
            assert(lc_view(*self) =~= lc_view(*old(self)).push((var, oval(coeff))));
        }
    }

    /// The sum of two linear combinations: their terms concatenated.
    pub fn plus(self, other: LinearCombination) -> (r: LinearCombination)
        ensures
            lc_view(r) == lc_view(self) + lc_view(other),
    {
        let ghost gself = self;
        let mut terms = self.terms;
        let mut rest = other.terms;
        terms.append(&mut rest);
        let r = LinearCombination { terms };
        proof {
            assert(lc_view(r) =~= lc_view(gself) + lc_view(other));
        }
        r
    }

    /// The linear combination scaled by a scalar: every coefficient
    /// multiplied, term order kept.
    pub fn scaled_by(&self, c: &OpaqueScalar) -> (r: LinearCombination)
        ensures
            lc_view(r).len() == lc_view(*self).len(),
            forall|i: int|
                0 <= i < lc_view(*self).len() ==> lc_view(r)[i] == (
                lc_view(*self)[i].0,
                fmul(lc_view(*self)[i].1, oval(*c)),
                ),
    {
        let mut terms: Vec<(VariableIndex, OpaqueScalar)> = Vec::new();
        let mut i: usize = 0;
        while i < self.terms.len()
            invariant
                i <= self.terms.len(),
                terms@.len() == i as int,
                forall|j: int|
                    0 <= j < i as int ==> #[trigger] terms@[j].0 == self.terms@[j].0 && oval(
                        terms@[j].1,
                    ) == fmul(oval(self.terms@[j].1), oval(*c)),
            decreases self.terms.len() - i,
        {
            let (var, coeff) = self.terms[i];
            let scaled = coeff.times(c);
            let ghost pre = terms@;
            terms.push((var, scaled));
            proof {
                assert forall|j: int| 0 <= j < i as int + 1 implies #[trigger] terms@[j].0
                    == self.terms@[j].0 && oval(terms@[j].1) == fmul(
                    oval(self.terms@[j].1),
                    oval(*c),
                ) by {
                    if j < i as int {
                        assert(terms@[j] == pre[j]);
                        assert(pre[j].0 == self.terms@[j].0);
                    }
                }
            }
            i = i + 1;
        }
        let r = LinearCombination { terms };
        proof {
            assert forall|i: int| 0 <= i < lc_view(*self).len() implies lc_view(r)[i] == (
                lc_view(*self)[i].0,
                fmul(lc_view(*self)[i].1, oval(*c)),
            ) by {
                assert(lc_view(r)[i] == (r.terms@[i].0, oval(r.terms@[i].1)));
                assert(lc_view(*self)[i] == (self.terms@[i].0, oval(self.terms@[i].1)));
            }
        }
        r
    }
}

} // verus!
