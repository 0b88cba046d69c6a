//! The read-only generator providers the verifier consumes: the two
//! Pedersen bases and the Bulletproofs generator vectors.

#![allow(non_snake_case)]

use vstd::prelude::*;
use crate::points::PointBytes;

verus! {

/// The Pedersen commitment bases `B` and `B_blinding`.
#[derive(Clone, Copy, Debug)]
pub struct PedersenGens {
    pub B: PointBytes,
    pub B_blinding: PointBytes,
}

/// The Bulletproofs generator vectors `G` and `H` for a single party,
/// of equal length `gens_capacity`.
#[derive(Clone, Debug)]
pub struct BulletproofGens {
    g_vec: Vec<PointBytes>,
    h_vec: Vec<PointBytes>,
}

impl BulletproofGens {
    /// The ordered `G` generators.
    pub closed spec fn g(self) -> Seq<PointBytes> {
        self.g_vec@
    }

    /// The ordered `H` generators.
    pub closed spec fn h(self) -> Seq<PointBytes> {
        self.h_vec@
    }

    /// Both vectors hold exactly `gens_capacity` points.
    pub open spec fn wf(self) -> bool {
        self.g().len() == self.h().len()
    }

    /// Bundles two equal-length generator vectors.
    pub fn new(g_vec: Vec<PointBytes>, h_vec: Vec<PointBytes>) -> (r: BulletproofGens)
        requires
            g_vec@.len() == h_vec@.len(),
        ensures
            r.wf(),
            r.g() == g_vec@,
            r.h() == h_vec@,
    {
        BulletproofGens { g_vec, h_vec }
    }

    /// How many multipliers this generator set can support.
    pub fn gens_capacity(&self) -> (r: usize)
        ensures
            r == self.g().len(),
    {
        self.g_vec.len()
    }

    /// The ordered `G` generators, by reference.
    pub(crate) fn g_vec_ref(&self) -> (r: &Vec<PointBytes>)
        ensures
            r@ == self.g(),
    {
        &self.g_vec
    }

    /// The ordered `H` generators, by reference.
    pub(crate) fn h_vec_ref(&self) -> (r: &Vec<PointBytes>)
        ensures
            r@ == self.h(),
    {
        &self.h_vec
    }

    /// The `i`-th `G` generator.
    pub fn g_at(&self, i: usize) -> (r: PointBytes)
        requires
            i < self.g().len(),
        ensures
            r == self.g()[i as int],
    {
        self.g_vec[i]
    }

    /// The `i`-th `H` generator.
    pub fn h_at(&self, i: usize) -> (r: PointBytes)
        requires
            i < self.h().len(),
        ensures
            r == self.h()[i as int],
    {
        self.h_vec[i]
    }
}

} // verus!
