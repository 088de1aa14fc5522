//! The public parameters of the opening protocol, as the prover and the
//! verifier hold them.
use vstd::prelude::*;
use crate::arithmetic::PairingCurve;

verus! {

/// Parameters the prover folds against: the generator vectors of both source
/// groups and the blinding generators.
pub struct ProverSetup<E: PairingCurve> {
    /// Generators `Γ₁` of G1.
    pub g1_vec: Vec<E::G1>,
    /// Generators `Γ₂` of G2.
    pub g2_vec: Vec<E::G2>,
    /// Blinding generator of G1.
    pub h1: E::G1,
    /// Blinding generator of G2.
    pub h2: E::G2,
    /// `e(h1, h2)`.
    pub ht: E::GT,
}

/// Parameters the verifier accumulates against: per-round pairings of the
/// generator halves, the first generators and the blinding generators.
pub struct VerifierSetup<E: PairingCurve> {
    /// `χ[k]`: the pairing of the first `2^k` generators of both groups.
    pub chi: Vec<E::GT>,
    /// `Δ₁L[k]`: left-half pairing for the `D₁` update of round `k`.
    pub delta_1l: Vec<E::GT>,
    /// `Δ₁R[k]`: right-half pairing for the `D₁` update of round `k`.
    pub delta_1r: Vec<E::GT>,
    /// `Δ₂L[k]`: left-half pairing for the `D₂` update of round `k`.
    pub delta_2l: Vec<E::GT>,
    /// `Δ₂R[k]`: right-half pairing for the `D₂` update of round `k`.
    pub delta_2r: Vec<E::GT>,
    /// First generator of G1.
    pub g1_0: E::G1,
    /// First generator of G2.
    pub g2_0: E::G2,
    /// Blinding generator of G1.
    pub h1: E::G1,
    /// Blinding generator of G2.
    pub h2: E::G2,
    /// `e(h1, h2)`.
    pub ht: E::GT,
}

/// An entry-for-entry copy of `v`.
pub fn copy_vec<T: Copy>(v: &Vec<T>) -> (r: Vec<T>)
    ensures
        r@ == v@,
{
    let mut out: Vec<T> = Vec::new();
    let mut i: usize = 0;
    while i < v.len()
        invariant
            i <= v@.len(),
            out@ == v@.subrange(0, i as int),
        decreases v@.len() - i,
    {
        out.push(v[i]);
        i = i + 1;
    }
    proof {
        assert(out@ =~= v@);
    }
    out
}

impl<E: PairingCurve> Clone for ProverSetup<E> {
    fn clone(&self) -> (r: Self)
        ensures
            r.g1_vec@ == self.g1_vec@,
            r.g2_vec@ == self.g2_vec@,
            r.h1 == self.h1,
            r.h2 == self.h2,
            r.ht == self.ht,
    {
        ProverSetup {
            g1_vec: copy_vec(&self.g1_vec),
            g2_vec: copy_vec(&self.g2_vec),
            h1: self.h1,
            h2: self.h2,
            ht: self.ht,
        }
    }
}

impl<E: PairingCurve> Clone for VerifierSetup<E> {
    fn clone(&self) -> (r: Self)
        ensures
            r.chi@ == self.chi@,
            r.delta_1l@ == self.delta_1l@,
            r.delta_1r@ == self.delta_1r@,
            r.delta_2l@ == self.delta_2l@,
            r.delta_2r@ == self.delta_2r@,
            r.g1_0 == self.g1_0,
            r.g2_0 == self.g2_0,
            r.h1 == self.h1,
            r.h2 == self.h2,
            r.ht == self.ht,
    {
        VerifierSetup {
            chi: copy_vec(&self.chi),
            delta_1l: copy_vec(&self.delta_1l),
            delta_1r: copy_vec(&self.delta_1r),
            delta_2l: copy_vec(&self.delta_2l),
            delta_2r: copy_vec(&self.delta_2r),
            g1_0: self.g1_0,
            g2_0: self.g2_0,
            h1: self.h1,
            h2: self.h2,
            ht: self.ht,
        }
    }
}

} // verus!
