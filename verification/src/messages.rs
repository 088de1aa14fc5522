//! The messages the prover sends in the opening protocol.
use vstd::prelude::*;

verus! {

/// First message of a round: commitments to the halves of the vectors and
/// the cross terms for the first challenge.
#[derive(Clone, Copy, Debug)]
pub struct FirstReduceMessage<G1, G2, GT> {
    pub d1_left: GT,
    pub d1_right: GT,
    pub d2_left: GT,
    pub d2_right: GT,
    pub e1_beta: G1,
    pub e2_beta: G2,
}

/// Second message of a round: the cross pairings and cross products of the
/// halves after the first challenge.
#[derive(Clone, Copy, Debug)]
pub struct SecondReduceMessage<G1, G2, GT> {
    pub c_plus: GT,
    pub c_minus: GT,
    pub e1_plus: G1,
    pub e1_minus: G1,
    pub e2_plus: G2,
    pub e2_minus: G2,
}

/// The message of a round that folds four quarters at once.
#[derive(Clone, Copy, Debug)]
pub struct FirstReduceMessage4<G1, G2, GT> {
    pub d1: [GT; 4],
    pub d2: [GT; 4],
    pub c_raw: [GT; 16],
    pub e1_cross: [G1; 16],
    pub e2_cross: [G2; 16],
    pub e1_beta: G1,
    pub e2_beta: G2,
}

/// The final message: the folded vectors, each shifted along its blinding
/// generator.
#[derive(Clone, Copy, Debug)]
pub struct ScalarProductMessage<G1, G2> {
    pub e1: G1,
    pub e2: G2,
}

/// Zero-knowledge proof of the final scalar product.
#[derive(Clone, Copy, Debug)]
pub struct ScalarProductProof<G1, G2, F, GT> {
    pub p1: GT,
    pub p2: GT,
    pub q: GT,
    pub r: GT,
    pub e1: G1,
    pub e2: G2,
    pub r1: F,
    pub r2: F,
    pub r3: F,
}

/// The vector-matrix-vector message that opens the proof: the commitment to
/// the product with the row commitments, `D₂`, and `E₁`.
#[derive(Clone, Copy, Debug)]
pub struct VMVMessage<G1, GT> {
    pub c: GT,
    pub d2: GT,
    pub e1: G1,
}

/// Proof of knowledge of the opening `(y, r_E2, r_y)` of the evaluation
/// commitments: the commitments `a1`, `a2` to the nonces and the responses.
#[derive(Clone, Copy, Debug)]
pub struct Sigma1Proof<G1, G2, F> {
    pub a1: G2,
    pub a2: G1,
    pub z1: F,
    pub z2: F,
    pub z3: F,
}

/// Proof that `e(E₁, Γ₂[0]) - D₂ = e(H₁, t₁·Γ₂[0] + t₂·H₂)`: the commitment
/// `a` to the nonces and the responses.
#[derive(Clone, Copy, Debug)]
pub struct Sigma2Proof<F, GT> {
    pub a: GT,
    pub z1: F,
    pub z2: F,
}

} // verus!
