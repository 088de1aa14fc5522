//! The opening proof: what the prover sends, in order.
use vstd::prelude::*;
use crate::messages::{FirstReduceMessage, SecondReduceMessage, ScalarProductMessage, VMVMessage};

verus! {

/// An opening proof for a polynomial laid out as a `2^nu × 2^sigma` matrix:
/// the vector-matrix-vector message, the two messages of each round, and
/// the final message.
pub struct DoryProof<G1, G2, GT> {
    pub vmv_message: VMVMessage<G1, GT>,
    pub first_messages: Vec<FirstReduceMessage<G1, G2, GT>>,
    pub second_messages: Vec<SecondReduceMessage<G1, G2, GT>>,
    pub final_message: ScalarProductMessage<G1, G2>,
    pub nu: usize,
    pub sigma: usize,
}

} // verus!
