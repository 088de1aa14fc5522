//! The Dory-Prime proof: one opening proof of the batch polynomial, with the
//! dimensions of the matrix layout.
use vstd::prelude::*;

verus! {

/// A Dory-Prime proof around the opening proof `P` of the batch polynomial.
#[derive(Debug, Clone)]
pub struct DoryPrimeProof<P> {
    /// The opening proof of the batch polynomial.
    pub batch_proof: P,
    /// Number of variables sigma (log of the vector size).
    pub sigma: usize,
    /// Number of rounds nu (for the matrix layout).
    pub nu: usize,
}

/// The serialized size of a proof with these dimensions.
pub open spec fn prime_proof_size(sigma: nat, nu: nat) -> nat {
    32 + sigma * 64 + nu * 32
}

impl<P> DoryPrimeProof<P> {
    /// A proof from its parts.
    pub fn new(batch_proof: P, sigma: usize, nu: usize) -> (r: Self)
        ensures
            r.batch_proof == batch_proof,
            r.sigma == sigma,
            r.nu == nu,
    {
        Self { batch_proof, sigma, nu }
    }

    /// Bytes needed to serialize the proof: `32 + 64·sigma + 32·nu`.
    pub fn serialized_size(&self) -> (r: usize)
        requires
            prime_proof_size(self.sigma as nat, self.nu as nat) <= usize::MAX,
        ensures
            r == prime_proof_size(self.sigma as nat, self.nu as nat),
    {
        32 + self.sigma * 64 + self.nu * 32
    }
}

} // verus!
