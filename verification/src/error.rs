//! Errors of the opening protocol.
use vstd::prelude::*;

verus! {

/// Why a proof was rejected or could not be built.
#[derive(Clone, Copy, Debug, PartialEq, Eq, Structural)]
pub enum DoryError {
    /// A check of the protocol failed, or a challenge had no inverse.
    InvalidProof,
    /// The evaluation point does not have `nu + sigma` coordinates.
    InvalidPointDimension { expected: usize, actual: usize },
    /// The matrix has more rows (`2^nu`) than columns (`2^sigma`).
    InvalidSize { expected: usize, actual: usize },
    /// A challenge drawn from the transcript has no inverse.
    ZeroChallenge,
}

} // verus!
