//! Dispatch policy of the hybrid multi-scalar multiplication backends.
use vstd::prelude::*;

verus! {

/// Multi-scalar multiplications with at least this many bases go to the GPU;
/// smaller ones stay on the CPU, where the GPU's overhead is not repaid.
pub const GPU_MSM_THRESHOLD: usize = 512;

} // verus!
