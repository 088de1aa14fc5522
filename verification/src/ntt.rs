//! Configuration and result types of NTT transforms.
use vstd::prelude::*;

verus! {

/// Largest supported transform size, 2^26.
pub const MAX_NTT_SIZE: usize = 67108864;

/// Transform configuration.
#[derive(Clone, Debug)]
pub struct NTTConfig {
    /// Log2 of the transform size.
    pub log_size: usize,
    /// Whether a GPU should run the transform.
    pub use_gpu: bool,
    /// Whether the transform is the inverse one.
    pub inverse: bool,
}

impl Default for NTTConfig {
    fn default() -> (r: Self)
        ensures
            r.log_size == 12,
            !r.use_gpu,
            !r.inverse,
    {
        Self { log_size: 12, use_gpu: false, inverse: false }
    }
}

impl NTTConfig {
    /// A forward CPU configuration of size `2^log_size`, at most 2^26.
    pub fn new(log_size: usize) -> (r: Self)
        requires
            log_size <= 26,
        ensures
            r.log_size == log_size,
            !r.use_gpu,
            !r.inverse,
    {
        Self { log_size, use_gpu: false, inverse: false }
    }

    /// The same configuration with the inverse flag set to `inverse`.
    pub fn with_inverse(self, inverse: bool) -> (r: Self)
        ensures
            r.inverse == inverse,
            r.log_size == self.log_size,
            r.use_gpu == self.use_gpu,
    {
        let mut s = self;
        s.inverse = inverse;
        s
    }

    /// The same configuration with the GPU flag set to `use_gpu`.
    pub fn with_gpu(self, use_gpu: bool) -> (r: Self)
        ensures
            r.use_gpu == use_gpu,
            r.log_size == self.log_size,
            r.inverse == self.inverse,
    {
        let mut s = self;
        s.use_gpu = use_gpu;
        s
    }
}

/// Output of a transform together with the configuration that produced it.
#[derive(Clone, Debug)]
pub struct NTTResult<F> {
    pub values: Vec<F>,
    pub config: NTTConfig,
}

impl<F> NTTResult<F> {
    pub fn new(values: Vec<F>, config: NTTConfig) -> (r: Self)
        ensures
            r.values@ == values@,
            r.config == config,
    {
        Self { values, config }
    }

    /// Number of values.
    pub fn len(&self) -> (r: usize)
        ensures
            r == self.values@.len(),
    {
        self.values.len()
    }

    /// Whether there are no values.
    pub fn is_empty(&self) -> (b: bool)
        ensures
            b == (self.values@.len() == 0),
    {
        self.values.len() == 0
    }
}

/// A field whose element vectors can be transformed.
pub trait NTTField: Sized {
    type Element;

    /// Forward transform.
    fn forward(&self, input: &[Self::Element]) -> Vec<Self::Element>;

    /// Inverse transform.
    fn inverse(&self, input: &[Self::Element]) -> Vec<Self::Element>;

    /// Pointwise product in evaluation form.
    fn multiply(&self, a: &[Self::Element], b: &[Self::Element]) -> Vec<Self::Element>;

    /// Evaluation form of a coefficient vector.
    fn poly_to_ntt(&self, poly: &[Self::Element]) -> Vec<Self::Element>;

    /// Coefficient form of an evaluation vector.
    fn ntt_to_poly(&self, ntt: &[Self::Element]) -> Vec<Self::Element>;
}

/// Commitment scheme over lattice polynomials; it holds no state.
pub struct LatticeCommitmentScheme;

impl LatticeCommitmentScheme {
    pub fn new() -> (r: Self) {
        Self
    }
}

} // verus!
