//! The GPU NTT engine's configuration and errors, and the direct `O(n²)`
//! transforms that its results are held against.
use vstd::prelude::*;
use vstd::arithmetic::power2::{pow2, lemma2_to64, lemma_pow2_unfold, lemma_pow2_strictly_increases};
use crate::arithmetic::Field;
use crate::reduce_and_fold::{f_inv, invertible};

verus! {

/// Largest supported log size of a transform (2^26 elements).
pub const MAX_NTT_LOG_SIZE: usize = 26;

/// The GPU NTT engine for transforms of size `2^log_size`.
#[derive(Clone, Copy, Debug)]
pub struct ZkMetalNttEngine {
    log_size: usize,
}

impl ZkMetalNttEngine {
    /// The log size of the transforms.
    pub closed spec fn spec_log_size(&self) -> nat {
        self.log_size as nat
    }

    /// An engine for transforms of size `2^log_size`; the log size is at
    /// most `MAX_NTT_LOG_SIZE`.
    pub fn new(log_size: usize) -> (r: Self)
        requires
            log_size <= MAX_NTT_LOG_SIZE,
        ensures
            r.spec_log_size() == log_size,
    {
        Self { log_size }
    }
}

/// Errors of the GPU engine.
#[derive(Debug, Clone)]
pub enum ZkMetalError {
    /// The GPU library reported a failure.
    NttFailed(String),
    /// GPU support is not compiled in.
    FeatureNotEnabled,
    /// Input size mismatch.
    SizeMismatch,
}

/// `x^e` in `F`, by repeated multiplication.
pub open spec fn f_pow<F: Field>(x: F, e: nat) -> F
    decreases e,
{
    if e == 0 {
        F::spec_one()
    } else {
        F::spec_mul(f_pow(x, (e - 1) as nat), x)
    }
}

/// `Σ_{j<n} a_j·x^j`, the polynomial with coefficients `a` at `x`, summed
/// from `j = 0` up.
pub open spec fn eval_sum<F: Field>(a: Seq<F>, x: F, n: nat) -> F
    decreases n,
{
    if n == 0 {
        F::spec_zero()
    } else {
        F::spec_add(eval_sum(a, x, (n - 1) as nat), F::spec_mul(a[n - 1], f_pow(x, (n - 1) as nat)))
    }
}

/// `2^log_n`, for a `log_n` whose power fits below `bound`.
fn pow2_below(log_n: usize, bound: usize) -> (n: usize)
    requires
        pow2(log_n as nat) <= bound,
    ensures
        n == pow2(log_n as nat),
{
    let mut n: usize = 1;
    let mut i: usize = 0;
    proof {
        lemma2_to64();
    }
    while i < log_n
        invariant
            i <= log_n,
            n == pow2(i as nat),
            pow2(log_n as nat) <= bound,
        decreases log_n - i,
    {
        proof {
            lemma_pow2_unfold((i + 1) as nat);
            if i + 1 < log_n {
                lemma_pow2_strictly_increases((i + 1) as nat, log_n as nat);
            }
        }
        n = n * 2;
        i = i + 1;
    }
    n
}

/// The values `Σ_{j<n} a_j·x^j` of the first `n` inputs at `x = 1, w, w², …,
/// w^(n-1)`.
fn evaluate_at_powers<F: Field>(input: &[F], w: &F, n: usize) -> (r: Vec<F>)
    requires
        n <= input@.len(),
    ensures
        r@.len() == n,
        forall|k: int| 0 <= k < n ==> #[trigger] r@[k] == eval_sum(input@, f_pow(*w, k as nat), n as nat),
{
    let mut result: Vec<F> = Vec::new();
    let mut w_k = F::one();
    let mut k: usize = 0;
    while k < n
        invariant
            k <= n,
            n <= input@.len(),
            result@.len() == k,
            w_k == f_pow(*w, k as nat),
            forall|t: int| 0 <= t < k ==> #[trigger] result@[t] == eval_sum(input@, f_pow(*w, t as nat), n as nat),
        decreases n - k,
    {
        let mut sum = F::zero();
        let mut w_pow = F::one();
        let mut j: usize = 0;
        while j < n
            invariant
                j <= n,
                n <= input@.len(),
                sum == eval_sum(input@, w_k, j as nat),
                w_pow == f_pow(w_k, j as nat),
            decreases n - j,
        {
            sum = sum.add(&input[j].mul(&w_pow));
            w_pow = w_pow.mul(&w_k);
            j = j + 1;
        }
        result.push(sum);
        w_k = w_k.mul(w);
        k = k + 1;
    }
    result
}

/// The direct transform of size `n = 2^log_n`: entry `k` is
/// `Σ_{j<n} input_j·ω^(jk)`, the input polynomial at `ω^k`.
pub fn naive_ntt<F: Field>(input: &[F], omega: &F, log_n: usize) -> (r: Vec<F>)
    requires
        pow2(log_n as nat) <= input@.len(),
    ensures
        r@.len() == pow2(log_n as nat),
        forall|k: int| 0 <= k < r@.len() ==> #[trigger] r@[k] == eval_sum(input@, f_pow(*omega, k as nat), pow2(log_n as nat)),
{
    let n = pow2_below(log_n, input.len());
    evaluate_at_powers(input, omega, n)
}

/// The direct inverse transform of size `n = 2^log_n`: entry `j` is
/// `n⁻¹·Σ_{k<n} input_k·ω⁻¹^(jk)`, where `n` must be invertible in `F`.
pub fn naive_intt<F: Field>(input: &[F], omega_inv: &F, log_n: usize) -> (r: Vec<F>)
    requires
        pow2(log_n as nat) <= input@.len(),
        invertible(F::spec_from_u64(pow2(log_n as nat) as u64)),
    ensures
        r@.len() == pow2(log_n as nat),
        forall|j: int| 0 <= j < r@.len() ==> #[trigger] r@[j] == F::spec_mul(
            eval_sum(input@, f_pow(*omega_inv, j as nat), pow2(log_n as nat)),
            f_inv(F::spec_from_u64(pow2(log_n as nat) as u64)),
        ),
{
    let n = pow2_below(log_n, input.len());
    let inv_n = F::from_u64(n as u64).inv().unwrap();
    let sums = evaluate_at_powers(input, omega_inv, n);
    let mut result: Vec<F> = Vec::new();
    let mut j: usize = 0;
    while j < n
        invariant
            j <= n,
            sums@.len() == n,
            result@.len() == j,
            inv_n == f_inv(F::spec_from_u64(n as u64)),
            forall|t: int| 0 <= t < j ==> #[trigger] result@[t] == F::spec_mul(sums@[t], inv_n),
        decreases n - j,
    {
        result.push(sums[j].mul(&inv_n));
        j = j + 1;
    }
    result
}

} // verus!
