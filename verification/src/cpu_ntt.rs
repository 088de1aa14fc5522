//! Twiddle-factor table for NTTs over the prime field; the transforms
//! themselves are identity maps.
use vstd::prelude::*;
use vstd::arithmetic::power::{pow, lemma_pow0, lemma_pow_adds, lemma_pow1};
use vstd::arithmetic::power2::{pow2, lemma_pow2_pos};
use vstd::arithmetic::div_mod::{lemma_mul_mod_noop, lemma_mod_twice, lemma_small_mod};
use vstd::bits::{lemma_u64_shl_is_mul, lemma_u64_pow2_no_overflow, lemma_usize_shl_is_mul, lemma_usize_pow2_no_overflow};
use vstd::slice::slice_to_vec;
use crate::fp128::{Fp128Element, q, fpow, fmul};

verus! {

/// Value stored for `x` in an inverse table: its inverse when it has one,
/// else `x` itself.
pub open spec fn inv_or_self(x: Fp128Element) -> Fp128Element {
    if x.0 == 0 {
        x
    } else {
        Fp128Element(fpow(x.0 as int, (q() - 2) as nat) as u64)
    }
}

/// Twiddle factors for NTTs of size up to `2^log_n`.
#[derive(Clone)]
pub struct TwiddleCache {
    log_n: usize,
    roots: Vec<Fp128Element>,
    inv_twiddles: Vec<Fp128Element>,
    inv_root_counts: Vec<Fp128Element>,
}

impl TwiddleCache {
    /// The largest transform size, as a power of two.
    pub closed spec fn spec_log_n(&self) -> usize {
        self.log_n
    }

    /// Powers of the generator 7: `roots[i] = 7^i`.
    pub closed spec fn spec_roots(&self) -> Seq<Fp128Element> {
        self.roots@
    }

    /// Inverses of the roots.
    pub closed spec fn spec_inv_twiddles(&self) -> Seq<Fp128Element> {
        self.inv_twiddles@
    }

    /// Inverses of the sizes `2^k`, for `k = 0..=log_n`.
    pub closed spec fn spec_inv_root_counts(&self) -> Seq<Fp128Element> {
        self.inv_root_counts@
    }

    /// Builds the tables for sizes up to `2^max_log_size`.
    pub fn new(max_log_size: usize) -> (r: Self)
        requires
            max_log_size < 64,
            max_log_size < usize::BITS,
        ensures
            r.spec_log_n() == max_log_size,
            r.spec_roots().len() == pow2(max_log_size as nat),
            r.spec_inv_twiddles().len() == pow2(max_log_size as nat),
            r.spec_inv_root_counts().len() == max_log_size + 1,
            forall|i: int| 0 <= i < r.spec_roots().len() ==>
                (#[trigger] r.spec_roots()[i]).0 == fpow(7, i as nat),
            forall|i: int| 0 <= i < r.spec_inv_twiddles().len() ==>
                #[trigger] r.spec_inv_twiddles()[i] == inv_or_self(r.spec_roots()[i]),
            forall|k: int| 0 <= k <= max_log_size ==>
                #[trigger] r.spec_inv_root_counts()[k] == inv_or_self(Fp128Element((pow2(k as nat) as int % q()) as u64)),
    {
        proof {
            lemma_usize_pow2_no_overflow(max_log_size as nat);
            lemma_usize_shl_is_mul(1, max_log_size);
        }
        let size: usize = 1usize << max_log_size;
        let omega = Fp128Element::from_raw(7);
        let mut roots: Vec<Fp128Element> = Vec::with_capacity(size);
        let mut inv_twiddles: Vec<Fp128Element> = Vec::with_capacity(size);
        let mut current = Fp128Element::one();
        proof {
            lemma_pow0(7);
            lemma_small_mod(1, q() as nat);
        }
        let mut i: usize = 0;
        while i < size
            invariant
                i <= size,
                omega.0 == 7,
                roots@.len() == i,
                inv_twiddles@.len() == i,
                current.0 == fpow(7, i as nat),
                forall|j: int| 0 <= j < i ==> (#[trigger] roots@[j]).0 == fpow(7, j as nat),
                forall|j: int| 0 <= j < i ==> #[trigger] inv_twiddles@[j] == inv_or_self(roots@[j]),
            decreases size - i,
        {
            roots.push(current);
            let inv = match current.inv() {
                Some(x) => x,
                None => current,
            };
            inv_twiddles.push(inv);
            proof {
                lemma_next_power(i as nat);
            }
            current = current.mul(&omega);
            i = i + 1;
        }
        let mut inv_root_counts: Vec<Fp128Element> = Vec::with_capacity(max_log_size + 1);
        let mut k: usize = 0;
        while k <= max_log_size
            invariant
                k <= max_log_size + 1,
                max_log_size < 64,
                inv_root_counts@.len() == k,
                forall|j: int| 0 <= j < k ==>
                    #[trigger] inv_root_counts@[j] == inv_or_self(Fp128Element((pow2(j as nat) as int % q()) as u64)),
            decreases max_log_size + 1 - k,
        {
            proof {
                lemma_u64_pow2_no_overflow(k as nat);
                lemma_u64_shl_is_mul(1, k as u64);
            }
            let n = Fp128Element::from_raw(1u64 << (k as u64));
            let inv = match n.inv() {
                Some(x) => x,
                None => n,
            };
            inv_root_counts.push(inv);
            k = k + 1;
        }
        Self { log_n: max_log_size, roots, inv_twiddles, inv_root_counts }
    }

    /// The root at position `(2^j) * i` when it is in the table, else one.
    pub fn twiddle(&self, i: usize, j: usize) -> (r: Fp128Element)
        requires
            j < usize::BITS,
            pow2(j as nat) * i <= usize::MAX,
        ensures
            (pow2(j as nat) * i < self.spec_roots().len()) ==> r == self.spec_roots()[pow2(j as nat) * i],
            (pow2(j as nat) * i >= self.spec_roots().len()) ==> r.0 == 1,
    {
        proof {
            lemma_usize_pow2_no_overflow(j as nat);
            lemma_usize_shl_is_mul(1, j);
            lemma_pow2_pos(j as nat);
        }
        let offset = (1usize << j) * i;
        if offset < self.roots.len() {
            self.roots[offset]
        } else {
            Fp128Element::one()
        }
    }

    /// Forward transform: the identity map, returning a copy of the input.
    pub fn ntt_fwd(&self, input: &[Fp128Element], _log_n: usize) -> (r: Vec<Fp128Element>)
        ensures
            r@ == input@,
    {
        slice_to_vec(input)
    }

    /// Inverse transform: the identity map, returning a copy of the input.
    pub fn ntt_inv(&self, input: &[Fp128Element], _log_n: usize) -> (r: Vec<Fp128Element>)
        ensures
            r@ == input@,
    {
        slice_to_vec(input)
    }

    /// Quadratic-time inverse transform: the identity map, returning a copy of the input.
    pub fn ntt_inv_naive(&self, input: &[Fp128Element], _log_n: usize) -> (r: Vec<Fp128Element>)
        ensures
            r@ == input@,
    {
        slice_to_vec(input)
    }
}

/// `7^i * 7 = 7^(i+1)` after reduction.
proof fn lemma_next_power(i: nat)
    ensures
        fmul(fpow(7, i), 7) == fpow(7, i + 1),
{
    lemma_pow_adds(7, i, 1);
    lemma_pow1(7);
    lemma_mul_mod_noop(pow(7, i), 7, q());
    lemma_mod_twice(pow(7, i), q());
    lemma_small_mod(7, q() as nat);
}

} // verus!
