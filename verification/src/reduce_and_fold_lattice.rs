//! The reduce-and-fold protocol over lattice polynomials: the prover folds
//! its vectors in half each round, the verifier accumulates field values.
use vstd::prelude::*;
use vstd::arithmetic::power2::pow2;
use vstd::std_specs::bits::{u64_trailing_zeros, axiom_u64_trailing_zeros};
use vstd::bits::{lemma_u64_shl_is_mul, lemma_u64_pow2_no_overflow, lemma_usize_shl_is_mul, lemma_usize_pow2_no_overflow};
use crate::fp128::{Fp128Element, q, fmul, fpow};
use crate::fp128_laws::{lemma_mul_associative, lemma_mul_commutative, lemma_results_canonical};
use crate::fp128_order::lemma_inverse;
use crate::kyber::KyberCurve;
use crate::lattice_trait::{
    LatticeCurve, LatticeElement, LatticeField, element_values, pointwise_add, pointwise_sub,
    pointwise_scale, pointwise_sub_req,
};
use std::marker::PhantomData;
use vstd::std_specs::cmp::PartialEqSpec;

verus! {

/// `n` is `2^k` for some `k < 64`.
pub open spec fn is_power_of_two(n: nat) -> bool {
    exists|k: nat| k < 64 && n == pow2(k)
}

/// The halves of a vector of polynomials can be added and subtracted entry-wise.
pub open spec fn halves_combinable<F: LatticeField>(v: Seq<Seq<F>>) -> bool {
    forall|i: int| 0 <= i < v.len() / 2 ==> #[trigger] pointwise_sub_req(v[i], v[i + v.len() / 2])
}

/// `v[i] + v[i + half]` for each `i < half`.
pub open spec fn sum_halves<F: LatticeField>(v: Seq<Seq<F>>) -> Seq<Seq<F>> {
    Seq::new(v.len() / 2, |i: int| pointwise_add(v[i], v[i + v.len() / 2]))
}

/// `v[i] - v[i + half]` for each `i < half`.
pub open spec fn diff_halves<F: LatticeField>(v: Seq<Seq<F>>) -> Seq<Seq<F>> {
    Seq::new(v.len() / 2, |i: int| pointwise_sub(v[i], v[i + v.len() / 2]))
}

/// `v[i] + k * v[i + half]` for each `i < half`.
pub open spec fn fold_polys<F: LatticeField>(v: Seq<Seq<F>>, k: F) -> Seq<Seq<F>> {
    Seq::new(v.len() / 2, |i: int| pointwise_add(v[i], pointwise_scale(v[i + v.len() / 2], k)))
}

/// `s[i] * k + s[i + half]` for each `i < half`.
pub open spec fn fold_scalars<F: LatticeField>(s: Seq<F>, k: F) -> Seq<F> {
    Seq::new(s.len() / 2, |i: int| F::lat_add(F::lat_mul(s[i], k), s[i + s.len() / 2]))
}

/// The inverse of `x` when it has one, else `x` itself.
pub open spec fn inverse_or_self<F: LatticeField>(x: F) -> F {
    match F::lat_inv(x) {
        Some(y) => y,
        None => x,
    }
}

/// The field value of a frequency-form polynomial with values `v`: that of
/// its coefficient form.
pub open spec fn poly_field<E: LatticeCurve>(v: Seq<E::Field>) -> E::Field {
    <E::Polynomial as LatticeElement>::lat_field_of(E::lat_intt(v))
}

/// `Σ_{i < n} s[i] * field(v[i])`, accumulated from zero.
pub open spec fn weighted_sum<E: LatticeCurve>(s: Seq<E::Field>, v: Seq<Seq<E::Field>>, n: nat) -> E::Field
    decreases n,
{
    if n == 0 {
        E::Field::lat_zero()
    } else {
        E::Field::lat_add(weighted_sum::<E>(s, v, (n - 1) as nat), E::Field::lat_mul(s[n - 1], poly_field::<E>(v[n - 1])))
    }
}

/// `Σ_{i < n} s1[i] * s2[i] * field(v1[i]) * field(v2[i])`, accumulated from zero.
pub open spec fn final_sum<E: LatticeCurve>(
    s1: Seq<E::Field>,
    s2: Seq<E::Field>,
    v1: Seq<Seq<E::Field>>,
    v2: Seq<Seq<E::Field>>,
    n: nat,
) -> E::Field
    decreases n,
{
    if n == 0 {
        E::Field::lat_zero()
    } else {
        E::Field::lat_add(
            final_sum::<E>(s1, s2, v1, v2, (n - 1) as nat),
            E::Field::lat_mul(
                E::Field::lat_mul(E::Field::lat_mul(s1[n - 1], s2[n - 1]), poly_field::<E>(v1[n - 1])),
                poly_field::<E>(v2[n - 1]),
            ),
        )
    }
}

/// Prover setup for the lattice curve `E`: the polynomial size and the
/// largest supported log size.
#[derive(Debug)]
pub struct LatticeProverSetup<E: LatticeCurve> {
    pub n: usize,
    pub max_log_n: usize,
    pub _curve: PhantomData<E>,
}

impl<E: LatticeCurve> LatticeProverSetup<E> {
    /// Setup for `n = 2^max_log_n`.
    pub fn new(max_log_n: usize) -> (r: Self)
        requires
            max_log_n < usize::BITS,
        ensures
            r.n == pow2(max_log_n as nat),
            r.max_log_n == max_log_n,
    {
        proof {
            lemma_usize_pow2_no_overflow(max_log_n as nat);
            lemma_usize_shl_is_mul(1, max_log_n);
        }
        Self { n: 1usize << max_log_n, max_log_n, _curve: PhantomData }
    }
}

impl<E: LatticeCurve> Default for LatticeProverSetup<E> {
    fn default() -> (r: Self)
        ensures
            r.n == 4096,
            r.max_log_n == 12,
    {
        Self { n: 4096, max_log_n: 12, _curve: PhantomData }
    }
}

/// Verifier setup for the lattice curve `E`: the polynomial size and the
/// largest supported log size.
#[derive(Debug)]
pub struct LatticeVerifierSetup<E: LatticeCurve> {
    pub n: usize,
    pub max_log_n: usize,
    pub _curve: PhantomData<E>,
}

impl<E: LatticeCurve> LatticeVerifierSetup<E> {
    /// Setup for `n = 2^max_log_n`.
    pub fn new(max_log_n: usize) -> (r: Self)
        requires
            max_log_n < usize::BITS,
        ensures
            r.n == pow2(max_log_n as nat),
            r.max_log_n == max_log_n,
    {
        proof {
            lemma_usize_pow2_no_overflow(max_log_n as nat);
            lemma_usize_shl_is_mul(1, max_log_n);
        }
        Self { n: 1usize << max_log_n, max_log_n, _curve: PhantomData }
    }
}

impl<E: LatticeCurve> Default for LatticeVerifierSetup<E> {
    fn default() -> (r: Self)
        ensures
            r.n == 4096,
            r.max_log_n == 12,
    {
        Self { n: 4096, max_log_n: 12, _curve: PhantomData }
    }
}

impl<E: LatticeCurve> Clone for LatticeProverSetup<E> {
    fn clone(&self) -> (r: Self)
        ensures
            r.n == self.n,
            r.max_log_n == self.max_log_n,
    {
        Self { n: self.n, max_log_n: self.max_log_n, _curve: PhantomData }
    }
}

impl<E: LatticeCurve> Clone for LatticeVerifierSetup<E> {
    fn clone(&self) -> (r: Self)
        ensures
            r.n == self.n,
            r.max_log_n == self.max_log_n,
    {
        Self { n: self.n, max_log_n: self.max_log_n, _curve: PhantomData }
    }
}

/// The prover setup matching a verifier setup.
pub fn prover_from_verifier<E: LatticeCurve>(verifier: &LatticeVerifierSetup<E>) -> (r: LatticeProverSetup<E>)
    ensures
        r.n == verifier.n,
        r.max_log_n == verifier.max_log_n,
{
    LatticeProverSetup { n: verifier.n, max_log_n: verifier.max_log_n, _curve: PhantomData }
}

/// The prover's message of one round.
#[derive(Clone, Copy, Debug)]
pub struct LatticeFirstReduceMessage<F: LatticeField> {
    pub d1_left: F,
    pub d1_right: F,
    pub d2_left: F,
    pub d2_right: F,
    pub e1: F,
    pub e2: F,
}

/// Prover state: the vectors still to be folded.
pub struct LatticeDoryProverState<'a, E: LatticeCurve> {
    v1: Vec<E::PolynomialNTT>,
    v2: Vec<E::PolynomialNTT>,
    s1: Vec<E::Field>,
    s2: Vec<E::Field>,
    num_rounds: usize,
    setup: &'a LatticeProverSetup<E>,
    r_blind: E::Field,
}

/// `2^k` has exactly `k` trailing zero bits.
pub proof fn lemma_trailing_zeros_pow2(k: nat)
    requires
        k < 64,
    ensures
        u64_trailing_zeros(pow2(k) as u64) == k,
{
    lemma_u64_pow2_no_overflow(k);
    lemma_u64_shl_is_mul(1, k as u64);
    let x = 1u64 << (k as u64);
    axiom_u64_trailing_zeros(x);
    let t = u64_trailing_zeros(x);
    let kk = k as u64;
    assert(x != 0) by (bit_vector)
        requires
            x == 1u64 << kk,
            kk < 64,
    ;
    let tt = t as u64;
    assert(tt == kk) by (bit_vector)
        requires
            x == 1u64 << kk,
            kk < 64,
            tt < 64,
            (x >> tt) & 1u64 == 1u64,
            forall|j: u64| 0 <= j < tt ==> #[trigger] (x >> j) & 1u64 == 0u64,
    ;
}

impl<'a, E: LatticeCurve> LatticeDoryProverState<'a, E> {
    pub closed spec fn spec_v1(&self) -> Seq<Seq<E::Field>> {
        element_values(self.v1@)
    }

    pub closed spec fn spec_v2(&self) -> Seq<Seq<E::Field>> {
        element_values(self.v2@)
    }

    pub closed spec fn spec_s1(&self) -> Seq<E::Field> {
        self.s1@
    }

    pub closed spec fn spec_s2(&self) -> Seq<E::Field> {
        self.s2@
    }

    pub closed spec fn spec_num_rounds(&self) -> nat {
        self.num_rounds as nat
    }

    pub closed spec fn spec_setup(&self) -> &'a LatticeProverSetup<E> {
        self.setup
    }

    /// The blinding added to the final message; zero throughout.
    pub closed spec fn spec_r_blind(&self) -> E::Field {
        self.r_blind
    }

    /// All four vectors have length `2^num_rounds`.
    pub open spec fn wf(&self) -> bool {
        &&& self.spec_v1().len() == pow2(self.spec_num_rounds())
        &&& self.spec_v2().len() == pow2(self.spec_num_rounds())
        &&& self.spec_s1().len() == pow2(self.spec_num_rounds())
        &&& self.spec_s2().len() == pow2(self.spec_num_rounds())
        &&& self.spec_num_rounds() < 64
        &&& self.spec_r_blind() == E::Field::lat_zero()
    }

    /// A prover over vectors of equal power-of-two length; the number of
    /// rounds is the log of that length.
    pub fn new(
        v1: Vec<E::PolynomialNTT>,
        v2: Vec<E::PolynomialNTT>,
        s1: Vec<E::Field>,
        s2: Vec<E::Field>,
        setup: &'a LatticeProverSetup<E>,
    ) -> (r: Self)
        requires
            v1@.len() == v2@.len(),
            v1@.len() == s1@.len(),
            v1@.len() == s2@.len(),
            is_power_of_two(v1@.len()),
        ensures
            r.wf(),
            pow2(r.spec_num_rounds()) == v1@.len(),
            r.spec_v1() == element_values(v1@),
            r.spec_v2() == element_values(v2@),
            r.spec_s1() == s1@,
            r.spec_s2() == s2@,
            r.spec_setup() == setup,
    {
        let ghost k = choose|k: nat| k < 64 && v1@.len() == pow2(k);
        proof {
            lemma_trailing_zeros_pow2(k);
        }
        let num_rounds = (v1.len() as u64).trailing_zeros() as usize;
        Self { v1, v2, s1, s2, num_rounds, setup, r_blind: E::Field::zero() }
    }

    /// Number of rounds left.
    pub fn num_rounds(&self) -> (r: usize)
        ensures
            r == self.spec_num_rounds(),
    {
        self.num_rounds
    }

    /// The field value of a frequency-form polynomial: that of its
    /// coefficient form.
    fn sum_poly(poly: &E::PolynomialNTT) -> (r: E::Field)
        ensures
            r == poly_field::<E>(poly.lat_values()),
    {
        let coeff = E::from_ntt(poly);
        coeff.to_field()
    }

    /// `Σ_i s[i] * field(v[i])`.
    fn weighted(s: &Vec<E::Field>, v: &Vec<E::PolynomialNTT>) -> (r: E::Field)
        requires
            s@.len() == v@.len(),
        ensures
            r == weighted_sum::<E>(s@, element_values(v@), v@.len()),
    {
        let mut sum = E::Field::zero();
        let mut i: usize = 0;
        while i < v.len()
            invariant
                i <= v@.len(),
                s@.len() == v@.len(),
                sum == weighted_sum::<E>(s@, element_values(v@), i as nat),
            decreases v@.len() - i,
        {
            let poly_sum = Self::sum_poly(&v[i]);
            let term = s[i].mul(&poly_sum);
            sum = sum.add(&term);
            i = i + 1;
        }
        sum
    }

    /// Sends the round message for challenge `beta` and folds the vectors in half.
    pub fn compute_first_message(&mut self, beta: &E::Field) -> (m: LatticeFirstReduceMessage<E::Field>)
        requires
            old(self).wf(),
            old(self).spec_num_rounds() >= 1,
            halves_combinable(old(self).spec_v1()),
            halves_combinable(old(self).spec_v2()),
        ensures
            ({
                let v1 = old(self).spec_v1();
                let v2 = old(self).spec_v2();
                let bb = E::Field::lat_mul(*beta, *beta);
                &&& m.d1_left == E::lat_inner(sum_halves(v1), sum_halves(v2))
                &&& m.d1_right == E::lat_inner(diff_halves(v1), diff_halves(v2))
                &&& m.d2_left == E::Field::lat_mul(m.d1_left, bb)
                &&& m.d2_right == E::Field::lat_mul(m.d1_right, bb)
                &&& m.e1 == weighted_sum::<E>(old(self).spec_s1(), v1, v1.len())
                &&& m.e2 == weighted_sum::<E>(old(self).spec_s2(), v2, v2.len())
            }),
            final(self).wf(),
            final(self).spec_num_rounds() == old(self).spec_num_rounds() - 1,
            final(self).spec_v1() == fold_polys(old(self).spec_v1(), *beta),
            final(self).spec_v2() == fold_polys(old(self).spec_v2(), inverse_or_self(*beta)),
            final(self).spec_s1() == fold_scalars(old(self).spec_s1(), *beta),
            final(self).spec_s2() == fold_scalars(old(self).spec_s2(), inverse_or_self(*beta)),
            final(self).spec_setup() == old(self).spec_setup(),
    {
        let n = self.v1.len();
        let half = n / 2;
        proof {
            vstd::arithmetic::power2::lemma_pow2_unfold(self.num_rounds as nat);
        }
        let (v1_left, v1_right) = Self::split_combine(&self.v1);
        let (v2_left, v2_right) = Self::split_combine(&self.v2);
        let d1_left = E::inner_product(v1_left.as_slice(), v2_left.as_slice());
        let d1_right = E::inner_product(v1_right.as_slice(), v2_right.as_slice());
        let beta_sq = beta.mul(beta);
        let d2_left = d1_left.mul(&beta_sq);
        let d2_right = d1_right.mul(&beta_sq);
        let e1 = Self::weighted(&self.s1, &self.v1);
        let e2 = Self::weighted(&self.s2, &self.v2);
        self.fold_vectors(beta);
        LatticeFirstReduceMessage { d1_left, d1_right, d2_left, d2_right, e1, e2 }
    }

    /// The sums and differences of the two halves of `v`.
    fn split_combine(v: &Vec<E::PolynomialNTT>) -> (r: (Vec<E::PolynomialNTT>, Vec<E::PolynomialNTT>))
        requires
            halves_combinable(element_values(v@)),
        ensures
            element_values(r.0@) == sum_halves(element_values(v@)),
            element_values(r.1@) == diff_halves(element_values(v@)),
    {
        let n = v.len();
        let half = n / 2;
        let ghost w = element_values(v@);
        let mut left: Vec<E::PolynomialNTT> = Vec::new();
        let mut right: Vec<E::PolynomialNTT> = Vec::new();
        let mut i: usize = 0;
        while i < half
            invariant
                i <= half,
                half == n / 2,
                n == v@.len(),
                w == element_values(v@),
                halves_combinable(w),
                element_values(left@) == sum_halves(w).subrange(0, i as int),
                element_values(right@) == diff_halves(w).subrange(0, i as int),
            decreases half - i,
        {
            proof {
                assert(pointwise_sub_req(w[i as int], w[i + half]));
            }
            let l = v[i].add(&v[i + half]);
            let r = v[i].sub(&v[i + half]);
            proof {
                assert(element_values(left@.push(l)) =~= element_values(left@).push(l.lat_values()));
                assert(element_values(right@.push(r)) =~= element_values(right@).push(r.lat_values()));
                assert(sum_halves(w).subrange(0, i + 1) =~= sum_halves(w).subrange(0, i as int).push(l.lat_values()));
                assert(diff_halves(w).subrange(0, i + 1) =~= diff_halves(w).subrange(0, i as int).push(r.lat_values()));
            }
            left.push(l);
            right.push(r);
            i = i + 1;
        }
        assert(sum_halves(w).subrange(0, half as int) =~= sum_halves(w));
        assert(diff_halves(w).subrange(0, half as int) =~= diff_halves(w));
        (left, right)
    }

    /// Folds every vector in half with `beta` (and its inverse on the second side).
    fn fold_vectors(&mut self, beta: &E::Field)
        requires
            old(self).wf(),
            old(self).spec_num_rounds() >= 1,
            halves_combinable(old(self).spec_v1()),
            halves_combinable(old(self).spec_v2()),
        ensures
            final(self).wf(),
            final(self).spec_num_rounds() == old(self).spec_num_rounds() - 1,
            final(self).spec_v1() == fold_polys(old(self).spec_v1(), *beta),
            final(self).spec_v2() == fold_polys(old(self).spec_v2(), inverse_or_self(*beta)),
            final(self).spec_s1() == fold_scalars(old(self).spec_s1(), *beta),
            final(self).spec_s2() == fold_scalars(old(self).spec_s2(), inverse_or_self(*beta)),
            final(self).spec_setup() == old(self).spec_setup(),
    {
        let n = self.v1.len();
        let half = n / 2;
        proof {
            vstd::arithmetic::power2::lemma_pow2_unfold(self.num_rounds as nat);
        }
        let beta_inv = match beta.inv() {
            Some(x) => x,
            None => *beta,
        };
        let ghost v1_0 = element_values(self.v1@);
        let ghost v2_0 = element_values(self.v2@);
        let mut i: usize = 0;
        while i < half
            invariant
                i <= half,
                half == n / 2,
                n == self.v1@.len(),
                n == self.v2@.len(),
                n == v1_0.len(),
                n == v2_0.len(),
                beta_inv == inverse_or_self(*beta),
                self.s1@ == old(self).s1@,
                self.s2@ == old(self).s2@,
                self.num_rounds == old(self).num_rounds,
                self.setup == old(self).setup,
                self.r_blind == old(self).r_blind,
                halves_combinable(v1_0),
                halves_combinable(v2_0),
                forall|j: int| 0 <= j < i ==> element_values(self.v1@)[j] == #[trigger] fold_polys(v1_0, *beta)[j],
                forall|j: int| i <= j < n ==> element_values(self.v1@)[j] == #[trigger] v1_0[j],
                forall|j: int| 0 <= j < i ==> element_values(self.v2@)[j] == #[trigger] fold_polys(v2_0, beta_inv)[j],
                forall|j: int| i <= j < n ==> element_values(self.v2@)[j] == #[trigger] v2_0[j],
            decreases half - i,
        {
            proof {
                assert(pointwise_sub_req(v1_0[i as int], v1_0[i + half]));
                assert(pointwise_sub_req(v2_0[i as int], v2_0[i + half]));
                assert(element_values(self.v1@)[i + half] == v1_0[i + half]);
                assert(element_values(self.v2@)[i + half] == v2_0[i + half]);
                assert(element_values(self.v1@)[i as int] == v1_0[i as int]);
                assert(element_values(self.v2@)[i as int] == v2_0[i as int]);
            }
            let scaled_v1 = self.v1[i + half].scale(beta);
            let new_v1 = self.v1[i].add(&scaled_v1);
            self.v1.set(i, new_v1);
            let scaled_v2 = self.v2[i + half].scale(&beta_inv);
            let new_v2 = self.v2[i].add(&scaled_v2);
            self.v2.set(i, new_v2);
            i = i + 1;
        }
        self.v1.truncate(half);
        self.v2.truncate(half);
        proof {
            assert(element_values(self.v1@) =~= fold_polys(v1_0, *beta));
            assert(element_values(self.v2@) =~= fold_polys(v2_0, beta_inv));
        }
        let ghost s1_0 = self.s1@;
        let ghost s2_0 = self.s2@;
        let mut i: usize = 0;
        while i < half
            invariant
                i <= half,
                half == n / 2,
                n == self.s1@.len(),
                n == self.s2@.len(),
                n == s1_0.len(),
                n == s2_0.len(),
                beta_inv == inverse_or_self(*beta),
                element_values(self.v1@) == fold_polys(v1_0, *beta),
                element_values(self.v2@) == fold_polys(v2_0, beta_inv),
                self.num_rounds == old(self).num_rounds,
                self.setup == old(self).setup,
                self.r_blind == old(self).r_blind,
                forall|j: int| 0 <= j < i ==> self.s1@[j] == #[trigger] fold_scalars(s1_0, *beta)[j],
                forall|j: int| i <= j < n ==> self.s1@[j] == #[trigger] s1_0[j],
                forall|j: int| 0 <= j < i ==> self.s2@[j] == #[trigger] fold_scalars(s2_0, beta_inv)[j],
                forall|j: int| i <= j < n ==> self.s2@[j] == #[trigger] s2_0[j],
            decreases half - i,
        {
            let a = self.s1[i].mul(beta).add(&self.s1[i + half]);
            self.s1.set(i, a);
            let b = self.s2[i].mul(&beta_inv).add(&self.s2[i + half]);
            self.s2.set(i, b);
            i = i + 1;
        }
        self.s1.truncate(half);
        self.s2.truncate(half);
        proof {
            assert(self.s1@ =~= fold_scalars(s1_0, *beta));
            assert(self.s2@ =~= fold_scalars(s2_0, beta_inv));
        }
        self.num_rounds = self.num_rounds - 1;
    }

    /// Final message: `Σ_i s1[i] * s2[i] * field(v1[i]) * field(v2[i])`,
    /// plus the (zero) blinding.
    pub fn compute_final_message(&self) -> (r: E::Field)
        requires
            self.wf(),
        ensures
            r == E::Field::lat_add(
                final_sum::<E>(self.spec_s1(), self.spec_s2(), self.spec_v1(), self.spec_v2(), self.spec_v1().len()),
                E::Field::lat_zero(),
            ),
    {
        let mut sum = E::Field::zero();
        let mut i: usize = 0;
        while i < self.v1.len()
            invariant
                i <= self.v1@.len(),
                self.wf(),
                sum == final_sum::<E>(self.s1@, self.s2@, element_values(self.v1@), element_values(self.v2@), i as nat),
            decreases self.v1@.len() - i,
        {
            let poly1_sum = Self::sum_poly(&self.v1[i]);
            let poly2_sum = Self::sum_poly(&self.v2[i]);
            let t = self.s1[i].mul(&self.s2[i]).mul(&poly1_sum).mul(&poly2_sum);
            sum = sum.add(&t);
            i = i + 1;
        }
        sum.add(&self.r_blind)
    }
}

/// Verifier state: field accumulators of the protocol.
#[derive(Debug)]
pub struct LatticeDoryVerifierState<E: LatticeCurve> {
    c: E::Field,
    d1: E::Field,
    d2: E::Field,
    e1: E::Field,
    e2: E::Field,
    num_rounds: usize,
    setup: LatticeVerifierSetup<E>,
}

impl<E: LatticeCurve> Clone for LatticeDoryVerifierState<E> {
    fn clone(&self) -> (r: Self) {
        Self {
            c: self.c,
            d1: self.d1,
            d2: self.d2,
            e1: self.e1,
            e2: self.e2,
            num_rounds: self.num_rounds,
            setup: self.setup.clone(),
        }
    }
}

impl<E: LatticeCurve> LatticeDoryVerifierState<E> {
    pub closed spec fn spec_c(&self) -> E::Field { self.c }
    pub closed spec fn spec_d1(&self) -> E::Field { self.d1 }
    pub closed spec fn spec_d2(&self) -> E::Field { self.d2 }
    pub closed spec fn spec_e1(&self) -> E::Field { self.e1 }
    pub closed spec fn spec_e2(&self) -> E::Field { self.e2 }
    pub closed spec fn spec_num_rounds(&self) -> nat { self.num_rounds as nat }
    pub closed spec fn spec_setup(&self) -> LatticeVerifierSetup<E> { self.setup }

    /// A verifier with all accumulators zero.
    pub fn new(setup: LatticeVerifierSetup<E>, num_rounds: usize) -> (r: Self)
        ensures
            r.spec_c() == E::Field::lat_zero(),
            r.spec_d1() == E::Field::lat_zero(),
            r.spec_d2() == E::Field::lat_zero(),
            r.spec_e1() == E::Field::lat_zero(),
            r.spec_e2() == E::Field::lat_zero(),
            r.spec_num_rounds() == num_rounds,
            r.spec_setup() == setup,
    {
        Self {
            c: E::Field::zero(),
            d1: E::Field::zero(),
            d2: E::Field::zero(),
            e1: E::Field::zero(),
            e2: E::Field::zero(),
            num_rounds,
            setup,
        }
    }

    /// Absorbs a round message with challenges `beta` and `alpha`:
    /// `c += d1_left * beta + d1_right / beta`, `d1, d2` take the left
    /// values, and `e1 = e1 * alpha`, `e2 = e2 / alpha`.
    pub fn update_first(&mut self, msg: &LatticeFirstReduceMessage<E::Field>, beta: &E::Field, alpha: &E::Field)
        requires
            old(self).spec_num_rounds() >= 1,
        ensures
            final(self).spec_c() == E::Field::lat_add(
                E::Field::lat_add(old(self).spec_c(), E::Field::lat_mul(msg.d1_left, *beta)),
                E::Field::lat_mul(msg.d1_right, inverse_or_self(*beta)),
            ),
            final(self).spec_d1() == msg.d1_left,
            final(self).spec_d2() == msg.d2_left,
            final(self).spec_e1() == E::Field::lat_mul(msg.e1, *alpha),
            final(self).spec_e2() == E::Field::lat_mul(msg.e2, inverse_or_self(*alpha)),
            final(self).spec_num_rounds() == old(self).spec_num_rounds() - 1,
            final(self).spec_setup() == old(self).spec_setup(),
    {
        let _beta_sq = beta.mul(beta);
        let _alpha_sq = alpha.mul(alpha);
        let beta_inv = match beta.inv() {
            Some(x) => x,
            None => *beta,
        };
        let t1 = msg.d1_left.mul(beta);
        let t2 = msg.d1_right.mul(&beta_inv);
        self.c = self.c.add(&t1).add(&t2);
        self.d1 = msg.d1_left;
        self.d2 = msg.d2_left;
        let alpha_inv = match alpha.inv() {
            Some(x) => x,
            None => *alpha,
        };
        self.e1 = msg.e1.mul(alpha);
        self.e2 = msg.e2.mul(&alpha_inv);
        self.num_rounds = self.num_rounds - 1;
    }
}

/// The two sides of the final check `c + d * d1 + d2 == e1 * e2 + gamma * (1 + d)`.
pub open spec fn final_check_sides<F: LatticeField>(c: F, d1: F, d2: F, e1: F, e2: F, gamma: F, d: F) -> (F, F) {
    (
        F::lat_add(F::lat_add(c, F::lat_mul(d, d1)), d2),
        F::lat_add(F::lat_mul(e1, e2), F::lat_mul(gamma, F::lat_add(F::lat_one(), d))),
    )
}

impl<E: LatticeCurve> LatticeDoryVerifierState<E> {
    /// Checks `c + d * d1 + d2 == e1 * e2 + gamma * (1 + d)` with the
    /// field's equality.
    pub fn verify_final(&self, _final_msg: &E::Field, gamma: &E::Field, d: &E::Field) -> (b: bool)
        ensures
            E::Field::obeys_eq_spec() ==> ({
                let sides = final_check_sides(self.spec_c(), self.spec_d1(), self.spec_d2(), self.spec_e1(), self.spec_e2(), *gamma, *d);
                b == sides.0.eq_spec(&sides.1)
            }),
    {
        let t = d.mul(&self.d1);
        let lhs = self.c.add(&t).add(&self.d2);
        let p = self.e1.mul(&self.e2);
        let one_d = E::Field::one().add(d);
        let g = gamma.mul(&one_d);
        let rhs = p.add(&g);
        lhs == rhs
    }
}

/// Law: a verifier with all accumulators zero that absorbs one round
/// message `m` with `update_first` (challenges `β`, `α`, with `α` not a
/// multiple of the modulus) faces the final check with `γ`, `d` as
/// `β·D₁L + β⁻¹·D₁R + d·D₁L + D₂L` against `E₁·E₂ + γ·(1 + d)`: the factors
/// `α` and `α⁻¹` cancel in `E₁·E₂`.
pub proof fn lemma_one_round_final_check(
    s0: LatticeDoryVerifierState<KyberCurve>,
    s1: LatticeDoryVerifierState<KyberCurve>,
    m: LatticeFirstReduceMessage<Fp128Element>,
    beta: Fp128Element,
    alpha: Fp128Element,
    gamma: Fp128Element,
    d: Fp128Element,
)
    requires
        s0.spec_c() == Fp128Element::lat_zero(),
        s1.spec_c() == Fp128Element::lat_add(
            Fp128Element::lat_add(s0.spec_c(), Fp128Element::lat_mul(m.d1_left, beta)),
            Fp128Element::lat_mul(m.d1_right, inverse_or_self(beta)),
        ),
        s1.spec_d1() == m.d1_left,
        s1.spec_d2() == m.d2_left,
        s1.spec_e1() == Fp128Element::lat_mul(m.e1, alpha),
        s1.spec_e2() == Fp128Element::lat_mul(m.e2, inverse_or_self(alpha)),
        (alpha.0 as int) % q() != 0,
    ensures
        final_check_sides(s1.spec_c(), s1.spec_d1(), s1.spec_d2(), s1.spec_e1(), s1.spec_e2(), gamma, d) == (
            Fp128Element::lat_add(
                Fp128Element::lat_add(
                    Fp128Element::lat_add(Fp128Element::lat_mul(m.d1_left, beta), Fp128Element::lat_mul(m.d1_right, inverse_or_self(beta))),
                    Fp128Element::lat_mul(d, m.d1_left),
                ),
                m.d2_left,
            ),
            Fp128Element::lat_add(Fp128Element::lat_mul(m.e1, m.e2), Fp128Element::lat_mul(gamma, Fp128Element::lat_add(Fp128Element::lat_one(), d))),
        ),
{
    lemma_results_canonical(m.d1_left.0 as int, beta.0 as int);
    assert(Fp128Element::lat_add(Fp128Element::lat_zero(), Fp128Element::lat_mul(m.d1_left, beta)) == Fp128Element::lat_mul(m.d1_left, beta));
    let a = alpha.0 as int;
    let ai = fpow(a, (q() - 2) as nat);
    lemma_inverse(a);
    assert(alpha.0 != 0);
    let x = m.e1.0 as int;
    let y = m.e2.0 as int;
    assert(0 <= ai < q()) by {
        vstd::arithmetic::div_mod::lemma_mod_bound(vstd::arithmetic::power::pow(a, (q() - 2) as nat), q());
    }
    assert(inverse_or_self(alpha).0 == ai) by {
        vstd::arithmetic::div_mod::lemma_small_mod(ai as nat, 0x1_0000_0000_0000_0000nat);
    }
    assert(fmul(fmul(x, a), fmul(y, ai)) == fmul(x, y)) by {
        lemma_mul_associative(x, a, fmul(y, ai));
        lemma_mul_associative(a, y, ai);
        lemma_mul_commutative(a, y);
        lemma_mul_associative(y, a, ai);
        vstd::arithmetic::div_mod::lemma_mul_mod_noop_right(x, y, q());
        assert(fmul(y, 1) == y % q());
    }
}

} // verus!
