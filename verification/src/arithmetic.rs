//! The algebraic interfaces the commitment protocols are written against:
//! a scalar field, groups over it, a pairing, and the vector routines
//! (multi-scalar multiplication, folding) that backends may accelerate.
//!
//! Each interface names its operations as spec functions, so generic code
//! states and proves its results in terms of them.
use vstd::prelude::*;
use crate::fp128::{Fp128Element, q, add_word, sub_word, neg_word, fmul, fpow, MODULUS};

verus! {

/// A field of scalars.
pub trait Field: Sized + Copy {
    spec fn spec_zero() -> Self;

    spec fn spec_one() -> Self;

    spec fn spec_add(a: Self, b: Self) -> Self;

    spec fn spec_sub(a: Self, b: Self) -> Self;

    spec fn spec_mul(a: Self, b: Self) -> Self;

    spec fn spec_neg(a: Self) -> Self;

    spec fn spec_inv(a: Self) -> Option<Self>;

    spec fn spec_from_u64(v: u64) -> Self;

    spec fn spec_from_i64(v: i64) -> Self;

    spec fn spec_branch_bit(a: Self) -> bool;

    /// The inputs on which `from_i64` is defined.
    spec fn from_i64_req(v: i64) -> bool;

    fn zero() -> (r: Self)
        ensures
            r == Self::spec_zero(),
    ;

    fn one() -> (r: Self)
        ensures
            r == Self::spec_one(),
    ;

    fn is_zero(&self) -> (b: bool)
        ensures
            b == (*self == Self::spec_zero()),
    ;

    fn add(&self, rhs: &Self) -> (r: Self)
        ensures
            r == Self::spec_add(*self, *rhs),
    ;

    fn sub(&self, rhs: &Self) -> (r: Self)
        ensures
            r == Self::spec_sub(*self, *rhs),
    ;

    fn mul(&self, rhs: &Self) -> (r: Self)
        ensures
            r == Self::spec_mul(*self, *rhs),
    ;

    fn neg(&self) -> (r: Self)
        ensures
            r == Self::spec_neg(*self),
    ;

    fn inv(self) -> (r: Option<Self>)
        ensures
            r == Self::spec_inv(self),
    ;

    /// Some element; implementations may draw it at random.
    fn random() -> Self;

    fn from_u64(val: u64) -> (r: Self)
        ensures
            r == Self::spec_from_u64(val),
    ;

    fn from_i64(val: i64) -> (r: Self)
        requires
            Self::from_i64_req(val),
        ensures
            r == Self::spec_from_i64(val),
    ;

    /// The least significant bit of the canonical representation.
    fn branch_bit(&self) -> (b: bool)
        ensures
            b == Self::spec_branch_bit(*self),
    ;
}

/// A group written additively, with scalar multiplication by its field.
pub trait Group: Sized + Copy + PartialEq {
    type Scalar: Field;

    spec fn spec_identity() -> Self;

    spec fn spec_op(a: Self, b: Self) -> Self;

    spec fn spec_inverse(a: Self) -> Self;

    spec fn spec_scale(a: Self, k: Self::Scalar) -> Self;

    fn identity() -> (r: Self)
        ensures
            r == Self::spec_identity(),
    ;

    fn add(&self, rhs: &Self) -> (r: Self)
        ensures
            r == Self::spec_op(*self, *rhs),
    ;

    fn neg(&self) -> (r: Self)
        ensures
            r == Self::spec_inverse(*self),
    ;

    fn scale(&self, k: &Self::Scalar) -> (r: Self)
        ensures
            r == Self::spec_scale(*self, *k),
    ;

    /// Some element; implementations may draw it at random.
    fn random() -> Self;
}

/// `xs[0] + ... + xs[n-1]`, starting from the identity.
pub open spec fn group_sum<G: Group>(xs: Seq<G>, n: nat) -> G
    decreases n,
{
    if n == 0 {
        G::spec_identity()
    } else {
        G::spec_op(group_sum(xs, (n - 1) as nat), xs[n - 1])
    }
}

/// `k[0]·b[0] + ... + k[n-1]·b[n-1]`, starting from the identity.
pub open spec fn msm_sum<G: Group>(bases: Seq<G>, scalars: Seq<G::Scalar>, n: nat) -> G
    decreases n,
{
    if n == 0 {
        G::spec_identity()
    } else {
        G::spec_op(msm_sum(bases, scalars, (n - 1) as nat), G::spec_scale(bases[n - 1], scalars[n - 1]))
    }
}

/// `e(ps[0], qs[0]) + ... + e(ps[n-1], qs[n-1])` in the target group `G`,
/// for the pairing `e`.
pub open spec fn pair_product<G: Group, A, B>(e: spec_fn(A, B) -> G, ps: Seq<A>, qs: Seq<B>, n: nat) -> G
    decreases n,
{
    if n == 0 {
        G::spec_identity()
    } else {
        G::spec_op(pair_product(e, ps, qs, (n - 1) as nat), e(ps[n - 1], qs[n - 1]))
    }
}

/// A bilinear pairing `e : G1 × G2 → GT`.
pub trait PairingCurve: Sized {
    type G1: Group;

    type G2: Group;

    type GT: Group;

    spec fn spec_pair(p: Self::G1, q: Self::G2) -> Self::GT;

    /// `e(p, q)`.
    fn pair(p: &Self::G1, q: &Self::G2) -> (r: Self::GT)
        ensures
            r == Self::spec_pair(*p, *q),
    ;

    /// The product of the pairings of corresponding entries.
    fn multi_pair(ps: &[Self::G1], qs: &[Self::G2]) -> (r: Self::GT)
        requires
            ps@.len() == qs@.len(),
        ensures
            r == pair_product(|p: Self::G1, q: Self::G2| Self::spec_pair(p, q), ps@, qs@, ps@.len()),
    {
        if ps.len() == 0 {
            return <Self::GT as Group>::identity();
        }
        let mut acc = <Self::GT as Group>::identity();
        let mut i: usize = 0;
        while i < ps.len()
            invariant
                i <= ps@.len(),
                ps@.len() == qs@.len(),
                acc == pair_product(|p: Self::G1, q: Self::G2| Self::spec_pair(p, q), ps@, qs@, i as nat),
            decreases ps@.len() - i,
        {
            let e = Self::pair(&ps[i], &qs[i]);
            acc = acc.add(&e);
            i = i + 1;
        }
        acc
    }

    /// `multi_pair` where the G2 points come from the setup.
    fn multi_pair_g2_setup(ps: &[Self::G1], qs: &[Self::G2]) -> (r: Self::GT)
        requires
            ps@.len() == qs@.len(),
        ensures
            r == pair_product(|p: Self::G1, q: Self::G2| Self::spec_pair(p, q), ps@, qs@, ps@.len()),
    {
        Self::multi_pair(ps, qs)
    }

    /// `multi_pair` where the G1 points come from the setup.
    fn multi_pair_g1_setup(ps: &[Self::G1], qs: &[Self::G2]) -> (r: Self::GT)
        requires
            ps@.len() == qs@.len(),
        ensures
            r == pair_product(|p: Self::G1, q: Self::G2| Self::spec_pair(p, q), ps@, qs@, ps@.len()),
    {
        Self::multi_pair(ps, qs)
    }

    /// The pairing of each pair of corresponding entries.
    fn multi_pair_batch(ps: &[Self::G1], qs: &[Self::G2]) -> (r: Vec<Self::GT>)
        requires
            ps@.len() == qs@.len(),
        ensures
            r@.len() == ps@.len(),
            forall|i: int| 0 <= i < ps@.len() ==> #[trigger] r@[i] == Self::spec_pair(ps@[i], qs@[i]),
    {
        let mut out: Vec<Self::GT> = Vec::new();
        let mut i: usize = 0;
        while i < ps.len()
            invariant
                i <= ps@.len(),
                ps@.len() == qs@.len(),
                out@.len() == i,
                forall|j: int| 0 <= j < i ==> #[trigger] out@[j] == Self::spec_pair(ps@[j], qs@[j]),
            decreases ps@.len() - i,
        {
            let e = Self::pair(&ps[i], &qs[i]);
            out.push(e);
            i = i + 1;
        }
        out
    }

    /// `multi_pair_batch` where the G2 points come from the setup.
    fn multi_pair_g2_setup_batch(ps: &[Self::G1], qs: &[Self::G2]) -> (r: Vec<Self::GT>)
        requires
            ps@.len() == qs@.len(),
        ensures
            r@.len() == ps@.len(),
            forall|i: int| 0 <= i < ps@.len() ==> #[trigger] r@[i] == Self::spec_pair(ps@[i], qs@[i]),
    {
        Self::multi_pair_batch(ps, qs)
    }

    /// `multi_pair_batch` where the G1 points come from the setup.
    fn multi_pair_g1_setup_batch(ps: &[Self::G1], qs: &[Self::G2]) -> (r: Vec<Self::GT>)
        requires
            ps@.len() == qs@.len(),
        ensures
            r@.len() == ps@.len(),
            forall|i: int| 0 <= i < ps@.len() ==> #[trigger] r@[i] == Self::spec_pair(ps@[i], qs@[i]),
    {
        Self::multi_pair_batch(ps, qs)
    }

    /// Two pairing products at once: over `(a0, b0)` and over `(a1, b1)`.
    fn multi_pair_two_products(a0: &[Self::G1], b0: &[Self::G2], a1: &[Self::G1], b1: &[Self::G2]) -> (r: (Self::GT, Self::GT))
        requires
            a0@.len() == b0@.len(),
            a1@.len() == b1@.len(),
        ensures
            r.0 == pair_product(|p: Self::G1, q: Self::G2| Self::spec_pair(p, q), a0@, b0@, a0@.len()),
            r.1 == pair_product(|p: Self::G1, q: Self::G2| Self::spec_pair(p, q), a1@, b1@, a1@.len()),
    ;
}

/// Vector routines over a group that a backend may implement efficiently.
pub trait DoryRoutines<G: Group> {
    /// Multi-scalar multiplication `Σ scalars[i]·bases[i]`.
    fn msm(bases: &[G], scalars: &[G::Scalar]) -> (r: G)
        requires
            bases@.len() == scalars@.len(),
        ensures
            r == msm_sum(bases@, scalars@, bases@.len()),
    ;

    /// `[scalars[0]·base, ..., scalars[n-1]·base]`.
    fn fixed_base_vector_scalar_mul(base: &G, scalars: &[G::Scalar]) -> (r: Vec<G>)
        ensures
            r@.len() == scalars@.len(),
            forall|i: int| 0 <= i < scalars@.len() ==> #[trigger] r@[i] == G::spec_scale(*base, scalars@[i]),
    ;

    /// `vs[i] = vs[i] + scalar·bases[i]`.
    fn fixed_scalar_mul_bases_then_add(bases: &[G], vs: &mut [G], scalar: &G::Scalar)
        requires
            old(vs)@.len() <= bases@.len(),
        ensures
            final(vs)@.len() == old(vs)@.len(),
            forall|i: int| 0 <= i < old(vs)@.len() ==> #[trigger] final(vs)@[i] == G::spec_op(old(vs)@[i], G::spec_scale(bases@[i], *scalar)),
    ;

    /// `vs[i] = scalar·vs[i] + addends[i]`.
    fn fixed_scalar_mul_vs_then_add(vs: &mut [G], addends: &[G], scalar: &G::Scalar)
        requires
            old(vs)@.len() <= addends@.len(),
        ensures
            final(vs)@.len() == old(vs)@.len(),
            forall|i: int| 0 <= i < old(vs)@.len() ==> #[trigger] final(vs)@[i] == G::spec_op(G::spec_scale(old(vs)@[i], *scalar), addends@[i]),
    ;

    /// `left[i] = left[i]·scalar + right[i]`.
    fn fold_field_vectors(left: &mut [G::Scalar], right: &[G::Scalar], scalar: &G::Scalar)
        requires
            old(left)@.len() == right@.len(),
        ensures
            final(left)@.len() == old(left)@.len(),
            forall|i: int| 0 <= i < old(left)@.len() ==> #[trigger] final(left)@[i]
                == <G::Scalar as Field>::spec_add(<G::Scalar as Field>::spec_mul(old(left)@[i], *scalar), right@[i]),
    {
        let ghost l0 = left@;
        let mut i: usize = 0;
        while i < left.len()
            invariant
                i <= left@.len(),
                left@.len() == l0.len(),
                l0.len() == right@.len(),
                forall|j: int| 0 <= j < i ==> #[trigger] left@[j]
                    == <G::Scalar as Field>::spec_add(<G::Scalar as Field>::spec_mul(l0[j], *scalar), right@[j]),
                forall|j: int| i <= j < l0.len() ==> #[trigger] left@[j] == l0[j],
            decreases l0.len() - i,
        {
            let prod = left[i].mul(scalar);
            let v = prod.add(&right[i]);
            left[i] = v;
            i = i + 1;
        }
    }

    /// `output[i] = c0·q0[i] + c1·q1[i] + c2·q2[i] + c3·q3[i]` over the field.
    fn fold_4ary_field_vectors(
        output: &mut [G::Scalar],
        quarters: [&[G::Scalar]; 4],
        coeffs: &(G::Scalar, G::Scalar, G::Scalar, G::Scalar),
    )
        requires
            old(output)@.len() == quarters[0]@.len(),
            old(output)@.len() <= quarters[1]@.len(),
            old(output)@.len() <= quarters[2]@.len(),
            old(output)@.len() <= quarters[3]@.len(),
        ensures
            final(output)@.len() == old(output)@.len(),
            forall|i: int| 0 <= i < old(output)@.len() ==> #[trigger] final(output)@[i]
                == field_combination4::<G::Scalar>(*coeffs, quarters[0]@[i], quarters[1]@[i], quarters[2]@[i], quarters[3]@[i]),
    {
        let n = output.len();
        let q0 = quarters[0];
        let q1 = quarters[1];
        let q2 = quarters[2];
        let q3 = quarters[3];
        let mut i: usize = 0;
        while i < n
            invariant
                i <= n,
                output@.len() == n,
                n == q0@.len(),
                n <= q1@.len(),
                n <= q2@.len(),
                n <= q3@.len(),
                q0 == quarters[0],
                q1 == quarters[1],
                q2 == quarters[2],
                q3 == quarters[3],
                forall|j: int| 0 <= j < i ==> #[trigger] output@[j]
                    == field_combination4::<G::Scalar>(*coeffs, q0@[j], q1@[j], q2@[j], q3@[j]),
            decreases n - i,
        {
            let a = coeffs.0.mul(&q0[i]);
            let b = coeffs.1.mul(&q1[i]);
            let c = coeffs.2.mul(&q2[i]);
            let d = coeffs.3.mul(&q3[i]);
            let v = a.add(&b).add(&c).add(&d);
            output[i] = v;
            i = i + 1;
        }
    }

    /// `output[i] = c0·q0[i] + c1·q1[i] + c2·q2[i] + c3·q3[i]` in the group.
    fn fold_4ary_group_vectors(
        output: &mut [G],
        quarters: [&[G]; 4],
        coeffs: &(G::Scalar, G::Scalar, G::Scalar, G::Scalar),
    )
        requires
            old(output)@.len() == quarters[0]@.len(),
            old(output)@.len() <= quarters[1]@.len(),
            old(output)@.len() <= quarters[2]@.len(),
            old(output)@.len() <= quarters[3]@.len(),
        ensures
            final(output)@.len() == old(output)@.len(),
            forall|i: int| 0 <= i < old(output)@.len() ==> #[trigger] final(output)@[i]
                == group_combination4::<G>(*coeffs, quarters[0]@[i], quarters[1]@[i], quarters[2]@[i], quarters[3]@[i]),
    {
        let n = output.len();
        let q0 = quarters[0];
        let q1 = quarters[1];
        let q2 = quarters[2];
        let q3 = quarters[3];
        let mut i: usize = 0;
        while i < n
            invariant
                i <= n,
                output@.len() == n,
                n == q0@.len(),
                n <= q1@.len(),
                n <= q2@.len(),
                n <= q3@.len(),
                q0 == quarters[0],
                q1 == quarters[1],
                q2 == quarters[2],
                q3 == quarters[3],
                forall|j: int| 0 <= j < i ==> #[trigger] output@[j]
                    == group_combination4::<G>(*coeffs, q0@[j], q1@[j], q2@[j], q3@[j]),
            decreases n - i,
        {
            let a = q0[i].scale(&coeffs.0);
            let b = q1[i].scale(&coeffs.1);
            let c = q2[i].scale(&coeffs.2);
            let d = q3[i].scale(&coeffs.3);
            let v = a.add(&b).add(&c).add(&d);
            output[i] = v;
            i = i + 1;
        }
    }
}

/// `((c0·x0 + c1·x1) + c2·x2) + c3·x3` in the field.
pub open spec fn field_combination4<F: Field>(c: (F, F, F, F), x0: F, x1: F, x2: F, x3: F) -> F {
    F::spec_add(
        F::spec_add(F::spec_add(F::spec_mul(c.0, x0), F::spec_mul(c.1, x1)), F::spec_mul(c.2, x2)),
        F::spec_mul(c.3, x3),
    )
}

/// `((c0·x0 + c1·x1) + c2·x2) + c3·x3` in the group.
pub open spec fn group_combination4<G: Group>(c: (G::Scalar, G::Scalar, G::Scalar, G::Scalar), x0: G, x1: G, x2: G, x3: G) -> G {
    G::spec_op(
        G::spec_op(G::spec_op(G::spec_scale(x0, c.0), G::spec_scale(x1, c.1)), G::spec_scale(x2, c.2)),
        G::spec_scale(x3, c.3),
    )
}

/// The prime field itself.
impl Field for Fp128Element {
    open spec fn spec_zero() -> Self {
        Fp128Element(0)
    }

    open spec fn spec_one() -> Self {
        Fp128Element(1)
    }

    open spec fn spec_add(a: Self, b: Self) -> Self {
        Fp128Element(add_word(a.0 as int, b.0 as int) as u64)
    }

    open spec fn spec_sub(a: Self, b: Self) -> Self {
        Fp128Element(sub_word(a.0 as int % q(), b.0 as int % q()) as u64)
    }

    open spec fn spec_mul(a: Self, b: Self) -> Self {
        Fp128Element(fmul(a.0 as int, b.0 as int) as u64)
    }

    open spec fn spec_neg(a: Self) -> Self {
        Fp128Element(neg_word(a.0 as int % q()) as u64)
    }

    open spec fn spec_inv(a: Self) -> Option<Self> {
        if a.0 == 0 {
            None
        } else {
            Some(Fp128Element(fpow(a.0 as int, (q() - 2) as nat) as u64))
        }
    }

    open spec fn spec_from_u64(v: u64) -> Self {
        Fp128Element(v % MODULUS)
    }

    open spec fn spec_from_i64(v: i64) -> Self {
        Fp128Element(((v as int) % q()) as u64)
    }

    open spec fn spec_branch_bit(a: Self) -> bool {
        (a.0 as int % q()) % 2 == 1
    }

    open spec fn from_i64_req(v: i64) -> bool {
        v > i64::MIN
    }

    fn zero() -> (r: Self) {
        Fp128Element::zero()
    }

    fn one() -> (r: Self) {
        Fp128Element::one()
    }

    fn is_zero(&self) -> (b: bool) {
        Fp128Element::is_zero(self)
    }

    fn add(&self, rhs: &Self) -> (r: Self) {
        Fp128Element::add(self, rhs)
    }

    fn sub(&self, rhs: &Self) -> (r: Self) {
        let a = Fp128Element::from_raw(self.0);
        let b = Fp128Element::from_raw(rhs.0);
        a.sub(&b)
    }

    fn mul(&self, rhs: &Self) -> (r: Self) {
        Fp128Element::mul(self, rhs)
    }

    fn neg(&self) -> (r: Self) {
        let c = Fp128Element::from_raw(self.0);
        c.neg()
    }

    fn inv(self) -> (r: Option<Self>) {
        Fp128Element::inv(&self)
    }

    /// Always the element 42.
    fn random() -> Self
        returns
            Fp128Element(42),
    {
        Fp128Element::from_raw(42)
    }

    fn from_u64(val: u64) -> (r: Self) {
        Fp128Element::from_raw(val)
    }

    fn from_i64(val: i64) -> (r: Self) {
        Fp128Element::from_i64(val)
    }

    fn branch_bit(&self) -> (b: bool) {
        let c = self.0 % MODULUS;
        c % 2 == 1
    }
}

/// The additive group of the prime field, with multiplication as scaling.
impl Group for Fp128Element {
    type Scalar = Fp128Element;

    open spec fn spec_identity() -> Self {
        Fp128Element(0)
    }

    open spec fn spec_op(a: Self, b: Self) -> Self {
        Fp128Element(add_word(a.0 as int, b.0 as int) as u64)
    }

    open spec fn spec_inverse(a: Self) -> Self {
        Fp128Element(neg_word(a.0 as int % q()) as u64)
    }

    open spec fn spec_scale(a: Self, k: Fp128Element) -> Self {
        Fp128Element(fmul(a.0 as int, k.0 as int) as u64)
    }

    fn identity() -> (r: Self) {
        Fp128Element::zero()
    }

    fn add(&self, rhs: &Self) -> (r: Self) {
        Fp128Element::add(self, rhs)
    }

    fn neg(&self) -> (r: Self) {
        let c = Fp128Element::from_raw(self.0);
        c.neg()
    }

    fn scale(&self, k: &Fp128Element) -> (r: Self) {
        Fp128Element::mul(self, k)
    }

    /// Always the element 42.
    fn random() -> Self
        returns
            Fp128Element(42),
    {
        Fp128Element::from_raw(42)
    }
}

} // verus!
