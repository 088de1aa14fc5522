//! The algebraic laws a pairing-based protocol relies on — groups that are
//! modules over a field, and a bilinear pairing — and the rules for finite
//! sums that follow from them.
use vstd::prelude::*;
use crate::arithmetic::{Field, Group, PairingCurve, pair_product, msm_sum};

verus! {

/// `G` is a module over its scalars: `+` is associative and commutative with
/// the identity as neutral element; scaling distributes over both
/// additions, composes by multiplication, is the identity for one and fixes
/// the identity element, and scaling by zero gives the identity.
#[verifier::opaque]
pub open spec fn module_laws<G: Group>() -> bool {
    &&& forall|a: G, b: G| #[trigger] G::spec_op(a, b) == G::spec_op(b, a)
    &&& forall|a: G, b: G, c: G| #[trigger] G::spec_op(G::spec_op(a, b), c) == G::spec_op(a, G::spec_op(b, c))
    &&& forall|a: G| #[trigger] G::spec_op(a, G::spec_identity()) == a
    &&& forall|a: G, b: G, k: G::Scalar| #[trigger] G::spec_scale(G::spec_op(a, b), k)
        == G::spec_op(G::spec_scale(a, k), G::spec_scale(b, k))
    &&& forall|a: G, k: G::Scalar, l: G::Scalar| #[trigger] G::spec_scale(a, <G::Scalar as Field>::spec_add(k, l))
        == G::spec_op(G::spec_scale(a, k), G::spec_scale(a, l))
    &&& forall|a: G, k: G::Scalar, l: G::Scalar| #[trigger] G::spec_scale(G::spec_scale(a, k), l)
        == G::spec_scale(a, <G::Scalar as Field>::spec_mul(k, l))
    &&& forall|a: G| #[trigger] G::spec_scale(a, <G::Scalar as Field>::spec_one()) == a
    &&& forall|k: G::Scalar| #[trigger] G::spec_scale(G::spec_identity(), k) == G::spec_identity()
    &&& forall|a: G| #[trigger] G::spec_scale(a, <G::Scalar as Field>::spec_zero()) == G::spec_identity()
}

/// Multiplication in `F` is associative and commutative with one as neutral
/// element, and an invertible element times its inverse is one; zero is
/// neutral for addition, an element plus its negation is zero, and
/// multiplying by a negation negates the product; exactly the nonzero
/// elements have inverses, and a product is zero only when a factor is.
#[verifier::opaque]
pub open spec fn field_laws<F: Field>() -> bool {
    &&& forall|a: F, b: F| #[trigger] F::spec_mul(a, b) == F::spec_mul(b, a)
    &&& forall|a: F, b: F, c: F| #[trigger] F::spec_mul(F::spec_mul(a, b), c) == F::spec_mul(a, F::spec_mul(b, c))
    &&& forall|a: F| #[trigger] F::spec_mul(a, F::spec_one()) == a
    &&& forall|a: F| F::spec_inv(a) is Some ==> #[trigger] F::spec_mul(a, F::spec_inv(a).unwrap()) == F::spec_one()
    &&& forall|a: F| #[trigger] F::spec_add(a, F::spec_zero()) == a
    &&& forall|a: F| #[trigger] F::spec_add(a, F::spec_neg(a)) == F::spec_zero()
    &&& forall|a: F, b: F| #[trigger] F::spec_mul(a, F::spec_neg(b)) == F::spec_neg(F::spec_mul(a, b))
    &&& forall|a: F| (#[trigger] F::spec_inv(a) is Some) <==> a != F::spec_zero()
    &&& forall|a: F, b: F| #[trigger] F::spec_mul(a, b) == F::spec_zero() ==> a == F::spec_zero() || b == F::spec_zero()
}

/// The pairing of `E` is bilinear: additive and compatible with scaling in
/// each argument, and it pairs the identity of G1 to the identity of GT.
#[verifier::opaque]
pub open spec fn bilinear<E: PairingCurve>() -> bool
    where E::G2: Group<Scalar = <E::G1 as Group>::Scalar>, E::GT: Group<Scalar = <E::G1 as Group>::Scalar>,
{
    &&& forall|p1: E::G1, p2: E::G1, q: E::G2| #[trigger] E::spec_pair(<E::G1 as Group>::spec_op(p1, p2), q)
        == <E::GT as Group>::spec_op(E::spec_pair(p1, q), E::spec_pair(p2, q))
    &&& forall|p: E::G1, q1: E::G2, q2: E::G2| #[trigger] E::spec_pair(p, <E::G2 as Group>::spec_op(q1, q2))
        == <E::GT as Group>::spec_op(E::spec_pair(p, q1), E::spec_pair(p, q2))
    &&& forall|p: E::G1, q: E::G2, k: <E::G1 as Group>::Scalar| #[trigger] E::spec_pair(<E::G1 as Group>::spec_scale(p, k), q)
        == <E::GT as Group>::spec_scale(E::spec_pair(p, q), k)
    &&& forall|p: E::G1, q: E::G2, k: <E::G1 as Group>::Scalar| #[trigger] E::spec_pair(p, <E::G2 as Group>::spec_scale(q, k))
        == <E::GT as Group>::spec_scale(E::spec_pair(p, q), k)
    &&& forall|q: E::G2| #[trigger] E::spec_pair(<E::G1 as Group>::spec_identity(), q) == <E::GT as Group>::spec_identity()
}

pub proof fn lemma_op_comm<G: Group>(a: G, b: G)
    requires
        module_laws::<G>(),
    ensures
        G::spec_op(a, b) == G::spec_op(b, a),
{
    reveal(module_laws);
}

pub proof fn lemma_op_assoc<G: Group>(a: G, b: G, c: G)
    requires
        module_laws::<G>(),
    ensures
        G::spec_op(G::spec_op(a, b), c) == G::spec_op(a, G::spec_op(b, c)),
{
    reveal(module_laws);
}

pub proof fn lemma_op_identity<G: Group>(a: G)
    requires
        module_laws::<G>(),
    ensures
        G::spec_op(a, G::spec_identity()) == a,
        G::spec_op(G::spec_identity(), a) == a,
{
    reveal(module_laws);
    lemma_op_comm(a, G::spec_identity());
}

pub proof fn lemma_scale_op<G: Group>(a: G, b: G, k: G::Scalar)
    requires
        module_laws::<G>(),
    ensures
        G::spec_scale(G::spec_op(a, b), k) == G::spec_op(G::spec_scale(a, k), G::spec_scale(b, k)),
{
    reveal(module_laws);
}

pub proof fn lemma_scale_add<G: Group>(a: G, k: G::Scalar, l: G::Scalar)
    requires
        module_laws::<G>(),
    ensures
        G::spec_scale(a, <G::Scalar as Field>::spec_add(k, l)) == G::spec_op(G::spec_scale(a, k), G::spec_scale(a, l)),
{
    reveal(module_laws);
}

pub proof fn lemma_scale_scale<G: Group>(a: G, k: G::Scalar, l: G::Scalar)
    requires
        module_laws::<G>(),
    ensures
        G::spec_scale(G::spec_scale(a, k), l) == G::spec_scale(a, <G::Scalar as Field>::spec_mul(k, l)),
{
    reveal(module_laws);
}

pub proof fn lemma_scale_one<G: Group>(a: G)
    requires
        module_laws::<G>(),
    ensures
        G::spec_scale(a, <G::Scalar as Field>::spec_one()) == a,
{
    reveal(module_laws);
}

pub proof fn lemma_scale_identity<G: Group>(k: G::Scalar)
    requires
        module_laws::<G>(),
    ensures
        G::spec_scale(G::spec_identity(), k) == G::spec_identity(),
{
    reveal(module_laws);
}

pub proof fn lemma_add_zero<F: Field>(a: F)
    requires
        field_laws::<F>(),
    ensures
        F::spec_add(a, F::spec_zero()) == a,
{
    reveal(field_laws);
}

/// `k·u + l·u` is the identity when `l = −k`.
pub proof fn lemma_scale_cancel<G: Group>(u: G, k: G::Scalar, l: G::Scalar)
    requires
        module_laws::<G>(),
        field_laws::<G::Scalar>(),
        l == <G::Scalar as Field>::spec_neg(k),
    ensures
        G::spec_op(G::spec_scale(u, k), G::spec_scale(u, l)) == G::spec_identity(),
{
    reveal(module_laws);
    reveal(field_laws);
    assert(G::spec_scale(u, <G::Scalar as Field>::spec_add(k, l)) == G::spec_op(G::spec_scale(u, k), G::spec_scale(u, l)));
}

pub proof fn lemma_mul_one<F: Field>(a: F)
    requires
        field_laws::<F>(),
    ensures
        F::spec_mul(a, F::spec_one()) == a,
{
    reveal(field_laws);
}

pub proof fn lemma_mul_neg<F: Field>(a: F, b: F)
    requires
        field_laws::<F>(),
    ensures
        F::spec_mul(a, F::spec_neg(b)) == F::spec_neg(F::spec_mul(a, b)),
{
    reveal(field_laws);
}

/// Products of scalars that the final check compares, rearranged.
pub proof fn lemma_final_scalars<F: Field>(g: F, a: F, b: F, d: F)
    requires
        field_laws::<F>(),
        F::spec_inv(g) is Some,
    ensures
        F::spec_mul(F::spec_mul(F::spec_inv(g).unwrap(), b), F::spec_mul(g, a)) == F::spec_mul(a, b),
        F::spec_mul(a, F::spec_neg(g)) == F::spec_neg(F::spec_mul(g, a)),
        F::spec_mul(b, F::spec_neg(F::spec_inv(g).unwrap())) == F::spec_neg(F::spec_mul(F::spec_inv(g).unwrap(), b)),
        F::spec_mul(F::spec_mul(d, a), F::spec_neg(g)) == F::spec_neg(F::spec_mul(d, F::spec_mul(g, a))),
        F::spec_mul(F::spec_mul(d, b), F::spec_neg(F::spec_inv(g).unwrap()))
            == F::spec_neg(F::spec_mul(F::spec_mul(F::spec_inv(g).unwrap(), b), d)),
{
    let gi = F::spec_inv(g).unwrap();
    lemma_mul_assoc(gi, b, F::spec_mul(g, a));
    lemma_mul_assoc(b, g, a);
    lemma_mul_comm(b, g);
    lemma_mul_assoc(g, b, a);
    lemma_mul_assoc(gi, g, F::spec_mul(b, a));
    lemma_mul_inv(g, b);
    lemma_mul_comm(F::spec_one(), F::spec_mul(b, a));
    lemma_mul_one(F::spec_mul(b, a));
    lemma_mul_comm(b, a);
    lemma_mul_neg(a, g);
    lemma_mul_comm(a, g);
    lemma_mul_neg(b, gi);
    lemma_mul_comm(b, gi);
    lemma_mul_neg(F::spec_mul(d, a), g);
    lemma_mul_assoc(d, a, g);
    lemma_mul_neg(F::spec_mul(d, b), gi);
    lemma_mul_assoc(d, b, gi);
    lemma_mul_comm(d, F::spec_mul(gi, b));
}

/// Regrouping for the final check: the expanded pairings, with four pairs
/// that cancel, give the terms of the right side in its order.
pub proof fn lemma_final_regroup<G: Group>(
    t1: G, t2: G, t3: G, t4: G, t5: G, t6: G, t7: G, t8: G, t9: G, t10: G,
    t2n: G, t4n: G, t6n: G, t8n: G,
)
    requires
        module_laws::<G>(),
        G::spec_op(t2, t2n) == G::spec_identity(),
        G::spec_op(t4, t4n) == G::spec_identity(),
        G::spec_op(t6, t6n) == G::spec_identity(),
        G::spec_op(t8, t8n) == G::spec_identity(),
    ensures
        G::spec_op(G::spec_op(G::spec_op(G::spec_op(G::spec_identity(),
            G::spec_op(G::spec_op(G::spec_op(G::spec_op(t1, t2), t3), G::spec_op(G::spec_op(t4, t5), t6)), G::spec_op(G::spec_op(t7, t8), t9))),
            G::spec_op(t4n, t6n)), G::spec_op(t2n, t8n)), t10)
        == G::spec_op(G::spec_op(G::spec_op(G::spec_op(G::spec_op(t1, t5), t9), t7), t3), t10),
{
    reveal(module_laws);
}

pub proof fn lemma_mul_comm<F: Field>(a: F, b: F)
    requires
        field_laws::<F>(),
    ensures
        F::spec_mul(a, b) == F::spec_mul(b, a),
{
    reveal(field_laws);
}

pub proof fn lemma_mul_assoc<F: Field>(a: F, b: F, c: F)
    requires
        field_laws::<F>(),
    ensures
        F::spec_mul(F::spec_mul(a, b), c) == F::spec_mul(a, F::spec_mul(b, c)),
{
    reveal(field_laws);
}

/// `a·a⁻¹ = a⁻¹·a = 1`, and `a·(b·a⁻¹) = b`.
pub proof fn lemma_mul_inv<F: Field>(a: F, b: F)
    requires
        field_laws::<F>(),
        F::spec_inv(a) is Some,
    ensures
        F::spec_mul(a, F::spec_inv(a).unwrap()) == F::spec_one(),
        F::spec_mul(F::spec_inv(a).unwrap(), a) == F::spec_one(),
        F::spec_mul(a, F::spec_mul(b, F::spec_inv(a).unwrap())) == b,
        F::spec_mul(F::spec_inv(a).unwrap(), F::spec_mul(b, a)) == b,
{
    reveal(field_laws);
    let ai = F::spec_inv(a).unwrap();
    assert(F::spec_mul(ai, a) == F::spec_one());
    assert(F::spec_mul(b, ai) == F::spec_mul(ai, b));
    assert(F::spec_mul(a, F::spec_mul(ai, b)) == F::spec_mul(F::spec_mul(a, ai), b));
    assert(F::spec_mul(F::spec_one(), b) == F::spec_mul(b, F::spec_one()));
    assert(F::spec_mul(b, a) == F::spec_mul(a, b));
    assert(F::spec_mul(ai, F::spec_mul(a, b)) == F::spec_mul(F::spec_mul(ai, a), b));
}

/// Law: in a field, an element has an inverse exactly when it is not zero.
pub proof fn lemma_invertible_iff_nonzero<F: Field>(a: F)
    requires
        field_laws::<F>(),
    ensures
        (F::spec_inv(a) is Some) <==> a != F::spec_zero(),
{
    reveal(field_laws);
}

/// A product of invertible elements is invertible.
pub proof fn lemma_mul_invertible<F: Field>(a: F, b: F)
    requires
        field_laws::<F>(),
        F::spec_inv(a) is Some,
        F::spec_inv(b) is Some,
    ensures
        F::spec_inv(F::spec_mul(a, b)) is Some,
{
    reveal(field_laws);
    assert(a != F::spec_zero());
    assert(b != F::spec_zero());
    assert(F::spec_mul(a, b) != F::spec_zero());
}

/// An element that multiplied by `a` gives one is the inverse of `a`.
pub proof fn lemma_inverse_unique<F: Field>(a: F, x: F)
    requires
        field_laws::<F>(),
        F::spec_inv(a) is Some,
        F::spec_mul(x, a) == F::spec_one(),
    ensures
        x == F::spec_inv(a).unwrap(),
{
    reveal(field_laws);
    let ai = F::spec_inv(a).unwrap();
    assert(F::spec_mul(x, F::spec_mul(a, ai)) == F::spec_mul(F::spec_mul(x, a), ai));
    assert(F::spec_mul(F::spec_one(), ai) == F::spec_mul(ai, F::spec_one()));
}

pub proof fn lemma_pair_op_left<E: PairingCurve>(p1: E::G1, p2: E::G1, q: E::G2)
    where E::G2: Group<Scalar = <E::G1 as Group>::Scalar>, E::GT: Group<Scalar = <E::G1 as Group>::Scalar>,
    requires
        bilinear::<E>(),
    ensures
        E::spec_pair(<E::G1 as Group>::spec_op(p1, p2), q) == <E::GT as Group>::spec_op(E::spec_pair(p1, q), E::spec_pair(p2, q)),
{
    reveal(bilinear);
}

pub proof fn lemma_pair_op_right<E: PairingCurve>(p: E::G1, q1: E::G2, q2: E::G2)
    where E::G2: Group<Scalar = <E::G1 as Group>::Scalar>, E::GT: Group<Scalar = <E::G1 as Group>::Scalar>,
    requires
        bilinear::<E>(),
    ensures
        E::spec_pair(p, <E::G2 as Group>::spec_op(q1, q2)) == <E::GT as Group>::spec_op(E::spec_pair(p, q1), E::spec_pair(p, q2)),
{
    reveal(bilinear);
}

pub proof fn lemma_pair_scale_left<E: PairingCurve>(p: E::G1, q: E::G2, k: <E::G1 as Group>::Scalar)
    where E::G2: Group<Scalar = <E::G1 as Group>::Scalar>, E::GT: Group<Scalar = <E::G1 as Group>::Scalar>,
    requires
        bilinear::<E>(),
    ensures
        E::spec_pair(<E::G1 as Group>::spec_scale(p, k), q) == <E::GT as Group>::spec_scale(E::spec_pair(p, q), k),
{
    reveal(bilinear);
}

pub proof fn lemma_pair_scale_right<E: PairingCurve>(p: E::G1, q: E::G2, k: <E::G1 as Group>::Scalar)
    where E::G2: Group<Scalar = <E::G1 as Group>::Scalar>, E::GT: Group<Scalar = <E::G1 as Group>::Scalar>,
    requires
        bilinear::<E>(),
    ensures
        E::spec_pair(p, <E::G2 as Group>::spec_scale(q, k)) == <E::GT as Group>::spec_scale(E::spec_pair(p, q), k),
{
    reveal(bilinear);
}

pub proof fn lemma_pair_identity_left<E: PairingCurve>(q: E::G2)
    where E::G2: Group<Scalar = <E::G1 as Group>::Scalar>, E::GT: Group<Scalar = <E::G1 as Group>::Scalar>,
    requires
        bilinear::<E>(),
    ensures
        E::spec_pair(<E::G1 as Group>::spec_identity(), q) == <E::GT as Group>::spec_identity(),
{
    reveal(bilinear);
}

/// `(a + b) + (c + d) = (a + c) + (b + d)`.
pub proof fn lemma_swap_middle<G: Group>(a: G, b: G, c: G, d: G)
    requires
        module_laws::<G>(),
    ensures
        G::spec_op(G::spec_op(a, b), G::spec_op(c, d)) == G::spec_op(G::spec_op(a, c), G::spec_op(b, d)),
{
    lemma_op_assoc(a, b, G::spec_op(c, d));
    lemma_op_assoc(b, c, d);
    lemma_op_comm(b, c);
    lemma_op_assoc(c, b, d);
    lemma_op_assoc(a, c, G::spec_op(b, d));
}

/// `(a + b) + (c + d) = ((a + c) + b) + d`.
pub proof fn lemma_regroup_acbd<G: Group>(a: G, b: G, c: G, d: G)
    requires
        module_laws::<G>(),
    ensures
        G::spec_op(G::spec_op(a, b), G::spec_op(c, d)) == G::spec_op(G::spec_op(G::spec_op(a, c), b), d),
{
    lemma_swap_middle(a, b, c, d);
    lemma_op_assoc(G::spec_op(a, c), b, d);
}

/// `(a + b) + (c + d) = ((a + d) + c) + b`.
pub proof fn lemma_regroup_adcb<G: Group>(a: G, b: G, c: G, d: G)
    requires
        module_laws::<G>(),
    ensures
        G::spec_op(G::spec_op(a, b), G::spec_op(c, d)) == G::spec_op(G::spec_op(G::spec_op(a, d), c), b),
{
    lemma_op_comm(c, d);
    lemma_swap_middle(a, b, d, c);
    lemma_op_comm(b, c);
    lemma_op_assoc(G::spec_op(a, d), c, b);
}

/// `(a + b) + (c + d) = ((a + d) + b) + c`.
pub proof fn lemma_regroup_adbc<G: Group>(a: G, b: G, c: G, d: G)
    requires
        module_laws::<G>(),
    ensures
        G::spec_op(G::spec_op(a, b), G::spec_op(c, d)) == G::spec_op(G::spec_op(G::spec_op(a, d), b), c),
{
    lemma_op_comm(c, d);
    lemma_swap_middle(a, b, d, c);
    lemma_op_assoc(G::spec_op(a, d), b, c);
}

/// `f(0) + ... + f(n - 1)`, summed left to right from the identity.
pub open spec fn sum_of<G: Group>(f: spec_fn(int) -> G, n: nat) -> G
    decreases n,
{
    if n == 0 {
        G::spec_identity()
    } else {
        G::spec_op(sum_of(f, (n - 1) as nat), f(n - 1))
    }
}

/// Sums of terms that agree are equal.
pub proof fn lemma_sum_ext<G: Group>(f: spec_fn(int) -> G, g: spec_fn(int) -> G, n: nat)
    requires
        forall|i: int| 0 <= i < n ==> #[trigger] f(i) == g(i),
    ensures
        sum_of(f, n) == sum_of(g, n),
    decreases n,
{
    if n > 0 {
        lemma_sum_ext(f, g, (n - 1) as nat);
    }
}

/// The sum of termwise sums is the sum of the two sums.
pub proof fn lemma_sum_op<G: Group>(f: spec_fn(int) -> G, g: spec_fn(int) -> G, n: nat)
    requires
        module_laws::<G>(),
    ensures
        sum_of(|i: int| G::spec_op(f(i), g(i)), n) == G::spec_op(sum_of(f, n), sum_of(g, n)),
    decreases n,
{
    if n == 0 {
        lemma_op_identity(G::spec_identity());
    } else {
        lemma_sum_op(f, g, (n - 1) as nat);
        lemma_swap_middle(sum_of(f, (n - 1) as nat), sum_of(g, (n - 1) as nat), f(n - 1), g(n - 1));
    }
}

/// Scaling every term scales the sum.
pub proof fn lemma_sum_scale<G: Group>(f: spec_fn(int) -> G, k: G::Scalar, n: nat)
    requires
        module_laws::<G>(),
    ensures
        sum_of(|i: int| G::spec_scale(f(i), k), n) == G::spec_scale(sum_of(f, n), k),
    decreases n,
{
    if n == 0 {
        lemma_scale_identity::<G>(k);
    } else {
        lemma_sum_scale(f, k, (n - 1) as nat);
        lemma_scale_op(sum_of(f, (n - 1) as nat), f(n - 1), k);
    }
}

/// A sum over `a + b` terms splits into the first `a` and the next `b`.
pub proof fn lemma_sum_split<G: Group>(f: spec_fn(int) -> G, a: nat, b: nat)
    requires
        module_laws::<G>(),
    ensures
        sum_of(f, a + b) == G::spec_op(sum_of(f, a), sum_of(|i: int| f(i + a), b)),
    decreases b,
{
    if b == 0 {
        lemma_op_identity(sum_of(f, a));
    } else {
        lemma_sum_split(f, a, (b - 1) as nat);
        let g = |i: int| f(i + a);
        assert(sum_of(g, b) == G::spec_op(sum_of(g, (b - 1) as nat), f(b - 1 + a)));
        lemma_op_assoc(sum_of(f, a), sum_of(g, (b - 1) as nat), f(a + b - 1));
    }
}

/// A pairing product is the sum of the pairings of its entries.
pub proof fn lemma_pair_product_is_sum<E: PairingCurve>(ps: Seq<E::G1>, qs: Seq<E::G2>, n: nat)
    ensures
        pair_product(|p: E::G1, q: E::G2| E::spec_pair(p, q), ps, qs, n)
            == sum_of(|i: int| E::spec_pair(ps[i], qs[i]), n),
    decreases n,
{
    if n > 0 {
        lemma_pair_product_is_sum::<E>(ps, qs, (n - 1) as nat);
    }
}

/// A multi-scalar multiplication is the sum of the scaled entries.
pub proof fn lemma_msm_is_sum<G: Group>(bases: Seq<G>, scalars: Seq<G::Scalar>, n: nat)
    ensures
        msm_sum(bases, scalars, n) == sum_of(|i: int| G::spec_scale(bases[i], scalars[i]), n),
    decreases n,
{
    if n > 0 {
        lemma_msm_is_sum(bases, scalars, (n - 1) as nat);
    }
}

/// The sum of termwise sums of four terms, regrouped as the terms are.
pub proof fn lemma_sum_op4<G: Group>(
    fa: spec_fn(int) -> G,
    fb: spec_fn(int) -> G,
    fc: spec_fn(int) -> G,
    fd: spec_fn(int) -> G,
    n: nat,
)
    requires
        module_laws::<G>(),
    ensures
        sum_of(|i: int| G::spec_op(G::spec_op(fa(i), fb(i)), G::spec_op(fc(i), fd(i))), n)
            == G::spec_op(G::spec_op(sum_of(fa, n), sum_of(fb, n)), G::spec_op(sum_of(fc, n), sum_of(fd, n))),
{
    let fab = |i: int| G::spec_op(fa(i), fb(i));
    let fcd = |i: int| G::spec_op(fc(i), fd(i));
    lemma_sum_op(fa, fb, n);
    lemma_sum_op(fc, fd, n);
    lemma_sum_op(fab, fcd, n);
    lemma_sum_ext(
        |i: int| G::spec_op(G::spec_op(fa(i), fb(i)), G::spec_op(fc(i), fd(i))),
        |i: int| G::spec_op(fab(i), fcd(i)),
        n,
    );
}

} // verus!
