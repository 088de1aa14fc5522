//! Algebraic laws of the field operations on canonical representatives.
use vstd::prelude::*;
use vstd::arithmetic::power::{pow, lemma_pow0, lemma_pow_adds};
use vstd::arithmetic::div_mod::{
    lemma_mod_bound, lemma_small_mod, lemma_add_mod_noop, lemma_mul_mod_noop,
    lemma_mod_twice,
};
use vstd::arithmetic::mul::{
    lemma_mul_is_commutative, lemma_mul_is_associative, lemma_mul_is_distributive_add,
};
use crate::fp128::{q, fadd, fsub, fmul, fneg, fpow};

verus! {

/// Every field operation yields a canonical representative in [0, q).
pub proof fn lemma_results_canonical(a: int, b: int)
    ensures
        0 <= fadd(a, b) < q(),
        0 <= fsub(a, b) < q(),
        0 <= fmul(a, b) < q(),
        0 <= fneg(a) < q(),
{
    lemma_mod_bound(a + b, q());
    lemma_mod_bound(a - b, q());
    lemma_mod_bound(a * b, q());
    lemma_mod_bound(-a, q());
}

/// Addition is commutative.
pub proof fn lemma_add_commutative(a: int, b: int)
    ensures
        fadd(a, b) == fadd(b, a),
{
}

/// Addition is associative.
pub proof fn lemma_add_associative(a: int, b: int, c: int)
    ensures
        fadd(fadd(a, b), c) == fadd(a, fadd(b, c)),
{
    lemma_add_mod_noop(a + b, c, q());
    lemma_add_mod_noop(a, b + c, q());
    lemma_mod_twice(a + b, q());
    lemma_mod_twice(b + c, q());
    lemma_add_mod_noop(a, b, q());
    lemma_add_mod_noop(b, c, q());
    lemma_add_mod_noop((a + b) % q(), c, q());
    lemma_add_mod_noop(a, (b + c) % q(), q());
    lemma_mod_twice(a, q());
    lemma_mod_twice(c, q());
}

/// Zero is the additive identity on canonical values.
pub proof fn lemma_add_zero(a: int)
    requires
        0 <= a < q(),
    ensures
        fadd(a, 0) == a,
{
    lemma_small_mod(a as nat, q() as nat);
}

/// Adding the negation gives zero.
pub proof fn lemma_add_neg(a: int)
    ensures
        fadd(a, fneg(a)) == 0,
{
    lemma_add_mod_noop(a, -a, q());
    lemma_mod_twice(-a, q());
    lemma_add_mod_noop(a, (-a) % q(), q());
}

/// Subtracting then adding back returns the original value.
pub proof fn lemma_sub_add_cancel(a: int, b: int)
    requires
        0 <= a < q(),
    ensures
        fadd(fsub(a, b), b) == a,
{
    lemma_add_mod_noop(a - b, b, q());
    lemma_mod_twice(a - b, q());
    lemma_add_mod_noop((a - b) % q(), b, q());
    lemma_mod_twice(b, q());
    lemma_small_mod(a as nat, q() as nat);
}

/// Multiplication is commutative.
pub proof fn lemma_mul_commutative(a: int, b: int)
    ensures
        fmul(a, b) == fmul(b, a),
{
    lemma_mul_is_commutative(a, b);
}

/// Multiplication is associative.
pub proof fn lemma_mul_associative(a: int, b: int, c: int)
    ensures
        fmul(fmul(a, b), c) == fmul(a, fmul(b, c)),
{
    lemma_mul_mod_noop(a * b, c, q());
    lemma_mul_mod_noop(a, b * c, q());
    lemma_mod_twice(a * b, q());
    lemma_mod_twice(b * c, q());
    lemma_mod_twice(a, q());
    lemma_mod_twice(c, q());
    lemma_mul_mod_noop((a * b) % q(), c, q());
    lemma_mul_mod_noop(a, (b * c) % q(), q());
    lemma_mul_is_associative(a, b, c);
}

/// One is the multiplicative identity on canonical values.
pub proof fn lemma_mul_one(a: int)
    requires
        0 <= a < q(),
    ensures
        fmul(a, 1) == a,
{
    lemma_small_mod(a as nat, q() as nat);
}

/// Multiplication distributes over addition.
pub proof fn lemma_mul_distributes(a: int, b: int, c: int)
    ensures
        fmul(a, fadd(b, c)) == fadd(fmul(a, b), fmul(a, c)),
{
    lemma_mul_mod_noop(a, b + c, q());
    lemma_mod_twice(b + c, q());
    lemma_mod_twice(a, q());
    lemma_mul_mod_noop(a, (b + c) % q(), q());
    lemma_mul_is_distributive_add(a, b, c);
    lemma_add_mod_noop(a * b, a * c, q());
}

/// Powers add: `a^(e1+e2) = a^e1 * a^e2`.
pub proof fn lemma_pow_adds_mod(a: int, e1: nat, e2: nat)
    ensures
        fpow(a, e1 + e2) == fmul(fpow(a, e1), fpow(a, e2)),
        fpow(a, 0) == 1,
{
    lemma_pow_adds(a, e1, e2);
    lemma_mul_mod_noop(pow(a, e1), pow(a, e2), q());
    lemma_pow0(a);
    lemma_small_mod(1, q() as nat);
}

} // verus!
