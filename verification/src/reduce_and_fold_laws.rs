//! What one honest round of the opening protocol does to the verifier's
//! accumulators: on a bilinear pairing between modules over a field, the
//! verifier's update of `C`, `D₁`, `D₂`, `E₁`, `E₂` from the prover's two
//! messages gives exactly the inner products of the prover's folded vectors.
use vstd::prelude::*;
use crate::arithmetic::{Field, Group, PairingCurve};
use crate::pairing_algebra::{
    module_laws, field_laws, bilinear, sum_of, lemma_sum_ext, lemma_sum_op, lemma_sum_op4, lemma_sum_scale, lemma_sum_split,
    lemma_pair_product_is_sum, lemma_msm_is_sum, lemma_pair_op_left, lemma_pair_op_right, lemma_pair_scale_left,
    lemma_pair_scale_right, lemma_scale_op, lemma_scale_add, lemma_scale_scale, lemma_scale_one, lemma_mul_comm,
    lemma_mul_inv, lemma_regroup_acbd, lemma_regroup_adcb, lemma_regroup_adbc,
    lemma_pair_identity_left, lemma_add_zero, lemma_scale_cancel, lemma_final_scalars, lemma_final_regroup,
    lemma_op_identity,
};
use crate::reduce_and_fold::{
    Scalar, pairing_sum, msm_of, prefix, suffix, shift_by, fold_group, fold_field, f_mul, f_inv, g_add, g_scale,
    first_message_value, second_message_value, verifier_round_update, d2_base, final_check_sides,
    final_message_value,
};
use crate::setup::{ProverSetup, VerifierSetup};
use crate::arithmetic::msm_sum;
use vstd::arithmetic::power2::{pow2, lemma_pow2_unfold};

verus! {

/// The pairing product of `ps` and `qs` over their first `n` entries,
/// written as a sum.
proof fn lemma_pairing_sum_range<E: PairingCurve>(ps: Seq<E::G1>, qs: Seq<E::G2>)
    ensures
        pairing_sum::<E>(ps, qs) == sum_of(|i: int| E::spec_pair(ps[i], qs[i]), ps.len()),
{
    lemma_pair_product_is_sum::<E>(ps, qs, ps.len());
}

/// `D₁` after a round: `α·D₁L + D₁R + αβ·Δ₁L + β·Δ₁R` is the pairing of the
/// folded `v₁` (after `v₁ += β·Γ₁`) with the first half of `Γ₂`.
pub proof fn lemma_d1_update<E: PairingCurve>(
    v1: Seq<E::G1>,
    g1: Seq<E::G1>,
    g2: Seq<E::G2>,
    h: nat,
    alpha: Scalar<E>,
    beta: Scalar<E>,
)
    where E::G2: Group<Scalar = Scalar<E>>, E::GT: Group<Scalar = Scalar<E>>,
    requires
        module_laws::<E::GT>(),
        field_laws::<Scalar<E>>(),
        bilinear::<E>(),
        v1.len() == 2 * h,
        g1.len() >= 2 * h,
        g2.len() >= h,
    ensures
        g_add(
            g_add(
                g_add(
                    g_scale(pairing_sum::<E>(prefix(v1, h as int), prefix(g2, h as int)), alpha),
                    pairing_sum::<E>(suffix(v1, h as int), prefix(g2, h as int)),
                ),
                g_scale(pairing_sum::<E>(prefix(g1, h as int), prefix(g2, h as int)), f_mul(alpha, beta)),
            ),
            g_scale(pairing_sum::<E>(g1.subrange(h as int, 2 * h as int), prefix(g2, h as int)), beta),
        ) == pairing_sum::<E>(fold_group(shift_by(v1, g1, beta), alpha), prefix(g2, h as int)),
{
    let hh = h as int;
    let v1b = shift_by(v1, g1, beta);
    let fold = fold_group(v1b, alpha);
    let fa = |i: int| <E::GT as Group>::spec_scale(E::spec_pair(v1[i], g2[i]), alpha);
    let fb = |i: int| <E::GT as Group>::spec_scale(E::spec_pair(g1[i], g2[i]), f_mul(alpha, beta));
    let fc = |i: int| E::spec_pair(v1[i + hh], g2[i]);
    let fd = |i: int| <E::GT as Group>::spec_scale(E::spec_pair(g1[i + hh], g2[i]), beta);
    let t = |i: int| E::spec_pair(fold[i], prefix(g2, hh)[i]);
    assert forall|i: int| 0 <= i < hh implies #[trigger] t(i)
        == <E::GT as Group>::spec_op(<E::GT as Group>::spec_op(fa(i), fb(i)), <E::GT as Group>::spec_op(fc(i), fd(i))) by {
        let q = g2[i];
        let x = <E::G1 as Group>::spec_scale(v1b[i], alpha);
        let y = v1b[i + hh];
        assert(fold[i] == <E::G1 as Group>::spec_op(x, y));
        lemma_pair_op_left::<E>(x, y, q);
        lemma_pair_scale_left::<E>(v1b[i], q, alpha);
        lemma_pair_op_left::<E>(v1[i], <E::G1 as Group>::spec_scale(g1[i], beta), q);
        lemma_pair_scale_left::<E>(g1[i], q, beta);
        let a0 = E::spec_pair(v1[i], q);
        let d0 = E::spec_pair(g1[i], q);
        lemma_scale_op::<E::GT>(a0, <E::GT as Group>::spec_scale(d0, beta), alpha);
        lemma_scale_scale::<E::GT>(d0, beta, alpha);
        lemma_mul_comm::<Scalar<E>>(beta, alpha);
        lemma_pair_op_left::<E>(v1[i + hh], <E::G1 as Group>::spec_scale(g1[i + hh], beta), q);
        lemma_pair_scale_left::<E>(g1[i + hh], q, beta);
    }
    lemma_sum_ext(t, |i: int| <E::GT as Group>::spec_op(<E::GT as Group>::spec_op(fa(i), fb(i)), <E::GT as Group>::spec_op(fc(i), fd(i))), h);
    lemma_sum_op4(fa, fb, fc, fd, h);
    lemma_pairing_sum_range::<E>(fold, prefix(g2, hh));

    let pl = |i: int| E::spec_pair(v1[i], g2[i]);
    let pg = |i: int| E::spec_pair(g1[i], g2[i]);
    let pgr = |i: int| E::spec_pair(g1[i + hh], g2[i]);
    lemma_pairing_sum_range::<E>(prefix(v1, hh), prefix(g2, hh));
    lemma_sum_ext(|i: int| E::spec_pair(prefix(v1, hh)[i], prefix(g2, hh)[i]), pl, h);
    lemma_pairing_sum_range::<E>(suffix(v1, hh), prefix(g2, hh));
    lemma_sum_ext(|i: int| E::spec_pair(suffix(v1, hh)[i], prefix(g2, hh)[i]), fc, h);
    lemma_pairing_sum_range::<E>(prefix(g1, hh), prefix(g2, hh));
    lemma_sum_ext(|i: int| E::spec_pair(prefix(g1, hh)[i], prefix(g2, hh)[i]), pg, h);
    lemma_pairing_sum_range::<E>(g1.subrange(hh, 2 * hh), prefix(g2, hh));
    lemma_sum_ext(|i: int| E::spec_pair(g1.subrange(hh, 2 * hh)[i], prefix(g2, hh)[i]), pgr, h);
    lemma_sum_scale(pl, alpha, h);
    lemma_sum_ext(|i: int| <E::GT as Group>::spec_scale(pl(i), alpha), fa, h);
    lemma_sum_scale(pg, f_mul(alpha, beta), h);
    lemma_sum_ext(|i: int| <E::GT as Group>::spec_scale(pg(i), f_mul(alpha, beta)), fb, h);
    lemma_sum_scale(pgr, beta, h);
    lemma_sum_ext(|i: int| <E::GT as Group>::spec_scale(pgr(i), beta), fd, h);
    lemma_regroup_acbd(sum_of(fa, h), sum_of(fb, h), sum_of(fc, h), sum_of(fd, h));
}

/// `D₂` after a round, with `a` and `b` in place of `α⁻¹` and `β⁻¹`:
/// `a·D₂L + D₂R + ab·Δ₂L + b·Δ₂R` is the pairing of the first half of `Γ₁`
/// with the folded `v₂` (after `v₂ += b·Γ₂`).
pub proof fn lemma_d2_update<E: PairingCurve>(
    v2: Seq<E::G2>,
    g1: Seq<E::G1>,
    g2: Seq<E::G2>,
    h: nat,
    a: Scalar<E>,
    b: Scalar<E>,
)
    where E::G2: Group<Scalar = Scalar<E>>, E::GT: Group<Scalar = Scalar<E>>,
    requires
        module_laws::<E::GT>(),
        field_laws::<Scalar<E>>(),
        bilinear::<E>(),
        v2.len() == 2 * h,
        g1.len() >= h,
        g2.len() >= 2 * h,
    ensures
        g_add(
            g_add(
                g_add(
                    g_scale(pairing_sum::<E>(prefix(g1, h as int), v2.subrange(0, h as int)), a),
                    pairing_sum::<E>(prefix(g1, h as int), v2.subrange(h as int, 2 * h as int)),
                ),
                g_scale(pairing_sum::<E>(prefix(g1, h as int), prefix(g2, h as int)), f_mul(a, b)),
            ),
            g_scale(pairing_sum::<E>(prefix(g1, h as int), g2.subrange(h as int, 2 * h as int)), b),
        ) == pairing_sum::<E>(prefix(g1, h as int), fold_group(shift_by(v2, g2, b), a)),
{
    let hh = h as int;
    let v2b = shift_by(v2, g2, b);
    let fold = fold_group(v2b, a);
    let fa = |i: int| <E::GT as Group>::spec_scale(E::spec_pair(g1[i], v2[i]), a);
    let fb = |i: int| <E::GT as Group>::spec_scale(E::spec_pair(g1[i], g2[i]), f_mul(a, b));
    let fc = |i: int| E::spec_pair(g1[i], v2[i + hh]);
    let fd = |i: int| <E::GT as Group>::spec_scale(E::spec_pair(g1[i], g2[i + hh]), b);
    let t = |i: int| E::spec_pair(prefix(g1, hh)[i], fold[i]);
    assert forall|i: int| 0 <= i < hh implies #[trigger] t(i)
        == <E::GT as Group>::spec_op(<E::GT as Group>::spec_op(fa(i), fb(i)), <E::GT as Group>::spec_op(fc(i), fd(i))) by {
        let p = g1[i];
        let x = <E::G2 as Group>::spec_scale(v2b[i], a);
        let y = v2b[i + hh];
        assert(fold[i] == <E::G2 as Group>::spec_op(x, y));
        lemma_pair_op_right::<E>(p, x, y);
        lemma_pair_scale_right::<E>(p, v2b[i], a);
        lemma_pair_op_right::<E>(p, v2[i], <E::G2 as Group>::spec_scale(g2[i], b));
        lemma_pair_scale_right::<E>(p, g2[i], b);
        let a0 = E::spec_pair(p, v2[i]);
        let d0 = E::spec_pair(p, g2[i]);
        lemma_scale_op::<E::GT>(a0, <E::GT as Group>::spec_scale(d0, b), a);
        lemma_scale_scale::<E::GT>(d0, b, a);
        lemma_mul_comm::<Scalar<E>>(b, a);
        lemma_pair_op_right::<E>(p, v2[i + hh], <E::G2 as Group>::spec_scale(g2[i + hh], b));
        lemma_pair_scale_right::<E>(p, g2[i + hh], b);
    }
    lemma_sum_ext(t, |i: int| <E::GT as Group>::spec_op(<E::GT as Group>::spec_op(fa(i), fb(i)), <E::GT as Group>::spec_op(fc(i), fd(i))), h);
    lemma_sum_op4(fa, fb, fc, fd, h);
    lemma_pairing_sum_range::<E>(prefix(g1, hh), fold);

    let pl = |i: int| E::spec_pair(g1[i], v2[i]);
    let pg = |i: int| E::spec_pair(g1[i], g2[i]);
    let pgr = |i: int| E::spec_pair(g1[i], g2[i + hh]);
    lemma_pairing_sum_range::<E>(prefix(g1, hh), v2.subrange(0, hh));
    lemma_sum_ext(|i: int| E::spec_pair(prefix(g1, hh)[i], v2.subrange(0, hh)[i]), pl, h);
    lemma_pairing_sum_range::<E>(prefix(g1, hh), v2.subrange(hh, 2 * hh));
    lemma_sum_ext(|i: int| E::spec_pair(prefix(g1, hh)[i], v2.subrange(hh, 2 * hh)[i]), fc, h);
    lemma_pairing_sum_range::<E>(prefix(g1, hh), prefix(g2, hh));
    lemma_sum_ext(|i: int| E::spec_pair(prefix(g1, hh)[i], prefix(g2, hh)[i]), pg, h);
    lemma_pairing_sum_range::<E>(prefix(g1, hh), g2.subrange(hh, 2 * hh));
    lemma_sum_ext(|i: int| E::spec_pair(prefix(g1, hh)[i], g2.subrange(hh, 2 * hh)[i]), pgr, h);
    lemma_sum_scale(pl, a, h);
    lemma_sum_ext(|i: int| <E::GT as Group>::spec_scale(pl(i), a), fa, h);
    lemma_sum_scale(pg, f_mul(a, b), h);
    lemma_sum_ext(|i: int| <E::GT as Group>::spec_scale(pg(i), f_mul(a, b)), fb, h);
    lemma_sum_scale(pgr, b, h);
    lemma_sum_ext(|i: int| <E::GT as Group>::spec_scale(pgr(i), b), fd, h);
    lemma_regroup_acbd(sum_of(fa, h), sum_of(fb, h), sum_of(fc, h), sum_of(fd, h));
}

/// A multi-scalar multiplication as a sum over its first `n` entries.
proof fn lemma_msm_range<G: Group>(bases: Seq<G>, scalars: Seq<G::Scalar>)
    ensures
        msm_of(bases, scalars) == sum_of(|i: int| G::spec_scale(bases[i], scalars[i]), bases.len()),
{
    lemma_msm_is_sum(bases, scalars, bases.len());
}

/// Shifting the bases by `k·g` adds `k` times the product with `g`:
/// `⟨v + k·g, s⟩ = ⟨v, s⟩ + k·⟨g, s⟩` over `n` entries.
pub proof fn lemma_msm_shift<G: Group>(v: Seq<G>, g: Seq<G>, s: Seq<G::Scalar>, k: G::Scalar)
    requires
        module_laws::<G>(),
        field_laws::<G::Scalar>(),
        v.len() == s.len(),
        g.len() >= v.len(),
    ensures
        msm_of(shift_by(v, g, k), s) == g_add(msm_of(v, s), g_scale(msm_of(prefix(g, v.len() as int), s), k)),
{
    let n = v.len();
    let vk = shift_by(v, g, k);
    let fv = |i: int| G::spec_scale(v[i], s[i]);
    let fg = |i: int| G::spec_scale(g[i], s[i]);
    let fgk = |i: int| G::spec_scale(fg(i), k);
    let t = |i: int| G::spec_scale(vk[i], s[i]);
    assert forall|i: int| 0 <= i < n implies #[trigger] t(i) == G::spec_op(fv(i), fgk(i)) by {
        lemma_scale_op::<G>(v[i], G::spec_scale(g[i], k), s[i]);
        lemma_scale_scale::<G>(g[i], k, s[i]);
        lemma_scale_scale::<G>(g[i], s[i], k);
        lemma_mul_comm::<G::Scalar>(k, s[i]);
    }
    lemma_msm_range(vk, s);
    lemma_sum_ext(t, |i: int| G::spec_op(fv(i), fgk(i)), n);
    lemma_sum_op(fv, fgk, n);
    lemma_msm_range(v, s);
    lemma_msm_range(prefix(g, n as int), s);
    lemma_sum_ext(|i: int| G::spec_scale(prefix(g, n as int)[i], s[i]), fg, n);
    lemma_sum_scale(fg, k, n);
}

/// `E₁` after a round: `E₁ + β·E₁β + α·E₁₊ + α⁻¹·E₁₋` is the product of the
/// folded `v₁` (after `v₁ += β·Γ₁`) with `s₂` folded by `α⁻¹`, when `E₁`,
/// `E₁β`, `E₁₊` and `E₁₋` are the products the prover sends.
pub proof fn lemma_e1_update<E: PairingCurve>(
    v1: Seq<E::G1>,
    s2: Seq<Scalar<E>>,
    g1: Seq<E::G1>,
    h: nat,
    alpha: Scalar<E>,
    beta: Scalar<E>,
)
    where E::G2: Group<Scalar = Scalar<E>>, E::GT: Group<Scalar = Scalar<E>>,
    requires
        module_laws::<E::G1>(),
        field_laws::<Scalar<E>>(),
        v1.len() == 2 * h,
        s2.len() == 2 * h,
        g1.len() >= 2 * h,
        Scalar::<E>::spec_inv(alpha) is Some,
    ensures
        ({
            let hh = h as int;
            let v1b = shift_by(v1, g1, beta);
            g_add(
                g_add(
                    g_add(msm_of(v1, s2), g_scale(msm_of(prefix(g1, 2 * hh), s2), beta)),
                    g_scale(msm_of(prefix(v1b, hh), suffix(s2, hh)), alpha),
                ),
                g_scale(msm_of(suffix(v1b, hh), prefix(s2, hh)), f_inv(alpha)),
            ) == msm_of(fold_group(v1b, alpha), fold_field(s2, f_inv(alpha)))
        }),
{
    let hh = h as int;
    let ai = f_inv(alpha);
    let v1b = shift_by(v1, g1, beta);
    lemma_msm_shift::<E::G1>(v1, g1, s2, beta);
    let whole = |i: int| <E::G1 as Group>::spec_scale(v1b[i], s2[i]);
    lemma_msm_range(v1b, s2);
    lemma_sum_split(whole, h, h);
    let pl = whole;
    let pr = |i: int| <E::G1 as Group>::spec_scale(v1b[i + hh], s2[i + hh]);
    lemma_sum_ext(|i: int| whole(i + h), pr, h);
    let m = |i: int| <E::G1 as Group>::spec_scale(v1b[i + hh], f_mul(s2[i], ai));
    let pp = |i: int| <E::G1 as Group>::spec_scale(v1b[i], f_mul(alpha, s2[i + hh]));
    let fold_v = fold_group(v1b, alpha);
    let fold_s = fold_field(s2, ai);
    let t = |i: int| <E::G1 as Group>::spec_scale(fold_v[i], fold_s[i]);
    assert forall|i: int| 0 <= i < hh implies #[trigger] t(i)
        == <E::G1 as Group>::spec_op(<E::G1 as Group>::spec_op(pl(i), m(i)), <E::G1 as Group>::spec_op(pp(i), pr(i))) by {
        let x = <E::G1 as Group>::spec_scale(v1b[i], alpha);
        let y = v1b[i + hh];
        let u = f_mul(s2[i], ai);
        let w = s2[i + hh];
        assert(fold_v[i] == <E::G1 as Group>::spec_op(x, y));
        assert(fold_s[i] == Scalar::<E>::spec_add(u, w));
        lemma_scale_add::<E::G1>(<E::G1 as Group>::spec_op(x, y), u, w);
        lemma_scale_op::<E::G1>(x, y, u);
        lemma_scale_op::<E::G1>(x, y, w);
        lemma_scale_scale::<E::G1>(v1b[i], alpha, u);
        lemma_scale_scale::<E::G1>(v1b[i], alpha, w);
        lemma_mul_inv::<Scalar<E>>(alpha, s2[i]);
    }
    lemma_msm_range(fold_v, fold_s);
    lemma_sum_ext(t, |i: int| <E::G1 as Group>::spec_op(<E::G1 as Group>::spec_op(pl(i), m(i)), <E::G1 as Group>::spec_op(pp(i), pr(i))), h);
    lemma_sum_op4(pl, m, pp, pr, h);

    let cm = |i: int| <E::G1 as Group>::spec_scale(v1b[i + hh], s2[i]);
    lemma_msm_range(suffix(v1b, hh), prefix(s2, hh));
    lemma_sum_ext(|i: int| <E::G1 as Group>::spec_scale(suffix(v1b, hh)[i], prefix(s2, hh)[i]), cm, h);
    lemma_sum_scale(cm, ai, h);
    assert forall|i: int| 0 <= i < hh implies #[trigger] <E::G1 as Group>::spec_scale(cm(i), ai) == m(i) by {
        lemma_scale_scale::<E::G1>(v1b[i + hh], s2[i], ai);
    }
    lemma_sum_ext(|i: int| <E::G1 as Group>::spec_scale(cm(i), ai), m, h);

    let cp = |i: int| <E::G1 as Group>::spec_scale(v1b[i], s2[i + hh]);
    lemma_msm_range(prefix(v1b, hh), suffix(s2, hh));
    lemma_sum_ext(|i: int| <E::G1 as Group>::spec_scale(prefix(v1b, hh)[i], suffix(s2, hh)[i]), cp, h);
    lemma_sum_scale(cp, alpha, h);
    assert forall|i: int| 0 <= i < hh implies #[trigger] <E::G1 as Group>::spec_scale(cp(i), alpha) == pp(i) by {
        lemma_scale_scale::<E::G1>(v1b[i], s2[i + hh], alpha);
        lemma_mul_comm::<Scalar<E>>(s2[i + hh], alpha);
    }
    lemma_sum_ext(|i: int| <E::G1 as Group>::spec_scale(cp(i), alpha), pp, h);
    lemma_regroup_adcb(sum_of(pl, h), sum_of(m, h), sum_of(pp, h), sum_of(pr, h));
}

/// `E₂` after a round, with `b` in place of `β⁻¹`: `E₂ + b·E₂β + α·E₂₊ +
/// α⁻¹·E₂₋` is the product of the folded `v₂` (after `v₂ += b·Γ₂`, folded by
/// `α⁻¹`) with `s₁` folded by `α`.
pub proof fn lemma_e2_update<E: PairingCurve>(
    v2: Seq<E::G2>,
    s1: Seq<Scalar<E>>,
    g2: Seq<E::G2>,
    h: nat,
    alpha: Scalar<E>,
    b: Scalar<E>,
)
    where E::G2: Group<Scalar = Scalar<E>>, E::GT: Group<Scalar = Scalar<E>>,
    requires
        module_laws::<E::G2>(),
        field_laws::<Scalar<E>>(),
        v2.len() == 2 * h,
        s1.len() == 2 * h,
        g2.len() >= 2 * h,
        Scalar::<E>::spec_inv(alpha) is Some,
    ensures
        ({
            let hh = h as int;
            let v2b = shift_by(v2, g2, b);
            g_add(
                g_add(
                    g_add(msm_of(v2, s1), g_scale(msm_of(prefix(g2, 2 * hh), s1), b)),
                    g_scale(msm_of(suffix(v2b, hh), prefix(s1, hh)), alpha),
                ),
                g_scale(msm_of(prefix(v2b, hh), suffix(s1, hh)), f_inv(alpha)),
            ) == msm_of(fold_group(v2b, f_inv(alpha)), fold_field(s1, alpha))
        }),
{
    let hh = h as int;
    let ai = f_inv(alpha);
    let v2b = shift_by(v2, g2, b);
    lemma_msm_shift::<E::G2>(v2, g2, s1, b);
    let whole = |i: int| <E::G2 as Group>::spec_scale(v2b[i], s1[i]);
    lemma_msm_range(v2b, s1);
    lemma_sum_split(whole, h, h);
    let pl = whole;
    let pr = |i: int| <E::G2 as Group>::spec_scale(v2b[i + hh], s1[i + hh]);
    lemma_sum_ext(|i: int| whole(i + h), pr, h);
    let pp = |i: int| <E::G2 as Group>::spec_scale(v2b[i + hh], f_mul(s1[i], alpha));
    let pm = |i: int| <E::G2 as Group>::spec_scale(v2b[i], f_mul(ai, s1[i + hh]));
    let fold_v = fold_group(v2b, ai);
    let fold_s = fold_field(s1, alpha);
    let t = |i: int| <E::G2 as Group>::spec_scale(fold_v[i], fold_s[i]);
    assert forall|i: int| 0 <= i < hh implies #[trigger] t(i)
        == <E::G2 as Group>::spec_op(<E::G2 as Group>::spec_op(pl(i), pp(i)), <E::G2 as Group>::spec_op(pm(i), pr(i))) by {
        let x = <E::G2 as Group>::spec_scale(v2b[i], ai);
        let y = v2b[i + hh];
        let u = f_mul(s1[i], alpha);
        let w = s1[i + hh];
        assert(fold_v[i] == <E::G2 as Group>::spec_op(x, y));
        assert(fold_s[i] == Scalar::<E>::spec_add(u, w));
        lemma_scale_add::<E::G2>(<E::G2 as Group>::spec_op(x, y), u, w);
        lemma_scale_op::<E::G2>(x, y, u);
        lemma_scale_op::<E::G2>(x, y, w);
        lemma_scale_scale::<E::G2>(v2b[i], ai, u);
        lemma_scale_scale::<E::G2>(v2b[i], ai, w);
        lemma_mul_inv::<Scalar<E>>(alpha, s1[i]);
    }
    lemma_msm_range(fold_v, fold_s);
    lemma_sum_ext(t, |i: int| <E::G2 as Group>::spec_op(<E::G2 as Group>::spec_op(pl(i), pp(i)), <E::G2 as Group>::spec_op(pm(i), pr(i))), h);
    lemma_sum_op4(pl, pp, pm, pr, h);

    let cp = |i: int| <E::G2 as Group>::spec_scale(v2b[i + hh], s1[i]);
    lemma_msm_range(suffix(v2b, hh), prefix(s1, hh));
    lemma_sum_ext(|i: int| <E::G2 as Group>::spec_scale(suffix(v2b, hh)[i], prefix(s1, hh)[i]), cp, h);
    lemma_sum_scale(cp, alpha, h);
    assert forall|i: int| 0 <= i < hh implies #[trigger] <E::G2 as Group>::spec_scale(cp(i), alpha) == pp(i) by {
        lemma_scale_scale::<E::G2>(v2b[i + hh], s1[i], alpha);
    }
    lemma_sum_ext(|i: int| <E::G2 as Group>::spec_scale(cp(i), alpha), pp, h);

    let cm = |i: int| <E::G2 as Group>::spec_scale(v2b[i], s1[i + hh]);
    lemma_msm_range(prefix(v2b, hh), suffix(s1, hh));
    lemma_sum_ext(|i: int| <E::G2 as Group>::spec_scale(prefix(v2b, hh)[i], suffix(s1, hh)[i]), cm, h);
    lemma_sum_scale(cm, ai, h);
    assert forall|i: int| 0 <= i < hh implies #[trigger] <E::G2 as Group>::spec_scale(cm(i), ai) == pm(i) by {
        lemma_scale_scale::<E::G2>(v2b[i], s1[i + hh], ai);
        lemma_mul_comm::<Scalar<E>>(s1[i + hh], ai);
    }
    lemma_sum_ext(|i: int| <E::G2 as Group>::spec_scale(cm(i), ai), pm, h);
    lemma_regroup_adbc(sum_of(pl, h), sum_of(pp, h), sum_of(pm, h), sum_of(pr, h));
}

/// Shifting both sides of a pairing product by the generators, with `β` and
/// `β⁻¹`: `⟨v₁ + β·Γ₁, v₂ + β⁻¹·Γ₂⟩ = C + χ + β·D₂ + β⁻¹·D₁` for
/// `C = ⟨v₁, v₂⟩`, `χ = ⟨Γ₁, Γ₂⟩`, `D₂ = ⟨Γ₁, v₂⟩`, `D₁ = ⟨v₁, Γ₂⟩`.
pub proof fn lemma_pair_shift<E: PairingCurve>(
    v1: Seq<E::G1>,
    v2: Seq<E::G2>,
    g1: Seq<E::G1>,
    g2: Seq<E::G2>,
    beta: Scalar<E>,
)
    where E::G2: Group<Scalar = Scalar<E>>, E::GT: Group<Scalar = Scalar<E>>,
    requires
        module_laws::<E::GT>(),
        field_laws::<Scalar<E>>(),
        bilinear::<E>(),
        v1.len() == v2.len(),
        g1.len() >= v1.len(),
        g2.len() >= v1.len(),
        Scalar::<E>::spec_inv(beta) is Some,
    ensures
        ({
            let n = v1.len() as int;
            let bi = f_inv(beta);
            pairing_sum::<E>(shift_by(v1, g1, beta), shift_by(v2, g2, bi)) == g_add(
                g_add(
                    g_add(pairing_sum::<E>(v1, v2), pairing_sum::<E>(prefix(g1, n), prefix(g2, n))),
                    g_scale(pairing_sum::<E>(prefix(g1, n), v2), beta),
                ),
                g_scale(pairing_sum::<E>(v1, prefix(g2, n)), bi),
            )
        }),
{
    let n = v1.len();
    let bi = f_inv(beta);
    let v1b = shift_by(v1, g1, beta);
    let v2b = shift_by(v2, g2, bi);
    let fc = |i: int| E::spec_pair(v1[i], v2[i]);
    let fd1 = |i: int| E::spec_pair(v1[i], g2[i]);
    let fd2 = |i: int| E::spec_pair(g1[i], v2[i]);
    let fx = |i: int| E::spec_pair(g1[i], g2[i]);
    let fb = |i: int| <E::GT as Group>::spec_scale(fd1(i), bi);
    let fcc = |i: int| <E::GT as Group>::spec_scale(fd2(i), beta);
    let t = |i: int| E::spec_pair(v1b[i], v2b[i]);
    assert forall|i: int| 0 <= i < n implies #[trigger] t(i)
        == <E::GT as Group>::spec_op(<E::GT as Group>::spec_op(fc(i), fb(i)), <E::GT as Group>::spec_op(fcc(i), fx(i))) by {
        let bg1 = <E::G1 as Group>::spec_scale(g1[i], beta);
        let bg2 = <E::G2 as Group>::spec_scale(g2[i], bi);
        lemma_pair_op_left::<E>(v1[i], bg1, v2b[i]);
        lemma_pair_op_right::<E>(v1[i], v2[i], bg2);
        lemma_pair_scale_right::<E>(v1[i], g2[i], bi);
        lemma_pair_op_right::<E>(bg1, v2[i], bg2);
        lemma_pair_scale_left::<E>(g1[i], v2[i], beta);
        lemma_pair_scale_left::<E>(g1[i], bg2, beta);
        lemma_pair_scale_right::<E>(g1[i], g2[i], bi);
        lemma_scale_scale::<E::GT>(fx(i), bi, beta);
        lemma_mul_inv::<Scalar<E>>(beta, beta);
        lemma_scale_one::<E::GT>(fx(i));
    }
    lemma_pairing_sum_range::<E>(v1b, v2b);
    lemma_sum_ext(t, |i: int| <E::GT as Group>::spec_op(<E::GT as Group>::spec_op(fc(i), fb(i)), <E::GT as Group>::spec_op(fcc(i), fx(i))), n);
    lemma_sum_op4(fc, fb, fcc, fx, n);
    lemma_pairing_sum_range::<E>(v1, v2);
    lemma_pairing_sum_range::<E>(prefix(g1, n as int), prefix(g2, n as int));
    lemma_sum_ext(|i: int| E::spec_pair(prefix(g1, n as int)[i], prefix(g2, n as int)[i]), fx, n);
    lemma_pairing_sum_range::<E>(prefix(g1, n as int), v2);
    lemma_sum_ext(|i: int| E::spec_pair(prefix(g1, n as int)[i], v2[i]), fd2, n);
    lemma_pairing_sum_range::<E>(v1, prefix(g2, n as int));
    lemma_sum_ext(|i: int| E::spec_pair(v1[i], prefix(g2, n as int)[i]), fd1, n);
    lemma_sum_scale(fd1, bi, n);
    lemma_sum_scale(fd2, beta, n);
    lemma_regroup_adcb(sum_of(fc, n), sum_of(fb, n), sum_of(fcc, n), sum_of(fx, n));
}

/// `C` after a round: `C + χ + β·D₂ + β⁻¹·D₁ + α·C₊ + α⁻¹·C₋` is the pairing
/// of the two folded vectors, when `C`, `D₁`, `D₂` are the pairings of the
/// prover's vectors, `χ` that of the generators, and `C₊`, `C₋` the cross
/// pairings the prover sends.
pub proof fn lemma_c_update<E: PairingCurve>(
    v1: Seq<E::G1>,
    v2: Seq<E::G2>,
    g1: Seq<E::G1>,
    g2: Seq<E::G2>,
    h: nat,
    alpha: Scalar<E>,
    beta: Scalar<E>,
)
    where E::G2: Group<Scalar = Scalar<E>>, E::GT: Group<Scalar = Scalar<E>>,
    requires
        module_laws::<E::GT>(),
        field_laws::<Scalar<E>>(),
        bilinear::<E>(),
        v1.len() == 2 * h,
        v2.len() == 2 * h,
        g1.len() >= 2 * h,
        g2.len() >= 2 * h,
        Scalar::<E>::spec_inv(alpha) is Some,
        Scalar::<E>::spec_inv(beta) is Some,
    ensures
        ({
            let hh = h as int;
            let n = 2 * hh;
            let ai = f_inv(alpha);
            let bi = f_inv(beta);
            let v1b = shift_by(v1, g1, beta);
            let v2b = shift_by(v2, g2, bi);
            g_add(
                g_add(
                    g_add(
                        g_add(
                            g_add(pairing_sum::<E>(v1, v2), pairing_sum::<E>(prefix(g1, n), prefix(g2, n))),
                            g_scale(pairing_sum::<E>(prefix(g1, n), v2), beta),
                        ),
                        g_scale(pairing_sum::<E>(v1, prefix(g2, n)), bi),
                    ),
                    g_scale(pairing_sum::<E>(prefix(v1b, hh), suffix(v2b, hh)), alpha),
                ),
                g_scale(pairing_sum::<E>(suffix(v1b, hh), prefix(v2b, hh)), ai),
            ) == pairing_sum::<E>(fold_group(v1b, alpha), fold_group(v2b, ai))
        }),
{
    let hh = h as int;
    let ai = f_inv(alpha);
    let bi = f_inv(beta);
    let v1b = shift_by(v1, g1, beta);
    let v2b = shift_by(v2, g2, bi);
    lemma_pair_shift::<E>(v1, v2, g1, g2, beta);
    let whole = |i: int| E::spec_pair(v1b[i], v2b[i]);
    lemma_pairing_sum_range::<E>(v1b, v2b);
    lemma_sum_split(whole, h, h);
    let fa = whole;
    let fd = |i: int| E::spec_pair(v1b[i + hh], v2b[i + hh]);
    lemma_sum_ext(|i: int| whole(i + h), fd, h);
    let xp = |i: int| E::spec_pair(v1b[i], v2b[i + hh]);
    let xm = |i: int| E::spec_pair(v1b[i + hh], v2b[i]);
    let fb = |i: int| <E::GT as Group>::spec_scale(xp(i), alpha);
    let fc = |i: int| <E::GT as Group>::spec_scale(xm(i), ai);
    let f1 = fold_group(v1b, alpha);
    let f2 = fold_group(v2b, ai);
    let t = |i: int| E::spec_pair(f1[i], f2[i]);
    assert forall|i: int| 0 <= i < hh implies #[trigger] t(i)
        == <E::GT as Group>::spec_op(<E::GT as Group>::spec_op(fa(i), fb(i)), <E::GT as Group>::spec_op(fc(i), fd(i))) by {
        let x = v1b[i];
        let x2 = v1b[i + hh];
        let y = v2b[i];
        let y2 = v2b[i + hh];
        let ax = <E::G1 as Group>::spec_scale(x, alpha);
        let ay = <E::G2 as Group>::spec_scale(y, ai);
        assert(f1[i] == <E::G1 as Group>::spec_op(ax, x2));
        assert(f2[i] == <E::G2 as Group>::spec_op(ay, y2));
        lemma_pair_op_left::<E>(ax, x2, <E::G2 as Group>::spec_op(ay, y2));
        lemma_pair_op_right::<E>(ax, ay, y2);
        lemma_pair_op_right::<E>(x2, ay, y2);
        lemma_pair_scale_left::<E>(x, ay, alpha);
        lemma_pair_scale_right::<E>(x, y, ai);
        lemma_scale_scale::<E::GT>(E::spec_pair(x, y), ai, alpha);
        lemma_mul_inv::<Scalar<E>>(alpha, alpha);
        lemma_scale_one::<E::GT>(E::spec_pair(x, y));
        lemma_pair_scale_left::<E>(x, y2, alpha);
        lemma_pair_scale_right::<E>(x2, y, ai);
    }
    lemma_pairing_sum_range::<E>(f1, f2);
    lemma_sum_ext(t, |i: int| <E::GT as Group>::spec_op(<E::GT as Group>::spec_op(fa(i), fb(i)), <E::GT as Group>::spec_op(fc(i), fd(i))), h);
    lemma_sum_op4(fa, fb, fc, fd, h);
    lemma_pairing_sum_range::<E>(prefix(v1b, hh), suffix(v2b, hh));
    lemma_sum_ext(|i: int| E::spec_pair(prefix(v1b, hh)[i], suffix(v2b, hh)[i]), xp, h);
    lemma_pairing_sum_range::<E>(suffix(v1b, hh), prefix(v2b, hh));
    lemma_sum_ext(|i: int| E::spec_pair(suffix(v1b, hh)[i], prefix(v2b, hh)[i]), xm, h);
    lemma_sum_scale(xp, alpha, h);
    lemma_sum_scale(xm, ai, h);
    lemma_regroup_adbc(sum_of(fa, h), sum_of(fb, h), sum_of(fc, h), sum_of(fd, h));
}

/// Pairing a multi-scalar multiplication in G1 with `q` sums the pairings of
/// its scaled entries.
pub proof fn lemma_pair_msm_left<E: PairingCurve>(ps: Seq<E::G1>, sc: Seq<Scalar<E>>, q: E::G2, n: nat)
    where E::G2: Group<Scalar = Scalar<E>>, E::GT: Group<Scalar = Scalar<E>>,
    requires
        bilinear::<E>(),
    ensures
        E::spec_pair(msm_sum(ps, sc, n), q) == sum_of(|i: int| E::spec_pair(<E::G1 as Group>::spec_scale(ps[i], sc[i]), q), n),
    decreases n,
{
    if n == 0 {
        lemma_pair_identity_left::<E>(q);
    } else {
        lemma_pair_msm_left::<E>(ps, sc, q, (n - 1) as nat);
        lemma_pair_op_left::<E>(msm_sum(ps, sc, (n - 1) as nat), <E::G1 as Group>::spec_scale(ps[n - 1], sc[n - 1]), q);
    }
}

/// The scalars kept behind `v2` describe it: `v2[i] = sc[i]·g`.
pub open spec fn scalars_describe<G: Group>(v2: Seq<G>, sc: Seq<G::Scalar>, g: G) -> bool {
    &&& sc.len() >= v2.len()
    &&& forall|i: int| 0 <= i < v2.len() ==> #[trigger] v2[i] == G::spec_scale(g, sc[i])
}

/// With scalars that describe `v2`, the shortcut for `D₂` gives the pairing
/// product it stands for.
pub proof fn lemma_d2_base_is_pairing<E: PairingCurve>(
    v2: Seq<E::G2>,
    v2_scalars: Option<Seq<Scalar<E>>>,
    g1p: Seq<E::G1>,
    g2_0: E::G2,
    lo: int,
    hi: int,
)
    where E::G2: Group<Scalar = Scalar<E>>, E::GT: Group<Scalar = Scalar<E>>,
    requires
        bilinear::<E>(),
        0 <= lo <= hi <= v2.len(),
        g1p.len() == hi - lo,
        v2_scalars matches Some(sc) ==> scalars_describe(v2, sc, g2_0),
    ensures
        d2_base::<E>(v2, v2_scalars, g1p, g2_0, lo, hi) == pairing_sum::<E>(g1p, v2.subrange(lo, hi)),
{
    match v2_scalars {
        Some(sc) => {
            let part = sc.subrange(lo, hi);
            let n = g1p.len();
            lemma_pair_msm_left::<E>(g1p, part, g2_0, n);
            lemma_pairing_sum_range::<E>(g1p, v2.subrange(lo, hi));
            assert forall|i: int| 0 <= i < n implies
                #[trigger] E::spec_pair(<E::G1 as Group>::spec_scale(g1p[i], part[i]), g2_0)
                    == E::spec_pair(g1p[i], v2.subrange(lo, hi)[i]) by {
                lemma_pair_scale_left::<E>(g1p[i], g2_0, part[i]);
                lemma_pair_scale_right::<E>(g1p[i], g2_0, part[i]);
                assert(v2[lo + i] == <E::G2 as Group>::spec_scale(g2_0, sc[lo + i]));
            }
            lemma_sum_ext(
                |i: int| E::spec_pair(<E::G1 as Group>::spec_scale(g1p[i], part[i]), g2_0),
                |i: int| E::spec_pair(g1p[i], v2.subrange(lo, hi)[i]),
                n,
            );
        },
        None => {},
    }
}

/// The verifier's accumulators for the prover's vectors: `C = ⟨v₁, v₂⟩`,
/// `D₁ = ⟨v₁, Γ₂⟩`, `D₂ = ⟨Γ₁, v₂⟩`, `E₁ = ⟨v₁, s₂⟩`, `E₂ = ⟨v₂, s₁⟩`, the
/// generators cut to the vectors' length.
pub open spec fn accumulators_of<E: PairingCurve>(
    v1: Seq<E::G1>,
    v2: Seq<E::G2>,
    s1: Seq<Scalar<E>>,
    s2: Seq<Scalar<E>>,
    g1: Seq<E::G1>,
    g2: Seq<E::G2>,
) -> (E::GT, E::GT, E::GT, E::G1, E::G2)
    where E::G2: Group<Scalar = Scalar<E>>, E::GT: Group<Scalar = Scalar<E>>,
{
    let n = v1.len() as int;
    (
        pairing_sum::<E>(v1, v2),
        pairing_sum::<E>(v1, prefix(g2, n)),
        pairing_sum::<E>(prefix(g1, n), v2),
        msm_of(v1, s2),
        msm_of(v2, s1),
    )
}

/// The verifier's values for round `k` are the pairings of the prover's
/// generators they stand for, with `n = 2^k` and `h = n / 2`: `χ` of the
/// first `n` of both, `Δ₁L`, `Δ₁R` of the halves of `Γ₁` with the first half
/// of `Γ₂`, and `Δ₂L`, `Δ₂R` of the first half of `Γ₁` with the halves of `Γ₂`.
pub open spec fn setup_round_agrees<E: PairingCurve>(psu: ProverSetup<E>, vsu: VerifierSetup<E>, k: nat) -> bool {
    let n = pow2(k) as int;
    let h = n / 2;
    let g1 = psu.g1_vec@;
    let g2 = psu.g2_vec@;
    &&& vsu.chi@.len() > k
    &&& vsu.delta_1l@.len() > k
    &&& vsu.delta_1r@.len() > k
    &&& vsu.delta_2l@.len() > k
    &&& vsu.delta_2r@.len() > k
    &&& vsu.chi@[k as int] == pairing_sum::<E>(prefix(g1, n), prefix(g2, n))
    &&& vsu.delta_1l@[k as int] == pairing_sum::<E>(prefix(g1, h), prefix(g2, h))
    &&& vsu.delta_1r@[k as int] == pairing_sum::<E>(g1.subrange(h, n), prefix(g2, h))
    &&& vsu.delta_2l@[k as int] == pairing_sum::<E>(prefix(g1, h), prefix(g2, h))
    &&& vsu.delta_2r@[k as int] == pairing_sum::<E>(prefix(g1, h), g2.subrange(h, n))
}

/// One honest round keeps the verifier in step with the prover: when the
/// verifier's accumulators are the inner products of the prover's vectors
/// and the round's setup values agree with the generators, the verifier's
/// update from the prover's two unblinded messages (the first computed before
/// `β` is applied, the second after) gives the inner products of the folded
/// vectors — on any bilinear pairing between modules over a field.
pub proof fn lemma_honest_round_keeps_accumulators<E: PairingCurve>(
    v1: Seq<E::G1>,
    v2: Seq<E::G2>,
    v2_scalars: Option<Seq<Scalar<E>>>,
    s1: Seq<Scalar<E>>,
    s2: Seq<Scalar<E>>,
    psu: ProverSetup<E>,
    vsu: VerifierSetup<E>,
    k: nat,
    alpha: Scalar<E>,
    beta: Scalar<E>,
    rd1: [Scalar<E>; 2],
    rd2: [Scalar<E>; 2],
    rc: [Scalar<E>; 2],
    re1: [Scalar<E>; 2],
    re2: [Scalar<E>; 2],
)
    where E::G2: Group<Scalar = Scalar<E>>, E::GT: Group<Scalar = Scalar<E>>,
    requires
        module_laws::<E::G1>(),
        module_laws::<E::G2>(),
        module_laws::<E::GT>(),
        field_laws::<Scalar<E>>(),
        bilinear::<E>(),
        k >= 1,
        v1.len() == pow2(k),
        v2.len() == pow2(k),
        s1.len() == pow2(k),
        s2.len() == pow2(k),
        psu.g1_vec@.len() >= pow2(k),
        psu.g2_vec@.len() >= pow2(k),
        v2_scalars matches Some(sc) ==> scalars_describe(v2, sc, psu.g2_vec@[0]),
        setup_round_agrees(psu, vsu, k),
        Scalar::<E>::spec_inv(alpha) is Some,
        Scalar::<E>::spec_inv(beta) is Some,
    ensures
        ({
            let g1 = psu.g1_vec@;
            let g2 = psu.g2_vec@;
            let m1 = first_message_value::<E>(false, v1, v2, v2_scalars, s1, s2, psu, rd1, rd2);
            let v1b = shift_by(v1, g1, beta);
            let v2b = shift_by(v2, g2, f_inv(beta));
            let m2 = second_message_value::<E>(false, v1b, v2b, s1, s2, psu, rc, re1, re2);
            verifier_round_update::<E>(accumulators_of::<E>(v1, v2, s1, s2, g1, g2), vsu, k as int, m1, m2, alpha, beta)
                == accumulators_of::<E>(
                fold_group(v1b, alpha),
                fold_group(v2b, f_inv(alpha)),
                fold_field(s1, alpha),
                fold_field(s2, f_inv(alpha)),
                g1,
                g2,
            )
        }),
{
    let g1 = psu.g1_vec@;
    let g2 = psu.g2_vec@;
    lemma_pow2_unfold(k);
    let h = pow2((k - 1) as nat);
    let hh = h as int;
    let n = 2 * hh;
    let ai = f_inv(alpha);
    let bi = f_inv(beta);
    let v1b = shift_by(v1, g1, beta);
    let v2b = shift_by(v2, g2, bi);
    lemma_d2_base_is_pairing::<E>(v2, v2_scalars, prefix(g1, hh), g2[0], 0, hh);
    lemma_d2_base_is_pairing::<E>(v2, v2_scalars, prefix(g1, hh), g2[0], hh, n);
    lemma_c_update::<E>(v1, v2, g1, g2, h, alpha, beta);
    lemma_d1_update::<E>(v1, g1, g2, h, alpha, beta);
    lemma_d2_update::<E>(v2, g1, g2, h, ai, bi);
    lemma_e1_update::<E>(v1, s2, g1, h, alpha, beta);
    lemma_e2_update::<E>(v2, s1, g2, h, alpha, bi);
    assert(v2.subrange(0, hh) == prefix(v2, hh));
}

/// The verifier's values for the final check agree with the prover's
/// generators: the first generators and the blinding generators are the
/// same, `HT = e(H₁, H₂)` and `χ₀ = e(Γ₁₀, Γ₂₀)`.
pub open spec fn setup_final_agrees<E: PairingCurve>(psu: ProverSetup<E>, vsu: VerifierSetup<E>) -> bool {
    &&& psu.g1_vec@.len() >= 1
    &&& psu.g2_vec@.len() >= 1
    &&& vsu.g1_0 == psu.g1_vec@[0]
    &&& vsu.g2_0 == psu.g2_vec@[0]
    &&& vsu.h1 == psu.h1
    &&& vsu.h2 == psu.h2
    &&& vsu.ht == E::spec_pair(psu.h1, psu.h2)
    &&& vsu.chi@.len() > 0
    &&& vsu.chi@[0] == E::spec_pair(vsu.g1_0, vsu.g2_0)
}

/// The honest final message passes the transparent final check: when the
/// verifier's accumulators are the inner products of the prover's folded
/// vectors `[x]`, `[y]`, `[a]`, `[b]`, its folded coordinates are `(a, b)`
/// and its initial `D₂` is `e(E₁, Γ₂₀)` for its initial `E₁`, the two sides
/// of the check agree for the unblinded final message — on any bilinear
/// pairing between modules over a field.
pub proof fn lemma_honest_final_check<E: PairingCurve>(
    x: E::G1,
    y: E::G2,
    a: Scalar<E>,
    b: Scalar<E>,
    psu: ProverSetup<E>,
    vsu: VerifierSetup<E>,
    e1_init: E::G1,
    d2_init: E::GT,
    gamma: Scalar<E>,
    d: Scalar<E>,
)
    where E::G2: Group<Scalar = Scalar<E>>, E::GT: Group<Scalar = Scalar<E>>,
    requires
        module_laws::<E::G1>(),
        module_laws::<E::G2>(),
        module_laws::<E::GT>(),
        field_laws::<Scalar<E>>(),
        bilinear::<E>(),
        setup_final_agrees(psu, vsu),
        d2_init == E::spec_pair(e1_init, vsu.g2_0),
        Scalar::<E>::spec_inv(gamma) is Some,
        Scalar::<E>::spec_inv(d) is Some,
    ensures
        ({
            let z = Scalar::<E>::spec_zero();
            let acc = accumulators_of::<E>(seq![x], seq![y], seq![a], seq![b], psu.g1_vec@, psu.g2_vec@);
            let msg = final_message_value::<E>(x, y, a, b, psu, gamma, z, z);
            let sides = final_check_sides::<E>(acc, (e1_init, d2_init), (a, b), vsu, msg, gamma, d);
            sides.0 == sides.1
        }),
{
    let z = Scalar::<E>::spec_zero();
    let g1 = psu.g1_vec@;
    let g2 = psu.g2_vec@;
    let g1_0 = vsu.g1_0;
    let g2_0 = vsu.g2_0;
    let h1 = vsu.h1;
    let h2 = vsu.h2;
    let gi = f_inv(gamma);
    let di = f_inv(d);
    let ng = Scalar::<E>::spec_neg(gamma);
    let ngi = Scalar::<E>::spec_neg(gi);
    let dsq = f_mul(d, d);
    let ka = f_mul(gamma, a);
    let kb = f_mul(gi, b);
    lemma_add_zero(ka);
    lemma_add_zero(kb);
    let acc = accumulators_of::<E>(seq![x], seq![y], seq![a], seq![b], g1, g2);
    let msg = final_message_value::<E>(x, y, a, b, psu, gamma, z, z);

    // The accumulators of vectors of one entry.
    let fc = |i: int| E::spec_pair(seq![x][i], seq![y][i]);
    lemma_pairing_sum_range::<E>(seq![x], seq![y]);
    assert(sum_of(fc, 1) == <E::GT as Group>::spec_op(sum_of(fc, 0), fc(0)));
    assert(fc(0) == E::spec_pair(x, y));
    lemma_op_identity(E::spec_pair(x, y));
    assert(acc.0 == E::spec_pair(x, y));
    let fd1 = |i: int| E::spec_pair(seq![x][i], prefix(g2, 1)[i]);
    lemma_pairing_sum_range::<E>(seq![x], prefix(g2, 1));
    assert(sum_of(fd1, 1) == <E::GT as Group>::spec_op(sum_of(fd1, 0), fd1(0)));
    assert(fd1(0) == E::spec_pair(x, g2_0));
    lemma_op_identity(E::spec_pair(x, g2_0));
    assert(acc.1 == E::spec_pair(x, g2_0));
    let fd2 = |i: int| E::spec_pair(prefix(g1, 1)[i], seq![y][i]);
    lemma_pairing_sum_range::<E>(prefix(g1, 1), seq![y]);
    assert(sum_of(fd2, 1) == <E::GT as Group>::spec_op(sum_of(fd2, 0), fd2(0)));
    assert(fd2(0) == E::spec_pair(g1_0, y));
    lemma_op_identity(E::spec_pair(g1_0, y));
    assert(acc.2 == E::spec_pair(g1_0, y));
    let fe1 = |i: int| <E::G1 as Group>::spec_scale(seq![x][i], seq![b][i]);
    lemma_msm_range(seq![x], seq![b]);
    assert(sum_of(fe1, 1) == <E::G1 as Group>::spec_op(sum_of(fe1, 0), fe1(0)));
    lemma_op_identity(<E::G1 as Group>::spec_scale(x, b));
    let fe2 = |i: int| <E::G2 as Group>::spec_scale(seq![y][i], seq![a][i]);
    lemma_msm_range(seq![y], seq![a]);
    assert(sum_of(fe2, 1) == <E::G2 as Group>::spec_op(sum_of(fe2, 0), fe2(0)));
    lemma_op_identity(<E::G2 as Group>::spec_scale(y, a));
    let e1acc = <E::G1 as Group>::spec_scale(x, b);
    let e2acc = <E::G2 as Group>::spec_scale(y, a);
    assert(acc == (E::spec_pair(x, y), E::spec_pair(x, g2_0), E::spec_pair(g1_0, y), e1acc, e2acc));

    // The four pairings of the left side.
    let hh1 = <E::G1 as Group>::spec_scale(h1, ka);
    let gg1 = <E::G1 as Group>::spec_scale(g1_0, d);
    let hh2 = <E::G2 as Group>::spec_scale(h2, kb);
    let gg2 = <E::G2 as Group>::spec_scale(g2_0, di);
    let p1 = <E::G1 as Group>::spec_op(<E::G1 as Group>::spec_op(x, hh1), gg1);
    let q1 = <E::G2 as Group>::spec_op(<E::G2 as Group>::spec_op(y, hh2), gg2);
    let sg2 = <E::G2 as Group>::spec_scale(g2_0, f_mul(di, a));
    let q2 = <E::G2 as Group>::spec_scale(<E::G2 as Group>::spec_op(e2acc, sg2), ng);
    let sg1 = <E::G1 as Group>::spec_scale(g1_0, f_mul(d, b));
    let p3 = <E::G1 as Group>::spec_scale(<E::G1 as Group>::spec_op(e1acc, sg1), ngi);
    let p4 = <E::G1 as Group>::spec_scale(e1_init, dsq);
    let ps = seq![p1, h1, p3, p4];
    let qs = seq![q1, q2, h2, g2_0];
    let f = |i: int| E::spec_pair(ps[i], qs[i]);
    assert(f(0) == E::spec_pair(p1, q1));
    assert(f(1) == E::spec_pair(h1, q2));
    assert(f(2) == E::spec_pair(p3, h2));
    assert(f(3) == E::spec_pair(p4, g2_0));
    assert(sum_of(f, 1) == <E::GT as Group>::spec_op(sum_of(f, 0), f(0)));
    assert(sum_of(f, 2) == <E::GT as Group>::spec_op(sum_of(f, 1), f(1)));
    assert(sum_of(f, 3) == <E::GT as Group>::spec_op(sum_of(f, 2), f(2)));
    assert(sum_of(f, 4) == <E::GT as Group>::spec_op(sum_of(f, 3), f(3)));

    // e(p1, q1) as nine terms.
    lemma_pair_op_left::<E>(<E::G1 as Group>::spec_op(x, hh1), gg1, q1);
    lemma_pair_op_left::<E>(x, hh1, q1);
    lemma_pair_op_right::<E>(x, <E::G2 as Group>::spec_op(y, hh2), gg2);
    lemma_pair_op_right::<E>(x, y, hh2);
    lemma_pair_op_right::<E>(hh1, <E::G2 as Group>::spec_op(y, hh2), gg2);
    lemma_pair_op_right::<E>(hh1, y, hh2);
    lemma_pair_op_right::<E>(gg1, <E::G2 as Group>::spec_op(y, hh2), gg2);
    lemma_pair_op_right::<E>(gg1, y, hh2);
    let t1 = E::spec_pair(x, y);
    let t2 = <E::GT as Group>::spec_scale(E::spec_pair(x, h2), kb);
    let t3 = <E::GT as Group>::spec_scale(E::spec_pair(x, g2_0), di);
    let t4 = <E::GT as Group>::spec_scale(E::spec_pair(h1, y), ka);
    let t5 = <E::GT as Group>::spec_scale(E::spec_pair(h1, h2), f_mul(kb, ka));
    let t6 = <E::GT as Group>::spec_scale(E::spec_pair(h1, g2_0), f_mul(di, ka));
    let t7 = <E::GT as Group>::spec_scale(E::spec_pair(g1_0, y), d);
    let t8 = <E::GT as Group>::spec_scale(E::spec_pair(g1_0, h2), f_mul(kb, d));
    let t9 = E::spec_pair(g1_0, g2_0);
    lemma_pair_scale_right::<E>(x, h2, kb);
    lemma_pair_scale_right::<E>(x, g2_0, di);
    lemma_pair_scale_left::<E>(h1, y, ka);
    lemma_pair_scale_left::<E>(h1, hh2, ka);
    lemma_pair_scale_right::<E>(h1, h2, kb);
    lemma_scale_scale::<E::GT>(E::spec_pair(h1, h2), kb, ka);
    lemma_pair_scale_left::<E>(h1, gg2, ka);
    lemma_pair_scale_right::<E>(h1, g2_0, di);
    lemma_scale_scale::<E::GT>(E::spec_pair(h1, g2_0), di, ka);
    lemma_pair_scale_left::<E>(g1_0, y, d);
    lemma_pair_scale_left::<E>(g1_0, hh2, d);
    lemma_pair_scale_right::<E>(g1_0, h2, kb);
    lemma_scale_scale::<E::GT>(E::spec_pair(g1_0, h2), kb, d);
    lemma_pair_scale_left::<E>(g1_0, gg2, d);
    lemma_pair_scale_right::<E>(g1_0, g2_0, di);
    lemma_scale_scale::<E::GT>(t9, di, d);
    lemma_mul_inv::<Scalar<E>>(d, d);
    lemma_scale_one::<E::GT>(t9);
    assert(E::spec_pair(p1, q1) == <E::GT as Group>::spec_op(
        <E::GT as Group>::spec_op(
            <E::GT as Group>::spec_op(<E::GT as Group>::spec_op(t1, t2), t3),
            <E::GT as Group>::spec_op(<E::GT as Group>::spec_op(t4, t5), t6),
        ),
        <E::GT as Group>::spec_op(<E::GT as Group>::spec_op(t7, t8), t9),
    ));

    // e(h1, q2) and e(p3, h2), two terms each, and e(p4, g2_0).
    lemma_pair_scale_right::<E>(h1, <E::G2 as Group>::spec_op(e2acc, sg2), ng);
    lemma_pair_op_right::<E>(h1, e2acc, sg2);
    lemma_scale_op::<E::GT>(E::spec_pair(h1, e2acc), E::spec_pair(h1, sg2), ng);
    lemma_pair_scale_right::<E>(h1, y, a);
    lemma_scale_scale::<E::GT>(E::spec_pair(h1, y), a, ng);
    lemma_pair_scale_right::<E>(h1, g2_0, f_mul(di, a));
    lemma_scale_scale::<E::GT>(E::spec_pair(h1, g2_0), f_mul(di, a), ng);
    let t4n = <E::GT as Group>::spec_scale(E::spec_pair(h1, y), f_mul(a, ng));
    let t6n = <E::GT as Group>::spec_scale(E::spec_pair(h1, g2_0), f_mul(f_mul(di, a), ng));
    assert(E::spec_pair(h1, q2) == <E::GT as Group>::spec_op(t4n, t6n));
    lemma_pair_scale_left::<E>(<E::G1 as Group>::spec_op(e1acc, sg1), h2, ngi);
    lemma_pair_op_left::<E>(e1acc, sg1, h2);
    lemma_scale_op::<E::GT>(E::spec_pair(e1acc, h2), E::spec_pair(sg1, h2), ngi);
    lemma_pair_scale_left::<E>(x, h2, b);
    lemma_scale_scale::<E::GT>(E::spec_pair(x, h2), b, ngi);
    lemma_pair_scale_left::<E>(g1_0, h2, f_mul(d, b));
    lemma_scale_scale::<E::GT>(E::spec_pair(g1_0, h2), f_mul(d, b), ngi);
    let t2n = <E::GT as Group>::spec_scale(E::spec_pair(x, h2), f_mul(b, ngi));
    let t8n = <E::GT as Group>::spec_scale(E::spec_pair(g1_0, h2), f_mul(f_mul(d, b), ngi));
    assert(E::spec_pair(p3, h2) == <E::GT as Group>::spec_op(t2n, t8n));
    lemma_pair_scale_left::<E>(e1_init, g2_0, dsq);
    let t10 = <E::GT as Group>::spec_scale(d2_init, dsq);

    // The four pairs that cancel, and the product of the folded coordinates.
    lemma_final_scalars::<Scalar<E>>(gamma, a, b, d);
    lemma_final_scalars::<Scalar<E>>(gamma, a, b, di);
    lemma_scale_cancel::<E::GT>(E::spec_pair(x, h2), kb, f_mul(b, ngi));
    lemma_scale_cancel::<E::GT>(E::spec_pair(h1, y), ka, f_mul(a, ng));
    lemma_scale_cancel::<E::GT>(E::spec_pair(h1, g2_0), f_mul(di, ka), f_mul(f_mul(di, a), ng));
    lemma_scale_cancel::<E::GT>(E::spec_pair(g1_0, h2), f_mul(kb, d), f_mul(f_mul(d, b), ngi));
    lemma_final_regroup::<E::GT>(t1, t2, t3, t4, t5, t6, t7, t8, t9, t10, t2n, t4n, t6n, t8n);
    lemma_pairing_sum_range::<E>(ps, qs);
}

} // verus!
