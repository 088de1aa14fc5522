//! What the verifier's final zero-knowledge check and its four-way rounds
//! amount to: the check accepts every honest scalar-product proof, and a
//! four-way round folds `C`, `D₁`, `D₂` as polynomials in its challenge.
use vstd::prelude::*;
use crate::arithmetic::{Field, Group, PairingCurve};
use crate::messages::{FirstReduceMessage, FirstReduceMessage4, SecondReduceMessage};
use crate::pairing_algebra::{
    module_laws, field_laws, bilinear, lemma_pair_op_left, lemma_pair_op_right, lemma_pair_scale_left,
    lemma_pair_scale_right, lemma_scale_op, lemma_scale_add, lemma_scale_scale, lemma_scale_one, lemma_mul_comm,
    lemma_mul_assoc, lemma_mul_inv, lemma_op_assoc, lemma_op_identity, lemma_swap_middle,
};
use crate::reduce_and_fold::{
    DoryVerifierState, Scalar, f_add, f_mul, f_inv, g_add, g_scale, invertible, scalar_product_proof_value,
    processed_round, coords_folded_4ary, cross_sum, coeff_seq, coeffs4,
};
use crate::reduce_and_fold_laws::setup_final_agrees;
use crate::setup::ProverSetup;

verus! {

/// Every element of `G` plus its inverse is the identity.
pub open spec fn inverse_law<G: Group>() -> bool {
    forall|a: G| #[trigger] G::spec_op(a, G::spec_inverse(a)) == G::spec_identity()
}

/// `k·(u·(v + w)) = k·(u·v) + k·(u·w)` for scaling in a module.
proof fn lemma_scale_mul_add<G: Group>(h: G, u: G::Scalar, v: G::Scalar, w: G::Scalar)
    requires
        module_laws::<G>(),
        field_laws::<G::Scalar>(),
    ensures
        g_scale(h, f_mul(u, f_add(v, w))) == g_add(g_scale(h, f_mul(u, v)), g_scale(h, f_mul(u, w))),
{
    lemma_mul_comm(u, f_add(v, w));
    lemma_scale_scale(h, f_add(v, w), u);
    lemma_scale_add(h, v, w);
    lemma_scale_op(g_scale(h, v), g_scale(h, w), u);
    lemma_scale_scale(h, v, u);
    lemma_scale_scale(h, w, u);
    lemma_mul_comm(v, u);
    lemma_mul_comm(w, u);
}

/// The regrouping behind the zero-knowledge check: the right side's nine
/// pairing terms, each with its blinding term, less the sum of the blinding
/// terms, is the left side's nine pairing terms.
proof fn lemma_zk_regroup<G: Group>(
    ii: G, a: G, h1: G, bc: G, dc: G, h2: G, xcc: G, h3: G, gd: G, h4: G, hdc: G, h5: G, cgdi: G, h6: G,
    fdic: G, h7: G,
)
    requires
        module_laws::<G>(),
        inverse_law::<G>(),
    ensures
        G::spec_op(
            G::spec_op(G::spec_op(G::spec_op(G::spec_op(G::spec_op(G::spec_op(G::spec_op(ii, G::spec_op(a, h1)),
                G::spec_op(G::spec_op(bc, dc), h2)), G::spec_op(xcc, h3)), G::spec_op(gd, h4)), G::spec_op(hdc, h5)),
                G::spec_op(cgdi, h6)), G::spec_op(fdic, h7)),
            G::spec_inverse(G::spec_op(G::spec_op(G::spec_op(G::spec_op(h1, h2), h3), G::spec_op(h4, h5)), G::spec_op(h6, h7))),
        ) == G::spec_op(G::spec_op(G::spec_op(G::spec_op(a, bc), cgdi), G::spec_op(G::spec_op(dc, xcc), fdic)),
            G::spec_op(G::spec_op(gd, hdc), ii)),
{
    let s = G::spec_op(G::spec_op(G::spec_op(G::spec_op(h1, h2), h3), G::spec_op(h4, h5)), G::spec_op(h6, h7));
    let l = G::spec_op(G::spec_op(G::spec_op(G::spec_op(a, bc), cgdi), G::spec_op(G::spec_op(dc, xcc), fdic)),
        G::spec_op(G::spec_op(gd, hdc), ii));
    let pre = G::spec_op(G::spec_op(G::spec_op(G::spec_op(G::spec_op(G::spec_op(G::spec_op(ii, G::spec_op(a, h1)),
        G::spec_op(G::spec_op(bc, dc), h2)), G::spec_op(xcc, h3)), G::spec_op(gd, h4)), G::spec_op(hdc, h5)),
        G::spec_op(cgdi, h6)), G::spec_op(fdic, h7));
    // Move each blinding term behind the pairing terms, one round at a time.
    lemma_op_assoc(ii, a, h1);
    let p1 = G::spec_op(ii, a);
    let p2 = G::spec_op(p1, G::spec_op(bc, dc));
    let p3 = G::spec_op(p2, xcc);
    let p4 = G::spec_op(p3, gd);
    let p5 = G::spec_op(p4, hdc);
    let p6 = G::spec_op(p5, cgdi);
    let p7 = G::spec_op(p6, fdic);
    let s2 = G::spec_op(h1, h2);
    let s3 = G::spec_op(s2, h3);
    let s4 = G::spec_op(s3, h4);
    let s5 = G::spec_op(s4, h5);
    let s6 = G::spec_op(s5, h6);
    let s7 = G::spec_op(s6, h7);
    lemma_swap_middle(p1, h1, G::spec_op(bc, dc), h2);
    lemma_swap_middle(p2, s2, xcc, h3);
    lemma_swap_middle(p3, s3, gd, h4);
    lemma_swap_middle(p4, s4, hdc, h5);
    lemma_swap_middle(p5, s5, cgdi, h6);
    lemma_swap_middle(p6, s6, fdic, h7);
    assert(pre == G::spec_op(p7, s7));
    assert(s7 == s) by {
        reveal(module_laws);
    }
    assert(p7 == l) by {
        reveal(module_laws);
    }
    lemma_op_assoc(l, s, G::spec_inverse(s));
    lemma_op_identity(l);
}

/// Law (completeness of the zero-knowledge final check): for folded vectors
/// `[x]`, `[y]` and any blinds `r_c`, `r_d1`, `r_d2`, when the verifier's
/// `C`, `D₁`, `D₂` are `e(x, y)`, `e(x, Γ₂₀)`, `e(Γ₁₀, y)` masked with
/// `r_c·HT`, `r_d1·HT`, `r_d2·HT`, the scalar-product proof the prover makes
/// from them — with any nonces and any challenge `c` — passes the
/// verifier's zero-knowledge check for every invertible `d`: both sides of
/// the check are equal, on any bilinear pairing between modules over a field.
pub proof fn lemma_honest_zk_final_check<E: PairingCurve>(
    v: DoryVerifierState<E>,
    psu: ProverSetup<E>,
    x: E::G1,
    y: E::G2,
    r_c: Scalar<E>,
    r_d1: Scalar<E>,
    r_d2: Scalar<E>,
    sd1: Scalar<E>,
    sd2: Scalar<E>,
    rp1: Scalar<E>,
    rp2: Scalar<E>,
    rq: Scalar<E>,
    rr: Scalar<E>,
    c: Scalar<E>,
    d: Scalar<E>,
)
    where E::G2: Group<Scalar = Scalar<E>>, E::GT: Group<Scalar = Scalar<E>>,
    requires
        module_laws::<E::G1>(),
        module_laws::<E::G2>(),
        module_laws::<E::GT>(),
        inverse_law::<E::GT>(),
        field_laws::<Scalar<E>>(),
        bilinear::<E>(),
        setup_final_agrees(psu, v.spec_setup()),
        psu.ht == v.spec_setup().ht,
        v.spec_acc().0 == g_add(E::spec_pair(x, y), g_scale(psu.ht, r_c)),
        v.spec_acc().1 == g_add(E::spec_pair(x, psu.g2_vec@[0]), g_scale(psu.ht, r_d1)),
        v.spec_acc().2 == g_add(E::spec_pair(psu.g1_vec@[0], y), g_scale(psu.ht, r_d2)),
        invertible(d),
    ensures
        ({
            let sp = scalar_product_proof_value::<E>(x, y, psu, r_c, r_d1, r_d2, sd1, sd2, rp1, rp2, rq, rr, c);
            v.zk_sides(sp, c, d).0 == v.zk_sides(sp, c, d).1
        }),
{
    let sp = scalar_product_proof_value::<E>(x, y, psu, r_c, r_d1, r_d2, sd1, sd2, rp1, rp2, rq, rr, c);
    let g1 = psu.g1_vec@[0];
    let g2 = psu.g2_vec@[0];
    let ht = psu.ht;
    let di = f_inv(d);
    let d1 = g_scale(g1, sd1);
    let d2 = g_scale(g2, sd2);
    // The nine pairings of the check.
    let pa = E::spec_pair(d1, d2);
    let pb = E::spec_pair(d1, y);
    let pcg = E::spec_pair(d1, g2);
    let pd = E::spec_pair(x, d2);
    let px = E::spec_pair(x, y);
    let pf = E::spec_pair(x, g2);
    let pg = E::spec_pair(g1, d2);
    let ph = E::spec_pair(g1, y);
    let pi = E::spec_pair(g1, g2);

    // The left side, expanded.
    let xc = g_scale(x, c);
    let yc = g_scale(y, c);
    let g1d = g_scale(g1, d);
    let g2di = g_scale(g2, di);
    let q = g_add(g_add(d2, yc), g2di);
    lemma_pair_op_left::<E>(g_add(d1, xc), g1d, q);
    lemma_pair_op_left::<E>(d1, xc, q);
    lemma_pair_op_right::<E>(d1, g_add(d2, yc), g2di);
    lemma_pair_op_right::<E>(d1, d2, yc);
    lemma_pair_op_right::<E>(xc, g_add(d2, yc), g2di);
    lemma_pair_op_right::<E>(xc, d2, yc);
    lemma_pair_op_right::<E>(g1d, g_add(d2, yc), g2di);
    lemma_pair_op_right::<E>(g1d, d2, yc);
    lemma_pair_scale_right::<E>(d1, y, c);
    lemma_pair_scale_right::<E>(d1, g2, di);
    lemma_pair_scale_left::<E>(x, d2, c);
    lemma_pair_scale_left::<E>(x, yc, c);
    lemma_pair_scale_right::<E>(x, y, c);
    lemma_scale_scale::<E::GT>(px, c, c);
    lemma_pair_scale_left::<E>(x, g2di, c);
    lemma_pair_scale_right::<E>(x, g2, di);
    lemma_scale_scale::<E::GT>(pf, di, c);
    lemma_pair_scale_left::<E>(g1, d2, d);
    lemma_pair_scale_left::<E>(g1, yc, d);
    lemma_pair_scale_right::<E>(g1, y, c);
    lemma_scale_scale::<E::GT>(ph, c, d);
    lemma_pair_scale_left::<E>(g1, g2di, d);
    lemma_pair_scale_right::<E>(g1, g2, di);
    lemma_scale_scale::<E::GT>(pi, di, d);
    lemma_mul_inv::<Scalar<E>>(d, d);
    lemma_scale_one::<E::GT>(pi);
    lemma_mul_comm(c, d);
    let lhs = v.zk_sides(sp, c, d).0;
    assert(lhs == g_add(g_add(g_add(g_add(pa, g_scale(pb, c)), g_scale(pcg, di)),
        g_add(g_add(g_scale(pd, c), g_scale(px, f_mul(c, c))), g_scale(pf, f_mul(di, c)))),
        g_add(g_add(g_scale(pg, d), g_scale(ph, f_mul(d, c))), pi)));

    // The right side: each scaled message splits into its pairing term and
    // its blinding term.
    let h1 = g_scale(ht, rr);
    lemma_scale_op::<E::GT>(g_add(pb, pd), g_scale(ht, rq), c);
    lemma_scale_op::<E::GT>(pb, pd, c);
    lemma_scale_scale::<E::GT>(ht, rq, c);
    let h2 = g_scale(ht, f_mul(rq, c));
    lemma_scale_op::<E::GT>(px, g_scale(ht, r_c), f_mul(c, c));
    lemma_scale_scale::<E::GT>(ht, r_c, f_mul(c, c));
    let h3 = g_scale(ht, f_mul(r_c, f_mul(c, c)));
    lemma_scale_op::<E::GT>(pg, g_scale(ht, rp2), d);
    lemma_scale_scale::<E::GT>(ht, rp2, d);
    let h4 = g_scale(ht, f_mul(rp2, d));
    lemma_scale_op::<E::GT>(ph, g_scale(ht, r_d2), f_mul(d, c));
    lemma_scale_scale::<E::GT>(ht, r_d2, f_mul(d, c));
    let h5 = g_scale(ht, f_mul(r_d2, f_mul(d, c)));
    lemma_scale_op::<E::GT>(pcg, g_scale(ht, rp1), di);
    lemma_scale_scale::<E::GT>(ht, rp1, di);
    let h6 = g_scale(ht, f_mul(rp1, di));
    lemma_scale_op::<E::GT>(pf, g_scale(ht, r_d1), f_mul(di, c));
    lemma_scale_scale::<E::GT>(ht, r_d1, f_mul(di, c));
    let h7 = g_scale(ht, f_mul(r_d1, f_mul(di, c)));

    // The blinding scalar of the check, split into the same seven terms.
    let r1 = f_add(rp1, f_mul(c, r_d1));
    let r2 = f_add(rp2, f_mul(c, r_d2));
    let r3 = f_add(f_add(rr, f_mul(c, rq)), f_mul(f_mul(c, c), r_c));
    lemma_scale_add::<E::GT>(ht, f_add(r3, f_mul(d, r2)), f_mul(di, r1));
    lemma_scale_add::<E::GT>(ht, r3, f_mul(d, r2));
    lemma_scale_add::<E::GT>(ht, f_add(rr, f_mul(c, rq)), f_mul(f_mul(c, c), r_c));
    lemma_scale_add::<E::GT>(ht, rr, f_mul(c, rq));
    lemma_scale_mul_add::<E::GT>(ht, d, rp2, f_mul(c, r_d2));
    lemma_scale_mul_add::<E::GT>(ht, di, rp1, f_mul(c, r_d1));
    lemma_mul_comm(c, rq);
    lemma_mul_comm(f_mul(c, c), r_c);
    lemma_mul_comm(d, rp2);
    lemma_mul_comm(di, rp1);
    lemma_mul_assoc(d, c, r_d2);
    lemma_mul_comm(f_mul(d, c), r_d2);
    lemma_mul_assoc(di, c, r_d1);
    lemma_mul_comm(f_mul(di, c), r_d1);
    let s = f_add(f_add(r3, f_mul(d, r2)), f_mul(di, r1));
    assert(g_scale(ht, s) == g_add(g_add(g_add(g_add(h1, h2), h3), g_add(h4, h5)), g_add(h6, h7)));

    lemma_zk_regroup::<E::GT>(pi, pa, h1, g_scale(pb, c), g_scale(pd, c), h2, g_scale(px, f_mul(c, c)), h3,
        g_scale(pg, d), h4, g_scale(ph, f_mul(d, c)), h5, g_scale(pcg, di), h6, g_scale(pf, f_mul(di, c)), h7);
}

/// `t₀…t₃` with `l₀`, `r₀`, `l₁` and `r₁` added in, regrouped by quarter.
proof fn lemma_regroup_d<G: Group>(t0: G, t1: G, t2: G, t3: G, l0: G, r0: G, l1: G, r1: G)
    requires
        module_laws::<G>(),
    ensures
        G::spec_op(G::spec_op(G::spec_op(G::spec_op(G::spec_op(G::spec_op(G::spec_op(t0, t1), t2), t3), l0), r0), l1), r1)
            == G::spec_op(G::spec_op(G::spec_op(G::spec_op(G::spec_op(t0, l0), G::spec_op(t1, r0)), G::spec_op(t2, l1)), t3), r1),
{
    reveal(module_laws);
}

/// `x + a + b + c + d`, summed left to right, is `x` plus the sum of the four.
proof fn lemma_chain4<G: Group>(x: G, a: G, b: G, c: G, d: G)
    requires
        module_laws::<G>(),
    ensures
        G::spec_op(G::spec_op(G::spec_op(G::spec_op(x, a), b), c), d)
            == G::spec_op(x, G::spec_op(G::spec_op(G::spec_op(a, b), c), d)),
{
    reveal(module_laws);
}

/// The `C` terms of a four-way round, regrouped by quarter.
proof fn lemma_regroup_c<G: Group>(
    b: G, t0: G, t1: G, t2: G, t3: G, u0: G, u1: G, u2: G, u3: G, k0: G, k1: G, k2: G, k3: G,
)
    requires
        module_laws::<G>(),
    ensures
        G::spec_op(G::spec_op(G::spec_op(G::spec_op(G::spec_op(G::spec_op(G::spec_op(G::spec_op(G::spec_op(G::spec_op(
            G::spec_op(G::spec_op(b, t0), t1), t2), t3), u0), u1), u2), u3), k0), k1), k2), k3)
            == G::spec_op(G::spec_op(b,
                G::spec_op(G::spec_op(G::spec_op(G::spec_op(t0, k0), G::spec_op(t1, k1)), G::spec_op(t2, k2)), G::spec_op(t3, k3))),
                G::spec_op(G::spec_op(G::spec_op(u0, u1), u2), u3)),
{
    let t = G::spec_op(G::spec_op(G::spec_op(t0, t1), t2), t3);
    let u = G::spec_op(G::spec_op(G::spec_op(u0, u1), u2), u3);
    let k = G::spec_op(G::spec_op(G::spec_op(k0, k1), k2), k3);
    lemma_chain4(b, t0, t1, t2, t3);
    lemma_chain4(G::spec_op(b, t), u0, u1, u2, u3);
    lemma_chain4(G::spec_op(G::spec_op(b, t), u), k0, k1, k2, k3);
    assert(G::spec_op(G::spec_op(G::spec_op(G::spec_op(t0, k0), G::spec_op(t1, k1)), G::spec_op(t2, k2)), G::spec_op(t3, k3))
        == G::spec_op(t, k)) by {
        reveal(module_laws);
    }
    assert(G::spec_op(G::spec_op(G::spec_op(b, t), u), k) == G::spec_op(G::spec_op(b, G::spec_op(t, k)), u)) by {
        reveal(module_laws);
    }
}

/// Law (a four-way round folds the commitments as polynomials in its
/// challenge): with the folding weights `α³, α², α, 1 − α³ − α² − α` of `α`
/// and `α⁻³, α⁻², α⁻¹, 1 − α⁻³ − α⁻² − α⁻¹` of `α⁻¹`, where the round
/// consumes rounds `k` and `k − 1`,
/// `D₁' = α³·(D₁₀ + Δ₁L[k]) + α²·(D₁₁ + Δ₁R[k]) + α·(D₁₂ + Δ₁L[k−1]) + w₃·D₁₃ + Δ₁R[k−1]`,
/// `D₂'` likewise with `α⁻¹` and the `Δ₂` values, and `C'` is
/// `C + χ[k] + χ[k−1]` plus, for each quarter `i`, the weight of `α` times
/// `D₁ᵢ + Cᵢᵢ` and the weight of `α⁻¹` times `D₂ᵢ`.
pub proof fn lemma_four_way_round_polynomials<E: PairingCurve>(
    v: DoryVerifierState<E>,
    m: FirstReduceMessage4<E::G1, E::G2, E::GT>,
    alpha: Scalar<E>,
)
    where E::G2: Group<Scalar = Scalar<E>>, E::GT: Group<Scalar = Scalar<E>>,
    requires
        module_laws::<E::GT>(),
    ensures
        ({
            let k0 = v.spec_num_rounds() as int;
            let k1 = k0 - 1;
            let su = v.spec_setup();
            let one = Scalar::<E>::spec_one();
            let a2 = f_mul(alpha, alpha);
            let a3 = f_mul(a2, alpha);
            let w = Scalar::<E>::spec_sub(Scalar::<E>::spec_sub(Scalar::<E>::spec_sub(one, a3), a2), alpha);
            let ai = f_inv(alpha);
            let b2 = f_mul(ai, ai);
            let b3 = f_mul(b2, ai);
            let wi = Scalar::<E>::spec_sub(Scalar::<E>::spec_sub(Scalar::<E>::spec_sub(one, b3), b2), ai);
            let (new_c, new_d1, new_d2) = v.round_update_4ary_d(m, alpha);
            &&& new_d1 == g_add(g_add(g_add(g_add(
                g_scale(g_add(m.d1@[0], su.delta_1l@[k0]), a3),
                g_scale(g_add(m.d1@[1], su.delta_1r@[k0]), a2)),
                g_scale(g_add(m.d1@[2], su.delta_1l@[k1]), alpha)),
                g_scale(m.d1@[3], w)),
                su.delta_1r@[k1])
            &&& new_d2 == g_add(g_add(g_add(g_add(
                g_scale(g_add(m.d2@[0], su.delta_2l@[k0]), b3),
                g_scale(g_add(m.d2@[1], su.delta_2r@[k0]), b2)),
                g_scale(g_add(m.d2@[2], su.delta_2l@[k1]), ai)),
                g_scale(m.d2@[3], wi)),
                su.delta_2r@[k1])
            &&& new_c == g_add(g_add(g_add(g_add(v.spec_acc().0, su.chi@[k0]), su.chi@[k1]),
                g_add(g_add(g_add(
                    g_scale(g_add(m.d1@[0], m.c_raw@[0]), a3),
                    g_scale(g_add(m.d1@[1], m.c_raw@[5]), a2)),
                    g_scale(g_add(m.d1@[2], m.c_raw@[10]), alpha)),
                    g_scale(g_add(m.d1@[3], m.c_raw@[15]), w))),
                g_add(g_add(g_add(g_scale(m.d2@[0], b3), g_scale(m.d2@[1], b2)), g_scale(m.d2@[2], ai)), g_scale(m.d2@[3], wi)))
        }),
{
    let k0 = v.spec_num_rounds() as int;
    let k1 = k0 - 1;
    let su = v.spec_setup();
    let c = crate::reduce_and_fold::coeffs4(alpha);
    let ci = crate::reduce_and_fold::coeffs4(f_inv(alpha));
    lemma_scale_op::<E::GT>(m.d1@[0], su.delta_1l@[k0], c.0);
    lemma_scale_op::<E::GT>(m.d1@[1], su.delta_1r@[k0], c.1);
    lemma_scale_op::<E::GT>(m.d1@[2], su.delta_1l@[k1], c.2);
    lemma_scale_one::<E::GT>(su.delta_1r@[k1]);
    lemma_regroup_d::<E::GT>(g_scale(m.d1@[0], c.0), g_scale(m.d1@[1], c.1), g_scale(m.d1@[2], c.2), g_scale(m.d1@[3], c.3),
        g_scale(su.delta_1l@[k0], c.0), g_scale(su.delta_1r@[k0], c.1), g_scale(su.delta_1l@[k1], alpha), su.delta_1r@[k1]);
    lemma_scale_op::<E::GT>(m.d2@[0], su.delta_2l@[k0], ci.0);
    lemma_scale_op::<E::GT>(m.d2@[1], su.delta_2r@[k0], ci.1);
    lemma_scale_op::<E::GT>(m.d2@[2], su.delta_2l@[k1], ci.2);
    lemma_scale_one::<E::GT>(su.delta_2r@[k1]);
    lemma_regroup_d::<E::GT>(g_scale(m.d2@[0], ci.0), g_scale(m.d2@[1], ci.1), g_scale(m.d2@[2], ci.2), g_scale(m.d2@[3], ci.3),
        g_scale(su.delta_2l@[k0], ci.0), g_scale(su.delta_2r@[k0], ci.1), g_scale(su.delta_2l@[k1], ci.2), su.delta_2r@[k1]);
    lemma_scale_op::<E::GT>(m.d1@[0], m.c_raw@[0], c.0);
    lemma_scale_op::<E::GT>(m.d1@[1], m.c_raw@[5], c.1);
    lemma_scale_op::<E::GT>(m.d1@[2], m.c_raw@[10], c.2);
    lemma_scale_op::<E::GT>(m.d1@[3], m.c_raw@[15], c.3);
    lemma_regroup_c::<E::GT>(g_add(g_add(v.spec_acc().0, su.chi@[k0]), su.chi@[k1]),
        g_scale(m.d1@[0], c.0), g_scale(m.d1@[1], c.1), g_scale(m.d1@[2], c.2), g_scale(m.d1@[3], c.3),
        g_scale(m.d2@[0], ci.0), g_scale(m.d2@[1], ci.1), g_scale(m.d2@[2], ci.2), g_scale(m.d2@[3], ci.3),
        g_scale(m.c_raw@[0], c.0), g_scale(m.c_raw@[5], c.1), g_scale(m.c_raw@[10], c.2), g_scale(m.c_raw@[15], c.3));
}

/// Law: a four-way round folds the evaluation coordinates as two binary
/// rounds with the same challenge do: from the same verifier state, the
/// four-way round with `α` and two `process_round` steps with `α` (and any
/// messages and `β`s) leave the same folded coordinates `(s₁, s₂)` and the
/// same number of rounds.
pub proof fn lemma_four_way_coords_as_two_rounds<E: PairingCurve>(
    st: DoryVerifierState<E>,
    four: DoryVerifierState<E>,
    mid: DoryVerifierState<E>,
    two: DoryVerifierState<E>,
    m1: FirstReduceMessage<E::G1, E::G2, E::GT>,
    m2: SecondReduceMessage<E::G1, E::G2, E::GT>,
    n1: FirstReduceMessage<E::G1, E::G2, E::GT>,
    n2: SecondReduceMessage<E::G1, E::G2, E::GT>,
    alpha: Scalar<E>,
    beta1: Scalar<E>,
    beta2: Scalar<E>,
)
    where E::G2: Group<Scalar = Scalar<E>>, E::GT: Group<Scalar = Scalar<E>>,
    requires
        coords_folded_4ary::<E>(st, four, alpha),
        processed_round::<E>(st, mid, m1, m2, alpha, beta1),
        processed_round::<E>(mid, two, n1, n2, alpha, beta2),
    ensures
        four.spec_s_acc() == two.spec_s_acc(),
        four.spec_num_rounds() == two.spec_num_rounds(),
{
}

/// Law: the cross terms of a four-way round enter `E₁` and `E₂` as a
/// polynomial in `α` whose coefficients are polynomials in `α⁻¹`: with the
/// weights `α³, α², α, 1 − α³ − α² − α` of `α` and those of `α⁻¹`, the
/// update adds to `start`, for each row `i` of the 4×4 cross terms, the
/// `i`-th weight of `α` times the row combined with the weights of `α⁻¹`.
pub proof fn lemma_four_way_cross_terms<G: Group>(start: G, cross: Seq<G>, alpha: G::Scalar)
    requires
        module_laws::<G>(),
        field_laws::<G::Scalar>(),
        cross.len() >= 16,
    ensures
        ({
            let one = <G::Scalar as Field>::spec_one();
            let a2 = f_mul(alpha, alpha);
            let a3 = f_mul(a2, alpha);
            let w = <G::Scalar as Field>::spec_sub(<G::Scalar as Field>::spec_sub(<G::Scalar as Field>::spec_sub(one, a3), a2), alpha);
            let ai = f_inv(alpha);
            let b2 = f_mul(ai, ai);
            let b3 = f_mul(b2, ai);
            let wi = <G::Scalar as Field>::spec_sub(<G::Scalar as Field>::spec_sub(<G::Scalar as Field>::spec_sub(one, b3), b2), ai);
            let row = |i: int| g_add(g_add(g_add(g_scale(cross[4 * i], b3), g_scale(cross[4 * i + 1], b2)),
                g_scale(cross[4 * i + 2], ai)), g_scale(cross[4 * i + 3], wi));
            cross_sum(start, cross, coeff_seq(coeffs4(alpha)), coeff_seq(coeffs4(f_inv(alpha))), 16)
                == g_add(g_add(g_add(g_add(start, g_scale(row(0), a3)), g_scale(row(1), a2)), g_scale(row(2), alpha)), g_scale(row(3), w))
        }),
{
    let c = coeff_seq(coeffs4(alpha));
    let ci = coeff_seq(coeffs4(f_inv(alpha)));
    let t = |k: int| g_scale(cross[k], f_mul(c[k / 4], ci[k % 4]));
    reveal_with_fuel(cross_sum, 17);
    assert(cross_sum(start, cross, c, ci, 16)
        == g_add(g_add(g_add(g_add(g_add(g_add(g_add(g_add(g_add(g_add(g_add(g_add(g_add(g_add(g_add(g_add(start,
            t(0)), t(1)), t(2)), t(3)), t(4)), t(5)), t(6)), t(7)), t(8)), t(9)), t(10)), t(11)), t(12)), t(13)), t(14)), t(15)));
    assert forall|k: int| 0 <= k < 16 implies #[trigger] t(k) == g_scale(g_scale(cross[k], ci[k % 4]), c[k / 4]) by {
        lemma_scale_scale(cross[k], ci[k % 4], c[k / 4]);
        lemma_mul_comm(ci[k % 4], c[k / 4]);
    }
    assert forall|r: int| 0 <= r < 4 implies g_scale(g_add(g_add(g_add(g_scale(cross[4 * r], ci[0]), g_scale(cross[4 * r + 1], ci[1])),
        g_scale(cross[4 * r + 2], ci[2])), g_scale(cross[4 * r + 3], ci[3])), #[trigger] c[r])
        == g_add(g_add(g_add(t(4 * r), t(4 * r + 1)), t(4 * r + 2)), t(4 * r + 3)) by {
        let x0 = g_scale(cross[4 * r], ci[0]);
        let x1 = g_scale(cross[4 * r + 1], ci[1]);
        let x2 = g_scale(cross[4 * r + 2], ci[2]);
        let x3 = g_scale(cross[4 * r + 3], ci[3]);
        lemma_scale_op(g_add(g_add(x0, x1), x2), x3, c[r]);
        lemma_scale_op(g_add(x0, x1), x2, c[r]);
        lemma_scale_op(x0, x1, c[r]);
        assert((4 * r) / 4 == r && (4 * r) % 4 == 0);
        assert((4 * r + 1) / 4 == r && (4 * r + 1) % 4 == 1);
        assert((4 * r + 2) / 4 == r && (4 * r + 2) % 4 == 2);
        assert((4 * r + 3) / 4 == r && (4 * r + 3) % 4 == 3);
        assert(t(4 * r) == g_scale(x0, c[r]));
        assert(t(4 * r + 1) == g_scale(x1, c[r]));
        assert(t(4 * r + 2) == g_scale(x2, c[r]));
        assert(t(4 * r + 3) == g_scale(x3, c[r]));
    }
    lemma_chain4(start, t(0), t(1), t(2), t(3));
    let s1 = g_add(start, g_add(g_add(g_add(t(0), t(1)), t(2)), t(3)));
    lemma_chain4(s1, t(4), t(5), t(6), t(7));
    let s2 = g_add(s1, g_add(g_add(g_add(t(4), t(5)), t(6)), t(7)));
    lemma_chain4(s2, t(8), t(9), t(10), t(11));
    let s3 = g_add(s2, g_add(g_add(g_add(t(8), t(9)), t(10)), t(11)));
    lemma_chain4(s3, t(12), t(13), t(14), t(15));
    assert(4 * 0 == 0int && 4 * 1 == 4int && 4 * 2 == 8int && 4 * 3 == 12int);
}

} // verus!
