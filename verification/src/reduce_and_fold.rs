//! The opening protocol over a pairing: the prover folds its vectors of
//! group elements and scalars in half each round, the verifier folds its
//! accumulated commitments with the same challenges.
use vstd::prelude::*;
use vstd::arithmetic::power2::{pow2, lemma_pow2_unfold};
use crate::arithmetic::{DoryRoutines, Field, Group, PairingCurve, pair_product, msm_sum, field_combination4, group_combination4};
use crate::mode::{Mode, Transparent, masked};
use crate::setup::{ProverSetup, VerifierSetup, copy_vec};
use crate::error::DoryError;
use crate::transcript::{Transcript, TranscriptEntry, TranscriptLog};
use vstd::std_specs::cmp::PartialEqSpec;
use vstd::std_specs::bits::u64_trailing_zeros;
use crate::messages::{FirstReduceMessage, FirstReduceMessage4, SecondReduceMessage, ScalarProductMessage, ScalarProductProof};
use crate::reduce_and_fold_lattice::{is_power_of_two, lemma_trailing_zeros_pow2};
use vstd::slice::{slice_subrange, slice_to_vec};
use std::marker::PhantomData;
use crate::fp128::{Fp128Element, q, fadd, fsub, fmul, add_word, sub_word};
use crate::fp128_laws::lemma_results_canonical;
use vstd::arithmetic::div_mod::{lemma_small_mod, lemma_add_mod_noop, lemma_sub_mod_noop, lemma_mod_twice, lemma_mod_self_0};

verus! {

/// The scalar field of the curve `E`.
pub type Scalar<E> = <<E as PairingCurve>::G1 as Group>::Scalar;

/// `Σ e(ps[i], qs[i])` over the entries of `ps`.
pub open spec fn pairing_sum<E: PairingCurve>(ps: Seq<E::G1>, qs: Seq<E::G2>) -> E::GT {
    pair_product(|p: E::G1, q: E::G2| E::spec_pair(p, q), ps, qs, ps.len())
}

/// `Σ scalars[i]·bases[i]` over the entries of `bases`.
pub open spec fn msm_of<G: Group>(bases: Seq<G>, scalars: Seq<G::Scalar>) -> G {
    msm_sum(bases, scalars, bases.len())
}

/// `a + b` in the field `F`.
pub open spec fn f_add<F: Field>(a: F, b: F) -> F {
    F::spec_add(a, b)
}

/// `a * b` in the field `F`.
pub open spec fn f_mul<F: Field>(a: F, b: F) -> F {
    F::spec_mul(a, b)
}

/// The inverse of `x`, which the caller knows to exist.
pub open spec fn f_inv<F: Field>(x: F) -> F {
    F::spec_inv(x).unwrap()
}

/// `x` has an inverse.
pub open spec fn invertible<F: Field>(x: F) -> bool {
    F::spec_inv(x) is Some
}

/// The first `n` entries of `s`.
pub open spec fn prefix<T>(s: Seq<T>, n: int) -> Seq<T> {
    s.subrange(0, n)
}

/// The entries of `s` from `n` on.
pub open spec fn suffix<T>(s: Seq<T>, n: int) -> Seq<T> {
    s.subrange(n, s.len() as int)
}

/// `D₂` of the entries `lo..hi` of `v2` against the generators `g1p`: the
/// pairing product, or, when the scalars behind `v2` are kept, the pairing of
/// their multi-scalar multiplication with the first G2 generator.
pub open spec fn d2_base<E: PairingCurve>(
    v2: Seq<E::G2>,
    v2_scalars: Option<Seq<Scalar<E>>>,
    g1p: Seq<E::G1>,
    g2_0: E::G2,
    lo: int,
    hi: int,
) -> E::GT {
    match v2_scalars {
        Some(sc) => E::spec_pair(msm_of(g1p, sc.subrange(lo, hi)), g2_0),
        None => pairing_sum::<E>(g1p, v2.subrange(lo, hi)),
    }
}

/// `v[i] + k·g[i]` for each entry of `v`.
pub open spec fn shift_by<G: Group>(v: Seq<G>, g: Seq<G>, k: G::Scalar) -> Seq<G> {
    Seq::new(v.len(), |i: int| G::spec_op(v[i], G::spec_scale(g[i], k)))
}

/// `k·v[i] + v[i + h]` for each `i < h`, where `h` is half the length of `v`.
pub open spec fn fold_group<G: Group>(v: Seq<G>, k: G::Scalar) -> Seq<G> {
    Seq::new(v.len() / 2, |i: int| G::spec_op(G::spec_scale(v[i], k), v[i + v.len() / 2]))
}

/// `s[i]·k + s[i + h]` for each `i < h`, where `h` is half the length of `s`.
pub open spec fn fold_field<F: Field>(s: Seq<F>, k: F) -> Seq<F> {
    Seq::new(s.len() / 2, |i: int| F::spec_add(F::spec_mul(s[i], k), s[i + s.len() / 2]))
}

/// Entries `i·q .. (i+1)·q` of `s`: its `i`-th quarter when `s` has `4q` entries.
pub open spec fn quarter<T>(s: Seq<T>, i: int, q: int) -> Seq<T> {
    s.subrange(i * q, (i + 1) * q)
}

/// Bounds of the `i`-th of four quarters of length `q`.
pub proof fn lemma_quarter_bounds(i: int, q: int)
    requires
        0 <= i < 4,
        q >= 0,
    ensures
        0 <= i * q,
        i * q + q == (i + 1) * q,
        (i + 1) * q <= 4 * q,
{
    assert(0 <= i * q) by (nonlinear_arith)
        requires
            0 <= i,
            q >= 0,
    ;
    assert(i * q + q == (i + 1) * q) by (nonlinear_arith);
    assert((i + 1) * q <= 4 * q) by (nonlinear_arith)
        requires
            i < 4,
            q >= 0,
    ;
}

/// `k = 4i + j` splits into `i = k / 4` and `j = k % 4`.
pub proof fn lemma_index4(i: int, j: int)
    requires
        0 <= i < 4,
        0 <= j < 4,
    ensures
        (4 * i + j) / 4 == i,
        (4 * i + j) % 4 == j,
        0 <= 4 * i + j < 16,
{
    assert((4 * i + j) / 4 == i && (4 * i + j) % 4 == j) by (nonlinear_arith)
        requires
            0 <= i < 4,
            0 <= j < 4,
    ;
}

/// The four folding coefficients of a challenge `a`: `(a³, a², a, 1 - a³ - a² - a)`,
/// which sum to one.
pub open spec fn coeffs4<F: Field>(a: F) -> (F, F, F, F) {
    let sq = f_mul(a, a);
    let cu = f_mul(sq, a);
    (cu, sq, a, F::spec_sub(F::spec_sub(F::spec_sub(F::spec_one(), cu), sq), a))
}

/// `c0·q0[i] + c1·q1[i] + c2·q2[i] + c3·q3[i]` for the quarters `q0..q3` of `v`.
pub open spec fn fold4_group<G: Group>(v: Seq<G>, c: (G::Scalar, G::Scalar, G::Scalar, G::Scalar)) -> Seq<G> {
    let q = v.len() / 4;
    Seq::new(q, |i: int| group_combination4::<G>(c, v[i], v[i + q], v[i + 2 * q], v[i + 3 * q]))
}

/// `c0·q0[i] + c1·q1[i] + c2·q2[i] + c3·q3[i]` for the quarters `q0..q3` of `s`.
pub open spec fn fold4_field<F: Field>(s: Seq<F>, c: (F, F, F, F)) -> Seq<F> {
    let q = s.len() / 4;
    Seq::new(q, |i: int| field_combination4::<F>(c, s[i], s[i + q], s[i + 2 * q], s[i + 3 * q]))
}

/// `b[0]·c0 + b[1]·c1 + b[2]·c2 + b[3]·c3`, summed left to right.
pub open spec fn lin4<F: Field>(b: Seq<F>, c: (F, F, F, F)) -> F {
    f_add(f_add(f_add(f_mul(b[0], c.0), f_mul(b[1], c.1)), f_mul(b[2], c.2)), f_mul(b[3], c.3))
}

/// `acc + b[0]·c0 + b[1]·c1 + b[2]·c2 + b[3]·c3 + b[4]·x + b[5]·y`, summed left to right.
pub open spec fn acc6<F: Field>(acc: F, b: Seq<F>, c: (F, F, F, F), x: F, y: F) -> F {
    f_add(f_add(f_add(f_add(f_add(f_add(acc, f_mul(b[0], c.0)), f_mul(b[1], c.1)), f_mul(b[2], c.2)), f_mul(b[3], c.3)), f_mul(b[4], x)), f_mul(b[5], y))
}

/// `a + b` in the group `G`.
pub open spec fn g_add<G: Group>(a: G, b: G) -> G {
    G::spec_op(a, b)
}

/// `k·a` in the group `G`.
pub open spec fn g_scale<G: Group>(a: G, k: G::Scalar) -> G {
    G::spec_scale(a, k)
}

/// `α·(1 − y) + y`: the factor a folded coordinate contributes.
pub open spec fn coord_factor<F: Field>(alpha: F, y: F) -> F {
    f_add(f_mul(alpha, F::spec_sub(F::spec_one(), y)), y)
}

/// `acc + Σ_{k' < k} cross[k']·(c[k' / 4]·ci[k' % 4])`, summed in order of `k'`.
pub open spec fn cross_sum<G: Group>(acc: G, cross: Seq<G>, c: Seq<G::Scalar>, ci: Seq<G::Scalar>, k: nat) -> G
    decreases k,
{
    if k == 0 {
        acc
    } else {
        let j = k - 1;
        g_add(cross_sum(acc, cross, c, ci, j as nat), g_scale(cross[j], f_mul(c[j / 4], ci[j % 4])))
    }
}

/// The four coefficients as a sequence.
pub open spec fn coeff_seq<F>(c: (F, F, F, F)) -> Seq<F> {
    seq![c.0, c.1, c.2, c.3]
}

/// Every entry of `a` is `x`.
pub open spec fn filled<T, const N: usize>(a: [T; N], x: T) -> bool {
    forall|i: int| 0 <= i < N ==> #[trigger] a@[i] == x
}

/// Every blind of a binary round is `x`.
pub open spec fn round_blinds_filled<F>(b: ([F; 2], [F; 2], [F; 2], [F; 2], [F; 2]), x: F) -> bool {
    filled(b.0, x) && filled(b.1, x) && filled(b.2, x) && filled(b.3, x) && filled(b.4, x)
}

/// Every blind of a four-way round is `x`.
pub open spec fn round_blinds_4ary_filled<F>(b: ([F; 4], [F; 4], [F; 16], [F; 16], [F; 16]), x: F) -> bool {
    filled(b.0, x) && filled(b.1, x) && filled(b.2, x) && filled(b.3, x) && filled(b.4, x)
}

/// The folding coefficients of `a`, computed as `coeffs4` states them.
pub fn fold_coefficients<F: Field>(a: &F) -> (c: (F, F, F, F))
    ensures
        c == coeffs4(*a),
{
    let sq = a.mul(a);
    let cu = sq.mul(a);
    let last = F::one().sub(&cu).sub(&sq).sub(a);
    (cu, sq, *a, last)
}

/// The verifier's accumulators `acc = (C, D₁, D₂, E₁, E₂)` after round `k`
/// with messages `m1`, `m2` and challenges `α`, `β` (both invertible):
/// `C + χₖ + β·D₂ + β⁻¹·D₁ + α·C₊ + α⁻¹·C₋`,
/// `α·D₁L + D₁R + αβ·Δ₁Lₖ + β·Δ₁Rₖ`, `α⁻¹·D₂L + D₂R + α⁻¹β⁻¹·Δ₂Lₖ + β⁻¹·Δ₂Rₖ`,
/// `E₁ + β·E₁β + α·E₁₊ + α⁻¹·E₁₋` and `E₂ + β⁻¹·E₂β + α·E₂₊ + α⁻¹·E₂₋`.
pub open spec fn verifier_round_update<E: PairingCurve>(
    acc: (E::GT, E::GT, E::GT, E::G1, E::G2),
    su: VerifierSetup<E>,
    k: int,
    m1: FirstReduceMessage<E::G1, E::G2, E::GT>,
    m2: SecondReduceMessage<E::G1, E::G2, E::GT>,
    alpha: Scalar<E>,
    beta: Scalar<E>,
) -> (E::GT, E::GT, E::GT, E::G1, E::G2)
    where E::G2: Group<Scalar = Scalar<E>>, E::GT: Group<Scalar = Scalar<E>>,
{
    let (c, d1, d2, e1, e2) = acc;
    let ai = f_inv(alpha);
    let bi = f_inv(beta);
    (
        g_add(g_add(g_add(g_add(g_add(c, su.chi@[k]), g_scale(d2, beta)), g_scale(d1, bi)), g_scale(m2.c_plus, alpha)), g_scale(m2.c_minus, ai)),
        g_add(g_add(g_add(g_scale(m1.d1_left, alpha), m1.d1_right), g_scale(su.delta_1l@[k], f_mul(alpha, beta))), g_scale(su.delta_1r@[k], beta)),
        g_add(g_add(g_add(g_scale(m1.d2_left, ai), m1.d2_right), g_scale(su.delta_2l@[k], f_mul(ai, bi))), g_scale(su.delta_2r@[k], bi)),
        g_add(g_add(g_add(e1, g_scale(m1.e1_beta, beta)), g_scale(m2.e1_plus, alpha)), g_scale(m2.e1_minus, ai)),
        g_add(g_add(g_add(e2, g_scale(m1.e2_beta, bi)), g_scale(m2.e2_plus, alpha)), g_scale(m2.e2_minus, ai)),
    )
}

/// The first message of a round over vectors `v1`, `v2`, `s1`, `s2` of
/// length `n`, halves split at `h = n / 2`, masked (when `mask`) with the
/// blinds `rd1`, `rd2`.
pub open spec fn first_message_value<E: PairingCurve>(
    mask: bool,
    v1: Seq<E::G1>,
    v2: Seq<E::G2>,
    v2_scalars: Option<Seq<Scalar<E>>>,
    s1: Seq<Scalar<E>>,
    s2: Seq<Scalar<E>>,
    su: ProverSetup<E>,
    rd1: [Scalar<E>; 2],
    rd2: [Scalar<E>; 2],
) -> FirstReduceMessage<E::G1, E::G2, E::GT>
    where E::G2: Group<Scalar = Scalar<E>>, E::GT: Group<Scalar = Scalar<E>>,
{
    let n = v1.len() as int;
    let h = n / 2;
    let g1p = prefix(su.g1_vec@, h);
    let g2p = prefix(su.g2_vec@, h);
    FirstReduceMessage {
        d1_left: masked(mask, pairing_sum::<E>(prefix(v1, h), g2p), su.ht, rd1@[0]),
        d1_right: masked(mask, pairing_sum::<E>(suffix(v1, h), g2p), su.ht, rd1@[1]),
        d2_left: masked(mask, d2_base::<E>(v2, v2_scalars, g1p, su.g2_vec@[0], 0, h), su.ht, rd2@[0]),
        d2_right: masked(mask, d2_base::<E>(v2, v2_scalars, g1p, su.g2_vec@[0], h, n), su.ht, rd2@[1]),
        e1_beta: msm_of(prefix(su.g1_vec@, n), s2),
        e2_beta: msm_of(prefix(su.g2_vec@, n), s1),
    }
}

/// The second message of a round over vectors `v1`, `v2`, `s1`, `s2`,
/// halves split at half their length, masked (when `mask`) with the blinds
/// `rc`, `re1`, `re2`.
pub open spec fn second_message_value<E: PairingCurve>(
    mask: bool,
    v1: Seq<E::G1>,
    v2: Seq<E::G2>,
    s1: Seq<Scalar<E>>,
    s2: Seq<Scalar<E>>,
    su: ProverSetup<E>,
    rc: [Scalar<E>; 2],
    re1: [Scalar<E>; 2],
    re2: [Scalar<E>; 2],
) -> SecondReduceMessage<E::G1, E::G2, E::GT>
    where E::G2: Group<Scalar = Scalar<E>>, E::GT: Group<Scalar = Scalar<E>>,
{
    let h = v1.len() as int / 2;
    SecondReduceMessage {
        c_plus: masked(mask, pairing_sum::<E>(prefix(v1, h), suffix(v2, h)), su.ht, rc@[0]),
        c_minus: masked(mask, pairing_sum::<E>(suffix(v1, h), prefix(v2, h)), su.ht, rc@[1]),
        e1_plus: masked(mask, msm_of(prefix(v1, h), suffix(s2, h)), su.h1, re1@[0]),
        e1_minus: masked(mask, msm_of(suffix(v1, h), prefix(s2, h)), su.h1, re1@[1]),
        e2_plus: masked(mask, msm_of(suffix(v2, h), prefix(s1, h)), su.h2, re2@[0]),
        e2_minus: masked(mask, msm_of(prefix(v2, h), suffix(s1, h)), su.h2, re2@[1]),
    }
}

/// Both sides of the transparent final check, for the accumulators `acc`,
/// the initial `(E₁, D₂)`, the folded coordinates `(s₁, s₂)`, the final
/// message `msg` and challenges `γ`, `d` (both invertible): four pairings on
/// the left — the scalar product, the two `E` accumulators and the deferred
/// check of the initial `E₁` — and the accumulated target on the right.
pub open spec fn final_check_sides<E: PairingCurve>(
    acc: (E::GT, E::GT, E::GT, E::G1, E::G2),
    init: (E::G1, E::GT),
    s_acc: (Scalar<E>, Scalar<E>),
    su: VerifierSetup<E>,
    msg: ScalarProductMessage<E::G1, E::G2>,
    gamma: Scalar<E>,
    d: Scalar<E>,
) -> (E::GT, E::GT)
    where E::G2: Group<Scalar = Scalar<E>>, E::GT: Group<Scalar = Scalar<E>>,
{
    let (c, d1, d2, e1, e2) = acc;
    let (e1_init, d2_init) = init;
    let (s1, s2) = s_acc;
    let di = f_inv(d);
    let d_sq = f_mul(d, d);
    let rhs = g_add(g_add(g_add(g_add(g_add(c, g_scale(su.ht, f_mul(s1, s2))), su.chi@[0]), g_scale(d2, d)), g_scale(d1, di)), g_scale(d2_init, d_sq));
    let ps = seq![
        g_add(msg.e1, g_scale(su.g1_0, d)),
        su.h1,
        g_scale(g_add(e1, g_scale(su.g1_0, f_mul(d, s2))), Scalar::<E>::spec_neg(f_inv(gamma))),
        g_scale(e1_init, d_sq),
    ];
    let qs = seq![
        g_add(msg.e2, g_scale(su.g2_0, di)),
        g_scale(g_add(e2, g_scale(su.g2_0, f_mul(di, s1))), Scalar::<E>::spec_neg(gamma)),
        su.h2,
        su.g2_0,
    ];
    (pairing_sum::<E>(ps, qs), rhs)
}

/// The final message for folded vectors `v₁ = [x]`, `v₂ = [y]`, `s₁ = [a]`,
/// `s₂ = [b]` and challenge `γ`, with blinds `r₁`, `r₂`:
/// `(x + (γ·a + r₁)·H₁, y + (γ⁻¹·b + r₂)·H₂)`.
pub open spec fn final_message_value<E: PairingCurve>(
    x: E::G1,
    y: E::G2,
    a: Scalar<E>,
    b: Scalar<E>,
    su: ProverSetup<E>,
    gamma: Scalar<E>,
    r1: Scalar<E>,
    r2: Scalar<E>,
) -> ScalarProductMessage<E::G1, E::G2>
    where E::G2: Group<Scalar = Scalar<E>>, E::GT: Group<Scalar = Scalar<E>>,
{
    ScalarProductMessage {
        e1: g_add(x, g_scale(su.h1, f_add(f_mul(gamma, a), r1))),
        e2: g_add(y, g_scale(su.h2, f_add(f_mul(f_inv(gamma), b), r2))),
    }
}

/// `log` followed by the steps of a scalar-product proof: `P₁`, `P₂`, `Q`,
/// `R` under `"sigma_p1"`, `"sigma_p2"`, `"sigma_q"`, `"sigma_r"`, then the
/// challenge `"sigma_c"`.
pub open spec fn scalar_product_log<E: PairingCurve>(log: TranscriptLog<E>, p1: E::GT, p2: E::GT, q: E::GT, r: E::GT) -> TranscriptLog<E> {
    log.push(("sigma_p1"@, TranscriptEntry::GT(p1))).push(("sigma_p2"@, TranscriptEntry::GT(p2)))
        .push(("sigma_q"@, TranscriptEntry::GT(q))).push(("sigma_r"@, TranscriptEntry::GT(r)))
        .push(("sigma_c"@, TranscriptEntry::Challenge))
}

/// The zero-knowledge proof of the final scalar product for folded vectors
/// `v₁ = [x]`, `v₂ = [y]`, the setup `su`, the accumulated blinds `r_c`,
/// `r_d1`, `r_d2`, the nonces `sd1`, `sd2`, `rp1`, `rp2`, `rq`, `rr` and the
/// challenge `c`: with `d₁ = sd1·Γ₁[0]`, `d₂ = sd2·Γ₂[0]`,
/// `P₁ = e(d₁, Γ₂[0]) + rp1·HT`, `P₂ = e(Γ₁[0], d₂) + rp2·HT`,
/// `Q = e(d₁, y) + e(x, d₂) + rq·HT`, `R = e(d₁, d₂) + rr·HT`,
/// `E₁ = d₁ + c·x`, `E₂ = d₂ + c·y`, `r₁ = rp1 + c·r_d1`,
/// `r₂ = rp2 + c·r_d2`, `r₃ = rr + c·rq + c²·r_c`.
pub open spec fn scalar_product_proof_value<E: PairingCurve>(
    x: E::G1,
    y: E::G2,
    su: ProverSetup<E>,
    r_c: Scalar<E>,
    r_d1: Scalar<E>,
    r_d2: Scalar<E>,
    sd1: Scalar<E>,
    sd2: Scalar<E>,
    rp1: Scalar<E>,
    rp2: Scalar<E>,
    rq: Scalar<E>,
    rr: Scalar<E>,
    c: Scalar<E>,
) -> ScalarProductProof<E::G1, E::G2, Scalar<E>, E::GT>
    where E::G2: Group<Scalar = Scalar<E>>, E::GT: Group<Scalar = Scalar<E>>,
{
    let g1 = su.g1_vec@[0];
    let g2 = su.g2_vec@[0];
    let d1 = g_scale(g1, sd1);
    let d2 = g_scale(g2, sd2);
    ScalarProductProof {
        p1: g_add(E::spec_pair(d1, g2), g_scale(su.ht, rp1)),
        p2: g_add(E::spec_pair(g1, d2), g_scale(su.ht, rp2)),
        q: g_add(g_add(E::spec_pair(d1, y), E::spec_pair(x, d2)), g_scale(su.ht, rq)),
        r: g_add(E::spec_pair(d1, d2), g_scale(su.ht, rr)),
        e1: g_add(d1, g_scale(x, c)),
        e2: g_add(d2, g_scale(y, c)),
        r1: f_add(rp1, f_mul(c, r_d1)),
        r2: f_add(rp2, f_mul(c, r_d2)),
        r3: f_add(f_add(rr, f_mul(c, rq)), f_mul(f_mul(c, c), r_c)),
    }
}

/// Prover state of the opening protocol: the vectors still to be folded and
/// the blinds accumulated so far.
pub struct DoryProverState<'a, E: PairingCurve, M: Mode = Transparent> {
    v1: Vec<E::G1>,
    v2: Vec<E::G2>,
    v2_scalars: Option<Vec<Scalar<E>>>,
    s1: Vec<Scalar<E>>,
    s2: Vec<Scalar<E>>,
    num_rounds: usize,
    setup: &'a ProverSetup<E>,
    r_c: Scalar<E>,
    r_d1: Scalar<E>,
    r_d2: Scalar<E>,
    r_e1: Scalar<E>,
    r_e2: Scalar<E>,
    round_d1: [Scalar<E>; 2],
    round_d2: [Scalar<E>; 2],
    round_c: [Scalar<E>; 2],
    round_e1: [Scalar<E>; 2],
    round_e2: [Scalar<E>; 2],
    round_d1_4ary: [Scalar<E>; 4],
    round_d2_4ary: [Scalar<E>; 4],
    round_c_4ary: [Scalar<E>; 16],
    round_e1_4ary: [Scalar<E>; 16],
    round_e2_4ary: [Scalar<E>; 16],
    _mode: PhantomData<M>,
}

impl<'a, E: PairingCurve, M: Mode> DoryProverState<'a, E, M>
    where E::G2: Group<Scalar = Scalar<E>>, E::GT: Group<Scalar = Scalar<E>>,
{
    pub closed spec fn spec_v1(&self) -> Seq<E::G1> {
        self.v1@
    }

    pub closed spec fn spec_v2(&self) -> Seq<E::G2> {
        self.v2@
    }

    /// When present, `v2[i] = v2_scalars[i]·Γ₂[0]`, which lets the first round
    /// use one multi-scalar multiplication in place of a pairing product.
    pub closed spec fn spec_v2_scalars(&self) -> Option<Seq<Scalar<E>>> {
        match self.v2_scalars {
            Some(sc) => Some(sc@),
            None => None,
        }
    }

    pub closed spec fn spec_s1(&self) -> Seq<Scalar<E>> {
        self.s1@
    }

    pub closed spec fn spec_s2(&self) -> Seq<Scalar<E>> {
        self.s2@
    }

    pub closed spec fn spec_num_rounds(&self) -> nat {
        self.num_rounds as nat
    }

    pub closed spec fn spec_setup(&self) -> ProverSetup<E> {
        *self.setup
    }

    /// The accumulated blinds `(r_c, r_d1, r_d2, r_e1, r_e2)`.
    pub closed spec fn spec_blinds(&self) -> (Scalar<E>, Scalar<E>, Scalar<E>, Scalar<E>, Scalar<E>) {
        (self.r_c, self.r_d1, self.r_d2, self.r_e1, self.r_e2)
    }

    /// The blinds of the current binary round: `d1`, `d2`, `c`, `e1`, `e2`.
    pub closed spec fn spec_round_blinds(&self) -> ([Scalar<E>; 2], [Scalar<E>; 2], [Scalar<E>; 2], [Scalar<E>; 2], [Scalar<E>; 2]) {
        (self.round_d1, self.round_d2, self.round_c, self.round_e1, self.round_e2)
    }

    /// The blinds of the current four-way round: `d1`, `d2`, `c`, `e1`, `e2`.
    pub closed spec fn spec_round_blinds_4ary(&self) -> ([Scalar<E>; 4], [Scalar<E>; 4], [Scalar<E>; 16], [Scalar<E>; 16], [Scalar<E>; 16]) {
        (self.round_d1_4ary, self.round_d2_4ary, self.round_c_4ary, self.round_e1_4ary, self.round_e2_4ary)
    }

    /// The length of the vectors: `2^num_rounds`.
    pub open spec fn len(&self) -> nat {
        pow2(self.spec_num_rounds())
    }

    /// All four vectors have length `2^num_rounds`, and the scalars behind
    /// `v2`, when kept, at least that many entries.
    pub open spec fn wf(&self) -> bool {
        &&& self.spec_num_rounds() < 64
        &&& self.spec_v1().len() == self.len()
        &&& self.spec_v2().len() == self.len()
        &&& self.spec_s1().len() == self.len()
        &&& self.spec_s2().len() == self.len()
        &&& (self.spec_v2_scalars() matches Some(sc) ==> sc.len() >= self.len())
    }

    /// The setup holds at least `2^num_rounds` generators of each group.
    pub open spec fn setup_covers(&self) -> bool {
        &&& self.spec_setup().g1_vec@.len() >= self.len()
        &&& self.spec_setup().g2_vec@.len() >= self.len()
    }

    /// Only the blinds of the current round differ between `self` and `other`.
    pub open spec fn same_but_round_blinds(&self, other: &Self) -> bool {
        &&& self.spec_v1() == other.spec_v1()
        &&& self.spec_v2() == other.spec_v2()
        &&& self.spec_v2_scalars() == other.spec_v2_scalars()
        &&& self.spec_s1() == other.spec_s1()
        &&& self.spec_s2() == other.spec_s2()
        &&& self.spec_num_rounds() == other.spec_num_rounds()
        &&& self.spec_setup() == other.spec_setup()
        &&& self.spec_blinds() == other.spec_blinds()
    }

    /// A prover over vectors of equal power-of-two length; every blind
    /// starts at zero.
    pub fn new(
        v1: Vec<E::G1>,
        v2: Vec<E::G2>,
        v2_scalars: Option<Vec<Scalar<E>>>,
        s1: Vec<Scalar<E>>,
        s2: Vec<Scalar<E>>,
        setup: &'a ProverSetup<E>,
    ) -> (r: Self)
        requires
            v1@.len() == v2@.len(),
            v1@.len() == s1@.len(),
            v1@.len() == s2@.len(),
            is_power_of_two(v1@.len() as nat),
            v2_scalars matches Some(sc) ==> sc@.len() == v2@.len(),
        ensures
            r.wf(),
            r.len() == v1@.len(),
            r.spec_v1() == v1@,
            r.spec_v2() == v2@,
            r.spec_v2_scalars() == (match v2_scalars {
                Some(sc) => Some(sc@),
                None => None::<Seq<Scalar<E>>>,
            }),
            r.spec_s1() == s1@,
            r.spec_s2() == s2@,
            r.spec_setup() == *setup,
            ({
                let z = Scalar::<E>::spec_zero();
                &&& r.spec_blinds() == (z, z, z, z, z)
                &&& round_blinds_filled(r.spec_round_blinds(), z)
                &&& round_blinds_4ary_filled(r.spec_round_blinds_4ary(), z)
            }),
    {
        let ghost k = choose|k: nat| k < 64 && v1@.len() == pow2(k);
        proof {
            lemma_trailing_zeros_pow2(k);
        }
        let num_rounds = (v1.len() as u64).trailing_zeros() as usize;
        let z = Scalar::<E>::zero();
        Self {
            v1,
            v2,
            v2_scalars,
            s1,
            s2,
            num_rounds,
            setup,
            r_c: z,
            r_d1: z,
            r_d2: z,
            r_e1: z,
            r_e2: z,
            round_d1: [z; 2],
            round_d2: [z; 2],
            round_c: [z; 2],
            round_e1: [z; 2],
            round_e2: [z; 2],
            round_d1_4ary: [z; 4],
            round_d2_4ary: [z; 4],
            round_c_4ary: [z; 16],
            round_e1_4ary: [z; 16],
            round_e2_4ary: [z; 16],
            _mode: PhantomData,
        }
    }

    /// Number of rounds left.
    pub fn num_rounds(&self) -> (r: usize)
        ensures
            r == self.spec_num_rounds(),
    {
        self.num_rounds
    }

    /// Sets the blinds of the initial commitments.
    pub fn set_initial_blinds(
        &mut self,
        r_d1: Scalar<E>,
        r_c: Scalar<E>,
        r_d2: Scalar<E>,
        r_e1: Scalar<E>,
        r_e2: Scalar<E>,
    )
        ensures
            final(self).spec_blinds() == (r_c, r_d1, r_d2, r_e1, r_e2),
            final(self).spec_v1() == old(self).spec_v1(),
            final(self).spec_v2() == old(self).spec_v2(),
            final(self).spec_v2_scalars() == old(self).spec_v2_scalars(),
            final(self).spec_s1() == old(self).spec_s1(),
            final(self).spec_s2() == old(self).spec_s2(),
            final(self).spec_num_rounds() == old(self).spec_num_rounds(),
            final(self).spec_setup() == old(self).spec_setup(),
            final(self).spec_round_blinds() == old(self).spec_round_blinds(),
            final(self).spec_round_blinds_4ary() == old(self).spec_round_blinds_4ary(),
    {
        self.r_d1 = r_d1;
        self.r_c = r_c;
        self.r_d2 = r_d2;
        self.r_e1 = r_e1;
        self.r_e2 = r_e2;
    }

    /// `D₂` of the half `lo..hi` of `v2`.
    fn d2_half<M1: DoryRoutines<E::G1>>(&self, g1_prime: &[E::G1], lo: usize, hi: usize) -> (r: E::GT)
        requires
            self.wf(),
            self.setup_covers(),
            0 <= lo <= hi <= self.len(),
            g1_prime@.len() == hi - lo,
        ensures
            r == d2_base::<E>(self.spec_v2(), self.spec_v2_scalars(), g1_prime@, self.spec_setup().g2_vec@[0], lo as int, hi as int),
    {
        proof {
            vstd::arithmetic::power2::lemma_pow2_pos(self.spec_num_rounds());
        }
        match &self.v2_scalars {
            Some(scalars) => {
                let s_half = slice_subrange(scalars.as_slice(), lo, hi);
                let sum = M1::msm(g1_prime, s_half);
                let g2_fin = &self.setup.g2_vec[0];
                E::pair(&sum, g2_fin)
            },
            None => {
                let v2_half = slice_subrange(self.v2.as_slice(), lo, hi);
                E::multi_pair_g1_setup(g1_prime, v2_half)
            },
        }
    }

    /// The first message of a round: `D₁` and `D₂` of both halves against
    /// the first half of the generators, masked with fresh blinds, and the
    /// products `E₁β = ⟨Γ₁, s₂⟩`, `E₂β = ⟨Γ₂, s₁⟩`.
    pub fn compute_first_message<M1, M2>(&mut self) -> (m: FirstReduceMessage<E::G1, E::G2, E::GT>)
        where
            M1: DoryRoutines<E::G1>,
            M2: DoryRoutines<E::G2>,
        requires
            old(self).wf(),
            old(self).setup_covers(),
            old(self).spec_num_rounds() > 0,
        ensures
            final(self).same_but_round_blinds(old(self)),
            final(self).spec_round_blinds().2 == old(self).spec_round_blinds().2,
            final(self).spec_round_blinds().3 == old(self).spec_round_blinds().3,
            final(self).spec_round_blinds().4 == old(self).spec_round_blinds().4,
            final(self).spec_round_blinds_4ary() == old(self).spec_round_blinds_4ary(),
            !M::blinds() ==> filled(final(self).spec_round_blinds().0, Scalar::<E>::spec_zero()),
            !M::blinds() ==> filled(final(self).spec_round_blinds().1, Scalar::<E>::spec_zero()),
            m == first_message_value::<E>(M::blinds(), old(self).spec_v1(), old(self).spec_v2(), old(self).spec_v2_scalars(),
                old(self).spec_s1(), old(self).spec_s2(), old(self).spec_setup(),
                final(self).spec_round_blinds().0, final(self).spec_round_blinds().1),
    {
        let n = self.v1.len();
        let n2 = n / 2;
        proof {
            lemma_pow2_unfold(self.num_rounds as nat);
        }
        let (v1_l, v1_r) = self.v1.as_slice().split_at(n2);
        let g1_prime = slice_subrange(self.setup.g1_vec.as_slice(), 0, n2);
        let g2_prime = slice_subrange(self.setup.g2_vec.as_slice(), 0, n2);

        self.round_d1 = [M::sample(), M::sample()];
        self.round_d2 = [M::sample(), M::sample()];

        let ht = &self.setup.ht;
        let rd1 = self.round_d1;
        let rd2 = self.round_d2;
        let g1_full = slice_subrange(self.setup.g1_vec.as_slice(), 0, n);
        let g2_full = slice_subrange(self.setup.g2_vec.as_slice(), 0, n);

        let d1_left = M::mask(E::multi_pair_g2_setup(v1_l, g2_prime), ht, &rd1[0]);
        let d1_right = M::mask(E::multi_pair_g2_setup(v1_r, g2_prime), ht, &rd1[1]);
        let d2_left_base = self.d2_half::<M1>(g1_prime, 0, n2);
        let d2_right_base = self.d2_half::<M1>(g1_prime, n2, n);
        let d2_left = M::mask(d2_left_base, ht, &rd2[0]);
        let d2_right = M::mask(d2_right_base, ht, &rd2[1]);
        let e1_beta = M1::msm(g1_full, self.s2.as_slice());
        let e2_beta = M2::msm(g2_full, self.s1.as_slice());

        FirstReduceMessage { d1_left, d1_right, d2_left, d2_right, e1_beta, e2_beta }
    }

    /// The `i`-th quarter of each vector, for a four-way round.
    fn quarters(&self, i: usize, q: usize) -> (r: (&[E::G1], &[E::G2], &[Scalar<E>], &[Scalar<E>]))
        requires
            self.wf(),
            i < 4,
            4 * q == self.len(),
        ensures
            r.0@ == quarter(self.spec_v1(), i as int, q as int),
            r.1@ == quarter(self.spec_v2(), i as int, q as int),
            r.2@ == quarter(self.spec_s1(), i as int, q as int),
            r.3@ == quarter(self.spec_s2(), i as int, q as int),
            r.0@.len() == q,
            r.1@.len() == q,
            r.2@.len() == q,
            r.3@.len() == q,
    {
        proof {
            lemma_quarter_bounds(i as int, q as int);
        }
        let len = self.v1.len();
        assert(len == 4 * q);
        let lo = i * q;
        let hi = lo + q;
        (
            slice_subrange(self.v1.as_slice(), lo, hi),
            slice_subrange(self.v2.as_slice(), lo, hi),
            slice_subrange(self.s1.as_slice(), lo, hi),
            slice_subrange(self.s2.as_slice(), lo, hi),
        )
    }

    /// The sixteen cross terms of a four-way round: for quarters `i`, `j`,
    /// entry `4i + j` holds `⟨v₁ᵢ, v₂ⱼ⟩`, `⟨v₁ᵢ, s₂ⱼ⟩` and `⟨v₂ᵢ, s₁ⱼ⟩`, masked.
    fn cross_terms_4ary<M1: DoryRoutines<E::G1>, M2: DoryRoutines<E::G2>>(&self, q: usize) -> (r: ([E::GT; 16], [E::G1; 16], [E::G2; 16]))
        requires
            self.wf(),
            4 * q == self.len(),
        ensures
            forall|k: int| 0 <= k < 16 ==> #[trigger] r.0@[k] == masked(M::blinds(),
                pairing_sum::<E>(quarter(self.spec_v1(), k / 4, q as int), quarter(self.spec_v2(), k % 4, q as int)),
                self.spec_setup().ht, self.spec_round_blinds_4ary().2@[k]),
            forall|k: int| 0 <= k < 16 ==> #[trigger] r.1@[k] == masked(M::blinds(),
                msm_of(quarter(self.spec_v1(), k / 4, q as int), quarter(self.spec_s2(), k % 4, q as int)),
                self.spec_setup().h1, self.spec_round_blinds_4ary().3@[k]),
            forall|k: int| 0 <= k < 16 ==> #[trigger] r.2@[k] == masked(M::blinds(),
                msm_of(quarter(self.spec_v2(), k / 4, q as int), quarter(self.spec_s1(), k % 4, q as int)),
                self.spec_setup().h2, self.spec_round_blinds_4ary().4@[k]),
    {
        let ht = &self.setup.ht;
        let h1 = &self.setup.h1;
        let h2 = &self.setup.h2;
        let rc = self.round_c_4ary;
        let re1 = self.round_e1_4ary;
        let re2 = self.round_e2_4ary;
        let mut c_raw = [E::GT::identity(); 16];
        let mut e1_cross = [E::G1::identity(); 16];
        let mut e2_cross = [E::G2::identity(); 16];
        let ghost v1 = self.spec_v1();
        let ghost v2 = self.spec_v2();
        let ghost s1 = self.spec_s1();
        let ghost s2 = self.spec_s2();
        let ghost qq = q as int;
        let mut i: usize = 0;
        while i < 4
            invariant
                i <= 4,
                self.wf(),
                4 * q == self.len(),
                v1 == self.spec_v1(),
                v2 == self.spec_v2(),
                s1 == self.spec_s1(),
                s2 == self.spec_s2(),
                qq == q,
                *ht == self.spec_setup().ht,
                *h1 == self.spec_setup().h1,
                *h2 == self.spec_setup().h2,
                rc == self.spec_round_blinds_4ary().2,
                re1 == self.spec_round_blinds_4ary().3,
                re2 == self.spec_round_blinds_4ary().4,
                forall|k: int| 0 <= k < 4 * i ==> #[trigger] c_raw@[k] == masked(M::blinds(),
                    pairing_sum::<E>(quarter(v1, k / 4, qq), quarter(v2, k % 4, qq)), *ht, rc@[k]),
                forall|k: int| 0 <= k < 4 * i ==> #[trigger] e1_cross@[k] == masked(M::blinds(),
                    msm_of(quarter(v1, k / 4, qq), quarter(s2, k % 4, qq)), *h1, re1@[k]),
                forall|k: int| 0 <= k < 4 * i ==> #[trigger] e2_cross@[k] == masked(M::blinds(),
                    msm_of(quarter(v2, k / 4, qq), quarter(s1, k % 4, qq)), *h2, re2@[k]),
            decreases 4 - i,
        {
            let (v1_i, v2_i, _s1_i, _s2_i) = self.quarters(i, q);
            let mut j: usize = 0;
            while j < 4
                invariant
                    i < 4,
                    j <= 4,
                    self.wf(),
                    4 * q == self.len(),
                    v1 == self.spec_v1(),
                    v2 == self.spec_v2(),
                    s1 == self.spec_s1(),
                    s2 == self.spec_s2(),
                    qq == q,
                    v1_i@ == quarter(v1, i as int, qq),
                    v2_i@ == quarter(v2, i as int, qq),
                    v1_i@.len() == q,
                    v2_i@.len() == q,
                    *ht == self.spec_setup().ht,
                    *h1 == self.spec_setup().h1,
                    *h2 == self.spec_setup().h2,
                    rc == self.spec_round_blinds_4ary().2,
                    re1 == self.spec_round_blinds_4ary().3,
                    re2 == self.spec_round_blinds_4ary().4,
                    forall|k: int| 0 <= k < 4 * i + j ==> #[trigger] c_raw@[k] == masked(M::blinds(),
                        pairing_sum::<E>(quarter(v1, k / 4, qq), quarter(v2, k % 4, qq)), *ht, rc@[k]),
                    forall|k: int| 0 <= k < 4 * i + j ==> #[trigger] e1_cross@[k] == masked(M::blinds(),
                        msm_of(quarter(v1, k / 4, qq), quarter(s2, k % 4, qq)), *h1, re1@[k]),
                    forall|k: int| 0 <= k < 4 * i + j ==> #[trigger] e2_cross@[k] == masked(M::blinds(),
                        msm_of(quarter(v2, k / 4, qq), quarter(s1, k % 4, qq)), *h2, re2@[k]),
                decreases 4 - j,
            {
                let (_v1_j, v2_j, s1_j, s2_j) = self.quarters(j, q);
                let idx = i * 4 + j;
                proof {
                    lemma_index4(i as int, j as int);
                    assert(idx == 4 * i + j);
                }
                let c = M::mask(E::multi_pair(v1_i, v2_j), ht, &rc[idx]);
                let e1 = M::mask(M1::msm(v1_i, s2_j), h1, &re1[idx]);
                let e2 = M::mask(M2::msm(v2_i, s1_j), h2, &re2[idx]);
                c_raw[idx] = c;
                e1_cross[idx] = e1;
                e2_cross[idx] = e2;
                j = j + 1;
            }
            i = i + 1;
        }
        (c_raw, e1_cross, e2_cross)
    }

    /// The single message of a four-way round: `D₁` and `D₂` of each quarter
    /// against the first quarter of the generators, the sixteen cross terms
    /// between quarters, and `E₁β`, `E₂β`; every blind of the round is drawn
    /// first.
    pub fn compute_4ary_message<M1, M2>(&mut self) -> (m: FirstReduceMessage4<E::G1, E::G2, E::GT>)
        where
            M1: DoryRoutines<E::G1>,
            M2: DoryRoutines<E::G2>,
        requires
            old(self).wf(),
            old(self).setup_covers(),
            old(self).spec_num_rounds() >= 2,
        ensures
            final(self).same_but_round_blinds(old(self)),
            final(self).spec_round_blinds() == old(self).spec_round_blinds(),
            !M::blinds() ==> round_blinds_4ary_filled(final(self).spec_round_blinds_4ary(), Scalar::<E>::spec_zero()),
            ({
                let st = old(self);
                let su = st.spec_setup();
                let n = st.len() as int;
                let q = n / 4;
                let g1p = prefix(su.g1_vec@, q);
                let g2p = prefix(su.g2_vec@, q);
                let (rd1, rd2, rc, re1, re2) = final(self).spec_round_blinds_4ary();
                let (v1, v2, s1, s2) = (st.spec_v1(), st.spec_v2(), st.spec_s1(), st.spec_s2());
                &&& forall|i: int| 0 <= i < 4 ==> #[trigger] m.d1@[i] == masked(M::blinds(),
                        pairing_sum::<E>(quarter(v1, i, q), g2p), su.ht, rd1@[i])
                &&& forall|i: int| 0 <= i < 4 ==> #[trigger] m.d2@[i] == masked(M::blinds(),
                        d2_base::<E>(v2, st.spec_v2_scalars(), g1p, su.g2_vec@[0], i * q, (i + 1) * q), su.ht, rd2@[i])
                &&& forall|k: int| 0 <= k < 16 ==> #[trigger] m.c_raw@[k] == masked(M::blinds(),
                        pairing_sum::<E>(quarter(v1, k / 4, q), quarter(v2, k % 4, q)), su.ht, rc@[k])
                &&& forall|k: int| 0 <= k < 16 ==> #[trigger] m.e1_cross@[k] == masked(M::blinds(),
                        msm_of(quarter(v1, k / 4, q), quarter(s2, k % 4, q)), su.h1, re1@[k])
                &&& forall|k: int| 0 <= k < 16 ==> #[trigger] m.e2_cross@[k] == masked(M::blinds(),
                        msm_of(quarter(v2, k / 4, q), quarter(s1, k % 4, q)), su.h2, re2@[k])
                &&& m.e1_beta == msm_of(prefix(su.g1_vec@, n), s2)
                &&& m.e2_beta == msm_of(prefix(su.g2_vec@, n), s1)
            }),
    {
        let n = self.v1.len();
        let n4 = n / 4;
        proof {
            lemma_pow2_unfold(self.num_rounds as nat);
            lemma_pow2_unfold((self.num_rounds - 1) as nat);
            vstd::arithmetic::power2::lemma_pow2_pos((self.num_rounds - 2) as nat);
        }
        let g1_prime = slice_subrange(self.setup.g1_vec.as_slice(), 0, n4);
        let g2_prime = slice_subrange(self.setup.g2_vec.as_slice(), 0, n4);

        self.round_d1_4ary = [M::sample(), M::sample(), M::sample(), M::sample()];
        self.round_d2_4ary = [M::sample(), M::sample(), M::sample(), M::sample()];
        self.round_c_4ary = [M::sample(); 16];
        self.round_e1_4ary = [M::sample(); 16];
        self.round_e2_4ary = [M::sample(); 16];

        let ht = &self.setup.ht;
        let rd1 = self.round_d1_4ary;
        let rd2 = self.round_d2_4ary;
        let g1_full = slice_subrange(self.setup.g1_vec.as_slice(), 0, n);
        let g2_full = slice_subrange(self.setup.g2_vec.as_slice(), 0, n);

        let mut d1 = [E::GT::identity(); 4];
        let mut d2 = [E::GT::identity(); 4];
        let ghost q = n4 as int;
        let mut i: usize = 0;
        while i < 4
            invariant
                i <= 4,
                self.wf(),
                self.setup_covers(),
                4 * n4 == self.len(),
                q == n4,
                n == self.len(),
                g1_prime@ == prefix(self.spec_setup().g1_vec@, q),
                g2_prime@ == prefix(self.spec_setup().g2_vec@, q),
                *ht == self.spec_setup().ht,
                rd1 == self.spec_round_blinds_4ary().0,
                rd2 == self.spec_round_blinds_4ary().1,
                forall|k: int| 0 <= k < i ==> #[trigger] d1@[k] == masked(M::blinds(),
                    pairing_sum::<E>(quarter(self.spec_v1(), k, q), g2_prime@), *ht, rd1@[k]),
                forall|k: int| 0 <= k < i ==> #[trigger] d2@[k] == masked(M::blinds(),
                    d2_base::<E>(self.spec_v2(), self.spec_v2_scalars(), g1_prime@, self.spec_setup().g2_vec@[0], k * q, (k + 1) * q),
                    *ht, rd2@[k]),
            decreases 4 - i,
        {
            proof {
                lemma_quarter_bounds(i as int, q);
            }
            let (v1_i, _v2_i, _s1_i, _s2_i) = self.quarters(i, n4);
            let lo = i * n4;
            let hi = lo + n4;
            let a = M::mask(E::multi_pair_g2_setup(v1_i, g2_prime), ht, &rd1[i]);
            let b_base = self.d2_half::<M1>(g1_prime, lo, hi);
            let b = M::mask(b_base, ht, &rd2[i]);
            d1[i] = a;
            d2[i] = b;
            i = i + 1;
        }

        let (c_raw, e1_cross, e2_cross) = self.cross_terms_4ary::<M1, M2>(n4);
        let e1_beta = M1::msm(g1_full, self.s2.as_slice());
        let e2_beta = M2::msm(g2_full, self.s1.as_slice());

        FirstReduceMessage4 { d1, d2, c_raw, e1_cross, e2_cross, e1_beta, e2_beta }
    }

    /// Applies the first challenge `β`: `v₁ += β·Γ₁`, `v₂ += β⁻¹·Γ₂`, forgets
    /// the scalars behind `v₂`, and folds the `D` blinds into `r_c`.
    pub fn apply_first_challenge<M1, M2>(&mut self, beta: &Scalar<E>)
        where
            M1: DoryRoutines<E::G1>,
            M2: DoryRoutines<E::G2>,
        requires
            old(self).wf(),
            old(self).setup_covers(),
            invertible(*beta),
        ensures
            final(self).wf(),
            final(self).spec_v1() == shift_by(old(self).spec_v1(), old(self).spec_setup().g1_vec@, *beta),
            final(self).spec_v2() == shift_by(old(self).spec_v2(), old(self).spec_setup().g2_vec@, f_inv(*beta)),
            final(self).spec_v2_scalars() is None,
            final(self).spec_s1() == old(self).spec_s1(),
            final(self).spec_s2() == old(self).spec_s2(),
            final(self).spec_num_rounds() == old(self).spec_num_rounds(),
            final(self).spec_setup() == old(self).spec_setup(),
            ({
                let (r_c, r_d1, r_d2, r_e1, r_e2) = old(self).spec_blinds();
                final(self).spec_blinds() == (f_add(f_add(r_c, f_mul(r_d2, *beta)), f_mul(r_d1, f_inv(*beta))), r_d1, r_d2, r_e1, r_e2)
            }),
            final(self).spec_round_blinds() == old(self).spec_round_blinds(),
            final(self).spec_round_blinds_4ary() == old(self).spec_round_blinds_4ary(),
    {
        let beta_inv = beta.inv().expect("beta must be invertible");
        let n = self.v1.len();
        let g1_slice = slice_subrange(self.setup.g1_vec.as_slice(), 0, n);
        let g2_slice = slice_subrange(self.setup.g2_vec.as_slice(), 0, n);
        M1::fixed_scalar_mul_bases_then_add(g1_slice, self.v1.as_mut_slice(), beta);
        M2::fixed_scalar_mul_bases_then_add(g2_slice, self.v2.as_mut_slice(), &beta_inv);
        self.v2_scalars = None;
        self.r_c = self.r_c.add(&self.r_d2.mul(beta)).add(&self.r_d1.mul(&beta_inv));
        proof {
            assert(self.v1@ =~= shift_by(old(self).v1@, self.setup.g1_vec@, *beta));
            assert(self.v2@ =~= shift_by(old(self).v2@, self.setup.g2_vec@, beta_inv));
        }
    }

    /// The second message of a round: the cross pairings `C₊ = ⟨v₁L, v₂R⟩`,
    /// `C₋ = ⟨v₁R, v₂L⟩` and the cross products `E₁± `, `E₂±`, masked with
    /// fresh blinds.
    pub fn compute_second_message<M1, M2>(&mut self) -> (m: SecondReduceMessage<E::G1, E::G2, E::GT>)
        where
            M1: DoryRoutines<E::G1>,
            M2: DoryRoutines<E::G2>,
        requires
            old(self).wf(),
            old(self).spec_num_rounds() > 0,
        ensures
            final(self).same_but_round_blinds(old(self)),
            final(self).spec_round_blinds().0 == old(self).spec_round_blinds().0,
            final(self).spec_round_blinds().1 == old(self).spec_round_blinds().1,
            final(self).spec_round_blinds_4ary() == old(self).spec_round_blinds_4ary(),
            !M::blinds() ==> filled(final(self).spec_round_blinds().2, Scalar::<E>::spec_zero()),
            !M::blinds() ==> filled(final(self).spec_round_blinds().3, Scalar::<E>::spec_zero()),
            !M::blinds() ==> filled(final(self).spec_round_blinds().4, Scalar::<E>::spec_zero()),
            m == second_message_value::<E>(M::blinds(), old(self).spec_v1(), old(self).spec_v2(),
                old(self).spec_s1(), old(self).spec_s2(), old(self).spec_setup(),
                final(self).spec_round_blinds().2, final(self).spec_round_blinds().3, final(self).spec_round_blinds().4),
    {
        let n = self.v1.len();
        let n2 = n / 2;
        proof {
            lemma_pow2_unfold(self.num_rounds as nat);
        }
        let (v1_l, v1_r) = self.v1.as_slice().split_at(n2);
        let (v2_l, v2_r) = self.v2.as_slice().split_at(n2);
        let (s1_l, s1_r) = self.s1.as_slice().split_at(n2);
        let (s2_l, s2_r) = self.s2.as_slice().split_at(n2);

        self.round_c = [M::sample(), M::sample()];
        self.round_e1 = [M::sample(), M::sample()];
        self.round_e2 = [M::sample(), M::sample()];

        let ht = &self.setup.ht;
        let h1 = &self.setup.h1;
        let h2 = &self.setup.h2;
        let rc = self.round_c;
        let re1 = self.round_e1;
        let re2 = self.round_e2;

        let (c_plus_prod, c_minus_prod) = E::multi_pair_two_products(v1_l, v2_r, v1_r, v2_l);
        let c_plus = M::mask(c_plus_prod, ht, &rc[0]);
        let c_minus = M::mask(c_minus_prod, ht, &rc[1]);
        let e1_plus = M::mask(M1::msm(v1_l, s2_r), h1, &re1[0]);
        let e1_minus = M::mask(M1::msm(v1_r, s2_l), h1, &re1[1]);
        let e2_plus = M::mask(M2::msm(v2_r, s1_l), h2, &re2[0]);
        let e2_minus = M::mask(M2::msm(v2_l, s1_r), h2, &re2[1]);

        SecondReduceMessage { c_plus, c_minus, e1_plus, e1_minus, e2_plus, e2_minus }
    }

    /// Applies the second challenge `α`: folds `v₁` and `s₁` with `α`, `v₂`
    /// and `s₂` with `α⁻¹`, halves every vector and accumulates the round
    /// blinds.
    pub fn apply_second_challenge<M1: DoryRoutines<E::G1>, M2: DoryRoutines<E::G2>>(&mut self, alpha: &Scalar<E>)
        requires
            old(self).wf(),
            old(self).spec_num_rounds() > 0,
            invertible(*alpha),
        ensures
            final(self).wf(),
            final(self).spec_num_rounds() == old(self).spec_num_rounds() - 1,
            final(self).spec_v1() == fold_group(old(self).spec_v1(), *alpha),
            final(self).spec_v2() == fold_group(old(self).spec_v2(), f_inv(*alpha)),
            final(self).spec_s1() == fold_field(old(self).spec_s1(), *alpha),
            final(self).spec_s2() == fold_field(old(self).spec_s2(), f_inv(*alpha)),
            final(self).spec_v2_scalars() == old(self).spec_v2_scalars(),
            final(self).spec_setup() == old(self).spec_setup(),
            ({
                let a = *alpha;
                let ai = f_inv(*alpha);
                let (r_c, r_d1, r_d2, r_e1, r_e2) = old(self).spec_blinds();
                let (rd1, rd2, rc, re1, re2) = old(self).spec_round_blinds();
                final(self).spec_blinds() == (
                    f_add(f_add(r_c, f_mul(rc[0], a)), f_mul(rc[1], ai)),
                    f_add(f_mul(rd1[0], a), rd1[1]),
                    f_add(f_mul(rd2[0], ai), rd2[1]),
                    f_add(f_add(r_e1, f_mul(re1[0], a)), f_mul(re1[1], ai)),
                    f_add(f_add(r_e2, f_mul(re2[0], a)), f_mul(re2[1], ai)),
                )
            }),
            final(self).spec_round_blinds() == old(self).spec_round_blinds(),
            final(self).spec_round_blinds_4ary() == old(self).spec_round_blinds_4ary(),
    {
        let alpha_inv = alpha.inv().expect("alpha must be invertible");
        let n = self.v1.len();
        let n2 = n / 2;
        proof {
            lemma_pow2_unfold(self.num_rounds as nat);
        }
        let ghost v1_0 = self.v1@;
        let ghost v2_0 = self.v2@;
        let ghost s1_0 = self.s1@;
        let ghost s2_0 = self.s2@;
        {
            let (v1_l, v1_r) = self.v1.as_mut_slice().split_at_mut(n2);
            M1::fixed_scalar_mul_vs_then_add(v1_l, v1_r, alpha);
        }
        {
            let (v2_l, v2_r) = self.v2.as_mut_slice().split_at_mut(n2);
            M2::fixed_scalar_mul_vs_then_add(v2_l, v2_r, &alpha_inv);
        }
        {
            let (s1_l, s1_r) = self.s1.as_mut_slice().split_at_mut(n2);
            M1::fold_field_vectors(s1_l, s1_r, alpha);
        }
        {
            let (s2_l, s2_r) = self.s2.as_mut_slice().split_at_mut(n2);
            M1::fold_field_vectors(s2_l, s2_r, &alpha_inv);
        }
        self.v1.truncate(n2);
        self.v2.truncate(n2);
        self.s1.truncate(n2);
        self.s2.truncate(n2);
        proof {
            assert(self.v1@ =~= fold_group(v1_0, *alpha));
            assert(self.v2@ =~= fold_group(v2_0, alpha_inv));
            assert(self.s1@ =~= fold_field(s1_0, *alpha));
            assert(self.s2@ =~= fold_field(s2_0, alpha_inv));
        }

        self.r_c = self.r_c.add(&self.round_c[0].mul(alpha)).add(&self.round_c[1].mul(&alpha_inv));
        self.r_d1 = self.round_d1[0].mul(alpha).add(&self.round_d1[1]);
        self.r_d2 = self.round_d2[0].mul(&alpha_inv).add(&self.round_d2[1]);
        self.r_e1 = self.r_e1.add(&self.round_e1[0].mul(alpha)).add(&self.round_e1[1].mul(&alpha_inv));
        self.r_e2 = self.r_e2.add(&self.round_e2[0].mul(alpha)).add(&self.round_e2[1].mul(&alpha_inv));

        self.num_rounds = self.num_rounds - 1;
    }

    /// Applies the first challenge `β` of a four-way round: `v₁ += β·Γ₁`,
    /// `v₂ += β⁻¹·Γ₂`, forgets the scalars behind `v₂`, and folds the `D`
    /// blinds into `r_c`.
    pub fn apply_4ary_beta<M1, M2>(&mut self, beta: &Scalar<E>)
        where
            M1: DoryRoutines<E::G1>,
            M2: DoryRoutines<E::G2>,
        requires
            old(self).wf(),
            old(self).setup_covers(),
            old(self).spec_num_rounds() >= 2,
            invertible(*beta),
        ensures
            final(self).wf(),
            final(self).spec_v1() == shift_by(old(self).spec_v1(), old(self).spec_setup().g1_vec@, *beta),
            final(self).spec_v2() == shift_by(old(self).spec_v2(), old(self).spec_setup().g2_vec@, f_inv(*beta)),
            final(self).spec_v2_scalars() is None,
            final(self).spec_s1() == old(self).spec_s1(),
            final(self).spec_s2() == old(self).spec_s2(),
            final(self).spec_num_rounds() == old(self).spec_num_rounds(),
            final(self).spec_setup() == old(self).spec_setup(),
            ({
                let (r_c, r_d1, r_d2, r_e1, r_e2) = old(self).spec_blinds();
                final(self).spec_blinds() == (f_add(f_add(r_c, f_mul(r_d2, *beta)), f_mul(r_d1, f_inv(*beta))), r_d1, r_d2, r_e1, r_e2)
            }),
            final(self).spec_round_blinds() == old(self).spec_round_blinds(),
            final(self).spec_round_blinds_4ary() == old(self).spec_round_blinds_4ary(),
    {
        let beta_inv = beta.inv().expect("beta must be invertible");
        let n = self.v1.len();
        let g1_slice = slice_subrange(self.setup.g1_vec.as_slice(), 0, n);
        let g2_slice = slice_subrange(self.setup.g2_vec.as_slice(), 0, n);
        M1::fixed_scalar_mul_bases_then_add(g1_slice, self.v1.as_mut_slice(), beta);
        M2::fixed_scalar_mul_bases_then_add(g2_slice, self.v2.as_mut_slice(), &beta_inv);
        self.v2_scalars = None;
        self.r_c = self.r_c.add(&self.r_d2.mul(beta)).add(&self.r_d1.mul(&beta_inv));
        proof {
            assert(self.v1@ =~= shift_by(old(self).v1@, self.setup.g1_vec@, *beta));
            assert(self.v2@ =~= shift_by(old(self).v2@, self.setup.g2_vec@, beta_inv));
        }
    }

    /// Applies the second challenge `α` of a four-way round: each vector
    /// becomes the combination of its four quarters with the coefficients of
    /// `α` (of `α⁻¹` for `v₂` and `s₂`), the vectors shrink to a quarter and
    /// the round blinds accumulate.
    pub fn apply_second_challenge_4ary<M1: DoryRoutines<E::G1>, M2: DoryRoutines<E::G2>>(&mut self, alpha: &Scalar<E>)
        requires
            old(self).wf(),
            old(self).spec_num_rounds() >= 2,
            invertible(*alpha),
        ensures
            final(self).wf(),
            final(self).spec_num_rounds() == old(self).spec_num_rounds() - 2,
            final(self).spec_v1() == fold4_group(old(self).spec_v1(), coeffs4(*alpha)),
            final(self).spec_v2() == fold4_group(old(self).spec_v2(), coeffs4(f_inv(*alpha))),
            final(self).spec_s1() == fold4_field(old(self).spec_s1(), coeffs4(*alpha)),
            final(self).spec_s2() == fold4_field(old(self).spec_s2(), coeffs4(f_inv(*alpha))),
            final(self).spec_v2_scalars() == old(self).spec_v2_scalars(),
            final(self).spec_setup() == old(self).spec_setup(),
            ({
                let c = coeffs4(*alpha);
                let ci = coeffs4(f_inv(*alpha));
                let (r_c, r_d1, r_d2, r_e1, r_e2) = old(self).spec_blinds();
                let (rd1, rd2, rc, re1, re2) = old(self).spec_round_blinds_4ary();
                final(self).spec_blinds() == (
                    acc6(r_c, rc@, c, c.0, ci.0),
                    lin4(rd1@, c),
                    lin4(rd2@, ci),
                    acc6(r_e1, re1@, c, c.0, ci.0),
                    acc6(r_e2, re2@, ci, ci.0, c.0),
                )
            }),
            final(self).spec_round_blinds() == old(self).spec_round_blinds(),
            final(self).spec_round_blinds_4ary() == old(self).spec_round_blinds_4ary(),
    {
        let alpha_inv = alpha.inv().expect("alpha must be invertible");
        let coeff = fold_coefficients(alpha);
        let coeff_inv = fold_coefficients(&alpha_inv);
        let alpha_cu = coeff.0;
        let alpha_inv_cu = coeff_inv.0;

        let n = self.v1.len();
        let n4 = n / 4;
        proof {
            lemma_pow2_unfold(self.num_rounds as nat);
            lemma_pow2_unfold((self.num_rounds - 1) as nat);
        }
        let ghost v1_0 = self.v1@;
        let ghost v2_0 = self.v2@;
        let ghost s1_0 = self.s1@;
        let ghost s2_0 = self.s2@;
        let (v1_0q, v2_0q, s1_0q, s2_0q) = self.quarters(0, n4);
        let (v1_1q, v2_1q, s1_1q, s2_1q) = self.quarters(1, n4);
        let (v1_2q, v2_2q, s1_2q, s2_2q) = self.quarters(2, n4);
        let (v1_3q, v2_3q, s1_3q, s2_3q) = self.quarters(3, n4);

        let mut v1_new = slice_to_vec(v1_0q);
        M1::fold_4ary_group_vectors(v1_new.as_mut_slice(), [v1_0q, v1_1q, v1_2q, v1_3q], &coeff);
        let mut v2_new = slice_to_vec(v2_0q);
        M2::fold_4ary_group_vectors(v2_new.as_mut_slice(), [v2_0q, v2_1q, v2_2q, v2_3q], &coeff_inv);
        let mut s1_new = slice_to_vec(s1_0q);
        M1::fold_4ary_field_vectors(s1_new.as_mut_slice(), [s1_0q, s1_1q, s1_2q, s1_3q], &coeff);
        let mut s2_new = slice_to_vec(s2_0q);
        M1::fold_4ary_field_vectors(s2_new.as_mut_slice(), [s2_0q, s2_1q, s2_2q, s2_3q], &coeff_inv);
        proof {
            let q = n4 as int;
            assert forall|i: int| 0 <= i < q implies
                #[trigger] v1_new@[i] == fold4_group(v1_0, coeff)[i]
                && v2_new@[i] == fold4_group(v2_0, coeff_inv)[i]
                && s1_new@[i] == fold4_field(s1_0, coeff)[i]
                && s2_new@[i] == fold4_field(s2_0, coeff_inv)[i] by {
                assert(quarter(v1_0, 1, q)[i] == v1_0[i + q]);
                assert(quarter(v1_0, 2, q)[i] == v1_0[i + 2 * q]);
                assert(quarter(v1_0, 3, q)[i] == v1_0[i + 3 * q]);
                assert(quarter(v2_0, 1, q)[i] == v2_0[i + q]);
                assert(quarter(v2_0, 2, q)[i] == v2_0[i + 2 * q]);
                assert(quarter(v2_0, 3, q)[i] == v2_0[i + 3 * q]);
                assert(quarter(s1_0, 1, q)[i] == s1_0[i + q]);
                assert(quarter(s1_0, 2, q)[i] == s1_0[i + 2 * q]);
                assert(quarter(s1_0, 3, q)[i] == s1_0[i + 3 * q]);
                assert(quarter(s2_0, 1, q)[i] == s2_0[i + q]);
                assert(quarter(s2_0, 2, q)[i] == s2_0[i + 2 * q]);
                assert(quarter(s2_0, 3, q)[i] == s2_0[i + 3 * q]);
            }
            assert(v1_new@ =~= fold4_group(v1_0, coeff));
            assert(v2_new@ =~= fold4_group(v2_0, coeff_inv));
            assert(s1_new@ =~= fold4_field(s1_0, coeff));
            assert(s2_new@ =~= fold4_field(s2_0, coeff_inv));
        }
        self.v1 = v1_new;
        self.v2 = v2_new;
        self.s1 = s1_new;
        self.s2 = s2_new;

        let rc = self.round_c_4ary;
        self.r_c = self.r_c.add(&rc[0].mul(&coeff.0)).add(&rc[1].mul(&coeff.1))
            .add(&rc[2].mul(&coeff.2)).add(&rc[3].mul(&coeff.3))
            .add(&rc[4].mul(&alpha_cu)).add(&rc[5].mul(&alpha_inv_cu));

        let rd1 = self.round_d1_4ary;
        self.r_d1 = rd1[0].mul(&coeff.0).add(&rd1[1].mul(&coeff.1))
            .add(&rd1[2].mul(&coeff.2)).add(&rd1[3].mul(&coeff.3));

        let rd2 = self.round_d2_4ary;
        self.r_d2 = rd2[0].mul(&coeff_inv.0).add(&rd2[1].mul(&coeff_inv.1))
            .add(&rd2[2].mul(&coeff_inv.2)).add(&rd2[3].mul(&coeff_inv.3));

        let re1 = self.round_e1_4ary;
        self.r_e1 = self.r_e1.add(&re1[0].mul(&coeff.0)).add(&re1[1].mul(&coeff.1))
            .add(&re1[2].mul(&coeff.2)).add(&re1[3].mul(&coeff.3))
            .add(&re1[4].mul(&alpha_cu)).add(&re1[5].mul(&alpha_inv_cu));

        let re2 = self.round_e2_4ary;
        self.r_e2 = self.r_e2.add(&re2[0].mul(&coeff_inv.0)).add(&re2[1].mul(&coeff_inv.1))
            .add(&re2[2].mul(&coeff_inv.2)).add(&re2[3].mul(&coeff_inv.3))
            .add(&re2[4].mul(&alpha_inv_cu)).add(&re2[5].mul(&alpha_cu));

        self.num_rounds = self.num_rounds - 2;
        proof {
            lemma_pow2_unfold((old(self).num_rounds - 1) as nat);
        }
    }

    /// The zero-knowledge proof of the final scalar product, before the
    /// final message: nonces are drawn with `Field::random`, `P₁`, `P₂`, `Q`
    /// and `R` go to the transcript, and the challenge `c` is drawn under
    /// `"sigma_c"` (see `scalar_product_log` and
    /// `scalar_product_proof_value`). The state is left as it is.
    pub fn scalar_product_proof<T: Transcript<E>>(&self, transcript: &mut T) -> (r: ScalarProductProof<E::G1, E::G2, Scalar<E>, E::GT>)
        requires
            self.spec_v1().len() > 0,
            self.spec_v2().len() > 0,
            self.spec_setup().g1_vec@.len() > 0,
            self.spec_setup().g2_vec@.len() > 0,
        ensures
            final(transcript).spec_log() == scalar_product_log::<E>(old(transcript).spec_log(), r.p1, r.p2, r.q, r.r),
            exists|sd1: Scalar<E>, sd2: Scalar<E>, rp1: Scalar<E>, rp2: Scalar<E>, rq: Scalar<E>, rr: Scalar<E>|
                r == #[trigger] scalar_product_proof_value::<E>(self.spec_v1()[0], self.spec_v2()[0], self.spec_setup(),
                    self.spec_blinds().0, self.spec_blinds().1, self.spec_blinds().2, sd1, sd2, rp1, rp2, rq, rr,
                    T::spec_challenge(scalar_product_log::<E>(old(transcript).spec_log(), r.p1, r.p2, r.q, r.r).drop_last(), "sigma_c"@)),
    {
        let v1 = self.v1[0];
        let v2 = self.v2[0];
        let g1 = self.setup.g1_vec[0];
        let g2 = self.setup.g2_vec[0];
        let ht = &self.setup.ht;
        let sd1 = Scalar::<E>::random();
        let sd2 = Scalar::<E>::random();
        let d1 = g1.scale(&sd1);
        let d2 = g2.scale(&sd2);
        let rp1 = Scalar::<E>::random();
        let rp2 = Scalar::<E>::random();
        let rq = Scalar::<E>::random();
        let rr = Scalar::<E>::random();
        let p1 = E::pair(&d1, &g2).add(&ht.scale(&rp1));
        let p2 = E::pair(&g1, &d2).add(&ht.scale(&rp2));
        let q = E::pair(&d1, &v2).add(&E::pair(&v1, &d2)).add(&ht.scale(&rq));
        let rr_val = E::pair(&d1, &d2).add(&ht.scale(&rr));
        transcript.append_gt("sigma_p1", &p1);
        transcript.append_gt("sigma_p2", &p2);
        transcript.append_gt("sigma_q", &q);
        transcript.append_gt("sigma_r", &rr_val);
        let c = transcript.challenge_scalar("sigma_c");
        let r = ScalarProductProof {
            p1,
            p2,
            q,
            r: rr_val,
            e1: d1.add(&v1.scale(&c)),
            e2: d2.add(&v2.scale(&c)),
            r1: rp1.add(&c.mul(&self.r_d1)),
            r2: rp2.add(&c.mul(&self.r_d2)),
            r3: rr.add(&c.mul(&rq)).add(&c.mul(&c).mul(&self.r_c)),
        };
        assert(transcript.spec_log() =~= scalar_product_log::<E>(old(transcript).spec_log(), p1, p2, q, rr_val));
        assert(scalar_product_log::<E>(old(transcript).spec_log(), p1, p2, q, rr_val).drop_last()
            =~= old(transcript).spec_log().push(("sigma_p1"@, TranscriptEntry::GT(p1))).push(("sigma_p2"@, TranscriptEntry::GT(p2)))
                .push(("sigma_q"@, TranscriptEntry::GT(q))).push(("sigma_r"@, TranscriptEntry::GT(rr_val))));
        let ghost expected = scalar_product_proof_value::<E>(self.spec_v1()[0], self.spec_v2()[0], self.spec_setup(),
            self.spec_blinds().0, self.spec_blinds().1, self.spec_blinds().2, sd1, sd2, rp1, rp2, rq, rr, c);
        assert(r == expected);
        r
    }

    /// The final message, once every round is done: `E₁ = v₁ + (γ·s₁ + r₁)·H₁`
    /// and `E₂ = v₂ + (γ⁻¹·s₂ + r₂)·H₂` with fresh blinds `r₁`, `r₂` (zero
    /// when the mode does not blind); folds the `E` blinds into `r_c`.
    pub fn compute_final_message<M1, M2>(&mut self, gamma: &Scalar<E>) -> (m: ScalarProductMessage<E::G1, E::G2>)
        where
            M1: DoryRoutines<E::G1>,
            M2: DoryRoutines<E::G2>,
        requires
            old(self).wf(),
            old(self).spec_num_rounds() == 0,
            invertible(*gamma),
        ensures
            exists|r1: Scalar<E>, r2: Scalar<E>| {
                &&& (!M::blinds() ==> r1 == Scalar::<E>::spec_zero() && r2 == Scalar::<E>::spec_zero())
                &&& m == final_message_value::<E>(old(self).spec_v1()[0], old(self).spec_v2()[0],
                    old(self).spec_s1()[0], old(self).spec_s2()[0], old(self).spec_setup(), *gamma, r1, r2)
            },
            ({
                let (r_c, r_d1, r_d2, r_e1, r_e2) = old(self).spec_blinds();
                final(self).spec_blinds() == (f_add(f_add(r_c, f_mul(r_e2, *gamma)), f_mul(r_e1, f_inv(*gamma))), r_d1, r_d2, r_e1, r_e2)
            }),
            final(self).spec_v1() == old(self).spec_v1(),
            final(self).spec_v2() == old(self).spec_v2(),
            final(self).spec_v2_scalars() == old(self).spec_v2_scalars(),
            final(self).spec_s1() == old(self).spec_s1(),
            final(self).spec_s2() == old(self).spec_s2(),
            final(self).spec_num_rounds() == 0,
            final(self).spec_setup() == old(self).spec_setup(),
            final(self).spec_round_blinds() == old(self).spec_round_blinds(),
            final(self).spec_round_blinds_4ary() == old(self).spec_round_blinds_4ary(),
    {
        proof {
            assert(pow2(0) == 1) by {
                vstd::arithmetic::power2::lemma2_to64();
            }
        }
        let gamma_inv = gamma.inv().expect("gamma must be invertible");
        let r_final1: Scalar<E> = M::sample();
        let r_final2: Scalar<E> = M::sample();

        let gamma_s1 = gamma.mul(&self.s1[0]).add(&r_final1);
        let e1 = self.v1[0].add(&self.setup.h1.scale(&gamma_s1));

        let gamma_inv_s2 = gamma_inv.mul(&self.s2[0]).add(&r_final2);
        let e2 = self.v2[0].add(&self.setup.h2.scale(&gamma_inv_s2));

        self.r_c = self.r_c.add(&self.r_e2.mul(gamma)).add(&self.r_e1.mul(&gamma_inv));

        let m = ScalarProductMessage { e1, e2 };
        proof {
            let st = old(self);
            assert(m == final_message_value::<E>(st.spec_v1()[0], st.spec_v2()[0], st.spec_s1()[0], st.spec_s2()[0],
                st.spec_setup(), *gamma, r_final1, r_final2));
        }
        m
    }
}

/// Verifier state of the opening protocol: the commitments accumulated so
/// far and the folded evaluation coordinates.
pub struct DoryVerifierState<E: PairingCurve> {
    c: E::GT,
    d1: E::GT,
    d2: E::GT,
    e1: E::G1,
    e2: E::G2,
    e1_init: E::G1,
    d2_init: E::GT,
    s1_acc: Scalar<E>,
    s2_acc: Scalar<E>,
    s1_coords: Vec<Scalar<E>>,
    s2_coords: Vec<Scalar<E>>,
    num_rounds: usize,
    setup: VerifierSetup<E>,
}

impl<E: PairingCurve> DoryVerifierState<E>
    where E::G2: Group<Scalar = Scalar<E>>, E::GT: Group<Scalar = Scalar<E>>,
{
    /// The accumulated `(C, D₁, D₂, E₁, E₂)`.
    pub closed spec fn spec_acc(&self) -> (E::GT, E::GT, E::GT, E::G1, E::G2) {
        (self.c, self.d1, self.d2, self.e1, self.e2)
    }

    /// The initial `E₁` and `D₂`, kept for the final check.
    pub closed spec fn spec_init(&self) -> (E::G1, E::GT) {
        (self.e1_init, self.d2_init)
    }

    /// The folded coordinates `(s₁, s₂)`.
    pub closed spec fn spec_s_acc(&self) -> (Scalar<E>, Scalar<E>) {
        (self.s1_acc, self.s2_acc)
    }

    pub closed spec fn spec_s1_coords(&self) -> Seq<Scalar<E>> {
        self.s1_coords@
    }

    pub closed spec fn spec_s2_coords(&self) -> Seq<Scalar<E>> {
        self.s2_coords@
    }

    pub closed spec fn spec_num_rounds(&self) -> nat {
        self.num_rounds as nat
    }

    pub closed spec fn spec_setup(&self) -> VerifierSetup<E> {
        self.setup
    }

    /// One coordinate of each side per round left.
    pub open spec fn wf(&self) -> bool {
        &&& self.spec_s1_coords().len() >= self.spec_num_rounds()
        &&& self.spec_s2_coords().len() >= self.spec_num_rounds()
    }

    /// The setup holds the per-round values of every round left.
    pub open spec fn setup_covers(&self) -> bool {
        let su = self.spec_setup();
        &&& su.chi@.len() > self.spec_num_rounds()
        &&& su.delta_1l@.len() > self.spec_num_rounds()
        &&& su.delta_1r@.len() > self.spec_num_rounds()
        &&& su.delta_2l@.len() > self.spec_num_rounds()
        &&& su.delta_2r@.len() > self.spec_num_rounds()
    }

    /// Nothing differs between `self` and `other`.
    pub open spec fn same(&self, other: &Self) -> bool {
        &&& self.spec_acc() == other.spec_acc()
        &&& self.spec_init() == other.spec_init()
        &&& self.spec_s_acc() == other.spec_s_acc()
        &&& self.spec_s1_coords() == other.spec_s1_coords()
        &&& self.spec_s2_coords() == other.spec_s2_coords()
        &&& self.spec_num_rounds() == other.spec_num_rounds()
        &&& self.spec_setup() == other.spec_setup()
    }

    /// A verifier starting from the initial commitments; `e1` and `d2` are
    /// also kept as they are for the final check, and both folded
    /// coordinates start at one.
    pub fn new(
        c: E::GT,
        d1: E::GT,
        d2: E::GT,
        e1: E::G1,
        e2: E::G2,
        s1_coords: Vec<Scalar<E>>,
        s2_coords: Vec<Scalar<E>>,
        num_rounds: usize,
        setup: VerifierSetup<E>,
    ) -> (r: Self)
        requires
            s1_coords@.len() == num_rounds,
            s2_coords@.len() == num_rounds,
        ensures
            r.wf(),
            r.spec_acc() == (c, d1, d2, e1, e2),
            r.spec_init() == (e1, d2),
            r.spec_s_acc() == (Scalar::<E>::spec_one(), Scalar::<E>::spec_one()),
            r.spec_s1_coords() == s1_coords@,
            r.spec_s2_coords() == s2_coords@,
            r.spec_num_rounds() == num_rounds,
            r.spec_setup() == setup,
    {
        Self {
            c,
            d1,
            d2,
            e1,
            e2,
            e1_init: e1,
            d2_init: d2,
            s1_acc: Scalar::<E>::one(),
            s2_acc: Scalar::<E>::one(),
            s1_coords,
            s2_coords,
            num_rounds,
            setup,
        }
    }

    /// The accumulators after one round with messages `m1`, `m2` and
    /// challenges `α`, `β`.
    pub open spec fn round_update(
        &self,
        m1: FirstReduceMessage<E::G1, E::G2, E::GT>,
        m2: SecondReduceMessage<E::G1, E::G2, E::GT>,
        alpha: Scalar<E>,
        beta: Scalar<E>,
    ) -> (E::GT, E::GT, E::GT, E::G1, E::G2) {
        verifier_round_update::<E>(self.spec_acc(), self.spec_setup(), self.spec_num_rounds() as int, m1, m2, alpha, beta)
    }

    /// Processes one round: with `α`, `β` invertible and a round left,
    /// updates `C`, `D₁`, `D₂`, `E₁`, `E₂` as `round_update` states, multiplies
    /// each folded coordinate by its round factor and counts the round;
    /// otherwise rejects the proof and changes nothing.
    pub fn process_round(
        &mut self,
        first_msg: &FirstReduceMessage<E::G1, E::G2, E::GT>,
        second_msg: &SecondReduceMessage<E::G1, E::G2, E::GT>,
        alpha: &Scalar<E>,
        beta: &Scalar<E>,
    ) -> (r: Result<(), DoryError>)
        requires
            old(self).wf(),
            old(self).spec_num_rounds() > 0 ==> old(self).setup_covers(),
        ensures
            r is Err <==> (old(self).spec_num_rounds() == 0 || !invertible(*alpha) || !invertible(*beta)),
            r is Err ==> r == Err::<(), DoryError>(DoryError::InvalidProof) && final(self).same(old(self)),
            r is Ok ==> processed_round::<E>(*old(self), *final(self), *first_msg, *second_msg, *alpha, *beta),
            r is Ok ==> ({
                let st = old(self);
                let k = st.spec_num_rounds() as int;
                let y = st.spec_s1_coords()[k - 1];
                let x = st.spec_s2_coords()[k - 1];
                &&& final(self).spec_acc() == st.round_update(*first_msg, *second_msg, *alpha, *beta)
                &&& final(self).spec_s_acc() == (
                    f_mul(st.spec_s_acc().0, coord_factor(*alpha, y)),
                    f_mul(st.spec_s_acc().1, coord_factor(f_inv(*alpha), x)),
                )
                &&& final(self).spec_num_rounds() == k - 1
                &&& final(self).spec_init() == st.spec_init()
                &&& final(self).spec_s1_coords() == st.spec_s1_coords()
                &&& final(self).spec_s2_coords() == st.spec_s2_coords()
                &&& final(self).spec_setup() == st.spec_setup()
                &&& final(self).wf()
                &&& final(self).setup_covers()
            }),
    {
        if self.num_rounds == 0 {
            return Err(DoryError::InvalidProof);
        }
        let alpha_inv = match alpha.inv() {
            Some(x) => x,
            None => {
                return Err(DoryError::InvalidProof);
            },
        };
        let beta_inv = match beta.inv() {
            Some(x) => x,
            None => {
                return Err(DoryError::InvalidProof);
            },
        };
        let alpha_beta = alpha.mul(beta);
        let alpha_inv_beta_inv = alpha_inv.mul(&beta_inv);
        let round = self.num_rounds;

        self.c = self.c.add(&self.setup.chi[round])
            .add(&self.d2.scale(beta))
            .add(&self.d1.scale(&beta_inv))
            .add(&second_msg.c_plus.scale(alpha))
            .add(&second_msg.c_minus.scale(&alpha_inv));

        self.d1 = first_msg.d1_left.scale(alpha)
            .add(&first_msg.d1_right)
            .add(&self.setup.delta_1l[round].scale(&alpha_beta))
            .add(&self.setup.delta_1r[round].scale(beta));

        self.d2 = first_msg.d2_left.scale(&alpha_inv)
            .add(&first_msg.d2_right)
            .add(&self.setup.delta_2l[round].scale(&alpha_inv_beta_inv))
            .add(&self.setup.delta_2r[round].scale(&beta_inv));

        self.e1 = self.e1.add(&first_msg.e1_beta.scale(beta))
            .add(&second_msg.e1_plus.scale(alpha))
            .add(&second_msg.e1_minus.scale(&alpha_inv));

        self.e2 = self.e2.add(&first_msg.e2_beta.scale(&beta_inv))
            .add(&second_msg.e2_plus.scale(alpha))
            .add(&second_msg.e2_minus.scale(&alpha_inv));

        let idx = round - 1;
        let y_t = self.s1_coords[idx];
        let x_t = self.s2_coords[idx];
        let one = Scalar::<E>::one();
        self.s1_acc = self.s1_acc.mul(&alpha.mul(&one.sub(&y_t)).add(&y_t));
        self.s2_acc = self.s2_acc.mul(&alpha_inv.mul(&one.sub(&x_t)).add(&x_t));

        self.num_rounds = self.num_rounds - 1;
        Ok(())
    }

    /// The accumulators `(C, D₁, D₂)` after a four-way round with message `m`
    /// and challenge `α` (invertible), for round number `k`.
    pub open spec fn round_update_4ary_d(&self, m: FirstReduceMessage4<E::G1, E::G2, E::GT>, alpha: Scalar<E>) -> (E::GT, E::GT, E::GT) {
        let k0 = self.spec_num_rounds() as int;
        let k1 = k0 - 1;
        let su = self.spec_setup();
        let c = coeffs4(alpha);
        let ci = coeffs4(f_inv(alpha));
        let one = Scalar::<E>::spec_one();
        let mut_c0 = g_add(g_add(self.spec_acc().0, su.chi@[k0]), su.chi@[k1]);
        let c_d1 = g_add(g_add(g_add(g_add(mut_c0, g_scale(m.d1@[0], c.0)), g_scale(m.d1@[1], c.1)), g_scale(m.d1@[2], c.2)), g_scale(m.d1@[3], c.3));
        let c_d2 = g_add(g_add(g_add(g_add(c_d1, g_scale(m.d2@[0], ci.0)), g_scale(m.d2@[1], ci.1)), g_scale(m.d2@[2], ci.2)), g_scale(m.d2@[3], ci.3));
        let new_c = g_add(g_add(g_add(g_add(c_d2, g_scale(m.c_raw@[0], c.0)), g_scale(m.c_raw@[5], c.1)), g_scale(m.c_raw@[10], c.2)), g_scale(m.c_raw@[15], c.3));
        let new_d1 = g_add(g_add(g_add(g_add(g_add(g_add(g_add(
            g_scale(m.d1@[0], c.0), g_scale(m.d1@[1], c.1)), g_scale(m.d1@[2], c.2)), g_scale(m.d1@[3], c.3)),
            g_scale(su.delta_1l@[k0], c.0)), g_scale(su.delta_1r@[k0], c.1)),
            g_scale(su.delta_1l@[k1], alpha)), g_scale(su.delta_1r@[k1], one));
        let new_d2 = g_add(g_add(g_add(g_add(g_add(g_add(g_add(
            g_scale(m.d2@[0], ci.0), g_scale(m.d2@[1], ci.1)), g_scale(m.d2@[2], ci.2)), g_scale(m.d2@[3], ci.3)),
            g_scale(su.delta_2l@[k0], ci.0)), g_scale(su.delta_2r@[k0], ci.1)),
            g_scale(su.delta_2l@[k1], ci.2)), g_scale(su.delta_2r@[k1], one));
        (new_c, new_d1, new_d2)
    }

    /// Processes a four-way round, which consumes two rounds: with `α`
    /// invertible and two rounds left, updates `C`, `D₁`, `D₂` as
    /// `round_update_4ary_d` states, adds `β·E₁β` and `β⁻¹·E₂β` and every
    /// cross term weighted by `cᵢ·c'ⱼ` to `E₁` and `E₂`, and multiplies each
    /// folded coordinate by the factors of both rounds; otherwise rejects the
    /// proof and changes nothing. The `C` update takes only the diagonal raw
    /// pairings, so it does not follow the pairing of the prover's folded
    /// vectors as the binary round does.
    pub fn process_round_4ary(
        &mut self,
        first_msg: &FirstReduceMessage4<E::G1, E::G2, E::GT>,
        alpha: &Scalar<E>,
        beta: &Scalar<E>,
    ) -> (r: Result<(), DoryError>)
        requires
            old(self).wf(),
            old(self).spec_num_rounds() >= 2 ==> old(self).setup_covers(),
            old(self).spec_num_rounds() >= 2 && invertible(*alpha) ==> invertible(*beta),
        ensures
            r is Err <==> (old(self).spec_num_rounds() < 2 || !invertible(*alpha)),
            r is Err ==> r == Err::<(), DoryError>(DoryError::InvalidProof) && final(self).same(old(self)),
            r is Ok ==> coords_folded_4ary::<E>(*old(self), *final(self), *alpha),
            r is Ok ==> ({
                let st = old(self);
                let k = st.spec_num_rounds() as int;
                let c = coeffs4(*alpha);
                let ci = coeffs4(f_inv(*alpha));
                let (y0, x0) = (st.spec_s1_coords()[k - 1], st.spec_s2_coords()[k - 1]);
                let (y1, x1) = (st.spec_s1_coords()[k - 2], st.spec_s2_coords()[k - 2]);
                let (new_c, new_d1, new_d2) = st.round_update_4ary_d(*first_msg, *alpha);
                let e1_start = g_add(st.spec_acc().3, g_scale(first_msg.e1_beta, *beta));
                let e2_start = g_add(st.spec_acc().4, g_scale(first_msg.e2_beta, f_inv(*beta)));
                &&& final(self).spec_acc() == (
                    new_c,
                    new_d1,
                    new_d2,
                    cross_sum(e1_start, first_msg.e1_cross@, coeff_seq(c), coeff_seq(ci), 16),
                    cross_sum(e2_start, first_msg.e2_cross@, coeff_seq(c), coeff_seq(ci), 16),
                )
                &&& final(self).spec_s_acc() == (
                    f_mul(f_mul(st.spec_s_acc().0, coord_factor(*alpha, y0)), coord_factor(*alpha, y1)),
                    f_mul(f_mul(st.spec_s_acc().1, coord_factor(f_inv(*alpha), x0)), coord_factor(f_inv(*alpha), x1)),
                )
                &&& final(self).spec_num_rounds() == k - 2
                &&& final(self).spec_init() == st.spec_init()
                &&& final(self).spec_s1_coords() == st.spec_s1_coords()
                &&& final(self).spec_s2_coords() == st.spec_s2_coords()
                &&& final(self).spec_setup() == st.spec_setup()
                &&& final(self).wf()
                &&& final(self).setup_covers()
            }),
    {
        if self.num_rounds < 2 {
            return Err(DoryError::InvalidProof);
        }
        let alpha_inv = match alpha.inv() {
            Some(x) => x,
            None => {
                return Err(DoryError::InvalidProof);
            },
        };
        let coeff = fold_coefficients(alpha);
        let coeff_inv = fold_coefficients(&alpha_inv);
        let alpha_sq = coeff.1;
        let alpha_cu = coeff.0;
        let alpha_inv_sq = coeff_inv.1;
        let alpha_inv_cu = coeff_inv.0;

        let round_0 = self.num_rounds;
        let round_1 = round_0 - 1;
        let beta_inv = beta.inv().expect("beta must be invertible");
        let one = Scalar::<E>::one();

        let mut new_c = self.c.add(&self.setup.chi[round_0]).add(&self.setup.chi[round_1]);
        new_c = new_c.add(&first_msg.d1[0].scale(&coeff.0));
        new_c = new_c.add(&first_msg.d1[1].scale(&coeff.1));
        new_c = new_c.add(&first_msg.d1[2].scale(&coeff.2));
        new_c = new_c.add(&first_msg.d1[3].scale(&coeff.3));
        new_c = new_c.add(&first_msg.d2[0].scale(&coeff_inv.0));
        new_c = new_c.add(&first_msg.d2[1].scale(&coeff_inv.1));
        new_c = new_c.add(&first_msg.d2[2].scale(&coeff_inv.2));
        new_c = new_c.add(&first_msg.d2[3].scale(&coeff_inv.3));
        new_c = new_c.add(&first_msg.c_raw[0].scale(&coeff.0));
        new_c = new_c.add(&first_msg.c_raw[5].scale(&coeff.1));
        new_c = new_c.add(&first_msg.c_raw[10].scale(&coeff.2));
        new_c = new_c.add(&first_msg.c_raw[15].scale(&coeff.3));

        let new_d1 = first_msg.d1[0].scale(&coeff.0)
            .add(&first_msg.d1[1].scale(&coeff.1))
            .add(&first_msg.d1[2].scale(&coeff.2))
            .add(&first_msg.d1[3].scale(&coeff.3))
            .add(&self.setup.delta_1l[round_0].scale(&alpha_cu))
            .add(&self.setup.delta_1r[round_0].scale(&alpha_sq))
            .add(&self.setup.delta_1l[round_1].scale(alpha))
            .add(&self.setup.delta_1r[round_1].scale(&one));

        let new_d2 = first_msg.d2[0].scale(&coeff_inv.0)
            .add(&first_msg.d2[1].scale(&coeff_inv.1))
            .add(&first_msg.d2[2].scale(&coeff_inv.2))
            .add(&first_msg.d2[3].scale(&coeff_inv.3))
            .add(&self.setup.delta_2l[round_0].scale(&alpha_inv_cu))
            .add(&self.setup.delta_2r[round_0].scale(&alpha_inv_sq))
            .add(&self.setup.delta_2l[round_1].scale(&alpha_inv))
            .add(&self.setup.delta_2r[round_1].scale(&one));

        self.c = new_c;
        self.d1 = new_d1;
        self.d2 = new_d2;

        let e1_coeff = [coeff.0, coeff.1, coeff.2, coeff.3];
        let e1_coeff_inv = [coeff_inv.0, coeff_inv.1, coeff_inv.2, coeff_inv.3];
        proof {
            assert(e1_coeff@ =~= coeff_seq(coeff));
            assert(e1_coeff_inv@ =~= coeff_seq(coeff_inv));
        }
        self.e1 = self.e1.add(&first_msg.e1_beta.scale(beta));
        let ghost e1_start = self.e1;
        let mut i: usize = 0;
        while i < 4
            invariant
                i <= 4,
                e1_coeff@ == coeff_seq(coeff),
                e1_coeff_inv@ == coeff_seq(coeff_inv),
                self.e1 == cross_sum(e1_start, first_msg.e1_cross@, e1_coeff@, e1_coeff_inv@, 4 * i as nat),
                self.c == new_c,
                self.d1 == new_d1,
                self.d2 == new_d2,
                self.e2 == old(self).e2,
                self.e1_init == old(self).e1_init,
                self.d2_init == old(self).d2_init,
                self.s1_acc == old(self).s1_acc,
                self.s2_acc == old(self).s2_acc,
                self.s1_coords == old(self).s1_coords,
                self.s2_coords == old(self).s2_coords,
                self.num_rounds == old(self).num_rounds,
                self.setup == old(self).setup,
            decreases 4 - i,
        {
            let mut j: usize = 0;
            while j < 4
                invariant
                    i < 4,
                    j <= 4,
                    e1_coeff@ == coeff_seq(coeff),
                    e1_coeff_inv@ == coeff_seq(coeff_inv),
                    self.e1 == cross_sum(e1_start, first_msg.e1_cross@, e1_coeff@, e1_coeff_inv@, (4 * i + j) as nat),
                    self.c == new_c,
                    self.d1 == new_d1,
                    self.d2 == new_d2,
                    self.e2 == old(self).e2,
                    self.e1_init == old(self).e1_init,
                    self.d2_init == old(self).d2_init,
                    self.s1_acc == old(self).s1_acc,
                    self.s2_acc == old(self).s2_acc,
                    self.s1_coords == old(self).s1_coords,
                    self.s2_coords == old(self).s2_coords,
                    self.num_rounds == old(self).num_rounds,
                    self.setup == old(self).setup,
                decreases 4 - j,
            {
                let idx = i * 4 + j;
                proof {
                    lemma_index4(i as int, j as int);
                }
                let c_coeff = e1_coeff[i].mul(&e1_coeff_inv[j]);
                self.e1 = self.e1.add(&first_msg.e1_cross[idx].scale(&c_coeff));
                j = j + 1;
            }
            i = i + 1;
        }

        self.e2 = self.e2.add(&first_msg.e2_beta.scale(&beta_inv));
        let ghost e2_start = self.e2;
        let ghost e1_final = self.e1;
        let mut i: usize = 0;
        while i < 4
            invariant
                i <= 4,
                e1_coeff@ == coeff_seq(coeff),
                e1_coeff_inv@ == coeff_seq(coeff_inv),
                self.e2 == cross_sum(e2_start, first_msg.e2_cross@, e1_coeff@, e1_coeff_inv@, 4 * i as nat),
                self.c == new_c,
                self.d1 == new_d1,
                self.d2 == new_d2,
                self.e1 == e1_final,
                self.e1_init == old(self).e1_init,
                self.d2_init == old(self).d2_init,
                self.s1_acc == old(self).s1_acc,
                self.s2_acc == old(self).s2_acc,
                self.s1_coords == old(self).s1_coords,
                self.s2_coords == old(self).s2_coords,
                self.num_rounds == old(self).num_rounds,
                self.setup == old(self).setup,
            decreases 4 - i,
        {
            let mut j: usize = 0;
            while j < 4
                invariant
                    i < 4,
                    j <= 4,
                    e1_coeff@ == coeff_seq(coeff),
                    e1_coeff_inv@ == coeff_seq(coeff_inv),
                    self.e2 == cross_sum(e2_start, first_msg.e2_cross@, e1_coeff@, e1_coeff_inv@, (4 * i + j) as nat),
                    self.c == new_c,
                    self.d1 == new_d1,
                    self.d2 == new_d2,
                    self.e1 == e1_final,
                    self.e1_init == old(self).e1_init,
                    self.d2_init == old(self).d2_init,
                    self.s1_acc == old(self).s1_acc,
                    self.s2_acc == old(self).s2_acc,
                    self.s1_coords == old(self).s1_coords,
                    self.s2_coords == old(self).s2_coords,
                    self.num_rounds == old(self).num_rounds,
                    self.setup == old(self).setup,
                decreases 4 - j,
            {
                let idx = i * 4 + j;
                proof {
                    lemma_index4(i as int, j as int);
                }
                let c_coeff = e1_coeff[i].mul(&e1_coeff_inv[j]);
                self.e2 = self.e2.add(&first_msg.e2_cross[idx].scale(&c_coeff));
                j = j + 1;
            }
            i = i + 1;
        }

        let idx0 = round_0 - 1;
        let idx1 = round_1 - 1;
        let y_t0 = self.s1_coords[idx0];
        let x_t0 = self.s2_coords[idx0];
        let y_t1 = self.s1_coords[idx1];
        let x_t1 = self.s2_coords[idx1];

        let fold0 = alpha.mul(&one.sub(&y_t0)).add(&y_t0);
        let fold1 = alpha.mul(&one.sub(&y_t1)).add(&y_t1);
        self.s1_acc = self.s1_acc.mul(&fold0).mul(&fold1);

        let fold0_inv = alpha_inv.mul(&one.sub(&x_t0)).add(&x_t0);
        let fold1_inv = alpha_inv.mul(&one.sub(&x_t1)).add(&x_t1);
        self.s2_acc = self.s2_acc.mul(&fold0_inv).mul(&fold1_inv);

        self.num_rounds = self.num_rounds - 2;
        Ok(())
    }

    /// Both sides of the transparent final check for the final message
    /// `msg` and challenges `γ`, `d`, as `final_check_sides` gives them for
    /// this state.
    pub open spec fn transparent_sides(&self, msg: ScalarProductMessage<E::G1, E::G2>, gamma: Scalar<E>, d: Scalar<E>) -> (E::GT, E::GT) {
        final_check_sides::<E>(self.spec_acc(), self.spec_init(), self.spec_s_acc(), self.spec_setup(), msg, gamma, d)
    }

    /// Both sides of the zero-knowledge final check for the proof `sp`,
    /// its challenge `c` and the final challenge `d` (invertible).
    pub open spec fn zk_sides(&self, sp: ScalarProductProof<E::G1, E::G2, Scalar<E>, E::GT>, c: Scalar<E>, d: Scalar<E>) -> (E::GT, E::GT) {
        let su = self.spec_setup();
        let (acc_c, d1, d2, _e1, _e2) = self.spec_acc();
        let di = f_inv(d);
        let lhs = E::spec_pair(g_add(sp.e1, g_scale(su.g1_0, d)), g_add(sp.e2, g_scale(su.g2_0, di)));
        let ht_scalar = f_add(f_add(sp.r3, f_mul(d, sp.r2)), f_mul(di, sp.r1));
        let r0 = g_add(g_add(g_add(su.chi@[0], sp.r), g_scale(sp.q, c)), g_scale(acc_c, f_mul(c, c)));
        let r1 = g_add(g_add(r0, g_scale(sp.p2, d)), g_scale(d2, f_mul(d, c)));
        let r2 = g_add(g_add(r1, g_scale(sp.p1, di)), g_scale(d1, f_mul(di, c)));
        let rhs = g_add(r2, <E::GT as Group>::spec_inverse(g_scale(su.ht, ht_scalar)));
        (lhs, rhs)
    }

    /// The final check, after every round: rejects when `d` (or, without a
    /// zero-knowledge proof, `γ`) has no inverse; otherwise accepts exactly
    /// when the two sides of the check are equal — those of
    /// `transparent_sides`, or of `zk_sides` when a zero-knowledge proof and
    /// its challenge are given.
    pub fn verify_final(
        &self,
        msg: &ScalarProductMessage<E::G1, E::G2>,
        gamma: &Scalar<E>,
        d: &Scalar<E>,
        zk_data: Option<(&ScalarProductProof<E::G1, E::G2, Scalar<E>, E::GT>, &Scalar<E>)>,
    ) -> (r: Result<(), DoryError>)
        requires
            self.spec_num_rounds() == 0,
            self.spec_setup().chi@.len() > 0,
        ensures
            r is Err ==> r == Err::<(), DoryError>(DoryError::InvalidProof),
            !invertible(*d) ==> r is Err,
            invertible(*d) ==> match zk_data {
                Some((sp, c)) => {
                    let (lhs, rhs) = self.zk_sides(*sp, *c, *d);
                    <E::GT as PartialEqSpec>::obeys_eq_spec() ==> (r is Ok <==> lhs.eq_spec(&rhs))
                },
                None => {
                    &&& (!invertible(*gamma) ==> r is Err)
                    &&& (invertible(*gamma) ==> {
                        let (lhs, rhs) = self.transparent_sides(*msg, *gamma, *d);
                        <E::GT as PartialEqSpec>::obeys_eq_spec() ==> (r is Ok <==> lhs.eq_spec(&rhs))
                    })
                },
            },
    {
        let d_inv = match d.inv() {
            Some(x) => x,
            None => {
                return Err(DoryError::InvalidProof);
            },
        };

        match zk_data {
            Some((sp, sigma_c)) => {
                let c = *sigma_c;
                let c_sq = c.mul(&c);
                let lhs = E::pair(
                    &sp.e1.add(&self.setup.g1_0.scale(d)),
                    &sp.e2.add(&self.setup.g2_0.scale(&d_inv)),
                );
                let ht_scalar = sp.r3.add(&d.mul(&sp.r2)).add(&d_inv.mul(&sp.r1));
                let mut rhs = self.setup.chi[0].add(&sp.r).add(&sp.q.scale(&c)).add(&self.c.scale(&c_sq));
                rhs = rhs.add(&sp.p2.scale(d)).add(&self.d2.scale(&d.mul(&c)));
                rhs = rhs.add(&sp.p1.scale(&d_inv)).add(&self.d1.scale(&d_inv.mul(&c)));
                rhs = rhs.add(&self.setup.ht.scale(&ht_scalar).neg());
                if lhs == rhs {
                    Ok(())
                } else {
                    Err(DoryError::InvalidProof)
                }
            },
            None => {
                let gamma_inv = match gamma.inv() {
                    Some(x) => x,
                    None => {
                        return Err(DoryError::InvalidProof);
                    },
                };
                let d_sq = d.mul(d);
                let neg_gamma = gamma.neg();
                let neg_gamma_inv = gamma_inv.neg();

                let s_product = self.s1_acc.mul(&self.s2_acc);
                let rhs = self.c
                    .add(&self.setup.ht.scale(&s_product))
                    .add(&self.setup.chi[0])
                    .add(&self.d2.scale(d))
                    .add(&self.d1.scale(&d_inv))
                    .add(&self.d2_init.scale(&d_sq));

                let p1_g1 = msg.e1.add(&self.setup.g1_0.scale(d));
                let p1_g2 = msg.e2.add(&self.setup.g2_0.scale(&d_inv));
                let p2_g1 = self.setup.h1;
                let p2_g2 = self.e2.add(&self.setup.g2_0.scale(&d_inv.mul(&self.s1_acc))).scale(&neg_gamma);
                let p3_g1 = self.e1.add(&self.setup.g1_0.scale(&d.mul(&self.s2_acc))).scale(&neg_gamma_inv);
                let p3_g2 = self.setup.h2;
                let p4_g1 = self.e1_init.scale(&d_sq);
                let p4_g2 = self.setup.g2_0;

                let ps = [p1_g1, p2_g1, p3_g1, p4_g1];
                let qs = [p1_g2, p2_g2, p3_g2, p4_g2];
                let lhs = E::multi_pair(ps.as_slice(), qs.as_slice());
                proof {
                    let (l, rr) = self.transparent_sides(*msg, *gamma, *d);
                    assert(ps@ =~= seq![p1_g1, p2_g1, p3_g1, p4_g1]);
                    assert(qs@ =~= seq![p1_g2, p2_g2, p3_g2, p4_g2]);
                    assert(lhs == l);
                    assert(rhs == rr);
                }
                if lhs == rhs {
                    Ok(())
                } else {
                    Err(DoryError::InvalidProof)
                }
            },
        }
    }
}

/// `next` is `st` after a four-way round with challenge `α`, as far as the
/// folded coordinates go: two rounds were left and are consumed, `s₁` is
/// multiplied by `α·(1 − y) + y` for the coordinates `y` of both rounds
/// (the last left first) and `s₂` by `α⁻¹·(1 − x) + x` likewise, and the
/// coordinates are unchanged.
pub open spec fn coords_folded_4ary<E: PairingCurve>(st: DoryVerifierState<E>, next: DoryVerifierState<E>, alpha: Scalar<E>) -> bool
    where E::G2: Group<Scalar = Scalar<E>>, E::GT: Group<Scalar = Scalar<E>>,
{
    let k = st.spec_num_rounds() as int;
    let ai = f_inv(alpha);
    &&& k >= 2
    &&& next.spec_s_acc() == (
        f_mul(f_mul(st.spec_s_acc().0, coord_factor(alpha, st.spec_s1_coords()[k - 1])), coord_factor(alpha, st.spec_s1_coords()[k - 2])),
        f_mul(f_mul(st.spec_s_acc().1, coord_factor(ai, st.spec_s2_coords()[k - 1])), coord_factor(ai, st.spec_s2_coords()[k - 2])),
    )
    &&& next.spec_num_rounds() == k - 2
    &&& next.spec_s1_coords() == st.spec_s1_coords()
    &&& next.spec_s2_coords() == st.spec_s2_coords()
}

/// `next` is `st` after `process_round` accepted the messages `m1`, `m2`
/// with challenges `α`, `β`: a round was left, the accumulators are
/// `round_update`'s, each folded coordinate is multiplied by its round
/// factor — `s₁` by `α·(1 − y) + y` and `s₂` by `α⁻¹·(1 − x) + x` for the
/// coordinates `y`, `x` of the last round left — and one round fewer is
/// left, with the rest unchanged.
pub open spec fn processed_round<E: PairingCurve>(
    st: DoryVerifierState<E>,
    next: DoryVerifierState<E>,
    m1: FirstReduceMessage<E::G1, E::G2, E::GT>,
    m2: SecondReduceMessage<E::G1, E::G2, E::GT>,
    alpha: Scalar<E>,
    beta: Scalar<E>,
) -> bool
    where E::G2: Group<Scalar = Scalar<E>>, E::GT: Group<Scalar = Scalar<E>>,
{
    let k = st.spec_num_rounds() as int;
    &&& k > 0
    &&& next.spec_acc() == st.round_update(m1, m2, alpha, beta)
    &&& next.spec_s_acc() == (
        f_mul(st.spec_s_acc().0, coord_factor(alpha, st.spec_s1_coords()[k - 1])),
        f_mul(st.spec_s_acc().1, coord_factor(f_inv(alpha), st.spec_s2_coords()[k - 1])),
    )
    &&& next.spec_num_rounds() == k - 1
    &&& next.spec_init() == st.spec_init()
    &&& next.spec_s1_coords() == st.spec_s1_coords()
    &&& next.spec_s2_coords() == st.spec_s2_coords()
    &&& next.spec_setup() == st.spec_setup()
}

/// `a` and `b` hold the same generators.
pub open spec fn same_setup<E: PairingCurve>(a: ProverSetup<E>, b: ProverSetup<E>) -> bool {
    &&& a.g1_vec@ == b.g1_vec@
    &&& a.g2_vec@ == b.g2_vec@
    &&& a.h1 == b.h1
    &&& a.h2 == b.h2
    &&& a.ht == b.ht
}

/// An entry-for-entry copy of the optional vector `v`.
fn copy_opt_vec<T: Copy>(v: &Option<Vec<T>>) -> (r: Option<Vec<T>>)
    ensures
        match (r, *v) {
            (Some(a), Some(b)) => a@ == b@,
            (None, None) => true,
            _ => false,
        },
{
    match v {
        Some(x) => Some(copy_vec(x)),
        None => None,
    }
}

/// Prover state that owns its setup, so that it can be copied at a
/// challenge and both copies carried on independently.
pub struct ForkableDoryProverState<E: PairingCurve, M: Mode = Transparent> {
    v1: Vec<E::G1>,
    v2: Vec<E::G2>,
    v2_scalars: Option<Vec<Scalar<E>>>,
    s1: Vec<Scalar<E>>,
    s2: Vec<Scalar<E>>,
    num_rounds: usize,
    setup: ProverSetup<E>,
    r_c: Scalar<E>,
    r_d1: Scalar<E>,
    r_d2: Scalar<E>,
    r_e1: Scalar<E>,
    r_e2: Scalar<E>,
    round_d1: [Scalar<E>; 2],
    round_d2: [Scalar<E>; 2],
    round_c: [Scalar<E>; 2],
    round_e1: [Scalar<E>; 2],
    round_e2: [Scalar<E>; 2],
    round_d1_4ary: [Scalar<E>; 4],
    round_d2_4ary: [Scalar<E>; 4],
    round_c_4ary: [Scalar<E>; 16],
    round_e1_4ary: [Scalar<E>; 16],
    round_e2_4ary: [Scalar<E>; 16],
    _mode: PhantomData<M>,
}

impl<E: PairingCurve, M: Mode> ForkableDoryProverState<E, M>
    where E::G2: Group<Scalar = Scalar<E>>, E::GT: Group<Scalar = Scalar<E>>,
{    pub closed spec fn spec_v1(&self) -> Seq<E::G1> {
        self.v1@
    }

    pub closed spec fn spec_v2(&self) -> Seq<E::G2> {
        self.v2@
    }

    /// When present, `v2[i] = v2_scalars[i]·Γ₂[0]`, which lets the first round
    /// use one multi-scalar multiplication in place of a pairing product.
    pub closed spec fn spec_v2_scalars(&self) -> Option<Seq<Scalar<E>>> {
        match self.v2_scalars {
            Some(sc) => Some(sc@),
            None => None,
        }
    }

    pub closed spec fn spec_s1(&self) -> Seq<Scalar<E>> {
        self.s1@
    }

    pub closed spec fn spec_s2(&self) -> Seq<Scalar<E>> {
        self.s2@
    }

    pub closed spec fn spec_num_rounds(&self) -> nat {
        self.num_rounds as nat
    }

    pub closed spec fn spec_setup(&self) -> ProverSetup<E> {
        self.setup
    }

    /// The accumulated blinds `(r_c, r_d1, r_d2, r_e1, r_e2)`.
    pub closed spec fn spec_blinds(&self) -> (Scalar<E>, Scalar<E>, Scalar<E>, Scalar<E>, Scalar<E>) {
        (self.r_c, self.r_d1, self.r_d2, self.r_e1, self.r_e2)
    }

    /// The blinds of the current binary round: `d1`, `d2`, `c`, `e1`, `e2`.
    pub closed spec fn spec_round_blinds(&self) -> ([Scalar<E>; 2], [Scalar<E>; 2], [Scalar<E>; 2], [Scalar<E>; 2], [Scalar<E>; 2]) {
        (self.round_d1, self.round_d2, self.round_c, self.round_e1, self.round_e2)
    }

    /// The blinds of the current four-way round: `d1`, `d2`, `c`, `e1`, `e2`.
    pub closed spec fn spec_round_blinds_4ary(&self) -> ([Scalar<E>; 4], [Scalar<E>; 4], [Scalar<E>; 16], [Scalar<E>; 16], [Scalar<E>; 16]) {
        (self.round_d1_4ary, self.round_d2_4ary, self.round_c_4ary, self.round_e1_4ary, self.round_e2_4ary)
    }

    /// The length of the vectors: `2^num_rounds`.
    pub open spec fn len(&self) -> nat {
        pow2(self.spec_num_rounds())
    }

    /// All four vectors have length `2^num_rounds`, and the scalars behind
    /// `v2`, when kept, at least that many entries.
    pub open spec fn wf(&self) -> bool {
        &&& self.spec_num_rounds() < 64
        &&& self.spec_v1().len() == self.len()
        &&& self.spec_v2().len() == self.len()
        &&& self.spec_s1().len() == self.len()
        &&& self.spec_s2().len() == self.len()
        &&& (self.spec_v2_scalars() matches Some(sc) ==> sc.len() >= self.len())
    }

    /// The setup holds at least `2^num_rounds` generators of each group.
    pub open spec fn setup_covers(&self) -> bool {
        &&& self.spec_setup().g1_vec@.len() >= self.len()
        &&& self.spec_setup().g2_vec@.len() >= self.len()
    }

    /// Only the blinds of the current round differ between `self` and `other`.
    pub open spec fn same_but_round_blinds(&self, other: &Self) -> bool {
        &&& self.spec_v1() == other.spec_v1()
        &&& self.spec_v2() == other.spec_v2()
        &&& self.spec_v2_scalars() == other.spec_v2_scalars()
        &&& self.spec_s1() == other.spec_s1()
        &&& self.spec_s2() == other.spec_s2()
        &&& self.spec_num_rounds() == other.spec_num_rounds()
        &&& self.spec_setup() == other.spec_setup()
        &&& self.spec_blinds() == other.spec_blinds()
    }

    /// Sets the blinds of the initial commitments.
    pub fn set_initial_blinds(
        &mut self,
        r_d1: Scalar<E>,
        r_c: Scalar<E>,
        r_d2: Scalar<E>,
        r_e1: Scalar<E>,
        r_e2: Scalar<E>,
    )
        ensures
            final(self).spec_blinds() == (r_c, r_d1, r_d2, r_e1, r_e2),
            final(self).spec_v1() == old(self).spec_v1(),
            final(self).spec_v2() == old(self).spec_v2(),
            final(self).spec_v2_scalars() == old(self).spec_v2_scalars(),
            final(self).spec_s1() == old(self).spec_s1(),
            final(self).spec_s2() == old(self).spec_s2(),
            final(self).spec_num_rounds() == old(self).spec_num_rounds(),
            final(self).spec_setup() == old(self).spec_setup(),
            final(self).spec_round_blinds() == old(self).spec_round_blinds(),
            final(self).spec_round_blinds_4ary() == old(self).spec_round_blinds_4ary(),
    {
        self.r_d1 = r_d1;
        self.r_c = r_c;
        self.r_d2 = r_d2;
        self.r_e1 = r_e1;
        self.r_e2 = r_e2;
    }

    /// `D₂` of the half `lo..hi` of `v2`.
    fn d2_half<M1: DoryRoutines<E::G1>>(&self, g1_prime: &[E::G1], lo: usize, hi: usize) -> (r: E::GT)
        requires
            self.wf(),
            self.setup_covers(),
            0 <= lo <= hi <= self.len(),
            g1_prime@.len() == hi - lo,
        ensures
            r == d2_base::<E>(self.spec_v2(), self.spec_v2_scalars(), g1_prime@, self.spec_setup().g2_vec@[0], lo as int, hi as int),
    {
        proof {
            vstd::arithmetic::power2::lemma_pow2_pos(self.spec_num_rounds());
        }
        match &self.v2_scalars {
            Some(scalars) => {
                let s_half = slice_subrange(scalars.as_slice(), lo, hi);
                let sum = M1::msm(g1_prime, s_half);
                let g2_fin = &self.setup.g2_vec[0];
                E::pair(&sum, g2_fin)
            },
            None => {
                let v2_half = slice_subrange(self.v2.as_slice(), lo, hi);
                E::multi_pair_g1_setup(g1_prime, v2_half)
            },
        }
    }

    /// The first message of a round: `D₁` and `D₂` of both halves against
    /// the first half of the generators, masked with fresh blinds, and the
    /// products `E₁β = ⟨Γ₁, s₂⟩`, `E₂β = ⟨Γ₂, s₁⟩`.
    pub fn compute_first_message<M1, M2>(&mut self) -> (m: FirstReduceMessage<E::G1, E::G2, E::GT>)
        where
            M1: DoryRoutines<E::G1>,
            M2: DoryRoutines<E::G2>,
        requires
            old(self).wf(),
            old(self).setup_covers(),
            old(self).spec_num_rounds() > 0,
        ensures
            final(self).same_but_round_blinds(old(self)),
            final(self).spec_round_blinds().2 == old(self).spec_round_blinds().2,
            final(self).spec_round_blinds().3 == old(self).spec_round_blinds().3,
            final(self).spec_round_blinds().4 == old(self).spec_round_blinds().4,
            final(self).spec_round_blinds_4ary() == old(self).spec_round_blinds_4ary(),
            !M::blinds() ==> filled(final(self).spec_round_blinds().0, Scalar::<E>::spec_zero()),
            !M::blinds() ==> filled(final(self).spec_round_blinds().1, Scalar::<E>::spec_zero()),
            m == first_message_value::<E>(M::blinds(), old(self).spec_v1(), old(self).spec_v2(), old(self).spec_v2_scalars(),
                old(self).spec_s1(), old(self).spec_s2(), old(self).spec_setup(),
                final(self).spec_round_blinds().0, final(self).spec_round_blinds().1),
    {
        let n = self.v1.len();
        let n2 = n / 2;
        proof {
            lemma_pow2_unfold(self.num_rounds as nat);
        }
        let (v1_l, v1_r) = self.v1.as_slice().split_at(n2);
        let g1_prime = slice_subrange(self.setup.g1_vec.as_slice(), 0, n2);
        let g2_prime = slice_subrange(self.setup.g2_vec.as_slice(), 0, n2);

        self.round_d1 = [M::sample(), M::sample()];
        self.round_d2 = [M::sample(), M::sample()];

        let ht = &self.setup.ht;
        let rd1 = self.round_d1;
        let rd2 = self.round_d2;
        let g1_full = slice_subrange(self.setup.g1_vec.as_slice(), 0, n);
        let g2_full = slice_subrange(self.setup.g2_vec.as_slice(), 0, n);

        let d1_left = M::mask(E::multi_pair_g2_setup(v1_l, g2_prime), ht, &rd1[0]);
        let d1_right = M::mask(E::multi_pair_g2_setup(v1_r, g2_prime), ht, &rd1[1]);
        let d2_left_base = self.d2_half::<M1>(g1_prime, 0, n2);
        let d2_right_base = self.d2_half::<M1>(g1_prime, n2, n);
        let d2_left = M::mask(d2_left_base, ht, &rd2[0]);
        let d2_right = M::mask(d2_right_base, ht, &rd2[1]);
        let e1_beta = M1::msm(g1_full, self.s2.as_slice());
        let e2_beta = M2::msm(g2_full, self.s1.as_slice());

        FirstReduceMessage { d1_left, d1_right, d2_left, d2_right, e1_beta, e2_beta }
    }

    /// Applies the first challenge `β`: `v₁ += β·Γ₁`, `v₂ += β⁻¹·Γ₂`, forgets
    /// the scalars behind `v₂`, and folds the `D` blinds into `r_c`.
    pub fn apply_first_challenge<M1, M2>(&mut self, beta: &Scalar<E>)
        where
            M1: DoryRoutines<E::G1>,
            M2: DoryRoutines<E::G2>,
        requires
            old(self).wf(),
            old(self).setup_covers(),
            invertible(*beta),
        ensures
            final(self).wf(),
            final(self).spec_v1() == shift_by(old(self).spec_v1(), old(self).spec_setup().g1_vec@, *beta),
            final(self).spec_v2() == shift_by(old(self).spec_v2(), old(self).spec_setup().g2_vec@, f_inv(*beta)),
            final(self).spec_v2_scalars() is None,
            final(self).spec_s1() == old(self).spec_s1(),
            final(self).spec_s2() == old(self).spec_s2(),
            final(self).spec_num_rounds() == old(self).spec_num_rounds(),
            final(self).spec_setup() == old(self).spec_setup(),
            ({
                let (r_c, r_d1, r_d2, r_e1, r_e2) = old(self).spec_blinds();
                final(self).spec_blinds() == (f_add(f_add(r_c, f_mul(r_d2, *beta)), f_mul(r_d1, f_inv(*beta))), r_d1, r_d2, r_e1, r_e2)
            }),
            final(self).spec_round_blinds() == old(self).spec_round_blinds(),
            final(self).spec_round_blinds_4ary() == old(self).spec_round_blinds_4ary(),
    {
        let beta_inv = beta.inv().expect("beta must be invertible");
        let n = self.v1.len();
        let g1_slice = slice_subrange(self.setup.g1_vec.as_slice(), 0, n);
        let g2_slice = slice_subrange(self.setup.g2_vec.as_slice(), 0, n);
        M1::fixed_scalar_mul_bases_then_add(g1_slice, self.v1.as_mut_slice(), beta);
        M2::fixed_scalar_mul_bases_then_add(g2_slice, self.v2.as_mut_slice(), &beta_inv);
        self.v2_scalars = None;
        self.r_c = self.r_c.add(&self.r_d2.mul(beta)).add(&self.r_d1.mul(&beta_inv));
        proof {
            assert(self.v1@ =~= shift_by(old(self).v1@, self.setup.g1_vec@, *beta));
            assert(self.v2@ =~= shift_by(old(self).v2@, self.setup.g2_vec@, beta_inv));
        }
    }

    /// The second message of a round: the cross pairings `C₊ = ⟨v₁L, v₂R⟩`,
    /// `C₋ = ⟨v₁R, v₂L⟩` and the cross products `E₁± `, `E₂±`, masked with
    /// fresh blinds.
    pub fn compute_second_message<M1, M2>(&mut self) -> (m: SecondReduceMessage<E::G1, E::G2, E::GT>)
        where
            M1: DoryRoutines<E::G1>,
            M2: DoryRoutines<E::G2>,
        requires
            old(self).wf(),
            old(self).spec_num_rounds() > 0,
        ensures
            final(self).same_but_round_blinds(old(self)),
            final(self).spec_round_blinds().0 == old(self).spec_round_blinds().0,
            final(self).spec_round_blinds().1 == old(self).spec_round_blinds().1,
            final(self).spec_round_blinds_4ary() == old(self).spec_round_blinds_4ary(),
            !M::blinds() ==> filled(final(self).spec_round_blinds().2, Scalar::<E>::spec_zero()),
            !M::blinds() ==> filled(final(self).spec_round_blinds().3, Scalar::<E>::spec_zero()),
            !M::blinds() ==> filled(final(self).spec_round_blinds().4, Scalar::<E>::spec_zero()),
            m == second_message_value::<E>(M::blinds(), old(self).spec_v1(), old(self).spec_v2(),
                old(self).spec_s1(), old(self).spec_s2(), old(self).spec_setup(),
                final(self).spec_round_blinds().2, final(self).spec_round_blinds().3, final(self).spec_round_blinds().4),
    {
        let n = self.v1.len();
        let n2 = n / 2;
        proof {
            lemma_pow2_unfold(self.num_rounds as nat);
        }
        let (v1_l, v1_r) = self.v1.as_slice().split_at(n2);
        let (v2_l, v2_r) = self.v2.as_slice().split_at(n2);
        let (s1_l, s1_r) = self.s1.as_slice().split_at(n2);
        let (s2_l, s2_r) = self.s2.as_slice().split_at(n2);

        self.round_c = [M::sample(), M::sample()];
        self.round_e1 = [M::sample(), M::sample()];
        self.round_e2 = [M::sample(), M::sample()];

        let ht = &self.setup.ht;
        let h1 = &self.setup.h1;
        let h2 = &self.setup.h2;
        let rc = self.round_c;
        let re1 = self.round_e1;
        let re2 = self.round_e2;

        let (c_plus_prod, c_minus_prod) = E::multi_pair_two_products(v1_l, v2_r, v1_r, v2_l);
        let c_plus = M::mask(c_plus_prod, ht, &rc[0]);
        let c_minus = M::mask(c_minus_prod, ht, &rc[1]);
        let e1_plus = M::mask(M1::msm(v1_l, s2_r), h1, &re1[0]);
        let e1_minus = M::mask(M1::msm(v1_r, s2_l), h1, &re1[1]);
        let e2_plus = M::mask(M2::msm(v2_r, s1_l), h2, &re2[0]);
        let e2_minus = M::mask(M2::msm(v2_l, s1_r), h2, &re2[1]);

        SecondReduceMessage { c_plus, c_minus, e1_plus, e1_minus, e2_plus, e2_minus }
    }

    /// Applies the second challenge `α`: folds `v₁` and `s₁` with `α`, `v₂`
    /// and `s₂` with `α⁻¹`, halves every vector and accumulates the round
    /// blinds.
    pub fn apply_second_challenge<M1: DoryRoutines<E::G1>, M2: DoryRoutines<E::G2>>(&mut self, alpha: &Scalar<E>)
        requires
            old(self).wf(),
            old(self).spec_num_rounds() > 0,
            invertible(*alpha),
        ensures
            final(self).wf(),
            final(self).spec_num_rounds() == old(self).spec_num_rounds() - 1,
            final(self).spec_v1() == fold_group(old(self).spec_v1(), *alpha),
            final(self).spec_v2() == fold_group(old(self).spec_v2(), f_inv(*alpha)),
            final(self).spec_s1() == fold_field(old(self).spec_s1(), *alpha),
            final(self).spec_s2() == fold_field(old(self).spec_s2(), f_inv(*alpha)),
            final(self).spec_v2_scalars() == old(self).spec_v2_scalars(),
            final(self).spec_setup() == old(self).spec_setup(),
            ({
                let a = *alpha;
                let ai = f_inv(*alpha);
                let (r_c, r_d1, r_d2, r_e1, r_e2) = old(self).spec_blinds();
                let (rd1, rd2, rc, re1, re2) = old(self).spec_round_blinds();
                final(self).spec_blinds() == (
                    f_add(f_add(r_c, f_mul(rc[0], a)), f_mul(rc[1], ai)),
                    f_add(f_mul(rd1[0], a), rd1[1]),
                    f_add(f_mul(rd2[0], ai), rd2[1]),
                    f_add(f_add(r_e1, f_mul(re1[0], a)), f_mul(re1[1], ai)),
                    f_add(f_add(r_e2, f_mul(re2[0], a)), f_mul(re2[1], ai)),
                )
            }),
            final(self).spec_round_blinds() == old(self).spec_round_blinds(),
            final(self).spec_round_blinds_4ary() == old(self).spec_round_blinds_4ary(),
    {
        let alpha_inv = alpha.inv().expect("alpha must be invertible");
        let n = self.v1.len();
        let n2 = n / 2;
        proof {
            lemma_pow2_unfold(self.num_rounds as nat);
        }
        let ghost v1_0 = self.v1@;
        let ghost v2_0 = self.v2@;
        let ghost s1_0 = self.s1@;
        let ghost s2_0 = self.s2@;
        {
            let (v1_l, v1_r) = self.v1.as_mut_slice().split_at_mut(n2);
            M1::fixed_scalar_mul_vs_then_add(v1_l, v1_r, alpha);
        }
        {
            let (v2_l, v2_r) = self.v2.as_mut_slice().split_at_mut(n2);
            M2::fixed_scalar_mul_vs_then_add(v2_l, v2_r, &alpha_inv);
        }
        {
            let (s1_l, s1_r) = self.s1.as_mut_slice().split_at_mut(n2);
            M1::fold_field_vectors(s1_l, s1_r, alpha);
        }
        {
            let (s2_l, s2_r) = self.s2.as_mut_slice().split_at_mut(n2);
            M1::fold_field_vectors(s2_l, s2_r, &alpha_inv);
        }
        self.v1.truncate(n2);
        self.v2.truncate(n2);
        self.s1.truncate(n2);
        self.s2.truncate(n2);
        proof {
            assert(self.v1@ =~= fold_group(v1_0, *alpha));
            assert(self.v2@ =~= fold_group(v2_0, alpha_inv));
            assert(self.s1@ =~= fold_field(s1_0, *alpha));
            assert(self.s2@ =~= fold_field(s2_0, alpha_inv));
        }

        self.r_c = self.r_c.add(&self.round_c[0].mul(alpha)).add(&self.round_c[1].mul(&alpha_inv));
        self.r_d1 = self.round_d1[0].mul(alpha).add(&self.round_d1[1]);
        self.r_d2 = self.round_d2[0].mul(&alpha_inv).add(&self.round_d2[1]);
        self.r_e1 = self.r_e1.add(&self.round_e1[0].mul(alpha)).add(&self.round_e1[1].mul(&alpha_inv));
        self.r_e2 = self.r_e2.add(&self.round_e2[0].mul(alpha)).add(&self.round_e2[1].mul(&alpha_inv));

        self.num_rounds = self.num_rounds - 1;
    }

    /// The final message, once every round is done: `E₁ = v₁ + (γ·s₁ + r₁)·H₁`
    /// and `E₂ = v₂ + (γ⁻¹·s₂ + r₂)·H₂` with fresh blinds `r₁`, `r₂` (zero
    /// when the mode does not blind); folds the `E` blinds into `r_c`.
    pub fn compute_final_message<M1, M2>(&mut self, gamma: &Scalar<E>) -> (m: ScalarProductMessage<E::G1, E::G2>)
        where
            M1: DoryRoutines<E::G1>,
            M2: DoryRoutines<E::G2>,
        requires
            old(self).wf(),
            old(self).spec_num_rounds() == 0,
            invertible(*gamma),
        ensures
            exists|r1: Scalar<E>, r2: Scalar<E>| {
                &&& (!M::blinds() ==> r1 == Scalar::<E>::spec_zero() && r2 == Scalar::<E>::spec_zero())
                &&& m == final_message_value::<E>(old(self).spec_v1()[0], old(self).spec_v2()[0],
                    old(self).spec_s1()[0], old(self).spec_s2()[0], old(self).spec_setup(), *gamma, r1, r2)
            },
            ({
                let (r_c, r_d1, r_d2, r_e1, r_e2) = old(self).spec_blinds();
                final(self).spec_blinds() == (f_add(f_add(r_c, f_mul(r_e2, *gamma)), f_mul(r_e1, f_inv(*gamma))), r_d1, r_d2, r_e1, r_e2)
            }),
            final(self).spec_v1() == old(self).spec_v1(),
            final(self).spec_v2() == old(self).spec_v2(),
            final(self).spec_v2_scalars() == old(self).spec_v2_scalars(),
            final(self).spec_s1() == old(self).spec_s1(),
            final(self).spec_s2() == old(self).spec_s2(),
            final(self).spec_num_rounds() == 0,
            final(self).spec_setup() == old(self).spec_setup(),
            final(self).spec_round_blinds() == old(self).spec_round_blinds(),
            final(self).spec_round_blinds_4ary() == old(self).spec_round_blinds_4ary(),
    {
        proof {
            assert(pow2(0) == 1) by {
                vstd::arithmetic::power2::lemma2_to64();
            }
        }
        let gamma_inv = gamma.inv().expect("gamma must be invertible");
        let r_final1: Scalar<E> = M::sample();
        let r_final2: Scalar<E> = M::sample();

        let gamma_s1 = gamma.mul(&self.s1[0]).add(&r_final1);
        let e1 = self.v1[0].add(&self.setup.h1.scale(&gamma_s1));

        let gamma_inv_s2 = gamma_inv.mul(&self.s2[0]).add(&r_final2);
        let e2 = self.v2[0].add(&self.setup.h2.scale(&gamma_inv_s2));

        self.r_c = self.r_c.add(&self.r_e2.mul(gamma)).add(&self.r_e1.mul(&gamma_inv));

        let m = ScalarProductMessage { e1, e2 };
        proof {
            let st = old(self);
            assert(m == final_message_value::<E>(st.spec_v1()[0], st.spec_v2()[0], st.spec_s1()[0], st.spec_s2()[0],
                st.spec_setup(), *gamma, r_final1, r_final2));
        }
        m
    }

    /// The same vectors, seen as optional scalars.
    pub open spec fn opt_view(v: Option<Vec<Scalar<E>>>) -> Option<Seq<Scalar<E>>> {
        match v {
            Some(sc) => Some(sc@),
            None => None,
        }
    }

    /// Everything but the setup agrees between `self` and `other`, and
    /// their setups hold the same generators.
    pub open spec fn copy_of(&self, other: &Self) -> bool {
        &&& self.spec_v1() == other.spec_v1()
        &&& self.spec_v2() == other.spec_v2()
        &&& self.spec_v2_scalars() == other.spec_v2_scalars()
        &&& self.spec_s1() == other.spec_s1()
        &&& self.spec_s2() == other.spec_s2()
        &&& self.spec_num_rounds() == other.spec_num_rounds()
        &&& same_setup(self.spec_setup(), other.spec_setup())
        &&& self.spec_blinds() == other.spec_blinds()
    }

    /// A copy of the state of `state`, owning a copy of its setup; the
    /// accumulated blinds carry over and the round blinds start at zero.
    pub fn from_prover_state(state: &DoryProverState<'_, E, M>) -> (r: Self)
        ensures
            r.spec_v1() == state.spec_v1(),
            r.spec_v2() == state.spec_v2(),
            r.spec_v2_scalars() == state.spec_v2_scalars(),
            r.spec_s1() == state.spec_s1(),
            r.spec_s2() == state.spec_s2(),
            r.spec_num_rounds() == state.spec_num_rounds(),
            same_setup(r.spec_setup(), state.spec_setup()),
            r.spec_blinds() == state.spec_blinds(),
            round_blinds_filled(r.spec_round_blinds(), Scalar::<E>::spec_zero()),
            round_blinds_4ary_filled(r.spec_round_blinds_4ary(), Scalar::<E>::spec_zero()),
            state.wf() ==> r.wf(),
            state.setup_covers() ==> r.setup_covers(),
    {
        let z = Scalar::<E>::zero();
        let v2_scalars = copy_opt_vec(&state.v2_scalars);
        proof {
            assert(Self::opt_view(v2_scalars) == state.spec_v2_scalars());
        }
        Self {
            v1: copy_vec(&state.v1),
            v2: copy_vec(&state.v2),
            v2_scalars,
            s1: copy_vec(&state.s1),
            s2: copy_vec(&state.s2),
            num_rounds: state.num_rounds,
            setup: state.setup.clone(),
            r_c: state.r_c,
            r_d1: state.r_d1,
            r_d2: state.r_d2,
            r_e1: state.r_e1,
            r_e2: state.r_e2,
            round_d1: [z; 2],
            round_d2: [z; 2],
            round_c: [z; 2],
            round_e1: [z; 2],
            round_e2: [z; 2],
            round_d1_4ary: [z; 4],
            round_d2_4ary: [z; 4],
            round_c_4ary: [z; 16],
            round_e1_4ary: [z; 16],
            round_e2_4ary: [z; 16],
            _mode: PhantomData,
        }
    }

    /// A forkable prover over the vectors `v1`, `v2`, `s1`, `s2`, owning its
    /// setup; the number of rounds is the number of trailing zero bits of the
    /// length of `v1` as a `usize` (all its bits for an empty `v1`), and
    /// every blind starts at zero. Over vectors of equal power-of-two length
    /// the state is well formed.
    pub fn new(
        v1: Vec<E::G1>,
        v2: Vec<E::G2>,
        v2_scalars: Option<Vec<Scalar<E>>>,
        s1: Vec<Scalar<E>>,
        s2: Vec<Scalar<E>>,
        setup: ProverSetup<E>,
    ) -> (r: Self)
        ensures
            r.spec_num_rounds() == (if v1@.len() == 0 { usize::BITS as nat } else { u64_trailing_zeros(v1@.len() as u64) as nat }),
            r.spec_v1() == v1@,
            r.spec_v2() == v2@,
            r.spec_v2_scalars() == Self::opt_view(v2_scalars),
            r.spec_s1() == s1@,
            r.spec_s2() == s2@,
            r.spec_setup() == setup,
            ({
                let z = Scalar::<E>::spec_zero();
                &&& r.spec_blinds() == (z, z, z, z, z)
                &&& round_blinds_filled(r.spec_round_blinds(), z)
                &&& round_blinds_4ary_filled(r.spec_round_blinds_4ary(), z)
            }),
            ({
                &&& v1@.len() == v2@.len()
                &&& v1@.len() == s1@.len()
                &&& v1@.len() == s2@.len()
                &&& is_power_of_two(v1@.len() as nat)
                &&& (v2_scalars matches Some(sc) ==> sc@.len() == v2@.len())
            }) ==> r.wf() && r.len() == v1@.len(),
    {
        proof {
            if is_power_of_two(v1@.len() as nat) {
                let k = choose|k: nat| k < 64 && v1@.len() == pow2(k);
                lemma_trailing_zeros_pow2(k);
            }
        }
        let num_rounds = if v1.len() == 0 { usize::BITS as usize } else { (v1.len() as u64).trailing_zeros() as usize };
        let z = Scalar::<E>::zero();
        Self {
            v1,
            v2,
            v2_scalars,
            s1,
            s2,
            num_rounds,
            setup,
            r_c: z,
            r_d1: z,
            r_d2: z,
            r_e1: z,
            r_e2: z,
            round_d1: [z; 2],
            round_d2: [z; 2],
            round_c: [z; 2],
            round_e1: [z; 2],
            round_e2: [z; 2],
            round_d1_4ary: [z; 4],
            round_d2_4ary: [z; 4],
            round_c_4ary: [z; 16],
            round_e1_4ary: [z; 16],
            round_e2_4ary: [z; 16],
            _mode: PhantomData,
        }
    }

    /// Sets the accumulated blinds and the blinds of every round kind. The
    /// accumulated `r_d1` becomes `r_d1_acc`; the first argument is not used.
    pub fn set_round_blinds(
        &mut self,
        _r_d1: Scalar<E>,
        r_d2: Scalar<E>,
        r_e1: Scalar<E>,
        r_e2: Scalar<E>,
        r_c: Scalar<E>,
        r_d1_acc: Scalar<E>,
        round_d1: [Scalar<E>; 2],
        round_d2: [Scalar<E>; 2],
        round_c: [Scalar<E>; 2],
        round_e1: [Scalar<E>; 2],
        round_e2: [Scalar<E>; 2],
        round_d1_4ary: [Scalar<E>; 4],
        round_d2_4ary: [Scalar<E>; 4],
        round_c_4ary: [Scalar<E>; 16],
        round_e1_4ary: [Scalar<E>; 16],
        round_e2_4ary: [Scalar<E>; 16],
    )
        ensures
            final(self).spec_blinds() == (r_c, r_d1_acc, r_d2, r_e1, r_e2),
            final(self).spec_round_blinds() == (round_d1, round_d2, round_c, round_e1, round_e2),
            final(self).spec_round_blinds_4ary() == (round_d1_4ary, round_d2_4ary, round_c_4ary, round_e1_4ary, round_e2_4ary),
            final(self).spec_v1() == old(self).spec_v1(),
            final(self).spec_v2() == old(self).spec_v2(),
            final(self).spec_v2_scalars() == old(self).spec_v2_scalars(),
            final(self).spec_s1() == old(self).spec_s1(),
            final(self).spec_s2() == old(self).spec_s2(),
            final(self).spec_num_rounds() == old(self).spec_num_rounds(),
            final(self).spec_setup() == old(self).spec_setup(),
    {
        self.r_d1 = r_d1_acc;
        self.r_d2 = r_d2;
        self.r_e1 = r_e1;
        self.r_e2 = r_e2;
        self.r_c = r_c;
        self.round_d1 = round_d1;
        self.round_d2 = round_d2;
        self.round_c = round_c;
        self.round_e1 = round_e1;
        self.round_e2 = round_e2;
        self.round_d1_4ary = round_d1_4ary;
        self.round_d2_4ary = round_d2_4ary;
        self.round_c_4ary = round_c_4ary;
        self.round_e1_4ary = round_e1_4ary;
        self.round_e2_4ary = round_e2_4ary;
    }

    /// A copy of the state with every round blind at zero.
    fn fresh_copy(&self) -> (r: Self)
        ensures
            r.copy_of(self),
            round_blinds_filled(r.spec_round_blinds(), Scalar::<E>::spec_zero()),
            round_blinds_4ary_filled(r.spec_round_blinds_4ary(), Scalar::<E>::spec_zero()),
    {
        let z = Scalar::<E>::zero();
        let v2_scalars = copy_opt_vec(&self.v2_scalars);
        proof {
            assert(Self::opt_view(v2_scalars) == self.spec_v2_scalars());
        }
        Self {
            v1: copy_vec(&self.v1),
            v2: copy_vec(&self.v2),
            v2_scalars,
            s1: copy_vec(&self.s1),
            s2: copy_vec(&self.s2),
            num_rounds: self.num_rounds,
            setup: self.setup.clone(),
            r_c: self.r_c,
            r_d1: self.r_d1,
            r_d2: self.r_d2,
            r_e1: self.r_e1,
            r_e2: self.r_e2,
            round_d1: [z; 2],
            round_d2: [z; 2],
            round_c: [z; 2],
            round_e1: [z; 2],
            round_e2: [z; 2],
            round_d1_4ary: [z; 4],
            round_d2_4ary: [z; 4],
            round_c_4ary: [z; 16],
            round_e1_4ary: [z; 16],
            round_e2_4ary: [z; 16],
            _mode: PhantomData,
        }
    }

    /// Two independent copies of the state at a challenge point, one for
    /// each branch; both start with every round blind at zero.
    pub fn fork(&self) -> (r: (Self, Self))
        ensures
            r.0.copy_of(self),
            r.1.copy_of(self),
            round_blinds_filled(r.0.spec_round_blinds(), Scalar::<E>::spec_zero()),
            round_blinds_4ary_filled(r.0.spec_round_blinds_4ary(), Scalar::<E>::spec_zero()),
            round_blinds_filled(r.1.spec_round_blinds(), Scalar::<E>::spec_zero()),
            round_blinds_4ary_filled(r.1.spec_round_blinds_4ary(), Scalar::<E>::spec_zero()),
    {
        (self.fresh_copy(), self.fresh_copy())
    }

    /// The accumulated blind `r_c`.
    pub fn get_blind(&self) -> (r: Scalar<E>)
        ensures
            r == self.spec_blinds().0,
    {
        self.r_c
    }

    /// Number of rounds left.
    pub fn rounds_remaining(&self) -> (r: usize)
        ensures
            r == self.spec_num_rounds(),
    {
        self.num_rounds
    }

    /// A full copy of the state, round blinds included.
    pub fn clone_state(&self) -> (r: Self)
        ensures
            r.copy_of(self),
            r.spec_round_blinds() == self.spec_round_blinds(),
            r.spec_round_blinds_4ary() == self.spec_round_blinds_4ary(),
    {
        self.clone()
    }

    /// Sets the accumulated blinds; the same as `set_initial_blinds`.
    pub fn set_blinds(
        &mut self,
        r_d1: Scalar<E>,
        r_c: Scalar<E>,
        r_d2: Scalar<E>,
        r_e1: Scalar<E>,
        r_e2: Scalar<E>,
    )
        ensures
            final(self).spec_blinds() == (r_c, r_d1, r_d2, r_e1, r_e2),
            final(self).spec_v1() == old(self).spec_v1(),
            final(self).spec_v2() == old(self).spec_v2(),
            final(self).spec_v2_scalars() == old(self).spec_v2_scalars(),
            final(self).spec_s1() == old(self).spec_s1(),
            final(self).spec_s2() == old(self).spec_s2(),
            final(self).spec_num_rounds() == old(self).spec_num_rounds(),
            final(self).spec_setup() == old(self).spec_setup(),
            final(self).spec_round_blinds() == old(self).spec_round_blinds(),
            final(self).spec_round_blinds_4ary() == old(self).spec_round_blinds_4ary(),
    {
        self.set_initial_blinds(r_d1, r_c, r_d2, r_e1, r_e2);
    }

}

impl<E: PairingCurve, M: Mode> Clone for ForkableDoryProverState<E, M>
    where E::G2: Group<Scalar = Scalar<E>>, E::GT: Group<Scalar = Scalar<E>>,
{
    fn clone(&self) -> (r: Self)
        ensures
            r.copy_of(self),
            r.spec_round_blinds() == self.spec_round_blinds(),
            r.spec_round_blinds_4ary() == self.spec_round_blinds_4ary(),
    {
        let v2_scalars = copy_opt_vec(&self.v2_scalars);
        proof {
            assert(Self::opt_view(v2_scalars) == self.spec_v2_scalars());
        }
        Self {
            v1: copy_vec(&self.v1),
            v2: copy_vec(&self.v2),
            v2_scalars,
            s1: copy_vec(&self.s1),
            s2: copy_vec(&self.s2),
            num_rounds: self.num_rounds,
            setup: self.setup.clone(),
            r_c: self.r_c,
            r_d1: self.r_d1,
            r_d2: self.r_d2,
            r_e1: self.r_e1,
            r_e2: self.r_e2,
            round_d1: self.round_d1,
            round_d2: self.round_d2,
            round_c: self.round_c,
            round_e1: self.round_e1,
            round_e2: self.round_e2,
            round_d1_4ary: self.round_d1_4ary,
            round_d2_4ary: self.round_d2_4ary,
            round_c_4ary: self.round_c_4ary,
            round_e1_4ary: self.round_e1_4ary,
            round_e2_4ary: self.round_e2_4ary,
            _mode: PhantomData,
        }
    }
}

/// On canonical representatives, `add_word` is addition modulo `q`.
proof fn lemma_add_word_is_fadd(x: int, y: int)
    requires
        0 <= x < q(),
        0 <= y < q(),
    ensures
        add_word(x, y) == fadd(x, y),
{
    if x + y >= q() {
        lemma_small_mod((x + y - q()) as nat, 0x1_0000_0000_0000_0000nat);
        lemma_mod_sub_multiples_vanish_one(x + y);
    } else {
        lemma_small_mod((x + y) as nat, q() as nat);
    }
}

/// `(v - q) % q == v % q`.
proof fn lemma_mod_sub_multiples_vanish_one(v: int)
    ensures
        (v - q()) % q() == v % q(),
{
    lemma_sub_mod_noop(v, q(), q());
    lemma_mod_self_0(q());
    lemma_mod_twice(v, q());
    lemma_small_mod(0nat, q() as nat);
    lemma_sub_mod_noop(v, 0, q());
}

/// On canonical representatives, `sub_word` is subtraction modulo `q`.
proof fn lemma_sub_word_is_fsub(x: int, y: int)
    requires
        0 <= x < q(),
        0 <= y < q(),
    ensures
        sub_word(x, y) == fsub(x, y),
{
    if x >= y {
        lemma_small_mod((x - y) as nat, q() as nat);
    } else {
        lemma_small_mod((x + q() - y) as nat, q() as nat);
        lemma_mod_sub_multiples_vanish_one(x + q() - y);
    }
}

/// The four folding coefficients of a challenge sum to one:
/// `a³ + a² + a + (1 − a³ − a² − a) = 1`, here in the prime field.
pub proof fn lemma_fold_coefficients_sum_to_one(a: Fp128Element)
    requires
        a.0 < q(),
    ensures
        ({
            let c = coeffs4(a);
            <Fp128Element as Field>::spec_add(
                <Fp128Element as Field>::spec_add(<Fp128Element as Field>::spec_add(c.0, c.1), c.2),
                c.3,
            ) == <Fp128Element as Field>::spec_one()
        }),
{
    let x = a.0 as int;
    let sq = fmul(x, x);
    let cu = fmul(sq, x);
    lemma_results_canonical(x, x);
    lemma_results_canonical(sq, x);
    let t1 = fsub(1, cu);
    lemma_results_canonical(1, cu);
    let t2 = fsub(t1, sq);
    lemma_results_canonical(t1, sq);
    let t3 = fsub(t2, x);
    lemma_results_canonical(t2, x);
    lemma_small_mod(1nat, q() as nat);
    lemma_small_mod(cu as nat, q() as nat);
    lemma_small_mod(sq as nat, q() as nat);
    lemma_small_mod(x as nat, q() as nat);
    lemma_small_mod(t1 as nat, q() as nat);
    lemma_small_mod(t2 as nat, q() as nat);
    lemma_sub_word_is_fsub(1, cu);
    lemma_sub_word_is_fsub(t1, sq);
    lemma_sub_word_is_fsub(t2, x);
    let c = coeffs4(a);
    assert(c.0.0 == cu);
    assert(c.1.0 == sq);
    assert(c.3.0 == t3);
    let s1 = fadd(cu, sq);
    lemma_results_canonical(cu, sq);
    lemma_add_word_is_fadd(cu, sq);
    let s2 = fadd(s1, x);
    lemma_results_canonical(s1, x);
    lemma_add_word_is_fadd(s1, x);
    let s3 = fadd(s2, t3);
    lemma_results_canonical(s2, t3);
    lemma_add_word_is_fadd(s2, t3);
    // Over the integers the sum is `(cu + sq + x) + (1 - cu - sq - x) = 1`.
    lemma_add_mod_noop(cu + sq, x, q());
    lemma_mod_twice(cu + sq + x, q());
    lemma_sub_mod_noop(1, cu, q());
    lemma_sub_mod_noop(1 - cu, sq, q());
    lemma_sub_mod_noop(1 - cu - sq, x, q());
    lemma_add_mod_noop(cu + sq + x, 1 - cu - sq - x, q());
    assert(t1 == (1 - cu) % q());
    assert(t2 == (1 - cu - sq) % q()) by {
        lemma_mod_twice(1 - cu, q());
        lemma_sub_mod_noop(t1, sq, q());
    }
    assert(t3 == (1 - cu - sq - x) % q()) by {
        lemma_sub_mod_noop(t2, x, q());
        lemma_sub_mod_noop(1 - cu - sq, x, q());
    }
    assert(s2 == (cu + sq + x) % q()) by {
        lemma_add_mod_noop(cu, sq, q());
        lemma_add_mod_noop(s1, x, q());
        lemma_add_mod_noop(cu + sq, x, q());
    }
    assert(s3 == 1) by {
        lemma_add_mod_noop(s2, t3, q());
        lemma_add_mod_noop(cu + sq + x, 1 - cu - sq - x, q());
    }
}

} // verus!
