//! The witness of an opening proof for an on-chain verifier circuit: the
//! Fiat-Shamir challenges, the split evaluation point, the accumulated `E₂`
//! and scalar products, and the two G2 points of the final pairing check.
use vstd::prelude::*;
use crate::arithmetic::{Field, Group, PairingCurve};
use crate::dory_proof::DoryProof;
use crate::error::DoryError;
use crate::messages::{FirstReduceMessage, SecondReduceMessage, ScalarProductMessage, VMVMessage};
use crate::reduce_and_fold::{Scalar, f_inv, f_mul, g_add, g_scale, invertible, coord_factor, DoryVerifierState, processed_round};
use crate::pairing_algebra::module_laws;
use crate::setup::{VerifierSetup, copy_vec};
use crate::transcript::{Transcript, ends_in_zero_challenge};
use crate::prime_prover::{
    absorb_first_message, absorb_second_message, challenge_entry, challenges_follow, final_entries, first_message_entries,
    lemma_round_log_shape, lemma_rounds_log_extends, lemma_rounds_log_step, lemma_zero_challenge_after, rounds_log,
    second_message_entries, vmv_entries,
};

verus! {

/// The challenges and coordinates of a verification, with the values the
/// verifier circuit checks the final pairing equation with.
pub struct DoryWitnessData<F, G1, G2, GT> {
    pub alphas: Vec<F>,
    pub betas: Vec<F>,
    pub gamma: F,
    pub d: F,
    pub s1_coords: Vec<F>,
    pub s2_coords: Vec<F>,
    pub num_rounds: usize,
    pub commitment: GT,
    pub evaluation: F,
    pub vmv_message: VMVMessage<G1, GT>,
    pub first_messages: Vec<FirstReduceMessage<G1, G2, GT>>,
    pub second_messages: Vec<SecondReduceMessage<G1, G2, GT>>,
    pub final_message: ScalarProductMessage<G1, G2>,
    pub final_p1_g2: G2,
    pub final_p2_g2: G2,
    pub s_product: F,
}

/// The coordinates of `point` the columns fold with: its first `sigma`.
pub open spec fn s1_coords_of<F>(point: Seq<F>, sigma: nat) -> Seq<F> {
    point.subrange(0, sigma as int)
}

/// The coordinates the rows fold with: the `nu` after the first `sigma`,
/// padded with zeros to `sigma`.
pub open spec fn s2_coords_of<F: Field>(point: Seq<F>, nu: nat, sigma: nat) -> Seq<F> {
    point.subrange(sigma as int, (sigma + nu) as int) + Seq::new((sigma - nu) as nat, |_i: int| F::spec_zero())
}

/// The `E₂` accumulator after `i` rounds, from `e2`:
/// each round adds `α·E₂₊ + α⁻¹·E₂₋ + β⁻¹·E₂β`.
pub open spec fn e2_acc_after<G1, G2: Group, GT>(
    e2: G2,
    first: Seq<FirstReduceMessage<G1, G2, GT>>,
    second: Seq<SecondReduceMessage<G1, G2, GT>>,
    betas: Seq<G2::Scalar>,
    alphas: Seq<G2::Scalar>,
    i: nat,
) -> G2
    decreases i,
{
    if i == 0 {
        e2
    } else {
        let j = i - 1;
        let prev = e2_acc_after(e2, first, second, betas, alphas, (i - 1) as nat);
        g_add(g_add(g_add(prev, g_scale(second[j].e2_plus, alphas[j])), g_scale(second[j].e2_minus, f_inv(alphas[j]))),
            g_scale(first[j].e2_beta, f_inv(betas[j])))
    }
}

/// The product over the first `i` rounds of `c·(1 - x) + x`, where round
/// `j` takes the challenge `c = αⱼ` (`αⱼ⁻¹` when `inverse`) and the
/// coordinate `x = coords[n - 1 - j]`.
pub open spec fn s_acc_after<F: Field>(coords: Seq<F>, alphas: Seq<F>, inverse: bool, n: nat, i: nat) -> F
    decreases i,
{
    if i == 0 {
        F::spec_one()
    } else {
        let j = i - 1;
        let a = if inverse { f_inv(alphas[j]) } else { alphas[j] };
        f_mul(s_acc_after(coords, alphas, inverse, n, (i - 1) as nat), coord_factor(a, coords[n - 1 - j]))
    }
}

/// `w` is the witness for `proof` of `evaluation` at `point` against
/// `commitment` with the challenges `betas`, `alphas`, `gamma`, `d` and the
/// first G2 generator `g2_0` (see `witness_from_challenges`).
pub open spec fn witness_matches<E: PairingCurve>(
    w: DoryWitnessData<Scalar<E>, E::G1, E::G2, E::GT>,
    commitment: E::GT,
    evaluation: Scalar<E>,
    point: Seq<Scalar<E>>,
    proof: DoryProof<E::G1, E::G2, E::GT>,
    g2_0: E::G2,
    betas: Seq<Scalar<E>>,
    alphas: Seq<Scalar<E>>,
    gamma: Scalar<E>,
    d: Scalar<E>,
) -> bool
    where E::G2: Group<Scalar = Scalar<E>>, E::GT: Group<Scalar = Scalar<E>>,
{
    let n = proof.sigma as nat;
    let s1 = s1_coords_of(point, n);
    let s2 = s2_coords_of(point, proof.nu as nat, n);
    let e2 = e2_acc_after(g_scale(g2_0, evaluation), proof.first_messages@, proof.second_messages@, betas, alphas, n);
    let s1_acc = s_acc_after(s1, alphas, false, n, n);
    let s2_acc = s_acc_after(s2, alphas, true, n, n);
    let di = f_inv(d);
    &&& w.alphas@ == alphas
    &&& w.betas@ == betas
    &&& w.gamma == gamma
    &&& w.d == d
    &&& w.s1_coords@ == s1
    &&& w.s2_coords@ == s2
    &&& w.num_rounds == proof.sigma
    &&& w.commitment == commitment
    &&& w.evaluation == evaluation
    &&& w.vmv_message == proof.vmv_message
    &&& w.first_messages@ == proof.first_messages@
    &&& w.second_messages@ == proof.second_messages@
    &&& w.final_message == proof.final_message
    &&& w.final_p1_g2 == g_add(proof.final_message.e2, g_scale(g2_0, di))
    &&& w.final_p2_g2 == g_scale(g_add(e2, g_scale(g2_0, f_mul(di, s1_acc))),
        Scalar::<E>::spec_sub(Scalar::<E>::spec_zero(), gamma))
    &&& w.s_product == f_mul(s1_acc, s2_acc)
}

/// The witness for the proof `proof` of `evaluation` at `point` against
/// `commitment`, given the challenges `betas`, `alphas`, `gamma`, `d` of its
/// transcript and the first G2 generator `g2_0`: the first `sigma`
/// coordinates of `point` and the next `nu` padded with zeros, the
/// accumulators `E₂` (from `evaluation·g2_0`) and `s₁`, `s₂` over the
/// `sigma` rounds, `final_p1_g2 = E₂_final + d⁻¹·g2_0`,
/// `final_p2_g2 = (0 - γ)·(E₂ + (d⁻¹·s₁)·g2_0)` and `s_product = s₁·s₂`.
/// `Err(InvalidPointDimension)` when `point` does not have `nu + sigma`
/// coordinates.
pub fn witness_from_challenges<E: PairingCurve>(
    commitment: E::GT,
    evaluation: Scalar<E>,
    point: &[Scalar<E>],
    proof: &DoryProof<E::G1, E::G2, E::GT>,
    g2_0: &E::G2,
    betas: &[Scalar<E>],
    alphas: &[Scalar<E>],
    gamma: Scalar<E>,
    d: Scalar<E>,
) -> (r: Result<DoryWitnessData<Scalar<E>, E::G1, E::G2, E::GT>, DoryError>)
    where E::G2: Group<Scalar = Scalar<E>>, E::GT: Group<Scalar = Scalar<E>>,
    requires
        proof.nu <= proof.sigma,
        proof.nu + proof.sigma <= usize::MAX,
        betas@.len() == proof.sigma,
        alphas@.len() == proof.sigma,
        proof.first_messages@.len() >= proof.sigma,
        proof.second_messages@.len() >= proof.sigma,
        forall|i: int| 0 <= i < proof.sigma ==> invertible(#[trigger] betas@[i]) && invertible(alphas@[i]),
        invertible(d),
    ensures
        r is Err <==> point@.len() != proof.nu + proof.sigma,
        r is Err ==> r == Err::<DoryWitnessData<Scalar<E>, E::G1, E::G2, E::GT>, DoryError>(DoryError::InvalidPointDimension {
            expected: (proof.nu + proof.sigma) as usize,
            actual: point@.len() as usize,
        }),
        r matches Ok(w) ==> witness_matches::<E>(w, commitment, evaluation, point@, *proof, *g2_0, betas@, alphas@, gamma, d),
{
    let nu = proof.nu;
    let sigma = proof.sigma;
    let num_rounds = sigma;
    if point.len() != nu + sigma {
        return Err(DoryError::InvalidPointDimension { expected: nu + sigma, actual: point.len() });
    }
    let mut s1_coords: Vec<Scalar<E>> = Vec::with_capacity(sigma);
    let mut s2_coords: Vec<Scalar<E>> = Vec::with_capacity(sigma);
    let mut i: usize = 0;
    while i < sigma
        invariant
            i <= sigma,
            sigma == proof.sigma,
            nu == proof.nu,
            nu <= sigma,
            point@.len() == nu + sigma,
            s1_coords@ == s1_coords_of(point@, sigma as nat).subrange(0, i as int),
            s2_coords@ == s2_coords_of(point@, nu as nat, sigma as nat).subrange(0, i as int),
        decreases sigma - i,
    {
        s1_coords.push(point[i]);
        if i < nu {
            s2_coords.push(point[sigma + i]);
        } else {
            s2_coords.push(Scalar::<E>::zero());
        }
        i = i + 1;
        assert(s1_coords@ =~= s1_coords_of(point@, sigma as nat).subrange(0, i as int));
        assert(s2_coords@ =~= s2_coords_of(point@, nu as nat, sigma as nat).subrange(0, i as int));
    }
    assert(s1_coords@ =~= s1_coords_of(point@, sigma as nat));
    assert(s2_coords@ =~= s2_coords_of(point@, nu as nat, sigma as nat));

    let mut e2_acc: E::G2 = g2_0.scale(&evaluation);
    let mut s1_acc = Scalar::<E>::one();
    let mut s2_acc = Scalar::<E>::one();
    let mut round_idx: usize = 0;
    while round_idx < num_rounds
        invariant
            round_idx <= num_rounds,
            num_rounds == proof.sigma,
            betas@.len() == num_rounds,
            alphas@.len() == num_rounds,
            proof.first_messages@.len() >= num_rounds,
            proof.second_messages@.len() >= num_rounds,
            s1_coords@.len() == num_rounds,
            s2_coords@.len() == num_rounds,
            forall|i: int| 0 <= i < num_rounds ==> invertible(#[trigger] betas@[i]) && invertible(alphas@[i]),
            e2_acc == e2_acc_after(g_scale(*g2_0, evaluation), proof.first_messages@, proof.second_messages@, betas@, alphas@, round_idx as nat),
            s1_acc == s_acc_after(s1_coords@, alphas@, false, num_rounds as nat, round_idx as nat),
            s2_acc == s_acc_after(s2_coords@, alphas@, true, num_rounds as nat, round_idx as nat),
        decreases num_rounds - round_idx,
    {
        let first_msg = &proof.first_messages[round_idx];
        let second_msg = &proof.second_messages[round_idx];
        let alpha = alphas[round_idx];
        let beta = betas[round_idx];
        assert(invertible(betas@[round_idx as int]) && invertible(alphas@[round_idx as int]));
        let alpha_inv = alpha.inv().unwrap();
        let beta_inv = beta.inv().unwrap();

        e2_acc = e2_acc.add(&second_msg.e2_plus.scale(&alpha)).add(&second_msg.e2_minus.scale(&alpha_inv))
            .add(&first_msg.e2_beta.scale(&beta_inv));

        let coord_idx = num_rounds - 1 - round_idx;
        let y_t = s1_coords[coord_idx];
        let x_t = s2_coords[coord_idx];
        let one = Scalar::<E>::one();
        s1_acc = s1_acc.mul(&alpha.mul(&one.sub(&y_t)).add(&y_t));
        s2_acc = s2_acc.mul(&alpha_inv.mul(&one.sub(&x_t)).add(&x_t));
        round_idx = round_idx + 1;
    }

    let d_inv = d.inv().unwrap();
    let neg_gamma = Scalar::<E>::zero().sub(&gamma);
    let final_p1_g2 = proof.final_message.e2.add(&g2_0.scale(&d_inv));
    let final_p2_g2 = e2_acc.add(&g2_0.scale(&d_inv.mul(&s1_acc))).scale(&neg_gamma);
    let s_product = s1_acc.mul(&s2_acc);

    Ok(DoryWitnessData {
        alphas: slice_copy(alphas),
        betas: slice_copy(betas),
        gamma,
        d,
        s1_coords,
        s2_coords,
        num_rounds,
        commitment,
        evaluation,
        vmv_message: proof.vmv_message,
        first_messages: copy_vec(&proof.first_messages),
        second_messages: copy_vec(&proof.second_messages),
        final_message: proof.final_message,
        final_p1_g2,
        final_p2_g2,
        s_product,
    })
}

/// The verifier states `vs[0..=i]` follow the first `i` rounds of `proof`
/// from the folded coordinates `s1`, `s2` of `n` rounds: after `j` rounds
/// the folded coordinates and `E₂` are those the witness accumulates.
proof fn lemma_verifier_follows_witness<E: PairingCurve>(
    vs: Seq<DoryVerifierState<E>>,
    proof: DoryProof<E::G1, E::G2, E::GT>,
    s1: Seq<Scalar<E>>,
    s2: Seq<Scalar<E>>,
    e2: E::G2,
    betas: Seq<Scalar<E>>,
    alphas: Seq<Scalar<E>>,
    n: nat,
    i: nat,
)
    where E::G2: Group<Scalar = Scalar<E>>, E::GT: Group<Scalar = Scalar<E>>,
    requires
        module_laws::<E::G2>(),
        i <= n,
        vs.len() == n + 1,
        vs[0].spec_num_rounds() == n,
        vs[0].spec_s_acc() == (Scalar::<E>::spec_one(), Scalar::<E>::spec_one()),
        vs[0].spec_s1_coords() == s1,
        vs[0].spec_s2_coords() == s2,
        vs[0].spec_acc().4 == e2,
        forall|j: int| 0 <= j < n ==> processed_round::<E>(#[trigger] vs[j], vs[j + 1], proof.first_messages@[j],
            proof.second_messages@[j], alphas[j], betas[j]),
    ensures
        vs[i as int].spec_num_rounds() == n - i,
        vs[i as int].spec_s1_coords() == s1,
        vs[i as int].spec_s2_coords() == s2,
        vs[i as int].spec_s_acc() == (s_acc_after(s1, alphas, false, n, i), s_acc_after(s2, alphas, true, n, i)),
        vs[i as int].spec_acc().4 == e2_acc_after(e2, proof.first_messages@, proof.second_messages@, betas, alphas, i),
    decreases i,
{
    if i > 0 {
        let j = (i - 1) as int;
        lemma_verifier_follows_witness::<E>(vs, proof, s1, s2, e2, betas, alphas, n, (i - 1) as nat);
        assert(processed_round::<E>(vs[j], vs[j + 1], proof.first_messages@[j], proof.second_messages@[j], alphas[j], betas[j]));
        let m1 = proof.first_messages@[j];
        let m2 = proof.second_messages@[j];
        let prev = vs[j].spec_acc().4;
        assert(vs[i as int].spec_acc().4 == g_add(g_add(g_add(prev, g_scale(m1.e2_beta, f_inv(betas[j]))),
            g_scale(m2.e2_plus, alphas[j])), g_scale(m2.e2_minus, f_inv(alphas[j]))));
        assert(g_add(g_add(g_add(prev, g_scale(m1.e2_beta, f_inv(betas[j]))), g_scale(m2.e2_plus, alphas[j])),
            g_scale(m2.e2_minus, f_inv(alphas[j])))
            == g_add(g_add(g_add(prev, g_scale(m2.e2_plus, alphas[j])), g_scale(m2.e2_minus, f_inv(alphas[j]))),
            g_scale(m1.e2_beta, f_inv(betas[j])))) by {
            reveal(module_laws);
        }
    }
}

/// Law (the witness is what the verifier computes): when verifier states
/// `vs[0..=sigma]` start from the witness's coordinates with both folded
/// coordinates one and `E₂ = evaluation·g2_0`, and each `vs[j + 1]` is
/// `vs[j]` after processing round `j` of the proof with challenges `αⱼ`,
/// `βⱼ`, then the witness's `s_product` is the product of the verifier's
/// final folded coordinates `s₁·s₂`, and its `final_p2_g2` is
/// `(0 − γ)·(E₂ + (d⁻¹·s₁)·g2_0)` for the verifier's final `E₂` and `s₁`.
pub proof fn lemma_witness_agrees_with_verifier<E: PairingCurve>(
    w: DoryWitnessData<Scalar<E>, E::G1, E::G2, E::GT>,
    commitment: E::GT,
    evaluation: Scalar<E>,
    point: Seq<Scalar<E>>,
    proof: DoryProof<E::G1, E::G2, E::GT>,
    g2_0: E::G2,
    betas: Seq<Scalar<E>>,
    alphas: Seq<Scalar<E>>,
    gamma: Scalar<E>,
    d: Scalar<E>,
    vs: Seq<DoryVerifierState<E>>,
)
    where E::G2: Group<Scalar = Scalar<E>>, E::GT: Group<Scalar = Scalar<E>>,
    requires
        module_laws::<E::G2>(),
        witness_matches::<E>(w, commitment, evaluation, point, proof, g2_0, betas, alphas, gamma, d),
        vs.len() == proof.sigma + 1,
        vs[0].spec_num_rounds() == proof.sigma,
        vs[0].spec_s_acc() == (Scalar::<E>::spec_one(), Scalar::<E>::spec_one()),
        vs[0].spec_s1_coords() == w.s1_coords@,
        vs[0].spec_s2_coords() == w.s2_coords@,
        vs[0].spec_acc().4 == g_scale(g2_0, evaluation),
        forall|j: int| 0 <= j < proof.sigma ==> processed_round::<E>(#[trigger] vs[j], vs[j + 1], proof.first_messages@[j],
            proof.second_messages@[j], alphas[j], betas[j]),
    ensures
        ({
            let last = vs[proof.sigma as int];
            &&& w.s_product == f_mul(last.spec_s_acc().0, last.spec_s_acc().1)
            &&& w.final_p2_g2 == g_scale(g_add(last.spec_acc().4, g_scale(g2_0, f_mul(f_inv(d), last.spec_s_acc().0))),
                Scalar::<E>::spec_sub(Scalar::<E>::spec_zero(), gamma))
        }),
{
    let n = proof.sigma as nat;
    lemma_verifier_follows_witness::<E>(vs, proof, w.s1_coords@, w.s2_coords@, g_scale(g2_0, evaluation), betas, alphas, n, n);
}

/// Every entry of `s` has an inverse.
pub open spec fn all_invertible<F: Field>(s: Seq<F>) -> bool {
    forall|i: int| 0 <= i < s.len() ==> invertible(#[trigger] s[i])
}

/// `w` is the witness for `proof` (see `witness_matches`) with the
/// challenges it records: `sigma` invertible `β` and `α`, and an invertible
/// `d`.
pub open spec fn witness_with_drawn_challenges<E: PairingCurve>(
    w: DoryWitnessData<Scalar<E>, E::G1, E::G2, E::GT>,
    commitment: E::GT,
    evaluation: Scalar<E>,
    point: Seq<Scalar<E>>,
    proof: DoryProof<E::G1, E::G2, E::GT>,
    g2_0: E::G2,
) -> bool
    where E::G2: Group<Scalar = Scalar<E>>, E::GT: Group<Scalar = Scalar<E>>,
{
    &&& w.betas@.len() == proof.sigma
    &&& w.alphas@.len() == proof.sigma
    &&& all_invertible(w.betas@)
    &&& all_invertible(w.alphas@)
    &&& invertible(w.d)
    &&& witness_matches::<E>(w, commitment, evaluation, point, proof, g2_0, w.betas@, w.alphas@, w.gamma, w.d)
}

/// The witness for `proof` of `evaluation` at `point` against `commitment`,
/// replaying the proof on `transcript` (which must hold what the verifier's
/// would before the proof) to draw its challenges: the VMV message, then
/// per round the first message, `β`, the second message and `α`, then `γ`,
/// the final message and `d`; the rest as `witness_from_challenges`.
/// `Err(InvalidPointDimension)` when `point` does not have `nu + sigma`
/// coordinates (before anything is appended); `Err(ZeroChallenge)` when a
/// drawn challenge has no inverse.
pub fn extract_witness_data<E, T>(
    commitment: E::GT,
    evaluation: Scalar<E>,
    point: &[Scalar<E>],
    proof: &DoryProof<E::G1, E::G2, E::GT>,
    setup: &VerifierSetup<E>,
    transcript: &mut T,
) -> (r: Result<DoryWitnessData<Scalar<E>, E::G1, E::G2, E::GT>, DoryError>)
    where
        E: PairingCurve,
        E::G2: Group<Scalar = Scalar<E>>,
        E::GT: Group<Scalar = Scalar<E>>,
        T: Transcript<E>,
    requires
        proof.nu + proof.sigma <= usize::MAX,
        point@.len() == proof.nu + proof.sigma ==> {
            &&& proof.nu <= proof.sigma
            &&& proof.first_messages@.len() >= proof.sigma
            &&& proof.second_messages@.len() >= proof.sigma
        },
    ensures
        point@.len() != proof.nu + proof.sigma ==> r == Err::<DoryWitnessData<Scalar<E>, E::G1, E::G2, E::GT>, DoryError>(
            DoryError::InvalidPointDimension { expected: (proof.nu + proof.sigma) as usize, actual: point@.len() as usize }),
        point@.len() != proof.nu + proof.sigma ==> final(transcript).spec_log() == old(transcript).spec_log(),
        point@.len() == proof.nu + proof.sigma && r is Err ==> r == Err::<DoryWitnessData<Scalar<E>, E::G1, E::G2, E::GT>, DoryError>(
            DoryError::ZeroChallenge) && ends_in_zero_challenge::<E, T>(old(transcript).spec_log(), final(transcript).spec_log()),
        r matches Ok(w) ==> {
            let log_v = old(transcript).spec_log() + vmv_entries::<E>(proof.vmv_message);
            let fm = proof.first_messages@;
            let sm = proof.second_messages@;
            let n = proof.sigma as nat;
            &&& witness_with_drawn_challenges::<E>(w, commitment, evaluation, point@, *proof, setup.g2_0)
            &&& final(transcript).spec_log() == rounds_log(log_v, fm, sm, n) + final_entries::<E>(proof.final_message)
            &&& challenges_follow::<E, T>(log_v, fm, sm, w.betas@, w.alphas@, n)
            &&& w.gamma == T::spec_challenge(rounds_log(log_v, fm, sm, n), "gamma"@)
            &&& w.d == T::spec_challenge((rounds_log(log_v, fm, sm, n) + final_entries::<E>(proof.final_message)).drop_last(), "d"@)
        },
{
    let nu = proof.nu;
    let sigma = proof.sigma;
    if point.len() != nu + sigma {
        return Err(DoryError::InvalidPointDimension { expected: nu + sigma, actual: point.len() });
    }
    let ghost log0 = transcript.spec_log();
    transcript.append_gt("vmv_c", &proof.vmv_message.c);
    transcript.append_gt("vmv_d2", &proof.vmv_message.d2);
    transcript.append_g1("vmv_e1", &proof.vmv_message.e1);
    let ghost log_v = log0 + vmv_entries::<E>(proof.vmv_message);
    let ghost fm = proof.first_messages@;
    let ghost sm = proof.second_messages@;
    assert(transcript.spec_log() =~= log_v);

    let mut alphas: Vec<Scalar<E>> = Vec::with_capacity(sigma);
    let mut betas: Vec<Scalar<E>> = Vec::with_capacity(sigma);
    let mut round_idx: usize = 0;
    assert(rounds_log(log_v, fm, sm, 0) == log_v) by {
        reveal(rounds_log);
    }
    assert(challenges_follow::<E, T>(log_v, fm, sm, betas@, alphas@, 0)) by {
        reveal(challenges_follow);
    }
    assert(log_v.subrange(0, log0.len() as int) =~= log0);
    while round_idx < sigma
        invariant
            round_idx <= sigma,
            sigma == proof.sigma,
            point@.len() == proof.nu + proof.sigma,
            fm == proof.first_messages@,
            sm == proof.second_messages@,
            fm.len() >= sigma,
            sm.len() >= sigma,
            betas@.len() == round_idx,
            alphas@.len() == round_idx,
            forall|i: int| 0 <= i < round_idx ==> invertible(#[trigger] betas@[i]),
            forall|i: int| 0 <= i < round_idx ==> invertible(#[trigger] alphas@[i]),
            log0 == old(transcript).spec_log(),
            log_v == log0 + vmv_entries::<E>(proof.vmv_message),
            log_v.subrange(0, log0.len() as int) == log0,
            transcript.spec_log() == rounds_log(log_v, fm, sm, round_idx as nat),
            challenges_follow::<E, T>(log_v, fm, sm, betas@, alphas@, round_idx as nat),
        decreases sigma - round_idx,
    {
        let first_msg = &proof.first_messages[round_idx];
        let second_msg = &proof.second_messages[round_idx];
        let ghost log_i = transcript.spec_log();
        proof {
            lemma_rounds_log_extends(log_v, fm, sm, round_idx as nat);
            assert(log_i.subrange(0, log0.len() as int) =~= log_v.subrange(0, log0.len() as int));
        }
        let beta = absorb_first_message(transcript, first_msg);
        if beta.inv().is_none() {
            proof {
                lemma_zero_challenge_after::<E, T>(log0, log_i, first_message_entries::<E>(*first_msg), "beta"@);
            }
            return Err(DoryError::ZeroChallenge);
        }
        let alpha = absorb_second_message(transcript, second_msg);
        proof {
            lemma_round_log_shape::<E>(log_i, *first_msg, *second_msg);
        }
        if alpha.inv().is_none() {
            proof {
                lemma_zero_challenge_after::<E, T>(log0, log_i,
                    first_message_entries::<E>(*first_msg).push(challenge_entry::<E>("beta"@)) + second_message_entries::<E>(*second_msg), "alpha"@);
            }
            return Err(DoryError::ZeroChallenge);
        }
        proof {
            lemma_rounds_log_step::<E, T>(log_v, fm, sm, betas@, alphas@, beta, alpha, round_idx as nat);
        }
        betas.push(beta);
        alphas.push(alpha);
        round_idx = round_idx + 1;
    }
    let ghost log_r = transcript.spec_log();
    let gamma = transcript.challenge_scalar("gamma");
    transcript.append_g1("final_e1", &proof.final_message.e1);
    transcript.append_g2("final_e2", &proof.final_message.e2);
    let ghost log_before_d = transcript.spec_log();
    let d = transcript.challenge_scalar("d");
    proof {
        let fe = final_entries::<E>(proof.final_message);
        assert(log_before_d =~= log_r + fe.subrange(0, 3));
        assert(transcript.spec_log() =~= log_r + fe);
        assert((log_r + fe).drop_last() =~= log_r + fe.subrange(0, 3));
        assert(log_r + fe =~= (log_r + fe.subrange(0, 3)).push(challenge_entry::<E>("d"@)));
    }
    if d.inv().is_none() {
        proof {
            lemma_rounds_log_extends(log_v, fm, sm, sigma as nat);
            assert(log_r.subrange(0, log0.len() as int) =~= log_v.subrange(0, log0.len() as int));
            lemma_zero_challenge_after::<E, T>(log0, log_r, final_entries::<E>(proof.final_message).subrange(0, 3), "d"@);
        }
        return Err(DoryError::ZeroChallenge);
    }
    let r = witness_from_challenges::<E>(commitment, evaluation, point, proof, &setup.g2_0, betas.as_slice(), alphas.as_slice(), gamma, d);
    proof {
        if r is Ok {
            let w = r->Ok_0;
            assert(w.betas@ == betas@);
            assert(w.alphas@ == alphas@);
            assert(witness_matches::<E>(w, commitment, evaluation, point@, *proof, setup.g2_0, betas@, alphas@, gamma, d));
            assert(all_invertible(betas@));
            assert(all_invertible(alphas@));
            assert(w.betas@ == betas@ && w.alphas@ == alphas@ && w.d == d);
            assert(witness_with_drawn_challenges::<E>(w, commitment, evaluation, point@, *proof, setup.g2_0));
            assert(challenges_follow::<E, T>(log_v, fm, sm, w.betas@, w.alphas@, sigma as nat));
            assert(w.gamma == T::spec_challenge(rounds_log(log_v, fm, sm, sigma as nat), "gamma"@));
            assert(w.d == T::spec_challenge((rounds_log(log_v, fm, sm, sigma as nat) + final_entries::<E>(proof.final_message)).drop_last(), "d"@));
        }
    }
    r
}

/// A copy of the entries of `v`.
fn slice_copy<T: Copy>(v: &[T]) -> (r: Vec<T>)
    ensures
        r@ == v@,
{
    let mut out: Vec<T> = Vec::with_capacity(v.len());
    let mut i: usize = 0;
    while i < v.len()
        invariant
            i <= v@.len(),
            out@ == v@.subrange(0, i as int),
        decreases v@.len() - i,
    {
        out.push(v[i]);
        i = i + 1;
    }
    assert(out@ =~= v@);
    out
}

} // verus!
