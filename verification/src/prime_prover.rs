//! The Dory-Prime prover: the rounds of the opening protocol driven by a
//! Fiat-Shamir transcript, with the prover state forked into two branches
//! at each challenge. The branches are computed one after the other here;
//! handing them to threads is up to the caller.
use vstd::prelude::*;
use crate::arithmetic::{DoryRoutines, Field, Group, PairingCurve};
use crate::error::DoryError;
use crate::messages::{FirstReduceMessage, SecondReduceMessage, ScalarProductMessage, VMVMessage};
use crate::mode::{masked, Transparent};
use crate::dory_proof::DoryProof;
use crate::prime_proof::DoryPrimeProof;
use vstd::arithmetic::power2::{pow2, lemma_pow2_pos};
use vstd::slice::slice_subrange;
use crate::mode::Mode;
use crate::reduce_and_fold::{
    Scalar, ForkableDoryProverState, DoryProverState, first_message_value, second_message_value, final_message_value,
    shift_by, fold_group, fold_field, f_inv, invertible, filled, same_setup, msm_of, prefix,
};
use crate::reduce_and_fold_lattice::{is_power_of_two, lemma_trailing_zeros_pow2};
use crate::setup::ProverSetup;
use crate::transcript::{Transcript, TranscriptEntry, TranscriptLabel, TranscriptLog, ends_in_zero_challenge};

verus! {

/// `v` after `i` rounds with the challenges `betas`, `alphas`: round `j`
/// adds `βⱼ·g` to `v` and folds it with `αⱼ` (with `βⱼ⁻¹`, `αⱼ⁻¹` when
/// `inverse`).
pub open spec fn vector_after<G: Group>(
    v: Seq<G>,
    g: Seq<G>,
    betas: Seq<G::Scalar>,
    alphas: Seq<G::Scalar>,
    inverse: bool,
    i: nat,
) -> Seq<G>
    decreases i,
{
    if i == 0 {
        v
    } else {
        let j = i - 1;
        let b = if inverse { f_inv(betas[j]) } else { betas[j] };
        let a = if inverse { f_inv(alphas[j]) } else { alphas[j] };
        fold_group(shift_by(vector_after(v, g, betas, alphas, inverse, (i - 1) as nat), g, b), a)
    }
}

/// The scalars `s` after `i` rounds: round `j` folds them with `αⱼ` (with
/// `αⱼ⁻¹` when `inverse`).
pub open spec fn scalars_after<F: Field>(s: Seq<F>, alphas: Seq<F>, inverse: bool, i: nat) -> Seq<F>
    decreases i,
{
    if i == 0 {
        s
    } else {
        let a = if inverse { f_inv(alphas[i - 1]) } else { alphas[i - 1] };
        fold_field(scalars_after(s, alphas, inverse, (i - 1) as nat), a)
    }
}

/// `m` is the first message of a round over these vectors and this setup,
/// for some blinds, all zero when `mask` is off.
pub open spec fn first_message_in<E: PairingCurve>(
    mask: bool,
    m: FirstReduceMessage<E::G1, E::G2, E::GT>,
    v1: Seq<E::G1>,
    v2: Seq<E::G2>,
    v2_scalars: Option<Seq<Scalar<E>>>,
    s1: Seq<Scalar<E>>,
    s2: Seq<Scalar<E>>,
    su: ProverSetup<E>,
) -> bool
    where E::G2: Group<Scalar = Scalar<E>>, E::GT: Group<Scalar = Scalar<E>>,
{
    exists|rd1: [Scalar<E>; 2], rd2: [Scalar<E>; 2]|
        (!mask ==> filled(rd1, Scalar::<E>::spec_zero()) && filled(rd2, Scalar::<E>::spec_zero()))
        && m == #[trigger] first_message_value::<E>(mask, v1, v2, v2_scalars, s1, s2, su, rd1, rd2)
}

/// `m` is the second message of a round over these vectors and this setup,
/// for some blinds, all zero when `mask` is off.
pub open spec fn second_message_in<E: PairingCurve>(
    mask: bool,
    m: SecondReduceMessage<E::G1, E::G2, E::GT>,
    v1: Seq<E::G1>,
    v2: Seq<E::G2>,
    s1: Seq<Scalar<E>>,
    s2: Seq<Scalar<E>>,
    su: ProverSetup<E>,
) -> bool
    where E::G2: Group<Scalar = Scalar<E>>, E::GT: Group<Scalar = Scalar<E>>,
{
    exists|rc: [Scalar<E>; 2], re1: [Scalar<E>; 2], re2: [Scalar<E>; 2]|
        (!mask ==> filled(rc, Scalar::<E>::spec_zero()) && filled(re1, Scalar::<E>::spec_zero())
            && filled(re2, Scalar::<E>::spec_zero()))
        && m == #[trigger] second_message_value::<E>(mask, v1, v2, s1, s2, su, rc, re1, re2)
}

/// `v₁` of the state `st0` after `i` rounds.
pub open spec fn round_v1<E: PairingCurve, M: Mode>(
    st0: ForkableDoryProverState<E, M>,
    betas: Seq<Scalar<E>>,
    alphas: Seq<Scalar<E>>,
    i: nat,
) -> Seq<E::G1>
    where E::G2: Group<Scalar = Scalar<E>>, E::GT: Group<Scalar = Scalar<E>>,
{
    vector_after(st0.spec_v1(), st0.spec_setup().g1_vec@, betas, alphas, false, i)
}

/// `v₂` of the state `st0` after `i` rounds.
pub open spec fn round_v2<E: PairingCurve, M: Mode>(
    st0: ForkableDoryProverState<E, M>,
    betas: Seq<Scalar<E>>,
    alphas: Seq<Scalar<E>>,
    i: nat,
) -> Seq<E::G2>
    where E::G2: Group<Scalar = Scalar<E>>, E::GT: Group<Scalar = Scalar<E>>,
{
    vector_after(st0.spec_v2(), st0.spec_setup().g2_vec@, betas, alphas, true, i)
}

/// The scalars behind `v₂` in round `i`: those of `st0` in the first round,
/// none after it.
pub open spec fn round_v2_scalars<E: PairingCurve, M: Mode>(st0: ForkableDoryProverState<E, M>, i: nat) -> Option<Seq<Scalar<E>>>
    where E::G2: Group<Scalar = Scalar<E>>, E::GT: Group<Scalar = Scalar<E>>,
{
    if i == 0 { st0.spec_v2_scalars() } else { None }
}

/// The messages `fm`, `sm` are those of `k` rounds of the opening protocol
/// run from the state `st0` with the invertible challenges `betas`,
/// `alphas`: in round `i` the first message over the vectors after `i`
/// rounds, and the second message over them once `βᵢ` is applied.
pub open spec fn rounds_follow<E: PairingCurve, M: Mode>(
    st0: ForkableDoryProverState<E, M>,
    fm: Seq<FirstReduceMessage<E::G1, E::G2, E::GT>>,
    sm: Seq<SecondReduceMessage<E::G1, E::G2, E::GT>>,
    betas: Seq<Scalar<E>>,
    alphas: Seq<Scalar<E>>,
    k: nat,
) -> bool
    where E::G2: Group<Scalar = Scalar<E>>, E::GT: Group<Scalar = Scalar<E>>,
{
    let su = st0.spec_setup();
    &&& fm.len() == k
    &&& sm.len() == k
    &&& betas.len() == k
    &&& alphas.len() == k
    &&& forall|i: int| 0 <= i < k ==> invertible(#[trigger] betas[i]) && invertible(alphas[i])
    &&& forall|i: int| 0 <= i < k ==> first_message_in::<E>(M::blinds(), #[trigger] fm[i],
        round_v1(st0, betas, alphas, i as nat), round_v2(st0, betas, alphas, i as nat), round_v2_scalars(st0, i as nat),
        scalars_after(st0.spec_s1(), alphas, false, i as nat), scalars_after(st0.spec_s2(), alphas, true, i as nat), su)
    &&& forall|i: int| 0 <= i < k ==> second_message_in::<E>(M::blinds(), #[trigger] sm[i],
        shift_by(round_v1(st0, betas, alphas, i as nat), su.g1_vec@, betas[i]),
        shift_by(round_v2(st0, betas, alphas, i as nat), su.g2_vec@, f_inv(betas[i])),
        scalars_after(st0.spec_s1(), alphas, false, i as nat), scalars_after(st0.spec_s2(), alphas, true, i as nat), su)
}

/// `st` is the state `st0` after `k` rounds with the challenges `betas`,
/// `alphas`.
pub open spec fn state_after<E: PairingCurve, M: Mode>(
    st0: ForkableDoryProverState<E, M>,
    st: ForkableDoryProverState<E, M>,
    betas: Seq<Scalar<E>>,
    alphas: Seq<Scalar<E>>,
    k: nat,
) -> bool
    where E::G2: Group<Scalar = Scalar<E>>, E::GT: Group<Scalar = Scalar<E>>,
{
    &&& st.wf()
    &&& st.setup_covers()
    &&& st.spec_num_rounds() + k == st0.spec_num_rounds()
    &&& st.spec_v1() == round_v1(st0, betas, alphas, k)
    &&& st.spec_v2() == round_v2(st0, betas, alphas, k)
    &&& st.spec_v2_scalars() == round_v2_scalars(st0, k)
    &&& st.spec_s1() == scalars_after(st0.spec_s1(), alphas, false, k)
    &&& st.spec_s2() == scalars_after(st0.spec_s2(), alphas, true, k)
    &&& same_setup(st.spec_setup(), st0.spec_setup())
}

/// The vectors after `j` rounds depend only on the first `j` challenges.
pub proof fn lemma_vector_after_prefix<G: Group>(
    v: Seq<G>,
    g: Seq<G>,
    b1: Seq<G::Scalar>,
    a1: Seq<G::Scalar>,
    b2: Seq<G::Scalar>,
    a2: Seq<G::Scalar>,
    inverse: bool,
    j: nat,
)
    requires
        forall|k: int| 0 <= k < j ==> b1[k] == b2[k] && a1[k] == a2[k],
    ensures
        vector_after(v, g, b1, a1, inverse, j) == vector_after(v, g, b2, a2, inverse, j),
    decreases j,
{
    if j > 0 {
        lemma_vector_after_prefix(v, g, b1, a1, b2, a2, inverse, (j - 1) as nat);
        assert(b1[j - 1] == b2[j - 1] && a1[j - 1] == a2[j - 1]);
    }
}

/// The scalars after `j` rounds depend only on the first `j` challenges.
pub proof fn lemma_scalars_after_prefix<F: Field>(s: Seq<F>, a1: Seq<F>, a2: Seq<F>, inverse: bool, j: nat)
    requires
        forall|k: int| 0 <= k < j ==> a1[k] == a2[k],
    ensures
        scalars_after(s, a1, inverse, j) == scalars_after(s, a2, inverse, j),
    decreases j,
{
    if j > 0 {
        lemma_scalars_after_prefix(s, a1, a2, inverse, (j - 1) as nat);
        assert(a1[j - 1] == a2[j - 1]);
    }
}

/// Two setups with the same generators give the same first message.
pub proof fn lemma_first_message_same_setup<E: PairingCurve>(
    mask: bool,
    v1: Seq<E::G1>,
    v2: Seq<E::G2>,
    v2_scalars: Option<Seq<Scalar<E>>>,
    s1: Seq<Scalar<E>>,
    s2: Seq<Scalar<E>>,
    a: ProverSetup<E>,
    b: ProverSetup<E>,
    rd1: [Scalar<E>; 2],
    rd2: [Scalar<E>; 2],
)
    where E::G2: Group<Scalar = Scalar<E>>, E::GT: Group<Scalar = Scalar<E>>,
    requires
        same_setup(a, b),
    ensures
        first_message_value::<E>(mask, v1, v2, v2_scalars, s1, s2, a, rd1, rd2)
            == first_message_value::<E>(mask, v1, v2, v2_scalars, s1, s2, b, rd1, rd2),
{
}

/// Two setups with the same generators give the same second message.
pub proof fn lemma_second_message_same_setup<E: PairingCurve>(
    mask: bool,
    v1: Seq<E::G1>,
    v2: Seq<E::G2>,
    s1: Seq<Scalar<E>>,
    s2: Seq<Scalar<E>>,
    a: ProverSetup<E>,
    b: ProverSetup<E>,
    rc: [Scalar<E>; 2],
    re1: [Scalar<E>; 2],
    re2: [Scalar<E>; 2],
)
    where E::G2: Group<Scalar = Scalar<E>>, E::GT: Group<Scalar = Scalar<E>>,
    requires
        same_setup(a, b),
    ensures
        second_message_value::<E>(mask, v1, v2, s1, s2, a, rc, re1, re2)
            == second_message_value::<E>(mask, v1, v2, s1, s2, b, rc, re1, re2),
{
}

/// Law: without blinding, the first and second messages of a round do not
/// depend on the round blinds, so two provers holding the same vectors and
/// generators send the same messages whatever blinds each of them holds.
pub proof fn lemma_unmasked_messages_ignore_blinds<E: PairingCurve>(
    v1: Seq<E::G1>,
    v2: Seq<E::G2>,
    v2_scalars: Option<Seq<Scalar<E>>>,
    s1: Seq<Scalar<E>>,
    s2: Seq<Scalar<E>>,
    su: ProverSetup<E>,
    a: ([Scalar<E>; 2], [Scalar<E>; 2], [Scalar<E>; 2], [Scalar<E>; 2], [Scalar<E>; 2]),
    b: ([Scalar<E>; 2], [Scalar<E>; 2], [Scalar<E>; 2], [Scalar<E>; 2], [Scalar<E>; 2]),
)
    where E::G2: Group<Scalar = Scalar<E>>, E::GT: Group<Scalar = Scalar<E>>,
    ensures
        first_message_value::<E>(false, v1, v2, v2_scalars, s1, s2, su, a.0, a.1)
            == first_message_value::<E>(false, v1, v2, v2_scalars, s1, s2, su, b.0, b.1),
        second_message_value::<E>(false, v1, v2, s1, s2, su, a.2, a.3, a.4)
            == second_message_value::<E>(false, v1, v2, s1, s2, su, b.2, b.3, b.4),
{
}

/// Law: the two branches of `fork` (or any copy of a state) answer alike:
/// with the same blinds and challenges, a copy's first, second and final
/// messages are those of the state it copies.
pub proof fn lemma_fork_answers_alike<E: PairingCurve, M: Mode>(
    a: ForkableDoryProverState<E, M>,
    b: ForkableDoryProverState<E, M>,
    rd1: [Scalar<E>; 2],
    rd2: [Scalar<E>; 2],
    rc: [Scalar<E>; 2],
    re1: [Scalar<E>; 2],
    re2: [Scalar<E>; 2],
    gamma: Scalar<E>,
    r1: Scalar<E>,
    r2: Scalar<E>,
)
    where E::G2: Group<Scalar = Scalar<E>>, E::GT: Group<Scalar = Scalar<E>>,
    requires
        a.copy_of(&b),
    ensures
        first_message_value::<E>(M::blinds(), a.spec_v1(), a.spec_v2(), a.spec_v2_scalars(), a.spec_s1(), a.spec_s2(), a.spec_setup(), rd1, rd2)
            == first_message_value::<E>(M::blinds(), b.spec_v1(), b.spec_v2(), b.spec_v2_scalars(), b.spec_s1(), b.spec_s2(), b.spec_setup(), rd1, rd2),
        second_message_value::<E>(M::blinds(), a.spec_v1(), a.spec_v2(), a.spec_s1(), a.spec_s2(), a.spec_setup(), rc, re1, re2)
            == second_message_value::<E>(M::blinds(), b.spec_v1(), b.spec_v2(), b.spec_s1(), b.spec_s2(), b.spec_setup(), rc, re1, re2),
        final_message_value::<E>(a.spec_v1()[0], a.spec_v2()[0], a.spec_s1()[0], a.spec_s2()[0], a.spec_setup(), gamma, r1, r2)
            == final_message_value::<E>(b.spec_v1()[0], b.spec_v2()[0], b.spec_s1()[0], b.spec_s2()[0], b.spec_setup(), gamma, r1, r2),
{
    lemma_first_message_same_setup::<E>(M::blinds(), a.spec_v1(), a.spec_v2(), a.spec_v2_scalars(), a.spec_s1(), a.spec_s2(),
        a.spec_setup(), b.spec_setup(), rd1, rd2);
    lemma_second_message_same_setup::<E>(M::blinds(), a.spec_v1(), a.spec_v2(), a.spec_s1(), a.spec_s2(),
        a.spec_setup(), b.spec_setup(), rc, re1, re2);
}

/// Law: the forkable state that `from_prover_state` makes of a prover state
/// answers like it: with the same blinds and challenges, its first, second
/// and final messages are those of the prover state.
pub proof fn lemma_forkable_answers_like_prover_state<'a, E: PairingCurve, M: Mode>(
    f: ForkableDoryProverState<E, M>,
    p: DoryProverState<'a, E, M>,
    rd1: [Scalar<E>; 2],
    rd2: [Scalar<E>; 2],
    rc: [Scalar<E>; 2],
    re1: [Scalar<E>; 2],
    re2: [Scalar<E>; 2],
    gamma: Scalar<E>,
    r1: Scalar<E>,
    r2: Scalar<E>,
)
    where E::G2: Group<Scalar = Scalar<E>>, E::GT: Group<Scalar = Scalar<E>>,
    requires
        f.spec_v1() == p.spec_v1(),
        f.spec_v2() == p.spec_v2(),
        f.spec_v2_scalars() == p.spec_v2_scalars(),
        f.spec_s1() == p.spec_s1(),
        f.spec_s2() == p.spec_s2(),
        same_setup(f.spec_setup(), p.spec_setup()),
    ensures
        first_message_value::<E>(M::blinds(), f.spec_v1(), f.spec_v2(), f.spec_v2_scalars(), f.spec_s1(), f.spec_s2(), f.spec_setup(), rd1, rd2)
            == first_message_value::<E>(M::blinds(), p.spec_v1(), p.spec_v2(), p.spec_v2_scalars(), p.spec_s1(), p.spec_s2(), p.spec_setup(), rd1, rd2),
        second_message_value::<E>(M::blinds(), f.spec_v1(), f.spec_v2(), f.spec_s1(), f.spec_s2(), f.spec_setup(), rc, re1, re2)
            == second_message_value::<E>(M::blinds(), p.spec_v1(), p.spec_v2(), p.spec_s1(), p.spec_s2(), p.spec_setup(), rc, re1, re2),
        final_message_value::<E>(f.spec_v1()[0], f.spec_v2()[0], f.spec_s1()[0], f.spec_s2()[0], f.spec_setup(), gamma, r1, r2)
            == final_message_value::<E>(p.spec_v1()[0], p.spec_v2()[0], p.spec_s1()[0], p.spec_s2()[0], p.spec_setup(), gamma, r1, r2),
{
    lemma_first_message_same_setup::<E>(M::blinds(), f.spec_v1(), f.spec_v2(), f.spec_v2_scalars(), f.spec_s1(), f.spec_s2(),
        f.spec_setup(), p.spec_setup(), rd1, rd2);
    lemma_second_message_same_setup::<E>(M::blinds(), f.spec_v1(), f.spec_v2(), f.spec_s1(), f.spec_s2(),
        f.spec_setup(), p.spec_setup(), rc, re1, re2);
}

/// A forkable state and a prover state that hold the same vectors, scalars
/// and round count, over setups with the same generators.
pub open spec fn holds_like<'a, E: PairingCurve, M: Mode>(
    f: ForkableDoryProverState<E, M>,
    p: DoryProverState<'a, E, M>,
) -> bool
    where E::G2: Group<Scalar = Scalar<E>>, E::GT: Group<Scalar = Scalar<E>>,
{
    &&& f.spec_v1() == p.spec_v1()
    &&& f.spec_v2() == p.spec_v2()
    &&& f.spec_v2_scalars() == p.spec_v2_scalars()
    &&& f.spec_s1() == p.spec_s1()
    &&& f.spec_s2() == p.spec_s2()
    &&& f.spec_num_rounds() == p.spec_num_rounds()
    &&& same_setup(f.spec_setup(), p.spec_setup())
}

/// Law: a forkable state and a prover state that hold alike still hold
/// alike once both have taken the same first challenge `β` — each shifts
/// `v₁` by `β·Γ₁` and `v₂` by `β⁻¹·Γ₂` over its generators, forgets the
/// scalars behind `v₂` and keeps the rest, as `apply_first_challenge` of
/// each type ensures.
pub proof fn lemma_lockstep_first_challenge<'a, E: PairingCurve, M: Mode>(
    f0: ForkableDoryProverState<E, M>,
    f1: ForkableDoryProverState<E, M>,
    p0: DoryProverState<'a, E, M>,
    p1: DoryProverState<'a, E, M>,
    beta: Scalar<E>,
)
    where E::G2: Group<Scalar = Scalar<E>>, E::GT: Group<Scalar = Scalar<E>>,
    requires
        holds_like(f0, p0),
        f1.spec_v1() == shift_by(f0.spec_v1(), f0.spec_setup().g1_vec@, beta),
        f1.spec_v2() == shift_by(f0.spec_v2(), f0.spec_setup().g2_vec@, f_inv(beta)),
        f1.spec_v2_scalars() is None,
        f1.spec_s1() == f0.spec_s1(),
        f1.spec_s2() == f0.spec_s2(),
        f1.spec_num_rounds() == f0.spec_num_rounds(),
        f1.spec_setup() == f0.spec_setup(),
        p1.spec_v1() == shift_by(p0.spec_v1(), p0.spec_setup().g1_vec@, beta),
        p1.spec_v2() == shift_by(p0.spec_v2(), p0.spec_setup().g2_vec@, f_inv(beta)),
        p1.spec_v2_scalars() is None,
        p1.spec_s1() == p0.spec_s1(),
        p1.spec_s2() == p0.spec_s2(),
        p1.spec_num_rounds() == p0.spec_num_rounds(),
        p1.spec_setup() == p0.spec_setup(),
    ensures
        holds_like(f1, p1),
{
}

/// Law: a forkable state and a prover state that hold alike still hold
/// alike once both have taken the same second challenge `α` — each folds
/// `v₁`, `s₁` with `α` and `v₂`, `s₂` with `α⁻¹` and has one round less, as
/// `apply_second_challenge` of each type ensures.
pub proof fn lemma_lockstep_second_challenge<'a, E: PairingCurve, M: Mode>(
    f0: ForkableDoryProverState<E, M>,
    f1: ForkableDoryProverState<E, M>,
    p0: DoryProverState<'a, E, M>,
    p1: DoryProverState<'a, E, M>,
    alpha: Scalar<E>,
)
    where E::G2: Group<Scalar = Scalar<E>>, E::GT: Group<Scalar = Scalar<E>>,
    requires
        holds_like(f0, p0),
        f1.spec_num_rounds() == f0.spec_num_rounds() - 1,
        f1.spec_v1() == fold_group(f0.spec_v1(), alpha),
        f1.spec_v2() == fold_group(f0.spec_v2(), f_inv(alpha)),
        f1.spec_s1() == fold_field(f0.spec_s1(), alpha),
        f1.spec_s2() == fold_field(f0.spec_s2(), f_inv(alpha)),
        f1.spec_v2_scalars() == f0.spec_v2_scalars(),
        f1.spec_setup() == f0.spec_setup(),
        p1.spec_num_rounds() == p0.spec_num_rounds() - 1,
        p1.spec_v1() == fold_group(p0.spec_v1(), alpha),
        p1.spec_v2() == fold_group(p0.spec_v2(), f_inv(alpha)),
        p1.spec_s1() == fold_field(p0.spec_s1(), alpha),
        p1.spec_s2() == fold_field(p0.spec_s2(), f_inv(alpha)),
        p1.spec_v2_scalars() == p0.spec_v2_scalars(),
        p1.spec_setup() == p0.spec_setup(),
    ensures
        holds_like(f1, p1),
{
}

/// The steps the first message of a round adds to the transcript: `D₁L`,
/// `D₁R`, `D₂L`, `D₂R`, `E₁β`, `E₂β` under their names.
pub open spec fn first_message_entries<E: PairingCurve>(m: FirstReduceMessage<E::G1, E::G2, E::GT>) -> TranscriptLog<E> {
    seq![
        ("d1_left"@, TranscriptEntry::GT(m.d1_left)),
        ("d1_right"@, TranscriptEntry::GT(m.d1_right)),
        ("d2_left"@, TranscriptEntry::GT(m.d2_left)),
        ("d2_right"@, TranscriptEntry::GT(m.d2_right)),
        ("e1_beta"@, TranscriptEntry::G1(m.e1_beta)),
        ("e2_beta"@, TranscriptEntry::G2(m.e2_beta)),
    ]
}

/// The steps the second message of a round adds to the transcript: `C₊`,
/// `C₋`, `E₁₊`, `E₁₋`, `E₂₊`, `E₂₋` under their names.
pub open spec fn second_message_entries<E: PairingCurve>(m: SecondReduceMessage<E::G1, E::G2, E::GT>) -> TranscriptLog<E> {
    seq![
        ("c_plus"@, TranscriptEntry::GT(m.c_plus)),
        ("c_minus"@, TranscriptEntry::GT(m.c_minus)),
        ("e1_plus"@, TranscriptEntry::G1(m.e1_plus)),
        ("e1_minus"@, TranscriptEntry::G1(m.e1_minus)),
        ("e2_plus"@, TranscriptEntry::G2(m.e2_plus)),
        ("e2_minus"@, TranscriptEntry::G2(m.e2_minus)),
    ]
}

/// A challenge drawn under `label`.
pub open spec fn challenge_entry<E: PairingCurve>(label: TranscriptLabel) -> (TranscriptLabel, TranscriptEntry<E>) {
    (label, TranscriptEntry::Challenge)
}

/// The steps of one round: the first message, `β` drawn under `"beta"`,
/// the second message, `α` drawn under `"alpha"`.
pub open spec fn round_entries<E: PairingCurve>(
    m1: FirstReduceMessage<E::G1, E::G2, E::GT>,
    m2: SecondReduceMessage<E::G1, E::G2, E::GT>,
) -> TranscriptLog<E> {
    first_message_entries::<E>(m1).push(challenge_entry::<E>("beta"@)) + second_message_entries::<E>(m2).push(
        challenge_entry::<E>("alpha"@))
}

/// The transcript `log0` after `k` rounds with the messages `fm`, `sm`.
#[verifier::opaque]
pub open spec fn rounds_log<E: PairingCurve>(
    log0: TranscriptLog<E>,
    fm: Seq<FirstReduceMessage<E::G1, E::G2, E::GT>>,
    sm: Seq<SecondReduceMessage<E::G1, E::G2, E::GT>>,
    k: nat,
) -> TranscriptLog<E>
    decreases k,
{
    if k == 0 {
        log0
    } else {
        rounds_log(log0, fm, sm, (k - 1) as nat) + round_entries::<E>(fm[k - 1], sm[k - 1])
    }
}

/// The challenges of the first `k` rounds from `log0` are those the
/// transcript `T` draws: `βᵢ` after round `i`'s first message, `αᵢ` after
/// its second.
#[verifier::opaque]
pub open spec fn challenges_follow<E: PairingCurve, T: Transcript<E>>(
    log0: TranscriptLog<E>,
    fm: Seq<FirstReduceMessage<E::G1, E::G2, E::GT>>,
    sm: Seq<SecondReduceMessage<E::G1, E::G2, E::GT>>,
    betas: Seq<Scalar<E>>,
    alphas: Seq<Scalar<E>>,
    k: nat,
) -> bool {
    forall|i: int| 0 <= i < k ==> {
        &&& #[trigger] betas[i] == T::spec_challenge(rounds_log(log0, fm, sm, i as nat) + first_message_entries::<E>(fm[i]), "beta"@)
        &&& alphas[i] == T::spec_challenge(rounds_log(log0, fm, sm, i as nat) + first_message_entries::<E>(fm[i]).push(
            challenge_entry::<E>("beta"@)) + second_message_entries::<E>(sm[i]), "alpha"@)
    }
}

/// The steps after the rounds: `γ` drawn under `"gamma"`, the final
/// message's `E₁`, `E₂` under `"final_e1"`, `"final_e2"`, `d` drawn under
/// `"d"`.
pub open spec fn final_entries<E: PairingCurve>(m: ScalarProductMessage<E::G1, E::G2>) -> TranscriptLog<E> {
    seq![
        challenge_entry::<E>("gamma"@),
        ("final_e1"@, TranscriptEntry::G1(m.e1)),
        ("final_e2"@, TranscriptEntry::G2(m.e2)),
        challenge_entry::<E>("d"@),
    ]
}

/// The rounds' steps depend only on the messages of those rounds.
pub proof fn lemma_rounds_log_prefix<E: PairingCurve>(
    log0: TranscriptLog<E>,
    fm1: Seq<FirstReduceMessage<E::G1, E::G2, E::GT>>,
    sm1: Seq<SecondReduceMessage<E::G1, E::G2, E::GT>>,
    fm2: Seq<FirstReduceMessage<E::G1, E::G2, E::GT>>,
    sm2: Seq<SecondReduceMessage<E::G1, E::G2, E::GT>>,
    j: nat,
)
    requires
        forall|k: int| 0 <= k < j ==> fm1[k] == fm2[k] && sm1[k] == sm2[k],
    ensures
        rounds_log(log0, fm1, sm1, j) == rounds_log(log0, fm2, sm2, j),
    decreases j,
{
    reveal(rounds_log);
    if j > 0 {
        lemma_rounds_log_prefix(log0, fm1, sm1, fm2, sm2, (j - 1) as nat);
        assert(fm1[j - 1] == fm2[j - 1] && sm1[j - 1] == sm2[j - 1]);
    }
}

/// The rounds only add steps after `log0`.
pub proof fn lemma_rounds_log_extends<E: PairingCurve>(
    log0: TranscriptLog<E>,
    fm: Seq<FirstReduceMessage<E::G1, E::G2, E::GT>>,
    sm: Seq<SecondReduceMessage<E::G1, E::G2, E::GT>>,
    k: nat,
)
    ensures
        rounds_log(log0, fm, sm, k).len() >= log0.len(),
        rounds_log(log0, fm, sm, k).subrange(0, log0.len() as int) == log0,
    decreases k,
{
    reveal(rounds_log);
    if k > 0 {
        lemma_rounds_log_extends(log0, fm, sm, (k - 1) as nat);
        let prev = rounds_log(log0, fm, sm, (k - 1) as nat);
        assert((prev + round_entries::<E>(fm[k - 1], sm[k - 1])).subrange(0, log0.len() as int) =~= prev.subrange(0, log0.len() as int));
    }
    assert(log0.subrange(0, log0.len() as int) =~= log0);
}

/// A challenge with no inverse drawn under `label` after `log + x`, where
/// `log` extends `start`, ends the transcript in a zero challenge.
pub proof fn lemma_zero_challenge_after<E: PairingCurve, T: Transcript<E>>(
    start: TranscriptLog<E>,
    log: TranscriptLog<E>,
    x: TranscriptLog<E>,
    label: TranscriptLabel,
)
    requires
        log.len() >= start.len(),
        log.subrange(0, start.len() as int) == start,
        !invertible(T::spec_challenge(log + x, label)),
    ensures
        ends_in_zero_challenge::<E, T>(start, (log + x).push(challenge_entry::<E>(label))),
{
    let full = (log + x).push(challenge_entry::<E>(label));
    assert(full.subrange(0, start.len() as int) =~= log.subrange(0, start.len() as int));
    assert(full.drop_last() =~= log + x);
}

/// One more round of messages already known: its steps follow the earlier
/// rounds', and its challenges are the ones drawn after them.
pub proof fn lemma_rounds_log_step<E: PairingCurve, T: Transcript<E>>(
    log0: TranscriptLog<E>,
    fm: Seq<FirstReduceMessage<E::G1, E::G2, E::GT>>,
    sm: Seq<SecondReduceMessage<E::G1, E::G2, E::GT>>,
    betas: Seq<Scalar<E>>,
    alphas: Seq<Scalar<E>>,
    beta: Scalar<E>,
    alpha: Scalar<E>,
    k: nat,
)
    requires
        k < fm.len(),
        k < sm.len(),
        betas.len() == k,
        alphas.len() == k,
        challenges_follow::<E, T>(log0, fm, sm, betas, alphas, k),
        beta == T::spec_challenge(rounds_log(log0, fm, sm, k) + first_message_entries::<E>(fm[k as int]), "beta"@),
        alpha == T::spec_challenge(rounds_log(log0, fm, sm, k) + first_message_entries::<E>(fm[k as int]).push(
            challenge_entry::<E>("beta"@)) + second_message_entries::<E>(sm[k as int]), "alpha"@),
    ensures
        rounds_log(log0, fm, sm, k + 1) == rounds_log(log0, fm, sm, k) + round_entries::<E>(fm[k as int], sm[k as int]),
        challenges_follow::<E, T>(log0, fm, sm, betas.push(beta), alphas.push(alpha), k + 1),
{
    reveal(rounds_log);
    reveal(challenges_follow);
    assert forall|i: int| 0 <= i < k + 1 implies {
        &&& #[trigger] betas.push(beta)[i] == T::spec_challenge(rounds_log(log0, fm, sm, i as nat) + first_message_entries::<E>(fm[i]), "beta"@)
        &&& alphas.push(alpha)[i] == T::spec_challenge(rounds_log(log0, fm, sm, i as nat) + first_message_entries::<E>(fm[i]).push(
            challenge_entry::<E>("beta"@)) + second_message_entries::<E>(sm[i]), "alpha"@)
    } by {
        if i < k {
            assert(betas[i] == T::spec_challenge(rounds_log(log0, fm, sm, i as nat) + first_message_entries::<E>(fm[i]), "beta"@));
            assert(betas.push(beta)[i] == betas[i] && alphas.push(alpha)[i] == alphas[i]);
        } else {
            assert(i == k);
            assert(betas.push(beta)[i] == beta && alphas.push(alpha)[i] == alpha);
        }
    }
}

/// One more round: its steps follow the earlier rounds', and its challenges
/// are the ones drawn after them.
pub proof fn lemma_rounds_log_push<E: PairingCurve, T: Transcript<E>>(
    log0: TranscriptLog<E>,
    fm: Seq<FirstReduceMessage<E::G1, E::G2, E::GT>>,
    sm: Seq<SecondReduceMessage<E::G1, E::G2, E::GT>>,
    betas: Seq<Scalar<E>>,
    alphas: Seq<Scalar<E>>,
    m1: FirstReduceMessage<E::G1, E::G2, E::GT>,
    m2: SecondReduceMessage<E::G1, E::G2, E::GT>,
    beta: Scalar<E>,
    alpha: Scalar<E>,
    k: nat,
)
    requires
        fm.len() == k,
        sm.len() == k,
        betas.len() == k,
        alphas.len() == k,
        challenges_follow::<E, T>(log0, fm, sm, betas, alphas, k),
        beta == T::spec_challenge(rounds_log(log0, fm, sm, k) + first_message_entries::<E>(m1), "beta"@),
        alpha == T::spec_challenge(rounds_log(log0, fm, sm, k) + first_message_entries::<E>(m1).push(
            challenge_entry::<E>("beta"@)) + second_message_entries::<E>(m2), "alpha"@),
    ensures
        rounds_log(log0, fm.push(m1), sm.push(m2), k + 1) == rounds_log(log0, fm, sm, k) + round_entries::<E>(m1, m2),
        challenges_follow::<E, T>(log0, fm.push(m1), sm.push(m2), betas.push(beta), alphas.push(alpha), k + 1),
{
    reveal(rounds_log);
    reveal(challenges_follow);
    let fm1 = fm.push(m1);
    let sm1 = sm.push(m2);
    lemma_rounds_log_prefix(log0, fm, sm, fm1, sm1, k);
    assert forall|i: int| 0 <= i < k + 1 implies {
        &&& #[trigger] betas.push(beta)[i] == T::spec_challenge(rounds_log(log0, fm1, sm1, i as nat) + first_message_entries::<E>(fm1[i]), "beta"@)
        &&& alphas.push(alpha)[i] == T::spec_challenge(rounds_log(log0, fm1, sm1, i as nat) + first_message_entries::<E>(fm1[i]).push(
            challenge_entry::<E>("beta"@)) + second_message_entries::<E>(sm1[i]), "alpha"@)
    } by {
        lemma_rounds_log_prefix(log0, fm, sm, fm1, sm1, i as nat);
        if i < k {
            assert(betas[i] == T::spec_challenge(rounds_log(log0, fm, sm, i as nat) + first_message_entries::<E>(fm[i]), "beta"@));
        }
    }
}

/// The outcome of the rounds of the opening protocol: the messages of each
/// round, the challenges drawn, and the prover state after the last round.
pub struct ReducedRounds<E: PairingCurve, M: Mode> {
    pub first_messages: Vec<FirstReduceMessage<E::G1, E::G2, E::GT>>,
    pub second_messages: Vec<SecondReduceMessage<E::G1, E::G2, E::GT>>,
    pub betas: Vec<Scalar<E>>,
    pub alphas: Vec<Scalar<E>>,
    pub state: ForkableDoryProverState<E, M>,
}

/// Appends the first message of a round to the transcript.
fn append_first_message<E: PairingCurve, T: Transcript<E>>(
    transcript: &mut T,
    m: &FirstReduceMessage<E::G1, E::G2, E::GT>,
)
    ensures
        final(transcript).spec_log() == old(transcript).spec_log() + first_message_entries::<E>(*m),
{
    transcript.append_gt("d1_left", &m.d1_left);
    transcript.append_gt("d1_right", &m.d1_right);
    transcript.append_gt("d2_left", &m.d2_left);
    transcript.append_gt("d2_right", &m.d2_right);
    transcript.append_g1("e1_beta", &m.e1_beta);
    transcript.append_g2("e2_beta", &m.e2_beta);
    assert(transcript.spec_log() =~= old(transcript).spec_log() + first_message_entries::<E>(*m));
}

/// Appends the second message of a round to the transcript.
fn append_second_message<E: PairingCurve, T: Transcript<E>>(
    transcript: &mut T,
    m: &SecondReduceMessage<E::G1, E::G2, E::GT>,
)
    ensures
        final(transcript).spec_log() == old(transcript).spec_log() + second_message_entries::<E>(*m),
{
    transcript.append_gt("c_plus", &m.c_plus);
    transcript.append_gt("c_minus", &m.c_minus);
    transcript.append_g1("e1_plus", &m.e1_plus);
    transcript.append_g1("e1_minus", &m.e1_minus);
    transcript.append_g2("e2_plus", &m.e2_plus);
    transcript.append_g2("e2_minus", &m.e2_minus);
    assert(transcript.spec_log() =~= old(transcript).spec_log() + second_message_entries::<E>(*m));
}

/// Appends the first message of a round and draws `β`.
pub(crate) fn absorb_first_message<E: PairingCurve, T: Transcript<E>>(
    transcript: &mut T,
    m: &FirstReduceMessage<E::G1, E::G2, E::GT>,
) -> (beta: Scalar<E>)
    ensures
        final(transcript).spec_log() == (old(transcript).spec_log() + first_message_entries::<E>(*m)).push(
            challenge_entry::<E>("beta"@)),
        beta == T::spec_challenge(old(transcript).spec_log() + first_message_entries::<E>(*m), "beta"@),
{
    append_first_message(transcript, m);
    transcript.challenge_scalar("beta")
}

/// Appends the second message of a round and draws `α`.
pub(crate) fn absorb_second_message<E: PairingCurve, T: Transcript<E>>(
    transcript: &mut T,
    m: &SecondReduceMessage<E::G1, E::G2, E::GT>,
) -> (alpha: Scalar<E>)
    ensures
        final(transcript).spec_log() == (old(transcript).spec_log() + second_message_entries::<E>(*m)).push(
            challenge_entry::<E>("alpha"@)),
        alpha == T::spec_challenge(old(transcript).spec_log() + second_message_entries::<E>(*m), "alpha"@),
{
    append_second_message(transcript, m);
    transcript.challenge_scalar("alpha")
}

/// The steps of a round, as its two halves add them.
pub proof fn lemma_round_log_shape<E: PairingCurve>(
    log: TranscriptLog<E>,
    m1: FirstReduceMessage<E::G1, E::G2, E::GT>,
    m2: SecondReduceMessage<E::G1, E::G2, E::GT>,
)
    ensures
        (log + first_message_entries::<E>(m1)).push(challenge_entry::<E>("beta"@)) + second_message_entries::<E>(m2)
            == log + (first_message_entries::<E>(m1).push(challenge_entry::<E>("beta"@)) + second_message_entries::<E>(m2)),
        ((log + first_message_entries::<E>(m1)).push(challenge_entry::<E>("beta"@)) + second_message_entries::<E>(m2)).push(
            challenge_entry::<E>("alpha"@)) == log + round_entries::<E>(m1, m2),
{
    assert((log + first_message_entries::<E>(m1)).push(challenge_entry::<E>("beta"@)) + second_message_entries::<E>(m2)
        =~= log + (first_message_entries::<E>(m1).push(challenge_entry::<E>("beta"@)) + second_message_entries::<E>(m2)));
    assert(((log + first_message_entries::<E>(m1)).push(challenge_entry::<E>("beta"@)) + second_message_entries::<E>(m2)).push(
        challenge_entry::<E>("alpha"@)) =~= log + round_entries::<E>(m1, m2));
}

/// Rounds `round..num_rounds` of the opening protocol. Each round forks the
/// state into two branches and computes the first message on both; the
/// message goes to the transcript and `β` is drawn; both branches apply
/// `β` and compute the second message, which goes to the transcript before
/// `α` is drawn; both apply `α`, and the branch chosen by the low bit of
/// `β` carries on. Both branches hold the same vectors, so the messages are
/// those of the plain protocol. `Err(ZeroChallenge)` when a drawn challenge
/// has no inverse.
pub fn compute_rounds_tree<E, M1, M2, Mo, T>(
    round: usize,
    num_rounds: usize,
    prover_state: ForkableDoryProverState<E, Mo>,
    transcript: &mut T,
) -> (r: Result<ReducedRounds<E, Mo>, DoryError>)
    where
        E: PairingCurve,
        E::G2: Group<Scalar = Scalar<E>>,
        E::GT: Group<Scalar = Scalar<E>>,
        M1: DoryRoutines<E::G1>,
        M2: DoryRoutines<E::G2>,
        Mo: Mode,
        T: Transcript<E>,
    requires
        prover_state.wf(),
        prover_state.setup_covers(),
        round <= num_rounds,
        num_rounds - round <= prover_state.spec_num_rounds(),
    ensures
        r is Err ==> r == Err::<ReducedRounds<E, Mo>, DoryError>(DoryError::ZeroChallenge),
        r is Err ==> ends_in_zero_challenge::<E, T>(old(transcript).spec_log(), final(transcript).spec_log()),
        r matches Ok(out) ==> {
            let k = (num_rounds - round) as nat;
            &&& rounds_follow(prover_state, out.first_messages@, out.second_messages@, out.betas@, out.alphas@, k)
            &&& state_after(prover_state, out.state, out.betas@, out.alphas@, k)
            &&& final(transcript).spec_log() == rounds_log(old(transcript).spec_log(), out.first_messages@, out.second_messages@, k)
            &&& challenges_follow::<E, T>(old(transcript).spec_log(), out.first_messages@, out.second_messages@, out.betas@, out.alphas@, k)
        },
{
    let ghost st0 = prover_state;
    let ghost log0 = transcript.spec_log();
    let mut state = prover_state;
    let mut first_messages: Vec<FirstReduceMessage<E::G1, E::G2, E::GT>> = Vec::new();
    let mut second_messages: Vec<SecondReduceMessage<E::G1, E::G2, E::GT>> = Vec::new();
    let mut betas: Vec<Scalar<E>> = Vec::new();
    let mut alphas: Vec<Scalar<E>> = Vec::new();
    let mut r: usize = round;
    assert(vector_after(st0.spec_v1(), st0.spec_setup().g1_vec@, betas@, alphas@, false, 0) == st0.spec_v1());
    assert(rounds_log(log0, first_messages@, second_messages@, 0) == log0) by {
        reveal(rounds_log);
    }
    assert(challenges_follow::<E, T>(log0, first_messages@, second_messages@, betas@, alphas@, 0)) by {
        reveal(challenges_follow);
    }
    while r < num_rounds
        invariant
            round <= r <= num_rounds,
            num_rounds - round <= st0.spec_num_rounds(),
            rounds_follow(st0, first_messages@, second_messages@, betas@, alphas@, (r - round) as nat),
            state_after(st0, state, betas@, alphas@, (r - round) as nat),
            log0 == old(transcript).spec_log(),
            transcript.spec_log() == rounds_log(log0, first_messages@, second_messages@, (r - round) as nat),
            challenges_follow::<E, T>(log0, first_messages@, second_messages@, betas@, alphas@, (r - round) as nat),
        decreases num_rounds - r,
    {
        let ghost i = (r - round) as nat;
        let ghost su = st0.spec_setup();
        let (left_state, right_state) = state.fork();
        let mut left_probe = left_state.clone();
        let first_msg = left_probe.compute_first_message::<M1, M2>();
        let mut right_probe = right_state.clone();
        let _right_first = right_probe.compute_first_message::<M1, M2>();
        let ghost log_i = transcript.spec_log();
        let beta = absorb_first_message(transcript, &first_msg);
        if beta.inv().is_none() {
            proof {
                lemma_rounds_log_extends(log0, first_messages@, second_messages@, i);
                lemma_zero_challenge_after::<E, T>(log0, log_i, first_message_entries::<E>(first_msg), "beta"@);
            }
            return Err(DoryError::ZeroChallenge);
        }
        let mut left = left_state;
        let mut right = right_state;
        left.apply_first_challenge::<M1, M2>(&beta);
        right.apply_first_challenge::<M1, M2>(&beta);
        let mut left_shifted = left.clone_state();
        let second_msg = left.compute_second_message::<M1, M2>();
        let _right_second = right.compute_second_message::<M1, M2>();
        let alpha = absorb_second_message(transcript, &second_msg);
        proof {
            lemma_round_log_shape::<E>(log_i, first_msg, second_msg);
        }
        if alpha.inv().is_none() {
            proof {
                lemma_rounds_log_extends(log0, first_messages@, second_messages@, i);
                lemma_zero_challenge_after::<E, T>(log0, log_i,
                    first_message_entries::<E>(first_msg).push(challenge_entry::<E>("beta"@)) + second_message_entries::<E>(second_msg), "alpha"@);
            }
            return Err(DoryError::ZeroChallenge);
        }
        left.apply_second_challenge::<M1, M2>(&alpha);
        right.apply_second_challenge::<M1, M2>(&alpha);
        proof {
            let fm0 = first_messages@;
            let sm0 = second_messages@;
            let b0 = betas@;
            let a0 = alphas@;
            let b1 = b0.push(beta);
            let a1 = a0.push(alpha);
            lemma_vector_after_prefix(st0.spec_v1(), su.g1_vec@, b0, a0, b1, a1, false, i);
            lemma_vector_after_prefix(st0.spec_v2(), su.g2_vec@, b0, a0, b1, a1, true, i);
            lemma_scalars_after_prefix(st0.spec_s1(), a0, a1, false, i);
            lemma_scalars_after_prefix(st0.spec_s2(), a0, a1, true, i);
            let (rd1, rd2, _c, _e1, _e2) = left_probe.spec_round_blinds();
            lemma_first_message_same_setup::<E>(Mo::blinds(), state.spec_v1(), state.spec_v2(), state.spec_v2_scalars(),
                state.spec_s1(), state.spec_s2(), left_state.spec_setup(), su, rd1, rd2);
            let (_d1, _d2, rc, re1, re2) = left.spec_round_blinds();
            lemma_second_message_same_setup::<E>(Mo::blinds(), left_shifted.spec_v1(), left_shifted.spec_v2(),
                left_shifted.spec_s1(), left_shifted.spec_s2(), left_state.spec_setup(), su, rc, re1, re2);
            assert(first_message_in::<E>(Mo::blinds(), first_msg, round_v1(st0, b1, a1, i), round_v2(st0, b1, a1, i),
                round_v2_scalars(st0, i), scalars_after(st0.spec_s1(), a1, false, i), scalars_after(st0.spec_s2(), a1, true, i), su));
            assert(second_message_in::<E>(Mo::blinds(), second_msg,
                shift_by(round_v1(st0, b1, a1, i), su.g1_vec@, b1[i as int]),
                shift_by(round_v2(st0, b1, a1, i), su.g2_vec@, f_inv(b1[i as int])),
                scalars_after(st0.spec_s1(), a1, false, i), scalars_after(st0.spec_s2(), a1, true, i), su));
            assert forall|j: int| 0 <= j < i implies
                #[trigger] round_v1(st0, b1, a1, j as nat) == round_v1(st0, b0, a0, j as nat)
                && round_v2(st0, b1, a1, j as nat) == round_v2(st0, b0, a0, j as nat)
                && scalars_after(st0.spec_s1(), a1, false, j as nat) == scalars_after(st0.spec_s1(), a0, false, j as nat)
                && scalars_after(st0.spec_s2(), a1, true, j as nat) == scalars_after(st0.spec_s2(), a0, true, j as nat) by {
                lemma_vector_after_prefix(st0.spec_v1(), su.g1_vec@, b0, a0, b1, a1, false, j as nat);
                lemma_vector_after_prefix(st0.spec_v2(), su.g2_vec@, b0, a0, b1, a1, true, j as nat);
                lemma_scalars_after_prefix(st0.spec_s1(), a0, a1, false, j as nat);
                lemma_scalars_after_prefix(st0.spec_s2(), a0, a1, true, j as nat);
            }
        }
        proof {
            lemma_rounds_log_push::<E, T>(log0, first_messages@, second_messages@, betas@, alphas@, first_msg, second_msg, beta, alpha, i);
        }
        first_messages.push(first_msg);
        second_messages.push(second_msg);
        betas.push(beta);
        alphas.push(alpha);
        proof {
            let i1 = i + 1;
            assert(round_v1(st0, betas@, alphas@, i1) == left.spec_v1());
            assert(round_v2(st0, betas@, alphas@, i1) == left.spec_v2());
            assert(scalars_after(st0.spec_s1(), alphas@, false, i1) == left.spec_s1());
            assert(scalars_after(st0.spec_s2(), alphas@, true, i1) == left.spec_s2());
        }
        state = if !beta.branch_bit() { left } else { right };
        r = r + 1;
    }
    Ok(ReducedRounds { first_messages, second_messages, betas, alphas, state })
}

/// The messages of the rounds and the final message, with the challenges
/// drawn for them.
pub struct ReduceAndFoldOutput<E: PairingCurve> {
    pub first_messages: Vec<FirstReduceMessage<E::G1, E::G2, E::GT>>,
    pub second_messages: Vec<SecondReduceMessage<E::G1, E::G2, E::GT>>,
    pub final_message: ScalarProductMessage<E::G1, E::G2>,
    pub betas: Vec<Scalar<E>>,
    pub alphas: Vec<Scalar<E>>,
    pub gamma: Scalar<E>,
}

/// `m` is the final message for the state `st0` after `k` rounds with the
/// challenges `betas`, `alphas` and `γ`, for some blinds, zero when `mask`
/// is off.
pub open spec fn final_message_in<E: PairingCurve, M: Mode>(
    mask: bool,
    m: ScalarProductMessage<E::G1, E::G2>,
    st0: ForkableDoryProverState<E, M>,
    betas: Seq<Scalar<E>>,
    alphas: Seq<Scalar<E>>,
    gamma: Scalar<E>,
    k: nat,
) -> bool
    where E::G2: Group<Scalar = Scalar<E>>, E::GT: Group<Scalar = Scalar<E>>,
{
    exists|r1: Scalar<E>, r2: Scalar<E>|
        (!mask ==> r1 == Scalar::<E>::spec_zero() && r2 == Scalar::<E>::spec_zero())
        && m == #[trigger] final_message_value::<E>(round_v1(st0, betas, alphas, k)[0], round_v2(st0, betas, alphas, k)[0],
            scalars_after(st0.spec_s1(), alphas, false, k)[0], scalars_after(st0.spec_s2(), alphas, true, k)[0],
            st0.spec_setup(), gamma, r1, r2)
}

/// The end of the opening: `γ` is drawn under `"gamma"`, the final message
/// computed and appended under `"final_e1"`, `"final_e2"`, and `d` drawn
/// under `"d"`. `Err(ZeroChallenge)` right after drawing a `γ` with no
/// inverse.
fn absorb_final_message<E, M1, M2, Mo, T>(
    state: &mut ForkableDoryProverState<E, Mo>,
    transcript: &mut T,
) -> (r: Result<(ScalarProductMessage<E::G1, E::G2>, Scalar<E>), DoryError>)
    where
        E: PairingCurve,
        E::G2: Group<Scalar = Scalar<E>>,
        E::GT: Group<Scalar = Scalar<E>>,
        M1: DoryRoutines<E::G1>,
        M2: DoryRoutines<E::G2>,
        Mo: Mode,
        T: Transcript<E>,
    requires
        old(state).wf(),
        old(state).spec_num_rounds() == 0,
    ensures
        r is Err ==> {
            &&& r == Err::<(ScalarProductMessage<E::G1, E::G2>, Scalar<E>), DoryError>(DoryError::ZeroChallenge)
            &&& final(transcript).spec_log() == old(transcript).spec_log().push(challenge_entry::<E>("gamma"@))
            &&& !invertible(T::spec_challenge(old(transcript).spec_log(), "gamma"@))
        },
        r matches Ok((m, gamma)) ==> {
            &&& gamma == T::spec_challenge(old(transcript).spec_log(), "gamma"@)
            &&& invertible(gamma)
            &&& final(transcript).spec_log() == old(transcript).spec_log() + final_entries::<E>(m)
            &&& exists|r1: Scalar<E>, r2: Scalar<E>| {
                &&& (!Mo::blinds() ==> r1 == Scalar::<E>::spec_zero() && r2 == Scalar::<E>::spec_zero())
                &&& m == #[trigger] final_message_value::<E>(old(state).spec_v1()[0], old(state).spec_v2()[0],
                    old(state).spec_s1()[0], old(state).spec_s2()[0], old(state).spec_setup(), gamma, r1, r2)
            }
        },
{
    let gamma = transcript.challenge_scalar("gamma");
    if gamma.inv().is_none() {
        return Err(DoryError::ZeroChallenge);
    }
    let final_message = state.compute_final_message::<M1, M2>(&gamma);
    transcript.append_g1("final_e1", &final_message.e1);
    transcript.append_g2("final_e2", &final_message.e2);
    let _d = transcript.challenge_scalar("d");
    assert(transcript.spec_log() =~= old(transcript).spec_log() + final_entries::<E>(final_message));
    Ok((final_message, gamma))
}

/// Every round of the opening protocol from `prover_state` (see
/// `compute_rounds_tree`), then `γ` is drawn, the final message computed
/// and appended, and the last challenge `d` drawn. `Err(ZeroChallenge)`
/// when a drawn challenge has no inverse.
pub fn prove_rounds_forked<E, M1, M2, Mo, T>(
    prover_state: ForkableDoryProverState<E, Mo>,
    transcript: &mut T,
) -> (r: Result<ReduceAndFoldOutput<E>, DoryError>)
    where
        E: PairingCurve,
        E::G2: Group<Scalar = Scalar<E>>,
        E::GT: Group<Scalar = Scalar<E>>,
        M1: DoryRoutines<E::G1>,
        M2: DoryRoutines<E::G2>,
        Mo: Mode,
        T: Transcript<E>,
    requires
        prover_state.wf(),
        prover_state.setup_covers(),
    ensures
        r is Err ==> r == Err::<ReduceAndFoldOutput<E>, DoryError>(DoryError::ZeroChallenge),
        r matches Ok(out) ==> {
            let k = prover_state.spec_num_rounds();
            &&& rounds_follow(prover_state, out.first_messages@, out.second_messages@, out.betas@, out.alphas@, k)
            &&& invertible(out.gamma)
            &&& final_message_in::<E, Mo>(Mo::blinds(), out.final_message, prover_state, out.betas@, out.alphas@, out.gamma, k)
            &&& challenges_follow::<E, T>(old(transcript).spec_log(), out.first_messages@, out.second_messages@, out.betas@, out.alphas@, k)
            &&& out.gamma == T::spec_challenge(rounds_log(old(transcript).spec_log(), out.first_messages@, out.second_messages@, k), "gamma"@)
            &&& final(transcript).spec_log() == rounds_log(old(transcript).spec_log(), out.first_messages@, out.second_messages@, k)
                + final_entries::<E>(out.final_message)
        },
        r is Err ==> ends_in_zero_challenge::<E, T>(old(transcript).spec_log(), final(transcript).spec_log()),
{
    let num_rounds = prover_state.rounds_remaining();
    let rounds = match compute_rounds_tree::<E, M1, M2, Mo, T>(0, num_rounds, prover_state, transcript) {
        Ok(rounds) => rounds,
        Err(e) => return Err(e),
    };
    let ReducedRounds { first_messages, second_messages, betas, alphas, state } = rounds;
    let mut state = state;
    let ghost before = state;
    let ghost log_r = transcript.spec_log();
    let (final_message, gamma) = match absorb_final_message::<E, M1, M2, Mo, T>(&mut state, transcript) {
        Ok(x) => x,
        Err(e) => {
            proof {
                lemma_rounds_log_extends(old(transcript).spec_log(), first_messages@, second_messages@, prover_state.spec_num_rounds());
                lemma_zero_challenge_after::<E, T>(old(transcript).spec_log(), log_r, Seq::empty(), "gamma"@);
                assert(log_r + Seq::<(TranscriptLabel, TranscriptEntry<E>)>::empty() =~= log_r);
            }
            return Err(e);
        },
    };
    proof {
        let k = prover_state.spec_num_rounds();
        let (r1, r2) = choose|r1: Scalar<E>, r2: Scalar<E>| {
            &&& (!Mo::blinds() ==> r1 == Scalar::<E>::spec_zero() && r2 == Scalar::<E>::spec_zero())
            &&& final_message == final_message_value::<E>(before.spec_v1()[0], before.spec_v2()[0],
                before.spec_s1()[0], before.spec_s2()[0], before.spec_setup(), gamma, r1, r2)
        };
        assert(final_message == final_message_value::<E>(round_v1(prover_state, betas@, alphas@, k)[0],
            round_v2(prover_state, betas@, alphas@, k)[0],
            scalars_after(prover_state.spec_s1(), alphas@, false, k)[0],
            scalars_after(prover_state.spec_s2(), alphas@, true, k)[0],
            prover_state.spec_setup(), gamma, r1, r2));
    }
    Ok(ReduceAndFoldOutput { first_messages, second_messages, final_message, betas, alphas, gamma })
}

/// Every round of the opening protocol on one prover state, without
/// forking: the first message goes to the transcript and `β` is drawn and
/// applied, then the second message goes to the transcript and `α` is
/// drawn and applied; then `γ` is drawn, the final message computed and
/// appended, and `d` drawn. The messages and their contract are those of
/// `prove_rounds_forked`. `Err(ZeroChallenge)` when a drawn challenge has
/// no inverse.
pub fn prove_rounds_sequential<E, M1, M2, Mo, T>(
    prover_state: ForkableDoryProverState<E, Mo>,
    transcript: &mut T,
) -> (r: Result<ReduceAndFoldOutput<E>, DoryError>)
    where
        E: PairingCurve,
        E::G2: Group<Scalar = Scalar<E>>,
        E::GT: Group<Scalar = Scalar<E>>,
        M1: DoryRoutines<E::G1>,
        M2: DoryRoutines<E::G2>,
        Mo: Mode,
        T: Transcript<E>,
    requires
        prover_state.wf(),
        prover_state.setup_covers(),
    ensures
        r is Err ==> r == Err::<ReduceAndFoldOutput<E>, DoryError>(DoryError::ZeroChallenge),
        r matches Ok(out) ==> {
            let k = prover_state.spec_num_rounds();
            &&& rounds_follow(prover_state, out.first_messages@, out.second_messages@, out.betas@, out.alphas@, k)
            &&& invertible(out.gamma)
            &&& final_message_in::<E, Mo>(Mo::blinds(), out.final_message, prover_state, out.betas@, out.alphas@, out.gamma, k)
            &&& challenges_follow::<E, T>(old(transcript).spec_log(), out.first_messages@, out.second_messages@, out.betas@, out.alphas@, k)
            &&& out.gamma == T::spec_challenge(rounds_log(old(transcript).spec_log(), out.first_messages@, out.second_messages@, k), "gamma"@)
            &&& final(transcript).spec_log() == rounds_log(old(transcript).spec_log(), out.first_messages@, out.second_messages@, k)
                + final_entries::<E>(out.final_message)
        },
        r is Err ==> ends_in_zero_challenge::<E, T>(old(transcript).spec_log(), final(transcript).spec_log()),
{
    let ghost st0 = prover_state;
    let ghost log0 = transcript.spec_log();
    let num_rounds = prover_state.rounds_remaining();
    let mut state = prover_state;
    let mut first_messages: Vec<FirstReduceMessage<E::G1, E::G2, E::GT>> = Vec::new();
    let mut second_messages: Vec<SecondReduceMessage<E::G1, E::G2, E::GT>> = Vec::new();
    let mut betas: Vec<Scalar<E>> = Vec::new();
    let mut alphas: Vec<Scalar<E>> = Vec::new();
    let mut round: usize = 0;
    assert(rounds_log(log0, first_messages@, second_messages@, 0) == log0) by {
        reveal(rounds_log);
    }
    assert(challenges_follow::<E, T>(log0, first_messages@, second_messages@, betas@, alphas@, 0)) by {
        reveal(challenges_follow);
    }
    while round < num_rounds
        invariant
            round <= num_rounds,
            num_rounds == st0.spec_num_rounds(),
            rounds_follow(st0, first_messages@, second_messages@, betas@, alphas@, round as nat),
            state_after(st0, state, betas@, alphas@, round as nat),
            log0 == old(transcript).spec_log(),
            transcript.spec_log() == rounds_log(log0, first_messages@, second_messages@, round as nat),
            challenges_follow::<E, T>(log0, first_messages@, second_messages@, betas@, alphas@, round as nat),
        decreases num_rounds - round,
    {
        let ghost i = round as nat;
        let ghost su = st0.spec_setup();
        let ghost start = state;
        let first_msg = state.compute_first_message::<M1, M2>();
        let ghost after_first = state;
        let ghost log_i = transcript.spec_log();
        let beta = absorb_first_message(transcript, &first_msg);
        if beta.inv().is_none() {
            proof {
                lemma_rounds_log_extends(log0, first_messages@, second_messages@, i);
                lemma_zero_challenge_after::<E, T>(log0, log_i, first_message_entries::<E>(first_msg), "beta"@);
            }
            return Err(DoryError::ZeroChallenge);
        }
        state.apply_first_challenge::<M1, M2>(&beta);
        let ghost shifted = state;
        let second_msg = state.compute_second_message::<M1, M2>();
        let alpha = absorb_second_message(transcript, &second_msg);
        proof {
            lemma_round_log_shape::<E>(log_i, first_msg, second_msg);
        }
        if alpha.inv().is_none() {
            proof {
                lemma_rounds_log_extends(log0, first_messages@, second_messages@, i);
                lemma_zero_challenge_after::<E, T>(log0, log_i,
                    first_message_entries::<E>(first_msg).push(challenge_entry::<E>("beta"@)) + second_message_entries::<E>(second_msg), "alpha"@);
            }
            return Err(DoryError::ZeroChallenge);
        }
        let ghost before_alpha = state;
        state.apply_second_challenge::<M1, M2>(&alpha);
        proof {
            let b0 = betas@;
            let a0 = alphas@;
            let b1 = b0.push(beta);
            let a1 = a0.push(alpha);
            lemma_vector_after_prefix(st0.spec_v1(), su.g1_vec@, b0, a0, b1, a1, false, i);
            lemma_vector_after_prefix(st0.spec_v2(), su.g2_vec@, b0, a0, b1, a1, true, i);
            lemma_scalars_after_prefix(st0.spec_s1(), a0, a1, false, i);
            lemma_scalars_after_prefix(st0.spec_s2(), a0, a1, true, i);
            let (rd1, rd2, _c, _e1, _e2) = after_first.spec_round_blinds();
            lemma_first_message_same_setup::<E>(Mo::blinds(), start.spec_v1(), start.spec_v2(), start.spec_v2_scalars(),
                start.spec_s1(), start.spec_s2(), start.spec_setup(), su, rd1, rd2);
            let (_d1, _d2, rc, re1, re2) = before_alpha.spec_round_blinds();
            lemma_second_message_same_setup::<E>(Mo::blinds(), shifted.spec_v1(), shifted.spec_v2(),
                shifted.spec_s1(), shifted.spec_s2(), shifted.spec_setup(), su, rc, re1, re2);
            assert(first_message_in::<E>(Mo::blinds(), first_msg, round_v1(st0, b1, a1, i), round_v2(st0, b1, a1, i),
                round_v2_scalars(st0, i), scalars_after(st0.spec_s1(), a1, false, i), scalars_after(st0.spec_s2(), a1, true, i), su));
            assert(second_message_in::<E>(Mo::blinds(), second_msg,
                shift_by(round_v1(st0, b1, a1, i), su.g1_vec@, b1[i as int]),
                shift_by(round_v2(st0, b1, a1, i), su.g2_vec@, f_inv(b1[i as int])),
                scalars_after(st0.spec_s1(), a1, false, i), scalars_after(st0.spec_s2(), a1, true, i), su));
            assert forall|j: int| 0 <= j < i implies
                #[trigger] round_v1(st0, b1, a1, j as nat) == round_v1(st0, b0, a0, j as nat)
                && round_v2(st0, b1, a1, j as nat) == round_v2(st0, b0, a0, j as nat)
                && scalars_after(st0.spec_s1(), a1, false, j as nat) == scalars_after(st0.spec_s1(), a0, false, j as nat)
                && scalars_after(st0.spec_s2(), a1, true, j as nat) == scalars_after(st0.spec_s2(), a0, true, j as nat) by {
                lemma_vector_after_prefix(st0.spec_v1(), su.g1_vec@, b0, a0, b1, a1, false, j as nat);
                lemma_vector_after_prefix(st0.spec_v2(), su.g2_vec@, b0, a0, b1, a1, true, j as nat);
                lemma_scalars_after_prefix(st0.spec_s1(), a0, a1, false, j as nat);
                lemma_scalars_after_prefix(st0.spec_s2(), a0, a1, true, j as nat);
            }
        }
        proof {
            lemma_rounds_log_push::<E, T>(log0, first_messages@, second_messages@, betas@, alphas@, first_msg, second_msg, beta, alpha, i);
        }
        first_messages.push(first_msg);
        second_messages.push(second_msg);
        betas.push(beta);
        alphas.push(alpha);
        proof {
            let i1 = i + 1;
            assert(round_v1(st0, betas@, alphas@, i1) == state.spec_v1());
            assert(round_v2(st0, betas@, alphas@, i1) == state.spec_v2());
            assert(scalars_after(st0.spec_s1(), alphas@, false, i1) == state.spec_s1());
            assert(scalars_after(st0.spec_s2(), alphas@, true, i1) == state.spec_s2());
        }
        round = round + 1;
    }
    let ghost before = state;
    let ghost log_r = transcript.spec_log();
    let (final_message, gamma) = match absorb_final_message::<E, M1, M2, Mo, T>(&mut state, transcript) {
        Ok(x) => x,
        Err(e) => {
            proof {
                lemma_rounds_log_extends(log0, first_messages@, second_messages@, num_rounds as nat);
                lemma_zero_challenge_after::<E, T>(log0, log_r, Seq::empty(), "gamma"@);
                assert(log_r + Seq::<(TranscriptLabel, TranscriptEntry<E>)>::empty() =~= log_r);
            }
            return Err(e);
        },
    };
    proof {
        let k = st0.spec_num_rounds();
        let (r1, r2) = choose|r1: Scalar<E>, r2: Scalar<E>| {
            &&& (!Mo::blinds() ==> r1 == Scalar::<E>::spec_zero() && r2 == Scalar::<E>::spec_zero())
            &&& final_message == final_message_value::<E>(before.spec_v1()[0], before.spec_v2()[0],
                before.spec_s1()[0], before.spec_s2()[0], before.spec_setup(), gamma, r1, r2)
        };
        assert(final_message == final_message_value::<E>(round_v1(st0, betas@, alphas@, k)[0],
            round_v2(st0, betas@, alphas@, k)[0],
            scalars_after(st0.spec_s1(), alphas@, false, k)[0],
            scalars_after(st0.spec_s2(), alphas@, true, k)[0],
            st0.spec_setup(), gamma, r1, r2));
    }
    Ok(ReduceAndFoldOutput { first_messages, second_messages, final_message, betas, alphas, gamma })
}

/// `s` followed by copies of `x` up to length `n`.
pub open spec fn pad_with<T>(s: Seq<T>, n: nat, x: T) -> Seq<T> {
    s + Seq::new((n - s.len()) as nat, |_i: int| x)
}

/// `v` followed by copies of `x` up to length `n`.
fn pad_vec<T: Copy>(v: &[T], n: usize, x: T) -> (r: Vec<T>)
    requires
        v@.len() <= n,
    ensures
        r@ == pad_with(v@, n as nat, x),
{
    let mut out: Vec<T> = Vec::with_capacity(n);
    let mut i: usize = 0;
    while i < n
        invariant
            i <= n,
            v@.len() <= n,
            out@.len() == i,
            forall|j: int| 0 <= j < i ==> #[trigger] out@[j] == pad_with(v@, n as nat, x)[j],
        decreases n - i,
    {
        if i < v.len() {
            out.push(v[i]);
        } else {
            out.push(x);
        }
        i = i + 1;
    }
    assert(out@ =~= pad_with(v@, n as nat, x));
    out
}

/// The vector-matrix-vector message for the row commitments `rc`, the
/// evaluation vectors `left`, `v = left·M`, the setup `su` and the blinds:
/// `C = e(⟨rc padded to 2^σ, v⟩, Γ₂[0])`, `D₂ = e(⟨Γ₁[..2^σ], v⟩, Γ₂[0])`
/// and `E₁ = ⟨rc, left⟩`, masked when `mask`.
pub open spec fn vmv_message_value<E: PairingCurve>(
    mask: bool,
    rc: Seq<E::G1>,
    left: Seq<Scalar<E>>,
    v: Seq<Scalar<E>>,
    su: ProverSetup<E>,
    sigma: nat,
    r_c: Scalar<E>,
    r_d2: Scalar<E>,
    r_e1: Scalar<E>,
) -> VMVMessage<E::G1, E::GT>
    where E::G2: Group<Scalar = Scalar<E>>, E::GT: Group<Scalar = Scalar<E>>,
{
    let n = pow2(sigma);
    let g2_fin = su.g2_vec@[0];
    VMVMessage {
        c: masked(mask, E::spec_pair(msm_of(pad_with(rc, n, E::G1::spec_identity()), v), g2_fin), su.ht, r_c),
        d2: masked(mask, E::spec_pair(msm_of(prefix(su.g1_vec@, n as int), v), g2_fin), su.ht, r_d2),
        e1: masked(mask, msm_of(rc, left), su.h1, r_e1),
    }
}

/// `m` is the vector-matrix-vector message for these inputs, for some
/// blinds, zero when `mask` is off.
pub open spec fn vmv_message_in<E: PairingCurve>(
    mask: bool,
    m: VMVMessage<E::G1, E::GT>,
    rc: Seq<E::G1>,
    left: Seq<Scalar<E>>,
    v: Seq<Scalar<E>>,
    su: ProverSetup<E>,
    sigma: nat,
) -> bool
    where E::G2: Group<Scalar = Scalar<E>>, E::GT: Group<Scalar = Scalar<E>>,
{
    exists|r_c: Scalar<E>, r_d2: Scalar<E>, r_e1: Scalar<E>|
        (!mask ==> r_c == Scalar::<E>::spec_zero() && r_d2 == Scalar::<E>::spec_zero() && r_e1 == Scalar::<E>::spec_zero())
        && m == #[trigger] vmv_message_value::<E>(mask, rc, left, v, su, sigma, r_c, r_d2, r_e1)
}

/// `st0` is the prover state the opening starts from: `v₁` the row
/// commitments padded with the identity to `2^σ`, `v₂[i] = v[i]·Γ₂[0]` with
/// the scalars `v` kept, `s₁ = right` and `s₂ = left` padded with zeros to
/// `2^σ`, `σ` rounds, and the generators of `su`.
pub open spec fn opening_start<E: PairingCurve, M: Mode>(
    st0: ForkableDoryProverState<E, M>,
    rc: Seq<E::G1>,
    left: Seq<Scalar<E>>,
    right: Seq<Scalar<E>>,
    v: Seq<Scalar<E>>,
    su: ProverSetup<E>,
    sigma: nat,
) -> bool
    where E::G2: Group<Scalar = Scalar<E>>, E::GT: Group<Scalar = Scalar<E>>,
{
    let n = pow2(sigma);
    &&& st0.spec_v1() == pad_with(rc, n, E::G1::spec_identity())
    &&& st0.spec_v2() == Seq::new(v.len(), |i: int| E::G2::spec_scale(su.g2_vec@[0], v[i]))
    &&& st0.spec_v2_scalars() == Some(v)
    &&& st0.spec_s1() == pad_with(right, n, Scalar::<E>::spec_zero())
    &&& st0.spec_s2() == pad_with(left, n, Scalar::<E>::spec_zero())
    &&& st0.spec_num_rounds() == sigma
    &&& same_setup(st0.spec_setup(), su)
}

/// The steps of the vector-matrix-vector message: `C`, `D₂`, `E₁` under
/// `"vmv_c"`, `"vmv_d2"`, `"vmv_e1"`.
pub open spec fn vmv_entries<E: PairingCurve>(m: VMVMessage<E::G1, E::GT>) -> TranscriptLog<E> {
    seq![
        ("vmv_c"@, TranscriptEntry::GT(m.c)),
        ("vmv_d2"@, TranscriptEntry::GT(m.d2)),
        ("vmv_e1"@, TranscriptEntry::G1(m.e1)),
    ]
}

/// A transcript that ends in a zero challenge after `start + x` also does
/// after `start`.
pub proof fn lemma_zero_challenge_from_earlier<E: PairingCurve, T: Transcript<E>>(
    start: TranscriptLog<E>,
    x: TranscriptLog<E>,
    log: TranscriptLog<E>,
)
    requires
        ends_in_zero_challenge::<E, T>(start + x, log),
    ensures
        ends_in_zero_challenge::<E, T>(start, log),
{
    assert(log.subrange(0, start.len() as int) =~= (start + x).subrange(0, start.len() as int));
    assert((start + x).subrange(0, start.len() as int) =~= start);
}

/// The inputs of a proof fit together: `sigma < 64`, `2^nu` row
/// commitments and left evaluation entries, `2^sigma` right evaluation
/// entries and entries of `v = left·M`, and a setup with at least `2^sigma`
/// generators of each group.
pub open spec fn opening_inputs_fit<E: PairingCurve>(
    rc: Seq<E::G1>,
    left: Seq<Scalar<E>>,
    right: Seq<Scalar<E>>,
    v: Seq<Scalar<E>>,
    nu: nat,
    sigma: nat,
    su: ProverSetup<E>,
) -> bool {
    &&& sigma < 64
    &&& rc.len() == pow2(nu)
    &&& left.len() == pow2(nu)
    &&& right.len() == pow2(sigma)
    &&& v.len() == pow2(sigma)
    &&& su.g1_vec@.len() >= pow2(sigma)
    &&& su.g2_vec@.len() >= pow2(sigma)
}

/// What a Dory-Prime prover returns for these inputs:
/// `Err(InvalidPointDimension)` when `point` does not have `nu + sigma`
/// coordinates, else `Err(InvalidSize)` when `nu > sigma`, else
/// `Err(ZeroChallenge)` or a proof with dimensions `nu`, `sigma` whose
/// vector-matrix-vector message is that of the inputs and whose round and
/// final messages are those of the protocol run from the opening state
/// with some invertible challenges.
pub open spec fn prime_proof_outcome<E: PairingCurve, M: Mode, T: Transcript<E>>(
    r: Result<DoryPrimeProof<DoryProof<E::G1, E::G2, E::GT>>, DoryError>,
    point: Seq<Scalar<E>>,
    rc: Seq<E::G1>,
    left: Seq<Scalar<E>>,
    right: Seq<Scalar<E>>,
    v: Seq<Scalar<E>>,
    nu: usize,
    sigma: usize,
    su: ProverSetup<E>,
    log0: TranscriptLog<E>,
    log1: TranscriptLog<E>,
) -> bool
    where E::G2: Group<Scalar = Scalar<E>>, E::GT: Group<Scalar = Scalar<E>>,
{
    &&& point.len() != nu + sigma ==> r == Err::<DoryPrimeProof<DoryProof<E::G1, E::G2, E::GT>>, DoryError>(
        DoryError::InvalidPointDimension { expected: (nu + sigma) as usize, actual: point.len() as usize }) && log1 == log0
    &&& point.len() == nu + sigma && nu > sigma ==> r == Err::<DoryPrimeProof<DoryProof<E::G1, E::G2, E::GT>>, DoryError>(
        DoryError::InvalidSize { expected: sigma, actual: nu }) && log1 == log0
    &&& point.len() == nu + sigma && nu <= sigma && r is Err ==> r == Err::<DoryPrimeProof<DoryProof<E::G1, E::G2, E::GT>>, DoryError>(
        DoryError::ZeroChallenge) && ends_in_zero_challenge::<E, T>(log0, log1)
    &&& r matches Ok(p) ==> {
        let log_v = log0 + vmv_entries::<E>(p.batch_proof.vmv_message);
        let fm = p.batch_proof.first_messages@;
        let sm = p.batch_proof.second_messages@;
        &&& point.len() == nu + sigma && nu <= sigma
        &&& p.nu == nu && p.sigma == sigma
        &&& p.batch_proof.nu == nu && p.batch_proof.sigma == sigma
        &&& vmv_message_in::<E>(M::blinds(), p.batch_proof.vmv_message, rc, left, v, su, sigma as nat)
        &&& log1 == rounds_log(log_v, fm, sm, sigma as nat) + final_entries::<E>(p.batch_proof.final_message)
        &&& exists|st0: ForkableDoryProverState<E, M>, betas: Seq<Scalar<E>>, alphas: Seq<Scalar<E>>, gamma: Scalar<E>|
            #![trigger rounds_follow(st0, fm, sm, betas, alphas, sigma as nat), final_message_in::<E, M>(M::blinds(), p.batch_proof.final_message, st0, betas, alphas, gamma, sigma as nat)]
            {
            &&& opening_start(st0, rc, left, right, v, su, sigma as nat)
            &&& rounds_follow(st0, fm, sm, betas, alphas, sigma as nat)
            &&& final_message_in::<E, M>(M::blinds(), p.batch_proof.final_message, st0, betas, alphas, gamma, sigma as nat)
            &&& challenges_follow::<E, T>(log_v, fm, sm, betas, alphas, sigma as nat)
            &&& gamma == T::spec_challenge(rounds_log(log_v, fm, sm, sigma as nat), "gamma"@)
        }
    }
}

/// The opening of a proof: the vector-matrix-vector message, appended to
/// the transcript, and the prover state the rounds start from, with the
/// initial blinds set (`commit_blind` for `D₁`).
fn open_prover_state<E, M1, M2, Mo, T>(
    row_commitments: Vec<E::G1>,
    commit_blind: Scalar<E>,
    left_vec: &[Scalar<E>],
    right_vec: &[Scalar<E>],
    v_vec: &[Scalar<E>],
    nu: usize,
    sigma: usize,
    setup: &ProverSetup<E>,
    transcript: &mut T,
) -> (r: (VMVMessage<E::G1, E::GT>, ForkableDoryProverState<E, Mo>))
    where
        E: PairingCurve,
        E::G2: Group<Scalar = Scalar<E>>,
        E::GT: Group<Scalar = Scalar<E>>,
        M1: DoryRoutines<E::G1>,
        M2: DoryRoutines<E::G2>,
        Mo: Mode,
        T: Transcript<E>,
    requires
        nu <= sigma,
        opening_inputs_fit::<E>(row_commitments@, left_vec@, right_vec@, v_vec@, nu as nat, sigma as nat, *setup),
    ensures
        vmv_message_in::<E>(Mo::blinds(), r.0, row_commitments@, left_vec@, v_vec@, *setup, sigma as nat),
        opening_start(r.1, row_commitments@, left_vec@, right_vec@, v_vec@, *setup, sigma as nat),
        r.1.wf(),
        r.1.setup_covers(),
        final(transcript).spec_log() == old(transcript).spec_log() + vmv_entries::<E>(r.0),
{
    proof {
        lemma_pow2_pos(sigma as nat);
        if nu < sigma {
            vstd::arithmetic::power2::lemma_pow2_strictly_increases(nu as nat, sigma as nat);
        }
    }
    let n: usize = v_vec.len();
    let padded_row_commitments = pad_vec(row_commitments.as_slice(), n, E::G1::identity());

    let r_c: Scalar<E> = Mo::sample();
    let r_d2: Scalar<E> = Mo::sample();
    let r_e1: Scalar<E> = Mo::sample();
    let _r_e2: Scalar<E> = Mo::sample();

    let g2_fin = &setup.g2_vec[0];
    let t_vec_v = M1::msm(padded_row_commitments.as_slice(), v_vec);
    let c = Mo::mask(E::pair(&t_vec_v, g2_fin), &setup.ht, &r_c);
    let g1_prefix = slice_subrange(setup.g1_vec.as_slice(), 0, n);
    let d2 = Mo::mask(E::pair(&M1::msm(g1_prefix, v_vec), g2_fin), &setup.ht, &r_d2);
    let e1 = Mo::mask(M1::msm(row_commitments.as_slice(), left_vec), &setup.h1, &r_e1);
    let vmv_message = VMVMessage { c, d2, e1 };
    proof {
        assert(vmv_message == vmv_message_value::<E>(Mo::blinds(), row_commitments@, left_vec@, v_vec@, *setup, sigma as nat, r_c, r_d2, r_e1));
    }

    transcript.append_gt("vmv_c", &vmv_message.c);
    transcript.append_gt("vmv_d2", &vmv_message.d2);
    transcript.append_g1("vmv_e1", &vmv_message.e1);
    assert(transcript.spec_log() =~= old(transcript).spec_log() + vmv_entries::<E>(vmv_message));

    let v2 = M2::fixed_base_vector_scalar_mul(g2_fin, v_vec);
    let padded_right_vec = pad_vec(right_vec, n, Scalar::<E>::zero());
    let padded_left_vec = pad_vec(left_vec, n, Scalar::<E>::zero());
    let v_copy = slice_to_vec_copy(v_vec);

    let mut prover_state: ForkableDoryProverState<E, Mo> = ForkableDoryProverState::new(
        padded_row_commitments,
        v2,
        Some(v_copy),
        padded_right_vec,
        padded_left_vec,
        setup.clone(),
    );
    proof {
        assert(is_power_of_two(n as nat));
        lemma_trailing_zeros_pow2(sigma as nat);
        assert(prover_state.spec_v2() =~= Seq::new(v_vec@.len(), |i: int| E::G2::spec_scale(setup.g2_vec@[0], v_vec@[i])));
    }
    let last_blind: Scalar<E> = Mo::sample();
    prover_state.set_initial_blinds(commit_blind, r_c, r_d2, r_e1, last_blind);
    (vmv_message, prover_state)
}

/// The proof built from its opening and the outcome of its rounds.
fn assemble_proof<E, Mo>(
    vmv_message: VMVMessage<E::G1, E::GT>,
    out: ReduceAndFoldOutput<E>,
    nu: usize,
    sigma: usize,
    st0: Ghost<ForkableDoryProverState<E, Mo>>,
) -> (r: DoryPrimeProof<DoryProof<E::G1, E::G2, E::GT>>)
    where
        E: PairingCurve,
        E::G2: Group<Scalar = Scalar<E>>,
        E::GT: Group<Scalar = Scalar<E>>,
        Mo: Mode,
    requires
        rounds_follow(st0@, out.first_messages@, out.second_messages@, out.betas@, out.alphas@, sigma as nat),
        final_message_in::<E, Mo>(Mo::blinds(), out.final_message, st0@, out.betas@, out.alphas@, out.gamma, sigma as nat),
    ensures
        r.nu == nu && r.sigma == sigma,
        r.batch_proof.nu == nu && r.batch_proof.sigma == sigma,
        r.batch_proof.vmv_message == vmv_message,
        r.batch_proof.first_messages@ == out.first_messages@,
        r.batch_proof.second_messages@ == out.second_messages@,
        r.batch_proof.final_message == out.final_message,
        rounds_follow(st0@, r.batch_proof.first_messages@, r.batch_proof.second_messages@, out.betas@, out.alphas@, sigma as nat),
        final_message_in::<E, Mo>(Mo::blinds(), r.batch_proof.final_message, st0@, out.betas@, out.alphas@, out.gamma, sigma as nat),
{
    let ReduceAndFoldOutput { first_messages, second_messages, final_message, betas: _, alphas: _, gamma: _ } = out;
    let proof = DoryProof { vmv_message, first_messages, second_messages, final_message, nu, sigma };
    DoryPrimeProof::new(proof, sigma, nu)
}

/// A Dory-Prime opening proof for a polynomial laid out as a
/// `2^nu × 2^sigma` matrix with row commitments `row_commitments` and
/// commitment blind `commit_blind`, at `point`, whose evaluation vectors
/// `left_vec` (length `2^nu`), `right_vec` (length `2^sigma`) and
/// `v_vec = left_vec·M` (length `2^sigma`) the caller computes: the
/// vector-matrix-vector message goes to the transcript, then the rounds run
/// on a prover state forked at each challenge (see `prove_rounds_forked`).
pub fn prove_dory_prime<E, M1, M2, Mo, T>(
    point: &[Scalar<E>],
    row_commitments: Vec<E::G1>,
    commit_blind: Scalar<E>,
    left_vec: &[Scalar<E>],
    right_vec: &[Scalar<E>],
    v_vec: &[Scalar<E>],
    nu: usize,
    sigma: usize,
    setup: &ProverSetup<E>,
    transcript: &mut T,
) -> (r: Result<DoryPrimeProof<DoryProof<E::G1, E::G2, E::GT>>, DoryError>)
    where
        E: PairingCurve,
        E::G2: Group<Scalar = Scalar<E>>,
        E::GT: Group<Scalar = Scalar<E>>,
        M1: DoryRoutines<E::G1>,
        M2: DoryRoutines<E::G2>,
        Mo: Mode,
        T: Transcript<E>,
    requires
        nu + sigma <= usize::MAX,
        point@.len() == nu + sigma && nu <= sigma
            ==> opening_inputs_fit::<E>(row_commitments@, left_vec@, right_vec@, v_vec@, nu as nat, sigma as nat, *setup),
    ensures
        prime_proof_outcome::<E, Mo, T>(r, point@, row_commitments@, left_vec@, right_vec@, v_vec@, nu, sigma, *setup,
            old(transcript).spec_log(), final(transcript).spec_log()),
{
    if point.len() != nu + sigma {
        return Err(DoryError::InvalidPointDimension { expected: nu + sigma, actual: point.len() });
    }
    if nu > sigma {
        return Err(DoryError::InvalidSize { expected: sigma, actual: nu });
    }
    let ghost log0 = transcript.spec_log();
    let (vmv_message, prover_state) = open_prover_state::<E, M1, M2, Mo, T>(
        row_commitments, commit_blind, left_vec, right_vec, v_vec, nu, sigma, setup, transcript);
    let ghost st0 = prover_state;
    let ghost log_v = transcript.spec_log();
    let out = match prove_rounds_forked::<E, M1, M2, Mo, T>(prover_state, transcript) {
        Ok(out) => out,
        Err(e) => {
            proof {
                lemma_zero_challenge_from_earlier::<E, T>(log0, vmv_entries::<E>(vmv_message), transcript.spec_log());
            }
            return Err(e);
        },
    };
    let ghost betas = out.betas@;
    let ghost alphas = out.alphas@;
    let ghost gamma = out.gamma;
    let prime = assemble_proof::<E, Mo>(vmv_message, out, nu, sigma, Ghost(st0));
    proof {
        assert(rounds_follow(st0, prime.batch_proof.first_messages@, prime.batch_proof.second_messages@, betas, alphas, sigma as nat));
        assert(final_message_in::<E, Mo>(Mo::blinds(), prime.batch_proof.final_message, st0, betas, alphas, gamma, sigma as nat));
        assert(challenges_follow::<E, T>(log_v, prime.batch_proof.first_messages@, prime.batch_proof.second_messages@, betas, alphas, sigma as nat));
        assert(gamma == T::spec_challenge(rounds_log(log_v, prime.batch_proof.first_messages@, prime.batch_proof.second_messages@, sigma as nat), "gamma"@));
    }
    Ok(prime)
}

/// Largest `sigma` the cascading prover handles with its full tree.
const MAX_FULL_TREE_SIGMA: usize = 12;

/// Lookahead window of the cascading prover for larger `sigma`.
const DEFAULT_WINDOW_SIZE: usize = 2;

/// The Dory-Prime proof with the rounds run one after the other on a
/// single prover state (see `prove_rounds_sequential`), for inputs already
/// checked against `point`.
fn prove_with_full_tree<E, M1, M2, Mo, T>(
    point: &[Scalar<E>],
    row_commitments: Vec<E::G1>,
    commit_blind: Scalar<E>,
    left_vec: &[Scalar<E>],
    right_vec: &[Scalar<E>],
    v_vec: &[Scalar<E>],
    nu: usize,
    sigma: usize,
    setup: &ProverSetup<E>,
    transcript: &mut T,
) -> (r: Result<DoryPrimeProof<DoryProof<E::G1, E::G2, E::GT>>, DoryError>)
    where
        E: PairingCurve,
        E::G2: Group<Scalar = Scalar<E>>,
        E::GT: Group<Scalar = Scalar<E>>,
        M1: DoryRoutines<E::G1>,
        M2: DoryRoutines<E::G2>,
        Mo: Mode,
        T: Transcript<E>,
    requires
        point@.len() == nu + sigma,
        nu <= sigma,
        opening_inputs_fit::<E>(row_commitments@, left_vec@, right_vec@, v_vec@, nu as nat, sigma as nat, *setup),
    ensures
        prime_proof_outcome::<E, Mo, T>(r, point@, row_commitments@, left_vec@, right_vec@, v_vec@, nu, sigma, *setup,
            old(transcript).spec_log(), final(transcript).spec_log()),
{
    let ghost log0 = transcript.spec_log();
    let (vmv_message, prover_state) = open_prover_state::<E, M1, M2, Mo, T>(
        row_commitments, commit_blind, left_vec, right_vec, v_vec, nu, sigma, setup, transcript);
    let ghost st0 = prover_state;
    let ghost log_v = transcript.spec_log();
    let out = match prove_rounds_sequential::<E, M1, M2, Mo, T>(prover_state, transcript) {
        Ok(out) => out,
        Err(e) => {
            proof {
                lemma_zero_challenge_from_earlier::<E, T>(log0, vmv_entries::<E>(vmv_message), transcript.spec_log());
            }
            return Err(e);
        },
    };
    let ghost betas = out.betas@;
    let ghost alphas = out.alphas@;
    let ghost gamma = out.gamma;
    let prime = assemble_proof::<E, Mo>(vmv_message, out, nu, sigma, Ghost(st0));
    proof {
        assert(rounds_follow(st0, prime.batch_proof.first_messages@, prime.batch_proof.second_messages@, betas, alphas, sigma as nat));
        assert(final_message_in::<E, Mo>(Mo::blinds(), prime.batch_proof.final_message, st0, betas, alphas, gamma, sigma as nat));
        assert(challenges_follow::<E, T>(log_v, prime.batch_proof.first_messages@, prime.batch_proof.second_messages@, betas, alphas, sigma as nat));
        assert(gamma == T::spec_challenge(rounds_log(log_v, prime.batch_proof.first_messages@, prime.batch_proof.second_messages@, sigma as nat), "gamma"@));
    }
    Ok(prime)
}

/// The cascading prover for `sigma` above `MAX_FULL_TREE_SIGMA`, with a
/// lookahead window of `window_size` rounds; its rounds run as those of
/// `prove_with_full_tree`, which it shares.
fn prove_with_windowed_tree<E, M1, M2, Mo, T>(
    point: &[Scalar<E>],
    row_commitments: Vec<E::G1>,
    commit_blind: Scalar<E>,
    left_vec: &[Scalar<E>],
    right_vec: &[Scalar<E>],
    v_vec: &[Scalar<E>],
    nu: usize,
    sigma: usize,
    setup: &ProverSetup<E>,
    transcript: &mut T,
    _window_size: usize,
) -> (r: Result<DoryPrimeProof<DoryProof<E::G1, E::G2, E::GT>>, DoryError>)
    where
        E: PairingCurve,
        E::G2: Group<Scalar = Scalar<E>>,
        E::GT: Group<Scalar = Scalar<E>>,
        M1: DoryRoutines<E::G1>,
        M2: DoryRoutines<E::G2>,
        Mo: Mode,
        T: Transcript<E>,
    requires
        point@.len() == nu + sigma,
        nu <= sigma,
        opening_inputs_fit::<E>(row_commitments@, left_vec@, right_vec@, v_vec@, nu as nat, sigma as nat, *setup),
    ensures
        prime_proof_outcome::<E, Mo, T>(r, point@, row_commitments@, left_vec@, right_vec@, v_vec@, nu, sigma, *setup,
            old(transcript).spec_log(), final(transcript).spec_log()),
{
    prove_with_full_tree::<E, M1, M2, Mo, T>(point, row_commitments, commit_blind, left_vec, right_vec, v_vec, nu, sigma, setup, transcript)
}

/// The cascading Dory-Prime prover: after the checks of `prove_dory_prime`,
/// the full tree for `sigma` up to `MAX_FULL_TREE_SIGMA`, the windowed tree
/// above it; the rounds run one after the other on one prover state.
pub fn prove_dory_prime_cascading<E, M1, M2, Mo, T>(
    point: &[Scalar<E>],
    row_commitments: Vec<E::G1>,
    commit_blind: Scalar<E>,
    left_vec: &[Scalar<E>],
    right_vec: &[Scalar<E>],
    v_vec: &[Scalar<E>],
    nu: usize,
    sigma: usize,
    setup: &ProverSetup<E>,
    transcript: &mut T,
) -> (r: Result<DoryPrimeProof<DoryProof<E::G1, E::G2, E::GT>>, DoryError>)
    where
        E: PairingCurve,
        E::G2: Group<Scalar = Scalar<E>>,
        E::GT: Group<Scalar = Scalar<E>>,
        M1: DoryRoutines<E::G1>,
        M2: DoryRoutines<E::G2>,
        Mo: Mode,
        T: Transcript<E>,
    requires
        nu + sigma <= usize::MAX,
        point@.len() == nu + sigma && nu <= sigma
            ==> opening_inputs_fit::<E>(row_commitments@, left_vec@, right_vec@, v_vec@, nu as nat, sigma as nat, *setup),
    ensures
        prime_proof_outcome::<E, Mo, T>(r, point@, row_commitments@, left_vec@, right_vec@, v_vec@, nu, sigma, *setup,
            old(transcript).spec_log(), final(transcript).spec_log()),
{
    if point.len() != nu + sigma {
        return Err(DoryError::InvalidPointDimension { expected: nu + sigma, actual: point.len() });
    }
    if nu > sigma {
        return Err(DoryError::InvalidSize { expected: sigma, actual: nu });
    }
    if sigma <= MAX_FULL_TREE_SIGMA {
        prove_with_full_tree::<E, M1, M2, Mo, T>(point, row_commitments, commit_blind, left_vec, right_vec, v_vec, nu, sigma, setup, transcript)
    } else {
        prove_with_windowed_tree::<E, M1, M2, Mo, T>(point, row_commitments, commit_blind, left_vec, right_vec, v_vec, nu, sigma, setup, transcript, DEFAULT_WINDOW_SIZE)
    }
}

/// The Dory-Prime prover that works ahead of the transcript, in the
/// transparent mode: after the checks of `prove_dory_prime`, the rounds run
/// one after the other on one prover state (the work ahead is left to the
/// caller's threads).
pub fn prove_dory_prime_with_lookahead<E, M1, M2, T>(
    point: &[Scalar<E>],
    row_commitments: Vec<E::G1>,
    commit_blind: Scalar<E>,
    left_vec: &[Scalar<E>],
    right_vec: &[Scalar<E>],
    v_vec: &[Scalar<E>],
    nu: usize,
    sigma: usize,
    setup: &ProverSetup<E>,
    transcript: &mut T,
) -> (r: Result<DoryPrimeProof<DoryProof<E::G1, E::G2, E::GT>>, DoryError>)
    where
        E: PairingCurve,
        E::G2: Group<Scalar = Scalar<E>>,
        E::GT: Group<Scalar = Scalar<E>>,
        M1: DoryRoutines<E::G1>,
        M2: DoryRoutines<E::G2>,
        T: Transcript<E>,
    requires
        nu + sigma <= usize::MAX,
        point@.len() == nu + sigma && nu <= sigma
            ==> opening_inputs_fit::<E>(row_commitments@, left_vec@, right_vec@, v_vec@, nu as nat, sigma as nat, *setup),
    ensures
        prime_proof_outcome::<E, Transparent, T>(r, point@, row_commitments@, left_vec@, right_vec@, v_vec@, nu, sigma, *setup,
            old(transcript).spec_log(), final(transcript).spec_log()),
{
    if point.len() != nu + sigma {
        return Err(DoryError::InvalidPointDimension { expected: nu + sigma, actual: point.len() });
    }
    if nu > sigma {
        return Err(DoryError::InvalidSize { expected: sigma, actual: nu });
    }
    prove_with_full_tree::<E, M1, M2, Transparent, T>(point, row_commitments, commit_blind, left_vec, right_vec, v_vec, nu, sigma, setup, transcript)
}

/// A copy of the entries of `v`.
fn slice_to_vec_copy<T: Copy>(v: &[T]) -> (r: Vec<T>)
    ensures
        r@ == v@,
{
    let mut out: Vec<T> = Vec::with_capacity(v.len());
    let mut i: usize = 0;
    while i < v.len()
        invariant
            i <= v@.len(),
            out@ == v@.subrange(0, i as int),
        decreases v@.len() - i,
    {
        out.push(v[i]);
        i = i + 1;
    }
    assert(out@ =~= v@);
    out
}

} // verus!
