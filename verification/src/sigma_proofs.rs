//! The sigma protocols of the zero-knowledge opening: knowledge of the
//! opening of the evaluation commitments, and of the blinds relating `E₁`
//! to `D₂`. The provers draw their nonces with `Field::random` and their
//! challenge from the transcript.
use vstd::prelude::*;
use vstd::std_specs::cmp::PartialEqSpec;
use crate::arithmetic::{Field, Group, PairingCurve};
use crate::error::DoryError;
use crate::messages::{Sigma1Proof, Sigma2Proof};
use crate::reduce_and_fold::{Scalar, f_add, f_mul, g_add, g_scale};
use crate::setup::{ProverSetup, VerifierSetup};
use crate::transcript::{Transcript, TranscriptEntry, TranscriptLog};

verus! {

/// The Sigma1 proof for `(y, r_E2, r_y)` with nonces `k1`, `k2`, `k3` and
/// challenge `c`: `a1 = k1·g2 + k2·h2`, `a2 = k1·g1 + k3·h1`,
/// `z1 = k1 + c·y`, `z2 = k2 + c·r_E2`, `z3 = k3 + c·r_y`.
pub open spec fn sigma1_value<E: PairingCurve>(
    y: Scalar<E>,
    r_e2: Scalar<E>,
    r_y: Scalar<E>,
    g1: E::G1,
    g2: E::G2,
    h1: E::G1,
    h2: E::G2,
    k1: Scalar<E>,
    k2: Scalar<E>,
    k3: Scalar<E>,
    c: Scalar<E>,
) -> Sigma1Proof<E::G1, E::G2, Scalar<E>>
    where E::G2: Group<Scalar = Scalar<E>>,
{
    Sigma1Proof {
        a1: g_add(g_scale(g2, k1), g_scale(h2, k2)),
        a2: g_add(g_scale(g1, k1), g_scale(h1, k3)),
        z1: f_add(k1, f_mul(c, y)),
        z2: f_add(k2, f_mul(c, r_e2)),
        z3: f_add(k3, f_mul(c, r_y)),
    }
}

/// `log` followed by the steps of a Sigma1 proof: `a1` under
/// `"sigma1_a1"`, `a2` under `"sigma1_a2"`, then the challenge
/// `"sigma1_c"`.
pub open spec fn sigma1_log<E: PairingCurve>(log: TranscriptLog<E>, a1: E::G2, a2: E::G1) -> TranscriptLog<E> {
    log.push(("sigma1_a1"@, TranscriptEntry::G2(a1))).push(("sigma1_a2"@, TranscriptEntry::G1(a2)))
        .push(("sigma1_c"@, TranscriptEntry::Challenge))
}

/// A Sigma1 proof of `(y, r_e2, r_y)`: nonces `k1`, `k2`, `k3` are drawn,
/// `a1 = k1·Γ₂[0] + k2·H₂` and `a2 = k1·Γ₁[0] + k3·H₁` go to the
/// transcript, the challenge `c` is drawn under `"sigma1_c"`, and the
/// responses are `k + c·secret`.
pub fn generate_sigma1_proof<E, T>(
    y: &Scalar<E>,
    r_e2: &Scalar<E>,
    r_y: &Scalar<E>,
    setup: &ProverSetup<E>,
    transcript: &mut T,
) -> (r: Sigma1Proof<E::G1, E::G2, Scalar<E>>)
    where
        E: PairingCurve,
        T: Transcript<E>,
        E::G2: Group<Scalar = Scalar<E>>,
    requires
        setup.g1_vec@.len() > 0,
        setup.g2_vec@.len() > 0,
    ensures
        final(transcript).spec_log() == sigma1_log::<E>(old(transcript).spec_log(), r.a1, r.a2),
        exists|k1: Scalar<E>, k2: Scalar<E>, k3: Scalar<E>|
            r == #[trigger] sigma1_value::<E>(*y, *r_e2, *r_y, setup.g1_vec@[0], setup.g2_vec@[0], setup.h1, setup.h2, k1, k2, k3,
                T::spec_challenge(sigma1_log::<E>(old(transcript).spec_log(), r.a1, r.a2).drop_last(), "sigma1_c"@)),
{
    let g2_fin = &setup.g2_vec[0];
    let g1_fin = &setup.g1_vec[0];
    let k1 = Scalar::<E>::random();
    let k2 = Scalar::<E>::random();
    let k3 = Scalar::<E>::random();
    let a1 = g2_fin.scale(&k1).add(&setup.h2.scale(&k2));
    let a2 = g1_fin.scale(&k1).add(&setup.h1.scale(&k3));
    transcript.append_g2("sigma1_a1", &a1);
    transcript.append_g1("sigma1_a2", &a2);
    let c = transcript.challenge_scalar("sigma1_c");
    let r = Sigma1Proof { a1, a2, z1: k1.add(&c.mul(y)), z2: k2.add(&c.mul(r_e2)), z3: k3.add(&c.mul(r_y)) };
    assert(transcript.spec_log() =~= sigma1_log::<E>(old(transcript).spec_log(), a1, a2));
    assert(sigma1_log::<E>(old(transcript).spec_log(), a1, a2).drop_last()
        =~= old(transcript).spec_log().push(("sigma1_a1"@, TranscriptEntry::G2(a1))).push(("sigma1_a2"@, TranscriptEntry::G1(a2))));
    assert(r == sigma1_value::<E>(*y, *r_e2, *r_y, setup.g1_vec@[0], setup.g2_vec@[0], setup.h1, setup.h2, k1, k2, k3, c));
    r
}

/// Both checks of a Sigma1 proof with challenge `c`, against the
/// commitments `e2` (to `y` and `r_E2`) and `y_commit` (to `y` and `r_y`):
/// `z1·g2_0 + z2·h2 = a1 + c·e2` and `z1·g1_0 + z3·h1 = a2 + c·y_commit`.
pub open spec fn sigma1_sides<E: PairingCurve>(
    e2: E::G2,
    y_commit: E::G1,
    proof: Sigma1Proof<E::G1, E::G2, Scalar<E>>,
    setup: VerifierSetup<E>,
    c: Scalar<E>,
) -> ((E::G2, E::G2), (E::G1, E::G1))
    where E::G2: Group<Scalar = Scalar<E>>,
{
    (
        (g_add(g_scale(setup.g2_0, proof.z1), g_scale(setup.h2, proof.z2)), g_add(proof.a1, g_scale(e2, c))),
        (g_add(g_scale(setup.g1_0, proof.z1), g_scale(setup.h1, proof.z3)), g_add(proof.a2, g_scale(y_commit, c))),
    )
}

/// Both equations of `sigma1_sides` hold under the groups' equality.
pub open spec fn sigma1_holds<E: PairingCurve>(
    e2: E::G2,
    y_commit: E::G1,
    proof: Sigma1Proof<E::G1, E::G2, Scalar<E>>,
    setup: VerifierSetup<E>,
    c: Scalar<E>,
) -> bool
    where E::G2: Group<Scalar = Scalar<E>>,
{
    let (s2, s1) = sigma1_sides::<E>(e2, y_commit, proof, setup, c);
    s2.0.eq_spec(&s2.1) && s1.0.eq_spec(&s1.1)
}

/// Checks a Sigma1 proof with challenge `c`: `Ok` when both equations of
/// `sigma1_sides` hold under the groups' equality.
pub fn sigma1_check<E>(
    e2: &E::G2,
    y_commit: &E::G1,
    proof: &Sigma1Proof<E::G1, E::G2, Scalar<E>>,
    setup: &VerifierSetup<E>,
    c: &Scalar<E>,
) -> (r: Result<(), DoryError>)
    where
        E: PairingCurve,
        E::G2: Group<Scalar = Scalar<E>>,
    ensures
        r is Err ==> r == Err::<(), DoryError>(DoryError::InvalidProof),
        <E::G1 as PartialEqSpec>::obeys_eq_spec() && <E::G2 as PartialEqSpec>::obeys_eq_spec()
            ==> (r is Ok <==> sigma1_holds::<E>(*e2, *y_commit, *proof, *setup, *c)),
{
    let lhs2 = setup.g2_0.scale(&proof.z1).add(&setup.h2.scale(&proof.z2));
    let rhs2 = proof.a1.add(&e2.scale(c));
    if lhs2 != rhs2 {
        return Err(DoryError::InvalidProof);
    }
    let lhs1 = setup.g1_0.scale(&proof.z1).add(&setup.h1.scale(&proof.z3));
    let rhs1 = proof.a2.add(&y_commit.scale(c));
    if lhs1 != rhs1 {
        return Err(DoryError::InvalidProof);
    }
    Ok(())
}

/// Verifies a Sigma1 proof: `a1`, `a2` go to the transcript under
/// `"sigma1_a1"`, `"sigma1_a2"`, the challenge `c` is drawn under
/// `"sigma1_c"`, and the proof is checked with it (`sigma1_check`).
pub fn verify_sigma1_proof<E: PairingCurve, T: Transcript<E>>(
    e2: &E::G2,
    y_commit: &E::G1,
    proof: &Sigma1Proof<E::G1, E::G2, Scalar<E>>,
    setup: &VerifierSetup<E>,
    transcript: &mut T,
) -> (r: Result<(), DoryError>)
    where
        E::G2: Group<Scalar = Scalar<E>>,
    ensures
        r is Err ==> r == Err::<(), DoryError>(DoryError::InvalidProof),
        final(transcript).spec_log() == sigma1_log::<E>(old(transcript).spec_log(), proof.a1, proof.a2),
        <E::G1 as PartialEqSpec>::obeys_eq_spec() && <E::G2 as PartialEqSpec>::obeys_eq_spec()
            ==> (r is Ok <==> sigma1_holds::<E>(*e2, *y_commit, *proof, *setup,
                T::spec_challenge(sigma1_log::<E>(old(transcript).spec_log(), proof.a1, proof.a2).drop_last(), "sigma1_c"@))),
{
    transcript.append_g2("sigma1_a1", &proof.a1);
    transcript.append_g1("sigma1_a2", &proof.a2);
    let c = transcript.challenge_scalar("sigma1_c");
    let r = sigma1_check::<E>(e2, y_commit, proof, setup, &c);
    assert(transcript.spec_log() =~= sigma1_log::<E>(old(transcript).spec_log(), proof.a1, proof.a2));
    assert(sigma1_log::<E>(old(transcript).spec_log(), proof.a1, proof.a2).drop_last()
        =~= old(transcript).spec_log().push(("sigma1_a1"@, TranscriptEntry::G2(proof.a1))).push(("sigma1_a2"@, TranscriptEntry::G1(proof.a2))));
    r
}

/// The Sigma2 proof for `(t1, t2)` with nonces `k1`, `k2` and challenge
/// `c`: `a = e(h1, k1·g2 + k2·h2)`, `z1 = k1 + c·t1`, `z2 = k2 + c·t2`.
pub open spec fn sigma2_value<E: PairingCurve>(
    t1: Scalar<E>,
    t2: Scalar<E>,
    g2: E::G2,
    h1: E::G1,
    h2: E::G2,
    k1: Scalar<E>,
    k2: Scalar<E>,
    c: Scalar<E>,
) -> Sigma2Proof<Scalar<E>, E::GT>
    where E::G2: Group<Scalar = Scalar<E>>, E::GT: Group<Scalar = Scalar<E>>,
{
    Sigma2Proof {
        a: E::spec_pair(h1, g_add(g_scale(g2, k1), g_scale(h2, k2))),
        z1: f_add(k1, f_mul(c, t1)),
        z2: f_add(k2, f_mul(c, t2)),
    }
}

/// `log` followed by the steps of a Sigma2 proof: `a` under `"sigma2_a"`,
/// then the challenge `"sigma2_c"`.
pub open spec fn sigma2_log<E: PairingCurve>(log: TranscriptLog<E>, a: E::GT) -> TranscriptLog<E> {
    log.push(("sigma2_a"@, TranscriptEntry::GT(a))).push(("sigma2_c"@, TranscriptEntry::Challenge))
}

/// A Sigma2 proof of `(t1, t2)`: nonces `k1`, `k2` are drawn,
/// `a = e(H₁, k1·Γ₂[0] + k2·H₂)` goes to the transcript under `"sigma2_a"`,
/// the challenge `c` is drawn under `"sigma2_c"`, and the responses are
/// `k + c·t`.
pub fn generate_sigma2_proof<E, T>(
    t1: &Scalar<E>,
    t2: &Scalar<E>,
    setup: &ProverSetup<E>,
    transcript: &mut T,
) -> (r: Sigma2Proof<Scalar<E>, E::GT>)
    where
        E: PairingCurve,
        T: Transcript<E>,
        E::G2: Group<Scalar = Scalar<E>>,
        E::GT: Group<Scalar = Scalar<E>>,
    requires
        setup.g2_vec@.len() > 0,
    ensures
        final(transcript).spec_log() == sigma2_log::<E>(old(transcript).spec_log(), r.a),
        exists|k1: Scalar<E>, k2: Scalar<E>|
            r == #[trigger] sigma2_value::<E>(*t1, *t2, setup.g2_vec@[0], setup.h1, setup.h2, k1, k2,
                T::spec_challenge(old(transcript).spec_log().push(("sigma2_a"@, TranscriptEntry::GT(r.a))), "sigma2_c"@)),
{
    let k1 = Scalar::<E>::random();
    let k2 = Scalar::<E>::random();
    let a = E::pair(&setup.h1, &setup.g2_vec[0].scale(&k1).add(&setup.h2.scale(&k2)));
    transcript.append_gt("sigma2_a", &a);
    let c = transcript.challenge_scalar("sigma2_c");
    let r = Sigma2Proof { a, z1: k1.add(&c.mul(t1)), z2: k2.add(&c.mul(t2)) };
    assert(transcript.spec_log() =~= sigma2_log::<E>(old(transcript).spec_log(), a));
    assert(r == sigma2_value::<E>(*t1, *t2, setup.g2_vec@[0], setup.h1, setup.h2, k1, k2, c));
    r
}

/// The check of a Sigma2 proof with challenge `c` against `e1` and `d2`:
/// `e(h1, z1·g2_0 + z2·h2) = a + c·(e(e1, g2_0) - d2)`.
pub open spec fn sigma2_sides<E: PairingCurve>(
    e1: E::G1,
    d2: E::GT,
    proof: Sigma2Proof<Scalar<E>, E::GT>,
    setup: VerifierSetup<E>,
    c: Scalar<E>,
) -> (E::GT, E::GT)
    where E::G2: Group<Scalar = Scalar<E>>, E::GT: Group<Scalar = Scalar<E>>,
{
    let expected = g_add(E::spec_pair(e1, setup.g2_0), E::GT::spec_inverse(d2));
    (
        E::spec_pair(setup.h1, g_add(g_scale(setup.g2_0, proof.z1), g_scale(setup.h2, proof.z2))),
        g_add(proof.a, g_scale(expected, c)),
    )
}

/// The equation of `sigma2_sides` holds under the target group's equality.
pub open spec fn sigma2_holds<E: PairingCurve>(
    e1: E::G1,
    d2: E::GT,
    proof: Sigma2Proof<Scalar<E>, E::GT>,
    setup: VerifierSetup<E>,
    c: Scalar<E>,
) -> bool
    where E::G2: Group<Scalar = Scalar<E>>, E::GT: Group<Scalar = Scalar<E>>,
{
    let (lhs, rhs) = sigma2_sides::<E>(e1, d2, proof, setup, c);
    lhs.eq_spec(&rhs)
}

/// Checks a Sigma2 proof with challenge `c`: `Ok` when the equation of
/// `sigma2_sides` holds under the target group's equality.
pub fn sigma2_check<E>(
    e1: &E::G1,
    d2: &E::GT,
    proof: &Sigma2Proof<Scalar<E>, E::GT>,
    setup: &VerifierSetup<E>,
    c: &Scalar<E>,
) -> (r: Result<(), DoryError>)
    where
        E: PairingCurve,
        E::G2: Group<Scalar = Scalar<E>>,
        E::GT: Group<Scalar = Scalar<E>>,
    ensures
        r is Err ==> r == Err::<(), DoryError>(DoryError::InvalidProof),
        <E::GT as PartialEqSpec>::obeys_eq_spec() ==> (r is Ok <==> sigma2_holds::<E>(*e1, *d2, *proof, *setup, *c)),
{
    let expected = E::pair(e1, &setup.g2_0).add(&d2.neg());
    let lhs = E::pair(&setup.h1, &setup.g2_0.scale(&proof.z1).add(&setup.h2.scale(&proof.z2)));
    let rhs = proof.a.add(&expected.scale(c));
    if lhs == rhs {
        Ok(())
    } else {
        Err(DoryError::InvalidProof)
    }
}

/// Verifies a Sigma2 proof: `a` goes to the transcript under `"sigma2_a"`,
/// the challenge `c` is drawn under `"sigma2_c"`, and the proof is checked
/// with it (`sigma2_check`).
pub fn verify_sigma2_proof<E: PairingCurve, T: Transcript<E>>(
    e1: &E::G1,
    d2: &E::GT,
    proof: &Sigma2Proof<Scalar<E>, E::GT>,
    setup: &VerifierSetup<E>,
    transcript: &mut T,
) -> (r: Result<(), DoryError>)
    where
        E::G2: Group<Scalar = Scalar<E>>,
        E::GT: Group<Scalar = Scalar<E>>,
    ensures
        r is Err ==> r == Err::<(), DoryError>(DoryError::InvalidProof),
        final(transcript).spec_log() == sigma2_log::<E>(old(transcript).spec_log(), proof.a),
        <E::GT as PartialEqSpec>::obeys_eq_spec() ==> (r is Ok <==> sigma2_holds::<E>(*e1, *d2, *proof, *setup,
            T::spec_challenge(old(transcript).spec_log().push(("sigma2_a"@, TranscriptEntry::GT(proof.a))), "sigma2_c"@))),
{
    transcript.append_gt("sigma2_a", &proof.a);
    let c = transcript.challenge_scalar("sigma2_c");
    let r = sigma2_check::<E>(e1, d2, proof, setup, &c);
    assert(transcript.spec_log() =~= sigma2_log::<E>(old(transcript).spec_log(), proof.a));
    r
}

} // verus!
