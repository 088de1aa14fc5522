use dory_pcs::error::DoryError;
use dory_pcs::fp128::Fp128Element;
use dory_pcs::messages::{Sigma1Proof, Sigma2Proof};
use dory_pcs::mode::Transparent;
use dory_pcs::reduce_and_fold::DoryProverState;
use dory_pcs::scalar_pairing::ScalarPairing;
use dory_pcs::setup::{ProverSetup, VerifierSetup};
use dory_pcs::sigma_proofs::{
    generate_sigma1_proof, generate_sigma2_proof, sigma1_check, sigma2_check, verify_sigma1_proof,
    verify_sigma2_proof,
};
use dory_pcs::transcript::{Transcript, TranscriptLabel, TranscriptLog};

type Fe = Fp128Element;

fn fe(v: u64) -> Fe {
    Fp128Element::from_raw(v)
}

fn fes(vs: &[u64]) -> Vec<Fe> {
    vs.iter().map(|v| fe(*v)).collect()
}

fn prover_setup() -> ProverSetup<ScalarPairing> {
    ProverSetup { g1_vec: fes(&[2, 3]), g2_vec: fes(&[11, 13]), h1: fe(23), h2: fe(29), ht: fe(667) }
}

fn verifier_setup() -> VerifierSetup<ScalarPairing> {
    VerifierSetup {
        chi: fes(&[22]),
        delta_1l: fes(&[0]),
        delta_1r: fes(&[0]),
        delta_2l: fes(&[0]),
        delta_2r: fes(&[0]),
        g1_0: fe(2),
        g2_0: fe(11),
        h1: fe(23),
        h2: fe(29),
        ht: fe(667),
    }
}

/// Hands out one fixed challenge and records every label.
struct Fixed {
    c: Fe,
    labels: Vec<String>,
}

impl Transcript<ScalarPairing> for Fixed {
    fn spec_log(&self) -> TranscriptLog<ScalarPairing> {
        unreachable!()
    }

    fn spec_challenge(_log: TranscriptLog<ScalarPairing>, _label: TranscriptLabel) -> Fp128Element {
        unreachable!()
    }

    fn append_g1(&mut self, label: &str, _v: &Fe) {
        self.labels.push(label.to_string());
    }

    fn append_g2(&mut self, label: &str, _v: &Fe) {
        self.labels.push(label.to_string());
    }

    fn append_gt(&mut self, label: &str, _v: &Fe) {
        self.labels.push(label.to_string());
    }

    fn challenge_scalar(&mut self, label: &str) -> Fe {
        self.labels.push(label.to_string());
        self.c
    }
}

fn fixed(c: u64) -> Fixed {
    Fixed { c: fe(c), labels: Vec::new() }
}

#[test]
fn sigma1_round_trip() {
    // y = 4, r_E2 = 5, r_y = 6: E2 = 4·11 + 5·29 = 189, y_commit = 4·2 + 6·23 = 146.
    let mut t = fixed(3);
    let proof = generate_sigma1_proof::<ScalarPairing, Fixed>(&fe(4), &fe(5), &fe(6), &prover_setup(), &mut t);
    // The nonces are all 42 for this field: a1 = 42·11 + 42·29, a2 = 42·2 + 42·23.
    assert_eq!(proof.a1, fe(1680));
    assert_eq!(proof.a2, fe(1050));
    assert_eq!((proof.z1, proof.z2, proof.z3), (fe(54), fe(57), fe(60)));
    assert_eq!(t.labels, vec!["sigma1_a1", "sigma1_a2", "sigma1_c"]);
    let mut v = fixed(3);
    assert_eq!(verify_sigma1_proof::<ScalarPairing, Fixed>(&fe(189), &fe(146), &proof, &verifier_setup(), &mut v), Ok(()));
    let mut v = fixed(3);
    assert_eq!(
        verify_sigma1_proof::<ScalarPairing, Fixed>(&fe(190), &fe(146), &proof, &verifier_setup(), &mut v),
        Err(DoryError::InvalidProof)
    );
}

#[test]
fn sigma1_check_each_equation() {
    let good = Sigma1Proof { a1: fe(1680), a2: fe(1050), z1: fe(54), z2: fe(57), z3: fe(60) };
    assert_eq!(sigma1_check::<ScalarPairing>(&fe(189), &fe(146), &good, &verifier_setup(), &fe(3)), Ok(()));
    let bad_second = Sigma1Proof { z3: fe(61), ..good };
    assert_eq!(
        sigma1_check::<ScalarPairing>(&fe(189), &fe(146), &bad_second, &verifier_setup(), &fe(3)),
        Err(DoryError::InvalidProof)
    );
    assert_eq!(
        sigma1_check::<ScalarPairing>(&fe(189), &fe(146), &good, &verifier_setup(), &fe(4)),
        Err(DoryError::InvalidProof)
    );
}

#[test]
fn sigma2_round_trip() {
    // t1 = 2, t2 = 3, E1 = 10: D2 = e(E1, 11) - e(23, 2·11 + 3·29) = 110 - 2507.
    let mut t = fixed(5);
    let proof = generate_sigma2_proof::<ScalarPairing, Fixed>(&fe(2), &fe(3), &prover_setup(), &mut t);
    // a = e(23, 42·11 + 42·29) = 23·1680.
    assert_eq!(proof.a, fe(38640));
    assert_eq!((proof.z1, proof.z2), (fe(52), fe(57)));
    let d2 = fe(110) - fe(2507);
    let mut v = fixed(5);
    assert_eq!(verify_sigma2_proof::<ScalarPairing, Fixed>(&fe(10), &d2, &proof, &verifier_setup(), &mut v), Ok(()));
    let mut v = fixed(5);
    assert_eq!(
        verify_sigma2_proof::<ScalarPairing, Fixed>(&fe(11), &d2, &proof, &verifier_setup(), &mut v),
        Err(DoryError::InvalidProof)
    );
    let forged = Sigma2Proof { z1: fe(53), ..proof };
    assert_eq!(sigma2_check::<ScalarPairing>(&fe(10), &d2, &forged, &verifier_setup(), &fe(5)), Err(DoryError::InvalidProof));
}

#[test]
fn scalar_product_proof_exact() {
    let setup = prover_setup();
    let state = DoryProverState::<ScalarPairing, Transparent>::new(fes(&[5]), fes(&[7]), None, fes(&[1]), fes(&[1]), &setup);
    let mut t = fixed(3);
    let sp = state.scalar_product_proof(&mut t);
    assert_eq!((sp.p1, sp.p2, sp.q, sp.r), (fe(28938), fe(28938), fe(30912), fe(66822)));
    assert_eq!((sp.e1, sp.e2), (fe(99), fe(483)));
    assert_eq!((sp.r1, sp.r2, sp.r3), (fe(42), fe(42), fe(168)));
    assert_eq!(t.labels, vec!["sigma_p1", "sigma_p2", "sigma_q", "sigma_r", "sigma_c"]);
}
