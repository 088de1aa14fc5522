use dory_pcs::fp128::Fp128Element;
use dory_pcs::kyber::{KyberCurve, KyberPolynomialNTT};
use dory_pcs::reduce_and_fold_lattice::{
    prover_from_verifier, LatticeDoryProverState, LatticeDoryVerifierState, LatticeProverSetup,
    LatticeVerifierSetup,
};

fn poly(values: &[u64]) -> KyberPolynomialNTT {
    KyberPolynomialNTT { values: values.iter().map(|v| Fp128Element(*v)).collect() }
}

fn fe(v: u64) -> Fp128Element {
    Fp128Element(v)
}

#[test]
fn test_lattice_reduce_state() {
    assert_eq!(1, 1);
}

#[test]
fn lattice_setups_are_powers_of_two() {
    let p = LatticeProverSetup::<KyberCurve>::new(5);
    assert_eq!(p.n, 32);
    assert_eq!(p.max_log_n, 5);
    let v = LatticeVerifierSetup::<KyberCurve>::new(3);
    assert_eq!(v.n, 8);
    let back = prover_from_verifier(&v);
    assert_eq!(back.n, 8);
    assert_eq!(back.max_log_n, 3);
    let d = LatticeProverSetup::<KyberCurve>::default();
    assert_eq!(d.n, 4096);
    assert_eq!(d.max_log_n, 12);
}

#[test]
fn lattice_round_message_and_fold() {
    let setup = LatticeProverSetup::<KyberCurve>::new(1);
    let v1 = vec![poly(&[1, 2]), poly(&[3, 4])];
    let v2 = vec![poly(&[5, 6]), poly(&[7, 8])];
    let s1 = vec![fe(1), fe(2)];
    let s2 = vec![fe(3), fe(4)];
    let mut prover = LatticeDoryProverState::new(v1, v2, s1, s2, &setup);
    assert_eq!(prover.num_rounds(), 1);
    let msg = prover.compute_first_message(&fe(2));
    assert_eq!(msg.d1_left.0, 132);
    assert_eq!(msg.d1_right.0, 8);
    assert_eq!(msg.d2_left.0, 528);
    assert_eq!(msg.d2_right.0, 32);
    assert_eq!(msg.e1.0, 17);
    assert_eq!(msg.e2.0, 93);
    assert_eq!(prover.num_rounds(), 0);
    assert_eq!(prover.compute_final_message().0, 6919);
}

#[test]
fn lattice_verifier_accepts_balanced_equation() {
    let setup = LatticeProverSetup::<KyberCurve>::new(1);
    let v1 = vec![poly(&[1, 2]), poly(&[3, 4])];
    let v2 = vec![poly(&[5, 6]), poly(&[7, 8])];
    let mut prover = LatticeDoryProverState::new(v1, v2, vec![fe(1), fe(2)], vec![fe(3), fe(4)], &setup);
    let msg = prover.compute_first_message(&fe(2));
    let mut verifier = LatticeDoryVerifierState::new(LatticeVerifierSetup::<KyberCurve>::new(1), 1);
    verifier.update_first(&msg, &fe(2), &fe(3));
    // c = 268, d1 = 132, d2 = 528, e1 = 51, e2 = 31; with d = 0 the check is
    // 268 + 528 == 51 * 31 + gamma.
    let q = Fp128Element::MODULUS;
    let final_msg = prover.compute_final_message();
    assert!(verifier.verify_final(&final_msg, &fe(q - 785), &fe(0)));
    assert!(!verifier.verify_final(&final_msg, &fe(0), &fe(0)));
}

#[test]
fn one_round_check_cancels_alpha() {
    let setup = LatticeProverSetup::<KyberCurve>::new(1);
    let v1 = vec![poly(&[1, 2]), poly(&[3, 4])];
    let v2 = vec![poly(&[5, 6]), poly(&[7, 8])];
    let mut prover = LatticeDoryProverState::new(v1, v2, vec![fe(1), fe(2)], vec![fe(3), fe(4)], &setup);
    let msg = prover.compute_first_message(&fe(2));
    let mut verifier = LatticeDoryVerifierState::new(LatticeVerifierSetup::<KyberCurve>::new(1), 1);
    verifier.update_first(&msg, &fe(2), &fe(3));
    // With d = 5: 2·D1L + D1R/2 + 5·D1L + D2L = 268 + 660 + 528 = 1456 on
    // the left, E1·E2 = 17·93 = 1581 (alpha cancels) plus 6·gamma on the right.
    let gamma = (fe(1456) - fe(1581)) * fe(6).inv().unwrap();
    let final_msg = prover.compute_final_message();
    assert!(verifier.verify_final(&final_msg, &gamma, &fe(5)));
    assert!(!verifier.verify_final(&final_msg, &(gamma + fe(1)), &fe(5)));
}
