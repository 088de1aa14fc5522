use dory_pcs::error::DoryError;
use dory_pcs::fp128::Fp128Element;
use dory_pcs::messages::{FirstReduceMessage, FirstReduceMessage4, ScalarProductMessage, ScalarProductProof, SecondReduceMessage};
use dory_pcs::mode::Transparent;
use dory_pcs::reduce_and_fold::{DoryProverState, DoryVerifierState, ForkableDoryProverState};
use dory_pcs::scalar_pairing::{ScalarPairing, ScalarRoutines};
use dory_pcs::setup::{ProverSetup, VerifierSetup};

fn fe(v: u64) -> Fp128Element {
    Fp128Element::from_raw(v)
}

fn fes(vs: &[u64]) -> Vec<Fp128Element> {
    vs.iter().map(|v| fe(*v)).collect()
}

fn prover_setup() -> ProverSetup<ScalarPairing> {
    ProverSetup {
        g1_vec: fes(&[2, 3, 5, 7]),
        g2_vec: fes(&[11, 13, 17, 19]),
        h1: fe(23),
        h2: fe(29),
        ht: fe(667),
    }
}

fn verifier_setup() -> VerifierSetup<ScalarPairing> {
    VerifierSetup {
        chi: fes(&[127, 131]),
        delta_1l: fes(&[0, 137]),
        delta_1r: fes(&[0, 139]),
        delta_2l: fes(&[0, 149]),
        delta_2r: fes(&[0, 151]),
        g1_0: fe(2),
        g2_0: fe(11),
        h1: fe(23),
        h2: fe(29),
        ht: fe(667),
    }
}

type Prover<'a> = DoryProverState<'a, ScalarPairing, Transparent>;

#[test]
fn prover_first_message_exact() {
    let setup = prover_setup();
    let mut p = Prover::new(fes(&[1, 2]), fes(&[3, 4]), None, fes(&[5, 6]), fes(&[7, 8]), &setup);
    assert_eq!(p.num_rounds(), 1);
    let m: FirstReduceMessage<_, _, _> = p.compute_first_message::<ScalarRoutines, ScalarRoutines>();
    assert_eq!(m.d1_left, fe(11));
    assert_eq!(m.d1_right, fe(22));
    assert_eq!(m.d2_left, fe(6));
    assert_eq!(m.d2_right, fe(8));
    assert_eq!(m.e1_beta, fe(38));
    assert_eq!(m.e2_beta, fe(133));
}

#[test]
fn prover_first_message_from_kept_scalars() {
    let setup = prover_setup();
    let mut p = Prover::new(fes(&[1, 2]), fes(&[3, 4]), Some(fes(&[9, 10])), fes(&[5, 6]), fes(&[7, 8]), &setup);
    let m = p.compute_first_message::<ScalarRoutines, ScalarRoutines>();
    assert_eq!(m.d2_left, fe(198));
    assert_eq!(m.d2_right, fe(220));
}

#[test]
fn prover_full_binary_round_exact() {
    let setup = prover_setup();
    let mut p = Prover::new(fes(&[1, 2]), fes(&[3, 4]), None, fes(&[5, 6]), fes(&[7, 8]), &setup);
    let _first = p.compute_first_message::<ScalarRoutines, ScalarRoutines>();
    p.apply_first_challenge::<ScalarRoutines, ScalarRoutines>(&fe(1));
    let m: SecondReduceMessage<_, _, _> = p.compute_second_message::<ScalarRoutines, ScalarRoutines>();
    assert_eq!(m.c_plus, fe(51));
    assert_eq!(m.c_minus, fe(70));
    assert_eq!(m.e1_plus, fe(24));
    assert_eq!(m.e1_minus, fe(35));
    assert_eq!(m.e2_plus, fe(85));
    assert_eq!(m.e2_minus, fe(84));
    p.apply_second_challenge::<ScalarRoutines, ScalarRoutines>(&fe(2));
    assert_eq!(p.num_rounds(), 0);
    let f: ScalarProductMessage<_, _> = p.compute_final_message::<ScalarRoutines, ScalarRoutines>(&fe(1));
    assert_eq!(f.e1, fe(379));
    assert_eq!(f.e2, fe(9223372034707292518));
}

#[test]
fn prover_first_challenge_shifts_by_generators() {
    let setup = prover_setup();
    let mut p = Prover::new(fes(&[1, 2]), fes(&[3, 4]), Some(fes(&[9, 10])), fes(&[5, 6]), fes(&[7, 8]), &setup);
    p.apply_first_challenge::<ScalarRoutines, ScalarRoutines>(&fe(Fp128Element::MODULUS - 1));
    // v1 = [1 - 2, 2 - 3], v2 = [3 - 11, 4 - 13]; the kept scalars are gone.
    let m = p.compute_first_message::<ScalarRoutines, ScalarRoutines>();
    assert_eq!(m.d1_left, fe(Fp128Element::MODULUS - 11));
    assert_eq!(m.d1_right, fe(Fp128Element::MODULUS - 11));
    assert_eq!(m.d2_left, fe(Fp128Element::MODULUS - 16));
    assert_eq!(m.d2_right, fe(Fp128Element::MODULUS - 18));
}

#[test]
fn prover_four_way_round_exact() {
    let setup = prover_setup();
    let mut p = Prover::new(
        fes(&[1, 2, 3, 4]),
        fes(&[5, 6, 7, 8]),
        None,
        fes(&[1, 1, 1, 1]),
        fes(&[2, 2, 2, 2]),
        &setup,
    );
    assert_eq!(p.num_rounds(), 2);
    let m: FirstReduceMessage4<_, _, _> = p.compute_4ary_message::<ScalarRoutines, ScalarRoutines>();
    // Quarters have one entry; the first generators are 2 and 11.
    assert_eq!(m.d1, [fe(11), fe(22), fe(33), fe(44)]);
    assert_eq!(m.d2, [fe(10), fe(12), fe(14), fe(16)]);
    assert_eq!(m.c_raw[0], fe(5));
    assert_eq!(m.c_raw[1 * 4 + 2], fe(14));
    assert_eq!(m.c_raw[15], fe(32));
    assert_eq!(m.e1_cross[2 * 4 + 1], fe(6));
    assert_eq!(m.e2_cross[3 * 4 + 0], fe(8));
    assert_eq!(m.e1_beta, fe(2 * (2 + 3 + 5 + 7)));
    assert_eq!(m.e2_beta, fe(11 + 13 + 17 + 19));
    // With α = 1 the coefficients are (1, 1, 1, -2): v1 folds to 1 + 2 + 3 - 8.
    p.apply_second_challenge_4ary::<ScalarRoutines, ScalarRoutines>(&fe(1));
    assert_eq!(p.num_rounds(), 0);
    let f = p.compute_final_message::<ScalarRoutines, ScalarRoutines>(&fe(1));
    // v1 = -2, s1 = 1 + 1 + 1 - 2 = 1: e1 = -2 + 1·23.
    assert_eq!(f.e1, fe(21));
}

#[test]
fn forkable_matches_borrowing_prover() {
    let setup = prover_setup();
    let mut p = Prover::new(fes(&[1, 2]), fes(&[3, 4]), None, fes(&[5, 6]), fes(&[7, 8]), &setup);
    let mut f = ForkableDoryProverState::<ScalarPairing, Transparent>::from_prover_state(&p);
    assert_eq!(f.rounds_remaining(), 1);
    let (mut left, mut right) = f.fork();
    let mp = p.compute_first_message::<ScalarRoutines, ScalarRoutines>();
    let mf = f.compute_first_message::<ScalarRoutines, ScalarRoutines>();
    let ml = left.compute_first_message::<ScalarRoutines, ScalarRoutines>();
    let mr = right.compute_first_message::<ScalarRoutines, ScalarRoutines>();
    assert_eq!(mp.d1_left, mf.d1_left);
    assert_eq!(mf.e1_beta, ml.e1_beta);
    assert_eq!(ml.d2_right, mr.d2_right);
    // The branches diverge with their challenges.
    left.apply_first_challenge::<ScalarRoutines, ScalarRoutines>(&fe(1));
    right.apply_first_challenge::<ScalarRoutines, ScalarRoutines>(&fe(Fp128Element::MODULUS - 1));
    let sl = left.compute_second_message::<ScalarRoutines, ScalarRoutines>();
    let sr = right.compute_second_message::<ScalarRoutines, ScalarRoutines>();
    assert_eq!(sl.c_plus, fe(51));
    assert_ne!(sl.c_plus, sr.c_plus);
}

#[test]
fn forkable_new_and_blinds() {
    let mut f = ForkableDoryProverState::<ScalarPairing, Transparent>::new(
        fes(&[1, 2]),
        fes(&[3, 4]),
        None,
        fes(&[5, 6]),
        fes(&[7, 8]),
        prover_setup(),
    );
    assert_eq!(f.get_blind(), fe(0));
    f.set_blinds(fe(1), fe(2), fe(3), fe(4), fe(5));
    assert_eq!(f.get_blind(), fe(2));
    let c = f.clone_state();
    assert_eq!(c.get_blind(), fe(2));
    assert_eq!(c.rounds_remaining(), 1);
    f.set_round_blinds(
        fe(9), fe(3), fe(4), fe(5), fe(6), fe(7),
        [fe(0); 2], [fe(0); 2], [fe(0); 2], [fe(0); 2], [fe(0); 2],
        [fe(0); 4], [fe(0); 4], [fe(0); 16], [fe(0); 16], [fe(0); 16],
    );
    assert_eq!(f.get_blind(), fe(6));
}

fn first_msg() -> FirstReduceMessage<Fp128Element, Fp128Element, Fp128Element> {
    FirstReduceMessage {
        d1_left: fe(167),
        d1_right: fe(173),
        d2_left: fe(179),
        d2_right: fe(181),
        e1_beta: fe(191),
        e2_beta: fe(193),
    }
}

fn second_msg() -> SecondReduceMessage<Fp128Element, Fp128Element, Fp128Element> {
    SecondReduceMessage {
        c_plus: fe(197),
        c_minus: fe(199),
        e1_plus: fe(211),
        e1_minus: fe(223),
        e2_plus: fe(227),
        e2_minus: fe(229),
    }
}

fn make_verifier(coords: &[u64], rounds: usize) -> DoryVerifierState<ScalarPairing> {
    DoryVerifierState::new(
        fe(101),
        fe(103),
        fe(107),
        fe(109),
        fe(113),
        fes(coords),
        fes(&coords.iter().map(|c| c + 6).collect::<Vec<u64>>()),
        rounds,
        verifier_setup(),
    )
}

#[test]
fn verifier_final_check_transparent() {
    let v = make_verifier(&[], 0);
    let good = ScalarProductMessage { e1: fe(13241474703292647196), e2: fe(131) };
    assert_eq!(v.verify_final(&good, &fe(5), &fe(3), None), Ok(()));
    let bad = ScalarProductMessage { e1: fe(13241474703292647197), e2: fe(131) };
    assert_eq!(v.verify_final(&bad, &fe(5), &fe(3), None), Err(DoryError::InvalidProof));
    assert_eq!(v.verify_final(&good, &fe(5), &fe(0), None), Err(DoryError::InvalidProof));
    assert_eq!(v.verify_final(&good, &fe(0), &fe(3), None), Err(DoryError::InvalidProof));
}

#[test]
fn verifier_final_check_zero_knowledge() {
    let v = make_verifier(&[], 0);
    let mut sp = ScalarProductProof {
        p1: fe(3),
        p2: fe(5),
        q: fe(7),
        r: fe(11),
        e1: fe(368934881388288329),
        e2: fe(13),
        r1: fe(17),
        r2: fe(19),
        r3: fe(23),
    };
    let msg = ScalarProductMessage { e1: fe(0), e2: fe(0) };
    // γ plays no part in this check, even when it has no inverse.
    assert_eq!(v.verify_final(&msg, &fe(0), &fe(3), Some((&sp, &fe(2)))), Ok(()));
    sp.r3 = fe(24);
    assert_eq!(v.verify_final(&msg, &fe(0), &fe(3), Some((&sp, &fe(2)))), Err(DoryError::InvalidProof));
}

#[test]
fn verifier_round_then_final_check() {
    let mut v = make_verifier(&[157], 1);
    assert_eq!(v.process_round(&first_msg(), &second_msg(), &fe(2), &fe(3)), Ok(()));
    let good = ScalarProductMessage { e1: fe(8835259845127962131), e2: fe(131) };
    assert_eq!(v.verify_final(&good, &fe(5), &fe(3), None), Ok(()));
    let bad = ScalarProductMessage { e1: fe(8835259845127962132), e2: fe(131) };
    assert_eq!(v.verify_final(&bad, &fe(5), &fe(3), None), Err(DoryError::InvalidProof));
    // No round is left.
    assert_eq!(v.process_round(&first_msg(), &second_msg(), &fe(2), &fe(3)), Err(DoryError::InvalidProof));
}

#[test]
fn verifier_rejects_non_invertible_challenges() {
    let mut v = make_verifier(&[157], 1);
    assert_eq!(v.process_round(&first_msg(), &second_msg(), &fe(0), &fe(3)), Err(DoryError::InvalidProof));
    assert_eq!(v.process_round(&first_msg(), &second_msg(), &fe(2), &fe(0)), Err(DoryError::InvalidProof));
    // The rejected rounds changed nothing: the round still goes through.
    assert_eq!(v.process_round(&first_msg(), &second_msg(), &fe(2), &fe(3)), Ok(()));
}

#[test]
fn verifier_four_way_round_needs_two_rounds() {
    let mut v = make_verifier(&[157], 1);
    let m = FirstReduceMessage4 {
        d1: [fe(1); 4],
        d2: [fe(1); 4],
        c_raw: [fe(1); 16],
        e1_cross: [fe(1); 16],
        e2_cross: [fe(1); 16],
        e1_beta: fe(1),
        e2_beta: fe(1),
    };
    assert_eq!(v.process_round_4ary(&m, &fe(2), &fe(3)), Err(DoryError::InvalidProof));
}

#[test]
fn fold_coefficients_sum_to_one() {
    let c = dory_pcs::reduce_and_fold::fold_coefficients(&fe(5));
    assert_eq!(c, (fe(125), fe(25), fe(5), fe(Fp128Element::MODULUS - 154)));
    assert_eq!(c.0 + c.1 + c.2 + c.3, fe(1));
    let d = dory_pcs::reduce_and_fold::fold_coefficients(&fe(Fp128Element::MODULUS - 3));
    assert_eq!(d.0 + d.1 + d.2 + d.3, fe(1));
}

fn neg(v: u64) -> Fp128Element {
    fe(Fp128Element::MODULUS - v)
}

#[test]
fn honest_round_is_accepted() {
    // Generators, and the verifier's values computed from them:
    // chi[k] pairs the first 2^k generators; the deltas pair the halves.
    let psetup = ProverSetup::<ScalarPairing> {
        g1_vec: fes(&[2, 3]),
        g2_vec: fes(&[5, 7]),
        h1: fe(11),
        h2: fe(13),
        ht: fe(143),
    };
    let vsetup = VerifierSetup::<ScalarPairing> {
        chi: fes(&[10, 31]),
        delta_1l: fes(&[0, 10]),
        delta_1r: fes(&[0, 15]),
        delta_2l: fes(&[0, 10]),
        delta_2r: fes(&[0, 14]),
        g1_0: fe(2),
        g2_0: fe(5),
        h1: fe(11),
        h2: fe(13),
        ht: fe(143),
    };
    // v1 = [18, 20], v2 = 5·[38, 0], s1 = [1 - 23, 23], s2 = [1 - 29, 29]:
    // <v1, s2> = 76 = <Γ1, [38, 0]>, so D2 = e(E1, Γ2[0]) = 380.
    let v1 = fes(&[18, 20]);
    let v2 = fes(&[190, 0]);
    let s1 = vec![neg(22), fe(23)];
    let s2 = vec![neg(28), fe(29)];
    let mut verifier = DoryVerifierState::<ScalarPairing>::new(
        fe(3420),
        fe(230),
        fe(380),
        fe(76),
        neg(4180),
        fes(&[23]),
        fes(&[29]),
        1,
        vsetup,
    );
    let mut prover = Prover::new(v1, v2, None, s1, s2, &psetup);
    let m1 = prover.compute_first_message::<ScalarRoutines, ScalarRoutines>();
    let beta = fe(3);
    prover.apply_first_challenge::<ScalarRoutines, ScalarRoutines>(&beta);
    let m2 = prover.compute_second_message::<ScalarRoutines, ScalarRoutines>();
    let alpha = fe(2);
    prover.apply_second_challenge::<ScalarRoutines, ScalarRoutines>(&alpha);
    assert_eq!(verifier.process_round(&m1, &m2, &alpha, &beta), Ok(()));
    let gamma = fe(7);
    let last = prover.compute_final_message::<ScalarRoutines, ScalarRoutines>(&gamma);
    assert_eq!(verifier.verify_final(&last, &gamma, &fe(5), None), Ok(()));
    let forged = ScalarProductMessage { e1: last.e1 + fe(1), e2: last.e2 };
    assert_eq!(verifier.verify_final(&forged, &gamma, &fe(5), None), Err(DoryError::InvalidProof));
}

#[test]
fn verifier_four_way_round_then_final_check() {
    let setup = VerifierSetup::<ScalarPairing> {
        chi: fes(&[127, 131, 137]),
        delta_1l: fes(&[0, 139, 149]),
        delta_1r: fes(&[0, 151, 157]),
        delta_2l: fes(&[0, 163, 167]),
        delta_2r: fes(&[0, 173, 179]),
        g1_0: fe(2),
        g2_0: fe(11),
        h1: fe(23),
        h2: fe(29),
        ht: fe(667),
    };
    let mut v = DoryVerifierState::<ScalarPairing>::new(
        fe(101),
        fe(103),
        fe(107),
        fe(109),
        fe(113),
        fes(&[157, 158]),
        fes(&[163, 164]),
        2,
        setup,
    );
    let mut c_raw = [fe(0); 16];
    let mut e1_cross = [fe(0); 16];
    let mut e2_cross = [fe(0); 16];
    for k in 0..16u64 {
        c_raw[k as usize] = fe(k + 1);
        e1_cross[k as usize] = fe(2 * k + 1);
        e2_cross[k as usize] = fe(3 * k + 2);
    }
    let m = FirstReduceMessage4 {
        d1: [fe(3), fe(5), fe(7), fe(11)],
        d2: [fe(13), fe(17), fe(19), fe(23)],
        c_raw,
        e1_cross,
        e2_cross,
        e1_beta: fe(31),
        e2_beta: fe(37),
    };
    assert_eq!(v.process_round_4ary(&m, &fe(0), &fe(3)), Err(DoryError::InvalidProof));
    assert_eq!(v.process_round_4ary(&m, &fe(2), &fe(3)), Ok(()));
    let good = ScalarProductMessage { e1: fe(3353745921351117279), e2: fe(131) };
    assert_eq!(v.verify_final(&good, &fe(5), &fe(3), None), Ok(()));
    let bad = ScalarProductMessage { e1: fe(3353745921351117280), e2: fe(131) };
    assert_eq!(v.verify_final(&bad, &fe(5), &fe(3), None), Err(DoryError::InvalidProof));
}

#[test]
fn random_elements_are_fixed() {
    assert_eq!(<Fp128Element as dory_pcs::arithmetic::Field>::random(), fe(42));
    assert_eq!(<Fp128Element as dory_pcs::arithmetic::Group>::random(), fe(42));
    assert_eq!(<Fp128Element as dory_pcs::lattice_trait::LatticeField>::random(), fe(42));
}

#[test]
fn forkable_and_borrowing_provers_agree_in_lockstep() {
    let setup = prover_setup();
    let mut p = Prover::new(fes(&[1, 2, 3, 4]), fes(&[5, 6, 7, 8]), None, fes(&[9, 10, 11, 12]), fes(&[13, 14, 15, 16]), &setup);
    let mut f = ForkableDoryProverState::<ScalarPairing, Transparent>::new(
        fes(&[1, 2, 3, 4]),
        fes(&[5, 6, 7, 8]),
        None,
        fes(&[9, 10, 11, 12]),
        fes(&[13, 14, 15, 16]),
        prover_setup(),
    );
    assert_eq!(f.rounds_remaining(), p.num_rounds());
    for (beta, alpha) in [(3u64, 5u64), (7, 11)] {
        let a = p.compute_first_message::<ScalarRoutines, ScalarRoutines>();
        let b = f.compute_first_message::<ScalarRoutines, ScalarRoutines>();
        assert_eq!((a.d1_left, a.d1_right, a.d2_left, a.d2_right, a.e1_beta, a.e2_beta),
            (b.d1_left, b.d1_right, b.d2_left, b.d2_right, b.e1_beta, b.e2_beta));
        p.apply_first_challenge::<ScalarRoutines, ScalarRoutines>(&fe(beta));
        f.apply_first_challenge::<ScalarRoutines, ScalarRoutines>(&fe(beta));
        let a = p.compute_second_message::<ScalarRoutines, ScalarRoutines>();
        let b = f.compute_second_message::<ScalarRoutines, ScalarRoutines>();
        assert_eq!((a.c_plus, a.c_minus, a.e1_plus, a.e1_minus, a.e2_plus, a.e2_minus),
            (b.c_plus, b.c_minus, b.e1_plus, b.e1_minus, b.e2_plus, b.e2_minus));
        p.apply_second_challenge::<ScalarRoutines, ScalarRoutines>(&fe(alpha));
        f.apply_second_challenge::<ScalarRoutines, ScalarRoutines>(&fe(alpha));
        assert_eq!(f.rounds_remaining(), p.num_rounds());
    }
    let a = p.compute_final_message::<ScalarRoutines, ScalarRoutines>(&fe(13));
    let b = f.compute_final_message::<ScalarRoutines, ScalarRoutines>(&fe(13));
    assert_eq!((a.e1, a.e2), (b.e1, b.e2));
}

#[test]
fn forkable_set_round_blinds_ignores_its_first_argument() {
    let mut a = ForkableDoryProverState::<ScalarPairing, Transparent>::new(
        fes(&[1, 2]), fes(&[3, 4]), None, fes(&[5, 6]), fes(&[7, 8]), prover_setup(),
    );
    let mut b = ForkableDoryProverState::<ScalarPairing, Transparent>::new(
        fes(&[1, 2]), fes(&[3, 4]), None, fes(&[5, 6]), fes(&[7, 8]), prover_setup(),
    );
    a.set_round_blinds(
        fe(1), fe(3), fe(4), fe(5), fe(6), fe(7),
        [fe(0); 2], [fe(0); 2], [fe(0); 2], [fe(0); 2], [fe(0); 2],
        [fe(0); 4], [fe(0); 4], [fe(0); 16], [fe(0); 16], [fe(0); 16],
    );
    b.set_round_blinds(
        fe(99), fe(3), fe(4), fe(5), fe(6), fe(7),
        [fe(0); 2], [fe(0); 2], [fe(0); 2], [fe(0); 2], [fe(0); 2],
        [fe(0); 4], [fe(0); 4], [fe(0); 16], [fe(0); 16], [fe(0); 16],
    );
    assert_eq!(a.get_blind(), b.get_blind());
    assert_eq!(a.rounds_remaining(), b.rounds_remaining());
    a.apply_first_challenge::<ScalarRoutines, ScalarRoutines>(&fe(3));
    b.apply_first_challenge::<ScalarRoutines, ScalarRoutines>(&fe(3));
    assert_eq!(a.get_blind(), b.get_blind());
}
