use dory_pcs::dory_proof::DoryProof;
use dory_pcs::error::DoryError;
use dory_pcs::fp128::Fp128Element;
use dory_pcs::messages::{FirstReduceMessage, ScalarProductMessage, SecondReduceMessage, VMVMessage};
use dory_pcs::mode::{Transparent, ZK};
use dory_pcs::prime_prover::{compute_rounds_tree, prove_dory_prime, prove_rounds_forked, prove_rounds_sequential};
use dory_pcs::reduce_and_fold::ForkableDoryProverState;
use dory_pcs::scalar_pairing::{ScalarPairing, ScalarRoutines};
use dory_pcs::setup::{ProverSetup, VerifierSetup};
use dory_pcs::transcript::{Transcript, TranscriptLabel, TranscriptLog};
use dory_pcs::witness::{extract_witness_data, witness_from_challenges};

fn fe(v: u64) -> Fp128Element {
    Fp128Element::from_raw(v)
}

fn neg(v: u64) -> Fp128Element {
    fe(Fp128Element::MODULUS - v)
}

fn fes(vs: &[u64]) -> Vec<Fp128Element> {
    vs.iter().map(|v| fe(*v)).collect()
}

fn prover_setup() -> ProverSetup<ScalarPairing> {
    ProverSetup {
        g1_vec: fes(&[2, 3, 5, 7]),
        g2_vec: fes(&[11, 13, 17, 19]),
        h1: fe(23),
        h2: fe(29),
        ht: fe(667),
    }
}

fn verifier_setup() -> VerifierSetup<ScalarPairing> {
    VerifierSetup {
        chi: fes(&[127, 131]),
        delta_1l: fes(&[0, 137]),
        delta_1r: fes(&[0, 139]),
        delta_2l: fes(&[0, 149]),
        delta_2r: fes(&[0, 151]),
        g1_0: fe(2),
        g2_0: fe(11),
        h1: fe(23),
        h2: fe(29),
        ht: fe(667),
    }
}

/// Hands out fixed challenges in order and records every label.
struct Scripted {
    challenges: Vec<Fp128Element>,
    next: usize,
    labels: Vec<String>,
}

impl Scripted {
    fn new(challenges: Vec<Fp128Element>) -> Self {
        Scripted { challenges, next: 0, labels: Vec::new() }
    }
}

impl Transcript<ScalarPairing> for Scripted {
    fn spec_log(&self) -> TranscriptLog<ScalarPairing> {
        unreachable!()
    }

    fn spec_challenge(_log: TranscriptLog<ScalarPairing>, _label: TranscriptLabel) -> Fp128Element {
        unreachable!()
    }

    fn append_g1(&mut self, label: &str, _v: &Fp128Element) {
        self.labels.push(label.to_string());
    }

    fn append_g2(&mut self, label: &str, _v: &Fp128Element) {
        self.labels.push(label.to_string());
    }

    fn append_gt(&mut self, label: &str, _v: &Fp128Element) {
        self.labels.push(label.to_string());
    }

    fn challenge_scalar(&mut self, label: &str) -> Fp128Element {
        self.labels.push(label.to_string());
        let c = self.challenges[self.next];
        self.next += 1;
        c
    }
}

fn one_round_state() -> ForkableDoryProverState<ScalarPairing, Transparent> {
    ForkableDoryProverState::new(fes(&[1, 2]), fes(&[3, 4]), None, fes(&[5, 6]), fes(&[7, 8]), prover_setup())
}

fn check_first(m: &FirstReduceMessage<Fp128Element, Fp128Element, Fp128Element>, expected: [Fp128Element; 6]) {
    assert_eq!([m.d1_left, m.d1_right, m.d2_left, m.d2_right, m.e1_beta, m.e2_beta], expected);
}

fn check_second(m: &SecondReduceMessage<Fp128Element, Fp128Element, Fp128Element>, expected: [Fp128Element; 6]) {
    assert_eq!([m.c_plus, m.c_minus, m.e1_plus, m.e1_minus, m.e2_plus, m.e2_minus], expected);
}

#[test]
fn rounds_tree_one_round_exact() {
    let mut t = Scripted::new(vec![fe(1), neg(1)]);
    let out = compute_rounds_tree::<ScalarPairing, ScalarRoutines, ScalarRoutines, Transparent, Scripted>(
        0, 1, one_round_state(), &mut t,
    )
    .unwrap();
    assert_eq!(out.first_messages.len(), 1);
    check_first(&out.first_messages[0], [fe(11), fe(22), fe(6), fe(8), fe(38), fe(133)]);
    check_second(&out.second_messages[0], [fe(51), fe(70), fe(24), fe(35), fe(85), fe(84)]);
    assert_eq!(out.betas, vec![fe(1)]);
    assert_eq!(out.alphas, vec![neg(1)]);
    assert_eq!(out.state.rounds_remaining(), 0);
    let labels: Vec<&str> = t.labels.iter().map(|s| s.as_str()).collect();
    assert_eq!(
        labels,
        vec![
            "d1_left", "d1_right", "d2_left", "d2_right", "e1_beta", "e2_beta", "beta", "c_plus", "c_minus",
            "e1_plus", "e1_minus", "e2_plus", "e2_minus", "alpha"
        ]
    );
}

#[test]
fn rounds_tree_no_rounds_left() {
    let mut t = Scripted::new(vec![]);
    let out = compute_rounds_tree::<ScalarPairing, ScalarRoutines, ScalarRoutines, Transparent, Scripted>(
        1, 1, one_round_state(), &mut t,
    )
    .unwrap();
    assert!(out.first_messages.is_empty());
    assert_eq!(out.state.rounds_remaining(), 1);
    assert!(t.labels.is_empty());
}

#[test]
fn rounds_tree_zero_challenge() {
    let mut t = Scripted::new(vec![fe(0)]);
    let r = compute_rounds_tree::<ScalarPairing, ScalarRoutines, ScalarRoutines, Transparent, Scripted>(
        0, 1, one_round_state(), &mut t,
    );
    assert!(matches!(r, Err(DoryError::ZeroChallenge)));
}

#[test]
fn rounds_forked_final_message() {
    let mut t = Scripted::new(vec![fe(1), neg(1), fe(1), fe(5)]);
    let out = prove_rounds_forked::<ScalarPairing, ScalarRoutines, ScalarRoutines, Transparent, Scripted>(
        one_round_state(), &mut t,
    )
    .unwrap();
    // Folded: v1 = [2], v2 = [3], s1 = [1], s2 = [1]; E1 = 2 + 23, E2 = 3 + 29.
    assert_eq!(out.final_message.e1, fe(25));
    assert_eq!(out.final_message.e2, fe(32));
    assert_eq!(out.gamma, fe(1));
    assert_eq!(t.labels[t.labels.len() - 4..].to_vec(), vec!["gamma", "final_e1", "final_e2", "d"]);
}

#[test]
fn rounds_forked_zero_gamma() {
    let mut t = Scripted::new(vec![fe(1), neg(1), fe(0), fe(5)]);
    let r = prove_rounds_forked::<ScalarPairing, ScalarRoutines, ScalarRoutines, Transparent, Scripted>(
        one_round_state(), &mut t,
    );
    assert!(matches!(r, Err(DoryError::ZeroChallenge)));
}

fn prime_proof(t: &mut Scripted) -> Result<dory_pcs::prime_proof::DoryPrimeProof<DoryProof<Fp128Element, Fp128Element, Fp128Element>>, DoryError> {
    prove_dory_prime::<ScalarPairing, ScalarRoutines, ScalarRoutines, Transparent, Scripted>(
        &fes(&[3]),
        fes(&[3]),
        fe(0),
        &fes(&[1]),
        &fes(&[5, 6]),
        &fes(&[7, 8]),
        0,
        1,
        &prover_setup(),
        t,
    )
}

#[test]
fn dory_prime_exact() {
    let mut t = Scripted::new(vec![fe(1), neg(1), fe(1), fe(1)]);
    let p = prime_proof(&mut t).unwrap();
    assert_eq!((p.nu, p.sigma), (0, 1));
    let b = &p.batch_proof;
    assert_eq!((b.nu, b.sigma), (0, 1));
    assert_eq!([b.vmv_message.c, b.vmv_message.d2, b.vmv_message.e1], [fe(231), fe(418), fe(3)]);
    check_first(&b.first_messages[0], [fe(33), fe(0), fe(154), fe(176), fe(2), fe(133)]);
    check_second(&b.second_messages[0], [fe(505), fe(264), fe(0), fe(3), fe(505), fe(528)]);
    assert_eq!(b.final_message.e1, fe(21));
    assert_eq!(b.final_message.e2, neg(16));
    assert_eq!(&t.labels[..3], &["vmv_c".to_string(), "vmv_d2".to_string(), "vmv_e1".to_string()]);
}

#[test]
fn dory_prime_dimension_errors() {
    let mut t = Scripted::new(vec![]);
    let r = prove_dory_prime::<ScalarPairing, ScalarRoutines, ScalarRoutines, Transparent, Scripted>(
        &fes(&[3, 4]), fes(&[3]), fe(0), &fes(&[1]), &fes(&[5, 6]), &fes(&[7, 8]), 0, 1, &prover_setup(), &mut t,
    );
    assert!(matches!(r, Err(DoryError::InvalidPointDimension { expected: 1, actual: 2 })));
    let r = prove_dory_prime::<ScalarPairing, ScalarRoutines, ScalarRoutines, Transparent, Scripted>(
        &fes(&[1, 2, 3]), fes(&[3]), fe(0), &fes(&[1]), &fes(&[5, 6]), &fes(&[7, 8]), 2, 1, &prover_setup(), &mut t,
    );
    assert!(matches!(r, Err(DoryError::InvalidSize { expected: 1, actual: 2 })));
    assert!(t.labels.is_empty());
}

fn sample_proof() -> DoryProof<Fp128Element, Fp128Element, Fp128Element> {
    DoryProof {
        vmv_message: VMVMessage { c: fe(231), d2: fe(418), e1: fe(3) },
        first_messages: vec![FirstReduceMessage {
            d1_left: fe(33),
            d1_right: fe(0),
            d2_left: fe(154),
            d2_right: fe(176),
            e1_beta: fe(2),
            e2_beta: fe(133),
        }],
        second_messages: vec![SecondReduceMessage {
            c_plus: fe(505),
            c_minus: fe(264),
            e1_plus: fe(0),
            e1_minus: fe(3),
            e2_plus: fe(505),
            e2_minus: fe(528),
        }],
        final_message: ScalarProductMessage { e1: fe(21), e2: neg(16) },
        nu: 0,
        sigma: 1,
    }
}

#[test]
fn witness_from_challenges_exact() {
    let proof = sample_proof();
    let w = witness_from_challenges::<ScalarPairing>(
        fe(9), fe(4), &fes(&[3]), &proof, &fe(11), &fes(&[1]), &[neg(1)], fe(1), fe(1),
    )
    .unwrap();
    assert_eq!(w.s1_coords, fes(&[3]));
    assert_eq!(w.s2_coords, fes(&[0]));
    assert_eq!(w.num_rounds, 1);
    // E2 = 44 - 505 - 528 + 133 = -856; s1 = 5, s2 = -1.
    assert_eq!(w.final_p1_g2, neg(5));
    assert_eq!(w.final_p2_g2, fe(801));
    assert_eq!(w.s_product, neg(5));
    assert_eq!(w.commitment, fe(9));
    assert_eq!(w.evaluation, fe(4));
}

#[test]
fn witness_pads_row_coordinates() {
    let mut proof = sample_proof();
    proof.nu = 1;
    proof.sigma = 2;
    proof.first_messages.push(proof.first_messages[0]);
    proof.second_messages.push(proof.second_messages[0]);
    let w = witness_from_challenges::<ScalarPairing>(
        fe(9), fe(4), &fes(&[3, 4, 5]), &proof, &fe(11), &fes(&[1, 1]), &fes(&[1, 1]), fe(1), fe(1),
    )
    .unwrap();
    assert_eq!(w.s1_coords, fes(&[3, 4]));
    assert_eq!(w.s2_coords, fes(&[5, 0]));
}

#[test]
fn witness_point_dimension_error() {
    let proof = sample_proof();
    let r = witness_from_challenges::<ScalarPairing>(
        fe(9), fe(4), &fes(&[3, 4]), &proof, &fe(11), &fes(&[1]), &[neg(1)], fe(1), fe(1),
    );
    assert!(matches!(r, Err(DoryError::InvalidPointDimension { expected: 1, actual: 2 })));
}

#[test]
fn extract_witness_replays_transcript() {
    let proof = sample_proof();
    let mut t = Scripted::new(vec![fe(1), neg(1), fe(1), fe(1)]);
    let w = extract_witness_data::<ScalarPairing, Scripted>(fe(9), fe(4), &fes(&[3]), &proof, &verifier_setup(), &mut t)
        .unwrap();
    assert_eq!(w.betas, vec![fe(1)]);
    assert_eq!(w.alphas, vec![neg(1)]);
    assert_eq!(w.final_p2_g2, fe(801));
    assert_eq!(t.labels.len(), 3 + 14 + 4);
    let mut zero = Scripted::new(vec![fe(1), neg(1), fe(1), fe(0)]);
    let r = extract_witness_data::<ScalarPairing, Scripted>(fe(9), fe(4), &fes(&[3]), &proof, &verifier_setup(), &mut zero);
    assert!(matches!(r, Err(DoryError::ZeroChallenge)));
}

#[test]
fn forkable_new_counts_trailing_zero_bits() {
    let three = ForkableDoryProverState::<ScalarPairing, Transparent>::new(fes(&[1, 2, 3]), fes(&[1]), None, fes(&[]), fes(&[]), prover_setup());
    assert_eq!(three.rounds_remaining(), 0);
    assert_eq!(three.get_blind(), fe(0));
    let six = ForkableDoryProverState::<ScalarPairing, Transparent>::new(fes(&[1, 2, 3, 4, 5, 6]), fes(&[]), None, fes(&[]), fes(&[]), prover_setup());
    assert_eq!(six.rounds_remaining(), 1);
    let empty = ForkableDoryProverState::<ScalarPairing, Transparent>::new(fes(&[]), fes(&[]), None, fes(&[]), fes(&[]), prover_setup());
    assert_eq!(empty.rounds_remaining(), 64);
}

#[test]
fn forks_answer_alike() {
    let state = one_round_state();
    let (mut a, mut b) = state.fork();
    let ma = a.compute_first_message::<ScalarRoutines, ScalarRoutines>();
    let mb = b.compute_first_message::<ScalarRoutines, ScalarRoutines>();
    check_first(&ma, [mb.d1_left, mb.d1_right, mb.d2_left, mb.d2_right, mb.e1_beta, mb.e2_beta]);
    assert_eq!(a.rounds_remaining(), state.rounds_remaining());
    assert_eq!(b.get_blind(), state.get_blind());
}

#[test]
fn sequential_rounds_match_forked_rounds() {
    let mut t = Scripted::new(vec![fe(1), neg(1), fe(1), fe(5)]);
    let out = prove_rounds_sequential::<ScalarPairing, ScalarRoutines, ScalarRoutines, Transparent, Scripted>(
        one_round_state(), &mut t,
    )
    .unwrap();
    check_first(&out.first_messages[0], [fe(11), fe(22), fe(6), fe(8), fe(38), fe(133)]);
    check_second(&out.second_messages[0], [fe(51), fe(70), fe(24), fe(35), fe(85), fe(84)]);
    assert_eq!(out.final_message.e1, fe(25));
    assert_eq!(out.final_message.e2, fe(32));
    let mut zero = Scripted::new(vec![fe(1), fe(0)]);
    let r = prove_rounds_sequential::<ScalarPairing, ScalarRoutines, ScalarRoutines, Transparent, Scripted>(
        one_round_state(), &mut zero,
    );
    assert!(matches!(r, Err(DoryError::ZeroChallenge)));
}

#[test]
fn zk_rounds_mask_the_messages() {
    // Blinds come from `random`, which is 42 in this field: D-values and C-values gain
    // 42·HT = 28014, E1-values 42·H1 = 966, E2-values 42·H2 = 1218.
    let state = ForkableDoryProverState::<ScalarPairing, ZK>::new(fes(&[1, 2]), fes(&[3, 4]), None, fes(&[5, 6]), fes(&[7, 8]), prover_setup());
    let mut t = Scripted::new(vec![fe(1), neg(1)]);
    let out = compute_rounds_tree::<ScalarPairing, ScalarRoutines, ScalarRoutines, ZK, Scripted>(0, 1, state, &mut t).unwrap();
    check_first(&out.first_messages[0], [fe(28025), fe(28036), fe(28020), fe(28022), fe(38), fe(133)]);
    check_second(&out.second_messages[0], [fe(28065), fe(28084), fe(990), fe(1001), fe(1303), fe(1302)]);
}
