use dory_pcs::dory_proof::DoryProof;
use dory_pcs::error::DoryError;
use dory_pcs::fp128::Fp128Element;
use dory_pcs::messages::ScalarProductMessage;
use dory_pcs::mode::Transparent;
use dory_pcs::prime_proof::DoryPrimeProof;
use dory_pcs::prime_prover::{prove_dory_prime, prove_dory_prime_cascading, prove_dory_prime_with_lookahead};
use dory_pcs::reduce_and_fold::{DoryProverState, DoryVerifierState};
use dory_pcs::scalar_pairing::{ScalarPairing, ScalarRoutines};
use dory_pcs::setup::{ProverSetup, VerifierSetup};
use dory_pcs::transcript::{Transcript, TranscriptLabel, TranscriptLog};
use dory_pcs::witness::extract_witness_data;

type Fe = Fp128Element;
type Proof = DoryProof<Fe, Fe, Fe>;

fn fe(v: u64) -> Fe {
    Fp128Element::from_raw(v)
}

/// A deterministic stream of nonzero field elements.
struct Stream(u64);

impl Stream {
    fn next(&mut self) -> Fe {
        self.0 = self.0.wrapping_mul(6364136223846793005).wrapping_add(1442695040888963407);
        fe((self.0 >> 11) % (Fp128Element::MODULUS - 1) + 1)
    }
}

/// Hands out fixed challenges in order.
struct Scripted {
    challenges: Vec<Fe>,
    next: usize,
}

impl Scripted {
    /// The challenges a transcript seeded with `label` hands out.
    fn new(label: &str) -> Self {
        let seed = label.bytes().fold(17u64, |h, b| h.wrapping_mul(31).wrapping_add(b as u64));
        let mut s = Stream(seed);
        Scripted { challenges: (0..64).map(|_| s.next()).collect(), next: 0 }
    }
}

impl Transcript<ScalarPairing> for Scripted {
    fn spec_log(&self) -> TranscriptLog<ScalarPairing> {
        unreachable!()
    }

    fn spec_challenge(_log: TranscriptLog<ScalarPairing>, _label: TranscriptLabel) -> Fp128Element {
        unreachable!()
    }

    fn append_g1(&mut self, _label: &str, _v: &Fe) {}

    fn append_g2(&mut self, _label: &str, _v: &Fe) {}

    fn append_gt(&mut self, _label: &str, _v: &Fe) {}

    fn challenge_scalar(&mut self, _label: &str) -> Fe {
        let c = self.challenges[self.next];
        self.next += 1;
        c
    }
}

fn pairing_sum(a: &[Fe], b: &[Fe]) -> Fe {
    a.iter().zip(b.iter()).fold(fe(0), |acc, (x, y)| acc + *x * *y)
}

/// Generators for polynomials of up to `2^max_log_n` coefficients, and the
/// verifier's pairings of their prefixes and halves.
fn setup(max_log_n: usize) -> (ProverSetup<ScalarPairing>, VerifierSetup<ScalarPairing>) {
    let mut s = Stream(max_log_n as u64 + 1);
    let n = 1usize << max_log_n;
    let g1: Vec<Fe> = (0..n).map(|_| s.next()).collect();
    let g2: Vec<Fe> = (0..n).map(|_| s.next()).collect();
    let h1 = s.next();
    let h2 = s.next();
    let ht = h1 * h2;
    let mut chi = Vec::new();
    let mut delta_1l = Vec::new();
    let mut delta_1r = Vec::new();
    let mut delta_2l = Vec::new();
    let mut delta_2r = Vec::new();
    for k in 0..=max_log_n {
        let m = 1usize << k;
        chi.push(pairing_sum(&g1[..m], &g2[..m]));
        if k == 0 {
            delta_1l.push(fe(0));
            delta_1r.push(fe(0));
            delta_2l.push(fe(0));
            delta_2r.push(fe(0));
        } else {
            let h = m / 2;
            delta_1l.push(pairing_sum(&g1[..h], &g2[..h]));
            delta_1r.push(pairing_sum(&g1[h..m], &g2[..h]));
            delta_2l.push(pairing_sum(&g1[..h], &g2[..h]));
            delta_2r.push(pairing_sum(&g1[..h], &g2[h..m]));
        }
    }
    let v = VerifierSetup { chi, delta_1l, delta_1r, delta_2l, delta_2r, g1_0: g1[0], g2_0: g2[0], h1, h2, ht };
    (ProverSetup { g1_vec: g1, g2_vec: g2, h1, h2, ht }, v)
}

/// A polynomial as a `2^nu × 2^sigma` matrix of coefficients.
struct Poly {
    rows: Vec<Vec<Fe>>,
}

impl Poly {
    fn new(coefficients: &[Fe], nu: usize, sigma: usize) -> Self {
        let cols = 1usize << sigma;
        Poly { rows: (0..(1usize << nu)).map(|i| coefficients[i * cols..(i + 1) * cols].to_vec()).collect() }
    }

    /// Row commitments `⟨Γ₁, row⟩` and the commitment `Σ e(row_i, Γ₂[i])`.
    fn commit(&self, setup: &ProverSetup<ScalarPairing>) -> (Fe, Vec<Fe>) {
        let rc: Vec<Fe> = self.rows.iter().map(|r| pairing_sum(&setup.g1_vec[..r.len()], r)).collect();
        let c = pairing_sum(&rc, &setup.g2_vec[..rc.len()]);
        (c, rc)
    }

    /// The evaluation vectors at `point`: the row and column tensors and
    /// `v = left·M`.
    fn vectors(&self, point: &[Fe], nu: usize, sigma: usize) -> (Vec<Fe>, Vec<Fe>, Vec<Fe>) {
        let left = tensor(&point[sigma..sigma + nu]);
        let right = tensor(&point[..sigma]);
        let v: Vec<Fe> = (0..(1usize << sigma))
            .map(|j| (0..self.rows.len()).fold(fe(0), |acc, i| acc + left[i] * self.rows[i][j]))
            .collect();
        (left, right, v)
    }

    fn evaluate(&self, point: &[Fe], nu: usize, sigma: usize) -> Fe {
        let (_, right, v) = self.vectors(point, nu, sigma);
        pairing_sum(&v, &right)
    }
}

/// `t[j] = Π_k (bit k of j ? x_k : 1 - x_k)`.
fn tensor(coords: &[Fe]) -> Vec<Fe> {
    (0..(1usize << coords.len()))
        .map(|j| {
            coords.iter().enumerate().fold(fe(1), |acc, (k, x)| {
                if (j >> k) & 1 == 1 { acc * *x } else { acc * (fe(1) - *x) }
            })
        })
        .collect()
}

/// Checks `proof` of `evaluation` at `point` against `commitment`: the
/// challenges come from replaying the proof on `transcript`, the rounds go
/// through the verifier state, and the final check decides.
fn verify(
    commitment: Fe,
    evaluation: Fe,
    point: &[Fe],
    proof: &Proof,
    setup: &VerifierSetup<ScalarPairing>,
    transcript: &mut Scripted,
) -> Result<(), DoryError> {
    let w = extract_witness_data::<ScalarPairing, Scripted>(commitment, evaluation, point, proof, setup, transcript)?;
    let mut verifier = DoryVerifierState::<ScalarPairing>::new(
        proof.vmv_message.c,
        commitment,
        proof.vmv_message.d2,
        proof.vmv_message.e1,
        setup.g2_0 * evaluation,
        w.s1_coords.clone(),
        w.s2_coords.clone(),
        proof.sigma,
        setup.clone(),
    );
    for i in 0..proof.sigma {
        verifier.process_round(&proof.first_messages[i], &proof.second_messages[i], &w.alphas[i], &w.betas[i])?;
    }
    verifier.verify_final(&proof.final_message, &w.gamma, &w.d, None)
}

type Prover = fn(
    &[Fe],
    Vec<Fe>,
    Fe,
    &[Fe],
    &[Fe],
    &[Fe],
    usize,
    usize,
    &ProverSetup<ScalarPairing>,
    &mut Scripted,
) -> Result<DoryPrimeProof<Proof>, DoryError>;

fn prime(
    point: &[Fe], rc: Vec<Fe>, blind: Fe, l: &[Fe], r: &[Fe], v: &[Fe], nu: usize, sigma: usize,
    s: &ProverSetup<ScalarPairing>, t: &mut Scripted,
) -> Result<DoryPrimeProof<Proof>, DoryError> {
    prove_dory_prime::<ScalarPairing, ScalarRoutines, ScalarRoutines, Transparent, Scripted>(point, rc, blind, l, r, v, nu, sigma, s, t)
}

fn cascading(
    point: &[Fe], rc: Vec<Fe>, blind: Fe, l: &[Fe], r: &[Fe], v: &[Fe], nu: usize, sigma: usize,
    s: &ProverSetup<ScalarPairing>, t: &mut Scripted,
) -> Result<DoryPrimeProof<Proof>, DoryError> {
    prove_dory_prime_cascading::<ScalarPairing, ScalarRoutines, ScalarRoutines, Transparent, Scripted>(point, rc, blind, l, r, v, nu, sigma, s, t)
}

fn lookahead(
    point: &[Fe], rc: Vec<Fe>, blind: Fe, l: &[Fe], r: &[Fe], v: &[Fe], nu: usize, sigma: usize,
    s: &ProverSetup<ScalarPairing>, t: &mut Scripted,
) -> Result<DoryPrimeProof<Proof>, DoryError> {
    prove_dory_prime_with_lookahead::<ScalarPairing, ScalarRoutines, ScalarRoutines, Scripted>(point, rc, blind, l, r, v, nu, sigma, s, t)
}

/// Proves `poly` at `point` with `prover` on a transcript seeded with
/// `label`, and verifies the proof on a fresh transcript with the same seed.
fn prove_and_verify(prover: Prover, poly: &Poly, point: &[Fe], nu: usize, sigma: usize, label: &str,
    ps: &ProverSetup<ScalarPairing>, vs: &VerifierSetup<ScalarPairing>) -> (Proof, Result<(), DoryError>) {
    let (commitment, rc) = poly.commit(ps);
    let (left, right, v) = poly.vectors(point, nu, sigma);
    let evaluation = poly.evaluate(point, nu, sigma);
    let mut transcript = Scripted::new(label);
    let proof = prover(point, rc, fe(0), &left, &right, &v, nu, sigma, ps, &mut transcript)
        .expect("proof generation should succeed");
    let mut verify_transcript = Scripted::new(label);
    let result = verify(commitment, evaluation, point, &proof.batch_proof, vs, &mut verify_transcript);
    (proof.batch_proof, result)
}

fn random_poly(size: usize, nu: usize, sigma: usize, s: &mut Stream) -> Poly {
    let coefficients: Vec<Fe> = (0..size).map(|_| s.next()).collect();
    Poly::new(&coefficients, nu, sigma)
}

#[test]
fn test_dory_prime_prove_and_verify() {
    let max_log_n = 8;
    let (ps, vs) = setup(max_log_n);
    let size = 1 << 8;
    let coefficients: Vec<Fe> = vec![fe(1); size];
    let nu = 4;
    let sigma = 4;
    let poly = Poly::new(&coefficients, nu, sigma);
    let point: Vec<Fe> = (0..8).map(|_| fe(2)).collect();
    let (_, result) = prove_and_verify(prime, &poly, &point, nu, sigma, "dory-prime-test", &ps, &vs);
    assert!(result.is_ok(), "Dory-Prime proof verification should succeed");
}

/// The standard prover: one prover state, the rounds one after the other.
fn standard_prove(poly: &Poly, point: &[Fe], nu: usize, sigma: usize, ps: &ProverSetup<ScalarPairing>,
    t: &mut Scripted) -> Proof {
    let (_, rc) = poly.commit(ps);
    let (left, right, v) = poly.vectors(point, nu, sigma);
    let n = 1usize << sigma;
    let mut v1 = rc.clone();
    v1.resize(n, fe(0));
    let mut s2 = left.clone();
    s2.resize(n, fe(0));
    let g2_fin = ps.g2_vec[0];
    let vmv = dory_pcs::messages::VMVMessage {
        c: pairing_sum(&v1, &v) * g2_fin,
        d2: pairing_sum(&ps.g1_vec[..n], &v) * g2_fin,
        e1: pairing_sum(&rc, &left),
    };
    let v2: Vec<Fe> = v.iter().map(|x| g2_fin * *x).collect();
    let mut state = DoryProverState::<ScalarPairing, Transparent>::new(v1, v2, Some(v.clone()), right.clone(), s2, ps);
    let mut first_messages = Vec::new();
    let mut second_messages = Vec::new();
    for _ in 0..sigma {
        let m1 = state.compute_first_message::<ScalarRoutines, ScalarRoutines>();
        let beta = t.challenge_scalar("beta");
        state.apply_first_challenge::<ScalarRoutines, ScalarRoutines>(&beta);
        let m2 = state.compute_second_message::<ScalarRoutines, ScalarRoutines>();
        let alpha = t.challenge_scalar("alpha");
        state.apply_second_challenge::<ScalarRoutines, ScalarRoutines>(&alpha);
        first_messages.push(m1);
        second_messages.push(m2);
    }
    let gamma = t.challenge_scalar("gamma");
    let final_message: ScalarProductMessage<Fe, Fe> = state.compute_final_message::<ScalarRoutines, ScalarRoutines>(&gamma);
    let _d = t.challenge_scalar("d");
    DoryProof { vmv_message: vmv, first_messages, second_messages, final_message, nu, sigma }
}

#[test]
fn test_dory_prime_vs_standard_dory() {
    let max_log_n = 8;
    let (ps, vs) = setup(max_log_n);
    let size = 1 << 8;
    let mut s = Stream(99);
    let nu = 4;
    let sigma = 4;
    let poly = random_poly(size, nu, sigma, &mut s);
    let point: Vec<Fe> = (0..8).map(|_| s.next()).collect();
    let (commitment, _) = poly.commit(&ps);
    let evaluation = poly.evaluate(&point, nu, sigma);

    let mut transcript1 = Scripted::new("dory-test");
    let standard_proof = standard_prove(&poly, &point, nu, sigma, &ps, &mut transcript1);
    let (prime_proof, result2) = prove_and_verify(prime, &poly, &point, nu, sigma, "dory-prime-test", &ps, &vs);
    let mut verify1 = Scripted::new("dory-test");
    let result1 = verify(commitment, evaluation, &point, &standard_proof, &vs, &mut verify1);
    assert!(result1.is_ok(), "Standard Dory verification should succeed");
    assert!(result2.is_ok(), "Dory-Prime verification should succeed");
    assert_eq!(prime_proof.vmv_message.c, standard_proof.vmv_message.c);
}

#[test]
fn test_dory_prime_different_sizes() {
    for max_log_n in [4, 6, 8] {
        let (ps, vs) = setup(max_log_n);
        let size = 1 << max_log_n;
        let mut s = Stream(max_log_n as u64 * 7);
        let nu = max_log_n / 2;
        let sigma = max_log_n - nu;
        let poly = random_poly(size, nu, sigma, &mut s);
        let point: Vec<Fe> = (0..max_log_n).map(|_| s.next()).collect();
        let (_, result) = prove_and_verify(prime, &poly, &point, nu, sigma, "dory-prime-test", &ps, &vs);
        assert!(result.is_ok(), "Dory-Prime verification should succeed for log_n={}", max_log_n);
    }
}

#[test]
fn test_cascading_vs_standard() {
    let max_log_n = 8;
    let (ps, vs) = setup(max_log_n);
    let size = 1 << 8;
    let mut s = Stream(5);
    let nu = 4;
    let sigma = 4;
    let poly = random_poly(size, nu, sigma, &mut s);
    let point: Vec<Fe> = (0..8).map(|_| s.next()).collect();
    let (p1, result1) = prove_and_verify(prime, &poly, &point, nu, sigma, "dory-prime-standard", &ps, &vs);
    let (p2, result2) = prove_and_verify(cascading, &poly, &point, nu, sigma, "dory-prime-cascading", &ps, &vs);
    assert!(result1.is_ok(), "Standard Dory-Prime verification should succeed");
    assert!(result2.is_ok(), "Dory-Prime cascading verification should succeed");
    assert_eq!(p1.vmv_message.d2, p2.vmv_message.d2);
}

#[test]
fn test_cascading_different_sizes() {
    for max_log_n in [4, 6, 8] {
        let (ps, vs) = setup(max_log_n);
        let size = 1 << max_log_n;
        let mut s = Stream(max_log_n as u64 * 11);
        let nu = max_log_n / 2;
        let sigma = max_log_n - nu;
        let poly = random_poly(size, nu, sigma, &mut s);
        let point: Vec<Fe> = (0..max_log_n).map(|_| s.next()).collect();
        let (_, result) = prove_and_verify(cascading, &poly, &point, nu, sigma, "dory-prime-cascading", &ps, &vs);
        assert!(result.is_ok(), "Cascading Dory-Prime verification should succeed for log_n={}", max_log_n);
    }
}

#[test]
fn test_dory_prime_lookahead_vs_standard() {
    let max_log_n = 8;
    let (ps, vs) = setup(max_log_n);
    let size = 1 << 8;
    let mut s = Stream(13);
    let nu = 4;
    let sigma = 4;
    let poly = random_poly(size, nu, sigma, &mut s);
    let point: Vec<Fe> = (0..8).map(|_| s.next()).collect();
    let (_, result1) = prove_and_verify(prime, &poly, &point, nu, sigma, "dory-prime-standard", &ps, &vs);
    let (_, result2) = prove_and_verify(lookahead, &poly, &point, nu, sigma, "dory-prime-lookahead", &ps, &vs);
    assert!(result1.is_ok(), "Standard Dory-Prime verification should succeed");
    assert!(result2.is_ok(), "Dory-Prime with lookahead verification should succeed");
}

#[test]
fn dory_prime_with_fewer_rows_than_columns() {
    let (ps, vs) = setup(5);
    let mut s = Stream(21);
    let nu = 2;
    let sigma = 3;
    let poly = random_poly(1 << 5, nu, sigma, &mut s);
    let point: Vec<Fe> = (0..5).map(|_| s.next()).collect();
    for prover in [prime as Prover, cascading as Prover, lookahead as Prover] {
        let (proof, result) = prove_and_verify(prover, &poly, &point, nu, sigma, "rows", &ps, &vs);
        assert_eq!(proof.first_messages.len(), 3);
        assert!(result.is_ok());
    }
}

#[test]
fn forged_final_message_is_rejected() {
    let (ps, vs) = setup(4);
    let mut s = Stream(3);
    let poly = random_poly(16, 2, 2, &mut s);
    let point: Vec<Fe> = (0..4).map(|_| s.next()).collect();
    let (commitment, _) = poly.commit(&ps);
    let evaluation = poly.evaluate(&point, 2, 2);
    let (mut proof, result) = prove_and_verify(prime, &poly, &point, 2, 2, "forged", &ps, &vs);
    assert!(result.is_ok());
    proof.final_message.e1 = proof.final_message.e1 + fe(1);
    let mut t = Scripted::new("forged");
    assert_eq!(verify(commitment, evaluation, &point, &proof, &vs, &mut t), Err(DoryError::InvalidProof));
    let mut t = Scripted::new("forged");
    assert_eq!(verify(commitment, evaluation + fe(1), &point, &proof, &vs, &mut t), Err(DoryError::InvalidProof));
}
