use dory_pcs::arithmetic::Field;
use dory_pcs::fp128::Fp128Element;
use dory_pcs::gpu_ntt::{naive_intt, naive_ntt};

fn fe(v: u64) -> Fp128Element {
    Fp128Element::from_raw(v)
}

fn mul(a: Fp128Element, b: Fp128Element) -> Fp128Element {
    <Fp128Element as Field>::mul(&a, &b)
}

/// A primitive `2^log_n`-th root of unity of the field: 2 has order 192,
/// so `2^(192 / 2^log_n)` has order `2^log_n` (for `log_n <= 6`).
fn get_root_of_unity(log_n: usize) -> Fp128Element {
    let e = 192u64 >> log_n;
    let mut r = fe(1);
    for _ in 0..e {
        r = mul(r, fe(2));
    }
    r
}

#[test]
fn test_cpu_ntt_roundtrip() {
    let log_n = 4;
    let n = 1 << log_n;
    let input: Vec<Fp128Element> = (0..n).map(|i| fe(i as u64 + 1)).collect();

    let omega = get_root_of_unity(log_n);
    let omega_inv = <Fp128Element as Field>::inv(omega).unwrap();

    let transformed = naive_ntt(&input, &omega, log_n);
    let recovered = naive_intt(&transformed, &omega_inv, log_n);

    assert_eq!(input, recovered, "CPU NTT roundtrip failed");
}

#[test]
fn test_cpu_ntt_known_values() {
    let log_n = 2;
    let input: Vec<Fp128Element> = vec![fe(1), fe(2), fe(3), fe(4)];

    let omega = get_root_of_unity(log_n);
    let result = naive_ntt(&input, &omega, log_n);

    let expected_sum = fe(10);
    assert_eq!(result[0], expected_sum, "NTT[0] should be sum of inputs");
}

#[test]
fn test_naive_ntt_size_four_exact() {
    // ω = 2^48 has order 4 and ω² = -1: the transform of (1, 2, 3, 4) is
    // (10, -2 - 2ω, -2, -2 + 2ω).
    let omega = get_root_of_unity(2);
    assert_eq!(omega, fe(1u64 << 48));
    let result = naive_ntt(&[fe(1), fe(2), fe(3), fe(4)], &omega, 2);
    let p = Fp128Element::MODULUS;
    let two_omega = mul(fe(2), omega);
    assert_eq!(result[2], fe(p - 2));
    assert_eq!(<Fp128Element as Field>::add(&result[1], &two_omega), fe(p - 2));
    assert_eq!(result[3], <Fp128Element as Field>::add(&fe(p - 2), &two_omega));
}

#[test]
fn test_naive_ntt_uses_only_first_n_inputs() {
    let omega = get_root_of_unity(1);
    assert_eq!(omega, fe(Fp128Element::MODULUS - 1));
    let result = naive_ntt(&[fe(5), fe(3), fe(100)], &omega, 1);
    assert_eq!(result, vec![fe(8), fe(2)]);
}

#[test]
fn test_naive_intt_scales_by_inverse_size() {
    // Size one: the inverse transform is the identity.
    let result = naive_intt(&[fe(7)], &fe(1), 0);
    assert_eq!(result, vec![fe(7)]);
    // Size two with ω⁻¹ = -1: ((a + b)/2, (a - b)/2).
    let result = naive_intt(&[fe(8), fe(2)], &fe(Fp128Element::MODULUS - 1), 1);
    assert_eq!(result, vec![fe(5), fe(3)]);
}
