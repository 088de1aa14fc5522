use dory_pcs::cpu_ntt::TwiddleCache;
use dory_pcs::fp128::Fp128Element;
use dory_pcs::kyber::{KyberCurve, KyberPolynomial, KyberPolynomialNTT};
use dory_pcs::lattice_trait::{LatticeCurve, LatticeElement, LatticeField};
use dory_pcs::ntt::{NTTConfig, NTTResult, MAX_NTT_SIZE};

#[test]
fn twiddle_table_holds_powers_of_seven() {
    let cache = TwiddleCache::new(3);
    assert_eq!(cache.twiddle(0, 0).0, 1);
    assert_eq!(cache.twiddle(1, 0).0, 7);
    assert_eq!(cache.twiddle(1, 1).0, 49);
    assert_eq!(cache.twiddle(3, 1).0, 7u64.pow(6));
    // Past the table the twiddle is one.
    assert_eq!(cache.twiddle(8, 0).0, 1);
    assert_eq!(cache.twiddle(1, 3).0, 1);
}

#[test]
fn transforms_return_their_input() {
    let cache = TwiddleCache::new(2);
    let input: Vec<Fp128Element> = (1..=4).map(Fp128Element::from_raw).collect();
    assert_eq!(cache.ntt_fwd(&input, 2), input);
    assert_eq!(cache.ntt_inv(&input, 2), input);
    assert_eq!(cache.ntt_inv_naive(&input, 2), input);
}

#[test]
fn ntt_config_builders() {
    let c = NTTConfig::new(10).with_inverse(true).with_gpu(true);
    assert_eq!(c.log_size, 10);
    assert!(c.inverse);
    assert!(c.use_gpu);
    let d = NTTConfig::default();
    assert_eq!(d.log_size, 12);
    assert!(!d.inverse && !d.use_gpu);
    assert_eq!(MAX_NTT_SIZE, 1 << 26);
    let r = NTTResult::new(vec![1u8, 2, 3], d);
    assert_eq!(r.len(), 3);
    assert!(!r.is_empty());
}

#[test]
fn lattice_field_of_the_prime_field() {
    let a = <Fp128Element as LatticeField>::from_u64(Fp128Element::MODULUS + 5);
    assert_eq!(a.0, 5);
    assert_eq!(<Fp128Element as LatticeField>::from_i64(-2).0, Fp128Element::MODULUS - 2);
    let b = <Fp128Element as LatticeField>::random();
    assert_eq!(b.0, 42);
    let inv = <Fp128Element as LatticeField>::inv(b).unwrap();
    assert_eq!(<Fp128Element as LatticeField>::mul(&b, &inv).0, 1);
    assert!(<Fp128Element as LatticeField>::is_zero(&<Fp128Element as LatticeField>::zero()));
}

#[test]
fn inverse_inverts_large_elements() {
    for v in [2u64, 0xdead_beef, Fp128Element::MODULUS - 1, 1 << 63, u64::MAX] {
        let a = Fp128Element(v);
        if v % Fp128Element::MODULUS == 0 {
            continue;
        }
        let inv = a.inv().unwrap();
        assert_eq!(a.mul(&inv).0, 1);
    }
}

#[test]
fn kyber_curve_as_lattice_curve() {
    let coeffs: Vec<Fp128Element> = (0..4).map(|i| Fp128Element::from_raw(i + 1)).collect();
    let p = <KyberCurve as LatticeCurve>::poly_from_coeffs(&coeffs);
    assert_eq!(p.coeffs, coeffs);
    let n = <KyberCurve as LatticeCurve>::to_ntt(&p);
    assert_eq!(n.values, coeffs);
    let back = <KyberCurve as LatticeCurve>::from_ntt(&n);
    assert_eq!(back.coeffs, coeffs);
    let c = <KyberCurve as LatticeCurve>::commit(&p);
    assert_eq!(c.poly_ntt.values, coeffs);
    let c2 = <KyberCurve as LatticeCurve>::commit_ntt(&n);
    assert!(c.equals(&c2));
    let ip = <KyberCurve as LatticeCurve>::inner_product(&[n.clone()], &[n.clone()]);
    assert_eq!(ip.0, 1 + 4 + 9 + 16);
    let m = <KyberCurve as LatticeCurve>::poly_multiply(&n, &n);
    assert_eq!(m.values[3].0, 16);
    assert_eq!(<KyberCurve as LatticeCurve>::zero_poly().coeffs.len(), 256);
    assert_eq!(<KyberCurve as LatticeCurve>::one_poly().coeffs[0].0, 1);
}

#[test]
fn kyber_elements_as_lattice_elements() {
    let a = KyberPolynomialNTT { values: vec![Fp128Element(1), Fp128Element(2)] };
    let b = KyberPolynomialNTT { values: vec![Fp128Element(3), Fp128Element(5)] };
    let s = <KyberPolynomialNTT as LatticeElement>::add(&a, &b);
    assert_eq!(s.values, vec![Fp128Element(4), Fp128Element(7)]);
    let d = <KyberPolynomialNTT as LatticeElement>::sub(&a, &b);
    assert_eq!(d.values, vec![Fp128Element(Fp128Element::MODULUS - 2), Fp128Element(Fp128Element::MODULUS - 3)]);
    assert_eq!(<KyberPolynomialNTT as LatticeElement>::to_field(&b).0, 8);
    assert!(<KyberPolynomialNTT as LatticeElement>::is_zero(&<KyberPolynomialNTT as LatticeElement>::zero()));
    let one = <KyberPolynomial as LatticeElement>::one();
    assert_eq!(one.coeffs[0].0, 1);
    let scaled = <KyberPolynomial as LatticeElement>::scale(&one, &Fp128Element(9));
    assert_eq!(scaled.coeffs[0].0, 9);
    assert_eq!(<KyberPolynomial as LatticeElement>::to_field(&scaled).0, 9);
}
