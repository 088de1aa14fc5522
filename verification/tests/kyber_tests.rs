use dory_pcs::fp128::Fp128Element;
use dory_pcs::kyber::{KyberCommitment, KyberCurve, KyberPolynomialNTT, lattice_inner_product};
use dory_pcs::serialization::{Compress, Validate};

#[test]
fn test_polynomial_add() {
    let a = KyberCurve::poly_from_coeffs(&vec![Fp128Element::from_raw(1); 256]);
    let b = KyberCurve::poly_from_coeffs(&vec![Fp128Element::from_raw(2); 256]);
    let c = a + b;

    for coeff in c.coeffs {
        assert_eq!(coeff.0, 3);
    }
}

#[test]
fn test_commitment() {
    let coeffs: Vec<Fp128Element> = (0..256)
        .map(|i| Fp128Element::from_raw(i as u64 * 12345))
        .collect();
    let poly = KyberCurve::poly_from_coeffs(&coeffs);
    let commit = KyberCommitment::from_poly(&poly);

    assert_eq!(commit.poly_ntt.len(), 256);
}

#[test]
fn test_ntt_roundtrip() {
    let coeffs: Vec<Fp128Element> = (0..256)
        .map(|i| Fp128Element::from_raw(i as u64))
        .collect();
    let poly = KyberCurve::poly_from_coeffs(&coeffs);
    let ntt = poly.ntt();
    let recovered = ntt.intt();

    for (a, b) in coeffs.iter().zip(recovered.coeffs.iter()) {
        assert_eq!(*a, *b);
    }
}

#[test]
fn test_polynomial_sub_wraps() {
    let a = KyberCurve::poly_from_coeffs(&vec![Fp128Element::from_raw(1); 256]);
    let b = KyberCurve::poly_from_coeffs(&vec![Fp128Element::from_raw(2); 256]);
    let c = a - b;
    for coeff in c.coeffs {
        assert_eq!(coeff.0, Fp128Element::MODULUS - 1);
    }
}

#[test]
fn test_zero_and_one_poly() {
    let z = KyberCurve::zero_poly();
    assert_eq!(z.coeffs.len(), 256);
    assert!(z.is_zero());
    let o = KyberCurve::one_poly();
    assert_eq!(o.coeffs.len(), 256);
    assert!(o.coeffs.iter().all(|c| c.0 == 1));
    assert!(!o.is_zero());
}

#[test]
fn test_multiply_and_scale() {
    let a = KyberPolynomialNTT { values: vec![Fp128Element::from_raw(3), Fp128Element::from_raw(4)] };
    let b = KyberPolynomialNTT { values: vec![Fp128Element::from_raw(5), Fp128Element::from_raw(Fp128Element::MODULUS - 1)] };
    let p = a.multiply(&b);
    assert_eq!(p.values[0].0, 15);
    assert_eq!(p.values[1].0, Fp128Element::MODULUS - 4);
    let s = a.scale(&Fp128Element::from_raw(10));
    assert_eq!(s.values[0].0, 30);
    assert_eq!(s.values[1].0, 40);
}

#[test]
fn test_lattice_inner_product_value() {
    let a = KyberPolynomialNTT { values: vec![Fp128Element::from_raw(1), Fp128Element::from_raw(2), Fp128Element::from_raw(3)] };
    let b = KyberPolynomialNTT { values: vec![Fp128Element::from_raw(4), Fp128Element::from_raw(5), Fp128Element::from_raw(6)] };
    assert_eq!(lattice_inner_product(&a, &b).0, 32);
}

#[test]
fn test_to_field_sums_coefficients() {
    let p = KyberCurve::poly_from_coeffs(&vec![Fp128Element::from_raw(Fp128Element::MODULUS - 1); 256]);
    // 256 * (q - 1) = -256 mod q
    assert_eq!(p.to_field().0, Fp128Element::MODULUS - 256);
}

#[test]
fn test_commitment_serialization_roundtrip() {

    let commit = KyberCommitment::from_ntt(KyberPolynomialNTT {
        values: (0..256).map(|i| Fp128Element::from_raw(i * 7 + 1)).collect(),
    });
    let mut bytes = Vec::new();
    commit.serialize_with_mode(&mut bytes, Compress::No).unwrap();
    assert_eq!(bytes.len(), 2048);
    assert_eq!(commit.serialized_size(Compress::No), 2048);
    let back = KyberCommitment::deserialize_with_mode(&bytes, Compress::No, Validate::Yes).unwrap();
    assert!(back.equals(&commit));
    assert!(KyberCommitment::deserialize_with_mode(&bytes[..2047], Compress::No, Validate::Yes).is_err());
}
