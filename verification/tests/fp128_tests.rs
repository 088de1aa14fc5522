use dory_pcs::fp128::Fp128Element;
use dory_pcs::serialization::{Compress, Validate};

#[test]
fn test_add_basic() {
    let a = Fp128Element::from_raw(100);
    let b = Fp128Element::from_raw(200);
    assert_eq!((a + b).0, 300);
}

#[test]
fn test_add_wrap() {
    let max = Fp128Element::from_raw(Fp128Element::MODULUS - 1);
    let one = Fp128Element::one();
    let result = max + one;
    assert_eq!(result.0, 0);
}

#[test]
fn test_sub_basic() {
    let a = Fp128Element::from_raw(100);
    let b = Fp128Element::from_raw(200);
    let diff = a - b;
    assert_eq!(diff.0, Fp128Element::MODULUS - 100);
}

#[test]
fn test_sub_underflow() {
    let zero = Fp128Element::zero();
    let one = Fp128Element::one();
    let diff = zero - one;
    assert_eq!(diff.0, Fp128Element::MODULUS - 1);
}

#[test]
fn test_mul_basic() {
    let two = Fp128Element::from_raw(2);
    let three = Fp128Element::from_raw(3);
    assert_eq!((two * three).0, 6);
}

#[test]
fn test_mul_overflow() {
    let a = Fp128Element::from_raw(Fp128Element::MODULUS - 1);
    let two = Fp128Element::from_raw(2);
    let result = a * two;
    assert_eq!(result.0, Fp128Element::MODULUS - 2);
}

#[test]
fn test_neg() {
    let a = Fp128Element::from_raw(42);
    let neg = -a;
    assert_eq!(neg.0, Fp128Element::MODULUS - 42);

    let zero = Fp128Element::zero();
    assert_eq!(-zero, zero);
}

#[test]
fn test_inv() {
    let two = Fp128Element::from_raw(2);
    let inv_two = two.inv().unwrap();
    let result = two * inv_two;
    assert!(result.is_one());
}

#[test]
fn test_inv_zero() {
    let zero = Fp128Element::zero();
    assert!(zero.inv().is_none());
}

#[test]
fn test_pow() {
    let base = Fp128Element::from_raw(2);
    let exp = 10;
    let result = base.pow(exp);
    assert_eq!(result.0, 1024);
}

#[test]
fn test_pow_identity() {
    let a = Fp128Element::from_raw(42);
    assert!(a.pow(0).is_one());
    assert_eq!(a.pow(1).0, 42);
}

#[test]
fn test_fermat_little_theorem() {
    let a = Fp128Element::from_raw(42);
    let exp = Fp128Element::MODULUS - 1;
    let result = a.pow(exp);
    assert!(result.is_one());
}

#[test]
fn test_primitive_root_of_unity() {
    let omega = Fp128Element::primitive_root_of_unity(2);
    let omega_4 = omega.pow(4);
    assert!(omega_4.is_one());
    let omega_2 = omega.pow(2);
    assert_eq!(omega_2.0, Fp128Element::MODULUS - 1);
    assert!(!omega.is_one());
}

#[test]
fn test_primitive_root_of_unity_powers() {
    for log_n in 1..8 {
        let n = 1u64 << log_n;
        let omega = Fp128Element::primitive_root_of_unity(log_n);
        assert!(omega.pow(n).is_one(), "omega^{} != 1 for log_n={}", n, log_n);
        let omega_half = omega.pow(n / 2);
        assert_eq!(
            omega_half.0,
            Fp128Element::MODULUS - 1,
            "omega^(n/2) != -1 for log_n={}",
            log_n
        );
    }
}

#[test]
fn test_field_axioms() {
    let a = Fp128Element::from_raw(100);
    let b = Fp128Element::from_raw(200);
    let c = Fp128Element::from_raw(300);

    assert_eq!((a + b) + c, a + (b + c));
    assert_eq!(a + b, b + a);
    assert_eq!((a * b) * c, a * (b * c));
    assert_eq!(a * b, b * a);
    assert_eq!(a * (b + c), a * b + a * c);
    assert_eq!(a + Fp128Element::zero(), a);
    assert_eq!(a * Fp128Element::one(), a);
}

#[test]
fn test_multiplicative_inverse() {
    let test_values = [1u64, 2, 3, 5, 7, 11, 13, 17, 19, 23, 29, 31];
    for &val in &test_values {
        let a = Fp128Element::from_raw(val);
        let inv_a = a.inv().expect("Should have inverse");
        let result = a * inv_a;
        assert!(result.is_one(), "Inverse failed for {}: got {}", val, result.0);
    }
}

#[test]
fn test_serialization_roundtrip() {
    let original = Fp128Element::from_raw(0xDEADBEEFCAFEBABE);
    let mut buffer = Vec::new();
    original.serialize_with_mode(&mut buffer, Compress::Yes).unwrap();
    let recovered =
        Fp128Element::deserialize_with_mode(buffer.as_slice(), Compress::Yes, Validate::Yes).unwrap();
    assert_eq!(original.0, recovered.0);
}

#[test]
fn test_from_i64() {
    assert_eq!(Fp128Element::from_i64(42).0, 42);
    assert_eq!(Fp128Element::from_i64(0).0, 0);
    let neg_one = Fp128Element::from_i64(-1);
    assert_eq!(neg_one.0, Fp128Element::MODULUS - 1);
    let neg_42 = Fp128Element::from_i64(-42);
    assert_eq!(neg_42.0, Fp128Element::MODULUS - 42);
}

#[test]
fn conversions_from_integers() {
    let a = Fp128Element::from(Fp128Element::MODULUS + 3);
    assert_eq!(a.0, 3);
    let b: Fp128Element = 7u32.into();
    assert_eq!(b.0, 7);
}
