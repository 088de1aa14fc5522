use dory_pcs::arithmetic::Field;
use dory_pcs::batch_affine::{batch_inverse, batch_to_affine};
use dory_pcs::fp128::Fp128Element;

fn fe(v: u64) -> Fp128Element {
    Fp128Element::from_raw(v)
}

fn mul(a: Fp128Element, b: Fp128Element) -> Fp128Element {
    <Fp128Element as Field>::mul(&a, &b)
}

fn inv(a: Fp128Element) -> Fp128Element {
    <Fp128Element as Field>::inv(a).unwrap()
}

#[test]
fn test_batch_inverse_matches_single_inversions() {
    let zs = vec![fe(2), fe(3), fe(5), fe(7), fe(Fp128Element::MODULUS - 1)];
    let invs = batch_inverse(&zs);
    assert_eq!(invs.len(), zs.len());
    for (z, zi) in zs.iter().zip(invs.iter()) {
        assert_eq!(*zi, inv(*z));
        assert_eq!(mul(*z, *zi), <Fp128Element as Field>::one());
    }
}

#[test]
fn test_batch_inverse_exact_value_of_two() {
    // 2⁻¹ = (p + 1) / 2 for p = 2^64 - 2^32 + 1.
    let invs = batch_inverse(&[fe(2)]);
    assert_eq!(invs, vec![fe(0x7FFF_FFFF_8000_0001)]);
}

#[test]
fn test_batch_inverse_empty() {
    let invs = batch_inverse::<Fp128Element>(&[]);
    assert!(invs.is_empty());
}

#[test]
fn test_batch_to_affine_identity_and_unit_z() {
    let points = vec![(fe(11), fe(13), fe(0)), (fe(17), fe(19), fe(1))];
    let affine = batch_to_affine(&points);
    assert_eq!(affine, vec![None, Some((fe(17), fe(19)))]);
}

#[test]
fn test_batch_to_affine_scales_by_inverse_powers_of_z() {
    let points = vec![
        (fe(6), fe(40), fe(2)),
        (fe(1), fe(1), fe(0)),
        (fe(100), fe(200), fe(3)),
        (fe(9), fe(27), fe(Fp128Element::MODULUS - 1)),
    ];
    let affine = batch_to_affine(&points);
    assert_eq!(affine.len(), 4);
    // x·z⁻², y·z⁻³ with z = 2: 6/4 and 40/8 = 5.
    let quarter = inv(fe(4));
    assert_eq!(affine[0], Some((mul(fe(6), quarter), fe(5))));
    assert_eq!(affine[1], None);
    // Each affine point, scaled back, gives the projective coordinates.
    for (p, a) in points.iter().zip(affine.iter()) {
        if let Some((x, y)) = a {
            let z2 = mul(p.2, p.2);
            assert_eq!(mul(*x, z2), p.0);
            assert_eq!(mul(*y, mul(z2, p.2)), p.1);
        }
    }
    // z = -1: x·1 and y·(-1).
    assert_eq!(affine[3], Some((fe(9), fe(Fp128Element::MODULUS - 27))));
}

#[test]
fn test_batch_to_affine_all_at_infinity() {
    let points = vec![(fe(1), fe(2), fe(0)), (fe(3), fe(4), fe(0))];
    assert_eq!(batch_to_affine(&points), vec![None, None]);
}
