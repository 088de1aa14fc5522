use dory_pcs::arithmetic::{Field, Group};
use dory_pcs::batch::{combine_commitments, combine_row_commitments};
use dory_pcs::fp128::Fp128Element;
use dory_pcs::scalar_pairing::ScalarPairing;

fn fe(v: u64) -> Fp128Element {
    Fp128Element::from_raw(v)
}

#[test]
fn test_combine_commitments() {
    let commitment1 = fe(0x1234_5678_9abc);
    let commitment2 = fe(0xdead_beef_0000_1111);
    let commitment3 = fe(Fp128Element::MODULUS - 17);

    let commitments = vec![commitment1, commitment2, commitment3];
    let coeffs = vec![
        <Fp128Element as Field>::from_u64(1),
        <Fp128Element as Field>::from_u64(2),
        <Fp128Element as Field>::from_u64(3),
    ];

    let combined = combine_commitments::<ScalarPairing>(&commitments, &coeffs);

    let expected = commitment1 + (commitment2 + commitment2) + (commitment3 + commitment3 + commitment3);
    assert_eq!(combined, expected);
}

#[test]
fn test_combine_row_commitments() {
    let poly1_rows = vec![fe(11), fe(22), fe(33), fe(Fp128Element::MODULUS - 1)];
    let poly2_rows = vec![fe(5), fe(0xffff_ffff), fe(7), fe(9)];

    let row_commitments = vec![poly1_rows.clone(), poly2_rows.clone()];
    let coeffs = vec![<Fp128Element as Field>::from_u64(2), <Fp128Element as Field>::from_u64(3)];

    let combined = combine_row_commitments::<ScalarPairing>(&row_commitments, &coeffs);

    assert_eq!(combined.len(), 4);
    for i in 0..4 {
        let expected = poly1_rows[i] + poly1_rows[i] + poly2_rows[i] + poly2_rows[i] + poly2_rows[i];
        assert_eq!(combined[i], expected);
    }
}

#[test]
fn combine_of_nothing_is_identity() {
    let commitments: Vec<Fp128Element> = vec![];
    let coeffs: Vec<Fp128Element> = vec![];
    assert_eq!(combine_commitments::<ScalarPairing>(&commitments, &coeffs), <Fp128Element as Group>::identity());
    let rows: Vec<Vec<Fp128Element>> = vec![];
    assert!(combine_row_commitments::<ScalarPairing>(&rows, &coeffs).is_empty());
}

#[test]
fn combine_single_commitment_scales_it() {
    let combined = combine_commitments::<ScalarPairing>(&[fe(7)], &[fe(6)]);
    assert_eq!(combined.0, 42);
}

#[test]
fn field_and_group_operations_of_the_prime_field() {
    let a = fe(10);
    let b = fe(3);
    assert_eq!(<Fp128Element as Field>::add(&a, &b).0, 13);
    assert_eq!(<Fp128Element as Field>::sub(&b, &a).0, Fp128Element::MODULUS - 7);
    assert_eq!(<Fp128Element as Field>::mul(&a, &b).0, 30);
    assert!(<Fp128Element as Field>::is_zero(&<Fp128Element as Field>::zero()));
    assert_eq!(<Fp128Element as Field>::one().0, 1);
    assert_eq!(<Fp128Element as Field>::from_i64(-1).0, Fp128Element::MODULUS - 1);
    assert!(<Fp128Element as Field>::branch_bit(&fe(5)));
    assert!(!<Fp128Element as Field>::branch_bit(&fe(4)));
    let inv = <Fp128Element as Field>::inv(b).unwrap();
    assert_eq!(<Fp128Element as Field>::mul(&inv, &b).0, 1);
    assert_eq!(<Fp128Element as Field>::inv(fe(0)), None);
    assert_eq!(<Fp128Element as Group>::neg(&fe(1)).0, Fp128Element::MODULUS - 1);
    assert_eq!(<Fp128Element as Group>::neg(&Fp128Element(Fp128Element::MODULUS)).0, 0);
    assert_eq!(<Fp128Element as Group>::scale(&a, &b).0, 30);
    assert_eq!(<Fp128Element as Group>::add(&a, &b).0, 13);
}
