//! The interfaces of lattice-based commitments: polynomial ring elements,
//! their field of coefficients, and the "curve" that commits polynomials
//! and takes inner products in the frequency domain in place of pairings.
//!
//! An element is modelled by its vector of field values (coefficients, or
//! evaluations in frequency form); ring operations act on it entry-wise.
use vstd::prelude::*;

verus! {

/// A field of coefficients for lattice polynomials.
pub trait LatticeField: Sized + Copy + PartialEq {
    spec fn lat_zero() -> Self;

    spec fn lat_one() -> Self;

    spec fn lat_add(a: Self, b: Self) -> Self;

    spec fn lat_sub(a: Self, b: Self) -> Self;

    spec fn lat_mul(a: Self, b: Self) -> Self;

    spec fn lat_inv(a: Self) -> Option<Self>;

    spec fn lat_from_u64(v: u64) -> Self;

    spec fn lat_from_i64(v: i64) -> Self;

    /// The inputs on which `sub` is defined.
    spec fn lat_sub_req(a: Self, b: Self) -> bool;

    /// The inputs on which `from_i64` is defined.
    spec fn lat_from_i64_req(v: i64) -> bool;

    fn zero() -> (r: Self)
        ensures
            r == Self::lat_zero(),
    ;

    fn one() -> (r: Self)
        ensures
            r == Self::lat_one(),
    ;

    fn is_zero(&self) -> (b: bool)
        ensures
            b == (*self == Self::lat_zero()),
    ;

    fn add(&self, rhs: &Self) -> (r: Self)
        ensures
            r == Self::lat_add(*self, *rhs),
    ;

    fn sub(&self, rhs: &Self) -> (r: Self)
        requires
            Self::lat_sub_req(*self, *rhs),
        ensures
            r == Self::lat_sub(*self, *rhs),
    ;

    fn mul(&self, rhs: &Self) -> (r: Self)
        ensures
            r == Self::lat_mul(*self, *rhs),
    ;

    fn inv(self) -> (r: Option<Self>)
        ensures
            r == Self::lat_inv(self),
    ;

    /// Some element; implementations may draw it at random.
    fn random() -> Self;

    fn from_u64(val: u64) -> (r: Self)
        ensures
            r == Self::lat_from_u64(val),
    ;

    fn from_i64(val: i64) -> (r: Self)
        requires
            Self::lat_from_i64_req(val),
        ensures
            r == Self::lat_from_i64(val),
    ;
}

/// Entry-wise sum, over the length of `x`.
pub open spec fn pointwise_add<F: LatticeField>(x: Seq<F>, y: Seq<F>) -> Seq<F> {
    Seq::new(x.len(), |j: int| F::lat_add(x[j], y[j]))
}

/// Entry-wise difference, over the length of `x`.
pub open spec fn pointwise_sub<F: LatticeField>(x: Seq<F>, y: Seq<F>) -> Seq<F> {
    Seq::new(x.len(), |j: int| F::lat_sub(x[j], y[j]))
}

/// Entry-wise product, over the length of `x`.
pub open spec fn pointwise_mul<F: LatticeField>(x: Seq<F>, y: Seq<F>) -> Seq<F> {
    Seq::new(x.len(), |j: int| F::lat_mul(x[j], y[j]))
}

/// Every entry multiplied by `k`.
pub open spec fn pointwise_scale<F: LatticeField>(x: Seq<F>, k: F) -> Seq<F> {
    Seq::new(x.len(), |j: int| F::lat_mul(x[j], k))
}

/// `y` is at least as long as `x` and each `x[j] - y[j]` is defined.
pub open spec fn pointwise_sub_req<F: LatticeField>(x: Seq<F>, y: Seq<F>) -> bool {
    &&& y.len() >= x.len()
    &&& forall|j: int| 0 <= j < x.len() ==> #[trigger] F::lat_sub_req(x[j], y[j])
}

/// The value vectors of a sequence of elements.
pub open spec fn element_values<T: LatticeElement>(s: Seq<T>) -> Seq<Seq<T::Field>> {
    s.map_values(|p: T| p.lat_values())
}

/// A polynomial ring element, in coefficient or frequency form.
pub trait LatticeElement: Sized {
    /// The field of coefficients.
    type Field: LatticeField;

    /// The vector of field values the element holds.
    spec fn lat_values(&self) -> Seq<Self::Field>;

    /// The field value `to_field` gives for an element with these values.
    spec fn lat_field_of(values: Seq<Self::Field>) -> Self::Field;

    /// The zero element: every value zero.
    fn zero() -> (r: Self)
        ensures
            forall|j: int| 0 <= j < r.lat_values().len() ==> #[trigger] r.lat_values()[j] == Self::Field::lat_zero(),
    ;

    /// The identity element: one followed by zeros.
    fn one() -> (r: Self)
        ensures
            r.lat_values().len() > 0,
            r.lat_values()[0] == Self::Field::lat_one(),
            forall|j: int| 1 <= j < r.lat_values().len() ==> #[trigger] r.lat_values()[j] == Self::Field::lat_zero(),
    ;

    /// Whether every value is zero.
    fn is_zero(&self) -> (b: bool)
        ensures
            b == (forall|j: int| 0 <= j < self.lat_values().len() ==> #[trigger] self.lat_values()[j] == Self::Field::lat_zero()),
    ;

    /// Entry-wise sum.
    fn add(&self, rhs: &Self) -> (r: Self)
        requires
            self.lat_values().len() <= rhs.lat_values().len(),
        ensures
            r.lat_values() == pointwise_add(self.lat_values(), rhs.lat_values()),
    ;

    /// Entry-wise difference.
    fn sub(&self, rhs: &Self) -> (r: Self)
        requires
            pointwise_sub_req(self.lat_values(), rhs.lat_values()),
        ensures
            r.lat_values() == pointwise_sub(self.lat_values(), rhs.lat_values()),
    ;

    /// Every value multiplied by `k`.
    fn scale(&self, k: &Self::Field) -> (r: Self)
        ensures
            r.lat_values() == pointwise_scale(self.lat_values(), *k),
    ;

    /// The field value the element stands for.
    fn to_field(&self) -> (r: Self::Field)
        ensures
            r == Self::lat_field_of(self.lat_values()),
    ;
}

/// Commitments and inner products over a polynomial ring, the lattice
/// counterpart of a pairing curve.
pub trait LatticeCurve: Sized {
    /// Polynomials in coefficient form.
    type Polynomial: LatticeElement<Field = Self::Field>;

    /// Polynomials in frequency (NTT) form.
    type PolynomialNTT: LatticeElement<Field = Self::Field>;

    /// Commitments.
    type Commitment;

    /// The field of coefficients.
    type Field: LatticeField;

    /// The frequency-form values of the coefficients `values`.
    spec fn lat_ntt(values: Seq<Self::Field>) -> Seq<Self::Field>;

    /// The coefficients of the frequency-form values `values`.
    spec fn lat_intt(values: Seq<Self::Field>) -> Seq<Self::Field>;

    /// The inner product of two vectors of frequency-form polynomials, given
    /// by their values.
    spec fn lat_inner(a: Seq<Seq<Self::Field>>, b: Seq<Seq<Self::Field>>) -> Self::Field;

    /// Commits a polynomial in coefficient form.
    fn commit(polynomial: &Self::Polynomial) -> Self::Commitment;

    /// Commits a polynomial given in frequency form.
    fn commit_ntt(polynomial_ntt: &Self::PolynomialNTT) -> Self::Commitment;

    /// Coefficient form to frequency form.
    fn to_ntt(polynomial: &Self::Polynomial) -> (r: Self::PolynomialNTT)
        ensures
            r.lat_values() == Self::lat_ntt(polynomial.lat_values()),
    ;

    /// Frequency form to coefficient form.
    fn from_ntt(ntt: &Self::PolynomialNTT) -> (r: Self::Polynomial)
        ensures
            r.lat_values() == Self::lat_intt(ntt.lat_values()),
    ;

    /// `Σ_i ⟨a[i], b[i]⟩`, the replacement of the pairing product.
    fn inner_product(a: &[Self::PolynomialNTT], b: &[Self::PolynomialNTT]) -> (r: Self::Field)
        ensures
            r == Self::lat_inner(element_values(a@), element_values(b@)),
    ;

    /// Product of two polynomials in frequency form: entry-wise.
    fn poly_multiply(a: &Self::PolynomialNTT, b: &Self::PolynomialNTT) -> (r: Self::PolynomialNTT)
        requires
            a.lat_values().len() <= b.lat_values().len(),
        ensures
            r.lat_values() == pointwise_mul(a.lat_values(), b.lat_values()),
    ;

    /// The polynomial with the given coefficients.
    fn poly_from_coeffs(coeffs: &[Self::Field]) -> (r: Self::Polynomial)
        ensures
            r.lat_values() == coeffs@,
    ;

    /// The zero polynomial.
    fn zero_poly() -> (r: Self::Polynomial)
        ensures
            forall|j: int| 0 <= j < r.lat_values().len() ==> #[trigger] r.lat_values()[j] == Self::Field::lat_zero(),
    ;

    /// The polynomial 1.
    fn one_poly() -> (r: Self::Polynomial)
        ensures
            r.lat_values().len() > 0,
            r.lat_values()[0] == Self::Field::lat_one(),
            forall|j: int| 1 <= j < r.lat_values().len() ==> #[trigger] r.lat_values()[j] == Self::Field::lat_zero(),
    ;
}

} // verus!
