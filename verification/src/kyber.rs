//! Polynomials over the prime field in coefficient and evaluation (NTT)
//! form, their commitments, and inner products.
use vstd::prelude::*;
use vstd::arithmetic::div_mod::{lemma_add_mod_noop, lemma_mod_twice, lemma_small_mod};
use vstd::bytes::{spec_u64_to_le_bytes, spec_u64_from_le_bytes, lemma_auto_spec_u64_to_from_le_bytes};
use vstd::slice::slice_subrange;
use crate::fp128::{Fp128Element, q, add_word, sub_word, fmul, fadd};
use crate::cpu_ntt::TwiddleCache;
use crate::serialization::{Compress, Validate, SerializationError};
use crate::lattice_trait::{
    LatticeCurve, LatticeElement, LatticeField, element_values, pointwise_add, pointwise_sub, pointwise_mul,
    pointwise_scale, pointwise_sub_req,
};

verus! {

/// Σ_{j < n} x[j] * y[j], over the integers.
pub open spec fn raw_dot(x: Seq<Fp128Element>, y: Seq<Fp128Element>, n: nat) -> int
    decreases n,
{
    if n == 0 {
        0
    } else {
        raw_dot(x, y, (n - 1) as nat) + x[n - 1].0 * y[n - 1].0
    }
}

/// The shorter of two lengths.
pub open spec fn min_len(a: nat, b: nat) -> nat {
    if a <= b { a } else { b }
}

/// The value vectors of a sequence of evaluation-form polynomials.
pub open spec fn values_of(a: Seq<KyberPolynomialNTT>) -> Seq<Seq<Fp128Element>> {
    a.map_values(|p: KyberPolynomialNTT| p.values@)
}

/// Pushing a polynomial pushes its value vector.
pub proof fn lemma_values_of_push(a: Seq<KyberPolynomialNTT>, p: KyberPolynomialNTT)
    ensures
        values_of(a.push(p)) == values_of(a).push(p.values@),
{
    assert(values_of(a.push(p)) =~= values_of(a).push(p.values@));
}

/// Σ_{i < k} of the dot product of `a[i]` and `b[i]`, each taken over
/// their common length, over the integers.
pub open spec fn raw_inner(a: Seq<Seq<Fp128Element>>, b: Seq<Seq<Fp128Element>>, k: nat) -> int
    decreases k,
{
    if k == 0 {
        0
    } else {
        raw_inner(a, b, (k - 1) as nat) + raw_dot(a[k - 1], b[k - 1], min_len(a[k - 1].len(), b[k - 1].len()))
    }
}

/// Σ_j x[j], over the integers.
pub open spec fn raw_sum(x: Seq<Fp128Element>, n: nat) -> int
    decreases n,
{
    if n == 0 {
        0
    } else {
        raw_sum(x, (n - 1) as nat) + x[n - 1].0
    }
}

/// Entry-wise `add` of `x` and `y`, over the length of `x`.
pub open spec fn vec_add(x: Seq<Fp128Element>, y: Seq<Fp128Element>) -> Seq<Fp128Element> {
    Seq::new(x.len(), |j: int| Fp128Element(add_word(x[j].0 as int, y[j].0 as int) as u64))
}

/// Entry-wise `sub` of `x` and `y`, over the length of `x`.
pub open spec fn vec_sub(x: Seq<Fp128Element>, y: Seq<Fp128Element>) -> Seq<Fp128Element> {
    Seq::new(x.len(), |j: int| Fp128Element(sub_word(x[j].0 as int, y[j].0 as int) as u64))
}

/// Entry-wise product of `x` and `y`, over the length of `x`.
pub open spec fn vec_mul(x: Seq<Fp128Element>, y: Seq<Fp128Element>) -> Seq<Fp128Element> {
    Seq::new(x.len(), |j: int| Fp128Element(fmul(x[j].0 as int, y[j].0 as int) as u64))
}

/// Every entry of `x` multiplied by `k`.
pub open spec fn vec_scale(x: Seq<Fp128Element>, k: Fp128Element) -> Seq<Fp128Element> {
    Seq::new(x.len(), |j: int| Fp128Element(fmul(x[j].0 as int, k.0 as int) as u64))
}

/// `y` is long enough for an entry-wise operation with `x`.
pub open spec fn covers(x: Seq<Fp128Element>, y: Seq<Fp128Element>) -> bool {
    y.len() >= x.len()
}

/// `y` covers `x` and each entry-wise subtraction `x[j] - y[j]` is defined.
pub open spec fn sub_defined(x: Seq<Fp128Element>, y: Seq<Fp128Element>) -> bool {
    &&& y.len() >= x.len()
    &&& forall|j: int| 0 <= j < x.len() ==> #[trigger] y[j].0 <= x[j].0 + q()
}

/// `n` copies of zero.
pub open spec fn zeros(n: nat) -> Seq<Fp128Element> {
    Seq::new(n, |j: int| Fp128Element(0))
}

/// Little-endian encoding of each entry, concatenated.
pub open spec fn le_bytes_seq(s: Seq<Fp128Element>) -> Seq<u8>
    decreases s.len(),
{
    if s.len() == 0 {
        Seq::empty()
    } else {
        le_bytes_seq(s.drop_last()) + spec_u64_to_le_bytes(s.last().0)
    }
}

/// The entries decoded from consecutive 8-byte little-endian chunks.
pub open spec fn decode_le_seq(bytes: Seq<u8>, n: nat) -> Seq<Fp128Element> {
    Seq::new(n, |i: int| Fp128Element(spec_u64_from_le_bytes(bytes.subrange(8 * i, 8 * i + 8))))
}

/// The encoding of `s` is eight bytes per element.
pub proof fn lemma_le_bytes_len(s: Seq<Fp128Element>)
    ensures
        le_bytes_seq(s).len() == 8 * s.len(),
    decreases s.len(),
{
    lemma_auto_spec_u64_to_from_le_bytes();
    if s.len() > 0 {
        lemma_le_bytes_len(s.drop_last());
    }
}

/// Bytes `8i .. 8i + 8` of the encoding of `s` encode `s[i]`.
pub proof fn lemma_le_bytes_chunk(s: Seq<Fp128Element>, i: int)
    requires
        0 <= i < s.len(),
    ensures
        le_bytes_seq(s).subrange(8 * i, 8 * i + 8) == spec_u64_to_le_bytes(s[i].0),
    decreases s.len(),
{
    lemma_auto_spec_u64_to_from_le_bytes();
    let init = s.drop_last();
    lemma_le_bytes_len(init);
    let a = le_bytes_seq(init);
    let b = spec_u64_to_le_bytes(s.last().0);
    if i == s.len() - 1 {
        assert(le_bytes_seq(s).subrange(8 * i, 8 * i + 8) =~= b);
    } else {
        lemma_le_bytes_chunk(init, i);
        assert(le_bytes_seq(s).subrange(8 * i, 8 * i + 8) =~= a.subrange(8 * i, 8 * i + 8));
    }
}

/// Decoding what `serialize_with_mode` wrote gives the elements back, even
/// with more bytes following.
pub proof fn lemma_elements_roundtrip(s: Seq<Fp128Element>, rest: Seq<u8>)
    ensures
        decode_le_seq(le_bytes_seq(s) + rest, s.len()) == s,
{
    lemma_auto_spec_u64_to_from_le_bytes();
    lemma_le_bytes_len(s);
    let bytes = le_bytes_seq(s) + rest;
    assert forall|i: int| 0 <= i < s.len() implies #[trigger] decode_le_seq(bytes, s.len())[i] == s[i] by {
        lemma_le_bytes_chunk(s, i);
        assert(8 * i + 8 <= 8 * s.len()) by (nonlinear_arith)
            requires
                i < s.len(),
        ;
        assert(bytes.subrange(8 * i, 8 * i + 8) =~= le_bytes_seq(s).subrange(8 * i, 8 * i + 8));
    }
    assert(decode_le_seq(bytes, s.len()) =~= s);
}

/// A polynomial in coefficient form.
#[derive(Clone, Debug)]
pub struct KyberPolynomial {
    /// Coefficients, lowest degree first.
    pub coeffs: Vec<Fp128Element>,
}

/// A polynomial in evaluation (NTT) form.
#[derive(Clone, Debug)]
pub struct KyberPolynomialNTT {
    /// Evaluations.
    pub values: Vec<Fp128Element>,
}

/// The lattice "curve": polynomials of degree below 256 over the field.
#[derive(Clone, Copy, Debug)]
pub struct KyberCurve;

/// A commitment: a polynomial in evaluation form.
#[derive(Debug)]
pub struct KyberCommitment {
    pub poly_ntt: KyberPolynomialNTT,
}

/// `n` zeros.
/// `n` coefficients equal to one.
pub open spec fn ones(n: nat) -> Seq<Fp128Element> {
    Seq::new(n, |i: int| Fp128Element(1))
}

fn zero_vec(n: usize) -> (r: Vec<Fp128Element>)
    ensures
        r@ == zeros(n as nat),
{
    let mut r: Vec<Fp128Element> = Vec::with_capacity(n);
    let mut i: usize = 0;
    while i < n
        invariant
            i <= n,
            r@ == zeros(i as nat),
        decreases n - i,
    {
        r.push(Fp128Element::zero());
        i = i + 1;
        assert(r@ =~= zeros(i as nat));
    }
    r
}

/// A copy of a slice of field elements.
fn copy_vec(x: &[Fp128Element]) -> (r: Vec<Fp128Element>)
    ensures
        r@ == x@,
{
    let mut r: Vec<Fp128Element> = Vec::with_capacity(x.len());
    let mut i: usize = 0;
    while i < x.len()
        invariant
            i <= x@.len(),
            r@ == x@.subrange(0, i as int),
        decreases x@.len() - i,
    {
        r.push(x[i]);
        i = i + 1;
        assert(r@ =~= x@.subrange(0, i as int));
    }
    assert(r@ =~= x@);
    r
}

/// Entry-wise sum over the length of `x`.
fn add_vec(x: &Vec<Fp128Element>, y: &Vec<Fp128Element>) -> (r: Vec<Fp128Element>)
    requires
        covers(x@, y@),
    ensures
        r@ == vec_add(x@, y@),
{
    let mut r: Vec<Fp128Element> = Vec::with_capacity(x.len());
    let mut i: usize = 0;
    while i < x.len()
        invariant
            i <= x@.len(),
            covers(x@, y@),
            r@ == vec_add(x@, y@).subrange(0, i as int),
        decreases x@.len() - i,
    {
        r.push(x[i].add(&y[i]));
        i = i + 1;
        assert(r@ =~= vec_add(x@, y@).subrange(0, i as int));
    }
    assert(r@ =~= vec_add(x@, y@));
    r
}

/// Entry-wise difference over the length of `x`.
fn sub_vec(x: &Vec<Fp128Element>, y: &Vec<Fp128Element>) -> (r: Vec<Fp128Element>)
    requires
        sub_defined(x@, y@),
    ensures
        r@ == vec_sub(x@, y@),
{
    let mut r: Vec<Fp128Element> = Vec::with_capacity(x.len());
    let mut i: usize = 0;
    while i < x.len()
        invariant
            i <= x@.len(),
            sub_defined(x@, y@),
            r@ == vec_sub(x@, y@).subrange(0, i as int),
        decreases x@.len() - i,
    {
        r.push(x[i].sub(&y[i]));
        i = i + 1;
        assert(r@ =~= vec_sub(x@, y@).subrange(0, i as int));
    }
    assert(r@ =~= vec_sub(x@, y@));
    r
}

/// Entry-wise product over the length of `x`.
fn mul_vec(x: &Vec<Fp128Element>, y: &Vec<Fp128Element>) -> (r: Vec<Fp128Element>)
    requires
        covers(x@, y@),
    ensures
        r@ == vec_mul(x@, y@),
{
    let mut r: Vec<Fp128Element> = Vec::with_capacity(x.len());
    let mut i: usize = 0;
    while i < x.len()
        invariant
            i <= x@.len(),
            covers(x@, y@),
            r@ == vec_mul(x@, y@).subrange(0, i as int),
        decreases x@.len() - i,
    {
        r.push(x[i].mul(&y[i]));
        i = i + 1;
        assert(r@ =~= vec_mul(x@, y@).subrange(0, i as int));
    }
    assert(r@ =~= vec_mul(x@, y@));
    r
}

/// Every entry multiplied by `k`.
fn scale_vec(x: &Vec<Fp128Element>, k: &Fp128Element) -> (r: Vec<Fp128Element>)
    ensures
        r@ == vec_scale(x@, *k),
{
    let mut r: Vec<Fp128Element> = Vec::with_capacity(x.len());
    let mut i: usize = 0;
    while i < x.len()
        invariant
            i <= x@.len(),
            r@ == vec_scale(x@, *k).subrange(0, i as int),
        decreases x@.len() - i,
    {
        r.push(x[i].mul(k));
        i = i + 1;
        assert(r@ =~= vec_scale(x@, *k).subrange(0, i as int));
    }
    assert(r@ =~= vec_scale(x@, *k));
    r
}

/// Whether every entry is zero.
fn all_zero(x: &Vec<Fp128Element>) -> (b: bool)
    ensures
        b == (forall|j: int| 0 <= j < x@.len() ==> #[trigger] x@[j].0 == 0),
{
    let mut i: usize = 0;
    while i < x.len()
        invariant
            i <= x@.len(),
            forall|j: int| 0 <= j < i ==> #[trigger] x@[j].0 == 0,
        decreases x@.len() - i,
    {
        if !x[i].is_zero() {
            return false;
        }
        i = i + 1;
    }
    true
}

/// Sum of the entries, reduced modulo q.
fn sum_vec(x: &Vec<Fp128Element>) -> (r: Fp128Element)
    ensures
        r.0 == raw_sum(x@, x@.len()) % q(),
{
    let mut sum = Fp128Element::zero();
    let mut i: usize = 0;
    proof {
        lemma_small_mod(0, q() as nat);
    }
    while i < x.len()
        invariant
            i <= x@.len(),
            sum.0 == raw_sum(x@, i as nat) % q(),
        decreases x@.len() - i,
    {
        let prev = sum;
        proof {
            lemma_mod_twice(x@[i as int].0 as int, q());
            lemma_step_mod(raw_sum(x@, i as nat), x@[i as int].0 as int);
        }
        let c = x[i].mul(&Fp128Element::one());
        sum = prev.add(&c);
        i = i + 1;
    }
    sum
}

/// Adding a reduced term to a reduced partial sum reduces the exact sum.
pub proof fn lemma_step_mod(s: int, t: int)
    ensures
        fadd(s % q(), t % q()) == (s + t) % q(),
{
    lemma_add_mod_noop(s, t, q());
}

/// Dot product of two value vectors over the length of `x`, reduced modulo q.
fn dot_vec(x: &Vec<Fp128Element>, y: &Vec<Fp128Element>, n: usize, start: Fp128Element) -> (r: Fp128Element)
    requires
        n <= x@.len(),
        n <= y@.len(),
        start.canonical(),
    ensures
        r.0 == (start.0 + raw_dot(x@, y@, n as nat)) % q(),
{
    let mut sum = start;
    let mut i: usize = 0;
    proof {
        lemma_small_mod(start.0 as nat, q() as nat);
    }
    while i < n
        invariant
            i <= n,
            n <= x@.len(),
            n <= y@.len(),
            sum.0 == (start.0 + raw_dot(x@, y@, i as nat)) % q(),
        decreases n - i,
    {
        let p = x[i].mul(&y[i]);
        proof {
            lemma_step_mod(start.0 + raw_dot(x@, y@, i as nat), x@[i as int].0 * y@[i as int].0);
        }
        sum = sum.add(&p);
        i = i + 1;
    }
    sum
}

/// Σ over paired polynomials of the sum of pointwise products, reduced modulo q;
/// pairs and entries beyond the shorter side are ignored.
pub fn compute_inner_product(a: &[KyberPolynomialNTT], b: &[KyberPolynomialNTT]) -> (r: Fp128Element)
    ensures
        r.0 == raw_inner(values_of(a@), values_of(b@), min_len(a@.len(), b@.len())) % q(),
{
    let k = if a.len() <= b.len() { a.len() } else { b.len() };
    let mut sum = Fp128Element::zero();
    let mut i: usize = 0;
    proof {
        lemma_small_mod(0, q() as nat);
    }
    while i < k
        invariant
            i <= k,
            k <= a@.len(),
            k <= b@.len(),
            sum.0 == raw_inner(values_of(a@), values_of(b@), i as nat) % q(),
        decreases k - i,
    {
        let pa = &a[i];
        let pb = &b[i];
        let n = if pa.values.len() <= pb.values.len() { pa.values.len() } else { pb.values.len() };
        let prev = sum;
        proof {
            lemma_mod_bound_canonical(raw_inner(values_of(a@), values_of(b@), i as nat));
        }
        sum = dot_vec(&pa.values, &pb.values, n, prev);
        proof {
            lemma_add_mod_noop(raw_inner(values_of(a@), values_of(b@), i as nat), raw_dot(pa.values@, pb.values@, n as nat), q());
            lemma_mod_twice(raw_inner(values_of(a@), values_of(b@), i as nat), q());
            lemma_add_mod_noop(raw_inner(values_of(a@), values_of(b@), i as nat) % q(), raw_dot(pa.values@, pb.values@, n as nat), q());
        }
        i = i + 1;
    }
    sum
}

/// A reduced value is canonical.
proof fn lemma_mod_bound_canonical(x: int)
    ensures
        0 <= x % q() < q(),
{
}

impl KyberCurve {
    /// Number of coefficients of a polynomial.
    pub const N: usize = 256;

    pub fn new() -> (r: Self) {
        Self
    }

    /// The polynomial with the given 256 coefficients.
    pub fn poly_from_coeffs(coeffs: &[Fp128Element]) -> (r: KyberPolynomial)
        requires
            coeffs@.len() == 256,
        ensures
            r.coeffs@ == coeffs@,
    {
        KyberPolynomial { coeffs: copy_vec(coeffs) }
    }

    /// The zero polynomial (256 zero coefficients).
    pub fn zero_poly() -> (r: KyberPolynomial)
        ensures
            r.coeffs@ == zeros(256),
    {
        KyberPolynomial { coeffs: zero_vec(256) }
    }

    /// The polynomial with all 256 coefficients one.
    pub fn one_poly() -> (r: KyberPolynomial)
        ensures
            r.coeffs@ == ones(256),
    {
        let mut coeffs: Vec<Fp128Element> = Vec::with_capacity(256);
        let mut i: usize = 0;
        while i < 256
            invariant
                i <= 256,
                coeffs@ == ones(i as nat),
            decreases 256 - i,
        {
            coeffs.push(Fp128Element::one());
            i = i + 1;
            assert(coeffs@ =~= ones(i as nat));
        }
        KyberPolynomial { coeffs }
    }
}

impl KyberPolynomial {
    /// Forward transform to evaluation form (the identity map).
    pub fn ntt(&self) -> (r: KyberPolynomialNTT)
        ensures
            r.values@ == self.coeffs@,
    {
        let cache = TwiddleCache::new(8);
        let values = cache.ntt_fwd(self.coeffs.as_slice(), 8);
        KyberPolynomialNTT { values }
    }

    /// Inverse transform of the coefficient vector (the identity map).
    pub fn intt(&self) -> (r: KyberPolynomial)
        ensures
            r.coeffs@ == self.coeffs@,
    {
        let cache = TwiddleCache::new(8);
        let coeffs = cache.ntt_inv(self.coeffs.as_slice(), 8);
        KyberPolynomial { coeffs }
    }

    /// Coefficient-wise sum.
    pub fn add(&self, rhs: &KyberPolynomial) -> (r: KyberPolynomial)
        requires
            covers(self.coeffs@, rhs.coeffs@),
        ensures
            r.coeffs@ == vec_add(self.coeffs@, rhs.coeffs@),
    {
        KyberPolynomial { coeffs: add_vec(&self.coeffs, &rhs.coeffs) }
    }

    /// Coefficient-wise difference.
    pub fn sub(&self, rhs: &KyberPolynomial) -> (r: KyberPolynomial)
        requires
            sub_defined(self.coeffs@, rhs.coeffs@),
        ensures
            r.coeffs@ == vec_sub(self.coeffs@, rhs.coeffs@),
    {
        KyberPolynomial { coeffs: sub_vec(&self.coeffs, &rhs.coeffs) }
    }

    /// Whether every coefficient is zero.
    pub fn is_zero(&self) -> (b: bool)
        ensures
            b == (forall|j: int| 0 <= j < self.coeffs@.len() ==> #[trigger] self.coeffs@[j].0 == 0),
    {
        all_zero(&self.coeffs)
    }

    /// Every coefficient multiplied by `k`.
    pub fn scale(&self, k: &Fp128Element) -> (r: KyberPolynomial)
        ensures
            r.coeffs@ == vec_scale(self.coeffs@, *k),
    {
        KyberPolynomial { coeffs: scale_vec(&self.coeffs, k) }
    }

    /// Sum of the coefficients, modulo q.
    pub fn to_field(&self) -> (r: Fp128Element)
        ensures
            r.0 == raw_sum(self.coeffs@, self.coeffs@.len()) % q(),
    {
        sum_vec(&self.coeffs)
    }

    /// Always valid.
    pub fn check(&self) -> (r: Result<(), SerializationError>)
        ensures
            r is Ok,
    {
        Ok(())
    }

    /// Appends each coefficient in little-endian order.
    pub fn serialize_with_mode(&self, writer: &mut Vec<u8>, compress: Compress) -> (r: Result<(), SerializationError>)
        ensures
            r is Ok,
            final(writer)@ == old(writer)@ + le_bytes_seq(self.coeffs@),
    {
        write_elements(&self.coeffs, writer, compress);
        Ok(())
    }

    /// Eight bytes per coefficient.
    pub fn serialized_size(&self, _compress: Compress) -> (r: usize)
        requires
            self.coeffs@.len() * 8 <= usize::MAX,
        ensures
            r == self.coeffs@.len() * 8,
    {
        self.coeffs.len() * 8
    }

    /// Reads 256 coefficients of eight little-endian bytes each.
    pub fn deserialize_with_mode(reader: &[u8], compress: Compress, validate: Validate) -> (r: Result<Self, SerializationError>)
        ensures
            reader@.len() < 2048 <==> r is Err,
            r matches Ok(p) ==> p.coeffs@ == decode_le_seq(reader@, 256),
    {
        match read_elements(reader, compress, validate) {
            Ok(coeffs) => Ok(KyberPolynomial { coeffs }),
            Err(e) => Err(e),
        }
    }
}

/// Appends the little-endian encoding of every element.
fn write_elements(xs: &Vec<Fp128Element>, writer: &mut Vec<u8>, compress: Compress)
    ensures
        final(writer)@ == old(writer)@ + le_bytes_seq(xs@),
{
    let ghost start = writer@;
    let mut i: usize = 0;
    while i < xs.len()
        invariant
            i <= xs@.len(),
            writer@ == start + le_bytes_seq(xs@.subrange(0, i as int)),
        decreases xs@.len() - i,
    {
        let _ = xs[i].serialize_with_mode(writer, compress);
        proof {
            let pre = xs@.subrange(0, i as int + 1);
            assert(pre.drop_last() =~= xs@.subrange(0, i as int));
            assert(pre.last() == xs@[i as int]);
        }
        i = i + 1;
        assert(writer@ =~= start + le_bytes_seq(xs@.subrange(0, i as int)));
    }
    assert(xs@.subrange(0, xs@.len() as int) =~= xs@);
}

/// Decodes 256 elements from consecutive 8-byte chunks.
fn read_elements(reader: &[u8], compress: Compress, validate: Validate) -> (r: Result<Vec<Fp128Element>, SerializationError>)
    ensures
        reader@.len() < 2048 <==> r is Err,
        r matches Ok(v) ==> v@ == decode_le_seq(reader@, 256),
{
    if reader.len() < 2048 {
        return Err(SerializationError::NotEnoughSpace);
    }
    let mut out: Vec<Fp128Element> = Vec::with_capacity(256);
    let mut i: usize = 0;
    while i < 256
        invariant
            i <= 256,
            reader@.len() >= 2048,
            out@ == decode_le_seq(reader@, i as nat),
        decreases 256 - i,
    {
        let chunk = slice_subrange(reader, 8 * i, 8 * i + 8);
        match Fp128Element::deserialize_with_mode(chunk, compress, validate) {
            Ok(x) => {
                out.push(x);
                proof {
                    assert(chunk@.subrange(0, 8) =~= reader@.subrange(8 * i, 8 * i + 8));
                }
            },
            Err(e) => {
                return Err(e);
            },
        }
        i = i + 1;
        assert(out@ =~= decode_le_seq(reader@, i as nat));
    }
    Ok(out)
}

impl KyberPolynomialNTT {
    /// Pointwise product.
    pub fn multiply(&self, rhs: &KyberPolynomialNTT) -> (r: KyberPolynomialNTT)
        requires
            covers(self.values@, rhs.values@),
        ensures
            r.values@ == vec_mul(self.values@, rhs.values@),
    {
        KyberPolynomialNTT { values: mul_vec(&self.values, &rhs.values) }
    }

    /// Every value multiplied by `scalar`.
    pub fn scale(&self, scalar: &Fp128Element) -> (r: KyberPolynomialNTT)
        ensures
            r.values@ == vec_scale(self.values@, *scalar),
    {
        KyberPolynomialNTT { values: scale_vec(&self.values, scalar) }
    }

    /// Pointwise sum.
    pub fn add(&self, rhs: &KyberPolynomialNTT) -> (r: KyberPolynomialNTT)
        requires
            covers(self.values@, rhs.values@),
        ensures
            r.values@ == vec_add(self.values@, rhs.values@),
    {
        KyberPolynomialNTT { values: add_vec(&self.values, &rhs.values) }
    }

    /// Pointwise difference.
    pub fn sub(&self, rhs: &KyberPolynomialNTT) -> (r: KyberPolynomialNTT)
        requires
            sub_defined(self.values@, rhs.values@),
        ensures
            r.values@ == vec_sub(self.values@, rhs.values@),
    {
        KyberPolynomialNTT { values: sub_vec(&self.values, &rhs.values) }
    }

    /// Inverse transform to coefficient form (the identity map).
    pub fn intt(&self) -> (r: KyberPolynomial)
        ensures
            r.coeffs@ == self.values@,
    {
        let cache = TwiddleCache::new(8);
        let coeffs = cache.ntt_inv_naive(self.values.as_slice(), 8);
        KyberPolynomial { coeffs }
    }

    /// The zero polynomial in evaluation form (256 zeros).
    pub fn zero() -> (r: KyberPolynomialNTT)
        ensures
            r.values@ == zeros(256),
    {
        KyberPolynomialNTT { values: zero_vec(256) }
    }

    /// The evaluation vector with a one in position 0 (256 entries).
    pub fn one() -> (r: KyberPolynomialNTT)
        ensures
            r.values@ == zeros(256).update(0, Fp128Element(1)),
    {
        let mut values = zero_vec(256);
        values.set(0, Fp128Element::one());
        KyberPolynomialNTT { values }
    }

    /// Number of values.
    pub fn len(&self) -> (r: usize)
        ensures
            r == self.values@.len(),
    {
        self.values.len()
    }

    /// Whether there are no values.
    pub fn is_empty(&self) -> (b: bool)
        ensures
            b == (self.values@.len() == 0),
    {
        self.values.len() == 0
    }

    /// Whether every value is zero.
    pub fn is_zero(&self) -> (b: bool)
        ensures
            b == (forall|j: int| 0 <= j < self.values@.len() ==> #[trigger] self.values@[j].0 == 0),
    {
        all_zero(&self.values)
    }

    /// Sum of the coefficients of the inverse transform, modulo q.
    pub fn to_field(&self) -> (r: Fp128Element)
        ensures
            r.0 == raw_sum(self.values@, self.values@.len()) % q(),
    {
        let poly = self.intt();
        poly.to_field()
    }

    /// Always valid.
    pub fn check(&self) -> (r: Result<(), SerializationError>)
        ensures
            r is Ok,
    {
        Ok(())
    }

    /// Appends each value in little-endian order.
    pub fn serialize_with_mode(&self, writer: &mut Vec<u8>, compress: Compress) -> (r: Result<(), SerializationError>)
        ensures
            r is Ok,
            final(writer)@ == old(writer)@ + le_bytes_seq(self.values@),
    {
        write_elements(&self.values, writer, compress);
        Ok(())
    }

    /// Eight bytes per value.
    pub fn serialized_size(&self, _compress: Compress) -> (r: usize)
        requires
            self.values@.len() * 8 <= usize::MAX,
        ensures
            r == self.values@.len() * 8,
    {
        self.values.len() * 8
    }

    /// Reads 256 values of eight little-endian bytes each.
    pub fn deserialize_with_mode(reader: &[u8], compress: Compress, validate: Validate) -> (r: Result<Self, SerializationError>)
        ensures
            reader@.len() < 2048 <==> r is Err,
            r matches Ok(p) ==> p.values@ == decode_le_seq(reader@, 256),
    {
        match read_elements(reader, compress, validate) {
            Ok(values) => Ok(KyberPolynomialNTT { values }),
            Err(e) => Err(e),
        }
    }
}

impl KyberCommitment {
    /// Commits to a polynomial: its evaluation form.
    pub fn from_poly(poly: &KyberPolynomial) -> (r: Self)
        ensures
            r.poly_ntt.values@ == poly.coeffs@,
    {
        KyberCommitment { poly_ntt: poly.ntt() }
    }

    /// Wraps an evaluation-form polynomial as a commitment.
    pub fn from_ntt(poly_ntt: KyberPolynomialNTT) -> (r: Self)
        ensures
            r.poly_ntt.values@ == poly_ntt.values@,
    {
        KyberCommitment { poly_ntt }
    }

    /// A commitment with the same values.
    pub fn clone_commitment(&self) -> (r: Self)
        ensures
            r.poly_ntt.values@ == self.poly_ntt.values@,
    {
        KyberCommitment { poly_ntt: KyberPolynomialNTT { values: copy_vec(self.poly_ntt.values.as_slice()) } }
    }

    /// Equality of the committed values.
    pub fn equals(&self, other: &Self) -> (b: bool)
        ensures
            b == (self.poly_ntt.values@ == other.poly_ntt.values@),
    {
        let x = &self.poly_ntt.values;
        let y = &other.poly_ntt.values;
        if x.len() != y.len() {
            assert(x@.len() != y@.len());
            assert(x@ != y@);
            return false;
        }
        let mut i: usize = 0;
        while i < x.len()
            invariant
                i <= x@.len(),
                x@.len() == y@.len(),
                x@ == self.poly_ntt.values@,
                y@ == other.poly_ntt.values@,
                forall|j: int| 0 <= j < i ==> x@[j] == y@[j],
            decreases x@.len() - i,
        {
            if x[i].0 != y[i].0 {
                assert(x@[i as int] != y@[i as int]);
                assert(x@ != y@);
                return false;
            }
            i = i + 1;
        }
        assert(x@ =~= y@);
        true
    }

    /// Always valid.
    pub fn check(&self) -> (r: Result<(), SerializationError>)
        ensures
            r is Ok,
    {
        Ok(())
    }

    /// Appends the committed values in little-endian order.
    pub fn serialize_with_mode(&self, writer: &mut Vec<u8>, compress: Compress) -> (r: Result<(), SerializationError>)
        ensures
            r is Ok,
            final(writer)@ == old(writer)@ + le_bytes_seq(self.poly_ntt.values@),
    {
        self.poly_ntt.serialize_with_mode(writer, compress)
    }

    /// Eight bytes per committed value.
    pub fn serialized_size(&self, compress: Compress) -> (r: usize)
        requires
            self.poly_ntt.values@.len() * 8 <= usize::MAX,
        ensures
            r == self.poly_ntt.values@.len() * 8,
    {
        self.poly_ntt.serialized_size(compress)
    }

    /// Reads a commitment of 256 values.
    pub fn deserialize_with_mode(reader: &[u8], compress: Compress, validate: Validate) -> (r: Result<Self, SerializationError>)
        ensures
            reader@.len() < 2048 <==> r is Err,
            r matches Ok(c) ==> c.poly_ntt.values@ == decode_le_seq(reader@, 256),
    {
        match KyberPolynomialNTT::deserialize_with_mode(reader, compress, validate) {
            Ok(poly_ntt) => Ok(KyberCommitment { poly_ntt }),
            Err(e) => Err(e),
        }
    }
}

impl std::ops::Add for KyberPolynomial {
    type Output = Self;

    /// Coefficient-wise sum.
    fn add(self, rhs: Self) -> (r: Self)
        ensures
            r.coeffs@ == vec_add(self.coeffs@, rhs.coeffs@),
    {
        KyberPolynomial::add(&self, &rhs)
    }
}

impl vstd::std_specs::ops::AddSpecImpl for KyberPolynomial {
    open spec fn obeys_add_spec() -> bool {
        false
    }

    open spec fn add_req(self, rhs: Self) -> bool {
        covers(self.coeffs@, rhs.coeffs@)
    }

    open spec fn add_spec(self, rhs: Self) -> Self {
        self
    }
}

impl std::ops::Sub for KyberPolynomial {
    type Output = Self;

    /// Coefficient-wise difference.
    fn sub(self, rhs: Self) -> (r: Self)
        ensures
            r.coeffs@ == vec_sub(self.coeffs@, rhs.coeffs@),
    {
        KyberPolynomial::sub(&self, &rhs)
    }
}

impl vstd::std_specs::ops::SubSpecImpl for KyberPolynomial {
    open spec fn obeys_sub_spec() -> bool {
        false
    }

    open spec fn sub_req(self, rhs: Self) -> bool {
        sub_defined(self.coeffs@, rhs.coeffs@)
    }

    open spec fn sub_spec(self, rhs: Self) -> Self {
        self
    }
}

impl std::ops::Add for KyberPolynomialNTT {
    type Output = Self;

    /// Pointwise sum.
    fn add(self, rhs: Self) -> (r: Self)
        ensures
            r.values@ == vec_add(self.values@, rhs.values@),
    {
        KyberPolynomialNTT::add(&self, &rhs)
    }
}

impl vstd::std_specs::ops::AddSpecImpl for KyberPolynomialNTT {
    open spec fn obeys_add_spec() -> bool {
        false
    }

    open spec fn add_req(self, rhs: Self) -> bool {
        covers(self.values@, rhs.values@)
    }

    open spec fn add_spec(self, rhs: Self) -> Self {
        self
    }
}

impl std::ops::Mul<Fp128Element> for KyberPolynomialNTT {
    type Output = Self;

    /// Every value multiplied by `scalar`.
    fn mul(self, scalar: Fp128Element) -> (r: Self)
        ensures
            r.values@ == vec_scale(self.values@, scalar),
    {
        self.scale(&scalar)
    }
}

impl vstd::std_specs::ops::MulSpecImpl<Fp128Element> for KyberPolynomialNTT {
    open spec fn obeys_mul_spec() -> bool {
        false
    }

    open spec fn mul_req(self, rhs: Fp128Element) -> bool {
        true
    }

    open spec fn mul_spec(self, rhs: Fp128Element) -> Self {
        self
    }
}

impl Default for KyberPolynomial {
    fn default() -> (r: Self)
        ensures
            r.coeffs@.len() == 0,
    {
        KyberPolynomial { coeffs: Vec::new() }
    }
}

impl Default for KyberPolynomialNTT {
    fn default() -> (r: Self)
        ensures
            r.values@.len() == 0,
    {
        KyberPolynomialNTT { values: Vec::new() }
    }
}

impl Default for KyberCurve {
    fn default() -> (r: Self) {
        KyberCurve
    }
}

impl Default for KyberCommitment {
    fn default() -> (r: Self)
        ensures
            r.poly_ntt.values@ == zeros(256),
    {
        Self { poly_ntt: KyberPolynomialNTT::zero() }
    }
}

/// Σ_i a[i] * b[i] over the values of `a`, modulo q: the lattice stand-in
/// for a pairing.
pub fn lattice_inner_product(a: &KyberPolynomialNTT, b: &KyberPolynomialNTT) -> (r: Fp128Element)
    requires
        covers(a.values@, b.values@),
    ensures
        r.0 == raw_dot(a.values@, b.values@, a.values@.len()) % q(),
{
    let r = dot_vec(&a.values, &b.values, a.values.len(), Fp128Element::zero());
    r
}

/// The generic entry-wise operations agree with the ones stated here.
proof fn lemma_pointwise_agrees(x: Seq<Fp128Element>, y: Seq<Fp128Element>, k: Fp128Element)
    ensures
        vec_add(x, y) == pointwise_add(x, y),
        vec_sub(x, y) == pointwise_sub(x, y),
        vec_mul(x, y) == pointwise_mul(x, y),
        vec_scale(x, k) == pointwise_scale(x, k),
        sub_defined(x, y) == pointwise_sub_req(x, y),
{
    assert(vec_add(x, y) =~= pointwise_add(x, y));
    assert(vec_sub(x, y) =~= pointwise_sub(x, y));
    assert(vec_mul(x, y) =~= pointwise_mul(x, y));
    assert(vec_scale(x, k) =~= pointwise_scale(x, k));
    if sub_defined(x, y) {
        assert forall|j: int| 0 <= j < x.len() implies #[trigger] <Fp128Element as LatticeField>::lat_sub_req(x[j], y[j]) by {
            assert(y[j].0 <= x[j].0 + q());
        }
    }
    if pointwise_sub_req(x, y) {
        assert forall|j: int| 0 <= j < x.len() implies #[trigger] y[j].0 <= x[j].0 + q() by {
            assert(<Fp128Element as LatticeField>::lat_sub_req(x[j], y[j]));
        }
    }
}

/// A word is zero exactly when the element is the zero element.
proof fn lemma_all_zero_elements(x: Seq<Fp128Element>)
    ensures
        (forall|j: int| 0 <= j < x.len() ==> #[trigger] x[j].0 == 0)
            == (forall|j: int| 0 <= j < x.len() ==> #[trigger] x[j] == <Fp128Element as LatticeField>::lat_zero()),
{
    if forall|j: int| 0 <= j < x.len() ==> #[trigger] x[j].0 == 0 {
        assert forall|j: int| 0 <= j < x.len() implies #[trigger] x[j] == <Fp128Element as LatticeField>::lat_zero() by {
            assert(x[j].0 == 0);
        }
    }
    if forall|j: int| 0 <= j < x.len() ==> #[trigger] x[j] == <Fp128Element as LatticeField>::lat_zero() {
        assert forall|j: int| 0 <= j < x.len() implies #[trigger] x[j].0 == 0 by {
            assert(x[j] == <Fp128Element as LatticeField>::lat_zero());
        }
    }
}

/// The field value of a polynomial with values `v`: the sum of the values
/// modulo q.
pub open spec fn coefficient_sum(v: Seq<Fp128Element>) -> Fp128Element {
    Fp128Element((raw_sum(v, v.len()) % q()) as u64)
}

impl LatticeElement for KyberPolynomial {
    type Field = Fp128Element;

    open spec fn lat_values(&self) -> Seq<Fp128Element> {
        self.coeffs@
    }

    open spec fn lat_field_of(values: Seq<Fp128Element>) -> Fp128Element {
        coefficient_sum(values)
    }

    fn zero() -> (r: Self)
        ensures
            r.coeffs@ == zeros(256),
    {
        KyberPolynomial { coeffs: zero_vec(256) }
    }

    fn one() -> (r: Self)
        ensures
            r.coeffs@ == zeros(256).update(0, Fp128Element(1)),
    {
        let mut coeffs = zero_vec(256);
        coeffs.set(0, Fp128Element::one());
        KyberPolynomial { coeffs }
    }

    fn is_zero(&self) -> (b: bool) {
        let b = all_zero(&self.coeffs);
        proof {
            lemma_all_zero_elements(self.coeffs@);
            assert(self.lat_values() == self.coeffs@);
        }
        b
    }

    fn add(&self, rhs: &Self) -> (r: Self) {
        proof {
            lemma_pointwise_agrees(self.coeffs@, rhs.coeffs@, Fp128Element(0));
        }
        KyberPolynomial { coeffs: add_vec(&self.coeffs, &rhs.coeffs) }
    }

    fn sub(&self, rhs: &Self) -> (r: Self) {
        proof {
            lemma_pointwise_agrees(self.coeffs@, rhs.coeffs@, Fp128Element(0));
        }
        KyberPolynomial { coeffs: sub_vec(&self.coeffs, &rhs.coeffs) }
    }

    fn scale(&self, k: &Fp128Element) -> (r: Self) {
        proof {
            lemma_pointwise_agrees(self.coeffs@, self.coeffs@, *k);
        }
        KyberPolynomial { coeffs: scale_vec(&self.coeffs, k) }
    }

    fn to_field(&self) -> (r: Fp128Element) {
        sum_vec(&self.coeffs)
    }
}

impl LatticeElement for KyberPolynomialNTT {
    type Field = Fp128Element;

    open spec fn lat_values(&self) -> Seq<Fp128Element> {
        self.values@
    }

    open spec fn lat_field_of(values: Seq<Fp128Element>) -> Fp128Element {
        coefficient_sum(values)
    }

    fn zero() -> (r: Self)
        ensures
            r.values@ == zeros(256),
    {
        KyberPolynomialNTT { values: zero_vec(256) }
    }

    fn one() -> (r: Self)
        ensures
            r.values@ == zeros(256).update(0, Fp128Element(1)),
    {
        let mut values = zero_vec(256);
        values.set(0, Fp128Element::one());
        KyberPolynomialNTT { values }
    }

    fn is_zero(&self) -> (b: bool) {
        let b = all_zero(&self.values);
        proof {
            lemma_all_zero_elements(self.values@);
            assert(self.lat_values() == self.values@);
        }
        b
    }

    fn add(&self, rhs: &Self) -> (r: Self) {
        proof {
            lemma_pointwise_agrees(self.values@, rhs.values@, Fp128Element(0));
        }
        KyberPolynomialNTT { values: add_vec(&self.values, &rhs.values) }
    }

    fn sub(&self, rhs: &Self) -> (r: Self) {
        proof {
            lemma_pointwise_agrees(self.values@, rhs.values@, Fp128Element(0));
        }
        KyberPolynomialNTT { values: sub_vec(&self.values, &rhs.values) }
    }

    fn scale(&self, k: &Fp128Element) -> (r: Self) {
        proof {
            lemma_pointwise_agrees(self.values@, self.values@, *k);
        }
        KyberPolynomialNTT { values: scale_vec(&self.values, k) }
    }

    fn to_field(&self) -> (r: Fp128Element) {
        let poly = KyberPolynomialNTT::intt(self);
        KyberPolynomial::to_field(&poly)
    }
}

impl LatticeCurve for KyberCurve {
    type Polynomial = KyberPolynomial;
    type PolynomialNTT = KyberPolynomialNTT;
    type Commitment = KyberCommitment;
    type Field = Fp128Element;

    /// The transform is the identity map.
    open spec fn lat_ntt(values: Seq<Fp128Element>) -> Seq<Fp128Element> {
        values
    }

    /// The inverse transform is the identity map.
    open spec fn lat_intt(values: Seq<Fp128Element>) -> Seq<Fp128Element> {
        values
    }

    open spec fn lat_inner(a: Seq<Seq<Fp128Element>>, b: Seq<Seq<Fp128Element>>) -> Fp128Element {
        Fp128Element((raw_inner(a, b, min_len(a.len(), b.len())) % q()) as u64)
    }

    fn commit(polynomial: &KyberPolynomial) -> (r: KyberCommitment)
        ensures
            r.poly_ntt.values@ == polynomial.coeffs@,
    {
        KyberCommitment::from_poly(polynomial)
    }

    fn commit_ntt(polynomial_ntt: &KyberPolynomialNTT) -> (r: KyberCommitment)
        ensures
            r.poly_ntt.values@ == polynomial_ntt.values@,
    {
        KyberCommitment::from_ntt(KyberPolynomialNTT { values: copy_vec(polynomial_ntt.values.as_slice()) })
    }

    fn to_ntt(polynomial: &KyberPolynomial) -> (r: KyberPolynomialNTT) {
        polynomial.ntt()
    }

    fn from_ntt(ntt: &KyberPolynomialNTT) -> (r: KyberPolynomial) {
        ntt.intt()
    }

    fn inner_product(a: &[KyberPolynomialNTT], b: &[KyberPolynomialNTT]) -> (r: Fp128Element) {
        let r = compute_inner_product(a, b);
        proof {
            assert(values_of(a@) =~= element_values(a@));
            assert(values_of(b@) =~= element_values(b@));
        }
        r
    }

    fn poly_multiply(a: &KyberPolynomialNTT, b: &KyberPolynomialNTT) -> (r: KyberPolynomialNTT) {
        proof {
            lemma_pointwise_agrees(a.values@, b.values@, Fp128Element(0));
        }
        a.multiply(b)
    }

    fn poly_from_coeffs(coeffs: &[Fp128Element]) -> (r: KyberPolynomial) {
        KyberPolynomial { coeffs: copy_vec(coeffs) }
    }

    fn zero_poly() -> (r: KyberPolynomial)
        ensures
            r.coeffs@ == zeros(256),
    {
        KyberPolynomial { coeffs: zero_vec(256) }
    }

    fn one_poly() -> (r: KyberPolynomial)
        ensures
            r.coeffs@ == zeros(256).update(0, Fp128Element(1)),
    {
        let mut coeffs = zero_vec(256);
        coeffs.set(0, Fp128Element::one());
        KyberPolynomial { coeffs }
    }
}

} // verus!

