//! Prime field with modulus q = 2^64 - 2^32 + 1.
use vstd::prelude::*;
use vstd::arithmetic::power::*;
use vstd::arithmetic::div_mod::*;
use vstd::arithmetic::mul::*;
use vstd::bits::{lemma_u64_shl_is_mul, lemma_u64_pow2_no_overflow};
use vstd::arithmetic::power2::{pow2, lemma2_to64, lemma_pow2_adds, lemma_pow2_unfold, lemma_pow2_pos};
use vstd::bytes::{spec_u64_to_le_bytes, spec_u64_from_le_bytes, u64_to_le_bytes, u64_from_le_bytes, lemma_auto_spec_u64_to_from_le_bytes};
use vstd::slice::slice_subrange;
use crate::serialization::{Compress, Validate, SerializationError};
use crate::lattice_trait::LatticeField;
use crate::fp128_order::lemma_inverse;
use crate::fp128_facts::{lemma_pow_mod_is_pow, lemma_pow_seven_half, lemma_pow_three_half, lemma_pow_five_half, lemma_pow_seven_full};

verus! {

/// The field modulus q = 2^64 - 2^32 + 1.
pub const MODULUS: u64 = 0xFFFF_FFFF_0000_0001u64;

/// The modulus as a mathematical integer.
pub open spec fn q() -> int {
    MODULUS as int
}

/// Field addition on representatives.
pub open spec fn fadd(a: int, b: int) -> int {
    (a + b) % q()
}

/// Field subtraction on representatives.
pub open spec fn fsub(a: int, b: int) -> int {
    (a - b) % q()
}

/// Field multiplication on representatives.
pub open spec fn fmul(a: int, b: int) -> int {
    (a * b) % q()
}

/// Field negation on representatives.
pub open spec fn fneg(a: int) -> int {
    (-a) % q()
}

/// Field exponentiation on representatives.
pub open spec fn fpow(a: int, e: nat) -> int {
    pow(a, e) % q()
}

/// Word-level result of `add`: the wrapped sum, reduced once by q.
pub open spec fn add_word(a: int, b: int) -> int {
    if a + b >= q() {
        (a + b - q()) % 0x1_0000_0000_0000_0000
    } else {
        a + b
    }
}

/// Word-level result of `sub`, defined when `b <= a + q`.
pub open spec fn sub_word(a: int, b: int) -> int {
    if a >= b {
        a - b
    } else {
        a + q() - b
    }
}

/// Word-level result of `neg`, defined when `a <= q`.
pub open spec fn neg_word(a: int) -> int {
    if a == 0 {
        0
    } else {
        q() - a
    }
}

/// A field element stored in a 64-bit word; canonical elements lie in [0, q).
#[derive(Clone, Copy, Eq, Debug)]
pub struct Fp128Element(pub u64);

impl Fp128Element {
    /// The field modulus.
    pub const MODULUS: u64 = 0xFFFF_FFFF_0000_0001u64;

    /// Whether the stored word is the canonical representative.
    pub open spec fn canonical(self) -> bool {
        self.0 < q()
    }

    /// The element `val mod q`.
    pub fn from_raw(val: u64) -> (r: Self)
        ensures
            r.0 == val % MODULUS,
            r.canonical(),
    {
        Self(val % MODULUS)
    }

    /// The additive identity.
    pub fn zero() -> (r: Self)
        ensures
            r.0 == 0,
    {
        Self(0)
    }

    /// The multiplicative identity.
    pub fn one() -> (r: Self)
        ensures
            r.0 == 1,
    {
        Self(1)
    }

    /// Whether the stored word is zero.
    pub fn is_zero(&self) -> (b: bool)
        ensures
            b == (self.0 == 0),
    {
        self.0 == 0
    }

    /// Whether the stored word is one.
    pub fn is_one(&self) -> (b: bool)
        ensures
            b == (self.0 == 1),
    {
        self.0 == 1
    }

    /// The element `val mod q` for a signed `val` (Euclidean remainder).
    pub fn from_i64(val: i64) -> (r: Self)
        requires
            val > i64::MIN,
        ensures
            r.0 == (val as int) % q(),
            r.canonical(),
    {
        if val >= 0 {
            Self::from_raw(val as u64)
        } else {
            let abs = (-val) as u64;
            let val_mod = abs % MODULUS;
            proof {
                lemma_small_mod(abs as nat, q() as nat);
                lemma_mod_add_multiples_vanish(val as int, q());
                lemma_small_mod((val + q()) as nat, q() as nat);
            }
            if val_mod == 0 {
                Self::zero()
            } else {
                Self(MODULUS - val_mod)
            }
        }
    }

    /// Validity check of a decoded element: every word is accepted.
    pub fn check(&self) -> (r: Result<(), SerializationError>)
        ensures
            r is Ok,
    {
        Ok(())
    }

    /// Appends the stored word in little-endian order.
    pub fn serialize_with_mode(&self, writer: &mut Vec<u8>, _compress: Compress) -> (r: Result<(), SerializationError>)
        ensures
            r is Ok,
            final(writer)@ == old(writer)@ + spec_u64_to_le_bytes(self.0),
    {
        let mut bytes = u64_to_le_bytes(self.0);
        writer.append(&mut bytes);
        Ok(())
    }

    /// Number of bytes `serialize_with_mode` writes.
    pub fn serialized_size(&self, _compress: Compress) -> (r: usize)
        ensures
            r == 8,
    {
        8
    }

    /// Reads an element from the first eight bytes, little-endian.
    pub fn deserialize_with_mode(reader: &[u8], _compress: Compress, _validate: Validate) -> (r: Result<Self, SerializationError>)
        ensures
            reader@.len() < 8 <==> r is Err,
            reader@.len() < 8 ==> r == Err::<Self, SerializationError>(SerializationError::NotEnoughSpace),
            r matches Ok(x) ==> x.0 == spec_u64_from_le_bytes(reader@.subrange(0, 8)),
    {
        if reader.len() < 8 {
            return Err(SerializationError::NotEnoughSpace);
        }
        let head = slice_subrange(reader, 0, 8);
        Ok(Self(u64_from_le_bytes(head)))
    }

    /// Addition modulo q.
    pub fn add(&self, rhs: &Self) -> (r: Self)
        ensures
            r.0 == add_word(self.0 as int, rhs.0 as int),
            self.canonical() && rhs.canonical() ==> r.0 == fadd(self.0 as int, rhs.0 as int),
    {
        let sum = self.0.wrapping_add(rhs.0);
        proof {
            if self.0 < q() && rhs.0 < q() {
                lemma_reduce_once(self.0 + rhs.0, q());
            }
        }
        if sum >= MODULUS || sum < self.0 {
            Self(sum.wrapping_sub(MODULUS))
        } else {
            Self(sum)
        }
    }

    /// Subtraction modulo q.
    pub fn sub(&self, rhs: &Self) -> (r: Self)
        requires
            rhs.0 <= self.0 + q(),
        ensures
            r.0 == sub_word(self.0 as int, rhs.0 as int),
            self.canonical() && rhs.canonical() ==> r.0 == fsub(self.0 as int, rhs.0 as int),
    {
        let a = self.0 as u128;
        let b = rhs.0 as u128;
        let qq = MODULUS as u128;
        let diff = a + qq - b;
        proof {
            if self.0 < q() && rhs.0 < q() {
                lemma_reduce_once(self.0 - rhs.0 + q(), q());
                lemma_mod_add_multiples_vanish(self.0 - rhs.0, q());
            }
        }
        if diff >= qq {
            Self((diff - qq) as u64)
        } else {
            Self(diff as u64)
        }
    }

    /// Negation modulo q.
    pub fn neg(&self) -> (r: Self)
        requires
            self.0 <= q(),
        ensures
            r.0 == neg_word(self.0 as int),
            self.canonical() ==> r.0 == fneg(self.0 as int),
    {
        proof {
            if self.0 < q() {
                if self.0 == 0 {
                    assert(fneg(0) == 0);
                } else {
                    lemma_small_mod((q() - self.0) as nat, q() as nat);
                    lemma_mod_add_multiples_vanish(-self.0, q());
                }
            }
        }
        if self.0 == 0 {
            Self::zero()
        } else {
            Self(MODULUS - self.0)
        }
    }

    /// Multiplication modulo q.
    pub fn mul(&self, rhs: &Self) -> (r: Self)
        ensures
            r.0 == fmul(self.0 as int, rhs.0 as int),
            r.canonical(),
    {
        let (lo, hi) = Self::wideumul(self.0, rhs.0);
        Self::barrett_reduce(lo, hi)
    }

    /// Full 128-bit product of two words, as (low word, high word).
    fn wideumul(a: u64, b: u64) -> (r: (u64, u64))
        ensures
            r.0 + r.1 * 0x1_0000_0000_0000_0000 == a * b,
    {
        proof {
            lemma_mul_upper_bound(a as int, u64::MAX as int, b as int, u64::MAX as int);
        }
        let result = (a as u128) * (b as u128);
        let lo = result as u64;
        let hi = (result >> 64u32) as u64;
        assert(lo + hi * 0x1_0000_0000_0000_0000 == result) by (bit_vector)
            requires
                lo == result as u64,
                hi == (result >> 64u32) as u64,
        ;
        (lo, hi)
    }

    /// The element `(hi * 2^64 + lo) mod q`.
    fn barrett_reduce(lo: u64, hi: u64) -> (r: Self)
        ensures
            r.0 == (lo + hi * 0x1_0000_0000_0000_0000) % q(),
            r.canonical(),
    {
        let qq = MODULUS as u128;
        let x = ((hi as u128) << 64u32) | (lo as u128);
        assert(x == lo + hi * 0x1_0000_0000_0000_0000) by (bit_vector)
            requires
                x == ((hi as u128) << 64u32) | (lo as u128),
        ;
        let t = (x % qq) as u64;
        Self(t)
    }

    /// Multiplicative inverse by Fermat's little theorem: `self^(q-2)`;
    /// `None` when the stored word is zero.
    pub fn inv(&self) -> (r: Option<Self>)
        ensures
            r is None <==> self.0 == 0,
            r matches Some(x) ==> x.0 == fpow(self.0 as int, (q() - 2) as nat),
            (self.0 as int) % q() != 0 ==> (r matches Some(x) && fmul(self.0 as int, x.0 as int) == 1),
    {
        if self.is_zero() {
            return None;
        }
        let exp = MODULUS - 2;
        let r = self.pow(exp);
        proof {
            if (self.0 as int) % q() != 0 {
                lemma_inverse(self.0 as int);
            }
        }
        Some(r)
    }

    /// Exponentiation by squaring.
    pub fn pow(&self, exp: u64) -> (r: Self)
        ensures
            r.0 == fpow(self.0 as int, exp as nat),
            r.canonical(),
    {
        let ghost a = self.0 as int;
        let ghost e0 = exp as nat;
        let mut base = *self;
        let mut result = Self::one();
        let mut exp = exp;
        proof {
            lemma_small_mod(1, q() as nat);
        }
        while exp > 0
            invariant
                result.0 < q(),
                (result.0 * pow(base.0 as int, exp as nat)) % q() == pow(a, e0) % q(),
            decreases exp,
        {
            let ghost r0 = result.0 as int;
            let ghost b0 = base.0 as int;
            let ghost x0 = exp;
            let odd = exp & 1 != 0;
            assert(odd == (x0 % 2 == 1)) by (bit_vector)
                requires
                    odd == (x0 & 1 != 0),
            ;
            if odd {
                result = result.mul(&base);
            }
            base = base.mul(&base);
            exp = exp >> 1u32;
            assert(exp == x0 / 2) by (bit_vector)
                requires
                    exp == x0 >> 1u32,
            ;
            proof {
                lemma_square_and_multiply_step(r0, b0, x0 as nat, odd);
            }
        }
        proof {
            lemma_pow0(base.0 as int);
            lemma_small_mod(result.0 as nat, q() as nat);
        }
        result
    }

    /// A primitive `2^log_n`-th root of unity, found by trying small bases in
    /// turn; the first that qualifies is 7, so the result is `7^((q-1)/2^log_n)`.
    pub fn primitive_root_of_unity(log_n: usize) -> (r: Self)
        requires
            1 <= log_n <= 32,
        ensures
            r.0 == fpow(7, ((q() - 1) / pow2(log_n as nat) as int) as nat),
            fpow(r.0 as int, pow2(log_n as nat)) == 1,
            fpow(r.0 as int, pow2((log_n - 1) as nat)) == q() - 1,
            r.0 != 1,
    {
        let q_minus_1 = MODULUS - 1;
        let n = 1u64 << (log_n as u64);
        proof {
            lemma_shift_is_pow2(log_n as nat, n as nat);
        }
        let exponent = q_minus_1 / n;
        proof {
            lemma_root_exponents(log_n as nat, n as nat, exponent as nat);
        }
        let candidate_bases: [u64; 20] = [3u64, 5, 7, 11, 13, 17, 19, 23, 29, 31, 37, 41, 43, 47, 53, 59, 61, 67, 71, 73];
        let mut i: usize = 0;
        while i < 20
            invariant
                i <= 2,
                1 <= log_n <= 32,
                exponent == (q() - 1) / (n as int),
                n == pow2(log_n as nat),
                n >= 2,
                exponent as int * n == q() - 1,
                n % 2 == 0,
                candidate_bases@ == seq![3u64, 5, 7, 11, 13, 17, 19, 23, 29, 31, 37, 41, 43, 47, 53, 59, 61, 67, 71, 73],
            decreases 20 - i,
        {
            let base = candidate_bases[i];
            let omega = Self(base).pow(exponent);
            proof {
                lemma_candidate(base as nat, exponent as nat, n as nat);
            }
            if !omega.is_one() {
                let omega_half = omega.pow(n / 2);
                if !omega_half.is_one() {
                    if omega.pow(n).is_one() {
                        proof {
                            lemma_pow2_unfold(log_n as nat);
                        }
                        return omega;
                    }
                }
            }
            i = i + 1;
        }
        proof {
            assert(false);
        }
        Self::zero()
    }
}

/// Reading back what `serialize_with_mode` wrote gives the element back,
/// whatever bytes follow it.
pub proof fn lemma_element_bytes_roundtrip(x: Fp128Element, rest: Seq<u8>)
    ensures
        (spec_u64_to_le_bytes(x.0) + rest).len() >= 8,
        spec_u64_from_le_bytes((spec_u64_to_le_bytes(x.0) + rest).subrange(0, 8)) == x.0,
{
    lemma_auto_spec_u64_to_from_le_bytes();
    assert((spec_u64_to_le_bytes(x.0) + rest).subrange(0, 8) =~= spec_u64_to_le_bytes(x.0));
}

/// Two elements are equal when their stored words are.
impl PartialEq for Fp128Element {
    fn eq(&self, other: &Self) -> (r: bool) {
        self.0 == other.0
    }
}

impl vstd::std_specs::cmp::PartialEqSpecImpl for Fp128Element {
    open spec fn obeys_eq_spec() -> bool {
        true
    }

    open spec fn eq_spec(&self, other: &Self) -> bool {
        self.0 == other.0
    }
}

impl std::ops::Add for Fp128Element {
    type Output = Self;

    fn add(self, rhs: Self) -> (r: Self) {
        Fp128Element::add(&self, &rhs)
    }
}

impl vstd::std_specs::ops::AddSpecImpl for Fp128Element {
    open spec fn obeys_add_spec() -> bool {
        true
    }

    open spec fn add_req(self, rhs: Self) -> bool {
        true
    }

    open spec fn add_spec(self, rhs: Self) -> Self {
        Fp128Element(add_word(self.0 as int, rhs.0 as int) as u64)
    }
}

impl std::ops::Sub for Fp128Element {
    type Output = Self;

    fn sub(self, rhs: Self) -> (r: Self) {
        Fp128Element::sub(&self, &rhs)
    }
}

impl vstd::std_specs::ops::SubSpecImpl for Fp128Element {
    open spec fn obeys_sub_spec() -> bool {
        true
    }

    open spec fn sub_req(self, rhs: Self) -> bool {
        rhs.0 <= self.0 + q()
    }

    open spec fn sub_spec(self, rhs: Self) -> Self {
        Fp128Element(sub_word(self.0 as int, rhs.0 as int) as u64)
    }
}

impl std::ops::Mul for Fp128Element {
    type Output = Self;

    fn mul(self, rhs: Self) -> (r: Self) {
        Fp128Element::mul(&self, &rhs)
    }
}

impl vstd::std_specs::ops::MulSpecImpl for Fp128Element {
    open spec fn obeys_mul_spec() -> bool {
        true
    }

    open spec fn mul_req(self, rhs: Self) -> bool {
        true
    }

    open spec fn mul_spec(self, rhs: Self) -> Self {
        Fp128Element(fmul(self.0 as int, rhs.0 as int) as u64)
    }
}

impl std::ops::Neg for Fp128Element {
    type Output = Self;

    fn neg(self) -> (r: Self) {
        Fp128Element::neg(&self)
    }
}

impl vstd::std_specs::ops::NegSpecImpl for Fp128Element {
    open spec fn obeys_neg_spec() -> bool {
        true
    }

    open spec fn neg_req(self) -> bool {
        self.0 <= q()
    }

    open spec fn neg_spec(self) -> Self {
        Fp128Element(neg_word(self.0 as int) as u64)
    }
}

impl From<u64> for Fp128Element {
    fn from(val: u64) -> (r: Self) {
        Self::from_raw(val)
    }
}

impl vstd::std_specs::convert::FromSpecImpl<u64> for Fp128Element {
    open spec fn obeys_from_spec() -> bool {
        true
    }

    open spec fn from_spec(v: u64) -> Self {
        Fp128Element(v % MODULUS)
    }
}

impl From<u32> for Fp128Element {
    fn from(val: u32) -> (r: Self) {
        Self(val as u64)
    }
}

impl vstd::std_specs::convert::FromSpecImpl<u32> for Fp128Element {
    open spec fn obeys_from_spec() -> bool {
        true
    }

    open spec fn from_spec(v: u32) -> Self {
        Fp128Element(v as u64)
    }
}

impl Default for Fp128Element {
    fn default() -> (r: Self)
        ensures
            r.0 == 0,
    {
        Self(0)
    }
}

/// Constructors of field elements, gathered in one namespace.
#[derive(Clone, Copy, Debug)]
pub struct Fp128Field;

impl Fp128Field {
    pub fn new() -> (r: Self) {
        Self
    }

    pub fn zero() -> (r: Fp128Element)
        ensures
            r.0 == 0,
    {
        Fp128Element::zero()
    }

    pub fn one() -> (r: Fp128Element)
        ensures
            r.0 == 1,
    {
        Fp128Element::one()
    }

    pub fn from_u64(val: u64) -> (r: Fp128Element)
        ensures
            r.0 == val % MODULUS,
    {
        Fp128Element::from_raw(val)
    }

    pub fn from_i64(val: i64) -> (r: Fp128Element)
        requires
            val > i64::MIN,
        ensures
            r.0 == (val as int) % q(),
    {
        Fp128Element::from_i64(val)
    }
}

/// For `0 <= x < 2m`, reducing once gives `x mod m`.
pub proof fn lemma_reduce_once(x: int, m: int)
    requires
        m > 0,
        0 <= x < 2 * m,
    ensures
        x % m == if x >= m { x - m } else { x },
{
    if x >= m {
        lemma_mod_sub_multiples_vanish(x, m);
        lemma_small_mod((x - m) as nat, m as nat);
    } else {
        lemma_small_mod(x as nat, m as nat);
    }
}

/// One step of square-and-multiply keeps `result * base^exp` fixed modulo q.
proof fn lemma_square_and_multiply_step(r: int, b: int, e: nat, odd: bool)
    requires
        0 <= r,
        0 <= b,
        e > 0,
        odd == (e % 2 == 1),
    ensures
        ((if odd { fmul(r, b) } else { r }) * pow(fmul(b, b), e / 2)) % q()
            == (r * pow(b, e)) % q(),
{
    let h = (e / 2) as nat;
    let bb = fmul(b, b);
    // pow(b*b mod q, h) == pow(b, 2h) mod q
    lemma_pow_mod_noop(b * b, h, q());
    lemma_square_is_pow2(b);
    lemma_pow_multiplies(b, 2, h);
    assert(pow(bb, h) % q() == pow(b, 2 * h) % q());
    if odd {
        assert(e == 2 * h + 1);
        let rb = fmul(r, b);
        let x = pow(bb, h);
        let y = pow(b, 2 * h);
        lemma_pow_adds(b, 2 * h, 1);
        lemma_pow1(b);
        assert(pow(b, e) == y * b);
        lemma_mod_twice(r * b, q());
        lemma_mul_mod_noop(rb, x, q());
        assert((rb * x) % q() == (rb * (y % q())) % q());
        lemma_mul_mod_noop(r * b, y, q());
        assert((rb * x) % q() == ((r * b) * y) % q());
        lemma_mul_is_associative(r, b, y);
        lemma_mul_is_commutative(b, y);
        assert((r * b) * y == r * pow(b, e));
    } else {
        assert(e == 2 * h);
        lemma_mul_mod_noop_right(r, pow(bb, h), q());
        lemma_mul_mod_noop_right(r, pow(b, 2 * h), q());
    }
}

/// `1 << log_n` is `2^log_n`, and positive.
proof fn lemma_shift_is_pow2(log_n: nat, n: nat)
    requires
        log_n < 64,
        n == 1u64 << log_n,
    ensures
        n == pow2(log_n),
        n > 0,
{
    lemma_u64_pow2_no_overflow(log_n);
    lemma_u64_shl_is_mul(1, log_n as u64);
}

/// Facts about `n = 2^log_n` and `(q-1)/n` for `1 <= log_n <= 32`.
proof fn lemma_root_exponents(log_n: nat, n: nat, exponent: nat)
    requires
        1 <= log_n <= 32,
        n == 1u64 << log_n,
        exponent == (q() - 1) / (n as int),
    ensures
        n == pow2(log_n),
        exponent * n == q() - 1,
        n % 2 == 0,
        n >= 2,
{
    lemma_u64_pow2_no_overflow(log_n);
    lemma_u64_shl_is_mul(1, log_n as u64);
    lemma2_to64();
    let rest = (32 - log_n) as nat;
    lemma_pow2_adds(log_n, rest);
    assert(log_n + rest == 32);
    assert(q() - 1 == pow2(32) * 4294967295);
    let k: int = pow2(rest) as int * 4294967295;
    lemma_mul_is_associative(pow2(log_n) as int, pow2(rest) as int, 4294967295);
    assert(q() - 1 == (n as int) * k);
    lemma_pow2_pos(log_n);
    lemma_div_multiples_vanish(k, n as int);
    lemma_mul_is_commutative(k, n as int);
    lemma_pow2_unfold(log_n);
    lemma_pow2_pos((log_n - 1) as nat);
}

/// What the search learns from candidate `base`: bases 3 and 5 are rejected,
/// and base 7 passes every test.
proof fn lemma_candidate(base: nat, exponent: nat, n: nat)
    requires
        exponent * n == q() - 1,
        n % 2 == 0,
        n >= 2,
    ensures
        (base == 3 || base == 5) ==> (fpow(base as int, exponent) == 1 || fpow(fpow(base as int, exponent), n / 2) == 1),
        base == 7 ==> fpow(base as int, exponent) != 1
            && fpow(fpow(base as int, exponent), n / 2) == q() - 1
            && fpow(fpow(base as int, exponent), n) == 1,
{
    let b = base as int;
    let h = (n / 2) as nat;
    let half = ((q() - 1) / 2) as nat;
    assert(n == 2 * h);
    lemma_mul_is_associative(exponent as int, 2, h as int);
    lemma_mul_is_commutative(exponent as int, 2);
    lemma_mul_is_associative(2, exponent as int, h as int);
    assert(exponent * h == half);
    lemma_pow_mod_noop(pow(b, exponent), h, q());
    lemma_pow_multiplies(b, exponent, h);
    lemma_pow_mod_noop(pow(b, exponent), n, q());
    lemma_pow_multiplies(b, exponent, n);
    assert(fpow(fpow(b, exponent), h) == pow(b, half) % q());
    assert(fpow(fpow(b, exponent), n) == pow(b, (q() - 1) as nat) % q());
    lemma_pow_mod_is_pow(base, half, q() as nat);
    lemma_pow_mod_is_pow(base, (q() - 1) as nat, q() as nat);
    if base == 3 {
        lemma_pow_three_half();
    }
    if base == 5 {
        lemma_pow_five_half();
    }
    if base == 7 {
        lemma_pow_seven_half();
        lemma_pow_seven_full();
        if fpow(b, exponent) == 1 {
            lemma1_pow(h);
            lemma_small_mod(1, q() as nat);
        }
    }
}

/// The prime field as the coefficient field of lattice polynomials.
impl LatticeField for Fp128Element {
    open spec fn lat_zero() -> Self {
        Fp128Element(0)
    }

    open spec fn lat_one() -> Self {
        Fp128Element(1)
    }

    open spec fn lat_add(a: Self, b: Self) -> Self {
        Fp128Element(add_word(a.0 as int, b.0 as int) as u64)
    }

    open spec fn lat_sub(a: Self, b: Self) -> Self {
        Fp128Element(sub_word(a.0 as int, b.0 as int) as u64)
    }

    open spec fn lat_mul(a: Self, b: Self) -> Self {
        Fp128Element(fmul(a.0 as int, b.0 as int) as u64)
    }

    open spec fn lat_inv(a: Self) -> Option<Self> {
        if a.0 == 0 {
            None
        } else {
            Some(Fp128Element(fpow(a.0 as int, (q() - 2) as nat) as u64))
        }
    }

    open spec fn lat_from_u64(v: u64) -> Self {
        Fp128Element(v % MODULUS)
    }

    open spec fn lat_from_i64(v: i64) -> Self {
        Fp128Element(((v as int) % q()) as u64)
    }

    open spec fn lat_sub_req(a: Self, b: Self) -> bool {
        b.0 <= a.0 + q()
    }

    open spec fn lat_from_i64_req(v: i64) -> bool {
        v > i64::MIN
    }

    fn zero() -> (r: Self) {
        Fp128Element::zero()
    }

    fn one() -> (r: Self) {
        Fp128Element::one()
    }

    fn is_zero(&self) -> (b: bool) {
        Fp128Element::is_zero(self)
    }

    fn add(&self, rhs: &Self) -> (r: Self) {
        Fp128Element::add(self, rhs)
    }

    fn sub(&self, rhs: &Self) -> (r: Self) {
        Fp128Element::sub(self, rhs)
    }

    fn mul(&self, rhs: &Self) -> (r: Self) {
        Fp128Element::mul(self, rhs)
    }

    fn inv(self) -> (r: Option<Self>) {
        Fp128Element::inv(&self)
    }

    /// Always the element 42.
    fn random() -> (r: Self)
        ensures
            r.0 == 42,
    {
        Fp128Element::from_raw(42)
    }

    fn from_u64(val: u64) -> (r: Self) {
        Fp128Element::from_raw(val)
    }

    fn from_i64(val: i64) -> (r: Self) {
        Fp128Element::from_i64(val)
    }
}

} // verus!

