//! The multiplicative group of the prime field is cyclic, generated by 7, so
//! every nonzero element `a` satisfies `a^(q-1) = 1` (Fermat) and `inv`
//! really inverts.
//!
//! The proof: `7^(q-1) = 1` while `7^((q-1)/p) != 1` for each prime `p` of
//! `q - 1 = 2^32 · 3 · 5 · 17 · 257 · 65537`, so 7 has order `q - 1`; its
//! `q - 1` distinct powers then fill all `q - 1` nonzero residues.
use vstd::prelude::*;
use vstd::arithmetic::power::{pow, lemma_pow_multiplies, lemma_pow_mod_noop, lemma1_pow, lemma_pow_adds};
use vstd::arithmetic::div_mod::{lemma_fundamental_div_mod, lemma_mod_multiples_basic, lemma_fundamental_div_mod_converse, lemma_small_mod, lemma_mul_mod_noop, lemma_mod_twice};
use vstd::set_lib::{set_int_range, lemma_int_range, lemma_map_size, lemma_subset_equality};
use vstd::relations::injective_on;
use crate::fp128::{q, fpow, fmul};
use crate::fp128_facts::{
    lemma_pow_mod_is_pow, lemma_pow_seven_half, lemma_pow_seven_full, lemma_pow_seven_over_3,
    lemma_pow_seven_over_5, lemma_pow_seven_over_17, lemma_pow_seven_over_257, lemma_pow_seven_over_65537,
};
use crate::fp128_laws::lemma_pow_adds_mod;

verus! {

/// Greatest common divisor, by Euclid's algorithm.
pub open spec fn gcd(a: nat, b: nat) -> nat
    decreases b,
{
    if b == 0 {
        a
    } else {
        gcd(b, a % b)
    }
}

/// `p` is prime.
pub open spec fn is_prime(p: int) -> bool {
    &&& p > 1
    &&& forall|d: int| 1 < d < p ==> #[trigger] (p % d) != 0
}

/// Multiples of `g` are closed under scaling.
proof fn lemma_mod0_mul(g: int, x: int, k: int)
    requires
        g > 0,
        x % g == 0,
    ensures
        (x * k) % g == 0,
{
    lemma_fundamental_div_mod(x, g);
    let t = x / g;
    assert(x * k == (t * k) * g) by (nonlinear_arith)
        requires
            x == g * t,
    ;
    lemma_mod_multiples_basic(t * k, g);
}

/// Multiples of `g` are closed under sums and differences.
proof fn lemma_mod0_add(g: int, x: int, y: int)
    requires
        g > 0,
        x % g == 0,
        y % g == 0,
    ensures
        (x + y) % g == 0,
        (x - y) % g == 0,
{
    lemma_fundamental_div_mod(x, g);
    lemma_fundamental_div_mod(y, g);
    let a = x / g;
    let b = y / g;
    assert(x + y == (a + b) * g) by (nonlinear_arith)
        requires
            x == g * a,
            y == g * b,
    ;
    assert(x - y == (a - b) * g) by (nonlinear_arith)
        requires
            x == g * a,
            y == g * b,
    ;
    lemma_mod_multiples_basic(a + b, g);
    lemma_mod_multiples_basic(a - b, g);
}

/// The gcd is a positive common divisor.
proof fn lemma_gcd_divides(a: nat, b: nat)
    requires
        a > 0 || b > 0,
    ensures
        gcd(a, b) > 0,
        (a as int) % (gcd(a, b) as int) == 0,
        (b as int) % (gcd(a, b) as int) == 0,
    decreases b,
{
    if b == 0 {
        lemma_mod_multiples_basic(1, a as int);
    } else {
        let r = a % b;
        lemma_gcd_divides(b, r);
        let g = gcd(b, r) as int;
        lemma_fundamental_div_mod(a as int, b as int);
        lemma_mod0_mul(g, b as int, (a / b) as int);
        lemma_mod0_add(g, (b * (a / b)) as int, r as int);
    }
}

/// Every common divisor divides the gcd.
proof fn lemma_gcd_greatest(a: nat, b: nat, c: int)
    requires
        c > 0,
        (a as int) % c == 0,
        (b as int) % c == 0,
    ensures
        (gcd(a, b) as int) % c == 0,
    decreases b,
{
    if b > 0 {
        let r = a % b;
        lemma_fundamental_div_mod(a as int, b as int);
        lemma_mod0_mul(c, b as int, (a / b) as int);
        lemma_mod0_add(c, a as int, (b * (a / b)) as int);
        assert(r == a - b * (a / b));
        lemma_gcd_greatest(b, r, c);
    }
}

/// `gcd(a·c, b·c) = c·gcd(a, b)`.
proof fn lemma_gcd_scale(a: nat, b: nat, c: nat)
    requires
        c > 0,
    ensures
        gcd(a * c, b * c) == c * gcd(a, b),
    decreases b,
{
    if b == 0 {
        assert(b * c == 0);
        assert(a * c == c * a) by (nonlinear_arith);
    } else {
        let qq = a / b;
        let r = a % b;
        lemma_fundamental_div_mod(a as int, b as int);
        assert(b * c > 0) by (nonlinear_arith)
            requires
                b > 0,
                c > 0,
        ;
        assert(a * c == qq * (b * c) + r * c && 0 <= r * c < b * c) by (nonlinear_arith)
            requires
                a == b * qq + r,
                0 <= r < b,
                c > 0,
        ;
        lemma_fundamental_div_mod_converse((a * c) as int, (b * c) as int, qq as int, (r * c) as int);
        lemma_gcd_scale(b, r, c);
        assert(gcd(a * c, b * c) == gcd(b * c, r * c));
    }
}

/// The only positive divisors of a prime are 1 and itself.
proof fn lemma_prime_divisor(p: int, d: int)
    requires
        is_prime(p),
        d > 0,
        p % d == 0,
    ensures
        d == 1 || d == p,
{
    lemma_fundamental_div_mod(p, d);
    let e = p / d;
    assert(e >= 1 ==> d <= p) by (nonlinear_arith)
        requires
            p == d * e,
            d > 0,
    ;
    assert(e >= 1) by (nonlinear_arith)
        requires
            p == d * e,
            d > 0,
            p > 1,
    ;
    if 1 < d < p {
        assert(p % d != 0);
    }
}

/// Euclid's lemma in the form used here: if a prime `p` does not divide `k`
/// and `k` divides `p·y`, then `k` divides `y`.
proof fn lemma_prime_cancel(p: int, k: int, y: int)
    requires
        is_prime(p),
        k > 0,
        k % p != 0,
        y >= 0,
        (p * y) % k == 0,
    ensures
        y % k == 0,
{
    if y == 0 {
        assert(y % k == 0);
    } else {
        lemma_gcd_divides(k as nat, p as nat);
        let g = gcd(k as nat, p as nat) as int;
        lemma_prime_divisor(p, g);
        if g == p {
            assert(k % p == 0);
        }
        assert(g == 1);
        lemma_gcd_scale(k as nat, p as nat, y as nat);
        assert(gcd((k * y) as nat, (p * y) as nat) == y * 1);
        lemma_mod_multiples_basic(y, k);
        assert((k * y) % k == 0) by (nonlinear_arith)
            requires
                (y * k) % k == 0,
        ;
        assert(k * y >= 0 && p * y >= 0) by (nonlinear_arith)
            requires
                k > 0,
                p > 1,
                y >= 0,
        ;
        lemma_gcd_greatest((k * y) as nat, (p * y) as nat, k);
    }
}

/// A number with no divisor in `[2, b]`, where `(b + 1)^2 > p`, is prime.
proof fn lemma_prime_by_small_divisors(p: int, b: int)
    requires
        p > 1,
        b >= 1,
        (b + 1) * (b + 1) > p,
        forall|d: int| 2 <= d <= b ==> #[trigger] (p % d) != 0,
    ensures
        is_prime(p),
{
    assert forall|d: int| 1 < d < p implies #[trigger] (p % d) != 0 by {
        if p % d == 0 {
            lemma_fundamental_div_mod(p, d);
            let e = p / d;
            assert(e >= 2) by (nonlinear_arith)
                requires
                    p == d * e,
                    1 < d < p,
            ;
            lemma_mod_multiples_basic(d, e);
            assert(p % e == 0) by (nonlinear_arith)
                requires
                    p == d * e,
                    (d * e) % e == 0,
            ;
            if d > b {
                assert(d * e >= (b + 1) * e) by (nonlinear_arith)
                    requires
                        d >= b + 1,
                        e >= 2,
                ;
                if e > b {
                    assert((b + 1) * e >= (b + 1) * (b + 1)) by (nonlinear_arith)
                        requires
                            e >= b + 1,
                            b >= 1,
                    ;
                }
                assert(p % e != 0);
            }
        }
    }
}

/// No integer in `[2, 2]` divides 5.
proof fn lemma_no_small_divisor_5()
    ensures
        forall|d: int| 2 <= d <= 2 ==> #[trigger] (5int % d) != 0,
{
    assert forall|d: int| 2 <= d <= 2 implies #[trigger] (5int % d) != 0 by {
        if d == 2 {
            assert(5int % 2int == 1);
        }
    }
}

/// No integer in `[2, 4]` divides 17.
proof fn lemma_no_small_divisor_17()
    ensures
        forall|d: int| 2 <= d <= 4 ==> #[trigger] (17int % d) != 0,
{
    assert forall|d: int| 2 <= d <= 4 implies #[trigger] (17int % d) != 0 by {
        if d == 2 {
            assert(17int % 2int == 1);
        } else if d == 3 {
            assert(17int % 3int == 2);
        } else if d == 4 {
            assert(17int % 4int == 1);
        }
    }
}

/// No integer in `[2, 16]` divides 257.
proof fn lemma_no_small_divisor_257()
    ensures
        forall|d: int| 2 <= d <= 16 ==> #[trigger] (257int % d) != 0,
{
    assert forall|d: int| 2 <= d <= 16 implies #[trigger] (257int % d) != 0 by {
        if d == 2 {
            assert(257int % 2int == 1);
        } else if d == 3 {
            assert(257int % 3int == 2);
        } else if d == 4 {
            assert(257int % 4int == 1);
        } else if d == 5 {
            assert(257int % 5int == 2);
        } else if d == 6 {
            assert(257int % 6int == 5);
        } else if d == 7 {
            assert(257int % 7int == 5);
        } else if d == 8 {
            assert(257int % 8int == 1);
        } else if d == 9 {
            assert(257int % 9int == 5);
        } else if d == 10 {
            assert(257int % 10int == 7);
        } else if d == 11 {
            assert(257int % 11int == 4);
        } else if d == 12 {
            assert(257int % 12int == 5);
        } else if d == 13 {
            assert(257int % 13int == 10);
        } else if d == 14 {
            assert(257int % 14int == 5);
        } else if d == 15 {
            assert(257int % 15int == 2);
        } else if d == 16 {
            assert(257int % 16int == 1);
        }
    }
}

/// No integer in `[2, 256]` divides 65537.
proof fn lemma_no_small_divisor_65537()
    ensures
        forall|d: int| 2 <= d <= 256 ==> #[trigger] (65537int % d) != 0,
{
    assert forall|d: int| 2 <= d <= 256 implies #[trigger] (65537int % d) != 0 by {
        if d == 2 {
            assert(65537int % 2int == 1);
        } else if d == 3 {
            assert(65537int % 3int == 2);
        } else if d == 4 {
            assert(65537int % 4int == 1);
        } else if d == 5 {
            assert(65537int % 5int == 2);
        } else if d == 6 {
            assert(65537int % 6int == 5);
        } else if d == 7 {
            assert(65537int % 7int == 3);
        } else if d == 8 {
            assert(65537int % 8int == 1);
        } else if d == 9 {
            assert(65537int % 9int == 8);
        } else if d == 10 {
            assert(65537int % 10int == 7);
        } else if d == 11 {
            assert(65537int % 11int == 10);
        } else if d == 12 {
            assert(65537int % 12int == 5);
        } else if d == 13 {
            assert(65537int % 13int == 4);
        } else if d == 14 {
            assert(65537int % 14int == 3);
        } else if d == 15 {
            assert(65537int % 15int == 2);
        } else if d == 16 {
            assert(65537int % 16int == 1);
        } else if d == 17 {
            assert(65537int % 17int == 2);
        } else if d == 18 {
            assert(65537int % 18int == 17);
        } else if d == 19 {
            assert(65537int % 19int == 6);
        } else if d == 20 {
            assert(65537int % 20int == 17);
        } else if d == 21 {
            assert(65537int % 21int == 17);
        } else if d == 22 {
            assert(65537int % 22int == 21);
        } else if d == 23 {
            assert(65537int % 23int == 10);
        } else if d == 24 {
            assert(65537int % 24int == 17);
        } else if d == 25 {
            assert(65537int % 25int == 12);
        } else if d == 26 {
            assert(65537int % 26int == 17);
        } else if d == 27 {
            assert(65537int % 27int == 8);
        } else if d == 28 {
            assert(65537int % 28int == 17);
        } else if d == 29 {
            assert(65537int % 29int == 26);
        } else if d == 30 {
            assert(65537int % 30int == 17);
        } else if d == 31 {
            assert(65537int % 31int == 3);
        } else if d == 32 {
            assert(65537int % 32int == 1);
        } else if d == 33 {
            assert(65537int % 33int == 32);
        } else if d == 34 {
            assert(65537int % 34int == 19);
        } else if d == 35 {
            assert(65537int % 35int == 17);
        } else if d == 36 {
            assert(65537int % 36int == 17);
        } else if d == 37 {
            assert(65537int % 37int == 10);
        } else if d == 38 {
            assert(65537int % 38int == 25);
        } else if d == 39 {
            assert(65537int % 39int == 17);
        } else if d == 40 {
            assert(65537int % 40int == 17);
        } else if d == 41 {
            assert(65537int % 41int == 19);
        } else if d == 42 {
            assert(65537int % 42int == 17);
        } else if d == 43 {
            assert(65537int % 43int == 5);
        } else if d == 44 {
            assert(65537int % 44int == 21);
        } else if d == 45 {
            assert(65537int % 45int == 17);
        } else if d == 46 {
            assert(65537int % 46int == 33);
        } else if d == 47 {
            assert(65537int % 47int == 19);
        } else if d == 48 {
            assert(65537int % 48int == 17);
        } else if d == 49 {
            assert(65537int % 49int == 24);
        } else if d == 50 {
            assert(65537int % 50int == 37);
        } else if d == 51 {
            assert(65537int % 51int == 2);
        } else if d == 52 {
            assert(65537int % 52int == 17);
        } else if d == 53 {
            assert(65537int % 53int == 29);
        } else if d == 54 {
            assert(65537int % 54int == 35);
        } else if d == 55 {
            assert(65537int % 55int == 32);
        } else if d == 56 {
            assert(65537int % 56int == 17);
        } else if d == 57 {
            assert(65537int % 57int == 44);
        } else if d == 58 {
            assert(65537int % 58int == 55);
        } else if d == 59 {
            assert(65537int % 59int == 47);
        } else if d == 60 {
            assert(65537int % 60int == 17);
        } else if d == 61 {
            assert(65537int % 61int == 23);
        } else if d == 62 {
            assert(65537int % 62int == 3);
        } else if d == 63 {
            assert(65537int % 63int == 17);
        } else if d == 64 {
            assert(65537int % 64int == 1);
        } else if d == 65 {
            assert(65537int % 65int == 17);
        } else if d == 66 {
            assert(65537int % 66int == 65);
        } else if d == 67 {
            assert(65537int % 67int == 11);
        } else if d == 68 {
            assert(65537int % 68int == 53);
        } else if d == 69 {
            assert(65537int % 69int == 56);
        } else if d == 70 {
            assert(65537int % 70int == 17);
        } else if d == 71 {
            assert(65537int % 71int == 4);
        } else if d == 72 {
            assert(65537int % 72int == 17);
        } else if d == 73 {
            assert(65537int % 73int == 56);
        } else if d == 74 {
            assert(65537int % 74int == 47);
        } else if d == 75 {
            assert(65537int % 75int == 62);
        } else if d == 76 {
            assert(65537int % 76int == 25);
        } else if d == 77 {
            assert(65537int % 77int == 10);
        } else if d == 78 {
            assert(65537int % 78int == 17);
        } else if d == 79 {
            assert(65537int % 79int == 46);
        } else if d == 80 {
            assert(65537int % 80int == 17);
        } else if d == 81 {
            assert(65537int % 81int == 8);
        } else if d == 82 {
            assert(65537int % 82int == 19);
        } else if d == 83 {
            assert(65537int % 83int == 50);
        } else if d == 84 {
            assert(65537int % 84int == 17);
        } else if d == 85 {
            assert(65537int % 85int == 2);
        } else if d == 86 {
            assert(65537int % 86int == 5);
        } else if d == 87 {
            assert(65537int % 87int == 26);
        } else if d == 88 {
            assert(65537int % 88int == 65);
        } else if d == 89 {
            assert(65537int % 89int == 33);
        } else if d == 90 {
            assert(65537int % 90int == 17);
        } else if d == 91 {
            assert(65537int % 91int == 17);
        } else if d == 92 {
            assert(65537int % 92int == 33);
        } else if d == 93 {
            assert(65537int % 93int == 65);
        } else if d == 94 {
            assert(65537int % 94int == 19);
        } else if d == 95 {
            assert(65537int % 95int == 82);
        } else if d == 96 {
            assert(65537int % 96int == 65);
        } else if d == 97 {
            assert(65537int % 97int == 62);
        } else if d == 98 {
            assert(65537int % 98int == 73);
        } else if d == 99 {
            assert(65537int % 99int == 98);
        } else if d == 100 {
            assert(65537int % 100int == 37);
        } else if d == 101 {
            assert(65537int % 101int == 89);
        } else if d == 102 {
            assert(65537int % 102int == 53);
        } else if d == 103 {
            assert(65537int % 103int == 29);
        } else if d == 104 {
            assert(65537int % 104int == 17);
        } else if d == 105 {
            assert(65537int % 105int == 17);
        } else if d == 106 {
            assert(65537int % 106int == 29);
        } else if d == 107 {
            assert(65537int % 107int == 53);
        } else if d == 108 {
            assert(65537int % 108int == 89);
        } else if d == 109 {
            assert(65537int % 109int == 28);
        } else if d == 110 {
            assert(65537int % 110int == 87);
        } else if d == 111 {
            assert(65537int % 111int == 47);
        } else if d == 112 {
            assert(65537int % 112int == 17);
        } else if d == 113 {
            assert(65537int % 113int == 110);
        } else if d == 114 {
            assert(65537int % 114int == 101);
        } else if d == 115 {
            assert(65537int % 115int == 102);
        } else if d == 116 {
            assert(65537int % 116int == 113);
        } else if d == 117 {
            assert(65537int % 117int == 17);
        } else if d == 118 {
            assert(65537int % 118int == 47);
        } else if d == 119 {
            assert(65537int % 119int == 87);
        } else if d == 120 {
            assert(65537int % 120int == 17);
        } else if d == 121 {
            assert(65537int % 121int == 76);
        } else if d == 122 {
            assert(65537int % 122int == 23);
        } else if d == 123 {
            assert(65537int % 123int == 101);
        } else if d == 124 {
            assert(65537int % 124int == 65);
        } else if d == 125 {
            assert(65537int % 125int == 37);
        } else if d == 126 {
            assert(65537int % 126int == 17);
        } else if d == 127 {
            assert(65537int % 127int == 5);
        } else if d == 128 {
            assert(65537int % 128int == 1);
        } else if d == 129 {
            assert(65537int % 129int == 5);
        } else if d == 130 {
            assert(65537int % 130int == 17);
        } else if d == 131 {
            assert(65537int % 131int == 37);
        } else if d == 132 {
            assert(65537int % 132int == 65);
        } else if d == 133 {
            assert(65537int % 133int == 101);
        } else if d == 134 {
            assert(65537int % 134int == 11);
        } else if d == 135 {
            assert(65537int % 135int == 62);
        } else if d == 136 {
            assert(65537int % 136int == 121);
        } else if d == 137 {
            assert(65537int % 137int == 51);
        } else if d == 138 {
            assert(65537int % 138int == 125);
        } else if d == 139 {
            assert(65537int % 139int == 68);
        } else if d == 140 {
            assert(65537int % 140int == 17);
        } else if d == 141 {
            assert(65537int % 141int == 113);
        } else if d == 142 {
            assert(65537int % 142int == 75);
        } else if d == 143 {
            assert(65537int % 143int == 43);
        } else if d == 144 {
            assert(65537int % 144int == 17);
        } else if d == 145 {
            assert(65537int % 145int == 142);
        } else if d == 146 {
            assert(65537int % 146int == 129);
        } else if d == 147 {
            assert(65537int % 147int == 122);
        } else if d == 148 {
            assert(65537int % 148int == 121);
        } else if d == 149 {
            assert(65537int % 149int == 126);
        } else if d == 150 {
            assert(65537int % 150int == 137);
        } else if d == 151 {
            assert(65537int % 151int == 3);
        } else if d == 152 {
            assert(65537int % 152int == 25);
        } else if d == 153 {
            assert(65537int % 153int == 53);
        } else if d == 154 {
            assert(65537int % 154int == 87);
        } else if d == 155 {
            assert(65537int % 155int == 127);
        } else if d == 156 {
            assert(65537int % 156int == 17);
        } else if d == 157 {
            assert(65537int % 157int == 68);
        } else if d == 158 {
            assert(65537int % 158int == 125);
        } else if d == 159 {
            assert(65537int % 159int == 29);
        } else if d == 160 {
            assert(65537int % 160int == 97);
        } else if d == 161 {
            assert(65537int % 161int == 10);
        } else if d == 162 {
            assert(65537int % 162int == 89);
        } else if d == 163 {
            assert(65537int % 163int == 11);
        } else if d == 164 {
            assert(65537int % 164int == 101);
        } else if d == 165 {
            assert(65537int % 165int == 32);
        } else if d == 166 {
            assert(65537int % 166int == 133);
        } else if d == 167 {
            assert(65537int % 167int == 73);
        } else if d == 168 {
            assert(65537int % 168int == 17);
        } else if d == 169 {
            assert(65537int % 169int == 134);
        } else if d == 170 {
            assert(65537int % 170int == 87);
        } else if d == 171 {
            assert(65537int % 171int == 44);
        } else if d == 172 {
            assert(65537int % 172int == 5);
        } else if d == 173 {
            assert(65537int % 173int == 143);
        } else if d == 174 {
            assert(65537int % 174int == 113);
        } else if d == 175 {
            assert(65537int % 175int == 87);
        } else if d == 176 {
            assert(65537int % 176int == 65);
        } else if d == 177 {
            assert(65537int % 177int == 47);
        } else if d == 178 {
            assert(65537int % 178int == 33);
        } else if d == 179 {
            assert(65537int % 179int == 23);
        } else if d == 180 {
            assert(65537int % 180int == 17);
        } else if d == 181 {
            assert(65537int % 181int == 15);
        } else if d == 182 {
            assert(65537int % 182int == 17);
        } else if d == 183 {
            assert(65537int % 183int == 23);
        } else if d == 184 {
            assert(65537int % 184int == 33);
        } else if d == 185 {
            assert(65537int % 185int == 47);
        } else if d == 186 {
            assert(65537int % 186int == 65);
        } else if d == 187 {
            assert(65537int % 187int == 87);
        } else if d == 188 {
            assert(65537int % 188int == 113);
        } else if d == 189 {
            assert(65537int % 189int == 143);
        } else if d == 190 {
            assert(65537int % 190int == 177);
        } else if d == 191 {
            assert(65537int % 191int == 24);
        } else if d == 192 {
            assert(65537int % 192int == 65);
        } else if d == 193 {
            assert(65537int % 193int == 110);
        } else if d == 194 {
            assert(65537int % 194int == 159);
        } else if d == 195 {
            assert(65537int % 195int == 17);
        } else if d == 196 {
            assert(65537int % 196int == 73);
        } else if d == 197 {
            assert(65537int % 197int == 133);
        } else if d == 198 {
            assert(65537int % 198int == 197);
        } else if d == 199 {
            assert(65537int % 199int == 66);
        } else if d == 200 {
            assert(65537int % 200int == 137);
        } else if d == 201 {
            assert(65537int % 201int == 11);
        } else if d == 202 {
            assert(65537int % 202int == 89);
        } else if d == 203 {
            assert(65537int % 203int == 171);
        } else if d == 204 {
            assert(65537int % 204int == 53);
        } else if d == 205 {
            assert(65537int % 205int == 142);
        } else if d == 206 {
            assert(65537int % 206int == 29);
        } else if d == 207 {
            assert(65537int % 207int == 125);
        } else if d == 208 {
            assert(65537int % 208int == 17);
        } else if d == 209 {
            assert(65537int % 209int == 120);
        } else if d == 210 {
            assert(65537int % 210int == 17);
        } else if d == 211 {
            assert(65537int % 211int == 127);
        } else if d == 212 {
            assert(65537int % 212int == 29);
        } else if d == 213 {
            assert(65537int % 213int == 146);
        } else if d == 214 {
            assert(65537int % 214int == 53);
        } else if d == 215 {
            assert(65537int % 215int == 177);
        } else if d == 216 {
            assert(65537int % 216int == 89);
        } else if d == 217 {
            assert(65537int % 217int == 3);
        } else if d == 218 {
            assert(65537int % 218int == 137);
        } else if d == 219 {
            assert(65537int % 219int == 56);
        } else if d == 220 {
            assert(65537int % 220int == 197);
        } else if d == 221 {
            assert(65537int % 221int == 121);
        } else if d == 222 {
            assert(65537int % 222int == 47);
        } else if d == 223 {
            assert(65537int % 223int == 198);
        } else if d == 224 {
            assert(65537int % 224int == 129);
        } else if d == 225 {
            assert(65537int % 225int == 62);
        } else if d == 226 {
            assert(65537int % 226int == 223);
        } else if d == 227 {
            assert(65537int % 227int == 161);
        } else if d == 228 {
            assert(65537int % 228int == 101);
        } else if d == 229 {
            assert(65537int % 229int == 43);
        } else if d == 230 {
            assert(65537int % 230int == 217);
        } else if d == 231 {
            assert(65537int % 231int == 164);
        } else if d == 232 {
            assert(65537int % 232int == 113);
        } else if d == 233 {
            assert(65537int % 233int == 64);
        } else if d == 234 {
            assert(65537int % 234int == 17);
        } else if d == 235 {
            assert(65537int % 235int == 207);
        } else if d == 236 {
            assert(65537int % 236int == 165);
        } else if d == 237 {
            assert(65537int % 237int == 125);
        } else if d == 238 {
            assert(65537int % 238int == 87);
        } else if d == 239 {
            assert(65537int % 239int == 51);
        } else if d == 240 {
            assert(65537int % 240int == 17);
        } else if d == 241 {
            assert(65537int % 241int == 226);
        } else if d == 242 {
            assert(65537int % 242int == 197);
        } else if d == 243 {
            assert(65537int % 243int == 170);
        } else if d == 244 {
            assert(65537int % 244int == 145);
        } else if d == 245 {
            assert(65537int % 245int == 122);
        } else if d == 246 {
            assert(65537int % 246int == 101);
        } else if d == 247 {
            assert(65537int % 247int == 82);
        } else if d == 248 {
            assert(65537int % 248int == 65);
        } else if d == 249 {
            assert(65537int % 249int == 50);
        } else if d == 250 {
            assert(65537int % 250int == 37);
        } else if d == 251 {
            assert(65537int % 251int == 26);
        } else if d == 252 {
            assert(65537int % 252int == 17);
        } else if d == 253 {
            assert(65537int % 253int == 10);
        } else if d == 254 {
            assert(65537int % 254int == 5);
        } else if d == 255 {
            assert(65537int % 255int == 2);
        } else if d == 256 {
            assert(65537int % 256int == 1);
        }
    }
}

/// The primes of `q - 1 = 2^32 · 3 · 5 · 17 · 257 · 65537`.
proof fn lemma_small_primes()
    ensures
        is_prime(2),
        is_prime(3),
        is_prime(5),
        is_prime(17),
        is_prime(257),
        is_prime(65537),
{
    assert forall|d: int| 1 < d < 2 implies #[trigger] (2int % d) != 0 by {}
    lemma_prime_by_small_divisors(3, 1);
    lemma_no_small_divisor_5();
    lemma_prime_by_small_divisors(5, 2);
    lemma_no_small_divisor_17();
    lemma_prime_by_small_divisors(17, 4);
    lemma_no_small_divisor_257();
    lemma_prime_by_small_divisors(257, 16);
    lemma_no_small_divisor_65537();
    lemma_prime_by_small_divisors(65537, 256);
}

/// A positive `k` dividing a power of two and not divisible by 2 is 1.
proof fn lemma_odd_divisor_of_power_of_two(k: int, j: nat)
    requires
        k > 0,
        k % 2 != 0,
        (vstd::arithmetic::power2::pow2(j) as int) % k == 0,
    ensures
        k == 1,
    decreases j,
{
    if j == 0 {
        vstd::arithmetic::power2::lemma2_to64();
        if k > 1 {
            lemma_small_mod(1, k as nat);
        }
    } else {
        vstd::arithmetic::power2::lemma_pow2_unfold(j);
        lemma_small_primes();
        lemma_prime_cancel(2, k, vstd::arithmetic::power2::pow2((j - 1) as nat) as int);
        lemma_odd_divisor_of_power_of_two(k, (j - 1) as nat);
    }
}

/// A divisor of `q - 1` divisible by none of its primes is 1.
proof fn lemma_cofactor_is_one(k: int)
    requires
        k > 0,
        18446744069414584320int % k == 0,
        k % 2 != 0,
        k % 3 != 0,
        k % 5 != 0,
        k % 17 != 0,
        k % 257 != 0,
        k % 65537 != 0,
    ensures
        k == 1,
{
    lemma_small_primes();
    assert(65537int * 281470681743360int == 18446744069414584320int);
    lemma_prime_cancel(65537, k, 281470681743360);
    assert(257int * 1095216660480int == 281470681743360int);
    lemma_prime_cancel(257, k, 1095216660480);
    assert(17int * 64424509440int == 1095216660480int);
    lemma_prime_cancel(17, k, 64424509440);
    assert(5int * 12884901888int == 64424509440int);
    lemma_prime_cancel(5, k, 12884901888);
    assert(3int * 4294967296int == 12884901888int);
    lemma_prime_cancel(3, k, 4294967296);
    vstd::arithmetic::power2::lemma2_to64();
    lemma_odd_divisor_of_power_of_two(k, 32);
}

/// `a^b = 1` implies `a^(b·k) = 1`.
proof fn lemma_fpow_one_multiple(a: int, b: nat, k: nat)
    requires
        fpow(a, b) == 1,
    ensures
        fpow(a, b * k) == 1,
{
    lemma_pow_multiplies(a, b, k);
    lemma_pow_mod_noop(pow(a, b), k, q());
    lemma1_pow(k);
    lemma_small_mod(1, q() as nat);
}

/// The exponents `e` with `7^e = 1` are closed under the gcd.
proof fn lemma_order_gcd(a: nat, b: nat)
    requires
        fpow(7, a) == 1,
        fpow(7, b) == 1,
    ensures
        fpow(7, gcd(a, b)) == 1,
    decreases b,
{
    if b > 0 {
        let k = a / b;
        let r = a % b;
        lemma_fundamental_div_mod(a as int, b as int);
        lemma_fpow_one_multiple(7, b, k);
        assert(a == b * k + r);
        lemma_pow_adds_mod(7, b * k, r);
        lemma_mod_twice(pow(7, r), q());
        assert(fpow(7, r) == 1);
        lemma_order_gcd(b, r);
    }
}

/// 7 has order `q - 1`: no smaller positive power of 7 is 1.
pub proof fn lemma_seven_order(m: nat)
    requires
        0 < m < q() - 1,
    ensures
        fpow(7, m) != 1,
{
    let n: nat = 18446744069414584320;
    if fpow(7, m) == 1 {
        lemma_pow_seven_full();
        lemma_pow_mod_is_pow(7, n, 18446744069414584321);
        assert(fpow(7, n) == 1);
        lemma_gcd_divides(m, n);
        let g = gcd(m, n);
        lemma_order_gcd(m, n);
        lemma_fundamental_div_mod(m as int, g as int);
        let mq = m as int / g as int;
        assert(g <= m) by (nonlinear_arith)
            requires
                m == g * mq + 0,
                g > 0,
                m > 0,
        ;
        lemma_fundamental_div_mod(n as int, g as int);
        let k = n as int / g as int;
        assert(n == g * k);
        assert(k >= 2) by (nonlinear_arith)
            requires
                n == g * k,
                0 < g < n,
        ;
        lemma_mod_multiples_basic(g as int, k);
        assert(n as int % k == 0) by (nonlinear_arith)
            requires
                n == g * k,
                (g * k) % k == 0,
        ;
        if k % 2 == 0 {
            lemma_pow_seven_half();
            lemma_seven_cofactor_power(g, k, 2, 9223372034707292160);
            lemma_pow_mod_is_pow(7, 9223372034707292160, 18446744069414584321);
        } else if k % 3 == 0 {
            lemma_pow_seven_over_3();
            lemma_seven_cofactor_power(g, k, 3, 6148914689804861440);
            lemma_pow_mod_is_pow(7, 6148914689804861440, 18446744069414584321);
        } else if k % 5 == 0 {
            lemma_pow_seven_over_5();
            lemma_seven_cofactor_power(g, k, 5, 3689348813882916864);
            lemma_pow_mod_is_pow(7, 3689348813882916864, 18446744069414584321);
        } else if k % 17 == 0 {
            lemma_pow_seven_over_17();
            lemma_seven_cofactor_power(g, k, 17, 1085102592318504960);
            lemma_pow_mod_is_pow(7, 1085102592318504960, 18446744069414584321);
        } else if k % 257 == 0 {
            lemma_pow_seven_over_257();
            lemma_seven_cofactor_power(g, k, 257, 71777214277877760);
            lemma_pow_mod_is_pow(7, 71777214277877760, 18446744069414584321);
        } else if k % 65537 == 0 {
            lemma_pow_seven_over_65537();
            lemma_seven_cofactor_power(g, k, 65537, 281470681743360);
            lemma_pow_mod_is_pow(7, 281470681743360, 18446744069414584321);
        } else {
            lemma_cofactor_is_one(k);
        }
    }
}

/// If `7^g = 1`, `g·k = q - 1` and `p` divides `k`, then `7^((q-1)/p) = 1`.
proof fn lemma_seven_cofactor_power(g: nat, k: int, p: int, e: nat)
    requires
        fpow(7, g) == 1,
        p > 0,
        k % p == 0,
        18446744069414584320 == g * k,
        e * p == 18446744069414584320,
    ensures
        fpow(7, e) == 1,
{
    lemma_fundamental_div_mod(k, p);
    let t = k / p;
    assert(k == p * t);
    assert(t >= 0) by (nonlinear_arith)
        requires
            k == p * t,
            p > 0,
            18446744069414584320 == g * k,
            g >= 0,
    ;
    assert(e == g * t) by (nonlinear_arith)
        requires
            k == p * t,
            p > 0,
            18446744069414584320 == g * k,
            e * p == 18446744069414584320,
    ;
    lemma_fpow_one_multiple(7, g, t as nat);
}

/// `7^(x + (q-1)) = 7^x`.
proof fn lemma_seven_period(x: nat)
    ensures
        fpow(7, x + 18446744069414584320nat) == fpow(7, x),
{
    let n: nat = 18446744069414584320;
    lemma_pow_seven_full();
    lemma_pow_mod_is_pow(7, n, 18446744069414584321);
    assert(fpow(7, n) == 1);
    lemma_pow_adds_mod(7, x, n);
    assert(fpow(7, x + n) == fmul(fpow(7, x), 1));
    lemma_mod_twice(pow(7, x), q());
    assert(fmul(fpow(7, x), 1) == fpow(7, x) % q());
}

/// The powers `7^0, ..., 7^(q-2)` are distinct.
proof fn lemma_seven_powers_distinct(i: nat, j: nat)
    requires
        i < j < q() - 1,
    ensures
        fpow(7, i) != fpow(7, j),
{
    let n: nat = 18446744069414584320;
    if fpow(7, i) == fpow(7, j) {
        let rest = (n - i) as nat;
        lemma_pow_adds_mod(7, j, rest);
        lemma_pow_adds_mod(7, i, rest);
        assert(i + rest == n);
        lemma_seven_period(0);
        lemma_pow_seven_full();
        lemma_pow_mod_is_pow(7, n, 18446744069414584321);
        assert(fpow(7, j + rest) == 1);
        let d = (j - i) as nat;
        assert(j + rest == d + n);
        lemma_seven_period(d);
        lemma_seven_order(d);
    }
}

/// No power of 7 is zero modulo q.
proof fn lemma_seven_powers_nonzero(i: nat)
    requires
        i < q() - 1,
    ensures
        fpow(7, i) != 0,
{
    let n: nat = 18446744069414584320;
    let rest = (n - i) as nat;
    lemma_pow_adds_mod(7, i, rest);
    lemma_pow_seven_full();
    lemma_pow_mod_is_pow(7, n, 18446744069414584321);
    assert(i + rest == n);
    if fpow(7, i) == 0 {
        assert(fmul(0, fpow(7, rest)) == 0);
    }
}

/// Every nonzero residue is a power of 7.
pub proof fn lemma_seven_generates(a: int)
    requires
        0 < a < q(),
    ensures
        exists|i: nat| i < q() - 1 && fpow(7, i) == a,
{
    let n: int = 18446744069414584320;
    let xs = set_int_range(0, n);
    let f = |i: int| fpow(7, i as nat);
    let ys = xs.map(f);
    lemma_int_range(0, n);
    assert forall|x1: int, x2: int| xs.contains(x1) && xs.contains(x2) && #[trigger] f(x1) == #[trigger] f(x2) implies x1 == x2 by {
        if x1 < x2 {
            lemma_seven_powers_distinct(x1 as nat, x2 as nat);
        } else if x2 < x1 {
            lemma_seven_powers_distinct(x2 as nat, x1 as nat);
        }
    }
    assert(injective_on(f, xs));
    lemma_map_size(xs, ys, f);
    let rs = set_int_range(1, q());
    lemma_int_range(1, q());
    assert forall|y: int| ys.contains(y) implies rs.contains(y) by {
        let x = choose|x: int| xs.contains(x) && y == f(x);
        lemma_seven_powers_nonzero(x as nat);
    }
    lemma_subset_equality(ys, rs);
    assert(rs.contains(a));
    assert(ys.contains(a));
    let x = choose|x: int| xs.contains(x) && a == f(x);
    assert(fpow(7, x as nat) == a);
}

/// Fermat's little theorem in the prime field: `a^(q-1) = 1` for every `a`
/// not divisible by q.
pub proof fn lemma_fermat(a: int)
    requires
        a % q() != 0,
    ensures
        fpow(a, (q() - 1) as nat) == 1,
{
    let n: nat = 18446744069414584320;
    let r = a % q();
    lemma_seven_generates(r);
    let i = choose|i: nat| i < q() - 1 && fpow(7, i) == r;
    lemma_pow_mod_noop(a, n, q());
    lemma_pow_mod_noop(pow(7, i), n, q());
    lemma_pow_multiplies(7, i, n);
    lemma_pow_multiplies(7, n, i);
    assert(i * n == n * i) by (nonlinear_arith);
    lemma_pow_seven_full();
    lemma_pow_mod_is_pow(7, n, 18446744069414584321);
    lemma_fpow_one_multiple(7, n, i);
}

/// The inverse computed by Fermat's little theorem, `a^(q-2)`, inverts `a`.
pub proof fn lemma_inverse(a: int)
    requires
        a % q() != 0,
    ensures
        fmul(a, fpow(a, (q() - 2) as nat)) == 1,
{
    lemma_fermat(a);
    lemma_mul_mod_noop(a, pow(a, (q() - 2) as nat), q());
    lemma_mod_twice(a, q());
    vstd::arithmetic::div_mod::lemma_mul_mod_noop_right(a, pow(a, (q() - 2) as nat), q());
    vstd::arithmetic::power::lemma_pow1(a);
    lemma_pow_adds(a, 1, (q() - 2) as nat);
    assert(1 + (q() - 2) == q() - 1);
}

} // verus!
