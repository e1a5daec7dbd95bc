//! Binary floating-point numbers held as their IEEE-754 bit patterns.
//!
//! Sensor readings travel as `binary64` (and, on the wire, `binary32`) values.
//! The library keeps them as their raw bit patterns (`u64` / `u32`) and reasons
//! about them exactly: a finite pattern denotes the rational number
//! `scaled / 2^1074` (binary64) or `scaled / 2^149` (binary32), where `scaled`
//! is the integer given by [`f64_scaled`] / [`f32_scaled`].
use vstd::arithmetic::div_mod::{lemma_div_multiples_vanish_fancy, lemma_mod_multiples_vanish};
use vstd::arithmetic::mul::{lemma_mul_inequality, lemma_mul_strict_inequality};
use vstd::arithmetic::power2::{
    lemma2_to64, lemma2_to64_rest, lemma_pow2_adds, lemma_pow2_pos, lemma_pow2_strictly_increases,
    lemma_pow2_subtracts, lemma_pow2_unfold, pow2,
};
use vstd::prelude::*;

verus! {

// ───────────────────────────── binary64 ─────────────────────────────
/// Sign bit of a binary64 pattern.
pub open spec fn f64_sign_bit(bits: u64) -> bool {
    bits >= 0x8000_0000_0000_0000u64
}

/// Biased exponent field (11 bits) of a binary64 pattern.
pub open spec fn f64_exponent(bits: u64) -> int {
    (bits / 0x10_0000_0000_0000u64) as int % 2048
}

/// Fraction field (52 bits) of a binary64 pattern.
pub open spec fn f64_fraction(bits: u64) -> int {
    (bits % 0x10_0000_0000_0000u64) as int
}

/// The pattern is a NaN.
pub open spec fn f64_is_nan(bits: u64) -> bool {
    f64_exponent(bits) == 2047 && f64_fraction(bits) != 0
}

/// The pattern is an infinity.
pub open spec fn f64_is_infinite(bits: u64) -> bool {
    f64_exponent(bits) == 2047 && f64_fraction(bits) == 0
}

/// The pattern denotes a finite number (zero, subnormal or normal).
pub open spec fn f64_is_finite(bits: u64) -> bool {
    f64_exponent(bits) < 2047
}

/// Magnitude of a number with biased exponent `e` and fraction `f`
/// (`m` fraction bits), in units of the smallest subnormal.
pub open spec fn magnitude(e: int, f: int, m: nat) -> int {
    if e == 0 {
        f
    } else {
        (pow2(m) + f) * pow2((e - 1) as nat)
    }
}

/// Magnitude of a finite binary64 pattern in units of 2^-1074.
pub open spec fn f64_magnitude(bits: u64) -> int {
    magnitude(f64_exponent(bits), f64_fraction(bits), 52)
}

/// Exact value of a finite binary64 pattern, times 2^1074.
pub open spec fn f64_scaled(bits: u64) -> int {
    if f64_sign_bit(bits) {
        -f64_magnitude(bits)
    } else {
        f64_magnitude(bits)
    }
}

/// The pattern denotes a finite number `x` with `lo <= x <= hi`.
pub open spec fn f64_within(bits: u64, lo: int, hi: int) -> bool {
    &&& f64_is_finite(bits)
    &&& lo * pow2(1074) <= f64_scaled(bits)
    &&& f64_scaled(bits) <= hi * pow2(1074)
}

// ───────────────────────────── binary32 ─────────────────────────────
/// Sign bit of a binary32 pattern.
pub open spec fn f32_sign_bit(bits: u32) -> bool {
    bits >= 0x8000_0000u32
}

/// Biased exponent field (8 bits) of a binary32 pattern.
pub open spec fn f32_exponent(bits: u32) -> int {
    (bits / 0x80_0000u32) as int % 256
}

/// Fraction field (23 bits) of a binary32 pattern.
pub open spec fn f32_fraction(bits: u32) -> int {
    (bits % 0x80_0000u32) as int
}

/// The pattern is a NaN.
pub open spec fn f32_is_nan(bits: u32) -> bool {
    f32_exponent(bits) == 255 && f32_fraction(bits) != 0
}

/// The pattern is an infinity.
pub open spec fn f32_is_infinite(bits: u32) -> bool {
    f32_exponent(bits) == 255 && f32_fraction(bits) == 0
}

/// The pattern denotes a finite number.
pub open spec fn f32_is_finite(bits: u32) -> bool {
    f32_exponent(bits) < 255
}

/// Exact value of a finite binary32 pattern, times 2^149.
pub open spec fn f32_scaled(bits: u32) -> int {
    let mag = magnitude(f32_exponent(bits), f32_fraction(bits), 23);
    if f32_sign_bit(bits) {
        -mag
    } else {
        mag
    }
}

/// Fraction of the binary64 NaN that widens a binary32 NaN with fraction
/// `f`: the payload moves to the top of the wider field and the quiet bit
/// (the field's top bit) is set.
pub open spec fn widened_nan_fraction(f: int) -> int {
    let g = f * 0x2000_0000;
    if g >= 0x8_0000_0000_0000 {
        g
    } else {
        g + 0x8_0000_0000_0000
    }
}

/// `wide` is the binary64 pattern that denotes the same datum as the
/// binary32 pattern `narrow`: same class (NaN, infinity, finite), same sign,
/// the same exact value for finite numbers, and for a NaN the same payload
/// with the quiet bit set.
pub open spec fn widens_to(narrow: u32, wide: u64) -> bool {
    &&& f64_is_nan(wide) == f32_is_nan(narrow)
    &&& f64_is_infinite(wide) == f32_is_infinite(narrow)
    &&& f64_is_finite(wide) == f32_is_finite(narrow)
    &&& f64_sign_bit(wide) == f32_sign_bit(narrow)
    &&& f32_is_finite(narrow) ==> f64_scaled(wide) == f32_scaled(narrow) * pow2(925)
    &&& f32_is_nan(narrow) ==> f64_fraction(wide) == widened_nan_fraction(f32_fraction(narrow))
}

/// The binary32 pattern denotes a finite number `x` with `lo <= x <= hi`.
pub open spec fn f32_within(bits: u32, lo: int, hi: int) -> bool {
    &&& f32_is_finite(bits)
    &&& lo * pow2(149) <= f32_scaled(bits)
    &&& f32_scaled(bits) <= hi * pow2(149)
}

/// Widening keeps range membership: a binary32 value lies in `[lo, hi]`
/// exactly when its binary64 widening does.
pub proof fn lemma_widened_within(narrow: u32, wide: u64, lo: int, hi: int)
    requires
        widens_to(narrow, wide),
    ensures
        f64_within(wide, lo, hi) <==> f32_within(narrow, lo, hi),
{
    if f32_is_finite(narrow) {
        let p = pow2(925);
        lemma_pow2_pos(925);
        lemma_pow2_adds(149, 925);
        let s = f32_scaled(narrow);
        assert(lo * pow2(1074) == (lo * pow2(149)) * p) by (nonlinear_arith)
            requires
                pow2(1074) == pow2(149) * p,
        ;
        assert(hi * pow2(1074) == (hi * pow2(149)) * p) by (nonlinear_arith)
            requires
                pow2(1074) == pow2(149) * p,
        ;
        assert((lo * pow2(149)) * p <= s * p <==> lo * pow2(149) <= s) by (nonlinear_arith)
            requires
                p > 0,
        ;
        assert(s * p <= (hi * pow2(149)) * p <==> s <= hi * pow2(149)) by (nonlinear_arith)
            requires
                p > 0,
        ;
    }
}

// ───────────────────────────── lemmas ─────────────────────────────
/// Magnitudes grow with the (exponent, fraction) pair in lexicographic order.
proof fn lemma_magnitude_strict(e1: int, f1: int, e2: int, f2: int, m: nat)
    requires
        0 <= e1,
        0 <= e2,
        0 <= f1 < pow2(m),
        0 <= f2 < pow2(m),
        e1 < e2 || (e1 == e2 && f1 < f2),
    ensures
        magnitude(e1, f1, m) < magnitude(e2, f2, m),
{
    lemma_pow2_pos(m);
    if e1 == e2 {
        if e1 != 0 {
            let p = pow2((e1 - 1) as nat);
            lemma_pow2_pos((e1 - 1) as nat);
            lemma_mul_strict_inequality(pow2(m) + f1, pow2(m) + f2, p as int);
        }
    } else {
        let top: int = (pow2(m) * pow2(e1 as nat)) as int;
        // magnitude(e1, f1) < 2^m * 2^e1
        if e1 == 0 {
            lemma2_to64();
            lemma2_to64_rest();
            assert(top == pow2(m));
        } else {
            let p = pow2((e1 - 1) as nat);
            lemma_pow2_unfold(e1 as nat);
            lemma_pow2_pos((e1 - 1) as nat);
            lemma_mul_strict_inequality(pow2(m) + f1, (2 * pow2(m)) as int, p as int);
            assert((2 * pow2(m)) * p == pow2(m) * (2 * p)) by (nonlinear_arith);
        }
        // magnitude(e2, f2) >= 2^m * 2^(e2 - 1) >= 2^m * 2^e1
        let q = pow2((e2 - 1) as nat);
        lemma_pow2_pos((e2 - 1) as nat);
        lemma_mul_inequality(pow2(m) as int, pow2(m) + f2, q as int);
        if e1 < e2 - 1 {
            lemma_pow2_strictly_increases(e1 as nat, (e2 - 1) as nat);
        }
        lemma_mul_inequality(pow2(e1 as nat) as int, q as int, pow2(m) as int);
        assert(pow2(e1 as nat) * pow2(m) == pow2(m) * pow2(e1 as nat)) by (nonlinear_arith);
        assert(q * pow2(m) == pow2(m) * q) by (nonlinear_arith);
    }
}

/// Lexicographic order on (exponent, fraction) is the order of magnitudes.
proof fn lemma_magnitude_order(e1: int, f1: int, e2: int, f2: int, m: nat)
    requires
        0 <= e1,
        0 <= e2,
        0 <= f1 < pow2(m),
        0 <= f2 < pow2(m),
    ensures
        (e1 < e2 || (e1 == e2 && f1 <= f2)) <==> magnitude(e1, f1, m) <= magnitude(e2, f2, m),
        (e1 == 0 && f1 == 0) <==> magnitude(e1, f1, m) == 0,
        magnitude(e1, f1, m) >= 0,
{
    lemma_pow2_pos(m);
    if e1 < e2 || (e1 == e2 && f1 < f2) {
        lemma_magnitude_strict(e1, f1, e2, f2, m);
    } else if e2 < e1 || (e1 == e2 && f2 < f1) {
        lemma_magnitude_strict(e2, f2, e1, f1, m);
    }
    if e1 == 0 && f1 == 0 {
    } else {
        lemma_magnitude_strict(0, 0, e1, f1, m);
    }
}

/// The binary64 fields of `s * 2^63 + e * 2^52 + f` are `s`, `e` and `f`.
proof fn lemma_f64_fields(bits: u64, s: int, e: int, f: int)
    requires
        0 <= s <= 1,
        0 <= e < 2048,
        0 <= f < 0x10_0000_0000_0000,
        bits == s * 0x8000_0000_0000_0000 + e * 0x10_0000_0000_0000 + f,
    ensures
        f64_sign_bit(bits) == (s == 1),
        f64_exponent(bits) == e,
        f64_fraction(bits) == f,
{
    let d: int = 0x10_0000_0000_0000;
    let x: int = s * 2048 + e;
    assert(bits == d * x + f);
    lemma_div_multiples_vanish_fancy(x, f, d);
    lemma_mod_multiples_vanish(s, e, 2048);
    assert(2048 * s + e == x);
    lemma_mod_multiples_vanish(x, f, d);
    assert(f % d == f);
    assert(e % 2048 == e);
}

/// The binary32 fields of `s * 2^31 + e * 2^23 + f` are `s`, `e` and `f`.
proof fn lemma_f32_fields(bits: u32, s: int, e: int, f: int)
    requires
        0 <= s <= 1,
        0 <= e < 256,
        0 <= f < 0x80_0000,
        bits == s * 0x8000_0000 + e * 0x80_0000 + f,
    ensures
        f32_sign_bit(bits) == (s == 1),
        f32_exponent(bits) == e,
        f32_fraction(bits) == f,
{
    let d: int = 0x80_0000;
    let x: int = s * 256 + e;
    assert(bits == d * x + f);
    lemma_div_multiples_vanish_fancy(x, f, d);
    lemma_mod_multiples_vanish(s, e, 256);
    assert(256 * s + e == x);
    lemma_mod_multiples_vanish(x, f, d);
    assert(f % d == f);
    assert(e % 256 == e);
}

/// Normalising `n` with leading bit `k` gives a fraction below `2^m` and the
/// magnitude `n * 2^(m - k + e - 1)`.
proof fn lemma_normalized(n: int, k: nat, e: int, m: nat)
    requires
        pow2(k) <= n < pow2(k + 1),
        k <= m,
        e >= 1,
    ensures
        0 <= (n - pow2(k)) * pow2((m - k) as nat) < pow2(m),
        magnitude(e, (n - pow2(k)) * pow2((m - k) as nat), m) == n * pow2(
            (m - k + e - 1) as nat,
        ),
{
    let s = pow2((m - k) as nat);
    lemma_pow2_adds(k, (m - k) as nat);
    lemma_pow2_unfold(k + 1);
    lemma_pow2_pos((m - k) as nat);
    lemma_pow2_adds((m - k) as nat, (e - 1) as nat);
    let f = (n - pow2(k)) * s;
    assert(f == n * s - pow2(k) * s) by (nonlinear_arith)
        requires
            f == (n - pow2(k)) * s,
    ;
    lemma_mul_inequality(pow2(k) as int, n, s as int);
    lemma_mul_strict_inequality(n, pow2(k + 1) as int, s as int);
    assert(pow2(k + 1) * s == 2 * (pow2(k) * s)) by (nonlinear_arith)
        requires
            pow2(k + 1) == 2 * pow2(k),
    ;
    assert(pow2(m) + f == n * s);
    assert((n * s) * pow2((e - 1) as nat) == n * (s * pow2((e - 1) as nat))) by (nonlinear_arith);
}

// ───────────────────────────── exec ─────────────────────────────
/// Splits a binary64 pattern into (sign, exponent, fraction).
fn f64_fields(bits: u64) -> (r: (bool, u64, u64))
    ensures
        r.0 == f64_sign_bit(bits),
        r.1 == f64_exponent(bits),
        r.2 == f64_fraction(bits),
        r.1 < 2048,
        r.2 < 0x10_0000_0000_0000,
{
    (bits >= 0x8000_0000_0000_0000u64, (bits / 0x10_0000_0000_0000u64) % 2048, bits
        % 0x10_0000_0000_0000u64)
}

/// Position of the leading one bit of `n`.
fn leading_bit(n: u64) -> (r: (u32, u64))
    requires
        n > 0,
    ensures
        r.1 == pow2(r.0 as nat),
        pow2(r.0 as nat) <= n < pow2(r.0 as nat + 1),
        r.0 < 64,
{
    let mut k: u32 = 0;
    let mut p: u64 = 1;
    proof {
        lemma2_to64();
        lemma2_to64_rest();
    }
    while p <= n / 2
        invariant
            p == pow2(k as nat),
            1 <= p <= n,
            k < 64,
        decreases n - p,
    {
        proof {
            lemma_pow2_unfold((k + 1) as nat);
            if k >= 63 {
                lemma2_to64_rest();
                if k > 63 {
                    lemma_pow2_strictly_increases(63, k as nat);
                }
            }
        }
        p = p * 2;
        k = k + 1;
    }
    proof {
        lemma_pow2_unfold((k + 1) as nat);
    }
    (k, p)
}

/// `a <= b` for two finite binary64 patterns.
pub fn f64_le(a: u64, b: u64) -> (res: bool)
    requires
        f64_is_finite(a),
        f64_is_finite(b),
    ensures
        res == (f64_scaled(a) <= f64_scaled(b)),
{
    let (sa, ea, fa) = f64_fields(a);
    let (sb, eb, fb) = f64_fields(b);
    proof {
        assert(pow2(52) == 0x10_0000_0000_0000) by {
            lemma2_to64();
            lemma2_to64_rest();
        }
        lemma_magnitude_order(ea as int, fa as int, eb as int, fb as int, 52);
        lemma_magnitude_order(eb as int, fb as int, ea as int, fa as int, 52);
    }
    let mag_le = ea < eb || (ea == eb && fa <= fb);
    let mag_ge = eb < ea || (ea == eb && fb <= fa);
    if !sa && !sb {
        mag_le
    } else if sa && sb {
        mag_ge
    } else if sa {
        true
    } else {
        ea == 0 && fa == 0 && eb == 0 && fb == 0
    }
}

/// Binary64 pattern of an integer of magnitude at most `2^52` (exact).
pub fn f64_from_int(n: i64) -> (bits: u64)
    requires
        -0x10_0000_0000_0000 <= n <= 0x10_0000_0000_0000,
    ensures
        f64_is_finite(bits),
        f64_scaled(bits) == n * pow2(1074),
        !f64_sign_bit(bits) <==> n >= 0,
{
    let neg = n < 0;
    let a: u64 = if neg {
        (-n) as u64
    } else {
        n as u64
    };
    if a == 0 {
        proof {
            lemma_f64_fields(0, 0, 0, 0);
        }
        return 0;
    }
    let (k, p) = leading_bit(a);
    proof {
        lemma2_to64();
        lemma2_to64_rest();
        if k > 52 {
            lemma_pow2_strictly_increases(52, k as nat);
        }
        lemma_pow2_subtracts(k as nat, 52);
        lemma_pow2_pos(k as nat);
        lemma_normalized(a as int, k as nat, 1023 + k, 52);
        lemma_pow2_pos((52 - k) as nat);
    }
    let shift: u64 = 0x10_0000_0000_0000u64 / p;
    assert(shift == pow2((52 - k) as nat));
    let frac: u64 = (a - p) * shift;
    let e: u64 = 1023 + k as u64;
    let mag_bits: u64 = e * 0x10_0000_0000_0000u64 + frac;
    let bits: u64 = if neg {
        0x8000_0000_0000_0000u64 + mag_bits
    } else {
        mag_bits
    };
    proof {
        lemma_f64_fields(bits, if neg { 1 } else { 0 }, e as int, frac as int);
        assert((52 - k + e - 1) as nat == 1074);
        assert(f64_magnitude(bits) == a * pow2(1074));
        if neg {
            assert(-(a * pow2(1074)) == n * pow2(1074)) by (nonlinear_arith)
                requires
                    a == -n,
            ;
        }
    }
    bits
}

/// `x` is a finite binary64 number with `lo <= x <= hi`.
pub fn f64_in_closed_range(bits: u64, lo: i64, hi: i64) -> (res: bool)
    requires
        -0x10_0000_0000_0000 <= lo <= 0x10_0000_0000_0000,
        -0x10_0000_0000_0000 <= hi <= 0x10_0000_0000_0000,
    ensures
        res == f64_within(bits, lo as int, hi as int),
{
    let (_, e, _) = f64_fields(bits);
    if e == 2047 {
        return false;
    }
    let lo_bits = f64_from_int(lo);
    let hi_bits = f64_from_int(hi);
    f64_le(lo_bits, bits) && f64_le(bits, hi_bits)
}

/// Exact conversion of an unsigned 32-bit integer to binary64.
pub fn f64_from_u32(n: u32) -> (bits: u64)
    ensures
        f64_is_finite(bits),
        !f64_sign_bit(bits),
        f64_scaled(bits) == n * pow2(1074),
{
    f64_from_int(n as i64)
}

/// Exact widening of a binary32 pattern to binary64 (a NaN keeps its sign
/// and payload, with the quiet bit set).
pub fn f64_from_f32_bits(narrow: u32) -> (wide: u64)
    ensures
        widens_to(narrow, wide),
{
    let sign = narrow >= 0x8000_0000u32;
    let e: u32 = (narrow / 0x80_0000u32) % 256;
    let f: u32 = narrow % 0x80_0000u32;
    let s: u64 = if sign {
        1
    } else {
        0
    };
    proof {
        lemma2_to64();
        lemma2_to64_rest();
        assert(pow2(23) == 0x80_0000);
        assert(pow2(52) == 0x10_0000_0000_0000);
        assert(pow2(29) == 0x2000_0000);
    }
    let wide_e: u64;
    let wide_f: u64;
    if e == 255 {
        wide_e = 2047;
        wide_f = if f == 0 {
            0
        } else {
            (f as u64) * 0x2000_0000u64 | 0x8_0000_0000_0000u64
        };
        proof {
            if f != 0 {
                let x: u64 = ((f as u64) * 0x2000_0000u64) as u64;
                assert(x | 0x8_0000_0000_0000u64 != 0 && x | 0x8_0000_0000_0000u64
                    < 0x10_0000_0000_0000u64) by (bit_vector)
                    requires
                        x < 0x10_0000_0000_0000u64,
                ;
                assert(x | 0x8_0000_0000_0000u64 == if x >= 0x8_0000_0000_0000u64 {
                    x
                } else {
                    (x + 0x8_0000_0000_0000u64) as u64
                }) by (bit_vector)
                    requires
                        x < 0x10_0000_0000_0000u64,
                ;
                assert(wide_f == widened_nan_fraction(f as int));
            }
        }
    } else if e == 0 && f == 0 {
        wide_e = 0;
        wide_f = 0;
        proof {
            assert(0 * pow2(925) == 0);
        }
    } else if e == 0 {
        let (k, p) = leading_bit(f as u64);
        proof {
            if k > 22 {
                lemma_pow2_strictly_increases(23, k as nat);
            }
            lemma_pow2_subtracts(k as nat, 52);
            lemma_pow2_pos(k as nat);
            lemma_normalized(f as int, k as nat, 874 + k, 52);
        }
        let shift: u64 = 0x10_0000_0000_0000u64 / p;
        wide_e = 874 + k as u64;
        wide_f = ((f as u64) - p) * shift;
        proof {
            assert((52 - k + wide_e - 1) as nat == 925);
            assert(magnitude(wide_e as int, wide_f as int, 52) == magnitude(e as int, f as int, 23)
                * pow2(925));
        }
    } else {
        wide_e = e as u64 + 896;
        wide_f = (f as u64) * 0x2000_0000u64;
        proof {
            lemma_pow2_adds(29, (e + 895) as nat);
            lemma_pow2_pos((e - 1) as nat);
            assert((pow2(52) + f * pow2(29)) * pow2((e + 895) as nat) == (pow2(23) + f) * (pow2(
                29,
            ) * pow2((e + 895) as nat))) by (nonlinear_arith)
                requires
                    pow2(52) == pow2(23) * pow2(29),
            ;
            lemma_pow2_adds((e - 1) as nat, 925);
            assert((pow2(23) + f) * pow2((e - 1) as nat) * pow2(925) == (pow2(23) + f) * (pow2(
                (e - 1) as nat,
            ) * pow2(925))) by (nonlinear_arith);
            assert(magnitude(wide_e as int, wide_f as int, 52) == magnitude(e as int, f as int, 23)
                * pow2(925));
        }
    }
    let wide: u64 = s * 0x8000_0000_0000_0000u64 + wide_e * 0x10_0000_0000_0000u64 + wide_f;
    proof {
        lemma_f32_fields(narrow, s as int, e as int, f as int);
        lemma_f64_fields(wide, s as int, wide_e as int, wide_f as int);
        if e < 255 {
            let m32 = magnitude(e as int, f as int, 23);
            assert(magnitude(wide_e as int, wide_f as int, 52) == m32 * pow2(925));
            assert((-m32) * pow2(925) == -(m32 * pow2(925))) by (nonlinear_arith);
        }
    }
    wide
}

} // verus!
