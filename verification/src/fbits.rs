//! IEEE-754 double-precision values as bit patterns.
//!
//! The verified core never holds a floating-point number: an `f64` is carried
//! as the `u64` holding its IEEE-754 encoding (sign bit, 11-bit biased
//! exponent, 52-bit fraction). This module gives that encoding a mathematical
//! reading — field extraction, NaN and finiteness tests, the value ordering,
//! and the exact encoding of a small integer — and proves executable
//! operations against it.

use vstd::prelude::*;
use vstd::arithmetic::power2::*;
use vstd::arithmetic::div_mod::*;
use vstd::arithmetic::mul::*;
use vstd::bits::*;

verus! {

/// 2^63: divides out the sign bit.
pub const SIGN_DIV: u64 = 0x8000_0000_0000_0000;

/// 2^52: divides the biased exponent from the fraction.
pub const FRAC_DIV: u64 = 0x0010_0000_0000_0000;

/// The all-ones biased exponent, reserved for infinities and NaNs.
pub const EXP_SPECIAL: u64 = 0x7ff;

/// The bit pattern of +0.0.
pub const BITS_ZERO: u64 = 0;

/// The bit pattern of 1.0.
pub const BITS_ONE: u64 = 0x3ff0_0000_0000_0000;

/// The sign bit: 0 for non-negative encodings, 1 for negative ones.
pub open spec fn sign_field(bits: u64) -> int {
    bits as int / SIGN_DIV as int
}

/// The low 63 bits: biased exponent and fraction, i.e. the magnitude part.
pub open spec fn mag_field(bits: u64) -> int {
    bits as int % SIGN_DIV as int
}

/// The 11-bit biased exponent.
pub open spec fn exp_field(bits: u64) -> int {
    mag_field(bits) / FRAC_DIV as int
}

/// The 52-bit fraction.
pub open spec fn frac_field(bits: u64) -> int {
    mag_field(bits) % FRAC_DIV as int
}

/// Whether the bits encode a NaN: all-ones exponent with a nonzero fraction.
pub open spec fn is_nan_bits(bits: u64) -> bool {
    exp_field(bits) == EXP_SPECIAL && frac_field(bits) != 0
}

/// Whether the bits encode a finite value (neither an infinity nor a NaN).
pub open spec fn is_finite_bits(bits: u64) -> bool {
    exp_field(bits) != EXP_SPECIAL
}

/// An ordering key: for bit patterns that are not NaN, the IEEE-754 order of
/// the encoded values is exactly the integer order of this key. The two
/// zeroes, +0.0 and -0.0, share the key 0, as the standard compares them
/// equal; sign-magnitude encoding gives every other pair distinct keys in
/// value order.
pub open spec fn order_key(bits: u64) -> int {
    if sign_field(bits) == 0 {
        mag_field(bits)
    } else {
        -mag_field(bits)
    }
}

/// `a <= b` in IEEE-754 terms: both comparable (not NaN) and ordered by key.
pub open spec fn f64_le_bits(a: u64, b: u64) -> bool {
    &&& !is_nan_bits(a)
    &&& !is_nan_bits(b)
    &&& order_key(a) <= order_key(b)
}

/// `a < b` in IEEE-754 terms: both comparable (not NaN) and strictly ordered.
pub open spec fn f64_lt_bits(a: u64, b: u64) -> bool {
    &&& !is_nan_bits(a)
    &&& !is_nan_bits(b)
    &&& order_key(a) < order_key(b)
}

/// Whether the bits encode exactly the integer `n`: zero is +0.0, and any
/// other integer is a normal number whose significand `2^52 + fraction`,
/// scaled by `2^(exponent - 1023)`, equals `|n|` — stated as the equation
/// `(2^52 + fraction) * 2^(exponent - 1023) == |n| * 2^52`.
pub open spec fn encodes_int(bits: u64, n: int) -> bool {
    if n == 0 {
        bits == 0
    } else {
        &&& (sign_field(bits) == 1 <==> n < 0)
        &&& 1023 <= exp_field(bits) <= 1086
        &&& (FRAC_DIV as int + frac_field(bits)) * pow2((exp_field(bits) - 1023) as nat)
            == vstd::math::abs(n) * FRAC_DIV as int
    }
}

/// Reports whether the bits encode a NaN.
pub fn is_nan(bits: u64) -> (r: bool)
    ensures
        r == is_nan_bits(bits),
{
    let mag: u64 = bits % SIGN_DIV;
    mag / FRAC_DIV == EXP_SPECIAL && mag % FRAC_DIV != 0
}

/// Reports whether the bits encode a finite value.
pub fn is_finite(bits: u64) -> (r: bool)
    ensures
        r == is_finite_bits(bits),
{
    let mag: u64 = bits % SIGN_DIV;
    mag / FRAC_DIV != EXP_SPECIAL
}

/// IEEE-754 `<=` on two bit patterns; false whenever either side is NaN.
pub fn le_bits(a: u64, b: u64) -> (r: bool)
    ensures
        r == f64_le_bits(a, b),
{
    if is_nan(a) || is_nan(b) {
        false
    } else {
        let sa: u64 = a / SIGN_DIV;
        let sb: u64 = b / SIGN_DIV;
        let ma: u64 = a % SIGN_DIV;
        let mb: u64 = b % SIGN_DIV;
        if sa == 0 && sb == 0 {
            ma <= mb
        } else if sa != 0 && sb != 0 {
            mb <= ma
        } else if sa != 0 {
            true
        } else {
            ma == 0 && mb == 0
        }
    }
}

/// IEEE-754 `<` on two bit patterns; false whenever either side is NaN.
pub fn lt_bits(a: u64, b: u64) -> (r: bool)
    ensures
        r == f64_lt_bits(a, b),
{
    if is_nan(a) || is_nan(b) {
        false
    } else {
        let sa: u64 = a / SIGN_DIV;
        let sb: u64 = b / SIGN_DIV;
        let ma: u64 = a % SIGN_DIV;
        let mb: u64 = b % SIGN_DIV;
        if sa == 0 && sb == 0 {
            ma < mb
        } else if sa != 0 && sb != 0 {
            mb < ma
        } else if sa != 0 {
            ma != 0 || mb != 0
        } else {
            false
        }
    }
}

/// The IEEE-754 double encoding of a 32-bit integer. Every 32-bit integer
/// is exactly representable as a double; the result is the unique zero or
/// normal encoding of `n`.
pub fn i32_to_f64_bits(n: i32) -> (r: u64)
    ensures
        encodes_int(r, n as int),
        is_finite_bits(r),
{
    if n == 0 {
        return 0;
    }
    let neg: bool = n < 0;
    let mag: u64 = if n < 0 {
        (-(n as i64)) as u64
    } else {
        n as u64
    };
    // Normalize: find k with pow2(k) <= mag < pow2(k + 1) by halving.
    let mut k: u64 = 0;
    let mut t: u64 = mag;
    proof {
        lemma2_to64();
    }
    while t >= 2
        invariant
            1 <= t,
            k <= 31,
            t as int * pow2(k as nat) <= mag as int,
            (mag as int) < (t as int + 1) * pow2(k as nat),
            1 <= mag <= 0x8000_0000,
        decreases t,
    {
        proof {
            let ti = t as int;
            let t2 = ti / 2;
            let p = pow2(k as nat) as int;
            lemma_pow2_pos(k as nat);
            lemma_fundamental_div_mod(ti, 2);
            lemma_mod_bound(ti, 2);
            assert(2 * t2 <= ti && ti <= 2 * t2 + 1);
            assert(pow2((k + 1) as nat) == 2 * p) by {
                lemma_pow2_unfold((k + 1) as nat);
            }
            lemma_mul_inequality(2, ti, p);
            assert(pow2((k + 1) as nat) <= mag as int);
            if k + 1 > 31 {
                lemma_pow2_strictly_increases(31, (k + 1) as nat);
                lemma2_to64();
                assert(false);
            }
            lemma_mul_inequality(2 * t2, ti, p);
            assert(t2 * (2 * p) == (2 * t2) * p) by (nonlinear_arith);
            lemma_mul_inequality(ti + 1, 2 * t2 + 2, p);
            assert((t2 + 1) * (2 * p) == (2 * t2 + 2) * p) by (nonlinear_arith);
        }
        t = t / 2;
        k = k + 1;
    }
    // t == 1: pow2(k) <= mag < pow2(k + 1); shift the leading bit to position 52.
    let shift: u64 = 52 - k;
    proof {
        lemma_pow2_pos(shift as nat);
        lemma_pow2_pos(k as nat);
        lemma_pow2_adds((k + 1) as nat, shift as nat);
        lemma_pow2_adds(k as nat, shift as nat);
        lemma_pow2_adds(shift as nat, k as nat);
        lemma2_to64();
        lemma2_to64_rest();
        assert(pow2((k + 1) as nat) == 2 * pow2(k as nat)) by {
            lemma_pow2_unfold((k + 1) as nat);
        }
        // mag * pow2(shift) < pow2(k + 1) * pow2(shift) == pow2(53)
        lemma_mul_strict_inequality(mag as int, 2 * pow2(k as nat) as int, pow2(shift as nat) as int);
        // pow2(52) == pow2(k) * pow2(shift) <= mag * pow2(shift)
        lemma_mul_inequality(pow2(k as nat) as int, mag as int, pow2(shift as nat) as int);
        lemma_u64_shl_is_mul(mag, shift);
    }
    let sig: u64 = mag << shift;
    assert(FRAC_DIV as int <= sig as int && (sig as int) < 2 * FRAC_DIV as int);
    let frac: u64 = sig - FRAC_DIV;
    let exp: u64 = 1023 + k;
    let sign_term: u64 = if neg {
        SIGN_DIV
    } else {
        0
    };
    let r: u64 = sign_term + exp * FRAC_DIV + frac;
    proof {
        let s: int = if neg {
            1
        } else {
            0
        };
        let m63: int = exp as int * FRAC_DIV as int + frac as int;
        lemma_fundamental_div_mod_converse(r as int, SIGN_DIV as int, s, m63);
        lemma_fundamental_div_mod_converse(m63, FRAC_DIV as int, exp as int, frac as int);
        assert(sign_field(r) == s && exp_field(r) == exp as int && frac_field(r) == frac as int);
        // (2^52 + frac) * 2^k == (mag * 2^shift) * 2^k == mag * 2^52
        assert((sig as int) * pow2(k as nat) == (mag as int) * (pow2(shift as nat) * pow2(
            k as nat,
        ))) by {
            lemma_mul_is_associative(mag as int, pow2(shift as nat) as int, pow2(k as nat) as int);
        }
        assert(vstd::math::abs(n as int) == mag as int);
    }
    r
}

} // verus!
