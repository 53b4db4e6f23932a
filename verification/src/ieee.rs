//! Order and classification of IEEE-754 binary64 values, read from their bit
//! patterns.
//!
//! A pattern is a sign bit followed by 63 bits of magnitude. Patterns whose
//! magnitude exceeds that of infinity are NaNs. For all other patterns
//! the numeric order is the order of the signed magnitudes, with both zeros
//! equal.

use vstd::prelude::*;
use vstd::arithmetic::div_mod::{
    lemma_basic_div, lemma_div_by_multiple, lemma_div_multiples_vanish_quotient,
};
use vstd::arithmetic::power2::{
    lemma2_to64, lemma2_to64_rest, lemma_pow2_adds, lemma_pow2_pos, lemma_pow2_strictly_increases,
    lemma_pow2_unfold, pow2,
};
use vstd::bits::{lemma_u64_shl_is_mul, lemma_u64_shr_is_div};

verus! {

pub const SIGN_BIT: u64 = 0x8000_0000_0000_0000;

pub const MAGNITUDE_MASK: u64 = 0x7FFF_FFFF_FFFF_FFFF;

/// Pattern of positive infinity; every larger magnitude is a NaN.
pub const INFINITY_BITS: u64 = 0x7FF0_0000_0000_0000;

/// Pattern of `+0.0`.
pub const ZERO_BITS: u64 = 0;

pub const FRACTION_MASK: u64 = 0x000F_FFFF_FFFF_FFFF;

/// The leading significand bit that normal numbers leave unwritten.
pub const IMPLICIT_BIT: u64 = 0x0010_0000_0000_0000;

/// Biased exponent of 1.0.
pub const EXPONENT_BIAS: u64 = 1023;

/// Biased exponent at which the significand is itself the value.
pub const EXPONENT_UNIT: u64 = 1075;

pub open spec fn magnitude(bits: u64) -> u64 {
    bits & MAGNITUDE_MASK
}

pub open spec fn is_negative(bits: u64) -> bool {
    bits & SIGN_BIT != 0
}

pub open spec fn is_nan(bits: u64) -> bool {
    magnitude(bits) > INFINITY_BITS
}

pub open spec fn is_infinite(bits: u64) -> bool {
    magnitude(bits) == INFINITY_BITS
}

/// Position of a non-NaN pattern on the number line: equal for patterns that
/// denote equal numbers, smaller for the pattern that denotes the smaller one.
pub open spec fn rank(bits: u64) -> int {
    if is_negative(bits) {
        -(magnitude(bits) as int)
    } else {
        magnitude(bits) as int
    }
}

/// `a < b` as IEEE-754 defines it: false whenever either side is a NaN.
pub open spec fn lt(a: u64, b: u64) -> bool {
    !is_nan(a) && !is_nan(b) && rank(a) < rank(b)
}

/// `a <= b` as IEEE-754 defines it: false whenever either side is a NaN.
pub open spec fn le(a: u64, b: u64) -> bool {
    !is_nan(a) && !is_nan(b) && rank(a) <= rank(b)
}

/// `a >= b` as IEEE-754 defines it.
pub open spec fn ge(a: u64, b: u64) -> bool {
    le(b, a)
}

/// `bits == 0.0` as IEEE-754 defines it: true of both zeros.
pub open spec fn is_zero(bits: u64) -> bool {
    magnitude(bits) == 0
}

pub fn not_a_number(bits: u64) -> (r: bool)
    ensures
        r == is_nan(bits),
{
    (bits & MAGNITUDE_MASK) > INFINITY_BITS
}

/// True of the two infinities and of every NaN.
pub fn not_finite(bits: u64) -> (r: bool)
    ensures
        r == (is_infinite(bits) || is_nan(bits)),
{
    (bits & MAGNITUDE_MASK) >= INFINITY_BITS
}

pub fn equals_zero(bits: u64) -> (r: bool)
    ensures
        r == is_zero(bits),
{
    (bits & MAGNITUDE_MASK) == 0
}

pub fn less_than(a: u64, b: u64) -> (r: bool)
    ensures
        r == lt(a, b),
{
    let ma: u64 = a & MAGNITUDE_MASK;
    let mb: u64 = b & MAGNITUDE_MASK;
    if ma > INFINITY_BITS || mb > INFINITY_BITS {
        return false;
    }
    let na: bool = (a & SIGN_BIT) != 0;
    let nb: bool = (b & SIGN_BIT) != 0;
    if na {
        if nb {
            ma > mb
        } else {
            ma != 0 || mb != 0
        }
    } else {
        !nb && ma < mb
    }
}

pub fn at_most(a: u64, b: u64) -> (r: bool)
    ensures
        r == le(a, b),
{
    let ma: u64 = a & MAGNITUDE_MASK;
    let mb: u64 = b & MAGNITUDE_MASK;
    if ma > INFINITY_BITS || mb > INFINITY_BITS {
        return false;
    }
    let na: bool = (a & SIGN_BIT) != 0;
    let nb: bool = (b & SIGN_BIT) != 0;
    if na {
        !nb || ma >= mb
    } else if nb {
        ma == 0 && mb == 0
    } else {
        ma <= mb
    }
}

pub fn at_least(a: u64, b: u64) -> (r: bool)
    ensures
        r == ge(a, b),
{
    at_most(b, a)
}

/// The eleven exponent bits of a pattern.
pub open spec fn exponent(bits: u64) -> u64 {
    (bits >> 52) & 0x7FF
}

/// The 52 fraction bits of a pattern.
pub open spec fn fraction(bits: u64) -> u64 {
    bits & FRACTION_MASK
}

/// The significand of a finite pattern as a whole number: the fraction bits,
/// with the implicit leading bit unless the exponent bits are all zero.
pub open spec fn significand(bits: u64) -> nat {
    if exponent(bits) == 0 {
        fraction(bits) as nat
    } else {
        (IMPLICIT_BIT + fraction(bits)) as nat
    }
}

/// The power of two by which the significand of a finite pattern is scaled:
/// its magnitude is `significand * 2^scale`.
pub open spec fn scale(bits: u64) -> int {
    if exponent(bits) == 0 {
        -1074
    } else {
        exponent(bits) as int - 1075
    }
}

/// The integer part of the magnitude of a pattern that is not a NaN. Below
/// exponent 1023 the magnitude is under one; from there on it is the 53-bit
/// significand scaled by a power of two.
pub open spec fn whole_magnitude(bits: u64) -> nat {
    let e = exponent(bits) as int;
    let m = (IMPLICIT_BIT + fraction(bits)) as nat;
    if e < EXPONENT_BIAS {
        0
    } else if e <= EXPONENT_UNIT {
        m / pow2((EXPONENT_UNIT - e) as nat)
    } else {
        m * pow2((e - EXPONENT_UNIT) as nat)
    }
}

/// The value of a pattern converted to a 64-bit signed integer: rounded
/// toward zero, held to the integer range, and zero for a NaN.
pub open spec fn truncated(bits: u64) -> int {
    let w = whole_magnitude(bits) as int;
    if is_nan(bits) {
        0
    } else if is_negative(bits) {
        if w >= 0x8000_0000_0000_0000 {
            i64::MIN as int
        } else {
            -w
        }
    } else {
        if w >= 0x8000_0000_0000_0000 {
            i64::MAX as int
        } else {
            w
        }
    }
}

/// Converts a pattern to a signed integer, toward zero and saturating.
pub fn truncate(bits: u64) -> (r: i64)
    ensures
        r == truncated(bits),
{
    let e: u64 = (bits >> 52) & 0x7FF;
    let f: u64 = bits & FRACTION_MASK;
    let negative: bool = (bits & SIGN_BIT) != 0;
    assert(f < 0x0010_0000_0000_0000) by (bit_vector)
        requires
            f == bits & 0x000F_FFFF_FFFF_FFFF,
    ;
    assert(e <= 0x7FF) by (bit_vector)
        requires
            e == (bits >> 52) & 0x7FF,
    ;
    assert(((bits & 0x7FFF_FFFF_FFFF_FFFF) > 0x7FF0_0000_0000_0000) <==> (e == 0x7FF && f != 0))
        by (bit_vector)
        requires
            e == (bits >> 52) & 0x7FF,
            f == bits & 0x000F_FFFF_FFFF_FFFF,
    ;
    if e == 0x7FF && f != 0 {
        return 0;
    }
    if e < EXPONENT_BIAS {
        return 0;
    }
    let m: u64 = IMPLICIT_BIT + f;
    if e <= EXPONENT_UNIT {
        let shift: u64 = EXPONENT_UNIT - e;
        let w: u64 = m >> shift;
        proof {
            lemma_u64_shr_is_div(m, shift);
            lemma_pow2_pos(shift as nat);
            assert(m as nat / pow2(shift as nat) <= m as nat) by (nonlinear_arith)
                requires
                    pow2(shift as nat) > 0,
            ;
        }
        if negative {
            -(w as i64)
        } else {
            w as i64
        }
    } else if e - EXPONENT_UNIT <= 10 {
        let shift: u64 = e - EXPONENT_UNIT;
        proof {
            lemma2_to64();
            if shift < 10 {
                lemma_pow2_strictly_increases(shift as nat, 10);
            }
            assert(m * pow2(shift as nat) < 0x8000_0000_0000_0000) by (nonlinear_arith)
                requires
                    m < 0x0020_0000_0000_0000,
                    pow2(shift as nat) <= 1024,
            ;
            lemma_u64_shl_is_mul(m, shift);
        }
        let w: u64 = m << shift;
        if negative {
            -(w as i64)
        } else {
            w as i64
        }
    } else {
        proof {
            let shift = (e - EXPONENT_UNIT) as nat;
            lemma2_to64();
            if shift > 11 {
                lemma_pow2_strictly_increases(11, shift);
            }
            assert(m * pow2(shift) >= 0x8000_0000_0000_0000) by (nonlinear_arith)
                requires
                    m >= 0x0010_0000_0000_0000,
                    pow2(shift) >= 2048,
            ;
        }
        if negative {
            i64::MIN
        } else {
            i64::MAX
        }
    }
}

/// The magnitude that a pattern other than a NaN denotes, counted in units
/// of the smallest positive value, two to the power of minus 1074.
pub open spec fn magnitude_units(bits: u64) -> nat {
    significand(bits) * pow2((scale(bits) + 1074) as nat)
}

/// The number that a pattern other than a NaN denotes, in the same units.
pub open spec fn signed_units(bits: u64) -> int {
    if is_negative(bits) {
        -(magnitude_units(bits) as int)
    } else {
        magnitude_units(bits) as int
    }
}

proof fn units_rise_with_fraction(e: nat, f: nat, g: nat)
    requires
        f < g,
    ensures
        (0x0010_0000_0000_0000 + f) * pow2(e) < (0x0010_0000_0000_0000 + g) * pow2(e),
{
    lemma_pow2_pos(e);
    assert((0x0010_0000_0000_0000 + f) * pow2(e) < (0x0010_0000_0000_0000 + g) * pow2(e))
        by (nonlinear_arith)
        requires
            f < g,
            pow2(e) > 0,
    ;
}

proof fn units_rise_with_exponent(d: nat, e: nat, f: nat, g: nat)
    requires
        d < e,
        f < 0x0010_0000_0000_0000,
    ensures
        (0x0010_0000_0000_0000 + f) * pow2(d) < (0x0010_0000_0000_0000 + g) * pow2(e),
{
    lemma_pow2_pos(d);
    lemma_pow2_unfold(d + 1);
    if d + 1 < e {
        lemma_pow2_strictly_increases(d + 1, e);
    }
    assert((0x0010_0000_0000_0000 + f) * pow2(d) < (0x0010_0000_0000_0000 + g) * pow2(e))
        by (nonlinear_arith)
        requires
            f < 0x0010_0000_0000_0000,
            pow2(d) > 0,
            2 * pow2(d) <= pow2(e),
    ;
}

proof fn magnitude_order_is_numeric(a: u64, b: u64)
    requires
        magnitude(a) < magnitude(b),
    ensures
        magnitude_units(a) < magnitude_units(b),
{
    let ea = exponent(a);
    let fa = fraction(a);
    let eb = exponent(b);
    let fb = fraction(b);
    assert(ea < eb || (ea == eb && fa < fb)) by (bit_vector)
        requires
            (a & 0x7FFF_FFFF_FFFF_FFFF) < (b & 0x7FFF_FFFF_FFFF_FFFF),
            ea == (a >> 52) & 0x7FF,
            eb == (b >> 52) & 0x7FF,
            fa == a & 0x000F_FFFF_FFFF_FFFF,
            fb == b & 0x000F_FFFF_FFFF_FFFF,
    ;
    assert(fa < 0x0010_0000_0000_0000 && ea <= 0x7FF) by (bit_vector)
        requires
            ea == (a >> 52) & 0x7FF,
            fa == a & 0x000F_FFFF_FFFF_FFFF,
    ;
    assert(fb < 0x0010_0000_0000_0000 && eb <= 0x7FF) by (bit_vector)
        requires
            eb == (b >> 52) & 0x7FF,
            fb == b & 0x000F_FFFF_FFFF_FFFF,
    ;
    lemma2_to64();
    if ea == eb {
        if ea == 0 {
            assert(fa as nat * 1 < fb as nat * 1);
        } else {
            units_rise_with_fraction((ea - 1) as nat, fa as nat, fb as nat);
        }
    } else if ea == 0 {
        lemma_pow2_pos((eb - 1) as nat);
        assert(fa as nat * 1 < (0x0010_0000_0000_0000 + fb as nat) * pow2((eb - 1) as nat))
            by (nonlinear_arith)
            requires
                fa < 0x0010_0000_0000_0000,
                pow2((eb - 1) as nat) >= 1,
        ;
    } else {
        units_rise_with_exponent((ea - 1) as nat, (eb - 1) as nat, fa as nat, fb as nat);
    }
}

/// The order of the signed magnitudes is the order of the numbers that the
/// patterns denote: of two patterns other than NaNs, one ranks below the
/// other exactly when it denotes the smaller number, and they rank alike
/// exactly when they denote the same number.
pub proof fn rank_order_is_numeric(a: u64, b: u64)
    requires
        !is_nan(a),
        !is_nan(b),
    ensures
        rank(a) < rank(b) <==> signed_units(a) < signed_units(b),
        rank(a) == rank(b) <==> signed_units(a) == signed_units(b),
{
    if magnitude(a) < magnitude(b) {
        magnitude_order_is_numeric(a, b);
    }
    if magnitude(b) < magnitude(a) {
        magnitude_order_is_numeric(b, a);
    }
    if magnitude(a) == magnitude(b) {
        assert(exponent(a) == exponent(b) && fraction(a) == fraction(b)) by (bit_vector)
            requires
                (a & 0x7FFF_FFFF_FFFF_FFFF) == (b & 0x7FFF_FFFF_FFFF_FFFF),
        ;
    }
    zero_magnitude_is_zero(a);
    zero_magnitude_is_zero(b);
}

proof fn zero_magnitude_is_zero(a: u64)
    ensures
        magnitude(a) == 0 <==> magnitude_units(a) == 0,
{
    let e = exponent(a);
    let f = fraction(a);
    assert((a & 0x7FFF_FFFF_FFFF_FFFF) == 0 <==> (e == 0 && f == 0)) by (bit_vector)
        requires
            e == (a >> 52) & 0x7FF,
            f == a & 0x000F_FFFF_FFFF_FFFF,
    ;
    let p = pow2((scale(a) + 1074) as nat);
    lemma_pow2_pos((scale(a) + 1074) as nat);
    if magnitude(a) == 0 {
        assert(0 * p == 0) by (nonlinear_arith);
    } else {
        assert(significand(a) >= 1);
        assert(significand(a) * p >= 1) by (nonlinear_arith)
            requires
                significand(a) >= 1,
                p >= 1,
        ;
    }
}

/// The integer part of a magnitude is the magnitude, counted in units of two
/// to the power of minus 1074, divided by the number of units in one.
pub proof fn whole_magnitude_is_integer_part(bits: u64)
    ensures
        whole_magnitude(bits) == magnitude_units(bits) / pow2(1074),
{
    let e = exponent(bits);
    let f = fraction(bits);
    assert(f < 0x0010_0000_0000_0000 && e <= 0x7FF) by (bit_vector)
        requires
            e == (bits >> 52) & 0x7FF,
            f == bits & 0x000F_FFFF_FFFF_FFFF,
    ;
    lemma2_to64();
    lemma2_to64_rest();
    lemma_pow2_strictly_increases(53, 1074);
    lemma_pow2_pos(1074);
    let m = (IMPLICIT_BIT + f) as nat;
    let units = magnitude_units(bits);
    if e == 0 {
        assert(units == f as nat * pow2(0));
        assert(units == f);
        lemma_basic_div(f as int, pow2(1074) as int);
        assert(units / pow2(1074) == 0);
    } else if e < 1075 {
        let low = (e - 1) as nat;
        let high = (1075 - e) as nat;
        assert(units == m * pow2(low));
        lemma_pow2_adds(low, high);
        assert(pow2(1074) == pow2(low) * pow2(high));
        lemma_pow2_pos(low);
        lemma_pow2_pos(high);
        lemma_div_multiples_vanish_quotient(pow2(low) as int, m as int, pow2(high) as int);
        assert(m * pow2(low) == pow2(low) * m) by (nonlinear_arith);
        assert(units / pow2(1074) == m / pow2(high));
        if e < 1023 {
            if high > 53 {
                lemma_pow2_strictly_increases(53, high);
            }
            lemma_basic_div(m as int, pow2(high) as int);
            assert(m / pow2(high) == 0);
        }
        assert(whole_magnitude(bits) == m / pow2(high));
    } else {
        let up = (e - 1075) as nat;
        assert(units == m * pow2(up + 1074));
        lemma_pow2_adds(up, 1074);
        assert(m * (pow2(up) * pow2(1074)) == (m * pow2(up)) * pow2(1074)) by (nonlinear_arith);
        lemma_div_by_multiple((m * pow2(up)) as int, pow2(1074) as int);
        assert(units / pow2(1074) == m * pow2(up));
        if e == 1075 {
            assert(pow2(up) == 1);
            assert(m * pow2(up) == m) by (nonlinear_arith)
                requires
                    pow2(up) == 1,
            ;
            assert(m / pow2(up) == m);
        }
    }
}

/// A value that is not a NaN is either below, equal to, or above any other
/// such value, and exactly one of the three holds.
pub proof fn order_is_total(a: u64, b: u64)
    requires
        !is_nan(a),
        !is_nan(b),
    ensures
        lt(a, b) || lt(b, a) || rank(a) == rank(b),
        !(lt(a, b) && lt(b, a)),
        ge(a, b) == !lt(a, b),
{
}

/// No comparison holds of a NaN.
pub proof fn nan_is_unordered(a: u64, b: u64)
    requires
        is_nan(a) || is_nan(b),
    ensures
        !lt(a, b),
        !le(a, b),
        !ge(a, b),
{
}

} // verus!
