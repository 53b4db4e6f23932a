//! Rounding of a time to tenths of a second, on the bit pattern of its
//! binary64 value.
//!
//! The time is first multiplied by ten as binary64 arithmetic does it, the
//! product rounded to 53 significant bits with ties to even, and then rounded
//! to a whole number, halves away from zero.

use vstd::prelude::*;
use vstd::arithmetic::div_mod::{lemma_basic_div, lemma_small_mod};
use vstd::arithmetic::power2::{
    lemma2_to64, lemma2_to64_rest, lemma_pow2_pos, lemma_pow2_strictly_increases, pow2,
};
use vstd::bits::lemma_u64_shl_is_mul;
use crate::ieee::{
    is_nan, is_negative, scale, significand, FRACTION_MASK, IMPLICIT_BIT, SIGN_BIT,
};

verus! {

/// How many bits a product has beyond the 53 that a significand holds; at
/// most four for ten times a significand.
pub open spec fn excess_bits(p: nat) -> nat {
    if p < 0x0020_0000_0000_0000 {
        0
    } else if p < 0x0040_0000_0000_0000 {
        1
    } else if p < 0x0080_0000_0000_0000 {
        2
    } else if p < 0x0100_0000_0000_0000 {
        3
    } else {
        4
    }
}

/// `n / d` rounded to the nearest whole number, a tie going to the even one.
pub open spec fn round_half_even(n: nat, d: nat) -> nat {
    if 2 * (n % d) > d || (2 * (n % d) == d && (n / d) % 2 == 1) {
        n / d + 1
    } else {
        n / d
    }
}

/// `n / d` rounded to the nearest whole number, a tie going upward.
pub open spec fn round_half_up(n: nat, d: nat) -> nat {
    if 2 * (n % d) >= d {
        n / d + 1
    } else {
        n / d
    }
}

/// The significand of ten times the magnitude of a finite pattern, as
/// binary64 multiplication yields it.
pub open spec fn tenfold_significand(bits: u64) -> nat {
    let p = significand(bits) * 10;
    round_half_even(p, pow2(excess_bits(p)))
}

/// The scale that goes with `tenfold_significand`.
pub open spec fn tenfold_scale(bits: u64) -> int {
    scale(bits) + excess_bits(significand(bits) * 10)
}

/// Ten times the magnitude of a finite pattern, rounded to a whole number,
/// halves upward.
pub open spec fn tenths_magnitude(bits: u64) -> nat {
    let p = tenfold_significand(bits);
    let s = tenfold_scale(bits);
    if s >= 0 {
        p * pow2(s as nat)
    } else {
        round_half_up(p, pow2((-s) as nat))
    }
}

/// A time in tenths of a second: ten times the value, rounded to a whole
/// number with halves away from zero, held to the range of a 64-bit signed
/// integer, and zero for a NaN.
pub open spec fn tenths(bits: u64) -> int {
    let size = tenths_magnitude(bits) as int;
    if is_nan(bits) {
        0
    } else if is_negative(bits) {
        if size >= 0x8000_0000_0000_0000 {
            i64::MIN as int
        } else {
            -size
        }
    } else {
        if size >= 0x8000_0000_0000_0000 {
            i64::MAX as int
        } else {
            size
        }
    }
}

fn tenfold(m: u64) -> (r: (u64, u64))
    requires
        m < 0x0020_0000_0000_0000,
    ensures
        r.1 == excess_bits((m * 10) as nat),
        r.0 == round_half_even((m * 10) as nat, pow2(r.1 as nat)),
        r.0 <= 0x0020_0000_0000_0000,
        m >= 0x0010_0000_0000_0000 ==> r.0 >= 0x0010_0000_0000_0000,
{
    let p: u64 = m * 10;
    let k: u64 = if p < 0x0020_0000_0000_0000 {
        0
    } else if p < 0x0040_0000_0000_0000 {
        1
    } else if p < 0x0080_0000_0000_0000 {
        2
    } else if p < 0x0100_0000_0000_0000 {
        3
    } else {
        4
    };
    let d: u64 = if k == 0 {
        1
    } else if k == 1 {
        2
    } else if k == 2 {
        4
    } else if k == 3 {
        8
    } else {
        16
    };
    proof {
        lemma2_to64();
    }
    let whole: u64 = p / d;
    let rest: u64 = p % d;
    if rest > d - rest || (rest == d - rest && whole % 2 == 1) {
        (whole + 1, k)
    } else {
        (whole, k)
    }
}

/// Rounds a time, given as a bit pattern, to tenths of a second.
pub fn time_tenths(bits: u64) -> (r: i64)
    ensures
        r == tenths(bits),
{
    let e: u64 = (bits >> 52) & 0x7FF;
    let f: u64 = bits & FRACTION_MASK;
    let negative: bool = (bits & SIGN_BIT) != 0;
    assert(f < 0x0010_0000_0000_0000) by (bit_vector)
        requires
            f == bits & 0x000F_FFFF_FFFF_FFFF,
    ;
    assert(e <= 0x7FF) by (bit_vector)
        requires
            e == (bits >> 52) & 0x7FF,
    ;
    assert(((bits & 0x7FFF_FFFF_FFFF_FFFF) > 0x7FF0_0000_0000_0000) <==> (e == 0x7FF && f != 0))
        by (bit_vector)
        requires
            e == (bits >> 52) & 0x7FF,
            f == bits & 0x000F_FFFF_FFFF_FFFF,
    ;
    if e == 0x7FF && f != 0 {
        return 0;
    }
    let m: u64 = if e == 0 {
        f
    } else {
        IMPLICIT_BIT + f
    };
    let (p, k) = tenfold(m);
    let s: i64 = if e == 0 {
        -1074
    } else {
        e as i64 - 1075
    };
    let sk: i64 = s + k as i64;
    let size: u64 = if sk >= 0 {
        // The value is a whole number already.
        if sk >= 11 {
            proof {
                lemma2_to64();
                if sk > 11 {
                    lemma_pow2_strictly_increases(11, sk as nat);
                }
                assert(p * pow2(sk as nat) >= 0x8000_0000_0000_0000) by (nonlinear_arith)
                    requires
                        p >= 0x0010_0000_0000_0000,
                        pow2(sk as nat) >= 2048,
                ;
            }
            0x8000_0000_0000_0000
        } else if sk == 10 {
            proof {
                lemma2_to64();
            }
            if p >= 0x0020_0000_0000_0000 {
                0x8000_0000_0000_0000
            } else {
                p * 1024
            }
        } else {
            proof {
                lemma2_to64();
                if sk < 9 {
                    lemma_pow2_strictly_increases(sk as nat, 9);
                }
                assert(p * pow2(sk as nat) < 0x8000_0000_0000_0000) by (nonlinear_arith)
                    requires
                        p <= 0x0020_0000_0000_0000,
                        pow2(sk as nat) <= 512,
                ;
                lemma_u64_shl_is_mul(p, sk as u64);
            }
            p << (sk as u64)
        }
    } else {
        let down: u64 = (-sk) as u64;
        if down >= 64 {
            proof {
                lemma2_to64();
                lemma2_to64_rest();
                if down > 64 {
                    lemma_pow2_strictly_increases(64, down as nat);
                }
                lemma_basic_div(p as int, pow2(down as nat) as int);
                lemma_small_mod(p as nat, pow2(down as nat));
            }
            0
        } else {
            proof {
                lemma2_to64();
                lemma2_to64_rest();
                lemma_pow2_strictly_increases(down as nat, 64);
                lemma_u64_shl_is_mul(1, down);
                lemma_pow2_pos(down as nat);
            }
            let d: u64 = 1u64 << down;
            let whole: u64 = p / d;
            let rest: u64 = p % d;
            if rest >= d - rest {
                whole + 1
            } else {
                whole
            }
        }
    };
    assert(size >= 0x8000_0000_0000_0000 <==> tenths_magnitude(bits) >= 0x8000_0000_0000_0000);
    assert(size < 0x8000_0000_0000_0000 ==> size == tenths_magnitude(bits));
    if negative {
        if size >= 0x8000_0000_0000_0000 {
            i64::MIN
        } else {
            -(size as i64)
        }
    } else {
        if size >= 0x8000_0000_0000_0000 {
            i64::MAX
        } else {
            size as i64
        }
    }
}

} // verus!
