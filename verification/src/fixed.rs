//! Fixed-point rendering of a binary64 value with three decimals: the exact
//! value times one thousand, rounded to the nearest whole number with ties
//! to the even one, written in decimal notation.

use vstd::prelude::*;
use vstd::arithmetic::div_mod::{lemma_basic_div, lemma_small_mod};
use vstd::arithmetic::power2::{
    lemma2_to64, lemma2_to64_rest, lemma_pow2_pos, lemma_pow2_strictly_increases,
    lemma_pow2_unfold, pow2,
};
use vstd::bits::lemma_u64_shl_is_mul;
use vstd::string::StringExecFns;
use crate::format::{
    decimal, decimal_is_field, digit, digit_text, fields_join, is_digit, is_field, push_decimal,
};
use crate::ieee::{
    is_infinite, is_nan, is_negative, scale, significand, FRACTION_MASK, IMPLICIT_BIT, SIGN_BIT,
};

verus! {

/// The magnitude of a finite pattern in thousandths, rounded to the nearest
/// whole number, a tie going to the even one.
pub open spec fn thousandths(bits: u64) -> nat {
    let n = significand(bits) * 1000;
    let s = scale(bits);
    if s >= 0 {
        n * pow2(s as nat)
    } else {
        let d = pow2((-s) as nat);
        let q = n / d;
        let r = n % d;
        if 2 * r > d || (2 * r == d && q % 2 == 1) {
            q + 1
        } else {
            q
        }
    }
}

/// A number of thousandths as a decimal fraction with three decimals.
pub open spec fn thousandths_text(q: nat) -> Seq<char> {
    decimal(q / 1000) + seq!['.', digit(q / 100 % 10), digit(q / 10 % 10), digit(q % 10)]
}

/// A value with three decimals: `NaN` for a NaN, `inf` for an infinity, the
/// rounded decimal fraction otherwise, with a minus sign wherever the sign bit
/// is set on anything but a NaN.
pub open spec fn distance_text(bits: u64) -> Seq<char> {
    let sign = if is_negative(bits) {
        seq!['-']
    } else {
        Seq::<char>::empty()
    };
    if is_nan(bits) {
        seq!['N', 'a', 'N']
    } else if is_infinite(bits) {
        sign + seq!['i', 'n', 'f']
    } else {
        sign + thousandths_text(thousandths(bits))
    }
}

/// A rendered distance is a field.
pub proof fn distance_text_is_field(bits: u64)
    ensures
        is_field(distance_text(bits)),
{
    let sign = if is_negative(bits) {
        seq!['-']
    } else {
        Seq::<char>::empty()
    };
    let q = thousandths(bits);
    let tail = seq!['.', digit(q / 100 % 10), digit(q / 10 % 10), digit(q % 10)];
    assert(is_digit(tail[1]) && is_digit(tail[2]) && is_digit(tail[3]));
    assert(is_field(tail));
    decimal_is_field(q / 1000);
    fields_join(decimal(q / 1000), tail);
    fields_join(sign, thousandths_text(q));
    fields_join(sign, seq!['i', 'n', 'f']);
}

/// The number that a sequence of decimal digits denotes, the most significant
/// digit first.
pub open spec fn digits_value(ds: Seq<u8>) -> nat
    decreases ds.len(),
{
    if ds.len() == 0 {
        0
    } else {
        digits_value(ds.drop_last()) * 10 + ds.last() as nat
    }
}

/// A positive number in decimal digits, without leading zeros.
pub open spec fn is_numeral(ds: Seq<u8>) -> bool {
    &&& ds.len() >= 1
    &&& forall|i: int| 0 <= i < ds.len() ==> ds[i] < 10
    &&& ds[0] != 0
}

/// The characters of a sequence of digits.
pub open spec fn digits_text(ds: Seq<u8>) -> Seq<char> {
    ds.map_values(|d: u8| digit(d as nat))
}

proof fn numeral_is_positive(ds: Seq<u8>)
    requires
        is_numeral(ds),
    ensures
        digits_value(ds) >= 1,
    decreases ds.len(),
{
    if ds.len() > 1 {
        assert(ds.drop_last()[0] == ds[0]);
        numeral_is_positive(ds.drop_last());
    } else {
        assert(ds.drop_last().len() == 0);
        assert(ds.last() == ds[0]);
    }
}

/// A numeral is the decimal notation of the number it denotes.
pub proof fn numeral_is_decimal(ds: Seq<u8>)
    requires
        is_numeral(ds),
    ensures
        decimal(digits_value(ds)) == digits_text(ds),
    decreases ds.len(),
{
    if ds.len() == 1 {
        assert(ds.drop_last().len() == 0);
        assert(digits_value(ds.drop_last()) == 0);
        assert(digits_text(ds) =~= seq![digit(ds[0] as nat)]);
    } else {
        let head = ds.drop_last();
        assert(head[0] == ds[0]);
        numeral_is_decimal(head);
        numeral_is_positive(head);
        let v = digits_value(head);
        assert(digits_value(ds) == v * 10 + ds.last() as nat);
        assert((v * 10 + ds.last() as nat) / 10 == v);
        assert((v * 10 + ds.last() as nat) % 10 == ds.last() as nat);
        assert(digits_text(ds) =~= digits_text(head).push(digit(ds.last() as nat)));
    }
}

/// The numeral of a positive number.
pub fn numeral_of(n: u64) -> (ds: Vec<u8>)
    requires
        n >= 1,
    ensures
        is_numeral(ds@),
        digits_value(ds@) == n,
    decreases n,
{
    if n < 10 {
        let ds: Vec<u8> = vec![n as u8];
        assert(ds@.drop_last().len() == 0);
        assert(digits_value(ds@.drop_last()) == 0);
        assert(ds@.last() == n);
        ds
    } else {
        let mut ds = numeral_of(n / 10);
        let ghost head = ds@;
        ds.push((n % 10) as u8);
        assert(ds@.drop_last() =~= head);
        assert(ds@.last() == n % 10);
        assert(ds@[0] == head[0]);
        ds
    }
}

/// The numeral of twice the number.
pub fn doubled(ds: &Vec<u8>) -> (r: Vec<u8>)
    requires
        is_numeral(ds@),
    ensures
        is_numeral(r@),
        digits_value(r@) == 2 * digits_value(ds@),
{
    let mut r: Vec<u8> = Vec::new();
    if ds[0] >= 5 {
        r.push(1);
        assert(r@.drop_last().len() == 0);
        assert(digits_value(r@.drop_last()) == 0);
        assert(r@.last() == 1);
    }
    assert(ds@.take(0).len() == 0);
    assert(digits_value(ds@.take(0)) == 0);
    let mut i: usize = 0;
    while i < ds.len()
        invariant
            is_numeral(ds@),
            i <= ds@.len(),
            forall|j: int| 0 <= j < r@.len() ==> r@[j] < 10,
            r@.len() > 0 ==> r@[0] != 0,
            i > 0 ==> r@.len() > 0,
            digits_value(r@) == 2 * digits_value(ds@.take(i as int)) + (if i < ds@.len() && ds@[i as int]
                >= 5 {
                1nat
            } else {
                0nat
            }),
        decreases ds@.len() - i,
    {
        let next: u8 = if i + 1 < ds.len() && ds[i + 1] >= 5 {
            1
        } else {
            0
        };
        let e: u8 = (2 * ds[i] + next) % 10;
        let ghost before = r@;
        r.push(e);
        proof {
            assert(r@.drop_last() =~= before);
            assert(ds@.take(i + 1).drop_last() =~= ds@.take(i as int));
            assert(ds@.take(i + 1).last() == ds@[i as int]);
        }
        i += 1;
    }
    assert(ds@.take(ds@.len() as int) =~= ds@);
    r
}

fn push_numeral(out: &mut String, ds: &Vec<u8>)
    requires
        forall|i: int| 0 <= i < ds@.len() ==> ds@[i] < 10,
    ensures
        final(out)@ == old(out)@ + digits_text(ds@),
{
    let mut i: usize = 0;
    while i < ds.len()
        invariant
            i <= ds@.len(),
            forall|i: int| 0 <= i < ds@.len() ==> ds@[i] < 10,
            out@ == old(out)@ + digits_text(ds@.take(i as int)),
        decreases ds@.len() - i,
    {
        let ghost before = out@;
        out.append(digit_text(ds[i] as u64));
        assert(out@ =~= old(out)@ + digits_text(ds@.take(i + 1))) by {
            assert(digits_text(ds@.take(i + 1)) =~= digits_text(ds@.take(i as int)).push(
                digit(ds@[i as int] as nat),
            ));
        }
        i += 1;
    }
    assert(ds@.take(ds@.len() as int) =~= ds@);
}

/// Appends a number of thousandths as a decimal fraction.
fn push_thousandths(out: &mut String, q: u64)
    ensures
        final(out)@ == old(out)@ + thousandths_text(q as nat),
{
    proof {
        reveal_strlit(".");
    }
    push_decimal(out, q / 1000);
    out.append(".");
    out.append(digit_text(q / 100 % 10));
    out.append(digit_text(q / 10 % 10));
    out.append(digit_text(q % 10));
    assert(final(out)@ =~= old(out)@ + thousandths_text(q as nat));
}

/// The thousandths of a significand scaled down by `2^down`.
fn scaled_down(m: u64, down: u64) -> (q: u64)
    requires
        m < 0x0020_0000_0000_0000,
        1 <= down <= 1074,
    ensures
        q == {
            let n = (m * 1000) as nat;
            let d = pow2(down as nat);
            if 2 * (n % d) > d || (2 * (n % d) == d && (n / d) % 2 == 1) {
                n / d + 1
            } else {
                n / d
            }
        },
{
    let n: u64 = m * 1000;
    if down >= 64 {
        proof {
            lemma2_to64();
            lemma2_to64_rest();
            if down > 64 {
                lemma_pow2_strictly_increases(64, down as nat);
            }
            lemma_basic_div(n as int, pow2(down as nat) as int);
            lemma_small_mod(n as nat, pow2(down as nat));
        }
        return 0;
    }
    proof {
        lemma2_to64();
        lemma2_to64_rest();
        lemma_pow2_strictly_increases(down as nat, 64);
        lemma_u64_shl_is_mul(1, down);
        lemma_pow2_pos(down as nat);
    }
    let d: u64 = 1u64 << down;
    let whole: u64 = n / d;
    let rest: u64 = n % d;
    if rest > d - rest || (rest == d - rest && whole % 2 == 1) {
        whole + 1
    } else {
        whole
    }
}

/// Appends a value with three decimals, given as a bit pattern.
pub fn push_distance(out: &mut String, bits: u64)
    ensures
        final(out)@ == old(out)@ + distance_text(bits),
{
    let e: u64 = (bits >> 52) & 0x7FF;
    let f: u64 = bits & FRACTION_MASK;
    let negative: bool = (bits & SIGN_BIT) != 0;
    assert(f < 0x0010_0000_0000_0000) by (bit_vector)
        requires
            f == bits & 0x000F_FFFF_FFFF_FFFF,
    ;
    assert(e <= 0x7FF) by (bit_vector)
        requires
            e == (bits >> 52) & 0x7FF,
    ;
    assert(((bits & 0x7FFF_FFFF_FFFF_FFFF) > 0x7FF0_0000_0000_0000) <==> (e == 0x7FF && f != 0))
        by (bit_vector)
        requires
            e == (bits >> 52) & 0x7FF,
            f == bits & 0x000F_FFFF_FFFF_FFFF,
    ;
    assert(((bits & 0x7FFF_FFFF_FFFF_FFFF) == 0x7FF0_0000_0000_0000) <==> (e == 0x7FF && f == 0))
        by (bit_vector)
        requires
            e == (bits >> 52) & 0x7FF,
            f == bits & 0x000F_FFFF_FFFF_FFFF,
    ;
    if e == 0x7FF && f != 0 {
        proof {
            reveal_strlit("NaN");
        }
        out.append("NaN");
        assert(final(out)@ =~= old(out)@ + distance_text(bits));
        return ;
    }
    if negative {
        proof {
            reveal_strlit("-");
        }
        out.append("-");
    }
    let ghost signed = out@;
    if e == 0x7FF {
        proof {
            reveal_strlit("inf");
        }
        out.append("inf");
        assert(final(out)@ =~= old(out)@ + distance_text(bits));
    } else if e < 1075 {
        let q: u64 = if e == 0 {
            scaled_down(f, 1074)
        } else {
            scaled_down(IMPLICIT_BIT + f, 1075 - e)
        };
        assert(q == thousandths(bits));
        push_thousandths(out, q);
        assert(final(out)@ =~= old(out)@ + distance_text(bits));
    } else {
        let m: u64 = IMPLICIT_BIT + f;
        let up: u64 = e - 1075;
        let mut ds = numeral_of(m);
        let mut k: u64 = 0;
        proof {
            lemma2_to64();
        }
        while k < up
            invariant
                k <= up,
                is_numeral(ds@),
                digits_value(ds@) == m * pow2(k as nat),
            decreases up - k,
        {
            ds = doubled(&ds);
            proof {
                lemma_pow2_unfold((k + 1) as nat);
                assert(2 * (m * pow2(k as nat)) == m * (2 * pow2(k as nat))) by (nonlinear_arith);
            }
            k += 1;
        }
        proof {
            reveal_strlit(".000");
            numeral_is_decimal(ds@);
            let whole = digits_value(ds@);
            let q = thousandths(bits);
            assert(q == (m * 1000) * pow2(up as nat));
            assert(q == whole * 1000) by (nonlinear_arith)
                requires
                    q == (m * 1000) * pow2(up as nat),
                    whole == m * pow2(up as nat),
            ;
            assert(q / 1000 == whole);
            assert(q / 100 % 10 == 0);
            assert(q / 10 % 10 == 0);
            assert(q % 10 == 0);
        }
        push_numeral(out, &ds);
        out.append(".000");
        assert(final(out)@ =~= old(out)@ + distance_text(bits));
    }
}

/// Renders a value with three decimals, given as a bit pattern.
pub fn fmt_distance(bits: u64) -> (r: String)
    ensures
        r@ == distance_text(bits),
{
    let mut out = String::new();
    push_distance(&mut out, bits);
    assert(out@ =~= distance_text(bits));
    out
}

} // verus!
