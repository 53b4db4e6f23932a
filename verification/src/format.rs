//! Text rendering of the table's numeric fields.

use vstd::prelude::*;
use vstd::string::StringExecFns;
use crate::ieee::{is_infinite, is_nan, not_finite, truncate, truncated};
use crate::tenths::{tenths, time_tenths};

verus! {

/// The character for one decimal digit.
pub open spec fn digit(d: nat) -> char {
    if d == 0 {
        '0'
    } else if d == 1 {
        '1'
    } else if d == 2 {
        '2'
    } else if d == 3 {
        '3'
    } else if d == 4 {
        '4'
    } else if d == 5 {
        '5'
    } else if d == 6 {
        '6'
    } else if d == 7 {
        '7'
    } else if d == 8 {
        '8'
    } else {
        '9'
    }
}

/// Decimal notation of a natural number, without leading zeros.
pub open spec fn decimal(n: nat) -> Seq<char>
    decreases n,
{
    if n < 10 {
        seq![digit(n)]
    } else {
        decimal(n / 10).push(digit(n % 10))
    }
}

/// Decimal notation of an integer, with a minus sign for negative values.
pub open spec fn signed_decimal(n: int) -> Seq<char> {
    if n < 0 {
        seq!['-'] + decimal((-n) as nat)
    } else {
        decimal(n as nat)
    }
}

/// A time given in tenths of a second: whole seconds are written without a
/// decimal point, any other value with exactly one decimal digit.
pub open spec fn time_text(count: int) -> Seq<char> {
    let size = if count < 0 {
        -count
    } else {
        count
    };
    let sign = if count < 0 {
        seq!['-']
    } else {
        Seq::<char>::empty()
    };
    if size % 10 == 0 {
        sign + decimal((size / 10) as nat)
    } else {
        sign + decimal((size / 10) as nat) + seq!['.', digit((size % 10) as nat)]
    }
}

/// The sign that stands for a penetration without bound.
pub open spec fn infinity_glyph() -> Seq<char> {
    seq!['\u{221E}']
}

/// A penetration value: the integer part for a finite value, the infinity
/// glyph for an infinity or a NaN.
pub open spec fn penetration_text(bits: u64) -> Seq<char> {
    if is_infinite(bits) || is_nan(bits) {
        infinity_glyph()
    } else {
        signed_decimal(truncated(bits))
    }
}

/// One of the ten digit characters.
pub open spec fn is_digit(c: char) -> bool {
    c == '0' || c == '1' || c == '2' || c == '3' || c == '4' || c == '5' || c == '6' || c == '7'
        || c == '8' || c == '9'
}

/// A character that a field of the table can hold: a digit, the decimal
/// point, the minus sign, a letter of `NaN` or `inf`, or the infinity glyph.
pub open spec fn is_field_char(c: char) -> bool {
    is_digit(c) || c == '.' || c == '-' || c == 'N' || c == 'a' || c == 'i' || c == 'n' || c
        == 'f' || c == '\u{221E}'
}

/// A text made of field characters only; it holds neither a tab nor a newline.
pub open spec fn is_field(s: Seq<char>) -> bool {
    forall|i: int| 0 <= i < s.len() ==> is_field_char(#[trigger] s[i])
}

/// Two fields in a row are a field.
pub proof fn fields_join(a: Seq<char>, b: Seq<char>)
    requires
        is_field(a),
        is_field(b),
    ensures
        is_field(a + b),
{
    assert forall|i: int| 0 <= i < (a + b).len() implies is_field_char(#[trigger] (a + b)[i]) by {
        if i < a.len() {
            assert((a + b)[i] == a[i]);
        } else {
            assert((a + b)[i] == b[i - a.len()]);
        }
    }
}

/// Decimal notation is a field.
pub proof fn decimal_is_field(n: nat)
    ensures
        is_field(decimal(n)),
{
    decimal_holds_digits(n);
    assert forall|i: int| 0 <= i < decimal(n).len() implies is_field_char(
        #[trigger] decimal(n)[i],
    ) by {
        assert(is_digit(decimal(n)[i]));
    }
}

/// A rendered time is a field.
pub proof fn time_text_is_field(n: int)
    ensures
        is_field(time_text(n)),
{
    let size = if n < 0 {
        -n
    } else {
        n
    };
    let sign = if n < 0 {
        seq!['-']
    } else {
        Seq::<char>::empty()
    };
    decimal_is_field((size / 10) as nat);
    fields_join(sign, decimal((size / 10) as nat));
    if size % 10 != 0 {
        let tail = seq!['.', digit((size % 10) as nat)];
        assert(is_digit(tail[1]));
        assert(is_field(tail));
        fields_join(sign + decimal((size / 10) as nat), tail);
    }
}

/// A rendered penetration is a field.
pub proof fn penetration_text_is_field(bits: u64)
    ensures
        is_field(penetration_text(bits)),
{
    let n = truncated(bits);
    if n < 0 {
        decimal_is_field((-n) as nat);
        fields_join(seq!['-'], decimal((-n) as nat));
    } else {
        decimal_is_field(n as nat);
    }
}

/// Decimal notation holds at least one character, and digits only.
pub proof fn decimal_holds_digits(n: nat)
    ensures
        decimal(n).len() >= 1,
        forall|i: int| 0 <= i < decimal(n).len() ==> is_digit(#[trigger] decimal(n)[i]),
    decreases n,
{
    if n >= 10 {
        decimal_holds_digits(n / 10);
    }
}

/// A whole number of seconds is written without a decimal point. Any other
/// time ends in a point and exactly one digit, which is not zero, and holds no
/// other point.
pub proof fn time_text_shape(n: int)
    ensures
        n % 10 == 0 ==> forall|i: int|
            0 <= i < time_text(n).len() ==> #[trigger] time_text(n)[i] != '.',
        n % 10 != 0 ==> {
            let t = time_text(n);
            &&& t.len() >= 3
            &&& t[t.len() - 2] == '.'
            &&& is_digit(t[t.len() - 1])
            &&& t[t.len() - 1] != '0'
            &&& forall|i: int| 0 <= i < t.len() - 2 ==> #[trigger] t[i] != '.'
        },
{
    let size = if n < 0 {
        -n
    } else {
        n
    };
    let sign = if n < 0 {
        seq!['-']
    } else {
        Seq::<char>::empty()
    };
    let whole = decimal((size / 10) as nat);
    let head = sign + whole;
    decimal_holds_digits((size / 10) as nat);
    assert forall|i: int| 0 <= i < head.len() implies #[trigger] head[i] != '.' by {
        if i >= sign.len() {
            assert(head[i] == whole[i - sign.len()]);
            assert(is_digit(whole[i - sign.len()]));
        }
    }
    if size % 10 == 0 {
        assert(time_text(n) == head);
    } else {
        let d = digit((size % 10) as nat);
        let tail = seq!['.', d];
        let t = head + tail;
        assert(time_text(n) == t);
        assert(t.len() == head.len() + 2);
        assert(t[t.len() - 2] == tail[0]);
        assert(t[t.len() - 1] == tail[1]);
        assert(is_digit(d) && d != '0');
        assert forall|i: int| 0 <= i < t.len() - 2 implies #[trigger] t[i] != '.' by {
            assert(t[i] == head[i]);
        }
    }
}

/// A finite penetration is written as an integer: an optional minus sign, then
/// digits only. Anything else is written as the infinity glyph.
pub proof fn penetration_text_shape(bits: u64)
    ensures
        (is_infinite(bits) || is_nan(bits)) ==> penetration_text(bits) == infinity_glyph(),
        !(is_infinite(bits) || is_nan(bits)) ==> {
            let t = penetration_text(bits);
            &&& t == signed_decimal(truncated(bits))
            &&& t.len() >= 1
            &&& forall|i: int| 1 <= i < t.len() ==> is_digit(#[trigger] t[i])
            &&& (is_digit(t[0]) || (t[0] == '-' && truncated(bits) < 0))
        },
{
    let n = truncated(bits);
    if n < 0 {
        decimal_holds_digits((-n) as nat);
    } else {
        decimal_holds_digits(n as nat);
    }
}

/// The text of one decimal digit.
pub fn digit_text(d: u64) -> (r: &'static str)
    requires
        d < 10,
    ensures
        r@ == seq![digit(d as nat)],
{
    proof {
        reveal_strlit("0");
        reveal_strlit("1");
        reveal_strlit("2");
        reveal_strlit("3");
        reveal_strlit("4");
        reveal_strlit("5");
        reveal_strlit("6");
        reveal_strlit("7");
        reveal_strlit("8");
        reveal_strlit("9");
    }
    let r = if d == 0 {
        "0"
    } else if d == 1 {
        "1"
    } else if d == 2 {
        "2"
    } else if d == 3 {
        "3"
    } else if d == 4 {
        "4"
    } else if d == 5 {
        "5"
    } else if d == 6 {
        "6"
    } else if d == 7 {
        "7"
    } else if d == 8 {
        "8"
    } else {
        "9"
    };
    assert(r@ =~= seq![digit(d as nat)]);
    r
}

/// Appends the decimal notation of `n` to `out`.
pub fn push_decimal(out: &mut String, n: u64)
    ensures
        final(out)@ == old(out)@ + decimal(n as nat),
    decreases n,
{
    if n >= 10 {
        push_decimal(out, n / 10);
    }
    out.append(digit_text(n % 10));
    assert(final(out)@ =~= old(out)@ + decimal(n as nat));
}

/// Appends the decimal notation of `n`, with its sign, to `out`.
pub fn push_signed_decimal(out: &mut String, n: i64)
    ensures
        final(out)@ == old(out)@ + signed_decimal(n as int),
{
    if n < 0 {
        proof {
            reveal_strlit("-");
        }
        out.append("-");
        let size: u64 = if n == i64::MIN {
            0x8000_0000_0000_0000
        } else {
            (-n) as u64
        };
        push_decimal(out, size);
        assert(final(out)@ =~= old(out)@ + signed_decimal(n as int));
    } else {
        push_decimal(out, n as u64);
    }
}

/// Appends a time, given in tenths of a second, to `out`.
pub fn push_time(out: &mut String, count: i64)
    ensures
        final(out)@ == old(out)@ + time_text(count as int),
{
    let size: u64 = if count < 0 {
        proof {
            reveal_strlit("-");
        }
        out.append("-");
        if count == i64::MIN {
            0x8000_0000_0000_0000
        } else {
            (-count) as u64
        }
    } else {
        count as u64
    };
    push_decimal(out, size / 10);
    if size % 10 != 0 {
        proof {
            reveal_strlit(".");
        }
        out.append(".");
        out.append(digit_text(size % 10));
    }
    assert(final(out)@ =~= old(out)@ + time_text(count as int));
}

/// Appends a penetration value, given as a bit pattern, to `out`.
pub fn push_penetration(out: &mut String, bits: u64)
    ensures
        final(out)@ == old(out)@ + penetration_text(bits),
{
    if not_finite(bits) {
        proof {
            reveal_strlit("\u{221E}");
        }
        out.append("\u{221E}");
        assert(final(out)@ =~= old(out)@ + penetration_text(bits));
    } else {
        push_signed_decimal(out, truncate(bits));
    }
}

/// Renders a time in seconds, given as a bit pattern: rounded to tenths,
/// halves away from zero, and written without a decimal point where the
/// rounded time is a whole number of seconds.
pub fn fmt_time(bits: u64) -> (r: String)
    ensures
        r@ == time_text(tenths(bits)),
{
    let mut out = String::new();
    push_time(&mut out, time_tenths(bits));
    assert(out@ =~= time_text(tenths(bits)));
    out
}

/// Renders a penetration value given as a bit pattern.
pub fn fmt_penetration(bits: u64) -> (r: String)
    ensures
        r@ == penetration_text(bits),
{
    let mut out = String::new();
    push_penetration(&mut out, bits);
    assert(out@ =~= penetration_text(bits));
    out
}

} // verus!
