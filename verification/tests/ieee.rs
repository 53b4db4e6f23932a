use fcsgen_core::fixed::{doubled, fmt_distance, numeral_of};
use fcsgen_core::format::{fmt_penetration, fmt_time};
use fcsgen_core::tenths::time_tenths;
use fcsgen_core::ieee::{
    at_least, at_most, equals_zero, less_than, not_a_number, not_finite, truncate,
};

fn samples() -> Vec<f64> {
    vec![
        0.0,
        -0.0,
        1.0,
        -1.0,
        0.5,
        -0.5,
        0.999_999_999,
        1.5,
        2.0,
        3.999,
        -3.999,
        138.0,
        4500.0,
        4499.999_999,
        4500.000_001,
        1e-320,
        -1e-320,
        f64::MIN_POSITIVE,
        f64::EPSILON,
        4_503_599_627_370_496.0,
        4_503_599_627_370_497.0,
        9_007_199_254_740_992.0,
        9_007_199_254_740_993.0,
        1e18,
        -1e18,
        9_223_372_036_854_775_807.0,
        -9_223_372_036_854_775_808.0,
        9_223_372_036_854_774_784.0,
        1e19,
        -1e19,
        1e300,
        -1e300,
        f64::MAX,
        f64::MIN,
        f64::INFINITY,
        f64::NEG_INFINITY,
        f64::NAN,
        -f64::NAN,
        f64::from_bits(0x7FF0_0000_0000_0001),
        f64::from_bits(0xFFFF_FFFF_FFFF_FFFF),
    ]
}

#[test]
fn comparisons_agree_with_the_hardware() {
    for a in samples() {
        for b in samples() {
            let (x, y) = (a.to_bits(), b.to_bits());
            assert_eq!(less_than(x, y), a < b, "{a} < {b}");
            assert_eq!(at_most(x, y), a <= b, "{a} <= {b}");
            assert_eq!(at_least(x, y), a >= b, "{a} >= {b}");
        }
    }
}

#[test]
fn classification_agrees_with_the_hardware() {
    for a in samples() {
        let x = a.to_bits();
        assert_eq!(not_a_number(x), a.is_nan(), "{a}");
        assert_eq!(not_finite(x), a.is_infinite() || a.is_nan(), "{a}");
        assert_eq!(equals_zero(x), a == 0.0, "{a}");
    }
}

#[test]
fn truncation_agrees_with_the_hardware() {
    for a in samples() {
        assert_eq!(truncate(a.to_bits()), a as i64, "{a}");
    }
    assert_eq!(truncate(138.7_f64.to_bits()), 138);
    assert_eq!(truncate((-138.7_f64).to_bits()), -138);
    assert_eq!(truncate(f64::INFINITY.to_bits()), i64::MAX);
    assert_eq!(truncate(f64::NEG_INFINITY.to_bits()), i64::MIN);
    assert_eq!(truncate(f64::NAN.to_bits()), 0);
}

/// A time in floating point: rounded to one decimal, then written without a
/// decimal point where nothing follows it.
fn shown(t: f64) -> String {
    let time = (t * 10.0).round() / 10.0;
    if time.fract().abs() < 1e-9 {
        format!("{}", time as i64)
    } else {
        format!("{time:.1}")
    }
}

#[test]
fn test_fmt_time() {
    assert_eq!(fmt_time(0.0_f64.to_bits()), "0");
    assert_eq!(fmt_time(1.0_f64.to_bits()), "1");
    assert_eq!(fmt_time(10.0_f64.to_bits()), "10");
    assert_eq!(fmt_time(0.1_f64.to_bits()), "0.1");
    assert_eq!(fmt_time(3.5_f64.to_bits()), "3.5");
}

#[test]
fn fmt_time_rounds_half_away_from_zero() {
    assert_eq!(fmt_time(3.45_f64.to_bits()), "3.5");
    assert_eq!(fmt_time(3.44_f64.to_bits()), "3.4");
    assert_eq!(fmt_time(0.05_f64.to_bits()), "0.1");
    assert_eq!(fmt_time(0.04_f64.to_bits()), "0");
    assert_eq!(fmt_time(2.96_f64.to_bits()), "3");
    assert_eq!(fmt_time(0.25_f64.to_bits()), "0.3");
    assert_eq!(fmt_time((-0.25_f64).to_bits()), "-0.3");
    assert_eq!(fmt_time((-3.0_f64).to_bits()), "-3");
    assert_eq!(fmt_time((-0.04_f64).to_bits()), "0");
    // The product with ten is rounded before the halves are: 0.15 is below
    // fifteen hundredths, ten times it is one and a half exactly.
    assert_eq!(fmt_time(0.15_f64.to_bits()), "0.2");
    assert_eq!(fmt_time(f64::NAN.to_bits()), "0");
    assert_eq!(fmt_time(f64::INFINITY.to_bits()), "922337203685477580.7");
    assert_eq!(fmt_time(f64::NEG_INFINITY.to_bits()), "-922337203685477580.8");
}

#[test]
fn time_tenths_agrees_with_the_hardware() {
    for a in samples() {
        assert_eq!(time_tenths(a.to_bits()), (a * 10.0).round() as i64, "{a:e}");
    }
    for e in 0..2047_u64 {
        for f in [0_u64, 1, 0x8_0000_0000_0000, 0xF_FFFF_FFFF_FFFF, 0x3_3333_3333_3333, 0x9_9999_9999_999A] {
            let a = f64::from_bits((e << 52) | f);
            assert_eq!(time_tenths(a.to_bits()), (a * 10.0).round() as i64, "{a:e}");
            assert_eq!(time_tenths((-a).to_bits()), (-a * 10.0).round() as i64, "-{a:e}");
        }
    }
    for n in 0..20_000_u32 {
        let a = f64::from(n) / 200.0;
        assert_eq!(time_tenths(a.to_bits()), (a * 10.0).round() as i64, "{a:e}");
        let b = f64::from(n) * 0.005;
        assert_eq!(time_tenths(b.to_bits()), (b * 10.0).round() as i64, "{b:e}");
    }
}

#[test]
fn fmt_time_agrees_with_float_formatting() {
    // The clock of a flight: a sum of steps of a hundredth of a second.
    let mut t = 0.0_f64;
    for _ in 0..30_000 {
        assert_eq!(fmt_time(t.to_bits()), shown(t), "{t:e}");
        t += 0.01;
    }
    for a in [0.15_f64, 0.25, 0.35, 1e-320, 1e-9, 0.049_999_999, 12_345.678, 1e9 + 0.25, 1e12 + 0.75] {
        assert_eq!(fmt_time(a.to_bits()), shown(a), "{a:e}");
        assert_eq!(fmt_time((-a).to_bits()), shown(-a), "-{a:e}");
    }
}

#[test]
fn fmt_penetration_finite_and_not() {
    assert_eq!(fmt_penetration(138.0_f64.to_bits()), "138");
    assert_eq!(fmt_penetration(0.0_f64.to_bits()), "0");
    assert_eq!(fmt_penetration((-0.0_f64).to_bits()), "0");
    assert_eq!(fmt_penetration(99.9_f64.to_bits()), "99");
    assert_eq!(fmt_penetration((-12.5_f64).to_bits()), "-12");
    assert_eq!(fmt_penetration(1e30_f64.to_bits()), "9223372036854775807");
    assert_eq!(fmt_penetration((-1e30_f64).to_bits()), "-9223372036854775808");
    assert_eq!(fmt_penetration(f64::INFINITY.to_bits()), "\u{221E}");
    assert_eq!(fmt_penetration(f64::NEG_INFINITY.to_bits()), "\u{221E}");
    assert_eq!(fmt_penetration(f64::NAN.to_bits()), "\u{221E}");
}

#[test]
fn fmt_penetration_agrees_with_the_cast() {
    for a in samples() {
        let expected = if a.is_infinite() || a.is_nan() {
            "\u{221E}".to_owned()
        } else {
            format!("{}", a as i64)
        };
        assert_eq!(fmt_penetration(a.to_bits()), expected, "{a}");
    }
}

#[test]
fn fmt_distance_agrees_with_float_formatting() {
    for a in samples() {
        assert_eq!(fmt_distance(a.to_bits()), format!("{a:.3}"), "{a:e}");
    }
    let more: [f64; 32] = [
        0.0005,
        0.0015,
        0.0004999,
        0.000_500_000_1,
        0.0625,
        0.1875,
        0.3125,
        -0.0625,
        0.9995,
        0.99949,
        1.0005,
        999.9995,
        1234.5678,
        4499.9994,
        4499.9995,
        4500.0,
        2.5e-4,
        7.5e-4,
        1e-3,
        1e-9,
        -1e-9,
        5e-324,
        123_456_789.123_456_79,
        4_503_599_627_370_495.5,
        2_251_799_813_685_247.75,
        1_125_899_906_842_623.875,
        562_949_953_421_311.9375,
        1.5e16,
        1e22,
        1e23,
        3e35,
        1.7976931348623157e308,
    ];
    for a in more {
        assert_eq!(fmt_distance(a.to_bits()), format!("{a:.3}"), "{a:e}");
        assert_eq!(fmt_distance((-a).to_bits()), format!("{:.3}", -a), "-{a:e}");
    }
    // Every pattern with a sparse set of exponents and a few fractions.
    for e in (0..2047_u64).step_by(7) {
        for f in [0_u64, 1, 0x8_0000_0000_0000, 0xF_FFFF_FFFF_FFFF, 0x5_5555_5555_5555] {
            let a = f64::from_bits((e << 52) | f);
            assert_eq!(fmt_distance(a.to_bits()), format!("{a:.3}"), "{a:e}");
        }
    }
    // Ties: k / 2000 with odd k is a tie exactly when it is a binary fraction.
    for k in 0..4096_u64 {
        let a = k as f64 / 4096.0 * 8.0;
        assert_eq!(fmt_distance(a.to_bits()), format!("{a:.3}"), "{a:e}");
    }
}

#[test]
fn fmt_distance_named_values() {
    assert_eq!(fmt_distance(0.0_f64.to_bits()), "0.000");
    assert_eq!(fmt_distance((-0.0_f64).to_bits()), "-0.000");
    assert_eq!(fmt_distance(1000.25_f64.to_bits()), "1000.250");
    assert_eq!(fmt_distance(0.0625_f64.to_bits()), "0.062");
    assert_eq!(fmt_distance(0.1875_f64.to_bits()), "0.188");
    assert_eq!(fmt_distance(f64::NAN.to_bits()), "NaN");
    assert_eq!(fmt_distance((-f64::NAN).to_bits()), "NaN");
    assert_eq!(fmt_distance(f64::INFINITY.to_bits()), "inf");
    assert_eq!(fmt_distance(f64::NEG_INFINITY.to_bits()), "-inf");
    assert_eq!(
        fmt_distance(2.0_f64.powi(70).to_bits()),
        "1180591620717411303424.000"
    );
}

#[test]
fn numerals_double() {
    assert_eq!(numeral_of(1), vec![1]);
    assert_eq!(numeral_of(9), vec![9]);
    assert_eq!(numeral_of(10), vec![1, 0]);
    assert_eq!(numeral_of(u64::MAX).len(), 20);
    assert_eq!(doubled(&vec![4]), vec![8]);
    assert_eq!(doubled(&vec![5]), vec![1, 0]);
    assert_eq!(doubled(&vec![9, 9, 9]), vec![1, 9, 9, 8]);
    assert_eq!(doubled(&vec![1, 4, 9, 5]), vec![2, 9, 9, 0]);
    let mut n = numeral_of(1);
    for _ in 0..64 {
        n = doubled(&n);
    }
    let text: String = n.iter().map(|d| char::from(b'0' + d)).collect();
    assert_eq!(text, "18446744073709551616");
}
