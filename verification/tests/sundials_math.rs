use arkode::binary64::sunrealtype;
use arkode::sundials_math::{
    SUNIpowerI, SUNRCompare, SUNRCompareTol, SUNRabs, SUNRceil, SUNRcopysign, SUNRdifferentsign,
    SUNRpowerI, SUNRround, SUNRsamesign, SUNRsqrt, SUNMAX, SUNMIN, SUNSQR,
};
use arkode::text::SUNStrToReal;

fn r(x: f64) -> sunrealtype {
    sunrealtype { bits: x.to_bits() }
}

fn f(x: sunrealtype) -> f64 {
    f64::from_bits(x.bits)
}

#[test]
fn powers() {
    assert_eq!(SUNIpowerI(2, 10), 1024);
    assert_eq!(SUNIpowerI(3, 0), 1);
    assert_eq!(f(SUNRpowerI(r(2.0), -2)), 0.25);
    assert_eq!(f(SUNRpowerI(r(10.0), 3)), 1000.0);
}

#[test]
fn compare() {
    assert!(!SUNRCompare(r(1.0), r(1.0)));
    assert!(SUNRCompare(r(1.0), r(1.001)));
    assert!(SUNRCompare(r(f64::NAN), r(1.0)));
    assert!(!SUNRCompare(r(f64::INFINITY), r(f64::INFINITY)));
}

#[test]
fn str_to_real() {
    assert_eq!(f(SUNStrToReal("1e-3")), 1e-3);
    assert_eq!(f(SUNStrToReal("  -2.5rest")), -2.5);
    assert_eq!(f(SUNStrToReal("junk")), 0.0);
    assert_eq!(f(SUNStrToReal(".5")), 0.5);
    assert_eq!(f(SUNStrToReal("3.")), 3.0);
    assert_eq!(f(SUNStrToReal("1e")), 1.0);
    assert_eq!(f(SUNStrToReal("inf")), f64::INFINITY);
    assert_eq!(f(SUNStrToReal("-Infinity")), f64::NEG_INFINITY);
}

#[test]
fn sqrt_guard() {
    assert_eq!(f(SUNRsqrt(r(-4.0))), 0.0);
    assert_eq!(f(SUNRsqrt(r(4.0))), 2.0);
}

/// The result of reading a text is the result of parsing its longest prefix
/// that is a number.
#[test]
fn texts_round_like_the_nearest_double() {
    let texts = [
        "0", "-0", "0.1", "0.2", "0.3", "123456789", "1.7976931348623157e308",
        "1.7976931348623159e308", "4.9e-324", "2.4703282292062327e-324",
        "2.4703282292062328e-324", "2.2250738585072011e-308", "2.2250738585072014e-308",
        "9007199254740993", "9007199254740992.9999999999999999999999", "1e400", "-1e400",
        "1e-400", "-1e-400", "1e23", "8.5e22", "5e-1", "0000.000001e6", "3.14159265358979323846",
        "1e99999999999999999999999999999999", "1e-99999999999999999999999999999999",
        "0e99999999999999999999999999999999",
    ];
    for t in texts {
        let want: f64 = t.parse().expect("a number");
        assert_eq!(SUNStrToReal(t).bits, want.to_bits(), "{}", t);
    }
}

#[test]
fn texts_end_where_the_number_ends() {
    assert_eq!(f(SUNStrToReal("12e+x")), 12.0);
    assert_eq!(f(SUNStrToReal("1.5.5")), 1.5);
    assert_eq!(f(SUNStrToReal("\t\u{b}\r\n\u{c} +7 8")), 7.0);
    assert_eq!(f(SUNStrToReal(".")), 0.0);
    assert_eq!(f(SUNStrToReal("")), 0.0);
    assert_eq!(f(SUNStrToReal("-")), 0.0);
    assert_eq!(f(SUNStrToReal("iNFx")), f64::INFINITY);
    assert!(f(SUNStrToReal("-NaN")).is_nan());
    assert_eq!(f(SUNStrToReal("- 1")), 0.0);
}

#[test]
fn only_ascii_white_space_is_skipped() {
    assert_eq!(f(SUNStrToReal("\u{a0}1.5")), 0.0);
    assert_eq!(f(SUNStrToReal("\t\u{a0}+7")), 0.0);
    assert_eq!(f(SUNStrToReal("\u{85}2")), 0.0);
    assert_eq!(f(SUNStrToReal("\u{2003}2")), 0.0);
    assert_eq!(f(SUNStrToReal("\u{3000}2")), 0.0);
    assert_eq!(f(SUNStrToReal(" 1.5")), 1.5);
}

#[test]
fn arithmetic_is_that_of_doubles() {
    let xs = [
        0.0, -0.0, 1.0, -1.0, 0.1, 3.5, -2.25, 1e300, 1e-300, 4.9e-324, -2.2e-308, 1.7e308,
        f64::INFINITY, f64::NEG_INFINITY, 9007199254740993.0, 1.0000000000000002,
    ];
    for a in xs {
        for b in xs {
            let sum = a + b;
            if sum.is_nan() {
                assert!(f(r(a) + r(b)).is_nan());
            } else {
                assert_eq!((r(a) + r(b)).bits, sum.to_bits(), "{} + {}", a, b);
            }
            let d = a - b;
            if d.is_nan() {
                assert!(f(r(a) - r(b)).is_nan());
            } else {
                assert_eq!((r(a) - r(b)).bits, d.to_bits(), "{} - {}", a, b);
            }
            let p = a * b;
            if p.is_nan() {
                assert!(f(r(a) * r(b)).is_nan());
            } else {
                assert_eq!((r(a) * r(b)).bits, p.to_bits(), "{} * {}", a, b);
            }
            let q = a / b;
            if q.is_nan() {
                assert!(f(r(a) / r(b)).is_nan());
            } else {
                assert_eq!((r(a) / r(b)).bits, q.to_bits(), "{} / {}", a, b);
            }
            assert_eq!(r(a) < r(b), a < b);
            assert_eq!(r(a) == r(b), a == b);
            assert_eq!(f(SUNMIN(r(a), r(b))), if a < b { a } else { b });
            assert_eq!(f(SUNMAX(r(a), r(b))), if a > b { a } else { b });
            assert_eq!(SUNRsamesign(r(a), r(b)), a.is_sign_negative() == b.is_sign_negative());
            assert_eq!(SUNRdifferentsign(r(a), r(b)), a.is_sign_negative() != b.is_sign_negative());
            assert_eq!(SUNRcopysign(r(a), r(b)).bits, a.copysign(b).to_bits());
        }
    }
}

#[test]
fn roots_and_rounding_are_those_of_doubles() {
    for a in [0.0, 1.0, 2.0, 0.1, 1e300, 1e-300, 4.9e-324, 1e17, 12345.678] {
        assert_eq!(SUNRsqrt(r(a)).bits, a.sqrt().to_bits(), "{}", a);
    }
    for a in [0.0, -0.0, 0.4, 0.5, -0.5, 1.5, 2.5, -2.5, 0.49999999999999994, 1e300, -7.9] {
        assert_eq!(SUNRround(r(a)).bits, a.round().to_bits(), "{}", a);
        assert_eq!(SUNRceil(r(a)).bits, a.ceil().to_bits(), "{}", a);
        assert_eq!(SUNRabs(r(a)).bits, a.abs().to_bits());
        assert_eq!(SUNSQR(r(a)).bits, (a * a).to_bits());
    }
}

#[test]
fn comparison_with_a_tolerance() {
    assert!(!SUNRCompareTol(r(1.0), r(1.05), r(0.1)));
    assert!(SUNRCompareTol(r(1.0), r(1.5), r(0.1)));
    assert!(SUNRCompareTol(r(f64::INFINITY), r(f64::NEG_INFINITY), r(0.1)));
    assert_eq!(
        SUNRCompareTol(r(1.0), r(1.2), r(0.05)),
        SUNRCompareTol(r(1.2), r(1.0), r(0.05))
    );
}
