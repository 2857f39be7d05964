use mf2_ast::ast::ExponentSign;
use mf2_ast::ast::Number;
use mf2_ast::util::LengthShort;
use mf2_ast::util::Location;

fn number(
    start: u32,
    raw: &str,
    is_negative: bool,
    integral_len: u16,
    fractional_len: Option<u16>,
    exponent_len: Option<(ExponentSign, u16)>,
) -> Number<'_> {
    Number {
        start: Location::new(start),
        raw,
        is_negative,
        integral_len: LengthShort::new(integral_len),
        fractional_len: fractional_len.map(LengthShort::new),
        exponent_len: exponent_len.map(|(sign, len)| (sign, LengthShort::new(len))),
    }
}

#[test]
fn number_round_trip_full() {
    let n = number(0, "-12.34e-5", true, 2, Some(2), Some((ExponentSign::Minus, 1)));
    assert_eq!(n.integral_part(), "12");
    assert_eq!(n.fractional_part(), Some("34"));
    let (sign, digits) = n.exponent_part().unwrap();
    assert!(matches!(sign, ExponentSign::Minus));
    assert_eq!(digits, "5");
    let rebuilt = format!(
        "-{}.{}e-{}",
        n.integral_part(),
        n.fractional_part().unwrap(),
        digits
    );
    assert_eq!(rebuilt, n.raw);
}

#[test]
fn number_round_trip_plain_integer() {
    let n = number(0, "42", false, 2, None, None);
    assert_eq!(n.integral_part(), "42");
    assert_eq!(n.fractional_part(), None);
    assert!(n.exponent_part().is_none());
    assert_eq!(n.fractional_span(), None);
    assert_eq!(n.exponent_span(), None);
}

#[test]
fn number_span_covers_raw() {
    let n = number(7, "-12.34e-5", true, 2, Some(2), Some((ExponentSign::Minus, 1)));
    let sp = n.span();
    assert_eq!(sp.start.inner(), 7);
    assert_eq!(sp.end.inner(), 16);
}

#[test]
fn number_sub_spans_are_absolute() {
    let n = number(10, "-12.34e-5", true, 2, Some(2), Some((ExponentSign::Minus, 1)));
    let integral = n.integral_span();
    assert_eq!((integral.start.inner(), integral.end.inner()), (11, 13));
    let fractional = n.fractional_span().unwrap();
    assert_eq!((fractional.start.inner(), fractional.end.inner()), (14, 16));
    let exponent = n.exponent_span().unwrap();
    assert_eq!((exponent.start.inner(), exponent.end.inner()), (18, 19));
    assert_eq!(n.integral_part(), "12");
    assert_eq!(n.fractional_part(), Some("34"));
    assert_eq!(n.exponent_part().unwrap().1, "5");
}

#[test]
fn number_unsigned_exponent_consumes_no_sign_character() {
    let n = number(0, "1e5", false, 1, None, Some((ExponentSign::Unsigned, 1)));
    assert_eq!(n.integral_part(), "1");
    assert_eq!(n.fractional_part(), None);
    let (sign, digits) = n.exponent_part().unwrap();
    assert!(matches!(sign, ExponentSign::Unsigned));
    assert_eq!(digits, "5");
    let exponent = n.exponent_span().unwrap();
    assert_eq!((exponent.start.inner(), exponent.end.inner()), (2, 3));
}

#[test]
fn number_plus_exponent_consumes_sign_character() {
    let n = number(0, "7e+25", false, 1, None, Some((ExponentSign::Plus, 2)));
    let (sign, digits) = n.exponent_part().unwrap();
    assert!(matches!(sign, ExponentSign::Plus));
    assert_eq!(digits, "25");
    let exponent = n.exponent_span().unwrap();
    assert_eq!((exponent.start.inner(), exponent.end.inner()), (3, 5));
}

#[test]
fn number_fraction_without_exponent() {
    let n = number(0, "0.5", false, 1, Some(1), None);
    assert_eq!(n.integral_part(), "0");
    assert_eq!(n.fractional_part(), Some("5"));
    assert_eq!(n.exponent_part(), None);
    let rebuilt = format!("{}.{}", n.integral_part(), n.fractional_part().unwrap());
    assert_eq!(rebuilt, n.raw);
}
