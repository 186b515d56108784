use float_newtypes::ieee::{compare_keys, compare_numeric, is_nan_bits64, signed_key64};
use float_newtypes::nonnan::double::NonNan;
use float_newtypes::nonnan::error::ParseNonNanError;
use float_newtypes::nonnan::single::NonNan32;
use std::cmp::Ordering;
use std::num::ParseFloatError;

fn parse64(text: &str) -> Result<u64, ParseFloatError> {
    text.parse::<f64>().map(f64::to_bits)
}

fn from_str(text: &str) -> Result<NonNan, ParseNonNanError> {
    NonNan::from_parsed(parse64(text))
}

fn numbers() -> Vec<f64> {
    vec![
        f64::NEG_INFINITY,
        f64::MIN,
        -2.5,
        -1.0,
        -f64::MIN_POSITIVE,
        -f64::from_bits(1),
        -0.0,
        0.0,
        f64::from_bits(1),
        f64::MIN_POSITIVE,
        0.1,
        1.0,
        1.23,
        2.0,
        f64::MAX,
        f64::INFINITY,
    ]
}

fn nans() -> Vec<f64> {
    vec![
        f64::NAN,
        -f64::NAN,
        f64::from_bits(0x7ff0_0000_0000_0001),
        f64::from_bits(0xfff0_0000_0000_0001),
        f64::from_bits(0x7fff_ffff_ffff_ffff),
        f64::from_bits(0xffff_ffff_ffff_ffff),
    ]
}

#[test]
fn test_new() {
    const NAN: f64 = f64::NAN;

    assert!(NonNan::new(NAN.to_bits()).is_none());
    assert!(NonNan::new(1.23f64.to_bits()).is_some());
}

#[test]
fn test_ordering() {
    assert!(NonNan::new(1.0f64.to_bits()).unwrap() < NonNan::new(2.0f64.to_bits()).unwrap());
}

#[test]
fn test_deref() {
    const INFINITY: f64 = f64::INFINITY;

    let v = NonNan::new(INFINITY.to_bits()).unwrap();

    assert!(f64::from_bits(v.to_bits()).is_infinite());
}

#[test]
fn test_from_string() {
    match from_str("1.0") {
        Ok(v) => assert_eq!(v, NonNan::new(1.0f64.to_bits()).unwrap()),
        Err(e) => panic!("unexpected error: {:?}", e),
    };

    match from_str("NaN") {
        Ok(v) => panic!("unexpected success: {:?}", v),
        Err(ParseNonNanError::ValueIsNaN) => {}
        Err(e) => panic!("unexpected error: {:?}", e),
    };

    match from_str("foo") {
        Ok(v) => panic!("unexpected success: {:?}", v),
        Err(ParseNonNanError::ParseError(_)) => {}
        Err(e) => panic!("unexpected error: {:?}", e),
    };

    assert!(ParseNonNanError::ValueIsNaN.cause().is_none());
}

#[test]
fn new_refuses_every_nan_pattern() {
    for v in nans() {
        assert!(v.is_nan());
        assert!(is_nan_bits64(v.to_bits()));
        assert!(NonNan::new(v.to_bits()).is_none());
    }
}

#[test]
fn new_accepts_every_number() {
    for v in numbers() {
        assert!(!is_nan_bits64(v.to_bits()));
        let wrapped = NonNan::new(v.to_bits()).unwrap();
        assert_eq!(wrapped.to_bits(), v.to_bits());
    }
    assert!(NonNan::new(f64::INFINITY.to_bits()).is_some());
    assert!(NonNan::new(f64::NEG_INFINITY.to_bits()).is_some());
    assert!(NonNan::new(0.0f64.to_bits()).is_some());
    assert!(NonNan::new((-0.0f64).to_bits()).is_some());
}

#[test]
fn order_is_the_numeric_order() {
    for a in numbers() {
        for b in numbers() {
            let x = NonNan::new(a.to_bits()).unwrap();
            let y = NonNan::new(b.to_bits()).unwrap();
            assert_eq!(x.cmp(&y), a.partial_cmp(&b).unwrap());
            assert_eq!(x.partial_cmp(&y), a.partial_cmp(&b));
            assert_eq!(x < y, a < b);
            assert_eq!(x <= y, a <= b);
            assert_eq!(x > y, a > b);
            assert_eq!(x == y, a == b);
        }
    }
}

#[test]
fn order_is_a_strict_total_order() {
    let all: Vec<NonNan> = numbers().iter().map(|v| NonNan::new(v.to_bits()).unwrap()).collect();
    for a in &all {
        assert!(!(a < a));
        for b in &all {
            let below = a < b;
            let above = b < a;
            let same = a == b;
            assert_eq!(1, below as u8 + above as u8 + same as u8);
            for c in &all {
                if a < b && b < c {
                    assert!(a < c);
                }
            }
        }
    }
}

#[test]
fn zeros_are_equal() {
    let plus = NonNan::new(0.0f64.to_bits()).unwrap();
    let minus = NonNan::new((-0.0f64).to_bits()).unwrap();
    assert_eq!(plus.cmp(&minus), Ordering::Equal);
    assert!(plus == minus);
    assert!(minus.to_bits() != plus.to_bits());
}

#[test]
fn infinities_are_the_extremes() {
    let low = NonNan::new(f64::NEG_INFINITY.to_bits()).unwrap();
    let high = NonNan::new(f64::INFINITY.to_bits()).unwrap();
    for v in numbers() {
        let x = NonNan::new(v.to_bits()).unwrap();
        assert!(low <= x);
        assert!(x <= high);
    }
    assert!(low < high);
}

#[test]
fn default_is_zero() {
    assert_eq!(NonNan::default().to_bits(), 0.0f64.to_bits());
    assert_eq!(NonNan::default(), NonNan::new(0.0f64.to_bits()).unwrap());
}

#[test]
fn keys_are_sign_and_magnitude() {
    assert_eq!(signed_key64(0.0f64.to_bits()), 0);
    assert_eq!(signed_key64((-0.0f64).to_bits()), 0);
    assert_eq!(signed_key64(1.0f64.to_bits()), 0x3ff0_0000_0000_0000);
    assert_eq!(signed_key64((-1.0f64).to_bits()), -0x3ff0_0000_0000_0000);
    assert_eq!(signed_key64(f64::INFINITY.to_bits()), 0x7ff0_0000_0000_0000);
    assert_eq!(signed_key64(f64::NEG_INFINITY.to_bits()), -0x7ff0_0000_0000_0000);
    assert_eq!(signed_key64(u64::MAX), -0x7fff_ffff_ffff_ffff);
}

#[test]
fn keys_compare_as_integers() {
    assert_eq!(compare_keys(-3, 2), Ordering::Less);
    assert_eq!(compare_keys(2, 2), Ordering::Equal);
    assert_eq!(compare_keys(7, 2), Ordering::Greater);
}

#[test]
fn numeric_comparison_is_unordered_on_nan() {
    assert_eq!(compare_numeric(true, 0, false, 0), None);
    assert_eq!(compare_numeric(false, 0, true, 0), None);
    assert_eq!(compare_numeric(true, 0, true, 0), None);
    assert_eq!(compare_numeric(false, 1, false, 2), Some(Ordering::Less));
    assert_eq!(compare_numeric(false, 2, false, 2), Some(Ordering::Equal));
    assert_eq!(compare_numeric(false, 3, false, 2), Some(Ordering::Greater));
}

#[test]
fn parse_one_equals_direct_construction() {
    assert_eq!(from_str("1.0"), Ok(NonNan::new(1.0f64.to_bits()).unwrap()));
}

#[test]
fn parse_nan_is_refused_as_nan() {
    assert_eq!(from_str("NaN"), Err(ParseNonNanError::ValueIsNaN));
    assert_eq!(from_str("nan"), Err(ParseNonNanError::ValueIsNaN));
}

#[test]
fn parse_garbage_is_a_syntax_failure() {
    let cause = "not-a-float".parse::<f64>().unwrap_err();
    assert_eq!(from_str("not-a-float"), Err(ParseNonNanError::ParseError(cause)));
    let empty = "".parse::<f64>().unwrap_err();
    assert_eq!(from_str(""), Err(ParseNonNanError::ParseError(empty)));
}

#[test]
fn parse_infinity_succeeds() {
    assert_eq!(from_str("inf").unwrap().to_bits(), f64::INFINITY.to_bits());
    assert_eq!(from_str("-infinity").unwrap().to_bits(), f64::NEG_INFINITY.to_bits());
}

#[test]
fn rendering_and_parsing_round_trips() {
    for v in numbers() {
        let first = NonNan::new(v.to_bits()).unwrap();
        let text = f64::from_bits(first.to_bits()).to_string();
        let again = from_str(&text).unwrap();
        assert_eq!(again, first);
        assert_eq!(again.to_bits(), first.to_bits());
    }
}

#[test]
fn error_description() {
    let cause = "foo".parse::<f64>().unwrap_err();
    assert_eq!(ParseNonNanError::ValueIsNaN.description(), "value is NaN");
    assert_eq!(ParseNonNanError::ParseError(cause).description(), "parse error");
}

#[test]
fn error_cause() {
    let cause = "foo".parse::<f64>().unwrap_err();
    assert_eq!(ParseNonNanError::ValueIsNaN.cause(), None);
    assert_eq!(ParseNonNanError::ParseError(cause.clone()).cause(), Some(&cause));
}

#[test]
fn error_message() {
    let invalid = "foo".parse::<f64>().unwrap_err();
    let empty = "".parse::<f64>().unwrap_err();
    assert_eq!(ParseNonNanError::ValueIsNaN.message(), "value is NaN");
    assert_eq!(ParseNonNanError::ParseError(invalid.clone()).message(), invalid.to_string());
    assert_eq!(ParseNonNanError::ParseError(empty.clone()).message(), empty.to_string());
    assert_ne!(invalid.to_string(), empty.to_string());
    assert_ne!(ParseNonNanError::ParseError(invalid).message(), "value is NaN");
    assert_ne!(ParseNonNanError::ParseError(empty).message(), "value is NaN");
}

#[test]
fn error_kinds_are_told_apart() {
    let cause = "foo".parse::<f64>().unwrap_err();
    assert!(ParseNonNanError::ValueIsNaN.is_value_nan());
    assert!(!ParseNonNanError::ParseError(cause.clone()).is_value_nan());
    assert_ne!(ParseNonNanError::ValueIsNaN, ParseNonNanError::ParseError(cause.clone()));
    let copy = ParseNonNanError::ParseError(cause.clone()).clone();
    assert_eq!(copy, ParseNonNanError::ParseError(cause));
}

fn numbers32() -> Vec<f32> {
    vec![
        f32::NEG_INFINITY,
        f32::MIN,
        -1.0,
        -f32::MIN_POSITIVE,
        -f32::from_bits(1),
        -0.0,
        0.0,
        f32::from_bits(1),
        f32::MIN_POSITIVE,
        1.0,
        2.0,
        f32::MAX,
        f32::INFINITY,
    ]
}

fn from_str32(text: &str) -> Result<NonNan32, ParseNonNanError> {
    NonNan32::from_parsed(text.parse::<f32>().map(f32::to_bits))
}

#[test]
fn single_new() {
    assert!(NonNan32::new(f32::NAN.to_bits()).is_none());
    assert!(NonNan32::new((-f32::NAN).to_bits()).is_none());
    assert!(NonNan32::new(0x7f80_0001).is_none());
    assert!(NonNan32::new(0xffff_ffff).is_none());
    for v in numbers32() {
        assert_eq!(NonNan32::new(v.to_bits()).unwrap().to_bits(), v.to_bits());
    }
}

#[test]
fn single_order_is_the_numeric_order() {
    for a in numbers32() {
        for b in numbers32() {
            let x = NonNan32::new(a.to_bits()).unwrap();
            let y = NonNan32::new(b.to_bits()).unwrap();
            assert_eq!(x.cmp(&y), a.partial_cmp(&b).unwrap());
            assert_eq!(x.partial_cmp(&y), a.partial_cmp(&b));
            assert_eq!(x < y, a < b);
            assert_eq!(x == y, a == b);
        }
    }
}

#[test]
fn single_parse() {
    assert_eq!(from_str32("1.0"), Ok(NonNan32::new(1.0f32.to_bits()).unwrap()));
    assert_eq!(from_str32("NaN"), Err(ParseNonNanError::ValueIsNaN));
    let cause = "not-a-float".parse::<f32>().unwrap_err();
    assert_eq!(from_str32("not-a-float"), Err(ParseNonNanError::ParseError(cause)));
}

#[test]
fn single_round_trip_and_default() {
    for v in numbers32() {
        let first = NonNan32::new(v.to_bits()).unwrap();
        let text = f32::from_bits(first.to_bits()).to_string();
        assert_eq!(from_str32(&text), Ok(first));
    }
    assert_eq!(NonNan32::default().to_bits(), 0);
}
