use conv::errors::{
    FloatError, GeneralError, RangeError, RangeErrorKind, Saturate, Unrepresentable,
};
use conv::misc::{InvalidSentinel, Saturated, SignedInfinity};
use conv::{NoError, UnwrapOk, UnwrapOrInf, UnwrapOrInvalid, UnwrapOrSaturate, ValueFrom};

/// An 8-bit unsigned destination with saturated bounds [0, 255] and a
/// designated invalid value.
#[derive(Clone, Copy, PartialEq, Eq, Debug)]
struct Byte(u8);

const BYTE_INVALID: u8 = 0xAA;

impl Saturated for Byte {
    fn spec_saturated_min() -> Byte {
        Byte(0)
    }

    fn spec_saturated_max() -> Byte {
        Byte(255)
    }

    fn saturated_min() -> Byte {
        Byte(0)
    }

    fn saturated_max() -> Byte {
        Byte(255)
    }
}

impl InvalidSentinel for Byte {
    fn spec_invalid_sentinel() -> Byte {
        Byte(BYTE_INVALID)
    }

    fn invalid_sentinel() -> Byte {
        Byte(BYTE_INVALID)
    }
}

/// A range-failure-producing conversion into the 8-bit destination.
impl ValueFrom<i32> for Byte {
    type Err = RangeError<i32>;

    fn spec_value_from(src: i32) -> Result<Byte, RangeError<i32>> {
        if src < 0 {
            Err(RangeError::Underflow(src))
        } else if src > 255 {
            Err(RangeError::Overflow(src))
        } else {
            Ok(Byte(src as u8))
        }
    }

    fn value_from(src: i32) -> Result<Byte, RangeError<i32>> {
        if src < 0 {
            Err(RangeError::Underflow(src))
        } else if src > 255 {
            Err(RangeError::Overflow(src))
        } else {
            Ok(Byte(src as u8))
        }
    }
}

/// A float-like destination with signed infinities and a designated invalid
/// value.
#[derive(Clone, Copy, PartialEq, Debug)]
struct Real(f64);

impl Saturated for Real {
    fn spec_saturated_min() -> Real {
        Real(f64::MIN)
    }

    fn spec_saturated_max() -> Real {
        Real(f64::MAX)
    }

    fn saturated_min() -> Real {
        Real(f64::MIN)
    }

    fn saturated_max() -> Real {
        Real(f64::MAX)
    }
}

impl SignedInfinity for Real {
    fn spec_neg_infinity() -> Real {
        Real(f64::NEG_INFINITY)
    }

    fn spec_pos_infinity() -> Real {
        Real(f64::INFINITY)
    }

    fn neg_infinity() -> Real {
        Real(f64::NEG_INFINITY)
    }

    fn pos_infinity() -> Real {
        Real(f64::INFINITY)
    }
}

impl InvalidSentinel for Real {
    fn spec_invalid_sentinel() -> Real {
        Real(f64::NAN)
    }

    fn invalid_sentinel() -> Real {
        Real(f64::NAN)
    }
}

#[test]
fn range_conversion_yields_overflow_with_input() {
    assert_eq!(Byte::value_from(300), Err(RangeError::Overflow(300)));
    assert_eq!(Byte::value_from(-5), Err(RangeError::Underflow(-5)));
    assert_eq!(Byte::value_from(255), Ok(Byte(255)));
    assert_eq!(Byte::value_from(0), Ok(Byte(0)));
}

#[test]
fn saturate_resolves_overflow_to_max() {
    let out = Byte::value_from(300);
    let narrowed: Result<Byte, NoError> = out.saturate();
    assert_eq!(narrowed, Ok(Byte(255)));
}

#[test]
fn saturate_resolves_underflow_to_min() {
    let out = Byte::value_from(-5);
    let narrowed: Result<Byte, NoError> = out.saturate();
    assert_eq!(narrowed, Ok(Byte(0)));
}

#[test]
fn saturate_passes_success_through() {
    let out = Byte::value_from(42);
    let narrowed: Result<Byte, NoError> = out.saturate();
    assert_eq!(narrowed.unwrap_ok(), Byte(42));
}

#[test]
fn saturate_resolves_kind_only_outcomes() {
    let under: Result<Byte, RangeErrorKind> = Err(RangeErrorKind::Underflow);
    let over: Result<Byte, RangeErrorKind> = Err(RangeErrorKind::Overflow);
    assert_eq!(under.saturate(), Ok(Byte(0)));
    assert_eq!(over.saturate(), Ok(Byte(255)));
}

#[test]
fn saturate_never_resolves_not_a_number() {
    let out: Result<Byte, FloatError<f32>> = Err(FloatError::NotANumber(f32::NAN));
    let narrowed: Result<Byte, Unrepresentable<f32>> = out.saturate();
    match narrowed {
        Err(Unrepresentable(v)) => assert!(v.is_nan()),
        other => panic!("not-a-number must survive saturation, got {:?}", other),
    }
}

#[test]
fn saturate_resolves_float_range_arms() {
    let under: Result<Byte, FloatError<f32>> = Err(FloatError::Underflow(-1.5));
    let over: Result<Byte, FloatError<f32>> = Err(FloatError::Overflow(300.25));
    assert_eq!(under.saturate(), Ok(Byte(0)));
    assert_eq!(over.saturate(), Ok(Byte(255)));
}

#[test]
fn unwrap_or_saturate_agrees_on_overflow() {
    let out = Byte::value_from(300);
    assert_eq!(out.unwrap_or_saturate(), Byte(255));
    let kinded: Result<Byte, RangeErrorKind> = Err(RangeErrorKind::Overflow);
    assert_eq!(kinded.unwrap_or_saturate(), Byte(255));
}

#[test]
fn unwrap_or_saturate_agrees_on_underflow() {
    let out = Byte::value_from(-5);
    assert_eq!(out.unwrap_or_saturate(), Byte(0));
    let kinded: Result<Byte, RangeErrorKind> = Err(RangeErrorKind::Underflow);
    assert_eq!(kinded.unwrap_or_saturate(), Byte(0));
}

#[test]
fn unwrap_or_inf_agrees_with_saturation_direction() {
    let under: Result<Real, RangeError<f64>> = Err(RangeError::Underflow(-1.0e300));
    let over: Result<Real, RangeError<f64>> = Err(RangeError::Overflow(1.0e300));
    assert_eq!(under.unwrap_or_saturate(), Real(f64::MIN));
    assert_eq!(under.unwrap_or_inf(), Real(f64::NEG_INFINITY));
    assert_eq!(over.unwrap_or_saturate(), Real(f64::MAX));
    assert_eq!(over.unwrap_or_inf(), Real(f64::INFINITY));
}

#[test]
fn unwrap_or_inf_resolves_kind_only_outcomes() {
    let under: Result<Real, RangeErrorKind> = Err(RangeErrorKind::Underflow);
    let over: Result<Real, RangeErrorKind> = Err(RangeErrorKind::Overflow);
    assert_eq!(under.unwrap_or_inf(), Real(f64::NEG_INFINITY));
    assert_eq!(over.unwrap_or_inf(), Real(f64::INFINITY));
}

#[test]
fn unwrap_or_inf_passes_success_through() {
    let ok: Result<Real, RangeErrorKind> = Ok(Real(2.5));
    assert_eq!(ok.unwrap_or_inf(), Real(2.5));
}

#[test]
fn unwrap_or_invalid_covers_every_failure_arm() {
    let under: Result<Byte, RangeError<i32>> = Err(RangeError::Underflow(-9));
    let over: Result<Byte, RangeError<i32>> = Err(RangeError::Overflow(999));
    let nan: Result<Byte, FloatError<f32>> = Err(FloatError::NotANumber(f32::NAN));
    let unrep: Result<Byte, GeneralError<i32>> = Err(GeneralError::Unrepresentable(512));
    assert_eq!(under.unwrap_or_invalid(), Byte(BYTE_INVALID));
    assert_eq!(over.unwrap_or_invalid(), Byte(BYTE_INVALID));
    assert_eq!(nan.unwrap_or_invalid(), Byte(BYTE_INVALID));
    assert_eq!(unrep.unwrap_or_invalid(), Byte(BYTE_INVALID));
}

#[test]
fn unwrap_or_invalid_passes_success_through() {
    let ok: Result<Byte, GeneralError<i32>> = Ok(Byte(7));
    assert_eq!(ok.unwrap_or_invalid(), Byte(7));
}

#[test]
fn primitive_destinations_saturate_to_their_bounds() {
    let over: Result<u8, RangeError<i32>> = Err(RangeError::Overflow(300));
    let narrowed: Result<u8, NoError> = over.saturate();
    assert_eq!(narrowed, Ok(255));
    assert_eq!(over.unwrap_or_saturate(), 255u8);
    let under: Result<u8, RangeErrorKind> = Err(RangeErrorKind::Underflow);
    assert_eq!(under.unwrap_or_saturate(), 0u8);
    let wide: Result<i16, RangeError<i64>> = Err(RangeError::Overflow(1 << 40));
    assert_eq!(wide.unwrap_or_saturate(), i16::MAX);
    let deep: Result<i64, RangeErrorKind> = Err(RangeErrorKind::Underflow);
    assert_eq!(deep.unwrap_or_saturate(), i64::MIN);
}

#[test]
fn not_a_number_source_ends_in_sentinel() {
    let out: Result<Real, FloatError<f64>> = Err(FloatError::NotANumber(f64::NAN));
    let resolved = out.unwrap_or_invalid();
    assert!(resolved.0.is_nan());
}
