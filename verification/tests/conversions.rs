use conv::errors::RangeError;
use conv::{
    ApproxWith, DefaultApprox, NoError, TryFrom, TryInto, UnwrapOk, ValueFrom, ValueInto, Wrapping,
};

/// A destination holding only values that fit in 16 bits, the narrowest
/// stop of the exact-conversion cycle below.
#[derive(Clone, Copy, PartialEq, Eq, Debug)]
struct Narrow(i16);

/// A destination holding values that fit in 32 bits.
#[derive(Clone, Copy, PartialEq, Eq, Debug)]
struct Middle(i32);

/// A destination holding values that fit in 64 bits.
#[derive(Clone, Copy, PartialEq, Eq, Debug)]
struct Wide(i64);

impl ValueFrom<Middle> for Wide {
    type Err = NoError;

    fn spec_value_from(src: Middle) -> Result<Wide, NoError> {
        Ok(Wide(src.0 as i64))
    }

    fn value_from(src: Middle) -> Result<Wide, NoError> {
        Ok(Wide(src.0 as i64))
    }
}

impl ValueFrom<Wide> for Narrow {
    type Err = RangeError<i64>;

    fn spec_value_from(src: Wide) -> Result<Narrow, RangeError<i64>> {
        if src.0 < i16::MIN as i64 {
            Err(RangeError::Underflow(src.0))
        } else if src.0 > i16::MAX as i64 {
            Err(RangeError::Overflow(src.0))
        } else {
            Ok(Narrow(src.0 as i16))
        }
    }

    fn value_from(src: Wide) -> Result<Narrow, RangeError<i64>> {
        if src.0 < i16::MIN as i64 {
            Err(RangeError::Underflow(src.0))
        } else if src.0 > i16::MAX as i64 {
            Err(RangeError::Overflow(src.0))
        } else {
            Ok(Narrow(src.0 as i16))
        }
    }
}

impl ValueFrom<Narrow> for Middle {
    type Err = NoError;

    fn spec_value_from(src: Narrow) -> Result<Middle, NoError> {
        Ok(Middle(src.0 as i32))
    }

    fn value_from(src: Narrow) -> Result<Middle, NoError> {
        Ok(Middle(src.0 as i32))
    }
}

#[test]
fn try_self_conversion_is_identity() {
    let r: Result<u32, NoError> = <u32 as TryFrom<u32>>::try_from(17);
    assert_eq!(r, Ok(17));
    assert_eq!(r.unwrap_ok(), 17);
    let s: Result<String, NoError> = TryFrom::try_from(String::from("as-is"));
    assert_eq!(s.unwrap_ok(), "as-is");
}

#[test]
fn try_into_is_the_dual_of_try_from() {
    let r: Result<i64, NoError> = <i64 as TryInto<i64>>::try_into(-3);
    assert_eq!(r.unwrap_ok(), -3);
}

#[test]
fn value_self_conversion_is_identity() {
    let r: Result<u8, NoError> = <u8 as ValueFrom<u8>>::value_from(255);
    assert_eq!(r.unwrap_ok(), 255);
    let s: Result<i32, NoError> = (-40).value_into();
    assert_eq!(s.unwrap_ok(), -40);
}

#[test]
fn approx_self_conversion_is_identity() {
    let dflt: Result<u16, NoError> = 9u16.approx();
    assert_eq!(dflt.unwrap_ok(), 9);
    let wrap: Result<u16, NoError> = 9u16.approx_with::<Wrapping>();
    assert_eq!(wrap.unwrap_ok(), 9);
    let explicit: Result<u16, NoError> = 9u16.approx_with::<DefaultApprox>();
    assert_eq!(explicit.unwrap_ok(), 9);
}

#[test]
fn unwrap_ok_extracts_the_success_value() {
    let r: Result<&str, NoError> = Ok("still here");
    assert_eq!(r.unwrap_ok(), "still here");
}

#[test]
fn exact_cycle_reproduces_values_in_the_safe_intersection() {
    let start = Middle(12345);
    let wide = Wide::value_from(start).unwrap_ok();
    let narrow = Narrow::value_from(wide).expect("12345 fits in every stop");
    let back = Middle::value_from(narrow).unwrap_ok();
    assert_eq!(back, start);
}

#[test]
fn exact_cycle_fails_rather_than_distort_outside_the_intersection() {
    let start = Middle(70_000);
    let wide = Wide::value_from(start).unwrap_ok();
    assert_eq!(
        Narrow::value_from(wide),
        Err(RangeError::Overflow(70_000i64))
    );
    let low = Middle(-70_000);
    let wide_low = Wide::value_from(low).unwrap_ok();
    assert_eq!(
        Narrow::value_from(wide_low),
        Err(RangeError::Underflow(-70_000i64))
    );
}
