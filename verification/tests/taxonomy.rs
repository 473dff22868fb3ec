use conv::errors::{GeneralErrorKind, RangeErrorKind};
use conv::{FloatError, GeneralError, Overflow, RangeError, Underflow, Unrepresentable};

#[test]
fn widen_range_to_general_keeps_kind_and_payload() {
    assert_eq!(
        GeneralError::from(RangeError::Underflow(-40)),
        GeneralError::Underflow(-40)
    );
    assert_eq!(
        GeneralError::from(RangeError::Overflow(300)),
        GeneralError::Overflow(300)
    );
}

#[test]
fn widen_float_to_general_keeps_range_kinds() {
    assert_eq!(
        GeneralError::from(FloatError::Underflow(-7)),
        GeneralError::Underflow(-7)
    );
    assert_eq!(
        GeneralError::from(FloatError::Overflow(512)),
        GeneralError::Overflow(512)
    );
}

#[test]
fn widen_float_to_general_maps_nan_to_unrepresentable() {
    let widened = GeneralError::from(FloatError::NotANumber(f32::NAN));
    match widened {
        GeneralError::Unrepresentable(v) => assert!(v.is_nan()),
        other => panic!("expected Unrepresentable, got {:?}", other),
    }
}

#[test]
fn widen_single_failures_into_range() {
    assert_eq!(RangeError::from(Underflow(-1)), RangeError::Underflow(-1));
    assert_eq!(RangeError::from(Overflow(256)), RangeError::Overflow(256));
}

#[test]
fn widen_single_failures_into_float() {
    assert_eq!(FloatError::from(Underflow(-1)), FloatError::Underflow(-1));
    assert_eq!(FloatError::from(Overflow(256)), FloatError::Overflow(256));
    assert_eq!(
        FloatError::from(RangeError::Overflow(256)),
        FloatError::Overflow(256)
    );
}

#[test]
fn widen_single_failures_into_general() {
    assert_eq!(GeneralError::from(Underflow(-1)), GeneralError::Underflow(-1));
    assert_eq!(GeneralError::from(Overflow(256)), GeneralError::Overflow(256));
    assert_eq!(
        GeneralError::from(Unrepresentable(9)),
        GeneralError::Unrepresentable(9)
    );
}

#[test]
fn drop_payload_to_range_kind() {
    assert_eq!(RangeErrorKind::from(Underflow(-3)), RangeErrorKind::Underflow);
    assert_eq!(RangeErrorKind::from(Overflow(300)), RangeErrorKind::Overflow);
    assert_eq!(
        RangeErrorKind::from(RangeError::Underflow(-3)),
        RangeErrorKind::Underflow
    );
    assert_eq!(
        RangeErrorKind::from(RangeError::Overflow(300)),
        RangeErrorKind::Overflow
    );
}

#[test]
fn drop_payload_to_general_kind() {
    assert_eq!(
        GeneralErrorKind::from(Underflow(-3)),
        GeneralErrorKind::Underflow
    );
    assert_eq!(
        GeneralErrorKind::from(Overflow(300)),
        GeneralErrorKind::Overflow
    );
    assert_eq!(
        GeneralErrorKind::from(Unrepresentable(9)),
        GeneralErrorKind::Unrepresentable
    );
    assert_eq!(
        GeneralErrorKind::from(RangeError::Overflow(300)),
        GeneralErrorKind::Overflow
    );
    assert_eq!(
        GeneralErrorKind::from(GeneralError::Underflow(-3)),
        GeneralErrorKind::Underflow
    );
    assert_eq!(
        GeneralErrorKind::from(GeneralError::Unrepresentable(9)),
        GeneralErrorKind::Unrepresentable
    );
    assert_eq!(
        GeneralErrorKind::from(FloatError::NotANumber(f32::NAN)),
        GeneralErrorKind::Unrepresentable
    );
    assert_eq!(
        GeneralErrorKind::from(FloatError::Underflow(-2.5f32)),
        GeneralErrorKind::Underflow
    );
}

#[test]
fn widen_range_kind_to_general_kind() {
    assert_eq!(
        GeneralErrorKind::from(RangeErrorKind::Underflow),
        GeneralErrorKind::Underflow
    );
    assert_eq!(
        GeneralErrorKind::from(RangeErrorKind::Overflow),
        GeneralErrorKind::Overflow
    );
}

#[test]
fn into_inner_returns_offending_value() {
    assert_eq!(Unrepresentable(17).into_inner(), 17);
    assert_eq!(Underflow(-8).into_inner(), -8);
    assert_eq!(Overflow(999).into_inner(), 999);
    assert_eq!(RangeError::Underflow(-8).into_inner(), -8);
    assert_eq!(RangeError::Overflow(999).into_inner(), 999);
    assert_eq!(FloatError::Underflow(-8).into_inner(), -8);
    assert_eq!(FloatError::Overflow(999).into_inner(), 999);
    assert!(FloatError::NotANumber(f64::NAN).into_inner().is_nan());
    assert_eq!(GeneralError::Underflow(-8).into_inner(), -8);
    assert_eq!(GeneralError::Overflow(999).into_inner(), 999);
    assert_eq!(GeneralError::Unrepresentable(5).into_inner(), 5);
}

#[test]
fn descriptions_name_the_failure() {
    assert_eq!(
        Underflow(0u8).description(),
        "conversion resulted in underflow"
    );
    assert_eq!(
        Overflow(0u8).description(),
        "conversion resulted in overflow"
    );
    assert_eq!(
        Unrepresentable(0u8).description(),
        "could not convert unrepresentable value"
    );
    assert_eq!(
        RangeError::Underflow(0u8).description(),
        "conversion resulted in underflow"
    );
    assert_eq!(
        RangeErrorKind::Overflow.description(),
        "conversion resulted in overflow"
    );
    assert_eq!(
        FloatError::NotANumber(0.5f32).description(),
        "conversion target does not support not-a-number"
    );
    assert_eq!(
        GeneralError::Unrepresentable(1u16).description(),
        "could not convert unrepresentable value"
    );
    assert_eq!(
        GeneralErrorKind::Underflow.description(),
        "conversion resulted in underflow"
    );
}

#[test]
fn ordering_is_by_tag_then_payload() {
    assert!(GeneralError::Underflow(99) < GeneralError::Overflow(0));
    assert!(GeneralError::Overflow(99) < GeneralError::Unrepresentable(0));
    assert!(GeneralError::Underflow(1) < GeneralError::Underflow(2));
    assert_eq!(GeneralError::Overflow(5), GeneralError::Overflow(5));
    assert_ne!(GeneralError::Overflow(5), GeneralError::Underflow(5));
    assert!(RangeError::Underflow(7) < RangeError::Overflow(0));
    assert!(RangeErrorKind::Underflow < RangeErrorKind::Overflow);
    assert!(FloatError::Overflow(0) < FloatError::NotANumber(0));
}
