//! Capability contracts that a destination type may satisfy.
//!
//! These are minimal, independent extension points: a destination supplies
//! saturation bounds, a designated invalid sentinel, or signed infinities,
//! and the recovery combinators in `errors` consume whichever they need.
//! Saturation bounds are provided here for the primitive integer types;
//! a sentinel or signed infinities exist only for destination types that
//! designate such values, so consumers implement those for the destination
//! types they define.

use vstd::prelude::*;

verus! {

/// A destination type with a smallest and a largest representable value, to
/// which an out-of-range result can be clamped.
pub trait Saturated: Sized {
    /// The smallest representable value.
    spec fn spec_saturated_min() -> Self;

    /// The largest representable value.
    spec fn spec_saturated_max() -> Self;

    /// Returns the smallest representable value.
    fn saturated_min() -> (r: Self)
        ensures
            r == Self::spec_saturated_min(),
    ;

    /// Returns the largest representable value.
    fn saturated_max() -> (r: Self)
        ensures
            r == Self::spec_saturated_max(),
    ;
}

impl Saturated for u8 {
    open spec fn spec_saturated_min() -> u8 {
        u8::MIN
    }

    open spec fn spec_saturated_max() -> u8 {
        u8::MAX
    }

    fn saturated_min() -> (r: u8) {
        u8::MIN
    }

    fn saturated_max() -> (r: u8) {
        u8::MAX
    }
}

impl Saturated for u16 {
    open spec fn spec_saturated_min() -> u16 {
        u16::MIN
    }

    open spec fn spec_saturated_max() -> u16 {
        u16::MAX
    }

    fn saturated_min() -> (r: u16) {
        u16::MIN
    }

    fn saturated_max() -> (r: u16) {
        u16::MAX
    }
}

impl Saturated for u32 {
    open spec fn spec_saturated_min() -> u32 {
        u32::MIN
    }

    open spec fn spec_saturated_max() -> u32 {
        u32::MAX
    }

    fn saturated_min() -> (r: u32) {
        u32::MIN
    }

    fn saturated_max() -> (r: u32) {
        u32::MAX
    }
}

impl Saturated for u64 {
    open spec fn spec_saturated_min() -> u64 {
        u64::MIN
    }

    open spec fn spec_saturated_max() -> u64 {
        u64::MAX
    }

    fn saturated_min() -> (r: u64) {
        u64::MIN
    }

    fn saturated_max() -> (r: u64) {
        u64::MAX
    }
}

impl Saturated for usize {
    open spec fn spec_saturated_min() -> usize {
        usize::MIN
    }

    open spec fn spec_saturated_max() -> usize {
        usize::MAX
    }

    fn saturated_min() -> (r: usize) {
        usize::MIN
    }

    fn saturated_max() -> (r: usize) {
        usize::MAX
    }
}

impl Saturated for i8 {
    open spec fn spec_saturated_min() -> i8 {
        i8::MIN
    }

    open spec fn spec_saturated_max() -> i8 {
        i8::MAX
    }

    fn saturated_min() -> (r: i8) {
        i8::MIN
    }

    fn saturated_max() -> (r: i8) {
        i8::MAX
    }
}

impl Saturated for i16 {
    open spec fn spec_saturated_min() -> i16 {
        i16::MIN
    }

    open spec fn spec_saturated_max() -> i16 {
        i16::MAX
    }

    fn saturated_min() -> (r: i16) {
        i16::MIN
    }

    fn saturated_max() -> (r: i16) {
        i16::MAX
    }
}

impl Saturated for i32 {
    open spec fn spec_saturated_min() -> i32 {
        i32::MIN
    }

    open spec fn spec_saturated_max() -> i32 {
        i32::MAX
    }

    fn saturated_min() -> (r: i32) {
        i32::MIN
    }

    fn saturated_max() -> (r: i32) {
        i32::MAX
    }
}

impl Saturated for i64 {
    open spec fn spec_saturated_min() -> i64 {
        i64::MIN
    }

    open spec fn spec_saturated_max() -> i64 {
        i64::MAX
    }

    fn saturated_min() -> (r: i64) {
        i64::MIN
    }

    fn saturated_max() -> (r: i64) {
        i64::MAX
    }
}

impl Saturated for isize {
    open spec fn spec_saturated_min() -> isize {
        isize::MIN
    }

    open spec fn spec_saturated_max() -> isize {
        isize::MAX
    }

    fn saturated_min() -> (r: isize) {
        isize::MIN
    }

    fn saturated_max() -> (r: isize) {
        isize::MAX
    }
}

/// A destination type with one designated "invalid" value that can stand in
/// for the result of any failed conversion.
pub trait InvalidSentinel: Sized {
    /// The designated invalid value.
    spec fn spec_invalid_sentinel() -> Self;

    /// Returns the designated invalid value.
    fn invalid_sentinel() -> (r: Self)
        ensures
            r == Self::spec_invalid_sentinel(),
    ;
}

/// A destination type with signed infinities, to which an out-of-range
/// result can be pushed in the direction of the violated bound.
pub trait SignedInfinity: Sized {
    /// The value standing for negative infinity.
    spec fn spec_neg_infinity() -> Self;

    /// The value standing for positive infinity.
    spec fn spec_pos_infinity() -> Self;

    /// Returns the value standing for negative infinity.
    fn neg_infinity() -> (r: Self)
        ensures
            r == Self::spec_neg_infinity(),
    ;

    /// Returns the value standing for positive infinity.
    fn pos_infinity() -> (r: Self)
        ensures
            r == Self::spec_pos_infinity(),
    ;
}

} // verus!
