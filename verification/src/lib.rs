//! Conversion traits with more specific semantics than a bare cast: exact
//! conversions, approximate conversions with a selectable scheme, and
//! general fallible conversions, together with a taxonomy of typed failures
//! and explicit combinators that resolve a failure into a definite value.
//!
//! Every conversion returns a two-armed outcome: the converted value, or a
//! typed failure from `errors`.  How a failure is resolved is always the
//! caller's explicit choice: saturate to a bound (`UnwrapOrSaturate`),
//! saturate to a signed infinity (`UnwrapOrInf`), substitute a designated
//! sentinel (`UnwrapOrInvalid`), or discard a statically impossible failure
//! arm (`UnwrapOk`).

pub mod errors;
pub mod misc;
pub mod prelude;

pub use errors::{
    NoError, GeneralError, Unrepresentable, Underflow, Overflow, FloatError, RangeError,
    UnwrapOk, UnwrapOrInf, UnwrapOrInvalid, UnwrapOrSaturate,
};

use vstd::prelude::*;
use crate::errors::Void;

verus! {

/// Marks an approximation scheme type.
pub trait ApproxScheme {}

/// The default approximation scheme: whatever would generally be expected of
/// a lossy conversion when no further instruction is given.
///
/// The type is a compile-time tag only: no value of it can be built.
#[derive(Clone, Copy, PartialEq, Eq, PartialOrd, Ord, Debug)]
pub enum DefaultApprox {
    /// Never constructible: the payload has no value.
    Impossible(Void),
}

impl ApproxScheme for DefaultApprox {}

/// The approximation scheme that "wraps" a value into a narrower range by
/// modular reduction: the opposite of rounding, in that it preserves the
/// least significant part of the value rather than the most significant.
///
/// The type is a compile-time tag only: no value of it can be built.
#[derive(Clone, Copy, PartialEq, Eq, PartialOrd, Ord, Debug)]
pub enum Wrapping {
    /// Never constructible: the payload has no value.
    Impossible(Void),
}

impl ApproxScheme for Wrapping {}

/// A conversion that is permitted to approximate the result, but *not* to
/// wrap or saturate it into the destination's representable range.
///
/// An implementation must behave as two logical steps: first approximate the
/// source to the nearest value the destination's value domain supports,
/// under the chosen scheme and ignoring range limits; then transcribe that
/// approximated value into the destination representation with no further
/// change, failing if it lies outside the representable range.
pub trait ApproxFrom<Src, Scheme = DefaultApprox>: Sized where Scheme: ApproxScheme {
    /// The error type produced by a failed conversion.
    type Err;

    /// What the conversion returns for each source value.
    spec fn spec_approx_from(src: Src) -> Result<Self, Self::Err>;

    /// Convert the given value into an approximately equivalent
    /// representation.
    fn approx_from(src: Src) -> (r: Result<Self, Self::Err>)
        ensures
            r == Self::spec_approx_from(src),
    ;
}

/// Every type approximates to itself exactly, and that conversion cannot
/// fail.
impl<Src, Scheme> ApproxFrom<Src, Scheme> for Src where Scheme: ApproxScheme {
    type Err = NoError;

    open spec fn spec_approx_from(src: Src) -> Result<Src, NoError> {
        Ok(src)
    }

    fn approx_from(src: Src) -> (r: Result<Src, NoError>) {
        Ok(src)
    }
}

/// The dual of `ApproxFrom`; see that trait for information.
pub trait ApproxInto<Dst, Scheme = DefaultApprox>: Sized where Scheme: ApproxScheme {
    /// The error type produced by a failed conversion.
    type Err;

    /// What the conversion returns for each subject value.
    spec fn spec_approx_into(self) -> Result<Dst, Self::Err>;

    /// Convert the subject into an approximately equivalent representation.
    fn approx_into(self) -> (r: Result<Dst, Self::Err>)
        ensures
            r == self.spec_approx_into(),
    ;
}

impl<Dst, Src, Scheme> ApproxInto<Dst, Scheme> for Src where
    Dst: ApproxFrom<Src, Scheme>,
    Scheme: ApproxScheme,
 {
    type Err = Dst::Err;

    open spec fn spec_approx_into(self) -> Result<Dst, Dst::Err> {
        Dst::spec_approx_from(self)
    }

    fn approx_into(self) -> (r: Result<Dst, Dst::Err>) {
        Dst::approx_from(self)
    }
}

/// Selects an approximation explicitly.  This trait performs no conversion
/// logic of its own: it only lets a caller pick which approximation scheme
/// to use when a simple call to `approx_into` would be ambiguous.
pub trait ApproxWith<Dst> {
    /// Approximate the subject with the default scheme.
    fn approx(self) -> (r: Result<Dst, Self::Err>) where Self: Sized + ApproxInto<Dst>
        ensures
            r == self.spec_approx_into(),
    {
        self.approx_into()
    }

    /// Approximate the subject with a specific scheme.
    fn approx_with<Scheme>(self) -> (r: Result<Dst, Self::Err>) where
        Self: Sized + ApproxInto<Dst, Scheme>,
        Scheme: ApproxScheme,
        ensures
            r == self.spec_approx_into(),
    {
        self.approx_into()
    }
}

impl<T, Dst> ApproxWith<Dst> for T {}

/// A conversion between different semantic types which might fail.
pub trait TryFrom<Src>: Sized {
    /// The error type produced by a failed conversion.
    type Err;

    /// What the conversion returns for each source value.
    spec fn spec_try_from(src: Src) -> Result<Self, Self::Err>;

    /// Convert the given value into the subject type.
    fn try_from(src: Src) -> (r: Result<Self, Self::Err>)
        ensures
            r == Self::spec_try_from(src),
    ;
}

/// Every type trivially converts to itself, and that conversion cannot
/// fail.
impl<Src> TryFrom<Src> for Src {
    type Err = NoError;

    open spec fn spec_try_from(src: Src) -> Result<Src, NoError> {
        Ok(src)
    }

    fn try_from(src: Src) -> (r: Result<Src, NoError>) {
        Ok(src)
    }
}

/// The dual of `TryFrom`; see that trait for information.
pub trait TryInto<Dst>: Sized {
    /// The error type produced by a failed conversion.
    type Err;

    /// What the conversion returns for each subject value.
    spec fn spec_try_into(self) -> Result<Dst, Self::Err>;

    /// Convert the subject into the destination type.
    fn try_into(self) -> (r: Result<Dst, Self::Err>)
        ensures
            r == self.spec_try_into(),
    ;
}

impl<Src, Dst> TryInto<Dst> for Src where Dst: TryFrom<Src> {
    type Err = Dst::Err;

    open spec fn spec_try_into(self) -> Result<Dst, Dst::Err> {
        Dst::spec_try_from(self)
    }

    fn try_into(self) -> (r: Result<Dst, Dst::Err>) {
        Dst::try_from(self)
    }
}

/// An exact, value-preserving conversion: it either produces a result
/// exactly equivalent to the source, or fails.  It never approximates.
///
/// Implementations should be reflexive and path-consistent: any cycle of
/// defined `ValueFrom` conversions must reproduce the original value
/// exactly for every input on which no step fails.
pub trait ValueFrom<Src>: Sized {
    /// The error type produced by a failed conversion.
    type Err;

    /// What the conversion returns for each source value.
    spec fn spec_value_from(src: Src) -> Result<Self, Self::Err>;

    /// Convert the given value into an exactly equivalent representation.
    fn value_from(src: Src) -> (r: Result<Self, Self::Err>)
        ensures
            r == Self::spec_value_from(src),
    ;
}

/// Every type converts to itself exactly, and that conversion cannot fail.
impl<Src> ValueFrom<Src> for Src {
    type Err = NoError;

    open spec fn spec_value_from(src: Src) -> Result<Src, NoError> {
        Ok(src)
    }

    fn value_from(src: Src) -> (r: Result<Src, NoError>) {
        Ok(src)
    }
}

/// The dual of `ValueFrom`; see that trait for information.
pub trait ValueInto<Dst>: Sized {
    /// The error type produced by a failed conversion.
    type Err;

    /// What the conversion returns for each subject value.
    spec fn spec_value_into(self) -> Result<Dst, Self::Err>;

    /// Convert the subject into an exactly equivalent representation.
    fn value_into(self) -> (r: Result<Dst, Self::Err>)
        ensures
            r == self.spec_value_into(),
    ;
}

impl<Src, Dst> ValueInto<Dst> for Src where Dst: ValueFrom<Src> {
    type Err = Dst::Err;

    open spec fn spec_value_into(self) -> Result<Dst, Dst::Err> {
        Dst::spec_value_from(self)
    }

    fn value_into(self) -> (r: Result<Dst, Dst::Err>) {
        Dst::value_from(self)
    }
}

/// Approximating self-conversion always succeeds and returns its input
/// unchanged, for every input and under every approximation scheme.
pub proof fn lemma_approx_self_is_identity<T, Scheme: ApproxScheme>(x: T)
    ensures
        <T as ApproxFrom<T, Scheme>>::spec_approx_from(x) == Ok::<T, NoError>(x),
{
}

/// Fallible self-conversion always succeeds and returns its input
/// unchanged, for every input.
pub proof fn lemma_try_self_is_identity<T>(x: T)
    ensures
        <T as TryFrom<T>>::spec_try_from(x) == Ok::<T, NoError>(x),
{
}

/// Exact self-conversion always succeeds and returns its input unchanged,
/// for every input: the reflexive case of the round-trip law.
pub proof fn lemma_value_self_is_identity<T>(x: T)
    ensures
        <T as ValueFrom<T>>::spec_value_from(x) == Ok::<T, NoError>(x),
{
}

} // verus!
