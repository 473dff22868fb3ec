//! The failure taxonomy: the error types a failed conversion can produce,
//! the one-directional widenings between them, and the extension traits that
//! resolve a failed outcome into a definite value.

use vstd::prelude::*;
use crate::misc::{Saturated, InvalidSentinel, SignedInfinity};

verus! {

/// A type with no constructible value.  Its only field is uninhabited, so no
/// code, verified or not, can ever build one; its type invariant lets
/// verified code discharge any branch that would hold one.
#[derive(Clone, Copy, PartialEq, Eq, PartialOrd, Ord, Debug)]
pub struct Void {
    nothing: core::convert::Infallible,
}

impl Void {
    #[verifier::type_invariant]
    pub closed spec fn impossible(self) -> bool {
        false
    }
}

/// Indicates that it is not possible for the conversion to fail.
///
/// No value of this type can ever be built, so the failure arm of a
/// `Result<_, NoError>` is statically dead: `UnwrapOk::unwrap_ok` discards it
/// without any runtime test.
#[derive(Clone, Copy, PartialEq, Eq, PartialOrd, Ord, Debug)]
pub enum NoError {
    /// Never constructible: the payload has no value.
    Impossible(Void),
}

/// Indicates that the conversion failed because the value was not
/// representable.
#[derive(Clone, Copy, PartialEq, Eq, PartialOrd, Ord, Debug)]
pub struct Unrepresentable<T>(pub T);

/// Indicates that the conversion failed due to an underflow.
#[derive(Clone, Copy, PartialEq, Eq, PartialOrd, Ord, Debug)]
pub struct Underflow<T>(pub T);

/// Indicates that the conversion failed due to an overflow.
#[derive(Clone, Copy, PartialEq, Eq, PartialOrd, Ord, Debug)]
pub struct Overflow<T>(pub T);

/// Indicates that a conversion failed due to a range error, keeping the
/// offending input.
#[derive(Clone, Copy, PartialEq, Eq, PartialOrd, Ord, Debug)]
pub enum RangeError<T> {
    /// Input underflowed the target type.
    Underflow(T),
    /// Input overflowed the target type.
    Overflow(T),
}

/// Indicates that a conversion failed due to a range error, with the
/// offending input discarded.
///
/// This kind-only form of `RangeError` unifies range failures coming from
/// differently typed inputs under one comparable type.
#[derive(Clone, Copy, PartialEq, Eq, PartialOrd, Ord, Debug)]
pub enum RangeErrorKind {
    /// Input underflowed the target type.
    Underflow,
    /// Input overflowed the target type.
    Overflow,
}

/// Indicates that a conversion from a floating-point-like source failed.
#[derive(Clone, Copy, PartialEq, Eq, PartialOrd, Ord, Debug)]
pub enum FloatError<T> {
    /// Input underflowed the target type.
    Underflow(T),
    /// Input overflowed the target type.
    Overflow(T),
    /// Input was not-a-number, which the target type could not represent.
    NotANumber(T),
}

/// A general error enumeration that subsumes all other conversion errors,
/// keeping the offending input.
#[derive(Clone, Copy, PartialEq, Eq, PartialOrd, Ord, Debug)]
pub enum GeneralError<T> {
    /// Input underflowed the target type.
    Underflow(T),
    /// Input overflowed the target type.
    Overflow(T),
    /// Input was not representable in the target type.
    Unrepresentable(T),
}

/// A general error enumeration that subsumes all other conversion errors,
/// with the offending input discarded.
#[derive(Clone, Copy, PartialEq, Eq, PartialOrd, Ord, Debug)]
pub enum GeneralErrorKind {
    /// Input underflowed the target type.
    Underflow,
    /// Input overflowed the target type.
    Overflow,
    /// Input was not representable in the target type.
    Unrepresentable,
}

impl<T> Unrepresentable<T> {
    /// The value stored in this error.
    pub open spec fn spec_into_inner(self) -> T {
        self.0
    }

    /// Returns the value stored in this error.
    pub fn into_inner(self) -> (v: T)
        ensures
            v == self.spec_into_inner(),
    {
        self.0
    }
}

impl<T> Underflow<T> {
    /// The value stored in this error.
    pub open spec fn spec_into_inner(self) -> T {
        self.0
    }

    /// Returns the value stored in this error.
    pub fn into_inner(self) -> (v: T)
        ensures
            v == self.spec_into_inner(),
    {
        self.0
    }
}

impl<T> Overflow<T> {
    /// The value stored in this error.
    pub open spec fn spec_into_inner(self) -> T {
        self.0
    }

    /// Returns the value stored in this error.
    pub fn into_inner(self) -> (v: T)
        ensures
            v == self.spec_into_inner(),
    {
        self.0
    }
}

impl<T> RangeError<T> {
    /// The value stored in this error, whichever variant holds it.
    pub open spec fn spec_into_inner(self) -> T {
        match self {
            RangeError::Underflow(v) => v,
            RangeError::Overflow(v) => v,
        }
    }

    /// Returns the value stored in this error.
    pub fn into_inner(self) -> (v: T)
        ensures
            v == self.spec_into_inner(),
    {
        match self {
            RangeError::Underflow(v) => v,
            RangeError::Overflow(v) => v,
        }
    }
}

impl<T> FloatError<T> {
    /// The value stored in this error, whichever variant holds it.
    pub open spec fn spec_into_inner(self) -> T {
        match self {
            FloatError::Underflow(v) => v,
            FloatError::Overflow(v) => v,
            FloatError::NotANumber(v) => v,
        }
    }

    /// Returns the value stored in this error.
    pub fn into_inner(self) -> (v: T)
        ensures
            v == self.spec_into_inner(),
    {
        match self {
            FloatError::Underflow(v) => v,
            FloatError::Overflow(v) => v,
            FloatError::NotANumber(v) => v,
        }
    }
}

impl<T> GeneralError<T> {
    /// The value stored in this error, whichever variant holds it.
    pub open spec fn spec_into_inner(self) -> T {
        match self {
            GeneralError::Underflow(v) => v,
            GeneralError::Overflow(v) => v,
            GeneralError::Unrepresentable(v) => v,
        }
    }

    /// Returns the value stored in this error.
    pub fn into_inner(self) -> (v: T)
        ensures
            v == self.spec_into_inner(),
    {
        match self {
            GeneralError::Underflow(v) => v,
            GeneralError::Overflow(v) => v,
            GeneralError::Unrepresentable(v) => v,
        }
    }
}

impl<T> From<Unrepresentable<T>> for GeneralError<T> {
    fn from(e: Unrepresentable<T>) -> (r: GeneralError<T>) {
        GeneralError::Unrepresentable(e.0)
    }
}

impl<T> vstd::std_specs::convert::FromSpecImpl<Unrepresentable<T>> for GeneralError<T> {
    open spec fn obeys_from_spec() -> bool {
        true
    }

    open spec fn from_spec(e: Unrepresentable<T>) -> Self {
        GeneralError::Unrepresentable(e.0)
    }
}

impl<T> From<Underflow<T>> for GeneralError<T> {
    fn from(e: Underflow<T>) -> (r: GeneralError<T>) {
        GeneralError::Underflow(e.0)
    }
}

impl<T> vstd::std_specs::convert::FromSpecImpl<Underflow<T>> for GeneralError<T> {
    open spec fn obeys_from_spec() -> bool {
        true
    }

    open spec fn from_spec(e: Underflow<T>) -> Self {
        GeneralError::Underflow(e.0)
    }
}

impl<T> From<Overflow<T>> for GeneralError<T> {
    fn from(e: Overflow<T>) -> (r: GeneralError<T>) {
        GeneralError::Overflow(e.0)
    }
}

impl<T> vstd::std_specs::convert::FromSpecImpl<Overflow<T>> for GeneralError<T> {
    open spec fn obeys_from_spec() -> bool {
        true
    }

    open spec fn from_spec(e: Overflow<T>) -> Self {
        GeneralError::Overflow(e.0)
    }
}

impl<T> From<RangeError<T>> for GeneralError<T> {
    fn from(e: RangeError<T>) -> (r: GeneralError<T>) {
        match e {
            RangeError::Underflow(v) => GeneralError::Underflow(v),
            RangeError::Overflow(v) => GeneralError::Overflow(v),
        }
    }
}

impl<T> vstd::std_specs::convert::FromSpecImpl<RangeError<T>> for GeneralError<T> {
    open spec fn obeys_from_spec() -> bool {
        true
    }

    open spec fn from_spec(e: RangeError<T>) -> Self {
        match e {
            RangeError::Underflow(v) => GeneralError::Underflow(v),
            RangeError::Overflow(v) => GeneralError::Overflow(v),
        }
    }
}

impl<T> From<FloatError<T>> for GeneralError<T> {
    fn from(e: FloatError<T>) -> (r: GeneralError<T>) {
        match e {
            FloatError::Underflow(v) => GeneralError::Underflow(v),
            FloatError::Overflow(v) => GeneralError::Overflow(v),
            FloatError::NotANumber(v) => GeneralError::Unrepresentable(v),
        }
    }
}

impl<T> vstd::std_specs::convert::FromSpecImpl<FloatError<T>> for GeneralError<T> {
    open spec fn obeys_from_spec() -> bool {
        true
    }

    open spec fn from_spec(e: FloatError<T>) -> Self {
        match e {
            FloatError::Underflow(v) => GeneralError::Underflow(v),
            FloatError::Overflow(v) => GeneralError::Overflow(v),
            FloatError::NotANumber(v) => GeneralError::Unrepresentable(v),
        }
    }
}

/// A widening that can never actually execute: no `NoError` value exists.
/// It exists so that statically-infallible conversions satisfy the same
/// generic "produces a failure type" contracts as fallible ones.
impl<T> From<NoError> for GeneralError<T> {
    fn from(e: NoError) -> (r: GeneralError<T>) {
        match e {
            NoError::Impossible(void) => {
                proof {
                    use_type_invariant(&void);
                }
                unreached()
            },
        }
    }
}

impl<T> vstd::std_specs::convert::FromSpecImpl<NoError> for GeneralError<T> {
    open spec fn obeys_from_spec() -> bool {
        true
    }

    open spec fn from_spec(e: NoError) -> Self {
        arbitrary()
    }
}

impl<T> From<Unrepresentable<T>> for GeneralErrorKind {
    fn from(_e: Unrepresentable<T>) -> (r: GeneralErrorKind) {
        GeneralErrorKind::Unrepresentable
    }
}

impl<T> vstd::std_specs::convert::FromSpecImpl<Unrepresentable<T>> for GeneralErrorKind {
    open spec fn obeys_from_spec() -> bool {
        true
    }

    open spec fn from_spec(e: Unrepresentable<T>) -> Self {
        GeneralErrorKind::Unrepresentable
    }
}

impl<T> From<Underflow<T>> for GeneralErrorKind {
    fn from(_e: Underflow<T>) -> (r: GeneralErrorKind) {
        GeneralErrorKind::Underflow
    }
}

impl<T> vstd::std_specs::convert::FromSpecImpl<Underflow<T>> for GeneralErrorKind {
    open spec fn obeys_from_spec() -> bool {
        true
    }

    open spec fn from_spec(e: Underflow<T>) -> Self {
        GeneralErrorKind::Underflow
    }
}

impl<T> From<Overflow<T>> for GeneralErrorKind {
    fn from(_e: Overflow<T>) -> (r: GeneralErrorKind) {
        GeneralErrorKind::Overflow
    }
}

impl<T> vstd::std_specs::convert::FromSpecImpl<Overflow<T>> for GeneralErrorKind {
    open spec fn obeys_from_spec() -> bool {
        true
    }

    open spec fn from_spec(e: Overflow<T>) -> Self {
        GeneralErrorKind::Overflow
    }
}

impl From<RangeErrorKind> for GeneralErrorKind {
    fn from(e: RangeErrorKind) -> (r: GeneralErrorKind) {
        match e {
            RangeErrorKind::Underflow => GeneralErrorKind::Underflow,
            RangeErrorKind::Overflow => GeneralErrorKind::Overflow,
        }
    }
}

impl vstd::std_specs::convert::FromSpecImpl<RangeErrorKind> for GeneralErrorKind {
    open spec fn obeys_from_spec() -> bool {
        true
    }

    open spec fn from_spec(e: RangeErrorKind) -> Self {
        match e {
            RangeErrorKind::Underflow => GeneralErrorKind::Underflow,
            RangeErrorKind::Overflow => GeneralErrorKind::Overflow,
        }
    }
}

impl<T> From<RangeError<T>> for GeneralErrorKind {
    fn from(e: RangeError<T>) -> (r: GeneralErrorKind) {
        match e {
            RangeError::Underflow(_) => GeneralErrorKind::Underflow,
            RangeError::Overflow(_) => GeneralErrorKind::Overflow,
        }
    }
}

impl<T> vstd::std_specs::convert::FromSpecImpl<RangeError<T>> for GeneralErrorKind {
    open spec fn obeys_from_spec() -> bool {
        true
    }

    open spec fn from_spec(e: RangeError<T>) -> Self {
        match e {
            RangeError::Underflow(_) => GeneralErrorKind::Underflow,
            RangeError::Overflow(_) => GeneralErrorKind::Overflow,
        }
    }
}

impl<T> From<GeneralError<T>> for GeneralErrorKind {
    fn from(e: GeneralError<T>) -> (r: GeneralErrorKind) {
        match e {
            GeneralError::Underflow(_) => GeneralErrorKind::Underflow,
            GeneralError::Overflow(_) => GeneralErrorKind::Overflow,
            GeneralError::Unrepresentable(_) => GeneralErrorKind::Unrepresentable,
        }
    }
}

impl<T> vstd::std_specs::convert::FromSpecImpl<GeneralError<T>> for GeneralErrorKind {
    open spec fn obeys_from_spec() -> bool {
        true
    }

    open spec fn from_spec(e: GeneralError<T>) -> Self {
        match e {
            GeneralError::Underflow(_) => GeneralErrorKind::Underflow,
            GeneralError::Overflow(_) => GeneralErrorKind::Overflow,
            GeneralError::Unrepresentable(_) => GeneralErrorKind::Unrepresentable,
        }
    }
}

impl<T> From<FloatError<T>> for GeneralErrorKind {
    fn from(e: FloatError<T>) -> (r: GeneralErrorKind) {
        match e {
            FloatError::Underflow(_) => GeneralErrorKind::Underflow,
            FloatError::Overflow(_) => GeneralErrorKind::Overflow,
            FloatError::NotANumber(_) => GeneralErrorKind::Unrepresentable,
        }
    }
}

impl<T> vstd::std_specs::convert::FromSpecImpl<FloatError<T>> for GeneralErrorKind {
    open spec fn obeys_from_spec() -> bool {
        true
    }

    open spec fn from_spec(e: FloatError<T>) -> Self {
        match e {
            FloatError::Underflow(_) => GeneralErrorKind::Underflow,
            FloatError::Overflow(_) => GeneralErrorKind::Overflow,
            FloatError::NotANumber(_) => GeneralErrorKind::Unrepresentable,
        }
    }
}

/// A widening that can never actually execute: no `NoError` value exists.
/// It exists so that statically-infallible conversions satisfy the same
/// generic "produces a failure type" contracts as fallible ones.
impl From<NoError> for GeneralErrorKind {
    fn from(e: NoError) -> (r: GeneralErrorKind) {
        match e {
            NoError::Impossible(void) => {
                proof {
                    use_type_invariant(&void);
                }
                unreached()
            },
        }
    }
}

impl vstd::std_specs::convert::FromSpecImpl<NoError> for GeneralErrorKind {
    open spec fn obeys_from_spec() -> bool {
        true
    }

    open spec fn from_spec(e: NoError) -> Self {
        arbitrary()
    }
}

impl<T> From<Underflow<T>> for RangeError<T> {
    fn from(e: Underflow<T>) -> (r: RangeError<T>) {
        RangeError::Underflow(e.0)
    }
}

impl<T> vstd::std_specs::convert::FromSpecImpl<Underflow<T>> for RangeError<T> {
    open spec fn obeys_from_spec() -> bool {
        true
    }

    open spec fn from_spec(e: Underflow<T>) -> Self {
        RangeError::Underflow(e.0)
    }
}

impl<T> From<Overflow<T>> for RangeError<T> {
    fn from(e: Overflow<T>) -> (r: RangeError<T>) {
        RangeError::Overflow(e.0)
    }
}

impl<T> vstd::std_specs::convert::FromSpecImpl<Overflow<T>> for RangeError<T> {
    open spec fn obeys_from_spec() -> bool {
        true
    }

    open spec fn from_spec(e: Overflow<T>) -> Self {
        RangeError::Overflow(e.0)
    }
}

/// A widening that can never actually execute: no `NoError` value exists.
/// It exists so that statically-infallible conversions satisfy the same
/// generic "produces a failure type" contracts as fallible ones.
impl<T> From<NoError> for RangeError<T> {
    fn from(e: NoError) -> (r: RangeError<T>) {
        match e {
            NoError::Impossible(void) => {
                proof {
                    use_type_invariant(&void);
                }
                unreached()
            },
        }
    }
}

impl<T> vstd::std_specs::convert::FromSpecImpl<NoError> for RangeError<T> {
    open spec fn obeys_from_spec() -> bool {
        true
    }

    open spec fn from_spec(e: NoError) -> Self {
        arbitrary()
    }
}

impl<T> From<Underflow<T>> for RangeErrorKind {
    fn from(_e: Underflow<T>) -> (r: RangeErrorKind) {
        RangeErrorKind::Underflow
    }
}

impl<T> vstd::std_specs::convert::FromSpecImpl<Underflow<T>> for RangeErrorKind {
    open spec fn obeys_from_spec() -> bool {
        true
    }

    open spec fn from_spec(e: Underflow<T>) -> Self {
        RangeErrorKind::Underflow
    }
}

impl<T> From<Overflow<T>> for RangeErrorKind {
    fn from(_e: Overflow<T>) -> (r: RangeErrorKind) {
        RangeErrorKind::Overflow
    }
}

impl<T> vstd::std_specs::convert::FromSpecImpl<Overflow<T>> for RangeErrorKind {
    open spec fn obeys_from_spec() -> bool {
        true
    }

    open spec fn from_spec(e: Overflow<T>) -> Self {
        RangeErrorKind::Overflow
    }
}

impl<T> From<RangeError<T>> for RangeErrorKind {
    fn from(e: RangeError<T>) -> (r: RangeErrorKind) {
        match e {
            RangeError::Underflow(_) => RangeErrorKind::Underflow,
            RangeError::Overflow(_) => RangeErrorKind::Overflow,
        }
    }
}

impl<T> vstd::std_specs::convert::FromSpecImpl<RangeError<T>> for RangeErrorKind {
    open spec fn obeys_from_spec() -> bool {
        true
    }

    open spec fn from_spec(e: RangeError<T>) -> Self {
        match e {
            RangeError::Underflow(_) => RangeErrorKind::Underflow,
            RangeError::Overflow(_) => RangeErrorKind::Overflow,
        }
    }
}

/// A widening that can never actually execute: no `NoError` value exists.
/// It exists so that statically-infallible conversions satisfy the same
/// generic "produces a failure type" contracts as fallible ones.
impl From<NoError> for RangeErrorKind {
    fn from(e: NoError) -> (r: RangeErrorKind) {
        match e {
            NoError::Impossible(void) => {
                proof {
                    use_type_invariant(&void);
                }
                unreached()
            },
        }
    }
}

impl vstd::std_specs::convert::FromSpecImpl<NoError> for RangeErrorKind {
    open spec fn obeys_from_spec() -> bool {
        true
    }

    open spec fn from_spec(e: NoError) -> Self {
        arbitrary()
    }
}

impl<T> From<Underflow<T>> for FloatError<T> {
    fn from(e: Underflow<T>) -> (r: FloatError<T>) {
        FloatError::Underflow(e.0)
    }
}

impl<T> vstd::std_specs::convert::FromSpecImpl<Underflow<T>> for FloatError<T> {
    open spec fn obeys_from_spec() -> bool {
        true
    }

    open spec fn from_spec(e: Underflow<T>) -> Self {
        FloatError::Underflow(e.0)
    }
}

impl<T> From<Overflow<T>> for FloatError<T> {
    fn from(e: Overflow<T>) -> (r: FloatError<T>) {
        FloatError::Overflow(e.0)
    }
}

impl<T> vstd::std_specs::convert::FromSpecImpl<Overflow<T>> for FloatError<T> {
    open spec fn obeys_from_spec() -> bool {
        true
    }

    open spec fn from_spec(e: Overflow<T>) -> Self {
        FloatError::Overflow(e.0)
    }
}

impl<T> From<RangeError<T>> for FloatError<T> {
    fn from(e: RangeError<T>) -> (r: FloatError<T>) {
        match e {
            RangeError::Underflow(v) => FloatError::Underflow(v),
            RangeError::Overflow(v) => FloatError::Overflow(v),
        }
    }
}

impl<T> vstd::std_specs::convert::FromSpecImpl<RangeError<T>> for FloatError<T> {
    open spec fn obeys_from_spec() -> bool {
        true
    }

    open spec fn from_spec(e: RangeError<T>) -> Self {
        match e {
            RangeError::Underflow(v) => FloatError::Underflow(v),
            RangeError::Overflow(v) => FloatError::Overflow(v),
        }
    }
}

/// A widening that can never actually execute: no `NoError` value exists.
/// It exists so that statically-infallible conversions satisfy the same
/// generic "produces a failure type" contracts as fallible ones.
impl<T> From<NoError> for FloatError<T> {
    fn from(e: NoError) -> (r: FloatError<T>) {
        match e {
            NoError::Impossible(void) => {
                proof {
                    use_type_invariant(&void);
                }
                unreached()
            },
        }
    }
}

impl<T> vstd::std_specs::convert::FromSpecImpl<NoError> for FloatError<T> {
    open spec fn obeys_from_spec() -> bool {
        true
    }

    open spec fn from_spec(e: NoError) -> Self {
        arbitrary()
    }
}

/// A widening that can never actually execute: no `NoError` value exists.
/// It exists so that statically-infallible conversions satisfy the same
/// generic "produces a failure type" contracts as fallible ones.
impl<T> From<NoError> for Unrepresentable<T> {
    fn from(e: NoError) -> (r: Unrepresentable<T>) {
        match e {
            NoError::Impossible(void) => {
                proof {
                    use_type_invariant(&void);
                }
                unreached()
            },
        }
    }
}

impl<T> vstd::std_specs::convert::FromSpecImpl<NoError> for Unrepresentable<T> {
    open spec fn obeys_from_spec() -> bool {
        true
    }

    open spec fn from_spec(e: NoError) -> Self {
        arbitrary()
    }
}

/// A widening that can never actually execute: no `NoError` value exists.
/// It exists so that statically-infallible conversions satisfy the same
/// generic "produces a failure type" contracts as fallible ones.
impl<T> From<NoError> for Underflow<T> {
    fn from(e: NoError) -> (r: Underflow<T>) {
        match e {
            NoError::Impossible(void) => {
                proof {
                    use_type_invariant(&void);
                }
                unreached()
            },
        }
    }
}

impl<T> vstd::std_specs::convert::FromSpecImpl<NoError> for Underflow<T> {
    open spec fn obeys_from_spec() -> bool {
        true
    }

    open spec fn from_spec(e: NoError) -> Self {
        arbitrary()
    }
}

/// A widening that can never actually execute: no `NoError` value exists.
/// It exists so that statically-infallible conversions satisfy the same
/// generic "produces a failure type" contracts as fallible ones.
impl<T> From<NoError> for Overflow<T> {
    fn from(e: NoError) -> (r: Overflow<T>) {
        match e {
            NoError::Impossible(void) => {
                proof {
                    use_type_invariant(&void);
                }
                unreached()
            },
        }
    }
}

impl<T> vstd::std_specs::convert::FromSpecImpl<NoError> for Overflow<T> {
    open spec fn obeys_from_spec() -> bool {
        true
    }

    open spec fn from_spec(e: NoError) -> Self {
        arbitrary()
    }
}

impl<T> Unrepresentable<T> {
    /// What `description` returns.
    pub open spec fn spec_description(self) -> Seq<char> {
        "could not convert unrepresentable value"@
    }

    /// A human-readable description of the failure.
    pub fn description(&self) -> (s: &'static str)
        ensures
            s@ == self.spec_description(),
    {
        "could not convert unrepresentable value"
    }
}

impl<T> Underflow<T> {
    /// What `description` returns.
    pub open spec fn spec_description(self) -> Seq<char> {
        "conversion resulted in underflow"@
    }

    /// A human-readable description of the failure.
    pub fn description(&self) -> (s: &'static str)
        ensures
            s@ == self.spec_description(),
    {
        "conversion resulted in underflow"
    }
}

impl<T> Overflow<T> {
    /// What `description` returns.
    pub open spec fn spec_description(self) -> Seq<char> {
        "conversion resulted in overflow"@
    }

    /// A human-readable description of the failure.
    pub fn description(&self) -> (s: &'static str)
        ensures
            s@ == self.spec_description(),
    {
        "conversion resulted in overflow"
    }
}

impl<T> RangeError<T> {
    /// What `description` returns for each variant.
    pub open spec fn spec_description(self) -> Seq<char> {
        match self {
            RangeError::Underflow(_) => "conversion resulted in underflow"@,
            RangeError::Overflow(_) => "conversion resulted in overflow"@,
        }
    }

    /// A human-readable description of the failure.
    pub fn description(&self) -> (s: &'static str)
        ensures
            s@ == self.spec_description(),
    {
        match self {
            RangeError::Underflow(_) => "conversion resulted in underflow",
            RangeError::Overflow(_) => "conversion resulted in overflow",
        }
    }
}

impl RangeErrorKind {
    /// What `description` returns for each variant.
    pub open spec fn spec_description(self) -> Seq<char> {
        match self {
            RangeErrorKind::Underflow => "conversion resulted in underflow"@,
            RangeErrorKind::Overflow => "conversion resulted in overflow"@,
        }
    }

    /// A human-readable description of the failure.
    pub fn description(&self) -> (s: &'static str)
        ensures
            s@ == self.spec_description(),
    {
        match self {
            RangeErrorKind::Underflow => "conversion resulted in underflow",
            RangeErrorKind::Overflow => "conversion resulted in overflow",
        }
    }
}

impl<T> FloatError<T> {
    /// What `description` returns for each variant.
    pub open spec fn spec_description(self) -> Seq<char> {
        match self {
            FloatError::Underflow(_) => "conversion resulted in underflow"@,
            FloatError::Overflow(_) => "conversion resulted in overflow"@,
            FloatError::NotANumber(_) => "conversion target does not support not-a-number"@,
        }
    }

    /// A human-readable description of the failure.
    pub fn description(&self) -> (s: &'static str)
        ensures
            s@ == self.spec_description(),
    {
        match self {
            FloatError::Underflow(_) => "conversion resulted in underflow",
            FloatError::Overflow(_) => "conversion resulted in overflow",
            FloatError::NotANumber(_) => "conversion target does not support not-a-number",
        }
    }
}

impl<T> GeneralError<T> {
    /// What `description` returns for each variant.
    pub open spec fn spec_description(self) -> Seq<char> {
        match self {
            GeneralError::Underflow(_) => "conversion resulted in underflow"@,
            GeneralError::Overflow(_) => "conversion resulted in overflow"@,
            GeneralError::Unrepresentable(_) => "could not convert unrepresentable value"@,
        }
    }

    /// A human-readable description of the failure.
    pub fn description(&self) -> (s: &'static str)
        ensures
            s@ == self.spec_description(),
    {
        match self {
            GeneralError::Underflow(_) => "conversion resulted in underflow",
            GeneralError::Overflow(_) => "conversion resulted in overflow",
            GeneralError::Unrepresentable(_) => "could not convert unrepresentable value",
        }
    }
}

impl GeneralErrorKind {
    /// What `description` returns for each variant.
    pub open spec fn spec_description(self) -> Seq<char> {
        match self {
            GeneralErrorKind::Underflow => "conversion resulted in underflow"@,
            GeneralErrorKind::Overflow => "conversion resulted in overflow"@,
            GeneralErrorKind::Unrepresentable => "could not convert unrepresentable value"@,
        }
    }

    /// A human-readable description of the failure.
    pub fn description(&self) -> (s: &'static str)
        ensures
            s@ == self.spec_description(),
    {
        match self {
            GeneralErrorKind::Underflow => "conversion resulted in underflow",
            GeneralErrorKind::Overflow => "conversion resulted in overflow",
            GeneralErrorKind::Unrepresentable => "could not convert unrepresentable value",
        }
    }
}

impl NoError {
    /// No value of this type exists, so this method can never actually be
    /// called.
    pub fn description(&self) -> (s: &'static str) {
        match self {
            NoError::Impossible(void) => {
                proof {
                    use_type_invariant(void);
                }
                unreached()
            },
        }
    }
}

/// The saturation bound that resolves a range failure kind: the smallest
/// representable value for an underflow, the largest for an overflow.
pub open spec fn spec_saturation_of<T: Saturated>(kind: RangeErrorKind) -> T {
    match kind {
        RangeErrorKind::Underflow => T::spec_saturated_min(),
        RangeErrorKind::Overflow => T::spec_saturated_max(),
    }
}

/// The signed infinity that resolves a range failure kind: negative
/// infinity for an underflow, positive infinity for an overflow.
pub open spec fn spec_infinity_of<T: SignedInfinity>(kind: RangeErrorKind) -> T {
    match kind {
        RangeErrorKind::Underflow => T::spec_neg_infinity(),
        RangeErrorKind::Overflow => T::spec_pos_infinity(),
    }
}

/// Saturates an outcome: underflow and overflow failures are replaced by a
/// success holding the destination's saturated bound, while failure
/// variants with no saturation direction survive in a narrower error type.
pub trait Saturate: Sized {
    /// The result of saturating.
    type Output;

    /// What saturating resolves each outcome to.
    spec fn spec_saturate(self) -> Self::Output;

    /// Replaces an overflow or underflow error with a saturated value.
    ///
    /// Unlike `unwrap_or_saturate`, this method can be used in cases where
    /// the outcome's error type can encode failures *other* than overflow
    /// and underflow.  The output is again an outcome, whose error type no
    /// longer contains overflow or underflow conditions; what conditions
    /// remain must still be dealt with in some fashion.
    fn saturate(self) -> (r: Self::Output)
        ensures
            r == self.spec_saturate(),
    ;
}

impl<T, U> Saturate for Result<T, FloatError<U>> where T: Saturated {
    type Output = Result<T, Unrepresentable<U>>;

    open spec fn spec_saturate(self) -> Result<T, Unrepresentable<U>> {
        match self {
            Ok(v) => Ok(v),
            Err(FloatError::Underflow(_)) => Ok(T::spec_saturated_min()),
            Err(FloatError::Overflow(_)) => Ok(T::spec_saturated_max()),
            Err(FloatError::NotANumber(v)) => Err(Unrepresentable(v)),
        }
    }

    fn saturate(self) -> (r: Result<T, Unrepresentable<U>>) {
        match self {
            Ok(v) => Ok(v),
            Err(FloatError::Underflow(_)) => Ok(T::saturated_min()),
            Err(FloatError::Overflow(_)) => Ok(T::saturated_max()),
            Err(FloatError::NotANumber(v)) => Err(Unrepresentable(v)),
        }
    }
}

impl<T, U> Saturate for Result<T, RangeError<U>> where T: Saturated {
    type Output = Result<T, NoError>;

    open spec fn spec_saturate(self) -> Result<T, NoError> {
        match self {
            Ok(v) => Ok(v),
            Err(RangeError::Underflow(_)) => Ok(T::spec_saturated_min()),
            Err(RangeError::Overflow(_)) => Ok(T::spec_saturated_max()),
        }
    }

    fn saturate(self) -> (r: Result<T, NoError>) {
        match self {
            Ok(v) => Ok(v),
            Err(RangeError::Underflow(_)) => Ok(T::saturated_min()),
            Err(RangeError::Overflow(_)) => Ok(T::saturated_max()),
        }
    }
}

impl<T> Saturate for Result<T, RangeErrorKind> where T: Saturated {
    type Output = Result<T, NoError>;

    open spec fn spec_saturate(self) -> Result<T, NoError> {
        match self {
            Ok(v) => Ok(v),
            Err(RangeErrorKind::Underflow) => Ok(T::spec_saturated_min()),
            Err(RangeErrorKind::Overflow) => Ok(T::spec_saturated_max()),
        }
    }

    fn saturate(self) -> (r: Result<T, NoError>) {
        match self {
            Ok(v) => Ok(v),
            Err(RangeErrorKind::Underflow) => Ok(T::saturated_min()),
            Err(RangeErrorKind::Overflow) => Ok(T::saturated_max()),
        }
    }
}

/// Safely unwraps an outcome that cannot hold a failure.
pub trait UnwrapOk<T>: Sized {
    /// The success value this outcome holds.
    spec fn spec_unwrap_ok(self) -> T;

    /// Unwraps an outcome without possibility of failing: the failure arm
    /// is statically impossible and is never reached.
    fn unwrap_ok(self) -> (v: T)
        ensures
            v == self.spec_unwrap_ok(),
    ;
}

impl<T> UnwrapOk<T> for Result<T, NoError> {
    open spec fn spec_unwrap_ok(self) -> T {
        match self {
            Ok(v) => v,
            Err(_) => arbitrary(),
        }
    }

    fn unwrap_ok(self) -> (v: T)
        ensures
            self == Ok::<T, NoError>(v),
    {
        match self {
            Ok(v) => v,
            Err(NoError::Impossible(void)) => {
                proof {
                    use_type_invariant(&void);
                }
                unreached()
            },
        }
    }
}

/// Unwraps a conversion outcome by saturating to a signed infinity.
pub trait UnwrapOrInf: Sized {
    /// The result of unwrapping.
    type Output;

    /// What unwrapping resolves each outcome to.
    spec fn spec_unwrap_or_inf(self) -> Self::Output;

    /// Either unwraps the successfully converted value, or saturates to
    /// infinity in the "direction" of the overflow or underflow.
    fn unwrap_or_inf(self) -> (r: Self::Output)
        ensures
            r == self.spec_unwrap_or_inf(),
    ;
}

impl<T> UnwrapOrInf for Result<T, RangeErrorKind> where T: SignedInfinity {
    type Output = T;

    open spec fn spec_unwrap_or_inf(self) -> T {
        match self {
            Ok(v) => v,
            Err(kind) => spec_infinity_of::<T>(kind),
        }
    }

    fn unwrap_or_inf(self) -> (r: T) {
        match self {
            Ok(v) => v,
            Err(RangeErrorKind::Underflow) => T::neg_infinity(),
            Err(RangeErrorKind::Overflow) => T::pos_infinity(),
        }
    }
}

impl<T, U> UnwrapOrInf for Result<T, RangeError<U>> where T: SignedInfinity {
    type Output = T;

    open spec fn spec_unwrap_or_inf(self) -> T {
        match self {
            Ok(v) => v,
            Err(RangeError::Underflow(_)) => T::spec_neg_infinity(),
            Err(RangeError::Overflow(_)) => T::spec_pos_infinity(),
        }
    }

    fn unwrap_or_inf(self) -> (r: T) {
        match self {
            Ok(v) => v,
            Err(RangeError::Underflow(_)) => T::neg_infinity(),
            Err(RangeError::Overflow(_)) => T::pos_infinity(),
        }
    }
}

impl<T, U> UnwrapOrInf for Result<T, Underflow<U>> where T: SignedInfinity {
    type Output = T;

    open spec fn spec_unwrap_or_inf(self) -> T {
        match self {
            Ok(v) => v,
            Err(_) => T::spec_neg_infinity(),
        }
    }

    fn unwrap_or_inf(self) -> (r: T) {
        match self {
            Ok(v) => v,
            Err(Underflow(_)) => T::neg_infinity(),
        }
    }
}

impl<T, U> UnwrapOrInf for Result<T, Overflow<U>> where T: SignedInfinity {
    type Output = T;

    open spec fn spec_unwrap_or_inf(self) -> T {
        match self {
            Ok(v) => v,
            Err(_) => T::spec_pos_infinity(),
        }
    }

    fn unwrap_or_inf(self) -> (r: T) {
        match self {
            Ok(v) => v,
            Err(Overflow(_)) => T::pos_infinity(),
        }
    }
}

impl<T> UnwrapOrInf for Result<T, NoError> where T: SignedInfinity {
    type Output = T;

    open spec fn spec_unwrap_or_inf(self) -> T {
        match self {
            Ok(v) => v,
            Err(_) => arbitrary(),
        }
    }

    fn unwrap_or_inf(self) -> (r: T)
        ensures
            self == Ok::<T, NoError>(r),
    {
        match self {
            Ok(v) => v,
            Err(NoError::Impossible(void)) => {
                proof {
                    use_type_invariant(&void);
                }
                unreached()
            },
        }
    }
}

/// Unwraps a conversion outcome by substituting the destination's
/// designated invalid sentinel on any failure.
pub trait UnwrapOrInvalid: Sized {
    /// The result of unwrapping.
    type Output;

    /// What unwrapping resolves each outcome to.
    spec fn spec_unwrap_or_invalid(self) -> Self::Output;

    /// Either unwraps the successfully converted value, or returns the
    /// output type's invalid sentinel value.
    fn unwrap_or_invalid(self) -> (r: Self::Output)
        ensures
            r == self.spec_unwrap_or_invalid(),
    ;
}

impl<T, E> UnwrapOrInvalid for Result<T, E> where T: InvalidSentinel {
    type Output = T;

    open spec fn spec_unwrap_or_invalid(self) -> T {
        match self {
            Ok(v) => v,
            Err(_) => T::spec_invalid_sentinel(),
        }
    }

    fn unwrap_or_invalid(self) -> (r: T) {
        match self {
            Ok(v) => v,
            Err(_) => T::invalid_sentinel(),
        }
    }
}

/// Unwraps a conversion outcome by saturating to a representable bound.
pub trait UnwrapOrSaturate: Sized {
    /// The result of unwrapping.
    type Output;

    /// What unwrapping resolves each outcome to.
    spec fn spec_unwrap_or_saturate(self) -> Self::Output;

    /// Either unwraps the successfully converted value, or saturates in
    /// the "direction" of the overflow or underflow.
    fn unwrap_or_saturate(self) -> (r: Self::Output)
        ensures
            r == self.spec_unwrap_or_saturate(),
    ;
}

impl<T> UnwrapOrSaturate for Result<T, RangeErrorKind> where T: Saturated {
    type Output = T;

    open spec fn spec_unwrap_or_saturate(self) -> T {
        match self {
            Ok(v) => v,
            Err(kind) => spec_saturation_of::<T>(kind),
        }
    }

    fn unwrap_or_saturate(self) -> (r: T) {
        match self {
            Ok(v) => v,
            Err(RangeErrorKind::Underflow) => T::saturated_min(),
            Err(RangeErrorKind::Overflow) => T::saturated_max(),
        }
    }
}

impl<T, U> UnwrapOrSaturate for Result<T, RangeError<U>> where T: Saturated {
    type Output = T;

    open spec fn spec_unwrap_or_saturate(self) -> T {
        match self {
            Ok(v) => v,
            Err(RangeError::Underflow(_)) => T::spec_saturated_min(),
            Err(RangeError::Overflow(_)) => T::spec_saturated_max(),
        }
    }

    fn unwrap_or_saturate(self) -> (r: T) {
        match self {
            Ok(v) => v,
            Err(RangeError::Underflow(_)) => T::saturated_min(),
            Err(RangeError::Overflow(_)) => T::saturated_max(),
        }
    }
}

impl<T, U> UnwrapOrSaturate for Result<T, Underflow<U>> where T: Saturated {
    type Output = T;

    open spec fn spec_unwrap_or_saturate(self) -> T {
        match self {
            Ok(v) => v,
            Err(_) => T::spec_saturated_min(),
        }
    }

    fn unwrap_or_saturate(self) -> (r: T) {
        match self {
            Ok(v) => v,
            Err(Underflow(_)) => T::saturated_min(),
        }
    }
}

impl<T, U> UnwrapOrSaturate for Result<T, Overflow<U>> where T: Saturated {
    type Output = T;

    open spec fn spec_unwrap_or_saturate(self) -> T {
        match self {
            Ok(v) => v,
            Err(_) => T::spec_saturated_max(),
        }
    }

    fn unwrap_or_saturate(self) -> (r: T) {
        match self {
            Ok(v) => v,
            Err(Overflow(_)) => T::saturated_max(),
        }
    }
}

impl<T> UnwrapOrSaturate for Result<T, NoError> where T: Saturated {
    type Output = T;

    open spec fn spec_unwrap_or_saturate(self) -> T {
        match self {
            Ok(v) => v,
            Err(_) => arbitrary(),
        }
    }

    fn unwrap_or_saturate(self) -> (r: T)
        ensures
            self == Ok::<T, NoError>(r),
    {
        match self {
            Ok(v) => v,
            Err(NoError::Impossible(void)) => {
                proof {
                    use_type_invariant(&void);
                }
                unreached()
            },
        }
    }
}

/// Widening a specific payload-carrying failure into the unified
/// payload-carrying taxonomy keeps the failure's kind and its payload:
/// an underflow stays an underflow, an overflow stays an overflow, and a
/// not-a-number failure becomes the closest general concept,
/// `Unrepresentable`, still holding the offending input.
pub proof fn lemma_widen_to_general_keeps_kind_and_payload<T>(v: T)
    ensures
        <GeneralError<T> as vstd::std_specs::convert::FromSpec<RangeError<T>>>::from_spec(
            RangeError::Underflow(v),
        ) == GeneralError::Underflow(v),
        <GeneralError<T> as vstd::std_specs::convert::FromSpec<RangeError<T>>>::from_spec(
            RangeError::Overflow(v),
        ) == GeneralError::Overflow(v),
        <GeneralError<T> as vstd::std_specs::convert::FromSpec<FloatError<T>>>::from_spec(
            FloatError::Underflow(v),
        ) == GeneralError::Underflow(v),
        <GeneralError<T> as vstd::std_specs::convert::FromSpec<FloatError<T>>>::from_spec(
            FloatError::Overflow(v),
        ) == GeneralError::Overflow(v),
        <GeneralError<T> as vstd::std_specs::convert::FromSpec<FloatError<T>>>::from_spec(
            FloatError::NotANumber(v),
        ) == GeneralError::Unrepresentable(v),
{
}

/// Widening a single-kind failure into a payload-carrying group keeps the
/// kind and the payload.
pub proof fn lemma_widen_single_keeps_kind_and_payload<T>(v: T)
    ensures
        <RangeError<T> as vstd::std_specs::convert::FromSpec<Underflow<T>>>::from_spec(
            Underflow(v),
        ) == RangeError::Underflow(v),
        <RangeError<T> as vstd::std_specs::convert::FromSpec<Overflow<T>>>::from_spec(Overflow(v))
            == RangeError::Overflow(v),
        <FloatError<T> as vstd::std_specs::convert::FromSpec<Underflow<T>>>::from_spec(
            Underflow(v),
        ) == FloatError::Underflow(v),
        <FloatError<T> as vstd::std_specs::convert::FromSpec<Overflow<T>>>::from_spec(Overflow(v))
            == FloatError::Overflow(v),
        <FloatError<T> as vstd::std_specs::convert::FromSpec<RangeError<T>>>::from_spec(
            RangeError::Underflow(v),
        ) == FloatError::Underflow(v),
        <FloatError<T> as vstd::std_specs::convert::FromSpec<RangeError<T>>>::from_spec(
            RangeError::Overflow(v),
        ) == FloatError::Overflow(v),
        <GeneralError<T> as vstd::std_specs::convert::FromSpec<Underflow<T>>>::from_spec(
            Underflow(v),
        ) == GeneralError::Underflow(v),
        <GeneralError<T> as vstd::std_specs::convert::FromSpec<Overflow<T>>>::from_spec(
            Overflow(v),
        ) == GeneralError::Overflow(v),
        <GeneralError<T> as vstd::std_specs::convert::FromSpec<Unrepresentable<T>>>::from_spec(
            Unrepresentable(v),
        ) == GeneralError::Unrepresentable(v),
{
}

/// Dropping the payload of a range-shaped failure keeps its kind.
pub proof fn lemma_drop_payload_to_range_kind<T>(v: T)
    ensures
        <RangeErrorKind as vstd::std_specs::convert::FromSpec<Underflow<T>>>::from_spec(
            Underflow(v),
        ) == RangeErrorKind::Underflow,
        <RangeErrorKind as vstd::std_specs::convert::FromSpec<Overflow<T>>>::from_spec(Overflow(v))
            == RangeErrorKind::Overflow,
        <RangeErrorKind as vstd::std_specs::convert::FromSpec<RangeError<T>>>::from_spec(
            RangeError::Underflow(v),
        ) == RangeErrorKind::Underflow,
        <RangeErrorKind as vstd::std_specs::convert::FromSpec<RangeError<T>>>::from_spec(
            RangeError::Overflow(v),
        ) == RangeErrorKind::Overflow,
{
}

/// Dropping the payload of any failure on its way into the kind-only
/// unified taxonomy keeps its kind, with not-a-number again generalised to
/// `Unrepresentable`.
pub proof fn lemma_drop_payload_to_general_kind<T>(v: T)
    ensures
        <GeneralErrorKind as vstd::std_specs::convert::FromSpec<Underflow<T>>>::from_spec(
            Underflow(v),
        ) == GeneralErrorKind::Underflow,
        <GeneralErrorKind as vstd::std_specs::convert::FromSpec<Overflow<T>>>::from_spec(
            Overflow(v),
        ) == GeneralErrorKind::Overflow,
        <GeneralErrorKind as vstd::std_specs::convert::FromSpec<Unrepresentable<T>>>::from_spec(
            Unrepresentable(v),
        ) == GeneralErrorKind::Unrepresentable,
        <GeneralErrorKind as vstd::std_specs::convert::FromSpec<RangeError<T>>>::from_spec(
            RangeError::Underflow(v),
        ) == GeneralErrorKind::Underflow,
        <GeneralErrorKind as vstd::std_specs::convert::FromSpec<RangeError<T>>>::from_spec(
            RangeError::Overflow(v),
        ) == GeneralErrorKind::Overflow,
        <GeneralErrorKind as vstd::std_specs::convert::FromSpec<GeneralError<T>>>::from_spec(
            GeneralError::Underflow(v),
        ) == GeneralErrorKind::Underflow,
        <GeneralErrorKind as vstd::std_specs::convert::FromSpec<GeneralError<T>>>::from_spec(
            GeneralError::Overflow(v),
        ) == GeneralErrorKind::Overflow,
        <GeneralErrorKind as vstd::std_specs::convert::FromSpec<GeneralError<T>>>::from_spec(
            GeneralError::Unrepresentable(v),
        ) == GeneralErrorKind::Unrepresentable,
        <GeneralErrorKind as vstd::std_specs::convert::FromSpec<FloatError<T>>>::from_spec(
            FloatError::Underflow(v),
        ) == GeneralErrorKind::Underflow,
        <GeneralErrorKind as vstd::std_specs::convert::FromSpec<FloatError<T>>>::from_spec(
            FloatError::Overflow(v),
        ) == GeneralErrorKind::Overflow,
        <GeneralErrorKind as vstd::std_specs::convert::FromSpec<FloatError<T>>>::from_spec(
            FloatError::NotANumber(v),
        ) == GeneralErrorKind::Unrepresentable,
{
}

/// Widening the kind-only range taxonomy into the kind-only unified
/// taxonomy is the identity on the two shared kinds.
pub proof fn lemma_widen_range_kind_to_general_kind(kind: RangeErrorKind)
    ensures
        kind == RangeErrorKind::Underflow ==> <GeneralErrorKind as vstd::std_specs::convert::FromSpec<
            RangeErrorKind,
        >>::from_spec(kind) == GeneralErrorKind::Underflow,
        kind == RangeErrorKind::Overflow ==> <GeneralErrorKind as vstd::std_specs::convert::FromSpec<
            RangeErrorKind,
        >>::from_spec(kind) == GeneralErrorKind::Overflow,
{
}

/// Error-narrowing saturation is total over range-failure-shaped outcomes:
/// every underflow resolves to a success holding the destination's
/// saturated minimum, every overflow to its saturated maximum, and a
/// success passes through unchanged, so the narrowed outcome never holds a
/// failure and a further saturation pass would find nothing to resolve.
pub proof fn lemma_saturate_range_total<T: Saturated, U>(r: Result<T, RangeError<U>>)
    ensures
        r matches Err(RangeError::Underflow(_)) ==> r.spec_saturate() == Ok::<T, NoError>(
            T::spec_saturated_min(),
        ),
        r matches Err(RangeError::Overflow(_)) ==> r.spec_saturate() == Ok::<T, NoError>(
            T::spec_saturated_max(),
        ),
        r matches Ok(v) ==> r.spec_saturate() == Ok::<T, NoError>(v),
        r.spec_saturate() matches Ok(_),
{
}

/// As `lemma_saturate_range_total`, for outcomes whose failure dropped its
/// payload.
pub proof fn lemma_saturate_range_kind_total<T: Saturated>(r: Result<T, RangeErrorKind>)
    ensures
        r == Err::<T, RangeErrorKind>(RangeErrorKind::Underflow) ==> r.spec_saturate() == Ok::<
            T,
            NoError,
        >(T::spec_saturated_min()),
        r == Err::<T, RangeErrorKind>(RangeErrorKind::Overflow) ==> r.spec_saturate() == Ok::<
            T,
            NoError,
        >(T::spec_saturated_max()),
        r matches Ok(v) ==> r.spec_saturate() == Ok::<T, NoError>(v),
        r.spec_saturate() matches Ok(_),
{
}

/// Over a float-source failure, saturation resolves the two range arms but
/// never the not-a-number arm, which survives remapped to
/// `Unrepresentable` with its payload kept: it has no saturation
/// direction.
pub proof fn lemma_saturate_float<T: Saturated, U>(r: Result<T, FloatError<U>>)
    ensures
        r matches Err(FloatError::Underflow(_)) ==> r.spec_saturate() == Ok::<
            T,
            Unrepresentable<U>,
        >(T::spec_saturated_min()),
        r matches Err(FloatError::Overflow(_)) ==> r.spec_saturate() == Ok::<T, Unrepresentable<U>>(
            T::spec_saturated_max(),
        ),
        r matches Err(FloatError::NotANumber(v)) ==> r.spec_saturate() == Err::<
            T,
            Unrepresentable<U>,
        >(Unrepresentable(v)),
        r matches Ok(v) ==> r.spec_saturate() == Ok::<T, Unrepresentable<U>>(v),
{
}

/// The saturating and the infinity-substituting unwraps resolve each range
/// failure kind in the same direction as error-narrowing saturation: an
/// underflow to the minimum-side limit, an overflow to the maximum-side
/// limit.  They differ only in the limit substituted, the finite bound or
/// the signed infinity; the saturating unwrap returns exactly the value
/// inside the always-successful outcome that error-narrowing saturation
/// produces.
pub proof fn lemma_unwrap_resolution_agreement<T: Saturated + SignedInfinity, U>(
    kind: RangeErrorKind,
    r: Result<T, RangeErrorKind>,
    p: Result<T, RangeError<U>>,
)
    ensures
        kind == RangeErrorKind::Underflow ==> spec_saturation_of::<T>(kind)
            == T::spec_saturated_min() && spec_infinity_of::<T>(kind) == T::spec_neg_infinity(),
        kind == RangeErrorKind::Overflow ==> spec_saturation_of::<T>(kind)
            == T::spec_saturated_max() && spec_infinity_of::<T>(kind) == T::spec_pos_infinity(),
        r.spec_saturate() == Ok::<T, NoError>(r.spec_unwrap_or_saturate()),
        r matches Err(k) ==> r.spec_unwrap_or_saturate() == spec_saturation_of::<T>(k)
            && r.spec_unwrap_or_inf() == spec_infinity_of::<T>(k),
        p.spec_saturate() == Ok::<T, NoError>(p.spec_unwrap_or_saturate()),
        p matches Err(RangeError::Underflow(_)) ==> p.spec_unwrap_or_saturate()
            == T::spec_saturated_min() && p.spec_unwrap_or_inf() == T::spec_neg_infinity(),
        p matches Err(RangeError::Overflow(_)) ==> p.spec_unwrap_or_saturate()
            == T::spec_saturated_max() && p.spec_unwrap_or_inf() == T::spec_pos_infinity(),
{
}

/// The sentinel-substituting unwrap produces a definite value for every
/// outcome, whatever its failure kind: any failed outcome resolves to the
/// destination's designated invalid value, and a success passes through
/// unchanged.
pub proof fn lemma_unwrap_or_invalid_total<T: InvalidSentinel, E>(r: Result<T, E>)
    ensures
        r matches Err(_) ==> r.spec_unwrap_or_invalid() == T::spec_invalid_sentinel(),
        r matches Ok(v) ==> r.spec_unwrap_or_invalid() == v,
{
}

} // verus!
