//! Re-exports the most generally useful set of items.

pub use crate::{
    ApproxFrom, ApproxInto, ApproxWith, ValueFrom, ValueInto, UnwrapOk, UnwrapOrInf,
    UnwrapOrInvalid, UnwrapOrSaturate,
};
