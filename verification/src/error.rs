//! The failures that building and filling columns and functions can report.

use vstd::prelude::*;
use crate::eval_type::FieldTypeTp;
use crate::expr::ScalarFuncSig;

verus! {

/// A recoverable failure, reported to the caller as a value.
#[derive(Clone, Copy, Debug, PartialEq, Eq, Structural)]
pub enum Error {
    /// The element buffer cannot take another encoded value.
    Encoding,
    /// An aggregate function was given this many operands instead of one.
    Arity(usize),
    /// A field type that has no logical value type.
    UnsupportedFieldType(FieldTypeTp),
    /// The declared output type disagrees with the operand's type.
    UnexpectedFieldType(FieldTypeTp),
    /// A scalar function that has no vectorized implementation.
    UnsupportedSignature(ScalarFuncSig),
}

} // verus!
