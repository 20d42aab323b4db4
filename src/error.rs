//! What a failed decode reports.

use vstd::prelude::*;

verus! {

/// The kind of JSON value a decoder expected to find.
#[derive(Debug, Clone, Copy, PartialEq, Eq, Structural)]
pub enum Kind {
    I32,
    I64,
    U64,
    F64,
    Str,
    Sequence,
    Struct,
}

/// Why a JSON value could not be turned into a typed value.
///
/// Decoding stops at the first problem it meets and reports that one.
#[derive(Debug, Clone, PartialEq, Eq)]
pub enum MarshalError {
    /// A required object member is absent; holds the member's key.
    MissingField(&'static str),
    /// A value has the wrong shape; holds the kind that was expected.
    TypeMismatch(Kind),
    /// An array has the wrong number of elements; holds the expected count.
    LengthMismatch(usize),
    /// The text was not JSON; holds the parser's message.
    SyntaxError(String),
}

} // verus!
