use vstd::prelude::*;

verus! {

/// The failure conditions of this library. Every operation that can fail
/// reports one of these kinds instead of panicking, so that a caller can
/// recover from any of them.
#[derive(Debug, Clone, Copy, PartialEq, Eq, Structural)]
pub enum CollationError {
    /// An input string is not valid hexadecimal where a weight was expected,
    /// or its value does not fit the weight representation.
    MalformedWeight,
    /// The bracketed weight notation is missing its markers or has an empty body.
    MalformedNotation,
    /// A level ordinal outside the supported range (1 through 4) was requested.
    UnsupportedLevel,
    /// A level index of zero was supplied where a positive index is required.
    InvalidLevelIndex,
    /// A positive level index exceeds the number of levels actually present.
    LevelOutOfRange,
    /// A mapping was requested with zero characters or zero elements.
    InvalidArity,
    /// An extremal-weight query was issued against a table with no mappings.
    EmptyTable,
}

} // verus!
