//! Errors of the decoders.
use vstd::prelude::*;

verus! {

/// Why a payload or a diagnostic text could not be decoded.
#[derive(Clone, Copy, PartialEq, Eq, Debug, Structural)]
pub enum DecodeError {
    /// The payload is not an object with exactly one known report tag
    UnknownReport,
    /// A required member is absent, or a member holds a value of the wrong kind
    InvalidField,
    /// A number is malformed or out of range
    InvalidNumber,
}

} // verus!
