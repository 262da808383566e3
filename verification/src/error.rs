//! Errors of the wire codec.

use vstd::prelude::*;

verus! {

/// Why a wire form was rejected. Every variant is recoverable: the
/// dispatcher turns it into an invalid-input outcome.
#[derive(Clone, Copy, Debug, PartialEq, Eq, Structural)]
pub enum DecodeError {
    /// A field the type requires was absent after parsing.
    MissingRequiredField,
    /// A key outside the type's field set appeared in a flattened form.
    UnexpectedKey,
    /// A flattened form ended on a key with no following value.
    MissingValue,
    /// A field holding model values in a collection cannot travel in the
    /// flattened form.
    UnsupportedContainer,
    /// A value token did not parse under its field's scalar grammar.
    InvalidValue,
}

} // verus!
