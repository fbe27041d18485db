use vstd::prelude::*;

verus! {

/// Extraction of a scheme-specific value from a tagged union whose active
/// variant differs from the requested scheme.
#[derive(Clone, Copy, PartialEq, Eq, Debug)]
pub struct WrongVariant;

/// A serialized tagged union that cannot be decoded.
#[derive(Clone, Copy, PartialEq, Eq, Debug)]
pub enum DecodeError {
    /// The input is empty or its first byte names no supported scheme.
    UnknownDiscriminant,
    /// The discriminant is known but the payload has the wrong length
    /// for the indicated scheme.
    WrongLength,
}

} // verus!
