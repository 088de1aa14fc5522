//! Flags and errors of the byte serialization used by field and polynomial types.
use vstd::prelude::*;

verus! {

/// Whether points are written compressed; field elements ignore it.
#[derive(Clone, Copy, PartialEq, Eq, Structural, Debug)]
pub enum Compress {
    Yes,
    No,
}

/// Whether decoded values are checked; field elements ignore it.
#[derive(Clone, Copy, PartialEq, Eq, Structural, Debug)]
pub enum Validate {
    Yes,
    No,
}

/// Why decoding failed.
#[derive(Clone, Copy, PartialEq, Eq, Structural, Debug)]
pub enum SerializationError {
    /// The input ended before a whole value was read.
    NotEnoughSpace,
    /// The bytes do not encode a value.
    InvalidData,
}

} // verus!
