//! Errors of decoding.
use vstd::prelude::*;

verus! {

/// Why a buffer could not be decoded.
#[derive(Clone, Copy, Debug, PartialEq, Eq, Structural)]
pub enum DecodeError {
    /// The buffer does not have the record's fixed length.
    LengthMismatch { expected: usize, found: usize },
}

} // verus!
