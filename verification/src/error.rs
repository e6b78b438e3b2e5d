//! The ways in which an operation of the library can fail.
use vstd::prelude::*;

verus! {

/// Why an operation produced no output.
#[derive(Debug, Clone, Copy, PartialEq, Eq, Structural)]
pub enum PadError {
    /// The pad and the data differ in length.
    LengthMismatch,
    /// The pad and the data are both empty.
    EmptyBuffer,
    /// The system's secure random source could not deliver the bytes.
    RandomSource,
}

} // verus!
