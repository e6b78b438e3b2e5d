//! The system's secure random source, and what the library makes of its
//! answer.
use crate::error::PadError;
use vstd::prelude::*;

verus! {

/// The error of `getrandom`, carried as an opaque value.
#[verifier::external_type_specification]
#[verifier::external_body]
pub struct ExGetrandomError(getrandom::Error);

/// `getrandom::getrandom` fills the whole of `dest` from the operating
/// system's random source, or reports a failure. Assumed here, and not
/// proved: the buffer keeps its length whatever the outcome, and an empty
/// buffer always succeeds, since the source is then not consulted at all.
/// Nothing is claimed of the bytes themselves: they differ from call to call,
/// and after a failure they are unspecified.
pub assume_specification[ getrandom::getrandom ](dest: &mut [u8]) -> (r: Result<
    (),
    getrandom::Error,
>)
    ensures
        final(dest)@.len() == old(dest)@.len(),
        old(dest)@.len() == 0 ==> r is Ok,
;

/// Settles a request for random bytes once the random source has answered:
/// after a success the filled buffer is the pad, after a failure there is no
/// pad and the buffer is dropped.
pub fn pad_from_fill(buffer: Vec<u8>, outcome: Result<(), getrandom::Error>) -> (r: Result<
    Vec<u8>,
    PadError,
>)
    ensures
        outcome is Ok ==> r == Ok::<Vec<u8>, PadError>(buffer),
        outcome is Err ==> r == Err::<Vec<u8>, PadError>(PadError::RandomSource),
{
    match outcome {
        Ok(()) => Ok(buffer),
        Err(_) => Err(PadError::RandomSource),
    }
}

} // verus!
