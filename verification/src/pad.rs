//! The cipher's entry points.
use crate::entropy::pad_from_fill;
use crate::error::PadError;
use crate::model::{outcome_view, transform};
use crate::transform::operate;
use vstd::prelude::*;

verus! {

/// The one-time pad cipher. It holds no state: every operation works on the
/// buffers it is handed and returns a fresh one.
#[derive(Debug)]
pub struct OneTimePad;

impl OneTimePad {
    /// Encrypts `plain_text_buffer` under `pad_buffer`. Buffers of different
    /// lengths are rejected with `LengthMismatch`, two empty buffers with
    /// `EmptyBuffer`; for all others the ciphertext is returned, as long as
    /// the plaintext.
    pub fn encrypt(pad_buffer: &Vec<u8>, plain_text_buffer: &Vec<u8>) -> (r: Result<
        Vec<u8>,
        PadError,
    >)
        ensures
            outcome_view(r) == transform(pad_buffer@, plain_text_buffer@),
            r is Ok <==> pad_buffer@.len() == plain_text_buffer@.len() && pad_buffer@.len() > 0,
            r matches Ok(out) ==> out@.len() == plain_text_buffer@.len(),
    {
        operate(pad_buffer, plain_text_buffer)
    }

    /// Decrypts `encrypted_data_buffer` under `pad_buffer`, the pad that it
    /// was encrypted with. Buffers of different lengths are rejected with
    /// `LengthMismatch`, two empty buffers with `EmptyBuffer`; for all others
    /// the plaintext is returned, as long as the ciphertext.
    pub fn decrypt(pad_buffer: &Vec<u8>, encrypted_data_buffer: &Vec<u8>) -> (r: Result<
        Vec<u8>,
        PadError,
    >)
        ensures
            outcome_view(r) == transform(pad_buffer@, encrypted_data_buffer@),
            r is Ok <==> pad_buffer@.len() == encrypted_data_buffer@.len() && pad_buffer@.len()
                > 0,
            r matches Ok(out) ==> out@.len() == encrypted_data_buffer@.len(),
    {
        operate(pad_buffer, encrypted_data_buffer)
    }

    /// Draws a fresh pad of `length` bytes from the system's secure random
    /// source. A pad of length zero is always granted, though no buffer can be
    /// encrypted with it. The only failure is that of the random source, and
    /// nothing is promised of the bytes but that they come from it.
    pub fn generate_random_pad(length: usize) -> (r: Result<Vec<u8>, PadError>)
        ensures
            r matches Ok(pad) ==> pad@.len() == length,
            r matches Err(e) ==> e == PadError::RandomSource,
            length == 0 ==> r is Ok,
    {
        let mut buffer: Vec<u8> = vec![0u8; length];
        let outcome = getrandom::getrandom(buffer.as_mut_slice());
        pad_from_fill(buffer, outcome)
    }
}

} // verus!
