//! The mathematical model of the cipher, over sequences of bytes.
use crate::error::PadError;
use vstd::prelude::*;

verus! {

/// The byte-wise exclusive-or of two sequences, as long as the first.
pub open spec fn xor_bytes(pad: Seq<u8>, data: Seq<u8>) -> Seq<u8>
    recommends
        pad.len() == data.len(),
{
    Seq::new(pad.len(), |i: int| pad[i] ^ data[i])
}

/// Whether a pad and a buffer of data may be combined: they must be equally
/// long, and then not empty. A difference in length is reported first.
pub open spec fn check_buffers(pad: Seq<u8>, data: Seq<u8>) -> Result<(), PadError> {
    if pad.len() != data.len() {
        Err(PadError::LengthMismatch)
    } else if pad.len() == 0 {
        Err(PadError::EmptyBuffer)
    } else {
        Ok(())
    }
}

/// What the cipher makes of a pad and a buffer of data. Encryption and
/// decryption are this one function.
pub open spec fn transform(pad: Seq<u8>, data: Seq<u8>) -> Result<Seq<u8>, PadError> {
    match check_buffers(pad, data) {
        Ok(()) => Ok(xor_bytes(pad, data)),
        Err(e) => Err(e),
    }
}

/// The outcome of an operation, with its output read as a sequence of bytes.
pub open spec fn outcome_view(r: Result<Vec<u8>, PadError>) -> Result<Seq<u8>, PadError> {
    match r {
        Ok(out) => Ok(out@),
        Err(e) => Err(e),
    }
}

/// Every byte of the sequence is zero.
pub open spec fn all_zero(bytes: Seq<u8>) -> bool {
    forall|i: int| 0 <= i < bytes.len() ==> bytes[i] == 0u8
}

} // verus!
