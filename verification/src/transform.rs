//! The transform itself: validation of the two buffers, then the byte-wise
//! exclusive-or.
use crate::error::PadError;
use crate::model::{check_buffers, outcome_view, transform, xor_bytes};
use vstd::prelude::*;

verus! {

/// Checks that two buffers may be combined: a difference in length is
/// rejected first, then a pair of empty buffers.
pub fn error_check(buf_a: &Vec<u8>, buf_b: &Vec<u8>) -> (r: Result<(), PadError>)
    ensures
        r == check_buffers(buf_a@, buf_b@),
        r is Ok <==> buf_a@.len() == buf_b@.len() && buf_a@.len() > 0,
        r == Err::<(), PadError>(PadError::LengthMismatch) <==> buf_a@.len() != buf_b@.len(),
        r == Err::<(), PadError>(PadError::EmptyBuffer) <==> buf_a@.len() == 0 && buf_b@.len() == 0,
{
    if buf_a.len() != buf_b.len() {
        Err(PadError::LengthMismatch)
    } else if buf_a.len() == 0 {
        Err(PadError::EmptyBuffer)
    } else {
        Ok(())
    }
}

/// Combines a pad with a buffer of data of the same, nonzero length: byte `i`
/// of the output is byte `i` of the pad exclusive-or byte `i` of the data.
/// Buffers that fail `error_check` are rejected with its error, and nothing
/// is computed for them.
pub fn operate(pad_buffer: &Vec<u8>, data_buffer: &Vec<u8>) -> (r: Result<Vec<u8>, PadError>)
    ensures
        outcome_view(r) == transform(pad_buffer@, data_buffer@),
        r is Ok <==> pad_buffer@.len() == data_buffer@.len() && pad_buffer@.len() > 0,
        r matches Ok(out) ==> out@.len() == pad_buffer@.len() && out@.len() == data_buffer@.len(),
{
    match error_check(pad_buffer, data_buffer) {
        Err(e) => {
            return Err(e);
        },
        Ok(()) => {},
    }
    let n: usize = pad_buffer.len();
    let mut result: Vec<u8> = Vec::with_capacity(n);
    let mut i: usize = 0;
    while i < n
        invariant
            n == pad_buffer@.len(),
            n == data_buffer@.len(),
            i <= n,
            result@.len() == i,
            forall|k: int| 0 <= k < i ==> result@[k] == pad_buffer@[k] ^ data_buffer@[k],
        decreases n - i,
    {
        result.push(pad_buffer[i] ^ data_buffer[i]);
        i += 1;
    }
    assert(result@ =~= xor_bytes(pad_buffer@, data_buffer@));
    Ok(result)
}

} // verus!
