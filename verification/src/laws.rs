//! What holds of the cipher for every pad and every buffer of data, stated
//! over the model and proved.
use crate::error::PadError;
use crate::model::{all_zero, transform, xor_bytes};
use vstd::prelude::*;

verus! {

/// Exclusive-or with the same byte twice gives the other byte back.
proof fn xor_twice(p: u8, x: u8)
    by (bit_vector)
    ensures
        p ^ (p ^ x) == x,
{
}

/// Exclusive-or leaves a byte as it is only when the other byte is zero.
proof fn xor_fixed_point(p: u8, x: u8)
    by (bit_vector)
    ensures
        p ^ x == x <==> p == 0u8,
        p ^ x == p <==> x == 0u8,
{
}

/// Decrypting a ciphertext under the pad that it was encrypted with gives the
/// plaintext back, for every pad and plaintext of the same nonzero length.
pub proof fn involution(pad: Seq<u8>, plain: Seq<u8>)
    requires
        pad.len() == plain.len(),
        pad.len() > 0,
    ensures
        transform(pad, plain) is Ok,
        transform(pad, transform(pad, plain)->Ok_0) == Ok::<Seq<u8>, PadError>(plain),
{
    let cipher = xor_bytes(pad, plain);
    assert forall|i: int| 0 <= i < pad.len() implies pad[i] ^ cipher[i] == plain[i] by {
        xor_twice(pad[i], plain[i]);
    }
    assert(xor_bytes(pad, cipher) =~= plain);
}

/// The ciphertext equals the plaintext exactly when every byte of the pad is
/// zero, and it equals the pad exactly when every byte of the plaintext is
/// zero. Under any other pad, and for any other plaintext, the output differs
/// from both inputs.
pub proof fn non_identity(pad: Seq<u8>, plain: Seq<u8>)
    requires
        pad.len() == plain.len(),
        pad.len() > 0,
    ensures
        transform(pad, plain) == Ok::<Seq<u8>, PadError>(plain) <==> all_zero(pad),
        transform(pad, plain) == Ok::<Seq<u8>, PadError>(pad) <==> all_zero(plain),
{
    let cipher = xor_bytes(pad, plain);
    assert forall|i: int| 0 <= i < pad.len() implies (cipher[i] == plain[i] <==> pad[i] == 0u8)
        && (cipher[i] == pad[i] <==> plain[i] == 0u8) by {
        xor_fixed_point(pad[i], plain[i]);
    }
    if all_zero(pad) {
        assert(cipher =~= plain);
    }
    if all_zero(plain) {
        assert(cipher =~= pad);
    }
}

/// Which pad was used does not show in what comes back: encrypting one
/// plaintext under two pads, and decrypting each ciphertext under its own
/// pad, recovers the same bytes both times.
pub proof fn pad_independence(pad_a: Seq<u8>, pad_b: Seq<u8>, plain: Seq<u8>)
    requires
        pad_a.len() == plain.len(),
        pad_b.len() == plain.len(),
        plain.len() > 0,
    ensures
        transform(pad_a, plain) is Ok,
        transform(pad_b, plain) is Ok,
        transform(pad_a, transform(pad_a, plain)->Ok_0) == transform(
            pad_b,
            transform(pad_b, plain)->Ok_0,
        ),
{
    involution(pad_a, plain);
    involution(pad_b, plain);
}

} // verus!
