//! The XOR transform: every byte of the data is combined with the byte of a
//! cyclically repeated key that stands at the same place.

use vstd::prelude::*;
use vstd::utf8::{encode_scalar, encode_utf8};
use crate::error::{empty_key, fails_with, yields, ArgumentFault, CipherError};

verus! {

/// The data with the repeated key laid over it: byte `i` of the result is
/// byte `i` of `data` XOR byte `i mod key.len()` of `key`.
pub open spec fn xor_bytes(key: Seq<u8>, data: Seq<u8>) -> Seq<u8>
    recommends
        key.len() > 0,
{
    Seq::new(data.len(), |i: int| data[i] ^ key[i % (key.len() as int)])
}

/// What [`xor`] returns for a key and data.
pub open spec fn xor_outcome(key: Seq<u8>, data: Seq<u8>) -> Result<Seq<u8>, CipherError> {
    if key.len() == 0 {
        Err(empty_key())
    } else {
        Ok(xor_bytes(key, data))
    }
}

/// XOR with one byte is its own inverse.
proof fn lemma_xor_byte_cancels(d: u8, k: u8)
    ensures
        (d ^ k) ^ k == d,
{
    assert((d ^ k) ^ k == d) by (bit_vector);
}

/// Applying the transform twice with one non-empty key gives the data back.
pub proof fn lemma_xor_twice_is_identity(key: Seq<u8>, data: Seq<u8>)
    requires
        key.len() > 0,
    ensures
        xor_bytes(key, xor_bytes(key, data)) == data,
{
    let once = xor_bytes(key, data);
    let twice = xor_bytes(key, once);
    assert forall|i: int| 0 <= i < data.len() implies twice[i] == data[i] by {
        let k = key[i % (key.len() as int)];
        assert(once[i] == data[i] ^ k);
        assert(twice[i] == once[i] ^ k);
        lemma_xor_byte_cancels(data[i], k);
    }
    assert(twice =~= data);
}

/// A text holds no character exactly when its UTF-8 form holds no byte.
pub proof fn lemma_no_chars_no_bytes(text: Seq<char>)
    ensures
        encode_utf8(text).len() == 0 <==> text.len() == 0,
{
    if text.len() > 0 {
        let first = encode_scalar(text[0] as u32);
        assert(encode_utf8(text) == first + encode_utf8(text.drop_first()));
        assert(first.len() > 0);
    }
}

/// Lays the repeated key over the data.
///
/// An empty key is refused. With any other key the result has the length of
/// the data, and a second pass with the same key restores the data.
pub fn xor(key: &[u8], data: &[u8]) -> (result: Result<Vec<u8>, CipherError>)
    ensures
        yields(result, xor_outcome(key@, data@)),
        result matches Ok(out) ==> out@.len() == data@.len() && xor_bytes(key@, out@) == data@,
{
    let key_len: usize = key.len();
    if key_len == 0 {
        return Err(CipherError::InvalidArguments(ArgumentFault::EmptyKey));
    }
    let data_len: usize = data.len();
    let mut out: Vec<u8> = Vec::with_capacity(data_len);
    let mut i: usize = 0;
    while i < data_len
        invariant
            key_len == key@.len(),
            key_len > 0,
            data_len == data@.len(),
            i <= data_len,
            out@.len() == i,
            forall|j: int| 0 <= j < i ==> out@[j] == data@[j] ^ key@[j % (key_len as int)],
        decreases data_len - i,
    {
        out.push(data[i] ^ key[i % key_len]);
        i += 1;
    }
    proof {
        assert(out@ =~= xor_bytes(key@, data@));
        lemma_xor_twice_is_identity(key@, data@);
    }
    Ok(out)
}

/// The XOR of a plaintext's UTF-8 bytes with the key's.
///
/// An empty key is refused. What comes back with any other key,
/// [`xor_decrypt`] with the same key maps back to the plaintext's bytes.
pub fn xor_encrypt(key: &str, plaintext: &str) -> (result: Result<Vec<u8>, CipherError>)
    ensures
        yields(result, xor_outcome(encode_utf8(key@), encode_utf8(plaintext@))),
        key@.len() == 0 ==> fails_with(result, empty_key()),
        key@.len() > 0 ==> (result matches Ok(mixed) && xor_bytes(encode_utf8(key@), mixed@)
            == encode_utf8(plaintext@)),
{
    proof {
        lemma_no_chars_no_bytes(key@);
    }
    xor(key.as_bytes(), plaintext.as_bytes())
}

/// The XOR of ciphertext bytes with the key's UTF-8 bytes.
///
/// An empty key is refused. The bytes that come back are raw: they are the
/// UTF-8 form of a text only if such bytes were encrypted.
pub fn xor_decrypt(key: &str, ciphertext: &[u8]) -> (result: Result<Vec<u8>, CipherError>)
    ensures
        yields(result, xor_outcome(encode_utf8(key@), ciphertext@)),
        key@.len() == 0 ==> fails_with(result, empty_key()),
        key@.len() > 0 ==> result is Ok,
{
    proof {
        lemma_no_chars_no_bytes(key@);
    }
    xor(key.as_bytes(), ciphertext)
}

} // verus!
