//! Encryption and decryption: the XOR transform paired with the base64
//! codec.
//!
//! To encrypt is to XOR the plaintext's bytes with the key and to encode
//! what comes out; to decrypt is to decode the text and to XOR what comes
//! out with the key.

use vstd::prelude::*;
use vstd::utf8::encode_utf8;
use crate::codec::{
    base64_decode, base64_encode, encoded_length, has_base64_shape, holds_foreign_character,
    standard_decoding, standard_encoding,
};
use crate::error::{empty_key, fails_with, yields, ArgumentFault, CipherError};
use crate::transform::{lemma_no_chars_no_bytes, lemma_xor_twice_is_identity, xor, xor_bytes};

verus! {

/// The ciphertext of a plaintext under a non-empty key.
pub open spec fn encryption(key: Seq<u8>, plaintext: Seq<u8>) -> Seq<char>
    recommends
        key.len() > 0,
{
    standard_encoding(xor_bytes(key, plaintext))
}

/// What [`decrypt`] returns for a key and a text.
pub open spec fn decryption(key: Seq<u8>, text: Seq<char>) -> Result<Seq<u8>, CipherError> {
    if key.len() == 0 {
        Err(empty_key())
    } else {
        match standard_decoding(text) {
            Some(bytes) => Ok(xor_bytes(key, bytes)),
            None => Err(CipherError::MalformedEncoding),
        }
    }
}

/// Decryption inverts encryption wherever decoding inverts encoding: if the
/// decoder maps the encoding of the XORed plaintext back to it, then the
/// [`decryption`] of the plaintext's [`encryption`] under the same non-empty
/// key is the plaintext.
pub proof fn lemma_decryption_inverts_encryption(key: Seq<u8>, plaintext: Seq<u8>)
    requires
        key.len() > 0,
        standard_decoding(encryption(key, plaintext)) == Some(xor_bytes(key, plaintext)),
    ensures
        decryption(key, encryption(key, plaintext)) == Ok::<Seq<u8>, CipherError>(plaintext),
{
    lemma_xor_twice_is_identity(key, plaintext);
}

/// Encrypts a text: its UTF-8 bytes are XORed with the key's and written as
/// padded standard base64.
///
/// An empty key is refused. With any other key the result is the
/// [`encryption`] of the plaintext, a text in the shape of padded base64.
///
/// Decryption inverts encryption: [`decrypt`] with the same key maps the
/// text that comes back to the plaintext's bytes.
pub fn encrypt(key: &str, plaintext: &str) -> (result: Result<String, CipherError>)
    requires
        encoded_length(encode_utf8(plaintext@).len()) <= usize::MAX,
    ensures
        key@.len() == 0 ==> fails_with(result, empty_key()),
        key@.len() > 0 ==> (result matches Ok(text) && {
            &&& text@ == encryption(encode_utf8(key@), encode_utf8(plaintext@))
            &&& decryption(encode_utf8(key@), text@) == Ok::<Seq<u8>, CipherError>(
                encode_utf8(plaintext@),
            )
            &&& text@.len() == encoded_length(encode_utf8(plaintext@).len())
            &&& has_base64_shape(text@)
        }),
{
    proof {
        lemma_no_chars_no_bytes(key@);
    }
    match xor(key.as_bytes(), plaintext.as_bytes()) {
        Ok(mixed) => {
            let text = base64_encode(mixed.as_slice());
            proof {
                lemma_decryption_inverts_encryption(encode_utf8(key@), encode_utf8(plaintext@));
            }
            Ok(text)
        },
        Err(error) => Err(error),
    }
}

/// Decrypts a text: it is read as padded standard base64, and the bytes it
/// stands for are XORed with the key's.
///
/// The bytes that come back are raw; they are the UTF-8 form of a text if
/// the text came from [`encrypt`] with the same key.
///
/// An empty key is refused before the text is looked at. Text that is not
/// valid base64 is reported as [`CipherError::MalformedEncoding`]; all text
/// that holds a character outside the alphabet, or has otherwise not the
/// shape of padded base64, is such text.
pub fn decrypt(key: &str, text: &str) -> (result: Result<Vec<u8>, CipherError>)
    ensures
        yields(result, decryption(encode_utf8(key@), text@)),
        key@.len() == 0 ==> fails_with(result, empty_key()),
        key@.len() > 0 && !has_base64_shape(text@) ==> fails_with(
            result,
            CipherError::MalformedEncoding,
        ),
        key@.len() > 0 && holds_foreign_character(text@) ==> fails_with(
            result,
            CipherError::MalformedEncoding,
        ),
{
    proof {
        lemma_no_chars_no_bytes(key@);
    }
    if key.as_bytes().len() == 0 {
        return Err(CipherError::InvalidArguments(ArgumentFault::EmptyKey));
    }
    match base64_decode(text) {
        Ok(mixed) => xor(key.as_bytes(), mixed.as_slice()),
        Err(error) => Err(error),
    }
}

} // verus!
