//! Standard base64 with padding, as the `base64` crate's `STANDARD` engine
//! writes and reads it.
//!
//! The encoder and the decoder are the crate's. What they compute is named
//! here by [`standard_encoding`] and [`standard_decoding`]; the functions of
//! this module say over those names what they return.

use vstd::prelude::*;
use base64::Engine;
use crate::error::{fails_with, yields, CipherError};

verus! {

/// The text that the `STANDARD` engine's `encode` returns for the bytes.
pub uninterp spec fn standard_encoding(bytes: Seq<u8>) -> Seq<char>;

/// The bytes that the `STANDARD` engine's `decode` returns for the text, or
/// `None` where it returns an error.
pub uninterp spec fn standard_decoding(text: Seq<char>) -> Option<Seq<u8>>;

/// The error of the `base64` crate's decoder.
#[verifier::external_type_specification]
#[verifier::external_body]
pub struct ExDecodeError(base64::DecodeError);

/// One of the 64 characters that stand for six bits: `A` to `Z`, `a` to `z`,
/// `0` to `9`, `+` and `/`.
pub open spec fn is_base64_symbol(c: char) -> bool {
    ||| 'A' <= c <= 'Z'
    ||| 'a' <= c <= 'z'
    ||| '0' <= c <= '9'
    ||| c == '+'
    ||| c == '/'
}

/// The shape of padded base64: groups of four characters, each a symbol of
/// the alphabet, but that the last two of the text may be `=`, the last one
/// alone or both.
pub open spec fn has_base64_shape(text: Seq<char>) -> bool {
    &&& text.len() % 4 == 0
    &&& forall|i: int|
        0 <= i < text.len() ==> {
            ||| is_base64_symbol(#[trigger] text[i])
            ||| text[i] == '=' && i >= text.len() - 2
        }
    &&& text.len() >= 2 && text[text.len() - 2] == '=' ==> text[text.len() - 1] == '='
}

/// Whether the text holds a character that padded base64 never holds: one
/// that is neither a symbol of the alphabet nor `=`.
pub open spec fn holds_foreign_character(text: Seq<char>) -> bool {
    exists|i: int| 0 <= i < text.len() && !is_base64_symbol(#[trigger] text[i]) && text[i] != '='
}

/// The number of characters that encode `len` bytes: four for every three
/// bytes, the last group filled up.
pub open spec fn encoded_length(len: nat) -> nat {
    4 * ((len + 2) / 3)
}

/// What [`base64_decode`] returns for a text.
pub open spec fn decode_outcome(text: Seq<char>) -> Result<Seq<u8>, CipherError> {
    match standard_decoding(text) {
        Some(bytes) => Ok(bytes),
        None => Err(CipherError::MalformedEncoding),
    }
}

/// Text that holds a foreign character has not the shape of padded base64.
pub proof fn lemma_foreign_character_breaks_shape(text: Seq<char>)
    requires
        holds_foreign_character(text),
    ensures
        !has_base64_shape(text),
{
    let i = choose|i: int|
        0 <= i < text.len() && !is_base64_symbol(#[trigger] text[i]) && text[i] != '=';
    assert(!is_base64_symbol(text[i]) && text[i] != '=');
}

/// Calls `Engine::encode` on `base64::engine::general_purpose::STANDARD`.
///
/// Trusted: the result is named by [`standard_encoding`]; the crate's
/// decoder maps it back to the bytes; and it has [`encoded_length`]
/// characters in the shape of padded base64. The call panics where the
/// encoded length does not fit in `usize`, so such input is left out.
#[verifier::external_body]
fn encode_standard(bytes: &[u8]) -> (text: String)
    requires
        encoded_length(bytes@.len()) <= usize::MAX,
    ensures
        text@ == standard_encoding(bytes@),
        standard_decoding(text@) == Some(bytes@),
        text@.len() == encoded_length(bytes@.len()),
        has_base64_shape(text@),
{
    base64::engine::general_purpose::STANDARD.encode(bytes)
}

/// Calls `Engine::decode` on `base64::engine::general_purpose::STANDARD`.
///
/// Trusted: the result is named by [`standard_decoding`], and text that has
/// not the shape of padded base64 is an error.
#[verifier::external_body]
fn decode_standard(text: &str) -> (decoded: Result<Vec<u8>, base64::DecodeError>)
    ensures
        match standard_decoding(text@) {
            Some(bytes) => decoded matches Ok(out) && out@ == bytes,
            None => decoded is Err,
        },
        !has_base64_shape(text@) ==> decoded is Err,
{
    base64::engine::general_purpose::STANDARD.decode(text)
}

/// Whether bytes of the given length can be encoded: whether the length of
/// their encoding fits in `usize`.
pub fn can_encode(len: usize) -> (fits: bool)
    ensures
        fits == (encoded_length(len as nat) <= usize::MAX),
{
    let rest: usize = if len % 3 > 0 { 1 } else { 0 };
    let groups: usize = len / 3 + rest;
    groups <= usize::MAX / 4
}

/// The bytes as padded standard base64: four characters of the alphabet for
/// every three bytes, the last group filled up with `=`.
///
/// Decoding inverts encoding: [`base64_decode`] maps the text that comes
/// back to the bytes.
pub fn base64_encode(bytes: &[u8]) -> (text: String)
    requires
        encoded_length(bytes@.len()) <= usize::MAX,
    ensures
        text@ == standard_encoding(bytes@),
        decode_outcome(text@) == Ok::<Seq<u8>, CipherError>(bytes@),
        text@.len() == encoded_length(bytes@.len()),
        has_base64_shape(text@),
{
    encode_standard(bytes)
}

/// The bytes that a padded standard base64 text stands for.
///
/// Text that the decoder does not accept is reported as
/// [`CipherError::MalformedEncoding`]; all text that holds a character
/// outside the alphabet, misplaced padding, or a number of characters that
/// four does not divide is such text.
pub fn base64_decode(text: &str) -> (result: Result<Vec<u8>, CipherError>)
    ensures
        yields(result, decode_outcome(text@)),
        !has_base64_shape(text@) ==> fails_with(result, CipherError::MalformedEncoding),
        holds_foreign_character(text@) ==> fails_with(result, CipherError::MalformedEncoding),
{
    proof {
        if holds_foreign_character(text@) {
            lemma_foreign_character_breaks_shape(text@);
        }
    }
    match decode_standard(text) {
        Ok(bytes) => Ok(bytes),
        Err(_) => Err(CipherError::MalformedEncoding),
    }
}

} // verus!
