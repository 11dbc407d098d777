//! One run: an operation applied to a key and to the input that the caller
//! has taken from the arguments or read from a file.
//!
//! What a run returns is printed as a line. A file that holds a ciphertext
//! ends in the newline of such a line, and a file that holds a plaintext
//! ends in a newline of its own: decrypting a file's contents neither reads
//! the one nor returns the other.

use vstd::prelude::*;
use vstd::utf8::encode_utf8;
use crate::args::Operation;
use crate::cipher::{decrypt, decryption, encrypt, encryption};
use crate::codec::encoded_length;
use crate::error::{empty_key, fails_with, yields, CipherError};
use crate::transform::lemma_no_chars_no_bytes;

verus! {

/// The items without the last one, if that is `end`.
pub open spec fn without_final<T>(items: Seq<T>, end: T) -> Seq<T> {
    if items.len() > 0 && items.last() == end {
        items.drop_last()
    } else {
        items
    }
}

/// Takes the final newline off a text, if it ends in one.
pub fn strip_line_end(text: &str) -> (stripped: &str)
    ensures
        stripped@ == without_final(text@, '\n'),
{
    let len: usize = text.unicode_len();
    if len > 0 && text.get_char(len - 1) == '\n' {
        text.substring_char(0, len - 1)
    } else {
        text
    }
}

/// Takes the final newline byte off the bytes, if they end in one.
pub fn strip_line_end_bytes(bytes: Vec<u8>) -> (stripped: Vec<u8>)
    ensures
        stripped@ == without_final(bytes@, 0x0Au8),
{
    let mut bytes = bytes;
    let len: usize = bytes.len();
    if len > 0 && bytes[len - 1] == 0x0A {
        bytes.pop();
    }
    bytes
}

/// The bytes that a run returns, or the error that ends it.
///
/// The encrypting operations give the ciphertext, a text of ASCII
/// characters, as bytes. The decrypting operations give the recovered bytes;
/// [`Operation::DecryptFile`] takes one final newline off its input, and one
/// off what it recovered.
pub open spec fn run_outcome(operation: Operation, key: Seq<u8>, input: Seq<char>) -> Result<
    Seq<u8>,
    CipherError,
> {
    if key.len() == 0 {
        Err(empty_key())
    } else {
        match operation {
            Operation::Encrypt | Operation::EncryptFile => Ok(
                encode_utf8(encryption(key, encode_utf8(input))),
            ),
            Operation::Decrypt => decryption(key, input),
            Operation::DecryptFile => match decryption(key, without_final(input, '\n')) {
                Ok(bytes) => Ok(without_final(bytes, 0x0Au8)),
                Err(error) => Err(error),
            },
        }
    }
}

/// Applies the operation to the input: the literal text, or the contents of
/// the file, whichever the operation works on.
///
/// An empty key ends the run with [`CipherError::InvalidArguments`],
/// whatever the operation and the input.
pub fn perform(operation: Operation, key: &str, input: &str) -> (result: Result<
    Vec<u8>,
    CipherError,
>)
    requires
        operation.encrypts() ==> encoded_length(encode_utf8(input@).len()) <= usize::MAX,
    ensures
        yields(result, run_outcome(operation, encode_utf8(key@), input@)),
        key@.len() == 0 ==> fails_with(result, empty_key()),
{
    proof {
        lemma_no_chars_no_bytes(key@);
    }
    match operation {
        Operation::Encrypt | Operation::EncryptFile => {
            match encrypt(key, input) {
                Ok(text) => Ok(text.as_str().as_bytes_vec()),
                Err(error) => Err(error),
            }
        },
        Operation::Decrypt => decrypt(key, input),
        Operation::DecryptFile => {
            match decrypt(key, strip_line_end(input)) {
                Ok(bytes) => Ok(strip_line_end_bytes(bytes)),
                Err(error) => Err(error),
            }
        },
    }
}

} // verus!
