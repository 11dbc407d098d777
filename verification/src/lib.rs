//! Repeating-key XOR obfuscation of text, rendered as standard base64.
//!
//! The crate is a library of pure functions: the XOR transform
//! ([`transform`]), the base64 codec ([`codec`]), the pairing of the two
//! ([`cipher`]), the validation of a command line's arguments ([`args`])
//! and the run of one operation on its input ([`run`]). Reading files and
//! printing are left to the caller.

pub mod args;
pub mod cipher;
pub mod codec;
pub mod error;
pub mod run;
pub mod transform;
