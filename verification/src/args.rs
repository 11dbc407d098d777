//! The arguments of one run, and the rule that says which of them fit
//! together.

use vstd::prelude::*;
use crate::error::{fails_with, ArgumentFault, CipherError};

verus! {

/// What a run does.
#[derive(Clone, Copy, Debug, PartialEq, Eq, Structural)]
pub enum Operation {
    /// Encrypt literal text.
    Encrypt,
    /// Decrypt literal text.
    Decrypt,
    /// Encrypt the contents of a file.
    EncryptFile,
    /// Decrypt the contents of a file.
    DecryptFile,
}

impl Operation {
    /// Whether the operation takes its input from a file, not from literal
    /// text.
    #[verifier::allow_in_spec]
    pub fn works_on_file(self) -> bool
        returns
            self == Operation::EncryptFile || self == Operation::DecryptFile,
    {
        match self {
            Operation::Encrypt => false,
            Operation::Decrypt => false,
            Operation::EncryptFile => true,
            Operation::DecryptFile => true,
        }
    }

    /// Whether the operation encrypts its input; the others decrypt it.
    #[verifier::allow_in_spec]
    pub fn encrypts(self) -> bool
        returns
            self == Operation::Encrypt || self == Operation::EncryptFile,
    {
        match self {
            Operation::Encrypt => true,
            Operation::Decrypt => false,
            Operation::EncryptFile => true,
            Operation::DecryptFile => false,
        }
    }
}

/// The arguments of one run: the operation, the key, and either literal text
/// or the path of a file.
#[derive(Debug)]
pub struct Args {
    /// What to do.
    pub operation: Operation,
    /// The literal text to work on.
    pub text: Option<String>,
    /// The path of the file to work on.
    pub file: Option<String>,
    /// The key.
    pub key: String,
}

impl Args {
    /// The first thing that is wrong with the arguments, if anything is.
    ///
    /// An operation on literal text takes text and no file; an operation on
    /// a file takes a file and no text. An argument that should not be there
    /// is named before one that is missing, and both before an empty key.
    pub open spec fn fault(&self) -> Option<ArgumentFault> {
        if self.operation.works_on_file() {
            if self.text is Some {
                Some(ArgumentFault::UnexpectedText)
            } else if self.file is None {
                Some(ArgumentFault::MissingFile)
            } else if self.key@.len() == 0 {
                Some(ArgumentFault::EmptyKey)
            } else {
                None
            }
        } else {
            if self.file is Some {
                Some(ArgumentFault::UnexpectedFile)
            } else if self.text is None {
                Some(ArgumentFault::MissingText)
            } else if self.key@.len() == 0 {
                Some(ArgumentFault::EmptyKey)
            } else {
                None
            }
        }
    }

    /// Whether the arguments fit together: exactly one of text and file is
    /// there, the one that the operation works on, and the key is not empty.
    pub open spec fn consistent(&self) -> bool {
        &&& self.key@.len() > 0
        &&& self.operation.works_on_file() ==> self.file is Some && self.text is None
        &&& !self.operation.works_on_file() ==> self.text is Some && self.file is None
    }

    /// Checks the arguments before anything is read or computed.
    ///
    /// Returns `Ok` exactly when the arguments are [`Args::consistent`],
    /// else the [`Args::fault`] as [`CipherError::InvalidArguments`].
    pub fn validate(&self) -> (result: Result<(), CipherError>)
        ensures
            result is Ok <==> self.consistent(),
            match self.fault() {
                Some(fault) => fails_with(result, CipherError::InvalidArguments(fault)),
                None => result is Ok,
            },
    {
        if self.operation.works_on_file() {
            if self.text.is_some() {
                return Err(CipherError::InvalidArguments(ArgumentFault::UnexpectedText));
            }
            if self.file.is_none() {
                return Err(CipherError::InvalidArguments(ArgumentFault::MissingFile));
            }
        } else {
            if self.file.is_some() {
                return Err(CipherError::InvalidArguments(ArgumentFault::UnexpectedFile));
            }
            if self.text.is_none() {
                return Err(CipherError::InvalidArguments(ArgumentFault::MissingText));
            }
        }
        if self.key.as_str().is_empty() {
            return Err(CipherError::InvalidArguments(ArgumentFault::EmptyKey));
        }
        Ok(())
    }
}

} // verus!
