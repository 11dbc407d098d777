//! The errors that the library reports.

use vstd::prelude::*;

verus! {

/// What is wrong with a set of arguments.
#[derive(Clone, Copy, Debug, PartialEq, Eq, Structural)]
pub enum ArgumentFault {
    /// A file path came with an operation that works on literal text.
    UnexpectedFile,
    /// An operation that works on literal text came without text.
    MissingText,
    /// Literal text came with an operation that works on a file.
    UnexpectedText,
    /// An operation that works on a file came without a file path.
    MissingFile,
    /// The key holds no bytes.
    EmptyKey,
}

/// Why an operation did not produce a result.
#[derive(Clone, Copy, Debug, PartialEq, Eq, Structural)]
pub enum CipherError {
    /// The arguments do not fit together, or the key is empty.
    InvalidArguments(ArgumentFault),
    /// The text to decrypt is not padded standard base64.
    MalformedEncoding,
}

/// The error that an empty key is refused with.
pub open spec fn empty_key() -> CipherError {
    CipherError::InvalidArguments(ArgumentFault::EmptyKey)
}

/// Whether a function failed, and with the given error.
pub open spec fn fails_with<T>(result: Result<T, CipherError>, error: CipherError) -> bool {
    result == Err::<T, CipherError>(error)
}

/// Whether the bytes or the error that a function returned are the ones
/// that its outcome names.
pub open spec fn yields(
    result: Result<Vec<u8>, CipherError>,
    outcome: Result<Seq<u8>, CipherError>,
) -> bool {
    match outcome {
        Ok(bytes) => result matches Ok(out) && out@ == bytes,
        Err(error) => fails_with(result, error),
    }
}

impl ArgumentFault {
    /// The sentence that [`ArgumentFault::message`] returns.
    pub open spec fn description(self) -> Seq<char> {
        match self {
            ArgumentFault::UnexpectedFile =>
                "The `file` argument cannot be used with `encrypt` or `decrypt` operations."@,
            ArgumentFault::MissingText =>
                "The `text` argument is required for `encrypt` or `decrypt` operations."@,
            ArgumentFault::UnexpectedText =>
                "The `text` argument cannot be used with `encrypt-file` or `decrypt-file` operations."@,
            ArgumentFault::MissingFile =>
                "The `file` argument is required for `encrypt-file` or `decrypt-file` operations."@,
            ArgumentFault::EmptyKey => "The `key` argument must not be empty."@,
        }
    }

    /// A sentence for the user that names the fault.
    pub fn message(&self) -> (text: String)
        ensures
            text@ == self.description(),
    {
        match self {
            ArgumentFault::UnexpectedFile =>
                "The `file` argument cannot be used with `encrypt` or `decrypt` operations."
                    .to_owned(),
            ArgumentFault::MissingText =>
                "The `text` argument is required for `encrypt` or `decrypt` operations."
                    .to_owned(),
            ArgumentFault::UnexpectedText =>
                "The `text` argument cannot be used with `encrypt-file` or `decrypt-file` operations."
                    .to_owned(),
            ArgumentFault::MissingFile =>
                "The `file` argument is required for `encrypt-file` or `decrypt-file` operations."
                    .to_owned(),
            ArgumentFault::EmptyKey => "The `key` argument must not be empty.".to_owned(),
        }
    }
}

impl CipherError {
    /// The sentence that [`CipherError::message`] returns.
    pub open spec fn description(self) -> Seq<char> {
        match self {
            CipherError::InvalidArguments(fault) => fault.description(),
            CipherError::MalformedEncoding => "The input is not valid padded base64."@,
        }
    }

    /// A sentence for the user that names the error.
    pub fn message(&self) -> (text: String)
        ensures
            text@ == self.description(),
    {
        match self {
            CipherError::InvalidArguments(fault) => fault.message(),
            CipherError::MalformedEncoding => "The input is not valid padded base64.".to_owned(),
        }
    }
}

} // verus!
