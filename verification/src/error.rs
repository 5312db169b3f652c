//! The error type shared by every fallible operation of the crate.

use vstd::prelude::*;

verus! {

/// std's `FromUtf8Error`, carried as it is.
#[verifier::external_type_specification]
#[verifier::external_body]
pub struct ExFromUtf8Error(std::string::FromUtf8Error);

/// age's `EncryptError`, carried as it is.
#[verifier::external_type_specification]
#[verifier::external_body]
pub struct ExEncryptError(age::EncryptError);

/// age's `DecryptError`, carried as it is.
#[verifier::external_type_specification]
#[verifier::external_body]
pub struct ExDecryptError(age::DecryptError);

/// base64's `DecodeError`, carried as it is.
#[verifier::external_type_specification]
#[verifier::external_body]
pub struct ExDecodeError(base64::DecodeError);

/// What went wrong, independent of the value that describes it.
#[derive(Clone, Copy, Debug, PartialEq, Eq, Structural)]
pub enum ErrorKind {
    /// A question put to the user was not answered.
    InputError,
    /// The encryption primitive refused to encrypt.
    EncryptionError,
    /// The passphrase is wrong, or the ciphertext is not what was stored.
    WrongPassphraseOrCorrupt,
    /// Stored text is not base64, or decrypted bytes are not UTF-8.
    TextEncodingError,
    /// A required file is missing.
    NotFound,
}

/// Why an operation of the crate failed. The values of the outside crates
/// are kept, for the front end to report.
#[derive(Debug)]
pub enum DeepslateError {
    /// A passphrase was needed and none was supplied.
    InputError(String),
    /// The encryption primitive refused to encrypt.
    EncryptionError(age::EncryptError),
    /// The ciphertext could not be opened with the passphrase given.
    DecryptionError(age::DecryptError),
    /// The ciphertext was encrypted to recipients: no passphrase opens it.
    NotPassphraseEncrypted,
    /// The decrypted bytes are not UTF-8.
    Utf8Error(std::string::FromUtf8Error),
    /// The stored text is not base64.
    Base64DecodeError(base64::DecodeError),
    /// A required file is missing; the message names it.
    Error(String),
}

impl DeepslateError {
    pub open spec fn spec_kind(&self) -> ErrorKind {
        match self {
            DeepslateError::InputError(_) => ErrorKind::InputError,
            DeepslateError::EncryptionError(_) => ErrorKind::EncryptionError,
            DeepslateError::DecryptionError(_) => ErrorKind::WrongPassphraseOrCorrupt,
            DeepslateError::NotPassphraseEncrypted => ErrorKind::WrongPassphraseOrCorrupt,
            DeepslateError::Utf8Error(_) => ErrorKind::TextEncodingError,
            DeepslateError::Base64DecodeError(_) => ErrorKind::TextEncodingError,
            DeepslateError::Error(_) => ErrorKind::NotFound,
        }
    }

    /// The kind of this error.
    #[verifier::when_used_as_spec(spec_kind)]
    pub fn kind(&self) -> (k: ErrorKind)
        ensures
            k == self.spec_kind(),
    {
        match self {
            DeepslateError::InputError(_) => ErrorKind::InputError,
            DeepslateError::EncryptionError(_) => ErrorKind::EncryptionError,
            DeepslateError::DecryptionError(_) => ErrorKind::WrongPassphraseOrCorrupt,
            DeepslateError::NotPassphraseEncrypted => ErrorKind::WrongPassphraseOrCorrupt,
            DeepslateError::Utf8Error(_) => ErrorKind::TextEncodingError,
            DeepslateError::Base64DecodeError(_) => ErrorKind::TextEncodingError,
            DeepslateError::Error(_) => ErrorKind::NotFound,
        }
    }
}

} // verus!
