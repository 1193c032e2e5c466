//! The errors that the library reports.

use vstd::prelude::*;

verus! {

/// A token that does not have the shape of a compact serialization.
#[derive(Debug, Clone, Copy, PartialEq, Eq, Structural)]
pub enum TokenError {
    /// The token is not made of the segments that its kind asks for.
    InvalidToken,
    /// The token has `actual` segments where `expected` are needed.
    PartsLengthError { expected: usize, actual: usize },
}

/// A token that is well formed but must not be accepted.
#[derive(Debug, Clone, Copy, PartialEq, Eq, Structural)]
pub enum ValidationError {
    /// The header names another algorithm than the one the caller expects.
    WrongAlgorithmHeader,
    /// A claim that the caller requires is absent.
    MissingRequiredClaims,
    /// The token is past its expiry.
    Expired,
    /// The token is not valid yet.
    NotYetValid,
    /// The token was issued too long ago.
    TooOld,
}

/// The kinds of key material.
#[derive(Debug, Clone, Copy, PartialEq, Eq, Structural)]
pub enum KeyType {
    /// A symmetric key: a string of octets.
    Octet,
    /// An elliptic-curve key pair.
    EllipticCurve,
}

/// The kinds of encryption options.
#[derive(Debug, Clone, Copy, PartialEq, Eq, Structural)]
pub enum OptionsKind {
    /// No options.
    NoOptions,
    /// A nonce for AES GCM.
    AesGcm,
}

/// Every failure of the library.
#[allow(inconsistent_fields)]
#[derive(Debug, Clone, Copy, PartialEq, Eq, Structural)]
pub enum Error {
    /// The operation does not apply to the value or algorithm at hand.
    UnsupportedOperation,
    /// The token is malformed.
    DecodeError(TokenError),
    /// The token is rejected.
    ValidationError(ValidationError),
    /// A segment is not the JSON text of the requested value.
    JsonError,
    /// A segment is not canonical unpadded base64url.
    DecodeBase64,
    /// The key is of another kind than the algorithm takes.
    WrongKeyType { expected: KeyType, actual: KeyType },
    /// The encryption options are of another kind than the algorithm takes.
    WrongEncryptionOptions { expected: OptionsKind, actual: OptionsKind },
    /// The cipher refused its input or the authentication tag did not verify.
    UnspecifiedCryptographicError,
}

impl Error {
    /// What the error says, in words.
    pub open spec fn spec_message(self) -> Seq<char> {
        match self {
            Error::UnsupportedOperation => "this operation is not supported"@,
            Error::DecodeError(TokenError::InvalidToken) => "the token is invalid or malformed"@,
            Error::DecodeError(TokenError::PartsLengthError { .. }) =>
                "the token does not have the expected number of parts"@,
            Error::ValidationError(ValidationError::WrongAlgorithmHeader) =>
                "the token carries another algorithm than the one expected"@,
            Error::ValidationError(ValidationError::MissingRequiredClaims) =>
                "the token lacks a required claim"@,
            Error::ValidationError(ValidationError::Expired) => "the token has expired"@,
            Error::ValidationError(ValidationError::NotYetValid) => "the token is not valid yet"@,
            Error::ValidationError(ValidationError::TooOld) => "the token is too old"@,
            Error::JsonError => "the JSON text is not that of the expected value"@,
            Error::DecodeBase64 => "the text is not canonical unpadded base64url"@,
            Error::WrongKeyType { .. } => "the key is of the wrong kind for the algorithm"@,
            Error::WrongEncryptionOptions { .. } =>
                "the encryption options are of the wrong kind for the algorithm"@,
            Error::UnspecifiedCryptographicError => "a cryptographic operation failed"@,
        }
    }

    /// What the error says, in words.
    pub fn message(&self) -> (text: &'static str)
        ensures
            text@ == self.spec_message(),
    {
        match self {
            Error::UnsupportedOperation => "this operation is not supported",
            Error::DecodeError(TokenError::InvalidToken) => "the token is invalid or malformed",
            Error::DecodeError(TokenError::PartsLengthError { .. }) =>
                "the token does not have the expected number of parts",
            Error::ValidationError(ValidationError::WrongAlgorithmHeader) =>
                "the token carries another algorithm than the one expected",
            Error::ValidationError(ValidationError::MissingRequiredClaims) =>
                "the token lacks a required claim",
            Error::ValidationError(ValidationError::Expired) => "the token has expired",
            Error::ValidationError(ValidationError::NotYetValid) => "the token is not valid yet",
            Error::ValidationError(ValidationError::TooOld) => "the token is too old",
            Error::JsonError => "the JSON text is not that of the expected value",
            Error::DecodeBase64 => "the text is not canonical unpadded base64url",
            Error::WrongKeyType { .. } => "the key is of the wrong kind for the algorithm",
            Error::WrongEncryptionOptions { .. } =>
                "the encryption options are of the wrong kind for the algorithm",
            Error::UnspecifiedCryptographicError => "a cryptographic operation failed",
        }
    }
}

} // verus!
