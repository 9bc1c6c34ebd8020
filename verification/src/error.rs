//! The closed error taxonomy of the library.

use vstd::prelude::*;

verus! {

/// Every failure the library can report, as a closed tagged union with a
/// human-readable payload per variant.
///
/// Cryptographic failures surface to the immediate caller unchanged: none is
/// retried and none is downgraded to a default value. Callers must treat any
/// decryption failure as "identity unrecoverable" and must not infer from the
/// variant whether a wrong key or corruption caused it.
#[derive(Debug)]
pub enum AeroBaseError {
    /// A symmetric key was supplied with a length other than 32 bytes.
    InvalidKeyLength(String),
    /// A PEM-encoded private key could not be parsed.
    PemParseFailure(String),
    /// The RSA key-pair generator failed; the environment is unusable.
    KeyGenerationFailure(String),
    /// A text field that should hold base64 data could not be decoded.
    DecodeFailure(String),
    /// An encrypted blob carries an algorithm tag the cipher does not emit.
    UnsupportedAlgorithm(String),
    /// The GCM integrity check failed: the data was tampered with or the
    /// key is wrong.
    AuthenticationFailure(String),
    /// The RSA unwrap of a wrapped key failed: wrong key pair or corrupted
    /// ciphertext.
    UnwrapFailure(String),
    /// Decrypted bytes were not valid UTF-8 where text was expected.
    Utf8Failure(String),
    /// No record exists under the given identifier.
    NotFound(String),
    /// An input violates a stated validity rule.
    InvalidInput(String),
    /// The storage collaborator reported a failure.
    Storage(String),
}

impl AeroBaseError {
    /// The human-readable payload carried by the variant.
    pub fn message(&self) -> (r: String)
        ensures
            r@ == self.spec_message(),
    {
        match self {
            AeroBaseError::InvalidKeyLength(m) => m.clone(),
            AeroBaseError::PemParseFailure(m) => m.clone(),
            AeroBaseError::KeyGenerationFailure(m) => m.clone(),
            AeroBaseError::DecodeFailure(m) => m.clone(),
            AeroBaseError::UnsupportedAlgorithm(m) => m.clone(),
            AeroBaseError::AuthenticationFailure(m) => m.clone(),
            AeroBaseError::UnwrapFailure(m) => m.clone(),
            AeroBaseError::Utf8Failure(m) => m.clone(),
            AeroBaseError::NotFound(m) => m.clone(),
            AeroBaseError::InvalidInput(m) => m.clone(),
            AeroBaseError::Storage(m) => m.clone(),
        }
    }

    /// The payload of the variant, as a sequence of characters.
    pub open spec fn spec_message(&self) -> Seq<char> {
        match self {
            AeroBaseError::InvalidKeyLength(m) => m@,
            AeroBaseError::PemParseFailure(m) => m@,
            AeroBaseError::KeyGenerationFailure(m) => m@,
            AeroBaseError::DecodeFailure(m) => m@,
            AeroBaseError::UnsupportedAlgorithm(m) => m@,
            AeroBaseError::AuthenticationFailure(m) => m@,
            AeroBaseError::UnwrapFailure(m) => m@,
            AeroBaseError::Utf8Failure(m) => m@,
            AeroBaseError::NotFound(m) => m@,
            AeroBaseError::InvalidInput(m) => m@,
            AeroBaseError::Storage(m) => m@,
        }
    }
}

} // verus!
