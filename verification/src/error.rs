//! The errors that the engine hands to its caller.

use vstd::prelude::*;

verus! {

/// Why an invocation of the engine ended without an output.
///
/// The first four are configuration errors, found before any cipher runs.
/// The last two come from the cipher itself.
#[derive(Clone, Copy, Debug, PartialEq, Eq, Structural)]
pub enum EngineError {
    /// The algorithm selector names no cipher of this crate.
    UnsupportedAlgorithm,
    /// Decryption was asked for without a key to load.
    KeyRequired,
    /// A key or nonce handed to a cipher has the wrong length for it.
    InvalidKeyOrNonceLength,
    /// Bytes loaded as a key are not as many as the cipher's key.
    KeyLengthMismatch,
    /// The tag does not verify: wrong key, wrong nonce or altered bytes.
    AuthenticationFailure,
    /// The cipher could not seal the plaintext.
    EncryptionFailure,
}

impl EngineError {
    /// True of the errors that are found before any cipher runs.
    pub open spec fn spec_is_configuration(self) -> bool {
        self == EngineError::UnsupportedAlgorithm || self == EngineError::KeyRequired || self
            == EngineError::InvalidKeyOrNonceLength || self == EngineError::KeyLengthMismatch
    }

    /// Tells the configuration errors from the cryptographic ones.
    pub fn is_configuration(&self) -> (b: bool)
        ensures
            b == self.spec_is_configuration(),
    {
        match self {
            EngineError::UnsupportedAlgorithm => true,
            EngineError::KeyRequired => true,
            EngineError::InvalidKeyOrNonceLength => true,
            EngineError::KeyLengthMismatch => true,
            EngineError::AuthenticationFailure => false,
            EngineError::EncryptionFailure => false,
        }
    }
}

} // verus!
