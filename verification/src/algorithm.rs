//! The closed set of ciphers, and what each one asks of its key and nonce.

use vstd::prelude::*;
use vstd::string::StrSliceExecFns;
use crate::error::EngineError;

verus! {

/// Length in bytes of a key; both ciphers take 256 bits.
pub const KEY_SIZE: usize = 32;

/// Length in bytes of an AES-256-GCM nonce.
pub const AES_NONCE_SIZE: usize = 12;

/// Length in bytes of an XChaCha20-Poly1305 nonce.
pub const CHACHA_NONCE_SIZE: usize = 24;

/// Length in bytes of the authentication tag that either cipher appends.
pub const TAG_SIZE: usize = 16;

/// Longest plaintext, in bytes, that AES-256-GCM seals under one nonce.
pub const AES_MAX_PLAINTEXT: u64 = 0x10_0000_0000;

/// Longest plaintext, in bytes, that XChaCha20-Poly1305 seals under one
/// nonce: 64-byte blocks counted by a 32-bit counter whose first value is
/// spent on the tag's key.
pub const CHACHA_MAX_PLAINTEXT: u64 = 0x3F_FFFF_FF80;

/// Identifier of AES-256-GCM in the first byte of an envelope.
pub const AES_ID: u8 = 1;

/// Identifier of XChaCha20-Poly1305 in the first byte of an envelope.
pub const CHACHA_ID: u8 = 2;

/// The cipher chosen for one invocation.
#[derive(Clone, Copy, Debug, PartialEq, Eq, Structural, PartialOrd, Ord)]
pub enum Algorithm {
    /// AES-256-GCM.
    Aes,
    /// XChaCha20-Poly1305.
    Chacha,
}

/// Whether an invocation seals a plaintext or opens an envelope.
#[derive(Clone, Copy, Debug, PartialEq, Eq, Structural)]
pub enum Direction {
    Encrypt,
    Decrypt,
}

/// The characters of the name by which AES-256-GCM is selected.
pub open spec fn aes_name() -> Seq<char> {
    seq!['a', 'e', 's']
}

/// The characters of the name by which XChaCha20-Poly1305 is selected.
pub open spec fn chacha_name() -> Seq<char> {
    seq!['c', 'h', 'a', 'c', 'h', 'a']
}

impl Algorithm {
    /// Key length in bytes, as a mathematical integer.
    pub open spec fn spec_key_len(self) -> int {
        32
    }

    /// Nonce length in bytes, as a mathematical integer.
    pub open spec fn spec_nonce_len(self) -> int {
        match self {
            Algorithm::Aes => 12,
            Algorithm::Chacha => 24,
        }
    }

    /// Longest plaintext in bytes, as a mathematical integer.
    pub open spec fn spec_max_plaintext_len(self) -> int {
        match self {
            Algorithm::Aes => 0x10_0000_0000,
            Algorithm::Chacha => 0x3F_FFFF_FF80,
        }
    }

    /// The byte that stands for this cipher in an envelope.
    pub open spec fn spec_id(self) -> u8 {
        match self {
            Algorithm::Aes => 1,
            Algorithm::Chacha => 2,
        }
    }

    /// The cipher that `name` selects, if it selects one.
    pub open spec fn spec_from_name(name: Seq<char>) -> Option<Algorithm> {
        if name == aes_name() {
            Some(Algorithm::Aes)
        } else if name == chacha_name() {
            Some(Algorithm::Chacha)
        } else {
            None
        }
    }

    /// The cipher that the identifier byte `id` stands for, if any.
    pub open spec fn spec_from_id(id: u8) -> Option<Algorithm> {
        if id == 1 {
            Some(Algorithm::Aes)
        } else if id == 2 {
            Some(Algorithm::Chacha)
        } else {
            None
        }
    }

    /// Key length in bytes.
    pub fn key_len(self) -> (n: usize)
        ensures
            n == self.spec_key_len(),
    {
        KEY_SIZE
    }

    /// Nonce length in bytes.
    pub fn nonce_len(self) -> (n: usize)
        ensures
            n == self.spec_nonce_len(),
    {
        match self {
            Algorithm::Aes => AES_NONCE_SIZE,
            Algorithm::Chacha => CHACHA_NONCE_SIZE,
        }
    }

    /// Longest plaintext in bytes that one call may seal.
    pub fn max_plaintext_len(self) -> (n: u64)
        ensures
            n == self.spec_max_plaintext_len(),
    {
        match self {
            Algorithm::Aes => AES_MAX_PLAINTEXT,
            Algorithm::Chacha => CHACHA_MAX_PLAINTEXT,
        }
    }

    /// The byte that stands for this cipher in an envelope.
    pub fn id(self) -> (b: u8)
        ensures
            b == self.spec_id(),
            Algorithm::spec_from_id(b) == Some(self),
    {
        match self {
            Algorithm::Aes => AES_ID,
            Algorithm::Chacha => CHACHA_ID,
        }
    }

    /// Selects a cipher by its name, `aes` or `chacha`.
    ///
    /// Any other name fails with `UnsupportedAlgorithm`.
    pub fn from_name(name: &str) -> (r: Result<Algorithm, EngineError>)
        ensures
            Algorithm::spec_from_name(name@) matches Some(algorithm) ==> r == Ok::<
                Algorithm,
                EngineError,
            >(algorithm),
            Algorithm::spec_from_name(name@) is None ==> r == Err::<Algorithm, EngineError>(
                EngineError::UnsupportedAlgorithm,
            ),
    {
        let n = name.unicode_len();
        if n == 3 && name.get_char(0) == 'a' && name.get_char(1) == 'e' && name.get_char(2)
            == 's' {
            assert(name@ =~= aes_name());
            Ok(Algorithm::Aes)
        } else if n == 6 && name.get_char(0) == 'c' && name.get_char(1) == 'h' && name.get_char(2)
            == 'a' && name.get_char(3) == 'c' && name.get_char(4) == 'h' && name.get_char(5)
            == 'a' {
            assert(name@ =~= chacha_name());
            Ok(Algorithm::Chacha)
        } else {
            assert(name@ != aes_name()) by {
                if name@ == aes_name() {
                    assert(aes_name().len() == 3);
                    assert(aes_name()[0] == 'a' && aes_name()[1] == 'e' && aes_name()[2] == 's');
                }
            }
            assert(name@ != chacha_name()) by {
                if name@ == chacha_name() {
                    assert(chacha_name().len() == 6);
                    assert(chacha_name()[0] == 'c' && chacha_name()[1] == 'h' && chacha_name()[2]
                        == 'a');
                    assert(chacha_name()[3] == 'c' && chacha_name()[4] == 'h' && chacha_name()[5]
                        == 'a');
                }
            }
            Err(EngineError::UnsupportedAlgorithm)
        }
    }

    /// Reads an identifier byte back into the cipher it stands for.
    pub fn from_id(id: u8) -> (r: Option<Algorithm>)
        ensures
            r == Algorithm::spec_from_id(id),
    {
        if id == AES_ID {
            Some(Algorithm::Aes)
        } else if id == CHACHA_ID {
            Some(Algorithm::Chacha)
        } else {
            None
        }
    }
}

} // verus!
