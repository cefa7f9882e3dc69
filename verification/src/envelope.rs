//! The envelope: the bytes that an encryption hands out and a decryption
//! takes in.
//!
//! An envelope is one identifier byte for the cipher, then the nonce in the
//! length that the cipher asks for, then the ciphertext with its tag. It
//! carries everything but the key that opening it needs.

use vstd::prelude::*;
use vstd::slice::{slice_subrange, slice_to_vec};
use crate::algorithm::Algorithm;
use crate::error::EngineError;

verus! {

/// The parts of an envelope, taken apart.
#[derive(Debug, PartialEq, Eq)]
pub struct Envelope {
    /// The cipher that sealed the text.
    pub algorithm: Algorithm,
    /// The nonce that the text was sealed under.
    pub nonce: Vec<u8>,
    /// Ciphertext followed by tag.
    pub sealed_text: Vec<u8>,
}

/// The bytes of the envelope with these parts.
pub open spec fn envelope_bytes(algorithm: Algorithm, nonce: Seq<u8>, sealed_text: Seq<u8>) -> Seq<
    u8,
> {
    seq![algorithm.spec_id()] + nonce + sealed_text
}

/// The parts that `bytes` split into, or why they are no envelope: without
/// a known identifier in front they name no cipher, and with fewer bytes
/// behind it than the cipher's nonce they hold no nonce of the right length.
pub open spec fn envelope_parts(bytes: Seq<u8>) -> Result<
    (Algorithm, Seq<u8>, Seq<u8>),
    EngineError,
> {
    if bytes.len() == 0 {
        Err(EngineError::UnsupportedAlgorithm)
    } else {
        match Algorithm::spec_from_id(bytes[0]) {
            None => Err(EngineError::UnsupportedAlgorithm),
            Some(algorithm) => if bytes.len() < 1 + algorithm.spec_nonce_len() {
                Err(EngineError::InvalidKeyOrNonceLength)
            } else {
                Ok(
                    (
                        algorithm,
                        bytes.subrange(1, 1 + algorithm.spec_nonce_len()),
                        bytes.subrange(1 + algorithm.spec_nonce_len(), bytes.len() as int),
                    ),
                )
            },
        }
    }
}

impl Envelope {
    /// True when the nonce has the length that the cipher asks for.
    pub open spec fn well_formed(&self) -> bool {
        self.nonce@.len() == self.algorithm.spec_nonce_len()
    }

    /// The parts as mathematical values.
    pub open spec fn parts(&self) -> (Algorithm, Seq<u8>, Seq<u8>) {
        (self.algorithm, self.nonce@, self.sealed_text@)
    }

    /// Writes the envelope out: identifier, nonce, sealed text.
    pub fn encode(&self) -> (bytes: Vec<u8>)
        ensures
            bytes@ == envelope_bytes(self.algorithm, self.nonce@, self.sealed_text@),
    {
        let mut bytes: Vec<u8> = Vec::new();
        bytes.push(self.algorithm.id());
        bytes.extend_from_slice(self.nonce.as_slice());
        bytes.extend_from_slice(self.sealed_text.as_slice());
        assert(bytes@ =~= envelope_bytes(self.algorithm, self.nonce@, self.sealed_text@));
        bytes
    }

    /// Splits bytes into the parts of an envelope.
    ///
    /// Fails with `UnsupportedAlgorithm` when the bytes are empty or start
    /// with an unknown identifier, and with `InvalidKeyOrNonceLength` when
    /// too few bytes follow the identifier to hold the cipher's nonce.
    pub fn decode(bytes: &[u8]) -> (r: Result<Envelope, EngineError>)
        ensures
            r matches Ok(envelope) ==> envelope.well_formed() && envelope_parts(bytes@) == Ok::<
                (Algorithm, Seq<u8>, Seq<u8>),
                EngineError,
            >(envelope.parts()),
            r matches Err(e) ==> envelope_parts(bytes@) == Err::<
                (Algorithm, Seq<u8>, Seq<u8>),
                EngineError,
            >(e),
    {
        if bytes.len() == 0 {
            return Err(EngineError::UnsupportedAlgorithm);
        }
        match Algorithm::from_id(bytes[0]) {
            None => Err(EngineError::UnsupportedAlgorithm),
            Some(algorithm) => {
                let nonce_len = algorithm.nonce_len();
                if bytes.len() - 1 < nonce_len {
                    return Err(EngineError::InvalidKeyOrNonceLength);
                }
                let nonce = slice_to_vec(slice_subrange(bytes, 1, 1 + nonce_len));
                let sealed_text = slice_to_vec(slice_subrange(bytes, 1 + nonce_len, bytes.len()));
                Ok(Envelope { algorithm, nonce, sealed_text })
            },
        }
    }
}

/// Splitting undoes writing: the bytes written for a cipher, a nonce of
/// that cipher's length and any sealed text split into those three parts
/// again.
pub proof fn lemma_parts_of_envelope_bytes(
    algorithm: Algorithm,
    nonce: Seq<u8>,
    sealed_text: Seq<u8>,
)
    requires
        nonce.len() == algorithm.spec_nonce_len(),
    ensures
        envelope_parts(envelope_bytes(algorithm, nonce, sealed_text)) == Ok::<
            (Algorithm, Seq<u8>, Seq<u8>),
            EngineError,
        >((algorithm, nonce, sealed_text)),
{
    let bytes = envelope_bytes(algorithm, nonce, sealed_text);
    let n = algorithm.spec_nonce_len();
    assert(bytes[0] == algorithm.spec_id());
    assert(bytes.subrange(1, 1 + n) =~= nonce);
    assert(bytes.subrange(1 + n, bytes.len() as int) =~= sealed_text);
}

/// Writing undoes splitting: bytes that split into three parts are the
/// envelope written from those parts.
pub proof fn lemma_envelope_bytes_of_parts(bytes: Seq<u8>)
    requires
        envelope_parts(bytes) is Ok,
    ensures
        ({
            let (algorithm, nonce, sealed_text) = envelope_parts(bytes)->Ok_0;
            nonce.len() == algorithm.spec_nonce_len() && envelope_bytes(
                algorithm,
                nonce,
                sealed_text,
            ) == bytes
        }),
{
    let (algorithm, nonce, sealed_text) = envelope_parts(bytes)->Ok_0;
    assert(envelope_bytes(algorithm, nonce, sealed_text) =~= bytes);
}

} // verus!
