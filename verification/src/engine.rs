//! The transform engine: from an input buffer, a cipher and a key to an
//! output buffer, in either direction.
//!
//! Encryption draws a fresh nonce, seals the input and writes an envelope.
//! Decryption splits the envelope, checks that it is of the chosen cipher
//! and opens it. Either returns a whole output or an error, with one cipher
//! call at most, and keeps nothing afterwards.

use vstd::prelude::*;
use crate::algorithm::{Algorithm, Direction};
use crate::cipher::{bytes_of, decrypt, encrypt, encrypt_spec, opens_to};
use crate::envelope::{envelope_bytes, envelope_parts, lemma_parts_of_envelope_bytes, Envelope};
use crate::error::EngineError;
use crate::key_management::Key;
use crate::nonce::next_nonce;

verus! {

/// Where the key of an invocation comes from.
#[derive(Debug, PartialEq, Eq)]
pub enum KeySource {
    /// Generate a key and write it to this path.
    GeneratePersist(String),
    /// Load the key from this path.
    Load(String),
}

/// What one invocation is to do, settled before any file is touched.
#[derive(Debug, PartialEq, Eq)]
pub struct Invocation {
    /// Whether to seal or to open.
    pub direction: Direction,
    /// The cipher to do it with.
    pub algorithm: Algorithm,
    /// Where the key comes from.
    pub key_source: KeySource,
}

/// True when `bytes` are an envelope of `algorithm` whose sealed text is
/// the sealing of `plaintext` under `key` and the envelope's own nonce.
pub open spec fn envelope_opens_to(
    algorithm: Algorithm,
    key: Seq<u8>,
    bytes: Seq<u8>,
    plaintext: Seq<u8>,
) -> bool {
    &&& envelope_parts(bytes) is Ok
    &&& envelope_parts(bytes)->Ok_0.0 == algorithm
    &&& opens_to(
        algorithm,
        key,
        envelope_parts(bytes)->Ok_0.1,
        envelope_parts(bytes)->Ok_0.2,
        plaintext,
    )
}

/// The envelope that sealing `input` under `key` and `nonce` gives, or the
/// error that the cipher answers with.
pub open spec fn sealed_envelope(
    algorithm: Algorithm,
    key: Seq<u8>,
    nonce: Seq<u8>,
    input: Seq<u8>,
) -> Result<Seq<u8>, EngineError> {
    match encrypt_spec(algorithm, key, nonce, input) {
        Ok(sealed_text) => Ok(envelope_bytes(algorithm, nonce, sealed_text)),
        Err(e) => Err(e),
    }
}

/// The error that stops a decryption before any cipher runs, if there is
/// one: the bytes are no envelope, or an envelope of another cipher.
pub open spec fn envelope_refusal(algorithm: Algorithm, bytes: Seq<u8>) -> Option<EngineError> {
    match envelope_parts(bytes) {
        Err(e) => Some(e),
        Ok((found, _, _)) => if found != algorithm {
            Some(EngineError::UnsupportedAlgorithm)
        } else {
            None
        },
    }
}

/// What holds of the outcome `r` of encrypting `input`: it fails only on an
/// input longer than the cipher takes, and otherwise is the envelope of
/// `input` sealed under `key` and some nonce of the cipher's length, which
/// therefore opens to `input` again.
pub open spec fn is_encryption_of(
    algorithm: Algorithm,
    key: Seq<u8>,
    input: Seq<u8>,
    r: Result<Vec<u8>, EngineError>,
) -> bool {
    &&& input.len() > algorithm.spec_max_plaintext_len() ==> r is Err && r->Err_0
        == EngineError::EncryptionFailure
    &&& input.len() <= algorithm.spec_max_plaintext_len() ==> {
        &&& r is Ok
        &&& exists|nonce: Seq<u8>|
            nonce.len() == algorithm.spec_nonce_len() && #[trigger] sealed_envelope(
                algorithm,
                key,
                nonce,
                input,
            ) == Ok::<Seq<u8>, EngineError>(r->Ok_0@)
        &&& r->Ok_0@.len() == 1 + algorithm.spec_nonce_len() + input.len() + 16
        &&& envelope_opens_to(algorithm, key, r->Ok_0@, input)
    }
}

/// What holds of the outcome `r` of decrypting `bytes`: a refused envelope
/// gives its error; any other succeeds exactly when it opens to some
/// plaintext, with that plaintext, and is an `AuthenticationFailure` when
/// it opens to none.
pub open spec fn is_decryption_of(
    algorithm: Algorithm,
    key: Seq<u8>,
    bytes: Seq<u8>,
    r: Result<Vec<u8>, EngineError>,
) -> bool {
    &&& envelope_refusal(algorithm, bytes) matches Some(e) ==> r is Err && r->Err_0 == e
    &&& envelope_refusal(algorithm, bytes) is None ==> {
        &&& r is Ok ==> envelope_opens_to(algorithm, key, bytes, r->Ok_0@)
        &&& r is Err ==> r->Err_0 == EngineError::AuthenticationFailure && forall|p: Seq<u8>|
            !envelope_opens_to(algorithm, key, bytes, p)
    }
    &&& forall|p: Seq<u8>|
        envelope_opens_to(algorithm, key, bytes, p) ==> r is Ok && r->Ok_0@ == p
}

/// An envelope written around a sealing opens to what was sealed.
pub proof fn lemma_envelope_of_sealing_opens(
    algorithm: Algorithm,
    key: Seq<u8>,
    nonce: Seq<u8>,
    sealed_text: Seq<u8>,
    plaintext: Seq<u8>,
)
    requires
        nonce.len() == algorithm.spec_nonce_len(),
        opens_to(algorithm, key, nonce, sealed_text, plaintext),
    ensures
        envelope_opens_to(
            algorithm,
            key,
            envelope_bytes(algorithm, nonce, sealed_text),
            plaintext,
        ),
{
    lemma_parts_of_envelope_bytes(algorithm, nonce, sealed_text);
}

/// Where the key comes from: a given path is loaded from; without one,
/// encryption generates a key and persists it at the default path, and
/// decryption has no key to work with.
pub open spec fn resolved_key_source(
    direction: Direction,
    key_path: Option<String>,
    default_path: String,
) -> Result<KeySource, EngineError> {
    match key_path {
        Some(path) => Ok(KeySource::Load(path)),
        None => match direction {
            Direction::Encrypt => Ok(KeySource::GeneratePersist(default_path)),
            Direction::Decrypt => Err(EngineError::KeyRequired),
        },
    }
}

/// What one invocation does when it is planned from these arguments: an
/// unknown cipher name is found first, a missing key for decryption second.
pub open spec fn planned_invocation(
    direction: Direction,
    algorithm_name: Seq<char>,
    key_path: Option<String>,
    default_key_path: String,
) -> Result<Invocation, EngineError> {
    match Algorithm::spec_from_name(algorithm_name) {
        None => Err(EngineError::UnsupportedAlgorithm),
        Some(algorithm) => match resolved_key_source(direction, key_path, default_key_path) {
            Err(e) => Err(e),
            Ok(key_source) => Ok(Invocation { direction, algorithm, key_source }),
        },
    }
}

/// Decides where the key comes from.
///
/// A given path is loaded from. Without one, encryption generates a key and
/// persists it at `default_path`, and decryption fails with `KeyRequired`.
pub fn resolve_key_source(
    direction: Direction,
    key_path: Option<String>,
    default_path: String,
) -> (r: Result<KeySource, EngineError>)
    ensures
        r == resolved_key_source(direction, key_path, default_path),
{
    match key_path {
        Some(path) => Ok(KeySource::Load(path)),
        None => match direction {
            Direction::Encrypt => Ok(KeySource::GeneratePersist(default_path)),
            Direction::Decrypt => Err(EngineError::KeyRequired),
        },
    }
}

/// Settles, before any file is touched, what an invocation is to do: which
/// cipher `algorithm_name` selects and where its key comes from.
///
/// Fails with `UnsupportedAlgorithm` on a name that selects no cipher, and
/// otherwise with `KeyRequired` on a decryption without a key path.
pub fn plan_invocation(
    direction: Direction,
    algorithm_name: &str,
    key_path: Option<String>,
    default_key_path: String,
) -> (r: Result<Invocation, EngineError>)
    ensures
        r == planned_invocation(direction, algorithm_name@, key_path, default_key_path),
{
    match Algorithm::from_name(algorithm_name) {
        Err(_) => Err(EngineError::UnsupportedAlgorithm),
        Ok(algorithm) => match resolve_key_source(direction, key_path, default_key_path) {
            Err(e) => Err(e),
            Ok(key_source) => Ok(Invocation { direction, algorithm, key_source }),
        },
    }
}

/// Seals `input` under `key` and the given nonce, and writes the envelope.
///
/// This is the whole of an encryption but for the drawing of the nonce. A
/// nonce of the wrong length is refused before the cipher runs.
pub fn encrypt_with_nonce(
    input: &[u8],
    algorithm: Algorithm,
    key: &Key,
    nonce: &[u8],
) -> (r: Result<Vec<u8>, EngineError>)
    ensures
        bytes_of(r) == sealed_envelope(algorithm, key@, nonce@, input@),
        r matches Ok(bytes) ==> bytes@.len() == 1 + nonce@.len() + input@.len() + 16
            && envelope_opens_to(algorithm, key@, bytes@, input@),
{
    match encrypt(algorithm, key.as_bytes(), nonce, input) {
        Err(e) => Err(e),
        Ok(sealed_text) => {
            let mut nonce_bytes: Vec<u8> = Vec::new();
            nonce_bytes.extend_from_slice(nonce);
            assert(nonce_bytes@ =~= nonce@);
            let envelope = Envelope { algorithm, nonce: nonce_bytes, sealed_text };
            proof {
                lemma_envelope_of_sealing_opens(
                    algorithm,
                    key@,
                    nonce@,
                    envelope.sealed_text@,
                    input@,
                );
            }
            Ok(envelope.encode())
        },
    }
}

/// Encrypts a buffer: draws a fresh random nonce, seals the input with
/// `algorithm` under `key`, and returns the envelope.
///
/// Fails, with `EncryptionFailure`, only on an input longer than the cipher
/// takes. The envelope returned opens to the input under the same key.
pub fn encrypt_plaintext(
    input_file_contents: Vec<u8>,
    algorithm: Algorithm,
    key: &Key,
) -> (r: Result<Vec<u8>, EngineError>)
    ensures
        is_encryption_of(algorithm, key@, input_file_contents@, r),
{
    let nonce = next_nonce(algorithm);
    let r = encrypt_with_nonce(input_file_contents.as_slice(), algorithm, key, nonce.as_slice());
    proof {
        key.lemma_len();
    }
    r
}

/// Decrypts a buffer: splits the envelope, checks it against `algorithm`,
/// and opens its sealed text under `key` and the envelope's nonce.
///
/// Bytes that are no envelope, or an envelope of another cipher, are
/// refused before any cipher runs. Every other input either is what an
/// encryption under this key produced, and gives back the plaintext, or is
/// an `AuthenticationFailure`.
pub fn decrypt_ciphertext(
    input_file_contents: Vec<u8>,
    algorithm: Algorithm,
    key: &Key,
) -> (r: Result<Vec<u8>, EngineError>)
    ensures
        is_decryption_of(algorithm, key@, input_file_contents@, r),
{
    match Envelope::decode(input_file_contents.as_slice()) {
        Err(e) => Err(e),
        Ok(envelope) => {
            if envelope.algorithm != algorithm {
                return Err(EngineError::UnsupportedAlgorithm);
            }
            decrypt(
                algorithm,
                key.as_bytes(),
                envelope.nonce.as_slice(),
                envelope.sealed_text.as_slice(),
            )
        },
    }
}

/// Decryption undoes encryption: for an input that the cipher takes,
/// `encrypt_plaintext` returns an envelope, and whichever it returns,
/// `decrypt_ciphertext` with the same cipher and key turns it back into
/// that input.
pub proof fn lemma_decryption_undoes_encryption(
    algorithm: Algorithm,
    key: Seq<u8>,
    input: Seq<u8>,
    encryption: Result<Vec<u8>, EngineError>,
    decryption: Result<Vec<u8>, EngineError>,
)
    requires
        input.len() <= algorithm.spec_max_plaintext_len(),
        is_encryption_of(algorithm, key, input, encryption),
        encryption is Ok ==> is_decryption_of(algorithm, key, encryption->Ok_0@, decryption),
    ensures
        encryption is Ok,
        decryption is Ok,
        decryption->Ok_0@ == input,
{
}

/// One invocation of the engine, in the given direction.
pub fn transform(
    direction: Direction,
    algorithm: Algorithm,
    input_bytes: Vec<u8>,
    key: &Key,
) -> (r: Result<Vec<u8>, EngineError>)
    ensures
        direction == Direction::Encrypt ==> is_encryption_of(algorithm, key@, input_bytes@, r),
        direction == Direction::Decrypt ==> is_decryption_of(algorithm, key@, input_bytes@, r),
{
    match direction {
        Direction::Encrypt => encrypt_plaintext(input_bytes, algorithm, key),
        Direction::Decrypt => decrypt_ciphertext(input_bytes, algorithm, key),
    }
}

} // verus!
