//! The two ciphers behind one pair of operations: sealing a plaintext into
//! ciphertext and tag, and opening such bytes again.
//!
//! The ciphers themselves are those of the `aes-gcm` and `chacha20poly1305`
//! crates. What this module proves is everything around them: that a key or
//! nonce of the wrong length never reaches a cipher, which error comes back
//! on which input, and that whatever `decrypt` returns is the plaintext
//! whose sealing it was given.

use aes_gcm::aead::generic_array::GenericArray;
use aes_gcm::aead::{Aead, KeyInit};
use aes_gcm::Aes256Gcm;
use chacha20poly1305::XChaCha20Poly1305;
use vstd::prelude::*;
use crate::algorithm::{Algorithm, TAG_SIZE};
use crate::error::EngineError;

verus! {

/// The error of the `aead` traits: a unit value that says nothing of its
/// cause.
#[verifier::external_type_specification]
#[verifier::external_body]
pub struct ExAeadError(aes_gcm::Error);

/// What AES-256-GCM makes of a plaintext under a 32-byte key and a 12-byte
/// nonce, with no associated data: the ciphertext followed by the tag.
pub uninterp spec fn aes_256_gcm_sealed(
    key: Seq<u8>,
    nonce: Seq<u8>,
    plaintext: Seq<u8>,
) -> Seq<u8>;

/// What XChaCha20-Poly1305 makes of a plaintext under a 32-byte key and a
/// 24-byte nonce, with no associated data: the ciphertext followed by the
/// tag.
pub uninterp spec fn xchacha20_poly1305_sealed(
    key: Seq<u8>,
    nonce: Seq<u8>,
    plaintext: Seq<u8>,
) -> Seq<u8>;

/// `Aes256Gcm::new` and then `Aead::encrypt` of the `aes-gcm` crate.
///
/// Trusted: within the cipher's length limit the call succeeds, its result
/// depends on the three arguments alone, and it is the plaintext's length
/// plus a 16-byte tag long. Key and nonce must have the cipher's lengths,
/// or the conversion to fixed-size arrays panics.
#[verifier::external_body]
fn encrypt_with_aes(
    key: &[u8],
    nonce: &[u8],
    plaintext: &[u8],
) -> (r: Result<Vec<u8>, aes_gcm::Error>)
    requires
        key@.len() == Algorithm::Aes.spec_key_len(),
        nonce@.len() == Algorithm::Aes.spec_nonce_len(),
        plaintext@.len() <= Algorithm::Aes.spec_max_plaintext_len(),
    ensures
        r is Ok,
        r->Ok_0@ == aes_256_gcm_sealed(key@, nonce@, plaintext@),
        r->Ok_0@.len() == plaintext@.len() + 16,
{
    let cipher = Aes256Gcm::new(GenericArray::from_slice(key));
    cipher.encrypt(GenericArray::from_slice(nonce), plaintext)
}

/// `XChaCha20Poly1305::new` and then `Aead::encrypt` of the
/// `chacha20poly1305` crate.
///
/// Trusted: within the cipher's length limit the call succeeds, its result
/// depends on the three arguments alone, and it is the plaintext's length
/// plus a 16-byte tag long. Key and nonce must have the cipher's lengths,
/// or the conversion to fixed-size arrays panics; beyond the length limit
/// the keystream runs out and the call panics or fails.
#[verifier::external_body]
fn encrypt_with_chacha(
    key: &[u8],
    nonce: &[u8],
    plaintext: &[u8],
) -> (r: Result<Vec<u8>, aes_gcm::Error>)
    requires
        key@.len() == Algorithm::Chacha.spec_key_len(),
        nonce@.len() == Algorithm::Chacha.spec_nonce_len(),
        plaintext@.len() <= Algorithm::Chacha.spec_max_plaintext_len(),
    ensures
        r is Ok,
        r->Ok_0@ == xchacha20_poly1305_sealed(key@, nonce@, plaintext@),
        r->Ok_0@.len() == plaintext@.len() + 16,
{
    let cipher = XChaCha20Poly1305::new(GenericArray::from_slice(key));
    cipher.encrypt(GenericArray::from_slice(nonce), plaintext)
}

/// `Aes256Gcm::new` and then `Aead::decrypt` of the `aes-gcm` crate.
///
/// Trusted: the call recomputes the tag over all but the last 16 bytes and
/// succeeds exactly when it equals those 16 bytes; the plaintext it then
/// returns is the one that seals to the given bytes. So a success is 16
/// bytes shorter than its input and seals to it, and the sealing of any
/// plaintext opens to that plaintext.
#[verifier::external_body]
fn decrypt_aes(key: &[u8], nonce: &[u8], sealed_text: &[u8]) -> (r: Result<Vec<u8>, aes_gcm::Error>)
    requires
        key@.len() == Algorithm::Aes.spec_key_len(),
        nonce@.len() == Algorithm::Aes.spec_nonce_len(),
        sealed_text@.len() <= Algorithm::Aes.spec_max_plaintext_len() + 16,
    ensures
        r is Ok ==> r->Ok_0@.len() + 16 == sealed_text@.len(),
        r is Ok ==> aes_256_gcm_sealed(key@, nonce@, r->Ok_0@) == sealed_text@,
        forall|p: Seq<u8>|
            p.len() + 16 == sealed_text@.len() && #[trigger] aes_256_gcm_sealed(key@, nonce@, p)
                == sealed_text@ ==> r is Ok && r->Ok_0@ == p,
{
    let cipher = Aes256Gcm::new(GenericArray::from_slice(key));
    cipher.decrypt(GenericArray::from_slice(nonce), sealed_text)
}

/// `XChaCha20Poly1305::new` and then `Aead::decrypt` of the
/// `chacha20poly1305` crate.
///
/// Trusted: the call recomputes the tag over all but the last 16 bytes and
/// succeeds exactly when it equals those 16 bytes; the plaintext it then
/// returns is the one that seals to the given bytes. So a success is 16
/// bytes shorter than its input and seals to it, and the sealing of any
/// plaintext opens to that plaintext. Input longer than the cipher can have
/// sealed is left out: on it the keystream may run out, and the call panic.
#[verifier::external_body]
fn decrypt_chacha(
    key: &[u8],
    nonce: &[u8],
    sealed_text: &[u8],
) -> (r: Result<Vec<u8>, aes_gcm::Error>)
    requires
        key@.len() == Algorithm::Chacha.spec_key_len(),
        nonce@.len() == Algorithm::Chacha.spec_nonce_len(),
        sealed_text@.len() <= Algorithm::Chacha.spec_max_plaintext_len() + 16,
    ensures
        r is Ok ==> r->Ok_0@.len() + 16 == sealed_text@.len(),
        r is Ok ==> xchacha20_poly1305_sealed(key@, nonce@, r->Ok_0@) == sealed_text@,
        forall|p: Seq<u8>|
            p.len() + 16 == sealed_text@.len() && #[trigger] xchacha20_poly1305_sealed(
                key@,
                nonce@,
                p,
            ) == sealed_text@ ==> r is Ok && r->Ok_0@ == p,
{
    let cipher = XChaCha20Poly1305::new(GenericArray::from_slice(key));
    cipher.decrypt(GenericArray::from_slice(nonce), sealed_text)
}

/// The bytes that `algorithm` makes of `plaintext` under `key` and `nonce`.
pub open spec fn sealed(
    algorithm: Algorithm,
    key: Seq<u8>,
    nonce: Seq<u8>,
    plaintext: Seq<u8>,
) -> Seq<u8> {
    match algorithm {
        Algorithm::Aes => aes_256_gcm_sealed(key, nonce, plaintext),
        Algorithm::Chacha => xchacha20_poly1305_sealed(key, nonce, plaintext),
    }
}

/// True when `key` and `nonce` have the lengths that `algorithm` asks for.
pub open spec fn lengths_fit(algorithm: Algorithm, key: Seq<u8>, nonce: Seq<u8>) -> bool {
    key.len() == algorithm.spec_key_len() && nonce.len() == algorithm.spec_nonce_len()
}

/// True when `sealed_text` is the sealing of `plaintext`: the plaintext is
/// one that the cipher accepts, and the cipher's output for it, a tag longer
/// than the plaintext, is `sealed_text`.
pub open spec fn opens_to(
    algorithm: Algorithm,
    key: Seq<u8>,
    nonce: Seq<u8>,
    sealed_text: Seq<u8>,
    plaintext: Seq<u8>,
) -> bool {
    &&& plaintext.len() <= algorithm.spec_max_plaintext_len()
    &&& sealed_text.len() == plaintext.len() + 16
    &&& sealed(algorithm, key, nonce, plaintext) == sealed_text
}

/// What `encrypt` returns, the sealed bytes standing for themselves.
pub open spec fn encrypt_spec(
    algorithm: Algorithm,
    key: Seq<u8>,
    nonce: Seq<u8>,
    plaintext: Seq<u8>,
) -> Result<Seq<u8>, EngineError> {
    if !lengths_fit(algorithm, key, nonce) {
        Err(EngineError::InvalidKeyOrNonceLength)
    } else if plaintext.len() > algorithm.spec_max_plaintext_len() {
        Err(EngineError::EncryptionFailure)
    } else {
        Ok(sealed(algorithm, key, nonce, plaintext))
    }
}

/// An outcome with its bytes as a sequence.
pub open spec fn bytes_of(r: Result<Vec<u8>, EngineError>) -> Result<Seq<u8>, EngineError> {
    match r {
        Ok(bytes) => Ok(bytes@),
        Err(e) => Err(e),
    }
}

/// What holds of the outcome `r` of sealing `plaintext`: it is what
/// `encrypt_spec` says, and a success is the sealing of `plaintext`.
pub open spec fn is_sealing_of(
    algorithm: Algorithm,
    key: Seq<u8>,
    nonce: Seq<u8>,
    plaintext: Seq<u8>,
    r: Result<Vec<u8>, EngineError>,
) -> bool {
    &&& bytes_of(r) == encrypt_spec(algorithm, key, nonce, plaintext)
    &&& r is Ok ==> opens_to(algorithm, key, nonce, r->Ok_0@, plaintext)
}

/// What holds of the outcome `r` of opening `sealed_text`: wrong lengths
/// are refused; otherwise a success is a plaintext that seals to exactly
/// `sealed_text`, a failure is an `AuthenticationFailure` on bytes that no
/// plaintext seals to, and bytes that some plaintext seals to give that
/// plaintext.
pub open spec fn is_opening_of(
    algorithm: Algorithm,
    key: Seq<u8>,
    nonce: Seq<u8>,
    sealed_text: Seq<u8>,
    r: Result<Vec<u8>, EngineError>,
) -> bool {
    &&& !lengths_fit(algorithm, key, nonce) ==> r is Err && r->Err_0
        == EngineError::InvalidKeyOrNonceLength
    &&& lengths_fit(algorithm, key, nonce) ==> {
        &&& r is Ok ==> opens_to(algorithm, key, nonce, sealed_text, r->Ok_0@)
        &&& r is Err ==> r->Err_0 == EngineError::AuthenticationFailure && forall|p: Seq<u8>|
            !opens_to(algorithm, key, nonce, sealed_text, p)
        &&& forall|p: Seq<u8>|
            opens_to(algorithm, key, nonce, sealed_text, p) ==> r is Ok && r->Ok_0@ == p
    }
}

/// Turns the outcome of a cipher's sealing into the engine's: the bytes
/// pass through, and the cipher's error becomes `EncryptionFailure`.
pub fn sealing_outcome(
    outcome: Result<Vec<u8>, aes_gcm::Error>,
) -> (r: Result<Vec<u8>, EngineError>)
    ensures
        outcome matches Ok(bytes) ==> r == Ok::<Vec<u8>, EngineError>(bytes),
        outcome is Err ==> r == Err::<Vec<u8>, EngineError>(EngineError::EncryptionFailure),
{
    match outcome {
        Ok(bytes) => Ok(bytes),
        Err(_) => Err(EngineError::EncryptionFailure),
    }
}

/// Turns the outcome of a cipher's opening into the engine's: the bytes
/// pass through, and the cipher's error becomes `AuthenticationFailure`.
pub fn opening_outcome(
    outcome: Result<Vec<u8>, aes_gcm::Error>,
) -> (r: Result<Vec<u8>, EngineError>)
    ensures
        outcome matches Ok(bytes) ==> r == Ok::<Vec<u8>, EngineError>(bytes),
        outcome is Err ==> r == Err::<Vec<u8>, EngineError>(EngineError::AuthenticationFailure),
{
    match outcome {
        Ok(bytes) => Ok(bytes),
        Err(_) => Err(EngineError::AuthenticationFailure),
    }
}

/// Seals `plaintext` with `algorithm` under `key` and `nonce`, and returns
/// the ciphertext followed by its 16-byte tag.
///
/// A key or nonce of the wrong length is refused before any cipher runs. A
/// plaintext longer than the cipher takes is an `EncryptionFailure`. On
/// every other input the call succeeds, and `decrypt` under the same key
/// and nonce opens the result to `plaintext` again.
pub fn encrypt(
    algorithm: Algorithm,
    key: &[u8],
    nonce: &[u8],
    plaintext: &[u8],
) -> (r: Result<Vec<u8>, EngineError>)
    ensures
        is_sealing_of(algorithm, key@, nonce@, plaintext@, r),
{
    if key.len() != algorithm.key_len() || nonce.len() != algorithm.nonce_len() {
        return Err(EngineError::InvalidKeyOrNonceLength);
    }
    if plaintext.len() as u64 > algorithm.max_plaintext_len() {
        return Err(EngineError::EncryptionFailure);
    }
    let outcome = match algorithm {
        Algorithm::Aes => encrypt_with_aes(key, nonce, plaintext),
        Algorithm::Chacha => encrypt_with_chacha(key, nonce, plaintext),
    };
    sealing_outcome(outcome)
}

/// Opens `sealed_text`, ciphertext followed by tag, with `algorithm` under
/// `key` and `nonce`.
///
/// A key or nonce of the wrong length is refused before any cipher runs.
/// Otherwise the call succeeds exactly when `sealed_text` is the sealing of
/// some plaintext under this key and nonce, and returns that plaintext;
/// every other input, altered bytes and bytes sealed under another key or
/// nonce among them, is an `AuthenticationFailure`.
pub fn decrypt(
    algorithm: Algorithm,
    key: &[u8],
    nonce: &[u8],
    sealed_text: &[u8],
) -> (r: Result<Vec<u8>, EngineError>)
    ensures
        is_opening_of(algorithm, key@, nonce@, sealed_text@, r),
{
    if key.len() != algorithm.key_len() || nonce.len() != algorithm.nonce_len() {
        return Err(EngineError::InvalidKeyOrNonceLength);
    }
    if sealed_text.len() as u64 > algorithm.max_plaintext_len() + (TAG_SIZE as u64) {
        return Err(EngineError::AuthenticationFailure);
    }
    let outcome = match algorithm {
        Algorithm::Aes => decrypt_aes(key, nonce, sealed_text),
        Algorithm::Chacha => decrypt_chacha(key, nonce, sealed_text),
    };
    opening_outcome(outcome)
}

/// Opening undoes sealing: whatever `encrypt` returns for a plaintext that
/// the cipher takes, under a key and nonce of the right lengths, `decrypt`
/// under the same key and nonce turns back into that plaintext.
pub proof fn lemma_opening_undoes_sealing(
    algorithm: Algorithm,
    key: Seq<u8>,
    nonce: Seq<u8>,
    plaintext: Seq<u8>,
    sealing: Result<Vec<u8>, EngineError>,
    opening: Result<Vec<u8>, EngineError>,
)
    requires
        lengths_fit(algorithm, key, nonce),
        plaintext.len() <= algorithm.spec_max_plaintext_len(),
        is_sealing_of(algorithm, key, nonce, plaintext, sealing),
        sealing is Ok ==> is_opening_of(algorithm, key, nonce, sealing->Ok_0@, opening),
    ensures
        sealing is Ok,
        opening is Ok,
        opening->Ok_0@ == plaintext,
{
}

/// A key or nonce of the wrong length is refused in both directions,
/// whatever the other arguments are.
pub proof fn lemma_wrong_lengths_are_refused(
    algorithm: Algorithm,
    key: Seq<u8>,
    nonce: Seq<u8>,
    text: Seq<u8>,
    sealing: Result<Vec<u8>, EngineError>,
    opening: Result<Vec<u8>, EngineError>,
)
    requires
        key.len() != algorithm.spec_key_len() || nonce.len() != algorithm.spec_nonce_len(),
        is_sealing_of(algorithm, key, nonce, text, sealing),
        is_opening_of(algorithm, key, nonce, text, opening),
    ensures
        sealing is Err && sealing->Err_0 == EngineError::InvalidKeyOrNonceLength,
        opening is Err && opening->Err_0 == EngineError::InvalidKeyOrNonceLength,
{
}

/// Opening never hands out what was not sealed: under a key and nonce of
/// the right lengths, whatever `decrypt` returns for any bytes, altered or
/// not, is an `AuthenticationFailure` or a plaintext whose sealing under
/// that key and nonce is, byte for byte, what `decrypt` was given.
pub proof fn lemma_opening_is_authentic(
    algorithm: Algorithm,
    key: Seq<u8>,
    nonce: Seq<u8>,
    given: Seq<u8>,
    opening: Result<Vec<u8>, EngineError>,
)
    requires
        lengths_fit(algorithm, key, nonce),
        is_opening_of(algorithm, key, nonce, given, opening),
    ensures
        opening matches Ok(plaintext) ==> sealed(algorithm, key, nonce, plaintext@) == given,
        opening matches Err(e) ==> e == EngineError::AuthenticationFailure,
{
}

} // verus!
