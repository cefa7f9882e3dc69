//! Nonces: one per message, as long as the cipher asks.
//!
//! The engine's policy is the random one. The seeded functions exist for
//! fixtures: under one key a seeded nonce repeats, and a repeated nonce
//! gives the plaintexts away.

use vstd::prelude::*;
use vstd::slice::slice_to_vec;
use crate::algorithm::{Algorithm, AES_NONCE_SIZE, CHACHA_NONCE_SIZE};
use crate::random::{random_bytes, seeded_bytes, std_rng_bytes};

verus! {

/// Draws the nonce for one message from the thread's secure generator.
///
/// Only the length is promised: the bytes differ from call to call.
pub fn next_nonce(algorithm: Algorithm) -> (nonce: Vec<u8>)
    ensures
        nonce@.len() == algorithm.spec_nonce_len(),
{
    match algorithm {
        Algorithm::Aes => {
            let bytes = random_bytes::<AES_NONCE_SIZE>();
            slice_to_vec(bytes.as_slice())
        },
        Algorithm::Chacha => {
            let bytes = random_bytes::<CHACHA_NONCE_SIZE>();
            slice_to_vec(bytes.as_slice())
        },
    }
}

/// The AES-256-GCM nonce that a standard generator seeded with `seed`
/// yields. For fixtures only.
pub fn aes_seeded_nonce(seed: u64) -> (nonce: [u8; AES_NONCE_SIZE])
    ensures
        nonce@ == std_rng_bytes(seed, 12),
{
    seeded_bytes::<AES_NONCE_SIZE>(seed)
}

/// The XChaCha20-Poly1305 nonce that a standard generator seeded with
/// `seed` yields. For fixtures only.
pub fn chacha_seeded_nonce(seed: u64) -> (nonce: [u8; CHACHA_NONCE_SIZE])
    ensures
        nonce@ == std_rng_bytes(seed, 24),
{
    seeded_bytes::<CHACHA_NONCE_SIZE>(seed)
}

} // verus!
