//! Authenticated encryption of byte buffers with AES-256-GCM or
//! XChaCha20-Poly1305, together with the handling of the keys and nonces
//! that the two ciphers need.
//!
//! The crate holds no state and touches no file: callers hand it bytes and
//! get bytes, or a typed error, back.

pub mod algorithm;
pub mod boundary;
pub mod cipher;
pub mod engine;
pub mod envelope;
pub mod error;
pub mod key_management;
pub mod nonce;
pub mod random;

pub use algorithm::{Algorithm, Direction};
pub use engine::{
    decrypt_ciphertext, encrypt_plaintext, plan_invocation, transform, Invocation, KeySource,
};
pub use error::EngineError;
pub use key_management::{generate_key, Key};
