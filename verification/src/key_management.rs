//! Keys: how they come to be, and how they pass to and from plain bytes.

use vstd::prelude::*;
use crate::algorithm::{Algorithm, KEY_SIZE};
use crate::error::EngineError;
use crate::random::{random_bytes, seeded_bytes, std_rng_bytes};

verus! {

/// A 256-bit secret key.
///
/// The type has no `Debug`: a key is never printed.
pub struct Key {
    bytes: [u8; KEY_SIZE],
}

impl View for Key {
    type V = Seq<u8>;

    closed spec fn view(&self) -> Seq<u8> {
        self.bytes@
    }
}

/// Thirty-two zero bytes: what a wiped key holds.
pub open spec fn zeroed_key() -> Seq<u8> {
    Seq::new(32, |i: int| 0u8)
}

/// What loading `bytes` as a key for `algorithm` gives: the bytes as they
/// are when they are as many as the key, and `KeyLengthMismatch` otherwise.
pub open spec fn loaded_key(bytes: Seq<u8>, algorithm: Algorithm) -> Result<Seq<u8>, EngineError> {
    if bytes.len() == algorithm.spec_key_len() {
        Ok(bytes)
    } else {
        Err(EngineError::KeyLengthMismatch)
    }
}

/// The bytes of a key load as that key again, for either cipher.
pub proof fn lemma_key_bytes_load(key: Key, algorithm: Algorithm)
    ensures
        loaded_key(key@, algorithm) == Ok::<Seq<u8>, EngineError>(key@),
{
    key.lemma_len();
}

impl Key {
    /// Every key is as long as the ciphers ask.
    pub proof fn lemma_len(&self)
        ensures
            self@.len() == 32,
    {
    }

    /// Takes loaded bytes as a key for `algorithm`.
    ///
    /// Fails with `KeyLengthMismatch` unless there are exactly as many
    /// bytes as the cipher's key has; no byte is changed.
    pub fn from_bytes(bytes: &[u8], algorithm: Algorithm) -> (r: Result<Key, EngineError>)
        ensures
            r matches Ok(key) ==> loaded_key(bytes@, algorithm) == Ok::<Seq<u8>, EngineError>(key@),
            r matches Err(e) ==> loaded_key(bytes@, algorithm) == Err::<Seq<u8>, EngineError>(e),
    {
        if bytes.len() != algorithm.key_len() {
            return Err(EngineError::KeyLengthMismatch);
        }
        let mut key = Key { bytes: [0u8; KEY_SIZE] };
        let mut i: usize = 0;
        while i < KEY_SIZE
            invariant
                i <= KEY_SIZE,
                bytes@.len() == KEY_SIZE,
                forall|j: int| 0 <= j < i ==> key.bytes@[j] == bytes@[j],
            decreases KEY_SIZE - i,
        {
            key.bytes[i] = bytes[i];
            i += 1;
        }
        assert(key@ =~= bytes@);
        Ok(key)
    }

    /// The key's bytes, to hand to a cipher or to write out.
    pub fn as_bytes(&self) -> (bytes: &[u8])
        ensures
            bytes@ == self@,
            bytes@.len() == 32,
    {
        self.bytes.as_slice()
    }

    /// Overwrites the key with zeros, for when it is no longer needed.
    pub fn wipe(&mut self)
        ensures
            final(self)@ == zeroed_key(),
    {
        self.bytes = [0u8; KEY_SIZE];
        assert(self@ =~= zeroed_key());
    }
}

/// Draws a fresh key from the thread's secure generator.
///
/// No two calls are promised the same bytes, and nothing else is promised
/// of them.
pub fn generate_key() -> (key: Key)
    ensures
        key@.len() == 32,
{
    Key { bytes: random_bytes::<KEY_SIZE>() }
}

/// The key that a standard generator seeded with `seed` yields.
///
/// For fixtures only: whoever knows the seed knows the key.
pub fn seeded_key(seed: u64) -> (key: Key)
    ensures
        key@ == std_rng_bytes(seed, 32),
{
    Key { bytes: seeded_bytes::<KEY_SIZE>(seed) }
}

} // verus!
