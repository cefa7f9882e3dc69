//! The two sources of bytes: the thread's secure generator, for keys and
//! nonces in earnest, and a generator seeded with a number, for fixtures
//! that must come out the same every time.

use rand::rngs::StdRng;
use rand::{Rng, SeedableRng};
use vstd::prelude::*;

verus! {

/// The first `count` bytes that `StdRng` yields after `seed_from_u64(seed)`,
/// in the version of `rand` that this crate is built with. There the
/// generator is ChaCha with twelve rounds on every machine; another version
/// may yield other bytes.
pub uninterp spec fn std_rng_bytes(seed: u64, count: nat) -> Seq<u8>;

/// `rand::thread_rng` and then `Rng::fill` on an array of `N` bytes.
///
/// Trusted: nothing but the length, which the type carries. The bytes
/// differ from call to call. Where the operating system has no randomness
/// to seed the generator with, the call panics.
#[verifier::external_body]
pub(crate) fn random_bytes<const N: usize>() -> [u8; N] {
    let mut bytes = [0u8; N];
    rand::thread_rng().fill(&mut bytes[..]);
    bytes
}

/// `StdRng::seed_from_u64` and then `Rng::fill` on an array of `N` bytes.
///
/// Trusted: the bytes depend on the seed and on `N` alone.
#[verifier::external_body]
pub(crate) fn seeded_bytes<const N: usize>(seed: u64) -> (bytes: [u8; N])
    ensures
        bytes@ == std_rng_bytes(seed, N as nat),
{
    let mut rng = StdRng::seed_from_u64(seed);
    let mut bytes = [0u8; N];
    rng.fill(&mut bytes[..]);
    bytes
}

} // verus!
