use encrust::algorithm::Algorithm;
use encrust::error::EngineError;
use encrust::key_management::{generate_key, seeded_key, Key};
use encrust::nonce::{aes_seeded_nonce, chacha_seeded_nonce, next_nonce};
use rand::rngs::StdRng;
use rand::{Rng, SeedableRng};

fn std_rng_bytes(seed: u64, count: usize) -> Vec<u8> {
    let mut rng = StdRng::seed_from_u64(seed);
    let mut bytes = vec![0u8; count];
    rng.fill(&mut bytes[..]);
    bytes
}

#[test]
fn generated_keys_have_the_key_length() {
    assert_eq!(generate_key().as_bytes().len(), 32);
}

#[test]
fn two_generated_keys_differ() {
    let a = generate_key();
    let b = generate_key();
    assert_ne!(a.as_bytes(), b.as_bytes());
    assert_ne!(a.as_bytes(), [0u8; 32].as_slice());
}

#[test]
fn loaded_bytes_become_the_key() {
    let bytes: Vec<u8> = (0..32).collect();
    for algorithm in [Algorithm::Aes, Algorithm::Chacha] {
        match Key::from_bytes(&bytes, algorithm) {
            Ok(key) => assert_eq!(key.as_bytes(), bytes.as_slice()),
            Err(e) => panic!("refused with {:?}", e),
        }
    }
}

#[test]
fn the_bytes_of_a_key_load_as_that_key() {
    let key = generate_key();
    let saved = key.as_bytes().to_vec();
    match Key::from_bytes(&saved, Algorithm::Chacha) {
        Ok(loaded) => assert_eq!(loaded.as_bytes(), key.as_bytes()),
        Err(e) => panic!("refused with {:?}", e),
    }
}

#[test]
fn bytes_of_another_length_are_no_key() {
    for algorithm in [Algorithm::Aes, Algorithm::Chacha] {
        for len in [0usize, 1, 16, 31, 33, 64] {
            let outcome = Key::from_bytes(&vec![7u8; len], algorithm);
            assert_eq!(outcome.err(), Some(EngineError::KeyLengthMismatch));
        }
    }
}

#[test]
fn a_wiped_key_is_all_zeros() {
    let mut key = generate_key();
    key.wipe();
    assert_eq!(key.as_bytes(), [0u8; 32].as_slice());
}

#[test]
fn a_seeded_key_is_what_the_seeded_generator_yields() {
    assert_eq!(seeded_key(123).as_bytes(), std_rng_bytes(123, 32).as_slice());
    assert_eq!(seeded_key(0).as_bytes(), std_rng_bytes(0, 32).as_slice());
    assert_eq!(seeded_key(123).as_bytes(), seeded_key(123).as_bytes());
    assert_ne!(seeded_key(123).as_bytes(), seeded_key(124).as_bytes());
    assert_ne!(seeded_key(123).as_bytes(), [0u8; 32].as_slice());
}

#[test]
fn seeded_nonces_are_what_the_seeded_generator_yields() {
    assert_eq!(aes_seeded_nonce(123).to_vec(), std_rng_bytes(123, 12));
    assert_eq!(chacha_seeded_nonce(123).to_vec(), std_rng_bytes(123, 24));
    assert_eq!(aes_seeded_nonce(5), aes_seeded_nonce(5));
    assert_ne!(aes_seeded_nonce(5), aes_seeded_nonce(6));
    assert_ne!(chacha_seeded_nonce(5), chacha_seeded_nonce(6));
    assert_ne!(aes_seeded_nonce(5), [0u8; 12]);
}

#[test]
fn fresh_nonces_have_the_length_of_the_cipher() {
    assert_eq!(next_nonce(Algorithm::Aes).len(), 12);
    assert_eq!(next_nonce(Algorithm::Chacha).len(), 24);
}

#[test]
fn two_fresh_nonces_differ() {
    for algorithm in [Algorithm::Aes, Algorithm::Chacha] {
        assert_ne!(next_nonce(algorithm), next_nonce(algorithm));
    }
}
