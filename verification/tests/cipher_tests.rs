use aes_gcm::aead::generic_array::GenericArray;
use aes_gcm::aead::{Aead, KeyInit};
use chacha20poly1305::XChaCha20Poly1305;
use encrust::algorithm::{Algorithm, AES_NONCE_SIZE, CHACHA_NONCE_SIZE, KEY_SIZE, TAG_SIZE};
use encrust::cipher::{decrypt, encrypt, opening_outcome, sealing_outcome};
use encrust::error::EngineError;

fn key_of(first: u8) -> Vec<u8> {
    (0..KEY_SIZE).map(|i| first.wrapping_add(i as u8)).collect()
}

fn nonce_of(algorithm: Algorithm, first: u8) -> Vec<u8> {
    (0..algorithm.nonce_len()).map(|i| first.wrapping_mul(3).wrapping_add(i as u8)).collect()
}

fn both() -> [Algorithm; 2] {
    [Algorithm::Aes, Algorithm::Chacha]
}

#[test]
fn lengths_are_those_of_the_ciphers() {
    assert_eq!(Algorithm::Aes.key_len(), 32);
    assert_eq!(Algorithm::Chacha.key_len(), 32);
    assert_eq!(Algorithm::Aes.nonce_len(), 12);
    assert_eq!(Algorithm::Chacha.nonce_len(), 24);
    assert_eq!(KEY_SIZE, 32);
    assert_eq!(AES_NONCE_SIZE, 12);
    assert_eq!(CHACHA_NONCE_SIZE, 24);
    assert_eq!(TAG_SIZE, 16);
    assert_eq!(Algorithm::Aes.max_plaintext_len(), 1u64 << 36);
    assert_eq!(Algorithm::Chacha.max_plaintext_len(), 64 * ((1u64 << 32) - 2));
}

#[test]
fn aes_seals_the_empty_plaintext_to_the_known_tag() {
    let key = [0u8; 32];
    let nonce = [0u8; 12];
    let sealed = encrypt(Algorithm::Aes, &key, &nonce, &[]).unwrap();
    let expected: [u8; 16] = [
        0x53, 0x0f, 0x8a, 0xfb, 0xc7, 0x45, 0x36, 0xb9, 0xa9, 0x63, 0xb4, 0xf1, 0xc4, 0xcb, 0x73,
        0x8b,
    ];
    assert_eq!(sealed, expected.to_vec());
}

#[test]
fn aes_seals_a_zero_block_to_the_known_bytes() {
    let key = [0u8; 32];
    let nonce = [0u8; 12];
    let sealed = encrypt(Algorithm::Aes, &key, &nonce, &[0u8; 16]).unwrap();
    let expected: [u8; 32] = [
        0xce, 0xa7, 0x40, 0x3d, 0x4d, 0x60, 0x6b, 0x6e, 0x07, 0x4e, 0xc5, 0xd3, 0xba, 0xf3, 0x9d,
        0x18, 0xd0, 0xd1, 0xc8, 0xa7, 0x99, 0x99, 0x6b, 0xf0, 0x26, 0x5b, 0x98, 0xb5, 0xd4, 0x8a,
        0xb9, 0x19,
    ];
    assert_eq!(sealed, expected.to_vec());
    assert_eq!(decrypt(Algorithm::Aes, &key, &nonce, &expected), Ok(vec![0u8; 16]));
}

#[test]
fn chacha_seals_as_the_cipher_crate_does() {
    let key = key_of(9);
    let nonce = nonce_of(Algorithm::Chacha, 5);
    let plaintext = b"the quick brown fox".to_vec();
    let sealed = encrypt(Algorithm::Chacha, &key, &nonce, &plaintext).unwrap();
    let cipher = XChaCha20Poly1305::new(GenericArray::from_slice(&key));
    let direct = cipher.encrypt(GenericArray::from_slice(&nonce), plaintext.as_slice()).unwrap();
    assert_eq!(sealed, direct);
    assert_eq!(sealed.len(), plaintext.len() + 16);
    assert_ne!(&sealed[..plaintext.len()], plaintext.as_slice());
    assert_eq!(cipher.decrypt(GenericArray::from_slice(&nonce), sealed.as_slice()), Ok(plaintext));
}

#[test]
fn sealing_adds_exactly_the_tag() {
    for algorithm in both() {
        for len in [0usize, 1, 15, 16, 17, 64, 1000] {
            let plaintext = vec![0xabu8; len];
            let sealed =
                encrypt(algorithm, &key_of(1), &nonce_of(algorithm, 2), &plaintext).unwrap();
            assert_eq!(sealed.len(), len + TAG_SIZE);
        }
    }
}

#[test]
fn sealing_is_a_function_of_its_arguments() {
    for algorithm in both() {
        let key = key_of(7);
        let nonce = nonce_of(algorithm, 7);
        let a = encrypt(algorithm, &key, &nonce, b"same input").unwrap();
        let b = encrypt(algorithm, &key, &nonce, b"same input").unwrap();
        assert_eq!(a, b);
        let c = encrypt(algorithm, &key, &nonce_of(algorithm, 8), b"same input").unwrap();
        assert_ne!(a, c);
    }
}

#[test]
fn round_trip_gives_the_plaintext_back() {
    for algorithm in both() {
        for len in [0usize, 1, 5, 16, 31, 32, 33, 255, 4096] {
            let plaintext: Vec<u8> = (0..len).map(|i| (i * 7 + 3) as u8).collect();
            let key = key_of(len as u8);
            let nonce = nonce_of(algorithm, len as u8);
            let sealed = encrypt(algorithm, &key, &nonce, &plaintext).unwrap();
            assert_eq!(decrypt(algorithm, &key, &nonce, &sealed), Ok(plaintext));
        }
    }
}

#[test]
fn any_flipped_bit_is_an_authentication_failure() {
    for algorithm in both() {
        let key = key_of(3);
        let nonce = nonce_of(algorithm, 4);
        let plaintext = b"attack at dawn".to_vec();
        let sealed = encrypt(algorithm, &key, &nonce, &plaintext).unwrap();
        for byte in 0..sealed.len() {
            for bit in 0..8 {
                let mut altered = sealed.clone();
                altered[byte] ^= 1 << bit;
                assert_eq!(
                    decrypt(algorithm, &key, &nonce, &altered),
                    Err(EngineError::AuthenticationFailure)
                );
            }
        }
    }
}

#[test]
fn truncated_and_extended_text_is_an_authentication_failure() {
    for algorithm in both() {
        let key = key_of(3);
        let nonce = nonce_of(algorithm, 4);
        let sealed = encrypt(algorithm, &key, &nonce, b"attack at dawn").unwrap();
        for keep in 0..sealed.len() {
            assert_eq!(
                decrypt(algorithm, &key, &nonce, &sealed[..keep]),
                Err(EngineError::AuthenticationFailure)
            );
        }
        let mut longer = sealed.clone();
        longer.push(0);
        assert_eq!(
            decrypt(algorithm, &key, &nonce, &longer),
            Err(EngineError::AuthenticationFailure)
        );
    }
}

#[test]
fn another_key_is_an_authentication_failure() {
    for algorithm in both() {
        let nonce = nonce_of(algorithm, 4);
        let sealed = encrypt(algorithm, &key_of(1), &nonce, b"for your eyes only").unwrap();
        assert_eq!(
            decrypt(algorithm, &key_of(2), &nonce, &sealed),
            Err(EngineError::AuthenticationFailure)
        );
        let mut near = key_of(1);
        near[31] ^= 0x80;
        assert_eq!(
            decrypt(algorithm, &near, &nonce, &sealed),
            Err(EngineError::AuthenticationFailure)
        );
    }
}

#[test]
fn another_nonce_is_an_authentication_failure() {
    for algorithm in both() {
        let key = key_of(1);
        let sealed = encrypt(algorithm, &key, &nonce_of(algorithm, 4), b"once only").unwrap();
        assert_eq!(
            decrypt(algorithm, &key, &nonce_of(algorithm, 5), &sealed),
            Err(EngineError::AuthenticationFailure)
        );
    }
}

#[test]
fn encrypt_refuses_a_key_of_the_wrong_length() {
    for algorithm in both() {
        let nonce = nonce_of(algorithm, 0);
        for len in [0usize, 1, 16, 31, 33, 64] {
            assert_eq!(
                encrypt(algorithm, &vec![1u8; len], &nonce, b"text"),
                Err(EngineError::InvalidKeyOrNonceLength)
            );
        }
    }
}

#[test]
fn encrypt_refuses_a_nonce_of_the_wrong_length() {
    for algorithm in both() {
        let key = key_of(0);
        for len in [0usize, 1, 11, 13, 23, 25, 32] {
            assert_eq!(
                encrypt(algorithm, &key, &vec![1u8; len], b"text"),
                Err(EngineError::InvalidKeyOrNonceLength)
            );
        }
    }
    assert_eq!(
        encrypt(Algorithm::Aes, &key_of(0), &[0u8; 24], b"text"),
        Err(EngineError::InvalidKeyOrNonceLength)
    );
    assert_eq!(
        encrypt(Algorithm::Chacha, &key_of(0), &[0u8; 12], b"text"),
        Err(EngineError::InvalidKeyOrNonceLength)
    );
}

#[test]
fn decrypt_refuses_a_key_or_nonce_of_the_wrong_length() {
    for algorithm in both() {
        let key = key_of(0);
        let nonce = nonce_of(algorithm, 0);
        let sealed = encrypt(algorithm, &key, &nonce, b"text").unwrap();
        assert_eq!(
            decrypt(algorithm, &key[..31], &nonce, &sealed),
            Err(EngineError::InvalidKeyOrNonceLength)
        );
        assert_eq!(
            decrypt(algorithm, &key, &nonce[..nonce.len() - 1], &sealed),
            Err(EngineError::InvalidKeyOrNonceLength)
        );
        assert_eq!(
            decrypt(algorithm, &[], &[], &sealed),
            Err(EngineError::InvalidKeyOrNonceLength)
        );
    }
}

#[test]
fn the_cipher_error_becomes_the_engine_error() {
    assert_eq!(sealing_outcome(Ok(vec![1, 2, 3])), Ok(vec![1, 2, 3]));
    assert_eq!(sealing_outcome(Err(aes_gcm::Error)), Err(EngineError::EncryptionFailure));
    assert_eq!(opening_outcome(Ok(vec![4, 5])), Ok(vec![4, 5]));
    assert_eq!(opening_outcome(Ok(vec![])), Ok(vec![]));
    assert_eq!(opening_outcome(Err(aes_gcm::Error)), Err(EngineError::AuthenticationFailure));
}

#[test]
fn errors_are_sorted_into_configuration_and_cipher() {
    assert!(EngineError::UnsupportedAlgorithm.is_configuration());
    assert!(EngineError::KeyRequired.is_configuration());
    assert!(EngineError::InvalidKeyOrNonceLength.is_configuration());
    assert!(EngineError::KeyLengthMismatch.is_configuration());
    assert!(!EngineError::AuthenticationFailure.is_configuration());
    assert!(!EngineError::EncryptionFailure.is_configuration());
}
