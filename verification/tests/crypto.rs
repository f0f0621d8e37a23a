use chacha20poly1305::aead::{Aead, KeyInit};
use chacha20poly1305::{ChaCha20Poly1305, Nonce};
use rustylock::crypto::utils::{
    decrypt_small_file, encrypt_small_file, gen_key_from_password, scrub, seal_with_nonce,
    VaultError, KEY_LEN, NONCE_LEN, ROUNDS, TAG_LEN,
};

#[test]
fn sealed_vault_opens_to_what_was_sealed() {
    let key = gen_key_from_password("pw".to_string());
    let message = b"id|name|secret\n1|email|hunter2\n".to_vec();
    let blob = encrypt_small_file(&message, &key).unwrap();
    assert_eq!(blob.len(), message.len() + NONCE_LEN + TAG_LEN);
    assert_eq!(decrypt_small_file(&blob, &key), Ok(message));
}

#[test]
fn round_trip_for_several_passphrases_and_messages() {
    for passphrase in ["", "pw", "correct horse battery staple", "pässwörd ✓"] {
        let key = gen_key_from_password(passphrase.to_string());
        for message in [Vec::new(), vec![0u8], vec![7u8; 64], vec![255u8; 1000]] {
            let blob = encrypt_small_file(&message, &key).unwrap();
            assert_eq!(decrypt_small_file(&blob, &key), Ok(message));
        }
    }
}

#[test]
fn other_passphrase_fails_with_crypto_failure() {
    let sealing = gen_key_from_password("pw".to_string());
    let opening = gen_key_from_password("wrong".to_string());
    let blob = encrypt_small_file(b"the vault", &sealing).unwrap();
    assert_eq!(decrypt_small_file(&blob, &opening), Err(VaultError::CryptoFailure));
}

#[test]
fn equal_passphrases_give_equal_keys() {
    let first = gen_key_from_password("pw".to_string());
    let second = gen_key_from_password(String::from("p") + "w");
    assert_eq!(first, second);
    assert_ne!(first, gen_key_from_password("pW".to_string()));
}

#[test]
fn key_is_pbkdf2_of_the_passphrase_with_the_fixed_salt() {
    assert_eq!(KEY_LEN, 32);
    assert_eq!(ROUNDS, 4096);
    let expected: [u8; 32] = [
        0xc5, 0xe4, 0x78, 0xd5, 0x92, 0x88, 0xc8, 0x41, 0xaa, 0x53, 0x0d, 0xb6, 0x84, 0x5c, 0x4c,
        0x8d, 0x96, 0x28, 0x93, 0xa0, 0x01, 0xce, 0x4e, 0x11, 0xa4, 0x96, 0x38, 0x73, 0xaa, 0x98,
        0x13, 0x4a,
    ];
    assert_eq!(gen_key_from_password("password".to_string()), expected);
    assert_ne!(gen_key_from_password(String::new()), [0u8; 32]);
}

#[test]
fn nonce_is_fresh_for_each_sealing() {
    let key = gen_key_from_password("pw".to_string());
    let first = encrypt_small_file(b"same message", &key).unwrap();
    let second = encrypt_small_file(b"same message", &key).unwrap();
    assert_ne!(first[..NONCE_LEN], second[..NONCE_LEN]);
    assert_ne!(first, second);
    assert_eq!(decrypt_small_file(&first, &key), decrypt_small_file(&second, &key));
}

#[test]
fn sealing_with_a_given_nonce_is_the_cipher_behind_that_nonce() {
    let key = gen_key_from_password("pw".to_string());
    let nonce = *b"0123456789ab";
    let blob = seal_with_nonce(b"plaintext message", &key, &nonce).unwrap();
    let cipher = ChaCha20Poly1305::new((&key).into());
    let sealed = cipher.encrypt(Nonce::from_slice(&nonce), b"plaintext message".as_ref()).unwrap();
    assert_eq!(blob[..NONCE_LEN], nonce);
    assert_eq!(blob[NONCE_LEN..], sealed[..]);
    assert_ne!(&blob[NONCE_LEN..NONCE_LEN + 17], b"plaintext message");
    assert_eq!(seal_with_nonce(b"plaintext message", &key, &nonce).unwrap(), blob);
    assert_eq!(decrypt_small_file(&blob, &key), Ok(b"plaintext message".to_vec()));
}

#[test]
fn damaged_or_short_vault_fails_with_crypto_failure() {
    let key = gen_key_from_password("pw".to_string());
    let blob = encrypt_small_file(b"the vault", &key).unwrap();
    for position in [0, NONCE_LEN, blob.len() - 1] {
        let mut damaged = blob.clone();
        damaged[position] ^= 1;
        assert_eq!(decrypt_small_file(&damaged, &key), Err(VaultError::CryptoFailure));
    }
    assert_eq!(decrypt_small_file(&blob[..blob.len() - 1], &key), Err(VaultError::CryptoFailure));
    assert_eq!(decrypt_small_file(&blob[..NONCE_LEN], &key), Err(VaultError::CryptoFailure));
    assert_eq!(decrypt_small_file(&blob[..5], &key), Err(VaultError::CryptoFailure));
    assert_eq!(decrypt_small_file(&[], &key), Err(VaultError::CryptoFailure));
}

#[test]
fn empty_message_seals_to_nonce_and_tag() {
    let key = gen_key_from_password("pw".to_string());
    let blob = encrypt_small_file(&[], &key).unwrap();
    assert_eq!(blob.len(), NONCE_LEN + TAG_LEN);
    assert_eq!(decrypt_small_file(&blob, &key), Ok(Vec::new()));
}

#[test]
fn passphrases_that_differ_by_a_trailing_nul_share_their_key() {
    let sealing = gen_key_from_password("pw".to_string());
    let opening = gen_key_from_password("pw\0".to_string());
    assert_eq!(sealing, opening);
    let blob = encrypt_small_file(b"the vault", &sealing).unwrap();
    assert_eq!(decrypt_small_file(&blob, &opening), Ok(b"the vault".to_vec()));
}

#[test]
fn scrubbed_key_is_all_zero() {
    let mut key = gen_key_from_password("pw".to_string());
    assert_ne!(key, [0u8; 32]);
    scrub(&mut key);
    assert_eq!(key, [0u8; 32]);
}
