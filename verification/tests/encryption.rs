use vaultmaid::cache::encryption::{decrypt, encrypt, encrypt_with_nonce, EncryptionError};

fn key_a() -> [u8; 32] {
    [7u8; 32]
}

fn key_b() -> [u8; 32] {
    [9u8; 32]
}

#[test]
fn round_trip_recovers_plaintext() {
    let plaintext = b"{\"folders\": [], \"items\": []}".to_vec();
    let (nonce, ciphertext) = encrypt(&plaintext, &key_a()).expect("encrypt");
    let recovered = decrypt(&nonce, &ciphertext, &key_a()).expect("decrypt");
    assert_eq!(recovered, plaintext);
}

#[test]
fn wrong_key_fails_to_decrypt() {
    let plaintext = b"secret vault".to_vec();
    let (nonce, ciphertext) = encrypt(&plaintext, &key_a()).expect("encrypt");
    let error = decrypt(&nonce, &ciphertext, &key_b()).expect_err("wrong key");
    assert!(matches!(error, EncryptionError::Decrypt));
}

#[test]
fn tampered_ciphertext_fails_to_decrypt() {
    let plaintext = b"secret vault".to_vec();
    let (nonce, mut ciphertext) = encrypt(&plaintext, &key_a()).expect("encrypt");
    ciphertext[0] ^= 0xFF;
    let error = decrypt(&nonce, &ciphertext, &key_a()).expect_err("tampered");
    assert!(matches!(error, EncryptionError::Decrypt));
}

#[test]
fn each_encryption_uses_a_fresh_nonce() {
    let plaintext = b"same input".to_vec();
    let (nonce1, ciphertext1) = encrypt(&plaintext, &key_a()).expect("encrypt 1");
    let (nonce2, ciphertext2) = encrypt(&plaintext, &key_a()).expect("encrypt 2");
    assert_ne!(nonce1, nonce2, "random nonce must not repeat");
    assert_ne!(ciphertext1, ciphertext2);
}

#[test]
fn a_given_nonce_gives_the_standard_ciphertext() {
    let nonce: [u8; 12] = [0, 1, 2, 3, 4, 5, 6, 7, 8, 9, 10, 11];
    let (used, ciphertext) =
        encrypt_with_nonce(b"secret vault", &key_a(), nonce).expect("encrypt");
    assert_eq!(used, nonce);
    assert_eq!(
        ciphertext,
        vec![
            0x6b, 0xe4, 0x8a, 0x02, 0x78, 0x7d, 0xf9, 0x3f, 0x16, 0xc7, 0x89, 0xe8, 0x12, 0xc1,
            0x11, 0x12, 0x41, 0x02, 0xd4, 0xfd, 0xe1, 0xf6, 0xf9, 0x02, 0x26, 0x6c, 0x27, 0x9f
        ]
    );
    assert_eq!(
        decrypt(&nonce, &ciphertext, &key_a()).expect("decrypt"),
        b"secret vault".to_vec()
    );
}

#[test]
fn empty_plaintext_is_a_tag() {
    let (nonce, ciphertext) = encrypt_with_nonce(b"", &[0; 32], [0; 12]).expect("encrypt");
    assert_eq!(
        ciphertext,
        vec![
            0x53, 0x0f, 0x8a, 0xfb, 0xc7, 0x45, 0x36, 0xb9, 0xa9, 0x63, 0xb4, 0xf1, 0xc4, 0xcb,
            0x73, 0x8b
        ]
    );
    assert_eq!(decrypt(&nonce, &ciphertext, &[0; 32]), Ok(Vec::new()));
}

#[test]
fn a_nonce_of_another_width_is_refused() {
    for len in [0usize, 11, 13] {
        let error = decrypt(&vec![0; len], b"anything", &key_a()).expect_err("nonce");
        assert_eq!(error, EncryptionError::Nonce(len));
        assert_eq!(
            error.message(),
            format!("nonce has {len} bytes, expected 12")
        );
    }
}

#[test]
fn a_truncated_ciphertext_is_refused() {
    assert_eq!(
        decrypt(&[0; 12], &[0; 15], &key_a()),
        Err(EncryptionError::Decrypt)
    );
    assert_eq!(
        decrypt(&[0; 12], &[], &key_a()),
        Err(EncryptionError::Decrypt)
    );
}

#[test]
fn encryption_errors_have_messages() {
    assert_eq!(
        EncryptionError::Encrypt.message(),
        "could not encrypt snapshot"
    );
    assert_eq!(
        EncryptionError::Decrypt.message(),
        "could not decrypt snapshot: wrong key or corrupted data"
    );
}
