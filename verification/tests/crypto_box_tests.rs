use crypto_box::aead::Aead;
use msgapi::crypto::{decrypt, encrypt, encrypt_then_decrypt_derived, EncryptedMessage};
use msgapi::errors::ApiError;

fn public_key_bytes(sk: &[u8; 32]) -> [u8; 32] {
    crypto_box::SecretKey::from_bytes(*sk).public_key().to_bytes()
}

#[test]
fn test_encrypt_decrypt_round_trip() {
    let sk_a = [7u8; 32];
    let sk_b = [42u8; 32];
    let pk_a = public_key_bytes(&sk_a);
    let pk_b = public_key_bytes(&sk_b);
    let nonce = [3u8; 24];
    let plaintext = b"hello, secret world";

    let message = encrypt(plaintext, &sk_a, &pk_b, nonce);
    assert_eq!(message.nonce, nonce);
    assert_eq!(message.ciphertext.len(), plaintext.len() + 16);
    // The ciphertext is not the plaintext handed back.
    assert_ne!(&message.ciphertext[..plaintext.len()], &plaintext[..]);

    let recovered = decrypt(&message, &sk_b, &pk_a).unwrap();
    assert_eq!(recovered, plaintext);
}

#[test]
fn test_round_trip_derived() {
    let out = encrypt_then_decrypt_derived(b"payload", &[1u8; 32], &[2u8; 32], [9u8; 24]);
    assert_eq!(out, b"payload");
}

#[test]
fn test_decrypt_wrong_key_fails() {
    let sk_a = [7u8; 32];
    let sk_b = [42u8; 32];
    let sk_c = [99u8; 32];
    let pk_a = public_key_bytes(&sk_a);
    let pk_b = public_key_bytes(&sk_b);
    let nonce = [5u8; 24];
    let message = encrypt(b"attack at dawn", &sk_a, &pk_b, nonce);

    // Wrong recipient secret key.
    assert_eq!(
        decrypt(&message, &sk_c, &pk_a).unwrap_err(),
        ApiError::DecryptionFailed
    );
    // Wrong sender public key.
    let pk_c = public_key_bytes(&sk_c);
    assert_eq!(
        decrypt(&message, &sk_b, &pk_c).unwrap_err(),
        ApiError::DecryptionFailed
    );
}

#[test]
fn test_decrypt_tampered_ciphertext_fails() {
    let sk_a = [7u8; 32];
    let sk_b = [42u8; 32];
    let pk_a = public_key_bytes(&sk_a);
    let pk_b = public_key_bytes(&sk_b);
    let nonce = [5u8; 24];
    let message = encrypt(b"attack at dawn", &sk_a, &pk_b, nonce);

    for i in 0..message.ciphertext.len() {
        let mut corrupted = message.ciphertext.clone();
        corrupted[i] ^= 0x01;
        let tampered = EncryptedMessage {
            ciphertext: corrupted,
            nonce: message.nonce,
        };
        assert_eq!(
            decrypt(&tampered, &sk_b, &pk_a).unwrap_err(),
            ApiError::DecryptionFailed
        );
    }
}

#[test]
fn test_decrypt_wrong_nonce_fails() {
    let sk_a = [7u8; 32];
    let sk_b = [42u8; 32];
    let pk_a = public_key_bytes(&sk_a);
    let pk_b = public_key_bytes(&sk_b);
    let message = encrypt(b"attack at dawn", &sk_a, &pk_b, [5u8; 24]);
    let renonced = EncryptedMessage {
        ciphertext: message.ciphertext.clone(),
        nonce: [6u8; 24],
    };
    assert_eq!(
        decrypt(&renonced, &sk_b, &pk_a).unwrap_err(),
        ApiError::DecryptionFailed
    );
}

#[test]
fn test_encrypt_matches_reference_box() {
    // The library's ciphertext is exactly what crypto_box produces.
    let sk_a = [7u8; 32];
    let sk_b = [42u8; 32];
    let pk_b = public_key_bytes(&sk_b);
    let nonce = [3u8; 24];
    let plaintext = b"cross-check";
    let message = encrypt(plaintext, &sk_a, &pk_b, nonce);

    let sbox = crypto_box::SalsaBox::new(
        &crypto_box::PublicKey::from_bytes(pk_b),
        &crypto_box::SecretKey::from_bytes(sk_a),
    );
    let reference = sbox
        .encrypt(&crypto_box::Nonce::from(nonce), plaintext.as_ref())
        .unwrap();
    assert_eq!(message.ciphertext, reference);
}
