use base64::Engine;
use chacha20poly1305::aead::{Aead, KeyInit};
use sha2::Digest;
use vnt_hub::crypto;
use vnt_hub::crypto::CryptoError;
use vnt_hub::flow::Fresh;

fn is_lower_hex(text: &str) -> bool {
    text.chars().all(|c| matches!(c, '0'..='9' | 'a'..='f'))
}

#[test]
fn encrypted_text_decrypts_again() {
    let value = crypto::encrypt_to_base64("master", "context", "secret").unwrap();
    assert_eq!(
        crypto::decrypt_from_base64("master", "context", &value).unwrap(),
        "secret"
    );
    let (ciphertext, nonce) = crypto::encrypt_parts("master", "context", "密码").unwrap();
    assert_eq!(
        crypto::decrypt_parts("master", "context", &ciphertext, &nonce).unwrap(),
        "密码"
    );
}

#[test]
fn encryption_under_a_given_nonce_is_reproducible() {
    let nonce = [7u8; 12];
    let first = crypto::encrypt_to_base64_with("master", "context", "secret", &nonce).unwrap();
    let second = crypto::encrypt_to_base64_with("master", "context", "secret", &nonce).unwrap();
    assert_eq!(first, second);
    let (ciphertext, text) =
        crypto::encrypt_parts_with("master", "context", "secret", &nonce).unwrap();
    assert_eq!(text, "BwcHBwcHBwcHBwcH");
    assert_eq!(first, format!("{}:{}", text, ciphertext));
    assert_ne!(ciphertext, "secret");
}

#[test]
fn stored_form_has_one_colon_and_its_lengths() {
    for (plaintext, length) in [("", 24), ("secret", 32), ("密码", 32)] {
        let value = crypto::encrypt_to_base64("master", "context", plaintext).unwrap();
        let parts: Vec<&str> = value.split(':').collect();
        assert_eq!(parts.len(), 2);
        assert_eq!(parts[0].len(), 16);
        assert_eq!(parts[1].len(), length);
    }
}

#[test]
fn fresh_nonces_differ() {
    let first = crypto::encrypt_to_base64("master", "context", "secret").unwrap();
    let second = crypto::encrypt_to_base64("master", "context", "secret").unwrap();
    assert_ne!(first, second);
}

#[test]
fn another_key_or_context_does_not_decrypt() {
    let value = crypto::encrypt_to_base64("master", "context", "secret").unwrap();
    assert_eq!(
        crypto::decrypt_from_base64("other", "context", &value),
        Err(CryptoError::DecryptFailed)
    );
    assert_eq!(
        crypto::decrypt_from_base64("master", "other", &value),
        Err(CryptoError::DecryptFailed)
    );
}

#[test]
fn every_decryption_error_is_told_apart() {
    assert_eq!(
        crypto::decrypt_from_base64("m", "c", "no separator"),
        Err(CryptoError::InvalidFormat)
    );
    assert_eq!(
        crypto::decrypt_from_base64("m", "c", "BwcHBwcHBwcHBwcH:***"),
        Err(CryptoError::InvalidCiphertext)
    );
    assert_eq!(
        crypto::decrypt_from_base64("m", "c", "***:AAAA"),
        Err(CryptoError::InvalidNonce)
    );
    assert_eq!(
        crypto::decrypt_from_base64("m", "c", "AAAA:AAAA"),
        Err(CryptoError::InvalidNonceLength)
    );
    assert_eq!(
        crypto::decrypt_from_base64("m", "c", "BwcHBwcHBwcHBwcH:AAAA"),
        Err(CryptoError::DecryptFailed)
    );
}

#[test]
fn plaintext_that_is_no_text_is_refused() {
    let key = crypto::derive_key("m", "c");
    let cipher = chacha20poly1305::ChaCha20Poly1305::new(chacha20poly1305::Key::from_slice(&key));
    let nonce = [1u8; 12];
    let sealed = cipher
        .encrypt(
            chacha20poly1305::Nonce::from_slice(&nonce),
            [0xffu8, 0xfe].as_slice(),
        )
        .unwrap();
    let engine = base64::engine::general_purpose::STANDARD;
    assert_eq!(
        crypto::decrypt_parts("m", "c", &engine.encode(sealed), &engine.encode(nonce)),
        Err(CryptoError::InvalidText)
    );
}

#[test]
fn errors_have_messages() {
    assert_eq!(CryptoError::EncryptFailed.message(), "encrypt failed");
    assert_eq!(
        CryptoError::InvalidFormat.message(),
        "invalid encrypted value format"
    );
    assert_eq!(
        CryptoError::InvalidCiphertext.message(),
        "invalid ciphertext base64"
    );
    assert_eq!(CryptoError::InvalidNonce.message(), "invalid nonce base64");
    assert_eq!(
        CryptoError::InvalidNonceLength.message(),
        "invalid nonce length"
    );
    assert_eq!(CryptoError::DecryptFailed.message(), "decrypt failed");
    assert_eq!(
        CryptoError::InvalidText.message(),
        "invalid utf-8 plaintext"
    );
}

#[test]
fn key_is_the_digest_of_master_and_context() {
    let expected: [u8; 32] = sha2::Sha256::digest(b"master:context").into();
    assert_eq!(crypto::derive_key("master", "context"), expected);
}

#[test]
fn hex_is_lower_case_and_in_order() {
    assert_eq!(crypto::hex(&vec![0x00, 0x0f, 0xa0, 0xff]), "000fa0ff");
    assert_eq!(crypto::hex(&vec![]), "");
    let digits = crypto::random_hex(5);
    assert_eq!(digits.len(), 10);
    assert!(is_lower_hex(&digits));
}

#[test]
fn bare_base64_has_no_padding() {
    assert_eq!(crypto::bare_base64(&vec![1]), "AQ");
    assert_eq!(crypto::bare_base64(&vec![1, 2]), "AQI");
    assert_eq!(crypto::bare_base64(&vec![1, 2, 3]), "AQID");
    let secret = crypto::random_base64(32);
    assert_eq!(secret.len(), 43);
    assert!(!secret.contains('='));
}

#[test]
fn room_ids_are_sixteen_hexadecimal_digits() {
    let first = crypto::room_id();
    let second = crypto::room_id();
    assert_eq!(first.len(), 16);
    assert!(is_lower_hex(&first));
    assert_ne!(first, second);
}

#[test]
fn random_bytes_are_drawn_anew() {
    let first = crypto::random_bytes(32);
    assert_eq!(first.len(), 32);
    assert_ne!(first, vec![0u8; 32]);
    assert_ne!(first, crypto::random_bytes(32));
    assert_eq!(
        crypto::nonce_from(&vec![1, 2, 3, 4, 5, 6, 7, 8, 9, 10, 11, 12]),
        [1, 2, 3, 4, 5, 6, 7, 8, 9, 10, 11, 12]
    );
}

#[test]
fn fresh_values_have_their_form() {
    let fresh = Fresh::draw();
    assert!(fresh.now > 1_600_000_000);
    let id: Vec<char> = fresh.id.chars().collect();
    assert_eq!(id.len(), 36);
    assert_eq!(id[14], '4');
    assert!(matches!(id[19], '8' | '9' | 'a' | 'b'));
    for i in [8usize, 13, 18, 23] {
        assert_eq!(id[i], '-');
    }
    assert_eq!(fresh.secret.len(), 43);
    assert_eq!(fresh.room_id.len(), 16);
    let other = Fresh::draw();
    assert_ne!(fresh.id, other.id);
    assert_ne!(fresh.nonce_config, other.nonce_config);
}

#[test]
fn master_key_falls_back_to_the_default() {
    assert_eq!(crypto::master_key(Some("own".to_string())), "own");
    assert_eq!(crypto::master_key(None), "vnt-hub-default-dev-master-key");
}

#[test]
fn push_secret_and_context_name_the_device() {
    assert_eq!(
        crypto::device_push_key_material("device", "token"),
        "device:token"
    );
    assert_eq!(crypto::device_push_context("device", 0), "push:device:0");
    assert_eq!(
        crypto::device_push_context("device", 4294967295),
        "push:device:4294967295"
    );
}
