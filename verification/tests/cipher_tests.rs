use aes_gcm::aead::{Aead, KeyInit};
use base64::Engine;
use credential_cipher::cipher::{
    decrypt_api_key, decrypt_with_key, encrypt_api_key, encrypt_with_key, get_master_key,
};
use credential_cipher::errors::CryptoError;
use credential_cipher::vault::{InMemoryVault, SecretModel, SecretStore};
use sha2::Digest;

fn fresh_vault() -> InMemoryVault {
    InMemoryVault::new()
}

#[test]
fn round_trip_ascii() {
    let mut vault = fresh_vault();
    let encrypted = encrypt_api_key(&mut vault, "sk-test-123456").unwrap();
    let decrypted = decrypt_api_key(&vault, &encrypted).unwrap();
    assert_eq!(decrypted, "sk-test-123456");
}

#[test]
fn round_trip_unicode() {
    let mut vault = fresh_vault();
    let plaintext = "clé-secrète-🔑-日本語";
    let encrypted = encrypt_api_key(&mut vault, plaintext).unwrap();
    let decrypted = decrypt_api_key(&vault, &encrypted).unwrap();
    assert_eq!(decrypted, plaintext);
}

#[test]
fn round_trip_embedded_nul() {
    let mut vault = fresh_vault();
    let plaintext = "before\u{0}after";
    let encrypted = encrypt_api_key(&mut vault, plaintext).unwrap();
    let decrypted = decrypt_api_key(&vault, &encrypted).unwrap();
    assert_eq!(decrypted, plaintext);
}

#[test]
fn round_trip_large() {
    let mut vault = fresh_vault();
    let plaintext: String = "abcdefghij".repeat(5000);
    let encrypted = encrypt_api_key(&mut vault, &plaintext).unwrap();
    let decrypted = decrypt_api_key(&vault, &encrypted).unwrap();
    assert_eq!(decrypted, plaintext);
}

#[test]
fn empty_string_identity() {
    let mut vault = fresh_vault();
    assert_eq!(encrypt_api_key(&mut vault, "").unwrap(), "");
    assert_eq!(decrypt_api_key(&vault, "").unwrap(), "");
    // The short-circuits never touch the vault.
    assert!(vault.secret.is_none());
}

#[test]
fn nonce_uniqueness() {
    let mut vault = fresh_vault();
    let first = encrypt_api_key(&mut vault, "same-plaintext").unwrap();
    let second = encrypt_api_key(&mut vault, "same-plaintext").unwrap();
    assert_ne!(first, second);
    // Both still decrypt to the same plaintext.
    assert_eq!(decrypt_api_key(&vault, &first).unwrap(), "same-plaintext");
    assert_eq!(decrypt_api_key(&vault, &second).unwrap(), "same-plaintext");
}

#[test]
fn tamper_detection_every_byte() {
    let mut vault = fresh_vault();
    let encrypted = encrypt_api_key(&mut vault, "tamper-me").unwrap();
    let raw = base64::engine::general_purpose::STANDARD
        .decode(&encrypted)
        .unwrap();
    // Flip each byte of the ciphertext-and-tag region in turn.
    for i in 12..raw.len() {
        let mut corrupted = raw.clone();
        corrupted[i] ^= 0x01;
        let reencoded = base64::engine::general_purpose::STANDARD.encode(&corrupted);
        let result = decrypt_api_key(&vault, &reencoded);
        assert_eq!(result, Err(CryptoError::Authentication));
    }
}

#[test]
fn truncated_blob_fails_with_format_error() {
    // Framing is checked before the vault: the empty vault stays untouched.
    let vault = fresh_vault();
    for len in 1..12 {
        let short = vec![0u8; len];
        let encoded = base64::engine::general_purpose::STANDARD.encode(&short);
        let result = decrypt_api_key(&vault, &encoded);
        assert_eq!(result, Err(CryptoError::TooShort));
    }
    assert!(vault.secret.is_none());
}

#[test]
fn invalid_base64_fails_with_encoding_error() {
    // Malformed input fails the same way whatever the vault holds.
    let vault = fresh_vault();
    assert_eq!(
        decrypt_api_key(&vault, "!!!not-base64!!!"),
        Err(CryptoError::Encoding)
    );
    let mut vault_with_secret = fresh_vault();
    encrypt_api_key(&mut vault_with_secret, "anything").unwrap();
    assert_eq!(
        decrypt_api_key(&vault_with_secret, "!!!not-base64!!!"),
        Err(CryptoError::Encoding)
    );
}

#[test]
fn weak_stored_secret_is_rejected() {
    // A stored master secret below the required entropy is invalid input.
    let mut writer = fresh_vault();
    let encrypted = encrypt_api_key(&mut writer, "sk-sealed").unwrap();

    let mut weak = InMemoryVault::holding("short-secret".to_string());
    assert_eq!(
        encrypt_api_key(&mut weak, "sk-any"),
        Err(CryptoError::WeakSecret)
    );
    assert_eq!(
        decrypt_api_key(&weak, &encrypted),
        Err(CryptoError::WeakSecret)
    );
    // The weak secret is reported, not replaced.
    assert_eq!(weak.secret.as_deref(), Some("short-secret"));
}

#[test]
fn blob_decodes_to_nonce_ciphertext_and_tag() {
    let mut vault = fresh_vault();
    let plaintext = "measure-me";
    let encrypted = encrypt_api_key(&mut vault, plaintext).unwrap();
    let raw = base64::engine::general_purpose::STANDARD
        .decode(&encrypted)
        .unwrap();
    assert_eq!(raw.len(), 12 + plaintext.len() + 16);
}

#[test]
fn master_key_is_stable_across_calls() {
    let mut vault = fresh_vault();
    let first = get_master_key(&mut vault).unwrap();
    let second = get_master_key(&mut vault).unwrap();
    assert_eq!(first, second);
    assert_eq!(first.len(), 32);
}

#[test]
fn first_run_creates_64_char_alphanumeric_secret() {
    let mut vault = fresh_vault();
    assert!(vault.secret.is_none());
    encrypt_api_key(&mut vault, "sk-first-run").unwrap();
    let secret = vault.secret.clone().unwrap();
    assert_eq!(secret.chars().count(), 64);
    assert!(secret.chars().all(|c| c.is_ascii_alphanumeric()));
    // A later encryption reads the same secret instead of replacing it.
    encrypt_api_key(&mut vault, "sk-second-run").unwrap();
    assert_eq!(vault.secret.as_deref(), Some(secret.as_str()));
}

#[test]
fn cross_instance_decryption() {
    // One process run: create the secret and persist a credential.
    let mut first_run = fresh_vault();
    let encrypted = encrypt_api_key(&mut first_run, "sk-durable").unwrap();
    let persisted_secret = first_run.secret.clone().unwrap();
    // A fresh process instance with the preserved secret store.
    let second_run = InMemoryVault::holding(persisted_secret);
    let decrypted = decrypt_api_key(&second_run, &encrypted).unwrap();
    assert_eq!(decrypted, "sk-durable");
}

#[test]
fn decrypt_without_secret_fails_and_creates_nothing() {
    let mut writer = fresh_vault();
    let encrypted = encrypt_api_key(&mut writer, "sk-orphan").unwrap();
    let reader = fresh_vault();
    let result = decrypt_api_key(&reader, &encrypted);
    assert_eq!(result, Err(CryptoError::SecretNotFound));
    assert!(reader.secret.is_none());
}

#[test]
fn wrong_key_fails_authentication() {
    let mut vault_a = fresh_vault();
    let encrypted = encrypt_api_key(&mut vault_a, "sk-owned-by-a").unwrap();
    let vault_b = InMemoryVault::holding("B".repeat(64));
    let result = decrypt_api_key(&vault_b, &encrypted);
    assert_eq!(result, Err(CryptoError::Authentication));
}

#[test]
fn non_utf8_plaintext_fails_with_utf8_error() {
    let secret = "S".repeat(64);
    let vault = InMemoryVault::holding(secret.clone());
    // Seal bytes that are not valid UTF-8 under the vault's derived key.
    let key = sha2::Sha256::digest(secret.as_bytes());
    let cipher = aes_gcm::Aes256Gcm::new_from_slice(&key).unwrap();
    let nonce_bytes = [7u8; 12];
    let nonce = aes_gcm::Nonce::from_slice(&nonce_bytes);
    let sealed = cipher.encrypt(nonce, &[0xffu8, 0xfe, 0x80][..]).unwrap();
    let mut blob = nonce_bytes.to_vec();
    blob.extend(sealed);
    let encoded = base64::engine::general_purpose::STANDARD.encode(&blob);
    let result = decrypt_api_key(&vault, &encoded);
    assert_eq!(result, Err(CryptoError::Utf8));
}

#[test]
fn encrypt_with_key_matches_direct_aes_gcm() {
    // The exact blob formula: base64(nonce || AES-256-GCM(key, nonce, utf8(s))).
    let key: Vec<u8> = (0u8..32).collect();
    let nonce: Vec<u8> = (100u8..112).collect();
    let produced = encrypt_with_key(&key, &nonce, "exact-check").unwrap();

    let cipher = aes_gcm::Aes256Gcm::new_from_slice(&key).unwrap();
    let sealed = cipher
        .encrypt(aes_gcm::Nonce::from_slice(&nonce), "exact-check".as_bytes())
        .unwrap();
    let mut blob = nonce.clone();
    blob.extend(sealed);
    let expected = base64::engine::general_purpose::STANDARD.encode(&blob);
    assert_eq!(produced, expected);

    let recovered = decrypt_with_key(&key, &produced).unwrap();
    assert_eq!(recovered, "exact-check");
}

#[test]
fn derived_key_is_sha256_of_secret() {
    let secret = "k".repeat(64);
    let mut vault = InMemoryVault::holding(secret.clone());
    let key = get_master_key(&mut vault).unwrap();
    let expected = sha2::Sha256::digest(secret.as_bytes()).to_vec();
    assert_eq!(key, expected);
}

#[test]
fn error_messages_are_nonempty() {
    let errors = [
        CryptoError::VaultUnavailable,
        CryptoError::SecretNotFound,
        CryptoError::EncryptionFailed,
        CryptoError::Encoding,
        CryptoError::TooShort,
        CryptoError::Authentication,
        CryptoError::Utf8,
    ];
    for e in errors {
        assert!(!e.message().is_empty());
    }
}

struct UnreachableVault;

impl SecretStore for UnreachableVault {
    // The ghost model of the trait; never run.
    fn contents(&self) -> SecretModel {
        None
    }

    fn get(&self) -> Result<Option<String>, String> {
        Err(String::from("vault offline"))
    }

    fn set(&mut self, _secret: &str) -> Result<(), String> {
        Err(String::from("vault offline"))
    }
}

#[test]
fn unreachable_vault_reports_unavailable() {
    let mut vault = UnreachableVault;
    let enc = encrypt_api_key(&mut vault, "sk-any");
    assert_eq!(enc, Err(CryptoError::VaultUnavailable));
    // A well-framed blob (12 nonce bytes and more) reaches the vault read.
    let framed = base64::engine::general_purpose::STANDARD.encode([0u8; 28]);
    let dec = decrypt_api_key(&vault, &framed);
    assert_eq!(dec, Err(CryptoError::VaultUnavailable));
    // Malformed input fails at framing and never needs the vault.
    let dec_malformed = decrypt_api_key(&vault, "!!!not-base64!!!");
    assert_eq!(dec_malformed, Err(CryptoError::Encoding));
}
