use vstd::prelude::*;

verus! {

/// Everything that can go wrong while protecting or recovering a credential.
///
/// Decryption failures are deterministic and are reported to the caller at
/// once, never retried; nothing is swallowed beyond the documented
/// empty-string short-circuits of the cipher itself.
#[derive(Clone, Copy, Debug, PartialEq, Eq, Structural)]
pub enum CryptoError {
    /// The OS credential vault could not be reached, or failed with anything
    /// other than "no such entry".
    VaultUnavailable,
    /// No master secret exists in the vault. Expected only transiently on a
    /// first run; during decryption it is a consistency problem, since no
    /// credential could have been sealed without a master secret.
    SecretNotFound,
    /// The vault holds a master secret shorter than the required entropy.
    /// Such a secret is invalid input and must fail, never be accepted.
    WeakSecret,
    /// The AEAD seal operation itself reported a failure.
    EncryptionFailed,
    /// The encoded credential is not valid base64.
    Encoding,
    /// The credential decodes to fewer bytes than one nonce.
    TooShort,
    /// The AEAD tag check failed: tampered or corrupted data, or a wrong key.
    Authentication,
    /// The recovered bytes are not valid UTF-8 text.
    Utf8,
}

impl CryptoError {
    /// The human-readable form in which failures cross the caller boundary.
    pub fn message(&self) -> &'static str {
        match self {
            CryptoError::VaultUnavailable => "secret store unavailable",
            CryptoError::SecretNotFound => "master secret not found",
            CryptoError::WeakSecret => "master secret below required entropy",
            CryptoError::EncryptionFailed => "encryption failed",
            CryptoError::Encoding => "base64 decode failed",
            CryptoError::TooShort => "invalid encrypted data",
            CryptoError::Authentication => "decryption failed",
            CryptoError::Utf8 => "utf-8 decode failed",
        }
    }
}

} // verus!
