//! Trusted declarations for the outside crates the cipher leans on: sha2 for
//! the key digest, aes-gcm for the AEAD, base64 for the text-safe framing,
//! rand for the master secret and the nonces, and `String::from_utf8` where
//! vstd gives std no specification.
//!
//! Results that would take pages to state (a digest, a sealed blob, a base64
//! text) are given names; each wrapper states over those names only what the
//! outside crate's source and documentation show.

use crate::errors::CryptoError;
use aes_gcm::aead::{Aead, KeyInit};
use base64::Engine;
use rand::Rng;
use sha2::Digest;
use vstd::prelude::*;
use vstd::utf8::{decode_utf8, valid_utf8};

verus! {

/// The SHA-256 digest of a byte sequence.
pub uninterp spec fn sha256_of(bytes: Seq<u8>) -> Seq<u8>;

/// The standard (padded) base64 encoding of a byte sequence.
pub uninterp spec fn base64_of(bytes: Seq<u8>) -> Seq<char>;

/// The bytes a text decodes to under standard base64, if it is valid base64.
pub uninterp spec fn base64_parse(text: Seq<char>) -> Option<Seq<u8>>;

/// What AES-256-GCM produces when sealing `plaintext` under `key` and `nonce`
/// with no associated data: ciphertext followed by the authentication tag.
pub uninterp spec fn seal_of(key: Seq<u8>, nonce: Seq<u8>, plaintext: Seq<u8>) -> Seq<u8>;

/// What opening `sealed` under `key` and `nonce` yields: the plaintext when
/// the tag authenticates, nothing when it does not.
pub uninterp spec fn open_of(key: Seq<u8>, nonce: Seq<u8>, sealed: Seq<u8>) -> Option<Seq<u8>>;

/// A character of the alphabet the master secret is drawn from.
pub open spec fn is_secret_char(c: char) -> bool {
    ||| 48 <= c as u32 <= 57
    ||| 65 <= c as u32 <= 90
    ||| 97 <= c as u32 <= 122
}

/// Relies on rand's `thread_rng` sampling `Alphanumeric`: 64 characters drawn
/// uniformly from a-z, A-Z and 0-9 by a cryptographically secure source.
/// Nothing is promised of which characters come out.
#[verifier::external_body]
pub(crate) fn random_alphanumeric_secret() -> (r: String)
    ensures
        r@.len() == 64,
        forall|i: int| 0 <= i < r@.len() ==> is_secret_char(#[trigger] r@[i]),
{
    rand::thread_rng()
        .sample_iter(&rand::distributions::Alphanumeric)
        .take(64)
        .map(char::from)
        .collect()
}

/// Relies on rand's `thread_rng` and `Rng::fill`: 12 bytes from a
/// cryptographically secure source. Nothing is promised of their values.
#[verifier::external_body]
pub(crate) fn random_nonce() -> (r: Vec<u8>)
    ensures
        r@.len() == 12,
{
    let mut bytes = [0u8; 12];
    rand::thread_rng().fill(&mut bytes);
    bytes.to_vec()
}

/// Relies on sha2's `Sha256::digest`: a 32-byte digest that is a function of
/// the input bytes alone.
#[verifier::external_body]
pub(crate) fn sha256(bytes: &[u8]) -> (r: Vec<u8>)
    ensures
        r@ == sha256_of(bytes@),
        r@.len() == 32,
{
    sha2::Sha256::digest(bytes).to_vec()
}

/// Relies on base64's `STANDARD` engine `encode`: the padded encoding is four
/// characters for every started group of three bytes, and `decode` inverts it.
#[verifier::external_body]
pub(crate) fn base64_encode(bytes: &[u8]) -> (r: String)
    ensures
        r@ == base64_of(bytes@),
        base64_parse(r@) == Some(bytes@),
        r@.len() == 4 * ((bytes@.len() + 2) / 3),
{
    base64::engine::general_purpose::STANDARD.encode(bytes)
}

/// Relies on base64's `STANDARD` engine `decode`: it succeeds exactly on
/// valid standard base64 text and returns the decoded bytes.
#[verifier::external_body]
pub(crate) fn base64_decode(text: &str) -> (r: Result<Vec<u8>, CryptoError>)
    ensures
        r is Ok <==> base64_parse(text@) is Some,
        r is Ok ==> Some(r->Ok_0@) == base64_parse(text@),
        r is Err ==> r->Err_0 == CryptoError::Encoding,
{
    match base64::engine::general_purpose::STANDARD.decode(text) {
        Ok(raw) => Ok(raw),
        Err(_) => Err(CryptoError::Encoding),
    }
}

/// Relies on aes_gcm's `Aes256Gcm` (`new_from_slice` to build the cipher from
/// the key, `Aead::encrypt` to seal): the sealed bytes are a function of key,
/// nonce and plaintext alone, one 16-byte tag longer than the plaintext, and
/// open back to exactly that plaintext under the same key and nonce. With a
/// 32-byte key the only failure the source admits is a plaintext over the
/// GCM message bound of 2^36 bytes, so sealing succeeds exactly below it.
#[verifier::external_body]
pub(crate) fn aead_seal(key: &[u8], nonce: &[u8], plaintext: &[u8]) -> (r: Result<
    Vec<u8>,
    CryptoError,
>)
    requires
        key@.len() == 32,
        nonce@.len() == 12,
    ensures
        r is Ok <==> plaintext@.len() <= 0x10_0000_0000,
        r is Ok ==> r->Ok_0@ == seal_of(key@, nonce@, plaintext@),
        r is Ok ==> r->Ok_0@.len() == plaintext@.len() + 16,
        r is Ok ==> open_of(key@, nonce@, r->Ok_0@) == Some(plaintext@),
        r is Err ==> r->Err_0 == CryptoError::EncryptionFailed,
{
    let cipher = match aes_gcm::Aes256Gcm::new_from_slice(key) {
        Ok(c) => c,
        Err(_) => return Err(CryptoError::EncryptionFailed),
    };
    match cipher.encrypt(aes_gcm::Nonce::from_slice(nonce), plaintext) {
        Ok(sealed) => Ok(sealed),
        Err(_) => Err(CryptoError::EncryptionFailed),
    }
}

/// Relies on aes_gcm's `Aes256Gcm` (`new_from_slice`, `Aead::decrypt`):
/// opening is a function of key, nonce and sealed bytes alone; it succeeds
/// exactly when the authentication tag checks out.
#[verifier::external_body]
pub(crate) fn aead_open(key: &[u8], nonce: &[u8], sealed: &[u8]) -> (r: Result<
    Vec<u8>,
    CryptoError,
>)
    requires
        key@.len() == 32,
        nonce@.len() == 12,
    ensures
        r is Ok <==> open_of(key@, nonce@, sealed@) is Some,
        r is Ok ==> Some(r->Ok_0@) == open_of(key@, nonce@, sealed@),
        r is Err ==> r->Err_0 == CryptoError::Authentication,
{
    let cipher = match aes_gcm::Aes256Gcm::new_from_slice(key) {
        Ok(c) => c,
        Err(_) => return Err(CryptoError::Authentication),
    };
    match cipher.decrypt(aes_gcm::Nonce::from_slice(nonce), sealed) {
        Ok(plaintext) => Ok(plaintext),
        Err(_) => Err(CryptoError::Authentication),
    }
}

/// Relies on `String::from_utf8`, which vstd leaves unspecified: it succeeds
/// exactly on valid UTF-8 input and returns the text those bytes encode,
/// stated through vstd's own UTF-8 model.
#[verifier::external_body]
pub(crate) fn bytes_to_string(bytes: Vec<u8>) -> (r: Result<String, CryptoError>)
    ensures
        r is Ok <==> valid_utf8(bytes@),
        r is Ok ==> r->Ok_0@ == decode_utf8(bytes@),
        r is Err ==> r->Err_0 == CryptoError::Utf8,
{
    match String::from_utf8(bytes) {
        Ok(text) => Ok(text),
        Err(_) => Err(CryptoError::Utf8),
    }
}

} // verus!
