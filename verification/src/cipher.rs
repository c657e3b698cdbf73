//! The credential cipher: master-key derivation and authenticated
//! encryption/decryption of one API key string at a time.
//!
//! A sealed credential is the text-safe encoding of `nonce || ciphertext-tag`;
//! [`decrypt_outcome`] pins down, for every input, exactly what decryption
//! returns, errors included, and the contract of encryption states that its
//! output decrypts back to the plaintext under the same key.

use crate::errors::CryptoError;
use crate::primitives::{
    aead_open, aead_seal, base64_decode, base64_encode, base64_of, base64_parse, bytes_to_string,
    is_secret_char, open_of, random_alphanumeric_secret, random_nonce, seal_of, sha256, sha256_of,
};
use crate::vault::SecretStore;
use vstd::prelude::*;
use vstd::slice::{slice_subrange, slice_to_vec};
use vstd::string::StrSliceExecFns;
use vstd::utf8::{decode_utf8, encode_utf8, valid_utf8};

verus! {

/// The number of nonce bytes that prefix every sealed credential.
pub const NONCE_LEN: usize = 12;

/// The length every master secret is created with, and the least length a
/// stored one is accepted at: a shorter secret is below the required entropy
/// and must fail, never be accepted.
pub const SECRET_LEN: usize = 64;

/// The most plaintext bytes one AEAD seal accepts: the GCM message bound.
pub const SEAL_MAX_BYTES: u64 = 0x10_0000_0000;

/// The 256-bit master key a secret derives to: the SHA-256 digest of the
/// secret's UTF-8 bytes. The hash is deliberately unsalted and fast; the
/// secret itself supplies the entropy.
pub open spec fn key_of_secret(secret: Seq<char>) -> Seq<u8> {
    sha256_of(encode_utf8(secret))
}

/// One successful key derivation, as a relation between the vault's contents
/// before and after and the key handed back: afterwards the vault holds a
/// secret, the key is derived from that secret, and a secret that already
/// existed is left exactly as it was.
pub open spec fn derives_key(
    pre: Option<Seq<char>>,
    post: Option<Seq<char>>,
    key: Seq<u8>,
) -> bool {
    &&& post is Some
    &&& key == key_of_secret(post->0)
    &&& pre is Some ==> post == pre
}

/// Master-secret stability: once a derivation has run, any later derivation
/// finds the vault unchanged and hands back the same master key, so
/// ciphertexts from one remain decryptable by the other.
pub proof fn lemma_master_key_stable(
    c0: Option<Seq<char>>,
    c1: Option<Seq<char>>,
    c2: Option<Seq<char>>,
    k1: Seq<u8>,
    k2: Seq<u8>,
)
    requires
        derives_key(c0, c1, k1),
        derives_key(c1, c2, k2),
    ensures
        c2 == c1,
        k2 == k1,
{
}

/// A master secret exactly as first-run creation produces it: 64 characters
/// from the alphanumeric alphabet.
pub open spec fn created_secret(s: Seq<char>) -> bool {
    s.len() == SECRET_LEN && forall|i: int| 0 <= i < s.len() ==> is_secret_char(#[trigger] s[i])
}

/// The raw bytes of one sealed credential: the nonce followed by the AEAD
/// output for `plaintext` under `key` and that nonce.
pub open spec fn sealed_blob(key: Seq<u8>, nonce: Seq<u8>, plaintext: Seq<char>) -> Seq<u8> {
    nonce + seal_of(key, nonce, encode_utf8(plaintext))
}

/// `encoded` has the structural shape of an encrypted credential: it decodes
/// as base64 to some nonce-prefixed sealing of `plaintext` under `key`.
pub open spec fn is_sealed_credential(
    key: Seq<u8>,
    plaintext: Seq<char>,
    encoded: Seq<char>,
) -> bool {
    exists|nonce: Seq<u8>|
        nonce.len() == NONCE_LEN && base64_parse(encoded) == Some(
            #[trigger] sealed_blob(key, nonce, plaintext),
        )
}

/// Two encryptions of the same plaintext under the same key that drew
/// distinct nonces yield distinct encoded credentials: the blobs already
/// differ in their first 12 decoded bytes, and base64 decoding tells the
/// encodings apart.
pub proof fn lemma_distinct_nonces_distinct_credentials(
    key: Seq<u8>,
    nonce1: Seq<u8>,
    nonce2: Seq<u8>,
    plaintext: Seq<char>,
    enc1: Seq<char>,
    enc2: Seq<char>,
)
    requires
        nonce1.len() == NONCE_LEN,
        nonce2.len() == NONCE_LEN,
        nonce1 != nonce2,
        base64_parse(enc1) == Some(sealed_blob(key, nonce1, plaintext)),
        base64_parse(enc2) == Some(sealed_blob(key, nonce2, plaintext)),
    ensures
        enc1 != enc2,
{
    if enc1 == enc2 {
        let blob1 = sealed_blob(key, nonce1, plaintext);
        let blob2 = sealed_blob(key, nonce2, plaintext);
        assert(blob1 == blob2);
        assert(nonce1 =~= blob1.subrange(0, NONCE_LEN as int));
        assert(nonce2 =~= blob2.subrange(0, NONCE_LEN as int));
    }
}

/// What opening already-decoded blob bytes under `key` yields once the
/// framing checks have passed: the nonce is split off, the remainder must
/// authenticate under the AEAD, and the recovered bytes must be text.
pub open spec fn open_outcome(key: Seq<u8>, raw: Seq<u8>) -> Result<Seq<char>, CryptoError>
    recommends
        raw.len() >= NONCE_LEN,
{
    match open_of(
        key,
        raw.subrange(0, NONCE_LEN as int),
        raw.subrange(NONCE_LEN as int, raw.len() as int),
    ) {
        None => Err(CryptoError::Authentication),
        Some(plain) => if valid_utf8(plain) {
            Ok(decode_utf8(plain))
        } else {
            Err(CryptoError::Utf8)
        },
    }
}

/// The framing of an encoded credential is sound: it decodes as base64 to at
/// least one nonce of bytes. Framing is a property of the text alone, checked
/// before any key is derived.
pub open spec fn well_framed(encoded: Seq<char>) -> bool {
    base64_parse(encoded) is Some && base64_parse(encoded)->0.len() >= NONCE_LEN
}

/// What decrypting `encoded` under `key` yields — the exact outcome for every
/// input, errors included. An empty input is returned unchanged; otherwise
/// the text must decode as base64, hold at least one nonce, authenticate
/// under the AEAD, and open to valid UTF-8.
pub open spec fn decrypt_outcome(key: Seq<u8>, encoded: Seq<char>) -> Result<
    Seq<char>,
    CryptoError,
> {
    if encoded.len() == 0 {
        Ok(Seq::empty())
    } else {
        match base64_parse(encoded) {
            None => Err(CryptoError::Encoding),
            Some(raw) => if raw.len() < NONCE_LEN {
                Err(CryptoError::TooShort)
            } else {
                open_outcome(key, raw)
            },
        }
    }
}

/// An executable result, lifted to the spec level for comparison with
/// [`decrypt_outcome`].
pub open spec fn result_view(r: Result<String, CryptoError>) -> Result<Seq<char>, CryptoError> {
    match r {
        Ok(s) => Ok(s@),
        Err(e) => Err(e),
    }
}

/// Read the master secret from the vault, creating it on first use: the
/// read-or-create step of key derivation. Creation draws 64 alphanumeric
/// characters from a secure random source and persists them before returning;
/// a secret that already exists is returned as it is, untouched — unless it
/// is shorter than the required entropy, which is invalid input and fails.
/// Failure of any kind leaves the vault exactly as it was.
pub fn get_or_create_master_password<S: SecretStore>(store: &mut S) -> (r: Result<
    String,
    CryptoError,
>)
    ensures
        r is Ok ==> final(store).contents() == Some(r->Ok_0@) && r->Ok_0@.len() >= SECRET_LEN,
        r is Ok && old(store).contents() is Some ==> r->Ok_0@ == old(store).contents()->0,
        r is Ok && old(store).contents() is None ==> created_secret(r->Ok_0@),
        r is Err ==> r->Err_0 == CryptoError::VaultUnavailable || r->Err_0
            == CryptoError::WeakSecret,
        r is Err ==> final(store).contents() == old(store).contents(),
        r is Err && r->Err_0 == CryptoError::WeakSecret ==> old(store).contents() is Some
            && old(store).contents()->0.len() < SECRET_LEN,
        old(store).contents() is Some && old(store).contents()->0.len() < SECRET_LEN ==> !(r
            is Ok),
        old(store).contents() is Some ==> final(store).contents() == old(store).contents(),
{
    match store.get() {
        Ok(Some(password)) => {
            if password.as_str().unicode_len() < SECRET_LEN {
                Err(CryptoError::WeakSecret)
            } else {
                Ok(password)
            }
        },
        Ok(None) => {
            let password = random_alphanumeric_secret();
            match store.set(password.as_str()) {
                Ok(_) => Ok(password),
                Err(_) => Err(CryptoError::VaultUnavailable),
            }
        },
        Err(_) => Err(CryptoError::VaultUnavailable),
    }
}

/// Derive the master key: read or create the master secret, then hash its
/// UTF-8 bytes down to 32 key bytes. Idempotent in its output — on a vault
/// that already holds a secret, every call returns the same key. A stored
/// secret below the required entropy fails instead of being hashed.
pub fn get_master_key<S: SecretStore>(store: &mut S) -> (r: Result<Vec<u8>, CryptoError>)
    ensures
        r is Ok ==> r->Ok_0@.len() == 32,
        r is Ok ==> derives_key(old(store).contents(), final(store).contents(), r->Ok_0@),
        r is Ok ==> final(store).contents()->0.len() >= SECRET_LEN,
        r is Ok && old(store).contents() is None ==> created_secret(final(store).contents()->0),
        r is Err ==> r->Err_0 == CryptoError::VaultUnavailable || r->Err_0
            == CryptoError::WeakSecret,
        r is Err ==> final(store).contents() == old(store).contents(),
        r is Err && r->Err_0 == CryptoError::WeakSecret ==> old(store).contents() is Some
            && old(store).contents()->0.len() < SECRET_LEN,
        old(store).contents() is Some && old(store).contents()->0.len() < SECRET_LEN ==> !(r
            is Ok),
        old(store).contents() is Some ==> final(store).contents() == old(store).contents(),
{
    let password = get_or_create_master_password(store)?;
    let digest = sha256(password.as_str().as_bytes());
    Ok(digest)
}

/// Seal `plaintext` under `key` with the fresh `nonce`, producing the encoded
/// blob `base64(nonce || ciphertext-tag)`. Success is owed for every
/// plaintext up to the AEAD's message bound; the contract pins the blob's
/// exact shape and decoded length and carries the round trip: whatever comes
/// out decrypts back to exactly `plaintext` under the same key.
pub fn encrypt_with_key(key: &Vec<u8>, nonce: &Vec<u8>, plaintext: &str) -> (r: Result<
    String,
    CryptoError,
>)
    requires
        key@.len() == 32,
        nonce@.len() == NONCE_LEN,
    ensures
        r is Ok <==> encode_utf8(plaintext@).len() <= SEAL_MAX_BYTES,
        r is Ok ==> r->Ok_0@ == base64_of(sealed_blob(key@, nonce@, plaintext@)),
        r is Ok ==> base64_parse(r->Ok_0@) == Some(sealed_blob(key@, nonce@, plaintext@)),
        r is Ok ==> sealed_blob(key@, nonce@, plaintext@).len() == NONCE_LEN + encode_utf8(
            plaintext@,
        ).len() + 16,
        r is Ok ==> r->Ok_0@.len() > 0,
        r is Ok ==> decrypt_outcome(key@, r->Ok_0@) == Ok::<Seq<char>, CryptoError>(plaintext@),
        r is Err ==> r->Err_0 == CryptoError::EncryptionFailed,
{
    let sealed = aead_seal(key.as_slice(), nonce.as_slice(), plaintext.as_bytes())?;
    let mut combined = slice_to_vec(nonce.as_slice());
    let mut tail = sealed;
    combined.append(&mut tail);
    let encoded = base64_encode(combined.as_slice());
    proof {
        let raw = combined@;
        assert(raw.subrange(0, NONCE_LEN as int) =~= nonce@);
        assert(raw.subrange(NONCE_LEN as int, raw.len() as int) =~= seal_of(
            key@,
            nonce@,
            encode_utf8(plaintext@),
        ));
        vstd::utf8::encode_utf8_decode_utf8(plaintext@);
        vstd::utf8::encode_utf8_valid_utf8(plaintext@);
    }
    Ok(encoded)
}

/// Decrypt an encoded credential under an already-derived key. The result is
/// exactly [`decrypt_outcome`] of the inputs: the empty string comes back
/// unchanged, bad base64 fails as an encoding error, fewer than 12 decoded
/// bytes as a format error, a failed tag check as an authentication error,
/// non-text plaintext as a UTF-8 error, and everything else recovers the
/// original text.
pub fn decrypt_with_key(key: &Vec<u8>, encoded: &str) -> (r: Result<String, CryptoError>)
    requires
        key@.len() == 32,
    ensures
        result_view(r) == decrypt_outcome(key@, encoded@),
{
    if encoded.is_empty() {
        return Ok(String::new());
    }
    let raw = base64_decode(encoded)?;
    if raw.len() < NONCE_LEN {
        return Err(CryptoError::TooShort);
    }
    open_credential(key, &raw)
}

/// Open an already-decoded credential blob under an already-derived key: the
/// step that remains after framing and key derivation. The result is exactly
/// [`open_outcome`] of the inputs.
pub fn open_credential(key: &Vec<u8>, raw: &Vec<u8>) -> (r: Result<String, CryptoError>)
    requires
        key@.len() == 32,
        raw@.len() >= NONCE_LEN,
    ensures
        result_view(r) == open_outcome(key@, raw@),
{
    let nonce_part = slice_subrange(raw.as_slice(), 0, NONCE_LEN);
    let sealed_part = slice_subrange(raw.as_slice(), NONCE_LEN, raw.len());
    let plain = aead_open(key.as_slice(), nonce_part, sealed_part)?;
    bytes_to_string(plain)
}

/// Encrypt one provider API key for storage at rest. The empty string is
/// returned unchanged — no secret, nothing to protect and no vault touched.
/// Otherwise the master key is derived (creating the master secret on a first
/// run), a fresh random nonce is drawn, and the result is the encoded blob —
/// one that decrypts back to `api_key` under the key derived from whatever
/// secret the vault now holds, in this process or any later one.
pub fn encrypt_api_key<S: SecretStore>(store: &mut S, api_key: &str) -> (r: Result<
    String,
    CryptoError,
>)
    ensures
        api_key@.len() == 0 ==> r is Ok && r->Ok_0@ == Seq::<char>::empty() && *final(store)
            == *old(store),
        r is Ok && api_key@.len() > 0 ==> final(store).contents() is Some && r->Ok_0@.len() > 0
            && decrypt_outcome(key_of_secret(final(store).contents()->0), r->Ok_0@)
            == Ok::<Seq<char>, CryptoError>(api_key@),
        r is Ok && api_key@.len() > 0 ==> is_sealed_credential(
            key_of_secret(final(store).contents()->0),
            api_key@,
            r->Ok_0@,
        ) && base64_parse(r->Ok_0@)->0.len() == NONCE_LEN + encode_utf8(api_key@).len() + 16,
        r is Ok && api_key@.len() > 0 ==> final(store).contents()->0.len() >= SECRET_LEN && (old(
            store,
        ).contents() is None ==> created_secret(final(store).contents()->0)),
        r is Err ==> r->Err_0 == CryptoError::VaultUnavailable || r->Err_0
            == CryptoError::WeakSecret || r->Err_0 == CryptoError::EncryptionFailed,
        r is Err && r->Err_0 == CryptoError::EncryptionFailed ==> encode_utf8(api_key@).len()
            > SEAL_MAX_BYTES,
        r is Err && r->Err_0 == CryptoError::WeakSecret ==> old(store).contents() is Some && old(
            store,
        ).contents()->0.len() < SECRET_LEN,
        api_key@.len() > 0 && old(store).contents() is Some && old(store).contents()->0.len()
            < SECRET_LEN ==> !(r is Ok),
        old(store).contents() is Some ==> final(store).contents() == old(store).contents(),
{
    if api_key.is_empty() {
        return Ok(String::new());
    }
    let key = get_master_key(store)?;
    let nonce = random_nonce();
    let sealed = encrypt_with_key(&key, &nonce, api_key);
    proof {
        if sealed is Ok {
            assert(base64_parse(sealed->Ok_0@) == Some(sealed_blob(key@, nonce@, api_key@)));
        }
    }
    sealed
}

/// Decrypt one stored credential back to the provider API key. The empty
/// string is returned unchanged, symmetric with encryption's short-circuit.
/// Framing comes first: base64 decoding and the length check run before the
/// vault is consulted, so malformed input fails the same way whatever the
/// vault holds. Decryption never creates a master secret: a vault with no
/// secret is a consistency failure, since nothing could have been sealed
/// without one, and a stored secret below the required entropy fails instead
/// of being hashed. Unless the vault itself was unreachable, the result is
/// exactly [`decrypt_outcome`] under the key the stored secret derives to.
pub fn decrypt_api_key<S: SecretStore>(store: &S, encrypted: &str) -> (r: Result<
    String,
    CryptoError,
>)
    ensures
        encrypted@.len() == 0 ==> r is Ok && r->Ok_0@ == Seq::<char>::empty(),
        encrypted@.len() > 0 && base64_parse(encrypted@) is None ==> r is Err && r->Err_0
            == CryptoError::Encoding,
        encrypted@.len() > 0 && base64_parse(encrypted@) is Some && base64_parse(
            encrypted@,
        )->0.len() < NONCE_LEN ==> r is Err && r->Err_0 == CryptoError::TooShort,
        encrypted@.len() > 0 && well_framed(encrypted@) && store.contents() is None && !(r is Err
            && r->Err_0 == CryptoError::VaultUnavailable) ==> r is Err && r->Err_0
            == CryptoError::SecretNotFound,
        encrypted@.len() > 0 && well_framed(encrypted@) && store.contents() is Some
            && store.contents()->0.len() < SECRET_LEN && !(r is Err && r->Err_0
            == CryptoError::VaultUnavailable) ==> r is Err && r->Err_0 == CryptoError::WeakSecret,
        encrypted@.len() > 0 && well_framed(encrypted@) && store.contents() is Some
            && store.contents()->0.len() >= SECRET_LEN && !(r is Err && r->Err_0
            == CryptoError::VaultUnavailable) ==> result_view(r) == decrypt_outcome(
            key_of_secret(store.contents()->0),
            encrypted@,
        ),
{
    if encrypted.is_empty() {
        return Ok(String::new());
    }
    let raw = base64_decode(encrypted)?;
    if raw.len() < NONCE_LEN {
        return Err(CryptoError::TooShort);
    }
    let password = match store.get() {
        Ok(Some(password)) => password,
        Ok(None) => {
            return Err(CryptoError::SecretNotFound);
        },
        Err(_) => {
            return Err(CryptoError::VaultUnavailable);
        },
    };
    if password.as_str().unicode_len() < SECRET_LEN {
        return Err(CryptoError::WeakSecret);
    }
    let key = sha256(password.as_str().as_bytes());
    open_credential(&key, &raw)
}

} // verus!
