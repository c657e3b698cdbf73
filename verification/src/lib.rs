//! Credential protection: derivation of a per-installation master key from a
//! secret kept in an OS credential vault, and authenticated encryption of
//! provider API keys at rest.
//!
//! The vault itself is an external collaborator behind the [`vault::SecretStore`]
//! trait; the hash, the AEAD and the base64 framing are outside crates reached
//! through the trusted declarations in [`primitives`]. Everything that decides
//! or computes — read-or-create of the master secret, key derivation, the
//! nonce-prefixed blob layout, and the full error taxonomy of decryption — is
//! verified in [`cipher`].

pub mod cipher;
pub mod errors;
pub mod primitives;
pub mod vault;
