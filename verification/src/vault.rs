//! The secret store boundary: a single process-wide master secret kept in an
//! external credential vault under a fixed service/account identifier.
//!
//! The vault is injected as an explicit collaborator so that the cipher can
//! run against an OS keychain in the application and against [`InMemoryVault`]
//! in tests. Implementations promise only how a successful call relates to
//! the vault's contents; they stay free to fail at any time, as an
//! unreachable OS vault does.

use vstd::prelude::*;

verus! {

/// The ghost model of a store: the secret it currently holds, if any.
/// Named so that unverified implementations outside the library can write
/// their (never-run) `contents` stub without spelling out ghost types.
pub type SecretModel = Option<Seq<char>>;

/// An external store holding at most one master secret.
pub trait SecretStore {
    /// The secret the store currently holds, if any.
    spec fn contents(&self) -> SecretModel;

    /// Read the stored secret. `Ok(None)` is the expected first-run result,
    /// "no secret exists yet", not a failure; `Err` carries the store's own
    /// description of why it could not be reached.
    fn get(&self) -> (r: Result<Option<String>, String>)
        ensures
            r is Ok ==> (r->Ok_0 is Some <==> self.contents() is Some),
            r is Ok && r->Ok_0 is Some ==> r->Ok_0->0@ == self.contents()->0,
    ;

    /// Persist `secret` as the store's single entry. On failure the store is
    /// left as it was.
    fn set(&mut self, secret: &str) -> (r: Result<(), String>)
        ensures
            r is Ok ==> final(self).contents() == Some(secret@),
            r is Err ==> final(self).contents() == old(self).contents(),
    ;
}

/// A secret store kept in memory: the substitutable fake the design asks for,
/// and the reference implementation of the [`SecretStore`] contract.
pub struct InMemoryVault {
    /// The single entry, or nothing before first-run creation.
    pub secret: Option<String>,
}

impl InMemoryVault {
    /// An empty vault: the state of a fresh installation.
    pub fn new() -> (r: InMemoryVault)
        ensures
            r.contents() is None,
    {
        InMemoryVault { secret: None }
    }

    /// A vault already holding `secret`, as after an earlier run created it.
    pub fn holding(secret: String) -> (r: InMemoryVault)
        ensures
            r.contents() == Some(secret@),
    {
        InMemoryVault { secret: Some(secret) }
    }
}

impl SecretStore for InMemoryVault {
    open spec fn contents(&self) -> SecretModel {
        match self.secret {
            Some(s) => Some(s@),
            None => None,
        }
    }

    fn get(&self) -> (r: Result<Option<String>, String>) {
        match &self.secret {
            Some(s) => Ok(Some(s.clone())),
            None => Ok(None),
        }
    }

    fn set(&mut self, secret: &str) -> (r: Result<(), String>) {
        self.secret = Some(secret.to_owned());
        Ok(())
    }
}

} // verus!
