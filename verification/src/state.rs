//! The process-wide cache for the root extended public key.

use vstd::prelude::*;

use crate::ecdsa::{is_valid_sec1, EcdsaPublicKey};
use crate::errors::{CustodyError, WalletError};

verus! {

/// Holds at most one root extended public key for the life of the process:
/// empty until the first successful fetch from the custody service, then
/// written once and immutable. A failed fetch caches nothing, so a later
/// call may attempt the fetch again.
pub struct RootKeyCache {
    ecdsa_public_key: Option<EcdsaPublicKey>,
}

impl RootKeyCache {
    /// The cached root key, if any.
    pub closed spec fn cached(&self) -> Option<EcdsaPublicKey> {
        self.ecdsa_public_key
    }

    /// An empty cache: no fetch has succeeded yet.
    pub fn new() -> (r: RootKeyCache)
        ensures
            r.cached() is None,
    {
        RootKeyCache { ecdsa_public_key: None }
    }

    /// Serves the cached root key, with no I/O and no suspension. Every
    /// caller sees the one key that the first successful fetch installed.
    pub fn get_root_key(&self) -> (r: Option<&EcdsaPublicKey>)
        ensures
            r is Some <==> self.cached() is Some,
            r matches Some(k) ==> *k == self.cached()->0,
    {
        match &self.ecdsa_public_key {
            Some(k) => Some(k),
            None => None,
        }
    }

    /// Consumes the custody service's response to the one-time root-key
    /// request: validates the key material and installs it, or, on any
    /// failure, caches nothing and reports why. Never installs a partial or
    /// error state, and never substitutes a default key.
    pub fn accept_fetch(&mut self, response: Result<(Vec<u8>, Vec<u8>), CustodyError>) -> (r:
        Result<(), WalletError>)
        requires
            old(self).cached() is None,
        ensures
            r is Ok ==> (response matches Ok(p) && (final(self).cached() matches Some(k)
                && k.valid() && k.key_bytes() == p.0@ && k.chain_code_bytes() == p.1@)),
            r is Err ==> final(self).cached() is None,
            response matches Err(c) ==> r == Result::<(), WalletError>::Err(
                WalletError::CustodyUnavailable(c),
            ),
            response matches Ok(p) ==> (r is Ok <==> is_valid_sec1(p.0@) && p.1@.len() == 32),
            r matches Err(e) ==> e is CustodyUnavailable || e is InvalidKeyMaterial,
    {
        let (public_key, chain_code) = match response {
            Ok(p) => p,
            Err(c) => return Err(WalletError::CustodyUnavailable(c)),
        };
        let key = match EcdsaPublicKey::try_new(public_key, chain_code) {
            Ok(k) => k,
            Err(e) => return Err(e),
        };
        self.ecdsa_public_key = Some(key);
        Ok(())
    }
}

/// Law: single initialization — a cache state holds at most one root key, so
/// no two readers of it ever observe different root keys. Together with the
/// precondition of [`RootKeyCache::accept_fetch`], which admits a fetch only
/// into an empty cache, the key written by the first successful fetch is the
/// one every later read returns.
pub proof fn lemma_cache_single_key(c: RootKeyCache, k1: EcdsaPublicKey, k2: EcdsaPublicKey)
    requires
        c.cached() == Some(k1),
        c.cached() == Some(k2),
    ensures
        k1 == k2,
{
}

} // verus!
