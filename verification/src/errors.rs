//! Error taxonomy of the derivation core.

use vstd::prelude::*;

verus! {

/// The error with which the custody service rejected a root-key fetch:
/// a machine-readable reject code and a human-readable message.
#[derive(Clone, Debug)]
pub struct CustodyError {
    pub code: u32,
    pub message: String,
}

/// A failure of one address-derivation request. None of these is retried
/// automatically; all are surfaced to the immediate caller, and no address
/// is ever returned on a failure path.
#[derive(Clone, Debug)]
pub enum WalletError {
    /// The root-key fetch failed; the cache is left empty so that a later
    /// call may attempt the fetch again.
    CustodyUnavailable(CustodyError),
    /// A public key or chain code failed to validate: corrupted or tampered
    /// key material, an invariant violation rather than an expected outcome.
    InvalidKeyMaterial,
    /// A derived offset scalar fell out of the valid range. The SLIP-10
    /// derivation used here resolves such scalars by deterministic retry,
    /// so this variant is part of the taxonomy but is never produced by it.
    DerivationFailure,
}

} // verus!
