//! Derivation of deterministic, per-owner Ethereum addresses from a single
//! root threshold-ECDSA key.
//!
//! The root extended public key is exported once by an external key-custody
//! service and cached ([`state::RootKeyCache`]); for each owner identity a
//! derivation path is built ([`wallet::build_path`]), a child public key is
//! derived by non-hardened SLIP-10 derivation ([`ecdsa::EcdsaPublicKey`]),
//! and the child key is reduced to a 20-byte address
//! ([`address::to_address`]). The private key never leaves the custody
//! service: every step here works on public material alone.

pub mod address;
pub mod ecdsa;
pub mod errors;
pub mod evm_rpc;
pub mod state;
pub mod wallet;
