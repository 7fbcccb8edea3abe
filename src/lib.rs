//! Signing for account-based chains with a key held by a remote key-management
//! service: resource paths for remote keys, canonicalization and trial recovery of
//! the service's signatures, chain-replay encoding and address derivation.
pub mod ecdsa;
pub mod error;
pub mod hashing;
pub mod keyref;
pub mod recovery;
pub mod signer;
