//! Failures of signing with a remote key.
use vstd::prelude::*;

verus! {

/// What can go wrong while signing with a remote key.
#[derive(Clone, Debug)]
pub enum CKMSError {
    /// The key-management client could not be set up.
    GoogleKmsError(String),
    /// A request to the key-management service failed.
    RequestError(String),
    /// The public key that the service returned is not a well-formed key.
    SpkiError,
    /// The signature that the service returned is not a well-formed signature.
    VerifyingKeyError,
    /// Neither recovery id reproduces the signer's verifying key.
    RecoveryFailure,
    /// Typed data could not be encoded.
    Eip712Error(String),
}

} // verus!
