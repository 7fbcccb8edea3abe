//! A signer bound to one remote key: its verifying key, its chain id, and the
//! turning of the service's raw signatures into chain signatures.
use vstd::prelude::*;
use crate::ecdsa::{
    be_value, decode_canonical, der_scalars, low_s, EcdsaSignature, VerifyingKey,
};
use crate::error::CKMSError;
use crate::hashing::{address_of, verifying_key_to_address};
use crate::recovery::{
    apply_eip155, eip155_v, sig_from_digest_bytes_trial_recovery, trial_recovery_id, Signature,
};

verus! {

/// `c` is the canonical form of the signature `(r, s)`.
pub open spec fn is_canonical_form(c: EcdsaSignature, r: Seq<u8>, s: Seq<u8>) -> bool {
    c.wf() && c.r@ == r && be_value(c.s@) == low_s(be_value(s))
}

/// The value of `v` for recovery id `v` where `chain_id`, if given, is encoded in it.
pub open spec fn encoded_v(chain_id: Option<u64>, v: u8) -> nat {
    match chain_id {
        Some(c) => eip155_v(c as nat, v as nat),
        None => v as nat,
    }
}

/// What signing returns for the canonical signature `c`: the signature with the
/// recovery id that gives back `vk`, encoded for `chain_id` if one is given.
pub open spec fn signing_outcome(
    c: EcdsaSignature,
    digest: Seq<u8>,
    vk: VerifyingKey,
    chain_id: Option<u64>,
) -> Result<Signature, CKMSError> {
    match trial_recovery_id(c, digest, vk) {
        Some(v) => Ok(Signature { r: c.r, s: c.s, v: encoded_v(chain_id, v) as u64 }),
        None => Err(CKMSError::RecoveryFailure),
    }
}

/// What signing returns when the service answered with the DER bytes `der`.
pub open spec fn signed(
    der: Seq<u8>,
    digest: Seq<u8>,
    vk: VerifyingKey,
    chain_id: Option<u64>,
    r: Result<Signature, CKMSError>,
) -> bool {
    match der_scalars(der) {
        None => r == Err::<Signature, CKMSError>(CKMSError::VerifyingKeyError),
        Some((dr, ds)) => exists|c: EcdsaSignature|
            #[trigger] is_canonical_form(c, dr, ds) && r == signing_outcome(c, digest, vk, chain_id),
    }
}

/// The replay encoding of either recovery id for `chain_id` fits in 64 bits.
pub open spec fn chain_id_fits(chain_id: u64) -> bool {
    eip155_v(chain_id as nat, 1) <= u64::MAX
}

/// A signer bound to one version of one remote key and to a chain.
#[derive(Clone, Debug)]
pub struct GcpKmsSigner {
    pub key_id: String,
    pub key_version: u64,
    pub chain_id: u64,
    pub verifying_key: VerifyingKey,
}

impl GcpKmsSigner {
    /// Binds a verifying key, fetched once from the service, to a key id, a key
    /// version and a chain.
    pub fn new(key_id: String, key_version: u64, chain_id: u64, verifying_key: VerifyingKey) -> (r: Self)
        ensures
            r.key_id == key_id,
            r.key_version == key_version,
            r.chain_id == chain_id,
            r.verifying_key == verifying_key,
    {
        GcpKmsSigner { key_id, key_version, chain_id, verifying_key }
    }

    /// The account address of the signer's key.
    pub fn address(&self) -> (r: [u8; 20])
        ensures
            r@ == address_of(self.verifying_key.point@),
    {
        verifying_key_to_address(&self.verifying_key)
    }

    /// The chain the signer is bound to.
    pub fn chain_id(&self) -> (r: u64)
        ensures
            r == self.chain_id,
    {
        self.chain_id
    }

    /// The same signer, bound to another chain.
    pub fn with_chain_id(self, chain_id: u64) -> (r: Self)
        ensures
            r.chain_id == chain_id,
            r.key_id == self.key_id,
            r.key_version == self.key_version,
            r.verifying_key == self.verifying_key,
    {
        GcpKmsSigner { chain_id, ..self }
    }

    /// The chain a transaction is signed for: its own, where it declares one, else
    /// the signer's.
    pub fn transaction_chain_id(&self, declared: Option<u64>) -> (r: u64)
        ensures
            r == match declared {
                Some(c) => c,
                None => self.chain_id,
            },
    {
        match declared {
            Some(c) => c,
            None => self.chain_id,
        }
    }

    /// Turns the service's DER signature of `digest` into a chain signature:
    /// canonicalizes it, finds its recovery id against the signer's key, and
    /// encodes `chain_id` in `v` where one is given.
    pub fn finish_signature(&self, digest: [u8; 32], der: &[u8], chain_id: Option<u64>) -> (r:
        Result<Signature, CKMSError>)
        requires
            chain_id matches Some(c) ==> chain_id_fits(c),
        ensures
            signed(der@, digest@, self.verifying_key, chain_id, r),
    {
        match decode_canonical(der) {
            None => Err(CKMSError::VerifyingKeyError),
            Some(c) => {
                let ghost (dr, ds) = der_scalars(der@).unwrap();
                assert(is_canonical_form(c, dr, ds));
                match sig_from_digest_bytes_trial_recovery(&c, digest, &self.verifying_key) {
                    Ok(sig) => {
                        let mut sig = sig;
                        match chain_id {
                            Some(id) => apply_eip155(&mut sig, id),
                            None => {},
                        }
                        Ok(sig)
                    },
                    Err(e) => Err(e),
                }
            },
        }
    }

    /// The chain signature of a personal message, from the service's DER signature
    /// of its digest; `v` encodes the signer's chain.
    pub fn finish_message_signature(&self, digest: [u8; 32], der: &[u8]) -> (r: Result<Signature, CKMSError>)
        requires
            chain_id_fits(self.chain_id),
        ensures
            signed(der@, digest@, self.verifying_key, Some(self.chain_id), r),
    {
        self.finish_signature(digest, der, Some(self.chain_id))
    }

    /// The chain signature of a transaction, from the service's DER signature of its
    /// signing hash; `v` encodes the transaction's own chain where it declares one,
    /// else the signer's.
    pub fn finish_transaction_signature(&self, declared: Option<u64>, digest: [u8; 32], der: &[u8]) -> (r:
        Result<Signature, CKMSError>)
        requires
            chain_id_fits(
                match declared {
                    Some(c) => c,
                    None => self.chain_id,
                },
            ),
        ensures
            signed(
                der@,
                digest@,
                self.verifying_key,
                Some(
                    match declared {
                        Some(c) => c,
                        None => self.chain_id,
                    },
                ),
                r,
            ),
    {
        let chain_id = self.transaction_chain_id(declared);
        self.finish_signature(digest, der, Some(chain_id))
    }

    /// The signature of typed data, from the service's DER signature of its digest;
    /// no chain is encoded, so `v` is the bare recovery id.
    pub fn finish_typed_data_signature(&self, digest: [u8; 32], der: &[u8]) -> (r: Result<Signature, CKMSError>)
        ensures
            signed(der@, digest@, self.verifying_key, None, r),
            r matches Ok(sig) ==> sig.v < 2,
    {
        self.finish_signature(digest, der, None)
    }
}

} // verus!
