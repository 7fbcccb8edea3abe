//! Trial recovery of the recovery id, and chain-replay encoding of `v`.
use vstd::prelude::*;
use crate::ecdsa::{recover_key, recovered_point, EcdsaSignature, VerifyingKey};
use crate::error::CKMSError;

verus! {

/// A signature as the chain takes it: `r`, `s` big-endian, and the recovery value `v`.
#[derive(Clone, Copy, Debug, PartialEq, Eq)]
pub struct Signature {
    pub r: [u8; 32],
    pub s: [u8; 32],
    pub v: u64,
}

/// The chain-replay encoding of recovery id `v` for chain `chain_id`.
pub open spec fn eip155_v(chain_id: nat, v: nat) -> nat {
    chain_id * 2 + 35 + v
}

/// Binds a signature to a chain: `v` becomes `chain_id * 2 + 35 + v`.
pub fn apply_eip155(sig: &mut Signature, chain_id: u64)
    requires
        eip155_v(chain_id as nat, old(sig).v as nat) <= u64::MAX,
    ensures
        final(sig).v == eip155_v(chain_id as nat, old(sig).v as nat),
        final(sig).r == old(sig).r,
        final(sig).s == old(sig).s,
{
    let v = (chain_id * 2 + 35) + sig.v;
    sig.v = v;
}

/// Recovery with `recovery_id` gives back the key `vk`.
pub open spec fn candidate_matches(
    sig: EcdsaSignature,
    digest: Seq<u8>,
    vk: VerifyingKey,
    recovery_id: u8,
) -> bool {
    recovered_point(digest, sig.r@, sig.s@, recovery_id) == Some(vk.point@)
}

/// The first of the recovery ids 0 and 1 that gives back `vk`, if any.
pub open spec fn trial_recovery_id(sig: EcdsaSignature, digest: Seq<u8>, vk: VerifyingKey) -> Option<u8> {
    if candidate_matches(sig, digest, vk, 0) {
        Some(0u8)
    } else if candidate_matches(sig, digest, vk, 1) {
        Some(1u8)
    } else {
        None
    }
}

/// Whether two public keys are the same point.
fn same_point(a: &[u8; 64], b: &[u8; 64]) -> (r: bool)
    ensures
        r == (a@ == b@),
{
    let mut i: usize = 0;
    while i < 64
        invariant
            0 <= i <= 64,
            forall|j: int| 0 <= j < i ==> a@[j] == b@[j],
        decreases 64 - i,
    {
        if a[i] != b[i] {
            return false;
        }
        i = i + 1;
    }
    assert(a@ =~= b@);
    true
}

/// Makes a trial recovery to check whether a signature with a recovery id gives
/// back a known verifying key.
fn check_candidate(sig: &EcdsaSignature, recovery_id: u8, digest: [u8; 32], vk: &VerifyingKey) -> (r: bool)
    requires
        sig.wf(),
        recovery_id < 2,
    ensures
        r == candidate_matches(*sig, digest@, *vk, recovery_id),
{
    match recover_key(&digest, sig, recovery_id) {
        Some(key) => same_point(&key.point, &vk.point),
        None => false,
    }
}

/// Finds the recovery id of a signature by trying 0, then 1, against the known
/// verifying key; fails where neither gives the key back.
pub fn sig_from_digest_bytes_trial_recovery(
    sig: &EcdsaSignature,
    digest: [u8; 32],
    vk: &VerifyingKey,
) -> (r: Result<Signature, CKMSError>)
    requires
        sig.wf(),
    ensures
        match trial_recovery_id(*sig, digest@, *vk) {
            Some(v) => r == Ok::<Signature, CKMSError>(Signature { r: sig.r, s: sig.s, v: v as u64 }),
            None => r == Err::<Signature, CKMSError>(CKMSError::RecoveryFailure),
        },
{
    if check_candidate(sig, 0, digest, vk) {
        Ok(Signature { r: sig.r, s: sig.s, v: 0 })
    } else if check_candidate(sig, 1, digest, vk) {
        Ok(Signature { r: sig.r, s: sig.s, v: 1 })
    } else {
        Err(CKMSError::RecoveryFailure)
    }
}

} // verus!
