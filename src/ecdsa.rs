//! ECDSA over secp256k1: signatures as big-endian scalars, public keys as
//! uncompressed coordinates, and the curve operations that the signer relies on.
use vstd::prelude::*;
use ethers::prelude::k256;
use k256::pkcs8::DecodePublicKey;
use crate::error::CKMSError;

verus! {

/// The order of the secp256k1 group,
/// `0xFFFFFFFFFFFFFFFFFFFFFFFFFFFFFFFEBAAEDCE6AF48A03BBFD25E8CD0364141`.
pub open spec fn curve_order() -> nat {
    0xFFFFFFFFFFFFFFFFFFFFFFFFFFFFFFFEnat * 0x10000000000000000 * 0x10000000000000000
        + 0xBAAEDCE6AF48A03BBFD25E8CD0364141nat
}

/// The unsigned integer that `b` writes in big-endian order.
pub open spec fn be_value(b: Seq<u8>) -> nat
    decreases b.len(),
{
    if b.len() == 0 {
        0
    } else {
        be_value(b.drop_last()) * 256 + b.last() as nat
    }
}

/// Whether `s` is the smaller of the two values `s` and `n - s`.
pub open spec fn is_low_s(s: nat) -> bool {
    s <= curve_order() / 2
}

/// The canonical ("low") form of the scalar `s`.
pub open spec fn low_s(s: nat) -> nat {
    if is_low_s(s) {
        s
    } else {
        (curve_order() - s) as nat
    }
}

/// A scalar lies in `1..n`.
pub open spec fn is_scalar(b: Seq<u8>) -> bool {
    0 < be_value(b) < curve_order()
}

/// An ECDSA signature `(r, s)`, each scalar written big-endian in 32 bytes.
#[derive(Clone, Copy, Debug, PartialEq, Eq)]
pub struct EcdsaSignature {
    pub r: [u8; 32],
    pub s: [u8; 32],
}

impl EcdsaSignature {
    /// Both scalars lie in `1..n`.
    pub open spec fn wf(&self) -> bool {
        is_scalar(self.r@) && is_scalar(self.s@)
    }
}

/// A secp256k1 public key: its affine coordinates `X || Y`, 32 bytes each,
/// big-endian, as they follow the `0x04` prefix of the uncompressed encoding.
#[derive(Clone, Copy, Debug, PartialEq, Eq)]
pub struct VerifyingKey {
    pub point: [u8; 64],
}

/// The scalars `(r, s)` that a DER-encoded signature holds, or `None` where the
/// bytes are no DER signature or a scalar lies outside `1..n`.
pub uninterp spec fn der_scalars(der: Seq<u8>) -> Option<(Seq<u8>, Seq<u8>)>;

/// The key `X || Y` that recovery from `digest`, `(r, s)` and a recovery id gives,
/// or `None` where recovery fails.
pub uninterp spec fn recovered_point(digest: Seq<u8>, r: Seq<u8>, s: Seq<u8>, recovery_id: u8) -> Option<Seq<u8>>;

/// The key `X || Y` that a PEM-encoded SubjectPublicKeyInfo holds, or `None`
/// where it holds no secp256k1 key.
pub uninterp spec fn pem_point(pem: Seq<char>) -> Option<Seq<u8>>;

#[verifier::external_type_specification]
#[verifier::external_body]
pub struct ExSignatureError(k256::ecdsa::Error);

#[verifier::external_type_specification]
#[verifier::external_body]
pub struct ExSpkiError(k256::pkcs8::spki::Error);

/// Relies on k256's `Signature::from_der`: decodes an ASN.1 DER signature and
/// accepts it only where both scalars lie in `1..n`.
#[verifier::external_body]
pub(crate) fn decode_der(der: &[u8]) -> (r: Result<EcdsaSignature, k256::ecdsa::Error>)
    ensures
        match r {
            Ok(sig) => der_scalars(der@) == Some((sig.r@, sig.s@)) && sig.wf(),
            Err(_) => der_scalars(der@).is_none(),
        },
{
    k256::ecdsa::Signature::from_der(der).map(|sig| {
        let (r, s) = sig.split_bytes();
        EcdsaSignature { r: r.into(), s: s.into() }
    })
}

/// Relies on k256's `Signature::normalize_s`: where `s` exceeds `n / 2` it is
/// replaced by `n - s`, else the signature is left as it is (`None`).
#[verifier::external_body]
pub(crate) fn normalize_s(sig: &EcdsaSignature) -> (r: EcdsaSignature)
    requires
        sig.wf(),
    ensures
        r.r == sig.r,
        be_value(r.s@) == low_s(be_value(sig.s@)),
{
    let k = k256::ecdsa::Signature::from_scalars(sig.r, sig.s).unwrap();
    let (r, s) = k.normalize_s().unwrap_or(k).split_bytes();
    EcdsaSignature { r: r.into(), s: s.into() }
}

/// Relies on k256's `VerifyingKey::recover_from_prehash`: the public key that the
/// signature and recovery id give for the prehashed message.
#[verifier::external_body]
pub(crate) fn recover_key(digest: &[u8; 32], sig: &EcdsaSignature, recovery_id: u8) -> (r: Option<VerifyingKey>)
    requires
        sig.wf(),
        recovery_id < 2,
    ensures
        match r {
            Some(k) => recovered_point(digest@, sig.r@, sig.s@, recovery_id) == Some(k.point@),
            None => recovered_point(digest@, sig.r@, sig.s@, recovery_id).is_none(),
        },
{
    let k = k256::ecdsa::Signature::from_scalars(sig.r, sig.s).unwrap();
    let id = k256::ecdsa::RecoveryId::from_byte(recovery_id).unwrap();
    k256::ecdsa::VerifyingKey::recover_from_prehash(digest, &k, id).ok().map(|vk| {
        let mut point = [0u8; 64];
        point.copy_from_slice(&vk.to_encoded_point(false).as_bytes()[1..]);
        VerifyingKey { point }
    })
}

/// Relies on k256's `VerifyingKey::from_public_key_pem`: parses a PEM-encoded
/// SubjectPublicKeyInfo holding a secp256k1 key.
#[verifier::external_body]
pub(crate) fn parse_public_key_pem(pem: &str) -> (r: Result<VerifyingKey, k256::pkcs8::spki::Error>)
    ensures
        match r {
            Ok(k) => pem_point(pem@) == Some(k.point@),
            Err(_) => pem_point(pem@).is_none(),
        },
{
    k256::ecdsa::VerifyingKey::from_public_key_pem(pem).map(|vk| {
        let mut point = [0u8; 64];
        point.copy_from_slice(&vk.to_encoded_point(false).as_bytes()[1..]);
        VerifyingKey { point }
    })
}

/// Parses the PEM-encoded public key that the key-management service holds for a key.
pub fn verifying_key_from_pem(pem: &str) -> (r: Result<VerifyingKey, CKMSError>)
    ensures
        match pem_point(pem@) {
            Some(p) => r matches Ok(k) && k.point@ == p,
            None => r == Err::<VerifyingKey, CKMSError>(CKMSError::SpkiError),
        },
{
    match parse_public_key_pem(pem) {
        Ok(k) => Ok(k),
        Err(_) => Err(CKMSError::SpkiError),
    }
}

/// Canonicalizing is idempotent: the canonical form of a scalar in `1..n` is a
/// scalar in `1..n` that is already low, so canonicalizing it again changes nothing.
pub proof fn lemma_low_s_idempotent(s: nat)
    requires
        0 < s < curve_order(),
    ensures
        0 < low_s(s) < curve_order(),
        is_low_s(low_s(s)),
        low_s(low_s(s)) == low_s(s),
{
}

/// Brings a signature into canonical low-`s` form.
pub fn canonicalize(sig: &EcdsaSignature) -> (r: EcdsaSignature)
    requires
        sig.wf(),
    ensures
        r.r == sig.r,
        be_value(r.s@) == low_s(be_value(sig.s@)),
        r.wf(),
        is_low_s(be_value(r.s@)),
{
    proof {
        lemma_low_s_idempotent(be_value(sig.s@));
    }
    normalize_s(sig)
}

/// Decodes the DER signature that the key-management service returned, and
/// brings it into canonical low-`s` form.
pub fn decode_canonical(der: &[u8]) -> (r: Option<EcdsaSignature>)
    ensures
        match der_scalars(der@) {
            None => r.is_none(),
            Some((dr, ds)) => match r {
                Some(sig) => sig.r@ == dr && be_value(sig.s@) == low_s(be_value(ds)) && sig.wf()
                    && is_low_s(be_value(sig.s@)),
                None => false,
            },
        },
{
    match decode_der(der) {
        Ok(sig) => Some(canonicalize(&sig)),
        Err(_) => None,
    }
}

} // verus!
