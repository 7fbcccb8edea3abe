use ethers::types::{Address, U256};
use ethers_gcp_kms_signer::ecdsa::{
    canonicalize, decode_canonical, verifying_key_from_pem, EcdsaSignature, VerifyingKey,
};
use ethers_gcp_kms_signer::error::CKMSError;
use ethers_gcp_kms_signer::hashing::{message_digest, verifying_key_to_address};
use ethers_gcp_kms_signer::recovery::{apply_eip155, sig_from_digest_bytes_trial_recovery, Signature};
use ethers_gcp_kms_signer::signer::GcpKmsSigner;
use k256::ecdsa::SigningKey;
use k256::pkcs8::{EncodePublicKey, LineEnding};

fn signing_key(seed: u8) -> SigningKey {
    let mut bytes = [0u8; 32];
    bytes[31] = seed;
    bytes[0] = 0x11;
    SigningKey::from_slice(&bytes).unwrap()
}

fn point_of(key: &SigningKey) -> VerifyingKey {
    let encoded = key.verifying_key().to_encoded_point(false);
    let mut point = [0u8; 64];
    point.copy_from_slice(&encoded.as_bytes()[1..]);
    VerifyingKey { point }
}

fn scalars(sig: &k256::ecdsa::Signature) -> EcdsaSignature {
    let (r, s) = sig.split_bytes();
    EcdsaSignature { r: r.into(), s: s.into() }
}

/// The same signature with `s` replaced by `n - s`.
fn high_s(sig: &k256::ecdsa::Signature) -> k256::ecdsa::Signature {
    let s: k256::Scalar = *sig.s();
    let negated = -s;
    k256::ecdsa::Signature::from_scalars(sig.r().to_bytes(), negated.to_bytes()).unwrap()
}

fn signer(seed: u8, chain_id: u64) -> GcpKmsSigner {
    let key = signing_key(seed);
    let pem = key.verifying_key().to_public_key_pem(LineEnding::LF).unwrap();
    let verifying_key = verifying_key_from_pem(&pem).unwrap();
    GcpKmsSigner::new("key".to_string(), 1, chain_id, verifying_key)
}

fn to_ethers(sig: &Signature) -> ethers::types::Signature {
    ethers::types::Signature {
        r: U256::from_big_endian(&sig.r),
        s: U256::from_big_endian(&sig.s),
        v: sig.v,
    }
}

#[test]
fn eip155_chain_one_and_five() {
    let mut sig = Signature { r: [1u8; 32], s: [2u8; 32], v: 0 };
    apply_eip155(&mut sig, 1);
    assert_eq!(sig.v, 37);
    assert_eq!(sig.r, [1u8; 32]);
    assert_eq!(sig.s, [2u8; 32]);
    let mut sig = Signature { r: [1u8; 32], s: [2u8; 32], v: 1 };
    apply_eip155(&mut sig, 1);
    assert_eq!(sig.v, 38);
    let mut sig = Signature { r: [1u8; 32], s: [2u8; 32], v: 0 };
    apply_eip155(&mut sig, 5);
    assert_eq!(sig.v, 45);
}

#[test]
fn address_of_generator_point() {
    // The public key of the private key 1 is the generator point.
    let x = hex_bytes("79be667ef9dcbbac55a06295ce870b07029bfcdb2dce28d959f2815b16f81798");
    let y = hex_bytes("483ada7726a3c4655da4fbfc0e1108a8fd17b448a68554199c47d08ffb10d4b8");
    let mut point = [0u8; 64];
    point[..32].copy_from_slice(&x);
    point[32..].copy_from_slice(&y);
    let address = verifying_key_to_address(&VerifyingKey { point });
    assert_eq!(address.to_vec(), hex_bytes("7e5f4552091a69125d5dfcb7b8c2659029395bdf"));
    assert_eq!(verifying_key_to_address(&VerifyingKey { point }), address);
}

fn hex_bytes(s: &str) -> Vec<u8> {
    (0..s.len() / 2).map(|i| u8::from_str_radix(&s[2 * i..2 * i + 2], 16).unwrap()).collect()
}

#[test]
fn address_matches_signing_key() {
    let key = signing_key(3);
    let expected = ethers::utils::secret_key_to_address(&key);
    let address = signer(3, 1).address();
    assert_eq!(Address::from(address), expected);
}

#[test]
fn message_digest_is_prefixed_keccak() {
    let message = b"hello world";
    let mut prefixed = b"\x19Ethereum Signed Message:\n11".to_vec();
    prefixed.extend_from_slice(message);
    assert_eq!(message_digest(message), ethers::utils::keccak256(&prefixed));
    assert_ne!(message_digest(message), ethers::utils::keccak256(message));
}

#[test]
fn trial_recovery_finds_the_one_matching_id() {
    for seed in 1..8u8 {
        let key = signing_key(seed);
        let digest = [seed.wrapping_mul(29); 32];
        let (sig, id) = key.sign_prehash_recoverable(&digest).unwrap();
        let found = sig_from_digest_bytes_trial_recovery(&scalars(&sig), digest, &point_of(&key)).unwrap();
        assert_eq!(found.v, id.to_byte() as u64);
        assert_eq!(found.r, scalars(&sig).r);
        assert_eq!(found.s, scalars(&sig).s);
        let other = k256::ecdsa::RecoveryId::from_byte(1 - id.to_byte()).unwrap();
        let recovered = k256::ecdsa::VerifyingKey::recover_from_prehash(&digest, &sig, other);
        assert!(recovered.map(|k| k != *key.verifying_key()).unwrap_or(true));
    }
}

#[test]
fn trial_recovery_rejects_fabricated_signature() {
    let digest = [7u8; 32];
    let (sig, _) = signing_key(1).sign_prehash_recoverable(&digest).unwrap();
    let other = point_of(&signing_key(2));
    let r = sig_from_digest_bytes_trial_recovery(&scalars(&sig), digest, &other);
    assert!(matches!(r, Err(CKMSError::RecoveryFailure)));
}

#[test]
fn canonicalization_is_idempotent() {
    let digest = [9u8; 32];
    let (sig, _) = signing_key(4).sign_prehash_recoverable(&digest).unwrap();
    let low = scalars(&sig);
    let high = scalars(&high_s(&sig));
    assert_ne!(low.s, high.s);
    assert_eq!(canonicalize(&high), low);
    assert_eq!(canonicalize(&low), low);
    assert_eq!(canonicalize(&canonicalize(&high)), canonicalize(&high));
    let der = high_s(&sig).to_der().as_bytes().to_vec();
    assert_eq!(decode_canonical(&der), Some(low));
}

#[test]
fn decode_rejects_malformed_der() {
    assert_eq!(decode_canonical(&[0x30, 0x02, 0x01]), None);
    assert_eq!(decode_canonical(&[]), None);
}

#[test]
fn message_signature_verifies_with_chain_encoding() {
    let key = signing_key(5);
    let s = signer(5, 1);
    let message = vec![0u8, 1, 2, 3];
    let digest = message_digest(&message);
    let (sig, _) = key.sign_prehash_recoverable(&digest).unwrap();
    let der = high_s(&sig).to_der().as_bytes().to_vec();
    let out = s.finish_message_signature(digest, &der).unwrap();
    assert!(out.v == 37 || out.v == 38);
    let eth = to_ethers(&out);
    eth.verify(message, Address::from(s.address())).unwrap();
}

#[test]
fn transaction_uses_declared_chain_id() {
    let key = signing_key(6);
    let s = signer(6, 1);
    let digest = [0x42u8; 32];
    let (sig, id) = key.sign_prehash_recoverable(&digest).unwrap();
    let der = sig.to_der().as_bytes().to_vec();
    let declared = s.finish_transaction_signature(Some(5), digest, &der).unwrap();
    assert_eq!(declared.v, 45 + id.to_byte() as u64);
    let fallback = s.finish_transaction_signature(None, digest, &der).unwrap();
    assert_eq!(fallback.v, 37 + id.to_byte() as u64);
    assert_eq!(s.transaction_chain_id(Some(5)), 5);
    assert_eq!(s.transaction_chain_id(None), 1);
}

#[test]
fn typed_data_signature_has_bare_recovery_id() {
    let key = signing_key(7);
    let s = signer(7, 1);
    for round in 0..6u8 {
        let digest = [round.wrapping_mul(37).wrapping_add(1); 32];
        let (sig, id) = key.sign_prehash_recoverable(&digest).unwrap();
        let der = sig.to_der().as_bytes().to_vec();
        let out = s.finish_typed_data_signature(digest, &der).unwrap();
        assert_eq!(out.v, id.to_byte() as u64);
        assert!(out.v < 2);
    }
}

#[test]
fn signing_errors() {
    let s = signer(8, 1);
    let digest = [1u8; 32];
    assert!(matches!(
        s.finish_message_signature(digest, &[1, 2, 3]),
        Err(CKMSError::VerifyingKeyError)
    ));
    let (sig, _) = signing_key(9).sign_prehash_recoverable(&digest).unwrap();
    let der = sig.to_der().as_bytes().to_vec();
    assert!(matches!(
        s.finish_typed_data_signature(digest, &der),
        Err(CKMSError::RecoveryFailure)
    ));
}

#[test]
fn signer_from_pem_and_chain_rebinding() {
    let key = signing_key(10);
    let s = signer(10, 1);
    assert_eq!(s.verifying_key, point_of(&key));
    assert_eq!(s.key_id, "key");
    assert_eq!(s.key_version, 1);
    assert_eq!(s.chain_id(), 1);
    let address = s.address();
    let rebound = s.clone().with_chain_id(5);
    assert_eq!(rebound.chain_id(), 5);
    assert_eq!(s.chain_id(), 1);
    assert_eq!(rebound.address(), address);
    assert_eq!(rebound.verifying_key, s.verifying_key);
    assert!(matches!(verifying_key_from_pem("not a key"), Err(CKMSError::SpkiError)));
    let other = signing_key(11).verifying_key().to_public_key_pem(LineEnding::LF).unwrap();
    assert_eq!(verifying_key_from_pem(&other).unwrap(), point_of(&signing_key(11)));
}
