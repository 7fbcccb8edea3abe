//! Keccak-256 hashing: account addresses and signed-message digests.
use vstd::prelude::*;
use crate::ecdsa::VerifyingKey;

verus! {

/// The Keccak-256 digest of `b`.
pub uninterp spec fn keccak256_of(b: Seq<u8>) -> Seq<u8>;

/// The decimal notation of `n` in ASCII digits, without leading zeros.
pub open spec fn decimal_ascii(n: nat) -> Seq<u8>
    decreases n,
{
    if n < 10 {
        seq![(48 + n) as u8]
    } else {
        decimal_ascii(n / 10) + seq![(48 + n % 10) as u8]
    }
}

/// The prefix of a signed message: `"\x19Ethereum Signed Message:\n"`.
pub open spec fn signed_message_prefix() -> Seq<u8> {
    seq![
        0x19u8, 69, 116, 104, 101, 114, 101, 117, 109, 32, 83, 105, 103, 110, 101, 100, 32, 77,
        101, 115, 115, 97, 103, 101, 58, 10,
    ]
}

/// The digest that signing `message` as a personal message signs: Keccak-256 of
/// the prefix, the message's length in decimal and the message.
pub open spec fn message_hash(message: Seq<u8>) -> Seq<u8> {
    keccak256_of(signed_message_prefix() + decimal_ascii(message.len()) + message)
}

/// The account address of the public key `X || Y`: the low 20 bytes of its
/// Keccak-256 digest.
pub open spec fn address_of(point: Seq<u8>) -> Seq<u8> {
    keccak256_of(point).subrange(12, 32)
}

/// Relies on ethers' `utils::keccak256`: the Keccak-256 digest of the bytes.
#[verifier::external_body]
fn keccak256(b: &[u8]) -> (r: [u8; 32])
    ensures
        r@ == keccak256_of(b@),
{
    ethers::utils::keccak256(b)
}

/// Relies on ethers' `utils::hash_message`: Keccak-256 of the prefix, the decimal
/// length of the message and the message.
#[verifier::external_body]
fn hash_message(message: &[u8]) -> (r: [u8; 32])
    ensures
        r@ == message_hash(message@),
{
    ethers::utils::hash_message(message).0
}

/// The digest to sign for a personal message.
pub fn message_digest(message: &[u8]) -> (r: [u8; 32])
    ensures
        r@ == message_hash(message@),
{
    hash_message(message)
}

/// The account address of a verifying key.
pub fn verifying_key_to_address(key: &VerifyingKey) -> (r: [u8; 20])
    ensures
        r@ == address_of(key.point@),
{
    let hash = keccak256(key.point.as_slice());
    let mut out = [0u8; 20];
    let mut i: usize = 0;
    while i < 20
        invariant
            0 <= i <= 20,
            hash@ == keccak256_of(key.point@),
            forall|j: int| 0 <= j < i ==> out@[j] == hash@[j + 12],
        decreases 20 - i,
    {
        out.set(i, hash[i + 12]);
        i = i + 1;
    }
    assert(out@ =~= address_of(key.point@));
    out
}

} // verus!
