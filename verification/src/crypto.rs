//! Keccak-256 and signer recovery, which the library takes from `clarity`,
//! and the personal-sign envelope built on the hash.

use vstd::prelude::*;
use crate::types::{EthAddress, EthSignature};
use crate::uint256::word_of;

verus! {

/// The Keccak-256 digest of `data`.
pub uninterp spec fn keccak256_digest(data: Seq<u8>) -> Seq<u8>;

/// The address whose key made the signature `(v, r, s)`, each given as a
/// 32-byte word, over `digest`; `None` where the triple is no signature.
pub uninterp spec fn recovered_signer(v: Seq<u8>, r: Seq<u8>, s: Seq<u8>, digest: Seq<u8>) -> Option<
    EthAddress,
>;

/// Calls `clarity::abi::get_hash`, which hashes its argument with Keccak-256.
/// Nothing is proved of the digest: the contract only gives it its name.
#[verifier::external_body]
pub(crate) fn keccak256(data: &[u8]) -> (digest: [u8; 32])
    ensures
        digest@ == keccak256_digest(data@),
{
    clarity::abi::get_hash(data)
}

/// Calls `clarity::Signature::recover` on the legacy signature `(v, r, s)`:
/// ECDSA public-key recovery on secp256k1, then the address of that key. An
/// error of the call, whatever its kind, becomes `None`. The contract only
/// gives the outcome its name.
#[verifier::external_body]
pub(crate) fn recover_signer(v: &[u8; 32], r: &[u8; 32], s: &[u8; 32], digest: &[u8; 32]) -> (signer:
    Option<EthAddress>)
    ensures
        signer == recovered_signer(v@, r@, s@, digest@),
{
    let signature = clarity::Signature::new_legacy(
        clarity::Uint256::from_be_bytes(v),
        clarity::Uint256::from_be_bytes(r),
        clarity::Uint256::from_be_bytes(s),
    );
    match signature.recover(digest) {
        Ok(address) => address.as_bytes().try_into().ok().map(|bytes| EthAddress { bytes }),
        Err(_) => None,
    }
}

/// The address that signed `digest` with `signature`, if any did.
pub open spec fn signer_of(signature: EthSignature, digest: Seq<u8>) -> Option<EthAddress> {
    recovered_signer(
        word_of(signature.v@),
        word_of(signature.r@),
        word_of(signature.s@),
        digest,
    )
}

/// Recovers the address that signed `digest` with `signature`.
pub fn signature_signer(signature: &EthSignature, digest: &[u8; 32]) -> (signer: Option<EthAddress>)
    ensures
        signer == signer_of(*signature, digest@),
{
    let v: [u8; 32] = signature.v.to_word();
    let r: [u8; 32] = signature.r.to_word();
    let s: [u8; 32] = signature.s.to_word();
    recover_signer(&v, &r, &s, digest)
}

/// The 28 bytes that open a personal-sign message of 32 bytes: the byte
/// `0x19`, then `Ethereum Signed Message:`, a line feed and `32` in ASCII.
pub open spec fn signed_message_prefix() -> Seq<u8> {
    seq![
        0x19u8, 0x45, 0x74, 0x68, 0x65, 0x72, 0x65, 0x75, 0x6d, 0x20, 0x53, 0x69, 0x67, 0x6e,
        0x65, 0x64, 0x20, 0x4d, 0x65, 0x73, 0x73, 0x61, 0x67, 0x65, 0x3a, 0x0a, 0x33, 0x32,
    ]
}

/// The digest that a validator signs for `data`: the Keccak-256 digest of
/// `data`, put behind the personal-sign prefix and hashed again. This is what
/// the bridge contract rebuilds before it checks a signature.
pub open spec fn ethereum_msg_hash(data: Seq<u8>) -> Seq<u8> {
    keccak256_digest(signed_message_prefix() + keccak256_digest(data))
}

/// Computes the digest that a validator signs for `data`.
pub fn get_ethereum_msg_hash(data: &[u8]) -> (digest: [u8; 32])
    ensures
        digest@ == ethereum_msg_hash(data@),
{
    let inner: [u8; 32] = keccak256(data);
    let prefix: [u8; 28] = [
        0x19, 0x45, 0x74, 0x68, 0x65, 0x72, 0x65, 0x75, 0x6d, 0x20, 0x53, 0x69, 0x67, 0x6e, 0x65,
        0x64, 0x20, 0x4d, 0x65, 0x73, 0x73, 0x61, 0x67, 0x65, 0x3a, 0x0a, 0x33, 0x32,
    ];
    let mut message: Vec<u8> = Vec::new();
    let mut i: usize = 0;
    while i < 28
        invariant
            i <= 28,
            message@ == prefix@.subrange(0, i as int),
        decreases 28 - i,
    {
        message.push(prefix[i]);
        i = i + 1;
    }
    let mut j: usize = 0;
    while j < 32
        invariant
            j <= 32,
            message@ == prefix@ + inner@.subrange(0, j as int),
        decreases 32 - j,
    {
        message.push(inner[j]);
        j = j + 1;
    }
    assert(prefix@ =~= signed_message_prefix());
    assert(inner@.subrange(0, 32) =~= inner@);
    keccak256(message.as_slice())
}

} // verus!
