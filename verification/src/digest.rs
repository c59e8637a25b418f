//! Hash functions of outside crates: SHA-256 (`sha2`) and Keccak-256
//! (`ethers-core`).

use vstd::prelude::*;
use sha2::Digest;

verus! {

/// The SHA-256 digest of a byte string.
pub uninterp spec fn sha256_digest(data: Seq<u8>) -> Seq<u8>;

/// The Keccak-256 digest of a byte string.
pub uninterp spec fn keccak256_digest(data: Seq<u8>) -> Seq<u8>;

/// Trusted: `sha2::Sha256` hashes `data` in one call; the 32-byte result is
/// the digest that the name `sha256_digest` stands for.
#[verifier::external_body]
pub(crate) fn sha256(data: &[u8]) -> (d: [u8; 32])
    ensures
        d@ == sha256_digest(data@),
{
    sha2::Sha256::digest(data).into()
}

/// Trusted: `ethers_core::utils::keccak256` returns the 32-byte Keccak-256
/// digest of `data`.
#[verifier::external_body]
pub(crate) fn keccak256(data: &[u8]) -> (d: [u8; 32])
    ensures
        d@ == keccak256_digest(data@),
{
    ethers_core::utils::keccak256(data)
}

} // verus!
