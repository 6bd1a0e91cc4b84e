//! The hash function of the distributor: Keccak-256.
//!
//! The digest is computed by the Solana program library. Nothing is proved
//! about it here: the library's contracts speak of the digest of a byte
//! string under the name [`keccak256`], and the one function that computes
//! it is trusted to return that value.

use vstd::prelude::*;

verus! {

/// The Keccak-256 digest of `data`.
pub uninterp spec fn keccak256(data: Seq<u8>) -> [u8; 32];

/// Trusted: calls `anchor_lang::solana_program::keccak::hashv` with `data`
/// as the only slice, which feeds it to a Keccak-256 hasher and returns the
/// 32 bytes of the finished digest. The contract claims that the bytes
/// returned are the digest of `data`, and so depend on `data` alone.
#[verifier::external_body]
pub(crate) fn keccak(data: &[u8]) -> (digest: [u8; 32])
    ensures
        digest == keccak256(data@),
{
    anchor_lang::solana_program::keccak::hashv(&[data]).0
}

/// Two different byte strings with the same digest exist.
///
/// No such pair is known for Keccak-256; the soundness of the distributor is
/// stated relative to this event.
pub open spec fn keccak_collision() -> bool {
    exists|a: Seq<u8>, b: Seq<u8>| a != b && #[trigger] keccak256(a) == #[trigger] keccak256(b)
}

} // verus!
