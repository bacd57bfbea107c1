//! The hash function behind identifiers.

use crate::node_id::NodeId;
use blake2::Digest;
use vstd::prelude::*;

verus! {

/// The BLAKE2b digest of `block` with an output of 64 bytes and no key, as
/// the crate `blake2` computes it.
pub uninterp spec fn blake2b_512(block: Seq<u8>) -> Seq<u8>;

/// Hashes a block of bytes to an identifier.
///
/// Calls `blake2::Blake2b512::digest`. Trusted: the identifier holds the 64
/// bytes of the digest, which depend on the bytes of the block alone.
#[verifier::external_body]
pub(crate) fn hash(block: &[u8]) -> (id: NodeId)
    ensures
        id@ == blake2b_512(block@),
{
    let digest = blake2::Blake2b512::digest(block);
    let mut bytes = [0u8; 64];
    bytes.copy_from_slice(digest.as_slice());
    NodeId(bytes)
}

} // verus!
