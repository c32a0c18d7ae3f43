//! Digests of the ledger's hash function.

use vstd::prelude::*;

verus! {

/// A digest: four field elements, each held as the integer it stands for.
#[derive(Clone, Copy, Debug, PartialEq, Eq)]
pub struct Digest {
    pub elements: [u64; 4],
}

/// The elements of the digest that is all zeros.
pub open spec fn zero_elements() -> Seq<u64> {
    seq![0u64, 0u64, 0u64, 0u64]
}

impl Default for Digest {
    /// The digest that is all zeros.
    fn default() -> (digest: Digest)
        ensures
            digest.elements@ == zero_elements(),
    {
        Digest { elements: [0u64, 0u64, 0u64, 0u64] }
    }
}

/// The elements of the digest that the ledger's hash function gives for
/// `bytes`.
pub uninterp spec fn rpo256(bytes: Seq<u8>) -> Seq<u64>;

/// The 32 bytes that the ledger writes for the digest made of `elements`.
pub uninterp spec fn digest_bytes(elements: Seq<u64>) -> Seq<u8>;

/// Calls `miden_objects::Hasher::hash`.
///
/// Trusted: the digest depends on the bytes alone; it is handed over as the
/// integers of its four elements.
#[verifier::external_body]
pub(crate) fn hash(bytes: &[u8]) -> (digest: Digest)
    ensures
        digest.elements@ == rpo256(bytes@),
{
    Digest { elements: <[u64; 4]>::from(miden_objects::Hasher::hash(bytes)) }
}

/// Calls `as_bytes` on the `miden_objects::Digest` whose elements stand for
/// the integers of `digest`.
///
/// Trusted: the bytes depend on the elements alone.
#[verifier::external_body]
pub(crate) fn as_bytes(digest: &Digest) -> (bytes: [u8; 32])
    ensures
        bytes@ == digest_bytes(digest.elements@),
{
    miden_objects::Digest::from(digest.elements.map(miden_objects::Felt::new)).as_bytes()
}

} // verus!
