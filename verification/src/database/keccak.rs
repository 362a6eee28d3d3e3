//! Keccak-256, the hash of the trie and of every content-addressed record.

use hash_db::Hasher;
use keccak_hasher::KeccakHasher;
use vstd::prelude::*;

verus! {

/// Bytes of a hash.
pub const HASH_LENGTH: usize = 32;

/// A 32-byte hash.
pub type Hash256 = [u8; 32];

/// The Keccak-256 digest of `data`.
pub uninterp spec fn keccak256(data: Seq<u8>) -> Seq<u8>;

/// Calls `KeccakHasher::hash` of `keccak_hasher`. The contract names the
/// digest: it depends on the input bytes alone.
#[verifier::external_body]
pub(crate) fn keccak_hash(data: &[u8]) -> (out: Hash256)
    ensures
        out@ == keccak256(data@),
{
    KeccakHasher::hash(data)
}

/// Hashes `data` with Keccak-256.
pub fn hash(data: &[u8]) -> (out: Hash256)
    ensures
        out@ == keccak256(data@),
        out@.len() == HASH_LENGTH,
{
    keccak_hash(data)
}

} // verus!
