//! The hash function: BLAKE2s with a 32-byte digest.

use vstd::prelude::*;
use crate::hasher::{blake2s_digest, hasher_finalize, hasher_new, hasher_update};
use crate::consts::HASHLEN;
use crate::utils::from_slice_hashlen;

verus! {

/// The digest of `data`.
pub open spec fn spec_hash(data: Seq<u8>) -> Seq<u8> {
    blake2s_digest(HASHLEN as nat, data)
}

/// The digest of `data` under the domain-separation context `con`.
pub open spec fn spec_hash_with_context(con: Seq<u8>, data: Seq<u8>) -> Seq<u8> {
    spec_hash(con + data)
}

/// Hashes `data`.
pub fn hash(data: &[u8]) -> (digest: [u8; HASHLEN])
    ensures
        digest@ == spec_hash(data@),
{
    let mut context = hasher_new(HASHLEN);
    assert(data@.len() == data.len());
    hasher_update(&mut context, data);
    let digest = hasher_finalize(context);
    from_slice_hashlen(digest.as_slice())
}

/// Hashes `con` followed by `data`, feeding one after the other so that
/// the caller need not join them.
pub fn hash_with_context(con: &[u8], data: &[u8]) -> (digest: [u8; HASHLEN])
    requires
        con@.len() + data@.len() <= u64::MAX,
    ensures
        digest@ == spec_hash_with_context(con@, data@),
{
    let mut context = hasher_new(HASHLEN);
    hasher_update(&mut context, con);
    hasher_update(&mut context, data);
    let digest = hasher_finalize(context);
    from_slice_hashlen(digest.as_slice())
}

/// Hashing a context and a message is hashing their concatenation.
pub proof fn lemma_hash_with_context_is_hash_of_concat(con: Seq<u8>, data: Seq<u8>)
    ensures
        spec_hash_with_context(con, data) == spec_hash(con + data),
{
}

/// Hashing under the empty context is plain hashing.
pub proof fn lemma_hash_with_empty_context(data: Seq<u8>)
    ensures
        spec_hash_with_context(Seq::<u8>::empty(), data) == spec_hash(data),
{
}

/// Equal inputs have equal digests.
pub proof fn lemma_hash_deterministic(x: Seq<u8>, y: Seq<u8>)
    requires
        x == y,
    ensures
        spec_hash(x) == spec_hash(y),
{
}

} // verus!
