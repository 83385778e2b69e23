//! The BLAKE2s hashing context of the `blake2_rfc` crate, described by the
//! bytes it has absorbed. Nothing in this module is proved: each contract
//! restates what the crate's source shows.

use blake2_rfc::blake2s::Blake2s;
use vstd::prelude::*;

verus! {

/// The hashing context of `blake2_rfc::blake2s`, opaque to the verifier.
#[verifier::external_type_specification]
#[verifier::external_body]
pub struct ExBlake2s(blake2_rfc::blake2s::Blake2s);

/// The bytes a hashing context has absorbed so far, oldest first.
pub uninterp spec fn absorbed(ctx: Blake2s) -> Seq<u8>;

/// The digest length, in bytes, a hashing context was created with.
pub uninterp spec fn digest_len(ctx: Blake2s) -> nat;

/// The unkeyed BLAKE2s digest of `data`, `nn` bytes long.
pub uninterp spec fn blake2s_digest(nn: nat, data: Seq<u8>) -> Seq<u8>;

/// `Blake2s::new`: an unkeyed context that has absorbed nothing and will
/// produce `nn` bytes. The crate asserts `1 <= nn <= 32`.
#[verifier::external_body]
pub(crate) fn hasher_new(nn: usize) -> (ctx: Blake2s)
    requires
        1 <= nn <= 32,
    ensures
        absorbed(ctx) == Seq::<u8>::empty(),
        digest_len(ctx) == nn,
{
    Blake2s::new(nn)
}

/// `Blake2s::update`: appends `data` to what the context has absorbed and
/// keeps its digest length. The crate counts the absorbed bytes in a `u64`
/// and panics when that counter overflows.
#[verifier::external_body]
pub(crate) fn hasher_update(ctx: &mut Blake2s, data: &[u8])
    requires
        absorbed(*old(ctx)).len() + data@.len() <= u64::MAX,
    ensures
        absorbed(*final(ctx)) == absorbed(*old(ctx)) + data@,
        digest_len(*final(ctx)) == digest_len(*old(ctx)),
{
    ctx.update(data)
}

/// `Blake2s::finalize`, read through `Blake2sResult::as_bytes`: the digest
/// of everything the context absorbed, as many bytes as the context was
/// created for.
#[verifier::external_body]
pub(crate) fn hasher_finalize(ctx: Blake2s) -> (digest: Vec<u8>)
    ensures
        digest@ == blake2s_digest(digest_len(ctx), absorbed(ctx)),
        digest@.len() == digest_len(ctx),
{
    ctx.finalize().as_bytes().to_vec()
}

} // verus!
