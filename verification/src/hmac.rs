//! The keyed hash: HMAC over the hash function, for keys of at most one
//! block.

use vstd::prelude::*;
use crate::consts::{BLOCKLEN, HASHLEN};
use crate::hash::spec_hash;
use crate::hasher::{hasher_finalize, hasher_new, hasher_update};
use crate::utils::copy_slice;

verus! {

/// One block of the byte `fill`, with the key XOR-ed into its first bytes.
pub open spec fn hmac_pad(key: Seq<u8>, fill: u8) -> Seq<u8> {
    Seq::new(BLOCKLEN as nat, |i: int| if i < key.len() { fill ^ key[i] } else { fill })
}

/// The keyed hash of `data` under `key`: the hash of the outer pad
/// followed by the hash of the inner pad followed by `data`. A key longer
/// than one block is not hashed down first; `hmac` does not take one.
pub open spec fn spec_hmac(key: Seq<u8>, data: Seq<u8>) -> Seq<u8> {
    spec_hash(hmac_pad(key, 0x5c) + spec_hash(hmac_pad(key, 0x36) + data))
}

/// Writes the keyed hash of `data` under `key` to `out`.
///
/// The key is at most one block long and `out` holds one digest.
pub fn hmac(key: &[u8], data: &[u8], out: &mut [u8])
    requires
        key@.len() <= BLOCKLEN,
        data@.len() + BLOCKLEN <= u64::MAX,
        old(out)@.len() == HASHLEN,
    ensures
        final(out)@ == spec_hmac(key@, data@),
        final(out)@.len() == HASHLEN,
{
    let mut context = hasher_new(HASHLEN);
    let mut ipad = [0x36u8; 64];
    let mut opad = [0x5cu8; 64];
    let mut count: usize = 0;
    while count < key.len()
        invariant
            count <= key@.len() <= BLOCKLEN,
            forall|i: int| 0 <= i < count ==> ipad@[i] == 0x36u8 ^ key@[i],
            forall|i: int| count <= i < BLOCKLEN ==> ipad@[i] == 0x36u8,
            forall|i: int| 0 <= i < count ==> opad@[i] == 0x5cu8 ^ key@[i],
            forall|i: int| count <= i < BLOCKLEN ==> opad@[i] == 0x5cu8,
        decreases key@.len() - count,
    {
        ipad[count] ^= key[count];
        opad[count] ^= key[count];
        count += 1;
    }
    assert(ipad@ =~= hmac_pad(key@, 0x36));
    assert(opad@ =~= hmac_pad(key@, 0x5c));
    hasher_update(&mut context, ipad.as_slice());
    hasher_update(&mut context, data);
    let inner_output = hasher_finalize(context);
    context = hasher_new(HASHLEN);
    hasher_update(&mut context, opad.as_slice());
    hasher_update(&mut context, inner_output.as_slice());
    let outer_output = hasher_finalize(context);
    copy_slice(outer_output.as_slice(), out);
}

/// A key shorter than a block counts as filled up with zero bytes: such a
/// key and the same key with zero bytes behind it give the same keyed hash.
pub proof fn lemma_hmac_key_is_zero_padded(key: Seq<u8>, zeros: nat, data: Seq<u8>)
    requires
        key.len() + zeros <= BLOCKLEN,
    ensures
        spec_hmac(key + Seq::new(zeros, |i: int| 0u8), data) == spec_hmac(key, data),
{
    let padded = key + Seq::new(zeros, |i: int| 0u8);
    assert forall|fill: u8| #[trigger] hmac_pad(padded, fill) == hmac_pad(key, fill) by {
        assert(fill ^ 0u8 == fill) by (bit_vector);
    }
}

} // verus!
