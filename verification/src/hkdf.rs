//! The key derivation function: one to three digests chained by the keyed
//! hash.

use vstd::prelude::*;
use crate::consts::{BLOCKLEN, HASHLEN};
use crate::hmac::{hmac, spec_hmac};

verus! {

/// The intermediate key that keys every output of one derivation.
pub open spec fn spec_hkdf_temp_key(chaining_key: Seq<u8>, input_key_material: Seq<u8>) -> Seq<u8> {
    spec_hmac(chaining_key, input_key_material)
}

/// The first derived output.
pub open spec fn spec_hkdf_out1(chaining_key: Seq<u8>, input_key_material: Seq<u8>) -> Seq<u8> {
    spec_hmac(spec_hkdf_temp_key(chaining_key, input_key_material), seq![1u8])
}

/// The second derived output.
pub open spec fn spec_hkdf_out2(chaining_key: Seq<u8>, input_key_material: Seq<u8>) -> Seq<u8> {
    spec_hmac(
        spec_hkdf_temp_key(chaining_key, input_key_material),
        spec_hkdf_out1(chaining_key, input_key_material) + seq![2u8],
    )
}

/// The third derived output.
pub open spec fn spec_hkdf_out3(chaining_key: Seq<u8>, input_key_material: Seq<u8>) -> Seq<u8> {
    spec_hmac(
        spec_hkdf_temp_key(chaining_key, input_key_material),
        spec_hkdf_out2(chaining_key, input_key_material) + seq![3u8],
    )
}

/// The outputs that a derivation asked for `outputs` digests produces, in
/// order.
pub open spec fn spec_hkdf(
    chaining_key: Seq<u8>,
    input_key_material: Seq<u8>,
    outputs: int,
) -> Seq<Seq<u8>> {
    let all = seq![
        spec_hkdf_out1(chaining_key, input_key_material),
        spec_hkdf_out2(chaining_key, input_key_material),
        spec_hkdf_out3(chaining_key, input_key_material),
    ];
    all.take(outputs)
}

/// The first `HASHLEN` bytes of `head`, followed by the byte `counter`.
fn chain_input(head: &[u8], counter: u8) -> (input: [u8; 33])
    requires
        head@.len() >= HASHLEN,
    ensures
        input@ == head@.take(HASHLEN as int) + seq![counter],
{
    let mut input = [0u8; 33];
    let mut i: usize = 0;
    while i < 32
        invariant
            i <= 32,
            head@.len() >= 32,
            forall|j: int| 0 <= j < i ==> input@[j] == head@[j],
        decreases 32 - i,
    {
        input[i] = head[i];
        i += 1;
    }
    input[32] = counter;
    input
}

/// Derives `outputs` digests from the chaining key and the input key
/// material: the first into `out1`, the second into `out2`, the third into
/// `out3`. A buffer that is not asked for is left as it was.
pub fn hkdf(
    chaining_key: &[u8],
    input_key_material: &[u8],
    outputs: usize,
    out1: &mut [u8],
    out2: &mut [u8],
    out3: &mut [u8],
)
    requires
        1 <= outputs <= 3,
        chaining_key@.len() <= BLOCKLEN,
        input_key_material@.len() + BLOCKLEN <= u64::MAX,
        old(out1)@.len() == HASHLEN,
        outputs >= 2 ==> old(out2)@.len() == HASHLEN,
        outputs >= 3 ==> old(out3)@.len() == HASHLEN,
    ensures
        final(out1)@ == spec_hkdf_out1(chaining_key@, input_key_material@),
        final(out2)@ == if outputs >= 2 {
            spec_hkdf_out2(chaining_key@, input_key_material@)
        } else {
            old(out2)@
        },
        final(out3)@ == if outputs >= 3 {
            spec_hkdf_out3(chaining_key@, input_key_material@)
        } else {
            old(out3)@
        },
        seq![final(out1)@, final(out2)@, final(out3)@].take(outputs as int) == spec_hkdf(
            chaining_key@,
            input_key_material@,
            outputs as int,
        ),
        outputs >= 2 ==> final(out2)@ == spec_hmac(
            spec_hkdf_temp_key(chaining_key@, input_key_material@),
            final(out1)@ + seq![2u8],
        ),
        outputs >= 3 ==> final(out3)@ == spec_hmac(
            spec_hkdf_temp_key(chaining_key@, input_key_material@),
            final(out2)@ + seq![3u8],
        ),
        final(out1)@.len() == HASHLEN,
        final(out2)@.len() == old(out2)@.len(),
        final(out3)@.len() == old(out3)@.len(),
{
    let mut temp_key = [0u8; 32];
    hmac(chaining_key, input_key_material, &mut temp_key);
    let one = [1u8];
    assert(one@ =~= seq![1u8]);
    hmac(&temp_key, &one, out1);
    if outputs == 1 {
        return;
    }
    let in2 = chain_input(out1, 2);
    assert(out1@.take(HASHLEN as int) =~= out1@);
    hmac(&temp_key, &in2, out2);
    if outputs == 2 {
        return;
    }
    let in3 = chain_input(out2, 3);
    assert(out2@.take(HASHLEN as int) =~= out2@);
    hmac(&temp_key, &in3, out3);
}

/// Each later output is the keyed hash, under the intermediate key, of the
/// output before it followed by its own number.
pub proof fn lemma_hkdf_chain(chaining_key: Seq<u8>, input_key_material: Seq<u8>)
    ensures
        spec_hkdf_out2(chaining_key, input_key_material) == spec_hmac(
            spec_hkdf_temp_key(chaining_key, input_key_material),
            spec_hkdf_out1(chaining_key, input_key_material) + seq![2u8],
        ),
        spec_hkdf_out3(chaining_key, input_key_material) == spec_hmac(
            spec_hkdf_temp_key(chaining_key, input_key_material),
            spec_hkdf_out2(chaining_key, input_key_material) + seq![3u8],
        ),
{
}

/// Asking for fewer outputs gives the first ones of a longer derivation:
/// what a derivation produces does not depend on how many outputs follow.
pub proof fn lemma_hkdf_prefix(
    chaining_key: Seq<u8>,
    input_key_material: Seq<u8>,
    fewer: int,
    more: int,
)
    requires
        1 <= fewer <= more <= 3,
    ensures
        spec_hkdf(chaining_key, input_key_material, fewer).len() == fewer,
        spec_hkdf(chaining_key, input_key_material, fewer) == spec_hkdf(
            chaining_key,
            input_key_material,
            more,
        ).take(fewer),
{
}

} // verus!
