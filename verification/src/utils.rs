//! Small buffer helpers: the nonce encoding and bounded copies.

use vstd::prelude::*;
use vstd::bytes::{
    lemma_auto_spec_u64_to_from_le_bytes, spec_u64_to_le_bytes, spec_u64_to_le_bytes_to_open,
    u64_to_le_bytes,
};
use crate::consts::{HASHLEN, NONCE_LENGTH};

verus! {

/// The cipher nonce of a message counter: four zero bytes followed by the
/// counter as eight little-endian bytes.
pub open spec fn nonce_bytes(n: u64) -> Seq<u8> {
    seq![0u8, 0u8, 0u8, 0u8] + spec_u64_to_le_bytes(n)
}

/// The layout of a nonce: twelve bytes, the first four zero, the other
/// eight the counter's bytes from the lowest to the highest.
pub proof fn lemma_nonce_layout(n: u64)
    ensures
        nonce_bytes(n).len() == NONCE_LENGTH,
        forall|i: int| 0 <= i < 4 ==> nonce_bytes(n)[i] == 0u8,
        nonce_bytes(n)[4] == (n & 0xff) as u8,
        nonce_bytes(n)[5] == ((n >> 8) & 0xff) as u8,
        nonce_bytes(n)[6] == ((n >> 16) & 0xff) as u8,
        nonce_bytes(n)[7] == ((n >> 24) & 0xff) as u8,
        nonce_bytes(n)[8] == ((n >> 32) & 0xff) as u8,
        nonce_bytes(n)[9] == ((n >> 40) & 0xff) as u8,
        nonce_bytes(n)[10] == ((n >> 48) & 0xff) as u8,
        nonce_bytes(n)[11] == ((n >> 56) & 0xff) as u8,
{
    spec_u64_to_le_bytes_to_open(n);
}

/// Two counters with the same nonce are the same counter: a key that never
/// sees a counter twice never sees a nonce twice.
pub proof fn lemma_nonce_injective(a: u64, b: u64)
    requires
        nonce_bytes(a) == nonce_bytes(b),
    ensures
        a == b,
{
    lemma_auto_spec_u64_to_from_le_bytes();
    assert(spec_u64_to_le_bytes(a) =~= nonce_bytes(a).skip(4));
    assert(spec_u64_to_le_bytes(b) =~= nonce_bytes(b).skip(4));
}

/// Encodes the message counter `n` as the nonce the cipher expects.
pub fn prep_nonce(n: u64) -> (nonce: [u8; NONCE_LENGTH])
    ensures
        nonce@ == nonce_bytes(n),
{
    let le = u64_to_le_bytes(n);
    let mut nonce = [0u8; 12];
    let mut i: usize = 0;
    while i < 8
        invariant
            i <= 8,
            le@.len() == 8,
            forall|j: int| 0 <= j < 4 ==> nonce@[j] == 0u8,
            forall|j: int| 0 <= j < i ==> nonce@[4 + j] == le@[j],
        decreases 8 - i,
    {
        nonce[i + 4] = le[i];
        i += 1;
    }
    nonce
}

/// Copies a digest-sized slice into an owned digest.
pub fn from_slice_hashlen(bytes: &[u8]) -> (digest: [u8; HASHLEN])
    requires
        bytes@.len() == HASHLEN,
    ensures
        digest@ == bytes@,
{
    let mut digest = [0u8; 32];
    let mut i: usize = 0;
    while i < 32
        invariant
            i <= 32,
            bytes@.len() == 32,
            forall|j: int| 0 <= j < i ==> digest@[j] == bytes@[j],
        decreases 32 - i,
    {
        digest[i] = bytes[i];
        i += 1;
    }
    digest
}

/// Overwrites `dst` with `src`; both have the same length.
pub fn copy_slice(src: &[u8], dst: &mut [u8])
    requires
        old(dst)@.len() == src@.len(),
    ensures
        final(dst)@ == src@,
{
    let n = src.len();
    let mut i: usize = 0;
    while i < n
        invariant
            i <= n,
            n == src@.len(),
            dst@.len() == src@.len(),
            forall|j: int| 0 <= j < i ==> dst@[j] == src@[j],
        decreases n - i,
    {
        dst[i] = src[i];
        i += 1;
    }
}

} // verus!
