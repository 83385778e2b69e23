//! The AEAD cipher: ChaCha20-Poly1305 under a 32-byte key, a message
//! counter as nonce, and a detached 16-byte tag.

use vstd::prelude::*;
use crate::cipher::{
    chacha20_poly1305_open, chacha20_poly1305_seal, open, seal, CIPHER_INPUT_LIMIT,
};
use crate::consts::{DHLEN, MAC_LENGTH};
use crate::utils::{copy_slice, nonce_bytes, prep_nonce};

verus! {

/// The ciphertext and the tag of `plaintext` under key `k`, message counter
/// `n` and associated data `ad`.
pub open spec fn spec_encrypt(k: Seq<u8>, n: u64, ad: Seq<u8>, plaintext: Seq<u8>) -> (
    Seq<u8>,
    Seq<u8>,
) {
    chacha20_poly1305_seal(k, nonce_bytes(n), ad, plaintext)
}

/// The plaintext of `ciphertext` under key `k`, message counter `n` and
/// associated data `ad`, or `None` where the tag `mac` does not
/// authenticate it.
pub open spec fn spec_decrypt(
    k: Seq<u8>,
    n: u64,
    ad: Seq<u8>,
    ciphertext: Seq<u8>,
    mac: Seq<u8>,
) -> Option<Seq<u8>> {
    chacha20_poly1305_open(k, nonce_bytes(n), ad, ciphertext, mac)
}

/// Encrypts `plaintext` into `ciphertext` and writes the tag that
/// authenticates the ciphertext and `ad` to `mac`.
///
/// Decrypting the result under the same key, counter and associated data
/// gives the plaintext back, and no other tag is accepted for it.
pub fn encrypt(
    k: [u8; DHLEN],
    n: u64,
    ad: &[u8],
    plaintext: &[u8],
    ciphertext: &mut [u8],
    mac: &mut [u8; MAC_LENGTH],
)
    requires
        old(ciphertext)@.len() == plaintext@.len(),
        plaintext@.len() < CIPHER_INPUT_LIMIT,
    ensures
        (final(ciphertext)@, final(mac)@) == spec_encrypt(k@, n, ad@, plaintext@),
        final(ciphertext)@.len() == plaintext@.len(),
        spec_decrypt(k@, n, ad@, final(ciphertext)@, final(mac)@) == Some(plaintext@),
        forall|tag: Seq<u8>|
            tag.len() == MAC_LENGTH && tag != final(mac)@ ==> (#[trigger] spec_decrypt(
                k@,
                n,
                ad@,
                final(ciphertext)@,
                tag,
            )) is None,
{
    let nonce = prep_nonce(n);
    let (cipher_text, tag) = seal(&k, &nonce, ad, plaintext);
    *mac = tag;
    copy_slice(cipher_text.as_slice(), ciphertext);
}

/// Checks the tag `mac` over `ciphertext` and `ad` and, where it holds,
/// writes the plaintext to `plaintext` and returns `true`. Where it does
/// not, `plaintext` is left as it was.
pub fn decrypt(
    k: [u8; DHLEN],
    n: u64,
    ad: &[u8],
    plaintext: &mut [u8],
    ciphertext: &[u8],
    mac: &[u8; MAC_LENGTH],
) -> (authentic: bool)
    requires
        old(plaintext)@.len() == ciphertext@.len(),
    ensures
        authentic == spec_decrypt(k@, n, ad@, ciphertext@, mac@) is Some,
        authentic ==> Some(final(plaintext)@) == spec_decrypt(k@, n, ad@, ciphertext@, mac@),
        !authentic ==> final(plaintext)@ == old(plaintext)@,
        final(plaintext)@.len() == ciphertext@.len(),
{
    let nonce = prep_nonce(n);
    match open(&k, &nonce, ad, ciphertext, mac) {
        Ok(plain_text) => {
            copy_slice(plain_text.as_slice(), plaintext);
            true
        },
        Err(_) => false,
    }
}

} // verus!
