//! The ChaCha20-Poly1305 cipher of the `chacha20_poly1305_aead` crate.
//! Nothing in this module is proved: each contract restates what the
//! crate's source and documentation show.

use chacha20_poly1305_aead::DecryptError;
use vstd::prelude::*;

verus! {

/// The error of `chacha20_poly1305_aead::decrypt`, opaque to the verifier.
#[verifier::external_type_specification]
#[verifier::external_body]
pub struct ExDecryptError(chacha20_poly1305_aead::DecryptError);

/// The cipher refuses an input of this many bytes or more: its block
/// counter has 32 bits and a block has 64 bytes.
pub const CIPHER_INPUT_LIMIT: u64 = 0x3f_ffff_ffc0;

/// What `chacha20_poly1305_aead::encrypt` makes of a message: the
/// ciphertext it writes and the tag it returns.
pub uninterp spec fn chacha20_poly1305_seal(
    key: Seq<u8>,
    nonce: Seq<u8>,
    aad: Seq<u8>,
    input: Seq<u8>,
) -> (Seq<u8>, Seq<u8>);

/// What `chacha20_poly1305_aead::decrypt` makes of a ciphertext and a tag:
/// the plaintext it writes, or `None` where it returns an error.
pub uninterp spec fn chacha20_poly1305_open(
    key: Seq<u8>,
    nonce: Seq<u8>,
    aad: Seq<u8>,
    input: Seq<u8>,
    tag: Seq<u8>,
) -> Option<Seq<u8>>;

/// `chacha20_poly1305_aead::encrypt`, writing into a fresh vector.
///
/// The crate asserts a 32-byte key and a 12-byte nonce and returns an
/// error, which this wrapper would unwrap, for an input at the limit.
/// Trusted of the result: the ciphertext is as long as the input; and,
/// because `decrypt` recomputes the same tag over the same bytes, compares
/// it with the one given and then applies the same key stream, `decrypt`
/// accepts this ciphertext under this tag alone and gives the input back.
#[verifier::external_body]
pub(crate) fn seal(key: &[u8], nonce: &[u8], aad: &[u8], input: &[u8]) -> (out: (
    Vec<u8>,
    [u8; 16],
))
    requires
        key@.len() == 32,
        nonce@.len() == 12,
        input@.len() < CIPHER_INPUT_LIMIT,
    ensures
        (out.0@, out.1@) == chacha20_poly1305_seal(key@, nonce@, aad@, input@),
        out.0@.len() == input@.len(),
        chacha20_poly1305_open(key@, nonce@, aad@, out.0@, out.1@) == Some(input@),
        forall|tag: Seq<u8>|
            tag.len() == 16 && tag != out.1@ ==> (#[trigger] chacha20_poly1305_open(
                key@,
                nonce@,
                aad@,
                out.0@,
                tag,
            )) is None,
{
    let mut output = Vec::with_capacity(input.len());
    let tag = chacha20_poly1305_aead::encrypt(key, nonce, aad, input, &mut output).unwrap();
    (output, tag)
}

/// `chacha20_poly1305_aead::decrypt`, writing into a fresh vector.
///
/// The crate asserts a 32-byte key, a 12-byte nonce and a 16-byte tag.
/// Trusted of the result: on success the plaintext is as long as the
/// input.
#[verifier::external_body]
pub(crate) fn open(key: &[u8], nonce: &[u8], aad: &[u8], input: &[u8], tag: &[u8]) -> (out: Result<
    Vec<u8>,
    DecryptError,
>)
    requires
        key@.len() == 32,
        nonce@.len() == 12,
        tag@.len() == 16,
    ensures
        match out {
            Ok(output) => chacha20_poly1305_open(key@, nonce@, aad@, input@, tag@) == Some(
                output@,
            ) && output@.len() == input@.len(),
            Err(_) => chacha20_poly1305_open(key@, nonce@, aad@, input@, tag@) is None,
        },
{
    let mut output = Vec::with_capacity(input.len());
    match chacha20_poly1305_aead::decrypt(key, nonce, aad, input, tag, &mut output) {
        Ok(()) => Ok(output),
        Err(e) => Err(e),
    }
}

} // verus!
