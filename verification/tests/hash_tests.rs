use noise_primitives::consts::{BLOCKLEN, DHLEN, HASHLEN, MAC_LENGTH, NONCE_LENGTH};
use noise_primitives::hash::{hash, hash_with_context};
use noise_primitives::utils::{copy_slice, from_slice_hashlen};

#[test]
fn sizes_are_the_documented_ones() {
    assert_eq!(DHLEN, 32);
    assert_eq!(HASHLEN, 32);
    assert_eq!(BLOCKLEN, 64);
    assert_eq!(MAC_LENGTH, 16);
    assert_eq!(NONCE_LENGTH, 12);
}

#[test]
fn hash_of_empty_input() {
    assert_eq!(
        hash(&[]),
        [
            0x69, 0x21, 0x7a, 0x30, 0x79, 0x90, 0x80, 0x94, 0xe1, 0x11, 0x21, 0xd0, 0x42, 0x35,
            0x4a, 0x7c, 0x1f, 0x55, 0xb6, 0x48, 0x2c, 0xa1, 0xa5, 0x1e, 0x1b, 0x25, 0x0d, 0xfd,
            0x1e, 0xd0, 0xee, 0xf9
        ]
    );
}

#[test]
fn hash_of_abc() {
    assert_eq!(
        hash(b"abc"),
        [
            0x50, 0x8c, 0x5e, 0x8c, 0x32, 0x7c, 0x14, 0xe2, 0xe1, 0xa7, 0x2b, 0xa3, 0x4e, 0xeb,
            0x45, 0x2f, 0x37, 0x45, 0x8b, 0x20, 0x9e, 0xd6, 0x3a, 0x29, 0x4d, 0x99, 0x9b, 0x4c,
            0x86, 0x67, 0x59, 0x82
        ]
    );
}

#[test]
fn hash_of_a_sentence() {
    assert_eq!(
        hash(b"The quick brown fox jumps over the lazy dog"),
        [
            0x60, 0x6b, 0xee, 0xec, 0x74, 0x3c, 0xcb, 0xef, 0xf6, 0xcb, 0xcd, 0xf5, 0xd5, 0x30,
            0x2a, 0xa8, 0x55, 0xc2, 0x56, 0xc2, 0x9b, 0x88, 0xc8, 0xed, 0x33, 0x1e, 0xa1, 0xa6,
            0xbf, 0x3c, 0x88, 0x12
        ]
    );
}

#[test]
fn hash_of_exactly_one_block() {
    assert_eq!(
        hash(&[b'a'; 64]),
        [
            0x65, 0x1d, 0x2f, 0x5f, 0x20, 0x95, 0x2e, 0xac, 0xae, 0xa2, 0xfb, 0xa2, 0xf2, 0xaf,
            0x2b, 0xcd, 0x63, 0x3e, 0x51, 0x1e, 0xa2, 0xd2, 0xe4, 0xc9, 0xae, 0x2a, 0xc0, 0xd9,
            0xff, 0xb7, 0xb2, 0x52
        ]
    );
}

#[test]
fn hash_of_one_byte_past_a_block() {
    assert_eq!(
        hash(&[b'a'; 65]),
        [
            0x04, 0x5f, 0x8a, 0xe1, 0x89, 0x32, 0x11, 0x9b, 0xd0, 0x51, 0xac, 0x7b, 0xa5, 0xc7,
            0x3d, 0xb5, 0x98, 0x92, 0x05, 0x5f, 0xad, 0x5c, 0x32, 0xf8, 0x2d, 0x79, 0xa6, 0x54,
            0x3d, 0x92, 0xa4, 0x97
        ]
    );
}

#[test]
fn hash_agrees_with_the_one_call_form() {
    let data: Vec<u8> = (0..300u32).map(|i| (i % 251) as u8).collect();
    let direct = blake2_rfc::blake2s::blake2s(32, &[], &data);
    assert_eq!(&hash(&data)[..], direct.as_bytes());
}

#[test]
fn hash_is_deterministic() {
    let data = b"the same bytes twice";
    assert_eq!(hash(data), hash(data));
}

#[test]
fn hash_tells_inputs_apart() {
    let inputs: [&[u8]; 6] = [b"", b"a", b"b", b"ab", b"ba", b"a\0"];
    for (i, x) in inputs.iter().enumerate() {
        for (j, y) in inputs.iter().enumerate() {
            if i != j {
                assert_ne!(hash(x), hash(y));
            }
        }
    }
}

#[test]
fn hash_with_context_matches_reference() {
    assert_eq!(
        hash_with_context(b"Noise_KK1_25519_ChaChaPoly_BLAKE2s", b"prologue"),
        [
            0xc6, 0x39, 0x71, 0xe6, 0xa3, 0x3d, 0x3c, 0xe4, 0x20, 0x8f, 0xaf, 0xba, 0x9d, 0xf3,
            0x34, 0x08, 0xab, 0xf8, 0x3e, 0x69, 0x6f, 0x06, 0x00, 0x1b, 0xaa, 0x8e, 0xee, 0x16,
            0x1b, 0xfc, 0x0d, 0x4f
        ]
    );
}

#[test]
fn hash_with_context_is_hash_of_the_concatenation() {
    let contexts: [&[u8]; 4] = [b"", b"c", b"context", &[7u8; 64]];
    let messages: [&[u8]; 4] = [b"", b"d", b"some data", &[9u8; 100]];
    for con in contexts.iter() {
        for data in messages.iter() {
            let mut joined = con.to_vec();
            joined.extend_from_slice(data);
            assert_eq!(hash_with_context(con, data), hash(&joined));
        }
    }
}

#[test]
fn hash_with_context_depends_on_where_the_split_is_not() {
    assert_eq!(hash_with_context(b"ab", b"c"), hash_with_context(b"a", b"bc"));
    assert_eq!(hash_with_context(b"", b"abc"), hash(b"abc"));
    assert_eq!(hash_with_context(b"abc", b""), hash(b"abc"));
}

#[test]
fn hash_with_context_depends_on_the_order() {
    assert_ne!(hash_with_context(b"ab", b"cd"), hash_with_context(b"cd", b"ab"));
}

#[test]
fn from_slice_hashlen_copies_every_byte() {
    let bytes: Vec<u8> = (100..132).collect();
    let digest = from_slice_hashlen(&bytes);
    assert_eq!(&digest[..], &bytes[..]);
}

#[test]
fn copy_slice_overwrites_the_destination() {
    let mut dst = [0u8; 5];
    copy_slice(&[1, 2, 3, 4, 5], &mut dst);
    assert_eq!(dst, [1, 2, 3, 4, 5]);
    let mut empty = [0u8; 0];
    copy_slice(&[], &mut empty);
    assert_eq!(empty.len(), 0);
}
