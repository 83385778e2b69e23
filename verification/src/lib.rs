//! Symmetric building blocks of a Noise-style handshake: an AEAD cipher,
//! a hash function, a keyed hash and a key derivation function.
//!
//! Every function works on buffers the caller owns and keeps no state
//! between calls.

pub mod aead;
pub mod cipher;
pub mod consts;
pub mod hash;
pub mod hasher;
pub mod hkdf;
pub mod hmac;
pub mod utils;
