//! Fixed sizes shared by every primitive.

use vstd::prelude::*;

verus! {

/// Length of a symmetric key and of a Diffie-Hellman value, in bytes.
pub const DHLEN: usize = 32;

/// Length of a digest, in bytes.
pub const HASHLEN: usize = 32;

/// Block length of the hash function, in bytes.
pub const BLOCKLEN: usize = 64;

/// Length of an authentication tag, in bytes.
pub const MAC_LENGTH: usize = 16;

/// Length of the cipher's nonce, in bytes.
pub const NONCE_LENGTH: usize = 12;

} // verus!
