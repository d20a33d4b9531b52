//! Fixed sizes and canonical constant buffers.

use vstd::prelude::*;

verus! {

/// Length in bytes of every key, hash and full-size tag.
pub const KEY_SIZE: usize = 32;

/// Length in bytes of the short tag.
pub const MAC_SIZE: usize = 16;

/// Shortest key the adapter accepts in keyed mode.
pub const KEY_MIN: usize = 16;

/// Longest key the adapter accepts.
pub const KEY_MAX: usize = 64;

/// Shortest output the adapter produces.
pub const OUT_MIN: usize = 1;

/// Longest output the adapter produces.
pub const OUT_MAX: usize = 64;

/// The all-zero nonce of the companion AEAD cipher.
pub const NONCE0: [u8; 12] = [0, 0, 0, 0, 0, 0, 0, 0, 0, 0, 0, 0];

/// The empty byte string.
pub const NOTHING: [u8; 0] = [];

/// The pad XORed into the key for the inner MAC of the HMAC construction.
pub const IPAD: [u8; KEY_SIZE] = [
    0x36, 0x36, 0x36, 0x36, 0x36, 0x36, 0x36, 0x36,
    0x36, 0x36, 0x36, 0x36, 0x36, 0x36, 0x36, 0x36,
    0x36, 0x36, 0x36, 0x36, 0x36, 0x36, 0x36, 0x36,
    0x36, 0x36, 0x36, 0x36, 0x36, 0x36, 0x36, 0x36,
];

/// The pad XORed into the key for the outer MAC of the HMAC construction.
pub const OPAD: [u8; KEY_SIZE] = [
    0x5c, 0x5c, 0x5c, 0x5c, 0x5c, 0x5c, 0x5c, 0x5c,
    0x5c, 0x5c, 0x5c, 0x5c, 0x5c, 0x5c, 0x5c, 0x5c,
    0x5c, 0x5c, 0x5c, 0x5c, 0x5c, 0x5c, 0x5c, 0x5c,
    0x5c, 0x5c, 0x5c, 0x5c, 0x5c, 0x5c, 0x5c, 0x5c,
];

} // verus!
