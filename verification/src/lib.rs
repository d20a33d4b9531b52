//! Fixed-size hash, MAC and HMAC operations derived from one flexible
//! keyed-hash primitive (BLAKE2b).
//!
//! Every operation reaches the primitive through [`blake2b_flexible`], which
//! selects null-key mode for an empty key. The hash is the primitive without
//! a key, the MAC is the primitive under a 32-byte key, and the HMAC nests
//! two MACs under the key XORed with the inner and the outer pad.

pub mod error;
pub mod hash;
pub mod hmac;
pub mod mac;
pub mod primitive;
pub mod sizes;
pub mod xor;

pub use error::HashError;
pub use hash::{hash, hash_into};
pub use hmac::{hmac, hmac_into, pad_key};
pub use mac::{mac, mac16, mac_into};
pub use primitive::{blake2b_flexible, check_status, select_key};
pub use sizes::{
    IPAD, KEY_MAX, KEY_MIN, KEY_SIZE, MAC_SIZE, NONCE0, NOTHING, OPAD, OUT_MAX, OUT_MIN,
};
pub use xor::xor_into;
