//! The keyed MAC: the primitive under a 32-byte key, with a full or a short
//! tag.

use vstd::prelude::*;
use crate::error::HashError;
use crate::primitive::{blake2b, blake2b_flexible};
use crate::sizes::{KEY_SIZE, MAC_SIZE};

verus! {

/// The full tag of `data` under `key`: the keyed BLAKE2b digest of
/// `KEY_SIZE` bytes.
pub open spec fn mac_spec(key: Seq<u8>, data: Seq<u8>) -> Seq<u8> {
    blake2b(KEY_SIZE as nat, Some(key), data)
}

/// The short tag of `data` under `key`: the keyed BLAKE2b digest of
/// `MAC_SIZE` bytes, asked of the primitive at that length rather than cut
/// from the full tag.
pub open spec fn mac16_spec(key: Seq<u8>, data: Seq<u8>) -> Seq<u8> {
    blake2b(MAC_SIZE as nat, Some(key), data)
}

/// Writes the full tag of `data` under `key` into `out`.
pub fn mac_into(out: &mut [u8], key: &[u8], data: &[u8]) -> (r: Result<(), HashError>)
    requires
        old(out)@.len() == KEY_SIZE,
        key@.len() == KEY_SIZE,
    ensures
        r is Ok,
        final(out)@.len() == old(out)@.len(),
        final(out)@ == mac_spec(key@, data@),
{
    blake2b_flexible(out, key, data)
}

/// The full tag of `data` under `key`.
pub fn mac(key: &[u8], data: &[u8]) -> (r: Result<[u8; KEY_SIZE], HashError>)
    requires
        key@.len() == KEY_SIZE,
    ensures
        r is Ok,
        r->Ok_0@ == mac_spec(key@, data@),
{
    let mut r = [0u8; KEY_SIZE];
    match mac_into(&mut r, key, data) {
        Ok(_) => Ok(r),
        Err(e) => Err(e),
    }
}

/// The short tag of `data` under `key`.
pub fn mac16(key: &[u8], data: &[u8]) -> (r: Result<[u8; MAC_SIZE], HashError>)
    requires
        key@.len() == KEY_SIZE,
    ensures
        r is Ok,
        r->Ok_0@ == mac16_spec(key@, data@),
{
    let mut out = [0u8; MAC_SIZE];
    match blake2b_flexible(&mut out, key, data) {
        Ok(_) => Ok(out),
        Err(e) => Err(e),
    }
}

} // verus!
