//! The HMAC construction: two nested MACs under the key XORed with the
//! inner and the outer pad.

use vstd::prelude::*;
use crate::error::HashError;
use crate::mac::{mac, mac_into, mac_spec};
use crate::sizes::{IPAD, KEY_SIZE, OPAD};
use crate::xor::{copy_into, xor_into, xor_seq};

verus! {

/// The key of the inner MAC.
pub open spec fn inner_key_spec(key: Seq<u8>) -> Seq<u8> {
    xor_seq(key, IPAD@)
}

/// The key of the outer MAC.
pub open spec fn outer_key_spec(key: Seq<u8>) -> Seq<u8> {
    xor_seq(key, OPAD@)
}

/// The HMAC of `data` under `key`: the full tag, under the outer key, of the
/// full tag of `data` under the inner key.
pub open spec fn hmac_spec(key: Seq<u8>, data: Seq<u8>) -> Seq<u8> {
    mac_spec(outer_key_spec(key), mac_spec(inner_key_spec(key), data))
}

/// The key XORed with a pad: the first step towards each of the two MACs.
pub fn pad_key(key: &[u8], pad: &[u8; KEY_SIZE]) -> (padded: [u8; KEY_SIZE])
    requires
        key@.len() == KEY_SIZE,
    ensures
        padded@ == xor_seq(key@, pad@),
{
    let mut padded = [0u8; KEY_SIZE];
    copy_into(&mut padded, key);
    xor_into(&mut padded, pad);
    padded
}

/// Writes the HMAC of `data` under `key` into `out`. A key that is not
/// `KEY_SIZE` bytes long is refused and `out` left as it was.
pub fn hmac_into(out: &mut [u8], key: &[u8], data: &[u8]) -> (r: Result<(), HashError>)
    requires
        key@.len() == KEY_SIZE ==> old(out)@.len() == KEY_SIZE,
    ensures
        final(out)@.len() == old(out)@.len(),
        key@.len() == KEY_SIZE ==> r is Ok && final(out)@ == hmac_spec(key@, data@),
        key@.len() != KEY_SIZE ==> r == Err::<(), HashError>(HashError::KeySize) && final(out)@
            == old(out)@,
{
    if key.len() != KEY_SIZE {
        return Err(HashError::KeySize);
    }
    let inner_key = pad_key(key, &IPAD);
    let outer_data = match mac(&inner_key, data) {
        Ok(tag) => tag,
        Err(e) => { return Err(e); },
    };
    let outer_key = pad_key(key, &OPAD);
    mac_into(out, &outer_key, &outer_data)
}

/// The HMAC of `data` under `key`.
pub fn hmac(key: &[u8], data: &[u8]) -> (r: Result<[u8; KEY_SIZE], HashError>)
    ensures
        key@.len() == KEY_SIZE ==> r is Ok && r->Ok_0@ == hmac_spec(key@, data@),
        key@.len() != KEY_SIZE ==> r == Err::<[u8; KEY_SIZE], HashError>(HashError::KeySize),
{
    let mut r = [0u8; KEY_SIZE];
    match hmac_into(&mut r, key, data) {
        Ok(_) => Ok(r),
        Err(e) => Err(e),
    }
}

/// The pads hold `0x36` and `0x5c` in each of their `KEY_SIZE` bytes, and
/// their XOR holds `0x6a` in each byte. Neither pad is the zero buffer, and
/// the two differ.
pub proof fn pads_xor_to_constant()
    ensures
        IPAD@ == Seq::new(KEY_SIZE as nat, |i: int| 0x36u8),
        OPAD@ == Seq::new(KEY_SIZE as nat, |i: int| 0x5cu8),
        xor_seq(IPAD@, OPAD@) == Seq::new(KEY_SIZE as nat, |i: int| 0x6au8),
        IPAD@ != OPAD@,
        IPAD@ != Seq::new(KEY_SIZE as nat, |i: int| 0u8),
        OPAD@ != Seq::new(KEY_SIZE as nat, |i: int| 0u8),
{
    assert(0x36u8 ^ 0x5cu8 == 0x6au8) by (bit_vector);
    assert(IPAD@[0] == 0x36u8);
    assert(OPAD@[0] == 0x5cu8);
    assert(Seq::new(KEY_SIZE as nat, |i: int| 0u8)[0] == 0u8);
}

/// Whatever the key, the inner and the outer MAC run under different keys.
pub proof fn inner_and_outer_key_differ(key: Seq<u8>)
    requires
        key.len() == KEY_SIZE,
    ensures
        inner_key_spec(key) != outer_key_spec(key),
{
    let k: u8 = key[0];
    assert(k ^ 0x36u8 != k ^ 0x5cu8) by (bit_vector);
    assert(inner_key_spec(key)[0] == k ^ 0x36u8);
    assert(outer_key_spec(key)[0] == k ^ 0x5cu8);
}

/// The HMAC is the MAC, under the outer key, of the MAC under the inner key:
/// a tag computed in those two steps equals the one `hmac` returns.
pub proof fn hmac_is_nested_mac(
    key: Seq<u8>,
    data: Seq<u8>,
    inner_tag: [u8; KEY_SIZE],
    outer_tag: [u8; KEY_SIZE],
    tag: [u8; KEY_SIZE],
)
    requires
        key.len() == KEY_SIZE,
        inner_tag@ == mac_spec(inner_key_spec(key), data),
        outer_tag@ == mac_spec(outer_key_spec(key), inner_tag@),
        tag@ == hmac_spec(key, data),
    ensures
        tag == outer_tag,
{
    assert(tag@ =~= outer_tag@);
    assert(tag =~= outer_tag);
}

} // verus!
