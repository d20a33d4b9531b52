//! The flexible keyed-hash primitive and the adapter every operation goes
//! through.

use vstd::prelude::*;
use crate::error::HashError;
use crate::sizes::{KEY_MAX, KEY_MIN, OUT_MAX, OUT_MIN};

verus! {

/// The error type of the `dryoc` crate, carried through unread.
#[verifier::external_type_specification]
#[verifier::external_body]
pub struct ExPrimitiveError(dryoc::Error);

/// The BLAKE2b digest of `out_len` bytes that
/// `dryoc::classic::crypto_generichash::crypto_generichash` computes over
/// `data`, unkeyed for `None` and keyed for `Some`.
pub uninterp spec fn blake2b(out_len: nat, key: Option<Seq<u8>>, data: Seq<u8>) -> Seq<u8>;

/// The key as the primitive sees it.
pub open spec fn key_view(key: Option<&[u8]>) -> Option<Seq<u8>> {
    match key {
        Some(k) => Some(k@),
        None => None,
    }
}

/// The lengths the primitive works on: 1 to 64 bytes of output, and a key,
/// where there is one, of at most 64 bytes.
pub open spec fn primitive_accepts(out_len: nat, key: Option<Seq<u8>>) -> bool {
    &&& 1 <= out_len <= 64
    &&& key matches Some(k) ==> k.len() <= 64
}

/// Calls `dryoc::classic::crypto_generichash::crypto_generichash`.
///
/// Trusted, not proved: the call succeeds exactly on the lengths of
/// [`primitive_accepts`], and on success `out` holds the digest named
/// [`blake2b`] for its own length, the key and the data. Nothing is claimed
/// of what `out` holds after a failure.
#[verifier::external_body]
pub(crate) fn generichash(
    out: &mut [u8],
    data: &[u8],
    key: Option<&[u8]>,
) -> (status: Result<(), dryoc::Error>)
    ensures
        final(out)@.len() == old(out)@.len(),
        status is Ok <==> primitive_accepts(old(out)@.len(), key_view(key)),
        status is Ok ==> final(out)@ == blake2b(old(out)@.len(), key_view(key), data@),
{
    dryoc::classic::crypto_generichash::crypto_generichash(out, data, key)
}

/// The key argument the adapter hands to the primitive: none for an empty
/// key, the key itself otherwise.
pub open spec fn key_argument(key: Seq<u8>) -> Option<Seq<u8>> {
    if key.len() == 0 {
        None
    } else {
        Some(key)
    }
}

/// The lengths the adapter works on: a key that is empty or of `KEY_MIN` to
/// `KEY_MAX` bytes, and an output of `OUT_MIN` to `OUT_MAX` bytes, the whole
/// range of the primitive.
pub open spec fn adapter_accepts(out_len: nat, key_len: nat) -> bool {
    &&& key_len == 0 || KEY_MIN <= key_len <= KEY_MAX
    &&& OUT_MIN <= out_len <= OUT_MAX
}

/// Chooses null-key mode for an empty key: the primitive is then handed no
/// key at all rather than a key of length zero.
pub fn select_key(key: &[u8]) -> (arg: Option<&[u8]>)
    ensures
        key_view(arg) == key_argument(key@),
{
    if key.len() == 0 {
        None
    } else {
        Some(key)
    }
}

/// Turns the primitive's status into the library's result.
pub fn check_status(status: Result<(), dryoc::Error>) -> (r: Result<(), HashError>)
    ensures
        status is Ok ==> r == Ok::<(), HashError>(()),
        status is Err ==> r == Err::<(), HashError>(HashError::Primitive),
{
    match status {
        Ok(_) => Ok(()),
        Err(_) => Err(HashError::Primitive),
    }
}

/// Fills `out` with the BLAKE2b digest of `data` under `key`, of the length
/// of `out`. An empty key selects the unkeyed hash.
pub fn blake2b_flexible(out: &mut [u8], key: &[u8], data: &[u8]) -> (r: Result<(), HashError>)
    requires
        adapter_accepts(old(out)@.len(), key@.len()),
    ensures
        r is Ok,
        final(out)@.len() == old(out)@.len(),
        final(out)@ == blake2b(old(out)@.len(), key_argument(key@), data@),
{
    let arg = select_key(key);
    let status = generichash(out, data, arg);
    check_status(status)
}

} // verus!
