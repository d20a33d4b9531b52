//! The keyless hash: the primitive in null-key mode with a 32-byte output.

use vstd::prelude::*;
use crate::error::HashError;
use crate::primitive::{blake2b, blake2b_flexible};
use crate::sizes::{KEY_SIZE, NOTHING};

verus! {

/// The hash of `data`: its unkeyed BLAKE2b digest of `KEY_SIZE` bytes.
pub open spec fn hash_spec(data: Seq<u8>) -> Seq<u8> {
    blake2b(KEY_SIZE as nat, None, data)
}

/// Writes the hash of `data` into `out`.
pub fn hash_into(out: &mut [u8], data: &[u8]) -> (r: Result<(), HashError>)
    requires
        old(out)@.len() == KEY_SIZE,
    ensures
        r is Ok,
        final(out)@.len() == old(out)@.len(),
        final(out)@ == hash_spec(data@),
{
    blake2b_flexible(out, &NOTHING, data)
}

/// The hash of `data`.
pub fn hash(data: &[u8]) -> (r: Result<[u8; KEY_SIZE], HashError>)
    ensures
        r is Ok,
        r->Ok_0@ == hash_spec(data@),
{
    let mut r = [0u8; KEY_SIZE];
    match hash_into(&mut r, data) {
        Ok(_) => Ok(r),
        Err(e) => Err(e),
    }
}

/// Hashing is deterministic: any two results of `hash` on the same data are
/// the same.
pub proof fn hash_is_deterministic(
    data: Seq<u8>,
    first: Result<[u8; KEY_SIZE], HashError>,
    second: Result<[u8; KEY_SIZE], HashError>,
)
    requires
        first is Ok && first->Ok_0@ == hash_spec(data),
        second is Ok && second->Ok_0@ == hash_spec(data),
    ensures
        first == second,
{
    assert(first->Ok_0 =~= second->Ok_0);
}

} // verus!
