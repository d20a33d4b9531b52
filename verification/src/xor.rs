//! Byte-wise XOR and copy between equally long buffers.

use vstd::prelude::*;

verus! {

/// The byte-wise XOR of `a` and `b`, as long as `a`.
pub open spec fn xor_seq(a: Seq<u8>, b: Seq<u8>) -> Seq<u8> {
    Seq::new(a.len(), |i: int| a[i] ^ b[i])
}

/// XORs every byte of `b` into the byte of `a` at the same position.
pub fn xor_into(a: &mut [u8], b: &[u8])
    requires
        old(a)@.len() == b@.len(),
    ensures
        final(a)@.len() == old(a)@.len(),
        final(a)@ == xor_seq(old(a)@, b@),
{
    let n: usize = a.len();
    let mut i: usize = 0;
    while i < n
        invariant
            i <= n,
            n == a@.len(),
            n == b@.len(),
            a@.len() == old(a)@.len(),
            forall|j: int| 0 <= j < i ==> a@[j] == old(a)@[j] ^ b@[j],
            forall|j: int| i <= j < n ==> a@[j] == old(a)@[j],
        decreases n - i,
    {
        a[i] = a[i] ^ b[i];
        i = i + 1;
    }
}

/// Copies `src` over `dst`.
pub(crate) fn copy_into(dst: &mut [u8], src: &[u8])
    requires
        old(dst)@.len() == src@.len(),
    ensures
        final(dst)@.len() == old(dst)@.len(),
        final(dst)@ == src@,
{
    let n: usize = dst.len();
    let mut i: usize = 0;
    while i < n
        invariant
            i <= n,
            n == dst@.len(),
            n == src@.len(),
            forall|j: int| 0 <= j < i ==> dst@[j] == src@[j],
        decreases n - i,
    {
        dst[i] = src[i];
        i = i + 1;
    }
}

} // verus!
