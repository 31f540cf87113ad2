//! Comparison of byte strings.
use vstd::prelude::*;

verus! {

/// The length of the discriminator that the data of an anchor account begins with.
pub const DISCRIMINATOR_LEN: usize = 8;

/// Whether `data` has at least `len` bytes and its first `len` bytes are `prefix`.
pub open spec fn first_bytes_are(data: Seq<u8>, len: nat, prefix: Seq<u8>) -> bool {
    &&& data.len() >= len
    &&& data.take(len as int) == prefix
}

/// Compares the first `len` bytes of `data` with the whole of `prefix`.
pub fn first_bytes_match(data: &[u8], len: usize, prefix: &[u8]) -> (same: bool)
    ensures
        same == first_bytes_are(data@, len as nat, prefix@),
{
    if data.len() < len || prefix.len() != len {
        return false;
    }
    let mut i: usize = 0;
    while i < len
        invariant
            i <= len,
            len <= data@.len(),
            len == prefix@.len(),
            forall|j: int| 0 <= j < i ==> data@[j] == prefix@[j],
        decreases len - i,
    {
        if data[i] != prefix[i] {
            assert(data@.take(len as int)[i as int] != prefix@[i as int]);
            return false;
        }
        i = i + 1;
    }
    assert(data@.take(len as int) =~= prefix@);
    true
}

} // verus!
