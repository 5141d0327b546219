//! Fixed-size byte strings: digests and object identifiers.

use vstd::prelude::*;

verus! {

/// A 32-byte Blake2b256 digest.
pub type Digest = [u8; 32];

/// The 32-byte identifier of an object.
pub type ObjectId = [u8; 32];

/// Tells whether two byte strings are the same.
pub fn same_bytes(a: &[u8], b: &[u8]) -> (same: bool)
    ensures
        same == (a@ == b@),
{
    if a.len() != b.len() {
        return false;
    }
    let mut i: usize = 0;
    while i < a.len()
        invariant
            i <= a@.len(),
            a@.len() == b@.len(),
            forall|j: int| 0 <= j < i ==> a@[j] == b@[j],
        decreases a@.len() - i,
    {
        if a[i] != b[i] {
            return false;
        }
        i = i + 1;
    }
    assert(a@ =~= b@);
    true
}

/// Tells whether two 32-byte strings are the same.
pub fn same_digest(a: &Digest, b: &Digest) -> (same: bool)
    ensures
        same == (*a == *b),
{
    let same = same_bytes(a.as_slice(), b.as_slice());
    proof {
        if same {
            assert forall|i: int| 0 <= i < 32 implies a[i] == b[i] by {
                assert(a@[i] == b@[i]);
            }
            assert(*a =~= *b);
        }
    }
    same
}

/// Tells whether two optional digests are the same.
pub fn same_optional_digest(a: &Option<Digest>, b: &Option<Digest>) -> (same: bool)
    ensures
        same == (*a == *b),
{
    match (a, b) {
        (Some(a), Some(b)) => same_digest(a, b),
        (None, None) => true,
        _ => false,
    }
}

/// Copies a byte string.
pub fn copy_bytes(bytes: &Vec<u8>) -> (copy: Vec<u8>)
    ensures
        copy@ == bytes@,
{
    let copy = bytes.clone();
    assert(copy@ =~= bytes@);
    copy
}

} // verus!
