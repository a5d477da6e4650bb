//! Small verified helpers on byte strings.

use vstd::prelude::*;

verus! {

/// Whether two byte strings hold the same bytes.
pub fn bytes_equal(a: &[u8], b: &[u8]) -> (same: bool)
    ensures
        same == (a@ == b@),
{
    if a.len() != b.len() {
        return false;
    }
    let mut i: usize = 0;
    while i < a.len()
        invariant
            i <= a.len(),
            a.len() == b.len(),
            forall|j: int| 0 <= j < i ==> a@[j] == b@[j],
        decreases a.len() - i,
    {
        if a[i] != b[i] {
            return false;
        }
        i += 1;
    }
    assert(a@ =~= b@);
    true
}

/// A fresh vector with the bytes of `a`.
pub fn copy_bytes(a: &[u8]) -> (copy: Vec<u8>)
    ensures
        copy@ == a@,
{
    let mut copy: Vec<u8> = Vec::with_capacity(a.len());
    let mut i: usize = 0;
    while i < a.len()
        invariant
            i <= a.len(),
            copy@ == a@.subrange(0, i as int),
        decreases a.len() - i,
    {
        copy.push(a[i]);
        assert(copy@ =~= a@.subrange(0, i + 1));
        i += 1;
    }
    assert(a@.subrange(0, a.len() as int) =~= a@);
    copy
}

/// The first `n` bytes of `a`.
pub fn prefix(a: &[u8], n: usize) -> (head: Vec<u8>)
    requires
        n <= a.len(),
    ensures
        head@ == a@.subrange(0, n as int),
{
    let mut head: Vec<u8> = Vec::with_capacity(n);
    let mut i: usize = 0;
    while i < n
        invariant
            i <= n <= a.len(),
            head@ == a@.subrange(0, i as int),
        decreases n - i,
    {
        head.push(a[i]);
        assert(head@ =~= a@.subrange(0, i + 1));
        i += 1;
    }
    head
}

} // verus!
