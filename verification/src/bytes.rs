//! Copying and comparing fixed-size runs of bytes.

use vstd::prelude::*;

verus! {

/// Whether two arrays hold the same bytes.
pub(crate) fn same_array<const N: usize>(a: &[u8; N], b: &[u8; N]) -> (eq: bool)
    ensures
        eq <==> *a == *b,
{
    let mut i: usize = 0;
    while i < N
        invariant
            i <= N,
            forall|k: int| 0 <= k < i ==> a[k] == b[k],
        decreases N - i,
    {
        if a[i] != b[i] {
            return false;
        }
        i += 1;
    }
    assert(*a =~= *b);
    true
}

/// The `N` bytes that start at `offset`.
pub(crate) fn read_array<const N: usize>(bytes: &[u8], offset: usize) -> (out: [u8; N])
    requires
        offset + N <= bytes@.len(),
    ensures
        out@ == bytes@.subrange(offset as int, offset + N),
{
    let total = bytes.len();
    let mut out = [0u8; N];
    let mut j: usize = 0;
    while j < N
        invariant
            j <= N,
            total == bytes@.len(),
            offset + N <= total,
            forall|k: int| 0 <= k < j ==> out[k] == bytes[offset + k],
        decreases N - j,
    {
        out[j] = bytes[offset + j];
        j += 1;
    }
    assert(out@ =~= bytes@.subrange(offset as int, offset + N));
    out
}

/// Appends the bytes of an array.
pub(crate) fn append_array<const N: usize>(out: &mut Vec<u8>, bytes: &[u8; N])
    ensures
        final(out)@ == old(out)@ + bytes@,
{
    let mut j: usize = 0;
    while j < N
        invariant
            j <= N,
            out@ == old(out)@ + bytes@.take(j as int),
        decreases N - j,
    {
        out.push(bytes[j]);
        assert(bytes@.take(j + 1) =~= bytes@.take(j as int).push(bytes[j as int]));
        j += 1;
    }
    assert(bytes@.take(N as int) =~= bytes@);
}

} // verus!
