//! Shared byte-buffer helpers for the fixed-layout codecs.

use vstd::prelude::*;

verus! {

/// Appends every byte of `src` to the end of `out`.
pub fn append_bytes(out: &mut Vec<u8>, src: &Vec<u8>)
    ensures
        final(out)@ == old(out)@ + src@,
{
    let n = src.len();
    let mut i: usize = 0;
    while i < n
        invariant
            i <= n,
            n == src@.len(),
            out@ == old(out)@ + src@.subrange(0, i as int),
        decreases n - i,
    {
        proof {
            assert(src@.subrange(0, i + 1) =~= src@.subrange(0, i as int).push(src@[i as int]));
        }
        out.push(src[i]);
        i = i + 1;
    }
    proof {
        assert(src@.subrange(0, n as int) =~= src@);
    }
}

/// Copies the bytes of `src` at positions `start..end` into a fresh vector.
pub fn copy_range(src: &Vec<u8>, start: usize, end: usize) -> (r: Vec<u8>)
    requires
        start <= end <= src@.len(),
    ensures
        r@ == src@.subrange(start as int, end as int),
{
    let s = vstd::slice::slice_subrange(src.as_slice(), start, end);
    vstd::slice::slice_to_vec(s)
}

} // verus!
