//! Bounds on what can be read from memory.

use vstd::prelude::*;

verus! {

/// How many bytes the longest possible slice from the address `start` on has: it ends
/// at the end of the address space, and is no longer than any slice may be.
pub fn unlimited_slice_len(start: usize) -> (r: usize)
    ensures
        r == if start + isize::MAX > usize::MAX {
            usize::MAX - start
        } else {
            isize::MAX as int
        },
        start + r <= usize::MAX,
        r <= isize::MAX,
        start + r == usize::MAX || r == isize::MAX,
{
    let end: usize = start.saturating_add(isize::MAX as usize);
    end - start
}

} // verus!
