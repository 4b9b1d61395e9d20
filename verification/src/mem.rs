//! Byte operations over a single buffer: the copy, fill, compare and
//! string-length primitives the runtime supplies to the rest of the
//! program.
//!
//! The two copies work within one buffer so that overlapping source and
//! destination ranges are expressible. Disjoint ranges may stand in either
//! order; where the ranges overlap, copying in ascending order is correct
//! when the destination starts at or below the source, in descending order
//! when it starts at or above. The contracts pin the destination range to
//! the source range's original bytes either way.

use vstd::prelude::*;

verus! {

/// What a copy leaves behind: the destination range holds the source
/// range's original bytes, everything else is untouched.
pub open spec fn copied(old_buf: Seq<u8>, dest: int, src: int, n: int) -> Seq<u8> {
    Seq::new(
        old_buf.len(),
        |j: int|
            if dest <= j < dest + n {
                old_buf[src + (j - dest)]
            } else {
                old_buf[j]
            },
    )
}

/// Copy `n` bytes from `src` to `dest` within `buf`, in ascending order.
/// The ranges may be disjoint in either order; where they overlap, the
/// ascending order is correct only for a destination at or below the
/// source.
pub fn copy_forward(buf: &mut Vec<u8>, dest: usize, src: usize, n: usize)
    requires
        dest <= src || src + n <= dest,
        src + n <= old(buf)@.len(),
        dest + n <= old(buf)@.len(),
    ensures
        final(buf)@ == copied(old(buf)@, dest as int, src as int, n as int),
{
    let len = buf.len();
    let mut i: usize = 0;
    while i < n
        invariant
            i <= n,
            dest <= src || src + n <= dest,
            src + n <= buf@.len(),
            dest + n <= buf@.len(),
            buf@.len() == len,
            buf@.len() == old(buf)@.len(),
            forall|j: int| dest + i <= j < buf@.len() ==> buf@[j] == old(buf)@[j],
            forall|j: int| 0 <= j < dest ==> buf@[j] == old(buf)@[j],
            forall|j: int| dest <= j < dest + i ==> buf@[j] == old(buf)@[src + (j - dest)],
        decreases n - i,
    {
        let b = buf[src + i];
        proof {
            if src + n <= dest {
                assert(src as int + i < dest);
            } else {
                assert(src as int + i >= dest + i);
            }
            assert(buf@[src as int + i as int] == old(buf)@[src as int + i as int]);
        }
        buf[dest + i] = b;
        i = i + 1;
    }
    proof {
        assert(final(buf)@ =~= copied(old(buf)@, dest as int, src as int, n as int));
    }
}

/// Copy `n` bytes from `src` to `dest` within `buf`, in descending order.
/// The ranges may be disjoint in either order; where they overlap, the
/// descending order is correct only for a destination at or above the
/// source.
pub fn copy_backward(buf: &mut Vec<u8>, dest: usize, src: usize, n: usize)
    requires
        src <= dest || dest + n <= src,
        src + n <= old(buf)@.len(),
        dest + n <= old(buf)@.len(),
    ensures
        final(buf)@ == copied(old(buf)@, dest as int, src as int, n as int),
{
    let len = buf.len();
    let mut i: usize = n;
    while i > 0
        invariant
            i <= n,
            src <= dest || dest + n <= src,
            src + n <= buf@.len(),
            dest + n <= buf@.len(),
            buf@.len() == len,
            buf@.len() == old(buf)@.len(),
            forall|j: int| 0 <= j < dest + i ==> buf@[j] == old(buf)@[j],
            forall|j: int| dest + n <= j < buf@.len() ==> buf@[j] == old(buf)@[j],
            forall|j: int| dest + i <= j < dest + n ==> buf@[j] == old(buf)@[src + (j - dest)],
        decreases i,
    {
        i = i - 1;
        let b = buf[src + i];
        proof {
            if dest + n <= src {
                assert(src as int + i >= dest + n);
            } else {
                assert(src as int + i <= dest + i);
            }
            assert(buf@[src as int + i as int] == old(buf)@[src as int + i as int]);
        }
        buf[dest + i] = b;
    }
    proof {
        assert(final(buf)@ =~= copied(old(buf)@, dest as int, src as int, n as int));
    }
}

/// Copy `n` bytes from `src` to `dest` within `buf`, choosing the copy
/// direction that is correct for the overlap at hand: ascending when the
/// destination is at or below the source, descending otherwise.
pub fn memmove(buf: &mut Vec<u8>, dest: usize, src: usize, n: usize)
    requires
        src + n <= old(buf)@.len(),
        dest + n <= old(buf)@.len(),
    ensures
        final(buf)@ == copied(old(buf)@, dest as int, src as int, n as int),
{
    if dest <= src {
        copy_forward(buf, dest, src, n);
    } else {
        copy_backward(buf, dest, src, n);
    }
}

/// Fill `n` bytes at `dest` with `value`; everything else is untouched.
pub fn set_bytes(buf: &mut Vec<u8>, dest: usize, value: u8, n: usize)
    requires
        dest + n <= old(buf)@.len(),
    ensures
        final(buf)@.len() == old(buf)@.len(),
        forall|j: int| dest <= j < dest + n ==> final(buf)@[j] == value,
        forall|j: int|
            0 <= j < final(buf)@.len() && !(dest <= j < dest + n) ==> final(buf)@[j] == old(
                buf,
            )@[j],
{
    let len = buf.len();
    let mut i: usize = 0;
    while i < n
        invariant
            i <= n,
            dest + n <= buf@.len(),
            buf@.len() == len,
            buf@.len() == old(buf)@.len(),
            forall|j: int| dest <= j < dest + i ==> buf@[j] == value,
            forall|j: int| 0 <= j < buf@.len() && !(dest <= j < dest + i) ==> buf@[j] == old(
                buf,
            )@[j],
        decreases n - i,
    {
        buf[dest + i] = value;
        i = i + 1;
    }
}

/// The first index below `n` where the two buffers differ, if any.
pub open spec fn first_mismatch(a: Seq<u8>, b: Seq<u8>, n: int, k: int) -> Option<int>
    decreases n - k,
{
    if k < 0 || k >= n {
        None
    } else if a[k] != b[k] {
        Some(k)
    } else {
        first_mismatch(a, b, n, k + 1)
    }
}

/// Compare the first `n` bytes of two buffers: zero when they are equal,
/// otherwise the difference of the first differing pair of bytes, so the
/// sign orders the buffers by that byte.
pub fn compare_bytes(s1: &Vec<u8>, s2: &Vec<u8>, n: usize) -> (r: i32)
    requires
        n <= s1@.len(),
        n <= s2@.len(),
    ensures
        first_mismatch(s1@, s2@, n as int, 0) is None ==> r == 0,
        (first_mismatch(s1@, s2@, n as int, 0) matches Some(k) ==> r == s1@[k] - s2@[k]),
{
    let mut i: usize = 0;
    while i < n
        invariant
            i <= n,
            n <= s1@.len(),
            n <= s2@.len(),
            first_mismatch(s1@, s2@, n as int, 0) == first_mismatch(s1@, s2@, n as int, i as int),
            forall|j: int| 0 <= j < i ==> s1@[j] == s2@[j],
        decreases n - i,
    {
        let a = s1[i];
        let b = s2[i];
        if a != b {
            return (a as i32) - (b as i32);
        }
        i = i + 1;
    }
    0
}

/// The length of the zero-terminated string at the start of `s`: the index
/// of the first zero byte.
pub fn c_string_length(s: &Vec<u8>) -> (r: usize)
    requires
        exists|i: int| 0 <= i < s@.len() && s@[i] == 0,
    ensures
        r < s@.len(),
        s@[r as int] == 0,
        forall|i: int| 0 <= i < r ==> s@[i] != 0,
{
    proof {
        let w = choose|i: int| 0 <= i < s@.len() && s@[i] == 0;
    }
    let n = s.len();
    let mut i: usize = 0;
    while s[i] != 0
        invariant
            0 <= i < s@.len(),
            s@.len() == n,
            exists|j: int| i <= j < s@.len() && s@[j] == 0,
            forall|j: int| 0 <= j < i ==> s@[j] != 0,
        decreases s@.len() - i,
    {
        proof {
            let w = choose|j: int| i <= j < s@.len() && s@[j] == 0;
            assert(w > i);
        }
        i = i + 1;
    }
    i
}

} // verus!
