//! Literal byte-pattern search over the buffer: a linear forward scan from
//! a starting byte offset, and a linear backward scan ending before it.
//! Matches are byte-for-byte; an empty needle never matches; neither scan
//! wraps around the buffer ends.

use crate::buffer::DataBuffer;
use vstd::prelude::*;

verus! {

/// Whether `needle` occurs in `data` byte-for-byte at byte offset `i`.
pub open spec fn matches_at(data: Seq<u8>, needle: Seq<u8>, i: int) -> bool {
    &&& 0 <= i
    &&& i + needle.len() <= data.len()
    &&& data.subrange(i, i + needle.len()) == needle
}

/// Whether the bytes at `at` equal the whole needle.
fn matches_prefix(buffer: &DataBuffer, needle: &Vec<u8>, at: usize) -> (r: bool)
    requires
        at + needle@.len() <= buffer@.len(),
    ensures
        r == matches_at(buffer@, needle@, at as int),
{
    let nlen: usize = needle.len();
    let blen: usize = buffer.len();
    let mut k: usize = 0;
    while k < nlen
        invariant
            nlen == needle@.len(),
            blen == buffer@.len(),
            at + nlen <= blen,
            k <= nlen,
            forall|t: int| 0 <= t < k ==> buffer@[at + t] == needle@[t],
        decreases nlen - k,
    {
        if buffer.data[at + k] != needle[k] {
            proof {
                assert(!matches_at(buffer@, needle@, at as int)) by {
                    if matches_at(buffer@, needle@, at as int) {
                        assert(buffer@.subrange(at as int, at + needle@.len())[k as int]
                            == needle@[k as int]);
                    }
                }
            }
            return false;
        }
        k = k + 1;
    }
    proof {
        assert(buffer@.subrange(at as int, at + needle@.len()) =~= needle@);
    }
    true
}

/// Scans offsets `start, start + 1, ...` in increasing order and returns
/// the first one where the needle matches; `None` when nothing at or past
/// `start` matches or the needle is empty.
pub fn find_next(buffer: &DataBuffer, start: usize, needle: &Vec<u8>) -> (r: Option<usize>)
    ensures
        match r {
            Some(o) => needle@.len() > 0 && start <= o && matches_at(buffer@, needle@, o as int)
                && forall|j: int| start <= j < o ==> !matches_at(buffer@, needle@, j),
            None => needle@.len() == 0 || forall|j: int|
                start <= j ==> !matches_at(buffer@, needle@, j),
        },
{
    let nlen: usize = needle.len();
    let blen: usize = buffer.len();
    if nlen == 0 || nlen > blen {
        return None;
    }
    let mut i: usize = start;
    while i <= blen - nlen
        invariant
            nlen == needle@.len(),
            blen == buffer@.len(),
            1 <= nlen <= blen,
            start <= i,
            forall|j: int| start <= j < i ==> !matches_at(buffer@, needle@, j),
        decreases blen - i,
    {
        if matches_prefix(buffer, needle, i) {
            return Some(i);
        }
        i = i + 1;
    }
    None
}

/// Scans offsets `start - 1` down to `0` in decreasing order and returns
/// the first one where the needle matches; `None` when nothing before
/// `start` matches or the needle is empty.
pub fn find_previous(buffer: &DataBuffer, start: usize, needle: &Vec<u8>) -> (r: Option<usize>)
    ensures
        match r {
            Some(o) => needle@.len() > 0 && o < start && matches_at(buffer@, needle@, o as int)
                && forall|j: int| o < j < start ==> !matches_at(buffer@, needle@, j),
            None => needle@.len() == 0 || forall|j: int|
                0 <= j < start ==> !matches_at(buffer@, needle@, j),
        },
{
    let nlen: usize = needle.len();
    let blen: usize = buffer.len();
    if nlen == 0 {
        return None;
    }
    let mut i: usize = start;
    while i > 0
        invariant
            nlen == needle@.len(),
            blen == buffer@.len(),
            nlen >= 1,
            i <= start,
            forall|j: int| i <= j < start ==> !matches_at(buffer@, needle@, j),
        decreases i,
    {
        i = i - 1;
        if nlen <= blen && i <= blen - nlen {
            if matches_prefix(buffer, needle, i) {
                return Some(i);
            }
        }
    }
    None
}

} // verus!
