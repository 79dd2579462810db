//! Substring search, used to tell uniqueness-constraint violations apart
//! from other storage errors by the text of the error message.

use vstd::prelude::*;

verus! {

/// `needle` occurs contiguously somewhere in `haystack`.
pub open spec fn text_contains(haystack: Seq<char>, needle: Seq<char>) -> bool {
    exists|i: int|
        0 <= i && i + needle.len() <= haystack.len() && #[trigger] haystack.subrange(
            i,
            i + needle.len(),
        ) == needle
}

/// Whether `needle` occurs in `haystack` starting at `off`.
fn matches_at(haystack: &str, needle: &str, off: usize) -> (r: bool)
    requires
        off + needle@.len() <= haystack@.len(),
        off + needle@.len() <= usize::MAX,
    ensures
        r == (haystack@.subrange(off as int, off as int + needle@.len() as int) == needle@),
{
    let nlen = needle.unicode_len();
    let mut j: usize = 0;
    while j < nlen
        invariant
            j <= nlen,
            nlen == needle@.len(),
            off + nlen <= haystack@.len(),
            off + nlen <= usize::MAX,
            forall|k: int| 0 <= k < j ==> haystack@[off + k] == needle@[k],
        decreases nlen - j,
    {
        if haystack.get_char(off + j) != needle.get_char(j) {
            proof {
                assert(haystack@.subrange(off as int, off as int + needle@.len() as int)[j as int]
                    == haystack@[off + j]);
            }
            return false;
        }
        j += 1;
    }
    proof {
        assert(haystack@.subrange(off as int, off as int + needle@.len() as int) =~= needle@);
    }
    true
}

/// Whether `needle` occurs anywhere in `haystack`.
pub fn str_contains(haystack: &str, needle: &str) -> (r: bool)
    ensures
        r == text_contains(haystack@, needle@),
{
    let hlen = haystack.unicode_len();
    let nlen = needle.unicode_len();
    if nlen > hlen {
        return false;
    }
    if nlen == 0 {
        proof {
            let z: int = 0;
            assert(haystack@.subrange(z, z + needle@.len()) =~= needle@);
            assert(text_contains(haystack@, needle@));
        }
        return true;
    }
    let mut i: usize = 0;
    while i <= hlen - nlen
        invariant
            1 <= nlen <= hlen,
            hlen == haystack@.len(),
            nlen == needle@.len(),
            i <= hlen - nlen + 1,
            forall|k: int|
                0 <= k < i ==> #[trigger] haystack@.subrange(k, k + needle@.len() as int)
                    != needle@,
        decreases hlen - nlen + 1 - i,
    {
        if matches_at(haystack, needle, i) {
            return true;
        }
        i += 1;
    }
    false
}

} // verus!
