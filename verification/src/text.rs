//! Comparing text and searching bytes.

use vstd::prelude::*;
use vstd::string::StringSliceAdditionalSpecFns;
use vstd::utf8::encode_utf8_decode_utf8;

verus! {

/// Whether two strings hold the same characters.
pub fn same_text(a: &str, b: &str) -> (same: bool)
    ensures
        same == (a@ == b@),
{
    let x = a.as_bytes();
    let y = b.as_bytes();
    proof {
        // The encoding can be undone, so equal bytes mean equal characters.
        encode_utf8_decode_utf8(a@);
        encode_utf8_decode_utf8(b@);
    }
    if x.len() != y.len() {
        return false;
    }
    let mut i: usize = 0;
    while i < x.len()
        invariant
            x@ == a.spec_bytes(),
            y@ == b.spec_bytes(),
            x@.len() == y@.len(),
            i <= x@.len(),
            forall|j: int| 0 <= j < i ==> x@[j] == y@[j],
            a@ == b@ ==> x@ == y@,
        decreases x@.len() - i,
    {
        if x[i] != y[i] {
            return false;
        }
        i += 1;
    }
    assert(x@ =~= y@);
    true
}

/// `needle` stands in `haystack` from position `at` on.
pub open spec fn occurs_at(haystack: Seq<u8>, needle: Seq<u8>, at: int) -> bool {
    &&& 0 <= at
    &&& at + needle.len() <= haystack.len()
    &&& haystack.subrange(at, at + needle.len()) == needle
}

/// `needle` stands somewhere in `haystack` as one unbroken run.
pub open spec fn occurs_in(haystack: Seq<u8>, needle: Seq<u8>) -> bool {
    exists|at: int| occurs_at(haystack, needle, at)
}

/// Whether `needle` stands in `haystack` from `at` on.
fn matches_at(haystack: &[u8], needle: &[u8], at: usize) -> (hit: bool)
    requires
        at + needle@.len() <= haystack@.len(),
    ensures
        hit == occurs_at(haystack@, needle@, at as int),
{
    assert(haystack@.len() == haystack.len());
    let mut j: usize = 0;
    while j < needle.len()
        invariant
            at + needle@.len() <= haystack@.len() <= usize::MAX,
            j <= needle@.len(),
            forall|k: int| 0 <= k < j ==> haystack@[at + k] == needle@[k],
        decreases needle@.len() - j,
    {
        if haystack[at + j] != needle[j] {
            assert(haystack@.subrange(at as int, at + needle@.len())[j as int]
                != needle@[j as int]);
            return false;
        }
        j += 1;
    }
    assert(haystack@.subrange(at as int, at + needle@.len()) =~= needle@);
    true
}

/// Searches `haystack` for `needle`.
pub fn contains(haystack: &[u8], needle: &[u8]) -> (found: bool)
    ensures
        found == occurs_in(haystack@, needle@),
{
    if needle.len() > haystack.len() {
        return false;
    }
    if needle.len() == 0 {
        assert(occurs_at(haystack@, needle@, 0)) by {
            assert(haystack@.subrange(0, 0) =~= needle@);
        }
        return true;
    }
    let starts: usize = haystack.len() - needle.len() + 1;
    let mut at: usize = 0;
    while at < starts
        invariant
            0 < needle@.len() <= haystack@.len() <= usize::MAX,
            starts == haystack@.len() - needle@.len() + 1,
            at <= starts,
            forall|p: int| 0 <= p < at ==> !occurs_at(haystack@, needle@, p),
        decreases starts - at,
    {
        if matches_at(haystack, needle, at) {
            return true;
        }
        at += 1;
    }
    false
}

} // verus!
