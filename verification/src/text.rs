//! Text as sequences of characters: comparison, and what it means for one
//! text to occur inside another.

use vstd::prelude::*;
use vstd::string::*;
use vstd::utf8::*;

verus! {

/// `needle` occurs in `hay` as a contiguous run of characters.
pub open spec fn occurs_in(needle: Seq<char>, hay: Seq<char>) -> bool {
    exists|i: int| occurs_at(needle, hay, i)
}

/// `needle` occurs in `hay` starting at position `i`.
pub open spec fn occurs_at(needle: Seq<char>, hay: Seq<char>, i: int) -> bool {
    &&& 0 <= i
    &&& i + needle.len() <= hay.len()
    &&& hay.subrange(i, i + needle.len()) == needle
}

/// A text occurs in whatever is written around it.
pub proof fn lemma_occurs_between(before: Seq<char>, needle: Seq<char>, after: Seq<char>)
    ensures
        occurs_in(needle, before + needle + after),
{
    let hay = before + needle + after;
    let i = before.len() as int;
    assert(hay.subrange(i, i + needle.len()) =~= needle);
    assert(occurs_at(needle, hay, i));
}

/// Tells whether two texts are the same, character for character. The
/// comparison is exact: case matters, and no part of a text stands for the whole.
pub fn same_text(a: &str, b: &str) -> (same: bool)
    ensures
        same == (a@ == b@),
{
    let x: &[u8] = a.as_bytes();
    let y: &[u8] = b.as_bytes();
    if x.len() != y.len() {
        return false;
    }
    let mut i: usize = 0;
    while i < x.len()
        invariant
            i <= x.len(),
            x.len() == y.len(),
            x@ == a.spec_bytes(),
            y@ == b.spec_bytes(),
            forall|j: int| 0 <= j < i ==> x@[j] == y@[j],
        decreases x.len() - i,
    {
        if x[i] != y[i] {
            return false;
        }
        i += 1;
    }
    proof {
        assert(x@ =~= y@);
        encode_utf8_decode_utf8(a@);
        encode_utf8_decode_utf8(b@);
    }
    true
}

} // verus!
