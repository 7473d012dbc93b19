//! Comparing texts without regard to the case of ASCII letters.

use vstd::prelude::*;
use vstd::std_specs::iter::IteratorSpec;
use vstd::string::*;

verus! {

/// `c` with an ASCII capital letter turned into its small letter.
pub open spec fn ascii_lower(c: char) -> char {
    if 'A' <= c && c <= 'Z' {
        ((c as u8) + 32) as char
    } else {
        c
    }
}

/// `s` with each ASCII capital letter turned into its small letter.
pub open spec fn lowered(s: Seq<char>) -> Seq<char> {
    s.map_values(|c: char| ascii_lower(c))
}

/// `c` with an ASCII capital letter turned into its small letter.
pub fn to_ascii_lower(c: char) -> (r: char)
    ensures
        r == ascii_lower(c),
{
    if 'A' <= c && c <= 'Z' {
        ((c as u8) + 32) as char
    } else {
        c
    }
}

/// Whether `a` and `b` are the same text once the case of ASCII letters is
/// left aside.
pub fn eq_ignore_ascii_case(a: &str, b: &str) -> (r: bool)
    ensures
        r == (lowered(a@) == lowered(b@)),
{
    let n = a.unicode_len();
    if b.unicode_len() != n {
        assert(lowered(a@).len() != lowered(b@).len());
        return false;
    }
    let mut rest = b.chars();
    let mut i: usize = 0;
    for c in it: a.chars()
        invariant
            n == a@.len(),
            n == b@.len(),
            i == it.index(),
            it.seq() == a@,
            rest.remaining() == b@.skip(i as int),
            forall|j: int| 0 <= j < i ==> ascii_lower(a@[j]) == ascii_lower(b@[j]),
    {
        let d = rest.next();
        match d {
            Some(d) => {
                if to_ascii_lower(c) != to_ascii_lower(d) {
                    assert(lowered(a@)[i as int] != lowered(b@)[i as int]);
                    return false;
                }
            },
            None => {
                return false;
            },
        }
        i = i + 1;
    }
    assert(lowered(a@) =~= lowered(b@));
    true
}

} // verus!
