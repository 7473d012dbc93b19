//! Parsing of `key=value` arguments.

use vstd::prelude::*;
use vstd::string::*;
use crate::error::ParseError;

verus! {

/// One `key=value` argument, split at its first `=`.
///
/// Either side may be empty: `=x`, `x=` and `=` are all accepted.
#[derive(Debug)]
pub struct KvPair {
    pub k: String,
    pub v: String,
}

impl View for KvPair {
    type V = (Seq<char>, Seq<char>);

    open spec fn view(&self) -> (Seq<char>, Seq<char>) {
        (self.k@, self.v@)
    }
}

/// `i` is the place of the first `=` in `s`.
pub open spec fn is_first_delimiter(s: Seq<char>, i: int) -> bool {
    &&& 0 <= i < s.len()
    &&& s[i] == '='
    &&& forall|j: int| 0 <= j < i ==> s[j] != '='
}

/// The key and the value of `s`: what stands before its first `=` and what
/// stands after it. `None` if `s` holds no `=`.
pub open spec fn split_at_first(s: Seq<char>) -> Option<(Seq<char>, Seq<char>)> {
    if exists|i: int| is_first_delimiter(s, i) {
        let i = choose|i: int| is_first_delimiter(s, i);
        Some((s.subrange(0, i), s.subrange(i + 1, s.len() as int)))
    } else {
        None
    }
}

/// A text has at most one first `=`.
pub proof fn lemma_first_delimiter_unique(s: Seq<char>, i: int, j: int)
    requires
        is_first_delimiter(s, i),
        is_first_delimiter(s, j),
    ensures
        i == j,
{
    if i < j {
        assert(s[i] != '=');
    } else if j < i {
        assert(s[j] != '=');
    }
}

/// Splitting at a known first `=` gives the two sides of that place.
pub proof fn lemma_split_at(s: Seq<char>, i: int)
    requires
        is_first_delimiter(s, i),
    ensures
        split_at_first(s) == Some((s.subrange(0, i), s.subrange(i + 1, s.len() as int))),
{
    let c = choose|c: int| is_first_delimiter(s, c);
    lemma_first_delimiter_unique(s, i, c);
}

/// A text that holds no `=` has no key and no value.
pub proof fn lemma_split_needs_delimiter(s: Seq<char>)
    requires
        !s.contains('='),
    ensures
        split_at_first(s) is None,
{
    if exists|i: int| is_first_delimiter(s, i) {
        let i = choose|i: int| is_first_delimiter(s, i);
        assert(s.contains(s[i]));
    }
}

/// A key without `=`, then `=`, then any value, splits back into that key and
/// that value, also where the value holds `=` itself.
pub proof fn lemma_split_of_joined(k: Seq<char>, v: Seq<char>)
    requires
        !k.contains('='),
    ensures
        split_at_first(k + seq!['='] + v) == Some((k, v)),
{
    let s = k + seq!['='] + v;
    let i = k.len() as int;
    assert(s[i] == '=');
    assert forall|j: int| 0 <= j < i implies s[j] != '=' by {
        assert(s[j] == k[j]);
        assert(k.contains(k[j]));
    }
    lemma_split_at(s, i);
    assert(s.subrange(0, i) =~= k);
    assert(s.subrange(i + 1, s.len() as int) =~= v);
}

/// What was split can be joined again: the key holds no `=`, and key, `=` and
/// value make up the text.
pub proof fn lemma_split_joins(s: Seq<char>)
    requires
        split_at_first(s) is Some,
    ensures
        match split_at_first(s) {
            Some((k, v)) => !k.contains('=') && s == k + seq!['='] + v,
            None => false,
        },
{
    let i = choose|i: int| is_first_delimiter(s, i);
    let k = s.subrange(0, i);
    let v = s.subrange(i + 1, s.len() as int);
    if k.contains('=') {
        let j = choose|j: int| 0 <= j < k.len() && k[j] == '=';
        assert(s[j] == '=');
    }
    assert(s =~= k + seq!['='] + v);
}

/// The place of the first `=` of `s`, counted in characters.
fn first_delimiter(s: &str) -> (r: Option<usize>)
    ensures
        match r {
            Some(i) => is_first_delimiter(s@, i as int),
            None => !s@.contains('='),
        },
{
    let n = s.unicode_len();
    let mut i: usize = 0;
    for c in it: s.chars()
        invariant
            n == s@.len(),
            i == it.index(),
            it.seq() == s@,
            forall|j: int| 0 <= j < i ==> s@[j] != '=',
    {
        if c == '=' {
            return Some(i);
        }
        i = i + 1;
    }
    None
}

impl KvPair {
    /// Splits `s` at its first `=`. Every later `=` stays in the value.
    /// Fails with `MissingDelimiter` exactly when `s` holds no `=`.
    pub fn from_str(s: &str) -> (r: Result<KvPair, ParseError>)
        ensures
            match r {
                Ok(pair) => split_at_first(s@) == Some(pair@),
                Err(e) => e == ParseError::MissingDelimiter && split_at_first(s@) is None,
            },
    {
        match first_delimiter(s) {
            Some(i) => {
                let n = s.unicode_len();
                let k = s.substring_char(0, i);
                let v = s.substring_char(i + 1, n);
                proof {
                    lemma_split_at(s@, i as int);
                }
                Ok(KvPair { k: k.to_owned(), v: v.to_owned() })
            },
            None => {
                proof {
                    lemma_split_needs_delimiter(s@);
                }
                Err(ParseError::MissingDelimiter)
            },
        }
    }
}

/// Parses one `key=value` argument of the command line.
pub fn parse_kv_pair(s: &str) -> (r: Result<KvPair, ParseError>)
    ensures
        match r {
            Ok(pair) => split_at_first(s@) == Some(pair@),
            Err(e) => e == ParseError::MissingDelimiter && split_at_first(s@) is None,
        },
{
    KvPair::from_str(s)
}

} // verus!
