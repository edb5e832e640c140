//! Tests on text that the handlers need.

use vstd::prelude::*;
use vstd::string::StrSliceExecFns;

verus! {

/// Whether `s` begins with `prefix`, character by character.
pub fn starts_with(s: &str, prefix: &str) -> (r: bool)
    ensures
        r == prefix@.is_prefix_of(s@),
{
    let n = prefix.unicode_len();
    let m = s.unicode_len();
    if n > m {
        return false;
    }
    let mut i: usize = 0;
    while i < n
        invariant
            i <= n,
            n == prefix@.len(),
            m == s@.len(),
            n <= m,
            forall|j: int| 0 <= j < i ==> s@[j] == prefix@[j],
        decreases n - i,
    {
        if s.get_char(i) != prefix.get_char(i) {
            return false;
        }
        i = i + 1;
    }
    true
}

/// Whether `a` and `b` are the same text.
pub fn same_text(a: &str, b: &str) -> (r: bool)
    ensures
        r == (a@ == b@),
{
    if a.unicode_len() != b.unicode_len() {
        return false;
    }
    let r = starts_with(a, b);
    assert(a@.subrange(0, a@.len() as int) =~= a@);
    r
}

/// Whether `term` names a resource by its address rather than describing
/// what to search for: it begins with `http`.
pub open spec fn is_uri(term: Seq<char>) -> bool {
    seq!['h', 't', 't', 'p'].is_prefix_of(term)
}

/// Whether `term` is an address ([`is_uri`]).
pub fn looks_like_uri(term: &str) -> (r: bool)
    ensures
        r == is_uri(term@),
{
    proof {
        reveal_strlit("http");
    }
    starts_with(term, "http")
}

} // verus!
