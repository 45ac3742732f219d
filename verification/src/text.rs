//! Verified replacement of a fixed phrase inside a property value, used
//! when a normalizer abbreviates a human-readable description.

use vstd::prelude::*;
use vstd::string::StrSliceExecFns;

verus! {

/// `s` with every occurrence of `pat` replaced by `sub`, scanning left to
/// right; after a match the scan resumes behind the consumed occurrence.
/// An empty pattern leaves `s` untouched.
pub open spec fn replace_seq(s: Seq<char>, pat: Seq<char>, sub: Seq<char>) -> Seq<char>
    decreases s.len(),
{
    if pat.len() == 0 || s.len() < pat.len() {
        s
    } else if s.take(pat.len() as int) == pat {
        sub + replace_seq(s.skip(pat.len() as int), pat, sub)
    } else {
        seq![s[0]] + replace_seq(s.skip(1), pat, sub)
    }
}

/// Do the characters of `pat` stand at position `at` of `s`?
fn phrase_at(s: &str, at: usize, pat: &str) -> (r: bool)
    requires
        at + pat@.len() <= s@.len() <= usize::MAX,
    ensures
        r == (s@.subrange(at as int, at + pat@.len()) == pat@),
{
    let m = pat.unicode_len();
    let mut j: usize = 0;
    while j < m
        invariant
            j <= m == pat@.len(),
            at + m <= s@.len() <= usize::MAX,
            forall|k: int| 0 <= k < j ==> s@[at + k] == pat@[k],
        decreases m - j,
    {
        if s.get_char(at + j) != pat.get_char(j) {
            proof {
                assert(s@.subrange(at as int, at + pat@.len())[j as int] == s@[at + j]);
            }
            return false;
        }
        j = j + 1;
    }
    proof {
        assert(s@.subrange(at as int, at + pat@.len()) =~= pat@);
    }
    true
}

/// `s` with every occurrence of `pat` replaced by `sub`.
pub fn replace_phrase(s: &str, pat: &str, sub: &str) -> (r: String)
    ensures
        r@ == replace_seq(s@, pat@, sub@),
    decreases s@.len(),
{
    let n = s.unicode_len();
    let m = pat.unicode_len();
    if m == 0 || n < m {
        return s.to_owned();
    }
    if phrase_at(s, 0, pat) {
        proof {
            assert(s@.subrange(0, m as int) =~= s@.take(m as int));
        }
        let mut r = sub.to_owned();
        let rest = s.substring_char(m, n);
        let tail = replace_phrase(rest, pat, sub);
        r.append(tail.as_str());
        r
    } else {
        proof {
            assert(s@.subrange(0, m as int) =~= s@.take(m as int));
            assert(s@.subrange(0, 1) =~= seq![s@[0]]);
        }
        let mut r = s.substring_char(0, 1).to_owned();
        let rest = s.substring_char(1, n);
        let tail = replace_phrase(rest, pat, sub);
        r.append(tail.as_str());
        r
    }
}

} // verus!
