//! Verified text search and substitution over character sequences.
//!
//! The template renderer is plain string substitution, so everything here
//! is specified against `Seq<char>` and proved; no outside code is
//! involved.

use vstd::prelude::*;

verus! {

use vstd::string::StrSliceExecFns;
use vstd::string::StringExecFns;

/// The pattern `pat` occurs in `hay` starting at character position `i`.
pub open spec fn matches_at(hay: Seq<char>, i: int, pat: Seq<char>) -> bool {
    &&& 0 <= i
    &&& i + pat.len() <= hay.len()
    &&& hay.subrange(i, i + pat.len() as int) == pat
}

/// The pattern `pat` occurs somewhere in `hay`.
pub open spec fn occurs(hay: Seq<char>, pat: Seq<char>) -> bool {
    exists|i: int| matches_at(hay, i, pat)
}

/// Replacement of every occurrence of `pat` in `s` by `val`, scanning
/// left to right and never rescanning replaced text. An empty pattern
/// replaces nothing.
pub open spec fn spec_replace(s: Seq<char>, pat: Seq<char>, val: Seq<char>) -> Seq<char>
    decreases s.len(),
{
    if pat.len() == 0 || s.len() < pat.len() {
        s
    } else if s.subrange(0, pat.len() as int) == pat {
        val + spec_replace(s.skip(pat.len() as int), pat, val)
    } else {
        seq![s[0]] + spec_replace(s.skip(1), pat, val)
    }
}

/// Whether `pat` occurs in `s` at position `i`, by character comparison.
pub fn matches_here(s: &str, i: usize, pat: &str) -> (b: bool)
    ensures
        b == matches_at(s@, i as int, pat@),
{
    let n = s.unicode_len();
    let m = pat.unicode_len();
    if m > n || i > n - m {
        assert(!matches_at(s@, i as int, pat@));
        return false;
    }
    let mut j: usize = 0;
    while j < m
        invariant
            j <= m,
            n == s@.len(),
            m == pat@.len(),
            i + m <= n,
            forall|k: int| 0 <= k < j ==> s@[i + k] == pat@[k],
        decreases m - j,
    {
        if s.get_char(i + j) != pat.get_char(j) {
            proof {
                assert(s@.subrange(i as int, i + m as int) != pat@) by {
                    if s@.subrange(i as int, i + m as int) == pat@ {
                        assert(s@.subrange(i as int, i + m as int)[j as int] == s@[i + j]);
                    }
                }
            }
            return false;
        }
        j += 1;
    }
    proof {
        assert(s@.subrange(i as int, i + m as int) =~= pat@);
    }
    true
}

/// Whether `pat` occurs anywhere in `s`.
pub fn contains_pat(s: &str, pat: &str) -> (b: bool)
    ensures
        b == occurs(s@, pat@),
{
    let n = s.unicode_len();
    let m = pat.unicode_len();
    if m == 0 {
        proof {
            assert(s@.subrange(0, 0) =~= pat@);
            assert(matches_at(s@, 0, pat@));
        }
        return true;
    }
    if m > n {
        proof {
            assert(forall|i: int| !matches_at(s@, i, pat@));
        }
        return false;
    }
    let mut i: usize = 0;
    while i <= n - m
        invariant
            n == s@.len(),
            m == pat@.len(),
            1 <= m <= n,
            i <= n - m + 1,
            forall|k: int| 0 <= k < i ==> !matches_at(s@, k, pat@),
        decreases n - i,
    {
        if matches_here(s, i, pat) {
            assert(occurs(s@, pat@));
            return true;
        }
        i += 1;
    }
    proof {
        assert(forall|k: int| matches_at(s@, k, pat@) ==> 0 <= k <= n - m);
        assert(!occurs(s@, pat@));
    }
    false
}

/// Replaces every occurrence of `pat` in `s` by `val`, left to right,
/// without rescanning replaced text.
pub fn replace_all(s: &str, pat: &str, val: &str) -> (r: String)
    ensures
        r@ == spec_replace(s@, pat@, val@),
{
    let n = s.unicode_len();
    let m = pat.unicode_len();
    if m == 0 {
        return s.to_owned();
    }
    let mut out = String::new();
    let mut i: usize = 0;
    proof {
        assert(s@.skip(0) =~= s@);
        assert(out@ + spec_replace(s@, pat@, val@) =~= spec_replace(s@, pat@, val@));
    }
    while i < n
        invariant
            n == s@.len(),
            m == pat@.len(),
            m >= 1,
            i <= n,
            spec_replace(s@, pat@, val@) == out@ + spec_replace(
                s@.skip(i as int),
                pat@,
                val@,
            ),
        decreases n - i,
    {
        let ghost rest = s@.skip(i as int);
        if matches_here(s, i, pat) {
            proof {
                assert(rest.subrange(0, m as int) =~= s@.subrange(i as int, i + m as int));
                assert(spec_replace(rest, pat@, val@) == val@ + spec_replace(
                    rest.skip(m as int),
                    pat@,
                    val@,
                ));
                assert(rest.skip(m as int) =~= s@.skip(i + m as int));
                assert(out@ + (val@ + spec_replace(s@.skip(i + m as int), pat@, val@)) =~= (out@
                    + val@) + spec_replace(s@.skip(i + m as int), pat@, val@));
            }
            out.append(val);
            i += m;
        } else {
            proof {
                assert(rest =~= seq![s@[i as int]] + s@.skip(i + 1));
                if i + m <= n {
                    assert(rest.subrange(0, m as int) =~= s@.subrange(i as int, i + m as int));
                    assert(rest.subrange(0, m as int) != pat@);
                    assert(rest.skip(1) =~= s@.skip(i + 1));
                    assert(spec_replace(rest, pat@, val@) == seq![rest[0]] + spec_replace(
                        s@.skip(i + 1),
                        pat@,
                        val@,
                    ));
                } else {
                    // fewer than m characters remain: no further occurrence fits,
                    // and the tail is copied through unchanged
                    assert(rest.len() < m);
                    assert(spec_replace(rest, pat@, val@) == rest);
                    assert(s@.skip(i + 1).len() < m);
                    assert(spec_replace(s@.skip(i + 1), pat@, val@) == s@.skip(i + 1));
                }
                assert(rest[0] == s@[i as int]);
                assert(spec_replace(rest, pat@, val@) == seq![s@[i as int]] + spec_replace(
                    s@.skip(i + 1),
                    pat@,
                    val@,
                ));
                assert(s@.subrange(i as int, i + 1) =~= seq![s@[i as int]]);
                assert(out@ + (seq![s@[i as int]] + spec_replace(s@.skip(i + 1), pat@, val@))
                    =~= (out@ + seq![s@[i as int]]) + spec_replace(s@.skip(i + 1), pat@, val@));
            }
            let piece = s.substring_char(i, i + 1);
            out.append(piece);
            i += 1;
        }
    }
    proof {
        assert(s@.skip(n as int) =~= Seq::<char>::empty());
        assert(out@ + spec_replace(s@.skip(n as int), pat@, val@) =~= out@);
    }
    out
}

/// A pattern that occurs nowhere in `s` is not replaced: the result is
/// `s` itself.
pub proof fn lemma_replace_absent(s: Seq<char>, pat: Seq<char>, val: Seq<char>)
    requires
        !occurs(s, pat),
    ensures
        spec_replace(s, pat, val) == s,
    decreases s.len(),
{
    if pat.len() == 0 {
        assert(s.subrange(0, 0) =~= pat);
        assert(matches_at(s, 0, pat));
        assert(occurs(s, pat));
    } else if s.len() < pat.len() {
    } else if s.subrange(0, pat.len() as int) == pat {
        assert(matches_at(s, 0, pat));
        assert(occurs(s, pat));
    } else {
        assert(!occurs(s.skip(1), pat)) by {
            if occurs(s.skip(1), pat) {
                let k = choose|k: int| matches_at(s.skip(1), k, pat);
                assert(s.subrange(k + 1, k + 1 + pat.len()) =~= s.skip(1).subrange(
                    k,
                    k + pat.len(),
                ));
                assert(matches_at(s, k + 1, pat));
            }
        }
        lemma_replace_absent(s.skip(1), pat, val);
        assert(seq![s[0]] + s.skip(1) =~= s);
    }
}

} // verus!
