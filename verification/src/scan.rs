//! A verified first-occurrence scanner over character sequences: the
//! "skip up to a delimiter" primitive of the hash grammar.

use vstd::prelude::*;
use vstd::string::StrSliceExecFns;

verus! {

/// The pattern occurs in `s` at position `i`.
pub open spec fn match_at(s: Seq<char>, i: int, pat: Seq<char>) -> bool {
    0 <= i && i + pat.len() <= s.len() && s.subrange(i, i + pat.len() as int) == pat
}

/// The first position at or after `pos` where `pat` occurs in `s`, if any.
pub open spec fn find_from(s: Seq<char>, pos: int, pat: Seq<char>) -> Option<int>
    decreases s.len() - pos + 1,
{
    if pos < 0 || pos + pat.len() > s.len() {
        None
    } else if s.subrange(pos, pos + pat.len() as int) == pat {
        Some(pos)
    } else {
        find_from(s, pos + 1, pat)
    }
}

pub proof fn lemma_find_from_here(s: Seq<char>, pos: int, pat: Seq<char>)
    requires
        match_at(s, pos, pat),
    ensures
        find_from(s, pos, pat) == Some(pos),
{
}

pub proof fn lemma_find_from_step(s: Seq<char>, pos: int, pat: Seq<char>)
    requires
        0 <= pos,
        pos + pat.len() <= s.len(),
        !match_at(s, pos, pat),
    ensures
        find_from(s, pos, pat) == find_from(s, pos + 1, pat),
{
}

pub proof fn lemma_find_from_none(s: Seq<char>, pos: int, pat: Seq<char>)
    requires
        pos + pat.len() > s.len(),
    ensures
        find_from(s, pos, pat) is None,
{
}

/// The search finds exactly the first occurrence: if `pat` occurs at `at`
/// and its first character appears nowhere in `[pos, at)`, the search from
/// `pos` lands on `at`.
pub proof fn lemma_find_from_at(s: Seq<char>, pos: int, at: int, pat: Seq<char>)
    requires
        0 <= pos <= at,
        pat.len() >= 1,
        match_at(s, at, pat),
        forall|j: int| pos <= j < at ==> s[j] != pat[0],
    ensures
        find_from(s, pos, pat) == Some(at),
    decreases at - pos,
{
    if pos < at {
        assert(s.subrange(pos, pos + pat.len() as int)[0] == s[pos]);
        assert(s[pos] != pat[0]);
        assert(!match_at(s, pos, pat));
        lemma_find_from_at(s, pos + 1, at, pat);
    }
}

/// Finds the first occurrence of the single character `c` in `s` at or
/// after `pos`.
pub fn find_char(s: &str, pos: usize, c: char) -> (r: Option<usize>)
    requires
        pos <= s@.len(),
    ensures
        match r {
            Some(i) => {
                &&& pos <= i
                &&& i + 1 <= s@.len()
                &&& find_from(s@, pos as int, seq![c]) == Some(i as int)
            },
            None => find_from(s@, pos as int, seq![c]) is None,
        },
{
    let n = s.unicode_len();
    let mut i: usize = pos;
    while i < n
        invariant
            pos <= i <= n,
            n == s@.len(),
            find_from(s@, pos as int, seq![c]) == find_from(s@, i as int, seq![c]),
        decreases n - i,
    {
        let ch = s.get_char(i);
        proof {
            assert(s@.subrange(i as int, i + 1) =~= seq![s@[i as int]]);
        }
        if ch == c {
            proof {
                assert(match_at(s@, i as int, seq![c]));
                lemma_find_from_here(s@, i as int, seq![c]);
            }
            return Some(i);
        }
        proof {
            assert(seq![s@[i as int]][0] == s@[i as int]);
            assert(s@.subrange(i as int, i + 1) != seq![c]);
            lemma_find_from_step(s@, i as int, seq![c]);
        }
        i = i + 1;
    }
    proof {
        lemma_find_from_none(s@, i as int, seq![c]);
    }
    None
}

/// Finds the first occurrence of the three-character pattern
/// `[c0, c1, c2]` in `s` at or after `pos`.
pub fn find_pat3(s: &str, pos: usize, c0: char, c1: char, c2: char) -> (r: Option<usize>)
    requires
        pos <= s@.len(),
    ensures
        match r {
            Some(i) => {
                &&& pos <= i
                &&& i + 3 <= s@.len()
                &&& find_from(s@, pos as int, seq![c0, c1, c2]) == Some(i as int)
            },
            None => find_from(s@, pos as int, seq![c0, c1, c2]) is None,
        },
{
    let ghost pat = seq![c0, c1, c2];
    let n = s.unicode_len();
    let mut i: usize = pos;
    loop
        invariant
            pat == seq![c0, c1, c2],
            pos <= i <= n,
            n == s@.len(),
            find_from(s@, pos as int, pat) == find_from(s@, i as int, pat),
        decreases n - i,
    {
        if n - i < 3 {
            proof {
                lemma_find_from_none(s@, i as int, pat);
            }
            return None;
        }
        let m0 = s.get_char(i) == c0;
        let m1 = s.get_char(i + 1) == c1;
        let m2 = s.get_char(i + 2) == c2;
        proof {
            assert(s@.subrange(i as int, i + 3)[0] == s@[i as int]);
            assert(s@.subrange(i as int, i + 3)[1] == s@[i + 1]);
            assert(s@.subrange(i as int, i + 3)[2] == s@[i + 2]);
        }
        if m0 && m1 && m2 {
            proof {
                assert(s@.subrange(i as int, i + 3) =~= pat);
                lemma_find_from_here(s@, i as int, pat);
            }
            return Some(i);
        }
        proof {
            assert(s@.subrange(i as int, i + 3) != pat);
            lemma_find_from_step(s@, i as int, pat);
        }
        i = i + 1;
    }
}

} // verus!
