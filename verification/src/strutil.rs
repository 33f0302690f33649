//! Verified string predicates used by the endpoint classifier: prefix,
//! substring and equality tests over `&str`, each pinned to a spec-level
//! statement about the string's view.

use vstd::prelude::*;

verus! {

/// `p` occurs at the front of `s`.
pub open spec fn starts_with(s: Seq<char>, p: Seq<char>) -> bool {
    p.len() <= s.len() && (forall|i: int| 0 <= i < p.len() ==> s[i] == p[i])
}

/// `p` occurs in `s` at offset `k`.
pub open spec fn matches_at(s: Seq<char>, p: Seq<char>, k: int) -> bool {
    0 <= k && k + p.len() <= s.len() && (forall|j: int| 0 <= j < p.len() ==> s[k + j] == p[j])
}

/// `p` occurs somewhere in `s`.
pub open spec fn contains_sub(s: Seq<char>, p: Seq<char>) -> bool {
    exists|k: int| #[trigger] matches_at(s, p, k)
}

/// Whether the view of `s` begins with the view of `p`.
pub fn str_starts_with(s: &str, p: &str) -> (r: bool)
    ensures
        r == starts_with(s@, p@),
{
    let sl = s.unicode_len();
    let pl = p.unicode_len();
    if pl > sl {
        return false;
    }
    let mut i: usize = 0;
    while i < pl
        invariant
            i <= pl,
            pl <= sl,
            sl == s@.len(),
            pl == p@.len(),
            forall|j: int| 0 <= j < i ==> s@[j] == p@[j],
        decreases pl - i,
    {
        if s.get_char(i) != p.get_char(i) {
            return false;
        }
        i += 1;
    }
    true
}

/// Whether the views of `s` and `p` are the same sequence of characters.
pub fn str_eq(s: &str, p: &str) -> (r: bool)
    ensures
        r == (s@ == p@),
{
    let sl = s.unicode_len();
    let pl = p.unicode_len();
    if pl != sl {
        return false;
    }
    let mut i: usize = 0;
    while i < pl
        invariant
            i <= pl,
            pl == sl,
            sl == s@.len(),
            pl == p@.len(),
            forall|j: int| 0 <= j < i ==> s@[j] == p@[j],
        decreases pl - i,
    {
        if s.get_char(i) != p.get_char(i) {
            assert(s@ != p@);
            return false;
        }
        i += 1;
    }
    assert(s@ =~= p@);
    true
}

/// Whether the view of `p` occurs at offset `k` of the view of `s`.
fn str_matches_at(s: &str, p: &str, k: usize) -> (r: bool)
    requires
        k + p@.len() <= s@.len(),
        s@.len() <= usize::MAX,
    ensures
        r == matches_at(s@, p@, k as int),
{
    let pl = p.unicode_len();
    let mut j: usize = 0;
    while j < pl
        invariant
            j <= pl,
            pl == p@.len(),
            k + pl <= s@.len(),
            s@.len() <= usize::MAX,
            forall|j2: int| 0 <= j2 < j ==> s@[k + j2] == p@[j2],
        decreases pl - j,
    {
        if s.get_char(k + j) != p.get_char(j) {
            return false;
        }
        j += 1;
    }
    true
}

/// Whether the view of `p` occurs anywhere in the view of `s`.
pub fn str_contains(s: &str, p: &str) -> (r: bool)
    ensures
        r == contains_sub(s@, p@),
{
    let sl = s.unicode_len();
    let pl = p.unicode_len();
    if pl > sl {
        assert(forall|k: int| !matches_at(s@, p@, k));
        return false;
    }
    let mut k: usize = 0;
    while k <= sl - pl
        invariant
            pl <= sl,
            sl == s@.len(),
            pl == p@.len(),
            k <= sl - pl + 1,
            forall|k2: int| 0 <= k2 < k ==> !matches_at(s@, p@, k2),
        decreases sl - pl - k + 1,
    {
        if str_matches_at(s, p, k) {
            assert(contains_sub(s@, p@));
            return true;
        }
        k += 1;
    }
    assert(forall|k2: int| !matches_at(s@, p@, k2));
    false
}

} // verus!
