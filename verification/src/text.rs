//! Character-level scanning primitives used by the URL parser and the
//! archive-entry checks: first occurrence of a character, substring match at
//! a position, and whole-string equality.
use vstd::prelude::*;

verus! {

/// Holds when `w` occurs in `s` starting at index `k`.
pub open spec fn occurs_at(s: Seq<char>, k: int, w: Seq<char>) -> bool {
    &&& 0 <= k
    &&& k + w.len() <= s.len()
    &&& s.subrange(k, k + w.len()) == w
}

/// The index of the first occurrence of `c` in `s` at or after `k`;
/// `s.len()` when there is none (or `k` is out of range).
pub open spec fn first_at(s: Seq<char>, k: int, c: char) -> int
    decreases s.len() - k,
{
    if k < 0 || k >= s.len() {
        s.len() as int
    } else if s[k] == c {
        k
    } else {
        first_at(s, k + 1, c)
    }
}

/// `first_at` lands on an occurrence of `c` and skips none before it.
pub proof fn lemma_first_at(s: Seq<char>, k: int, c: char)
    requires
        0 <= k <= s.len(),
    ensures
        k <= first_at(s, k, c) <= s.len(),
        first_at(s, k, c) < s.len() ==> s[first_at(s, k, c)] == c,
        forall|j: int| k <= j < first_at(s, k, c) ==> s[j] != c,
    decreases s.len() - k,
{
    if k < s.len() && s[k] != c {
        lemma_first_at(s, k + 1, c);
    }
}

/// `first_at` is pinned by those two properties: a `c` at `i` with none
/// between `k` and `i` makes `i` the first occurrence.
pub proof fn lemma_first_at_is(s: Seq<char>, k: int, c: char, i: int)
    requires
        0 <= k <= i < s.len(),
        s[i] == c,
        forall|j: int| k <= j < i ==> s[j] != c,
    ensures
        first_at(s, k, c) == i,
    decreases i - k,
{
    if k < i {
        lemma_first_at_is(s, k + 1, c, i);
    }
}

/// The index of the first `c` at or after `from`, or `None` when `c` does
/// not occur there.
pub fn find_char(s: &str, from: usize, c: char) -> (r: Option<usize>)
    requires
        from <= s@.len(),
    ensures
        match r {
            Some(i) => from <= i < s@.len() && i == first_at(s@, from as int, c),
            None => first_at(s@, from as int, c) == s@.len(),
        },
{
    let n = s.unicode_len();
    let mut i: usize = from;
    while i < n
        invariant
            from <= i <= n,
            n == s@.len(),
            forall|j: int| from <= j < i ==> s@[j] != c,
        decreases n - i,
    {
        if s.get_char(i) == c {
            proof {
                lemma_first_at_is(s@, from as int, c, i as int);
            }
            return Some(i);
        }
        i += 1;
    }
    proof {
        lemma_first_at(s@, from as int, c);
        if first_at(s@, from as int, c) < s@.len() {
            assert(s@[first_at(s@, from as int, c)] == c);
        }
    }
    None
}

/// Whether `lit` occurs in `s` starting at `at`.
pub fn match_at(s: &str, at: usize, lit: &str) -> (r: bool)
    requires
        at <= s@.len(),
    ensures
        r == occurs_at(s@, at as int, lit@),
{
    let n = s.unicode_len();
    let m = lit.unicode_len();
    if m > n - at {
        proof {
            assert(!occurs_at(s@, at as int, lit@));
        }
        return false;
    }
    let mut i: usize = 0;
    while i < m
        invariant
            0 <= i <= m,
            n == s@.len(),
            m == lit@.len(),
            at + m <= n,
            forall|j: int| 0 <= j < i ==> s@[at + j] == lit@[j],
        decreases m - i,
    {
        if s.get_char(at + i) != lit.get_char(i) {
            proof {
                assert(s@.subrange(at as int, at + lit@.len())[i as int] != lit@[i as int]);
            }
            return false;
        }
        i += 1;
    }
    proof {
        assert(s@.subrange(at as int, at + lit@.len()) =~= lit@);
    }
    true
}

/// Whether the two strings hold the same characters.
pub fn str_eq(a: &str, b: &str) -> (r: bool)
    ensures
        r == (a@ == b@),
{
    let n = a.unicode_len();
    if n != b.unicode_len() {
        proof {
            assert(a@ != b@);
        }
        return false;
    }
    let mut i: usize = 0;
    while i < n
        invariant
            0 <= i <= n,
            n == a@.len(),
            n == b@.len(),
            forall|j: int| 0 <= j < i ==> a@[j] == b@[j],
        decreases n - i,
    {
        if a.get_char(i) != b.get_char(i) {
            return false;
        }
        i += 1;
    }
    proof {
        assert(a@ =~= b@);
    }
    true
}

} // verus!
