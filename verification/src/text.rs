//! Character-sequence utilities used by the configuration codec: finding the
//! first occurrence of a pattern, truncating a string at that occurrence, and
//! splitting a string on a separator character.

use vstd::prelude::*;
use vstd::string::*;

verus! {

/// `pat` occurs in `s` starting at position `i`.
pub open spec fn occurs_at(s: Seq<char>, pat: Seq<char>, i: int) -> bool {
    0 <= i && i + pat.len() <= s.len() && s.subrange(i, i + pat.len() as int) == pat
}

/// `pat` occurs somewhere in `s`.
pub open spec fn contains_pat(s: Seq<char>, pat: Seq<char>) -> bool {
    exists|i: int| occurs_at(s, pat, i)
}

/// `i` is the position of the first occurrence of `pat` in `s`.
pub open spec fn is_first_occurrence(s: Seq<char>, pat: Seq<char>, i: int) -> bool {
    occurs_at(s, pat, i) && forall|j: int| 0 <= j < i ==> !occurs_at(s, pat, j)
}

/// Every occurrence has a first occurrence at or before it.
pub proof fn lemma_first_occurrence_exists(s: Seq<char>, pat: Seq<char>, w: int)
    requires
        occurs_at(s, pat, w),
    ensures
        exists|i: int| is_first_occurrence(s, pat, i),
    decreases w,
{
    if forall|j: int| 0 <= j < w ==> !occurs_at(s, pat, j) {
        assert(is_first_occurrence(s, pat, w));
    } else {
        let j = choose|j: int| 0 <= j < w && occurs_at(s, pat, j);
        lemma_first_occurrence_exists(s, pat, j);
    }
}

/// First occurrences are unique.
pub proof fn lemma_first_occurrence_unique(s: Seq<char>, pat: Seq<char>, i: int, j: int)
    requires
        is_first_occurrence(s, pat, i),
        is_first_occurrence(s, pat, j),
    ensures
        i == j,
{
    if i < j {
        assert(!occurs_at(s, pat, i));
    } else if j < i {
        assert(!occurs_at(s, pat, j));
    }
}

/// The position of the first occurrence of `pat` in `s`, meaningful only
/// when `contains_pat(s, pat)` holds.
pub open spec fn first_occurrence(s: Seq<char>, pat: Seq<char>) -> int {
    choose|i: int| is_first_occurrence(s, pat, i)
}

/// `s` truncated just before the first occurrence of `pat`; `s` itself when
/// `pat` does not occur in it.
pub open spec fn strip_from(s: Seq<char>, pat: Seq<char>) -> Seq<char> {
    if contains_pat(s, pat) {
        s.subrange(0, first_occurrence(s, pat))
    } else {
        s
    }
}

/// Truncating at the first occurrence removes every occurrence: no occurrence
/// of a non-empty `pat` survives in `strip_from(s, pat)`.
pub proof fn lemma_strip_removes_pattern(s: Seq<char>, pat: Seq<char>)
    requires
        pat.len() > 0,
    ensures
        !contains_pat(strip_from(s, pat), pat),
{
    if contains_pat(s, pat) {
        let w = choose|i: int| occurs_at(s, pat, i);
        lemma_first_occurrence_exists(s, pat, w);
        let f = first_occurrence(s, pat);
        assert(is_first_occurrence(s, pat, f));
        let r = s.subrange(0, f);
        assert forall|i: int| !occurs_at(r, pat, i) by {
            if occurs_at(r, pat, i) {
                assert(r.subrange(i, i + pat.len() as int) =~= s.subrange(i, i + pat.len() as int));
                assert(occurs_at(s, pat, i));
                assert(i < f);
            }
        }
    }
}

/// Finds the position of the first occurrence of `pat` in `s`, scanning left
/// to right; `None` when `pat` does not occur in `s`.
pub fn find_first(s: &str, pat: &str) -> (r: Option<usize>)
    ensures
        match r {
            Some(i) => is_first_occurrence(s@, pat@, i as int),
            None => !contains_pat(s@, pat@),
        },
{
    let n = s.unicode_len();
    let m = pat.unicode_len();
    if m > n {
        assert(forall|j: int| !occurs_at(s@, pat@, j));
        return None;
    }
    if m == 0 {
        proof {
            assert(s@.subrange(0, 0) =~= pat@);
        }
        return Some(0);
    }
    let mut i: usize = 0;
    while i <= n - m
        invariant
            1 <= m <= n,
            n == s@.len(),
            m == pat@.len(),
            i <= n - m + 1,
            forall|j: int| 0 <= j < i ==> !occurs_at(s@, pat@, j),
        decreases n - m - i + 1,
    {
        let mut k: usize = 0;
        let mut matched = true;
        while k < m
            invariant
                m <= n,
                n == s@.len(),
                m == pat@.len(),
                i + m <= n,
                k <= m,
                matched ==> forall|q: int| 0 <= q < k ==> s@[i + q] == pat@[q],
                !matched ==> !occurs_at(s@, pat@, i as int),
            decreases m - k,
        {
            if s.get_char(i + k) != pat.get_char(k) {
                proof {
                    if occurs_at(s@, pat@, i as int) {
                        assert(s@.subrange(i as int, i + pat@.len() as int)[k as int] == pat@[k as int]);
                    }
                }
                matched = false;
                k = m;
            } else {
                k = k + 1;
            }
        }
        if matched {
            proof {
                assert(s@.subrange(i as int, i + pat@.len() as int) =~= pat@);
            }
            return Some(i);
        }
        i = i + 1;
    }
    proof {
        assert forall|j: int| !occurs_at(s@, pat@, j) by {
            if occurs_at(s@, pat@, j) {
                assert(0 <= j <= n - m);
            }
        }
    }
    None
}

/// Returns `s` truncated just before the first occurrence of `pat`, or a copy
/// of `s` when `pat` does not occur in it.
pub fn truncate_at_first(s: &str, pat: &str) -> (r: String)
    ensures
        r@ == strip_from(s@, pat@),
{
    match find_first(s, pat) {
        Some(i) => {
            proof {
                let f = first_occurrence(s@, pat@);
                assert(is_first_occurrence(s@, pat@, f));
                lemma_first_occurrence_unique(s@, pat@, f, i as int);
            }
            s.substring_char(0, i).to_owned()
        },
        None => s.to_owned(),
    }
}

/// The position of the first `sep` in `s`; `s.len()` when `s` holds no `sep`.
pub open spec fn first_index_of(s: Seq<char>, sep: char) -> nat
    decreases s.len(),
{
    if s.len() == 0 {
        0
    } else if s[0] == sep {
        0
    } else {
        1 + first_index_of(s.subrange(1, s.len() as int), sep)
    }
}

/// What `first_index_of` returns: the position of the first `sep`, or the
/// length of `s` when there is none.
pub proof fn lemma_first_index_of(s: Seq<char>, sep: char)
    ensures
        first_index_of(s, sep) <= s.len(),
        first_index_of(s, sep) < s.len() ==> s[first_index_of(s, sep) as int] == sep,
        forall|k: int| 0 <= k < first_index_of(s, sep) ==> s[k] != sep,
    decreases s.len(),
{
    if s.len() == 0 {
    } else if s[0] == sep {
    } else {
        let t = s.subrange(1, s.len() as int);
        lemma_first_index_of(t, sep);
        assert forall|k: int| 0 <= k < first_index_of(s, sep) implies s[k] != sep by {
            if k > 0 {
                assert(t[k - 1] != sep);
            }
        }
    }
}

/// Any position that is a `sep` with no `sep` before it, or the length when
/// no position holds a `sep`, is `first_index_of`.
pub proof fn lemma_first_index_of_unique(s: Seq<char>, sep: char, i: int)
    requires
        0 <= i <= s.len(),
        i < s.len() ==> s[i] == sep,
        forall|k: int| 0 <= k < i ==> s[k] != sep,
    ensures
        first_index_of(s, sep) == i,
{
    lemma_first_index_of(s, sep);
    let f = first_index_of(s, sep);
    if f < i {
        assert(s[f as int] != sep);
    } else if i < f {
        assert(s[i] != sep);
    }
}

/// `s` split on `sep`: the (possibly empty) segments between the separators,
/// in order.  A string with no separator yields itself as the one segment.
pub open spec fn split_on(s: Seq<char>, sep: char) -> Seq<Seq<char>>
    decreases s.len(),
{
    let i = first_index_of(s, sep);
    if i >= s.len() {
        seq![s]
    } else {
        seq![s.subrange(0, i as int)] + split_on(s.subrange(i as int + 1, s.len() as int), sep)
    }
}

/// Splits `s` on `sep`, returning the segments in order.
pub fn split_on_char(s: &str, sep: char) -> (r: Vec<String>)
    ensures
        r.deep_view() == split_on(s@, sep),
    decreases s@.len(),
{
    let n = s.unicode_len();
    let mut i: usize = 0;
    while i < n && s.get_char(i) != sep
        invariant
            n == s@.len(),
            i <= n,
            forall|k: int| 0 <= k < i ==> s@[k] != sep,
        decreases n - i,
    {
        i = i + 1;
    }
    proof {
        lemma_first_index_of_unique(s@, sep, i as int);
    }
    if i == n {
        let mut r: Vec<String> = Vec::new();
        r.push(s.to_owned());
        proof {
            assert(r.deep_view() =~= split_on(s@, sep));
        }
        r
    } else {
        let head = s.substring_char(0, i).to_owned();
        let rest = s.substring_char(i + 1, n);
        let mut r = split_on_char(rest, sep);
        r.insert(0, head);
        proof {
            assert(r.deep_view() =~= seq![head@] + split_on(rest@, sep));
        }
        r
    }
}

} // verus!
