//! Verified text matching over character sequences: literal search, maximal
//! runs of non-whitespace characters, and backwards scans. The diagnostic
//! classifier's grammar is built from these.

use vstd::prelude::*;

verus! {

/// Whether `c` is a whitespace character — one with the Unicode White_Space
/// property — and so ends a word of a diagnostic message.
pub open spec fn is_ws_char(c: char) -> bool {
    let u = c as u32;
    ||| (9 <= u && u <= 13)
    ||| u == 32
    ||| u == 0x85
    ||| u == 0xa0
    ||| u == 0x1680
    ||| (0x2000 <= u && u <= 0x200a)
    ||| u == 0x2028
    ||| u == 0x2029
    ||| u == 0x202f
    ||| u == 0x205f
    ||| u == 0x3000
}

/// Whether `c` is a whitespace character — one with the Unicode White_Space
/// property — and so ends a word of a diagnostic message.
pub fn is_ws(c: char) -> (r: bool)
    ensures
        r == is_ws_char(c),
{
    let u = c as u32;
    (9 <= u && u <= 13) || u == 32 || u == 0x85 || u == 0xa0 || u == 0x1680 || (0x2000 <= u && u
        <= 0x200a) || u == 0x2028 || u == 0x2029 || u == 0x202f || u == 0x205f || u == 0x3000
}

/// Whether `pat` occurs in `s` starting exactly at position `i`.
pub open spec fn match_at(s: Seq<char>, pat: Seq<char>, i: int) -> bool {
    &&& 0 <= i
    &&& i + pat.len() <= s.len()
    &&& forall|j: int| 0 <= j < pat.len() ==> s[i + j] == pat[j]
}

/// Whether `pat` occurs in `s` starting exactly at position `i`.
pub fn starts_with_at(s: &str, pat: &str, i: usize) -> (r: bool)
    ensures
        r == match_at(s@, pat@, i as int),
{
    let n = s.unicode_len();
    let m = pat.unicode_len();
    if i > n || m > n - i {
        return false;
    }
    let mut j: usize = 0;
    while j < m
        invariant
            i + m <= n,
            n == s@.len(),
            m == pat@.len(),
            j <= m,
            forall|k: int| 0 <= k < j ==> s@[i + k] == pat@[k],
        decreases m - j,
    {
        if s.get_char(i + j) != pat.get_char(j) {
            return false;
        }
        j += 1;
    }
    true
}

/// The position of the first occurrence of `pat` in `s` at or after `i`, if
/// any.
pub open spec fn find_from(s: Seq<char>, pat: Seq<char>, i: int) -> Option<int>
    decreases s.len() - i,
{
    if i + pat.len() > s.len() {
        None
    } else if match_at(s, pat, i) {
        Some(i)
    } else {
        find_from(s, pat, i + 1)
    }
}

/// What `find_from` finds: a leftmost match. A hit is a match with no earlier
/// match at or after the search start; a miss means no match anywhere at or
/// after it.
pub proof fn lemma_find_from(s: Seq<char>, pat: Seq<char>, i: int)
    ensures
        match find_from(s, pat, i) {
            Some(m) => {
                &&& i <= m
                &&& match_at(s, pat, m)
                &&& forall|k: int| i <= k < m ==> !match_at(s, pat, k)
            },
            None => forall|k: int| i <= k ==> !match_at(s, pat, k),
        },
    decreases s.len() - i,
{
    if i + pat.len() > s.len() {
    } else if match_at(s, pat, i) {
    } else {
        lemma_find_from(s, pat, i + 1);
    }
}

/// The position of the first occurrence of `pat` in `s` at or after `from`,
/// if any.
pub fn find_str_from(s: &str, pat: &str, from: usize) -> (r: Option<usize>)
    ensures
        r matches Some(m) ==> find_from(s@, pat@, from as int) == Some(m as int),
        r is None ==> find_from(s@, pat@, from as int) is None,
{
    let n = s.unicode_len();
    let m = pat.unicode_len();
    if from > n || m > n - from {
        return None;
    }
    let mut i: usize = from;
    while i <= n - m
        invariant
            from <= i,
            i as int <= n - m + 1,
            m <= n,
            n == s@.len(),
            m == pat@.len(),
            find_from(s@, pat@, from as int) == find_from(s@, pat@, i as int),
        decreases n - i,
    {
        if starts_with_at(s, pat, i) {
            return Some(i);
        }
        proof {
            assert(find_from(s@, pat@, i as int) == find_from(s@, pat@, i as int + 1));
        }
        i += 1;
    }
    None
}

/// The end of the maximal run of non-whitespace characters that starts at
/// `i`: the first position at or after `i` that is past the end of `s` or
/// holds a whitespace character.
pub open spec fn nonws_end(s: Seq<char>, i: int) -> int
    decreases s.len() - i,
{
    if i >= s.len() || is_ws_char(s[i]) {
        i
    } else {
        nonws_end(s, i + 1)
    }
}

/// What `nonws_end` marks: everything from the start of the run up to it is
/// non-whitespace, and it stops at the end of the text or at a whitespace
/// character.
pub proof fn lemma_nonws_end(s: Seq<char>, i: int)
    requires
        0 <= i <= s.len(),
    ensures
        i <= nonws_end(s, i) <= s.len(),
        forall|k: int| i <= k < nonws_end(s, i) ==> !is_ws_char(s[k]),
        nonws_end(s, i) < s.len() ==> is_ws_char(s[nonws_end(s, i)]),
    decreases s.len() - i,
{
    if i < s.len() && !is_ws_char(s[i]) {
        lemma_nonws_end(s, i + 1);
    }
}

/// The end of the maximal run of non-whitespace characters that starts at
/// `i`.
pub fn nonws_run_end(s: &str, i: usize) -> (r: usize)
    requires
        i as int <= s@.len(),
    ensures
        r as int == nonws_end(s@, i as int),
{
    let n = s.unicode_len();
    let mut j: usize = i;
    while j < n && !is_ws(s.get_char(j))
        invariant
            i <= j <= n,
            n == s@.len(),
            nonws_end(s@, i as int) == nonws_end(s@, j as int),
        decreases n - j,
    {
        proof {
            assert(nonws_end(s@, j as int) == nonws_end(s@, j as int + 1));
        }
        j += 1;
    }
    j
}

/// The position of the last occurrence of `c` within `s[lo..hi]`, if any.
pub open spec fn last_occurrence(s: Seq<char>, c: char, lo: int, hi: int) -> Option<int>
    decreases hi - lo,
{
    if hi <= lo {
        None
    } else if s[hi - 1] == c {
        Some(hi - 1)
    } else {
        last_occurrence(s, c, lo, hi - 1)
    }
}

/// What `last_occurrence` finds: an occurrence with nothing equal after it
/// within the range, or the absence of any occurrence in the range.
pub proof fn lemma_last_occurrence(s: Seq<char>, c: char, lo: int, hi: int)
    ensures
        match last_occurrence(s, c, lo, hi) {
            Some(q) => {
                &&& lo <= q < hi
                &&& s[q] == c
                &&& forall|k: int| q < k < hi ==> s[k] != c
            },
            None => forall|k: int| lo <= k < hi ==> s[k] != c,
        },
    decreases hi - lo,
{
    if hi <= lo {
    } else if s[hi - 1] == c {
    } else {
        lemma_last_occurrence(s, c, lo, hi - 1);
    }
}

/// The position of the last occurrence of `c` within `s[lo..hi]`, if any.
pub fn find_last_char(s: &str, c: char, lo: usize, hi: usize) -> (r: Option<usize>)
    requires
        lo <= hi,
        hi as int <= s@.len(),
    ensures
        r matches Some(q) ==> last_occurrence(s@, c, lo as int, hi as int) == Some(q as int),
        r is None ==> last_occurrence(s@, c, lo as int, hi as int) is None,
{
    let mut h: usize = hi;
    while h > lo
        invariant
            lo <= h <= hi,
            hi as int <= s@.len(),
            last_occurrence(s@, c, lo as int, hi as int) == last_occurrence(
                s@,
                c,
                lo as int,
                h as int,
            ),
        decreases h,
    {
        if s.get_char(h - 1) == c {
            return Some(h - 1);
        }
        h -= 1;
    }
    None
}

} // verus!
