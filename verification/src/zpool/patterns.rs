//! The grammar of the external tool's diagnostic messages. Four patterns are
//! recognized, each anchored on a literal marker followed by words of
//! non-whitespace characters; a pattern matches a text when some occurrence
//! of its marker is followed by the rest of the pattern, and the leftmost
//! such occurrence decides the captures.

use vstd::prelude::*;

use crate::zpool::text::find_last_char;
use crate::zpool::text::find_str_from;
use crate::zpool::text::is_ws;
use crate::zpool::text::is_ws_char;
use crate::zpool::text::last_occurrence;
use crate::zpool::text::lemma_find_from;
use crate::zpool::text::lemma_nonws_end;
use crate::zpool::text::match_at;
use crate::zpool::text::nonws_end;
use crate::zpool::text::nonws_run_end;
use crate::zpool::text::starts_with_at;

verus! {

/// The marker of the vdev-reuse pattern.
pub open spec fn reuse_marker() -> Seq<char> {
    "following errors:\n"@
}

/// The literal between the two captures of the vdev-reuse pattern. Its last
/// character is the quote that opens the pool-name capture.
pub open spec fn reuse_mid() -> Seq<char> {
    " is part of active pool '"@
}

/// The marker shared by the three `cannot create` patterns: the marker is
/// followed by one word that ends in a colon (the quoted pool name), then by
/// a pattern-specific literal tail.
pub open spec fn cannot_create_marker() -> Seq<char> {
    "cannot create "@
}

/// The tail of the vdev-reuse variant that some distributions print without
/// exposing the vdev path or the owning pool's name.
pub open spec fn zol_reuse_tail() -> Seq<char> {
    " one or more vdevs refer to the same device, or one of\nthe devices is part of an active md or lvm device\n"@
}

/// The tail of the device-too-small pattern; the minimum size that follows it
/// is one further non-empty word.
pub open spec fn too_small_tail() -> Seq<char> {
    " one or more devices is less than the minimum size "@
}

/// The tail of the permission-denied pattern.
pub open spec fn permission_denied_tail() -> Seq<char> {
    " permission denied\n"@
}

/// The captures of the vdev-reuse pattern when its tail matches right after a
/// marker occurrence ending at `i0`: a non-empty word (the vdev path), the
/// middle literal, and then a non-empty capture closed by the last quote of
/// the word that follows the opening quote (the pool name).
pub open spec fn reuse_captures_at(s: Seq<char>, i0: int) -> Option<(Seq<char>, Seq<char>)> {
    let v_end = nonws_end(s, i0);
    if v_end <= i0 {
        None
    } else if !match_at(s, reuse_mid(), v_end) {
        None
    } else {
        let p0 = v_end + reuse_mid().len();
        let r_end = nonws_end(s, p0);
        match last_occurrence(s, '\'', p0 + 1, r_end) {
            Some(q) => Some((s.subrange(i0, v_end), s.subrange(p0, q))),
            None => None,
        }
    }
}

/// The captures of the vdev-reuse pattern at its leftmost successful marker
/// occurrence at or after `i`, if any.
pub open spec fn reuse_match_from(s: Seq<char>, i: int) -> Option<(Seq<char>, Seq<char>)>
    decreases s.len() - i + 1,
{
    if i + reuse_marker().len() > s.len() {
        None
    } else if match_at(s, reuse_marker(), i) && reuse_captures_at(
        s,
        i + reuse_marker().len(),
    ) is Some {
        reuse_captures_at(s, i + reuse_marker().len())
    } else {
        reuse_match_from(s, i + 1)
    }
}

/// The captures of the vdev-reuse pattern at its leftmost successful marker
/// occurrence, if the pattern matches anywhere in `s`.
pub open spec fn reuse_match(s: Seq<char>) -> Option<(Seq<char>, Seq<char>)> {
    reuse_match_from(s, 0)
}

proof fn lemma_reuse_match_skip(s: Seq<char>, i: int, m: int)
    requires
        i <= m,
        forall|k: int| i <= k < m ==> !match_at(s, reuse_marker(), k),
    ensures
        reuse_match_from(s, i) == reuse_match_from(s, m),
    decreases m - i,
{
    if i < m {
        if i + reuse_marker().len() > s.len() {
            assert(reuse_match_from(s, m) is None);
        } else {
            lemma_reuse_match_skip(s, i + 1, m);
        }
    }
}

/// Whether one of the `cannot create` patterns matches right after a marker
/// occurrence ending at `i0`: a word of at least two characters ending in a
/// colon, then the given literal tail, then — where the pattern asks for one —
/// at least one further non-whitespace character.
pub open spec fn cannot_create_tail_ok(s: Seq<char>, tail: Seq<char>, extra: bool, i0: int) -> bool {
    let e = nonws_end(s, i0);
    &&& e - i0 >= 2
    &&& s[e - 1] == ':'
    &&& match_at(s, tail, e)
    &&& (extra ==> e + tail.len() < s.len() && !is_ws_char(s[e + tail.len()]))
}

/// Whether the `cannot create` pattern with the given tail matches at some
/// marker occurrence at or after `i`.
pub open spec fn cannot_create_from(s: Seq<char>, tail: Seq<char>, extra: bool, i: int) -> bool
    decreases s.len() - i + 1,
{
    if i + cannot_create_marker().len() > s.len() {
        false
    } else if match_at(s, cannot_create_marker(), i) && cannot_create_tail_ok(
        s,
        tail,
        extra,
        i + cannot_create_marker().len(),
    ) {
        true
    } else {
        cannot_create_from(s, tail, extra, i + 1)
    }
}

/// Whether the `cannot create` pattern with the given tail matches anywhere
/// in `s`.
pub open spec fn cannot_create_match(s: Seq<char>, tail: Seq<char>, extra: bool) -> bool {
    cannot_create_from(s, tail, extra, 0)
}

proof fn lemma_cannot_create_skip(s: Seq<char>, tail: Seq<char>, extra: bool, i: int, m: int)
    requires
        i <= m,
        forall|k: int| i <= k < m ==> !match_at(s, cannot_create_marker(), k),
    ensures
        cannot_create_from(s, tail, extra, i) == cannot_create_from(s, tail, extra, m),
    decreases m - i,
{
    if i < m {
        if i + cannot_create_marker().len() > s.len() {
            assert(!cannot_create_from(s, tail, extra, m));
        } else {
            lemma_cannot_create_skip(s, tail, extra, i + 1, m);
        }
    }
}

/// Attempt the tail of the vdev-reuse pattern right after a marker occurrence
/// ending at `i0`, returning the two captures on success.
fn try_reuse_at(s: &str, i0: usize) -> (r: Option<(String, String)>)
    requires
        i0 as int <= s@.len(),
    ensures
        r matches Some(c) ==> reuse_captures_at(s@, i0 as int) == Some((c.0@, c.1@)),
        r is None ==> reuse_captures_at(s@, i0 as int) is None,
{
    let n = s.unicode_len();
    let v_end = nonws_run_end(s, i0);
    proof {
        lemma_nonws_end(s@, i0 as int);
    }
    if v_end <= i0 {
        return None;
    }
    let mid = " is part of active pool '";
    if !starts_with_at(s, mid, v_end) {
        return None;
    }
    let p0 = v_end + mid.unicode_len();
    let r_end = nonws_run_end(s, p0);
    proof {
        lemma_nonws_end(s@, p0 as int);
    }
    if r_end <= p0 {
        return None;
    }
    match find_last_char(s, '\'', p0 + 1, r_end) {
        Some(q) => {
            proof {
                crate::zpool::text::lemma_last_occurrence(s@, '\'', p0 as int + 1, r_end as int);
            }
            let vdev = s.substring_char(i0, v_end).to_owned();
            let pool = s.substring_char(p0, q).to_owned();
            Some((vdev, pool))
        },
        None => None,
    }
}

/// Search `s` for the vdev-reuse pattern, returning the captured vdev path
/// and pool name of its leftmost successful marker occurrence.
pub(crate) fn match_reuse(s: &str) -> (r: Option<(String, String)>)
    ensures
        r matches Some(c) ==> reuse_match(s@) == Some((c.0@, c.1@)),
        r is None ==> reuse_match(s@) is None,
{
    let marker = "following errors:\n";
    let n = s.unicode_len();
    proof {
        reveal_strlit("following errors:\n");
    }
    let mut pos: usize = 0;
    loop
        invariant
            marker@ == reuse_marker(),
            marker@.len() == 18,
            n == s@.len(),
            pos as int <= s@.len() + 1,
            reuse_match(s@) == reuse_match_from(s@, pos as int),
        decreases s@.len() + 1 - pos,
    {
        match find_str_from(s, marker, pos) {
            None => {
                proof {
                    lemma_find_from(s@, marker@, pos as int);
                    lemma_reuse_match_skip(s@, pos as int, s@.len() as int + 1);
                    assert(reuse_match_from(s@, s@.len() as int + 1) is None);
                }
                return None;
            },
            Some(m) => {
                proof {
                    lemma_find_from(s@, marker@, pos as int);
                    lemma_reuse_match_skip(s@, pos as int, m as int);
                }
                let i0 = m + marker.unicode_len();
                let attempt = try_reuse_at(s, i0);
                if attempt.is_some() {
                    return attempt;
                }
                proof {
                    assert(reuse_match_from(s@, m as int) == reuse_match_from(s@, m as int + 1));
                }
                pos = m + 1;
            },
        }
    }
}

/// Attempt the word-ending-in-colon and literal tail of one `cannot create`
/// pattern right after a marker occurrence ending at `i0`.
fn try_cannot_create_at(s: &str, tail: &str, extra: bool, i0: usize) -> (r: bool)
    requires
        i0 as int <= s@.len(),
    ensures
        r == cannot_create_tail_ok(s@, tail@, extra, i0 as int),
{
    let n = s.unicode_len();
    let e = nonws_run_end(s, i0);
    proof {
        lemma_nonws_end(s@, i0 as int);
    }
    if e - i0 < 2 {
        return false;
    }
    if s.get_char(e - 1) != ':' {
        return false;
    }
    if !starts_with_at(s, tail, e) {
        return false;
    }
    if extra {
        let t = e + tail.unicode_len();
        if t >= n {
            return false;
        }
        if is_ws(s.get_char(t)) {
            return false;
        }
    }
    true
}

/// Search `s` for the `cannot create` pattern with the given literal tail,
/// asking for one further non-empty word after the tail where `extra` is set.
pub(crate) fn match_cannot_create(s: &str, tail: &str, extra: bool) -> (r: bool)
    ensures
        r == cannot_create_match(s@, tail@, extra),
{
    let marker = "cannot create ";
    let n = s.unicode_len();
    proof {
        reveal_strlit("cannot create ");
    }
    let mut pos: usize = 0;
    loop
        invariant
            marker@ == cannot_create_marker(),
            marker@.len() == 14,
            n == s@.len(),
            pos as int <= s@.len() + 1,
            cannot_create_match(s@, tail@, extra) == cannot_create_from(
                s@,
                tail@,
                extra,
                pos as int,
            ),
        decreases s@.len() + 1 - pos,
    {
        match find_str_from(s, marker, pos) {
            None => {
                proof {
                    lemma_find_from(s@, marker@, pos as int);
                    lemma_cannot_create_skip(s@, tail@, extra, pos as int, s@.len() as int + 1);
                    assert(!cannot_create_from(s@, tail@, extra, s@.len() as int + 1));
                }
                return false;
            },
            Some(m) => {
                proof {
                    lemma_find_from(s@, marker@, pos as int);
                    lemma_cannot_create_skip(s@, tail@, extra, pos as int, m as int);
                }
                let i0 = m + marker.unicode_len();
                if try_cannot_create_at(s, tail, extra, i0) {
                    return true;
                }
                proof {
                    assert(cannot_create_from(s@, tail@, extra, m as int) == cannot_create_from(
                        s@,
                        tail@,
                        extra,
                        m as int + 1,
                    ));
                }
                pos = m + 1;
            },
        }
    }
}

} // verus!
