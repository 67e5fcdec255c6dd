//! The version extractor: finds the upgrade target in a PR title.
//!
//! A title such as `Bump foo from 1.2.3 to 1.2.4` names the target after
//! the word `to`. The accepted shape is `MAJOR.MINOR.PATCH`, optionally
//! followed by `-<ident>` (a pre-release identifier of ASCII letters,
//! digits and dots), optionally the literal `a0`, and optionally
//! `+<ident>` (build metadata). Each part is taken greedily, and only
//! the leftmost occurrence in the title counts. The match is returned
//! exactly as it stands in the title.

use vstd::prelude::*;

verus! {

/// A decimal digit.
pub open spec fn is_digit(c: char) -> bool {
    '0' as u32 <= c as u32 && c as u32 <= '9' as u32
}

/// A character allowed inside a pre-release or build identifier:
/// ASCII letters, digits, and '.'.
pub open spec fn is_ident_char(c: char) -> bool {
    ||| is_digit(c)
    ||| 'a' as u32 <= c as u32 && c as u32 <= 'z' as u32
    ||| 'A' as u32 <= c as u32 && c as u32 <= 'Z' as u32
    ||| c == '.'
}

/// Index just past the maximal run of decimal digits starting at `p`.
pub open spec fn digit_run_end(t: Seq<char>, p: int) -> int
    decreases t.len() - p,
{
    if p < t.len() && is_digit(t[p]) {
        digit_run_end(t, p + 1)
    } else {
        p
    }
}

/// Index just past the maximal run of identifier characters starting at `p`.
pub open spec fn ident_run_end(t: Seq<char>, p: int) -> int
    decreases t.len() - p,
{
    if p < t.len() && is_ident_char(t[p]) {
        ident_run_end(t, p + 1)
    } else {
        p
    }
}

/// End position of a version occurrence starting at `p`, if the text at
/// `p` has the version shape; `None` when it does not.
pub open spec fn version_end(t: Seq<char>, p: int) -> Option<int> {
    let e1 = digit_run_end(t, p);
    if e1 == p {
        None
    } else if !(e1 < t.len() && t[e1] == '.') {
        None
    } else {
        let e2 = digit_run_end(t, e1 + 1);
        if e2 == e1 + 1 {
            None
        } else if !(e2 < t.len() && t[e2] == '.') {
            None
        } else {
            let e3 = digit_run_end(t, e2 + 1);
            if e3 == e2 + 1 {
                None
            } else {
                let e4 = if e3 + 1 < t.len() && t[e3] == '-' && is_ident_char(t[e3 + 1]) {
                    ident_run_end(t, e3 + 1)
                } else {
                    e3
                };
                let e5 = if e4 + 1 < t.len() && t[e4] == 'a' && t[e4 + 1] == '0' {
                    e4 + 2
                } else {
                    e4
                };
                let e6 = if e5 + 1 < t.len() && t[e5] == '+' && is_ident_char(t[e5 + 1]) {
                    ident_run_end(t, e5 + 1)
                } else {
                    e5
                };
                Some(e6)
            }
        }
    }
}

/// The pattern `to <version>` matches in `t` at position `i`.
pub open spec fn to_match_at(t: Seq<char>, i: int) -> bool {
    &&& 0 <= i
    &&& i + 3 <= t.len()
    &&& t[i] == 't'
    &&& t[i + 1] == 'o'
    &&& t[i + 2] == ' '
    &&& version_end(t, i + 3) is Some
}

/// The version text captured by a match at position `i`.
pub open spec fn captured_version(t: Seq<char>, i: int) -> Seq<char> {
    t.subrange(i + 3, version_end(t, i + 3).unwrap())
}

/// Position of the leftmost match at or after `i`, if any.
pub open spec fn first_match_from(t: Seq<char>, i: int) -> Option<int>
    decreases t.len() - i,
{
    if i >= t.len() {
        None
    } else if to_match_at(t, i) {
        Some(i)
    } else {
        first_match_from(t, i + 1)
    }
}

/// What the extractor returns on a whole title: the capture of the
/// leftmost `to <version>` occurrence, or nothing.
pub open spec fn spec_parse_version(t: Seq<char>) -> Option<Seq<char>> {
    match first_match_from(t, 0) {
        Some(i) => Some(captured_version(t, i)),
        None => None,
    }
}

/// Whether `c` is a decimal digit.
fn digit_char(c: char) -> (r: bool)
    ensures
        r == is_digit(c),
{
    '0' as u32 <= c as u32 && c as u32 <= '9' as u32
}

/// Whether `c` may stand inside a pre-release or build identifier.
fn ident_char(c: char) -> (r: bool)
    ensures
        r == is_ident_char(c),
{
    digit_char(c) || ('a' as u32 <= c as u32 && c as u32 <= 'z' as u32) || ('A' as u32 <= c as u32
        && c as u32 <= 'Z' as u32) || c == '.'
}

/// Whether the character at `q` is a decimal digit.
fn digit_at(s: &str, q: usize) -> (r: bool)
    requires
        q < s@.len(),
    ensures
        r == is_digit(s@[q as int]),
{
    digit_char(s.get_char(q))
}

/// Whether the character at `q` may stand inside an identifier.
fn ident_at(s: &str, q: usize) -> (r: bool)
    requires
        q < s@.len(),
    ensures
        r == is_ident_char(s@[q as int]),
{
    ident_char(s.get_char(q))
}

/// Walks to the end of the digit run starting at `p`.
fn digit_run_from(s: &str, p: usize, n: usize) -> (e: usize)
    requires
        n == s@.len(),
        p <= n,
    ensures
        e == digit_run_end(s@, p as int),
        p <= e <= n,
{
    let mut q: usize = p;
    while q < n && digit_at(s, q)
        invariant
            n == s@.len(),
            p <= q <= n,
            digit_run_end(s@, p as int) == digit_run_end(s@, q as int),
        decreases n - q,
    {
        proof {
            assert(digit_run_end(s@, q as int) == digit_run_end(s@, q + 1));
        }
        q += 1;
    }
    proof {
        assert(digit_run_end(s@, q as int) == q);
    }
    q
}

/// Walks to the end of the identifier run starting at `p`.
fn ident_run_from(s: &str, p: usize, n: usize) -> (e: usize)
    requires
        n == s@.len(),
        p <= n,
    ensures
        e == ident_run_end(s@, p as int),
        p <= e <= n,
{
    let mut q: usize = p;
    while q < n && ident_at(s, q)
        invariant
            n == s@.len(),
            p <= q <= n,
            ident_run_end(s@, p as int) == ident_run_end(s@, q as int),
        decreases n - q,
    {
        proof {
            assert(ident_run_end(s@, q as int) == ident_run_end(s@, q + 1));
        }
        q += 1;
    }
    proof {
        assert(ident_run_end(s@, q as int) == q);
    }
    q
}

/// Tries to read a version starting exactly at character position `p`.
fn version_end_from(s: &str, p: usize, n: usize) -> (r: Option<usize>)
    requires
        n == s@.len(),
        p <= n,
    ensures
        match r {
            Some(e) => version_end(s@, p as int) == Some(e as int) && p <= e <= n,
            None => version_end(s@, p as int) is None,
        },
{
    let e1 = digit_run_from(s, p, n);
    if e1 == p {
        return None;
    }
    if e1 == n || s.get_char(e1) != '.' {
        return None;
    }
    let e2 = digit_run_from(s, e1 + 1, n);
    if e2 == e1 + 1 {
        return None;
    }
    if e2 == n || s.get_char(e2) != '.' {
        return None;
    }
    let e3 = digit_run_from(s, e2 + 1, n);
    if e3 == e2 + 1 {
        return None;
    }
    let e4: usize = if n - e3 > 1 && s.get_char(e3) == '-' && ident_at(s, e3 + 1) {
        ident_run_from(s, e3 + 1, n)
    } else {
        e3
    };
    let e5: usize = if n - e4 > 1 && s.get_char(e4) == 'a' && s.get_char(e4 + 1) == '0' {
        e4 + 2
    } else {
        e4
    };
    let e6: usize = if n - e5 > 1 && s.get_char(e5) == '+' && ident_at(s, e5 + 1) {
        ident_run_from(s, e5 + 1, n)
    } else {
        e5
    };
    Some(e6)
}

/// Tries to match `to <version>` at character position `i`.
fn try_match_at(s: &str, i: usize, n: usize) -> (r: Option<usize>)
    requires
        n == s@.len(),
        i < n,
    ensures
        match r {
            Some(e) => {
                &&& to_match_at(s@, i as int)
                &&& version_end(s@, i as int + 3) == Some(e as int)
                &&& i + 3 <= e <= n
            },
            None => !to_match_at(s@, i as int),
        },
{
    if n - i < 3 {
        return None;
    }
    if s.get_char(i) != 't' {
        return None;
    }
    if s.get_char(i + 1) != 'o' {
        return None;
    }
    if s.get_char(i + 2) != ' ' {
        return None;
    }
    let r = version_end_from(s, i + 3, n);
    match r {
        Some(e) => Some(e),
        None => None,
    }
}

/// Extracts the upgrade target named after the leftmost `to` in a PR
/// title, exactly as it appears there; `None` when no occurrence of
/// `to <version>` is present.
pub fn parse_version_from_pr(title: &str) -> (r: Option<String>)
    ensures
        match r {
            Some(v) => spec_parse_version(title@) == Some(v@),
            None => spec_parse_version(title@) is None,
        },
{
    let n = title.unicode_len();
    let mut i: usize = 0;
    while i < n
        invariant
            n == title@.len(),
            i <= n,
            first_match_from(title@, 0) == first_match_from(title@, i as int),
        decreases n - i,
    {
        match try_match_at(title, i, n) {
            Some(e) => {
                proof {
                    assert(first_match_from(title@, i as int) == Some(i as int));
                }
                let v = title.substring_char(i + 3, e);
                return Some(v.to_owned());
            },
            None => {
                proof {
                    assert(first_match_from(title@, i as int) == first_match_from(
                        title@,
                        i as int + 1,
                    ));
                }
                i += 1;
            },
        }
    }
    proof {
        assert(first_match_from(title@, n as int) is None);
    }
    None
}

} // verus!
