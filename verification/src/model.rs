//! The data model: a repository reference and the classified state of
//! one dependency-update PR.

use vstd::prelude::*;

verus! {

/// A remote repository, identified by owner organization and name.
#[derive(Debug, Clone)]
pub struct Repo {
    pub org: String,
    pub repo: String,
}

/// Position of the first '/' in `t` at or after `i`, or `t.len()` when
/// there is none.
pub open spec fn slash_pos(t: Seq<char>, i: int) -> int
    decreases t.len() - i,
{
    if i >= t.len() {
        t.len() as int
    } else if t[i] == '/' {
        i
    } else {
        slash_pos(t, i + 1)
    }
}

/// What parsing an `org/repo` string yields: the text before the first
/// '/' and the text between the first and the second '/' (or the end).
/// Parsing fails when there is no '/' or either part is empty.
pub open spec fn spec_parse_repo(t: Seq<char>) -> Option<(Seq<char>, Seq<char>)> {
    let p1 = slash_pos(t, 0);
    if p1 == t.len() {
        None
    } else {
        let p2 = slash_pos(t, p1 + 1);
        let org = t.subrange(0, p1);
        let name = t.subrange(p1 + 1, p2);
        if org.len() == 0 || name.len() == 0 {
            None
        } else {
            Some((org, name))
        }
    }
}

/// Finds the first '/' at or after `p`, mirroring `slash_pos`.
fn find_slash_from(s: &str, p: usize, n: usize) -> (r: usize)
    requires
        n == s@.len(),
        p <= n,
    ensures
        r == slash_pos(s@, p as int),
        p <= r <= n,
{
    let mut q: usize = p;
    while q < n && s.get_char(q) != '/'
        invariant
            n == s@.len(),
            p <= q <= n,
            slash_pos(s@, p as int) == slash_pos(s@, q as int),
        decreases n - q,
    {
        proof {
            assert(slash_pos(s@, q as int) == slash_pos(s@, q + 1));
        }
        q += 1;
    }
    q
}

impl Repo {
    /// Both parts of the reference are non-empty.
    pub open spec fn wf(self) -> bool {
        self.org@.len() > 0 && self.repo@.len() > 0
    }

    /// Splits a configured `org/repo` string into a repository
    /// reference; fails when either part is empty or the separator is
    /// missing. Text after a second '/' is not part of the name.
    pub fn parse(s: &str) -> (r: Option<Repo>)
        ensures
            match r {
                Some(rp) => spec_parse_repo(s@) == Some((rp.org@, rp.repo@)) && rp.wf(),
                None => spec_parse_repo(s@) is None,
            },
    {
        let n = s.unicode_len();
        let p1 = find_slash_from(s, 0, n);
        if p1 == n {
            return None;
        }
        let p2 = find_slash_from(s, p1 + 1, n);
        if p1 == 0 || p2 == p1 + 1 {
            return None;
        }
        let org = s.substring_char(0, p1).to_owned();
        let name = s.substring_char(p1 + 1, p2).to_owned();
        Some(Repo { org, repo: name })
    }
}

/// The classified state of one open dependency-update PR, built fresh
/// from live remote data on every run and never mutated afterwards.
#[derive(Debug, Clone)]
pub struct DependabotPr {
    /// Display URL; empty when the remote offers none.
    pub url: String,
    /// PR number, unique within its repository.
    pub number: u64,
    /// The repository the PR belongs to.
    pub repo: Repo,
    /// No check run on the PR's head reports an explicit failure.
    pub all_checks_pass: bool,
    /// The PR's recorded base commit equals the base branch's head.
    pub rebased: bool,
    /// The PR body carries the bot's in-flight-rebase marker.
    pub rebase_in_progress: bool,
    /// The upgrade target parsed from the title; empty when no version
    /// could be read (such a PR counts as eligible).
    pub new_version: String,
}

} // verus!
