//! The PR state classifier: turns raw remote data about one candidate
//! PR (check-run conclusions, commits, body, title) into a normalized
//! `DependabotPr` record. Pure; the caller performs the remote reads.

use crate::model::DependabotPr;
use crate::model::Repo;
use crate::text::spec_contains_seq;
use crate::text::str_contains;
use crate::text::str_eq;
use crate::version::spec_parse_version;
use crate::version::parse_version_from_pr;
use vstd::prelude::*;

verus! {

/// Login of the dependency bot whose PRs this job handles.
pub open spec fn bot_login() -> Seq<char> {
    "dependabot[bot]"@
}

/// The marker the bot leaves in a PR body while a rebase is in flight.
/// A fixed piece of the bot's wording: a deliberate, documented
/// heuristic at the collaborator boundary.
pub open spec fn rebase_marker() -> Seq<char> {
    "Dependabot is rebasing this PR"@
}

/// A single check-run conclusion blocks merging only when it is exactly
/// "failure"; anything else (success, neutral, pending, absent) does not.
pub open spec fn conclusion_ok(c: Option<String>) -> bool {
    match c {
        Some(s) => s@ != "failure"@,
        None => true,
    }
}

/// All check runs pass: none reports an explicit failure. An empty set
/// of check runs counts as passing.
pub open spec fn spec_all_checks_pass(cs: Seq<Option<String>>) -> bool {
    forall|k: int| 0 <= k < cs.len() ==> conclusion_ok(#[trigger] cs[k])
}

/// The body text carries the in-flight-rebase marker; a missing body
/// carries nothing.
pub open spec fn spec_rebase_in_progress(body: Option<String>) -> bool {
    match body {
        Some(b) => spec_contains_seq(b@, rebase_marker()),
        None => false,
    }
}

/// The version a title names, with "could not parse" and "no title"
/// both flattened to the empty string.
pub open spec fn spec_title_version(title: Option<String>) -> Seq<char> {
    match title {
        Some(t) => match spec_parse_version(t@) {
            Some(v) => v,
            None => Seq::empty(),
        },
        None => Seq::empty(),
    }
}

/// Whether `login` is the dependency bot's account.
pub fn is_bot_login(login: &str) -> (r: bool)
    ensures
        r == (login@ == bot_login()),
{
    str_eq(login, "dependabot[bot]")
}

/// Whether the conclusions of the given check runs allow merging.
pub fn all_checks_pass(conclusions: &Vec<Option<String>>) -> (r: bool)
    ensures
        r == spec_all_checks_pass(conclusions@),
{
    let n = conclusions.len();
    let mut k: usize = 0;
    while k < n
        invariant
            n == conclusions@.len(),
            k <= n,
            forall|j: int| 0 <= j < k ==> conclusion_ok(#[trigger] conclusions@[j]),
        decreases n - k,
    {
        match &conclusions[k] {
            Some(s) => {
                if str_eq(s.as_str(), "failure") {
                    assert(!conclusion_ok(conclusions@[k as int]));
                    return false;
                }
            },
            None => {},
        }
        k += 1;
    }
    true
}

/// Builds the classified record for one PR from its raw remote data.
/// No error path: a malformed or missing title yields an empty
/// `new_version`, a missing URL an empty display string.
pub fn classify_pr(
    url: Option<String>,
    number: u64,
    repo: Repo,
    conclusions: &Vec<Option<String>>,
    pr_base_sha: &str,
    base_branch_sha: &str,
    body: &Option<String>,
    title: &Option<String>,
) -> (pr: DependabotPr)
    ensures
        pr.url@ == match url {
            Some(u) => u@,
            None => Seq::<char>::empty(),
        },
        pr.number == number,
        pr.repo == repo,
        pr.all_checks_pass == spec_all_checks_pass(conclusions@),
        pr.rebased == (pr_base_sha@ == base_branch_sha@),
        pr.rebase_in_progress == spec_rebase_in_progress(*body),
        pr.new_version@ == spec_title_version(*title),
{
    let checks = all_checks_pass(conclusions);
    let rebased = str_eq(pr_base_sha, base_branch_sha);
    let rebase_in_progress = match body {
        Some(b) => str_contains(b.as_str(), "Dependabot is rebasing this PR"),
        None => false,
    };
    let new_version = match title {
        Some(t) => match parse_version_from_pr(t.as_str()) {
            Some(v) => v,
            None => String::new(),
        },
        None => String::new(),
    };
    let url_text = match url {
        Some(u) => u,
        None => String::new(),
    };
    DependabotPr {
        url: url_text,
        number,
        repo,
        all_checks_pass: checks,
        rebased,
        rebase_in_progress,
        new_version,
    }
}

} // verus!
