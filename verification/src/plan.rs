//! The action planner: given the classified PRs of one repository, in
//! scan order, decides the at most one merge and at most one
//! rebase-request of this run. Pure decision logic; the caller carries
//! the chosen actions out and reports whether the merge call succeeded.

use crate::model::DependabotPr;
use crate::text::contains_char;
use vstd::prelude::*;

verus! {

/// A PR may be touched at all only when its target version carries no
/// build-metadata marker '+'; such bumps are never acted on.
pub open spec fn eligible(pr: DependabotPr) -> bool {
    !pr.new_version@.contains('+')
}

/// A PR ready to merge: eligible, checks passing, up to date with base.
pub open spec fn merge_ready(pr: DependabotPr) -> bool {
    eligible(pr) && pr.all_checks_pass && pr.rebased
}

/// A PR to ask for a rebase: eligible and behind its base branch.
pub open spec fn rebase_needed(pr: DependabotPr) -> bool {
    eligible(pr) && !pr.rebased
}

/// Some scanned PR reports an in-flight rebase.
pub open spec fn any_rebase_in_progress(prs: Seq<DependabotPr>) -> bool {
    exists|i: int| 0 <= i < prs.len() && (#[trigger] prs[i]).rebase_in_progress
}

/// `r` names the first merge-ready PR of the scan, or nothing.
pub open spec fn first_merge_ready(prs: Seq<DependabotPr>, r: Option<usize>) -> bool {
    match r {
        Some(i) => i < prs.len() && merge_ready(prs[i as int]) && (forall|j: int|
            0 <= j < i ==> !merge_ready(#[trigger] prs[j])),
        None => forall|j: int| 0 <= j < prs.len() ==> !merge_ready(#[trigger] prs[j]),
    }
}

/// `r` names the first PR of the scan that needs a rebase, skipping
/// position `excl` (pass a negative `excl` to skip none).
pub open spec fn first_needing_rebase(prs: Seq<DependabotPr>, excl: int, r: Option<usize>) -> bool {
    match r {
        Some(i) => i < prs.len() && rebase_needed(prs[i as int]) && i != excl && (forall|j: int|
            0 <= j < i && j != excl ==> !rebase_needed(#[trigger] prs[j])),
        None => forall|j: int| 0 <= j < prs.len() && j != excl ==> !rebase_needed(#[trigger] prs[j]),
    }
}

/// The decisions for one repository and one run. Positions index the
/// classified scan list handed to `plan`.
#[derive(Debug, Clone, PartialEq, Eq)]
pub struct Plan {
    /// No mutation this run: some PR is already being rebased.
    pub hold: bool,
    /// Position of the PR to approve and then merge, if any.
    pub merge: Option<usize>,
    /// Position of the PR to ask for a rebase when the merge above
    /// succeeded; never the merged position itself.
    pub rebase_after_merge: Option<usize>,
    /// Position of the PR to ask for a rebase when no PR was merged
    /// (no candidate, or the merge call was rejected).
    pub rebase_without_merge: Option<usize>,
}

/// What a correct plan for a scan says. The safety gate is judged on
/// the whole scan, before the pre-release filter: an in-flight rebase
/// anywhere stops every action of this run.
pub open spec fn plan_matches(prs: Seq<DependabotPr>, p: Plan) -> bool {
    &&& p.hold == any_rebase_in_progress(prs)
    &&& if p.hold {
        &&& p.merge is None
        &&& p.rebase_after_merge is None
        &&& p.rebase_without_merge is None
    } else {
        &&& first_merge_ready(prs, p.merge)
        &&& first_needing_rebase(prs, -1, p.rebase_without_merge)
        &&& match p.merge {
            Some(m) => first_needing_rebase(prs, m as int, p.rebase_after_merge),
            None => p.rebase_after_merge is None,
        }
    }
}

/// Whether the scan allows no action at all this run.
pub fn some_rebase_in_progress(prs: &Vec<DependabotPr>) -> (r: bool)
    ensures
        r == any_rebase_in_progress(prs@),
{
    let n = prs.len();
    let mut i: usize = 0;
    while i < n
        invariant
            n == prs@.len(),
            i <= n,
            forall|j: int| 0 <= j < i ==> !(#[trigger] prs@[j]).rebase_in_progress,
        decreases n - i,
    {
        if prs[i].rebase_in_progress {
            return true;
        }
        i += 1;
    }
    false
}

/// Whether this PR may be acted on at all.
fn is_eligible(pr: &DependabotPr) -> (r: bool)
    ensures
        r == eligible(*pr),
{
    !contains_char(pr.new_version.as_str(), '+')
}

/// Position of the first merge-ready PR of the scan, if any.
pub fn find_merge_candidate(prs: &Vec<DependabotPr>) -> (r: Option<usize>)
    ensures
        first_merge_ready(prs@, r),
{
    let n = prs.len();
    let mut i: usize = 0;
    while i < n
        invariant
            n == prs@.len(),
            i <= n,
            forall|j: int| 0 <= j < i ==> !merge_ready(#[trigger] prs@[j]),
        decreases n - i,
    {
        let pr = &prs[i];
        if is_eligible(pr) && pr.all_checks_pass && pr.rebased {
            return Some(i);
        }
        i += 1;
    }
    None
}

/// Position of the first PR of the scan that needs a rebase, skipping
/// the position named by `excl`, if any.
pub fn find_rebase_candidate(prs: &Vec<DependabotPr>, excl: Option<usize>) -> (r: Option<usize>)
    ensures
        first_needing_rebase(
            prs@,
            match excl {
                Some(m) => m as int,
                None => -1,
            },
            r,
        ),
{
    let ghost e: int = match excl {
        Some(m) => m as int,
        None => -1,
    };
    let n = prs.len();
    let mut i: usize = 0;
    while i < n
        invariant
            n == prs@.len(),
            i <= n,
            e == match excl {
                Some(m) => m as int,
                None => -1,
            },
            forall|j: int| 0 <= j < i && j != e ==> !rebase_needed(#[trigger] prs@[j]),
        decreases n - i,
    {
        let skip = match excl {
            Some(m) => m == i,
            None => false,
        };
        if !skip {
            let pr = &prs[i];
            if is_eligible(pr) && !pr.rebased {
                return Some(i);
            }
        }
        i += 1;
    }
    None
}

/// Plans the run for one repository from its classified scan list.
pub fn plan(prs: &Vec<DependabotPr>) -> (p: Plan)
    ensures
        plan_matches(prs@, p),
{
    if some_rebase_in_progress(prs) {
        return Plan { hold: true, merge: None, rebase_after_merge: None, rebase_without_merge: None };
    }
    let merge = find_merge_candidate(prs);
    let rebase_without_merge = find_rebase_candidate(prs, None);
    let rebase_after_merge = match merge {
        Some(m) => find_rebase_candidate(prs, Some(m)),
        None => None,
    };
    Plan { hold: false, merge, rebase_after_merge, rebase_without_merge }
}

/// The planner's contract admits exactly one plan for a given scan, so
/// re-planning an unchanged scan chooses the same actions both times.
pub proof fn lemma_plan_unique(prs: Seq<DependabotPr>, p1: Plan, p2: Plan)
    requires
        plan_matches(prs, p1),
        plan_matches(prs, p2),
    ensures
        p1 == p2,
{
    if p1.hold {
        assert(p1 == p2);
    } else {
        lemma_first_merge_unique(prs, p1.merge, p2.merge);
        lemma_first_rebase_unique(prs, -1, p1.rebase_without_merge, p2.rebase_without_merge);
        match p1.merge {
            Some(m) => {
                lemma_first_rebase_unique(prs, m as int, p1.rebase_after_merge, p2.rebase_after_merge);
            },
            None => {},
        }
        assert(p1 == p2);
    }
}

proof fn lemma_first_merge_unique(prs: Seq<DependabotPr>, r1: Option<usize>, r2: Option<usize>)
    requires
        first_merge_ready(prs, r1),
        first_merge_ready(prs, r2),
    ensures
        r1 == r2,
{
    match (r1, r2) {
        (Some(i1), Some(i2)) => {
            if i1 < i2 {
                assert(!merge_ready(prs[i1 as int]));
            } else if i2 < i1 {
                assert(!merge_ready(prs[i2 as int]));
            }
        },
        (Some(i1), None) => {
            assert(!merge_ready(prs[i1 as int]));
        },
        (None, Some(i2)) => {
            assert(!merge_ready(prs[i2 as int]));
        },
        (None, None) => {},
    }
}

proof fn lemma_first_rebase_unique(
    prs: Seq<DependabotPr>,
    excl: int,
    r1: Option<usize>,
    r2: Option<usize>,
)
    requires
        first_needing_rebase(prs, excl, r1),
        first_needing_rebase(prs, excl, r2),
    ensures
        r1 == r2,
{
    match (r1, r2) {
        (Some(i1), Some(i2)) => {
            if i1 < i2 {
                assert(!rebase_needed(prs[i1 as int]));
            } else if i2 < i1 {
                assert(!rebase_needed(prs[i2 as int]));
            }
        },
        (Some(i1), None) => {
            assert(!rebase_needed(prs[i1 as int]));
        },
        (None, Some(i2)) => {
            assert(!rebase_needed(prs[i2 as int]));
        },
        (None, None) => {},
    }
}

/// Safety gate: when any scanned PR reports an in-flight rebase, the
/// plan holds off and schedules neither a merge nor a rebase request,
/// whatever the other PRs' states.
pub proof fn lemma_safety_gate(prs: Seq<DependabotPr>, p: Plan, i: int)
    requires
        plan_matches(prs, p),
        0 <= i < prs.len(),
        prs[i].rebase_in_progress,
    ensures
        p.hold,
        p.merge is None,
        p.rebase_after_merge is None,
        p.rebase_without_merge is None,
{
    assert(any_rebase_in_progress(prs));
}

/// Pre-release filter: a PR whose target version carries '+' is never
/// the one merged and never the one asked to rebase.
pub proof fn lemma_prerelease_excluded(prs: Seq<DependabotPr>, p: Plan, i: int)
    requires
        plan_matches(prs, p),
        0 <= i < prs.len(),
        prs[i].new_version@.contains('+'),
    ensures
        p.merge matches Some(m) ==> m as int != i,
        p.rebase_after_merge matches Some(m) ==> m as int != i,
        p.rebase_without_merge matches Some(m) ==> m as int != i,
{
}

/// Merge priority: of two merge-ready PRs the planner picks the one
/// earlier in scan order; the later one is left untouched this run,
/// neither merged nor asked to rebase.
pub proof fn lemma_merge_priority(prs: Seq<DependabotPr>, p: Plan, i: int, j: int)
    requires
        plan_matches(prs, p),
        !any_rebase_in_progress(prs),
        0 <= i < j < prs.len(),
        merge_ready(prs[i]),
        merge_ready(prs[j]),
    ensures
        p.merge is Some,
        p.merge matches Some(m) ==> m as int <= i && m as int != j,
        p.rebase_after_merge matches Some(r) ==> r as int != j,
        p.rebase_without_merge matches Some(r) ==> r as int != j,
{
    match p.merge {
        Some(m) => {
            if i < m as int {
                assert(!merge_ready(prs[i]));
            }
        },
        None => {
            assert(!merge_ready(prs[i]));
        },
    }
}

/// Rebase exclusion: the position merged this run is never also the
/// position asked to rebase, even though a just-merged PR would satisfy
/// the rebase filter.
pub proof fn lemma_no_rebase_of_merged(prs: Seq<DependabotPr>, p: Plan)
    requires
        plan_matches(prs, p),
        p.merge is Some,
    ensures
        p.rebase_after_merge != p.merge,
{
}

/// Merge rejection: rebase candidacy does not depend on the merge call
/// going through; whenever some PR needs a rebase, the fallback choice
/// used after a rejected (or absent) merge names one.
pub proof fn lemma_rebase_after_failed_merge(prs: Seq<DependabotPr>, p: Plan, i: int)
    requires
        plan_matches(prs, p),
        !any_rebase_in_progress(prs),
        0 <= i < prs.len(),
        rebase_needed(prs[i]),
    ensures
        p.rebase_without_merge is Some,
{
    if p.rebase_without_merge is None {
        assert(!rebase_needed(prs[i]));
    }
}

} // verus!
