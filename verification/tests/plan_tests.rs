use dependabot_merge::model::{DependabotPr, Repo};
use dependabot_merge::plan::{plan, Plan};

fn pr(number: u64, checks: bool, rebased: bool, in_progress: bool, version: &str) -> DependabotPr {
    DependabotPr {
        url: format!("https://example.invalid/pr/{}", number),
        number,
        repo: Repo {
            org: "octo".to_string(),
            repo: "widgets".to_string(),
        },
        all_checks_pass: checks,
        rebased,
        rebase_in_progress: in_progress,
        new_version: version.to_string(),
    }
}

#[test]
fn empty_scan_plans_nothing() {
    let p = plan(&vec![]);
    assert_eq!(
        p,
        Plan {
            hold: false,
            merge: None,
            rebase_after_merge: None,
            rebase_without_merge: None,
        }
    );
}

#[test]
fn planner_is_idempotent() {
    let prs = vec![
        pr(1, true, false, false, "1.2.4"),
        pr(2, true, true, false, "2.0.0"),
        pr(3, false, false, false, "3.1.0"),
    ];
    let first = plan(&prs);
    let second = plan(&prs);
    assert_eq!(first, second);
}

#[test]
fn safety_gate_stops_everything() {
    // The third PR is mid-rebase, so nothing happens, even though the
    // first PR is ready to merge and the second needs a rebase.
    let prs = vec![
        pr(1, true, true, false, "1.2.4"),
        pr(2, true, false, false, "2.0.0"),
        pr(3, true, false, true, "3.1.0"),
    ];
    let p = plan(&prs);
    assert!(p.hold);
    assert_eq!(p.merge, None);
    assert_eq!(p.rebase_after_merge, None);
    assert_eq!(p.rebase_without_merge, None);
}

#[test]
fn safety_gate_holds_even_for_prerelease_pr() {
    // The in-flight rebase sits on a build-metadata PR; the run is
    // still held, since the hold is decided on the whole scan.
    let prs = vec![
        pr(1, true, true, false, "1.2.4"),
        pr(2, true, false, true, "2.0.0+build.5"),
    ];
    let p = plan(&prs);
    assert!(p.hold);
    assert_eq!(p.merge, None);
    assert_eq!(p.rebase_without_merge, None);
}

#[test]
fn prerelease_versions_are_never_touched() {
    // Both PRs would otherwise qualify, but carry build metadata.
    let prs = vec![
        pr(1, true, true, false, "1.2.4+build.1"),
        pr(2, true, false, false, "2.0.0+210.bafdcd99"),
    ];
    let p = plan(&prs);
    assert!(!p.hold);
    assert_eq!(p.merge, None);
    assert_eq!(p.rebase_without_merge, None);
    assert_eq!(p.rebase_after_merge, None);
}

#[test]
fn unparsed_version_is_eligible() {
    // An empty version means "could not parse" and does not exclude a PR.
    let prs = vec![pr(1, true, true, false, "")];
    let p = plan(&prs);
    assert_eq!(p.merge, Some(0));
}

#[test]
fn first_merge_ready_pr_wins() {
    let prs = vec![
        pr(1, false, true, false, "0.9.1"),
        pr(2, true, true, false, "1.2.4"),
        pr(3, true, true, false, "2.0.0"),
    ];
    let p = plan(&prs);
    assert_eq!(p.merge, Some(1));
}

#[test]
fn merged_pr_is_not_asked_to_rebase() {
    // Position 0 is merged; it would trivially pass the rebase filter
    // only if unrebased, so make the scan where the merged one is also
    // the top rebase candidate by list order among the unrebased.
    let prs = vec![
        pr(1, true, true, false, "1.2.4"),
        pr(2, true, false, false, "2.0.0"),
    ];
    let p = plan(&prs);
    assert_eq!(p.merge, Some(0));
    assert_eq!(p.rebase_after_merge, Some(1));
    assert_ne!(p.rebase_after_merge, p.merge);
}

#[test]
fn rebase_continues_when_merge_is_rejected() {
    // If the remote rejects the merge of position 0, the run still asks
    // the first unrebased PR for a rebase.
    let prs = vec![
        pr(1, true, true, false, "1.2.4"),
        pr(2, true, false, false, "2.0.0"),
    ];
    let p = plan(&prs);
    assert_eq!(p.merge, Some(0));
    assert_eq!(p.rebase_without_merge, Some(1));
}

#[test]
fn no_rebase_candidate_when_all_are_current() {
    let prs = vec![
        pr(1, false, true, false, "1.2.4"),
        pr(2, true, true, false, "2.0.0"),
    ];
    let p = plan(&prs);
    assert_eq!(p.merge, Some(1));
    assert_eq!(p.rebase_after_merge, None);
    assert_eq!(p.rebase_without_merge, None);
}
