use dependabot_merge::classify::{all_checks_pass, classify_pr, is_bot_login};
use dependabot_merge::model::Repo;

#[test]
fn zero_check_runs_pass() {
    assert!(all_checks_pass(&vec![]));
}

#[test]
fn explicit_failure_blocks() {
    assert!(!all_checks_pass(&vec![Some("failure".to_string())]));
}

#[test]
fn neutral_conclusion_passes() {
    assert!(all_checks_pass(&vec![Some("neutral".to_string())]));
}

#[test]
fn only_failure_blocks_among_many() {
    assert!(all_checks_pass(&vec![
        Some("success".to_string()),
        None,
        Some("skipped".to_string()),
    ]));
    assert!(!all_checks_pass(&vec![
        Some("success".to_string()),
        Some("failure".to_string()),
    ]));
}

#[test]
fn classifier_fills_every_field() {
    let repo = Repo {
        org: "octo".to_string(),
        repo: "widgets".to_string(),
    };
    let conclusions = vec![Some("success".to_string())];
    let body = Some("Dependabot is rebasing this PR right now".to_string());
    let title = Some("Bump foo from 1.2.3 to 1.2.4".to_string());
    let pr = classify_pr(
        Some("https://example.invalid/pr/7".to_string()),
        7,
        repo,
        &conclusions,
        "abc123",
        "abc123",
        &body,
        &title,
    );
    assert_eq!(pr.url, "https://example.invalid/pr/7");
    assert_eq!(pr.number, 7);
    assert_eq!(pr.repo.org, "octo");
    assert_eq!(pr.repo.repo, "widgets");
    assert!(pr.all_checks_pass);
    assert!(pr.rebased);
    assert!(pr.rebase_in_progress);
    assert_eq!(pr.new_version, "1.2.4");
}

#[test]
fn classifier_defaults_for_missing_data() {
    let repo = Repo {
        org: "octo".to_string(),
        repo: "widgets".to_string(),
    };
    let pr = classify_pr(None, 9, repo, &vec![], "abc123", "def456", &None, &None);
    assert_eq!(pr.url, "");
    assert!(pr.all_checks_pass);
    assert!(!pr.rebased);
    assert!(!pr.rebase_in_progress);
    assert_eq!(pr.new_version, "");
}

#[test]
fn marker_must_appear_in_body() {
    let repo = Repo {
        org: "octo".to_string(),
        repo: "widgets".to_string(),
    };
    let body = Some("Bumps foo. Release notes follow.".to_string());
    let pr = classify_pr(None, 3, repo, &vec![], "a", "a", &body, &None);
    assert!(!pr.rebase_in_progress);
}

#[test]
fn bot_login_is_matched_exactly() {
    assert!(is_bot_login("dependabot[bot]"));
    assert!(!is_bot_login("dependabot"));
    assert!(!is_bot_login("renovate[bot]"));
}

#[test]
fn repo_parse_splits_org_and_name() {
    let r = Repo::parse("octo/widgets").unwrap();
    assert_eq!(r.org, "octo");
    assert_eq!(r.repo, "widgets");
}

#[test]
fn repo_parse_rejects_malformed_references() {
    assert!(Repo::parse("octowidgets").is_none());
    assert!(Repo::parse("/widgets").is_none());
    assert!(Repo::parse("octo/").is_none());
    assert!(Repo::parse("").is_none());
}

#[test]
fn repo_parse_ignores_trailing_segments() {
    let r = Repo::parse("octo/widgets/extra").unwrap();
    assert_eq!(r.org, "octo");
    assert_eq!(r.repo, "widgets");
}

#[test]
fn classified_build_metadata_pr_is_left_alone() {
    let repo = Repo {
        org: "octo".to_string(),
        repo: "widgets".to_string(),
    };
    let title = Some("Bump foo from 1.2.3a0+201.fbdbcb12 to 1.2.3a0+210.bafdcd99".to_string());
    let pr = classify_pr(None, 4, repo, &vec![], "a", "b", &None, &title);
    assert_eq!(pr.new_version, "1.2.3a0+210.bafdcd99");
    let p = dependabot_merge::plan::plan(&vec![pr]);
    assert!(!p.hold);
    assert_eq!(p.merge, None);
    assert_eq!(p.rebase_without_merge, None);
}

#[test]
fn classified_ready_pr_is_merged() {
    let repo = Repo {
        org: "octo".to_string(),
        repo: "widgets".to_string(),
    };
    let title = Some("Bump foo from 1.2.3 to 1.2.4".to_string());
    let conclusions = vec![Some("success".to_string()), Some("neutral".to_string())];
    let pr = classify_pr(None, 5, repo, &conclusions, "head0", "head0", &None, &title);
    let p = dependabot_merge::plan::plan(&vec![pr]);
    assert_eq!(p.merge, Some(0));
    assert_eq!(p.rebase_after_merge, None);
}
