//! Pull-request strategies, states, builders, argument lists and the
//! number read out of an address.

use gt::github::cli::{auth_requirement, github_cli_silent, GithubAuth, GithubCli};
use gt::github::pr::{
    pr_number_from_url, CreatePrOptions, MergePrOptions, MergeStrategy, PrState, PullRequest,
    PullRequestManager,
};

#[test]
fn strategies_map_to_client_flags() {
    assert_eq!(MergeStrategy::Rebase.to_gh_arg(), "--rebase");
    assert_eq!(MergeStrategy::Squash.to_gh_arg(), "--squash");
    assert_eq!(MergeStrategy::Merge.to_gh_arg(), "--merge");
}

#[test]
fn strategies_parse_case_insensitively() {
    assert_eq!(MergeStrategy::from_str("rebase"), Ok(MergeStrategy::Rebase));
    assert_eq!(MergeStrategy::from_str("R"), Ok(MergeStrategy::Rebase));
    assert_eq!(MergeStrategy::from_str("Squash"), Ok(MergeStrategy::Squash));
    assert_eq!(MergeStrategy::from_str("s"), Ok(MergeStrategy::Squash));
    assert_eq!(MergeStrategy::from_str("MERGE"), Ok(MergeStrategy::Merge));
    assert_eq!(MergeStrategy::from_str("m"), Ok(MergeStrategy::Merge));
    assert!(MergeStrategy::from_str("fast-forward").is_err());
}

#[test]
fn the_recommended_strategy_is_rebase() {
    assert_eq!(MergeStrategy::default(), MergeStrategy::Rebase);
    assert!(MergeStrategy::Rebase.is_recommended());
    assert!(!MergeStrategy::Squash.is_recommended());
    assert_eq!(
        MergeStrategy::all(),
        vec![MergeStrategy::Rebase, MergeStrategy::Squash, MergeStrategy::Merge]
    );
    assert_eq!(MergeStrategy::Rebase.short_description(), "Rebase");
    assert!(MergeStrategy::Squash.description().starts_with("squash"));
}

#[test]
fn states_parse_and_merge_only_open() {
    assert_eq!(PrState::from_str("open"), PrState::Open);
    assert_eq!(PrState::from_str("Closed"), PrState::Closed);
    assert_eq!(PrState::from_str("MERGED"), PrState::Merged);
    assert_eq!(PrState::from_str("draft"), PrState::Draft);
    assert_eq!(PrState::from_str("anything"), PrState::Open);
    assert!(PrState::Open.is_mergeable());
    assert!(!PrState::Closed.is_mergeable());
    assert!(!PrState::Draft.is_mergeable());
}

fn sample_pr(state: PrState, mergeable: Option<bool>) -> PullRequest {
    PullRequest {
        number: 12,
        title: "Add login".to_string(),
        url: "https://github.com/o/r/pull/12".to_string(),
        head_branch: "feature/login".to_string(),
        base_branch: "main".to_string(),
        state,
        author: None,
        created_at: None,
        mergeable,
    }
}

#[test]
fn a_request_merges_only_open_and_not_reported_unmergeable() {
    assert!(sample_pr(PrState::Open, Some(true)).can_merge());
    assert!(sample_pr(PrState::Open, None).can_merge());
    assert!(!sample_pr(PrState::Open, Some(false)).can_merge());
    assert!(!sample_pr(PrState::Merged, Some(true)).can_merge());
}

#[test]
fn the_summary_names_number_title_and_state() {
    assert_eq!(sample_pr(PrState::Open, None).summary(), "#12 - Add login (open)");
}

#[test]
fn create_options_build_up() {
    let options = CreatePrOptions::new("feature/x".to_string(), "main".to_string())
        .with_title("Title".to_string())
        .with_body("Body".to_string())
        .as_draft()
        .add_approver("alice".to_string())
        .add_label("bug".to_string())
        .with_milestone("v1".to_string());
    assert_eq!(options.head_branch, "feature/x");
    assert_eq!(options.base_branch, "main");
    assert_eq!(options.title.as_deref(), Some("Title"));
    assert_eq!(options.body.as_deref(), Some("Body"));
    assert!(options.draft);
    assert!(!options.auto_fill);
    assert_eq!(options.approvers, vec!["alice".to_string()]);
    assert_eq!(options.labels, vec!["bug".to_string()]);
    assert_eq!(options.milestone.as_deref(), Some("v1"));
}

#[test]
fn merge_options_build_up() {
    let options = MergePrOptions::new(MergeStrategy::Squash)
        .delete_branch()
        .with_commit_message("subject".to_string())
        .skip_checks()
        .enable_auto_merge();
    assert_eq!(options.strategy, MergeStrategy::Squash);
    assert!(options.delete_branch);
    assert_eq!(options.commit_message.as_deref(), Some("subject"));
    assert!(!options.wait_for_checks);
    assert!(options.auto_merge);
    let defaults = MergePrOptions::default();
    assert_eq!(defaults.strategy, MergeStrategy::Rebase);
    assert!(defaults.wait_for_checks);
}

#[test]
fn create_arguments_start_with_base_and_head() {
    let manager = PullRequestManager::new(github_cli_silent());
    let options = CreatePrOptions::new("feature/x".to_string(), "main".to_string());
    let args = manager.create_pr_args(&options);
    assert_eq!(
        &args[..6],
        &[
            "pr".to_string(),
            "create".to_string(),
            "--base".to_string(),
            "main".to_string(),
            "--head".to_string(),
            "feature/x".to_string(),
        ]
    );
    assert!(args.contains(&"--fill".to_string()));
    assert!(!args.contains(&"--draft".to_string()));

    let drafted = manager.create_pr_args(&options.clone().as_draft());
    assert!(drafted.contains(&"--draft".to_string()));
}

#[test]
fn merge_arguments_name_the_request_and_strategy() {
    let manager = PullRequestManager::new(GithubCli::new(false));
    let options = MergePrOptions::new(MergeStrategy::Rebase).delete_branch().enable_auto_merge();
    let args = manager.merge_pr_args("https://github.com/o/r/pull/7", &options);
    assert_eq!(args[0], "pr");
    assert_eq!(args[1], "merge");
    assert_eq!(args[2], "https://github.com/o/r/pull/7");
    assert_eq!(args[3], "--rebase");
    assert!(args.contains(&"--delete-branch".to_string()));
    assert!(args.contains(&"--auto".to_string()));
}

#[test]
fn the_number_is_read_from_the_address() {
    assert_eq!(pr_number_from_url("https://github.com/o/r/pull/123"), 123);
    assert_eq!(pr_number_from_url("https://github.com/o/r/pull/1"), 1);
    assert_eq!(pr_number_from_url("https://github.com/o/r"), 0);
    assert_eq!(pr_number_from_url("https://github.com/o/r/pull/12/files"), 0);
    assert_eq!(pr_number_from_url("https://github.com/o/r/pull/"), 0);
    assert_eq!(pr_number_from_url("https://github.com/o/r/pull/99999999999"), 0);
    assert_eq!(pr_number_from_url(""), 0);
}

#[test]
fn parsed_requests_carry_the_requested_branches() {
    let manager = PullRequestManager::new(github_cli_silent());
    let options = CreatePrOptions::new("feature/x".to_string(), "main".to_string());
    let pr = manager.parse_pr_from_url("https://github.com/o/r/pull/42", &options);
    assert_eq!(pr.number, 42);
    assert_eq!(pr.head_branch, "feature/x");
    assert_eq!(pr.base_branch, "main");
    assert_eq!(pr.state, PrState::Open);
    let drafted = manager.parse_pr_from_url(
        "https://github.com/o/r/pull/42",
        &options.clone().as_draft(),
    );
    assert_eq!(drafted.state, PrState::Draft);
}

#[test]
fn authentication_gates_the_run() {
    assert!(auth_requirement(&GithubAuth::Authenticated("alice".to_string())).is_ok());
    assert!(auth_requirement(&GithubAuth::Unknown).is_ok());
    assert!(matches!(
        auth_requirement(&GithubAuth::NotAuthenticated),
        Err(gt::errors::GtError::GitHubAuthError)
    ));
    assert!(!github_cli_silent().is_verbose());
    assert!(GithubCli::default().is_verbose());
}
