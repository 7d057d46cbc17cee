//! The workflow commands' decisions, driven by scripted answers, and the
//! router's mapping of parsed commands to plans.

use gt::cli::{CommandRouter, Commands, RoutePlan};
use gt::commands::save::{join_lines, SaveAction, SaveCommand, SaveSession};
use gt::commands::ship::{MergeStrategy, ShipAction, ShipCommand, ShipOptions, ShipSession};
use gt::commands::start::{StartAction, StartCommand, StartOptions, StartSession};
use gt::commands::update::{UpdateAction, UpdateCommand, UpdateOptions, UpdateSession};
use gt::commands::{CleanCommand, ConfigCommand, InitCommand, SpCommand, StatusCommand};
use gt::config::repository::{judge_remote_presence, RepoConfig};
use gt::repo::judge_merge_index;
use gt::errors::GtError;
use gt::status::WorkingTreeStatus;

fn clean_status() -> WorkingTreeStatus {
    WorkingTreeStatus {
        has_uncommitted_changes: false,
        has_untracked_files: false,
        has_staged_changes: false,
        modified_files: 0,
        added_files: 0,
        deleted_files: 0,
        untracked_files: 0,
    }
}

fn dirty_status() -> WorkingTreeStatus {
    WorkingTreeStatus {
        has_uncommitted_changes: true,
        has_untracked_files: false,
        has_staged_changes: false,
        modified_files: 1,
        added_files: 0,
        deleted_files: 0,
        untracked_files: 0,
    }
}

#[test]
fn start_validation_normalizes_and_checks_the_name() {
    let mut cmd = StartCommand::with_branch("  Feature X ".to_string());
    assert!(cmd.validate_input().is_ok());
    assert_eq!(cmd.options.branch, "feature-x");

    let mut empty = StartCommand::with_branch(String::new());
    assert!(matches!(empty.validate_input(), Err(GtError::InvalidInput { .. })));

    let mut bad = StartCommand::with_branch("a..b".to_string());
    assert!(matches!(
        bad.validate_input(),
        Err(GtError::InvalidBranchName { .. })
    ));
}

#[test]
fn start_on_a_clean_tree_needs_no_consent() {
    let cmd = StartCommand::with_branch("feature/x".to_string());
    assert!(cmd.check_working_directory(&clean_status(), false).is_ok());
}

#[test]
fn start_on_a_dirty_tree_follows_the_answer() {
    let cmd = StartCommand::with_branch("feature/x".to_string());
    assert!(cmd.check_working_directory(&dirty_status(), true).is_ok());
    assert!(matches!(
        cmd.check_working_directory(&dirty_status(), false),
        Err(GtError::UserCancelled)
    ));
}

#[test]
fn start_resolves_the_base_from_the_config() {
    let config = RepoConfig::default();
    let cmd = StartCommand::with_branch("feature/x".to_string());
    assert_eq!(cmd.determine_base_branch(&config), "main");

    let mut options = StartOptions::default();
    options.branch = "feature/x".to_string();
    options.base = Some("develop".to_string());
    let cmd = StartCommand::new(options);
    assert_eq!(cmd.determine_base_branch(&config), "develop");
}

#[test]
fn save_with_no_files_stages_everything() {
    let cmd = SaveCommand::new(None, false, Vec::new());
    assert!(cmd.options.add_all);
    let cmd = SaveCommand::new(None, false, vec!["a.txt".to_string()]);
    assert!(!cmd.options.add_all);
}

#[test]
fn save_reports_a_no_op_without_staged_changes() {
    let cmd = SaveCommand::new(None, false, Vec::new());
    assert!(!cmd.should_commit(&clean_status()));
    let mut staged = clean_status();
    staged.has_staged_changes = true;
    assert!(cmd.should_commit(&staged));
}

#[test]
fn save_with_empty_message_fails_and_commits_nothing() {
    // Scenario: staged changes, no message supplied, and the interactive
    // collection came back empty.
    let cmd = SaveCommand::new(None, false, Vec::new());
    let no_lines: Vec<String> = Vec::new();
    assert!(matches!(
        cmd.resolve_commit_message(false, &no_lines),
        Err(GtError::EmptyCommitMessage)
    ));
}

#[test]
fn save_uses_the_supplied_message_as_it_stands() {
    let cmd = SaveCommand::new(Some("fix the login".to_string()), false, Vec::new());
    let no_lines: Vec<String> = Vec::new();
    assert_eq!(cmd.resolve_commit_message(false, &no_lines).unwrap(), "fix the login");
}

#[test]
fn save_editing_accepts_or_replaces_the_supplied_message() {
    let cmd = SaveCommand::new(Some("original".to_string()), true, Vec::new());
    let lines = vec!["first".to_string(), "second".to_string()];
    assert_eq!(cmd.resolve_commit_message(true, &lines).unwrap(), "original");
    assert_eq!(cmd.resolve_commit_message(false, &lines).unwrap(), "first\nsecond");
}

#[test]
fn collected_lines_join_with_newlines() {
    assert_eq!(join_lines(&vec!["one".to_string()]).unwrap(), "one");
    assert_eq!(
        join_lines(&vec!["one".to_string(), "two".to_string(), "three".to_string()]).unwrap(),
        "one\ntwo\nthree"
    );
    assert!(matches!(join_lines(&Vec::new()), Err(GtError::EmptyCommitMessage)));
}

#[test]
fn update_stash_decisions_cover_every_path() {
    let cmd = UpdateCommand::new(false);
    assert_eq!(cmd.stash_decision(true, false).unwrap(), false);
    assert_eq!(cmd.stash_decision(false, true).unwrap(), true);
    assert!(matches!(
        cmd.stash_decision(false, false),
        Err(GtError::UserCancelled)
    ));

    let forced = UpdateCommand::new(true);
    assert_eq!(forced.stash_decision(false, false).unwrap(), false);

    let no_stash = UpdateCommand::with_options(UpdateOptions {
        force: false,
        no_stash: true,
        main_only: false,
    });
    assert!(matches!(
        no_stash.stash_decision(false, true),
        Err(GtError::DirtyWorkingDirectory)
    ));
}

#[test]
fn ship_on_main_without_consent_cancels_before_any_push() {
    // Scenario: the current branch equals the main branch and the
    // confirmation is declined: the command aborts with a cancellation,
    // before any push is attempted.
    let cmd = ShipCommand::new(false, false, None, false);
    assert!(matches!(
        cmd.main_branch_decision(false),
        Err(GtError::UserCancelled)
    ));
    assert!(cmd.main_branch_decision(true).is_ok());
}

#[test]
fn ship_requires_a_clean_tree_or_a_save() {
    let cmd = ShipCommand::new(false, false, None, false);
    assert_eq!(cmd.uncommitted_decision(true, false).unwrap(), false);
    assert_eq!(cmd.uncommitted_decision(false, true).unwrap(), true);
    assert!(matches!(
        cmd.uncommitted_decision(false, false),
        Err(GtError::UserCancelled)
    ));
}

#[test]
fn ship_flags_imply_each_other() {
    let plain = ShipCommand::new(false, false, None, false);
    assert!(!plain.options.create_pr);
    assert!(!plain.options.auto_merge);

    let with_pr = ShipCommand::new(false, true, None, false);
    assert!(with_pr.options.create_pr);
    assert!(!with_pr.options.auto_merge);

    let auto = ShipCommand::new(true, false, Some(MergeStrategy::Squash), true);
    assert!(auto.options.create_pr);
    assert!(auto.options.auto_merge);
    assert_eq!(auto.options.merge_strategy, MergeStrategy::Squash);
    assert!(auto.options.no_switch);
    assert!(auto.options.delete_branch);

    let defaults = ShipOptions::default();
    assert_eq!(defaults.merge_strategy, MergeStrategy::Rebase);
}

#[test]
fn ship_strategies_translate_to_the_service_terms() {
    assert_eq!(
        MergeStrategy::Rebase.into_pr_strategy(),
        gt::github::pr::MergeStrategy::Rebase
    );
    assert_eq!(
        MergeStrategy::Squash.into_pr_strategy(),
        gt::github::pr::MergeStrategy::Squash
    );
    assert_eq!(
        MergeStrategy::Merge.into_pr_strategy(),
        gt::github::pr::MergeStrategy::Merge
    );
    assert_eq!(MergeStrategy::Rebase.name(), "rebase");
}

#[test]
fn sp_runs_the_same_save() {
    let sp = SpCommand::new(Some("msg".to_string()), false, Vec::new());
    let save = sp.save_command();
    assert_eq!(save.options.message.as_deref(), Some("msg"));
    assert!(save.options.add_all);
}

#[test]
fn the_router_maps_workflow_commands() {
    let router = CommandRouter::new(false, false, true);

    match router.plan(Commands::Start {
        branch: "feature/x".to_string(),
        base: "main".to_string(),
        local: false,
    }) {
        Ok(RoutePlan::Start(o)) => {
            assert_eq!(o.branch, "feature/x");
            assert_eq!(o.base.as_deref(), Some("main"));
            assert!(!o.local);
            assert!(!o.skip_update);
            assert!(!o.dry_run);
        }
        other => panic!("unexpected plan: {:?}", other),
    }

    match router.plan(Commands::Start {
        branch: "b".to_string(),
        base: String::new(),
        local: true,
    }) {
        Ok(RoutePlan::Start(o)) => {
            assert!(o.base.is_none());
            assert!(o.local);
        }
        other => panic!("unexpected plan: {:?}", other),
    }

    match router.plan(Commands::Ship {
        no_switch: false,
        pr: false,
        auto_merge: false,
        squash: true,
        merge: false,
        delete_branch: true,
    }) {
        Ok(RoutePlan::Ship(o)) => {
            assert!(o.create_pr);
            assert!(o.auto_merge);
            assert_eq!(o.merge_strategy, MergeStrategy::Squash);
            assert!(o.delete_branch);
        }
        other => panic!("unexpected plan: {:?}", other),
    }

    assert!(matches!(
        router.plan(Commands::Update { force: true }),
        Ok(RoutePlan::Update { force: true })
    ));
    assert!(matches!(
        router.plan(Commands::Save { message: None, edit: false, files: Vec::new() }),
        Ok(RoutePlan::Save { .. })
    ));
    assert!(matches!(
        router.plan(Commands::Status { remote: false, log: false }),
        Ok(RoutePlan::ShowStatus)
    ));
}

#[test]
fn a_dry_run_skips_the_base_refresh() {
    let router = CommandRouter::new(false, true, true);
    match router.plan(Commands::Start {
        branch: "b".to_string(),
        base: String::new(),
        local: false,
    }) {
        Ok(RoutePlan::Start(o)) => {
            assert!(o.skip_update);
            assert!(o.dry_run);
        }
        other => panic!("unexpected plan: {:?}", other),
    }
}

#[test]
fn the_router_refuses_unwired_commands_by_name() {
    let router = CommandRouter::new(false, false, true);
    match router.plan(Commands::Add { files: Vec::new() }) {
        Err(GtError::NotImplemented { feature }) => assert_eq!(feature, "add command"),
        other => panic!("unexpected plan: {:?}", other),
    }
    assert!(matches!(
        router.plan(Commands::Rm { branch: "b".to_string(), force: false }),
        Err(GtError::NotImplemented { .. })
    ));
    assert!(matches!(
        router.plan(Commands::Stash { action: None }),
        Err(GtError::NotImplemented { .. })
    ));
}

#[test]
fn the_unwired_command_surfaces_report_their_gap() {
    assert!(matches!(
        CleanCommand::new("b".to_string()).execute(),
        Err(GtError::NotImplemented { .. })
    ));
    assert!(matches!(
        StatusCommand::new(false, false).execute(),
        Err(GtError::NotImplemented { .. })
    ));
    assert!(matches!(
        InitCommand::new(None).execute(),
        Err(GtError::NotImplemented { .. })
    ));
    assert!(matches!(
        ConfigCommand::new(None).execute(),
        Err(GtError::NotImplemented { .. })
    ));
}


/// Drives an Update session to completion, collecting the action trace.
fn update_trace(cmd: &UpdateCommand, on_main: bool, stashed: bool) -> Vec<UpdateAction> {
    let mut session = UpdateSession::begin(on_main, stashed);
    let mut trace = Vec::new();
    loop {
        let (next, action) = cmd.next_step(session);
        session = next;
        trace.push(action);
        if action == UpdateAction::Done {
            return trace;
        }
    }
}

#[test]
fn the_update_session_runs_the_prescribed_sequence() {
    let cmd = UpdateCommand::new(false);
    assert_eq!(
        update_trace(&cmd, false, true),
        vec![
            UpdateAction::CheckoutMain,
            UpdateAction::PullMain,
            UpdateAction::CheckoutBack,
            UpdateAction::RebaseOntoMain,
            UpdateAction::PopStash,
            UpdateAction::Done,
        ]
    );
    assert_eq!(
        update_trace(&cmd, true, false),
        vec![UpdateAction::PullMain, UpdateAction::Done]
    );
    assert_eq!(
        update_trace(&cmd, true, true),
        vec![UpdateAction::PullMain, UpdateAction::PopStash, UpdateAction::Done]
    );

    let main_only = UpdateCommand::with_options(UpdateOptions {
        force: false,
        no_stash: false,
        main_only: true,
    });
    assert_eq!(
        update_trace(&main_only, false, true),
        vec![
            UpdateAction::CheckoutMain,
            UpdateAction::PullMain,
            UpdateAction::CheckoutBack,
            UpdateAction::PopStash,
            UpdateAction::Done,
        ]
    );
}

/// Drives a Start session to completion, collecting the action trace.
fn start_trace(cmd: &StartCommand) -> Vec<StartAction> {
    let mut session = StartSession::begin();
    let mut trace = Vec::new();
    loop {
        let (next, action) = cmd.next_step(session);
        session = next;
        trace.push(action);
        if action == StartAction::Done {
            return trace;
        }
    }
}

#[test]
fn the_start_session_refreshes_the_base_before_branching() {
    // Scenario: a standard start pulls the base before any branch is
    // created, so the new branch grows from the fetched tip.
    let cmd = StartCommand::with_branch("feature/x".to_string());
    assert_eq!(
        start_trace(&cmd),
        vec![
            StartAction::ValidateName,
            StartAction::CheckTree,
            StartAction::ResolveBase,
            StartAction::CheckoutBase,
            StartAction::PullBase,
            StartAction::HandleExisting,
            StartAction::CreateAndCheckout,
            StartAction::Done,
        ]
    );

    let mut options = StartOptions::default();
    options.branch = "feature/x".to_string();
    options.local = true;
    let local = StartCommand::new(options);
    assert_eq!(
        start_trace(&local),
        vec![
            StartAction::ValidateName,
            StartAction::CheckTree,
            StartAction::ResolveBase,
            StartAction::HandleExisting,
            StartAction::CreateAndCheckout,
            StartAction::Done,
        ]
    );
}

/// Drives a Ship session to completion, collecting the action trace.
fn ship_trace(cmd: &ShipCommand, on_main: bool) -> Vec<ShipAction> {
    let mut session = ShipSession::begin(on_main);
    let mut trace = Vec::new();
    loop {
        let (next, action) = cmd.next_step(session);
        session = next;
        trace.push(action);
        if action == ShipAction::Done {
            return trace;
        }
    }
}

#[test]
fn the_ship_session_pushes_before_publishing_and_deletes_only_after_the_switch() {
    let full = ShipCommand::new(false, true, Some(MergeStrategy::Rebase), true);
    assert_eq!(
        ship_trace(&full, false),
        vec![
            ShipAction::CheckClean,
            ShipAction::PushBranch,
            ShipAction::OpenPr,
            ShipAction::MergePr,
            ShipAction::SwitchToMain,
            ShipAction::PullMain,
            ShipAction::DeleteBranch,
            ShipAction::Done,
        ]
    );

    // A run that stays on the feature branch never deletes it.
    let no_switch = ShipCommand::new(true, true, None, true);
    let trace = ship_trace(&no_switch, false);
    assert!(!trace.contains(&ShipAction::DeleteBranch));
    assert_eq!(
        trace,
        vec![ShipAction::CheckClean, ShipAction::PushBranch, ShipAction::OpenPr, ShipAction::Done]
    );

    // A main-branch run ends right after its push: no pull request, no
    // branch deletion.
    let on_main = ShipCommand::new(false, true, Some(MergeStrategy::Squash), true);
    assert_eq!(
        ship_trace(&on_main, true),
        vec![ShipAction::CheckClean, ShipAction::PushBranch, ShipAction::Done]
    );

    let plain = ShipCommand::new(false, false, None, false);
    assert_eq!(
        ship_trace(&plain, false),
        vec![
            ShipAction::CheckClean,
            ShipAction::PushBranch,
            ShipAction::SwitchToMain,
            ShipAction::PullMain,
            ShipAction::Done,
        ]
    );
}

/// Drives a Save session to completion, collecting the action trace; the
/// staging check reports what `staged` says.
fn save_trace(cmd: &SaveCommand, staged: bool) -> Vec<SaveAction> {
    let mut session = SaveSession::begin();
    let mut trace = Vec::new();
    loop {
        let (next, action) = cmd.next_step(session);
        session = next;
        if action == SaveAction::CheckStaged {
            session.staged = staged;
        }
        trace.push(action);
        if action == SaveAction::Done {
            return trace;
        }
    }
}

#[test]
fn the_save_session_commits_only_after_a_resolved_message() {
    let cmd = SaveCommand::new(None, false, Vec::new());
    let trace = save_trace(&cmd, true);
    assert_eq!(
        trace,
        vec![
            SaveAction::StageFiles,
            SaveAction::CheckStaged,
            SaveAction::ResolveMessage,
            SaveAction::Commit,
            SaveAction::Done,
        ]
    );
    // The commit comes strictly after the message resolution, so an
    // empty-message failure there stops the session before any commit.
    let commit_at = trace.iter().position(|a| *a == SaveAction::Commit).unwrap();
    let resolve_at = trace.iter().position(|a| *a == SaveAction::ResolveMessage).unwrap();
    assert!(resolve_at < commit_at);

    // Nothing staged: the run is a no-op with no message asked for.
    assert_eq!(
        save_trace(&cmd, false),
        vec![SaveAction::StageFiles, SaveAction::CheckStaged, SaveAction::Done]
    );
}

#[test]
fn the_judges_tie_outside_flags_to_their_failures() {
    assert!(judge_merge_index(false).is_ok());
    assert!(matches!(judge_merge_index(true), Err(GtError::MergeConflict)));

    assert!(judge_remote_presence("origin", true).is_ok());
    match judge_remote_presence("origin", false) {
        Err(GtError::ConfigError { message }) => {
            assert_eq!(message, "remote 'origin' does not exist");
        }
        other => panic!("unexpected answer: {:?}", other),
    }
}
