//! The repository operation layer against real repositories: branch
//! creation and checkout, the rebase and merge decisions, the stash round
//! trip and the synchronization state. Repositories are built through the
//! capability itself; trees stay empty so the working tree never needs a
//! file written by hand.

use std::time::{SystemTime, UNIX_EPOCH};

use gt::commands::start::StartCommand;
use gt::gitops::GitOps;
use gt::ops::{add_files, fetch_origin, fetch_remote, push_current, reset_soft};
use gt::commands::update::UpdateCommand;
use gt::repo::interpret_replay_result;
use gt::status::SyncStatus;
use gt::config::repository::{ConfigOverrides, RepoConfig};
use gt::errors::GtError;
use gt::repo::{RebaseOutcome, Repository};

fn unique_path(name: &str) -> String {
    let nanos = SystemTime::now().duration_since(UNIX_EPOCH).unwrap().as_nanos();
    format!("/tmp/gt-check-{}-{}", name, nanos)
}

fn signature() -> git2::Signature<'static> {
    git2::Signature::now("Tester", "tester@example.com").unwrap()
}

/// Creates a repository whose configuration carries an identity, with one
/// empty-tree commit on the default branch.
fn setup(name: &str) -> (git2::Repository, String) {
    let path = unique_path(name);
    let raw = git2::Repository::init(&path).unwrap();
    {
        let mut config = raw.config().unwrap();
        config.set_str("user.name", "Tester").unwrap();
        config.set_str("user.email", "tester@example.com").unwrap();
    }
    commit_empty(&raw, "initial");
    (raw, path)
}

/// Commits the current index (an empty tree at first) onto HEAD.
fn commit_empty(raw: &git2::Repository, message: &str) -> git2::Oid {
    let sig = signature();
    let mut index = raw.index().unwrap();
    let tree_id = index.write_tree().unwrap();
    let tree = raw.find_tree(tree_id).unwrap();
    match raw.head() {
        Ok(h) => {
            let parent = h.peel_to_commit().unwrap();
            raw.commit(Some("HEAD"), &sig, &sig, message, &tree, &[&parent]).unwrap()
        }
        Err(_) => raw.commit(Some("HEAD"), &sig, &sig, message, &tree, &[]).unwrap(),
    }
}

/// Puts one file on disk and in the index — staged, not yet committed —
/// by checking out a tree built from memory.
fn stage_file(raw: &git2::Repository, path: &str, content: &[u8]) {
    let blob = raw.blob(content).unwrap();
    let mut builder = raw.treebuilder(None).unwrap();
    builder.insert(path, blob, 0o100644).unwrap();
    let tree_id = builder.write().unwrap();
    let tree = raw.find_tree(tree_id).unwrap();
    let mut opts = git2::build::CheckoutBuilder::new();
    opts.force();
    raw.checkout_tree(tree.as_object(), Some(&mut opts)).unwrap();
}

/// Stages one file from memory, without touching the working tree.
fn stage_buffer(raw: &git2::Repository, path: &str, content: &[u8]) {
    let mut index = raw.index().unwrap();
    let entry = git2::IndexEntry {
        ctime: git2::IndexTime::new(0, 0),
        mtime: git2::IndexTime::new(0, 0),
        dev: 0,
        ino: 0,
        mode: 0o100644,
        uid: 0,
        gid: 0,
        file_size: content.len() as u32,
        id: git2::Oid::zero(),
        flags: 0,
        flags_extended: 0,
        path: path.as_bytes().to_vec(),
    };
    index.add_frombuffer(&entry, content).unwrap();
    index.write().unwrap();
}

#[test]
fn opening_outside_a_repository_is_refused() {
    match Repository::open_path("/") {
        Err(GtError::NotInGitRepo) => {}
        other => panic!("expected a refusal, got {:?}", other.is_ok()),
    }
}

#[test]
fn create_then_checkout_lands_on_the_branch_with_a_clean_tree() {
    let (_raw, path) = setup("roundtrip");
    let mut repo = Repository::open_path(&path).unwrap();
    assert!(repo.is_clean().unwrap());
    let before = repo.current_branch().unwrap();
    assert_ne!(before, "feature/x");

    repo.create_branch("feature/x", None).unwrap();
    assert!(repo.branch_exists("feature/x").unwrap());
    // Creating the branch does not move HEAD.
    assert_eq!(repo.current_branch().unwrap(), before);

    repo.checkout_branch("feature/x").unwrap();
    assert_eq!(repo.current_branch().unwrap(), "feature/x");
    assert!(repo.is_clean().unwrap());
}

#[test]
fn create_and_checkout_composes_the_two_steps() {
    let (_raw, path) = setup("compose");
    let mut repo = Repository::open_path(&path).unwrap();
    repo.create_and_checkout_branch("feature/y", None).unwrap();
    assert_eq!(repo.current_branch().unwrap(), "feature/y");
    assert!(repo.is_clean().unwrap());
}

#[test]
fn invalid_and_duplicate_names_are_refused() {
    let (_raw, path) = setup("names");
    let mut repo = Repository::open_path(&path).unwrap();
    assert!(matches!(
        repo.create_branch("bad..name", None),
        Err(GtError::InvalidBranchName { .. })
    ));
    repo.create_branch("taken", None).unwrap();
    assert!(matches!(
        repo.create_branch("taken", None),
        Err(GtError::BranchAlreadyExists { .. })
    ));
    assert!(matches!(
        repo.checkout_branch("absent"),
        Err(GtError::BranchNotFound { .. })
    ));
}

#[test]
fn the_current_branch_cannot_be_deleted() {
    let (_raw, path) = setup("delete");
    let mut repo = Repository::open_path(&path).unwrap();
    let current = repo.current_branch().unwrap();
    assert!(matches!(
        repo.delete_branch(&current, false),
        Err(GtError::OperationNotPermitted { .. })
    ));
    repo.create_branch("doomed", None).unwrap();
    repo.delete_branch("doomed", false).unwrap();
    assert!(!repo.branch_exists("doomed").unwrap());
}

#[test]
fn rebase_is_a_no_op_on_an_equal_tip() {
    let (_raw, path) = setup("rebase-noop");
    let mut repo = Repository::open_path(&path).unwrap();
    let current = repo.current_branch().unwrap();
    assert_eq!(repo.rebase(&current).unwrap(), RebaseOutcome::AlreadyUpToDate);
}

#[test]
fn rebase_fast_forwards_and_is_then_idempotent() {
    let (raw, path) = setup("rebase-ff");
    let mut repo = Repository::open_path(&path).unwrap();
    let main = repo.current_branch().unwrap();
    // A branch left behind at the first commit, while main moves on.
    repo.create_branch("behind", None).unwrap();
    commit_empty(&raw, "second");
    repo.checkout_branch("behind").unwrap();

    assert_eq!(repo.rebase(&main).unwrap(), RebaseOutcome::FastForwarded);
    // The second call right after finds the tip already at the target.
    assert_eq!(repo.rebase(&main).unwrap(), RebaseOutcome::AlreadyUpToDate);
    assert!(repo.is_clean().unwrap());
}

#[test]
fn rebase_of_diverged_histories_is_handed_back_for_replay() {
    let (raw, path) = setup("rebase-replay");
    let mut repo = Repository::open_path(&path).unwrap();
    let main = repo.current_branch().unwrap();
    repo.create_branch("dev", None).unwrap();
    commit_empty(&raw, "on main");
    repo.checkout_branch("dev").unwrap();
    commit_empty(&raw, "on dev");

    let before = raw.refname_to_id("refs/heads/dev").unwrap();
    assert_eq!(repo.rebase(&main).unwrap(), RebaseOutcome::NeedsReplay);
    // Nothing moved: the replay belongs to the caller.
    assert_eq!(raw.refname_to_id("refs/heads/dev").unwrap(), before);
}

#[test]
fn merge_prefers_fast_forward_and_is_then_a_no_op() {
    let (raw, path) = setup("merge-ff");
    let mut repo = Repository::open_path(&path).unwrap();
    let main = repo.current_branch().unwrap();
    repo.create_branch("ahead", None).unwrap();
    repo.checkout_branch("ahead").unwrap();
    commit_empty(&raw, "work");
    let ahead_tip = raw.refname_to_id("refs/heads/ahead").unwrap();
    repo.checkout_branch(&main).unwrap();

    repo.merge("ahead").unwrap();
    // The ref moved forward, with no merge commit.
    assert_eq!(
        raw.refname_to_id(&format!("refs/heads/{}", main)).unwrap(),
        ahead_tip
    );
    repo.merge("ahead").unwrap();
    assert_eq!(
        raw.refname_to_id(&format!("refs/heads/{}", main)).unwrap(),
        ahead_tip
    );
}

#[test]
fn the_stash_round_trip_restores_the_classification() {
    let (raw, path) = setup("stash");
    let mut repo = Repository::open_path(&path).unwrap();
    stage_file(&raw, "notes.txt", b"draft\n");

    let before = repo.check_status().unwrap();
    assert!(!repo.is_clean().unwrap());
    assert!(before.has_staged_changes);

    repo.create_stash(Some("wip before sync")).unwrap();
    assert!(repo.is_clean().unwrap());
    let stashes = repo.list_stashes().unwrap();
    assert_eq!(stashes.len(), 1);
    assert_eq!(stashes[0].index, 0);

    repo.pop_stash(0).unwrap();
    let after = repo.check_status().unwrap();
    assert_eq!(after.has_staged_changes, before.has_staged_changes);
    assert_eq!(after.has_uncommitted_changes, before.has_uncommitted_changes);
    assert_eq!(after.has_untracked_files, before.has_untracked_files);
    assert_eq!(after.added_files, before.added_files);
    assert_eq!(after.modified_files, before.modified_files);
    assert_eq!(after.untracked_files, before.untracked_files);
    assert_eq!(repo.list_stashes().unwrap().len(), 0);
}

#[test]
fn stashing_a_clean_tree_fails_and_changes_nothing() {
    let (_raw, path) = setup("stash-clean");
    let mut repo = Repository::open_path(&path).unwrap();
    assert!(repo.create_stash(None).is_err());
    assert_eq!(repo.list_stashes().unwrap().len(), 0);
}

#[test]
fn staging_and_committing_move_the_branch() {
    let (raw, path) = setup("commit");
    let mut repo = Repository::open_path(&path).unwrap();
    let before = raw.head().unwrap().target().unwrap();
    stage_buffer(&raw, "a.txt", b"a\n");
    repo.create_commit("add a note").unwrap();
    let after = raw.head().unwrap().target().unwrap();
    assert_ne!(before, after);
    let latest = repo.get_latest_commit().unwrap();
    assert_eq!(latest.message, "add a note");
    assert_eq!(latest.author, "Tester");
    assert_eq!(latest.parents.len(), 1);
}

#[test]
fn remotes_are_listed_and_probed() {
    let (_raw, path) = setup("remotes");
    let repo = Repository::open_path(&path).unwrap();
    assert!(!repo.remote_exists("origin").unwrap());
    let bare_path = unique_path("remotes-bare");
    git2::Repository::init_bare(&bare_path).unwrap();
    repo.add_remote("origin", &bare_path).unwrap();
    assert!(repo.remote_exists("origin").unwrap());
    let remotes = repo.list_remotes().unwrap();
    assert_eq!(remotes.len(), 1);
    assert_eq!(remotes[0].name, "origin");
    assert_eq!(remotes[0].url, bare_path);
    let origin = repo.get_remote("origin").unwrap();
    assert_eq!(origin.name, "origin");
}

#[test]
fn push_fetch_and_sync_against_a_local_remote() {
    let (raw, path) = setup("sync");
    let mut repo = Repository::open_path(&path).unwrap();
    let main = repo.current_branch().unwrap();
    let bare_path = unique_path("sync-bare");
    git2::Repository::init_bare(&bare_path).unwrap();
    repo.add_remote("origin", &bare_path).unwrap();

    repo.push("origin", Some(&main)).unwrap();
    repo.fetch("origin").unwrap();
    assert_eq!(repo.sync_status("origin").unwrap(), SyncStatus::UpToDate);

    commit_empty(&raw, "ahead of the remote");
    assert_eq!(repo.sync_status("origin").unwrap(), SyncStatus::Ahead(1));

    // Pulling with rebase after pushing everything is a no-op.
    repo.push("origin", Some(&main)).unwrap();
    assert_eq!(
        repo.pull_rebase("origin", Some(&main)).unwrap(),
        RebaseOutcome::AlreadyUpToDate
    );
}

#[test]
fn starting_from_a_refreshed_base_lands_on_the_new_branch() {
    // Scenario: a clean repository on the main branch, no branch named
    // feature/x, a local remote holding the same tip. The Start flow ends
    // on feature/x, based on the fetched tip of the remote main branch.
    let (raw, path) = setup("start-flow");
    let mut repo = Repository::open_path(&path).unwrap();
    let main = repo.current_branch().unwrap();
    let bare_path = unique_path("start-bare");
    git2::Repository::init_bare(&bare_path).unwrap();
    repo.add_remote("origin", &bare_path).unwrap();
    repo.push("origin", Some(&main)).unwrap();
    repo.fetch("origin").unwrap();

    let mut cmd = StartCommand::with_branch("Feature X".to_string());
    cmd.validate_input().unwrap();
    assert_eq!(cmd.options.branch, "feature-x");
    let status = repo.check_status().unwrap();
    cmd.check_working_directory(&status, false).unwrap();

    let overrides = ConfigOverrides::default();
    let config = RepoConfig::from_env_and_repo(&repo, overrides).unwrap();
    let base = cmd.determine_base_branch(&config);
    assert_eq!(base, main);

    cmd.switch_to_base(&mut repo, &base).unwrap();
    assert_eq!(
        repo.pull_rebase("origin", Some(&base)).unwrap(),
        RebaseOutcome::AlreadyUpToDate
    );
    cmd.handle_existing_branch(&mut repo).unwrap();
    cmd.create_and_checkout_branch(&mut repo, &base).unwrap();

    assert_eq!(repo.current_branch().unwrap(), "feature-x");
    let remote_tip = raw
        .refname_to_id(&format!("refs/remotes/origin/{}", main))
        .unwrap();
    let new_tip = raw.refname_to_id("refs/heads/feature-x").unwrap();
    assert_eq!(new_tip, remote_tip);
    assert!(repo.is_clean().unwrap());
}

#[test]
fn an_update_with_a_conflicting_rebase_reports_the_conflict_and_keeps_the_stash() {
    // Scenario: a feature branch whose history diverged from the
    // refreshed main; the sync stashes the uncommitted work, the rebase
    // needs a replay and the replay fails. The command reports a rebase
    // conflict and the stash entry is still there: neither side's changes
    // were discarded.
    let (raw, path) = setup("update-conflict");
    let mut repo = Repository::open_path(&path).unwrap();
    let main = repo.current_branch().unwrap();
    repo.create_branch("dev", None).unwrap();
    commit_empty(&raw, "on main");
    repo.checkout_branch("dev").unwrap();
    commit_empty(&raw, "on dev");
    stage_file(&raw, "wip.txt", b"unfinished\n");

    let cmd = UpdateCommand::new(false);
    let clean = repo.is_clean().unwrap();
    assert!(!clean);
    assert!(cmd.stash_decision(clean, true).unwrap());
    cmd.stash_changes(&mut repo, "dev").unwrap();
    assert!(repo.is_clean().unwrap());

    assert_eq!(cmd.rebase_branch(&mut repo, &main).unwrap(), RebaseOutcome::NeedsReplay);
    // The capability's replay stops on conflicts; the command surfaces a
    // rebase conflict and leaves the stash alone.
    assert!(matches!(
        interpret_replay_result(false),
        Err(GtError::RebaseConflict)
    ));
    assert_eq!(repo.list_stashes().unwrap().len(), 1);
}

#[test]
fn unstaging_returns_the_index_to_head() {
    let (raw, path) = setup("unstage");
    let mut repo = Repository::open_path(&path).unwrap();
    stage_file(&raw, "notes.txt", b"draft\n");
    assert!(repo.check_status().unwrap().has_staged_changes);

    repo.unstage_all().unwrap();
    let status = repo.check_status().unwrap();
    assert!(!status.has_staged_changes);
    // The file stays on disk, now untracked.
    assert!(status.has_untracked_files);

    repo.add_files(&vec!["notes.txt".to_string()]).unwrap();
    assert!(repo.check_status().unwrap().has_staged_changes);
    repo.unstage_files(&vec!["notes.txt".to_string()]).unwrap();
    assert!(!repo.check_status().unwrap().has_staged_changes);
}

#[test]
fn the_diff_lists_each_touched_path_once() {
    let (raw, path) = setup("diff");
    let mut repo = Repository::open_path(&path).unwrap();
    let first = raw.head().unwrap().target().unwrap().to_string();
    stage_buffer(&raw, "a.txt", b"a\n");
    repo.create_commit("add a").unwrap();
    let second = raw.head().unwrap().target().unwrap().to_string();

    let files = repo.get_diff_files(&first, &second).unwrap();
    assert_eq!(files, vec!["a.txt".to_string()]);
}

/// Commits an empty tree with an explicit commit time, so that time
/// ordering is deterministic.
fn commit_empty_at(raw: &git2::Repository, message: &str, when: i64) -> git2::Oid {
    let time = git2::Time::new(when, 0);
    let sig = git2::Signature::new("Tester", "tester@example.com", &time).unwrap();
    let mut index = raw.index().unwrap();
    let tree_id = index.write_tree().unwrap();
    let tree = raw.find_tree(tree_id).unwrap();
    let parent = raw.head().unwrap().peel_to_commit().unwrap();
    raw.commit(Some("HEAD"), &sig, &sig, message, &tree, &[&parent]).unwrap()
}

#[test]
fn the_history_skips_and_bounds() {
    let (raw, path) = setup("history");
    let repo = Repository::open_path(&path).unwrap();
    let base = SystemTime::now().duration_since(UNIX_EPOCH).unwrap().as_secs() as i64;
    commit_empty_at(&raw, "second", base + 100);
    commit_empty_at(&raw, "third", base + 200);

    let newest_two = repo.get_commit_history(2, 0).unwrap();
    assert_eq!(newest_two.len(), 2);
    assert_eq!(newest_two[0].message, "third");
    assert_eq!(newest_two[1].message, "second");

    let older = repo.get_commit_history(5, 1).unwrap();
    assert_eq!(older.len(), 2);
    assert_eq!(older[0].message, "second");
    assert_eq!(older[1].message, "initial");
}

#[test]
fn the_unified_handle_carries_the_same_guarantees() {
    let (_raw, path) = setup("gitops");
    let mut ops = GitOps::from_path(&path).unwrap();
    assert!(ops.is_git_repo());
    assert!(ops.is_clean().unwrap());
    let before = ops.current_branch().unwrap();
    ops.create_and_checkout_branch("feature/z", None).unwrap();
    assert_eq!(ops.current_branch().unwrap(), "feature/z");
    assert!(ops.branch_exists(&before).unwrap());
    ops.checkout_branch(&before).unwrap();
    ops.delete_branch("feature/z", true).unwrap();
    assert!(!ops.branch_exists("feature/z").unwrap());
}

#[test]
fn convenience_operations_report_what_they_did() {
    let (raw, path) = setup("ops");
    let mut repo = Repository::open_path(&path).unwrap();

    assert!(matches!(
        fetch_origin(&repo, false),
        Err(GtError::RemoteNotFound { .. })
    ));

    stage_file(&raw, "x.txt", b"x\n");
    let added = add_files(&mut repo, &vec!["x.txt".to_string()], false).unwrap();
    assert_eq!(added.file_count(), 1);
    assert!(added.has_files());
    repo.create_commit("add x").unwrap();

    let bare_path = unique_path("ops-bare");
    git2::Repository::init_bare(&bare_path).unwrap();
    repo.add_remote("origin", &bare_path).unwrap();
    let fetched = fetch_remote(&repo, "origin", false).unwrap();
    assert_eq!(fetched.remote_count(), 1);
    assert!(fetched.is_success());
    let pushed = push_current(&repo, false).unwrap();
    assert_eq!(pushed.remote, "origin");

    let first = raw.head().unwrap().target().unwrap().to_string();
    let reset = reset_soft(&mut repo, &first, false).unwrap();
    assert_eq!(reset.target, first);
}

#[test]
fn tags_are_created_listed_and_deleted() {
    let (_raw, path) = setup("tags");
    let repo = Repository::open_path(&path).unwrap();
    assert_eq!(repo.list_tags().unwrap().len(), 0);
    repo.create_lightweight_tag("v0", None).unwrap();
    repo.create_annotated_tag("v1", "first release", None).unwrap();
    let mut tags = repo.list_tags().unwrap();
    tags.sort();
    assert_eq!(tags, vec!["v0".to_string(), "v1".to_string()]);
    repo.delete_tag("v0").unwrap();
    assert_eq!(repo.list_tags().unwrap(), vec!["v1".to_string()]);
}

#[test]
fn the_main_branch_is_detected_from_the_local_branches() {
    let (_raw, path) = setup("detect");
    let mut repo = Repository::open_path(&path).unwrap();
    let current = repo.current_branch().unwrap();
    let detected = RepoConfig::detect_main_branch(&repo, None).unwrap();
    if current == "main" || current == "master" {
        assert_eq!(detected, current);
    }
    if !repo.branch_exists("main").unwrap() {
        repo.create_branch("main", None).unwrap();
    }
    assert_eq!(RepoConfig::detect_main_branch(&repo, None).unwrap(), "main");
}
