//! Classification of status listings and of the relation to the remote.

use gt::status::{
    classify_sync, classify_worktree, summarize_status, RepositoryStatus, StatusEntry, SyncStatus,
    WorkingTreeStatus,
};

fn entry(path: &str) -> StatusEntry {
    StatusEntry {
        path: path.to_string(),
        index_new: false,
        index_modified: false,
        index_deleted: false,
        index_renamed: false,
        index_typechange: false,
        wt_new: false,
        wt_modified: false,
        wt_deleted: false,
        wt_renamed: false,
        wt_typechange: false,
    }
}

#[test]
fn classifies_an_empty_listing_as_clean() {
    let entries: Vec<StatusEntry> = Vec::new();
    let ws = classify_worktree(&entries);
    assert!(ws.is_clean());
    assert!(!ws.needs_commit());
    assert!(!ws.has_pending_changes());
    assert_eq!(ws.modified_files, 0);
    assert_eq!(ws.untracked_files, 0);
}

#[test]
fn classifies_each_bucket() {
    let mut staged = entry("a.txt");
    staged.index_new = true;
    let mut modified = entry("b.txt");
    modified.wt_modified = true;
    let mut untracked = entry("c.txt");
    untracked.wt_new = true;
    let mut deleted = entry("d.txt");
    deleted.index_deleted = true;
    let entries = vec![staged, modified, untracked, deleted];
    let ws = classify_worktree(&entries);
    assert!(ws.has_staged_changes);
    assert!(ws.has_uncommitted_changes);
    assert!(ws.has_untracked_files);
    assert_eq!(ws.modified_files, 1);
    assert_eq!(ws.untracked_files, 1);
    assert_eq!(ws.added_files, 1);
    assert_eq!(ws.deleted_files, 1);
    assert!(!ws.is_clean());
    assert!(ws.needs_commit());
    assert!(ws.has_pending_changes());

    let summary = summarize_status(&entries);
    assert_eq!(summary.staged, 2);
    assert_eq!(summary.modified, 1);
    assert_eq!(summary.untracked, 1);
    assert!(summary.has_changes());
    assert!(!summary.is_clean());
}

#[test]
fn an_entry_with_several_flags_counts_once_per_bucket() {
    let mut e = entry("a.txt");
    e.index_modified = true;
    e.wt_modified = true;
    let entries = vec![e];
    let summary = summarize_status(&entries);
    assert_eq!(summary.staged, 1);
    assert_eq!(summary.modified, 1);
    assert_eq!(summary.untracked, 0);
}

#[test]
fn default_summary_is_clean() {
    let summary = RepositoryStatus::default();
    assert!(summary.is_clean());
    assert!(!summary.has_changes());
}

#[test]
fn sync_classification_covers_every_shape() {
    let a = "1111111111111111111111111111111111111111".to_string();
    let b = "2222222222222222222222222222222222222222".to_string();
    assert_eq!(classify_sync(Some(&a), Some(&a), 0, 0), SyncStatus::UpToDate);
    assert_eq!(
        classify_sync(Some(&a), Some(&b), 2, 3),
        SyncStatus::Diverged { ahead: 2, behind: 3 }
    );
    assert_eq!(classify_sync(Some(&a), Some(&b), 2, 0), SyncStatus::Ahead(2));
    assert_eq!(classify_sync(Some(&a), Some(&b), 0, 3), SyncStatus::Behind(3));
    assert_eq!(classify_sync(Some(&a), None, 0, 0), SyncStatus::LocalOnly);
    assert_eq!(classify_sync(None, Some(&b), 0, 0), SyncStatus::RemoteOnly);
    assert_eq!(classify_sync(None, None, 0, 0), SyncStatus::NoTracking);
}

#[test]
fn push_and_pull_needs_follow_the_counts() {
    assert!(SyncStatus::Ahead(1).needs_push());
    assert!(!SyncStatus::Ahead(1).needs_pull());
    assert!(SyncStatus::Behind(1).needs_pull());
    assert!(!SyncStatus::Behind(1).needs_push());
    assert!(SyncStatus::Diverged { ahead: 1, behind: 1 }.needs_push());
    assert!(SyncStatus::Diverged { ahead: 1, behind: 1 }.needs_pull());
    assert!(SyncStatus::Diverged { ahead: 0, behind: 1 }.needs_pull());
    assert!(!SyncStatus::Diverged { ahead: 0, behind: 1 }.needs_push());
    assert!(SyncStatus::LocalOnly.needs_push());
    assert!(!SyncStatus::LocalOnly.needs_pull());
    assert!(!SyncStatus::UpToDate.needs_push());
    assert!(!SyncStatus::UpToDate.needs_pull());
    assert!(!SyncStatus::NoTracking.needs_push());
}

#[test]
fn sync_descriptions_carry_the_counts() {
    assert_eq!(SyncStatus::UpToDate.description(), "up to date with the remote");
    assert_eq!(
        SyncStatus::Ahead(3).description(),
        "ahead of the remote by 3 commits"
    );
    assert_eq!(
        SyncStatus::Behind(12).description(),
        "behind the remote by 12 commits"
    );
    assert_eq!(
        SyncStatus::Diverged { ahead: 2, behind: 10 }.description(),
        "ahead by 2 commits, behind by 10 commits"
    );
    assert_eq!(SyncStatus::LocalOnly.description(), "exists only locally");
    assert_eq!(SyncStatus::RemoteOnly.description(), "exists only on the remote");
    assert_eq!(SyncStatus::NoTracking.description(), "no tracking branch");
}

#[test]
fn working_tree_status_flags_drive_the_answers() {
    let ws = WorkingTreeStatus {
        has_uncommitted_changes: false,
        has_untracked_files: false,
        has_staged_changes: true,
        modified_files: 0,
        added_files: 1,
        deleted_files: 0,
        untracked_files: 0,
    };
    assert!(!ws.is_clean());
    assert!(ws.needs_commit());
    assert!(!ws.has_pending_changes());
}
