//! The repository status model: classification of changed paths into
//! staged, modified and untracked buckets, and the relation between a local
//! branch tip and its remote-tracking counterpart.

use vstd::prelude::*;
use vstd::string::*;
use crate::text::{spec_dec, usize_to_dec};

verus! {

/// One changed path as the status listing reports it, with the flags that
/// describe the index and working-tree side of the change.
#[derive(Debug, Clone)]
pub struct StatusEntry {
    pub path: String,
    pub index_new: bool,
    pub index_modified: bool,
    pub index_deleted: bool,
    pub index_renamed: bool,
    pub index_typechange: bool,
    pub wt_new: bool,
    pub wt_modified: bool,
    pub wt_deleted: bool,
    pub wt_renamed: bool,
    pub wt_typechange: bool,
}

/// The entry carries a staged (index) change.
pub open spec fn spec_entry_staged(e: StatusEntry) -> bool {
    e.index_new || e.index_modified || e.index_deleted || e.index_renamed || e.index_typechange
}

/// The entry carries a working-tree modification of a tracked path.
pub open spec fn spec_entry_modified(e: StatusEntry) -> bool {
    e.wt_modified || e.wt_deleted || e.wt_typechange || e.wt_renamed
}

/// The entry is an untracked path.
pub open spec fn spec_entry_untracked(e: StatusEntry) -> bool {
    e.wt_new
}

/// How many entries of a listing satisfy a condition.
pub open spec fn spec_count<T>(s: Seq<T>, f: spec_fn(T) -> bool) -> nat
    decreases s.len(),
{
    if s.len() == 0 {
        0
    } else {
        spec_count(s.drop_last(), f) + if f(s.last()) {
            1nat
        } else {
            0nat
        }
    }
}

proof fn lemma_count_le_len<T>(s: Seq<T>, f: spec_fn(T) -> bool)
    ensures
        spec_count(s, f) <= s.len(),
    decreases s.len(),
{
    if s.len() > 0 {
        lemma_count_le_len(s.drop_last(), f);
    }
}

/// The point-in-time classification of the working tree and staging area.
#[derive(Debug, Clone)]
pub struct WorkingTreeStatus {
    pub has_uncommitted_changes: bool,
    pub has_untracked_files: bool,
    pub has_staged_changes: bool,
    pub modified_files: usize,
    pub added_files: usize,
    pub deleted_files: usize,
    pub untracked_files: usize,
}

impl WorkingTreeStatus {
    /// The working tree is clean: nothing modified, untracked or staged.
    pub fn is_clean(&self) -> (r: bool)
        ensures
            r == (!self.has_uncommitted_changes && !self.has_untracked_files
                && !self.has_staged_changes),
    {
        !self.has_uncommitted_changes && !self.has_untracked_files && !self.has_staged_changes
    }

    /// Staged changes are waiting for a commit.
    pub fn needs_commit(&self) -> (r: bool)
        ensures
            r == self.has_staged_changes,
    {
        self.has_staged_changes
    }

    /// Unstaged work is pending: modifications or untracked files.
    pub fn has_pending_changes(&self) -> (r: bool)
        ensures
            r == (self.has_uncommitted_changes || self.has_untracked_files),
    {
        self.has_uncommitted_changes || self.has_untracked_files
    }
}

/// Classifies a status listing into the working-tree snapshot: a flag and a
/// count for each bucket, as the entries' flags dictate.
pub fn classify_worktree(entries: &Vec<StatusEntry>) -> (r: WorkingTreeStatus)
    ensures
        r.has_uncommitted_changes == (spec_count(entries@, |e: StatusEntry| spec_entry_modified(e))
            > 0),
        r.has_untracked_files == (spec_count(entries@, |e: StatusEntry| spec_entry_untracked(e))
            > 0),
        r.has_staged_changes == (spec_count(entries@, |e: StatusEntry| spec_entry_staged(e)) > 0),
        r.modified_files == spec_count(entries@, |e: StatusEntry| spec_entry_modified(e)),
        r.untracked_files == spec_count(entries@, |e: StatusEntry| spec_entry_untracked(e)),
        r.added_files == spec_count(entries@, |e: StatusEntry| e.index_new),
        r.deleted_files == spec_count(entries@, |e: StatusEntry| e.index_deleted),
{
    let mut modified: usize = 0;
    let mut untracked: usize = 0;
    let mut staged: usize = 0;
    let mut added: usize = 0;
    let mut deleted: usize = 0;
    let n = entries.len();
    let mut i: usize = 0;
    while i < n
        invariant
            0 <= i <= n,
            n == entries@.len(),
            modified == spec_count(entries@.take(i as int), |e: StatusEntry| spec_entry_modified(e)),
            untracked == spec_count(
                entries@.take(i as int),
                |e: StatusEntry| spec_entry_untracked(e),
            ),
            staged == spec_count(entries@.take(i as int), |e: StatusEntry| spec_entry_staged(e)),
            added == spec_count(entries@.take(i as int), |e: StatusEntry| e.index_new),
            deleted == spec_count(entries@.take(i as int), |e: StatusEntry| e.index_deleted),
        decreases n - i,
    {
        proof {
            lemma_count_le_len(entries@.take(i as int), |e: StatusEntry| spec_entry_modified(e));
            lemma_count_le_len(entries@.take(i as int), |e: StatusEntry| spec_entry_untracked(e));
            lemma_count_le_len(entries@.take(i as int), |e: StatusEntry| spec_entry_staged(e));
            lemma_count_le_len(entries@.take(i as int), |e: StatusEntry| e.index_new);
            lemma_count_le_len(entries@.take(i as int), |e: StatusEntry| e.index_deleted);
            assert(entries@.take(i + 1).drop_last() =~= entries@.take(i as int));
            assert(entries@.take(i + 1).last() == entries@[i as int]);
        }
        let e = &entries[i];
        if e.wt_modified || e.wt_deleted || e.wt_typechange || e.wt_renamed {
            modified = modified + 1;
        }
        if e.wt_new {
            untracked = untracked + 1;
        }
        if e.index_new || e.index_modified || e.index_deleted || e.index_renamed
            || e.index_typechange {
            staged = staged + 1;
        }
        if e.index_new {
            added = added + 1;
        }
        if e.index_deleted {
            deleted = deleted + 1;
        }
        i += 1;
    }
    proof {
        assert(entries@.take(n as int) =~= entries@);
    }
    WorkingTreeStatus {
        has_uncommitted_changes: modified > 0,
        has_untracked_files: untracked > 0,
        has_staged_changes: staged > 0,
        modified_files: modified,
        added_files: added,
        deleted_files: deleted,
        untracked_files: untracked,
    }
}

/// The compact summary of the working tree: counts per bucket.
#[derive(Debug, Clone)]
pub struct RepositoryStatus {
    pub staged: usize,
    pub modified: usize,
    pub untracked: usize,
}

impl Default for RepositoryStatus {
    /// The empty summary.
    fn default() -> (r: RepositoryStatus)
        ensures
            r.staged == 0 && r.modified == 0 && r.untracked == 0,
    {
        RepositoryStatus { staged: 0, modified: 0, untracked: 0 }
    }
}

impl RepositoryStatus {
    /// Anything at all changed?
    pub fn has_changes(&self) -> (r: bool)
        ensures
            r == (self.staged > 0 || self.modified > 0 || self.untracked > 0),
    {
        self.staged > 0 || self.modified > 0 || self.untracked > 0
    }

    /// Nothing changed at all?
    pub fn is_clean(&self) -> (r: bool)
        ensures
            r == !(self.staged > 0 || self.modified > 0 || self.untracked > 0),
    {
        !self.has_changes()
    }
}

/// Summarizes a status listing into per-bucket counts.
pub fn summarize_status(entries: &Vec<StatusEntry>) -> (r: RepositoryStatus)
    ensures
        r.staged == spec_count(entries@, |e: StatusEntry| spec_entry_staged(e)),
        r.modified == spec_count(entries@, |e: StatusEntry| spec_entry_modified(e)),
        r.untracked == spec_count(entries@, |e: StatusEntry| spec_entry_untracked(e)),
{
    let mut staged: usize = 0;
    let mut modified: usize = 0;
    let mut untracked: usize = 0;
    let n = entries.len();
    let mut i: usize = 0;
    while i < n
        invariant
            0 <= i <= n,
            n == entries@.len(),
            staged == spec_count(entries@.take(i as int), |e: StatusEntry| spec_entry_staged(e)),
            modified == spec_count(entries@.take(i as int), |e: StatusEntry| spec_entry_modified(e)),
            untracked == spec_count(
                entries@.take(i as int),
                |e: StatusEntry| spec_entry_untracked(e),
            ),
        decreases n - i,
    {
        proof {
            lemma_count_le_len(entries@.take(i as int), |e: StatusEntry| spec_entry_staged(e));
            lemma_count_le_len(entries@.take(i as int), |e: StatusEntry| spec_entry_modified(e));
            lemma_count_le_len(entries@.take(i as int), |e: StatusEntry| spec_entry_untracked(e));
            assert(entries@.take(i + 1).drop_last() =~= entries@.take(i as int));
            assert(entries@.take(i + 1).last() == entries@[i as int]);
        }
        let e = &entries[i];
        if e.index_new || e.index_modified || e.index_deleted || e.index_renamed
            || e.index_typechange {
            staged = staged + 1;
        }
        if e.wt_modified || e.wt_deleted || e.wt_typechange || e.wt_renamed {
            modified = modified + 1;
        }
        if e.wt_new {
            untracked = untracked + 1;
        }
        i += 1;
    }
    proof {
        assert(entries@.take(n as int) =~= entries@);
    }
    RepositoryStatus { staged, modified, untracked }
}

/// The relation between a local branch tip and its remote-tracking ref.
#[derive(Debug, Clone, PartialEq, Eq, Structural)]
pub enum SyncStatus {
    /// Local and remote tips are equal.
    UpToDate,
    /// The local tip is ahead by this many commits.
    Ahead(usize),
    /// The local tip is behind by this many commits.
    Behind(usize),
    /// Both sides hold commits the other lacks.
    Diverged { ahead: usize, behind: usize },
    /// Only the local ref exists.
    LocalOnly,
    /// Only the remote-tracking ref exists.
    RemoteOnly,
    /// Neither ref exists.
    NoTracking,
}

/// The description of a synchronization state.
pub open spec fn spec_sync_description(s: SyncStatus) -> Seq<char> {
    match s {
        SyncStatus::UpToDate => "up to date with the remote"@,
        SyncStatus::Ahead(n) => "ahead of the remote by "@ + spec_dec(n as nat) + " commits"@,
        SyncStatus::Behind(n) => "behind the remote by "@ + spec_dec(n as nat) + " commits"@,
        SyncStatus::Diverged { ahead, behind } => "ahead by "@ + spec_dec(ahead as nat)
            + " commits, behind by "@ + spec_dec(behind as nat) + " commits"@,
        SyncStatus::LocalOnly => "exists only locally"@,
        SyncStatus::RemoteOnly => "exists only on the remote"@,
        SyncStatus::NoTracking => "no tracking branch"@,
    }
}

impl SyncStatus {
    /// Describes the state in words.
    pub fn description(&self) -> (r: String)
        ensures
            r@ == spec_sync_description(*self),
    {
        match self {
            SyncStatus::UpToDate => "up to date with the remote".to_owned(),
            SyncStatus::Ahead(n) => {
                let mut s = "ahead of the remote by ".to_owned();
                let d = usize_to_dec(*n);
                s.append(d.as_str());
                s.append(" commits");
                s
            },
            SyncStatus::Behind(n) => {
                let mut s = "behind the remote by ".to_owned();
                let d = usize_to_dec(*n);
                s.append(d.as_str());
                s.append(" commits");
                s
            },
            SyncStatus::Diverged { ahead, behind } => {
                let mut s = "ahead by ".to_owned();
                let d = usize_to_dec(*ahead);
                s.append(d.as_str());
                s.append(" commits, behind by ");
                let d2 = usize_to_dec(*behind);
                s.append(d2.as_str());
                s.append(" commits");
                s
            },
            SyncStatus::LocalOnly => "exists only locally".to_owned(),
            SyncStatus::RemoteOnly => "exists only on the remote".to_owned(),
            SyncStatus::NoTracking => "no tracking branch".to_owned(),
        }
    }

    /// Whether the local side holds commits the remote lacks.
    pub fn needs_push(&self) -> (r: bool)
        ensures
            r == (*self is Ahead || (*self matches SyncStatus::Diverged { ahead, .. } && ahead > 0)
                || *self is LocalOnly),
    {
        match self {
            SyncStatus::Ahead(_) => true,
            SyncStatus::Diverged { ahead, .. } => *ahead > 0,
            SyncStatus::LocalOnly => true,
            _ => false,
        }
    }

    /// Whether the remote side holds commits the local branch lacks.
    pub fn needs_pull(&self) -> (r: bool)
        ensures
            r == (*self is Behind || (*self matches SyncStatus::Diverged { behind, .. } && behind
                > 0)),
    {
        match self {
            SyncStatus::Behind(_) => true,
            SyncStatus::Diverged { behind, .. } => *behind > 0,
            _ => false,
        }
    }
}

/// Classifies the pair of optional tips into a synchronization state:
/// exactly one variant holds for each shape of the input. Differing tips
/// are ahead when only the local side holds extra commits, behind when
/// only the remote side does, and diverged when both do.
pub fn classify_sync(
    local: Option<&String>,
    remote: Option<&String>,
    ahead: usize,
    behind: usize,
) -> (r: SyncStatus)
    ensures
        local is Some && remote is Some && local->0@ == remote->0@ ==> r == SyncStatus::UpToDate,
        local is Some && remote is Some && local->0@ != remote->0@ && ahead > 0 && behind == 0
            ==> r == SyncStatus::Ahead(ahead),
        local is Some && remote is Some && local->0@ != remote->0@ && ahead == 0 && behind > 0
            ==> r == SyncStatus::Behind(behind),
        local is Some && remote is Some && local->0@ != remote->0@ && !(ahead > 0 && behind == 0)
            && !(ahead == 0 && behind > 0) ==> r == (SyncStatus::Diverged { ahead, behind }),
        local is Some && remote is None ==> r == SyncStatus::LocalOnly,
        local is None && remote is Some ==> r == SyncStatus::RemoteOnly,
        local is None && remote is None ==> r == SyncStatus::NoTracking,
{
    match (local, remote) {
        (Some(l), Some(rm)) => {
            if l.eq(rm) {
                SyncStatus::UpToDate
            } else if ahead > 0 && behind == 0 {
                SyncStatus::Ahead(ahead)
            } else if ahead == 0 && behind > 0 {
                SyncStatus::Behind(behind)
            } else {
                SyncStatus::Diverged { ahead, behind }
            }
        },
        (Some(_), None) => SyncStatus::LocalOnly,
        (None, Some(_)) => SyncStatus::RemoteOnly,
        (None, None) => SyncStatus::NoTracking,
    }
}

} // verus!
