//! The unified entry point over the repository operations: one handle that
//! the workflows can hold, delegating to the repository layer and carrying
//! its guarantees along.

use vstd::prelude::*;
use crate::branch::{Branch, spec_valid_branch_name};
use crate::errors::{GtError, GtResult};
use crate::repo::{
    repo_model,
    spec_at_most_head_moved,
    spec_checkout_post,
    spec_ff_post,
    spec_clean,
    spec_refs_unchanged,
    spec_stash_pop_post,
    spec_stash_save,
    Commit,
    RebaseOutcome,
    Remote,
    RepoModel,
    Repository,
    Stash,
};
use crate::status::{RepositoryStatus, SyncStatus, WorkingTreeStatus};

verus! {

/// The single handle a command works through, exclusively owned for the
/// command's lifetime.
pub struct GitOps {
    repo: Repository,
}

impl View for GitOps {
    type V = RepoModel;

    closed spec fn view(&self) -> RepoModel {
        repo_model(self.repo)
    }
}

impl GitOps {
    /// Opens the repository enclosing the current directory.
    pub fn new() -> (r: GtResult<GitOps>) {
        let repo = Repository::discover()?;
        Ok(GitOps { repo })
    }

    /// Opens the repository containing the given path.
    pub fn from_path(path: &str) -> (r: GtResult<GitOps>) {
        let repo = Repository::open_path(path)?;
        Ok(GitOps { repo })
    }

    /// Whether the handle points at a usable repository.
    pub fn is_git_repo(&self) -> bool {
        self.repo.is_valid()
    }

    /// The underlying repository handle, with the same abstract state.
    pub fn repository(&self) -> (r: &Repository)
        ensures
            r@ == self@,
    {
        &self.repo
    }

    /// The name of the branch HEAD is on.
    pub fn current_branch(&self) -> (r: GtResult<String>)
        ensures
            r matches Ok(n) ==> n@ == self@.head,
            r matches Err(e) ==> e is CurrentBranchNotFound,
    {
        self.repo.current_branch()
    }

    /// Creates a branch at the resolved base without moving HEAD.
    pub fn create_branch(&mut self, name: &str, base_branch: Option<&str>) -> (r: GtResult<()>)
        ensures
            r is Ok ==> spec_valid_branch_name(name@) && final(self)@.branches.contains_key(name@)
                && final(self)@.head == old(self)@.head,
            r is Err ==> final(self)@ == old(self)@,
    {
        self.repo.create_branch(name, base_branch)
    }

    /// Checks the named branch out.
    pub fn checkout_branch(&mut self, name: &str) -> (r: GtResult<()>)
        ensures
            r is Ok ==> spec_checkout_post(old(self)@, final(self)@, name@),
            r is Err ==> spec_refs_unchanged(old(self)@, final(self)@),
    {
        self.repo.checkout_branch(name)
    }

    /// Creates a branch from the base and checks it out.
    pub fn create_and_checkout_branch(&mut self, name: &str, base_branch: Option<&str>) -> (r:
        GtResult<()>)
        ensures
            r is Ok ==> final(self)@.head == name@ && final(self)@.branches.contains_key(name@)
                && (spec_clean(old(self)@) ==> spec_clean(final(self)@)),
    {
        self.repo.create_and_checkout_branch(name, base_branch)
    }

    /// The local branches, with the current one marked.
    pub fn list_branches(&self) -> (r: GtResult<Vec<Branch>>) {
        self.repo.list_branches()
    }

    /// Deletes a local branch; see the repository layer for the rule.
    pub fn delete_branch(&mut self, name: &str, force: bool) -> (r: GtResult<()>)
        ensures
            r is Ok ==> name@ != old(self)@.head && final(self)@ == (RepoModel {
                branches: old(self)@.branches.remove(name@),
                ..old(self)@
            }),
            r is Err ==> final(self)@ == old(self)@,
    {
        self.repo.delete_branch(name, force)
    }

    /// Whether a local branch of the name exists.
    pub fn branch_exists(&self, name: &str) -> (r: GtResult<bool>)
        ensures
            r matches Ok(b) ==> b == self@.branches.contains_key(name@),
    {
        self.repo.branch_exists(name)
    }

    /// The full working-tree classification.
    pub fn check_status(&self) -> (r: GtResult<WorkingTreeStatus>) {
        self.repo.check_status()
    }

    /// The compact per-bucket summary of the working tree.
    pub fn status_summary(&self) -> (r: GtResult<RepositoryStatus>) {
        self.repo.status_summary()
    }

    /// Whether any tracked path carries an uncommitted change.
    pub fn has_uncommitted_changes(&self) -> (r: GtResult<bool>) {
        self.repo.has_uncommitted_changes()
    }

    /// Whether any untracked file exists.
    pub fn has_untracked_files(&self) -> (r: GtResult<bool>) {
        self.repo.has_untracked_files()
    }

    /// Whether the working tree and index are entirely clean.
    pub fn is_clean(&self) -> (r: GtResult<bool>)
        ensures
            r matches Ok(b) ==> b == spec_clean(self@),
    {
        self.repo.is_clean()
    }

    /// The relation of the current branch to its remote-tracking ref.
    pub fn sync_status(&self, remote_name: &str) -> (r: GtResult<SyncStatus>) {
        self.repo.sync_status(remote_name)
    }

    /// Stages the given paths.
    pub fn add_files(&mut self, files: &Vec<String>) -> (r: GtResult<()>)
        ensures
            spec_refs_unchanged(old(self)@, final(self)@),
    {
        self.repo.add_files(files)
    }

    /// Stages every change in the working tree.
    pub fn add_all(&mut self) -> (r: GtResult<()>)
        ensures
            spec_refs_unchanged(old(self)@, final(self)@),
    {
        self.repo.add_all()
    }

    /// Commits the staged index onto HEAD.
    pub fn create_commit(&mut self, message: &str) -> (r: GtResult<()>)
        ensures
            r is Ok ==> final(self)@.head == old(self)@.head && final(self)@.stashes == old(self)@.stashes,
            r is Err ==> spec_refs_unchanged(old(self)@, final(self)@),
    {
        self.repo.create_commit(message)
    }

    /// The most recent commit.
    pub fn get_latest_commit(&self) -> (r: GtResult<Commit>) {
        self.repo.get_latest_commit()
    }

    /// Saves the uncommitted state as the newest stash entry.
    pub fn create_stash(&mut self, message: Option<&str>) -> (r: GtResult<()>)
        ensures
            r is Ok ==> final(self)@ == spec_stash_save(old(self)@),
            r is Err ==> final(self)@ == old(self)@,
    {
        self.repo.create_stash(message)
    }

    /// Applies a stash entry, keeping it on the stack.
    pub fn apply_stash(&mut self, index: usize) -> (r: GtResult<()>)
        ensures
            final(self)@.stashes == old(self)@.stashes,
    {
        self.repo.apply_stash(index)
    }

    /// Applies a stash entry and drops it only on clean application.
    pub fn pop_stash(&mut self, index: usize) -> (r: GtResult<()>)
        ensures
            r is Ok ==> spec_stash_pop_post(old(self)@, final(self)@, index as int),
            r is Err ==> final(self)@.stashes == old(self)@.stashes,
    {
        self.repo.pop_stash(index)
    }

    /// The stash entries, newest first.
    pub fn list_stashes(&mut self) -> (r: GtResult<Vec<Stash>>)
        ensures
            final(self)@ == old(self)@,
            r matches Ok(v) ==> v@.len() == old(self)@.stashes.len(),
    {
        self.repo.list_stashes()
    }

    /// Adds a remote under the name.
    pub fn add_remote(&self, name: &str, url: &str) -> (r: GtResult<()>) {
        self.repo.add_remote(name, url)
    }

    /// The configured remotes.
    pub fn list_remotes(&self) -> (r: GtResult<Vec<Remote>>) {
        self.repo.list_remotes()
    }

    /// One configured remote.
    pub fn get_remote(&self, name: &str) -> (r: GtResult<Remote>)
        ensures
            r matches Ok(rem) ==> rem.name@ == name@,
    {
        self.repo.get_remote(name)
    }

    /// Sends a branch (the current one by default) to the named remote.
    pub fn push(&self, remote: &str, branch: Option<&str>) -> (r: GtResult<()>) {
        self.repo.push(remote, branch)
    }

    /// Pulls with the linear-history strategy: fetch, then rebase.
    pub fn pull(&mut self, remote: &str, branch: Option<&str>) -> (r: GtResult<RebaseOutcome>)
        ensures
            r == Ok::<RebaseOutcome, GtError>(RebaseOutcome::AlreadyUpToDate) ==> final(self)@
                == old(self)@,
            r == Ok::<RebaseOutcome, GtError>(RebaseOutcome::NeedsReplay) ==> final(self)@ == old(self)@,
            r == Ok::<RebaseOutcome, GtError>(RebaseOutcome::FastForwarded) ==> exists|
                t: Seq<char>,
            | spec_ff_post(old(self)@, final(self)@, t),
            r is Err ==> spec_at_most_head_moved(old(self)@, final(self)@),
    {
        let r = self.repo.pull_rebase(remote, branch);
        proof {
            if r == Ok::<RebaseOutcome, GtError>(RebaseOutcome::FastForwarded) {
                let t = choose|t: Seq<char>|
                    spec_ff_post(repo_model(old(self).repo), repo_model(self.repo), t);
                assert(spec_ff_post(old(self)@, self@, t));
            }
        }
        r
    }

    /// Brings the named remote's tracking refs up to date.
    pub fn fetch(&self, remote: &str) -> (r: GtResult<()>) {
        self.repo.fetch(remote)
    }

    /// Merges the source revision into the current branch.
    pub fn merge(&mut self, source: &str) -> (r: GtResult<()>)
        ensures
            old(self)@.branches.contains_key(source@) && old(self)@.branches.contains_key(
                old(self)@.head,
            ) && old(self)@.branches[source@] == old(self)@.branches[old(self)@.head] ==> final(self)@ == old(self)@,
            r is Ok ==> final(self)@.head == old(self)@.head && final(self)@.stashes == old(self)@.stashes && (final(self)@.branches == old(self)@.branches || exists|t: Seq<char>|
                final(self)@.branches == old(self)@.branches.insert(old(self)@.head, t)),
            r matches Err(e) && e is MergeConflict ==> spec_refs_unchanged(
                old(self)@,
                final(self)@,
            ),
            r is Err ==> spec_at_most_head_moved(old(self)@, final(self)@),
    {
        self.repo.merge(source)
    }

    /// Rebases the current branch onto the target revision.
    pub fn rebase(&mut self, target: &str) -> (r: GtResult<RebaseOutcome>)
        ensures
            r == Ok::<RebaseOutcome, GtError>(RebaseOutcome::AlreadyUpToDate) ==> final(self)@
                == old(self)@,
            r == Ok::<RebaseOutcome, GtError>(RebaseOutcome::NeedsReplay) ==> final(self)@ == old(self)@,
            r == Ok::<RebaseOutcome, GtError>(RebaseOutcome::FastForwarded) ==> exists|
                t: Seq<char>,
            | spec_ff_post(old(self)@, final(self)@, t),
            r is Err ==> spec_at_most_head_moved(old(self)@, final(self)@),
    {
        let r = self.repo.rebase(target);
        proof {
            if r == Ok::<RebaseOutcome, GtError>(RebaseOutcome::FastForwarded) {
                let t = choose|t: Seq<char>|
                    spec_ff_post(repo_model(old(self).repo), repo_model(self.repo), t);
                assert(spec_ff_post(old(self)@, self@, t));
            }
        }
        r
    }

    /// Resets the current branch softly.
    pub fn reset_soft(&mut self, target: &str) -> (r: GtResult<()>) {
        self.repo.reset_soft(target)
    }

    /// Resets the index, keeping the working tree.
    pub fn reset_mixed(&mut self, target: &str) -> (r: GtResult<()>) {
        self.repo.reset_mixed(target)
    }

    /// Resets hard.
    pub fn reset_hard(&mut self, target: &str) -> (r: GtResult<()>) {
        self.repo.reset_hard(target)
    }

    /// Takes the given paths out of the staging area.
    pub fn unstage_files(&mut self, files: &Vec<String>) -> (r: GtResult<()>)
        ensures
            spec_refs_unchanged(old(self)@, final(self)@),
    {
        self.repo.unstage_files(files)
    }

    /// Takes everything out of the staging area.
    pub fn unstage_all(&mut self) -> (r: GtResult<()>)
        ensures
            spec_refs_unchanged(old(self)@, final(self)@),
    {
        self.repo.unstage_all()
    }

    /// The recent history, newest first.
    pub fn get_commit_history(&self, count: usize, skip: usize) -> (r: GtResult<Vec<Commit>>)
        ensures
            r matches Ok(v) ==> v@.len() <= count,
    {
        self.repo.get_commit_history(count, skip)
    }

    /// Creates a plain tag at the target revision, or at HEAD.
    pub fn create_lightweight_tag(&self, name: &str, target: Option<&str>) -> (r: GtResult<()>) {
        self.repo.create_lightweight_tag(name, target)
    }

    /// Creates an annotated tag at the target revision, or at HEAD.
    pub fn create_annotated_tag(&self, name: &str, message: &str, target: Option<&str>) -> (r:
        GtResult<()>) {
        self.repo.create_annotated_tag(name, message, target)
    }

    /// The tag names.
    pub fn list_tags(&self) -> (r: GtResult<Vec<String>>) {
        self.repo.list_tags()
    }

    /// Deletes a tag.
    pub fn delete_tag(&self, name: &str) -> (r: GtResult<()>) {
        self.repo.delete_tag(name)
    }

    /// The paths touched between two commits, without duplicates.
    pub fn get_diff_files(&self, from: &str, to: &str) -> (r: GtResult<Vec<String>>)
        ensures
            r matches Ok(v) ==> forall|i: int, j: int|
                0 <= i < j < v@.len() ==> v@[i]@ != v@[j]@,
    {
        self.repo.get_diff_files(from, to)
    }
}

} // verus!
