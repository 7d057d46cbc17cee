//! The Update workflow: stash uncommitted work if the operator agrees,
//! refresh the main branch, rebase the feature branch onto it, and pop
//! the stash back — surfacing, never discarding, a conflicting entry.

use vstd::prelude::*;
use vstd::string::*;
use crate::errors::{GtError, GtResult};
use crate::repo::{Repository, RebaseOutcome, spec_stash_save, spec_clean};
use crate::ui::{print_info, print_step, print_success, print_warning};

verus! {

/// What an Update run is asked to do.
#[derive(Debug, Clone)]
pub struct UpdateOptions {
    /// Go ahead despite uncommitted changes, without stashing.
    pub force: bool,
    /// Never stash: fail on a dirty tree instead.
    pub no_stash: bool,
    /// Refresh the main branch only; skip rebasing the feature branch.
    pub main_only: bool,
}

impl Default for UpdateOptions {
    /// The ordinary update: stash when needed, rebase the branch.
    fn default() -> (r: UpdateOptions)
        ensures
            !r.force,
            !r.no_stash,
            !r.main_only,
    {
        UpdateOptions { force: false, no_stash: false, main_only: false }
    }
}

/// The Update command.
pub struct UpdateCommand {
    pub options: UpdateOptions,
}

impl UpdateCommand {
    /// Creates the command, forced or not, with the other options default.
    pub fn new(force: bool) -> (r: UpdateCommand)
        ensures
            r.options.force == force,
            !r.options.no_stash,
            !r.options.main_only,
    {
        UpdateCommand { options: UpdateOptions { force, no_stash: false, main_only: false } }
    }

    /// Creates the command over explicit options.
    pub fn with_options(options: UpdateOptions) -> (r: UpdateCommand)
        ensures
            r.options == options,
    {
        UpdateCommand { options }
    }

    /// Decides what happens to uncommitted changes before the sync: a
    /// clean tree needs nothing; `force` ignores the changes; with
    /// stashing forbidden the dirty tree is a failure; otherwise the
    /// operator's consent decides between stashing and cancelling.
    pub fn stash_decision(&self, clean: bool, confirmed: bool) -> (r: GtResult<bool>)
        ensures
            clean ==> r == Ok::<bool, GtError>(false),
            !clean && self.options.force ==> r == Ok::<bool, GtError>(false),
            !clean && !self.options.force && self.options.no_stash ==> (r matches Err(e) && e
                is DirtyWorkingDirectory),
            !clean && !self.options.force && !self.options.no_stash && confirmed ==> r == Ok::<
                bool,
                GtError,
            >(true),
            !clean && !self.options.force && !self.options.no_stash && !confirmed ==> (r matches
                Err(e) && e is UserCancelled),
    {
        if clean {
            return Ok(false);
        }
        if self.options.force {
            print_warning("going ahead despite uncommitted changes");
            return Ok(false);
        }
        print_warning("uncommitted changes or untracked files were found");
        if self.options.no_stash {
            return Err(GtError::DirtyWorkingDirectory);
        }
        print_info("the changes can be stashed and restored after the sync");
        if !confirmed {
            return Err(GtError::UserCancelled);
        }
        Ok(true)
    }

    /// Stashes the uncommitted state under a message naming the branch.
    pub fn stash_changes(&self, repo: &mut Repository, branch: &str) -> (r: GtResult<()>)
        ensures
            r is Ok ==> final(repo)@ == spec_stash_save(old(repo)@),
            r is Err ==> final(repo)@ == old(repo)@,
    {
        print_step("stashing the uncommitted changes");
        let mut message = "WIP on ".to_owned();
        message.append(branch);
        message.append(" before gt update");
        repo.create_stash(Some(message.as_str()))
    }

    /// Rebases the current branch onto the refreshed target; a replay that
    /// the capability must perform is handed back to the caller.
    pub fn rebase_branch(&self, repo: &mut Repository, target: &str) -> (r: GtResult<
        RebaseOutcome,
    >)
        ensures
            r == Ok::<RebaseOutcome, GtError>(RebaseOutcome::AlreadyUpToDate) ==> final(repo)@
                == old(repo)@,
            r == Ok::<RebaseOutcome, GtError>(RebaseOutcome::NeedsReplay) ==> final(repo)@ == old(repo)@,
            r is Err ==> final(repo)@.head == old(repo)@.head && final(repo)@.stashes == old(repo)@.stashes,
    {
        repo.rebase(target)
    }

    /// Pops the stash created before the sync; a conflicting application
    /// keeps the entry and surfaces the conflict for manual resolution.
    pub fn restore_stash(&self, repo: &mut Repository) -> (r: GtResult<()>)
        ensures
            r is Ok ==> final(repo)@.head == old(repo)@.head && final(repo)@.branches == old(repo)@.branches && old(repo)@.stashes.len() > 0 && final(repo)@.stashes == old(repo)@.stashes.remove(0) && (spec_clean(old(repo)@) && old(repo)@.branches.contains_key(old(repo)@.head) && old(repo)@.branches[old(repo)@.head]
                == old(repo)@.stashes[0].base ==> final(repo)@.worktree == old(repo)@.stashes[0].state),
            r is Err ==> final(repo)@.stashes == old(repo)@.stashes,
            r matches Err(e) ==> e is StashConflict || e is GitOperation,
    {
        print_step("restoring the stashed changes");
        match repo.pop_stash(0) {
            Ok(()) => {
                print_success("the stashed changes are back");
                Ok(())
            },
            Err(e) => {
                print_warning("the stash could not be applied cleanly; the entry was kept");
                Err(e)
            },
        }
    }
}


/// Where an Update session stands.
#[derive(Debug, Clone, Copy, PartialEq, Eq, Structural)]
pub enum UpdatePhase {
    /// Nothing done yet; any stashing has already been decided and
    /// performed.
    Started,
    /// The main branch is checked out (feature-branch runs only).
    MainCheckedOut,
    /// The main branch is freshly pulled.
    MainPulled,
    /// HEAD is back on the original feature branch.
    BackOnBranch,
    /// The feature branch is rebased onto the refreshed main.
    Rebased,
    /// The stash entry made before the sync is popped back.
    StashRestored,
    /// The session is over.
    Finished,
}

/// What the session asks the caller to perform next.
#[derive(Debug, Clone, Copy, PartialEq, Eq, Structural)]
pub enum UpdateAction {
    CheckoutMain,
    PullMain,
    CheckoutBack,
    RebaseOntoMain,
    PopStash,
    Done,
}

/// One Update run in flight: the facts fixed at entry and the phase
/// reached so far.
#[derive(Debug, Clone, Copy, PartialEq, Eq, Structural)]
pub struct UpdateSession {
    /// HEAD was on the main branch when the run began.
    pub on_main: bool,
    /// A stash entry was created before the sync and must be popped after.
    pub stashed: bool,
    /// Where the session stands.
    pub phase: UpdatePhase,
}

impl UpdateSession {
    /// Begins a session from the facts gathered at entry.
    pub fn begin(on_main: bool, stashed: bool) -> (r: UpdateSession)
        ensures
            r == (UpdateSession { on_main, stashed, phase: UpdatePhase::Started }),
    {
        UpdateSession { on_main, stashed, phase: UpdatePhase::Started }
    }
}

impl UpdateCommand {
    /// One step of the Update session: on the main branch the pull runs
    /// directly; on a feature branch main is checked out, pulled and left
    /// again before the rebase (skipped in main-only mode); a stash made
    /// before the sync is popped only after all of that; then the session
    /// is done. The caller performs each returned action and aborts the
    /// session on its failure.
    pub fn next_step(&self, s: UpdateSession) -> (r: (UpdateSession, UpdateAction))
        ensures
            r.0.on_main == s.on_main && r.0.stashed == s.stashed,
            s.phase is Started && s.on_main ==> r.1 is PullMain && r.0.phase is MainPulled,
            s.phase is Started && !s.on_main ==> r.1 is CheckoutMain && r.0.phase
                is MainCheckedOut,
            s.phase is MainCheckedOut ==> r.1 is PullMain && r.0.phase is MainPulled,
            s.phase is MainPulled && !s.on_main ==> r.1 is CheckoutBack && r.0.phase
                is BackOnBranch,
            s.phase is MainPulled && s.on_main && s.stashed ==> r.1 is PopStash && r.0.phase
                is StashRestored,
            s.phase is MainPulled && s.on_main && !s.stashed ==> r.1 is Done && r.0.phase
                is Finished,
            s.phase is BackOnBranch && !self.options.main_only ==> r.1 is RebaseOntoMain
                && r.0.phase is Rebased,
            s.phase is BackOnBranch && self.options.main_only && s.stashed ==> r.1 is PopStash
                && r.0.phase is StashRestored,
            s.phase is BackOnBranch && self.options.main_only && !s.stashed ==> r.1 is Done
                && r.0.phase is Finished,
            s.phase is Rebased && s.stashed ==> r.1 is PopStash && r.0.phase is StashRestored,
            s.phase is Rebased && !s.stashed ==> r.1 is Done && r.0.phase is Finished,
            s.phase is StashRestored ==> r.1 is Done && r.0.phase is Finished,
            s.phase is Finished ==> r.1 is Done && r.0.phase is Finished,
    {
        let phase = s.phase;
        match phase {
            UpdatePhase::Started => {
                if s.on_main {
                    (UpdateSession { phase: UpdatePhase::MainPulled, ..s }, UpdateAction::PullMain)
                } else {
                    (
                        UpdateSession { phase: UpdatePhase::MainCheckedOut, ..s },
                        UpdateAction::CheckoutMain,
                    )
                }
            },
            UpdatePhase::MainCheckedOut => (
                UpdateSession { phase: UpdatePhase::MainPulled, ..s },
                UpdateAction::PullMain,
            ),
            UpdatePhase::MainPulled => {
                if !s.on_main {
                    (
                        UpdateSession { phase: UpdatePhase::BackOnBranch, ..s },
                        UpdateAction::CheckoutBack,
                    )
                } else if s.stashed {
                    (
                        UpdateSession { phase: UpdatePhase::StashRestored, ..s },
                        UpdateAction::PopStash,
                    )
                } else {
                    (UpdateSession { phase: UpdatePhase::Finished, ..s }, UpdateAction::Done)
                }
            },
            UpdatePhase::BackOnBranch => {
                if !self.options.main_only {
                    (
                        UpdateSession { phase: UpdatePhase::Rebased, ..s },
                        UpdateAction::RebaseOntoMain,
                    )
                } else if s.stashed {
                    (
                        UpdateSession { phase: UpdatePhase::StashRestored, ..s },
                        UpdateAction::PopStash,
                    )
                } else {
                    (UpdateSession { phase: UpdatePhase::Finished, ..s }, UpdateAction::Done)
                }
            },
            UpdatePhase::Rebased => {
                if s.stashed {
                    (
                        UpdateSession { phase: UpdatePhase::StashRestored, ..s },
                        UpdateAction::PopStash,
                    )
                } else {
                    (UpdateSession { phase: UpdatePhase::Finished, ..s }, UpdateAction::Done)
                }
            },
            UpdatePhase::StashRestored => (
                UpdateSession { phase: UpdatePhase::Finished, ..s },
                UpdateAction::Done,
            ),
            UpdatePhase::Finished => (
                UpdateSession { phase: UpdatePhase::Finished, ..s },
                UpdateAction::Done,
            ),
        }
    }
}

} // verus!
