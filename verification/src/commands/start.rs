//! The Start workflow: validate and normalize the branch name, require
//! confirmation on a dirty tree, resolve and refresh the base branch, and
//! create and check out the new branch from it.

use vstd::prelude::*;
use vstd::string::*;
use crate::branch::{
    spec_valid_branch_name,
    spec_normalized_name,
    branch_name_is_valid,
    normalize_branch_name,
};
use crate::config::repository::RepoConfig;
use crate::errors::{GtError, GtResult};
use crate::repo::{Repository, spec_clean};
use crate::status::WorkingTreeStatus;
use crate::ui::{print_step, print_success, print_warning};

verus! {

/// What a Start run is asked to do.
#[derive(Debug, Clone)]
pub struct StartOptions {
    /// The branch to create.
    pub branch: String,
    /// The base branch; the configured main branch when absent.
    pub base: Option<String>,
    /// Create locally only: no fetch of the base.
    pub local: bool,
    /// Recreate the branch if it already exists.
    pub force: bool,
    /// Leave the base branch as it stands.
    pub skip_update: bool,
    /// A free-form description shown after success.
    pub description: Option<String>,
    /// Report the intended actions without performing them.
    pub dry_run: bool,
}

impl Default for StartOptions {
    /// An empty request: no branch named yet, everything else off.
    fn default() -> (r: StartOptions)
        ensures
            r.branch@.len() == 0,
            r.base is None,
            !r.local,
            !r.force,
            !r.skip_update,
            r.description is None,
            !r.dry_run,
    {
        StartOptions {
            branch: String::new(),
            base: None,
            local: false,
            force: false,
            skip_update: false,
            description: None,
            dry_run: false,
        }
    }
}

/// The Start command.
pub struct StartCommand {
    pub options: StartOptions,
}

impl StartCommand {
    /// Creates the command over its options.
    pub fn new(options: StartOptions) -> (r: StartCommand)
        ensures
            r.options == options,
    {
        StartCommand { options }
    }

    /// Creates the command for a branch with every other option default.
    pub fn with_branch(branch: String) -> (r: StartCommand)
        ensures
            r.options.branch == branch,
            r.options.base is None,
            !r.options.local,
            !r.options.force,
            !r.options.skip_update,
            !r.options.dry_run,
    {
        let mut options = StartOptions::default();
        options.branch = branch;
        Self::new(options)
    }

    /// Normalizes an operator-supplied branch name.
    pub fn normalize_branch_name(&self, name: &str) -> (r: String)
        ensures
            r@ == spec_normalized_name(name@),
    {
        normalize_branch_name(name)
    }

    /// Checks a name against the naming rule.
    pub fn is_valid_branch_name(&self, name: &str) -> (r: bool)
        ensures
            r == spec_valid_branch_name(name@),
    {
        branch_name_is_valid(name)
    }

    /// Validates the request: the branch name must be non-empty, and its
    /// normal form must satisfy the naming rule; the normal form replaces
    /// the raw name.
    pub fn validate_input(&mut self) -> (r: GtResult<()>)
        ensures
            old(self).options.branch@.len() == 0 <==> (r matches Err(e) && e is InvalidInput),
            r matches Err(e) && e is InvalidBranchName ==> !spec_valid_branch_name(
                spec_normalized_name(old(self).options.branch@),
            ),
            r is Ok <==> old(self).options.branch@.len() > 0 && spec_valid_branch_name(
                spec_normalized_name(old(self).options.branch@),
            ),
            r is Ok ==> final(self).options.branch@ == spec_normalized_name(
                old(self).options.branch@,
            ),
            r is Err ==> final(self).options == old(self).options,
            final(self).options.base == old(self).options.base,
            final(self).options.local == old(self).options.local,
            final(self).options.force == old(self).options.force,
            final(self).options.skip_update == old(self).options.skip_update,
            final(self).options.dry_run == old(self).options.dry_run,
    {
        if self.options.branch.as_str().unicode_len() == 0 {
            return Err(GtError::InvalidInput {
                input: "the branch name must not be empty".to_owned(),
            });
        }
        let normalized = normalize_branch_name(self.options.branch.as_str());
        if !branch_name_is_valid(normalized.as_str()) {
            return Err(GtError::InvalidBranchName { name: normalized });
        }
        self.options.branch = normalized;
        Ok(())
    }

    /// Judges the working tree before starting: a clean tree goes ahead; a
    /// dirty one goes ahead only with the operator's explicit consent and
    /// is cancelled otherwise.
    pub fn check_working_directory(&self, status: &WorkingTreeStatus, confirmed: bool) -> (r:
        GtResult<()>)
        ensures
            r is Ok <==> (!status.has_uncommitted_changes && !status.has_untracked_files
                && !status.has_staged_changes) || confirmed,
            r matches Err(e) ==> e is UserCancelled,
    {
        if status.is_clean() {
            return Ok(());
        }
        print_warning("the working tree is not clean");
        if status.has_pending_changes() {
            print_warning("there are unsaved changes or untracked files");
        }
        if confirmed {
            Ok(())
        } else {
            Err(GtError::UserCancelled)
        }
    }

    /// The base the new branch grows from: the explicit base when one was
    /// named, the configured main branch otherwise.
    pub fn determine_base_branch(&self, config: &RepoConfig) -> (r: String)
        ensures
            self.options.base matches Some(b) ==> r == b,
            self.options.base is None ==> r == config.main_branch,
    {
        match &self.options.base {
            Some(b) => b.clone(),
            None => config.main_branch.clone(),
        }
    }

    /// Moves onto the base branch where HEAD is elsewhere, so that the
    /// base can be refreshed.
    pub fn switch_to_base(&self, repo: &mut Repository, base: &str) -> (r: GtResult<()>)
        ensures
            r is Ok ==> final(repo)@.head == base@ && final(repo)@.branches == old(
                repo,
            )@.branches && final(repo)@.stashes == old(repo)@.stashes,
    {
        let current = repo.current_branch()?;
        let base_owned = base.to_owned();
        if current.eq(&base_owned) {
            return Ok(());
        }
        print_step("switching to the base branch");
        repo.checkout_branch(base)
    }

    /// Applies the policy for an existing branch of the requested name:
    /// under `force` it is deleted to be recreated, otherwise the request
    /// fails; a free name passes unchanged.
    pub fn handle_existing_branch(&self, repo: &mut Repository) -> (r: GtResult<()>)
        ensures
            r matches Err(e) && e is BranchAlreadyExists ==> old(repo)@.branches.contains_key(
                self.options.branch@,
            ) && !self.options.force,
            r is Ok && !self.options.force ==> !old(repo)@.branches.contains_key(
                self.options.branch@,
            ) && final(repo)@ == old(repo)@,
            r is Ok ==> !final(repo)@.branches.contains_key(self.options.branch@)
                && final(repo)@.head == old(repo)@.head && final(repo)@.stashes == old(
                repo,
            )@.stashes,
            r is Err ==> final(repo)@ == old(repo)@,
    {
        let exists = repo.branch_exists(self.options.branch.as_str())?;
        if exists {
            if self.options.force {
                print_warning("the branch already exists and will be recreated");
                repo.delete_branch(self.options.branch.as_str(), true)?;
                Ok(())
            } else {
                Err(GtError::BranchAlreadyExists { branch: self.options.branch.clone() })
            }
        } else {
            Ok(())
        }
    }

    /// Creates the requested branch from the base and checks it out.
    pub fn create_and_checkout_branch(&self, repo: &mut Repository, base_branch: &str) -> (r:
        GtResult<()>)
        ensures
            r is Ok ==> final(repo)@.head == self.options.branch@
                && final(repo)@.branches.contains_key(self.options.branch@) && (spec_clean(
                old(repo)@,
            ) ==> spec_clean(final(repo)@)),
    {
        print_step("creating the new branch from the base");
        repo.create_and_checkout_branch(self.options.branch.as_str(), Some(base_branch))?;
        print_success("created and checked out the new branch");
        Ok(())
    }

    /// Reports success and what usually comes next.
    pub fn show_success_info(&self) {
        print_success("the feature branch is ready");
        match &self.options.description {
            Some(d) => {
                crate::ui::print_info(d.as_str());
            },
            None => {},
        }
    }
}


/// Where a Start session stands.
#[derive(Debug, Clone, Copy, PartialEq, Eq, Structural)]
pub enum StartPhase {
    /// Nothing done yet.
    Started,
    /// The branch name is validated and normalized.
    Validated,
    /// The working tree is judged (with the operator's consent if dirty).
    TreeChecked,
    /// The base branch is resolved.
    BaseResolved,
    /// HEAD is on the base branch.
    BaseCheckedOut,
    /// The base branch is freshly pulled.
    BasePulled,
    /// An existing branch of the requested name is dealt with.
    ExistingHandled,
    /// The new branch is created and checked out.
    BranchCreated,
    /// The session is over.
    Finished,
}

/// What the session asks the caller to perform next.
#[derive(Debug, Clone, Copy, PartialEq, Eq, Structural)]
pub enum StartAction {
    ValidateName,
    CheckTree,
    ResolveBase,
    CheckoutBase,
    PullBase,
    HandleExisting,
    CreateAndCheckout,
    Done,
}

/// One Start run in flight.
#[derive(Debug, Clone, Copy, PartialEq, Eq, Structural)]
pub struct StartSession {
    /// Where the session stands.
    pub phase: StartPhase,
}

impl StartSession {
    /// Begins a session.
    pub fn begin() -> (r: StartSession)
        ensures
            r == (StartSession { phase: StartPhase::Started }),
    {
        StartSession { phase: StartPhase::Started }
    }
}

impl StartCommand {
    /// Whether this run refreshes the base branch before branching: not in
    /// local mode, and not when the refresh is explicitly skipped.
    pub fn updates_base(&self) -> (r: bool)
        ensures
            r == (!self.options.local && !self.options.skip_update),
    {
        !self.options.local && !self.options.skip_update
    }

    /// One step of the Start session: validate, judge the tree, resolve
    /// the base; then — unless the run is local or the refresh is skipped
    /// — check the base out and pull it, so the new branch grows from the
    /// fetched tip; only then is an existing branch of the name dealt
    /// with, and only after that is the branch created and checked out.
    /// The caller performs each returned action and aborts the session on
    /// its failure.
    pub fn next_step(&self, s: StartSession) -> (r: (StartSession, StartAction))
        ensures
            s.phase is Started ==> r.1 is ValidateName && r.0.phase is Validated,
            s.phase is Validated ==> r.1 is CheckTree && r.0.phase is TreeChecked,
            s.phase is TreeChecked ==> r.1 is ResolveBase && r.0.phase is BaseResolved,
            s.phase is BaseResolved && !self.options.local && !self.options.skip_update ==> r.1
                is CheckoutBase && r.0.phase is BaseCheckedOut,
            s.phase is BaseResolved && (self.options.local || self.options.skip_update) ==> r.1
                is HandleExisting && r.0.phase is ExistingHandled,
            s.phase is BaseCheckedOut ==> r.1 is PullBase && r.0.phase is BasePulled,
            s.phase is BasePulled ==> r.1 is HandleExisting && r.0.phase is ExistingHandled,
            s.phase is ExistingHandled ==> r.1 is CreateAndCheckout && r.0.phase is BranchCreated,
            s.phase is BranchCreated ==> r.1 is Done && r.0.phase is Finished,
            s.phase is Finished ==> r.1 is Done && r.0.phase is Finished,
            r.1 is CreateAndCheckout ==> s.phase is ExistingHandled,
            r.1 is HandleExisting && !self.options.local && !self.options.skip_update ==> s.phase
                is BasePulled,
    {
        let phase = s.phase;
        match phase {
            StartPhase::Started => (StartSession { phase: StartPhase::Validated }, StartAction::ValidateName),
            StartPhase::Validated => (StartSession { phase: StartPhase::TreeChecked }, StartAction::CheckTree),
            StartPhase::TreeChecked => (
                StartSession { phase: StartPhase::BaseResolved },
                StartAction::ResolveBase,
            ),
            StartPhase::BaseResolved => {
                if self.updates_base() {
                    (StartSession { phase: StartPhase::BaseCheckedOut }, StartAction::CheckoutBase)
                } else {
                    (
                        StartSession { phase: StartPhase::ExistingHandled },
                        StartAction::HandleExisting,
                    )
                }
            },
            StartPhase::BaseCheckedOut => (
                StartSession { phase: StartPhase::BasePulled },
                StartAction::PullBase,
            ),
            StartPhase::BasePulled => (
                StartSession { phase: StartPhase::ExistingHandled },
                StartAction::HandleExisting,
            ),
            StartPhase::ExistingHandled => (
                StartSession { phase: StartPhase::BranchCreated },
                StartAction::CreateAndCheckout,
            ),
            StartPhase::BranchCreated => (
                StartSession { phase: StartPhase::Finished },
                StartAction::Done,
            ),
            StartPhase::Finished => (StartSession { phase: StartPhase::Finished }, StartAction::Done),
        }
    }
}

} // verus!
