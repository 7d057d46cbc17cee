//! The Ship workflow: publish a finished branch. On the main branch an
//! explicit confirmation is demanded before pushing it directly; on a
//! feature branch the tree must be clean (or saved first), the branch is
//! pushed, a pull request can be opened and merged, and the local branch
//! can be cleaned up after switching back to main.

use vstd::prelude::*;
use vstd::string::*;
use crate::errors::{GtError, GtResult};
use crate::github::pr;
use crate::repo::Repository;
use crate::ui::{print_info, print_step, print_success, print_warning};

verus! {

/// How a finished branch is reconciled into the main line.
#[derive(Debug, Clone, Copy, PartialEq, Eq, Structural)]
pub enum MergeStrategy {
    /// Replay the commits for a linear history.
    Rebase,
    /// Squash the branch into one commit.
    Squash,
    /// Keep the branch structure with a merge commit.
    Merge,
}

impl Default for MergeStrategy {
    /// Rebase, for a linear history.
    fn default() -> (r: MergeStrategy)
        ensures
            r is Rebase,
    {
        MergeStrategy::Rebase
    }
}

impl MergeStrategy {
    /// The name of the strategy.
    pub fn name(self) -> (r: &'static str)
        ensures
            r@ == (match self {
                MergeStrategy::Rebase => "rebase"@,
                MergeStrategy::Squash => "squash"@,
                MergeStrategy::Merge => "merge"@,
            }),
    {
        match self {
            MergeStrategy::Rebase => "rebase",
            MergeStrategy::Squash => "squash",
            MergeStrategy::Merge => "merge",
        }
    }

    /// The same strategy in the pull-request layer's terms.
    pub fn into_pr_strategy(self) -> (r: pr::MergeStrategy)
        ensures
            self is Rebase <==> r is Rebase,
            self is Squash <==> r is Squash,
            self is Merge <==> r is Merge,
    {
        match self {
            MergeStrategy::Rebase => pr::MergeStrategy::Rebase,
            MergeStrategy::Squash => pr::MergeStrategy::Squash,
            MergeStrategy::Merge => pr::MergeStrategy::Merge,
        }
    }
}

/// What a Ship run is asked to do.
#[derive(Debug, Clone)]
pub struct ShipOptions {
    /// Stay on the feature branch afterwards.
    pub no_switch: bool,
    /// Open a pull request after pushing.
    pub create_pr: bool,
    /// Merge the pull request right away.
    pub auto_merge: bool,
    /// How an automatic merge reconciles the branch.
    pub merge_strategy: MergeStrategy,
    /// Delete the local branch after a switch back to main.
    pub delete_branch: bool,
    /// The pull request's title, where one was supplied.
    pub pr_title: Option<String>,
    /// The pull request's body, where one was supplied.
    pub pr_body: Option<String>,
}

impl Default for ShipOptions {
    /// A plain push: no pull request, no merge, switch back to main.
    fn default() -> (r: ShipOptions)
        ensures
            !r.no_switch,
            !r.create_pr,
            !r.auto_merge,
            r.merge_strategy is Rebase,
            !r.delete_branch,
            r.pr_title is None,
            r.pr_body is None,
    {
        ShipOptions {
            no_switch: false,
            create_pr: false,
            auto_merge: false,
            merge_strategy: MergeStrategy::Rebase,
            delete_branch: false,
            pr_title: None,
            pr_body: None,
        }
    }
}

/// The Ship command.
pub struct ShipCommand {
    pub options: ShipOptions,
}

impl ShipCommand {
    /// Creates the command: naming a merge strategy implies an automatic
    /// merge, and an automatic merge implies a pull request.
    pub fn new(
        no_switch: bool,
        pr: bool,
        merge_strategy: Option<MergeStrategy>,
        delete_branch: bool,
    ) -> (r: ShipCommand)
        ensures
            r.options.no_switch == no_switch,
            r.options.auto_merge == (merge_strategy is Some),
            r.options.create_pr == (pr || merge_strategy is Some),
            r.options.delete_branch == delete_branch,
            merge_strategy matches Some(s) ==> r.options.merge_strategy == s,
            merge_strategy is None ==> r.options.merge_strategy is Rebase,
            r.options.pr_title is None,
            r.options.pr_body is None,
    {
        let auto_merge = merge_strategy.is_some();
        let create_pr = pr || auto_merge;
        let strategy = match merge_strategy {
            Some(s) => s,
            None => MergeStrategy::Rebase,
        };
        ShipCommand {
            options: ShipOptions {
                no_switch,
                create_pr,
                auto_merge,
                merge_strategy: strategy,
                delete_branch,
                pr_title: None,
                pr_body: None,
            },
        }
    }

    /// Creates the command over explicit options.
    pub fn with_options(options: ShipOptions) -> (r: ShipCommand)
        ensures
            r.options == options,
    {
        ShipCommand { options }
    }

    /// Judges a ship from the main branch: it goes ahead only with the
    /// operator's explicit consent, and is cancelled otherwise — nothing
    /// is pushed on a declined confirmation.
    pub fn main_branch_decision(&self, confirmed: bool) -> (r: GtResult<()>)
        ensures
            r is Ok <==> confirmed,
            r matches Err(e) ==> e is UserCancelled,
    {
        print_warning("this is the main branch; shipping usually starts from a feature branch");
        if confirmed {
            Ok(())
        } else {
            Err(GtError::UserCancelled)
        }
    }

    /// Judges the uncommitted changes before a ship: a clean tree needs
    /// nothing; a dirty tree is either saved first (with consent) or the
    /// ship is cancelled. The answer says whether a save must run.
    pub fn uncommitted_decision(&self, clean: bool, save_confirmed: bool) -> (r: GtResult<bool>)
        ensures
            clean ==> r == Ok::<bool, GtError>(false),
            !clean && save_confirmed ==> r == Ok::<bool, GtError>(true),
            !clean && !save_confirmed ==> (r matches Err(e) && e is UserCancelled),
    {
        if clean {
            print_info("the working tree is clean");
            return Ok(false);
        }
        print_warning("uncommitted changes or untracked files were found");
        if save_confirmed {
            Ok(true)
        } else {
            Err(GtError::UserCancelled)
        }
    }

    /// Switches back to the main branch after the push.
    pub fn switch_to_main_branch(&self, repo: &mut Repository, main_branch: &str) -> (r: GtResult<
        (),
    >)
        ensures
            r is Ok ==> final(repo)@.head == main_branch@ && final(repo)@.branches == old(
                repo,
            )@.branches && final(repo)@.stashes == old(repo)@.stashes,
    {
        print_step("switching back to the main branch");
        repo.checkout_branch(main_branch)
    }

    /// Deletes the local feature branch after a completed ship; the
    /// deletion is safe, not forced.
    pub fn cleanup_feature_branch(&self, repo: &mut Repository, branch_name: &str) -> (r: GtResult<
        (),
    >)
        ensures
            r is Ok ==> final(repo)@.branches == old(repo)@.branches.remove(branch_name@)
                && final(repo)@.head == old(repo)@.head && final(repo)@.stashes == old(
                repo,
            )@.stashes,
    {
        print_step("deleting the local feature branch");
        repo.delete_branch(branch_name, false)?;
        print_success("the local branch is gone");
        Ok(())
    }
}


/// Where a Ship session stands.
#[derive(Debug, Clone, Copy, PartialEq, Eq, Structural)]
pub enum ShipPhase {
    /// Nothing done yet; on the main branch the operator's consent is
    /// already given.
    Started,
    /// The working tree is judged clean (or saved first).
    CleanChecked,
    /// The branch is pushed to the remote.
    Pushed,
    /// A pull request is open.
    PrOpened,
    /// The pull request is merged (or queued to merge).
    PrMerged,
    /// HEAD is back on the main branch.
    SwitchedBack,
    /// The main branch is freshly pulled.
    MainRefreshed,
    /// The local feature branch is deleted.
    BranchDeleted,
    /// The session is over.
    Finished,
}

/// What the session asks the caller to perform next.
#[derive(Debug, Clone, Copy, PartialEq, Eq, Structural)]
pub enum ShipAction {
    CheckClean,
    PushBranch,
    OpenPr,
    MergePr,
    SwitchToMain,
    PullMain,
    DeleteBranch,
    Done,
}

/// One Ship run in flight: the facts fixed at entry and the phase reached
/// so far.
#[derive(Debug, Clone, Copy, PartialEq, Eq, Structural)]
pub struct ShipSession {
    /// HEAD was on the main branch when the run began.
    pub on_main: bool,
    /// Where the session stands.
    pub phase: ShipPhase,
}

impl ShipSession {
    /// Begins a session from the facts gathered at entry.
    pub fn begin(on_main: bool) -> (r: ShipSession)
        ensures
            r == (ShipSession { on_main, phase: ShipPhase::Started }),
    {
        ShipSession { on_main, phase: ShipPhase::Started }
    }
}

impl ShipCommand {
    /// One step of the Ship session: the tree is judged before anything,
    /// the push comes before any pull request, a merge is asked for only
    /// once a request is open, the switch back to main (with its pull)
    /// comes after the publication steps, and the local branch is deleted
    /// only after that switch — never when the run stays on the feature
    /// branch, and never on a main-branch run, which ends right after its
    /// push. The caller performs each returned action and aborts the
    /// session on its failure.
    pub fn next_step(&self, s: ShipSession) -> (r: (ShipSession, ShipAction))
        ensures
            r.0.on_main == s.on_main,
            s.phase is Started ==> r.1 is CheckClean && r.0.phase is CleanChecked,
            s.phase is CleanChecked ==> r.1 is PushBranch && r.0.phase is Pushed,
            s.phase is Pushed && s.on_main ==> r.1 is Done && r.0.phase is Finished,
            s.phase is Pushed && !s.on_main && self.options.create_pr ==> r.1 is OpenPr
                && r.0.phase is PrOpened,
            s.phase is Pushed && !s.on_main && !self.options.create_pr && !self.options.no_switch
                ==> r.1 is SwitchToMain && r.0.phase is SwitchedBack,
            s.phase is Pushed && !s.on_main && !self.options.create_pr && self.options.no_switch
                ==> r.1 is Done && r.0.phase is Finished,
            s.phase is PrOpened && self.options.auto_merge ==> r.1 is MergePr && r.0.phase
                is PrMerged,
            s.phase is PrOpened && !self.options.auto_merge && !self.options.no_switch ==> r.1
                is SwitchToMain && r.0.phase is SwitchedBack,
            s.phase is PrOpened && !self.options.auto_merge && self.options.no_switch ==> r.1
                is Done && r.0.phase is Finished,
            s.phase is PrMerged && !self.options.no_switch ==> r.1 is SwitchToMain && r.0.phase
                is SwitchedBack,
            s.phase is PrMerged && self.options.no_switch ==> r.1 is Done && r.0.phase
                is Finished,
            s.phase is SwitchedBack ==> r.1 is PullMain && r.0.phase is MainRefreshed,
            s.phase is MainRefreshed && self.options.delete_branch && !self.options.no_switch
                ==> r.1 is DeleteBranch && r.0.phase is BranchDeleted,
            s.phase is MainRefreshed && (!self.options.delete_branch || self.options.no_switch)
                ==> r.1 is Done && r.0.phase is Finished,
            s.phase is BranchDeleted ==> r.1 is Done && r.0.phase is Finished,
            s.phase is Finished ==> r.1 is Done && r.0.phase is Finished,
            r.1 is MergePr ==> s.phase is PrOpened,
            r.1 is DeleteBranch ==> s.phase is MainRefreshed && !self.options.no_switch,
            r.1 is OpenPr ==> s.phase is Pushed,
    {
        let phase = s.phase;
        match phase {
            ShipPhase::Started => (
                ShipSession { phase: ShipPhase::CleanChecked, ..s },
                ShipAction::CheckClean,
            ),
            ShipPhase::CleanChecked => (
                ShipSession { phase: ShipPhase::Pushed, ..s },
                ShipAction::PushBranch,
            ),
            ShipPhase::Pushed => {
                if s.on_main {
                    (ShipSession { phase: ShipPhase::Finished, ..s }, ShipAction::Done)
                } else if self.options.create_pr {
                    (ShipSession { phase: ShipPhase::PrOpened, ..s }, ShipAction::OpenPr)
                } else if !self.options.no_switch {
                    (ShipSession { phase: ShipPhase::SwitchedBack, ..s }, ShipAction::SwitchToMain)
                } else {
                    (ShipSession { phase: ShipPhase::Finished, ..s }, ShipAction::Done)
                }
            },
            ShipPhase::PrOpened => {
                if self.options.auto_merge {
                    (ShipSession { phase: ShipPhase::PrMerged, ..s }, ShipAction::MergePr)
                } else if !self.options.no_switch {
                    (ShipSession { phase: ShipPhase::SwitchedBack, ..s }, ShipAction::SwitchToMain)
                } else {
                    (ShipSession { phase: ShipPhase::Finished, ..s }, ShipAction::Done)
                }
            },
            ShipPhase::PrMerged => {
                if !self.options.no_switch {
                    (ShipSession { phase: ShipPhase::SwitchedBack, ..s }, ShipAction::SwitchToMain)
                } else {
                    (ShipSession { phase: ShipPhase::Finished, ..s }, ShipAction::Done)
                }
            },
            ShipPhase::SwitchedBack => (
                ShipSession { phase: ShipPhase::MainRefreshed, ..s },
                ShipAction::PullMain,
            ),
            ShipPhase::MainRefreshed => {
                if self.options.delete_branch && !self.options.no_switch {
                    (ShipSession { phase: ShipPhase::BranchDeleted, ..s }, ShipAction::DeleteBranch)
                } else {
                    (ShipSession { phase: ShipPhase::Finished, ..s }, ShipAction::Done)
                }
            },
            ShipPhase::BranchDeleted => (
                ShipSession { phase: ShipPhase::Finished, ..s },
                ShipAction::Done,
            ),
            ShipPhase::Finished => (ShipSession { phase: ShipPhase::Finished, ..s }, ShipAction::Done),
        }
    }
}

} // verus!
