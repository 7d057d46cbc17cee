//! The command surface and its router: each parsed command is mapped to
//! the plan the tool executes, or refused where the surface has no
//! behaviour behind it yet.

use vstd::prelude::*;
use vstd::string::*;
use crate::commands::ship::{MergeStrategy, ShipOptions, ShipCommand};
use crate::commands::start::StartOptions;
use crate::errors::{ErrorHandler, GtError, GtResult};

verus! {

/// A stash subcommand.
#[derive(Debug, Clone)]
pub enum StashAction {
    /// Save the current changes.
    Push { message: Option<String> },
    /// Restore the most recent entry.
    Pop,
    /// Apply an entry without dropping it.
    Apply { index: Option<String> },
    /// List the entries.
    List,
    /// Show an entry's content.
    Show { index: Option<String> },
    /// Drop an entry.
    Drop { index: Option<String> },
    /// Drop every entry.
    Clear,
}

/// A configuration subcommand.
#[derive(Debug, Clone)]
pub enum ConfigAction {
    /// Show the current configuration.
    Show,
    /// List the configuration entries.
    List,
    /// Set a remote's address.
    SetUrl { remote_or_url: String, url: Option<String> },
    /// Add a remote.
    AddRemote { name: String, url: String },
    /// Set the user identity.
    User { name: String, email: String, global: bool },
    /// Migrate configuration from an earlier tool.
    Migrate,
    /// Pass other configuration arguments through.
    Git { args: Vec<String> },
}

/// Every command the tool accepts.
#[derive(Debug, Clone)]
pub enum Commands {
    /// Begin a new unit of work on a fresh branch.
    Start { branch: String, base: String, local: bool },
    /// Save the current progress.
    Save { message: Option<String>, edit: bool, files: Vec<String> },
    /// Save and push.
    Sp { message: Option<String>, edit: bool, files: Vec<String> },
    /// Synchronize with upstream.
    Update { force: bool },
    /// Publish the finished work.
    Ship {
        no_switch: bool,
        pr: bool,
        auto_merge: bool,
        squash: bool,
        merge: bool,
        delete_branch: bool,
    },
    /// Remove a branch.
    Rm { branch: String, force: bool },
    /// Clean a finished branch up.
    Clean { branch: String },
    /// Report the repository state.
    Status { remote: bool, log: bool },
    /// Stage files.
    Add { files: Vec<String> },
    /// Stage everything.
    AddAll,
    /// Commit the staged changes.
    Commit { message: Option<String>, args: Vec<String> },
    /// Push refs.
    Push { args: Vec<String> },
    /// Pull refs.
    Pull { args: Vec<String> },
    /// Fetch refs.
    Fetch { args: Vec<String> },
    /// Work with branches.
    Branch { args: Vec<String> },
    /// Check a branch or path out.
    Checkout { branch: Option<String>, args: Vec<String> },
    /// Merge a source into the current branch.
    Merge { source: String, args: Vec<String> },
    /// Show the history.
    Log { args: Vec<String> },
    /// Show a diff.
    Diff { args: Vec<String> },
    /// Reset to a target.
    Reset { target: String, args: Vec<String> },
    /// Work with the stash.
    Stash { action: Option<StashAction> },
    /// Rebase onto a target.
    Rebase {
        target: String,
        interactive: bool,
        continue_rebase: bool,
        abort: bool,
        skip: bool,
        args: Vec<String>,
    },
    /// Undo the last commit.
    Undo { soft: bool, hard: bool },
    /// Unstage files.
    Unstage { interactive: bool, files: Vec<String> },
    /// Create a repository.
    Init { path: Option<String>, args: Vec<String> },
    /// Work with the configuration.
    Config { action: Option<ConfigAction> },
    /// Work with remotes.
    Remote { args: Vec<String> },
    /// Create a repository on the collaboration service.
    GhCreate { repo: Option<String>, args: Vec<String> },
    /// Open the project in an editor.
    Ide { editor: Option<String> },
    /// Update the tool itself.
    UpdateSelf { check: bool, yes: bool },
}

/// The parsed invocation: the global flags and the chosen command.
#[derive(Debug, Clone)]
pub struct Cli {
    /// Report verbosely.
    pub verbose: bool,
    /// Report the intended actions without performing them.
    pub dry_run: bool,
    /// Assume affirmative answers instead of prompting.
    pub yes: bool,
    /// The chosen command.
    pub command: Commands,
}

/// What the router decided a command amounts to.
#[derive(Debug, Clone)]
pub enum RoutePlan {
    /// Run the Start workflow.
    Start(StartOptions),
    /// Run the Save workflow.
    Save { message: Option<String>, edit: bool, files: Vec<String> },
    /// Run the Save workflow and push afterwards.
    SaveAndPush { message: Option<String>, edit: bool, files: Vec<String> },
    /// Run the Update workflow.
    Update { force: bool },
    /// Run the Ship workflow.
    Ship(ShipOptions),
    /// Run the Clean command.
    Clean { branch: String },
    /// Report the repository state.
    ShowStatus,
    /// Create a repository.
    Init { path: Option<String> },
    /// Work with the configuration.
    Config { action: Option<ConfigAction> },
    /// Update the tool itself.
    UpdateSelf { check: bool, yes: bool },
}

/// Dispatches parsed commands to the workflows.
pub struct CommandRouter {
    pub error_handler: ErrorHandler,
    pub verbose: bool,
    pub dry_run: bool,
}

impl CommandRouter {
    /// Creates the router; the error handler follows the verbosity and
    /// interactivity of the invocation.
    pub fn new(verbose: bool, dry_run: bool, interactive: bool) -> (r: CommandRouter)
        ensures
            r.verbose == verbose,
            r.dry_run == dry_run,
            r.error_handler.verbose == verbose,
            r.error_handler.interactive == interactive,
    {
        CommandRouter {
            error_handler: ErrorHandler::new(verbose, interactive),
            verbose,
            dry_run,
        }
    }

    /// Maps a command to its plan. Workflow commands carry their options
    /// over unchanged — a dry run skips the base refresh in Start — and a
    /// command whose behaviour is not wired up yet is refused by name.
    pub fn plan(&self, command: Commands) -> (r: GtResult<RoutePlan>)
        ensures
            command matches Commands::Start { branch, base, local } ==> (r matches Ok(p) && p
                matches RoutePlan::Start(o) && o.branch == branch && (base@.len() == 0 ==> o.base
                is None) && (base@.len() > 0 ==> o.base == Some(base)) && o.local == local
                && !o.force && o.skip_update == self.dry_run && o.dry_run == self.dry_run
                && o.description is None),
            command matches Commands::Save { message, edit, files } ==> r == Ok::<
                RoutePlan,
                GtError,
            >(RoutePlan::Save { message, edit, files }),
            command matches Commands::Sp { message, edit, files } ==> r == Ok::<
                RoutePlan,
                GtError,
            >(RoutePlan::SaveAndPush { message, edit, files }),
            command matches Commands::Update { force } ==> r == Ok::<RoutePlan, GtError>(
                RoutePlan::Update { force },
            ),
            command matches Commands::Ship { no_switch, pr, auto_merge, squash, merge, delete_branch }
                ==> (r matches Ok(p) && p matches RoutePlan::Ship(o) && o.no_switch == no_switch
                && o.delete_branch == delete_branch && o.auto_merge == (squash || merge
                || auto_merge) && o.create_pr == (pr || squash || merge || auto_merge) && (squash
                ==> o.merge_strategy is Squash) && (!squash && merge ==> o.merge_strategy
                is Merge) && (!squash && !merge ==> o.merge_strategy is Rebase)),
            command matches Commands::Clean { branch } ==> r == Ok::<RoutePlan, GtError>(
                RoutePlan::Clean { branch },
            ),
            command is Status ==> r == Ok::<RoutePlan, GtError>(RoutePlan::ShowStatus),
            command matches Commands::Init { path, args } ==> r == Ok::<RoutePlan, GtError>(
                RoutePlan::Init { path },
            ),
            command matches Commands::Config { action } ==> r == Ok::<RoutePlan, GtError>(
                RoutePlan::Config { action },
            ),
            command matches Commands::UpdateSelf { check, yes } ==> r == Ok::<RoutePlan, GtError>(
                RoutePlan::UpdateSelf { check, yes },
            ),
            command is Rm || command is Add || command is AddAll || command is Commit || command
                is Push || command is Pull || command is Fetch || command is Branch || command
                is Checkout || command is Merge || command is Log || command is Diff || command
                is Reset || command is Stash || command is Rebase || command is Undo || command
                is Unstage || command is Remote || command is GhCreate || command is Ide ==> (r
                matches Err(e) && e is NotImplemented),
    {
        match command {
            Commands::Start { branch, base, local } => {
                let explicit_base = if base.as_str().unicode_len() == 0 {
                    None
                } else {
                    Some(base)
                };
                Ok(RoutePlan::Start(StartOptions {
                    branch,
                    base: explicit_base,
                    local,
                    force: false,
                    skip_update: self.dry_run,
                    description: None,
                    dry_run: self.dry_run,
                }))
            },
            Commands::Save { message, edit, files } => Ok(RoutePlan::Save { message, edit, files }),
            Commands::Sp { message, edit, files } => Ok(
                RoutePlan::SaveAndPush { message, edit, files },
            ),
            Commands::Update { force } => Ok(RoutePlan::Update { force }),
            Commands::Ship { no_switch, pr, auto_merge, squash, merge, delete_branch } => {
                let merge_strategy = if squash {
                    Some(MergeStrategy::Squash)
                } else if merge {
                    Some(MergeStrategy::Merge)
                } else if auto_merge {
                    Some(MergeStrategy::Rebase)
                } else {
                    None
                };
                let cmd = ShipCommand::new(no_switch, pr, merge_strategy, delete_branch);
                Ok(RoutePlan::Ship(cmd.options))
            },
            Commands::Rm { branch: _, force: _ } => Err(GtError::NotImplemented {
                feature: "rm command".to_owned(),
            }),
            Commands::Clean { branch } => Ok(RoutePlan::Clean { branch }),
            Commands::Status { remote: _, log: _ } => Ok(RoutePlan::ShowStatus),
            Commands::Add { files: _ } => Err(GtError::NotImplemented {
                feature: "add command".to_owned(),
            }),
            Commands::AddAll => Err(GtError::NotImplemented {
                feature: "add-all command".to_owned(),
            }),
            Commands::Commit { message: _, args: _ } => Err(GtError::NotImplemented {
                feature: "commit command".to_owned(),
            }),
            Commands::Push { args: _ } => Err(GtError::NotImplemented {
                feature: "push command".to_owned(),
            }),
            Commands::Pull { args: _ } => Err(GtError::NotImplemented {
                feature: "pull command".to_owned(),
            }),
            Commands::Fetch { args: _ } => Err(GtError::NotImplemented {
                feature: "fetch command".to_owned(),
            }),
            Commands::Branch { args: _ } => Err(GtError::NotImplemented {
                feature: "branch command".to_owned(),
            }),
            Commands::Checkout { branch: _, args: _ } => Err(GtError::NotImplemented {
                feature: "checkout command".to_owned(),
            }),
            Commands::Merge { source: _, args: _ } => Err(GtError::NotImplemented {
                feature: "merge command".to_owned(),
            }),
            Commands::Log { args: _ } => Err(GtError::NotImplemented {
                feature: "log command".to_owned(),
            }),
            Commands::Diff { args: _ } => Err(GtError::NotImplemented {
                feature: "diff command".to_owned(),
            }),
            Commands::Reset { target: _, args: _ } => Err(GtError::NotImplemented {
                feature: "reset command".to_owned(),
            }),
            Commands::Stash { action: _ } => Err(GtError::NotImplemented {
                feature: "stash command".to_owned(),
            }),
            Commands::Rebase {
                target: _,
                interactive: _,
                continue_rebase: _,
                abort: _,
                skip: _,
                args: _,
            } => Err(GtError::NotImplemented { feature: "rebase command".to_owned() }),
            Commands::Undo { soft: _, hard: _ } => Err(GtError::NotImplemented {
                feature: "undo command".to_owned(),
            }),
            Commands::Unstage { interactive: _, files: _ } => Err(GtError::NotImplemented {
                feature: "unstage command".to_owned(),
            }),
            Commands::Init { path, args: _ } => Ok(RoutePlan::Init { path }),
            Commands::Config { action } => Ok(RoutePlan::Config { action }),
            Commands::Remote { args: _ } => Err(GtError::NotImplemented {
                feature: "remote command".to_owned(),
            }),
            Commands::GhCreate { repo: _, args: _ } => Err(GtError::NotImplemented {
                feature: "gh-create command".to_owned(),
            }),
            Commands::Ide { editor: _ } => Err(GtError::NotImplemented {
                feature: "ide command".to_owned(),
            }),
            Commands::UpdateSelf { check, yes } => Ok(RoutePlan::UpdateSelf { check, yes }),
        }
    }
}

} // verus!
