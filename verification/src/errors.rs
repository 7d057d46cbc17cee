//! The error taxonomy of the crate: environment, state-precondition,
//! reference, network, conflict, collaboration-service and user failures,
//! together with their severity, recovery strategy and remediation hints.

use vstd::prelude::*;
use vstd::string::*;
use crate::text::{spec_dec, u64_to_dec};
use crate::ui::Color;

verus! {

/// Every failure the crate reports.
#[derive(Debug, Clone)]
pub enum GtError {
    /// The current directory is not inside a repository.
    NotInGitRepo,
    /// A command was asked to run against something that is not a repository.
    NotGitRepository,
    /// A named branch does not exist.
    BranchNotFound { branch: String },
    /// A branch of that name already exists.
    BranchAlreadyExists { branch: String },
    /// The current branch could not be determined.
    CurrentBranchNotFound,
    /// Uncommitted changes stand in the way of the operation.
    UncommittedChanges,
    /// Untracked files stand in the way of the operation.
    UntrackedFiles,
    /// The working tree is not clean.
    DirtyWorkingDirectory,
    /// A commit was requested with an empty message.
    EmptyCommitMessage,
    /// A named remote does not exist.
    RemoteNotFound { remote: String },
    /// A remote operation failed.
    RemoteError { message: String },
    /// A push failed.
    PushFailed { reason: String },
    /// A pull failed.
    PullFailed { reason: String },
    /// The network retry budget was exhausted.
    NetworkTimeout { attempts: u32 },
    /// The collaboration service refused authentication.
    GitHubAuthError,
    /// A pull request could not be created or merged.
    PullRequestError { reason: String },
    /// The configuration is unusable.
    ConfigError { message: String },
    /// A configuration file is missing.
    ConfigFileNotFound { path: String },
    /// A configuration file could not be parsed.
    ConfigParseError { reason: String },
    /// The operator declined to continue.
    UserCancelled,
    /// The operator's input was not usable.
    InvalidInput { input: String },
    /// A workflow's validation step failed.
    WorkflowValidationError { reason: String },
    /// A step of a workflow failed.
    WorkflowStepError { step: String, reason: String },
    /// A precondition of the operation does not hold.
    PreconditionFailed { condition: String },
    /// A file could not be read or written.
    FileSystemError { path: String },
    /// The operation is not permitted in the current state.
    OperationNotPermitted { operation: String },
    /// The process lacks the permission for an operation.
    PermissionDenied { operation: String },
    /// The underlying repository capability failed.
    GitOperation { message: String },
    /// An input or output failure outside the repository.
    IoError { message: String },
    /// A three-way merge stopped on conflicting changes.
    MergeConflict,
    /// A rebase stopped on conflicting changes.
    RebaseConflict,
    /// A stash could not be applied without conflicts; the entry is kept.
    StashConflict,
    /// An external command failed to run.
    CommandError { command: String, error: String },
    /// A defect in this tool itself.
    InternalError { message: String },
    /// The surface exists but the behaviour behind it does not yet.
    NotImplemented { feature: String },
    /// A branch name violates the naming rule.
    InvalidBranchName { name: String },
}

/// The result type used throughout the crate.
pub type GtResult<T> = Result<T, GtError>;

/// The human-readable description of an error.
pub open spec fn spec_error_message(e: GtError) -> Seq<char> {
    match e {
        GtError::NotInGitRepo => "current directory is not a git repository"@,
        GtError::NotGitRepository => "not a usable git repository"@,
        GtError::BranchNotFound { branch } => "branch '"@ + branch@ + "' not found"@,
        GtError::BranchAlreadyExists { branch } => "branch '"@ + branch@ + "' already exists"@,
        GtError::CurrentBranchNotFound => "cannot determine the current branch"@,
        GtError::UncommittedChanges => "there are uncommitted changes"@,
        GtError::UntrackedFiles => "there are untracked files"@,
        GtError::DirtyWorkingDirectory => "the working tree is not clean"@,
        GtError::EmptyCommitMessage => "the commit message is empty"@,
        GtError::RemoteNotFound { remote } => "remote '"@ + remote@ + "' not found"@,
        GtError::RemoteError { message } => "remote operation failed: "@ + message@,
        GtError::PushFailed { reason } => "push failed: "@ + reason@,
        GtError::PullFailed { reason } => "pull failed: "@ + reason@,
        GtError::NetworkTimeout { attempts } => "network failure after "@ + spec_dec(
            attempts as nat,
        ) + " attempts"@,
        GtError::GitHubAuthError => "authentication with the collaboration service failed"@,
        GtError::PullRequestError { reason } => "pull request operation failed: "@ + reason@,
        GtError::ConfigError { message } => "configuration error: "@ + message@,
        GtError::ConfigFileNotFound { path } => "configuration file not found: "@ + path@,
        GtError::ConfigParseError { reason } => "configuration file is malformed: "@ + reason@,
        GtError::UserCancelled => "cancelled by the operator"@,
        GtError::InvalidInput { input } => "invalid input: "@ + input@,
        GtError::WorkflowValidationError { reason } => "workflow validation failed: "@ + reason@,
        GtError::WorkflowStepError { step, reason } => "workflow step '"@ + step@ + "' failed: "@
            + reason@,
        GtError::PreconditionFailed { condition } => "precondition not met: "@ + condition@,
        GtError::FileSystemError { path } => "file operation failed: "@ + path@,
        GtError::OperationNotPermitted { operation } => "operation not permitted: "@ + operation@,
        GtError::PermissionDenied { operation } => "permission denied: "@ + operation@,
        GtError::GitOperation { message } => "git operation failed: "@ + message@,
        GtError::IoError { message } => "input/output error: "@ + message@,
        GtError::MergeConflict => "merge stopped on conflicts; resolve them manually"@,
        GtError::RebaseConflict => "rebase stopped on conflicts; resolve, stage and continue, or abort"@,
        GtError::StashConflict => "stash could not be applied cleanly; the entry was kept"@,
        GtError::CommandError { command, error } => "command '"@ + command@ + "' failed: "@
            + error@,
        GtError::InternalError { message } => "internal error: "@ + message@,
        GtError::NotImplemented { feature } => "not implemented: "@ + feature@,
        GtError::InvalidBranchName { name } => "invalid branch name: "@ + name@,
    }
}

impl GtError {
    /// Builds a configuration error.
    pub fn config_error(message: String) -> (r: GtError)
        ensures
            r == (GtError::ConfigError { message }),
    {
        GtError::ConfigError { message }
    }

    /// Builds a workflow validation error.
    pub fn workflow_error(reason: String) -> (r: GtError)
        ensures
            r == (GtError::WorkflowValidationError { reason }),
    {
        GtError::WorkflowValidationError { reason }
    }

    /// Builds an internal error.
    pub fn internal_error(message: String) -> (r: GtError)
        ensures
            r == (GtError::InternalError { message }),
    {
        GtError::InternalError { message }
    }

    /// The human-readable description of the error.
    pub fn message(&self) -> (r: String)
        ensures
            r@ == spec_error_message(*self),
    {
        match self {
            GtError::NotInGitRepo => "current directory is not a git repository".to_owned(),
            GtError::NotGitRepository => "not a usable git repository".to_owned(),
            GtError::BranchNotFound { branch } => {
                let mut s = "branch '".to_owned();
                s.append(branch.as_str());
                s.append("' not found");
                s
            },
            GtError::BranchAlreadyExists { branch } => {
                let mut s = "branch '".to_owned();
                s.append(branch.as_str());
                s.append("' already exists");
                s
            },
            GtError::CurrentBranchNotFound => "cannot determine the current branch".to_owned(),
            GtError::UncommittedChanges => "there are uncommitted changes".to_owned(),
            GtError::UntrackedFiles => "there are untracked files".to_owned(),
            GtError::DirtyWorkingDirectory => "the working tree is not clean".to_owned(),
            GtError::EmptyCommitMessage => "the commit message is empty".to_owned(),
            GtError::RemoteNotFound { remote } => {
                let mut s = "remote '".to_owned();
                s.append(remote.as_str());
                s.append("' not found");
                s
            },
            GtError::RemoteError { message } => {
                let mut s = "remote operation failed: ".to_owned();
                s.append(message.as_str());
                s
            },
            GtError::PushFailed { reason } => {
                let mut s = "push failed: ".to_owned();
                s.append(reason.as_str());
                s
            },
            GtError::PullFailed { reason } => {
                let mut s = "pull failed: ".to_owned();
                s.append(reason.as_str());
                s
            },
            GtError::NetworkTimeout { attempts } => {
                let mut s = "network failure after ".to_owned();
                let n = u64_to_dec(*attempts as u64);
                s.append(n.as_str());
                s.append(" attempts");
                s
            },
            GtError::GitHubAuthError => "authentication with the collaboration service failed".to_owned(),
            GtError::PullRequestError { reason } => {
                let mut s = "pull request operation failed: ".to_owned();
                s.append(reason.as_str());
                s
            },
            GtError::ConfigError { message } => {
                let mut s = "configuration error: ".to_owned();
                s.append(message.as_str());
                s
            },
            GtError::ConfigFileNotFound { path } => {
                let mut s = "configuration file not found: ".to_owned();
                s.append(path.as_str());
                s
            },
            GtError::ConfigParseError { reason } => {
                let mut s = "configuration file is malformed: ".to_owned();
                s.append(reason.as_str());
                s
            },
            GtError::UserCancelled => "cancelled by the operator".to_owned(),
            GtError::InvalidInput { input } => {
                let mut s = "invalid input: ".to_owned();
                s.append(input.as_str());
                s
            },
            GtError::WorkflowValidationError { reason } => {
                let mut s = "workflow validation failed: ".to_owned();
                s.append(reason.as_str());
                s
            },
            GtError::WorkflowStepError { step, reason } => {
                let mut s = "workflow step '".to_owned();
                s.append(step.as_str());
                s.append("' failed: ");
                s.append(reason.as_str());
                s
            },
            GtError::PreconditionFailed { condition } => {
                let mut s = "precondition not met: ".to_owned();
                s.append(condition.as_str());
                s
            },
            GtError::FileSystemError { path } => {
                let mut s = "file operation failed: ".to_owned();
                s.append(path.as_str());
                s
            },
            GtError::OperationNotPermitted { operation } => {
                let mut s = "operation not permitted: ".to_owned();
                s.append(operation.as_str());
                s
            },
            GtError::PermissionDenied { operation } => {
                let mut s = "permission denied: ".to_owned();
                s.append(operation.as_str());
                s
            },
            GtError::GitOperation { message } => {
                let mut s = "git operation failed: ".to_owned();
                s.append(message.as_str());
                s
            },
            GtError::IoError { message } => {
                let mut s = "input/output error: ".to_owned();
                s.append(message.as_str());
                s
            },
            GtError::MergeConflict => "merge stopped on conflicts; resolve them manually".to_owned(),
            GtError::RebaseConflict => "rebase stopped on conflicts; resolve, stage and continue, or abort".to_owned(),
            GtError::StashConflict => "stash could not be applied cleanly; the entry was kept".to_owned(),
            GtError::CommandError { command, error } => {
                let mut s = "command '".to_owned();
                s.append(command.as_str());
                s.append("' failed: ");
                s.append(error.as_str());
                s
            },
            GtError::InternalError { message } => {
                let mut s = "internal error: ".to_owned();
                s.append(message.as_str());
                s
            },
            GtError::NotImplemented { feature } => {
                let mut s = "not implemented: ".to_owned();
                s.append(feature.as_str());
                s
            },
            GtError::InvalidBranchName { name } => {
                let mut s = "invalid branch name: ".to_owned();
                s.append(name.as_str());
                s
            },
        }
    }

    /// Whether the operator can recover from the error inline.
    pub fn is_recoverable(&self) -> (r: bool)
        ensures
            r == (*self is UncommittedChanges || *self is UntrackedFiles
                || *self is NetworkTimeout || *self is UserCancelled || *self is InvalidInput),
    {
        match self {
            GtError::UncommittedChanges
            | GtError::UntrackedFiles
            | GtError::NetworkTimeout { .. }
            | GtError::UserCancelled
            | GtError::InvalidInput { .. } => true,
            _ => false,
        }
    }

    /// Whether the error must be confirmed by the operator before going on.
    pub fn requires_confirmation(&self) -> (r: bool)
        ensures
            r == (*self is UncommittedChanges || *self is UntrackedFiles
                || *self is DirtyWorkingDirectory),
    {
        match self {
            GtError::UncommittedChanges
            | GtError::UntrackedFiles
            | GtError::DirtyWorkingDirectory => true,
            _ => false,
        }
    }

    /// How severe the error is.
    pub fn severity(&self) -> (r: ErrorSeverity)
        ensures
            r == spec_severity(*self),
    {
        match self {
            GtError::UserCancelled | GtError::InvalidInput { .. } => ErrorSeverity::Info,
            GtError::UncommittedChanges | GtError::UntrackedFiles => ErrorSeverity::Warning,
            GtError::NetworkTimeout { .. } | GtError::RemoteError { .. } => ErrorSeverity::Error,
            GtError::GitOperation { .. } | GtError::IoError { .. } => ErrorSeverity::Critical,
            _ => ErrorSeverity::Error,
        }
    }
}

/// The severity assigned to each error.
pub open spec fn spec_severity(e: GtError) -> ErrorSeverity {
    match e {
        GtError::UserCancelled | GtError::InvalidInput { .. } => ErrorSeverity::Info,
        GtError::UncommittedChanges | GtError::UntrackedFiles => ErrorSeverity::Warning,
        GtError::NetworkTimeout { .. } | GtError::RemoteError { .. } => ErrorSeverity::Error,
        GtError::GitOperation { .. } | GtError::IoError { .. } => ErrorSeverity::Critical,
        _ => ErrorSeverity::Error,
    }
}

/// How grave a reported failure is.
#[derive(Debug, Clone, Copy, PartialEq, Eq, Structural)]
pub enum ErrorSeverity {
    Info,
    Warning,
    Error,
    Critical,
}

impl ErrorSeverity {
    /// The colour a severity is reported in.
    pub fn color(self) -> (r: Color)
        ensures
            r == (match self {
                ErrorSeverity::Info => Color::Blue,
                ErrorSeverity::Warning => Color::Yellow,
                ErrorSeverity::Error => Color::Red,
                ErrorSeverity::Critical => Color::Purple,
            }),
    {
        match self {
            ErrorSeverity::Info => Color::Blue,
            ErrorSeverity::Warning => Color::Yellow,
            ErrorSeverity::Error => Color::Red,
            ErrorSeverity::Critical => Color::Purple,
        }
    }

    /// The icon written before a message of this severity.
    pub fn icon(self) -> (r: &'static str)
        ensures
            r@ == (match self {
                ErrorSeverity::Info => "(i)"@,
                ErrorSeverity::Warning => "(!)"@,
                ErrorSeverity::Error => "(x)"@,
                ErrorSeverity::Critical => "(X)"@,
            }),
    {
        match self {
            ErrorSeverity::Info => "(i)",
            ErrorSeverity::Warning => "(!)",
            ErrorSeverity::Error => "(x)",
            ErrorSeverity::Critical => "(X)",
        }
    }
}

/// How the tool reacts to a failure.
#[derive(Debug, Clone, Copy, PartialEq, Eq, Structural)]
pub enum RecoveryStrategy {
    /// Ask the operator what to do.
    Prompt,
    /// Retry without asking.
    AutoRetry,
    /// Go on despite the failure.
    Ignore,
    /// Stop the command.
    Abort,
}

/// The strategy chosen for each error.
pub open spec fn spec_strategy_for(e: GtError) -> RecoveryStrategy {
    match e {
        GtError::UncommittedChanges | GtError::UntrackedFiles => RecoveryStrategy::Prompt,
        GtError::NetworkTimeout { .. } | GtError::RemoteError { .. } => RecoveryStrategy::AutoRetry,
        GtError::UserCancelled => RecoveryStrategy::Abort,
        GtError::NotInGitRepo | GtError::GitOperation { .. } | GtError::IoError { .. }
            | GtError::PermissionDenied { .. } => RecoveryStrategy::Abort,
        _ => RecoveryStrategy::Prompt,
    }
}

impl RecoveryStrategy {
    /// Picks the strategy for an error.
    pub fn for_error(error: &GtError) -> (r: RecoveryStrategy)
        ensures
            r == spec_strategy_for(*error),
    {
        match error {
            GtError::UncommittedChanges | GtError::UntrackedFiles => RecoveryStrategy::Prompt,
            GtError::NetworkTimeout { .. } | GtError::RemoteError { .. } => RecoveryStrategy::AutoRetry,
            GtError::UserCancelled => RecoveryStrategy::Abort,
            GtError::NotInGitRepo
            | GtError::GitOperation { .. }
            | GtError::IoError { .. }
            | GtError::PermissionDenied { .. } => RecoveryStrategy::Abort,
            _ => RecoveryStrategy::Prompt,
        }
    }

    /// Whether the strategy runs without the operator.
    pub fn is_automatic(self) -> (r: bool)
        ensures
            r == (self is AutoRetry || self is Ignore),
    {
        match self {
            RecoveryStrategy::AutoRetry | RecoveryStrategy::Ignore => true,
            _ => false,
        }
    }

    /// Whether the strategy needs the operator to answer.
    pub fn requires_interaction(self) -> (r: bool)
        ensures
            r == (self is Prompt),
    {
        match self {
            RecoveryStrategy::Prompt => true,
            _ => false,
        }
    }
}

/// Chooses how failures are reported and recovered.
pub struct ErrorHandler {
    pub verbose: bool,
    pub interactive: bool,
}

impl ErrorHandler {
    /// Creates a handler.
    pub fn new(verbose: bool, interactive: bool) -> (r: ErrorHandler)
        ensures
            r.verbose == verbose,
            r.interactive == interactive,
    {
        ErrorHandler { verbose, interactive }
    }

    /// Whether recovery should even be attempted for an error: only
    /// recoverable errors in an interactive run are retried inline.
    pub fn should_attempt_recovery(&self, error: &GtError) -> (r: bool)
        ensures
            r == ((*error is UncommittedChanges || *error is UntrackedFiles
                || *error is NetworkTimeout || *error is UserCancelled
                || *error is InvalidInput) && self.interactive),
    {
        error.is_recoverable() && self.interactive
    }

    /// The remediation hint shown for an error, where one is known.
    pub fn get_suggestion(&self, error: &GtError) -> (r: Option<String>)
        ensures
            r is Some <==> (*error is NotInGitRepo || *error is UncommittedChanges
                || *error is UntrackedFiles || *error is BranchNotFound
                || *error is RemoteNotFound || *error is NetworkTimeout
                || *error is GitHubAuthError),
            *error matches GtError::BranchNotFound { branch } ==> r matches Some(s) && s@
                == "use 'gt start "@ + branch@ + "' to create the branch"@,
            *error matches GtError::RemoteNotFound { remote } ==> r matches Some(s) && s@
                == "use 'gt remote add "@ + remote@ + " <url>' to add the remote"@,
    {
        match error {
            GtError::NotInGitRepo => Some(
                "run this command inside a repository, or use 'gt init' to create one".to_owned(),
            ),
            GtError::UncommittedChanges => Some(
                "use 'gt save' to commit the changes, or stash them first".to_owned(),
            ),
            GtError::UntrackedFiles => Some(
                "use 'gt save' to add and commit the files, or ignore them".to_owned(),
            ),
            GtError::BranchNotFound { branch } => {
                let mut s = "use 'gt start ".to_owned();
                s.append(branch.as_str());
                s.append("' to create the branch");
                Some(s)
            },
            GtError::RemoteNotFound { remote } => {
                let mut s = "use 'gt remote add ".to_owned();
                s.append(remote.as_str());
                s.append(" <url>' to add the remote");
                Some(s)
            },
            GtError::NetworkTimeout { .. } => Some(
                "check the network connection and retry later".to_owned(),
            ),
            GtError::GitHubAuthError => Some(
                "sign in to the collaboration service and check the access token".to_owned(),
            ),
            _ => None,
        }
    }
}

} // verus!
