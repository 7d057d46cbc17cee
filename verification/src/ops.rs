//! Options and results of the plain repository operations — staging,
//! fetching, pushing, resetting — and their convenience entry points.

use vstd::prelude::*;
use vstd::string::*;
use crate::errors::{GtError, GtResult};
use crate::repo::{Repository, ResetType};
use crate::ui::{print_step, print_success};

verus! {

/// What staging is asked to do.
#[derive(Debug, Clone)]
pub struct AddOptions {
    /// Stage every change, deletions included.
    pub all: bool,
    /// Stage ignored files too.
    pub force: bool,
    /// Stage tracked files only.
    pub update: bool,
    /// Report what was staged.
    pub verbose: bool,
}

impl Default for AddOptions {
    /// Stage the named files quietly.
    fn default() -> (r: AddOptions)
        ensures
            !r.all,
            !r.force,
            !r.update,
            !r.verbose,
    {
        AddOptions { all: false, force: false, update: false, verbose: false }
    }
}

/// What staging did.
#[derive(Debug, Clone)]
pub struct AddResult {
    /// The staged paths.
    pub added_files: Vec<String>,
    /// The options the staging ran under.
    pub options: AddOptions,
}

impl AddResult {
    /// How many paths were staged.
    pub fn file_count(&self) -> (r: usize)
        ensures
            r == self.added_files@.len(),
    {
        self.added_files.len()
    }

    /// Whether anything was staged.
    pub fn has_files(&self) -> (r: bool)
        ensures
            r == (self.added_files@.len() > 0),
    {
        self.added_files.len() > 0
    }
}

/// Stages every change in the working tree.
pub fn add_all(repo: &mut Repository, verbose: bool) -> (r: GtResult<AddResult>)
    ensures
        r matches Ok(res) ==> res.options.all && res.options.verbose == verbose,
{
    repo.add_all()?;
    if verbose {
        print_success("staged every change");
    }
    let mut added_files: Vec<String> = Vec::new();
    added_files.push("all changed files".to_owned());
    Ok(AddResult {
        added_files,
        options: AddOptions { all: true, force: false, update: false, verbose },
    })
}

/// Stages the named files.
pub fn add_files(repo: &mut Repository, files: &Vec<String>, verbose: bool) -> (r: GtResult<
    AddResult,
>)
    ensures
        r matches Ok(res) ==> res.added_files@ == files@ && !res.options.all
            && res.options.verbose == verbose,
{
    repo.add_files(files)?;
    if verbose {
        print_success("staged the named files");
    }
    Ok(AddResult {
        added_files: files.clone(),
        options: AddOptions { all: false, force: false, update: false, verbose },
    })
}

/// What fetching is asked to do.
#[derive(Debug, Clone)]
pub struct FetchOptions {
    /// Fetch every remote.
    pub all: bool,
    /// Fetch tags too.
    pub tags: bool,
    /// Force-update the refs.
    pub force: bool,
    /// Report what was fetched.
    pub verbose: bool,
    /// Drop refs the remote no longer has.
    pub prune: bool,
}

impl Default for FetchOptions {
    /// Fetch one remote quietly.
    fn default() -> (r: FetchOptions)
        ensures
            !r.all,
            !r.tags,
            !r.force,
            !r.verbose,
            !r.prune,
    {
        FetchOptions { all: false, tags: false, force: false, verbose: false, prune: false }
    }
}

/// What fetching did.
#[derive(Debug, Clone)]
pub struct FetchResult {
    /// The remotes that were fetched.
    pub fetched_remotes: Vec<String>,
    /// The refs that moved.
    pub updated_refs: Vec<String>,
    /// The options the fetch ran under.
    pub options: FetchOptions,
}

impl FetchResult {
    /// How many remotes were fetched.
    pub fn remote_count(&self) -> (r: usize)
        ensures
            r == self.fetched_remotes@.len(),
    {
        self.fetched_remotes.len()
    }

    /// Whether anything was fetched.
    pub fn is_success(&self) -> (r: bool)
        ensures
            r == (self.fetched_remotes@.len() > 0),
    {
        self.fetched_remotes.len() > 0
    }
}

/// Fetches the default remote.
pub fn fetch_origin(repo: &Repository, verbose: bool) -> (r: GtResult<FetchResult>)
    ensures
        r matches Ok(res) ==> res.fetched_remotes@.len() == 1 && res.fetched_remotes@[0]@
            == "origin"@ && res.options.verbose == verbose,
        r matches Err(e) ==> e is RemoteNotFound || e is GitOperation,
{
    fetch_remote(repo, "origin", verbose)
}

/// Fetches one named remote, which must be configured.
pub fn fetch_remote(repo: &Repository, remote: &str, verbose: bool) -> (r: GtResult<FetchResult>)
    ensures
        r matches Ok(res) ==> res.fetched_remotes@.len() == 1 && res.fetched_remotes@[0]@
            == remote@ && res.options.verbose == verbose,
        r matches Err(e) ==> e is RemoteNotFound || e is GitOperation,
{
    if !repo.remote_exists(remote)? {
        return Err(GtError::RemoteNotFound { remote: remote.to_owned() });
    }
    repo.fetch(remote)?;
    if verbose {
        print_success("fetched the remote");
    }
    let mut fetched_remotes: Vec<String> = Vec::new();
    fetched_remotes.push(remote.to_owned());
    Ok(FetchResult {
        fetched_remotes,
        updated_refs: Vec::new(),
        options: FetchOptions {
            all: false,
            tags: false,
            force: false,
            verbose,
            prune: false,
        },
    })
}

/// Fetches every configured remote; the first failure stops the walk.
pub fn fetch_all(repo: &Repository, verbose: bool) -> (r: GtResult<FetchResult>)
    ensures
        r matches Ok(res) ==> res.options.all && res.options.verbose == verbose,
        r matches Err(e) ==> e is RemoteNotFound || e is GitOperation,
{
    let remotes = repo.list_remotes()?;
    let mut fetched_remotes: Vec<String> = Vec::new();
    let n = remotes.len();
    let mut i: usize = 0;
    while i < n
        invariant
            0 <= i <= n,
            n == remotes@.len(),
        decreases n - i,
    {
        if verbose {
            print_step("fetching a remote");
        }
        repo.fetch(remotes[i].name.as_str())?;
        fetched_remotes.push(remotes[i].name.clone());
        i += 1;
    }
    Ok(FetchResult {
        fetched_remotes,
        updated_refs: Vec::new(),
        options: FetchOptions {
            all: true,
            tags: false,
            force: false,
            verbose,
            prune: false,
        },
    })
}

/// What pushing is asked to do.
#[derive(Debug, Clone)]
pub struct PushOptions {
    /// Replace the remote ref even where it diverged.
    pub force: bool,
    /// Record the remote branch as the upstream.
    pub set_upstream: bool,
    /// Report what was pushed.
    pub verbose: bool,
}

impl Default for PushOptions {
    /// A plain quiet push.
    fn default() -> (r: PushOptions)
        ensures
            !r.force,
            !r.set_upstream,
            !r.verbose,
    {
        PushOptions { force: false, set_upstream: false, verbose: false }
    }
}

/// What pushing did.
#[derive(Debug, Clone)]
pub struct PushResult {
    /// The remote pushed to.
    pub remote: String,
    /// The branch pushed.
    pub branch: String,
    /// The options the push ran under.
    pub options: PushOptions,
}

/// Pushes the current branch to the default remote.
pub fn push_current(repo: &Repository, verbose: bool) -> (r: GtResult<PushResult>)
    ensures
        r matches Ok(res) ==> res.remote@ == "origin"@ && res.branch@ == repo@.head
            && res.options.verbose == verbose,
{
    let branch = repo.current_branch()?;
    if verbose {
        print_step("pushing the current branch");
    }
    repo.push("origin", Some(branch.as_str()))?;
    if verbose {
        print_success("push complete");
    }
    Ok(PushResult {
        remote: "origin".to_owned(),
        branch,
        options: PushOptions { force: false, set_upstream: false, verbose },
    })
}

/// Pushes a branch for the first time, recording the upstream.
pub fn push_set_upstream(repo: &Repository, remote: &str, branch: &str, verbose: bool) -> (r:
    GtResult<PushResult>)
    ensures
        r matches Ok(res) ==> res.remote@ == remote@ && res.branch@ == branch@
            && res.options.set_upstream && res.options.verbose == verbose,
{
    if verbose {
        print_step("pushing the branch and recording its upstream");
    }
    repo.push(remote, Some(branch))?;
    if verbose {
        print_success("push complete; the upstream is recorded");
    }
    Ok(PushResult {
        remote: remote.to_owned(),
        branch: branch.to_owned(),
        options: PushOptions { force: false, set_upstream: true, verbose },
    })
}

/// What a reset did.
#[derive(Debug, Clone)]
pub struct ResetResult {
    /// The revision the branch was reset to.
    pub target: String,
    /// The kind of reset.
    pub reset_type: ResetType,
    /// Whether the reset was reported.
    pub verbose: bool,
}

/// Resets softly: the index and the working tree stay.
pub fn reset_soft(repo: &mut Repository, target: &str, verbose: bool) -> (r: GtResult<ResetResult>)
    ensures
        r matches Ok(res) ==> res.target@ == target@ && res.reset_type is Soft && res.verbose
            == verbose,
{
    repo.reset_soft(target)?;
    if verbose {
        print_success("soft reset complete; index and working tree kept");
    }
    Ok(ResetResult { target: target.to_owned(), reset_type: ResetType::Soft, verbose })
}

/// Resets the index, keeping the working tree.
pub fn reset_mixed(repo: &mut Repository, target: &str, verbose: bool) -> (r: GtResult<
    ResetResult,
>)
    ensures
        r matches Ok(res) ==> res.target@ == target@ && res.reset_type is Mixed && res.verbose
            == verbose,
{
    repo.reset_mixed(target)?;
    if verbose {
        print_success("mixed reset complete; working tree kept, index cleared");
    }
    Ok(ResetResult { target: target.to_owned(), reset_type: ResetType::Mixed, verbose })
}

/// Resets hard: the index and the tracked files' changes are discarded.
pub fn reset_hard(repo: &mut Repository, target: &str, verbose: bool) -> (r: GtResult<ResetResult>)
    ensures
        r matches Ok(res) ==> res.target@ == target@ && res.reset_type is Hard && res.verbose
            == verbose,
{
    repo.reset_hard(target)?;
    if verbose {
        print_success("hard reset complete; uncommitted changes discarded");
    }
    Ok(ResetResult { target: target.to_owned(), reset_type: ResetType::Hard, verbose })
}

/// A placeholder manager for stash operations outside the repository
/// handle.
pub struct StashManager {
}

impl StashManager {
    /// Creates the manager.
    pub fn new() -> StashManager {
        StashManager {}
    }

    /// Stashing through this manager is not wired up yet; the repository
    /// handle's stash operations do the work.
    pub fn stash(&self, _message: Option<&str>) -> (r: GtResult<()>)
        ensures
            r matches Err(e) && e is NotImplemented,
    {
        Err(GtError::NotImplemented { feature: "stash manager".to_owned() })
    }
}

/// A placeholder manager for remote operations outside the repository
/// handle.
pub struct RemoteManager {
}

impl RemoteManager {
    /// Creates the manager.
    pub fn new() -> RemoteManager {
        RemoteManager {}
    }

    /// Pushing through this manager is not wired up yet; the repository
    /// handle's push does the work.
    pub fn push(&self, _remote: &str, _branch: &str) -> (r: GtResult<()>)
        ensures
            r matches Err(e) && e is NotImplemented,
    {
        Err(GtError::NotImplemented { feature: "remote manager push".to_owned() })
    }
}

} // verus!
