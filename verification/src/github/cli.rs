//! The command-line client of the collaboration service, as far as the
//! workflows reason about it: its verbosity, its authentication states
//! and the rule for when a run may proceed.

use vstd::prelude::*;
use crate::errors::{GtError, GtResult};

verus! {

/// The authentication state the client reports.
#[derive(Debug, Clone, PartialEq)]
pub enum GithubAuth {
    /// Signed in, as this user.
    Authenticated(String),
    /// Not signed in.
    NotAuthenticated,
    /// The state could not be determined.
    Unknown,
}

/// The command-line client's handle.
#[derive(Debug, Clone)]
pub struct GithubCli {
    pub verbose: bool,
}

impl GithubCli {
    /// Creates the handle.
    pub fn new(verbose: bool) -> (r: GithubCli)
        ensures
            r.verbose == verbose,
    {
        GithubCli { verbose }
    }

    /// Whether the handle reports verbosely.
    pub fn is_verbose(&self) -> (r: bool)
        ensures
            r == self.verbose,
    {
        self.verbose
    }
}

impl Default for GithubCli {
    /// A verbose handle.
    fn default() -> (r: GithubCli)
        ensures
            r.verbose == true,
    {
        GithubCli::new(true)
    }
}

/// A quiet handle.
pub fn github_cli_silent() -> (r: GithubCli)
    ensures
        !r.verbose,
{
    GithubCli::new(false)
}

/// Whether a run may proceed under an authentication state: a signed-in
/// user may; a signed-out one is refused; an undetermined state is let
/// through for the next call to judge.
pub fn auth_requirement(auth: &GithubAuth) -> (r: GtResult<()>)
    ensures
        r is Ok <==> (*auth is Authenticated || *auth is Unknown),
        r matches Err(e) ==> e is GitHubAuthError,
{
    match auth {
        GithubAuth::Authenticated(_) => Ok(()),
        GithubAuth::NotAuthenticated => Err(GtError::GitHubAuthError),
        GithubAuth::Unknown => Ok(()),
    }
}

} // verus!
