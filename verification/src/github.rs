//! The collaboration-service integration: the command-line client's
//! abstraction and the pull-request operations built over it.

use vstd::prelude::*;
use crate::errors::{GtError, GtResult};

pub mod cli;
pub mod pr;

verus! {

/// A placeholder client for the collaboration service's API.
pub struct GitHubClient {
}

impl GitHubClient {
    /// Creates the client.
    pub fn new() -> GitHubClient {
        GitHubClient {}
    }

    /// Creating a pull request through the API is not wired up yet; the
    /// gap is reported, never silently ignored.
    pub fn create_pull_request(&self, _title: &str, _body: &str) -> (r: GtResult<()>)
        ensures
            r matches Err(e) && e is NotImplemented,
    {
        Err(GtError::NotImplemented { feature: "pull request creation over the API".to_owned() })
    }
}

} // verus!
