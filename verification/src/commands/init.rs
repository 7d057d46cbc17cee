//! The Init command surface: creating a repository at a path. The
//! behaviour behind it is not wired up yet; the gap is reported, never
//! silently ignored.

use vstd::prelude::*;
use crate::errors::{GtError, GtResult};

verus! {

/// The Init command.
pub struct InitCommand {
    /// Where the repository is created; the current directory when
    /// absent.
    pub path: Option<String>,
}

impl InitCommand {
    /// Creates the command.
    pub fn new(path: Option<String>) -> (r: InitCommand)
        ensures
            r.path == path,
    {
        InitCommand { path }
    }

    /// Runs the command; the behaviour is not wired up yet.
    pub fn execute(self) -> (r: GtResult<()>)
        ensures
            r matches Err(e) && e is NotImplemented,
    {
        Err(GtError::NotImplemented { feature: "init command".to_owned() })
    }
}

} // verus!
