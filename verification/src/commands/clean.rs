//! The Clean command surface: deleting a finished branch after switching
//! to and refreshing the main branch. The behaviour behind it is not
//! wired up yet; the gap is reported, never silently ignored.

use vstd::prelude::*;
use crate::errors::{GtError, GtResult};

verus! {

/// The Clean command.
pub struct CleanCommand {
    /// The branch to delete.
    pub branch: String,
}

impl CleanCommand {
    /// Creates the command.
    pub fn new(branch: String) -> (r: CleanCommand)
        ensures
            r.branch == branch,
    {
        CleanCommand { branch }
    }

    /// Runs the command; the behaviour is not wired up yet.
    pub fn execute(self) -> (r: GtResult<()>)
        ensures
            r matches Err(e) && e is NotImplemented,
    {
        Err(GtError::NotImplemented { feature: "clean command".to_owned() })
    }
}

} // verus!
