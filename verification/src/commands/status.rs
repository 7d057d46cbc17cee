//! The Status command surface: a report of the working tree, optionally
//! with the remote relation and the recent history. The full report is
//! not wired up yet; the gap is reported, never silently ignored.

use vstd::prelude::*;
use crate::errors::{GtError, GtResult};

verus! {

/// The Status command.
pub struct StatusCommand {
    /// Also report the relation to the remote.
    pub remote: bool,
    /// Also report the recent history.
    pub log: bool,
}

impl StatusCommand {
    /// Creates the command.
    pub fn new(remote: bool, log: bool) -> (r: StatusCommand)
        ensures
            r.remote == remote,
            r.log == log,
    {
        StatusCommand { remote, log }
    }

    /// Runs the command; the full report is not wired up yet.
    pub fn execute(self) -> (r: GtResult<()>)
        ensures
            r matches Err(e) && e is NotImplemented,
    {
        Err(GtError::NotImplemented { feature: "status command".to_owned() })
    }
}

} // verus!
