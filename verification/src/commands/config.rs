//! The Config command surface: showing, setting and migrating the
//! configuration. The behaviour behind it is not wired up yet; the gap is
//! reported, never silently ignored.

use vstd::prelude::*;
use crate::cli::ConfigAction;
use crate::errors::{GtError, GtResult};

verus! {

/// The Config command.
pub struct ConfigCommand {
    /// The chosen configuration action; a bare invocation shows the
    /// configuration.
    pub action: Option<ConfigAction>,
}

impl ConfigCommand {
    /// Creates the command.
    pub fn new(action: Option<ConfigAction>) -> (r: ConfigCommand)
        ensures
            r.action == action,
    {
        ConfigCommand { action }
    }

    /// Runs the command; the behaviour is not wired up yet.
    pub fn execute(self) -> (r: GtResult<()>)
        ensures
            r matches Err(e) && e is NotImplemented,
    {
        Err(GtError::NotImplemented { feature: "config command".to_owned() })
    }
}

} // verus!
