//! The workflow engine surface: running named workflow steps. The engine
//! behind it is not wired up yet; the gap is reported, never silently
//! ignored.

use vstd::prelude::*;
use crate::errors::{GtError, GtResult};

verus! {

/// A placeholder engine for scripted workflows.
pub struct WorkflowEngine {
}

impl WorkflowEngine {
    /// Creates the engine.
    pub fn new() -> WorkflowEngine {
        WorkflowEngine {}
    }

    /// Running a named step is not wired up yet; the gap is reported,
    /// never silently ignored.
    pub fn execute_step(&self, _step: &str) -> (r: GtResult<()>)
        ensures
            r matches Err(e) && e is NotImplemented,
    {
        Err(GtError::NotImplemented { feature: "workflow execution".to_owned() })
    }
}

} // verus!
