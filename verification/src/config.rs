//! Tool-wide configuration: the defaults a run starts from, and the
//! manager that owns them.

use vstd::prelude::*;
use vstd::string::*;
use crate::errors::{GtError, GtResult};

pub mod repository;

verus! {

/// The tool-wide settings.
#[derive(Debug, Clone)]
pub struct GtConfig {
    /// A token for the collaboration service, where one is configured.
    pub github_token: Option<String>,
    /// The remote used when none is named.
    pub default_remote: String,
    /// The branch new work is based on when none is named.
    pub default_base: String,
    /// Whether saved work is pushed without being asked for.
    pub auto_push: bool,
    /// Whether progress is reported verbosely.
    pub verbose: bool,
}

impl Default for GtConfig {
    /// The conservative defaults: `origin`, `main`, push automatically,
    /// stay quiet.
    fn default() -> (r: GtConfig)
        ensures
            r.github_token is None,
            r.default_remote@ == "origin"@,
            r.default_base@ == "main"@,
            r.auto_push == true,
            r.verbose == false,
    {
        GtConfig {
            github_token: None,
            default_remote: "origin".to_owned(),
            default_base: "main".to_owned(),
            auto_push: true,
            verbose: false,
        }
    }
}

/// Owns the tool-wide settings for a run.
pub struct ConfigManager {
    pub config: GtConfig,
}

impl ConfigManager {
    /// Creates a manager holding the defaults.
    pub fn new() -> (r: ConfigManager)
        ensures
            r.config.default_remote@ == "origin"@,
            r.config.default_base@ == "main"@,
    {
        ConfigManager { config: GtConfig::default() }
    }

    /// The settings held.
    pub fn config(&self) -> (r: &GtConfig)
        ensures
            r == self.config,
    {
        &self.config
    }

    /// Loading settings from a file is not wired up yet; the gap is
    /// reported, never silently ignored.
    pub fn load(&mut self) -> (r: GtResult<()>)
        ensures
            r matches Err(e) && e is NotImplemented,
            *final(self) == *old(self),
    {
        Err(GtError::NotImplemented { feature: "config loading".to_owned() })
    }

    /// Saving settings to a file is not wired up yet; the gap is reported,
    /// never silently ignored.
    pub fn save(&self) -> (r: GtResult<()>)
        ensures
            r matches Err(e) && e is NotImplemented,
    {
        Err(GtError::NotImplemented { feature: "config saving".to_owned() })
    }
}

} // verus!
