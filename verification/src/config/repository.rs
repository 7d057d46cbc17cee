//! Per-repository configuration: the remote name, the main branch and the
//! retry budget, resolved once per run from explicit overrides and the
//! repository itself, immutable afterwards.

use vstd::prelude::*;
use vstd::string::*;
use crate::errors::{GtError, GtResult};
use crate::repo::Repository;

verus! {

/// The configuration one repository run works under.
#[derive(Debug, Clone)]
pub struct RepoConfig {
    /// The remote pushed to and pulled from.
    pub remote_name: String,
    /// The branch that work is integrated into.
    pub main_branch: String,
    /// How many times a network operation is attempted.
    pub max_attempts: usize,
    /// The pause between attempts, in seconds.
    pub delay_seconds: u64,
}

impl Default for RepoConfig {
    /// The conservative defaults: `origin`, `main`, 50 attempts one
    /// second apart.
    fn default() -> (r: RepoConfig)
        ensures
            r.remote_name@ == "origin"@,
            r.main_branch@ == "main"@,
            r.max_attempts == 50,
            r.delay_seconds == 1,
    {
        RepoConfig {
            remote_name: "origin".to_owned(),
            main_branch: "main".to_owned(),
            max_attempts: 50,
            delay_seconds: 1,
        }
    }
}

/// The overrides the environment supplies to configuration resolution;
/// the caller reads them out of the process environment and hands them in
/// as plain values.
#[derive(Debug, Clone)]
pub struct ConfigOverrides {
    /// Overrides the remote name.
    pub remote_name: Option<String>,
    /// Overrides the retry budget.
    pub max_attempts: Option<usize>,
    /// Overrides the pause between attempts.
    pub delay_seconds: Option<u64>,
    /// The fallback main-branch name when no probe finds one.
    pub default_main_branch: Option<String>,
}

impl Default for ConfigOverrides {
    /// No overrides.
    fn default() -> (r: ConfigOverrides)
        ensures
            r.remote_name is None,
            r.max_attempts is None,
            r.delay_seconds is None,
            r.default_main_branch is None,
    {
        ConfigOverrides {
            remote_name: None,
            max_attempts: None,
            delay_seconds: None,
            default_main_branch: None,
        }
    }
}

impl RepoConfig {
    /// Resolves the configuration for a run: the defaults, the supplied
    /// overrides, and the detected main branch.
    pub fn from_env_and_repo(repo: &Repository, overrides: ConfigOverrides) -> (r: GtResult<
        RepoConfig,
    >)
        ensures
            r matches Ok(c) ==> (match overrides.remote_name {
                Some(n) => c.remote_name == n,
                None => c.remote_name@ == "origin"@,
            }),
            r matches Ok(c) ==> (match overrides.max_attempts {
                Some(n) => c.max_attempts == n,
                None => c.max_attempts == 50,
            }),
            r matches Ok(c) ==> (match overrides.delay_seconds {
                Some(n) => c.delay_seconds == n,
                None => c.delay_seconds == 1,
            }),
            r matches Ok(c) ==> (repo@.branches.contains_key("main"@) ==> c.main_branch@
                == "main"@),
            r matches Ok(c) ==> (overrides.default_main_branch is None ==> c.main_branch@
                == "main"@ || c.main_branch@ == "master"@),
    {
        let mut config = RepoConfig::default();
        match overrides.remote_name {
            Some(n) => {
                config.remote_name = n;
            },
            None => {},
        }
        match overrides.max_attempts {
            Some(n) => {
                config.max_attempts = n;
            },
            None => {},
        }
        match overrides.delay_seconds {
            Some(n) => {
                config.delay_seconds = n;
            },
            None => {},
        }
        config.main_branch = Self::detect_main_branch(repo, overrides.default_main_branch)?;
        Ok(config)
    }

    /// Detects the main branch: a local `main`, else a local `master`,
    /// else their remote-tracking counterparts under each configured
    /// remote, else the supplied fallback, else `main`.
    pub fn detect_main_branch(repo: &Repository, fallback: Option<String>) -> (r: GtResult<
        String,
    >)
        ensures
            r matches Ok(name) ==> (repo@.branches.contains_key("main"@) ==> name@ == "main"@),
            r matches Ok(name) ==> (!repo@.branches.contains_key("main"@)
                && repo@.branches.contains_key("master"@) ==> name@ == "master"@),
            r matches Ok(name) ==> (fallback is None ==> name@ == "main"@ || name@ == "master"@),
            r matches Ok(name) ==> (fallback matches Some(f) ==> name@ == "main"@ || name@
                == "master"@ || name == f),
    {
        if repo.branch_exists("main")? {
            return Ok("main".to_owned());
        }
        if repo.branch_exists("master")? {
            return Ok("master".to_owned());
        }
        let remotes = repo.list_remotes()?;
        let n = remotes.len();
        let mut i: usize = 0;
        while i < n
            invariant
                0 <= i <= n,
                n == remotes@.len(),
                !repo@.branches.contains_key("main"@),
                !repo@.branches.contains_key("master"@),
            decreases n - i,
        {
            if repo.remote_branch_exists(remotes[i].name.as_str(), "main") {
                return Ok("main".to_owned());
            }
            if repo.remote_branch_exists(remotes[i].name.as_str(), "master") {
                return Ok("master".to_owned());
            }
            i += 1;
        }
        match fallback {
            Some(name) => Ok(name),
            None => Ok("main".to_owned()),
        }
    }

    /// Checks that the configured remote exists in the repository: the
    /// probe's answer is judged by [`judge_remote_presence`].
    pub fn validate(&self, repo: &Repository) -> (r: GtResult<()>)
        ensures
            r matches Err(e) ==> e is ConfigError || e is GitOperation,
    {
        let exists = repo.remote_exists(self.remote_name.as_str())?;
        judge_remote_presence(self.remote_name.as_str(), exists)
    }

    /// The full remote-tracking name of the main branch.
    pub fn main_branch_remote_ref(&self) -> (r: String)
        ensures
            r@ == self.remote_name@ + "/"@ + self.main_branch@,
    {
        let mut s = self.remote_name.clone();
        s.append("/");
        s.append(self.main_branch.as_str());
        s
    }
}

/// Judges a remote's presence: a configuration naming an absent remote is
/// unusable, and a present one passes.
pub fn judge_remote_presence(remote_name: &str, exists: bool) -> (r: GtResult<()>)
    ensures
        r is Ok <==> exists,
        r matches Err(e) ==> e matches GtError::ConfigError { message } && message@ == "remote '"@
            + remote_name@ + "' does not exist"@,
{
    if exists {
        Ok(())
    } else {
        let mut msg = "remote '".to_owned();
        msg.append(remote_name);
        msg.append("' does not exist");
        Err(GtError::ConfigError { message: msg })
    }
}

/// Owns the per-repository configuration for a run.
pub struct ConfigManager {
    pub repo_config: RepoConfig,
}

impl ConfigManager {
    /// Resolves and validates the configuration once.
    pub fn new(repo: &Repository, overrides: ConfigOverrides) -> (r: GtResult<ConfigManager>) {
        let repo_config = RepoConfig::from_env_and_repo(repo, overrides)?;
        repo_config.validate(repo)?;
        Ok(ConfigManager { repo_config })
    }

    /// The resolved configuration.
    pub fn repo_config(&self) -> (r: &RepoConfig)
        ensures
            r == self.repo_config,
    {
        &self.repo_config
    }

    /// Replaces the main-branch name.
    pub fn update_main_branch(&mut self, branch: String)
        ensures
            final(self).repo_config.main_branch == branch,
            final(self).repo_config.remote_name == old(self).repo_config.remote_name,
            final(self).repo_config.max_attempts == old(self).repo_config.max_attempts,
            final(self).repo_config.delay_seconds == old(self).repo_config.delay_seconds,
    {
        self.repo_config.main_branch = branch;
    }

    /// Replaces the remote name.
    pub fn update_remote_name(&mut self, remote: String)
        ensures
            final(self).repo_config.remote_name == remote,
            final(self).repo_config.main_branch == old(self).repo_config.main_branch,
            final(self).repo_config.max_attempts == old(self).repo_config.max_attempts,
            final(self).repo_config.delay_seconds == old(self).repo_config.delay_seconds,
    {
        self.repo_config.remote_name = remote;
    }
}

} // verus!
