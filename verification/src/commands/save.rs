//! The Save workflow: stage the chosen files (or everything), report a
//! no-op when nothing is staged, resolve the commit message — supplied
//! directly or collected line by line — and create the commit. An empty
//! message is a hard failure and no commit is made.

use vstd::prelude::*;
use vstd::string::*;
use crate::errors::{GtError, GtResult};
use crate::repo::Repository;
use crate::status::WorkingTreeStatus;
use crate::ui::{print_step, print_warning};

verus! {

/// What a Save run is asked to do.
#[derive(Debug, Clone)]
pub struct SaveOptions {
    /// The commit message, where one was supplied.
    pub message: Option<String>,
    /// Edit the message interactively even when one was supplied.
    pub edit: bool,
    /// The files to stage; empty means every change.
    pub files: Vec<String>,
    /// Stage every change.
    pub add_all: bool,
}

impl Default for SaveOptions {
    /// Stage everything, ask for the message.
    fn default() -> (r: SaveOptions)
        ensures
            r.message is None,
            !r.edit,
            r.files@.len() == 0,
            r.add_all,
    {
        SaveOptions { message: None, edit: false, files: Vec::new(), add_all: true }
    }
}

/// The Save command.
pub struct SaveCommand {
    pub options: SaveOptions,
}

/// The lines of a collected message joined with newlines.
pub open spec fn spec_joined_lines(lines: Seq<Seq<char>>) -> Seq<char>
    decreases lines.len(),
{
    if lines.len() == 0 {
        Seq::empty()
    } else if lines.len() == 1 {
        lines[0]
    } else {
        spec_joined_lines(lines.drop_last()) + "\n"@ + lines.last()
    }
}

impl SaveCommand {
    /// Creates the command; with no files named, every change is staged.
    pub fn new(message: Option<String>, edit: bool, files: Vec<String>) -> (r: SaveCommand)
        ensures
            r.options.message == message,
            r.options.edit == edit,
            r.options.files == files,
            r.options.add_all == (files@.len() == 0),
    {
        let add_all = files.len() == 0;
        SaveCommand { options: SaveOptions { message, edit, files, add_all } }
    }

    /// Stages what the request names: the listed files, or every change
    /// when none were listed.
    pub fn add_files(&self, repo: &mut Repository) -> (r: GtResult<()>)
        ensures
            final(repo)@.head == old(repo)@.head,
            final(repo)@.branches == old(repo)@.branches,
            final(repo)@.stashes == old(repo)@.stashes,
            r matches Err(e) ==> e is GitOperation,
    {
        if self.options.add_all {
            print_step("staging all changes");
            repo.add_all()
        } else if self.options.files.len() > 0 {
            print_step("staging the named files");
            repo.add_files(&self.options.files)
        } else {
            print_step("no files named; staging all changes");
            repo.add_all()
        }
    }

    /// Whether the staged state is worth a commit; without staged changes
    /// the run is a no-op, reported but not failed.
    pub fn should_commit(&self, status: &WorkingTreeStatus) -> (r: bool)
        ensures
            r == status.has_staged_changes,
    {
        if !status.has_staged_changes {
            if self.options.add_all {
                print_warning("no changes to save were found");
            } else {
                print_warning("the named files brought no staged changes");
            }
            return false;
        }
        true
    }

    /// Resolves the commit message from the request and, where needed,
    /// from interactively collected lines: a supplied message is used as
    /// it stands unless editing was asked for; under editing, the operator
    /// either accepts the supplied message or the collected lines replace
    /// it; with no supplied message the collected lines are the message.
    /// Empty collected lines are a hard failure: no commit is made of an
    /// empty message.
    pub fn resolve_commit_message(&self, accepted_supplied: bool, lines: &Vec<String>) -> (r:
        GtResult<String>)
        ensures
            (match self.options.message {
                Some(m) => !self.options.edit ==> (r matches Ok(s) && s == m),
                None => true,
            }),
            (match self.options.message {
                Some(m) => self.options.edit && accepted_supplied ==> (r matches Ok(s) && s == m),
                None => true,
            }),
            (self.options.message is None || (self.options.edit && !accepted_supplied)) ==> (
            if lines@.len() == 0 {
                r matches Err(e) && e is EmptyCommitMessage
            } else {
                r matches Ok(s) && s@ == spec_joined_lines(lines@.map_values(|l: String| l@))
            }),
            r matches Err(e) ==> e is EmptyCommitMessage,
    {
        match &self.options.message {
            Some(m) => {
                if !self.options.edit {
                    return Ok(m.clone());
                }
                if accepted_supplied {
                    return Ok(m.clone());
                }
                join_lines(lines)
            },
            None => join_lines(lines),
        }
    }

    /// Creates the commit with the resolved message.
    pub fn commit_changes(&self, repo: &mut Repository, message: &str) -> (r: GtResult<()>)
        ensures
            r is Ok ==> final(repo)@.head == old(repo)@.head && final(repo)@.stashes == old(
                repo,
            )@.stashes,
            r matches Err(e) ==> e is ConfigError || e is GitOperation,
    {
        print_step("committing the staged changes");
        repo.create_commit(message)
    }
}

/// Joins collected message lines with newlines; empty input is the
/// empty-message failure.
pub fn join_lines(lines: &Vec<String>) -> (r: GtResult<String>)
    ensures
        lines@.len() == 0 <==> (r matches Err(e) && e is EmptyCommitMessage),
        lines@.len() > 0 ==> (r matches Ok(s) && s@ == spec_joined_lines(
            lines@.map_values(|l: String| l@),
        )),
{
    if lines.len() == 0 {
        return Err(GtError::EmptyCommitMessage);
    }
    let mut message = lines[0].clone();
    let n = lines.len();
    let mut i: usize = 1;
    while i < n
        invariant
            1 <= i <= n,
            n == lines@.len(),
            message@ == spec_joined_lines(lines@.take(i as int).map_values(|l: String| l@)),
        decreases n - i,
    {
        proof {
            let mapped_next = lines@.take(i + 1).map_values(|l: String| l@);
            let mapped_cur = lines@.take(i as int).map_values(|l: String| l@);
            assert(mapped_next.drop_last() =~= mapped_cur);
            assert(mapped_next.last() == lines@[i as int]@);
        }
        message.append("\n");
        message.append(lines[i].as_str());
        i += 1;
    }
    proof {
        assert(lines@.take(n as int) =~= lines@);
    }
    Ok(message)
}


/// Where a Save session stands.
#[derive(Debug, Clone, Copy, PartialEq, Eq, Structural)]
pub enum SavePhase {
    /// Nothing done yet.
    Started,
    /// The requested files (or everything) are staged.
    FilesStaged,
    /// The staged state is classified; `staged` says what it showed.
    StagedChecked,
    /// A non-empty commit message is resolved.
    MessageResolved,
    /// The commit is made.
    Committed,
    /// The session is over.
    Finished,
}

/// What the session asks the caller to perform next.
#[derive(Debug, Clone, Copy, PartialEq, Eq, Structural)]
pub enum SaveAction {
    StageFiles,
    CheckStaged,
    ResolveMessage,
    Commit,
    Done,
}

/// One Save run in flight.
#[derive(Debug, Clone, Copy, PartialEq, Eq, Structural)]
pub struct SaveSession {
    /// The staging check found staged changes; the caller records the
    /// answer after performing `CheckStaged`.
    pub staged: bool,
    /// Where the session stands.
    pub phase: SavePhase,
}

impl SaveSession {
    /// Begins a session.
    pub fn begin() -> (r: SaveSession)
        ensures
            r == (SaveSession { staged: false, phase: SavePhase::Started }),
    {
        SaveSession { staged: false, phase: SavePhase::Started }
    }
}

impl SaveCommand {
    /// One step of the Save session: stage, classify, and only then
    /// resolve the message and commit — the commit is asked for only
    /// after a message was resolved, so a failed (empty) resolution stops
    /// the session before any commit; without staged changes the run ends
    /// as a no-op. The caller performs each returned action and aborts
    /// the session on its failure.
    pub fn next_step(&self, s: SaveSession) -> (r: (SaveSession, SaveAction))
        ensures
            r.0.staged == s.staged,
            s.phase is Started ==> r.1 is StageFiles && r.0.phase is FilesStaged,
            s.phase is FilesStaged ==> r.1 is CheckStaged && r.0.phase is StagedChecked,
            s.phase is StagedChecked && s.staged ==> r.1 is ResolveMessage && r.0.phase
                is MessageResolved,
            s.phase is StagedChecked && !s.staged ==> r.1 is Done && r.0.phase is Finished,
            s.phase is MessageResolved ==> r.1 is Commit && r.0.phase is Committed,
            s.phase is Committed ==> r.1 is Done && r.0.phase is Finished,
            s.phase is Finished ==> r.1 is Done && r.0.phase is Finished,
            r.1 is Commit ==> s.phase is MessageResolved,
    {
        let phase = s.phase;
        match phase {
            SavePhase::Started => (
                SaveSession { phase: SavePhase::FilesStaged, ..s },
                SaveAction::StageFiles,
            ),
            SavePhase::FilesStaged => (
                SaveSession { phase: SavePhase::StagedChecked, ..s },
                SaveAction::CheckStaged,
            ),
            SavePhase::StagedChecked => {
                if s.staged {
                    (
                        SaveSession { phase: SavePhase::MessageResolved, ..s },
                        SaveAction::ResolveMessage,
                    )
                } else {
                    (SaveSession { phase: SavePhase::Finished, ..s }, SaveAction::Done)
                }
            },
            SavePhase::MessageResolved => (
                SaveSession { phase: SavePhase::Committed, ..s },
                SaveAction::Commit,
            ),
            SavePhase::Committed => (
                SaveSession { phase: SavePhase::Finished, ..s },
                SaveAction::Done,
            ),
            SavePhase::Finished => (
                SaveSession { phase: SavePhase::Finished, ..s },
                SaveAction::Done,
            ),
        }
    }
}

} // verus!
