//! The save-and-push shorthand: one Save run followed by a retried push
//! of the current branch.

use vstd::prelude::*;
use crate::commands::save::SaveCommand;

verus! {

/// The save-and-push command.
pub struct SpCommand {
    /// The commit message, where one was supplied.
    pub message: Option<String>,
    /// Edit the message interactively even when one was supplied.
    pub edit: bool,
    /// The files to stage; empty means every change.
    pub files: Vec<String>,
}

impl SpCommand {
    /// Creates the command.
    pub fn new(message: Option<String>, edit: bool, files: Vec<String>) -> (r: SpCommand)
        ensures
            r.message == message,
            r.edit == edit,
            r.files == files,
    {
        SpCommand { message, edit, files }
    }

    /// The Save run this shorthand begins with; the command's fields move
    /// into it.
    pub fn save_command(self) -> (r: SaveCommand)
        ensures
            r.options.message == self.message,
            r.options.edit == self.edit,
            r.options.files == self.files,
            r.options.add_all == (self.files@.len() == 0),
    {
        SaveCommand::new(self.message, self.edit, self.files)
    }
}

} // verus!
