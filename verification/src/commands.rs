//! The workflow commands: the intent-based operations the tool exposes,
//! each composing repository operations with validation, confirmation
//! points and retried network calls.

pub mod clean;
pub mod config;
pub mod init;
pub mod save;
pub mod ship;
pub mod sp;
pub mod start;
pub mod status;
pub mod update;

pub use clean::CleanCommand;
pub use config::ConfigCommand;
pub use init::InitCommand;
pub use save::SaveCommand;
pub use ship::{MergeStrategy, ShipCommand};
pub use sp::SpCommand;
pub use start::StartCommand;
pub use status::StatusCommand;
pub use update::UpdateCommand;
