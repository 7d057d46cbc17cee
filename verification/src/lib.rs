//! A workflow layer over a version-controlled repository.
//!
//! The crate exposes intent-based operations (start a unit of work, save
//! progress, synchronize with upstream, ship finished work) that compose
//! primitive repository operations with validation, conflict handling and
//! retried network calls.

pub mod branch;
pub mod cli;
pub mod commands;
pub mod config;
pub mod errors;
pub mod gitops;
pub mod github;
pub mod network;
pub mod ops;
pub mod repo;
pub mod status;
pub mod text;
pub mod ui;
pub mod workflow;

pub use config::GtConfig;
pub use errors::{GtError, GtResult};
pub use repo::Repository;
