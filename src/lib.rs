//! Runs one git operation across a fleet of repositories and tracks the
//! progress of each one in a shared table.

pub mod text;
pub mod repo_name;
pub mod settings;
pub mod progress;
pub mod table;
pub mod operations;
pub mod job;
pub mod batch;
pub mod interactive;
pub mod runner;
