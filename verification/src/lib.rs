//! Fast development loop helpers for a cargo-based workflow: toolchain
//! diagnosis, build-configuration generation, and a debounced re-run state
//! machine for a filesystem watcher.

pub mod config;
pub mod doctor;
pub mod errors;
pub mod runner;
pub mod watch;
