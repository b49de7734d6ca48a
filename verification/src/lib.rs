//! Launch planning and supervision for a single local backend process.
//!
//! The library decides where the backend's entry script and its interpreter
//! live, derives the child's execution environment (bind address, port, data
//! directory), lays out the exact command line and environment the child is
//! started with, and tracks the one live child so that it is terminated
//! exactly once when the host shell exits.  All decisions are made over plain
//! strings and integers; the surrounding binary performs the filesystem and
//! process side effects.

pub mod command;
pub mod config;
pub mod digits;
pub mod errors;
pub mod launch;
pub mod paths;
pub mod resolve;
pub mod supervisor;

pub use errors::StartupError;
