//! The failure taxonomy of a launch attempt.
//!
//! Every failure is non-fatal to the host shell: the caller formats the
//! message, logs it, and keeps running without a backend.

use vstd::prelude::*;

verus! {

/// Why a launch attempt could not produce a running backend.
///
/// `DataDirCreationFailed` and `SpawnFailed` carry the text of the underlying
/// system error; they are produced by the binary that performs the side
/// effects, never by the planning code itself.
#[derive(Debug, PartialEq, Eq)]
pub enum StartupError {
    /// No candidate location held the backend entry script.
    ScriptNotFound,
    /// Neither venv layout under the project root existed and no system
    /// interpreter was found on the search path.
    InterpreterNotFound,
    /// The data directory could not be created.
    DataDirCreationFailed(String),
    /// The child process could not be started.
    SpawnFailed(String),
}

/// The diagnostic text of `e`, as a sequence of characters.
pub open spec fn spec_message(e: StartupError) -> Seq<char> {
    match e {
        StartupError::ScriptNotFound => "backend script backend/server.py not found in any candidate location"@,
        StartupError::InterpreterNotFound => "no usable interpreter: neither a .venv layout under the project root nor python/python3 on the search path"@,
        StartupError::DataDirCreationFailed(detail) => "could not create the data directory: "@ + detail@,
        StartupError::SpawnFailed(detail) => "could not start the backend process: "@ + detail@,
    }
}

impl StartupError {
    /// Human-readable description of the failure, for the shell's log line.
    pub fn message(&self) -> (m: String)
        ensures
            m@ == spec_message(*self),
    {
        match self {
            StartupError::ScriptNotFound => String::from_str(
                "backend script backend/server.py not found in any candidate location",
            ),
            StartupError::InterpreterNotFound => String::from_str(
                "no usable interpreter: neither a .venv layout under the project root nor python/python3 on the search path",
            ),
            StartupError::DataDirCreationFailed(detail) => String::from_str(
                "could not create the data directory: ",
            ).concat(detail.as_str()),
            StartupError::SpawnFailed(detail) => String::from_str(
                "could not start the backend process: ",
            ).concat(detail.as_str()),
        }
    }
}

} // verus!
