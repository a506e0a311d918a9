//! How a command ends: its exit code, or the error that stopped it.
use vstd::prelude::*;

verus! {

/// The exit code of a finished command.
#[derive(Debug, Clone, Copy, PartialEq, Eq, Structural)]
pub enum ExitCode {
    Success,
}

impl ExitCode {
    /// The process status for the code.
    pub fn to_i32(self) -> (r: i32)
        ensures
            self == ExitCode::Success ==> r == 0,
    {
        match self {
            ExitCode::Success => 0,
        }
    }
}

/// Why a command could not run.
#[derive(Debug, Clone)]
pub enum CliError {
    /// The arguments were not acceptable; the text says why.
    InvalidArguments(String),
    /// The configuration could not be loaded; the text is the configuration error.
    Config(String),
    /// Something else went wrong; the text says what.
    Internal(String),
}

} // verus!
