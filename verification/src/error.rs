//! Failures of the decoder pipeline.

use vstd::prelude::*;

verus! {

/// What went wrong while driving the external decoder: the process could
/// not be spawned, its input could not be written, or its output could not
/// be read (which also covers an abnormal exit discovered while draining).
/// Each variant carries the diagnostic text to report before exiting.
#[derive(Debug)]
pub enum FFMPegError {
    SpawnError(String),
    WriteToStdError(String),
    ReadFromStdError(String),
}

/// The diagnostic text carried by an error, whatever its variant.
pub open spec fn spec_error_message(e: FFMPegError) -> Seq<char> {
    match e {
        FFMPegError::SpawnError(s) => s@,
        FFMPegError::WriteToStdError(s) => s@,
        FFMPegError::ReadFromStdError(s) => s@,
    }
}

impl FFMPegError {
    /// The diagnostic text to print for this error.
    pub fn message(&self) -> (msg: &String)
        ensures
            msg@ == spec_error_message(*self),
    {
        match self {
            FFMPegError::SpawnError(s) => s,
            FFMPegError::WriteToStdError(s) => s,
            FFMPegError::ReadFromStdError(s) => s,
        }
    }
}

} // verus!
