//! The failures that the supervisor reports to its callers.

use crate::paths::AppPath;
use crate::record::joined;
use vstd::prelude::*;

verus! {

/// Why an operation of the supervisor failed. None of these is retried by the library.
#[derive(Debug, Clone, PartialEq, Eq)]
pub enum SupervisorError {
    /// The platform is not one on which the backend can be located.
    UnsupportedPlatform,
    /// The directory of the running application's binary could not be determined.
    ExecutableDirUnknown,
    /// The backend executable is at neither candidate location; holds the last one tried.
    ExecutableNotFound(AppPath),
    /// The data directory could not be created; holds the system's message.
    DataDirUnavailable(String),
    /// The system refused to create the process; holds its message.
    SpawnFailed(String),
    /// The process ended within the grace period; holds its exit status as text.
    ExitedEarly(String),
    /// The system refused to terminate the process; holds its message.
    KillFailed(String),
    /// The system refused to report on the process; holds its message.
    StatusUnavailable(String),
}

/// The classes that the failures fall into.
#[derive(Debug, Clone, Copy, PartialEq, Eq, Structural)]
pub enum ErrorKind {
    PathResolution,
    Spawn,
    PrematureExit,
    Signal,
    StatusQuery,
}

impl SupervisorError {
    /// The class that this failure falls into.
    pub open spec fn kind_of(self) -> ErrorKind {
        match self {
            SupervisorError::UnsupportedPlatform => ErrorKind::PathResolution,
            SupervisorError::ExecutableDirUnknown => ErrorKind::PathResolution,
            SupervisorError::ExecutableNotFound(_) => ErrorKind::PathResolution,
            SupervisorError::DataDirUnavailable(_) => ErrorKind::PathResolution,
            SupervisorError::SpawnFailed(_) => ErrorKind::Spawn,
            SupervisorError::ExitedEarly(_) => ErrorKind::PrematureExit,
            SupervisorError::KillFailed(_) => ErrorKind::Signal,
            SupervisorError::StatusUnavailable(_) => ErrorKind::StatusQuery,
        }
    }

    /// The message that a caller is shown for this failure. `shown_path` is the way the
    /// platform writes the path that an `ExecutableNotFound` holds; no other failure
    /// reads it.
    pub open spec fn message_of(self, shown_path: Seq<char>) -> Seq<char> {
        match self {
            SupervisorError::UnsupportedPlatform => "Non-Windows platforms not yet supported"@,
            SupervisorError::ExecutableDirUnknown => "Could not determine executable directory"@,
            SupervisorError::ExecutableNotFound(_) => "Backend executable not found at: "@
                + shown_path
                + ". Make sure backend.exe is in the resources directory."@,
            SupervisorError::DataDirUnavailable(cause) => "Failed to create data dir: "@ + cause@,
            SupervisorError::SpawnFailed(cause) => "Failed to start backend: "@ + cause@,
            SupervisorError::ExitedEarly(status) =>
                "Backend process exited immediately with status: "@ + status@,
            SupervisorError::KillFailed(cause) => "Failed to stop backend: "@ + cause@,
            SupervisorError::StatusUnavailable(cause) => "Error checking backend status: "@
                + cause@,
        }
    }

    /// The class that this failure falls into.
    pub fn kind(&self) -> (kind: ErrorKind)
        ensures
            kind == self.kind_of(),
    {
        match self {
            SupervisorError::UnsupportedPlatform => ErrorKind::PathResolution,
            SupervisorError::ExecutableDirUnknown => ErrorKind::PathResolution,
            SupervisorError::ExecutableNotFound(_) => ErrorKind::PathResolution,
            SupervisorError::DataDirUnavailable(_) => ErrorKind::PathResolution,
            SupervisorError::SpawnFailed(_) => ErrorKind::Spawn,
            SupervisorError::ExitedEarly(_) => ErrorKind::PrematureExit,
            SupervisorError::KillFailed(_) => ErrorKind::Signal,
            SupervisorError::StatusUnavailable(_) => ErrorKind::StatusQuery,
        }
    }

    /// The message that a caller is shown for this failure.
    pub fn message(&self, shown_path: &str) -> (text: String)
        ensures
            text@ == self.message_of(shown_path@),
    {
        match self {
            SupervisorError::UnsupportedPlatform => String::from_str(
                "Non-Windows platforms not yet supported",
            ),
            SupervisorError::ExecutableDirUnknown => String::from_str(
                "Could not determine executable directory",
            ),
            SupervisorError::ExecutableNotFound(_) => {
                let mut text = joined("Backend executable not found at: ", shown_path);
                text.append(". Make sure backend.exe is in the resources directory.");
                text
            },
            SupervisorError::DataDirUnavailable(cause) => joined(
                "Failed to create data dir: ",
                cause.as_str(),
            ),
            SupervisorError::SpawnFailed(cause) => joined(
                "Failed to start backend: ",
                cause.as_str(),
            ),
            SupervisorError::ExitedEarly(status) => joined(
                "Backend process exited immediately with status: ",
                status.as_str(),
            ),
            SupervisorError::KillFailed(cause) => joined("Failed to stop backend: ", cause.as_str()),
            SupervisorError::StatusUnavailable(cause) => joined(
                "Error checking backend status: ",
                cause.as_str(),
            ),
        }
    }
}

} // verus!
