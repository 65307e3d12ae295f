//! The startup orchestrator: whether the backend is started when the application
//! launches, and what is logged about it.

use crate::classify::Severity;
use crate::error::SupervisorError;
use crate::paths::AppPath;
use crate::record::{LogRecord, LogRecordView};
use crate::supervisor::BackendStatus;
use crate::text::{decimal, decimal_of};
use vstd::prelude::*;

verus! {

/// How long after its launch the application waits before it looks for the backend, in
/// seconds.
pub const STARTUP_DELAY_SECS: u64 = 1;

/// What the application does about the backend at launch.
#[derive(Debug, Clone, PartialEq, Eq)]
pub struct StartupPlan {
    /// The executable to start, if one was found.
    pub executable: Option<AppPath>,
    /// What is logged before anything is started.
    pub log: LogRecord,
}

/// The executable that a resolution found, if it found one.
pub open spec fn found_executable(resolution: Result<AppPath, SupervisorError>) -> Option<
    AppPath,
> {
    match resolution {
        Ok(path) => Some(path),
        Err(_) => None,
    }
}

/// What is logged at launch: where the executable was found, or a warning that tells the
/// operator to run the backend by hand.
pub open spec fn startup_log(found: bool, shown_path: Seq<char>) -> LogRecordView {
    if found {
        LogRecordView {
            severity: Severity::Info,
            message: "Found backend executable at: "@ + shown_path,
        }
    } else {
        LogRecordView {
            severity: Severity::Warning,
            message: "Backend executable not found. Run 'python start_backend.py' separately for dev mode."@,
        }
    }
}

/// Decides from the outcome of path resolution whether the backend is started at launch.
/// It is started exactly when the executable was found; no failure to find it is passed
/// on. `shown_path` is the way the platform writes the path that was found.
pub fn plan_startup(resolution: Result<AppPath, SupervisorError>, shown_path: &str) -> (plan:
    StartupPlan)
    ensures
        plan.executable == found_executable(resolution),
        plan.log@ == startup_log(resolution is Ok, shown_path@),
{
    match resolution {
        Ok(path) => StartupPlan {
            executable: Some(path),
            log: LogRecord::compose(Severity::Info, "Found backend executable at: ", shown_path),
        },
        Err(_) => StartupPlan {
            executable: None,
            log: LogRecord {
                severity: Severity::Warning,
                message: String::from_str(
                    "Backend executable not found. Run 'python start_backend.py' separately for dev mode.",
                ),
            },
        },
    }
}

/// What is logged when the start at launch has ended: the port on success, the failure's
/// message otherwise.
pub open spec fn startup_outcome_log(
    outcome: Result<BackendStatus, SupervisorError>,
    shown_path: Seq<char>,
) -> LogRecordView {
    match outcome {
        Ok(status) => LogRecordView {
            severity: Severity::Info,
            message: "Backend started automatically on port "@ + decimal_of(status.port as nat),
        },
        Err(failure) => LogRecordView {
            severity: Severity::Error,
            message: "Failed to auto-start backend: "@ + failure.message_of(shown_path),
        },
    }
}

/// The record of how the start at launch ended. A failure is logged and goes no further:
/// the application runs on without a backend.
pub fn report_startup(outcome: &Result<BackendStatus, SupervisorError>, shown_path: &str) -> (log:
    LogRecord)
    ensures
        log@ == startup_outcome_log(*outcome, shown_path@),
{
    match outcome {
        Ok(status) => {
            let port = decimal(status.port);
            LogRecord::compose(
                Severity::Info,
                "Backend started automatically on port ",
                port.as_str(),
            )
        },
        Err(failure) => {
            let message = failure.message(shown_path);
            LogRecord::compose(Severity::Error, "Failed to auto-start backend: ", message.as_str())
        },
    }
}

} // verus!
