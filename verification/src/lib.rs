//! Supervision logic for a single long-running backend server process.
//!
//! The library decides; it does not act. It locates the backend executable among its
//! candidate places, keeps the slot that holds the child process, says what `start`,
//! `stop` and `status` do and tell their callers, and turns the child's output into
//! log records with a severity. Spawning, polling, terminating, reading streams and
//! logging are left to the application, which hands the library what the system answered.

pub mod classify;
pub mod error;
pub mod history;
pub mod paths;
pub mod pump;
pub mod record;
pub mod startup;
pub mod supervisor;
pub mod text;

pub use classify::{classify, Severity};
pub use error::{ErrorKind, SupervisorError};
pub use paths::{
    resolve_data_dir, resolve_executable_path, resolve_log_dir, AppPath, EnvSnapshot, Platform,
};
pub use record::LogRecord;
pub use supervisor::{
    check_backend_status, start_backend, stop_backend, BackendStatus, PollOutcome, ProcessSlot,
    Report, StartStep,
};
