//! The process supervisor: the slot that holds the child process, and what start, stop
//! and status decide from the slot and from what the operating system answered.
//!
//! The library never touches a process. The application spawns, polls and terminates; the
//! functions here say when it is to do so and what the caller is told afterwards.

use crate::classify::Severity;
use crate::error::SupervisorError;
use crate::paths::AppPath;
use crate::record::{record_view, LogRecord, LogRecordView};
use vstd::prelude::*;

verus! {

/// The port that the backend is reported on. It is a fixed value, not one discovered at
/// run time.
pub const BACKEND_PORT: u16 = 8000;

/// How long after a spawn the first look at the child is taken, in seconds.
pub const GRACE_PERIOD_SECS: u64 = 2;

/// What callers are told about the backend.
#[derive(Debug, Clone, Copy, PartialEq, Eq, Structural)]
pub struct BackendStatus {
    pub running: bool,
    pub port: u16,
}

impl BackendStatus {
    /// The status with the given liveness and the fixed port.
    pub open spec fn with_running(running: bool) -> BackendStatus {
        BackendStatus { running, port: BACKEND_PORT }
    }

    /// Builds the status with the given liveness and the fixed port.
    pub fn report(running: bool) -> (status: BackendStatus)
        ensures
            status == Self::with_running(running),
    {
        BackendStatus { running, port: BACKEND_PORT }
    }
}

/// The slot and what a call handed back to its caller.
pub struct SlotChange<H> {
    pub slot: Option<H>,
    pub handed_back: Option<H>,
}

/// Storing `child` puts it in the slot and hands back what the slot held before.
pub open spec fn stored_into<H>(slot: Option<H>, child: H) -> SlotChange<H> {
    SlotChange { slot: Some(child), handed_back: slot }
}

/// Taking empties the slot and hands back what it held.
pub open spec fn taken_from<H>(slot: Option<H>) -> SlotChange<H> {
    SlotChange { slot: None, handed_back: slot }
}

/// The single place where the reference to the child process is kept. It holds no process
/// or one, never more. `H` is whatever the application uses to refer to a child.
pub struct ProcessSlot<H> {
    child: Option<H>,
}

impl<H> View for ProcessSlot<H> {
    type V = Option<H>;

    closed spec fn view(&self) -> Option<H> {
        self.child
    }
}

impl<H> ProcessSlot<H> {
    /// The empty slot, as it is when the application starts.
    pub fn new() -> (slot: Self)
        ensures
            slot@ is None,
    {
        ProcessSlot { child: None }
    }

    /// Whether the slot holds a child.
    pub fn is_occupied(&self) -> (occupied: bool)
        ensures
            occupied == (self@ is Some),
    {
        self.child.is_some()
    }

    /// Puts `child` in the slot. What the slot held before is handed back, not dropped
    /// unseen, so that no child is lost by being overwritten.
    pub fn store(&mut self, child: H) -> (displaced: Option<H>)
        ensures
            (SlotChange { slot: final(self)@, handed_back: displaced }) == stored_into(
                old(self)@,
                child,
            ),
    {
        let displaced = self.child.take();
        self.child = Some(child);
        displaced
    }

    /// Empties the slot and hands back what it held.
    pub fn take(&mut self) -> (taken: Option<H>)
        ensures
            (SlotChange { slot: final(self)@, handed_back: taken }) == taken_from(old(self)@),
    {
        self.child.take()
    }

    /// The child in the slot, to be polled in place. An empty slot gives nothing to poll,
    /// and polling leaves an occupied slot occupied.
    pub fn child_mut(&mut self) -> (child: Option<&mut H>)
        ensures
            match old(self)@ {
                None => final(self)@ is None && child is None,
                Some(held) => {
                    &&& child is Some
                    &&& *child->0 == held
                    &&& final(self)@ == Some(*final(child->0))
                },
            },
    {
        self.child.as_mut()
    }
}

impl<H> Default for ProcessSlot<H> {
    /// The empty slot.
    fn default() -> (slot: Self)
        ensures
            slot@ is None,
    {
        ProcessSlot::new()
    }
}

/// What `start` does first, decided from the slot alone.
#[derive(Debug, Clone, Copy, PartialEq, Eq, Structural)]
pub enum StartStep {
    /// The slot holds a child: the caller is told so at once and nothing is spawned.
    AlreadyRunning(BackendStatus),
    /// The slot is empty: the backend is to be located and spawned.
    Launch,
}

/// What `start` does first, given what the slot holds. Whether a held child is still
/// alive is not looked at: a child that has ended stays in the slot until `stop` takes
/// it out, and until then `start` reports it as running and spawns no other.
pub open spec fn start_step_of<H>(slot: Option<H>) -> StartStep {
    if slot is Some {
        StartStep::AlreadyRunning(BackendStatus::with_running(true))
    } else {
        StartStep::Launch
    }
}

/// The first step of `start`: a second process is never asked for while the slot holds
/// one.
pub fn start_backend<H>(slot: &ProcessSlot<H>) -> (step: StartStep)
    ensures
        step == start_step_of(slot@),
{
    if slot.is_occupied() {
        StartStep::AlreadyRunning(BackendStatus::report(true))
    } else {
        StartStep::Launch
    }
}

/// What `start` does when the system has answered the creation of the data directory:
/// it goes on, or fails with the system's message.
pub open spec fn data_dir_reply(created: Result<(), String>) -> Result<(), SupervisorError> {
    match created {
        Ok(_) => Ok(()),
        Err(cause) => Err(SupervisorError::DataDirUnavailable(cause)),
    }
}

/// Takes the system's answer to the creation of the data directory. A directory that
/// cannot be created ends the start before anything is spawned.
pub fn data_dir_settled(created: Result<(), String>) -> (reply: Result<(), SupervisorError>)
    ensures
        reply == data_dir_reply(created),
{
    match created {
        Ok(_) => Ok(()),
        Err(cause) => Err(SupervisorError::DataDirUnavailable(cause)),
    }
}

/// One environment variable that the child is started with.
#[derive(Debug, Clone, PartialEq, Eq)]
pub struct EnvVar {
    pub name: &'static str,
    pub value: String,
}

/// An `EnvVar` as plain texts.
pub struct EnvVarView {
    pub name: Seq<char>,
    pub value: Seq<char>,
}

impl View for EnvVar {
    type V = EnvVarView;

    open spec fn view(&self) -> EnvVarView {
        EnvVarView { name: self.name@, value: self.value@ }
    }
}

/// How the child is to be spawned.
#[derive(Debug, Clone, PartialEq, Eq)]
pub struct LaunchPlan {
    pub executable: AppPath,
    pub environment: Vec<EnvVar>,
    pub pipe_stdout: bool,
    pub pipe_stderr: bool,
}

/// The variables that the child is started with: where its data directory is, that it
/// runs under this application, and that it is not to reload itself.
pub open spec fn child_environment(data_dir: Seq<char>) -> Seq<EnvVarView> {
    seq![
        EnvVarView { name: "AI_TUTOR_DATA_DIR"@, value: data_dir },
        EnvVarView { name: "TAURI_FAMILY"@, value: "1"@ },
        EnvVarView { name: "AI_TUTOR_BACKEND_RELOAD"@, value: "0"@ },
    ]
}

/// The plan for spawning `executable`, with `data_dir` being the data directory as the
/// platform writes it. Both output streams of the child are piped.
pub fn launch_plan(executable: AppPath, data_dir: &str) -> (plan: LaunchPlan)
    ensures
        plan.executable == executable,
        plan.environment@.map_values(|var: EnvVar| var@) == child_environment(data_dir@),
        plan.pipe_stdout,
        plan.pipe_stderr,
{
    let mut environment: Vec<EnvVar> = Vec::new();
    environment.push(EnvVar { name: "AI_TUTOR_DATA_DIR", value: String::from_str(data_dir) });
    environment.push(EnvVar { name: "TAURI_FAMILY", value: String::from_str("1") });
    environment.push(EnvVar { name: "AI_TUTOR_BACKEND_RELOAD", value: String::from_str("0") });
    proof {
        assert(environment@.map_values(|var: EnvVar| var@) =~= child_environment(data_dir@));
    }
    LaunchPlan { executable, environment, pipe_stdout: true, pipe_stderr: true }
}

/// What becomes of the slot when the system has answered a spawn. A child that was
/// spawned is stored; a refusal leaves the slot as it was.
pub open spec fn admitted<H>(slot: Option<H>, spawned: Result<H, String>) -> SlotChange<H> {
    match spawned {
        Ok(child) => stored_into(slot, child),
        Err(_) => SlotChange { slot, handed_back: None },
    }
}

/// What the caller is told when the system has answered a spawn: the refusal with the
/// system's message, or nothing yet.
pub open spec fn admission_reply<H>(spawned: Result<H, String>) -> Result<(), SupervisorError> {
    match spawned {
        Ok(_) => Ok(()),
        Err(cause) => Err(SupervisorError::SpawnFailed(cause)),
    }
}

/// What a call left for its caller: the reply, and a child that the slot gave up.
pub struct Admission<H> {
    pub reply: Result<(), SupervisorError>,
    pub displaced: Option<H>,
}

/// Takes the system's answer to a spawn. The slot is filled only when a child was
/// spawned.
pub fn admit_child<H>(slot: &mut ProcessSlot<H>, spawned: Result<H, String>) -> (admission:
    Admission<H>)
    ensures
        admission.reply == admission_reply(spawned),
        (SlotChange { slot: final(slot)@, handed_back: admission.displaced }) == admitted(
            old(slot)@,
            spawned,
        ),
{
    match spawned {
        Ok(child) => {
            let displaced = slot.store(child);
            Admission { reply: Ok(()), displaced }
        },
        Err(cause) => Admission { reply: Err(SupervisorError::SpawnFailed(cause)), displaced: None },
    }
}

/// What a look at the child's exit status gave, without waiting for it.
#[derive(Debug, Clone, PartialEq, Eq)]
pub enum PollOutcome {
    /// The child has not ended.
    Running,
    /// The child has ended; holds its exit status as text.
    Exited(String),
    /// The system could not say; holds its message.
    Failed(String),
}

/// What a caller is told, and what goes to the log sink on the way.
#[derive(Debug, PartialEq, Eq)]
pub struct Report {
    pub reply: Result<BackendStatus, SupervisorError>,
    pub log: Option<LogRecord>,
}

/// What `start` tells its caller after the grace period. `poll` is `None` where the slot
/// was found empty. Only a child that is known to have ended makes the start fail: a
/// look that the system refused does not.
pub open spec fn liveness_reply(poll: Option<PollOutcome>) -> Result<
    BackendStatus,
    SupervisorError,
> {
    match poll {
        Some(PollOutcome::Exited(status)) => Err(SupervisorError::ExitedEarly(status)),
        _ => Ok(BackendStatus::with_running(true)),
    }
}

/// What `start` logs after the grace period: its success, if it is one.
pub open spec fn liveness_log(poll: Option<PollOutcome>) -> Option<LogRecordView> {
    match poll {
        Some(PollOutcome::Exited(_)) => None,
        _ => Some(
            LogRecordView {
                severity: Severity::Info,
                message: "Backend process started successfully"@,
            },
        ),
    }
}

/// The last step of `start`, taken after the grace period with what a look at the child
/// gave. The slot is not changed, whatever the look gave.
pub fn confirm_liveness(poll: Option<PollOutcome>) -> (report: Report)
    ensures
        report.reply == liveness_reply(poll),
        record_view(report.log) == liveness_log(poll),
{
    match poll {
        Some(PollOutcome::Exited(status)) => Report {
            reply: Err(SupervisorError::ExitedEarly(status)),
            log: None,
        },
        _ => Report {
            reply: Ok(BackendStatus::report(true)),
            log: Some(
                LogRecord {
                    severity: Severity::Info,
                    message: String::from_str("Backend process started successfully"),
                },
            ),
        },
    }
}

/// The first step of `stop`: the slot is emptied, and the child it held is handed back to
/// be terminated. The slot is empty afterwards whether or not the termination succeeds.
pub fn stop_backend<H>(slot: &mut ProcessSlot<H>) -> (child: Option<H>)
    ensures
        (SlotChange { slot: final(slot)@, handed_back: child }) == taken_from(old(slot)@),
{
    slot.take()
}

/// What `stop` tells its caller. `killed` is `None` where the slot held nothing, and
/// else the system's answer to the termination.
pub open spec fn stop_reply(killed: Option<Result<(), String>>) -> Result<(), SupervisorError> {
    match killed {
        Some(Err(cause)) => Err(SupervisorError::KillFailed(cause)),
        _ => Ok(()),
    }
}

/// The last step of `stop`.
pub fn kill_settled(killed: Option<Result<(), String>>) -> (reply: Result<(), SupervisorError>)
    ensures
        reply == stop_reply(killed),
{
    match killed {
        Some(Err(cause)) => Err(SupervisorError::KillFailed(cause)),
        _ => Ok(()),
    }
}

/// What `status` tells its caller. `poll` is `None` where the slot was found empty.
pub open spec fn status_reply(poll: Option<PollOutcome>) -> Result<
    BackendStatus,
    SupervisorError,
> {
    match poll {
        None => Ok(BackendStatus::with_running(false)),
        Some(PollOutcome::Running) => Ok(BackendStatus::with_running(true)),
        Some(PollOutcome::Exited(_)) => Ok(BackendStatus::with_running(false)),
        Some(PollOutcome::Failed(cause)) => Err(SupervisorError::StatusUnavailable(cause)),
    }
}

/// What `status` logs: a warning for a child that has ended, an error for a look that
/// the system refused.
pub open spec fn status_log(poll: Option<PollOutcome>) -> Option<LogRecordView> {
    match poll {
        Some(PollOutcome::Exited(status)) => Some(
            LogRecordView {
                severity: Severity::Warning,
                message: "Backend process has exited with status: "@ + status@,
            },
        ),
        Some(PollOutcome::Failed(cause)) => Some(
            LogRecordView {
                severity: Severity::Error,
                message: "Error checking backend status: "@ + cause@,
            },
        ),
        _ => None,
    }
}

/// Decides `status` from what a look at the child gave. The slot is not changed: a child
/// that has ended stays in it.
pub fn check_backend_status(poll: Option<PollOutcome>) -> (report: Report)
    ensures
        report.reply == status_reply(poll),
        record_view(report.log) == status_log(poll),
{
    match poll {
        None => Report { reply: Ok(BackendStatus::report(false)), log: None },
        Some(PollOutcome::Running) => Report { reply: Ok(BackendStatus::report(true)), log: None },
        Some(PollOutcome::Exited(status)) => Report {
            reply: Ok(BackendStatus::report(false)),
            log: Some(
                LogRecord::compose(
                    Severity::Warning,
                    "Backend process has exited with status: ",
                    status.as_str(),
                ),
            ),
        },
        Some(PollOutcome::Failed(cause)) => {
            let log = LogRecord::compose(
                Severity::Error,
                "Error checking backend status: ",
                cause.as_str(),
            );
            Report { reply: Err(SupervisorError::StatusUnavailable(cause)), log: Some(log) }
        },
    }
}

} // verus!
