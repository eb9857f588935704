use vstd::prelude::*;

verus! {

/// Identifier of a job: the 128-bit value of a UUID.
pub type JobId = u128;

/// Why a launch did not produce a running program. The integers are the
/// operating system's error numbers.
#[derive(Debug, Clone, Copy, PartialEq, Eq, Structural)]
pub enum LaunchError {
    /// The command line holds no token.
    InvalidCommand,
    /// The root filesystem directory could not be resolved.
    RootfsNotFound,
    /// Setting the hostname or mounting `/proc` failed in the child.
    SetupFailed(i32),
    /// Changing the root directory failed.
    ChrootFailed(i32),
    /// Replacing the process image failed (unknown program, permission).
    ExecFailed(i32),
    /// The process itself could not be created (fork, pipes).
    SpawnFailed(i32),
}

/// The state of a job. `Running` is the only state that ever changes.
#[derive(Debug, Clone, Copy, PartialEq, Eq, Structural)]
pub enum JobStatus {
    Running,
    Exited(i32),
    Killed,
    Failed(LaunchError),
}

/// What a non-blocking poll of a process observed.
#[derive(Debug, Clone, Copy, PartialEq, Eq, Structural)]
pub enum ProcessState {
    StillRunning,
    Exited(i32),
}

/// Why a termination signal was not delivered.
#[derive(Debug, Clone, Copy, PartialEq, Eq, Structural)]
pub enum TerminateError {
    AlreadyExited,
    SignalFailed(i32),
}

#[derive(Debug, Clone, Copy, PartialEq, Eq, Structural)]
pub enum LookupError {
    NotFound,
}

#[derive(Debug, Clone, Copy, PartialEq, Eq, Structural)]
pub enum KillError {
    NotFound,
    AlreadyTerminated,
    SignalFailed(i32),
}

#[derive(Debug, Clone, Copy, PartialEq, Eq, Structural)]
pub enum SubmitError {
    /// The request was refused before any process was attempted.
    Launch(LaunchError),
    /// The identifier asked for is already taken.
    IdTaken,
}

impl ProcessState {
    /// A process ended by signal `sig` counts as exited with `128 + sig`, as
    /// a shell reports it.
    pub fn killed_by(sig: u8) -> (r: ProcessState)
        ensures
            r == ProcessState::Exited((128 + sig) as i32),
    {
        ProcessState::Exited(128 + sig as i32)
    }
}

impl JobStatus {
    pub open spec fn is_terminal(self) -> bool {
        !(self is Running)
    }

    /// The state machine: a status either stays as it is or leaves `Running`.
    pub open spec fn may_become(self, next: JobStatus) -> bool {
        self == next || self is Running
    }

    pub fn is_running(&self) -> (r: bool)
        ensures
            r == (*self is Running),
    {
        matches!(self, JobStatus::Running)
    }
}

/// The status that a job starts with, given how its launch went.
pub open spec fn initial_status(launched: Result<(), LaunchError>) -> JobStatus {
    match launched {
        Ok(()) => JobStatus::Running,
        Err(e) => JobStatus::Failed(e),
    }
}

/// The status after a poll of the job's process observed `seen`.
pub open spec fn reconciled(status: JobStatus, seen: ProcessState) -> JobStatus {
    match (status, seen) {
        (JobStatus::Running, ProcessState::Exited(code)) => JobStatus::Exited(code),
        _ => status,
    }
}

/// The status after a termination signal was attempted with `outcome`.
pub open spec fn after_terminate(status: JobStatus, outcome: Result<(), TerminateError>) -> JobStatus {
    match (status, outcome) {
        (JobStatus::Running, Ok(())) => JobStatus::Killed,
        _ => status,
    }
}

/// What a kill request reports, given the status it found and the outcome of
/// the signal.
pub open spec fn kill_result(status: JobStatus, outcome: Result<(), TerminateError>) -> Result<(), KillError> {
    if status.is_terminal() {
        Err(KillError::AlreadyTerminated)
    } else {
        match outcome {
            Ok(()) => Ok(()),
            Err(TerminateError::AlreadyExited) => Err(KillError::AlreadyTerminated),
            Err(TerminateError::SignalFailed(errno)) => Err(KillError::SignalFailed(errno)),
        }
    }
}

pub fn initial_status_of(launched: Result<(), LaunchError>) -> (r: JobStatus)
    ensures
        r == initial_status(launched),
{
    match launched {
        Ok(()) => JobStatus::Running,
        Err(e) => JobStatus::Failed(e),
    }
}

pub fn reconcile(status: JobStatus, seen: ProcessState) -> (r: JobStatus)
    ensures
        r == reconciled(status, seen),
        status.may_become(r),
{
    match (status, seen) {
        (JobStatus::Running, ProcessState::Exited(code)) => JobStatus::Exited(code),
        _ => status,
    }
}

pub fn terminate_outcome(status: JobStatus, outcome: Result<(), TerminateError>) -> (r: (JobStatus, Result<(), KillError>))
    ensures
        r.0 == after_terminate(status, outcome),
        r.1 == kill_result(status, outcome),
        status.may_become(r.0),
{
    if status.is_running() {
        match outcome {
            Ok(()) => (JobStatus::Killed, Ok(())),
            Err(TerminateError::AlreadyExited) => (status, Err(KillError::AlreadyTerminated)),
            Err(TerminateError::SignalFailed(errno)) => (status, Err(KillError::SignalFailed(errno))),
        }
    } else {
        (status, Err(KillError::AlreadyTerminated))
    }
}

} // verus!
