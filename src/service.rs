use vstd::prelude::*;
use crate::ids::{format_id, id_text, parse_id, parsed_id};
use crate::job::{
    after_terminate, initial_status, kill_result, reconciled, JobId, JobStatus, KillError,
    LaunchError, LookupError, ProcessState, SubmitError, TerminateError,
};
use crate::manager::{evolves, refused, JobManager};
use crate::store::JobRecord;

verus! {

/// Why a request failed, as the remote caller sees it.
#[derive(Debug, Clone, Copy, PartialEq, Eq, Structural)]
pub enum RpcError {
    /// The job identifier is not a UUID.
    InvalidArgument,
    /// The request was well formed but could not be carried out.
    Internal(ServiceFault),
    /// The operation is not offered.
    Unimplemented,
}

#[derive(Debug, Clone, Copy, PartialEq, Eq, Structural)]
pub enum ServiceFault {
    Submit(SubmitError),
    Lookup(LookupError),
    Kill(KillError),
}

#[derive(Debug, Clone, Copy, PartialEq, Eq, Structural)]
pub enum StatusKind {
    Running,
    Exited,
    Killed,
    Failed,
}

/// The status of a job on the wire: its kind, and the exit code where it
/// exited (0 otherwise).
#[derive(Debug, Clone, Copy, PartialEq, Eq, Structural)]
pub struct StatusReply {
    pub status: StatusKind,
    pub exit_code: i32,
}

pub open spec fn reply_of(s: JobStatus) -> StatusReply {
    match s {
        JobStatus::Running => StatusReply { status: StatusKind::Running, exit_code: 0 },
        JobStatus::Exited(code) => StatusReply { status: StatusKind::Exited, exit_code: code },
        JobStatus::Killed => StatusReply { status: StatusKind::Killed, exit_code: 0 },
        JobStatus::Failed(_) => StatusReply { status: StatusKind::Failed, exit_code: 0 },
    }
}

pub fn status_reply(s: JobStatus) -> (r: StatusReply)
    ensures
        r == reply_of(s),
{
    match s {
        JobStatus::Running => StatusReply { status: StatusKind::Running, exit_code: 0 },
        JobStatus::Exited(code) => StatusReply { status: StatusKind::Exited, exit_code: code },
        JobStatus::Killed => StatusReply { status: StatusKind::Killed, exit_code: 0 },
        JobStatus::Failed(_) => StatusReply { status: StatusKind::Failed, exit_code: 0 },
    }
}

/// Serves the remote submit, status, stop and log requests on top of a
/// `JobManager`. Identifiers travel as hyphenated UUID text. Where a request
/// needs the job's process, the caller polls or signals it first and hands
/// the outcome in.
pub struct WorkerService {
    job_manager: JobManager,
}

impl View for WorkerService {
    type V = Map<JobId, JobRecord>;

    closed spec fn view(&self) -> Map<JobId, JobRecord> {
        self.job_manager@
    }
}

impl WorkerService {
    pub fn new() -> (w: WorkerService)
        ensures
            w@ == Map::<JobId, JobRecord>::empty(),
    {
        WorkerService { job_manager: JobManager::new() }
    }

    /// Reads a job identifier from its text; text that is not a UUID is an
    /// invalid argument.
    pub fn parse_job_id(job_id: &str) -> (r: Result<JobId, RpcError>)
        ensures
            r == (match parsed_id(job_id@) {
                Some(id) => Ok::<JobId, RpcError>(id),
                None => Err::<JobId, RpcError>(RpcError::InvalidArgument),
            }),
            forall|v: u128| job_id@ == id_text(v) ==> r == Ok::<JobId, RpcError>(v),
            job_id@.len() < 32 ==> r == Err::<JobId, RpcError>(RpcError::InvalidArgument),
    {
        match parse_id(job_id) {
            Some(id) => Ok(id),
            None => Err(RpcError::InvalidArgument),
        }
    }

    /// The text of a job identifier: its hyphenated lower-case UUID form.
    pub fn format_job_id(id: JobId) -> (r: String)
        ensures
            r@ == id_text(id),
    {
        format_id(id)
    }

    /// Registers a submitted command, given how its launch went, and returns
    /// the text of its new identifier.
    pub fn submit(&mut self, command: String, launched: Result<(), LaunchError>) -> (r: Result<
        String,
        RpcError,
    >)
        ensures
            refused(command@, launched) ==> r == Err::<String, RpcError>(
                RpcError::Internal(ServiceFault::Submit(SubmitError::Launch(LaunchError::InvalidCommand))),
            ) && final(self)@ == old(self)@,
            !refused(command@, launched) ==> r is Ok && exists|id: JobId| {
                &&& r->Ok_0@ == id_text(id)
                &&& !old(self)@.contains_key(id)
                &&& final(self)@ == old(self)@.insert(
                    id,
                    JobRecord { command: command@, status: initial_status(launched) },
                )
            },
            evolves(old(self)@, final(self)@),
    {
        match self.job_manager.submit(command, launched) {
            Ok(id) => Ok(Self::format_job_id(id)),
            Err(e) => Err(RpcError::Internal(ServiceFault::Submit(e))),
        }
    }

    /// The identifier whose process the caller must poll or signal before a
    /// status or stop request on `job_id`: present only for a job that is
    /// still `Running`.
    pub fn process_owed(&self, job_id: &str) -> (r: Option<JobId>)
        ensures
            r is Some <==> (parsed_id(job_id@) is Some && self@.contains_key(parsed_id(job_id@)->0)
                && self@[parsed_id(job_id@)->0].status is Running),
            r is Some ==> r == parsed_id(job_id@),
    {
        match Self::parse_job_id(job_id) {
            Err(_) => None,
            Ok(id) => match self.job_manager.kill_target(id) {
                Ok(()) => Some(id),
                Err(_) => None,
            },
        }
    }

    /// The status of a job, after folding in what a poll of its process saw
    /// (`seen` is not read for a job that is no longer `Running`).
    pub fn status(&mut self, job_id: &str, seen: ProcessState) -> (r: Result<StatusReply, RpcError>)
        ensures
            parsed_id(job_id@) is None ==> r == Err::<StatusReply, RpcError>(RpcError::InvalidArgument)
                && final(self)@ == old(self)@,
            parsed_id(job_id@) is Some && !old(self)@.contains_key(parsed_id(job_id@)->0) ==> r
                == Err::<StatusReply, RpcError>(RpcError::Internal(ServiceFault::Lookup(LookupError::NotFound)))
                && final(self)@ == old(self)@,
            parsed_id(job_id@) is Some && old(self)@.contains_key(parsed_id(job_id@)->0) ==> {
                let id = parsed_id(job_id@)->0;
                let s = reconciled(old(self)@[id].status, seen);
                &&& r == Ok::<StatusReply, RpcError>(reply_of(s))
                &&& final(self)@ == old(self)@.insert(id, JobRecord { command: old(self)@[id].command, status: s })
            },
            evolves(old(self)@, final(self)@),
    {
        let id = Self::parse_job_id(job_id)?;
        match self.job_manager.reconcile(id, seen) {
            Ok(s) => Ok(status_reply(s)),
            Err(e) => Err(RpcError::Internal(ServiceFault::Lookup(e))),
        }
    }

    /// Stops a job, given how the termination signal to its process went
    /// (`outcome` is not read for a job that is no longer `Running`).
    pub fn stop(&mut self, job_id: &str, outcome: Result<(), TerminateError>) -> (r: Result<(), RpcError>)
        ensures
            parsed_id(job_id@) is None ==> r == Err::<(), RpcError>(RpcError::InvalidArgument)
                && final(self)@ == old(self)@,
            parsed_id(job_id@) is Some && !old(self)@.contains_key(parsed_id(job_id@)->0) ==> r
                == Err::<(), RpcError>(RpcError::Internal(ServiceFault::Kill(KillError::NotFound)))
                && final(self)@ == old(self)@,
            parsed_id(job_id@) is Some && old(self)@.contains_key(parsed_id(job_id@)->0) ==> {
                let id = parsed_id(job_id@)->0;
                let before = old(self)@[id].status;
                &&& r == (match kill_result(before, outcome) {
                    Ok(()) => Ok::<(), RpcError>(()),
                    Err(e) => Err::<(), RpcError>(RpcError::Internal(ServiceFault::Kill(e))),
                })
                &&& final(self)@ == old(self)@.insert(
                    id,
                    JobRecord { command: old(self)@[id].command, status: after_terminate(before, outcome) },
                )
            },
            evolves(old(self)@, final(self)@),
    {
        let id = Self::parse_job_id(job_id)?;
        match self.job_manager.kill(id, outcome) {
            Ok(()) => Ok(()),
            Err(e) => Err(RpcError::Internal(ServiceFault::Kill(e))),
        }
    }

    /// Log streaming is not offered: every request is answered `Unimplemented`.
    pub fn get_logs(&self, job_id: &str) -> (r: Result<(), RpcError>)
        ensures
            r == Err::<(), RpcError>(RpcError::Unimplemented),
    {
        Err(RpcError::Unimplemented)
    }
}

} // verus!
