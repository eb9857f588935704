use vstd::prelude::*;
use crate::ids::fresh_id;
use crate::job::{
    after_terminate, initial_status, initial_status_of, kill_result, reconcile, reconciled,
    terminate_outcome, JobId, JobStatus, KillError, LaunchError, LookupError, ProcessState,
    SubmitError, TerminateError,
};
use crate::launcher::{is_blank, tokens};
use crate::store::{Job, JobRecord, JobStore};

verus! {

/// How many random identifiers `submit` draws before it searches for a free one.
pub const ID_DRAWS: usize = 8;

/// A submission that is refused: its command line has no word, or its
/// launch said so.
pub open spec fn refused(command: Seq<char>, launched: Result<(), LaunchError>) -> bool {
    tokens(command).len() == 0 || launched == Err::<(), LaunchError>(LaunchError::InvalidCommand)
}

/// Every change that a manager operation may make to the registry: no job is
/// removed, no command changes, and each status only moves forward.
pub open spec fn evolves(before: Map<JobId, JobRecord>, after: Map<JobId, JobRecord>) -> bool {
    forall|id: JobId| #[trigger] before.contains_key(id) ==> {
        &&& after.contains_key(id)
        &&& after[id].command == before[id].command
        &&& before[id].status.may_become(after[id].status)
    }
}

/// Owns the job registry and turns requests into changes of it. The process of
/// each job is driven by the caller: `submit` is told how the launch went,
/// `reconcile` what a poll of the process saw, and `kill` how a
/// termination signal went.
pub struct JobManager {
    jobs: JobStore,
}

impl View for JobManager {
    type V = Map<JobId, JobRecord>;

    closed spec fn view(&self) -> Map<JobId, JobRecord> {
        self.jobs@
    }
}

impl JobManager {
    /// A manager with no jobs.
    pub fn new() -> (m: JobManager)
        ensures
            m@ == Map::<JobId, JobRecord>::empty(),
    {
        JobManager { jobs: JobStore::new() }
    }

    pub fn job_count(&self) -> (n: usize)
        ensures
            n == self@.len(),
    {
        self.jobs.len()
    }

    /// Registers `command` under `id`, as `Running` if it was launched and as
    /// `Failed` with the launch error otherwise. A command line without words
    /// is refused, and so is an identifier that is already taken.
    pub fn submit_with_id(
        &mut self,
        id: JobId,
        command: String,
        launched: Result<(), LaunchError>,
    ) -> (r: Result<JobId, SubmitError>)
        ensures
            refused(command@, launched) ==> r == Err::<JobId, SubmitError>(
                SubmitError::Launch(LaunchError::InvalidCommand),
            ) && final(self)@ == old(self)@,
            !refused(command@, launched) && old(self)@.contains_key(id) ==> r == Err::<
                JobId,
                SubmitError,
            >(SubmitError::IdTaken) && final(self)@ == old(self)@,
            !refused(command@, launched) && !old(self)@.contains_key(id) ==> r == Ok::<
                JobId,
                SubmitError,
            >(id) && final(self)@ == old(self)@.insert(
                id,
                JobRecord { command: command@, status: initial_status(launched) },
            ),
            evolves(old(self)@, final(self)@),
    {
        if is_blank(command.as_str()) || matches!(launched, Err(LaunchError::InvalidCommand)) {
            return Err(SubmitError::Launch(LaunchError::InvalidCommand));
        }
        if self.jobs.contains(id) {
            return Err(SubmitError::IdTaken);
        }
        let status = initial_status_of(launched);
        self.jobs.insert(id, Job { command, status });
        Ok(id)
    }

    /// Registers `command` under a new identifier and returns it. A few random
    /// UUIDs are drawn; should all be taken, the smallest free identifier is
    /// used. Every command line with a word gets an identifier that was not
    /// in the registry, and nothing ever leaves the registry, so it was never
    /// returned before.
    pub fn submit(&mut self, command: String, launched: Result<(), LaunchError>) -> (r: Result<
        JobId,
        SubmitError,
    >)
        ensures
            refused(command@, launched) ==> r == Err::<JobId, SubmitError>(
                SubmitError::Launch(LaunchError::InvalidCommand),
            ) && final(self)@ == old(self)@,
            !refused(command@, launched) ==> {
                &&& r is Ok
                &&& !old(self)@.contains_key(r->Ok_0)
                &&& final(self)@ == old(self)@.insert(
                    r->Ok_0,
                    JobRecord { command: command@, status: initial_status(launched) },
                )
            },
            evolves(old(self)@, final(self)@),
    {
        if is_blank(command.as_str()) || matches!(launched, Err(LaunchError::InvalidCommand)) {
            return Err(SubmitError::Launch(LaunchError::InvalidCommand));
        }
        let mut attempt: usize = 0;
        while attempt < ID_DRAWS
            invariant
                self@ == old(self)@,
                !refused(command@, launched),
            decreases ID_DRAWS - attempt,
        {
            let id = fresh_id();
            if !self.jobs.contains(id) {
                return self.submit_with_id(id, command, launched);
            }
            attempt = attempt + 1;
        }
        let id = self.jobs.free_id();
        self.submit_with_id(id, command, launched)
    }

    /// The current status of a job, without polling its process.
    pub fn status(&self, id: JobId) -> (r: Result<JobStatus, LookupError>)
        ensures
            self@.contains_key(id) ==> r == Ok::<JobStatus, LookupError>(self@[id].status),
            !self@.contains_key(id) ==> r == Err::<JobStatus, LookupError>(LookupError::NotFound),
    {
        match self.jobs.get_snapshot(id) {
            Some(s) => Ok(s),
            None => Err(LookupError::NotFound),
        }
    }

    /// Folds what a non-blocking poll of the job's process saw into its status,
    /// and returns the status. Only a `Running` job changes.
    pub fn reconcile(&mut self, id: JobId, seen: ProcessState) -> (r: Result<JobStatus, LookupError>)
        ensures
            old(self)@.contains_key(id) ==> {
                let rec = old(self)@[id];
                let s = reconciled(rec.status, seen);
                &&& r == Ok::<JobStatus, LookupError>(s)
                &&& final(self)@ == old(self)@.insert(id, JobRecord { command: rec.command, status: s })
            },
            !old(self)@.contains_key(id) ==> r == Err::<JobStatus, LookupError>(LookupError::NotFound)
                && final(self)@ == old(self)@,
            evolves(old(self)@, final(self)@),
    {
        match self.jobs.get_snapshot(id) {
            Some(current) => {
                let next = reconcile(current, seen);
                let _ = self.jobs.mutate_status(id, next);
                Ok(next)
            },
            None => Err(LookupError::NotFound),
        }
    }

    /// Whether a termination signal is owed to the job's process: only a job
    /// that is still `Running` gets one.
    pub fn kill_target(&self, id: JobId) -> (r: Result<(), KillError>)
        ensures
            !self@.contains_key(id) ==> r == Err::<(), KillError>(KillError::NotFound),
            self@.contains_key(id) && self@[id].status is Running ==> r is Ok,
            self@.contains_key(id) && self@[id].status.is_terminal() ==> r == Err::<(), KillError>(
                KillError::AlreadyTerminated,
            ),
    {
        match self.jobs.get_snapshot(id) {
            None => Err(KillError::NotFound),
            Some(s) => if s.is_running() {
                Ok(())
            } else {
                Err(KillError::AlreadyTerminated)
            },
        }
    }

    /// Records how the termination signal went: a `Running` job whose signal
    /// was delivered becomes `Killed`; every other status stays as it is.
    pub fn kill(&mut self, id: JobId, outcome: Result<(), TerminateError>) -> (r: Result<
        (),
        KillError,
    >)
        ensures
            old(self)@.contains_key(id) ==> {
                let rec = old(self)@[id];
                &&& r == kill_result(rec.status, outcome)
                &&& final(self)@ == old(self)@.insert(
                    id,
                    JobRecord { command: rec.command, status: after_terminate(rec.status, outcome) },
                )
            },
            !old(self)@.contains_key(id) ==> r == Err::<(), KillError>(KillError::NotFound)
                && final(self)@ == old(self)@,
            evolves(old(self)@, final(self)@),
    {
        match self.jobs.get_snapshot(id) {
            Some(current) => {
                let (next, result) = terminate_outcome(current, outcome);
                let _ = self.jobs.mutate_status(id, next);
                result
            },
            None => Err(KillError::NotFound),
        }
    }
}

} // verus!
