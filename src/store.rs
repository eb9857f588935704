use vstd::prelude::*;
use std::collections::HashMap;
use crate::job::{JobId, JobStatus, LookupError};

verus! {

broadcast use vstd::std_specs::hash::group_hash_axioms;

/// One submitted job: the command line it was given and its status.
pub struct Job {
    pub command: String,
    pub status: JobStatus,
}

/// What a job is, for contracts.
pub ghost struct JobRecord {
    pub command: Seq<char>,
    pub status: JobStatus,
}

impl Job {
    pub open spec fn record(&self) -> JobRecord {
        JobRecord { command: self.command@, status: self.status }
    }
}

/// The registry of all jobs, keyed by identifier. Jobs are never removed.
pub struct JobStore {
    jobs: HashMap<JobId, Job>,
}

impl View for JobStore {
    type V = Map<JobId, JobRecord>;

    closed spec fn view(&self) -> Map<JobId, JobRecord> {
        Map::new(|id: JobId| self.jobs@.contains_key(id), |id: JobId| self.jobs@[id].record())
    }
}

/// A finite set that holds every value below `k` has at least `k` members.
proof fn lemma_holds_all_below(s: Set<u128>, k: nat)
    requires
        s.finite(),
        k <= u128::MAX as nat + 1,
        forall|v: u128| (v as nat) < k ==> #[trigger] s.contains(v),
    ensures
        s.len() >= k,
    decreases k,
{
    if k > 0 {
        let top = (k - 1) as u128;
        let t = s.remove(top);
        assert forall|v: u128| (v as nat) < k - 1 implies #[trigger] t.contains(v) by {
            assert(s.contains(v));
        }
        lemma_holds_all_below(t, (k - 1) as nat);
        assert(s.contains(top));
    }
}

impl JobStore {
    pub fn new() -> (s: JobStore)
        ensures
            s@ == Map::<JobId, JobRecord>::empty(),
    {
        let s = JobStore { jobs: HashMap::new() };
        assert(s@ =~= Map::<JobId, JobRecord>::empty());
        s
    }

    pub fn contains(&self, id: JobId) -> (r: bool)
        ensures
            r == self@.contains_key(id),
    {
        self.jobs.contains_key(&id)
    }

    pub fn len(&self) -> (n: usize)
        ensures
            n == self@.len(),
    {
        assert(self@.dom() =~= self.jobs@.dom());
        self.jobs.len()
    }

    /// The smallest identifier that is not taken. One always exists: the
    /// registry is finite.
    pub fn free_id(&self) -> (r: JobId)
        ensures
            !self@.contains_key(r),
    {
        let n = self.len();
        assert(self@.dom() =~= self.jobs@.dom());
        let mut c: u128 = 0;
        while self.jobs.contains_key(&c)
            invariant
                c <= n as u128,
                n == self@.len(),
                self@.dom().finite(),
                forall|v: u128| v < c ==> #[trigger] self@.contains_key(v),
            decreases n as u128 - c,
        {
            proof {
                assert forall|v: u128| (v as nat) < c + 1 implies #[trigger] self@.dom().contains(v) by {
                    assert(v < c ==> self@.contains_key(v));
                }
                lemma_holds_all_below(self@.dom(), (c + 1) as nat);
            }
            c = c + 1;
        }
        c
    }

    /// Registers a job under an identifier that is not yet taken.
    pub fn insert(&mut self, id: JobId, job: Job)
        requires
            !old(self)@.contains_key(id),
        ensures
            final(self)@ == old(self)@.insert(id, job.record()),
    {
        self.jobs.insert(id, job);
        assert(final(self)@ =~= old(self)@.insert(id, job.record()));
    }

    /// A snapshot of the status of a job.
    pub fn get_snapshot(&self, id: JobId) -> (r: Option<JobStatus>)
        ensures
            r == (if self@.contains_key(id) { Some(self@[id].status) } else { None::<JobStatus> }),
    {
        match self.jobs.get(&id) {
            Some(job) => Some(job.status),
            None => None,
        }
    }

    /// Replaces the status of a job, keeping its command.
    pub fn mutate_status(&mut self, id: JobId, status: JobStatus) -> (r: Result<(), LookupError>)
        ensures
            old(self)@.contains_key(id) ==> r is Ok && final(self)@ == old(self)@.insert(
                id,
                JobRecord { command: old(self)@[id].command, status },
            ),
            !old(self)@.contains_key(id) ==> r == Err::<(), LookupError>(LookupError::NotFound)
                && final(self)@ == old(self)@,
    {
        match self.jobs.remove(&id) {
            Some(job) => {
                let updated = Job { command: job.command, status };
                self.jobs.insert(id, updated);
                assert(final(self)@ =~= old(self)@.insert(
                    id,
                    JobRecord { command: old(self)@[id].command, status },
                ));
                Ok(())
            },
            None => {
                assert(final(self)@ =~= old(self)@);
                Err(LookupError::NotFound)
            },
        }
    }
}

} // verus!
