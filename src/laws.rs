use vstd::prelude::*;
use crate::job::{
    after_terminate, kill_result, reconciled, JobId, JobStatus, KillError, ProcessState,
    TerminateError,
};
use crate::manager::evolves;
use crate::store::JobRecord;

verus! {

/// A job whose process exits is seen to have exited with its own code at the
/// next status query, and a job whose process still runs stays `Running`.
pub proof fn exit_is_reported(code: i32)
    ensures
        reconciled(JobStatus::Running, ProcessState::Exited(code)) == JobStatus::Exited(code),
        reconciled(JobStatus::Running, ProcessState::StillRunning) == JobStatus::Running,
{
}

/// The status of a job after a run of status queries whose polls saw `seen`,
/// in order.
pub open spec fn after_polls(status: JobStatus, seen: Seq<ProcessState>) -> JobStatus
    decreases seen.len(),
{
    if seen.len() == 0 {
        status
    } else {
        reconciled(after_polls(status, seen.drop_last()), seen.last())
    }
}

proof fn polls_up_to(seen: Seq<ProcessState>, k: int, code: i32, n: int)
    requires
        0 <= k < seen.len(),
        seen[k] == ProcessState::Exited(code),
        forall|j: int| 0 <= j < k ==> seen[j] == ProcessState::StillRunning,
        0 <= n <= seen.len(),
    ensures
        after_polls(JobStatus::Running, seen.take(n)) == (if n <= k {
            JobStatus::Running
        } else {
            JobStatus::Exited(code)
        }),
    decreases n,
{
    if n > 0 {
        polls_up_to(seen, k, code, n - 1);
        assert(seen.take(n).drop_last() == seen.take(n - 1));
        assert(seen.take(n).last() == seen[n - 1]);
    }
}

/// Status queries on a running job report `Running` until the first poll
/// that sees its process exit with `code`; from that query on they report
/// `Exited(code)`, whatever later polls see.
pub proof fn polls_settle_on_exit(seen: Seq<ProcessState>, k: int, code: i32)
    requires
        0 <= k < seen.len(),
        seen[k] == ProcessState::Exited(code),
        forall|j: int| 0 <= j < k ==> seen[j] == ProcessState::StillRunning,
    ensures
        forall|j: int| 0 <= j < k ==> after_polls(JobStatus::Running, #[trigger] seen.take(j + 1)) == JobStatus::Running,
        forall|j: int| k <= j < seen.len() ==> after_polls(JobStatus::Running, #[trigger] seen.take(j + 1))
            == JobStatus::Exited(code),
{
    assert forall|j: int| 0 <= j < seen.len() implies after_polls(JobStatus::Running, #[trigger] seen.take(j + 1))
        == (if j < k { JobStatus::Running } else { JobStatus::Exited(code) }) by {
        polls_up_to(seen, k, code, j + 1);
    }
}

/// A kill whose signal reached a running job succeeds and leaves it `Killed`,
/// and every later status query reports `Killed`, whatever the poll sees.
pub proof fn killed_stays_killed(seen: ProcessState)
    ensures
        kill_result(JobStatus::Running, Ok(())) == Ok::<(), KillError>(()),
        after_terminate(JobStatus::Running, Ok(())) == JobStatus::Killed,
        reconciled(after_terminate(JobStatus::Running, Ok(())), seen) == JobStatus::Killed,
{
}

/// A kill of a job that has already terminated reports `AlreadyTerminated`
/// and leaves the recorded status as it is; so does any later poll.
pub proof fn terminal_status_is_final(
    status: JobStatus,
    outcome: Result<(), TerminateError>,
    seen: ProcessState,
)
    requires
        status.is_terminal(),
    ensures
        kill_result(status, outcome) == Err::<(), KillError>(KillError::AlreadyTerminated),
        after_terminate(status, outcome) == status,
        reconciled(status, seen) == status,
{
}

proof fn evolves_across(hist: Seq<Map<JobId, JobRecord>>, i: int, j: int)
    requires
        0 <= i <= j < hist.len(),
        forall|k: int| 0 <= k < hist.len() - 1 ==> evolves(#[trigger] hist[k], hist[k + 1]),
    ensures
        forall|id: JobId| #[trigger] hist[i].contains_key(id) ==> hist[j].contains_key(id),
    decreases j - i,
{
    if i < j {
        evolves_across(hist, i, j - 1);
        assert(evolves(hist[j - 1], hist[j]));
    }
}

/// Over any run of operations, each of which only lets the registry evolve
/// (as every operation of `JobManager` does), two steps that each bring in a
/// new identifier bring in different ones: no identifier is handed out twice.
pub proof fn new_ids_never_repeat(hist: Seq<Map<JobId, JobRecord>>, i: int, j: int, a: JobId, b: JobId)
    requires
        forall|k: int| 0 <= k < hist.len() - 1 ==> evolves(#[trigger] hist[k], hist[k + 1]),
        0 <= i < j < hist.len() - 1,
        !hist[i].contains_key(a),
        hist[i + 1].contains_key(a),
        !hist[j].contains_key(b),
        hist[j + 1].contains_key(b),
    ensures
        a != b,
{
    evolves_across(hist, i + 1, j);
}

/// A run of `n` successful submissions, each registering a fresh identifier
/// (which `JobManager::submit` promises for every command line with a word),
/// leaves `n` more jobs, each under its own identifier with its own record:
/// none is lost and none is registered twice. Callers that share a manager
/// take turns under one lock, so their submissions form such a run.
pub proof fn submissions_accumulate(
    hist: Seq<Map<JobId, JobRecord>>,
    ids: Seq<JobId>,
    recs: Seq<JobRecord>,
)
    requires
        hist.len() == ids.len() + 1,
        recs.len() == ids.len(),
        hist[0].dom().finite(),
        forall|k: int| 0 <= k < ids.len() ==> !(#[trigger] hist[k]).contains_key(ids[k]),
        forall|k: int| 0 <= k < ids.len() ==> #[trigger] hist[k + 1] == hist[k].insert(ids[k], recs[k]),
    ensures
        hist.last().dom().finite(),
        hist.last().len() == hist[0].len() + ids.len(),
        forall|k: int| 0 <= k < ids.len() ==> #[trigger] hist.last().contains_key(ids[k]) && hist.last()[ids[k]] == recs[k],
        forall|k: int, l: int| 0 <= k < l < ids.len() ==> ids[k] != ids[l],
        forall|id: JobId| #[trigger] hist[0].contains_key(id) ==> hist.last().contains_key(id),
    decreases ids.len(),
{
    if ids.len() > 0 {
        let n = ids.len() - 1;
        let h = hist.drop_last();
        let i = ids.drop_last();
        let r = recs.drop_last();
        assert forall|k: int| 0 <= k < i.len() implies !(#[trigger] h[k]).contains_key(i[k]) by {
            assert(h[k] == hist[k]);
        }
        assert forall|k: int| 0 <= k < i.len() implies #[trigger] h[k + 1] == h[k].insert(i[k], r[k]) by {
            assert(h[k + 1] == hist[k + 1]);
            assert(h[k] == hist[k]);
        }
        submissions_accumulate(h, i, r);
        assert(h.last() == hist[n]);
        assert(hist.last() == hist[n].insert(ids[n], recs[n]));
        assert(!hist[n].contains_key(ids[n]));
        assert forall|k: int| 0 <= k < ids.len() implies #[trigger] hist.last().contains_key(ids[k])
            && hist.last()[ids[k]] == recs[k] by {
            if k < n {
                assert(i[k] == ids[k] && r[k] == recs[k]);
                assert(h.last().contains_key(i[k]));
                assert(ids[k] != ids[n]);
            }
        }
        assert forall|k: int, l: int| 0 <= k < l < ids.len() implies ids[k] != ids[l] by {
            if l == n {
                assert(h.last().contains_key(i[k]));
            } else {
                assert(i[k] != i[l]);
            }
        }
    }
}

} // verus!
