//! Worker pool decisions: how an execution's outcome is reported back to
//! the queue, and the pool's settings.
use vstd::prelude::*;

use crate::pipeline::PipelineError;
use crate::queue::{ack_outcome, fail_outcome, JobEntry, JobQueue, JobStatus, QueueError, MAX_ATTEMPTS};

verus! {

/// Settings of the worker pool.
pub struct WorkerConfig {
    /// Number of executors running at once.
    pub concurrency: usize,
    /// Least time between two polls of an executor that found nothing due.
    pub poll_interval_ms: u64,
    /// Attempts a job gets.
    pub max_attempts: u32,
    /// Seconds after which a lease that was never settled is reclaimed.
    pub lease_timeout_secs: i64,
}

impl WorkerConfig {
    /// Settings for `concurrency` executors polling every `poll_interval_ms`
    /// and reclaiming leases older than `lease_timeout_secs`; `None` unless
    /// there is at least one executor and the timeout is positive.
    pub fn new(concurrency: usize, poll_interval_ms: u64, lease_timeout_secs: i64) -> (r: Option<WorkerConfig>)
        ensures
            r is Some <==> concurrency >= 1 && lease_timeout_secs >= 1,
            r is Some ==> r->Some_0.concurrency == concurrency && r->Some_0.poll_interval_ms
                == poll_interval_ms && r->Some_0.max_attempts == MAX_ATTEMPTS
                && r->Some_0.lease_timeout_secs == lease_timeout_secs,
    {
        if concurrency >= 1 && lease_timeout_secs >= 1 {
            Some(WorkerConfig { concurrency, poll_interval_ms, max_attempts: MAX_ATTEMPTS, lease_timeout_secs })
        } else {
            None
        }
    }
}

/// The outcome is reported to the queue as a failure, to be retried. A
/// missing definition is not (retrying cannot bring it back), nor is a
/// rescheduling error (the execution it follows was archived and is complete).
pub open spec fn reports_failure(outcome: Result<(), PipelineError>) -> bool {
    outcome == Err::<(), PipelineError>(PipelineError::Transport) || outcome == Err::<(), PipelineError>(
        PipelineError::Storage,
    )
}

/// What `ack` returned, as `settle` reports it.
pub open spec fn ack_result(r: Result<JobStatus, QueueError>) -> Result<(), QueueError> {
    match r {
        Ok(_) => Ok(()),
        Err(e) => Err(e),
    }
}

/// Reports the outcome of executing the leased entry `job`: `fail` on a
/// transport or storage error, so that the queue retries it or gives it up,
/// `ack` otherwise. Returns the entry's new status. A lease that was
/// reclaimed since is refused.
pub fn settle(queue: &mut JobQueue, job: JobEntry, outcome: Result<(), PipelineError>) -> (r: Result<
    JobStatus,
    QueueError,
>)
    requires
        old(queue).wf(),
    ensures
        final(queue).wf(),
        reports_failure(outcome) ==> fail_outcome(old(queue)@, job.id as int, job.attempts, final(queue)@, r),
        !reports_failure(outcome) ==> ack_outcome(
            old(queue)@,
            job.id as int,
            job.attempts,
            final(queue)@,
            ack_result(r),
        ),
        !reports_failure(outcome) && r is Ok ==> r == Ok::<JobStatus, QueueError>(JobStatus::Done),
{
    let failed = match outcome {
        Err(PipelineError::Transport) => true,
        Err(PipelineError::Storage) => true,
        _ => false,
    };
    if failed {
        queue.fail(job.id, job.attempts)
    } else {
        match queue.ack(job.id, job.attempts) {
            Ok(()) => Ok(JobStatus::Done),
            Err(e) => Err(e),
        }
    }
}

} // verus!
