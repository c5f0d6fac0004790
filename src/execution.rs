//! One execution of a leased job, as a state machine: each method takes what
//! the last outside step produced and returns the next step to perform.
use vstd::prelude::*;

use crate::pipeline::{
    build_record, build_request, is_record_for, is_request_for, reschedule,
    reschedule_outcome, FetchDefinition, HeaderSet, HttpResponse, OutboundRequest, ExecutionRecord,
    PipelineError, ScheduleSpec,
};
use crate::queue::{JobEntry, JobQueue};

verus! {

/// Where an execution stands.
#[derive(Clone, Copy, Debug, PartialEq, Eq, Structural)]
pub enum Stage {
    Resolving,
    Headers,
    Sending,
    Archiving,
    Policy,
    Pointer,
    Finished,
}

/// The next outside step of an execution.
pub enum Action {
    /// Look up the fetch definition with this id.
    LoadDefinition(i32),
    /// Look up the header set with this id.
    LoadHeaders(i32),
    /// Make this HTTP call.
    Send(OutboundRequest),
    /// Append this record to the archive.
    Archive(ExecutionRecord),
    /// Look up the schedule policy with this id.
    LoadPolicy(i32),
    /// Store this job id as the definition's current job.
    UpdateCurrentJob(i32, u64),
    /// The execution is over, with this outcome.
    Finish(Result<(), PipelineError>),
}

/// Order of the stages: every step moves strictly forward.
pub open spec fn stage_rank(s: Stage) -> int {
    match s {
        Stage::Resolving => 0,
        Stage::Headers => 1,
        Stage::Sending => 2,
        Stage::Archiving => 3,
        Stage::Policy => 4,
        Stage::Pointer => 5,
        Stage::Finished => 6,
    }
}

/// What the rescheduling step returned, read back from the action it led to.
pub open spec fn reschedule_result(a: Action) -> Result<Option<u64>, PipelineError> {
    match a {
        Action::UpdateCurrentJob(_, id) => Ok(Some(id)),
        Action::Finish(Ok(())) => Ok(None),
        _ => Err(PipelineError::Reschedule),
    }
}

/// A step's action and the stage it leads to agree.
pub open spec fn action_fits(a: Action, s: Stage) -> bool {
    match a {
        Action::LoadDefinition(_) => s == Stage::Resolving,
        Action::LoadHeaders(_) => s == Stage::Headers,
        Action::Send(_) => s == Stage::Sending,
        Action::Archive(_) => s == Stage::Archiving,
        Action::LoadPolicy(_) => s == Stage::Policy,
        Action::UpdateCurrentJob(_, _) => s == Stage::Pointer,
        Action::Finish(_) => s == Stage::Finished,
    }
}

/// Each execution archives at most once: along any run of steps, each moving
/// to a later stage with an action that fits it, no two actions are
/// `Archive`. The archive is only ever appended to, so running a definition
/// again adds a new record and leaves the earlier ones as they were.
pub proof fn lemma_archive_once(stages: Seq<Stage>, actions: Seq<Action>, i: int, j: int)
    requires
        stages.len() == actions.len() + 1,
        forall|k: int|
            0 <= k < actions.len() ==> stage_rank(#[trigger] stages[k + 1]) > stage_rank(stages[k]),
        forall|k: int| 0 <= k < actions.len() ==> action_fits(#[trigger] actions[k], stages[k + 1]),
        0 <= i < j < actions.len(),
    ensures
        !(actions[i] is Archive && actions[j] is Archive),
{
    lemma_rank_grows(stages, actions, i + 1, j + 1);
    assert(action_fits(actions[i], stages[i + 1]));
    assert(action_fits(actions[j], stages[j + 1]));
}

proof fn lemma_rank_grows(stages: Seq<Stage>, actions: Seq<Action>, i: int, j: int)
    requires
        stages.len() == actions.len() + 1,
        forall|k: int|
            0 <= k < actions.len() ==> stage_rank(#[trigger] stages[k + 1]) > stage_rank(stages[k]),
        0 <= i < j < stages.len(),
    ensures
        stage_rank(stages[j]) > stage_rank(stages[i]),
    decreases j - i,
{
    assert(stage_rank(stages[(j - 1) + 1]) > stage_rank(stages[j - 1]));
    if i < j - 1 {
        lemma_rank_grows(stages, actions, i, j - 1);
    }
}

/// A run of a non-repeating definition ends when its policy is read: with
/// success, with nothing enqueued, with no pointer update asked for, and with
/// the definition's current job as it was. (`on_policy` ensures the
/// `reschedule_outcome` this takes.)
pub proof fn lemma_single_run_keeps_pointer(
    q: Seq<JobEntry>,
    d: FetchDefinition,
    policy: ScheduleSpec,
    now: int,
    q2: Seq<JobEntry>,
    d2: FetchDefinition,
    a: Action,
)
    requires
        reschedule_outcome(q, d, policy, now, q2, d2, reschedule_result(a)),
        !policy.is_repeat,
    ensures
        a == Action::Finish(Ok(())),
        q2 == q,
        d2.current_job == d.current_job,
        d2 == d,
{
    match a {
        Action::Finish(r) => match r {
            Ok(u) => {
                assert(u == ());
            },
            Err(_) => {
                assert(reschedule_result(a) is Err);
            },
        },
        _ => {},
    }
}

/// An execution in progress.
pub struct Execution {
    pub job: JobEntry,
    pub stage: Stage,
    pub definition: Option<FetchDefinition>,
}

impl Execution {
    /// Past resolution and before the end, the definition is known.
    pub open spec fn wf(&self) -> bool {
        (self.stage != Stage::Resolving && self.stage != Stage::Finished) ==> self.definition is Some
    }

    /// Starts executing `job`: its definition is looked up first.
    pub fn start(job: JobEntry) -> (r: (Execution, Action))
        ensures
            r.0.wf(),
            r.0.job == job,
            r.0.stage == Stage::Resolving,
            r.0.definition is None,
            r.1 == Action::LoadDefinition(job.fetch_id),
    {
        (Execution { job, stage: Stage::Resolving, definition: None }, Action::LoadDefinition(job.fetch_id))
    }

    /// The definition lookup returned `found` (`None`: it does not exist).
    /// A missing definition ends the execution; otherwise its header set is
    /// looked up, or, when it names none, the request is sent.
    pub fn on_definition(&mut self, found: Option<FetchDefinition>) -> (a: Action)
        requires
            old(self).stage == Stage::Resolving,
        ensures
            final(self).wf(),
            final(self).job == old(self).job,
            stage_rank(final(self).stage) > stage_rank(old(self).stage),
            action_fits(a, final(self).stage),
            found is None ==> a == Action::Finish(Err(PipelineError::NotFound)),
            found is Some ==> final(self).definition == found,
            found is Some ==> match found->Some_0.header_id {
                Some(h) => a == Action::LoadHeaders(h),
                None => a is Send && is_request_for(a->Send_0, found->Some_0, None),
            },
    {
        match found {
            None => {
                self.stage = Stage::Finished;
                Action::Finish(Err(PipelineError::NotFound))
            },
            Some(d) => {
                match d.header_id {
                    Some(h) => {
                        self.definition = Some(d);
                        self.stage = Stage::Headers;
                        Action::LoadHeaders(h)
                    },
                    None => {
                        let req = build_request(&d, None);
                        self.definition = Some(d);
                        self.stage = Stage::Sending;
                        Action::Send(req)
                    },
                }
            },
        }
    }

    /// The header lookup returned `found` (`None`: it failed). The request
    /// is sent in any case, without custom headers when the lookup failed.
    pub fn on_headers(&mut self, found: Option<HeaderSet>) -> (a: Action)
        requires
            old(self).wf(),
            old(self).stage == Stage::Headers,
        ensures
            final(self).wf(),
            final(self).job == old(self).job,
            stage_rank(final(self).stage) > stage_rank(old(self).stage),
            final(self).definition == old(self).definition,
            final(self).stage == Stage::Sending,
            a is Send,
            is_request_for(a->Send_0, old(self).definition->Some_0, found),
    {
        let req = build_request(self.definition.as_ref().unwrap(), found);
        self.stage = Stage::Sending;
        Action::Send(req)
    }

    /// The HTTP call returned `resp` at `now` (`None`: it failed below the
    /// HTTP level, which ends the execution with a transport error). A
    /// response, whatever its status, becomes the record to archive.
    pub fn on_response(&mut self, resp: Option<HttpResponse>, now: i64) -> (a: Action)
        requires
            old(self).wf(),
            old(self).stage == Stage::Sending,
        ensures
            final(self).wf(),
            final(self).job == old(self).job,
            stage_rank(final(self).stage) > stage_rank(old(self).stage),
            final(self).definition == old(self).definition,
            action_fits(a, final(self).stage),
            resp is None ==> a == Action::Finish(Err(PipelineError::Transport)),
            resp is Some ==> a is Archive && is_record_for(
                a->Archive_0,
                old(self).definition->Some_0,
                resp->Some_0,
                now as int,
            ),
    {
        match resp {
            None => {
                self.stage = Stage::Finished;
                Action::Finish(Err(PipelineError::Transport))
            },
            Some(r) => {
                let rec = build_record(self.definition.as_ref().unwrap(), r, now);
                self.stage = Stage::Archiving;
                Action::Archive(rec)
            },
        }
    }

    /// The archive append succeeded (`stored`) or failed. After a success the
    /// definition's schedule policy is looked up.
    pub fn on_archived(&mut self, stored: bool) -> (a: Action)
        requires
            old(self).wf(),
            old(self).stage == Stage::Archiving,
        ensures
            final(self).wf(),
            final(self).job == old(self).job,
            stage_rank(final(self).stage) > stage_rank(old(self).stage),
            final(self).definition == old(self).definition,
            action_fits(a, final(self).stage),
            stored ==> a == Action::LoadPolicy(old(self).definition->Some_0.execute_id),
            !stored ==> a == Action::Finish(Err(PipelineError::Storage)),
    {
        if stored {
            self.stage = Stage::Policy;
            Action::LoadPolicy(self.definition.as_ref().unwrap().execute_id)
        } else {
            self.stage = Stage::Finished;
            Action::Finish(Err(PipelineError::Storage))
        }
    }

    /// The policy lookup returned `policy` (`None`: it failed) and the run
    /// completed at `now`. A repeating policy enqueues the next job on
    /// `queue`; the definition's pointer is then updated.
    pub fn on_policy(&mut self, queue: &mut JobQueue, policy: Option<ScheduleSpec>, now: i64) -> (a: Action)
        requires
            old(self).wf(),
            old(self).stage == Stage::Policy,
            old(queue).wf(),
        ensures
            final(self).wf(),
            final(queue).wf(),
            final(self).job == old(self).job,
            stage_rank(final(self).stage) > stage_rank(old(self).stage),
            action_fits(a, final(self).stage),
            policy is None ==> a == Action::Finish(Err(PipelineError::Reschedule)) && final(queue)@ == old(queue)@
                && final(self).definition == old(self).definition,
            policy is Some ==> final(self).definition is Some && reschedule_outcome(
                old(queue)@,
                old(self).definition->Some_0,
                policy->Some_0,
                now as int,
                final(queue)@,
                final(self).definition->Some_0,
                reschedule_result(a),
            ),
            a is UpdateCurrentJob ==> a->UpdateCurrentJob_0 == old(self).definition->Some_0.id,
            a is Finish ==> a->Finish_0 is Ok || a->Finish_0 == Err::<(), PipelineError>(PipelineError::Reschedule),
    {
        let p = match policy {
            Some(p) => p,
            None => {
                self.stage = Stage::Finished;
                return Action::Finish(Err(PipelineError::Reschedule));
            },
        };
        let mut d = self.definition.take().unwrap();
        let r = reschedule(queue, &mut d, &p, now);
        let fid = d.id;
        self.definition = Some(d);
        match r {
            Ok(Some(id)) => {
                self.stage = Stage::Pointer;
                Action::UpdateCurrentJob(fid, id)
            },
            Ok(None) => {
                self.stage = Stage::Finished;
                Action::Finish(Ok(()))
            },
            Err(e) => {
                self.stage = Stage::Finished;
                Action::Finish(Err(e))
            },
        }
    }

    /// The pointer update succeeded (`stored`) or failed; either way the
    /// execution is over, and a failure is a rescheduling error.
    pub fn on_pointer_updated(&mut self, stored: bool) -> (a: Action)
        requires
            old(self).stage == Stage::Pointer,
        ensures
            final(self).job == old(self).job,
            stage_rank(final(self).stage) > stage_rank(old(self).stage),
            final(self).definition == old(self).definition,
            final(self).stage == Stage::Finished,
            stored ==> a == Action::Finish(Ok(())),
            !stored ==> a == Action::Finish(Err(PipelineError::Reschedule)),
    {
        self.stage = Stage::Finished;
        if stored {
            Action::Finish(Ok(()))
        } else {
            Action::Finish(Err(PipelineError::Reschedule))
        }
    }
}

} // verus!
