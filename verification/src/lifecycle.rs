//! What holds of a job through everything that can happen to it.

use vstd::prelude::*;

use crate::execution::{AppliedView, ExecutionView, JobView, Observation, Rejection};
use crate::job::{DurableJobKind, ExecutionStatus, JobStatus};

verus! {

/// Everything that can happen to a job after it has been queued.
pub enum Event {
    Dispatched { execution: Seq<char> },
    CancelAsked,
    EngineLost { attempt: ExecutionView },
    Reported { attempt: ExecutionView, observation: Observation },
    Published { attempt: ExecutionView },
    Rejected { attempt: ExecutionView, reason: Rejection },
}

/// The job after one event, and the answer to it.
pub open spec fn after(job: JobView, event: Event) -> (JobView, AppliedView) {
    match event {
        Event::Dispatched { execution } => job.dispatch(execution),
        Event::CancelAsked => job.request_cancel(),
        Event::EngineLost { attempt } => {
            let (next, _, answer) = job.interrupted(attempt);
            (next, answer)
        },
        Event::Reported { attempt, observation } => {
            let (next, _, answer) = job.reported(attempt, observation);
            (next, answer)
        },
        Event::Published { attempt } => job.published(attempt, JobStatus::Completed),
        Event::Rejected { attempt, reason } => job.published(attempt, reason.spec_job_target()),
    }
}

/// The job after a whole history of events.
pub open spec fn after_all(job: JobView, events: Seq<Event>) -> JobView
    decreases events.len(),
{
    if events.len() == 0 {
        job
    } else {
        after(after_all(job, events.drop_last()), events.last()).0
    }
}

/// Something speaks for a job exactly while it is being worked on, and nothing
/// speaks for one that waits.
pub open spec fn spoken_for(job: JobView) -> bool {
    &&& job.state is Running || job.state is CancelRequested ==> job.current_execution is Some
    &&& job.state is Queued ==> job.current_execution is None
}

/// An outcome does not change. Whatever arrives after a job has one, the job is
/// left exactly as it was, and the answer is never that it moved.
pub proof fn lemma_an_outcome_does_not_change(job: JobView, event: Event)
    requires
        job.state.spec_is_terminal(),
    ensures
        after(job, event).0 == job,
        !(after(job, event).1 is Moved),
        !(after(job, event).1 is Awaiting),
{
}

/// An outcome does not change through any history either.
pub proof fn lemma_an_outcome_is_kept(job: JobView, events: Seq<Event>)
    requires
        job.state.spec_is_terminal(),
    ensures
        after_all(job, events) == job,
    decreases events.len(),
{
    if events.len() > 0 {
        lemma_an_outcome_is_kept(job, events.drop_last());
        lemma_an_outcome_does_not_change(job, events.last());
    }
}

/// A completion cannot undo a cancellation: a cancelled job told afterwards
/// that its attempt completed, or that its output was published, is still
/// cancelled.
pub proof fn lemma_a_completion_cannot_undo_a_cancellation(job: JobView, attempt: ExecutionView)
    requires
        job.state is Cancelled,
    ensures
        job.reported(attempt, Observation::Completed).0 == job,
        job.published(attempt, JobStatus::Completed).0 == job,
{
}

/// But work that finished before it could be stopped really finished: where the
/// engine's success is the whole of the job, a request to stop that arrived
/// too late leaves the job completed.
pub proof fn lemma_a_late_request_still_completes(job: JobView, attempt: ExecutionView)
    requires
        job.state is CancelRequested,
        job.listens_to(attempt),
        job.kind.spec_completes_with_execution(),
    ensures
        job.reported(attempt, Observation::Completed).0 == (JobView {
            state: JobStatus::Completed,
            ..job
        }),
        job.reported(attempt, Observation::Completed).2 == (AppliedView::Moved {
            to: JobStatus::Completed,
        }),
{
}

/// A ghost changes nothing. What an attempt that is not the current one
/// reports, and what is decided about what it produced, leaves the job and the
/// attempt's own record as they were and is answered as stale, whatever move it
/// carries.
pub proof fn lemma_a_ghost_changes_nothing(
    job: JobView,
    attempt: ExecutionView,
    observation: Observation,
    target: JobStatus,
)
    requires
        !job.listens_to(attempt),
    ensures
        job.reported(attempt, observation) == (job, attempt, job.stale(attempt)),
        job.published(attempt, target) == (job, job.stale(attempt)),
{
}

/// A job whose engine was lost, and which was handed to another attempt, no
/// longer hears the first one.
pub proof fn lemma_recovery_silences_the_first_attempt(
    job: JobView,
    first: ExecutionView,
    second: Seq<char>,
    observation: Observation,
)
    requires
        job.state is Running,
        first.id != second,
    ensures
        ({
            let (waiting, abandoned, _) = job.interrupted(first);
            let (resumed, answer) = waiting.dispatch(second);
            &&& answer == (AppliedView::Moved { to: JobStatus::Running })
            &&& resumed == (JobView { current_execution: Some(second), ..job })
            &&& resumed.reported(abandoned, observation) == (
                resumed,
                abandoned,
                AppliedView::Stale { saw: first.id, current: Some(second) },
            )
        }),
{
}

/// What a report may do. It is answered as stale exactly when the attempt is
/// not the current one, whether or not the job has an outcome; any answer but
/// that the job moved, or that it waits for a decision, leaves both records
/// alone; and what the job is, and which attempt speaks for it, never change.
pub proof fn lemma_what_a_report_may_do(
    job: JobView,
    attempt: ExecutionView,
    observation: Observation,
)
    ensures
        ({
            let (next, ended, answer) = job.reported(attempt, observation);
            &&& answer is Stale <==> job.current_execution != Some(attempt.id)
            &&& answer is Stale ==> answer == (AppliedView::Stale {
                saw: attempt.id,
                current: job.current_execution,
            })
            &&& !(answer is Moved) && !(answer is Awaiting) ==> next == job && ended == attempt
            &&& answer is Awaiting ==> next == job
            &&& answer matches AppliedView::Moved { to } ==> next.state == to && to
                == observation.spec_job_target()
            &&& next.id == job.id
            &&& next.kind == job.kind
            &&& next.retry_of == job.retry_of
            &&& next.current_execution == job.current_execution
        }),
{
}

/// What a publication may do. It moves a job only where the job has no outcome
/// yet, from the current attempt, once that attempt has completed, and only to
/// what was decided; any other answer leaves the job alone; and what the job
/// is, and which attempt speaks for it, never change.
pub proof fn lemma_what_a_publication_may_do(
    job: JobView,
    attempt: ExecutionView,
    target: JobStatus,
)
    ensures
        ({
            let (next, answer) = job.published(attempt, target);
            &&& answer matches AppliedView::Moved { to } ==> {
                &&& to == target
                &&& next.state == target
                &&& job.current_execution == Some(attempt.id)
                &&& attempt.state is Completed
                &&& !job.state.spec_is_terminal()
            }
            &&& !(answer is Moved) ==> next == job
            &&& next.id == job.id
            &&& next.kind == job.kind
            &&& next.retry_of == job.retry_of
            &&& next.current_execution == job.current_execution
        }),
{
}

/// What was written down is rebuilt unchanged: a job restored from what is read
/// off a job, in whatever state, is that job again.
pub proof fn lemma_what_was_written_down_is_rebuilt(job: JobView)
    ensures
        JobView::restored(job.id, job.kind, job.state, job.current_execution, job.retry_of) == job,
{
}

/// Saying it twice is saying it once. A terminal report that is repeated
/// changes neither record the second time.
pub proof fn lemma_a_repeat_changes_nothing(
    job: JobView,
    attempt: ExecutionView,
    observation: Observation,
)
    ensures
        ({
            let (once_job, once_attempt, _) = job.reported(attempt, observation);
            let (twice_job, twice_attempt, _) = once_job.reported(once_attempt, observation);
            twice_job == once_job && twice_attempt == once_attempt
        }),
{
}

/// The first thing settled about an attempt is kept: an attempt that has ended
/// is left alone by every later event about it.
pub proof fn lemma_an_ended_attempt_is_not_rewritten(
    job: JobView,
    attempt: ExecutionView,
    observation: Observation,
)
    requires
        !(attempt.state is Running),
    ensures
        job.reported(attempt, observation).1 == attempt,
        job.interrupted(attempt).1 == attempt,
{
}

/// The engine finishing does not finish a synthesis job. It ends the attempt,
/// and the job waits where it was.
pub proof fn lemma_synthesis_waits_for_a_decision(job: JobView, attempt: ExecutionView)
    requires
        !job.kind.spec_completes_with_execution(),
        job.listens_to(attempt),
        !job.state.spec_is_terminal(),
    ensures
        job.reported(attempt, Observation::Completed) == (
            job,
            attempt.settled(ExecutionStatus::Completed),
            AppliedView::Awaiting { job: job.state },
        ),
{
}

/// Publication is the only thing that completes a synthesis job, and only with
/// an attempt that is the current one and has completed.
pub proof fn lemma_only_publication_completes_synthesis(job: JobView, event: Event)
    requires
        !job.kind.spec_completes_with_execution(),
        !(job.state is Completed),
        after(job, event).0.state is Completed,
    ensures
        event matches Event::Published { attempt } && job.listens_to(attempt)
            && attempt.state is Completed,
{
}

/// What an attempt that did not complete left behind is neither published nor
/// refused.
pub proof fn lemma_an_unfinished_attempt_is_not_published(
    job: JobView,
    attempt: ExecutionView,
    target: JobStatus,
)
    requires
        !(attempt.state is Completed),
    ensures
        job.published(attempt, target).0 == job,
        !(job.published(attempt, target).1 is Moved),
{
}

/// A refusal lands where its reason says: a deleted voice cancels the job and
/// an unusable file fails it, where the job is being worked on and its attempt
/// has completed.
pub proof fn lemma_a_refusal_lands_where_its_reason_says(
    job: JobView,
    attempt: ExecutionView,
    reason: Rejection,
)
    requires
        job.state is Running || job.state is CancelRequested,
        job.listens_to(attempt),
        attempt.state is Completed,
    ensures
        job.published(attempt, reason.spec_job_target()) == (
            JobView { state: reason.spec_job_target(), ..job },
            AppliedView::Moved { to: reason.spec_job_target() },
        ),
{
}

/// Losing the engine returns a job to waiting, and one already asked to stop is
/// stopped by it rather than started again.
pub proof fn lemma_losing_the_engine(job: JobView, attempt: ExecutionView)
    requires
        !job.state.spec_is_terminal(),
    ensures
        job.interrupted(attempt).0.current_execution is None,
        job.interrupted(attempt).0.state == if job.state is CancelRequested {
            JobStatus::Cancelled
        } else {
            JobStatus::Queued
        },
        attempt.state is Running ==> job.interrupted(attempt).1.state is Interrupted,
{
}

/// The two ways a cancellation ends are told apart by what the attempt did: one
/// engine stopped when asked, the other was lost.
pub proof fn lemma_stopped_and_lost_are_told_apart(job: JobView, attempt: ExecutionView)
    requires
        job.state is CancelRequested,
        job.listens_to(attempt),
        attempt.state is Running,
    ensures
        job.reported(attempt, Observation::Cancelled).0.state is Cancelled,
        job.reported(attempt, Observation::Cancelled).1.state is Cancelled,
        job.interrupted(attempt).0.state is Cancelled,
        job.interrupted(attempt).1.state is Interrupted,
{
}

/// Every move a job makes is in the table, with two exceptions that belong to
/// one event each: only the loss of an engine returns running work to waiting,
/// and only the refusal of what was made for a deleted voice cancels work that
/// nobody asked to stop. What the job is never changes.
pub proof fn lemma_every_move_is_in_the_table(job: JobView, event: Event)
    ensures
        after(job, event).0.id == job.id,
        after(job, event).0.kind == job.kind,
        after(job, event).0.retry_of == job.retry_of,
        after(job, event).0.state == job.state || job.state.spec_can_move_to(
            after(job, event).0.state,
        ) || (event is EngineLost && job.state is Running && after(job, event).0.state is Queued)
            || (event matches Event::Rejected { reason, .. } && reason is VoiceDeleted
            && job.state is Running && after(job, event).0.state is Cancelled),
{
}

/// A job that was queued is spoken for exactly while it is being worked on,
/// through any history.
pub proof fn lemma_only_running_work_is_spoken_for(job: JobView, events: Seq<Event>)
    requires
        spoken_for(job),
    ensures
        spoken_for(after_all(job, events)),
    decreases events.len(),
{
    if events.len() > 0 {
        lemma_only_running_work_is_spoken_for(job, events.drop_last());
    }
}

/// The engine finishing is the whole of an install and of a deletion: the job
/// and its attempt both complete. What it synthesised waits for a decision,
/// and only the attempt is over.
pub proof fn lemma_the_engine_finishing_ends_all_but_synthesis(
    job: JobView,
    attempt: ExecutionView,
)
    requires
        job.state is Running || job.state is CancelRequested,
        job.current_execution == Some(attempt.id),
        attempt.state is Running,
    ensures
        job.kind is ModelInstall || job.kind is ModelDelete || job.kind is VoiceDelete
            ==> job.reported(attempt, Observation::Completed) == (
            JobView { state: JobStatus::Completed, ..job },
            ExecutionView { state: ExecutionStatus::Completed, ..attempt },
            AppliedView::Moved { to: JobStatus::Completed },
        ),
        job.kind is Synthesis ==> job.reported(attempt, Observation::Completed) == (
            job,
            ExecutionView { state: ExecutionStatus::Completed, ..attempt },
            AppliedView::Awaiting { job: job.state },
        ),
{
}

/// What the engine could not do has failed, whatever kind of work it was and
/// whether or not stopping had been asked for.
pub proof fn lemma_the_engine_failing_fails_the_job(job: JobView, attempt: ExecutionView)
    requires
        job.state is Running || job.state is CancelRequested,
        job.current_execution == Some(attempt.id),
        attempt.state is Running,
    ensures
        job.reported(attempt, Observation::Failed) == (
            JobView { state: JobStatus::Failed, ..job },
            ExecutionView { state: ExecutionStatus::Failed, ..attempt },
            AppliedView::Moved { to: JobStatus::Failed },
        ),
{
}

/// The engine stopping cancels a job that was asked to stop, and is not
/// believed of one that was not.
pub proof fn lemma_the_engine_stopping_needs_a_request(job: JobView, attempt: ExecutionView)
    requires
        job.current_execution == Some(attempt.id),
        attempt.state is Running,
    ensures
        job.state is CancelRequested ==> job.reported(attempt, Observation::Cancelled) == (
            JobView { state: JobStatus::Cancelled, ..job },
            ExecutionView { state: ExecutionStatus::Cancelled, ..attempt },
            AppliedView::Moved { to: JobStatus::Cancelled },
        ),
        job.state is Running ==> job.reported(attempt, Observation::Cancelled) == (
            job,
            attempt,
            AppliedView::NotPermitted { from: JobStatus::Running, to: JobStatus::Cancelled },
        ),
{
}

/// Work that waits is handed to the attempt that was named, and work that does
/// not wait is not handed to anyone.
pub proof fn lemma_waiting_work_is_handed_out(job: JobView, execution: Seq<char>)
    ensures
        job.state is Queued ==> job.dispatch(execution) == (
            JobView {
                state: JobStatus::Running,
                current_execution: Some(execution),
                ..job
            },
            AppliedView::Moved { to: JobStatus::Running },
        ),
        job.state is Running || job.state is CancelRequested ==> job.dispatch(execution) == (
            job,
            AppliedView::NotPermitted { from: job.state, to: JobStatus::Running },
        ),
        job.state is Completed || job.state is Failed || job.state is Cancelled
            || job.state is Interrupted ==> job.dispatch(execution) == (
            job,
            AppliedView::AlreadyFinished { state: job.state },
        ),
{
}

/// Asking for work to stop ends it at once only where it never started; once
/// it runs the request is noted, and noted once.
pub proof fn lemma_a_request_to_stop(job: JobView)
    ensures
        job.state is Queued ==> job.request_cancel() == (
            JobView { state: JobStatus::Cancelled, ..job },
            AppliedView::Moved { to: JobStatus::Cancelled },
        ),
        job.state is Running ==> job.request_cancel() == (
            JobView { state: JobStatus::CancelRequested, ..job },
            AppliedView::Moved { to: JobStatus::CancelRequested },
        ),
        job.state is CancelRequested ==> job.request_cancel() == (
            job,
            AppliedView::NotPermitted {
                from: JobStatus::CancelRequested,
                to: JobStatus::CancelRequested,
            },
        ),
        job.state is Completed || job.state is Failed || job.state is Cancelled
            || job.state is Interrupted ==> job.request_cancel() == (
            job,
            AppliedView::AlreadyFinished { state: job.state },
        ),
{
}

/// What is decided about what a completed attempt made ends the job: published,
/// it completes; made for a voice that was deleted, it is cancelled; unusable,
/// it failed.
pub proof fn lemma_a_decision_ends_the_job(job: JobView, attempt: ExecutionView)
    requires
        job.state is Running || job.state is CancelRequested,
        job.current_execution == Some(attempt.id),
        attempt.state is Completed,
    ensures
        after(job, Event::Published { attempt }) == (
            JobView { state: JobStatus::Completed, ..job },
            AppliedView::Moved { to: JobStatus::Completed },
        ),
        after(job, Event::Rejected { attempt, reason: Rejection::VoiceDeleted }) == (
            JobView { state: JobStatus::Cancelled, ..job },
            AppliedView::Moved { to: JobStatus::Cancelled },
        ),
        after(job, Event::Rejected { attempt, reason: Rejection::Unusable }) == (
            JobView { state: JobStatus::Failed, ..job },
            AppliedView::Moved { to: JobStatus::Failed },
        ),
{
}

/// Losing the engine leaves the job with nothing speaking for it: work is put
/// back, or its cancellation is over, and the attempt was interrupted.
pub proof fn lemma_lost_work_goes_back(job: JobView, attempt: ExecutionView)
    requires
        attempt.state is Running,
    ensures
        job.state is Queued || job.state is Running ==> job.interrupted(attempt) == (
            JobView { state: JobStatus::Queued, current_execution: None, ..job },
            ExecutionView { state: ExecutionStatus::Interrupted, ..attempt },
            AppliedView::Moved { to: JobStatus::Queued },
        ),
        job.state is CancelRequested ==> job.interrupted(attempt) == (
            JobView { state: JobStatus::Cancelled, current_execution: None, ..job },
            ExecutionView { state: ExecutionStatus::Interrupted, ..attempt },
            AppliedView::Moved { to: JobStatus::Cancelled },
        ),
        job.state is Completed || job.state is Failed || job.state is Cancelled
            || job.state is Interrupted ==> job.interrupted(attempt) == (
            job,
            attempt,
            AppliedView::AlreadyFinished { state: job.state },
        ),
{
}

/// A late message from the current attempt is answered with the outcome there
/// is, whatever the message and the kind of work.
pub proof fn lemma_a_late_message_hears_the_outcome(
    job: JobView,
    attempt: ExecutionView,
    observation: Observation,
)
    requires
        job.state is Completed || job.state is Failed || job.state is Cancelled
            || job.state is Interrupted,
        job.current_execution == Some(attempt.id),
    ensures
        job.reported(attempt, observation) == (
            job,
            attempt,
            AppliedView::AlreadyFinished { state: job.state },
        ),
        attempt.state is Completed ==> after(job, Event::Published { attempt }) == (
            job,
            AppliedView::AlreadyFinished { state: job.state },
        ),
{
}

/// A job begins waiting, with nothing speaking for it, and one that stands in
/// for another says which.
pub proof fn lemma_a_job_begins_waiting(
    id: Seq<char>,
    kind: DurableJobKind,
    retry_of: Option<Seq<char>>,
)
    ensures
        JobView::queued(id, kind, retry_of) == JobView::restored(
            id,
            kind,
            JobStatus::Queued,
            None,
            retry_of,
        ),
        JobView::queued(id, kind, retry_of).id == id,
        JobView::queued(id, kind, retry_of).kind == kind,
        JobView::queued(id, kind, retry_of).retry_of == retry_of,
        JobView::queued(id, kind, retry_of).state is Queued,
        JobView::queued(id, kind, retry_of).current_execution is None,
{
}

} // verus!
