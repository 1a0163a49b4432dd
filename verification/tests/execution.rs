//! The lifecycle of a durable job and its attempts.

use voicestudio::execution::Rejection;
use voicestudio::{Applied, DurableJobKind, Execution, ExecutionStatus, Job, JobStatus};

/// A dispatched job whose engine finishing is the whole of it, which is
/// what the lifecycle below is about. Synthesis has a decision after the
/// engine and gets its own tests.
fn dispatched() -> (Job, Execution) {
    started(DurableJobKind::ModelInstall)
}

/// A dispatched job that produces something for the application to check.
fn synthesising() -> (Job, Execution) {
    started(DurableJobKind::Synthesis)
}

fn started(kind: DurableJobKind) -> (Job, Execution) {
    let mut job = Job::queued("job-1", kind);
    assert_eq!(job.dispatch("exec-1"), Applied::Moved { to: JobStatus::Running });
    (job, Execution::started("exec-1", "job-1", "session-1"))
}

/// Terminal events are sent once by a process that did not crash halfway
/// through saying so. The second one must change nothing.
#[test]
fn a_repeated_completion_changes_nothing() {
    let (mut job, mut exec) = dispatched();
    assert_eq!(
        job.execution_completed(&mut exec),
        Applied::Moved { to: JobStatus::Completed }
    );
    assert_eq!(
        job.execution_completed(&mut exec),
        Applied::AlreadyFinished { state: JobStatus::Completed }
    );
    assert_eq!(job.state(), JobStatus::Completed);
    assert_eq!(exec.state(), ExecutionStatus::Completed);
}

#[test]
fn a_second_outcome_does_not_replace_the_first() {
    let (mut job, mut exec) = dispatched();
    job.execution_completed(&mut exec);
    assert_eq!(
        job.execution_failed(&mut exec),
        Applied::AlreadyFinished { state: JobStatus::Completed }
    );
    assert_eq!(job.state(), JobStatus::Completed);
}

/// The one that matters most: a completion cannot undo a cancellation.
#[test]
fn a_completion_cannot_undo_a_cancellation() {
    let (mut job, mut exec) = dispatched();
    job.request_cancel();
    job.execution_cancelled(&mut exec);
    assert_eq!(job.state(), JobStatus::Cancelled);
    assert_eq!(
        job.execution_completed(&mut exec),
        Applied::AlreadyFinished { state: JobStatus::Cancelled }
    );
    assert_eq!(job.state(), JobStatus::Cancelled);
}

/// But work that finished before it reached a checkpoint really finished.
#[test]
fn a_cancellation_that_arrived_too_late_still_completes() {
    let (mut job, mut exec) = dispatched();
    job.request_cancel();
    assert_eq!(job.state(), JobStatus::CancelRequested);
    assert_eq!(
        job.execution_completed(&mut exec),
        Applied::Moved { to: JobStatus::Completed }
    );
}

// The recovery sequence, one step per assertion.

/// Losing the engine ends the attempt and returns the job to waiting.
#[test]
fn an_interrupted_execution_returns_its_job_to_the_queue() {
    let (mut job, mut exec) = dispatched();
    assert_eq!(job.execution_interrupted(&mut exec), Applied::Moved { to: JobStatus::Queued });
    assert_eq!(exec.state(), ExecutionStatus::Interrupted);
    assert_eq!(job.state(), JobStatus::Queued);
    assert_eq!(job.current_execution(), None);
}

/// And a later engine can take it, as the same job.
#[test]
fn a_queued_job_is_dispatched_to_a_second_attempt() {
    let (mut job, mut first) = dispatched();
    job.execution_interrupted(&mut first);
    assert_eq!(job.dispatch("exec-2"), Applied::Moved { to: JobStatus::Running });
    assert_eq!(job.current_execution(), Some("exec-2"));
    assert_eq!(job.id, "job-1", "recovery changed which job this is");
}

/// The abandoned attempt can still be talking, and what it says is about
/// work the application stopped believing in.
#[test]
fn a_late_completion_from_the_first_attempt_is_ignored() {
    let (mut job, mut first) = dispatched();
    job.execution_interrupted(&mut first);
    job.dispatch("exec-2");
    assert_eq!(
        job.execution_completed(&mut first),
        Applied::Stale {
            saw: "exec-1".into(),
            current: Some("exec-2".into())
        }
    );
    assert_eq!(job.state(), JobStatus::Running, "a ghost moved the job");
}

/// And the attempt that is current settles it.
#[test]
fn the_second_attempt_completes_the_job() {
    let (mut job, mut first) = dispatched();
    job.execution_interrupted(&mut first);
    job.dispatch("exec-2");
    let mut second = Execution::started("exec-2", "job-1", "session-2");
    assert_eq!(
        job.execution_completed(&mut second),
        Applied::Moved { to: JobStatus::Completed }
    );
    assert_eq!(job.state(), JobStatus::Completed);
    assert_eq!(first.state(), ExecutionStatus::Interrupted);
    assert_eq!(second.state(), ExecutionStatus::Completed);
}

/// A job whose cancellation was already asked for does not come back when
/// the engine goes. Resuming would restart work the person stopped, and
/// killing the engine is how that cancellation took effect.
#[test]
fn losing_the_engine_mid_cancellation_finishes_the_cancellation() {
    let (mut job, mut exec) = dispatched();
    job.request_cancel();
    assert_eq!(
        job.execution_interrupted(&mut exec),
        Applied::Moved { to: JobStatus::Cancelled }
    );
    assert_eq!(exec.state(), ExecutionStatus::Interrupted);
}

/// The two ways a cancellation ends differ in what the attempt did, and the
/// difference is the whole diagnostic value: one engine stopped when asked,
/// the other was killed for not stopping.
#[test]
fn a_cancelled_attempt_and_an_abandoned_one_are_told_apart() {
    let (mut observed, mut stopped) = dispatched();
    observed.request_cancel();
    observed.execution_cancelled(&mut stopped);
    assert_eq!(observed.state(), JobStatus::Cancelled);
    assert_eq!(stopped.state(), ExecutionStatus::Cancelled);

    let (mut abandoned, mut vanished) = dispatched();
    abandoned.request_cancel();
    abandoned.execution_interrupted(&mut vanished);
    assert_eq!(abandoned.state(), JobStatus::Cancelled);
    assert_eq!(
        vanished.state(),
        ExecutionStatus::Interrupted,
        "an engine that was killed is not one that cancelled"
    );
}

/// An attempt that ended is not revived by recovery; recovery makes another.
#[test]
fn an_interrupted_attempt_stays_interrupted() {
    let (mut job, mut exec) = dispatched();
    job.execution_interrupted(&mut exec);
    assert!(!exec.interrupt(), "a finished attempt moved again");
    assert_eq!(exec.state(), ExecutionStatus::Interrupted);
}

/// Retrying something that genuinely failed is the person asking again,
/// which is a new job. The failure keeps its outcome.
#[test]
fn retrying_a_failure_is_a_new_job_that_remembers_the_old_one() {
    let (mut job, mut exec) = dispatched();
    job.execution_failed(&mut exec);
    assert_eq!(job.state(), JobStatus::Failed);

    let retry = Job::retrying("job-2", &job);
    assert_eq!(retry.retry_of.as_deref(), Some("job-1"));
    assert_eq!(retry.state(), JobStatus::Queued);
    assert_eq!(retry.kind, job.kind);
    assert_eq!(job.state(), JobStatus::Failed, "the retry rewrote history");
}

/// The case that makes them two events: the engine finishes the audio, and
/// the application refuses to publish it. Both records are true, and they
/// disagree.
#[test]
fn work_can_finish_while_the_job_it_was_for_is_cancelled() {
    let (mut job, mut exec) = synthesising();
    // Something happened that means this must not be published — a voice
    // being deleted — so stopping was asked for.
    job.request_cancel();
    // The engine got there first, which cooperative cancellation permits.
    assert_eq!(
        job.execution_completed(&mut exec),
        Applied::Awaiting { job: JobStatus::CancelRequested }
    );
    assert_eq!(exec.state(), ExecutionStatus::Completed);
    // The application looks at what it has and declines to keep it.
    assert_eq!(
        job.take_rejected(&exec, Rejection::VoiceDeleted),
        Applied::Moved { to: JobStatus::Cancelled }
    );

    assert_eq!(exec.state(), ExecutionStatus::Completed, "the attempt was rewritten");
    assert_eq!(job.state(), JobStatus::Cancelled);
}

/// And once the job is cancelled, the completion that produced the audio
/// cannot be applied to it afterwards.
#[test]
fn a_finished_attempt_cannot_complete_a_cancelled_job() {
    let (mut job, mut exec) = synthesising();
    job.request_cancel();
    job.execution_completed(&mut exec);
    job.take_rejected(&exec, Rejection::VoiceDeleted);
    assert_eq!(
        job.take_published(&exec),
        Applied::AlreadyFinished { state: JobStatus::Cancelled }
    );
}

#[test]
fn staleness_is_decided_before_the_transition_is() {
    let mut job = Job::queued("job-1", DurableJobKind::Synthesis);
    job.dispatch("exec-2");
    let mut abandoned = Execution::started("exec-1", "job-1", "session-1");
    assert!(matches!(
        job.execution_completed(&mut abandoned),
        Applied::Stale { .. }
    ));
    assert_eq!(job.state(), JobStatus::Running);
}

#[test]
fn an_event_for_an_undispatched_job_is_stale() {
    let mut job = Job::queued("job-1", DurableJobKind::Synthesis);
    let mut never_dispatched = Execution::started("exec-1", "job-1", "session-1");
    assert_eq!(
        job.execution_completed(&mut never_dispatched),
        Applied::Stale {
            saw: "exec-1".into(),
            current: None
        }
    );
    assert_eq!(job.state(), JobStatus::Queued);
}

#[test]
fn cancelling_a_queued_job_finishes_it_outright() {
    let mut job = Job::queued("job-1", DurableJobKind::Synthesis);
    assert_eq!(job.request_cancel(), Applied::Moved { to: JobStatus::Cancelled });
}

// Synthesis, where the engine finishing and the job finishing are two
// events with a decision between them.

/// The whole point of the split: a file exists, and nothing has decided
/// what it is yet.
#[test]
fn an_engine_completion_does_not_complete_a_synthesis_job() {
    let (mut job, mut exec) = synthesising();
    assert_eq!(
        job.execution_completed(&mut exec),
        Applied::Awaiting { job: JobStatus::Running }
    );
    assert_eq!(exec.state(), ExecutionStatus::Completed);
    assert_eq!(job.state(), JobStatus::Running, "a file nobody read finished the job");
}

#[test]
fn publishing_the_take_is_what_completes_it() {
    let (mut job, mut exec) = synthesising();
    job.execution_completed(&mut exec);
    assert_eq!(job.take_published(&exec), Applied::Moved { to: JobStatus::Completed });
    assert_eq!(job.state(), JobStatus::Completed);
}

/// Where the rejection lands says why it was rejected, and the person can
/// tell their own deletion from something going wrong.
#[test]
fn a_refusal_lands_where_its_reason_says() {
    let (mut deleted, mut one) = synthesising();
    deleted.execution_completed(&mut one);
    assert_eq!(
        deleted.take_rejected(&one, Rejection::VoiceDeleted),
        Applied::Moved { to: JobStatus::Cancelled }
    );

    let (mut broken, mut two) = synthesising();
    broken.execution_completed(&mut two);
    assert_eq!(
        broken.take_rejected(&two, Rejection::Unusable),
        Applied::Moved { to: JobStatus::Failed }
    );
}

/// An abandoned attempt's file is still on the disk, and publishing it
/// would give the person the output of work they never saw finish.
#[test]
fn a_stale_attempts_output_is_not_published() {
    let (mut job, mut first) = synthesising();
    job.execution_interrupted(&mut first);
    job.dispatch("exec-2");
    // The lost engine's process was still alive and finished after all.
    assert!(matches!(job.execution_completed(&mut first), Applied::Stale { .. }));
    assert_eq!(
        first.state(),
        ExecutionStatus::Interrupted,
        "a ghost rewrote its own record"
    );
    assert!(matches!(job.take_published(&first), Applied::Stale { .. }));
    assert_eq!(job.state(), JobStatus::Running);
}

/// Publication needs something that finished. Otherwise a partial file
/// becomes a take.
#[test]
fn an_unfinished_attempt_cannot_be_published() {
    let (mut job, exec) = synthesising();
    assert_eq!(
        job.take_published(&exec),
        Applied::NotPermitted { from: JobStatus::Running, to: JobStatus::Completed }
    );
    assert_eq!(job.state(), JobStatus::Running);
}

/// Publication happens once. A second one is the same crash-and-repeat case
/// the engine's terminal events have.
#[test]
fn a_take_is_published_once() {
    let (mut job, mut exec) = synthesising();
    job.execution_completed(&mut exec);
    job.take_published(&exec);
    assert_eq!(
        job.take_published(&exec),
        Applied::AlreadyFinished { state: JobStatus::Completed }
    );
}

/// A synthesis that failed in the engine produced nothing, so there is no
/// decision left and the job fails with it.
#[test]
fn a_synthesis_that_failed_in_the_engine_needs_no_publication() {
    let (mut job, mut exec) = synthesising();
    assert_eq!(job.execution_failed(&mut exec), Applied::Moved { to: JobStatus::Failed });
    assert_eq!(exec.state(), ExecutionStatus::Failed);
}

#[test]
fn a_finished_job_cannot_be_dispatched_again() {
    let (mut job, mut exec) = dispatched();
    job.execution_completed(&mut exec);
    assert_eq!(
        job.dispatch("exec-2"),
        Applied::AlreadyFinished { state: JobStatus::Completed }
    );
    assert_eq!(job.current_execution(), Some("exec-1"));
}

#[test]
fn a_job_is_rebuilt_from_what_was_written_down() {
    let job = Job::restored(
        "job-7",
        DurableJobKind::ModelInstall,
        JobStatus::CancelRequested,
        Some("exec-3".into()),
        Some("job-6".into()),
    );
    assert_eq!(job.state(), JobStatus::CancelRequested);
    assert_eq!(job.current_execution(), Some("exec-3"));
}

#[test]
fn a_job_rebuilt_from_what_is_read_off_it_is_the_same_job() {
    let (mut job, attempt) = dispatched();
    job.request_cancel();
    let again = Job::restored(
        job.id(),
        job.kind(),
        job.state(),
        job.current_execution().map(String::from),
        job.retry_of().map(String::from),
    );
    assert_eq!(again.id(), "job-1");
    assert_eq!(again.kind(), DurableJobKind::ModelInstall);
    assert_eq!(again.retry_of(), None);
    assert_eq!(again.state(), JobStatus::CancelRequested);
    assert_eq!(again.current_execution(), Some("exec-1"));
    assert_eq!(Job::retrying("job-2", &job).retry_of(), Some("job-1"));
    assert_eq!((attempt.id(), attempt.job_id(), attempt.session_id()), ("exec-1", "job-1", "session-1"));
}

#[test]
fn only_a_finished_current_attempt_is_published() {
    let (mut job, mut attempt) = synthesising();
    assert!(matches!(job.take_published(&attempt), Applied::NotPermitted { .. }));
    assert_eq!(job.state(), JobStatus::Running);
    job.execution_completed(&mut attempt);
    let ghost = Execution::started("exec-9", "job-1", "session-1");
    assert!(matches!(job.take_published(&ghost), Applied::Stale { .. }));
    assert_eq!(job.take_published(&attempt), Applied::Moved { to: JobStatus::Completed });
    assert_eq!(job.current_execution(), Some("exec-1"));
    assert!(matches!(job.execution_failed(&mut attempt), Applied::AlreadyFinished { .. }));
    let mut late = Execution::started("exec-9", "job-1", "session-1");
    assert!(matches!(job.execution_failed(&mut late), Applied::Stale { .. }), "even then");
}
