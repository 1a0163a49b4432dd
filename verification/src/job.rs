//! Work that has to be accounted for after an interruption.

use vstd::prelude::*;

verus! {

/// Work whose outcome has to be reconciled if the application or the engine
/// stops partway. Each of these coordinates something a database alone cannot
/// undo: a file written, an artefact fetched, a recording deleted.
#[derive(Clone, Copy, Debug, PartialEq, Eq, Structural)]
pub enum DurableJobKind {
    Synthesis,
    ModelInstall,
    ModelDelete,
    VoiceDelete,
}

impl DurableJobKind {
    /// Whether the engine finishing is the whole of the job. Synthesis is the
    /// exception: it leaves a file nobody has looked at, and the job waits for
    /// a decision about it.
    pub open spec fn spec_completes_with_execution(self) -> bool {
        self != DurableJobKind::Synthesis
    }

    pub fn completes_with_execution(self) -> (whole: bool)
        ensures
            whole == self.spec_completes_with_execution(),
    {
        match self {
            DurableJobKind::Synthesis => false,
            DurableJobKind::ModelInstall
            | DurableJobKind::ModelDelete
            | DurableJobKind::VoiceDelete => true,
        }
    }
}

#[derive(Clone, Copy, Debug, PartialEq, Eq, Structural, Hash)]
pub enum JobStatus {
    Queued,
    Running,
    /// Cancellation asked for, not yet reached. The work is still running and
    /// may still finish first: this is a request, not an outcome.
    CancelRequested,
    Completed,
    Failed,
    Cancelled,
    /// The engine stopped while this was in flight. Distinct from `Failed`:
    /// nothing about the work itself went wrong, and a retry is reasonable.
    Interrupted,
}

impl JobStatus {
    /// The states with an outcome in them.
    pub open spec fn spec_is_terminal(self) -> bool {
        self is Completed || self is Failed || self is Cancelled || self is Interrupted
    }

    /// The table of moves. A job waits, then runs, and may be asked to stop on
    /// the way to an outcome; anything absent is refused.
    pub open spec fn spec_can_move_to(self, next: JobStatus) -> bool {
        match self {
            // Never dispatched, so nothing has to be asked to stop.
            JobStatus::Queued => next is Running || next is Cancelled || next is Failed,
            // Still doing the work, so being stopped takes a request first.
            JobStatus::Running => next is CancelRequested || next is Completed || next is Failed
                || next is Interrupted,
            // The request may lose the race, and finishing is then the honest
            // outcome.
            JobStatus::CancelRequested => next.spec_is_terminal(),
            _ => false,
        }
    }

    /// Whether this is the last thing that will ever be said about the job.
    pub fn is_terminal(self) -> (terminal: bool)
        ensures
            terminal == self.spec_is_terminal(),
    {
        matches!(
            self,
            JobStatus::Completed | JobStatus::Failed | JobStatus::Cancelled | JobStatus::Interrupted
        )
    }

    /// Every move the job registry will make. Anything absent is refused, so
    /// adding a state forces a decision about it rather than defaulting to
    /// permitted.
    pub fn can_move_to(self, next: JobStatus) -> (allowed: bool)
        ensures
            allowed == self.spec_can_move_to(next),
    {
        matches!(
            (self, next),
            (JobStatus::Queued, JobStatus::Running)
                | (JobStatus::Queued, JobStatus::Cancelled)
                | (JobStatus::Queued, JobStatus::Failed)
                | (JobStatus::Running, JobStatus::CancelRequested)
                | (JobStatus::Running, JobStatus::Completed)
                | (JobStatus::Running, JobStatus::Failed)
                | (JobStatus::Running, JobStatus::Interrupted)
                | (JobStatus::CancelRequested, JobStatus::Completed)
                | (JobStatus::CancelRequested, JobStatus::Cancelled)
                | (JobStatus::CancelRequested, JobStatus::Failed)
                | (JobStatus::CancelRequested, JobStatus::Interrupted)
        )
    }
}

/// Where one engine's attempt at a job stands.
#[derive(Clone, Copy, Debug, PartialEq, Eq, Structural, Hash)]
pub enum ExecutionStatus {
    Running,
    Completed,
    Failed,
    Cancelled,
    /// The engine running it went away.
    Interrupted,
}

impl ExecutionStatus {
    /// An attempt runs, then ends once.
    pub open spec fn spec_can_move_to(self, next: ExecutionStatus) -> bool {
        self is Running && !(next is Running)
    }

    pub fn can_move_to(self, next: ExecutionStatus) -> (allowed: bool)
        ensures
            allowed == self.spec_can_move_to(next),
    {
        matches!(
            (self, next),
            (ExecutionStatus::Running, ExecutionStatus::Completed)
                | (ExecutionStatus::Running, ExecutionStatus::Failed)
                | (ExecutionStatus::Running, ExecutionStatus::Cancelled)
                | (ExecutionStatus::Running, ExecutionStatus::Interrupted)
        )
    }
}

/// Nothing leaves a terminal state: once the job has an outcome, that is the
/// outcome, whatever a late message says.
pub proof fn lemma_nothing_leaves_a_terminal_state(from: JobStatus, to: JobStatus)
    requires
        from.spec_is_terminal(),
    ensures
        !from.spec_can_move_to(to),
{
}

/// Every terminal state can be reached from some other state.
pub proof fn lemma_every_terminal_state_is_reachable(terminal: JobStatus)
    requires
        terminal.spec_is_terminal(),
    ensures
        exists|from: JobStatus| from.spec_can_move_to(terminal),
{
    if terminal is Cancelled {
        assert(JobStatus::Queued.spec_can_move_to(terminal));
    } else {
        assert(JobStatus::Running.spec_can_move_to(terminal));
    }
}

/// No job is queued or running again once it has left that state: the table
/// has no way back to waiting, and no move stays where it is.
pub proof fn lemma_the_table_only_goes_forward(from: JobStatus, to: JobStatus)
    requires
        from.spec_can_move_to(to),
    ensures
        from != to,
        !(to is Queued),
        to is Running ==> from is Queued,
        !to.spec_can_move_to(from),
{
}

/// An attempt that ended does not move again.
pub proof fn lemma_a_finished_attempt_stays_finished(from: ExecutionStatus, to: ExecutionStatus)
    requires
        !(from is Running),
    ensures
        !from.spec_can_move_to(to),
{
}

/// Where a job can stand: three states have no outcome in them and four are
/// one, and a state without an outcome can always reach a failure.
pub proof fn lemma_a_job_has_an_outcome_or_can_fail(state: JobStatus)
    ensures
        state is Queued || state is Running || state is CancelRequested <==> state.spec_can_move_to(
            JobStatus::Failed,
        ),
        state is Completed || state is Failed || state is Cancelled || state is Interrupted <==> (
        forall|to: JobStatus| !state.spec_can_move_to(to)),
        state.spec_is_terminal() <==> !state.spec_can_move_to(JobStatus::Failed),
{
    if !state.spec_is_terminal() {
        assert(state.spec_can_move_to(JobStatus::Failed));
    }
}

/// How a job gets anywhere: only waiting work is started or cancelled outright,
/// only running work is asked to stop, and only work that was started completes
/// or is interrupted.
pub proof fn lemma_where_each_state_is_reached_from(from: JobStatus)
    ensures
        from.spec_can_move_to(JobStatus::Running) <==> from is Queued,
        from.spec_can_move_to(JobStatus::CancelRequested) <==> from is Running,
        from.spec_can_move_to(JobStatus::Cancelled) <==> from is Queued || from is CancelRequested,
        from.spec_can_move_to(JobStatus::Completed) <==> from is Running || from is CancelRequested,
        from.spec_can_move_to(JobStatus::Interrupted) <==> from is Running
            || from is CancelRequested,
        !from.spec_can_move_to(JobStatus::Queued),
{
}

/// A running attempt can end in each of the four ways an attempt ends.
pub proof fn lemma_an_attempt_ends_in_one_of_four_ways(to: ExecutionStatus)
    ensures
        ExecutionStatus::Running.spec_can_move_to(to) <==> to is Completed || to is Failed
            || to is Cancelled || to is Interrupted,
{
}

} // verus!
