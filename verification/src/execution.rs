//! Applying what the engine says to what the application believes.
//!
//! The engine reports; it does not decide. Everything it sends is an
//! observation about one attempt, and two of those observations are traps.
//!
//! A repeat. Terminal events are sent once, but "once" is a property of a
//! process that did not crash halfway through saying it, and a retry can say it
//! again. Applying the second one is how a job that was cancelled becomes
//! completed.
//!
//! A ghost. A job is attempted again after its engine dies, and the abandoned
//! attempt can still be talking. Its messages name a job that exists and a
//! state that is plausible. What makes them wrong is only which attempt they
//! came from, so that is what is checked first: before the transition, because
//! a stale message usually carries a move that would be legal if it were
//! current.

use vstd::prelude::*;

use crate::job::{DurableJobKind, ExecutionStatus, JobStatus};
use crate::text::{name_ref, name_view, same};

verus! {

/// Why the application would not publish what the engine produced.
///
/// Where the job lands depends on it: work stopped because the person removed
/// the voice was cancelled, and work whose output cannot be used failed. Both
/// end the job, and calling them the same thing would tell the person their
/// deletion broke something.
#[derive(Clone, Copy, Debug, PartialEq, Eq, Structural)]
pub enum Rejection {
    /// The voice was deleted while this was generating. Refusing to publish is
    /// the deletion taking effect, not a failure.
    VoiceDeleted,
    /// The file is not there, is empty, or is not the audio it claimed to be.
    Unusable,
}

impl Rejection {
    pub open spec fn spec_job_target(self) -> JobStatus {
        match self {
            Rejection::VoiceDeleted => JobStatus::Cancelled,
            Rejection::Unusable => JobStatus::Failed,
        }
    }

    fn job_target(self) -> (target: JobStatus)
        ensures
            target == self.spec_job_target(),
    {
        match self {
            Rejection::VoiceDeleted => JobStatus::Cancelled,
            Rejection::Unusable => JobStatus::Failed,
        }
    }
}

/// What the engine has reported about an attempt.
///
/// On its own it is not enough to settle anything: what it means for the job
/// depends on the kind of work. Callers say which event happened, through
/// [`Job::execution_completed`] and the rest, and this is how that is carried
/// the short distance to the two records.
#[derive(Clone, Copy, Debug, PartialEq, Eq, Structural)]
pub enum Observation {
    Completed,
    Failed,
    Cancelled,
}

impl Observation {
    pub open spec fn spec_job_target(self) -> JobStatus {
        match self {
            Observation::Completed => JobStatus::Completed,
            Observation::Failed => JobStatus::Failed,
            Observation::Cancelled => JobStatus::Cancelled,
        }
    }

    pub open spec fn spec_execution_target(self) -> ExecutionStatus {
        match self {
            Observation::Completed => ExecutionStatus::Completed,
            Observation::Failed => ExecutionStatus::Failed,
            Observation::Cancelled => ExecutionStatus::Cancelled,
        }
    }

    fn job_target(&self) -> (target: JobStatus)
        ensures
            target == self.spec_job_target(),
    {
        match self {
            Observation::Completed => JobStatus::Completed,
            Observation::Failed => JobStatus::Failed,
            Observation::Cancelled => JobStatus::Cancelled,
        }
    }

    fn execution_target(&self) -> (target: ExecutionStatus)
        ensures
            target == self.spec_execution_target(),
    {
        match self {
            Observation::Completed => ExecutionStatus::Completed,
            Observation::Failed => ExecutionStatus::Failed,
            Observation::Cancelled => ExecutionStatus::Cancelled,
        }
    }
}

/// What became of an observation.
#[derive(Clone, Debug, PartialEq, Eq)]
pub enum Applied {
    /// Taken, and the job moved.
    Moved { to: JobStatus },
    /// From an attempt that is no longer the current one. Ignored: it describes
    /// work the application already stopped believing in.
    Stale { saw: String, current: Option<String> },
    /// The job already has an outcome, and an outcome does not change. A second
    /// completion, or a completion racing a cancellation that landed first.
    AlreadyFinished { state: JobStatus },
    /// Not a move this job can make from where it is.
    NotPermitted { from: JobStatus, to: JobStatus },
    /// The attempt finished and the job did not. What the engine produced is
    /// waiting to be checked, and until something checks it nothing has been
    /// decided: reporting this as a move would be the answer to a question
    /// nobody has asked yet.
    Awaiting { job: JobStatus },
}

/// [`Applied`] with its names as sequences of characters.
pub enum AppliedView {
    Moved { to: JobStatus },
    Stale { saw: Seq<char>, current: Option<Seq<char>> },
    AlreadyFinished { state: JobStatus },
    NotPermitted { from: JobStatus, to: JobStatus },
    Awaiting { job: JobStatus },
}

impl View for Applied {
    type V = AppliedView;

    open spec fn view(&self) -> AppliedView {
        match *self {
            Applied::Moved { to } => AppliedView::Moved { to },
            Applied::Stale { saw, current } => AppliedView::Stale {
                saw: saw@,
                current: name_view(current),
            },
            Applied::AlreadyFinished { state } => AppliedView::AlreadyFinished { state },
            Applied::NotPermitted { from, to } => AppliedView::NotPermitted { from, to },
            Applied::Awaiting { job } => AppliedView::Awaiting { job },
        }
    }
}

/// What there is to know about one attempt.
pub struct ExecutionView {
    pub id: Seq<char>,
    pub job_id: Seq<char>,
    pub session_id: Seq<char>,
    pub state: ExecutionStatus,
}

impl ExecutionView {
    /// The attempt after being told how it ended: the first ending it hears of
    /// is the one it keeps.
    pub open spec fn settled(self, to: ExecutionStatus) -> ExecutionView {
        if self.state.spec_can_move_to(to) {
            ExecutionView { state: to, ..self }
        } else {
            self
        }
    }
}

/// What there is to know about one job.
pub struct JobView {
    pub id: Seq<char>,
    pub kind: DurableJobKind,
    pub retry_of: Option<Seq<char>>,
    pub state: JobStatus,
    pub current_execution: Option<Seq<char>>,
}

impl JobView {
    /// A job nobody has started.
    pub open spec fn queued(
        id: Seq<char>,
        kind: DurableJobKind,
        retry_of: Option<Seq<char>>,
    ) -> JobView {
        JobView { id, kind, retry_of, state: JobStatus::Queued, current_execution: None }
    }

    /// A job as it was written down.
    pub open spec fn restored(
        id: Seq<char>,
        kind: DurableJobKind,
        state: JobStatus,
        current_execution: Option<Seq<char>>,
        retry_of: Option<Seq<char>>,
    ) -> JobView {
        JobView { id, kind, retry_of, state, current_execution }
    }

    /// Whether `attempt` is the one the application is listening to.
    pub open spec fn listens_to(self, attempt: ExecutionView) -> bool {
        self.current_execution == Some(attempt.id)
    }

    /// The answer to an attempt that is not the current one.
    pub open spec fn stale(self, attempt: ExecutionView) -> AppliedView {
        AppliedView::Stale { saw: attempt.id, current: self.current_execution }
    }

    /// The job asked to move to `to`: it moves where the table allows it, and
    /// says why not where the table does not.
    pub open spec fn moved(self, to: JobStatus) -> (JobView, AppliedView) {
        if self.state.spec_is_terminal() {
            (self, AppliedView::AlreadyFinished { state: self.state })
        } else if self.state.spec_can_move_to(to) {
            (JobView { state: to, ..self }, AppliedView::Moved { to })
        } else {
            (self, AppliedView::NotPermitted { from: self.state, to })
        }
    }

    /// Handing the job to the attempt named `execution`.
    pub open spec fn dispatch(self, execution: Seq<char>) -> (JobView, AppliedView) {
        let (next, answer) = self.moved(JobStatus::Running);
        if answer is Moved {
            (JobView { current_execution: Some(execution), ..next }, answer)
        } else {
            (next, answer)
        }
    }

    /// Asking for the job to stop. One that never started stops at once.
    pub open spec fn request_cancel(self) -> (JobView, AppliedView) {
        self.moved(
            if self.state is Queued {
                JobStatus::Cancelled
            } else {
                JobStatus::CancelRequested
            },
        )
    }

    /// Losing the engine. A job with no outcome yet goes back to waiting, or
    /// finishes the cancellation it was already under; either way nothing
    /// speaks for it any more.
    pub open spec fn interrupted(self, attempt: ExecutionView) -> (
        JobView,
        ExecutionView,
        AppliedView,
    ) {
        if self.state.spec_is_terminal() {
            (self, attempt, AppliedView::AlreadyFinished { state: self.state })
        } else {
            let to = if self.state is CancelRequested {
                JobStatus::Cancelled
            } else {
                JobStatus::Queued
            };
            (
                JobView { state: to, current_execution: None, ..self },
                attempt.settled(ExecutionStatus::Interrupted),
                AppliedView::Moved { to },
            )
        }
    }

    /// Whether `observation` ends the attempt and leaves the job to be decided.
    pub open spec fn awaits(self, observation: Observation) -> bool {
        observation is Completed && !self.kind.spec_completes_with_execution()
    }

    /// Something the engine reported about `attempt`. Only the attempt being
    /// listened to is heard, only while the job has no outcome; then either
    /// the attempt alone ends, or both do, or neither moves.
    pub open spec fn reported(self, attempt: ExecutionView, observation: Observation) -> (
        JobView,
        ExecutionView,
        AppliedView,
    ) {
        let ended = attempt.settled(observation.spec_execution_target());
        if !self.listens_to(attempt) {
            (self, attempt, self.stale(attempt))
        } else if self.awaits(observation) && !self.state.spec_is_terminal() {
            (self, ended, AppliedView::Awaiting { job: self.state })
        } else {
            let (next, answer) = self.moved(observation.spec_job_target());
            (
                next,
                if answer is Moved {
                    ended
                } else {
                    attempt
                },
                answer,
            )
        }
    }

    /// What the application decided about what `attempt` produced. There has to
    /// be something produced: an attempt that did not complete has nothing to
    /// publish or to refuse.
    pub open spec fn published(self, attempt: ExecutionView, target: JobStatus) -> (
        JobView,
        AppliedView,
    ) {
        if !self.listens_to(attempt) {
            (self, self.stale(attempt))
        } else if !(attempt.state is Completed) {
            (self, AppliedView::NotPermitted { from: self.state, to: target })
        } else if self.state is Running && target is Cancelled {
            // Nothing is left to be asked to stop: the attempt has already
            // finished, and declining what it made is what stops the job.
            (JobView { state: target, ..self }, AppliedView::Moved { to: target })
        } else {
            self.moved(target)
        }
    }
}

/// One engine's attempt at a job.
#[derive(Clone, Debug)]
pub struct Execution {
    pub id: String,
    pub job_id: String,
    /// Which engine ran it. After a restart, an attempt still marked running by
    /// a session that has ended was interrupted, with no inference required.
    pub session_id: String,
    state: ExecutionStatus,
}

impl View for Execution {
    type V = ExecutionView;

    closed spec fn view(&self) -> ExecutionView {
        ExecutionView {
            id: self.id@,
            job_id: self.job_id@,
            session_id: self.session_id@,
            state: self.state,
        }
    }
}

impl Execution {
    pub fn started(id: &str, job_id: &str, session_id: &str) -> (attempt: Execution)
        ensures
            attempt@ == (ExecutionView {
                id: id@,
                job_id: job_id@,
                session_id: session_id@,
                state: ExecutionStatus::Running,
            }),
    {
        Execution {
            id: id.to_owned(),
            job_id: job_id.to_owned(),
            session_id: session_id.to_owned(),
            state: ExecutionStatus::Running,
        }
    }

    pub fn id(&self) -> (id: &str)
        ensures
            id@ == self@.id,
    {
        self.id.as_str()
    }

    pub fn job_id(&self) -> (job_id: &str)
        ensures
            job_id@ == self@.job_id,
    {
        self.job_id.as_str()
    }

    pub fn session_id(&self) -> (session_id: &str)
        ensures
            session_id@ == self@.session_id,
    {
        self.session_id.as_str()
    }

    pub fn state(&self) -> (state: ExecutionStatus)
        ensures
            state == self@.state,
    {
        self.state
    }

    fn settle(&mut self, to: ExecutionStatus) -> (moved: bool)
        ensures
            moved == old(self)@.state.spec_can_move_to(to),
            final(self)@ == old(self)@.settled(to),
    {
        if !self.state.can_move_to(to) {
            return false;
        }
        self.state = to;
        true
    }

    /// The engine running this stopped. Terminal for the attempt, and a claim
    /// about nothing else.
    pub fn interrupt(&mut self) -> (moved: bool)
        ensures
            moved == (old(self)@.state is Running),
            final(self)@ == old(self)@.settled(ExecutionStatus::Interrupted),
    {
        self.settle(ExecutionStatus::Interrupted)
    }

    /// The engine finished the work.
    ///
    /// Settled alone, because finishing the computation and finishing the job
    /// are different events with a decision in between. The engine produced a
    /// file; whether that file becomes something the person has is for the
    /// application to say, after it has looked at the file and at what has
    /// happened since the work started.
    fn finished(&mut self, observation: Observation) -> (moved: bool)
        ensures
            moved == (old(self)@.state is Running),
            final(self)@ == old(self)@.settled(observation.spec_execution_target()),
    {
        self.settle(observation.execution_target())
    }
}

/// What the person asked for, and the attempt currently speaking for it.
#[derive(Clone, Debug)]
pub struct Job {
    pub id: String,
    pub kind: DurableJobKind,
    /// Set when this job exists because an earlier one ended badly and the
    /// person asked again. The original keeps its outcome.
    pub retry_of: Option<String>,
    state: JobStatus,
    current_execution: Option<String>,
}

impl View for Job {
    type V = JobView;

    closed spec fn view(&self) -> JobView {
        JobView {
            id: self.id@,
            kind: self.kind,
            retry_of: name_view(self.retry_of),
            state: self.state,
            current_execution: name_view(self.current_execution),
        }
    }
}

impl Job {
    pub fn queued(id: &str, kind: DurableJobKind) -> (job: Job)
        ensures
            job@ == JobView::queued(id@, kind, None),
    {
        Job {
            id: id.to_owned(),
            kind,
            retry_of: None,
            state: JobStatus::Queued,
            current_execution: None,
        }
    }

    /// A fresh job standing in for one that ended badly. The failure was an
    /// outcome and keeps it; this is the person asking a second time, which is
    /// a different thing from an engine trying again.
    pub fn retrying(id: &str, previous: &Job) -> (job: Job)
        ensures
            job@ == JobView::queued(id@, previous@.kind, Some(previous@.id)),
    {
        Job {
            id: id.to_owned(),
            kind: previous.kind,
            retry_of: Some(previous.id.clone()),
            state: JobStatus::Queued,
            current_execution: None,
        }
    }

    /// Rebuild a job from what was written down. The only way to arrive at a
    /// state without passing through the moves that lead to it, and therefore
    /// only for the store: everything else must go through the transitions.
    pub fn restored(
        id: &str,
        kind: DurableJobKind,
        state: JobStatus,
        current_execution: Option<String>,
        retry_of: Option<String>,
    ) -> (job: Job)
        ensures
            job@ == JobView::restored(
                id@,
                kind,
                state,
                name_view(current_execution),
                name_view(retry_of),
            ),
    {
        Job { id: id.to_owned(), kind, retry_of, state, current_execution }
    }

    pub fn id(&self) -> (id: &str)
        ensures
            id@ == self@.id,
    {
        self.id.as_str()
    }

    pub fn kind(&self) -> (kind: DurableJobKind)
        ensures
            kind == self@.kind,
    {
        self.kind
    }

    pub fn retry_of(&self) -> (previous: Option<&str>)
        ensures
            match previous {
                Some(previous) => self@.retry_of == Some(previous@),
                None => self@.retry_of is None,
            },
    {
        name_ref(&self.retry_of)
    }

    pub fn state(&self) -> (state: JobStatus)
        ensures
            state == self@.state,
    {
        self.state
    }

    pub fn current_execution(&self) -> (current: Option<&str>)
        ensures
            match current {
                Some(current) => self@.current_execution == Some(current@),
                None => self@.current_execution is None,
            },
    {
        name_ref(&self.current_execution)
    }

    fn is_current(&self, execution_id: &str) -> (current: bool)
        ensures
            current == (self@.current_execution == Some(execution_id@)),
    {
        match &self.current_execution {
            Some(current) => same(current.as_str(), execution_id),
            None => false,
        }
    }

    fn stale(&self, execution_id: &str) -> (answer: Applied)
        ensures
            answer@ == (AppliedView::Stale {
                saw: execution_id@,
                current: self@.current_execution,
            }),
    {
        Applied::Stale {
            saw: execution_id.to_owned(),
            current: self.current_execution.clone(),
        }
    }

    /// Hand the job to an attempt. The identifier is the application's to make:
    /// the engine cannot name an attempt it may be about to be replaced for.
    pub fn dispatch(&mut self, execution_id: &str) -> (answer: Applied)
        ensures
            (final(self)@, answer@) == old(self)@.dispatch(execution_id@),
    {
        if self.state.is_terminal() {
            return Applied::AlreadyFinished { state: self.state };
        }
        if !self.state.can_move_to(JobStatus::Running) {
            return Applied::NotPermitted { from: self.state, to: JobStatus::Running };
        }
        self.current_execution = Some(execution_id.to_owned());
        self.state = JobStatus::Running;
        Applied::Moved { to: self.state }
    }

    /// Note that stopping has been asked for. Not an outcome: the work may
    /// still finish before it reaches a point where it can stop.
    pub fn request_cancel(&mut self) -> (answer: Applied)
        ensures
            (final(self)@, answer@) == old(self)@.request_cancel(),
    {
        if self.state.is_terminal() {
            return Applied::AlreadyFinished { state: self.state };
        }
        let target = match self.state {
            // Never dispatched, so there is nothing to ask to stop.
            JobStatus::Queued => JobStatus::Cancelled,
            _ => JobStatus::CancelRequested,
        };
        if !self.state.can_move_to(target) {
            return Applied::NotPermitted { from: self.state, to: target };
        }
        self.state = target;
        Applied::Moved { to: target }
    }

    /// Take what the engine said, if it is still the engine we are listening to.
    ///
    /// Deliberately not public. Moving a job straight from what the engine
    /// said is right only where the engine's outcome is the job's, and a
    /// caller free to do it for synthesis could complete a job on the strength
    /// of a file nothing had read.
    fn observe(&mut self, execution_id: &str, observation: Observation) -> (answer: Applied)
        ensures
            old(self)@.current_execution == Some(execution_id@) ==> (final(self)@, answer@)
                == old(self)@.moved(observation.spec_job_target()),
            old(self)@.current_execution != Some(execution_id@) ==> {
                &&& final(self)@ == old(self)@
                &&& answer@ == (AppliedView::Stale {
                    saw: execution_id@,
                    current: old(self)@.current_execution,
                })
            },
    {
        if !self.is_current(execution_id) {
            return self.stale(execution_id);
        }
        if self.state.is_terminal() {
            return Applied::AlreadyFinished { state: self.state };
        }
        let target = observation.job_target();
        if !self.state.can_move_to(target) {
            return Applied::NotPermitted { from: self.state, to: target };
        }
        self.state = target;
        Applied::Moved { to: target }
    }

    /// The engine carrying this job is gone.
    ///
    /// Named for the event rather than exposed as a move to `Queued`. Returning
    /// running work to the queue is only ever right because the thing running it
    /// vanished, and a caller able to say so for any other reason could restart
    /// work that is still in progress. It is why the move is made here and is
    /// not in the table.
    ///
    /// The attempt is over; the job usually is not. It returns to waiting for
    /// an engine that can take it, unless stopping had already been asked for,
    /// in which case resuming would restart work the person cancelled, and the
    /// engine going is how that cancellation finally took effect.
    pub fn execution_interrupted(&mut self, execution: &mut Execution) -> (answer: Applied)
        ensures
            (final(self)@, final(execution)@, answer@) == old(self)@.interrupted(old(execution)@),
    {
        if self.state.is_terminal() {
            return Applied::AlreadyFinished { state: self.state };
        }
        execution.interrupt();
        self.current_execution = None;
        let target = match self.state {
            JobStatus::CancelRequested => JobStatus::Cancelled,
            // A job that was never dispatched is already where a later engine
            // will find it.
            _ => JobStatus::Queued,
        };
        self.state = target;
        Applied::Moved { to: target }
    }

    /// The engine finished this attempt successfully.
    ///
    /// Whether that finishes the job is the job kind's to say. For most kinds
    /// the engine's success is the outcome; for synthesis it is a file nobody
    /// has looked at, and the job waits for [`Job::take_published`] or
    /// [`Job::take_rejected`].
    pub fn execution_completed(&mut self, execution: &mut Execution) -> (answer: Applied)
        ensures
            (final(self)@, final(execution)@, answer@) == old(self)@.reported(
                old(execution)@,
                Observation::Completed,
            ),
    {
        self.engine_reported(execution, Observation::Completed)
    }

    /// The engine could not do it. Terminal for both: nothing was produced, so
    /// there is nothing left to decide.
    pub fn execution_failed(&mut self, execution: &mut Execution) -> (answer: Applied)
        ensures
            (final(self)@, final(execution)@, answer@) == old(self)@.reported(
                old(execution)@,
                Observation::Failed,
            ),
    {
        self.engine_reported(execution, Observation::Failed)
    }

    /// The engine stopped because it was asked to. Terminal for both, and for
    /// the same reason: what it stopped short of making is not wanted.
    pub fn execution_cancelled(&mut self, execution: &mut Execution) -> (answer: Applied)
        ensures
            (final(self)@, final(execution)@, answer@) == old(self)@.reported(
                old(execution)@,
                Observation::Cancelled,
            ),
    {
        self.engine_reported(execution, Observation::Cancelled)
    }

    /// The application checked what the engine produced and committed it. This
    /// is what finishes a synthesis job, not the engine finishing.
    pub fn take_published(&mut self, execution: &Execution) -> (answer: Applied)
        ensures
            (final(self)@, answer@) == old(self)@.published(execution@, JobStatus::Completed),
    {
        self.publication(execution, JobStatus::Completed)
    }

    /// The application checked what the engine produced and would not have it.
    pub fn take_rejected(&mut self, execution: &Execution, reason: Rejection) -> (answer: Applied)
        ensures
            (final(self)@, answer@) == old(self)@.published(execution@, reason.spec_job_target()),
    {
        self.publication(execution, reason.job_target())
    }

    /// Move both records for something the engine reported.
    ///
    /// Deliberately not public. It is the right shape only where the engine's
    /// outcome is the job's, and a caller free to use it for synthesis could
    /// complete a job on the strength of a file nothing had read.
    fn engine_reported(
        &mut self,
        execution: &mut Execution,
        observation: Observation,
    ) -> (answer: Applied)
        ensures
            (final(self)@, final(execution)@, answer@) == old(self)@.reported(
                old(execution)@,
                observation,
            ),
    {
        if observation == Observation::Completed && !self.kind.completes_with_execution() {
            // Staleness before anything else: an abandoned attempt's success is
            // not this job's, and must not even mark its own record finished
            // under a job that has moved on.
            if !self.is_current(execution.id.as_str()) {
                return self.stale(execution.id.as_str());
            }
            if self.state.is_terminal() {
                return Applied::AlreadyFinished { state: self.state };
            }
            execution.finished(observation);
            return Applied::Awaiting { job: self.state };
        }
        let outcome = self.observe(execution.id.as_str(), observation);
        if matches!(outcome, Applied::Moved { .. }) {
            execution.finished(observation);
        }
        outcome
    }

    /// Settle a job on what the application decided about the engine's output.
    fn publication(&mut self, execution: &Execution, target: JobStatus) -> (answer: Applied)
        ensures
            (final(self)@, answer@) == old(self)@.published(execution@, target),
    {
        if !self.is_current(execution.id.as_str()) {
            return self.stale(execution.id.as_str());
        }
        if execution.state() != ExecutionStatus::Completed {
            // Nothing was produced to publish or refuse. Publishing the output
            // of an attempt that did not finish is how a partial file becomes a
            // take.
            return Applied::NotPermitted { from: self.state, to: target };
        }
        if self.state.is_terminal() {
            return Applied::AlreadyFinished { state: self.state };
        }
        // The attempt has finished, so work still marked running has nothing to
        // be asked to stop: declining what it made is what stops the job.
        let declined = self.state == JobStatus::Running && target == JobStatus::Cancelled;
        if !declined && !self.state.can_move_to(target) {
            return Applied::NotPermitted { from: self.state, to: target };
        }
        self.state = target;
        Applied::Moved { to: target }
    }
}

} // verus!
