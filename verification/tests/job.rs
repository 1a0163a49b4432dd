//! The moves a job may make.

use voicestudio::job::JobStatus::{
    self, CancelRequested, Cancelled, Completed, Failed, Interrupted, Queued, Running,
};

/// Every state, so the table below can be exhaustive. The match is what
/// keeps it honest: a new variant stops this compiling until it is listed.
const ALL: [JobStatus; 7] = [
    Queued,
    Running,
    CancelRequested,
    Completed,
    Failed,
    Cancelled,
    Interrupted,
];

#[test]
fn job_every_state_appears_in_the_table() {
    for state in ALL {
        match state {
            Queued | Running | CancelRequested | Completed | Failed | Cancelled
            | Interrupted => {}
        }
    }
}

/// Stated once, checked against every pair. A move that is not written
/// here is refused, so a new state cannot arrive quietly permitted.
const ALLOWED: &[(JobStatus, JobStatus)] = &[
    (Queued, Running),
    (Queued, Cancelled),
    (Queued, Failed),
    (Running, CancelRequested),
    (Running, Completed),
    (Running, Failed),
    (Running, Interrupted),
    (CancelRequested, Completed),
    (CancelRequested, Cancelled),
    (CancelRequested, Failed),
    (CancelRequested, Interrupted),
];

#[test]
fn job_only_the_listed_moves_are_allowed() {
    for from in ALL {
        for to in ALL {
            let listed = ALLOWED.contains(&(from, to));
            assert_eq!(
                from.can_move_to(to),
                listed,
                "{from:?} -> {to:?} should be {}",
                if listed { "allowed" } else { "refused" }
            );
        }
    }
}

/// The invariant a late message from the engine must not be able to break:
/// once the job has an outcome, that is the outcome.
#[test]
fn nothing_leaves_a_terminal_state() {
    for from in ALL.into_iter().filter(|s| s.is_terminal()) {
        for to in ALL {
            assert!(!from.can_move_to(to), "{from:?} moved to {to:?}");
        }
    }
}

/// Specifically: a completion arriving after the job was cancelled cannot
/// turn it back into a success. The audio it refers to is not committed.
#[test]
fn a_late_completion_cannot_undo_a_cancellation() {
    assert!(!Cancelled.can_move_to(Completed));
    assert!(!Cancelled.can_move_to(Running));
}

/// But a job that finishes between the request and the checkpoint really
/// did finish. Refusing that would be recording a cancellation that never
/// happened.
#[test]
fn a_cancel_that_arrives_too_late_still_completes() {
    assert!(CancelRequested.can_move_to(Completed));
}

/// Cancelling something that never started needs nothing from the engine.
#[test]
fn a_queued_job_cancels_without_being_asked_to_stop() {
    assert!(Queued.can_move_to(Cancelled));
    assert!(!Queued.can_move_to(CancelRequested));
}

#[test]
fn every_terminal_state_is_reachable() {
    for terminal in ALL.into_iter().filter(|s| s.is_terminal()) {
        assert!(
            ALL.into_iter().any(|from| from.can_move_to(terminal)),
            "{terminal:?} cannot be reached"
        );
    }
}
