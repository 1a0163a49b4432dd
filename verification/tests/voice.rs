//! The life of a voice.

use voicestudio::voice::DeletionRequest;
use voicestudio::voice::VoiceStatus::{self, Active, Deleted, DeletionPending};

const ALL: [VoiceStatus; 3] = [Active, DeletionPending, Deleted];

#[test]
fn voice_every_state_appears_in_the_table() {
    for state in ALL {
        match state {
            Active | DeletionPending | Deleted => {}
        }
    }
}

#[test]
fn voice_only_the_listed_moves_are_allowed() {
    let allowed = [(Active, DeletionPending), (DeletionPending, Deleted)];
    for from in ALL {
        for to in ALL {
            assert_eq!(
                from.can_move_to(to),
                allowed.contains(&(from, to)),
                "{from:?} -> {to:?}"
            );
        }
    }
}

/// Deletion is authoritative from the moment it is asked for, not from the
/// moment the files are gone. Otherwise a generation started during the
/// deletion would speak in a voice that is being removed.
#[test]
fn a_voice_stops_being_usable_before_it_is_gone() {
    assert!(Active.usable_for_new_work());
    assert!(!DeletionPending.usable_for_new_work());
    assert!(!Deleted.usable_for_new_work());
}

/// Deleting twice succeeds against the tombstone rather than failing or
/// writing a second audit event for one deletion.
#[test]
fn deleting_is_idempotent() {
    assert_eq!(Active.deletion_request(), DeletionRequest::Begin);
    assert_eq!(DeletionPending.deletion_request(), DeletionRequest::AlreadyUnderWay);
    assert_eq!(Deleted.deletion_request(), DeletionRequest::AlreadyDeleted);
}

/// There is no way back. A deleted voice cannot be reactivated, because
/// the recording it was derived from is gone.
#[test]
fn deletion_is_one_way() {
    assert!(!Deleted.can_move_to(Active));
    assert!(!DeletionPending.can_move_to(Active));
}
