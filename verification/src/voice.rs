//! The lifecycle of a voice, which outlives its recording.
//!
//! A deleted voice keeps a row. Clips made with it point at the revision they
//! were spoken in, and that reference is what lets them say so afterwards. The
//! row stays; the recording and the conditioning go.

use vstd::prelude::*;

verus! {

#[derive(Clone, Copy, Debug, PartialEq, Eq, Structural, Hash)]
pub enum VoiceStatus {
    Active,
    /// Deletion is authoritative from here: no new synthesis or conditioning
    /// may reference the voice, and the work of removing its assets has begun.
    DeletionPending,
    Deleted,
}

/// What asking to delete a voice means, given where it already is.
#[derive(Clone, Copy, Debug, PartialEq, Eq, Structural)]
pub enum DeletionRequest {
    /// Start the work.
    Begin,
    /// Already under way. Join the existing job rather than starting a second.
    AlreadyUnderWay,
    /// Already gone. Succeed against the existing tombstone, and do not write
    /// another audit event for a deletion that happened once.
    AlreadyDeleted,
}

impl VoiceStatus {
    /// How far along the one road a voice travels this is.
    pub open spec fn stage(self) -> int {
        match self {
            VoiceStatus::Active => 0,
            VoiceStatus::DeletionPending => 1,
            VoiceStatus::Deleted => 2,
        }
    }

    /// One step along that road, and nothing else.
    pub open spec fn spec_can_move_to(self, next: VoiceStatus) -> bool {
        next.stage() == self.stage() + 1
    }

    pub fn can_move_to(self, next: VoiceStatus) -> (allowed: bool)
        ensures
            allowed == self.spec_can_move_to(next),
    {
        matches!(
            (self, next),
            (VoiceStatus::Active, VoiceStatus::DeletionPending)
                | (VoiceStatus::DeletionPending, VoiceStatus::Deleted)
        )
    }

    /// Whether the voice may be named by new work. False from the moment
    /// deletion becomes authoritative, not from the moment it finishes.
    pub fn usable_for_new_work(self) -> (usable: bool)
        ensures
            usable == (self is Active),
    {
        matches!(self, VoiceStatus::Active)
    }

    pub open spec fn spec_deletion_request(self) -> DeletionRequest {
        match self {
            VoiceStatus::Active => DeletionRequest::Begin,
            VoiceStatus::DeletionPending => DeletionRequest::AlreadyUnderWay,
            VoiceStatus::Deleted => DeletionRequest::AlreadyDeleted,
        }
    }

    pub fn deletion_request(self) -> (request: DeletionRequest)
        ensures
            request == self.spec_deletion_request(),
    {
        match self {
            VoiceStatus::Active => DeletionRequest::Begin,
            VoiceStatus::DeletionPending => DeletionRequest::AlreadyUnderWay,
            VoiceStatus::Deleted => DeletionRequest::AlreadyDeleted,
        }
    }
}

/// Whether `moves` is a history in which each state is allowed to follow the
/// one before it.
pub open spec fn voice_history(moves: Seq<VoiceStatus>) -> bool {
    forall|i: int| 0 < i < moves.len() ==> #[trigger] moves[i - 1].spec_can_move_to(moves[i])
}

proof fn lemma_history_climbs(moves: Seq<VoiceStatus>, early: int, late: int)
    requires
        voice_history(moves),
        0 <= early <= late < moves.len(),
    ensures
        moves[late].stage() == moves[early].stage() + (late - early),
    decreases late - early,
{
    if early < late {
        lemma_history_climbs(moves, early, late - 1);
        assert(moves[late - 1].spec_can_move_to(moves[late]));
    }
}

/// Deletion is one way. Through any history of moves, a voice that is being
/// deleted is never active again, and one that is deleted stays so.
pub proof fn lemma_deletion_is_one_way(moves: Seq<VoiceStatus>, early: int, late: int)
    requires
        voice_history(moves),
        0 <= early <= late < moves.len(),
    ensures
        !(moves[early] is Active) ==> !(moves[late] is Active),
        moves[early] is Deleted ==> late == early,
{
    lemma_history_climbs(moves, early, late);
}

/// Deletion begins once. Whatever state a voice is in, asking again after the
/// deletion has begun neither starts it a second time nor makes the voice
/// usable again.
pub proof fn lemma_deleting_is_idempotent(moves: Seq<VoiceStatus>, early: int, late: int)
    requires
        voice_history(moves),
        0 <= early < late < moves.len(),
        moves[early].spec_deletion_request() is Begin,
    ensures
        !(moves[late].spec_deletion_request() is Begin),
        !(moves[late] is Active),
{
    lemma_history_climbs(moves, early, late);
}

/// A voice stops being usable before it is gone: between being usable and
/// being deleted there is always a state in which it is neither.
pub proof fn lemma_unusable_before_gone(from: VoiceStatus, to: VoiceStatus)
    requires
        from.spec_can_move_to(to),
        to is Deleted,
    ensures
        !(from is Active),
        from.spec_deletion_request() is AlreadyUnderWay,
{
}

/// Where a voice is decides what asking to delete it means: only one that can
/// still be used is begun on, one that is going is joined, and one that is gone
/// is left.
pub proof fn lemma_what_asking_to_delete_means(status: VoiceStatus)
    ensures
        status.spec_deletion_request() is Begin <==> status.spec_can_move_to(
            VoiceStatus::DeletionPending,
        ),
        status.spec_deletion_request() is AlreadyUnderWay <==> status.spec_can_move_to(
            VoiceStatus::Deleted,
        ),
        status.spec_deletion_request() is AlreadyDeleted <==> (forall|to: VoiceStatus|
            !status.spec_can_move_to(to)),
        status is Active <==> status.spec_deletion_request() is Begin,
        status is Deleted <==> status.spec_deletion_request() is AlreadyDeleted,
        !status.spec_can_move_to(VoiceStatus::Active),
{
    if status is Active {
        assert(status.spec_can_move_to(VoiceStatus::DeletionPending));
    } else if status is DeletionPending {
        assert(status.spec_can_move_to(VoiceStatus::Deleted));
    }
}

} // verus!
