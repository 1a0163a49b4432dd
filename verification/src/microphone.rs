//! Whether this application may record, asked before it needs to.
//!
//! A refused microphone can answer with silence rather than an error: the
//! stream opens, every buffer is zeros, and the recording fails the quality
//! check with advice about moving closer. Someone follows that advice forever.
//! So permission is a question asked in its own right, and the answer is
//! something the interface can act on.

use vstd::prelude::*;

verus! {

/// What the system says about recording.
#[derive(Clone, Copy, Debug, PartialEq, Eq, Structural)]
pub enum Permission {
    /// Never asked. Asking is what shows the system prompt, and it can only
    /// be shown once.
    Undecided,
    /// Refused, or withdrawn later in the system's settings. Only settings can
    /// change this; asking again shows nothing.
    Refused,
    /// Not the person's to give: a managed machine, or parental controls.
    Restricted,
    Granted,
}

impl Permission {
    /// What the number the system answers with means.
    pub open spec fn spec_from_status(raw: isize) -> Permission {
        if raw == 0 {
            Permission::Undecided
        } else if raw == 1 {
            Permission::Restricted
        } else if raw == 3 {
            Permission::Granted
        } else {
            Permission::Refused
        }
    }

    /// The phrase that says why recording cannot go ahead.
    pub open spec fn spec_refusal(self) -> Option<Seq<char>> {
        match self {
            Permission::Granted | Permission::Undecided => None,
            Permission::Refused => Some("enrol.microphone_refused"@),
            Permission::Restricted => Some("enrol.microphone_restricted"@),
        }
    }

    /// What an authorisation status means: 0 not determined, 1 restricted,
    /// 2 denied, 3 authorised.
    ///
    /// A number this build does not know is never consent: it is a system
    /// saying something it has not been taught, and the cost of guessing wrong
    /// is a silent recording blamed on the room.
    pub fn from_status(raw: isize) -> (permission: Self)
        ensures
            permission == Permission::spec_from_status(raw),
    {
        match raw {
            0 => Permission::Undecided,
            1 => Permission::Restricted,
            2 => Permission::Refused,
            3 => Permission::Granted,
            _ => Permission::Refused,
        }
    }

    /// What to tell someone, and whether recording can go ahead.
    pub fn refusal(self) -> (phrase: Option<&'static str>)
        ensures
            match phrase {
                Some(phrase) => self.spec_refusal() == Some(phrase@),
                None => self.spec_refusal() is None,
            },
    {
        match self {
            Permission::Granted | Permission::Undecided => None,
            Permission::Refused => Some("enrol.microphone_refused"),
            Permission::Restricted => Some("enrol.microphone_restricted"),
        }
    }

    /// What the system prompt was answered with. A refusal and a restriction
    /// both arrive as `false`, and they are not the same thing to say, so
    /// unless it was granted the answer is what the system says when asked
    /// again.
    pub fn answered(granted: bool, asked: Permission) -> (permission: Self)
        ensures
            permission == (if granted {
                Permission::Granted
            } else {
                asked
            }),
    {
        if granted {
            Permission::Granted
        } else {
            asked
        }
    }
}

/// Where there is no status to read, recording is between the person and their
/// operating system: pretending otherwise would put a refusal in front of
/// someone who was never refused.
pub fn status() -> (permission: Permission)
    ensures
        permission == Permission::Granted,
{
    Permission::Granted
}

/// Answer as a system without a prompt does.
pub fn request<F: FnOnce(Permission) + Send + 'static>(answer: F)
    requires
        answer.requires((Permission::Granted,)),
    ensures
        answer.ensures((Permission::Granted,), ()),
{
    answer(Permission::Granted);
}

/// Where permission is not kept, there is no pane to open.
pub fn open_settings() {
}

/// Only one status opens the microphone.
pub proof fn lemma_only_one_status_is_consent(raw: isize)
    ensures
        Permission::spec_from_status(raw) == Permission::Granted <==> raw == 3,
{
}

/// Nothing but a grant counts as permission: everything else either has a
/// refusal to say or has not been answered yet.
pub proof fn lemma_nothing_but_granted_is_permission(permission: Permission)
    ensures
        permission == Permission::Granted <==> permission.spec_refusal() is None && permission
            != Permission::Undecided,
{
}

/// What each status the system gives means, and that any it has not been taught
/// means a refusal.
pub proof fn lemma_what_each_status_means(raw: isize)
    ensures
        raw == 0 ==> Permission::spec_from_status(raw) is Undecided,
        raw == 1 ==> Permission::spec_from_status(raw) is Restricted,
        raw == 2 ==> Permission::spec_from_status(raw) is Refused,
        raw == 3 ==> Permission::spec_from_status(raw) is Granted,
        raw < 0 || raw > 3 ==> Permission::spec_from_status(raw) is Refused,
{
}

/// Being refused and not being the one to ask are told apart, and nothing is
/// said where nothing stands in the way.
pub proof fn lemma_a_refusal_is_not_a_restriction(permission: Permission)
    ensures
        permission is Refused ==> permission.spec_refusal() == Some("enrol.microphone_refused"@),
        permission is Restricted ==> permission.spec_refusal() == Some(
            "enrol.microphone_restricted"@,
        ),
        permission is Granted || permission is Undecided ==> permission.spec_refusal() is None,
{
}

} // verus!
