//! Permission to record.

use std::sync::mpsc::channel;

use voicestudio::microphone::{open_settings, request, status, Permission};

/// Only one answer opens the microphone. Anything else — including a
/// status this build does not recognise — has to be a refusal, because the
/// cost of reading it as consent is a silent recording and advice about
/// the room.
#[test]
fn nothing_but_granted_counts_as_permission() {
    for permission in [
        Permission::Undecided,
        Permission::Refused,
        Permission::Restricted,
        Permission::Granted,
    ] {
        assert_eq!(
            permission == Permission::Granted,
            permission.refusal().is_none() && permission != Permission::Undecided,
            "{permission:?} is on the wrong side of the line"
        );
    }
}

/// Every number the framework documents, and one it does not.
#[test]
fn a_status_this_build_has_never_heard_of_is_not_consent() {
    assert_eq!(Permission::from_status(0), Permission::Undecided);
    assert_eq!(Permission::from_status(1), Permission::Restricted);
    assert_eq!(Permission::from_status(2), Permission::Refused);
    assert_eq!(Permission::from_status(3), Permission::Granted);

    for unknown in [-1, 4, 99, isize::MAX, isize::MIN] {
        assert_eq!(
            Permission::from_status(unknown),
            Permission::Refused,
            "status {unknown} was read as something other than a refusal"
        );
    }
}

/// Undecided has no message because it is not an answer yet — it is the
/// state that leads to the prompt.
#[test]
fn only_a_settled_refusal_has_something_to_say() {
    assert_eq!(Permission::Undecided.refusal(), None);
    assert_eq!(Permission::Granted.refusal(), None);
    assert!(Permission::Refused.refusal().is_some());
    assert!(Permission::Restricted.refusal().is_some());
}

/// The system's answer, whatever it is, must be one this build handles.
#[test]
fn the_system_answers_with_something_we_understand() {
    let asked = status();
    assert!(
        matches!(
            asked,
            Permission::Undecided
                | Permission::Refused
                | Permission::Restricted
                | Permission::Granted
        ),
        "{asked:?}"
    );
}

#[test]
fn a_system_without_a_prompt_is_never_a_refusal() {
    let (asked, answered) = channel();
    request(move |permission| asked.send(permission).unwrap());
    assert_eq!(answered.recv(), Ok(Permission::Granted));
    assert_eq!(status(), Permission::Granted);
    open_settings();
}

#[test]
fn a_restriction_is_not_said_as_a_refusal() {
    assert_eq!(Permission::answered(true, Permission::Refused), Permission::Granted);
    assert_eq!(Permission::answered(false, Permission::Restricted), Permission::Restricted);
    assert_eq!(Permission::Refused.refusal(), Some("enrol.microphone_refused"));
    assert_eq!(Permission::Restricted.refusal(), Some("enrol.microphone_restricted"));
}
