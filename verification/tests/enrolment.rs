//! Adding a reference voice.

use voicestudio::engine::ModelSpec;
use voicestudio::enrolment::{
    meter_row, script_sentences, sentences_of, stepper, Bar, Check, Column, LineState, ScriptNote,
    Step, SCRIPT_SECONDS,
};
use voicestudio::phrase::Said;
use voicestudio::recorder::{Quality, ENROLMENT_SCRIPT};
use voicestudio::single::Single;
use voicestudio::studio::{Enrolment, Screen, Status};
use voicestudio::VoiceStudio;

fn single(n: f32) -> Single {
    Single { bits: n.to_bits() }
}

fn model(id: &str, installed: bool, supports_cloning: bool) -> ModelSpec {
    ModelSpec {
        id: id.into(),
        label: format!("{id} label"),
        name: format!("{id} name"),
        licence: "Apache-2.0".into(),
        precision: "bf16".into(),
        notes: format!("{id} notes"),
        default: false,
        installed,
        resident: false,
        supports_cloning,
        size_bytes: 3_400_000_000,
        download_bytes: 0,
        measured_rtf: None,
        load_s: None,
    }
}

fn quality() -> Quality {
    Quality { seconds: single(17.6), snr_db: single(31.5) }
}

fn studio() -> VoiceStudio {
    let mut studio = VoiceStudio::new("Starting", "My voice");
    studio.engine = true;
    studio.status = Status::Idle;
    studio.models = vec![model("fast", true, true)];
    studio.selected_model = Some("fast".into());
    studio
}

fn recorded() -> VoiceStudio {
    let mut studio = studio();
    studio.begin_enrolment("My voice", Ok(()));
    studio.start_recording(Ok(()));
    studio.stop_recording(Ok(quality()), Ok(()), "/tmp/take.wav", vec![single(0.5)]);
    studio
}

#[test]
fn a_voice_is_made_of_a_take_and_consent() {
    let mut studio = recorded();
    assert!(matches!(studio.enrolment, Enrolment::Review(q) if q == quality()));
    assert!(studio.confirm_enrolment("My voice", "I agree.", "0.1.0").is_none(), "no consent");
    studio.toggle_consent();
    studio.voice_name = "  Ada ".into();
    let voice = studio.confirm_enrolment("My voice", "I agree.", "0.1.0").expect("consent given");
    assert_eq!(voice.voice_id, "voice-1");
    assert_eq!(voice.label, "Ada");
    assert_eq!(voice.reference_audio, "/tmp/take.wav");
    assert_eq!(voice.reference_text, ENROLMENT_SCRIPT);
    assert_eq!(voice.consent.statement, "I agree.");
    assert_eq!(voice.consent.app_version, "0.1.0");
    assert_eq!(voice.consent.source, "recording");
    assert_eq!(voice.seconds, single(0.0));
    assert!(matches!(studio.enrolment, Enrolment::Closed));
    assert!(!studio.consent_given && !studio.recorder && studio.take.is_none());
    assert_eq!(studio.warming.as_deref(), Some("voice-1"));
}

#[test]
fn a_voice_needs_an_engine_and_a_take_too() {
    let mut studio = recorded();
    studio.toggle_consent();
    studio.engine = false;
    assert!(studio.confirm_enrolment("My voice", "", "").is_none());
    studio.engine = true;
    studio.take = None;
    assert!(studio.confirm_enrolment("My voice", "", "").is_none());
    assert!(studio.consent_given, "a refusal to save changes nothing");
}

#[test]
fn a_voice_nobody_named_takes_the_name_offered() {
    let mut studio = recorded();
    studio.toggle_consent();
    studio.voice_name = " ".into();
    assert_eq!(studio.confirm_enrolment("My voice", "", "").unwrap().label, "My voice");
}

#[test]
fn consent_is_given_per_voice() {
    let mut studio = recorded();
    studio.toggle_consent();
    studio.discard_take(Ok(()));
    assert!(!studio.consent_given);
    studio.toggle_consent();
    studio.import_reference("/home/me/reading.m4a", Ok((quality(), vec![])));
    assert!(!studio.consent_given);
    studio.toggle_consent();
    studio.cancel_enrolment();
    assert!(!studio.consent_given);
}

#[test]
fn a_file_brought_in_is_registered_from_where_it_is() {
    let mut studio = studio();
    studio.begin_enrolment("My voice", Ok(()));
    assert!(!studio.import_reference("/home/me/reading.m4a", Ok((quality(), vec![single(1.0)]))));
    assert_eq!(studio.imported.as_deref(), Some("/home/me/reading.m4a"));
    assert_eq!(studio.enrolment_header(), ("enrol.check_title", "enrol.imported_detail"));
    studio.toggle_consent();
    let voice = studio.confirm_enrolment("My voice", "", "").unwrap();
    assert_eq!(voice.reference_audio, "/home/me/reading.m4a");
    assert_eq!(voice.consent.source, "imported");
}

#[test]
fn a_file_that_fails_the_checks_leaves_nothing_to_review() {
    let mut studio = recorded();
    studio.load_clip("/tmp/take.wav", single(17.6), None, None);
    assert!(studio.import_reference("/x.wav", Err("too quiet".into())), "the player is stopped");
    assert!(matches!(&studio.enrolment, Enrolment::Rejected(why) if why == "too quiet"));
    assert!(studio.take.is_none() && studio.clip.is_none() && studio.imported.is_none());
}

#[test]
fn a_take_that_could_not_be_used_says_why() {
    let mut studio = studio();
    studio.begin_enrolment("My voice", Ok(()));
    studio.stop_recording(Err("clipping".into()), Ok(()), "/t.wav", vec![]);
    assert!(matches!(&studio.enrolment, Enrolment::Rejected(why) if why == "clipping"));
    studio.stop_recording(Ok(quality()), Err("read-only disk".into()), "/t.wav", vec![]);
    assert!(matches!(&studio.enrolment, Enrolment::Rejected(why) if why == "read-only disk"));
    assert!(studio.take.is_none());
}

#[test]
fn without_a_recorder_there_is_nothing_to_start_or_stop() {
    let mut studio = studio();
    studio.begin_enrolment("My voice", Err("no microphone found".into()));
    assert!(matches!(&studio.enrolment, Enrolment::Rejected(why) if why == "no microphone found"));
    assert!(!studio.start_recording(Ok(())));
    assert!(!studio.is_recording());
    studio.stop_recording(Ok(quality()), Ok(()), "/t.wav", vec![]);
    assert!(studio.take.is_none());
}

#[test]
fn a_microphone_that_will_not_start_says_so() {
    let mut studio = studio();
    studio.begin_enrolment("My voice", Ok(()));
    assert_eq!(studio.voice_name, "My voice");
    assert!(!studio.start_recording(Err("busy".into())));
    assert!(matches!(&studio.enrolment, Enrolment::Rejected(why) if why == "busy"));
    assert!(studio.start_recording(Ok(())));
    assert!(studio.is_recording());
}

#[test]
fn the_first_run_goes_on_into_enrolment() {
    let mut studio = studio();
    studio.choosing_model = true;
    assert!(studio.leads_to_enrolment());
    studio.continue_from_models("My voice", Ok(()));
    assert!(studio.in_setup && !studio.choosing_model);
    assert_eq!(studio.screen(), Screen::Enrolment);
    assert!(!studio.enrolling_over_workspace());
    assert_eq!(studio.enrolment_header(), ("enrol.title", "enrol.subtitle"));
    studio.finish_setup();
    assert_eq!(studio.screen(), Screen::Workspace);
    studio.begin_enrolment("My voice", Ok(()));
    assert_eq!(studio.screen(), Screen::Workspace, "later it is a sheet over the work");
    assert!(studio.enrolling_over_workspace());
    assert_eq!(studio.enrolment_header(), ("enrol.record_title", "enrol.record_subtitle"));
}

#[test]
fn nothing_is_gone_on_to_without_a_model() {
    let mut studio = studio();
    studio.models.clear();
    studio.choosing_model = true;
    assert!(!studio.continue_from_models("My voice", Ok(())));
    assert!(studio.choosing_model);
}

#[test]
fn the_script_is_three_sentences() {
    let script = script_sentences();
    assert_eq!(script.len(), 3);
    let wanted: Vec<String> = ENROLMENT_SCRIPT
        .split_inclusive(['.', '!', '?'])
        .map(str::trim)
        .filter(|s| !s.is_empty())
        .map(str::to_string)
        .collect();
    assert_eq!(script, wanted);
}

#[test]
fn sentences_end_where_they_say_they_do() {
    for text in ["", "  ", "one", "one. two", "one! two? three.", "a.. b.", " . ", "é? ọ̀!"] {
        let wanted: Vec<String> = text
            .split_inclusive(['.', '!', '?'])
            .map(str::trim)
            .filter(|s| !s.is_empty())
            .map(str::to_string)
            .collect();
        assert_eq!(sentences_of(text), wanted, "{text:?}");
    }
}

#[test]
fn the_place_in_the_script_is_kept_while_recording() {
    let mut studio = studio();
    let panel = studio.script_panel(1);
    assert_eq!(
        panel.note,
        ScriptNote::Length(ENROLMENT_SCRIPT.chars().count(), SCRIPT_SECONDS)
    );
    assert!(panel.lines.iter().all(|line| line.1 == LineState::Still));
    assert_eq!(panel.below, "enrol.same_script");
    studio.begin_enrolment("My voice", Ok(()));
    studio.start_recording(Ok(()));
    let panel = studio.script_panel(1);
    assert_eq!(panel.note, ScriptNote::Place(2, 3));
    let states: Vec<LineState> = panel.lines.iter().map(|line| line.1).collect();
    assert_eq!(states, [LineState::Read, LineState::Live, LineState::Ahead]);
    assert_eq!(panel.below, "enrol.keep_reading");
    assert_eq!(studio.script_panel(99).note, ScriptNote::Place(3, 3));
}

#[test]
fn the_meter_says_whether_it_hears_anything() {
    let quiet = vec![single(0.01), single(0.08)];
    let row = meter_row(false, &quiet);
    assert_eq!((row.word, row.good), ("enrol.quiet", false));
    assert_eq!(row.bars, vec![Bar::Idle, Bar::Idle]);
    let row = meter_row(true, &quiet);
    assert_eq!((row.word, row.good), ("enrol.too_quiet", false));
    assert_eq!(row.bars, vec![Bar::Dim, Bar::Dim]);
    let row = meter_row(true, &vec![single(0.01), single(0.081)]);
    assert_eq!((row.word, row.good), ("enrol.good_level", true));
    assert_eq!(row.bars, vec![Bar::Dim, Bar::Lit]);
}

#[test]
fn the_column_reports_what_there_is_to_report() {
    let mut studio = studio();
    let (column, checks) = studio.recorder_panel();
    assert_eq!((column, checks.len()), (Column::Ready, 0));
    studio.begin_enrolment("My voice", Ok(()));
    studio.start_recording(Ok(()));
    assert_eq!(studio.enrolment_header(), ("enrol.title", "enrol.recording_detail"));
    let (column, checks) = studio.recorder_panel();
    assert_eq!(column, Column::Recording);
    assert!(matches!(checks[0], Check::Pass(Said::Phrase("enrol.mic_reaching"))));
    assert!(matches!(checks[2], Check::Pending(Said::Phrase("enrol.room_noise"))));
    let studio = recorded();
    assert_eq!(studio.enrolment_header(), ("enrol.check_title", "enrol.check_detail"));
    let (column, checks) = studio.recorder_panel();
    assert_eq!(column, Column::Review);
    assert!(matches!(
        &checks[0],
        Check::Pass(Said::With("enrol.whole_script", places)) if places[0] == ("time", "0:17".into())
    ));
    assert!(matches!(
        &checks[2],
        Check::Warn(Said::With("enrol.snr", places)) if places[0] == ("db", "32".into())
    ));
    let mut studio = studio;
    studio.discard_take(Err("gone".into()));
    let (column, checks) = studio.recorder_panel();
    assert_eq!(column, Column::Rejected);
    assert!(matches!(&checks[0], Check::Warn(Said::Words(why)) if why == "gone"));
}

#[test]
fn the_take_is_drawn_with_its_length() {
    let studio = recorded();
    assert_eq!(studio.playback_card(), (vec![single(0.5)], "0:17".to_string()));
    let empty = VoiceStudio::new("Starting", "My voice");
    assert_eq!(empty.playback_card(), (vec![], "0:00".to_string()));
}

#[test]
fn the_wizard_says_how_far_along_it_is() {
    assert_eq!(
        stepper(2),
        vec![
            (1, "setup.step_runtime", Step::Done),
            (2, "setup.step_model", Step::Active),
            (3, "setup.step_voice", Step::Upcoming),
        ]
    );
}

#[test]
fn enrolling_twice_adds_a_second_voice() {
    let mut studio = recorded();
    studio.toggle_consent();
    let first = studio.confirm_enrolment("My voice", "I agree.", "0.1.0").unwrap();
    studio.voice_enrolled("voice-1", Ok(vec![first]));
    studio.begin_enrolment("My voice", Ok(()));
    assert_eq!(studio.voice_name, "My voice 2");
    studio.start_recording(Ok(()));
    studio.stop_recording(Ok(quality()), Ok(()), "/tmp/take.wav", vec![]);
    studio.toggle_consent();
    let second = studio.confirm_enrolment("My voice", "I agree.", "0.1.0").unwrap();
    assert_eq!(second.voice_id, "voice-2");
    assert_eq!(second.label, "My voice 2");
}

#[test]
fn a_voice_left_after_a_deletion_is_not_overwritten() {
    let mut studio = recorded();
    studio.toggle_consent();
    let mut left = studio.confirm_enrolment("My voice", "I agree.", "0.1.0").unwrap();
    left.voice_id = "voice-2".into();
    studio.voice_deleted(Ok(vec![left.clone()]));
    studio.begin_enrolment("My voice", Ok(()));
    studio.start_recording(Ok(()));
    studio.stop_recording(Ok(quality()), Ok(()), "/tmp/take.wav", vec![]);
    studio.toggle_consent();
    let added = studio.confirm_enrolment("My voice", "I agree.", "0.1.0").unwrap();
    assert_eq!(added.voice_id, "voice-3");
    assert_eq!(studio.warming.as_deref(), Some("voice-3"));
    assert_eq!(added.label, "My voice 2");
}
