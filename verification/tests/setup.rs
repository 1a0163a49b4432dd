//! Starting up.

use voicestudio::engine::{Consent, ModelSpec, Progress, Voice};
use voicestudio::icon;
use voicestudio::phrase::Said;
use voicestudio::setup::{durable, StatusLine, Tone};
use voicestudio::single::Single;
use voicestudio::studio::{Screen, Status};
use voicestudio::VoiceStudio;

fn single(n: f32) -> Single {
    Single { bits: n.to_bits() }
}

fn model(id: &str, installed: bool, supports_cloning: bool) -> ModelSpec {
    ModelSpec {
        id: id.into(),
        label: format!("{id} label"),
        name: format!("{id} name"),
        licence: "Apache-2.0".into(),
        precision: "bf16".into(),
        notes: format!("{id} notes"),
        default: false,
        installed,
        resident: false,
        supports_cloning,
        size_bytes: 3_400_000_000,
        download_bytes: 0,
        measured_rtf: None,
        load_s: None,
    }
}

fn voice(id: &str, label: &str) -> Voice {
    Voice {
        voice_id: id.into(),
        label: label.into(),
        reference_audio: format!("/voices/{id}.wav"),
        reference_text: "The words.".into(),
        seconds: single(17.6),
        consent: Consent {
            statement: "I agree.".into(),
            app_version: "0.1.0".into(),
            source: "recording".into(),
        },
    }
}

fn studio() -> VoiceStudio {
    VoiceStudio::new("Starting", "My voice")
}

#[test]
fn the_protocol_is_asked_for_by_name() {
    assert!(durable(Some("jsonrpc")));
    assert!(durable(Some("JsonRPC")));
    assert!(!durable(Some("legacy")));
    assert!(!durable(None));
}

#[test]
fn a_first_run_is_an_offer_and_not_a_failure() {
    let mut studio = studio();
    assert!(!studio.start_engine(false, Some("python not found".into())));
    assert!(matches!(studio.status, Status::Installing { .. }));
    assert_eq!(studio.screen(), Screen::Setup);
    assert!(!studio.start_engine(true, Some("python not found".into())));
    assert!(matches!(&studio.status, Status::Failed(why) if why == "python not found"));
    assert_eq!(studio.screen(), Screen::Setup);
    assert!(studio.start_engine(false, None));
}

#[test]
fn the_engine_comes_up_on_its_default_model() {
    let mut studio = studio();
    let mut models = vec![model("fast", true, true), model("fine", true, true)];
    models[1].default = true;
    assert!(studio.engine_started(Ok((models, vec![voice("voice-1", "Ada")]))));
    assert_eq!(studio.selected_model.as_deref(), Some("fine"));
    assert_eq!(studio.selected_voice, None);
    assert!(studio.engine && !studio.busy());
    assert_eq!(studio.screen(), Screen::Workspace);
}

#[test]
fn without_a_default_the_first_model_does() {
    let mut studio = studio();
    studio.engine_started(Ok((vec![model("fast", false, true)], vec![])));
    assert_eq!(studio.selected_model.as_deref(), Some("fast"));
    assert_eq!(studio.screen(), Screen::Models, "nothing can speak yet");
    studio.engine_started(Ok((vec![], vec![])));
    assert_eq!(studio.selected_model, None);
}

#[test]
fn an_engine_that_will_not_start_says_why() {
    let mut studio = studio();
    assert!(!studio.engine_started(Err("port in use".into())));
    assert!(matches!(&studio.status, Status::Failed(why) if why == "port in use"));
}

#[test]
fn the_installer_moves_the_bar_and_ends() {
    let mut studio = studio();
    studio.install_runtime();
    assert!(!studio.runtime_progressed(Progress::Step("Downloading".into())));
    assert!(!studio.runtime_progressed(Progress::Fraction(single(0.5))));
    assert!(!studio.runtime_progressed(Progress::Step("Unpacking".into())));
    assert!(matches!(
        &studio.status,
        Status::Installing { step, fraction } if step == "Unpacking" && *fraction == single(0.5)
    ));
    assert!(studio.runtime_progressed(Progress::Done));
    assert!(studio.runtime_settled());
    assert!(studio.runtime_done);
    assert_eq!(studio.screen(), Screen::Setup, "it says it is done until it is left");
    studio.continue_from_setup();
    assert_ne!(studio.screen(), Screen::Setup);
}

#[test]
fn an_install_that_fails_can_be_resumed() {
    let mut studio = studio();
    studio.install_runtime();
    assert!(studio.runtime_progressed(Progress::Failed("offline".into())));
    assert!(!studio.runtime_settled());
    assert!(!studio.runtime_done);
    assert!(!studio.runtime_progressed(Progress::Fraction(single(0.9))));
    assert!(matches!(&studio.status, Status::Failed(why) if why == "offline"));
    let screen = studio.setup_screen(None, Some("https://example.test/a.zip".into()));
    assert_eq!(screen.install, Some((icon::REFRESH, "setup.resume")));
    let stopped = screen.stopped.expect("an interruption is stated");
    assert!(matches!(stopped[0], Said::Phrase("setup.stopped_detail")));
    assert!(matches!(&stopped[1], Said::Words(why) if why == "offline"));
    assert_eq!(screen.link.as_deref(), Some("https://example.test/a.zip"));
    studio.report_failure(String::new());
    assert_eq!(studio.setup_screen(None, None).stopped.unwrap().len(), 1);
}

#[test]
fn setup_offers_what_can_be_done_next() {
    let mut studio = studio();
    studio.start_engine(false, Some("missing".into()));
    let screen = studio.setup_screen(None, None);
    assert_eq!(screen.install, Some((icon::DOWNLOAD, "setup.install")));
    assert!(screen.step.is_none() && screen.stopped.is_none());
    assert!(!screen.ready && !screen.can_continue);
    assert_eq!(screen.footer, "setup.can_close");
    let possible: Vec<bool> = screen.capabilities.iter().map(|c| c.0).collect();
    assert_eq!(possible, [false, false, false, true]);
    let screen = studio.setup_screen(Some("needs Apple silicon".into()), None);
    assert_eq!(screen.install, None, "a machine that cannot run it is not offered it");
    studio.runtime_progressed(Progress::Fraction(single(0.25)));
    let screen = studio.setup_screen(None, None);
    assert_eq!(screen.install, None);
    assert_eq!(screen.step.unwrap().1, single(0.25));
    studio.runtime_progressed(Progress::Done);
    studio.runtime_settled();
    let screen = studio.setup_screen(None, None);
    assert!(screen.ready && screen.can_continue && screen.install.is_none());
    assert_eq!(screen.footer, "setup.next_is_a_model");
}

#[test]
fn the_line_of_state_says_the_one_thing_that_is_true() {
    let mut studio = studio();
    let tone = |line: StatusLine| match line {
        StatusLine::Line(said, tone) => (said, tone),
        other => panic!("{other:?}"),
    };
    assert!(matches!(
        tone(studio.status_line()),
        (Said::Words(what), Tone::Plain) if what == "Starting"
    ));
    studio.engine_started(Ok((vec![model("fast", true, true)], vec![voice("voice-1", "Ada")])));
    assert!(matches!(
        tone(studio.status_line()),
        (Said::Phrase("status.built_in_ready"), Tone::Muted)
    ));
    studio.selected_voice = Some("voice-1".into());
    assert!(matches!(tone(studio.status_line()), (Said::Phrase("status.ready"), Tone::Muted)));
    studio.warming = Some("voice-1".into());
    assert!(matches!(tone(studio.status_line()), (Said::Phrase("status.warming"), Tone::Muted)));
    studio.status = Status::Generating;
    assert!(matches!(
        tone(studio.status_line()),
        (Said::Phrase("status.generating"), Tone::Plain)
    ));
    studio.status = Status::Done {
        output: "/out.wav".into(),
        audio_s: single(3.25),
        gen_s: single(7.5),
    };
    match tone(studio.status_line()) {
        (Said::With("status.saved", places), Tone::Plain) => assert_eq!(
            places,
            vec![("path", "/out.wav".into()), ("audio", "3.2".into()), ("gen", "8".into())]
        ),
        other => panic!("{other:?}"),
    }
    studio.report_failure("no".into());
    assert!(studio.shows_failure());
    assert!(matches!(
        tone(studio.status_line()),
        (Said::With("status.failed", places), Tone::Danger) if places == vec![("reason", "no".into())]
    ));
    studio.status = Status::Refused("your call".into());
    assert!(!studio.shows_failure());
    assert!(matches!(
        tone(studio.status_line()),
        (Said::Words(why), Tone::Muted) if why == "your call"
    ));
    studio.install_runtime();
    assert!(matches!(
        studio.status_line(),
        StatusLine::Installing(step, fraction) if step == "Starting…" && fraction == single(0.0)
    ));
}
