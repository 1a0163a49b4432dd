//! The composer, in each of its states.

use voicestudio::clips::Selected;
use voicestudio::composer::{Actions, Body, Counted, Footer, Hint, Strip, Subtitle};
use voicestudio::engine::{Clip, Generating, ModelSpec, Take};
use voicestudio::single::Single;
use voicestudio::studio::{Enrolment, Status};
use voicestudio::VoiceStudio;

fn single(n: f32) -> Single {
    Single { bits: n.to_bits() }
}

fn model(id: &str, installed: bool, supports_cloning: bool) -> ModelSpec {
    ModelSpec {
        id: id.into(),
        label: format!("{id} label"),
        name: format!("{id} name"),
        licence: "Apache-2.0".into(),
        precision: "bf16".into(),
        notes: format!("{id} notes"),
        default: false,
        installed,
        resident: false,
        supports_cloning,
        size_bytes: 3_400_000_000,
        download_bytes: 0,
        measured_rtf: None,
        load_s: None,
    }
}

fn take(id: &str) -> Take {
    Take {
        id: id.into(),
        path: format!("/clips/{id}.wav"),
        audio_s: single(24.9),
        gen_s: single(12.25),
        seed: Some(4_021),
        created: "2026-08-18T15:39:00".into(),
    }
}

fn clip(id: &str, takes: Vec<Take>) -> Clip {
    Clip {
        id: id.into(),
        name: format!("{id} name"),
        text: format!("{id} words"),
        voice_id: None,
        model: "fast".into(),
        takes,
    }
}

fn studio() -> VoiceStudio {
    let mut studio = VoiceStudio::new("Starting", "My voice");
    studio.engine = true;
    studio.status = Status::Idle;
    studio.models = vec![model("fast", true, true)];
    studio.selected_model = Some("fast".into());
    studio.clips = vec![clip("c1", vec![take("t1")])];
    studio
}

#[test]
fn the_opening_composer_is_not_yet_a_clip_to_name() {
    let mut studio = studio();
    let header = studio.composer_header("New clip", "Untitled", "Studio voice");
    assert_eq!(header.title, "New clip");
    assert!(!header.can_rename && !header.renaming);
    assert_eq!(header.chips, Some(("Studio voice".to_string(), "fast name".to_string())));
    assert!(matches!(
        &header.subtitle,
        Subtitle::Planned { voice, model } if voice == "Studio voice" && model == "fast name"
    ));
    studio.text = "hi".into();
    studio.save_open_text();
    let header = studio.composer_header("New clip", "Untitled", "Studio voice");
    assert_eq!(header.title, "Untitled");
    assert!(header.can_rename);
    studio.begin_rename("Untitled");
    studio.open_inspector();
    let header = studio.composer_header("New clip", "Untitled", "Studio voice");
    assert!(header.renaming);
    assert_eq!(header.chips, None);
}

#[test]
fn a_finished_clip_says_what_it_was_made_with() {
    let mut studio = studio();
    studio.select_clip("c1");
    let header = studio.composer_header("New clip", "Untitled", "Studio voice");
    assert_eq!(header.title, "c1 name");
    assert!(matches!(
        &header.subtitle,
        Subtitle::Made { length, at, voice, model }
            if length == "0:24" && at == "15:39" && voice == "Studio voice" && model == "fast name"
    ));
    studio.selected = Selected::Clip("gone".into(), "t".into());
    assert_eq!(studio.composer_header("New clip", "Untitled", "").title, "");
}

#[test]
fn the_card_has_one_shape_in_three_states() {
    let mut studio = studio();
    assert!(matches!(studio.card_strip(), Strip::Empty));
    assert!(matches!(studio.card_body(), Body::Field));
    studio.text = "two words".into();
    assert_eq!(studio.card_footer(), Footer::Count(9, 2));
    studio.generate(None);
    assert!(matches!(
        studio.card_strip(),
        Strip::Generating(row, None) if row.left.is_none() && row.counted.is_none()
    ));
    assert!(matches!(studio.card_body(), Body::Locked(words) if words == "two words"));
    assert!(matches!(studio.card_actions(), (Actions::Stop, None)));
    studio.select_clip("c1");
    assert!(matches!(studio.card_strip(), Strip::Take(length) if length == "0:24"));
    assert!(matches!(studio.card_body(), Body::Record(words) if words == "c1 words"));
    assert_eq!(studio.card_footer(), Footer::EditingMakesTake);
    assert!(matches!(studio.card_actions(), (Actions::Finished, None)));
    studio.begin_rename("Untitled");
    assert_eq!(studio.card_footer(), Footer::RenameNote);
}

#[test]
fn only_what_was_counted_is_shown_of_a_run() {
    let mut studio = studio();
    studio.progress = Some(Generating {
        chunks_done: 2,
        chunks: 5,
        written_s: single(6.0),
        elapsed_s: single(9.0),
    });
    let row = studio.generating_row();
    assert_eq!(row.left, Some((single(9.0), 2, 3)));
    assert_eq!(
        row.counted,
        Some(Counted { done: 2, chunks: 5, written_s: single(6.0), elapsed_s: single(9.0) })
    );
    studio.progress.as_mut().unwrap().written_s = single(0.0);
    assert_eq!(studio.generating_row().counted, None);
}

#[test]
fn the_button_is_ready_when_pressing_it_does_something() {
    let mut studio = studio();
    assert!(!studio.can_generate(), "there are no words");
    studio.text = "hello".into();
    assert!(studio.can_generate());
    studio.enrolment = Enrolment::Ready;
    assert!(!studio.can_generate(), "the sheet has the floor");
    studio.enrolment = Enrolment::Closed;
    studio.models[0].installed = false;
    assert!(studio.can_generate(), "the words can be queued");
    studio.queued = Some(("hello".into(), "draft-1".into()));
    assert!(!studio.can_generate());
    studio.models[0].installed = true;
    assert!(studio.can_generate());
    studio.status = Status::Generating;
    assert!(!studio.can_generate());
}

#[test]
fn the_hint_says_the_one_thing_that_is_true() {
    let mut studio = studio();
    assert!(matches!(studio.generate_hint(), Hint::WriteFirst));
    studio.text = "one two three".into();
    assert!(matches!(studio.generate_hint(), Hint::Silent), "nothing has been measured");
    studio.models[0].measured_rtf = Some(single(2.1));
    assert!(matches!(studio.generate_hint(), Hint::AboutToMake(3, rtf) if rtf == single(2.1)));
    studio.models[0].installed = false;
    assert!(matches!(studio.generate_hint(), Hint::ModelMissing(name) if name == "fast name"));
    studio.voice_saved = Some("0:17".into());
    assert!(matches!(studio.generate_hint(), Hint::NowInYourVoice));
    studio.enrolment = Enrolment::Ready;
    assert!(matches!(studio.generate_hint(), Hint::Silent));
}

#[test]
fn where_it_happens_is_said_where_there_is_room() {
    let mut studio = studio();
    assert_eq!(studio.card_actions().1, Some("workspace.offline"));
    studio.text = "hello".into();
    assert!(matches!(
        studio.card_actions(),
        (Actions::Generate(true, Hint::Silent), Some("workspace.on_this_machine"))
    ));
    studio.status = Status::Preparing("loading".into());
    assert_eq!(studio.card_actions().1, None);
}

#[test]
fn a_clips_menu_opens_and_closes() {
    let mut studio = studio();
    studio.open_clip_menu("c1");
    assert_eq!(studio.clip_menu.as_deref(), Some("c1"));
    studio.close_clip_menu();
    assert_eq!(studio.clip_menu, None);
}

#[test]
fn deleting_the_clip_being_looked_at_leaves_a_fresh_draft() {
    let mut studio = studio();
    studio.select_clip("c1");
    assert_eq!(studio.selected_sound().as_deref(), Some("/clips/t1.wav"));
    assert!(studio.delete_selected_clip());
    assert_eq!(studio.draft().unwrap().id, "draft-2");
    assert_eq!(studio.selected_sound(), None);
    studio.clips_changed(Ok(vec![]));
    assert!(studio.clips.is_empty());
    studio.clips_changed(Err("locked".into()));
    assert!(matches!(&studio.status, Status::Failed(why) if why == "locked"));
    studio.clips_refreshed(Some(vec![clip("c2", vec![])]));
    studio.clips_refreshed(None);
    assert_eq!(studio.clips.len(), 1);
}
