//! Choosing, naming and deleting voices.

use voicestudio::clips::Selected;
use voicestudio::engine::{Consent, ModelSpec, Voice};
use voicestudio::single::Single;
use voicestudio::studio::Status;
use voicestudio::voices::NewName;
use voicestudio::VoiceStudio;

fn single(n: f32) -> Single {
    Single { bits: n.to_bits() }
}

fn model(id: &str, installed: bool, supports_cloning: bool) -> ModelSpec {
    ModelSpec {
        id: id.into(),
        label: format!("{id} label"),
        name: format!("{id} name"),
        licence: "Apache-2.0".into(),
        precision: "bf16".into(),
        notes: format!("{id} notes"),
        default: false,
        installed,
        resident: false,
        supports_cloning,
        size_bytes: 3_400_000_000,
        download_bytes: 0,
        measured_rtf: None,
        load_s: None,
    }
}

fn voice(id: &str, label: &str) -> Voice {
    Voice {
        voice_id: id.into(),
        label: label.into(),
        reference_audio: format!("/voices/{id}.wav"),
        reference_text: "The words.".into(),
        seconds: single(17.6),
        consent: Consent {
            statement: "I agree.".into(),
            app_version: "0.1.0".into(),
            source: "recording".into(),
        },
    }
}

fn studio() -> VoiceStudio {
    let mut studio = VoiceStudio::new("Starting", "My voice");
    studio.engine = true;
    studio.status = Status::Idle;
    studio.models = vec![model("fast", true, true), model("plain", true, false)];
    studio.selected_model = Some("fast".into());
    studio.voices = vec![voice("voice-1", "Ada"), voice("voice-2", "Bola")];
    studio
}

#[test]
fn only_an_enrolled_voice_is_spoken_in() {
    let mut studio = studio();
    assert_eq!(studio.speaking_voice(), None);
    studio.selected_voice = Some("voice-2".into());
    assert_eq!(studio.speaking_voice(), Some("voice-2"));
    studio.selected_voice = Some("gone".into());
    assert_eq!(studio.speaking_voice(), None);
    studio.selected_voice = Some("voice-2".into());
    studio.selected_model = Some("plain".into());
    assert_eq!(studio.speaking_voice(), None, "a model that cannot clone speaks as itself");
    assert!(!studio.model_can_clone());
}

#[test]
fn choosing_a_voice_prepares_it_once() {
    let mut studio = studio();
    studio.voice_saved = Some("0:17".into());
    let request = studio.choose_voice(Some("voice-1".into()));
    assert_eq!(request, Some(("voice-1".to_string(), Some("fast".to_string()))));
    assert_eq!(studio.draft().unwrap().voice_id.as_deref(), Some("voice-1"));
    assert_eq!(studio.warming.as_deref(), Some("voice-1"));
    assert_eq!(studio.voice_saved, None);
    assert_eq!(studio.warm_selected_voice(), None, "it is being prepared already");
    studio.warmed("voice-2");
    assert_eq!(studio.warming.as_deref(), Some("voice-1"), "another one finished");
    studio.warmed("voice-1");
    assert_eq!(studio.warming, None);
    assert_eq!(studio.choose_voice(None), None);
    assert_eq!(studio.selected_voice, None);
}

#[test]
fn without_an_engine_nothing_is_prepared() {
    let mut studio = studio();
    studio.engine = false;
    assert_eq!(studio.choose_voice(Some("voice-1".into())), None);
    assert_eq!(studio.warming, None);
}

#[test]
fn a_voice_is_offered_a_name_of_its_own() {
    let mut studio = studio();
    assert_eq!(studio.next_voice_name("My voice"), "My voice 3");
    studio.voices.clear();
    assert_eq!(studio.next_voice_name("My voice"), "My voice");
}

#[test]
fn the_clip_that_asked_for_a_voice_switches_to_it() {
    let mut studio = studio();
    studio.warming = Some("voice-3".into());
    let mut voices = studio.voices.clone();
    voices.push(voice("voice-3", "Chidi"));
    let request = studio.voice_enrolled("voice-3", Ok(voices));
    assert_eq!(request, Some(("voice-3".to_string(), Some("fast".to_string()))));
    assert_eq!(studio.voice_saved.as_deref(), Some("0:17"));
    assert_eq!(studio.draft().unwrap().voice_id.as_deref(), Some("voice-3"));
    assert_eq!(studio.selected_voice.as_deref(), Some("voice-3"));
    assert_eq!(studio.voices.len(), 3);
}

#[test]
fn a_voice_that_was_not_kept_is_reported() {
    let mut studio = studio();
    studio.warming = Some("voice-3".into());
    assert_eq!(studio.voice_enrolled("voice-3", Err("disk full".into())), None);
    assert_eq!(studio.warming, None);
    assert!(matches!(&studio.status, Status::Failed(why) if why == "disk full"));
    let voices = studio.voices.clone();
    assert_eq!(studio.voice_enrolled("voice-3", Ok(voices)), None);
    assert_eq!(studio.selected_voice, None);
}

#[test]
fn a_voice_is_renamed_unless_the_name_was_emptied() {
    let mut studio = studio();
    assert!(!studio.start_voice_rename("gone"));
    studio.confirming_voice = Some("voice-1".into());
    assert!(studio.start_voice_rename("voice-1"));
    assert_eq!(studio.voice_rename, "Ada");
    assert_eq!(studio.confirming_voice, None);
    studio.voice_rename = " Adaeze ".into();
    assert_eq!(
        studio.commit_voice_rename(),
        Some(("voice-1".to_string(), "Adaeze".to_string()))
    );
    assert_eq!(studio.commit_voice_rename(), None);
    studio.start_voice_rename("voice-1");
    studio.voice_rename = "  ".into();
    assert_eq!(studio.commit_voice_rename(), None);
    assert_eq!(studio.renaming_voice, None, "the field has closed either way");
    studio.start_voice_rename("voice-1");
    assert!(studio.cancel_voice_rename());
    assert!(!studio.cancel_voice_rename());
    studio.voices_renamed(None);
    assert_eq!(studio.voices.len(), 2);
    studio.voices_renamed(Some(vec![voice("voice-1", "Adaeze")]));
    assert_eq!(studio.voices[0].label, "Adaeze");
}

#[test]
fn nothing_asks_for_a_voice_that_is_gone() {
    let mut studio = studio();
    studio.choose_voice(Some("voice-1".into()));
    studio.new_draft();
    studio.drafts[0].voice_id = Some("voice-2".into());
    studio.confirming_voice = Some("voice-1".into());
    assert!(studio.delete_voice());
    assert_eq!(studio.confirming_voice, None);
    studio.voice_deleted(Ok(vec![voice("voice-2", "Bola")]));
    assert_eq!(studio.selected_voice, None);
    assert_eq!(studio.drafts[0].voice_id.as_deref(), Some("voice-2"));
    assert_eq!(studio.drafts[1].voice_id, None);
    studio.voice_deleted(Err("locked".into()));
    assert!(matches!(&studio.status, Status::Failed(why) if why == "locked"));
    studio.engine = false;
    assert!(!studio.delete_voice());
}

#[test]
fn a_voice_is_called_by_its_label() {
    let studio = studio();
    assert_eq!(studio.voice_name(Some("voice-2"), "Studio voice"), "Bola");
    assert_eq!(studio.voice_name(Some("gone"), "Studio voice"), "Studio voice");
    assert_eq!(studio.voice_name(None, "Studio voice"), "Studio voice");
}

#[test]
fn enter_keeps_the_name_in_the_open_field() {
    let mut studio = studio();
    studio.engine = true;
    assert!(studio.commit_name().is_none(), "no field is open");
    assert!(studio.begin_rename("Untitled"));
    studio.clip_name = "Spot".into();
    assert!(studio.start_voice_rename("voice-1"));
    studio.voice_rename = " Adaeze ".into();
    assert!(matches!(
        studio.commit_name(),
        Some(NewName::Voice(id, label)) if id == "voice-1" && label == "Adaeze"
    ));
    assert_eq!(studio.renaming_voice, None);
    assert!(studio.renaming.is_some(), "the clip's field is still open");
    assert!(studio.commit_name().is_none(), "a draft's name stays here");
    assert!(studio.renaming.is_none());
    assert_eq!(studio.draft().unwrap().name.as_deref(), Some("Spot"));
    studio.renaming = Some(Selected::Clip("c1".into(), "t1".into()));
    studio.clip_name = " Jingle ".into();
    assert!(matches!(
        studio.commit_name(),
        Some(NewName::Clip(id, name)) if id == "c1" && name == "Jingle"
    ));
}

#[test]
fn escape_closes_the_open_field() {
    let mut studio = studio();
    assert!(!studio.cancel_name());
    studio.begin_rename("Untitled");
    studio.start_voice_rename("voice-1");
    assert!(studio.cancel_name());
    assert_eq!(studio.renaming_voice, None);
    assert!(studio.renaming.is_some());
    assert!(studio.cancel_name());
    assert!(studio.renaming.is_none());
    assert_eq!(studio.draft().unwrap().name, None);
}
