//! Hearing clips, takes and voices.

use voicestudio::engine::{Consent, ModelSpec, Voice};
use voicestudio::listening::{clipboard_script, Hearing, PlaybackAction, TakeAction};
use voicestudio::single::Single;
use voicestudio::studio::{Status, Take};
use voicestudio::VoiceStudio;

fn single(n: f32) -> Single {
    Single { bits: n.to_bits() }
}

fn model(id: &str, installed: bool, supports_cloning: bool) -> ModelSpec {
    ModelSpec {
        id: id.into(),
        label: format!("{id} label"),
        name: format!("{id} name"),
        licence: "Apache-2.0".into(),
        precision: "bf16".into(),
        notes: format!("{id} notes"),
        default: false,
        installed,
        resident: false,
        supports_cloning,
        size_bytes: 3_400_000_000,
        download_bytes: 0,
        measured_rtf: None,
        load_s: None,
    }
}

fn voice(id: &str, label: &str) -> Voice {
    Voice {
        voice_id: id.into(),
        label: label.into(),
        reference_audio: format!("/voices/{id}.wav"),
        reference_text: "The words.".into(),
        seconds: single(17.6),
        consent: Consent {
            statement: "I agree.".into(),
            app_version: "0.1.0".into(),
            source: "recording".into(),
        },
    }
}

fn studio() -> VoiceStudio {
    let mut studio = VoiceStudio::new("Starting", "My voice");
    studio.engine = true;
    studio.status = Status::Idle;
    studio.models = vec![model("fast", true, true)];
    studio.selected_model = Some("fast".into());
    studio.voices = vec![voice("voice-1", "Ada")];
    studio.take = Some(Take { path: "/take.wav".into(), seconds: single(9.0), levels: vec![] });
    studio
}

#[test]
fn a_loaded_sound_is_in_the_transport() {
    let mut studio = studio();
    assert_eq!(studio.playing_clip(), None);
    studio.load_clip("/a.wav", single(2.0), Some(vec![single(1.0)]), None);
    assert_eq!(studio.playing_clip(), Some("/a.wav"));
    assert_eq!(studio.clip_levels, vec![single(1.0)]);
    studio.load_clip("/b.wav", single(2.0), None, Some("cannot decode".into()));
    assert!(studio.clip_levels.is_empty());
    assert!(matches!(&studio.status, Status::Failed(why) if why == "cannot decode"));
}

#[test]
fn the_take_is_loaded_the_first_time_and_toggled_after() {
    let mut studio = studio();
    assert!(matches!(
        studio.toggle_take(),
        Some(TakeAction::Load(path, seconds)) if path == "/take.wav" && seconds == single(9.0)
    ));
    studio.load_clip("/take.wav", single(9.0), None, None);
    assert!(matches!(studio.toggle_take(), Some(TakeAction::Toggle)));
    studio.take = None;
    assert!(studio.toggle_take().is_none());
}

#[test]
fn a_take_is_known_by_where_it_is() {
    let mut studio = studio();
    studio.load_clip("//./take.wav", single(9.0), None, None);
    assert!(studio.take_loaded());
    assert!(matches!(studio.toggle_take(), Some(TakeAction::Toggle)));
    studio.load_clip("take.wav", single(9.0), None, None);
    assert!(!studio.take_loaded());
}

#[test]
fn dropping_the_take_frees_only_its_own_transport() {
    let mut studio = studio();
    studio.load_clip("/other.wav", single(1.0), None, None);
    assert!(!studio.clear_take());
    assert_eq!(studio.playing_clip(), Some("/other.wav"));
    assert!(studio.take.is_none());
    let mut studio = self::studio();
    studio.load_clip("/take.wav", single(9.0), Some(vec![single(1.0)]), None);
    assert!(studio.take_loaded());
    assert!(studio.clear_take());
    assert_eq!(studio.playing_clip(), None);
    assert!(studio.clip_levels.is_empty());
}

#[test]
fn a_finished_sound_replays() {
    let mut studio = studio();
    assert!(matches!(studio.toggle_playback(None), PlaybackAction::Nothing));
    assert!(matches!(studio.toggle_playback(Some(false)), PlaybackAction::Toggle));
    assert!(matches!(studio.toggle_playback(Some(true)), PlaybackAction::Replay(None)));
    studio.load_clip("/a.wav", single(2.0), None, None);
    assert!(matches!(
        studio.toggle_playback(Some(true)),
        PlaybackAction::Replay(Some((path, _))) if path == "/a.wav"
    ));
}

#[test]
fn an_enrolled_voice_is_heard_by_its_recording() {
    let mut studio = studio();
    assert!(matches!(
        studio.hear_voice(Some("voice-1")),
        Hearing::Reference(path) if path == "/voices/voice-1.wav"
    ));
    assert!(!studio.generating());
}

#[test]
fn the_bundled_voice_is_heard_by_speaking() {
    let mut studio = studio();
    studio.choose_voice(Some("voice-1".into()));
    studio.text = "hello there".into();
    match studio.hear_voice(None) {
        Hearing::Speak(Some(request)) => {
            assert_eq!(request.text, "hello there");
            assert_eq!(request.voice_id, None);
        }
        other => panic!("{other:?}"),
    }
    assert_eq!(studio.selected_voice, None);
    assert!(studio.generating());
}

#[test]
fn a_seed_is_drawn_and_let_go() {
    let mut studio = studio();
    studio.reroll_seed(123_456_789);
    assert_eq!(studio.draft().unwrap().seed, Some(6_789));
    studio.reroll_seed(5);
    assert_eq!(studio.draft().unwrap().seed, None);
    studio.pin_seed(7);
    assert_eq!(studio.pinned_seed, Some(7));
    studio.pin_seed(8);
    assert_eq!(studio.pinned_seed, Some(8));
    studio.pin_seed(8);
    assert_eq!(studio.pinned_seed, None);
}

#[test]
fn a_path_cannot_end_the_text_it_is_put_in() {
    assert_eq!(
        clipboard_script("/clips/a.wav"),
        "set the clipboard to (POSIX file \"/clips/a.wav\")"
    );
    let path = "/a\\b\"c é.wav";
    let wanted = format!(
        "set the clipboard to (POSIX file \"{}\")",
        path.replace('\\', "\\\\").replace('"', "\\\"")
    );
    assert_eq!(clipboard_script(path), wanted);
}
