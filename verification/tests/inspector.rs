//! The panel beside the composer.

use voicestudio::engine::{Clip, Consent, ModelSpec, Take, Voice};
use voicestudio::inspector::{Inspect, Panel};
use voicestudio::single::Single;
use voicestudio::VoiceStudio;

fn single(n: f32) -> Single {
    Single { bits: n.to_bits() }
}

fn model(id: &str, installed: bool, supports_cloning: bool) -> ModelSpec {
    ModelSpec {
        id: id.into(),
        label: format!("{id} label"),
        name: format!("{id} name"),
        licence: "Apache-2.0".into(),
        precision: "bf16".into(),
        notes: format!("{id} notes"),
        default: false,
        installed,
        resident: false,
        supports_cloning,
        size_bytes: 3_400_000_000,
        download_bytes: 0,
        measured_rtf: None,
        load_s: None,
    }
}

fn voice(id: &str, label: &str) -> Voice {
    Voice {
        voice_id: id.into(),
        label: label.into(),
        reference_audio: format!("/voices/{id}.wav"),
        reference_text: "The words.".into(),
        seconds: single(17.6),
        consent: Consent {
            statement: "I agree.".into(),
            app_version: "0.1.0".into(),
            source: "recording".into(),
        },
    }
}

fn take(id: &str) -> Take {
    Take {
        id: id.into(),
        path: format!("/clips/{id}.wav"),
        audio_s: single(24.9),
        gen_s: single(12.25),
        seed: Some(4_021),
        created: "2026-08-18T15:39:00".into(),
    }
}

fn clip(id: &str, takes: Vec<Take>) -> Clip {
    Clip {
        id: id.into(),
        name: format!("{id} name"),
        text: format!("{id} words"),
        voice_id: None,
        model: "fast".into(),
        takes,
    }
}

fn studio() -> VoiceStudio {
    let mut studio = VoiceStudio::new("Starting", "My voice");
    studio.models = vec![model("fast", true, true)];
    studio.voices = vec![voice("voice-1", "Ada")];
    studio.clips = vec![clip("c1", vec![take("t1")])];
    studio.inspector = true;
    studio
}

#[test]
fn the_panel_follows_the_selection() {
    let mut studio = studio();
    assert_eq!(studio.inspected(), None);
    assert!(studio.inspector_panel().is_none());
    studio.drafts[0].voice_id = Some("voice-1".into());
    assert_eq!(studio.inspected(), Some(Inspect::Voice("voice-1".into())));
    studio.select_clip("c1");
    assert_eq!(studio.inspected(), Some(Inspect::Clip("c1".into())));
    studio.toggle_inspector();
    assert_eq!(studio.inspected(), None);
}

#[test]
fn a_clip_is_shown_with_what_produced_it() {
    let mut studio = studio();
    studio.pinned_seed = Some(4_021);
    studio.select_clip("c1");
    let Some(Panel::Clip(body)) = studio.inspector_panel() else { panic!("a clip is open") };
    assert_eq!((body.title.as_str(), body.words.as_str()), ("c1 name", "c1 words"));
    assert_eq!(body.voice, None);
    assert_eq!(body.model, "fast label");
    assert_eq!((body.length.as_str(), body.took.as_str()), ("0:24", "12.2"));
    assert_eq!(body.speed, Some((single(12.25), single(24.9))));
    assert_eq!(body.seed, Some((4_021, true)));
    assert_eq!(body.path, "/clips/t1.wav");
    studio.clips[0].voice_id = Some("voice-1".into());
    studio.clips[0].model = "elsewhere".into();
    studio.clips[0].takes[0].gen_s = single(0.0);
    studio.pinned_seed = None;
    let Some(Panel::Clip(body)) = studio.inspector_panel() else { panic!("a clip is open") };
    assert_eq!(body.voice.as_deref(), Some("Ada"));
    assert_eq!(body.model, "elsewhere");
    assert_eq!(body.speed, None);
    assert_eq!(body.seed, Some((4_021, false)));
}

#[test]
fn a_voice_is_shown_with_what_was_agreed_to() {
    let mut studio = studio();
    studio.drafts[0].voice_id = Some("voice-1".into());
    let Some(Panel::Voice(body)) = studio.inspector_panel() else { panic!("a voice is chosen") };
    assert_eq!(body.title, "Ada");
    assert_eq!(body.length.as_deref(), Some("0:17"));
    assert_eq!(body.clips, 0);
    assert_eq!(body.reference, "/voices/voice-1.wav");
    assert_eq!(body.words, "The words.");
    assert_eq!(
        body.consent,
        Some(("I agree.".to_string(), "recording".to_string(), "0.1.0".to_string()))
    );
    studio.voices[0].consent.statement = String::new();
    studio.voices[0].seconds = single(0.0);
    let Some(Panel::Voice(body)) = studio.inspector_panel() else { panic!("a voice is chosen") };
    assert_eq!((body.consent, body.length), (None, None));
    studio.voices.clear();
    assert!(studio.inspector_panel().is_none());
}
