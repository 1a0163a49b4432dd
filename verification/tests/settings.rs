//! The settings window.

use voicestudio::engine::{
    Clip, Consent, InstallStatus, ModelSpec, SystemInfo, Take, Voice,
};
use voicestudio::icon;
use voicestudio::settings::{used_by_phrase, voice_used_phrase, Badge, Pane};
use voicestudio::single::Single;
use voicestudio::studio::Status;
use voicestudio::VoiceStudio;

fn single(n: f32) -> Single {
    Single { bits: n.to_bits() }
}

fn model(id: &str, installed: bool, supports_cloning: bool) -> ModelSpec {
    ModelSpec {
        id: id.into(),
        label: format!("{id} label"),
        name: format!("{id} name"),
        licence: "Apache-2.0".into(),
        precision: "bf16".into(),
        notes: format!("{id} notes"),
        default: false,
        installed,
        resident: false,
        supports_cloning,
        size_bytes: 3_400_000_000,
        download_bytes: 0,
        measured_rtf: None,
        load_s: None,
    }
}

fn voice(id: &str, label: &str) -> Voice {
    Voice {
        voice_id: id.into(),
        label: label.into(),
        reference_audio: format!("/voices/{id}.wav"),
        reference_text: "The words.".into(),
        seconds: single(17.6),
        consent: Consent {
            statement: "I agree.".into(),
            app_version: "0.1.0".into(),
            source: "recording".into(),
        },
    }
}

fn take(id: &str) -> Take {
    Take {
        id: id.into(),
        path: format!("/clips/{id}.wav"),
        audio_s: single(24.9),
        gen_s: single(12.25),
        seed: Some(4_021),
        created: "2026-08-18T15:39:00".into(),
    }
}

fn clip(id: &str, takes: Vec<Take>) -> Clip {
    Clip {
        id: id.into(),
        name: format!("{id} name"),
        text: format!("{id} words"),
        voice_id: None,
        model: "fast".into(),
        takes,
    }
}

fn studio() -> VoiceStudio {
    let mut studio = VoiceStudio::new("Starting", "My voice");
    studio.engine = true;
    studio.status = Status::Idle;
    studio.models =
        vec![model("fast", true, true), model("fine", false, true), model("third", true, true)];
    studio.selected_model = Some("fast".into());
    studio.voices = vec![voice("voice-1", "ada"), voice("voice-2", "")];
    let spoken = |id: &str, model: &str, voice: Option<&str>| {
        let mut clip = clip(id, vec![take("t")]);
        clip.model = model.into();
        clip.voice_id = voice.map(str::to_string);
        clip
    };
    studio.clips = vec![
        spoken("c1", "fast", Some("voice-1")),
        spoken("c2", "fast", Some("voice-2")),
        spoken("c3", "fast", Some("voice-1")),
        spoken("c4", "fast", None),
        spoken("c5", "third", Some("voice-1")),
    ];
    studio
}

#[test]
fn every_pane_has_a_glyph_and_a_name() {
    let panes = Pane::all();
    assert_eq!(panes.len(), 7);
    assert_eq!(panes[6], Pane::About);
    assert_eq!(Pane::Models.glyph(), icon::GRAPHIC_EQ);
    assert_eq!(Pane::About.glyph(), icon::ERROR_OUTLINE);
    let labels: Vec<&str> = panes.iter().map(|pane| pane.label()).collect();
    assert_eq!(
        labels,
        [
            "settings.general",
            "settings.models",
            "settings.voices",
            "settings.audio",
            "settings.storage",
            "settings.runtime",
            "settings.about",
        ]
    );
    let built: Vec<bool> = panes.iter().map(|pane| pane.is_built()).collect();
    assert_eq!(built, [false, true, true, false, true, false, true]);
}

#[test]
fn changing_panes_forgets_what_was_to_be_confirmed() {
    let mut studio = studio();
    studio.confirming_delete = Some("third".into());
    studio.confirming_voice = Some("voice-1".into());
    assert!(studio.show_pane(Pane::Storage), "the disk is counted when someone looks");
    assert_eq!((&studio.confirming_delete, &studio.confirming_voice), (&None, &None));
    assert!(!studio.show_pane(Pane::About));
    studio.settings_open = true;
    studio.confirming_delete = Some("third".into());
    studio.close_settings();
    assert!(!studio.settings_open && studio.confirming_delete.is_none());
    studio.confirming_voice = Some("voice-1".into());
    studio.cancel_delete();
    assert_eq!(studio.confirming_voice, None);
}

#[test]
fn use_is_read_off_the_clips() {
    let studio = studio();
    assert_eq!(studio.clips_from("fast"), 4);
    assert_eq!(studio.clips_from("fine"), 0);
    assert_eq!(studio.voices_using("fast"), 2);
    assert_eq!(studio.voices_using("third"), 1);
    assert_eq!(studio.voices_using("fine"), 0);
    assert_eq!(studio.clips_by("voice-1"), 3);
    assert_eq!(used_by_phrase(0), "settings.used_by_no_voice");
    assert_eq!(used_by_phrase(1), "settings.used_by_one_voice");
    assert_eq!(used_by_phrase(2), "settings.used_by_voices");
    assert_eq!(voice_used_phrase(0), "settings.unused");
    assert_eq!(voice_used_phrase(1), "settings.used_by");
    assert_eq!(voice_used_phrase(7), "settings.used_by");
}

#[test]
fn the_model_in_use_cannot_be_deleted() {
    let mut studio = studio();
    assert!(!studio.ask_delete_model("fast"));
    assert_eq!(studio.confirming_delete, None);
    assert!(studio.ask_delete_model("third"));
    let confirming = studio.models_pane().confirming.expect("it is on disk");
    assert_eq!(confirming.name, "third name");
    assert_eq!((confirming.size_bytes, confirming.clips), (3_400_000_000, 1));
    assert_eq!(confirming.detail, "settings.delete_detail_used");
    studio.clips.clear();
    let confirming = studio.models_pane().confirming.unwrap();
    assert_eq!(confirming.detail, "settings.delete_detail_unused");
    studio.confirming_delete = Some("fine".into());
    assert!(studio.models_pane().confirming.is_none(), "what is not on disk cannot be deleted");
}

#[test]
fn what_is_on_disk_and_what_is_not_are_two_lists() {
    let mut studio = studio();
    studio.system = Some(SystemInfo { free_bytes: 11 });
    studio.models[0].resident = true;
    studio.models[2].resident = true;
    let pane = studio.models_pane();
    let installed: Vec<&str> = pane.installed.iter().map(|row| row.id.as_str()).collect();
    assert_eq!(installed, ["fast", "third"]);
    assert_eq!(pane.installed[0].badge, Some(Badge::DefaultInMemory));
    assert!(!pane.installed[0].can_delete);
    assert_eq!(pane.installed[0].voices, 2);
    assert_eq!(pane.installed[1].badge, Some(Badge::InMemory));
    assert!(pane.installed[1].can_delete);
    assert_eq!(pane.available.len(), 1);
    assert_eq!(pane.available[0].name, "fine name");
    assert_eq!(pane.available[0].download, None);
    assert_eq!(pane.available[0].downloading, None);
    assert_eq!((pane.used, pane.free), (6_800_000_000, 11));
    assert_eq!(studio.models_bytes(), 6_800_000_000);
    studio.models[0].resident = false;
    studio.models[1].download_bytes = 5;
    studio.installs.insert(
        "fine",
        InstallStatus { downloading: true, downloaded_bytes: 2, total_bytes: 5, error: None },
    );
    let pane = studio.models_pane();
    assert_eq!(pane.installed[0].badge, Some(Badge::Default));
    assert_eq!(pane.available[0].download, Some(5));
    assert_eq!(pane.available[0].downloading, Some((2, 5)));
}

#[test]
fn a_voice_says_what_it_was_learned_from_and_made() {
    let mut studio = studio();
    studio.selected_voice = Some("voice-1".into());
    studio.voices[1].seconds = single(0.0);
    let rows = studio.voices_pane();
    assert_eq!(rows[0].initial, "A", "a name is lettered in upper case");
    assert!(rows[0].current);
    assert_eq!(rows[0].length.as_deref(), Some("0:17"));
    assert_eq!(rows[0].clips, 3);
    assert_eq!(rows[0].asking, None);
    assert_eq!(rows[1].initial, "");
    assert!(!rows[1].current);
    assert_eq!(rows[1].length, None);
    let row = studio.voice_row_with(&studio.voices[0], "Z".into());
    assert_eq!(row.initial, "Z");
}

#[test]
fn deleting_a_voice_takes_two_presses() {
    let mut studio = studio();
    assert!(!studio.press_delete_voice("voice-1"));
    let rows = studio.voices_pane();
    assert_eq!(rows[0].asking, Some("settings.voice_delete_used"));
    assert_eq!(rows[1].asking, None);
    assert!(studio.press_delete_voice("voice-1"));
    studio.clips.clear();
    assert_eq!(studio.voices_pane()[0].asking, Some("settings.voice_delete_unused"));
    assert!(!studio.press_delete_voice("voice-2"), "another voice is another question");
}
