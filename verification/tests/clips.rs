//! Drafts and clips, and switching between them.

use voicestudio::clips::{Draft, Selected};
use voicestudio::engine::{Clip, ModelSpec, Take};
use voicestudio::single::Single;
use voicestudio::VoiceStudio;

fn single(n: f32) -> Single {
    Single { bits: n.to_bits() }
}

fn model(id: &str, installed: bool, supports_cloning: bool) -> ModelSpec {
    ModelSpec {
        id: id.into(),
        label: format!("{id} label"),
        name: format!("{id} name"),
        licence: "Apache-2.0".into(),
        precision: "bf16".into(),
        notes: format!("{id} notes"),
        default: false,
        installed,
        resident: false,
        supports_cloning,
        size_bytes: 3_400_000_000,
        download_bytes: 0,
        measured_rtf: None,
        load_s: None,
    }
}

fn take(id: &str) -> Take {
    Take {
        id: id.into(),
        path: format!("/clips/{id}.wav"),
        audio_s: single(24.9),
        gen_s: single(12.25),
        seed: Some(4_021),
        created: "2026-08-18T15:39:00".into(),
    }
}

fn clip(id: &str, takes: Vec<Take>) -> Clip {
    Clip {
        id: id.into(),
        name: format!("{id} name"),
        text: format!("{id} words"),
        voice_id: None,
        model: "fast".into(),
        takes,
    }
}

fn studio() -> VoiceStudio {
    let mut studio = VoiceStudio::new("Starting", "My voice");
    studio.models = vec![model("fast", true, true), model("fine", true, true)];
    studio.selected_model = Some("fast".into());
    studio.clips = vec![clip("c1", vec![take("t1"), take("t2")]), clip("c2", vec![])];
    studio
}

#[test]
fn the_application_opens_on_a_blank_draft() {
    let studio = VoiceStudio::new("Starting", "My voice");
    let draft = studio.draft().expect("the composer always has a clip");
    assert_eq!(draft.id, "draft-1");
    assert!(!draft.started);
    assert_eq!(draft.title("Untitled"), "Untitled");
    assert_eq!(studio.next_draft, 1);
    assert_eq!(Draft::blank().id, "draft-1");
}

#[test]
fn a_new_draft_goes_to_the_head_and_carries_the_settings_over() {
    let mut studio = studio();
    studio.drafts[0].voice_id = Some("ada".into());
    studio.drafts[0].model = Some("fine".into());
    studio.new_draft();
    assert_eq!(studio.drafts.len(), 2);
    let draft = studio.draft().unwrap();
    assert_eq!(draft.id, "draft-2");
    assert_eq!(draft.voice_id.as_deref(), Some("ada"));
    assert_eq!(draft.model.as_deref(), Some("fine"));
    assert!(draft.started);
    assert_eq!(studio.text, "");
}

#[test]
fn a_model_this_machine_does_not_have_is_not_carried_over() {
    let mut studio = studio();
    studio.clips[0].model = "elsewhere".into();
    studio.select_clip("c1");
    assert_eq!(studio.clip_model(), Some("elsewhere"));
    studio.new_draft();
    assert_eq!(studio.draft().unwrap().model.as_deref(), Some("fast"));
    assert_eq!(studio.usable_model(Some("fine")).as_deref(), Some("fine"));
    assert_eq!(studio.usable_model(None).as_deref(), Some("fast"));
}

#[test]
fn draft_ids_never_repeat() {
    let mut studio = studio();
    for _ in 0..20 {
        studio.new_draft();
    }
    studio.drafts.remove(3);
    studio.new_draft();
    let mut ids: Vec<&str> = studio.drafts.iter().map(|d| d.id.as_str()).collect();
    ids.sort();
    ids.dedup();
    assert_eq!(ids.len(), studio.drafts.len());
    assert_eq!(studio.drafts[0].id, "draft-22");
}

#[test]
fn switching_drafts_loses_no_words() {
    let mut studio = studio();
    studio.text = "first words".into();
    studio.new_draft();
    assert_eq!(studio.text, "");
    studio.select_draft("draft-1");
    assert_eq!(studio.text, "first words");
    assert!(studio.draft().unwrap().started);
    studio.select_draft("draft-2");
    assert_eq!(studio.text, "");
    studio.text = "second words".into();
    studio.select_draft("draft-1");
    assert_eq!(studio.text, "first words");
    studio.select_take("c1", "t1");
    assert_eq!(studio.text, "c1 words");
    studio.select_draft("draft-2");
    assert_eq!(studio.text, "second words");
}

#[test]
fn typing_is_what_starts_the_opening_draft() {
    let mut studio = studio();
    studio.text = "  \n".into();
    studio.save_open_text();
    assert!(!studio.draft().unwrap().started);
    studio.text = "hello".into();
    studio.save_open_text();
    assert!(studio.draft().unwrap().started);
    studio.text = "".into();
    studio.save_open_text();
    assert!(studio.draft().unwrap().started, "once started, a clip stays one");
}

#[test]
fn selecting_a_clip_is_selecting_its_newest_take() {
    let mut studio = studio();
    let sound = studio.select_clip("c1");
    assert_eq!(sound, Some(("/clips/t2.wav".to_string(), single(24.9))));
    assert_eq!(studio.selected, Selected::Clip("c1".into(), "t2".into()));
    assert_eq!(studio.take().unwrap().id, "t2");
    assert_eq!(studio.select_clip("c2"), None, "a clip without a take has no sound");
    assert_eq!(studio.select_clip("gone"), None);
    assert_eq!(studio.selected, Selected::Clip("c1".into(), "t2".into()));
}

#[test]
fn a_take_that_has_gone_falls_back_to_the_newest() {
    let mut studio = studio();
    studio.select_take("c1", "t1");
    assert_eq!(studio.take().unwrap().id, "t1");
    studio.select_take("c1", "gone");
    assert_eq!(studio.take().unwrap().id, "t2");
    studio.selected = Selected::Clip("c1".into(), "gone".into());
    assert_eq!(studio.take().unwrap().id, "t2");
}

#[test]
fn editing_a_finished_clip_leaves_it_alone() {
    let mut studio = studio();
    studio.select_take("c1", "t1");
    studio.edit_clip_text();
    let draft = studio.draft().unwrap();
    assert_eq!(draft.id, "draft-2");
    assert_eq!(draft.text, "c1 words");
    assert_eq!(draft.name.as_deref(), Some("c1 name"));
    assert_eq!(draft.seed, Some(4_021));
    assert_eq!(studio.text, "c1 words");
    assert_eq!(studio.clips[0].text, "c1 words");
    assert_eq!(studio.clips[0].takes.len(), 2);
    assert_eq!(studio.drafts[1].id, "draft-1");
}

#[test]
fn there_is_nothing_to_edit_without_a_clip() {
    let mut studio = studio();
    studio.edit_clip_text();
    assert_eq!(studio.drafts.len(), 1);
    assert_eq!(studio.next_draft, 1);
}

#[test]
fn a_name_is_edited_and_kept_trimmed() {
    let mut studio = studio();
    assert!(studio.begin_rename("Untitled"));
    assert_eq!(studio.clip_name, "Untitled");
    studio.clip_name = "  Radio spot ".into();
    assert_eq!(studio.commit_rename(), None);
    assert_eq!(studio.draft().unwrap().name.as_deref(), Some("Radio spot"));
    studio.begin_rename("Untitled");
    studio.clip_name = "   ".into();
    studio.commit_rename();
    assert_eq!(studio.draft().unwrap().name, None, "an emptied name is no name");
}

#[test]
fn a_clips_name_is_the_engines_to_keep() {
    let mut studio = studio();
    studio.select_clip("c1");
    assert!(studio.begin_rename("Untitled"));
    assert_eq!(studio.clip_name, "c1 name");
    studio.clip_name = " Spot ".into();
    assert_eq!(studio.commit_rename(), None, "there is no engine to ask");
    studio.engine = true;
    studio.begin_rename("Untitled");
    studio.clip_name = " Spot ".into();
    assert_eq!(studio.commit_rename(), Some(("c1".to_string(), "Spot".to_string())));
    assert!(studio.renaming.is_none());
    assert_eq!(studio.commit_rename(), None);
}

#[test]
fn a_rename_can_be_left_alone() {
    let mut studio = studio();
    assert!(!studio.cancel_rename());
    studio.begin_rename("Untitled");
    assert!(studio.cancel_rename());
    assert_eq!(studio.draft().unwrap().name, None);
    studio.selected = Selected::Draft("gone".into());
    assert!(!studio.begin_rename("Untitled"));
}

#[test]
fn the_settings_in_force_are_the_selections_own() {
    let mut studio = studio();
    assert_eq!(studio.clip_voice(), None);
    assert_eq!(studio.clip_model(), Some("fast"));
    studio.drafts[0].voice_id = Some("ada".into());
    studio.drafts[0].model = Some("fine".into());
    assert_eq!(studio.clip_voice(), Some("ada"));
    assert_eq!(studio.clip_model(), Some("fine"));
    studio.clips[0].voice_id = Some("bola".into());
    studio.select_clip("c1");
    assert_eq!(studio.clip_voice(), Some("bola"));
    assert_eq!(studio.clip_model(), Some("fast"));
}

#[test]
fn selections_are_told_apart() {
    let a = Selected::Draft("x".into());
    let b = Selected::Clip("x".into(), "y".into());
    assert!(a.equals(&a.copy()));
    assert!(b.equals(&b.copy()));
    assert!(!a.equals(&b));
    assert!(!b.equals(&Selected::Clip("x".into(), "z".into())));
    assert_eq!(b.row(), "x");
}
