//! Words that wait for a model.

use voicestudio::clips::Selected;
use voicestudio::engine::{Clip, ModelSpec, Take};
use voicestudio::single::Single;
use voicestudio::studio::Status;
use voicestudio::VoiceStudio;

fn single(n: f32) -> Single {
    Single { bits: n.to_bits() }
}

fn model(id: &str, installed: bool) -> ModelSpec {
    ModelSpec {
        id: id.into(),
        label: format!("{id} label"),
        name: format!("{id} name"),
        licence: "Apache-2.0".into(),
        precision: "bf16".into(),
        notes: format!("{id} notes"),
        default: false,
        installed,
        resident: false,
        supports_cloning: true,
        size_bytes: 3_400_000_000,
        download_bytes: 0,
        measured_rtf: None,
        load_s: None,
    }
}

fn clip(id: &str) -> Clip {
    Clip {
        id: id.into(),
        name: format!("{id} name"),
        text: format!("{id} words"),
        voice_id: Some("voice-1".into()),
        model: "fine".into(),
        takes: vec![Take {
            id: "t1".into(),
            path: "/t1.wav".into(),
            audio_s: single(2.0),
            gen_s: single(4.0),
            seed: None,
            created: "2026-03-04T10:00:00Z".into(),
        }],
    }
}

fn studio() -> VoiceStudio {
    let mut studio = VoiceStudio::new("Starting", "My voice");
    studio.engine = true;
    studio.status = Status::Idle;
    studio.models = vec![model("fine", false)];
    studio.selected_model = Some("fine".into());
    studio.clips = vec![clip("c1")];
    studio.text = "first".into();
    studio
}

fn there() -> Option<Vec<ModelSpec>> {
    Some(vec![model("fine", true)])
}

#[test]
fn the_row_that_still_holds_the_words_is_the_one_that_runs() {
    let mut studio = studio();
    assert!(studio.generate(Some(9)).is_none());
    let row = studio.drafts[0].id.clone();
    let request = studio.install_settled("fine", there()).unwrap();
    assert_eq!(request.text, "first");
    assert_eq!(request.model.as_deref(), Some("fine"));
    assert_eq!(request.clip_id, None);
    assert_eq!(studio.drafts.len(), 1);
    assert!(studio.drafts[0].generating);
    assert_eq!(studio.generating_row, Some(row));
    assert_eq!(studio.expected_words, 1);
    assert_eq!(studio.queued, None);
    assert_eq!(studio.running_text(), "first");
}

#[test]
fn words_written_over_while_they_waited_run_all_the_same() {
    let mut studio = studio();
    studio.drafts[0].seed = Some(4);
    studio.drafts[0].name = Some("Spot".into());
    studio.generate(None);
    studio.text = "second".into();
    let request = studio.install_settled("fine", there()).unwrap();
    assert_eq!(request.text, "first");
    assert_eq!(request.seed, Some(4));
    assert_eq!(request.name.as_deref(), Some("Spot"));
    assert_eq!(studio.queued, None);
    assert_eq!(studio.drafts.len(), 2);
    assert_eq!(studio.drafts[0].text, "first");
    assert!(studio.drafts[0].generating);
    assert_eq!(studio.drafts[1].text, "second");
    assert!(!studio.drafts[1].generating);
    assert_ne!(studio.drafts[0].id, studio.drafts[1].id);
    assert_eq!(studio.generating_row.as_ref(), Some(&studio.drafts[0].id));
    assert_eq!(studio.text, "second", "the composer is left alone");
    assert_eq!(studio.selected, Selected::Draft(studio.drafts[1].id.clone()));
    assert_eq!(studio.running_text(), "first");
}

#[test]
fn another_row_may_be_open_when_the_words_run() {
    let mut studio = studio();
    studio.generate(None);
    let row = studio.drafts[0].id.clone();
    studio.new_draft();
    studio.text = "elsewhere".into();
    let open = studio.selected.clone();
    let request = studio.install_settled("fine", there()).unwrap();
    assert_eq!(request.text, "first");
    assert_eq!(studio.generating_row, Some(row));
    assert_eq!(studio.selected, open);
    assert_eq!(studio.text, "elsewhere");
    assert_eq!(studio.drafts.len(), 2);
    assert_eq!(studio.drafts[0].text, "elsewhere");
    assert!(!studio.drafts[0].generating);
    assert!(studio.drafts[1].generating);
}

#[test]
fn another_take_waits_with_its_clip() {
    let mut studio = studio();
    studio.select_clip("c1");
    assert!(studio.generate(None).is_none());
    assert_eq!(studio.queued, Some(("c1 words".to_string(), "c1".to_string())));
    studio.select_draft("draft-1");
    let request = studio.install_settled("fine", there()).unwrap();
    assert_eq!(request.text, "c1 words");
    assert_eq!(request.clip_id.as_deref(), Some("c1"));
    assert_eq!(studio.generating_row.as_deref(), Some("c1"));
    assert_eq!(studio.queued, None);
}

#[test]
fn words_whose_clip_has_gone_run_from_a_draft_of_their_own() {
    let mut studio = studio();
    studio.queued = Some(("c1 words".into(), "c1".into()));
    studio.clips.clear();
    let before = studio.drafts.len();
    let request = studio.install_settled("fine", there()).unwrap();
    assert_eq!(request.text, "c1 words");
    assert_eq!(request.clip_id, None);
    assert_eq!(request.voice_id, None);
    assert_eq!(studio.drafts.len(), before + 1);
    assert_eq!(studio.drafts[0].text, "c1 words");
}

#[test]
fn words_whose_clip_says_something_else_keep_its_settings() {
    let mut studio = studio();
    studio.queued = Some(("as it was".into(), "c1".into()));
    let request = studio.install_settled("fine", there()).unwrap();
    assert_eq!(request.text, "as it was");
    assert_eq!(request.clip_id, None, "the clip is not overwritten");
    assert_eq!(request.voice_id.as_deref(), Some("voice-1"));
    assert_eq!(request.model.as_deref(), Some("fine"));
    assert_eq!(request.name.as_deref(), Some("c1 name"));
}

#[test]
fn words_go_on_waiting_until_they_can_run() {
    let mut studio = studio();
    studio.generate(None);
    let held = studio.queued.clone();
    assert!(held.is_some());
    assert!(studio.install_settled("fine", None).is_none(), "the model is not there");
    assert_eq!(studio.queued, held);
    studio.status = Status::Preparing("loading".into());
    assert!(studio.install_settled("fine", there()).is_none(), "something else is running");
    assert_eq!(studio.queued, held);
    studio.status = Status::Idle;
    studio.engine = false;
    assert!(studio.run_queue().is_none(), "there is no engine");
    assert_eq!(studio.queued, held);
    studio.engine = true;
    assert_eq!(studio.run_queue().unwrap().text, "first");
    assert_eq!(studio.queued, None);
    assert!(studio.run_queue().is_none(), "nothing waits any more");
}
