//! Speaking the words, and what becomes of them.

use voicestudio::clips::Selected;
use voicestudio::engine::{
    Clip, EngineError, Generating, ModelSpec, Synthesis, Take,
};
use voicestudio::single::Single;
use voicestudio::studio::Status;
use voicestudio::VoiceStudio;

fn single(n: f32) -> Single {
    Single { bits: n.to_bits() }
}

fn model(id: &str, installed: bool, supports_cloning: bool) -> ModelSpec {
    ModelSpec {
        id: id.into(),
        label: format!("{id} label"),
        name: format!("{id} name"),
        licence: "Apache-2.0".into(),
        precision: "bf16".into(),
        notes: format!("{id} notes"),
        default: false,
        installed,
        resident: false,
        supports_cloning,
        size_bytes: 3_400_000_000,
        download_bytes: 0,
        measured_rtf: None,
        load_s: None,
    }
}

fn take(id: &str) -> Take {
    Take {
        id: id.into(),
        path: format!("/clips/{id}.wav"),
        audio_s: single(24.9),
        gen_s: single(12.25),
        seed: Some(4_021),
        created: "2026-08-18T15:39:00".into(),
    }
}

fn clip(id: &str, takes: Vec<Take>) -> Clip {
    Clip {
        id: id.into(),
        name: format!("{id} name"),
        text: format!("{id} words"),
        voice_id: None,
        model: "fast".into(),
        takes,
    }
}

fn studio() -> VoiceStudio {
    let mut studio = VoiceStudio::new("Starting", "My voice");
    studio.engine = true;
    studio.status = Status::Idle;
    studio.models = vec![model("fast", true, true), model("fine", false, true)];
    studio.selected_model = Some("fast".into());
    studio.clips = vec![clip("c1", vec![take("t1")])];
    studio.text = "ẹ kú àárọ̀ o".into();
    studio
}

fn made(clip: Option<Clip>) -> Synthesis {
    Synthesis {
        output: "/tmp/out.wav".into(),
        audio_s: single(3.5),
        gen_s: single(7.0),
        clip,
    }
}

#[test]
fn a_draft_generates_itself() {
    let mut studio = studio();
    studio.drafts[0].voice_id = Some("ada".into());
    studio.drafts[0].name = Some("Greeting".into());
    let request = studio.generate(None).expect("something to speak");
    assert_eq!(request.text, "ẹ kú àárọ̀ o");
    assert_eq!(request.model.as_deref(), Some("fast"));
    assert_eq!(request.voice_id.as_deref(), Some("ada"));
    assert_eq!(request.name.as_deref(), Some("Greeting"));
    assert_eq!(request.seed, None);
    assert_eq!(request.clip_id, None);
    assert!(studio.generating());
    assert!(studio.drafts[0].generating);
    assert_eq!(studio.generating_row.as_deref(), Some("draft-1"));
    assert_eq!(studio.expected_words, 4);
    assert!(studio.showing_generation());
}

#[test]
fn a_finished_clip_generates_another_take_of_itself() {
    let mut studio = studio();
    studio.select_clip("c1");
    let request = studio.generate(None).unwrap();
    assert_eq!(request.clip_id.as_deref(), Some("c1"));
    assert_eq!(request.text, "c1 words");
    assert_eq!(request.name.as_deref(), Some("c1 name"));
    assert_eq!(studio.generating_row.as_deref(), Some("c1"));
    assert!(!studio.drafts[0].generating);
    assert_eq!(studio.running_text(), "c1 words");
}

#[test]
fn the_nearest_seed_wins() {
    let mut one = studio();
    one.pinned_seed = Some(3);
    assert_eq!(one.generate(None).unwrap().seed, Some(3));
    let mut two = studio();
    two.pinned_seed = Some(3);
    two.drafts[0].seed = Some(2);
    assert_eq!(two.generate(None).unwrap().seed, Some(2));
    let mut three = studio();
    three.drafts[0].seed = Some(2);
    assert_eq!(three.generate(Some(1)).unwrap().seed, Some(1));
}

#[test]
fn one_thing_runs_at_a_time() {
    let mut studio = studio();
    assert!(studio.generate(None).is_some());
    assert!(studio.generate(None).is_none());
    studio.status = Status::Preparing("wait".into());
    assert!(studio.generate(None).is_none());
    studio.status = Status::Idle;
    studio.engine = false;
    assert!(studio.generate(None).is_none());
}

#[test]
fn blank_words_start_nothing() {
    let mut studio = studio();
    studio.text = " \n ".into();
    assert!(studio.generate(None).is_none());
    assert!(!studio.generating());
    assert_eq!(studio.generating_row, None);
    assert_eq!(studio.queued, None);
}

#[test]
fn words_wait_for_a_model_that_is_not_there() {
    let mut studio = studio();
    studio.selected_model = Some("fine".into());
    assert!(studio.generate(None).is_none());
    let row = studio.drafts[0].id.clone();
    assert_eq!(studio.queued, Some(("ẹ kú àárọ̀ o".to_string(), row)));
    assert_eq!(studio.drafts[0].text, "ẹ kú àárọ̀ o");
    assert!(!studio.generating());
    assert_eq!(studio.generating_row, None);
}

#[test]
fn a_finished_draft_becomes_its_clip() {
    let mut studio = studio();
    studio.new_draft();
    studio.text = "second".into();
    studio.generate(None);
    let (sound, again) = studio.synthesized(Ok(made(Some(clip("c9", vec![take("t9")])))), "again");
    assert!(!again);
    assert_eq!(sound, Some(("/clips/t9.wav".to_string(), single(3.5))));
    assert_eq!(studio.selected, Selected::Clip("c9".into(), "t9".into()));
    let left: Vec<&str> = studio.drafts.iter().map(|d| d.id.as_str()).collect();
    assert_eq!(left, ["draft-1"], "only what was running leaves the list");
    assert_eq!(studio.generating_row, None);
    assert!(studio.last.is_some());
    assert!(matches!(&studio.status, Status::Done { output, .. } if output == "/tmp/out.wav"));
}

#[test]
fn without_a_clip_the_scratch_file_is_what_is_heard() {
    let mut studio = studio();
    studio.generate(None);
    let (sound, _) = studio.synthesized(Ok(made(None)), "again");
    assert_eq!(sound.unwrap().0, "/tmp/out.wav");
    let (sound, _) = studio.synthesized(Ok(made(Some(clip("c9", vec![])))), "again");
    assert_eq!(sound.unwrap().0, "/tmp/out.wav");
    assert_eq!(studio.selected, Selected::Clip("c9".into(), "c9".into()));
}

#[test]
fn a_refusal_is_not_a_failure_and_loses_no_words() {
    let mut studio = studio();
    studio.generate(None);
    let (sound, again) =
        studio.synthesized(Err(EngineError::Refused("not in this voice".into())), "again");
    assert_eq!(sound, None);
    assert!(!again);
    assert!(matches!(&studio.status, Status::Refused(why) if why == "not in this voice"));
    assert_eq!(studio.drafts[0].text, "ẹ kú àárọ̀ o");
    assert!(!studio.drafts[0].generating);
    assert_eq!(studio.generating_row, None);
}

#[test]
fn a_failure_says_what_went_wrong() {
    let mut studio = studio();
    studio.stopping = true;
    studio.generate(None);
    studio.synthesized(Err(EngineError::Other("out of memory".into())), "again");
    assert!(matches!(&studio.status, Status::Failed(why) if why == "out of memory"));
    assert!(!studio.stopping);
    assert!(!studio.drafts[0].generating);
}

#[test]
fn an_engine_that_is_gone_is_started_again() {
    let mut studio = studio();
    studio.generate(None);
    let (sound, again) = studio.synthesized(Err(EngineError::NotRunning), "Restarting");
    assert_eq!(sound, None);
    assert!(again);
    assert!(!studio.engine);
    assert!(matches!(&studio.status, Status::Preparing(what) if what == "Restarting"));
    assert!(studio.drafts.iter().all(|d| !d.generating), "nothing generates any more");
    assert_eq!(studio.generating_row, None);
}

#[test]
fn any_other_engine_failure_is_reported() {
    let mut studio = studio();
    studio.generate(None);
    let again = studio.engine_failed(EngineError::Other("x".into()), "broken pipe", "Restarting");
    assert!(!again);
    assert!(studio.engine);
    assert!(matches!(&studio.status, Status::Failed(why) if why == "broken pipe"));
}

#[test]
fn stopping_is_asked_of_an_engine() {
    let mut studio = studio();
    assert!(studio.cancel_generation());
    assert!(studio.stopping);
    studio.stopping = false;
    studio.engine = false;
    assert!(!studio.cancel_generation());
    assert!(!studio.stopping);
}

#[test]
fn what_is_left_is_counted_in_chunks() {
    let mut studio = studio();
    assert_eq!(studio.seconds_left(), None);
    assert_eq!(studio.generation_fraction(), None);
    let at = |done, chunks, elapsed: f32| Generating {
        chunks_done: done,
        chunks,
        written_s: single(1.0),
        elapsed_s: single(elapsed),
    };
    studio.generate(None);
    assert!(studio.progressed(Some(at(0, 4, 2.0))));
    assert_eq!(studio.seconds_left(), None, "nothing is measured before the first chunk");
    studio.progressed(Some(at(1, 4, 2.0)));
    assert_eq!(studio.seconds_left(), Some((single(2.0), 1, 3)));
    assert_eq!(studio.generation_fraction(), Some((1, 4)));
    studio.progressed(Some(at(4, 4, 8.0)));
    assert_eq!(studio.seconds_left(), None, "there is nothing left");
    studio.progressed(Some(at(1, 4, 0.0)));
    assert_eq!(studio.seconds_left(), None);
    studio.progressed(Some(at(0, 0, 0.0)));
    assert_eq!(studio.generation_fraction(), None);
    studio.status = Status::Idle;
    assert!(!studio.progressed(None), "the asking ends with the generation");
}

#[test]
fn the_card_follows_the_selection_and_not_the_run() {
    let mut studio = studio();
    studio.generate(None);
    assert!(studio.showing_generation());
    studio.select_clip("c1");
    assert!(!studio.showing_generation());
    assert_eq!(studio.running_text(), "ẹ kú àárọ̀ o", "the words belong to the run");
    studio.status = Status::Preparing("loading".into());
    assert!(studio.showing_generation(), "preparing belongs to no row");
}

#[test]
fn what_is_typed_while_something_else_runs_is_kept() {
    let mut studio = studio();
    studio.generate(None);
    studio.new_draft();
    studio.text = "typed meanwhile".into();
    studio.synthesized(Ok(made(Some(clip("c9", vec![take("t9")])))), "again");
    studio.select_draft("draft-2");
    assert_eq!(studio.text, "typed meanwhile");
    assert_eq!(studio.drafts.len(), 1, "what ran has become its clip");
}

#[test]
fn the_words_spoken_are_those_of_the_clip_being_read_again() {
    let mut studio = studio();
    studio.clips.push(clip("c2", vec![take("t2")]));
    studio.select_clip("c1");
    studio.generate(None);
    studio.select_clip("c2");
    assert_eq!(studio.running_text(), "c1 words");
}
