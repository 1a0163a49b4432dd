//! Choosing models, and putting them on disk.

use voicestudio::engine::{InstallStatus, ModelSpec, SystemInfo};
use voicestudio::models::{model_name, Fact, RowAction};
use voicestudio::single::Single;
use voicestudio::studio::Status;
use voicestudio::VoiceStudio;

fn single(n: f32) -> Single {
    Single { bits: n.to_bits() }
}

fn model(id: &str, installed: bool, supports_cloning: bool) -> ModelSpec {
    ModelSpec {
        id: id.into(),
        label: format!("{id} label"),
        name: format!("{id} name"),
        licence: "Apache-2.0".into(),
        precision: "bf16".into(),
        notes: format!("{id} notes"),
        default: false,
        installed,
        resident: false,
        supports_cloning,
        size_bytes: 3_400_000_000,
        download_bytes: 0,
        measured_rtf: None,
        load_s: None,
    }
}

fn status(downloading: bool, error: Option<&str>) -> InstallStatus {
    InstallStatus {
        downloading,
        downloaded_bytes: 500,
        total_bytes: 2_000,
        error: error.map(str::to_string),
    }
}

fn studio() -> VoiceStudio {
    let mut studio = VoiceStudio::new("Starting", "My voice");
    studio.engine = true;
    studio.status = Status::Idle;
    studio.models = vec![model("fast", true, true), model("fine", false, false)];
    studio.selected_model = Some("fast".into());
    studio
}

#[test]
fn a_model_that_cannot_clone_drops_the_voice() {
    let mut studio = studio();
    studio.selected_voice = Some("voice-1".into());
    studio.warming = Some("voice-1".into());
    studio.select_model("fast");
    assert_eq!(studio.selected_voice.as_deref(), Some("voice-1"));
    assert_eq!(studio.warming, None);
    studio.select_model("fine");
    assert_eq!(studio.selected_voice, None);
    assert_eq!(studio.selected_model.as_deref(), Some("fine"));
}

#[test]
fn a_model_is_downloaded_once_at_a_time() {
    let mut studio = studio();
    assert!(studio.install_model("fine"));
    assert!(studio.install_progressed("fine", status(true, None)));
    assert!(studio.downloading("fine"));
    assert!(!studio.install_model("fine"));
    assert!(studio.install_model("other"));
    studio.install_settled("fine", None);
    assert!(studio.install_model("fine"));
    studio.engine = false;
    assert!(!studio.install_model("fine"));
}

#[test]
fn a_download_that_fails_says_why() {
    let mut studio = studio();
    assert!(!studio.install_progressed("fine", status(false, Some("no space"))));
    assert!(matches!(&studio.status, Status::Failed(why) if why == "no space"));
    assert!(studio.installs.get("fine").is_some());
    studio.install_settled("fine", None);
    assert!(studio.installs.get("fine").is_none());
}

#[test]
fn what_waited_for_a_model_runs_when_it_is_there() {
    let mut studio = studio();
    studio.selected_model = Some("fine".into());
    studio.text = "at last".into();
    assert!(studio.generate(None).is_none());
    assert!(studio.install_settled("fine", None).is_none(), "it is still not there");
    assert_eq!(studio.queued.as_ref().map(|held| held.0.as_str()), Some("at last"));
    let request = studio
        .install_settled("fine", Some(vec![model("fine", true, false)]))
        .expect("the queue runs");
    assert_eq!(request.text, "at last");
    assert_eq!(studio.queued, None);
    assert!(studio.generating());
}

#[test]
fn the_selection_stays_on_something_on_disk() {
    let mut studio = studio();
    studio.confirming_delete = Some("fast".into());
    assert!(studio.delete_model());
    assert_eq!(studio.confirming_delete, None);
    studio.model_deleted(Ok(vec![model("fast", false, true), model("third", true, true)]));
    assert_eq!(studio.selected_model.as_deref(), Some("third"));
    studio.model_deleted(Ok(vec![model("fourth", true, true), model("third", true, true)]));
    assert_eq!(studio.selected_model.as_deref(), Some("third"));
    studio.model_deleted(Ok(vec![model("third", false, true)]));
    assert_eq!(studio.selected_model, None);
    studio.model_deleted(Err("in use".into()));
    assert!(matches!(&studio.status, Status::Failed(why) if why == "in use"));
    studio.engine = false;
    assert!(!studio.delete_model());
}

#[test]
fn sizes_are_asked_for_only_where_one_is_missing() {
    let mut studio = studio();
    assert!(studio.refresh_model_sizes());
    studio.models[1].download_bytes = 9;
    assert!(!studio.refresh_model_sizes());
    studio.models[1].download_bytes = 0;
    studio.engine = false;
    assert!(!studio.refresh_model_sizes());
}

#[test]
fn what_cannot_be_read_leaves_what_was_known() {
    let mut studio = studio();
    studio.models_refreshed(None);
    assert_eq!(studio.models.len(), 2);
    studio.models_refreshed(Some(vec![]));
    assert!(studio.models.is_empty());
    studio.system_refreshed(Some(SystemInfo { free_bytes: 7 }));
    studio.system_refreshed(None);
    assert_eq!(studio.models_screen().free, Some(7));
}

#[test]
fn a_row_says_what_the_model_is_and_costs() {
    let mut studio = studio();
    studio.models[0].measured_rtf = Some(single(0.5));
    studio.models[0].default = true;
    let screen = studio.models_screen();
    assert!(screen.can_continue);
    assert_eq!(screen.free, None);
    let row = &screen.rows[0];
    assert!(row.selected && row.installed && row.recommended);
    assert_eq!(row.name, "fast name");
    assert_eq!(row.action, RowAction::InUse);
    assert_eq!(row.facts.len(), 5);
    assert!(matches!(row.facts[0], Fact::Size(3_400_000_000)));
    assert!(matches!(&row.facts[1], Fact::Text(licence) if licence == "Apache-2.0"));
    assert!(matches!(&row.facts[2], Fact::Text(precision) if precision == "bf16"));
    assert!(matches!(row.facts[3], Fact::Measured(rtf) if rtf == single(0.5)));
    assert!(matches!(row.facts[4], Fact::CanClone));
    let row = &screen.rows[1];
    assert_eq!(row.action, RowAction::Download);
    assert_eq!(row.facts.len(), 3, "a size never looked up is not shown");
    assert!(matches!(row.facts[2], Fact::OwnVoiceOnly));
}

#[test]
fn a_download_owns_its_row() {
    let mut studio = studio();
    studio.install_progressed("fast", status(true, None));
    assert_eq!(studio.models_screen().rows[0].action, RowAction::Downloading(500, 2_000));
    studio.install_progressed("fast", status(false, None));
    assert_eq!(studio.models_screen().rows[0].action, RowAction::InUse);
    studio.selected_model = None;
    assert_eq!(studio.models_screen().rows[0].action, RowAction::Use);
}

#[test]
fn nothing_can_be_gone_on_to_without_a_model() {
    let mut studio = studio();
    studio.models[0].installed = false;
    assert!(!studio.models_screen().can_continue);
    assert_eq!(studio.installed_models(), 0);
}

#[test]
fn a_model_without_a_name_goes_by_its_label() {
    let mut nameless = model("fast", true, true);
    assert_eq!(model_name(&nameless), "fast name");
    nameless.name = String::new();
    assert_eq!(model_name(&nameless), "fast label");
}

#[test]
fn downloads_are_kept_by_model() {
    let mut studio = studio();
    studio.install_progressed("a", status(true, None));
    studio.install_progressed("b", status(false, None));
    studio.install_progressed("a", status(false, None));
    assert!(!studio.downloading("a"));
    studio.installs.remove("a");
    assert!(studio.installs.get("a").is_none());
    assert!(studio.installs.get("b").is_some());
}
