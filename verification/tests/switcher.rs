//! The model switcher.

use voicestudio::engine::{InstallStatus, ModelSpec};
use voicestudio::icon;
use voicestudio::models::Fact;
use voicestudio::single::Single;
use voicestudio::studio::Status;
use voicestudio::switcher::{model_facts, switch_cost, Cost};
use voicestudio::VoiceStudio;

fn single(n: f32) -> Single {
    Single { bits: n.to_bits() }
}

fn model(id: &str, installed: bool, supports_cloning: bool) -> ModelSpec {
    ModelSpec {
        id: id.into(),
        label: format!("{id} label"),
        name: format!("{id} name"),
        licence: "Apache-2.0".into(),
        precision: "bf16".into(),
        notes: format!("{id} notes"),
        default: false,
        installed,
        resident: false,
        supports_cloning,
        size_bytes: 3_400_000_000,
        download_bytes: 0,
        measured_rtf: None,
        load_s: None,
    }
}

fn studio() -> VoiceStudio {
    let mut studio = VoiceStudio::new("Starting", "My voice");
    studio.engine = true;
    studio.status = Status::Idle;
    studio.models =
        vec![model("fast", true, true), model("fine", false, true), model("third", true, true)];
    studio.selected_model = Some("fast".into());
    studio.model_menu = true;
    studio
}

#[test]
fn switching_states_its_price() {
    let mut one = model("fast", true, true);
    assert_eq!(switch_cost(&one), Cost::OnDisk);
    one.load_s = Some(single(8.0));
    assert_eq!(switch_cost(&one), Cost::LoadsIn(single(8.0)));
    one.resident = true;
    assert_eq!(switch_cost(&one), Cost::InMemory);
}

#[test]
fn only_measured_figures_appear() {
    let mut one = model("fine", false, true);
    assert!(model_facts(&one).is_empty());
    one.download_bytes = 9;
    assert!(matches!(model_facts(&one)[..], [Fact::Size(9)]));
    one.measured_rtf = Some(single(0.5));
    assert!(matches!(model_facts(&one)[..], [Fact::Size(9), Fact::Measured(_)]));
    one.download_bytes = 0;
    assert!(matches!(model_facts(&one)[..], [Fact::Measured(_)]));
}

#[test]
fn the_two_lists_hold_every_model_once() {
    let studio = studio();
    let menu = studio.model_menu().expect("the menu is open");
    let here: Vec<&str> = menu.on_machine.iter().map(|row| row.id.as_str()).collect();
    assert_eq!(here, ["fast", "third"]);
    assert!(menu.on_machine[0].chosen && !menu.on_machine[1].chosen);
    assert_eq!(menu.on_machine[0].glyph, icon::CHECK_CIRCLE);
    assert_eq!(menu.on_machine[1].glyph, icon::RADIO_UNCHECKED);
    assert_eq!(menu.on_machine[0].cost, Some(Cost::OnDisk));
    assert_eq!(menu.not_downloaded.len(), 1);
    assert_eq!(menu.not_downloaded[0].glyph, icon::DOWNLOAD);
    assert_eq!(menu.not_downloaded[0].cost, None);
}

#[test]
fn a_download_reads_as_motion() {
    let mut studio = studio();
    studio.installs.insert(
        "fine",
        InstallStatus { downloading: true, downloaded_bytes: 0, total_bytes: 1, error: None },
    );
    assert_eq!(studio.model_menu().unwrap().not_downloaded[0].glyph, icon::DOWNLOADING);
}

#[test]
fn a_model_on_disk_is_chosen_and_any_other_is_fetched() {
    let mut studio = studio();
    assert_eq!(studio.press_switch("third", true), Ok(None));
    assert_eq!(studio.selected_model.as_deref(), Some("third"));
    assert!(!studio.model_menu);
    assert!(studio.model_menu().is_none());
    studio.model_menu = true;
    assert_eq!(studio.press_switch("fine", false), Err(true));
    assert!(studio.model_menu, "its row is where the progress appears");
    studio.close_model_menu();
    assert!(!studio.model_menu);
}
