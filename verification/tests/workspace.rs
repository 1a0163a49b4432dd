//! The title bar, the list of clips, and lengths and times.

use voicestudio::engine::{Clip, Consent, Generating, InstallStatus, ModelSpec, Take, Voice};
use voicestudio::icon;
use voicestudio::player::format_time;
use voicestudio::settings::Pane;
use voicestudio::single::Single;
use voicestudio::studio::{Enrolment, Status};
use voicestudio::workspace::{
    clock, duration, has_clock, on_disk_phrase, Bar, Dot, ModelState, RowDetail, SidebarFoot,
};
use voicestudio::VoiceStudio;

fn single(n: f32) -> Single {
    Single { bits: n.to_bits() }
}

fn model(id: &str, installed: bool, supports_cloning: bool) -> ModelSpec {
    ModelSpec {
        id: id.into(),
        label: format!("{id} label"),
        name: format!("{id} name"),
        licence: "Apache-2.0".into(),
        precision: "bf16".into(),
        notes: format!("{id} notes"),
        default: false,
        installed,
        resident: false,
        supports_cloning,
        size_bytes: 3_400_000_000,
        download_bytes: 0,
        measured_rtf: None,
        load_s: None,
    }
}

fn voice(id: &str, label: &str) -> Voice {
    Voice {
        voice_id: id.into(),
        label: label.into(),
        reference_audio: format!("/voices/{id}.wav"),
        reference_text: "The words.".into(),
        seconds: single(17.6),
        consent: Consent {
            statement: "I agree.".into(),
            app_version: "0.1.0".into(),
            source: "recording".into(),
        },
    }
}

fn take(id: &str) -> Take {
    Take {
        id: id.into(),
        path: format!("/clips/{id}.wav"),
        audio_s: single(24.9),
        gen_s: single(12.25),
        seed: Some(4_021),
        created: "2026-08-18T15:39:00".into(),
    }
}

fn clip(id: &str, takes: Vec<Take>) -> Clip {
    Clip {
        id: id.into(),
        name: format!("{id} name"),
        text: format!("{id} words"),
        voice_id: None,
        model: "fast".into(),
        takes,
    }
}

fn studio() -> VoiceStudio {
    let mut studio = VoiceStudio::new("Starting", "My voice");
    studio.engine = true;
    studio.status = Status::Idle;
    studio.models = vec![model("fast", true, true)];
    studio.selected_model = Some("fast".into());
    studio
}

#[test]
fn a_length_reads_the_same_in_the_list_and_in_the_transport() {
    assert_eq!(duration(single(17.6)), "0:17");
    assert_eq!(duration(single(17.6)), format_time(17));
    assert_eq!(duration(single(65.0)), "1:05");
    assert_eq!(duration(single(-3.0)), "0:00");
}

#[test]
fn a_time_is_its_hours_and_minutes() {
    assert_eq!(clock("2026-08-18T15:39:00"), "15:39");
    assert_eq!(clock("2026-08-18"), "");
    assert_eq!(clock("aT12345T67890"), "12345");
    assert_eq!(clock("Té234x"), "é234");
    assert!(has_clock("2026-08-18T15:39:00") && has_clock("nothing"));
    assert!(!has_clock("2026-08-18T15"));
    assert!(!has_clock("Tabcdé"), "the cut would fall inside a character");
}

#[test]
fn the_title_bar_says_what_the_model_is_doing() {
    let mut studio = studio();
    let bar = studio.title_bar();
    assert_eq!((bar.bar, bar.dot, bar.state), (Bar::Model, Dot::Ready, ModelState::Loaded));
    assert_eq!(bar.model.as_deref(), Some("fast name"));
    assert_eq!((bar.chevron, bar.panel), (icon::EXPAND_MORE, icon::PANEL_OPEN));
    studio.status = Status::Generating;
    let bar = studio.title_bar();
    assert_eq!((bar.dot, bar.state), (Dot::Working, ModelState::Generating));
    let under_way = InstallStatus {
        downloading: true,
        downloaded_bytes: 1,
        total_bytes: 4,
        error: None,
    };
    studio.installs.insert("fast", under_way);
    assert_eq!(studio.title_bar().state, ModelState::Downloading(1, 4));
    studio.installs.remove("fast");
    studio.status = Status::Idle;
    studio.engine = false;
    let bar = studio.title_bar();
    assert_eq!((bar.dot, bar.state), (Dot::Off, ModelState::Starting));
}

#[test]
fn recording_and_setup_take_the_title_bar_over() {
    let mut studio = studio();
    studio.enrolment = Enrolment::Recording;
    assert_eq!(studio.title_bar().bar, Bar::Recording);
    studio.choosing_model = true;
    assert_eq!(studio.title_bar().bar, Bar::FirstRun);
}

#[test]
fn the_panels_open_and_close() {
    let mut studio = studio();
    assert!(studio.toggle_model_menu(), "the menu reads the catalogue on opening");
    assert_eq!(studio.title_bar().chevron, icon::EXPAND_LESS);
    studio.open_settings(Pane::About);
    assert!(studio.settings_open && !studio.model_menu);
    assert_eq!(studio.settings_pane, Pane::About);
    studio.open_storage();
    assert_eq!(studio.settings_pane, Pane::Storage);
    assert!(studio.toggle_model_menu());
    assert!(!studio.toggle_model_menu());
    studio.open_inspector();
    assert_eq!(studio.title_bar().panel, icon::PANEL_CLOSE);
    studio.toggle_inspector();
    assert!(!studio.inspector);
}

#[test]
fn the_opening_draft_is_not_in_the_list() {
    let mut studio = studio();
    let sidebar = studio.sidebar("Untitled", "Studio voice", false);
    assert!(sidebar.empty && sidebar.rows.is_empty());
    assert_eq!(sidebar.foot, SidebarFoot::OnDisk(0));
    studio.text = "hello".into();
    studio.save_open_text();
    let sidebar = studio.sidebar("Untitled", "Studio voice", false);
    assert!(!sidebar.empty);
    let row = &sidebar.rows[0];
    assert_eq!((row.id.as_str(), row.title.as_str()), ("draft-1", "Untitled"));
    assert!(row.draft && row.current && row.accent && !row.menu);
    assert_eq!(row.glyph, icon::EDIT_NOTE);
    assert!(matches!(row.detail, RowDetail::Draft));
    assert!(row.running.is_none());
}

#[test]
fn a_running_draft_carries_its_own_progress() {
    let mut studio = studio();
    studio.text = "hello".into();
    studio.generate(None);
    studio.new_draft();
    let rows = studio.clip_rows("Untitled", "Studio voice", false);
    assert_eq!(rows.len(), 2);
    let row = &rows[1];
    assert!(row.current, "what runs is marked wherever you are");
    assert_eq!(row.glyph, icon::PROGRESS);
    assert!(matches!(row.detail, RowDetail::GeneratingNow));
    assert_eq!(row.running, Some(None));
    studio.progressed(Some(Generating {
        chunks_done: 1,
        chunks: 4,
        written_s: single(1.0),
        elapsed_s: single(2.0),
    }));
    let rows = studio.clip_rows("Untitled", "Studio voice", false);
    assert_eq!(rows[1].running, Some(Some((1, 4))));
    assert!(matches!(rows[1].detail, RowDetail::GeneratingLeft(elapsed, 1, 3) if elapsed == single(2.0)));
    assert_eq!(
        studio.sidebar("Untitled", "Studio voice", false).foot,
        SidebarFoot::Generating
    );
}

#[test]
fn finished_clips_follow_the_drafts() {
    let mut studio = studio();
    studio.voices = vec![voice("voice-1", "Ada")];
    studio.clips = vec![clip("c1", vec![take("t1")]), clip("c2", vec![])];
    studio.clips[0].voice_id = Some("voice-1".into());
    studio.select_clip("c1");
    studio.load_clip("/clips/t1.wav", single(24.9), None, None);
    let rows = studio.clip_rows("Untitled", "Studio voice", true);
    assert_eq!(rows.len(), 2);
    assert_eq!(rows[0].glyph, icon::PAUSE_CIRCLE);
    assert!(rows[0].current && rows[0].accent && rows[0].menu);
    assert!(matches!(
        &rows[0].detail,
        RowDetail::Made(length, who) if length == "0:24" && who == "Ada"
    ));
    assert_eq!(rows[1].glyph, icon::PLAY_CIRCLE);
    assert!(!rows[1].current && !rows[1].menu);
    assert!(matches!(
        &rows[1].detail,
        RowDetail::Made(length, who) if length == "0:00" && who == "Studio voice"
    ));
    let rows = studio.clip_rows("Untitled", "Studio voice", false);
    assert_eq!(rows[0].glyph, icon::PLAY_CIRCLE, "nothing is sounding");
    assert_eq!(studio.sidebar("", "", false).count, 2);
}

#[test]
fn one_clip_is_not_said_as_many() {
    assert_eq!(on_disk_phrase(1), "clip.one_on_disk");
    assert_eq!(on_disk_phrase(0), "clip.n_on_disk");
    assert_eq!(on_disk_phrase(2), "clip.n_on_disk");
}

#[test]
fn a_model_is_called_what_it_is_called() {
    let mut studio = studio();
    assert_eq!(studio.model_label(), "fast name");
    assert!(studio.model_available());
    studio.clips = vec![clip("c1", vec![take("t1")])];
    studio.clips[0].model = "elsewhere".into();
    studio.select_clip("c1");
    assert_eq!(studio.model_label(), "elsewhere", "an id is the truest thing left to show");
    assert!(!studio.model_available());
    let mut none = VoiceStudio::new("Starting", "My voice");
    none.selected_model = None;
    assert_eq!(none.model_label(), "");
    assert!(none.model_available());
}
