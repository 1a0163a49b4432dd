//! What the application is made of, and the icons it draws with.

use voicestudio::about::{about_pane, Terms};
use voicestudio::icon::{self, filled, filled_char};

#[test]
fn the_credits_end_with_what_is_on_this_machine() {
    let pane = about_pane("Speech runtime", "1.2.0");
    let credits: Vec<&str> = pane.credits.iter().map(|credit| credit.what.as_str()).collect();
    assert_eq!(
        credits,
        [
            "Sora",
            "Noto Sans, Noto Sans Mono",
            "Material Symbols Rounded",
            "CPython, via python-build-standalone",
            "MLX",
            "Speech runtime 1.2.0",
        ]
    );
    assert!(matches!(pane.credits[2].terms, Terms::Licence("Apache-2.0")));
    assert!(matches!(pane.credits[5].terms, Terms::Phrase("about.on_this_machine")));
    assert_eq!(pane.privacy, ["about.privacy_body", "about.privacy_network"]);
    assert_eq!((pane.consent, pane.models), ("about.consent_body", "about.models_elsewhere"));
}

#[test]
fn a_filled_icon_is_written_by_its_own_character() {
    assert_eq!(filled_char(icon::CHECK_CIRCLE), Some("\u{f0000}"));
    assert_eq!(filled_char(icon::PLAY_CIRCLE), Some("\u{f0001}"));
    assert_eq!(filled_char(icon::PAUSE_CIRCLE), Some("\u{f0002}"));
    assert_eq!(filled_char(icon::PLAY_ARROW), Some("\u{f0003}"));
    assert_eq!(filled_char(icon::PAUSE), Some("\u{f0004}"));
    assert_eq!(filled_char(icon::STOP_CIRCLE), Some("\u{f0005}"));
    assert_eq!(filled_char(icon::MIC), None);
    assert_eq!(filled(icon::MIC), icon::MIC);
    assert_eq!(filled(icon::PAUSE), "\u{f0004}");
}
