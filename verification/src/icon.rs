//! The icons the design draws with.
//!
//! The font is one of ligatures: a glyph is selected by writing its name, and
//! the font substitutes the symbol. So an icon is a run of text, and a name
//! written wrong renders as the literal word. The names are kept as constants
//! for that reason.

use vstd::prelude::*;
use vstd::string::*;

use crate::text;

verus! {

/// The family as the bundled file registers itself.
pub const FAMILY: &'static str = "Material Symbols Rounded";

pub const CHECK: &'static str = "check";

pub const PLAY_ARROW: &'static str = "play_arrow";

pub const PLAY_CIRCLE: &'static str = "play_circle";

pub const PAUSE: &'static str = "pause";

pub const PAUSE_CIRCLE: &'static str = "pause_circle";

pub const MIC: &'static str = "mic";

pub const ADD: &'static str = "add";

pub const SETTINGS: &'static str = "settings";

pub const EXPAND_MORE: &'static str = "expand_more";

pub const EXPAND_LESS: &'static str = "expand_less";

pub const CHECK_CIRCLE: &'static str = "check_circle";

pub const HARD_DRIVE: &'static str = "hard_drive";

pub const TUNE: &'static str = "tune";

pub const WIFI_OFF: &'static str = "wifi_off";

pub const DOWNLOAD: &'static str = "download";

pub const DOWNLOADING: &'static str = "downloading";

pub const UPLOAD_FILE: &'static str = "upload_file";

pub const ERROR_OUTLINE: &'static str = "error_outline";

pub const GRAPHIC_EQ: &'static str = "graphic_eq";

pub const LOCK: &'static str = "lock";

pub const CLOSE: &'static str = "close";

pub const STOP_CIRCLE: &'static str = "stop_circle";

pub const FOLDER_OPEN: &'static str = "folder_open";

pub const BLOCK: &'static str = "block";

pub const DELETE: &'static str = "delete";

pub const OPEN_IN_NEW: &'static str = "open_in_new";

pub const HEADPHONES: &'static str = "headphones";

pub const REFRESH: &'static str = "refresh";

pub const CONTENT_COPY: &'static str = "content_copy";

pub const RADIO_UNCHECKED: &'static str = "radio_button_unchecked";

pub const MEMORY: &'static str = "memory";

pub const EDIT_NOTE: &'static str = "edit_note";

pub const EDIT: &'static str = "edit";

pub const PROGRESS: &'static str = "progress_activity";

pub const RECORD_VOICE: &'static str = "record_voice_over";

pub const PANEL_OPEN: &'static str = "right_panel_open";

pub const PANEL_CLOSE: &'static str = "right_panel_close";

pub const CASINO: &'static str = "casino";

pub const DESCRIPTION: &'static str = "description";

pub const MORE_HORIZ: &'static str = "more_horiz";

pub const WARNING: &'static str = "warning";

/// The character that stands for a name's filled version, where it has one.
pub open spec fn spec_filled(glyph: Seq<char>) -> Option<char> {
    if glyph == CHECK_CIRCLE@ {
        Some('\u{f0000}')
    } else if glyph == PLAY_CIRCLE@ {
        Some('\u{f0001}')
    } else if glyph == PAUSE_CIRCLE@ {
        Some('\u{f0002}')
    } else if glyph == PLAY_ARROW@ {
        Some('\u{f0003}')
    } else if glyph == PAUSE@ {
        Some('\u{f0004}')
    } else if glyph == STOP_CIRCLE@ {
        Some('\u{f0005}')
    } else {
        None
    }
}

/// The character that stands for a name's filled version, where it has one.
pub fn filled_char(glyph: &str) -> (filled: Option<&'static str>)
    ensures
        match (filled, spec_filled(glyph@)) {
            (Some(text), Some(c)) => text@ == seq![c],
            (None, None) => true,
            _ => false,
        },
{
    proof {
        reveal_strlit("\u{f0000}");
        reveal_strlit("\u{f0001}");
        reveal_strlit("\u{f0002}");
        reveal_strlit("\u{f0003}");
        reveal_strlit("\u{f0004}");
        reveal_strlit("\u{f0005}");
    }
    if text::same(glyph, CHECK_CIRCLE) {
        Some("\u{f0000}")
    } else if text::same(glyph, PLAY_CIRCLE) {
        Some("\u{f0001}")
    } else if text::same(glyph, PAUSE_CIRCLE) {
        Some("\u{f0002}")
    } else if text::same(glyph, PLAY_ARROW) {
        Some("\u{f0003}")
    } else if text::same(glyph, PAUSE) {
        Some("\u{f0004}")
    } else if text::same(glyph, STOP_CIRCLE) {
        Some("\u{f0005}")
    } else {
        None
    }
}

/// What is written to draw a name filled. A name with no filled cut falls back
/// to the outline.
pub fn filled(glyph: &'static str) -> (written: &'static str)
    ensures
        written@ == (match spec_filled(glyph@) {
            Some(c) => seq![c],
            None => glyph@,
        }),
{
    match filled_char(glyph) {
        Some(written) => written,
        None => glyph,
    }
}

/// Six names have a filled cut, each a character of its own, and no other name
/// has one.
pub proof fn lemma_filled_cuts_are_told_apart(glyph: Seq<char>, other: Seq<char>)
    ensures
        spec_filled(CHECK_CIRCLE@) == Some('\u{f0000}'),
        spec_filled(PLAY_CIRCLE@) == Some('\u{f0001}'),
        spec_filled(PAUSE_CIRCLE@) == Some('\u{f0002}'),
        spec_filled(PLAY_ARROW@) == Some('\u{f0003}'),
        spec_filled(PAUSE@) == Some('\u{f0004}'),
        spec_filled(STOP_CIRCLE@) == Some('\u{f0005}'),
        spec_filled(glyph) is Some && spec_filled(glyph) == spec_filled(other) ==> glyph == other,
        spec_filled(glyph) is Some ==> glyph == CHECK_CIRCLE@ || glyph == PLAY_CIRCLE@ || glyph
            == PAUSE_CIRCLE@ || glyph == PLAY_ARROW@ || glyph == PAUSE@ || glyph == STOP_CIRCLE@,
{
    reveal_strlit("check_circle");
    reveal_strlit("play_circle");
    reveal_strlit("pause_circle");
    reveal_strlit("play_arrow");
    reveal_strlit("pause");
    reveal_strlit("stop_circle");
    assert(CHECK_CIRCLE@[0] == 'c');
    assert(PLAY_CIRCLE@[1] == 'l' && PLAY_CIRCLE@[5] == 'c');
    assert(PAUSE_CIRCLE@[1] == 'a' && PAUSE_CIRCLE@.len() == 12);
    assert(PLAY_ARROW@[1] == 'l' && PLAY_ARROW@[5] == 'a');
    assert(PAUSE@[1] == 'a' && PAUSE@.len() == 5);
    assert(STOP_CIRCLE@[0] == 's');
}

} // verus!
