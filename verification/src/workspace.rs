//! The workspace: clips on the left, one composer on the right.
//!
//! Two decisions shape it. Model choice is status, not a control: it lives in
//! the title bar because it is picked rarely and wanted visible always. And
//! what is running is told apart from what is on screen, so that looking at
//! another clip leaves the run where it belongs.

use vstd::prelude::*;
use vstd::string::*;
use vstd::utf8::{encode_utf8, encode_utf8_valid_utf8, is_char_boundary};

use crate::clips::{Draft, DraftView, SelectedView};
use crate::engine::{Clip, find, found, known, knows};
use crate::icon;
use crate::models::{model_name, spec_model_name};
use crate::path::{are_same, same_path};
use crate::settings::Pane;
use crate::single::Single;
use crate::studio::{Screen, StudioView, VoiceStudio};
use crate::text;
use crate::text::{name_ref, name_view, same};

verus! {

/// A length in minutes and seconds, cut to whole seconds rather than rounded,
/// so that it reads the same here and in the transport.
pub open spec fn spec_duration(seconds: Single) -> Seq<char> {
    text::clock_time(seconds.spec_whole())
}

pub fn duration(seconds: Single) -> (written: String)
    ensures
        written@ == spec_duration(seconds),
{
    text::clock_text(seconds.whole() as u64)
}

/// The part of a date and time that is the time: what stands between the first
/// `T` and the next one, or the end.
pub open spec fn time_part(created: Seq<char>) -> Option<Seq<char>> {
    match created.index_of_first('T') {
        Some(at) => {
            let rest = created.skip(at + 1);
            Some(
                match rest.index_of_first('T') {
                    Some(end) => rest.take(end),
                    None => rest,
                },
            )
        },
        None => None,
    }
}

/// Whether a date and time has a time whose first five bytes can be cut off,
/// or no time at all.
pub open spec fn is_timed(created: Seq<char>) -> bool {
    time_part(created) matches Some(time) ==> is_char_boundary(encode_utf8(time), 5)
}

/// Whether `shown` is the hours and minutes of a date and time: the first five
/// bytes of its time, or nothing where it has none.
pub open spec fn shows_clock(shown: Seq<char>, created: Seq<char>) -> bool {
    match time_part(created) {
        Some(time) => encode_utf8(shown) == encode_utf8(time).take(5),
        None => shown.len() == 0,
    }
}

fn time_of(created: &str) -> (time: Option<&str>)
    ensures
        match (time, time_part(created@)) {
            (Some(a), Some(b)) => a@ == b,
            (None, None) => true,
            _ => false,
        },
{
    let chars = text::chars_of(created);
    assert(chars@.skip(0) =~= chars@);
    match text::place_of(&chars, 0, 'T') {
        Some(at) => {
            let end = match text::place_of(&chars, at + 1, 'T') {
                Some(end) => end,
                None => chars.len(),
            };
            assert(created@.subrange(at + 1, end as int) =~= created@.skip(at + 1).take(
                end - (at + 1),
            ));
            assert(created@.skip(at + 1).take(created@.len() - (at + 1)) =~= created@.skip(at + 1));
            Some(created.substring_char(at + 1, end))
        },
        None => None,
    }
}

/// Whether `clock` can read this.
pub fn has_clock(created: &str) -> (readable: bool)
    ensures
        readable == is_timed(created@),
{
    match time_of(created) {
        Some(time) => time.is_char_boundary(5),
        None => true,
    }
}

/// The hours and minutes of a date and time.
pub fn clock(created: &str) -> (shown: String)
    requires
        is_timed(created@),
    ensures
        shows_clock(shown@, created@),
{
    match time_of(created) {
        Some(time) => time.split_at(5).0.to_owned(),
        None => {
            proof {
                reveal_strlit("");
            }
            "".to_owned()
        },
    }
}

impl StudioView {
    /// What the model in force is called: nothing where there is none, and its
    /// id where the catalogue does not have it. A clip records what actually
    /// made it, so an id with no catalogue entry is a real state.
    pub open spec fn model_called(self) -> Seq<char> {
        match self.model_in_force() {
            Some(id) => match found(self.models, id) {
                Some(model) => spec_model_name(model),
                None => id,
            },
            None => Seq::empty(),
        }
    }

    /// What the voice in force is called, where `bundled` is the application's
    /// own.
    pub open spec fn voice_called(self, voice: Option<Seq<char>>, bundled: Seq<char>) -> Seq<char> {
        match voice {
            Some(id) => match found(self.voices, id) {
                Some(voice) => voice.label@,
                None => bundled,
            },
            None => bundled,
        }
    }
}

impl VoiceStudio {
    /// What the model in force is called.
    pub fn model_label(&self) -> (label: String)
        ensures
            label@ == self@.model_called(),
    {
        match self.clip_model() {
            Some(id) => match find(&self.models, id) {
                Some(model) => model_name(model),
                None => id.to_owned(),
            },
            None => {
                proof {
                    reveal_strlit("");
                }
                "".to_owned()
            },
        }
    }

    /// Whether the model in force is one this machine can offer.
    pub fn model_available(&self) -> (available: bool)
        ensures
            available == (self@.model_in_force() matches Some(id) ==> known(self@.models, id)),
    {
        match self.clip_model() {
            Some(id) => knows(&self.models, id),
            None => true,
        }
    }
}

/// What the title bar holds beside the name.
#[derive(Clone, Copy, Debug, PartialEq, Eq, Structural)]
pub enum Bar {
    /// Setup has no model to report: it says which run this is instead.
    FirstRun,
    /// The model is not the state that matters while the microphone is live.
    Recording,
    Model,
}

/// The live dot: state that is visible without reading.
#[derive(Clone, Copy, Debug, PartialEq, Eq, Structural)]
pub enum Dot {
    Working,
    Ready,
    Off,
}

/// What the model is doing.
#[derive(Clone, Copy, Debug, PartialEq, Eq, Structural)]
pub enum ModelState {
    /// Bytes so far, and in all.
    Downloading(u64, u64),
    Generating,
    Loaded,
    Starting,
}

/// The title bar: the model as live status rather than a picker.
#[derive(Clone, Debug)]
pub struct TitleBar {
    pub bar: Bar,
    pub dot: Dot,
    /// What the selected model is called, where the catalogue has it.
    pub model: Option<String>,
    pub state: ModelState,
    /// The glyph that points the way the menu will move.
    pub chevron: &'static str,
    pub inspector: bool,
    /// The glyph of the panel's toggle.
    pub panel: &'static str,
}

impl TitleBar {
    /// Whether this is the title bar for what is known.
    pub open spec fn shows(self, studio: StudioView) -> bool {
        &&& self.bar == studio.bar()
        &&& self.dot == studio.dot()
        &&& name_view(self.model) == (match studio.model() {
            Some(model) => Some(spec_model_name(model)),
            None => None,
        })
        &&& self.state == studio.model_state()
        &&& self.chevron@ == (if studio.model_menu {
            icon::EXPAND_LESS@
        } else {
            icon::EXPAND_MORE@
        })
        &&& self.inspector == studio.inspector
        &&& self.panel@ == (if studio.inspector {
            icon::PANEL_CLOSE@
        } else {
            icon::PANEL_OPEN@
        })
    }
}

impl StudioView {
    pub open spec fn bar(self) -> Bar {
        if self.showing() != Screen::Workspace {
            Bar::FirstRun
        } else if self.enrolment is Recording {
            Bar::Recording
        } else {
            Bar::Model
        }
    }

    pub open spec fn dot(self) -> Dot {
        if self.status is Generating {
            Dot::Working
        } else if self.engine {
            Dot::Ready
        } else {
            Dot::Off
        }
    }

    /// A download is the model's state before anything else is, and the only
    /// one with a number.
    pub open spec fn model_state(self) -> ModelState {
        if self.selected_model matches Some(id) && self.is_downloading(id) {
            let status = self.installs[self.selected_model->0];
            ModelState::Downloading(status.downloaded_bytes, status.total_bytes)
        } else if self.status is Generating {
            ModelState::Generating
        } else if self.engine {
            ModelState::Loaded
        } else {
            ModelState::Starting
        }
    }
}

impl VoiceStudio {
    fn model_state(&self) -> (state: ModelState)
        ensures
            state == self@.model_state(),
    {
        let status = match &self.selected_model {
            Some(id) => self.installs.get(id.as_str()),
            None => None,
        };
        match status {
            Some(status) => if status.downloading {
                return ModelState::Downloading(status.downloaded_bytes, status.total_bytes);
            },
            None => {},
        }
        if self.generating() {
            ModelState::Generating
        } else if self.engine {
            ModelState::Loaded
        } else {
            ModelState::Starting
        }
    }

    /// What the title bar shows.
    pub fn title_bar(&self) -> (bar: TitleBar)
        ensures
            bar.shows(self@),
    {
        let workspace = match self.screen() {
            Screen::Workspace => true,
            _ => false,
        };
        TitleBar {
            bar: if !workspace {
                Bar::FirstRun
            } else if self.is_recording() {
                Bar::Recording
            } else {
                Bar::Model
            },
            dot: if self.generating() {
                Dot::Working
            } else if self.engine {
                Dot::Ready
            } else {
                Dot::Off
            },
            model: match self.model() {
                Some(model) => Some(model_name(model)),
                None => None,
            },
            state: self.model_state(),
            chevron: if self.model_menu {
                icon::EXPAND_LESS
            } else {
                icon::EXPAND_MORE
            },
            inspector: self.inspector,
            panel: if self.inspector {
                icon::PANEL_CLOSE
            } else {
                icon::PANEL_OPEN
            },
        }
    }

    /// Open the switcher, or put it away. Whether to read the catalogue again:
    /// residency and load times move with every generation, so the menu reads
    /// them on opening.
    pub fn toggle_model_menu(&mut self) -> (refresh: bool)
        ensures
            refresh == !old(self)@.model_menu,
            final(self)@ == (StudioView { model_menu: !old(self)@.model_menu, ..old(self)@ }),
    {
        self.model_menu = !self.model_menu;
        self.model_menu
    }

    /// Open settings on a pane, with the switcher put away.
    pub fn open_settings(&mut self, pane: Pane)
        ensures
            final(self)@ == (StudioView {
                settings_open: true,
                settings_pane: pane,
                model_menu: false,
                ..old(self)@
            }),
    {
        self.settings_open = true;
        self.settings_pane = pane;
        self.model_menu = false;
    }

    /// Open settings on the account of the disk, from the line that states it.
    pub fn open_storage(&mut self)
        ensures
            final(self)@ == (StudioView {
                settings_open: true,
                settings_pane: Pane::Storage,
                ..old(self)@
            }),
    {
        self.settings_open = true;
        self.settings_pane = Pane::Storage;
    }

    pub fn open_inspector(&mut self)
        ensures
            final(self)@ == (StudioView { inspector: true, ..old(self)@ }),
    {
        self.inspector = true;
    }

    pub fn toggle_inspector(&mut self)
        ensures
            final(self)@ == (StudioView { inspector: !old(self)@.inspector, ..old(self)@ }),
    {
        self.inspector = !self.inspector;
    }
}

/// The line under a row's title.
#[derive(Clone, Debug)]
pub enum RowDetail {
    /// Running: seconds so far, chunks finished, chunks to come.
    GeneratingLeft(Single, u32, u32),
    GeneratingNow,
    Draft,
    /// How long the clip runs, and who speaks it.
    Made(String, String),
}

#[verifier::ext_equal]
pub enum RowDetailView {
    GeneratingLeft(Single, u32, u32),
    GeneratingNow,
    Draft,
    Made(Seq<char>, Seq<char>),
}

impl View for RowDetail {
    type V = RowDetailView;

    open spec fn view(&self) -> RowDetailView {
        match self {
            RowDetail::GeneratingLeft(elapsed, done, left) => RowDetailView::GeneratingLeft(
                *elapsed,
                *done,
                *left,
            ),
            RowDetail::GeneratingNow => RowDetailView::GeneratingNow,
            RowDetail::Draft => RowDetailView::Draft,
            RowDetail::Made(length, voice) => RowDetailView::Made(length@, voice@),
        }
    }
}

/// One row of the clips list.
#[derive(Clone, Debug)]
pub struct ClipRow {
    pub id: String,
    /// A clip being written, rather than a finished one.
    pub draft: bool,
    pub glyph: &'static str,
    pub title: String,
    pub detail: RowDetail,
    /// Drawn as the one that matters: selected, or running.
    pub current: bool,
    /// Drawn in the accent: every draft, and the clip that is selected.
    pub accent: bool,
    /// Carries its own progress: chunks finished, of how many.
    pub running: Option<Option<(u32, u32)>>,
    /// Offers its menu.
    pub menu: bool,
}

#[verifier::ext_equal]
pub struct RowView {
    pub id: Seq<char>,
    pub draft: bool,
    pub glyph: Seq<char>,
    pub title: Seq<char>,
    pub detail: RowDetailView,
    pub current: bool,
    pub accent: bool,
    pub running: Option<Option<(u32, u32)>>,
    pub menu: bool,
}

impl View for ClipRow {
    type V = RowView;

    open spec fn view(&self) -> RowView {
        RowView {
            id: self.id@,
            draft: self.draft,
            glyph: self.glyph@,
            title: self.title@,
            detail: self.detail@,
            current: self.current,
            accent: self.accent,
            running: self.running,
            menu: self.menu,
        }
    }
}

pub open spec fn rows_view(rows: Seq<ClipRow>) -> Seq<RowView> {
    Seq::new(rows.len(), |i: int| rows[i]@)
}

/// Whether a draft has a row. The draft the application opens on is not a clip
/// yet: the list shows its own empty state instead.
pub open spec fn is_listed(draft: DraftView) -> bool {
    draft.started || draft.generating
}

impl StudioView {
    /// How far the running generation is.
    pub open spec fn chunks_done(self) -> Option<(u32, u32)> {
        match self.progress {
            Some(progress) => if progress.chunks > 0 {
                Some((progress.chunks_done, progress.chunks))
            } else {
                None
            },
            None => None,
        }
    }

    pub open spec fn draft_row(self, draft: DraftView, untitled: Seq<char>) -> RowView {
        RowView {
            id: draft.id,
            draft: true,
            glyph: if draft.generating {
                icon::PROGRESS@
            } else {
                icon::EDIT_NOTE@
            },
            title: match draft.name {
                Some(name) => name,
                None => untitled,
            },
            detail: if !draft.generating {
                RowDetailView::Draft
            } else {
                match self.chunks_left() {
                    Some((elapsed, done, left)) => RowDetailView::GeneratingLeft(
                        elapsed,
                        done,
                        left,
                    ),
                    None => RowDetailView::GeneratingNow,
                }
            },
            current: self.selected == SelectedView::Draft(draft.id) || draft.generating,
            accent: true,
            running: if draft.generating {
                Some(self.chunks_done())
            } else {
                None
            },
            menu: false,
        }
    }

    /// Whether a clip is what the transport holds.
    pub open spec fn is_loaded(self, clip: Clip) -> bool {
        self.clip matches Some((path, _)) && exists|i: int|
            0 <= i < clip.takes@.len() && are_same((#[trigger] clip.takes@[i]).path@, path)
    }

    /// Whether a clip is the one on screen.
    pub open spec fn is_open(self, clip: Clip) -> bool {
        self.selected matches SelectedView::Clip(id, _) && id == clip.id@
    }

    pub open spec fn clip_row(self, clip: Clip, bundled: Seq<char>, playing: bool) -> RowView {
        let current = self.is_open(clip);
        RowView {
            id: clip.id@,
            draft: false,
            glyph: if playing && self.is_loaded(clip) {
                icon::PAUSE_CIRCLE@
            } else {
                icon::PLAY_CIRCLE@
            },
            title: clip.name@,
            detail: RowDetailView::Made(
                spec_duration(
                    match clip.spec_latest() {
                        Some(take) => take.audio_s,
                        None => Single { bits: 0 },
                    },
                ),
                self.voice_called(name_view(clip.voice_id), bundled),
            ),
            current,
            accent: current,
            running: None,
            menu: current,
        }
    }

    /// The rows of the drafts that have one, in their order.
    pub open spec fn draft_rows(self, untitled: Seq<char>) -> Seq<RowView> {
        self.drafts.filter(|draft: DraftView| is_listed(draft)).map_values(
            |draft: DraftView| self.draft_row(draft, untitled),
        )
    }

    /// Drafts first, then what has been generated.
    pub open spec fn rows(
        self,
        untitled: Seq<char>,
        bundled: Seq<char>,
        playing: bool,
    ) -> Seq<RowView> {
        self.draft_rows(untitled) + Seq::new(
            self.clips.len(),
            |i: int| self.clip_row(self.clips[i], bundled, playing),
        )
    }
}

impl VoiceStudio {
    fn draft_row(&self, draft: &Draft, untitled: &str) -> (row: ClipRow)
        ensures
            row@ == self@.draft_row(draft@, untitled@),
    {
        let selected = match &self.selected {
            crate::clips::Selected::Draft(id) => same(id.as_str(), draft.id.as_str()),
            crate::clips::Selected::Clip(..) => false,
        };
        let detail = if !draft.generating {
            RowDetail::Draft
        } else {
            match self.seconds_left() {
                Some((elapsed, done, left)) => RowDetail::GeneratingLeft(elapsed, done, left),
                None => RowDetail::GeneratingNow,
            }
        };
        ClipRow {
            id: draft.id.clone(),
            draft: true,
            glyph: if draft.generating {
                icon::PROGRESS
            } else {
                icon::EDIT_NOTE
            },
            title: draft.title(untitled),
            detail,
            current: selected || draft.generating,
            accent: true,
            running: if draft.generating {
                Some(self.generation_fraction())
            } else {
                None
            },
            menu: false,
        }
    }

    fn holds(&self, clip: &Clip) -> (loaded: bool)
        ensures
            loaded == self@.is_loaded(*clip),
    {
        match self.playing_clip() {
            Some(path) => {
                let mut i: usize = 0;
                while i < clip.takes.len()
                    invariant
                        i <= clip.takes.len(),
                        self@.clip matches Some(held) && held.0 == path@,
                        forall|j: int|
                            0 <= j < i ==> !are_same((#[trigger] clip.takes@[j]).path@, path@),
                    decreases clip.takes.len() - i,
                {
                    if same_path(clip.takes[i].path.as_str(), path) {
                        assert(are_same(clip.takes@[i as int].path@, path@));
                        return true;
                    }
                    i = i + 1;
                }
                false
            },
            None => false,
        }
    }

    fn clip_row(&self, clip: &Clip, bundled: &str, playing: bool) -> (row: ClipRow)
        ensures
            row@ == self@.clip_row(*clip, bundled@, playing),
    {
        let current = match &self.selected {
            crate::clips::Selected::Clip(id, _) => same(id.as_str(), clip.id.as_str()),
            crate::clips::Selected::Draft(_) => false,
        };
        let length = match clip.latest() {
            Some(take) => take.audio_s,
            None => Single { bits: 0 },
        };
        let sounding = playing && self.holds(clip);
        ClipRow {
            id: clip.id.clone(),
            draft: false,
            glyph: if sounding {
                icon::PAUSE_CIRCLE
            } else {
                icon::PLAY_CIRCLE
            },
            title: clip.name.clone(),
            detail: RowDetail::Made(
                duration(length),
                self.voice_name(name_ref(&clip.voice_id), bundled),
            ),
            current,
            accent: current,
            running: None,
            menu: current,
        }
    }

    fn draft_rows(&self, untitled: &str) -> (rows: Vec<ClipRow>)
        ensures
            rows_view(rows@) == self@.draft_rows(untitled@),
    {
        let mut rows: Vec<ClipRow> = Vec::new();
        let mut i: usize = 0;
        let ghost listed = |draft: DraftView| is_listed(draft);
        let ghost drawn = |draft: DraftView| self@.draft_row(draft, untitled@);
        proof {
            reveal(Seq::filter);
            assert(self@.drafts.take(0) =~= Seq::empty());
            assert(rows_view(rows@) =~= self@.drafts.take(0).filter(listed).map_values(drawn));
        }
        while i < self.drafts.len()
            invariant
                i <= self.drafts.len(),
                listed == (|draft: DraftView| is_listed(draft)),
                drawn == (|draft: DraftView| self@.draft_row(draft, untitled@)),
                rows_view(rows@) == self@.drafts.take(i as int).filter(listed).map_values(drawn),
            decreases self.drafts.len() - i,
        {
            let ghost before = self@.drafts.take(i as int).filter(listed);
            proof {
                reveal(Seq::filter);
                assert(self@.drafts.take(i + 1).drop_last() =~= self@.drafts.take(i as int));
                assert(self@.drafts.take(i + 1).last() == self.drafts@[i as int]@);
            }
            if self.drafts[i].started || self.drafts[i].generating {
                let ghost shown = rows@;
                rows.push(self.draft_row(&self.drafts[i], untitled));
                proof {
                    assert(rows_view(rows@) =~= rows_view(shown).push(
                        drawn(self.drafts@[i as int]@),
                    ));
                    assert(before.push(self.drafts@[i as int]@).map_values(drawn)
                        =~= before.map_values(drawn).push(drawn(self.drafts@[i as int]@)));
                }
            }
            i = i + 1;
        }
        assert(self@.drafts.take(self@.drafts.len() as int) =~= self@.drafts);
        rows
    }

    /// Drafts first, then what has been generated. `playing` is whether sound
    /// is coming out of the transport; `untitled` and `bundled` are what a
    /// draft without a name and the application's own voice are called.
    pub fn clip_rows(&self, untitled: &str, bundled: &str, playing: bool) -> (rows: Vec<ClipRow>)
        ensures
            rows_view(rows@) == self@.rows(untitled@, bundled@, playing),
    {
        let mut rows = self.draft_rows(untitled);
        let ghost drafts = rows_view(rows@);
        let mut i: usize = 0;
        while i < self.clips.len()
            invariant
                i <= self.clips.len(),
                rows.len() == drafts.len() + i,
                forall|j: int| 0 <= j < drafts.len() ==> rows@[j]@ == #[trigger] drafts[j],
                forall|j: int|
                    0 <= j < i ==> (#[trigger] rows@[drafts.len() + j])@ == self@.clip_row(
                        self@.clips[j],
                        bundled@,
                        playing,
                    ),
            decreases self.clips.len() - i,
        {
            rows.push(self.clip_row(&self.clips[i], bundled, playing));
            i = i + 1;
        }
        assert(rows_view(rows@) =~= self@.rows(untitled@, bundled@, playing)) by {
            assert forall|j: int| 0 <= j < rows.len() implies #[trigger] rows_view(rows@)[j]
                == self@.rows(untitled@, bundled@, playing)[j] by {
                if j >= drafts.len() {
                    let k = j - drafts.len();
                    assert(rows@[drafts.len() + k]@ == self@.clip_row(
                        self@.clips[k],
                        bundled@,
                        playing,
                    ));
                } else {
                    assert(rows@[j]@ == drafts[j]);
                }
            }
        }
        rows
    }
}

/// What the foot of the sidebar states.
#[derive(Clone, Copy, Debug, PartialEq, Eq, Structural)]
pub enum SidebarFoot {
    /// While something is running that is the fact worth stating.
    Generating,
    /// The rest of the time it is the disk: how many clips are on it.
    OnDisk(usize),
}

/// The sidebar lists clips and nothing else.
#[derive(Clone, Debug)]
pub struct Sidebar {
    pub count: usize,
    /// There is no row to show, so the list says what it is for.
    pub empty: bool,
    pub rows: Vec<ClipRow>,
    pub foot: SidebarFoot,
}

impl StudioView {
    /// What the foot of the sidebar states.
    pub open spec fn foot(self) -> SidebarFoot {
        if self.is_busy() {
            SidebarFoot::Generating
        } else {
            SidebarFoot::OnDisk(self.clips.len() as usize)
        }
    }
}

/// The phrase for how many clips are on disk.
pub fn on_disk_phrase(count: usize) -> (key: &'static str)
    ensures
        key@ == (if count == 1 {
            "clip.one_on_disk"@
        } else {
            "clip.n_on_disk"@
        }),
{
    if count == 1 {
        "clip.one_on_disk"
    } else {
        "clip.n_on_disk"
    }
}

impl VoiceStudio {
    fn lists_nothing(&self) -> (empty: bool)
        ensures
            empty == (self@.clips.len() == 0 && forall|i: int|
                0 <= i < self@.drafts.len() ==> !is_listed(#[trigger] self@.drafts[i])),
    {
        if self.clips.len() > 0 {
            return false;
        }
        let mut i: usize = 0;
        while i < self.drafts.len()
            invariant
                i <= self.drafts.len(),
                forall|j: int| 0 <= j < i ==> !is_listed(#[trigger] self@.drafts[j]),
            decreases self.drafts.len() - i,
        {
            if self.drafts[i].started || self.drafts[i].generating {
                assert(is_listed(self@.drafts[i as int]));
                return false;
            }
            assert(!is_listed(self@.drafts[i as int]));
            i = i + 1;
        }
        true
    }

    /// What the sidebar shows.
    pub fn sidebar(&self, untitled: &str, bundled: &str, playing: bool) -> (sidebar: Sidebar)
        ensures
            sidebar.count == self@.clips.len(),
            sidebar.empty == (self@.clips.len() == 0 && forall|i: int|
                0 <= i < self@.drafts.len() ==> !is_listed(#[trigger] self@.drafts[i])),
            rows_view(sidebar.rows@) == self@.rows(untitled@, bundled@, playing),
            sidebar.foot == self@.foot(),
    {
        let count = self.clips.len();
        Sidebar {
            count,
            empty: self.lists_nothing(),
            rows: self.clip_rows(untitled, bundled, playing),
            foot: if self.busy() {
                SidebarFoot::Generating
            } else {
                SidebarFoot::OnDisk(count)
            },
        }
    }
}

/// The empty state is shown exactly when there is no row.
pub proof fn lemma_the_list_is_empty_or_has_rows(
    studio: StudioView,
    untitled: Seq<char>,
    bundled: Seq<char>,
    playing: bool,
)
    ensures
        studio.rows(untitled, bundled, playing).len() == 0 <==> studio.clips.len() == 0 && forall|
            i: int,
        |
            0 <= i < studio.drafts.len() ==> !is_listed(#[trigger] studio.drafts[i]),
{
    let listed = |draft: DraftView| is_listed(draft);
    let kept = studio.drafts.filter(listed);
    if forall|i: int| 0 <= i < studio.drafts.len() ==> !is_listed(#[trigger] studio.drafts[i]) {
        studio.drafts.lemma_all_neg_filter_empty(listed);
    } else {
        let i = choose|i: int| 0 <= i < studio.drafts.len() && is_listed(#[trigger] studio.drafts[i]);
        studio.drafts.lemma_filter_contains(listed, i);
        assert(kept.len() > 0);
    }
}

/// The row of what is running says so wherever the person is, and every draft
/// that is running has one.
pub proof fn lemma_what_runs_is_listed(studio: StudioView, at: int, untitled: Seq<char>)
    requires
        0 <= at < studio.drafts.len(),
        studio.drafts[at].generating,
    ensures
        studio.draft_rows(untitled).contains(studio.draft_row(studio.drafts[at], untitled)),
        studio.draft_row(studio.drafts[at], untitled).running is Some,
{
    let listed = |draft: DraftView| is_listed(draft);
    let kept = studio.drafts.filter(listed);
    studio.drafts.lemma_filter_contains(listed, at);
    let i = choose|i: int| 0 <= i < kept.len() && kept[i] == studio.drafts[at];
    assert(studio.draft_rows(untitled)[i] == studio.draft_row(studio.drafts[at], untitled));
}

/// A finished clip's row says how long the newest of its takes runs, which is
/// what opening the row would load, and who speaks it. It is drawn as the one
/// that matters exactly where it is the one on screen, and as sounding exactly
/// where one of its takes is what is playing.
pub proof fn lemma_a_clips_row_tells_what_opening_it_plays(
    studio: StudioView,
    clip: Clip,
    bundled: Seq<char>,
    playing: bool,
)
    ensures
        ({
            let row = studio.clip_row(clip, bundled, playing);
            let open = studio.selected matches SelectedView::Clip(id, _) && id == clip.id@;
            &&& row.id == clip.id@
            &&& !row.draft
            &&& row.title == clip.name@
            &&& row.running is None
            &&& row.current == open
            &&& row.accent == open
            &&& row.menu == open
            &&& row.detail matches RowDetailView::Made(length, speaker) && {
                &&& clip.takes@.len() > 0 ==> length == spec_duration(clip.takes@.last().audio_s)
                &&& clip.takes@.len() == 0 ==> length == spec_duration(Single { bits: 0 })
                &&& clip.takes@.len() > 0 && found(studio.clips, clip.id@) == Some(clip) ==> (
                studio.newest_of(clip.id@) matches Some(take) && length == spec_duration(
                    take.audio_s,
                ))
                &&& clip.voice_id is None ==> speaker == bundled
                &&& clip.voice_id matches Some(id) ==> {
                    &&& found(studio.voices, id@) matches Some(voice) ==> speaker == voice.label@
                    &&& !known(studio.voices, id@) ==> speaker == bundled
                }
            }
            &&& (playing && (studio.clip matches Some((path, _)) && exists|i: int|
                0 <= i < clip.takes@.len() && are_same((#[trigger] clip.takes@[i]).path@, path)))
                ==> row.glyph == icon::PAUSE_CIRCLE@
            &&& !playing || studio.clip is None || clip.takes@.len() == 0 ==> row.glyph
                == icon::PLAY_CIRCLE@
            &&& (studio.clip matches Some((path, _)) && forall|i: int|
                0 <= i < clip.takes@.len() ==> !are_same((#[trigger] clip.takes@[i]).path@, path))
                ==> row.glyph == icon::PLAY_CIRCLE@
        }),
{
    if clip.voice_id is Some {
        crate::engine::lemma_found_is_known(studio.voices, clip.voice_id->0@);
    }
}

/// A draft's row carries its name, or says it has none. While it runs the row
/// carries how far it is and what is left, and matters wherever the person is;
/// until then it is a draft, and matters where it is what is open.
pub proof fn lemma_a_drafts_row_follows_the_draft(
    studio: StudioView,
    draft: DraftView,
    untitled: Seq<char>,
)
    ensures
        ({
            let row = studio.draft_row(draft, untitled);
            &&& row.id == draft.id
            &&& row.draft
            &&& row.accent
            &&& !row.menu
            &&& draft.name matches Some(name) ==> row.title == name
            &&& draft.name is None ==> row.title == untitled
            &&& draft.generating ==> {
                &&& row.current
                &&& row.glyph == icon::PROGRESS@
                &&& studio.chunks_left() is None ==> row.detail is GeneratingNow
                &&& studio.chunks_left() matches Some((elapsed, done, left)) ==> row.detail
                    == RowDetailView::GeneratingLeft(elapsed, done, left)
                &&& (studio.progress matches Some(progress) && progress.chunks > 0) ==> row.running
                    == Some(Some((studio.progress->0.chunks_done, studio.progress->0.chunks)))
                &&& !(studio.progress matches Some(progress) && progress.chunks > 0)
                    ==> row.running == Some(None::<(u32, u32)>)
            }
            &&& !draft.generating ==> {
                &&& row.detail is Draft
                &&& row.running is None
                &&& row.glyph == icon::EDIT_NOTE@
                &&& row.current == (studio.selected == SelectedView::Draft(draft.id))
            }
        }),
{
}

/// The list holds the drafts that were started or run, in their order, and
/// then every clip in its order.
pub proof fn lemma_drafts_come_before_clips(
    studio: StudioView,
    untitled: Seq<char>,
    bundled: Seq<char>,
    playing: bool,
    at: int,
)
    ensures
        ({
            let rows = studio.rows(untitled, bundled, playing);
            let shown = studio.drafts.filter(|draft: DraftView| draft.started || draft.generating);
            &&& rows.len() == shown.len() + studio.clips.len()
            &&& 0 <= at < shown.len() ==> rows[at] == studio.draft_row(shown[at], untitled)
                && rows[at].draft && rows[at].id == shown[at].id
            &&& 0 <= at < studio.clips.len() ==> rows[shown.len() + at] == studio.clip_row(
                studio.clips[at],
                bundled,
                playing,
            ) && !rows[shown.len() + at].draft && rows[shown.len() + at].id == studio.clips[at].id@
        }),
{
    let shown = |draft: DraftView| draft.started || draft.generating;
    assert(shown =~= |draft: DraftView| is_listed(draft));
}

/// The time is what follows the date: it begins after the first `T` and ends at
/// the next one, if there is another, and a text without a `T` has none.
pub proof fn lemma_the_time_follows_the_date(date: Seq<char>, time: Seq<char>, more: Seq<char>)
    requires
        !date.contains('T'),
        !time.contains('T'),
    ensures
        time_part(date) is None,
        time_part(date.push('T') + time) == Some(time),
        time_part(date.push('T') + time.push('T') + more) == Some(time),
{
    date.index_of_first_ensures('T');
    let short = date.push('T') + time;
    let long = date.push('T') + time.push('T') + more;
    let at = date.len() as int;
    short.index_of_first_ensures('T');
    long.index_of_first_ensures('T');
    assert(short[at] == 'T' && long[at] == 'T');
    assert forall|i: int| 0 <= i < at implies short[i] != 'T' && long[i] != 'T' by {
        assert(short[i] == date[i] && long[i] == date[i]);
        assert(date.contains(date[i]));
    }
    assert(short.skip(at + 1) =~= time);
    time.index_of_first_ensures('T');
    let rest = long.skip(at + 1);
    assert(rest =~= time.push('T') + more);
    rest.index_of_first_ensures('T');
    let end = time.len() as int;
    assert(rest[end] == 'T');
    assert forall|i: int| 0 <= i < end implies rest[i] != 'T' by {
        assert(rest[i] == time[i]);
        assert(time.contains(time[i]));
    }
    assert(rest.take(end) =~= time);
}

/// What is in force is called what the catalogue and the voices call it: a
/// model by its name or else its label, one that is not in the catalogue by its
/// id, a voice by its label, and the bundled voice where there is none.
pub proof fn lemma_what_things_are_called(
    studio: StudioView,
    voice: Option<Seq<char>>,
    bundled: Seq<char>,
)
    ensures
        studio.model_in_force() is None ==> studio.model_called().len() == 0,
        studio.model_in_force() matches Some(id) ==> {
            &&& !known(studio.models, id) ==> studio.model_called() == id
            &&& found(studio.models, id) matches Some(model) ==> {
                &&& model.name@.len() > 0 ==> studio.model_called() == model.name@
                &&& model.name@.len() == 0 ==> studio.model_called() == model.label@
            }
        },
        voice is None ==> studio.voice_called(voice, bundled) == bundled,
        voice matches Some(id) ==> {
            &&& !known(studio.voices, id) ==> studio.voice_called(voice, bundled) == bundled
            &&& found(studio.voices, id) matches Some(speaker) ==> studio.voice_called(voice, bundled)
                == speaker.label@
        },
{
    if studio.model_in_force() is Some {
        crate::engine::lemma_found_is_known(studio.models, studio.model_in_force()->0);
    }
    if voice is Some {
        crate::engine::lemma_found_is_known(studio.voices, voice->0);
    }
}

/// What the title bar says: which run it is while the workspace is not showing,
/// that the microphone is live while it is, and the model otherwise. The model
/// is downloading, or generating, or loaded, or starting, in that order, and
/// the dot is lit with the engine.
pub proof fn lemma_what_the_title_bar_says(studio: StudioView)
    ensures
        studio.showing() != Screen::Workspace ==> studio.bar() == Bar::FirstRun,
        studio.showing() == Screen::Workspace && studio.enrolment is Recording ==> studio.bar()
            == Bar::Recording,
        studio.showing() == Screen::Workspace && !(studio.enrolment is Recording) ==> studio.bar()
            == Bar::Model,
        studio.status is Generating ==> studio.dot() == Dot::Working,
        !(studio.status is Generating) && studio.engine ==> studio.dot() == Dot::Ready,
        !(studio.status is Generating) && !studio.engine ==> studio.dot() == Dot::Off,
        studio.selected_model matches Some(id) ==> (studio.installs.dom().contains(id)
            && studio.installs[id].downloading ==> studio.model_state() == ModelState::Downloading(
            studio.installs[id].downloaded_bytes,
            studio.installs[id].total_bytes,
        )),
        !(studio.selected_model matches Some(id) && studio.installs.dom().contains(id)
            && studio.installs[id].downloading) ==> {
            &&& studio.status is Generating ==> studio.model_state() == ModelState::Generating
            &&& !(studio.status is Generating) && studio.engine ==> studio.model_state()
                == ModelState::Loaded
            &&& !(studio.status is Generating) && !studio.engine ==> studio.model_state()
                == ModelState::Starting
        },
{
}

/// A length is told in whole minutes and the whole seconds left over, which
/// together are the whole seconds there are.
pub proof fn lemma_a_length_is_told_in_whole_seconds(seconds: Single)
    ensures
        ({
            let shown = spec_duration(seconds);
            let colon = shown.len() - 3;
            &&& colon > 0
            &&& shown[colon] == ':'
            &&& 60 * text::reading(shown.take(colon)) + text::reading(shown.skip(colon + 1))
                == seconds.spec_whole()
            &&& 0 <= text::reading(shown.skip(colon + 1)) < 60
        }),
{
    text::lemma_a_clock_shows_minutes_and_seconds(seconds.spec_whole());
}

/// Hours and minutes are what a time begins with: five bytes of it, where it
/// can be cut there, and nothing where there is no time.
pub proof fn lemma_hours_and_minutes_begin_the_time(shown: Seq<char>, created: Seq<char>)
    requires
        is_timed(created),
        shows_clock(shown, created),
    ensures
        time_part(created) is None ==> shown.len() == 0,
        time_part(created) matches Some(time) ==> {
            &&& encode_utf8(shown).len() == 5
            &&& encode_utf8(time).len() >= 5
            &&& forall|i: int|
                0 <= i < 5 ==> #[trigger] encode_utf8(shown)[i] == encode_utf8(time)[i]
        },
{
    if time_part(created) is Some {
        encode_utf8_valid_utf8(time_part(created)->0);
    }
}

/// The foot of the sidebar states that something is under way while it is, and
/// how many clips there are the rest of the time.
pub proof fn lemma_what_the_foot_states(studio: StudioView)
    ensures
        studio.status is Preparing || studio.status is Generating || studio.status is Installing
            ==> studio.foot() is Generating,
        studio.status is Idle || studio.status is Done || studio.status is Refused
            || studio.status is Failed ==> (studio.foot() matches SidebarFoot::OnDisk(count) && (
        studio.clips.len() <= usize::MAX ==> count == studio.clips.len())),
{
}

/// The title bar names the selected model, by its name or else its label, and
/// its two glyphs point the way pressing them would go.
pub proof fn lemma_the_title_bar_names_the_selected_model(studio: StudioView, bar: TitleBar)
    requires
        bar.shows(studio),
    ensures
        studio.model() is None ==> bar.model is None,
        studio.model() matches Some(model) ==> (bar.model matches Some(name) && (model.name@.len()
            > 0 ==> name@ == model.name@) && (model.name@.len() == 0 ==> name@ == model.label@)),
        studio.model_menu ==> bar.chevron@ == icon::EXPAND_LESS@,
        !studio.model_menu ==> bar.chevron@ == icon::EXPAND_MORE@,
        bar.inspector == studio.inspector,
        studio.inspector ==> bar.panel@ == icon::PANEL_CLOSE@,
        !studio.inspector ==> bar.panel@ == icon::PANEL_OPEN@,
        bar.bar is Recording ==> studio.enrolment is Recording,
        bar.dot is Working <==> studio.status is Generating,
        bar.state is Downloading ==> studio.selected_model is Some,
{
}

} // verus!
