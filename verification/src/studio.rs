//! What the application knows while it runs, and the screen that follows from
//! it.

use vstd::prelude::*;
use vstd::string::*;

use crate::clips::{Draft, DraftView, Selected, SelectedView, draft_id, drafts_view};
use crate::engine::{
    Clip, Generating, InstallStatus, ModelSpec, Synthesis, SystemInfo, Voice, find, found, known,
    knows,
};
use crate::recorder::Quality;
use crate::settings::Pane;
use crate::single::Single;
use crate::storage::Usage;
use crate::text::{name_view, named, same};

verus! {

/// Which full-window screen is showing. The screens replace one another, so
/// exactly one is shown whatever else is going on.
#[derive(Debug, Clone, Copy, PartialEq, Eq, Structural)]
pub enum Screen {
    /// The speech runtime is not installed yet.
    Setup,
    /// Which model to put on disk.
    Models,
    /// The last step of setup, which offers to record a voice.
    Enrolment,
    /// Clips on the left, composer on the right.
    Workspace,
}

/// Where the person is in voice enrolment. A closed set, so states like
/// "recording and reviewing at once" cannot be constructed.
#[derive(Clone, Debug)]
pub enum Enrolment {
    /// Not enrolling.
    Closed,
    /// Script shown, waiting for the person to start.
    Ready,
    Recording,
    /// Recorded and passed the quality bar; awaiting consent.
    Review(Quality),
    /// Recorded but rejected, with advice on what to fix.
    Rejected(String),
}

#[verifier::ext_equal]
pub enum EnrolmentView {
    Closed,
    Ready,
    Recording,
    Review(Quality),
    Rejected(Seq<char>),
}

impl View for Enrolment {
    type V = EnrolmentView;

    open spec fn view(&self) -> EnrolmentView {
        match self {
            Enrolment::Closed => EnrolmentView::Closed,
            Enrolment::Ready => EnrolmentView::Ready,
            Enrolment::Recording => EnrolmentView::Recording,
            Enrolment::Review(quality) => EnrolmentView::Review(*quality),
            Enrolment::Rejected(reason) => EnrolmentView::Rejected(reason@),
        }
    }
}

/// What the person is currently waiting on, if anything.
#[derive(Clone, Debug)]
pub enum Status {
    Idle,
    Preparing(String),
    /// Installing the speech runtime on first run.
    Installing { step: String, fraction: Single },
    Generating,
    Done { output: String, audio_s: Single, gen_s: Single },
    Failed(String),
    /// Nothing went wrong and it did not happen: the words are still there and
    /// the person is not being told their own decision was a fault.
    Refused(String),
}

#[verifier::ext_equal]
pub enum StatusView {
    Idle,
    Preparing(Seq<char>),
    Installing { step: Seq<char>, fraction: Single },
    Generating,
    Done { output: Seq<char>, audio_s: Single, gen_s: Single },
    Failed(Seq<char>),
    Refused(Seq<char>),
}

impl View for Status {
    type V = StatusView;

    open spec fn view(&self) -> StatusView {
        match self {
            Status::Idle => StatusView::Idle,
            Status::Preparing(what) => StatusView::Preparing(what@),
            Status::Installing { step, fraction } => StatusView::Installing {
                step: step@,
                fraction: *fraction,
            },
            Status::Generating => StatusView::Generating,
            Status::Done { output, audio_s, gen_s } => StatusView::Done {
                output: output@,
                audio_s: *audio_s,
                gen_s: *gen_s,
            },
            Status::Failed(reason) => StatusView::Failed(reason@),
            Status::Refused(reason) => StatusView::Refused(reason@),
        }
    }
}

/// A finished reference recording, held between stopping and saving: where it
/// landed on disk, how long it runs, and its shape for the review waveform.
#[derive(Clone, Debug)]
pub struct Take {
    pub path: String,
    pub seconds: Single,
    pub levels: Vec<Single>,
}

#[verifier::ext_equal]
pub struct TakeView {
    pub path: Seq<char>,
    pub seconds: Single,
    pub levels: Seq<Single>,
}

impl View for Take {
    type V = TakeView;

    open spec fn view(&self) -> TakeView {
        TakeView { path: self.path@, seconds: self.seconds, levels: self.levels@ }
    }
}

/// Downloads under way, by the id of the model.
#[derive(Clone, Debug)]
pub struct Installs {
    entries: Vec<(String, InstallStatus)>,
}

impl Installs {
    pub closed spec fn keys(self) -> Seq<Seq<char>> {
        Seq::new(self.entries@.len(), |i: int| self.entries@[i].0@)
    }

    pub closed spec fn value(self, id: Seq<char>) -> InstallStatus {
        self.entries@[self.keys().index_of_first(id)->0].1
    }
}

impl View for Installs {
    type V = Map<Seq<char>, InstallStatus>;

    closed spec fn view(&self) -> Map<Seq<char>, InstallStatus> {
        Map::new(|id: Seq<char>| self.keys().contains(id), |id: Seq<char>| self.value(id))
    }
}

impl Installs {
    pub fn new() -> (installs: Self)
        ensures
            installs@ == Map::<Seq<char>, InstallStatus>::empty(),
    {
        let installs = Installs { entries: Vec::new() };
        assert(installs@ =~= Map::empty());
        installs
    }

    fn place(&self, id: &str) -> (at: Option<usize>)
        ensures
            match at {
                Some(at) => at < self.entries.len() && self.keys().index_of_first(id@) == Some(
                    at as int,
                ) && self.keys()[at as int] == id@,
                None => !self.keys().contains(id@),
            },
    {
        let mut at: usize = 0;
        while at < self.entries.len()
            invariant
                at <= self.entries.len(),
                forall|i: int| 0 <= i < at ==> self.keys()[i] != id@,
            decreases self.entries.len() - at,
        {
            if same(self.entries[at].0.as_str(), id) {
                proof {
                    self.keys().index_of_first_ensures(id@);
                    assert(self.keys()[at as int] == id@);
                }
                return Some(at);
            }
            at = at + 1;
        }
        None
    }

    /// How the download of this model stands, if there is one.
    pub fn get(&self, id: &str) -> (status: Option<&InstallStatus>)
        ensures
            match status {
                Some(status) => self@.dom().contains(id@) && self@[id@] == *status,
                None => !self@.dom().contains(id@),
            },
    {
        match self.place(id) {
            Some(at) => Some(&self.entries[at].1),
            None => None,
        }
    }

    /// Put down how the download of this model stands.
    pub fn insert(&mut self, id: &str, status: InstallStatus)
        ensures
            final(self)@ == old(self)@.insert(id@, status),
    {
        let place = self.place(id);
        let name = id.to_owned();
        match place {
            Some(at) => {
                self.entries.set(at, (name, status));
                proof {
                    assert(self.keys() =~= old(self).keys());
                    assert forall|other: Seq<char>| #[trigger]
                        self.keys().contains(other) && other != id@ implies self.value(other)
                        == old(self).value(other) by {
                        self.keys().index_of_first_ensures(other);
                    }
                }
            },
            None => {
                self.entries.push((name, status));
                proof {
                    let (before, after) = (old(self).keys(), self.keys());
                    assert(after =~= before.push(id@));
                    assert(after[before.len() as int] == id@);
                    after.index_of_first_ensures(id@);
                    assert forall|other: Seq<char>| other != id@ implies after.contains(other)
                        == before.contains(other) && (before.contains(other) ==> self.value(other)
                        == old(self).value(other)) by {
                        after.index_of_first_ensures(other);
                        before.index_of_first_ensures(other);
                        if before.contains(other) {
                            let i = before.index_of_first(other)->0;
                            assert(after[i] == other);
                        }
                        if after.contains(other) {
                            let i = after.index_of_first(other)->0;
                            assert(before[i] == other);
                        }
                    }
                }
            },
        }
        assert(self@ =~= old(self)@.insert(id@, status));
    }

    /// Forget the download of this model.
    pub fn remove(&mut self, id: &str)
        ensures
            final(self)@ == old(self)@.remove(id@),
    {
        let mut place = self.place(id);
        while place.is_some()
            invariant
                self@.remove(id@) == old(self)@.remove(id@),
                match place {
                    Some(at) => at < self.entries.len() && self.keys()[at as int] == id@,
                    None => !self.keys().contains(id@),
                },
            decreases self.entries.len(),
        {
            let at: usize = place.unwrap();
            let ghost before = *self;
            self.entries.remove(at);
            proof {
                lemma_dropping_an_entry(before, *self, at as int, id@);
            }
            place = self.place(id);
        }
        assert(self@.remove(id@) =~= self@);
    }
}

/// Taking out an entry leaves every other id as it was.
proof fn lemma_dropping_an_entry(before: Installs, after: Installs, at: int, id: Seq<char>)
    requires
        0 <= at < before.entries@.len(),
        before.keys()[at] == id,
        after.entries@ == before.entries@.remove(at),
    ensures
        after@.remove(id) == before@.remove(id),
{
    let (a, b) = (before.keys(), after.keys());
    assert forall|other: Seq<char>| other != id implies a.contains(other) == b.contains(other) && (
    a.contains(other) ==> before.value(other) == after.value(other)) by {
        a.index_of_first_ensures(other);
        b.index_of_first_ensures(other);
        assert(forall|i: int|
            0 <= i < b.len() ==> #[trigger] b[i] == a[if i < at {
                i
            } else {
                i + 1
            }]);
        if a.contains(other) {
            let i = a.index_of_first(other)->0;
            let j = if i < at {
                i
            } else {
                i - 1
            };
            assert(b[j] == other);
        }
        if b.contains(other) {
            let j = b.index_of_first(other)->0;
            let i = if j < at {
                j
            } else {
                j + 1
            };
            assert(a[i] == other);
            if a.index_of_first(other)->0 < i {
                let k = a.index_of_first(other)->0;
                let l = if k < at {
                    k
                } else {
                    k - 1
                };
                assert(b[l] == other);
            }
        }
    }
    assert(after@.remove(id) =~= before@.remove(id));
}

/// Everything the application knows while it runs.
#[derive(Clone, Debug)]
pub struct VoiceStudio {
    /// Whether the speech engine is running.
    pub engine: bool,
    pub models: Vec<ModelSpec>,
    pub selected_model: Option<String>,
    pub voices: Vec<Voice>,
    pub selected_voice: Option<String>,
    /// What stands in the composer.
    pub text: String,
    pub status: Status,
    /// Whether a recorder is open.
    pub recorder: bool,
    pub enrolment: Enrolment,
    /// Consent is explicit and must be given per enrolment, never remembered.
    pub consent_given: bool,
    /// Download progress of the models being installed.
    pub installs: Installs,
    pub clips: Vec<Clip>,
    pub system: Option<SystemInfo>,
    /// A voice being prepared in the background, if any. Deliberately not a
    /// status: it must not disable generating, only explain a slower first
    /// clip.
    pub warming: Option<String>,
    pub settings_open: bool,
    pub settings_pane: Pane,
    /// What the running generation has written so far.
    pub progress: Option<Generating>,
    /// A stop has been asked for and the generation has not ended yet. Worth
    /// showing, because asking is not stopping.
    pub stopping: bool,
    /// How many words the generation speaks, for an estimate of how long it
    /// will run.
    pub expected_words: usize,
    /// The row a running generation belongs to: a draft, or the clip that is
    /// being read again.
    pub generating_row: Option<String>,
    /// What the voice being enrolled will be called.
    pub voice_name: String,
    /// A reading of the script brought in from a file rather than recorded
    /// here.
    pub imported: Option<String>,
    /// Text asked for before a model was ready, and the row it was asked for.
    /// Held rather than refused: the download finishes on its own, so nothing
    /// has to be retyped.
    pub queued: Option<(String, String)>,
    /// A voice asked to be deleted, held until that is confirmed.
    pub confirming_voice: Option<String>,
    /// A model asked to be deleted, held until that is confirmed.
    pub confirming_delete: Option<String>,
    /// The switcher hanging off the title bar.
    pub model_menu: bool,
    /// The model list was opened from the title bar.
    pub choosing_model: bool,
    /// The generation just finished.
    pub last: Option<Synthesis>,
    /// The sound loaded in the player, and how long it runs.
    pub clip: Option<(String, Single)>,
    /// The reference recording awaiting review, if any.
    pub take: Option<Take>,
    /// The loaded sound's shape.
    pub clip_levels: Vec<Single>,
    /// Whether the recorder was opened as the last step of setup.
    pub in_setup: bool,
    /// Clips being written.
    pub drafts: Vec<Draft>,
    /// What the workspace is pointed at.
    pub selected: Selected,
    /// Counter behind draft ids, so two drafts never collide.
    pub next_draft: usize,
    /// The name being edited in the header.
    pub clip_name: String,
    /// What the name being edited belongs to.
    pub renaming: Option<Selected>,
    /// The voice whose name is being edited, if any.
    pub renaming_voice: Option<String>,
    /// The voice name being edited.
    pub voice_rename: String,
    /// The runtime finished installing and the person has not moved on yet.
    /// Setup holds the screen until they do.
    pub runtime_done: bool,
    /// What is on disk, once it has been counted.
    pub storage: Option<Usage>,
    /// The clip whose menu is open.
    pub clip_menu: Option<String>,
    /// Whether the panel beside the composer is showing.
    pub inspector: bool,
    /// How long the voice just saved runs, until the next thing happens.
    pub voice_saved: Option<String>,
    /// A seed held for the next generation. Pinning is what turns another
    /// reading into the same reading of new words.
    pub pinned_seed: Option<u32>,
}

/// Everything the application knows, as characters and sequences.
#[verifier::ext_equal]
pub struct StudioView {
    pub engine: bool,
    pub models: Seq<ModelSpec>,
    pub selected_model: Option<Seq<char>>,
    pub voices: Seq<Voice>,
    pub selected_voice: Option<Seq<char>>,
    pub text: Seq<char>,
    pub status: StatusView,
    pub recorder: bool,
    pub enrolment: EnrolmentView,
    pub consent_given: bool,
    pub installs: Map<Seq<char>, InstallStatus>,
    pub clips: Seq<Clip>,
    pub system: Option<SystemInfo>,
    pub warming: Option<Seq<char>>,
    pub settings_open: bool,
    pub settings_pane: Pane,
    pub progress: Option<Generating>,
    pub stopping: bool,
    pub expected_words: nat,
    pub generating_row: Option<Seq<char>>,
    pub voice_name: Seq<char>,
    pub imported: Option<Seq<char>>,
    pub queued: Option<(Seq<char>, Seq<char>)>,
    pub confirming_voice: Option<Seq<char>>,
    pub confirming_delete: Option<Seq<char>>,
    pub model_menu: bool,
    pub choosing_model: bool,
    pub last: Option<Synthesis>,
    pub clip: Option<(Seq<char>, Single)>,
    pub take: Option<TakeView>,
    pub clip_levels: Seq<Single>,
    pub in_setup: bool,
    pub drafts: Seq<DraftView>,
    pub selected: SelectedView,
    pub next_draft: nat,
    pub clip_name: Seq<char>,
    pub renaming: Option<SelectedView>,
    pub renaming_voice: Option<Seq<char>>,
    pub voice_rename: Seq<char>,
    pub runtime_done: bool,
    pub storage: Option<Usage>,
    pub clip_menu: Option<Seq<char>>,
    pub inspector: bool,
    pub voice_saved: Option<Seq<char>>,
    pub pinned_seed: Option<u32>,
}

pub open spec fn clip_view(clip: Option<(String, Single)>) -> Option<(Seq<char>, Single)> {
    match clip {
        Some((path, seconds)) => Some((path@, seconds)),
        None => None,
    }
}

pub open spec fn take_view(take: Option<Take>) -> Option<TakeView> {
    match take {
        Some(take) => Some(take@),
        None => None,
    }
}

pub open spec fn queue_view(queued: Option<(String, String)>) -> Option<(Seq<char>, Seq<char>)> {
    match queued {
        Some((words, row)) => Some((words@, row@)),
        None => None,
    }
}

pub open spec fn selected_view(selected: Option<Selected>) -> Option<SelectedView> {
    match selected {
        Some(selected) => Some(selected@),
        None => None,
    }
}

impl View for VoiceStudio {
    type V = StudioView;

    open spec fn view(&self) -> StudioView {
        StudioView {
            engine: self.engine,
            models: self.models@,
            selected_model: name_view(self.selected_model),
            voices: self.voices@,
            selected_voice: name_view(self.selected_voice),
            text: self.text@,
            status: self.status@,
            recorder: self.recorder,
            enrolment: self.enrolment@,
            consent_given: self.consent_given,
            installs: self.installs@,
            clips: self.clips@,
            system: self.system,
            warming: name_view(self.warming),
            settings_open: self.settings_open,
            settings_pane: self.settings_pane,
            progress: self.progress,
            stopping: self.stopping,
            expected_words: self.expected_words as nat,
            generating_row: name_view(self.generating_row),
            voice_name: self.voice_name@,
            imported: name_view(self.imported),
            queued: queue_view(self.queued),
            confirming_voice: name_view(self.confirming_voice),
            confirming_delete: name_view(self.confirming_delete),
            model_menu: self.model_menu,
            choosing_model: self.choosing_model,
            last: self.last,
            clip: clip_view(self.clip),
            take: take_view(self.take),
            clip_levels: self.clip_levels@,
            in_setup: self.in_setup,
            drafts: drafts_view(self.drafts@),
            selected: self.selected@,
            next_draft: self.next_draft as nat,
            clip_name: self.clip_name@,
            renaming: selected_view(self.renaming),
            renaming_voice: name_view(self.renaming_voice),
            voice_rename: self.voice_rename@,
            runtime_done: self.runtime_done,
            storage: self.storage,
            clip_menu: name_view(self.clip_menu),
            inspector: self.inspector,
            voice_saved: name_view(self.voice_saved),
            pinned_seed: self.pinned_seed,
        }
    }
}

impl StudioView {
    /// What is known when the application opens.
    pub open spec fn opening(starting: Seq<char>, mine: Seq<char>) -> StudioView {
        StudioView {
            engine: false,
            models: Seq::empty(),
            selected_model: None,
            voices: Seq::empty(),
            selected_voice: None,
            text: Seq::empty(),
            status: StatusView::Preparing(starting),
            recorder: false,
            enrolment: EnrolmentView::Closed,
            consent_given: false,
            installs: Map::empty(),
            clips: Seq::empty(),
            system: None,
            warming: None,
            settings_open: false,
            settings_pane: Pane::Models,
            progress: None,
            stopping: false,
            expected_words: 0,
            generating_row: None,
            voice_name: mine,
            imported: None,
            queued: None,
            confirming_voice: None,
            confirming_delete: None,
            model_menu: false,
            choosing_model: false,
            last: None,
            clip: None,
            take: None,
            clip_levels: Seq::empty(),
            in_setup: false,
            drafts: seq![
                DraftView { started: false, ..DraftView::fresh(1, None, None) },
            ],
            selected: SelectedView::Draft(draft_id(1)),
            next_draft: 1,
            clip_name: Seq::empty(),
            renaming: None,
            renaming_voice: None,
            voice_rename: Seq::empty(),
            runtime_done: false,
            storage: None,
            clip_menu: None,
            inspector: false,
            voice_saved: None,
            pinned_seed: None,
        }
    }
}

impl VoiceStudio {
    /// Nothing is known yet: the engine is about to be started, and the
    /// composer opens on a blank draft, because it always has a clip.
    /// `starting` says so, and `mine` is what a first voice is called.
    pub fn new(starting: &str, mine: &str) -> (studio: Self)
        ensures
            studio@ == StudioView::opening(starting@, mine@),
    {
        proof {
            reveal_strlit("");
            reveal_strlit("draft-1");
            reveal_strlit("draft-");
            assert(draft_id(1) =~= "draft-1"@);
        }
        let mut drafts: Vec<Draft> = Vec::new();
        drafts.push(Draft::blank());
        VoiceStudio {
            engine: false,
            models: Vec::new(),
            selected_model: None,
            voices: Vec::new(),
            selected_voice: None,
            text: "".to_owned(),
            status: Status::Preparing(starting.to_owned()),
            recorder: false,
            enrolment: Enrolment::Closed,
            consent_given: false,
            installs: Installs::new(),
            clips: Vec::new(),
            system: None,
            warming: None,
            settings_open: false,
            settings_pane: Pane::Models,
            progress: None,
            stopping: false,
            expected_words: 0,
            generating_row: None,
            voice_name: mine.to_owned(),
            imported: None,
            queued: None,
            confirming_voice: None,
            confirming_delete: None,
            model_menu: false,
            choosing_model: false,
            last: None,
            clip: None,
            take: None,
            clip_levels: Vec::new(),
            in_setup: false,
            drafts,
            selected: Selected::Draft("draft-1".to_owned()),
            next_draft: 1,
            clip_name: "".to_owned(),
            renaming: None,
            renaming_voice: None,
            voice_rename: "".to_owned(),
            runtime_done: false,
            storage: None,
            clip_menu: None,
            inspector: false,
            voice_saved: None,
            pinned_seed: None,
        }
    }
}

impl StudioView {
    /// The model that is selected, where the catalogue has it.
    pub open spec fn model(self) -> Option<ModelSpec> {
        match self.selected_model {
            Some(id) => found(self.models, id),
            None => None,
        }
    }

    /// The models on disk.
    pub open spec fn installed(self) -> Seq<ModelSpec> {
        self.models.filter(|model: ModelSpec| model.installed)
    }

    /// Whether the selected model can speak in a supplied voice.
    pub open spec fn can_clone(self) -> bool {
        self.model() matches Some(model) && model.supports_cloning
    }

    /// Whether there is nothing against speaking with the selected model.
    pub open spec fn ready(self) -> bool {
        self.model() matches Some(model) ==> model.installed
    }

    /// The voice the next generation will use, or the model's own.
    pub open spec fn speaking(self) -> Option<Seq<char>> {
        match self.selected_voice {
            Some(id) => if self.can_clone() && known(self.voices, id) {
                Some(id)
            } else {
                None
            },
            None => None,
        }
    }

    /// Whether anything is running: a model preparing, a generation, an
    /// install.
    pub open spec fn is_busy(self) -> bool {
        self.status is Preparing || self.status is Generating || self.status is Installing
    }

    /// Whether the recorder is showing over the workspace rather than instead
    /// of it.
    pub open spec fn recording_over_work(self) -> bool {
        self.enrolment != EnrolmentView::Closed && !self.in_setup
    }

    /// Whether setup holds the screen: it has something to say, or there is no
    /// engine to fall back on.
    pub open spec fn setting_up(self) -> bool {
        self.runtime_done || self.status is Installing || (!self.engine && self.status is Failed)
    }

    /// Whether a model has to be chosen before anything else. Nothing can be
    /// spoken until one is on disk.
    pub open spec fn choosing(self) -> bool {
        self.choosing_model || (self.engine && self.installed().len() == 0)
    }

    /// The screen that is showing.
    pub open spec fn showing(self) -> Screen {
        if self.setting_up() {
            Screen::Setup
        } else if self.choosing() {
            Screen::Models
        } else if self.in_setup && self.enrolment != EnrolmentView::Closed {
            Screen::Enrolment
        } else {
            Screen::Workspace
        }
    }

    /// Whether the clip on screen is the one running. Installing or preparing
    /// is not attached to any row, so it shows wherever you are.
    pub open spec fn shows_generation(self) -> bool {
        ||| self.is_busy() && self.status != StatusView::Generating
        ||| self.generating_row == Some(self.selected.row())
    }
}

impl VoiceStudio {
    pub(crate) fn model(&self) -> (model: Option<&ModelSpec>)
        ensures
            match model {
                Some(model) => self@.model() == Some(*model),
                None => self@.model() is None,
            },
    {
        match &self.selected_model {
            Some(id) => find(&self.models, id.as_str()),
            None => None,
        }
    }

    pub fn installed_models(&self) -> (count: usize)
        ensures
            count == self@.installed().len(),
    {
        let mut count: usize = 0;
        let mut i: usize = 0;
        reveal(Seq::filter);
        while i < self.models.len()
            invariant
                i <= self.models.len(),
                count <= i,
                count == self.models@.take(i as int).filter(
                    |model: ModelSpec| model.installed,
                ).len(),
            decreases self.models.len() - i,
        {
            reveal(Seq::filter);
            assert(self.models@.take(i + 1).drop_last() =~= self.models@.take(i as int));
            if self.models[i].installed {
                count = count + 1;
            }
            i = i + 1;
        }
        assert(self.models@.take(self.models@.len() as int) =~= self.models@);
        count
    }

    /// Whether the selected model can speak in a supplied voice. Read from the
    /// catalogue rather than assumed.
    pub fn model_can_clone(&self) -> (can: bool)
        ensures
            can == self@.can_clone(),
    {
        match self.model() {
            Some(model) => model.supports_cloning,
            None => false,
        }
    }

    pub fn model_ready(&self) -> (ready: bool)
        ensures
            ready == self@.ready(),
    {
        match self.model() {
            Some(model) => model.installed,
            None => true,
        }
    }

    /// The voice the next generation will use: an enrolled one, or `None` for
    /// the model's own voice. A model that cannot clone always answers `None`,
    /// so a stale selection can never reach the engine as an unusable request.
    pub fn speaking_voice(&self) -> (voice: Option<&str>)
        ensures
            match voice {
                Some(voice) => self@.speaking() == Some(voice@),
                None => self@.speaking() is None,
            },
    {
        if !self.model_can_clone() {
            return None;
        }
        match &self.selected_voice {
            Some(id) => if knows(&self.voices, id.as_str()) {
                Some(id.as_str())
            } else {
                None
            },
            None => None,
        }
    }

    /// Whether anything is running. Right for disabling the button that
    /// generates; wrong for deciding what the composer shows.
    pub fn busy(&self) -> (busy: bool)
        ensures
            busy == self@.is_busy(),
    {
        matches!(
            self.status,
            Status::Preparing(_) | Status::Generating | Status::Installing { .. }
        )
    }

    pub fn generating(&self) -> (generating: bool)
        ensures
            generating == (self@.status is Generating),
    {
        matches!(self.status, Status::Generating)
    }

    /// Whether the recorder is showing over the workspace rather than instead
    /// of it.
    pub fn enrolling_over_workspace(&self) -> (over: bool)
        ensures
            over == self@.recording_over_work(),
    {
        !matches!(self.enrolment, Enrolment::Closed) && !self.in_setup
    }

    /// The one place the screen rules live, so they can be read in full.
    ///
    /// Enrolment is not forced by an empty voice list: every model speaks
    /// without a reference, so no voice means the model's own.
    pub fn screen(&self) -> (screen: Screen)
        ensures
            screen == self@.showing(),
    {
        if self.runtime_done || matches!(self.status, Status::Installing { .. }) || (!self.engine
            && matches!(self.status, Status::Failed(_))) {
            Screen::Setup
        } else if self.choosing_model || (self.engine && self.installed_models() == 0) {
            Screen::Models
        } else if self.in_setup && !matches!(self.enrolment, Enrolment::Closed) {
            Screen::Enrolment
        } else {
            Screen::Workspace
        }
    }

    /// Whether the line of state is shown under the workspace. The composer
    /// says what is happening; a failure has nowhere else to go.
    pub fn shows_failure(&self) -> (shown: bool)
        ensures
            shown == (self@.showing() == Screen::Workspace && self@.status is Failed),
    {
        let workspace = match self.screen() {
            Screen::Workspace => true,
            _ => false,
        };
        workspace && matches!(self.status, Status::Failed(_))
    }

    /// Whether the clip on screen is the one running, rather than whether
    /// anything is: selecting another clip leaves the run where it belongs.
    pub fn showing_generation(&self) -> (showing: bool)
        ensures
            showing == self@.shows_generation(),
    {
        if self.busy() && !self.generating() {
            return true;
        }
        named(&self.generating_row, self.selected.row())
    }
}

/// Only an enrolled voice is ever spoken in, and only by a model that can.
pub proof fn lemma_only_an_enrolled_voice_is_spoken_in(studio: StudioView)
    ensures
        studio.speaking() matches Some(voice) ==> {
            &&& studio.selected_voice == Some(voice)
            &&& known(studio.voices, voice)
            &&& studio.can_clone()
        },
{
}

/// Whatever is being recorded, the workspace is only left for it during setup.
pub proof fn lemma_enrolment_takes_the_screen_only_in_setup(studio: StudioView)
    ensures
        studio.showing() == Screen::Enrolment ==> studio.in_setup && !studio.recording_over_work(),
        studio.showing() == Screen::Workspace && studio.in_setup ==> studio.enrolment
            == EnrolmentView::Closed,
{
}

/// The workspace is never shown while there is nothing to speak with.
pub proof fn lemma_the_workspace_has_something_to_speak_with(studio: StudioView)
    ensures
        studio.showing() == Screen::Workspace && studio.engine ==> studio.installed().len() > 0,
{
}

/// What is being waited on, by each status: work that is being prepared,
/// installed or generated is under way, and nothing else is.
pub proof fn lemma_what_is_under_way(studio: StudioView)
    ensures
        match studio.status {
            StatusView::Preparing(_) => studio.is_busy(),
            StatusView::Installing { .. } => studio.is_busy(),
            StatusView::Generating => studio.is_busy(),
            StatusView::Idle => !studio.is_busy(),
            StatusView::Done { .. } => !studio.is_busy(),
            StatusView::Refused(_) => !studio.is_busy(),
            StatusView::Failed(_) => !studio.is_busy(),
        },
{
}

/// The selected model speaks once it is on disk, and clones where the catalogue
/// says it does. With no model selected, or one the catalogue does not have,
/// there is nothing to wait for and nothing to clone with.
pub proof fn lemma_what_the_selected_model_can_do(studio: StudioView, at: int)
    ensures
        studio.selected_model is None ==> studio.model() is None,
        studio.model() is None ==> studio.ready() && !studio.can_clone() && studio.speaking() is None,
        0 <= at < studio.models.len() && studio.selected_model == Some(studio.models[at].id@) && (
        forall|j: int| 0 <= j < at ==> (#[trigger] studio.models[j]).id@ != studio.models[at].id@)
            ==> {
            let model = studio.models[at];
            &&& studio.model() == Some(model)
            &&& studio.ready() <==> model.installed
            &&& studio.can_clone() <==> model.supports_cloning
            &&& model.supports_cloning && (studio.selected_voice matches Some(voice) && known(
                studio.voices,
                voice,
            )) ==> studio.speaking() == studio.selected_voice
        },
{
    if studio.selected_model is Some {
        crate::engine::lemma_the_first_is_found(studio.models, studio.selected_model->0, at);
    }
}

/// Setup holds the screen while it has something to say. Past it, a model is
/// chosen where one was asked for or none is on disk; past that, the recorder
/// has the screen only as the last step of setup; and otherwise it is the
/// workspace.
pub proof fn lemma_what_holds_the_screen(studio: StudioView)
    ensures
        studio.runtime_done ==> studio.showing() == Screen::Setup,
        studio.status is Installing ==> studio.showing() == Screen::Setup,
        studio.status is Failed && !studio.engine ==> studio.showing() == Screen::Setup,
        studio.showing() == Screen::Setup ==> studio.runtime_done || studio.status is Installing || (
        studio.status is Failed && !studio.engine),
        studio.showing() != Screen::Setup ==> {
            let none = forall|i: int|
                0 <= i < studio.models.len() ==> !(#[trigger] studio.models[i]).installed;
            &&& studio.choosing_model ==> studio.showing() == Screen::Models
            &&& studio.engine && none ==> studio.showing() == Screen::Models
            &&& !studio.choosing_model && !(studio.engine && none) ==> {
                &&& studio.in_setup && !(studio.enrolment is Closed) ==> studio.showing()
                    == Screen::Enrolment
                &&& !studio.in_setup || studio.enrolment is Closed ==> studio.showing()
                    == Screen::Workspace
            }
        },
{
    let on_disk = |model: ModelSpec| model.installed;
    if forall|i: int| 0 <= i < studio.models.len() ==> !(#[trigger] studio.models[i]).installed {
        studio.models.lemma_all_neg_filter_empty(on_disk);
    } else {
        let i = choose|i: int| 0 <= i < studio.models.len() && (#[trigger] studio.models[i]).installed;
        studio.models.lemma_filter_contains(on_disk, i);
        assert(studio.installed().len() > 0);
    }
}

/// A generation is shown on its own row and no other; anything else that is
/// under way is shown everywhere.
pub proof fn lemma_where_work_is_shown(studio: StudioView)
    ensures
        studio.status is Preparing || studio.status is Installing ==> studio.shows_generation(),
        !(studio.status is Preparing || studio.status is Installing) ==> {
            &&& studio.generating_row is None ==> !studio.shows_generation()
            &&& studio.generating_row matches Some(row) ==> (studio.shows_generation() <==> row
                == studio.selected.row())
        },
        studio.recording_over_work() <==> !studio.in_setup && !(studio.enrolment is Closed),
{
}

/// The application opens with nothing known and nothing asked for: no engine,
/// no model, voice or clip, no name or consent given, and one empty draft that
/// is not yet a clip and is what is open.
pub proof fn lemma_the_application_opens_with_nothing_known(starting: Seq<char>, mine: Seq<char>)
    ensures
        ({
            let studio = StudioView::opening(starting, mine);
            &&& !studio.engine && !studio.recorder && !studio.consent_given && !studio.stopping
            &&& studio.status == StatusView::Preparing(starting)
            &&& studio.voice_name == mine
            &&& studio.models.len() == 0 && studio.voices.len() == 0 && studio.clips.len() == 0
            &&& studio.selected_model is None && studio.selected_voice is None
            &&& studio.installs.dom() == Set::<Seq<char>>::empty()
            &&& studio.enrolment is Closed && !studio.in_setup && studio.imported is None
            &&& studio.system is None && studio.warming is None && studio.progress is None
            &&& studio.generating_row is None && studio.queued is None && studio.last is None
            &&& studio.expected_words == 0 && studio.pinned_seed is None
            &&& studio.clip is None && studio.take is None && studio.clip_levels.len() == 0
            &&& studio.confirming_voice is None && studio.confirming_delete is None
            &&& studio.renaming is None && studio.renaming_voice is None
            &&& studio.clip_name.len() == 0 && studio.voice_rename.len() == 0
            &&& !studio.settings_open && !studio.model_menu && !studio.choosing_model
            &&& !studio.runtime_done && !studio.inspector && studio.clip_menu is None
            &&& studio.settings_pane == Pane::Models
            &&& studio.storage is None && studio.voice_saved is None
            &&& studio.text.len() == 0
            &&& studio.drafts.len() == 1
            &&& studio.drafts[0].text.len() == 0 && studio.drafts[0].name is None
            &&& !studio.drafts[0].started && !studio.drafts[0].generating
            &&& studio.drafts[0].voice_id is None && studio.drafts[0].model is None
            &&& studio.selected == SelectedView::Draft(studio.drafts[0].id)
            &&& studio.drafts[0].id == draft_id(studio.next_draft)
            &&& studio.next_draft == 1
        }),
{
}

} // verus!
