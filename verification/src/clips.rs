//! Clips as the application's unit of work, drafts included.
//!
//! A clip is a thing you name and set up, not just the last output. So it
//! exists from the moment you start writing: a draft, in the list, with its own
//! voice and model, which becomes a real clip when it is generated. That is
//! what lets "start another clip" mean anything while one is still running.
//!
//! Text belongs to the draft rather than to the composer, so switching between
//! two of them does not lose what was typed in either.

use vstd::prelude::*;
use vstd::string::*;

use crate::engine::{
    Clip, Keyed, Synthesis, Take, find, found, ids, known, knows, lemma_the_first_is_found, place,
};
use crate::generation::lemma_the_first_that_waits;
use crate::single::Single;
use crate::studio::{StudioView, VoiceStudio};
use crate::text;
use crate::text::{name_ref, name_view, owned};

verus! {

/// A clip being written. Everything it needs to generate, so generating is a
/// matter of handing this to the engine.
#[derive(Clone, Debug)]
pub struct Draft {
    pub id: String,
    /// `None` until it is named: a generated clip is named from its own first
    /// words, so an unnamed draft has nothing to carry over.
    pub name: Option<String>,
    pub text: String,
    pub voice_id: Option<String>,
    pub model: Option<String>,
    pub seed: Option<u32>,
    /// True while this draft is the one the engine is working on.
    pub generating: bool,
    /// Whether this clip was actually started: by asking for a new one, by
    /// typing, or by editing a finished one's words. The draft the application
    /// opens on is not; until then there is no clip, only an empty composer.
    pub started: bool,
}

/// A draft as its characters.
#[verifier::ext_equal]
pub struct DraftView {
    pub id: Seq<char>,
    pub name: Option<Seq<char>>,
    pub text: Seq<char>,
    pub voice_id: Option<Seq<char>>,
    pub model: Option<Seq<char>>,
    pub seed: Option<u32>,
    pub generating: bool,
    pub started: bool,
}

impl View for Draft {
    type V = DraftView;

    open spec fn view(&self) -> DraftView {
        DraftView {
            id: self.id@,
            name: name_view(self.name),
            text: self.text@,
            voice_id: name_view(self.voice_id),
            model: name_view(self.model),
            seed: self.seed,
            generating: self.generating,
            started: self.started,
        }
    }
}

impl Keyed for Draft {
    open spec fn key(&self) -> Seq<char> {
        self.id@
    }

    fn id(&self) -> &str {
        self.id.as_str()
    }
}

/// The id of the draft with this number.
pub open spec fn draft_id(number: nat) -> Seq<char> {
    "draft-"@ + text::decimal(number)
}

impl DraftView {
    /// A draft that has been asked for and has nothing in it yet.
    pub open spec fn fresh(
        number: nat,
        voice_id: Option<Seq<char>>,
        model: Option<Seq<char>>,
    ) -> DraftView {
        DraftView {
            id: draft_id(number),
            name: None,
            text: Seq::empty(),
            voice_id,
            model,
            seed: None,
            generating: false,
            started: true,
        }
    }

    /// The draft with other words in it. Typing is what starts it.
    pub open spec fn holding(self, words: Seq<char>) -> DraftView {
        DraftView { text: words, started: self.started || !text::is_blank(words), ..self }
    }
}

impl Draft {
    /// A draft that has been asked for and has nothing in it yet.
    pub fn new(id: usize, voice_id: Option<String>, model: Option<String>) -> (draft: Self)
        ensures
            draft@ == DraftView::fresh(id as nat, name_view(voice_id), name_view(model)),
    {
        let mut name = "draft-".to_owned();
        name.append(text::number(id as u128).as_str());
        proof {
            reveal_strlit("");
        }
        Draft {
            id: name,
            name: None,
            text: "".to_owned(),
            voice_id,
            model,
            seed: None,
            generating: false,
            started: true,
        }
    }

    /// The empty draft the application opens on, which is not yet a clip.
    pub fn blank() -> (draft: Self)
        ensures
            draft@ == (DraftView { started: false, ..DraftView::fresh(1, None, None) }),
    {
        let mut draft = Draft::new(1, None, None);
        draft.started = false;
        draft
    }

    /// What the draft is called, where `untitled` is what one without a name
    /// is.
    pub fn title(&self, untitled: &str) -> (title: String)
        ensures
            title@ == (match self@.name {
                Some(name) => name,
                None => untitled@,
            }),
    {
        match &self.name {
            Some(name) => name.clone(),
            None => untitled.to_owned(),
        }
    }
}

/// What the workspace is pointed at. There is always one, an empty draft on
/// first run, because the composer is never showing nothing.
#[derive(Clone, Debug, PartialEq, Eq)]
pub enum Selected {
    Draft(String),
    /// A clip, and which of its takes is being listened to. Generating again
    /// adds a take, so "the clip" is never enough on its own.
    Clip(String, String),
}

/// A selection as its characters.
#[verifier::ext_equal]
pub enum SelectedView {
    Draft(Seq<char>),
    Clip(Seq<char>, Seq<char>),
}

impl View for Selected {
    type V = SelectedView;

    open spec fn view(&self) -> SelectedView {
        match self {
            Selected::Draft(id) => SelectedView::Draft(id@),
            Selected::Clip(id, take) => SelectedView::Clip(id@, take@),
        }
    }
}

impl SelectedView {
    /// The row the selection stands on.
    pub open spec fn row(self) -> Seq<char> {
        match self {
            SelectedView::Draft(id) => id,
            SelectedView::Clip(id, _) => id,
        }
    }
}

impl Selected {
    pub fn copy(&self) -> (copy: Self)
        ensures
            copy@ == self@,
    {
        match self {
            Selected::Draft(id) => Selected::Draft(id.clone()),
            Selected::Clip(id, take) => Selected::Clip(id.clone(), take.clone()),
        }
    }

    /// The row the selection stands on.
    pub fn row(&self) -> (id: &str)
        ensures
            id@ == self@.row(),
    {
        match self {
            Selected::Draft(id) => id.as_str(),
            Selected::Clip(id, _) => id.as_str(),
        }
    }

    pub fn equals(&self, other: &Selected) -> (equal: bool)
        ensures
            equal == (self@ == other@),
    {
        match (self, other) {
            (Selected::Draft(a), Selected::Draft(b)) => text::same(a.as_str(), b.as_str()),
            (Selected::Clip(a, c), Selected::Clip(b, d)) => text::same(a.as_str(), b.as_str())
                && text::same(c.as_str(), d.as_str()),
            _ => false,
        }
    }
}

/// A list of drafts as their characters.
pub open spec fn drafts_view(drafts: Seq<Draft>) -> Seq<DraftView> {
    Seq::new(drafts.len(), |i: int| drafts[i]@)
}

/// The ids of a list of drafts, in its order.
pub open spec fn draft_ids(drafts: Seq<DraftView>) -> Seq<Seq<char>> {
    Seq::new(drafts.len(), |i: int| drafts[i].id)
}

/// Drafts are found by the same ids whichever way they are looked at.
pub proof fn lemma_draft_ids(drafts: Seq<Draft>)
    ensures
        ids(drafts) == draft_ids(drafts_view(drafts)),
{
    assert(ids(drafts) =~= draft_ids(drafts_view(drafts)));
}

impl StudioView {
    /// Where the draft being written stands, if the selection is one.
    pub open spec fn draft_place(self) -> Option<int> {
        match self.selected {
            SelectedView::Draft(id) => draft_ids(self.drafts).index_of_first(id),
            SelectedView::Clip(..) => None,
        }
    }

    /// The draft being written, if the selection is one.
    pub open spec fn draft(self) -> Option<DraftView> {
        match self.draft_place() {
            Some(at) => Some(self.drafts[at]),
            None => None,
        }
    }

    /// The draft being written, replaced.
    pub open spec fn with_draft(self, draft: DraftView) -> StudioView {
        match self.draft_place() {
            Some(at) => StudioView { drafts: self.drafts.update(at, draft), ..self },
            None => self,
        }
    }

    /// The finished clip being looked at, if the selection is one.
    pub open spec fn open_clip(self) -> Option<Clip> {
        match self.selected {
            SelectedView::Clip(id, _) => found(self.clips, id),
            SelectedView::Draft(_) => None,
        }
    }

    /// The take being listened to: the one selected, or the newest if that one
    /// has gone.
    pub open spec fn open_take(self) -> Option<Take> {
        match (self.selected, self.open_clip()) {
            (SelectedView::Clip(_, take), Some(clip)) => clip.spec_heard(take),
            _ => None,
        }
    }

    /// The voice in force for whatever is selected.
    pub open spec fn voice_in_force(self) -> Option<Seq<char>> {
        match self.selected {
            SelectedView::Draft(_) => match self.draft() {
                Some(draft) => draft.voice_id,
                None => None,
            },
            SelectedView::Clip(..) => match self.open_clip() {
                Some(clip) => name_view(clip.voice_id),
                None => None,
            },
        }
    }

    /// The model in force for whatever is selected: the draft's own choice or
    /// else the selected one, or what the finished clip was made with.
    pub open spec fn model_in_force(self) -> Option<Seq<char>> {
        match self.selected {
            SelectedView::Draft(_) => match self.draft() {
                Some(draft) => if draft.model is Some {
                    draft.model
                } else {
                    self.selected_model
                },
                None => self.selected_model,
            },
            SelectedView::Clip(..) => match self.open_clip() {
                Some(clip) => Some(clip.model@),
                None => None,
            },
        }
    }

    /// A model this machine can actually generate with: the one carried over
    /// if the catalogue has it, or else the selected one.
    pub open spec fn usable(self, carried: Option<Seq<char>>) -> Option<Seq<char>> {
        match carried {
            Some(id) => if known(self.models, id) {
                Some(id)
            } else {
                self.selected_model
            },
            None => self.selected_model,
        }
    }

    /// Whatever is in the composer belongs to the draft it was typed into.
    pub open spec fn saved(self) -> StudioView {
        match self.draft() {
            Some(draft) => self.with_draft(draft.holding(self.text)),
            None => self,
        }
    }

    /// A draft put at the head of the list and opened.
    pub open spec fn opened(self, draft: DraftView) -> StudioView {
        StudioView {
            drafts: seq![draft] + self.drafts,
            selected: SelectedView::Draft(draft.id),
            next_draft: self.next_draft + 1,
            text: draft.text,
            ..self
        }
    }

    /// The draft that starting a clip makes. The voice and model carry over
    /// from what was last used.
    pub open spec fn next_clip(self) -> DraftView {
        DraftView::fresh(
            self.next_draft + 1,
            self.voice_in_force(),
            self.usable(self.model_in_force()),
        )
    }

    /// A clip has been started, with what was typed left in the draft it was
    /// typed into.
    pub open spec fn with_new_draft(self) -> StudioView {
        StudioView { renaming: None, ..self.saved().opened(self.next_clip()) }
    }

    /// The workspace pointed at a draft, with the text that belongs to it.
    pub open spec fn at_draft(self, id: Seq<char>) -> StudioView {
        let kept = self.saved();
        let words = match draft_ids(kept.drafts).index_of_first(id) {
            Some(at) => kept.drafts[at].text,
            None => Seq::empty(),
        };
        StudioView { selected: SelectedView::Draft(id), text: words, renaming: None, ..kept }
    }

    /// The take that pointing at this clip and take comes to.
    pub open spec fn take_of(self, clip_id: Seq<char>, take_id: Seq<char>) -> Option<Take> {
        match found(self.clips, clip_id) {
            Some(clip) => clip.spec_heard(take_id),
            None => None,
        }
    }

    /// The workspace pointed at one reading of a clip.
    pub open spec fn at_take(self, clip_id: Seq<char>, take_id: Seq<char>) -> StudioView {
        let kept = self.saved();
        match self.take_of(clip_id, take_id) {
            Some(take) => StudioView {
                selected: SelectedView::Clip(clip_id, take.id@),
                text: found(self.clips, clip_id)->0.text@,
                renaming: None,
                ..kept
            },
            None => kept,
        }
    }

    /// The newest take of a clip.
    pub open spec fn newest_of(self, clip_id: Seq<char>) -> Option<Take> {
        match found(self.clips, clip_id) {
            Some(clip) => clip.spec_latest(),
            None => None,
        }
    }

    /// The workspace pointed at a clip, by its newest take.
    pub open spec fn at_clip(self, clip_id: Seq<char>) -> StudioView {
        match self.newest_of(clip_id) {
            Some(take) => self.at_take(clip_id, take.id@),
            None => self,
        }
    }

    /// The draft that editing this clip's words starts.
    pub open spec fn another_of(self, clip: Clip) -> DraftView {
        DraftView {
            text: clip.text@,
            name: Some(clip.name@),
            seed: match self.open_take() {
                Some(take) => take.seed,
                None => None,
            },
            ..DraftView::fresh(
                self.next_draft + 1,
                name_view(clip.voice_id),
                self.usable(Some(clip.model@)),
            )
        }
    }

    /// Editing a finished clip's words makes another take rather than altering
    /// the one you have.
    pub open spec fn editing(self) -> StudioView {
        match self.open_clip() {
            Some(clip) => self.opened(self.another_of(clip)),
            None => self,
        }
    }

    /// What the selection is called now, where `untitled` is what a draft
    /// without a name is.
    pub open spec fn current_name(self, untitled: Seq<char>) -> Option<Seq<char>> {
        match self.selected {
            SelectedView::Draft(_) => match self.draft() {
                Some(draft) => Some(
                    match draft.name {
                        Some(name) => name,
                        None => untitled,
                    },
                ),
                None => None,
            },
            SelectedView::Clip(..) => match self.open_clip() {
                Some(clip) => Some(clip.name@),
                None => None,
            },
        }
    }

    /// The name opened for editing, seeded with what it is now.
    pub open spec fn naming(self, untitled: Seq<char>) -> StudioView {
        match self.current_name(untitled) {
            Some(name) => StudioView { clip_name: name, renaming: Some(self.selected), ..self },
            None => self,
        }
    }

    /// The edited name put where it belongs. A draft takes it here, and loses
    /// its own where it was emptied; a clip's is the engine's to keep.
    pub open spec fn renamed(self) -> StudioView {
        let name = text::trimmed(self.clip_name);
        let closed = StudioView { renaming: None, ..self };
        match self.renaming {
            Some(SelectedView::Draft(id)) => match draft_ids(self.drafts).index_of_first(id) {
                Some(at) => StudioView {
                    drafts: self.drafts.update(
                        at,
                        DraftView {
                            name: if name.len() == 0 {
                                None
                            } else {
                                Some(name)
                            },
                            ..self.drafts[at]
                        },
                    ),
                    ..closed
                },
                None => closed,
            },
            _ => closed,
        }
    }

    /// The clip and the name the engine is asked to keep.
    pub open spec fn rename_request(self) -> Option<(Seq<char>, Seq<char>)> {
        match self.renaming {
            Some(SelectedView::Clip(id, _)) => if self.engine {
                Some((id, text::trimmed(self.clip_name)))
            } else {
                None
            },
            _ => None,
        }
    }
}

impl VoiceStudio {
    /// Where the draft being written stands.
    pub(crate) fn draft_place(&self) -> (at: Option<usize>)
        ensures
            match at {
                Some(at) => at < self.drafts.len() && self@.draft_place() == Some(at as int),
                None => self@.draft_place() is None,
            },
    {
        proof {
            lemma_draft_ids(self.drafts@);
        }
        match &self.selected {
            Selected::Draft(id) => place(&self.drafts, id.as_str()),
            Selected::Clip(..) => None,
        }
    }

    /// The draft being written, if the selection is one.
    pub fn draft(&self) -> (draft: Option<&Draft>)
        ensures
            match draft {
                Some(draft) => self@.draft() == Some(draft@),
                None => self@.draft() is None,
            },
    {
        match self.draft_place() {
            Some(at) => Some(&self.drafts[at]),
            None => None,
        }
    }

    /// The finished clip being looked at, if the selection is one.
    pub fn clip(&self) -> (clip: Option<&Clip>)
        ensures
            match clip {
                Some(clip) => self@.open_clip() == Some(*clip),
                None => self@.open_clip() is None,
            },
    {
        match &self.selected {
            Selected::Clip(id, _) => find(&self.clips, id.as_str()),
            Selected::Draft(_) => None,
        }
    }

    /// The take being listened to: the one selected, or the newest if that one
    /// has gone.
    pub fn take(&self) -> (take: Option<&Take>)
        ensures
            match take {
                Some(take) => self@.open_take() == Some(*take),
                None => self@.open_take() is None,
            },
    {
        match &self.selected {
            Selected::Clip(_, take) => match self.clip() {
                Some(clip) => clip.heard(take.as_str()),
                None => None,
            },
            Selected::Draft(_) => None,
        }
    }

    /// The voice in force for whatever is selected: the draft's own choice, or
    /// what the finished clip was made with.
    pub fn clip_voice(&self) -> (voice: Option<&str>)
        ensures
            match voice {
                Some(voice) => self@.voice_in_force() == Some(voice@),
                None => self@.voice_in_force() is None,
            },
    {
        match &self.selected {
            Selected::Draft(_) => match self.draft() {
                Some(draft) => name_ref(&draft.voice_id),
                None => None,
            },
            Selected::Clip(..) => match self.clip() {
                Some(clip) => name_ref(&clip.voice_id),
                None => None,
            },
        }
    }

    /// The model in force for whatever is selected.
    pub fn clip_model(&self) -> (model: Option<&str>)
        ensures
            match model {
                Some(model) => self@.model_in_force() == Some(model@),
                None => self@.model_in_force() is None,
            },
    {
        match &self.selected {
            Selected::Draft(_) => match self.draft() {
                Some(draft) => match &draft.model {
                    Some(model) => Some(model.as_str()),
                    None => name_ref(&self.selected_model),
                },
                None => name_ref(&self.selected_model),
            },
            Selected::Clip(..) => match self.clip() {
                Some(clip) => Some(clip.model.as_str()),
                None => None,
            },
        }
    }

    /// The name of a voice as the interface says it: the label it was given,
    /// or `bundled` where nothing is chosen or the choice has gone.
    pub fn voice_name(&self, voice_id: Option<&str>, bundled: &str) -> (name: String)
        ensures
            name@ == (match voice_id {
                Some(id) => match found(self@.voices, id@) {
                    Some(voice) => voice.label@,
                    None => bundled@,
                },
                None => bundled@,
            }),
    {
        match voice_id {
            Some(id) => match find(&self.voices, id) {
                Some(voice) => voice.label.clone(),
                None => bundled.to_owned(),
            },
            None => bundled.to_owned(),
        }
    }

    /// A model this machine can actually generate with.
    ///
    /// A finished clip holds the model that made it, which may be one this
    /// machine has never had. Carrying that into a new draft would pin it to
    /// something that cannot run.
    pub fn usable_model(&self, carried: Option<&str>) -> (model: Option<String>)
        ensures
            name_view(model) == self@.usable(
                match carried {
                    Some(id) => Some(id@),
                    None => None,
                },
            ),
    {
        match carried {
            Some(id) => if knows(&self.models, id) {
                Some(id.to_owned())
            } else {
                self.selected_model.clone()
            },
            None => self.selected_model.clone(),
        }
    }

    fn open_draft(&mut self, draft: Draft)
        requires
            old(self).next_draft < usize::MAX,
        ensures
            final(self)@ == old(self)@.opened(draft@),
    {
        self.next_draft = self.next_draft + 1;
        self.selected = Selected::Draft(draft.id.clone());
        self.text = draft.text.clone();
        self.drafts.insert(0, draft);
        assert(self@.drafts =~= seq![draft@] + old(self)@.drafts);
    }

    fn next_clip(&self) -> (draft: Draft)
        requires
            self.next_draft < usize::MAX,
        ensures
            draft@ == self@.next_clip(),
    {
        Draft::new(
            self.next_draft + 1,
            owned(self.clip_voice()),
            self.usable_model(self.clip_model()),
        )
    }

    fn leave_name(&mut self)
        ensures
            final(self)@ == (StudioView { renaming: None, ..old(self)@ }),
    {
        self.renaming = None;
    }

    /// Start a clip, leaving what was typed in the draft it was typed into. The
    /// voice and model carry over from what was last used, because that is
    /// nearly always what the next clip wants too.
    pub fn new_draft(&mut self)
        requires
            old(self).next_draft < usize::MAX,
        ensures
            final(self)@ == old(self)@.with_new_draft(),
    {
        let draft = self.next_clip();
        self.save_open_text();
        self.open_draft(draft);
        self.leave_name();
    }

    /// Whatever is in the composer belongs to the draft it was typed into.
    /// Typing into the opening draft is what starts it.
    pub fn save_open_text(&mut self)
        ensures
            final(self)@ == old(self)@.saved(),
    {
        match self.draft_place() {
            Some(at) => {
                let empty = text::blank(self.text.as_str());
                let words = self.text.clone();
                let started = self.drafts[at].started || !empty;
                self.drafts[at].started = started;
                self.drafts[at].text = words;
                assert(self@.drafts =~= old(self)@.saved().drafts);
            },
            None => {},
        }
    }

    /// Point the workspace at a draft, keeping the text that belongs to it.
    pub fn select_draft(&mut self, id: &str)
        ensures
            final(self)@ == old(self)@.at_draft(id@),
    {
        self.save_open_text();
        proof {
            lemma_draft_ids(self.drafts@);
            reveal_strlit("");
        }
        let words = match place(&self.drafts, id) {
            Some(at) => self.drafts[at].text.clone(),
            None => "".to_owned(),
        };
        self.selected = Selected::Draft(id.to_owned());
        self.text = words;
        self.renaming = None;
    }

    /// Point the workspace at one reading of a clip. What comes back is the
    /// sound to load and how long it runs, without starting it.
    pub fn select_take(&mut self, clip_id: &str, take_id: &str) -> (sound: Option<(String, Single)>)
        ensures
            final(self)@ == old(self)@.at_take(clip_id@, take_id@),
            match (sound, old(self)@.take_of(clip_id@, take_id@)) {
                (Some((path, seconds)), Some(take)) => path@ == take.path@ && seconds
                    == take.audio_s,
                (None, None) => true,
                _ => false,
            },
    {
        self.save_open_text();
        match find(&self.clips, clip_id) {
            Some(clip) => {
                let words = clip.text.clone();
                match clip.heard(take_id) {
                    Some(take) => {
                        let sound = (take.path.clone(), take.audio_s);
                        let selected = Selected::Clip(clip_id.to_owned(), take.id.clone());
                        self.selected = selected;
                        self.text = words;
                        self.renaming = None;
                        Some(sound)
                    },
                    None => None,
                }
            },
            None => None,
        }
    }

    /// Point the workspace at a finished clip, by its newest take. What comes
    /// back is the sound to load and how long it runs.
    pub fn select_clip(&mut self, id: &str) -> (sound: Option<(String, Single)>)
        ensures
            final(self)@ == old(self)@.at_clip(id@),
            match (sound, old(self)@.newest_of(id@)) {
                (Some((path, seconds)), Some(newest)) => {
                    let take = old(self)@.take_of(id@, newest.id@)->0;
                    path@ == take.path@ && seconds == take.audio_s
                },
                (None, None) => true,
                _ => false,
            },
    {
        let newest = match find(&self.clips, id) {
            Some(clip) => match clip.latest() {
                Some(take) => take.id.clone(),
                None => {
                    return None;
                },
            },
            None => {
                return None;
            },
        };
        self.select_take(id, newest.as_str())
    }

    /// Editing a finished clip's words makes another take rather than altering
    /// the one you have: a new draft, seeded from it, with the clip left alone.
    pub fn edit_clip_text(&mut self)
        requires
            old(self).next_draft < usize::MAX,
        ensures
            final(self)@ == old(self)@.editing(),
    {
        let draft = match self.clip() {
            Some(clip) => {
                let mut draft = Draft::new(
                    self.next_draft + 1,
                    clip.voice_id.clone(),
                    self.usable_model(Some(clip.model.as_str())),
                );
                draft.text = clip.text.clone();
                draft.name = Some(clip.name.clone());
                draft.seed = match self.take() {
                    Some(take) => take.seed,
                    None => None,
                };
                draft
            },
            None => {
                return ;
            },
        };
        self.open_draft(draft);
    }

    /// Open the name for editing, seeded with what it is called now. Whether
    /// there was one to open.
    pub fn begin_rename(&mut self, untitled: &str) -> (opened: bool)
        ensures
            final(self)@ == old(self)@.naming(untitled@),
            opened == (old(self)@.current_name(untitled@) is Some),
    {
        let current = match &self.selected {
            Selected::Draft(_) => match self.draft() {
                Some(draft) => draft.title(untitled),
                None => {
                    return false;
                },
            },
            Selected::Clip(..) => match self.clip() {
                Some(clip) => clip.name.clone(),
                None => {
                    return false;
                },
            },
        };
        self.clip_name = current;
        self.renaming = Some(self.selected.copy());
        true
    }

    /// Put the edited name where it belongs. What comes back is the clip and
    /// the name the engine is asked to keep.
    pub fn commit_rename(&mut self) -> (request: Option<(String, String)>)
        ensures
            final(self)@ == old(self)@.renamed(),
            match (request, old(self)@.rename_request()) {
                (Some(request), Some(asked)) => request.0@ == asked.0 && request.1@ == asked.1,
                (None, None) => true,
                _ => false,
            },
    {
        let target = match self.renaming.take() {
            Some(target) => target,
            None => {
                return None;
            },
        };
        let name = text::trim(self.clip_name.as_str());
        match target {
            Selected::Draft(id) => {
                self.name_draft(id.as_str(), name);
                None
            },
            Selected::Clip(id, _) => if self.engine {
                Some((id, name))
            } else {
                None
            },
        }
    }

    fn name_draft(&mut self, id: &str, name: String)
        ensures
            final(self)@ == (match draft_ids(old(self)@.drafts).index_of_first(id@) {
                Some(at) => StudioView {
                    drafts: old(self)@.drafts.update(
                        at,
                        DraftView {
                            name: if name@.len() == 0 {
                                None
                            } else {
                                Some(name@)
                            },
                            ..old(self)@.drafts[at]
                        },
                    ),
                    ..old(self)@
                },
                None => old(self)@,
            }),
    {
        proof {
            lemma_draft_ids(self.drafts@);
        }
        match place(&self.drafts, id) {
            Some(at) => {
                let empty = text::chars_of(name.as_str()).len() == 0;
                self.drafts[at].name = if empty {
                    None
                } else {
                    Some(name)
                };
                assert(self@.drafts =~= old(self)@.drafts.update(at as int, self@.drafts[at as int]));
            },
            None => {},
        }
    }

    /// Leave the name as it was. Whether one was being edited.
    pub fn cancel_rename(&mut self) -> (closed: bool)
        ensures
            final(self)@ == (StudioView { renaming: None, ..old(self)@ }),
            closed == (old(self)@.renaming is Some),
    {
        self.renaming.take().is_some()
    }
}

/// Whether an id is that of one of the first `count` drafts.
pub open spec fn numbered(id: Seq<char>, count: nat) -> bool {
    exists|number: nat| 1 <= number <= count && id == #[trigger] draft_id(number)
}

impl StudioView {
    /// Every draft has a number that was given out, and no two share one.
    pub open spec fn sound(self) -> bool {
        &&& self.next_draft >= 1
        &&& forall|i: int|
            0 <= i < self.drafts.len() ==> numbered(#[trigger] self.drafts[i].id, self.next_draft)
        &&& forall|i: int, j: int|
            0 <= i < j < self.drafts.len() ==> #[trigger] self.drafts[i].id
                != #[trigger] self.drafts[j].id
    }
}

proof fn lemma_draft_ids_differ(a: nat, b: nat)
    requires
        a != b,
    ensures
        draft_id(a) != draft_id(b),
{
    if draft_id(a) == draft_id(b) {
        let stem = "draft-"@.len() as int;
        assert(draft_id(a).skip(stem) =~= text::decimal(a));
        assert(draft_id(b).skip(stem) =~= text::decimal(b));
        text::lemma_decimal_is_injective(a, b);
    }
}

/// Two drafts never collide: the number of a draft put in the list has not been
/// given out before, so every draft can still be told from every other.
pub proof fn lemma_drafts_never_collide(studio: StudioView, draft: DraftView)
    requires
        studio.sound(),
        draft.id == draft_id(studio.next_draft + 1),
    ensures
        studio.opened(draft).sound(),
{
    let after = studio.opened(draft);
    let fresh = studio.next_draft + 1;
    assert forall|i: int| 0 <= i < after.drafts.len() implies numbered(
        #[trigger] after.drafts[i].id,
        after.next_draft,
    ) by {
        if i > 0 {
            assert(after.drafts[i] == studio.drafts[i - 1]);
            assert(numbered(studio.drafts[i - 1].id, studio.next_draft));
            let number = choose|number: nat|
                1 <= number <= studio.next_draft && studio.drafts[i - 1].id == #[trigger] draft_id(
                    number,
                );
            assert(after.drafts[i].id == draft_id(number));
        } else {
            assert(after.drafts[i].id == draft_id(fresh));
        }
    }
    assert forall|i: int, j: int| 0 <= i < j < after.drafts.len() implies #[trigger] after.drafts[i].id
        != #[trigger] after.drafts[j].id by {
        assert(after.drafts[j] == studio.drafts[j - 1]);
        assert(numbered(studio.drafts[j - 1].id, studio.next_draft));
        if i > 0 {
            assert(after.drafts[i] == studio.drafts[i - 1]);
        } else {
            let number = choose|number: nat|
                1 <= number <= studio.next_draft && studio.drafts[j - 1].id == #[trigger] draft_id(
                    number,
                );
            lemma_draft_ids_differ(number, fresh);
        }
    }
}

/// The application opens with drafts that can be told apart, and starting,
/// editing, selecting and renaming clips keeps them so.
pub proof fn lemma_drafts_stay_apart(
    studio: StudioView,
    starting: Seq<char>,
    mine: Seq<char>,
    id: Seq<char>,
    take: Seq<char>,
)
    ensures
        StudioView::opening(starting, mine).sound(),
        studio.sound() ==> {
            &&& studio.saved().sound()
            &&& studio.with_new_draft().sound()
            &&& studio.editing().sound()
            &&& studio.at_draft(id).sound()
            &&& studio.at_take(id, take).sound()
            &&& studio.at_clip(id).sound()
            &&& studio.renamed().sound()
        },
{
    let opening = StudioView::opening(starting, mine);
    assert(opening.drafts[0].id == draft_id(1));
    if studio.sound() {
        lemma_saving_keeps_ids(studio);
        lemma_renaming_keeps_ids(studio);
        lemma_same_ids_stay_sound(studio, studio.saved());
        lemma_same_ids_stay_sound(studio, studio.at_draft(id));
        lemma_same_ids_stay_sound(studio, studio.at_take(id, take));
        lemma_same_ids_stay_sound(studio, studio.at_clip(id));
        lemma_same_ids_stay_sound(studio, studio.renamed());
        let (kept, fresh) = (studio.saved(), studio.next_clip());
        lemma_drafts_never_collide(kept, fresh);
        lemma_same_ids_stay_sound(kept.opened(fresh), studio.with_new_draft());
        if studio.open_clip() is Some {
            lemma_drafts_never_collide(studio, studio.another_of(studio.open_clip()->0));
        }
    }
}

/// Drafts whose ids have not changed are as far apart as they were.
pub proof fn lemma_same_ids_stay_sound(before: StudioView, after: StudioView)
    requires
        before.sound(),
        after.next_draft == before.next_draft,
        draft_ids(after.drafts) == draft_ids(before.drafts),
    ensures
        after.sound(),
{
    assert(after.drafts.len() == draft_ids(after.drafts).len());
    assert(before.drafts.len() == draft_ids(before.drafts).len());
    assert forall|i: int| 0 <= i < after.drafts.len() implies (#[trigger] after.drafts[i]).id
        == before.drafts[i].id by {
        assert(draft_ids(after.drafts)[i] == draft_ids(before.drafts)[i]);
    }
    assert forall|i: int| 0 <= i < after.drafts.len() implies numbered(
        #[trigger] after.drafts[i].id,
        after.next_draft,
    ) by {
        assert(numbered(before.drafts[i].id, before.next_draft));
    }
    assert forall|i: int, j: int| 0 <= i < j < after.drafts.len() implies #[trigger] after.drafts[i].id
        != #[trigger] after.drafts[j].id by {
        assert(before.drafts[i].id != before.drafts[j].id);
    }
}

/// The composer always has a clip: the application opens on a draft, and
/// starting a clip opens the draft it made.
pub proof fn lemma_the_composer_has_a_draft(
    studio: StudioView,
    starting: Seq<char>,
    mine: Seq<char>,
    draft: DraftView,
)
    ensures
        StudioView::opening(starting, mine).draft() is Some,
        studio.opened(draft).draft() == Some(draft),
        studio.with_new_draft().draft() is Some,
{
    let opening = StudioView::opening(starting, mine);
    draft_ids(opening.drafts).index_of_first_ensures(draft_id(1));
    assert(draft_ids(opening.drafts)[0] == draft_id(1));
    let opened = studio.opened(draft);
    draft_ids(opened.drafts).index_of_first_ensures(draft.id);
    assert(draft_ids(opened.drafts)[0] == draft.id);
    let fresh = studio.next_clip();
    let after = studio.with_new_draft();
    draft_ids(after.drafts).index_of_first_ensures(fresh.id);
    assert(draft_ids(after.drafts)[0] == fresh.id);
}

/// Nothing typed is lost by leaving it. Switching to another draft or to a
/// finished clip, starting or editing a clip, and a generation of something
/// else that finishes, each followed by coming back, leave the words that were
/// in the composer.
pub proof fn lemma_switching_loses_no_words(
    studio: StudioView,
    here: Seq<char>,
    there: Seq<char>,
    take: Seq<char>,
    made: Synthesis,
)
    requires
        studio.selected == SelectedView::Draft(here),
        studio.draft() is Some,
    ensures
        studio.at_draft(there).at_draft(here).text == studio.text,
        studio.at_take(there, take).at_draft(here).text == studio.text,
        studio.at_draft(there).at_draft(here).selected == studio.selected,
        studio.sound() ==> studio.with_new_draft().at_draft(here).text == studio.text,
        studio.editing().at_draft(here).text == studio.text,
        !studio.draft()->0.generating ==> studio.produced(made).at_draft(here).text == studio.text,
{
    let kept = studio.saved();
    let at = studio.draft_place()->0;
    lemma_saving_keeps_ids(studio);
    draft_ids(studio.drafts).index_of_first_ensures(here);
    assert(kept.drafts[at].text == studio.text);
    let away = studio.at_draft(there);
    lemma_saving_keeps_ids(away);
    draft_ids(away.drafts).index_of_first_ensures(there);
    let gone = studio.at_take(there, take);
    lemma_saving_keeps_ids(gone);
    if studio.take_of(there, take) is Some {
        assert(gone.draft_place() is None);
    }
    assert(studio.editing() == studio);
    if studio.sound() {
        let (after, fresh) = (studio.with_new_draft(), studio.next_clip());
        let listed = draft_ids(after.drafts);
        lemma_drafts_stay_apart(studio, Seq::empty(), Seq::empty(), here, take);
        lemma_saving_keeps_ids(after);
        assert(after.drafts[at + 1] == kept.drafts[at]);
        assert(after.drafts[0].id == fresh.id);
        listed.index_of_first_ensures(here);
        listed.index_of_first_ensures(fresh.id);
        assert(listed[at + 1] == here);
        let found = listed.index_of_first(here)->0;
        assert(after.drafts[found].id == after.drafts[at + 1].id);
        assert(found == at + 1);
    }
    if !studio.draft()->0.generating {
        let after = studio.produced(made);
        lemma_the_first_that_waits(kept.drafts, at);
        lemma_saving_keeps_ids(after);
        let place = draft_ids(after.drafts).index_of_first(here)->0;
        draft_ids(after.drafts).index_of_first_ensures(here);
        assert(after.drafts[place].text == studio.text);
        if made.clip is None {
            assert(after.draft_place() == Some(place));
        } else {
            assert(after.draft_place() is None);
        }
        assert(after.saved().drafts[place].text == studio.text);
    }
}

proof fn lemma_saving_keeps_ids(studio: StudioView)
    ensures
        draft_ids(studio.saved().drafts) == draft_ids(studio.drafts),
{
    if studio.draft_place() is Some {
        draft_ids(studio.drafts).index_of_first_ensures(studio.selected->Draft_0);
    }
    assert(draft_ids(studio.saved().drafts) =~= draft_ids(studio.drafts));
}

proof fn lemma_renaming_keeps_ids(studio: StudioView)
    ensures
        draft_ids(studio.renamed().drafts) == draft_ids(studio.drafts),
{
    match studio.renaming {
        Some(SelectedView::Draft(id)) => {
            draft_ids(studio.drafts).index_of_first_ensures(id);
        },
        _ => {},
    }
    assert(draft_ids(studio.renamed().drafts) =~= draft_ids(studio.drafts));
}

/// Editing a finished clip's words leaves the clips, and every draft there was,
/// alone.
pub proof fn lemma_editing_leaves_the_clip_alone(studio: StudioView)
    ensures
        studio.editing().clips == studio.clips,
        studio.open_clip() is Some ==> studio.editing().drafts.skip(1) == studio.drafts,
        studio.open_clip() matches Some(clip) ==> studio.editing().text == clip.text@,
{
    if studio.open_clip() is Some {
        assert(studio.editing().drafts.skip(1) =~= studio.drafts);
    }
}

/// A new clip never asks for a model the catalogue does not have, unless that
/// is the one selected.
pub proof fn lemma_a_new_clip_can_be_spoken(studio: StudioView)
    ensures
        studio.usable(studio.model_in_force()) matches Some(model) ==> known(studio.models, model)
            || studio.selected_model == Some(model),
        studio.with_new_draft().drafts[0].model == studio.usable(studio.model_in_force()),
{
}

/// The take being listened to is the one selected, or the newest where that
/// one has gone.
pub proof fn lemma_the_take_heard_is_the_one_selected(studio: StudioView)
    ensures
        studio.open_take() matches Some(take) ==> {
            let clip = studio.open_clip()->0;
            ||| take.id@ == studio.selected->Clip_1
            ||| !known(clip.takes@, studio.selected->Clip_1) && clip.spec_latest() == Some(take)
        },
{
    if studio.open_take() is Some {
        let clip = studio.open_clip()->0;
        crate::engine::lemma_found_is_known(clip.takes@, studio.selected->Clip_1);
    }
}

/// What a new draft is: empty and unnamed, in the voice and with the model it
/// was started in, under the number it was given.
pub proof fn lemma_a_fresh_draft_is_empty(
    number: nat,
    voice_id: Option<Seq<char>>,
    model: Option<Seq<char>>,
)
    ensures
        ({
            let draft = DraftView::fresh(number, voice_id, model);
            &&& draft.id == "draft-"@ + text::decimal(number)
            &&& draft.name is None
            &&& draft.text.len() == 0
            &&& draft.voice_id == voice_id
            &&& draft.model == model
            &&& draft.seed is None
            &&& !draft.generating
            &&& draft.started
        }),
{
}

/// The draft being written and the clip being looked at are the first with the
/// id that is selected, and a selection is never both.
pub proof fn lemma_what_is_open(studio: StudioView, at: int)
    ensures
        studio.selected is Draft ==> studio.open_clip() is None && studio.open_take() is None,
        studio.selected is Clip ==> studio.draft() is None,
        0 <= at < studio.drafts.len() && studio.selected == SelectedView::Draft(studio.drafts[at].id)
            && (forall|j: int|
            0 <= j < at ==> (#[trigger] studio.drafts[j]).id != studio.drafts[at].id)
            ==> studio.draft() == Some(studio.drafts[at]),
        0 <= at < studio.clips.len() && (studio.selected matches SelectedView::Clip(id, _) && id
            == studio.clips[at].id@) && (forall|j: int|
            0 <= j < at ==> (#[trigger] studio.clips[j]).id@ != studio.clips[at].id@)
            ==> studio.open_clip() == Some(studio.clips[at]),
        studio.draft() matches Some(draft) ==> studio.drafts.contains(draft) && studio.selected
            == SelectedView::Draft(draft.id),
        studio.open_clip() matches Some(clip) ==> studio.clips.contains(clip) && studio.selected is Clip
            && studio.selected.row() == clip.id@,
{
    let listed = draft_ids(studio.drafts);
    match studio.selected {
        SelectedView::Draft(id) => {
            listed.index_of_first_ensures(id);
            if 0 <= at < studio.drafts.len() && studio.drafts[at].id == id && (forall|j: int|
                0 <= j < at ==> (#[trigger] studio.drafts[j]).id != id) {
                assert(listed[at] == id);
                let first = listed.index_of_first(id)->0;
                assert(studio.drafts[first].id == id);
            }
        },
        SelectedView::Clip(id, _) => {
            lemma_the_first_is_found(studio.clips, id, at);
            crate::engine::lemma_found_is_known(studio.clips, id);
        },
    }
}

/// The voice and the model in force are those of the draft or the clip that is
/// open. A draft that has no model of its own takes the one selected; a clip
/// has the one it was made with.
pub proof fn lemma_what_is_in_force(studio: StudioView)
    ensures
        studio.draft() matches Some(draft) ==> {
            &&& studio.voice_in_force() == draft.voice_id
            &&& draft.model is Some ==> studio.model_in_force() == draft.model
            &&& draft.model is None ==> studio.model_in_force() == studio.selected_model
        },
        studio.open_clip() matches Some(clip) ==> {
            &&& studio.voice_in_force() == name_view(clip.voice_id)
            &&& studio.model_in_force() == Some(clip.model@)
        },
        studio.draft() is None && studio.open_clip() is None ==> {
            &&& studio.voice_in_force() is None
            &&& studio.model_in_force() is Some ==> studio.selected is Draft
                && studio.model_in_force() == studio.selected_model
            &&& studio.selected is Draft ==> studio.model_in_force() == studio.selected_model
        },
{
}

/// A model is carried over where the catalogue has it, and the selected one
/// stands in where it does not or where there is none to carry.
pub proof fn lemma_a_model_that_is_gone_is_not_carried(
    studio: StudioView,
    carried: Seq<char>,
    at: int,
)
    ensures
        0 <= at < studio.models.len() && studio.models[at].id@ == carried ==> studio.usable(
            Some(carried),
        ) == Some(carried),
        (forall|j: int| 0 <= j < studio.models.len() ==> (#[trigger] studio.models[j]).id@ != carried)
            ==> studio.usable(Some(carried)) == studio.selected_model,
        studio.usable(None) == studio.selected_model,
{
    if 0 <= at < studio.models.len() && studio.models[at].id@ == carried {
        assert(ids(studio.models)[at] == carried);
    }
    lemma_the_first_is_found(studio.models, carried, at);
}

/// Saving puts what stands in the composer into the draft it was typed into,
/// and does nothing else: the draft keeps its id, its name and its settings,
/// every other draft stays as it is, and so does everything that is not a
/// draft. Typing is what starts a draft, and typing nothing is not.
pub proof fn lemma_saving_touches_one_draft(studio: StudioView)
    ensures
        studio.saved() == (StudioView { drafts: studio.saved().drafts, ..studio }),
        studio.saved().drafts.len() == studio.drafts.len(),
        studio.draft_place() is None ==> studio.saved() == studio,
        studio.draft_place() matches Some(at) ==> {
            let (before, after) = (studio.drafts[at], studio.saved().drafts[at]);
            &&& 0 <= at < studio.drafts.len()
            &&& after.text == studio.text
            &&& before.started ==> after.started
            &&& !before.started && text::is_blank(studio.text) ==> !after.started
            &&& !text::is_blank(studio.text) ==> after.started
            &&& after == (DraftView { text: after.text, started: after.started, ..before })
            &&& forall|j: int|
                0 <= j < studio.drafts.len() && j != at ==> #[trigger] studio.saved().drafts[j]
                    == studio.drafts[j]
        },
{
    if studio.draft_place() is Some {
        draft_ids(studio.drafts).index_of_first_ensures(studio.selected->Draft_0);
    }
}

/// Starting a clip opens an empty draft at the head of the list, in the voice
/// that was in force, and with the model that was where the catalogue has it.
/// Every draft there was follows it, with what was typed saved, and nothing
/// else changes.
pub proof fn lemma_a_new_clip_carries_the_voice_and_the_model(studio: StudioView)
    ensures
        ({
            let after = studio.with_new_draft();
            &&& after.draft() matches Some(draft) && {
                &&& draft == after.drafts[0]
                &&& draft.id == draft_id(studio.next_draft + 1)
                &&& draft.text.len() == 0
                &&& draft.name is None
                &&& draft.seed is None
                &&& draft.started
                &&& !draft.generating
                &&& draft.voice_id == studio.voice_in_force()
                &&& (studio.model_in_force() matches Some(id) && known(studio.models, id))
                    ==> draft.model == studio.model_in_force()
                &&& !(studio.model_in_force() matches Some(id) && known(studio.models, id))
                    ==> draft.model == studio.selected_model
            }
            &&& after.voice_in_force() == studio.voice_in_force()
            &&& after.text.len() == 0
            &&& after.renaming is None
            &&& after.next_draft == studio.next_draft + 1
            &&& after.drafts.skip(1) == studio.saved().drafts
            &&& after == (StudioView {
                drafts: after.drafts,
                selected: after.selected,
                next_draft: after.next_draft,
                text: after.text,
                renaming: after.renaming,
                ..studio
            })
        }),
{
    let after = studio.with_new_draft();
    let fresh = studio.next_clip();
    draft_ids(after.drafts).index_of_first_ensures(fresh.id);
    assert(draft_ids(after.drafts)[0] == fresh.id);
    assert(after.drafts.skip(1) =~= studio.saved().drafts);
}

/// Pointing the workspace at a draft puts its words in the composer, and
/// pointing it at one that is not there leaves the composer empty. What was
/// typed is saved first, the name field is left, and nothing else changes.
pub proof fn lemma_pointing_at_a_draft_shows_its_words(studio: StudioView, id: Seq<char>)
    ensures
        ({
            let after = studio.at_draft(id);
            &&& after.selected == SelectedView::Draft(id)
            &&& after.renaming is None
            &&& after.drafts == studio.saved().drafts
            &&& after.draft() matches Some(draft) ==> after.text == draft.text
            &&& after.draft() is None ==> after.text.len() == 0
            &&& after == (StudioView {
                drafts: after.drafts,
                selected: after.selected,
                text: after.text,
                renaming: after.renaming,
                ..studio
            })
        }),
{
}

/// Pointing the workspace at a reading of a clip shows the clip's words and
/// selects the reading that was asked for, or the newest where that one has
/// gone. A clip that is not there, or has nothing to hear, is not selected.
pub proof fn lemma_pointing_at_a_take_shows_its_clip(
    studio: StudioView,
    clip_id: Seq<char>,
    take_id: Seq<char>,
)
    ensures
        ({
            let after = studio.at_take(clip_id, take_id);
            &&& after.drafts == studio.saved().drafts
            &&& after == (StudioView {
                drafts: after.drafts,
                selected: after.selected,
                text: after.text,
                renaming: after.renaming,
                ..studio
            })
            &&& (found(studio.clips, clip_id) matches Some(clip) && clip.takes@.len() > 0) ==> {
                &&& after.renaming is None
                &&& after.text == found(studio.clips, clip_id)->0.text@
                &&& after.open_clip() == found(studio.clips, clip_id)
                &&& after.selected is Clip
                &&& after.selected->Clip_0 == clip_id
                &&& known(found(studio.clips, clip_id)->0.takes@, take_id)
                    ==> after.selected->Clip_1 == take_id
                &&& !known(found(studio.clips, clip_id)->0.takes@, take_id)
                    ==> after.selected->Clip_1 == found(
                    studio.clips,
                    clip_id,
                )->0.takes@.last().id@
            }
            &&& !(found(studio.clips, clip_id) matches Some(clip) && clip.takes@.len() > 0)
                ==> after == studio.saved()
        }),
{
    if found(studio.clips, clip_id) is Some {
        crate::engine::lemma_found_is_known(found(studio.clips, clip_id)->0.takes@, take_id);
    }
}

/// Pointing the workspace at a clip points it at the newest of its takes, and
/// is the same as pointing it at that take.
pub proof fn lemma_pointing_at_a_clip_hears_the_newest(studio: StudioView, clip_id: Seq<char>)
    ensures
        (found(studio.clips, clip_id) matches Some(clip) && clip.takes@.len() > 0) ==> {
            let newest = found(studio.clips, clip_id)->0.takes@.last();
            &&& studio.newest_of(clip_id) == Some(newest)
            &&& studio.at_clip(clip_id) == studio.at_take(clip_id, newest.id@)
            &&& studio.at_clip(clip_id).selected == SelectedView::Clip(clip_id, newest.id@)
        },
        !(found(studio.clips, clip_id) matches Some(clip) && clip.takes@.len() > 0) ==> {
            &&& studio.newest_of(clip_id) is None
            &&& studio.at_clip(clip_id) == studio
        },
{
    if found(studio.clips, clip_id) matches Some(clip) && clip.takes@.len() > 0 {
        let takes = found(studio.clips, clip_id)->0.takes@;
        assert(ids(takes)[takes.len() - 1] == takes.last().id@);
        crate::engine::lemma_found_is_known(takes, takes.last().id@);
    }
}

/// Editing a finished clip's words opens a draft that says and sounds the same:
/// the clip's words and name, in its voice, with its model where the catalogue
/// has it, and with the seed of the reading that is heard. With no clip open
/// there is nothing to edit.
pub proof fn lemma_editing_keeps_what_the_clip_was_made_with(studio: StudioView)
    ensures
        studio.open_clip() is None ==> studio.editing() == studio,
        studio.open_clip() matches Some(clip) ==> {
            let after = studio.editing();
            &&& after.draft() matches Some(draft) && {
                &&& draft == after.drafts[0]
                &&& draft.id == draft_id(studio.next_draft + 1)
                &&& draft.text == clip.text@
                &&& draft.name == Some(clip.name@)
                &&& draft.voice_id == name_view(clip.voice_id)
                &&& known(studio.models, clip.model@) ==> draft.model == Some(clip.model@)
                &&& !known(studio.models, clip.model@) ==> draft.model == studio.selected_model
                &&& studio.open_take() matches Some(take) ==> draft.seed == take.seed
                &&& studio.open_take() is None ==> draft.seed is None
                &&& draft.started
                &&& !draft.generating
            }
            &&& after.voice_in_force() == studio.voice_in_force()
            &&& after.text == clip.text@
            &&& after.next_draft == studio.next_draft + 1
            &&& after == (StudioView {
                drafts: after.drafts,
                selected: after.selected,
                next_draft: after.next_draft,
                text: after.text,
                ..studio
            })
        },
{
    if studio.open_clip() is Some {
        let after = studio.editing();
        let fresh = studio.another_of(studio.open_clip()->0);
        draft_ids(after.drafts).index_of_first_ensures(fresh.id);
        assert(draft_ids(after.drafts)[0] == fresh.id);
    }
}

/// Opening the name shows what the selection is called now, for that selection
/// and nothing else; with nothing to name, nothing is opened.
pub proof fn lemma_the_name_field_opens_on_the_name(studio: StudioView, untitled: Seq<char>)
    ensures
        ({
            let after = studio.naming(untitled);
            &&& after == (StudioView {
                clip_name: after.clip_name,
                renaming: after.renaming,
                ..studio
            })
            &&& studio.draft() matches Some(draft) ==> {
                &&& after.renaming == Some(studio.selected)
                &&& draft.name matches Some(name) ==> after.clip_name == name
                &&& draft.name is None ==> after.clip_name == untitled
            }
            &&& studio.open_clip() matches Some(clip) ==> {
                &&& after.renaming == Some(studio.selected)
                &&& after.clip_name == clip.name@
            }
            &&& studio.draft() is None && studio.open_clip() is None ==> after == studio
            &&& studio.current_name(untitled) is Some <==> studio.draft() is Some
                || studio.open_clip() is Some
        }),
{
}

/// Keeping a name closes the field. A draft takes the name without the white
/// space around it, or loses its own where nothing is left; a clip stays as it
/// is, and the engine, where there is one, is asked to keep the name.
pub proof fn lemma_a_name_goes_where_it_belongs(studio: StudioView, at: int)
    ensures
        studio.renamed().renaming is None,
        studio.renamed() == (StudioView {
            drafts: studio.renamed().drafts,
            renaming: None,
            ..studio
        }),
        studio.renamed().drafts.len() == studio.drafts.len(),
        !(studio.renaming matches Some(SelectedView::Draft(_))) ==> studio.renamed().drafts
            == studio.drafts,
        0 <= at < studio.drafts.len() ==> {
            let (before, after) = (studio.drafts[at], studio.renamed().drafts[at]);
            &&& after == (DraftView { name: after.name, ..before })
            &&& !(studio.renaming == Some(SelectedView::Draft(before.id)) && (forall|j: int|
                0 <= j < at ==> (#[trigger] studio.drafts[j]).id != before.id)) ==> after == before
            &&& studio.renaming == Some(SelectedView::Draft(before.id)) && (forall|j: int|
                0 <= j < at ==> (#[trigger] studio.drafts[j]).id != before.id) ==> {
                &&& text::is_blank(studio.clip_name) ==> after.name is None
                &&& !text::is_blank(studio.clip_name) ==> after.name == Some(
                    text::trimmed(studio.clip_name),
                )
            }
        },
        studio.rename_request() is Some <==> studio.engine && (studio.renaming matches Some(
            SelectedView::Clip(..),
        )),
        studio.rename_request() matches Some((id, name)) ==> id == studio.renaming->0.row() && name
            == text::trimmed(studio.clip_name),
{
    text::lemma_trimming_what_is_blank(studio.clip_name);
    match studio.renaming {
        Some(SelectedView::Draft(id)) => {
            let listed = draft_ids(studio.drafts);
            listed.index_of_first_ensures(id);
            if 0 <= at < studio.drafts.len() && studio.drafts[at].id == id {
                assert(listed[at] == id);
                let first = listed.index_of_first(id)->0;
                assert(studio.drafts[first].id == id);
                assert(forall|j: int| 0 <= j < first ==> listed[j] == (#[trigger] studio.drafts[j]).id);
            }
        },
        _ => {},
    }
}

/// The row a selection stands on is the draft's, or the clip's whichever of its
/// takes is heard; and a clip that has any take has one that is heard.
pub proof fn lemma_a_selection_stands_on_one_row(
    studio: StudioView,
    id: Seq<char>,
    take: Seq<char>,
    other: Seq<char>,
)
    ensures
        SelectedView::Draft(id).row() == id,
        SelectedView::Clip(id, take).row() == id,
        SelectedView::Clip(id, take).row() == SelectedView::Clip(id, other).row(),
        studio.open_take() is Some <==> (studio.open_clip() matches Some(clip) && clip.takes@.len()
            > 0),
        studio.open_take() matches Some(heard) ==> studio.open_clip()->0.takes@.contains(heard),
{
    if studio.open_clip() is Some {
        let takes = studio.open_clip()->0.takes@;
        crate::engine::lemma_found_is_known(takes, studio.selected->Clip_1);
        if takes.len() > 0 {
            assert(takes.contains(takes[takes.len() - 1]));
        }
    }
}

/// The sound of a reading is that of the take that was asked for, or of the
/// newest where that one has gone, and pointing the workspace at it makes it
/// the take that is heard.
pub proof fn lemma_the_sound_is_the_takes_own(
    studio: StudioView,
    clip_id: Seq<char>,
    take_id: Seq<char>,
    at: int,
)
    ensures
        found(studio.clips, clip_id) is None ==> studio.take_of(clip_id, take_id) is None,
        found(studio.clips, clip_id) matches Some(clip) ==> {
            &&& 0 <= at < clip.takes@.len() && clip.takes@[at].id@ == take_id && (forall|j: int|
                0 <= j < at ==> (#[trigger] clip.takes@[j]).id@ != take_id) ==> studio.take_of(
                clip_id,
                take_id,
            ) == Some(clip.takes@[at])
            &&& (forall|j: int|
                0 <= j < clip.takes@.len() ==> (#[trigger] clip.takes@[j]).id@ != take_id)
                && clip.takes@.len() > 0 ==> studio.take_of(clip_id, take_id) == Some(
                clip.takes@.last(),
            )
        },
        studio.take_of(clip_id, take_id) matches Some(take) ==> studio.at_take(
            clip_id,
            take_id,
        ).selected == SelectedView::Clip(clip_id, take.id@),
{
    if found(studio.clips, clip_id) is Some {
        lemma_the_first_is_found(found(studio.clips, clip_id)->0.takes@, take_id, at);
    }
}

} // verus!
