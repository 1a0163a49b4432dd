//! The reference voices: which one a clip speaks in, what they are called, and
//! what happens to the clips when one goes.

use vstd::prelude::*;
use vstd::string::*;

use crate::clips::{DraftView, draft_ids, lemma_same_ids_stay_sound};
use crate::engine::{Voice, find, found, known, knows};
use crate::studio::{Status, StatusView, StudioView, VoiceStudio};
use crate::text;
use crate::text::{name_view, named};
use crate::workspace::{duration, spec_duration};

verus! {

/// A voice to prepare, and the model to prepare it for.
pub type WarmRequest = (String, Option<String>);

pub open spec fn warm_view(request: Option<WarmRequest>) -> Option<
    (Seq<char>, Option<Seq<char>>),
> {
    match request {
        Some((voice, model)) => Some((voice@, name_view(model))),
        None => None,
    }
}

/// What a voice is called before anyone names it, where `mine` is what the
/// first one is called and `count` is how many there are.
pub open spec fn voice_title(count: nat, mine: Seq<char>) -> Seq<char> {
    if count == 0 {
        mine
    } else {
        mine + " "@ + text::decimal(count + 1)
    }
}

/// A choice of voice, of these voices: one that has gone falls back to the
/// bundled one.
pub open spec fn still_there(voice: Option<Seq<char>>, voices: Seq<Voice>) -> Option<Seq<char>> {
    match voice {
        Some(id) => if known(voices, id) {
            Some(id)
        } else {
            None
        },
        None => None,
    }
}

/// The drafts, with every choice of a voice that has gone taken back.
pub open spec fn with_voices(drafts: Seq<DraftView>, voices: Seq<Voice>) -> Seq<DraftView> {
    Seq::new(
        drafts.len(),
        |i: int| DraftView { voice_id: still_there(drafts[i].voice_id, voices), ..drafts[i] },
    )
}

/// A name the engine is asked to keep, with the id of what it names.
#[derive(Debug)]
pub enum NewName {
    Voice(String, String),
    Clip(String, String),
}

/// A name to be kept, as characters.
pub enum NewNameView {
    Voice(Seq<char>, Seq<char>),
    Clip(Seq<char>, Seq<char>),
}

pub open spec fn new_name_view(name: Option<NewName>) -> Option<NewNameView> {
    match name {
        Some(NewName::Voice(id, label)) => Some(NewNameView::Voice(id@, label@)),
        Some(NewName::Clip(id, name)) => Some(NewNameView::Clip(id@, name@)),
        None => None,
    }
}

impl StudioView {
    /// What is known once the name in the open field has been kept.
    pub open spec fn name_committed(self) -> StudioView {
        if self.renaming_voice is Some {
            StudioView { renaming_voice: None, ..self }
        } else {
            self.renamed()
        }
    }

    /// What the engine is asked to keep when the open field is.
    pub open spec fn name_request(self) -> Option<NewNameView> {
        if self.renaming_voice is Some {
            match self.voice_rename_request() {
                Some((id, label)) => Some(NewNameView::Voice(id, label)),
                None => None,
            }
        } else {
            match self.rename_request() {
                Some((id, name)) => Some(NewNameView::Clip(id, name)),
                None => None,
            }
        }
    }

    /// A voice's name opened for editing, seeded with what it is.
    pub open spec fn naming_voice(self, id: Seq<char>) -> StudioView {
        match found(self.voices, id) {
            Some(voice) => StudioView {
                voice_rename: voice.label@,
                renaming_voice: Some(id),
                confirming_voice: None,
                ..self
            },
            None => self,
        }
    }

    /// The voice that is to be prepared, and the model it is prepared for: the
    /// one that would speak, unless it is being prepared already.
    pub open spec fn warm_request(self) -> Option<(Seq<char>, Option<Seq<char>>)> {
        match self.speaking() {
            Some(voice) => if self.engine && self.warming != Some(voice) {
                Some((voice, self.selected_model))
            } else {
                None
            },
            None => None,
        }
    }

    pub open spec fn warmed_up(self) -> StudioView {
        match self.warm_request() {
            Some((voice, _)) => StudioView { warming: Some(voice), ..self },
            None => self,
        }
    }

    /// This voice is no longer being worked on.
    pub open spec fn cooled(self, voice: Seq<char>) -> StudioView {
        if self.warming == Some(voice) {
            StudioView { warming: None, ..self }
        } else {
            self
        }
    }

    /// The draft being written speaks in this voice, and so does what comes
    /// next.
    pub open spec fn voiced(self, voice: Option<Seq<char>>) -> StudioView {
        let asked = match self.draft() {
            Some(draft) => self.with_draft(DraftView { voice_id: voice, ..draft }),
            None => self,
        };
        StudioView { selected_voice: voice, ..asked }
    }

    /// A voice has been picked by hand, so what was last saved is stale.
    pub open spec fn choosing_voice(self, voice: Option<Seq<char>>) -> StudioView {
        StudioView { voice_saved: None, ..self }.voiced(voice)
    }

    /// What is known once the engine has kept a voice, or failed to. The clip
    /// that asked for the voice switches to it.
    pub open spec fn enrolled(self, id: Seq<char>, kept: Result<Vec<Voice>, String>) -> StudioView {
        let cooled = self.cooled(id);
        match kept {
            Ok(voices) => match found(voices@, id) {
                Some(voice) => StudioView {
                    voices: voices@,
                    voice_saved: Some(spec_duration(voice.seconds)),
                    ..cooled
                }.voiced(Some(voice.voice_id@)),
                None => StudioView { voices: voices@, voice_saved: None, ..cooled },
            },
            Err(reason) => StudioView { status: StatusView::Failed(reason@), ..cooled },
        }
    }

    /// What is known once a voice has been kept and, where it was, begun to be
    /// prepared.
    pub open spec fn voice_kept(self, id: Seq<char>, kept: Result<Vec<Voice>, String>) -> StudioView {
        if kept matches Ok(voices) && known(voices@, id) {
            self.enrolled(id, kept).warmed_up()
        } else {
            self.enrolled(id, kept)
        }
    }

    /// The voice to be prepared once one has been kept.
    pub open spec fn kept_warm_request(
        self,
        id: Seq<char>,
        kept: Result<Vec<Voice>, String>,
    ) -> Option<(Seq<char>, Option<Seq<char>>)> {
        if kept matches Ok(voices) && known(voices@, id) {
            self.enrolled(id, kept).warm_request()
        } else {
            None
        }
    }

    /// What is known once a voice has been deleted, or has not.
    pub open spec fn without_voice(self, left: Result<Vec<Voice>, String>) -> StudioView {
        match left {
            Ok(voices) => StudioView {
                voices: voices@,
                selected_voice: still_there(self.selected_voice, voices@),
                drafts: with_voices(self.drafts, voices@),
                ..self
            },
            Err(reason) => StudioView { status: StatusView::Failed(reason@), ..self },
        }
    }

    /// The voice and the name the engine is asked to keep.
    pub open spec fn voice_rename_request(self) -> Option<(Seq<char>, Seq<char>)> {
        let label = text::trimmed(self.voice_rename);
        match self.renaming_voice {
            Some(id) => if self.engine && label.len() > 0 {
                Some((id, label))
            } else {
                None
            },
            None => None,
        }
    }
}

fn left_of(voice: &Option<String>, voices: &Vec<Voice>) -> (left: Option<String>)
    ensures
        name_view(left) == still_there(name_view(*voice), voices@),
{
    match voice {
        Some(id) => if knows(voices, id.as_str()) {
            Some(id.clone())
        } else {
            None
        },
        None => None,
    }
}

impl VoiceStudio {
    /// Build the selected voice's conditioning now, so the first clip of the
    /// session is not the slow one. What comes back is what to ask the engine
    /// to prepare.
    pub fn warm_selected_voice(&mut self) -> (request: Option<WarmRequest>)
        ensures
            final(self)@ == old(self)@.warmed_up(),
            warm_view(request) == old(self)@.warm_request(),
    {
        let voice = match self.speaking_voice() {
            Some(voice) => voice.to_owned(),
            None => {
                return None;
            },
        };
        if !self.engine || named(&self.warming, voice.as_str()) {
            return None;
        }
        self.warming = Some(voice.clone());
        Some((voice, self.selected_model.clone()))
    }

    /// This voice has been prepared, or has not; either way it is no longer
    /// being worked on. Checked rather than cleared outright: another may have
    /// started since.
    pub fn warmed(&mut self, voice: &str)
        ensures
            final(self)@ == old(self)@.cooled(voice@),
    {
        if named(&self.warming, voice) {
            self.warming = None;
        }
    }

    fn speak_in(&mut self, voice_id: Option<String>)
        ensures
            final(self)@ == old(self)@.voiced(name_view(voice_id)),
    {
        match self.draft_place() {
            Some(at) => {
                self.drafts[at].voice_id = voice_id.clone();
                assert(self@.drafts =~= old(self)@.voiced(name_view(voice_id)).drafts);
            },
            None => {},
        }
        self.selected_voice = voice_id;
    }

    /// Choose the voice this clip speaks in. `None` is the bundled default,
    /// which is a real choice rather than the absence of one. The voice is
    /// prepared on selection: the wait belongs to the moment of choosing.
    pub fn choose_voice(&mut self, voice_id: Option<String>) -> (request: Option<WarmRequest>)
        ensures
            final(self)@ == old(self)@.choosing_voice(name_view(voice_id)).warmed_up(),
            warm_view(request) == old(self)@.choosing_voice(name_view(voice_id)).warm_request(),
    {
        self.voice_saved = None;
        self.speak_in(voice_id);
        self.warm_selected_voice()
    }

    /// The name the next enrolled voice will take, shown before saving.
    pub fn next_voice_name(&self, mine: &str) -> (name: String)
        ensures
            name@ == voice_title(self@.voices.len(), mine@),
    {
        let mut name = mine.to_owned();
        if self.voices.len() > 0 {
            name.append(" ");
            name.append(text::number(self.voices.len() as u128 + 1).as_str());
        }
        name
    }

    /// Take in the voices after one was registered, or why it was not.
    pub fn voice_enrolled(&mut self, id: &str, kept: Result<Vec<Voice>, String>) -> (request: Option<
        WarmRequest,
    >)
        ensures
            final(self)@ == old(self)@.voice_kept(id@, kept),
            warm_view(request) == old(self)@.kept_warm_request(id@, kept),
    {
        self.warmed(id);
        match kept {
            Ok(voices) => {
                proof {
                    crate::engine::lemma_found_is_known(voices@, id@);
                }
                let saved = match find(&voices, id) {
                    Some(voice) => Some((voice.voice_id.clone(), duration(voice.seconds))),
                    None => None,
                };
                self.voices = voices;
                match saved {
                    Some((picked, length)) => {
                        self.voice_saved = Some(length);
                        self.speak_in(Some(picked));
                        self.warm_selected_voice()
                    },
                    None => {
                        self.voice_saved = None;
                        None
                    },
                }
            },
            Err(reason) => {
                self.status = Status::Failed(reason);
                None
            },
        }
    }

    /// Put a voice's name into the field. Whether there is such a voice.
    pub fn start_voice_rename(&mut self, voice_id: &str) -> (opened: bool)
        ensures
            opened == (found(old(self)@.voices, voice_id@) is Some),
            final(self)@ == old(self)@.naming_voice(voice_id@),
    {
        let label = match find(&self.voices, voice_id) {
            Some(voice) => voice.label.clone(),
            None => {
                return false;
            },
        };
        self.voice_rename = label;
        self.renaming_voice = Some(voice_id.to_owned());
        self.confirming_voice = None;
        true
    }

    /// Close the field and save what it holds, unless it has been emptied: a
    /// voice with no name is a row that cannot be told from the others. What
    /// comes back is the voice and the name the engine is asked to keep.
    pub fn commit_voice_rename(&mut self) -> (request: Option<(String, String)>)
        ensures
            final(self)@ == (StudioView { renaming_voice: None, ..old(self)@ }),
            match (request, old(self)@.voice_rename_request()) {
                (Some(request), Some(asked)) => request.0@ == asked.0 && request.1@ == asked.1,
                (None, None) => true,
                _ => false,
            },
    {
        let voice_id = match self.renaming_voice.take() {
            Some(voice_id) => voice_id,
            None => {
                return None;
            },
        };
        let label = text::trim(self.voice_rename.as_str());
        if !self.engine || text::chars_of(label.as_str()).len() == 0 {
            return None;
        }
        Some((voice_id, label))
    }

    /// Leave the voice's name as it was. Whether one was being edited.
    pub fn cancel_voice_rename(&mut self) -> (closed: bool)
        ensures
            final(self)@ == (StudioView { renaming_voice: None, ..old(self)@ }),
            closed == (old(self)@.renaming_voice is Some),
    {
        self.renaming_voice.take().is_some()
    }

    /// Enter was pressed in a name field. The same key serves both, and the
    /// one that is open is the one that is kept, the voice's before the
    /// clip's.
    pub fn commit_name(&mut self) -> (request: Option<NewName>)
        ensures
            final(self)@ == old(self)@.name_committed(),
            new_name_view(request) == old(self)@.name_request(),
    {
        if self.renaming_voice.is_some() {
            match self.commit_voice_rename() {
                Some((id, label)) => Some(NewName::Voice(id, label)),
                None => None,
            }
        } else {
            match self.commit_rename() {
                Some((id, name)) => Some(NewName::Clip(id, name)),
                None => None,
            }
        }
    }

    /// Escape was pressed in a name field: the one that is open is closed,
    /// and its name stays as it was. Whether one was open.
    pub fn cancel_name(&mut self) -> (closed: bool)
        ensures
            final(self)@ == (if old(self)@.renaming_voice is Some {
                StudioView { renaming_voice: None, ..old(self)@ }
            } else {
                StudioView { renaming: None, ..old(self)@ }
            }),
            closed == (old(self)@.renaming_voice is Some || old(self)@.renaming is Some),
    {
        if self.renaming_voice.is_some() {
            self.cancel_voice_rename()
        } else {
            self.cancel_rename()
        }
    }

    /// Take in the voices after one was renamed; a failure leaves them.
    pub fn voices_renamed(&mut self, voices: Option<Vec<Voice>>)
        ensures
            final(self)@ == (match voices {
                Some(voices) => StudioView { voices: voices@, ..old(self)@ },
                None => old(self)@,
            }),
    {
        match voices {
            Some(voices) => {
                self.voices = voices;
            },
            None => {},
        }
    }

    /// The deletion was confirmed. Whether there is an engine to ask.
    pub fn delete_voice(&mut self) -> (ask: bool)
        ensures
            ask == old(self)@.engine,
            final(self)@ == (if old(self)@.engine {
                StudioView { confirming_voice: None, ..old(self)@ }
            } else {
                old(self)@
            }),
    {
        if self.engine {
            self.confirming_voice = None;
        }
        self.engine
    }

    /// Take in the voices that are left. A clip pointing at a deleted voice
    /// falls back to the bundled one rather than to whichever sorts first.
    pub fn voice_deleted(&mut self, left: Result<Vec<Voice>, String>)
        ensures
            final(self)@ == old(self)@.without_voice(left),
    {
        match left {
            Ok(voices) => {
                self.selected_voice = left_of(&self.selected_voice, &voices);
                self.forget_voices(&voices);
                self.voices = voices;
            },
            Err(reason) => {
                self.status = Status::Failed(reason);
            },
        }
    }

    fn forget_voices(&mut self, voices: &Vec<Voice>)
        ensures
            final(self)@ == (StudioView {
                drafts: with_voices(old(self)@.drafts, voices@),
                ..old(self)@
            }),
    {
        let mut i: usize = 0;
        let ghost before = *self;
        while i < self.drafts.len()
            invariant
                i <= self.drafts.len(),
                self.drafts.len() == before.drafts.len(),
                self@ == (StudioView { drafts: self@.drafts, ..before@ }),
                forall|j: int|
                    0 <= j < self.drafts.len() ==> #[trigger] self@.drafts[j] == (if j < i {
                        with_voices(before@.drafts, voices@)[j]
                    } else {
                        before@.drafts[j]
                    }),
            decreases self.drafts.len() - i,
        {
            let ghost was = *self;
            assert(self@.drafts[i as int] == before@.drafts[i as int]);
            let voice = left_of(&self.drafts[i].voice_id, voices);
            self.drafts[i].voice_id = voice;
            assert(forall|j: int|
                0 <= j < self.drafts.len() && j != i ==> #[trigger] self@.drafts[j]
                    == was@.drafts[j]);
            assert(self@.drafts[i as int] == with_voices(before@.drafts, voices@)[i as int]);
            i = i + 1;
        }
        assert(self@.drafts =~= with_voices(before@.drafts, voices@));
    }
}

/// After a voice has been deleted, nothing asks for a voice that is not there.
pub proof fn lemma_nothing_asks_for_a_deleted_voice(studio: StudioView, voices: Vec<Voice>)
    ensures
        ({
            let after = studio.without_voice(Ok::<Vec<Voice>, String>(voices));
            &&& after.selected_voice matches Some(id) ==> known(after.voices, id)
            &&& forall|i: int|
                0 <= i < after.drafts.len() ==> ((#[trigger] after.drafts[i]).voice_id matches Some(
                    id,
                ) ==> known(after.voices, id))
            &&& studio.sound() ==> after.sound()
        }),
{
    let after = studio.without_voice(Ok::<Vec<Voice>, String>(voices));
    if studio.sound() {
        assert(draft_ids(after.drafts) =~= draft_ids(studio.drafts));
        lemma_same_ids_stay_sound(studio, after);
    }
}

/// Asking for the same voice twice prepares it once.
pub proof fn lemma_a_voice_is_prepared_once(studio: StudioView)
    ensures
        studio.warmed_up().warm_request() is None,
        studio.warmed_up().warmed_up() == studio.warmed_up(),
{
}

/// No two voices offered in a row are called the same.
pub proof fn lemma_offered_names_differ(count: nat, mine: Seq<char>)
    ensures
        voice_title(count, mine) != voice_title(count + 1, mine),
{
    reveal_strlit(" ");
    if count == 0 {
        assert(voice_title(1, mine).len() > mine.len());
    } else if voice_title(count, mine) == voice_title(count + 1, mine) {
        let stem = mine.len() + 1;
        assert(voice_title(count, mine).skip(stem as int) =~= text::decimal(count + 1));
        assert(voice_title(count + 1, mine).skip(stem as int) =~= text::decimal(count + 2));
        text::lemma_decimal_is_injective(count + 1, count + 2);
    }
}

/// A first voice is called what it is offered as, and each one after it is
/// numbered by its place.
pub proof fn lemma_voices_are_numbered_in_order(count: nat, mine: Seq<char>)
    ensures
        voice_title(0, mine) == mine,
        count > 0 ==> {
            let title = voice_title(count, mine);
            &&& title.take(mine.len() as int) == mine
            &&& title[mine.len() as int] == ' '
            &&& text::reading(title.skip((mine.len() + 1) as int)) == count + 1
        },
{
    reveal_strlit(" ");
    if count > 0 {
        let title = voice_title(count, mine);
        text::lemma_a_number_reads_back(count + 1);
        assert(title.take(mine.len() as int) =~= mine);
        assert(title.skip((mine.len() + 1) as int) =~= text::decimal(count + 1));
    }
}

/// A voice is prepared exactly where one would be spoken in, there is an engine
/// to prepare it, and it is not being prepared already; it is prepared for the
/// selected model, and from then on it is the one being prepared.
pub proof fn lemma_the_voice_that_would_speak_is_prepared(studio: StudioView)
    ensures
        studio.warm_request() is Some <==> studio.speaking() is Some && studio.engine
            && studio.warming != studio.speaking(),
        studio.warm_request() matches Some((voice, model)) ==> {
            &&& studio.speaking() == Some(voice)
            &&& studio.selected_voice == Some(voice)
            &&& model == studio.selected_model
            &&& studio.warmed_up() == (StudioView { warming: Some(voice), ..studio })
        },
        studio.warm_request() is None ==> studio.warmed_up() == studio,
{
}

/// What comes of preparing a voice ends that voice's preparation and no
/// other's.
pub proof fn lemma_only_its_own_preparation_ends(studio: StudioView, voice: Seq<char>)
    ensures
        studio.cooled(voice) == (StudioView { warming: studio.cooled(voice).warming, ..studio }),
        studio.warming == Some(voice) ==> studio.cooled(voice).warming is None,
        studio.warming != Some(voice) ==> studio.cooled(voice) == studio,
{
}

/// Choosing a voice sets it for the draft that is open and for what comes next,
/// so it is the voice in force; the bundled voice is a choice like any other.
/// Other drafts keep theirs, and what was last saved is no longer news.
pub proof fn lemma_a_voice_is_chosen_for_the_open_draft(
    studio: StudioView,
    voice: Option<Seq<char>>,
)
    ensures
        ({
            let after = studio.choosing_voice(voice);
            &&& after.selected_voice == voice
            &&& after.voice_saved is None
            &&& studio.draft() is Some ==> after.voice_in_force() == voice
            &&& studio.draft() is None ==> after.drafts == studio.drafts
            &&& after.drafts.len() == studio.drafts.len()
            &&& studio.draft_place() matches Some(at) ==> {
                &&& after.drafts[at] == (DraftView { voice_id: voice, ..studio.drafts[at] })
                &&& forall|j: int|
                    0 <= j < studio.drafts.len() && j != at ==> #[trigger] after.drafts[j]
                        == studio.drafts[j]
            }
            &&& after == (StudioView {
                selected_voice: after.selected_voice,
                voice_saved: after.voice_saved,
                drafts: after.drafts,
                ..studio
            })
        }),
{
    if studio.draft() is Some {
        let after = studio.choosing_voice(voice);
        draft_ids(studio.drafts).index_of_first_ensures(studio.selected->Draft_0);
        assert(draft_ids(after.drafts) =~= draft_ids(studio.drafts));
    }
}

/// A voice that was kept is what the open clip switches to, and how long it
/// runs is told. Where the engine kept none of that id, nothing switches; and
/// where it failed, it says why and the voices stay.
pub proof fn lemma_a_kept_voice_is_switched_to(
    studio: StudioView,
    id: Seq<char>,
    voices: Vec<Voice>,
    reason: String,
)
    ensures
        ({
            let after = studio.enrolled(id, Ok::<Vec<Voice>, String>(voices));
            &&& after.voices == voices@
            &&& after.status == studio.status
            &&& after.warming == studio.cooled(id).warming
            &&& found(voices@, id) matches Some(voice) ==> {
                &&& after.selected_voice == Some(id)
                &&& after.voice_saved == Some(spec_duration(voice.seconds))
                &&& studio.draft() is Some ==> after.voice_in_force() == Some(id)
            }
            &&& !known(voices@, id) ==> {
                &&& after.selected_voice == studio.selected_voice
                &&& after.voice_saved is None
                &&& after.drafts == studio.drafts
            }
            &&& after == (StudioView {
                voices: after.voices,
                warming: after.warming,
                selected_voice: after.selected_voice,
                voice_saved: after.voice_saved,
                drafts: after.drafts,
                ..studio
            })
        }),
        studio.enrolled(id, Err::<Vec<Voice>, String>(reason)) == (StudioView {
            status: StatusView::Failed(reason@),
            warming: studio.cooled(id).warming,
            ..studio
        }),
{
    crate::engine::lemma_found_is_known(voices@, id);
    if found(voices@, id) is Some {
        let kept = StudioView {
            voices: voices@,
            voice_saved: Some(spec_duration(found(voices@, id)->0.seconds)),
            ..studio.cooled(id)
        };
        assert(kept.draft() == studio.draft());
        lemma_voicing_the_open_draft(kept, Some(id));
    }
}

proof fn lemma_voicing_the_open_draft(studio: StudioView, voice: Option<Seq<char>>)
    ensures
        studio.voiced(voice) == (StudioView {
            selected_voice: voice,
            drafts: studio.voiced(voice).drafts,
            ..studio
        }),
        studio.draft() is Some ==> studio.voiced(voice).voice_in_force() == voice,
{
    if studio.draft() is Some {
        let after = studio.voiced(voice);
        draft_ids(studio.drafts).index_of_first_ensures(studio.selected->Draft_0);
        assert(draft_ids(after.drafts) =~= draft_ids(studio.drafts));
    }
}

/// Deleting a voice takes back the choice of it, and of it only: a choice of a
/// voice that is still there stays, and drafts keep everything else. One that
/// failed says why and changes nothing else.
pub proof fn lemma_only_a_deleted_voice_is_taken_back(
    studio: StudioView,
    voices: Vec<Voice>,
    reason: String,
    at: int,
)
    ensures
        ({
            let after = studio.without_voice(Ok::<Vec<Voice>, String>(voices));
            &&& after.voices == voices@
            &&& (studio.selected_voice matches Some(id) && known(voices@, id))
                ==> after.selected_voice == studio.selected_voice
            &&& (studio.selected_voice matches Some(id) && !known(voices@, id))
                ==> after.selected_voice is None
            &&& studio.selected_voice is None ==> after.selected_voice is None
            &&& after.drafts.len() == studio.drafts.len()
            &&& 0 <= at < studio.drafts.len() ==> {
                let (before, now) = (studio.drafts[at], after.drafts[at]);
                &&& now == (DraftView { voice_id: now.voice_id, ..before })
                &&& (before.voice_id matches Some(id) && known(voices@, id)) ==> now == before
                &&& !(before.voice_id matches Some(id) && known(voices@, id))
                    ==> now.voice_id is None
            }
            &&& after == (StudioView {
                voices: after.voices,
                selected_voice: after.selected_voice,
                drafts: after.drafts,
                ..studio
            })
        }),
        studio.without_voice(Err::<Vec<Voice>, String>(reason)) == (StudioView {
            status: StatusView::Failed(reason@),
            ..studio
        }),
{
}

/// A voice's new name is asked for without the white space around it, where
/// there is an engine to keep it and anything is left of it.
pub proof fn lemma_an_emptied_voice_name_is_not_kept(studio: StudioView)
    ensures
        studio.voice_rename_request() is Some <==> studio.renaming_voice is Some && studio.engine
            && !text::is_blank(studio.voice_rename),
        studio.voice_rename_request() matches Some((id, label)) ==> studio.renaming_voice == Some(id)
            && label == text::trimmed(studio.voice_rename),
{
    text::lemma_trimming_what_is_blank(studio.voice_rename);
}

/// The name field that is open is the one that is kept: a voice's before a
/// clip's, and keeping the one leaves the other open.
pub proof fn lemma_the_open_name_is_kept(studio: StudioView)
    ensures
        studio.renaming_voice is Some ==> {
            &&& studio.name_committed() == (StudioView { renaming_voice: None, ..studio })
            &&& studio.name_committed().renaming == studio.renaming
            &&& !(studio.name_request() matches Some(NewNameView::Clip(..)))
            &&& studio.engine && !text::is_blank(studio.voice_rename) ==> studio.name_request()
                == Some(
                NewNameView::Voice(studio.renaming_voice->0, text::trimmed(studio.voice_rename)),
            )
            &&& !studio.engine || text::is_blank(studio.voice_rename)
                ==> studio.name_request() is None
        },
        studio.renaming_voice is None ==> {
            &&& studio.name_committed().renaming is None
            &&& studio.name_committed().voices == studio.voices
            &&& !(studio.name_request() matches Some(NewNameView::Voice(..)))
            &&& studio.renaming matches Some(crate::clips::SelectedView::Clip(id, _)) ==> (
            studio.engine ==> studio.name_request() == Some(
                NewNameView::Clip(id, text::trimmed(studio.clip_name)),
            ))
            &&& !studio.engine ==> studio.name_request() is None
        },
{
    text::lemma_trimming_what_is_blank(studio.voice_rename);
}

/// Opening a voice's name shows what it is called, for that voice, and gives up
/// a deletion that was being asked about. Keeping it unchanged asks for the
/// name it has, without white space around it.
pub proof fn lemma_a_voices_name_opens_on_its_label(studio: StudioView, id: Seq<char>)
    ensures
        ({
            let after = studio.naming_voice(id);
            &&& found(studio.voices, id) is None ==> after == studio
            &&& found(studio.voices, id) matches Some(voice) ==> {
                &&& after.renaming_voice == Some(id)
                &&& after.voice_rename == voice.label@
                &&& after.confirming_voice is None
                &&& studio.engine && !text::is_blank(voice.label@) ==> after.voice_rename_request()
                    == Some((id, text::trimmed(voice.label@)))
            }
            &&& after == (StudioView {
                renaming_voice: after.renaming_voice,
                voice_rename: after.voice_rename,
                confirming_voice: after.confirming_voice,
                ..studio
            })
        }),
{
    if found(studio.voices, id) is Some {
        text::lemma_trimming_what_is_blank(found(studio.voices, id)->0.label@);
    }
}

/// A voice that was kept is prepared for the selected model, where that can
/// speak in it and there is an engine; nothing is prepared where none was kept.
pub proof fn lemma_a_kept_voice_is_prepared(
    studio: StudioView,
    id: Seq<char>,
    voices: Vec<Voice>,
    reason: String,
)
    ensures
        studio.kept_warm_request(id, Err::<Vec<Voice>, String>(reason)) is None,
        studio.voice_kept(id, Err::<Vec<Voice>, String>(reason)) == studio.enrolled(
            id,
            Err::<Vec<Voice>, String>(reason),
        ),
        ({
            let kept = Ok::<Vec<Voice>, String>(voices);
            &&& !known(voices@, id) ==> studio.kept_warm_request(id, kept) is None
                && studio.voice_kept(id, kept) == studio.enrolled(id, kept)
            &&& known(voices@, id) ==> {
                &&& studio.voice_kept(id, kept).selected_voice == Some(id)
                &&& studio.engine && studio.can_clone() ==> {
                    &&& studio.kept_warm_request(id, kept) == Some((id, studio.selected_model))
                    &&& studio.voice_kept(id, kept).warming == Some(id)
                }
                &&& !studio.engine || !studio.can_clone() ==> studio.kept_warm_request(
                    id,
                    kept,
                ) is None
            }
        }),
{
    let kept = Ok::<Vec<Voice>, String>(voices);
    lemma_a_kept_voice_is_switched_to(studio, id, voices, reason);
    crate::engine::lemma_found_is_known(voices@, id);
    if known(voices@, id) {
        let after = studio.enrolled(id, kept);
        assert(after.model() == studio.model());
        assert(after.warming != Some(id));
    }
}

} // verus!
