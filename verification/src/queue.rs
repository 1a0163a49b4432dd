//! Words that wait for a model, and what runs once it is there.
//!
//! The words are held with the row they were asked for. While the row still
//! holds them, it is the row that runs; where the row has been written over or
//! has gone, they run from a draft of their own, so that neither they nor what
//! took their place is lost.

use vstd::prelude::*;

use crate::clips::{
    Draft, DraftView, draft_id, draft_ids, lemma_draft_ids, lemma_drafts_never_collide,
    lemma_drafts_stay_apart, lemma_same_ids_stay_sound,
};
use crate::engine::{Clip, SynthesisRequest, find, found, known, place};
use crate::generation::{RequestView, request_view};
use crate::studio::{Status, StatusView, StudioView, VoiceStudio};
use crate::text;
use crate::text::{name_view, same};

verus! {

impl StudioView {
    /// Where the draft with this id stands.
    pub open spec fn place_of_draft(self, id: Seq<char>) -> Option<int> {
        draft_ids(self.drafts).index_of_first(id)
    }

    /// The draft that words of their own are put in, set up as the row they
    /// were asked for is.
    pub open spec fn draft_of_their_own(self, words: Seq<char>, row: Seq<char>) -> DraftView {
        let number = self.next_draft + 1;
        let set_up = match self.place_of_draft(row) {
            Some(at) => {
                let draft = self.drafts[at];
                DraftView {
                    name: draft.name,
                    seed: draft.seed,
                    ..DraftView::fresh(number, draft.voice_id, draft.model)
                }
            },
            None => match found(self.clips, row) {
                Some(clip) => DraftView {
                    name: Some(clip.name@),
                    ..DraftView::fresh(
                        number,
                        name_view(clip.voice_id),
                        self.usable(Some(clip.model@)),
                    )
                },
                None => DraftView::fresh(number, None, None),
            },
        };
        DraftView { text: words, generating: true, ..set_up }
    }

    /// These words running as this row, with nothing waiting any more.
    pub open spec fn running_as(self, words: Seq<char>, row: Seq<char>) -> StudioView {
        StudioView {
            status: StatusView::Generating,
            progress: None,
            expected_words: text::words(words),
            generating_row: Some(row),
            queued: None,
            ..self
        }
    }

    /// The draft at this place running.
    pub open spec fn with_running(self, at: int) -> StudioView {
        StudioView {
            drafts: self.drafts.update(at, DraftView { generating: true, ..self.drafts[at] }),
            ..self
        }
    }

    /// A draft put at the head of the list, with the workspace left where it
    /// is.
    pub open spec fn with_draft_added(self, draft: DraftView) -> StudioView {
        StudioView {
            drafts: seq![draft] + self.drafts,
            next_draft: self.next_draft + 1,
            ..self
        }
    }

    /// The words that waited, run from a draft of their own.
    pub open spec fn run_alone(self, words: Seq<char>, row: Seq<char>) -> (StudioView, RequestView) {
        let draft = self.draft_of_their_own(words, row);
        (
            self.with_draft_added(draft).running_as(words, draft.id),
            self.asked_of_draft(draft, None),
        )
    }

    /// The words that waited, run: by the draft or the clip they were asked
    /// for where it still holds them, and by a draft of their own where it
    /// does not.
    pub open spec fn run_for(self, words: Seq<char>, row: Seq<char>) -> (StudioView, RequestView) {
        match self.place_of_draft(row) {
            Some(at) => if self.drafts[at].text == words {
                (
                    self.with_running(at).running_as(words, row),
                    self.asked_of_draft(self.drafts[at], None),
                )
            } else {
                self.run_alone(words, row)
            },
            None => match found(self.clips, row) {
                Some(clip) => if clip.text@ == words {
                    (self.running_as(words, row), self.asked_of_clip(clip, None))
                } else {
                    self.run_alone(words, row)
                },
                None => self.run_alone(words, row),
            },
        }
    }

    /// The words that wait, where any do.
    pub open spec fn waiting_words(self) -> Seq<char> {
        let (words, row) = self.queued->0;
        words
    }

    /// The row that the words that wait were asked for.
    pub open spec fn waiting_row(self) -> Seq<char> {
        let (words, row) = self.queued->0;
        row
    }

    /// Whether words are waiting that can be spoken now.
    pub open spec fn can_run_queue(self) -> bool {
        self.queued is Some && self.engine && !self.is_busy() && self.ready()
    }

    /// What is known once what waits has been run, where it can be.
    pub open spec fn queue_run(self) -> StudioView {
        if self.can_run_queue() {
            self.saved().run_for(self.waiting_words(), self.waiting_row()).0
        } else {
            self
        }
    }

    /// What the engine is asked for when what waits is run.
    pub open spec fn queue_request(self) -> Option<RequestView> {
        if self.can_run_queue() {
            Some(self.saved().run_for(self.waiting_words(), self.waiting_row()).1)
        } else {
            None
        }
    }
}

impl VoiceStudio {
    fn own_draft(&self, words: &str, row: &str) -> (draft: Draft)
        requires
            self.next_draft < usize::MAX,
        ensures
            draft@ == self@.draft_of_their_own(words@, row@),
    {
        proof {
            lemma_draft_ids(self.drafts@);
        }
        let number: usize = self.next_draft + 1;
        let mut draft = match place(&self.drafts, row) {
            Some(at) => {
                let held = &self.drafts[at];
                let mut draft = Draft::new(number, held.voice_id.clone(), held.model.clone());
                draft.name = held.name.clone();
                draft.seed = held.seed;
                draft
            },
            None => match find(&self.clips, row) {
                Some(clip) => {
                    let model = self.usable_model(Some(clip.model.as_str()));
                    let mut draft = Draft::new(number, clip.voice_id.clone(), model);
                    draft.name = Some(clip.name.clone());
                    draft
                },
                None => Draft::new(number, None, None),
            },
        };
        draft.text = words.to_owned();
        draft.generating = true;
        draft
    }

    fn run_as(&mut self, words: &str, row: &str)
        ensures
            final(self)@ == old(self)@.running_as(words@, row@),
    {
        self.status = Status::Generating;
        self.progress = None;
        self.expected_words = text::word_count(words);
        self.generating_row = Some(row.to_owned());
        self.queued = None;
    }

    fn mark(&mut self, at: usize)
        requires
            at < old(self).drafts.len(),
        ensures
            final(self)@ == old(self)@.with_running(at as int),
    {
        self.drafts[at].generating = true;
        assert(self@.drafts =~= old(self)@.with_running(at as int).drafts);
    }

    fn add_draft(&mut self, draft: Draft)
        requires
            old(self).next_draft < usize::MAX,
        ensures
            final(self)@ == old(self)@.with_draft_added(draft@),
    {
        self.next_draft = self.next_draft + 1;
        self.drafts.insert(0, draft);
        assert(self@.drafts =~= seq![draft@] + old(self)@.drafts);
    }

    fn run_alone(&mut self, words: &str, row: &str) -> (request: SynthesisRequest)
        requires
            old(self).next_draft < usize::MAX,
        ensures
            (final(self)@, request@) == old(self)@.run_alone(words@, row@),
    {
        let draft = self.own_draft(words, row);
        let request = self.ask_draft(&draft, None);
        let id = draft.id.clone();
        self.add_draft(draft);
        self.run_as(words, id.as_str());
        request
    }

    fn run_for(&mut self, words: &str, row: &str) -> (request: SynthesisRequest)
        requires
            old(self).next_draft < usize::MAX,
        ensures
            (final(self)@, request@) == old(self)@.run_for(words@, row@),
    {
        proof {
            lemma_draft_ids(self.drafts@);
        }
        match place(&self.drafts, row) {
            Some(at) => if same(self.drafts[at].text.as_str(), words) {
                let request = self.ask_draft(&self.drafts[at], None);
                self.mark(at);
                self.run_as(words, row);
                request
            } else {
                self.run_alone(words, row)
            },
            None => {
                let asked = match find(&self.clips, row) {
                    Some(clip) => if same(clip.text.as_str(), words) {
                        Some(self.ask_clip(clip, None))
                    } else {
                        None
                    },
                    None => None,
                };
                match asked {
                    Some(request) => {
                        self.run_as(words, row);
                        request
                    },
                    None => self.run_alone(words, row),
                }
            },
        }
    }

    /// Run the words that wait for a model, where they can be: there is an
    /// engine, nothing else is running, and the model is on disk. What comes
    /// back is what the engine is asked to speak.
    pub fn run_queue(&mut self) -> (request: Option<SynthesisRequest>)
        requires
            old(self).next_draft < usize::MAX,
        ensures
            final(self)@ == old(self)@.queue_run(),
            request_view(request) == old(self)@.queue_request(),
    {
        if !self.engine || self.busy() || !self.model_ready() {
            return None;
        }
        let (words, row) = match &self.queued {
            Some((words, row)) => (words.clone(), row.clone()),
            None => {
                return None;
            },
        };
        self.save_open_text();
        Some(self.run_for(words.as_str(), row.as_str()))
    }
}

/// What waits runs as soon as it can: the words asked for are the ones that
/// waited, whatever has been written or opened since, they are the ones that
/// are then being spoken, and nothing waits any more. Until then they go on
/// waiting. The workspace stays where it was, and every draft keeps its words.
pub proof fn lemma_what_waits_is_run(studio: StudioView)
    ensures
        studio.can_run_queue() ==> {
            let (words, kept, after) = (studio.waiting_words(), studio.saved(), studio.queue_run());
            let more = after.drafts.len() - kept.drafts.len();
            &&& studio.queue_request() matches Some(request) && request.text == words
            &&& after.status is Generating
            &&& after.queued is None
            &&& after.selected == studio.selected
            &&& after.text == studio.text
            &&& more == 0 || more == 1
            &&& forall|i: int|
                0 <= i < kept.drafts.len() ==> (#[trigger] kept.drafts[i]).id == after.drafts[i
                    + more].id && kept.drafts[i].text == after.drafts[i + more].text
            &&& (forall|i: int|
                0 <= i < kept.drafts.len() ==> !(#[trigger] kept.drafts[i]).generating)
                ==> after.spoken_words() == words
        },
        !studio.can_run_queue() ==> studio.queue_request() is None && studio.queue_run() == studio,
{
    if studio.can_run_queue() {
        let (words, row) = studio.queued->0;
        let (kept, after) = (studio.saved(), studio.queue_run());
        draft_ids(kept.drafts).index_of_first_ensures(row);
        let flags = Seq::new(after.drafts.len(), |i: int| after.drafts[i].generating);
        flags.index_of_first_ensures(true);
        let more = after.drafts.len() - kept.drafts.len();
        if forall|i: int| 0 <= i < kept.drafts.len() ==> !(#[trigger] kept.drafts[i]).generating {
            if more == 1 {
                assert(flags[0]);
            } else if kept.place_of_draft(row) is Some {
                let at = kept.place_of_draft(row)->0;
                assert(flags[at]);
                assert(forall|i: int| 0 <= i < at ==> !flags[i]);
            } else {
                assert(forall|i: int| 0 <= i < flags.len() ==> !flags[i]);
            }
        }
    }
}

/// Running what waits leaves drafts that can be told apart.
pub proof fn lemma_running_the_queue_keeps_drafts_apart(studio: StudioView)
    requires
        studio.sound(),
    ensures
        studio.queue_run().sound(),
{
    let none = Seq::<char>::empty();
    lemma_drafts_stay_apart(studio, none, none, none, none);
    if studio.can_run_queue() {
        let (words, row) = studio.queued->0;
        let (kept, after) = (studio.saved(), studio.queue_run());
        draft_ids(kept.drafts).index_of_first_ensures(row);
        if after.drafts.len() == kept.drafts.len() {
            assert(draft_ids(after.drafts) =~= draft_ids(kept.drafts));
            lemma_same_ids_stay_sound(kept, after);
        } else {
            let draft = kept.draft_of_their_own(words, row);
            lemma_drafts_never_collide(kept, draft);
            lemma_same_ids_stay_sound(kept.opened(draft), after);
        }
    }
}

/// What waits is run as it would have been: by the draft that still holds the
/// words, with its own settings; by the clip that still says them, as another
/// take; and where the row says something else or has gone, from a draft of its
/// own with the settings of that row, so that the row is left as it is.
pub proof fn lemma_what_waits_keeps_its_settings(studio: StudioView, words: Seq<char>, row: Seq<char>)
    ensures
        ({
            let (after, request) = studio.run_for(words, row);
            &&& request.text == words
            &&& after.status is Generating
            &&& after.progress is None
            &&& after.expected_words == text::words(words)
            &&& after.queued is None
            &&& after == (StudioView {
                status: after.status,
                progress: after.progress,
                expected_words: after.expected_words,
                generating_row: after.generating_row,
                queued: after.queued,
                drafts: after.drafts,
                next_draft: after.next_draft,
                ..studio
            })
            &&& studio.place_of_draft(row) matches Some(at) ==> {
                let draft = studio.drafts[at];
                &&& draft.id == row
                &&& request.clip_id is None
                &&& request.voice_id == draft.voice_id
                &&& request.name == draft.name
                &&& draft.model is Some ==> request.model == draft.model
                &&& draft.model is None ==> request.model == studio.selected_model
                &&& draft.seed is Some ==> request.seed == draft.seed
                &&& draft.seed is None ==> request.seed == studio.pinned_seed
                &&& draft.text == words ==> {
                    &&& after.generating_row == Some(row)
                    &&& after.next_draft == studio.next_draft
                    &&& after.drafts == studio.drafts.update(
                        at,
                        DraftView { generating: true, ..draft },
                    )
                }
            }
            &&& studio.place_of_draft(row) is None ==> (found(studio.clips, row) matches Some(clip)
                ==> {
                &&& clip.id@ == row
                &&& request.voice_id == name_view(clip.voice_id)
                &&& request.name == Some(clip.name@)
                &&& request.seed == studio.pinned_seed
                &&& clip.text@ == words ==> {
                    &&& request.clip_id == Some(row)
                    &&& request.model == Some(clip.model@)
                    &&& after.generating_row == Some(row)
                    &&& after.next_draft == studio.next_draft
                    &&& after.drafts == studio.drafts
                }
                &&& clip.text@ != words ==> {
                    &&& request.clip_id is None
                    &&& known(studio.models, clip.model@) ==> request.model == Some(clip.model@)
                    &&& !known(studio.models, clip.model@) ==> request.model
                        == studio.selected_model
                }
            })
            &&& studio.place_of_draft(row) is None && found(studio.clips, row) is None ==> {
                &&& request.clip_id is None
                &&& request.voice_id is None
                &&& request.name is None
                &&& request.model == studio.selected_model
                &&& request.seed == studio.pinned_seed
            }
        }),
{
    draft_ids(studio.drafts).index_of_first_ensures(row);
    crate::engine::lemma_found_is_known(studio.clips, row);
}

/// Words that run from a draft of their own are at the head of the list, in a
/// draft that has just been numbered, and every draft there was follows it
/// unchanged.
pub proof fn lemma_words_of_their_own_go_first(studio: StudioView, words: Seq<char>, row: Seq<char>)
    requires
        !(studio.place_of_draft(row) matches Some(at) && studio.drafts[at].text == words),
        studio.place_of_draft(row) is None ==> !(found(studio.clips, row) matches Some(clip)
            && clip.text@ == words),
    ensures
        ({
            let after = studio.run_for(words, row).0;
            &&& after.drafts.len() == studio.drafts.len() + 1
            &&& after.drafts.skip(1) == studio.drafts
            &&& after.next_draft == studio.next_draft + 1
            &&& after.drafts[0].id == draft_id(after.next_draft)
            &&& after.drafts[0].text == words
            &&& after.drafts[0].generating
            &&& after.drafts[0].started
            &&& after.generating_row == Some(after.drafts[0].id)
        }),
{
    let after = studio.run_for(words, row).0;
    assert(after.drafts.skip(1) =~= studio.drafts);
}

/// What waits can run exactly where something waits, there is an engine,
/// nothing else is under way, and the selected model is on disk or is none that
/// the catalogue has.
pub proof fn lemma_when_what_waits_can_run(studio: StudioView)
    ensures
        studio.queued is None ==> studio.queue_request() is None && studio.queue_run() == studio,
        studio.queued is Some ==> (studio.queue_request() is Some <==> studio.engine && !(
        studio.status is Preparing || studio.status is Generating || studio.status is Installing)
            && (studio.model() matches Some(model) ==> model.installed)),
{
}

} // verus!
