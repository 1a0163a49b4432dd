//! Speaking the words: what the engine is asked for, and what becomes of its
//! answer.

use vstd::prelude::*;

use crate::clips::{
    Draft, DraftView, Selected, SelectedView, draft_ids, lemma_drafts_stay_apart,
    lemma_same_ids_stay_sound, numbered,
};
use crate::engine::{
    Clip, EngineError, Generating, Synthesis, SynthesisRequest, find, found, known,
    lemma_found_is_known,
};
use crate::single::Single;
use crate::studio::{Status, StatusView, StudioView, VoiceStudio};
use crate::text;
use crate::text::name_view;

verus! {

/// A request as its characters.
#[verifier::ext_equal]
pub struct RequestView {
    pub text: Seq<char>,
    pub model: Option<Seq<char>>,
    pub voice_id: Option<Seq<char>>,
    pub seed: Option<u32>,
    pub name: Option<Seq<char>>,
    pub clip_id: Option<Seq<char>>,
}

impl View for SynthesisRequest {
    type V = RequestView;

    open spec fn view(&self) -> RequestView {
        RequestView {
            text: self.text@,
            model: name_view(self.model),
            voice_id: name_view(self.voice_id),
            seed: self.seed,
            name: name_view(self.name),
            clip_id: name_view(self.clip_id),
        }
    }
}

pub open spec fn request_view(request: Option<SynthesisRequest>) -> Option<RequestView> {
    match request {
        Some(request) => Some(request@),
        None => None,
    }
}

/// The first of three seeds that is there.
pub open spec fn first_seed(a: Option<u32>, b: Option<u32>, c: Option<u32>) -> Option<u32> {
    if a is Some {
        a
    } else if b is Some {
        b
    } else {
        c
    }
}

impl StudioView {
    /// What a draft asks for.
    pub open spec fn asked_of_draft(self, draft: DraftView, seed: Option<u32>) -> RequestView {
        RequestView {
            text: draft.text,
            model: if draft.model is Some {
                draft.model
            } else {
                self.selected_model
            },
            voice_id: draft.voice_id,
            seed: first_seed(seed, draft.seed, self.pinned_seed),
            name: draft.name,
            clip_id: None,
        }
    }

    /// What another take of a finished clip asks for.
    pub open spec fn asked_of_clip(self, clip: Clip, seed: Option<u32>) -> RequestView {
        RequestView {
            text: clip.text@,
            model: Some(clip.model@),
            voice_id: name_view(clip.voice_id),
            seed: first_seed(seed, None, self.pinned_seed),
            name: Some(clip.name@),
            clip_id: Some(clip.id@),
        }
    }

    /// What speaking the selection would ask for. A draft generates itself; a
    /// finished clip generates another take of the same words, with what it
    /// was made with.
    pub open spec fn wanted(self, seed: Option<u32>) -> Option<RequestView> {
        match self.selected {
            SelectedView::Draft(_) => match self.draft() {
                Some(draft) => Some(self.asked_of_draft(draft, seed)),
                None => None,
            },
            SelectedView::Clip(..) => match self.open_clip() {
                Some(clip) => Some(self.asked_of_clip(clip, seed)),
                None => None,
            },
        }
    }

    /// What the engine is asked to speak: something, where there is an engine,
    /// nothing else is running, the selection has words, and its model is on
    /// disk.
    pub open spec fn request(self, seed: Option<u32>) -> Option<RequestView> {
        if !self.engine || self.is_busy() {
            None
        } else {
            let kept = self.saved();
            match kept.wanted(seed) {
                Some(request) => if kept.ready() && !text::is_blank(request.text) {
                    Some(request)
                } else {
                    None
                },
                None => None,
            }
        }
    }

    /// The selection running.
    pub open spec fn running(self, words: Seq<char>) -> StudioView {
        let marked = match self.draft() {
            Some(draft) => self.with_draft(DraftView { generating: true, ..draft }),
            None => self,
        };
        StudioView {
            status: StatusView::Generating,
            progress: None,
            expected_words: text::words(words),
            generating_row: Some(self.selected.row()),
            ..marked
        }
    }

    /// What is known after asking to speak the selection. Words that cannot be
    /// spoken yet are kept, to run when they can.
    pub open spec fn spoken(self, seed: Option<u32>) -> StudioView {
        if !self.engine || self.is_busy() {
            self
        } else {
            let kept = self.saved();
            match kept.wanted(seed) {
                Some(request) => if text::is_blank(request.text) {
                    kept
                } else if !kept.ready() {
                    StudioView { queued: Some((request.text, kept.selected.row())), ..kept }
                } else {
                    kept.running(request.text)
                },
                None => kept,
            }
        }
    }

    /// A stop has been asked for, where there is an engine to ask.
    pub open spec fn stop_asked(self) -> StudioView {
        StudioView { stopping: self.stopping || self.engine, ..self }
    }

    /// Nothing is generating any more.
    pub open spec fn halted(self) -> StudioView {
        StudioView {
            generating_row: None,
            progress: None,
            drafts: resting(self.drafts),
            ..self
        }
    }

    /// What is known after the engine failed. One that is gone is not the
    /// person's mistake and not something they can act on, so it is started
    /// again rather than reported.
    pub open spec fn failed(
        self,
        error: EngineError,
        message: Seq<char>,
        restarting: Seq<char>,
    ) -> StudioView {
        match error {
            EngineError::NotRunning => StudioView {
                engine: false,
                status: StatusView::Preparing(restarting),
                ..self.halted()
            },
            _ => StudioView { status: StatusView::Failed(message), ..self.halted() },
        }
    }

    /// What the workspace is pointed at once this has been produced.
    pub open spec fn produced_selection(self, made: Synthesis) -> SelectedView {
        match made.clip {
            Some(clip) => SelectedView::Clip(
                clip.id@,
                match clip.spec_latest() {
                    Some(take) => take.id@,
                    None => clip.id@,
                },
            ),
            None => self.selected,
        }
    }

    /// What is known once this has been produced: the draft has become a clip,
    /// so it leaves the list and the workspace is pointed at what it made. What
    /// was being typed elsewhere stays in the draft it was typed into.
    pub open spec fn produced(self, made: Synthesis) -> StudioView {
        StudioView {
            progress: None,
            stopping: false,
            generating_row: None,
            drafts: waiting(self.saved().drafts),
            selected: self.produced_selection(made),
            last: Some(made),
            status: StatusView::Done {
                output: made.output@,
                audio_s: made.audio_s,
                gen_s: made.gen_s,
            },
            ..self
        }
    }

    /// What is known after the engine answered a request to speak. A refusal
    /// and a failure both leave the words where they were.
    pub open spec fn answered(
        self,
        answer: Result<Synthesis, EngineError>,
        restarting: Seq<char>,
    ) -> StudioView {
        match answer {
            Ok(made) => self.produced(made),
            Err(EngineError::NotRunning) => StudioView { stopping: false, ..self }.failed(
                EngineError::NotRunning,
                Seq::empty(),
                restarting,
            ),
            Err(EngineError::Refused(reason)) => StudioView {
                stopping: false,
                status: StatusView::Refused(reason@),
                ..self.halted()
            },
            Err(EngineError::Other(message)) => StudioView {
                stopping: false,
                status: StatusView::Failed(message@),
                ..self.halted()
            },
        }
    }

    /// The clip being read again, or else the one being looked at.
    pub open spec fn clip_read(self) -> Option<Clip> {
        match self.generating_row {
            Some(row) => match found(self.clips, row) {
                Some(clip) => Some(clip),
                None => self.open_clip(),
            },
            None => self.open_clip(),
        }
    }

    /// The words being spoken: those of the draft that is running, or else of
    /// the clip being read again.
    pub open spec fn spoken_words(self) -> Seq<char> {
        match first_running(self.drafts) {
            Some(at) => self.drafts[at].text,
            None => match self.clip_read() {
                Some(clip) => clip.text@,
                None => Seq::empty(),
            },
        }
    }
}

/// The drafts, with none of them running.
pub open spec fn resting(drafts: Seq<DraftView>) -> Seq<DraftView> {
    Seq::new(drafts.len(), |i: int| DraftView { generating: false, ..drafts[i] })
}

/// The drafts that are not running.
pub open spec fn waiting(drafts: Seq<DraftView>) -> Seq<DraftView> {
    drafts.filter(|draft: DraftView| !draft.generating)
}

/// Where the first running draft stands.
pub open spec fn first_running(drafts: Seq<DraftView>) -> Option<int> {
    Seq::new(drafts.len(), |i: int| drafts[i].generating).index_of_first(true)
}

/// The sound a generation left: the stored take rather than the scratch file
/// it was written to, so that the row that is playing can be told.
pub open spec fn sound_of(made: Synthesis) -> Seq<char> {
    match made.clip {
        Some(clip) => match clip.spec_latest() {
            Some(take) => take.path@,
            None => made.output@,
        },
        None => made.output@,
    }
}

fn or_seed(a: Option<u32>, b: Option<u32>, c: Option<u32>) -> (seed: Option<u32>)
    ensures
        seed == first_seed(a, b, c),
{
    if a.is_some() {
        a
    } else if b.is_some() {
        b
    } else {
        c
    }
}

impl VoiceStudio {
    pub(crate) fn ask_draft(&self, draft: &Draft, seed: Option<u32>) -> (request: SynthesisRequest)
        ensures
            request@ == self@.asked_of_draft(draft@, seed),
    {
        let model = if draft.model.is_some() {
            draft.model.clone()
        } else {
            self.selected_model.clone()
        };
        SynthesisRequest {
            text: draft.text.clone(),
            model,
            voice_id: draft.voice_id.clone(),
            seed: or_seed(seed, draft.seed, self.pinned_seed),
            name: draft.name.clone(),
            clip_id: None,
        }
    }

    pub(crate) fn ask_clip(&self, clip: &Clip, seed: Option<u32>) -> (request: SynthesisRequest)
        ensures
            request@ == self@.asked_of_clip(*clip, seed),
    {
        SynthesisRequest {
            text: clip.text.clone(),
            model: Some(clip.model.clone()),
            voice_id: clip.voice_id.clone(),
            seed: or_seed(seed, None, self.pinned_seed),
            name: Some(clip.name.clone()),
            clip_id: Some(clip.id.clone()),
        }
    }

    fn wanted(&self, seed: Option<u32>) -> (request: Option<SynthesisRequest>)
        ensures
            request_view(request) == self@.wanted(seed),
    {
        match &self.selected {
            Selected::Draft(_) => match self.draft() {
                Some(draft) => Some(self.ask_draft(draft, seed)),
                None => None,
            },
            Selected::Clip(..) => match self.clip() {
                Some(clip) => Some(self.ask_clip(clip, seed)),
                None => None,
            },
        }
    }

    fn run(&mut self, words: &str)
        ensures
            final(self)@ == old(self)@.running(words@),
    {
        let row = self.selected.row().to_owned();
        match self.draft_place() {
            Some(at) => {
                self.drafts[at].generating = true;
                assert(self@.drafts =~= old(self)@.running(words@).drafts);
            },
            None => {},
        }
        self.status = Status::Generating;
        self.progress = None;
        self.expected_words = text::word_count(words);
        self.generating_row = Some(row);
    }

    /// Speak whatever is selected. A draft generates itself; a finished clip
    /// generates another take of the same words. `seed` pins the take: `None`
    /// leaves that to the draft, then to the seed that is held, then to the
    /// engine.
    pub fn generate(&mut self, seed: Option<u32>) -> (request: Option<SynthesisRequest>)
        ensures
            final(self)@ == old(self)@.spoken(seed),
            request_view(request) == old(self)@.request(seed),
    {
        if !self.engine || self.busy() {
            return None;
        }
        self.save_open_text();
        let request = match self.wanted(seed) {
            Some(request) => request,
            None => {
                return None;
            },
        };
        if text::blank(request.text.as_str()) {
            return None;
        }
        if !self.model_ready() {
            // Nothing can speak yet. Keep the words and run them when it can.
            self.queued = Some((request.text.clone(), self.selected.row().to_owned()));
            return None;
        }
        self.run(request.text.as_str());
        Some(request)
    }

    fn rest(&mut self)
        ensures
            final(self)@ == (StudioView { drafts: resting(old(self)@.drafts), ..old(self)@ }),
    {
        let mut i: usize = 0;
        let ghost before = *self;
        while i < self.drafts.len()
            invariant
                i <= self.drafts.len(),
                self.drafts.len() == before.drafts.len(),
                self@ == (StudioView { drafts: self@.drafts, ..before@ }),
                forall|j: int|
                    0 <= j < self.drafts.len() ==> #[trigger] self@.drafts[j] == (if j < i {
                        resting(before@.drafts)[j]
                    } else {
                        before@.drafts[j]
                    }),
            decreases self.drafts.len() - i,
        {
            let ghost was = *self;
            self.drafts[i].generating = false;
            assert(forall|j: int|
                0 <= j < self.drafts.len() && j != i ==> #[trigger] self@.drafts[j]
                    == was@.drafts[j]);
            assert(self@.drafts[i as int] == (DraftView {
                generating: false,
                ..was@.drafts[i as int]
            }));
            i = i + 1;
        }
        assert(self@.drafts =~= resting(before@.drafts));
    }

    /// Whatever went wrong, nothing is generating any more. Whether the engine
    /// has to be started again.
    pub fn engine_failed(&mut self, error: EngineError, message: &str, restarting: &str) -> (again:
        bool)
        ensures
            final(self)@ == old(self)@.failed(error, message@, restarting@),
            again == (error is NotRunning),
    {
        self.generating_row = None;
        self.progress = None;
        self.rest();
        match error {
            EngineError::NotRunning => {
                self.engine = false;
                self.status = Status::Preparing(restarting.to_owned());
                true
            },
            _ => {
                self.status = Status::Failed(message.to_owned());
                false
            },
        }
    }

    /// Drop the drafts that have become clips.
    fn drop_running(&mut self)
        ensures
            final(self)@ == (StudioView { drafts: waiting(old(self)@.drafts), ..old(self)@ }),
    {
        let mut i: usize = 0;
        let ghost before = *self;
        let ghost stays = |draft: DraftView| !draft.generating;
        while i < self.drafts.len()
            invariant
                i <= self.drafts.len(),
                stays == (|draft: DraftView| !draft.generating),
                self@ == (StudioView { drafts: self@.drafts, ..before@ }),
                self@.drafts.filter(stays) == before@.drafts.filter(stays),
                forall|j: int| 0 <= j < i ==> stays(#[trigger] self@.drafts[j]),
            decreases self.drafts.len() - i,
        {
            if self.drafts[i].generating {
                let ghost was = self@.drafts;
                self.drafts.remove(i);
                proof {
                    assert(self@.drafts =~= was.remove(i as int));
                    lemma_dropping_what_goes(was, stays, i as int);
                }
            } else {
                i = i + 1;
            }
        }
        proof {
            lemma_keeping_what_stays(self@.drafts, stays);
        }
    }

    /// The draft has become a clip: drop it from the list and point the
    /// workspace at what it produced. What comes back is the sound to load.
    fn produce(&mut self, made: Synthesis) -> (sound: (String, Single))
        ensures
            final(self)@ == old(self)@.produced(made),
            sound.0@ == sound_of(made),
            sound.1 == made.audio_s,
    {
        self.save_open_text();
        self.progress = None;
        self.stopping = false;
        self.generating_row = None;
        self.drop_running();
        let mut path = made.output.clone();
        match &made.clip {
            Some(clip) => {
                let take = match clip.latest() {
                    Some(take) => {
                        path = take.path.clone();
                        take.id.clone()
                    },
                    None => clip.id.clone(),
                };
                self.selected = Selected::Clip(clip.id.clone(), take);
            },
            None => {},
        }
        self.status = Status::Done {
            output: made.output.clone(),
            audio_s: made.audio_s,
            gen_s: made.gen_s,
        };
        let seconds = made.audio_s;
        self.last = Some(made);
        (path, seconds)
    }

    fn stand_down(&mut self, status: Status)
        ensures
            final(self)@ == (StudioView {
                stopping: false,
                status: status@,
                ..old(self)@.halted()
            }),
    {
        self.progress = None;
        self.stopping = false;
        self.generating_row = None;
        self.rest();
        self.status = status;
    }

    /// Take in what the engine made of the request to speak. What comes back
    /// is the sound to load, where there is one, and whether the engine has to
    /// be started again.
    pub fn synthesized(&mut self, answer: Result<Synthesis, EngineError>, restarting: &str) -> (then:
        (Option<(String, Single)>, bool))
        ensures
            final(self)@ == old(self)@.answered(answer, restarting@),
            match (then.0, answer) {
                (Some((path, seconds)), Ok(made)) => path@ == sound_of(made) && seconds
                    == made.audio_s,
                (None, Err(_)) => true,
                _ => false,
            },
            then.1 == (answer matches Err(error) && error is NotRunning),
    {
        match answer {
            Ok(made) => (Some(self.produce(made)), false),
            Err(EngineError::NotRunning) => {
                self.stopping = false;
                (None, self.engine_failed(EngineError::NotRunning, "", restarting))
            },
            Err(EngineError::Refused(reason)) => {
                self.stand_down(Status::Refused(reason));
                (None, false)
            },
            Err(EngineError::Other(message)) => {
                self.stand_down(Status::Failed(message));
                (None, false)
            },
        }
    }

    /// Ask for the running generation to stop. It ends at the next boundary
    /// rather than in the middle of a sentence. Whether there is an engine to
    /// ask.
    pub fn cancel_generation(&mut self) -> (ask: bool)
        ensures
            ask == old(self)@.engine,
            final(self)@ == old(self)@.stop_asked(),
    {
        if self.engine {
            self.stopping = true;
        }
        self.engine
    }

    /// Take in how far the generation has got. Whether to ask again: the
    /// asking ends with the generation.
    pub fn progressed(&mut self, reported: Option<Generating>) -> (again: bool)
        ensures
            again == (old(self)@.status is Generating),
            final(self)@ == (StudioView { progress: reported, ..old(self)@ }),
    {
        self.progress = reported;
        self.generating()
    }

    /// What seconds still to run are worked out from: seconds elapsed, chunks
    /// finished, chunks still to come. Chunks are counted rather than
    /// estimated, so the figure cannot run past the end. `None` until the
    /// first chunk lands, because until then there is no measured rate.
    pub fn seconds_left(&self) -> (left: Option<(Single, u32, u32)>)
        ensures
            left == self@.chunks_left(),
    {
        match &self.progress {
            Some(progress) => if progress.chunks_done > 0 && progress.chunks
                > progress.chunks_done && progress.elapsed_s.is_positive() {
                Some(
                    (
                        progress.elapsed_s,
                        progress.chunks_done,
                        progress.chunks - progress.chunks_done,
                    ),
                )
            } else {
                None
            },
            None => None,
        }
    }

    /// How far the running generation is: chunks finished, of how many.
    pub fn generation_fraction(&self) -> (done: Option<(u32, u32)>)
        ensures
            done == (match self@.progress {
                Some(progress) => if progress.chunks > 0 {
                    Some((progress.chunks_done, progress.chunks))
                } else {
                    None
                },
                None => None,
            }),
    {
        match &self.progress {
            Some(progress) => if progress.chunks > 0 {
                Some((progress.chunks_done, progress.chunks))
            } else {
                None
            },
            None => None,
        }
    }

    fn clip_read(&self) -> (clip: Option<&Clip>)
        ensures
            match clip {
                Some(clip) => self@.clip_read() == Some(*clip),
                None => self@.clip_read() is None,
            },
    {
        match &self.generating_row {
            Some(row) => match find(&self.clips, row.as_str()) {
                Some(clip) => Some(clip),
                None => self.clip(),
            },
            None => self.clip(),
        }
    }

    /// The words currently being spoken, which belong to the draft or the clip
    /// that is running rather than to whatever is selected now.
    pub fn running_text(&self) -> (words: String)
        ensures
            words@ == self@.spoken_words(),
    {
        let ghost flags = Seq::new(self@.drafts.len(), |i: int| self@.drafts[i].generating);
        proof {
            flags.index_of_first_ensures(true);
        }
        let mut i: usize = 0;
        while i < self.drafts.len()
            invariant
                i <= self.drafts.len(),
                flags == Seq::new(self@.drafts.len(), |i: int| self@.drafts[i].generating),
                forall|j: int| 0 <= j < i ==> !#[trigger] flags[j],
            decreases self.drafts.len() - i,
        {
            if self.drafts[i].generating {
                proof {
                    flags.index_of_first_ensures(true);
                    assert(flags[i as int]);
                }
                return self.drafts[i].text.clone();
            }
            i = i + 1;
        }
        proof {
            reveal_strlit("");
        }
        match self.clip_read() {
            Some(clip) => clip.text.clone(),
            None => "".to_owned(),
        }
    }
}

impl StudioView {
    pub open spec fn chunks_left(self) -> Option<(Single, u32, u32)> {
        match self.progress {
            Some(progress) => if progress.chunks_done > 0 && progress.chunks > progress.chunks_done
                && progress.elapsed_s.spec_is_positive() {
                Some(
                    (
                        progress.elapsed_s,
                        progress.chunks_done,
                        (progress.chunks - progress.chunks_done) as u32,
                    ),
                )
            } else {
                None
            },
            None => None,
        }
    }
}

proof fn lemma_dropping_what_goes(drafts: Seq<DraftView>, stays: spec_fn(DraftView) -> bool, at: int)
    requires
        0 <= at < drafts.len(),
        !stays(drafts[at]),
    ensures
        drafts.remove(at).filter(stays) == drafts.filter(stays),
{
    let (front, back) = (drafts.take(at), drafts.skip(at + 1));
    let gone = seq![drafts[at]];
    assert(drafts =~= front + gone + back);
    assert(drafts.remove(at) =~= front + back);
    Seq::filter_distributes_over_add(front + gone, back, stays);
    Seq::filter_distributes_over_add(front, gone, stays);
    Seq::filter_distributes_over_add(front, back, stays);
    assert(gone.filter(stays) =~= Seq::empty()) by {
        reveal(Seq::filter);
        assert(gone.drop_last() =~= Seq::empty());
        assert(gone.drop_last().filter(stays) =~= Seq::empty());
    }
}

proof fn lemma_keeping_what_stays(drafts: Seq<DraftView>, stays: spec_fn(DraftView) -> bool)
    requires
        forall|i: int| 0 <= i < drafts.len() ==> stays(#[trigger] drafts[i]),
    ensures
        drafts.filter(stays) == drafts,
    decreases drafts.len(),
{
    reveal(Seq::filter);
    if drafts.len() > 0 {
        lemma_keeping_what_stays(drafts.drop_last(), stays);
        assert(drafts.drop_last().push(drafts.last()) =~= drafts);
    }
}

/// The engine is asked for something exactly when something starts running,
/// and what runs is the row that was selected.
pub proof fn lemma_what_is_asked_for_is_what_runs(studio: StudioView, seed: Option<u32>)
    requires
        !studio.is_busy(),
    ensures
        studio.request(seed) is Some <==> studio.spoken(seed).status is Generating,
        studio.request(seed) is Some ==> {
            &&& studio.spoken(seed).generating_row == Some(studio.selected.row())
            &&& studio.spoken(seed).shows_generation()
        },
{
}

/// While anything is running, asking again asks for nothing and changes
/// nothing.
pub proof fn lemma_one_thing_runs_at_a_time(studio: StudioView, seed: Option<u32>)
    requires
        studio.is_busy(),
    ensures
        studio.request(seed) is None,
        studio.spoken(seed) == studio,
{
}

/// Words asked for before a model is ready are held: they are queued, they are
/// still in the draft, and nothing runs.
pub proof fn lemma_words_wait_for_a_model(studio: StudioView, seed: Option<u32>)
    requires
        studio.engine && !studio.is_busy(),
        studio.draft() is Some,
        !text::is_blank(studio.text),
        !studio.ready(),
    ensures
        studio.request(seed) is None,
        studio.spoken(seed).queued == Some((studio.text, studio.selected.row())),
        studio.spoken(seed).draft() matches Some(draft) && draft.text == studio.text,
{
    lemma_saved_draft(studio);
}

proof fn lemma_saved_draft(studio: StudioView)
    requires
        studio.draft() is Some,
    ensures
        studio.saved().draft() == Some(studio.draft()->0.holding(studio.text)),
        studio.saved().ready() == studio.ready(),
{
    let id = studio.selected->Draft_0;
    draft_ids(studio.drafts).index_of_first_ensures(id);
    assert(draft_ids(studio.saved().drafts) =~= draft_ids(studio.drafts));
}

/// What a draft asks for is what stands in the composer, in the draft's voice,
/// with the seed that was given where one was.
pub proof fn lemma_a_draft_speaks_what_was_typed(studio: StudioView, seed: Option<u32>)
    requires
        studio.draft() is Some,
    ensures
        studio.request(seed) matches Some(request) ==> {
            &&& request.text == studio.text
            &&& request.voice_id == studio.draft()->0.voice_id
            &&& request.clip_id is None
            &&& seed is Some ==> request.seed == seed
        },
{
    lemma_saved_draft(studio);
}

/// Generating a finished clip again adds a take to that clip, of the same
/// words, in the voice and with the model it was made with.
pub proof fn lemma_generating_again_keeps_the_clip(studio: StudioView, seed: Option<u32>)
    requires
        studio.open_clip() is Some,
    ensures
        studio.request(seed) matches Some(request) ==> {
            let clip = studio.open_clip()->0;
            &&& request.clip_id == Some(clip.id@)
            &&& request.text == clip.text@
            &&& request.voice_id == name_view(clip.voice_id)
            &&& request.model == Some(clip.model@)
        },
{
}

/// Whatever went wrong with the engine, nothing is generating afterwards.
pub proof fn lemma_nothing_generates_after_a_failure(
    studio: StudioView,
    error: EngineError,
    message: Seq<char>,
    restarting: Seq<char>,
)
    ensures
        ({
            let after = studio.failed(error, message, restarting);
            &&& after.generating_row is None
            &&& after.progress is None
            &&& !(after.status is Generating)
            &&& forall|i: int|
                0 <= i < after.drafts.len() ==> !(#[trigger] after.drafts[i]).generating
        }),
{
}

/// However the engine answers, the run is over.
pub proof fn lemma_an_answer_ends_the_run(
    studio: StudioView,
    answer: Result<Synthesis, EngineError>,
    restarting: Seq<char>,
)
    ensures
        ({
            let after = studio.answered(answer, restarting);
            &&& after.generating_row is None
            &&& after.progress is None
            &&& !after.stopping
            &&& !(after.status is Generating)
            &&& forall|i: int|
                0 <= i < after.drafts.len() ==> !(#[trigger] after.drafts[i]).generating
        }),
{
    if answer is Ok {
        let stays = |draft: DraftView| !draft.generating;
        let drafts = studio.saved().drafts;
        assert forall|i: int| 0 <= i < drafts.filter(stays).len() implies !(
        #[trigger] drafts.filter(stays)[i]).generating by {
            drafts.lemma_filter_pred(stays, i);
        }
    }
}

/// A refusal or a failure loses no words: every draft is still there with what
/// it held, and the workspace still points where it did.
pub proof fn lemma_a_refusal_loses_no_words(
    studio: StudioView,
    error: EngineError,
    restarting: Seq<char>,
)
    ensures
        ({
            let after = studio.answered(Err::<Synthesis, EngineError>(error), restarting);
            &&& after.selected == studio.selected
            &&& after.text == studio.text
            &&& after.drafts.len() == studio.drafts.len()
            &&& forall|i: int|
                0 <= i < studio.drafts.len() ==> #[trigger] after.drafts[i] == (DraftView {
                    generating: false,
                    ..studio.drafts[i]
                })
        }),
{
}

/// A finished generation takes only what was running out of the list: every
/// other draft stays, with what stood in the composer where that is the one
/// being written.
pub proof fn lemma_other_drafts_stay(studio: StudioView, made: Synthesis, at: int)
    requires
        0 <= at < studio.drafts.len(),
        !studio.drafts[at].generating,
    ensures
        studio.produced(made).drafts.contains(
            if studio.draft_place() == Some(at) {
                studio.drafts[at].holding(studio.text)
            } else {
                studio.drafts[at]
            },
        ),
{
    if studio.draft_place() is Some {
        draft_ids(studio.drafts).index_of_first_ensures(studio.selected->Draft_0);
    }
    studio.saved().drafts.lemma_filter_contains(|draft: DraftView| !draft.generating, at);
}

/// The words being spoken belong to the run: pointing the workspace elsewhere
/// leaves them as they are, while the draft or the clip that runs is there.
pub proof fn lemma_the_words_belong_to_the_run(studio: StudioView, elsewhere: SelectedView)
    requires
        first_running(studio.drafts) is Some || (studio.generating_row matches Some(row) && known(
            studio.clips,
            row,
        )),
    ensures
        (StudioView { selected: elsewhere, ..studio }).spoken_words() == studio.spoken_words(),
{
    if studio.generating_row is Some {
        lemma_found_is_known(studio.clips, studio.generating_row->0);
    }
}

/// A draft that waits is still the first with its id once what runs has left
/// the list.
pub proof fn lemma_the_first_that_waits(drafts: Seq<DraftView>, at: int)
    requires
        0 <= at < drafts.len(),
        !drafts[at].generating,
        draft_ids(drafts).index_of_first(drafts[at].id) == Some(at),
    ensures
        draft_ids(waiting(drafts)).index_of_first(drafts[at].id) matches Some(place)
            && waiting(drafts)[place] == drafts[at],
{
    let stays = |draft: DraftView| !draft.generating;
    let (front, one, back) = (drafts.take(at), seq![drafts[at]], drafts.skip(at + 1));
    let id = drafts[at].id;
    assert(drafts =~= front + one + back);
    Seq::filter_distributes_over_add(front + one, back, stays);
    Seq::filter_distributes_over_add(front, one, stays);
    lemma_keeping_what_stays(one, stays);
    let left = waiting(front);
    let place = left.len() as int;
    assert(waiting(drafts) =~= left + one + waiting(back));
    draft_ids(drafts).index_of_first_ensures(id);
    lemma_waiting_in_order(front);
    assert forall|i: int| 0 <= i < place implies draft_ids(waiting(drafts))[i] != id by {
        assert(waiting(drafts)[i] == left[i]);
        let k = choose|k: int| 0 <= k < front.len() && front[k] == left[i];
        assert(draft_ids(drafts)[k] == drafts[k].id);
    }
    draft_ids(waiting(drafts)).index_of_first_ensures(id);
    assert(draft_ids(waiting(drafts))[place] == id);
}

/// What is left is only said once a chunk has been finished, and what is
/// finished and what is left come to the whole.
pub proof fn lemma_what_is_left_never_runs_past_the_end(studio: StudioView)
    ensures
        studio.chunks_left() matches Some((elapsed, done, left)) ==> {
            &&& studio.progress matches Some(progress) && done + left == progress.chunks
            &&& done > 0
            &&& left > 0
            &&& elapsed.spec_is_positive()
        },
{
}

/// Speaking, and whatever comes of it, leaves drafts that can be told apart.
pub proof fn lemma_speaking_keeps_drafts_apart(
    studio: StudioView,
    seed: Option<u32>,
    answer: Result<Synthesis, EngineError>,
    restarting: Seq<char>,
)
    requires
        studio.sound(),
    ensures
        studio.spoken(seed).sound(),
        studio.answered(answer, restarting).sound(),
{
    let kept = studio.saved();
    lemma_drafts_stay_apart(studio, Seq::empty(), Seq::empty(), Seq::empty(), Seq::empty());
    if kept.wanted(seed) is Some {
        let words = kept.wanted(seed)->0.text;
        if kept.draft() is Some {
            draft_ids(kept.drafts).index_of_first_ensures(kept.selected->Draft_0);
        }
        assert(draft_ids(kept.running(words).drafts) =~= draft_ids(kept.drafts));
        lemma_same_ids_stay_sound(kept, kept.running(words));
        lemma_same_ids_stay_sound(
            kept,
            StudioView { queued: Some((words, kept.selected.row())), ..kept },
        );
    }
    match answer {
        Ok(made) => {
            lemma_fewer_drafts_stay_apart(kept, studio.produced(made));
        },
        Err(_) => {
            let after = studio.answered(answer, restarting);
            assert(draft_ids(after.drafts) =~= draft_ids(studio.drafts));
            lemma_same_ids_stay_sound(studio, after);
        },
    }
}

proof fn lemma_fewer_drafts_stay_apart(before: StudioView, after: StudioView)
    requires
        before.sound(),
        after.next_draft == before.next_draft,
        after.drafts == waiting(before.drafts),
    ensures
        after.sound(),
{
    lemma_waiting_in_order(before.drafts);
    assert forall|i: int| 0 <= i < after.drafts.len() implies numbered(
        #[trigger] after.drafts[i].id,
        after.next_draft,
    ) by {
        let k = choose|k: int| 0 <= k < before.drafts.len() && before.drafts[k] == after.drafts[i];
        assert(numbered(before.drafts[k].id, before.next_draft));
    }
    assert forall|i: int, j: int| 0 <= i < j < after.drafts.len() implies #[trigger] after.drafts[i].id
        != #[trigger] after.drafts[j].id by {
        let (k, l) = choose|k: int, l: int|
            0 <= k < l < before.drafts.len() && before.drafts[k] == after.drafts[i]
                && before.drafts[l] == after.drafts[j];
        assert(before.drafts[k].id != before.drafts[l].id);
    }
}

/// What waits is taken from the list in its order.
proof fn lemma_waiting_in_order(drafts: Seq<DraftView>)
    ensures
        forall|i: int|
            0 <= i < waiting(drafts).len() ==> exists|k: int|
                0 <= k < drafts.len() && drafts[k] == #[trigger] waiting(drafts)[i],
        forall|i: int, j: int|
            0 <= i < j < waiting(drafts).len() ==> exists|k: int, l: int|
                0 <= k < l < drafts.len() && drafts[k] == #[trigger] waiting(drafts)[i] && drafts[l]
                    == #[trigger] waiting(drafts)[j],
    decreases drafts.len(),
{
    reveal(Seq::filter);
    if drafts.len() > 0 {
        let front = drafts.drop_last();
        lemma_waiting_in_order(front);
        let last = drafts.len() - 1;
        assert forall|i: int| 0 <= i < waiting(drafts).len() implies exists|k: int|
            0 <= k < drafts.len() && drafts[k] == #[trigger] waiting(drafts)[i] by {
            if i < waiting(front).len() {
                let k = choose|k: int| 0 <= k < front.len() && front[k] == waiting(front)[i];
                assert(drafts[k] == waiting(drafts)[i]);
            } else {
                assert(drafts[last] == waiting(drafts)[i]);
            }
        }
        assert forall|i: int, j: int| 0 <= i < j < waiting(drafts).len() implies exists|
            k: int,
            l: int,
        |
            0 <= k < l < drafts.len() && drafts[k] == #[trigger] waiting(drafts)[i] && drafts[l]
                == #[trigger] waiting(drafts)[j] by {
            if j < waiting(front).len() {
                let (k, l) = choose|k: int, l: int|
                    0 <= k < l < front.len() && front[k] == waiting(front)[i] && front[l] == waiting(
                        front,
                    )[j];
                assert(drafts[k] == waiting(drafts)[i] && drafts[l] == waiting(drafts)[j]);
            } else {
                let k = choose|k: int| 0 <= k < front.len() && front[k] == waiting(front)[i];
                assert(drafts[k] == waiting(drafts)[i] && drafts[last] == waiting(drafts)[j]);
            }
        }
    }
}

/// The engine is asked to speak exactly when it is there, nothing else is
/// running, the selected model is on disk, and what is open has words: those in
/// the composer for a draft, and the clip's own for a clip.
pub proof fn lemma_when_the_engine_is_asked(studio: StudioView, seed: Option<u32>)
    ensures
        studio.draft() is Some ==> (studio.request(seed) is Some <==> studio.engine
            && !studio.is_busy() && studio.ready() && !text::is_blank(studio.text)),
        studio.open_clip() matches Some(clip) ==> (studio.request(seed) is Some <==> studio.engine
            && !studio.is_busy() && studio.ready() && !text::is_blank(clip.text@)),
        studio.draft() is None && studio.open_clip() is None ==> studio.request(seed) is None,
{
    if studio.draft() is Some {
        lemma_saved_draft(studio);
    }
}

/// A draft is spoken with its own settings: its voice, its name, its own model
/// or else the selected one, and the seed that was given, or else its own, or
/// else the one that is held. It is made into a clip of its own. That is the
/// voice and the model in force.
pub proof fn lemma_a_draft_is_spoken_with_its_own_settings(studio: StudioView, seed: Option<u32>)
    requires
        studio.draft() is Some,
    ensures
        studio.request(seed) matches Some(request) ==> {
            let draft = studio.draft()->0;
            &&& request.text == studio.text
            &&& request.voice_id == draft.voice_id
            &&& request.voice_id == studio.voice_in_force()
            &&& draft.model is Some ==> request.model == draft.model
            &&& draft.model is None ==> request.model == studio.selected_model
            &&& request.model == studio.model_in_force()
            &&& request.name == draft.name
            &&& request.clip_id is None
            &&& seed is Some ==> request.seed == seed
            &&& seed is None && draft.seed is Some ==> request.seed == draft.seed
            &&& seed is None && draft.seed is None ==> request.seed == studio.pinned_seed
        },
{
    lemma_saved_draft(studio);
}

/// A clip is read again as it was made: the same words and name, in its voice
/// and with its model, as another take of it. The seed is the one that was
/// given, or else the one that is held.
pub proof fn lemma_a_clip_is_read_again_as_it_was_made(studio: StudioView, seed: Option<u32>)
    requires
        studio.open_clip() is Some,
    ensures
        studio.request(seed) matches Some(request) ==> {
            let clip = studio.open_clip()->0;
            &&& request.text == clip.text@
            &&& request.voice_id == name_view(clip.voice_id)
            &&& request.voice_id == studio.voice_in_force()
            &&& request.model == Some(clip.model@)
            &&& request.model == studio.model_in_force()
            &&& request.name == Some(clip.name@)
            &&& request.clip_id == Some(clip.id@)
            &&& seed is Some ==> request.seed == seed
            &&& seed is None ==> request.seed == studio.pinned_seed
        },
{
}

/// Starting to speak marks what is open as running, and no more: its draft, if
/// it has one, runs with the words that were typed; how many words are awaited
/// is how many are spoken; and every other draft stays as it is.
pub proof fn lemma_speaking_marks_what_is_open(studio: StudioView, seed: Option<u32>)
    ensures
        studio.request(seed) matches Some(request) ==> {
            let after = studio.spoken(seed);
            &&& after.status is Generating
            &&& after.progress is None
            &&& after.expected_words == text::words(request.text)
            &&& after.generating_row == Some(studio.selected.row())
            &&& after.drafts.len() == studio.drafts.len()
            &&& after == (StudioView {
                drafts: after.drafts,
                status: after.status,
                progress: after.progress,
                expected_words: after.expected_words,
                generating_row: after.generating_row,
                ..studio
            })
            &&& studio.draft() is None ==> after.drafts == studio.drafts
            &&& studio.draft_place() matches Some(at) ==> {
                &&& after.drafts[at].generating
                &&& after.drafts[at].started
                &&& after.drafts[at] == (DraftView {
                    text: studio.text,
                    started: true,
                    generating: true,
                    ..studio.drafts[at]
                })
                &&& forall|j: int|
                    0 <= j < studio.drafts.len() && j != at ==> #[trigger] after.drafts[j]
                        == studio.drafts[j]
            }
        },
        studio.request(seed) is None ==> {
            let after = studio.spoken(seed);
            &&& after.status == studio.status
            &&& after.generating_row == studio.generating_row
            &&& after.progress == studio.progress
            &&& after == (StudioView { drafts: after.drafts, queued: after.queued, ..studio })
            &&& after.drafts == studio.drafts || after.drafts == studio.saved().drafts
        },
{
    if studio.draft() is Some {
        lemma_saved_draft(studio);
        draft_ids(studio.drafts).index_of_first_ensures(studio.selected->Draft_0);
        assert(draft_ids(studio.saved().drafts) =~= draft_ids(studio.drafts));
    }
}

/// Words are held exactly where the model is what is missing: with the words
/// that would have been spoken, and the row they were asked for.
pub proof fn lemma_only_a_missing_model_holds_words(studio: StudioView, seed: Option<u32>)
    ensures
        studio.spoken(seed).queued != studio.queued ==> {
            &&& studio.engine
            &&& !studio.is_busy()
            &&& !studio.ready()
        },
        studio.engine && !studio.is_busy() && !studio.ready() ==> {
            &&& studio.draft() is Some && !text::is_blank(studio.text) ==> studio.spoken(seed).queued
                == Some((studio.text, studio.selected.row()))
            &&& (studio.open_clip() matches Some(clip) && !text::is_blank(clip.text@))
                ==> studio.spoken(seed).queued == Some(
                (studio.open_clip()->0.text@, studio.open_clip()->0.id@),
            )
        },
{
    if studio.draft() is Some {
        lemma_saved_draft(studio);
    }
    if studio.open_clip() is Some {
        lemma_found_is_known(studio.clips, studio.selected.row());
    }
}

/// How a run that did not succeed is told: an engine that is gone is started
/// again, a refusal says why and is not a failure, and anything else is a
/// failure in its own words. Nothing but the run changes, and a stop that was
/// asked for is over.
pub proof fn lemma_what_went_wrong_is_told(
    studio: StudioView,
    error: EngineError,
    restarting: Seq<char>,
)
    ensures
        ({
            let after = studio.answered(Err::<Synthesis, EngineError>(error), restarting);
            &&& error is NotRunning ==> !after.engine && after.status == StatusView::Preparing(
                restarting,
            )
            &&& !(error is NotRunning) ==> after.engine == studio.engine
            &&& error matches EngineError::Refused(why) ==> after.status == StatusView::Refused(why@)
            &&& error matches EngineError::Other(why) ==> after.status == StatusView::Failed(why@)
            &&& !after.stopping
            &&& after == (StudioView {
                engine: after.engine,
                status: after.status,
                stopping: after.stopping,
                generating_row: None,
                progress: None,
                drafts: after.drafts,
                ..studio
            })
        }),
{
}

/// What else the engine failed at is told the same way, with the words that
/// were given for it, and leaves a stop that was asked for standing.
pub proof fn lemma_a_failure_is_told_in_its_words(
    studio: StudioView,
    error: EngineError,
    message: Seq<char>,
    restarting: Seq<char>,
)
    ensures
        ({
            let after = studio.failed(error, message, restarting);
            &&& error is NotRunning ==> !after.engine && after.status == StatusView::Preparing(
                restarting,
            )
            &&& !(error is NotRunning) ==> after.engine == studio.engine && after.status
                == StatusView::Failed(message)
            &&& after.drafts.len() == studio.drafts.len()
            &&& forall|i: int|
                0 <= i < studio.drafts.len() ==> #[trigger] after.drafts[i] == (DraftView {
                    generating: false,
                    ..studio.drafts[i]
                })
            &&& after == (StudioView {
                engine: after.engine,
                status: after.status,
                generating_row: None,
                progress: None,
                drafts: after.drafts,
                ..studio
            })
        }),
{
}

/// What was made is what is open, heard and told: the workspace is pointed at
/// the newest take of the clip that came back, the sound is that take's, and
/// the status says what the engine said. Without a clip the workspace stays
/// where it is and the sound is the file that was written.
pub proof fn lemma_what_was_made_is_opened(studio: StudioView, made: Synthesis)
    ensures
        ({
            let after = studio.produced(made);
            &&& after.status == (StatusView::Done {
                output: made.output@,
                audio_s: made.audio_s,
                gen_s: made.gen_s,
            })
            &&& after.last == Some(made)
            &&& made.clip is None ==> after.selected == studio.selected && sound_of(made)
                == made.output@
            &&& made.clip matches Some(clip) ==> {
                &&& after.selected is Clip
                &&& after.selected->Clip_0 == clip.id@
                &&& clip.takes@.len() > 0 ==> {
                    &&& after.selected->Clip_1 == clip.takes@.last().id@
                    &&& sound_of(made) == clip.takes@.last().path@
                }
                &&& clip.takes@.len() == 0 ==> sound_of(made) == made.output@
                    && after.selected->Clip_1 == clip.id@
            }
            &&& after == (StudioView {
                progress: None,
                stopping: false,
                generating_row: None,
                drafts: after.drafts,
                selected: after.selected,
                last: after.last,
                status: after.status,
                ..studio
            })
        }),
{
}

/// Only what was running leaves the list when it has been made: each draft that
/// is left was there before and was not running.
pub proof fn lemma_what_ran_leaves_the_list(studio: StudioView, made: Synthesis, at: int)
    requires
        0 <= at < studio.produced(made).drafts.len(),
    ensures
        !studio.produced(made).drafts[at].generating,
        studio.saved().drafts.contains(studio.produced(made).drafts[at]),
{
    let stays = |draft: DraftView| !draft.generating;
    studio.saved().drafts.lemma_filter_pred(stays, at);
    lemma_waiting_in_order(studio.saved().drafts);
}

/// What is left to run can be told as soon as one chunk is done, time has
/// passed and another is to come, and then it is.
pub proof fn lemma_when_what_is_left_is_told(studio: StudioView)
    ensures
        studio.chunks_left() is Some <==> (studio.progress matches Some(progress) && {
            &&& progress.chunks_done > 0
            &&& progress.chunks > progress.chunks_done
            &&& progress.elapsed_s.spec_is_positive()
        }),
        studio.chunks_left() matches Some((elapsed, done, left)) ==> {
            &&& elapsed == studio.progress->0.elapsed_s
            &&& done == studio.progress->0.chunks_done
            &&& left + done == studio.progress->0.chunks
        },
{
}

/// The words being spoken are those of the draft that runs; with none running,
/// those of the clip whose row it is, or else of the clip that is open.
pub proof fn lemma_whose_words_are_being_spoken(studio: StudioView, at: int)
    ensures
        0 <= at < studio.drafts.len() && studio.drafts[at].generating && (forall|j: int|
            0 <= j < at ==> !(#[trigger] studio.drafts[j]).generating) ==> studio.spoken_words()
            == studio.drafts[at].text,
        (forall|j: int| 0 <= j < studio.drafts.len() ==> !(#[trigger] studio.drafts[j]).generating)
            ==> {
            &&& (studio.generating_row matches Some(row) && known(studio.clips, row)) ==> exists|
                i: int,
            |
                0 <= i < studio.clips.len() && (#[trigger] studio.clips[i]).id@
                    == studio.generating_row->0 && studio.spoken_words() == studio.clips[i].text@
            &&& !(studio.generating_row matches Some(row) && known(studio.clips, row)) ==> {
                &&& studio.open_clip() matches Some(clip) ==> studio.spoken_words() == clip.text@
                &&& studio.open_clip() is None ==> studio.spoken_words().len() == 0
            }
        },
{
    let flags = Seq::new(studio.drafts.len(), |i: int| studio.drafts[i].generating);
    flags.index_of_first_ensures(true);
    if 0 <= at < studio.drafts.len() && studio.drafts[at].generating && (forall|j: int|
        0 <= j < at ==> !(#[trigger] studio.drafts[j]).generating) {
        assert(flags[at]);
        let first = flags.index_of_first(true)->0;
        assert(studio.drafts[first].generating);
    }
    if studio.generating_row is Some {
        let row = studio.generating_row->0;
        lemma_found_is_known(studio.clips, row);
        if known(studio.clips, row) {
            let clip = found(studio.clips, row)->0;
            let i = choose|i: int| 0 <= i < studio.clips.len() && studio.clips[i] == clip;
            assert(studio.clips[i].id@ == row);
        }
    }
}

/// Asking to stop is not stopping: what runs goes on running until the engine
/// answers, and only then is the asking over.
pub proof fn lemma_asking_to_stop_is_not_stopping(
    studio: StudioView,
    answer: Result<Synthesis, EngineError>,
    restarting: Seq<char>,
)
    ensures
        studio.engine ==> studio.stop_asked().stopping,
        !studio.engine ==> studio.stop_asked() == studio,
        studio.stop_asked() == (StudioView { stopping: studio.stop_asked().stopping, ..studio }),
        !studio.stop_asked().answered(answer, restarting).stopping,
{
}

/// What is read off a request is what is in it.
pub proof fn lemma_what_is_read_off_a_request(request: SynthesisRequest)
    ensures
        request@.text == request.text@,
        request@.seed == request.seed,
        request.model matches Some(model) ==> request@.model == Some(model@),
        request.voice_id matches Some(voice) ==> request@.voice_id == Some(voice@),
        request.name matches Some(name) ==> request@.name == Some(name@),
        request.clip_id matches Some(clip) ==> request@.clip_id == Some(clip@),
        request.model is None ==> request@.model is None,
        request.voice_id is None ==> request@.voice_id is None,
        request.name is None ==> request@.name is None,
        request.clip_id is None ==> request@.clip_id is None,
{
}

} // verus!
