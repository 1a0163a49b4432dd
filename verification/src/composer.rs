//! The composer: the clip's name, its sound, its words, and what can be done
//! with them. One card, whatever the state, so the buttons underneath never
//! move.

use vstd::prelude::*;
use vstd::string::*;

use crate::clips::Selected;
use crate::engine::{Clip, find, found};
use crate::single::Single;
use crate::studio::{Status, StatusView, StudioView, VoiceStudio};
use crate::text;
use crate::workspace::{clock, duration, is_timed, shows_clock, spec_duration};

verus! {

/// One line under the name: what this clip is set up with, or what it was made
/// with once it exists.
#[derive(Clone, Debug)]
pub enum Subtitle {
    Made { length: String, at: String, voice: String, model: String },
    Planned { voice: String, model: String },
}

/// The head of the composer.
#[derive(Clone, Debug)]
pub struct ComposerHeader {
    /// The name is open for editing.
    pub renaming: bool,
    pub title: String,
    /// The name can be edited: only the opening composer, which is not yet a
    /// clip to name, offers no pencil.
    pub can_rename: bool,
    pub subtitle: Subtitle,
    /// The voice and the model, stated here while the panel is closed.
    pub chips: Option<(String, String)>,
}

impl StudioView {
    /// Whether the composer is on a draft that is not yet a clip.
    pub open spec fn is_fresh(self) -> bool {
        self.draft() matches Some(draft) && !draft.started && !draft.generating
    }

    /// What the composer is headed with.
    pub open spec fn heading(self, fresh: Seq<char>, untitled: Seq<char>) -> Seq<char> {
        if self.is_fresh() {
            fresh
        } else {
            match self.current_name(untitled) {
                Some(name) => name,
                None => Seq::empty(),
            }
        }
    }

    /// Whether the take being listened to has a time that can be shown.
    pub open spec fn take_is_timed(self) -> bool {
        self.open_take() matches Some(take) ==> is_timed(take.created@)
    }
}

impl Subtitle {
    /// Whether this is the line for what is selected.
    pub open spec fn shows(self, studio: StudioView, bundled: Seq<char>) -> bool {
        let called = studio.voice_called(studio.voice_in_force(), bundled);
        match (self, studio.open_take()) {
            (Subtitle::Made { length, at, voice, model }, Some(take)) => {
                &&& length@ == spec_duration(take.audio_s)
                &&& shows_clock(at@, take.created@)
                &&& voice@ == called
                &&& model@ == studio.model_called()
            },
            (Subtitle::Planned { voice, model }, None) => voice@ == called && model@
                == studio.model_called(),
            _ => false,
        }
    }
}

impl ComposerHeader {
    /// Whether this is the head of the composer for what is selected.
    pub open spec fn shows(
        self,
        studio: StudioView,
        fresh: Seq<char>,
        untitled: Seq<char>,
        bundled: Seq<char>,
    ) -> bool {
        &&& self.renaming == (studio.renaming == Some(studio.selected))
        &&& self.title@ == studio.heading(fresh, untitled)
        &&& self.can_rename == !studio.is_fresh()
        &&& self.subtitle.shows(studio, bundled)
        &&& match self.chips {
            Some((voice, model)) => {
                &&& !studio.inspector
                &&& voice@ == studio.voice_called(studio.voice_in_force(), bundled)
                &&& model@ == studio.model_called()
            },
            None => studio.inspector,
        }
    }
}

impl VoiceStudio {
    /// The line under the name.
    pub fn composer_subtitle(&self, bundled: &str) -> (subtitle: Subtitle)
        requires
            self@.take_is_timed(),
        ensures
            subtitle.shows(self@, bundled@),
    {
        let voice = self.voice_name(self.clip_voice(), bundled);
        let model = self.model_label();
        match self.take() {
            Some(take) => Subtitle::Made {
                length: duration(take.audio_s),
                at: clock(take.created.as_str()),
                voice,
                model,
            },
            None => Subtitle::Planned { voice, model },
        }
    }

    fn heading(&self, fresh: &str, untitled: &str) -> (title: String)
        ensures
            title@ == self@.heading(fresh@, untitled@),
    {
        proof {
            reveal_strlit("");
        }
        match &self.selected {
            Selected::Draft(_) => match self.draft() {
                Some(draft) => if !draft.started && !draft.generating {
                    fresh.to_owned()
                } else {
                    draft.title(untitled)
                },
                None => "".to_owned(),
            },
            Selected::Clip(..) => match self.clip() {
                Some(clip) => clip.name.clone(),
                None => "".to_owned(),
            },
        }
    }

    /// The clip's name, and what it is set up with. `fresh` is what a draft
    /// that is not yet a clip is called, `untitled` what one without a name
    /// is, and `bundled` the application's own voice.
    pub fn composer_header(&self, fresh: &str, untitled: &str, bundled: &str) -> (header:
        ComposerHeader)
        requires
            self@.take_is_timed(),
        ensures
            header.shows(self@, fresh@, untitled@, bundled@),
    {
        let renaming = match &self.renaming {
            Some(target) => target.equals(&self.selected),
            None => false,
        };
        let is_fresh = match self.draft() {
            Some(draft) => !draft.started && !draft.generating,
            None => false,
        };
        let chips = if self.inspector {
            None
        } else {
            Some((self.voice_name(self.clip_voice(), bundled), self.model_label()))
        };
        ComposerHeader {
            renaming,
            title: self.heading(fresh, untitled),
            can_rename: !is_fresh,
            subtitle: self.composer_subtitle(bundled),
            chips,
        }
    }
}

/// The head of the progress strip: what is running and how far in.
#[derive(Clone, Debug)]
pub struct GeneratingRow {
    /// Seconds so far, chunks finished and chunks to come, once there is a
    /// rate to work with.
    pub left: Option<(Single, u32, u32)>,
    /// What has been counted, once anything has been written.
    pub counted: Option<Counted>,
}

/// Chunks finished, of how many, and the seconds written in the seconds it
/// took.
#[derive(Clone, Copy, Debug, PartialEq, Eq, Structural)]
pub struct Counted {
    pub done: u32,
    pub chunks: u32,
    pub written_s: Single,
    pub elapsed_s: Single,
}

impl StudioView {
    /// What has been counted of the running generation: both figures are
    /// measured, and neither is shown before it is.
    pub open spec fn counted(self) -> Option<Counted> {
        match self.progress {
            Some(progress) => if progress.written_s.spec_is_positive()
                && progress.elapsed_s.spec_is_positive() {
                Some(
                    Counted {
                        done: progress.chunks_done,
                        chunks: progress.chunks,
                        written_s: progress.written_s,
                        elapsed_s: progress.elapsed_s,
                    },
                )
            } else {
                None
            },
            None => None,
        }
    }
}

/// The strip along the top of the card. Always there, so the card is the same
/// height whether or not there is audio yet.
#[derive(Clone, Debug)]
pub enum Strip {
    /// The clip on screen is running: the row, and chunks finished of how
    /// many.
    Generating(GeneratingRow, Option<(u32, u32)>),
    /// There is a take to hear, which runs this long.
    Take(String),
    /// Nothing generated yet: the control is there, greyed.
    Empty,
}

/// The words.
#[derive(Clone, Debug)]
pub enum Body {
    /// Locked while they are being spoken.
    Locked(String),
    /// The record of what was said.
    Record(String),
    /// A field to write in.
    Field,
}

/// The row under the words.
#[derive(Clone, Copy, Debug, PartialEq, Eq, Structural)]
pub enum Footer {
    /// Renaming touches nothing but the label.
    RenameNote,
    EditingMakesTake,
    /// How many characters, and how many words.
    Count(usize, usize),
}

/// What the words will cost, or what is missing.
#[derive(Clone, Debug)]
pub enum Hint {
    /// The sheet has the floor, or there is nothing measured to say.
    Silent,
    /// Right after saving a voice, what is worth saying is what changed.
    NowInYourVoice,
    WriteFirst,
    /// The model, by name, that is not on disk.
    ModelMissing(String),
    /// How many words, at how many seconds of work per second of speech.
    AboutToMake(usize, Single),
}

#[verifier::ext_equal]
pub enum HintView {
    Silent,
    NowInYourVoice,
    WriteFirst,
    ModelMissing(Seq<char>),
    AboutToMake(nat, Single),
}

impl View for Hint {
    type V = HintView;

    open spec fn view(&self) -> HintView {
        match self {
            Hint::Silent => HintView::Silent,
            Hint::NowInYourVoice => HintView::NowInYourVoice,
            Hint::WriteFirst => HintView::WriteFirst,
            Hint::ModelMissing(model) => HintView::ModelMissing(model@),
            Hint::AboutToMake(words, rtf) => HintView::AboutToMake(*words as nat, *rtf),
        }
    }
}

/// The one row of actions.
#[derive(Clone, Debug)]
pub enum Actions {
    /// Stopping is the action that belongs to a running clip.
    Stop,
    /// Again, save, copy.
    Finished,
    /// Generate, whether it can be pressed, and the line beside it.
    Generate(bool, Hint),
}

impl Strip {
    /// Whether this is the strip of what is on screen.
    pub open spec fn shows(self, studio: StudioView) -> bool {
        match self {
            Strip::Generating(row, done) => {
                &&& studio.shows_generation()
                &&& row.left == studio.chunks_left()
                &&& row.counted == studio.counted()
                &&& done == studio.chunks_done()
            },
            Strip::Take(length) => {
                &&& !studio.shows_generation()
                &&& studio.open_take() matches Some(take) && length@ == spec_duration(take.audio_s)
            },
            Strip::Empty => !studio.shows_generation() && studio.open_take() is None,
        }
    }
}

impl Body {
    /// Whether these are the words of what is on screen.
    pub open spec fn shows(self, studio: StudioView) -> bool {
        match self {
            Body::Locked(words) => studio.shows_generation() && words@ == studio.spoken_words(),
            Body::Record(words) => {
                &&& !studio.shows_generation()
                &&& studio.open_clip() matches Some(clip) && words@ == clip.text@
            },
            Body::Field => !studio.shows_generation() && studio.open_clip() is None,
        }
    }
}

impl Actions {
    /// Whether these are the actions for what is on screen.
    pub open spec fn shows(self, studio: StudioView) -> bool {
        match self {
            Actions::Stop => studio.shows_generation(),
            Actions::Finished => !studio.shows_generation() && studio.open_clip() is Some,
            Actions::Generate(ready, hint) => {
                &&& !studio.shows_generation()
                &&& studio.open_clip() is None
                &&& ready == studio.is_ready_to_generate()
                &&& hint@ == studio.hint()
            },
        }
    }
}

impl StudioView {
    /// Whether the words can be sent off now.
    pub open spec fn is_ready_to_generate(self) -> bool {
        &&& !self.recording_over_work()
        &&& !self.is_busy()
        &&& !text::is_blank(self.text)
        &&& self.ready() || self.queued is None
    }

    /// The row under the words.
    pub open spec fn footer(self) -> Footer {
        if self.renaming is Some {
            Footer::RenameNote
        } else if self.open_clip() is Some && !self.shows_generation() {
            Footer::EditingMakesTake
        } else {
            Footer::Count(self.text.len() as usize, text::words(self.text) as usize)
        }
    }

    /// The one thing that is true right now: what is missing, what is
    /// downloading, or what this will cost. Only from this machine's own
    /// measurements.
    pub open spec fn hint(self) -> HintView {
        if self.recording_over_work() {
            HintView::Silent
        } else if self.voice_saved is Some {
            HintView::NowInYourVoice
        } else if text::is_blank(self.text) {
            HintView::WriteFirst
        } else if !self.ready() {
            HintView::ModelMissing(self.model_called())
        } else {
            match self.model_in_force() {
                Some(id) => match found(self.models, id) {
                    Some(model) => match model.measured_rtf {
                        Some(rtf) => HintView::AboutToMake(text::words(self.text), rtf),
                        None => HintView::Silent,
                    },
                    None => HintView::Silent,
                },
                None => HintView::Silent,
            }
        }
    }

    /// What is stated where there is room for it and nothing more urgent to
    /// say: fully on the empty screen, briefly while writing.
    pub open spec fn where_it_happens(self) -> Option<Seq<char>> {
        if self.is_busy() || self.open_clip() is Some {
            None
        } else if text::is_blank(self.text) {
            Some("workspace.offline"@)
        } else {
            Some("workspace.on_this_machine"@)
        }
    }
}

impl VoiceStudio {
    /// The head of the progress strip.
    pub fn generating_row(&self) -> (row: GeneratingRow)
        ensures
            row.left == self@.chunks_left(),
            row.counted == self@.counted(),
    {
        let counted = match &self.progress {
            Some(progress) => if progress.written_s.is_positive()
                && progress.elapsed_s.is_positive() {
                Some(
                    Counted {
                        done: progress.chunks_done,
                        chunks: progress.chunks,
                        written_s: progress.written_s,
                        elapsed_s: progress.elapsed_s,
                    },
                )
            } else {
                None
            },
            None => None,
        };
        GeneratingRow { left: self.seconds_left(), counted }
    }

    /// The strip along the top of the card.
    pub fn card_strip(&self) -> (strip: Strip)
        ensures
            strip.shows(self@),
    {
        if self.showing_generation() {
            return Strip::Generating(self.generating_row(), self.generation_fraction());
        }
        match self.take() {
            Some(take) => Strip::Take(duration(take.audio_s)),
            None => Strip::Empty,
        }
    }

    /// The words: locked while they run, the record of what was said once the
    /// clip exists, and a field otherwise.
    pub fn card_body(&self) -> (body: Body)
        ensures
            body.shows(self@),
    {
        if self.showing_generation() {
            return Body::Locked(self.running_text());
        }
        match self.clip() {
            Some(clip) => Body::Record(clip.text.clone()),
            None => Body::Field,
        }
    }

    /// The row under the words: what they cost, or what editing them means.
    pub fn card_footer(&self) -> (footer: Footer)
        ensures
            footer == self@.footer(),
    {
        if self.renaming.is_some() {
            Footer::RenameNote
        } else if self.clip().is_some() && !self.showing_generation() {
            Footer::EditingMakesTake
        } else {
            Footer::Count(
                text::chars_of(self.text.as_str()).len(),
                text::word_count(self.text.as_str()),
            )
        }
    }

    /// Whether the words can be sent off now.
    pub fn can_generate(&self) -> (can: bool)
        ensures
            can == self@.is_ready_to_generate(),
    {
        !self.enrolling_over_workspace() && !self.busy() && !text::blank(self.text.as_str()) && (
        self.model_ready() || self.queued.is_none())
    }

    /// The line beside the button that generates.
    pub fn generate_hint(&self) -> (hint: Hint)
        ensures
            hint@ == self@.hint(),
    {
        if self.enrolling_over_workspace() {
            return Hint::Silent;
        }
        if self.voice_saved.is_some() {
            return Hint::NowInYourVoice;
        }
        if text::blank(self.text.as_str()) {
            return Hint::WriteFirst;
        }
        if !self.model_ready() {
            return Hint::ModelMissing(self.model_label());
        }
        match self.clip_model() {
            Some(id) => match find(&self.models, id) {
                Some(model) => match model.measured_rtf {
                    Some(rtf) => Hint::AboutToMake(text::word_count(self.text.as_str()), rtf),
                    None => Hint::Silent,
                },
                None => Hint::Silent,
            },
            None => Hint::Silent,
        }
    }

    /// The one row of actions, and where the work is done. Which buttons the
    /// row holds changes with the state; where it sits never does.
    pub fn card_actions(&self) -> (row: (Actions, Option<&'static str>))
        ensures
            row.0.shows(self@),
            match (row.1, self@.where_it_happens()) {
                (Some(a), Some(b)) => a@ == b,
                (None, None) => true,
                _ => false,
            },
    {
        let actions = if self.showing_generation() {
            Actions::Stop
        } else if self.clip().is_some() {
            Actions::Finished
        } else {
            Actions::Generate(self.can_generate(), self.generate_hint())
        };
        let note = if self.busy() || self.clip().is_some() {
            None
        } else if text::blank(self.text.as_str()) {
            Some("workspace.offline")
        } else {
            Some("workspace.on_this_machine")
        };
        (actions, note)
    }

    /// Open a clip's menu.
    pub fn open_clip_menu(&mut self, id: &str)
        ensures
            final(self)@ == (StudioView { clip_menu: Some(id@), ..old(self)@ }),
    {
        self.clip_menu = Some(id.to_owned());
    }

    /// Put the menu away. A click anywhere else does, which is what makes it
    /// safe to open one without committing to anything.
    pub fn close_clip_menu(&mut self)
        ensures
            final(self)@ == (StudioView { clip_menu: None, ..old(self)@ }),
    {
        self.clip_menu = None;
    }

    /// Put the workspace on a fresh draft, because there is nothing left to
    /// look at once the clip is gone. Whether there is an engine to ask to
    /// delete it.
    pub fn delete_selected_clip(&mut self) -> (ask: bool)
        requires
            old(self).next_draft < usize::MAX,
        ensures
            ask == old(self)@.engine,
            final(self)@ == old(self)@.with_new_draft(),
    {
        self.new_draft();
        self.engine
    }

    /// Take in the clips after one was copied or deleted, or why not.
    pub fn clips_changed(&mut self, clips: Result<Vec<Clip>, String>)
        ensures
            final(self)@ == (match clips {
                Ok(clips) => StudioView { clips: clips@, ..old(self)@ },
                Err(reason) => StudioView { status: StatusView::Failed(reason@), ..old(self)@ },
            }),
    {
        match clips {
            Ok(clips) => {
                self.clips = clips;
            },
            Err(reason) => {
                self.status = Status::Failed(reason);
            },
        }
    }

    /// Take in the clips after they were read or renamed; a failure leaves
    /// what was known.
    pub fn clips_refreshed(&mut self, clips: Option<Vec<Clip>>)
        ensures
            final(self)@ == (match clips {
                Some(clips) => StudioView { clips: clips@, ..old(self)@ },
                None => old(self)@,
            }),
    {
        match clips {
            Some(clips) => {
                self.clips = clips;
            },
            None => {},
        }
    }

    /// The file of the take being listened to, to save or to copy.
    pub fn selected_sound(&self) -> (path: Option<String>)
        ensures
            match (path, self@.open_take()) {
                (Some(path), Some(take)) => path@ == take.path@,
                (None, None) => true,
                _ => false,
            },
    {
        match self.take() {
            Some(take) => Some(take.path.clone()),
            None => None,
        }
    }
}

/// The button that generates can be pressed only where pressing it does
/// something: with an engine and a draft open, it sets something running or
/// queues the words.
pub proof fn lemma_a_ready_button_does_something(studio: StudioView, seed: Option<u32>)
    requires
        studio.is_ready_to_generate(),
        studio.engine,
        studio.draft() is Some,
    ensures
        studio.spoken(seed).status is Generating || studio.spoken(seed).queued == Some(
            (studio.text, studio.selected.row()),
        ),
{
    let id = studio.selected->Draft_0;
    crate::clips::draft_ids(studio.drafts).index_of_first_ensures(id);
    assert(crate::clips::draft_ids(studio.saved().drafts) =~= crate::clips::draft_ids(
        studio.drafts,
    ));
    assert(studio.saved().draft() == Some(studio.draft()->0.holding(studio.text)));
    assert(studio.saved().model() == studio.model());
}

/// While something generates, the card shows it exactly where it belongs: on
/// the row that is running and on no other.
pub proof fn lemma_the_card_follows_the_selection(studio: StudioView)
    requires
        studio.status is Generating,
    ensures
        studio.shows_generation() <==> studio.generating_row == Some(studio.selected.row()),
{
}

/// Only the draft the application opens on is not yet a clip: it has not been
/// started and does not run. It is headed as what it is; anything else goes by
/// its name, or by being untitled.
pub proof fn lemma_what_the_composer_is_headed_with(
    studio: StudioView,
    fresh: Seq<char>,
    untitled: Seq<char>,
)
    ensures
        studio.draft() matches Some(draft) ==> {
            &&& studio.is_fresh() <==> !(draft.started || draft.generating)
            &&& !(draft.started || draft.generating) ==> studio.heading(fresh, untitled) == fresh
            &&& draft.started || draft.generating ==> {
                &&& draft.name matches Some(name) ==> studio.heading(fresh, untitled) == name
                &&& draft.name is None ==> studio.heading(fresh, untitled) == untitled
            }
        },
        studio.open_clip() matches Some(clip) ==> !studio.is_fresh() && studio.heading(
            fresh,
            untitled,
        ) == clip.name@,
        studio.draft() is None && studio.open_clip() is None ==> !studio.is_fresh()
            && studio.heading(fresh, untitled).len() == 0,
{
}

/// The line under the name tells what the take that is heard runs for and when
/// it was made, where there is one, and in any case the voice and the model in
/// force.
pub proof fn lemma_what_the_line_under_the_name_tells(
    studio: StudioView,
    bundled: Seq<char>,
    line: Subtitle,
)
    requires
        line.shows(studio, bundled),
    ensures
        line is Made <==> studio.open_take() is Some,
        match line {
            Subtitle::Made { length, at, voice, model } => {
                let take = studio.open_take()->0;
                &&& length@ == spec_duration(take.audio_s)
                &&& shows_clock(at@, take.created@)
                &&& model@ == studio.model_called()
                &&& studio.voice_in_force() is None ==> voice@ == bundled
                &&& studio.voice_in_force() matches Some(id) ==> (found(
                    studio.voices,
                    id,
                ) matches Some(speaker) ==> voice@ == speaker.label@)
            },
            Subtitle::Planned { voice, model } => {
                &&& model@ == studio.model_called()
                &&& studio.voice_in_force() is None ==> voice@ == bundled
                &&& studio.voice_in_force() matches Some(id) ==> (found(
                    studio.voices,
                    id,
                ) matches Some(speaker) ==> voice@ == speaker.label@)
            },
        },
{
}

/// What has been counted is told once both seconds written and seconds passed
/// have been measured, as they were reported.
pub proof fn lemma_what_is_counted_was_measured(studio: StudioView)
    ensures
        studio.counted() is Some <==> (studio.progress matches Some(progress)
            && progress.written_s.spec_is_positive() && progress.elapsed_s.spec_is_positive()),
        studio.counted() matches Some(counted) ==> {
            let progress = studio.progress->0;
            &&& counted.done == progress.chunks_done
            &&& counted.chunks == progress.chunks
            &&& counted.written_s == progress.written_s
            &&& counted.elapsed_s == progress.elapsed_s
        },
{
}

/// The button that generates is off while the recorder has the floor, while
/// anything runs, while there is nothing to say, and while words are waiting
/// for a model already; and on otherwise.
pub proof fn lemma_when_the_button_is_on(studio: StudioView)
    ensures
        !studio.in_setup && !(studio.enrolment is Closed) ==> !studio.is_ready_to_generate(),
        studio.is_busy() ==> !studio.is_ready_to_generate(),
        text::is_blank(studio.text) ==> !studio.is_ready_to_generate(),
        !studio.ready() && studio.queued is Some ==> !studio.is_ready_to_generate(),
        (studio.in_setup || studio.enrolment is Closed) && !studio.is_busy() && !text::is_blank(
            studio.text,
        ) && (studio.ready() || studio.queued is None) ==> studio.is_ready_to_generate(),
{
}

/// The line beside the button says the one thing that is true: nothing while
/// the recorder has the floor; that a voice was just saved; that there is
/// nothing to say yet; which model is missing; and otherwise how many words
/// there are at the speed the model in force was measured at, if it was.
pub proof fn lemma_the_hint_is_the_first_that_is_true(studio: StudioView)
    ensures
        studio.recording_over_work() ==> studio.hint() is Silent,
        !studio.recording_over_work() ==> {
            &&& studio.voice_saved is Some ==> studio.hint() is NowInYourVoice
            &&& studio.voice_saved is None && text::is_blank(studio.text)
                ==> studio.hint() is WriteFirst
            &&& studio.voice_saved is None && !text::is_blank(studio.text) ==> {
                &&& !studio.ready() ==> studio.hint() == HintView::ModelMissing(
                    studio.model_called(),
                )
                &&& studio.ready() ==> {
                    &&& studio.model_in_force() is None ==> studio.hint() is Silent
                    &&& studio.model_in_force() matches Some(id) ==> {
                        &&& found(studio.models, id) is None ==> studio.hint() is Silent
                        &&& found(studio.models, id) matches Some(model) ==> {
                            &&& model.measured_rtf is None ==> studio.hint() is Silent
                            &&& model.measured_rtf matches Some(rtf) ==> studio.hint()
                                == HintView::AboutToMake(text::words(studio.text), rtf)
                        }
                    }
                }
            }
        },
{
}

/// Where the work happens is said only while there is nothing more urgent: not
/// while anything runs, nor over a finished clip.
pub proof fn lemma_when_where_it_happens_is_said(studio: StudioView)
    ensures
        studio.where_it_happens() is Some <==> !studio.is_busy() && studio.open_clip() is None,
        studio.where_it_happens() matches Some(said) ==> {
            &&& text::is_blank(studio.text) ==> said == "workspace.offline"@
            &&& !text::is_blank(studio.text) ==> said == "workspace.on_this_machine"@
        },
{
}

/// The row under the words says that a name is being edited while one is, what
/// editing a finished clip means while one is open and not running, and
/// otherwise how many characters and words there are.
pub proof fn lemma_what_the_row_under_the_words_says(studio: StudioView)
    ensures
        studio.renaming is Some ==> studio.footer() is RenameNote,
        studio.renaming is None ==> {
            &&& studio.open_clip() is Some && !studio.shows_generation()
                ==> studio.footer() is EditingMakesTake
            &&& studio.open_clip() is None || studio.shows_generation() ==> (
            studio.footer() matches Footer::Count(characters, spoken) && (studio.text.len()
                <= usize::MAX ==> characters == studio.text.len()) && (text::words(studio.text)
                <= usize::MAX ==> spoken == text::words(studio.text)))
        },
{
}

/// The card is about one thing. While what is on screen runs it shows how far
/// that is, locks its words and offers to stop; over a finished clip it shows
/// the take that is heard and the record of what was said, and offers what can
/// be done with it; otherwise it is a field to write in and a button.
pub proof fn lemma_the_card_is_about_one_thing(
    studio: StudioView,
    strip: Strip,
    body: Body,
    actions: Actions,
)
    requires
        strip.shows(studio),
        body.shows(studio),
        actions.shows(studio),
    ensures
        studio.shows_generation() ==> {
            &&& strip is Generating
            &&& body is Locked
            &&& body->Locked_0@ == studio.spoken_words()
            &&& actions is Stop
        },
        !studio.shows_generation() ==> {
            &&& strip is Take <==> studio.open_take() is Some
            &&& strip is Empty <==> studio.open_take() is None
            &&& strip matches Strip::Take(length) ==> length@ == spec_duration(
                studio.open_take()->0.audio_s,
            )
            &&& studio.open_clip() matches Some(clip) ==> {
                &&& body is Record
                &&& body->Record_0@ == clip.text@
                &&& actions is Finished
            }
            &&& studio.open_clip() is None ==> {
                &&& body is Field
                &&& actions matches Actions::Generate(ready, hint) && ready
                    == studio.is_ready_to_generate() && hint@ == studio.hint()
            }
        },
        strip matches Strip::Generating(row, done) ==> {
            &&& row.left == studio.chunks_left()
            &&& row.counted == studio.counted()
            &&& done is Some <==> (studio.progress matches Some(progress) && progress.chunks > 0)
            &&& done matches Some((so_far, all)) ==> so_far == studio.progress->0.chunks_done && all
                == studio.progress->0.chunks
        },
{
}

/// The head of the composer is about what is selected: its name is open only
/// where it is the one being edited, only a draft that is not yet a clip cannot
/// be named, and the voice and the model are stated there exactly while the
/// panel does not.
pub proof fn lemma_the_head_is_about_what_is_selected(
    studio: StudioView,
    header: ComposerHeader,
    fresh: Seq<char>,
    untitled: Seq<char>,
    bundled: Seq<char>,
)
    requires
        header.shows(studio, fresh, untitled, bundled),
    ensures
        header.renaming <==> (studio.renaming matches Some(target) && target == studio.selected),
        header.title@ == studio.heading(fresh, untitled),
        header.can_rename <==> !(studio.draft() matches Some(draft) && !draft.started
            && !draft.generating),
        header.chips is Some <==> !studio.inspector,
        header.chips matches Some((voice, model)) ==> {
            &&& model@ == studio.model_called()
            &&& studio.voice_in_force() is None ==> voice@ == bundled
            &&& studio.voice_in_force() matches Some(id) ==> (found(studio.voices, id) matches Some(
                speaker,
            ) ==> voice@ == speaker.label@)
        },
        header.subtitle is Made <==> studio.open_take() is Some,
{
}

} // verus!
