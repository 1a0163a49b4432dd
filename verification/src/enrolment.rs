//! Adding a reference voice.
//!
//! The layout follows one decision: reading is the task, so it gets the space.
//! The script is given, not typed; everything to do with the microphone sits
//! beside it. The script is also the transcript, known by construction, which
//! keeps speech recognition out of enrolment entirely.

use vstd::arithmetic::power2::{lemma2_to64, lemma_pow2_adds, lemma_pow2_pos, pow2};
use vstd::prelude::*;
use vstd::string::*;

use crate::engine::{Consent, Voice, ids, known, knows};
use crate::phrase::{Said, SaidView, with};
use crate::recorder::{ENROLMENT_SCRIPT, Quality};
use crate::single::Single;
use crate::studio::{Enrolment, EnrolmentView, StudioView, Take, TakeView, VoiceStudio};
use crate::text;
use crate::voices::voice_title;
use crate::workspace::{duration, spec_duration};

verus! {

/// The id of the voice with this number.
pub open spec fn voice_id(number: nat) -> Seq<char> {
    "voice-"@ + text::decimal(number)
}

/// Whether `number` is the first, from one past how many voices there are, whose
/// id none of the voices has.
pub open spec fn is_next_number(voices: Seq<Voice>, number: nat) -> bool {
    &&& number > voices.len()
    &&& !known(voices, voice_id(number))
    &&& forall|n: nat| voices.len() < n < number ==> known(voices, #[trigger] voice_id(n))
}

/// The number of the next voice.
pub open spec fn next_number(voices: Seq<Voice>) -> nat {
    choose|number: nat| is_next_number(voices, number)
}

/// What a voice was learned from, and what was agreed to.
#[verifier::ext_equal]
pub struct EnrolledView {
    pub voice_id: Seq<char>,
    pub label: Seq<char>,
    pub reference_audio: Seq<char>,
    pub reference_text: Seq<char>,
    pub seconds: Single,
    pub statement: Seq<char>,
    pub app_version: Seq<char>,
    pub source: Seq<char>,
}

pub open spec fn enrolled_view(voice: Voice) -> EnrolledView {
    EnrolledView {
        voice_id: voice.voice_id@,
        label: voice.label@,
        reference_audio: voice.reference_audio@,
        reference_text: voice.reference_text@,
        seconds: voice.seconds,
        statement: voice.consent.statement@,
        app_version: voice.consent.app_version@,
        source: voice.consent.source@,
    }
}

impl StudioView {
    /// Back at the script: no consent, no file, no take, and a recorder if one
    /// could be opened.
    pub open spec fn at_script(self, opened: Result<(), String>) -> StudioView {
        let cleared = StudioView { consent_given: false, imported: None, ..self }.without_take();
        match opened {
            Ok(_) => StudioView { recorder: true, enrolment: EnrolmentView::Ready, ..cleared },
            Err(reason) => StudioView { enrolment: EnrolmentView::Rejected(reason@), ..cleared },
        }
    }

    /// The recorder opened from the workspace, with a name suggested.
    pub open spec fn enrolling(self, mine: Seq<char>, opened: Result<(), String>) -> StudioView {
        StudioView {
            in_setup: false,
            voice_name: voice_title(self.voices.len(), mine),
            ..self
        }.at_script(opened)
    }

    /// On from the model list: nowhere while nothing can speak, into enrolment
    /// on the first run, back to the workspace otherwise.
    pub open spec fn past_models(self, mine: Seq<char>, opened: Result<(), String>) -> StudioView {
        let chosen = StudioView { choosing_model: false, ..self };
        if self.installed().len() == 0 {
            self
        } else if self.is_first_run() {
            StudioView { in_setup: true, ..chosen.enrolling(mine, opened) }
        } else {
            chosen
        }
    }

    /// Whether nothing has been enrolled or made yet.
    pub open spec fn is_first_run(self) -> bool {
        self.voices.len() == 0 && self.last is None
    }

    /// Enrolment over, whichever way it ended.
    pub open spec fn enrolment_closed(self) -> StudioView {
        StudioView {
            recorder: false,
            enrolment: EnrolmentView::Closed,
            in_setup: false,
            consent_given: false,
            imported: None,
            ..self
        }.without_take()
    }

    /// A reading of the script brought in from a file, or why it was turned
    /// away.
    pub open spec fn brought_in(
        self,
        path: Seq<char>,
        checked: Result<(Quality, Vec<Single>), String>,
    ) -> StudioView {
        match checked {
            Ok((quality, levels)) => StudioView {
                take: Some(TakeView { path, seconds: quality.seconds, levels: levels@ }),
                imported: Some(path),
                consent_given: false,
                enrolment: EnrolmentView::Review(quality),
                ..self
            },
            Err(reason) => StudioView {
                enrolment: EnrolmentView::Rejected(reason@),
                ..StudioView { imported: None, ..self }.without_take()
            },
        }
    }

    /// Recording begun, or why it could not be.
    pub open spec fn recording_begun(self, started: Result<(), String>) -> StudioView {
        if !self.recorder {
            self
        } else {
            StudioView {
                enrolment: match started {
                    Ok(_) => EnrolmentView::Recording,
                    Err(reason) => EnrolmentView::Rejected(reason@),
                },
                ..self
            }
        }
    }

    /// Recording stopped, and what it was worth: a take that passed and could
    /// be written out is up for review.
    pub open spec fn stopped(
        self,
        checked: Result<Quality, String>,
        written: Result<(), String>,
        path: Seq<char>,
        levels: Seq<Single>,
    ) -> StudioView {
        if !self.recorder {
            self
        } else {
            match checked {
                Ok(quality) => match written {
                    Ok(_) => StudioView {
                        take: Some(TakeView { path, seconds: quality.seconds, levels }),
                        enrolment: EnrolmentView::Review(quality),
                        ..self
                    },
                    Err(reason) => StudioView {
                        enrolment: EnrolmentView::Rejected(reason@),
                        ..self
                    },
                },
                Err(reason) => StudioView { enrolment: EnrolmentView::Rejected(reason@), ..self },
            }
        }
    }

    /// What the new voice is called: what was typed, or the name offered.
    pub open spec fn new_voice_label(self, mine: Seq<char>) -> Seq<char> {
        let typed = text::trimmed(self.voice_name);
        if typed.len() == 0 {
            voice_title(self.voices.len(), mine)
        } else {
            typed
        }
    }

    /// The voice that saving makes: nothing without consent, an engine and a
    /// take. The consent is recorded in the words it was asked in.
    pub open spec fn new_voice(
        self,
        mine: Seq<char>,
        statement: Seq<char>,
        app_version: Seq<char>,
    ) -> Option<EnrolledView> {
        match self.take {
            Some(take) => if self.consent_given && self.engine {
                Some(
                    EnrolledView {
                        voice_id: voice_id(next_number(self.voices)),
                        label: self.new_voice_label(mine),
                        reference_audio: take.path,
                        reference_text: ENROLMENT_SCRIPT@,
                        seconds: Single { bits: 0 },
                        statement,
                        app_version,
                        source: if self.imported is Some {
                            "imported"@
                        } else {
                            "recording"@
                        },
                    },
                )
            } else {
                None
            },
            None => None,
        }
    }

    /// The sheet closed, with the voice being worked on behind whatever the
    /// person goes back to.
    pub open spec fn voice_saved_away(self) -> StudioView {
        StudioView {
            warming: Some(voice_id(next_number(self.voices))),
            ..self.enrolment_closed()
        }
    }
}

impl VoiceStudio {
    /// Take in a reading of the script made elsewhere, after the same checks a
    /// recording has to pass. Whether to pause the player.
    ///
    /// This works only because the script is fixed: the words are known
    /// without transcribing the file.
    pub fn import_reference(
        &mut self,
        path: &str,
        checked: Result<(Quality, Vec<Single>), String>,
    ) -> (pause: bool)
        ensures
            final(self)@ == old(self)@.brought_in(path@, checked),
            pause == (checked is Err && old(self)@.holds_take()),
    {
        match checked {
            Ok((quality, levels)) => {
                self.take = Some(
                    Take { path: path.to_owned(), seconds: quality.seconds, levels },
                );
                self.imported = Some(path.to_owned());
                self.consent_given = false;
                self.enrolment = Enrolment::Review(quality);
                false
            },
            Err(reason) => {
                self.imported = None;
                let pause = self.clear_take();
                self.enrolment = Enrolment::Rejected(reason);
                pause
            },
        }
    }

    /// Go to the script with what came of opening a recorder. Whether to pause
    /// the player.
    pub fn open_recorder(&mut self, opened: Result<(), String>) -> (pause: bool)
        ensures
            final(self)@ == old(self)@.at_script(opened),
            pause == old(self)@.holds_take(),
    {
        self.consent_given = false;
        self.imported = None;
        let pause = self.clear_take();
        match opened {
            Ok(_) => {
                self.recorder = true;
                self.enrolment = Enrolment::Ready;
            },
            Err(reason) => {
                self.enrolment = Enrolment::Rejected(reason);
            },
        }
        pause
    }

    /// Open the recorder and suggest a name for what it will produce.
    pub fn begin_enrolment(&mut self, mine: &str, opened: Result<(), String>) -> (pause: bool)
        ensures
            final(self)@ == old(self)@.enrolling(mine@, opened),
            pause == old(self)@.holds_take(),
    {
        self.in_setup = false;
        self.voice_name = self.next_voice_name(mine);
        self.open_recorder(opened)
    }

    /// Close the recorder without making a voice. Whether to pause the player.
    pub fn cancel_enrolment(&mut self) -> (pause: bool)
        ensures
            final(self)@ == old(self)@.enrolment_closed(),
            pause == old(self)@.holds_take(),
    {
        self.recorder = false;
        self.enrolment = Enrolment::Closed;
        self.in_setup = false;
        self.consent_given = false;
        self.imported = None;
        self.clear_take()
    }

    /// Leave setup without recording. The bundled voice works with every
    /// model, so the last step is an offer. Whether to pause the player.
    pub fn finish_setup(&mut self) -> (pause: bool)
        ensures
            final(self)@ == old(self)@.enrolment_closed(),
            pause == old(self)@.holds_take(),
    {
        self.cancel_enrolment()
    }

    /// Take in what came of starting to record. Whether the meter has to move.
    pub fn start_recording(&mut self, started: Result<(), String>) -> (running: bool)
        ensures
            running == (old(self)@.recorder && started is Ok),
            final(self)@ == old(self)@.recording_begun(started),
    {
        if !self.recorder {
            return false;
        }
        match started {
            Ok(_) => {
                self.enrolment = Enrolment::Recording;
                true
            },
            Err(reason) => {
                self.enrolment = Enrolment::Rejected(reason);
                false
            },
        }
    }

    /// Whether a recording is running, so the meter and the timer move.
    pub fn is_recording(&self) -> (recording: bool)
        ensures
            recording == (self@.enrolment is Recording),
    {
        matches!(self.enrolment, Enrolment::Recording)
    }

    /// Stop, and settle the take before review can ask anything of it.
    pub fn stop_recording(
        &mut self,
        checked: Result<Quality, String>,
        written: Result<(), String>,
        path: &str,
        levels: Vec<Single>,
    )
        ensures
            final(self)@ == old(self)@.stopped(checked, written, path@, levels@),
    {
        if !self.recorder {
            return ;
        }
        self.enrolment = match checked {
            Ok(quality) => match written {
                Ok(_) => {
                    self.take = Some(
                        Take { path: path.to_owned(), seconds: quality.seconds, levels },
                    );
                    Enrolment::Review(quality)
                },
                Err(reason) => Enrolment::Rejected(reason),
            },
            Err(reason) => Enrolment::Rejected(reason),
        };
    }

    /// Throw the take away and go back to the script, with what came of
    /// opening a fresh recorder: the buffer is the take, and reusing it would
    /// append the second reading to the first. Whether to pause the player.
    pub fn discard_take(&mut self, opened: Result<(), String>) -> (pause: bool)
        ensures
            final(self)@ == old(self)@.at_script(opened),
            pause == old(self)@.holds_take(),
    {
        self.open_recorder(opened)
    }

    /// Give consent, or take it back.
    pub fn toggle_consent(&mut self)
        ensures
            final(self)@ == (StudioView {
                consent_given: !old(self)@.consent_given,
                ..old(self)@
            }),
    {
        self.consent_given = !self.consent_given;
    }

    /// An id for one more voice: the first from one past how many there are
    /// that none of them has.
    fn next_voice_id(&self) -> (id: String)
        ensures
            id@ == voice_id(next_number(self@.voices)),
    {
        let mut number: u128 = self.voices.len() as u128 + 1;
        loop
            invariant
                self.voices.len() < number <= 2 * self.voices.len() + 1,
                forall|n: nat|
                    self@.voices.len() < n < number ==> known(
                        self@.voices,
                        #[trigger] voice_id(n),
                    ),
            decreases 2 * self.voices.len() + 1 - number,
        {
            let mut id = "voice-".to_owned();
            id.append(text::number(number).as_str());
            if !knows(&self.voices, id.as_str()) {
                proof {
                    assert(is_next_number(self@.voices, number as nat));
                    lemma_next_number(self@.voices, number as nat);
                }
                return id;
            }
            proof {
                let held = ids(self@.voices);
                let first = self@.voices.len() + 1;
                let count = (number + 1 - first) as nat;
                assert forall|n: nat| first <= n < first + count implies held.contains(
                    #[trigger] voice_id(n),
                ) by {
                    assert(known(self@.voices, voice_id(n)));
                }
                lemma_ids_run_out(held, first, count);
            }
            number = number + 1;
        }
    }

    /// Make a voice of the take. Consent is checked here rather than trusted
    /// from the interface, so the recording cannot become a voice without it.
    /// What comes back is the voice to register. `mine` is what a first voice
    /// is called, `statement` is what was agreed to, and `app_version` is what
    /// asked.
    pub fn confirm_enrolment(&mut self, mine: &str, statement: &str, app_version: &str) -> (voice:
        Option<Voice>)
        ensures
            match (voice, old(self)@.new_voice(mine@, statement@, app_version@)) {
                (Some(voice), Some(made)) => enrolled_view(voice) == made && final(self)@ == old(
                    self,
                )@.voice_saved_away(),
                (None, None) => final(self)@ == old(self)@,
                _ => false,
            },
            voice matches Some(voice) ==> {
                &&& !known(old(self)@.voices, voice.voice_id@)
                &&& !known(old(self)@.voices, voice_id(old(self)@.voices.len() + 1))
                    ==> voice.voice_id@ == voice_id(old(self)@.voices.len() + 1)
            },
    {
        proof {
            lemma_enrolling_again_adds_a_voice(self@, mine@, statement@, app_version@);
        }
        if !self.consent_given || !self.engine {
            return None;
        }
        let path = match &self.take {
            Some(take) => take.path.clone(),
            None => {
                return None;
            },
        };
        let id = self.next_voice_id();
        let typed = text::trim(self.voice_name.as_str());
        let label = if text::chars_of(typed.as_str()).len() == 0 {
            self.next_voice_name(mine)
        } else {
            typed
        };
        let source = if self.imported.is_some() {
            "imported".to_owned()
        } else {
            "recording".to_owned()
        };
        self.cancel_enrolment();
        self.warming = Some(id.clone());
        Some(
            Voice {
                voice_id: id,
                label,
                reference_audio: path,
                reference_text: ENROLMENT_SCRIPT.to_owned(),
                seconds: Single { bits: 0 },
                consent: Consent {
                    statement: statement.to_owned(),
                    app_version: app_version.to_owned(),
                    source,
                },
            },
        )
    }

    /// Whether going on from the model list leads into enrolment, and so needs
    /// a recorder.
    pub fn leads_to_enrolment(&self) -> (leads: bool)
        ensures
            leads == (self@.installed().len() > 0 && self@.is_first_run()),
    {
        self.installed_models() > 0 && self.voices.len() == 0 && self.last.is_none()
    }

    /// Go on from the model list. The first run continues into enrolment; a
    /// later visit returns to the workspace it came from. `opened` is what came
    /// of opening a recorder. Whether to pause the player.
    pub fn continue_from_models(&mut self, mine: &str, opened: Result<(), String>) -> (pause: bool)
        ensures
            final(self)@ == old(self)@.past_models(mine@, opened),
            pause == (old(self)@.installed().len() > 0 && old(self)@.is_first_run() && old(
                self,
            )@.holds_take()),
    {
        if self.installed_models() == 0 {
            return false;
        }
        let leads = self.leads_to_enrolment();
        self.leave_models();
        if leads {
            let pause = self.begin_enrolment(mine, opened);
            self.enter_setup();
            pause
        } else {
            false
        }
    }

    fn leave_models(&mut self)
        ensures
            final(self)@ == (StudioView { choosing_model: false, ..old(self)@ }),
    {
        self.choosing_model = false;
    }

    fn enter_setup(&mut self)
        ensures
            final(self)@ == (StudioView { in_setup: true, ..old(self)@ }),
    {
        self.in_setup = true;
    }
}

/// Nothing becomes a voice without consent.
pub proof fn lemma_no_voice_without_consent(
    studio: StudioView,
    mine: Seq<char>,
    statement: Seq<char>,
    app_version: Seq<char>,
)
    ensures
        studio.new_voice(mine, statement, app_version) matches Some(voice) ==> {
            &&& studio.consent_given
            &&& studio.take matches Some(take) && voice.reference_audio == take.path
            &&& voice.statement == statement
            &&& voice.reference_text == ENROLMENT_SCRIPT@
        },
{
}

/// Consent is given per voice, never remembered: however an enrolment begins or
/// ends, the next one starts without it.
pub proof fn lemma_consent_is_never_remembered(
    studio: StudioView,
    opened: Result<(), String>,
    path: Seq<char>,
    checked: Result<(Quality, Vec<Single>), String>,
)
    ensures
        !studio.at_script(opened).consent_given,
        !studio.enrolment_closed().consent_given,
        !studio.voice_saved_away().consent_given,
        checked is Ok ==> !studio.brought_in(path, checked).consent_given,
{
}

/// Only a take that passed the checks is up for review, and what is reviewed is
/// that take.
pub proof fn lemma_only_what_passed_is_reviewed(
    studio: StudioView,
    checked: Result<Quality, String>,
    written: Result<(), String>,
    path: Seq<char>,
    levels: Seq<Single>,
)
    requires
        studio.recorder,
    ensures
        ({
            let after = studio.stopped(checked, written, path, levels);
            &&& after.enrolment is Review <==> checked is Ok && written is Ok
            &&& after.enrolment is Review ==> after.take == Some(
                TakeView { path, seconds: (checked->Ok_0).seconds, levels },
            )
        }),
{
}

/// Different numbers give different ids.
proof fn lemma_voice_ids_differ(a: nat, b: nat)
    requires
        a != b,
    ensures
        voice_id(a) != voice_id(b),
{
    if voice_id(a) == voice_id(b) {
        let stem = "voice-"@.len() as int;
        assert(voice_id(a).skip(stem) =~= text::decimal(a));
        assert(voice_id(b).skip(stem) =~= text::decimal(b));
        text::lemma_decimal_is_injective(a, b);
    }
}

/// So many ids in a row can only be held by as many voices.
proof fn lemma_ids_run_out(held: Seq<Seq<char>>, first: nat, count: nat)
    requires
        forall|n: nat| first <= n < first + count ==> held.contains(#[trigger] voice_id(n)),
    ensures
        count <= held.len(),
    decreases count,
{
    if count > 0 {
        let last = (first + count - 1) as nat;
        assert(held.contains(voice_id(last)));
        let at = choose|i: int| 0 <= i < held.len() && held[i] == voice_id(last);
        let rest = held.remove(at);
        assert forall|n: nat| first <= n < first + (count - 1) implies rest.contains(
            #[trigger] voice_id(n),
        ) by {
            lemma_voice_ids_differ(n, last);
            assert(held.contains(voice_id(n)));
            let i = choose|i: int| 0 <= i < held.len() && held[i] == voice_id(n);
            assert(rest[if i < at {
                i
            } else {
                i - 1
            }] == voice_id(n));
        }
        lemma_ids_run_out(rest, first, (count - 1) as nat);
    }
}

/// There is one number for the next voice.
proof fn lemma_next_number(voices: Seq<Voice>, number: nat)
    requires
        is_next_number(voices, number),
    ensures
        next_number(voices) == number,
{
    let other = next_number(voices);
    assert(is_next_number(voices, other));
    if other < number {
        assert(known(voices, voice_id(other)));
    } else if number < other {
        assert(known(voices, voice_id(number)));
    }
}

/// There is always a number for the next voice.
proof fn lemma_there_is_a_next_number(voices: Seq<Voice>)
    ensures
        is_next_number(voices, next_number(voices)),
{
    lemma_number_found(voices, voices.len() + 1);
}

proof fn lemma_number_found(voices: Seq<Voice>, from: nat)
    requires
        voices.len() < from,
        forall|n: nat| voices.len() < n < from ==> known(voices, #[trigger] voice_id(n)),
    ensures
        is_next_number(voices, next_number(voices)),
    decreases 2 * voices.len() + 1 - from,
{
    if !known(voices, voice_id(from)) {
        assert(is_next_number(voices, from));
    } else {
        let first = voices.len() + 1;
        let count = (from + 1 - first) as nat;
        assert forall|n: nat| first <= n < first + count implies ids(voices).contains(
            #[trigger] voice_id(n),
        ) by {
            assert(known(voices, voice_id(n)));
        }
        lemma_ids_run_out(ids(voices), first, count);
        lemma_number_found(voices, from + 1);
    }
}

/// Enrolling again adds a voice rather than writing over one: whatever voices
/// there are, and whichever were deleted, the new voice has an id that none of
/// them has, and it is the one that is then worked on. It is numbered one past
/// how many there are wherever that number is free.
pub proof fn lemma_enrolling_again_adds_a_voice(
    studio: StudioView,
    mine: Seq<char>,
    statement: Seq<char>,
    app_version: Seq<char>,
)
    ensures
        studio.new_voice(mine, statement, app_version) matches Some(made) ==> {
            &&& !known(studio.voices, made.voice_id)
            &&& studio.voice_saved_away().warming == Some(made.voice_id)
            &&& !known(studio.voices, voice_id(studio.voices.len() + 1)) ==> made.voice_id
                == voice_id(studio.voices.len() + 1)
        },
{
    lemma_there_is_a_next_number(studio.voices);
    if !known(studio.voices, voice_id(studio.voices.len() + 1)) {
        assert(is_next_number(studio.voices, studio.voices.len() + 1));
        lemma_next_number(studio.voices, studio.voices.len() + 1);
    }
}

/// Where a wizard step stands relative to the one being shown.
#[derive(Clone, Copy, Debug, PartialEq, Eq, Structural)]
pub enum Step {
    Done,
    Active,
    Upcoming,
}

/// Where step `index` stands while step `active` is shown.
pub open spec fn spec_step(index: u8, active: u8) -> Step {
    if index < active {
        Step::Done
    } else if index == active {
        Step::Active
    } else {
        Step::Upcoming
    }
}

/// The wizard's steps: the number of each, the phrase for it, and where it
/// stands. Three states, not two: a step still to come is outlined, so the
/// wizard says how far along it is.
pub fn stepper(active: u8) -> (steps: Vec<(u8, &'static str, Step)>)
    ensures
        steps.len() == 3,
        forall|i: int|
            0 <= i < 3 ==> (#[trigger] steps@[i]).0 == i + 1 && steps@[i].2 == spec_step(
                (i + 1) as u8,
                active,
            ),
        steps@[0].1@ == "setup.step_runtime"@,
        steps@[1].1@ == "setup.step_model"@,
        steps@[2].1@ == "setup.step_voice"@,
{
    let mut steps: Vec<(u8, &'static str, Step)> = Vec::new();
    steps.push((1, "setup.step_runtime", step_of(1, active)));
    steps.push((2, "setup.step_model", step_of(2, active)));
    steps.push((3, "setup.step_voice", step_of(3, active)));
    steps
}

fn step_of(index: u8, active: u8) -> (step: Step)
    ensures
        step == spec_step(index, active),
{
    if index < active {
        Step::Done
    } else if index == active {
        Step::Active
    } else {
        Step::Upcoming
    }
}

/// Whether a character ends a sentence.
pub open spec fn ends_sentence(c: char) -> bool {
    c == '.' || c == '!' || c == '?'
}

/// How much of a text its first piece is: up to and with the first character
/// that ends a sentence, or all of it.
pub open spec fn first_piece(text: Seq<char>) -> nat
    decreases text.len(),
{
    if text.len() == 0 {
        0
    } else if ends_sentence(text[0]) {
        1
    } else {
        1 + first_piece(text.drop_first())
    }
}

/// A text that has anything in it has a first piece with something in it.
pub proof fn lemma_first_piece_fits(text: Seq<char>)
    ensures
        first_piece(text) <= text.len(),
        text.len() > 0 ==> first_piece(text) > 0,
    decreases text.len(),
{
    if text.len() > 0 {
        lemma_first_piece_fits(text.drop_first());
    }
}

/// The pieces of a text, each with the character that ends it.
pub open spec fn pieces(text: Seq<char>) -> Seq<Seq<char>>
    decreases text.len(),
{
    if text.len() == 0 {
        Seq::empty()
    } else {
        let n = first_piece(text);
        proof {
            lemma_first_piece_fits(text);
        }
        seq![text.take(n as int)] + pieces(text.skip(n as int))
    }
}

/// The sentences of a text: its pieces without white space around them, and
/// without those that have nothing else.
pub open spec fn sentences(text: Seq<char>) -> Seq<Seq<char>> {
    kept(pieces(text))
}

/// The pieces that hold anything, trimmed.
pub open spec fn kept(pieces: Seq<Seq<char>>) -> Seq<Seq<char>>
    decreases pieces.len(),
{
    if pieces.len() == 0 {
        Seq::empty()
    } else {
        let rest = kept(pieces.drop_first());
        let first = text::trimmed(pieces[0]);
        if first.len() == 0 {
            rest
        } else {
            seq![first] + rest
        }
    }
}

pub open spec fn texts_view(texts: Seq<String>) -> Seq<Seq<char>> {
    Seq::new(texts.len(), |i: int| texts[i]@)
}

/// All of the pieces, put together.
pub open spec fn joined(pieces: Seq<Seq<char>>) -> Seq<char>
    decreases pieces.len(),
{
    if pieces.len() == 0 {
        Seq::empty()
    } else {
        pieces[0] + joined(pieces.drop_first())
    }
}

/// Cutting a text into pieces loses nothing: together they are the text.
pub proof fn lemma_the_pieces_make_the_text(text: Seq<char>)
    ensures
        joined(pieces(text)) == text,
    decreases text.len(),
{
    if text.len() > 0 {
        let n = first_piece(text);
        lemma_first_piece_fits(text);
        let rest = text.skip(n as int);
        lemma_the_pieces_make_the_text(rest);
        assert(pieces(text).drop_first() =~= pieces(rest));
        assert(text.take(n as int) + rest =~= text);
    } else {
        assert(joined(pieces(text)) =~= text);
    }
}

/// The sentences of a text.
pub fn sentences_of(text: &str) -> (found: Vec<String>)
    ensures
        texts_view(found@) == sentences(text@),
{
    let chars = text::chars_of(text);
    let mut found: Vec<String> = Vec::new();
    let mut from: usize = 0;
    assert(text@.skip(0) =~= text@);
    assert(texts_view(found@) + kept(pieces(text@)) =~= kept(pieces(text@)));
    while from < chars.len()
        invariant
            chars@ == text@,
            from <= chars.len(),
            texts_view(found@) + kept(pieces(text@.skip(from as int))) == sentences(text@),
        decreases chars.len() - from,
    {
        let ghost rest = text@.skip(from as int);
        let mut to: usize = from;
        let mut ended: bool = false;
        assert(text@.skip(to as int) =~= rest);
        while to < chars.len() && !ended
            invariant
                chars@ == text@,
                from <= to <= chars.len(),
                rest == text@.skip(from as int),
                ended ==> to > from,
                if ended {
                    first_piece(rest) == to - from
                } else {
                    first_piece(rest) == (to - from) + first_piece(text@.skip(to as int))
                },
            decreases chars.len() - to,
        {
            let ghost tail = text@.skip(to as int);
            assert(tail[0] == text@[to as int]);
            assert(tail.drop_first() =~= text@.skip(to + 1));
            let c = chars[to];
            ended = c == '.' || c == '!' || c == '?';
            to = to + 1;
        }
        proof {
            lemma_first_piece_fits(rest);
            if !ended {
                assert(text@.skip(to as int).len() == 0);
            }
            assert(first_piece(rest) == to - from);
            assert(text@.subrange(from as int, to as int) =~= rest.take(to - from));
            assert(rest.skip(to - from) =~= text@.skip(to as int));
            assert(pieces(rest).drop_first() =~= pieces(text@.skip(to as int)));
        }
        let sentence = text::trim(text.substring_char(from, to));
        let ghost before = texts_view(found@);
        let ghost later = kept(pieces(text@.skip(to as int)));
        if text::chars_of(sentence.as_str()).len() > 0 {
            found.push(sentence);
            assert(texts_view(found@) =~= before.push(sentence@));
            assert(before.push(sentence@) + later =~= before + (seq![sentence@] + later));
        }
        from = to;
    }
    proof {
        assert(text@.skip(from as int).len() == 0);
        assert(texts_view(found@) + kept(pieces(text@.skip(from as int))) =~= texts_view(found@));
    }
    found
}

/// The script as separate sentences, one block each, so the eye can find its
/// place again after a glance away.
pub fn script_sentences() -> (script: Vec<String>)
    ensures
        texts_view(script@) == sentences(ENROLMENT_SCRIPT@),
{
    sentences_of(ENROLMENT_SCRIPT)
}

/// How long the script takes to read aloud, in seconds.
pub const SCRIPT_SECONDS: u32 = 20;

/// The bits of the level above which a voice is being heard, eight hundredths.
pub const HEARD_LEVEL: u32 = 0x3DA3_D70A;

/// How a sentence of the script is set.
#[derive(Clone, Copy, Debug, PartialEq, Eq, Structural)]
pub enum LineState {
    /// No take is running.
    Still,
    /// Already read: it steps further back than what is still to come.
    Read,
    /// Being read.
    Live,
    Ahead,
}

/// What stands beside the label of the script.
#[derive(Clone, Copy, Debug, PartialEq, Eq, Structural)]
pub enum ScriptNote {
    /// Which sentence is being read, of how many.
    Place(usize, usize),
    /// How many characters it has, and how many seconds it takes.
    Length(usize, u32),
}

/// Which sentence the reader is at, of `count`, when `passed` of them have been
/// read. A place-keeper, not a cursor.
pub open spec fn spec_reading_at(passed: nat, count: nat) -> nat {
    if passed < count {
        passed + 1
    } else {
        count
    }
}

/// How sentence `index` is set while the reader is at sentence `at`.
pub open spec fn spec_line_state(recording: bool, at: nat, index: nat) -> LineState {
    if !recording {
        LineState::Still
    } else if index + 1 < at {
        LineState::Read
    } else if index + 1 == at {
        LineState::Live
    } else {
        LineState::Ahead
    }
}

/// The script as it is shown: the note beside it, each sentence with how it is
/// set, and the phrase underneath.
#[derive(Clone, Debug)]
pub struct ScriptPanel {
    pub note: ScriptNote,
    pub lines: Vec<(String, LineState)>,
    pub below: &'static str,
}

impl ScriptPanel {
    /// Whether this is the script as it is shown once so many sentences have
    /// been read.
    pub open spec fn shows(self, studio: StudioView, passed: nat) -> bool {
        let script = sentences(ENROLMENT_SCRIPT@);
        let recording = studio.enrolment is Recording;
        let at = spec_reading_at(passed, script.len());
        &&& self.note == (if recording {
            ScriptNote::Place(at as usize, script.len() as usize)
        } else {
            ScriptNote::Length(ENROLMENT_SCRIPT@.len() as usize, SCRIPT_SECONDS)
        })
        &&& self.lines.len() == script.len()
        &&& forall|i: int|
            0 <= i < script.len() ==> (#[trigger] self.lines@[i]).0@ == script[i]
                && self.lines@[i].1 == spec_line_state(recording, at, i as nat)
        &&& self.below@ == (if recording {
            "enrol.keep_reading"@
        } else {
            "enrol.same_script"@
        })
    }
}

impl VoiceStudio {
    /// The script, while it is being read or about to be. `passed` is how many
    /// sentences the time that has gone is enough for.
    pub fn script_panel(&self, passed: usize) -> (panel: ScriptPanel)
        ensures
            panel.shows(self@, passed as nat),
    {
        let script = script_sentences();
        let recording = self.is_recording();
        let count = script.len();
        assert(texts_view(script@).len() == count);
        let at: usize = if passed < count {
            passed + 1
        } else {
            count
        };
        let mut lines: Vec<(String, LineState)> = Vec::new();
        let mut i: usize = 0;
        while i < script.len()
            invariant
                i <= script.len(),
                count == script.len(),
                lines.len() == i,
                recording == (self@.enrolment is Recording),
                at <= count,
                texts_view(script@) == sentences(ENROLMENT_SCRIPT@),
                forall|j: int|
                    0 <= j < i ==> (#[trigger] lines@[j]).0@ == texts_view(script@)[j] && lines@[j].1
                        == spec_line_state(recording, at as nat, j as nat),
            decreases script.len() - i,
        {
            let state = if !recording {
                LineState::Still
            } else if i + 1 < at {
                LineState::Read
            } else if i + 1 == at {
                LineState::Live
            } else {
                LineState::Ahead
            };
            assert(texts_view(script@)[i as int] == script@[i as int]@);
            lines.push((script[i].clone(), state));
            i = i + 1;
        }
        let note = if recording {
            ScriptNote::Place(at, count)
        } else {
            ScriptNote::Length(text::chars_of(ENROLMENT_SCRIPT).len(), SCRIPT_SECONDS)
        };
        let below = if recording {
            "enrol.keep_reading"
        } else {
            "enrol.same_script"
        };
        ScriptPanel { note, lines, below }
    }
}

/// One sentence at a time is being read, and it is one of the script's.
pub proof fn lemma_one_sentence_is_being_read(passed: nat, count: nat, i: nat, j: nat)
    requires
        count > 0,
    ensures
        ({
            let at = spec_reading_at(passed, count);
            &&& 1 <= at <= count
            &&& spec_line_state(true, at, (at - 1) as nat) == LineState::Live
            &&& spec_line_state(true, at, i) == LineState::Live && spec_line_state(true, at, j)
                == LineState::Live ==> i == j
        }),
{
}

/// How a bar of the meter is drawn.
#[derive(Clone, Copy, Debug, PartialEq, Eq, Structural)]
pub enum Bar {
    Idle,
    Lit,
    Dim,
}

/// The meter: the proof that the microphone is live.
#[derive(Clone, Debug)]
pub struct MeterRow {
    pub bars: Vec<Bar>,
    /// The phrase beside it.
    pub word: &'static str,
    /// Whether the level is one to speak at.
    pub good: bool,
}

/// Whether a level is a voice.
pub open spec fn is_heard(level: Single) -> bool {
    (Single { bits: HEARD_LEVEL }).spec_less(level)
}

/// Whether any of the levels is a voice.
pub open spec fn any_heard(levels: Seq<Single>) -> bool {
    exists|i: int| 0 <= i < levels.len() && is_heard(#[trigger] levels[i])
}

impl MeterRow {
    /// Whether this is the meter for these levels.
    pub open spec fn shows(self, recording: bool, levels: Seq<Single>) -> bool {
        &&& self.bars.len() == levels.len()
        &&& forall|i: int|
            0 <= i < levels.len() ==> #[trigger] self.bars@[i] == (if !recording {
                Bar::Idle
            } else if is_heard(levels[i]) {
                Bar::Lit
            } else {
                Bar::Dim
            })
        &&& self.good == (recording && any_heard(levels))
        &&& self.word@ == (if !recording {
            "enrol.quiet"@
        } else if any_heard(levels) {
            "enrol.good_level"@
        } else {
            "enrol.too_quiet"@
        })
    }
}

/// The meter, for the levels the recorder shows.
pub fn meter_row(recording: bool, levels: &Vec<Single>) -> (row: MeterRow)
    ensures
        row.shows(recording, levels@),
{
    let mut bars: Vec<Bar> = Vec::new();
    let mut heard: bool = false;
    let mut i: usize = 0;
    while i < levels.len()
        invariant
            i <= levels.len(),
            bars.len() == i,
            forall|j: int|
                0 <= j < i ==> #[trigger] bars@[j] == (if !recording {
                    Bar::Idle
                } else if is_heard(levels@[j]) {
                    Bar::Lit
                } else {
                    Bar::Dim
                }),
            heard == exists|j: int| 0 <= j < i && is_heard(#[trigger] levels@[j]),
        decreases levels.len() - i,
    {
        let voice = (Single { bits: HEARD_LEVEL }).less(levels[i]);
        assert(voice == is_heard(levels@[i as int]));
        if voice {
            heard = true;
        }
        bars.push(
            if !recording {
                Bar::Idle
            } else if voice {
                Bar::Lit
            } else {
                Bar::Dim
            },
        );
        i = i + 1;
    }
    let word = if !recording {
        "enrol.quiet"
    } else if heard {
        "enrol.good_level"
    } else {
        "enrol.too_quiet"
    };
    MeterRow { bars, word, good: recording && heard }
}

/// One row of the report on a take: a state, and what it means in plain words.
#[derive(Clone, Debug)]
pub enum Check {
    Pass(Said),
    Warn(Said),
    /// Neither good nor bad yet: something that can only be judged once the
    /// take is finished, said now so its absence is not read as a failure.
    Pending(Said),
}

#[verifier::ext_equal]
pub enum CheckView {
    Pass(SaidView),
    Warn(SaidView),
    Pending(SaidView),
}

impl View for Check {
    type V = CheckView;

    open spec fn view(&self) -> CheckView {
        match self {
            Check::Pass(said) => CheckView::Pass(said@),
            Check::Warn(said) => CheckView::Warn(said@),
            Check::Pending(said) => CheckView::Pending(said@),
        }
    }
}

pub open spec fn checks_view(checks: Seq<Check>) -> Seq<CheckView> {
    Seq::new(checks.len(), |i: int| checks[i]@)
}

/// Which state the microphone's column is in.
#[derive(Clone, Copy, Debug, PartialEq, Eq, Structural)]
pub enum Column {
    /// Device, level, and the two ways to get a recording.
    Ready,
    /// Timer, level, and the way out of a bad take.
    Recording,
    /// What the take is worth, what it will be called, and the ways forward.
    Review,
    /// Device and level again, with what was wrong.
    Rejected,
}

impl StudioView {
    pub open spec fn column(self) -> Column {
        match self.enrolment {
            EnrolmentView::Recording => Column::Recording,
            EnrolmentView::Review(_) => Column::Review,
            EnrolmentView::Rejected(_) => Column::Rejected,
            _ => Column::Ready,
        }
    }

    /// Everything there is to say about the take.
    pub open spec fn checks(self) -> Seq<CheckView> {
        match self.enrolment {
            EnrolmentView::Recording => seq![
                CheckView::Pass(SaidView::Phrase("enrol.mic_reaching"@)),
                CheckView::Pass(SaidView::Phrase("enrol.no_clipping_yet"@)),
                CheckView::Pending(SaidView::Phrase("enrol.room_noise"@)),
            ],
            EnrolmentView::Review(quality) => seq![
                CheckView::Pass(
                    SaidView::With(
                        "enrol.whole_script"@,
                        seq![("time"@, spec_duration(quality.seconds))],
                    ),
                ),
                CheckView::Pass(SaidView::Phrase("enrol.no_clipping"@)),
                CheckView::Warn(
                    SaidView::With("enrol.snr"@, seq![("db"@, quality.snr_db.spec_rounded())]),
                ),
            ],
            EnrolmentView::Rejected(reason) => seq![CheckView::Warn(SaidView::Words(reason))],
            _ => seq![],
        }
    }

    /// What the header says: what to do now, and why the words matter.
    pub open spec fn enrolment_heading(self) -> (Seq<char>, Seq<char>) {
        match self.enrolment {
            EnrolmentView::Recording => ("enrol.title"@, "enrol.recording_detail"@),
            EnrolmentView::Review(_) => if self.imported is Some {
                ("enrol.check_title"@, "enrol.imported_detail"@)
            } else {
                ("enrol.check_title"@, "enrol.check_detail"@)
            },
            _ => if !self.in_setup {
                ("enrol.record_title"@, "enrol.record_subtitle"@)
            } else {
                ("enrol.title"@, "enrol.subtitle"@)
            },
        }
    }
}

impl VoiceStudio {
    /// What the microphone's column shows: its state, and what there is to say
    /// about the take.
    pub fn recorder_panel(&self) -> (panel: (Column, Vec<Check>))
        ensures
            panel.0 == self@.column(),
            checks_view(panel.1@) == self@.checks(),
    {
        let mut checks: Vec<Check> = Vec::new();
        let column = match &self.enrolment {
            Enrolment::Recording => {
                checks.push(Check::Pass(Said::Phrase("enrol.mic_reaching")));
                checks.push(Check::Pass(Said::Phrase("enrol.no_clipping_yet")));
                checks.push(Check::Pending(Said::Phrase("enrol.room_noise")));
                Column::Recording
            },
            Enrolment::Review(quality) => {
                checks.push(
                    Check::Pass(with("enrol.whole_script", "time", duration(quality.seconds))),
                );
                checks.push(Check::Pass(Said::Phrase("enrol.no_clipping")));
                checks.push(Check::Warn(with("enrol.snr", "db", quality.snr_db.rounded())));
                Column::Review
            },
            Enrolment::Rejected(reason) => {
                checks.push(Check::Warn(Said::Words(reason.clone())));
                Column::Rejected
            },
            _ => Column::Ready,
        };
        assert(checks_view(checks@) =~= self@.checks());
        (column, checks)
    }

    /// The title and the line under it.
    pub fn enrolment_header(&self) -> (heading: (&'static str, &'static str))
        ensures
            (heading.0@, heading.1@) == self@.enrolment_heading(),
    {
        match &self.enrolment {
            Enrolment::Recording => ("enrol.title", "enrol.recording_detail"),
            Enrolment::Review(_) => if self.imported.is_some() {
                ("enrol.check_title", "enrol.imported_detail")
            } else {
                ("enrol.check_title", "enrol.check_detail")
            },
            _ => if !self.in_setup {
                ("enrol.record_title", "enrol.record_subtitle")
            } else {
                ("enrol.title", "enrol.subtitle")
            },
        }
    }

    /// The take in the review panel: its shape, and how long it runs.
    pub fn playback_card(&self) -> (card: (Vec<Single>, String))
        ensures
            match self@.take {
                Some(take) => card.0@ == take.levels && card.1@ == spec_duration(take.seconds),
                None => card.0@.len() == 0 && card.1@ == spec_duration(Single { bits: 0 }),
            },
    {
        match &self.take {
            Some(take) => (copied(&take.levels), duration(take.seconds)),
            None => (Vec::new(), duration(Single { bits: 0 })),
        }
    }
}

fn copied(levels: &Vec<Single>) -> (copy: Vec<Single>)
    ensures
        copy@ == levels@,
{
    let mut copy: Vec<Single> = Vec::new();
    let mut i: usize = 0;
    while i < levels.len()
        invariant
            i <= levels.len(),
            copy@ == levels@.take(i as int),
        decreases levels.len() - i,
    {
        copy.push(levels[i]);
        assert(levels@.take(i + 1) =~= levels@.take(i as int).push(levels@[i as int]));
        i = i + 1;
    }
    assert(levels@.take(levels@.len() as int) =~= levels@);
    copy
}

/// Going to the script starts over: no consent, no file, no take, and a
/// recorder that is ready where one could be opened. What could not be opened
/// says why. The name, the voices and the step of setup stay.
pub proof fn lemma_the_script_starts_over(studio: StudioView, opened: Result<(), String>)
    ensures
        ({
            let after = studio.at_script(opened);
            &&& !after.consent_given
            &&& after.imported is None
            &&& after.take is None
            &&& studio.holds_take() ==> after.clip is None && after.clip_levels.len() == 0
            &&& !studio.holds_take() ==> after.clip == studio.clip && after.clip_levels
                == studio.clip_levels
            &&& opened is Ok ==> after.recorder && after.enrolment is Ready
            &&& opened matches Err(reason) ==> after.recorder == studio.recorder && after.enrolment
                == EnrolmentView::Rejected(reason@)
            &&& after == (StudioView {
                consent_given: false,
                imported: None,
                take: None,
                clip: after.clip,
                clip_levels: after.clip_levels,
                recorder: after.recorder,
                enrolment: after.enrolment,
                ..studio
            })
        }),
{
}

/// Enrolling from the workspace is not part of setup, and offers the next name
/// there is for a voice; otherwise it is going to the script.
pub proof fn lemma_enrolling_offers_a_name(
    studio: StudioView,
    mine: Seq<char>,
    opened: Result<(), String>,
)
    ensures
        ({
            let after = studio.enrolling(mine, opened);
            &&& !after.in_setup
            &&& studio.voices.len() == 0 ==> after.voice_name == mine
            &&& studio.voices.len() > 0 ==> after.voice_name == mine + " "@ + text::decimal(
                studio.voices.len() + 1,
            )
            &&& after == (StudioView {
                in_setup: false,
                voice_name: after.voice_name,
                ..studio.at_script(opened)
            })
        }),
{
}

/// Going on from the model list leads nowhere while nothing can speak, into
/// enrolment as the last step of setup on a first run, and back to the
/// workspace on any later visit.
pub proof fn lemma_where_the_model_list_leads(
    studio: StudioView,
    mine: Seq<char>,
    opened: Result<(), String>,
)
    ensures
        ({
            let after = studio.past_models(mine, opened);
            let none = forall|i: int|
                0 <= i < studio.models.len() ==> !(#[trigger] studio.models[i]).installed;
            &&& none ==> after == studio
            &&& !none ==> !after.choosing_model
            &&& !none && studio.voices.len() == 0 && studio.last is None ==> {
                &&& after.in_setup
                &&& opened is Ok ==> after.enrolment is Ready && after.recorder
                &&& opened is Err ==> after.enrolment is Rejected
                &&& !after.consent_given
                &&& after.voice_name == mine
            }
            &&& !none && (studio.voices.len() > 0 || studio.last is Some) ==> after == (StudioView {
                choosing_model: false,
                ..studio
            })
        }),
{
    let on_disk = |model: crate::engine::ModelSpec| model.installed;
    if forall|i: int| 0 <= i < studio.models.len() ==> !(#[trigger] studio.models[i]).installed {
        studio.models.lemma_all_neg_filter_empty(on_disk);
    } else {
        let i = choose|i: int| 0 <= i < studio.models.len() && (#[trigger] studio.models[i]).installed;
        studio.models.lemma_filter_contains(on_disk, i);
        assert(studio.installed().len() > 0);
    }
}

/// Leaving enrolment leaves nothing of it: no recorder, no take, no file, no
/// consent, and no step of setup. Everything else stays.
pub proof fn lemma_leaving_enrolment_leaves_nothing_of_it(studio: StudioView)
    ensures
        ({
            let after = studio.enrolment_closed();
            &&& !after.recorder
            &&& after.enrolment is Closed
            &&& !after.in_setup
            &&& !after.consent_given
            &&& after.imported is None
            &&& after.take is None
            &&& studio.holds_take() ==> after.clip is None
            &&& !studio.holds_take() ==> after.clip == studio.clip
            &&& after == (StudioView {
                recorder: false,
                enrolment: after.enrolment,
                in_setup: false,
                consent_given: false,
                imported: None,
                take: None,
                clip: after.clip,
                clip_levels: after.clip_levels,
                ..studio
            })
        }),
{
}

/// A file that passed is up for review as a file, and needs consent of its own;
/// one that did not says why, and leaves no take and no file behind.
pub proof fn lemma_what_comes_of_a_file(
    studio: StudioView,
    path: Seq<char>,
    quality: Quality,
    levels: Vec<Single>,
    reason: String,
)
    ensures
        ({
            let after = studio.brought_in(
                path,
                Ok::<(Quality, Vec<Single>), String>((quality, levels)),
            );
            &&& after.enrolment == EnrolmentView::Review(quality)
            &&& after.imported == Some(path)
            &&& !after.consent_given
            &&& after.take matches Some(take) && take.path == path && take.seconds
                == quality.seconds && take.levels == levels@
            &&& after == (StudioView {
                enrolment: after.enrolment,
                imported: after.imported,
                consent_given: false,
                take: after.take,
                ..studio
            })
        }),
        ({
            let after = studio.brought_in(path, Err::<(Quality, Vec<Single>), String>(reason));
            &&& after.enrolment == EnrolmentView::Rejected(reason@)
            &&& after.imported is None
            &&& after.take is None
            &&& after.consent_given == studio.consent_given
            &&& studio.holds_take() ==> after.clip is None
            &&& !studio.holds_take() ==> after.clip == studio.clip
        }),
{
}

/// Stopping settles the take: one that passed and could be written is up for
/// review, as it was measured; what was wrong with any other is said. Without a
/// recorder there is nothing to stop.
pub proof fn lemma_what_stopping_settles(
    studio: StudioView,
    checked: Result<Quality, String>,
    written: Result<(), String>,
    path: Seq<char>,
    levels: Seq<Single>,
)
    ensures
        ({
            let after = studio.stopped(checked, written, path, levels);
            &&& !studio.recorder ==> after == studio
            &&& studio.recorder ==> {
                &&& checked matches Err(reason) ==> after.enrolment == EnrolmentView::Rejected(
                    reason@,
                ) && after.take == studio.take
                &&& checked is Ok ==> (written matches Err(reason) ==> after.enrolment
                    == EnrolmentView::Rejected(reason@) && after.take == studio.take)
                &&& checked matches Ok(quality) ==> (written is Ok ==> after.enrolment
                    == EnrolmentView::Review(quality) && (after.take matches Some(take) && take.path
                    == path && take.seconds == quality.seconds && take.levels == levels))
            }
            &&& after == (StudioView { enrolment: after.enrolment, take: after.take, ..studio })
        }),
{
}

/// A voice is made exactly where there is consent, an engine and a take; it is
/// called what was typed, or what was offered where nothing was; it keeps the
/// take, the script, and what was agreed to and by what means; and making it
/// closes enrolment.
pub proof fn lemma_what_a_new_voice_is_made_of(
    studio: StudioView,
    mine: Seq<char>,
    statement: Seq<char>,
    app_version: Seq<char>,
)
    ensures
        studio.new_voice(mine, statement, app_version) is Some <==> studio.consent_given
            && studio.engine && studio.take is Some,
        studio.new_voice(mine, statement, app_version) matches Some(voice) ==> {
            &&& !text::is_blank(studio.voice_name) ==> voice.label == text::trimmed(
                studio.voice_name,
            )
            &&& text::is_blank(studio.voice_name) && studio.voices.len() == 0 ==> voice.label == mine
            &&& text::is_blank(studio.voice_name) && studio.voices.len() > 0 ==> voice.label == mine
                + " "@ + text::decimal(studio.voices.len() + 1)
            &&& voice.reference_audio == studio.take->0.path
            &&& voice.reference_text == ENROLMENT_SCRIPT@
            &&& !voice.seconds.spec_is_positive()
            &&& voice.statement == statement
            &&& voice.app_version == app_version
            &&& studio.imported is Some ==> voice.source == "imported"@
            &&& studio.imported is None ==> voice.source == "recording"@
            &&& studio.voice_saved_away() == (StudioView {
                warming: Some(voice.voice_id),
                ..studio.enrolment_closed()
            })
        },
{
    text::lemma_trimming_what_is_blank(studio.voice_name);
}

/// The step being shown is the only active one: those before it are done, and
/// those after it are still to come.
pub proof fn lemma_where_a_step_stands(index: u8, active: u8)
    ensures
        index < active ==> spec_step(index, active) is Done,
        index == active ==> spec_step(index, active) is Active,
        index > active ==> spec_step(index, active) is Upcoming,
{
}

/// A text is cut after each full stop, exclamation mark and question mark: what
/// comes before the first of them, with it, is the first piece, and the rest is
/// cut by itself. A text without any is one piece.
pub proof fn lemma_a_text_is_cut_after_each_sentence(front: Seq<char>, end: char, rest: Seq<char>)
    requires
        forall|i: int|
            0 <= i < front.len() ==> (#[trigger] front[i]) != '.' && front[i] != '!' && front[i]
                != '?',
    ensures
        end == '.' || end == '!' || end == '?' ==> pieces(front.push(end) + rest) == seq![
            front.push(end),
        ] + pieces(rest),
        front.len() > 0 ==> pieces(front) == seq![front],
        pieces(Seq::empty()).len() == 0,
{
    if end == '.' || end == '!' || end == '?' {
        let whole = front.push(end) + rest;
        lemma_first_piece_ends(front, end, rest);
        assert(whole.take((front.len() + 1) as int) =~= front.push(end));
        assert(whole.skip((front.len() + 1) as int) =~= rest);
    }
    if front.len() > 0 {
        lemma_first_piece_without_end(front);
        assert(front.take(front.len() as int) =~= front);
        assert(front.skip(front.len() as int) =~= Seq::<char>::empty());
        assert(pieces(Seq::<char>::empty()) =~= Seq::empty());
    }
}

proof fn lemma_first_piece_ends(front: Seq<char>, end: char, rest: Seq<char>)
    requires
        end == '.' || end == '!' || end == '?',
        forall|i: int|
            0 <= i < front.len() ==> (#[trigger] front[i]) != '.' && front[i] != '!' && front[i]
                != '?',
    ensures
        first_piece(front.push(end) + rest) == front.len() + 1,
    decreases front.len(),
{
    let whole = front.push(end) + rest;
    if front.len() > 0 {
        assert(whole[0] == front[0]);
        assert(whole.drop_first() =~= front.drop_first().push(end) + rest);
        lemma_first_piece_ends(front.drop_first(), end, rest);
    } else {
        assert(whole[0] == end);
    }
}

proof fn lemma_first_piece_without_end(text: Seq<char>)
    requires
        forall|i: int|
            0 <= i < text.len() ==> (#[trigger] text[i]) != '.' && text[i] != '!' && text[i] != '?',
    ensures
        first_piece(text) == text.len(),
    decreases text.len(),
{
    if text.len() > 0 {
        assert(!ends_sentence(text[0]));
        lemma_first_piece_without_end(text.drop_first());
    }
}

/// Of the pieces, those with anything in them are kept, in their order and
/// without the white space around them.
pub proof fn lemma_only_white_space_is_dropped(pieces: Seq<Seq<char>>, first: Seq<char>)
    ensures
        kept(Seq::empty()).len() == 0,
        text::is_blank(first) ==> kept(seq![first] + pieces) == kept(pieces),
        !text::is_blank(first) ==> kept(seq![first] + pieces) == seq![text::trimmed(first)] + kept(
            pieces,
        ),
{
    text::lemma_trimming_what_is_blank(first);
    assert((seq![first] + pieces).drop_first() =~= pieces);
}

/// A reader who has read some sentences is at the next, and stays at the last.
/// While a take runs, those before it are read and those after it are ahead.
pub proof fn lemma_where_the_reader_is(passed: nat, count: nat, index: nat)
    ensures
        passed < count ==> spec_reading_at(passed, count) == passed + 1,
        passed >= count ==> spec_reading_at(passed, count) == count,
        spec_line_state(false, spec_reading_at(passed, count), index) is Still,
        passed < count ==> {
            let state = spec_line_state(true, spec_reading_at(passed, count), index);
            &&& state is Read <==> index < passed
            &&& state is Live <==> index == passed
            &&& state is Ahead <==> index > passed
        },
{
}

/// A voice is heard above eight hundredths of full scale, and one level above
/// it is enough.
pub proof fn lemma_when_a_voice_is_heard(levels: Seq<Single>, at: int)
    ensures
        (forall|i: int|
            0 <= i < levels.len() ==> !(Single { bits: HEARD_LEVEL }).spec_less(
                #[trigger] levels[i],
            )) ==> !any_heard(levels),
        0 <= at < levels.len() && (Single { bits: HEARD_LEVEL }).spec_less(levels[at])
            ==> is_heard(levels[at]) && any_heard(levels),
{
    if 0 <= at < levels.len() && (Single { bits: HEARD_LEVEL }).spec_less(levels[at]) {
        assert(is_heard(levels[at]));
    }
}

/// What stands beside the script follows the enrolment: a take that runs, one
/// up for review and one that was turned away each have their own state and
/// their own things to say, and otherwise there is nothing to say yet.
pub proof fn lemma_what_is_said_of_a_take(studio: StudioView)
    ensures
        match studio.enrolment {
            EnrolmentView::Recording => studio.column() is Recording && studio.checks().len() == 3
                && studio.checks()[0] == CheckView::Pass(SaidView::Phrase("enrol.mic_reaching"@))
                && studio.checks()[1] == CheckView::Pass(SaidView::Phrase("enrol.no_clipping_yet"@))
                && studio.checks()[2] == CheckView::Pending(SaidView::Phrase("enrol.room_noise"@)),
            EnrolmentView::Review(quality) => studio.column() is Review && studio.checks().len() == 3
                && studio.checks()[0] == CheckView::Pass(
                SaidView::With(
                    "enrol.whole_script"@,
                    seq![("time"@, spec_duration(quality.seconds))],
                ),
            ) && studio.checks()[1] == CheckView::Pass(SaidView::Phrase("enrol.no_clipping"@))
                && studio.checks()[2] == CheckView::Warn(
                SaidView::With("enrol.snr"@, seq![("db"@, quality.snr_db.spec_rounded())]),
            ),
            EnrolmentView::Rejected(reason) => studio.column() is Rejected && studio.checks()
                == seq![CheckView::Warn(SaidView::Words(reason))],
            EnrolmentView::Ready => studio.column() is Ready && studio.checks().len() == 0,
            EnrolmentView::Closed => studio.column() is Ready && studio.checks().len() == 0,
        },
{
}

/// The heading says what to do now: setup and the workspace ask differently
/// for a recording, and what is reviewed is said to be a file where it is one.
pub proof fn lemma_what_the_heading_says(studio: StudioView)
    ensures
        ({
            let (title, detail) = studio.enrolment_heading();
            &&& studio.enrolment is Recording ==> title == "enrol.title"@ && detail
                == "enrol.recording_detail"@
            &&& studio.enrolment is Review ==> title == "enrol.check_title"@
            &&& studio.enrolment is Review && studio.imported is Some ==> detail
                == "enrol.imported_detail"@
            &&& studio.enrolment is Review && studio.imported is None ==> detail
                == "enrol.check_detail"@
            &&& !(studio.enrolment is Recording) && !(studio.enrolment is Review) ==> {
                &&& studio.in_setup ==> title == "enrol.title"@ && detail == "enrol.subtitle"@
                &&& !studio.in_setup ==> title == "enrol.record_title"@ && detail
                    == "enrol.record_subtitle"@
            }
        }),
{
}

/// Recording begins only with a recorder; one that would not start says why,
/// and neither changes anything else.
pub proof fn lemma_recording_takes_a_recorder(studio: StudioView, started: Result<(), String>)
    ensures
        ({
            let after = studio.recording_begun(started);
            &&& !studio.recorder ==> after == studio
            &&& studio.recorder && started is Ok ==> after.enrolment is Recording
            &&& studio.recorder ==> (started matches Err(reason) ==> after.enrolment
                == EnrolmentView::Rejected(reason@))
            &&& after == (StudioView { enrolment: after.enrolment, ..studio })
        }),
{
}

/// The level above which a voice is heard is eight hundredths of full scale, to
/// the nearest there is.
pub proof fn lemma_what_the_heard_level_is()
    ensures
        ({
            let level = Single { bits: HEARD_LEVEL };
            -50 * pow2(122) < 100 * level.steps() - 8 * pow2(149) < 50 * pow2(122)
        }),
{
    let level = Single { bits: HEARD_LEVEL };
    lemma2_to64();
    lemma_pow2_adds(27, 122);
    lemma_pow2_pos(122);
    assert(level.significand() == 0xA3_D70A && level.shift() == 122);
}

/// The meter is idle unless a take runs. While one does, a bar is lit where a
/// voice is heard and dim where none is, and one lit bar is a good level.
pub proof fn lemma_what_the_meter_shows(
    row: MeterRow,
    recording: bool,
    levels: Seq<Single>,
    at: int,
)
    requires
        row.shows(recording, levels),
        0 <= at < levels.len(),
    ensures
        row.bars@.len() == levels.len(),
        !recording ==> row.bars@[at] is Idle && !row.good && row.word@ == "enrol.quiet"@,
        recording ==> {
            let loud = (Single { bits: HEARD_LEVEL }).spec_less(levels[at]);
            &&& loud ==> row.bars@[at] is Lit && row.good
            &&& !loud ==> row.bars@[at] is Dim
            &&& row.good ==> row.word@ == "enrol.good_level"@
            &&& !row.good ==> row.word@ == "enrol.too_quiet"@
            &&& row.good <==> exists|i: int| 0 <= i < levels.len() && #[trigger] row.bars@[i] is Lit
        },
{
    if recording {
        if row.good {
            let i = choose|i: int| 0 <= i < levels.len() && is_heard(#[trigger] levels[i]);
            assert(row.bars@[i] is Lit);
        }
        if exists|i: int| 0 <= i < levels.len() && #[trigger] row.bars@[i] is Lit {
            let i = choose|i: int| 0 <= i < levels.len() && #[trigger] row.bars@[i] is Lit;
            assert(is_heard(levels[i]));
        }
        if is_heard(levels[at]) {
            assert(any_heard(levels));
        }
    }
}

/// The sentences of a text are those of its first sentence and of the rest: up
/// to and with the character that ends it, without the white space around it,
/// and not at all where there is nothing else.
pub proof fn lemma_sentences_come_one_after_another(front: Seq<char>, end: char, rest: Seq<char>)
    requires
        end == '.' || end == '!' || end == '?',
        forall|i: int|
            0 <= i < front.len() ==> (#[trigger] front[i]) != '.' && front[i] != '!' && front[i]
                != '?',
    ensures
        sentences(front.push(end) + rest) == seq![text::trimmed(front.push(end))] + sentences(rest),
        front.len() > 0 && !text::is_blank(front) ==> sentences(front) == seq![
            text::trimmed(front),
        ],
        text::is_blank(front) ==> sentences(front).len() == 0,
{
    lemma_a_text_is_cut_after_each_sentence(front, end, rest);
    lemma_only_white_space_is_dropped(pieces(rest), front.push(end));
    lemma_only_white_space_is_dropped(Seq::empty(), front);
    assert(seq![front] + Seq::<Seq<char>>::empty() =~= seq![front]);
    assert(!text::is_blank(front.push(end))) by {
        let whole = front.push(end);
        assert(!text::is_white_space(whole[front.len() as int]));
    }
    if front.len() == 0 {
        assert(front =~= Seq::<char>::empty());
    }
    assert(kept(Seq::<Seq<char>>::empty()) =~= Seq::empty());
    assert(seq![text::trimmed(front)] + kept(Seq::<Seq<char>>::empty()) =~= seq![
        text::trimmed(front),
    ]);
}

/// What is read off a voice is what is in it.
pub proof fn lemma_what_is_read_off_a_voice(voice: Voice)
    ensures
        enrolled_view(voice).voice_id == voice.voice_id@,
        enrolled_view(voice).label == voice.label@,
        enrolled_view(voice).reference_audio == voice.reference_audio@,
        enrolled_view(voice).reference_text == voice.reference_text@,
        enrolled_view(voice).seconds == voice.seconds,
        enrolled_view(voice).statement == voice.consent.statement@,
        enrolled_view(voice).app_version == voice.consent.app_version@,
        enrolled_view(voice).source == voice.consent.source@,
{
}

/// The script is shown sentence by sentence. While it is read, what has been is
/// set back, the next is live and the note keeps the place; before that every
/// sentence is still and the note says how much there is.
pub proof fn lemma_how_the_script_is_shown(
    studio: StudioView,
    panel: ScriptPanel,
    passed: nat,
    at: int,
)
    requires
        panel.shows(studio, passed),
        0 <= at < panel.lines@.len(),
    ensures
        panel.lines@.len() == sentences(ENROLMENT_SCRIPT@).len(),
        panel.lines@[at].0@ == sentences(ENROLMENT_SCRIPT@)[at],
        !(studio.enrolment is Recording) ==> {
            &&& panel.lines@[at].1 is Still
            &&& panel.note is Length
            &&& panel.below@ == "enrol.same_script"@
        },
        studio.enrolment is Recording ==> {
            &&& at < passed && passed < panel.lines@.len() ==> panel.lines@[at].1 is Read
            &&& at == passed ==> panel.lines@[at].1 is Live
            &&& at > passed ==> panel.lines@[at].1 is Ahead
            &&& panel.below@ == "enrol.keep_reading"@
            &&& panel.note matches ScriptNote::Place(place, count) && count == panel.lines@.len()
                && (passed < panel.lines@.len() ==> place == passed + 1)
        },
{
    assert(panel.lines@[at].0@ == sentences(ENROLMENT_SCRIPT@)[at]);
    assert(panel.lines.len() <= usize::MAX);
}

} // verus!
