//! Hearing things: the sound in the transport, the take under review, and a
//! voice before it is picked.

use vstd::prelude::*;
use vstd::string::*;

use crate::clips::DraftView;
use crate::engine::{SynthesisRequest, find, found};
use crate::generation::{
    RequestView, lemma_a_clip_is_read_again_as_it_was_made,
    lemma_a_draft_is_spoken_with_its_own_settings, lemma_when_the_engine_is_asked, request_view,
};
use crate::path::{are_same, same_path};
use crate::single::Single;
use crate::studio::{Status, StatusView, StudioView, VoiceStudio};
use crate::text;

verus! {

/// What pressing play on the take under review comes to.
#[derive(Clone, Debug)]
pub enum TakeAction {
    /// It is what the transport holds: pause it, or go on.
    Toggle,
    /// Load it and play it: where it is, and how long it runs.
    Load(String, Single),
}

/// What pressing play in the transport comes to.
#[derive(Clone, Debug)]
pub enum PlaybackAction {
    Nothing,
    /// A finished sound replays rather than sitting at the end: load this
    /// again, if it is still there, and play.
    Replay(Option<(String, Single)>),
    Toggle,
}

/// What hearing a voice comes to.
#[derive(Clone, Debug)]
pub enum Hearing {
    /// Play its recording.
    Reference(String),
    /// The bundled voice has no recording: it is the model speaking as itself,
    /// so hearing it means generating a line.
    Speak(Option<SynthesisRequest>),
}

/// Whether this is what pressing play on the take under review comes to.
pub open spec fn plays_take(action: Option<TakeAction>, studio: StudioView) -> bool {
    match (action, studio.take) {
        (None, None) => true,
        (Some(TakeAction::Toggle), Some(_)) => studio.holds_take(),
        (Some(TakeAction::Load(path, seconds)), Some(take)) => !studio.holds_take() && path@
            == take.path && seconds == take.seconds,
        _ => false,
    }
}

impl PlaybackAction {
    /// Whether this is what pressing play comes to, where `finished` is whether
    /// the player has run out, if there is one.
    pub open spec fn plays(self, studio: StudioView, finished: Option<bool>) -> bool {
        match finished {
            None => self is Nothing,
            Some(false) => self is Toggle,
            Some(true) => match (self, studio.clip) {
                (PlaybackAction::Replay(Some((path, seconds))), Some(clip)) => path@ == clip.0
                    && seconds == clip.1,
                (PlaybackAction::Replay(None), None) => true,
                _ => false,
            },
        }
    }
}

impl StudioView {
    /// Whether the transport holds the take under review.
    pub open spec fn holds_take(self) -> bool {
        match (self.take, self.clip) {
            (Some(take), Some((path, _))) => are_same(path, take.path),
            _ => false,
        }
    }

    /// The take has been dropped, and the transport with it when that is what
    /// it was holding.
    pub open spec fn without_take(self) -> StudioView {
        if self.holds_take() {
            StudioView { clip: None, clip_levels: Seq::empty(), take: None, ..self }
        } else {
            StudioView { take: None, ..self }
        }
    }

    /// A sound in the transport.
    pub open spec fn holding(
        self,
        path: Seq<char>,
        seconds: Single,
        levels: Seq<Single>,
        failure: Option<Seq<char>>,
    ) -> StudioView {
        StudioView {
            clip: Some((path, seconds)),
            clip_levels: levels,
            status: match failure {
                Some(reason) => StatusView::Failed(reason),
                None => self.status,
            },
            ..self
        }
    }

    /// What is known once a voice has been asked to be heard. One with a
    /// recording is only played; the bundled one is chosen, and speaks.
    pub open spec fn hearing(self, voice: Option<Seq<char>>) -> StudioView {
        match self.reference_of(voice) {
            Some(_) => self,
            None => self.choosing_voice(None).spoken(None),
        }
    }

    /// What the engine is asked to speak when a voice is to be heard.
    pub open spec fn hearing_request(self, voice: Option<Seq<char>>) -> Option<RequestView> {
        match self.reference_of(voice) {
            Some(_) => None,
            None => self.choosing_voice(None).request(None),
        }
    }

    /// The draft being written with a seed of its own, or without the one it
    /// had. The last four digits of what was drawn are kept.
    pub open spec fn rerolled(self, drawn: u32) -> StudioView {
        match self.draft() {
            Some(draft) => self.with_draft(
                DraftView {
                    seed: if draft.seed is Some {
                        None
                    } else {
                        Some((drawn % 10_000) as u32)
                    },
                    ..draft
                },
            ),
            None => self,
        }
    }

    /// This seed held for what comes next, or let go where it is the one held.
    pub open spec fn pinned(self, seed: u32) -> StudioView {
        StudioView {
            pinned_seed: if self.pinned_seed == Some(seed) {
                None
            } else {
                Some(seed)
            },
            ..self
        }
    }

    /// The recording of a voice, where it is one that is enrolled.
    pub open spec fn reference_of(self, voice: Option<Seq<char>>) -> Option<Seq<char>> {
        match voice {
            Some(id) => match found(self.voices, id) {
                Some(voice) => Some(voice.reference_audio@),
                None => None,
            },
            None => None,
        }
    }
}

impl VoiceStudio {
    /// Put a finished sound in the transport, ready but not playing. `levels`
    /// is its shape, none where the file could not be read; `failure` is what
    /// the player said if it would not take it.
    pub fn load_clip(
        &mut self,
        path: &str,
        audio_s: Single,
        levels: Option<Vec<Single>>,
        failure: Option<String>,
    )
        ensures
            final(self)@ == old(self)@.holding(
                path@,
                audio_s,
                match levels {
                    Some(levels) => levels@,
                    None => Seq::empty(),
                },
                text::name_view(failure),
            ),
    {
        self.clip = Some((path.to_owned(), audio_s));
        self.clip_levels = match levels {
            Some(levels) => levels,
            None => Vec::new(),
        };
        match failure {
            Some(reason) => {
                self.status = Status::Failed(reason);
            },
            None => {},
        }
    }

    /// Whether the transport holds the take under review.
    pub fn take_loaded(&self) -> (loaded: bool)
        ensures
            loaded == self@.holds_take(),
    {
        match (&self.take, &self.clip) {
            (Some(take), Some((path, _))) => same_path(path.as_str(), take.path.as_str()),
            _ => false,
        }
    }

    /// Drop the take. Whether to pause the player: it was holding what goes.
    pub fn clear_take(&mut self) -> (pause: bool)
        ensures
            pause == old(self)@.holds_take(),
            final(self)@ == old(self)@.without_take(),
    {
        let loaded = self.take_loaded();
        if loaded {
            self.clip = None;
            self.clip_levels = Vec::new();
        }
        self.take = None;
        loaded
    }

    /// Play the take under review, or pause it. Loaded on demand rather than
    /// kept in the player, which otherwise belongs to the clips.
    pub fn toggle_take(&self) -> (action: Option<TakeAction>)
        ensures
            plays_take(action, self@),
    {
        match &self.take {
            Some(take) => if self.take_loaded() {
                Some(TakeAction::Toggle)
            } else {
                Some(TakeAction::Load(take.path.clone(), take.seconds))
            },
            None => None,
        }
    }

    /// Play or pause what the transport holds. `finished` is whether the
    /// player has run out, where there is a player.
    pub fn toggle_playback(&self, finished: Option<bool>) -> (action: PlaybackAction)
        ensures
            action.plays(self@, finished),
    {
        match finished {
            None => PlaybackAction::Nothing,
            Some(finished) => if finished {
                match &self.clip {
                    Some((path, seconds)) => PlaybackAction::Replay(Some((path.clone(), *seconds))),
                    None => PlaybackAction::Replay(None),
                }
            } else {
                PlaybackAction::Toggle
            },
        }
    }

    /// The sound the transport is pointed at, if any.
    pub fn playing_clip(&self) -> (path: Option<&str>)
        ensures
            match (path, self@.clip) {
                (Some(path), Some(clip)) => path@ == clip.0,
                (None, None) => true,
                _ => false,
            },
    {
        match &self.clip {
            Some((path, _)) => Some(path.as_str()),
            None => None,
        }
    }

    /// Play a voice so it can be heard before it is picked.
    pub fn hear_voice(&mut self, voice_id: Option<&str>) -> (hearing: Hearing)
        ensures
            ({
                let asked = match voice_id {
                    Some(id) => Some(id@),
                    None => None,
                };
                &&& final(self)@ == old(self)@.hearing(asked)
                &&& match old(self)@.reference_of(asked) {
                    Some(path) => hearing matches Hearing::Reference(played) && played@ == path,
                    None => hearing matches Hearing::Speak(request) && request_view(request)
                        == old(self)@.hearing_request(asked),
                }
            }),
    {
        let reference = match voice_id {
            Some(id) => match find(&self.voices, id) {
                Some(voice) => Some(voice.reference_audio.clone()),
                None => None,
            },
            None => None,
        };
        match reference {
            Some(path) => Hearing::Reference(path),
            None => {
                self.choose_voice(None);
                Hearing::Speak(self.generate(None))
            },
        }
    }

    /// Draw a seed for the draft being written, or go back to a fresh one each
    /// time. `drawn` is what was drawn, of which the last four digits are
    /// kept.
    pub fn reroll_seed(&mut self, drawn: u32)
        ensures
            final(self)@ == old(self)@.rerolled(drawn),
    {
        match self.draft_place() {
            Some(at) => {
                let seed: Option<u32> = if self.drafts[at].seed.is_some() {
                    None
                } else {
                    Some(drawn % 10_000)
                };
                self.drafts[at].seed = seed;
                assert(self@.drafts =~= old(self)@.drafts.update(
                    at as int,
                    DraftView { seed, ..old(self)@.drafts[at as int] },
                ));
            },
            None => {},
        }
    }

    /// Hold this seed for the next generation, or let it go if it is the one
    /// held.
    pub fn pin_seed(&mut self, seed: u32)
        ensures
            final(self)@ == old(self)@.pinned(seed),
    {
        let held = match self.pinned_seed {
            Some(held) => held == seed,
            None => false,
        };
        self.pinned_seed = if held {
            None
        } else {
            Some(seed)
        };
    }
}

/// A text with quotes and backslashes escaped.
pub open spec fn escaped(text: Seq<char>) -> Seq<char>
    decreases text.len(),
{
    if text.len() == 0 {
        Seq::empty()
    } else {
        let before = escaped(text.drop_last());
        if text.last() == '\\' {
            before + seq!['\\', '\\']
        } else if text.last() == '"' {
            before + seq!['\\', '"']
        } else {
            before.push(text.last())
        }
    }
}

fn escape(text: &str) -> (safe: String)
    ensures
        safe@ == escaped(text@),
{
    proof {
        reveal_strlit("");
        reveal_strlit("\\\\");
        reveal_strlit("\\\"");
    }
    let chars = text::chars_of(text);
    let mut safe = "".to_owned();
    let mut i: usize = 0;
    assert(text@.take(0) =~= Seq::empty());
    while i < chars.len()
        invariant
            chars@ == text@,
            i <= chars.len(),
            safe@ == escaped(text@.take(i as int)),
            "\\\\"@ == seq!['\\', '\\'],
            "\\\""@ == seq!['\\', '"'],
        decreases chars.len() - i,
    {
        assert(text@.take(i + 1).drop_last() =~= text@.take(i as int));
        assert(text@.take(i + 1).last() == text@[i as int]);
        let c = chars[i];
        if c == '\\' {
            safe.append("\\\\");
        } else if c == '"' {
            safe.append("\\\"");
        } else {
            safe.append(text.substring_char(i, i + 1));
            assert(safe@ =~= escaped(text@.take(i as int)).push(c));
        }
        i = i + 1;
    }
    assert(text@.take(text@.len() as int) =~= text@);
    safe
}

/// The script that puts a file on the clipboard as the recording itself rather
/// than as its path.
pub fn clipboard_script(path: &str) -> (script: String)
    ensures
        script@ == "set the clipboard to (POSIX file \""@ + escaped(path@) + "\")"@,
{
    let mut script = "set the clipboard to (POSIX file \"".to_owned();
    script.append(escape(path).as_str());
    script.append("\")");
    script
}

/// No quote in a path can end the text it is put in: every quote, and every
/// backslash, has a backslash before it.
pub proof fn lemma_nothing_escapes(text: Seq<char>)
    ensures
        forall|i: int|
            0 <= i < escaped(text).len() && #[trigger] escaped(text)[i] == '"' ==> i > 0
                && escaped(text)[i - 1] == '\\',
        escaped(text).len() > 0 && escaped(text).last() == '\\' ==> escaped(text).len() > 1
            && escaped(text)[escaped(text).len() - 2] == '\\',
    decreases text.len(),
{
    if text.len() > 0 {
        lemma_nothing_escapes(text.drop_last());
    }
}

/// Escaping can be undone: different texts stay different.
pub proof fn lemma_escaping_keeps_texts_apart(a: Seq<char>, b: Seq<char>)
    requires
        escaped(a) == escaped(b),
    ensures
        a == b,
    decreases a.len() + b.len(),
{
    if a.len() == 0 || b.len() == 0 {
        assert(a =~= b);
    } else {
        lemma_last_is_told(a);
        lemma_last_is_told(b);
        assert(a.last() == b.last());
        let (front, other) = (a.drop_last(), b.drop_last());
        let n = if a.last() == '\\' || a.last() == '"' {
            2int
        } else {
            1int
        };
        assert(escaped(front) =~= escaped(a).take(escaped(a).len() - n));
        assert(escaped(other) =~= escaped(b).take(escaped(b).len() - n));
        lemma_escaping_keeps_texts_apart(front, other);
        assert(a =~= front.push(a.last()));
        assert(b =~= other.push(b.last()));
    }
}

proof fn lemma_last_is_told(text: Seq<char>)
    requires
        text.len() > 0,
    ensures
        escaped(text).len() > 0,
        escaped(text).last() == text.last(),
{
}

/// Dropping the take never leaves the transport on a recording that is no
/// longer under review, and never touches any other sound.
pub proof fn lemma_dropping_the_take_frees_the_transport(studio: StudioView)
    ensures
        studio.without_take().take is None,
        studio.holds_take() ==> studio.without_take().clip is None,
        !studio.holds_take() ==> studio.without_take().clip == studio.clip,
{
}

/// The transport holds the take under review exactly where there are both and
/// they are in the same place.
pub proof fn lemma_when_the_transport_holds_the_take(studio: StudioView)
    ensures
        studio.take is None || studio.clip is None ==> !studio.holds_take(),
        studio.take matches Some(take) ==> (studio.clip matches Some((path, _)) ==> (
        studio.holds_take() <==> are_same(path, take.path))),
{
}

/// Dropping the take drops it and what the transport held of it, and changes
/// nothing else.
pub proof fn lemma_dropping_the_take_changes_nothing_else(studio: StudioView)
    ensures
        ({
            let after = studio.without_take();
            &&& after.take is None
            &&& studio.holds_take() ==> after.clip is None && after.clip_levels.len() == 0
            &&& !studio.holds_take() ==> after.clip == studio.clip && after.clip_levels
                == studio.clip_levels
            &&& after == (StudioView {
                take: None,
                clip: after.clip,
                clip_levels: after.clip_levels,
                ..studio
            })
        }),
{
}

/// What is put in the transport is what it holds, with its length and its
/// shape; a player that would not take it says why, and nothing else changes.
pub proof fn lemma_the_transport_holds_what_was_put_in_it(
    studio: StudioView,
    path: Seq<char>,
    seconds: Single,
    levels: Seq<Single>,
    failure: Option<Seq<char>>,
)
    ensures
        ({
            let after = studio.holding(path, seconds, levels, failure);
            &&& after.clip == Some((path, seconds))
            &&& after.clip_levels == levels
            &&& failure is None ==> after.status == studio.status
            &&& failure matches Some(reason) ==> after.status == StatusView::Failed(reason)
            &&& after == (StudioView {
                clip: after.clip,
                clip_levels: levels,
                status: after.status,
                ..studio
            })
        }),
{
}

/// A voice is heard by its recording where it is enrolled, and the bundled one,
/// or one that has gone, has none.
pub proof fn lemma_only_an_enrolled_voice_has_a_recording(
    studio: StudioView,
    voice: Option<Seq<char>>,
)
    ensures
        voice is None ==> studio.reference_of(voice) is None,
        voice matches Some(id) ==> {
            &&& found(studio.voices, id) is None ==> studio.reference_of(voice) is None
            &&& found(studio.voices, id) matches Some(speaker) ==> studio.reference_of(voice)
                == Some(speaker.reference_audio@)
        },
{
}

/// Escaping goes character by character: a quote and a backslash get a
/// backslash before them, and anything else stays as it is.
pub proof fn lemma_escaping_goes_by_character(text: Seq<char>, c: char)
    ensures
        escaped(Seq::empty()) == Seq::<char>::empty(),
        c == '"' ==> escaped(text.push(c)) == escaped(text).push('\\').push('"'),
        c == '\\' ==> escaped(text.push(c)) == escaped(text).push('\\').push('\\'),
        c != '"' && c != '\\' ==> escaped(text.push(c)) == escaped(text).push(c),
{
    assert(text.push(c).drop_last() =~= text);
}

/// A seed that is pinned is held, and pinning it again lets it go; nothing else
/// changes. While it is held, a clip that is read again is read with it, and so
/// is a draft that has no seed of its own.
pub proof fn lemma_a_pinned_seed_is_held_until_it_is_let_go(studio: StudioView, seed: u32)
    ensures
        studio.pinned_seed != Some(seed) ==> {
            let held = studio.pinned(seed);
            &&& held.pinned_seed == Some(seed)
            &&& held.pinned(seed).pinned_seed is None
            &&& studio.open_clip() is Some ==> (held.request(None) matches Some(request)
                ==> request.seed == Some(seed))
            &&& (studio.draft() matches Some(draft) && draft.seed is None) ==> (held.request(
                None,
            ) matches Some(request) ==> request.seed == Some(seed))
        },
        studio.pinned_seed == Some(seed) ==> studio.pinned(seed).pinned_seed is None,
        studio.pinned(seed) == (StudioView {
            pinned_seed: studio.pinned(seed).pinned_seed,
            ..studio
        }),
{
    let held = studio.pinned(seed);
    if studio.draft() is Some {
        assert(held.draft() == studio.draft());
        lemma_a_draft_is_spoken_with_its_own_settings(held, None);
    }
    if studio.open_clip() is Some {
        lemma_a_clip_is_read_again_as_it_was_made(held, None);
    }
}

/// Drawing a seed gives one of four digits to the draft being written, and
/// drawing again takes it back; nothing else changes, and without a draft
/// nothing does.
pub proof fn lemma_a_drawn_seed_is_the_drafts(studio: StudioView, drawn: u32)
    ensures
        studio.draft() is None ==> studio.rerolled(drawn) == studio,
        studio.draft_place() matches Some(at) ==> {
            let (before, after) = (studio.drafts[at], studio.rerolled(drawn).drafts[at]);
            &&& before.seed is Some ==> after.seed is None
            &&& before.seed is None ==> (after.seed matches Some(seed) && seed < 10_000 && (drawn
                - seed) % 10_000 == 0)
            &&& after == (DraftView { seed: after.seed, ..before })
            &&& forall|j: int|
                0 <= j < studio.drafts.len() && j != at ==> #[trigger] studio.rerolled(
                    drawn,
                ).drafts[j] == studio.drafts[j]
        },
        studio.rerolled(drawn) == (StudioView { drafts: studio.rerolled(drawn).drafts, ..studio }),
        studio.rerolled(drawn).drafts.len() == studio.drafts.len(),
{
    if studio.draft() is Some {
        crate::clips::draft_ids(studio.drafts).index_of_first_ensures(studio.selected->Draft_0);
    }
}

/// Hearing an enrolled voice plays its recording and changes nothing. Hearing
/// any other is hearing the bundled one, which is chosen for the draft that is
/// open and speaks its words.
pub proof fn lemma_hearing_a_voice_speaks_only_where_there_is_no_recording(
    studio: StudioView,
    voice: Option<Seq<char>>,
)
    ensures
        (voice matches Some(id) && found(studio.voices, id) is Some) ==> studio.hearing(voice)
            == studio && studio.hearing_request(voice) is None,
        !(voice matches Some(id) && found(studio.voices, id) is Some) ==> {
            &&& studio.hearing(voice).selected_voice is None
            &&& studio.draft() is Some ==> {
                &&& studio.hearing_request(voice) is Some <==> studio.engine && !studio.is_busy()
                    && studio.ready() && !text::is_blank(studio.text)
                &&& studio.hearing_request(voice) matches Some(request) ==> request.voice_id is None
                    && request.text == studio.text
            }
        },
{
    if !(voice matches Some(id) && found(studio.voices, id) is Some) {
        let chosen = studio.choosing_voice(None);
        if studio.draft() is Some {
            let listed = crate::clips::draft_ids(studio.drafts);
            listed.index_of_first_ensures(studio.selected->Draft_0);
            assert(crate::clips::draft_ids(chosen.drafts) =~= listed);
            assert(chosen.draft() == Some(DraftView { voice_id: None, ..studio.draft()->0 }));
            lemma_a_draft_is_spoken_with_its_own_settings(chosen, None);
            lemma_when_the_engine_is_asked(chosen, None);
            assert(chosen.ready() == studio.ready());
        }
        crate::clips::lemma_saving_touches_one_draft(chosen);
    }
}

/// Pressing play on the take loads it unless the transport holds it already,
/// from where it is and for as long as it runs; and with no take there is
/// nothing to play. Having loaded it, pressing again goes on with it.
pub proof fn lemma_the_take_is_loaded_once(
    studio: StudioView,
    action: Option<TakeAction>,
    again: Option<TakeAction>,
    levels: Seq<Single>,
)
    requires
        plays_take(action, studio),
        studio.take matches Some(take) ==> plays_take(
            again,
            studio.holding(take.path, take.seconds, levels, None),
        ),
    ensures
        studio.take is None <==> action is None,
        action matches Some(TakeAction::Load(path, seconds)) ==> !studio.holds_take() && path@
            == studio.take->0.path && seconds == studio.take->0.seconds,
        studio.take is Some && studio.holds_take() ==> action matches Some(TakeAction::Toggle),
        studio.take is Some && !studio.holds_take() ==> action matches Some(TakeAction::Load(..)),
        studio.take is Some ==> again matches Some(TakeAction::Toggle),
{
}

/// Pressing play on the transport goes on with what is not over, replays what
/// is, from where it is and for as long as it runs, and does nothing without a
/// player.
pub proof fn lemma_what_is_over_is_replayed(studio: StudioView, action: PlaybackAction, over: bool)
    requires
        action.plays(studio, Some(over)),
    ensures
        !over <==> action is Toggle,
        over && studio.clip is None ==> action matches PlaybackAction::Replay(None),
        over ==> (studio.clip matches Some((path, seconds)) ==> (
        action matches PlaybackAction::Replay(Some((replayed, runs))) && replayed@ == path && runs
            == seconds)),
{
}

} // verus!
