//! The right panel: everything about one clip or one voice.
//!
//! The sidebar rows are deliberately thin, because a list is for finding
//! things, not for reading them. What a clip was actually made from and what a
//! voice was learned from is looked at while you work, so it lives beside the
//! work. The panel is closable and it follows the selection.

use vstd::prelude::*;
use vstd::string::*;

use crate::clips::SelectedView;
use crate::engine::{Clip, Take, Voice, find, found};
use crate::single::Single;
use crate::studio::{StudioView, VoiceStudio};
use crate::text::{name_ref, name_view};
use crate::workspace::{duration, spec_duration};

verus! {

/// What the panel is looking at.
#[derive(Clone, Debug, PartialEq, Eq)]
pub enum Inspect {
    Clip(String),
    Voice(String),
}

#[verifier::ext_equal]
pub enum InspectView {
    Clip(Seq<char>),
    Voice(Seq<char>),
}

impl View for Inspect {
    type V = InspectView;

    open spec fn view(&self) -> InspectView {
        match self {
            Inspect::Clip(id) => InspectView::Clip(id@),
            Inspect::Voice(id) => InspectView::Voice(id@),
        }
    }
}

impl StudioView {
    /// What the panel looks at, while it is open: the clip that is selected,
    /// or the voice the draft speaks in.
    pub open spec fn inspected(self) -> Option<InspectView> {
        if !self.inspector {
            None
        } else {
            match self.selected {
                SelectedView::Clip(id, _) => Some(InspectView::Clip(id)),
                SelectedView::Draft(_) => match self.voice_in_force() {
                    Some(voice) => Some(InspectView::Voice(voice)),
                    None => None,
                },
            }
        }
    }
}

/// What produced a clip, in the order you would ask: the words, then the voice
/// and model, then the seed that would reproduce it.
#[derive(Clone, Debug)]
pub struct ClipBody {
    pub title: String,
    pub words: String,
    /// Who spoke it; `None` for the application's own voice.
    pub voice: Option<String>,
    pub model: String,
    /// How long it runs, and the seconds it took.
    pub length: String,
    pub took: String,
    /// Seconds of work and seconds of speech, where both were measured.
    pub speed: Option<(Single, Single)>,
    /// The seed, and whether it is the one being held.
    pub seed: Option<(u32, bool)>,
    pub path: String,
}

impl ClipBody {
    pub open spec fn shows(self, studio: StudioView, clip: Clip, take: Take) -> bool {
        &&& self.title@ == clip.name@
        &&& self.words@ == clip.text@
        &&& name_view(self.voice) == (match name_view(clip.voice_id) {
            Some(id) => match found(studio.voices, id) {
                Some(voice) => Some(voice.label@),
                None => None,
            },
            None => None,
        })
        &&& self.model@ == (match found(studio.models, clip.model@) {
            Some(model) => model.label@,
            None => clip.model@,
        })
        &&& self.length@ == spec_duration(take.audio_s)
        &&& self.took@ == take.gen_s.spec_tenths()
        &&& self.speed == (if take.gen_s.spec_is_positive() && take.audio_s.spec_is_positive() {
            Some((take.gen_s, take.audio_s))
        } else {
            None
        })
        &&& self.seed == (match take.seed {
            Some(seed) => Some((seed, studio.pinned_seed == Some(seed))),
            None => None,
        })
        &&& self.path@ == take.path@
    }
}

/// What a voice was learned from, and what was agreed to when it was.
#[derive(Clone, Debug)]
pub struct VoiceBody {
    pub title: String,
    /// How long the recording runs, where that was measured.
    pub length: Option<String>,
    /// How many clips it speaks.
    pub clips: usize,
    pub reference: String,
    pub words: String,
    /// The claim that was made, and where and by what version it was asked
    /// for; `None` where none was recorded.
    pub consent: Option<(String, String, String)>,
}

impl VoiceBody {
    pub open spec fn shows(self, studio: StudioView, voice: Voice) -> bool {
        &&& self.title@ == voice.label@
        &&& match self.length {
            Some(length) => voice.seconds.spec_is_positive() && length@ == spec_duration(
                voice.seconds,
            ),
            None => !voice.seconds.spec_is_positive(),
        }
        &&& self.clips == studio.clips_of_voice(voice.voice_id@).len()
        &&& self.reference@ == voice.reference_audio@
        &&& self.words@ == voice.reference_text@
        &&& match self.consent {
            Some((statement, source, version)) => {
                &&& voice.consent.statement@.len() > 0
                &&& statement@ == voice.consent.statement@
                &&& source@ == voice.consent.source@
                &&& version@ == voice.consent.app_version@
            },
            None => voice.consent.statement@.len() == 0,
        }
    }
}

/// What the panel shows.
#[derive(Clone, Debug)]
pub enum Panel {
    Clip(ClipBody),
    Voice(VoiceBody),
}

/// Whether this is the panel for what is known.
pub open spec fn panel_shows(panel: Option<Panel>, studio: StudioView) -> bool {
    match panel {
        Some(Panel::Clip(body)) => {
            &&& studio.inspector
            &&& studio.open_clip() is Some && studio.open_take() is Some
            &&& body.shows(studio, studio.open_clip()->0, studio.open_take()->0)
        },
        Some(Panel::Voice(body)) => {
            &&& studio.inspected() matches Some(InspectView::Voice(id)) && found(
                studio.voices,
                id,
            ) matches Some(voice) && body.shows(studio, voice)
        },
        None => match studio.inspected() {
            Some(InspectView::Clip(_)) => studio.open_take() is None,
            Some(InspectView::Voice(id)) => found(studio.voices, id) is None,
            None => true,
        },
    }
}

impl VoiceStudio {
    /// What the panel is looking at, while it is open.
    pub fn inspected(&self) -> (looking_at: Option<Inspect>)
        ensures
            match (looking_at, self@.inspected()) {
                (Some(a), Some(b)) => a@ == b,
                (None, None) => true,
                _ => false,
            },
    {
        if !self.inspector {
            return None;
        }
        match &self.selected {
            crate::clips::Selected::Clip(id, _) => Some(Inspect::Clip(id.clone())),
            crate::clips::Selected::Draft(_) => match self.clip_voice() {
                Some(voice) => Some(Inspect::Voice(voice.to_owned())),
                None => None,
            },
        }
    }

    /// What produced a take of a clip.
    pub fn clip_body(&self, clip: &Clip, take: &Take) -> (body: ClipBody)
        ensures
            body.shows(self@, *clip, *take),
    {
        let voice = match name_ref(&clip.voice_id) {
            Some(id) => match find(&self.voices, id) {
                Some(voice) => Some(voice.label.clone()),
                None => None,
            },
            None => None,
        };
        let model = match find(&self.models, clip.model.as_str()) {
            Some(model) => model.label.clone(),
            None => clip.model.clone(),
        };
        let seed = match take.seed {
            Some(seed) => {
                let pinned = match self.pinned_seed {
                    Some(held) => held == seed,
                    None => false,
                };
                Some((seed, pinned))
            },
            None => None,
        };
        ClipBody {
            title: clip.name.clone(),
            words: clip.text.clone(),
            voice,
            model,
            length: duration(take.audio_s),
            took: take.gen_s.tenths(),
            speed: if take.gen_s.is_positive() && take.audio_s.is_positive() {
                Some((take.gen_s, take.audio_s))
            } else {
                None
            },
            seed,
            path: take.path.clone(),
        }
    }

    /// What a voice was learned from.
    pub fn voice_body(&self, voice: &Voice) -> (body: VoiceBody)
        ensures
            body.shows(self@, *voice),
    {
        let consent = if voice.consent.statement.as_str().is_empty() {
            None
        } else {
            Some(
                (
                    voice.consent.statement.clone(),
                    voice.consent.source.clone(),
                    voice.consent.app_version.clone(),
                ),
            )
        };
        VoiceBody {
            title: voice.label.clone(),
            length: if voice.seconds.is_positive() {
                Some(duration(voice.seconds))
            } else {
                None
            },
            clips: self.clips_by(voice.voice_id.as_str()),
            reference: voice.reference_audio.clone(),
            words: voice.reference_text.clone(),
            consent,
        }
    }

    /// The panel: nothing at all while it is closed, or while what it looks at
    /// is not there, so that the workspace keeps its width.
    pub fn inspector_panel(&self) -> (panel: Option<Panel>)
        ensures
            panel_shows(panel, self@),
    {
        match self.inspected() {
            Some(Inspect::Clip(_)) => match (self.clip(), self.take()) {
                (Some(clip), Some(take)) => Some(Panel::Clip(self.clip_body(clip, take))),
                _ => None,
            },
            Some(Inspect::Voice(id)) => match find(&self.voices, id.as_str()) {
                Some(voice) => Some(Panel::Voice(self.voice_body(voice))),
                None => None,
            },
            None => None,
        }
    }
}

/// The panel follows the selection: while it is open on a clip, it is the one
/// being listened to.
pub proof fn lemma_the_panel_follows_the_selection(studio: StudioView)
    ensures
        studio.inspected() matches Some(InspectView::Clip(id)) ==> id == studio.selected.row(),
        !studio.inspector ==> studio.inspected() is None,
{
}

/// What the panel looks at while it is open: the clip that is selected, and for
/// a draft the voice it speaks in, which the bundled voice is not.
pub proof fn lemma_what_the_panel_looks_at(studio: StudioView)
    requires
        studio.inspector,
    ensures
        studio.selected matches SelectedView::Clip(id, _) ==> studio.inspected() == Some(
            InspectView::Clip(id),
        ),
        studio.selected is Draft ==> {
            &&& studio.draft() is None ==> studio.inspected() is None
            &&& studio.draft() matches Some(draft) ==> {
                &&& draft.voice_id is None ==> studio.inspected() is None
                &&& draft.voice_id matches Some(voice) ==> studio.inspected() == Some(
                    InspectView::Voice(voice),
                )
            }
        },
{
}

/// The panel tells what made a take: the clip's words and name, the label of
/// the voice where it is still enrolled, the label of the model or its id where
/// the catalogue has lost it, and the take's own length, file and seed, with
/// whether that seed is the one being held.
pub proof fn lemma_what_the_panel_tells_of_a_take(
    studio: StudioView,
    clip: Clip,
    take: Take,
    body: ClipBody,
)
    requires
        body.shows(studio, clip, take),
    ensures
        body.title@ == clip.name@,
        body.words@ == clip.text@,
        body.path@ == take.path@,
        body.length@ == spec_duration(take.audio_s),
        body.took@ == take.gen_s.spec_tenths(),
        clip.voice_id is None ==> body.voice is None,
        clip.voice_id matches Some(id) ==> {
            &&& found(studio.voices, id@) is None ==> body.voice is None
            &&& found(studio.voices, id@) matches Some(voice) ==> (body.voice matches Some(label)
                && label@ == voice.label@)
        },
        found(studio.models, clip.model@) is None ==> body.model@ == clip.model@,
        found(studio.models, clip.model@) matches Some(model) ==> body.model@ == model.label@,
        body.speed is Some <==> take.gen_s.spec_is_positive() && take.audio_s.spec_is_positive(),
        body.speed matches Some((work, speech)) ==> work == take.gen_s && speech == take.audio_s,
        take.seed is None ==> body.seed is None,
        take.seed matches Some(seed) ==> body.seed == Some((seed, studio.pinned_seed == take.seed)),
{
}

/// The panel tells what a voice was learned from, how many clips it speaks, and
/// what was agreed to, with a claim told only where one was recorded.
pub proof fn lemma_what_the_panel_tells_of_a_voice(
    studio: StudioView,
    voice: Voice,
    body: VoiceBody,
)
    requires
        body.shows(studio, voice),
    ensures
        body.title@ == voice.label@,
        body.reference@ == voice.reference_audio@,
        body.words@ == voice.reference_text@,
        body.clips == studio.clips.filter(
            |clip: Clip| clip.voice_id matches Some(id) && id@ == voice.voice_id@,
        ).len(),
        body.length is Some <==> voice.seconds.spec_is_positive(),
        body.length matches Some(length) ==> length@ == spec_duration(voice.seconds),
        body.consent is Some <==> voice.consent.statement@.len() > 0,
        body.consent matches Some((statement, source, version)) ==> {
            &&& statement@ == voice.consent.statement@
            &&& source@ == voice.consent.source@
            &&& version@ == voice.consent.app_version@
        },
{
    let by = |clip: Clip| clip.voice_id matches Some(id) && id@ == voice.voice_id@;
    assert(by =~= |clip: Clip| name_view(clip.voice_id) == Some(voice.voice_id@));
}

/// The panel is there exactly where it is open and there is something to look
/// at: a clip with a take to be heard, or the voice a draft speaks in while it
/// is enrolled.
pub proof fn lemma_when_there_is_a_panel(panel: Option<Panel>, studio: StudioView)
    requires
        panel_shows(panel, studio),
    ensures
        !studio.inspector ==> panel is None,
        studio.inspector && studio.selected is Clip ==> {
            &&& panel is Some <==> studio.open_take() is Some
            &&& panel matches Some(shown) ==> shown is Clip
            &&& panel matches Some(Panel::Clip(body)) ==> body.words@ == studio.open_clip()->0.text@
                && body.path@ == studio.open_take()->0.path@
        },
        studio.inspector && studio.selected is Draft ==> {
            &&& panel is Some <==> (studio.voice_in_force() matches Some(id) && found(
                studio.voices,
                id,
            ) is Some)
            &&& panel matches Some(shown) ==> shown is Voice
            &&& panel matches Some(Panel::Voice(body)) ==> body.title@ == found(
                studio.voices,
                studio.voice_in_force()->0,
            )->0.label@
        },
{
}

} // verus!
