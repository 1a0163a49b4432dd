//! Settings: everything slower than switching a model.
//!
//! The split is by frequency. The switcher in the title bar is for a choice
//! made often; this window is where models are added and removed, disk is
//! accounted for, and the runtime is named.
//!
//! Deleting says what it costs before it happens: the bytes freed, whether
//! anything still depends on it, and what getting it back would take.

use vstd::prelude::*;
use vstd::string::*;

use crate::engine::{Clip, ModelSpec, Voice};
use crate::icon;
use crate::models::{model_name, spec_model_name};
use crate::studio::{StudioView, VoiceStudio};
use crate::text;
use crate::text::{name_view, named, same};
use crate::workspace::{duration, spec_duration};

verus! {

/// Which pane of settings is showing.
#[derive(Clone, Copy, Debug, PartialEq, Eq, Structural)]
pub enum Pane {
    General,
    Models,
    Voices,
    Audio,
    Storage,
    Runtime,
    About,
}

impl Pane {
    pub open spec fn spec_glyph(self) -> Seq<char> {
        match self {
            Pane::General => icon::TUNE@,
            Pane::Models => icon::GRAPHIC_EQ@,
            Pane::Voices => icon::MIC@,
            Pane::Audio => icon::HEADPHONES@,
            Pane::Storage => icon::HARD_DRIVE@,
            Pane::Runtime => icon::MEMORY@,
            Pane::About => icon::ERROR_OUTLINE@,
        }
    }

    pub open spec fn spec_label(self) -> Seq<char> {
        match self {
            Pane::General => "settings.general"@,
            Pane::Models => "settings.models"@,
            Pane::Voices => "settings.voices"@,
            Pane::Audio => "settings.audio"@,
            Pane::Storage => "settings.storage"@,
            Pane::Runtime => "settings.runtime"@,
            Pane::About => "settings.about"@,
        }
    }

    pub fn glyph(self) -> (glyph: &'static str)
        ensures
            glyph@ == self.spec_glyph(),
    {
        match self {
            Pane::General => icon::TUNE,
            Pane::Models => icon::GRAPHIC_EQ,
            Pane::Voices => icon::MIC,
            Pane::Audio => icon::HEADPHONES,
            Pane::Storage => icon::HARD_DRIVE,
            Pane::Runtime => icon::MEMORY,
            Pane::About => icon::ERROR_OUTLINE,
        }
    }

    /// The phrase the pane is called by.
    pub fn label(self) -> (key: &'static str)
        ensures
            key@ == self.spec_label(),
    {
        match self {
            Pane::General => "settings.general",
            Pane::Models => "settings.models",
            Pane::Voices => "settings.voices",
            Pane::Audio => "settings.audio",
            Pane::Storage => "settings.storage",
            Pane::Runtime => "settings.runtime",
            Pane::About => "settings.about",
        }
    }

    /// Every pane, in the order they are listed; the last stands apart.
    pub fn all() -> (panes: [Pane; 7])
        ensures
            panes@ == seq![
                Pane::General,
                Pane::Models,
                Pane::Voices,
                Pane::Audio,
                Pane::Storage,
                Pane::Runtime,
                Pane::About,
            ],
    {
        [
            Pane::General,
            Pane::Models,
            Pane::Voices,
            Pane::Audio,
            Pane::Storage,
            Pane::Runtime,
            Pane::About,
        ]
    }

    /// Whether the pane holds anything yet. One that does not says so, rather
    /// than being hidden.
    pub fn is_built(self) -> (built: bool)
        ensures
            built == (self == Pane::Models || self == Pane::Voices || self == Pane::Storage || self
                == Pane::About),
    {
        matches!(self, Pane::Models | Pane::Voices | Pane::Storage | Pane::About)
    }
}

/// The bytes the models on disk occupy.
pub open spec fn installed_bytes(models: Seq<ModelSpec>) -> nat
    decreases models.len(),
{
    if models.len() == 0 {
        0
    } else {
        let before = installed_bytes(models.drop_last());
        if models.last().installed {
            before + models.last().size_bytes as nat
        } else {
            before
        }
    }
}

proof fn lemma_part_of_the_bytes(models: Seq<ModelSpec>, n: int)
    requires
        0 <= n <= models.len(),
    ensures
        installed_bytes(models.take(n)) <= installed_bytes(models),
    decreases models.len() - n,
{
    if n < models.len() {
        lemma_part_of_the_bytes(models, n + 1);
        assert(models.take(n + 1).drop_last() =~= models.take(n));
    } else {
        assert(models.take(n) =~= models);
    }
}

/// The voices a model has spoken as, of the clips it made.
pub open spec fn spoken_as(clips: Seq<Clip>, model: Seq<char>) -> Set<Seq<char>>
    decreases clips.len(),
{
    if clips.len() == 0 {
        Set::empty()
    } else {
        let before = spoken_as(clips.drop_last(), model);
        match name_view(clips.last().voice_id) {
            Some(voice) => if clips.last().model@ == model {
                before.insert(voice)
            } else {
                before
            },
            None => before,
        }
    }
}

impl StudioView {
    /// The clips a model made.
    pub open spec fn clips_of_model(self, model: Seq<char>) -> Seq<Clip> {
        self.clips.filter(|clip: Clip| clip.model@ == model)
    }

    /// The clips a voice speaks.
    pub open spec fn clips_of_voice(self, voice: Seq<char>) -> Seq<Clip> {
        self.clips.filter(|clip: Clip| name_view(clip.voice_id) == Some(voice))
    }

    /// A model put up for deletion, unless it is the one in use.
    pub open spec fn asked_to_delete(self, id: Seq<char>) -> StudioView {
        if self.selected_model == Some(id) {
            self
        } else {
            StudioView { confirming_delete: Some(id), ..self }
        }
    }

    /// Delete pressed on a voice.
    pub open spec fn voice_delete_pressed(self, id: Seq<char>) -> StudioView {
        StudioView { confirming_voice: Some(id), ..self }
    }

    /// A pane shown, with nothing left to confirm from the one before.
    pub open spec fn at_pane(self, pane: Pane) -> StudioView {
        StudioView {
            settings_pane: pane,
            confirming_voice: None,
            confirming_delete: None,
            ..self
        }
    }

    /// The window closed, with nothing left to confirm.
    pub open spec fn settings_closed(self) -> StudioView {
        StudioView {
            settings_open: false,
            confirming_delete: None,
            confirming_voice: None,
            ..self
        }
    }
}

impl VoiceStudio {
    /// Show a pane, with nothing left to confirm from the one before. Whether
    /// to count the disk: it is counted when someone looks.
    pub fn show_pane(&mut self, pane: Pane) -> (recount: bool)
        ensures
            recount == (pane == Pane::Storage),
            final(self)@ == old(self)@.at_pane(pane),
    {
        self.settings_pane = pane;
        self.confirming_voice = None;
        self.confirming_delete = None;
        matches!(pane, Pane::Storage)
    }

    pub fn close_settings(&mut self)
        ensures
            final(self)@ == old(self)@.settings_closed(),
    {
        self.settings_open = false;
        self.confirming_delete = None;
        self.confirming_voice = None;
    }

    /// Leave whatever was to be confirmed as it is.
    pub fn cancel_delete(&mut self)
        ensures
            final(self)@ == (StudioView {
                confirming_delete: None,
                confirming_voice: None,
                ..old(self)@
            }),
    {
        self.confirming_delete = None;
        self.confirming_voice = None;
    }

    /// Ask for a model to be deleted. The one in use cannot be, out from under
    /// the next clip: switching first is the honest order.
    pub fn ask_delete_model(&mut self, id: &str) -> (asked: bool)
        ensures
            asked == (old(self)@.selected_model != Some(id@)),
            final(self)@ == old(self)@.asked_to_delete(id@),
    {
        if named(&self.selected_model, id) {
            return false;
        }
        self.confirming_delete = Some(id.to_owned());
        true
    }

    /// Press delete on a voice: the first time asks, the second means it.
    /// Whether to go on and delete it.
    pub fn press_delete_voice(&mut self, id: &str) -> (confirmed: bool)
        ensures
            confirmed == (old(self)@.confirming_voice == Some(id@)),
            final(self)@ == old(self)@.voice_delete_pressed(id@),
    {
        let confirmed = named(&self.confirming_voice, id);
        if !confirmed {
            self.confirming_voice = Some(id.to_owned());
        }
        confirmed
    }

    /// How many clips a model made. Derived from the clips themselves, so
    /// "nothing uses it" is a fact about this machine rather than a guess.
    pub fn clips_from(&self, model_id: &str) -> (count: usize)
        ensures
            count == self@.clips_of_model(model_id@).len(),
    {
        let mut count: usize = 0;
        let mut i: usize = 0;
        reveal(Seq::filter);
        while i < self.clips.len()
            invariant
                i <= self.clips.len(),
                count <= i,
                count == self.clips@.take(i as int).filter(
                    |clip: Clip| clip.model@ == model_id@,
                ).len(),
            decreases self.clips.len() - i,
        {
            reveal(Seq::filter);
            assert(self.clips@.take(i + 1).drop_last() =~= self.clips@.take(i as int));
            if same(self.clips[i].model.as_str(), model_id) {
                count = count + 1;
            }
            i = i + 1;
        }
        assert(self.clips@.take(self.clips@.len() as int) =~= self.clips@);
        count
    }

    /// How many clips a voice speaks.
    pub fn clips_by(&self, voice_id: &str) -> (count: usize)
        ensures
            count == self@.clips_of_voice(voice_id@).len(),
    {
        let mut count: usize = 0;
        let mut i: usize = 0;
        reveal(Seq::filter);
        while i < self.clips.len()
            invariant
                i <= self.clips.len(),
                count <= i,
                count == self.clips@.take(i as int).filter(
                    |clip: Clip| name_view(clip.voice_id) == Some(voice_id@),
                ).len(),
            decreases self.clips.len() - i,
        {
            reveal(Seq::filter);
            assert(self.clips@.take(i + 1).drop_last() =~= self.clips@.take(i as int));
            if named(&self.clips[i].voice_id, voice_id) {
                count = count + 1;
            }
            i = i + 1;
        }
        assert(self.clips@.take(self.clips@.len() as int) =~= self.clips@);
        count
    }

    /// How many distinct voices a model has actually spoken as. The
    /// conditioning a voice needs is never written to disk, so the durable
    /// relationship is the one the clips record.
    pub fn voices_using(&self, model_id: &str) -> (count: usize)
        ensures
            count == spoken_as(self@.clips, model_id@).len(),
    {
        let mut seen: Vec<String> = Vec::new();
        let mut i: usize = 0;
        assert(self.clips@.take(0) =~= Seq::empty());
        assert(names(seen@).to_set() =~= Set::empty());
        while i < self.clips.len()
            invariant
                i <= self.clips.len(),
                names(seen@).no_duplicates(),
                names(seen@).to_set() == spoken_as(self.clips@.take(i as int), model_id@),
            decreases self.clips.len() - i,
        {
            assert(self.clips@.take(i + 1).drop_last() =~= self.clips@.take(i as int));
            let clip = &self.clips[i];
            if same(clip.model.as_str(), model_id) {
                match &clip.voice_id {
                    Some(voice) => {
                        let is_new = !holds(&seen, voice.as_str());
                        let ghost before = names(seen@);
                        if is_new {
                            seen.push(voice.clone());
                            proof {
                                assert(names(seen@) =~= before.push(voice@));
                                assert(before.push(voice@).to_set() =~= before.to_set().insert(
                                    voice@,
                                )) by {
                                    lemma_pushing_into_a_set(before, voice@);
                                }
                            }
                        } else {
                            assert(before.to_set().insert(voice@) =~= before.to_set());
                        }
                    },
                    None => {},
                }
            }
            i = i + 1;
        }
        assert(self.clips@.take(self.clips@.len() as int) =~= self.clips@);
        proof {
            names(seen@).unique_seq_to_set();
        }
        seen.len()
    }

    /// The bytes the models on disk occupy, as the catalogue reports them.
    pub fn models_bytes(&self) -> (bytes: u64)
        requires
            installed_bytes(self@.models) <= u64::MAX,
        ensures
            bytes == installed_bytes(self@.models),
    {
        let mut bytes: u64 = 0;
        let mut i: usize = 0;
        assert(self.models@.take(0) =~= Seq::empty());
        while i < self.models.len()
            invariant
                i <= self.models.len(),
                installed_bytes(self.models@) <= u64::MAX,
                bytes == installed_bytes(self.models@.take(i as int)),
            decreases self.models.len() - i,
        {
            assert(self.models@.take(i + 1).drop_last() =~= self.models@.take(i as int));
            proof {
                lemma_part_of_the_bytes(self.models@, i + 1);
            }
            if self.models[i].installed {
                bytes = bytes + self.models[i].size_bytes;
            }
            i = i + 1;
        }
        assert(self.models@.take(self.models@.len() as int) =~= self.models@);
        bytes
    }
}

/// The characters of some names.
pub open spec fn names(texts: Seq<String>) -> Seq<Seq<char>> {
    Seq::new(texts.len(), |i: int| texts[i]@)
}

proof fn lemma_pushing_into_a_set(names: Seq<Seq<char>>, name: Seq<char>)
    ensures
        names.push(name).to_set() == names.to_set().insert(name),
{
    let pushed = names.push(name);
    assert forall|a: Seq<char>| pushed.to_set().contains(a) == names.to_set().insert(
        name,
    ).contains(a) by {
        if pushed.contains(a) && a != name {
            let i = choose|i: int| 0 <= i < pushed.len() && pushed[i] == a;
            assert(names[i] == a);
        }
        if names.contains(a) {
            let i = choose|i: int| 0 <= i < names.len() && names[i] == a;
            assert(pushed[i] == a);
        }
        assert(pushed[names.len() as int] == name);
    }
    assert(pushed.to_set() =~= names.to_set().insert(name));
}

fn holds(texts: &Vec<String>, name: &str) -> (held: bool)
    ensures
        held == names(texts@).contains(name@),
{
    let mut i: usize = 0;
    while i < texts.len()
        invariant
            i <= texts.len(),
            forall|j: int| 0 <= j < i ==> names(texts@)[j] != name@,
        decreases texts.len() - i,
    {
        if same(texts[i].as_str(), name) {
            assert(names(texts@)[i as int] == name@);
            return true;
        }
        i = i + 1;
    }
    false
}

/// What a model on disk is, beside its name.
#[derive(Clone, Copy, Debug, PartialEq, Eq, Structural)]
pub enum Badge {
    /// The one in use, and held in memory.
    DefaultInMemory,
    Default,
    InMemory,
}

/// A model on disk, as its row shows it.
#[derive(Clone, Debug)]
pub struct InstalledRow {
    pub id: String,
    pub name: String,
    pub label: String,
    pub size_bytes: u64,
    pub precision: String,
    pub licence: String,
    /// How many voices it has spoken as.
    pub voices: usize,
    pub badge: Option<Badge>,
    /// The one in use cannot be deleted.
    pub can_delete: bool,
}

impl InstalledRow {
    pub open spec fn shows(self, studio: StudioView, model: ModelSpec) -> bool {
        let current = studio.selected_model == Some(model.id@);
        &&& self.id@ == model.id@
        &&& self.name@ == spec_model_name(model)
        &&& self.label@ == model.label@
        &&& self.size_bytes == model.size_bytes
        &&& self.precision@ == model.precision@
        &&& self.licence@ == model.licence@
        &&& self.voices == spoken_as(studio.clips, model.id@).len()
        &&& self.badge == (if current && model.resident {
            Some(Badge::DefaultInMemory)
        } else if current {
            Some(Badge::Default)
        } else if model.resident {
            Some(Badge::InMemory)
        } else {
            None
        })
        &&& self.can_delete == !current
    }
}

/// The phrase for how many clips a voice has spoken.
pub fn voice_used_phrase(clips: usize) -> (key: &'static str)
    ensures
        key@ == (if clips == 0 {
            "settings.unused"@
        } else {
            "settings.used_by"@
        }),
{
    if clips == 0 {
        "settings.unused"
    } else {
        "settings.used_by"
    }
}

/// The phrase for how many voices a model has spoken as.
pub fn used_by_phrase(voices: usize) -> (key: &'static str)
    ensures
        key@ == (if voices == 0 {
            "settings.used_by_no_voice"@
        } else if voices == 1 {
            "settings.used_by_one_voice"@
        } else {
            "settings.used_by_voices"@
        }),
{
    if voices == 0 {
        "settings.used_by_no_voice"
    } else if voices == 1 {
        "settings.used_by_one_voice"
    } else {
        "settings.used_by_voices"
    }
}

/// What deleting a model costs, stated before it happens.
#[derive(Clone, Debug)]
pub struct DeleteConfirmation {
    pub id: String,
    pub name: String,
    pub size_bytes: u64,
    /// How many clips it made.
    pub clips: usize,
    /// The phrase for what goes and what stays.
    pub detail: &'static str,
}

impl DeleteConfirmation {
    pub open spec fn shows(self, studio: StudioView, model: ModelSpec) -> bool {
        &&& self.id@ == model.id@
        &&& self.name@ == spec_model_name(model)
        &&& self.size_bytes == model.size_bytes
        &&& self.clips == studio.clips_of_model(model.id@).len()
        &&& self.detail@ == (if self.clips == 0 {
            "settings.delete_detail_unused"@
        } else {
            "settings.delete_detail_used"@
        })
    }
}

/// A model not on disk, as its row shows it. Named and licensed before it is
/// downloaded, because this is the moment the terms can still change the
/// choice.
#[derive(Clone, Debug)]
pub struct AvailableRow {
    pub id: String,
    pub name: String,
    pub label: String,
    /// What it costs to download, once that has been looked up.
    pub download: Option<u64>,
    pub licence: String,
    pub notes: String,
    /// Bytes so far and in all, while it is being downloaded.
    pub downloading: Option<(u64, u64)>,
}

impl StudioView {
    /// How far the download of a model is, if there is one.
    pub open spec fn download_of(self, id: Seq<char>) -> Option<(u64, u64)> {
        if self.is_downloading(id) {
            Some((self.installs[id].downloaded_bytes, self.installs[id].total_bytes))
        } else {
            None
        }
    }
}

impl AvailableRow {
    pub open spec fn shows(self, studio: StudioView, model: ModelSpec) -> bool {
        &&& self.id@ == model.id@
        &&& self.name@ == spec_model_name(model)
        &&& self.label@ == model.label@
        &&& self.download == (if model.download_bytes > 0 {
            Some(model.download_bytes)
        } else {
            None
        })
        &&& self.licence@ == model.licence@
        &&& self.notes@ == model.notes@
        &&& self.downloading == studio.download_of(model.id@)
    }
}

/// The models pane.
#[derive(Clone, Debug)]
pub struct ModelsPane {
    pub installed: Vec<InstalledRow>,
    pub available: Vec<AvailableRow>,
    /// The bytes the models on disk occupy.
    pub used: u64,
    pub free: u64,
    pub confirming: Option<DeleteConfirmation>,
}

impl StudioView {
    /// The models that could be had.
    pub open spec fn absent(self) -> Seq<ModelSpec> {
        self.models.filter(|model: ModelSpec| !model.installed)
    }

    /// The model whose deletion is to be confirmed: one that is on disk.
    pub open spec fn to_confirm(self) -> Option<ModelSpec> {
        match self.confirming_delete {
            Some(id) => crate::engine::found(self.installed(), id),
            None => None,
        }
    }
}

impl VoiceStudio {
    /// A model on disk.
    pub fn installed_row(&self, model: &ModelSpec) -> (row: InstalledRow)
        ensures
            row.shows(self@, *model),
    {
        let current = named(&self.selected_model, model.id.as_str());
        let badge = if current && model.resident {
            Some(Badge::DefaultInMemory)
        } else if current {
            Some(Badge::Default)
        } else if model.resident {
            Some(Badge::InMemory)
        } else {
            None
        };
        InstalledRow {
            id: model.id.clone(),
            name: model_name(model),
            label: model.label.clone(),
            size_bytes: model.size_bytes,
            precision: model.precision.clone(),
            licence: model.licence.clone(),
            voices: self.voices_using(model.id.as_str()),
            badge,
            can_delete: !current,
        }
    }

    /// What deleting a model costs.
    pub fn delete_confirmation(&self, model: &ModelSpec) -> (confirmation: DeleteConfirmation)
        ensures
            confirmation.shows(self@, *model),
    {
        let clips = self.clips_from(model.id.as_str());
        DeleteConfirmation {
            id: model.id.clone(),
            name: model_name(model),
            size_bytes: model.size_bytes,
            clips,
            detail: if clips == 0 {
                "settings.delete_detail_unused"
            } else {
                "settings.delete_detail_used"
            },
        }
    }

    /// A model not on disk.
    pub fn available_row(&self, model: &ModelSpec) -> (row: AvailableRow)
        ensures
            row.shows(self@, *model),
    {
        let downloading = match self.installs.get(model.id.as_str()) {
            Some(status) => if status.downloading {
                Some((status.downloaded_bytes, status.total_bytes))
            } else {
                None
            },
            None => None,
        };
        AvailableRow {
            id: model.id.clone(),
            name: model_name(model),
            label: model.label.clone(),
            download: if model.download_bytes > 0 {
                Some(model.download_bytes)
            } else {
                None
            },
            licence: model.licence.clone(),
            notes: model.notes.clone(),
            downloading,
        }
    }

    fn installed_rows(&self) -> (rows: Vec<InstalledRow>)
        ensures
            rows.len() == self@.installed().len(),
            forall|i: int|
                0 <= i < rows.len() ==> (#[trigger] rows@[i]).shows(self@, self@.installed()[i]),
    {
        let mut rows: Vec<InstalledRow> = Vec::new();
        let mut i: usize = 0;
        let ghost kept = |model: ModelSpec| model.installed;
        reveal(Seq::filter);
        while i < self.models.len()
            invariant
                i <= self.models.len(),
                kept == (|model: ModelSpec| model.installed),
                rows.len() == self@.models.take(i as int).filter(kept).len(),
                forall|j: int|
                    0 <= j < rows.len() ==> (#[trigger] rows@[j]).shows(
                        self@,
                        self@.models.take(i as int).filter(kept)[j],
                    ),
            decreases self.models.len() - i,
        {
            reveal(Seq::filter);
            assert(self@.models.take(i + 1).drop_last() =~= self@.models.take(i as int));
            if self.models[i].installed {
                rows.push(self.installed_row(&self.models[i]));
            }
            i = i + 1;
        }
        assert(self@.models.take(self@.models.len() as int) =~= self@.models);
        rows
    }

    fn available_rows(&self) -> (rows: Vec<AvailableRow>)
        ensures
            rows.len() == self@.absent().len(),
            forall|i: int|
                0 <= i < rows.len() ==> (#[trigger] rows@[i]).shows(self@, self@.absent()[i]),
    {
        let mut rows: Vec<AvailableRow> = Vec::new();
        let mut i: usize = 0;
        let ghost kept = |model: ModelSpec| !model.installed;
        reveal(Seq::filter);
        while i < self.models.len()
            invariant
                i <= self.models.len(),
                kept == (|model: ModelSpec| !model.installed),
                rows.len() == self@.models.take(i as int).filter(kept).len(),
                forall|j: int|
                    0 <= j < rows.len() ==> (#[trigger] rows@[j]).shows(
                        self@,
                        self@.models.take(i as int).filter(kept)[j],
                    ),
            decreases self.models.len() - i,
        {
            reveal(Seq::filter);
            assert(self@.models.take(i + 1).drop_last() =~= self@.models.take(i as int));
            if !self.models[i].installed {
                rows.push(self.available_row(&self.models[i]));
            }
            i = i + 1;
        }
        assert(self@.models.take(self@.models.len() as int) =~= self@.models);
        rows
    }

    fn confirmation(&self) -> (confirmation: Option<DeleteConfirmation>)
        ensures
            match (confirmation, self@.to_confirm()) {
                (Some(confirmation), Some(model)) => confirmation.shows(self@, model),
                (None, None) => true,
                _ => false,
            },
    {
        let id = match &self.confirming_delete {
            Some(id) => id,
            None => {
                return None;
            },
        };
        let ghost kept = |model: ModelSpec| model.installed;
        let mut i: usize = 0;
        reveal(Seq::filter);
        while i < self.models.len()
            invariant
                i <= self.models.len(),
                kept == (|model: ModelSpec| model.installed),
                self@.confirming_delete == Some(id@),
                forall|j: int|
                    0 <= j < i && (#[trigger] self@.models[j]).installed ==> self@.models[j].id@
                        != id@,
            decreases self.models.len() - i,
        {
            if self.models[i].installed && same(self.models[i].id.as_str(), id.as_str()) {
                proof {
                    lemma_first_of_the_kept(self@.models, id@, i as int);
                }
                return Some(self.delete_confirmation(&self.models[i]));
            }
            i = i + 1;
        }
        proof {
            lemma_none_of_the_kept(self@.models, id@);
        }
        None
    }

    /// The models pane: what is on disk, what could be, and what is about to
    /// be deleted.
    pub fn models_pane(&self) -> (pane: ModelsPane)
        requires
            installed_bytes(self@.models) <= u64::MAX,
        ensures
            pane.installed.len() == self@.installed().len(),
            forall|i: int|
                0 <= i < pane.installed.len() ==> (#[trigger] pane.installed@[i]).shows(
                    self@,
                    self@.installed()[i],
                ),
            pane.available.len() == self@.absent().len(),
            forall|i: int|
                0 <= i < pane.available.len() ==> (#[trigger] pane.available@[i]).shows(
                    self@,
                    self@.absent()[i],
                ),
            pane.used == installed_bytes(self@.models),
            pane.free == (match self@.system {
                Some(system) => system.free_bytes,
                None => 0,
            }),
            match (pane.confirming, self@.to_confirm()) {
                (Some(confirmation), Some(model)) => confirmation.shows(self@, model),
                (None, None) => true,
                _ => false,
            },
    {
        ModelsPane {
            installed: self.installed_rows(),
            available: self.available_rows(),
            used: self.models_bytes(),
            free: match &self.system {
                Some(system) => system.free_bytes,
                None => 0,
            },
            confirming: self.confirmation(),
        }
    }
}

/// The first model on disk with an id is the first with it among those on
/// disk.
proof fn lemma_first_of_the_kept(models: Seq<ModelSpec>, id: Seq<char>, at: int)
    requires
        0 <= at < models.len(),
        models[at].installed,
        models[at].id@ == id,
        forall|j: int| 0 <= j < at && (#[trigger] models[j]).installed ==> models[j].id@ != id,
    ensures
        crate::engine::found(models.filter(|model: ModelSpec| model.installed), id) == Some(
            models[at],
        ),
{
    let kept = |model: ModelSpec| model.installed;
    let (front, back) = (models.take(at), models.skip(at + 1));
    let here = seq![models[at]];
    assert(models =~= front + here + back);
    Seq::filter_distributes_over_add(front + here, back, kept);
    Seq::filter_distributes_over_add(front, here, kept);
    assert(here.filter(kept) =~= here) by {
        reveal(Seq::filter);
        assert(here.drop_last() =~= Seq::empty());
        assert(here.drop_last().filter(kept) =~= Seq::empty());
    }
    let all = models.filter(kept);
    let n = front.filter(kept).len();
    assert(all[n as int] == models[at]);
    assert forall|j: int| 0 <= j < n implies all[j].id@ != id by {
        assert(all[j] == front.filter(kept)[j]);
        front.lemma_filter_pred(kept, j);
        assert(front.filter(kept).contains(all[j]));
        front.lemma_filter_contains_rev(kept, all[j]);
        let k = choose|k: int| 0 <= k < front.len() && front[k] == all[j];
        assert(models[k] == all[j]);
    }
    let keys = crate::engine::ids(all);
    keys.index_of_first_ensures(id);
    assert(keys[n as int] == id);
    let first = keys.index_of_first(id)->0;
    if first < n {
        assert(all[first].id@ == id);
    }
}

proof fn lemma_none_of_the_kept(models: Seq<ModelSpec>, id: Seq<char>)
    requires
        forall|j: int|
            0 <= j < models.len() && (#[trigger] models[j]).installed ==> models[j].id@ != id,
    ensures
        crate::engine::found(models.filter(|model: ModelSpec| model.installed), id) is None,
{
    let kept = |model: ModelSpec| model.installed;
    let all = models.filter(kept);
    let keys = crate::engine::ids(all);
    keys.index_of_first_ensures(id);
    if keys.contains(id) {
        let i = choose|i: int| 0 <= i < keys.len() && keys[i] == id;
        models.lemma_filter_pred(kept, i);
        assert(all.contains(all[i]));
        models.lemma_filter_contains_rev(kept, all[i]);
        let k = choose|k: int| 0 <= k < models.len() && models[k] == all[i];
        assert(models[k].id@ == id);
    }
}

/// An enrolled voice, as its row shows it.
#[derive(Clone, Debug)]
pub struct VoiceRow {
    pub id: String,
    /// The first letter of its name, in upper case.
    pub initial: String,
    pub label: String,
    /// The one that would speak next.
    pub current: bool,
    /// How long the recording runs, where that was measured.
    pub length: Option<String>,
    /// How many clips it speaks.
    pub clips: usize,
    /// What deleting it means, while that is being asked.
    pub asking: Option<&'static str>,
}

/// The first letter of a name, as it is raised.
pub open spec fn initial_of(label: Seq<char>) -> Seq<char> {
    if label.len() == 0 {
        Seq::empty()
    } else {
        text::uppercase(label[0])
    }
}

impl VoiceRow {
    pub open spec fn shows(self, studio: StudioView, voice: Voice) -> bool {
        self.shows_with(studio, voice, initial_of(voice.label@))
    }

    /// Whether this is the row of a voice, with this for the first letter of
    /// its name.
    pub open spec fn shows_with(
        self,
        studio: StudioView,
        voice: Voice,
        initial: Seq<char>,
    ) -> bool {
        &&& self.id@ == voice.voice_id@
        &&& self.initial@ == initial
        &&& self.label@ == voice.label@
        &&& self.current == (studio.speaking() == Some(voice.voice_id@))
        &&& match self.length {
            Some(length) => voice.seconds.spec_is_positive() && length@ == spec_duration(
                voice.seconds,
            ),
            None => !voice.seconds.spec_is_positive(),
        }
        &&& self.clips == studio.clips_of_voice(voice.voice_id@).len()
        &&& match self.asking {
            Some(key) => studio.confirming_voice == Some(voice.voice_id@) && key@ == (
            if self.clips == 0 {
                "settings.voice_delete_unused"@
            } else {
                "settings.voice_delete_used"@
            }),
            None => studio.confirming_voice != Some(voice.voice_id@),
        }
    }
}

fn initial(label: &str) -> (raised: String)
    ensures
        raised@ == initial_of(label@),
{
    if text::chars_of(label).len() == 0 {
        proof {
            reveal_strlit("");
        }
        "".to_owned()
    } else {
        text::upper(label.get_char(0))
    }
}

impl VoiceStudio {
    /// One enrolled voice: what it was learned from, what it has made, and the
    /// way to remove it.
    pub fn voice_row(&self, voice: &Voice) -> (row: VoiceRow)
        ensures
            row.shows(self@, *voice),
    {
        self.voice_row_with(voice, initial(voice.label.as_str()))
    }

    /// The row of a voice, with this for the first letter of its name.
    pub fn voice_row_with(&self, voice: &Voice, initial: String) -> (row: VoiceRow)
        ensures
            row.shows_with(self@, *voice, initial@),
    {
        let id = voice.voice_id.as_str();
        let current = match self.speaking_voice() {
            Some(speaking) => same(speaking, id),
            None => false,
        };
        let clips = self.clips_by(id);
        let asking = if !named(&self.confirming_voice, id) {
            None
        } else if clips == 0 {
            Some("settings.voice_delete_unused")
        } else {
            Some("settings.voice_delete_used")
        };
        VoiceRow {
            id: voice.voice_id.clone(),
            initial,
            label: voice.label.clone(),
            current,
            length: if voice.seconds.is_positive() {
                Some(duration(voice.seconds))
            } else {
                None
            },
            clips,
            asking,
        }
    }

    /// Every enrolled voice, one row each.
    pub fn voices_pane(&self) -> (rows: Vec<VoiceRow>)
        ensures
            rows.len() == self@.voices.len(),
            forall|i: int|
                0 <= i < rows.len() ==> (#[trigger] rows@[i]).shows(self@, self@.voices[i]),
    {
        let mut rows: Vec<VoiceRow> = Vec::new();
        let mut i: usize = 0;
        while i < self.voices.len()
            invariant
                i <= self.voices.len(),
                rows.len() == i,
                forall|j: int| 0 <= j < i ==> (#[trigger] rows@[j]).shows(self@, self@.voices[j]),
            decreases self.voices.len() - i,
        {
            rows.push(self.voice_row(&self.voices[i]));
            i = i + 1;
        }
        rows
    }
}

/// The model in use cannot be put up for deletion.
pub proof fn lemma_the_model_in_use_stays(studio: StudioView, id: Seq<char>)
    requires
        studio.selected_model == Some(id),
        studio.confirming_delete != Some(id),
    ensures
        studio.asked_to_delete(id).confirming_delete != Some(id),
{
}

/// Every model is in exactly one of the two lists.
pub proof fn lemma_every_model_is_listed_once(studio: StudioView)
    ensures
        studio.installed().len() + studio.absent().len() == studio.models.len(),
        forall|i: int|
            0 <= i < studio.models.len() ==> {
                let model = #[trigger] studio.models[i];
                &&& model.installed ==> studio.installed().contains(model)
                &&& !model.installed ==> studio.absent().contains(model)
            },
{
    lemma_split_adds_up(studio.models);
    assert forall|i: int| 0 <= i < studio.models.len() implies {
        let model = #[trigger] studio.models[i];
        &&& model.installed ==> studio.installed().contains(model)
        &&& !model.installed ==> studio.absent().contains(model)
    } by {
        if studio.models[i].installed {
            studio.models.lemma_filter_contains(|model: ModelSpec| model.installed, i);
        } else {
            studio.models.lemma_filter_contains(|model: ModelSpec| !model.installed, i);
        }
    }
}

proof fn lemma_split_adds_up(models: Seq<ModelSpec>)
    ensures
        models.filter(|model: ModelSpec| model.installed).len() + models.filter(
            |model: ModelSpec| !model.installed,
        ).len() == models.len(),
    decreases models.len(),
{
    reveal(Seq::filter);
    if models.len() > 0 {
        lemma_split_adds_up(models.drop_last());
    }
}

/// What the models on disk occupy is counted one by one: one more on disk adds
/// its bytes, and one that is not adds nothing.
pub proof fn lemma_only_models_on_disk_are_counted(models: Seq<ModelSpec>, model: ModelSpec)
    ensures
        installed_bytes(Seq::empty()) == 0,
        model.installed ==> installed_bytes(models.push(model)) == installed_bytes(models)
            + model.size_bytes,
        !model.installed ==> installed_bytes(models.push(model)) == installed_bytes(models),
{
    assert(models.push(model).drop_last() =~= models);
}

/// A model has spoken as a voice exactly where it made a clip in that voice.
pub proof fn lemma_a_model_spoke_as_the_voices_of_its_clips(
    clips: Seq<Clip>,
    model: Seq<char>,
    voice: Seq<char>,
)
    ensures
        spoken_as(clips, model).contains(voice) <==> exists|i: int|
            0 <= i < clips.len() && (#[trigger] clips[i]).model@ == model && name_view(
                clips[i].voice_id,
            ) == Some(voice),
    decreases clips.len(),
{
    if clips.len() > 0 {
        let front = clips.drop_last();
        lemma_a_model_spoke_as_the_voices_of_its_clips(front, model, voice);
        let last = clips.len() - 1;
        if spoken_as(clips, model).contains(voice) {
            if spoken_as(front, model).contains(voice) {
                let i = choose|i: int|
                    0 <= i < front.len() && (#[trigger] front[i]).model@ == model && name_view(
                        front[i].voice_id,
                    ) == Some(voice);
                assert(clips[i] == front[i]);
            } else {
                assert(clips[last].model@ == model);
            }
        }
        if exists|i: int|
            0 <= i < clips.len() && (#[trigger] clips[i]).model@ == model && name_view(
                clips[i].voice_id,
            ) == Some(voice) {
            let i = choose|i: int|
                0 <= i < clips.len() && (#[trigger] clips[i]).model@ == model && name_view(
                    clips[i].voice_id,
                ) == Some(voice);
            if i < last {
                assert(front[i] == clips[i]);
            }
        }
    }
}

/// A clip counts for the model that made it and for the voice that speaks it,
/// and for no other.
pub proof fn lemma_a_clip_counts_for_what_made_it(
    before: StudioView,
    after: StudioView,
    clip: Clip,
    model: Seq<char>,
    voice: Seq<char>,
)
    requires
        after.clips == before.clips.push(clip),
    ensures
        clip.model@ == model ==> after.clips_of_model(model) == before.clips_of_model(model).push(
            clip,
        ),
        clip.model@ != model ==> after.clips_of_model(model) == before.clips_of_model(model),
        (clip.voice_id matches Some(id) && id@ == voice) ==> after.clips_of_voice(voice)
            == before.clips_of_voice(voice).push(clip),
        !(clip.voice_id matches Some(id) && id@ == voice) ==> after.clips_of_voice(voice)
            == before.clips_of_voice(voice),
{
    reveal(Seq::filter);
    assert(after.clips.drop_last() =~= before.clips);
}

/// Asking for a model to be deleted holds it for confirmation, unless it is the
/// one in use, and closing the window leaves nothing to confirm.
pub proof fn lemma_a_deletion_is_confirmed_first(studio: StudioView, id: Seq<char>)
    ensures
        studio.selected_model != Some(id) ==> studio.asked_to_delete(id) == (StudioView {
            confirming_delete: Some(id),
            ..studio
        }),
        studio.selected_model == Some(id) ==> studio.asked_to_delete(id) == studio,
        ({
            let closed = studio.settings_closed();
            &&& !closed.settings_open
            &&& closed.confirming_delete is None
            &&& closed.confirming_voice is None
            &&& closed == (StudioView {
                settings_open: false,
                confirming_delete: None,
                confirming_voice: None,
                ..studio
            })
        }),
{
}

/// The model whose deletion is to be confirmed is the one that was asked for,
/// while it is on disk.
pub proof fn lemma_what_is_to_be_confirmed(studio: StudioView, at: int)
    ensures
        studio.confirming_delete is None ==> studio.to_confirm() is None,
        studio.to_confirm() matches Some(model) ==> model.installed && studio.confirming_delete
            == Some(model.id@) && studio.models.contains(model),
        0 <= at < studio.models.len() && studio.models[at].installed && studio.confirming_delete
            == Some(studio.models[at].id@) && (forall|j: int|
            0 <= j < at && (#[trigger] studio.models[j]).installed ==> studio.models[j].id@
                != studio.models[at].id@) ==> studio.to_confirm() == Some(studio.models[at]),
{
    if 0 <= at < studio.models.len() && studio.models[at].installed && studio.confirming_delete
        == Some(studio.models[at].id@) && (forall|j: int|
        0 <= j < at && (#[trigger] studio.models[j]).installed ==> studio.models[j].id@
            != studio.models[at].id@) {
        lemma_first_of_the_kept(studio.models, studio.models[at].id@, at);
    }
    if studio.confirming_delete is Some {
        let kept = |model: ModelSpec| model.installed;
        crate::engine::lemma_found_is_known(studio.installed(), studio.confirming_delete->0);
        if studio.to_confirm() is Some {
            let model = studio.to_confirm()->0;
            let i = choose|i: int| 0 <= i < studio.installed().len() && studio.installed()[i] == model;
            studio.models.lemma_filter_pred(kept, i);
            studio.models.lemma_filter_contains_rev(kept, model);
        }
    }
}

/// The row of a model on disk is about that model: it can be deleted exactly
/// where it is not in use, and says whether it is in use and in memory.
pub proof fn lemma_a_row_on_disk_is_about_its_model(
    studio: StudioView,
    model: ModelSpec,
    row: InstalledRow,
)
    requires
        row.shows(studio, model),
    ensures
        row.id@ == model.id@,
        model.name@.len() > 0 ==> row.name@ == model.name@,
        row.label@ == model.label@,
        row.size_bytes == model.size_bytes,
        row.precision@ == model.precision@,
        row.licence@ == model.licence@,
        row.voices == spoken_as(studio.clips, model.id@).len(),
        row.can_delete <==> studio.selected_model != Some(model.id@),
        row.badge is None <==> studio.selected_model != Some(model.id@) && !model.resident,
        row.badge == Some(Badge::DefaultInMemory) || row.badge == Some(Badge::InMemory)
            <==> model.resident,
        row.badge == Some(Badge::DefaultInMemory) || row.badge == Some(Badge::Default)
            <==> studio.selected_model == Some(model.id@),
{
}

/// What deleting a model costs is told of that model: the bytes it frees and
/// the clips it made, and which of the two things there is to say follows from
/// whether there are any.
pub proof fn lemma_a_confirmation_is_about_its_model(
    studio: StudioView,
    model: ModelSpec,
    confirmation: DeleteConfirmation,
)
    requires
        confirmation.shows(studio, model),
    ensures
        confirmation.id@ == model.id@,
        model.name@.len() > 0 ==> confirmation.name@ == model.name@,
        confirmation.size_bytes == model.size_bytes,
        confirmation.clips == studio.clips_of_model(model.id@).len(),
        studio.clips_of_model(model.id@).len() == 0 ==> confirmation.detail@
            == "settings.delete_detail_unused"@,
        studio.clips_of_model(model.id@).len() > 0 ==> confirmation.detail@
            == "settings.delete_detail_used"@,
{
}

/// The row of a model that could be had is about that model: what it would cost
/// to fetch where that is known, and how far that is while it is under way.
pub proof fn lemma_a_row_to_be_had_is_about_its_model(
    studio: StudioView,
    model: ModelSpec,
    row: AvailableRow,
)
    requires
        row.shows(studio, model),
    ensures
        row.id@ == model.id@,
        model.name@.len() > 0 ==> row.name@ == model.name@,
        row.label@ == model.label@,
        row.licence@ == model.licence@,
        row.notes@ == model.notes@,
        model.download_bytes > 0 ==> row.download == Some(model.download_bytes),
        model.download_bytes == 0 ==> row.download is None,
        row.downloading is Some <==> studio.installs.dom().contains(model.id@)
            && studio.installs[model.id@].downloading,
        row.downloading matches Some((so_far, all)) ==> so_far
            == studio.installs[model.id@].downloaded_bytes && all
            == studio.installs[model.id@].total_bytes,
{
}

/// The row of a voice is about that voice: whether it is the one that would
/// speak, how long its recording runs, how many clips it speaks, and what
/// deleting it means only while that is being asked of it.
pub proof fn lemma_a_voices_row_is_about_its_voice(
    studio: StudioView,
    voice: Voice,
    initial: Seq<char>,
    row: VoiceRow,
)
    requires
        row.shows_with(studio, voice, initial),
    ensures
        row.id@ == voice.voice_id@,
        row.label@ == voice.label@,
        row.initial@ == initial,
        row.current <==> studio.speaking() == Some(voice.voice_id@),
        row.length is Some <==> voice.seconds.spec_is_positive(),
        row.length matches Some(length) ==> length@ == spec_duration(voice.seconds),
        row.clips == studio.clips_of_voice(voice.voice_id@).len(),
        row.asking is Some <==> studio.confirming_voice == Some(voice.voice_id@),
        row.asking matches Some(key) ==> {
            &&& studio.clips_of_voice(voice.voice_id@).len() == 0 ==> key@
                == "settings.voice_delete_unused"@
            &&& studio.clips_of_voice(voice.voice_id@).len() > 0 ==> key@
                == "settings.voice_delete_used"@
        },
{
}

/// A voice's initial is that of the first letter of its name, and a voice
/// without a name has none.
pub proof fn lemma_the_initial_is_the_first_letters(first: char, rest: Seq<char>)
    ensures
        initial_of(seq![first] + rest) == text::uppercase(first),
        initial_of(Seq::empty()).len() == 0,
{
}

/// Each pane goes by a name of its own, under the glyph of what it is about.
pub proof fn lemma_panes_are_told_apart(pane: Pane, other: Pane)
    ensures
        pane != other ==> pane.spec_label() != other.spec_label(),
        pane is Models <==> pane.spec_label() == "settings.models"@,
        pane is Voices <==> pane.spec_label() == "settings.voices"@,
        pane is Storage <==> pane.spec_label() == "settings.storage"@,
        pane is Runtime <==> pane.spec_label() == "settings.runtime"@,
        pane is Audio <==> pane.spec_label() == "settings.audio"@,
        pane is General <==> pane.spec_label() == "settings.general"@,
        pane is About <==> pane.spec_label() == "settings.about"@,
        pane is Voices ==> pane.spec_glyph() == icon::MIC@,
        pane is Audio ==> pane.spec_glyph() == icon::HEADPHONES@,
        pane is Storage ==> pane.spec_glyph() == icon::HARD_DRIVE@,
        pane is Runtime ==> pane.spec_glyph() == icon::MEMORY@,
        pane is General ==> pane.spec_glyph() == icon::TUNE@,
        pane is Models ==> pane.spec_glyph() == icon::GRAPHIC_EQ@,
        pane is About ==> pane.spec_glyph() == icon::ERROR_OUTLINE@,
{
    reveal_strlit("settings.general");
    reveal_strlit("settings.models");
    reveal_strlit("settings.voices");
    reveal_strlit("settings.audio");
    reveal_strlit("settings.storage");
    reveal_strlit("settings.runtime");
    reveal_strlit("settings.about");
    let (a, b) = (pane.spec_label(), other.spec_label());
    assert(pane != other ==> a.len() != b.len() || a[9] != b[9] || a[10] != b[10]);
    assert("settings.general"@[9] == 'g' && "settings.models"@[9] == 'm');
    assert("settings.voices"@[9] == 'v' && "settings.storage"@[9] == 's');
    assert("settings.runtime"@[9] == 'r');
    assert("settings.audio"@[10] == 'u' && "settings.about"@[10] == 'b');
    assert("settings.audio"@[9] == 'a' && "settings.about"@[9] == 'a');
}

/// Deleting a voice takes pressing twice on the same one: pressing on another
/// asks about that one instead, and leaving for another pane, or closing the
/// window, forgets what was asked.
pub proof fn lemma_deleting_a_voice_takes_two_presses(
    studio: StudioView,
    id: Seq<char>,
    other: Seq<char>,
    pane: Pane,
)
    ensures
        studio.voice_delete_pressed(id).confirming_voice == Some(id),
        studio.voice_delete_pressed(id).voice_delete_pressed(other).confirming_voice == Some(other),
        studio.voice_delete_pressed(id).at_pane(pane).confirming_voice is None,
        studio.voice_delete_pressed(id).settings_closed().confirming_voice is None,
        studio.voice_delete_pressed(id) == (StudioView { confirming_voice: Some(id), ..studio }),
        studio.asked_to_delete(id).at_pane(pane).confirming_delete is None,
        studio.at_pane(pane).settings_pane == pane,
        studio.at_pane(pane) == (StudioView {
            settings_pane: pane,
            confirming_voice: None,
            confirming_delete: None,
            ..studio
        }),
{
}

} // verus!
