//! Choosing a model, and putting one on disk.
//!
//! One model per row, with the licence and the download size where a blurb
//! would normally go. Both are commitments the person is making, gigabytes of
//! disk and terms they inherit for anything they generate, so both are read
//! before the download starts rather than found afterwards.

use vstd::prelude::*;
use vstd::string::*;

use crate::engine::{InstallStatus, ModelSpec, SynthesisRequest, SystemInfo};
use crate::generation::request_view;
use crate::queue::lemma_what_waits_is_run;
use crate::single::Single;
use crate::studio::{Status, StatusView, StudioView, VoiceStudio};
use crate::text::{name_view, named};
use crate::voices::{WarmRequest, warm_view};

verus! {

/// What a model is called: its own name, or the application's label for a
/// catalogue entry that has not been given one.
pub open spec fn spec_model_name(model: ModelSpec) -> Seq<char> {
    if model.name@.len() == 0 {
        model.label@
    } else {
        model.name@
    }
}

pub fn model_name(model: &ModelSpec) -> (name: String)
    ensures
        name@ == spec_model_name(*model),
{
    if crate::text::chars_of(model.name.as_str()).len() == 0 {
        model.label.clone()
    } else {
        model.name.clone()
    }
}

/// Whether a model of this id is on disk, in a catalogue.
pub open spec fn on_disk(models: Seq<ModelSpec>, id: Option<Seq<char>>) -> bool {
    exists|i: int|
        0 <= i < models.len() && Some((#[trigger] models[i]).id@) == id && models[i].installed
}

/// The first model of a catalogue that is on disk.
pub open spec fn first_on_disk(models: Seq<ModelSpec>) -> Option<Seq<char>>
    decreases models.len(),
{
    if models.len() == 0 {
        None
    } else if models[0].installed {
        Some(models[0].id@)
    } else {
        first_on_disk(models.drop_first())
    }
}

impl StudioView {
    /// A model has been chosen. One that cannot clone drops the voice, rather
    /// than leaving one shown that is not used; and whatever was being
    /// prepared was for the model before.
    pub open spec fn with_model(self, id: Seq<char>) -> StudioView {
        let chosen = StudioView { selected_model: Some(id), warming: None, ..self };
        if chosen.can_clone() {
            chosen
        } else {
            StudioView { selected_voice: None, ..chosen }
        }
    }

    /// Whether a download of this model is under way.
    pub open spec fn is_downloading(self, id: Seq<char>) -> bool {
        self.installs.dom().contains(id) && self.installs[id].downloading
    }

    /// Whether there is a download whose cost is not known, and an engine to
    /// ask what it is.
    pub open spec fn wants_sizes(self) -> bool {
        self.engine && exists|i: int|
            0 <= i < self.models.len() && (#[trigger] self.models[i]).download_bytes == 0
                && !self.models[i].installed
    }

    /// How a download stands, taken in. One that failed says so.
    pub open spec fn download_reported(self, id: Seq<char>, status: InstallStatus) -> StudioView {
        StudioView {
            installs: self.installs.insert(id, status),
            status: match status.error {
                Some(reason) => StatusView::Failed(reason@),
                None => self.status,
            },
            ..self
        }
    }

    /// What is known once a download has come to an end.
    pub open spec fn downloaded(self, id: Seq<char>, models: Option<Vec<ModelSpec>>) -> StudioView {
        StudioView {
            models: match models {
                Some(models) => models@,
                None => self.models,
            },
            installs: self.installs.remove(id),
            ..self
        }
    }

    /// What is known once a model has been deleted, or has not: the selection
    /// stays on something that is still on disk.
    pub open spec fn without_model(self, left: Result<Vec<ModelSpec>, String>) -> StudioView {
        match left {
            Ok(models) => StudioView {
                models: models@,
                selected_model: if on_disk(models@, self.selected_model) {
                    self.selected_model
                } else {
                    first_on_disk(models@)
                },
                ..self
            },
            Err(reason) => StudioView { status: StatusView::Failed(reason@), ..self },
        }
    }
}

fn is_on_disk(models: &Vec<ModelSpec>, id: &Option<String>) -> (there: bool)
    ensures
        there == on_disk(models@, name_view(*id)),
{
    let mut i: usize = 0;
    while i < models.len()
        invariant
            i <= models.len(),
            forall|j: int|
                0 <= j < i ==> !(Some((#[trigger] models@[j]).id@) == name_view(*id)
                    && models@[j].installed),
        decreases models.len() - i,
    {
        if models[i].installed && named(id, models[i].id.as_str()) {
            assert(models@[i as int].installed);
            return true;
        }
        i = i + 1;
    }
    false
}

fn find_on_disk(models: &Vec<ModelSpec>) -> (id: Option<String>)
    ensures
        name_view(id) == first_on_disk(models@),
{
    let mut i: usize = 0;
    assert(models@.skip(0) =~= models@);
    while i < models.len()
        invariant
            i <= models.len(),
            first_on_disk(models@) == first_on_disk(models@.skip(i as int)),
        decreases models.len() - i,
    {
        assert(models@.skip(i as int)[0] == models@[i as int]);
        if models[i].installed {
            return Some(models[i].id.clone());
        }
        assert(models@.skip(i as int).drop_first() =~= models@.skip(i + 1));
        i = i + 1;
    }
    None
}

impl VoiceStudio {
    /// Choosing a model can invalidate the voice. What comes back is the voice
    /// to prepare for the new model: the conditioning is built against one.
    pub fn select_model(&mut self, id: &str) -> (request: Option<WarmRequest>)
        ensures
            final(self)@ == old(self)@.with_model(id@).warmed_up(),
            warm_view(request) == old(self)@.with_model(id@).warm_request(),
    {
        self.selected_model = Some(id.to_owned());
        self.warming = None;
        if !self.model_can_clone() {
            self.selected_voice = None;
        }
        self.warm_selected_voice()
    }

    /// Whether a download of this model is under way.
    pub fn downloading(&self, id: &str) -> (downloading: bool)
        ensures
            downloading == self@.is_downloading(id@),
    {
        match self.installs.get(id) {
            Some(status) => status.downloading,
            None => false,
        }
    }

    /// Whether to start a download: there is an engine to ask, and one is not
    /// running already.
    pub fn install_model(&self, id: &str) -> (start: bool)
        ensures
            start == (self@.engine && !self@.is_downloading(id@)),
    {
        self.engine && !self.downloading(id)
    }

    /// Take in how a download stands. Whether to ask again.
    pub fn install_progressed(&mut self, id: &str, status: InstallStatus) -> (again: bool)
        ensures
            again == status.downloading,
            final(self)@ == old(self)@.download_reported(id@, status),
    {
        let again = status.downloading;
        match &status.error {
            Some(reason) => {
                self.status = Status::Failed(reason.clone());
            },
            None => {},
        }
        self.installs.insert(id, status);
        again
    }

    fn take_in(&mut self, id: &str, models: Option<Vec<ModelSpec>>)
        ensures
            final(self)@ == old(self)@.downloaded(id@, models),
    {
        match models {
            Some(models) => {
                self.models = models;
            },
            None => {},
        }
        self.installs.remove(id);
    }

    /// A download has come to an end: take in the catalogue, so that the model
    /// reads as installed, and run the words that were waiting for it. Where
    /// there is no engine, something else is running, or the model is still
    /// not there, they go on waiting. What comes back is what the engine is
    /// asked to speak.
    pub fn install_settled(&mut self, id: &str, models: Option<Vec<ModelSpec>>) -> (request: Option<
        SynthesisRequest,
    >)
        requires
            old(self).next_draft < usize::MAX,
        ensures
            final(self)@ == old(self)@.downloaded(id@, models).queue_run(),
            request_view(request) == old(self)@.downloaded(id@, models).queue_request(),
            old(self)@.queued is Some && old(self)@.engine && !old(self)@.is_busy() && old(
                self,
            )@.downloaded(id@, models).ready() ==> {
                &&& request matches Some(request) && request.text@ == old(self)@.waiting_words()
                &&& final(self)@.queued is None
            },
    {
        self.take_in(id, models);
        proof {
            lemma_what_waits_is_run(self@);
        }
        self.run_queue()
    }

    /// The deletion was confirmed. Whether there is an engine to ask.
    pub fn delete_model(&mut self) -> (ask: bool)
        ensures
            ask == old(self)@.engine,
            final(self)@ == (if old(self)@.engine {
                StudioView { confirming_delete: None, ..old(self)@ }
            } else {
                old(self)@
            }),
    {
        if self.engine {
            self.confirming_delete = None;
        }
        self.engine
    }

    /// Take in the catalogue after a deletion.
    pub fn model_deleted(&mut self, left: Result<Vec<ModelSpec>, String>)
        ensures
            final(self)@ == old(self)@.without_model(left),
    {
        match left {
            Ok(models) => {
                if !is_on_disk(&models, &self.selected_model) {
                    self.selected_model = find_on_disk(&models);
                }
                self.models = models;
            },
            Err(reason) => {
                self.status = Status::Failed(reason);
            },
        }
    }

    /// Take in a fresh catalogue; a failure to read it leaves the old one.
    pub fn models_refreshed(&mut self, models: Option<Vec<ModelSpec>>)
        ensures
            final(self)@ == (match models {
                Some(models) => StudioView { models: models@, ..old(self)@ },
                None => old(self)@,
            }),
    {
        match models {
            Some(models) => {
                self.models = models;
            },
            None => {},
        }
    }

    /// Take in what the system says of itself; a failure leaves what was known.
    pub fn system_refreshed(&mut self, system: Option<SystemInfo>)
        ensures
            final(self)@ == (match system {
                Some(_) => StudioView { system, ..old(self)@ },
                None => old(self)@,
            }),
    {
        if system.is_some() {
            self.system = system;
        }
    }

    /// Whether to ask what the downloads cost: there is an engine to ask, and
    /// a model not on disk whose download has no size yet.
    pub fn refresh_model_sizes(&self) -> (ask: bool)
        ensures
            ask == self@.wants_sizes(),
    {
        if !self.engine {
            return false;
        }
        let mut i: usize = 0;
        while i < self.models.len()
            invariant
                self.engine,
                i <= self.models.len(),
                forall|j: int|
                    0 <= j < i ==> !((#[trigger] self@.models[j]).download_bytes == 0
                        && !self@.models[j].installed),
            decreases self.models.len() - i,
        {
            if self.models[i].download_bytes == 0 && !self.models[i].installed {
                assert(self@.models[i as int].download_bytes == 0);
                return true;
            }
            i = i + 1;
        }
        false
    }
}

/// One fact about a model.
#[derive(Clone, Debug)]
pub enum Fact {
    /// What it occupies, or what it costs to download.
    Size(u64),
    Text(String),
    /// Seconds of work per second of speech, measured here.
    Measured(Single),
    CanClone,
    OwnVoiceOnly,
}

#[verifier::ext_equal]
pub enum FactView {
    Size(u64),
    Text(Seq<char>),
    Measured(Single),
    CanClone,
    OwnVoiceOnly,
}

impl View for Fact {
    type V = FactView;

    open spec fn view(&self) -> FactView {
        match self {
            Fact::Size(bytes) => FactView::Size(*bytes),
            Fact::Text(text) => FactView::Text(text@),
            Fact::Measured(rtf) => FactView::Measured(*rtf),
            Fact::CanClone => FactView::CanClone,
            Fact::OwnVoiceOnly => FactView::OwnVoiceOnly,
        }
    }
}

pub open spec fn facts_view(facts: Seq<Fact>) -> Seq<FactView> {
    Seq::new(facts.len(), |i: int| facts[i]@)
}

/// What a model occupies if it is here, or what it costs to get. Nothing at
/// all for one whose size has never been looked up.
pub open spec fn size_fact(model: ModelSpec) -> Seq<FactView> {
    let bytes = if model.installed {
        model.size_bytes
    } else {
        model.download_bytes
    };
    if bytes > 0 {
        seq![FactView::Size(bytes)]
    } else {
        seq![]
    }
}

/// How fast a model runs here, if it ever has.
pub open spec fn speed_fact(model: ModelSpec) -> Seq<FactView> {
    match model.measured_rtf {
        Some(rtf) => seq![FactView::Measured(rtf)],
        None => seq![],
    }
}

/// The facts on a model's row: its size, its terms, its speed here, and
/// whether it can clone, because discovering that at the end would be after
/// someone had recorded themselves.
pub open spec fn row_facts(model: ModelSpec) -> Seq<FactView> {
    size_fact(model) + seq![FactView::Text(model.licence@), FactView::Text(model.precision@)]
        + speed_fact(model) + seq![
        if model.supports_cloning {
            FactView::CanClone
        } else {
            FactView::OwnVoiceOnly
        },
    ]
}

pub(crate) fn size_of(model: &ModelSpec) -> (bytes: Option<u64>)
    ensures
        size_fact(*model) == (match bytes {
            Some(bytes) => seq![FactView::Size(bytes)],
            None => seq![],
        }),
{
    let bytes: u64 = if model.installed {
        model.size_bytes
    } else {
        model.download_bytes
    };
    if bytes > 0 {
        Some(bytes)
    } else {
        None
    }
}

fn facts_of(model: &ModelSpec) -> (facts: Vec<Fact>)
    ensures
        facts_view(facts@) == row_facts(*model),
{
    let mut facts: Vec<Fact> = Vec::new();
    match size_of(model) {
        Some(bytes) => {
            facts.push(Fact::Size(bytes));
        },
        None => {},
    }
    facts.push(Fact::Text(model.licence.clone()));
    facts.push(Fact::Text(model.precision.clone()));
    match model.measured_rtf {
        Some(rtf) => {
            facts.push(Fact::Measured(rtf));
        },
        None => {},
    }
    if model.supports_cloning {
        facts.push(Fact::CanClone);
    } else {
        facts.push(Fact::OwnVoiceOnly);
    }
    assert(facts_view(facts@) =~= row_facts(*model));
    facts
}

/// What a model's row offers to do.
#[derive(Clone, Copy, Debug, PartialEq, Eq, Structural)]
pub enum RowAction {
    /// A download owns the row while it runs: bytes so far, and in all.
    Downloading(u64, u64),
    InUse,
    Use,
    Download,
}

/// One model, as its row shows it.
#[derive(Clone, Debug)]
pub struct ModelRow {
    pub id: String,
    pub name: String,
    /// What the application recommends it for.
    pub label: String,
    pub notes: String,
    pub selected: bool,
    pub recommended: bool,
    pub installed: bool,
    pub facts: Vec<Fact>,
    pub action: RowAction,
}

impl StudioView {
    pub open spec fn row_action(self, model: ModelSpec) -> RowAction {
        if self.is_downloading(model.id@) {
            let status = self.installs[model.id@];
            RowAction::Downloading(status.downloaded_bytes, status.total_bytes)
        } else if model.installed {
            if self.selected_model == Some(model.id@) {
                RowAction::InUse
            } else {
                RowAction::Use
            }
        } else {
            RowAction::Download
        }
    }
}

impl ModelRow {
    /// Whether this is the row of a model.
    pub open spec fn shows(self, studio: StudioView, model: ModelSpec) -> bool {
        &&& self.id@ == model.id@
        &&& self.name@ == spec_model_name(model)
        &&& self.label@ == model.label@
        &&& self.notes@ == model.notes@
        &&& self.selected == (studio.selected_model == Some(model.id@))
        &&& self.recommended == model.default
        &&& self.installed == model.installed
        &&& facts_view(self.facts@) == row_facts(model)
        &&& self.action == studio.row_action(model)
    }
}

/// The screen a model is chosen on.
#[derive(Clone, Debug)]
pub struct ModelsScreen {
    pub rows: Vec<ModelRow>,
    /// Bytes free on the machine, once that is known.
    pub free: Option<u64>,
    /// Nothing to continue to until something can speak, so the step gates on
    /// disk rather than on a click.
    pub can_continue: bool,
}

impl ModelsScreen {
    /// Whether this is the screen for what is known.
    pub open spec fn shows(self, studio: StudioView) -> bool {
        &&& self.rows.len() == studio.models.len()
        &&& forall|i: int|
            0 <= i < self.rows.len() ==> (#[trigger] self.rows@[i]).shows(studio, studio.models[i])
        &&& self.free == (match studio.system {
            Some(system) => Some(system.free_bytes),
            None => None,
        })
        &&& self.can_continue == (studio.installed().len() > 0)
    }
}

impl VoiceStudio {
    /// One model's row.
    pub fn model_row(&self, model: &ModelSpec) -> (row: ModelRow)
        ensures
            row.shows(self@, *model),
    {
        let selected = named(&self.selected_model, model.id.as_str());
        let action = match self.installs.get(model.id.as_str()) {
            Some(status) => if status.downloading {
                RowAction::Downloading(status.downloaded_bytes, status.total_bytes)
            } else {
                settled_action(model, selected)
            },
            None => settled_action(model, selected),
        };
        ModelRow {
            id: model.id.clone(),
            name: model_name(model),
            label: model.label.clone(),
            notes: model.notes.clone(),
            selected,
            recommended: model.default,
            installed: model.installed,
            facts: facts_of(model),
            action,
        }
    }

    /// Every model, one row each, and whether there is anything to go on with.
    pub fn models_screen(&self) -> (screen: ModelsScreen)
        ensures
            screen.shows(self@),
    {
        let mut rows: Vec<ModelRow> = Vec::new();
        let mut i: usize = 0;
        while i < self.models.len()
            invariant
                i <= self.models.len(),
                rows.len() == i,
                forall|j: int|
                    0 <= j < i ==> (#[trigger] rows@[j]).shows(self@, self@.models[j]),
            decreases self.models.len() - i,
        {
            rows.push(self.model_row(&self.models[i]));
            i = i + 1;
        }
        ModelsScreen {
            rows,
            free: match &self.system {
                Some(system) => Some(system.free_bytes),
                None => None,
            },
            can_continue: self.installed_models() > 0,
        }
    }
}

fn settled_action(model: &ModelSpec, selected: bool) -> (action: RowAction)
    ensures
        action == (if !model.installed {
            RowAction::Download
        } else if selected {
            RowAction::InUse
        } else {
            RowAction::Use
        }),
{
    if !model.installed {
        RowAction::Download
    } else if selected {
        RowAction::InUse
    } else {
        RowAction::Use
    }
}

/// After a model has been deleted, the selection is on one that is on disk, or
/// there is none on disk to be on.
pub proof fn lemma_the_selection_survives_a_deletion(studio: StudioView, models: Vec<ModelSpec>)
    ensures
        ({
            let after = studio.without_model(Ok::<Vec<ModelSpec>, String>(models));
            ||| after.selected_model is Some && on_disk(after.models, after.selected_model)
            ||| after.selected_model is None && forall|i: int|
                0 <= i < after.models.len() ==> !(#[trigger] after.models[i]).installed
        }),
{
    lemma_first_on_disk(models@);
}

proof fn lemma_first_on_disk(models: Seq<ModelSpec>)
    ensures
        match first_on_disk(models) {
            Some(id) => on_disk(models, Some(id)),
            None => forall|i: int| 0 <= i < models.len() ==> !(#[trigger] models[i]).installed,
        },
    decreases models.len(),
{
    if models.len() > 0 {
        let rest = models.drop_first();
        lemma_first_on_disk(rest);
        if models[0].installed {
        } else if first_on_disk(rest) is Some {
            let i = choose|i: int|
                0 <= i < rest.len() && Some((#[trigger] rest[i]).id@) == first_on_disk(rest)
                    && rest[i].installed;
            assert(models[i + 1] == rest[i]);
        } else {
            assert forall|i: int| 0 <= i < models.len() implies !(#[trigger] models[i]).installed by {
                if i > 0 {
                    assert(rest[i - 1] == models[i]);
                }
            }
        }
    }
}

/// Choosing a model that cannot clone leaves no voice selected, and no choice
/// of model leaves a voice to be spoken in that it could not speak.
pub proof fn lemma_a_model_that_cannot_clone_drops_the_voice(studio: StudioView, id: Seq<char>)
    ensures
        ({
            let after = studio.with_model(id);
            !after.can_clone() ==> after.selected_voice is None && after.speaking() is None
        }),
{
}

/// A model is downloaded once at a time: while its download runs, asking again
/// starts nothing.
pub proof fn lemma_one_download_per_model(studio: StudioView, id: Seq<char>, status: InstallStatus)
    requires
        status.downloading,
    ensures
        (StudioView { installs: studio.installs.insert(id, status), ..studio }).is_downloading(id),
        !studio.downloaded(id, None).is_downloading(id),
{
}

/// What was waiting for a model runs once it is there: those words are what is
/// asked for, whatever the composer holds by then, and the queue is emptied.
/// Words that cannot be run yet go on waiting.
pub proof fn lemma_the_queue_runs_when_the_model_is_there(
    studio: StudioView,
    id: Seq<char>,
    models: Option<Vec<ModelSpec>>,
)
    ensures
        ({
            let settled = studio.downloaded(id, models);
            &&& studio.queued is Some && studio.engine && !studio.is_busy() && settled.ready() ==> {
                &&& settled.queue_request() matches Some(request) && request.text
                    == studio.waiting_words()
                &&& settled.queue_run().status is Generating
                &&& settled.queue_run().queued is None
            }
            &&& settled.queue_request() is None ==> settled.queue_run().queued == studio.queued
        }),
{
    lemma_what_waits_is_run(studio.downloaded(id, models));
}

/// A model goes by its own name, and by the label it was given where it has
/// none.
pub proof fn lemma_a_model_goes_by_its_name(model: ModelSpec)
    ensures
        model.name@.len() > 0 ==> spec_model_name(model) == model.name@,
        model.name@.len() == 0 ==> spec_model_name(model) == model.label@,
{
}

/// Choosing a model selects it, forgets what was being prepared for the one
/// before, and keeps the voice only where the new model can speak in it.
/// Nothing else changes.
pub proof fn lemma_choosing_a_model_keeps_a_voice_it_can_speak(
    studio: StudioView,
    id: Seq<char>,
    at: int,
)
    ensures
        ({
            let after = studio.with_model(id);
            &&& after.selected_model == Some(id)
            &&& after.warming is None
            &&& 0 <= at < studio.models.len() && studio.models[at].id@ == id && (forall|j: int|
                0 <= j < at ==> (#[trigger] studio.models[j]).id@ != id) ==> {
                &&& studio.models[at].supports_cloning ==> after.selected_voice
                    == studio.selected_voice
                &&& !studio.models[at].supports_cloning ==> after.selected_voice is None
            }
            &&& (forall|j: int|
                0 <= j < studio.models.len() ==> (#[trigger] studio.models[j]).id@ != id)
                ==> after.selected_voice is None
            &&& after == (StudioView {
                selected_model: after.selected_model,
                warming: after.warming,
                selected_voice: after.selected_voice,
                ..studio
            })
        }),
{
    crate::engine::lemma_the_first_is_found(studio.models, id, at);
}

/// A deletion leaves the selection alone while that model is on disk, and
/// otherwise moves it to the first that is. One that failed says why and
/// changes nothing else.
pub proof fn lemma_a_deletion_moves_the_selection_only_where_it_must(
    studio: StudioView,
    models: Vec<ModelSpec>,
    reason: String,
    at: int,
)
    ensures
        ({
            let after = studio.without_model(Ok::<Vec<ModelSpec>, String>(models));
            let left = models@;
            let kept = exists|i: int|
                0 <= i < left.len() && studio.selected_model == Some((#[trigger] left[i]).id@)
                    && left[i].installed;
            &&& after.models == left
            &&& kept ==> after.selected_model == studio.selected_model
            &&& !kept && 0 <= at < left.len() && left[at].installed && (forall|j: int|
                0 <= j < at ==> !(#[trigger] left[j]).installed) ==> after.selected_model == Some(
                left[at].id@,
            )
            &&& !kept && (forall|j: int| 0 <= j < left.len() ==> !(#[trigger] left[j]).installed)
                ==> after.selected_model is None
            &&& after == (StudioView {
                models: after.models,
                selected_model: after.selected_model,
                ..studio
            })
        }),
        studio.without_model(Err::<Vec<ModelSpec>, String>(reason)) == (StudioView {
            status: StatusView::Failed(reason@),
            ..studio
        }),
{
    lemma_the_first_on_disk(models@, at);
    lemma_first_on_disk(models@);
    if exists|i: int|
        0 <= i < models@.len() && studio.selected_model == Some((#[trigger] models@[i]).id@)
            && models@[i].installed {
        let i = choose|i: int|
            0 <= i < models@.len() && studio.selected_model == Some((#[trigger] models@[i]).id@)
                && models@[i].installed;
        assert(Some(models@[i].id@) == studio.selected_model);
    }
}

proof fn lemma_the_first_on_disk(models: Seq<ModelSpec>, at: int)
    ensures
        0 <= at < models.len() && models[at].installed && (forall|j: int|
            0 <= j < at ==> !(#[trigger] models[j]).installed) ==> first_on_disk(models) == Some(
            models[at].id@,
        ),
    decreases models.len(),
{
    if 0 < at < models.len() && models[at].installed && (forall|j: int|
        0 <= j < at ==> !(#[trigger] models[j]).installed) {
        let rest = models.drop_first();
        assert(rest[at - 1] == models[at]);
        assert forall|j: int| 0 <= j < at - 1 implies !(#[trigger] rest[j]).installed by {
            assert(rest[j] == models[j + 1]);
        }
        lemma_the_first_on_disk(rest, at - 1);
        assert(!models[0].installed);
    }
}

/// A download that has ended is forgotten, and its model only; the catalogue is
/// the new one where it could be read.
pub proof fn lemma_an_ended_download_is_forgotten(
    studio: StudioView,
    id: Seq<char>,
    other: Seq<char>,
    models: Vec<ModelSpec>,
)
    ensures
        ({
            let (read, unread) = (
                studio.downloaded(id, Some(models)),
                studio.downloaded(id, None),
            );
            &&& read.models == models@
            &&& unread.models == studio.models
            &&& !read.installs.dom().contains(id)
            &&& other != id ==> read.is_downloading(other) == studio.is_downloading(other)
            &&& other != id && studio.installs.dom().contains(other)
                ==> read.installs.dom().contains(other) && read.installs[other]
                == studio.installs[other]
            &&& read == (StudioView { models: models@, installs: read.installs, ..studio })
            &&& unread == (StudioView { installs: read.installs, ..studio })
        }),
        studio.is_downloading(id) <==> studio.installs.dom().contains(id)
            && studio.installs[id].downloading,
{
}

/// A model's facts come in one order: what it occupies, or what it would cost
/// to fetch, where that is known; its licence; its precision; how fast it ran
/// here, where it has; and whether it can clone, always and last.
pub proof fn lemma_what_a_row_says_of_a_model(model: ModelSpec)
    ensures
        ({
            let facts = row_facts(model);
            let bytes = if model.installed {
                model.size_bytes
            } else {
                model.download_bytes
            };
            let known: int = if bytes > 0 {
                1
            } else {
                0
            };
            let ran: int = if model.measured_rtf is Some {
                1
            } else {
                0
            };
            &&& facts.len() == known + 2 + ran + 1
            &&& bytes > 0 ==> facts[0] == FactView::Size(bytes)
            &&& facts[known] == FactView::Text(model.licence@)
            &&& facts[known + 1] == FactView::Text(model.precision@)
            &&& model.measured_rtf matches Some(rtf) ==> facts[known + 2] == FactView::Measured(rtf)
            &&& model.supports_cloning ==> facts.last() is CanClone
            &&& !model.supports_cloning ==> facts.last() is OwnVoiceOnly
        }),
{
}

/// A download owns its row while it runs. Past that a model on disk is in use
/// or can be used, and one that is not can be fetched.
pub proof fn lemma_what_a_row_offers(studio: StudioView, model: ModelSpec)
    ensures
        studio.installs.dom().contains(model.id@) && studio.installs[model.id@].downloading
            ==> studio.row_action(model) == RowAction::Downloading(
            studio.installs[model.id@].downloaded_bytes,
            studio.installs[model.id@].total_bytes,
        ),
        !(studio.installs.dom().contains(model.id@) && studio.installs[model.id@].downloading) ==> {
            &&& !model.installed ==> studio.row_action(model) == RowAction::Download
            &&& model.installed && studio.selected_model == Some(model.id@) ==> studio.row_action(
                model,
            ) == RowAction::InUse
            &&& model.installed && studio.selected_model != Some(model.id@) ==> studio.row_action(
                model,
            ) == RowAction::Use
        },
{
}

/// A model's row is about that model: what it is called and recommended for,
/// whether it is on disk, and whether it is the one selected.
pub proof fn lemma_a_row_is_about_its_model(studio: StudioView, model: ModelSpec, row: ModelRow)
    requires
        row.shows(studio, model),
    ensures
        row.id@ == model.id@,
        row.label@ == model.label@,
        row.notes@ == model.notes@,
        row.recommended == model.default,
        row.installed == model.installed,
        row.selected <==> studio.selected_model == Some(model.id@),
        model.name@.len() > 0 ==> row.name@ == model.name@,
        model.name@.len() == 0 ==> row.name@ == model.label@,
        row.action is InUse ==> row.selected && row.installed,
        row.action is Download ==> !row.installed,
        facts_view(row.facts@).last() is CanClone <==> model.supports_cloning,
{
}

/// How a download stands is known of that model and no other, and an error in
/// it is the only thing that is told beside it.
pub proof fn lemma_a_download_reports_on_its_own_model(
    studio: StudioView,
    id: Seq<char>,
    other: Seq<char>,
    status: InstallStatus,
)
    ensures
        ({
            let after = studio.download_reported(id, status);
            &&& after.is_downloading(id) == status.downloading
            &&& after.installs.dom().contains(id) && after.installs[id] == status
            &&& other != id ==> after.is_downloading(other) == studio.is_downloading(other)
            &&& status.error is None ==> after.status == studio.status
            &&& status.error matches Some(reason) ==> after.status == StatusView::Failed(reason@)
            &&& after == (StudioView {
                installs: after.installs,
                status: after.status,
                ..studio
            })
        }),
{
}

/// What downloads cost is asked for only where one is missing: not without an
/// engine, and not of models that are on disk or whose cost is known.
pub proof fn lemma_when_what_downloads_cost_is_asked(studio: StudioView, at: int)
    ensures
        !studio.engine ==> !studio.wants_sizes(),
        studio.engine && 0 <= at < studio.models.len() && studio.models[at].download_bytes == 0
            && !studio.models[at].installed ==> studio.wants_sizes(),
        (forall|i: int|
            0 <= i < studio.models.len() ==> (#[trigger] studio.models[i]).installed
                || studio.models[i].download_bytes > 0) ==> !studio.wants_sizes(),
{
}

/// Every model has a row, in the order of the catalogue, and the step can be
/// left exactly where one of them is on disk.
pub proof fn lemma_every_model_has_a_row(studio: StudioView, screen: ModelsScreen, at: int)
    requires
        screen.shows(studio),
    ensures
        screen.rows@.len() == studio.models.len(),
        0 <= at < studio.models.len() ==> screen.rows@[at].id@ == studio.models[at].id@
            && screen.rows@[at].installed == studio.models[at].installed,
        screen.can_continue <==> exists|i: int|
            0 <= i < studio.models.len() && (#[trigger] studio.models[i]).installed,
        studio.system is None ==> screen.free is None,
        studio.system matches Some(system) ==> screen.free == Some(system.free_bytes),
{
    let here = |model: ModelSpec| model.installed;
    if 0 <= at < studio.models.len() {
        assert(screen.rows@[at].shows(studio, studio.models[at]));
    }
    if exists|i: int| 0 <= i < studio.models.len() && (#[trigger] studio.models[i]).installed {
        let i = choose|i: int| 0 <= i < studio.models.len() && (#[trigger] studio.models[i]).installed;
        studio.models.lemma_filter_contains(here, i);
        assert(studio.installed().len() > 0);
    } else {
        studio.models.lemma_all_neg_filter_empty(here);
    }
}

} // verus!
