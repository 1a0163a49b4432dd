//! The model switcher that drops out of the title bar.
//!
//! Two things matter here, both about cost. What is downloaded and what is not
//! are separate lists, because picking something on disk and committing
//! several gigabytes are different decisions. And switching states its price:
//! a resident model reads "in memory", one on disk reads how long it took to
//! load here last time.

use vstd::prelude::*;

use crate::engine::ModelSpec;
use crate::icon;
use crate::models::{
    Fact, FactView, facts_view, model_name, size_fact, size_of, spec_model_name, speed_fact,
};
use crate::single::Single;
use crate::studio::{StudioView, VoiceStudio};
use crate::text::named;
use crate::voices::{WarmRequest, warm_view};

verus! {

/// What choosing a model costs right now.
#[derive(Clone, Copy, Debug, PartialEq, Eq, Structural)]
pub enum Cost {
    InMemory,
    /// The seconds it took to load here last time.
    LoadsIn(Single),
    OnDisk,
}

pub open spec fn spec_switch_cost(model: ModelSpec) -> Cost {
    if model.resident {
        Cost::InMemory
    } else {
        match model.load_s {
            Some(seconds) => Cost::LoadsIn(seconds),
            None => Cost::OnDisk,
        }
    }
}

/// What choosing this model costs right now.
pub fn switch_cost(model: &ModelSpec) -> (cost: Cost)
    ensures
        cost == spec_switch_cost(*model),
{
    if model.resident {
        Cost::InMemory
    } else {
        match model.load_s {
            Some(seconds) => Cost::LoadsIn(seconds),
            None => Cost::OnDisk,
        }
    }
}

/// The line under a model's name: what it occupies, and how fast it runs here.
/// Only measured figures appear: a model never used on this machine shows its
/// size alone rather than a borrowed benchmark.
pub fn model_facts(model: &ModelSpec) -> (facts: Vec<Fact>)
    ensures
        facts_view(facts@) == size_fact(*model) + speed_fact(*model),
{
    let mut facts: Vec<Fact> = Vec::new();
    match size_of(model) {
        Some(bytes) => {
            facts.push(Fact::Size(bytes));
        },
        None => {},
    }
    match model.measured_rtf {
        Some(rtf) => {
            facts.push(Fact::Measured(rtf));
        },
        None => {},
    }
    assert(facts_view(facts@) =~= size_fact(*model) + speed_fact(*model));
    facts
}

/// One model in the switcher.
#[derive(Clone, Debug)]
pub struct SwitchRow {
    pub id: String,
    pub name: String,
    /// The current model is the only filled row.
    pub chosen: bool,
    pub installed: bool,
    pub glyph: &'static str,
    /// What switching costs, for one that is on disk.
    pub cost: Option<Cost>,
    pub facts: Vec<Fact>,
}

impl StudioView {
    /// A model chosen from the switcher, which is put away.
    pub open spec fn switched(self, id: Seq<char>) -> StudioView {
        StudioView { model_menu: false, ..self.with_model(id).warmed_up() }
    }

    /// The glyph beside a model. A download reads as motion, not as a choice.
    pub open spec fn switch_glyph(self, model: ModelSpec) -> Seq<char> {
        if self.is_downloading(model.id@) {
            icon::DOWNLOADING@
        } else if !model.installed {
            icon::DOWNLOAD@
        } else if self.selected_model == Some(model.id@) {
            icon::CHECK_CIRCLE@
        } else {
            icon::RADIO_UNCHECKED@
        }
    }
}

impl SwitchRow {
    pub open spec fn shows(self, studio: StudioView, model: ModelSpec) -> bool {
        &&& self.id@ == model.id@
        &&& self.name@ == spec_model_name(model)
        &&& self.chosen == (studio.selected_model == Some(model.id@))
        &&& self.installed == model.installed
        &&& self.glyph@ == studio.switch_glyph(model)
        &&& self.cost == (if model.installed {
            Some(spec_switch_cost(model))
        } else {
            None
        })
        &&& facts_view(self.facts@) == size_fact(model) + speed_fact(model)
    }
}

/// The switcher: what is on this machine, and what is not.
#[derive(Clone, Debug)]
pub struct ModelMenu {
    pub on_machine: Vec<SwitchRow>,
    pub not_downloaded: Vec<SwitchRow>,
}

impl VoiceStudio {
    /// One model's row.
    pub fn switch_row(&self, model: &ModelSpec) -> (row: SwitchRow)
        ensures
            row.shows(self@, *model),
    {
        let chosen = named(&self.selected_model, model.id.as_str());
        let glyph = if self.downloading(model.id.as_str()) {
            icon::DOWNLOADING
        } else if !model.installed {
            icon::DOWNLOAD
        } else if chosen {
            icon::CHECK_CIRCLE
        } else {
            icon::RADIO_UNCHECKED
        };
        SwitchRow {
            id: model.id.clone(),
            name: model_name(model),
            chosen,
            installed: model.installed,
            glyph,
            cost: if model.installed {
                Some(switch_cost(model))
            } else {
                None
            },
            facts: model_facts(model),
        }
    }

    /// The rows of the models that are on disk, or of those that are not. A
    /// section with none is not shown.
    pub fn switch_section(&self, installed: bool) -> (rows: Vec<SwitchRow>)
        ensures
            ({
                let listed = if installed {
                    self@.installed()
                } else {
                    self@.absent()
                };
                &&& rows.len() == listed.len()
                &&& forall|i: int|
                    0 <= i < rows.len() ==> (#[trigger] rows@[i]).shows(self@, listed[i])
            }),
    {
        let mut rows: Vec<SwitchRow> = Vec::new();
        let mut i: usize = 0;
        let ghost kept = |model: ModelSpec| model.installed == installed;
        reveal(Seq::filter);
        while i < self.models.len()
            invariant
                i <= self.models.len(),
                kept == (|model: ModelSpec| model.installed == installed),
                rows.len() == self@.models.take(i as int).filter(kept).len(),
                forall|j: int|
                    0 <= j < rows.len() ==> (#[trigger] rows@[j]).shows(
                        self@,
                        self@.models.take(i as int).filter(kept)[j],
                    ),
            decreases self.models.len() - i,
        {
            reveal(Seq::filter);
            assert(self@.models.take(i + 1).drop_last() =~= self@.models.take(i as int));
            if self.models[i].installed == installed {
                rows.push(self.switch_row(&self.models[i]));
            }
            i = i + 1;
        }
        assert(self@.models.take(self@.models.len() as int) =~= self@.models);
        proof {
            lemma_same_choice(self@.models, installed);
        }
        rows
    }

    /// The switcher, while it is open.
    pub fn model_menu(&self) -> (menu: Option<ModelMenu>)
        ensures
            match menu {
                Some(menu) => {
                    &&& self@.model_menu
                    &&& menu.on_machine.len() == self@.installed().len()
                    &&& forall|i: int|
                        0 <= i < menu.on_machine.len() ==> (#[trigger] menu.on_machine@[i]).shows(
                            self@,
                            self@.installed()[i],
                        )
                    &&& menu.not_downloaded.len() == self@.absent().len()
                    &&& forall|i: int|
                        0 <= i < menu.not_downloaded.len() ==> (
                        #[trigger] menu.not_downloaded@[i]).shows(self@, self@.absent()[i])
                },
                None => !self@.model_menu,
            },
    {
        if !self.model_menu {
            return None;
        }
        Some(
            ModelMenu {
                on_machine: self.switch_section(true),
                not_downloaded: self.switch_section(false),
            },
        )
    }

    /// Press a model in the switcher. One on disk is chosen, and the menu is
    /// put away; what comes back is the voice to prepare for it. Any other is
    /// downloaded, and the menu stays: its row is where the progress appears.
    pub fn press_switch(&mut self, id: &str, installed: bool) -> (then: Result<
        Option<WarmRequest>,
        bool,
    >)
        ensures
            if installed {
                &&& final(self)@ == old(self)@.switched(id@)
                &&& then matches Ok(request) && warm_view(request) == old(self)@.with_model(
                    id@,
                ).warm_request()
            } else {
                &&& final(self)@ == old(self)@
                &&& then matches Err(start) && start == (old(self)@.engine && !old(
                    self,
                )@.is_downloading(id@))
            },
    {
        if installed {
            let request = self.select_model(id);
            self.close_model_menu();
            Ok(request)
        } else {
            Err(self.install_model(id))
        }
    }

    /// Put the switcher away.
    pub fn close_model_menu(&mut self)
        ensures
            final(self)@ == (StudioView { model_menu: false, ..old(self)@ }),
    {
        self.model_menu = false;
    }
}

proof fn lemma_same_choice(models: Seq<ModelSpec>, installed: bool)
    ensures
        models.filter(|model: ModelSpec| model.installed == installed) == (if installed {
            models.filter(|model: ModelSpec| model.installed)
        } else {
            models.filter(|model: ModelSpec| !model.installed)
        }),
    decreases models.len(),
{
    reveal(Seq::filter);
    if models.len() > 0 {
        lemma_same_choice(models.drop_last(), installed);
    }
}

/// What switching costs is told for what it is: nothing for a model in memory,
/// the time it took to load here for one that has been, and only that it is on
/// disk for one that has not.
pub proof fn lemma_what_switching_costs(model: ModelSpec)
    ensures
        model.resident ==> spec_switch_cost(model) is InMemory,
        !model.resident && model.load_s is None ==> spec_switch_cost(model) is OnDisk,
        !model.resident ==> (model.load_s matches Some(seconds) ==> spec_switch_cost(model)
            == Cost::LoadsIn(seconds)),
{
}

/// A row of the switcher is about its model: filled where it is the one
/// selected, priced where it is on disk, and with what it occupies, or would
/// cost to fetch, before how fast it ran.
pub proof fn lemma_a_switcher_row_is_about_its_model(
    studio: StudioView,
    model: ModelSpec,
    row: SwitchRow,
)
    requires
        row.shows(studio, model),
    ensures
        row.id@ == model.id@,
        model.name@.len() > 0 ==> row.name@ == model.name@,
        model.name@.len() == 0 ==> row.name@ == model.label@,
        row.chosen <==> studio.selected_model == Some(model.id@),
        row.installed == model.installed,
        row.cost is Some <==> model.installed,
        model.installed && model.resident ==> row.cost == Some(Cost::InMemory),
        ({
            let moving = studio.installs.dom().contains(model.id@)
                && studio.installs[model.id@].downloading;
            &&& moving ==> row.glyph@ == icon::DOWNLOADING@
            &&& !moving && !model.installed ==> row.glyph@ == icon::DOWNLOAD@
            &&& !moving && model.installed && studio.selected_model == Some(model.id@)
                ==> row.glyph@ == icon::CHECK_CIRCLE@
            &&& !moving && model.installed && studio.selected_model != Some(model.id@)
                ==> row.glyph@ == icon::RADIO_UNCHECKED@
        }),
        ({
            let facts = facts_view(row.facts@);
            let bytes = if model.installed {
                model.size_bytes
            } else {
                model.download_bytes
            };
            &&& bytes > 0 ==> facts.len() > 0 && facts[0] == FactView::Size(bytes)
            &&& bytes == 0 && model.measured_rtf is None ==> facts.len() == 0
            &&& model.measured_rtf matches Some(rtf) ==> facts.len() > 0 && facts.last()
                == FactView::Measured(rtf)
            &&& bytes > 0 && model.measured_rtf is None ==> facts.len() == 1
        }),
{
}

/// Choosing from the switcher puts it away and is otherwise choosing the model:
/// the voice it would speak in, if any, begins to be prepared for it.
pub proof fn lemma_switching_puts_the_menu_away(studio: StudioView, id: Seq<char>)
    ensures
        ({
            let after = studio.switched(id);
            &&& !after.model_menu
            &&& after.selected_model == Some(id)
            &&& after.selected_voice == studio.with_model(id).selected_voice
            &&& studio.engine ==> (after.speaking() matches Some(voice) ==> after.warming == Some(
                voice,
            ))
            &&& after.speaking() is None || !studio.engine ==> after.warming is None
            &&& after == (StudioView {
                model_menu: false,
                selected_model: after.selected_model,
                selected_voice: after.selected_voice,
                warming: after.warming,
                ..studio
            })
        }),
{
    let (after, chosen) = (studio.switched(id), studio.with_model(id));
    assert(after.model() == chosen.model());
    assert(after.speaking() == chosen.speaking());
}

} // verus!
