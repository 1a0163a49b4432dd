//! Starting up: the speech runtime is what generates speech, so without it
//! there is nothing to return to.

use vstd::prelude::*;
use vstd::string::*;

use crate::engine::{ModelSpec, Progress, Voice};
use crate::icon;
use crate::phrase::{Said, SaidView};
use crate::single::Single;
use crate::studio::{Status, StatusView, StudioView, VoiceStudio};
use crate::text;
use crate::text::name_view;

verus! {

/// Zero, as a single-precision number.
pub const NOTHING: u32 = 0;

/// Whether the application keeps the clips and voices itself, of the name of
/// the protocol that was asked for.
pub fn durable(protocol: Option<&str>) -> (durable: bool)
    ensures
        durable == (match protocol {
            Some(name) => text::same_but_case(name@, "jsonrpc"@),
            None => false,
        }),
{
    match protocol {
        Some(name) => text::eq_ignore_ascii_case(name, "jsonrpc"),
        None => false,
    }
}

/// The model to begin with: the catalogue's default, or else its first.
pub open spec fn default_model(models: Seq<ModelSpec>) -> Option<Seq<char>> {
    match first_default(models) {
        Some(id) => Some(id),
        None => if models.len() > 0 {
            Some(models[0].id@)
        } else {
            None
        },
    }
}

pub open spec fn first_default(models: Seq<ModelSpec>) -> Option<Seq<char>>
    decreases models.len(),
{
    if models.len() == 0 {
        None
    } else if models[0].default {
        Some(models[0].id@)
    } else {
        first_default(models.drop_first())
    }
}

fn find_default(models: &Vec<ModelSpec>) -> (id: Option<String>)
    ensures
        name_view(id) == default_model(models@),
{
    let mut i: usize = 0;
    assert(models@.skip(0) =~= models@);
    while i < models.len()
        invariant
            i <= models.len(),
            first_default(models@) == first_default(models@.skip(i as int)),
        decreases models.len() - i,
    {
        assert(models@.skip(i as int)[0] == models@[i as int]);
        if models[i].default {
            return Some(models[i].id.clone());
        }
        assert(models@.skip(i as int).drop_first() =~= models@.skip(i + 1));
        i = i + 1;
    }
    if models.len() > 0 {
        Some(models[0].id.clone())
    } else {
        None
    }
}

impl StudioView {
    /// What is known on being asked to start the engine. `installed` is
    /// whether the runtime is, and `missing` is what could not be found. A
    /// first run has no runtime, which is something to offer rather than a
    /// failure.
    pub open spec fn starting_engine(self, installed: bool, missing: Option<Seq<char>>) -> StudioView {
        match missing {
            Some(what) => if installed {
                StudioView { status: StatusView::Failed(what), ..self }
            } else {
                StudioView {
                    status: StatusView::Installing {
                        step: "The speech engine is not installed yet."@,
                        fraction: Single { bits: NOTHING },
                    },
                    ..self
                }
            },
            None => self,
        }
    }

    /// What is known once the engine is up, or is not. Nothing has to be
    /// recorded before the first clip: no voice is selected.
    pub open spec fn engine_up(
        self,
        started: Result<(Vec<ModelSpec>, Vec<Voice>), String>,
    ) -> StudioView {
        match started {
            Ok((models, voices)) => StudioView {
                selected_model: default_model(models@),
                models: models@,
                voices: voices@,
                engine: true,
                status: StatusView::Idle,
                ..self
            },
            Err(reason) => StudioView { status: StatusView::Failed(reason@), ..self },
        }
    }

    /// What is known once the installer has ended: a failure stays, and
    /// anything else is an install that is done.
    pub open spec fn installer_ended(self) -> StudioView {
        if self.status is Failed {
            self
        } else {
            StudioView { status: StatusView::Idle, runtime_done: true, ..self }
        }
    }

    /// What the installer's report makes of the status.
    pub open spec fn installing(self, progress: Progress) -> StatusView {
        match progress {
            Progress::Step(step) => StatusView::Installing {
                step: step@,
                fraction: if self.status is Installing {
                    self.status->fraction
                } else {
                    Single { bits: NOTHING }
                },
            },
            Progress::Fraction(fraction) => if self.status is Installing {
                StatusView::Installing { step: self.status->step, fraction }
            } else {
                self.status
            },
            Progress::Done => self.status,
            Progress::Failed(reason) => StatusView::Failed(reason@),
        }
    }
}

impl VoiceStudio {
    /// Whether the engine can be started. Where it cannot, the status says
    /// why.
    pub fn start_engine(&mut self, installed: bool, missing: Option<String>) -> (start: bool)
        ensures
            start == (missing is None),
            final(self)@ == old(self)@.starting_engine(installed, name_view(missing)),
    {
        match missing {
            Some(what) => {
                self.status = if installed {
                    Status::Failed(what)
                } else {
                    Status::Installing {
                        step: "The speech engine is not installed yet.".to_owned(),
                        fraction: Single { bits: NOTHING },
                    }
                };
                false
            },
            None => true,
        }
    }

    /// Take in the engine, or why it would not start. Whether there is one to
    /// ask for its clips and for the system it runs on.
    pub fn engine_started(&mut self, started: Result<(Vec<ModelSpec>, Vec<Voice>), String>) -> (up:
        bool)
        ensures
            up == (started is Ok),
            final(self)@ == old(self)@.engine_up(started),
    {
        match started {
            Ok((models, voices)) => {
                self.selected_model = find_default(&models);
                self.models = models;
                self.voices = voices;
                self.engine = true;
                self.status = Status::Idle;
                true
            },
            Err(reason) => {
                self.status = Status::Failed(reason);
                false
            },
        }
    }

    /// The runtime is about to be installed.
    pub fn install_runtime(&mut self)
        ensures
            final(self)@ == (StudioView {
                status: StatusView::Installing {
                    step: "Starting…"@,
                    fraction: Single { bits: NOTHING },
                },
                ..old(self)@
            }),
    {
        self.status = Status::Installing {
            step: "Starting…".to_owned(),
            fraction: Single { bits: NOTHING },
        };
    }

    /// Take in what the installer reports. Whether that was the last of it.
    pub fn runtime_progressed(&mut self, progress: Progress) -> (finished: bool)
        ensures
            finished == (progress is Done || progress is Failed),
            final(self)@ == (StudioView {
                status: old(self)@.installing(progress),
                ..old(self)@
            }),
    {
        match progress {
            Progress::Step(step) => {
                let fraction = match &self.status {
                    Status::Installing { fraction, .. } => *fraction,
                    _ => Single { bits: NOTHING },
                };
                self.status = Status::Installing { step, fraction };
                false
            },
            Progress::Fraction(fraction) => {
                let step = match &self.status {
                    Status::Installing { step, .. } => step.clone(),
                    _ => {
                        return false;
                    },
                };
                self.status = Status::Installing { step, fraction };
                false
            },
            Progress::Done => true,
            Progress::Failed(reason) => {
                self.status = Status::Failed(reason);
                true
            },
        }
    }

    /// The installer has ended. Whether it ended well, and the engine can be
    /// started: the step then says it is finished until it is dismissed.
    pub fn runtime_settled(&mut self) -> (start: bool)
        ensures
            start == !(old(self)@.status is Failed),
            final(self)@ == old(self)@.installer_ended(),
    {
        if matches!(self.status, Status::Failed(_)) {
            false
        } else {
            self.status = Status::Idle;
            self.runtime_done = true;
            true
        }
    }

    /// Move on from the finished step.
    pub fn continue_from_setup(&mut self)
        ensures
            final(self)@ == (StudioView { runtime_done: false, ..old(self)@ }),
    {
        self.runtime_done = false;
    }

    /// Something failed, and this is what it said.
    pub fn report_failure(&mut self, reason: String)
        ensures
            final(self)@ == (StudioView { status: StatusView::Failed(reason@), ..old(self)@ }),
    {
        self.status = Status::Failed(reason);
    }
}

/// The first screen: what is missing, what still works, and the ways forward.
#[derive(Clone, Debug)]
pub struct SetupScreen {
    /// Why this machine can never run it, said once and at the top.
    pub unsupported: Option<String>,
    /// What survived an interruption, because "did I lose the download" is the
    /// first question; `None` where nothing was interrupted.
    pub stopped: Option<Vec<Said>>,
    /// The step under way and how far it is; `None` before it has started.
    pub step: Option<(String, Single)>,
    /// The runtime is in place.
    pub ready: bool,
    /// The button that moves it forward: its glyph and its phrase.
    pub install: Option<(&'static str, &'static str)>,
    /// What can be done until then, and what cannot.
    pub capabilities: Vec<(bool, &'static str)>,
    /// Where the archive can be had by hand.
    pub link: Option<String>,
    /// The phrase at the bottom.
    pub footer: &'static str,
    /// The step ends when the person says so, not when the installer does.
    pub can_continue: bool,
}

impl StudioView {
    /// How far the install is.
    pub open spec fn install_fraction(self) -> Single {
        match self.status {
            StatusView::Installing { fraction, .. } => fraction,
            _ => Single { bits: NOTHING },
        }
    }

    /// What is said of an interruption: the phrase, and what went wrong where
    /// that is known.
    pub open spec fn stopped_line(self) -> Option<Seq<SaidView>> {
        match self.status {
            StatusView::Failed(reason) => Some(
                if reason.len() == 0 {
                    seq![SaidView::Phrase("setup.stopped_detail"@)]
                } else {
                    seq![SaidView::Phrase("setup.stopped_detail"@), SaidView::Words(reason)]
                },
            ),
            _ => None,
        }
    }

    /// The button that moves the install forward, on a machine that can run
    /// it, while it is neither running nor done.
    pub open spec fn install_button(self, supported: bool) -> Option<(Seq<char>, Seq<char>)> {
        if self.install_fraction().spec_is_positive() || self.runtime_done || !supported {
            None
        } else if self.status is Failed {
            Some((icon::REFRESH@, "setup.resume"@))
        } else {
            Some((icon::DOWNLOAD@, "setup.install"@))
        }
    }
}

impl SetupScreen {
    /// Whether this is the screen for what is known.
    pub open spec fn shows(
        self,
        studio: StudioView,
        unsupported: Option<Seq<char>>,
        link: Option<Seq<char>>,
    ) -> bool {
        &&& name_view(self.unsupported) == unsupported
        &&& name_view(self.link) == link
        &&& match self.stopped {
            Some(line) => studio.stopped_line() == Some(crate::phrase::line_view(line@)),
            None => studio.stopped_line() is None,
        }
        &&& match (self.step, studio.status) {
            (Some((step, fraction)), StatusView::Installing { step: under_way, fraction: far }) => {
                &&& step@ == under_way
                &&& fraction == far
                &&& far.spec_is_positive()
            },
            (Some(_), _) => false,
            (None, _) => !studio.install_fraction().spec_is_positive(),
        }
        &&& self.ready == studio.runtime_done
        &&& match (self.install, studio.install_button(unsupported is None)) {
            (Some(a), Some(b)) => a.0@ == b.0 && a.1@ == b.1,
            (None, None) => true,
            _ => false,
        }
        &&& self.capabilities.len() == 4
        &&& self.capabilities@[0].0 == false && self.capabilities@[0].1@ == "setup.cap_generate"@
        &&& self.capabilities@[1].0 == false && self.capabilities@[1].1@ == "setup.cap_models"@
        &&& self.capabilities@[2].0 == false && self.capabilities@[2].1@ == "setup.cap_record"@
        &&& self.capabilities@[3].0 == true && self.capabilities@[3].1@ == "setup.cap_play"@
        &&& self.footer@ == (if studio.runtime_done {
            "setup.next_is_a_model"@
        } else {
            "setup.can_close"@
        })
        &&& self.can_continue == studio.runtime_done
    }
}

impl VoiceStudio {
    fn stopped_line(&self) -> (line: Option<Vec<Said>>)
        ensures
            match line {
                Some(line) => self@.stopped_line() == Some(crate::phrase::line_view(line@)),
                None => self@.stopped_line() is None,
            },
    {
        match &self.status {
            Status::Failed(reason) => {
                let mut line: Vec<Said> = Vec::new();
                line.push(Said::Phrase("setup.stopped_detail"));
                if text::chars_of(reason.as_str()).len() > 0 {
                    line.push(Said::Words(reason.clone()));
                }
                assert(Some(crate::phrase::line_view(line@)) =~~= self@.stopped_line());
                Some(line)
            },
            _ => None,
        }
    }

    /// The screen the first run opens on. `unsupported` is why this machine
    /// cannot run it, and `link` is where the archive can be had by hand.
    pub fn setup_screen(&self, unsupported: Option<String>, link: Option<String>) -> (screen:
        SetupScreen)
        ensures
            screen.shows(self@, name_view(unsupported), name_view(link)),
    {
        let step = match &self.status {
            Status::Installing { step, fraction } => if fraction.is_positive() {
                Some((step.clone(), *fraction))
            } else {
                None
            },
            _ => None,
        };
        let interrupted = matches!(self.status, Status::Failed(_));
        let install = if step.is_some() || self.runtime_done || unsupported.is_some() {
            None
        } else if interrupted {
            Some((icon::REFRESH, "setup.resume"))
        } else {
            Some((icon::DOWNLOAD, "setup.install"))
        };
        let mut capabilities: Vec<(bool, &'static str)> = Vec::new();
        capabilities.push((false, "setup.cap_generate"));
        capabilities.push((false, "setup.cap_models"));
        // Recording is not on the other side: a take could not be saved
        // without the engine anyway.
        capabilities.push((false, "setup.cap_record"));
        capabilities.push((true, "setup.cap_play"));
        SetupScreen {
            unsupported,
            stopped: self.stopped_line(),
            step,
            ready: self.runtime_done,
            install,
            capabilities,
            link,
            footer: if self.runtime_done {
                "setup.next_is_a_model"
            } else {
                "setup.can_close"
            },
            can_continue: self.runtime_done,
        }
    }
}

/// How a line of state is coloured.
#[derive(Clone, Copy, Debug, PartialEq, Eq, Structural)]
pub enum Tone {
    Muted,
    Plain,
    Danger,
}

/// One line of state.
#[derive(Clone, Debug)]
pub enum StatusLine {
    Line(Said, Tone),
    /// The step under way, and how far it is.
    Installing(String, Single),
}

#[verifier::ext_equal]
pub enum StatusLineView {
    Line(SaidView, Tone),
    Installing(Seq<char>, Single),
}

impl View for StatusLine {
    type V = StatusLineView;

    open spec fn view(&self) -> StatusLineView {
        match self {
            StatusLine::Line(said, tone) => StatusLineView::Line(said@, *tone),
            StatusLine::Installing(step, fraction) => StatusLineView::Installing(step@, *fraction),
        }
    }
}

impl StudioView {
    /// What the line of state says.
    pub open spec fn status_said(self) -> StatusLineView {
        match self.status {
            StatusView::Idle => StatusLineView::Line(
                SaidView::Phrase(
                    if self.warming is Some {
                        "status.warming"@
                    } else if self.speaking() is None {
                        "status.built_in_ready"@
                    } else {
                        "status.ready"@
                    },
                ),
                Tone::Muted,
            ),
            StatusView::Preparing(what) => StatusLineView::Line(SaidView::Words(what), Tone::Plain),
            StatusView::Installing { step, fraction } => StatusLineView::Installing(step, fraction),
            StatusView::Generating => StatusLineView::Line(
                SaidView::Phrase("status.generating"@),
                Tone::Plain,
            ),
            StatusView::Done { output, audio_s, gen_s } => StatusLineView::Line(
                SaidView::With(
                    "status.saved"@,
                    seq![
                        ("path"@, output),
                        ("audio"@, audio_s.spec_tenths()),
                        ("gen"@, gen_s.spec_rounded()),
                    ],
                ),
                Tone::Plain,
            ),
            StatusView::Failed(reason) => StatusLineView::Line(
                SaidView::With("status.failed"@, seq![("reason"@, reason)]),
                Tone::Danger,
            ),
            StatusView::Refused(reason) => StatusLineView::Line(
                SaidView::Words(reason),
                Tone::Muted,
            ),
        }
    }
}

fn saved_line(output: &String, audio_s: Single, gen_s: Single) -> (said: Said)
    ensures
        said@ == SaidView::With(
            "status.saved"@,
            seq![
                ("path"@, output@),
                ("audio"@, audio_s.spec_tenths()),
                ("gen"@, gen_s.spec_rounded()),
            ],
        ),
{
    let mut places: Vec<(&'static str, String)> = Vec::new();
    places.push(("path", output.clone()));
    places.push(("audio", audio_s.tenths()));
    places.push(("gen", gen_s.rounded()));
    assert(crate::phrase::places_view(places@) =~= seq![
        ("path"@, output@),
        ("audio"@, audio_s.spec_tenths()),
        ("gen"@, gen_s.spec_rounded()),
    ]);
    Said::With("status.saved", places)
}

impl VoiceStudio {
    /// One line of state.
    pub fn status_line(&self) -> (line: StatusLine)
        ensures
            line@ == self@.status_said(),
    {
        match &self.status {
            Status::Idle => {
                let key = if self.warming.is_some() {
                    "status.warming"
                } else if self.speaking_voice().is_none() {
                    "status.built_in_ready"
                } else {
                    "status.ready"
                };
                StatusLine::Line(Said::Phrase(key), Tone::Muted)
            },
            Status::Preparing(what) => StatusLine::Line(Said::Words(what.clone()), Tone::Plain),
            Status::Installing { step, fraction } => StatusLine::Installing(step.clone(), *fraction),
            Status::Generating => StatusLine::Line(Said::Phrase("status.generating"), Tone::Plain),
            Status::Done { output, audio_s, gen_s } => StatusLine::Line(
                saved_line(output, *audio_s, *gen_s),
                Tone::Plain,
            ),
            Status::Failed(reason) => StatusLine::Line(
                crate::phrase::with("status.failed", "reason", reason.clone()),
                Tone::Danger,
            ),
            Status::Refused(reason) => StatusLine::Line(Said::Words(reason.clone()), Tone::Muted),
        }
    }
}

/// The engine comes up with nothing but its own voice chosen for it, and on a
/// model its catalogue has.
pub proof fn lemma_the_engine_comes_up_ready(
    studio: StudioView,
    models: Vec<ModelSpec>,
    voices: Vec<Voice>,
)
    ensures
        ({
            let up = studio.engine_up(Ok::<(Vec<ModelSpec>, Vec<Voice>), String>((models, voices)));
            &&& up.engine && !up.is_busy()
            &&& models@.len() > 0 ==> up.selected_model is Some
            &&& up.selected_model matches Some(id) ==> crate::engine::known(up.models, id)
        }),
{
    lemma_the_default_is_in_the_catalogue(models@);
}

proof fn lemma_the_default_is_in_the_catalogue(models: Seq<ModelSpec>)
    ensures
        first_default(models) matches Some(id) ==> crate::engine::known(models, id),
        default_model(models) matches Some(id) ==> crate::engine::known(models, id),
    decreases models.len(),
{
    if models.len() > 0 {
        let rest = models.drop_first();
        lemma_the_default_is_in_the_catalogue(rest);
        assert(crate::engine::ids(models)[0] == models[0].id@);
        if !models[0].default && first_default(rest) is Some {
            let id = first_default(rest)->0;
            let i = choose|i: int|
                0 <= i < crate::engine::ids(rest).len() && crate::engine::ids(rest)[i] == id;
            assert(crate::engine::ids(models)[i + 1] == id);
        }
    }
}

/// An install that was interrupted can be resumed, and one that is done asks
/// for nothing more: setup keeps the screen until it is left.
pub proof fn lemma_setup_has_a_way_forward(studio: StudioView, supported: bool)
    ensures
        studio.status is Failed && !studio.engine && !studio.runtime_done && supported ==> {
            &&& studio.showing() == crate::studio::Screen::Setup
            &&& studio.install_button(supported) is Some
        },
        studio.runtime_done ==> {
            &&& studio.showing() == crate::studio::Screen::Setup
            &&& studio.install_button(supported) is None
        },
{
}

/// The model to begin with is the first that the catalogue calls its default,
/// or the first there is where it calls none.
pub proof fn lemma_which_model_comes_first(models: Seq<ModelSpec>, at: int)
    ensures
        models.len() == 0 ==> default_model(models) is None,
        0 <= at < models.len() && models[at].default && (forall|j: int|
            0 <= j < at ==> !(#[trigger] models[j]).default) ==> default_model(models) == Some(
            models[at].id@,
        ),
        models.len() > 0 && (forall|j: int|
            0 <= j < models.len() ==> !(#[trigger] models[j]).default) ==> default_model(models)
            == Some(models[0].id@),
{
    lemma_which_default_comes_first(models, at);
}

proof fn lemma_which_default_comes_first(models: Seq<ModelSpec>, at: int)
    ensures
        0 <= at < models.len() && models[at].default && (forall|j: int|
            0 <= j < at ==> !(#[trigger] models[j]).default) ==> first_default(models) == Some(
            models[at].id@,
        ),
        (forall|j: int| 0 <= j < models.len() ==> !(#[trigger] models[j]).default)
            ==> first_default(models) is None,
    decreases models.len(),
{
    if models.len() > 0 && !models[0].default {
        let rest = models.drop_first();
        lemma_which_default_comes_first(rest, at - 1);
        assert(forall|j: int| 0 <= j < rest.len() ==> (#[trigger] rest[j]) == models[j + 1]);
    }
}

/// Starting the engine waits on what is missing: with nothing missing nothing
/// changes, a runtime that is not there is offered, and anything else is a
/// failure that says what it is.
pub proof fn lemma_what_is_missing_is_said(
    studio: StudioView,
    installed: bool,
    missing: Option<Seq<char>>,
)
    ensures
        ({
            let after = studio.starting_engine(installed, missing);
            &&& missing is None ==> after == studio
            &&& missing matches Some(what) ==> {
                &&& installed ==> after.status == StatusView::Failed(what)
                &&& !installed ==> after.status is Installing && !(
                after.status->fraction).spec_is_positive()
                &&& after == (StudioView { status: after.status, ..studio })
            }
        }),
{
}

/// The engine comes up with its own catalogue and voices and with nothing under
/// way, on the model to begin with; one that would not start says why and
/// changes nothing else. What is written and what is heard stay as they are.
pub proof fn lemma_what_comes_up_with_the_engine(
    studio: StudioView,
    models: Vec<ModelSpec>,
    voices: Vec<Voice>,
    reason: String,
)
    ensures
        ({
            let up = studio.engine_up(Ok::<(Vec<ModelSpec>, Vec<Voice>), String>((models, voices)));
            &&& up.engine
            &&& up.models == models@
            &&& up.voices == voices@
            &&& up.status is Idle
            &&& up.selected_model == default_model(models@)
            &&& up == (StudioView {
                engine: true,
                models: models@,
                voices: voices@,
                status: up.status,
                selected_model: up.selected_model,
                ..studio
            })
        }),
        studio.engine_up(Err::<(Vec<ModelSpec>, Vec<Voice>), String>(reason)) == (StudioView {
            status: StatusView::Failed(reason@),
            ..studio
        }),
{
}

/// What the installer reports is what setup shows: a step keeps how far it was,
/// how far it is keeps the step, the end changes nothing, and a failure says
/// why. How far it is means nothing once the install is not what is under way.
pub proof fn lemma_what_the_installer_reports_is_shown(
    studio: StudioView,
    step: String,
    fraction: Single,
)
    ensures
        studio.installing(Progress::Step(step)) matches StatusView::Installing {
            step: shown,
            fraction: far,
        } && shown == step@ && (studio.status is Installing ==> far == studio.status->fraction)
            && (!(studio.status is Installing) ==> far == (Single { bits: 0 })),
        studio.status is Installing ==> studio.installing(Progress::Fraction(fraction)) == (
        StatusView::Installing { step: studio.status->step, fraction }),
        !(studio.status is Installing) ==> studio.installing(Progress::Fraction(fraction))
            == studio.status,
        studio.installing(Progress::Done) == studio.status,
        studio.installing(Progress::Failed(step)) == StatusView::Failed(step@),
{
}

/// The way forward is offered on a machine that can run it, before the install
/// moves and after it stopped: to begin it, or to resume it where it failed.
pub proof fn lemma_when_the_install_is_offered(studio: StudioView, supported: bool)
    ensures
        ({
            let moving = studio.status is Installing && (studio.status->fraction).spec_is_positive();
            let button = studio.install_button(supported);
            &&& button is Some <==> supported && !studio.runtime_done && !moving
            &&& button matches Some((glyph, phrase)) ==> {
                &&& studio.status is Failed ==> glyph == icon::REFRESH@ && phrase
                    == "setup.resume"@
                &&& !(studio.status is Failed) ==> glyph == icon::DOWNLOAD@ && phrase
                    == "setup.install"@
            }
        }),
        studio.status is Installing ==> studio.install_fraction() == studio.status->fraction,
        !(studio.status is Installing) ==> !studio.install_fraction().spec_is_positive(),
{
}

/// An interruption is told exactly where the install failed, with what went
/// wrong after it where that is known.
pub proof fn lemma_what_is_told_of_an_interruption(studio: StudioView)
    ensures
        studio.stopped_line() is Some <==> studio.status is Failed,
        studio.stopped_line() matches Some(line) ==> {
            &&& line[0] == SaidView::Phrase("setup.stopped_detail"@)
            &&& studio.status->Failed_0.len() == 0 ==> line.len() == 1
            &&& studio.status->Failed_0.len() > 0 ==> line.len() == 2 && line[1] == SaidView::Words(
                studio.status->Failed_0,
            )
        },
{
}

/// The first screen follows from what is known: it is left by the person once
/// the runtime is in place and not before, shows a step only while one moves,
/// and promises what works until then.
pub proof fn lemma_what_the_first_screen_shows(
    studio: StudioView,
    screen: SetupScreen,
    unsupported: Option<Seq<char>>,
    link: Option<Seq<char>>,
)
    requires
        screen.shows(studio, unsupported, link),
    ensures
        name_view(screen.unsupported) == unsupported,
        name_view(screen.link) == link,
        screen.ready == studio.runtime_done,
        screen.can_continue == studio.runtime_done,
        studio.runtime_done ==> screen.footer@ == "setup.next_is_a_model"@ && screen.install is None,
        !studio.runtime_done ==> screen.footer@ == "setup.can_close"@,
        unsupported is Some ==> screen.install is None,
        screen.stopped is Some <==> studio.status is Failed,
        screen.step is Some <==> studio.status is Installing && (
        studio.status->fraction).spec_is_positive(),
        screen.step matches Some((step, far)) ==> step@ == studio.status->step && far
            == studio.status->fraction,
        forall|i: int| 0 <= i < screen.capabilities.len() ==> (#[trigger] screen.capabilities@[i]).0
            == (i == 3),
{
}

/// The line of state says what is being waited on in its own words, that it is
/// ready where nothing is, where the last clip went, and why not; only a
/// failure is alarming, and a refusal is not one.
pub proof fn lemma_what_the_line_of_state_says(studio: StudioView)
    ensures
        match studio.status {
            StatusView::Idle => studio.status_said() matches StatusLineView::Line(
                SaidView::Phrase(key),
                tone,
            ) && tone == Tone::Muted && (studio.warming is Some ==> key == "status.warming"@) && (
            studio.warming is None && studio.speaking() is Some ==> key == "status.ready"@) && (
            studio.warming is None && studio.speaking() is None ==> key == "status.built_in_ready"@),
            StatusView::Preparing(what) => studio.status_said() == StatusLineView::Line(
                SaidView::Words(what),
                Tone::Plain,
            ),
            StatusView::Installing { step, fraction } => studio.status_said()
                == StatusLineView::Installing(step, fraction),
            StatusView::Generating => studio.status_said() == StatusLineView::Line(
                SaidView::Phrase("status.generating"@),
                Tone::Plain,
            ),
            StatusView::Done { output, audio_s, gen_s } => studio.status_said()
                matches StatusLineView::Line(SaidView::With(key, places), tone) && key
                == "status.saved"@ && tone == Tone::Plain && places.len() == 3 && places[0] == (
                "path"@,
                output,
            ) && places[1] == ("audio"@, audio_s.spec_tenths()) && places[2] == (
                "gen"@,
                gen_s.spec_rounded(),
            ),
            StatusView::Failed(reason) => studio.status_said() matches StatusLineView::Line(
                SaidView::With(key, places),
                tone,
            ) && key == "status.failed"@ && tone == Tone::Danger && places == seq![
                ("reason"@, reason),
            ],
            StatusView::Refused(reason) => studio.status_said() == StatusLineView::Line(
                SaidView::Words(reason),
                Tone::Muted,
            ),
        },
{
}

/// An install that ended without a failure is done, and setup says so until it
/// is left; one that failed is not, and goes on saying why.
pub proof fn lemma_an_install_is_done_unless_it_failed(studio: StudioView)
    ensures
        studio.status is Failed ==> studio.installer_ended() == studio,
        !(studio.status is Failed) ==> {
            let after = studio.installer_ended();
            &&& after.runtime_done
            &&& after.status is Idle
            &&& after.showing() == crate::studio::Screen::Setup
            &&& after == (StudioView { runtime_done: true, status: after.status, ..studio })
        },
{
}

} // verus!
