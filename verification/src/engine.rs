//! What the speech engine tells the application, and what it is asked for.

use vstd::prelude::*;

use crate::single::Single;
use crate::text::same;

verus! {

/// Something that is told apart from its like by an id.
pub trait Keyed: Sized {
    spec fn key(&self) -> Seq<char>;

    fn id(&self) -> (id: &str)
        ensures
            id@ == self.key(),
    ;
}

/// The ids of a list, in its order.
pub open spec fn ids<T: Keyed>(items: Seq<T>) -> Seq<Seq<char>> {
    Seq::new(items.len(), |i: int| items[i].key())
}

/// The first of a list with the given id.
pub open spec fn found<T: Keyed>(items: Seq<T>, id: Seq<char>) -> Option<T> {
    match ids(items).index_of_first(id) {
        Some(at) => Some(items[at]),
        None => None,
    }
}

/// Whether anything in a list has the given id.
pub open spec fn known<T: Keyed>(items: Seq<T>, id: Seq<char>) -> bool {
    ids(items).contains(id)
}

/// Something is found under an id exactly when something has it, and what is
/// found has it.
pub proof fn lemma_found_is_known<T: Keyed>(items: Seq<T>, id: Seq<char>)
    ensures
        found(items, id) is Some <==> known(items, id),
        found(items, id) matches Some(item) ==> item.key() == id && items.contains(item),
{
    ids(items).index_of_first_ensures(id);
}

/// Where in the list the first with this id stands.
pub fn place<T: Keyed>(items: &Vec<T>, id: &str) -> (at: Option<usize>)
    ensures
        match at {
            Some(at) => at < items.len() && ids(items@).index_of_first(id@) == Some(at as int)
                && items@[at as int].key() == id@,
            None => ids(items@).index_of_first(id@) is None,
        },
{
    let mut at: usize = 0;
    while at < items.len()
        invariant
            at <= items.len(),
            forall|i: int| 0 <= i < at ==> ids(items@)[i] != id@,
        decreases items.len() - at,
    {
        if same(items[at].id(), id) {
            proof {
                ids(items@).index_of_first_ensures(id@);
                assert(ids(items@)[at as int] == id@);
            }
            return Some(at);
        }
        at = at + 1;
    }
    proof {
        ids(items@).index_of_first_ensures(id@);
    }
    None
}

/// The first of the list with this id.
pub fn find<'a, T: Keyed>(items: &'a Vec<T>, id: &str) -> (item: Option<&'a T>)
    ensures
        match item {
            Some(item) => found(items@, id@) == Some(*item),
            None => found(items@, id@) is None,
        },
{
    match place(items, id) {
        Some(at) => Some(&items[at]),
        None => None,
    }
}

/// Whether anything in the list has this id.
pub fn knows<T: Keyed>(items: &Vec<T>, id: &str) -> (is_known: bool)
    ensures
        is_known == known(items@, id@),
{
    proof {
        ids(items@).index_of_first_ensures(id@);
    }
    place(items, id).is_some()
}

/// A model in the catalogue, with what was measured of it on this machine.
#[derive(Clone, Debug)]
pub struct ModelSpec {
    pub id: String,
    /// What the application recommends it for.
    pub label: String,
    /// What it is called; empty where the catalogue does not say.
    pub name: String,
    pub licence: String,
    pub precision: String,
    pub notes: String,
    pub default: bool,
    pub installed: bool,
    /// Held in memory right now.
    pub resident: bool,
    /// Whether it can speak in a supplied voice.
    pub supports_cloning: bool,
    /// What it occupies once installed.
    pub size_bytes: u64,
    /// What it costs to download; zero until that has been looked up.
    pub download_bytes: u64,
    /// Seconds of work per second of speech, from this machine's own clips.
    pub measured_rtf: Option<Single>,
    /// How long it took to load here last time.
    pub load_s: Option<Single>,
}

impl Keyed for ModelSpec {
    open spec fn key(&self) -> Seq<char> {
        self.id@
    }

    fn id(&self) -> &str {
        self.id.as_str()
    }
}

/// What was agreed to when a voice was made.
#[derive(Clone, Debug)]
pub struct Consent {
    pub statement: String,
    pub app_version: String,
    pub source: String,
}

/// A reference voice: a recording and the words it reads.
#[derive(Clone, Debug)]
pub struct Voice {
    pub voice_id: String,
    pub label: String,
    pub reference_audio: String,
    pub reference_text: String,
    pub seconds: Single,
    pub consent: Consent,
}

impl Keyed for Voice {
    open spec fn key(&self) -> Seq<char> {
        self.voice_id@
    }

    fn id(&self) -> &str {
        self.voice_id.as_str()
    }
}

/// One reading of a clip's words.
#[derive(Clone, Debug)]
pub struct Take {
    pub id: String,
    pub path: String,
    pub audio_s: Single,
    pub gen_s: Single,
    pub seed: Option<u32>,
    pub created: String,
}

impl Keyed for Take {
    open spec fn key(&self) -> Seq<char> {
        self.id@
    }

    fn id(&self) -> &str {
        self.id.as_str()
    }
}

/// A finished clip, and its takes in the order they were made.
#[derive(Clone, Debug)]
pub struct Clip {
    pub id: String,
    pub name: String,
    pub text: String,
    pub voice_id: Option<String>,
    pub model: String,
    pub takes: Vec<Take>,
}

impl Keyed for Clip {
    open spec fn key(&self) -> Seq<char> {
        self.id@
    }

    fn id(&self) -> &str {
        self.id.as_str()
    }
}

impl Clip {
    /// The newest take.
    pub open spec fn spec_latest(self) -> Option<Take> {
        if self.takes@.len() == 0 {
            None
        } else {
            Some(self.takes@.last())
        }
    }

    /// The take with this id, or the newest if that one has gone.
    pub open spec fn spec_heard(self, id: Seq<char>) -> Option<Take> {
        match found(self.takes@, id) {
            Some(take) => Some(take),
            None => self.spec_latest(),
        }
    }

    pub fn take(&self, id: &str) -> (take: Option<&Take>)
        ensures
            match take {
                Some(take) => found(self.takes@, id@) == Some(*take),
                None => found(self.takes@, id@) is None,
            },
    {
        find(&self.takes, id)
    }

    pub fn latest(&self) -> (take: Option<&Take>)
        ensures
            match take {
                Some(take) => self.spec_latest() == Some(*take),
                None => self.spec_latest() is None,
            },
    {
        let n = self.takes.len();
        if n == 0 {
            None
        } else {
            Some(&self.takes[n - 1])
        }
    }

    /// The take to listen to when `id` was the one picked.
    pub fn heard(&self, id: &str) -> (take: Option<&Take>)
        ensures
            match take {
                Some(take) => self.spec_heard(id@) == Some(*take),
                None => self.spec_heard(id@) is None,
            },
    {
        match self.take(id) {
            Some(take) => Some(take),
            None => self.latest(),
        }
    }
}

/// How a model's download stands.
#[derive(Clone, Debug)]
pub struct InstallStatus {
    pub downloading: bool,
    pub downloaded_bytes: u64,
    pub total_bytes: u64,
    pub error: Option<String>,
}

/// How far a running generation has got.
#[derive(Clone, Copy, Debug)]
pub struct Generating {
    pub chunks_done: u32,
    pub chunks: u32,
    /// Seconds of speech written.
    pub written_s: Single,
    /// Seconds it has been running.
    pub elapsed_s: Single,
}

#[derive(Clone, Copy, Debug)]
pub struct SystemInfo {
    pub free_bytes: u64,
}

/// What a generation produced.
#[derive(Clone, Debug)]
pub struct Synthesis {
    pub output: String,
    pub audio_s: Single,
    pub gen_s: Single,
    pub clip: Option<Clip>,
}

/// What the engine is asked to speak.
#[derive(Clone, Debug)]
pub struct SynthesisRequest {
    pub text: String,
    pub model: Option<String>,
    /// `None` asks the model to speak in its own voice.
    pub voice_id: Option<String>,
    pub seed: Option<u32>,
    pub name: Option<String>,
    /// The clip this adds a take to; `None` makes a new one.
    pub clip_id: Option<String>,
}

/// Why the engine did not do what it was asked.
#[derive(Clone, Debug)]
pub enum EngineError {
    /// The process is gone.
    NotRunning,
    /// Nothing went wrong: the request was turned down, and why.
    Refused(String),
    /// Anything else, in its own words.
    Other(String),
}

/// What the installer reports while it puts the runtime in place.
#[derive(Clone, Debug)]
pub enum Progress {
    Step(String),
    Fraction(Single),
    Done,
    Failed(String),
}

/// What is found under an id is the first that has it, and nothing is found
/// where nothing has it.
pub proof fn lemma_the_first_is_found<T: Keyed>(items: Seq<T>, id: Seq<char>, at: int)
    ensures
        0 <= at < items.len() && items[at].key() == id && (forall|j: int|
            0 <= j < at ==> (#[trigger] items[j]).key() != id) ==> {
            &&& found(items, id) == Some(items[at])
            &&& known(items, id)
        },
        (forall|j: int| 0 <= j < items.len() ==> (#[trigger] items[j]).key() != id) ==> {
            &&& found(items, id) is None
            &&& !known(items, id)
        },
{
    ids(items).index_of_first_ensures(id);
    if 0 <= at < items.len() && items[at].key() == id && (forall|j: int|
        0 <= j < at ==> (#[trigger] items[j]).key() != id) {
        assert(ids(items)[at] == id);
        let first = ids(items).index_of_first(id)->0;
        assert(items[first].key() == id);
    }
}

/// What things are told apart by: models, takes and clips by their ids, and
/// voices by theirs.
pub proof fn lemma_what_things_are_told_apart_by(
    model: ModelSpec,
    voice: Voice,
    take: Take,
    clip: Clip,
)
    ensures
        model.key() == model.id@,
        voice.key() == voice.voice_id@,
        take.key() == take.id@,
        clip.key() == clip.id@,
{
}

/// A take that is added is the newest from then on, and is what is heard where
/// the one that was picked has gone. A take that is there is heard itself.
pub proof fn lemma_an_added_take_is_the_newest(before: Clip, after: Clip, take: Take, at: int)
    requires
        after.takes@ == before.takes@.push(take),
    ensures
        after.spec_latest() == Some(take),
        after.takes@.len() == 1 ==> before.spec_latest() is None,
        forall|gone: Seq<char>|
            (forall|j: int| 0 <= j < after.takes@.len() ==> (#[trigger] after.takes@[j]).id@ != gone)
                ==> #[trigger] after.spec_heard(gone) == Some(take),
        0 <= at < after.takes@.len() && (forall|j: int|
            0 <= j < at ==> (#[trigger] after.takes@[j]).id@ != after.takes@[at].id@)
            ==> after.spec_heard(after.takes@[at].id@) == Some(after.takes@[at]),
{
    assert forall|gone: Seq<char>|
        (forall|j: int| 0 <= j < after.takes@.len() ==> (#[trigger] after.takes@[j]).id@ != gone)
            implies #[trigger] after.spec_heard(gone) == Some(take) by {
        lemma_the_first_is_found(after.takes@, gone, 0);
    }
    if 0 <= at < after.takes@.len() {
        lemma_the_first_is_found(after.takes@, after.takes@[at].id@, at);
    }
}

} // verus!
