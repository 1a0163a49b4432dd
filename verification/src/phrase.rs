//! What the interface says, before it is put into a language.

use vstd::prelude::*;

verus! {

/// One thing the interface says.
#[derive(Clone, Debug)]
pub enum Said {
    /// A phrase, by its key.
    Phrase(&'static str),
    /// A phrase with places to fill, by their names.
    With(&'static str, Vec<(&'static str, String)>),
    /// Words that are not the application's own.
    Words(String),
}

#[verifier::ext_equal]
pub enum SaidView {
    Phrase(Seq<char>),
    With(Seq<char>, Seq<(Seq<char>, Seq<char>)>),
    Words(Seq<char>),
}

impl View for Said {
    type V = SaidView;

    open spec fn view(&self) -> SaidView {
        match self {
            Said::Phrase(key) => SaidView::Phrase(key@),
            Said::With(key, places) => SaidView::With(key@, places_view(places@)),
            Said::Words(words) => SaidView::Words(words@),
        }
    }
}

pub open spec fn places_view(places: Seq<(&'static str, String)>) -> Seq<(Seq<char>, Seq<char>)> {
    Seq::new(places.len(), |i: int| (places[i].0@, places[i].1@))
}

/// A phrase with one place.
pub fn with(key: &'static str, name: &'static str, value: String) -> (said: Said)
    ensures
        said@ == SaidView::With(key@, seq![(name@, value@)]),
{
    let mut places: Vec<(&'static str, String)> = Vec::new();
    places.push((name, value));
    assert(places_view(places@) =~= seq![(name@, value@)]);
    Said::With(key, places)
}

/// Several things said in a row.
pub open spec fn line_view(line: Seq<Said>) -> Seq<SaidView> {
    Seq::new(line.len(), |i: int| line[i]@)
}

/// What is said keeps its key, the names of its places in their order, and what
/// fills them.
pub proof fn lemma_what_is_said_keeps_its_places(
    key: &'static str,
    places: Vec<(&'static str, String)>,
    at: int,
)
    requires
        0 <= at < places@.len(),
    ensures
        Said::With(key, places)@ matches SaidView::With(said, filled) && said == key@ && filled.len()
            == places@.len() && filled[at] == (places@[at].0@, places@[at].1@),
{
}

} // verus!
