//! What this is and what it is made of.
//!
//! Models are not among the credits. No weights are shipped: each model is
//! downloaded by the person using it, under terms stated where they choose it.

use vstd::prelude::*;
use vstd::string::*;

verus! {

/// One credited component: what it is, and the terms it comes under.
#[derive(Clone, Debug)]
pub struct Credit {
    pub what: String,
    pub terms: Terms,
}

/// The terms a component comes under.
#[derive(Clone, Copy, Debug)]
pub enum Terms {
    /// A licence, by name.
    Licence(&'static str),
    /// A phrase.
    Phrase(&'static str),
}

impl Credit {
    pub open spec fn is_licensed(self, what: Seq<char>, licence: Seq<char>) -> bool {
        self.what@ == what && (self.terms matches Terms::Licence(name) && name@ == licence)
    }
}

/// What the about pane says, in its order.
#[derive(Clone, Debug)]
pub struct AboutPane {
    /// The promise, stated rather than linked to.
    pub privacy: [&'static str; 2],
    /// What was agreed to when a voice was made.
    pub consent: &'static str,
    /// The things the application is built out of that are not its own,
    /// bundled or installed by it.
    pub credits: Vec<Credit>,
    pub models: &'static str,
}

fn licensed(what: &str, licence: &'static str) -> (credit: Credit)
    ensures
        credit.is_licensed(what@, licence@),
{
    Credit { what: what.to_owned(), terms: Terms::Licence(licence) }
}

/// The about pane, for the runtime of this name and version.
pub fn about_pane(runtime: &str, version: &str) -> (pane: AboutPane)
    ensures
        pane.privacy@[0]@ == "about.privacy_body"@,
        pane.privacy@[1]@ == "about.privacy_network"@,
        pane.consent@ == "about.consent_body"@,
        pane.models@ == "about.models_elsewhere"@,
        pane.credits.len() == 6,
        pane.credits@[0].is_licensed("Sora"@, "SIL Open Font Licence 1.1"@),
        pane.credits@[1].is_licensed("Noto Sans, Noto Sans Mono"@, "SIL Open Font Licence 1.1"@),
        pane.credits@[2].is_licensed("Material Symbols Rounded"@, "Apache-2.0"@),
        pane.credits@[3].is_licensed("CPython, via python-build-standalone"@, "PSF Licence"@),
        pane.credits@[4].is_licensed("MLX"@, "MIT"@),
        pane.credits@[5].what@ == runtime@ + " "@ + version@,
        pane.credits@[5].terms matches Terms::Phrase(key) && key@ == "about.on_this_machine"@,
{
    let mut credits: Vec<Credit> = Vec::new();
    credits.push(licensed("Sora", "SIL Open Font Licence 1.1"));
    credits.push(licensed("Noto Sans, Noto Sans Mono", "SIL Open Font Licence 1.1"));
    credits.push(licensed("Material Symbols Rounded", "Apache-2.0"));
    credits.push(licensed("CPython, via python-build-standalone", "PSF Licence"));
    credits.push(licensed("MLX", "MIT"));
    let mut what = runtime.to_owned();
    what.append(" ");
    what.append(version);
    credits.push(Credit { what, terms: Terms::Phrase("about.on_this_machine") });
    AboutPane {
        privacy: ["about.privacy_body", "about.privacy_network"],
        consent: "about.consent_body",
        credits,
        models: "about.models_elsewhere",
    }
}

} // verus!
