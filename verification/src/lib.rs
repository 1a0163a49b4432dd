//! A speech studio: type text, choose a voice, hear it in that voice.
//!
//! This is what the application knows and decides, independent of how it is
//! drawn or stored. Two halves share it.
//!
//! The lifecycles are the ones that have to be reasoned about after an
//! interruption: which jobs were in flight, which voices were half deleted,
//! what a late message from the engine is allowed to change. They are written
//! as types with an exhaustive transition table rather than as prose, because
//! prose does not fail a build when a state is added and a case is forgotten.
//!
//! The studio is the running application: the clips being written, the models
//! and voices there are, what is being generated, recorded and played, and
//! what each part of the window says of it.
//!
//! Two kinds of work are deliberately not modelled as durable. Loading a model
//! and conditioning a voice are [`EngineOperation`]s: they run in the engine,
//! and their results die with it, so recording them as durable state would be
//! recording something that stops being true without anyone noticing.

pub mod about;
pub mod clips;
pub mod composer;
pub mod engine;
pub mod enrolment;
pub mod execution;
pub mod generation;
pub mod icon;
pub mod inspector;
pub mod job;
pub mod lifecycle;
pub mod listening;
pub mod microphone;
pub mod models;
pub mod path;
pub mod phrase;
pub mod player;
pub mod queue;
pub mod recorder;
pub mod settings;
pub mod setup;
pub mod single;
pub mod storage;
pub mod studio;
pub mod switcher;
pub mod text;
pub mod voice;
pub mod voices;
pub mod workspace;

use vstd::prelude::*;

pub use execution::{Applied, Execution, Job, Observation};
pub use job::{DurableJobKind, ExecutionStatus, JobStatus};
pub use studio::VoiceStudio;
pub use voice::VoiceStatus;

verus! {

/// Work the engine performs whose result cannot outlive the engine.
///
/// No durable row: a restarted engine has loaded nothing and conditioned
/// nothing, so the truthful record after a restart is an absence, which is
/// what no row already means.
#[derive(Clone, Copy, Debug, PartialEq, Eq, Structural)]
pub enum EngineOperation {
    LoadModel,
    ConditionVoice,
}

} // verus!
