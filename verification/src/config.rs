//! What the turn pipeline reads of the session's configuration.

use vstd::prelude::*;

verus! {

/// How much the model is asked to reason.
#[derive(Debug, Clone, Copy, PartialEq, Eq, Structural)]
pub enum ReasoningEffort {
    Low,
    Medium,
    High,
    /// No reasoning is asked for.
    Off,
}

/// How the model is asked to sum up its reasoning.
#[derive(Debug, Clone, Copy, PartialEq, Eq, Structural)]
pub enum ReasoningSummary {
    Auto,
    Concise,
    Detailed,
    /// No summary is asked for.
    Off,
}

/// The configuration of a session, as far as a turn reads it.
#[derive(Debug, Clone, PartialEq, Eq)]
pub struct Config {
    /// The identifier of the model that turns are sent to.
    pub model: String,
    /// Set for a model that supports reasoning summaries whatever its name.
    pub model_supports_reasoning_summaries: bool,
    /// The directory in which the session works.
    pub cwd: String,
    /// The directory below which the installation keeps its files.
    pub codex_home: String,
}

} // verus!
