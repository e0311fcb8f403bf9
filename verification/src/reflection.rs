//! The reflection over a finished dialogue: the narrative judgement and
//! summary, the engine's significance score, and the events it may report.

use vstd::prelude::*;

verus! {

/// A declared or ritual event (an oath, an execution, ...).
#[derive(Debug, Clone, PartialEq)]
pub struct DeclarativeEventPlaceholder {
    pub kind: String,
    pub target: Option<String>,
    pub text: String,
}

/// A change of partnership (a betrothal, a separation, ...).
#[derive(Debug, Clone, PartialEq)]
pub struct PartnershipEventPlaceholder {
    pub kind: String,
    pub reason: String,
}

/// What the reflection over a dialogue found.
#[derive(Debug, Clone, PartialEq)]
pub struct ReflectionResult {
    /// Whether the dialogue was idle talk, of no consequence to the story.
    pub is_chitchat: bool,
    /// A summary in a sentence or two.
    pub summary: String,
    /// How much the dialogue stirred the NPC, in [0, 1] (float bits).
    pub significance_score: u32,
    pub declarative_events: Vec<DeclarativeEventPlaceholder>,
    pub partnership_event: Option<PartnershipEventPlaceholder>,
    /// How many turns the dialogue had.
    pub turn_count: usize,
    /// The reasoning behind the judgement, when it was given.
    pub llm_reasoning: Option<String>,
}

} // verus!
