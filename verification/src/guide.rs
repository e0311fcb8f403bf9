//! The acting guide: what the NPC's personality, emotions and
//! relationship mean for how it should be played.
//!
//! Scores, moods, intensities and thresholds are 32-bit floats held as
//! their bit patterns and compared as IEEE 754 floats (see `float_bits`).
//! The thresholds are the tuning profile's, passed in.

pub mod enums;
pub mod snapshot;
pub mod directive;

use vstd::prelude::*;
use crate::emotion::EmotionState;
use crate::personality::Npc;
use crate::present::somes;
use crate::relationship::Relationship;
use crate::guide::directive::{directive_for, signals_of, ActingDirective, EmotionSignals};
use crate::guide::snapshot::{
    relationship_snapshot_of, snapshot_of, style_poles, trait_poles, EmotionSnapshot, LevelThresholds,
    PersonalitySnapshot, RelationshipSnapshot,
};

verus! {

/// The six HEXACO dimension averages, as float bit patterns.
#[derive(Debug, Clone, Copy, PartialEq, Eq, Structural)]
pub struct DimensionAverages {
    pub h: u32,
    pub e: u32,
    pub x: u32,
    pub a: u32,
    pub c: u32,
    pub o: u32,
}

/// The thresholds the guide decides by, as float bit patterns.
#[derive(Debug, Clone, Copy, PartialEq, Eq, Structural)]
pub struct GuideThresholds {
    /// A dimension average beyond this (either way) marks a trait.
    pub trait_threshold: u32,
    /// An emotion at least this intense counts as present; a mood beyond
    /// it sets the tone.
    pub emotion_threshold: u32,
    /// A mood beyond this sets the attitude.
    pub mood_threshold: u32,
    /// An honesty average above this forbids lying.
    pub honesty_restriction_threshold: u32,
}

/// What an actor needs to play the NPC now: who it is, its personality,
/// what it feels, how to play it, the situation and the relationship to
/// the partner.
#[derive(Debug, Clone)]
pub struct ActingGuide {
    pub npc_name: String,
    pub npc_description: String,
    pub personality: PersonalitySnapshot,
    pub emotion: EmotionSnapshot,
    pub directive: ActingDirective,
    pub situation_description: Option<String>,
    pub relationship: Option<RelationshipSnapshot>,
}

impl ActingGuide {
    /// The guide for `npc`, whose personality has the dimension averages
    /// `avg`, in emotional state `state` of overall valence `mood` (float
    /// bits), with, when given, its relationship to the partner named
    /// `partner_name` (the relationship's target id when empty).
    pub fn build(
        npc: &Npc,
        avg: &DimensionAverages,
        state: &EmotionState,
        mood: u32,
        situation_desc: Option<String>,
        relationship: Option<&Relationship>,
        partner_name: &str,
        th: &GuideThresholds,
        levels: &LevelThresholds,
    ) -> (r: ActingGuide)
        ensures
            r.npc_name@ == npc@.name,
            r.npc_description@ == npc@.description,
            r.personality.traits@ == somes(trait_poles(*avg, th.trait_threshold)),
            r.personality.speech_styles@ == somes(style_poles(*avg, th.trait_threshold)),
            snapshot_of(r.emotion, state@, th.emotion_threshold, mood),
            directive_for(r.directive, signals_of(state@, mood), *avg, *th),
            r.situation_description == situation_desc,
            r.relationship is None <==> relationship is None,
            relationship matches Some(rel) ==> (r.relationship matches Some(rs) && relationship_snapshot_of(
                rs,
                rel@,
                partner_name@,
                *levels,
            )),
    {
        let signals = EmotionSignals::from_state(state, mood);
        let rel = match relationship {
            Some(rel) => Some(RelationshipSnapshot::from_relationship(rel, partner_name, levels)),
            None => None,
        };
        ActingGuide {
            npc_name: npc.name().to_owned(),
            npc_description: npc.description().to_owned(),
            personality: PersonalitySnapshot::from_profile(avg, th.trait_threshold),
            emotion: EmotionSnapshot::from_state(state, th.emotion_threshold, mood),
            directive: ActingDirective::from_emotion_and_personality(&signals, avg, th),
            situation_description: situation_desc,
            relationship: rel,
        }
    }
}

} // verus!
