//! The vocabulary of the acting guide.

use vstd::prelude::*;
use crate::float_bits::{greater_than, less_than, negate, f32_lt, f32_neg};

verus! {

/// Tone of voice.
#[derive(Debug, Clone, Copy, PartialEq, Eq, Hash, Structural)]
pub enum Tone {
    SuppressedCold,
    RoughAggressive,
    AnxiousTrembling,
    SomberRestrained,
    BrightLively,
    VigilantCalm,
    TenseAnxious,
    ShrinkingSmall,
    QuietConfidence,
    ProudArrogant,
    CynicalCritical,
    DeepSighing,
    SincerelyWarm,
    JealousBitter,
    CompassionateSoft,
    RelaxedGentle,
    Heavy,
    Calm,
}

/// Attitude toward the partner.
#[derive(Debug, Clone, Copy, PartialEq, Eq, Hash, Structural)]
pub enum Attitude {
    HostileAggressive,
    SuppressedDiscomfort,
    Judgmental,
    GuardedDefensive,
    FriendlyOpen,
    DefensiveClosed,
    NeutralObservant,
}

/// What the NPC tends to do.
#[derive(Debug, Clone, Copy, PartialEq, Eq, Hash, Structural)]
pub enum BehavioralTendency {
    ImmediateConfrontation,
    StrategicResponse,
    ExpressAndObserve,
    BraveConfrontation,
    SeekSafety,
    AvoidOrDeflect,
    ActiveCooperation,
    ObserveAndRespond,
}

/// What the NPC must not do.
#[derive(Debug, Clone, Copy, PartialEq, Eq, Hash, Structural)]
pub enum Restriction {
    NoHumorOrLightTone,
    NoFriendliness,
    NoSelfJustification,
    NoBravado,
    NoLyingOrExaggeration,
}

/// A personality trait, one pole of a HEXACO dimension.
#[derive(Debug, Clone, Copy, PartialEq, Eq, Hash, Structural)]
pub enum PersonalityTrait {
    HonestAndModest,
    CunningAndAmbitious,
    EmotionalAndAnxious,
    BoldAndIndependent,
    ConfidentAndSociable,
    IntrovertedAndQuiet,
    TolerantAndGentle,
    GrudgingAndCritical,
    SystematicAndDiligent,
    FreeAndImpulsive,
    CuriousAndCreative,
    TraditionalAndConservative,
}

/// A speech style, one pole of a HEXACO dimension.
#[derive(Debug, Clone, Copy, PartialEq, Eq, Hash, Structural)]
pub enum SpeechStyle {
    FrankAndUnadorned,
    HidesInnerThoughts,
    ExpressiveAndWorried,
    CalmAndComposed,
    ActiveAndForceful,
    BriefAndConcise,
    SoftAndConsiderate,
    SharpAndDirect,
    LogicalAndRational,
    UnfilteredAndSpontaneous,
    MetaphoricalAndUnique,
    FormalAndTraditional,
}

/// The pole a score lands on: `high` above the threshold, `low` below its
/// negation, neither in between (or for a NaN).
pub open spec fn pole<T>(score: u32, threshold: u32, high: T, low: T) -> Option<T> {
    if f32_lt(threshold, score) {
        Some(high)
    } else if f32_lt(score, f32_neg(threshold)) {
        Some(low)
    } else {
        None
    }
}

impl PersonalityTrait {
    /// `high_variant` when `score` is above `threshold`, `low_variant`
    /// when it is below `-threshold`, none otherwise.
    pub fn evaluate(score: u32, threshold: u32, high_variant: PersonalityTrait, low_variant: PersonalityTrait) -> (r:
        Option<PersonalityTrait>)
        ensures
            r == pole(score, threshold, high_variant, low_variant),
    {
        if greater_than(score, threshold) {
            Some(high_variant)
        } else if less_than(score, negate(threshold)) {
            Some(low_variant)
        } else {
            None
        }
    }
}

impl SpeechStyle {
    /// `high_variant` when `score` is above `threshold`, `low_variant`
    /// when it is below `-threshold`, none otherwise.
    pub fn evaluate(score: u32, threshold: u32, high_variant: SpeechStyle, low_variant: SpeechStyle) -> (r: Option<
        SpeechStyle,
    >)
        ensures
            r == pole(score, threshold, high_variant, low_variant),
    {
        if greater_than(score, threshold) {
            Some(high_variant)
        } else if less_than(score, negate(threshold)) {
            Some(low_variant)
        } else {
            None
        }
    }
}

} // verus!
