//! The acting directive: tone, attitude, behavioural tendency and
//! restrictions, decided from the emotional state and the personality.

use vstd::prelude::*;
use crate::emotion::{dominant_type, intensity_in, Emotion, EmotionState, EmotionType};
use crate::float_bits::{at_least, greater_than, less_than, negate, f32_ge, f32_lt, f32_neg};
use crate::guide::{DimensionAverages, GuideThresholds};
use crate::guide::enums::{Attitude, BehavioralTendency, Restriction, Tone};

verus! {

/// What the directive reads of an emotional state.
#[derive(Debug, Clone, Copy, PartialEq, Eq, Structural)]
pub struct EmotionSignals {
    /// The strongest emotion, if any.
    pub dominant: Option<EmotionType>,
    /// The overall valence, as a float bit pattern.
    pub mood: u32,
    /// Intensities of anger, fear, shame and reproach (0 when absent), as
    /// float bit patterns.
    pub anger: u32,
    pub fear: u32,
    pub shame: u32,
    pub reproach: u32,
}

/// What the directive reads of the emotions `es`, with the overall mood.
pub open spec fn signals_of(es: Seq<Emotion>, mood: u32) -> EmotionSignals {
    EmotionSignals {
        dominant: dominant_type(es),
        mood,
        anger: intensity_in(es, EmotionType::Anger),
        fear: intensity_in(es, EmotionType::Fear),
        shame: intensity_in(es, EmotionType::Shame),
        reproach: intensity_in(es, EmotionType::Reproach),
    }
}

impl EmotionSignals {
    /// The signals of an emotional state whose overall valence is `mood`
    /// (float bits).
    pub fn from_state(state: &EmotionState, mood: u32) -> (r: EmotionSignals)
        ensures
            r == signals_of(state@, mood),
    {
        let dominant = match state.dominant() {
            Some(e) => Some(e.emotion_type()),
            None => None,
        };
        EmotionSignals {
            dominant,
            mood,
            anger: state.intensity_of(EmotionType::Anger),
            fear: state.intensity_of(EmotionType::Fear),
            shame: state.intensity_of(EmotionType::Shame),
            reproach: state.intensity_of(EmotionType::Reproach),
        }
    }
}

/// How the NPC should be played now.
#[derive(Debug, Clone)]
pub struct ActingDirective {
    pub tone: Tone,
    pub attitude: Attitude,
    pub behavioral_tendency: BehavioralTendency,
    pub restrictions: Vec<Restriction>,
}

/// The tone a dominant emotion sets, shaded by personality.
pub open spec fn tone_from_dominant(e: EmotionType, avg: DimensionAverages, t: u32) -> Tone {
    match e {
        EmotionType::Anger => if f32_lt(t, avg.c) {
            Tone::SuppressedCold
        } else {
            Tone::RoughAggressive
        },
        EmotionType::Distress => if f32_lt(t, avg.e) {
            Tone::AnxiousTrembling
        } else {
            Tone::SomberRestrained
        },
        EmotionType::Joy => Tone::BrightLively,
        EmotionType::Fear => if f32_lt(avg.e, f32_neg(t)) {
            Tone::VigilantCalm
        } else {
            Tone::TenseAnxious
        },
        EmotionType::Shame => Tone::ShrinkingSmall,
        EmotionType::Pride => if f32_lt(t, avg.h) {
            Tone::QuietConfidence
        } else {
            Tone::ProudArrogant
        },
        EmotionType::Reproach => Tone::CynicalCritical,
        EmotionType::Disappointment => Tone::DeepSighing,
        EmotionType::Gratitude => Tone::SincerelyWarm,
        EmotionType::Resentment => Tone::JealousBitter,
        EmotionType::Pity => Tone::CompassionateSoft,
        _ => Tone::Calm,
    }
}

/// The tone a mood sets when no emotion dominates.
pub open spec fn tone_from_mood(mood: u32, threshold: u32) -> Tone {
    if f32_lt(threshold, mood) {
        Tone::RelaxedGentle
    } else if f32_lt(mood, f32_neg(threshold)) {
        Tone::Heavy
    } else {
        Tone::Calm
    }
}

/// The tone: set by the dominant emotion, else by the mood.
pub open spec fn tone_of(dominant: Option<EmotionType>, mood: u32, avg: DimensionAverages, th: GuideThresholds) -> Tone {
    match dominant {
        Some(e) => tone_from_dominant(e, avg, th.trait_threshold),
        None => tone_from_mood(mood, th.emotion_threshold),
    }
}

/// The attitude: anger (hostile when disagreeable), else reproach, else
/// fear, else by mood.
pub open spec fn attitude_of(
    has_anger: bool,
    has_reproach: bool,
    has_fear: bool,
    mood: u32,
    avg: DimensionAverages,
    th: GuideThresholds,
) -> Attitude {
    if has_anger {
        if f32_lt(avg.a, f32_neg(th.trait_threshold)) {
            Attitude::HostileAggressive
        } else {
            Attitude::SuppressedDiscomfort
        }
    } else if has_reproach {
        Attitude::Judgmental
    } else if has_fear {
        Attitude::GuardedDefensive
    } else if f32_lt(th.mood_threshold, mood) {
        Attitude::FriendlyOpen
    } else if f32_lt(mood, f32_neg(th.mood_threshold)) {
        Attitude::DefensiveClosed
    } else {
        Attitude::NeutralObservant
    }
}

/// The tendency: anger (by conscientiousness), else fear (by emotionality),
/// else shame, else by mood.
pub open spec fn tendency_of(
    has_anger: bool,
    has_fear: bool,
    has_shame: bool,
    mood: u32,
    avg: DimensionAverages,
    th: GuideThresholds,
) -> BehavioralTendency {
    if has_anger {
        if f32_lt(avg.c, f32_neg(th.trait_threshold)) {
            BehavioralTendency::ImmediateConfrontation
        } else if f32_lt(th.trait_threshold, avg.c) {
            BehavioralTendency::StrategicResponse
        } else {
            BehavioralTendency::ExpressAndObserve
        }
    } else if has_fear {
        if f32_lt(avg.e, f32_neg(th.trait_threshold)) {
            BehavioralTendency::BraveConfrontation
        } else {
            BehavioralTendency::SeekSafety
        }
    } else if has_shame {
        BehavioralTendency::AvoidOrDeflect
    } else if f32_lt(th.mood_threshold, mood) {
        BehavioralTendency::ActiveCooperation
    } else {
        BehavioralTendency::ObserveAndRespond
    }
}

/// `s`, with `x` appended when `c` holds.
pub open spec fn push_if<T>(s: Seq<T>, c: bool, x: T) -> Seq<T> {
    if c {
        s.push(x)
    } else {
        s
    }
}

/// The restrictions, in this order: no humour in a low mood, no
/// friendliness in anger, no self-justification in shame, no bravado in
/// fear, no lying for the very honest.
pub open spec fn restrictions_of(
    has_anger: bool,
    has_fear: bool,
    has_shame: bool,
    mood: u32,
    avg: DimensionAverages,
    th: GuideThresholds,
) -> Seq<Restriction> {
    let s0 = push_if(Seq::empty(), f32_lt(mood, f32_neg(th.mood_threshold)), Restriction::NoHumorOrLightTone);
    let s1 = push_if(s0, has_anger, Restriction::NoFriendliness);
    let s2 = push_if(s1, has_shame, Restriction::NoSelfJustification);
    let s3 = push_if(s2, has_fear, Restriction::NoBravado);
    push_if(s3, f32_lt(th.honesty_restriction_threshold, avg.h), Restriction::NoLyingOrExaggeration)
}

impl Tone {
    /// The tone: set by the dominant emotion, else by the mood.
    pub fn decide(dominant: Option<EmotionType>, mood: u32, avg: &DimensionAverages, th: &GuideThresholds) -> (r: Tone)
        ensures
            r == tone_of(dominant, mood, *avg, *th),
            dominant == Some(EmotionType::Joy) ==> r == Tone::BrightLively,
            dominant == Some(EmotionType::Gratitude) ==> r == Tone::SincerelyWarm,
            dominant == Some(EmotionType::Pity) ==> r == Tone::CompassionateSoft,
            dominant == Some(EmotionType::Resentment) ==> r == Tone::JealousBitter,
            dominant == Some(EmotionType::Shame) ==> r == Tone::ShrinkingSmall,
            dominant == Some(EmotionType::Reproach) ==> r == Tone::CynicalCritical,
            dominant == Some(EmotionType::Disappointment) ==> r == Tone::DeepSighing,
            dominant == Some(EmotionType::Anger) && f32_lt(th.trait_threshold, avg.c) ==> r == Tone::SuppressedCold,
            dominant == Some(EmotionType::Anger) && !f32_lt(th.trait_threshold, avg.c) ==> r == Tone::RoughAggressive,
            dominant == Some(EmotionType::Distress) && f32_lt(th.trait_threshold, avg.e) ==> r == Tone::AnxiousTrembling,
            dominant == Some(EmotionType::Distress) && !f32_lt(th.trait_threshold, avg.e) ==> r == Tone::SomberRestrained,
            dominant == Some(EmotionType::Fear) && f32_lt(avg.e, f32_neg(th.trait_threshold)) ==> r == Tone::VigilantCalm,
            dominant == Some(EmotionType::Fear) && !f32_lt(avg.e, f32_neg(th.trait_threshold)) ==> r == Tone::TenseAnxious,
            dominant == Some(EmotionType::Pride) && f32_lt(th.trait_threshold, avg.h) ==> r == Tone::QuietConfidence,
            dominant == Some(EmotionType::Pride) && !f32_lt(th.trait_threshold, avg.h) ==> r == Tone::ProudArrogant,
            (dominant == Some(EmotionType::HappyFor) || dominant == Some(EmotionType::Gloating) || dominant == Some(EmotionType::Hope) || dominant == Some(EmotionType::Satisfaction) || dominant == Some(EmotionType::Relief) || dominant == Some(EmotionType::FearsConfirmed) || dominant == Some(EmotionType::Admiration) || dominant == Some(EmotionType::Gratification) || dominant == Some(EmotionType::Remorse) || dominant == Some(EmotionType::Love) || dominant == Some(EmotionType::Hate)) ==> r == Tone::Calm,
            dominant is None && f32_lt(th.emotion_threshold, mood) ==> r == Tone::RelaxedGentle,
            dominant is None && !f32_lt(th.emotion_threshold, mood) && f32_lt(mood, f32_neg(th.emotion_threshold)) ==> r == Tone::Heavy,
            dominant is None && !f32_lt(th.emotion_threshold, mood) && !f32_lt(mood, f32_neg(th.emotion_threshold)) ==> r == Tone::Calm,
    {
        match dominant {
            Some(etype) => Tone::decide_from_dominant(etype, avg, th.trait_threshold),
            None => Tone::decide_from_mood(mood, th.emotion_threshold),
        }
    }

    fn decide_from_dominant(etype: EmotionType, avg: &DimensionAverages, t: u32) -> (r: Tone)
        ensures
            r == tone_from_dominant(etype, *avg, t),
    {
        match etype {
            EmotionType::Anger => if greater_than(avg.c, t) {
                Tone::SuppressedCold
            } else {
                Tone::RoughAggressive
            },
            EmotionType::Distress => if greater_than(avg.e, t) {
                Tone::AnxiousTrembling
            } else {
                Tone::SomberRestrained
            },
            EmotionType::Joy => Tone::BrightLively,
            EmotionType::Fear => if less_than(avg.e, negate(t)) {
                Tone::VigilantCalm
            } else {
                Tone::TenseAnxious
            },
            EmotionType::Shame => Tone::ShrinkingSmall,
            EmotionType::Pride => if greater_than(avg.h, t) {
                Tone::QuietConfidence
            } else {
                Tone::ProudArrogant
            },
            EmotionType::Reproach => Tone::CynicalCritical,
            EmotionType::Disappointment => Tone::DeepSighing,
            EmotionType::Gratitude => Tone::SincerelyWarm,
            EmotionType::Resentment => Tone::JealousBitter,
            EmotionType::Pity => Tone::CompassionateSoft,
            _ => Tone::Calm,
        }
    }

    fn decide_from_mood(mood: u32, threshold: u32) -> (r: Tone)
        ensures
            r == tone_from_mood(mood, threshold),
    {
        if greater_than(mood, threshold) {
            Tone::RelaxedGentle
        } else if less_than(mood, negate(threshold)) {
            Tone::Heavy
        } else {
            Tone::Calm
        }
    }
}

impl Attitude {
    /// The attitude toward the partner.
    pub fn decide(
        has_anger: bool,
        has_reproach: bool,
        has_fear: bool,
        mood: u32,
        avg: &DimensionAverages,
        th: &GuideThresholds,
    ) -> (r: Attitude)
        ensures
            r == attitude_of(has_anger, has_reproach, has_fear, mood, *avg, *th),
            has_anger && f32_lt(avg.a, f32_neg(th.trait_threshold)) ==> r == Attitude::HostileAggressive,
            has_anger && !f32_lt(avg.a, f32_neg(th.trait_threshold)) ==> r == Attitude::SuppressedDiscomfort,
            !has_anger && has_reproach ==> r == Attitude::Judgmental,
            !has_anger && !has_reproach && has_fear ==> r == Attitude::GuardedDefensive,
            !has_anger && !has_reproach && !has_fear && f32_lt(th.mood_threshold, mood) ==> r == Attitude::FriendlyOpen,
            !has_anger && !has_reproach && !has_fear && !f32_lt(th.mood_threshold, mood) && f32_lt(mood, f32_neg(th.mood_threshold)) ==> r == Attitude::DefensiveClosed,
            !has_anger && !has_reproach && !has_fear && !f32_lt(th.mood_threshold, mood) && !f32_lt(mood, f32_neg(th.mood_threshold)) ==> r == Attitude::NeutralObservant,
    {
        if has_anger {
            if less_than(avg.a, negate(th.trait_threshold)) {
                Attitude::HostileAggressive
            } else {
                Attitude::SuppressedDiscomfort
            }
        } else if has_reproach {
            Attitude::Judgmental
        } else if has_fear {
            Attitude::GuardedDefensive
        } else if greater_than(mood, th.mood_threshold) {
            Attitude::FriendlyOpen
        } else if less_than(mood, negate(th.mood_threshold)) {
            Attitude::DefensiveClosed
        } else {
            Attitude::NeutralObservant
        }
    }
}

impl BehavioralTendency {
    /// What the NPC tends to do.
    pub fn decide(
        has_anger: bool,
        has_fear: bool,
        has_shame: bool,
        mood: u32,
        avg: &DimensionAverages,
        th: &GuideThresholds,
    ) -> (r: BehavioralTendency)
        ensures
            r == tendency_of(has_anger, has_fear, has_shame, mood, *avg, *th),
            has_anger && f32_lt(avg.c, f32_neg(th.trait_threshold)) ==> r == BehavioralTendency::ImmediateConfrontation,
            has_anger && !f32_lt(avg.c, f32_neg(th.trait_threshold)) && f32_lt(th.trait_threshold, avg.c) ==> r == BehavioralTendency::StrategicResponse,
            has_anger && !f32_lt(avg.c, f32_neg(th.trait_threshold)) && !f32_lt(th.trait_threshold, avg.c) ==> r == BehavioralTendency::ExpressAndObserve,
            !has_anger && has_fear && f32_lt(avg.e, f32_neg(th.trait_threshold)) ==> r == BehavioralTendency::BraveConfrontation,
            !has_anger && has_fear && !f32_lt(avg.e, f32_neg(th.trait_threshold)) ==> r == BehavioralTendency::SeekSafety,
            !has_anger && !has_fear && has_shame ==> r == BehavioralTendency::AvoidOrDeflect,
            !has_anger && !has_fear && !has_shame && f32_lt(th.mood_threshold, mood) ==> r == BehavioralTendency::ActiveCooperation,
            !has_anger && !has_fear && !has_shame && !f32_lt(th.mood_threshold, mood) ==> r == BehavioralTendency::ObserveAndRespond,
    {
        if has_anger {
            if less_than(avg.c, negate(th.trait_threshold)) {
                BehavioralTendency::ImmediateConfrontation
            } else if greater_than(avg.c, th.trait_threshold) {
                BehavioralTendency::StrategicResponse
            } else {
                BehavioralTendency::ExpressAndObserve
            }
        } else if has_fear {
            if less_than(avg.e, negate(th.trait_threshold)) {
                BehavioralTendency::BraveConfrontation
            } else {
                BehavioralTendency::SeekSafety
            }
        } else if has_shame {
            BehavioralTendency::AvoidOrDeflect
        } else if greater_than(mood, th.mood_threshold) {
            BehavioralTendency::ActiveCooperation
        } else {
            BehavioralTendency::ObserveAndRespond
        }
    }
}

impl Restriction {
    /// The restrictions that apply, in their fixed order.
    pub fn evaluate_all(
        has_anger: bool,
        has_fear: bool,
        has_shame: bool,
        mood: u32,
        avg: &DimensionAverages,
        th: &GuideThresholds,
    ) -> (r: Vec<Restriction>)
        ensures
            r@ == restrictions_of(has_anger, has_fear, has_shame, mood, *avg, *th),            r@.contains(Restriction::NoHumorOrLightTone) <==> f32_lt(mood, f32_neg(th.mood_threshold)),
            r@.contains(Restriction::NoFriendliness) <==> has_anger,
            r@.contains(Restriction::NoSelfJustification) <==> has_shame,
            r@.contains(Restriction::NoBravado) <==> has_fear,
            r@.contains(Restriction::NoLyingOrExaggeration) <==> f32_lt(th.honesty_restriction_threshold, avg.h),
            r@.no_duplicates(),
            forall|i: int, j: int| 0 <= i < j < r@.len() ==> restriction_rank(#[trigger] r@[i]) < restriction_rank(#[trigger] r@[j]),
    {
        proof {
            law_restrictions(has_anger, has_fear, has_shame, mood, *avg, *th);
        }
        let mut v: Vec<Restriction> = Vec::new();
        if less_than(mood, negate(th.mood_threshold)) {
            v.push(Restriction::NoHumorOrLightTone);
        }
        if has_anger {
            v.push(Restriction::NoFriendliness);
        }
        if has_shame {
            v.push(Restriction::NoSelfJustification);
        }
        if has_fear {
            v.push(Restriction::NoBravado);
        }
        if greater_than(avg.h, th.honesty_restriction_threshold) {
            v.push(Restriction::NoLyingOrExaggeration);
        }
        v
    }
}

/// Whether `r` is the directive for `signals` and a personality with
/// averages `avg`. An emotion counts as present when its intensity reaches
/// the emotion threshold.
pub open spec fn directive_for(r: ActingDirective, signals: EmotionSignals, avg: DimensionAverages, th: GuideThresholds) -> bool {
    let anger = f32_ge(signals.anger, th.emotion_threshold);
    let fear = f32_ge(signals.fear, th.emotion_threshold);
    let shame = f32_ge(signals.shame, th.emotion_threshold);
    let reproach = f32_ge(signals.reproach, th.emotion_threshold);
    &&& r.tone == tone_of(signals.dominant, signals.mood, avg, th)
    &&& r.attitude == attitude_of(anger, reproach, fear, signals.mood, avg, th)
    &&& r.behavioral_tendency == tendency_of(anger, fear, shame, signals.mood, avg, th)
    &&& r.restrictions@ == restrictions_of(anger, fear, shame, signals.mood, avg, th)
}

impl ActingDirective {
    /// The directive for an emotional state and a personality. An emotion
    /// counts as present when its intensity reaches the emotion threshold.
    pub fn from_emotion_and_personality(signals: &EmotionSignals, avg: &DimensionAverages, th: &GuideThresholds) -> (r:
        ActingDirective)
        ensures
            directive_for(r, *signals, *avg, *th),
    {
        let has_anger = at_least(signals.anger, th.emotion_threshold);
        let has_fear = at_least(signals.fear, th.emotion_threshold);
        let has_shame = at_least(signals.shame, th.emotion_threshold);
        let has_reproach = at_least(signals.reproach, th.emotion_threshold);
        ActingDirective {
            tone: Tone::decide(signals.dominant, signals.mood, avg, th),
            attitude: Attitude::decide(has_anger, has_reproach, has_fear, signals.mood, avg, th),
            behavioral_tendency: BehavioralTendency::decide(has_anger, has_fear, has_shame, signals.mood, avg, th),
            restrictions: Restriction::evaluate_all(has_anger, has_fear, has_shame, signals.mood, avg, th),
        }
    }
}


/// The tone a dominant emotion sets, emotion by emotion: joy is bright and
/// lively, gratitude sincerely warm, pity compassionate, resentment
/// jealous and bitter, shame shrinking, reproach cynical, disappointment a
/// deep sigh; anger is cold when conscientious and rough otherwise,
/// distress trembling when emotional and somber otherwise, fear calm and
/// vigilant when bold and tense otherwise, pride quiet when honest and
/// arrogant otherwise; any other emotion leaves the tone calm. With no
/// dominant emotion a good mood relaxes the tone, a bad one makes it heavy.
pub proof fn law_tone_by_emotion(dominant: Option<EmotionType>, mood: u32, avg: DimensionAverages, th: GuideThresholds)
    ensures
        dominant == Some(EmotionType::Joy) ==> tone_of(dominant, mood, avg, th) == Tone::BrightLively,
        dominant == Some(EmotionType::Gratitude) ==> tone_of(dominant, mood, avg, th) == Tone::SincerelyWarm,
        dominant == Some(EmotionType::Pity) ==> tone_of(dominant, mood, avg, th) == Tone::CompassionateSoft,
        dominant == Some(EmotionType::Resentment) ==> tone_of(dominant, mood, avg, th) == Tone::JealousBitter,
        dominant == Some(EmotionType::Shame) ==> tone_of(dominant, mood, avg, th) == Tone::ShrinkingSmall,
        dominant == Some(EmotionType::Reproach) ==> tone_of(dominant, mood, avg, th) == Tone::CynicalCritical,
        dominant == Some(EmotionType::Disappointment) ==> tone_of(dominant, mood, avg, th) == Tone::DeepSighing,
        dominant == Some(EmotionType::Anger) && f32_lt(th.trait_threshold, avg.c) ==> tone_of(dominant, mood, avg, th) == Tone::SuppressedCold,
        dominant == Some(EmotionType::Anger) && !f32_lt(th.trait_threshold, avg.c) ==> tone_of(dominant, mood, avg, th) == Tone::RoughAggressive,
        dominant == Some(EmotionType::Distress) && f32_lt(th.trait_threshold, avg.e) ==> tone_of(dominant, mood, avg, th) == Tone::AnxiousTrembling,
        dominant == Some(EmotionType::Distress) && !f32_lt(th.trait_threshold, avg.e) ==> tone_of(dominant, mood, avg, th) == Tone::SomberRestrained,
        dominant == Some(EmotionType::Fear) && f32_lt(avg.e, f32_neg(th.trait_threshold)) ==> tone_of(dominant, mood, avg, th) == Tone::VigilantCalm,
        dominant == Some(EmotionType::Fear) && !f32_lt(avg.e, f32_neg(th.trait_threshold)) ==> tone_of(dominant, mood, avg, th) == Tone::TenseAnxious,
        dominant == Some(EmotionType::Pride) && f32_lt(th.trait_threshold, avg.h) ==> tone_of(dominant, mood, avg, th) == Tone::QuietConfidence,
        dominant == Some(EmotionType::Pride) && !f32_lt(th.trait_threshold, avg.h) ==> tone_of(dominant, mood, avg, th) == Tone::ProudArrogant,
        (dominant == Some(EmotionType::HappyFor) || dominant == Some(EmotionType::Gloating) || dominant == Some(EmotionType::Hope) || dominant == Some(EmotionType::Satisfaction) || dominant == Some(EmotionType::Relief) || dominant == Some(EmotionType::FearsConfirmed) || dominant == Some(EmotionType::Admiration) || dominant == Some(EmotionType::Gratification) || dominant == Some(EmotionType::Remorse) || dominant == Some(EmotionType::Love) || dominant == Some(EmotionType::Hate)) ==> tone_of(dominant, mood, avg, th) == Tone::Calm,
        dominant is None && f32_lt(th.emotion_threshold, mood) ==> tone_of(dominant, mood, avg, th) == Tone::RelaxedGentle,
        dominant is None && !f32_lt(th.emotion_threshold, mood) && f32_lt(mood, f32_neg(th.emotion_threshold)) ==> tone_of(dominant, mood, avg, th) == Tone::Heavy,
        dominant is None && !f32_lt(th.emotion_threshold, mood) && !f32_lt(mood, f32_neg(th.emotion_threshold)) ==> tone_of(dominant, mood, avg, th) == Tone::Calm,
{
}


/// The attitude toward the partner: anger makes it hostile in a
/// disagreeable personality and suppressed discomfort otherwise; without
/// anger, reproach makes it judgmental, then fear guarded; otherwise a good
/// mood opens it, a bad one closes it, and it stays neutral between.
pub proof fn law_attitude(has_anger: bool, has_reproach: bool, has_fear: bool, mood: u32, avg: DimensionAverages, th: GuideThresholds)
    ensures
        has_anger && f32_lt(avg.a, f32_neg(th.trait_threshold)) ==> attitude_of(has_anger, has_reproach, has_fear, mood, avg, th) == Attitude::HostileAggressive,
        has_anger && !f32_lt(avg.a, f32_neg(th.trait_threshold)) ==> attitude_of(has_anger, has_reproach, has_fear, mood, avg, th) == Attitude::SuppressedDiscomfort,
        !has_anger && has_reproach ==> attitude_of(has_anger, has_reproach, has_fear, mood, avg, th) == Attitude::Judgmental,
        !has_anger && !has_reproach && has_fear ==> attitude_of(has_anger, has_reproach, has_fear, mood, avg, th) == Attitude::GuardedDefensive,
        !has_anger && !has_reproach && !has_fear && f32_lt(th.mood_threshold, mood) ==> attitude_of(has_anger, has_reproach, has_fear, mood, avg, th) == Attitude::FriendlyOpen,
        !has_anger && !has_reproach && !has_fear && !f32_lt(th.mood_threshold, mood) && f32_lt(mood, f32_neg(th.mood_threshold)) ==> attitude_of(has_anger, has_reproach, has_fear, mood, avg, th) == Attitude::DefensiveClosed,
        !has_anger && !has_reproach && !has_fear && !f32_lt(th.mood_threshold, mood) && !f32_lt(mood, f32_neg(th.mood_threshold)) ==> attitude_of(has_anger, has_reproach, has_fear, mood, avg, th) == Attitude::NeutralObservant,
{
}

/// What the NPC tends to do: in anger, confront at once when impulsive,
/// respond strategically when conscientious, express and observe between;
/// in fear, confront bravely when bold and seek safety otherwise; in shame,
/// avoid or deflect; otherwise cooperate in a good mood and observe and
/// respond in any other.
pub proof fn law_tendency(has_anger: bool, has_fear: bool, has_shame: bool, mood: u32, avg: DimensionAverages, th: GuideThresholds)
    ensures
        has_anger && f32_lt(avg.c, f32_neg(th.trait_threshold)) ==> tendency_of(has_anger, has_fear, has_shame, mood, avg, th) == BehavioralTendency::ImmediateConfrontation,
        has_anger && !f32_lt(avg.c, f32_neg(th.trait_threshold)) && f32_lt(th.trait_threshold, avg.c) ==> tendency_of(has_anger, has_fear, has_shame, mood, avg, th) == BehavioralTendency::StrategicResponse,
        has_anger && !f32_lt(avg.c, f32_neg(th.trait_threshold)) && !f32_lt(th.trait_threshold, avg.c) ==> tendency_of(has_anger, has_fear, has_shame, mood, avg, th) == BehavioralTendency::ExpressAndObserve,
        !has_anger && has_fear && f32_lt(avg.e, f32_neg(th.trait_threshold)) ==> tendency_of(has_anger, has_fear, has_shame, mood, avg, th) == BehavioralTendency::BraveConfrontation,
        !has_anger && has_fear && !f32_lt(avg.e, f32_neg(th.trait_threshold)) ==> tendency_of(has_anger, has_fear, has_shame, mood, avg, th) == BehavioralTendency::SeekSafety,
        !has_anger && !has_fear && has_shame ==> tendency_of(has_anger, has_fear, has_shame, mood, avg, th) == BehavioralTendency::AvoidOrDeflect,
        !has_anger && !has_fear && !has_shame && f32_lt(th.mood_threshold, mood) ==> tendency_of(has_anger, has_fear, has_shame, mood, avg, th) == BehavioralTendency::ActiveCooperation,
        !has_anger && !has_fear && !has_shame && !f32_lt(th.mood_threshold, mood) ==> tendency_of(has_anger, has_fear, has_shame, mood, avg, th) == BehavioralTendency::ObserveAndRespond,
{
}

/// The place of a restriction in the fixed order they are listed in.
pub open spec fn restriction_rank(r: Restriction) -> int {
    match r {
        Restriction::NoHumorOrLightTone => 0,
        Restriction::NoFriendliness => 1,
        Restriction::NoSelfJustification => 2,
        Restriction::NoBravado => 3,
        Restriction::NoLyingOrExaggeration => 4,
    }
}

/// Each restriction applies exactly when its cause is there: no humour in
/// a bad mood, no friendliness in anger, no self-justification in shame,
/// no bravado in fear, no lying for the very honest; each at most once, in
/// that order.
pub proof fn law_restrictions(has_anger: bool, has_fear: bool, has_shame: bool, mood: u32, avg: DimensionAverages, th: GuideThresholds)
    ensures
        restrictions_of(has_anger, has_fear, has_shame, mood, avg, th).contains(Restriction::NoHumorOrLightTone) <==> f32_lt(mood, f32_neg(th.mood_threshold)),
        restrictions_of(has_anger, has_fear, has_shame, mood, avg, th).contains(Restriction::NoFriendliness) <==> has_anger,
        restrictions_of(has_anger, has_fear, has_shame, mood, avg, th).contains(Restriction::NoSelfJustification) <==> has_shame,
        restrictions_of(has_anger, has_fear, has_shame, mood, avg, th).contains(Restriction::NoBravado) <==> has_fear,
        restrictions_of(has_anger, has_fear, has_shame, mood, avg, th).contains(Restriction::NoLyingOrExaggeration) <==> f32_lt(th.honesty_restriction_threshold, avg.h),
        restrictions_of(has_anger, has_fear, has_shame, mood, avg, th).no_duplicates(),
        forall|i: int, j: int| 0 <= i < j < restrictions_of(has_anger, has_fear, has_shame, mood, avg, th).len() ==> restriction_rank(#[trigger] restrictions_of(has_anger, has_fear, has_shame, mood, avg, th)[i]) < restriction_rank(#[trigger] restrictions_of(has_anger, has_fear, has_shame, mood, avg, th)[j]),
{
    let s0 = push_if(Seq::empty(), f32_lt(mood, f32_neg(th.mood_threshold)), Restriction::NoHumorOrLightTone);
    let s1 = push_if(s0, has_anger, Restriction::NoFriendliness);
    let s2 = push_if(s1, has_shame, Restriction::NoSelfJustification);
    let s3 = push_if(s2, has_fear, Restriction::NoBravado);
    let s4 = push_if(s3, f32_lt(th.honesty_restriction_threshold, avg.h), Restriction::NoLyingOrExaggeration);
    assert(s4 == restrictions_of(has_anger, has_fear, has_shame, mood, avg, th));
    lemma_push_if_ranked(Seq::empty(), f32_lt(mood, f32_neg(th.mood_threshold)), Restriction::NoHumorOrLightTone);
    lemma_push_if_ranked(s0, has_anger, Restriction::NoFriendliness);
    lemma_push_if_ranked(s1, has_shame, Restriction::NoSelfJustification);
    lemma_push_if_ranked(s2, has_fear, Restriction::NoBravado);
    lemma_push_if_ranked(s3, f32_lt(th.honesty_restriction_threshold, avg.h), Restriction::NoLyingOrExaggeration);
}

/// Appending a restriction ranked after all present keeps the order and
/// adds exactly it.
proof fn lemma_push_if_ranked(s: Seq<Restriction>, c: bool, x: Restriction)
    requires
        forall|i: int| 0 <= i < s.len() ==> restriction_rank(#[trigger] s[i]) < restriction_rank(x),
        forall|i: int, j: int| 0 <= i < j < s.len() ==> restriction_rank(#[trigger] s[i]) < restriction_rank(#[trigger] s[j]),
    ensures
        forall|y: Restriction| #[trigger] push_if(s, c, x).contains(y) <==> (s.contains(y) || (c && y == x)),
        forall|i: int, j: int| 0 <= i < j < push_if(s, c, x).len() ==> restriction_rank(#[trigger] push_if(s, c, x)[i]) < restriction_rank(#[trigger] push_if(s, c, x)[j]),
        forall|i: int| 0 <= i < push_if(s, c, x).len() ==> restriction_rank(#[trigger] push_if(s, c, x)[i]) <= restriction_rank(x),
{
    if c {
        let t = s.push(x);
        assert forall|y: Restriction| #[trigger] t.contains(y) <==> (s.contains(y) || y == x) by {
            if t.contains(y) {
                let q = choose|q: int| 0 <= q < t.len() && t[q] == y;
                if q < s.len() {
                    assert(s[q] == y);
                }
            }
            if s.contains(y) {
                let q = choose|q: int| 0 <= q < s.len() && s[q] == y;
                assert(t[q] == y);
            }
            if y == x {
                assert(t[s.len() as int] == x);
            }
        }
        assert forall|i: int, j: int| 0 <= i < j < t.len() implies restriction_rank(#[trigger] t[i]) < restriction_rank(#[trigger] t[j]) by {
            assert(t[i] == s[i]);
            if j < s.len() {
                assert(t[j] == s[j]);
            }
        }
        assert forall|i: int| 0 <= i < t.len() implies restriction_rank(#[trigger] t[i]) <= restriction_rank(x) by {
            if i < s.len() {
                assert(t[i] == s[i]);
            }
        }
    }
}

} // verus!
