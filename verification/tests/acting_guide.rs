use npc_mind::emotion::EmotionType;
use npc_mind::float_bits::{at_least, greater_than, is_nan, less_than, negate};
use npc_mind::guide::directive::{ActingDirective, EmotionSignals};
use npc_mind::guide::enums::{Attitude, BehavioralTendency, PersonalityTrait, Restriction, SpeechStyle, Tone};
use npc_mind::guide::snapshot::{LevelThresholds, PersonalitySnapshot, RelationshipLevel, RelationshipSnapshot};
use npc_mind::relationship::axis::{AxisScore, WarinessScore};
use npc_mind::relationship::Relationship;
use npc_mind::guide::{DimensionAverages, GuideThresholds};

fn b(x: f32) -> u32 {
    x.to_bits()
}

fn avg(h: f32, e: f32, x: f32, a: f32, c: f32, o: f32) -> DimensionAverages {
    DimensionAverages { h: b(h), e: b(e), x: b(x), a: b(a), c: b(c), o: b(o) }
}

fn thresholds() -> GuideThresholds {
    GuideThresholds {
        trait_threshold: b(0.3),
        emotion_threshold: b(0.2),
        mood_threshold: b(0.3),
        honesty_restriction_threshold: b(0.5),
    }
}

fn signals(dominant: Option<EmotionType>, mood: f32, anger: f32, fear: f32, shame: f32, reproach: f32) -> EmotionSignals {
    EmotionSignals { dominant, mood: b(mood), anger: b(anger), fear: b(fear), shame: b(shame), reproach: b(reproach) }
}

#[test]
fn float_bits_compare_like_floats() {
    let values = [f32::NEG_INFINITY, -1.5, -0.3, -0.0, 0.0, 1e-40, 0.3, 0.30000001, 2.0, f32::INFINITY, f32::NAN];
    for x in values {
        for y in values {
            assert_eq!(less_than(b(x), b(y)), x < y, "{x} < {y}");
            assert_eq!(greater_than(b(x), b(y)), x > y, "{x} > {y}");
            assert_eq!(at_least(b(x), b(y)), x >= y, "{x} >= {y}");
        }
        assert_eq!(is_nan(b(x)), x.is_nan());
        assert_eq!(f32::from_bits(negate(b(x))).to_bits(), (-x).to_bits());
    }
}

#[test]
fn personality_trait_poles() {
    let t = b(0.3);
    assert_eq!(
        PersonalityTrait::evaluate(b(0.5), t, PersonalityTrait::HonestAndModest, PersonalityTrait::CunningAndAmbitious),
        Some(PersonalityTrait::HonestAndModest)
    );
    assert_eq!(
        PersonalityTrait::evaluate(b(-0.5), t, PersonalityTrait::HonestAndModest, PersonalityTrait::CunningAndAmbitious),
        Some(PersonalityTrait::CunningAndAmbitious)
    );
    assert_eq!(
        PersonalityTrait::evaluate(b(0.3), t, PersonalityTrait::HonestAndModest, PersonalityTrait::CunningAndAmbitious),
        None
    );
    assert_eq!(SpeechStyle::evaluate(b(-0.3), t, SpeechStyle::FrankAndUnadorned, SpeechStyle::HidesInnerThoughts), None);
    assert_eq!(SpeechStyle::evaluate(b(f32::NAN), t, SpeechStyle::FrankAndUnadorned, SpeechStyle::HidesInnerThoughts), None);
}

#[test]
fn personality_snapshot_lists_standout_dimensions_in_order() {
    let snap = PersonalitySnapshot::from_profile(&avg(0.8, -0.5, 0.1, 0.31, -0.3, -0.9), b(0.3));
    assert_eq!(
        snap.traits,
        vec![
            PersonalityTrait::HonestAndModest,
            PersonalityTrait::BoldAndIndependent,
            PersonalityTrait::TolerantAndGentle,
            PersonalityTrait::TraditionalAndConservative,
        ]
    );
    assert_eq!(
        snap.speech_styles,
        vec![
            SpeechStyle::FrankAndUnadorned,
            SpeechStyle::CalmAndComposed,
            SpeechStyle::SoftAndConsiderate,
            SpeechStyle::FormalAndTraditional,
        ]
    );
    let neutral = PersonalitySnapshot::from_profile(&avg(0.0, 0.0, 0.0, 0.0, 0.0, 0.0), b(0.3));
    assert!(neutral.traits.is_empty());
    assert!(neutral.speech_styles.is_empty());
}

#[test]
fn relationship_levels_by_score() {
    let th = LevelThresholds { very_high: b(0.6), high: b(0.2), low: b(-0.2), very_low: b(-0.6) };
    assert_eq!(RelationshipLevel::from_score(b(0.61), &th), RelationshipLevel::VeryHigh);
    assert_eq!(RelationshipLevel::from_score(b(0.6), &th), RelationshipLevel::High);
    assert_eq!(RelationshipLevel::from_score(b(0.0), &th), RelationshipLevel::Neutral);
    assert_eq!(RelationshipLevel::from_score(b(-0.2), &th), RelationshipLevel::Low);
    assert_eq!(RelationshipLevel::from_score(b(-0.6), &th), RelationshipLevel::VeryLow);
    assert_eq!(RelationshipLevel::from_score(b(f32::NAN), &th), RelationshipLevel::VeryLow);

    let th100 = LevelThresholds { very_high: b(60.0), high: b(20.0), low: b(-20.0), very_low: b(-60.0) };
    let rel = Relationship::new(
        "muback",
        "gyoryong",
        AxisScore::new(b(30.0)),
        AxisScore::new(b(70.0)),
        AxisScore::new(b(-10.0)),
        WarinessScore::new(b(-90.0)),
    );
    let snap = RelationshipSnapshot::from_relationship(&rel, "", &th100);
    assert_eq!(snap.target_name, "gyoryong");
    assert_eq!(snap.affinity_level, RelationshipLevel::VeryHigh);
    assert_eq!(snap.trust_level, RelationshipLevel::High);
    assert_eq!(snap.respect_level, RelationshipLevel::Neutral);
    assert_eq!(snap.wariness_level, RelationshipLevel::Neutral);
    let named = RelationshipSnapshot::from_relationship(&rel, "교룡", &th100);
    assert_eq!(named.target_name, "교룡");
}

#[test]
fn tone_follows_dominant_emotion_and_personality() {
    let th = thresholds();
    let calm_c = avg(0.0, 0.0, 0.0, 0.0, 0.5, 0.0);
    let wild = avg(0.0, 0.0, 0.0, 0.0, -0.5, 0.0);
    assert_eq!(Tone::decide(Some(EmotionType::Anger), b(0.0), &calm_c, &th), Tone::SuppressedCold);
    assert_eq!(Tone::decide(Some(EmotionType::Anger), b(0.0), &wild, &th), Tone::RoughAggressive);
    assert_eq!(Tone::decide(Some(EmotionType::Fear), b(0.0), &avg(0.0, -0.5, 0.0, 0.0, 0.0, 0.0), &th), Tone::VigilantCalm);
    assert_eq!(Tone::decide(Some(EmotionType::Joy), b(-0.9), &wild, &th), Tone::BrightLively);
    assert_eq!(Tone::decide(Some(EmotionType::Hope), b(0.9), &wild, &th), Tone::Calm);
    assert_eq!(Tone::decide(None, b(0.5), &wild, &th), Tone::RelaxedGentle);
    assert_eq!(Tone::decide(None, b(-0.5), &wild, &th), Tone::Heavy);
    assert_eq!(Tone::decide(None, b(0.2), &wild, &th), Tone::Calm);
}

#[test]
fn directive_from_signals() {
    let th = thresholds();
    let grudging = avg(0.8, 0.0, 0.0, -0.5, -0.5, 0.0);
    let d = ActingDirective::from_emotion_and_personality(
        &signals(Some(EmotionType::Anger), -0.5, 0.7, 0.0, 0.2, 0.0),
        &grudging,
        &th,
    );
    assert_eq!(d.tone, Tone::RoughAggressive);
    assert_eq!(d.attitude, Attitude::HostileAggressive);
    assert_eq!(d.behavioral_tendency, BehavioralTendency::ImmediateConfrontation);
    assert_eq!(
        d.restrictions,
        vec![
            Restriction::NoHumorOrLightTone,
            Restriction::NoFriendliness,
            Restriction::NoSelfJustification,
            Restriction::NoLyingOrExaggeration,
        ]
    );

    let calm = ActingDirective::from_emotion_and_personality(
        &signals(None, 0.5, 0.0, 0.0, 0.0, 0.0),
        &avg(0.0, 0.0, 0.0, 0.0, 0.0, 0.0),
        &th,
    );
    assert_eq!(calm.tone, Tone::RelaxedGentle);
    assert_eq!(calm.attitude, Attitude::FriendlyOpen);
    assert_eq!(calm.behavioral_tendency, BehavioralTendency::ActiveCooperation);
    assert!(calm.restrictions.is_empty());

    let afraid = ActingDirective::from_emotion_and_personality(
        &signals(Some(EmotionType::Fear), 0.0, 0.0, 0.19, 0.0, 0.4),
        &avg(0.0, -0.5, 0.0, 0.0, 0.0, 0.0),
        &th,
    );
    assert_eq!(afraid.attitude, Attitude::Judgmental);
    assert_eq!(afraid.behavioral_tendency, BehavioralTendency::ObserveAndRespond);
    assert!(afraid.restrictions.is_empty());
}
