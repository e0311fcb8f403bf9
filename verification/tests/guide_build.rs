use npc_mind::emotion::{EmotionState, EmotionType};
use npc_mind::guide::directive::EmotionSignals;
use npc_mind::guide::enums::{PersonalityTrait, Tone};
use npc_mind::guide::snapshot::{EmotionEntry, EmotionSnapshot, LevelThresholds, RelationshipLevel};
use npc_mind::personality::{HexacoProfile, Npc};
use npc_mind::relationship::axis::{AxisScore, WarinessScore};
use npc_mind::relationship::Relationship;
use npc_mind::guide::{ActingGuide, DimensionAverages, GuideThresholds};

fn b(x: f32) -> u32 {
    x.to_bits()
}

fn thresholds() -> GuideThresholds {
    GuideThresholds {
        trait_threshold: b(0.3),
        emotion_threshold: b(0.2),
        mood_threshold: b(0.3),
        honesty_restriction_threshold: b(0.5),
    }
}

fn state(items: &[(EmotionType, f32)]) -> EmotionState {
    let mut s = EmotionState::new();
    for (t, x) in items {
        s.set_intensity(*t, b(*x));
    }
    s
}

#[test]
fn signals_read_dominant_and_named_intensities() {
    let s = state(&[(EmotionType::Fear, 0.4), (EmotionType::Anger, 0.6), (EmotionType::Joy, 0.1)]);
    let sig = EmotionSignals::from_state(&s, b(-0.25));
    assert_eq!(sig.dominant, Some(EmotionType::Anger));
    assert_eq!(sig.mood, b(-0.25));
    assert_eq!(sig.anger, b(0.6));
    assert_eq!(sig.fear, b(0.4));
    assert_eq!(sig.shame, 0);
    assert_eq!(sig.reproach, 0);
    assert_eq!(EmotionSignals::from_state(&EmotionState::new(), 0).dominant, None);
}

#[test]
fn snapshot_lists_active_emotions_strongest_first() {
    let s = state(&[(EmotionType::Fear, 0.4), (EmotionType::Anger, 0.6), (EmotionType::Joy, 0.1)]);
    let snap = EmotionSnapshot::from_state(&s, b(0.2), b(0.1));
    assert_eq!(snap.dominant, Some(EmotionEntry { emotion_type: EmotionType::Anger, intensity: b(0.6) }));
    assert_eq!(
        snap.active_emotions,
        vec![
            EmotionEntry { emotion_type: EmotionType::Anger, intensity: b(0.6) },
            EmotionEntry { emotion_type: EmotionType::Fear, intensity: b(0.4) },
        ]
    );
    assert_eq!(snap.mood, b(0.1));
}

#[test]
fn guide_assembles_all_parts() {
    let avg = DimensionAverages { h: b(0.6), e: b(0.0), x: b(0.0), a: b(0.0), c: b(0.0), o: b(0.0) };
    let s = state(&[(EmotionType::Joy, 0.8)]);
    let levels = LevelThresholds { very_high: b(60.0), high: b(20.0), low: b(-20.0), very_low: b(-60.0) };
    let rel = Relationship::new(
        "muback",
        "gyoryong",
        AxisScore::new(b(30.0)),
        AxisScore::new(b(70.0)),
        AxisScore::neutral(),
        WarinessScore::neutral(),
    );
    let npc = Npc::new("muback", "무백", "검객", HexacoProfile::neutral());
    let g = ActingGuide::build(
        &npc,
        &avg,
        &s,
        b(0.5),
        Some("주막".into()),
        Some(&rel),
        "",
        &thresholds(),
        &levels,
    );
    assert_eq!(g.npc_name, "무백");
    assert_eq!(g.npc_description, "검객");
    assert_eq!(g.personality.traits, vec![PersonalityTrait::HonestAndModest]);
    assert_eq!(g.emotion.dominant.unwrap().emotion_type, EmotionType::Joy);
    assert_eq!(g.directive.tone, Tone::BrightLively);
    assert_eq!(g.situation_description.as_deref(), Some("주막"));
    let rel = g.relationship.unwrap();
    assert_eq!(rel.target_name, "gyoryong");
    assert_eq!(rel.affinity_level, RelationshipLevel::VeryHigh);
    let none = ActingGuide::build(&npc, &avg, &s, 0, None, None, "p", &thresholds(), &levels);
    assert!(none.relationship.is_none());
}
