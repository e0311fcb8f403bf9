use std::collections::HashSet;

use npc_mind::emotion::{EmotionBranch, EmotionType};
use npc_mind::relationship::axis::AxisKind;
use npc_mind::relationship::bond::{BondKind, BondStatus};
use npc_mind::relationship::mapping::{base_delta, is_negative_emotion, AxisDelta};
use npc_mind::relationship::partnership::Partnership;
use npc_mind::relationship::TypeChange;
use npc_mind::world::event::EventId;

#[test]
fn zhiji_classifies_four_variants() {
    assert!(BondKind::SwornBrothers.is_zhiji());
    assert!(BondKind::MasterDisciple.is_zhiji());
    assert!(BondKind::Soulmate.is_zhiji());
    assert!(BondKind::LoyalRetainer.is_zhiji());
    assert!(!BondKind::Companion.is_zhiji());
    assert!(!BondKind::Guardian.is_zhiji());
    assert!(!BondKind::Mentor.is_zhiji());
    assert!(!BondKind::BloodEnemy.is_zhiji());
}

#[test]
fn companion_guardian_mentor_classifiers() {
    assert!(BondKind::Companion.is_companion_class());
    assert!(BondKind::Guardian.is_guardian());
    assert!(BondKind::Mentor.is_mentor());
    assert!(!BondKind::SwornBrothers.is_companion_class());
}

#[test]
fn enemy_classifies_four_variants() {
    assert!(BondKind::BloodEnemy.is_enemy());
    assert!(BondKind::ArchRival.is_enemy());
    assert!(BondKind::Betrayer.is_enemy());
    assert!(BondKind::Oppressor.is_enemy());
    assert!(!BondKind::Mentor.is_enemy());
}

#[test]
fn each_variant_belongs_to_exactly_one_region() {
    let all = [
        BondKind::SwornBrothers,
        BondKind::MasterDisciple,
        BondKind::Soulmate,
        BondKind::LoyalRetainer,
        BondKind::Companion,
        BondKind::Guardian,
        BondKind::Mentor,
        BondKind::BloodEnemy,
        BondKind::ArchRival,
        BondKind::Betrayer,
        BondKind::Oppressor,
    ];
    for k in all {
        let n = [k.is_zhiji(), k.is_companion_class(), k.is_guardian(), k.is_mentor(), k.is_enemy()]
            .iter()
            .filter(|b| **b)
            .count();
        assert_eq!(n, 1, "variant {:?} should belong to exactly one region", k);
    }
}

#[test]
fn active_and_reactivating_accept_live_input() {
    assert!(BondStatus::Active.accepts_live_input());
    assert!(BondStatus::Reactivating { trigger: EventId("evt_001".into()) }.accepts_live_input());
}

#[test]
fn dormant_resolved_deceased_block_live_input() {
    assert!(!BondStatus::Dormant.accepts_live_input());
    assert!(!BondStatus::Resolved { reason: "사화".into() }.accepts_live_input());
    assert!(!BondStatus::Deceased.accepts_live_input());
}

#[test]
fn default_is_active() {
    assert_eq!(BondStatus::default(), BondStatus::Active);
}

#[test]
fn copy_and_eq_work() {
    let a = Partnership::Spouse;
    let b = a;
    assert_eq!(a, b);
}

#[test]
fn hash_in_set() {
    let mut s = HashSet::new();
    s.insert(Partnership::Spouse);
    s.insert(Partnership::Engaged);
    assert!(s.contains(&Partnership::Spouse));
    assert!(!s.contains(&Partnership::Lover));
}

#[test]
fn is_negative_emotion_classifies_11_emotions() {
    for e in [
        EmotionType::Anger,
        EmotionType::Reproach,
        EmotionType::Resentment,
        EmotionType::Gloating,
        EmotionType::Hate,
        EmotionType::Distress,
        EmotionType::Fear,
        EmotionType::Disappointment,
        EmotionType::FearsConfirmed,
        EmotionType::Shame,
        EmotionType::Remorse,
    ] {
        assert!(is_negative_emotion(e), "{:?} must be negative", e);
    }

    for e in [
        EmotionType::Joy,
        EmotionType::Gratitude,
        EmotionType::Admiration,
        EmotionType::HappyFor,
        EmotionType::Pity,
        EmotionType::Pride,
        EmotionType::Love,
        EmotionType::Hope,
        EmotionType::Satisfaction,
        EmotionType::Relief,
        EmotionType::Gratification,
    ] {
        assert!(!is_negative_emotion(e), "{:?} must NOT be negative", e);
    }
}

#[test]
fn base_delta_gratitude() {
    assert_eq!(base_delta(EmotionType::Gratitude), AxisDelta { trust: 20, affinity: 10, respect: 0, wariness: -10 });
}

#[test]
fn base_delta_anger() {
    assert_eq!(base_delta(EmotionType::Anger), AxisDelta { trust: -25, affinity: -10, respect: 0, wariness: 25 });
}

#[test]
fn base_delta_admiration() {
    assert_eq!(base_delta(EmotionType::Admiration), AxisDelta { trust: 0, affinity: 0, respect: 20, wariness: 0 });
}

#[test]
fn base_delta_reproach() {
    assert_eq!(base_delta(EmotionType::Reproach), AxisDelta { trust: -10, affinity: -10, respect: -25, wariness: 10 });
}

#[test]
fn base_delta_love_and_hate() {
    assert_eq!(base_delta(EmotionType::Love), AxisDelta { trust: 5, affinity: 20, respect: 5, wariness: -5 });
    assert_eq!(base_delta(EmotionType::Hate), AxisDelta { trust: -10, affinity: -25, respect: -5, wariness: 15 });
}

#[test]
fn base_delta_well_being_and_prospect_default_to_zero() {
    for e in [
        EmotionType::Joy,
        EmotionType::Distress,
        EmotionType::Hope,
        EmotionType::Fear,
        EmotionType::Satisfaction,
        EmotionType::Disappointment,
        EmotionType::Relief,
        EmotionType::FearsConfirmed,
        EmotionType::Remorse,
        EmotionType::Gratification,
    ] {
        assert_eq!(base_delta(e), AxisDelta { trust: 0, affinity: 0, respect: 0, wariness: 0 }, "{:?}", e);
    }
}

#[test]
fn base_delta_sum_anger_hate_reproach_matches_s2() {
    let parts = [base_delta(EmotionType::Anger), base_delta(EmotionType::Hate), base_delta(EmotionType::Reproach)];
    let sum = AxisDelta {
        trust: parts.iter().map(|d| d.trust).sum(),
        affinity: parts.iter().map(|d| d.affinity).sum(),
        respect: parts.iter().map(|d| d.respect).sum(),
        wariness: parts.iter().map(|d| d.wariness).sum(),
    };
    assert_eq!(sum, AxisDelta { trust: -45, affinity: -45, respect: -30, wariness: 50 });
}

#[test]
fn emotion_branches() {
    assert_eq!(EmotionType::Joy.branch(), EmotionBranch::Event);
    assert_eq!(EmotionType::FearsConfirmed.branch(), EmotionBranch::Event);
    assert_eq!(EmotionType::Anger.branch(), EmotionBranch::Action);
    assert_eq!(EmotionType::Gratitude.branch(), EmotionBranch::Action);
    assert_eq!(EmotionType::Love.branch(), EmotionBranch::Object);
    assert_eq!(EmotionType::Hate.branch(), EmotionBranch::Object);
}

#[test]
fn emotion_base_valence() {
    assert_eq!(f32::from_bits(EmotionType::Joy.base_valence()), 1.0);
    assert_eq!(f32::from_bits(EmotionType::Anger.base_valence()), -1.0);
    assert_eq!(f32::from_bits(EmotionType::Gloating.base_valence()), 0.5);
    assert_eq!(f32::from_bits(EmotionType::Resentment.base_valence()), -0.5);
}

#[test]
fn axis_kinds_and_type_changes_compare_by_value() {
    assert_ne!(AxisKind::Trust, AxisKind::Wariness);
    let c = TypeChange { from_type: "friend".into(), to_type: "sworn".into(), note: "의형제 결연".into() };
    assert_eq!(c.clone(), c);
}

#[test]
fn base_delta_happy_for() {
    assert_eq!(base_delta(EmotionType::HappyFor), AxisDelta { trust: 5, affinity: 10, respect: 0, wariness: 0 });
}

#[test]
fn base_delta_resentment() {
    assert_eq!(base_delta(EmotionType::Resentment), AxisDelta { trust: 0, affinity: -10, respect: -5, wariness: 15 });
}

#[test]
fn base_delta_pity() {
    assert_eq!(base_delta(EmotionType::Pity), AxisDelta { trust: 0, affinity: 10, respect: -5, wariness: 0 });
}

#[test]
fn base_delta_gloating() {
    assert_eq!(base_delta(EmotionType::Gloating), AxisDelta { trust: -10, affinity: -20, respect: -10, wariness: 0 });
}

#[test]
fn base_delta_pride() {
    assert_eq!(base_delta(EmotionType::Pride), AxisDelta { trust: 0, affinity: 5, respect: 10, wariness: 0 });
}

#[test]
fn base_delta_shame() {
    assert_eq!(base_delta(EmotionType::Shame), AxisDelta { trust: -5, affinity: -10, respect: -10, wariness: 5 });
}

#[test]
fn base_delta_love() {
    assert_eq!(base_delta(EmotionType::Love), AxisDelta { trust: 5, affinity: 20, respect: 5, wariness: -5 });
}

#[test]
fn base_delta_hate() {
    assert_eq!(base_delta(EmotionType::Hate), AxisDelta { trust: -10, affinity: -25, respect: -5, wariness: 15 });
}
