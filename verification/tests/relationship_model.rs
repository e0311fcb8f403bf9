use npc_mind::emotion::EmotionType;
use npc_mind::personality::{HexacoProfile, Score};
use npc_mind::relationship::axis::{AxisScore, WarinessScore};
use npc_mind::relationship::mapping::HexacoRules;
use npc_mind::relationship::bond::{BondKind, BondStatus};
use npc_mind::relationship::partnership::Partnership;
use npc_mind::relationship::{Relationship, RelationshipBuilder, TypeChange};

fn v(bits: u32) -> f32 {
    f32::from_bits(bits)
}

fn axis(x: f32) -> AxisScore {
    AxisScore::new(x.to_bits())
}

fn wary(x: f32) -> WarinessScore {
    WarinessScore::new(x.to_bits())
}

#[test]
fn new_initializes_4_axes_and_defaults() {
    let r = Relationship::new("a", "b", axis(50.0), axis(40.0), axis(30.0), wary(20.0));
    assert_eq!(v(r.trust().value()), 50.0);
    assert_eq!(v(r.affinity().value()), 40.0);
    assert_eq!(v(r.respect().value()), 30.0);
    assert_eq!(v(r.wariness().value()), 20.0);
    assert_eq!(r.bond_kind(), None);
    assert_eq!(r.bond_status(), &BondStatus::Active);
    assert_eq!(r.partnership(), None);
    assert_eq!(r.type_text(), "");
    assert!(r.type_history().is_empty());
}

#[test]
fn neutral_signature_preserved_and_zero_axes() {
    let r = Relationship::neutral("a", "b");
    assert_eq!(v(r.trust().value()), 0.0);
    assert_eq!(v(r.affinity().value()), 0.0);
    assert_eq!(v(r.respect().value()), 0.0);
    assert_eq!(v(r.wariness().value()), 0.0);
    assert_eq!(r.bond_kind(), None);
    assert_eq!(r.bond_status(), &BondStatus::Active);
    assert_eq!(r.partnership(), None);
    assert!(r.type_text().is_empty());
    assert!(r.type_history().is_empty());
}

#[test]
fn builder_chain_4_axes() {
    let r = RelationshipBuilder::new("a", "b")
        .trust(axis(50.0))
        .affinity(axis(40.0))
        .respect(axis(30.0))
        .wariness(wary(20.0))
        .build();
    assert_eq!(v(r.trust().value()), 50.0);
    assert_eq!(v(r.affinity().value()), 40.0);
    assert_eq!(v(r.respect().value()), 30.0);
    assert_eq!(v(r.wariness().value()), 20.0);
    assert_eq!(r.bond_kind(), None);
    assert_eq!(r.bond_status(), &BondStatus::Active);
}

#[test]
fn builder_partial_setters_apply_defaults() {
    let r = RelationshipBuilder::new("a", "b").trust(axis(50.0)).build();
    assert_eq!(v(r.trust().value()), 50.0);
    assert_eq!(v(r.affinity().value()), 0.0);
    assert_eq!(v(r.respect().value()), 0.0);
    assert_eq!(v(r.wariness().value()), 0.0);
}

#[test]
fn builder_bond_kind_wraps_in_some() {
    let r = RelationshipBuilder::new("a", "b").bond_kind(BondKind::SwornBrothers).build();
    assert_eq!(r.bond_kind(), Some(BondKind::SwornBrothers));
}

#[test]
fn builder_partnership_wraps_in_some() {
    let r = RelationshipBuilder::new("a", "b").partnership(Partnership::Spouse).build();
    assert_eq!(r.partnership(), Some(Partnership::Spouse));
}

#[test]
fn builder_type_text_and_history() {
    let history = vec![TypeChange { from_type: "동료".into(), to_type: "원수".into(), note: "산신묘 사건".into() }];
    let r = RelationshipBuilder::new("a", "b").type_text("의형제").type_history(history.clone()).build();
    assert_eq!(r.type_text(), "의형제");
    assert_eq!(r.type_history(), history.as_slice());
}

#[test]
fn builder_full_chain_all_fields() {
    let r = RelationshipBuilder::new("a", "b")
        .trust(axis(50.0))
        .affinity(axis(60.0))
        .respect(axis(40.0))
        .wariness(wary(10.0))
        .bond_kind(BondKind::SwornBrothers)
        .bond_status(BondStatus::Active)
        .partnership(Partnership::Lover)
        .type_text("의형제이자 연인")
        .build();
    assert_eq!(v(r.trust().value()), 50.0);
    assert_eq!(v(r.affinity().value()), 60.0);
    assert_eq!(v(r.respect().value()), 40.0);
    assert_eq!(v(r.wariness().value()), 10.0);
    assert_eq!(r.bond_kind(), Some(BondKind::SwornBrothers));
    assert_eq!(r.bond_status(), &BondStatus::Active);
    assert_eq!(r.partnership(), Some(Partnership::Lover));
    assert_eq!(r.type_text(), "의형제이자 연인");
}

#[test]
fn axis_score_clamps_at_upper_bound() {
    assert_eq!(v(axis(150.0).value()), 100.0);
}

#[test]
fn axis_score_clamps_at_lower_bound() {
    assert_eq!(v(axis(-200.0).value()), -100.0);
}

#[test]
fn axis_score_normal_value_preserved() {
    assert_eq!(v(axis(50.0).value()), 50.0);
}

#[test]
fn wariness_score_floors_at_zero() {
    assert_eq!(v(wary(-50.0).value()), 0.0);
}

#[test]
fn wariness_score_caps_at_hundred() {
    assert_eq!(v(wary(150.0).value()), 100.0);
}

#[test]
fn neutral_consts_are_zero() {
    assert_eq!(v(AxisScore::neutral().value()), 0.0);
    assert_eq!(v(WarinessScore::neutral().value()), 0.0);
}

#[test]
fn default_equals_neutral() {
    assert_eq!(AxisScore::default(), AxisScore::neutral());
    assert_eq!(WarinessScore::default(), WarinessScore::neutral());
}

#[test]
fn bond_status_survives_the_builder() {
    let r = RelationshipBuilder::new("a", "b").bond_status(BondStatus::Deceased).build();
    assert_eq!(r.bond_status(), &BondStatus::Deceased);
    assert_eq!(r.owner_id(), "a");
    assert_eq!(r.target_id(), "b");
}

#[test]
fn hexaco_rules_fire_on_strong_facets() {
    let neutral = HexacoProfile::neutral();
    let none = HexacoRules::of(EmotionType::Anger, &neutral);
    assert_eq!(
        none,
        HexacoRules { sincere: false, patient: false, unforgiving: false, anxious: false, prudent: false }
    );
    let mut p = HexacoProfile::neutral();
    p.honesty_humility.sincerity = Score::new(0.7f32.to_bits(), "").unwrap();
    p.agreeableness.forgiveness = Score::new((-0.7f32).to_bits(), "").unwrap();
    p.conscientiousness.prudence = Score::new(0.8f32.to_bits(), "").unwrap();
    let anger = HexacoRules::of(EmotionType::Anger, &p);
    assert!(anger.sincere && anger.unforgiving && anger.prudent);
    assert!(!anger.patient && !anger.anxious);
    let gratitude = HexacoRules::of(EmotionType::Gratitude, &p);
    assert!(!gratitude.unforgiving);
    p.agreeableness.patience = Score::new(0.5f32.to_bits(), "").unwrap();
    assert!(!HexacoRules::of(EmotionType::Anger, &p).patient);
}

#[test]
fn axes_move_only_on_a_live_bond() {
    let b = |x: f32| x.to_bits();
    let mut live = RelationshipBuilder::new("a", "b").build();
    assert!(live.move_axes_if_live(AxisScore::new(b(10.0)), AxisScore::new(b(20.0)), AxisScore::new(b(30.0)), WarinessScore::new(b(40.0))));
    assert_eq!(f32::from_bits(live.trust().value()), 10.0);
    assert_eq!(f32::from_bits(live.wariness().value()), 40.0);
    let mut dormant = RelationshipBuilder::new("a", "b").bond_status(BondStatus::Dormant).build();
    assert!(!dormant.move_axes_if_live(AxisScore::new(b(10.0)), AxisScore::new(b(20.0)), AxisScore::new(b(30.0)), WarinessScore::new(b(40.0))));
    assert_eq!(f32::from_bits(dormant.trust().value()), 0.0);
}
