use npc_mind::world::person::{HexacoSix, Person, PersonStatus};

#[test]
fn person_new_sets_defaults() {
    let p = Person::new("npc-test", "active", "테스트");
    assert_eq!(p.id.as_str(), "npc-test");
    assert_eq!(p.kind, "active");
    assert_eq!(p.name, "테스트");
    assert!(p.aliases.is_empty());
    assert_eq!(p.status, PersonStatus::Alive);
    assert_eq!(p.hexaco, HexacoSix::neutral());
    assert!(p.affiliation.is_empty());
    assert!(p.is_mind_eligible());
}

#[test]
fn person_status_from_str_loose() {
    assert_eq!(PersonStatus::from_str_loose("Alive"), Some(PersonStatus::Alive));
    assert_eq!(PersonStatus::from_str_loose(" missing "), Some(PersonStatus::Missing));
    assert_eq!(PersonStatus::from_str_loose("dead"), Some(PersonStatus::Dead));
    assert_eq!(PersonStatus::from_str_loose("invalid"), None);
}

#[test]
fn hexaco_six_neutral_all_zero() {
    let h = HexacoSix::neutral();
    assert_eq!(f32::from_bits(h.honesty_humility), 0.0);
    assert_eq!(f32::from_bits(h.emotionality), 0.0);
    assert_eq!(f32::from_bits(h.extraversion), 0.0);
    assert_eq!(f32::from_bits(h.agreeableness), 0.0);
    assert_eq!(f32::from_bits(h.conscientiousness), 0.0);
    assert_eq!(f32::from_bits(h.openness), 0.0);
}

#[test]
fn is_mind_eligible_only_active_or_player() {
    let mut p = Person::new("npc-x", "active", "X");
    assert!(p.is_mind_eligible());
    p.kind = "player".into();
    assert!(p.is_mind_eligible());
    p.kind = "historical".into();
    assert!(!p.is_mind_eligible());
    p.kind = "legendary".into();
    assert!(!p.is_mind_eligible());
    p.kind = "unknown".into();
    assert!(!p.is_mind_eligible());
}

#[test]
fn mind_eligibility_is_exact_and_case_sensitive() {
    let mut p = Person::new("npc-x", "Active", "X");
    assert!(!p.is_mind_eligible());
    p.kind = " player".into();
    assert!(!p.is_mind_eligible());
}
