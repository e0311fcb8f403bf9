use npc_mind::emotion::scene::{ConditionThreshold, EmotionCondition, FocusTrigger, Scene, SceneFocus};
use npc_mind::emotion::{
    Emotion, EmotionState, EmotionType, EventFocus, PriorExpectation, ProspectResult, SituationError,
};

fn bits(x: f32) -> u32 {
    x.to_bits()
}

fn state(items: &[(EmotionType, f32)]) -> EmotionState {
    let mut s = EmotionState::new();
    for (t, x) in items {
        s.set_intensity(*t, bits(*x));
    }
    s
}

fn focus(id: &str, trigger: FocusTrigger) -> SceneFocus {
    SceneFocus {
        id: id.into(),
        description: format!("{id} beat"),
        trigger,
        event: Some(EventFocus {
            description: "something happened".into(),
            desirability_for_self: bits(0.5),
            desirability_for_other: None,
            prospect: None,
        }),
        action: None,
        object: None,
    }
}

fn above(t: EmotionType, x: f32) -> EmotionCondition {
    EmotionCondition { emotion: t, threshold: ConditionThreshold::Above(bits(x)) }
}

#[test]
fn emotion_new_clamps_intensity_to_unit_range() {
    assert_eq!(Emotion::new(EmotionType::Joy, bits(1.7)).intensity(), bits(1.0));
    assert_eq!(Emotion::new(EmotionType::Joy, bits(-0.3)).intensity(), bits(0.0));
    assert_eq!(Emotion::new(EmotionType::Joy, bits(0.25)).intensity(), bits(0.25));
    assert_eq!(Emotion::new(EmotionType::Fear, bits(0.25)).emotion_type(), EmotionType::Fear);
}

#[test]
fn emotion_is_significant_at_threshold() {
    let e = Emotion::new(EmotionType::Anger, bits(0.2));
    assert!(e.is_significant(bits(0.2)));
    assert!(!e.is_significant(bits(0.3)));
}

#[test]
fn intensity_of_absent_emotion_is_zero() {
    let s = state(&[(EmotionType::Joy, 0.4)]);
    assert_eq!(s.intensity_of(EmotionType::Joy), bits(0.4));
    assert_eq!(s.intensity_of(EmotionType::Fear), 0);
}

#[test]
fn dominant_picks_last_of_equally_strong() {
    assert!(EmotionState::new().dominant().is_none());
    let s = state(&[(EmotionType::Joy, 0.4), (EmotionType::Fear, 0.7), (EmotionType::Anger, 0.7), (EmotionType::Pity, 0.1)]);
    assert_eq!(s.dominant().unwrap().emotion_type(), EmotionType::Anger);
}

#[test]
fn significant_sorts_strongest_first_and_keeps_ties_in_order() {
    let s = state(&[
        (EmotionType::Joy, 0.3),
        (EmotionType::Fear, 0.1),
        (EmotionType::Anger, 0.8),
        (EmotionType::Pity, 0.3),
        (EmotionType::Hope, 0.5),
    ]);
    let r: Vec<EmotionType> = s.significant(bits(0.2)).iter().map(|e| e.emotion_type()).collect();
    assert_eq!(r, vec![EmotionType::Anger, EmotionType::Hope, EmotionType::Joy, EmotionType::Pity]);
}

#[test]
fn conditions_compare_strictly() {
    let s = state(&[(EmotionType::Anger, 0.5)]);
    assert!(above(EmotionType::Anger, 0.4).is_met(&s));
    assert!(!above(EmotionType::Anger, 0.5).is_met(&s));
    let below = EmotionCondition { emotion: EmotionType::Anger, threshold: ConditionThreshold::Below(bits(0.5)) };
    assert!(!below.is_met(&s));
    let absent = EmotionCondition { emotion: EmotionType::Fear, threshold: ConditionThreshold::Absent };
    assert!(absent.is_met(&s));
    let absent_anger = EmotionCondition { emotion: EmotionType::Anger, threshold: ConditionThreshold::Absent };
    assert!(!absent_anger.is_met(&s));
}

#[test]
fn trigger_is_any_of_all() {
    let s = state(&[(EmotionType::Anger, 0.5), (EmotionType::Fear, 0.1)]);
    let t = FocusTrigger::Conditions(vec![
        vec![above(EmotionType::Anger, 0.4), above(EmotionType::Fear, 0.4)],
        vec![above(EmotionType::Anger, 0.3)],
    ]);
    assert!(t.is_met(&s));
    let t2 = FocusTrigger::Conditions(vec![vec![above(EmotionType::Anger, 0.4), above(EmotionType::Fear, 0.4)]]);
    assert!(!t2.is_met(&s));
    assert!(!FocusTrigger::Initial.is_met(&s));
    assert!(FocusTrigger::Conditions(vec![vec![]]).is_met(&s));
    assert!(!FocusTrigger::Conditions(vec![]).is_met(&s));
}

#[test]
fn scene_defaults_and_clamped_significance() {
    let s = Scene::new("npc".into(), "pc".into(), vec![]);
    assert_eq!(s.npc_id(), "npc");
    assert_eq!(s.partner_id(), "pc");
    assert_eq!(s.significance(), bits(0.5));
    assert!(s.active_focus_id().is_none());
    let t = Scene::with_significance("npc".into(), "pc".into(), vec![], bits(3.0));
    assert_eq!(t.significance(), bits(1.0));
}

#[test]
fn check_trigger_skips_the_active_focus() {
    let foci = vec![
        focus("start", FocusTrigger::Initial),
        focus("angry", FocusTrigger::Conditions(vec![vec![above(EmotionType::Anger, 0.4)]])),
        focus("angrier", FocusTrigger::Conditions(vec![vec![above(EmotionType::Anger, 0.2)]])),
    ];
    let mut scene = Scene::new("npc".into(), "pc".into(), foci);
    assert_eq!(scene.initial_focus().unwrap().id, "start");
    let s = state(&[(EmotionType::Anger, 0.5)]);
    assert_eq!(scene.check_trigger(&s).unwrap().id, "angry");
    scene.set_active_focus("angry".into());
    assert_eq!(scene.active_focus_id(), Some("angry"));
    assert_eq!(scene.check_trigger(&s).unwrap().id, "angrier");
    scene.set_active_focus("angrier".into());
    assert_eq!(scene.check_trigger(&s).unwrap().id, "angry");
    let calm = state(&[(EmotionType::Joy, 0.5)]);
    assert!(scene.check_trigger(&calm).is_none());
}

#[test]
fn focus_without_branches_has_no_situation() {
    let mut f = focus("empty", FocusTrigger::Initial);
    f.event = None;
    assert_eq!(f.to_situation().unwrap_err(), SituationError::NoFocus);
    let g = focus("full", FocusTrigger::Initial);
    let sit = g.to_situation().unwrap();
    assert_eq!(sit.description, "full beat");
    assert_eq!(sit.event.unwrap().desirability_for_self, bits(0.5));
}

#[test]
fn settled_expectations_give_confirmation_emotions() {
    let cases = [
        (PriorExpectation::HopeFulfilled, EmotionType::Satisfaction, true),
        (PriorExpectation::HopeUnfulfilled, EmotionType::Disappointment, false),
        (PriorExpectation::FearUnrealized, EmotionType::Relief, true),
        (PriorExpectation::FearConfirmed, EmotionType::FearsConfirmed, false),
    ];
    for (e, t, good) in cases {
        let o = e.outcome();
        assert_eq!(o.confirmation_emotion(), t);
        assert_eq!(o.is_favourable(), good);
    }
    assert_eq!(PriorExpectation::FearConfirmed.outcome(), ProspectResult::FearConfirmed);
}

#[test]
fn set_intensity_replaces_or_appends_and_remove_drops() {
    let mut s = state(&[(EmotionType::Joy, 0.4), (EmotionType::Fear, 0.2)]);
    s.set_intensity(EmotionType::Joy, bits(0.9));
    s.set_intensity(EmotionType::Anger, bits(1.4));
    let types: Vec<EmotionType> = s.emotions().iter().map(|e| e.emotion_type()).collect();
    assert_eq!(types, vec![EmotionType::Joy, EmotionType::Fear, EmotionType::Anger]);
    assert_eq!(s.intensity_of(EmotionType::Joy), bits(0.9));
    assert_eq!(s.intensity_of(EmotionType::Anger), bits(1.0));
    let copy = s.clone();
    s.remove(EmotionType::Fear);
    s.remove(EmotionType::Pity);
    let types: Vec<EmotionType> = s.emotions().iter().map(|e| e.emotion_type()).collect();
    assert_eq!(types, vec![EmotionType::Joy, EmotionType::Anger]);
    assert_eq!(copy.emotions().len(), 3);
}

#[test]
fn scene_clone_keeps_everything() {
    let mut scene = Scene::with_significance("npc".into(), "pc".into(), vec![focus("start", FocusTrigger::Initial)], bits(-2.0));
    scene.set_active_focus("start".into());
    let copy = scene.clone();
    assert_eq!(copy.npc_id(), "npc");
    assert_eq!(copy.partner_id(), "pc");
    assert_eq!(copy.focuses().len(), 1);
    assert_eq!(copy.active_focus_id(), Some("start"));
    assert_eq!(copy.significance(), bits(0.0));
}

#[test]
fn emotion_intensity_is_always_in_unit_range_nan_included() {
    let e = Emotion::new(EmotionType::Joy, bits(f32::NAN));
    let x = f32::from_bits(e.intensity());
    assert!((0.0..=1.0).contains(&x));
    assert_eq!(x, 0.0);
    assert_eq!(f32::from_bits(Emotion::new(EmotionType::Joy, bits(1.7)).intensity()), 1.0);
    assert_eq!(f32::from_bits(Emotion::new(EmotionType::Joy, bits(-0.2)).intensity()), 0.0);
    let s = state(&[(EmotionType::Joy, 0.4), (EmotionType::Fear, f32::NAN)]);
    assert_eq!(s.dominant().unwrap().emotion_type(), EmotionType::Joy);
}
