use npc_mind::guide::snapshot::{LevelThresholds, RelationshipLevel};
use npc_mind::tuning::{TuningProfile, DAY_MS};

#[test]
fn day_ms_is_one_day_in_milliseconds() {
    assert_eq!(DAY_MS, 24 * 60 * 60 * 1000);
}

#[test]
fn default_profile_passes_validate() {
    let p = TuningProfile::default();
    p.validate().expect("default must be valid");
}

#[test]
fn default_profile_holds_the_documented_values() {
    let p = TuningProfile::default();
    let f = f32::from_bits;
    assert_eq!(f(p.stimulus_impact_rate), 0.5);
    assert_eq!(f(p.stimulus_fade_threshold), 0.05);
    assert_eq!(f(p.trait_threshold), 0.3);
    assert_eq!(f(p.emotion_threshold), 0.2);
    assert_eq!(f(p.level_very_low_threshold), -60.0);
    assert_eq!(f(p.level_low_threshold), -20.0);
    assert_eq!(f(p.level_high_threshold), 20.0);
    assert_eq!(f(p.level_very_high_threshold), 60.0);
    assert_eq!(f(p.llm_temp_max), 1.1);
    assert_eq!(f(p.source_w_rumor), 0.35);
    assert_eq!(f(p.decay_tau_default_days), 30.0);
    assert_eq!(f(p.memory_relationship_delta_threshold), 0.05);
    assert_eq!(p.scene_task_channel_capacity, 32);
    assert_eq!(p.memory_push_top_k, 5);
    assert_eq!(p.memory_prompt_token_budget, 400);
}

#[test]
fn level_thresholds_centered_around_zero() {
    let p = TuningProfile::default();
    assert!((f32::from_bits(p.level_high_threshold) + f32::from_bits(p.level_low_threshold)).abs() < 1e-6);
    assert!((f32::from_bits(p.level_very_high_threshold) + f32::from_bits(p.level_very_low_threshold)).abs() < 1e-6);
}

#[test]
fn source_weights_in_unit_range() {
    let p = TuningProfile::default();
    for w in [p.source_w_experienced, p.source_w_witnessed, p.source_w_heard, p.source_w_rumor] {
        let w = f32::from_bits(w);
        assert!(w > 0.0 && w <= 1.0, "source weight {w} out of (0, 1]");
    }
}

#[test]
fn mood_emotion_trait_thresholds_in_unit_range() {
    let p = TuningProfile::default();
    for t in [p.mood_threshold, p.emotion_threshold, p.trait_threshold, p.honesty_restriction_threshold] {
        let t = f32::from_bits(t);
        assert!(t > 0.0 && t < 1.0, "threshold {t} out of (0, 1)");
    }
}

#[test]
fn validate_catches_invalid_stimulus_rate() {
    let mut p = TuningProfile::default();
    p.stimulus_impact_rate = 1.5f32.to_bits();
    assert!(p.validate().is_err());
}

#[test]
fn validate_catches_inverted_levels() {
    let mut p = TuningProfile::default();
    // Above the very-high boundary (60 on the ±100 score scale).
    p.level_high_threshold = 80.0f32.to_bits();
    assert!(p.validate().is_err());
}

#[test]
fn validate_reports_the_first_broken_rule() {
    let mut p = TuningProfile::default();
    p.stimulus_impact_rate = 1.0f32.to_bits();
    assert_eq!(p.validate(), Ok(()));
    p.stimulus_impact_rate = 0.0f32.to_bits();
    assert_eq!(p.validate(), Err("stimulus_impact_rate must be in (0, 1]"));
    p.stimulus_impact_rate = f32::NAN.to_bits();
    assert_eq!(p.validate(), Err("stimulus_impact_rate must be in (0, 1]"));
    let mut q = TuningProfile::default();
    q.memory_push_top_k = 0;
    q.scene_task_channel_capacity = 0;
    assert_eq!(q.validate(), Err("memory_push_top_k must be > 0"));
    let mut r = TuningProfile::default();
    r.source_w_heard = r.source_w_witnessed;
    assert_eq!(r.validate(), Err("source weights must be strictly decreasing: Exp > Wit > Heard > Rumor"));
    let mut s = TuningProfile::default();
    s.llm_base_top_p = s.llm_top_p_max;
    assert_eq!(s.validate(), Ok(()));
    s.scene_task_channel_capacity = 0;
    assert_eq!(s.validate(), Err("scene_task_channel_capacity must be > 0"));
}

#[test]
fn default_levels_read_scores_on_the_hundred_point_scale() {
    let p = TuningProfile::default();
    let th = LevelThresholds {
        very_high: p.level_very_high_threshold,
        high: p.level_high_threshold,
        low: p.level_low_threshold,
        very_low: p.level_very_low_threshold,
    };
    assert_eq!(RelationshipLevel::from_score(10.0f32.to_bits(), &th), RelationshipLevel::Neutral);
    assert_eq!(RelationshipLevel::from_score(61.0f32.to_bits(), &th), RelationshipLevel::VeryHigh);
    assert_eq!(RelationshipLevel::from_score((-30.0f32).to_bits(), &th), RelationshipLevel::Low);
}
