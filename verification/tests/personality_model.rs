use npc_mind::personality::{
    HexacoProfile, HonestyHumility, Npc, NpcBuilder, PersonalityError, Score, SCORE_MAX, SCORE_MIN,
};

fn b(x: f32) -> u32 {
    x.to_bits()
}

fn s(v: f32) -> Score {
    Score::new(b(v), "test").expect("in range")
}

#[test]
fn score_clamped_caps_value_above_max() {
    assert_eq!(Score::clamped(b(2.5)).value(), SCORE_MAX);
}

#[test]
fn score_clamped_caps_value_below_min() {
    assert_eq!(Score::clamped(b(-3.0)).value(), SCORE_MIN);
}

#[test]
fn score_new_accepts_bounds_and_refuses_beyond() {
    assert_eq!(s(1.0).value(), b(1.0));
    assert_eq!(s(-1.0).value(), b(-1.0));
    match Score::new(b(1.5), "modesty") {
        Err(PersonalityError::ScoreOutOfRange { field, value, min, max }) => {
            assert_eq!(field, "modesty");
            assert_eq!(value, b(1.5));
            assert_eq!(min, b(-1.0));
            assert_eq!(max, b(1.0));
        }
        Ok(_) => panic!("1.5 is out of range"),
    }
    assert!(Score::new(b(f32::NAN), "x").is_err());
}

#[test]
fn score_intensity_is_absolute_value() {
    assert_eq!(s(-0.75).intensity(), b(0.75));
    assert_eq!(s(0.25).intensity(), b(0.25));
    assert_eq!(Score::neutral().value(), b(0.0));
}

#[test]
fn neutral_profile_has_zero_facets() {
    let p = HexacoProfile::neutral();
    assert_eq!(p.honesty_humility.modesty.value(), 0);
    assert_eq!(p.openness.unconventionality.value(), 0);
}

#[test]
fn npc_new_defaults_inner_compass_to_none() {
    let npc = Npc::new("a", "Alice", "desc", HexacoProfile::neutral());
    assert_eq!(npc.inner_compass(), None);
    assert_eq!(npc.compass_short_label(), None);
    assert_eq!(npc.id(), "a");
    assert_eq!(npc.name(), "Alice");
    assert_eq!(npc.description(), "desc");
}

#[test]
fn npc_builder_with_inner_compass_sets_compass() {
    let npc = NpcBuilder::new("lin", "임충").with_inner_compass("협지대자 위국위민").build();
    assert_eq!(npc.inner_compass(), Some("협지대자 위국위민"));
    assert_eq!(npc.compass_short_label(), Some("협지대자 위국위민"));
}

#[test]
fn npc_compass_short_label_is_alias_for_inner_compass_in_phase1() {
    let npc = NpcBuilder::new("g", "곽정")
        .with_inner_compass("매우 길고 긴 가치 한 줄로 prompt token 부풀릴 수 있는 케이스")
        .build();
    assert_eq!(npc.inner_compass(), npc.compass_short_label());
}

#[test]
fn npc_builder_sets_description_and_dimensions() {
    let h = HonestyHumility { sincerity: s(0.8), fairness: s(0.7), greed_avoidance: s(0.6), modesty: s(0.5) };
    let npc = NpcBuilder::new("m", "무백").description("검객").honesty_humility(h).build();
    assert_eq!(npc.description(), "검객");
    assert_eq!(npc.personality().honesty_humility.sincerity.value(), b(0.8));
    assert_eq!(npc.personality().emotionality.anxiety.value(), 0);
}
