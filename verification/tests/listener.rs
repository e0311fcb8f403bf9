use std::str::FromStr;

use npc_mind::listener_perspective::prefilter::{CategoryDef, Prefilter};
use npc_mind::listener_perspective::prototype::{Prototype, PrototypeSet};
use npc_mind::listener_perspective::choice::{pick_magnitude, pick_sign};
use npc_mind::listener_perspective::types::{ListenerPerspectiveError, Magnitude, Sign};

#[test]
fn sign_from_str_valid() {
    assert_eq!(Sign::from_str("keep").unwrap(), Sign::Keep);
    assert_eq!(Sign::from_str("invert").unwrap(), Sign::Invert);
}

#[test]
fn sign_from_str_invalid() {
    assert!(matches!(Sign::from_str("flip").unwrap_err(), ListenerPerspectiveError::InvalidSign(_)));
}

#[test]
fn sign_as_f32() {
    assert_eq!(f32::from_bits(Sign::Keep.as_f32()), 1.0);
    assert_eq!(f32::from_bits(Sign::Invert.as_f32()), -1.0);
}

#[test]
fn magnitude_from_str_valid() {
    assert_eq!(Magnitude::from_str("weak").unwrap(), Magnitude::Weak);
    assert_eq!(Magnitude::from_str("normal").unwrap(), Magnitude::Normal);
    assert_eq!(Magnitude::from_str("strong").unwrap(), Magnitude::Strong);
}

#[test]
fn magnitude_from_str_invalid() {
    assert!(matches!(Magnitude::from_str("medium").unwrap_err(), ListenerPerspectiveError::InvalidMagnitude(_)));
}

#[test]
fn parse_through_the_std_trait() {
    assert_eq!("invert".parse::<Sign>().unwrap(), Sign::Invert);
    assert_eq!("weak".parse::<Magnitude>().unwrap(), Magnitude::Weak);
    assert!("Keep".parse::<Sign>().is_err());
}

#[test]
fn names_read_back() {
    for s in [Sign::Keep, Sign::Invert] {
        assert_eq!(Sign::from_str(s.as_str()).unwrap(), s);
    }
    for m in [Magnitude::Weak, Magnitude::Normal, Magnitude::Strong] {
        assert_eq!(Magnitude::from_str(m.as_str()).unwrap(), m);
    }
}

#[test]
fn error_messages() {
    assert_eq!(
        ListenerPerspectiveError::InvalidSign("flip".into()).to_string(),
        "알 수 없는 sign: 'flip' (허용: keep|invert)"
    );
    assert_eq!(ListenerPerspectiveError::EmptyPrototypes("sign_keep".into()).to_string(), "프로토타입 세트가 비어있음 (group=sign_keep)");
    assert_eq!(
        ListenerPerspectiveError::PatternCompile { category: "x".into(), pattern: "[".into(), reason: "bad".into() }
            .to_string(),
        "프리필터 정규식 컴파일 실패 (카테고리 'x', 패턴 '['): bad"
    );
    assert_eq!(
        ListenerPerspectiveError::PrototypeGroupMismatch { expected: "a".into(), actual: "b".into() }.to_string(),
        "프로토타입 메타 불일치 (기대 group='a', 실제='b')"
    );
    assert_eq!(ListenerPerspectiveError::Embed("e".into()).to_string(), "임베딩 실패: e");
}

fn proto(text: &str, subtype: &str, source: Option<&str>) -> Prototype {
    Prototype { text: text.into(), subtype: subtype.into(), source: source.map(|s| s.to_string()) }
}

fn sample_items() -> Vec<Prototype> {
    vec![
        proto("이 신세, 언제고 갚겠소이다.", "gratitude", Some("created_by_bekay")),
        proto("과연 뛰어나시오.", "praise", None),
    ]
}

#[test]
fn load_valid_prototypes() {
    let set = PrototypeSet::from_parsed("sign_keep".into(), "2".into(), sample_items(), "sign_keep").unwrap();
    assert_eq!(set.group, "sign_keep");
    assert_eq!(set.version, "2");
    assert_eq!(set.len(), 2);
    assert!(!set.is_empty());
    assert_eq!(set.items[0].subtype, "gratitude");
    assert_eq!(set.items[0].source.as_deref(), Some("created_by_bekay"));
    assert_eq!(set.items[1].source, None);
}

#[test]
fn texts_extraction() {
    let set = PrototypeSet::from_parsed("sign_keep".into(), "2".into(), sample_items(), "sign_keep").unwrap();
    let texts = set.texts();
    assert_eq!(texts.len(), 2);
    assert_eq!(texts[0], "이 신세, 언제고 갚겠소이다.");
}

#[test]
fn rejects_group_mismatch() {
    let err = PrototypeSet::from_parsed("sign_keep".into(), "2".into(), sample_items(), "sign_invert").unwrap_err();
    assert!(matches!(err, ListenerPerspectiveError::PrototypeGroupMismatch { .. }));
}

#[test]
fn prototype_set_rejects_group_mismatch_before_emptiness() {
    let err = PrototypeSet::from_parsed("sign_keep".into(), "2".into(), vec![], "sign_invert").unwrap_err();
    assert!(matches!(
        err,
        ListenerPerspectiveError::PrototypeGroupMismatch { ref expected, ref actual }
            if expected == "sign_invert" && actual == "sign_keep"
    ));
}

#[test]
fn rejects_empty_items() {
    let err = PrototypeSet::from_parsed("sign_keep".into(), "1".into(), vec![], "sign_keep").unwrap_err();
    assert!(matches!(err, ListenerPerspectiveError::EmptyPrototypes(ref g) if g == "sign_keep"));
}

fn category(name: &str, sign: &str, magnitude: &str, p: f32, patterns: &[&str]) -> CategoryDef {
    CategoryDef {
        name: name.into(),
        sign: sign.into(),
        magnitude: magnitude.into(),
        p_s_default: p.to_bits(),
        description: String::new(),
        patterns: patterns.iter().map(|s| s.to_string()).collect(),
    }
}

fn sample_prefilter() -> Prefilter {
    Prefilter::from_categories(vec![
        category("counterfactual_gratitude", "keep", "strong", 0.7, &["아니었(으면|더라면)"]),
        category("sarcasm_interjection", "invert", "strong", 0.6, &["^(허허|아이고|아이구)"]),
    ])
    .unwrap()
}

#[test]
fn from_toml_parses_categories() {
    let pf = sample_prefilter();
    assert_eq!(pf.category_count(), 2);
    assert_eq!(pf.category_names(), vec!["counterfactual_gratitude", "sarcasm_interjection"]);
}

#[test]
fn classify_hits_counterfactual_gratitude() {
    let pf = sample_prefilter();
    let hit = pf.classify("그대 아니었으면 이 몸은 이미 이 세상 사람이 아니었으리").unwrap();
    assert_eq!(hit.matched_category, "counterfactual_gratitude");
    assert_eq!(hit.matched_pattern, "아니었(으면|더라면)");
    assert_eq!(hit.sign, Sign::Keep);
    assert_eq!(hit.magnitude, Magnitude::Strong);
    assert!((f32::from_bits(hit.p_s_default) - 0.7).abs() < f32::EPSILON);
}

#[test]
fn classify_hits_sarcasm_interjection() {
    let pf = sample_prefilter();
    let hit = pf.classify("아이고, 훌륭하기도 하셔라.").unwrap();
    assert_eq!(hit.matched_category, "sarcasm_interjection");
    assert_eq!(hit.sign, Sign::Invert);
}

#[test]
fn classify_misses_plain_greeting() {
    let pf = sample_prefilter();
    assert!(pf.classify("오늘 날이 좋구려.").is_none());
}

#[test]
fn from_toml_rejects_invalid_sign() {
    let err = Prefilter::from_categories(vec![category("x", "flip", "strong", 0.5, &["foo"])]).unwrap_err();
    assert!(matches!(err, ListenerPerspectiveError::InvalidSign(ref s) if s == "flip"));
}

#[test]
fn prefilter_rejects_invalid_magnitude() {
    let err = Prefilter::from_categories(vec![category("x", "keep", "huge", 0.5, &["foo"])]).unwrap_err();
    assert!(matches!(err, ListenerPerspectiveError::InvalidMagnitude(ref s) if s == "huge"));
}

#[test]
fn from_toml_rejects_bad_regex() {
    let err = Prefilter::from_categories(vec![category("x", "keep", "strong", 0.5, &["[unclosed"])]).unwrap_err();
    match err {
        ListenerPerspectiveError::PatternCompile { category, pattern, reason } => {
            assert_eq!(category, "x");
            assert_eq!(pattern, "[unclosed");
            assert!(!reason.is_empty());
        }
        other => panic!("unexpected {other:?}"),
    }
}

#[test]
fn prefilter_reports_the_first_faulty_category() {
    let err = Prefilter::from_categories(vec![
        category("ok", "keep", "weak", 0.1, &["a"]),
        category("bad-regex", "keep", "weak", 0.1, &["b", "("]),
        category("bad-sign", "sideways", "weak", 0.1, &["c"]),
    ])
    .unwrap_err();
    assert!(matches!(err, ListenerPerspectiveError::PatternCompile { ref category, .. } if category == "bad-regex"));
}

#[test]
fn empty_prefilter_never_hits() {
    let pf = Prefilter::from_categories(vec![]).unwrap();
    assert_eq!(pf.category_count(), 0);
    assert!(pf.classify("아이고").is_none());
}

#[test]
fn hit_at_reports_category_and_pattern() {
    let pf = sample_prefilter();
    let hit = pf.hit_at(1, 0);
    assert_eq!(hit.matched_category, "sarcasm_interjection");
    assert_eq!(hit.matched_pattern, "^(허허|아이고|아이구)");
    assert_eq!(hit.sign, Sign::Invert);
    assert_eq!(hit.magnitude, Magnitude::Strong);
    assert_eq!(f32::from_bits(hit.p_s_default), 0.6);
}

#[test]
fn first_category_wins_when_two_match() {
    let pf = Prefilter::from_categories(vec![
        category("first", "keep", "weak", 0.1, &["x", "아이고"]),
        category("second", "invert", "strong", 0.9, &["아이고"]),
    ])
    .unwrap();
    let hit = pf.classify("아이고").unwrap();
    assert_eq!(hit.matched_category, "first");
    assert_eq!(hit.matched_pattern, "아이고");
}

#[test]
fn sign_and_magnitude_parse_through_from_str() {
    assert_eq!("invert".parse::<Sign>().unwrap(), Sign::Invert);
    assert!(matches!("Keep".parse::<Sign>(), Err(ListenerPerspectiveError::InvalidSign(t)) if t == "Keep"));
    assert_eq!("strong".parse::<Magnitude>().unwrap(), Magnitude::Strong);
    assert!(matches!("huge".parse::<Magnitude>(), Err(ListenerPerspectiveError::InvalidMagnitude(t)) if t == "huge"));
}

#[test]
fn pick_sign_prefers_keep_on_ties_and_invert_on_nan() {
    assert_eq!(pick_sign(0.5f32.to_bits(), 0.5f32.to_bits()), Sign::Keep);
    assert_eq!(pick_sign(0.4f32.to_bits(), 0.5f32.to_bits()), Sign::Invert);
    assert_eq!(pick_sign(f32::NAN.to_bits(), 0.5f32.to_bits()), Sign::Invert);
}

#[test]
fn pick_magnitude_matches_a_stable_descending_sort() {
    let values = [0.1f32, 0.5, 0.5, 0.9, -0.0, 0.0, f32::NAN];
    for &w in &values {
        for &n in &values {
            for &st in &values {
                let mut arr = [(Magnitude::Weak, w), (Magnitude::Normal, n), (Magnitude::Strong, st)];
                arr.sort_by(|a, b| b.1.partial_cmp(&a.1).unwrap_or(std::cmp::Ordering::Equal));
                assert_eq!(pick_magnitude(w.to_bits(), n.to_bits(), st.to_bits()), (arr[0].0, arr[1].0), "{w} {n} {st}");
            }
        }
    }
}
