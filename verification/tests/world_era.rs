use npc_mind::world::era::{Era, EraFilter, EraId};
use npc_mind::world::event::EventId;

fn era_with_range(id: &str, kind: &str, start: i32, end: i32) -> Era {
    let mut e = Era::new(id, kind, id);
    e.temporal.start_year_relative = Some(start);
    e.temporal.end_year_relative = Some(end);
    e
}

#[test]
fn era_new_sets_defaults() {
    let e = Era::new("era-x", "founding", "X 시대");
    assert_eq!(e.id.as_str(), "era-x");
    assert_eq!(e.kind, "founding");
    assert_eq!(e.name, "X 시대");
    assert!(e.aliases.is_empty());
    assert!(e.tags.is_empty());
    assert!(e.key_events.is_empty());
    assert!(e.temporal.start_year_relative.is_none());
    assert!(e.temporal.end_year_relative.is_none());
}

#[test]
fn contains_year_inclusive_start() {
    let mut e = Era::new("era-x", "fall", "X");
    e.temporal.start_year_relative = Some(-30);
    e.temporal.end_year_relative = Some(0);
    assert!(e.contains_year(-30), "start year (-30) inclusive — true");
    assert!(e.contains_year(-29));
    assert!(e.contains_year(-1));
}

#[test]
fn contains_year_exclusive_end() {
    let mut e = Era::new("era-x", "fall", "X");
    e.temporal.start_year_relative = Some(-30);
    e.temporal.end_year_relative = Some(0);
    assert!(!e.contains_year(0), "end year (0) exclusive — false");
    assert!(!e.contains_year(1));
}

#[test]
fn contains_year_outside_range() {
    let mut e = Era::new("era-x", "fall", "X");
    e.temporal.start_year_relative = Some(-30);
    e.temporal.end_year_relative = Some(0);
    assert!(!e.contains_year(-31));
    assert!(!e.contains_year(-100));
    assert!(!e.contains_year(100));
}

#[test]
fn contains_year_undefined_boundary_returns_false() {
    let e = Era::new("era-x", "fall", "X");
    assert!(!e.contains_year(0));
    assert!(!e.contains_year(-50));

    let mut partial = Era::new("era-y", "fall", "Y");
    partial.temporal.start_year_relative = Some(-30);
    assert!(!partial.contains_year(-20));
}

#[test]
fn duration_years_computes_difference() {
    let mut e = Era::new("era-x", "fall", "X");
    e.temporal.start_year_relative = Some(-30);
    e.temporal.end_year_relative = Some(0);
    assert_eq!(e.duration_years(), Some(30));

    let mut founding = Era::new("era-f", "founding", "F");
    founding.temporal.start_year_relative = Some(-270);
    founding.temporal.end_year_relative = Some(-220);
    assert_eq!(founding.duration_years(), Some(50));
}

#[test]
fn duration_years_none_when_undefined() {
    let e = Era::new("era-x", "fall", "X");
    assert!(e.duration_years().is_none());
}

#[test]
fn duration_years_none_when_end_before_start() {
    let mut e = Era::new("era-x", "fall", "X");
    e.temporal.start_year_relative = Some(0);
    e.temporal.end_year_relative = Some(-30);
    assert!(e.duration_years().is_none());
}

#[test]
fn duration_years_spans_the_whole_i32_range() {
    let e = era_with_range("era-all", "fall", i32::MIN, i32::MAX);
    assert_eq!(e.duration_years(), Some(u32::MAX));
    let z = era_with_range("era-zero", "fall", 5, 5);
    assert_eq!(z.duration_years(), Some(0));
    assert!(!z.contains_year(5));
}

#[test]
fn key_events_keep_their_order() {
    let mut e = Era::new("era-x", "fall", "X");
    e.key_events = vec![EventId::new("event-c"), EventId::new("event-a"), EventId::new("event-b")];
    assert_eq!(
        e.key_events,
        vec![EventId::new("event-c"), EventId::new("event-a"), EventId::new("event-b")]
    );
}

#[test]
fn era_id_from_str_and_string() {
    let a = EraId::from("era-x");
    let b = EraId::from(String::from("era-x"));
    assert_eq!(a, b);
    assert_eq!(a.as_str(), "era-x");
}

#[test]
fn five_canonical_eras_boundary_consistency() {
    let founding = era_with_range("era-founding", "founding", -270, -220);
    let prosperity = era_with_range("era-prosperity", "prosperity", -220, -150);
    let turning = era_with_range("era-turning", "turning", -150, -70);
    let decline = era_with_range("era-decline", "decline", -70, -30);
    let fall = era_with_range("era-fall-of-empire", "fall", -30, 0);

    assert_eq!(founding.duration_years(), Some(50));
    assert_eq!(prosperity.duration_years(), Some(70));
    assert_eq!(turning.duration_years(), Some(80));
    assert_eq!(decline.duration_years(), Some(40));
    assert_eq!(fall.duration_years(), Some(30));
    assert_eq!(50 + 70 + 80 + 40 + 30, 270, "총 270년");

    assert!(founding.contains_year(-270));
    assert!(fall.contains_year(-30));
    assert!(!decline.contains_year(-30));
    assert!(fall.contains_year(-12));
    assert!(fall.contains_year(-10));
    assert!(fall.contains_year(-7));
    assert!(!fall.contains_year(0));
}

#[test]
fn adjacent_eras_share_no_year() {
    let decline = era_with_range("era-decline", "decline", -70, -30);
    let fall = era_with_range("era-fall-of-empire", "fall", -30, 0);
    for y in -80..10 {
        assert!(!(decline.contains_year(y) && fall.contains_year(y)));
        if (-70..0).contains(&y) {
            assert!(decline.contains_year(y) || fall.contains_year(y));
        }
    }
}

#[test]
fn era_filter_default_is_empty() {
    let f = EraFilter::default();
    assert!(f.kind.is_none());
    assert!(f.contains_year.is_none());
    assert!(f.genre_tag.is_none());
}
