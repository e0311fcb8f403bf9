use npc_mind::world::event::{Event, EventCategory, EventFilter, EventId, ParticipantsRefs};

#[test]
fn event_new_sets_defaults() {
    let e = Event::new("event-x", "betrayal", "X 사건");
    assert_eq!(e.id.as_str(), "event-x");
    assert_eq!(e.kind, "betrayal");
    assert_eq!(e.name, "X 사건");
    assert_eq!(e.category, EventCategory::Historical);
    assert!(e.aliases.is_empty());
    assert!(e.tags.is_empty());
    assert!(e.related_events.is_empty());
    assert!(e.participants.is_empty());
    assert!(e.temporal.year.is_none());
    assert!(e.era_id.is_none());
}

#[test]
fn category_default_is_historical() {
    let cat: EventCategory = Default::default();
    assert_eq!(cat, EventCategory::Historical);
}

#[test]
fn category_from_str_loose() {
    assert_eq!(EventCategory::from_str_loose("historical"), Some(EventCategory::Historical));
    assert_eq!(EventCategory::from_str_loose("legendary"), Some(EventCategory::Legendary));
    assert!(EventCategory::from_str_loose("invalid").is_none());
}

#[test]
fn category_from_str_loose_is_exact() {
    assert_eq!(EventCategory::from_str_loose("scheduled"), Some(EventCategory::Scheduled));
    assert!(EventCategory::from_str_loose("Historical").is_none());
    assert!(EventCategory::from_str_loose(" historical").is_none());
    for c in [EventCategory::Historical, EventCategory::Scheduled, EventCategory::Legendary] {
        assert_eq!(EventCategory::from_str_loose(c.as_str()), Some(c));
    }
}

#[test]
fn participants_refs_default_is_empty() {
    let p = ParticipantsRefs::default();
    assert!(p.is_empty());
}

#[test]
fn participants_with_one_list_filled_are_not_empty() {
    let p = ParticipantsRefs { people: vec![], groups: vec!["group-a".into()], places: vec![] };
    assert!(!p.is_empty());
}

#[test]
fn involvement_helpers() {
    let mut e = Event::new("event-x", "war", "X");
    e.participants.people = vec!["npc-02".into(), "npc-07".into()];
    e.participants.groups = vec!["group-daejin-court".into()];
    e.participants.places = vec!["place-daejin".into()];

    assert!(e.involves_person("npc-02"));
    assert!(e.involves_person("npc-07"));
    assert!(!e.involves_person("npc-99"));
    assert!(e.involves_group("group-daejin-court"));
    assert!(!e.involves_group("group-other"));
    assert!(e.involves_place("place-daejin"));
    assert!(!e.involves_place("place-namgung"));
}

#[test]
fn year_relative_accessor() {
    let mut e = Event::new("event-x", "war", "X");
    assert!(e.year_relative().is_none());
    e.temporal.year_relative = Some(-10);
    assert_eq!(e.year_relative(), Some(-10));
}

#[test]
fn event_ids_convert_from_text() {
    assert_eq!(EventId::from("event-a"), EventId::new("event-a"));
    assert_eq!(EventId::from(String::from("event-a")).as_str(), "event-a");
}

#[test]
fn event_filter_default_is_empty() {
    let f = EventFilter::default();
    assert!(f.category.is_none());
    assert!(f.year_relative_min.is_none());
    assert!(f.year_relative_max.is_none());
    assert!(f.participants_person.is_none());
}
