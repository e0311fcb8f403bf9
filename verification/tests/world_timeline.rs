use vstd::seq::Seq;
use std::collections::HashMap;

use npc_mind::world::era::{Era, EraId};
use npc_mind::world::event::{Event, EventId, ParticipantsRefs};
use npc_mind::world::group::WorldError;
use npc_mind::world::place::{Place, PlaceId};
use npc_mind::world::repository::{get_eras_batch, get_events_batch, WorldRepository};
use npc_mind::world::timeline::{Timeline, TimelineFilter, TimelineId};

struct MiniRepo {
    eras: HashMap<String, Era>,
    events: HashMap<String, Event>,
}

impl MiniRepo {
    fn new(eras: Vec<Era>, events: Vec<Event>) -> Self {
        Self {
            eras: eras.into_iter().map(|e| (e.id.as_str().to_string(), e)).collect(),
            events: events.into_iter().map(|e| (e.id.as_str().to_string(), e)).collect(),
        }
    }
}

impl WorldRepository for MiniRepo {
    fn place_answer(&self, _id: Seq<char>) -> Result<Option<Place>, WorldError> {
        unreachable!()
    }
    fn era_answer(&self, _id: Seq<char>) -> Result<Option<Era>, WorldError> {
        unreachable!()
    }
    fn event_answer(&self, _id: Seq<char>) -> Result<Option<Event>, WorldError> {
        unreachable!()
    }
    fn get_place(&self, _: &PlaceId) -> Result<Option<Place>, WorldError> {
        Ok(None)
    }
    fn get_era(&self, id: &EraId) -> Result<Option<Era>, WorldError> {
        Ok(self.eras.get(id.as_str()).cloned())
    }
    fn get_event(&self, id: &EventId) -> Result<Option<Event>, WorldError> {
        Ok(self.events.get(id.as_str()).cloned())
    }
}

struct BrokenRepo;

impl WorldRepository for BrokenRepo {
    fn place_answer(&self, _id: Seq<char>) -> Result<Option<Place>, WorldError> {
        unreachable!()
    }
    fn era_answer(&self, _id: Seq<char>) -> Result<Option<Era>, WorldError> {
        unreachable!()
    }
    fn event_answer(&self, _id: Seq<char>) -> Result<Option<Event>, WorldError> {
        unreachable!()
    }
    fn get_place(&self, _: &PlaceId) -> Result<Option<Place>, WorldError> {
        Err(WorldError::Storage("down".into()))
    }
    fn get_era(&self, _: &EraId) -> Result<Option<Era>, WorldError> {
        Err(WorldError::Storage("down".into()))
    }
    fn get_event(&self, _: &EventId) -> Result<Option<Event>, WorldError> {
        Err(WorldError::Storage("down".into()))
    }
}

fn era_with_events(id: &str, kind: &str, key_events: &[&str]) -> Era {
    let mut e = Era::new(id, kind, id);
    e.key_events = key_events.iter().map(|s| EventId::new(s)).collect();
    e
}

fn event_with_related(id: &str, related: &[&str]) -> Event {
    let mut ev = Event::new(id, "war", id);
    ev.related_events = related.iter().map(|s| EventId::new(s)).collect();
    ev.participants = ParticipantsRefs::default();
    ev
}

fn sample_timeline(refs: &[&str]) -> Timeline {
    let mut t = Timeline::new("timeline-test", "history", "Test");
    t.references = refs.iter().map(|s| EraId::new(s)).collect();
    t
}

#[test]
fn timeline_new_sets_defaults() {
    let t = Timeline::new("timeline-x", "history", "X");
    assert_eq!(t.id.as_str(), "timeline-x");
    assert_eq!(t.kind, "history");
    assert_eq!(t.name, "X");
    assert!(t.references.is_empty());
    assert!(t.body_sections.is_empty());
}

#[test]
fn eras_in_returns_in_reference_order() {
    let repo = MiniRepo::new(
        vec![
            era_with_events("era-a", "founding", &[]),
            era_with_events("era-b", "fall", &[]),
            era_with_events("era-c", "decline", &[]),
        ],
        vec![],
    );
    let timeline = sample_timeline(&["era-c", "era-a", "era-b"]);
    let got = timeline.eras_in(&repo).unwrap();
    let ids: Vec<&str> = got.iter().map(|e| e.id.as_str()).collect();
    assert_eq!(ids, vec!["era-c", "era-a", "era-b"]);
}

#[test]
fn eras_in_skips_missing_silently() {
    let repo = MiniRepo::new(vec![era_with_events("era-a", "founding", &[])], vec![]);
    let timeline = sample_timeline(&["era-a", "era-missing"]);
    let got = timeline.eras_in(&repo).unwrap();
    assert_eq!(got.len(), 1);
    assert_eq!(got[0].id.as_str(), "era-a");
}

#[test]
fn events_in_flattens_era_key_events_in_era_order() {
    let repo = MiniRepo::new(
        vec![
            era_with_events("era-a", "founding", &["event-1"]),
            era_with_events("era-b", "fall", &["event-2", "event-3"]),
        ],
        vec![
            event_with_related("event-1", &[]),
            event_with_related("event-2", &[]),
            event_with_related("event-3", &[]),
        ],
    );
    let timeline = sample_timeline(&["era-a", "era-b"]);
    let got = timeline.events_in(&repo).unwrap();
    let ids: Vec<&str> = got.iter().map(|e| e.id.as_str()).collect();
    assert_eq!(ids, vec!["event-1", "event-2", "event-3"]);
}

#[test]
fn events_in_dedupes_event_appearing_in_multiple_eras() {
    let repo = MiniRepo::new(
        vec![
            era_with_events("era-a", "founding", &["event-shared"]),
            era_with_events("era-b", "fall", &["event-shared", "event-other"]),
        ],
        vec![event_with_related("event-shared", &[]), event_with_related("event-other", &[])],
    );
    let timeline = sample_timeline(&["era-a", "era-b"]);
    let got = timeline.events_in(&repo).unwrap();
    let ids: Vec<&str> = got.iter().map(|e| e.id.as_str()).collect();
    assert_eq!(ids, vec!["event-shared", "event-other"]);
}

#[test]
fn era_event_ids_keep_first_appearance() {
    let eras = vec![
        era_with_events("era-a", "founding", &["event-2", "event-1", "event-2"]),
        era_with_events("era-b", "fall", &["event-3", "event-1"]),
    ];
    let ids = Timeline::era_event_ids(&eras);
    let texts: Vec<&str> = ids.iter().map(|e| e.as_str()).collect();
    assert_eq!(texts, vec!["event-2", "event-1", "event-3"]);
}

#[test]
fn events_during_returns_only_specified_era_events() {
    let repo = MiniRepo::new(
        vec![
            era_with_events("era-a", "founding", &["event-1"]),
            era_with_events("era-b", "fall", &["event-2", "event-3"]),
        ],
        vec![
            event_with_related("event-1", &[]),
            event_with_related("event-2", &[]),
            event_with_related("event-3", &[]),
        ],
    );
    let timeline = sample_timeline(&["era-a", "era-b"]);
    let got = timeline.events_during(&EraId::new("era-b"), &repo).unwrap();
    let ids: Vec<&str> = got.iter().map(|e| e.id.as_str()).collect();
    assert_eq!(ids, vec!["event-2", "event-3"]);
}

#[test]
fn events_during_returns_empty_for_era_outside_timeline() {
    let repo = MiniRepo::new(
        vec![
            era_with_events("era-a", "founding", &["event-1"]),
            era_with_events("era-outside", "decline", &["event-x"]),
        ],
        vec![event_with_related("event-1", &[])],
    );
    let timeline = sample_timeline(&["era-a"]);
    let got = timeline.events_during(&EraId::new("era-outside"), &repo).unwrap();
    assert!(got.is_empty());
}

#[test]
fn events_during_outside_the_timeline_never_reads_the_store() {
    let timeline = sample_timeline(&["era-a"]);
    let got = timeline.events_during(&EraId::new("era-outside"), &BrokenRepo).unwrap();
    assert!(got.is_empty());
    assert!(timeline.events_during(&EraId::new("era-a"), &BrokenRepo).is_err());
}

#[test]
fn causal_chain_bfs_within_timeline_boundary() {
    let repo = MiniRepo::new(
        vec![era_with_events("era-x", "fall", &["event-A", "event-B", "event-C", "event-D"])],
        vec![
            event_with_related("event-A", &["event-B"]),
            event_with_related("event-B", &["event-C"]),
            event_with_related("event-C", &["event-D"]),
            event_with_related("event-D", &[]),
        ],
    );
    let timeline = sample_timeline(&["era-x"]);
    let got = timeline.causal_chain(&EventId::new("event-A"), &repo).unwrap();
    let ids: Vec<&str> = got.iter().map(|e| e.id.as_str()).collect();
    assert_eq!(ids, vec!["event-A", "event-B", "event-C", "event-D"]);
}

#[test]
fn causal_chain_ignores_events_outside_timeline() {
    let repo = MiniRepo::new(
        vec![era_with_events("era-x", "fall", &["event-A"])],
        vec![event_with_related("event-A", &["event-out"]), event_with_related("event-out", &[])],
    );
    let timeline = sample_timeline(&["era-x"]);
    let got = timeline.causal_chain(&EventId::new("event-A"), &repo).unwrap();
    let ids: Vec<&str> = got.iter().map(|e| e.id.as_str()).collect();
    assert_eq!(ids, vec!["event-A"], "timeline 경계 밖 event-out은 traversal X");
}

#[test]
fn causal_chain_seed_outside_timeline_returns_empty() {
    let repo = MiniRepo::new(
        vec![era_with_events("era-x", "fall", &["event-A"])],
        vec![event_with_related("event-A", &[])],
    );
    let timeline = sample_timeline(&["era-x"]);
    let got = timeline.causal_chain(&EventId::new("event-not-in-timeline"), &repo).unwrap();
    assert!(got.is_empty());
}

#[test]
fn causal_chain_bidirectional_traversal_no_revisit() {
    let repo = MiniRepo::new(
        vec![era_with_events("era-fall", "fall", &["event-bn", "event-hf", "event-bd"])],
        vec![
            event_with_related("event-bn", &["event-hf", "event-bd"]),
            event_with_related("event-hf", &["event-bn"]),
            event_with_related("event-bd", &[]),
        ],
    );
    let timeline = sample_timeline(&["era-fall"]);
    let got = timeline.causal_chain(&EventId::new("event-bn"), &repo).unwrap();
    let ids: Vec<&str> = got.iter().map(|e| e.id.as_str()).collect();
    assert_eq!(ids.len(), 3, "3 사건 모두 한 번씩만 (cycle 무한 루프 X)");
    assert_eq!(ids[0], "event-bn", "seed가 첫 항목");
    assert!(ids.contains(&"event-hf"));
    assert!(ids.contains(&"event-bd"));
}

#[test]
fn causal_chain_from_visits_breadth_first() {
    let scope = vec![
        event_with_related("e-d", &[]),
        event_with_related("e-a", &["e-b", "e-c"]),
        event_with_related("e-b", &["e-d", "e-a"]),
        event_with_related("e-c", &["e-d"]),
    ];
    let got = Timeline::causal_chain_from(&EventId::new("e-a"), scope);
    let ids: Vec<&str> = got.iter().map(|e| e.id.as_str()).collect();
    assert_eq!(ids, vec!["e-a", "e-b", "e-c", "e-d"]);
}

#[test]
fn causal_chain_from_uses_the_last_event_of_a_repeated_id() {
    let mut first = event_with_related("e-a", &["e-b"]);
    first.name = "first".into();
    let mut last = event_with_related("e-a", &["e-c"]);
    last.name = "last".into();
    let scope = vec![first, event_with_related("e-b", &[]), last, event_with_related("e-c", &[])];
    let got = Timeline::causal_chain_from(&EventId::new("e-a"), scope);
    let ids: Vec<&str> = got.iter().map(|e| e.id.as_str()).collect();
    assert_eq!(ids, vec!["e-a", "e-c"]);
    assert_eq!(got[0].name, "last");
}

#[test]
fn storage_failure_is_passed_on() {
    let timeline = sample_timeline(&["era-a"]);
    assert!(matches!(timeline.eras_in(&BrokenRepo), Err(WorldError::Storage(_))));
    assert!(timeline.causal_chain(&EventId::new("event-a"), &BrokenRepo).is_err());
}

#[test]
fn references_era_matches_by_text() {
    let timeline = sample_timeline(&["era-a", "era-b"]);
    assert!(timeline.references_era(&EraId::new("era-b")));
    assert!(!timeline.references_era(&EraId::new("era-c")));
}

#[test]
fn timeline_id_converts_from_string() {
    assert_eq!(TimelineId::from(String::from("timeline-x")).as_str(), "timeline-x");
}

#[test]
fn timeline_filter_default() {
    let f = TimelineFilter::default();
    assert!(f.kind.is_none());
    assert!(f.references_era.is_none());
    assert!(f.genre_tag.is_none());
}

#[test]
fn present_values_keep_order_and_drop_missing() {
    let v = npc_mind::present::present_values(vec![Some(1), None, Some(3), None]);
    assert_eq!(v, vec![1, 3]);
    assert!(npc_mind::present::present_values::<u8>(vec![None, None]).is_empty());
}

#[test]
fn empty_timeline_reads_nothing_and_succeeds() {
    let timeline = sample_timeline(&[]);
    assert!(timeline.eras_in(&BrokenRepo).unwrap().is_empty());
    assert!(timeline.events_in(&BrokenRepo).unwrap().is_empty());
    assert!(timeline.causal_chain(&EventId::new("event-a"), &BrokenRepo).unwrap().is_empty());
}

#[test]
fn empty_batches_read_nothing_and_succeed() {
    assert!(get_eras_batch(&BrokenRepo, &[]).unwrap().is_empty());
    assert!(get_events_batch(&BrokenRepo, &[]).unwrap().is_empty());
    assert!(get_eras_batch(&BrokenRepo, &[EraId::new("era-a")]).is_err());
}
