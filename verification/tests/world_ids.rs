use npc_mind::world::atlas::AtlasId;
use npc_mind::world::era::EraId;
use npc_mind::world::event::EventId;
use npc_mind::world::group::GroupId;
use npc_mind::world::person::PersonId;
use npc_mind::world::place::PlaceId;
use npc_mind::world::timeline::TimelineId;

#[test]
fn ids_convert_from_text_keeping_it() {
    assert_eq!(AtlasId::from("atlas-x").as_str(), "atlas-x");
    assert_eq!(PlaceId::from("place-x").as_str(), "place-x");
    assert_eq!(TimelineId::from("timeline-x").as_str(), "timeline-x");
    assert_eq!(GroupId::from("group-x").as_str(), "group-x");
    assert_eq!(PersonId::from("person-x").as_str(), "person-x");
    assert_eq!(EventId::from("event-x").as_str(), "event-x");
    assert_eq!(EraId::from("era-x").as_str(), "era-x");
    let p: PlaceId = "place-y".into();
    assert_eq!(p, PlaceId::new("place-y"));
}
