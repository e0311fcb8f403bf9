use vstd::seq::Seq;
use npc_mind::world::atlas::{default_unit, Atlas, AtlasExtent, AtlasFilter, AtlasId};
use npc_mind::world::era::{Era, EraId};
use npc_mind::world::event::{Event, EventId};
use npc_mind::world::group::WorldError;
use npc_mind::world::place::{Place, PlaceId, PlaceLayer};
use npc_mind::world::repository::WorldRepository;
use npc_mind::world::ExtraValue;

struct MiniRepo {
    places: Vec<Place>,
}

impl MiniRepo {
    fn new(places: Vec<Place>) -> Self {
        Self { places }
    }
}

impl WorldRepository for MiniRepo {
    fn place_answer(&self, _id: Seq<char>) -> Result<Option<Place>, WorldError> {
        unreachable!()
    }
    fn era_answer(&self, _id: Seq<char>) -> Result<Option<Era>, WorldError> {
        unreachable!()
    }
    fn event_answer(&self, _id: Seq<char>) -> Result<Option<Event>, WorldError> {
        unreachable!()
    }
    fn get_place(&self, id: &PlaceId) -> Result<Option<Place>, WorldError> {
        Ok(self.places.iter().find(|p| &p.id == id).cloned())
    }
    fn get_era(&self, _: &EraId) -> Result<Option<Era>, WorldError> {
        Ok(None)
    }
    fn get_event(&self, _: &EventId) -> Result<Option<Event>, WorldError> {
        Ok(None)
    }
}

fn settlement(id: &str, bordering: &[&str]) -> Place {
    let mut p = Place::new(id, PlaceLayer::Settlement, "nation", id);
    p.spatial.bordering_places = bordering.iter().map(|s| PlaceId::new(s)).collect();
    p
}

fn geography(id: &str) -> Place {
    Place::new(id, PlaceLayer::Geography, "mountain-range", id)
}

fn sample_atlas(refs: Vec<&str>) -> Atlas {
    let mut a = Atlas::new("atlas-test", "continent", "Test Atlas");
    a.references = refs.into_iter().map(PlaceId::new).collect();
    a
}

#[test]
fn atlas_new_sets_defaults() {
    let a = Atlas::new("atlas-x", "continent", "X");
    assert_eq!(a.id.as_str(), "atlas-x");
    assert_eq!(a.kind, "continent");
    assert_eq!(a.name, "X");
    assert!(a.references.is_empty());
    assert!(a.body_sections.is_empty());
    assert_eq!(a.extent.projection, "schematic");
    assert_eq!(a.extent.unit, "schematic");
    assert!(a.extent.width_units.is_none());
}

#[test]
fn atlas_extent_default_is_schematic() {
    let e = AtlasExtent::default();
    assert_eq!(e.projection, "schematic");
    assert_eq!(e.unit, "schematic");
}

#[test]
fn default_unit_is_schematic() {
    assert_eq!(default_unit(), "schematic");
}

#[test]
fn era_helpers_extract_from_extras() {
    let mut a = Atlas::new("atlas-x", "continent", "X");
    a.extras.push(("era".into(), ExtraValue::Text("현재".into())));
    a.extras.push(("era_id".into(), ExtraValue::Text("era-current".into())));
    assert_eq!(a.era(), Some("현재"));
    assert_eq!(a.era_id(), Some("era-current"));

    let a2 = Atlas::new("atlas-y", "continent", "Y");
    assert!(a2.era().is_none());
    assert!(a2.era_id().is_none());
}

#[test]
fn places_in_returns_in_reference_order() {
    let repo = MiniRepo::new(vec![
        settlement("place-a", &[]),
        settlement("place-b", &[]),
        settlement("place-c", &[]),
    ]);
    let atlas = sample_atlas(vec!["place-a", "place-c", "place-b"]);
    let got = atlas.places_in(&repo).unwrap();
    let ids: Vec<&str> = got.iter().map(|p| p.id.as_str()).collect();
    assert_eq!(ids, vec!["place-a", "place-c", "place-b"]);
}

#[test]
fn places_in_skips_missing_silently() {
    let repo = MiniRepo::new(vec![settlement("place-a", &[])]);
    let atlas = sample_atlas(vec!["place-a", "place-missing"]);
    let got = atlas.places_in(&repo).unwrap();
    assert_eq!(got.len(), 1);
    assert_eq!(got[0].id.as_str(), "place-a");
}

#[test]
fn settlements_and_geographies_filter_by_layer() {
    let repo = MiniRepo::new(vec![
        settlement("place-s1", &[]),
        settlement("place-s2", &[]),
        geography("place-g1"),
    ]);
    let atlas = sample_atlas(vec!["place-s1", "place-g1", "place-s2"]);
    let s = atlas.settlements_in(&repo).unwrap();
    let g = atlas.geographies_in(&repo).unwrap();
    assert_eq!(s.len(), 2);
    assert!(s.iter().all(|p| p.layer == PlaceLayer::Settlement));
    assert_eq!(g.len(), 1);
    assert!(g.iter().all(|p| p.layer == PlaceLayer::Geography));
}

#[test]
fn adjacent_to_filters_to_atlas_boundary() {
    let repo = MiniRepo::new(vec![
        settlement("place-a", &["place-b", "place-c", "place-outside"]),
        settlement("place-b", &["place-a"]),
        settlement("place-c", &["place-a"]),
        settlement("place-outside", &["place-a"]),
    ]);
    let atlas = sample_atlas(vec!["place-a", "place-b", "place-c"]);
    let adj = atlas.adjacent_to(&PlaceId::new("place-a"), &repo).unwrap();
    let ids: Vec<&str> = adj.iter().map(|p| p.as_str()).collect();
    assert_eq!(ids, vec!["place-b", "place-c"]);
}

#[test]
fn adjacent_to_returns_empty_when_place_not_in_atlas() {
    let repo = MiniRepo::new(vec![settlement("place-a", &[]), settlement("place-outside", &["place-a"])]);
    let atlas = sample_atlas(vec!["place-a"]);
    let adj = atlas.adjacent_to(&PlaceId::new("place-outside"), &repo).unwrap();
    assert!(adj.is_empty());
}

#[test]
fn adjacent_to_returns_empty_when_place_missing_from_repo() {
    let repo = MiniRepo::new(vec![]);
    let atlas = sample_atlas(vec!["place-ghost"]);
    let adj = atlas.adjacent_to(&PlaceId::new("place-ghost"), &repo).unwrap();
    assert!(adj.is_empty());
}

#[test]
fn adjacent_within_keeps_border_order() {
    let atlas = sample_atlas(vec!["place-c", "place-a", "place-b"]);
    let p = settlement("place-x", &["place-b", "place-z", "place-a", "place-c"]);
    let adj = atlas.adjacent_within(&p);
    let ids: Vec<&str> = adj.iter().map(|p| p.as_str()).collect();
    assert_eq!(ids, vec!["place-b", "place-a", "place-c"]);
}

#[test]
fn atlas_id_and_filter_basics() {
    assert_eq!(AtlasId::from(String::from("atlas-a")).as_str(), "atlas-a");
    let f = AtlasFilter::default();
    assert!(f.kind.is_none());
    assert!(f.genre_tag.is_none());
}

struct DownRepo;

impl WorldRepository for DownRepo {
    fn place_answer(&self, _id: Seq<char>) -> Result<Option<Place>, WorldError> {
        unreachable!()
    }
    fn era_answer(&self, _id: Seq<char>) -> Result<Option<Era>, WorldError> {
        unreachable!()
    }
    fn event_answer(&self, _id: Seq<char>) -> Result<Option<Event>, WorldError> {
        unreachable!()
    }
    fn get_place(&self, _: &PlaceId) -> Result<Option<Place>, WorldError> {
        Err(WorldError::Storage("down".into()))
    }
    fn get_era(&self, _: &EraId) -> Result<Option<Era>, WorldError> {
        Err(WorldError::Storage("down".into()))
    }
    fn get_event(&self, _: &EventId) -> Result<Option<Event>, WorldError> {
        Err(WorldError::Storage("down".into()))
    }
}

#[test]
fn empty_atlas_reads_nothing_and_succeeds() {
    let atlas = sample_atlas(vec![]);
    assert!(atlas.places_in(&DownRepo).unwrap().is_empty());
    assert!(atlas.settlements_in(&DownRepo).unwrap().is_empty());
    assert!(atlas.geographies_in(&DownRepo).unwrap().is_empty());
    assert!(sample_atlas(vec!["p"]).places_in(&DownRepo).is_err());
}
