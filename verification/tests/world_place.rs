use npc_mind::world::place::{detect_parent_place_cycle, Place, PlaceId, PlaceLayer};
use npc_mind::world::ExtraValue;

fn p_with_parent(id: &str, parent: Option<&str>) -> Place {
    let mut p = Place::new(id, PlaceLayer::Settlement, "city", id);
    p.spatial.parent_place = parent.map(PlaceId::new);
    p
}

#[test]
fn place_new_sets_defaults() {
    let p = Place::new("place-x", PlaceLayer::Settlement, "nation", "X");
    assert_eq!(p.id.as_str(), "place-x");
    assert_eq!(p.layer, PlaceLayer::Settlement);
    assert_eq!(p.kind, "nation");
    assert_eq!(p.name, "X");
    assert!(p.aliases.is_empty());
    assert!(p.spatial.parent_place.is_none());
    assert!(p.spatial.bordering_places.is_empty());
    assert!(p.spatial.geography_refs.is_empty());
}

#[test]
fn place_layer_from_str_loose() {
    assert_eq!(PlaceLayer::from_str_loose("Settlement"), Some(PlaceLayer::Settlement));
    assert_eq!(PlaceLayer::from_str_loose("  geography  "), Some(PlaceLayer::Geography));
    assert_eq!(PlaceLayer::from_str_loose("city"), None);
}

#[test]
fn controlling_group_extracts_from_extras() {
    let mut p = Place::new("place-namgung-sega", PlaceLayer::Settlement, "sect", "남궁세가");
    p.extras.push(("controlling_group".into(), ExtraValue::Text("group-namgung".into())));
    assert_eq!(p.controlling_group(), Some("group-namgung"));

    let p_none = Place::new("place-empty", PlaceLayer::Geography, "mountain-range", "x");
    assert_eq!(p_none.controlling_group(), None);
}

#[test]
fn place_cycle_detection_finds_self_loop() {
    let places = vec![p_with_parent("place-a", Some("place-a"))];
    let cycles = detect_parent_place_cycle(&places);
    assert_eq!(cycles.len(), 1);
    assert_eq!(cycles[0], vec![PlaceId::new("place-a")]);
}

#[test]
fn place_cycle_detection_finds_two_node_cycle() {
    let places = vec![
        p_with_parent("place-a", Some("place-b")),
        p_with_parent("place-b", Some("place-a")),
    ];
    let cycles = detect_parent_place_cycle(&places);
    assert_eq!(cycles.len(), 1);
    assert_eq!(cycles[0], vec![PlaceId::new("place-a"), PlaceId::new("place-b")]);
}

#[test]
fn place_cycle_detection_clean_chain_returns_empty() {
    let places = vec![
        p_with_parent("place-namgung-geomseong", Some("place-namgung")),
        p_with_parent("place-namgung", None),
    ];
    let cycles = detect_parent_place_cycle(&places);
    assert!(cycles.is_empty());
}

#[test]
fn cycle_detection_three_node_cycle_canonical() {
    let places = vec![
        p_with_parent("place-a", Some("place-b")),
        p_with_parent("place-b", Some("place-c")),
        p_with_parent("place-c", Some("place-a")),
    ];
    let cycles = detect_parent_place_cycle(&places);
    assert_eq!(cycles.len(), 1);
    assert_eq!(
        cycles[0],
        vec![PlaceId::new("place-a"), PlaceId::new("place-b"), PlaceId::new("place-c")]
    );
}

#[test]
fn place_cycle_detection_dangling_parent_is_not_cycle() {
    let places = vec![p_with_parent("place-x", Some("place-missing"))];
    let cycles = detect_parent_place_cycle(&places);
    assert!(cycles.is_empty());
}
