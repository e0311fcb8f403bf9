use std::collections::HashSet;

use npc_mind::aggregate::AggregateKey;
use npc_mind::emotion::scene::Scene;
use npc_mind::scene_id::SceneId;

#[test]
fn scene_key_equality_respects_both_ids() {
    let a = AggregateKey::Scene { npc_id: "muback".into(), partner_id: "gyoryong".into() };
    let b = AggregateKey::Scene { npc_id: "muback".into(), partner_id: "gyoryong".into() };
    let c = AggregateKey::Scene { npc_id: "gyoryong".into(), partner_id: "muback".into() };
    assert_eq!(a, b);
    assert_ne!(a, c);
}

#[test]
fn different_variants_never_equal() {
    let scene = AggregateKey::Scene { npc_id: "a".into(), partner_id: "b".into() };
    let npc = AggregateKey::Npc("a".into());
    let rel = AggregateKey::Relationship { owner_id: "a".into(), target_id: "b".into() };
    assert_ne!(scene, npc);
    assert_ne!(scene, rel);
    assert_ne!(npc, rel);
}

#[test]
fn hashable_for_use_as_map_key() {
    let mut set = HashSet::new();
    set.insert(AggregateKey::Npc("muback".into()));
    set.insert(AggregateKey::Npc("muback".into()));
    assert_eq!(set.len(), 1);
}

#[test]
fn npc_id_hint_returns_correct_field() {
    assert_eq!(AggregateKey::Npc("x".into()).npc_id_hint(), "x");
    assert_eq!(AggregateKey::Scene { npc_id: "x".into(), partner_id: "y".into() }.npc_id_hint(), "x");
    assert_eq!(AggregateKey::Relationship { owner_id: "x".into(), target_id: "y".into() }.npc_id_hint(), "x");
}

#[test]
fn display_format_is_stable() {
    assert_eq!(AggregateKey::Npc("a".into()).to_string(), "Npc(a)");
    assert_eq!(AggregateKey::Scene { npc_id: "a".into(), partner_id: "b".into() }.to_string(), "Scene(a↔b)");
    assert_eq!(AggregateKey::Relationship { owner_id: "a".into(), target_id: "b".into() }.to_string(), "Rel(a→b)");
}

#[test]
fn memory_rumor_world_variants_format_and_hint() {
    assert_eq!(AggregateKey::Memory("m1".into()).to_string(), "Memory(m1)");
    assert_eq!(AggregateKey::Rumor("r1".into()).to_string(), "Rumor(r1)");
    assert_eq!(AggregateKey::World("w1".into()).to_string(), "World(w1)");
    assert_eq!(AggregateKey::Memory("m1".into()).npc_id_hint(), "m1");
    assert_eq!(AggregateKey::Rumor("r1".into()).npc_id_hint(), "r1");
    assert_eq!(AggregateKey::World("w1".into()).npc_id_hint(), "w1");
    assert_ne!(AggregateKey::Memory("x".into()), AggregateKey::Rumor("x".into()));
    assert_ne!(AggregateKey::Rumor("x".into()), AggregateKey::World("x".into()));
}

#[test]
fn new_builds_from_string_like() {
    let id = SceneId::new("a", "b");
    assert_eq!(id.npc_id, "a");
    assert_eq!(id.partner_id, "b");
}

#[test]
fn composite_key_is_order_sensitive() {
    let a = SceneId::new("alice", "bob");
    let b = SceneId::new("bob", "alice");
    assert_ne!(a, b, "(npc, partner) 순서는 의미 있음");
}

#[test]
fn hashable_for_hashmap_key() {
    let mut set: HashSet<SceneId> = HashSet::new();
    set.insert(SceneId::new("a", "b"));
    set.insert(SceneId::new("a", "b"));
    assert_eq!(set.len(), 1);
}

#[test]
fn display_shows_npc_partner_arrow() {
    let id = SceneId::new("a", "b");
    assert_eq!(id.to_string(), "a↔b");
}

#[test]
fn display_keeps_empty_and_non_ascii_ids() {
    assert_eq!(SceneId::new("", "").to_string(), "↔");
    assert_eq!(SceneId::new("무백", "교룡").to_string(), "무백↔교룡");
    assert_eq!(AggregateKey::Npc(String::new()).to_string(), "Npc()");
}

#[test]
fn from_scene_extracts_ids() {
    let scene = Scene::new("alice".into(), "bob".into(), vec![]);
    let id: SceneId = (&scene).into();
    assert_eq!(id, SceneId::new("alice", "bob"));
}
