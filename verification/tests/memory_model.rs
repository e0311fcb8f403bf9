use npc_mind::memory::ranker::{keep_min_priority, select_ranked, topic_survivors, DecayTauTable};
use npc_mind::memory::service::{AugmentAction, AugmentEvent, MemoryAugmentationService, MemoryScopeFilter};
use npc_mind::memory::{
    default_layer, default_personal_scope, default_provenance, default_source, MemoryEntry, MemoryLayer, MemoryScope,
    MemorySource, MemoryType, Provenance,
};

#[test]
fn memory_scope_relationship_symmetry() {
    let ab = MemoryScope::relationship("a", "b");
    let ba = MemoryScope::relationship("b", "a");
    assert_eq!(ab, ba);
    if let MemoryScope::Relationship { a, b } = &ab {
        assert_eq!(a, "a");
        assert_eq!(b, "b");
    } else {
        panic!("expected Relationship");
    }
}

#[test]
fn relationship_scope_orders_by_bytes() {
    let s = MemoryScope::relationship("npc-b", "NPC-a");
    assert_eq!(s, MemoryScope::Relationship { a: "NPC-a".into(), b: "npc-b".into() });
    let same = MemoryScope::relationship("x", "x");
    assert_eq!(same, MemoryScope::Relationship { a: "x".into(), b: "x".into() });
    let prefix = MemoryScope::relationship("ab", "a");
    assert_eq!(prefix.partition_key(), "relationship:a:ab");
}

#[test]
fn memory_scope_partition_key_format() {
    assert_eq!(MemoryScope::Personal { npc_id: "npc1".into() }.partition_key(), "personal:npc1");
    assert_eq!(MemoryScope::relationship("z", "a").partition_key(), "relationship:a:z");
    assert_eq!(MemoryScope::Faction { faction_id: "moorim".into() }.partition_key(), "faction:moorim");
    assert_eq!(MemoryScope::Family { family_id: "namgoong".into() }.partition_key(), "family:namgoong");
    assert_eq!(MemoryScope::World { world_id: "jianghu".into() }.partition_key(), "world:jianghu");
}

#[test]
fn memory_scope_owner_projection() {
    let rel = MemoryScope::relationship("z", "a");
    assert_eq!(rel.owner_a(), "a");
    assert_eq!(rel.owner_b(), Some("z"));
    assert_eq!(rel.kind(), "relationship");

    let personal = MemoryScope::Personal { npc_id: "npc1".into() };
    assert_eq!(personal.owner_a(), "npc1");
    assert_eq!(personal.owner_b(), None);
}

#[test]
fn memory_scope_kinds() {
    assert_eq!(MemoryScope::Faction { faction_id: "f".into() }.kind(), "faction");
    assert_eq!(MemoryScope::Family { family_id: "f".into() }.kind(), "family");
    assert_eq!(MemoryScope::World { world_id: "w".into() }.kind(), "world");
    assert_eq!(MemoryScope::World { world_id: "w".into() }.owner_a(), "w");
}

#[test]
fn memory_source_from_origin_chain() {
    assert_eq!(MemorySource::from_origin_chain(0, None), MemorySource::Rumor);
    assert_eq!(MemorySource::from_origin_chain(1, None), MemorySource::Heard);
    assert_eq!(MemorySource::from_origin_chain(2, None), MemorySource::Rumor);
    assert_eq!(MemorySource::from_origin_chain(5, None), MemorySource::Rumor);
    assert_eq!(MemorySource::from_origin_chain(3, Some(MemorySource::Experienced)), MemorySource::Experienced);
    assert_eq!(MemorySource::from_origin_chain(0, Some(MemorySource::Witnessed)), MemorySource::Witnessed);
    assert_eq!(MemorySource::from_origin_chain(0, Some(MemorySource::Heard)), MemorySource::Rumor);
}

#[test]
fn memory_source_priority_ordering() {
    assert!(MemorySource::Experienced.priority() < MemorySource::Witnessed.priority());
    assert!(MemorySource::Witnessed.priority() < MemorySource::Heard.priority());
    assert!(MemorySource::Heard.priority() < MemorySource::Rumor.priority());
}

#[test]
fn memory_source_weights_decrease_toward_hearsay() {
    let w = |s: MemorySource| f32::from_bits(s.weight());
    assert_eq!(w(MemorySource::Experienced), 1.00);
    assert_eq!(w(MemorySource::Witnessed), 0.85);
    assert_eq!(w(MemorySource::Heard), 0.60);
    assert_eq!(w(MemorySource::Rumor), 0.35);
}

#[test]
fn provenance_is_canonical() {
    let world = MemoryScope::World { world_id: "w".into() };
    let personal = MemoryScope::Personal { npc_id: "n".into() };
    assert!(Provenance::Seeded.is_canonical(&world));
    assert!(!Provenance::Seeded.is_canonical(&personal));
    assert!(!Provenance::Runtime.is_canonical(&world));
}

#[test]
fn memory_entry_personal_helper_backward_compat() {
    let ctx = (0.1f32.to_bits(), 0.2f32.to_bits(), 0.3f32.to_bits());
    let e = MemoryEntry::personal("mem-000001", "npc1", "hello", Some(ctx), 1234, 42, MemoryType::DialogueTurn);
    assert_eq!(e.id, "mem-000001");
    assert_eq!(e.npc_id, "npc1");
    assert_eq!(e.scope, MemoryScope::Personal { npc_id: "npc1".into() });
    assert_eq!(e.source, MemorySource::Experienced);
    assert_eq!(e.provenance, Provenance::Runtime);
    assert_eq!(e.layer, MemoryLayer::A);
    assert_eq!(f32::from_bits(e.confidence), 1.0);
    assert_eq!(e.recall_count, 0);
    assert_eq!(e.created_seq, 42);
    assert!(e.origin_chain.is_empty());
    assert!(e.topic.is_none());
    assert_eq!(e.legacy_npc_id(), "npc1");
}

#[test]
fn summaries_start_on_layer_b() {
    let e = MemoryEntry::personal("m", "npc1", "scene", None, 0, 7, MemoryType::SceneSummary);
    assert_eq!(e.layer, MemoryLayer::B);
    assert_eq!(e.emotional_context, None);
}

#[test]
fn memory_type_from_persisted_accepts_old_names() {
    assert_eq!(MemoryType::from_persisted("Dialogue"), Some(MemoryType::DialogueTurn));
    assert_eq!(MemoryType::from_persisted("SceneEnd"), Some(MemoryType::SceneSummary));
    assert_eq!(MemoryType::from_persisted("Relationship"), Some(MemoryType::RelationshipChange));
    assert_eq!(MemoryType::from_persisted("WorldEvent"), Some(MemoryType::WorldEvent));
    assert_eq!(MemoryType::from_persisted("unknown"), None);
    assert_eq!(MemoryType::from_persisted("dialogueturn"), None);
}

#[test]
fn memory_type_persisted_names_read_back() {
    for t in [
        MemoryType::DialogueTurn,
        MemoryType::RelationshipChange,
        MemoryType::BeatTransition,
        MemoryType::SceneSummary,
        MemoryType::GameEvent,
        MemoryType::WorldEvent,
        MemoryType::FactionKnowledge,
        MemoryType::FamilyFact,
    ] {
        assert_eq!(MemoryType::from_persisted(t.as_persisted()), Some(t));
    }
}

#[test]
fn memory_type_initial_layer() {
    assert_eq!(MemoryType::DialogueTurn.initial_layer(), MemoryLayer::A);
    assert_eq!(MemoryType::BeatTransition.initial_layer(), MemoryLayer::A);
    assert_eq!(MemoryType::SceneSummary.initial_layer(), MemoryLayer::B);
    assert_eq!(MemoryType::WorldEvent.initial_layer(), MemoryLayer::A);
}

#[test]
fn stored_entry_defaults() {
    assert_eq!(default_personal_scope(), MemoryScope::Personal { npc_id: String::new() });
    assert_eq!(default_source(), MemorySource::Experienced);
    assert_eq!(default_provenance(), Provenance::Runtime);
    assert_eq!(default_layer(), MemoryLayer::A);
}

#[test]
fn augmentation_service_is_stateless() {
    assert_eq!(MemoryAugmentationService::new(), MemoryAugmentationService::default());
}

#[test]
fn decay_tau_table_rows_and_default() {
    let t = DecayTauTable::default_table();
    let days = |ty: MemoryType, s: MemorySource, p: Provenance| f32::from_bits(t.lookup(&ty, s, p));
    assert_eq!(days(MemoryType::DialogueTurn, MemorySource::Experienced, Provenance::Runtime), 15.0);
    assert_eq!(days(MemoryType::DialogueTurn, MemorySource::Rumor, Provenance::Runtime), 7.0);
    assert_eq!(days(MemoryType::WorldEvent, MemorySource::Witnessed, Provenance::Runtime), 180.0);
    assert!(days(MemoryType::FamilyFact, MemorySource::Experienced, Provenance::Seeded).is_infinite());
    assert_eq!(days(MemoryType::GameEvent, MemorySource::Experienced, Provenance::Runtime), 30.0);
    assert_eq!(days(MemoryType::FamilyFact, MemorySource::Experienced, Provenance::Runtime), 30.0);
}

#[test]
fn only_the_most_direct_sources_of_a_group_survive() {
    let group = vec![MemorySource::Heard, MemorySource::Witnessed, MemorySource::Rumor, MemorySource::Witnessed];
    assert_eq!(keep_min_priority(&group), vec![false, true, false, true]);
    assert!(keep_min_priority(&vec![]).is_empty());
    assert_eq!(keep_min_priority(&vec![MemorySource::Rumor]), vec![true]);
}

fn topical(id: &str, topic: Option<&str>, source: MemorySource) -> MemoryEntry {
    let mut e = MemoryEntry::personal(id, "npc1", "c", None, 0, 1, MemoryType::DialogueTurn);
    e.topic = topic.map(|t| t.to_string());
    e.source = source;
    e
}

#[test]
fn topic_survivors_keep_the_most_direct_per_topic() {
    let es = vec![
        topical("a", Some("war"), MemorySource::Heard),
        topical("b", Some("war"), MemorySource::Witnessed),
        topical("c", Some("feast"), MemorySource::Rumor),
        topical("d", None, MemorySource::Experienced),
        topical("e", Some("war"), MemorySource::Witnessed),
    ];
    assert_eq!(topic_survivors(&es), vec![false, true, true, false, true]);
}

#[test]
fn select_ranked_keeps_best_first_above_cutoff_up_to_limit() {
    let s: Vec<u32> = [0.2f32, 0.9, f32::NAN, 0.5, 0.9, 0.05, -0.0].iter().map(|x| x.to_bits()).collect();
    assert_eq!(select_ranked(&s, 0.1f32.to_bits(), 0), vec![1, 4, 3, 0]);
    assert_eq!(select_ranked(&s, 0.1f32.to_bits(), 2), vec![1, 4]);
    assert_eq!(select_ranked(&s, 0.0f32.to_bits(), 10), vec![1, 4, 3, 0, 5, 6]);
    assert!(select_ranked(&s, f32::NAN.to_bits(), 0).is_empty());
    assert!(select_ranked(&Vec::new(), 0, 3).is_empty());
}

#[test]
fn augmentation_search_and_steps() {
    let svc = MemoryAugmentationService::new();
    let q = svc.search_query("npc1", "what happened?", None, None, 5, 0.1f32.to_bits());
    assert_eq!(q.limit, 15);
    assert_eq!(q.text.as_deref(), Some("what happened?"));
    assert_eq!(q.scope_filter, Some(MemoryScopeFilter::NpcAllowed("npc1".into())));
    assert!(q.exclude_superseded && q.exclude_consolidated_source);
    assert_eq!(q.min_retention, Some(0.1f32.to_bits()));
    assert!(matches!(svc.next_action(AugmentEvent::SearchFailed), AugmentAction::EmptyBlock));
    assert!(matches!(svc.next_action(AugmentEvent::Found(vec![])), AugmentAction::EmptyBlock));
    assert!(matches!(svc.next_action(AugmentEvent::Ranked(vec![])), AugmentAction::EmptyBlock));
    let e = MemoryEntry::personal("m1", "npc1", "c", None, 0, 1, MemoryType::DialogueTurn);
    let e2 = MemoryEntry::personal("m2", "npc1", "d", None, 0, 2, MemoryType::DialogueTurn);
    assert!(matches!(svc.next_action(AugmentEvent::Found(vec![e.clone()])), AugmentAction::Rank(v) if v.len() == 1));
    match svc.next_action(AugmentEvent::Ranked(vec![e2, e])) {
        AugmentAction::RecallAndFrame { recall, frame } => {
            assert_eq!(recall, vec!["m2".to_string(), "m1".to_string()]);
            assert_eq!(frame.len(), 2);
        }
        _ => panic!("expected recall and frame"),
    }
}

#[test]
fn augmentation_starts_with_one_search() {
    let svc = MemoryAugmentationService::new();
    let start = AugmentEvent::Start {
        npc_id: "npc1".into(),
        text: "hello".into(),
        embedding: None,
        pad: None,
        top_k: 4,
        retention_cutoff: 0.1f32.to_bits(),
    };
    match svc.next_action(start) {
        AugmentAction::Search(q) => {
            assert_eq!(q.limit, 12);
            assert_eq!(q.scope_filter, Some(MemoryScopeFilter::NpcAllowed("npc1".into())));
            assert_eq!(q.text.as_deref(), Some("hello"));
        }
        _ => panic!("expected a search"),
    }
}
