use npc_mind::clock::epoch_millis;
use npc_mind::aggregate::AggregateKey;
use npc_mind::emotion::{EventFocus, Situation};
use npc_mind::event::{
    DomainEvent, EventKind, EventMetadata, EventPayload, ListenerRole, PadBits, RelationshipChangeCause,
};
use npc_mind::memory::{MemoryLayer, MemoryScope, MemorySource, MemoryType, Provenance};
use npc_mind::rumor::{ReachPolicy, RumorOrigin};

fn make_event(payload: EventPayload) -> DomainEvent {
    DomainEvent::new(1, "test".into(), 1, payload)
}

fn zero_pad() -> PadBits {
    PadBits { pleasure: 0, arousal: 0, dominance: 0 }
}

fn trivial_situation() -> Situation {
    Situation::new(
        "test situation",
        Some(EventFocus {
            description: "test event".into(),
            desirability_for_self: 0.0f32.to_bits(),
            desirability_for_other: None,
            prospect: None,
        }),
        None,
        None,
    )
    .expect("Situation with event focus must be valid")
}

#[test]
fn kind_matches_payload_type_for_all_variants() {
    let one = 1.0f32.to_bits();
    let cases: Vec<(EventPayload, EventKind, &'static str)> = vec![
        (
            EventPayload::AppraiseRequested { npc_id: "a".into(), partner_id: "b".into(), situation: trivial_situation() },
            EventKind::AppraiseRequested,
            "AppraiseRequested",
        ),
        (
            EventPayload::StimulusApplyRequested {
                npc_id: "a".into(),
                partner_id: "b".into(),
                pad: zero_pad(),
                situation_description: None,
            },
            EventKind::StimulusApplyRequested,
            "StimulusApplyRequested",
        ),
        (
            EventPayload::EmotionAppraised {
                npc_id: "a".into(),
                partner_id: "b".into(),
                situation_description: None,
                dominant: None,
                mood: 0,
                emotion_snapshot: vec![],
            },
            EventKind::EmotionAppraised,
            "EmotionAppraised",
        ),
        (
            EventPayload::StimulusApplied {
                npc_id: "a".into(),
                partner_id: "b".into(),
                pad: zero_pad(),
                mood_before: 0,
                mood_after: 0,
                beat_changed: false,
                emotion_snapshot: vec![],
            },
            EventKind::StimulusApplied,
            "StimulusApplied",
        ),
        (
            EventPayload::BeatTransitioned {
                npc_id: "a".into(),
                partner_id: "b".into(),
                from_focus_id: None,
                to_focus_id: "f".into(),
            },
            EventKind::BeatTransitioned,
            "BeatTransitioned",
        ),
        (
            EventPayload::SceneStarted { npc_id: "a".into(), partner_id: "b".into(), focus_count: 0, initial_focus_id: None },
            EventKind::SceneStarted,
            "SceneStarted",
        ),
        (
            EventPayload::SceneEnded { npc_id: "a".into(), partner_id: "b".into() },
            EventKind::SceneEnded,
            "SceneEnded",
        ),
        (
            EventPayload::RelationshipUpdated {
                owner_id: "a".into(),
                target_id: "b".into(),
                before_closeness: 0,
                before_trust: 0,
                before_power: 0,
                after_closeness: 0,
                after_trust: 0,
                after_power: 0,
                cause: RelationshipChangeCause::Unspecified,
            },
            EventKind::RelationshipUpdated,
            "RelationshipUpdated",
        ),
        (
            EventPayload::GuideGenerated { npc_id: "a".into(), partner_id: "b".into() },
            EventKind::GuideGenerated,
            "GuideGenerated",
        ),
        (
            EventPayload::DialogueTurnCompleted {
                npc_id: "a".into(),
                partner_id: "b".into(),
                speaker: "user".into(),
                utterance: "hi".into(),
                emotion_snapshot: vec![],
            },
            EventKind::DialogueTurnCompleted,
            "DialogueTurnCompleted",
        ),
        (EventPayload::EmotionCleared { npc_id: "a".into() }, EventKind::EmotionCleared, "EmotionCleared"),
        (
            EventPayload::MemoryEntryCreated {
                entry_id: "mem-1".into(),
                scope: MemoryScope::Personal { npc_id: "a".into() },
                source: MemorySource::Experienced,
                provenance: Provenance::Runtime,
                memory_type: MemoryType::DialogueTurn,
                layer: MemoryLayer::A,
                topic: None,
                confidence: one,
                acquired_by: None,
                created_seq: 0,
                source_event_id: 1,
            },
            EventKind::MemoryEntryCreated,
            "MemoryEntryCreated",
        ),
        (
            EventPayload::MemoryEntrySuperseded {
                old_entry_id: "mem-1".into(),
                new_entry_id: "mem-2".into(),
                topic: Some("t".into()),
            },
            EventKind::MemoryEntrySuperseded,
            "MemoryEntrySuperseded",
        ),
        (
            EventPayload::MemoryEntryConsolidated {
                a_entry_ids: vec!["a1".into(), "a2".into()],
                b_entry_id: "b1".into(),
                scene_id: None,
            },
            EventKind::MemoryEntryConsolidated,
            "MemoryEntryConsolidated",
        ),
        (
            EventPayload::SeedRumorRequested {
                topic: Some("t".into()),
                seed_content: None,
                reach: ReachPolicy::default(),
                origin: RumorOrigin::Seeded,
            },
            EventKind::SeedRumorRequested,
            "SeedRumorRequested",
        ),
        (
            EventPayload::SpreadRumorRequested { rumor_id: "r1".into(), extra_recipients: vec![] },
            EventKind::SpreadRumorRequested,
            "SpreadRumorRequested",
        ),
        (
            EventPayload::RumorSeeded {
                rumor_id: "r1".into(),
                topic: Some("t".into()),
                origin: RumorOrigin::Seeded,
                seed_content: None,
                reach_policy: ReachPolicy::default(),
            },
            EventKind::RumorSeeded,
            "RumorSeeded",
        ),
        (
            EventPayload::RumorSpread {
                rumor_id: "r1".into(),
                hop_index: 0,
                recipients: vec!["a".into()],
                content_version: None,
            },
            EventKind::RumorSpread,
            "RumorSpread",
        ),
        (
            EventPayload::RumorDistorted { rumor_id: "r1".into(), distortion_id: "d1".into(), parent: None },
            EventKind::RumorDistorted,
            "RumorDistorted",
        ),
        (EventPayload::RumorFaded { rumor_id: "r1".into() }, EventKind::RumorFaded, "RumorFaded"),
        (
            EventPayload::TellInformationRequested {
                speaker: "a".into(),
                listeners: vec!["b".into()],
                overhearers: vec![],
                claim: "truth".into(),
                stated_confidence: one,
                origin_chain_in: vec![],
            },
            EventKind::TellInformationRequested,
            "TellInformationRequested",
        ),
        (
            EventPayload::InformationTold {
                speaker: "a".into(),
                listener: "b".into(),
                listener_role: ListenerRole::Direct,
                claim: "truth".into(),
                stated_confidence: one,
                origin_chain_in: vec![],
            },
            EventKind::InformationTold,
            "InformationTold",
        ),
    ];

    for (payload, expected_kind, expected_name) in cases {
        let ev = make_event(payload);
        assert_eq!(ev.kind(), expected_kind, "kind mismatch for {expected_name}");
        assert_eq!(ev.payload_type(), expected_name, "payload_type mismatch for {expected_name}");
    }
}

#[test]
fn aggregate_key_routes_scene_lifecycle_to_scene() {
    let started = make_event(EventPayload::SceneStarted {
        npc_id: "muback".into(),
        partner_id: "gyoryong".into(),
        focus_count: 0,
        initial_focus_id: None,
    });
    let ended = make_event(EventPayload::SceneEnded { npc_id: "muback".into(), partner_id: "gyoryong".into() });
    let expected = AggregateKey::Scene { npc_id: "muback".into(), partner_id: "gyoryong".into() };
    assert_eq!(started.aggregate_key(), expected);
    assert_eq!(ended.aggregate_key(), expected);
}

#[test]
fn aggregate_key_routes_relationship_to_relationship() {
    let ev = make_event(EventPayload::RelationshipUpdated {
        owner_id: "a".into(),
        target_id: "b".into(),
        before_closeness: 0,
        before_trust: 0,
        before_power: 0,
        after_closeness: 0,
        after_trust: 0,
        after_power: 0,
        cause: RelationshipChangeCause::Unspecified,
    });
    assert_eq!(ev.aggregate_key(), AggregateKey::Relationship { owner_id: "a".into(), target_id: "b".into() });
}

#[test]
fn aggregate_key_routes_update_request_owner_toward_partner() {
    let ev = make_event(EventPayload::RelationshipUpdateRequested {
        npc_id: "a".into(),
        partner_id: "b".into(),
        significance: None,
    });
    assert_eq!(ev.aggregate_key(), AggregateKey::Relationship { owner_id: "a".into(), target_id: "b".into() });
    let end = make_event(EventPayload::DialogueEndRequested { npc_id: "a".into(), partner_id: "b".into(), significance: None });
    assert_eq!(end.aggregate_key(), AggregateKey::Npc("a".into()));
}

#[test]
fn aggregate_key_routes_emotion_like_to_npc() {
    let ev = make_event(EventPayload::EmotionAppraised {
        npc_id: "muback".into(),
        partner_id: "gyoryong".into(),
        situation_description: None,
        dominant: None,
        mood: 0,
        emotion_snapshot: vec![],
    });
    assert_eq!(ev.aggregate_key(), AggregateKey::Npc("muback".into()));
}

#[test]
fn aggregate_key_routes_memory_events_to_memory() {
    let created = make_event(EventPayload::MemoryEntryCreated {
        entry_id: "mem-7".into(),
        scope: MemoryScope::Personal { npc_id: "a".into() },
        source: MemorySource::Experienced,
        provenance: Provenance::Runtime,
        memory_type: MemoryType::DialogueTurn,
        layer: MemoryLayer::A,
        topic: None,
        confidence: 1.0f32.to_bits(),
        acquired_by: None,
        created_seq: 0,
        source_event_id: 1,
    });
    assert_eq!(created.aggregate_key(), AggregateKey::Memory("mem-7".into()));

    let superseded = make_event(EventPayload::MemoryEntrySuperseded {
        old_entry_id: "mem-5".into(),
        new_entry_id: "mem-6".into(),
        topic: None,
    });
    assert_eq!(superseded.aggregate_key(), AggregateKey::Memory("mem-5".into()), "supersede는 old_entry_id 기준");

    let consolidated = make_event(EventPayload::MemoryEntryConsolidated {
        a_entry_ids: vec!["a1".into()],
        b_entry_id: "b1".into(),
        scene_id: None,
    });
    assert_eq!(consolidated.aggregate_key(), AggregateKey::Memory("b1".into()), "consolidation은 b_entry_id 기준");
}

#[test]
fn aggregate_key_routes_rumor_events_to_rumor() {
    let seeded = make_event(EventPayload::RumorSeeded {
        rumor_id: "r1".into(),
        topic: Some("t".into()),
        origin: RumorOrigin::Seeded,
        seed_content: None,
        reach_policy: ReachPolicy::default(),
    });
    assert_eq!(seeded.aggregate_key(), AggregateKey::Rumor("r1".into()));

    let spread = make_event(EventPayload::RumorSpread {
        rumor_id: "r1".into(),
        hop_index: 0,
        recipients: vec![],
        content_version: None,
    });
    assert_eq!(spread.aggregate_key(), AggregateKey::Rumor("r1".into()));
}

#[test]
fn aggregate_key_routes_seed_request_by_topic_with_orphan_fallback() {
    let with_topic = make_event(EventPayload::SeedRumorRequested {
        topic: Some("moorim-leader-change".into()),
        seed_content: None,
        reach: ReachPolicy::default(),
        origin: RumorOrigin::Seeded,
    });
    assert_eq!(with_topic.aggregate_key(), AggregateKey::Rumor("moorim-leader-change".into()));

    let orphan = make_event(EventPayload::SeedRumorRequested {
        topic: None,
        seed_content: Some("떠도는 흉흉한 얘기".into()),
        reach: ReachPolicy::default(),
        origin: RumorOrigin::Authored { by: None },
    });
    assert_eq!(orphan.aggregate_key(), AggregateKey::Rumor("orphan".into()));
}

#[test]
fn aggregate_key_routes_information_events_correctly() {
    let req = make_event(EventPayload::TellInformationRequested {
        speaker: "sage".into(),
        listeners: vec!["pupil".into(), "wanderer".into()],
        overhearers: vec![],
        claim: "맹주가 바뀐다".into(),
        stated_confidence: 0.8f32.to_bits(),
        origin_chain_in: vec!["sage".into()],
    });
    assert_eq!(req.aggregate_key(), AggregateKey::Npc("sage".into()));

    let told = make_event(EventPayload::InformationTold {
        speaker: "sage".into(),
        listener: "pupil".into(),
        listener_role: ListenerRole::Direct,
        claim: "맹주가 바뀐다".into(),
        stated_confidence: 0.8f32.to_bits(),
        origin_chain_in: vec!["sage".into()],
    });
    assert_eq!(told.aggregate_key(), AggregateKey::Npc("pupil".into()));
}

#[test]
fn new_event_has_no_correlation_until_given_one() {
    let ev = make_event(EventPayload::EmotionCleared { npc_id: "a".into() });
    assert_eq!(ev.metadata, EventMetadata::default());
    assert!(ev.metadata.correlation_id.is_none());
    assert!(ev.timestamp_ms > 0);
    let ev = ev.with_correlation(77);
    assert_eq!(ev.metadata.correlation_id, Some(77));
    assert_eq!(ev.aggregate_id, "test");
    assert_eq!(ev.sequence, 1);
}

#[test]
fn relationship_change_cause_defaults_to_unspecified() {
    assert_eq!(RelationshipChangeCause::default(), RelationshipChangeCause::Unspecified);
}

#[test]
fn aggregate_key_routes_beats_and_scene_requests_to_npc_until_payloads_name_the_scene() {
    let beat = make_event(EventPayload::BeatTransitioned {
        npc_id: "a".into(),
        partner_id: "b".into(),
        from_focus_id: None,
        to_focus_id: "f".into(),
    });
    assert_eq!(beat.aggregate_key(), AggregateKey::Npc("a".into()));
}

#[test]
fn epoch_millis_keeps_the_low_64_bits_and_reads_none_as_zero() {
    assert_eq!(epoch_millis(None), 0);
    assert_eq!(epoch_millis(Some(1_700_000_000_000)), 1_700_000_000_000);
    assert_eq!(epoch_millis(Some((1u128 << 64) + 5)), 5);
}
