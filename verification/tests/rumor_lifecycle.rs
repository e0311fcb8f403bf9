use npc_mind::rumor::{ReachPolicy, Rumor, RumorDistortion, RumorError, RumorHop, RumorOrigin, RumorStatus};

fn empty_reach() -> ReachPolicy {
    ReachPolicy::default()
}

fn hop(index: u32, version: Option<&str>, recipients: &[&str], at: u64) -> RumorHop {
    RumorHop {
        hop_index: index,
        content_version: version.map(|s| s.to_string()),
        recipients: recipients.iter().map(|s| s.to_string()).collect(),
        spread_at: at,
    }
}

fn distortion(id: &str, parent: Option<&str>, content: &str, at: u64) -> RumorDistortion {
    RumorDistortion { id: id.into(), parent: parent.map(|s| s.to_string()), content: content.into(), created_at: at }
}

#[test]
fn new_rumor_has_topic_no_seed_and_active() {
    let r = Rumor::new("r1", "topic-x", RumorOrigin::Seeded, empty_reach(), 100);
    assert_eq!(r.topic.as_deref(), Some("topic-x"));
    assert!(r.seed_content.is_none());
    assert_eq!(r.status(), RumorStatus::Active);
    assert!(!r.is_orphan());
}

#[test]
fn orphan_rumor_has_no_topic_but_has_seed() {
    let r = Rumor::orphan("r-orph", "강호에 이상한 기운이 돈다", RumorOrigin::Authored { by: None }, empty_reach(), 100);
    assert!(r.topic.is_none());
    assert!(r.seed_content.is_some());
    assert!(r.is_orphan());
}

#[test]
fn forecast_rumor_has_both_topic_and_seed() {
    let r = Rumor::with_forecast_content(
        "r-forecast",
        "moorim-leader-change",
        "조만간 무림맹주가 바뀐다더라",
        RumorOrigin::Authored { by: Some("informant".into()) },
        empty_reach(),
        100,
    );
    assert_eq!(r.topic.as_deref(), Some("moorim-leader-change"));
    assert_eq!(r.seed_content.as_deref(), Some("조만간 무림맹주가 바뀐다더라"));
}

#[test]
fn add_hop_enforces_monotonic_index() {
    let mut r = Rumor::new("r1", "topic", RumorOrigin::Seeded, empty_reach(), 0);
    assert_eq!(r.next_hop_index(), 0);
    r.add_hop(hop(0, None, &["a"], 1)).unwrap();
    assert_eq!(r.next_hop_index(), 1);
    let err = r.add_hop(hop(0, None, &[], 2)).unwrap_err();
    assert!(matches!(err, RumorError::HopIndexNotMonotonic { .. }));
    r.add_hop(hop(1, None, &["b"], 3)).unwrap();
    assert_eq!(r.hops().len(), 2);
}

#[test]
fn add_distortion_rejects_missing_parent_and_self_parent() {
    let mut r = Rumor::new("r1", "topic", RumorOrigin::Seeded, empty_reach(), 0);
    r.add_distortion(distortion("d1", None, "원본 변형", 1)).unwrap();
    let err = r.add_distortion(distortion("d2", Some("d2"), "self-loop", 2)).unwrap_err();
    assert!(matches!(err, RumorError::DistortionSelfParent { .. }));
    let err = r.add_distortion(distortion("d3", Some("ghost"), "orphan-parent", 3)).unwrap_err();
    assert!(matches!(err, RumorError::DistortionParentNotFound { .. }));
    r.add_distortion(distortion("d4", Some("d1"), "chain", 4)).unwrap();
    assert_eq!(r.distortions().len(), 2);
}

#[test]
fn add_distortion_rejects_duplicate_id() {
    let mut r = Rumor::new("r1", "topic", RumorOrigin::Seeded, empty_reach(), 0);
    r.add_distortion(distortion("d1", None, "a", 1)).unwrap();
    let err = r.add_distortion(distortion("d1", None, "b", 2)).unwrap_err();
    assert!(matches!(err, RumorError::DuplicateDistortionId { .. }));
}

#[test]
fn status_transitions_active_to_fading_to_faded() {
    let mut r = Rumor::new("r1", "topic", RumorOrigin::Seeded, empty_reach(), 0);
    r.transition_to(RumorStatus::Fading).unwrap();
    assert_eq!(r.status(), RumorStatus::Fading);
    r.transition_to(RumorStatus::Faded).unwrap();
    assert_eq!(r.status(), RumorStatus::Faded);
}

#[test]
fn status_transitions_allow_active_to_faded_directly() {
    let mut r = Rumor::new("r1", "topic", RumorOrigin::Seeded, empty_reach(), 0);
    r.transition_to(RumorStatus::Faded).unwrap();
    assert_eq!(r.status(), RumorStatus::Faded);
}

#[test]
fn status_transitions_reject_backward_and_same() {
    let mut r = Rumor::new("r1", "topic", RumorOrigin::Seeded, empty_reach(), 0);
    r.transition_to(RumorStatus::Faded).unwrap();
    let err = r.transition_to(RumorStatus::Active).unwrap_err();
    assert!(matches!(err, RumorError::InvalidStatusTransition { .. }));
    r.transition_to(RumorStatus::Faded).unwrap();
}

#[test]
fn rejected_changes_leave_the_rumor_unchanged() {
    let mut r = Rumor::new("r1", "topic", RumorOrigin::Seeded, empty_reach(), 0);
    r.add_hop(hop(0, None, &["a"], 1)).unwrap();
    assert!(r.add_hop(hop(0, None, &["b"], 2)).is_err());
    assert!(r.add_distortion(distortion("d1", Some("nope"), "x", 3)).is_err());
    r.transition_to(RumorStatus::Faded).unwrap();
    assert!(r.transition_to(RumorStatus::Fading).is_err());
    assert_eq!(r.hops().len(), 1);
    assert!(r.distortions().is_empty());
    assert_eq!(r.status(), RumorStatus::Faded);
    assert!(r.validate().is_ok());
}

#[test]
fn from_parts_validates_orphan_requires_seed() {
    let err = Rumor::from_parts("r1".into(), None, None, RumorOrigin::Seeded, empty_reach(), vec![], vec![], 0, RumorStatus::Active)
        .unwrap_err();
    assert_eq!(err, RumorError::OrphanRumorMissingSeed);
}

#[test]
fn from_parts_validates_hop_monotonicity() {
    let err = Rumor::from_parts(
        "r1".into(),
        Some("t".into()),
        None,
        RumorOrigin::Seeded,
        empty_reach(),
        vec![hop(1, None, &[], 1), hop(0, None, &[], 2)],
        vec![],
        0,
        RumorStatus::Active,
    )
    .unwrap_err();
    assert!(matches!(err, RumorError::HopIndexNotMonotonic { .. }));
}

#[test]
fn from_parts_detects_two_node_cycle() {
    let err = Rumor::from_parts(
        "r1".into(),
        Some("t".into()),
        None,
        RumorOrigin::Seeded,
        empty_reach(),
        vec![],
        vec![distortion("d1", Some("d2"), "a", 1), distortion("d2", Some("d1"), "b", 2)],
        0,
        RumorStatus::Active,
    )
    .unwrap_err();
    assert!(matches!(err, RumorError::DistortionCycle { .. }), "2-node cycle must be caught, got {err:?}");
}

#[test]
fn from_parts_detects_three_node_cycle() {
    let err = Rumor::from_parts(
        "r1".into(),
        Some("t".into()),
        None,
        RumorOrigin::Seeded,
        empty_reach(),
        vec![],
        vec![
            distortion("d1", Some("d3"), "a", 1),
            distortion("d2", Some("d1"), "b", 2),
            distortion("d3", Some("d2"), "c", 3),
        ],
        0,
        RumorStatus::Active,
    )
    .unwrap_err();
    assert!(matches!(err, RumorError::DistortionCycle { .. }), "3-node cycle must be caught, got {err:?}");
}

#[test]
fn from_parts_accepts_valid_topological_order() {
    let r = Rumor::from_parts(
        "r1".into(),
        Some("t".into()),
        None,
        RumorOrigin::Seeded,
        empty_reach(),
        vec![],
        vec![
            distortion("d1", None, "root", 1),
            distortion("d2", Some("d1"), "child", 2),
            distortion("d3", Some("d2"), "grandchild", 3),
        ],
        0,
        RumorStatus::Active,
    )
    .unwrap();
    assert_eq!(r.distortions().len(), 3);
}

#[test]
fn add_hop_rejects_unknown_content_version() {
    let mut r = Rumor::new("r1", "t", RumorOrigin::Seeded, empty_reach(), 0);
    let err = r.add_hop(hop(0, Some("ghost"), &["a"], 1)).unwrap_err();
    assert!(matches!(err, RumorError::HopContentVersionUnknown { .. }));
    r.add_distortion(distortion("d1", None, "a", 2)).unwrap();
    r.add_hop(hop(0, Some("d1"), &["a"], 3)).unwrap();
}

#[test]
fn from_parts_rejects_unknown_content_version() {
    let err = Rumor::from_parts(
        "r1".into(),
        Some("t".into()),
        None,
        RumorOrigin::Seeded,
        empty_reach(),
        vec![hop(0, Some("ghost"), &[], 1)],
        vec![],
        0,
        RumorStatus::Active,
    )
    .unwrap_err();
    assert!(matches!(err, RumorError::HopContentVersionUnknown { .. }));
}

#[test]
fn fade_steps_down_and_fade_out_ends() {
    let mut r = Rumor::new("r1", "t", RumorOrigin::FromWorldEvent { event_id: 42 }, empty_reach(), 0);
    r.fade().unwrap();
    assert_eq!(r.status(), RumorStatus::Fading);
    r.fade_out().unwrap();
    assert_eq!(r.status(), RumorStatus::Faded);
}

#[test]
fn rumor_stays_valid_through_accepted_and_refused_calls() {
    let mut r = Rumor::orphan("r-law", "seed", RumorOrigin::Seeded, empty_reach(), 0);
    assert_eq!(r.validate(), Ok(()));
    assert!(r.add_hop(hop(0, None, &["a"], 1)).is_ok());
    assert!(r.add_hop(hop(0, None, &["b"], 2)).is_err());
    assert!(r.add_hop(hop(1, Some("d-missing"), &["b"], 2)).is_err());
    assert!(r.add_distortion(distortion("d1", None, "v1", 3)).is_ok());
    assert!(r.add_distortion(distortion("d2", Some("d-none"), "v2", 4)).is_err());
    assert!(r.add_distortion(distortion("d2", Some("d1"), "v2", 4)).is_ok());
    assert!(r.add_hop(hop(1, Some("d2"), &["c"], 5)).is_ok());
    assert!(r.fade().is_ok());
    assert!(r.transition_to(RumorStatus::Active).is_err());
    assert!(r.fade_out().is_ok());
    assert_eq!(r.validate(), Ok(()));
}

#[test]
fn emptied_orphan_fails_validation() {
    let mut r = Rumor::orphan("r-law2", "seed", RumorOrigin::Seeded, empty_reach(), 0);
    r.seed_content = None;
    assert_eq!(r.validate(), Err(RumorError::OrphanRumorMissingSeed));
}
