use npc_mind::world::group::{detect_parent_group_cycle, Group, GroupFilter, GroupId, GroupStatus};
use npc_mind::world::ExtraValue;

fn g_with_parent(id: &str, parent: Option<&str>) -> Group {
    let mut g = Group::new(id, "alliance", id);
    g.parent_group = parent.map(GroupId::new);
    g
}

#[test]
fn group_new_sets_defaults() {
    let g = Group::new("group-test", "alliance", "테스트");
    assert_eq!(g.id.as_str(), "group-test");
    assert_eq!(g.kind, "alliance");
    assert_eq!(g.name, "테스트");
    assert!(g.aliases.is_empty());
    assert_eq!(g.temporal.status, GroupStatus::Active);
    assert!(g.parent_group.is_none());
}

#[test]
fn group_status_from_str_loose() {
    assert_eq!(GroupStatus::from_str_loose("Active"), Some(GroupStatus::Active));
    assert_eq!(GroupStatus::from_str_loose("  declining  "), Some(GroupStatus::Declining));
    assert_eq!(GroupStatus::from_str_loose("invalid"), None);
}

#[test]
fn group_status_names_read_back() {
    for s in [GroupStatus::Active, GroupStatus::Declining, GroupStatus::Dissolved, GroupStatus::Dormant] {
        assert_eq!(GroupStatus::from_str_loose(s.as_str()), Some(s));
    }
    assert_eq!(GroupStatus::from_str_loose("\tDORMANT\n"), Some(GroupStatus::Dormant));
    assert_eq!(GroupStatus::from_str_loose(""), None);
}

#[test]
fn group_cycle_detection_finds_self_loop() {
    let groups = vec![g_with_parent("group-a", Some("group-a"))];
    let cycles = detect_parent_group_cycle(&groups);
    assert_eq!(cycles.len(), 1);
    assert_eq!(cycles[0], vec![GroupId::new("group-a")]);
}

#[test]
fn group_cycle_detection_finds_two_node_cycle() {
    let groups = vec![
        g_with_parent("group-a", Some("group-b")),
        g_with_parent("group-b", Some("group-a")),
    ];
    let cycles = detect_parent_group_cycle(&groups);
    assert_eq!(cycles.len(), 1);
    assert_eq!(cycles[0], vec![GroupId::new("group-a"), GroupId::new("group-b")]);
}

#[test]
fn group_cycle_detection_clean_chain_returns_empty() {
    let groups = vec![
        g_with_parent("group-shipsangsi", Some("group-daejin-court")),
        g_with_parent("group-daejin-court", None),
    ];
    let cycles = detect_parent_group_cycle(&groups);
    assert!(cycles.is_empty());
}

#[test]
fn cycle_detection_finds_three_node_cycle() {
    let groups = vec![
        g_with_parent("group-a", Some("group-b")),
        g_with_parent("group-b", Some("group-c")),
        g_with_parent("group-c", Some("group-a")),
    ];
    let cycles = detect_parent_group_cycle(&groups);
    assert_eq!(cycles.len(), 1);
    assert_eq!(
        cycles[0],
        vec![GroupId::new("group-a"), GroupId::new("group-b"), GroupId::new("group-c")]
    );
}

#[test]
fn cycle_detection_finds_two_disjoint_cycles() {
    let groups = vec![
        g_with_parent("group-a", Some("group-b")),
        g_with_parent("group-b", Some("group-a")),
        g_with_parent("group-c", Some("group-d")),
        g_with_parent("group-d", Some("group-c")),
    ];
    let cycles = detect_parent_group_cycle(&groups);
    assert_eq!(cycles.len(), 2);
    assert_eq!(cycles[0], vec![GroupId::new("group-a"), GroupId::new("group-b")]);
    assert_eq!(cycles[1], vec![GroupId::new("group-c"), GroupId::new("group-d")]);
}

#[test]
fn cycle_detection_tail_cycle_excludes_prefix() {
    let groups = vec![
        g_with_parent("group-a", Some("group-b")),
        g_with_parent("group-b", Some("group-c")),
        g_with_parent("group-c", Some("group-b")),
    ];
    let cycles = detect_parent_group_cycle(&groups);
    assert_eq!(cycles.len(), 1);
    assert_eq!(cycles[0], vec![GroupId::new("group-b"), GroupId::new("group-c")]);
    assert!(!cycles[0].contains(&GroupId::new("group-a")));
}

#[test]
fn group_cycle_detection_dangling_parent_is_not_cycle() {
    let groups = vec![g_with_parent("group-a", Some("group-missing"))];
    let cycles = detect_parent_group_cycle(&groups);
    assert!(cycles.is_empty());
}

#[test]
fn cycle_detection_rotates_to_smallest_id_whatever_the_input_order() {
    let groups = vec![
        g_with_parent("group-z", Some("group-m")),
        g_with_parent("group-m", Some("group-b")),
        g_with_parent("group-b", Some("group-z")),
    ];
    let cycles = detect_parent_group_cycle(&groups);
    assert_eq!(
        cycles,
        vec![vec![GroupId::new("group-b"), GroupId::new("group-z"), GroupId::new("group-m")]]
    );
}

#[test]
fn alignment_extracts_from_extras() {
    let mut g = Group::new("group-test", "alliance", "test");
    g.extras.push(("alignment".into(), ExtraValue::Text("orthodox".into())));
    assert_eq!(g.alignment(), Some("orthodox"));

    let g_none = Group::new("group-empty", "alliance", "empty");
    assert_eq!(g_none.alignment(), None);
}

#[test]
fn alignment_ignores_non_text_values() {
    let mut g = Group::new("group-test", "alliance", "test");
    g.extras.push(("alignment".into(), ExtraValue::Json("3".into())));
    assert_eq!(g.alignment(), None);
}

#[test]
fn group_filter_default_is_empty() {
    let f = GroupFilter::default();
    assert!(f.kind.is_none());
    assert!(f.status.is_none());
    assert!(f.parent_group.is_none());
    assert!(f.genre_tag.is_none());
    assert!(f.alignment.is_none());
}
