//! Group aggregate: an organisation of the world. Its `kind` is free text
//! that the genre fills in; the `parent_group` chain must not form cycles.

use std::collections::BTreeMap;
use vstd::prelude::*;
use crate::text::loose_eq;
use crate::world::{ExtraValue, lookup_extra_text, extra_text};
use crate::world::graph::{is_cycle_report, parent_cycles, views, opt_views};

verus! {

/// Group identifier, `group-{slug}`.
#[derive(Debug, Clone, PartialEq, Eq, Hash, PartialOrd, Ord)]
pub struct GroupId(pub String);

impl View for GroupId {
    type V = Seq<char>;

    open spec fn view(&self) -> Seq<char> {
        self.0@
    }
}

impl GroupId {
    pub fn new(s: &str) -> (r: GroupId)
        ensures
            r@ == s@,
    {
        GroupId(s.to_owned())
    }

    pub fn as_str(&self) -> (r: &str)
        ensures
            r@ == self@,
    {
        self.0.as_str()
    }

    /// A copy with the same text.
    pub fn duplicate(&self) -> (r: GroupId)
        ensures
            r@ == self@,
    {
        GroupId(self.0.clone())
    }
}

impl From<String> for GroupId {
    fn from(s: String) -> (r: GroupId) {
        GroupId(s)
    }
}

impl vstd::std_specs::convert::FromSpecImpl<String> for GroupId {
    open spec fn obeys_from_spec() -> bool {
        true
    }

    open spec fn from_spec(v: String) -> GroupId {
        GroupId(v)
    }
}

impl From<&str> for GroupId {
    fn from(s: &str) -> (r: GroupId)
        ensures
            r@ == s@,
    {
        GroupId(s.to_owned())
    }
}

impl vstd::std_specs::convert::FromSpecImpl<&str> for GroupId {
    /// `from` itself states the result (its text is `s`); this generic
    /// description is not used.
    open spec fn obeys_from_spec() -> bool {
        false
    }

    open spec fn from_spec(v: &str) -> GroupId {
        GroupId(<String as vstd::std_specs::convert::FromSpec<&str>>::from_spec(v))
    }
}

/// Activity of a group.
#[derive(Debug, Clone, Copy, PartialEq, Eq, Structural)]
pub enum GroupStatus {
    Active,
    Declining,
    Dissolved,
    /// Withdrawn from activity without being dissolved.
    Dormant,
}

impl Default for GroupStatus {
    fn default() -> (r: GroupStatus)
        ensures
            r == GroupStatus::Active,
    {
        GroupStatus::Active
    }
}

/// Reading a status's name loosely gives the status back.
pub proof fn law_group_status_round_trip(s: GroupStatus)
    ensures
        group_status_parse(crate::text::loose_form(group_status_name(s))) == Some(s),
{
    reveal_strlit("active");
    reveal_strlit("declining");
    reveal_strlit("dissolved");
    reveal_strlit("dormant");
    crate::text::lemma_loose_form_of_word("active"@);
    crate::text::lemma_loose_form_of_word("declining"@);
    crate::text::lemma_loose_form_of_word("dissolved"@);
    crate::text::lemma_loose_form_of_word("dormant"@);
}

impl GroupStatus {
    pub fn as_str(self) -> (r: &'static str)
        ensures
            r@ == group_status_name(self),
    {
        match self {
            GroupStatus::Active => "active",
            GroupStatus::Declining => "declining",
            GroupStatus::Dissolved => "dissolved",
            GroupStatus::Dormant => "dormant",
        }
    }

    /// The status whose name equals `s` once trimmed and lower-cased.
    pub fn from_str_loose(s: &str) -> (r: Option<GroupStatus>)
        ensures
            r == group_status_parse(crate::text::loose_form(s@)),
    {
        proof {
            reveal_strlit("active");
            reveal_strlit("declining");
            reveal_strlit("dissolved");
            reveal_strlit("dormant");
        }
        if loose_eq(s, "active") {
            Some(GroupStatus::Active)
        } else if loose_eq(s, "declining") {
            Some(GroupStatus::Declining)
        } else if loose_eq(s, "dissolved") {
            Some(GroupStatus::Dissolved)
        } else if loose_eq(s, "dormant") {
            Some(GroupStatus::Dormant)
        } else {
            None
        }
    }
}

/// The lower-case name of a status.
pub open spec fn group_status_name(s: GroupStatus) -> Seq<char> {
    match s {
        GroupStatus::Active => "active"@,
        GroupStatus::Declining => "declining"@,
        GroupStatus::Dissolved => "dissolved"@,
        GroupStatus::Dormant => "dormant"@,
    }
}

/// The status named `t`, if any.
pub open spec fn group_status_parse(t: Seq<char>) -> Option<GroupStatus> {
    if t == "active"@ {
        Some(GroupStatus::Active)
    } else if t == "declining"@ {
        Some(GroupStatus::Declining)
    } else if t == "dissolved"@ {
        Some(GroupStatus::Dissolved)
    } else if t == "dormant"@ {
        Some(GroupStatus::Dormant)
    } else {
        None
    }
}

/// When a group was founded and dissolved, free text for now.
#[derive(Debug, Clone, PartialEq, Eq)]
pub struct Temporal {
    pub founded_at: Option<String>,
    /// Set only for a dissolved group.
    pub dissolved_at: Option<String>,
    pub status: GroupStatus,
    pub notes: Option<String>,
}

impl Default for Temporal {
    fn default() -> (r: Temporal)
        ensures
            r.founded_at is None,
            r.dissolved_at is None,
            r.status == GroupStatus::Active,
            r.notes is None,
    {
        Temporal { founded_at: None, dissolved_at: None, status: GroupStatus::Active, notes: None }
    }
}

/// A member, by person id text or by display name.
#[derive(Debug, Clone, PartialEq, Eq)]
pub struct MemberRef {
    pub person_id: Option<String>,
    pub display_name: Option<String>,
    /// Free-text role: leader, second, disciple, outside helper.
    pub role: String,
    pub note: Option<String>,
}

/// The group aggregate.
#[derive(Debug, Clone, PartialEq)]
pub struct Group {
    pub id: GroupId,
    pub kind: String,
    pub name: String,
    pub aliases: Vec<String>,
    pub summary: String,
    pub tags: Vec<String>,
    pub extras: Vec<(String, ExtraValue)>,
    /// Body sections by heading, in heading order.
    pub body_sections: BTreeMap<String, String>,
    pub temporal: Temporal,
    pub members: Vec<MemberRef>,
    /// Place id text of the headquarters.
    pub headquarters: Option<String>,
    /// The enclosing group; this chain is checked for cycles.
    pub parent_group: Option<GroupId>,
    pub allied_groups: Vec<GroupId>,
    pub rival_groups: Vec<GroupId>,
    pub source_path: Option<String>,
}

impl Group {
    /// A group with the given identity and every other field empty.
    pub fn new(id: &str, kind: &str, name: &str) -> (r: Group)
        ensures
            r.id@ == id@,
            r.kind@ == kind@,
            r.name@ == name@,
            r.aliases@.len() == 0,
            r.summary@.len() == 0,
            r.tags@.len() == 0,
            r.extras@.len() == 0,
            r.body_sections@ == Map::<String, String>::empty(),
            r.temporal.status == GroupStatus::Active,
            r.temporal.founded_at is None,
            r.temporal.dissolved_at is None,
            r.temporal.notes is None,
            r.members@.len() == 0,
            r.headquarters is None,
            r.parent_group is None,
            r.allied_groups@.len() == 0,
            r.rival_groups@.len() == 0,
            r.source_path is None,
    {
        Group {
            id: GroupId::new(id),
            kind: kind.to_owned(),
            name: name.to_owned(),
            aliases: Vec::new(),
            summary: String::new(),
            tags: Vec::new(),
            extras: Vec::new(),
            body_sections: BTreeMap::new(),
            temporal: Temporal::default(),
            members: Vec::new(),
            headquarters: None,
            parent_group: None,
            allied_groups: Vec::new(),
            rival_groups: Vec::new(),
            source_path: None,
        }
    }

    /// The `alignment` extension, when it is a string.
    pub fn alignment(&self) -> (r: Option<&str>)
        ensures
            match r {
                Some(s) => extra_text(self.extras@, "alignment"@) == Some(s@),
                None => extra_text(self.extras@, "alignment"@) is None,
            },
    {
        lookup_extra_text(&self.extras, "alignment")
    }
}

/// Filter for listing groups.
#[derive(Debug, Clone)]
pub struct GroupFilter {
    pub kind: Option<String>,
    pub status: Option<GroupStatus>,
    pub parent_group: Option<GroupId>,
    pub genre_tag: Option<String>,
    pub alignment: Option<String>,
}

impl Default for GroupFilter {
    fn default() -> (r: GroupFilter)
        ensures
            r.kind is None,
            r.status is None,
            r.parent_group is None,
            r.genre_tag is None,
            r.alignment is None,
    {
        GroupFilter { kind: None, status: None, parent_group: None, genre_tag: None, alignment: None }
    }
}

/// Errors shared by the world domain.
#[derive(Debug, Clone, PartialEq, Eq)]
pub enum WorldError {
    Storage(String),
    NotFound(String),
    ParentCycle { path: String },
    Invalid(String),
}

/// Identifiers of the groups, in input order.
pub open spec fn group_ids(gs: Seq<Group>) -> Seq<Seq<char>> {
    gs.map_values(|g: Group| g.id@)
}

/// Parent identifiers of the groups, in input order.
pub open spec fn group_parents(gs: Seq<Group>) -> Seq<Option<Seq<char>>> {
    gs.map_values(|g: Group| match g.parent_group {
        Some(p) => Some(p@),
        None => None,
    })
}

/// Each cycle of group identifiers as texts.
pub open spec fn group_cycle_views(r: Seq<Vec<GroupId>>) -> Seq<Seq<Seq<char>>> {
    r.map_values(|c: Vec<GroupId>| c@.map_values(|g: GroupId| g@))
}

/// Every cycle of the `parent_group` chains, once each, listed from its
/// smallest id, in increasing order. A parent that names no group in
/// `groups` ends its chain; when ids repeat, the last group with the id
/// decides its parent.
pub fn detect_parent_group_cycle(groups: &[Group]) -> (r: Vec<Vec<GroupId>>)
    ensures
        is_cycle_report(group_ids(groups@), group_parents(groups@), group_cycle_views(r@)),
{
    let n = groups.len();
    let mut ids: Vec<String> = Vec::new();
    let mut pars: Vec<Option<String>> = Vec::new();
    let mut i: usize = 0;
    while i < n
        invariant
            n == groups@.len(),
            i <= n,
            ids@.len() == i,
            pars@.len() == i,
            views(ids@) =~= group_ids(groups@).take(i as int),
            opt_views(pars@) =~= group_parents(groups@).take(i as int),
        decreases n - i,
    {
        ids.push(groups[i].id.0.clone());
        let p: Option<String> = match &groups[i].parent_group {
            Some(g) => Some(g.0.clone()),
            None => None,
        };
        pars.push(p);
        i = i + 1;
    }
    assert(group_ids(groups@).take(n as int) =~= group_ids(groups@));
    assert(group_parents(groups@).take(n as int) =~= group_parents(groups@));
    let cycles = parent_cycles(&ids, &pars);
    let mut out: Vec<Vec<GroupId>> = Vec::new();
    let m = cycles.len();
    let mut k: usize = 0;
    while k < m
        invariant
            m == cycles@.len(),
            k <= m,
            out@.len() == k,
            forall|q: int| 0 <= q < k ==> #[trigger] group_cycle_views(out@)[q] == crate::world::graph::nested_views(cycles@)[q],
        decreases m - k,
    {
        let c = &cycles[k];
        let mut row: Vec<GroupId> = Vec::new();
        let l = c.len();
        let mut j: usize = 0;
        while j < l
            invariant
                l == c@.len(),
                j <= l,
                row@.len() == j,
                forall|q: int| 0 <= q < j ==> #[trigger] row@[q]@ == c@[q]@,
            decreases l - j,
        {
            row.push(GroupId(c[j].clone()));
            j = j + 1;
        }
        let ghost before = group_cycle_views(out@);
        out.push(row);
        proof {
            assert(row@.map_values(|g: GroupId| g@) =~= views(c@));
            assert(group_cycle_views(out@) =~= before.push(views(c@)));
        }
        k = k + 1;
    }
    assert(group_cycle_views(out@) =~= crate::world::graph::nested_views(cycles@));
    out
}

} // verus!
