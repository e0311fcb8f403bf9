//! Event aggregate: something that happened (or is told to have happened)
//! in the world, with the people, groups and places involved in it.

use std::collections::BTreeMap;
use vstd::prelude::*;
use crate::text::str_eq;
use crate::world::{ExtraValue, contains_text};

verus! {

/// Event identifier, `event-{slug}`.
#[derive(Debug, Clone, PartialEq, Eq, Hash, PartialOrd, Ord)]
pub struct EventId(pub String);

impl View for EventId {
    type V = Seq<char>;

    open spec fn view(&self) -> Seq<char> {
        self.0@
    }
}

impl EventId {
    pub fn new(s: &str) -> (r: EventId)
        ensures
            r@ == s@,
    {
        EventId(s.to_owned())
    }

    pub fn as_str(&self) -> (r: &str)
        ensures
            r@ == self@,
    {
        self.0.as_str()
    }

    /// A copy with the same text.
    pub fn duplicate(&self) -> (r: EventId)
        ensures
            r@ == self@,
    {
        EventId(self.0.clone())
    }
}

impl From<String> for EventId {
    fn from(s: String) -> (r: EventId) {
        EventId(s)
    }
}

impl vstd::std_specs::convert::FromSpecImpl<String> for EventId {
    open spec fn obeys_from_spec() -> bool {
        true
    }

    open spec fn from_spec(v: String) -> EventId {
        EventId(v)
    }
}

impl From<&str> for EventId {
    fn from(s: &str) -> (r: EventId)
        ensures
            r@ == s@,
    {
        EventId(s.to_owned())
    }
}

impl vstd::std_specs::convert::FromSpecImpl<&str> for EventId {
    /// `from` itself states the result (its text is `s`); this generic
    /// description is not used.
    open spec fn obeys_from_spec() -> bool {
        false
    }

    open spec fn from_spec(v: &str) -> EventId {
        EventId(<String as vstd::std_specs::convert::FromSpec<&str>>::from_spec(v))
    }
}

/// Whether an event happened, is planned, or is only told of.
#[derive(Debug, Clone, Copy, PartialEq, Eq, Structural)]
pub enum EventCategory {
    /// It happened; canon.
    Historical,
    /// It is due to happen.
    Scheduled,
    /// Its truth is uncertain (legend, hearsay).
    Legendary,
}

impl Default for EventCategory {
    fn default() -> (r: EventCategory)
        ensures
            r == EventCategory::Historical,
    {
        EventCategory::Historical
    }
}

/// The lower-case name of a category.
pub open spec fn event_category_name(c: EventCategory) -> Seq<char> {
    match c {
        EventCategory::Historical => "historical"@,
        EventCategory::Scheduled => "scheduled"@,
        EventCategory::Legendary => "legendary"@,
    }
}

/// The category whose name is exactly `t`, if any.
pub open spec fn event_category_parse(t: Seq<char>) -> Option<EventCategory> {
    if t == "historical"@ {
        Some(EventCategory::Historical)
    } else if t == "scheduled"@ {
        Some(EventCategory::Scheduled)
    } else if t == "legendary"@ {
        Some(EventCategory::Legendary)
    } else {
        None
    }
}

/// Reading a category's name gives the category back.
pub proof fn law_event_category_round_trip(c: EventCategory)
    ensures
        event_category_parse(event_category_name(c)) == Some(c),
{
    reveal_strlit("historical");
    reveal_strlit("scheduled");
    reveal_strlit("legendary");
    assert("historical"@.len() != "scheduled"@.len());
    assert("historical"@.len() != "legendary"@.len());
    assert("scheduled"@.len() == "legendary"@.len());
    assert("scheduled"@[0] != "legendary"@[0]);
}

impl EventCategory {
    pub fn as_str(self) -> (r: &'static str)
        ensures
            r@ == event_category_name(self),
    {
        match self {
            EventCategory::Historical => "historical",
            EventCategory::Scheduled => "scheduled",
            EventCategory::Legendary => "legendary",
        }
    }

    /// The category whose name is exactly `s` (no trimming, case-sensitive).
    pub fn from_str_loose(s: &str) -> (r: Option<EventCategory>)
        ensures
            r == event_category_parse(s@),
    {
        if str_eq(s, "historical") {
            Some(EventCategory::Historical)
        } else if str_eq(s, "scheduled") {
            Some(EventCategory::Scheduled)
        } else if str_eq(s, "legendary") {
            Some(EventCategory::Legendary)
        } else {
            None
        }
    }
}

/// When an event happened.
#[derive(Debug, Clone, PartialEq, Eq)]
pub struct EventTemporal {
    /// Free text: "ten years ago", "year one", ...
    pub year: Option<String>,
    /// Year counted from the present (negative in the past); the key by
    /// which events are ordered and filtered.
    pub year_relative: Option<i32>,
    /// Free text for how long it lasted.
    pub duration: Option<String>,
    pub notes: Option<String>,
}

impl Default for EventTemporal {
    fn default() -> (r: EventTemporal)
        ensures
            r.year is None,
            r.year_relative is None,
            r.duration is None,
            r.notes is None,
    {
        EventTemporal { year: None, year_relative: None, duration: None, notes: None }
    }
}

/// Who and what took part: person, group and place id texts.
#[derive(Debug, Clone, PartialEq, Eq)]
pub struct ParticipantsRefs {
    pub people: Vec<String>,
    pub groups: Vec<String>,
    pub places: Vec<String>,
}

impl Default for ParticipantsRefs {
    fn default() -> (r: ParticipantsRefs)
        ensures
            r.people@.len() == 0,
            r.groups@.len() == 0,
            r.places@.len() == 0,
    {
        ParticipantsRefs { people: Vec::new(), groups: Vec::new(), places: Vec::new() }
    }
}

impl ParticipantsRefs {
    /// No person, group or place is listed.
    pub fn is_empty(&self) -> (r: bool)
        ensures
            r == (self.people@.len() == 0 && self.groups@.len() == 0 && self.places@.len() == 0),
    {
        self.people.len() == 0 && self.groups.len() == 0 && self.places.len() == 0
    }
}

/// Whether `id` occurs among the texts of `v`.
pub open spec fn lists(v: Seq<String>, id: Seq<char>) -> bool {
    exists|k: int| 0 <= k < v.len() && #[trigger] v[k]@ == id
}

/// The event aggregate.
#[derive(Debug, Clone, PartialEq)]
pub struct Event {
    pub id: EventId,
    /// Filled in by the genre: betrayal, war, founding, ...
    pub kind: String,
    pub category: EventCategory,
    pub name: String,
    pub aliases: Vec<String>,
    pub summary: String,
    pub tags: Vec<String>,
    pub extras: Vec<(String, ExtraValue)>,
    pub temporal: EventTemporal,
    /// The era it belongs to, by id text.
    pub era_id: Option<String>,
    pub participants: ParticipantsRefs,
    /// Body sections by heading, in heading order.
    pub body_sections: BTreeMap<String, String>,
    /// Causes and consequences within the same domain.
    pub related_events: Vec<EventId>,
    pub source_path: Option<String>,
}

impl Event {
    /// A historical event with the given identity and every other field empty.
    pub fn new(id: &str, kind: &str, name: &str) -> (r: Event)
        ensures
            r.id@ == id@,
            r.kind@ == kind@,
            r.name@ == name@,
            r.category == EventCategory::Historical,
            r.aliases@.len() == 0,
            r.summary@.len() == 0,
            r.tags@.len() == 0,
            r.extras@.len() == 0,
            r.temporal.year is None,
            r.temporal.year_relative is None,
            r.temporal.duration is None,
            r.temporal.notes is None,
            r.era_id is None,
            r.participants.people@.len() == 0,
            r.participants.groups@.len() == 0,
            r.participants.places@.len() == 0,
            r.body_sections@ == Map::<String, String>::empty(),
            r.related_events@.len() == 0,
            r.source_path is None,
    {
        Event {
            id: EventId::new(id),
            kind: kind.to_owned(),
            category: EventCategory::Historical,
            name: name.to_owned(),
            aliases: Vec::new(),
            summary: String::new(),
            tags: Vec::new(),
            extras: Vec::new(),
            temporal: EventTemporal::default(),
            era_id: None,
            participants: ParticipantsRefs::default(),
            body_sections: BTreeMap::new(),
            related_events: Vec::new(),
            source_path: None,
        }
    }

    /// The year counted from the present, if known.
    pub fn year_relative(&self) -> (r: Option<i32>)
        ensures
            r == self.temporal.year_relative,
    {
        self.temporal.year_relative
    }

    /// The person `person_id` took part.
    pub fn involves_person(&self, person_id: &str) -> (r: bool)
        ensures
            r == lists(self.participants.people@, person_id@),
    {
        contains_text(&self.participants.people, person_id)
    }

    /// The group `group_id` took part.
    pub fn involves_group(&self, group_id: &str) -> (r: bool)
        ensures
            r == lists(self.participants.groups@, group_id@),
    {
        contains_text(&self.participants.groups, group_id)
    }

    /// The event happened at the place `place_id`.
    pub fn involves_place(&self, place_id: &str) -> (r: bool)
        ensures
            r == lists(self.participants.places@, place_id@),
    {
        contains_text(&self.participants.places, place_id)
    }
}

/// Filter for listing events; the year bounds are inclusive.
#[derive(Debug, Clone)]
pub struct EventFilter {
    pub category: Option<EventCategory>,
    pub kind: Option<String>,
    pub participants_person: Option<String>,
    pub participants_group: Option<String>,
    pub participants_place: Option<String>,
    pub year_relative_min: Option<i32>,
    pub year_relative_max: Option<i32>,
    pub genre_tag: Option<String>,
}

impl Default for EventFilter {
    fn default() -> (r: EventFilter)
        ensures
            r.category is None,
            r.kind is None,
            r.participants_person is None,
            r.participants_group is None,
            r.participants_place is None,
            r.year_relative_min is None,
            r.year_relative_max is None,
            r.genre_tag is None,
    {
        EventFilter {
            category: None,
            kind: None,
            participants_person: None,
            participants_group: None,
            participants_place: None,
            year_relative_min: None,
            year_relative_max: None,
            genre_tag: None,
        }
    }
}

} // verus!
