//! Person aggregate: anyone named in the world, whether or not the mind
//! engine plays them.

use std::collections::BTreeMap;
use vstd::prelude::*;
use crate::text::{loose_eq, str_eq};
use crate::world::ExtraValue;
use crate::world::group::GroupId;

verus! {

/// Person identifier, `npc-{slug}` or `person-{slug}`.
#[derive(Debug, Clone, PartialEq, Eq, Hash, PartialOrd, Ord)]
pub struct PersonId(pub String);

impl View for PersonId {
    type V = Seq<char>;

    open spec fn view(&self) -> Seq<char> {
        self.0@
    }
}

impl PersonId {
    pub fn new(s: &str) -> (r: PersonId)
        ensures
            r@ == s@,
    {
        PersonId(s.to_owned())
    }

    pub fn as_str(&self) -> (r: &str)
        ensures
            r@ == self@,
    {
        self.0.as_str()
    }
}

impl From<String> for PersonId {
    fn from(s: String) -> (r: PersonId) {
        PersonId(s)
    }
}

impl vstd::std_specs::convert::FromSpecImpl<String> for PersonId {
    open spec fn obeys_from_spec() -> bool {
        true
    }

    open spec fn from_spec(v: String) -> PersonId {
        PersonId(v)
    }
}

impl From<&str> for PersonId {
    fn from(s: &str) -> (r: PersonId)
        ensures
            r@ == s@,
    {
        PersonId(s.to_owned())
    }
}

impl vstd::std_specs::convert::FromSpecImpl<&str> for PersonId {
    /// `from` itself states the result (its text is `s`); this generic
    /// description is not used.
    open spec fn obeys_from_spec() -> bool {
        false
    }

    open spec fn from_spec(v: &str) -> PersonId {
        PersonId(<String as vstd::std_specs::convert::FromSpec<&str>>::from_spec(v))
    }
}

/// Whether a person is alive, as far as the world knows.
#[derive(Debug, Clone, Copy, PartialEq, Eq, Structural)]
pub enum PersonStatus {
    Alive,
    Dead,
    Missing,
    Unknown,
}

impl Default for PersonStatus {
    fn default() -> (r: PersonStatus)
        ensures
            r == PersonStatus::Alive,
    {
        PersonStatus::Alive
    }
}

/// The lower-case name of a status.
pub open spec fn person_status_name(s: PersonStatus) -> Seq<char> {
    match s {
        PersonStatus::Alive => "alive"@,
        PersonStatus::Dead => "dead"@,
        PersonStatus::Missing => "missing"@,
        PersonStatus::Unknown => "unknown"@,
    }
}

/// The status named `t`, if any.
pub open spec fn person_status_parse(t: Seq<char>) -> Option<PersonStatus> {
    if t == "alive"@ {
        Some(PersonStatus::Alive)
    } else if t == "dead"@ {
        Some(PersonStatus::Dead)
    } else if t == "missing"@ {
        Some(PersonStatus::Missing)
    } else if t == "unknown"@ {
        Some(PersonStatus::Unknown)
    } else {
        None
    }
}

/// Reading a status's name loosely gives the status back.
pub proof fn law_person_status_round_trip(s: PersonStatus)
    ensures
        person_status_parse(crate::text::loose_form(person_status_name(s))) == Some(s),
{
    reveal_strlit("alive");
    reveal_strlit("dead");
    reveal_strlit("missing");
    reveal_strlit("unknown");
    crate::text::lemma_loose_form_of_word("alive"@);
    crate::text::lemma_loose_form_of_word("dead"@);
    crate::text::lemma_loose_form_of_word("missing"@);
    crate::text::lemma_loose_form_of_word("unknown"@);
}

impl PersonStatus {
    pub fn as_str(self) -> (r: &'static str)
        ensures
            r@ == person_status_name(self),
    {
        match self {
            PersonStatus::Alive => "alive",
            PersonStatus::Dead => "dead",
            PersonStatus::Missing => "missing",
            PersonStatus::Unknown => "unknown",
        }
    }

    /// The status whose name equals `s` once trimmed and lower-cased.
    pub fn from_str_loose(s: &str) -> (r: Option<PersonStatus>)
        ensures
            r == person_status_parse(crate::text::loose_form(s@)),
    {
        proof {
            reveal_strlit("alive");
            reveal_strlit("dead");
            reveal_strlit("missing");
            reveal_strlit("unknown");
        }
        if loose_eq(s, "alive") {
            Some(PersonStatus::Alive)
        } else if loose_eq(s, "dead") {
            Some(PersonStatus::Dead)
        } else if loose_eq(s, "missing") {
            Some(PersonStatus::Missing)
        } else if loose_eq(s, "unknown") {
            Some(PersonStatus::Unknown)
        } else {
            None
        }
    }
}

/// The six HEXACO dimension scores of a person. Each score is a number in
/// [-1, 1] held as the bit pattern of its 32-bit float; 0 is neutral.
#[derive(Debug, Clone, Copy, PartialEq, Eq, Structural)]
pub struct HexacoSix {
    pub honesty_humility: u32,
    pub emotionality: u32,
    pub extraversion: u32,
    pub agreeableness: u32,
    pub conscientiousness: u32,
    pub openness: u32,
}

impl HexacoSix {
    /// Every dimension neutral (the bit pattern of 0.0 is 0).
    pub fn neutral() -> (r: HexacoSix)
        ensures
            r.honesty_humility == 0,
            r.emotionality == 0,
            r.extraversion == 0,
            r.agreeableness == 0,
            r.conscientiousness == 0,
            r.openness == 0,
    {
        HexacoSix {
            honesty_humility: 0,
            emotionality: 0,
            extraversion: 0,
            agreeableness: 0,
            conscientiousness: 0,
            openness: 0,
        }
    }
}

impl Default for HexacoSix {
    fn default() -> (r: HexacoSix)
        ensures
            r == HexacoSix::neutral_spec(),
    {
        HexacoSix::neutral()
    }
}

impl HexacoSix {
    /// The neutral profile.
    pub open spec fn neutral_spec() -> HexacoSix {
        HexacoSix {
            honesty_humility: 0,
            emotionality: 0,
            extraversion: 0,
            agreeableness: 0,
            conscientiousness: 0,
            openness: 0,
        }
    }
}

/// Birth, death and age of a person, free text where the world gives text.
#[derive(Debug, Clone, PartialEq, Eq)]
pub struct PersonTemporal {
    pub birth_year: Option<String>,
    pub death_year: Option<String>,
    pub age_at_game_start: Option<u32>,
    pub notes: Option<String>,
}

impl Default for PersonTemporal {
    fn default() -> (r: PersonTemporal)
        ensures
            r.birth_year is None,
            r.death_year is None,
            r.age_at_game_start is None,
            r.notes is None,
    {
        PersonTemporal { birth_year: None, death_year: None, age_at_game_start: None, notes: None }
    }
}

/// The person aggregate.
#[derive(Debug, Clone, PartialEq)]
pub struct Person {
    pub id: PersonId,
    /// `active` and `player` persons are played by the mind engine; others
    /// (`historical`, `mentioned`, ...) only appear in the world.
    pub kind: String,
    pub name: String,
    pub aliases: Vec<String>,
    pub status: PersonStatus,
    pub hexaco: HexacoSix,
    pub temporal: PersonTemporal,
    pub affiliation: Vec<GroupId>,
    /// Place id text of the birthplace.
    pub birthplace: Option<String>,
    /// Place id text of where the person is now.
    pub current_location: Option<String>,
    pub summary: String,
    pub tags: Vec<String>,
    pub extras: Vec<(String, ExtraValue)>,
    /// Body sections by heading, in heading order.
    pub body_sections: BTreeMap<String, String>,
    pub source_path: Option<String>,
}

/// Whether a person of this kind is played by the mind engine.
pub open spec fn mind_eligible_kind(kind: Seq<char>) -> bool {
    kind == "active"@ || kind == "player"@
}

impl Person {
    /// A living, neutral person with the given identity and every other
    /// field empty.
    pub fn new(id: &str, kind: &str, name: &str) -> (r: Person)
        ensures
            r.id@ == id@,
            r.kind@ == kind@,
            r.name@ == name@,
            r.aliases@.len() == 0,
            r.status == PersonStatus::Alive,
            r.hexaco == HexacoSix::neutral_spec(),
            r.temporal.birth_year is None,
            r.temporal.death_year is None,
            r.temporal.age_at_game_start is None,
            r.temporal.notes is None,
            r.affiliation@.len() == 0,
            r.birthplace is None,
            r.current_location is None,
            r.summary@.len() == 0,
            r.tags@.len() == 0,
            r.extras@.len() == 0,
            r.body_sections@ == Map::<String, String>::empty(),
            r.source_path is None,
    {
        Person {
            id: PersonId::new(id),
            kind: kind.to_owned(),
            name: name.to_owned(),
            aliases: Vec::new(),
            status: PersonStatus::Alive,
            hexaco: HexacoSix::neutral(),
            temporal: PersonTemporal::default(),
            affiliation: Vec::new(),
            birthplace: None,
            current_location: None,
            summary: String::new(),
            tags: Vec::new(),
            extras: Vec::new(),
            body_sections: BTreeMap::new(),
            source_path: None,
        }
    }

    /// Whether the mind engine plays this person: its kind is exactly
    /// `active` or `player`.
    pub fn is_mind_eligible(&self) -> (r: bool)
        ensures
            r == mind_eligible_kind(self.kind@),
    {
        str_eq(self.kind.as_str(), "active") || str_eq(self.kind.as_str(), "player")
    }
}

/// Filter for listing persons.
#[derive(Debug, Clone)]
pub struct PersonFilter {
    pub kind: Option<String>,
    pub status: Option<PersonStatus>,
    pub affiliation: Option<GroupId>,
    pub genre_tag: Option<String>,
}

impl Default for PersonFilter {
    fn default() -> (r: PersonFilter)
        ensures
            r.kind is None,
            r.status is None,
            r.affiliation is None,
            r.genre_tag is None,
    {
        PersonFilter { kind: None, status: None, affiliation: None, genre_tag: None }
    }
}

} // verus!
