//! Era aggregate: a span of years with the events that mark it.
//!
//! A span starts at its start year (inclusive) and ends before its end year
//! (exclusive), so a boundary year belongs to exactly one of two adjacent eras.

use std::collections::BTreeMap;
use vstd::prelude::*;
use crate::world::ExtraValue;
use crate::world::event::EventId;

verus! {

/// Era identifier, `era-{slug}`.
#[derive(Debug, Clone, PartialEq, Eq, Hash, PartialOrd, Ord)]
pub struct EraId(pub String);

impl View for EraId {
    type V = Seq<char>;

    open spec fn view(&self) -> Seq<char> {
        self.0@
    }
}

impl EraId {
    pub fn new(s: &str) -> (r: EraId)
        ensures
            r@ == s@,
    {
        EraId(s.to_owned())
    }

    pub fn as_str(&self) -> (r: &str)
        ensures
            r@ == self@,
    {
        self.0.as_str()
    }

    /// A copy with the same text.
    pub fn duplicate(&self) -> (r: EraId)
        ensures
            r@ == self@,
    {
        EraId(self.0.clone())
    }
}

impl From<String> for EraId {
    fn from(s: String) -> (r: EraId) {
        EraId(s)
    }
}

impl vstd::std_specs::convert::FromSpecImpl<String> for EraId {
    open spec fn obeys_from_spec() -> bool {
        true
    }

    open spec fn from_spec(v: String) -> EraId {
        EraId(v)
    }
}

impl From<&str> for EraId {
    fn from(s: &str) -> (r: EraId)
        ensures
            r@ == s@,
    {
        EraId(s.to_owned())
    }
}

impl vstd::std_specs::convert::FromSpecImpl<&str> for EraId {
    /// `from` itself states the result (its text is `s`); this generic
    /// description is not used.
    open spec fn obeys_from_spec() -> bool {
        false
    }

    open spec fn from_spec(v: &str) -> EraId {
        EraId(<String as vstd::std_specs::convert::FromSpec<&str>>::from_spec(v))
    }
}

/// The span of an era, in years counted from the present.
#[derive(Debug, Clone, PartialEq, Eq)]
pub struct EraTemporal {
    /// First year of the era (inclusive).
    pub start_year_relative: Option<i32>,
    /// First year after the era (exclusive).
    pub end_year_relative: Option<i32>,
    pub notes: Option<String>,
}

impl Default for EraTemporal {
    fn default() -> (r: EraTemporal)
        ensures
            r.start_year_relative is None,
            r.end_year_relative is None,
            r.notes is None,
    {
        EraTemporal { start_year_relative: None, end_year_relative: None, notes: None }
    }
}

/// Whether `year` lies in the span of `t`: both bounds set, start inclusive,
/// end exclusive.
pub open spec fn span_contains(t: EraTemporal, year: int) -> bool {
    match (t.start_year_relative, t.end_year_relative) {
        (Some(start), Some(end)) => start <= year < end,
        _ => false,
    }
}

/// The length of the span of `t` in years, when both bounds are set and the
/// end does not come before the start.
pub open spec fn span_length(t: EraTemporal) -> Option<nat> {
    match (t.start_year_relative, t.end_year_relative) {
        (Some(start), Some(end)) => if start <= end {
            Some((end - start) as nat)
        } else {
            None
        },
        _ => None,
    }
}

/// Two eras that meet (the end of the first is the start of the second)
/// share no year, and a year from the start of the first to the end of the
/// second lies in exactly one of them; their lengths add up.
pub proof fn law_adjacent_eras(first: EraTemporal, second: EraTemporal, year: int)
    requires
        first.start_year_relative is Some,
        first.end_year_relative is Some,
        second.start_year_relative is Some,
        second.end_year_relative is Some,
        first.end_year_relative == second.start_year_relative,
    ensures
        !(span_contains(first, year) && span_contains(second, year)),
        first.start_year_relative.unwrap() <= year < second.end_year_relative.unwrap() && first.start_year_relative.unwrap()
            <= first.end_year_relative.unwrap() ==> (span_contains(first, year) || span_contains(second, year)),
        span_length(first) is Some && span_length(second) is Some ==> span_length(
            EraTemporal {
                start_year_relative: first.start_year_relative,
                end_year_relative: second.end_year_relative,
                notes: None,
            },
        ) == Some(span_length(first).unwrap() + span_length(second).unwrap()),
{
}

/// The era aggregate.
#[derive(Debug, Clone, PartialEq)]
pub struct Era {
    pub id: EraId,
    /// Filled in by the genre: founding, prosperity, decline, fall, ...
    pub kind: String,
    pub name: String,
    pub aliases: Vec<String>,
    pub summary: String,
    pub tags: Vec<String>,
    pub extras: Vec<(String, ExtraValue)>,
    pub temporal: EraTemporal,
    /// The events that mark the era, in the order written (chronological by
    /// convention); never reordered.
    pub key_events: Vec<EventId>,
    /// Body sections by heading, in heading order.
    pub body_sections: BTreeMap<String, String>,
    pub source_path: Option<String>,
}

impl Era {
    /// An era with the given identity and every other field empty.
    pub fn new(id: &str, kind: &str, name: &str) -> (r: Era)
        ensures
            r.id@ == id@,
            r.kind@ == kind@,
            r.name@ == name@,
            r.aliases@.len() == 0,
            r.summary@.len() == 0,
            r.tags@.len() == 0,
            r.extras@.len() == 0,
            r.temporal.start_year_relative is None,
            r.temporal.end_year_relative is None,
            r.temporal.notes is None,
            r.key_events@.len() == 0,
            r.body_sections@ == Map::<String, String>::empty(),
            r.source_path is None,
    {
        Era {
            id: EraId::new(id),
            kind: kind.to_owned(),
            name: name.to_owned(),
            aliases: Vec::new(),
            summary: String::new(),
            tags: Vec::new(),
            extras: Vec::new(),
            temporal: EraTemporal::default(),
            key_events: Vec::new(),
            body_sections: BTreeMap::new(),
            source_path: None,
        }
    }

    /// Whether `year_relative` lies in the era: start inclusive, end
    /// exclusive; false when either bound is missing.
    pub fn contains_year(&self, year_relative: i32) -> (r: bool)
        ensures
            r == span_contains(self.temporal, year_relative as int),
    {
        match (self.temporal.start_year_relative, self.temporal.end_year_relative) {
            (Some(start), Some(end)) => year_relative >= start && year_relative < end,
            _ => false,
        }
    }

    /// The length of the era in years (`end - start`), when both bounds are
    /// set and the end does not come before the start.
    pub fn duration_years(&self) -> (r: Option<u32>)
        ensures
            match r {
                Some(n) => span_length(self.temporal) == Some(n as nat),
                None => span_length(self.temporal) is None,
            },
    {
        match (self.temporal.start_year_relative, self.temporal.end_year_relative) {
            (Some(start), Some(end)) => {
                if end >= start {
                    let wide: i64 = end as i64 - start as i64;
                    Some(wide as u32)
                } else {
                    None
                }
            },
            _ => None,
        }
    }
}

/// Filter for listing eras.
#[derive(Debug, Clone)]
pub struct EraFilter {
    pub kind: Option<String>,
    /// Keep the eras whose span contains this year.
    pub contains_year: Option<i32>,
    pub genre_tag: Option<String>,
}

impl Default for EraFilter {
    fn default() -> (r: EraFilter)
        ensures
            r.kind is None,
            r.contains_year is None,
            r.genre_tag is None,
    {
        EraFilter { kind: None, contains_year: None, genre_tag: None }
    }
}

} // verus!
