//! Worldbuilding aggregates: groups, persons, places, events, eras,
//! timelines and atlases, with the parent-cycle checks and views over them.
//!
//! The genre-specific extension map of each aggregate (`extras`) is held as
//! key/value pairs: a string value as text, any other JSON value as its JSON
//! text.

pub mod graph;
pub mod group;
pub mod place;
pub mod person;
pub mod event;
pub mod era;
pub mod timeline;
pub mod atlas;
pub mod repository;

use vstd::prelude::*;
use crate::text::str_eq;

verus! {

/// A value of a genre extension entry.
#[derive(Debug, Clone, PartialEq, Eq)]
pub enum ExtraValue {
    /// A JSON string.
    Text(String),
    /// Any other JSON value, as its JSON text.
    Json(String),
}

/// The text stored under `key` in an extension map: the value of the first
/// entry with that key, when it is a string.
pub open spec fn extra_text(extras: Seq<(String, ExtraValue)>, key: Seq<char>) -> Option<Seq<char>>
    decreases extras.len(),
{
    if extras.len() == 0 {
        None
    } else if extras[0].0@ == key {
        match extras[0].1 {
            ExtraValue::Text(s) => Some(s@),
            ExtraValue::Json(_) => None,
        }
    } else {
        extra_text(extras.drop_first(), key)
    }
}

/// Looks up `key` in an extension map and returns its text, if the value is a string.
pub fn lookup_extra_text<'a>(extras: &'a Vec<(String, ExtraValue)>, key: &str) -> (r: Option<&'a str>)
    ensures
        match r {
            Some(s) => extra_text(extras@, key@) == Some(s@),
            None => extra_text(extras@, key@) is None,
        },
{
    let n = extras.len();
    let mut i: usize = 0;
    assert(extras@.skip(0) =~= extras@);
    while i < n
        invariant
            n == extras@.len(),
            i <= n,
            extra_text(extras@, key@) == extra_text(extras@.skip(i as int), key@),
        decreases n - i,
    {
        proof {
            assert(extras@.skip(i as int).drop_first() =~= extras@.skip(i + 1));
            assert(extras@.skip(i as int)[0] == extras@[i as int]);
        }
        if str_eq(extras[i].0.as_str(), key) {
            return match &extras[i].1 {
                ExtraValue::Text(s) => Some(s.as_str()),
                ExtraValue::Json(_) => None,
            };
        }
        i = i + 1;
    }
    None
}

/// Whether some element of `v` equals `x`.
pub fn contains_text(v: &Vec<String>, x: &str) -> (r: bool)
    ensures
        r == exists|k: int| 0 <= k < v@.len() && #[trigger] v@[k]@ == x@,
{
    let n = v.len();
    let mut k: usize = 0;
    while k < n
        invariant
            n == v@.len(),
            k <= n,
            forall|q: int| 0 <= q < k ==> #[trigger] v@[q]@ != x@,
        decreases n - k,
    {
        if str_eq(v[k].as_str(), x) {
            return true;
        }
        k = k + 1;
    }
    false
}

} // verus!
