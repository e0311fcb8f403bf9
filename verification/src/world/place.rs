//! Place aggregate: a settlement or a piece of geography. The
//! `parent_place` chain must not form cycles.

use std::collections::BTreeMap;
use vstd::prelude::*;
use crate::text::loose_eq;
use crate::world::{ExtraValue, lookup_extra_text, extra_text};
use crate::world::graph::{is_cycle_report, parent_cycles, views, opt_views};

verus! {

/// Place identifier, `place-{slug}`.
#[derive(Debug, Clone, PartialEq, Eq, Hash, PartialOrd, Ord)]
pub struct PlaceId(pub String);

impl View for PlaceId {
    type V = Seq<char>;

    open spec fn view(&self) -> Seq<char> {
        self.0@
    }
}

impl PlaceId {
    pub fn new(s: &str) -> (r: PlaceId)
        ensures
            r@ == s@,
    {
        PlaceId(s.to_owned())
    }

    pub fn as_str(&self) -> (r: &str)
        ensures
            r@ == self@,
    {
        self.0.as_str()
    }

    /// A copy with the same text.
    pub fn duplicate(&self) -> (r: PlaceId)
        ensures
            r@ == self@,
    {
        PlaceId(self.0.clone())
    }
}

impl From<String> for PlaceId {
    fn from(s: String) -> (r: PlaceId) {
        PlaceId(s)
    }
}

impl vstd::std_specs::convert::FromSpecImpl<String> for PlaceId {
    open spec fn obeys_from_spec() -> bool {
        true
    }

    open spec fn from_spec(v: String) -> PlaceId {
        PlaceId(v)
    }
}

impl From<&str> for PlaceId {
    fn from(s: &str) -> (r: PlaceId)
        ensures
            r@ == s@,
    {
        PlaceId(s.to_owned())
    }
}

impl vstd::std_specs::convert::FromSpecImpl<&str> for PlaceId {
    /// `from` itself states the result (its text is `s`); this generic
    /// description is not used.
    open spec fn obeys_from_spec() -> bool {
        false
    }

    open spec fn from_spec(v: &str) -> PlaceId {
        PlaceId(<String as vstd::std_specs::convert::FromSpec<&str>>::from_spec(v))
    }
}

/// The two layers of places.
#[derive(Debug, Clone, Copy, PartialEq, Eq, Structural)]
pub enum PlaceLayer {
    Settlement,
    Geography,
}

/// Reading a layer's name loosely gives the layer back.
pub proof fn law_place_layer_round_trip(s: PlaceLayer)
    ensures
        place_layer_parse(crate::text::loose_form(place_layer_name(s))) == Some(s),
{
    reveal_strlit("settlement");
    reveal_strlit("geography");
    crate::text::lemma_loose_form_of_word("settlement"@);
    crate::text::lemma_loose_form_of_word("geography"@);
}

impl PlaceLayer {
    pub fn as_str(self) -> (r: &'static str)
        ensures
            r@ == place_layer_name(self),
    {
        match self {
            PlaceLayer::Settlement => "settlement",
            PlaceLayer::Geography => "geography",
        }
    }

    /// The layer whose name equals `s` once trimmed and lower-cased.
    pub fn from_str_loose(s: &str) -> (r: Option<PlaceLayer>)
        ensures
            r == place_layer_parse(crate::text::loose_form(s@)),
    {
        proof {
            reveal_strlit("settlement");
            reveal_strlit("geography");
        }
        if loose_eq(s, "settlement") {
            Some(PlaceLayer::Settlement)
        } else if loose_eq(s, "geography") {
            Some(PlaceLayer::Geography)
        } else {
            None
        }
    }
}

pub open spec fn place_layer_name(l: PlaceLayer) -> Seq<char> {
    match l {
        PlaceLayer::Settlement => "settlement"@,
        PlaceLayer::Geography => "geography"@,
    }
}

pub open spec fn place_layer_parse(t: Seq<char>) -> Option<PlaceLayer> {
    if t == "settlement"@ {
        Some(PlaceLayer::Settlement)
    } else if t == "geography"@ {
        Some(PlaceLayer::Geography)
    } else {
        None
    }
}

/// Where a place lies: its enclosing place, a relative position, its
/// neighbours and the geography it touches.
#[derive(Debug, Clone, PartialEq, Eq)]
pub struct Spatial {
    pub parent_place: Option<PlaceId>,
    pub relative_position: Option<String>,
    pub bordering_places: Vec<PlaceId>,
    pub geography_refs: Vec<PlaceId>,
}

impl Default for Spatial {
    fn default() -> (r: Spatial)
        ensures
            r.parent_place is None,
            r.relative_position is None,
            r.bordering_places@.len() == 0,
            r.geography_refs@.len() == 0,
    {
        Spatial {
            parent_place: None,
            relative_position: None,
            bordering_places: Vec::new(),
            geography_refs: Vec::new(),
        }
    }
}

/// The place aggregate.
#[derive(Debug, Clone, PartialEq)]
pub struct Place {
    pub id: PlaceId,
    pub layer: PlaceLayer,
    pub kind: String,
    pub name: String,
    pub aliases: Vec<String>,
    pub summary: String,
    pub tags: Vec<String>,
    pub extras: Vec<(String, ExtraValue)>,
    pub body_sections: BTreeMap<String, String>,
    pub spatial: Spatial,
    pub source_path: Option<String>,
}

impl Place {
    /// A place with the given identity and every other field empty.
    pub fn new(id: &str, layer: PlaceLayer, kind: &str, name: &str) -> (r: Place)
        ensures
            r.id@ == id@,
            r.layer == layer,
            r.kind@ == kind@,
            r.name@ == name@,
            r.aliases@.len() == 0,
            r.summary@.len() == 0,
            r.tags@.len() == 0,
            r.extras@.len() == 0,
            r.body_sections@ == Map::<String, String>::empty(),
            r.spatial.parent_place is None,
            r.spatial.relative_position is None,
            r.spatial.bordering_places@.len() == 0,
            r.spatial.geography_refs@.len() == 0,
            r.source_path is None,
    {
        Place {
            id: PlaceId::new(id),
            layer,
            kind: kind.to_owned(),
            name: name.to_owned(),
            aliases: Vec::new(),
            summary: String::new(),
            tags: Vec::new(),
            extras: Vec::new(),
            body_sections: BTreeMap::new(),
            spatial: Spatial::default(),
            source_path: None,
        }
    }

    /// The `controlling_group` extension, when it is a string.
    pub fn controlling_group(&self) -> (r: Option<&str>)
        ensures
            match r {
                Some(s) => extra_text(self.extras@, "controlling_group"@) == Some(s@),
                None => extra_text(self.extras@, "controlling_group"@) is None,
            },
    {
        lookup_extra_text(&self.extras, "controlling_group")
    }
}

/// Filter for listing places.
#[derive(Debug, Clone)]
pub struct PlaceFilter {
    pub layer: Option<PlaceLayer>,
    pub kind: Option<String>,
    pub parent_place: Option<PlaceId>,
    pub genre_tag: Option<String>,
}

impl Default for PlaceFilter {
    fn default() -> (r: PlaceFilter)
        ensures
            r.layer is None,
            r.kind is None,
            r.parent_place is None,
            r.genre_tag is None,
    {
        PlaceFilter { layer: None, kind: None, parent_place: None, genre_tag: None }
    }
}

/// Identifiers of the places, in input order.
pub open spec fn place_ids(ps: Seq<Place>) -> Seq<Seq<char>> {
    ps.map_values(|p: Place| p.id@)
}

/// Parent identifiers of the places, in input order.
pub open spec fn place_parents(ps: Seq<Place>) -> Seq<Option<Seq<char>>> {
    ps.map_values(|p: Place| match p.spatial.parent_place {
        Some(q) => Some(q@),
        None => None,
    })
}

/// Each cycle of place identifiers as texts.
pub open spec fn place_cycle_views(r: Seq<Vec<PlaceId>>) -> Seq<Seq<Seq<char>>> {
    r.map_values(|c: Vec<PlaceId>| c@.map_values(|p: PlaceId| p@))
}

/// Every cycle of the `parent_place` chains, once each, listed from its
/// smallest id, in increasing order. A parent that names no place in
/// `places` ends its chain; when ids repeat, the last place with the id
/// decides its parent.
pub fn detect_parent_place_cycle(places: &[Place]) -> (r: Vec<Vec<PlaceId>>)
    ensures
        is_cycle_report(place_ids(places@), place_parents(places@), place_cycle_views(r@)),
{
    let n = places.len();
    let mut ids: Vec<String> = Vec::new();
    let mut pars: Vec<Option<String>> = Vec::new();
    let mut i: usize = 0;
    while i < n
        invariant
            n == places@.len(),
            i <= n,
            ids@.len() == i,
            pars@.len() == i,
            views(ids@) =~= place_ids(places@).take(i as int),
            opt_views(pars@) =~= place_parents(places@).take(i as int),
        decreases n - i,
    {
        ids.push(places[i].id.0.clone());
        let p: Option<String> = match &places[i].spatial.parent_place {
            Some(q) => Some(q.0.clone()),
            None => None,
        };
        pars.push(p);
        i = i + 1;
    }
    assert(place_ids(places@).take(n as int) =~= place_ids(places@));
    assert(place_parents(places@).take(n as int) =~= place_parents(places@));
    let cycles = parent_cycles(&ids, &pars);
    let mut out: Vec<Vec<PlaceId>> = Vec::new();
    let m = cycles.len();
    let mut k: usize = 0;
    while k < m
        invariant
            m == cycles@.len(),
            k <= m,
            out@.len() == k,
            forall|q: int| 0 <= q < k ==> #[trigger] place_cycle_views(out@)[q] == crate::world::graph::nested_views(cycles@)[q],
        decreases m - k,
    {
        let c = &cycles[k];
        let mut row: Vec<PlaceId> = Vec::new();
        let l = c.len();
        let mut j: usize = 0;
        while j < l
            invariant
                l == c@.len(),
                j <= l,
                row@.len() == j,
                forall|q: int| 0 <= q < j ==> #[trigger] row@[q]@ == c@[q]@,
            decreases l - j,
        {
            row.push(PlaceId(c[j].clone()));
            j = j + 1;
        }
        let ghost before = place_cycle_views(out@);
        out.push(row);
        proof {
            assert(row@.map_values(|p: PlaceId| p@) =~= views(c@));
            assert(place_cycle_views(out@) =~= before.push(views(c@)));
        }
        k = k + 1;
    }
    assert(place_cycle_views(out@) =~= crate::world::graph::nested_views(cycles@));
    out
}

} // verus!
