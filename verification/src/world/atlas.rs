//! Atlas aggregate: a map that places appear on, and the views over it
//! (its places, by layer, and the borders between them).
//!
//! An atlas is a boundary: the views never leave the places it references.

use std::collections::BTreeMap;
use vstd::prelude::*;
use crate::text::str_eq;
use crate::world::{ExtraValue, lookup_extra_text, extra_text};
use crate::world::group::WorldError;
use crate::world::place::{Place, PlaceId, PlaceLayer};
use crate::world::repository::{
    WorldRepository, lemma_read_all_fails_early, lemma_read_all_step, place_reads, read_all, reads_as,
};

verus! {

/// Atlas identifier, `atlas-{slug}`.
#[derive(Debug, Clone, PartialEq, Eq, Hash, PartialOrd, Ord)]
pub struct AtlasId(pub String);

impl View for AtlasId {
    type V = Seq<char>;

    open spec fn view(&self) -> Seq<char> {
        self.0@
    }
}

impl AtlasId {
    pub fn new(s: &str) -> (r: AtlasId)
        ensures
            r@ == s@,
    {
        AtlasId(s.to_owned())
    }

    pub fn as_str(&self) -> (r: &str)
        ensures
            r@ == self@,
    {
        self.0.as_str()
    }
}

impl From<String> for AtlasId {
    fn from(s: String) -> (r: AtlasId) {
        AtlasId(s)
    }
}

impl vstd::std_specs::convert::FromSpecImpl<String> for AtlasId {
    open spec fn obeys_from_spec() -> bool {
        true
    }

    open spec fn from_spec(v: String) -> AtlasId {
        AtlasId(v)
    }
}

impl From<&str> for AtlasId {
    fn from(s: &str) -> (r: AtlasId)
        ensures
            r@ == s@,
    {
        AtlasId(s.to_owned())
    }
}

impl vstd::std_specs::convert::FromSpecImpl<&str> for AtlasId {
    /// `from` itself states the result (its text is `s`); this generic
    /// description is not used.
    open spec fn obeys_from_spec() -> bool {
        false
    }

    open spec fn from_spec(v: &str) -> AtlasId {
        AtlasId(<String as vstd::std_specs::convert::FromSpec<&str>>::from_spec(v))
    }
}

/// The unit of an atlas whose extent does not name one.
pub fn default_unit() -> (r: String)
    ensures
        r@ == "schematic"@,
{
    "schematic".to_owned()
}

/// The coordinate system, size and unit of an atlas. Only the
/// `schematic` projection (a unitless layout) has a meaning so far.
#[derive(Debug, Clone, PartialEq, Eq)]
pub struct AtlasExtent {
    pub projection: String,
    pub width_units: Option<u32>,
    pub height_units: Option<u32>,
    pub unit: String,
}

impl Default for AtlasExtent {
    fn default() -> (r: AtlasExtent)
        ensures
            r.projection@ == "schematic"@,
            r.width_units is None,
            r.height_units is None,
            r.unit@ == "schematic"@,
    {
        AtlasExtent {
            projection: "schematic".to_owned(),
            width_units: None,
            height_units: None,
            unit: default_unit(),
        }
    }
}

/// The atlas aggregate.
#[derive(Debug, Clone, PartialEq)]
pub struct Atlas {
    pub id: AtlasId,
    /// Filled in by the genre: continent, region, city-map, ...
    pub kind: String,
    pub name: String,
    pub aliases: Vec<String>,
    pub summary: String,
    pub tags: Vec<String>,
    pub extras: Vec<(String, ExtraValue)>,
    pub extent: AtlasExtent,
    /// The places on the atlas, in the order they are shown.
    pub references: Vec<PlaceId>,
    /// Body sections by heading, in heading order, kept byte for byte.
    pub body_sections: BTreeMap<String, String>,
    pub source_path: Option<String>,
}

/// The texts of a sequence of place ids.
pub open spec fn place_id_views(s: Seq<PlaceId>) -> Seq<Seq<char>> {
    s.map_values(|p: PlaceId| p@)
}

/// The places of `ps` on the layer `layer`, in order.
pub open spec fn on_layer(ps: Seq<Place>, layer: PlaceLayer) -> Seq<Place> {
    ps.filter(|p: Place| p.layer == layer)
}

/// The neighbours of `place` that are among `refs`, in the order the place
/// lists its borders.
pub open spec fn neighbours_within(refs: Seq<Seq<char>>, place: Place) -> Seq<Seq<char>> {
    place_id_views(place.spatial.bordering_places@).filter(|x: Seq<char>| refs.contains(x))
}

/// Keeps the places of `places` that lie on the layer `layer`, in order.
pub fn places_of_layer(places: Vec<Place>, layer: PlaceLayer) -> (r: Vec<Place>)
    ensures
        r@ == on_layer(places@, layer),
{
    let ghost orig = places@;
    let n = places.len();
    let mut src = places;
    let mut rev: Vec<Place> = Vec::new();
    assert(orig.take(n as int) =~= orig);
    while src.len() > 0
        invariant
            n == orig.len(),
            rev@.len() <= n,
            src@ == orig.take(n - rev@.len()),
            forall|q: int| 0 <= q < rev@.len() ==> #[trigger] rev@[q] == orig[n - 1 - q],
        decreases src@.len(),
    {
        let ghost k = src@.len();
        let p = src.pop().unwrap();
        proof {
            assert(orig.take(k as int).drop_last() =~= orig.take(k - 1));
        }
        rev.push(p);
    }
    let mut out: Vec<Place> = Vec::new();
    assert(orig.take(0).filter(|p: Place| p.layer == layer) =~= Seq::<Place>::empty()) by {
        reveal(Seq::filter);
    }
    while rev.len() > 0
        invariant
            n == orig.len(),
            rev@.len() <= n,
            forall|q: int| 0 <= q < rev@.len() ==> #[trigger] rev@[q] == orig[n - 1 - q],
            out@ == orig.take(n - rev@.len()).filter(|p: Place| p.layer == layer),
        decreases rev@.len(),
    {
        let ghost k = (n - rev@.len()) as int;
        let p = rev.pop().unwrap();
        proof {
            assert(orig.take(k + 1).drop_last() =~= orig.take(k));
            assert(orig.take(k + 1).last() == p);
            reveal(Seq::filter);
        }
        if p.layer == layer {
            out.push(p);
        }
    }
    assert(orig.take(n as int) =~= orig);
    out
}

impl Atlas {
    /// An atlas with the given identity, the default extent and every other
    /// field empty.
    pub fn new(id: &str, kind: &str, name: &str) -> (r: Atlas)
        ensures
            r.id@ == id@,
            r.kind@ == kind@,
            r.name@ == name@,
            r.aliases@.len() == 0,
            r.summary@.len() == 0,
            r.tags@.len() == 0,
            r.extras@.len() == 0,
            r.extent.projection@ == "schematic"@,
            r.extent.width_units is None,
            r.extent.height_units is None,
            r.extent.unit@ == "schematic"@,
            r.references@.len() == 0,
            r.body_sections@ == Map::<String, String>::empty(),
            r.source_path is None,
    {
        Atlas {
            id: AtlasId::new(id),
            kind: kind.to_owned(),
            name: name.to_owned(),
            aliases: Vec::new(),
            summary: String::new(),
            tags: Vec::new(),
            extras: Vec::new(),
            extent: AtlasExtent::default(),
            references: Vec::new(),
            body_sections: BTreeMap::new(),
            source_path: None,
        }
    }

    /// The `era` extension (free text naming the era shown), when it is a
    /// string.
    pub fn era(&self) -> (r: Option<&str>)
        ensures
            match r {
                Some(s) => extra_text(self.extras@, "era"@) == Some(s@),
                None => extra_text(self.extras@, "era"@) is None,
            },
    {
        lookup_extra_text(&self.extras, "era")
    }

    /// The `era_id` extension, when it is a string.
    pub fn era_id(&self) -> (r: Option<&str>)
        ensures
            match r {
                Some(s) => extra_text(self.extras@, "era_id"@) == Some(s@),
                None => extra_text(self.extras@, "era_id"@) is None,
            },
    {
        lookup_extra_text(&self.extras, "era_id")
    }

    /// Whether the atlas shows the place `place_id`.
    pub fn references_place(&self, place_id: &PlaceId) -> (r: bool)
        ensures
            r == place_id_views(self.references@).contains(place_id@),
    {
        let n = self.references.len();
        let mut k: usize = 0;
        while k < n
            invariant
                n == self.references@.len(),
                k <= n,
                forall|q: int| 0 <= q < k ==> #[trigger] self.references@[q]@ != place_id@,
            decreases n - k,
        {
            if str_eq(self.references[k].as_str(), place_id.as_str()) {
                assert(place_id_views(self.references@)[k as int] == place_id@);
                return true;
            }
            k = k + 1;
        }
        proof {
            if place_id_views(self.references@).contains(place_id@) {
                let q = choose|q: int|
                    0 <= q < place_id_views(self.references@).len() && place_id_views(self.references@)[q]
                        == place_id@;
                assert(self.references@[q]@ == place_id@);
            }
        }
        false
    }

    /// The borders of `place` that stay on this atlas, in the order the
    /// place lists them.
    pub fn adjacent_within(&self, place: &Place) -> (r: Vec<PlaceId>)
        ensures
            place_id_views(r@) == neighbours_within(place_id_views(self.references@), *place),
    {
        let ghost refs = place_id_views(self.references@);
        let ghost all = place_id_views(place.spatial.bordering_places@);
        let b = &place.spatial.bordering_places;
        let n = b.len();
        let mut out: Vec<PlaceId> = Vec::new();
        let mut i: usize = 0;
        assert(all.take(0).filter(|x: Seq<char>| refs.contains(x)) =~= Seq::<Seq<char>>::empty()) by {
            reveal(Seq::filter);
        }
        while i < n
            invariant
                n == b@.len(),
                b == &place.spatial.bordering_places,
                all == place_id_views(b@),
                refs == place_id_views(self.references@),
                i <= n,
                place_id_views(out@) == all.take(i as int).filter(|x: Seq<char>| refs.contains(x)),
            decreases n - i,
        {
            proof {
                assert(all.take(i + 1).drop_last() =~= all.take(i as int));
                assert(all.take(i + 1).last() == b@[i as int]@);
                reveal(Seq::filter);
            }
            if self.references_place(&b[i]) {
                let ghost before = out@;
                out.push(b[i].duplicate());
                assert(place_id_views(out@) =~= place_id_views(before).push(b@[i as int]@));
            }
            i = i + 1;
        }
        assert(all.take(n as int) =~= all);
        out
    }

    /// The referenced places, in reference order; ids the store does not
    /// have are left out, and the first storage failure is returned.
    pub fn places_in<R: WorldRepository>(&self, repo: &R) -> (r: Result<Vec<Place>, WorldError>)
        ensures
            reads_as(r, read_all(place_reads(repo, place_id_views(self.references@)))),
    {
        let ghost answers = place_reads(repo, place_id_views(self.references@));
        let mut out: Vec<Place> = Vec::new();
        let n = self.references.len();
        let mut i: usize = 0;
        assert(answers.take(0) =~= Seq::<Result<Option<Place>, WorldError>>::empty());
        while i < n
            invariant
                n == self.references@.len(),
                answers == place_reads(repo, place_id_views(self.references@)),
                i <= n,
                read_all(answers.take(i as int)) == Ok::<Seq<Place>, WorldError>(out@),
            decreases n - i,
        {
            let a = repo.get_place(&self.references[i]);
            proof {
                lemma_read_all_step(answers, i as int);
                assert(answers[i as int] == a);
            }
            match a {
                Ok(Some(x)) => out.push(x),
                Ok(None) => {},
                Err(e) => {
                    proof {
                        lemma_read_all_fails_early(answers, i + 1);
                    }
                    return Err(e);
                },
            }
            i = i + 1;
        }
        assert(answers.take(n as int) =~= answers);
        Ok(out)
    }

    /// The referenced places on the settlement layer, in reference order.
    pub fn settlements_in<R: WorldRepository>(&self, repo: &R) -> (r: Result<Vec<Place>, WorldError>)
        ensures
            reads_as(r, layer_read(read_all(place_reads(repo, place_id_views(self.references@))), PlaceLayer::Settlement)),
    {
        let ps = self.places_in(repo)?;
        let v = places_of_layer(ps, PlaceLayer::Settlement);
        Ok(v)
    }

    /// The referenced places on the geography layer, in reference order.
    pub fn geographies_in<R: WorldRepository>(&self, repo: &R) -> (r: Result<Vec<Place>, WorldError>)
        ensures
            reads_as(r, layer_read(read_all(place_reads(repo, place_id_views(self.references@))), PlaceLayer::Geography)),
    {
        let ps = self.places_in(repo)?;
        let v = places_of_layer(ps, PlaceLayer::Geography);
        Ok(v)
    }

    /// The neighbours of `place_id` on this atlas: its borders that the
    /// atlas also shows. Empty when the atlas does not show the place or the
    /// store does not have it; a storage failure is returned.
    pub fn adjacent_to<R: WorldRepository>(&self, place_id: &PlaceId, repo: &R) -> (r: Result<Vec<PlaceId>, WorldError>)
        ensures
            !place_id_views(self.references@).contains(place_id@) ==> (r matches Ok(v) && v@.len() == 0),
            place_id_views(self.references@).contains(place_id@) ==> match repo.place_answer(place_id@) {
                Err(e) => r == Err::<Vec<PlaceId>, WorldError>(e),
                Ok(None) => r matches Ok(v) && v@.len() == 0,
                Ok(Some(p)) => r matches Ok(v) && place_id_views(v@) == neighbours_within(
                    place_id_views(self.references@),
                    p,
                ),
            },
    {
        if !self.references_place(place_id) {
            return Ok(Vec::new());
        }
        match repo.get_place(place_id)? {
            Some(place) => {
                let v = self.adjacent_within(&place);
                Ok(v)
            },
            None => Ok(Vec::new()),
        }
    }
}

/// The places of a read on the layer `layer`; a failed read stays failed.
pub open spec fn layer_read(read: Result<Seq<Place>, WorldError>, layer: PlaceLayer) -> Result<Seq<Place>, WorldError> {
    match read {
        Ok(ps) => Ok(on_layer(ps, layer)),
        Err(e) => Err(e),
    }
}

/// Filter for listing atlases.
#[derive(Debug, Clone)]
pub struct AtlasFilter {
    pub kind: Option<String>,
    pub genre_tag: Option<String>,
}

impl Default for AtlasFilter {
    fn default() -> (r: AtlasFilter)
        ensures
            r.kind is None,
            r.genre_tag is None,
    {
        AtlasFilter { kind: None, genre_tag: None }
    }
}

} // verus!
