//! Timeline aggregate: an ordered selection of eras, and the views over it
//! (its eras, its events, and the causal chains between its events).
//!
//! A timeline is a boundary: the views never leave the eras it references.

use std::collections::BTreeMap;
use vstd::prelude::*;
use crate::present::somes;
use crate::text::str_eq;
use crate::world::{ExtraValue, contains_text};
use crate::world::era::{Era, EraId};
use crate::world::event::{Event, EventId};
use crate::world::graph::views;
use crate::world::group::WorldError;
use crate::world::repository::{
    WorldRepository, era_reads, event_reads, get_eras_batch, get_events_batch, read_all, reads_as,
};

verus! {

/// Timeline identifier, `timeline-{slug}`.
#[derive(Debug, Clone, PartialEq, Eq, Hash, PartialOrd, Ord)]
pub struct TimelineId(pub String);

impl View for TimelineId {
    type V = Seq<char>;

    open spec fn view(&self) -> Seq<char> {
        self.0@
    }
}

impl TimelineId {
    pub fn new(s: &str) -> (r: TimelineId)
        ensures
            r@ == s@,
    {
        TimelineId(s.to_owned())
    }

    pub fn as_str(&self) -> (r: &str)
        ensures
            r@ == self@,
    {
        self.0.as_str()
    }
}

impl From<String> for TimelineId {
    fn from(s: String) -> (r: TimelineId) {
        TimelineId(s)
    }
}

impl vstd::std_specs::convert::FromSpecImpl<String> for TimelineId {
    open spec fn obeys_from_spec() -> bool {
        true
    }

    open spec fn from_spec(v: String) -> TimelineId {
        TimelineId(v)
    }
}

impl From<&str> for TimelineId {
    fn from(s: &str) -> (r: TimelineId)
        ensures
            r@ == s@,
    {
        TimelineId(s.to_owned())
    }
}

impl vstd::std_specs::convert::FromSpecImpl<&str> for TimelineId {
    /// `from` itself states the result (its text is `s`); this generic
    /// description is not used.
    open spec fn obeys_from_spec() -> bool {
        false
    }

    open spec fn from_spec(v: &str) -> TimelineId {
        TimelineId(<String as vstd::std_specs::convert::FromSpec<&str>>::from_spec(v))
    }
}

/// The timeline aggregate.
#[derive(Debug, Clone, PartialEq)]
pub struct Timeline {
    pub id: TimelineId,
    /// Filled in by the genre: history, chronicle, ...
    pub kind: String,
    pub name: String,
    pub aliases: Vec<String>,
    pub summary: String,
    pub tags: Vec<String>,
    pub extras: Vec<(String, ExtraValue)>,
    /// The eras of the timeline, in the order they are shown.
    pub references: Vec<EraId>,
    /// Body sections by heading, in heading order.
    pub body_sections: BTreeMap<String, String>,
    pub source_path: Option<String>,
}

/// The texts of a sequence of event ids.
pub open spec fn event_id_views(s: Seq<EventId>) -> Seq<Seq<char>> {
    s.map_values(|e: EventId| e@)
}

/// The texts of a sequence of era ids.
pub open spec fn era_id_views(s: Seq<EraId>) -> Seq<Seq<char>> {
    s.map_values(|e: EraId| e@)
}

/// The key events of `eras`, era after era, each era's in written order,
/// repeats included.
pub open spec fn key_event_trail(eras: Seq<Era>) -> Seq<Seq<char>>
    decreases eras.len(),
{
    if eras.len() == 0 {
        Seq::empty()
    } else {
        key_event_trail(eras.drop_last()) + event_id_views(eras.last().key_events@)
    }
}

/// The key events of `eras` in trail order, each kept at its first
/// appearance only.
pub open spec fn timeline_event_ids(eras: Seq<Era>) -> Seq<Seq<char>> {
    key_event_trail(eras).remove_duplicates(Seq::empty())
}

/// Removing duplicates after a duplicate-free `seen` leaves no duplicates.
proof fn lemma_remove_duplicates_distinct(s: Seq<Seq<char>>, seen: Seq<Seq<char>>)
    requires
        seen.no_duplicates(),
    ensures
        s.remove_duplicates(seen).no_duplicates(),
    decreases s.len(),
{
    if s.len() > 0 {
        if seen.contains(s[0]) {
            lemma_remove_duplicates_distinct(s.skip(1), seen);
        } else {
            let next = seen + seq![s[0]];
            assert forall|a: int, b: int| 0 <= a < next.len() && 0 <= b < next.len() && a != b implies next[a]
                != next[b] by {
                if a == seen.len() {
                    assert(seen[b] != s[0]);
                } else if b == seen.len() {
                    assert(seen[a] != s[0]);
                }
            }
            lemma_remove_duplicates_distinct(s.skip(1), next);
        }
    }
}

/// The events of a timeline hold every key event of its eras, and each
/// once.
pub proof fn law_timeline_events_distinct(eras: Seq<Era>)
    ensures
        timeline_event_ids(eras).no_duplicates(),
        forall|id: Seq<char>| #[trigger] timeline_event_ids(eras).contains(id) <==> key_event_trail(eras).contains(id),
{
    lemma_remove_duplicates_distinct(key_event_trail(eras), Seq::empty());
    key_event_trail(eras).lemma_remove_duplicates_properties(Seq::empty());
    assert(key_event_trail(eras) + Seq::<Seq<char>>::empty() =~= key_event_trail(eras));
}

/// Whether `v` holds an id with the text of `x`.
fn has_event_id(v: &Vec<EventId>, x: &EventId) -> (r: bool)
    ensures
        r == event_id_views(v@).contains(x@),
{
    let n = v.len();
    let mut k: usize = 0;
    while k < n
        invariant
            n == v@.len(),
            k <= n,
            forall|q: int| 0 <= q < k ==> #[trigger] v@[q]@ != x@,
        decreases n - k,
    {
        if str_eq(v[k].as_str(), x.as_str()) {
            assert(event_id_views(v@)[k as int] == x@);
            return true;
        }
        k = k + 1;
    }
    proof {
        if event_id_views(v@).contains(x@) {
            let q = choose|q: int| 0 <= q < event_id_views(v@).len() && event_id_views(v@)[q] == x@;
            assert(v@[q]@ == x@);
        }
    }
    false
}

/// The ids of the events of `scope`, in order.
pub open spec fn scope_ids(scope: Seq<Event>) -> Seq<Seq<char>> {
    scope.map_values(|e: Event| e.id@)
}

/// The position of the last event of `scope` with the id `id`, or -1. When
/// ids repeat, the last event with an id is the one that stands for it.
pub open spec fn last_index(scope: Seq<Event>, id: Seq<char>) -> int
    decreases scope.len(),
{
    if scope.len() == 0 {
        -1
    } else if scope.last().id@ == id {
        scope.len() - 1
    } else {
        last_index(scope.drop_last(), id)
    }
}

/// The related-event ids of the event that stands for `id` in `scope`.
pub open spec fn related_of(scope: Seq<Event>, id: Seq<char>) -> Seq<Seq<char>> {
    event_id_views(scope[last_index(scope, id)].related_events@)
}

/// Appends to `seen`, in order, each id of `rels` that has an event in
/// `scope` and is not in `seen` yet.
pub open spec fn enqueue_related(scope: Seq<Event>, rels: Seq<Seq<char>>, seen: Seq<Seq<char>>) -> Seq<Seq<char>>
    decreases rels.len(),
{
    if rels.len() == 0 {
        seen
    } else {
        let r = rels[0];
        let next = if scope_ids(scope).contains(r) && !seen.contains(r) {
            seen.push(r)
        } else {
            seen
        };
        enqueue_related(scope, rels.drop_first(), next)
    }
}

/// Breadth-first search over `related_events` inside `scope`. `seen` is
/// every id reached so far in the order reached; the ids before `head` have
/// been expanded, the rest wait in the queue. At most `fuel` more ids are
/// expanded.
pub open spec fn bfs_from(scope: Seq<Event>, seen: Seq<Seq<char>>, head: nat, fuel: nat) -> Seq<Seq<char>>
    decreases fuel,
{
    if fuel == 0 || head >= seen.len() {
        seen
    } else {
        bfs_from(scope, enqueue_related(scope, related_of(scope, seen[head as int]), seen), head + 1, (fuel - 1) as nat)
    }
}

/// The ids of the causal chain from `seed` in `scope`: breadth-first order
/// over `related_events`, the seed first, every id once; empty when `seed`
/// has no event in `scope`.
pub open spec fn causal_order(scope: Seq<Event>, seed: Seq<char>) -> Seq<Seq<char>> {
    if scope_ids(scope).contains(seed) {
        bfs_from(scope, seq![seed], 0, scope.len())
    } else {
        Seq::empty()
    }
}

/// The events of the causal chain from `seed` in `scope`, in chain order.
pub open spec fn causal_events(scope: Seq<Event>, seed: Seq<char>) -> Seq<Event> {
    causal_order(scope, seed).map_values(|id: Seq<char>| scope[last_index(scope, id)])
}

/// `last_index` finds an event exactly when the id occurs, and that event
/// has the id.
pub proof fn lemma_last_index(scope: Seq<Event>, id: Seq<char>)
    ensures
        -1 <= last_index(scope, id) < scope.len(),
        (last_index(scope, id) >= 0) == scope_ids(scope).contains(id),
        last_index(scope, id) >= 0 ==> scope[last_index(scope, id)].id@ == id,
    decreases scope.len(),
{
    if scope.len() > 0 {
        let rest = scope.drop_last();
        lemma_last_index(rest, id);
        if scope.last().id@ == id {
            assert(scope_ids(scope)[scope.len() - 1] == id);
        } else {
            if scope_ids(scope).contains(id) {
                let q = choose|q: int| 0 <= q < scope_ids(scope).len() && scope_ids(scope)[q] == id;
                assert(q < scope.len() - 1);
                assert(scope_ids(rest)[q] == id);
            }
            if scope_ids(rest).contains(id) {
                let q = choose|q: int| 0 <= q < scope_ids(rest).len() && scope_ids(rest)[q] == id;
                assert(scope_ids(scope)[q] == id);
            }
        }
    }
}

/// A duplicate-free list of ids of `scope` is no longer than `scope`.
proof fn lemma_distinct_ids_bound(s: Seq<Seq<char>>, scope: Seq<Event>)
    requires
        s.no_duplicates(),
        forall|i: int| 0 <= i < s.len() ==> scope_ids(scope).contains(#[trigger] s[i]),
    ensures
        s.len() <= scope.len(),
{
    s.unique_seq_to_set();
    scope_ids(scope).lemma_cardinality_of_set();
    assert forall|x: Seq<char>| s.to_set().contains(x) implies scope_ids(scope).to_set().contains(x) by {
        let q = choose|q: int| 0 <= q < s.len() && s[q] == x;
        assert(scope_ids(scope).contains(s[q]));
    }
    vstd::set_lib::lemma_len_subset(s.to_set(), scope_ids(scope).to_set());
}

/// Once every reached id has been expanded, the search is over.
proof fn lemma_bfs_done(scope: Seq<Event>, seen: Seq<Seq<char>>, head: nat, fuel: nat)
    requires
        head >= seen.len(),
    ensures
        bfs_from(scope, seen, head, fuel) == seen,
{
}

/// Appending related ids keeps what was reached, adds no repeats and adds
/// only ids of `scope`.
proof fn lemma_enqueue_related(scope: Seq<Event>, rels: Seq<Seq<char>>, seen: Seq<Seq<char>>)
    requires
        seen.no_duplicates(),
        forall|i: int| 0 <= i < seen.len() ==> scope_ids(scope).contains(#[trigger] seen[i]),
    ensures
        enqueue_related(scope, rels, seen).no_duplicates(),
        forall|i: int|
            0 <= i < enqueue_related(scope, rels, seen).len() ==> scope_ids(scope).contains(
                #[trigger] enqueue_related(scope, rels, seen)[i],
            ),
        enqueue_related(scope, rels, seen).len() >= seen.len(),
        enqueue_related(scope, rels, seen).take(seen.len() as int) == seen,
    decreases rels.len(),
{
    if rels.len() > 0 {
        let r = rels[0];
        let next = if scope_ids(scope).contains(r) && !seen.contains(r) {
            seen.push(r)
        } else {
            seen
        };
        if scope_ids(scope).contains(r) && !seen.contains(r) {
            assert forall|a: int, b: int| 0 <= a < next.len() && 0 <= b < next.len() && a != b implies next[a]
                != next[b] by {
                if a == seen.len() {
                    assert(seen[b] != r);
                } else if b == seen.len() {
                    assert(seen[a] != r);
                }
            }
        }
        lemma_enqueue_related(scope, rels.drop_first(), next);
        let out = enqueue_related(scope, rels.drop_first(), next);
        assert(out.take(seen.len() as int) =~= out.take(next.len() as int).take(seen.len() as int));
        assert(next.take(seen.len() as int) =~= seen);
    }
}

/// The search keeps what was reached, adds no repeats and adds only ids of
/// `scope`.
proof fn lemma_bfs_from(scope: Seq<Event>, seen: Seq<Seq<char>>, head: nat, fuel: nat)
    requires
        seen.no_duplicates(),
        forall|i: int| 0 <= i < seen.len() ==> scope_ids(scope).contains(#[trigger] seen[i]),
    ensures
        bfs_from(scope, seen, head, fuel).no_duplicates(),
        forall|i: int|
            0 <= i < bfs_from(scope, seen, head, fuel).len() ==> scope_ids(scope).contains(
                #[trigger] bfs_from(scope, seen, head, fuel)[i],
            ),
        bfs_from(scope, seen, head, fuel).len() >= seen.len(),
        bfs_from(scope, seen, head, fuel).take(seen.len() as int) == seen,
    decreases fuel,
{
    if fuel == 0 || head >= seen.len() {
        assert(seen.take(seen.len() as int) =~= seen);
    } else {
        let next = enqueue_related(scope, related_of(scope, seen[head as int]), seen);
        lemma_enqueue_related(scope, related_of(scope, seen[head as int]), seen);
        lemma_bfs_from(scope, next, head + 1, (fuel - 1) as nat);
        let out = bfs_from(scope, next, head + 1, (fuel - 1) as nat);
        assert(out.take(seen.len() as int) =~= out.take(next.len() as int).take(seen.len() as int));
    }
}

/// A step of a causal chain: `y` is a related event of `x` that lies in
/// the scope.
pub open spec fn causal_step(scope: Seq<Event>, x: Seq<char>, y: Seq<char>) -> bool {
    related_of(scope, x).contains(y) && scope_ids(scope).contains(y)
}

/// `p` is a path of causal steps that starts inside the scope.
pub open spec fn causal_path(scope: Seq<Event>, p: Seq<Seq<char>>) -> bool {
    &&& p.len() >= 1
    &&& scope_ids(scope).contains(p[0])
    &&& forall|k: int| 0 <= k < p.len() - 1 ==> causal_step(scope, #[trigger] p[k], p[k + 1])
}

/// `x` can be reached from `seed` by causal steps inside the scope (the
/// seed itself included, when it lies in the scope).
pub open spec fn reachable(scope: Seq<Event>, seed: Seq<char>, x: Seq<char>) -> bool {
    exists|p: Seq<Seq<char>>| #[trigger] causal_path(scope, p) && p[0] == seed && p.last() == x
}

/// What enqueueing related ids adds: every related id of the scope, and
/// nothing else.
proof fn lemma_enqueue_members(scope: Seq<Event>, rels: Seq<Seq<char>>, seen: Seq<Seq<char>>)
    ensures
        forall|y: Seq<char>| rels.contains(y) && scope_ids(scope).contains(y) ==> #[trigger] enqueue_related(scope, rels, seen).contains(y),
        forall|y: Seq<char>| #[trigger] enqueue_related(scope, rels, seen).contains(y) ==> seen.contains(y) || (rels.contains(y) && scope_ids(scope).contains(y)),
        forall|y: Seq<char>| seen.contains(y) ==> #[trigger] enqueue_related(scope, rels, seen).contains(y),
    decreases rels.len(),
{
    if rels.len() > 0 {
        let r = rels[0];
        let next = if scope_ids(scope).contains(r) && !seen.contains(r) {
            seen.push(r)
        } else {
            seen
        };
        lemma_enqueue_members(scope, rels.drop_first(), next);
        let out = enqueue_related(scope, rels, seen);
        assert(out == enqueue_related(scope, rels.drop_first(), next));
        assert forall|y: Seq<char>| seen.contains(y) implies next.contains(y) by {
            if scope_ids(scope).contains(r) && !seen.contains(r) {
                let q = choose|q: int| 0 <= q < seen.len() && seen[q] == y;
                assert(next[q] == y);
            }
        }
        assert forall|y: Seq<char>| rels.contains(y) && scope_ids(scope).contains(y) implies out.contains(y) by {
            let q = choose|q: int| 0 <= q < rels.len() && rels[q] == y;
            if q == 0 {
                if !seen.contains(r) {
                    assert(next[seen.len() as int] == r);
                }
                assert(next.contains(y));
            } else {
                assert(rels.drop_first()[q - 1] == y);
            }
        }
        assert forall|y: Seq<char>| out.contains(y) implies seen.contains(y) || (rels.contains(y) && scope_ids(
            scope,
        ).contains(y)) by {
            if next.contains(y) && !seen.contains(y) {
                let q = choose|q: int| 0 <= q < next.len() && next[q] == y;
                if scope_ids(scope).contains(r) && !seen.contains(r) && q == seen.len() {
                    assert(rels[0] == y);
                } else {
                    assert(seen[q] == y);
                }
            }
            if rels.drop_first().contains(y) {
                let q = choose|q: int| 0 <= q < rels.drop_first().len() && rels.drop_first()[q] == y;
                assert(rels[q + 1] == y);
            }
        }
    }
}

/// Once the search has run its course, what it reached is closed under
/// causal steps.
proof fn lemma_bfs_closed(scope: Seq<Event>, seen: Seq<Seq<char>>, head: nat, fuel: nat)
    requires
        seen.no_duplicates(),
        forall|i: int| 0 <= i < seen.len() ==> scope_ids(scope).contains(#[trigger] seen[i]),
        head <= seen.len(),
        head + fuel >= scope.len(),
        forall|q: int, y: Seq<char>| 0 <= q < head && #[trigger] causal_step(scope, seen[q], y) ==> seen.contains(y),
    ensures
        forall|x: Seq<char>, y: Seq<char>| #[trigger] bfs_from(scope, seen, head, fuel).contains(x) && #[trigger] causal_step(scope, x, y) ==> bfs_from(scope, seen, head, fuel).contains(y),
    decreases fuel,
{
    if head >= seen.len() {
        assert(bfs_from(scope, seen, head, fuel) == seen);
        assert forall|x: Seq<char>, y: Seq<char>| #[trigger] seen.contains(x) && #[trigger] causal_step(scope, x, y) implies seen.contains(y) by {
            let q = choose|q: int| 0 <= q < seen.len() && seen[q] == x;
            assert(causal_step(scope, seen[q], y));
        }
    } else if fuel == 0 {
        lemma_distinct_ids_bound(seen, scope);
    } else {
        let rels = related_of(scope, seen[head as int]);
        let next = enqueue_related(scope, rels, seen);
        lemma_enqueue_related(scope, rels, seen);
        lemma_enqueue_members(scope, rels, seen);
        assert forall|q: int, y: Seq<char>| 0 <= q < head + 1 && #[trigger] causal_step(scope, next[q], y) implies next.contains(y) by {
            assert(next[q] == next.take(seen.len() as int)[q]);
            assert(next[q] == seen[q]);
            if q < head {
                assert(causal_step(scope, seen[q], y));
                assert(seen.contains(y));
            } else {
                assert(rels.contains(y) && scope_ids(scope).contains(y));
            }
        }
        lemma_bfs_closed(scope, next, head + 1, (fuel - 1) as nat);
        assert(bfs_from(scope, seen, head, fuel) == bfs_from(scope, next, head + 1, (fuel - 1) as nat));
    }
}

/// Everything the search reaches can be reached from the seed, when
/// everything it starts from can.
proof fn lemma_bfs_sound(scope: Seq<Event>, seen: Seq<Seq<char>>, head: nat, fuel: nat, seed: Seq<char>)
    requires
        forall|i: int| 0 <= i < seen.len() ==> reachable(scope, seed, #[trigger] seen[i]),
    ensures
        forall|x: Seq<char>| #[trigger] bfs_from(scope, seen, head, fuel).contains(x) ==> reachable(scope, seed, x),
    decreases fuel,
{
    if fuel == 0 || head >= seen.len() {
        assert(bfs_from(scope, seen, head, fuel) == seen);
        assert forall|x: Seq<char>| #[trigger] seen.contains(x) implies reachable(scope, seed, x) by {
            let q = choose|q: int| 0 <= q < seen.len() && seen[q] == x;
            assert(reachable(scope, seed, seen[q]));
        }
    } else {
        let from = seen[head as int];
        let rels = related_of(scope, from);
        let next = enqueue_related(scope, rels, seen);
        lemma_enqueue_members(scope, rels, seen);
        assert(reachable(scope, seed, from));
        let p = choose|p: Seq<Seq<char>>| #[trigger] causal_path(scope, p) && p[0] == seed && p.last() == from;
        assert forall|i: int| 0 <= i < next.len() implies reachable(scope, seed, #[trigger] next[i]) by {
            let y = next[i];
            assert(next.contains(y));
            if seen.contains(y) {
                let q = choose|q: int| 0 <= q < seen.len() && seen[q] == y;
                assert(reachable(scope, seed, seen[q]));
            } else {
                let p2 = p.push(y);
                assert(causal_step(scope, from, y));
                assert forall|k: int| 0 <= k < p2.len() - 1 implies causal_step(scope, #[trigger] p2[k], p2[k + 1]) by {
                    if k < p.len() - 1 {
                        assert(p2[k] == p[k] && p2[k + 1] == p[k + 1]);
                    } else {
                        assert(p2[k] == from && p2[k + 1] == y);
                    }
                }
                assert(causal_path(scope, p2));
                assert(p2[0] == seed && p2.last() == y);
            }
        }
        lemma_bfs_sound(scope, next, head + 1, (fuel - 1) as nat, seed);
        assert(bfs_from(scope, seen, head, fuel) == bfs_from(scope, next, head + 1, (fuel - 1) as nat));
    }
}

/// A set closed under causal steps that holds the start of a path holds
/// the whole path.
proof fn lemma_path_inside(scope: Seq<Event>, r: Seq<Seq<char>>, p: Seq<Seq<char>>, k: int)
    requires
        causal_path(scope, p),
        0 <= k < p.len(),
        r.contains(p[0]),
        forall|x: Seq<char>, y: Seq<char>| #[trigger] r.contains(x) && #[trigger] causal_step(scope, x, y) ==> r.contains(y),
    ensures
        r.contains(p[k]),
    decreases k,
{
    if k > 0 {
        lemma_path_inside(scope, r, p, k - 1);
        assert(causal_step(scope, p[k - 1], p[k]));
    }
}

/// The causal chain from `seed` holds exactly the ids that can be reached
/// from the seed by causal steps inside the scope; being a breadth-first
/// order, it lists the seed first and each id once (see
/// `law_causal_chain_shape`).
pub proof fn law_causal_chain_is_reachable_set(scope: Seq<Event>, seed: Seq<char>, x: Seq<char>)
    ensures
        causal_order(scope, seed).contains(x) <==> reachable(scope, seed, x),
{
    if scope_ids(scope).contains(seed) {
        let start = seq![seed];
        lemma_bfs_from(scope, start, 0, scope.len());
        let r = bfs_from(scope, start, 0, scope.len());
        assert(r == causal_order(scope, seed));
        assert(r.take(1) == start);
        assert(r[0] == seed) by {
            assert(r.take(1)[0] == r[0]);
        }
        lemma_bfs_closed(scope, start, 0, scope.len());
        let p0 = seq![seed];
        assert(causal_path(scope, p0));
        assert forall|i: int| 0 <= i < start.len() implies reachable(scope, seed, #[trigger] start[i]) by {
            assert(p0[0] == seed && p0.last() == seed);
        }
        lemma_bfs_sound(scope, start, 0, scope.len(), seed);
        if reachable(scope, seed, x) {
            let p = choose|p: Seq<Seq<char>>| #[trigger] causal_path(scope, p) && p[0] == seed && p.last() == x;
            assert(r.contains(r[0]));
            lemma_path_inside(scope, r, p, p.len() - 1);
        }
    } else {
        if reachable(scope, seed, x) {
            let p = choose|p: Seq<Seq<char>>| #[trigger] causal_path(scope, p) && p[0] == seed && p.last() == x;
            assert(scope_ids(scope).contains(p[0]));
        }
        assert(!causal_order(scope, seed).contains(x));
    }
}

/// What a causal chain from `seed` in `scope` is, stated without the
/// search: empty exactly when the seed has no event in the scope;
/// otherwise the seed's event first, no event twice, and exactly the
/// events reachable from the seed by causal steps inside the scope.
pub open spec fn is_causal_chain(chain: Seq<Event>, scope: Seq<Event>, seed: Seq<char>) -> bool {
    &&& (chain.len() == 0) <==> !scope_ids(scope).contains(seed)
    &&& chain.len() > 0 ==> chain[0].id@ == seed
    &&& scope_ids(chain).no_duplicates()
    &&& forall|x: Seq<char>| #[trigger] scope_ids(chain).contains(x) <==> reachable(scope, seed, x)
}

/// The chain the breadth-first search lists is a causal chain in the
/// sense of `is_causal_chain`.
pub proof fn law_causal_events_is_causal_chain(scope: Seq<Event>, seed: Seq<char>)
    ensures
        is_causal_chain(causal_events(scope, seed), scope, seed),
{
    let chain = causal_events(scope, seed);
    if scope_ids(scope).contains(seed) {
        law_causal_chain_shape(scope, seed);
        assert(scope_ids(chain) =~= causal_order(scope, seed));
    } else {
        assert(causal_order(scope, seed) =~= Seq::<Seq<char>>::empty());
        assert(scope_ids(chain) =~= Seq::<Seq<char>>::empty());
    }
    assert forall|x: Seq<char>| #[trigger] scope_ids(chain).contains(x) <==> reachable(scope, seed, x) by {
        law_causal_chain_is_reachable_set(scope, seed, x);
    }
}

/// A causal chain is empty exactly when its seed has no event in the
/// scope.
pub proof fn law_causal_chain_empty_iff_seed_outside(scope: Seq<Event>, seed: Seq<char>)
    ensures
        (causal_events(scope, seed).len() == 0) <==> !scope_ids(scope).contains(seed),
{
    if scope_ids(scope).contains(seed) {
        law_causal_chain_shape(scope, seed);
    }
}

/// A causal chain starts at its seed, holds each event at most once and
/// never leaves its scope; its events carry the chain's ids in order.
pub proof fn law_causal_chain_shape(scope: Seq<Event>, seed: Seq<char>)
    requires
        scope_ids(scope).contains(seed),
    ensures
        causal_order(scope, seed).len() >= 1,
        causal_order(scope, seed)[0] == seed,
        causal_order(scope, seed).no_duplicates(),
        forall|i: int|
            0 <= i < causal_order(scope, seed).len() ==> scope_ids(scope).contains(
                #[trigger] causal_order(scope, seed)[i],
            ),
        causal_events(scope, seed).len() == causal_order(scope, seed).len(),
        forall|i: int|
            0 <= i < causal_events(scope, seed).len() ==> (#[trigger] causal_events(scope, seed)[i]).id@
                == causal_order(scope, seed)[i],
{
    let start = seq![seed];
    assert(scope_ids(scope).contains(start[0]));
    lemma_bfs_from(scope, start, 0, scope.len());
    let order = causal_order(scope, seed);
    assert(order.take(1)[0] == seed);
    assert forall|i: int| 0 <= i < causal_events(scope, seed).len() implies (
    #[trigger] causal_events(scope, seed)[i]).id@ == order[i] by {
        lemma_last_index(scope, order[i]);
    }
}

/// The position of the last event of `scope` with the id `id`.
fn last_position(scope: &Vec<Event>, id: &str) -> (r: Option<usize>)
    ensures
        match r {
            Some(k) => k as int == last_index(scope@, id@),
            None => last_index(scope@, id@) == -1,
        },
{
    let mut k: usize = scope.len();
    assert(scope@.take(k as int) =~= scope@);
    while k > 0
        invariant
            k <= scope@.len(),
            last_index(scope@, id@) == last_index(scope@.take(k as int), id@),
        decreases k,
    {
        proof {
            assert(scope@.take(k as int).drop_last() =~= scope@.take(k - 1));
            assert(scope@.take(k as int).last() == scope@[k - 1]);
        }
        if str_eq(scope[k - 1].id.as_str(), id) {
            return Some(k - 1);
        }
        k = k - 1;
    }
    None
}

impl Timeline {
    /// A timeline with the given identity and every other field empty.
    pub fn new(id: &str, kind: &str, name: &str) -> (r: Timeline)
        ensures
            r.id@ == id@,
            r.kind@ == kind@,
            r.name@ == name@,
            r.aliases@.len() == 0,
            r.summary@.len() == 0,
            r.tags@.len() == 0,
            r.extras@.len() == 0,
            r.references@.len() == 0,
            r.body_sections@ == Map::<String, String>::empty(),
            r.source_path is None,
    {
        Timeline {
            id: TimelineId::new(id),
            kind: kind.to_owned(),
            name: name.to_owned(),
            aliases: Vec::new(),
            summary: String::new(),
            tags: Vec::new(),
            extras: Vec::new(),
            references: Vec::new(),
            body_sections: BTreeMap::new(),
            source_path: None,
        }
    }

    /// Whether the timeline references the era `era_id`.
    pub fn references_era(&self, era_id: &EraId) -> (r: bool)
        ensures
            r == era_id_views(self.references@).contains(era_id@),
    {
        let n = self.references.len();
        let mut k: usize = 0;
        while k < n
            invariant
                n == self.references@.len(),
                k <= n,
                forall|q: int| 0 <= q < k ==> #[trigger] self.references@[q]@ != era_id@,
            decreases n - k,
        {
            if str_eq(self.references[k].as_str(), era_id.as_str()) {
                assert(era_id_views(self.references@)[k as int] == era_id@);
                return true;
            }
            k = k + 1;
        }
        proof {
            if era_id_views(self.references@).contains(era_id@) {
                let q = choose|q: int|
                    0 <= q < era_id_views(self.references@).len() && era_id_views(self.references@)[q] == era_id@;
                assert(self.references@[q]@ == era_id@);
            }
        }
        false
    }

    /// The key events of `eras`, era after era and each era's in written
    /// order, an event shared by several eras kept at its first appearance.
    pub fn era_event_ids(eras: &[Era]) -> (r: Vec<EventId>)
        ensures
            event_id_views(r@) == timeline_event_ids(eras@),
    {
        let mut out: Vec<EventId> = Vec::new();
        let n = eras.len();
        let mut i: usize = 0;
        assert(eras@.take(0) =~= Seq::<Era>::empty());
        while i < n
            invariant
                n == eras@.len(),
                i <= n,
                event_id_views(out@) == key_event_trail(eras@.take(i as int)).remove_duplicates(Seq::empty()),
            decreases n - i,
        {
            let ks = &eras[i].key_events;
            let m = ks.len();
            let ghost base = key_event_trail(eras@.take(i as int));
            let mut k: usize = 0;
            assert(event_id_views(ks@).take(0) =~= Seq::<Seq<char>>::empty());
            assert(base + event_id_views(ks@).take(0) =~= base);
            while k < m
                invariant
                    n == eras@.len(),
                    i < n,
                    ks == &eras@[i as int].key_events,
                    m == ks@.len(),
                    k <= m,
                    base == key_event_trail(eras@.take(i as int)),
                    event_id_views(out@) == (base + event_id_views(ks@).take(k as int)).remove_duplicates(Seq::empty()),
                decreases m - k,
            {
                let ghost prev = base + event_id_views(ks@).take(k as int);
                let ghost x = ks@[k as int]@;
                proof {
                    prev.lemma_remove_duplicates_properties(Seq::empty());
                    prev.lemma_remove_duplicates_append(x, Seq::empty());
                    assert(prev + Seq::<Seq<char>>::empty() =~= prev);
                    assert(prev + seq![x] =~= base + event_id_views(ks@).take(k + 1));
                }
                if !has_event_id(&out, &ks[k]) {
                    let ghost old_out = out@;
                    out.push(ks[k].duplicate());
                    assert(event_id_views(out@) =~= event_id_views(old_out) + seq![x]);
                }
                k = k + 1;
            }
            proof {
                assert(eras@.take(i + 1).drop_last() =~= eras@.take(i as int));
                assert(eras@.take(i + 1).last() == eras@[i as int]);
                assert(event_id_views(ks@).take(m as int) =~= event_id_views(ks@));
            }
            i = i + 1;
        }
        assert(eras@.take(n as int) =~= eras@);
        out
    }

    /// The causal chain from `seed` among the events `in_scope`: the seed
    /// first, then breadth-first along `related_events`, never leaving
    /// `in_scope` and reaching each event once. Where ids repeat in
    /// `in_scope`, the last event with an id stands for it. Empty when `seed`
    /// is not in `in_scope`.
    pub fn causal_chain_from(seed: &EventId, in_scope: Vec<Event>) -> (r: Vec<Event>)
        ensures
            r@ == causal_events(in_scope@, seed@),
            is_causal_chain(r@, in_scope@, seed@),
    {
        let ghost scope = in_scope@;
        proof {
            law_causal_events_is_causal_chain(scope, seed@);
        }
        let n = in_scope.len();
        proof {
            lemma_last_index(scope, seed@);
        }
        if last_position(&in_scope, seed.as_str()).is_none() {
            assert(causal_events(scope, seed@) =~= Seq::<Event>::empty());
            return Vec::new();
        }
        let mut seen: Vec<String> = Vec::new();
        seen.push(seed.0.clone());
        let mut picks: Vec<usize> = Vec::new();
        let mut head: usize = 0;
        let ghost target = bfs_from(scope, seq![seed@], 0, n as nat);
        assert(views(seen@) =~= seq![seed@]);
        while head < seen.len()
            invariant
                scope == in_scope@,
                n == scope.len(),
                head <= seen@.len(),
                seen@.len() <= n,
                picks@.len() == head,
                forall|i: int| 0 <= i < head ==> #[trigger] picks@[i] as int == last_index(scope, views(seen@)[i]),
                views(seen@).no_duplicates(),
                forall|i: int| 0 <= i < seen@.len() ==> scope_ids(scope).contains(#[trigger] views(seen@)[i]),
                bfs_from(scope, views(seen@), head as nat, (n - head) as nat) == target,
            decreases n - head,
        {
            let jo = last_position(&in_scope, seen[head].as_str());
            proof {
                lemma_last_index(scope, views(seen@)[head as int]);
            }
            let j: usize = match jo {
                Some(j) => j,
                None => {
                    proof {
                        assert(false);
                    }
                    0
                },
            };
            picks.push(j);
            let ghost before = views(seen@);
            let rels = &in_scope[j].related_events;
            let m = rels.len();
            let mut t: usize = 0;
            assert(event_id_views(rels@).skip(0) =~= event_id_views(rels@));
            while t < m
                invariant
                    scope == in_scope@,
                    n == scope.len(),
                    j < n,
                    rels == &scope[j as int].related_events,
                    m == rels@.len(),
                    t <= m,
                    head < before.len(),
                    seen@.len() >= before.len(),
                    views(seen@).take(before.len() as int) == before,
                    views(seen@).no_duplicates(),
                    forall|i: int| 0 <= i < seen@.len() ==> scope_ids(scope).contains(#[trigger] views(seen@)[i]),
                    enqueue_related(scope, event_id_views(rels@), before)
                        == enqueue_related(scope, event_id_views(rels@).skip(t as int), views(seen@)),
                decreases m - t,
            {
                let rid = rels[t].as_str();
                let in_sc = last_position(&in_scope, rid).is_some();
                proof {
                    lemma_last_index(scope, rid@);
                }
                let ghost cur = views(seen@);
                let ghost old_seen = seen@;
                proof {
                    let rs = event_id_views(rels@).skip(t as int);
                    assert(rs[0] == rid@);
                    assert(rs.drop_first() =~= event_id_views(rels@).skip(t + 1));
                }
                let known = contains_text(&seen, rid);
                proof {
                    if cur.contains(rid@) {
                        let q = choose|q: int| 0 <= q < cur.len() && cur[q] == rid@;
                        assert(old_seen[q]@ == rid@);
                    }
                    if known {
                        let q = choose|q: int| 0 <= q < old_seen.len() && #[trigger] old_seen[q]@ == rid@;
                        assert(cur[q] == rid@);
                    }
                    assert(known == cur.contains(rid@));
                }
                if in_sc && !known {
                    seen.push(rid.to_owned());
                    proof {
                        assert(views(seen@) =~= cur.push(rid@));
                        assert(views(seen@).take(before.len() as int) =~= cur.take(before.len() as int));
                        assert forall|a: int, b: int|
                            0 <= a < views(seen@).len() && 0 <= b < views(seen@).len() && a != b
                            implies views(seen@)[a] != views(seen@)[b] by {
                            if a < cur.len() && b < cur.len() {
                            } else if a == cur.len() {
                                assert(cur[b] != rid@);
                            } else {
                                assert(cur[a] != rid@);
                            }
                        }
                    }
                }
                t = t + 1;
            }
            proof {
                assert(event_id_views(rels@).skip(m as int) =~= Seq::<Seq<char>>::empty());
                assert(before[head as int] == views(seen@)[head as int]);
                assert(related_of(scope, before[head as int]) == event_id_views(rels@));
                lemma_distinct_ids_bound(views(seen@), scope);
            }
            head = head + 1;
        }
        proof {
            lemma_bfs_done(scope, views(seen@), head as nat, (n - head) as nat);
        }
        let ghost order = views(seen@);
        assert(order == causal_order(scope, seed@));

        let mut src = in_scope;
        let mut slots: Vec<Option<Event>> = Vec::new();
        assert(scope.take(n as int) =~= scope);
        while src.len() > 0
            invariant
                n == scope.len(),
                slots@.len() <= n,
                src@ == scope.take(n - slots@.len()),
                forall|p: int| 0 <= p < slots@.len() ==> #[trigger] slots@[p] == Some(scope[n - 1 - p]),
            decreases src@.len(),
        {
            let ghost k = src@.len();
            let e = src.pop().unwrap();
            proof {
                assert(scope.take(k as int).drop_last() =~= scope.take(k - 1));
            }
            slots.push(Some(e));
        }

        let m = seen.len();
        let mut out: Vec<Event> = Vec::new();
        assert forall|q: int| 0 <= q < m implies slots@[n - 1 - #[trigger] picks@[q]] is Some by {
            lemma_last_index(scope, order[q]);
        }
        let mut i: usize = 0;
        while i < m
            invariant
                n == scope.len(),
                m == order.len(),
                picks@.len() == m,
                slots@.len() == n,
                i <= m,
                out@.len() == i,
                forall|q: int| 0 <= q < i ==> #[trigger] out@[q] == scope[picks@[q] as int],
                forall|q: int| 0 <= q < m ==> #[trigger] picks@[q] as int == last_index(scope, order[q]),
                order.no_duplicates(),
                forall|q: int| 0 <= q < m ==> scope_ids(scope).contains(#[trigger] order[q]),
                forall|p: int| 0 <= p < n ==> (#[trigger] slots@[p] is Some ==> slots@[p] == Some(scope[n - 1 - p])),
                forall|q: int| i <= q < m ==> slots@[n - 1 - #[trigger] picks@[q]] is Some,
            decreases m - i,
        {
            proof {
                lemma_last_index(scope, order[i as int]);
            }
            let p = n - 1 - picks[i];
            let ghost before = slots@;
            let e = slots.remove(p);
            slots.insert(p, None);
            proof {
                assert(slots@ =~= before.update(p as int, None));
                assert forall|q: int| i < q < m implies slots@[n - 1 - #[trigger] picks@[q]] is Some by {
                    lemma_last_index(scope, order[q]);
                    assert(picks@[q] != picks@[i as int]);
                }
            }
            match e {
                Some(ev) => {
                    out.push(ev);
                },
                None => {
                    proof {
                        assert(false);
                    }
                },
            }
            i = i + 1;
        }
        assert(out@ =~= causal_events(scope, seed@));
        out
    }

    /// The referenced eras, in reference order; ids the store does not have
    /// are left out, and the first storage failure is returned.
    pub fn eras_in<R: WorldRepository>(&self, repo: &R) -> (r: Result<Vec<Era>, WorldError>)
        ensures
            reads_as(r, read_all(era_reads(repo, era_id_views(self.references@)))),
    {
        get_eras_batch(repo, self.references.as_slice())
    }

    /// The key events of the referenced eras (era order, then written
    /// order; an event shared by several eras once, at its first
    /// appearance), as the store has them; the first storage failure is
    /// returned.
    pub fn events_in<R: WorldRepository>(&self, repo: &R) -> (r: Result<Vec<Event>, WorldError>)
        ensures
            reads_as(r, timeline_events_read(repo, era_id_views(self.references@))),
    {
        let eras = self.eras_in(repo)?;
        let ids = Timeline::era_event_ids(eras.as_slice());
        get_events_batch(repo, ids.as_slice())
    }

    /// The key events of the era `era_id`, when this timeline references
    /// it; empty for an era outside the timeline or missing from the store;
    /// a storage failure is returned.
    pub fn events_during<R: WorldRepository>(&self, era_id: &EraId, repo: &R) -> (r: Result<Vec<Event>, WorldError>)
        ensures
            !era_id_views(self.references@).contains(era_id@) ==> (r matches Ok(v) && v@.len() == 0),
            era_id_views(self.references@).contains(era_id@) ==> match repo.era_answer(era_id@) {
                Err(e) => r == Err::<Vec<Event>, WorldError>(e),
                Ok(None) => r matches Ok(v) && v@.len() == 0,
                Ok(Some(era)) => reads_as(r, read_all(event_reads(repo, event_id_views(era.key_events@)))),
            },
    {
        if !self.references_era(era_id) {
            return Ok(Vec::new());
        }
        match repo.get_era(era_id)? {
            Some(era) => get_events_batch(repo, era.key_events.as_slice()),
            None => Ok(Vec::new()),
        }
    }

    /// The causal chain from `seed` within the events of this timeline
    /// (see `causal_chain_from`); a storage failure is returned.
    pub fn causal_chain<R: WorldRepository>(&self, seed: &EventId, repo: &R) -> (r: Result<Vec<Event>, WorldError>)
        ensures
            match timeline_events_read(repo, era_id_views(self.references@)) {
                Err(e) => r == Err::<Vec<Event>, WorldError>(e),
                Ok(scope) => r matches Ok(v) && v@ == causal_events(scope, seed@) && is_causal_chain(v@, scope, seed@),
            },
    {
        let in_scope = self.events_in(repo)?;
        let chain = Timeline::causal_chain_from(seed, in_scope);
        Ok(chain)
    }
}

/// What reading a timeline's events gives: the eras `era_ids` read in
/// order, then the key events of the eras present (each once, at its first
/// appearance) read in order; the first storage failure otherwise.
pub open spec fn timeline_events_read<R: WorldRepository>(repo: &R, era_ids: Seq<Seq<char>>) -> Result<Seq<Event>, WorldError> {
    match read_all(era_reads(repo, era_ids)) {
        Err(e) => Err(e),
        Ok(eras) => read_all(event_reads(repo, timeline_event_ids(eras))),
    }
}

/// Filter for listing timelines.
#[derive(Debug, Clone)]
pub struct TimelineFilter {
    pub kind: Option<String>,
    /// Keep the timelines that reference this era.
    pub references_era: Option<EraId>,
    pub genre_tag: Option<String>,
}

impl Default for TimelineFilter {
    fn default() -> (r: TimelineFilter)
        ensures
            r.kind is None,
            r.references_era is None,
            r.genre_tag is None,
    {
        TimelineFilter { kind: None, references_era: None, genre_tag: None }
    }
}

} // verus!
