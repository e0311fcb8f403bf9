//! Rumor aggregate: tracks how a rumor spreads (hops) and how its content
//! mutates (distortions).
//!
//! Invariants kept by every operation:
//! - hop indices increase strictly from one hop to the next;
//! - every distortion's parent is an earlier distortion and never itself,
//!   so the distortions form an acyclic graph listed parents-first;
//! - every hop's content version names an existing distortion;
//! - a rumor without a topic carries seed content;
//! - the status only moves forward along `Active -> Fading -> Faded`;
//! - hops and distortions are only ever appended.

use vstd::prelude::*;
use crate::text::str_eq;

verus! {

/// Where a rumor came from.
#[derive(Debug, Clone, PartialEq, Eq, Hash)]
pub enum RumorOrigin {
    /// Seeded directly by the scenario author.
    Seeded,
    /// Derived from a world event.
    FromWorldEvent { event_id: u64 },
    /// Written by an NPC, optionally naming the author.
    Authored { by: Option<String> },
}

/// How far a rumor may reach. An empty list places no limit on that axis.
/// `min_significance_bits` holds the bits of the `f32` minimum significance
/// (`f32::to_bits`); all zero bits mean 0.0, no limit.
#[derive(Debug, Clone, PartialEq)]
pub struct ReachPolicy {
    pub regions: Vec<String>,
    pub factions: Vec<String>,
    pub npc_ids: Vec<String>,
    pub min_significance_bits: u32,
}

impl ReachPolicy {
    /// The unrestricted policy: no regions, factions or NPCs, significance 0.0.
    pub fn unrestricted() -> (r: ReachPolicy)
        ensures
            r.regions@.len() == 0,
            r.factions@.len() == 0,
            r.npc_ids@.len() == 0,
            r.min_significance_bits == 0,
    {
        ReachPolicy {
            regions: Vec::new(),
            factions: Vec::new(),
            npc_ids: Vec::new(),
            min_significance_bits: 0,
        }
    }
}

impl Default for ReachPolicy {
    fn default() -> (r: ReachPolicy)
        ensures
            r.regions@.len() == 0,
            r.factions@.len() == 0,
            r.npc_ids@.len() == 0,
            r.min_significance_bits == 0,
    {
        ReachPolicy::unrestricted()
    }
}

/// One spreading step of a rumor.
#[derive(Debug, Clone, PartialEq)]
pub struct RumorHop {
    pub hop_index: u32,
    /// The distortion id passed on in this hop; `None` is the original content.
    pub content_version: Option<String>,
    pub recipients: Vec<String>,
    pub spread_at: u64,
}

/// A variant of the rumor's content, derived from `parent` (or from the
/// original when `parent` is `None`).
#[derive(Debug, Clone, PartialEq)]
pub struct RumorDistortion {
    pub id: String,
    pub parent: Option<String>,
    pub content: String,
    pub created_at: u64,
}

/// Life cycle of a rumor: `Active -> Fading -> Faded`, one way.
#[derive(Debug, Clone, Copy, PartialEq, Eq, Hash, Structural)]
pub enum RumorStatus {
    Active,
    Fading,
    Faded,
}

/// A broken rumor invariant.
#[derive(Debug, Clone, PartialEq)]
pub enum RumorError {
    HopIndexNotMonotonic { last: u32, new: u32 },
    DistortionParentNotFound { child: String, parent: String },
    DistortionSelfParent { id: String },
    DistortionCycle { id: String },
    InvalidStatusTransition { from: RumorStatus, to: RumorStatus },
    OrphanRumorMissingSeed,
    DuplicateDistortionId { id: String },
    DuplicateHopIndex { index: u32 },
    HopContentVersionUnknown { cv: String },
}

/// The rumor aggregate. `topic`, `seed_content`, `origin` and `reach_policy`
/// never change after creation; hops and distortions are only appended.
#[derive(Debug, Clone, PartialEq)]
pub struct Rumor {
    pub id: String,
    /// Key of the canonical memory entry; `None` for an orphan rumor.
    pub topic: Option<String>,
    /// Content used while no canonical entry exists.
    pub seed_content: Option<String>,
    pub origin: RumorOrigin,
    pub reach_policy: ReachPolicy,
    hops: Vec<RumorHop>,
    distortions: Vec<RumorDistortion>,
    pub created_at: u64,
    status: RumorStatus,
}

// ---------------------------------------------------------------------------
// Specification of the invariants
// ---------------------------------------------------------------------------

/// Position of a status along the one-way life cycle.
pub open spec fn status_rank(s: RumorStatus) -> int {
    match s {
        RumorStatus::Active => 0,
        RumorStatus::Fading => 1,
        RumorStatus::Faded => 2,
    }
}

/// Whether the status may move from `from` to `to`: forward, or staying put.
pub open spec fn transition_allowed(from: RumorStatus, to: RumorStatus) -> bool {
    status_rank(from) <= status_rank(to)
}

/// Some distortion in `ds[lo..hi]` has the id `id`.
pub open spec fn has_id_in(ds: Seq<RumorDistortion>, lo: int, hi: int, id: Seq<char>) -> bool {
    exists|j: int| lo <= j < hi && #[trigger] ds[j].id@ == id
}

/// Hop `i` has a larger index than the hop before it.
pub open spec fn hop_in_order(hops: Seq<RumorHop>, i: int) -> bool {
    i == 0 || hops[i - 1].hop_index < hops[i].hop_index
}

/// The first hop from `i` on that is not in order.
pub open spec fn first_unordered_hop(hops: Seq<RumorHop>, i: int) -> Option<int>
    decreases hops.len() - i,
{
    if i < 0 || i >= hops.len() {
        None
    } else if !hop_in_order(hops, i) {
        Some(i)
    } else {
        first_unordered_hop(hops, i + 1)
    }
}

/// What is wrong with distortion `i`, judged against its neighbours in the
/// list: a parent must be a different, earlier distortion.
pub open spec fn distortion_fault(ds: Seq<RumorDistortion>, i: int) -> Option<RumorError> {
    match ds[i].parent {
        None => None,
        Some(p) => if p@ == ds[i].id@ {
            Some(RumorError::DistortionSelfParent { id: ds[i].id })
        } else if has_id_in(ds, 0, i, p@) {
            None
        } else if has_id_in(ds, i + 1, ds.len() as int, p@) {
            Some(RumorError::DistortionCycle { id: ds[i].id })
        } else {
            Some(RumorError::DistortionParentNotFound { child: ds[i].id, parent: p })
        },
    }
}

/// The fault of the first faulty distortion from `i` on.
pub open spec fn first_distortion_fault(ds: Seq<RumorDistortion>, i: int) -> Option<RumorError>
    decreases ds.len() - i,
{
    if i < 0 || i >= ds.len() {
        None
    } else if distortion_fault(ds, i) is Some {
        distortion_fault(ds, i)
    } else {
        first_distortion_fault(ds, i + 1)
    }
}

/// Hop `i` names a content version that no distortion has.
pub open spec fn version_fault(hops: Seq<RumorHop>, ds: Seq<RumorDistortion>, i: int) -> Option<
    RumorError,
> {
    match hops[i].content_version {
        None => None,
        Some(cv) => if has_id_in(ds, 0, ds.len() as int, cv@) {
            None
        } else {
            Some(RumorError::HopContentVersionUnknown { cv })
        },
    }
}

/// The fault of the first hop from `i` on with an unknown content version.
pub open spec fn first_version_fault(hops: Seq<RumorHop>, ds: Seq<RumorDistortion>, i: int) -> Option<
    RumorError,
>
    decreases hops.len() - i,
{
    if i < 0 || i >= hops.len() {
        None
    } else if version_fault(hops, ds, i) is Some {
        version_fault(hops, ds, i)
    } else {
        first_version_fault(hops, ds, i + 1)
    }
}

/// The outcome of validating rumor parts: the first broken invariant, in the
/// order hops, distortions, content versions, orphan seed.
pub open spec fn parts_validation(
    topic: Option<String>,
    seed_content: Option<String>,
    hops: Seq<RumorHop>,
    ds: Seq<RumorDistortion>,
) -> Result<(), RumorError> {
    match first_unordered_hop(hops, 0) {
        Some(i) => Err(
            RumorError::HopIndexNotMonotonic { last: hops[i - 1].hop_index, new: hops[i].hop_index },
        ),
        None => match first_distortion_fault(ds, 0) {
            Some(e) => Err(e),
            None => match first_version_fault(hops, ds, 0) {
                Some(e) => Err(e),
                None => if topic is None && seed_content is None {
                    Err(RumorError::OrphanRumorMissingSeed)
                } else {
                    Ok(())
                },
            },
        },
    }
}

/// Rumor parts that satisfy every invariant.
pub open spec fn parts_valid(
    topic: Option<String>,
    seed_content: Option<String>,
    hops: Seq<RumorHop>,
    ds: Seq<RumorDistortion>,
) -> bool {
    parts_validation(topic, seed_content, hops, ds) is Ok
}

/// The error that `add_hop` reports for `hop`, if any: an unknown content
/// version, an index not above the last one, or an index already used.
pub open spec fn hop_rejection(hops: Seq<RumorHop>, ds: Seq<RumorDistortion>, hop: RumorHop) -> Option<
    RumorError,
> {
    if hop.content_version is Some && !has_id_in(
        ds,
        0,
        ds.len() as int,
        hop.content_version->0@,
    ) {
        Some(RumorError::HopContentVersionUnknown { cv: hop.content_version->0 })
    } else if hops.len() > 0 && hop.hop_index <= hops.last().hop_index {
        Some(RumorError::HopIndexNotMonotonic { last: hops.last().hop_index, new: hop.hop_index })
    } else if exists|j: int| 0 <= j < hops.len() && #[trigger] hops[j].hop_index == hop.hop_index {
        Some(RumorError::DuplicateHopIndex { index: hop.hop_index })
    } else {
        None
    }
}

/// The error that `add_distortion` reports for `d`, if any: a duplicate id,
/// a parent equal to itself, or a parent that does not exist.
pub open spec fn distortion_rejection(ds: Seq<RumorDistortion>, d: RumorDistortion) -> Option<
    RumorError,
> {
    if has_id_in(ds, 0, ds.len() as int, d.id@) {
        Some(RumorError::DuplicateDistortionId { id: d.id })
    } else if d.parent is Some && d.parent->0@ == d.id@ {
        Some(RumorError::DistortionSelfParent { id: d.id })
    } else if d.parent is Some && !has_id_in(ds, 0, ds.len() as int, d.parent->0@) {
        Some(RumorError::DistortionParentNotFound { child: d.id, parent: d.parent->0 })
    } else {
        None
    }
}

/// The abstract state of a rumor: every field, with the hop and distortion
/// lists as sequences.
pub struct RumorView {
    pub id: String,
    pub topic: Option<String>,
    pub seed_content: Option<String>,
    pub origin: RumorOrigin,
    pub reach_policy: ReachPolicy,
    pub hops: Seq<RumorHop>,
    pub distortions: Seq<RumorDistortion>,
    pub created_at: u64,
    pub status: RumorStatus,
}

impl View for Rumor {
    type V = RumorView;

    closed spec fn view(&self) -> RumorView {
        RumorView {
            id: self.id,
            topic: self.topic,
            seed_content: self.seed_content,
            origin: self.origin,
            reach_policy: self.reach_policy,
            hops: self.hops@,
            distortions: self.distortions@,
            created_at: self.created_at,
            status: self.status,
        }
    }
}

impl RumorView {
    /// The result that `validate` returns.
    pub open spec fn validation(self) -> Result<(), RumorError> {
        parts_validation(self.topic, self.seed_content, self.hops, self.distortions)
    }

    /// The rumor satisfies every invariant.
    pub open spec fn valid(self) -> bool {
        self.validation() is Ok
    }

    /// `other` equals `self` in every field but the hops, distortions and status.
    pub open spec fn same_identity(self, other: RumorView) -> bool {
        &&& other.id == self.id
        &&& other.topic == self.topic
        &&& other.seed_content == self.seed_content
        &&& other.origin == self.origin
        &&& other.reach_policy == self.reach_policy
        &&& other.created_at == self.created_at
    }
}

/// `b` is `a` with the accepted hop `hop` appended.
pub open spec fn hop_appended(a: RumorView, b: RumorView, hop: RumorHop) -> bool {
    &&& hop_rejection(a.hops, a.distortions, hop) is None
    &&& b.hops == a.hops.push(hop)
    &&& b.distortions == a.distortions
    &&& b.status == a.status
}

/// `b` is `a` with the accepted distortion `d` appended.
pub open spec fn distortion_appended(a: RumorView, b: RumorView, d: RumorDistortion) -> bool {
    &&& distortion_rejection(a.distortions, d) is None
    &&& b.distortions == a.distortions.push(d)
    &&& b.hops == a.hops
    &&& b.status == a.status
}

/// What one call of `add_hop`, `add_distortion`, `transition_to`, `fade` or
/// `fade_out` can do to a rumor, accepted or refused: keep its identity and
/// either keep its hops and distortions (a status move, or a refusal) or
/// append one accepted hop or distortion.
pub open spec fn rumor_step(a: RumorView, b: RumorView) -> bool {
    &&& a.same_identity(b)
    &&& {
        ||| (b.hops == a.hops && b.distortions == a.distortions)
        ||| exists|hop: RumorHop| #[trigger] hop_appended(a, b, hop)
        ||| exists|d: RumorDistortion| #[trigger] distortion_appended(a, b, d)
    }
}

/// One step of a rumor's life keeps it valid.
pub proof fn law_rumor_step_keeps_valid(a: RumorView, b: RumorView)
    requires
        a.valid(),
        rumor_step(a, b),
    ensures
        b.valid(),
{
    if b.hops == a.hops && b.distortions == a.distortions {
    } else if exists|hop: RumorHop| #[trigger] hop_appended(a, b, hop) {
        let hop = choose|hop: RumorHop| #[trigger] hop_appended(a, b, hop);
        lemma_push_hop_valid(a.topic, a.seed_content, a.hops, a.distortions, hop);
    } else {
        let d = choose|d: RumorDistortion| #[trigger] distortion_appended(a, b, d);
        lemma_push_distortion_valid(a.topic, a.seed_content, a.hops, a.distortions, d);
    }
}

/// A rumor that starts valid (as every constructor makes it) stays valid
/// through any sequence of calls of `add_hop`, `add_distortion`,
/// `transition_to`, `fade` and `fade_out`, whether each was accepted or
/// refused: `validate` returns `Ok` at every state of `trace`.
pub proof fn law_rumor_stays_valid(trace: Seq<RumorView>)
    requires
        trace.len() > 0,
        trace[0].valid(),
        forall|i: int| 0 <= i < trace.len() - 1 ==> rumor_step(#[trigger] trace[i], trace[i + 1]),
    ensures
        forall|i: int| 0 <= i < trace.len() ==> (#[trigger] trace[i]).validation() == Ok::<(), RumorError>(()),
    decreases trace.len(),
{
    if trace.len() > 1 {
        let prefix = trace.drop_last();
        assert forall|i: int| 0 <= i < prefix.len() - 1 implies rumor_step(#[trigger] prefix[i], prefix[i + 1]) by {
            assert(prefix[i] == trace[i] && prefix[i + 1] == trace[i + 1]);
        }
        law_rumor_stays_valid(prefix);
        let k = trace.len() - 2;
        assert(prefix[k] == trace[k]);
        assert(rumor_step(trace[k], trace[k + 1]));
        law_rumor_step_keeps_valid(trace[k], trace[k + 1]);
        assert forall|i: int| 0 <= i < trace.len() implies (#[trigger] trace[i]).validation() == Ok::<(), RumorError>(()) by {
            if i < trace.len() - 1 {
                assert(prefix[i] == trace[i]);
            }
        }
    }
}

impl Rumor {
    /// A rumor about `topic`, whose canonical memory entry is assumed to exist.
    pub fn new(
        id: &str,
        topic: &str,
        origin: RumorOrigin,
        reach_policy: ReachPolicy,
        created_at: u64,
    ) -> (r: Rumor)
        ensures
            r@.id@ == id@,
            r@.topic matches Some(t) && t@ == topic@,
            r@.seed_content is None,
            r@.origin == origin,
            r@.reach_policy == reach_policy,
            r@.created_at == created_at,
            r@.hops.len() == 0,
            r@.distortions.len() == 0,
            r@.status == RumorStatus::Active,
            r@.valid(),
    {
        Rumor {
            id: id.to_owned(),
            topic: Some(topic.to_owned()),
            seed_content: None,
            origin,
            reach_policy,
            hops: Vec::new(),
            distortions: Vec::new(),
            created_at,
            status: RumorStatus::Active,
        }
    }

    /// A forecast fact: a topic whose canonical entry does not exist yet, so
    /// the seed content stands in for it.
    pub fn with_forecast_content(
        id: &str,
        topic: &str,
        seed_content: &str,
        origin: RumorOrigin,
        reach_policy: ReachPolicy,
        created_at: u64,
    ) -> (r: Rumor)
        ensures
            r@.id@ == id@,
            r@.topic matches Some(t) && t@ == topic@,
            r@.seed_content matches Some(c) && c@ == seed_content@,
            r@.origin == origin,
            r@.reach_policy == reach_policy,
            r@.created_at == created_at,
            r@.hops.len() == 0,
            r@.distortions.len() == 0,
            r@.status == RumorStatus::Active,
            r@.valid(),
    {
        Rumor {
            id: id.to_owned(),
            topic: Some(topic.to_owned()),
            seed_content: Some(seed_content.to_owned()),
            origin,
            reach_policy,
            hops: Vec::new(),
            distortions: Vec::new(),
            created_at,
            status: RumorStatus::Active,
        }
    }

    /// An orphan rumor: no topic, seed content only.
    pub fn orphan(
        id: &str,
        seed_content: &str,
        origin: RumorOrigin,
        reach_policy: ReachPolicy,
        created_at: u64,
    ) -> (r: Rumor)
        ensures
            r@.id@ == id@,
            r@.topic is None,
            r@.seed_content matches Some(c) && c@ == seed_content@,
            r@.origin == origin,
            r@.reach_policy == reach_policy,
            r@.created_at == created_at,
            r@.hops.len() == 0,
            r@.distortions.len() == 0,
            r@.status == RumorStatus::Active,
            r@.valid(),
    {
        Rumor {
            id: id.to_owned(),
            topic: None,
            seed_content: Some(seed_content.to_owned()),
            origin,
            reach_policy,
            hops: Vec::new(),
            distortions: Vec::new(),
            created_at,
            status: RumorStatus::Active,
        }
    }

    pub fn hops(&self) -> (r: &[RumorHop])
        ensures
            r@ == self@.hops,
    {
        self.hops.as_slice()
    }

    pub fn distortions(&self) -> (r: &[RumorDistortion])
        ensures
            r@ == self@.distortions,
    {
        self.distortions.as_slice()
    }

    pub fn status(&self) -> (r: RumorStatus)
        ensures
            r == self@.status,
    {
        self.status
    }

    /// Whether the rumor has no topic.
    pub fn is_orphan(&self) -> (r: bool)
        ensures
            r == (self@.topic is None),
    {
        self.topic.is_none()
    }

    /// The index the next hop should take: one past the last hop's index, or
    /// 0 when there is no hop. The last index must be below `u32::MAX`, as
    /// the addition overflows there.
    pub fn next_hop_index(&self) -> (r: u32)
        requires
            self@.hops.len() > 0 ==> self@.hops.last().hop_index < u32::MAX,
        ensures
            self@.hops.len() == 0 ==> r == 0,
            self@.hops.len() > 0 ==> r == self@.hops.last().hop_index + 1,
    {
        let n = self.hops.len();
        if n == 0 {
            0
        } else {
            self.hops[n - 1].hop_index + 1
        }
    }

    /// Appends a hop, refusing an unknown content version, an index that does
    /// not exceed the last one, and a repeated index.
    pub fn add_hop(&mut self, hop: RumorHop) -> (r: Result<(), RumorError>)
        ensures
            old(self)@.same_identity(final(self)@),
            final(self)@.distortions == old(self)@.distortions,
            final(self)@.status == old(self)@.status,
            match hop_rejection(old(self)@.hops, old(self)@.distortions, hop) {
                Some(e) => r == Err::<(), RumorError>(e) && final(self)@.hops == old(self)@.hops,
                None => r is Ok && final(self)@.hops == old(self)@.hops.push(hop),
            },
            old(self)@.valid() ==> final(self)@.valid(),
            rumor_step(old(self)@, final(self)@),
    {
        let ghost ds = self.distortions@;
        let ghost hs = self.hops@;
        if let Some(cv) = &hop.content_version {
            if !has_distortion_id(&self.distortions, 0, self.distortions.len(), cv) {
                return Err(RumorError::HopContentVersionUnknown { cv: cv.clone() });
            }
        }
        let n = self.hops.len();
        if n > 0 {
            let last = self.hops[n - 1].hop_index;
            if hop.hop_index <= last {
                return Err(RumorError::HopIndexNotMonotonic { last, new: hop.hop_index });
            }
        }
        let mut k: usize = 0;
        while k < n
            invariant
                n == self.hops@.len(),
                self.hops@ == hs,
                self.distortions@ == ds,
                !(hop.content_version is Some && !has_id_in(
                    ds,
                    0,
                    ds.len() as int,
                    hop.content_version->0@,
                )),
                !(hs.len() > 0 && hop.hop_index <= hs.last().hop_index),
                forall|j: int| 0 <= j < k ==> #[trigger] hs[j].hop_index != hop.hop_index,
            decreases n - k,
        {
            if self.hops[k].hop_index == hop.hop_index {
                assert(hs[k as int].hop_index == hop.hop_index);
                return Err(RumorError::DuplicateHopIndex { index: hop.hop_index });
            }
            k = k + 1;
        }
        let ghost before = self@;
        let ghost h = hop;
        self.hops.push(hop);
        proof {
            if parts_valid(self.topic, self.seed_content, hs, ds) {
                lemma_push_hop_valid(self.topic, self.seed_content, hs, ds, hop);
            }
            assert(hop_appended(before, self@, h));
        }
        Ok(())
    }

    /// Appends a distortion, refusing a duplicate id, a self parent and a
    /// parent that does not exist. A fresh leaf cannot close a cycle.
    pub fn add_distortion(&mut self, distortion: RumorDistortion) -> (r: Result<(), RumorError>)
        ensures
            old(self)@.same_identity(final(self)@),
            final(self)@.hops == old(self)@.hops,
            final(self)@.status == old(self)@.status,
            match distortion_rejection(old(self)@.distortions, distortion) {
                Some(e) => r == Err::<(), RumorError>(e) && final(self)@.distortions == old(self)@.distortions,
                None => r is Ok && final(self)@.distortions == old(self)@.distortions.push(distortion),
            },
            old(self)@.valid() ==> final(self)@.valid(),
            rumor_step(old(self)@, final(self)@),
    {
        let ghost ds = self.distortions@;
        let ghost hs = self.hops@;
        let n = self.distortions.len();
        if has_distortion_id(&self.distortions, 0, n, &distortion.id) {
            return Err(RumorError::DuplicateDistortionId { id: distortion.id.clone() });
        }
        if let Some(parent) = &distortion.parent {
            if str_eq(parent.as_str(), distortion.id.as_str()) {
                return Err(RumorError::DistortionSelfParent { id: distortion.id.clone() });
            }
            if !has_distortion_id(&self.distortions, 0, n, parent) {
                return Err(
                    RumorError::DistortionParentNotFound {
                        child: distortion.id.clone(),
                        parent: parent.clone(),
                    },
                );
            }
        }
        let ghost before = self@;
        let ghost d = distortion;
        self.distortions.push(distortion);
        proof {
            if parts_valid(self.topic, self.seed_content, hs, ds) {
                lemma_push_distortion_valid(self.topic, self.seed_content, hs, ds, distortion);
            }
            assert(distortion_appended(before, self@, d));
        }
        Ok(())
    }

    /// Moves the status forward, or keeps it where it is; a backward move is
    /// refused and leaves the rumor unchanged.
    pub fn transition_to(&mut self, next: RumorStatus) -> (r: Result<(), RumorError>)
        ensures
            old(self)@.same_identity(final(self)@),
            final(self)@.hops == old(self)@.hops,
            final(self)@.distortions == old(self)@.distortions,
            transition_allowed(old(self)@.status, next) ==> r is Ok
                && final(self)@.status == next,
            !transition_allowed(old(self)@.status, next) ==> r == Err::<(), RumorError>(
                RumorError::InvalidStatusTransition { from: old(self)@.status, to: next },
            ) && final(self)@.status == old(self)@.status,
            old(self)@.valid() ==> final(self)@.valid(),
            rumor_step(old(self)@, final(self)@),
    {
        let ok = match (self.status, next) {
            (RumorStatus::Active, RumorStatus::Fading) => true,
            (RumorStatus::Active, RumorStatus::Faded) => true,
            (RumorStatus::Fading, RumorStatus::Faded) => true,
            _ => false,
        };
        if !ok && self.status != next {
            return Err(RumorError::InvalidStatusTransition { from: self.status, to: next });
        }
        self.status = next;
        Ok(())
    }

    /// `Active -> Fading`.
    pub fn fade(&mut self) -> (r: Result<(), RumorError>)
        ensures
            old(self)@.same_identity(final(self)@),
            final(self)@.hops == old(self)@.hops,
            final(self)@.distortions == old(self)@.distortions,
            transition_allowed(old(self)@.status, RumorStatus::Fading) ==> r is Ok
                && final(self)@.status == RumorStatus::Fading,
            !transition_allowed(old(self)@.status, RumorStatus::Fading) ==> r == Err::<
                (),
                RumorError,
            >(
                RumorError::InvalidStatusTransition {
                    from: old(self)@.status,
                    to: RumorStatus::Fading,
                },
            ) && final(self)@.status == old(self)@.status,
            old(self)@.valid() ==> final(self)@.valid(),
            rumor_step(old(self)@, final(self)@),
    {
        self.transition_to(RumorStatus::Fading)
    }

    /// Ends the rumor: any status moves to `Faded`.
    pub fn fade_out(&mut self) -> (r: Result<(), RumorError>)
        ensures
            old(self)@.same_identity(final(self)@),
            final(self)@.hops == old(self)@.hops,
            final(self)@.distortions == old(self)@.distortions,
            r is Ok,
            final(self)@.status == RumorStatus::Faded,
            old(self)@.valid() ==> final(self)@.valid(),
            rumor_step(old(self)@, final(self)@),
    {
        self.transition_to(RumorStatus::Faded)
    }

    /// Checks every invariant and reports the first one broken.
    pub fn validate(&self) -> (r: Result<(), RumorError>)
        ensures
            r == self@.validation(),
    {
        validate_parts(&self.topic, &self.seed_content, &self.hops, &self.distortions)
    }

    /// Rebuilds a rumor from stored parts, checking every invariant first.
    /// `hops` must be in index order and `distortions` parents-first. The
    /// status is taken as stored, whatever the transition rules would allow.
    pub fn from_parts(
        id: String,
        topic: Option<String>,
        seed_content: Option<String>,
        origin: RumorOrigin,
        reach_policy: ReachPolicy,
        hops: Vec<RumorHop>,
        distortions: Vec<RumorDistortion>,
        created_at: u64,
        status: RumorStatus,
    ) -> (r: Result<Rumor, RumorError>)
        ensures
            match parts_validation(topic, seed_content, hops@, distortions@) {
                Err(e) => r == Err::<Rumor, RumorError>(e),
                Ok(_) => r is Ok && {
                    let rm = r->Ok_0@;
                    &&& rm.id == id
                    &&& rm.topic == topic
                    &&& rm.seed_content == seed_content
                    &&& rm.origin == origin
                    &&& rm.reach_policy == reach_policy
                    &&& rm.hops == hops@
                    &&& rm.distortions == distortions@
                    &&& rm.created_at == created_at
                    &&& rm.status == status
                    &&& rm.valid()
                },
            },
    {
        let checked = validate_parts(&topic, &seed_content, &hops, &distortions);
        match checked {
            Err(e) => Err(e),
            Ok(()) => Ok(
                Rumor {
                    id,
                    topic,
                    seed_content,
                    origin,
                    reach_policy,
                    hops,
                    distortions,
                    created_at,
                    status,
                },
            ),
        }
    }
}

/// Whether some distortion in `ds[lo..hi]` has the id `id`.
fn has_distortion_id(ds: &Vec<RumorDistortion>, lo: usize, hi: usize, id: &String) -> (r: bool)
    requires
        lo <= hi <= ds@.len(),
    ensures
        r == has_id_in(ds@, lo as int, hi as int, id@),
{
    let mut j = lo;
    while j < hi
        invariant
            lo <= j <= hi <= ds@.len(),
            forall|q: int| lo <= q < j ==> #[trigger] ds@[q].id@ != id@,
        decreases hi - j,
    {
        if str_eq(ds[j].id.as_str(), id.as_str()) {
            return true;
        }
        j = j + 1;
    }
    false
}

/// Checks the parts of a rumor against every invariant, reporting the first broken.
fn validate_parts(
    topic: &Option<String>,
    seed_content: &Option<String>,
    hops: &Vec<RumorHop>,
    ds: &Vec<RumorDistortion>,
) -> (r: Result<(), RumorError>)
    ensures
        r == parts_validation(*topic, *seed_content, hops@, ds@),
{
    let nh = hops.len();
    let mut i: usize = 1;
    if nh > 0 {
        while i < nh
            invariant
                nh == hops@.len(),
                1 <= i <= nh,
                first_unordered_hop(hops@, 0) == first_unordered_hop(hops@, i as int),
            decreases nh - i,
        {
            if hops[i].hop_index <= hops[i - 1].hop_index {
                return Err(
                    RumorError::HopIndexNotMonotonic {
                        last: hops[i - 1].hop_index,
                        new: hops[i].hop_index,
                    },
                );
            }
            i = i + 1;
        }
    }
    assert(first_unordered_hop(hops@, 0) is None);
    let nd = ds.len();
    let mut k: usize = 0;
    while k < nd
        invariant
            nd == ds@.len(),
            k <= nd,
            first_unordered_hop(hops@, 0) is None,
            first_distortion_fault(ds@, 0) == first_distortion_fault(ds@, k as int),
        decreases nd - k,
    {
        let d = &ds[k];
        if let Some(parent) = &d.parent {
            assert(ds@[k as int].parent == Some(*parent));
            if str_eq(parent.as_str(), d.id.as_str()) {
                let e = RumorError::DistortionSelfParent { id: d.id.clone() };
                assert(distortion_fault(ds@, k as int) == Some(e));
                return Err(e);
            }
            if !has_distortion_id(ds, 0, k, parent) {
                if has_distortion_id(ds, k + 1, nd, parent) {
                    let e = RumorError::DistortionCycle { id: d.id.clone() };
                    assert(distortion_fault(ds@, k as int) == Some(e));
                    return Err(e);
                }
                let e = RumorError::DistortionParentNotFound {
                    child: d.id.clone(),
                    parent: parent.clone(),
                };
                assert(distortion_fault(ds@, k as int) == Some(e));
                return Err(e);
            }
        }
        k = k + 1;
    }
    let mut h: usize = 0;
    while h < nh
        invariant
            nh == hops@.len(),
            nd == ds@.len(),
            h <= nh,
            first_unordered_hop(hops@, 0) is None,
            first_distortion_fault(ds@, 0) is None,
            first_version_fault(hops@, ds@, 0) == first_version_fault(hops@, ds@, h as int),
        decreases nh - h,
    {
        if let Some(cv) = &hops[h].content_version {
            assert(hops@[h as int].content_version == Some(*cv));
            if !has_distortion_id(ds, 0, nd, cv) {
                let e = RumorError::HopContentVersionUnknown { cv: cv.clone() };
                assert(version_fault(hops@, ds@, h as int) == Some(e));
                return Err(e);
            }
        }
        h = h + 1;
    }
    if topic.is_none() && seed_content.is_none() {
        return Err(RumorError::OrphanRumorMissingSeed);
    }
    Ok(())
}

// ---------------------------------------------------------------------------
// Proofs: appending keeps the invariants
// ---------------------------------------------------------------------------

proof fn lemma_no_unordered_hop(hops: Seq<RumorHop>, i: int)
    requires
        0 <= i,
        forall|k: int| i <= k < hops.len() ==> hop_in_order(hops, k),
    ensures
        first_unordered_hop(hops, i) is None,
    decreases hops.len() - i,
{
    if i < hops.len() {
        lemma_no_unordered_hop(hops, i + 1);
    }
}

proof fn lemma_unordered_none_means_ordered(hops: Seq<RumorHop>, i: int, k: int)
    requires
        0 <= i <= k < hops.len(),
        first_unordered_hop(hops, i) is None,
    ensures
        hop_in_order(hops, k),
    decreases k - i,
{
    if i < k {
        lemma_unordered_none_means_ordered(hops, i + 1, k);
    }
}

proof fn lemma_no_distortion_fault(ds: Seq<RumorDistortion>, i: int)
    requires
        0 <= i,
        forall|k: int| i <= k < ds.len() ==> distortion_fault(ds, k) is None,
    ensures
        first_distortion_fault(ds, i) is None,
    decreases ds.len() - i,
{
    if i < ds.len() {
        lemma_no_distortion_fault(ds, i + 1);
    }
}

proof fn lemma_fault_none_means_sound(ds: Seq<RumorDistortion>, i: int, k: int)
    requires
        0 <= i <= k < ds.len(),
        first_distortion_fault(ds, i) is None,
    ensures
        distortion_fault(ds, k) is None,
    decreases k - i,
{
    if i < k {
        lemma_fault_none_means_sound(ds, i + 1, k);
    }
}

proof fn lemma_no_version_fault(hops: Seq<RumorHop>, ds: Seq<RumorDistortion>, i: int)
    requires
        0 <= i,
        forall|k: int| i <= k < hops.len() ==> version_fault(hops, ds, k) is None,
    ensures
        first_version_fault(hops, ds, i) is None,
    decreases hops.len() - i,
{
    if i < hops.len() {
        lemma_no_version_fault(hops, ds, i + 1);
    }
}

proof fn lemma_version_none_means_sound(hops: Seq<RumorHop>, ds: Seq<RumorDistortion>, i: int, k: int)
    requires
        0 <= i <= k < hops.len(),
        first_version_fault(hops, ds, i) is None,
    ensures
        version_fault(hops, ds, k) is None,
    decreases k - i,
{
    if i < k {
        lemma_version_none_means_sound(hops, ds, i + 1, k);
    }
}

/// Appending an accepted hop to valid parts keeps them valid.
proof fn lemma_push_hop_valid(
    topic: Option<String>,
    seed_content: Option<String>,
    hops: Seq<RumorHop>,
    ds: Seq<RumorDistortion>,
    hop: RumorHop,
)
    requires
        parts_valid(topic, seed_content, hops, ds),
        hop_rejection(hops, ds, hop) is None,
    ensures
        parts_valid(topic, seed_content, hops.push(hop), ds),
{
    let nh = hops.push(hop);
    assert forall|k: int| 0 <= k < nh.len() implies hop_in_order(nh, k) by {
        if k < hops.len() {
            lemma_unordered_none_means_ordered(hops, 0, k);
            assert(nh[k] == hops[k]);
            if k > 0 {
                assert(nh[k - 1] == hops[k - 1]);
            }
        }
    }
    lemma_no_unordered_hop(nh, 0);
    assert forall|k: int| 0 <= k < nh.len() implies version_fault(nh, ds, k) is None by {
        if k < hops.len() {
            lemma_version_none_means_sound(hops, ds, 0, k);
            assert(nh[k] == hops[k]);
        }
    }
    lemma_no_version_fault(nh, ds, 0);
}

/// Appending an accepted distortion to valid parts keeps them valid: the
/// new node's parent lies before it, and earlier nodes keep their parents.
proof fn lemma_push_distortion_valid(
    topic: Option<String>,
    seed_content: Option<String>,
    hops: Seq<RumorHop>,
    ds: Seq<RumorDistortion>,
    d: RumorDistortion,
)
    requires
        parts_valid(topic, seed_content, hops, ds),
        distortion_rejection(ds, d) is None,
    ensures
        parts_valid(topic, seed_content, hops, ds.push(d)),
{
    let nd = ds.push(d);
    assert forall|k: int| 0 <= k < nd.len() implies distortion_fault(nd, k) is None by {
        if k < ds.len() {
            lemma_fault_none_means_sound(ds, 0, k);
            assert(nd[k] == ds[k]);
            if ds[k].parent is Some {
                let p = ds[k].parent->0;
                let j = choose|j: int| 0 <= j < k && #[trigger] ds[j].id@ == p@;
                assert(nd[j] == ds[j]);
            }
        } else {
            assert(nd[k] == d);
            if d.parent is Some {
                let p = d.parent->0;
                let j = choose|j: int| 0 <= j < ds.len() && #[trigger] ds[j].id@ == p@;
                assert(nd[j] == ds[j]);
            }
        }
    }
    lemma_no_distortion_fault(nd, 0);
    assert forall|k: int| 0 <= k < hops.len() implies version_fault(hops, nd, k) is None by {
        lemma_version_none_means_sound(hops, ds, 0, k);
        if hops[k].content_version is Some {
            let cv = hops[k].content_version->0;
            let j = choose|j: int| 0 <= j < ds.len() && #[trigger] ds[j].id@ == cv@;
            assert(nd[j] == ds[j]);
        }
    }
    lemma_no_version_fault(hops, nd, 0);
}

} // verus!
