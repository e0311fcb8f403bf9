//! Memory value objects: who a memory belongs to (scope), how it was
//! learned (source), whether it is canon (provenance), and its kind and
//! layer; and the memory entry itself.
//!
//! The numbers that the ranking of memories reads (confidence, the PAD
//! context of an entry) are 32-bit floats, held here as their bit patterns.

pub mod service;
pub mod ranker;

use vstd::prelude::*;
use crate::float_bits::{f32_lt, lemma_nonnegative_finite};
use crate::text::{str_eq, str_lt, text_le};
use crate::tuning::{SOURCE_W_EXPERIENCED, SOURCE_W_HEARD, SOURCE_W_RUMOR, SOURCE_W_WITNESSED};

verus! {

/// Who a memory belongs to.
#[derive(Debug, Clone, PartialEq, Eq, Hash)]
pub enum MemoryScope {
    /// One NPC's own memory.
    Personal { npc_id: String },
    /// Shared by two NPCs; `a` comes before `b` in byte order.
    Relationship { a: String, b: String },
    Faction { faction_id: String },
    Family { family_id: String },
    /// World knowledge, shared by everyone.
    World { world_id: String },
}

/// The lower-case name of a scope's kind.
pub open spec fn scope_kind_name(s: MemoryScope) -> Seq<char> {
    match s {
        MemoryScope::Personal { .. } => "personal"@,
        MemoryScope::Relationship { .. } => "relationship"@,
        MemoryScope::Faction { .. } => "faction"@,
        MemoryScope::Family { .. } => "family"@,
        MemoryScope::World { .. } => "world"@,
    }
}

/// The first (or only) owner of a scope.
pub open spec fn scope_owner_a(s: MemoryScope) -> Seq<char> {
    match s {
        MemoryScope::Personal { npc_id } => npc_id@,
        MemoryScope::Relationship { a, .. } => a@,
        MemoryScope::Faction { faction_id } => faction_id@,
        MemoryScope::Family { family_id } => family_id@,
        MemoryScope::World { world_id } => world_id@,
    }
}

/// The partition key of a scope: `kind:owner`, or `relationship:a:b`.
pub open spec fn scope_partition_key(s: MemoryScope) -> Seq<char> {
    match s {
        MemoryScope::Personal { npc_id } => "personal:"@ + npc_id@,
        MemoryScope::Relationship { a, b } => "relationship:"@ + a@ + ":"@ + b@,
        MemoryScope::Faction { faction_id } => "faction:"@ + faction_id@,
        MemoryScope::Family { family_id } => "family:"@ + family_id@,
        MemoryScope::World { world_id } => "world:"@ + world_id@,
    }
}

/// The pair `(x, y)` in byte order: the owners of the relationship scope of
/// `x` and `y`.
pub open spec fn ordered_pair(x: Seq<char>, y: Seq<char>) -> (Seq<char>, Seq<char>) {
    if text_le(x, y) {
        (x, y)
    } else {
        (y, x)
    }
}

/// The relationship scope of two NPCs is the same whichever is named first.
pub proof fn law_relationship_scope_symmetric(x: Seq<char>, y: Seq<char>)
    ensures
        ordered_pair(x, y) == ordered_pair(y, x),
        text_le(ordered_pair(x, y).0, ordered_pair(x, y).1),
{
    crate::text::lemma_text_order(x, y, x);
    crate::text::lemma_text_order(y, x, y);
}

impl MemoryScope {
    /// The scope shared by `x` and `y`, with its owners in byte order, so
    /// that the order of the arguments does not matter.
    pub fn relationship(x: &str, y: &str) -> (r: MemoryScope)
        ensures
            r matches MemoryScope::Relationship { a, b } && (a@, b@) == ordered_pair(x@, y@),
    {
        if str_lt(y, x) {
            proof {
                crate::text::lemma_text_order(x@, y@, x@);
            }
            MemoryScope::Relationship { a: y.to_owned(), b: x.to_owned() }
        } else {
            proof {
                crate::text::lemma_text_order(x@, y@, x@);
            }
            MemoryScope::Relationship { a: x.to_owned(), b: y.to_owned() }
        }
    }

    /// The lower-case name of the scope's kind.
    pub fn kind(&self) -> (r: &'static str)
        ensures
            r@ == scope_kind_name(*self),
    {
        match self {
            MemoryScope::Personal { .. } => "personal",
            MemoryScope::Relationship { .. } => "relationship",
            MemoryScope::Faction { .. } => "faction",
            MemoryScope::Family { .. } => "family",
            MemoryScope::World { .. } => "world",
        }
    }

    /// The first (or only) owner.
    pub fn owner_a(&self) -> (r: &str)
        ensures
            r@ == scope_owner_a(*self),
    {
        match self {
            MemoryScope::Personal { npc_id } => npc_id.as_str(),
            MemoryScope::Relationship { a, .. } => a.as_str(),
            MemoryScope::Faction { faction_id } => faction_id.as_str(),
            MemoryScope::Family { family_id } => family_id.as_str(),
            MemoryScope::World { world_id } => world_id.as_str(),
        }
    }

    /// The second owner, which only a relationship scope has.
    pub fn owner_b(&self) -> (r: Option<&str>)
        ensures
            match *self {
                MemoryScope::Relationship { b, .. } => r matches Some(s) && s@ == b@,
                _ => r is None,
            },
    {
        match self {
            MemoryScope::Relationship { b, .. } => Some(b.as_str()),
            _ => None,
        }
    }

    /// The key under which the scope's memories are stored.
    pub fn partition_key(&self) -> (r: String)
        ensures
            r@ == scope_partition_key(*self),
    {
        match self {
            MemoryScope::Personal { npc_id } => {
                let mut s = String::from_str("personal:");
                s.append(npc_id.as_str());
                s
            },
            MemoryScope::Relationship { a, b } => {
                let mut s = String::from_str("relationship:");
                s.append(a.as_str());
                s.append(":");
                s.append(b.as_str());
                s
            },
            MemoryScope::Faction { faction_id } => {
                let mut s = String::from_str("faction:");
                s.append(faction_id.as_str());
                s
            },
            MemoryScope::Family { family_id } => {
                let mut s = String::from_str("family:");
                s.append(family_id.as_str());
                s
            },
            MemoryScope::World { world_id } => {
                let mut s = String::from_str("world:");
                s.append(world_id.as_str());
                s
            },
        }
    }
}

/// How a memory was learned, from first hand to hearsay.
#[derive(Debug, Clone, Copy, PartialEq, Eq, Hash, Structural)]
pub enum MemorySource {
    Experienced,
    Witnessed,
    Heard,
    Rumor,
}

/// The priority of a source: 0 for first hand, growing toward hearsay.
pub open spec fn source_priority(s: MemorySource) -> u8 {
    match s {
        MemorySource::Experienced => 0,
        MemorySource::Witnessed => 1,
        MemorySource::Heard => 2,
        MemorySource::Rumor => 3,
    }
}

/// The source of something told along an origin chain of `chain_len`
/// links: a first-hand hint wins; one link is heard, any other length
/// (none known, or several) is rumor.
pub open spec fn source_from_chain(chain_len: nat, hint: Option<MemorySource>) -> MemorySource {
    match hint {
        Some(MemorySource::Experienced) => MemorySource::Experienced,
        Some(MemorySource::Witnessed) => MemorySource::Witnessed,
        _ => if chain_len == 1 {
            MemorySource::Heard
        } else {
            MemorySource::Rumor
        },
    }
}

/// The weight of a source in ranking, as a float bit pattern: the tuning
/// defaults for experienced, witnessed, heard and rumor.
pub open spec fn source_weight_bits(s: MemorySource) -> u32 {
    match s {
        MemorySource::Experienced => SOURCE_W_EXPERIENCED,
        MemorySource::Witnessed => SOURCE_W_WITNESSED,
        MemorySource::Heard => SOURCE_W_HEARD,
        MemorySource::Rumor => SOURCE_W_RUMOR,
    }
}

impl MemorySource {
    /// The weight of the source in ranking (see `source_weight_bits`).
    pub fn weight(self) -> (r: u32)
        ensures
            r == source_weight_bits(self),
    {
        match self {
            MemorySource::Experienced => SOURCE_W_EXPERIENCED,
            MemorySource::Witnessed => SOURCE_W_WITNESSED,
            MemorySource::Heard => SOURCE_W_HEARD,
            MemorySource::Rumor => SOURCE_W_RUMOR,
        }
    }

    /// The priority: lower is more direct (experienced 0, witnessed 1,
    /// heard 2, rumor 3).
    pub fn priority(self) -> (r: u8)
        ensures
            r == source_priority(self),
    {
        match self {
            MemorySource::Experienced => 0,
            MemorySource::Witnessed => 1,
            MemorySource::Heard => 2,
            MemorySource::Rumor => 3,
        }
    }

    /// The source of information passed along an origin chain of
    /// `chain_len` links, unless `hint` says it was experienced or witnessed.
    pub fn from_origin_chain(chain_len: usize, hint: Option<MemorySource>) -> (r: MemorySource)
        ensures
            r == source_from_chain(chain_len as nat, hint),
    {
        match hint {
            Some(MemorySource::Experienced) => MemorySource::Experienced,
            Some(MemorySource::Witnessed) => MemorySource::Witnessed,
            _ => if chain_len == 1 {
                MemorySource::Heard
            } else {
                MemorySource::Rumor
            },
        }
    }
}

/// Where a memory came from: authored with the world, or made at run time.
#[derive(Debug, Clone, Copy, PartialEq, Eq, Hash, Structural)]
pub enum Provenance {
    Seeded,
    Runtime,
}

impl Provenance {
    /// Canon is exactly seeded world knowledge.
    pub fn is_canonical(self, scope: &MemoryScope) -> (r: bool)
        ensures
            r == (self == Provenance::Seeded && scope is World),
    {
        match (self, scope) {
            (Provenance::Seeded, MemoryScope::World { .. }) => true,
            _ => false,
        }
    }
}

/// Memory layer: A for single moments, B for summaries of them.
#[derive(Debug, Clone, Copy, PartialEq, Eq, Hash, Structural)]
pub enum MemoryLayer {
    A,
    B,
}

/// The kind of a memory.
#[derive(Debug, Clone, Copy, PartialEq, Eq, Hash, Structural)]
pub enum MemoryType {
    DialogueTurn,
    RelationshipChange,
    BeatTransition,
    SceneSummary,
    GameEvent,
    WorldEvent,
    FactionKnowledge,
    FamilyFact,
}

/// The layer a memory of this kind starts on: summaries on B, the rest on A.
pub open spec fn initial_layer_of(t: MemoryType) -> MemoryLayer {
    match t {
        MemoryType::SceneSummary => MemoryLayer::B,
        _ => MemoryLayer::A,
    }
}

/// The stored name of a memory kind.
pub open spec fn persisted_name(t: MemoryType) -> Seq<char> {
    match t {
        MemoryType::DialogueTurn => "DialogueTurn"@,
        MemoryType::RelationshipChange => "RelationshipChange"@,
        MemoryType::BeatTransition => "BeatTransition"@,
        MemoryType::SceneSummary => "SceneSummary"@,
        MemoryType::GameEvent => "GameEvent"@,
        MemoryType::WorldEvent => "WorldEvent"@,
        MemoryType::FactionKnowledge => "FactionKnowledge"@,
        MemoryType::FamilyFact => "FamilyFact"@,
    }
}

/// The memory kind stored as `s`, accepting the older names `Dialogue`,
/// `Relationship` and `SceneEnd`.
pub open spec fn persisted_parse(s: Seq<char>) -> Option<MemoryType> {
    if s == "DialogueTurn"@ || s == "Dialogue"@ {
        Some(MemoryType::DialogueTurn)
    } else if s == "RelationshipChange"@ || s == "Relationship"@ {
        Some(MemoryType::RelationshipChange)
    } else if s == "BeatTransition"@ {
        Some(MemoryType::BeatTransition)
    } else if s == "SceneSummary"@ || s == "SceneEnd"@ {
        Some(MemoryType::SceneSummary)
    } else if s == "GameEvent"@ {
        Some(MemoryType::GameEvent)
    } else if s == "WorldEvent"@ {
        Some(MemoryType::WorldEvent)
    } else if s == "FactionKnowledge"@ {
        Some(MemoryType::FactionKnowledge)
    } else if s == "FamilyFact"@ {
        Some(MemoryType::FamilyFact)
    } else {
        None
    }
}

impl MemoryType {
    /// The layer a memory of this kind starts on.
    pub fn initial_layer(&self) -> (r: MemoryLayer)
        ensures
            r == initial_layer_of(*self),
    {
        match self {
            MemoryType::SceneSummary => MemoryLayer::B,
            _ => MemoryLayer::A,
        }
    }

    /// The name under which the kind is stored.
    pub fn as_persisted(&self) -> (r: &'static str)
        ensures
            r@ == persisted_name(*self),
    {
        match self {
            MemoryType::DialogueTurn => "DialogueTurn",
            MemoryType::RelationshipChange => "RelationshipChange",
            MemoryType::BeatTransition => "BeatTransition",
            MemoryType::SceneSummary => "SceneSummary",
            MemoryType::GameEvent => "GameEvent",
            MemoryType::WorldEvent => "WorldEvent",
            MemoryType::FactionKnowledge => "FactionKnowledge",
            MemoryType::FamilyFact => "FamilyFact",
        }
    }

    /// The kind stored under the name `s`, old names included.
    pub fn from_persisted(s: &str) -> (r: Option<MemoryType>)
        ensures
            r == persisted_parse(s@),
    {
        if str_eq(s, "DialogueTurn") || str_eq(s, "Dialogue") {
            Some(MemoryType::DialogueTurn)
        } else if str_eq(s, "RelationshipChange") || str_eq(s, "Relationship") {
            Some(MemoryType::RelationshipChange)
        } else if str_eq(s, "BeatTransition") {
            Some(MemoryType::BeatTransition)
        } else if str_eq(s, "SceneSummary") || str_eq(s, "SceneEnd") {
            Some(MemoryType::SceneSummary)
        } else if str_eq(s, "GameEvent") {
            Some(MemoryType::GameEvent)
        } else if str_eq(s, "WorldEvent") {
            Some(MemoryType::WorldEvent)
        } else if str_eq(s, "FactionKnowledge") {
            Some(MemoryType::FactionKnowledge)
        } else if str_eq(s, "FamilyFact") {
            Some(MemoryType::FamilyFact)
        } else {
            None
        }
    }
}

/// Reading a stored name back gives the kind that was stored.
pub proof fn law_persisted_round_trip(t: MemoryType)
    ensures
        persisted_parse(persisted_name(t)) == Some(t),
{
    reveal_strlit("DialogueTurn");
    reveal_strlit("Dialogue");
    reveal_strlit("RelationshipChange");
    reveal_strlit("Relationship");
    reveal_strlit("BeatTransition");
    reveal_strlit("SceneSummary");
    reveal_strlit("SceneEnd");
    reveal_strlit("GameEvent");
    reveal_strlit("WorldEvent");
    reveal_strlit("FactionKnowledge");
    reveal_strlit("FamilyFact");
    assert("DialogueTurn"@.len() == 12);
    assert("Dialogue"@.len() == 8);
    assert("RelationshipChange"@.len() == 18);
    assert("Relationship"@.len() == 12);
    assert("BeatTransition"@.len() == 14);
    assert("SceneSummary"@.len() == 12);
    assert("SceneEnd"@.len() == 8);
    assert("GameEvent"@.len() == 9);
    assert("WorldEvent"@.len() == 10);
    assert("FactionKnowledge"@.len() == 16);
    assert("FamilyFact"@.len() == 10);
    assert("SceneSummary"@[0] != "DialogueTurn"@[0]);
    assert("SceneSummary"@[0] != "Relationship"@[0]);
    assert("FamilyFact"@[0] != "WorldEvent"@[0]);
}

/// The scope of a stored entry that does not name one: personal, owner unknown.
pub fn default_personal_scope() -> (r: MemoryScope)
    ensures
        r matches MemoryScope::Personal { npc_id } && npc_id@.len() == 0,
{
    MemoryScope::Personal { npc_id: String::new() }
}

/// The source of a stored entry that does not name one.
pub fn default_source() -> (r: MemorySource)
    ensures
        r == MemorySource::Experienced,
{
    MemorySource::Experienced
}

/// The provenance of a stored entry that does not name one.
pub fn default_provenance() -> (r: Provenance)
    ensures
        r == Provenance::Runtime,
{
    Provenance::Runtime
}

/// The layer of a stored entry that does not name one.
pub fn default_layer() -> (r: MemoryLayer)
    ensures
        r == MemoryLayer::A,
{
    MemoryLayer::A
}

/// The bit pattern of the 32-bit float 1.0: full confidence.
pub const FULL_CONFIDENCE_BITS: u32 = 0x3F80_0000u32;

/// One remembered thing.
#[derive(Debug, Clone)]
pub struct MemoryEntry {
    pub id: String,
    /// Order of creation; equals the event id for entries made from one event.
    pub created_seq: u64,
    pub event_id: u64,
    pub scope: MemoryScope,
    pub source: MemorySource,
    pub provenance: Provenance,
    pub memory_type: MemoryType,
    pub layer: MemoryLayer,
    pub content: String,
    pub topic: Option<String>,
    /// The (pleasure, arousal, dominance) of the moment, as float bit patterns.
    pub emotional_context: Option<(u32, u32, u32)>,
    pub timestamp_ms: u64,
    pub last_recalled_at: Option<u64>,
    pub recall_count: u32,
    /// Who passed the information on, nearest first.
    pub origin_chain: Vec<String>,
    /// Confidence in [0, 1], as a float bit pattern.
    pub confidence: u32,
    pub acquired_by: Option<String>,
    pub superseded_by: Option<String>,
    pub consolidated_into: Option<String>,
    /// Kept for stored data that predates scopes; the owner of the scope.
    pub npc_id: String,
}

impl MemoryEntry {
    /// A personal, experienced, run-time memory of `npc_id`, on the layer
    /// its kind starts on, with full confidence and nothing recalled yet.
    pub fn personal(
        id: &str,
        npc_id: &str,
        content: &str,
        emotional_context: Option<(u32, u32, u32)>,
        timestamp_ms: u64,
        event_id: u64,
        memory_type: MemoryType,
    ) -> (r: MemoryEntry)
        ensures
            r.id@ == id@,
            r.created_seq == event_id,
            r.event_id == event_id,
            r.scope matches MemoryScope::Personal { npc_id: owner } && owner@ == npc_id@,
            r.source == MemorySource::Experienced,
            r.provenance == Provenance::Runtime,
            r.memory_type == memory_type,
            r.layer == initial_layer_of(memory_type),
            r.content@ == content@,
            r.topic is None,
            r.emotional_context == emotional_context,
            r.timestamp_ms == timestamp_ms,
            r.last_recalled_at is None,
            r.recall_count == 0,
            r.origin_chain@.len() == 0,
            r.confidence == FULL_CONFIDENCE_BITS,
            r.acquired_by is None,
            r.superseded_by is None,
            r.consolidated_into is None,
            r.npc_id@ == npc_id@,
    {
        let layer = memory_type.initial_layer();
        MemoryEntry {
            id: id.to_owned(),
            created_seq: event_id,
            event_id,
            scope: MemoryScope::Personal { npc_id: npc_id.to_owned() },
            source: MemorySource::Experienced,
            provenance: Provenance::Runtime,
            memory_type,
            layer,
            content: content.to_owned(),
            topic: None,
            emotional_context,
            timestamp_ms,
            last_recalled_at: None,
            recall_count: 0,
            origin_chain: Vec::new(),
            confidence: FULL_CONFIDENCE_BITS,
            acquired_by: None,
            superseded_by: None,
            consolidated_into: None,
            npc_id: npc_id.to_owned(),
        }
    }

    /// The owner to use where an NPC id was stored before scopes: the
    /// scope's first owner, whatever its kind.
    pub fn legacy_npc_id(&self) -> (r: &str)
        ensures
            r@ == scope_owner_a(self.scope),
    {
        self.scope.owner_a()
    }
}

/// A memory found by a search, with how relevant it is.
#[derive(Debug, Clone)]
pub struct MemoryResult {
    pub entry: MemoryEntry,
    /// In [0, 1] (float bits).
    pub relevance_score: u32,
}


/// Sources rank from first hand to hearsay: experienced (priority 0),
/// witnessed (1), heard (2), rumor (3); the more direct source always
/// weighs more in ranking (0.9 > 0.7 > 0.5 > 0.35 by default).
pub proof fn law_source_order(a: MemorySource, b: MemorySource)
    ensures
        a == MemorySource::Experienced ==> source_priority(a) == 0,
        a == MemorySource::Witnessed ==> source_priority(a) == 1,
        a == MemorySource::Heard ==> source_priority(a) == 2,
        a == MemorySource::Rumor ==> source_priority(a) == 3,
        source_priority(a) < source_priority(b) <==> f32_lt(source_weight_bits(b), source_weight_bits(a)),
        source_priority(a) == source_priority(b) <==> a == b,
{
    lemma_nonnegative_finite(SOURCE_W_EXPERIENCED);
    lemma_nonnegative_finite(SOURCE_W_WITNESSED);
    lemma_nonnegative_finite(SOURCE_W_HEARD);
    lemma_nonnegative_finite(SOURCE_W_RUMOR);
    assert(SOURCE_W_EXPERIENCED > SOURCE_W_WITNESSED && SOURCE_W_WITNESSED > SOURCE_W_HEARD && SOURCE_W_HEARD > SOURCE_W_RUMOR);
}

/// What something told is remembered as: what the teller experienced or
/// witnessed stays so; otherwise one link away is heard, and any other
/// chain (none known, or longer) is rumor.
pub proof fn law_source_from_chain(chain_len: nat, hint: Option<MemorySource>)
    ensures
        hint == Some(MemorySource::Experienced) ==> source_from_chain(chain_len, hint) == MemorySource::Experienced,
        hint == Some(MemorySource::Witnessed) ==> source_from_chain(chain_len, hint) == MemorySource::Witnessed,
        !(hint == Some(MemorySource::Experienced) || hint == Some(MemorySource::Witnessed)) && chain_len == 1 ==> source_from_chain(chain_len, hint) == MemorySource::Heard,
        !(hint == Some(MemorySource::Experienced) || hint == Some(MemorySource::Witnessed)) && chain_len != 1 ==> source_from_chain(chain_len, hint) == MemorySource::Rumor,
{
}

} // verus!
