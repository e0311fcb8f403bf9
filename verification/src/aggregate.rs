//! Aggregate keys: the boundary by which events and commands are routed.
//! Events that share a key are handled in order by one task; events with
//! different keys have no order between them.

use vstd::prelude::*;

verus! {

/// The aggregate an event or command belongs to.
#[derive(Debug, Clone, PartialEq, Eq, Hash)]
pub enum AggregateKey {
    /// A scene: the conversation of one NPC with one partner.
    Scene { npc_id: String, partner_id: String },
    /// One NPC's appraisal outside a scene.
    Npc(String),
    /// A relationship, from its owner toward its target.
    Relationship { owner_id: String, target_id: String },
    /// A memory entry, by entry id.
    Memory(String),
    /// A rumor, by rumor id.
    Rumor(String),
    /// A world overlay, by world id.
    World(String),
}

/// A key with its ids as texts.
pub enum AggregateKeyView {
    Scene { npc_id: Seq<char>, partner_id: Seq<char> },
    Npc(Seq<char>),
    Relationship { owner_id: Seq<char>, target_id: Seq<char> },
    Memory(Seq<char>),
    Rumor(Seq<char>),
    World(Seq<char>),
}

impl View for AggregateKey {
    type V = AggregateKeyView;

    open spec fn view(&self) -> AggregateKeyView {
        match self {
            AggregateKey::Scene { npc_id, partner_id } => AggregateKeyView::Scene {
                npc_id: npc_id@,
                partner_id: partner_id@,
            },
            AggregateKey::Npc(id) => AggregateKeyView::Npc(id@),
            AggregateKey::Relationship { owner_id, target_id } => AggregateKeyView::Relationship {
                owner_id: owner_id@,
                target_id: target_id@,
            },
            AggregateKey::Memory(id) => AggregateKeyView::Memory(id@),
            AggregateKey::Rumor(id) => AggregateKeyView::Rumor(id@),
            AggregateKey::World(id) => AggregateKeyView::World(id@),
        }
    }
}

/// The id that `npc_id_hint` returns: the NPC of a scene or an appraisal,
/// the owner of a relationship, and the aggregate's own id otherwise.
pub open spec fn npc_id_hint_of(k: AggregateKey) -> Seq<char> {
    match k {
        AggregateKey::Scene { npc_id, .. } => npc_id@,
        AggregateKey::Npc(npc_id) => npc_id@,
        AggregateKey::Relationship { owner_id, .. } => owner_id@,
        AggregateKey::Memory(id) => id@,
        AggregateKey::Rumor(id) => id@,
        AggregateKey::World(id) => id@,
    }
}

/// The display form of a key: `Scene(a↔b)`, `Npc(a)`, `Rel(a→b)`,
/// `Memory(m)`, `Rumor(r)`, `World(w)`.
pub open spec fn aggregate_key_text(k: AggregateKey) -> Seq<char> {
    match k {
        AggregateKey::Scene { npc_id, partner_id } => "Scene("@ + npc_id@ + "↔"@ + partner_id@ + ")"@,
        AggregateKey::Npc(npc_id) => "Npc("@ + npc_id@ + ")"@,
        AggregateKey::Relationship { owner_id, target_id } => "Rel("@ + owner_id@ + "→"@ + target_id@ + ")"@,
        AggregateKey::Memory(id) => "Memory("@ + id@ + ")"@,
        AggregateKey::Rumor(id) => "Rumor("@ + id@ + ")"@,
        AggregateKey::World(id) => "World("@ + id@ + ")"@,
    }
}

/// `open`, then `id`, then `close`.
fn wrap(open: &str, id: &str, close: &str) -> (r: String)
    ensures
        r@ == open@ + id@ + close@,
{
    let mut s = String::from_str(open);
    s.append(id);
    s.append(close);
    s
}

/// `open`, `a`, `sep`, `b`, then `close`.
fn wrap_pair(open: &str, a: &str, sep: &str, b: &str, close: &str) -> (r: String)
    ensures
        r@ == open@ + a@ + sep@ + b@ + close@,
{
    let mut s = String::from_str(open);
    s.append(a);
    s.append(sep);
    s.append(b);
    s.append(close);
    s
}

impl AggregateKey {
    /// The NPC id to show in logs: the NPC of a scene or an appraisal, the
    /// owner of a relationship; memory, rumor and world keys give their own
    /// id, which is no NPC id.
    pub fn npc_id_hint(&self) -> (r: &str)
        ensures
            r@ == npc_id_hint_of(*self),
    {
        match self {
            AggregateKey::Scene { npc_id, .. } => npc_id.as_str(),
            AggregateKey::Npc(npc_id) => npc_id.as_str(),
            AggregateKey::Relationship { owner_id, .. } => owner_id.as_str(),
            AggregateKey::Memory(id) => id.as_str(),
            AggregateKey::Rumor(id) => id.as_str(),
            AggregateKey::World(id) => id.as_str(),
        }
    }

    /// The display form of the key.
    pub fn to_string(&self) -> (r: String)
        ensures
            r@ == aggregate_key_text(*self),
    {
        match self {
            AggregateKey::Scene { npc_id, partner_id } => wrap_pair("Scene(", npc_id.as_str(), "↔", partner_id.as_str(), ")"),
            AggregateKey::Npc(npc_id) => wrap("Npc(", npc_id.as_str(), ")"),
            AggregateKey::Relationship { owner_id, target_id } => wrap_pair("Rel(", owner_id.as_str(), "→", target_id.as_str(), ")"),
            AggregateKey::Memory(id) => wrap("Memory(", id.as_str(), ")"),
            AggregateKey::Rumor(id) => wrap("Rumor(", id.as_str(), ")"),
            AggregateKey::World(id) => wrap("World(", id.as_str(), ")"),
        }
    }
}

} // verus!
