//! The memory augmentation service: recalls memories that bear on an
//! utterance and frames them for the acting guide.

use vstd::prelude::*;
use crate::memory::{MemoryEntry, MemoryLayer, MemorySource};

verus! {

/// The memory augmentation service; it holds no state.
#[derive(Debug, Clone, Copy, PartialEq, Eq, Structural)]
pub struct MemoryAugmentationService;

impl MemoryAugmentationService {
    pub fn new() -> (r: MemoryAugmentationService)
        ensures
            r == MemoryAugmentationService,
    {
        MemoryAugmentationService
    }
}

impl Default for MemoryAugmentationService {
    fn default() -> (r: MemoryAugmentationService)
        ensures
            r == MemoryAugmentationService,
    {
        MemoryAugmentationService::new()
    }
}

/// Which memories a search may return: those an NPC may know.
#[derive(Debug, Clone, PartialEq, Eq)]
pub enum MemoryScopeFilter {
    NpcAllowed(String),
}

/// A search of the memory store.
#[derive(Debug, Clone)]
pub struct MemoryQuery {
    pub text: Option<String>,
    /// The embedding of the text, as float bit patterns.
    pub embedding: Option<Vec<u32>>,
    pub scope_filter: Option<MemoryScopeFilter>,
    pub source_filter: Option<MemorySource>,
    pub layer_filter: Option<MemoryLayer>,
    pub topic: Option<String>,
    pub exclude_superseded: bool,
    pub exclude_consolidated_source: bool,
    /// The least retention a memory must still have (float bits).
    pub min_retention: Option<u32>,
    /// The speaker's (pleasure, arousal, dominance), as float bits.
    pub current_pad: Option<(u32, u32, u32)>,
    pub limit: usize,
}

/// What happened since the last step of an augmentation.
pub enum AugmentEvent {
    /// An augmentation begins: the NPC, the utterance, its embedding (float
    /// bits), the speaker's PAD, how many memories to keep and the least
    /// retention to search for.
    Start {
        npc_id: String,
        text: String,
        embedding: Option<Vec<u32>>,
        pad: Option<(u32, u32, u32)>,
        top_k: usize,
        retention_cutoff: u32,
    },
    /// The store search failed.
    SearchFailed,
    /// The store search returned these memories.
    Found(Vec<MemoryEntry>),
    /// The ranking kept these memories, best first.
    Ranked(Vec<MemoryEntry>),
}

/// What an augmentation does next.
pub enum AugmentAction {
    /// Search the store once with this query.
    Search(MemoryQuery),
    /// Rank the memories found.
    Rank(Vec<MemoryEntry>),
    /// Record a recall of each memory in `recall` (whether one fails does
    /// not matter), then frame `frame` into the prompt block.
    RecallAndFrame { recall: Vec<String>, frame: Vec<MemoryEntry> },
    /// The block is empty.
    EmptyBlock,
}

/// `q` is the search for the memories `npc_id` may know that bear on
/// `text`: superseded memories and consolidated sources left out, down to
/// `retention_cutoff`, with three times `top_k` candidates.
pub open spec fn search_query_of(
    q: MemoryQuery,
    npc_id: Seq<char>,
    text: Seq<char>,
    embedding: Option<Vec<u32>>,
    pad: Option<(u32, u32, u32)>,
    top_k: usize,
    retention_cutoff: u32,
) -> bool {
    &&& q.text matches Some(t) && t@ == text
    &&& q.embedding == embedding
    &&& q.scope_filter matches Some(MemoryScopeFilter::NpcAllowed(n)) && n@ == npc_id
    &&& q.source_filter is None
    &&& q.layer_filter is None
    &&& q.topic is None
    &&& q.exclude_superseded
    &&& q.exclude_consolidated_source
    &&& q.min_retention == Some(retention_cutoff)
    &&& q.current_pad == pad
    &&& q.limit == top_k * 3
}

/// The ids of `es`, in order.
pub open spec fn entry_ids(es: Seq<MemoryEntry>) -> Seq<Seq<char>> {
    es.map_values(|e: MemoryEntry| e.id@)
}

impl MemoryAugmentationService {
    /// The search an augmentation sends for `npc_id` and the utterance
    /// `text`: the memories the NPC may know, superseded ones and sources
    /// already consolidated left out, down to `retention_cutoff`, with
    /// three times `top_k` candidates for the ranking to cut back.
    pub fn search_query(
        &self,
        npc_id: &str,
        text: &str,
        embedding: Option<Vec<u32>>,
        pad: Option<(u32, u32, u32)>,
        top_k: usize,
        retention_cutoff: u32,
    ) -> (r: MemoryQuery)
        requires
            top_k * 3 <= usize::MAX,
        ensures
            search_query_of(r, npc_id@, text@, embedding, pad, top_k, retention_cutoff),
    {
        let oversample = top_k * 3;
        let limit = if oversample < top_k { top_k } else { oversample };
        MemoryQuery {
            text: Some(text.to_string()),
            embedding,
            scope_filter: Some(MemoryScopeFilter::NpcAllowed(npc_id.to_string())),
            source_filter: None,
            layer_filter: None,
            topic: None,
            exclude_superseded: true,
            exclude_consolidated_source: true,
            min_retention: Some(retention_cutoff),
            current_pad: pad,
            limit,
        }
    }

    /// The next step of an augmentation: a failed or empty search, or an
    /// empty ranking, gives an empty block; memories found are ranked; the
    /// ranked memories are each recorded as recalled and framed, in rank
    /// order.
    pub fn next_action(&self, event: AugmentEvent) -> (r: AugmentAction)
        requires
            event matches AugmentEvent::Start { top_k, .. } ==> top_k * 3 <= usize::MAX,
        ensures
            r is Search <==> event is Start,
            match event {
                AugmentEvent::Start { npc_id, text, embedding, pad, top_k, retention_cutoff } => r matches AugmentAction::Search(q) && search_query_of(
                    q,
                    npc_id@,
                    text@,
                    embedding,
                    pad,
                    top_k,
                    retention_cutoff,
                ),
                AugmentEvent::SearchFailed => r is EmptyBlock,
                AugmentEvent::Found(es) => if es@.len() == 0 {
                    r is EmptyBlock
                } else {
                    r matches AugmentAction::Rank(v) && v@ == es@
                },
                AugmentEvent::Ranked(es) => if es@.len() == 0 {
                    r is EmptyBlock
                } else {
                    r matches AugmentAction::RecallAndFrame { recall, frame } && frame@ == es@
                        && recall@.map_values(|s: String| s@) == entry_ids(es@)
                },
            },
    {
        match event {
            AugmentEvent::Start { npc_id, text, embedding, pad, top_k, retention_cutoff } => AugmentAction::Search(
                self.search_query(npc_id.as_str(), text.as_str(), embedding, pad, top_k, retention_cutoff),
            ),
            AugmentEvent::SearchFailed => AugmentAction::EmptyBlock,
            AugmentEvent::Found(es) => {
                if es.len() == 0 {
                    AugmentAction::EmptyBlock
                } else {
                    AugmentAction::Rank(es)
                }
            },
            AugmentEvent::Ranked(es) => {
                if es.len() == 0 {
                    AugmentAction::EmptyBlock
                } else {
                    let mut recall: Vec<String> = Vec::new();
                    let n = es.len();
                    let mut i: usize = 0;
                    while i < n
                        invariant
                            n == es@.len(),
                            i <= n,
                            recall@.map_values(|s: String| s@) == entry_ids(es@.take(i as int)),
                        decreases n - i,
                    {
                        recall.push(es[i].id.clone());
                        proof {
                            assert(es@.take(i + 1) =~= es@.take(i as int).push(es@[i as int]));
                            assert(recall@.map_values(|s: String| s@) =~= entry_ids(es@.take(i as int)).push(es@[i as int].id@));
                            assert(entry_ids(es@.take(i + 1)) =~= entry_ids(es@.take(i as int)).push(es@[i as int].id@));
                        }
                        i = i + 1;
                    }
                    assert(es@.take(n as int) =~= es@);
                    AugmentAction::RecallAndFrame { recall, frame: es }
                }
            },
        }
    }
}

} // verus!
