//! Domain events: every change of state is recorded as an event, and each
//! event is routed to the aggregate it belongs to.
//!
//! Payloads carry scalar summaries. The numbers among them are 32-bit
//! floats held as their bit patterns; a situation or scene handed to an
//! agent is carried as its JSON text.

use vstd::prelude::*;
use crate::aggregate::{AggregateKey, AggregateKeyView};
use crate::clock::now_ms;
use crate::memory::{MemoryLayer, MemoryScope, MemorySource, MemoryType, Provenance};
use crate::rumor::{ReachPolicy, RumorOrigin};
use crate::scene_id::SceneId;
use crate::emotion::Situation;
use crate::emotion::scene::Scene;

verus! {

/// A (pleasure, arousal, dominance) triple of 32-bit float bit patterns.
#[derive(Debug, Clone, Copy, PartialEq, Eq, Structural)]
pub struct PadBits {
    pub pleasure: u32,
    pub arousal: u32,
    pub dominance: u32,
}

/// Event identifier.
pub type EventId = u64;

/// The kind tag of an event, one for each payload variant.
#[derive(Debug, Clone, Copy, PartialEq, Eq, Hash, Structural)]
pub enum EventKind {
    AppraiseRequested,
    EmotionAppraised,
    StimulusApplyRequested,
    StimulusApplied,
    BeatTransitioned,
    SceneStartRequested,
    SceneStarted,
    SceneEnded,
    RelationshipUpdated,
    RelationshipUpdateRequested,
    DialogueEndRequested,
    GuideRequested,
    GuideGenerated,
    DialogueTurnCompleted,
    EmotionCleared,
    MemoryEntryCreated,
    MemoryEntrySuperseded,
    MemoryEntryConsolidated,
    SeedRumorRequested,
    SpreadRumorRequested,
    RumorSeeded,
    RumorSpread,
    RumorDistorted,
    RumorFaded,
    TellInformationRequested,
    InformationTold,
}

/// How a listener heard what was told.
#[derive(Debug, Clone, Copy, PartialEq, Eq, Hash, Structural)]
pub enum ListenerRole {
    /// Spoken to.
    Direct,
    /// Overheard.
    Overhearer,
}

/// Data shared by the events derived from one request.
#[derive(Debug, Clone, PartialEq, Eq, Structural)]
pub struct EventMetadata {
    /// The id that ties together the events of one request.
    pub correlation_id: Option<u64>,
}

impl Default for EventMetadata {
    fn default() -> (r: EventMetadata)
        ensures
            r.correlation_id is None,
    {
        EventMetadata { correlation_id: None }
    }
}

/// Why a relationship changed; the memory policy branches on it.
#[derive(Debug, Clone, PartialEq)]
pub enum RelationshipChangeCause {
    /// Something said or done in a scene.
    SceneInteraction { scene_id: SceneId },
    /// Information that was told, with its origin chain.
    InformationTold { origin_chain: Vec<String> },
    /// A world event laid over the relationship.
    WorldEventOverlay { topic: Option<String> },
    /// A rumor that spread.
    Rumor { rumor_id: String },
    /// Not given.
    Unspecified,
}

impl Default for RelationshipChangeCause {
    fn default() -> (r: RelationshipChangeCause)
        ensures
            r is Unspecified,
    {
        RelationshipChangeCause::Unspecified
    }
}

/// A recorded event.
#[derive(Debug, Clone)]
pub struct DomainEvent {
    pub id: EventId,
    /// Milliseconds since the Unix epoch when the event was made.
    pub timestamp_ms: u64,
    pub aggregate_id: String,
    /// Position of the event in its aggregate's stream.
    pub sequence: u64,
    pub metadata: EventMetadata,
    pub payload: EventPayload,
}

/// What happened, with the values each consumer needs.
#[derive(Debug, Clone)]
pub enum EventPayload {
    AppraiseRequested {
        npc_id: String,
        partner_id: String,
        /// The situation to appraise.
        situation: Situation,
    },
    EmotionAppraised {
        npc_id: String,
        partner_id: String,
        situation_description: Option<String>,
        /// The dominant emotion and its intensity (float bits).
        dominant: Option<(String, u32)>,
        /// Mood after the appraisal, as a float bit pattern.
        mood: u32,
        /// Each emotion and its intensity (float bits).
        emotion_snapshot: Vec<(String, u32)>,
    },
    StimulusApplyRequested {
        npc_id: String,
        partner_id: String,
        /// Pleasure, arousal, dominance, as float bit patterns.
        pad: PadBits,
        situation_description: Option<String>,
    },
    StimulusApplied {
        npc_id: String,
        partner_id: String,
        /// Pleasure, arousal, dominance, as float bit patterns.
        pad: PadBits,
        /// As a float bit pattern.
        mood_before: u32,
        /// As a float bit pattern.
        mood_after: u32,
        beat_changed: bool,
        /// Each emotion and its intensity (float bits).
        emotion_snapshot: Vec<(String, u32)>,
    },
    BeatTransitioned {
        npc_id: String,
        partner_id: String,
        from_focus_id: Option<String>,
        to_focus_id: String,
    },
    SceneStartRequested {
        npc_id: String,
        partner_id: String,
        /// As a float bit pattern.
        significance: Option<u32>,
        initial_focus_id: Option<String>,
        /// The scene to start, built beforehand; its foci are
        /// `prebuilt_scene.focuses()`.
        prebuilt_scene: Scene,
    },
    SceneStarted {
        npc_id: String,
        partner_id: String,
        focus_count: usize,
        initial_focus_id: Option<String>,
    },
    SceneEnded {
        npc_id: String,
        partner_id: String,
    },
    RelationshipUpdated {
        owner_id: String,
        target_id: String,
        before_closeness: u32,
        before_trust: u32,
        before_power: u32,
        after_closeness: u32,
        after_trust: u32,
        after_power: u32,
        /// Why the relationship changed.
        cause: RelationshipChangeCause,
    },
    RelationshipUpdateRequested {
        npc_id: String,
        partner_id: String,
        /// As a float bit pattern.
        significance: Option<u32>,
    },
    DialogueEndRequested {
        npc_id: String,
        partner_id: String,
        /// As a float bit pattern.
        significance: Option<u32>,
    },
    GuideRequested {
        npc_id: String,
        partner_id: String,
        situation_description: Option<String>,
    },
    GuideGenerated {
        npc_id: String,
        partner_id: String,
    },
    DialogueTurnCompleted {
        npc_id: String,
        partner_id: String,
        speaker: String,
        utterance: String,
        /// Each emotion and its intensity (float bits).
        emotion_snapshot: Vec<(String, u32)>,
    },
    EmotionCleared {
        npc_id: String,
    },
    MemoryEntryCreated {
        entry_id: String,
        scope: MemoryScope,
        source: MemorySource,
        provenance: Provenance,
        memory_type: MemoryType,
        layer: MemoryLayer,
        topic: Option<String>,
        /// As a float bit pattern.
        confidence: u32,
        acquired_by: Option<String>,
        created_seq: u64,
        source_event_id: u64,
    },
    MemoryEntrySuperseded {
        old_entry_id: String,
        new_entry_id: String,
        topic: Option<String>,
    },
    MemoryEntryConsolidated {
        a_entry_ids: Vec<String>,
        b_entry_id: String,
        scene_id: Option<SceneId>,
    },
    SeedRumorRequested {
        topic: Option<String>,
        seed_content: Option<String>,
        reach: ReachPolicy,
        origin: RumorOrigin,
    },
    SpreadRumorRequested {
        rumor_id: String,
        extra_recipients: Vec<String>,
    },
    RumorSeeded {
        rumor_id: String,
        topic: Option<String>,
        origin: RumorOrigin,
        seed_content: Option<String>,
        reach_policy: ReachPolicy,
    },
    RumorSpread {
        rumor_id: String,
        hop_index: u32,
        recipients: Vec<String>,
        content_version: Option<String>,
    },
    RumorDistorted {
        rumor_id: String,
        distortion_id: String,
        parent: Option<String>,
    },
    RumorFaded {
        rumor_id: String,
    },
    TellInformationRequested {
        speaker: String,
        listeners: Vec<String>,
        overhearers: Vec<String>,
        claim: String,
        /// As a float bit pattern.
        stated_confidence: u32,
        origin_chain_in: Vec<String>,
    },
    InformationTold {
        speaker: String,
        listener: String,
        listener_role: ListenerRole,
        claim: String,
        /// As a float bit pattern.
        stated_confidence: u32,
        origin_chain_in: Vec<String>,
    },
}

/// The kind tag of a payload.
pub open spec fn payload_kind(p: EventPayload) -> EventKind {
    match p {
        EventPayload::AppraiseRequested { .. } => EventKind::AppraiseRequested,
        EventPayload::EmotionAppraised { .. } => EventKind::EmotionAppraised,
        EventPayload::StimulusApplyRequested { .. } => EventKind::StimulusApplyRequested,
        EventPayload::StimulusApplied { .. } => EventKind::StimulusApplied,
        EventPayload::BeatTransitioned { .. } => EventKind::BeatTransitioned,
        EventPayload::SceneStartRequested { .. } => EventKind::SceneStartRequested,
        EventPayload::SceneStarted { .. } => EventKind::SceneStarted,
        EventPayload::SceneEnded { .. } => EventKind::SceneEnded,
        EventPayload::RelationshipUpdated { .. } => EventKind::RelationshipUpdated,
        EventPayload::RelationshipUpdateRequested { .. } => EventKind::RelationshipUpdateRequested,
        EventPayload::DialogueEndRequested { .. } => EventKind::DialogueEndRequested,
        EventPayload::GuideRequested { .. } => EventKind::GuideRequested,
        EventPayload::GuideGenerated { .. } => EventKind::GuideGenerated,
        EventPayload::DialogueTurnCompleted { .. } => EventKind::DialogueTurnCompleted,
        EventPayload::EmotionCleared { .. } => EventKind::EmotionCleared,
        EventPayload::MemoryEntryCreated { .. } => EventKind::MemoryEntryCreated,
        EventPayload::MemoryEntrySuperseded { .. } => EventKind::MemoryEntrySuperseded,
        EventPayload::MemoryEntryConsolidated { .. } => EventKind::MemoryEntryConsolidated,
        EventPayload::SeedRumorRequested { .. } => EventKind::SeedRumorRequested,
        EventPayload::SpreadRumorRequested { .. } => EventKind::SpreadRumorRequested,
        EventPayload::RumorSeeded { .. } => EventKind::RumorSeeded,
        EventPayload::RumorSpread { .. } => EventKind::RumorSpread,
        EventPayload::RumorDistorted { .. } => EventKind::RumorDistorted,
        EventPayload::RumorFaded { .. } => EventKind::RumorFaded,
        EventPayload::TellInformationRequested { .. } => EventKind::TellInformationRequested,
        EventPayload::InformationTold { .. } => EventKind::InformationTold,
    }
}

/// The name of a kind, as used in logs.
pub open spec fn kind_name(k: EventKind) -> Seq<char> {
    match k {
        EventKind::AppraiseRequested => "AppraiseRequested"@,
        EventKind::EmotionAppraised => "EmotionAppraised"@,
        EventKind::StimulusApplyRequested => "StimulusApplyRequested"@,
        EventKind::StimulusApplied => "StimulusApplied"@,
        EventKind::BeatTransitioned => "BeatTransitioned"@,
        EventKind::SceneStartRequested => "SceneStartRequested"@,
        EventKind::SceneStarted => "SceneStarted"@,
        EventKind::SceneEnded => "SceneEnded"@,
        EventKind::RelationshipUpdated => "RelationshipUpdated"@,
        EventKind::RelationshipUpdateRequested => "RelationshipUpdateRequested"@,
        EventKind::DialogueEndRequested => "DialogueEndRequested"@,
        EventKind::GuideRequested => "GuideRequested"@,
        EventKind::GuideGenerated => "GuideGenerated"@,
        EventKind::DialogueTurnCompleted => "DialogueTurnCompleted"@,
        EventKind::EmotionCleared => "EmotionCleared"@,
        EventKind::MemoryEntryCreated => "MemoryEntryCreated"@,
        EventKind::MemoryEntrySuperseded => "MemoryEntrySuperseded"@,
        EventKind::MemoryEntryConsolidated => "MemoryEntryConsolidated"@,
        EventKind::SeedRumorRequested => "SeedRumorRequested"@,
        EventKind::SpreadRumorRequested => "SpreadRumorRequested"@,
        EventKind::RumorSeeded => "RumorSeeded"@,
        EventKind::RumorSpread => "RumorSpread"@,
        EventKind::RumorDistorted => "RumorDistorted"@,
        EventKind::RumorFaded => "RumorFaded"@,
        EventKind::TellInformationRequested => "TellInformationRequested"@,
        EventKind::InformationTold => "InformationTold"@,
    }
}

/// The name of a payload's variant.
pub open spec fn payload_name(p: EventPayload) -> Seq<char> {
    match p {
        EventPayload::AppraiseRequested { .. } => "AppraiseRequested"@,
        EventPayload::EmotionAppraised { .. } => "EmotionAppraised"@,
        EventPayload::StimulusApplyRequested { .. } => "StimulusApplyRequested"@,
        EventPayload::StimulusApplied { .. } => "StimulusApplied"@,
        EventPayload::BeatTransitioned { .. } => "BeatTransitioned"@,
        EventPayload::SceneStartRequested { .. } => "SceneStartRequested"@,
        EventPayload::SceneStarted { .. } => "SceneStarted"@,
        EventPayload::SceneEnded { .. } => "SceneEnded"@,
        EventPayload::RelationshipUpdated { .. } => "RelationshipUpdated"@,
        EventPayload::RelationshipUpdateRequested { .. } => "RelationshipUpdateRequested"@,
        EventPayload::DialogueEndRequested { .. } => "DialogueEndRequested"@,
        EventPayload::GuideRequested { .. } => "GuideRequested"@,
        EventPayload::GuideGenerated { .. } => "GuideGenerated"@,
        EventPayload::DialogueTurnCompleted { .. } => "DialogueTurnCompleted"@,
        EventPayload::EmotionCleared { .. } => "EmotionCleared"@,
        EventPayload::MemoryEntryCreated { .. } => "MemoryEntryCreated"@,
        EventPayload::MemoryEntrySuperseded { .. } => "MemoryEntrySuperseded"@,
        EventPayload::MemoryEntryConsolidated { .. } => "MemoryEntryConsolidated"@,
        EventPayload::SeedRumorRequested { .. } => "SeedRumorRequested"@,
        EventPayload::SpreadRumorRequested { .. } => "SpreadRumorRequested"@,
        EventPayload::RumorSeeded { .. } => "RumorSeeded"@,
        EventPayload::RumorSpread { .. } => "RumorSpread"@,
        EventPayload::RumorDistorted { .. } => "RumorDistorted"@,
        EventPayload::RumorFaded { .. } => "RumorFaded"@,
        EventPayload::TellInformationRequested { .. } => "TellInformationRequested"@,
        EventPayload::InformationTold { .. } => "InformationTold"@,
    }
}

/// The aggregate a payload is routed to: the start and the end of a scene
/// to that scene (until payloads carry a scene id, no other event can name
/// its scene, so beats and scene or dialogue requests go to the NPC),
/// relationship events to the relationship (owner toward target),
/// appraisal, stimulus, guide and dialogue events to the NPC, memory events
/// to the entry they concern, rumor events to the rumor (a seed request to
/// its topic, or `orphan` without one), a request to tell to the speaker and
/// what was told to the listener.
pub open spec fn route_of(p: EventPayload) -> AggregateKeyView {
    match p {
        EventPayload::AppraiseRequested { npc_id, .. } => AggregateKeyView::Npc(npc_id@),
        EventPayload::EmotionAppraised { npc_id, .. } => AggregateKeyView::Npc(npc_id@),
        EventPayload::StimulusApplyRequested { npc_id, .. } => AggregateKeyView::Npc(npc_id@),
        EventPayload::StimulusApplied { npc_id, .. } => AggregateKeyView::Npc(npc_id@),
        EventPayload::BeatTransitioned { npc_id, .. } => AggregateKeyView::Npc(npc_id@),
        EventPayload::SceneStartRequested { npc_id, .. } => AggregateKeyView::Npc(npc_id@),
        EventPayload::SceneStarted { npc_id, partner_id, .. } => AggregateKeyView::Scene { npc_id: npc_id@, partner_id: partner_id@ },
        EventPayload::SceneEnded { npc_id, partner_id } => AggregateKeyView::Scene { npc_id: npc_id@, partner_id: partner_id@ },
        EventPayload::RelationshipUpdated { owner_id, target_id, .. } => AggregateKeyView::Relationship { owner_id: owner_id@, target_id: target_id@ },
        EventPayload::RelationshipUpdateRequested { npc_id, partner_id, .. } => AggregateKeyView::Relationship { owner_id: npc_id@, target_id: partner_id@ },
        EventPayload::DialogueEndRequested { npc_id, .. } => AggregateKeyView::Npc(npc_id@),
        EventPayload::GuideRequested { npc_id, .. } => AggregateKeyView::Npc(npc_id@),
        EventPayload::GuideGenerated { npc_id, .. } => AggregateKeyView::Npc(npc_id@),
        EventPayload::DialogueTurnCompleted { npc_id, .. } => AggregateKeyView::Npc(npc_id@),
        EventPayload::EmotionCleared { npc_id } => AggregateKeyView::Npc(npc_id@),
        EventPayload::MemoryEntryCreated { entry_id, .. } => AggregateKeyView::Memory(entry_id@),
        EventPayload::MemoryEntrySuperseded { old_entry_id, .. } => AggregateKeyView::Memory(old_entry_id@),
        EventPayload::MemoryEntryConsolidated { b_entry_id, .. } => AggregateKeyView::Memory(b_entry_id@),
        EventPayload::SeedRumorRequested { topic, .. } => AggregateKeyView::Rumor(
            match topic {
                Some(t) => t@,
                None => "orphan"@,
            },
        ),
        EventPayload::SpreadRumorRequested { rumor_id, .. } => AggregateKeyView::Rumor(rumor_id@),
        EventPayload::RumorSeeded { rumor_id, .. } => AggregateKeyView::Rumor(rumor_id@),
        EventPayload::RumorSpread { rumor_id, .. } => AggregateKeyView::Rumor(rumor_id@),
        EventPayload::RumorDistorted { rumor_id, .. } => AggregateKeyView::Rumor(rumor_id@),
        EventPayload::RumorFaded { rumor_id } => AggregateKeyView::Rumor(rumor_id@),
        EventPayload::TellInformationRequested { speaker, .. } => AggregateKeyView::Npc(speaker@),
        EventPayload::InformationTold { listener, .. } => AggregateKeyView::Npc(listener@),
    }
}

impl DomainEvent {
    /// The kind tag of the event.
    pub fn kind(&self) -> (r: EventKind)
        ensures
            r == payload_kind(self.payload),
    {
        match &self.payload {
            EventPayload::AppraiseRequested { .. } => EventKind::AppraiseRequested,
            EventPayload::EmotionAppraised { .. } => EventKind::EmotionAppraised,
            EventPayload::StimulusApplyRequested { .. } => EventKind::StimulusApplyRequested,
            EventPayload::StimulusApplied { .. } => EventKind::StimulusApplied,
            EventPayload::BeatTransitioned { .. } => EventKind::BeatTransitioned,
            EventPayload::SceneStartRequested { .. } => EventKind::SceneStartRequested,
            EventPayload::SceneStarted { .. } => EventKind::SceneStarted,
            EventPayload::SceneEnded { .. } => EventKind::SceneEnded,
            EventPayload::RelationshipUpdated { .. } => EventKind::RelationshipUpdated,
            EventPayload::RelationshipUpdateRequested { .. } => EventKind::RelationshipUpdateRequested,
            EventPayload::DialogueEndRequested { .. } => EventKind::DialogueEndRequested,
            EventPayload::GuideRequested { .. } => EventKind::GuideRequested,
            EventPayload::GuideGenerated { .. } => EventKind::GuideGenerated,
            EventPayload::DialogueTurnCompleted { .. } => EventKind::DialogueTurnCompleted,
            EventPayload::EmotionCleared { .. } => EventKind::EmotionCleared,
            EventPayload::MemoryEntryCreated { .. } => EventKind::MemoryEntryCreated,
            EventPayload::MemoryEntrySuperseded { .. } => EventKind::MemoryEntrySuperseded,
            EventPayload::MemoryEntryConsolidated { .. } => EventKind::MemoryEntryConsolidated,
            EventPayload::SeedRumorRequested { .. } => EventKind::SeedRumorRequested,
            EventPayload::SpreadRumorRequested { .. } => EventKind::SpreadRumorRequested,
            EventPayload::RumorSeeded { .. } => EventKind::RumorSeeded,
            EventPayload::RumorSpread { .. } => EventKind::RumorSpread,
            EventPayload::RumorDistorted { .. } => EventKind::RumorDistorted,
            EventPayload::RumorFaded { .. } => EventKind::RumorFaded,
            EventPayload::TellInformationRequested { .. } => EventKind::TellInformationRequested,
            EventPayload::InformationTold { .. } => EventKind::InformationTold,
        }
    }

    /// The name of the payload's variant, for logs.
    pub fn payload_type(&self) -> (r: &'static str)
        ensures
            r@ == payload_name(self.payload),
    {
        match &self.payload {
            EventPayload::AppraiseRequested { .. } => "AppraiseRequested",
            EventPayload::EmotionAppraised { .. } => "EmotionAppraised",
            EventPayload::StimulusApplyRequested { .. } => "StimulusApplyRequested",
            EventPayload::StimulusApplied { .. } => "StimulusApplied",
            EventPayload::BeatTransitioned { .. } => "BeatTransitioned",
            EventPayload::SceneStartRequested { .. } => "SceneStartRequested",
            EventPayload::SceneStarted { .. } => "SceneStarted",
            EventPayload::SceneEnded { .. } => "SceneEnded",
            EventPayload::RelationshipUpdated { .. } => "RelationshipUpdated",
            EventPayload::RelationshipUpdateRequested { .. } => "RelationshipUpdateRequested",
            EventPayload::DialogueEndRequested { .. } => "DialogueEndRequested",
            EventPayload::GuideRequested { .. } => "GuideRequested",
            EventPayload::GuideGenerated { .. } => "GuideGenerated",
            EventPayload::DialogueTurnCompleted { .. } => "DialogueTurnCompleted",
            EventPayload::EmotionCleared { .. } => "EmotionCleared",
            EventPayload::MemoryEntryCreated { .. } => "MemoryEntryCreated",
            EventPayload::MemoryEntrySuperseded { .. } => "MemoryEntrySuperseded",
            EventPayload::MemoryEntryConsolidated { .. } => "MemoryEntryConsolidated",
            EventPayload::SeedRumorRequested { .. } => "SeedRumorRequested",
            EventPayload::SpreadRumorRequested { .. } => "SpreadRumorRequested",
            EventPayload::RumorSeeded { .. } => "RumorSeeded",
            EventPayload::RumorSpread { .. } => "RumorSpread",
            EventPayload::RumorDistorted { .. } => "RumorDistorted",
            EventPayload::RumorFaded { .. } => "RumorFaded",
            EventPayload::TellInformationRequested { .. } => "TellInformationRequested",
            EventPayload::InformationTold { .. } => "InformationTold",
        }
    }

    /// The aggregate the event is routed to.
    pub fn aggregate_key(&self) -> (r: AggregateKey)
        ensures
            r@ == route_of(self.payload),
            self.payload is AppraiseRequested ==> (r@ == AggregateKeyView::Npc(self.payload->AppraiseRequested_npc_id@)),
            self.payload is EmotionAppraised ==> (r@ == AggregateKeyView::Npc(self.payload->EmotionAppraised_npc_id@)),
            self.payload is StimulusApplyRequested ==> (r@ == AggregateKeyView::Npc(self.payload->StimulusApplyRequested_npc_id@)),
            self.payload is StimulusApplied ==> (r@ == AggregateKeyView::Npc(self.payload->StimulusApplied_npc_id@)),
            self.payload is BeatTransitioned ==> (r@ == AggregateKeyView::Npc(self.payload->BeatTransitioned_npc_id@)),
            self.payload is SceneStartRequested ==> (r@ == AggregateKeyView::Npc(self.payload->SceneStartRequested_npc_id@)),
            self.payload is SceneStarted ==> (r@ == AggregateKeyView::Scene { npc_id: self.payload->SceneStarted_npc_id@, partner_id: self.payload->SceneStarted_partner_id@ }),
            self.payload is SceneEnded ==> (r@ == AggregateKeyView::Scene { npc_id: self.payload->SceneEnded_npc_id@, partner_id: self.payload->SceneEnded_partner_id@ }),
            self.payload is RelationshipUpdated ==> (r@ == AggregateKeyView::Relationship { owner_id: self.payload->RelationshipUpdated_owner_id@, target_id: self.payload->RelationshipUpdated_target_id@ }),
            self.payload is RelationshipUpdateRequested ==> (r@ == AggregateKeyView::Relationship { owner_id: self.payload->RelationshipUpdateRequested_npc_id@, target_id: self.payload->RelationshipUpdateRequested_partner_id@ }),
            self.payload is DialogueEndRequested ==> (r@ == AggregateKeyView::Npc(self.payload->DialogueEndRequested_npc_id@)),
            self.payload is GuideRequested ==> (r@ == AggregateKeyView::Npc(self.payload->GuideRequested_npc_id@)),
            self.payload is GuideGenerated ==> (r@ == AggregateKeyView::Npc(self.payload->GuideGenerated_npc_id@)),
            self.payload is DialogueTurnCompleted ==> (r@ == AggregateKeyView::Npc(self.payload->DialogueTurnCompleted_npc_id@)),
            self.payload is EmotionCleared ==> (r@ == AggregateKeyView::Npc(self.payload->EmotionCleared_npc_id@)),
            self.payload is MemoryEntryCreated ==> (r@ == AggregateKeyView::Memory(self.payload->MemoryEntryCreated_entry_id@)),
            self.payload is MemoryEntrySuperseded ==> (r@ == AggregateKeyView::Memory(self.payload->MemoryEntrySuperseded_old_entry_id@)),
            self.payload is MemoryEntryConsolidated ==> (r@ == AggregateKeyView::Memory(self.payload->MemoryEntryConsolidated_b_entry_id@)),
            self.payload is SpreadRumorRequested ==> (r@ == AggregateKeyView::Rumor(self.payload->SpreadRumorRequested_rumor_id@)),
            self.payload is RumorSeeded ==> (r@ == AggregateKeyView::Rumor(self.payload->RumorSeeded_rumor_id@)),
            self.payload is RumorSpread ==> (r@ == AggregateKeyView::Rumor(self.payload->RumorSpread_rumor_id@)),
            self.payload is RumorDistorted ==> (r@ == AggregateKeyView::Rumor(self.payload->RumorDistorted_rumor_id@)),
            self.payload is RumorFaded ==> (r@ == AggregateKeyView::Rumor(self.payload->RumorFaded_rumor_id@)),
            self.payload is TellInformationRequested ==> (r@ == AggregateKeyView::Npc(self.payload->TellInformationRequested_speaker@)),
            self.payload is InformationTold ==> (r@ == AggregateKeyView::Npc(self.payload->InformationTold_listener@)),
            self.payload is SeedRumorRequested && self.payload->SeedRumorRequested_topic is Some ==> r@ == AggregateKeyView::Rumor(self.payload->SeedRumorRequested_topic->0@),
            self.payload is SeedRumorRequested && self.payload->SeedRumorRequested_topic is None ==> r@ == AggregateKeyView::Rumor("orphan"@),
    {
        match &self.payload {
            EventPayload::AppraiseRequested { npc_id, .. } => AggregateKey::Npc(npc_id.clone()),
            EventPayload::EmotionAppraised { npc_id, .. } => AggregateKey::Npc(npc_id.clone()),
            EventPayload::StimulusApplyRequested { npc_id, .. } => AggregateKey::Npc(npc_id.clone()),
            EventPayload::StimulusApplied { npc_id, .. } => AggregateKey::Npc(npc_id.clone()),
            EventPayload::BeatTransitioned { npc_id, .. } => AggregateKey::Npc(npc_id.clone()),
            EventPayload::SceneStartRequested { npc_id, .. } => AggregateKey::Npc(npc_id.clone()),
            EventPayload::SceneStarted { npc_id, partner_id, .. } => AggregateKey::Scene { npc_id: npc_id.clone(), partner_id: partner_id.clone() },
            EventPayload::SceneEnded { npc_id, partner_id } => AggregateKey::Scene { npc_id: npc_id.clone(), partner_id: partner_id.clone() },
            EventPayload::RelationshipUpdated { owner_id, target_id, .. } => AggregateKey::Relationship { owner_id: owner_id.clone(), target_id: target_id.clone() },
            EventPayload::RelationshipUpdateRequested { npc_id, partner_id, .. } => AggregateKey::Relationship { owner_id: npc_id.clone(), target_id: partner_id.clone() },
            EventPayload::DialogueEndRequested { npc_id, .. } => AggregateKey::Npc(npc_id.clone()),
            EventPayload::GuideRequested { npc_id, .. } => AggregateKey::Npc(npc_id.clone()),
            EventPayload::GuideGenerated { npc_id, .. } => AggregateKey::Npc(npc_id.clone()),
            EventPayload::DialogueTurnCompleted { npc_id, .. } => AggregateKey::Npc(npc_id.clone()),
            EventPayload::EmotionCleared { npc_id } => AggregateKey::Npc(npc_id.clone()),
            EventPayload::MemoryEntryCreated { entry_id, .. } => AggregateKey::Memory(entry_id.clone()),
            EventPayload::MemoryEntrySuperseded { old_entry_id, .. } => AggregateKey::Memory(old_entry_id.clone()),
            EventPayload::MemoryEntryConsolidated { b_entry_id, .. } => AggregateKey::Memory(b_entry_id.clone()),
            EventPayload::SeedRumorRequested { topic, .. } => match topic {
                Some(t) => AggregateKey::Rumor(t.clone()),
                None => AggregateKey::Rumor(String::from_str("orphan")),
            },
            EventPayload::SpreadRumorRequested { rumor_id, .. } => AggregateKey::Rumor(rumor_id.clone()),
            EventPayload::RumorSeeded { rumor_id, .. } => AggregateKey::Rumor(rumor_id.clone()),
            EventPayload::RumorSpread { rumor_id, .. } => AggregateKey::Rumor(rumor_id.clone()),
            EventPayload::RumorDistorted { rumor_id, .. } => AggregateKey::Rumor(rumor_id.clone()),
            EventPayload::RumorFaded { rumor_id } => AggregateKey::Rumor(rumor_id.clone()),
            EventPayload::TellInformationRequested { speaker, .. } => AggregateKey::Npc(speaker.clone()),
            EventPayload::InformationTold { listener, .. } => AggregateKey::Npc(listener.clone()),
        }
    }
}


impl DomainEvent {
    /// A new event stamped with the wall-clock time and no correlation.
    pub fn new(id: EventId, aggregate_id: String, sequence: u64, payload: EventPayload) -> (r: DomainEvent)
        ensures
            r.id == id,
            r.aggregate_id == aggregate_id,
            r.sequence == sequence,
            r.metadata.correlation_id is None,
            r.payload == payload,
    {
        DomainEvent {
            id,
            timestamp_ms: now_ms(),
            aggregate_id,
            sequence,
            metadata: EventMetadata::default(),
            payload,
        }
    }

    /// The same event, tied to the request `correlation_id`.
    pub fn with_correlation(self, correlation_id: u64) -> (r: DomainEvent)
        ensures
            r.id == self.id,
            r.timestamp_ms == self.timestamp_ms,
            r.aggregate_id == self.aggregate_id,
            r.sequence == self.sequence,
            r.metadata.correlation_id == Some(correlation_id),
            r.payload == self.payload,
    {
        let mut e = self;
        e.metadata.correlation_id = Some(correlation_id);
        e
    }
}

/// The log name of an event is the name of its kind: kind and name never
/// disagree.
pub proof fn law_payload_name_is_kind_name(p: EventPayload)
    ensures
        payload_name(p) == kind_name(payload_kind(p)),
{
}


/// Each event is routed to the aggregate its own fields name: the start
/// and end of a scene to the scene of its NPC and partner; relationship
/// events to the owner's relationship toward the target; appraisal,
/// stimulus, beat, guide, dialogue and clearing events to their NPC; memory
/// events to the entry they concern (a supersession to the old entry, a
/// consolidation to its result); every rumor event that carries a rumor id
/// to that rumor, and a seed request to its topic (or `orphan`); a request
/// to tell to the speaker, and what was told to the listener.
pub proof fn law_routing_by_payload(p: EventPayload)
    ensures
        p is AppraiseRequested ==> (route_of(p) == AggregateKeyView::Npc(p->AppraiseRequested_npc_id@)),
        p is EmotionAppraised ==> (route_of(p) == AggregateKeyView::Npc(p->EmotionAppraised_npc_id@)),
        p is StimulusApplyRequested ==> (route_of(p) == AggregateKeyView::Npc(p->StimulusApplyRequested_npc_id@)),
        p is StimulusApplied ==> (route_of(p) == AggregateKeyView::Npc(p->StimulusApplied_npc_id@)),
        p is BeatTransitioned ==> (route_of(p) == AggregateKeyView::Npc(p->BeatTransitioned_npc_id@)),
        p is SceneStartRequested ==> (route_of(p) == AggregateKeyView::Npc(p->SceneStartRequested_npc_id@)),
        p is SceneStarted ==> (route_of(p) == AggregateKeyView::Scene { npc_id: p->SceneStarted_npc_id@, partner_id: p->SceneStarted_partner_id@ }),
        p is SceneEnded ==> (route_of(p) == AggregateKeyView::Scene { npc_id: p->SceneEnded_npc_id@, partner_id: p->SceneEnded_partner_id@ }),
        p is RelationshipUpdated ==> (route_of(p) == AggregateKeyView::Relationship { owner_id: p->RelationshipUpdated_owner_id@, target_id: p->RelationshipUpdated_target_id@ }),
        p is RelationshipUpdateRequested ==> (route_of(p) == AggregateKeyView::Relationship { owner_id: p->RelationshipUpdateRequested_npc_id@, target_id: p->RelationshipUpdateRequested_partner_id@ }),
        p is DialogueEndRequested ==> (route_of(p) == AggregateKeyView::Npc(p->DialogueEndRequested_npc_id@)),
        p is GuideRequested ==> (route_of(p) == AggregateKeyView::Npc(p->GuideRequested_npc_id@)),
        p is GuideGenerated ==> (route_of(p) == AggregateKeyView::Npc(p->GuideGenerated_npc_id@)),
        p is DialogueTurnCompleted ==> (route_of(p) == AggregateKeyView::Npc(p->DialogueTurnCompleted_npc_id@)),
        p is EmotionCleared ==> (route_of(p) == AggregateKeyView::Npc(p->EmotionCleared_npc_id@)),
        p is MemoryEntryCreated ==> (route_of(p) == AggregateKeyView::Memory(p->MemoryEntryCreated_entry_id@)),
        p is MemoryEntrySuperseded ==> (route_of(p) == AggregateKeyView::Memory(p->MemoryEntrySuperseded_old_entry_id@)),
        p is MemoryEntryConsolidated ==> (route_of(p) == AggregateKeyView::Memory(p->MemoryEntryConsolidated_b_entry_id@)),
        p is SpreadRumorRequested ==> (route_of(p) == AggregateKeyView::Rumor(p->SpreadRumorRequested_rumor_id@)),
        p is RumorSeeded ==> (route_of(p) == AggregateKeyView::Rumor(p->RumorSeeded_rumor_id@)),
        p is RumorSpread ==> (route_of(p) == AggregateKeyView::Rumor(p->RumorSpread_rumor_id@)),
        p is RumorDistorted ==> (route_of(p) == AggregateKeyView::Rumor(p->RumorDistorted_rumor_id@)),
        p is RumorFaded ==> (route_of(p) == AggregateKeyView::Rumor(p->RumorFaded_rumor_id@)),
        p is TellInformationRequested ==> (route_of(p) == AggregateKeyView::Npc(p->TellInformationRequested_speaker@)),
        p is InformationTold ==> (route_of(p) == AggregateKeyView::Npc(p->InformationTold_listener@)),
        p is SeedRumorRequested && p->SeedRumorRequested_topic is Some ==> route_of(p) == AggregateKeyView::Rumor(p->SeedRumorRequested_topic->0@),
        p is SeedRumorRequested && p->SeedRumorRequested_topic is None ==> route_of(p) == AggregateKeyView::Rumor("orphan"@),
{
}

} // verus!
