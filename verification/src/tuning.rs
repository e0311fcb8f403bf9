//! Tuning parameters: the policy numbers of the engine, and the rules
//! that keep a profile of them coherent.
//!
//! The fractional parameters are 32-bit floats, held here as their bit
//! patterns (the value is given beside each default) and compared as
//! IEEE 754 floats.

use vstd::prelude::*;
use crate::float_bits::{at_least, greater_than, less_than, f32_ge, f32_lt, lemma_nonnegative_finite, lemma_nonpositive_finite};

verus! {

/// One day in milliseconds.
pub const DAY_MS: u64 = 86_400_000u64;

/// The bit pattern of 0.0.
pub const ZERO_BITS: u32 = 0u32;

/// The bit pattern of 1.0.
pub const ONE_BITS: u32 = 0x3F80_0000u32;

/// 0.5
pub const STIMULUS_IMPACT_RATE: u32 = 0x3F00_0000u32;
/// 0.05
pub const STIMULUS_FADE_THRESHOLD: u32 = 0x3D4C_CCCDu32;
/// 0.30
pub const STIMULUS_MIN_INERTIA: u32 = 0x3E99_999Au32;
/// 0.2
pub const BEAT_MERGE_THRESHOLD: u32 = 0x3E4C_CCCDu32;
/// 0.5
pub const BEAT_DEFAULT_SIGNIFICANCE: u32 = 0x3F00_0000u32;
/// 0.1
pub const TRUST_UPDATE_RATE: u32 = 0x3DCC_CCCDu32;
/// 0.05
pub const CLOSENESS_UPDATE_RATE: u32 = 0x3D4C_CCCDu32;
/// 3.0
pub const SIGNIFICANCE_SCALE: u32 = 0x4040_0000u32;
/// 0.3
pub const PAD_D_SCALE_WEIGHT: u32 = 0x3E99_999Au32;
/// 0.02
pub const PAD_AXIS_DEAD_ZONE: u32 = 0x3CA3_D70Au32;
/// 3.0
pub const PAD_AXIS_SCALE: u32 = 0x4040_0000u32;
/// 0.3
pub const MOOD_THRESHOLD: u32 = 0x3E99_999Au32;
/// 0.5
pub const HONESTY_RESTRICTION_THRESHOLD: u32 = 0x3F00_0000u32;
/// 0.2
pub const EMOTION_THRESHOLD: u32 = 0x3E4C_CCCDu32;
/// 0.3
pub const TRAIT_THRESHOLD: u32 = 0x3E99_999Au32;
/// 0.5
pub const REL_CLOSENESS_INTENSITY_WEIGHT: u32 = 0x3F00_0000u32;
/// 0.3
pub const REL_TRUST_EMOTION_WEIGHT: u32 = 0x3E99_999Au32;
/// 0.3
pub const REL_CLOSENESS_EMPATHY_WEIGHT: u32 = 0x3E99_999Au32;
/// 0.3
pub const REL_CLOSENESS_HOSTILITY_WEIGHT: u32 = 0x3E99_999Au32;
/// 60 (scores are on the ±100 scale)
pub const LEVEL_VERY_HIGH_THRESHOLD: u32 = 0x4270_0000u32;
/// 20
pub const LEVEL_HIGH_THRESHOLD: u32 = 0x41A0_0000u32;
/// -20
pub const LEVEL_LOW_THRESHOLD: u32 = 0xC1A0_0000u32;
/// -60
pub const LEVEL_VERY_LOW_THRESHOLD: u32 = 0xC270_0000u32;
/// 0.8
pub const LLM_BASE_TEMPERATURE: u32 = 0x3F4C_CCCDu32;
/// 0.1
pub const LLM_TEMP_OPENNESS_WEIGHT: u32 = 0x3DCC_CCCDu32;
/// 0.05
pub const LLM_TEMP_EXTRAVERSION_WEIGHT: u32 = 0x3D4C_CCCDu32;
/// 0.1
pub const LLM_TEMP_CONSCIENTIOUSNESS_WEIGHT: u32 = 0x3DCC_CCCDu32;
/// 0.05
pub const LLM_TEMP_HONESTY_WEIGHT: u32 = 0x3D4C_CCCDu32;
/// 0.9
pub const LLM_BASE_TOP_P: u32 = 0x3F66_6666u32;
/// 0.05
pub const LLM_TOP_P_OPENNESS_WEIGHT: u32 = 0x3D4C_CCCDu32;
/// 0.05
pub const LLM_TOP_P_CONSCIENTIOUSNESS_WEIGHT: u32 = 0x3D4C_CCCDu32;
/// 0.1
pub const LLM_TEMP_MIN: u32 = 0x3DCC_CCCDu32;
/// 1.1
pub const LLM_TEMP_MAX: u32 = 0x3F8C_CCCDu32;
/// 0.8
pub const LLM_TOP_P_MIN: u32 = 0x3F4C_CCCDu32;
/// 1.0
pub const LLM_TOP_P_MAX: u32 = 0x3F80_0000u32;
pub const SCENE_TASK_CHANNEL_CAPACITY: usize = 32usize;
/// 0.10
pub const MEMORY_RETENTION_CUTOFF: u32 = 0x3DCC_CCCDu32;
/// 0.15
pub const RECALL_BOOST_FACTOR: u32 = 0x3E19_999Au32;
/// 0.30
pub const EMOTION_PROXIMITY_BONUS: u32 = 0x3E99_999Au32;
/// 3.0
pub const RECENCY_BOOST_TAU_DAYS: u32 = 0x4040_0000u32;
/// 0.85
pub const SIMILARITY_CLUSTER_THRESHOLD: u32 = 0x3F59_999Au32;
/// 30.0
pub const DECAY_TAU_DEFAULT_DAYS: u32 = 0x41F0_0000u32;
/// 1.00
pub const SOURCE_W_EXPERIENCED: u32 = 0x3F80_0000u32;
/// 0.85
pub const SOURCE_W_WITNESSED: u32 = 0x3F59_999Au32;
/// 0.60
pub const SOURCE_W_HEARD: u32 = 0x3F19_999Au32;
/// 0.35
pub const SOURCE_W_RUMOR: u32 = 0x3EB3_3333u32;
pub const MEMORY_PUSH_TOP_K: usize = 5usize;
pub const MEMORY_PROMPT_TOKEN_BUDGET: usize = 400usize;
/// 0.8
pub const RUMOR_HOP_CONFIDENCE_DECAY: u32 = 0x3F4C_CCCDu32;
/// 0.1
pub const RUMOR_MIN_CONFIDENCE: u32 = 0x3DCC_CCCDu32;
/// 0.05
pub const MEMORY_RELATIONSHIP_DELTA_THRESHOLD: u32 = 0x3D4C_CCCDu32;

/// The tuning profile.
#[derive(Debug, Clone, PartialEq, Eq, Structural)]
pub struct TuningProfile {
    pub stimulus_impact_rate: u32,
    pub stimulus_fade_threshold: u32,
    pub stimulus_min_inertia: u32,
    pub beat_merge_threshold: u32,
    pub beat_default_significance: u32,
    pub trust_update_rate: u32,
    pub closeness_update_rate: u32,
    pub significance_scale: u32,
    pub pad_d_scale_weight: u32,
    pub pad_axis_dead_zone: u32,
    pub pad_axis_scale: u32,
    pub mood_threshold: u32,
    pub honesty_restriction_threshold: u32,
    pub emotion_threshold: u32,
    pub trait_threshold: u32,
    pub rel_closeness_intensity_weight: u32,
    pub rel_trust_emotion_weight: u32,
    pub rel_closeness_empathy_weight: u32,
    pub rel_closeness_hostility_weight: u32,
    pub level_very_high_threshold: u32,
    pub level_high_threshold: u32,
    pub level_low_threshold: u32,
    pub level_very_low_threshold: u32,
    pub llm_base_temperature: u32,
    pub llm_temp_openness_weight: u32,
    pub llm_temp_extraversion_weight: u32,
    pub llm_temp_conscientiousness_weight: u32,
    pub llm_temp_honesty_weight: u32,
    pub llm_base_top_p: u32,
    pub llm_top_p_openness_weight: u32,
    pub llm_top_p_conscientiousness_weight: u32,
    pub llm_temp_min: u32,
    pub llm_temp_max: u32,
    pub llm_top_p_min: u32,
    pub llm_top_p_max: u32,
    pub scene_task_channel_capacity: usize,
    pub memory_retention_cutoff: u32,
    pub recall_boost_factor: u32,
    pub emotion_proximity_bonus: u32,
    pub recency_boost_tau_days: u32,
    pub similarity_cluster_threshold: u32,
    pub decay_tau_default_days: u32,
    pub source_w_experienced: u32,
    pub source_w_witnessed: u32,
    pub source_w_heard: u32,
    pub source_w_rumor: u32,
    pub memory_push_top_k: usize,
    pub memory_prompt_token_budget: usize,
    pub rumor_hop_confidence_decay: u32,
    pub rumor_min_confidence: u32,
    pub memory_relationship_delta_threshold: u32,
}

impl TuningProfile {
    /// The default profile: every parameter at its default constant.
    pub open spec fn default_spec() -> TuningProfile {
        TuningProfile {
            stimulus_impact_rate: STIMULUS_IMPACT_RATE,
            stimulus_fade_threshold: STIMULUS_FADE_THRESHOLD,
            stimulus_min_inertia: STIMULUS_MIN_INERTIA,
            beat_merge_threshold: BEAT_MERGE_THRESHOLD,
            beat_default_significance: BEAT_DEFAULT_SIGNIFICANCE,
            trust_update_rate: TRUST_UPDATE_RATE,
            closeness_update_rate: CLOSENESS_UPDATE_RATE,
            significance_scale: SIGNIFICANCE_SCALE,
            pad_d_scale_weight: PAD_D_SCALE_WEIGHT,
            pad_axis_dead_zone: PAD_AXIS_DEAD_ZONE,
            pad_axis_scale: PAD_AXIS_SCALE,
            mood_threshold: MOOD_THRESHOLD,
            honesty_restriction_threshold: HONESTY_RESTRICTION_THRESHOLD,
            emotion_threshold: EMOTION_THRESHOLD,
            trait_threshold: TRAIT_THRESHOLD,
            rel_closeness_intensity_weight: REL_CLOSENESS_INTENSITY_WEIGHT,
            rel_trust_emotion_weight: REL_TRUST_EMOTION_WEIGHT,
            rel_closeness_empathy_weight: REL_CLOSENESS_EMPATHY_WEIGHT,
            rel_closeness_hostility_weight: REL_CLOSENESS_HOSTILITY_WEIGHT,
            level_very_high_threshold: LEVEL_VERY_HIGH_THRESHOLD,
            level_high_threshold: LEVEL_HIGH_THRESHOLD,
            level_low_threshold: LEVEL_LOW_THRESHOLD,
            level_very_low_threshold: LEVEL_VERY_LOW_THRESHOLD,
            llm_base_temperature: LLM_BASE_TEMPERATURE,
            llm_temp_openness_weight: LLM_TEMP_OPENNESS_WEIGHT,
            llm_temp_extraversion_weight: LLM_TEMP_EXTRAVERSION_WEIGHT,
            llm_temp_conscientiousness_weight: LLM_TEMP_CONSCIENTIOUSNESS_WEIGHT,
            llm_temp_honesty_weight: LLM_TEMP_HONESTY_WEIGHT,
            llm_base_top_p: LLM_BASE_TOP_P,
            llm_top_p_openness_weight: LLM_TOP_P_OPENNESS_WEIGHT,
            llm_top_p_conscientiousness_weight: LLM_TOP_P_CONSCIENTIOUSNESS_WEIGHT,
            llm_temp_min: LLM_TEMP_MIN,
            llm_temp_max: LLM_TEMP_MAX,
            llm_top_p_min: LLM_TOP_P_MIN,
            llm_top_p_max: LLM_TOP_P_MAX,
            scene_task_channel_capacity: SCENE_TASK_CHANNEL_CAPACITY,
            memory_retention_cutoff: MEMORY_RETENTION_CUTOFF,
            recall_boost_factor: RECALL_BOOST_FACTOR,
            emotion_proximity_bonus: EMOTION_PROXIMITY_BONUS,
            recency_boost_tau_days: RECENCY_BOOST_TAU_DAYS,
            similarity_cluster_threshold: SIMILARITY_CLUSTER_THRESHOLD,
            decay_tau_default_days: DECAY_TAU_DEFAULT_DAYS,
            source_w_experienced: SOURCE_W_EXPERIENCED,
            source_w_witnessed: SOURCE_W_WITNESSED,
            source_w_heard: SOURCE_W_HEARD,
            source_w_rumor: SOURCE_W_RUMOR,
            memory_push_top_k: MEMORY_PUSH_TOP_K,
            memory_prompt_token_budget: MEMORY_PROMPT_TOKEN_BUDGET,
            rumor_hop_confidence_decay: RUMOR_HOP_CONFIDENCE_DECAY,
            rumor_min_confidence: RUMOR_MIN_CONFIDENCE,
            memory_relationship_delta_threshold: MEMORY_RELATIONSHIP_DELTA_THRESHOLD,
        }
    }
}

impl Default for TuningProfile {
    fn default() -> (r: TuningProfile)
        ensures
            r == TuningProfile::default_spec(),
    {
        TuningProfile {
            stimulus_impact_rate: STIMULUS_IMPACT_RATE,
            stimulus_fade_threshold: STIMULUS_FADE_THRESHOLD,
            stimulus_min_inertia: STIMULUS_MIN_INERTIA,
            beat_merge_threshold: BEAT_MERGE_THRESHOLD,
            beat_default_significance: BEAT_DEFAULT_SIGNIFICANCE,
            trust_update_rate: TRUST_UPDATE_RATE,
            closeness_update_rate: CLOSENESS_UPDATE_RATE,
            significance_scale: SIGNIFICANCE_SCALE,
            pad_d_scale_weight: PAD_D_SCALE_WEIGHT,
            pad_axis_dead_zone: PAD_AXIS_DEAD_ZONE,
            pad_axis_scale: PAD_AXIS_SCALE,
            mood_threshold: MOOD_THRESHOLD,
            honesty_restriction_threshold: HONESTY_RESTRICTION_THRESHOLD,
            emotion_threshold: EMOTION_THRESHOLD,
            trait_threshold: TRAIT_THRESHOLD,
            rel_closeness_intensity_weight: REL_CLOSENESS_INTENSITY_WEIGHT,
            rel_trust_emotion_weight: REL_TRUST_EMOTION_WEIGHT,
            rel_closeness_empathy_weight: REL_CLOSENESS_EMPATHY_WEIGHT,
            rel_closeness_hostility_weight: REL_CLOSENESS_HOSTILITY_WEIGHT,
            level_very_high_threshold: LEVEL_VERY_HIGH_THRESHOLD,
            level_high_threshold: LEVEL_HIGH_THRESHOLD,
            level_low_threshold: LEVEL_LOW_THRESHOLD,
            level_very_low_threshold: LEVEL_VERY_LOW_THRESHOLD,
            llm_base_temperature: LLM_BASE_TEMPERATURE,
            llm_temp_openness_weight: LLM_TEMP_OPENNESS_WEIGHT,
            llm_temp_extraversion_weight: LLM_TEMP_EXTRAVERSION_WEIGHT,
            llm_temp_conscientiousness_weight: LLM_TEMP_CONSCIENTIOUSNESS_WEIGHT,
            llm_temp_honesty_weight: LLM_TEMP_HONESTY_WEIGHT,
            llm_base_top_p: LLM_BASE_TOP_P,
            llm_top_p_openness_weight: LLM_TOP_P_OPENNESS_WEIGHT,
            llm_top_p_conscientiousness_weight: LLM_TOP_P_CONSCIENTIOUSNESS_WEIGHT,
            llm_temp_min: LLM_TEMP_MIN,
            llm_temp_max: LLM_TEMP_MAX,
            llm_top_p_min: LLM_TOP_P_MIN,
            llm_top_p_max: LLM_TOP_P_MAX,
            scene_task_channel_capacity: SCENE_TASK_CHANNEL_CAPACITY,
            memory_retention_cutoff: MEMORY_RETENTION_CUTOFF,
            recall_boost_factor: RECALL_BOOST_FACTOR,
            emotion_proximity_bonus: EMOTION_PROXIMITY_BONUS,
            recency_boost_tau_days: RECENCY_BOOST_TAU_DAYS,
            similarity_cluster_threshold: SIMILARITY_CLUSTER_THRESHOLD,
            decay_tau_default_days: DECAY_TAU_DEFAULT_DAYS,
            source_w_experienced: SOURCE_W_EXPERIENCED,
            source_w_witnessed: SOURCE_W_WITNESSED,
            source_w_heard: SOURCE_W_HEARD,
            source_w_rumor: SOURCE_W_RUMOR,
            memory_push_top_k: MEMORY_PUSH_TOP_K,
            memory_prompt_token_budget: MEMORY_PROMPT_TOKEN_BUDGET,
            rumor_hop_confidence_decay: RUMOR_HOP_CONFIDENCE_DECAY,
            rumor_min_confidence: RUMOR_MIN_CONFIDENCE,
            memory_relationship_delta_threshold: MEMORY_RELATIONSHIP_DELTA_THRESHOLD,
        }
    }
}

/// `lo < x < hi` on floats.
pub open spec fn f32_open_between(lo: u32, x: u32, hi: u32) -> bool {
    f32_lt(lo, x) && f32_lt(x, hi)
}

/// The first rule the profile breaks, as its message; `None` when it is
/// coherent. The rules, in order: the stimulus impact rate lies in (0, 1];
/// the fade threshold lies below the minimum inertia, which lies in (0, 1);
/// the beat merge threshold lies in (0, 1); closeness moves slower than
/// trust; the level thresholds strictly decrease; the temperature base lies
/// strictly between its bounds; the top-p base lies above its minimum and
/// at most its maximum; the source weights strictly decrease from
/// experienced to rumor; the rumor hop decay and the retention cutoff lie
/// in (0, 1); the memory top-k and the scene channel capacity are positive.
pub open spec fn tuning_fault(p: TuningProfile) -> Option<Seq<char>> {
    if !(f32_lt(ZERO_BITS, p.stimulus_impact_rate) && f32_ge(ONE_BITS, p.stimulus_impact_rate)) {
        Some("stimulus_impact_rate must be in (0, 1]"@)
    } else if !f32_lt(p.stimulus_fade_threshold, p.stimulus_min_inertia) {
        Some("stimulus_fade_threshold must be < stimulus_min_inertia"@)
    } else if !f32_open_between(ZERO_BITS, p.stimulus_min_inertia, ONE_BITS) {
        Some("stimulus_min_inertia must be in (0, 1)"@)
    } else if !f32_open_between(ZERO_BITS, p.beat_merge_threshold, ONE_BITS) {
        Some("beat_merge_threshold must be in (0, 1)"@)
    } else if !f32_lt(p.closeness_update_rate, p.trust_update_rate) {
        Some("closeness_update_rate must be < trust_update_rate"@)
    } else if !(f32_lt(p.level_high_threshold, p.level_very_high_threshold) && f32_lt(
        p.level_low_threshold,
        p.level_high_threshold,
    ) && f32_lt(p.level_very_low_threshold, p.level_low_threshold)) {
        Some("level thresholds must be strictly decreasing"@)
    } else if !f32_open_between(p.llm_temp_min, p.llm_base_temperature, p.llm_temp_max) {
        Some("llm temperature: min < base < max"@)
    } else if !(f32_lt(p.llm_top_p_min, p.llm_base_top_p) && f32_ge(p.llm_top_p_max, p.llm_base_top_p)) {
        Some("llm top_p: min < base <= max"@)
    } else if !(f32_lt(p.source_w_witnessed, p.source_w_experienced) && f32_lt(
        p.source_w_heard,
        p.source_w_witnessed,
    ) && f32_lt(p.source_w_rumor, p.source_w_heard)) {
        Some("source weights must be strictly decreasing: Exp > Wit > Heard > Rumor"@)
    } else if !f32_open_between(ZERO_BITS, p.rumor_hop_confidence_decay, ONE_BITS) {
        Some("rumor_hop_confidence_decay must be in (0, 1)"@)
    } else if !f32_open_between(ZERO_BITS, p.memory_retention_cutoff, ONE_BITS) {
        Some("memory_retention_cutoff must be in (0, 1)"@)
    } else if p.memory_push_top_k == 0 {
        Some("memory_push_top_k must be > 0"@)
    } else if p.scene_task_channel_capacity == 0 {
        Some("scene_task_channel_capacity must be > 0"@)
    } else {
        None
    }
}

/// `lo < x < hi` on the floats with these bit patterns.
fn open_between(lo: u32, x: u32, hi: u32) -> (r: bool)
    ensures
        r == f32_open_between(lo, x, hi),
{
    less_than(lo, x) && less_than(x, hi)
}

impl TuningProfile {
    /// Checks that the profile is coherent; the error is the message of
    /// the first rule it breaks.
    pub fn validate(&self) -> (r: Result<(), &'static str>)
        ensures
            match r {
                Ok(()) => tuning_fault(*self) is None,
                Err(m) => tuning_fault(*self) == Some(m@),
            },            r is Ok <==> ((f32_lt(ZERO_BITS, self.stimulus_impact_rate) && f32_ge(ONE_BITS, self.stimulus_impact_rate)) && (f32_lt(self.stimulus_fade_threshold, self.stimulus_min_inertia)) && (f32_lt(ZERO_BITS, self.stimulus_min_inertia) && f32_lt(self.stimulus_min_inertia, ONE_BITS)) && (f32_lt(ZERO_BITS, self.beat_merge_threshold) && f32_lt(self.beat_merge_threshold, ONE_BITS)) && (f32_lt(self.closeness_update_rate, self.trust_update_rate)) && (f32_lt(self.level_high_threshold, self.level_very_high_threshold) && f32_lt(self.level_low_threshold, self.level_high_threshold) && f32_lt(self.level_very_low_threshold, self.level_low_threshold)) && (f32_lt(self.llm_temp_min, self.llm_base_temperature) && f32_lt(self.llm_base_temperature, self.llm_temp_max)) && (f32_lt(self.llm_top_p_min, self.llm_base_top_p) && f32_ge(self.llm_top_p_max, self.llm_base_top_p)) && (f32_lt(self.source_w_witnessed, self.source_w_experienced) && f32_lt(self.source_w_heard, self.source_w_witnessed) && f32_lt(self.source_w_rumor, self.source_w_heard)) && (f32_lt(ZERO_BITS, self.rumor_hop_confidence_decay) && f32_lt(self.rumor_hop_confidence_decay, ONE_BITS)) && (f32_lt(ZERO_BITS, self.memory_retention_cutoff) && f32_lt(self.memory_retention_cutoff, ONE_BITS)) && (self.memory_push_top_k > 0) && (self.scene_task_channel_capacity > 0)),
            !(f32_lt(ZERO_BITS, self.stimulus_impact_rate) && f32_ge(ONE_BITS, self.stimulus_impact_rate)) ==> (r matches Err(e) && e@ == "stimulus_impact_rate must be in (0, 1]"@),
            (f32_lt(ZERO_BITS, self.stimulus_impact_rate) && f32_ge(ONE_BITS, self.stimulus_impact_rate)) && !(f32_lt(self.stimulus_fade_threshold, self.stimulus_min_inertia)) ==> (r matches Err(e) && e@ == "stimulus_fade_threshold must be < stimulus_min_inertia"@),
            (f32_lt(ZERO_BITS, self.stimulus_impact_rate) && f32_ge(ONE_BITS, self.stimulus_impact_rate)) && (f32_lt(self.stimulus_fade_threshold, self.stimulus_min_inertia)) && !(f32_lt(ZERO_BITS, self.stimulus_min_inertia) && f32_lt(self.stimulus_min_inertia, ONE_BITS)) ==> (r matches Err(e) && e@ == "stimulus_min_inertia must be in (0, 1)"@),
            (f32_lt(ZERO_BITS, self.stimulus_impact_rate) && f32_ge(ONE_BITS, self.stimulus_impact_rate)) && (f32_lt(self.stimulus_fade_threshold, self.stimulus_min_inertia)) && (f32_lt(ZERO_BITS, self.stimulus_min_inertia) && f32_lt(self.stimulus_min_inertia, ONE_BITS)) && !(f32_lt(ZERO_BITS, self.beat_merge_threshold) && f32_lt(self.beat_merge_threshold, ONE_BITS)) ==> (r matches Err(e) && e@ == "beat_merge_threshold must be in (0, 1)"@),
            (f32_lt(ZERO_BITS, self.stimulus_impact_rate) && f32_ge(ONE_BITS, self.stimulus_impact_rate)) && (f32_lt(self.stimulus_fade_threshold, self.stimulus_min_inertia)) && (f32_lt(ZERO_BITS, self.stimulus_min_inertia) && f32_lt(self.stimulus_min_inertia, ONE_BITS)) && (f32_lt(ZERO_BITS, self.beat_merge_threshold) && f32_lt(self.beat_merge_threshold, ONE_BITS)) && !(f32_lt(self.closeness_update_rate, self.trust_update_rate)) ==> (r matches Err(e) && e@ == "closeness_update_rate must be < trust_update_rate"@),
            (f32_lt(ZERO_BITS, self.stimulus_impact_rate) && f32_ge(ONE_BITS, self.stimulus_impact_rate)) && (f32_lt(self.stimulus_fade_threshold, self.stimulus_min_inertia)) && (f32_lt(ZERO_BITS, self.stimulus_min_inertia) && f32_lt(self.stimulus_min_inertia, ONE_BITS)) && (f32_lt(ZERO_BITS, self.beat_merge_threshold) && f32_lt(self.beat_merge_threshold, ONE_BITS)) && (f32_lt(self.closeness_update_rate, self.trust_update_rate)) && !(f32_lt(self.level_high_threshold, self.level_very_high_threshold) && f32_lt(self.level_low_threshold, self.level_high_threshold) && f32_lt(self.level_very_low_threshold, self.level_low_threshold)) ==> (r matches Err(e) && e@ == "level thresholds must be strictly decreasing"@),
            (f32_lt(ZERO_BITS, self.stimulus_impact_rate) && f32_ge(ONE_BITS, self.stimulus_impact_rate)) && (f32_lt(self.stimulus_fade_threshold, self.stimulus_min_inertia)) && (f32_lt(ZERO_BITS, self.stimulus_min_inertia) && f32_lt(self.stimulus_min_inertia, ONE_BITS)) && (f32_lt(ZERO_BITS, self.beat_merge_threshold) && f32_lt(self.beat_merge_threshold, ONE_BITS)) && (f32_lt(self.closeness_update_rate, self.trust_update_rate)) && (f32_lt(self.level_high_threshold, self.level_very_high_threshold) && f32_lt(self.level_low_threshold, self.level_high_threshold) && f32_lt(self.level_very_low_threshold, self.level_low_threshold)) && !(f32_lt(self.llm_temp_min, self.llm_base_temperature) && f32_lt(self.llm_base_temperature, self.llm_temp_max)) ==> (r matches Err(e) && e@ == "llm temperature: min < base < max"@),
            (f32_lt(ZERO_BITS, self.stimulus_impact_rate) && f32_ge(ONE_BITS, self.stimulus_impact_rate)) && (f32_lt(self.stimulus_fade_threshold, self.stimulus_min_inertia)) && (f32_lt(ZERO_BITS, self.stimulus_min_inertia) && f32_lt(self.stimulus_min_inertia, ONE_BITS)) && (f32_lt(ZERO_BITS, self.beat_merge_threshold) && f32_lt(self.beat_merge_threshold, ONE_BITS)) && (f32_lt(self.closeness_update_rate, self.trust_update_rate)) && (f32_lt(self.level_high_threshold, self.level_very_high_threshold) && f32_lt(self.level_low_threshold, self.level_high_threshold) && f32_lt(self.level_very_low_threshold, self.level_low_threshold)) && (f32_lt(self.llm_temp_min, self.llm_base_temperature) && f32_lt(self.llm_base_temperature, self.llm_temp_max)) && !(f32_lt(self.llm_top_p_min, self.llm_base_top_p) && f32_ge(self.llm_top_p_max, self.llm_base_top_p)) ==> (r matches Err(e) && e@ == "llm top_p: min < base <= max"@),
            (f32_lt(ZERO_BITS, self.stimulus_impact_rate) && f32_ge(ONE_BITS, self.stimulus_impact_rate)) && (f32_lt(self.stimulus_fade_threshold, self.stimulus_min_inertia)) && (f32_lt(ZERO_BITS, self.stimulus_min_inertia) && f32_lt(self.stimulus_min_inertia, ONE_BITS)) && (f32_lt(ZERO_BITS, self.beat_merge_threshold) && f32_lt(self.beat_merge_threshold, ONE_BITS)) && (f32_lt(self.closeness_update_rate, self.trust_update_rate)) && (f32_lt(self.level_high_threshold, self.level_very_high_threshold) && f32_lt(self.level_low_threshold, self.level_high_threshold) && f32_lt(self.level_very_low_threshold, self.level_low_threshold)) && (f32_lt(self.llm_temp_min, self.llm_base_temperature) && f32_lt(self.llm_base_temperature, self.llm_temp_max)) && (f32_lt(self.llm_top_p_min, self.llm_base_top_p) && f32_ge(self.llm_top_p_max, self.llm_base_top_p)) && !(f32_lt(self.source_w_witnessed, self.source_w_experienced) && f32_lt(self.source_w_heard, self.source_w_witnessed) && f32_lt(self.source_w_rumor, self.source_w_heard)) ==> (r matches Err(e) && e@ == "source weights must be strictly decreasing: Exp > Wit > Heard > Rumor"@),
            (f32_lt(ZERO_BITS, self.stimulus_impact_rate) && f32_ge(ONE_BITS, self.stimulus_impact_rate)) && (f32_lt(self.stimulus_fade_threshold, self.stimulus_min_inertia)) && (f32_lt(ZERO_BITS, self.stimulus_min_inertia) && f32_lt(self.stimulus_min_inertia, ONE_BITS)) && (f32_lt(ZERO_BITS, self.beat_merge_threshold) && f32_lt(self.beat_merge_threshold, ONE_BITS)) && (f32_lt(self.closeness_update_rate, self.trust_update_rate)) && (f32_lt(self.level_high_threshold, self.level_very_high_threshold) && f32_lt(self.level_low_threshold, self.level_high_threshold) && f32_lt(self.level_very_low_threshold, self.level_low_threshold)) && (f32_lt(self.llm_temp_min, self.llm_base_temperature) && f32_lt(self.llm_base_temperature, self.llm_temp_max)) && (f32_lt(self.llm_top_p_min, self.llm_base_top_p) && f32_ge(self.llm_top_p_max, self.llm_base_top_p)) && (f32_lt(self.source_w_witnessed, self.source_w_experienced) && f32_lt(self.source_w_heard, self.source_w_witnessed) && f32_lt(self.source_w_rumor, self.source_w_heard)) && !(f32_lt(ZERO_BITS, self.rumor_hop_confidence_decay) && f32_lt(self.rumor_hop_confidence_decay, ONE_BITS)) ==> (r matches Err(e) && e@ == "rumor_hop_confidence_decay must be in (0, 1)"@),
            (f32_lt(ZERO_BITS, self.stimulus_impact_rate) && f32_ge(ONE_BITS, self.stimulus_impact_rate)) && (f32_lt(self.stimulus_fade_threshold, self.stimulus_min_inertia)) && (f32_lt(ZERO_BITS, self.stimulus_min_inertia) && f32_lt(self.stimulus_min_inertia, ONE_BITS)) && (f32_lt(ZERO_BITS, self.beat_merge_threshold) && f32_lt(self.beat_merge_threshold, ONE_BITS)) && (f32_lt(self.closeness_update_rate, self.trust_update_rate)) && (f32_lt(self.level_high_threshold, self.level_very_high_threshold) && f32_lt(self.level_low_threshold, self.level_high_threshold) && f32_lt(self.level_very_low_threshold, self.level_low_threshold)) && (f32_lt(self.llm_temp_min, self.llm_base_temperature) && f32_lt(self.llm_base_temperature, self.llm_temp_max)) && (f32_lt(self.llm_top_p_min, self.llm_base_top_p) && f32_ge(self.llm_top_p_max, self.llm_base_top_p)) && (f32_lt(self.source_w_witnessed, self.source_w_experienced) && f32_lt(self.source_w_heard, self.source_w_witnessed) && f32_lt(self.source_w_rumor, self.source_w_heard)) && (f32_lt(ZERO_BITS, self.rumor_hop_confidence_decay) && f32_lt(self.rumor_hop_confidence_decay, ONE_BITS)) && !(f32_lt(ZERO_BITS, self.memory_retention_cutoff) && f32_lt(self.memory_retention_cutoff, ONE_BITS)) ==> (r matches Err(e) && e@ == "memory_retention_cutoff must be in (0, 1)"@),
            (f32_lt(ZERO_BITS, self.stimulus_impact_rate) && f32_ge(ONE_BITS, self.stimulus_impact_rate)) && (f32_lt(self.stimulus_fade_threshold, self.stimulus_min_inertia)) && (f32_lt(ZERO_BITS, self.stimulus_min_inertia) && f32_lt(self.stimulus_min_inertia, ONE_BITS)) && (f32_lt(ZERO_BITS, self.beat_merge_threshold) && f32_lt(self.beat_merge_threshold, ONE_BITS)) && (f32_lt(self.closeness_update_rate, self.trust_update_rate)) && (f32_lt(self.level_high_threshold, self.level_very_high_threshold) && f32_lt(self.level_low_threshold, self.level_high_threshold) && f32_lt(self.level_very_low_threshold, self.level_low_threshold)) && (f32_lt(self.llm_temp_min, self.llm_base_temperature) && f32_lt(self.llm_base_temperature, self.llm_temp_max)) && (f32_lt(self.llm_top_p_min, self.llm_base_top_p) && f32_ge(self.llm_top_p_max, self.llm_base_top_p)) && (f32_lt(self.source_w_witnessed, self.source_w_experienced) && f32_lt(self.source_w_heard, self.source_w_witnessed) && f32_lt(self.source_w_rumor, self.source_w_heard)) && (f32_lt(ZERO_BITS, self.rumor_hop_confidence_decay) && f32_lt(self.rumor_hop_confidence_decay, ONE_BITS)) && (f32_lt(ZERO_BITS, self.memory_retention_cutoff) && f32_lt(self.memory_retention_cutoff, ONE_BITS)) && !(self.memory_push_top_k > 0) ==> (r matches Err(e) && e@ == "memory_push_top_k must be > 0"@),
            (f32_lt(ZERO_BITS, self.stimulus_impact_rate) && f32_ge(ONE_BITS, self.stimulus_impact_rate)) && (f32_lt(self.stimulus_fade_threshold, self.stimulus_min_inertia)) && (f32_lt(ZERO_BITS, self.stimulus_min_inertia) && f32_lt(self.stimulus_min_inertia, ONE_BITS)) && (f32_lt(ZERO_BITS, self.beat_merge_threshold) && f32_lt(self.beat_merge_threshold, ONE_BITS)) && (f32_lt(self.closeness_update_rate, self.trust_update_rate)) && (f32_lt(self.level_high_threshold, self.level_very_high_threshold) && f32_lt(self.level_low_threshold, self.level_high_threshold) && f32_lt(self.level_very_low_threshold, self.level_low_threshold)) && (f32_lt(self.llm_temp_min, self.llm_base_temperature) && f32_lt(self.llm_base_temperature, self.llm_temp_max)) && (f32_lt(self.llm_top_p_min, self.llm_base_top_p) && f32_ge(self.llm_top_p_max, self.llm_base_top_p)) && (f32_lt(self.source_w_witnessed, self.source_w_experienced) && f32_lt(self.source_w_heard, self.source_w_witnessed) && f32_lt(self.source_w_rumor, self.source_w_heard)) && (f32_lt(ZERO_BITS, self.rumor_hop_confidence_decay) && f32_lt(self.rumor_hop_confidence_decay, ONE_BITS)) && (f32_lt(ZERO_BITS, self.memory_retention_cutoff) && f32_lt(self.memory_retention_cutoff, ONE_BITS)) && (self.memory_push_top_k > 0) && !(self.scene_task_channel_capacity > 0) ==> (r matches Err(e) && e@ == "scene_task_channel_capacity must be > 0"@),
    {
        if !(greater_than(self.stimulus_impact_rate, ZERO_BITS) && at_least(ONE_BITS, self.stimulus_impact_rate)) {
            return Err("stimulus_impact_rate must be in (0, 1]");
        }
        if !less_than(self.stimulus_fade_threshold, self.stimulus_min_inertia) {
            return Err("stimulus_fade_threshold must be < stimulus_min_inertia");
        }
        if !open_between(ZERO_BITS, self.stimulus_min_inertia, ONE_BITS) {
            return Err("stimulus_min_inertia must be in (0, 1)");
        }
        if !open_between(ZERO_BITS, self.beat_merge_threshold, ONE_BITS) {
            return Err("beat_merge_threshold must be in (0, 1)");
        }
        if !less_than(self.closeness_update_rate, self.trust_update_rate) {
            return Err("closeness_update_rate must be < trust_update_rate");
        }
        if !(greater_than(self.level_very_high_threshold, self.level_high_threshold) && greater_than(
            self.level_high_threshold,
            self.level_low_threshold,
        ) && greater_than(self.level_low_threshold, self.level_very_low_threshold)) {
            return Err("level thresholds must be strictly decreasing");
        }
        if !open_between(self.llm_temp_min, self.llm_base_temperature, self.llm_temp_max) {
            return Err("llm temperature: min < base < max");
        }
        if !(less_than(self.llm_top_p_min, self.llm_base_top_p) && at_least(self.llm_top_p_max, self.llm_base_top_p)) {
            return Err("llm top_p: min < base <= max");
        }
        if !(greater_than(self.source_w_experienced, self.source_w_witnessed) && greater_than(
            self.source_w_witnessed,
            self.source_w_heard,
        ) && greater_than(self.source_w_heard, self.source_w_rumor)) {
            return Err("source weights must be strictly decreasing: Exp > Wit > Heard > Rumor");
        }
        if !open_between(ZERO_BITS, self.rumor_hop_confidence_decay, ONE_BITS) {
            return Err("rumor_hop_confidence_decay must be in (0, 1)");
        }
        if !open_between(ZERO_BITS, self.memory_retention_cutoff, ONE_BITS) {
            return Err("memory_retention_cutoff must be in (0, 1)");
        }
        if self.memory_push_top_k == 0 {
            return Err("memory_push_top_k must be > 0");
        }
        if self.scene_task_channel_capacity == 0 {
            return Err("scene_task_channel_capacity must be > 0");
        }
        Ok(())
    }
}

/// The default profile is coherent.
pub proof fn law_default_profile_is_valid()
    ensures
        tuning_fault(TuningProfile::default_spec()) is None,
{
    lemma_nonnegative_finite(ZERO_BITS);
    lemma_nonnegative_finite(ONE_BITS);
    lemma_nonnegative_finite(STIMULUS_IMPACT_RATE);
    lemma_nonnegative_finite(STIMULUS_FADE_THRESHOLD);
    lemma_nonnegative_finite(STIMULUS_MIN_INERTIA);
    lemma_nonnegative_finite(BEAT_MERGE_THRESHOLD);
    lemma_nonnegative_finite(BEAT_DEFAULT_SIGNIFICANCE);
    lemma_nonnegative_finite(TRUST_UPDATE_RATE);
    lemma_nonnegative_finite(CLOSENESS_UPDATE_RATE);
    lemma_nonnegative_finite(SIGNIFICANCE_SCALE);
    lemma_nonnegative_finite(PAD_D_SCALE_WEIGHT);
    lemma_nonnegative_finite(PAD_AXIS_DEAD_ZONE);
    lemma_nonnegative_finite(PAD_AXIS_SCALE);
    lemma_nonnegative_finite(MOOD_THRESHOLD);
    lemma_nonnegative_finite(HONESTY_RESTRICTION_THRESHOLD);
    lemma_nonnegative_finite(EMOTION_THRESHOLD);
    lemma_nonnegative_finite(TRAIT_THRESHOLD);
    lemma_nonnegative_finite(REL_CLOSENESS_INTENSITY_WEIGHT);
    lemma_nonnegative_finite(REL_TRUST_EMOTION_WEIGHT);
    lemma_nonnegative_finite(REL_CLOSENESS_EMPATHY_WEIGHT);
    lemma_nonnegative_finite(REL_CLOSENESS_HOSTILITY_WEIGHT);
    lemma_nonnegative_finite(LEVEL_VERY_HIGH_THRESHOLD);
    lemma_nonnegative_finite(LEVEL_HIGH_THRESHOLD);
    lemma_nonnegative_finite(LLM_BASE_TEMPERATURE);
    lemma_nonnegative_finite(LLM_TEMP_OPENNESS_WEIGHT);
    lemma_nonnegative_finite(LLM_TEMP_EXTRAVERSION_WEIGHT);
    lemma_nonnegative_finite(LLM_TEMP_CONSCIENTIOUSNESS_WEIGHT);
    lemma_nonnegative_finite(LLM_TEMP_HONESTY_WEIGHT);
    lemma_nonnegative_finite(LLM_BASE_TOP_P);
    lemma_nonnegative_finite(LLM_TOP_P_OPENNESS_WEIGHT);
    lemma_nonnegative_finite(LLM_TOP_P_CONSCIENTIOUSNESS_WEIGHT);
    lemma_nonnegative_finite(LLM_TEMP_MIN);
    lemma_nonnegative_finite(LLM_TEMP_MAX);
    lemma_nonnegative_finite(LLM_TOP_P_MIN);
    lemma_nonnegative_finite(LLM_TOP_P_MAX);
    lemma_nonnegative_finite(MEMORY_RETENTION_CUTOFF);
    lemma_nonnegative_finite(RECALL_BOOST_FACTOR);
    lemma_nonnegative_finite(EMOTION_PROXIMITY_BONUS);
    lemma_nonnegative_finite(RECENCY_BOOST_TAU_DAYS);
    lemma_nonnegative_finite(SIMILARITY_CLUSTER_THRESHOLD);
    lemma_nonnegative_finite(DECAY_TAU_DEFAULT_DAYS);
    lemma_nonnegative_finite(SOURCE_W_EXPERIENCED);
    lemma_nonnegative_finite(SOURCE_W_WITNESSED);
    lemma_nonnegative_finite(SOURCE_W_HEARD);
    lemma_nonnegative_finite(SOURCE_W_RUMOR);
    lemma_nonnegative_finite(RUMOR_HOP_CONFIDENCE_DECAY);
    lemma_nonnegative_finite(RUMOR_MIN_CONFIDENCE);
    lemma_nonnegative_finite(MEMORY_RELATIONSHIP_DELTA_THRESHOLD);
    lemma_nonpositive_finite(LEVEL_LOW_THRESHOLD);
    lemma_nonpositive_finite(LEVEL_VERY_LOW_THRESHOLD);
}


/// A profile is coherent exactly when every rule holds: the stimulus
/// impact rate in (0, 1]; the fade threshold below the minimum inertia,
/// which lies in (0, 1); the beat merge threshold in (0, 1); closeness
/// slower than trust; strictly decreasing level thresholds; the base
/// temperature strictly between its bounds; the base top-p above its
/// minimum and at most its maximum; source weights strictly decreasing from
/// experienced to rumor; the hop decay and the retention cutoff in (0, 1);
/// a positive top-k and channel capacity. A broken rule is reported by its
/// own message, the first one in that order.
pub proof fn law_validation_rules(p: TuningProfile)
    ensures
        tuning_fault(p) is None <==> ((f32_lt(ZERO_BITS, p.stimulus_impact_rate) && f32_ge(ONE_BITS, p.stimulus_impact_rate)) && (f32_lt(p.stimulus_fade_threshold, p.stimulus_min_inertia)) && (f32_lt(ZERO_BITS, p.stimulus_min_inertia) && f32_lt(p.stimulus_min_inertia, ONE_BITS)) && (f32_lt(ZERO_BITS, p.beat_merge_threshold) && f32_lt(p.beat_merge_threshold, ONE_BITS)) && (f32_lt(p.closeness_update_rate, p.trust_update_rate)) && (f32_lt(p.level_high_threshold, p.level_very_high_threshold) && f32_lt(p.level_low_threshold, p.level_high_threshold) && f32_lt(p.level_very_low_threshold, p.level_low_threshold)) && (f32_lt(p.llm_temp_min, p.llm_base_temperature) && f32_lt(p.llm_base_temperature, p.llm_temp_max)) && (f32_lt(p.llm_top_p_min, p.llm_base_top_p) && f32_ge(p.llm_top_p_max, p.llm_base_top_p)) && (f32_lt(p.source_w_witnessed, p.source_w_experienced) && f32_lt(p.source_w_heard, p.source_w_witnessed) && f32_lt(p.source_w_rumor, p.source_w_heard)) && (f32_lt(ZERO_BITS, p.rumor_hop_confidence_decay) && f32_lt(p.rumor_hop_confidence_decay, ONE_BITS)) && (f32_lt(ZERO_BITS, p.memory_retention_cutoff) && f32_lt(p.memory_retention_cutoff, ONE_BITS)) && (p.memory_push_top_k > 0) && (p.scene_task_channel_capacity > 0)),
        !(f32_lt(ZERO_BITS, p.stimulus_impact_rate) && f32_ge(ONE_BITS, p.stimulus_impact_rate)) ==> tuning_fault(p) == Some("stimulus_impact_rate must be in (0, 1]"@),
        (f32_lt(ZERO_BITS, p.stimulus_impact_rate) && f32_ge(ONE_BITS, p.stimulus_impact_rate)) && !(f32_lt(p.stimulus_fade_threshold, p.stimulus_min_inertia)) ==> tuning_fault(p) == Some("stimulus_fade_threshold must be < stimulus_min_inertia"@),
        (f32_lt(ZERO_BITS, p.stimulus_impact_rate) && f32_ge(ONE_BITS, p.stimulus_impact_rate)) && (f32_lt(p.stimulus_fade_threshold, p.stimulus_min_inertia)) && !(f32_lt(ZERO_BITS, p.stimulus_min_inertia) && f32_lt(p.stimulus_min_inertia, ONE_BITS)) ==> tuning_fault(p) == Some("stimulus_min_inertia must be in (0, 1)"@),
        (f32_lt(ZERO_BITS, p.stimulus_impact_rate) && f32_ge(ONE_BITS, p.stimulus_impact_rate)) && (f32_lt(p.stimulus_fade_threshold, p.stimulus_min_inertia)) && (f32_lt(ZERO_BITS, p.stimulus_min_inertia) && f32_lt(p.stimulus_min_inertia, ONE_BITS)) && !(f32_lt(ZERO_BITS, p.beat_merge_threshold) && f32_lt(p.beat_merge_threshold, ONE_BITS)) ==> tuning_fault(p) == Some("beat_merge_threshold must be in (0, 1)"@),
        (f32_lt(ZERO_BITS, p.stimulus_impact_rate) && f32_ge(ONE_BITS, p.stimulus_impact_rate)) && (f32_lt(p.stimulus_fade_threshold, p.stimulus_min_inertia)) && (f32_lt(ZERO_BITS, p.stimulus_min_inertia) && f32_lt(p.stimulus_min_inertia, ONE_BITS)) && (f32_lt(ZERO_BITS, p.beat_merge_threshold) && f32_lt(p.beat_merge_threshold, ONE_BITS)) && !(f32_lt(p.closeness_update_rate, p.trust_update_rate)) ==> tuning_fault(p) == Some("closeness_update_rate must be < trust_update_rate"@),
        (f32_lt(ZERO_BITS, p.stimulus_impact_rate) && f32_ge(ONE_BITS, p.stimulus_impact_rate)) && (f32_lt(p.stimulus_fade_threshold, p.stimulus_min_inertia)) && (f32_lt(ZERO_BITS, p.stimulus_min_inertia) && f32_lt(p.stimulus_min_inertia, ONE_BITS)) && (f32_lt(ZERO_BITS, p.beat_merge_threshold) && f32_lt(p.beat_merge_threshold, ONE_BITS)) && (f32_lt(p.closeness_update_rate, p.trust_update_rate)) && !(f32_lt(p.level_high_threshold, p.level_very_high_threshold) && f32_lt(p.level_low_threshold, p.level_high_threshold) && f32_lt(p.level_very_low_threshold, p.level_low_threshold)) ==> tuning_fault(p) == Some("level thresholds must be strictly decreasing"@),
        (f32_lt(ZERO_BITS, p.stimulus_impact_rate) && f32_ge(ONE_BITS, p.stimulus_impact_rate)) && (f32_lt(p.stimulus_fade_threshold, p.stimulus_min_inertia)) && (f32_lt(ZERO_BITS, p.stimulus_min_inertia) && f32_lt(p.stimulus_min_inertia, ONE_BITS)) && (f32_lt(ZERO_BITS, p.beat_merge_threshold) && f32_lt(p.beat_merge_threshold, ONE_BITS)) && (f32_lt(p.closeness_update_rate, p.trust_update_rate)) && (f32_lt(p.level_high_threshold, p.level_very_high_threshold) && f32_lt(p.level_low_threshold, p.level_high_threshold) && f32_lt(p.level_very_low_threshold, p.level_low_threshold)) && !(f32_lt(p.llm_temp_min, p.llm_base_temperature) && f32_lt(p.llm_base_temperature, p.llm_temp_max)) ==> tuning_fault(p) == Some("llm temperature: min < base < max"@),
        (f32_lt(ZERO_BITS, p.stimulus_impact_rate) && f32_ge(ONE_BITS, p.stimulus_impact_rate)) && (f32_lt(p.stimulus_fade_threshold, p.stimulus_min_inertia)) && (f32_lt(ZERO_BITS, p.stimulus_min_inertia) && f32_lt(p.stimulus_min_inertia, ONE_BITS)) && (f32_lt(ZERO_BITS, p.beat_merge_threshold) && f32_lt(p.beat_merge_threshold, ONE_BITS)) && (f32_lt(p.closeness_update_rate, p.trust_update_rate)) && (f32_lt(p.level_high_threshold, p.level_very_high_threshold) && f32_lt(p.level_low_threshold, p.level_high_threshold) && f32_lt(p.level_very_low_threshold, p.level_low_threshold)) && (f32_lt(p.llm_temp_min, p.llm_base_temperature) && f32_lt(p.llm_base_temperature, p.llm_temp_max)) && !(f32_lt(p.llm_top_p_min, p.llm_base_top_p) && f32_ge(p.llm_top_p_max, p.llm_base_top_p)) ==> tuning_fault(p) == Some("llm top_p: min < base <= max"@),
        (f32_lt(ZERO_BITS, p.stimulus_impact_rate) && f32_ge(ONE_BITS, p.stimulus_impact_rate)) && (f32_lt(p.stimulus_fade_threshold, p.stimulus_min_inertia)) && (f32_lt(ZERO_BITS, p.stimulus_min_inertia) && f32_lt(p.stimulus_min_inertia, ONE_BITS)) && (f32_lt(ZERO_BITS, p.beat_merge_threshold) && f32_lt(p.beat_merge_threshold, ONE_BITS)) && (f32_lt(p.closeness_update_rate, p.trust_update_rate)) && (f32_lt(p.level_high_threshold, p.level_very_high_threshold) && f32_lt(p.level_low_threshold, p.level_high_threshold) && f32_lt(p.level_very_low_threshold, p.level_low_threshold)) && (f32_lt(p.llm_temp_min, p.llm_base_temperature) && f32_lt(p.llm_base_temperature, p.llm_temp_max)) && (f32_lt(p.llm_top_p_min, p.llm_base_top_p) && f32_ge(p.llm_top_p_max, p.llm_base_top_p)) && !(f32_lt(p.source_w_witnessed, p.source_w_experienced) && f32_lt(p.source_w_heard, p.source_w_witnessed) && f32_lt(p.source_w_rumor, p.source_w_heard)) ==> tuning_fault(p) == Some("source weights must be strictly decreasing: Exp > Wit > Heard > Rumor"@),
        (f32_lt(ZERO_BITS, p.stimulus_impact_rate) && f32_ge(ONE_BITS, p.stimulus_impact_rate)) && (f32_lt(p.stimulus_fade_threshold, p.stimulus_min_inertia)) && (f32_lt(ZERO_BITS, p.stimulus_min_inertia) && f32_lt(p.stimulus_min_inertia, ONE_BITS)) && (f32_lt(ZERO_BITS, p.beat_merge_threshold) && f32_lt(p.beat_merge_threshold, ONE_BITS)) && (f32_lt(p.closeness_update_rate, p.trust_update_rate)) && (f32_lt(p.level_high_threshold, p.level_very_high_threshold) && f32_lt(p.level_low_threshold, p.level_high_threshold) && f32_lt(p.level_very_low_threshold, p.level_low_threshold)) && (f32_lt(p.llm_temp_min, p.llm_base_temperature) && f32_lt(p.llm_base_temperature, p.llm_temp_max)) && (f32_lt(p.llm_top_p_min, p.llm_base_top_p) && f32_ge(p.llm_top_p_max, p.llm_base_top_p)) && (f32_lt(p.source_w_witnessed, p.source_w_experienced) && f32_lt(p.source_w_heard, p.source_w_witnessed) && f32_lt(p.source_w_rumor, p.source_w_heard)) && !(f32_lt(ZERO_BITS, p.rumor_hop_confidence_decay) && f32_lt(p.rumor_hop_confidence_decay, ONE_BITS)) ==> tuning_fault(p) == Some("rumor_hop_confidence_decay must be in (0, 1)"@),
        (f32_lt(ZERO_BITS, p.stimulus_impact_rate) && f32_ge(ONE_BITS, p.stimulus_impact_rate)) && (f32_lt(p.stimulus_fade_threshold, p.stimulus_min_inertia)) && (f32_lt(ZERO_BITS, p.stimulus_min_inertia) && f32_lt(p.stimulus_min_inertia, ONE_BITS)) && (f32_lt(ZERO_BITS, p.beat_merge_threshold) && f32_lt(p.beat_merge_threshold, ONE_BITS)) && (f32_lt(p.closeness_update_rate, p.trust_update_rate)) && (f32_lt(p.level_high_threshold, p.level_very_high_threshold) && f32_lt(p.level_low_threshold, p.level_high_threshold) && f32_lt(p.level_very_low_threshold, p.level_low_threshold)) && (f32_lt(p.llm_temp_min, p.llm_base_temperature) && f32_lt(p.llm_base_temperature, p.llm_temp_max)) && (f32_lt(p.llm_top_p_min, p.llm_base_top_p) && f32_ge(p.llm_top_p_max, p.llm_base_top_p)) && (f32_lt(p.source_w_witnessed, p.source_w_experienced) && f32_lt(p.source_w_heard, p.source_w_witnessed) && f32_lt(p.source_w_rumor, p.source_w_heard)) && (f32_lt(ZERO_BITS, p.rumor_hop_confidence_decay) && f32_lt(p.rumor_hop_confidence_decay, ONE_BITS)) && !(f32_lt(ZERO_BITS, p.memory_retention_cutoff) && f32_lt(p.memory_retention_cutoff, ONE_BITS)) ==> tuning_fault(p) == Some("memory_retention_cutoff must be in (0, 1)"@),
        (f32_lt(ZERO_BITS, p.stimulus_impact_rate) && f32_ge(ONE_BITS, p.stimulus_impact_rate)) && (f32_lt(p.stimulus_fade_threshold, p.stimulus_min_inertia)) && (f32_lt(ZERO_BITS, p.stimulus_min_inertia) && f32_lt(p.stimulus_min_inertia, ONE_BITS)) && (f32_lt(ZERO_BITS, p.beat_merge_threshold) && f32_lt(p.beat_merge_threshold, ONE_BITS)) && (f32_lt(p.closeness_update_rate, p.trust_update_rate)) && (f32_lt(p.level_high_threshold, p.level_very_high_threshold) && f32_lt(p.level_low_threshold, p.level_high_threshold) && f32_lt(p.level_very_low_threshold, p.level_low_threshold)) && (f32_lt(p.llm_temp_min, p.llm_base_temperature) && f32_lt(p.llm_base_temperature, p.llm_temp_max)) && (f32_lt(p.llm_top_p_min, p.llm_base_top_p) && f32_ge(p.llm_top_p_max, p.llm_base_top_p)) && (f32_lt(p.source_w_witnessed, p.source_w_experienced) && f32_lt(p.source_w_heard, p.source_w_witnessed) && f32_lt(p.source_w_rumor, p.source_w_heard)) && (f32_lt(ZERO_BITS, p.rumor_hop_confidence_decay) && f32_lt(p.rumor_hop_confidence_decay, ONE_BITS)) && (f32_lt(ZERO_BITS, p.memory_retention_cutoff) && f32_lt(p.memory_retention_cutoff, ONE_BITS)) && !(p.memory_push_top_k > 0) ==> tuning_fault(p) == Some("memory_push_top_k must be > 0"@),
        (f32_lt(ZERO_BITS, p.stimulus_impact_rate) && f32_ge(ONE_BITS, p.stimulus_impact_rate)) && (f32_lt(p.stimulus_fade_threshold, p.stimulus_min_inertia)) && (f32_lt(ZERO_BITS, p.stimulus_min_inertia) && f32_lt(p.stimulus_min_inertia, ONE_BITS)) && (f32_lt(ZERO_BITS, p.beat_merge_threshold) && f32_lt(p.beat_merge_threshold, ONE_BITS)) && (f32_lt(p.closeness_update_rate, p.trust_update_rate)) && (f32_lt(p.level_high_threshold, p.level_very_high_threshold) && f32_lt(p.level_low_threshold, p.level_high_threshold) && f32_lt(p.level_very_low_threshold, p.level_low_threshold)) && (f32_lt(p.llm_temp_min, p.llm_base_temperature) && f32_lt(p.llm_base_temperature, p.llm_temp_max)) && (f32_lt(p.llm_top_p_min, p.llm_base_top_p) && f32_ge(p.llm_top_p_max, p.llm_base_top_p)) && (f32_lt(p.source_w_witnessed, p.source_w_experienced) && f32_lt(p.source_w_heard, p.source_w_witnessed) && f32_lt(p.source_w_rumor, p.source_w_heard)) && (f32_lt(ZERO_BITS, p.rumor_hop_confidence_decay) && f32_lt(p.rumor_hop_confidence_decay, ONE_BITS)) && (f32_lt(ZERO_BITS, p.memory_retention_cutoff) && f32_lt(p.memory_retention_cutoff, ONE_BITS)) && (p.memory_push_top_k > 0) && !(p.scene_task_channel_capacity > 0) ==> tuning_fault(p) == Some("scene_task_channel_capacity must be > 0"@),
{
}


/// The default profile's values, parameter by parameter (float
/// parameters as bit patterns; their decimal values are given beside the
/// constants above).
pub proof fn law_default_profile_values()
    ensures
        TuningProfile::default_spec().stimulus_impact_rate == 0x3F00_0000u32,
        TuningProfile::default_spec().stimulus_fade_threshold == 0x3D4C_CCCDu32,
        TuningProfile::default_spec().stimulus_min_inertia == 0x3E99_999Au32,
        TuningProfile::default_spec().beat_merge_threshold == 0x3E4C_CCCDu32,
        TuningProfile::default_spec().beat_default_significance == 0x3F00_0000u32,
        TuningProfile::default_spec().trust_update_rate == 0x3DCC_CCCDu32,
        TuningProfile::default_spec().closeness_update_rate == 0x3D4C_CCCDu32,
        TuningProfile::default_spec().significance_scale == 0x4040_0000u32,
        TuningProfile::default_spec().pad_d_scale_weight == 0x3E99_999Au32,
        TuningProfile::default_spec().pad_axis_dead_zone == 0x3CA3_D70Au32,
        TuningProfile::default_spec().pad_axis_scale == 0x4040_0000u32,
        TuningProfile::default_spec().mood_threshold == 0x3E99_999Au32,
        TuningProfile::default_spec().honesty_restriction_threshold == 0x3F00_0000u32,
        TuningProfile::default_spec().emotion_threshold == 0x3E4C_CCCDu32,
        TuningProfile::default_spec().trait_threshold == 0x3E99_999Au32,
        TuningProfile::default_spec().rel_closeness_intensity_weight == 0x3F00_0000u32,
        TuningProfile::default_spec().rel_trust_emotion_weight == 0x3E99_999Au32,
        TuningProfile::default_spec().rel_closeness_empathy_weight == 0x3E99_999Au32,
        TuningProfile::default_spec().rel_closeness_hostility_weight == 0x3E99_999Au32,
        TuningProfile::default_spec().level_very_high_threshold == 0x4270_0000u32,
        TuningProfile::default_spec().level_high_threshold == 0x41A0_0000u32,
        TuningProfile::default_spec().level_low_threshold == 0xC1A0_0000u32,
        TuningProfile::default_spec().level_very_low_threshold == 0xC270_0000u32,
        TuningProfile::default_spec().llm_base_temperature == 0x3F4C_CCCDu32,
        TuningProfile::default_spec().llm_temp_openness_weight == 0x3DCC_CCCDu32,
        TuningProfile::default_spec().llm_temp_extraversion_weight == 0x3D4C_CCCDu32,
        TuningProfile::default_spec().llm_temp_conscientiousness_weight == 0x3DCC_CCCDu32,
        TuningProfile::default_spec().llm_temp_honesty_weight == 0x3D4C_CCCDu32,
        TuningProfile::default_spec().llm_base_top_p == 0x3F66_6666u32,
        TuningProfile::default_spec().llm_top_p_openness_weight == 0x3D4C_CCCDu32,
        TuningProfile::default_spec().llm_top_p_conscientiousness_weight == 0x3D4C_CCCDu32,
        TuningProfile::default_spec().llm_temp_min == 0x3DCC_CCCDu32,
        TuningProfile::default_spec().llm_temp_max == 0x3F8C_CCCDu32,
        TuningProfile::default_spec().llm_top_p_min == 0x3F4C_CCCDu32,
        TuningProfile::default_spec().llm_top_p_max == 0x3F80_0000u32,
        TuningProfile::default_spec().scene_task_channel_capacity == 32usize,
        TuningProfile::default_spec().memory_retention_cutoff == 0x3DCC_CCCDu32,
        TuningProfile::default_spec().recall_boost_factor == 0x3E19_999Au32,
        TuningProfile::default_spec().emotion_proximity_bonus == 0x3E99_999Au32,
        TuningProfile::default_spec().recency_boost_tau_days == 0x4040_0000u32,
        TuningProfile::default_spec().similarity_cluster_threshold == 0x3F59_999Au32,
        TuningProfile::default_spec().decay_tau_default_days == 0x41F0_0000u32,
        TuningProfile::default_spec().source_w_experienced == 0x3F80_0000u32,
        TuningProfile::default_spec().source_w_witnessed == 0x3F59_999Au32,
        TuningProfile::default_spec().source_w_heard == 0x3F19_999Au32,
        TuningProfile::default_spec().source_w_rumor == 0x3EB3_3333u32,
        TuningProfile::default_spec().memory_push_top_k == 5usize,
        TuningProfile::default_spec().memory_prompt_token_budget == 400usize,
        TuningProfile::default_spec().rumor_hop_confidence_decay == 0x3F4C_CCCDu32,
        TuningProfile::default_spec().rumor_min_confidence == 0x3DCC_CCCDu32,
        TuningProfile::default_spec().memory_relationship_delta_threshold == 0x3D4C_CCCDu32,
{
}

} // verus!
