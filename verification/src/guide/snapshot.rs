//! Snapshots for the guide: the traits and speech styles a personality
//! stands out by, and the levels of a relationship's axes.

use vstd::prelude::*;
use crate::float_bits::{greater_than, f32_lt, f32_neg};
use crate::emotion::{
    reaching, strongest_first, strongest_index, Emotion, EmotionState, EmotionType,
};
use crate::guide::DimensionAverages;
use crate::present::{lemma_somes_contains, lemma_somes_keys_increase, lemma_somes_map, somes};
use crate::relationship::{Relationship, RelationshipView};
use crate::guide::enums::{PersonalityTrait, SpeechStyle, pole};

verus! {

/// The traits and speech styles a personality stands out by.
#[derive(Debug, Clone)]
pub struct PersonalitySnapshot {
    pub traits: Vec<PersonalityTrait>,
    pub speech_styles: Vec<SpeechStyle>,
}

/// The trait of each dimension that stands out, in H, E, X, A, C, O order.
pub open spec fn trait_poles(avg: DimensionAverages, t: u32) -> Seq<Option<PersonalityTrait>> {
    seq![
        pole(avg.h, t, PersonalityTrait::HonestAndModest, PersonalityTrait::CunningAndAmbitious),
        pole(avg.e, t, PersonalityTrait::EmotionalAndAnxious, PersonalityTrait::BoldAndIndependent),
        pole(avg.x, t, PersonalityTrait::ConfidentAndSociable, PersonalityTrait::IntrovertedAndQuiet),
        pole(avg.a, t, PersonalityTrait::TolerantAndGentle, PersonalityTrait::GrudgingAndCritical),
        pole(avg.c, t, PersonalityTrait::SystematicAndDiligent, PersonalityTrait::FreeAndImpulsive),
        pole(avg.o, t, PersonalityTrait::CuriousAndCreative, PersonalityTrait::TraditionalAndConservative),
    ]
}

/// The speech style of each dimension that stands out, in H, E, X, A, C, O
/// order.
pub open spec fn style_poles(avg: DimensionAverages, t: u32) -> Seq<Option<SpeechStyle>> {
    seq![
        pole(avg.h, t, SpeechStyle::FrankAndUnadorned, SpeechStyle::HidesInnerThoughts),
        pole(avg.e, t, SpeechStyle::ExpressiveAndWorried, SpeechStyle::CalmAndComposed),
        pole(avg.x, t, SpeechStyle::ActiveAndForceful, SpeechStyle::BriefAndConcise),
        pole(avg.a, t, SpeechStyle::SoftAndConsiderate, SpeechStyle::SharpAndDirect),
        pole(avg.c, t, SpeechStyle::LogicalAndRational, SpeechStyle::UnfilteredAndSpontaneous),
        pole(avg.o, t, SpeechStyle::MetaphoricalAndUnique, SpeechStyle::FormalAndTraditional),
    ]
}

fn push_trait(v: &mut Vec<PersonalityTrait>, o: Option<PersonalityTrait>, Ghost(before): Ghost<Seq<Option<PersonalityTrait>>>)
    requires
        old(v)@ == somes(before),
    ensures
        final(v)@ == somes(before.push(o)),
{
    assert(before.push(o).drop_last() =~= before);
    if let Some(t) = o {
        v.push(t);
    }
}

fn push_style(v: &mut Vec<SpeechStyle>, o: Option<SpeechStyle>, Ghost(before): Ghost<Seq<Option<SpeechStyle>>>)
    requires
        old(v)@ == somes(before),
    ensures
        final(v)@ == somes(before.push(o)),
{
    assert(before.push(o).drop_last() =~= before);
    if let Some(s) = o {
        v.push(s);
    }
}

/// The HEXACO dimension a trait belongs to, in H, E, X, A, C, O order.
pub open spec fn trait_dimension(t: PersonalityTrait) -> int {
    match t {
        PersonalityTrait::HonestAndModest | PersonalityTrait::CunningAndAmbitious => 0,
        PersonalityTrait::EmotionalAndAnxious | PersonalityTrait::BoldAndIndependent => 1,
        PersonalityTrait::ConfidentAndSociable | PersonalityTrait::IntrovertedAndQuiet => 2,
        PersonalityTrait::TolerantAndGentle | PersonalityTrait::GrudgingAndCritical => 3,
        PersonalityTrait::SystematicAndDiligent | PersonalityTrait::FreeAndImpulsive => 4,
        PersonalityTrait::CuriousAndCreative | PersonalityTrait::TraditionalAndConservative => 5,
    }
}

/// The way of speaking that goes with a trait.
pub open spec fn speech_of(t: PersonalityTrait) -> SpeechStyle {
    match t {
        PersonalityTrait::HonestAndModest => SpeechStyle::FrankAndUnadorned,
        PersonalityTrait::CunningAndAmbitious => SpeechStyle::HidesInnerThoughts,
        PersonalityTrait::EmotionalAndAnxious => SpeechStyle::ExpressiveAndWorried,
        PersonalityTrait::BoldAndIndependent => SpeechStyle::CalmAndComposed,
        PersonalityTrait::ConfidentAndSociable => SpeechStyle::ActiveAndForceful,
        PersonalityTrait::IntrovertedAndQuiet => SpeechStyle::BriefAndConcise,
        PersonalityTrait::TolerantAndGentle => SpeechStyle::SoftAndConsiderate,
        PersonalityTrait::GrudgingAndCritical => SpeechStyle::SharpAndDirect,
        PersonalityTrait::SystematicAndDiligent => SpeechStyle::LogicalAndRational,
        PersonalityTrait::FreeAndImpulsive => SpeechStyle::UnfilteredAndSpontaneous,
        PersonalityTrait::CuriousAndCreative => SpeechStyle::MetaphoricalAndUnique,
        PersonalityTrait::TraditionalAndConservative => SpeechStyle::FormalAndTraditional,
    }
}

/// A personality stands out, dimension by dimension, by the trait of the
/// pole its average lies beyond: above the threshold the high trait (H
/// honest and modest, E emotional and anxious, X confident and sociable, A
/// tolerant and gentle, C systematic and diligent, O curious and creative),
/// below minus the threshold the low one (cunning, bold, introverted,
/// grudging, free and impulsive, traditional). Each trait brings its own
/// way of speaking, at the same place, and the traits come in dimension
/// order, at most one per dimension.
pub proof fn law_personality_snapshot(avg: DimensionAverages, t: u32)
    ensures
        somes(trait_poles(avg, t)).contains(PersonalityTrait::HonestAndModest) <==> f32_lt(t, avg.h),
        somes(trait_poles(avg, t)).contains(PersonalityTrait::CunningAndAmbitious) <==> !f32_lt(t, avg.h) && f32_lt(avg.h, f32_neg(t)),
        somes(trait_poles(avg, t)).contains(PersonalityTrait::EmotionalAndAnxious) <==> f32_lt(t, avg.e),
        somes(trait_poles(avg, t)).contains(PersonalityTrait::BoldAndIndependent) <==> !f32_lt(t, avg.e) && f32_lt(avg.e, f32_neg(t)),
        somes(trait_poles(avg, t)).contains(PersonalityTrait::ConfidentAndSociable) <==> f32_lt(t, avg.x),
        somes(trait_poles(avg, t)).contains(PersonalityTrait::IntrovertedAndQuiet) <==> !f32_lt(t, avg.x) && f32_lt(avg.x, f32_neg(t)),
        somes(trait_poles(avg, t)).contains(PersonalityTrait::TolerantAndGentle) <==> f32_lt(t, avg.a),
        somes(trait_poles(avg, t)).contains(PersonalityTrait::GrudgingAndCritical) <==> !f32_lt(t, avg.a) && f32_lt(avg.a, f32_neg(t)),
        somes(trait_poles(avg, t)).contains(PersonalityTrait::SystematicAndDiligent) <==> f32_lt(t, avg.c),
        somes(trait_poles(avg, t)).contains(PersonalityTrait::FreeAndImpulsive) <==> !f32_lt(t, avg.c) && f32_lt(avg.c, f32_neg(t)),
        somes(trait_poles(avg, t)).contains(PersonalityTrait::CuriousAndCreative) <==> f32_lt(t, avg.o),
        somes(trait_poles(avg, t)).contains(PersonalityTrait::TraditionalAndConservative) <==> !f32_lt(t, avg.o) && f32_lt(avg.o, f32_neg(t)),
        somes(style_poles(avg, t)).len() == somes(trait_poles(avg, t)).len(),
        forall|i: int| 0 <= i < somes(trait_poles(avg, t)).len() ==> #[trigger] somes(style_poles(avg, t))[i] == speech_of(somes(trait_poles(avg, t))[i]),
        forall|i: int, j: int| 0 <= i < j < somes(trait_poles(avg, t)).len() ==> trait_dimension(#[trigger] somes(trait_poles(avg, t))[i]) < trait_dimension(#[trigger] somes(trait_poles(avg, t))[j]),
{
    let tp = trait_poles(avg, t);
    let sp = style_poles(avg, t);
    assert(tp[0] == pole::<PersonalityTrait>(avg.h, t, PersonalityTrait::HonestAndModest, PersonalityTrait::CunningAndAmbitious));
    assert(sp[0] == pole::<SpeechStyle>(avg.h, t, SpeechStyle::FrankAndUnadorned, SpeechStyle::HidesInnerThoughts));
    assert(tp[1] == pole::<PersonalityTrait>(avg.e, t, PersonalityTrait::EmotionalAndAnxious, PersonalityTrait::BoldAndIndependent));
    assert(sp[1] == pole::<SpeechStyle>(avg.e, t, SpeechStyle::ExpressiveAndWorried, SpeechStyle::CalmAndComposed));
    assert(tp[2] == pole::<PersonalityTrait>(avg.x, t, PersonalityTrait::ConfidentAndSociable, PersonalityTrait::IntrovertedAndQuiet));
    assert(sp[2] == pole::<SpeechStyle>(avg.x, t, SpeechStyle::ActiveAndForceful, SpeechStyle::BriefAndConcise));
    assert(tp[3] == pole::<PersonalityTrait>(avg.a, t, PersonalityTrait::TolerantAndGentle, PersonalityTrait::GrudgingAndCritical));
    assert(sp[3] == pole::<SpeechStyle>(avg.a, t, SpeechStyle::SoftAndConsiderate, SpeechStyle::SharpAndDirect));
    assert(tp[4] == pole::<PersonalityTrait>(avg.c, t, PersonalityTrait::SystematicAndDiligent, PersonalityTrait::FreeAndImpulsive));
    assert(sp[4] == pole::<SpeechStyle>(avg.c, t, SpeechStyle::LogicalAndRational, SpeechStyle::UnfilteredAndSpontaneous));
    assert(tp[5] == pole::<PersonalityTrait>(avg.o, t, PersonalityTrait::CuriousAndCreative, PersonalityTrait::TraditionalAndConservative));
    assert(sp[5] == pole::<SpeechStyle>(avg.o, t, SpeechStyle::MetaphoricalAndUnique, SpeechStyle::FormalAndTraditional));
    lemma_somes_contains(tp, PersonalityTrait::HonestAndModest);
    lemma_somes_contains(tp, PersonalityTrait::CunningAndAmbitious);
    lemma_somes_contains(tp, PersonalityTrait::EmotionalAndAnxious);
    lemma_somes_contains(tp, PersonalityTrait::BoldAndIndependent);
    lemma_somes_contains(tp, PersonalityTrait::ConfidentAndSociable);
    lemma_somes_contains(tp, PersonalityTrait::IntrovertedAndQuiet);
    lemma_somes_contains(tp, PersonalityTrait::TolerantAndGentle);
    lemma_somes_contains(tp, PersonalityTrait::GrudgingAndCritical);
    lemma_somes_contains(tp, PersonalityTrait::SystematicAndDiligent);
    lemma_somes_contains(tp, PersonalityTrait::FreeAndImpulsive);
    lemma_somes_contains(tp, PersonalityTrait::CuriousAndCreative);
    lemma_somes_contains(tp, PersonalityTrait::TraditionalAndConservative);
    assert forall|q: int, x: PersonalityTrait| 0 <= q < 6 && tp[q] == Some(x) implies trait_dimension(x) == q by {
    }
    lemma_somes_map(tp, sp, |x: PersonalityTrait| speech_of(x));
    lemma_somes_keys_increase(tp, |x: PersonalityTrait| trait_dimension(x));
}

impl PersonalitySnapshot {
    /// The traits and speech styles of the dimensions whose average lies
    /// beyond `trait_threshold` either way, in H, E, X, A, C, O order.
    pub fn from_profile(avg: &DimensionAverages, trait_threshold: u32) -> (r: PersonalitySnapshot)
        ensures
            r.traits@ == somes(trait_poles(*avg, trait_threshold)),
            r.speech_styles@ == somes(style_poles(*avg, trait_threshold)),
            r.traits@.contains(PersonalityTrait::HonestAndModest) <==> f32_lt(trait_threshold, avg.h),
            r.traits@.contains(PersonalityTrait::CunningAndAmbitious) <==> !f32_lt(trait_threshold, avg.h) && f32_lt(avg.h, f32_neg(trait_threshold)),
            r.traits@.contains(PersonalityTrait::EmotionalAndAnxious) <==> f32_lt(trait_threshold, avg.e),
            r.traits@.contains(PersonalityTrait::BoldAndIndependent) <==> !f32_lt(trait_threshold, avg.e) && f32_lt(avg.e, f32_neg(trait_threshold)),
            r.traits@.contains(PersonalityTrait::ConfidentAndSociable) <==> f32_lt(trait_threshold, avg.x),
            r.traits@.contains(PersonalityTrait::IntrovertedAndQuiet) <==> !f32_lt(trait_threshold, avg.x) && f32_lt(avg.x, f32_neg(trait_threshold)),
            r.traits@.contains(PersonalityTrait::TolerantAndGentle) <==> f32_lt(trait_threshold, avg.a),
            r.traits@.contains(PersonalityTrait::GrudgingAndCritical) <==> !f32_lt(trait_threshold, avg.a) && f32_lt(avg.a, f32_neg(trait_threshold)),
            r.traits@.contains(PersonalityTrait::SystematicAndDiligent) <==> f32_lt(trait_threshold, avg.c),
            r.traits@.contains(PersonalityTrait::FreeAndImpulsive) <==> !f32_lt(trait_threshold, avg.c) && f32_lt(avg.c, f32_neg(trait_threshold)),
            r.traits@.contains(PersonalityTrait::CuriousAndCreative) <==> f32_lt(trait_threshold, avg.o),
            r.traits@.contains(PersonalityTrait::TraditionalAndConservative) <==> !f32_lt(trait_threshold, avg.o) && f32_lt(avg.o, f32_neg(trait_threshold)),
            r.speech_styles@.len() == r.traits@.len(),
            forall|i: int| 0 <= i < r.traits@.len() ==> #[trigger] r.speech_styles@[i] == speech_of(r.traits@[i]),
            forall|i: int, j: int| 0 <= i < j < r.traits@.len() ==> trait_dimension(#[trigger] r.traits@[i]) < trait_dimension(#[trigger] r.traits@[j]),
    {
        proof {
            law_personality_snapshot(*avg, trait_threshold);
        }
        let t = trait_threshold;
        let ghost tp = trait_poles(*avg, t);
        let ghost sp = style_poles(*avg, t);
        let mut traits: Vec<PersonalityTrait> = Vec::new();
        let mut styles: Vec<SpeechStyle> = Vec::new();
        assert(tp.take(0) =~= Seq::<Option<PersonalityTrait>>::empty());
        assert(sp.take(0) =~= Seq::<Option<SpeechStyle>>::empty());

        let o = PersonalityTrait::evaluate(avg.h, t, PersonalityTrait::HonestAndModest, PersonalityTrait::CunningAndAmbitious);
        push_trait(&mut traits, o, Ghost(tp.take(0)));
        assert(tp.take(0).push(o) =~= tp.take(1));
        let o = SpeechStyle::evaluate(avg.h, t, SpeechStyle::FrankAndUnadorned, SpeechStyle::HidesInnerThoughts);
        push_style(&mut styles, o, Ghost(sp.take(0)));
        assert(sp.take(0).push(o) =~= sp.take(1));

        let o = PersonalityTrait::evaluate(avg.e, t, PersonalityTrait::EmotionalAndAnxious, PersonalityTrait::BoldAndIndependent);
        push_trait(&mut traits, o, Ghost(tp.take(1)));
        assert(tp.take(1).push(o) =~= tp.take(2));
        let o = SpeechStyle::evaluate(avg.e, t, SpeechStyle::ExpressiveAndWorried, SpeechStyle::CalmAndComposed);
        push_style(&mut styles, o, Ghost(sp.take(1)));
        assert(sp.take(1).push(o) =~= sp.take(2));

        let o = PersonalityTrait::evaluate(avg.x, t, PersonalityTrait::ConfidentAndSociable, PersonalityTrait::IntrovertedAndQuiet);
        push_trait(&mut traits, o, Ghost(tp.take(2)));
        assert(tp.take(2).push(o) =~= tp.take(3));
        let o = SpeechStyle::evaluate(avg.x, t, SpeechStyle::ActiveAndForceful, SpeechStyle::BriefAndConcise);
        push_style(&mut styles, o, Ghost(sp.take(2)));
        assert(sp.take(2).push(o) =~= sp.take(3));

        let o = PersonalityTrait::evaluate(avg.a, t, PersonalityTrait::TolerantAndGentle, PersonalityTrait::GrudgingAndCritical);
        push_trait(&mut traits, o, Ghost(tp.take(3)));
        assert(tp.take(3).push(o) =~= tp.take(4));
        let o = SpeechStyle::evaluate(avg.a, t, SpeechStyle::SoftAndConsiderate, SpeechStyle::SharpAndDirect);
        push_style(&mut styles, o, Ghost(sp.take(3)));
        assert(sp.take(3).push(o) =~= sp.take(4));

        let o = PersonalityTrait::evaluate(avg.c, t, PersonalityTrait::SystematicAndDiligent, PersonalityTrait::FreeAndImpulsive);
        push_trait(&mut traits, o, Ghost(tp.take(4)));
        assert(tp.take(4).push(o) =~= tp.take(5));
        let o = SpeechStyle::evaluate(avg.c, t, SpeechStyle::LogicalAndRational, SpeechStyle::UnfilteredAndSpontaneous);
        push_style(&mut styles, o, Ghost(sp.take(4)));
        assert(sp.take(4).push(o) =~= sp.take(5));

        let o = PersonalityTrait::evaluate(avg.o, t, PersonalityTrait::CuriousAndCreative, PersonalityTrait::TraditionalAndConservative);
        push_trait(&mut traits, o, Ghost(tp.take(5)));
        assert(tp.take(5).push(o) =~= tp);
        let o = SpeechStyle::evaluate(avg.o, t, SpeechStyle::MetaphoricalAndUnique, SpeechStyle::FormalAndTraditional);
        push_style(&mut styles, o, Ghost(sp.take(5)));
        assert(sp.take(5).push(o) =~= sp);

        PersonalitySnapshot { traits, speech_styles: styles }
    }
}

/// A level of a relationship axis.
#[derive(Debug, Clone, Copy, PartialEq, Eq, Hash, Structural)]
pub enum RelationshipLevel {
    VeryHigh,
    High,
    Neutral,
    Low,
    VeryLow,
}

/// The score boundaries between levels, as float bit patterns.
#[derive(Debug, Clone, Copy, PartialEq, Eq, Structural)]
pub struct LevelThresholds {
    pub very_high: u32,
    pub high: u32,
    pub low: u32,
    pub very_low: u32,
}

/// The level of a score: the highest level whose boundary it lies above
/// (strictly); very low when it lies above none.
pub open spec fn level_of(value: u32, th: LevelThresholds) -> RelationshipLevel {
    if f32_lt(th.very_high, value) {
        RelationshipLevel::VeryHigh
    } else if f32_lt(th.high, value) {
        RelationshipLevel::High
    } else if f32_lt(th.low, value) {
        RelationshipLevel::Neutral
    } else if f32_lt(th.very_low, value) {
        RelationshipLevel::Low
    } else {
        RelationshipLevel::VeryLow
    }
}

/// Levels numbered from very low (0) to very high (4).
pub open spec fn level_rank(l: RelationshipLevel) -> int {
    match l {
        RelationshipLevel::VeryLow => 0,
        RelationshipLevel::Low => 1,
        RelationshipLevel::Neutral => 2,
        RelationshipLevel::High => 3,
        RelationshipLevel::VeryHigh => 4,
    }
}

impl RelationshipLevel {
    /// The level of an axis score.
    pub fn from_score(value: u32, th: &LevelThresholds) -> (r: RelationshipLevel)
        ensures
            r == level_of(value, *th),
            f32_lt(th.very_high, value) ==> r == RelationshipLevel::VeryHigh,
            !f32_lt(th.very_high, value) && f32_lt(th.high, value) ==> r == RelationshipLevel::High,
            !f32_lt(th.very_high, value) && !f32_lt(th.high, value) && f32_lt(th.low, value) ==> r == RelationshipLevel::Neutral,
            !f32_lt(th.very_high, value) && !f32_lt(th.high, value) && !f32_lt(th.low, value) && f32_lt(th.very_low, value) ==> r == RelationshipLevel::Low,
            !f32_lt(th.very_high, value) && !f32_lt(th.high, value) && !f32_lt(th.low, value) && !f32_lt(th.very_low, value) ==> r == RelationshipLevel::VeryLow,
    {
        if greater_than(value, th.very_high) {
            RelationshipLevel::VeryHigh
        } else if greater_than(value, th.high) {
            RelationshipLevel::High
        } else if greater_than(value, th.low) {
            RelationshipLevel::Neutral
        } else if greater_than(value, th.very_low) {
            RelationshipLevel::Low
        } else {
            RelationshipLevel::VeryLow
        }
    }
}

/// With boundaries in descending order (none of them NaN), a higher score
/// never gets a lower level.
pub proof fn law_level_monotone(a: u32, b: u32, th: LevelThresholds)
    requires
        !crate::float_bits::f32_is_nan(th.very_high),
        !crate::float_bits::f32_is_nan(th.high),
        !crate::float_bits::f32_is_nan(th.low),
        !crate::float_bits::f32_is_nan(th.very_low),
        crate::float_bits::f32_key(th.very_low) <= crate::float_bits::f32_key(th.low),
        crate::float_bits::f32_key(th.low) <= crate::float_bits::f32_key(th.high),
        crate::float_bits::f32_key(th.high) <= crate::float_bits::f32_key(th.very_high),
        !crate::float_bits::f32_is_nan(a),
        !crate::float_bits::f32_is_nan(b),
        crate::float_bits::f32_key(a) <= crate::float_bits::f32_key(b),
    ensures
        level_rank(level_of(a, th)) <= level_rank(level_of(b, th)),
{
}

/// How the NPC stands with the partner, axis by axis.
#[derive(Debug, Clone)]
pub struct RelationshipSnapshot {
    pub target_name: String,
    pub affinity_level: RelationshipLevel,
    pub trust_level: RelationshipLevel,
    pub respect_level: RelationshipLevel,
    pub wariness_level: RelationshipLevel,
}

/// Whether `r` is the snapshot of relationship `rel`, shown under
/// `partner_name` (the target id when that is empty). Scores are taken on
/// their native scale of -100 to 100.
pub open spec fn relationship_snapshot_of(
    r: RelationshipSnapshot,
    rel: RelationshipView,
    partner_name: Seq<char>,
    th: LevelThresholds,
) -> bool {
    &&& r.target_name@ == (if partner_name.len() == 0 {
        rel.target_id
    } else {
        partner_name
    })
    &&& r.affinity_level == level_of(rel.affinity.value_spec(), th)
    &&& r.trust_level == level_of(rel.trust.value_spec(), th)
    &&& r.respect_level == level_of(rel.respect.value_spec(), th)
    &&& r.wariness_level == level_of(rel.wariness.value_spec(), th)
}

impl RelationshipSnapshot {
    /// The snapshot of `rel`, shown under `partner_name` (the target id
    /// when that is empty).
    pub fn from_relationship(rel: &Relationship, partner_name: &str, th: &LevelThresholds) -> (r: RelationshipSnapshot)
        ensures
            relationship_snapshot_of(r, rel@, partner_name@, *th),
    {
        let name = if partner_name.unicode_len() == 0 {
            rel.target_id().to_owned()
        } else {
            partner_name.to_owned()
        };
        RelationshipSnapshot {
            target_name: name,
            affinity_level: RelationshipLevel::from_score(rel.affinity().value(), th),
            trust_level: RelationshipLevel::from_score(rel.trust().value(), th),
            respect_level: RelationshipLevel::from_score(rel.respect().value(), th),
            wariness_level: RelationshipLevel::from_score(rel.wariness().value(), th),
        }
    }
}

/// An emotion and its intensity (float bits), as the guide shows it.
#[derive(Debug, Clone, Copy, PartialEq, Eq, Structural)]
pub struct EmotionEntry {
    pub emotion_type: EmotionType,
    pub intensity: u32,
}

/// The entry that shows emotion `e`.
pub open spec fn entry_of(e: Emotion) -> EmotionEntry {
    EmotionEntry { emotion_type: e.type_spec(), intensity: e.intensity_spec() }
}

/// What the NPC feels: the dominant emotion, the significant ones and the
/// overall mood.
#[derive(Debug, Clone)]
pub struct EmotionSnapshot {
    pub dominant: Option<EmotionEntry>,
    /// The emotions at least as intense as the emotion threshold,
    /// strongest first.
    pub active_emotions: Vec<EmotionEntry>,
    /// From -1 (very negative) to 1 (very positive), as float bits.
    pub mood: u32,
}

/// Whether `r` is the snapshot of the emotions `es` with emotion threshold
/// `threshold` and overall mood `mood`.
pub open spec fn snapshot_of(r: EmotionSnapshot, es: Seq<Emotion>, threshold: u32, mood: u32) -> bool {
    &&& r.dominant == (if es.len() == 0 {
        None::<EmotionEntry>
    } else {
        Some(entry_of(es[strongest_index(es)]))
    })
    &&& exists|s: Seq<Emotion>|
        strongest_first(s, es.filter(reaching(threshold))) && #[trigger] r.active_emotions@ == s.map_values(
            |e: Emotion| entry_of(e),
        )
    &&& r.mood == mood
}

impl EmotionSnapshot {
    /// The snapshot of `state`, whose overall valence is `mood` (float
    /// bits); emotions count as active from `threshold` on.
    pub fn from_state(state: &EmotionState, threshold: u32, mood: u32) -> (r: EmotionSnapshot)
        ensures
            snapshot_of(r, state@, threshold, mood),
    {
        let dominant = match state.dominant() {
            Some(e) => Some(EmotionEntry { emotion_type: e.emotion_type(), intensity: e.intensity() }),
            None => None,
        };
        let sig = state.significant(threshold);
        let mut active: Vec<EmotionEntry> = Vec::new();
        let mut i: usize = 0;
        while i < sig.len()
            invariant
                i <= sig@.len(),
                active@.len() == i,
                forall|j: int| 0 <= j < i ==> #[trigger] active@[j] == entry_of(sig@[j]),
            decreases sig@.len() - i,
        {
            let e = sig[i];
            active.push(EmotionEntry { emotion_type: e.emotion_type(), intensity: e.intensity() });
            i = i + 1;
        }
        assert(active@ =~= sig@.map_values(|e: Emotion| entry_of(e)));
        EmotionSnapshot { dominant, active_emotions: active, mood }
    }
}


/// A score is very high above the very-high boundary, else high above the
/// high one, else neutral above the low one, else low above the very-low
/// one, and very low otherwise (a NaN lies above no boundary).
pub proof fn law_levels_by_boundary(x: u32, th: LevelThresholds)
    ensures
        f32_lt(th.very_high, x) ==> level_of(x, th) == RelationshipLevel::VeryHigh,
        !f32_lt(th.very_high, x) && f32_lt(th.high, x) ==> level_of(x, th) == RelationshipLevel::High,
        !f32_lt(th.very_high, x) && !f32_lt(th.high, x) && f32_lt(th.low, x) ==> level_of(x, th) == RelationshipLevel::Neutral,
        !f32_lt(th.very_high, x) && !f32_lt(th.high, x) && !f32_lt(th.low, x) && f32_lt(th.very_low, x) ==> level_of(x, th) == RelationshipLevel::Low,
        !f32_lt(th.very_high, x) && !f32_lt(th.high, x) && !f32_lt(th.low, x) && !f32_lt(th.very_low, x) ==> level_of(x, th) == RelationshipLevel::VeryLow,
{
}

} // verus!
