//! How an emotion toward someone moves the axes of the relationship: the
//! base change per emotion, which emotions count as negative, and which
//! personality corrections apply.

use vstd::prelude::*;
use crate::emotion::EmotionType;
use crate::float_bits::{less_than, f32_lt, lemma_nonnegative_finite, lemma_nonpositive_finite};
use crate::personality::HexacoProfile;

verus! {

/// A change of the four axes, in whole points of the axis scale.
#[derive(Debug, Clone, Copy, PartialEq, Eq, Structural)]
pub struct AxisDelta {
    pub trust: i32,
    pub affinity: i32,
    pub respect: i32,
    pub wariness: i32,
}

/// The change `(trust, affinity, respect, wariness)` that a full-strength
/// emotion makes. Well-being and prospect emotions, remorse and
/// gratification change nothing.
pub open spec fn base_delta_of(e: EmotionType) -> (int, int, int, int) {
    match e {
        EmotionType::Gratitude => (20, 10, 0, -10),
        EmotionType::Anger => (-25, -10, 0, 25),
        EmotionType::Admiration => (0, 0, 20, 0),
        EmotionType::Reproach => (-10, -10, -25, 10),
        EmotionType::HappyFor => (5, 10, 0, 0),
        EmotionType::Resentment => (0, -10, -5, 15),
        EmotionType::Pity => (0, 10, -5, 0),
        EmotionType::Gloating => (-10, -20, -10, 0),
        EmotionType::Pride => (0, 5, 10, 0),
        EmotionType::Shame => (-5, -10, -10, 5),
        EmotionType::Love => (5, 20, 5, -5),
        EmotionType::Hate => (-10, -25, -5, 15),
        _ => (0, 0, 0, 0),
    }
}

/// The four axes of a delta, as a tuple.
pub open spec fn delta_tuple(d: AxisDelta) -> (int, int, int, int) {
    (d.trust as int, d.affinity as int, d.respect as int, d.wariness as int)
}

fn delta(trust: i32, affinity: i32, respect: i32, wariness: i32) -> (r: AxisDelta)
    ensures
        r.trust == trust,
        r.affinity == affinity,
        r.respect == respect,
        r.wariness == wariness,
{
    AxisDelta { trust, affinity, respect, wariness }
}

/// The base change of the axes for an emotion at full strength.
pub fn base_delta(emotion: EmotionType) -> (r: AxisDelta)
    ensures
        delta_tuple(r) == base_delta_of(emotion),
        emotion == EmotionType::Gratitude ==> delta_tuple(r) == (20int, 10int, 0int, -10int),
        emotion == EmotionType::Anger ==> delta_tuple(r) == (-25int, -10int, 0int, 25int),
        emotion == EmotionType::Admiration ==> delta_tuple(r) == (0int, 0int, 20int, 0int),
        emotion == EmotionType::Reproach ==> delta_tuple(r) == (-10int, -10int, -25int, 10int),
        emotion == EmotionType::HappyFor ==> delta_tuple(r) == (5int, 10int, 0int, 0int),
        emotion == EmotionType::Resentment ==> delta_tuple(r) == (0int, -10int, -5int, 15int),
        emotion == EmotionType::Pity ==> delta_tuple(r) == (0int, 10int, -5int, 0int),
        emotion == EmotionType::Gloating ==> delta_tuple(r) == (-10int, -20int, -10int, 0int),
        emotion == EmotionType::Pride ==> delta_tuple(r) == (0int, 5int, 10int, 0int),
        emotion == EmotionType::Shame ==> delta_tuple(r) == (-5int, -10int, -10int, 5int),
        emotion == EmotionType::Love ==> delta_tuple(r) == (5int, 20int, 5int, -5int),
        emotion == EmotionType::Hate ==> delta_tuple(r) == (-10int, -25int, -5int, 15int),
        (emotion == EmotionType::Joy || emotion == EmotionType::Distress || emotion == EmotionType::Hope || emotion == EmotionType::Fear || emotion == EmotionType::Satisfaction || emotion == EmotionType::Disappointment || emotion == EmotionType::Relief || emotion == EmotionType::FearsConfirmed || emotion == EmotionType::Gratification || emotion == EmotionType::Remorse) ==> delta_tuple(r) == (0int, 0int, 0int, 0int),
{
    match emotion {
        EmotionType::Gratitude => delta(20, 10, 0, -10),
        EmotionType::Anger => delta(-25, -10, 0, 25),
        EmotionType::Admiration => delta(0, 0, 20, 0),
        EmotionType::Reproach => delta(-10, -10, -25, 10),
        EmotionType::HappyFor => delta(5, 10, 0, 0),
        EmotionType::Resentment => delta(0, -10, -5, 15),
        EmotionType::Pity => delta(0, 10, -5, 0),
        EmotionType::Gloating => delta(-10, -20, -10, 0),
        EmotionType::Pride => delta(0, 5, 10, 0),
        EmotionType::Shame => delta(-5, -10, -10, 5),
        EmotionType::Love => delta(5, 20, 5, -5),
        EmotionType::Hate => delta(-10, -25, -5, 15),
        _ => delta(0, 0, 0, 0),
    }
}

/// The negative emotions: those of negative OCC valence (distress, fear,
/// disappointment, fears confirmed, anger, reproach, resentment, gloating,
/// hate, shame, remorse). Pity is not among them.
pub open spec fn negative_emotion(e: EmotionType) -> bool {
    match e {
        EmotionType::Anger | EmotionType::Reproach | EmotionType::Resentment | EmotionType::Gloating
        | EmotionType::Hate | EmotionType::Distress | EmotionType::Fear | EmotionType::Disappointment
        | EmotionType::FearsConfirmed | EmotionType::Shame | EmotionType::Remorse => true,
        _ => false,
    }
}

/// Whether an emotion is negative (the condition of the low-forgiveness rule).
pub fn is_negative_emotion(emotion: EmotionType) -> (r: bool)
    ensures
        r == negative_emotion(emotion),
{
    match emotion {
        EmotionType::Anger | EmotionType::Reproach | EmotionType::Resentment | EmotionType::Gloating
        | EmotionType::Hate | EmotionType::Distress | EmotionType::Fear | EmotionType::Disappointment
        | EmotionType::FearsConfirmed | EmotionType::Shame | EmotionType::Remorse => true,
        _ => false,
    }
}

/// A facet above this (0.5) is high.
pub const HIGH_THRESHOLD: u32 = 0x3F00_0000u32;

/// A facet below this (-0.5) is low.
pub const LOW_THRESHOLD: u32 = 0xBF00_0000u32;

/// Which of the personality's corrections apply to the axis changes of an
/// emotion. Each scales the changes: high sincerity trust by 1.2, high
/// patience all by 0.7, low forgiveness those of a negative emotion by
/// 1.5, high anxiety wariness by 1.3, high prudence all by 0.8.
#[derive(Debug, Clone, Copy, PartialEq, Eq, Structural)]
pub struct HexacoRules {
    pub sincere: bool,
    pub patient: bool,
    pub unforgiving: bool,
    pub anxious: bool,
    pub prudent: bool,
}

impl HexacoRules {
    /// The corrections that `hexaco` brings to the changes of `emotion`.
    pub fn of(emotion: EmotionType, hexaco: &HexacoProfile) -> (r: HexacoRules)
        ensures
            r.sincere == f32_lt(HIGH_THRESHOLD, hexaco.honesty_humility.sincerity.value_spec()),
            r.patient == f32_lt(HIGH_THRESHOLD, hexaco.agreeableness.patience.value_spec()),
            r.unforgiving == (f32_lt(hexaco.agreeableness.forgiveness.value_spec(), LOW_THRESHOLD)
                && negative_emotion(emotion)),
            r.anxious == f32_lt(HIGH_THRESHOLD, hexaco.emotionality.anxiety.value_spec()),
            r.prudent == f32_lt(HIGH_THRESHOLD, hexaco.conscientiousness.prudence.value_spec()),
    {
        HexacoRules {
            sincere: less_than(HIGH_THRESHOLD, hexaco.honesty_humility.sincerity.value()),
            patient: less_than(HIGH_THRESHOLD, hexaco.agreeableness.patience.value()),
            unforgiving: less_than(hexaco.agreeableness.forgiveness.value(), LOW_THRESHOLD) && is_negative_emotion(
                emotion,
            ),
            anxious: less_than(HIGH_THRESHOLD, hexaco.emotionality.anxiety.value()),
            prudent: less_than(HIGH_THRESHOLD, hexaco.conscientiousness.prudence.value()),
        }
    }
}


/// The base change `(trust, affinity, respect, wariness)` of each emotion
/// at full strength: gratitude (20, 10, 0, -10), anger (-25, -10, 0, 25),
/// admiration (0, 0, 20, 0), reproach (-10, -10, -25, 10), happy-for
/// (5, 10, 0, 0), resentment (0, -10, -5, 15), pity (0, 10, -5, 0),
/// gloating (-10, -20, -10, 0), pride (0, 5, 10, 0), shame (-5, -10, -10,
/// 5), love (5, 20, 5, -5), hate (-10, -25, -5, 15); the well-being and
/// prospect emotions, remorse and gratification change nothing.
pub proof fn law_base_delta(e: EmotionType)
    ensures
        e == EmotionType::Gratitude ==> base_delta_of(e) == (20int, 10int, 0int, -10int),
        e == EmotionType::Anger ==> base_delta_of(e) == (-25int, -10int, 0int, 25int),
        e == EmotionType::Admiration ==> base_delta_of(e) == (0int, 0int, 20int, 0int),
        e == EmotionType::Reproach ==> base_delta_of(e) == (-10int, -10int, -25int, 10int),
        e == EmotionType::HappyFor ==> base_delta_of(e) == (5int, 10int, 0int, 0int),
        e == EmotionType::Resentment ==> base_delta_of(e) == (0int, -10int, -5int, 15int),
        e == EmotionType::Pity ==> base_delta_of(e) == (0int, 10int, -5int, 0int),
        e == EmotionType::Gloating ==> base_delta_of(e) == (-10int, -20int, -10int, 0int),
        e == EmotionType::Pride ==> base_delta_of(e) == (0int, 5int, 10int, 0int),
        e == EmotionType::Shame ==> base_delta_of(e) == (-5int, -10int, -10int, 5int),
        e == EmotionType::Love ==> base_delta_of(e) == (5int, 20int, 5int, -5int),
        e == EmotionType::Hate ==> base_delta_of(e) == (-10int, -25int, -5int, 15int),
        (e == EmotionType::Joy || e == EmotionType::Distress || e == EmotionType::Hope || e == EmotionType::Fear || e == EmotionType::Satisfaction || e == EmotionType::Disappointment || e == EmotionType::Relief || e == EmotionType::FearsConfirmed || e == EmotionType::Gratification || e == EmotionType::Remorse) ==> base_delta_of(e) == (0int, 0int, 0int, 0int),
{
}


/// The emotions that count as negative for the low-forgiveness rule: anger,
/// reproach, resentment, gloating, hate, distress, fear, disappointment,
/// fears-confirmed, shame and remorse; no other.
pub proof fn law_negative_emotions(e: EmotionType)
    ensures
        (e == EmotionType::Anger || e == EmotionType::Reproach || e == EmotionType::Resentment || e == EmotionType::Gloating || e == EmotionType::Hate || e == EmotionType::Distress || e == EmotionType::Fear || e == EmotionType::Disappointment || e == EmotionType::FearsConfirmed || e == EmotionType::Shame || e == EmotionType::Remorse) ==> negative_emotion(e),
        (e == EmotionType::Joy || e == EmotionType::HappyFor || e == EmotionType::Pity || e == EmotionType::Hope || e == EmotionType::Satisfaction || e == EmotionType::Relief || e == EmotionType::Pride || e == EmotionType::Admiration || e == EmotionType::Gratification || e == EmotionType::Gratitude || e == EmotionType::Love) ==> !negative_emotion(e),
{
}


/// A personality correction applies when a facet lies beyond 0.5 (above
/// it for sincerity, patience, anxiety and prudence, below -0.5 for
/// forgiveness): a neutral facet (0) triggers none, a facet at 0.6 or -0.6
/// triggers its own.
pub proof fn law_correction_thresholds()
    ensures
        HIGH_THRESHOLD == 0x3F00_0000u32,
        LOW_THRESHOLD == 0xBF00_0000u32,
        !f32_lt(HIGH_THRESHOLD, 0u32) && !f32_lt(0u32, LOW_THRESHOLD),
        f32_lt(HIGH_THRESHOLD, 0x3F19_999Au32) && f32_lt(0xBF19_999Au32, LOW_THRESHOLD),
{
    lemma_nonnegative_finite(0u32);
    lemma_nonnegative_finite(0x3F00_0000u32);
    lemma_nonnegative_finite(0x3F19_999Au32);
    lemma_nonpositive_finite(0xBF00_0000u32);
    lemma_nonpositive_finite(0xBF19_999Au32);
}

} // verus!
