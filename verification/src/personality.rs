//! HEXACO personalities: six dimensions of four facets each, every facet a
//! score from -1 (the opposite trait is strong) through 0 (average) to 1
//! (the trait is strong), and the NPCs that have them.
//!
//! Scores are 32-bit floats held as their bit patterns (see `float_bits`).

use vstd::prelude::*;
use crate::float_bits::{
    at_least, clamp, f32_clamp, f32_ge, f32_is_nan, lemma_nonnegative_finite, lemma_nonpositive_finite,
};

verus! {

/// The lowest score, -1.0.
pub const SCORE_MIN: u32 = 0xBF80_0000u32;

/// The highest score, 1.0.
pub const SCORE_MAX: u32 = 0x3F80_0000u32;

/// The average score, 0.0.
pub const SCORE_NEUTRAL: u32 = 0u32;

/// Whether `v` lies in [-1, 1] (so it is no NaN).
pub open spec fn score_in_range(v: u32) -> bool {
    f32_ge(v, SCORE_MIN) && f32_ge(SCORE_MAX, v)
}

/// Why a score was refused.
#[derive(Debug, Clone)]
pub enum PersonalityError {
    /// `value` of the facet `field` lies outside [`min`, `max`].
    ScoreOutOfRange { field: String, value: u32, min: u32, max: u32 },
}

/// A facet score: in [-1, 1], or NaN when a NaN was clamped into it.
#[derive(Debug, Clone, Copy)]
pub struct Score(u32);

impl Score {
    /// The score's value (float bits).
    pub closed spec fn value_spec(self) -> u32 {
        self.0
    }

    #[verifier::type_invariant]
    closed spec fn well_formed(self) -> bool {
        score_in_range(self.0) || f32_is_nan(self.0)
    }

    /// The score `value`; an error naming `field` when it lies outside
    /// [-1, 1] (a NaN does too).
    pub fn new(value: u32, field: &str) -> (r: Result<Score, PersonalityError>)
        ensures
            score_in_range(value) ==> (r matches Ok(s) && s.value_spec() == value),
            !score_in_range(value) ==> (r matches Err(PersonalityError::ScoreOutOfRange { field: f, value: v, min, max })
                && f@ == field@ && v == value && min == SCORE_MIN && max == SCORE_MAX),
    {
        if at_least(value, SCORE_MIN) && at_least(SCORE_MAX, value) {
            Ok(Score(value))
        } else {
            Err(PersonalityError::ScoreOutOfRange { field: field.to_owned(), value, min: SCORE_MIN, max: SCORE_MAX })
        }
    }

    /// `value` clamped to [-1, 1]; this always succeeds (a NaN stays NaN).
    pub fn clamped(value: u32) -> (r: Score)
        ensures
            r.value_spec() == f32_clamp(value, SCORE_MIN, SCORE_MAX),
    {
        proof {
            lemma_nonnegative_finite(SCORE_MAX);
            lemma_nonpositive_finite(SCORE_MIN);
        }
        Score(clamp(value, SCORE_MIN, SCORE_MAX))
    }

    /// The average score, 0.
    pub fn neutral() -> (r: Score)
        ensures
            r.value_spec() == SCORE_NEUTRAL,
    {
        proof {
            lemma_nonnegative_finite(SCORE_MAX);
            lemma_nonnegative_finite(SCORE_NEUTRAL);
            lemma_nonpositive_finite(SCORE_MIN);
        }
        Score(SCORE_NEUTRAL)
    }

    /// The score: in [-1, 1] unless a NaN was clamped into it.
    pub fn value(&self) -> (r: u32)
        ensures
            r == self.value_spec(),
            score_in_range(r) || f32_is_nan(r),
    {
        proof {
            use_type_invariant(self);
        }
        self.0
    }

    /// The strength regardless of direction: the absolute value, in
    /// [0, 1] (float bits).
    pub fn intensity(&self) -> (r: u32)
        ensures
            r == self.value_spec() & 0x7FFF_FFFFu32,
    {
        self.0 & 0x7FFF_FFFFu32
    }
}

/// H: sincere, fair, unselfish and modest (+), or the opposite (-).
#[derive(Debug, Clone, Copy)]
pub struct HonestyHumility {
    pub sincerity: Score,
    pub fairness: Score,
    pub greed_avoidance: Score,
    pub modesty: Score,
}

/// E: fearful, anxious, dependent and sentimental (+), or bold and
/// detached (-).
#[derive(Debug, Clone, Copy)]
pub struct Emotionality {
    pub fearfulness: Score,
    pub anxiety: Score,
    pub dependence: Score,
    pub sentimentality: Score,
}

/// X: confident, bold, sociable and lively (+), or reserved and quiet (-).
#[derive(Debug, Clone, Copy)]
pub struct Extraversion {
    pub social_self_esteem: Score,
    pub social_boldness: Score,
    pub sociability: Score,
    pub liveliness: Score,
}

/// A: forgiving, gentle, flexible and patient (+), or resentful, critical
/// and stubborn (-).
#[derive(Debug, Clone, Copy)]
pub struct Agreeableness {
    pub forgiveness: Score,
    pub gentleness: Score,
    pub flexibility: Score,
    pub patience: Score,
}

/// C: organised, diligent, perfectionist and prudent (+), or impulsive and
/// careless (-).
#[derive(Debug, Clone, Copy)]
pub struct Conscientiousness {
    pub organization: Score,
    pub diligence: Score,
    pub perfectionism: Score,
    pub prudence: Score,
}

/// O: aesthetic, inquisitive, creative and unconventional (+), or
/// conventional (-).
#[derive(Debug, Clone, Copy)]
pub struct Openness {
    pub aesthetic_appreciation: Score,
    pub inquisitiveness: Score,
    pub creativity: Score,
    pub unconventionality: Score,
}

/// A complete HEXACO personality.
#[derive(Debug, Clone, Copy)]
pub struct HexacoProfile {
    pub honesty_humility: HonestyHumility,
    pub emotionality: Emotionality,
    pub extraversion: Extraversion,
    pub agreeableness: Agreeableness,
    pub conscientiousness: Conscientiousness,
    pub openness: Openness,
}

/// The 24 facet scores of `p`, dimension by dimension in the order H, E, X,
/// A, C, O.
pub open spec fn facet_scores(p: HexacoProfile) -> Seq<Score> {
    seq![
        p.honesty_humility.sincerity,
        p.honesty_humility.fairness,
        p.honesty_humility.greed_avoidance,
        p.honesty_humility.modesty,
        p.emotionality.fearfulness,
        p.emotionality.anxiety,
        p.emotionality.dependence,
        p.emotionality.sentimentality,
        p.extraversion.social_self_esteem,
        p.extraversion.social_boldness,
        p.extraversion.sociability,
        p.extraversion.liveliness,
        p.agreeableness.forgiveness,
        p.agreeableness.gentleness,
        p.agreeableness.flexibility,
        p.agreeableness.patience,
        p.conscientiousness.organization,
        p.conscientiousness.diligence,
        p.conscientiousness.perfectionism,
        p.conscientiousness.prudence,
        p.openness.aesthetic_appreciation,
        p.openness.inquisitiveness,
        p.openness.creativity,
        p.openness.unconventionality,
    ]
}

impl HexacoProfile {
    /// The profile with every facet at 0.
    pub fn neutral() -> (r: HexacoProfile)
        ensures
            facet_scores(r).len() == 24,
            forall|i: int| 0 <= i < 24 ==> (#[trigger] facet_scores(r)[i]).value_spec() == SCORE_NEUTRAL,
    {
        let s = Score::neutral();
        HexacoProfile {
            honesty_humility: HonestyHumility { sincerity: s, fairness: s, greed_avoidance: s, modesty: s },
            emotionality: Emotionality { fearfulness: s, anxiety: s, dependence: s, sentimentality: s },
            extraversion: Extraversion { social_self_esteem: s, social_boldness: s, sociability: s, liveliness: s },
            agreeableness: Agreeableness { forgiveness: s, gentleness: s, flexibility: s, patience: s },
            conscientiousness: Conscientiousness { organization: s, diligence: s, perfectionism: s, prudence: s },
            openness: Openness {
                aesthetic_appreciation: s,
                inquisitiveness: s,
                creativity: s,
                unconventionality: s,
            },
        }
    }
}

/// An NPC: who it is, its personality, and optionally its inner compass,
/// the one value that moves it.
#[derive(Debug, Clone)]
pub struct Npc {
    id: String,
    name: String,
    description: String,
    personality: HexacoProfile,
    inner_compass: Option<String>,
}

/// The contents of an NPC.
pub struct NpcView {
    pub id: Seq<char>,
    pub name: Seq<char>,
    pub description: Seq<char>,
    pub personality: HexacoProfile,
    pub inner_compass: Option<Seq<char>>,
}

impl View for Npc {
    type V = NpcView;

    closed spec fn view(&self) -> NpcView {
        NpcView {
            id: self.id@,
            name: self.name@,
            description: self.description@,
            personality: self.personality,
            inner_compass: match self.inner_compass {
                Some(c) => Some(c@),
                None => None,
            },
        }
    }
}

impl Npc {
    /// An NPC without an inner compass.
    pub fn new(id: &str, name: &str, description: &str, personality: HexacoProfile) -> (r: Npc)
        ensures
            r@ == (NpcView {
                id: id@,
                name: name@,
                description: description@,
                personality,
                inner_compass: None,
            }),
    {
        Npc {
            id: id.to_owned(),
            name: name.to_owned(),
            description: description.to_owned(),
            personality,
            inner_compass: None,
        }
    }

    pub fn id(&self) -> (r: &str)
        ensures
            r@ == self@.id,
    {
        self.id.as_str()
    }

    pub fn name(&self) -> (r: &str)
        ensures
            r@ == self@.name,
    {
        self.name.as_str()
    }

    pub fn description(&self) -> (r: &str)
        ensures
            r@ == self@.description,
    {
        self.description.as_str()
    }

    pub fn personality(&self) -> (r: &HexacoProfile)
        ensures
            *r == self@.personality,
    {
        &self.personality
    }

    /// The value that moves the NPC, if one was set.
    pub fn inner_compass(&self) -> (r: Option<&str>)
        ensures
            r is None <==> self@.inner_compass is None,
            r matches Some(c) ==> self@.inner_compass == Some(c@),
    {
        match &self.inner_compass {
            Some(c) => Some(c.as_str()),
            None => None,
        }
    }

    /// The short label of the inner compass for reflection prompts: for
    /// now the whole compass.
    pub fn compass_short_label(&self) -> (r: Option<&str>)
        ensures
            r is None <==> self@.inner_compass is None,
            r matches Some(c) ==> self@.inner_compass == Some(c@),
    {
        self.inner_compass()
    }
}

/// Builds an NPC from a neutral profile, dimension by dimension.
#[derive(Debug, Clone)]
pub struct NpcBuilder {
    pending: Npc,
}

impl View for NpcBuilder {
    type V = NpcView;

    /// The NPC that `build` gives now.
    closed spec fn view(&self) -> NpcView {
        self.pending@
    }
}

impl NpcBuilder {
    /// A builder for an NPC with an empty description, a neutral profile and
    /// no inner compass.
    pub fn new(id: &str, name: &str) -> (r: NpcBuilder)
        ensures
            r@.id == id@,
            r@.name == name@,
            r@.description == Seq::<char>::empty(),
            forall|i: int| 0 <= i < 24 ==> (#[trigger] facet_scores(r@.personality)[i]).value_spec() == SCORE_NEUTRAL,
            r@.inner_compass is None,
    {
        let r = NpcBuilder { pending: Npc::new(id, name, "", HexacoProfile::neutral()) };
        proof {
            reveal_strlit("");
        }
        r
    }

    pub fn description(self, desc: &str) -> (r: NpcBuilder)
        ensures
            r@ == (NpcView { description: desc@, ..self@ }),
    {
        let mut pending = self.pending;
        pending.description = desc.to_owned();
        NpcBuilder { pending }
    }

    /// Sets the inner compass.
    pub fn with_inner_compass(self, compass: &str) -> (r: NpcBuilder)
        ensures
            r@ == (NpcView { inner_compass: Some(compass@), ..self@ }),
    {
        let mut pending = self.pending;
        pending.inner_compass = Some(compass.to_owned());
        NpcBuilder { pending }
    }

    pub fn honesty_humility(self, value: HonestyHumility) -> (r: NpcBuilder)
        ensures
            r@ == (NpcView { personality: HexacoProfile { honesty_humility: value, ..self@.personality }, ..self@ }),
    {
        let mut pending = self.pending;
        pending.personality.honesty_humility = value;
        NpcBuilder { pending }
    }

    pub fn emotionality(self, value: Emotionality) -> (r: NpcBuilder)
        ensures
            r@ == (NpcView { personality: HexacoProfile { emotionality: value, ..self@.personality }, ..self@ }),
    {
        let mut pending = self.pending;
        pending.personality.emotionality = value;
        NpcBuilder { pending }
    }

    pub fn extraversion(self, value: Extraversion) -> (r: NpcBuilder)
        ensures
            r@ == (NpcView { personality: HexacoProfile { extraversion: value, ..self@.personality }, ..self@ }),
    {
        let mut pending = self.pending;
        pending.personality.extraversion = value;
        NpcBuilder { pending }
    }

    pub fn agreeableness(self, value: Agreeableness) -> (r: NpcBuilder)
        ensures
            r@ == (NpcView { personality: HexacoProfile { agreeableness: value, ..self@.personality }, ..self@ }),
    {
        let mut pending = self.pending;
        pending.personality.agreeableness = value;
        NpcBuilder { pending }
    }

    pub fn conscientiousness(self, value: Conscientiousness) -> (r: NpcBuilder)
        ensures
            r@ == (NpcView { personality: HexacoProfile { conscientiousness: value, ..self@.personality }, ..self@ }),
    {
        let mut pending = self.pending;
        pending.personality.conscientiousness = value;
        NpcBuilder { pending }
    }

    pub fn openness(self, value: Openness) -> (r: NpcBuilder)
        ensures
            r@ == (NpcView { personality: HexacoProfile { openness: value, ..self@.personality }, ..self@ }),
    {
        let mut pending = self.pending;
        pending.personality.openness = value;
        NpcBuilder { pending }
    }

    pub fn build(self) -> (r: Npc)
        ensures
            r@ == self@,
    {
        self.pending
    }
}

} // verus!
