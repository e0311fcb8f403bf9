//! OCC emotions: their kinds and branches, the situations that raise them,
//! and the emotional state of an NPC (which emotion dominates, which are
//! significant, strongest first).

use vstd::prelude::*;
use crate::float_bits::{
    clamp, at_least, is_nan, less_than, f32_clamp, f32_ge, f32_key, f32_is_nan, f32_lt, f32_neg, lemma_nonnegative_finite,
};

pub mod scene;

verus! {

/// The 22 OCC emotions.
#[derive(Debug, Clone, Copy, PartialEq, Eq, Hash, Structural)]
pub enum EmotionType {
    // Well-being.
    Joy,
    Distress,
    // Fortune of others.
    HappyFor,
    Pity,
    Gloating,
    Resentment,
    // Prospect-based.
    Hope,
    Fear,
    Satisfaction,
    Disappointment,
    Relief,
    FearsConfirmed,
    // Attribution.
    Pride,
    Shame,
    Admiration,
    Reproach,
    // Compound (attribution and well-being).
    Gratification,
    Remorse,
    Gratitude,
    Anger,
    // Attraction.
    Love,
    Hate,
}

/// What an emotion is a reaction to.
#[derive(Debug, Clone, Copy, PartialEq, Eq, Structural)]
pub enum EmotionBranch {
    /// The consequences of an event.
    Event,
    /// The action of an agent.
    Action,
    /// The aspects of an object.
    Object,
}

/// The branch of an emotion: well-being, fortune-of-others and prospect
/// emotions react to events; attribution and compound emotions to actions;
/// love and hate to objects.
pub open spec fn branch_of(e: EmotionType) -> EmotionBranch {
    match e {
        EmotionType::Joy | EmotionType::Distress | EmotionType::HappyFor | EmotionType::Pity
        | EmotionType::Gloating | EmotionType::Resentment | EmotionType::Hope | EmotionType::Fear
        | EmotionType::Satisfaction | EmotionType::Disappointment | EmotionType::Relief
        | EmotionType::FearsConfirmed => EmotionBranch::Event,
        EmotionType::Pride | EmotionType::Shame | EmotionType::Admiration | EmotionType::Reproach
        | EmotionType::Gratification | EmotionType::Remorse | EmotionType::Gratitude
        | EmotionType::Anger => EmotionBranch::Action,
        EmotionType::Love | EmotionType::Hate => EmotionBranch::Object,
    }
}

impl EmotionType {
    /// The branch the emotion belongs to.
    pub fn branch(&self) -> (r: EmotionBranch)
        ensures
            r == branch_of(*self),
            (*self == EmotionType::Joy || *self == EmotionType::Distress || *self == EmotionType::HappyFor || *self == EmotionType::Pity || *self == EmotionType::Gloating || *self == EmotionType::Resentment || *self == EmotionType::Hope || *self == EmotionType::Fear || *self == EmotionType::Satisfaction || *self == EmotionType::Disappointment || *self == EmotionType::Relief || *self == EmotionType::FearsConfirmed) ==> r == EmotionBranch::Event,
            (*self == EmotionType::Pride || *self == EmotionType::Shame || *self == EmotionType::Admiration || *self == EmotionType::Reproach || *self == EmotionType::Gratification || *self == EmotionType::Remorse || *self == EmotionType::Gratitude || *self == EmotionType::Anger) ==> r == EmotionBranch::Action,
            (*self == EmotionType::Love || *self == EmotionType::Hate) ==> r == EmotionBranch::Object,
    {
        match self {
            EmotionType::Joy | EmotionType::Distress | EmotionType::HappyFor | EmotionType::Pity
            | EmotionType::Gloating | EmotionType::Resentment | EmotionType::Hope | EmotionType::Fear
            | EmotionType::Satisfaction | EmotionType::Disappointment | EmotionType::Relief
            | EmotionType::FearsConfirmed => EmotionBranch::Event,
            EmotionType::Pride | EmotionType::Shame | EmotionType::Admiration | EmotionType::Reproach
            | EmotionType::Gratification | EmotionType::Remorse | EmotionType::Gratitude
            | EmotionType::Anger => EmotionBranch::Action,
            EmotionType::Love | EmotionType::Hate => EmotionBranch::Object,
        }
    }
}

/// The base valence of an emotion, as a float bit pattern: 1.0 for the
/// positive emotions, -1.0 for the negative ones, 0.5 for gloating (a dark
/// joy) and -0.5 for resentment (an envious one).
pub open spec fn base_valence_bits(e: EmotionType) -> u32 {
    match e {
        EmotionType::Joy | EmotionType::HappyFor | EmotionType::Hope | EmotionType::Satisfaction
        | EmotionType::Relief | EmotionType::Pride | EmotionType::Admiration | EmotionType::Gratification
        | EmotionType::Gratitude | EmotionType::Love => 0x3F80_0000u32,
        EmotionType::Distress | EmotionType::Pity | EmotionType::Fear | EmotionType::Disappointment
        | EmotionType::FearsConfirmed | EmotionType::Shame | EmotionType::Reproach | EmotionType::Remorse
        | EmotionType::Anger | EmotionType::Hate => 0xBF80_0000u32,
        EmotionType::Gloating => 0x3F00_0000u32,
        EmotionType::Resentment => 0xBF00_0000u32,
    }
}

impl EmotionType {
    /// The base valence of the emotion (see `base_valence_bits`).
    pub fn base_valence(&self) -> (r: u32)
        ensures
            r == base_valence_bits(*self),
            (*self == EmotionType::Joy || *self == EmotionType::HappyFor || *self == EmotionType::Hope || *self == EmotionType::Satisfaction || *self == EmotionType::Relief || *self == EmotionType::Pride || *self == EmotionType::Admiration || *self == EmotionType::Gratification || *self == EmotionType::Gratitude || *self == EmotionType::Love) ==> r == 0x3F80_0000u32,
            (*self == EmotionType::Distress || *self == EmotionType::Pity || *self == EmotionType::Fear || *self == EmotionType::Disappointment || *self == EmotionType::FearsConfirmed || *self == EmotionType::Shame || *self == EmotionType::Reproach || *self == EmotionType::Remorse || *self == EmotionType::Anger || *self == EmotionType::Hate) ==> r == 0xBF80_0000u32,
            *self == EmotionType::Gloating ==> r == 0x3F00_0000u32,
            *self == EmotionType::Resentment ==> r == 0xBF00_0000u32,
    {
        match self {
            EmotionType::Joy | EmotionType::HappyFor | EmotionType::Hope | EmotionType::Satisfaction
            | EmotionType::Relief | EmotionType::Pride | EmotionType::Admiration | EmotionType::Gratification
            | EmotionType::Gratitude | EmotionType::Love => 0x3F80_0000u32,
            EmotionType::Distress | EmotionType::Pity | EmotionType::Fear | EmotionType::Disappointment
            | EmotionType::FearsConfirmed | EmotionType::Shame | EmotionType::Reproach | EmotionType::Remorse
            | EmotionType::Anger | EmotionType::Hate => 0xBF80_0000u32,
            EmotionType::Gloating => 0x3F00_0000u32,
            EmotionType::Resentment => 0xBF00_0000u32,
        }
    }
}

/// The outcome of an earlier prospect.
#[derive(Debug, Clone, Copy, PartialEq, Eq, Structural)]
pub enum ProspectResult {
    /// What was hoped for happened: satisfaction.
    HopeFulfilled,
    /// What was hoped for did not happen: disappointment.
    HopeUnfulfilled,
    /// What was feared did not happen: relief.
    FearUnrealized,
    /// What was feared happened: fears confirmed.
    FearConfirmed,
}

/// Whether an event is still to come or settles an earlier prospect.
#[derive(Debug, Clone, Copy, PartialEq, Eq, Structural)]
pub enum Prospect {
    /// A future event: hope or fear.
    Anticipation,
    /// The outcome of an earlier hope or fear.
    Confirmation(ProspectResult),
}

/// The emotion that settling a prospect gives.
pub open spec fn confirmation_emotion(r: ProspectResult) -> EmotionType {
    match r {
        ProspectResult::HopeFulfilled => EmotionType::Satisfaction,
        ProspectResult::HopeUnfulfilled => EmotionType::Disappointment,
        ProspectResult::FearUnrealized => EmotionType::Relief,
        ProspectResult::FearConfirmed => EmotionType::FearsConfirmed,
    }
}

impl ProspectResult {
    /// The emotion that this outcome of a hope or fear gives: satisfaction,
    /// disappointment, relief or fears-confirmed.
    pub fn confirmation_emotion(&self) -> (r: EmotionType)
        ensures
            r == confirmation_emotion(*self),
            *self == ProspectResult::HopeFulfilled ==> r == EmotionType::Satisfaction,
            *self == ProspectResult::HopeUnfulfilled ==> r == EmotionType::Disappointment,
            *self == ProspectResult::FearUnrealized ==> r == EmotionType::Relief,
            *self == ProspectResult::FearConfirmed ==> r == EmotionType::FearsConfirmed,
    {
        match self {
            ProspectResult::HopeFulfilled => EmotionType::Satisfaction,
            ProspectResult::HopeUnfulfilled => EmotionType::Disappointment,
            ProspectResult::FearUnrealized => EmotionType::Relief,
            ProspectResult::FearConfirmed => EmotionType::FearsConfirmed,
        }
    }

    /// Whether the outcome is the one hoped for: a hope fulfilled or a fear
    /// unrealised. Those emotions are amplified as positive ones.
    pub fn is_favourable(&self) -> (r: bool)
        ensures
            r == (*self is HopeFulfilled || *self is FearUnrealized),
    {
        match self {
            ProspectResult::HopeFulfilled | ProspectResult::FearUnrealized => true,
            _ => false,
        }
    }
}

/// What had been expected of an event that has now been settled.
#[derive(Debug, Clone, Copy, PartialEq, Eq, Structural)]
pub enum PriorExpectation {
    /// What was hoped for happened.
    HopeFulfilled,
    /// What was hoped for did not happen.
    HopeUnfulfilled,
    /// What was feared did not happen.
    FearUnrealized,
    /// What was feared happened.
    FearConfirmed,
}

/// The outcome a prior expectation stands for.
pub open spec fn expectation_outcome(e: PriorExpectation) -> ProspectResult {
    match e {
        PriorExpectation::HopeFulfilled => ProspectResult::HopeFulfilled,
        PriorExpectation::HopeUnfulfilled => ProspectResult::HopeUnfulfilled,
        PriorExpectation::FearUnrealized => ProspectResult::FearUnrealized,
        PriorExpectation::FearConfirmed => ProspectResult::FearConfirmed,
    }
}

impl PriorExpectation {
    /// The outcome this expectation stands for.
    pub fn outcome(&self) -> (r: ProspectResult)
        ensures
            r == expectation_outcome(*self),
    {
        match self {
            PriorExpectation::HopeFulfilled => ProspectResult::HopeFulfilled,
            PriorExpectation::HopeUnfulfilled => ProspectResult::HopeUnfulfilled,
            PriorExpectation::FearUnrealized => ProspectResult::FearUnrealized,
            PriorExpectation::FearConfirmed => ProspectResult::FearConfirmed,
        }
    }
}

/// How the relationship to the other side scales the emotions of an
/// appraisal, as float bit patterns.
#[derive(Debug, Clone, Copy, PartialEq, Eq, Structural)]
pub struct RelationshipModifiers {
    pub intensity_multiplier: u32,
    pub trust_modifier: u32,
    pub empathy_modifier: u32,
    pub hostility_modifier: u32,
}

/// The bit pattern of 1.0.
pub const UNIT_BITS: u32 = 0x3F80_0000u32;

impl RelationshipModifiers {
    /// No scaling: every modifier 1.0.
    pub fn neutral() -> (r: RelationshipModifiers)
        ensures
            r.intensity_multiplier == UNIT_BITS,
            r.trust_modifier == UNIT_BITS,
            r.empathy_modifier == UNIT_BITS,
            r.hostility_modifier == UNIT_BITS,
    {
        RelationshipModifiers {
            intensity_multiplier: UNIT_BITS,
            trust_modifier: UNIT_BITS,
            empathy_modifier: UNIT_BITS,
            hostility_modifier: UNIT_BITS,
        }
    }
}

/// Something that happened to someone: the event branch of a situation.
#[derive(Debug, Clone)]
pub struct EventFocus {
    pub description: String,
    /// How desirable the event is for the NPC, in [-1, 1] (float bits).
    pub desirability_for_self: u32,
    pub desirability_for_other: Option<DesirabilityForOther>,
    pub prospect: Option<Prospect>,
}

/// How desirable an event is for someone else.
#[derive(Debug, Clone)]
pub struct DesirabilityForOther {
    pub target_id: String,
    /// In [-1, 1] (float bits).
    pub desirability: u32,
    pub modifiers: RelationshipModifiers,
}

/// Something someone did: the action branch of a situation.
#[derive(Debug, Clone)]
pub struct ActionFocus {
    pub description: String,
    /// The agent; none for the NPC itself.
    pub agent_id: Option<String>,
    /// From -1 (blameworthy) to 1 (praiseworthy) (float bits).
    pub praiseworthiness: u32,
    pub modifiers: Option<RelationshipModifiers>,
}

/// Something the NPC perceives: the object branch of a situation.
#[derive(Debug, Clone)]
pub struct ObjectFocus {
    pub target_id: String,
    pub target_description: String,
    /// From -1 (repulsive) to 1 (appealing) (float bits).
    pub appealingness: u32,
}

/// What the appraisal reacts to: at least one of the three branches.
#[derive(Debug, Clone)]
pub struct Situation {
    pub description: String,
    pub event: Option<EventFocus>,
    pub action: Option<ActionFocus>,
    pub object: Option<ObjectFocus>,
}

impl Situation {
    /// A situation with the given foci; it needs at least one.
    pub fn new(description: &str, event: Option<EventFocus>, action: Option<ActionFocus>, object: Option<ObjectFocus>) -> (r:
        Result<Situation, SituationError>)
        ensures
            event is None && action is None && object is None ==> r == Err::<Situation, SituationError>(
                SituationError::NoFocus,
            ),
            !(event is None && action is None && object is None) ==> (r matches Ok(s) && s.description@
                == description@ && s.event == event && s.action == action && s.object == object),
    {
        if event.is_none() && action.is_none() && object.is_none() {
            return Err(SituationError::NoFocus);
        }
        Ok(Situation { description: description.to_owned(), event, action, object })
    }

    /// How many of the three branches are present.
    pub fn focus_count(&self) -> (r: usize)
        ensures
            r == (if self.event is Some { 1int } else { 0int }) + (if self.action is Some { 1int } else { 0int }) + (
            if self.object is Some { 1int } else { 0int }),
    {
        let mut n: usize = 0;
        if self.event.is_some() {
            n = n + 1;
        }
        if self.action.is_some() {
            n = n + 1;
        }
        if self.object.is_some() {
            n = n + 1;
        }
        n
    }
}

/// Why a situation could not be made.
#[derive(Debug, Clone, PartialEq, Eq, Structural)]
pub enum SituationError {
    /// A situation needs at least one focus (event, action or object).
    NoFocus,
}

/// The message of a situation error.
pub open spec fn situation_error_text(e: SituationError) -> Seq<char> {
    match e {
        SituationError::NoFocus => "최소 하나의 Focus(Event/Action/Object)가 필요합니다"@,
    }
}

impl SituationError {
    /// The message of the error.
    pub fn to_string(&self) -> (r: String)
        ensures
            r@ == situation_error_text(*self),
    {
        match self {
            SituationError::NoFocus => String::from_str("최소 하나의 Focus(Event/Action/Object)가 필요합니다"),
        }
    }
}

/// The bit pattern of 0.0.
pub const ZERO_BITS: u32 = 0u32;

/// One emotion and its intensity in [0, 1] (float bits).
#[derive(Debug, Clone, Copy)]
pub struct Emotion {
    emotion_type: EmotionType,
    intensity: u32,
}

/// Whether `x` lies in [0, 1] or is NaN (clamping leaves a NaN as it is).
pub open spec fn unit_or_nan(x: u32) -> bool {
    f32_is_nan(x) || in_unit(x)
}

/// Whether `x` is a number in [0, 1].
pub open spec fn in_unit(x: u32) -> bool {
    f32_ge(x, ZERO_BITS) && f32_ge(UNIT_BITS, x)
}

/// An intensity brought into [0, 1]: a number is clamped, a NaN counts as
/// 0 (not felt).
pub open spec fn unit_intensity(x: u32) -> u32 {
    if f32_is_nan(x) {
        ZERO_BITS
    } else {
        f32_clamp(x, ZERO_BITS, UNIT_BITS)
    }
}

impl Emotion {
    /// The intensity (float bits).
    pub closed spec fn intensity_spec(self) -> u32 {
        self.intensity
    }

    #[verifier::type_invariant]
    closed spec fn well_formed(self) -> bool {
        in_unit(self.intensity)
    }

    /// The kind of the emotion.
    pub closed spec fn type_spec(self) -> EmotionType {
        self.emotion_type
    }

    /// An emotion with its intensity clamped to [0, 1] (a NaN gives 0).
    pub fn new(emotion_type: EmotionType, intensity: u32) -> (r: Emotion)
        ensures
            r.type_spec() == emotion_type,
            r.intensity_spec() == unit_intensity(intensity),
            in_unit(r.intensity_spec()),
    {
        proof {
            lemma_nonnegative_finite(ZERO_BITS);
            lemma_nonnegative_finite(UNIT_BITS);
        }
        let v = if is_nan(intensity) {
            ZERO_BITS
        } else {
            clamp(intensity, ZERO_BITS, UNIT_BITS)
        };
        Emotion { emotion_type, intensity: v }
    }

    pub fn emotion_type(&self) -> (r: EmotionType)
        ensures
            r == self.type_spec(),
    {
        self.emotion_type
    }

    /// The intensity, in [0, 1].
    pub fn intensity(&self) -> (r: u32)
        ensures
            r == self.intensity_spec(),
            in_unit(r),
    {
        proof {
            use_type_invariant(self);
        }
        self.intensity
    }

    /// Whether the intensity reaches `threshold`.
    pub fn is_significant(&self, threshold: u32) -> (r: bool)
        ensures
            r == f32_ge(self.intensity_spec(), threshold),
    {
        at_least(self.intensity, threshold)
    }
}

/// The strength by which emotions are ranked: the order of their
/// intensities.
pub open spec fn strength(e: Emotion) -> int {
    f32_key(e.intensity_spec())
}

/// Whether `e` has no NaN intensity.
pub open spec fn comparable(e: Emotion) -> bool {
    !f32_is_nan(e.intensity_spec())
}

/// The test "at least `threshold` intense".
pub open spec fn reaching(threshold: u32) -> spec_fn(Emotion) -> bool {
    |e: Emotion| f32_ge(e.intensity_spec(), threshold)
}

/// The test "exactly as strong as `k`".
pub open spec fn strength_is(k: int) -> spec_fn(Emotion) -> bool {
    |e: Emotion| strength(e) == k
}

/// The emotions of `s` that are exactly as strong as `k`, in order.
pub open spec fn of_strength(s: Seq<Emotion>, k: int) -> Seq<Emotion> {
    s.filter(strength_is(k))
}

/// `r` holds the emotions of `s` strongest first; equally strong ones keep
/// the order they have in `s`.
pub open spec fn strongest_first(r: Seq<Emotion>, s: Seq<Emotion>) -> bool {
    &&& r.len() == s.len()
    &&& forall|i: int, j: int| 0 <= i < j < r.len() ==> strength(#[trigger] r[i]) >= strength(#[trigger] r[j])
    &&& forall|k: int| #[trigger] of_strength(r, k) == of_strength(s, k)
}

/// `es[i]` is the last of the strongest emotions in `es`.
pub open spec fn last_strongest(es: Seq<Emotion>, i: int) -> bool {
    &&& 0 <= i < es.len()
    &&& forall|j: int| 0 <= j < i ==> strength(#[trigger] es[j]) <= strength(es[i])
    &&& forall|j: int| i < j < es.len() ==> strength(#[trigger] es[j]) < strength(es[i])
}

/// Whether the emotions of `es` can be ranked: with two or more, none has
/// a NaN intensity.
pub open spec fn rankable(es: Seq<Emotion>) -> bool {
    es.len() >= 2 ==> forall|i: int| 0 <= i < es.len() ==> comparable(#[trigger] es[i])
}

/// The index of the last of the strongest emotions in `es`.
pub open spec fn strongest_index(es: Seq<Emotion>) -> int {
    choose|i: int| last_strongest(es, i)
}

/// Only one emotion is the last of the strongest.
pub proof fn lemma_last_strongest_unique(es: Seq<Emotion>, i: int, j: int)
    requires
        last_strongest(es, i),
        last_strongest(es, j),
    ensures
        i == j,
{
    if i < j {
        assert(strength(es[j]) < strength(es[i]));
        assert(strength(es[i]) <= strength(es[j]));
    } else if j < i {
        assert(strength(es[i]) < strength(es[j]));
        assert(strength(es[j]) <= strength(es[i]));
    }
}

/// The type of the strongest emotion in `es` (the last of equally strong
/// ones); `None` when `es` is empty.
pub open spec fn dominant_type(es: Seq<Emotion>) -> Option<EmotionType> {
    if es.len() == 0 {
        None
    } else {
        Some(es[strongest_index(es)].type_spec())
    }
}

/// The emotions an NPC feels now: at most one of each type.
#[derive(Debug)]
pub struct EmotionState {
    emotions: Vec<Emotion>,
}

/// Whether no two emotions of `es` have the same type.
pub open spec fn one_per_type(es: Seq<Emotion>) -> bool {
    forall|i: int, j: int| 0 <= i < j < es.len() ==> (#[trigger] es[i]).type_spec() != (#[trigger] es[j]).type_spec()
}

/// The index of the emotion of type `t` in `es`, if it is felt.
pub open spec fn index_of_type(es: Seq<Emotion>, t: EmotionType) -> Option<int> {
    if exists|i: int| 0 <= i < es.len() && (#[trigger] es[i]).type_spec() == t {
        Some(choose|i: int| 0 <= i < es.len() && (#[trigger] es[i]).type_spec() == t)
    } else {
        None
    }
}

impl View for EmotionState {
    type V = Seq<Emotion>;

    /// The emotions felt, in the order they were first felt.
    closed spec fn view(&self) -> Seq<Emotion> {
        self.emotions@
    }
}

/// The intensity of the first emotion of type `t` in `es`; 0 when absent.
pub open spec fn intensity_in(es: Seq<Emotion>, t: EmotionType) -> u32
    decreases es.len(),
{
    if es.len() == 0 {
        ZERO_BITS
    } else if es[0].type_spec() == t {
        es[0].intensity_spec()
    } else {
        intensity_in(es.drop_first(), t)
    }
}

proof fn lemma_none_of_strength(s: Seq<Emotion>, k: int)
    requires
        forall|q: int| 0 <= q < s.len() ==> strength(#[trigger] s[q]) != k,
    ensures
        of_strength(s, k) == Seq::<Emotion>::empty(),
    decreases s.len(),
{
    reveal(Seq::filter);
    if s.len() > 0 {
        lemma_none_of_strength(s.drop_last(), k);
    }
}

/// Inserting `x` between the emotions at least as strong and the weaker
/// ones adds it last among those of its strength.
proof fn lemma_insert_of_strength(r: Seq<Emotion>, p: int, x: Emotion, k: int)
    requires
        0 <= p <= r.len(),
        forall|q: int| 0 <= q < p ==> strength(#[trigger] r[q]) >= strength(x),
        forall|q: int| p <= q < r.len() ==> strength(#[trigger] r[q]) < strength(x),
    ensures
        of_strength(r.insert(p, x), k) == if strength(x) == k {
            of_strength(r, k).push(x)
        } else {
            of_strength(r, k)
        },
{
    let pred = strength_is(k);
    let a = r.take(p);
    let b = r.skip(p);
    assert(r =~= a + b);
    assert(r.insert(p, x) =~= a + seq![x] + b);
    Seq::filter_distributes_over_add(a, b, pred);
    Seq::filter_distributes_over_add(a + seq![x], b, pred);
    Seq::filter_distributes_over_add(a, seq![x], pred);
    assert(seq![x] =~= Seq::<Emotion>::empty().push(x));
    Seq::<Emotion>::empty().lemma_filter_push(x, pred);
    assert(Seq::<Emotion>::empty().filter(pred) =~= Seq::<Emotion>::empty()) by {
        reveal(Seq::filter);
    }
    if strength(x) == k {
        assert forall|q: int| 0 <= q < b.len() implies strength(#[trigger] b[q]) != k by {
            assert(b[q] == r[p + q]);
        }
        lemma_none_of_strength(b, k);
        assert(a.filter(pred) + seq![x] =~= a.filter(pred).push(x));
        assert(a.filter(pred) + Seq::<Emotion>::empty() =~= a.filter(pred));
        assert(a.filter(pred).push(x) + Seq::<Emotion>::empty() =~= a.filter(pred).push(x));
    } else {
        assert(a.filter(pred) + Seq::<Emotion>::empty() =~= a.filter(pred));
    }
}

impl EmotionState {
    #[verifier::type_invariant]
    pub closed spec fn well_formed(self) -> bool {
        &&& one_per_type(self.emotions@)
        &&& forall|i: int| 0 <= i < self.emotions@.len() ==> in_unit(#[trigger] self.emotions@[i].intensity_spec())
    }

    /// Every intensity felt is a number in [0, 1], so the emotions can
    /// always be ranked.
    pub proof fn lemma_rankable(self)
        requires
            self.well_formed(),
        ensures
            forall|i: int| 0 <= i < self@.len() ==> in_unit(#[trigger] self@[i].intensity_spec()),
            rankable(self@),
    {
    }

    pub fn new() -> (r: EmotionState)
        ensures
            r@.len() == 0,
    {
        EmotionState { emotions: Vec::new() }
    }

    /// The position of the emotion of type `t`, if it is felt.
    fn position(&self, t: EmotionType) -> (r: Option<usize>)
        ensures
            r == (match index_of_type(self@, t) {
                Some(i) => Some(i as usize),
                None => None::<usize>,
            }),
            r matches Some(i) ==> i < self@.len() && self@[i as int].type_spec() == t,
    {
        proof {
            use_type_invariant(self);
        }
        let n = self.emotions.len();
        let mut i: usize = 0;
        while i < n
            invariant
                n == self@.len(),
                i <= n,
                one_per_type(self@),
                forall|j: int| 0 <= j < i ==> (#[trigger] self@[j]).type_spec() != t,
            decreases n - i,
        {
            if self.emotions[i].emotion_type == t {
                proof {
                    let k = choose|k: int| 0 <= k < self@.len() && (#[trigger] self@[k]).type_spec() == t;
                    assert(k == i) by {
                        if k != i as int {
                            assert(one_per_type(self@));
                            if k < i {
                                assert(self@[k].type_spec() != t);
                            } else {
                                assert(self@[i as int].type_spec() != self@[k].type_spec());
                            }
                        }
                    }
                }
                return Some(i);
            }
            i = i + 1;
        }
        None
    }

    /// Gives the emotion of type `t` the intensity `intensity`, clamped to
    /// [0, 1] (a NaN gives 0); when `t` is not felt yet, it is added last.
    pub fn set_intensity(&mut self, t: EmotionType, intensity: u32)
        ensures
            match index_of_type(old(self)@, t) {
                Some(i) => final(self)@.len() == old(self)@.len() && (forall|j: int|
                    0 <= j < old(self)@.len() && j != i ==> #[trigger] final(self)@[j] == old(self)@[j])
                    && final(self)@[i].type_spec() == t && final(self)@[i].intensity_spec() == unit_intensity(
                    intensity,
                ),
                None => final(self)@.len() == old(self)@.len() + 1 && (forall|j: int|
                    0 <= j < old(self)@.len() ==> #[trigger] final(self)@[j] == old(self)@[j])
                    && final(self)@.last().type_spec() == t && final(self)@.last().intensity_spec()
                    == unit_intensity(intensity),
            },
    {
        proof {
            use_type_invariant(&*self);
        }
        let e = Emotion::new(t, intensity);
        let pos = self.position(t);
        let mut v: Vec<Emotion> = Vec::new();
        std::mem::swap(&mut v, &mut self.emotions);
        let ghost before = v@;
        match pos {
            Some(i) => {
                v.set(i, e);
                assert(one_per_type(v@)) by {
                    assert forall|a: int, b: int| 0 <= a < b < v@.len() implies (#[trigger] v@[a]).type_spec()
                        != (#[trigger] v@[b]).type_spec() by {
                        if a == i as int {
                            assert(before[b].type_spec() != before[i as int].type_spec());
                        } else if b == i as int {
                            assert(before[a].type_spec() != before[i as int].type_spec());
                        } else {
                            assert(before[a].type_spec() != before[b].type_spec());
                        }
                    }
                }
            },
            None => {
                v.push(e);
                assert(one_per_type(v@)) by {
                    assert forall|a: int, b: int| 0 <= a < b < v@.len() implies (#[trigger] v@[a]).type_spec()
                        != (#[trigger] v@[b]).type_spec() by {
                        if b == before.len() {
                            assert(before[a].type_spec() != t);
                        } else {
                            assert(before[a].type_spec() != before[b].type_spec());
                        }
                    }
                }
            },
        }
        self.emotions = v;
    }

    /// Stops feeling the emotion of type `t`; nothing changes when it is
    /// not felt.
    pub fn remove(&mut self, t: EmotionType)
        ensures
            match index_of_type(old(self)@, t) {
                Some(i) => final(self)@ == old(self)@.remove(i),
                None => final(self)@ == old(self)@,
            },
    {
        proof {
            use_type_invariant(&*self);
        }
        let pos = self.position(t);
        match pos {
            Some(i) => {
                let mut v: Vec<Emotion> = Vec::new();
                std::mem::swap(&mut v, &mut self.emotions);
                let ghost before = v@;
                v.remove(i);
                assert(one_per_type(v@)) by {
                    assert forall|a: int, b: int| 0 <= a < b < v@.len() implies (#[trigger] v@[a]).type_spec()
                        != (#[trigger] v@[b]).type_spec() by {
                        let a0 = if a < i { a } else { a + 1 };
                        let b0 = if b < i { b } else { b + 1 };
                        assert(v@[a] == before[a0] && v@[b] == before[b0]);
                        assert(before[a0].type_spec() != before[b0].type_spec());
                    }
                }
                self.emotions = v;
            },
            None => {},
        }
    }

    /// The emotions felt, in the order they were first felt; no two have
    /// the same type.
    pub fn emotions(&self) -> (r: &[Emotion])
        ensures
            r@ == self@,
            one_per_type(r@),
    {
        proof {
            use_type_invariant(self);
        }
        self.emotions.as_slice()
    }

    /// The intensity of the emotion type `t`; 0 when it is not felt.
    pub fn intensity_of(&self, t: EmotionType) -> (r: u32)
        ensures
            r == intensity_in(self@, t),
    {
        let n = self.emotions.len();
        let mut i: usize = 0;
        assert(self@.skip(0) =~= self@);
        while i < n
            invariant
                n == self@.len(),
                i <= n,
                intensity_in(self@, t) == intensity_in(self@.skip(i as int), t),
            decreases n - i,
        {
            proof {
                assert(self@.skip(i as int).drop_first() =~= self@.skip(i + 1));
                assert(self@.skip(i as int)[0] == self@[i as int]);
            }
            if self.emotions[i].emotion_type == t {
                return self.emotions[i].intensity;
            }
            i = i + 1;
        }
        ZERO_BITS
    }

    /// The strongest emotion; of equally strong ones the last. `None`
    /// when nothing is felt.
    pub fn dominant(&self) -> (r: Option<&Emotion>)
        ensures
            r is None <==> self@.len() == 0,
            r matches Some(e) ==> last_strongest(self@, strongest_index(self@)) && *e
                == self@[strongest_index(self@)],
    {
        proof {
            use_type_invariant(self);
            self.lemma_rankable();
        }
        let n = self.emotions.len();
        if n == 0 {
            return None;
        }
        let mut best: usize = 0;
        let mut i: usize = 1;
        while i < n
            invariant
                n == self@.len(),
                1 <= i <= n,
                best < i,
                n >= 2 ==> forall|q: int| 0 <= q < n ==> comparable(#[trigger] self@[q]),
                forall|j: int| 0 <= j < best ==> strength(#[trigger] self@[j]) <= strength(self@[best as int]),
                forall|j: int| best < j < i ==> strength(#[trigger] self@[j]) < strength(self@[best as int]),
            decreases n - i,
        {
            assert(comparable(self@[i as int]));
            assert(comparable(self@[best as int]));
            if !less_than(self.emotions[i].intensity, self.emotions[best].intensity) {
                best = i;
            }
            i = i + 1;
        }
        proof {
            assert(last_strongest(self@, best as int));
            lemma_last_strongest_unique(self@, best as int, strongest_index(self@));
        }
        Some(&self.emotions[best])
    }

    /// The emotions at least `threshold` intense, strongest first; equally
    /// strong ones in the order they are held.
    pub fn significant(&self, threshold: u32) -> (r: Vec<Emotion>)
        ensures
            strongest_first(r@, self@.filter(reaching(threshold))),
    {
        let ghost es = self@;
        let ghost pred = reaching(threshold);
        let n = self.emotions.len();
        let mut f: Vec<Emotion> = Vec::new();
        let mut i: usize = 0;
        assert(es.take(0) =~= Seq::<Emotion>::empty());
        assert(Seq::<Emotion>::empty().filter(pred) =~= Seq::<Emotion>::empty()) by {
            reveal(Seq::filter);
        }
        while i < n
            invariant
                n == es.len(),
                es == self@,
                pred == reaching(threshold),
                i <= n,
                f@ == es.take(i as int).filter(pred),
            decreases n - i,
        {
            let e = self.emotions[i];
            proof {
                assert(es.take(i + 1) =~= es.take(i as int).push(e));
                es.take(i as int).lemma_filter_push(e, pred);
            }
            if e.is_significant(threshold) {
                f.push(e);
            }
            i = i + 1;
        }
        assert(es.take(n as int) =~= es);
        proof {
            assert forall|q: int| 0 <= q < f@.len() implies comparable(#[trigger] f@[q]) by {
                es.lemma_filter_pred(pred, q);
            }
        }
        let m = f.len();
        let mut r: Vec<Emotion> = Vec::new();
        let mut k: usize = 0;
        assert(f@.take(0) =~= Seq::<Emotion>::empty());
        assert forall|kk: int| #[trigger] of_strength(r@, kk) == of_strength(f@.take(0), kk) by {
            reveal(Seq::filter);
        }
        while k < m
            invariant
                m == f@.len(),
                k <= m,
                forall|q: int| 0 <= q < m ==> comparable(#[trigger] f@[q]),
                forall|q: int| 0 <= q < r@.len() ==> comparable(#[trigger] r@[q]),
                strongest_first(r@, f@.take(k as int)),
            decreases m - k,
        {
            let x = f[k];
            assert(comparable(x));
            let mut p: usize = 0;
            while p < r.len() && !less_than(r[p].intensity, x.intensity)
                invariant
                    p <= r@.len(),
                    comparable(x),
                    forall|q: int| 0 <= q < r@.len() ==> comparable(#[trigger] r@[q]),
                    forall|q: int| 0 <= q < p ==> strength(#[trigger] r@[q]) >= strength(x),
                decreases r@.len() - p,
            {
                p = p + 1;
            }
            let ghost old_r = r@;
            proof {
                assert forall|q: int| p <= q < old_r.len() implies strength(#[trigger] old_r[q]) < strength(x) by {
                    assert(strength(old_r[p as int]) >= strength(old_r[q]));
                }
                assert(f@.take(k + 1) =~= f@.take(k as int).push(x));
                assert forall|kk: int| #[trigger] of_strength(old_r.insert(p as int, x), kk) == of_strength(f@.take(k + 1), kk) by {
                    lemma_insert_of_strength(old_r, p as int, x, kk);
                    f@.take(k as int).lemma_filter_push(x, strength_is(kk));
                    assert(of_strength(old_r, kk) == of_strength(f@.take(k as int), kk));
                }
            }
            r.insert(p, x);
            proof {
                assert(r@ == old_r.insert(p as int, x));
                assert forall|a: int, b: int| 0 <= a < b < r@.len() implies strength(#[trigger] r@[a]) >= strength(#[trigger] r@[b]) by {
                    if b < p {
                        assert(r@[a] == old_r[a] && r@[b] == old_r[b]);
                    } else if b == p {
                        assert(r@[a] == old_r[a]);
                    } else if a < p {
                        assert(r@[a] == old_r[a] && r@[b] == old_r[b - 1]);
                    } else if a == p {
                        assert(r@[b] == old_r[b - 1]);
                    } else {
                        assert(r@[a] == old_r[a - 1] && r@[b] == old_r[b - 1]);
                    }
                }
                assert forall|q: int| 0 <= q < r@.len() implies comparable(#[trigger] r@[q]) by {
                    if q < p {
                        assert(r@[q] == old_r[q]);
                    } else if q > p {
                        assert(r@[q] == old_r[q - 1]);
                    }
                }
            }
            k = k + 1;
        }
        assert(f@.take(m as int) =~= f@);
        r
    }
}

impl Clone for EmotionState {
    fn clone(&self) -> (r: EmotionState)
        ensures
            r@ == self@,
    {
        proof {
            use_type_invariant(self);
        }
        let v = self.emotions.clone();
        assert(v@ =~= self.emotions@) by {
            assert forall|i: int| 0 <= i < v@.len() implies v@[i] == self.emotions@[i] by {
                assert(cloned::<Emotion>(self.emotions[i], v[i]));
            }
        }
        EmotionState { emotions: v }
    }
}

impl Default for EmotionState {
    fn default() -> (r: EmotionState)
        ensures
            r@.len() == 0,
    {
        EmotionState::new()
    }
}


/// The base valence of every emotion: 1.0 for the positive emotions (joy,
/// happy-for, hope, satisfaction, relief, pride, admiration,
/// gratification, gratitude, love), -1.0 for the negative ones (distress,
/// pity, fear, disappointment, fears-confirmed, shame, reproach, remorse,
/// anger, hate), 0.5 for gloating and -0.5 for resentment.
pub proof fn law_base_valence(e: EmotionType)
    ensures
        (e == EmotionType::Joy || e == EmotionType::HappyFor || e == EmotionType::Hope || e == EmotionType::Satisfaction || e == EmotionType::Relief || e == EmotionType::Pride || e == EmotionType::Admiration || e == EmotionType::Gratification || e == EmotionType::Gratitude || e == EmotionType::Love) ==> base_valence_bits(e) == 0x3F80_0000u32,
        (e == EmotionType::Distress || e == EmotionType::Pity || e == EmotionType::Fear || e == EmotionType::Disappointment || e == EmotionType::FearsConfirmed || e == EmotionType::Shame || e == EmotionType::Reproach || e == EmotionType::Remorse || e == EmotionType::Anger || e == EmotionType::Hate) ==> base_valence_bits(e) == 0xBF80_0000u32,
        e == EmotionType::Gloating ==> base_valence_bits(e) == 0x3F00_0000u32,
        e == EmotionType::Resentment ==> base_valence_bits(e) == 0xBF00_0000u32,
{
}

/// Each OCC emotion and its opposite have opposite base valences (joy and
/// distress, happy-for and pity, gloating and resentment, hope and fear,
/// satisfaction and fears-confirmed, relief and disappointment, pride and
/// shame, admiration and reproach, gratification and remorse, gratitude
/// and anger, love and hate); the positive one is above zero.
pub proof fn law_opposite_emotions_opposite_valence()
    ensures
        base_valence_bits(EmotionType::Joy) == f32_neg(base_valence_bits(EmotionType::Distress)) && f32_lt(ZERO_BITS, base_valence_bits(EmotionType::Joy)),
        base_valence_bits(EmotionType::HappyFor) == f32_neg(base_valence_bits(EmotionType::Pity)) && f32_lt(ZERO_BITS, base_valence_bits(EmotionType::HappyFor)),
        base_valence_bits(EmotionType::Gloating) == f32_neg(base_valence_bits(EmotionType::Resentment)) && f32_lt(ZERO_BITS, base_valence_bits(EmotionType::Gloating)),
        base_valence_bits(EmotionType::Hope) == f32_neg(base_valence_bits(EmotionType::Fear)) && f32_lt(ZERO_BITS, base_valence_bits(EmotionType::Hope)),
        base_valence_bits(EmotionType::Satisfaction) == f32_neg(base_valence_bits(EmotionType::FearsConfirmed)) && f32_lt(ZERO_BITS, base_valence_bits(EmotionType::Satisfaction)),
        base_valence_bits(EmotionType::Relief) == f32_neg(base_valence_bits(EmotionType::Disappointment)) && f32_lt(ZERO_BITS, base_valence_bits(EmotionType::Relief)),
        base_valence_bits(EmotionType::Pride) == f32_neg(base_valence_bits(EmotionType::Shame)) && f32_lt(ZERO_BITS, base_valence_bits(EmotionType::Pride)),
        base_valence_bits(EmotionType::Admiration) == f32_neg(base_valence_bits(EmotionType::Reproach)) && f32_lt(ZERO_BITS, base_valence_bits(EmotionType::Admiration)),
        base_valence_bits(EmotionType::Gratification) == f32_neg(base_valence_bits(EmotionType::Remorse)) && f32_lt(ZERO_BITS, base_valence_bits(EmotionType::Gratification)),
        base_valence_bits(EmotionType::Gratitude) == f32_neg(base_valence_bits(EmotionType::Anger)) && f32_lt(ZERO_BITS, base_valence_bits(EmotionType::Gratitude)),
        base_valence_bits(EmotionType::Love) == f32_neg(base_valence_bits(EmotionType::Hate)) && f32_lt(ZERO_BITS, base_valence_bits(EmotionType::Love)),
{
    assert(0x3F80_0000u32 == (0xBF80_0000u32 ^ 0x8000_0000u32)) by (bit_vector);
    assert(0x3F00_0000u32 == (0xBF00_0000u32 ^ 0x8000_0000u32)) by (bit_vector);
    lemma_nonnegative_finite(0x3F80_0000u32);
    lemma_nonnegative_finite(0x3F00_0000u32);
    lemma_nonnegative_finite(ZERO_BITS);
}


/// The OCC branch of every emotion: the well-being, fortune-of-others and
/// prospect emotions react to events; pride, shame, admiration, reproach
/// and the compound gratification, remorse, gratitude and anger to
/// actions; love and hate to objects.
pub proof fn law_branches(e: EmotionType)
    ensures
        (e == EmotionType::Joy || e == EmotionType::Distress || e == EmotionType::HappyFor || e == EmotionType::Pity || e == EmotionType::Gloating || e == EmotionType::Resentment || e == EmotionType::Hope || e == EmotionType::Fear || e == EmotionType::Satisfaction || e == EmotionType::Disappointment || e == EmotionType::Relief || e == EmotionType::FearsConfirmed) ==> branch_of(e) == EmotionBranch::Event,
        (e == EmotionType::Pride || e == EmotionType::Shame || e == EmotionType::Admiration || e == EmotionType::Reproach || e == EmotionType::Gratification || e == EmotionType::Remorse || e == EmotionType::Gratitude || e == EmotionType::Anger) ==> branch_of(e) == EmotionBranch::Action,
        (e == EmotionType::Love || e == EmotionType::Hate) ==> branch_of(e) == EmotionBranch::Object,
{
}

/// The emotion an outcome of a hope or fear gives: a hope fulfilled
/// satisfies, a hope unfulfilled disappoints, a fear unrealised relieves,
/// a fear confirmed confirms it; the favourable outcomes, and only they,
/// give an emotion of positive valence.
pub proof fn law_confirmation_emotions(x: ProspectResult)
    ensures
        x == ProspectResult::HopeFulfilled ==> confirmation_emotion(x) == EmotionType::Satisfaction,
        x == ProspectResult::HopeUnfulfilled ==> confirmation_emotion(x) == EmotionType::Disappointment,
        x == ProspectResult::FearUnrealized ==> confirmation_emotion(x) == EmotionType::Relief,
        x == ProspectResult::FearConfirmed ==> confirmation_emotion(x) == EmotionType::FearsConfirmed,
        (x is HopeFulfilled || x is FearUnrealized) <==> f32_lt(ZERO_BITS, base_valence_bits(confirmation_emotion(x))),
{
    lemma_nonnegative_finite(0x3F80_0000u32);
    lemma_nonnegative_finite(ZERO_BITS);
    assert(!f32_lt(ZERO_BITS, 0xBF80_0000u32)) by {
        assert((0xBF80_0000u32 & 0x8000_0000u32) != 0u32) by (bit_vector);
    }
}

} // verus!
