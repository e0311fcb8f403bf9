//! Scenes: one conversation of an NPC with a partner, and the foci
//! (beats) it moves through as the NPC's emotions change.

use vstd::prelude::*;
use crate::emotion::{
    intensity_in, unit_or_nan, ActionFocus, DesirabilityForOther, Emotion, EmotionState, EmotionType, EventFocus,
    ObjectFocus, Situation, SituationError, UNIT_BITS, ZERO_BITS,
};
use crate::float_bits::{clamp, equal, less_than, f32_clamp, f32_eq, f32_lt, lemma_nonnegative_finite};
use crate::text::str_eq;

verus! {

/// How an emotion's intensity is tested.
#[derive(Debug, Clone, Copy, PartialEq, Eq, Structural)]
pub enum ConditionThreshold {
    /// Strictly below the value (float bits).
    Below(u32),
    /// Strictly above the value (float bits).
    Above(u32),
    /// Not felt at all: intensity 0.
    Absent,
}

/// A test on one emotion of the NPC.
#[derive(Debug, Clone, Copy, PartialEq, Eq, Structural)]
pub struct EmotionCondition {
    pub emotion: EmotionType,
    pub threshold: ConditionThreshold,
}

/// Whether condition `c` holds of the emotions `es`.
pub open spec fn condition_met(c: EmotionCondition, es: Seq<Emotion>) -> bool {
    let x = intensity_in(es, c.emotion);
    match c.threshold {
        ConditionThreshold::Below(v) => f32_lt(x, v),
        ConditionThreshold::Above(v) => f32_lt(v, x),
        ConditionThreshold::Absent => f32_eq(x, ZERO_BITS),
    }
}

impl EmotionCondition {
    /// Whether the condition holds of `state`.
    pub fn is_met(&self, state: &EmotionState) -> (r: bool)
        ensures
            r == condition_met(*self, state@),
    {
        let x = state.intensity_of(self.emotion);
        match self.threshold {
            ConditionThreshold::Below(v) => less_than(x, v),
            ConditionThreshold::Above(v) => less_than(v, x),
            ConditionThreshold::Absent => equal(x, ZERO_BITS),
        }
    }
}

/// When a focus becomes active.
#[derive(Debug, Clone)]
pub enum FocusTrigger {
    /// The focus a scene starts with; never switched to later.
    Initial,
    /// Any of the groups, each of which holds when all its conditions do.
    Conditions(Vec<Vec<EmotionCondition>>),
}

/// Whether all conditions of `group` hold of `es`.
pub open spec fn group_met(group: Seq<EmotionCondition>, es: Seq<Emotion>) -> bool {
    forall|c: int| 0 <= c < group.len() ==> condition_met(#[trigger] group[c], es)
}

/// Whether trigger `t` fires on the emotions `es`.
pub open spec fn trigger_met(t: FocusTrigger, es: Seq<Emotion>) -> bool {
    &&& t is Conditions
    &&& exists|g: int| 0 <= g < t->0@.len() && group_met(#[trigger] t->0@[g]@, es)
}

impl FocusTrigger {
    /// Whether the trigger fires on `state`.
    pub fn is_met(&self, state: &EmotionState) -> (r: bool)
        ensures
            r == trigger_met(*self, state@),
    {
        match self {
            FocusTrigger::Initial => false,
            FocusTrigger::Conditions(groups) => {
                let mut g: usize = 0;
                while g < groups.len()
                    invariant
                        *self is Conditions,
                        self->0@ == groups@,
                        g <= groups@.len(),
                        forall|h: int| 0 <= h < g ==> !group_met(#[trigger] groups@[h]@, state@),
                    decreases groups@.len() - g,
                {
                    let group = &groups[g];
                    let mut c: usize = 0;
                    let mut all = true;
                    while c < group.len()
                        invariant
                            c <= group@.len(),
                            all == (forall|d: int| 0 <= d < c ==> condition_met(#[trigger] group@[d], state@)),
                        decreases group@.len() - c,
                    {
                        if !group[c].is_met(state) {
                            all = false;
                        }
                        c = c + 1;
                    }
                    if all {
                        assert(group@ == groups@[g as int]@);
                        assert(group_met(groups@[g as int]@, state@));
                        return true;
                    }
                    g = g + 1;
                }
                false
            },
        }
    }

    /// Whether this is the trigger of the initial focus.
    pub fn is_initial(&self) -> (r: bool)
        ensures
            r == (*self is Initial),
    {
        match self {
            FocusTrigger::Initial => true,
            FocusTrigger::Conditions(_) => false,
        }
    }
}

/// One beat a scene can be in: a situation and when it begins.
#[derive(Debug, Clone)]
pub struct SceneFocus {
    pub id: String,
    pub description: String,
    pub trigger: FocusTrigger,
    pub event: Option<EventFocus>,
    pub action: Option<ActionFocus>,
    pub object: Option<ObjectFocus>,
}

fn copy_string_opt(s: &Option<String>) -> (r: Option<String>)
    ensures
        r == *s,
{
    match s {
        Some(t) => Some(t.clone()),
        None => None,
    }
}

fn copy_event(e: &Option<EventFocus>) -> (r: Option<EventFocus>)
    ensures
        r == *e,
{
    match e {
        Some(f) => {
            let other = match &f.desirability_for_other {
                Some(d) => Some(
                    DesirabilityForOther {
                        target_id: d.target_id.clone(),
                        desirability: d.desirability,
                        modifiers: d.modifiers,
                    },
                ),
                None => None,
            };
            Some(
                EventFocus {
                    description: f.description.clone(),
                    desirability_for_self: f.desirability_for_self,
                    desirability_for_other: other,
                    prospect: f.prospect,
                },
            )
        },
        None => None,
    }
}

fn copy_action(a: &Option<ActionFocus>) -> (r: Option<ActionFocus>)
    ensures
        r == *a,
{
    match a {
        Some(f) => Some(
            ActionFocus {
                description: f.description.clone(),
                agent_id: copy_string_opt(&f.agent_id),
                praiseworthiness: f.praiseworthiness,
                modifiers: f.modifiers,
            },
        ),
        None => None,
    }
}

fn copy_object(o: &Option<ObjectFocus>) -> (r: Option<ObjectFocus>)
    ensures
        r == *o,
{
    match o {
        Some(f) => Some(
            ObjectFocus {
                target_id: f.target_id.clone(),
                target_description: f.target_description.clone(),
                appealingness: f.appealingness,
            },
        ),
        None => None,
    }
}

impl SceneFocus {
    /// The situation of this focus; an error when it has no event, action
    /// or object.
    pub fn to_situation(&self) -> (r: Result<Situation, SituationError>)
        ensures
            self.event is None && self.action is None && self.object is None ==> r == Err::<
                Situation,
                SituationError,
            >(SituationError::NoFocus),
            !(self.event is None && self.action is None && self.object is None) ==> (r matches Ok(s)
                && s.description@ == self.description@ && s.event == self.event && s.action
                == self.action && s.object == self.object),
    {
        Situation::new(
            self.description.as_str(),
            copy_event(&self.event),
            copy_action(&self.action),
            copy_object(&self.object),
        )
    }
}

/// The significance a scene has unless the game sets one: 0.5.
pub const DEFAULT_SIGNIFICANCE_BITS: u32 = 0x3F00_0000u32;

/// One conversation of an NPC with a partner: the foci it can move
/// through, the one active now, and how much it matters.
#[derive(Debug)]
pub struct Scene {
    npc_id: String,
    partner_id: String,
    focuses: Vec<SceneFocus>,
    active_focus_id: Option<String>,
    significance: u32,
}

/// Whether focus `f` is the active one.
pub open spec fn is_active(active: Option<Seq<char>>, f: SceneFocus) -> bool {
    active == Some(f.id@)
}

/// Whether `fs[i]` is the first focus that is not active and whose
/// trigger fires on `es`.
pub open spec fn first_triggered(fs: Seq<SceneFocus>, active: Option<Seq<char>>, es: Seq<Emotion>, i: int) -> bool {
    &&& 0 <= i < fs.len()
    &&& !is_active(active, fs[i]) && trigger_met(fs[i].trigger, es)
    &&& forall|j: int| 0 <= j < i ==> !(!is_active(active, #[trigger] fs[j]) && trigger_met(fs[j].trigger, es))
}

impl Scene {
    pub closed spec fn npc_id_spec(self) -> Seq<char> {
        self.npc_id@
    }

    pub closed spec fn partner_id_spec(self) -> Seq<char> {
        self.partner_id@
    }

    pub closed spec fn focuses_spec(self) -> Seq<SceneFocus> {
        self.focuses@
    }

    /// The id of the active focus, if any.
    pub closed spec fn active_spec(self) -> Option<Seq<char>> {
        match self.active_focus_id {
            Some(s) => Some(s@),
            None => None,
        }
    }

    /// The significance (float bits), in [0, 1].
    pub closed spec fn significance_spec(self) -> u32 {
        self.significance
    }

    #[verifier::type_invariant]
    closed spec fn well_formed(self) -> bool {
        unit_or_nan(self.significance)
    }

    /// A scene with no active focus and significance 0.5.
    pub fn new(npc_id: String, partner_id: String, focuses: Vec<SceneFocus>) -> (r: Scene)
        ensures
            r.npc_id_spec() == npc_id@,
            r.partner_id_spec() == partner_id@,
            r.focuses_spec() == focuses@,
            r.active_spec() is None,
            r.significance_spec() == DEFAULT_SIGNIFICANCE_BITS,
    {
        proof {
            lemma_nonnegative_finite(ZERO_BITS);
            lemma_nonnegative_finite(UNIT_BITS);
            lemma_nonnegative_finite(DEFAULT_SIGNIFICANCE_BITS);
        }
        Scene { npc_id, partner_id, focuses, active_focus_id: None, significance: DEFAULT_SIGNIFICANCE_BITS }
    }

    /// A scene with no active focus and the given significance, clamped
    /// to [0, 1].
    pub fn with_significance(npc_id: String, partner_id: String, focuses: Vec<SceneFocus>, significance: u32) -> (r:
        Scene)
        ensures
            r.npc_id_spec() == npc_id@,
            r.partner_id_spec() == partner_id@,
            r.focuses_spec() == focuses@,
            r.active_spec() is None,
            r.significance_spec() == f32_clamp(significance, ZERO_BITS, UNIT_BITS),
    {
        proof {
            lemma_nonnegative_finite(ZERO_BITS);
            lemma_nonnegative_finite(UNIT_BITS);
        }
        Scene {
            npc_id,
            partner_id,
            focuses,
            active_focus_id: None,
            significance: clamp(significance, ZERO_BITS, UNIT_BITS),
        }
    }

    pub fn npc_id(&self) -> (r: &str)
        ensures
            r@ == self.npc_id_spec(),
    {
        self.npc_id.as_str()
    }

    pub fn partner_id(&self) -> (r: &str)
        ensures
            r@ == self.partner_id_spec(),
    {
        self.partner_id.as_str()
    }

    pub fn focuses(&self) -> (r: &[SceneFocus])
        ensures
            r@ == self.focuses_spec(),
    {
        self.focuses.as_slice()
    }

    pub fn active_focus_id(&self) -> (r: Option<&str>)
        ensures
            r is None <==> self.active_spec() is None,
            r matches Some(s) ==> self.active_spec() == Some(s@),
    {
        match &self.active_focus_id {
            Some(s) => Some(s.as_str()),
            None => None,
        }
    }

    /// How much the scene matters: in [0, 1] unless a NaN was given.
    pub fn significance(&self) -> (r: u32)
        ensures
            r == self.significance_spec(),
            unit_or_nan(r),
    {
        proof {
            use_type_invariant(self);
        }
        self.significance
    }

    /// Whether `f` is the active focus.
    fn focus_is_active(&self, f: &SceneFocus) -> (r: bool)
        ensures
            r == is_active(self.active_spec(), *f),
    {
        match &self.active_focus_id {
            Some(s) => str_eq(s.as_str(), f.id.as_str()),
            None => false,
        }
    }

    /// The first focus, other than the active one, whose trigger fires on
    /// `state`. The active focus is skipped so that an emotion that stays
    /// above its threshold does not switch to the same beat again.
    pub fn check_trigger(&self, state: &EmotionState) -> (r: Option<&SceneFocus>)
        ensures
            r is None <==> forall|j: int|
                0 <= j < self.focuses_spec().len() ==> !(!is_active(self.active_spec(), #[trigger] self.focuses_spec()[j])
                    && trigger_met(self.focuses_spec()[j].trigger, state@)),
            r matches Some(f) ==> exists|i: int|
                first_triggered(self.focuses_spec(), self.active_spec(), state@, i) && *f
                    == #[trigger] self.focuses_spec()[i],
    {
        let mut i: usize = 0;
        while i < self.focuses.len()
            invariant
                i <= self.focuses@.len(),
                forall|j: int|
                    0 <= j < i ==> !(!is_active(self.active_spec(), #[trigger] self.focuses@[j]) && trigger_met(
                        self.focuses@[j].trigger,
                        state@,
                    )),
            decreases self.focuses@.len() - i,
        {
            let f = &self.focuses[i];
            if !self.focus_is_active(f) && f.trigger.is_met(state) {
                assert(first_triggered(self.focuses_spec(), self.active_spec(), state@, i as int));
                return Some(f);
            }
            i = i + 1;
        }
        None
    }

    /// Makes `focus_id` the active focus.
    pub fn set_active_focus(&mut self, focus_id: String)
        ensures
            final(self).active_spec() == Some(focus_id@),
            final(self).npc_id_spec() == old(self).npc_id_spec(),
            final(self).partner_id_spec() == old(self).partner_id_spec(),
            final(self).focuses_spec() == old(self).focuses_spec(),
            final(self).significance_spec() == old(self).significance_spec(),
    {
        proof {
            use_type_invariant(&*self);
        }
        self.active_focus_id = Some(focus_id);
    }

    /// The first focus with the initial trigger.
    pub fn initial_focus(&self) -> (r: Option<&SceneFocus>)
        ensures
            r is None <==> forall|j: int|
                0 <= j < self.focuses_spec().len() ==> (#[trigger] self.focuses_spec()[j]).trigger !is Initial,
            r matches Some(f) ==> exists|i: int|
                0 <= i < self.focuses_spec().len() && *f == #[trigger] self.focuses_spec()[i] && f.trigger is Initial
                    && forall|j: int| 0 <= j < i ==> (#[trigger] self.focuses_spec()[j]).trigger !is Initial,
    {
        let mut i: usize = 0;
        while i < self.focuses.len()
            invariant
                i <= self.focuses@.len(),
                forall|j: int| 0 <= j < i ==> (#[trigger] self.focuses@[j]).trigger !is Initial,
            decreases self.focuses@.len() - i,
        {
            if self.focuses[i].trigger.is_initial() {
                return Some(&self.focuses[i]);
            }
            i = i + 1;
        }
        None
    }
}

impl Clone for Scene {
    fn clone(&self) -> (r: Scene)
        ensures
            r.npc_id_spec() == self.npc_id_spec(),
            r.partner_id_spec() == self.partner_id_spec(),
            r.focuses_spec().len() == self.focuses_spec().len(),
            r.active_spec() == self.active_spec(),
            r.significance_spec() == self.significance_spec(),
    {
        proof {
            use_type_invariant(self);
        }
        Scene {
            npc_id: self.npc_id.clone(),
            partner_id: self.partner_id.clone(),
            focuses: self.focuses.clone(),
            active_focus_id: copy_string_opt(&self.active_focus_id),
            significance: self.significance,
        }
    }
}

} // verus!
