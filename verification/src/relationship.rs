//! Relationships between NPCs: the four axes a relationship is measured
//! on, the kind and state of the bond, partnerships, the free-text type
//! and its history, and how emotions move the axes.

pub mod bond;
pub mod partnership;
pub mod axis;
pub mod mapping;

use vstd::prelude::*;
use crate::relationship::axis::{AxisScore, WarinessScore};
use crate::relationship::bond::{BondKind, BondStatus};
use crate::relationship::partnership::Partnership;

verus! {

/// One change of a relationship's type, kept in its history.
#[derive(Debug, Clone, PartialEq, Eq)]
pub struct TypeChange {
    pub from_type: String,
    pub to_type: String,
    /// What brought the change about.
    pub note: String,
}

/// What an NPC feels toward someone: the four axes, the bond, a
/// partnership, and the free-text type (which also says who ranks above
/// whom) with its history. The owner and the target identify it.
#[derive(Debug, Clone)]
pub struct Relationship {
    owner_id: String,
    target_id: String,
    trust: AxisScore,
    affinity: AxisScore,
    respect: AxisScore,
    wariness: WarinessScore,
    bond_kind: Option<BondKind>,
    bond_status: BondStatus,
    partnership: Option<Partnership>,
    type_text: String,
    type_history: Vec<TypeChange>,
}

/// The contents of a relationship.
pub struct RelationshipView {
    pub owner_id: Seq<char>,
    pub target_id: Seq<char>,
    pub trust: AxisScore,
    pub affinity: AxisScore,
    pub respect: AxisScore,
    pub wariness: WarinessScore,
    pub bond_kind: Option<BondKind>,
    pub bond_status: BondStatus,
    pub partnership: Option<Partnership>,
    pub type_text: Seq<char>,
    pub type_history: Seq<TypeChange>,
}

impl View for Relationship {
    type V = RelationshipView;

    closed spec fn view(&self) -> RelationshipView {
        RelationshipView {
            owner_id: self.owner_id@,
            target_id: self.target_id@,
            trust: self.trust,
            affinity: self.affinity,
            respect: self.respect,
            wariness: self.wariness,
            bond_kind: self.bond_kind,
            bond_status: self.bond_status,
            partnership: self.partnership,
            type_text: self.type_text@,
            type_history: self.type_history@,
        }
    }
}

/// A fresh relationship between `owner_id` and `target_id` with the given
/// axes: no bond kind, an active bond, no partnership, an empty type and
/// no history.
pub open spec fn fresh_relationship(
    owner_id: Seq<char>,
    target_id: Seq<char>,
    trust: AxisScore,
    affinity: AxisScore,
    respect: AxisScore,
    wariness: WarinessScore,
) -> RelationshipView {
    RelationshipView {
        owner_id,
        target_id,
        trust,
        affinity,
        respect,
        wariness,
        bond_kind: None,
        bond_status: BondStatus::Active,
        partnership: None,
        type_text: Seq::empty(),
        type_history: Seq::empty(),
    }
}

impl Relationship {
    /// A relationship with the given axes and everything else at its default.
    pub fn new(
        owner_id: &str,
        target_id: &str,
        trust: AxisScore,
        affinity: AxisScore,
        respect: AxisScore,
        wariness: WarinessScore,
    ) -> (r: Relationship)
        ensures
            r@ == fresh_relationship(owner_id@, target_id@, trust, affinity, respect, wariness),
    {
        let r = Relationship {
            owner_id: owner_id.to_owned(),
            target_id: target_id.to_owned(),
            trust,
            affinity,
            respect,
            wariness,
            bond_kind: None,
            bond_status: BondStatus::Active,
            partnership: None,
            type_text: String::new(),
            type_history: Vec::new(),
        };
        assert(r.type_text@ =~= Seq::<char>::empty());
        r
    }

    /// A relationship with all four axes at 0 and everything else at its
    /// default.
    pub fn neutral(owner_id: &str, target_id: &str) -> (r: Relationship)
        ensures
            r@ == fresh_relationship(
                owner_id@,
                target_id@,
                AxisScore::neutral_spec(),
                AxisScore::neutral_spec(),
                AxisScore::neutral_spec(),
                WarinessScore::neutral_spec(),
            ),
    {
        Relationship::new(
            owner_id,
            target_id,
            AxisScore::neutral(),
            AxisScore::neutral(),
            AxisScore::neutral(),
            WarinessScore::neutral(),
        )
    }

    pub fn owner_id(&self) -> (r: &str)
        ensures
            r@ == self@.owner_id,
    {
        self.owner_id.as_str()
    }

    pub fn target_id(&self) -> (r: &str)
        ensures
            r@ == self@.target_id,
    {
        self.target_id.as_str()
    }

    pub fn trust(&self) -> (r: AxisScore)
        ensures
            r == self@.trust,
    {
        self.trust
    }

    pub fn affinity(&self) -> (r: AxisScore)
        ensures
            r == self@.affinity,
    {
        self.affinity
    }

    pub fn respect(&self) -> (r: AxisScore)
        ensures
            r == self@.respect,
    {
        self.respect
    }

    pub fn wariness(&self) -> (r: WarinessScore)
        ensures
            r == self@.wariness,
    {
        self.wariness
    }

    pub fn bond_kind(&self) -> (r: Option<BondKind>)
        ensures
            r == self@.bond_kind,
    {
        self.bond_kind
    }

    pub fn bond_status(&self) -> (r: &BondStatus)
        ensures
            *r == self@.bond_status,
    {
        &self.bond_status
    }

    pub fn partnership(&self) -> (r: Option<Partnership>)
        ensures
            r == self@.partnership,
    {
        self.partnership
    }

    pub fn type_text(&self) -> (r: &str)
        ensures
            r@ == self@.type_text,
    {
        self.type_text.as_str()
    }

    pub fn type_history(&self) -> (r: &[TypeChange])
        ensures
            r@ == self@.type_history,
    {
        self.type_history.as_slice()
    }

    /// Gives the four axes new scores; everything else stays.
    pub fn set_axes(&mut self, trust: AxisScore, affinity: AxisScore, respect: AxisScore, wariness: WarinessScore)
        ensures
            final(self)@ == (RelationshipView { trust, affinity, respect, wariness, ..old(self)@ }),
    {
        self.trust = trust;
        self.affinity = affinity;
        self.respect = respect;
        self.wariness = wariness;
    }

    /// Moves the four axes to the scores an emotion toward the target led
    /// to, when the bond takes live input (active or reactivating); any
    /// other bond is left untouched. Returns whether the axes moved.
    pub fn move_axes_if_live(
        &mut self,
        trust: AxisScore,
        affinity: AxisScore,
        respect: AxisScore,
        wariness: WarinessScore,
    ) -> (r: bool)
        ensures
            r == (old(self)@.bond_status is Active || old(self)@.bond_status is Reactivating),
            r ==> final(self)@ == (RelationshipView { trust, affinity, respect, wariness, ..old(self)@ }),
            !r ==> final(self)@ == old(self)@,
    {
        if self.bond_status.accepts_live_input() {
            self.set_axes(trust, affinity, respect, wariness);
            true
        } else {
            false
        }
    }
}

/// Builds a relationship setter by setter, from all four axes at 0, an
/// active bond and nothing else.
#[derive(Debug, Clone)]
pub struct RelationshipBuilder {
    pending: Relationship,
}

impl View for RelationshipBuilder {
    type V = RelationshipView;

    /// The relationship that `build` gives now.
    closed spec fn view(&self) -> RelationshipView {
        self.pending@
    }
}

impl RelationshipBuilder {
    pub fn new(owner_id: &str, target_id: &str) -> (r: RelationshipBuilder)
        ensures
            r@ == fresh_relationship(
                owner_id@,
                target_id@,
                AxisScore::neutral_spec(),
                AxisScore::neutral_spec(),
                AxisScore::neutral_spec(),
                WarinessScore::neutral_spec(),
            ),
    {
        RelationshipBuilder { pending: Relationship::neutral(owner_id, target_id) }
    }

    pub fn trust(self, value: AxisScore) -> (r: RelationshipBuilder)
        ensures
            r@ == (RelationshipView { trust: value, ..self@ }),
    {
        let mut pending = self.pending;
        pending.trust = value;
        RelationshipBuilder { pending }
    }

    pub fn affinity(self, value: AxisScore) -> (r: RelationshipBuilder)
        ensures
            r@ == (RelationshipView { affinity: value, ..self@ }),
    {
        let mut pending = self.pending;
        pending.affinity = value;
        RelationshipBuilder { pending }
    }

    pub fn respect(self, value: AxisScore) -> (r: RelationshipBuilder)
        ensures
            r@ == (RelationshipView { respect: value, ..self@ }),
    {
        let mut pending = self.pending;
        pending.respect = value;
        RelationshipBuilder { pending }
    }

    pub fn wariness(self, value: WarinessScore) -> (r: RelationshipBuilder)
        ensures
            r@ == (RelationshipView { wariness: value, ..self@ }),
    {
        let mut pending = self.pending;
        pending.wariness = value;
        RelationshipBuilder { pending }
    }

    /// Sets the bond kind (there is none until this is called).
    pub fn bond_kind(self, value: BondKind) -> (r: RelationshipBuilder)
        ensures
            r@ == (RelationshipView { bond_kind: Some(value), ..self@ }),
    {
        let mut pending = self.pending;
        pending.bond_kind = Some(value);
        RelationshipBuilder { pending }
    }

    pub fn bond_status(self, value: BondStatus) -> (r: RelationshipBuilder)
        ensures
            r@ == (RelationshipView { bond_status: value, ..self@ }),
    {
        let mut pending = self.pending;
        pending.bond_status = value;
        RelationshipBuilder { pending }
    }

    /// Sets the partnership (there is none until this is called).
    pub fn partnership(self, value: Partnership) -> (r: RelationshipBuilder)
        ensures
            r@ == (RelationshipView { partnership: Some(value), ..self@ }),
    {
        let mut pending = self.pending;
        pending.partnership = Some(value);
        RelationshipBuilder { pending }
    }

    pub fn type_text(self, value: &str) -> (r: RelationshipBuilder)
        ensures
            r@ == (RelationshipView { type_text: value@, ..self@ }),
    {
        let mut pending = self.pending;
        pending.type_text = value.to_owned();
        RelationshipBuilder { pending }
    }

    pub fn type_history(self, value: Vec<TypeChange>) -> (r: RelationshipBuilder)
        ensures
            r@ == (RelationshipView { type_history: value@, ..self@ }),
    {
        let mut pending = self.pending;
        pending.type_history = value;
        RelationshipBuilder { pending }
    }

    pub fn build(self) -> (r: Relationship)
        ensures
            r@ == self@,
    {
        self.pending
    }
}

} // verus!
