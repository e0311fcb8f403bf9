//! Bonds: the named kind of a relationship, and whether it still takes
//! part in play.
//!
//! The kinds fall into five regions: zhiji (kindred bonds), companion,
//! guardian, mentor and enemy. Every kind lies in exactly one region.

use vstd::prelude::*;
use crate::world::event::EventId;

verus! {

/// The kind of a bond.
#[derive(Debug, Clone, Copy, PartialEq, Eq, Hash, Structural)]
pub enum BondKind {
    SwornBrothers,
    MasterDisciple,
    Soulmate,
    LoyalRetainer,
    Companion,
    Guardian,
    Mentor,
    BloodEnemy,
    ArchRival,
    Betrayer,
    Oppressor,
}

/// Kindred bonds: sworn brothers, master and disciple, soulmates, loyal retainers.
pub open spec fn zhiji_kind(k: BondKind) -> bool {
    k == BondKind::SwornBrothers || k == BondKind::MasterDisciple || k == BondKind::Soulmate
        || k == BondKind::LoyalRetainer
}

/// Enemy bonds: blood enemy, arch rival, betrayer, oppressor.
pub open spec fn enemy_kind(k: BondKind) -> bool {
    k == BondKind::BloodEnemy || k == BondKind::ArchRival || k == BondKind::Betrayer
        || k == BondKind::Oppressor
}

/// How many of the five regions a kind lies in.
pub open spec fn region_count(k: BondKind) -> int {
    (if zhiji_kind(k) { 1int } else { 0int }) + (if k == BondKind::Companion { 1int } else { 0int })
        + (if k == BondKind::Guardian { 1int } else { 0int }) + (if k == BondKind::Mentor { 1int } else { 0int })
        + (if enemy_kind(k) { 1int } else { 0int })
}

impl BondKind {
    pub fn is_zhiji(&self) -> (r: bool)
        ensures
            r == zhiji_kind(*self),
    {
        match self {
            BondKind::SwornBrothers | BondKind::MasterDisciple | BondKind::Soulmate
            | BondKind::LoyalRetainer => true,
            _ => false,
        }
    }

    pub fn is_companion_class(&self) -> (r: bool)
        ensures
            r == (*self == BondKind::Companion),
    {
        match self {
            BondKind::Companion => true,
            _ => false,
        }
    }

    pub fn is_guardian(&self) -> (r: bool)
        ensures
            r == (*self == BondKind::Guardian),
    {
        match self {
            BondKind::Guardian => true,
            _ => false,
        }
    }

    pub fn is_mentor(&self) -> (r: bool)
        ensures
            r == (*self == BondKind::Mentor),
    {
        match self {
            BondKind::Mentor => true,
            _ => false,
        }
    }

    pub fn is_enemy(&self) -> (r: bool)
        ensures
            r == enemy_kind(*self),
    {
        match self {
            BondKind::BloodEnemy | BondKind::ArchRival | BondKind::Betrayer | BondKind::Oppressor => true,
            _ => false,
        }
    }
}

/// Every bond kind lies in exactly one of the five regions.
pub proof fn law_bond_kind_one_region(k: BondKind)
    ensures
        region_count(k) == 1,
{
}

/// Whether a bond is live, and why not.
#[derive(Debug, Clone, PartialEq, Eq)]
pub enum BondStatus {
    Active,
    /// Settled, for the given reason.
    Resolved { reason: String },
    /// One side is dead.
    Deceased,
    /// Asleep until something wakes it.
    Dormant,
    /// Waking up because of the event `trigger`.
    Reactivating { trigger: EventId },
}

impl Default for BondStatus {
    fn default() -> (r: BondStatus)
        ensures
            r is Active,
    {
        BondStatus::Active
    }
}

impl BondStatus {
    /// Only active and reactivating bonds take in what happens in play.
    pub fn accepts_live_input(&self) -> (r: bool)
        ensures
            r == (*self is Active || *self is Reactivating),
    {
        match self {
            BondStatus::Active | BondStatus::Reactivating { .. } => true,
            _ => false,
        }
    }
}

} // verus!
