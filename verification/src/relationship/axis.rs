//! The four axes of a relationship and the scores measured on them.
//!
//! Scores are 32-bit floats held as their bit patterns (see `float_bits`).

use vstd::prelude::*;
use crate::float_bits::{
    clamp, f32_clamp, f32_ge, f32_is_nan, f32_key, lemma_nonnegative_finite, lemma_nonpositive_finite,
};

verus! {

/// A relationship axis. Trust, affinity and respect run from -100 to 100;
/// wariness from 0 to 100.
#[derive(Debug, Clone, Copy, PartialEq, Eq, Hash, Structural)]
pub enum AxisKind {
    Trust,
    Affinity,
    Respect,
    Wariness,
}

/// The bit pattern of -100.0.
pub const AXIS_MIN_BITS: u32 = 0xC2C8_0000u32;

/// The bit pattern of 100.0.
pub const AXIS_MAX_BITS: u32 = 0x42C8_0000u32;

/// The bit pattern of 0.0.
pub const AXIS_NEUTRAL_BITS: u32 = 0u32;

/// Whether `x` lies in [`lo`, `hi`] or is NaN (clamping leaves a NaN as it
/// is).
pub open spec fn within_or_nan(x: u32, lo: u32, hi: u32) -> bool {
    f32_is_nan(x) || (f32_ge(x, lo) && f32_ge(hi, x))
}

proof fn lemma_bounds()
    ensures
        !f32_is_nan(AXIS_MIN_BITS) && !f32_is_nan(AXIS_MAX_BITS) && !f32_is_nan(AXIS_NEUTRAL_BITS),
        f32_key(AXIS_MIN_BITS) == -0x42C8_0000int,
        f32_key(AXIS_MAX_BITS) == 0x42C8_0000int,
        f32_key(AXIS_NEUTRAL_BITS) == 0,
{
    lemma_nonnegative_finite(AXIS_MAX_BITS);
    lemma_nonnegative_finite(AXIS_NEUTRAL_BITS);
    lemma_nonpositive_finite(AXIS_MIN_BITS);
}

/// A score on trust, affinity or respect, in [-100, 100] (float bits).
#[derive(Debug, Clone, Copy, PartialEq, Eq, Structural)]
pub struct AxisScore(u32);

impl AxisScore {
    /// The score's value (float bits).
    pub closed spec fn value_spec(self) -> u32 {
        self.0
    }

    #[verifier::type_invariant]
    closed spec fn well_formed(self) -> bool {
        within_or_nan(self.0, AXIS_MIN_BITS, AXIS_MAX_BITS)
    }

    /// The score of `value`, clamped to [-100, 100].
    pub fn new(value: u32) -> (r: AxisScore)
        ensures
            r.value_spec() == f32_clamp(value, AXIS_MIN_BITS, AXIS_MAX_BITS),
    {
        proof {
            lemma_bounds();
        }
        AxisScore(clamp(value, AXIS_MIN_BITS, AXIS_MAX_BITS))
    }

    /// The neutral score, 0.
    pub closed spec fn neutral_spec() -> AxisScore {
        AxisScore(AXIS_NEUTRAL_BITS)
    }

    /// The neutral score, 0.
    pub fn neutral() -> (r: AxisScore)
        ensures
            r == AxisScore::neutral_spec(),
            r.value_spec() == AXIS_NEUTRAL_BITS,
    {
        proof {
            lemma_bounds();
        }
        AxisScore(AXIS_NEUTRAL_BITS)
    }

    /// The score: in [-100, 100] unless a NaN was clamped into it.
    pub fn value(&self) -> (r: u32)
        ensures
            r == self.value_spec(),
            within_or_nan(r, AXIS_MIN_BITS, AXIS_MAX_BITS),
    {
        proof {
            use_type_invariant(self);
        }
        self.0
    }
}

impl Default for AxisScore {
    fn default() -> (r: AxisScore)
        ensures
            r.value_spec() == AXIS_NEUTRAL_BITS,
    {
        AxisScore::neutral()
    }
}

/// A score on wariness, in [0, 100] (float bits).
#[derive(Debug, Clone, Copy, PartialEq, Eq, Structural)]
pub struct WarinessScore(u32);

impl WarinessScore {
    /// The score's value (float bits).
    pub closed spec fn value_spec(self) -> u32 {
        self.0
    }

    #[verifier::type_invariant]
    closed spec fn well_formed(self) -> bool {
        within_or_nan(self.0, AXIS_NEUTRAL_BITS, AXIS_MAX_BITS)
    }

    /// The score of `value`, clamped to [0, 100]; a negative value becomes 0.
    pub fn new(value: u32) -> (r: WarinessScore)
        ensures
            r.value_spec() == f32_clamp(value, AXIS_NEUTRAL_BITS, AXIS_MAX_BITS),
    {
        proof {
            lemma_bounds();
        }
        WarinessScore(clamp(value, AXIS_NEUTRAL_BITS, AXIS_MAX_BITS))
    }

    /// The neutral score, 0.
    pub closed spec fn neutral_spec() -> WarinessScore {
        WarinessScore(AXIS_NEUTRAL_BITS)
    }

    /// The neutral score, 0.
    pub fn neutral() -> (r: WarinessScore)
        ensures
            r == WarinessScore::neutral_spec(),
            r.value_spec() == AXIS_NEUTRAL_BITS,
    {
        proof {
            lemma_bounds();
        }
        WarinessScore(AXIS_NEUTRAL_BITS)
    }

    /// The score: in [0, 100] unless a NaN was clamped into it.
    pub fn value(&self) -> (r: u32)
        ensures
            r == self.value_spec(),
            within_or_nan(r, AXIS_NEUTRAL_BITS, AXIS_MAX_BITS),
    {
        proof {
            use_type_invariant(self);
        }
        self.0
    }
}

impl Default for WarinessScore {
    fn default() -> (r: WarinessScore)
        ensures
            r.value_spec() == AXIS_NEUTRAL_BITS,
    {
        WarinessScore::neutral()
    }
}

} // verus!
