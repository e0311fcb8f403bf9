//! How much of the speaker's emotional charge reaches the listener at each
//! magnitude, and how a charge is binned into a magnitude.
//!
//! Coefficients and thresholds are 32-bit floats held as their bit patterns
//! (see `float_bits`).

use vstd::prelude::*;
use crate::float_bits::{less_than, f32_lt, lemma_nonnegative_finite};
use crate::listener_perspective::types::Magnitude;

verus! {

/// The factors applied to the speaker's pleasure, arousal and dominance,
/// for each magnitude.
#[derive(Debug, Clone, Copy, PartialEq, Eq, Structural)]
pub struct MagnitudeCoefTable {
    pub weak_p: u32,
    pub normal_p: u32,
    pub strong_p: u32,
    pub weak_a: u32,
    pub normal_a: u32,
    pub strong_a: u32,
    pub weak_d: u32,
    pub normal_d: u32,
    pub strong_d: u32,
}

/// The default coefficients: pleasure 0.5 / 1.0 / 1.5, arousal
/// 0.5 / 1.0 / 1.3, dominance 0.4 / 1.0 / 1.3 (weak / normal / strong).
pub open spec fn default_coef_table() -> MagnitudeCoefTable {
    MagnitudeCoefTable {
        weak_p: 0x3F00_0000u32,
        normal_p: 0x3F80_0000u32,
        strong_p: 0x3FC0_0000u32,
        weak_a: 0x3F00_0000u32,
        normal_a: 0x3F80_0000u32,
        strong_a: 0x3FA6_6666u32,
        weak_d: 0x3ECC_CCCDu32,
        normal_d: 0x3F80_0000u32,
        strong_d: 0x3FA6_6666u32,
    }
}

impl Default for MagnitudeCoefTable {
    fn default() -> (r: MagnitudeCoefTable)
        ensures
            r == default_coef_table(),
    {
        MagnitudeCoefTable {
            weak_p: 0x3F00_0000u32,
            normal_p: 0x3F80_0000u32,
            strong_p: 0x3FC0_0000u32,
            weak_a: 0x3F00_0000u32,
            normal_a: 0x3F80_0000u32,
            strong_a: 0x3FA6_6666u32,
            weak_d: 0x3ECC_CCCDu32,
            normal_d: 0x3F80_0000u32,
            strong_d: 0x3FA6_6666u32,
        }
    }
}

impl MagnitudeCoefTable {
    /// The pleasure coefficient of `magnitude`.
    pub fn p_coef(&self, magnitude: Magnitude) -> (r: u32)
        ensures
            r == match magnitude {
                Magnitude::Weak => self.weak_p,
                Magnitude::Normal => self.normal_p,
                Magnitude::Strong => self.strong_p,
            },
    {
        match magnitude {
            Magnitude::Weak => self.weak_p,
            Magnitude::Normal => self.normal_p,
            Magnitude::Strong => self.strong_p,
        }
    }

    /// The arousal coefficient of `magnitude`.
    pub fn a_coef(&self, magnitude: Magnitude) -> (r: u32)
        ensures
            r == match magnitude {
                Magnitude::Weak => self.weak_a,
                Magnitude::Normal => self.normal_a,
                Magnitude::Strong => self.strong_a,
            },
    {
        match magnitude {
            Magnitude::Weak => self.weak_a,
            Magnitude::Normal => self.normal_a,
            Magnitude::Strong => self.strong_a,
        }
    }

    /// The dominance coefficient of `magnitude`.
    pub fn d_coef(&self, magnitude: Magnitude) -> (r: u32)
        ensures
            r == match magnitude {
                Magnitude::Weak => self.weak_d,
                Magnitude::Normal => self.normal_d,
                Magnitude::Strong => self.strong_d,
            },
    {
        match magnitude {
            Magnitude::Weak => self.weak_d,
            Magnitude::Normal => self.normal_d,
            Magnitude::Strong => self.strong_d,
        }
    }
}

/// Where the magnitude bins end: below `weak_max` a charge is weak, below
/// `normal_max` normal, and strong from there on.
#[derive(Debug, Clone, Copy, PartialEq, Eq, Structural)]
pub struct MagnitudeBinThresholds {
    pub weak_max: u32,
    pub normal_max: u32,
}

impl Default for MagnitudeBinThresholds {
    /// Weak below 0.15, normal below 0.4.
    fn default() -> (r: MagnitudeBinThresholds)
        ensures
            r.weak_max == 0x3E19_999Au32,
            r.normal_max == 0x3ECC_CCCDu32,
    {
        MagnitudeBinThresholds { weak_max: 0x3E19_999Au32, normal_max: 0x3ECC_CCCDu32 }
    }
}

/// The magnitude bin of a charge, by its absolute value (float bits).
pub open spec fn bin_of_spec(th: MagnitudeBinThresholds, x: u32) -> Magnitude {
    let a = x & 0x7FFF_FFFFu32;
    if f32_lt(a, th.weak_max) {
        Magnitude::Weak
    } else if f32_lt(a, th.normal_max) {
        Magnitude::Normal
    } else {
        Magnitude::Strong
    }
}

impl MagnitudeBinThresholds {
    /// The bin of the listener's pleasure change `abs_p_l`, taken by its
    /// absolute value. A NaN lands in the strong bin.
    pub fn bin_of(&self, abs_p_l: u32) -> (r: Magnitude)
        ensures
            r == bin_of_spec(*self, abs_p_l),
    {
        let a = abs_p_l & 0x7FFF_FFFFu32;
        if less_than(a, self.weak_max) {
            Magnitude::Weak
        } else if less_than(a, self.normal_max) {
            Magnitude::Normal
        } else {
            Magnitude::Strong
        }
    }
}


/// The default coefficients: pleasure 0.5 / 1.0 / 1.5, arousal
/// 0.5 / 1.0 / 1.3, dominance 0.4 / 1.0 / 1.3; on every axis a weak charge
/// lands softer than a normal one, which lands as it is (1.0), and a
/// strong one harder.
pub proof fn law_default_coefficients()
    ensures
        default_coef_table().weak_p == 0x3F00_0000u32,
        default_coef_table().normal_p == 0x3F80_0000u32,
        default_coef_table().strong_p == 0x3FC0_0000u32,
        default_coef_table().weak_a == 0x3F00_0000u32,
        default_coef_table().normal_a == 0x3F80_0000u32,
        default_coef_table().strong_a == 0x3FA6_6666u32,
        default_coef_table().weak_d == 0x3ECC_CCCDu32,
        default_coef_table().normal_d == 0x3F80_0000u32,
        default_coef_table().strong_d == 0x3FA6_6666u32,
        f32_lt(default_coef_table().weak_p, default_coef_table().normal_p) && f32_lt(default_coef_table().normal_p, default_coef_table().strong_p),
        f32_lt(default_coef_table().weak_a, default_coef_table().normal_a) && f32_lt(default_coef_table().normal_a, default_coef_table().strong_a),
        f32_lt(default_coef_table().weak_d, default_coef_table().normal_d) && f32_lt(default_coef_table().normal_d, default_coef_table().strong_d),
        default_coef_table().normal_p == 0x3F80_0000u32 && default_coef_table().normal_a == 0x3F80_0000u32 && default_coef_table().normal_d == 0x3F80_0000u32,
{
    lemma_nonnegative_finite(0x3ECC_CCCDu32);
    lemma_nonnegative_finite(0x3F00_0000u32);
    lemma_nonnegative_finite(0x3F80_0000u32);
    lemma_nonnegative_finite(0x3FA6_6666u32);
    lemma_nonnegative_finite(0x3FC0_0000u32);
}

} // verus!
