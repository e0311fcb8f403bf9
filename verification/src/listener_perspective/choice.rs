//! The choices the similarity classifiers make from their group scores
//! (float bit patterns): which sign, and which magnitude and runner-up.

use vstd::prelude::*;
use crate::float_bits::{at_least, greater_than, f32_ge, f32_is_nan, f32_key, f32_lt};
use crate::listener_perspective::types::{Magnitude, Sign};

verus! {

/// The sign whose prototypes the utterance resembles more: keep when its
/// score is at least that of invert (so a NaN gives invert).
pub fn pick_sign(keep_score: u32, invert_score: u32) -> (r: Sign)
    ensures
        r == (if f32_ge(keep_score, invert_score) {
            Sign::Keep
        } else {
            Sign::Invert
        }),
{
    if at_least(keep_score, invert_score) {
        Sign::Keep
    } else {
        Sign::Invert
    }
}

/// The score of `m` among the three group scores.
pub open spec fn score_of(m: Magnitude, weak: u32, normal: u32, strong: u32) -> u32 {
    match m {
        Magnitude::Weak => weak,
        Magnitude::Normal => normal,
        Magnitude::Strong => strong,
    }
}

/// The place of `m` in the order weak, normal, strong.
pub open spec fn magnitude_rank(m: Magnitude) -> int {
    match m {
        Magnitude::Weak => 0,
        Magnitude::Normal => 1,
        Magnitude::Strong => 2,
    }
}

/// Whether `a` comes before `b` when the magnitudes are ordered by score,
/// highest first, equal scores in the order weak, normal, strong.
pub open spec fn scores_before(a: Magnitude, b: Magnitude, weak: u32, normal: u32, strong: u32) -> bool {
    let ka = f32_key(score_of(a, weak, normal, strong));
    let kb = f32_key(score_of(b, weak, normal, strong));
    ka > kb || (ka == kb && magnitude_rank(a) < magnitude_rank(b))
}

/// `a` scores strictly above `b` (never when either is NaN).
pub open spec fn above(a: u32, b: u32) -> bool {
    f32_lt(b, a)
}

/// The first two magnitudes after a stable insertion sort of weak, normal,
/// strong by score, highest first, where a NaN compares equal to anything:
/// each magnitude moves before those it scores strictly above, starting
/// from the back.
pub open spec fn top_two(weak: u32, normal: u32, strong: u32) -> (Magnitude, Magnitude) {
    let (p0, p1) = if above(normal, weak) {
        (Magnitude::Normal, Magnitude::Weak)
    } else {
        (Magnitude::Weak, Magnitude::Normal)
    };
    if above(strong, score_of(p1, weak, normal, strong)) {
        if above(strong, score_of(p0, weak, normal, strong)) {
            (Magnitude::Strong, p0)
        } else {
            (p0, Magnitude::Strong)
        }
    } else {
        (p0, p1)
    }
}

/// The magnitude with the highest score and the one just after it, by a
/// stable sort from highest to lowest in which a NaN compares equal to
/// anything. With scores that are all numbers this is the order by score,
/// the lower magnitude winning a tie.
pub fn pick_magnitude(weak: u32, normal: u32, strong: u32) -> (r: (Magnitude, Magnitude))
    ensures
        r == top_two(weak, normal, strong),
        r.0 != r.1,
        !f32_is_nan(weak) && !f32_is_nan(normal) && !f32_is_nan(strong) ==> {
            &&& forall|m: Magnitude| m != r.0 ==> scores_before(r.0, m, weak, normal, strong)
            &&& forall|m: Magnitude| m != r.0 && m != r.1 ==> scores_before(r.1, m, weak, normal, strong)
        },
{
    let (p0, p1) = if greater_than(normal, weak) {
        (Magnitude::Normal, Magnitude::Weak)
    } else {
        (Magnitude::Weak, Magnitude::Normal)
    };
    let s1 = match p1 {
        Magnitude::Weak => weak,
        Magnitude::Normal => normal,
        Magnitude::Strong => strong,
    };
    let s0 = match p0 {
        Magnitude::Weak => weak,
        Magnitude::Normal => normal,
        Magnitude::Strong => strong,
    };
    if greater_than(strong, s1) {
        if greater_than(strong, s0) {
            (Magnitude::Strong, p0)
        } else {
            (p0, Magnitude::Strong)
        }
    } else {
        (p0, p1)
    }
}

} // verus!
