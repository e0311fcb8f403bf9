//! The PAD space (pleasure, arousal, dominance, each from -1 to 1): where
//! each OCC emotion lies in it, and the anchor texts that mark its axes.

use vstd::prelude::*;
use crate::emotion::EmotionType;
use crate::event::PadBits;
use crate::emotion::base_valence_bits;
use crate::float_bits::{f32_lt, lemma_nonnegative_finite, lemma_nonpositive_finite};

verus! {

/// The anchor texts of one axis: phrases at its positive and negative ends.
#[derive(Debug, Clone)]
pub struct PadAxisAnchorsOwned {
    pub positive: Vec<String>,
    pub negative: Vec<String>,
}

/// The anchor texts of all three axes.
#[derive(Debug, Clone)]
pub struct PadAnchorSet {
    pub pleasure: PadAxisAnchorsOwned,
    pub arousal: PadAxisAnchorsOwned,
    pub dominance: PadAxisAnchorsOwned,
}

/// Where each OCC emotion lies in PAD space (after Gebhard's ALMA table,
/// with the adjustments of this engine), as float bit patterns; the
/// decimal values are given beside each row.
pub open spec fn pad_of(e: EmotionType) -> PadBits {
    match e {
        // (0.40, 0.20, 0.10)
        EmotionType::Joy => PadBits { pleasure: 0x3ECC_CCCDu32, arousal: 0x3E4C_CCCDu32, dominance: 0x3DCC_CCCDu32 },
        // (-0.40, -0.20, -0.50)
        EmotionType::Distress => PadBits { pleasure: 0xBECC_CCCDu32, arousal: 0xBE4C_CCCDu32, dominance: 0xBF00_0000u32 },
        // (0.40, 0.20, 0.20)
        EmotionType::HappyFor => PadBits { pleasure: 0x3ECC_CCCDu32, arousal: 0x3E4C_CCCDu32, dominance: 0x3E4C_CCCDu32 },
        // (-0.40, -0.20, -0.50)
        EmotionType::Pity => PadBits { pleasure: 0xBECC_CCCDu32, arousal: 0xBE4C_CCCDu32, dominance: 0xBF00_0000u32 },
        // (0.30, -0.30, -0.10)
        EmotionType::Gloating => PadBits { pleasure: 0x3E99_999Au32, arousal: 0xBE99_999Au32, dominance: 0xBDCC_CCCDu32 },
        // (-0.20, -0.30, -0.20)
        EmotionType::Resentment => PadBits { pleasure: 0xBE4C_CCCDu32, arousal: 0xBE99_999Au32, dominance: 0xBE4C_CCCDu32 },
        // (0.20, 0.20, -0.10)
        EmotionType::Hope => PadBits { pleasure: 0x3E4C_CCCDu32, arousal: 0x3E4C_CCCDu32, dominance: 0xBDCC_CCCDu32 },
        // (-0.64, 0.60, -0.43)
        EmotionType::Fear => PadBits { pleasure: 0xBF23_D70Au32, arousal: 0x3F19_999Au32, dominance: 0xBEDC_28F6u32 },
        // (0.30, -0.20, 0.40)
        EmotionType::Satisfaction => PadBits { pleasure: 0x3E99_999Au32, arousal: 0xBE4C_CCCDu32, dominance: 0x3ECC_CCCDu32 },
        // (-0.30, 0.10, -0.40)
        EmotionType::Disappointment => PadBits { pleasure: 0xBE99_999Au32, arousal: 0x3DCC_CCCDu32, dominance: 0xBECC_CCCDu32 },
        // (0.20, -0.30, 0.40)
        EmotionType::Relief => PadBits { pleasure: 0x3E4C_CCCDu32, arousal: 0xBE99_999Au32, dominance: 0x3ECC_CCCDu32 },
        // (-0.50, 0.30, -0.60)
        EmotionType::FearsConfirmed => PadBits { pleasure: 0xBF00_0000u32, arousal: 0x3E99_999Au32, dominance: 0xBF19_999Au32 },
        // (0.40, 0.30, 0.30)
        EmotionType::Pride => PadBits { pleasure: 0x3ECC_CCCDu32, arousal: 0x3E99_999Au32, dominance: 0x3E99_999Au32 },
        // (-0.30, 0.10, -0.90)
        EmotionType::Shame => PadBits { pleasure: 0xBE99_999Au32, arousal: 0x3DCC_CCCDu32, dominance: 0xBF66_6666u32 },
        // (0.50, 0.30, -0.20)
        EmotionType::Admiration => PadBits { pleasure: 0x3F00_0000u32, arousal: 0x3E99_999Au32, dominance: 0xBE4C_CCCDu32 },
        // (-0.30, -0.10, 0.40)
        EmotionType::Reproach => PadBits { pleasure: 0xBE99_999Au32, arousal: 0xBDCC_CCCDu32, dominance: 0x3ECC_CCCDu32 },
        // (0.60, 0.50, 0.40)
        EmotionType::Gratification => PadBits { pleasure: 0x3F19_999Au32, arousal: 0x3F00_0000u32, dominance: 0x3ECC_CCCDu32 },
        // (-0.30, 0.10, -0.60)
        EmotionType::Remorse => PadBits { pleasure: 0xBE99_999Au32, arousal: 0x3DCC_CCCDu32, dominance: 0xBF19_999Au32 },
        // (0.40, 0.20, -0.30)
        EmotionType::Gratitude => PadBits { pleasure: 0x3ECC_CCCDu32, arousal: 0x3E4C_CCCDu32, dominance: 0xBE99_999Au32 },
        // (-0.51, 0.59, 0.25)
        EmotionType::Anger => PadBits { pleasure: 0xBF02_8F5Cu32, arousal: 0x3F17_0A3Du32, dominance: 0x3E80_0000u32 },
        // (0.30, 0.10, 0.20)
        EmotionType::Love => PadBits { pleasure: 0x3E99_999Au32, arousal: 0x3DCC_CCCDu32, dominance: 0x3E4C_CCCDu32 },
        // (-0.60, 0.60, 0.30)
        EmotionType::Hate => PadBits { pleasure: 0xBF19_999Au32, arousal: 0x3F19_999Au32, dominance: 0x3E99_999Au32 },
    }
}

/// The PAD coordinates of an OCC emotion.
pub fn emotion_to_pad(e: EmotionType) -> (r: PadBits)
    ensures
        r == pad_of(e),
{
    match e {
        // (0.40, 0.20, 0.10)
        EmotionType::Joy => PadBits { pleasure: 0x3ECC_CCCDu32, arousal: 0x3E4C_CCCDu32, dominance: 0x3DCC_CCCDu32 },
        // (-0.40, -0.20, -0.50)
        EmotionType::Distress => PadBits { pleasure: 0xBECC_CCCDu32, arousal: 0xBE4C_CCCDu32, dominance: 0xBF00_0000u32 },
        // (0.40, 0.20, 0.20)
        EmotionType::HappyFor => PadBits { pleasure: 0x3ECC_CCCDu32, arousal: 0x3E4C_CCCDu32, dominance: 0x3E4C_CCCDu32 },
        // (-0.40, -0.20, -0.50)
        EmotionType::Pity => PadBits { pleasure: 0xBECC_CCCDu32, arousal: 0xBE4C_CCCDu32, dominance: 0xBF00_0000u32 },
        // (0.30, -0.30, -0.10)
        EmotionType::Gloating => PadBits { pleasure: 0x3E99_999Au32, arousal: 0xBE99_999Au32, dominance: 0xBDCC_CCCDu32 },
        // (-0.20, -0.30, -0.20)
        EmotionType::Resentment => PadBits { pleasure: 0xBE4C_CCCDu32, arousal: 0xBE99_999Au32, dominance: 0xBE4C_CCCDu32 },
        // (0.20, 0.20, -0.10)
        EmotionType::Hope => PadBits { pleasure: 0x3E4C_CCCDu32, arousal: 0x3E4C_CCCDu32, dominance: 0xBDCC_CCCDu32 },
        // (-0.64, 0.60, -0.43)
        EmotionType::Fear => PadBits { pleasure: 0xBF23_D70Au32, arousal: 0x3F19_999Au32, dominance: 0xBEDC_28F6u32 },
        // (0.30, -0.20, 0.40)
        EmotionType::Satisfaction => PadBits { pleasure: 0x3E99_999Au32, arousal: 0xBE4C_CCCDu32, dominance: 0x3ECC_CCCDu32 },
        // (-0.30, 0.10, -0.40)
        EmotionType::Disappointment => PadBits { pleasure: 0xBE99_999Au32, arousal: 0x3DCC_CCCDu32, dominance: 0xBECC_CCCDu32 },
        // (0.20, -0.30, 0.40)
        EmotionType::Relief => PadBits { pleasure: 0x3E4C_CCCDu32, arousal: 0xBE99_999Au32, dominance: 0x3ECC_CCCDu32 },
        // (-0.50, 0.30, -0.60)
        EmotionType::FearsConfirmed => PadBits { pleasure: 0xBF00_0000u32, arousal: 0x3E99_999Au32, dominance: 0xBF19_999Au32 },
        // (0.40, 0.30, 0.30)
        EmotionType::Pride => PadBits { pleasure: 0x3ECC_CCCDu32, arousal: 0x3E99_999Au32, dominance: 0x3E99_999Au32 },
        // (-0.30, 0.10, -0.90)
        EmotionType::Shame => PadBits { pleasure: 0xBE99_999Au32, arousal: 0x3DCC_CCCDu32, dominance: 0xBF66_6666u32 },
        // (0.50, 0.30, -0.20)
        EmotionType::Admiration => PadBits { pleasure: 0x3F00_0000u32, arousal: 0x3E99_999Au32, dominance: 0xBE4C_CCCDu32 },
        // (-0.30, -0.10, 0.40)
        EmotionType::Reproach => PadBits { pleasure: 0xBE99_999Au32, arousal: 0xBDCC_CCCDu32, dominance: 0x3ECC_CCCDu32 },
        // (0.60, 0.50, 0.40)
        EmotionType::Gratification => PadBits { pleasure: 0x3F19_999Au32, arousal: 0x3F00_0000u32, dominance: 0x3ECC_CCCDu32 },
        // (-0.30, 0.10, -0.60)
        EmotionType::Remorse => PadBits { pleasure: 0xBE99_999Au32, arousal: 0x3DCC_CCCDu32, dominance: 0xBF19_999Au32 },
        // (0.40, 0.20, -0.30)
        EmotionType::Gratitude => PadBits { pleasure: 0x3ECC_CCCDu32, arousal: 0x3E4C_CCCDu32, dominance: 0xBE99_999Au32 },
        // (-0.51, 0.59, 0.25)
        EmotionType::Anger => PadBits { pleasure: 0xBF02_8F5Cu32, arousal: 0x3F17_0A3Du32, dominance: 0x3E80_0000u32 },
        // (0.30, 0.10, 0.20)
        EmotionType::Love => PadBits { pleasure: 0x3E99_999Au32, arousal: 0x3DCC_CCCDu32, dominance: 0x3E4C_CCCDu32 },
        // (-0.60, 0.60, 0.30)
        EmotionType::Hate => PadBits { pleasure: 0xBF19_999Au32, arousal: 0x3F19_999Au32, dominance: 0x3E99_999Au32 },
    }
}


/// Where each OCC emotion lies in PAD space (float bit patterns; the
/// decimal values are given beside the table above).
pub proof fn law_pad_table(e: EmotionType)
    ensures
        e == EmotionType::Joy ==> pad_of(e).pleasure == 0x3ECC_CCCDu32 && pad_of(e).arousal == 0x3E4C_CCCDu32 && pad_of(e).dominance == 0x3DCC_CCCDu32,
        e == EmotionType::Distress ==> pad_of(e).pleasure == 0xBECC_CCCDu32 && pad_of(e).arousal == 0xBE4C_CCCDu32 && pad_of(e).dominance == 0xBF00_0000u32,
        e == EmotionType::HappyFor ==> pad_of(e).pleasure == 0x3ECC_CCCDu32 && pad_of(e).arousal == 0x3E4C_CCCDu32 && pad_of(e).dominance == 0x3E4C_CCCDu32,
        e == EmotionType::Pity ==> pad_of(e).pleasure == 0xBECC_CCCDu32 && pad_of(e).arousal == 0xBE4C_CCCDu32 && pad_of(e).dominance == 0xBF00_0000u32,
        e == EmotionType::Gloating ==> pad_of(e).pleasure == 0x3E99_999Au32 && pad_of(e).arousal == 0xBE99_999Au32 && pad_of(e).dominance == 0xBDCC_CCCDu32,
        e == EmotionType::Resentment ==> pad_of(e).pleasure == 0xBE4C_CCCDu32 && pad_of(e).arousal == 0xBE99_999Au32 && pad_of(e).dominance == 0xBE4C_CCCDu32,
        e == EmotionType::Hope ==> pad_of(e).pleasure == 0x3E4C_CCCDu32 && pad_of(e).arousal == 0x3E4C_CCCDu32 && pad_of(e).dominance == 0xBDCC_CCCDu32,
        e == EmotionType::Fear ==> pad_of(e).pleasure == 0xBF23_D70Au32 && pad_of(e).arousal == 0x3F19_999Au32 && pad_of(e).dominance == 0xBEDC_28F6u32,
        e == EmotionType::Satisfaction ==> pad_of(e).pleasure == 0x3E99_999Au32 && pad_of(e).arousal == 0xBE4C_CCCDu32 && pad_of(e).dominance == 0x3ECC_CCCDu32,
        e == EmotionType::Disappointment ==> pad_of(e).pleasure == 0xBE99_999Au32 && pad_of(e).arousal == 0x3DCC_CCCDu32 && pad_of(e).dominance == 0xBECC_CCCDu32,
        e == EmotionType::Relief ==> pad_of(e).pleasure == 0x3E4C_CCCDu32 && pad_of(e).arousal == 0xBE99_999Au32 && pad_of(e).dominance == 0x3ECC_CCCDu32,
        e == EmotionType::FearsConfirmed ==> pad_of(e).pleasure == 0xBF00_0000u32 && pad_of(e).arousal == 0x3E99_999Au32 && pad_of(e).dominance == 0xBF19_999Au32,
        e == EmotionType::Pride ==> pad_of(e).pleasure == 0x3ECC_CCCDu32 && pad_of(e).arousal == 0x3E99_999Au32 && pad_of(e).dominance == 0x3E99_999Au32,
        e == EmotionType::Shame ==> pad_of(e).pleasure == 0xBE99_999Au32 && pad_of(e).arousal == 0x3DCC_CCCDu32 && pad_of(e).dominance == 0xBF66_6666u32,
        e == EmotionType::Admiration ==> pad_of(e).pleasure == 0x3F00_0000u32 && pad_of(e).arousal == 0x3E99_999Au32 && pad_of(e).dominance == 0xBE4C_CCCDu32,
        e == EmotionType::Reproach ==> pad_of(e).pleasure == 0xBE99_999Au32 && pad_of(e).arousal == 0xBDCC_CCCDu32 && pad_of(e).dominance == 0x3ECC_CCCDu32,
        e == EmotionType::Gratification ==> pad_of(e).pleasure == 0x3F19_999Au32 && pad_of(e).arousal == 0x3F00_0000u32 && pad_of(e).dominance == 0x3ECC_CCCDu32,
        e == EmotionType::Remorse ==> pad_of(e).pleasure == 0xBE99_999Au32 && pad_of(e).arousal == 0x3DCC_CCCDu32 && pad_of(e).dominance == 0xBF19_999Au32,
        e == EmotionType::Gratitude ==> pad_of(e).pleasure == 0x3ECC_CCCDu32 && pad_of(e).arousal == 0x3E4C_CCCDu32 && pad_of(e).dominance == 0xBE99_999Au32,
        e == EmotionType::Anger ==> pad_of(e).pleasure == 0xBF02_8F5Cu32 && pad_of(e).arousal == 0x3F17_0A3Du32 && pad_of(e).dominance == 0x3E80_0000u32,
        e == EmotionType::Love ==> pad_of(e).pleasure == 0x3E99_999Au32 && pad_of(e).arousal == 0x3DCC_CCCDu32 && pad_of(e).dominance == 0x3E4C_CCCDu32,
        e == EmotionType::Hate ==> pad_of(e).pleasure == 0xBF19_999Au32 && pad_of(e).arousal == 0x3F19_999Au32 && pad_of(e).dominance == 0x3E99_999Au32,
{
}

/// An emotion's pleasure has the sign of its base valence: the positive
/// emotions are pleasant and the negative ones unpleasant.
pub proof fn law_pleasure_follows_valence(e: EmotionType)
    ensures
        f32_lt(0u32, base_valence_bits(e)) <==> f32_lt(0u32, pad_of(e).pleasure),
        f32_lt(base_valence_bits(e), 0u32) <==> f32_lt(pad_of(e).pleasure, 0u32),
{
    lemma_nonnegative_finite(0u32);
    let v = base_valence_bits(e);
    let pl = pad_of(e).pleasure;
    if v < 0x7F80_0000u32 {
        lemma_nonnegative_finite(v);
    } else {
        lemma_nonpositive_finite(v);
    }
    if pl < 0x7F80_0000u32 {
        lemma_nonnegative_finite(pl);
    } else {
        lemma_nonpositive_finite(pl);
    }
}

} // verus!
