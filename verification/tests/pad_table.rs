use npc_mind::emotion::EmotionType;
use npc_mind::pad::emotion_to_pad;

#[test]
fn every_emotion_has_its_pad_coordinates() {
    let table = [
        (EmotionType::Joy, 0.40f32, 0.20f32, 0.10f32),
        (EmotionType::Distress, -0.40f32, -0.20f32, -0.50f32),
        (EmotionType::HappyFor, 0.40f32, 0.20f32, 0.20f32),
        (EmotionType::Pity, -0.40f32, -0.20f32, -0.50f32),
        (EmotionType::Gloating, 0.30f32, -0.30f32, -0.10f32),
        (EmotionType::Resentment, -0.20f32, -0.30f32, -0.20f32),
        (EmotionType::Hope, 0.20f32, 0.20f32, -0.10f32),
        (EmotionType::Fear, -0.64f32, 0.60f32, -0.43f32),
        (EmotionType::Satisfaction, 0.30f32, -0.20f32, 0.40f32),
        (EmotionType::Disappointment, -0.30f32, 0.10f32, -0.40f32),
        (EmotionType::Relief, 0.20f32, -0.30f32, 0.40f32),
        (EmotionType::FearsConfirmed, -0.50f32, 0.30f32, -0.60f32),
        (EmotionType::Pride, 0.40f32, 0.30f32, 0.30f32),
        (EmotionType::Shame, -0.30f32, 0.10f32, -0.90f32),
        (EmotionType::Admiration, 0.50f32, 0.30f32, -0.20f32),
        (EmotionType::Reproach, -0.30f32, -0.10f32, 0.40f32),
        (EmotionType::Gratification, 0.60f32, 0.50f32, 0.40f32),
        (EmotionType::Remorse, -0.30f32, 0.10f32, -0.60f32),
        (EmotionType::Gratitude, 0.40f32, 0.20f32, -0.30f32),
        (EmotionType::Anger, -0.51f32, 0.59f32, 0.25f32),
        (EmotionType::Love, 0.30f32, 0.10f32, 0.20f32),
        (EmotionType::Hate, -0.60f32, 0.60f32, 0.30f32),
    ];
    for (e, p, a, d) in table {
        let pad = emotion_to_pad(e);
        assert_eq!(f32::from_bits(pad.pleasure), p, "{e:?} pleasure");
        assert_eq!(f32::from_bits(pad.arousal), a, "{e:?} arousal");
        assert_eq!(f32::from_bits(pad.dominance), d, "{e:?} dominance");
    }
}

#[test]
fn shame_is_the_most_submissive() {
    let shame = f32::from_bits(emotion_to_pad(EmotionType::Shame).dominance);
    assert_eq!(shame, -0.9);
}
