use scene_viewer::effects::{
    effect_at, next_effect_index, previous_effect_index, PostProcessingEffects, EFFECT_COUNT,
};

#[test]
fn effects_come_in_cycle_order() {
    assert_eq!(EFFECT_COUNT, 6);
    assert_eq!(effect_at(0), PostProcessingEffects::NoPostProcessing);
    assert_eq!(effect_at(1), PostProcessingEffects::Inversed);
    assert_eq!(effect_at(2), PostProcessingEffects::GrayScale);
    assert_eq!(effect_at(3), PostProcessingEffects::DeepFried);
    assert_eq!(effect_at(4), PostProcessingEffects::Blur);
    assert_eq!(effect_at(5), PostProcessingEffects::Edged);
}

#[test]
fn next_index_wraps_from_last_to_first() {
    assert_eq!(next_effect_index(0), 1);
    assert_eq!(next_effect_index(4), 5);
    assert_eq!(next_effect_index(5), 0);
}

#[test]
fn previous_index_wraps_from_first_to_last() {
    assert_eq!(previous_effect_index(0), 5);
    assert_eq!(previous_effect_index(1), 0);
    assert_eq!(previous_effect_index(5), 4);
}

#[test]
fn next_and_previous_undo_each_other() {
    for i in 0..EFFECT_COUNT {
        assert_eq!(previous_effect_index(next_effect_index(i)), i);
        assert_eq!(next_effect_index(previous_effect_index(i)), i);
    }
}

#[test]
fn cycling_forward_returns_after_every_effect() {
    for start in 0..EFFECT_COUNT {
        let mut index = start;
        for step in 1..=EFFECT_COUNT {
            index = next_effect_index(index);
            assert_eq!(index == start, step == EFFECT_COUNT);
        }
    }
}
