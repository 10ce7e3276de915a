use vstd::prelude::*;

verus! {

/// The post-processing effects applied when the off-screen framebuffer is
/// drawn to the window.
#[derive(Clone, Copy, Debug, PartialEq, Eq, Structural)]
pub enum PostProcessingEffects {
    NoPostProcessing,
    Inversed,
    GrayScale,
    DeepFried,
    Blur,
    Edged,
}

/// Number of post-processing effects the viewer cycles through.
pub const EFFECT_COUNT: usize = 6;

/// The effects in the order in which the viewer cycles through them.
pub open spec fn effect_sequence() -> Seq<PostProcessingEffects> {
    seq![
        PostProcessingEffects::NoPostProcessing,
        PostProcessingEffects::Inversed,
        PostProcessingEffects::GrayScale,
        PostProcessingEffects::DeepFried,
        PostProcessingEffects::Blur,
        PostProcessingEffects::Edged,
    ]
}

/// The effect at position `index` of the cycle.
pub fn effect_at(index: usize) -> (effect: PostProcessingEffects)
    requires
        index < EFFECT_COUNT,
    ensures
        effect == effect_sequence()[index as int],
{
    match index {
        0 => PostProcessingEffects::NoPostProcessing,
        1 => PostProcessingEffects::Inversed,
        2 => PostProcessingEffects::GrayScale,
        3 => PostProcessingEffects::DeepFried,
        4 => PostProcessingEffects::Blur,
        _ => PostProcessingEffects::Edged,
    }
}

/// The index that follows `i` when cycling forward through the effects.
pub open spec fn spec_next_effect_index(i: nat) -> nat {
    if i + 1 == EFFECT_COUNT {
        0
    } else {
        i + 1
    }
}

/// The index that precedes `i` when cycling backward through the effects.
pub open spec fn spec_previous_effect_index(i: nat) -> nat {
    if i == 0 {
        (EFFECT_COUNT - 1) as nat
    } else {
        (i - 1) as nat
    }
}

/// Index of the effect after `index`, wrapping from the last one to the first.
pub fn next_effect_index(index: usize) -> (next: usize)
    requires
        index < EFFECT_COUNT,
    ensures
        next == spec_next_effect_index(index as nat),
        next < EFFECT_COUNT,
{
    if index == EFFECT_COUNT - 1 {
        0
    } else {
        index + 1
    }
}

/// Index of the effect before `index`, wrapping from the first one to the last.
pub fn previous_effect_index(index: usize) -> (previous: usize)
    requires
        index < EFFECT_COUNT,
    ensures
        previous == spec_previous_effect_index(index as nat),
        previous < EFFECT_COUNT,
{
    if index == 0 {
        EFFECT_COUNT - 1
    } else {
        index - 1
    }
}

/// The index reached from `i` after `steps` forward steps.
pub open spec fn advance_effect_index(i: nat, steps: nat) -> nat
    decreases steps,
{
    if steps == 0 {
        i
    } else {
        spec_next_effect_index(advance_effect_index(i, (steps - 1) as nat))
    }
}

/// Stepping back undoes stepping forward.
pub proof fn lemma_previous_undoes_next(i: nat)
    requires
        i < EFFECT_COUNT,
    ensures
        spec_previous_effect_index(spec_next_effect_index(i)) == i,
{
}

/// Stepping forward undoes stepping back.
pub proof fn lemma_next_undoes_previous(i: nat)
    requires
        i < EFFECT_COUNT,
    ensures
        spec_next_effect_index(spec_previous_effect_index(i)) == i,
{
}

/// Forward steps move through the effects in order, wrapping around:
/// `steps` steps from `i` reach `(i + steps) % EFFECT_COUNT`.
pub proof fn lemma_advance_is_rotation(i: nat, steps: nat)
    requires
        i < EFFECT_COUNT,
    ensures
        advance_effect_index(i, steps) == (i + steps) % (EFFECT_COUNT as nat),
    decreases steps,
{
    if steps > 0 {
        lemma_advance_is_rotation(i, (steps - 1) as nat);
        let k = (i + steps - 1) as nat;
        assert(k % 6 < 6);
        assert((k + 1) % 6 == if k % 6 + 1 == 6 { 0 } else { k % 6 + 1 }) by (nonlinear_arith);
    }
}

/// Cycling forward visits every effect exactly once before coming back:
/// after `EFFECT_COUNT` steps the selection is back where it started, and no
/// smaller positive number of steps returns to it.
pub proof fn lemma_cycle_returns_after_all_effects(i: nat, steps: nat)
    requires
        i < EFFECT_COUNT,
        0 < steps <= EFFECT_COUNT,
    ensures
        advance_effect_index(i, steps) == i <==> steps == EFFECT_COUNT,
{
    lemma_advance_is_rotation(i, steps);
    assert((i + steps) % 6 == i <==> steps == 6) by (nonlinear_arith)
        requires
            i < 6,
            0 < steps <= 6,
    ;
}

} // verus!
