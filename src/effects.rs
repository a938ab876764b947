use vstd::prelude::*;

verus! {

/// The full-screen effect applied when the off-screen frame is drawn to the window.
#[derive(Clone, Copy, Debug, PartialEq, Eq, Structural)]
pub enum PostProcessingEffects {
    NoPostProcessing,
    Inversed,
    GrayScale,
    DeepFried,
    Blur,
    Edged,
}

/// How many effects the viewer cycles through.
pub const EFFECT_COUNT: usize = 6;

/// Position of an effect in the cycling order.
pub open spec fn effect_index(e: PostProcessingEffects) -> int {
    match e {
        PostProcessingEffects::NoPostProcessing => 0,
        PostProcessingEffects::Inversed => 1,
        PostProcessingEffects::GrayScale => 2,
        PostProcessingEffects::DeepFried => 3,
        PostProcessingEffects::Blur => 4,
        PostProcessingEffects::Edged => 5,
    }
}

/// The effect at a position of the cycling order.
pub open spec fn effect_at(i: int) -> PostProcessingEffects
    recommends
        i < EFFECT_COUNT,
{
    if i == 0 {
        PostProcessingEffects::NoPostProcessing
    } else if i == 1 {
        PostProcessingEffects::Inversed
    } else if i == 2 {
        PostProcessingEffects::GrayScale
    } else if i == 3 {
        PostProcessingEffects::DeepFried
    } else if i == 4 {
        PostProcessingEffects::Blur
    } else {
        PostProcessingEffects::Edged
    }
}

/// The effect after `e` in the cycling order, the first after the last.
pub open spec fn next_effect(e: PostProcessingEffects) -> PostProcessingEffects {
    effect_at((effect_index(e) + 1) % (EFFECT_COUNT as int))
}

/// The effect before `e` in the cycling order, the last before the first.
pub open spec fn previous_effect(e: PostProcessingEffects) -> PostProcessingEffects {
    effect_at((effect_index(e) + EFFECT_COUNT - 1) % (EFFECT_COUNT as int))
}

impl PostProcessingEffects {
    /// Position of this effect in the cycling order.
    pub fn index(&self) -> (r: usize)
        ensures
            r == effect_index(*self),
            r < EFFECT_COUNT,
    {
        match self {
            PostProcessingEffects::NoPostProcessing => 0,
            PostProcessingEffects::Inversed => 1,
            PostProcessingEffects::GrayScale => 2,
            PostProcessingEffects::DeepFried => 3,
            PostProcessingEffects::Blur => 4,
            PostProcessingEffects::Edged => 5,
        }
    }

    /// The effect at position `i` of the cycling order.
    pub fn from_index(i: usize) -> (r: PostProcessingEffects)
        requires
            i < EFFECT_COUNT,
        ensures
            r == effect_at(i as int),
            effect_index(r) == i,
    {
        if i == 0 {
            PostProcessingEffects::NoPostProcessing
        } else if i == 1 {
            PostProcessingEffects::Inversed
        } else if i == 2 {
            PostProcessingEffects::GrayScale
        } else if i == 3 {
            PostProcessingEffects::DeepFried
        } else if i == 4 {
            PostProcessingEffects::Blur
        } else {
            PostProcessingEffects::Edged
        }
    }

    /// The effect after this one, wrapping from the last to the first.
    pub fn next(&self) -> (r: PostProcessingEffects)
        ensures
            r == next_effect(*self),
            effect_index(r) == (effect_index(*self) + 1) % (EFFECT_COUNT as int),
    {
        let i = self.index();
        if i == EFFECT_COUNT - 1 {
            PostProcessingEffects::from_index(0)
        } else {
            PostProcessingEffects::from_index(i + 1)
        }
    }

    /// The effect before this one, wrapping from the first to the last.
    pub fn previous(&self) -> (r: PostProcessingEffects)
        ensures
            r == previous_effect(*self),
            effect_index(r) == (effect_index(*self) + EFFECT_COUNT - 1) % (EFFECT_COUNT as int),
    {
        let i = self.index();
        if i == 0 {
            PostProcessingEffects::from_index(EFFECT_COUNT - 1)
        } else {
            PostProcessingEffects::from_index(i - 1)
        }
    }
}

/// Each position of the cycling order names exactly one effect.
pub proof fn lemma_effect_index_inverse(e: PostProcessingEffects)
    ensures
        effect_index(e) < EFFECT_COUNT,
        effect_at(effect_index(e)) == e,
{
}

/// Stepping forward and then back returns to the same effect, and so does
/// stepping back and then forward.
pub proof fn lemma_next_previous_inverse(e: PostProcessingEffects)
    ensures
        previous_effect(next_effect(e)) == e,
        next_effect(previous_effect(e)) == e,
{
}

/// Stepping forward through all the effects returns to the first one.
pub proof fn lemma_next_cycles(e: PostProcessingEffects)
    ensures
        next_effect(next_effect(next_effect(next_effect(next_effect(next_effect(e)))))) == e,
        next_effect(e) != e,
{
}

} // verus!
