//! The Eight Harmonies, their names and their slots in the activation array.
//! The colours they manifest as belong to the renderer.
use vstd::prelude::*;

verus! {

#[derive(Debug, Clone, Copy, PartialEq, Eq, Hash, Structural)]
pub enum Harmony {
    ResonantCoherence,
    PanSentientFlourishing,
    IntegralWisdom,
    InfinitePlay,
    UniversalInterconnectedness,
    SacredReciprocity,
    EvolutionaryProgression,
    SacredStillness,
}

/// Slot of a harmony in the activation array.
pub open spec fn harmony_slot(h: Harmony) -> int {
    match h {
        Harmony::ResonantCoherence => 0,
        Harmony::PanSentientFlourishing => 1,
        Harmony::IntegralWisdom => 2,
        Harmony::InfinitePlay => 3,
        Harmony::UniversalInterconnectedness => 4,
        Harmony::SacredReciprocity => 5,
        Harmony::EvolutionaryProgression => 6,
        Harmony::SacredStillness => 7,
    }
}

/// All eight harmonies in slot order.
pub open spec fn all_harmonies() -> Seq<Harmony> {
    seq![
        Harmony::ResonantCoherence,
        Harmony::PanSentientFlourishing,
        Harmony::IntegralWisdom,
        Harmony::InfinitePlay,
        Harmony::UniversalInterconnectedness,
        Harmony::SacredReciprocity,
        Harmony::EvolutionaryProgression,
        Harmony::SacredStillness,
    ]
}

impl Harmony {
    /// All eight harmonies in slot order.
    pub fn all() -> (r: [Harmony; 8])
        ensures
            r@ == all_harmonies(),
    {
        let r = [
            Harmony::ResonantCoherence,
            Harmony::PanSentientFlourishing,
            Harmony::IntegralWisdom,
            Harmony::InfinitePlay,
            Harmony::UniversalInterconnectedness,
            Harmony::SacredReciprocity,
            Harmony::EvolutionaryProgression,
            Harmony::SacredStillness,
        ];
        assert(r@ =~= all_harmonies());
        r
    }

    /// Index into the activation array.
    pub fn index(&self) -> (r: usize)
        ensures
            r == harmony_slot(*self),
    {
        match self {
            Harmony::ResonantCoherence => 0,
            Harmony::PanSentientFlourishing => 1,
            Harmony::IntegralWisdom => 2,
            Harmony::InfinitePlay => 3,
            Harmony::UniversalInterconnectedness => 4,
            Harmony::SacredReciprocity => 5,
            Harmony::EvolutionaryProgression => 6,
            Harmony::SacredStillness => 7,
        }
    }

    pub fn name(&self) -> (r: &'static str)
        ensures
            r == (match *self {
                Harmony::ResonantCoherence => "Resonant Coherence",
                Harmony::PanSentientFlourishing => "Pan-Sentient Flourishing",
                Harmony::IntegralWisdom => "Integral Wisdom",
                Harmony::InfinitePlay => "Infinite Play",
                Harmony::UniversalInterconnectedness => "Universal Interconnectedness",
                Harmony::SacredReciprocity => "Sacred Reciprocity",
                Harmony::EvolutionaryProgression => "Evolutionary Progression",
                Harmony::SacredStillness => "Sacred Stillness",
            }),
    {
        match self {
            Harmony::ResonantCoherence => "Resonant Coherence",
            Harmony::PanSentientFlourishing => "Pan-Sentient Flourishing",
            Harmony::IntegralWisdom => "Integral Wisdom",
            Harmony::InfinitePlay => "Infinite Play",
            Harmony::UniversalInterconnectedness => "Universal Interconnectedness",
            Harmony::SacredReciprocity => "Sacred Reciprocity",
            Harmony::EvolutionaryProgression => "Evolutionary Progression",
            Harmony::SacredStillness => "Sacred Stillness",
        }
    }
}

/// Each harmony sits at its own slot of the activation array, and the list
/// of all harmonies holds each at its slot.
pub proof fn lemma_harmony_slots_are_a_bijection(h: Harmony, g: Harmony)
    ensures
        0 <= harmony_slot(h) < 8,
        all_harmonies()[harmony_slot(h)] == h,
        harmony_slot(h) == harmony_slot(g) ==> h == g,
{
}

} // verus!
