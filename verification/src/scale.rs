//! World scale levels for macro/micro zoom.
use vstd::prelude::*;

verus! {

/// Scale levels in the simulation.
#[derive(Debug, Clone, Copy, PartialEq, Eq, Structural)]
pub enum WorldScale {
    /// Walk-around: tile-level physics, individual agents.
    Micro,
    /// City/station view: building-level, population groups.
    Meso,
    /// Civilization: world-level, demographics.
    Macro,
}

impl WorldScale {
    /// Target update rate of this scale, in whole frames per second.
    pub fn target_fps_hz(&self) -> (r: u32)
        ensures
            r == (match *self {
                WorldScale::Micro => 60u32,
                WorldScale::Meso => 10u32,
                WorldScale::Macro => 2u32,
            }),
    {
        match self {
            WorldScale::Micro => 60,
            WorldScale::Meso => 10,
            WorldScale::Macro => 2,
        }
    }

    /// Whether individual entities are visible at this scale.
    pub fn shows_entities(&self) -> (r: bool)
        ensures
            r == (*self == WorldScale::Micro),
    {
        match self {
            WorldScale::Micro => true,
            _ => false,
        }
    }

    /// Whether aggregate statistics are visible at this scale.
    pub fn shows_aggregates(&self) -> (r: bool)
        ensures
            r == (*self == WorldScale::Meso || *self == WorldScale::Macro),
    {
        match self {
            WorldScale::Meso | WorldScale::Macro => true,
            _ => false,
        }
    }

    /// Whether world-level overlays (trade routes, migration) are visible.
    pub fn shows_world_overlays(&self) -> (r: bool)
        ensures
            r == (*self == WorldScale::Macro),
    {
        match self {
            WorldScale::Macro => true,
            _ => false,
        }
    }
}

/// Every scale shows either individual entities or aggregates, never both.
pub proof fn lemma_entities_and_aggregates_partition(scale: WorldScale)
    ensures
        (scale == WorldScale::Micro) != (scale == WorldScale::Meso || scale == WorldScale::Macro),
{
}

} // verus!
