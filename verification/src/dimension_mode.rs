//! Camera dimension presets of the dungeon crawler. The pitch and distance
//! that each preset applies, and the interpolation between them, belong to
//! the camera system.
use vstd::prelude::*;

verus! {

#[derive(Debug, Clone, Copy, PartialEq, Eq, Structural)]
pub enum DimensionMode {
    /// Top-down 2D.
    D2,
    /// Zoomed-out 2.5D preset.
    D2Half,
    /// 3D preset.
    D3,
    /// 4D cross-section preset with the W slider.
    D4,
}

impl Default for DimensionMode {
    fn default() -> (r: Self)
        ensures
            r == DimensionMode::D2,
    {
        DimensionMode::D2
    }
}

impl DimensionMode {
    /// Whether the W slider (4D cross-section) is active: only in 4D.
    pub fn has_w_slider(&self) -> (r: bool)
        ensures
            r == (*self == DimensionMode::D4),
    {
        match self {
            DimensionMode::D4 => true,
            _ => false,
        }
    }

    /// Display name.
    pub fn name(&self) -> (r: &'static str)
        ensures
            r == (match *self {
                DimensionMode::D2 => "2D",
                DimensionMode::D2Half => "2.5D",
                DimensionMode::D3 => "3D",
                DimensionMode::D4 => "4D",
            }),
    {
        match self {
            DimensionMode::D2 => "2D",
            DimensionMode::D2Half => "2.5D",
            DimensionMode::D3 => "3D",
            DimensionMode::D4 => "4D",
        }
    }
}

} // verus!
