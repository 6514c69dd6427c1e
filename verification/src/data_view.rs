//! Data-view presets of the planetary atlas, cycled in a fixed order. Which
//! atlas layers each preset shows belongs to the atlas crate.
use vstd::prelude::*;

verus! {

#[derive(Debug, Clone, Copy, PartialEq, Eq, Structural)]
pub enum DataView {
    /// No data overlays: just the globe.
    Off,
    All,
    Energy,
    Climate,
    Civilization,
    Infrastructure,
    Interplanetary,
}

/// Position of a view in the cycle, from 0 (`Off`) to 6 (`Interplanetary`).
pub open spec fn view_position(v: DataView) -> int {
    match v {
        DataView::Off => 0,
        DataView::All => 1,
        DataView::Energy => 2,
        DataView::Climate => 3,
        DataView::Civilization => 4,
        DataView::Infrastructure => 5,
        DataView::Interplanetary => 6,
    }
}

impl Default for DataView {
    fn default() -> (r: Self)
        ensures
            r == DataView::Off,
    {
        DataView::Off
    }
}

impl DataView {
    pub fn label(&self) -> (r: &'static str)
        ensures
            r == (match *self {
                DataView::Off => "OVERLAYS OFF",
                DataView::All => "ALL DATA",
                DataView::Energy => "ENERGY",
                DataView::Climate => "CLIMATE",
                DataView::Civilization => "CIVILIZATION",
                DataView::Infrastructure => "INFRASTRUCTURE",
                DataView::Interplanetary => "INTERPLANETARY",
            }),
    {
        match self {
            DataView::Off => "OVERLAYS OFF",
            DataView::All => "ALL DATA",
            DataView::Energy => "ENERGY",
            DataView::Climate => "CLIMATE",
            DataView::Civilization => "CIVILIZATION",
            DataView::Infrastructure => "INFRASTRUCTURE",
            DataView::Interplanetary => "INTERPLANETARY",
        }
    }

    /// The next view of the cycle: each view in turn, then back to `Off`.
    pub fn next(&self) -> (r: Self)
        ensures
            view_position(r) == (view_position(*self) + 1) % 7,
    {
        match self {
            DataView::Off => DataView::All,
            DataView::All => DataView::Energy,
            DataView::Energy => DataView::Climate,
            DataView::Climate => DataView::Civilization,
            DataView::Civilization => DataView::Infrastructure,
            DataView::Infrastructure => DataView::Interplanetary,
            DataView::Interplanetary => DataView::Off,
        }
    }
}

/// A view's position determines it: `next` is a true cycle through all
/// seven presets.
pub proof fn lemma_view_position_injective(a: DataView, b: DataView)
    requires
        view_position(a) == view_position(b),
    ensures
        a == b,
{
}

} // verus!
