//! Phase script of the ninety-second cinematic: four acts (the room, the
//! planet, the solar system, closing) played in a fixed order, each phase for
//! a whole number of seconds. Camera moves, fades and narration that play
//! within a phase are the renderer's.
use vstd::prelude::*;

verus! {

#[derive(Debug, Clone, Copy, PartialEq, Eq, Structural)]
pub enum CinematicPhase {
    FadeIn,
    Explore,
    Leviathan,
    Dimension,
    Calm,
    FadeToGlobe,
    GlobeHolo,
    SplitScreen,
    Timeline,
    Satellites,
    Night,
    PullOut,
    FlyToMars,
    FlyToJupiter,
    SaturnRings,
    ReturnEarth,
    FadeToRoom,
    Dungeon3D,
    FinalFade,
    Done,
}

/// Position of a phase in the script, from 0 (`FadeIn`) to 19 (`Done`).
pub open spec fn phase_position(p: CinematicPhase) -> nat {
    match p {
        CinematicPhase::FadeIn => 0,
        CinematicPhase::Explore => 1,
        CinematicPhase::Leviathan => 2,
        CinematicPhase::Dimension => 3,
        CinematicPhase::Calm => 4,
        CinematicPhase::FadeToGlobe => 5,
        CinematicPhase::GlobeHolo => 6,
        CinematicPhase::SplitScreen => 7,
        CinematicPhase::Timeline => 8,
        CinematicPhase::Satellites => 9,
        CinematicPhase::Night => 10,
        CinematicPhase::PullOut => 11,
        CinematicPhase::FlyToMars => 12,
        CinematicPhase::FlyToJupiter => 13,
        CinematicPhase::SaturnRings => 14,
        CinematicPhase::ReturnEarth => 15,
        CinematicPhase::FadeToRoom => 16,
        CinematicPhase::Dungeon3D => 17,
        CinematicPhase::FinalFade => 18,
        CinematicPhase::Done => 19,
    }
}

/// Length of a phase in seconds.
pub open spec fn phase_duration_secs(p: CinematicPhase) -> nat {
    match p {
        CinematicPhase::FadeIn => 2,
        CinematicPhase::Explore => 8,
        CinematicPhase::Leviathan => 4,
        CinematicPhase::Dimension => 6,
        CinematicPhase::Calm => 2,
        CinematicPhase::FadeToGlobe => 2,
        CinematicPhase::GlobeHolo => 8,
        CinematicPhase::SplitScreen => 4,
        CinematicPhase::Timeline => 6,
        CinematicPhase::Satellites => 6,
        CinematicPhase::Night => 4,
        CinematicPhase::PullOut => 4,
        CinematicPhase::FlyToMars => 6,
        CinematicPhase::FlyToJupiter => 6,
        CinematicPhase::SaturnRings => 6,
        CinematicPhase::ReturnEarth => 4,
        CinematicPhase::FadeToRoom => 2,
        CinematicPhase::Dungeon3D => 6,
        CinematicPhase::FinalFade => 4,
        CinematicPhase::Done => 0,
    }
}

/// The phase that follows `p`; `Done` follows itself.
pub open spec fn phase_after(p: CinematicPhase) -> CinematicPhase {
    match p {
        CinematicPhase::FadeIn => CinematicPhase::Explore,
        CinematicPhase::Explore => CinematicPhase::Leviathan,
        CinematicPhase::Leviathan => CinematicPhase::Dimension,
        CinematicPhase::Dimension => CinematicPhase::Calm,
        CinematicPhase::Calm => CinematicPhase::FadeToGlobe,
        CinematicPhase::FadeToGlobe => CinematicPhase::GlobeHolo,
        CinematicPhase::GlobeHolo => CinematicPhase::SplitScreen,
        CinematicPhase::SplitScreen => CinematicPhase::Timeline,
        CinematicPhase::Timeline => CinematicPhase::Satellites,
        CinematicPhase::Satellites => CinematicPhase::Night,
        CinematicPhase::Night => CinematicPhase::PullOut,
        CinematicPhase::PullOut => CinematicPhase::FlyToMars,
        CinematicPhase::FlyToMars => CinematicPhase::FlyToJupiter,
        CinematicPhase::FlyToJupiter => CinematicPhase::SaturnRings,
        CinematicPhase::SaturnRings => CinematicPhase::ReturnEarth,
        CinematicPhase::ReturnEarth => CinematicPhase::FadeToRoom,
        CinematicPhase::FadeToRoom => CinematicPhase::Dungeon3D,
        CinematicPhase::Dungeon3D => CinematicPhase::FinalFade,
        CinematicPhase::FinalFade => CinematicPhase::Done,
        CinematicPhase::Done => CinematicPhase::Done,
    }
}

/// Seconds from the start of `p` to the end of the script.
pub open spec fn remaining_secs(p: CinematicPhase) -> nat
    decreases 19 - phase_position(p),
{
    if p == CinematicPhase::Done {
        0
    } else {
        phase_duration_secs(p) + remaining_secs(phase_after(p))
    }
}

impl CinematicPhase {
    /// Length of this phase in whole seconds.
    pub fn duration_secs(&self) -> (r: u32)
        ensures
            r == phase_duration_secs(*self),
    {
        match self {
            CinematicPhase::FadeIn => 2,
            CinematicPhase::Explore => 8,
            CinematicPhase::Leviathan => 4,
            CinematicPhase::Dimension => 6,
            CinematicPhase::Calm => 2,
            CinematicPhase::FadeToGlobe => 2,
            CinematicPhase::GlobeHolo => 8,
            CinematicPhase::SplitScreen => 4,
            CinematicPhase::Timeline => 6,
            CinematicPhase::Satellites => 6,
            CinematicPhase::Night => 4,
            CinematicPhase::PullOut => 4,
            CinematicPhase::FlyToMars => 6,
            CinematicPhase::FlyToJupiter => 6,
            CinematicPhase::SaturnRings => 6,
            CinematicPhase::ReturnEarth => 4,
            CinematicPhase::FadeToRoom => 2,
            CinematicPhase::Dungeon3D => 6,
            CinematicPhase::FinalFade => 4,
            CinematicPhase::Done => 0,
        }
    }

    pub fn next(&self) -> (r: Self)
        ensures
            r == phase_after(*self),
    {
        match self {
            CinematicPhase::FadeIn => CinematicPhase::Explore,
            CinematicPhase::Explore => CinematicPhase::Leviathan,
            CinematicPhase::Leviathan => CinematicPhase::Dimension,
            CinematicPhase::Dimension => CinematicPhase::Calm,
            CinematicPhase::Calm => CinematicPhase::FadeToGlobe,
            CinematicPhase::FadeToGlobe => CinematicPhase::GlobeHolo,
            CinematicPhase::GlobeHolo => CinematicPhase::SplitScreen,
            CinematicPhase::SplitScreen => CinematicPhase::Timeline,
            CinematicPhase::Timeline => CinematicPhase::Satellites,
            CinematicPhase::Satellites => CinematicPhase::Night,
            CinematicPhase::Night => CinematicPhase::PullOut,
            CinematicPhase::PullOut => CinematicPhase::FlyToMars,
            CinematicPhase::FlyToMars => CinematicPhase::FlyToJupiter,
            CinematicPhase::FlyToJupiter => CinematicPhase::SaturnRings,
            CinematicPhase::SaturnRings => CinematicPhase::ReturnEarth,
            CinematicPhase::ReturnEarth => CinematicPhase::FadeToRoom,
            CinematicPhase::FadeToRoom => CinematicPhase::Dungeon3D,
            CinematicPhase::Dungeon3D => CinematicPhase::FinalFade,
            CinematicPhase::FinalFade => CinematicPhase::Done,
            CinematicPhase::Done => CinematicPhase::Done,
        }
    }

    /// Whether this phase shows the globe: acts two and three from the
    /// holographic globe through the return to Earth.
    pub fn is_globe(&self) -> (r: bool)
        ensures
            r == (6 <= phase_position(*self) <= 15),
    {
        match self {
            CinematicPhase::GlobeHolo | CinematicPhase::SplitScreen | CinematicPhase::Timeline
            | CinematicPhase::Satellites | CinematicPhase::Night | CinematicPhase::PullOut
            | CinematicPhase::FlyToMars | CinematicPhase::FlyToJupiter | CinematicPhase::SaturnRings
            | CinematicPhase::ReturnEarth => true,
            _ => false,
        }
    }
}

/// Every phase but `Done` is followed by the next phase of the script, and
/// `Done` is final.
pub proof fn lemma_phases_advance_in_order(p: CinematicPhase)
    ensures
        p != CinematicPhase::Done ==> phase_position(phase_after(p)) == phase_position(p) + 1,
        p == CinematicPhase::Done ==> phase_after(p) == CinematicPhase::Done,
{
}

/// Played from its first phase, the script lasts ninety seconds: the room
/// for twenty-two, the planet for thirty, the solar system for twenty-six
/// and the closing for twelve.
pub proof fn lemma_script_lasts_ninety_seconds()
    ensures
        remaining_secs(CinematicPhase::FadeIn) == 90,
        remaining_secs(CinematicPhase::FadeToGlobe) == 68,
        remaining_secs(CinematicPhase::PullOut) == 38,
        remaining_secs(CinematicPhase::FadeToRoom) == 12,
{
    reveal_with_fuel(remaining_secs, 20);
}

} // verus!
