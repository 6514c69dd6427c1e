//! Phase script of the thirty-second Sol Atlas demo: opening orbit, zoom in,
//! timeline scrub, aesthetic cycle, zoom out and closing drift, each for a
//! whole number of seconds.
use vstd::prelude::*;

verus! {

#[derive(Debug, Clone, Copy, PartialEq, Eq, Structural)]
pub enum DemoPhase {
    Opening,
    ZoomIn,
    TimelineScrub,
    AestheticCycle,
    ZoomOut,
    Closing,
    Done,
}

/// Position of a phase in the script, from 0 (`Opening`) to 6 (`Done`).
pub open spec fn demo_phase_position(p: DemoPhase) -> nat {
    match p {
        DemoPhase::Opening => 0,
        DemoPhase::ZoomIn => 1,
        DemoPhase::TimelineScrub => 2,
        DemoPhase::AestheticCycle => 3,
        DemoPhase::ZoomOut => 4,
        DemoPhase::Closing => 5,
        DemoPhase::Done => 6,
    }
}

/// Length of a phase in seconds.
pub open spec fn demo_phase_duration_secs(p: DemoPhase) -> nat {
    match p {
        DemoPhase::Opening => 5,
        DemoPhase::ZoomIn => 5,
        DemoPhase::TimelineScrub => 8,
        DemoPhase::AestheticCycle => 4,
        DemoPhase::ZoomOut => 4,
        DemoPhase::Closing => 4,
        DemoPhase::Done => 0,
    }
}

/// The phase that follows `p`; `Done` follows itself.
pub open spec fn demo_phase_after(p: DemoPhase) -> DemoPhase {
    match p {
        DemoPhase::Opening => DemoPhase::ZoomIn,
        DemoPhase::ZoomIn => DemoPhase::TimelineScrub,
        DemoPhase::TimelineScrub => DemoPhase::AestheticCycle,
        DemoPhase::AestheticCycle => DemoPhase::ZoomOut,
        DemoPhase::ZoomOut => DemoPhase::Closing,
        DemoPhase::Closing => DemoPhase::Done,
        DemoPhase::Done => DemoPhase::Done,
    }
}

/// Seconds from the start of `p` to the end of the demo.
pub open spec fn demo_remaining_secs(p: DemoPhase) -> nat
    decreases 6 - demo_phase_position(p),
{
    if p == DemoPhase::Done {
        0
    } else {
        demo_phase_duration_secs(p) + demo_remaining_secs(demo_phase_after(p))
    }
}

impl DemoPhase {
    /// Length of this phase in whole seconds.
    pub fn duration_secs(&self) -> (r: u32)
        ensures
            r == demo_phase_duration_secs(*self),
    {
        match self {
            DemoPhase::Opening => 5,
            DemoPhase::ZoomIn => 5,
            DemoPhase::TimelineScrub => 8,
            DemoPhase::AestheticCycle => 4,
            DemoPhase::ZoomOut => 4,
            DemoPhase::Closing => 4,
            DemoPhase::Done => 0,
        }
    }

    pub fn next(&self) -> (r: Self)
        ensures
            r == demo_phase_after(*self),
    {
        match self {
            DemoPhase::Opening => DemoPhase::ZoomIn,
            DemoPhase::ZoomIn => DemoPhase::TimelineScrub,
            DemoPhase::TimelineScrub => DemoPhase::AestheticCycle,
            DemoPhase::AestheticCycle => DemoPhase::ZoomOut,
            DemoPhase::ZoomOut => DemoPhase::Closing,
            DemoPhase::Closing => DemoPhase::Done,
            DemoPhase::Done => DemoPhase::Done,
        }
    }
}

/// Played from its opening, the demo lasts thirty seconds, the timeline
/// scrub starting at ten and the closing drift at twenty-six.
pub proof fn lemma_demo_lasts_thirty_seconds()
    ensures
        demo_remaining_secs(DemoPhase::Opening) == 30,
        demo_remaining_secs(DemoPhase::TimelineScrub) == 20,
        demo_remaining_secs(DemoPhase::Closing) == 4,
{
    reveal_with_fuel(demo_remaining_secs, 7);
}

/// Every phase but `Done` is followed by the next phase of the demo, and
/// `Done` is final.
pub proof fn lemma_demo_phases_advance_in_order(p: DemoPhase)
    ensures
        p != DemoPhase::Done ==> demo_phase_position(demo_phase_after(p)) == demo_phase_position(p)
            + 1,
        p == DemoPhase::Done ==> demo_phase_after(p) == DemoPhase::Done,
{
}

} // verus!
