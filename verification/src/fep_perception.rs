//! Observer-local perception inputs for the launcher FEP agent, in basis points.
//!
//! This state does not own world truth. It stores bounded observations with an
//! adapter-local generation, confidence and staleness horizon; forgetting or
//! uncertainty here can change an agent's behavior but not the world.
use vstd::prelude::*;

verus! {

pub const FULL_SCALE_BPS: u16 = 10_000;

pub const NEUTRAL_INFRASTRUCTURE_PRIOR_BPS: u16 = 5_000;

pub const NO_LOCAL_DANGER_CUE_BPS: u16 = 0;

/// One quantized observation: value and confidence in basis points, the
/// generation it was made in, and the last generation at which it is fresh.
#[derive(Debug, Clone, Copy, PartialEq, Eq, Structural)]
pub struct PerceivedScalar {
    pub value_bps: u16,
    pub confidence_bps: u16,
    pub observed_generation: u64,
    pub stale_after_generation: u64,
}

/// Confidence-weighted blend of an observation with a prior, in basis points.
pub open spec fn blended_bps(value_bps: u16, confidence_bps: u16, prior_bps: u16) -> int {
    (value_bps * confidence_bps + prior_bps * (FULL_SCALE_BPS - confidence_bps)) / (
    FULL_SCALE_BPS as int)
}

impl PerceivedScalar {
    /// An observation made at `generation` that stays fresh for
    /// `lifetime_generations` more generations (saturating).
    pub fn with_bps(value_bps: u16, confidence_bps: u16, generation: u64, lifetime_generations: u64) -> (r:
        Self)
        ensures
            r.value_bps == value_bps,
            r.confidence_bps == confidence_bps,
            r.observed_generation == generation,
            r.stale_after_generation == (if generation + lifetime_generations > u64::MAX {
                u64::MAX as int
            } else {
                generation + lifetime_generations
            }),
    {
        PerceivedScalar {
            value_bps,
            confidence_bps,
            observed_generation: generation,
            stale_after_generation: generation.saturating_add(lifetime_generations),
        }
    }

    pub fn is_stale(self, generation: u64) -> (r: bool)
        ensures
            r == (generation > self.stale_after_generation),
    {
        generation > self.stale_after_generation
    }

    /// Blend a still-fresh observation with an explicit prior according to
    /// confidence; a stale observation contributes nothing and yields the prior.
    pub fn effective_bps(self, generation: u64, prior_bps: u16) -> (r: u16)
        requires
            self.confidence_bps <= FULL_SCALE_BPS,
        ensures
            generation > self.stale_after_generation ==> r == prior_bps,
            generation <= self.stale_after_generation ==> r == blended_bps(
                self.value_bps,
                self.confidence_bps,
                prior_bps,
            ),
    {
        if self.is_stale(generation) {
            return prior_bps;
        }
        let confidence = self.confidence_bps as u32;
        let inverse = FULL_SCALE_BPS as u32 - confidence;
        let value = self.value_bps as u32;
        let prior = prior_bps as u32;
        assert(value * confidence <= 65535 * 10000) by (nonlinear_arith)
            requires
                value <= 65535,
                confidence <= 10000,
        ;
        assert(prior * inverse <= 65535 * 10000) by (nonlinear_arith)
            requires
                prior <= 65535,
                inverse <= 10000,
        ;
        let blended = (value * confidence + prior * inverse) / (FULL_SCALE_BPS as u32);
        assert(blended <= 65535) by (nonlinear_arith)
            requires
                blended == (value * confidence + prior * inverse) / 10000,
                value <= 65535,
                prior <= 65535,
                confidence + inverse == 10000,
        ;
        blended as u16
    }
}

/// Observer-local state: an adapter-local generation (not a simulation tick)
/// and the latest danger, water and power cues.
#[derive(Debug, Clone, PartialEq, Eq, Default)]
pub struct PerceivedWorldFrame {
    pub generation: u64,
    pub local_danger_cue: Option<PerceivedScalar>,
    pub local_water: Option<PerceivedScalar>,
    pub local_power: Option<PerceivedScalar>,
}

impl PerceivedWorldFrame {
    /// Moves to the next generation (saturating) and returns it; the cues stay.
    pub fn advance(&mut self) -> (r: u64)
        ensures
            final(self).generation == (if old(self).generation == u64::MAX {
                u64::MAX as int
            } else {
                old(self).generation + 1
            }),
            r == final(self).generation,
            final(self).local_danger_cue == old(self).local_danger_cue,
            final(self).local_water == old(self).local_water,
            final(self).local_power == old(self).local_power,
    {
        self.generation = self.generation.saturating_add(1);
        self.generation
    }

    /// Records a danger cue observed now that stays fresh for `lifetime` generations.
    pub fn observe_danger_bps(&mut self, value_bps: u16, confidence_bps: u16, lifetime: u64)
        ensures
            final(self).local_danger_cue == Some(
                fresh_observation(value_bps, confidence_bps, old(self).generation, lifetime),
            ),
            final(self).generation == old(self).generation,
            final(self).local_water == old(self).local_water,
            final(self).local_power == old(self).local_power,
    {
        self.local_danger_cue = Some(
            PerceivedScalar::with_bps(value_bps, confidence_bps, self.generation, lifetime),
        );
    }

    /// Records a water cue observed now that stays fresh for `lifetime` generations.
    pub fn observe_water_bps(&mut self, value_bps: u16, confidence_bps: u16, lifetime: u64)
        ensures
            final(self).local_water == Some(
                fresh_observation(value_bps, confidence_bps, old(self).generation, lifetime),
            ),
            final(self).generation == old(self).generation,
            final(self).local_danger_cue == old(self).local_danger_cue,
            final(self).local_power == old(self).local_power,
    {
        self.local_water = Some(
            PerceivedScalar::with_bps(value_bps, confidence_bps, self.generation, lifetime),
        );
    }

    /// Records a power cue observed now that stays fresh for `lifetime` generations.
    pub fn observe_power_bps(&mut self, value_bps: u16, confidence_bps: u16, lifetime: u64)
        ensures
            final(self).local_power == Some(
                fresh_observation(value_bps, confidence_bps, old(self).generation, lifetime),
            ),
            final(self).generation == old(self).generation,
            final(self).local_danger_cue == old(self).local_danger_cue,
            final(self).local_water == old(self).local_water,
    {
        self.local_power = Some(
            PerceivedScalar::with_bps(value_bps, confidence_bps, self.generation, lifetime),
        );
    }

    /// Strength of the local danger cue in basis points. Zero means no current
    /// local cue; it does not mean that the hidden global threat is known to be absent.
    pub fn danger_signal_bps(&self) -> (r: u16)
        requires
            self.local_danger_cue matches Some(o) ==> o.confidence_bps <= FULL_SCALE_BPS,
        ensures
            r == estimate_bps(self.local_danger_cue, self.generation, NO_LOCAL_DANGER_CUE_BPS),
    {
        match self.local_danger_cue {
            Some(observation) => observation.effective_bps(self.generation, NO_LOCAL_DANGER_CUE_BPS),
            None => NO_LOCAL_DANGER_CUE_BPS,
        }
    }

    /// Local water estimate in basis points, the neutral prior when unknown.
    pub fn water_estimate_bps(&self) -> (r: u16)
        requires
            self.local_water matches Some(o) ==> o.confidence_bps <= FULL_SCALE_BPS,
        ensures
            r == estimate_bps(self.local_water, self.generation, NEUTRAL_INFRASTRUCTURE_PRIOR_BPS),
    {
        match self.local_water {
            Some(observation) => observation.effective_bps(
                self.generation,
                NEUTRAL_INFRASTRUCTURE_PRIOR_BPS,
            ),
            None => NEUTRAL_INFRASTRUCTURE_PRIOR_BPS,
        }
    }

    /// Local power estimate in basis points, the neutral prior when unknown.
    pub fn power_estimate_bps(&self) -> (r: u16)
        requires
            self.local_power matches Some(o) ==> o.confidence_bps <= FULL_SCALE_BPS,
        ensures
            r == estimate_bps(self.local_power, self.generation, NEUTRAL_INFRASTRUCTURE_PRIOR_BPS),
    {
        match self.local_power {
            Some(observation) => observation.effective_bps(
                self.generation,
                NEUTRAL_INFRASTRUCTURE_PRIOR_BPS,
            ),
            None => NEUTRAL_INFRASTRUCTURE_PRIOR_BPS,
        }
    }
}

/// An observation made at `generation` that stays fresh for `lifetime` more
/// generations, saturating.
pub open spec fn fresh_observation(
    value_bps: u16,
    confidence_bps: u16,
    generation: u64,
    lifetime: u64,
) -> PerceivedScalar {
    PerceivedScalar {
        value_bps,
        confidence_bps,
        observed_generation: generation,
        stale_after_generation: (if generation + lifetime > u64::MAX {
            u64::MAX as int
        } else {
            generation + lifetime
        }) as u64,
    }
}

/// What a cue contributes at `generation`: the prior when there is none or it
/// is stale, otherwise its confidence-weighted blend with the prior.
pub open spec fn estimate_bps(cue: Option<PerceivedScalar>, generation: u64, prior_bps: u16) -> int {
    match cue {
        None => prior_bps as int,
        Some(o) => if generation > o.stale_after_generation {
            prior_bps as int
        } else {
            blended_bps(o.value_bps, o.confidence_bps, prior_bps)
        },
    }
}

/// Signal strength `value × confidence`, in basis points (truncated to `u16`).
pub fn attenuated_signal_bps(value_bps: u16, confidence_bps: u16) -> (r: u16)
    ensures
        r == ((value_bps * confidence_bps) / (FULL_SCALE_BPS as int)) as u16,
        value_bps <= FULL_SCALE_BPS && confidence_bps <= FULL_SCALE_BPS ==> r <= value_bps && r
            <= confidence_bps,
{
    assert((value_bps as u32) * (confidence_bps as u32) <= 65535 * 65535) by (nonlinear_arith)
        requires
            value_bps <= 65535,
            confidence_bps <= 65535,
    ;
    let product = (value_bps as u32) * (confidence_bps as u32);
    let r = #[verifier::truncate] ((product / (FULL_SCALE_BPS as u32)) as u16);
    proof {
        if value_bps <= FULL_SCALE_BPS && confidence_bps <= FULL_SCALE_BPS {
            let v = value_bps as int;
            let c = confidence_bps as int;
            assert(v * c / 10000 <= v && v * c / 10000 <= c) by (nonlinear_arith)
                requires
                    0 <= v <= 10000,
                    0 <= c <= 10000,
            ;
        }
    }
    r
}

/// Ranking key of a candidate: attenuated signal, then confidence, then value
/// (or salience), compared lexicographically.
pub open spec fn candidate_rank(value_bps: u16, confidence_bps: u16) -> (int, int, int) {
    (
        ((value_bps * confidence_bps) / (FULL_SCALE_BPS as int)) as u16 as int,
        confidence_bps as int,
        value_bps as int,
    )
}

/// `a` ranks strictly above `b`.
pub open spec fn rank_above(a: (int, int, int), b: (int, int, int)) -> bool {
    a.0 > b.0 || (a.0 == b.0 && (a.1 > b.1 || (a.1 == b.1 && a.2 > b.2)))
}

/// A local scalar sample that is within range, as (value, confidence) in
/// basis points; confidence falls linearly with distance.
pub open spec fn sample_eligible(c: (u16, u16)) -> bool {
    c.1 != 0
}

/// `best` is the strongest eligible sample among `candidates`, or `None` when
/// none is eligible.
pub open spec fn is_strongest_sample(candidates: Seq<(u16, u16)>, best: Option<(u16, u16)>) -> bool {
    match best {
        None => forall|i: int| 0 <= i < candidates.len() ==> !sample_eligible(#[trigger] candidates[i]),
        Some(b) => {
            &&& sample_eligible(b)
            &&& candidates.contains(b)
            &&& forall|i: int|
                0 <= i < candidates.len() && sample_eligible(#[trigger] candidates[i]) ==> !rank_above(
                    candidate_rank(candidates[i].0, candidates[i].1),
                    candidate_rank(b.0, b.1),
                )
        },
    }
}

/// The strongest distance-attenuated local sample among in-range candidates,
/// given as (value, confidence) in basis points. Zero-confidence boundary
/// samples are not observations. Candidates are ranked by attenuated signal,
/// then confidence, then value, so a nearby silent sample cannot mask a
/// farther strong one.
pub fn strongest_local_sample_bps(candidates: &[(u16, u16)]) -> (best: Option<(u16, u16)>)
    ensures
        is_strongest_sample(candidates@, best),
{
    let mut best: Option<(u16, u16)> = None;
    let mut i: usize = 0;
    while i < candidates.len()
        invariant
            i <= candidates@.len(),
            is_strongest_sample(candidates@.subrange(0, i as int), best),
        decreases candidates@.len() - i,
    {
        let ghost prefix = candidates@.subrange(0, i as int);
        let ghost next = candidates@.subrange(0, i + 1);
        assert(next =~= prefix.push(candidates@[i as int]));
        let candidate = candidates[i];
        if candidate.1 != 0 {
            let replace = match best {
                None => true,
                Some(current) => {
                    let signal = attenuated_signal_bps(candidate.0, candidate.1);
                    let current_signal = attenuated_signal_bps(current.0, current.1);
                    signal > current_signal || (signal == current_signal && (candidate.1 > current.1
                        || (candidate.1 == current.1 && candidate.0 > current.0)))
                },
            };
            if replace {
                best = Some(candidate);
                proof {
                    assert(next[i as int] == candidate);
                    assert forall|j: int| 0 <= j < next.len() && sample_eligible(#[trigger] next[j]) implies !rank_above(
                        candidate_rank(next[j].0, next[j].1),
                        candidate_rank(candidate.0, candidate.1),
                    ) by {
                        if j < i {
                            assert(next[j] == prefix[j]);
                        }
                    }
                }
            } else {
                proof {
                    let b = best->Some_0;
                    assert(prefix.contains(b));
                    let k = choose|k: int| 0 <= k < prefix.len() && prefix[k] == b;
                    assert(next[k] == b);
                    assert forall|j: int| 0 <= j < next.len() && sample_eligible(#[trigger] next[j]) implies !rank_above(
                        candidate_rank(next[j].0, next[j].1),
                        candidate_rank(b.0, b.1),
                    ) by {
                        if j < i {
                            assert(next[j] == prefix[j]);
                        }
                    }
                }
            }
        } else {
            proof {
                if best is Some {
                    let b = best->Some_0;
                    let k = choose|k: int| 0 <= k < prefix.len() && prefix[k] == b;
                    assert(next[k] == b);
                }
                assert forall|j: int| 0 <= j < next.len() && sample_eligible(#[trigger] next[j]) implies j < i by {}
                assert forall|j: int| 0 <= j < i implies #[trigger] next[j] == prefix[j] by {}
            }
        }
        i = i + 1;
    }
    proof {
        assert(candidates@.subrange(0, candidates@.len() as int) =~= candidates@);
    }
    best
}

/// Two eligible samples that rank alike are the same sample.
proof fn lemma_rank_determines_sample(a: (u16, u16), b: (u16, u16))
    requires
        !rank_above(candidate_rank(a.0, a.1), candidate_rank(b.0, b.1)),
        !rank_above(candidate_rank(b.0, b.1), candidate_rank(a.0, a.1)),
    ensures
        a == b,
{
}

/// Sample selection does not depend on the order of the candidates: any two
/// candidate lists holding the same samples select the same strongest sample.
pub proof fn lemma_strongest_sample_is_order_independent(
    first: Seq<(u16, u16)>,
    second: Seq<(u16, u16)>,
    best_first: Option<(u16, u16)>,
    best_second: Option<(u16, u16)>,
)
    requires
        forall|c: (u16, u16)| first.contains(c) <==> second.contains(c),
        is_strongest_sample(first, best_first),
        is_strongest_sample(second, best_second),
    ensures
        best_first == best_second,
{
    match best_first {
        None => {
            if best_second is Some {
                let b = best_second->Some_0;
                assert(first.contains(b));
                let k = choose|k: int| 0 <= k < first.len() && first[k] == b;
                assert(!sample_eligible(first[k]));
            }
        },
        Some(a) => {
            assert(second.contains(a));
            let ka = choose|k: int| 0 <= k < second.len() && second[k] == a;
            assert(sample_eligible(second[ka]));
            let b = best_second->Some_0;
            assert(first.contains(b));
            let kb = choose|k: int| 0 <= k < first.len() && first[k] == b;
            assert(sample_eligible(first[kb]));
            lemma_rank_determines_sample(a, b);
        },
    }
}

/// One already-presented target cue within range: salience and distance
/// confidence in basis points, and the total-order keys of its coordinates
/// (ordered as the IEEE-754 total order of the `x` and `y` coordinates).
#[derive(Debug, Clone, Copy, PartialEq, Eq, Structural)]
pub struct LocalTargetCandidate {
    pub salience_bps: u16,
    pub confidence_bps: u16,
    pub x_key: i32,
    pub y_key: i32,
}

/// A target cue is actionable when its attenuated signal is non-zero.
pub open spec fn target_actionable(c: LocalTargetCandidate) -> bool {
    candidate_rank(c.salience_bps, c.confidence_bps).0 != 0
}

/// `a` is preferred over `b`: a higher rank, or an equal rank and coordinates
/// that come first (`x`, then `y`).
pub open spec fn target_preferred(a: LocalTargetCandidate, b: LocalTargetCandidate) -> bool {
    let ra = candidate_rank(a.salience_bps, a.confidence_bps);
    let rb = candidate_rank(b.salience_bps, b.confidence_bps);
    rank_above(ra, rb) || (ra == rb && (a.x_key < b.x_key || (a.x_key == b.x_key && a.y_key
        < b.y_key)))
}

/// `best` indexes the preferred actionable target of `candidates`, or is
/// `None` when none is actionable.
pub open spec fn is_strongest_target(candidates: Seq<LocalTargetCandidate>, best: Option<usize>) -> bool {
    match best {
        None => forall|i: int| 0 <= i < candidates.len() ==> !target_actionable(#[trigger] candidates[i]),
        Some(k) => {
            &&& k < candidates.len()
            &&& target_actionable(candidates[k as int])
            &&& forall|i: int|
                0 <= i < candidates.len() && target_actionable(#[trigger] candidates[i])
                    ==> !target_preferred(candidates[i], candidates[k as int])
        },
    }
}

/// The observer-local actionable target among in-range cues: the highest
/// attenuated signal, then confidence, then salience, ties broken by
/// coordinate order rather than by the order of the list.
pub fn strongest_local_target_index(candidates: &[LocalTargetCandidate]) -> (best: Option<usize>)
    ensures
        is_strongest_target(candidates@, best),
{
    let mut best: Option<usize> = None;
    let mut i: usize = 0;
    while i < candidates.len()
        invariant
            i <= candidates@.len(),
            best matches Some(k) ==> k < i,
            is_strongest_target(candidates@.subrange(0, i as int), best),
        decreases candidates@.len() - i,
    {
        let ghost prefix = candidates@.subrange(0, i as int);
        let ghost next = candidates@.subrange(0, i + 1);
        assert(next =~= prefix.push(candidates@[i as int]));
        let candidate = candidates[i];
        let signal = attenuated_signal_bps(candidate.salience_bps, candidate.confidence_bps);
        if signal != 0 {
            let replace = match best {
                None => true,
                Some(k) => {
                    let current = candidates[k];
                    let current_signal = attenuated_signal_bps(
                        current.salience_bps,
                        current.confidence_bps,
                    );
                    let above = signal > current_signal || (signal == current_signal && (
                    candidate.confidence_bps > current.confidence_bps || (candidate.confidence_bps
                        == current.confidence_bps && candidate.salience_bps
                        > current.salience_bps)));
                    let same_rank = signal == current_signal && candidate.confidence_bps
                        == current.confidence_bps && candidate.salience_bps
                        == current.salience_bps;
                    above || (same_rank && (candidate.x_key < current.x_key || (candidate.x_key
                        == current.x_key && candidate.y_key < current.y_key)))
                },
            };
            if replace {
                proof {
                    assert forall|j: int| 0 <= j < next.len() && target_actionable(#[trigger] next[j]) implies !target_preferred(
                        next[j],
                        next[i as int],
                    ) by {
                        if j < i {
                            assert(next[j] == prefix[j]);
                            if best is Some {
                                let k = best->Some_0 as int;
                                assert(next[k] == prefix[k]);
                            }
                        }
                    }
                }
                best = Some(i);
            } else {
                proof {
                    let k = best->Some_0 as int;
                    assert(next[k] == prefix[k]);
                    assert forall|j: int| 0 <= j < next.len() && target_actionable(#[trigger] next[j]) implies !target_preferred(
                        next[j],
                        next[k],
                    ) by {
                        if j < i {
                            assert(next[j] == prefix[j]);
                        }
                    }
                }
            }
        } else {
            proof {
                if best is Some {
                    let k = best->Some_0 as int;
                    assert(next[k] == prefix[k]);
                }
                assert forall|j: int| 0 <= j < i implies #[trigger] next[j] == prefix[j] by {}
            }
        }
        i = i + 1;
    }
    proof {
        assert(candidates@.subrange(0, candidates@.len() as int) =~= candidates@);
    }
    best
}

/// Target selection does not depend on the order of the cues: any two cue
/// lists holding the same cues select the same target.
pub proof fn lemma_strongest_target_is_order_independent(
    first: Seq<LocalTargetCandidate>,
    second: Seq<LocalTargetCandidate>,
    best_first: Option<usize>,
    best_second: Option<usize>,
)
    requires
        forall|c: LocalTargetCandidate| first.contains(c) <==> second.contains(c),
        is_strongest_target(first, best_first),
        is_strongest_target(second, best_second),
    ensures
        best_first is None <==> best_second is None,
        best_first matches Some(a) ==> best_second matches Some(b) && first[a as int] == second[b as int],
{
    match best_first {
        None => {
            if best_second is Some {
                let b = second[best_second->Some_0 as int];
                assert(second.contains(b));
                assert(first.contains(b));
                let k = choose|k: int| 0 <= k < first.len() && first[k] == b;
                assert(!target_actionable(first[k]));
            }
        },
        Some(ia) => {
            let a = first[ia as int];
            assert(first.contains(a));
            assert(second.contains(a));
            let ka = choose|k: int| 0 <= k < second.len() && second[k] == a;
            assert(target_actionable(second[ka]));
            let ib = best_second->Some_0;
            let b = second[ib as int];
            assert(second.contains(b));
            assert(first.contains(b));
            let kb = choose|k: int| 0 <= k < first.len() && first[k] == b;
            assert(target_actionable(first[kb]));
            assert(!target_preferred(a, b));
            assert(!target_preferred(b, a));
        },
    }
}

/// A blend weighs the observation by its confidence: full confidence gives the
/// observed value, no confidence the prior, and any confidence in between a
/// value between the two.
pub proof fn lemma_blend_weighs_by_confidence(value_bps: u16, confidence_bps: u16, prior_bps: u16)
    requires
        confidence_bps <= FULL_SCALE_BPS,
    ensures
        confidence_bps == FULL_SCALE_BPS ==> blended_bps(value_bps, confidence_bps, prior_bps)
            == value_bps,
        confidence_bps == 0 ==> blended_bps(value_bps, confidence_bps, prior_bps) == prior_bps,
        value_bps <= prior_bps ==> value_bps <= blended_bps(value_bps, confidence_bps, prior_bps)
            <= prior_bps,
        prior_bps <= value_bps ==> prior_bps <= blended_bps(value_bps, confidence_bps, prior_bps)
            <= value_bps,
{
    let v = value_bps as int;
    let c = confidence_bps as int;
    let p = prior_bps as int;
    assert(v <= p ==> v <= (v * c + p * (10000 - c)) / 10000 <= p) by (nonlinear_arith)
        requires
            0 <= c <= 10000,
            0 <= v,
            0 <= p,
    ;
    assert(p <= v ==> p <= (v * c + p * (10000 - c)) / 10000 <= v) by (nonlinear_arith)
        requires
            0 <= c <= 10000,
            0 <= v,
            0 <= p,
    ;
    assert(c == 10000 ==> (v * c + p * (10000 - c)) / 10000 == v) by (nonlinear_arith);
    assert(c == 0 ==> (v * c + p * (10000 - c)) / 10000 == p) by (nonlinear_arith);
}

} // verus!
