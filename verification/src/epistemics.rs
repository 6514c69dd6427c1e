//! Epistemic levels of scavenged items and the player's aggregate level.
//!
//! Items carry a level from E0 (unverifiable) to E4 (cryptographically
//! verifiable). Scavenging, NPC confirmation and federated-learning
//! contribution advance items; coercion degrades every item and caps the
//! player's aggregate level at E1 while it is active. The flashlight radius,
//! timers and logging that surround these decisions are the game loop's.
use vstd::prelude::*;

verus! {

/// Highest epistemic level.
pub const MAX_EPISTEMIC_LEVEL: u8 = 4;

/// One level down, saturating at E0.
pub open spec fn level_below(level: u8) -> u8 {
    if level == 0 {
        0
    } else {
        (level - 1) as u8
    }
}

/// One level up, saturating at E4.
pub open spec fn level_above(level: u8) -> u8 {
    if level < MAX_EPISTEMIC_LEVEL {
        (level + 1) as u8
    } else {
        level
    }
}

/// Epistemic tag on a scavenged item: E0=Unverifiable, E1=Anecdotal,
/// E2=Observable, E3=Measurable, E4=CryptographicallyVerifiable.
#[derive(Debug, Clone, Copy, PartialEq, Eq, Structural)]
pub struct EpistemicTag(pub u8);

impl Default for EpistemicTag {
    fn default() -> (r: Self)
        ensures
            r == EpistemicTag(0),
    {
        EpistemicTag(0)
    }
}

impl EpistemicTag {
    pub fn label(&self) -> (r: &'static str)
        ensures
            r == (if self.0 == 0 {
                "E0:Unverifiable"
            } else if self.0 == 1 {
                "E1:Anecdotal"
            } else if self.0 == 2 {
                "E2:Observable"
            } else if self.0 == 3 {
                "E3:Measurable"
            } else {
                "E4:Verified"
            }),
    {
        match self.0 {
            0 => "E0:Unverifiable",
            1 => "E1:Anecdotal",
            2 => "E2:Observable",
            3 => "E3:Measurable",
            _ => "E4:Verified",
        }
    }

    pub fn level(&self) -> (r: u8)
        ensures
            r == self.0,
    {
        self.0
    }

    /// One level down, saturating at E0.
    pub fn degrade(&mut self)
        ensures
            final(self).0 == level_below(old(self).0),
    {
        self.0 = self.0.saturating_sub(1);
    }

    /// One level up, saturating at E4.
    pub fn advance(&mut self)
        ensures
            final(self).0 == level_above(old(self).0),
    {
        if self.0 < MAX_EPISTEMIC_LEVEL {
            self.0 = self.0 + 1;
        }
    }
}

/// The level an item reaches in one advancement round: scavenging alone makes
/// it E1; at least two confirming NPCs take E1 to E2; at least three take E2
/// to E3; a verified federated-learning contribution takes E3 to E4.
pub open spec fn advanced_level(level: u8, confirming_npcs: usize, fl_contribution_verified: bool) -> u8 {
    if level == 0 {
        1
    } else if level == 1 && confirming_npcs >= 2 {
        2
    } else if level == 2 && confirming_npcs >= 3 {
        3
    } else if level == 3 && fl_contribution_verified {
        4
    } else {
        level
    }
}

/// Number of tags at `level`.
pub open spec fn count_at_level(tags: Seq<EpistemicTag>, level: u8) -> nat
    decreases tags.len(),
{
    if tags.len() == 0 {
        0
    } else {
        count_at_level(tags.drop_last(), level) + (if tags.last().0 == level {
            1nat
        } else {
            0nat
        })
    }
}

/// The highest level with at least two verified items, E0 if none.
pub open spec fn highest_verified_level(counts: Seq<u32>) -> u8 {
    if counts[4] >= 2 {
        4
    } else if counts[3] >= 2 {
        3
    } else if counts[2] >= 2 {
        2
    } else if counts[1] >= 2 {
        1
    } else {
        0
    }
}

/// The aggregate level for the given counts: the highest verified level,
/// capped at E1 while coercion is active.
pub open spec fn aggregate_level(counts: Seq<u32>, coercion_active: bool) -> u8 {
    let level = highest_verified_level(counts);
    if coercion_active && level > 1 {
        1
    } else {
        level
    }
}

/// The player's aggregate epistemic standing.
#[derive(Debug, Clone, PartialEq, Eq)]
pub struct PlayerEpistemicState {
    /// Aggregate level (0-4).
    pub level: u8,
    /// Number of items at each level.
    pub verified_counts: [u32; 5],
    /// Total items scavenged.
    pub total_scavenged: u32,
    /// Whether the coercion penalty is active.
    pub coercion_active: bool,
}

impl Default for PlayerEpistemicState {
    fn default() -> (r: Self)
        ensures
            r.level == 0,
            r.verified_counts@ == seq![0u32, 0u32, 0u32, 0u32, 0u32],
            r.total_scavenged == 0,
            !r.coercion_active,
    {
        PlayerEpistemicState {
            level: 0,
            verified_counts: [0, 0, 0, 0, 0],
            total_scavenged: 0,
            coercion_active: false,
        }
    }
}

proof fn lemma_count_at_level_bound(tags: Seq<EpistemicTag>, level: u8)
    ensures
        count_at_level(tags, level) <= tags.len(),
    decreases tags.len(),
{
    if tags.len() > 0 {
        lemma_count_at_level_bound(tags.drop_last(), level);
    }
}

impl PlayerEpistemicState {
    /// Recompute the aggregate level from the per-level counts.
    pub fn recompute_level(&mut self)
        ensures
            final(self).level == aggregate_level(old(self).verified_counts@, old(self).coercion_active),
            final(self).verified_counts == old(self).verified_counts,
            final(self).total_scavenged == old(self).total_scavenged,
            final(self).coercion_active == old(self).coercion_active,
    {
        let counts = self.verified_counts;
        let highest: u8 = if counts[4] >= 2 {
            4
        } else if counts[3] >= 2 {
            3
        } else if counts[2] >= 2 {
            2
        } else if counts[1] >= 2 {
            1
        } else {
            0
        };
        self.level = if self.coercion_active && highest > 1 {
            1
        } else {
            highest
        };
    }

    /// Recount the items at each level, then recompute the aggregate level.
    pub fn recount(&mut self, tags: &Vec<EpistemicTag>)
        requires
            tags@.len() <= u32::MAX,
        ensures
            forall|l: int| 0 <= l < 5 ==> final(self).verified_counts@[l] == count_at_level(tags@, l as u8),
            final(self).level == aggregate_level(final(self).verified_counts@, old(self).coercion_active),
            final(self).total_scavenged == old(self).total_scavenged,
            final(self).coercion_active == old(self).coercion_active,
    {
        let mut counts: [u32; 5] = [0, 0, 0, 0, 0];
        let mut i: usize = 0;
        while i < tags.len()
            invariant
                i <= tags@.len(),
                tags@.len() <= u32::MAX,
                forall|l: int| 0 <= l < 5 ==> counts@[l] == count_at_level(tags@.subrange(0, i as int), l as u8),
            decreases tags@.len() - i,
        {
            let level = tags[i].level();
            proof {
                assert(tags@.subrange(0, i + 1).drop_last() =~= tags@.subrange(0, i as int));
                assert forall|l: int| 0 <= l < 5 implies #[trigger] count_at_level(tags@.subrange(0, i as int), l as u8) <= i by {
                    lemma_count_at_level_bound(tags@.subrange(0, i as int), l as u8);
                }
            }
            if level < 5 {
                let slot = level as usize;
                counts[slot] = counts[slot] + 1;
            }
            i = i + 1;
        }
        proof {
            assert(tags@.subrange(0, tags@.len() as int) =~= tags@);
        }
        self.verified_counts = counts;
        self.recompute_level();
    }

    /// One advancement round over all items: each item moves to its
    /// `advanced_level`; when any item moved, the counts and the aggregate
    /// level are recomputed. Returns whether any item moved.
    pub fn advance_items(
        &mut self,
        tags: &mut Vec<EpistemicTag>,
        confirming_npcs: usize,
        fl_contribution_verified: bool,
    ) -> (advanced_any: bool)
        requires
            old(tags)@.len() <= u32::MAX,
        ensures
            final(tags)@.len() == old(tags)@.len(),
            forall|i: int|
                0 <= i < old(tags)@.len() ==> (#[trigger] final(tags)@[i]).0 == advanced_level(
                    old(tags)@[i].0,
                    confirming_npcs,
                    fl_contribution_verified,
                ),
            advanced_any == exists|i: int|
                0 <= i < old(tags)@.len() && (#[trigger] final(tags)@[i]).0 != old(tags)@[i].0,
            advanced_any ==> (forall|l: int|
                0 <= l < 5 ==> final(self).verified_counts@[l] == count_at_level(final(tags)@, l as u8))
                && final(self).level == aggregate_level(final(self).verified_counts@, old(self).coercion_active),
            !advanced_any ==> *final(self) == *old(self),
            final(self).total_scavenged == old(self).total_scavenged,
            final(self).coercion_active == old(self).coercion_active,
    {
        let mut advanced_any = false;
        let mut i: usize = 0;
        while i < tags.len()
            invariant
                i <= tags@.len(),
                tags@.len() == old(tags)@.len(),
                forall|j: int|
                    0 <= j < i ==> (#[trigger] tags@[j]).0 == advanced_level(
                        old(tags)@[j].0,
                        confirming_npcs,
                        fl_contribution_verified,
                    ),
                forall|j: int| i <= j < tags@.len() ==> #[trigger] tags@[j] == old(tags)@[j],
                advanced_any == exists|j: int| 0 <= j < i && (#[trigger] tags@[j]).0 != old(tags)@[j].0,
            decreases tags@.len() - i,
        {
            let ghost before = tags@;
            let ghost advanced_before = advanced_any;
            let mut tag = tags[i];
            let current = tag.level();
            let moves = current == 0 || (current == 1 && confirming_npcs >= 2) || (current == 2
                && confirming_npcs >= 3) || (current == 3 && fl_contribution_verified);
            if moves {
                tag.advance();
                advanced_any = true;
            }
            tags.set(i, tag);
            assert(tags@[i as int].0 == advanced_level(old(tags)@[i as int].0, confirming_npcs, fl_contribution_verified));
            proof {
                if moves {
                    assert(tags@[i as int].0 != old(tags)@[i as int].0);
                } else {
                    assert(tags@[i as int].0 == old(tags)@[i as int].0);
                    if advanced_before {
                        let w = choose|j: int| 0 <= j < i && (#[trigger] before[j]).0 != old(tags)@[j].0;
                        assert(tags@[w] == before[w]);
                        assert(tags@[w].0 != old(tags)@[w].0);
                    } else {
                        assert forall|j: int| 0 <= j < i + 1 implies (#[trigger] tags@[j]).0 == old(tags)@[j].0 by {
                            if j < i {
                                assert(tags@[j] == before[j]);
                                assert(!(0 <= j < i && before[j].0 != old(tags)@[j].0));
                            }
                        }
                    }
                }
            }
            i = i + 1;
        }
        if advanced_any {
            self.recount(tags);
        }
        advanced_any
    }

    /// The coercion penalty: every item above E0 degrades one level, the
    /// penalty becomes active, and counts and aggregate level are recomputed.
    /// Returns the number of items that degraded.
    pub fn apply_coercion_penalty(&mut self, tags: &mut Vec<EpistemicTag>) -> (degraded: usize)
        requires
            old(tags)@.len() <= u32::MAX,
        ensures
            final(tags)@.len() == old(tags)@.len(),
            forall|i: int|
                0 <= i < old(tags)@.len() ==> (#[trigger] final(tags)@[i]).0 == level_below(old(tags)@[i].0),
            degraded == old(tags)@.len() - count_at_level(old(tags)@, 0),
            final(self).coercion_active,
            forall|l: int| 0 <= l < 5 ==> final(self).verified_counts@[l] == count_at_level(final(tags)@, l as u8),
            final(self).level == aggregate_level(final(self).verified_counts@, true),
            final(self).level <= 1,
            final(self).total_scavenged == old(self).total_scavenged,
    {
        let mut degraded: usize = 0;
        let mut i: usize = 0;
        while i < tags.len()
            invariant
                i <= tags@.len(),
                tags@.len() == old(tags)@.len(),
                forall|j: int|
                    0 <= j < i ==> (#[trigger] tags@[j]).0 == level_below(old(tags)@[j].0),
                forall|j: int| i <= j < tags@.len() ==> #[trigger] tags@[j] == old(tags)@[j],
                degraded == i - count_at_level(old(tags)@.subrange(0, i as int), 0),
            decreases tags@.len() - i,
        {
            proof {
                assert(old(tags)@.subrange(0, i + 1).drop_last() =~= old(tags)@.subrange(0, i as int));
                lemma_count_at_level_bound(old(tags)@.subrange(0, i as int), 0);
            }
            let mut tag = tags[i];
            if tag.level() > 0 {
                tag.degrade();
                degraded = degraded + 1;
            }
            tags.set(i, tag);
            i = i + 1;
        }
        proof {
            assert(old(tags)@.subrange(0, old(tags)@.len() as int) =~= old(tags)@);
        }
        self.coercion_active = true;
        self.recount(tags);
        degraded
    }
}

/// An advancement round never lowers an item's level, raises it by at most
/// one, and never takes it past E4.
pub proof fn lemma_advancement_is_monotone_and_bounded(
    level: u8,
    confirming_npcs: usize,
    fl_contribution_verified: bool,
)
    requires
        level <= MAX_EPISTEMIC_LEVEL,
    ensures
        level <= advanced_level(level, confirming_npcs, fl_contribution_verified) <= level + 1,
        advanced_level(level, confirming_npcs, fl_contribution_verified) <= MAX_EPISTEMIC_LEVEL,
{
}

/// The aggregate level is at most E4, and at most E1 under coercion.
pub proof fn lemma_aggregate_level_bounds(counts: Seq<u32>, coercion_active: bool)
    ensures
        aggregate_level(counts, coercion_active) <= MAX_EPISTEMIC_LEVEL,
        coercion_active ==> aggregate_level(counts, coercion_active) <= 1,
        aggregate_level(counts, coercion_active) <= highest_verified_level(counts),
{
}

/// Each advancement rule, for every count of confirming NPCs and either
/// federated-learning outcome: an E0 item becomes E1; E1 becomes E2 exactly
/// when at least two NPCs confirm; E2 becomes E3 exactly when at least three
/// confirm; E3 becomes E4 exactly when the contribution is verified; E4 stays.
pub proof fn lemma_advancement_rules(confirming_npcs: usize, fl_contribution_verified: bool)
    ensures
        advanced_level(0, confirming_npcs, fl_contribution_verified) == 1,
        advanced_level(1, confirming_npcs, fl_contribution_verified) == (if confirming_npcs >= 2 {
            2u8
        } else {
            1u8
        }),
        advanced_level(2, confirming_npcs, fl_contribution_verified) == (if confirming_npcs >= 3 {
            3u8
        } else {
            2u8
        }),
        advanced_level(3, confirming_npcs, fl_contribution_verified) == (if fl_contribution_verified {
            4u8
        } else {
            3u8
        }),
        advanced_level(4, confirming_npcs, fl_contribution_verified) == 4,
{
}

/// The highest verified level is the highest level in 0..5 holding at least
/// two items, E0 when none does: it holds two items (unless it is E0) and no
/// higher level does.
pub proof fn lemma_highest_verified_level_is_highest(counts: Seq<u32>)
    requires
        counts.len() == 5,
    ensures
        highest_verified_level(counts) < 5,
        highest_verified_level(counts) == 0 || counts[highest_verified_level(counts) as int] >= 2,
        forall|l: int| highest_verified_level(counts) < l < 5 ==> #[trigger] counts[l] < 2,
        forall|l: int| 0 <= l < 5 && counts[l] >= 2 && (forall|k: int| l < k < 5 ==> counts[k] < 2)
            ==> highest_verified_level(counts) == l,
{
}

/// The aggregate level is the highest verified level, except that coercion
/// caps it at E1.
pub proof fn lemma_aggregate_level_caps_under_coercion(counts: Seq<u32>)
    requires
        counts.len() == 5,
    ensures
        aggregate_level(counts, false) == highest_verified_level(counts),
        aggregate_level(counts, true) == (if highest_verified_level(counts) > 1 {
            1
        } else {
            highest_verified_level(counts)
        }),
{
}

/// Raising and lowering a level by one are inverse below E4 and above E0:
/// each moves a level by exactly one step, and both stop at the ends.
pub proof fn lemma_level_steps(level: u8)
    requires
        level <= MAX_EPISTEMIC_LEVEL,
    ensures
        level < MAX_EPISTEMIC_LEVEL ==> level_above(level) == level + 1 && level_below(
            level_above(level),
        ) == level,
        level > 0 ==> level_below(level) + 1 == level && level_above(level_below(level)) == level,
        level_above(MAX_EPISTEMIC_LEVEL) == MAX_EPISTEMIC_LEVEL,
        level_below(0) == 0,
{
}

/// Counting items level by level accounts for every item when all levels are
/// within E0..E4: the five counts add up to the number of items.
pub proof fn lemma_counts_add_up(tags: Seq<EpistemicTag>)
    requires
        forall|i: int| 0 <= i < tags.len() ==> (#[trigger] tags[i]).0 <= MAX_EPISTEMIC_LEVEL,
    ensures
        count_at_level(tags, 0) + count_at_level(tags, 1) + count_at_level(tags, 2)
            + count_at_level(tags, 3) + count_at_level(tags, 4) == tags.len(),
    decreases tags.len(),
{
    if tags.len() > 0 {
        let rest = tags.drop_last();
        assert forall|i: int| 0 <= i < rest.len() implies (#[trigger] rest[i]).0
            <= MAX_EPISTEMIC_LEVEL by {
            assert(rest[i] == tags[i]);
        }
        lemma_counts_add_up(rest);
        assert(tags.last() == tags[tags.len() - 1]);
    }
}

} // verus!
