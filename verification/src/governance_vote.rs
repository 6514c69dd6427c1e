//! Strategic settlement votes: a question, its options and the selected one.
use vstd::prelude::*;

verus! {

/// One option of a vote.
#[derive(Debug, Clone)]
pub struct VoteOption {
    pub label: String,
    pub description: String,
    pub effect_text: String,
}

/// Active governance vote state.
#[derive(Debug, Clone)]
pub struct GovernanceVote {
    pub is_active: bool,
    pub question: String,
    pub options: Vec<VoteOption>,
    pub selected_index: usize,
}

impl Default for GovernanceVote {
    fn default() -> (r: Self)
        ensures
            !r.is_active,
            r.question@ == Seq::<char>::empty(),
            r.options@.len() == 0,
            r.selected_index == 0,
    {
        GovernanceVote {
            is_active: false,
            question: String::new(),
            options: Vec::new(),
            selected_index: 0,
        }
    }
}

fn vote_option(label: &str, description: &str, effect_text: &str) -> (r: VoteOption)
    ensures
        r.label@ == label@,
        r.description@ == description@,
        r.effect_text@ == effect_text@,
{
    VoteOption {
        label: label.to_owned(),
        description: description.to_owned(),
        effect_text: effect_text.to_owned(),
    }
}

impl GovernanceVote {
    /// The vote on what the settlement becomes after surviving the water
    /// crisis: active, with four options and the first selected.
    pub fn new_water_crisis_vote() -> (r: Self)
        ensures
            r.is_active,
            r.question@ == "What should Seedworks become after surviving the water crisis?"@,
            r.options@.len() == 4,
            r.options@[0].label@ == "Public Repair"@,
            r.options@[0].description@ == "Reinforce shared infrastructure and housing."@,
            r.options@[0].effect_text@ == "Trust rises, repair costs decrease."@,
            r.options@[1].label@ == "Factory Overdrive"@,
            r.options@[1].description@ == "Prioritize fabrication and machine expansion."@,
            r.options@[1].effect_text@ == "Production rises, pollution risk begins."@,
            r.options@[2].label@ == "Perimeter Defense"@,
            r.options@[2].description@ == "Build walls and floodlights."@,
            r.options@[2].effect_text@ == "Safety improves, trust may split."@,
            r.options@[3].label@ == "Archive Recovery"@,
            r.options@[3].description@ == "Investigate the Ghost Civic Center."@,
            r.options@[3].effect_text@ == "Knowledge increases, old systems awaken."@,
            r.selected_index == 0,
    {
        let mut options: Vec<VoteOption> = Vec::new();
        options.push(
            vote_option(
                "Public Repair",
                "Reinforce shared infrastructure and housing.",
                "Trust rises, repair costs decrease.",
            ),
        );
        options.push(
            vote_option(
                "Factory Overdrive",
                "Prioritize fabrication and machine expansion.",
                "Production rises, pollution risk begins.",
            ),
        );
        options.push(
            vote_option(
                "Perimeter Defense",
                "Build walls and floodlights.",
                "Safety improves, trust may split.",
            ),
        );
        options.push(
            vote_option(
                "Archive Recovery",
                "Investigate the Ghost Civic Center.",
                "Knowledge increases, old systems awaken.",
            ),
        );
        GovernanceVote {
            is_active: true,
            question: "What should Seedworks become after surviving the water crisis?".to_owned(),
            options,
            selected_index: 0,
        }
    }
}

} // verus!
