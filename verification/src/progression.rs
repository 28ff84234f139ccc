//! Levels and reputation: what an amount of experience and a kind of
//! interaction are worth.

use vstd::prelude::*;
use crate::limits::EXPERIENCE_PER_LEVEL;
use crate::limits::VERIFIED_INTERACTION_BONUS;
use crate::model::level_for;
use crate::types::InteractionCounter;
use crate::types::InteractionType;

verus! {

/// The level that belongs to an amount of experience.
pub fn level_of(experience: u64) -> (level: u64)
    ensures
        level == level_for(experience as nat),
        level >= 1,
{
    experience / EXPERIENCE_PER_LEVEL + 1
}

/// Reputation that one interaction of a kind earns, before any bonus.
pub fn base_reputation_of(interaction_type: InteractionType) -> (reputation: u64)
    ensures
        reputation == interaction_type.base_reputation(),
{
    match interaction_type {
        InteractionType::ResearchQuery => 3,
        InteractionType::DataAnalysis => 5,
        InteractionType::Conversation => 1,
        InteractionType::ProblemSolving => 4,
    }
}

/// Reputation that one interaction of a kind earns on a record whose identity
/// is verified or not.
pub fn reputation_gain_of(interaction_type: InteractionType, verified: bool) -> (gain: u64)
    ensures
        gain == interaction_type.reputation_gain(verified),
        1 <= gain <= 6,
{
    let base = base_reputation_of(interaction_type);
    if verified {
        base + VERIFIED_INTERACTION_BONUS
    } else {
        base
    }
}

/// The counter that one interaction of a kind adds to.
pub fn counter_of(interaction_type: InteractionType) -> (counter: InteractionCounter)
    ensures
        counter == interaction_type.counter(),
{
    match interaction_type {
        InteractionType::ResearchQuery => InteractionCounter::ResearchProjects,
        InteractionType::DataAnalysis => InteractionCounter::DataSourcesConnected,
        InteractionType::Conversation => InteractionCounter::AiConversations,
        InteractionType::ProblemSolving => InteractionCounter::ResearchProjects,
    }
}

} // verus!
