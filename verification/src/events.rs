//! The events that the operations hand back. Each describes one change of one
//! record, and names the record by its address.

use vstd::prelude::*;
use crate::key::IdentityKey;
use crate::model::AgentState;
use crate::types::InteractionType;

verus! {

/// A record was created.
#[derive(Clone, Debug, PartialEq, Eq)]
pub struct IncarraAgentCreated {
    pub agent_id: IdentityKey,
    pub owner: IdentityKey,
    pub agent_name: String,
    pub carv_id: String,
}

/// The identity claim of a record was verified.
#[derive(Clone, Debug, PartialEq, Eq)]
pub struct CarvIdVerified {
    pub agent_id: IdentityKey,
    pub carv_id: String,
    pub timestamp: i64,
}

/// A credential was added to a record.
#[derive(Clone, Debug, PartialEq, Eq)]
pub struct CredentialAdded {
    pub agent_id: IdentityKey,
    pub credential_type: String,
    pub issuer: String,
}

/// An achievement was added to a record.
#[derive(Clone, Debug, PartialEq, Eq)]
pub struct AchievementEarned {
    pub agent_id: IdentityKey,
    pub achievement_name: String,
    pub score: u64,
}

/// An interaction was recorded.
#[derive(Clone, Debug, PartialEq, Eq)]
pub struct IncarraInteraction {
    pub agent_id: IdentityKey,
    pub interaction_type: InteractionType,
    pub experience_gained: u64,
    /// The reputation of the record after the interaction.
    pub new_reputation: u64,
    pub timestamp: i64,
}

/// The level of a record rose.
#[derive(Clone, Debug, PartialEq, Eq)]
pub struct IncarraLevelUp {
    pub agent_id: IdentityKey,
    /// The level before the interaction that raised it.
    pub old_level: u64,
    pub new_level: u64,
    pub total_experience: u64,
}

/// A knowledge area was added to a record.
#[derive(Clone, Debug, PartialEq, Eq)]
pub struct KnowledgeAreaAdded {
    pub agent_id: IdentityKey,
    pub knowledge_area: String,
    /// The number of knowledge areas that the record holds now.
    pub total_areas: u64,
}

/// What recording one interaction hands back: always the interaction, and the
/// rise of the level where there was one.
#[derive(Clone, Debug, PartialEq, Eq)]
pub struct InteractionEvents {
    pub level_up: Option<IncarraLevelUp>,
    pub interaction: IncarraInteraction,
}

impl IncarraAgentCreated {
    /// Whether the event tells of the creation of `state` at the address
    /// `agent_id`.
    pub open spec fn describes(self, agent_id: IdentityKey, state: AgentState) -> bool {
        &&& self.agent_id == agent_id
        &&& self.owner@ == state.owner
        &&& self.agent_name@ == state.agent_name
        &&& self.carv_id@ == state.carv_id
    }
}

impl CarvIdVerified {
    /// Whether the event tells of the verification, at the time `now`, of the
    /// identity claim of `state`.
    pub open spec fn describes(self, agent_id: IdentityKey, state: AgentState, now: i64) -> bool {
        &&& self.agent_id == agent_id
        &&& self.carv_id@ == state.carv_id
        &&& self.timestamp == now
    }
}

impl CredentialAdded {
    /// Whether the event tells of the credential that `state` holds last.
    pub open spec fn describes(self, agent_id: IdentityKey, state: AgentState) -> bool {
        &&& self.agent_id == agent_id
        &&& state.credentials.len() > 0
        &&& self.credential_type@ == state.credentials.last().credential_type
        &&& self.issuer@ == state.credentials.last().issuer
    }
}

impl AchievementEarned {
    /// Whether the event tells of the achievement that `state` holds last.
    pub open spec fn describes(self, agent_id: IdentityKey, state: AgentState) -> bool {
        &&& self.agent_id == agent_id
        &&& state.achievements.len() > 0
        &&& self.achievement_name@ == state.achievements.last().name
        &&& self.score == state.achievements.last().score
    }
}

impl IncarraInteraction {
    /// Whether the event tells of an interaction of the given kind and worth,
    /// recorded at the time `now`, that led to `after`.
    pub open spec fn describes(
        self,
        agent_id: IdentityKey,
        interaction_type: InteractionType,
        experience_gained: u64,
        now: i64,
        after: AgentState,
    ) -> bool {
        &&& self.agent_id == agent_id
        &&& self.interaction_type == interaction_type
        &&& self.experience_gained == experience_gained
        &&& self.new_reputation == after.reputation
        &&& self.timestamp == now
    }
}

impl IncarraLevelUp {
    /// Whether the event tells of the rise from the level of `before` to the
    /// level of `after`.
    pub open spec fn describes(
        self,
        agent_id: IdentityKey,
        before: AgentState,
        after: AgentState,
    ) -> bool {
        &&& self.agent_id == agent_id
        &&& self.old_level == before.level
        &&& self.new_level == after.level
        &&& self.total_experience == after.experience
    }
}

impl KnowledgeAreaAdded {
    /// Whether the event tells of the knowledge area that `state` holds last.
    pub open spec fn describes(self, agent_id: IdentityKey, state: AgentState) -> bool {
        &&& self.agent_id == agent_id
        &&& state.knowledge_areas.len() > 0
        &&& self.knowledge_area@ == state.knowledge_areas.last()
        &&& self.total_areas == state.knowledge_areas.len()
    }
}

impl InteractionEvents {
    /// Whether these are the events of an interaction of the given kind and
    /// worth, recorded at the time `now`, that led from `before` to `after`: the
    /// interaction itself, and a rise of the level exactly where the level of
    /// `after` is above that of `before`.
    pub open spec fn describes(
        self,
        agent_id: IdentityKey,
        interaction_type: InteractionType,
        experience_gained: u64,
        now: i64,
        before: AgentState,
        after: AgentState,
    ) -> bool {
        &&& self.interaction.describes(agent_id, interaction_type, experience_gained, now, after)
        &&& self.level_up is Some <==> after.level > before.level
        &&& self.level_up matches Some(level_up) ==> level_up.describes(agent_id, before, after)
    }
}

} // verus!
