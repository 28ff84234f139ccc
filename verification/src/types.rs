//! The agent record as it is held in memory, and the values read from it.

use vstd::prelude::*;
use crate::key::IdentityKey;
use crate::model::AchievementState;
use crate::model::AgentState;
use crate::model::CredentialState;

verus! {

/// The kinds of interaction that a record counts.
#[derive(Clone, Copy, Debug, PartialEq, Eq, Structural)]
pub enum InteractionType {
    ResearchQuery,
    DataAnalysis,
    Conversation,
    ProblemSolving,
}

/// The counter that an interaction adds to.
#[derive(Clone, Copy, Debug, PartialEq, Eq, Structural)]
pub enum InteractionCounter {
    ResearchProjects,
    DataSourcesConnected,
    AiConversations,
}

/// A credential attached to the identity of an agent. It is added unverified,
/// and no operation of this library marks it verified.
#[derive(Clone, Debug, PartialEq, Eq)]
pub struct CarvCredential {
    pub credential_type: String,
    pub credential_data: String,
    pub issuer: String,
    pub issued_at: i64,
    pub is_verified: bool,
}

impl View for CarvCredential {
    type V = CredentialState;

    open spec fn view(&self) -> CredentialState {
        CredentialState {
            credential_type: self.credential_type@,
            credential_data: self.credential_data@,
            issuer: self.issuer@,
            issued_at: self.issued_at as int,
            is_verified: self.is_verified,
        }
    }
}

/// An achievement that an agent earned.
#[derive(Clone, Debug, PartialEq, Eq)]
pub struct CarvAchievement {
    pub name: String,
    pub description: String,
    pub score: u64,
    pub earned_at: i64,
}

impl View for CarvAchievement {
    type V = AchievementState;

    open spec fn view(&self) -> AchievementState {
        AchievementState {
            name: self.name@,
            description: self.description@,
            score: self.score as nat,
            earned_at: self.earned_at as int,
        }
    }
}

/// The texts that a list of strings holds.
pub open spec fn texts(strings: Seq<String>) -> Seq<Seq<char>> {
    Seq::new(strings.len(), |i: int| strings[i]@)
}

/// The credentials that a list holds, as models.
pub open spec fn credential_states(credentials: Seq<CarvCredential>) -> Seq<CredentialState> {
    Seq::new(credentials.len(), |i: int| credentials[i]@)
}

/// The achievements that a list holds, as models.
pub open spec fn achievement_states(achievements: Seq<CarvAchievement>) -> Seq<AchievementState> {
    Seq::new(achievements.len(), |i: int| achievements[i]@)
}

/// The record of one agent.
#[derive(Clone, Debug, PartialEq, Eq)]
pub struct IncarraAgent {
    /// The identity that owns the record. It never changes.
    pub owner: IdentityKey,
    pub agent_name: String,
    pub personality: String,
    pub created_at: i64,
    pub last_interaction: i64,
    /// The identity claim, bound when the record is created.
    pub carv_id: String,
    pub carv_verified: bool,
    pub verification_signature: String,
    /// Reputation that counts towards the identity. It is kept apart from
    /// `reputation`: the two grow on different occasions.
    pub reputation_score: u64,
    pub credentials: Vec<CarvCredential>,
    pub achievements: Vec<CarvAchievement>,
    /// Always the level that belongs to `experience`.
    pub level: u64,
    pub experience: u64,
    pub reputation: u64,
    pub total_interactions: u64,
    pub research_projects: u64,
    pub data_sources_connected: u64,
    pub ai_conversations: u64,
    pub knowledge_areas: Vec<String>,
    pub is_active: bool,
}

impl View for IncarraAgent {
    type V = AgentState;

    open spec fn view(&self) -> AgentState {
        AgentState {
            owner: self.owner@,
            agent_name: self.agent_name@,
            personality: self.personality@,
            created_at: self.created_at as int,
            last_interaction: self.last_interaction as int,
            carv_id: self.carv_id@,
            carv_verified: self.carv_verified,
            verification_signature: self.verification_signature@,
            reputation_score: self.reputation_score as nat,
            credentials: credential_states(self.credentials@),
            achievements: achievement_states(self.achievements@),
            level: self.level as nat,
            experience: self.experience as nat,
            reputation: self.reputation as nat,
            total_interactions: self.total_interactions as nat,
            research_projects: self.research_projects as nat,
            data_sources_connected: self.data_sources_connected as nat,
            ai_conversations: self.ai_conversations as nat,
            knowledge_areas: texts(self.knowledge_areas@),
            is_active: self.is_active,
        }
    }
}

/// What a record shows of the identity of its agent.
#[derive(Clone, Debug, PartialEq, Eq)]
pub struct CarvProfile {
    pub carv_id: String,
    pub is_verified: bool,
    pub reputation_score: u64,
    pub credentials_count: u64,
    pub achievements_count: u64,
    pub total_interactions: u64,
    pub level: u64,
}

impl CarvProfile {
    /// Whether this is the profile of the given state.
    pub open spec fn describes(self, state: AgentState) -> bool {
        &&& self.carv_id@ == state.carv_id
        &&& self.is_verified == state.carv_verified
        &&& self.reputation_score == state.reputation_score
        &&& self.credentials_count == state.credentials.len()
        &&& self.achievements_count == state.achievements.len()
        &&& self.total_interactions == state.total_interactions
        &&& self.level == state.level
    }
}

/// What a record shows of its agent as a whole.
#[derive(Clone, Debug, PartialEq, Eq)]
pub struct IncarraContext {
    pub owner: IdentityKey,
    pub agent_name: String,
    pub personality: String,
    pub level: u64,
    pub experience: u64,
    pub reputation: u64,
    pub knowledge_areas: Vec<String>,
    pub total_interactions: u64,
    pub research_projects: u64,
    pub ai_conversations: u64,
    pub carv_id: String,
    pub carv_verified: bool,
    pub reputation_score: u64,
}

impl IncarraContext {
    /// Whether this is the context of the given state.
    pub open spec fn describes(self, state: AgentState) -> bool {
        &&& self.owner@ == state.owner
        &&& self.agent_name@ == state.agent_name
        &&& self.personality@ == state.personality
        &&& self.level == state.level
        &&& self.experience == state.experience
        &&& self.reputation == state.reputation
        &&& texts(self.knowledge_areas@) == state.knowledge_areas
        &&& self.total_interactions == state.total_interactions
        &&& self.research_projects == state.research_projects
        &&& self.ai_conversations == state.ai_conversations
        &&& self.carv_id@ == state.carv_id
        &&& self.carv_verified == state.carv_verified
        &&& self.reputation_score == state.reputation_score
    }
}

} // verus!
