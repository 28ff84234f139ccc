//! The mathematical model of an agent record and of its operations.
//!
//! A record is modelled by [`AgentState`]: texts are sequences of characters,
//! counters are natural numbers, timestamps are integers. Each operation is given
//! by two functions: a rejection, which says for which inputs the operation
//! fails and with which reason, and the state that follows where it succeeds.
//! The executable operations are specified against these.
//!
//! A counter of a record has 64 bits. An operation that would take a counter
//! beyond them is rejected like any other, so that no counter ever wraps or
//! decreases, whatever the caller supplies.

use vstd::prelude::*;
use vstd::utf8::encode_utf8;
use crate::error::ErrorCode;
use crate::limits::EXPERIENCE_PER_LEVEL;
use crate::limits::CREDENTIAL_SCORE;
use crate::limits::KEY_SIZE;
use crate::limits::KNOWLEDGE_AREA_REPUTATION;
use crate::limits::MAX_ACHIEVEMENTS;
use crate::limits::MAX_AGENT_NAME_LEN;
use crate::limits::MAX_CARV_ID_LEN;
use crate::limits::MAX_CREDENTIALS;
use crate::limits::MAX_KNOWLEDGE_AREAS;
use crate::limits::MAX_KNOWLEDGE_AREA_LEN;
use crate::limits::MAX_PERSONALITY_LEN;
use crate::limits::MIN_VERIFICATION_PROOF_LEN;
use crate::limits::VERIFICATION_BONUS;
use crate::limits::VERIFIED_INTERACTION_BONUS;
use crate::types::InteractionCounter;
use crate::types::InteractionType;

verus! {

/// The length of a text as it is stored and bounded: the number of bytes of its
/// UTF-8 encoding. For ASCII text this is the number of characters.
pub open spec fn byte_len(text: Seq<char>) -> nat {
    encode_utf8(text).len()
}

/// The level that belongs to an amount of experience: one level per hundred
/// points, starting at level one.
pub open spec fn level_for(experience: nat) -> nat {
    experience / (EXPERIENCE_PER_LEVEL as nat) + 1
}

impl InteractionType {
    /// Reputation that one interaction of this kind earns, before any bonus.
    pub open spec fn base_reputation(self) -> nat {
        match self {
            InteractionType::ResearchQuery => 3,
            InteractionType::DataAnalysis => 5,
            InteractionType::Conversation => 1,
            InteractionType::ProblemSolving => 4,
        }
    }

    /// Reputation that one interaction of this kind earns: the base amount, and
    /// one more where the identity of the record is verified.
    pub open spec fn reputation_gain(self, verified: bool) -> nat {
        if verified {
            self.base_reputation() + (VERIFIED_INTERACTION_BONUS as nat)
        } else {
            self.base_reputation()
        }
    }

    /// The counter that one interaction of this kind adds to. Research queries
    /// and problem solving share one counter.
    pub open spec fn counter(self) -> InteractionCounter {
        match self {
            InteractionType::ResearchQuery => InteractionCounter::ResearchProjects,
            InteractionType::DataAnalysis => InteractionCounter::DataSourcesConnected,
            InteractionType::Conversation => InteractionCounter::AiConversations,
            InteractionType::ProblemSolving => InteractionCounter::ResearchProjects,
        }
    }
}

/// The model of a credential.
pub struct CredentialState {
    pub credential_type: Seq<char>,
    pub credential_data: Seq<char>,
    pub issuer: Seq<char>,
    pub issued_at: int,
    pub is_verified: bool,
}

/// The model of an achievement.
pub struct AchievementState {
    pub name: Seq<char>,
    pub description: Seq<char>,
    pub score: nat,
    pub earned_at: int,
}

/// The model of an agent record.
pub struct AgentState {
    pub owner: Seq<u8>,
    pub agent_name: Seq<char>,
    pub personality: Seq<char>,
    pub created_at: int,
    pub last_interaction: int,
    pub carv_id: Seq<char>,
    pub carv_verified: bool,
    pub verification_signature: Seq<char>,
    pub reputation_score: nat,
    pub credentials: Seq<CredentialState>,
    pub achievements: Seq<AchievementState>,
    pub level: nat,
    pub experience: nat,
    pub reputation: nat,
    pub total_interactions: nat,
    pub research_projects: nat,
    pub data_sources_connected: nat,
    pub ai_conversations: nat,
    pub knowledge_areas: Seq<Seq<char>>,
    pub is_active: bool,
}

impl AgentState {
    /// The invariant of a record: every bounded field is within its bound, no
    /// knowledge area occurs twice, the level is the one that belongs to the
    /// experience, and the interaction counters add up to the total.
    pub open spec fn wf(self) -> bool {
        &&& self.owner.len() == KEY_SIZE
        &&& byte_len(self.agent_name) <= MAX_AGENT_NAME_LEN
        &&& byte_len(self.personality) <= MAX_PERSONALITY_LEN
        &&& self.carv_id.len() > 0
        &&& byte_len(self.carv_id) <= MAX_CARV_ID_LEN
        &&& self.knowledge_areas.len() <= MAX_KNOWLEDGE_AREAS
        &&& self.knowledge_areas.no_duplicates()
        &&& forall|i: int|
            0 <= i < self.knowledge_areas.len() ==> byte_len(#[trigger] self.knowledge_areas[i])
                <= MAX_KNOWLEDGE_AREA_LEN
        &&& self.credentials.len() <= MAX_CREDENTIALS
        &&& self.achievements.len() <= MAX_ACHIEVEMENTS
        &&& self.level == level_for(self.experience)
        &&& self.research_projects + self.data_sources_connected + self.ai_conversations
            == self.total_interactions
    }

    /// Whether every counter of the state fits the 64 bits that a record has for
    /// it.
    pub open spec fn counters_fit(self) -> bool {
        &&& self.reputation_score <= u64::MAX
        &&& self.level <= u64::MAX
        &&& self.experience <= u64::MAX
        &&& self.reputation <= u64::MAX
        &&& self.total_interactions <= u64::MAX
        &&& self.research_projects <= u64::MAX
        &&& self.data_sources_connected <= u64::MAX
        &&& self.ai_conversations <= u64::MAX
    }

    /// What every operation keeps between the state before it and the state
    /// after it: the owner, the name, the identity claim with its artifact and
    /// the time of creation stay; no counter decreases; a verified identity stays
    /// verified and an inactive record inactive; the three lists only grow at
    /// their end.
    pub open spec fn evolves_to(self, next: AgentState) -> bool {
        &&& next.owner == self.owner
        &&& next.agent_name == self.agent_name
        &&& next.carv_id == self.carv_id
        &&& next.verification_signature == self.verification_signature
        &&& next.created_at == self.created_at
        &&& self.carv_verified ==> next.carv_verified
        &&& !self.is_active ==> !next.is_active
        &&& self.reputation <= next.reputation
        &&& self.reputation_score <= next.reputation_score
        &&& self.experience <= next.experience
        &&& self.total_interactions <= next.total_interactions
        &&& self.research_projects <= next.research_projects
        &&& self.data_sources_connected <= next.data_sources_connected
        &&& self.ai_conversations <= next.ai_conversations
        &&& self.credentials.is_prefix_of(next.credentials)
        &&& self.achievements.is_prefix_of(next.achievements)
        &&& self.knowledge_areas.is_prefix_of(next.knowledge_areas)
    }

    /// The record of a new agent.
    pub open spec fn created(
        owner: Seq<u8>,
        agent_name: Seq<char>,
        personality: Seq<char>,
        carv_id: Seq<char>,
        verification_signature: Seq<char>,
        now: int,
    ) -> AgentState {
        AgentState {
            owner,
            agent_name,
            personality,
            created_at: now,
            last_interaction: now,
            carv_id,
            carv_verified: false,
            verification_signature,
            reputation_score: 0,
            credentials: Seq::empty(),
            achievements: Seq::empty(),
            level: 1,
            experience: 0,
            reputation: 0,
            total_interactions: 0,
            research_projects: 0,
            data_sources_connected: 0,
            ai_conversations: 0,
            knowledge_areas: Seq::empty(),
            is_active: true,
        }
    }

    /// The state after the identity claim was verified. Verification counts
    /// once: on a record that is verified already nothing changes.
    pub open spec fn after_verification(self) -> AgentState {
        if self.carv_verified {
            self
        } else {
            AgentState {
                carv_verified: true,
                reputation: self.reputation + (VERIFICATION_BONUS as nat),
                ..self
            }
        }
    }

    /// The state after a credential was added.
    pub open spec fn with_credential(self, credential: CredentialState) -> AgentState {
        AgentState {
            credentials: self.credentials.push(credential),
            reputation_score: self.reputation_score + (CREDENTIAL_SCORE as nat),
            ..self
        }
    }

    /// The state after an achievement was added.
    pub open spec fn with_achievement(self, achievement: AchievementState) -> AgentState {
        AgentState {
            achievements: self.achievements.push(achievement),
            reputation_score: self.reputation_score + achievement.score,
            ..self
        }
    }

    /// The state after one interaction was recorded.
    pub open spec fn after_interaction(
        self,
        interaction_type: InteractionType,
        experience_gained: nat,
        now: int,
    ) -> AgentState {
        let gain = interaction_type.reputation_gain(self.carv_verified);
        let counter = interaction_type.counter();
        let experience = self.experience + experience_gained;
        AgentState {
            total_interactions: self.total_interactions + 1,
            experience,
            level: level_for(experience),
            last_interaction: now,
            reputation: self.reputation + gain,
            reputation_score: self.reputation_score + gain,
            research_projects: if counter == InteractionCounter::ResearchProjects {
                self.research_projects + 1
            } else {
                self.research_projects
            },
            data_sources_connected: if counter == InteractionCounter::DataSourcesConnected {
                self.data_sources_connected + 1
            } else {
                self.data_sources_connected
            },
            ai_conversations: if counter == InteractionCounter::AiConversations {
                self.ai_conversations + 1
            } else {
                self.ai_conversations
            },
            ..self
        }
    }

    /// The state after a knowledge area was added. An area that the record holds
    /// already is not added again, and earns nothing.
    pub open spec fn with_knowledge_area(self, knowledge_area: Seq<char>) -> AgentState {
        if self.knowledge_areas.contains(knowledge_area) {
            self
        } else {
            AgentState {
                knowledge_areas: self.knowledge_areas.push(knowledge_area),
                reputation: self.reputation + (KNOWLEDGE_AREA_REPUTATION as nat),
                reputation_score: self.reputation_score + (KNOWLEDGE_AREA_REPUTATION as nat),
                ..self
            }
        }
    }

    /// The state after the personality was replaced.
    pub open spec fn with_personality(self, personality: Seq<char>) -> AgentState {
        AgentState { personality, ..self }
    }

    /// The state after the record was deactivated.
    pub open spec fn deactivated(self) -> AgentState {
        AgentState { is_active: false, ..self }
    }
}

/// Why creating a record with these texts fails, if it does. The name is looked
/// at first, then the personality, then the identity claim.
pub open spec fn create_rejection(
    agent_name: Seq<char>,
    personality: Seq<char>,
    carv_id: Seq<char>,
) -> Option<ErrorCode> {
    if byte_len(agent_name) > MAX_AGENT_NAME_LEN {
        Some(ErrorCode::AgentNameTooLong)
    } else if byte_len(personality) > MAX_PERSONALITY_LEN {
        Some(ErrorCode::PersonalityTooLong)
    } else if carv_id.len() == 0 {
        Some(ErrorCode::InvalidCarvId)
    } else if byte_len(carv_id) > MAX_CARV_ID_LEN {
        Some(ErrorCode::CarvIdTooLong)
    } else {
        None
    }
}

/// Why a caller may not change a record, if it may not: only the owner may.
pub open spec fn owner_rejection(state: AgentState, caller: Seq<u8>) -> Option<ErrorCode> {
    if caller != state.owner {
        Some(ErrorCode::Unauthorized)
    } else {
        None
    }
}

/// Why verifying the identity claim fails, if it does.
pub open spec fn verify_carv_id_rejection(
    state: AgentState,
    caller: Seq<u8>,
    verification_proof: Seq<char>,
) -> Option<ErrorCode> {
    if owner_rejection(state, caller) is Some {
        owner_rejection(state, caller)
    } else if byte_len(verification_proof) < MIN_VERIFICATION_PROOF_LEN {
        Some(ErrorCode::InvalidVerificationProof)
    } else if !state.after_verification().counters_fit() {
        Some(ErrorCode::CounterOverflow)
    } else {
        None
    }
}

/// Why adding a credential fails, if it does.
pub open spec fn add_credential_rejection(
    state: AgentState,
    caller: Seq<u8>,
    credential: CredentialState,
) -> Option<ErrorCode> {
    if owner_rejection(state, caller) is Some {
        owner_rejection(state, caller)
    } else if !state.carv_verified {
        Some(ErrorCode::CarvIdNotVerified)
    } else if state.credentials.len() >= MAX_CREDENTIALS {
        Some(ErrorCode::TooManyCredentials)
    } else if !state.with_credential(credential).counters_fit() {
        Some(ErrorCode::CounterOverflow)
    } else {
        None
    }
}

/// Why adding an achievement fails, if it does.
pub open spec fn add_achievement_rejection(
    state: AgentState,
    caller: Seq<u8>,
    achievement: AchievementState,
) -> Option<ErrorCode> {
    if owner_rejection(state, caller) is Some {
        owner_rejection(state, caller)
    } else if state.achievements.len() >= MAX_ACHIEVEMENTS {
        Some(ErrorCode::TooManyAchievements)
    } else if !state.with_achievement(achievement).counters_fit() {
        Some(ErrorCode::CounterOverflow)
    } else {
        None
    }
}

/// Why recording an interaction fails, if it does.
pub open spec fn interact_rejection(
    state: AgentState,
    caller: Seq<u8>,
    interaction_type: InteractionType,
    experience_gained: nat,
    now: int,
) -> Option<ErrorCode> {
    if owner_rejection(state, caller) is Some {
        owner_rejection(state, caller)
    } else if !state.after_interaction(interaction_type, experience_gained, now).counters_fit() {
        Some(ErrorCode::CounterOverflow)
    } else {
        None
    }
}

/// Why adding a knowledge area fails, if it does. An area that the record holds
/// already is never refused for want of room.
pub open spec fn add_knowledge_area_rejection(
    state: AgentState,
    caller: Seq<u8>,
    knowledge_area: Seq<char>,
) -> Option<ErrorCode> {
    if owner_rejection(state, caller) is Some {
        owner_rejection(state, caller)
    } else if byte_len(knowledge_area) > MAX_KNOWLEDGE_AREA_LEN {
        Some(ErrorCode::KnowledgeAreaTooLong)
    } else if !state.knowledge_areas.contains(knowledge_area) && state.knowledge_areas.len()
        >= MAX_KNOWLEDGE_AREAS {
        Some(ErrorCode::TooManyKnowledgeAreas)
    } else if !state.with_knowledge_area(knowledge_area).counters_fit() {
        Some(ErrorCode::CounterOverflow)
    } else {
        None
    }
}

/// Why replacing the personality fails, if it does.
pub open spec fn update_personality_rejection(
    state: AgentState,
    caller: Seq<u8>,
    new_personality: Seq<char>,
) -> Option<ErrorCode> {
    if owner_rejection(state, caller) is Some {
        owner_rejection(state, caller)
    } else if byte_len(new_personality) > MAX_PERSONALITY_LEN {
        Some(ErrorCode::PersonalityTooLong)
    } else {
        None
    }
}

} // verus!
