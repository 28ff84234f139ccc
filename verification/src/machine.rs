//! The state machine of a record: the calls that change it, and the state that
//! a call, or a sequence of calls, leaves.
//!
//! A call that is rejected leaves the state as it was. So whatever calls come,
//! from whomever and in whatever order, the state of a record is the one that
//! the accepted calls made.

use vstd::prelude::*;
use crate::error::ErrorCode;
use crate::model::add_achievement_rejection;
use crate::model::add_credential_rejection;
use crate::model::add_knowledge_area_rejection;
use crate::model::interact_rejection;
use crate::model::owner_rejection;
use crate::model::update_personality_rejection;
use crate::model::verify_carv_id_rejection;
use crate::model::AchievementState;
use crate::model::AgentState;
use crate::model::CredentialState;
use crate::types::InteractionType;

verus! {

/// One call of an operation that changes a record, with what it is called with.
pub enum Call {
    VerifyCarvId { caller: Seq<u8>, verification_proof: Seq<char> },
    AddCredential { caller: Seq<u8>, credential: CredentialState },
    AddAchievement { caller: Seq<u8>, achievement: AchievementState },
    Interact {
        caller: Seq<u8>,
        interaction_type: InteractionType,
        experience_gained: nat,
        now: int,
    },
    AddKnowledgeArea { caller: Seq<u8>, knowledge_area: Seq<char> },
    UpdatePersonality { caller: Seq<u8>, new_personality: Seq<char> },
    Deactivate { caller: Seq<u8> },
}

impl Call {
    /// Why the call is rejected in a state, if it is.
    pub open spec fn rejection(self, state: AgentState) -> Option<ErrorCode> {
        match self {
            Call::VerifyCarvId { caller, verification_proof } => verify_carv_id_rejection(
                state,
                caller,
                verification_proof,
            ),
            Call::AddCredential { caller, credential } => add_credential_rejection(
                state,
                caller,
                credential,
            ),
            Call::AddAchievement { caller, achievement } => add_achievement_rejection(
                state,
                caller,
                achievement,
            ),
            Call::Interact {
                caller,
                interaction_type,
                experience_gained,
                now,
            } => interact_rejection(state, caller, interaction_type, experience_gained, now),
            Call::AddKnowledgeArea { caller, knowledge_area } => add_knowledge_area_rejection(
                state,
                caller,
                knowledge_area,
            ),
            Call::UpdatePersonality { caller, new_personality } => update_personality_rejection(
                state,
                caller,
                new_personality,
            ),
            Call::Deactivate { caller } => owner_rejection(state, caller),
        }
    }

    /// Whether the call is accepted in a state.
    pub open spec fn accepted(self, state: AgentState) -> bool {
        self.rejection(state) is None
    }

    /// The state that the call makes of a state in which it is accepted.
    pub open spec fn effect(self, state: AgentState) -> AgentState {
        match self {
            Call::VerifyCarvId { .. } => state.after_verification(),
            Call::AddCredential { credential, .. } => state.with_credential(credential),
            Call::AddAchievement { achievement, .. } => state.with_achievement(achievement),
            Call::Interact {
                interaction_type,
                experience_gained,
                now,
                ..
            } => state.after_interaction(interaction_type, experience_gained, now),
            Call::AddKnowledgeArea { knowledge_area, .. } => state.with_knowledge_area(
                knowledge_area,
            ),
            Call::UpdatePersonality { new_personality, .. } => state.with_personality(
                new_personality,
            ),
            Call::Deactivate { .. } => state.deactivated(),
        }
    }

    /// Whether the call records an interaction.
    pub open spec fn is_interaction(self) -> bool {
        self is Interact
    }
}

/// The state that one call leaves: what the call makes of the state where it is
/// accepted, the same state where it is rejected.
pub open spec fn step(state: AgentState, call: Call) -> AgentState {
    if call.accepted(state) {
        call.effect(state)
    } else {
        state
    }
}

/// The state that a sequence of calls leaves, each call meeting the state that
/// the calls before it left.
pub open spec fn run(state: AgentState, calls: Seq<Call>) -> AgentState
    decreases calls.len(),
{
    if calls.len() == 0 {
        state
    } else {
        step(run(state, calls.drop_last()), calls.last())
    }
}

/// How many calls of a sequence record an interaction and are accepted.
pub open spec fn accepted_interactions(state: AgentState, calls: Seq<Call>) -> nat
    decreases calls.len(),
{
    if calls.len() == 0 {
        0
    } else {
        let before = accepted_interactions(state, calls.drop_last());
        let last = calls.last();
        if last.is_interaction() && last.accepted(run(state, calls.drop_last())) {
            before + 1
        } else {
            before
        }
    }
}

} // verus!
