//! The rules that an operation checks before it changes anything: bounds on
//! texts, room in the lists, ownership, and a verified identity where one is
//! needed. Each rule is a function of the record and the input that passes or
//! names the reason for which it does not.

use vstd::prelude::*;
use crate::error::ErrorCode;
use crate::key::IdentityKey;
use crate::limits::MAX_ACHIEVEMENTS;
use crate::limits::MAX_AGENT_NAME_LEN;
use crate::limits::MAX_CARV_ID_LEN;
use crate::limits::MAX_CREDENTIALS;
use crate::limits::MAX_KNOWLEDGE_AREAS;
use crate::limits::MAX_KNOWLEDGE_AREA_LEN;
use crate::limits::MAX_PERSONALITY_LEN;
use crate::limits::MIN_VERIFICATION_PROOF_LEN;
use crate::model::byte_len;
use crate::model::owner_rejection;
use crate::types::texts;
use crate::types::IncarraAgent;

verus! {

/// The length of a text in bytes.
pub fn byte_length(text: &String) -> (length: usize)
    ensures
        length == byte_len(text@),
{
    text.as_str().as_bytes().len()
}

/// An agent name passes if it has at most 50 bytes.
pub fn check_agent_name(agent_name: &String) -> (checked: Result<(), ErrorCode>)
    ensures
        checked is Ok <==> byte_len(agent_name@) <= MAX_AGENT_NAME_LEN,
        checked is Err ==> checked == Err::<(), ErrorCode>(ErrorCode::AgentNameTooLong),
{
    if byte_length(agent_name) > MAX_AGENT_NAME_LEN {
        Err(ErrorCode::AgentNameTooLong)
    } else {
        Ok(())
    }
}

/// A personality description passes if it has at most 200 bytes.
pub fn check_personality(personality: &String) -> (checked: Result<(), ErrorCode>)
    ensures
        checked is Ok <==> byte_len(personality@) <= MAX_PERSONALITY_LEN,
        checked is Err ==> checked == Err::<(), ErrorCode>(ErrorCode::PersonalityTooLong),
{
    if byte_length(personality) > MAX_PERSONALITY_LEN {
        Err(ErrorCode::PersonalityTooLong)
    } else {
        Ok(())
    }
}

/// The name of a knowledge area passes if it has at most 30 bytes.
pub fn check_knowledge_area(knowledge_area: &String) -> (checked: Result<(), ErrorCode>)
    ensures
        checked is Ok <==> byte_len(knowledge_area@) <= MAX_KNOWLEDGE_AREA_LEN,
        checked is Err ==> checked == Err::<(), ErrorCode>(ErrorCode::KnowledgeAreaTooLong),
{
    if byte_length(knowledge_area) > MAX_KNOWLEDGE_AREA_LEN {
        Err(ErrorCode::KnowledgeAreaTooLong)
    } else {
        Ok(())
    }
}

/// An identity claim passes if it is not empty and has at most 42 bytes.
pub fn check_carv_id(carv_id: &String) -> (checked: Result<(), ErrorCode>)
    ensures
        checked is Ok <==> carv_id@.len() > 0 && byte_len(carv_id@) <= MAX_CARV_ID_LEN,
        carv_id@.len() == 0 ==> checked == Err::<(), ErrorCode>(ErrorCode::InvalidCarvId),
        carv_id@.len() > 0 && byte_len(carv_id@) > MAX_CARV_ID_LEN ==> checked == Err::<
            (),
            ErrorCode,
        >(ErrorCode::CarvIdTooLong),
{
    if carv_id.as_str().is_empty() {
        Err(ErrorCode::InvalidCarvId)
    } else if byte_length(carv_id) > MAX_CARV_ID_LEN {
        Err(ErrorCode::CarvIdTooLong)
    } else {
        Ok(())
    }
}

/// A verification proof passes if it has at least 10 bytes. Nothing else of it
/// is looked at: whether it proves anything is for others to decide.
pub fn check_verification_proof(verification_proof: &String) -> (checked: Result<(), ErrorCode>)
    ensures
        checked is Ok <==> byte_len(verification_proof@) >= MIN_VERIFICATION_PROOF_LEN,
        checked is Err ==> checked == Err::<(), ErrorCode>(ErrorCode::InvalidVerificationProof),
{
    if byte_length(verification_proof) < MIN_VERIFICATION_PROOF_LEN {
        Err(ErrorCode::InvalidVerificationProof)
    } else {
        Ok(())
    }
}

/// A caller passes if it is the owner of the record.
pub fn check_owner(agent: &IncarraAgent, caller: &IdentityKey) -> (checked: Result<(), ErrorCode>)
    ensures
        checked is Ok <==> caller@ == agent@.owner,
        checked is Err ==> checked == Err::<(), ErrorCode>(ErrorCode::Unauthorized),
        checked is Err <==> owner_rejection(agent@, caller@) is Some,
{
    if agent.owner.same_as(caller) {
        Ok(())
    } else {
        Err(ErrorCode::Unauthorized)
    }
}

/// A record passes if its identity claim is verified.
pub fn check_identity_verified(agent: &IncarraAgent) -> (checked: Result<(), ErrorCode>)
    ensures
        checked is Ok <==> agent@.carv_verified,
        checked is Err ==> checked == Err::<(), ErrorCode>(ErrorCode::CarvIdNotVerified),
{
    if agent.carv_verified {
        Ok(())
    } else {
        Err(ErrorCode::CarvIdNotVerified)
    }
}

/// A record passes if it has room for one more knowledge area.
pub fn check_knowledge_area_capacity(agent: &IncarraAgent) -> (checked: Result<(), ErrorCode>)
    ensures
        checked is Ok <==> agent@.knowledge_areas.len() < MAX_KNOWLEDGE_AREAS,
        checked is Err ==> checked == Err::<(), ErrorCode>(ErrorCode::TooManyKnowledgeAreas),
{
    if agent.knowledge_areas.len() >= MAX_KNOWLEDGE_AREAS {
        Err(ErrorCode::TooManyKnowledgeAreas)
    } else {
        Ok(())
    }
}

/// A record passes if it has room for one more credential.
pub fn check_credential_capacity(agent: &IncarraAgent) -> (checked: Result<(), ErrorCode>)
    ensures
        checked is Ok <==> agent@.credentials.len() < MAX_CREDENTIALS,
        checked is Err ==> checked == Err::<(), ErrorCode>(ErrorCode::TooManyCredentials),
{
    if agent.credentials.len() >= MAX_CREDENTIALS {
        Err(ErrorCode::TooManyCredentials)
    } else {
        Ok(())
    }
}

/// A record passes if it has room for one more achievement.
pub fn check_achievement_capacity(agent: &IncarraAgent) -> (checked: Result<(), ErrorCode>)
    ensures
        checked is Ok <==> agent@.achievements.len() < MAX_ACHIEVEMENTS,
        checked is Err ==> checked == Err::<(), ErrorCode>(ErrorCode::TooManyAchievements),
{
    if agent.achievements.len() >= MAX_ACHIEVEMENTS {
        Err(ErrorCode::TooManyAchievements)
    } else {
        Ok(())
    }
}

/// A counter passes if it can take the increase; what passes is the counter
/// after the increase.
pub fn raise_counter(counter: u64, increase: u64) -> (raised: Result<u64, ErrorCode>)
    ensures
        raised is Ok <==> counter + increase <= u64::MAX,
        raised matches Ok(value) ==> value == counter + increase,
        raised is Err ==> raised == Err::<u64, ErrorCode>(ErrorCode::CounterOverflow),
{
    match counter.checked_add(increase) {
        Some(value) => Ok(value),
        None => Err(ErrorCode::CounterOverflow),
    }
}

/// Whether the record holds the knowledge area already.
pub fn holds_knowledge_area(agent: &IncarraAgent, knowledge_area: &String) -> (held: bool)
    ensures
        held == agent@.knowledge_areas.contains(knowledge_area@),
{
    let ghost areas = texts(agent.knowledge_areas@);
    let mut i: usize = 0;
    while i < agent.knowledge_areas.len()
        invariant
            i <= agent.knowledge_areas.len(),
            areas == texts(agent.knowledge_areas@),
            forall|j: int| 0 <= j < i ==> areas[j] != knowledge_area@,
        decreases agent.knowledge_areas.len() - i,
    {
        if agent.knowledge_areas[i] == *knowledge_area {
            assert(areas[i as int] == knowledge_area@);
            return true;
        }
        i += 1;
    }
    false
}

} // verus!
