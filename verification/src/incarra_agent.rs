//! The operations on an agent record.
//!
//! An operation that changes a record takes the record with its address and the
//! caller, checks what has to hold, and then either changes the record and hands
//! back the event of the change, or leaves the record untouched and names the
//! reason. The time is handed in by the caller, who reads it once from a clock
//! that it trusts.

use vstd::prelude::*;
use crate::accounts::CreateIncarraAgent;
use crate::accounts::ReadIncarra;
use crate::accounts::UpdateIncarra;
use crate::error::ErrorCode;
use crate::events::AchievementEarned;
use crate::events::CarvIdVerified;
use crate::events::CredentialAdded;
use crate::events::IncarraAgentCreated;
use crate::events::IncarraInteraction;
use crate::events::IncarraLevelUp;
use crate::events::InteractionEvents;
use crate::events::KnowledgeAreaAdded;
use crate::limits::CREDENTIAL_SCORE;
use crate::limits::KNOWLEDGE_AREA_REPUTATION;
use crate::limits::VERIFICATION_BONUS;
use crate::machine::step;
use crate::machine::Call;
use crate::model::add_achievement_rejection;
use crate::model::add_credential_rejection;
use crate::model::add_knowledge_area_rejection;
use crate::model::create_rejection;
use crate::model::interact_rejection;
use crate::model::level_for;
use crate::model::owner_rejection;
use crate::model::update_personality_rejection;
use crate::model::verify_carv_id_rejection;
use crate::model::AchievementState;
use crate::model::AgentState;
use crate::model::CredentialState;
use crate::progression::counter_of;
use crate::progression::level_of;
use crate::progression::reputation_gain_of;
use crate::types::texts;
use crate::types::CarvAchievement;
use crate::types::CarvCredential;
use crate::types::CarvProfile;
use crate::types::IncarraAgent;
use crate::types::IncarraContext;
use crate::types::InteractionCounter;
use crate::types::InteractionType;
use crate::validation::check_achievement_capacity;
use crate::validation::check_agent_name;
use crate::validation::check_carv_id;
use crate::validation::check_credential_capacity;
use crate::validation::check_identity_verified;
use crate::validation::check_knowledge_area;
use crate::validation::check_knowledge_area_capacity;
use crate::validation::check_owner;
use crate::validation::check_personality;
use crate::validation::check_verification_proof;
use crate::validation::holds_knowledge_area;
use crate::validation::raise_counter;

verus! {

/// Creates the record of a new agent, owned by the caller.
///
/// The name, the personality and the identity claim must be within their
/// bounds, and the identity claim must not be empty. The new agent starts at
/// level one, with no experience, no reputation and empty lists, active, and
/// with its identity claim bound but not verified.
pub fn create_incarra_agent(
    ctx: &CreateIncarraAgent,
    now: i64,
    agent_name: String,
    personality: String,
    carv_id: String,
    verification_signature: String,
) -> (outcome: Result<(IncarraAgent, IncarraAgentCreated), ErrorCode>)
    ensures
        match outcome {
            Ok((agent, event)) => {
                &&& create_rejection(agent_name@, personality@, carv_id@) is None
                &&& agent@ == AgentState::created(
                    ctx.user@,
                    agent_name@,
                    personality@,
                    carv_id@,
                    verification_signature@,
                    now as int,
                )
                &&& agent@.wf()
                &&& event.describes(ctx.agent_id, agent@)
            },
            Err(reason) => create_rejection(agent_name@, personality@, carv_id@) == Some(reason),
        },
{
    check_agent_name(&agent_name)?;
    check_personality(&personality)?;
    check_carv_id(&carv_id)?;

    let event = IncarraAgentCreated {
        agent_id: ctx.agent_id,
        owner: ctx.user,
        agent_name: agent_name.clone(),
        carv_id: carv_id.clone(),
    };
    let agent = IncarraAgent {
        owner: ctx.user,
        agent_name,
        personality,
        created_at: now,
        last_interaction: now,
        carv_id,
        carv_verified: false,
        verification_signature,
        reputation_score: 0,
        credentials: Vec::new(),
        achievements: Vec::new(),
        level: 1,
        experience: 0,
        reputation: 0,
        total_interactions: 0,
        research_projects: 0,
        data_sources_connected: 0,
        ai_conversations: 0,
        knowledge_areas: Vec::new(),
        is_active: true,
    };
    assert(agent@.credentials =~= Seq::empty());
    assert(agent@.achievements =~= Seq::empty());
    assert(agent@.knowledge_areas =~= Seq::empty());
    Ok((agent, event))
}

/// Verifies the identity claim of a record.
///
/// The proof must have at least 10 bytes; what it proves is not looked at
/// here. The first verification marks the identity verified and earns the
/// verification bonus of 50 reputation, and its event is handed back. On a
/// record that is verified already the operation changes nothing and hands back
/// no event, so that the bonus is earned once.
///
/// Only the owner may verify.
pub fn verify_carv_id(ctx: &mut UpdateIncarra, now: i64, verification_proof: String) -> (outcome:
    Result<Option<CarvIdVerified>, ErrorCode>)
    ensures
        final(ctx).agent_id == old(ctx).agent_id,
        final(ctx).owner == old(ctx).owner,
        ({
            let before = old(ctx).incarra_agent@;
            let after = final(ctx).incarra_agent@;
            let call = Call::VerifyCarvId {
                caller: old(ctx).owner@,
                verification_proof: verification_proof@,
            };
            &&& after == step(before, call)
            &&& before.wf() ==> after.wf()
            &&& before.evolves_to(after)
            &&& match outcome {
                Ok(event) => {
                    &&& verify_carv_id_rejection(before, old(ctx).owner@, verification_proof@)
                        is None
                    &&& after == before.after_verification()
                    &&& after.carv_verified
                    &&& event is Some <==> !before.carv_verified
                    &&& event is None ==> *final(ctx) == *old(ctx)
                    &&& event matches Some(verified) ==> verified.describes(
                        old(ctx).agent_id,
                        after,
                        now,
                    )
                },
                Err(reason) => {
                    &&& verify_carv_id_rejection(before, old(ctx).owner@, verification_proof@)
                        == Some(reason)
                    &&& *final(ctx) == *old(ctx)
                },
            }
        }),
{
    check_owner(&ctx.incarra_agent, &ctx.owner)?;
    check_verification_proof(&verification_proof)?;
    if ctx.incarra_agent.carv_verified {
        return Ok(None);
    }
    let reputation = raise_counter(ctx.incarra_agent.reputation, VERIFICATION_BONUS)?;

    ctx.incarra_agent.carv_verified = true;
    ctx.incarra_agent.reputation = reputation;
    let event = CarvIdVerified {
        agent_id: ctx.agent_id,
        carv_id: ctx.incarra_agent.carv_id.clone(),
        timestamp: now,
    };
    Ok(Some(event))
}

/// Adds a credential to the record.
///
/// The identity of the record must be verified, and the record must hold fewer
/// than 10 credentials. The credential is added at the end of the list,
/// unverified and dated `now`, and earns 10 on the reputation score.
///
/// Only the owner may add a credential.
pub fn add_credential(
    ctx: &mut UpdateIncarra,
    now: i64,
    credential_type: String,
    credential_data: String,
    issuer: String,
) -> (outcome: Result<CredentialAdded, ErrorCode>)
    ensures
        final(ctx).agent_id == old(ctx).agent_id,
        final(ctx).owner == old(ctx).owner,
        ({
            let before = old(ctx).incarra_agent@;
            let after = final(ctx).incarra_agent@;
            let credential = CredentialState {
                credential_type: credential_type@,
                credential_data: credential_data@,
                issuer: issuer@,
                issued_at: now as int,
                is_verified: false,
            };
            let call = Call::AddCredential { caller: old(ctx).owner@, credential };
            &&& after == step(before, call)
            &&& before.wf() ==> after.wf()
            &&& before.evolves_to(after)
            &&& match outcome {
                Ok(event) => {
                    &&& add_credential_rejection(before, old(ctx).owner@, credential) is None
                    &&& after == before.with_credential(credential)
                    &&& event.describes(old(ctx).agent_id, after)
                },
                Err(reason) => {
                    &&& add_credential_rejection(before, old(ctx).owner@, credential) == Some(
                        reason,
                    )
                    &&& *final(ctx) == *old(ctx)
                },
            }
        }),
{
    check_owner(&ctx.incarra_agent, &ctx.owner)?;
    check_identity_verified(&ctx.incarra_agent)?;
    check_credential_capacity(&ctx.incarra_agent)?;
    let reputation_score = raise_counter(ctx.incarra_agent.reputation_score, CREDENTIAL_SCORE)?;

    let event = CredentialAdded {
        agent_id: ctx.agent_id,
        credential_type: credential_type.clone(),
        issuer: issuer.clone(),
    };
    let credential = CarvCredential {
        credential_type,
        credential_data,
        issuer,
        issued_at: now,
        is_verified: false,
    };
    ctx.incarra_agent.credentials.push(credential);
    ctx.incarra_agent.reputation_score = reputation_score;
    assert(ctx.incarra_agent@.credentials =~= old(ctx).incarra_agent@.credentials.push(
        credential@,
    ));
    Ok(event)
}

/// Adds an achievement to the record.
///
/// The record must hold fewer than 20 achievements. The achievement is added at
/// the end of the list, dated `now`, and earns its score on the reputation
/// score, whatever the score is.
///
/// Only the owner may add an achievement.
pub fn add_achievement(
    ctx: &mut UpdateIncarra,
    now: i64,
    achievement_name: String,
    achievement_description: String,
    achievement_score: u64,
) -> (outcome: Result<AchievementEarned, ErrorCode>)
    ensures
        final(ctx).agent_id == old(ctx).agent_id,
        final(ctx).owner == old(ctx).owner,
        ({
            let before = old(ctx).incarra_agent@;
            let after = final(ctx).incarra_agent@;
            let achievement = AchievementState {
                name: achievement_name@,
                description: achievement_description@,
                score: achievement_score as nat,
                earned_at: now as int,
            };
            let call = Call::AddAchievement { caller: old(ctx).owner@, achievement };
            &&& after == step(before, call)
            &&& before.wf() ==> after.wf()
            &&& before.evolves_to(after)
            &&& match outcome {
                Ok(event) => {
                    &&& add_achievement_rejection(before, old(ctx).owner@, achievement) is None
                    &&& after == before.with_achievement(achievement)
                    &&& event.describes(old(ctx).agent_id, after)
                },
                Err(reason) => {
                    &&& add_achievement_rejection(before, old(ctx).owner@, achievement) == Some(
                        reason,
                    )
                    &&& *final(ctx) == *old(ctx)
                },
            }
        }),
{
    check_owner(&ctx.incarra_agent, &ctx.owner)?;
    check_achievement_capacity(&ctx.incarra_agent)?;
    let reputation_score = raise_counter(ctx.incarra_agent.reputation_score, achievement_score)?;

    let event = AchievementEarned {
        agent_id: ctx.agent_id,
        achievement_name: achievement_name.clone(),
        score: achievement_score,
    };
    let achievement = CarvAchievement {
        name: achievement_name,
        description: achievement_description,
        score: achievement_score,
        earned_at: now,
    };
    ctx.incarra_agent.achievements.push(achievement);
    ctx.incarra_agent.reputation_score = reputation_score;
    assert(ctx.incarra_agent@.achievements =~= old(ctx).incarra_agent@.achievements.push(
        achievement@,
    ));
    Ok(event)
}

/// Records one interaction of the owner with the agent.
///
/// The interaction counts towards the total and towards the counter of its kind,
/// adds the experience gained, earns the reputation of its kind on both
/// reputation counters, sets the time of the last interaction, and brings the
/// level up to date. The events are the interaction and, where the level rose,
/// the rise. The data that comes with the interaction is not kept.
///
/// Only the owner may record an interaction.
pub fn interact_with_incarra(
    ctx: &mut UpdateIncarra,
    now: i64,
    interaction_type: InteractionType,
    experience_gained: u64,
    _context_data: String,
) -> (outcome: Result<InteractionEvents, ErrorCode>)
    ensures
        final(ctx).agent_id == old(ctx).agent_id,
        final(ctx).owner == old(ctx).owner,
        ({
            let before = old(ctx).incarra_agent@;
            let after = final(ctx).incarra_agent@;
            let call = Call::Interact {
                caller: old(ctx).owner@,
                interaction_type,
                experience_gained: experience_gained as nat,
                now: now as int,
            };
            &&& after == step(before, call)
            &&& before.wf() ==> after.wf()
            &&& before.evolves_to(after)
            &&& match outcome {
                Ok(events) => {
                    &&& interact_rejection(
                        before,
                        old(ctx).owner@,
                        interaction_type,
                        experience_gained as nat,
                        now as int,
                    ) is None
                    &&& after == before.after_interaction(
                        interaction_type,
                        experience_gained as nat,
                        now as int,
                    )
                    &&& after.level == level_for(after.experience)
                    &&& events.describes(
                        old(ctx).agent_id,
                        interaction_type,
                        experience_gained,
                        now,
                        before,
                        after,
                    )
                },
                Err(reason) => {
                    &&& interact_rejection(
                        before,
                        old(ctx).owner@,
                        interaction_type,
                        experience_gained as nat,
                        now as int,
                    ) == Some(reason)
                    &&& *final(ctx) == *old(ctx)
                },
            }
        }),
{
    check_owner(&ctx.incarra_agent, &ctx.owner)?;
    let gain = reputation_gain_of(interaction_type, ctx.incarra_agent.carv_verified);
    let counter = counter_of(interaction_type);
    let total_interactions = raise_counter(ctx.incarra_agent.total_interactions, 1)?;
    let experience = raise_counter(ctx.incarra_agent.experience, experience_gained)?;
    let reputation = raise_counter(ctx.incarra_agent.reputation, gain)?;
    let reputation_score = raise_counter(ctx.incarra_agent.reputation_score, gain)?;
    let research_projects = match counter {
        InteractionCounter::ResearchProjects => raise_counter(
            ctx.incarra_agent.research_projects,
            1,
        )?,
        _ => ctx.incarra_agent.research_projects,
    };
    let data_sources_connected = match counter {
        InteractionCounter::DataSourcesConnected => raise_counter(
            ctx.incarra_agent.data_sources_connected,
            1,
        )?,
        _ => ctx.incarra_agent.data_sources_connected,
    };
    let ai_conversations = match counter {
        InteractionCounter::AiConversations => raise_counter(
            ctx.incarra_agent.ai_conversations,
            1,
        )?,
        _ => ctx.incarra_agent.ai_conversations,
    };
    let old_level = ctx.incarra_agent.level;
    let new_level = level_of(experience);

    ctx.incarra_agent.total_interactions = total_interactions;
    ctx.incarra_agent.experience = experience;
    ctx.incarra_agent.last_interaction = now;
    ctx.incarra_agent.reputation = reputation;
    ctx.incarra_agent.reputation_score = reputation_score;
    ctx.incarra_agent.research_projects = research_projects;
    ctx.incarra_agent.data_sources_connected = data_sources_connected;
    ctx.incarra_agent.ai_conversations = ai_conversations;
    ctx.incarra_agent.level = new_level;

    let level_up = if new_level > old_level {
        Some(
            IncarraLevelUp {
                agent_id: ctx.agent_id,
                old_level,
                new_level,
                total_experience: experience,
            },
        )
    } else {
        None
    };
    let interaction = IncarraInteraction {
        agent_id: ctx.agent_id,
        interaction_type,
        experience_gained,
        new_reputation: reputation,
        timestamp: now,
    };
    Ok(InteractionEvents { level_up, interaction })
}

/// What the record shows of the identity of its agent.
pub fn get_carv_profile(ctx: &ReadIncarra) -> (outcome: Result<CarvProfile, ErrorCode>)
    ensures
        outcome matches Ok(profile) && profile.describes(ctx.incarra_agent@),
{
    let agent = &ctx.incarra_agent;
    Ok(
        CarvProfile {
            carv_id: agent.carv_id.clone(),
            is_verified: agent.carv_verified,
            reputation_score: agent.reputation_score,
            credentials_count: agent.credentials.len() as u64,
            achievements_count: agent.achievements.len() as u64,
            total_interactions: agent.total_interactions,
            level: agent.level,
        },
    )
}

/// Adds a knowledge area to the record.
///
/// The name must have at most 30 bytes. An area that the record holds already
/// is not added again: the operation succeeds, changes nothing and hands back
/// no event. A new area needs room, the record holding fewer than 20; it is
/// added at the end of the list and earns 2 on both reputation counters.
///
/// Only the owner may add a knowledge area.
pub fn add_knowledge_area(ctx: &mut UpdateIncarra, knowledge_area: String) -> (outcome: Result<
    Option<KnowledgeAreaAdded>,
    ErrorCode,
>)
    ensures
        final(ctx).agent_id == old(ctx).agent_id,
        final(ctx).owner == old(ctx).owner,
        ({
            let before = old(ctx).incarra_agent@;
            let after = final(ctx).incarra_agent@;
            let call = Call::AddKnowledgeArea {
                caller: old(ctx).owner@,
                knowledge_area: knowledge_area@,
            };
            &&& after == step(before, call)
            &&& before.wf() ==> after.wf()
            &&& before.evolves_to(after)
            &&& match outcome {
                Ok(event) => {
                    &&& add_knowledge_area_rejection(before, old(ctx).owner@, knowledge_area@)
                        is None
                    &&& after == before.with_knowledge_area(knowledge_area@)
                    &&& event is None <==> before.knowledge_areas.contains(knowledge_area@)
                    &&& event is None ==> *final(ctx) == *old(ctx)
                    &&& event matches Some(added) ==> added.describes(old(ctx).agent_id, after)
                },
                Err(reason) => {
                    &&& add_knowledge_area_rejection(before, old(ctx).owner@, knowledge_area@)
                        == Some(reason)
                    &&& *final(ctx) == *old(ctx)
                },
            }
        }),
{
    check_owner(&ctx.incarra_agent, &ctx.owner)?;
    check_knowledge_area(&knowledge_area)?;
    if holds_knowledge_area(&ctx.incarra_agent, &knowledge_area) {
        return Ok(None);
    }
    check_knowledge_area_capacity(&ctx.incarra_agent)?;
    let reputation = raise_counter(ctx.incarra_agent.reputation, KNOWLEDGE_AREA_REPUTATION)?;
    let reputation_score = raise_counter(
        ctx.incarra_agent.reputation_score,
        KNOWLEDGE_AREA_REPUTATION,
    )?;

    let event_area = knowledge_area.clone();
    ctx.incarra_agent.knowledge_areas.push(knowledge_area);
    ctx.incarra_agent.reputation = reputation;
    ctx.incarra_agent.reputation_score = reputation_score;
    assert(ctx.incarra_agent@.knowledge_areas =~= old(ctx).incarra_agent@.knowledge_areas.push(
        knowledge_area@,
    ));
    let event = KnowledgeAreaAdded {
        agent_id: ctx.agent_id,
        knowledge_area: event_area,
        total_areas: ctx.incarra_agent.knowledge_areas.len() as u64,
    };
    Ok(Some(event))
}

/// Replaces the personality of the agent. The new one must have at most 200
/// bytes. Only the owner may replace it.
pub fn update_personality(ctx: &mut UpdateIncarra, new_personality: String) -> (outcome: Result<
    (),
    ErrorCode,
>)
    ensures
        final(ctx).agent_id == old(ctx).agent_id,
        final(ctx).owner == old(ctx).owner,
        ({
            let before = old(ctx).incarra_agent@;
            let after = final(ctx).incarra_agent@;
            let call = Call::UpdatePersonality {
                caller: old(ctx).owner@,
                new_personality: new_personality@,
            };
            &&& after == step(before, call)
            &&& before.wf() ==> after.wf()
            &&& before.evolves_to(after)
            &&& match outcome {
                Ok(()) => {
                    &&& update_personality_rejection(before, old(ctx).owner@, new_personality@)
                        is None
                    &&& after == before.with_personality(new_personality@)
                },
                Err(reason) => {
                    &&& update_personality_rejection(before, old(ctx).owner@, new_personality@)
                        == Some(reason)
                    &&& *final(ctx) == *old(ctx)
                },
            }
        }),
{
    check_owner(&ctx.incarra_agent, &ctx.owner)?;
    check_personality(&new_personality)?;
    ctx.incarra_agent.personality = new_personality;
    Ok(())
}

/// What the record shows of its agent as a whole.
pub fn get_incarra_context(ctx: &ReadIncarra) -> (outcome: Result<IncarraContext, ErrorCode>)
    ensures
        outcome matches Ok(context) && context.describes(ctx.incarra_agent@),
{
    let agent = &ctx.incarra_agent;
    let knowledge_areas = agent.knowledge_areas.clone();
    assert(texts(knowledge_areas@) =~= texts(agent.knowledge_areas@));
    Ok(
        IncarraContext {
            owner: agent.owner,
            agent_name: agent.agent_name.clone(),
            personality: agent.personality.clone(),
            level: agent.level,
            experience: agent.experience,
            reputation: agent.reputation,
            knowledge_areas,
            total_interactions: agent.total_interactions,
            research_projects: agent.research_projects,
            ai_conversations: agent.ai_conversations,
            carv_id: agent.carv_id.clone(),
            carv_verified: agent.carv_verified,
            reputation_score: agent.reputation_score,
        },
    )
}

/// Deactivates the record. A record that is inactive stays so: no operation
/// activates it again. Only the owner may deactivate.
pub fn deactivate_incarra(ctx: &mut UpdateIncarra) -> (outcome: Result<(), ErrorCode>)
    ensures
        final(ctx).agent_id == old(ctx).agent_id,
        final(ctx).owner == old(ctx).owner,
        ({
            let before = old(ctx).incarra_agent@;
            let after = final(ctx).incarra_agent@;
            let call = Call::Deactivate { caller: old(ctx).owner@ };
            &&& after == step(before, call)
            &&& before.wf() ==> after.wf()
            &&& before.evolves_to(after)
            &&& match outcome {
                Ok(()) => {
                    &&& owner_rejection(before, old(ctx).owner@) is None
                    &&& after == before.deactivated()
                    &&& !after.is_active
                },
                Err(reason) => {
                    &&& owner_rejection(before, old(ctx).owner@) == Some(reason)
                    &&& *final(ctx) == *old(ctx)
                },
            }
        }),
{
    check_owner(&ctx.incarra_agent, &ctx.owner)?;
    ctx.incarra_agent.is_active = false;
    Ok(())
}

} // verus!
