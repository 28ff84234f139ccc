use incarra_contract::accounts::CreateIncarraAgent;
use incarra_contract::accounts::UpdateIncarra;
use incarra_contract::error::ErrorCode;
use incarra_contract::error::ErrorKind;
use incarra_contract::incarra_agent::create_incarra_agent;
use incarra_contract::incarra_agent::interact_with_incarra;
use incarra_contract::incarra_agent::verify_carv_id;
use incarra_contract::key::IdentityKey;
use incarra_contract::types::InteractionCounter;
use incarra_contract::types::InteractionType;
use incarra_contract::progression::base_reputation_of;
use incarra_contract::progression::counter_of;
use incarra_contract::progression::level_of;
use incarra_contract::progression::reputation_gain_of;

fn player() -> IdentityKey {
    IdentityKey::new([1u8; 32])
}

fn address() -> IdentityKey {
    IdentityKey::new([2u8; 32])
}

fn fresh() -> UpdateIncarra {
    let ctx = CreateIncarraAgent { agent_id: address(), user: player() };
    let (agent, _) = create_incarra_agent(
        &ctx,
        100,
        "Turing".to_string(),
        "patient".to_string(),
        "0xabc".to_string(),
        "sig".to_string(),
    )
    .unwrap();
    UpdateIncarra { agent_id: address(), incarra_agent: agent, owner: player() }
}

fn counters_add_up(ctx: &UpdateIncarra) -> bool {
    let agent = &ctx.incarra_agent;
    agent.research_projects + agent.data_sources_connected + agent.ai_conversations
        == agent.total_interactions
}

#[test]
fn level_is_one_per_hundred_experience() {
    assert_eq!(level_of(0), 1);
    assert_eq!(level_of(99), 1);
    assert_eq!(level_of(100), 2);
    assert_eq!(level_of(199), 2);
    assert_eq!(level_of(200), 3);
    assert_eq!(level_of(12_345), 124);
    assert_eq!(level_of(u64::MAX), u64::MAX / 100 + 1);
}

#[test]
fn each_kind_earns_its_reputation() {
    assert_eq!(base_reputation_of(InteractionType::ResearchQuery), 3);
    assert_eq!(base_reputation_of(InteractionType::DataAnalysis), 5);
    assert_eq!(base_reputation_of(InteractionType::Conversation), 1);
    assert_eq!(base_reputation_of(InteractionType::ProblemSolving), 4);

    assert_eq!(reputation_gain_of(InteractionType::ResearchQuery, false), 3);
    assert_eq!(reputation_gain_of(InteractionType::DataAnalysis, false), 5);
    assert_eq!(reputation_gain_of(InteractionType::Conversation, false), 1);
    assert_eq!(reputation_gain_of(InteractionType::ProblemSolving, false), 4);

    assert_eq!(reputation_gain_of(InteractionType::ResearchQuery, true), 4);
    assert_eq!(reputation_gain_of(InteractionType::DataAnalysis, true), 6);
    assert_eq!(reputation_gain_of(InteractionType::Conversation, true), 2);
    assert_eq!(reputation_gain_of(InteractionType::ProblemSolving, true), 5);
}

#[test]
fn each_kind_has_its_counter() {
    assert_eq!(counter_of(InteractionType::ResearchQuery), InteractionCounter::ResearchProjects);
    assert_eq!(counter_of(InteractionType::ProblemSolving), InteractionCounter::ResearchProjects);
    assert_eq!(
        counter_of(InteractionType::DataAnalysis),
        InteractionCounter::DataSourcesConnected
    );
    assert_eq!(counter_of(InteractionType::Conversation), InteractionCounter::AiConversations);
}

#[test]
fn five_data_analyses_of_twenty_reach_level_two_at_the_fifth() {
    let mut ctx = fresh();
    assert_eq!(ctx.incarra_agent.experience, 0);
    let mut level_ups = 0;
    for call in 1..=5u64 {
        let events = interact_with_incarra(
            &mut ctx,
            100 + call as i64,
            InteractionType::DataAnalysis,
            20,
            "context".to_string(),
        )
        .unwrap();
        assert_eq!(ctx.incarra_agent.experience, 20 * call);
        assert_eq!(ctx.incarra_agent.level, ctx.incarra_agent.experience / 100 + 1);
        assert_eq!(ctx.incarra_agent.total_interactions, call);
        assert_eq!(events.interaction.new_reputation, 5 * call);
        if call < 5 {
            assert_eq!(events.level_up, None);
            assert_eq!(ctx.incarra_agent.level, 1);
        } else {
            let level_up = events.level_up.unwrap();
            assert_eq!(level_up.agent_id, address());
            assert_eq!(level_up.old_level, 1);
            assert_eq!(level_up.new_level, 2);
            assert_eq!(level_up.total_experience, 100);
            level_ups += 1;
        }
    }
    assert_eq!(level_ups, 1);
    assert_eq!(ctx.incarra_agent.experience, 100);
    assert_eq!(ctx.incarra_agent.level, 2);
    assert_eq!(ctx.incarra_agent.reputation, 25);
    assert_eq!(ctx.incarra_agent.reputation_score, 25);
    assert_eq!(ctx.incarra_agent.data_sources_connected, 5);
    assert_eq!(ctx.incarra_agent.research_projects, 0);
    assert_eq!(ctx.incarra_agent.ai_conversations, 0);
    assert_eq!(ctx.incarra_agent.last_interaction, 105);
}

#[test]
fn five_data_analyses_on_a_verified_record_earn_the_bonus_each_time() {
    let mut ctx = fresh();
    verify_carv_id(&mut ctx, 101, "0123456789".to_string()).unwrap();
    assert_eq!(ctx.incarra_agent.reputation, 50);
    for _ in 0..5 {
        interact_with_incarra(&mut ctx, 102, InteractionType::DataAnalysis, 20, String::new())
            .unwrap();
    }
    assert_eq!(ctx.incarra_agent.experience, 100);
    assert_eq!(ctx.incarra_agent.level, 2);
    // 5 x (5 + 1) on top of the verification bonus of 50.
    assert_eq!(ctx.incarra_agent.reputation, 80);
    // The verification bonus does not count towards the score.
    assert_eq!(ctx.incarra_agent.reputation_score, 30);
}

#[test]
fn an_interaction_reports_what_was_recorded() {
    let mut ctx = fresh();
    let events = interact_with_incarra(
        &mut ctx,
        777,
        InteractionType::ProblemSolving,
        30,
        "a hard one".to_string(),
    )
    .unwrap();
    assert_eq!(events.level_up, None);
    assert_eq!(events.interaction.agent_id, address());
    assert_eq!(events.interaction.interaction_type, InteractionType::ProblemSolving);
    assert_eq!(events.interaction.experience_gained, 30);
    assert_eq!(events.interaction.new_reputation, 4);
    assert_eq!(events.interaction.timestamp, 777);
    assert_eq!(ctx.incarra_agent.last_interaction, 777);
    assert_eq!(ctx.incarra_agent.created_at, 100);
}

#[test]
fn the_counters_of_the_kinds_add_up_to_the_total() {
    let mut ctx = fresh();
    let kinds = [
        InteractionType::ResearchQuery,
        InteractionType::DataAnalysis,
        InteractionType::Conversation,
        InteractionType::ProblemSolving,
        InteractionType::Conversation,
        InteractionType::ResearchQuery,
        InteractionType::ProblemSolving,
    ];
    let mut calls = 0;
    for kind in kinds {
        interact_with_incarra(&mut ctx, 200, kind, 7, String::new()).unwrap();
        calls += 1;
        assert_eq!(ctx.incarra_agent.total_interactions, calls);
        assert!(counters_add_up(&ctx));
    }
    assert_eq!(ctx.incarra_agent.total_interactions, 7);
    assert_eq!(ctx.incarra_agent.research_projects, 4);
    assert_eq!(ctx.incarra_agent.data_sources_connected, 1);
    assert_eq!(ctx.incarra_agent.ai_conversations, 2);
    assert_eq!(ctx.incarra_agent.experience, 49);
    // 3 + 5 + 1 + 4 + 1 + 3 + 4
    assert_eq!(ctx.incarra_agent.reputation, 21);
    assert_eq!(ctx.incarra_agent.reputation_score, 21);
}

#[test]
fn level_follows_experience_after_every_call() {
    let mut ctx = fresh();
    let gains = [0u64, 1, 98, 1, 100, 250, 49, 1, 0, 1_000_000];
    for gain in gains {
        interact_with_incarra(&mut ctx, 1, InteractionType::Conversation, gain, String::new())
            .unwrap();
        assert_eq!(ctx.incarra_agent.level, ctx.incarra_agent.experience / 100 + 1);
    }
    assert_eq!(ctx.incarra_agent.experience, 1_000_500);
    assert_eq!(ctx.incarra_agent.level, 10_006);
}

#[test]
fn a_jump_over_several_levels_is_one_rise_from_the_old_level() {
    let mut ctx = fresh();
    let events =
        interact_with_incarra(&mut ctx, 1, InteractionType::ResearchQuery, 250, String::new())
            .unwrap();
    let level_up = events.level_up.unwrap();
    assert_eq!(level_up.old_level, 1);
    assert_eq!(level_up.new_level, 3);
    assert_eq!(level_up.total_experience, 250);
    assert_eq!(ctx.incarra_agent.level, 3);

    let events =
        interact_with_incarra(&mut ctx, 2, InteractionType::ResearchQuery, 49, String::new())
            .unwrap();
    assert_eq!(events.level_up, None);
    assert_eq!(ctx.incarra_agent.level, 3);
}

#[test]
fn an_interaction_without_experience_still_counts() {
    let mut ctx = fresh();
    let events =
        interact_with_incarra(&mut ctx, 5, InteractionType::Conversation, 0, String::new())
            .unwrap();
    assert_eq!(events.level_up, None);
    assert_eq!(ctx.incarra_agent.total_interactions, 1);
    assert_eq!(ctx.incarra_agent.ai_conversations, 1);
    assert_eq!(ctx.incarra_agent.experience, 0);
    assert_eq!(ctx.incarra_agent.level, 1);
    assert_eq!(ctx.incarra_agent.reputation, 1);
}

#[test]
fn a_stranger_records_no_interaction() {
    let mut ctx = fresh();
    ctx.owner = IdentityKey::new([9u8; 32]);
    let before = ctx.clone();
    let outcome =
        interact_with_incarra(&mut ctx, 5, InteractionType::Conversation, 10, String::new());
    assert_eq!(outcome, Err(ErrorCode::Unauthorized));
    assert_eq!(ctx, before);
}

#[test]
fn experience_that_the_counter_cannot_take_is_rejected() {
    let mut ctx = fresh();
    interact_with_incarra(&mut ctx, 5, InteractionType::Conversation, 1, String::new()).unwrap();
    let before = ctx.clone();
    let outcome =
        interact_with_incarra(&mut ctx, 6, InteractionType::Conversation, u64::MAX, String::new());
    let reason = outcome.unwrap_err();
    assert_eq!(reason, ErrorCode::CounterOverflow);
    assert_eq!(reason.kind(), ErrorKind::CapacityExceeded);
    assert_eq!(ctx, before);

    let events = interact_with_incarra(
        &mut ctx,
        7,
        InteractionType::Conversation,
        u64::MAX - 1,
        String::new(),
    )
    .unwrap();
    assert_eq!(ctx.incarra_agent.experience, u64::MAX);
    assert_eq!(ctx.incarra_agent.level, u64::MAX / 100 + 1);
    assert_eq!(events.level_up.unwrap().new_level, 184_467_440_737_095_517);
}

#[test]
fn a_full_counter_rejects_the_interaction() {
    let mut ctx = fresh();
    ctx.incarra_agent.total_interactions = u64::MAX;
    ctx.incarra_agent.ai_conversations = u64::MAX;
    let before = ctx.clone();
    let outcome =
        interact_with_incarra(&mut ctx, 6, InteractionType::Conversation, 1, String::new());
    assert_eq!(outcome, Err(ErrorCode::CounterOverflow));
    assert_eq!(ctx, before);

    let mut ctx = fresh();
    ctx.incarra_agent.reputation = u64::MAX - 4;
    let before = ctx.clone();
    let outcome =
        interact_with_incarra(&mut ctx, 6, InteractionType::DataAnalysis, 1, String::new());
    assert_eq!(outcome, Err(ErrorCode::CounterOverflow));
    assert_eq!(ctx, before);
    let outcome =
        interact_with_incarra(&mut ctx, 6, InteractionType::ProblemSolving, 1, String::new());
    assert!(outcome.is_ok());
    assert_eq!(ctx.incarra_agent.reputation, u64::MAX);
}
