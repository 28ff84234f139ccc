use incarra_contract::accounts::CreateIncarraAgent;
use incarra_contract::accounts::ReadIncarra;
use incarra_contract::accounts::UpdateIncarra;
use incarra_contract::error::ErrorCode;
use incarra_contract::error::ErrorKind;
use incarra_contract::incarra_agent::create_incarra_agent;
use incarra_contract::incarra_agent::deactivate_incarra;
use incarra_contract::incarra_agent::get_carv_profile;
use incarra_contract::incarra_agent::get_incarra_context;
use incarra_contract::incarra_agent::update_personality;
use incarra_contract::incarra_agent::verify_carv_id;
use incarra_contract::key::IdentityKey;
use incarra_contract::limits;
use incarra_contract::types::IncarraAgent;

const CARV_ID: &str = "0x52908400098527886E0F7030069857D2E4169EE7";

fn owner_key() -> IdentityKey {
    IdentityKey::new([7u8; 32])
}

fn stranger_key() -> IdentityKey {
    let mut bytes = [7u8; 32];
    bytes[31] = 8;
    IdentityKey::new(bytes)
}

fn record_address() -> IdentityKey {
    IdentityKey::new([42u8; 32])
}

fn new_agent() -> IncarraAgent {
    let ctx = CreateIncarraAgent { agent_id: record_address(), user: owner_key() };
    let (agent, _) = create_incarra_agent(
        &ctx,
        1_700_000_000,
        "Ada".to_string(),
        "curious and precise".to_string(),
        CARV_ID.to_string(),
        "signature".to_string(),
    )
    .unwrap();
    agent
}

fn owned(agent: IncarraAgent) -> UpdateIncarra {
    UpdateIncarra { agent_id: record_address(), incarra_agent: agent, owner: owner_key() }
}

#[test]
fn create_sets_every_field_of_a_new_record() {
    let ctx = CreateIncarraAgent { agent_id: record_address(), user: owner_key() };
    let (agent, event) = create_incarra_agent(
        &ctx,
        1_700_000_000,
        "Ada".to_string(),
        "curious and precise".to_string(),
        CARV_ID.to_string(),
        "signature".to_string(),
    )
    .unwrap();

    assert_eq!(agent.owner, owner_key());
    assert_eq!(agent.agent_name, "Ada");
    assert_eq!(agent.personality, "curious and precise");
    assert_eq!(agent.created_at, 1_700_000_000);
    assert_eq!(agent.last_interaction, 1_700_000_000);
    assert_eq!(agent.carv_id, CARV_ID);
    assert!(!agent.carv_verified);
    assert_eq!(agent.verification_signature, "signature");
    assert_eq!(agent.reputation_score, 0);
    assert!(agent.credentials.is_empty());
    assert!(agent.achievements.is_empty());
    assert_eq!(agent.level, 1);
    assert_eq!(agent.experience, 0);
    assert_eq!(agent.reputation, 0);
    assert_eq!(agent.total_interactions, 0);
    assert_eq!(agent.research_projects, 0);
    assert_eq!(agent.data_sources_connected, 0);
    assert_eq!(agent.ai_conversations, 0);
    assert!(agent.knowledge_areas.is_empty());
    assert!(agent.is_active);

    assert_eq!(event.agent_id, record_address());
    assert_eq!(event.owner, owner_key());
    assert_eq!(event.agent_name, "Ada");
    assert_eq!(event.carv_id, CARV_ID);
}

#[test]
fn create_accepts_texts_at_their_bounds() {
    let ctx = CreateIncarraAgent { agent_id: record_address(), user: owner_key() };
    let outcome = create_incarra_agent(
        &ctx,
        0,
        "n".repeat(50),
        "p".repeat(200),
        "c".repeat(42),
        String::new(),
    );
    let (agent, _) = outcome.unwrap();
    assert_eq!(agent.agent_name.len(), 50);
    assert_eq!(agent.personality.len(), 200);
    assert_eq!(agent.carv_id.len(), 42);
}

#[test]
fn create_rejects_a_name_of_51_characters() {
    let ctx = CreateIncarraAgent { agent_id: record_address(), user: owner_key() };
    let outcome = create_incarra_agent(
        &ctx,
        0,
        "n".repeat(51),
        "p".to_string(),
        CARV_ID.to_string(),
        String::new(),
    );
    let reason = outcome.unwrap_err();
    assert_eq!(reason, ErrorCode::AgentNameTooLong);
    assert_eq!(reason.kind(), ErrorKind::FieldTooLong);
}

#[test]
fn create_rejects_a_personality_of_201_characters() {
    let ctx = CreateIncarraAgent { agent_id: record_address(), user: owner_key() };
    let outcome = create_incarra_agent(
        &ctx,
        0,
        "Ada".to_string(),
        "p".repeat(201),
        CARV_ID.to_string(),
        String::new(),
    );
    let reason = outcome.unwrap_err();
    assert_eq!(reason, ErrorCode::PersonalityTooLong);
    assert_eq!(reason.kind(), ErrorKind::FieldTooLong);
}

#[test]
fn create_rejects_an_identity_claim_of_43_characters() {
    let ctx = CreateIncarraAgent { agent_id: record_address(), user: owner_key() };
    let outcome = create_incarra_agent(
        &ctx,
        0,
        "Ada".to_string(),
        "p".to_string(),
        "c".repeat(43),
        String::new(),
    );
    let reason = outcome.unwrap_err();
    assert_eq!(reason, ErrorCode::CarvIdTooLong);
    assert_eq!(reason.kind(), ErrorKind::FieldTooLong);
}

#[test]
fn create_rejects_an_empty_identity_claim() {
    let ctx = CreateIncarraAgent { agent_id: record_address(), user: owner_key() };
    let outcome = create_incarra_agent(
        &ctx,
        0,
        "Ada".to_string(),
        "p".to_string(),
        String::new(),
        String::new(),
    );
    let reason = outcome.unwrap_err();
    assert_eq!(reason, ErrorCode::InvalidCarvId);
    assert_eq!(reason.kind(), ErrorKind::IdentityFormatInvalid);
}

#[test]
fn create_names_the_first_text_that_is_out_of_bounds() {
    let ctx = CreateIncarraAgent { agent_id: record_address(), user: owner_key() };
    let outcome = create_incarra_agent(
        &ctx,
        0,
        "n".repeat(51),
        "p".repeat(201),
        String::new(),
        String::new(),
    );
    assert_eq!(outcome.unwrap_err(), ErrorCode::AgentNameTooLong);
    let outcome = create_incarra_agent(
        &ctx,
        0,
        "Ada".to_string(),
        "p".repeat(201),
        String::new(),
        String::new(),
    );
    assert_eq!(outcome.unwrap_err(), ErrorCode::PersonalityTooLong);
}

#[test]
fn lengths_are_counted_in_bytes() {
    let ctx = CreateIncarraAgent { agent_id: record_address(), user: owner_key() };
    // 26 characters of two bytes each: 52 bytes.
    let outcome = create_incarra_agent(
        &ctx,
        0,
        "\u{e9}".repeat(26),
        "p".to_string(),
        CARV_ID.to_string(),
        String::new(),
    );
    assert_eq!(outcome.unwrap_err(), ErrorCode::AgentNameTooLong);
    // 25 characters of two bytes each: 50 bytes.
    let outcome = create_incarra_agent(
        &ctx,
        0,
        "\u{e9}".repeat(25),
        "p".to_string(),
        CARV_ID.to_string(),
        String::new(),
    );
    assert!(outcome.is_ok());
}

#[test]
fn verify_marks_the_identity_and_grants_the_bonus() {
    let mut ctx = owned(new_agent());
    let event = verify_carv_id(&mut ctx, 1_700_000_100, "0123456789".to_string())
        .unwrap()
        .unwrap();
    assert!(ctx.incarra_agent.carv_verified);
    assert_eq!(ctx.incarra_agent.reputation, 50);
    assert_eq!(ctx.incarra_agent.reputation_score, 0);
    assert_eq!(event.agent_id, record_address());
    assert_eq!(event.carv_id, CARV_ID);
    assert_eq!(event.timestamp, 1_700_000_100);
}

#[test]
fn verify_a_second_time_changes_nothing() {
    let mut ctx = owned(new_agent());
    verify_carv_id(&mut ctx, 1, "0123456789".to_string()).unwrap();
    let before = ctx.clone();
    let outcome = verify_carv_id(&mut ctx, 2, "9876543210".to_string());
    assert_eq!(outcome, Ok(None));
    assert_eq!(ctx, before);
    assert_eq!(ctx.incarra_agent.reputation, 50);
}

#[test]
fn verify_rejects_a_proof_of_nine_characters() {
    let mut ctx = owned(new_agent());
    let before = ctx.clone();
    let outcome = verify_carv_id(&mut ctx, 1, "012345678".to_string());
    let reason = outcome.unwrap_err();
    assert_eq!(reason, ErrorCode::InvalidVerificationProof);
    assert_eq!(reason.kind(), ErrorKind::VerificationProofTooShort);
    assert_eq!(ctx, before);
    assert!(!ctx.incarra_agent.carv_verified);
}

#[test]
fn verify_rejects_a_short_proof_on_a_verified_record_too() {
    let mut ctx = owned(new_agent());
    verify_carv_id(&mut ctx, 1, "0123456789".to_string()).unwrap();
    let outcome = verify_carv_id(&mut ctx, 2, "short".to_string());
    assert_eq!(outcome, Err(ErrorCode::InvalidVerificationProof));
}

#[test]
fn verify_rejects_a_bonus_that_the_reputation_cannot_take() {
    let mut agent = new_agent();
    agent.reputation = u64::MAX - 49;
    let mut ctx = owned(agent);
    let before = ctx.clone();
    let outcome = verify_carv_id(&mut ctx, 1, "0123456789".to_string());
    let reason = outcome.unwrap_err();
    assert_eq!(reason, ErrorCode::CounterOverflow);
    assert_eq!(reason.kind(), ErrorKind::CapacityExceeded);
    assert_eq!(ctx, before);

    ctx.incarra_agent.reputation = u64::MAX - 50;
    assert!(verify_carv_id(&mut ctx, 1, "0123456789".to_string()).is_ok());
    assert_eq!(ctx.incarra_agent.reputation, u64::MAX);
}

#[test]
fn only_the_owner_changes_a_record() {
    let mut ctx = owned(new_agent());
    ctx.owner = stranger_key();
    let before = ctx.clone();

    let reason = verify_carv_id(&mut ctx, 1, "0123456789".to_string()).unwrap_err();
    assert_eq!(reason, ErrorCode::Unauthorized);
    assert_eq!(reason.kind(), ErrorKind::Unauthorized);
    assert_eq!(update_personality(&mut ctx, "other".to_string()), Err(ErrorCode::Unauthorized));
    assert_eq!(deactivate_incarra(&mut ctx), Err(ErrorCode::Unauthorized));
    assert_eq!(ctx, before);
}

#[test]
fn an_unauthorized_caller_is_named_before_any_other_fault() {
    let mut ctx = owned(new_agent());
    ctx.owner = stranger_key();
    assert_eq!(verify_carv_id(&mut ctx, 1, "x".to_string()), Err(ErrorCode::Unauthorized));
    assert_eq!(update_personality(&mut ctx, "p".repeat(201)), Err(ErrorCode::Unauthorized));
}

#[test]
fn update_personality_replaces_the_text() {
    let mut ctx = owned(new_agent());
    assert_eq!(update_personality(&mut ctx, "p".repeat(200)), Ok(()));
    assert_eq!(ctx.incarra_agent.personality, "p".repeat(200));
    assert_eq!(ctx.incarra_agent.agent_name, "Ada");
    assert_eq!(ctx.incarra_agent.reputation, 0);
}

#[test]
fn update_personality_rejects_201_characters() {
    let mut ctx = owned(new_agent());
    let before = ctx.clone();
    let reason = update_personality(&mut ctx, "p".repeat(201)).unwrap_err();
    assert_eq!(reason, ErrorCode::PersonalityTooLong);
    assert_eq!(reason.kind(), ErrorKind::FieldTooLong);
    assert_eq!(ctx, before);
}

#[test]
fn deactivate_is_one_way_and_does_not_lock_the_record() {
    let mut ctx = owned(new_agent());
    assert_eq!(deactivate_incarra(&mut ctx), Ok(()));
    assert!(!ctx.incarra_agent.is_active);
    assert_eq!(deactivate_incarra(&mut ctx), Ok(()));
    assert!(!ctx.incarra_agent.is_active);
    // An inactive record still takes every operation.
    assert_eq!(update_personality(&mut ctx, "still here".to_string()), Ok(()));
    assert!(!ctx.incarra_agent.is_active);
}

#[test]
fn profile_and_context_show_the_record() {
    let mut ctx = owned(new_agent());
    verify_carv_id(&mut ctx, 1, "0123456789".to_string()).unwrap();
    let before = ctx.incarra_agent.clone();
    let read = ReadIncarra { incarra_agent: ctx.incarra_agent };

    let profile = get_carv_profile(&read).unwrap();
    assert_eq!(profile.carv_id, CARV_ID);
    assert!(profile.is_verified);
    assert_eq!(profile.reputation_score, 0);
    assert_eq!(profile.credentials_count, 0);
    assert_eq!(profile.achievements_count, 0);
    assert_eq!(profile.total_interactions, 0);
    assert_eq!(profile.level, 1);

    let context = get_incarra_context(&read).unwrap();
    assert_eq!(context.owner, owner_key());
    assert_eq!(context.agent_name, "Ada");
    assert_eq!(context.personality, "curious and precise");
    assert_eq!(context.level, 1);
    assert_eq!(context.experience, 0);
    assert_eq!(context.reputation, 50);
    assert!(context.knowledge_areas.is_empty());
    assert_eq!(context.total_interactions, 0);
    assert_eq!(context.research_projects, 0);
    assert_eq!(context.ai_conversations, 0);
    assert_eq!(context.carv_id, CARV_ID);
    assert!(context.carv_verified);
    assert_eq!(context.reputation_score, 0);

    assert_eq!(read.incarra_agent, before);
}

#[test]
fn keys_compare_by_their_bytes() {
    assert_eq!(owner_key(), IdentityKey::new([7u8; 32]));
    assert_ne!(owner_key(), stranger_key());
    assert!(owner_key().same_as(&owner_key()));
    assert!(!owner_key().same_as(&stranger_key()));
    assert_eq!(stranger_key().to_bytes()[31], 8);
}

#[test]
fn every_reason_has_its_class_and_its_text() {
    assert_eq!(ErrorCode::AgentNameTooLong.kind(), ErrorKind::FieldTooLong);
    assert_eq!(ErrorCode::PersonalityTooLong.kind(), ErrorKind::FieldTooLong);
    assert_eq!(ErrorCode::KnowledgeAreaTooLong.kind(), ErrorKind::FieldTooLong);
    assert_eq!(ErrorCode::CarvIdTooLong.kind(), ErrorKind::FieldTooLong);
    assert_eq!(ErrorCode::TooManyKnowledgeAreas.kind(), ErrorKind::CapacityExceeded);
    assert_eq!(ErrorCode::TooManyCredentials.kind(), ErrorKind::CapacityExceeded);
    assert_eq!(ErrorCode::TooManyAchievements.kind(), ErrorKind::CapacityExceeded);
    assert_eq!(ErrorCode::CounterOverflow.kind(), ErrorKind::CapacityExceeded);
    assert_eq!(ErrorCode::InvalidCarvId.kind(), ErrorKind::IdentityFormatInvalid);
    assert_eq!(ErrorCode::CarvIdNotVerified.kind(), ErrorKind::IdentityNotVerified);
    assert_eq!(ErrorCode::InvalidVerificationProof.kind(), ErrorKind::VerificationProofTooShort);
    assert_eq!(ErrorCode::Unauthorized.kind(), ErrorKind::Unauthorized);
    assert_eq!(ErrorCode::AgentInactive.kind(), ErrorKind::RecordInactive);

    assert_eq!(
        ErrorCode::AgentNameTooLong.message(),
        "Agent name is too long (max 50 characters)."
    );
    assert_eq!(
        ErrorCode::PersonalityTooLong.message(),
        "Personality description is too long (max 200 characters)."
    );
    assert_eq!(
        ErrorCode::KnowledgeAreaTooLong.message(),
        "Knowledge area name is too long (max 30 characters)."
    );
    assert_eq!(ErrorCode::TooManyKnowledgeAreas.message(), "Too many knowledge areas (max 20).");
    assert_eq!(ErrorCode::AgentInactive.message(), "Agent is currently inactive.");
    assert_eq!(ErrorCode::InvalidCarvId.message(), "Invalid Carv ID format.");
    assert_eq!(ErrorCode::CarvIdNotVerified.message(), "Carv ID is not verified.");
    assert_eq!(ErrorCode::InvalidVerificationProof.message(), "Invalid verification proof.");
    assert_eq!(ErrorCode::TooManyCredentials.message(), "Too many credentials (max 10).");
    assert_eq!(ErrorCode::TooManyAchievements.message(), "Too many achievements (max 20).");
    assert_eq!(ErrorCode::CarvIdTooLong.message(), "Carv ID is too long (max 42 characters).");
    assert_eq!(ErrorCode::Unauthorized.message(), "The caller does not own this agent.");
    assert_eq!(ErrorCode::CounterOverflow.message(), "A counter of the agent is full.");
}

#[test]
fn the_space_of_a_record_is_the_sum_of_its_fields() {
    assert_eq!(limits::ACCOUNT_SPACE, 4052);
    assert_eq!(limits::MAX_AGENT_NAME_LEN, 50);
    assert_eq!(limits::MAX_PERSONALITY_LEN, 200);
    assert_eq!(limits::MAX_KNOWLEDGE_AREA_LEN, 30);
    assert_eq!(limits::MAX_CARV_ID_LEN, 42);
    assert_eq!(limits::MAX_KNOWLEDGE_AREAS, 20);
    assert_eq!(limits::MAX_CREDENTIALS, 10);
    assert_eq!(limits::MAX_ACHIEVEMENTS, 20);
}
