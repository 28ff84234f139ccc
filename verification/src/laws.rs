//! What holds of the operations taken together, proved of the model in which
//! their contracts are stated.

use vstd::prelude::*;
use vstd::utf8::encode_scalar;
use vstd::utf8::encode_utf8;
use vstd::utf8::is_ascii_chars;
use vstd::utf8::is_ascii_chars_encode_utf8;
use crate::error::ErrorCode;
use crate::error::ErrorKind;
use crate::limits::CREDENTIAL_SCORE;
use crate::limits::LENGTH_PREFIX_SIZE;
use crate::limits::MAX_AGENT_NAME_LEN;
use crate::limits::MAX_CARV_ID_LEN;
use crate::limits::MAX_CREDENTIALS;
use crate::limits::MAX_KNOWLEDGE_AREAS;
use crate::limits::MAX_KNOWLEDGE_AREA_LEN;
use crate::limits::MAX_PERSONALITY_LEN;
use crate::limits::MIN_VERIFICATION_PROOF_LEN;
use crate::machine::accepted_interactions;
use crate::machine::run;
use crate::machine::step;
use crate::machine::Call;
use crate::model::byte_len;
use crate::model::create_rejection;
use crate::model::level_for;
use crate::model::AgentState;
use crate::model::CredentialState;

verus! {

/// A text has at least as many bytes as characters, and at most four times as
/// many. So a text with more characters than a bound allows has more bytes than
/// it allows.
pub proof fn lemma_byte_len_bounds(text: Seq<char>)
    ensures
        text.len() <= byte_len(text) <= 4 * text.len(),
    decreases text.len(),
{
    if text.len() > 0 {
        let first = encode_scalar(text[0] as u32);
        assert(1 <= first.len() <= 4);
        lemma_byte_len_bounds(text.drop_first());
        assert(encode_utf8(text) == first + encode_utf8(text.drop_first()));
    }
}

/// ASCII text has as many bytes as characters.
pub proof fn lemma_byte_len_ascii(text: Seq<char>)
    requires
        is_ascii_chars(text),
    ensures
        byte_len(text) == text.len(),
{
    is_ascii_chars_encode_utf8(text);
}

/// The bytes that a text takes in the layout for which the space of a record
/// is counted: a length prefix, then the bytes of the text.
pub open spec fn stored_text_size(text: Seq<char>) -> nat {
    LENGTH_PREFIX_SIZE as nat + byte_len(text)
}

/// The bytes that a list of texts takes in that layout: a length prefix, then
/// the texts one after the other.
pub open spec fn stored_texts_size(texts: Seq<Seq<char>>) -> nat
    decreases texts.len(),
{
    if texts.len() == 0 {
        LENGTH_PREFIX_SIZE as nat
    } else {
        stored_texts_size(texts.drop_last()) + stored_text_size(texts.last())
    }
}

/// A list of texts, each within a bound, takes at most the length prefix and
/// as many times the most that one text takes as it has texts.
pub proof fn lemma_stored_texts_size_bound(texts: Seq<Seq<char>>, bound: nat)
    requires
        forall|i: int| 0 <= i < texts.len() ==> byte_len(#[trigger] texts[i]) <= bound,
    ensures
        stored_texts_size(texts) <= LENGTH_PREFIX_SIZE + texts.len() * (LENGTH_PREFIX_SIZE
            + bound),
    decreases texts.len(),
{
    if texts.len() > 0 {
        let front = texts.drop_last();
        assert forall|i: int| 0 <= i < front.len() implies byte_len(#[trigger] front[i])
            <= bound by {
            assert(front[i] == texts[i]);
        }
        lemma_stored_texts_size_bound(front, bound);
        assert(texts.len() * (LENGTH_PREFIX_SIZE + bound) == front.len() * (LENGTH_PREFIX_SIZE
            + bound) + (LENGTH_PREFIX_SIZE + bound)) by (nonlinear_arith)
            requires
                texts.len() == front.len() + 1,
        ;
    }
}

/// No bounded field of a record outgrows the space that is reserved for it:
/// in a record that meets its invariant, the name, the personality, the
/// identity claim and the list of knowledge areas each take at most the bytes
/// that the space of a record counts for them.
pub proof fn lemma_bounded_fields_fit(state: AgentState)
    requires
        state.wf(),
    ensures
        stored_text_size(state.agent_name) <= LENGTH_PREFIX_SIZE + MAX_AGENT_NAME_LEN,
        stored_text_size(state.personality) <= LENGTH_PREFIX_SIZE + MAX_PERSONALITY_LEN,
        stored_text_size(state.carv_id) <= LENGTH_PREFIX_SIZE + MAX_CARV_ID_LEN,
        stored_texts_size(state.knowledge_areas) <= LENGTH_PREFIX_SIZE + (LENGTH_PREFIX_SIZE
            + MAX_KNOWLEDGE_AREA_LEN) * MAX_KNOWLEDGE_AREAS,
        stored_texts_size(state.knowledge_areas) <= 684,
{
    lemma_stored_texts_size_bound(state.knowledge_areas, MAX_KNOWLEDGE_AREA_LEN as nat);
    assert(state.knowledge_areas.len() * (LENGTH_PREFIX_SIZE + MAX_KNOWLEDGE_AREA_LEN) <= 20 * 34)
        by (nonlinear_arith)
        requires
            state.knowledge_areas.len() <= 20,
            LENGTH_PREFIX_SIZE + MAX_KNOWLEDGE_AREA_LEN == 34,
    ;
}

/// What a state evolves to, and that to a third, the state evolves to the third.
pub proof fn lemma_evolves_to_transitive(first: AgentState, second: AgentState, third: AgentState)
    requires
        first.evolves_to(second),
        second.evolves_to(third),
    ensures
        first.evolves_to(third),
{
    assert(first.credentials.is_prefix_of(third.credentials));
    assert(first.achievements.is_prefix_of(third.achievements));
    assert(first.knowledge_areas.is_prefix_of(third.knowledge_areas));
}

/// One call, accepted or not, keeps the invariant of a record, and changes the
/// record only as a record may change.
pub proof fn lemma_step_keeps_invariant(state: AgentState, call: Call)
    ensures
        state.wf() ==> step(state, call).wf(),
        state.evolves_to(step(state, call)),
{
    let next = step(state, call);
    assert(state.credentials.is_prefix_of(next.credentials));
    assert(state.achievements.is_prefix_of(next.achievements));
    assert(state.knowledge_areas.is_prefix_of(next.knowledge_areas));
}

/// Whatever calls come, from whomever and in whatever order, after each of
/// them the invariant of the record holds, and the record has changed from the
/// first state only as a record may change: the owner is the same, no counter
/// is lower, a verified identity is still verified, the lists have only grown.
pub proof fn lemma_run_keeps_invariant(state: AgentState, calls: Seq<Call>)
    requires
        state.wf(),
    ensures
        forall|n: int|
            0 <= n <= calls.len() ==> (#[trigger] run(state, calls.take(n))).wf()
                && state.evolves_to(run(state, calls.take(n))),
{
    assert forall|n: int| 0 <= n <= calls.len() implies (#[trigger] run(
        state,
        calls.take(n),
    )).wf() && state.evolves_to(run(state, calls.take(n))) by {
        lemma_run_keeps_invariant_to_the_end(state, calls.take(n));
    }
}

/// After a sequence of calls the invariant of the record holds, and the record
/// has changed from the first state only as a record may change.
pub proof fn lemma_run_keeps_invariant_to_the_end(state: AgentState, calls: Seq<Call>)
    requires
        state.wf(),
    ensures
        run(state, calls).wf(),
        state.evolves_to(run(state, calls)),
    decreases calls.len(),
{
    if calls.len() > 0 {
        let before = run(state, calls.drop_last());
        lemma_run_keeps_invariant_to_the_end(state, calls.drop_last());
        lemma_step_keeps_invariant(before, calls.last());
        lemma_evolves_to_transitive(state, before, run(state, calls));
    }
}

/// After every call of every sequence of calls, the level is the one that
/// belongs to the experience: the experience divided by 100, rounded down, plus
/// one.
pub proof fn lemma_level_follows_experience(state: AgentState, calls: Seq<Call>)
    requires
        state.level == level_for(state.experience),
    ensures
        forall|n: int|
            0 <= n <= calls.len() ==> (#[trigger] run(state, calls.take(n))).level == run(
                state,
                calls.take(n),
            ).experience / 100 + 1,
{
    assert forall|n: int| 0 <= n <= calls.len() implies (#[trigger] run(
        state,
        calls.take(n),
    )).level == run(state, calls.take(n)).experience / 100 + 1 by {
        lemma_level_after_calls(state, calls.take(n));
    }
}

/// After a sequence of calls, the level is the one that belongs to the
/// experience.
pub proof fn lemma_level_after_calls(state: AgentState, calls: Seq<Call>)
    requires
        state.level == level_for(state.experience),
    ensures
        run(state, calls).level == level_for(run(state, calls).experience),
    decreases calls.len(),
{
    if calls.len() > 0 {
        lemma_level_after_calls(state, calls.drop_last());
    }
}

/// The level never falls: after a call, accepted or not, the level of a record
/// whose level belonged to its experience is at least what it was.
pub proof fn lemma_level_never_falls(state: AgentState, call: Call)
    requires
        state.level == level_for(state.experience),
    ensures
        state.level <= step(state, call).level,
{
}

/// A sequence of calls raises the total of interactions by the number of its
/// calls that record an interaction and are accepted, and the three counters
/// of the kinds together by as much.
pub proof fn lemma_interactions_counted(state: AgentState, calls: Seq<Call>)
    ensures
        run(state, calls).total_interactions == state.total_interactions + accepted_interactions(
            state,
            calls,
        ),
        ({
            let after = run(state, calls);
            after.research_projects + after.data_sources_connected + after.ai_conversations
                == state.research_projects + state.data_sources_connected
                + state.ai_conversations + accepted_interactions(state, calls)
        }),
        accepted_interactions(state, calls) <= calls.len(),
    decreases calls.len(),
{
    if calls.len() > 0 {
        lemma_interactions_counted(state, calls.drop_last());
    }
}

/// On a new record, after calls of which `n` recorded an interaction and were
/// accepted, the total of interactions is `n`, and the counters of the kinds
/// add up to it.
pub proof fn lemma_new_record_counts_interactions(
    owner: Seq<u8>,
    agent_name: Seq<char>,
    personality: Seq<char>,
    carv_id: Seq<char>,
    verification_signature: Seq<char>,
    now: int,
    calls: Seq<Call>,
)
    ensures
        ({
            let created = AgentState::created(
                owner,
                agent_name,
                personality,
                carv_id,
                verification_signature,
                now,
            );
            let after = run(created, calls);
            &&& after.total_interactions == accepted_interactions(created, calls)
            &&& after.research_projects + after.data_sources_connected + after.ai_conversations
                == after.total_interactions
        }),
{
    let created = AgentState::created(
        owner,
        agent_name,
        personality,
        carv_id,
        verification_signature,
        now,
    );
    lemma_interactions_counted(created, calls);
}

/// While the clock of the caller does not go back, the time of the last
/// interaction does not go back: a call made at a time that is not before the
/// last interaction leaves a time that is not before it.
pub proof fn lemma_last_interaction_follows_clock(state: AgentState, call: Call)
    requires
        call matches Call::Interact { now, .. } ==> state.last_interaction <= now,
    ensures
        state.last_interaction <= step(state, call).last_interaction,
        call matches Call::Interact { now, .. } ==> step(state, call).last_interaction <= now,
{
}

/// Adding a knowledge area a second time changes nothing: the list has the
/// length and the content that the first call left, and so has the rest of the
/// record. Where the first call was accepted, so is the second.
pub proof fn lemma_add_knowledge_area_idempotent(
    state: AgentState,
    caller: Seq<u8>,
    knowledge_area: Seq<char>,
)
    ensures
        ({
            let call = Call::AddKnowledgeArea { caller, knowledge_area };
            let once = step(state, call);
            let twice = step(once, call);
            &&& twice == once
            &&& twice.knowledge_areas == once.knowledge_areas
            &&& call.accepted(state) ==> call.accepted(once)
        }),
{
    let call = Call::AddKnowledgeArea { caller, knowledge_area };
    let once = step(state, call);
    if call.accepted(state) {
        if !state.knowledge_areas.contains(knowledge_area) {
            assert(once.knowledge_areas.last() == knowledge_area);
            assert(once.knowledge_areas.contains(knowledge_area));
        }
        assert(once.with_knowledge_area(knowledge_area) == once);
    }
}

/// A record that holds 20 knowledge areas takes no new one: the owner's call
/// to add an area that the record does not hold, with a name within its bound,
/// is rejected for want of capacity, and the list stays at 20.
pub proof fn lemma_knowledge_areas_capped(
    state: AgentState,
    caller: Seq<u8>,
    knowledge_area: Seq<char>,
)
    requires
        state.knowledge_areas.len() == MAX_KNOWLEDGE_AREAS,
        caller == state.owner,
        byte_len(knowledge_area) <= MAX_KNOWLEDGE_AREA_LEN,
        !state.knowledge_areas.contains(knowledge_area),
    ensures
        ({
            let call = Call::AddKnowledgeArea { caller, knowledge_area };
            &&& call.rejection(state) == Some(ErrorCode::TooManyKnowledgeAreas)
            &&& ErrorCode::TooManyKnowledgeAreas.spec_kind() == ErrorKind::CapacityExceeded
            &&& step(state, call) == state
            &&& step(state, call).knowledge_areas.len() == 20
        }),
{
}

/// A credential needs a verified identity. While the identity is not verified,
/// the owner's call to add a credential is rejected for that reason. Once the
/// owner has verified it, the call is accepted, provided that the record has
/// room for a credential and for its score, and raises the reputation score by
/// exactly 10.
pub proof fn lemma_credential_needs_verified_identity(
    state: AgentState,
    caller: Seq<u8>,
    verification_proof: Seq<char>,
    credential: CredentialState,
)
    requires
        caller == state.owner,
        !state.carv_verified,
        (Call::VerifyCarvId { caller, verification_proof }).accepted(state),
        state.credentials.len() < MAX_CREDENTIALS,
        state.reputation_score + CREDENTIAL_SCORE <= u64::MAX,
    ensures
        ({
            let verify = Call::VerifyCarvId { caller, verification_proof };
            let add = Call::AddCredential { caller, credential };
            let verified = step(state, verify);
            &&& add.rejection(state) == Some(ErrorCode::CarvIdNotVerified)
            &&& ErrorCode::CarvIdNotVerified.spec_kind() == ErrorKind::IdentityNotVerified
            &&& step(state, add) == state
            &&& verified.carv_verified
            &&& add.accepted(verified)
            &&& step(verified, add).reputation_score == verified.reputation_score + 10
            &&& verified.reputation_score == state.reputation_score
        }),
{
}

/// A text beyond its bound is rejected as too long, and nothing changes. This
/// holds of the name, the personality and the identity claim of a new record,
/// and of what the owner hands in as a new personality or a knowledge area.
pub proof fn lemma_overlong_text_rejected(
    state: AgentState,
    agent_name: Seq<char>,
    personality: Seq<char>,
    carv_id: Seq<char>,
    knowledge_area: Seq<char>,
)
    ensures
        byte_len(agent_name) > MAX_AGENT_NAME_LEN || byte_len(personality) > MAX_PERSONALITY_LEN
            || byte_len(carv_id) > MAX_CARV_ID_LEN ==> (create_rejection(
            agent_name,
            personality,
            carv_id,
        ) matches Some(reason) && reason.spec_kind() == ErrorKind::FieldTooLong),
        byte_len(personality) > MAX_PERSONALITY_LEN ==> ({
            let call = Call::UpdatePersonality {
                caller: state.owner,
                new_personality: personality,
            };
            &&& call.rejection(state) matches Some(reason) && reason.spec_kind()
                == ErrorKind::FieldTooLong
            &&& step(state, call) == state
        }),
        byte_len(knowledge_area) > MAX_KNOWLEDGE_AREA_LEN ==> ({
            let call = Call::AddKnowledgeArea { caller: state.owner, knowledge_area };
            &&& call.rejection(state) matches Some(reason) && reason.spec_kind()
                == ErrorKind::FieldTooLong
            &&& step(state, call) == state
        }),
{
    lemma_byte_len_bounds(carv_id);
}

/// A verification proof of fewer than 10 characters of ASCII is too short.
pub proof fn lemma_short_proof_rejected(state: AgentState, verification_proof: Seq<char>)
    requires
        is_ascii_chars(verification_proof),
        verification_proof.len() < MIN_VERIFICATION_PROOF_LEN,
    ensures
        (Call::VerifyCarvId { caller: state.owner, verification_proof }).rejection(state) == Some(
            ErrorCode::InvalidVerificationProof,
        ),
{
    lemma_byte_len_ascii(verification_proof);
}

} // verus!
