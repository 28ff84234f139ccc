//! Static bounds of an agent record.
//!
//! Every bounded field has its maximum here, and the size reserved for a stored
//! record is derived from these maxima once, as a constant: it never depends on
//! the contents of a live record.

use vstd::prelude::*;

verus! {

/// Longest agent name, in bytes of its UTF-8 encoding.
pub const MAX_AGENT_NAME_LEN: usize = 50;

/// Longest personality description, in bytes.
pub const MAX_PERSONALITY_LEN: usize = 200;

/// Longest name of a knowledge area, in bytes.
pub const MAX_KNOWLEDGE_AREA_LEN: usize = 30;

/// Longest identity claim, in bytes (the length of a hexadecimal Ethereum address).
pub const MAX_CARV_ID_LEN: usize = 42;

/// Shortest verification proof that is accepted, in bytes.
pub const MIN_VERIFICATION_PROOF_LEN: usize = 10;

/// Most knowledge areas one record holds.
pub const MAX_KNOWLEDGE_AREAS: usize = 20;

/// Most credentials one record holds.
pub const MAX_CREDENTIALS: usize = 10;

/// Most achievements one record holds.
pub const MAX_ACHIEVEMENTS: usize = 20;

/// Experience points that make up one level.
pub const EXPERIENCE_PER_LEVEL: u64 = 100;

/// Reputation granted once, when the identity claim is verified.
pub const VERIFICATION_BONUS: u64 = 50;

/// Reputation score granted for each credential.
pub const CREDENTIAL_SCORE: u64 = 10;

/// Reputation, and reputation score, granted for each new knowledge area.
pub const KNOWLEDGE_AREA_REPUTATION: u64 = 2;

/// Extra reputation per interaction for a record whose identity is verified.
pub const VERIFIED_INTERACTION_BONUS: u64 = 1;

/// Bytes of the tag that precedes a stored record.
pub const DISCRIMINATOR_SIZE: usize = 8;

/// Bytes of an identity key.
pub const KEY_SIZE: usize = 32;

/// Bytes of the length prefix of a stored string or list.
pub const LENGTH_PREFIX_SIZE: usize = 4;

/// Bytes of a stored counter or timestamp.
pub const WORD_SIZE: usize = 8;

/// Bytes of a stored flag.
pub const FLAG_SIZE: usize = 1;

/// Bytes reserved for the verification artifact, without its length prefix.
pub const VERIFICATION_SIGNATURE_SPACE: usize = 130;

/// Bytes reserved for each credential.
pub const CREDENTIAL_SPACE: usize = 100;

/// Bytes reserved for each achievement.
pub const ACHIEVEMENT_SPACE: usize = 80;

/// Bytes kept free beyond the declared fields.
pub const SPARE_SPACE: usize = 200;

/// Bytes reserved for one stored record: the tag, every field at its maximum, and
/// the spare space.
pub const ACCOUNT_SPACE: usize = DISCRIMINATOR_SIZE
    + KEY_SIZE
    + (LENGTH_PREFIX_SIZE + MAX_AGENT_NAME_LEN)
    + (LENGTH_PREFIX_SIZE + MAX_PERSONALITY_LEN)
    + WORD_SIZE
    + WORD_SIZE
    + (LENGTH_PREFIX_SIZE + MAX_CARV_ID_LEN)
    + FLAG_SIZE
    + (LENGTH_PREFIX_SIZE + VERIFICATION_SIGNATURE_SPACE)
    + WORD_SIZE
    + (LENGTH_PREFIX_SIZE + CREDENTIAL_SPACE * MAX_CREDENTIALS)
    + (LENGTH_PREFIX_SIZE + ACHIEVEMENT_SPACE * MAX_ACHIEVEMENTS)
    + WORD_SIZE * 7
    + (LENGTH_PREFIX_SIZE + (LENGTH_PREFIX_SIZE + MAX_KNOWLEDGE_AREA_LEN) * MAX_KNOWLEDGE_AREAS)
    + FLAG_SIZE
    + SPARE_SPACE;

/// The reserved size, written out.
pub proof fn lemma_account_space()
    ensures
        ACCOUNT_SPACE == 4052,
{
}

} // verus!
