//! Why an operation was rejected.

use vstd::prelude::*;

verus! {

/// The reason for which an operation was rejected. A rejected operation changes
/// nothing.
#[derive(Clone, Copy, Debug, PartialEq, Eq, Structural)]
pub enum ErrorCode {
    /// The agent name is longer than 50 bytes.
    AgentNameTooLong,
    /// The personality description is longer than 200 bytes.
    PersonalityTooLong,
    /// The name of the knowledge area is longer than 30 bytes.
    KnowledgeAreaTooLong,
    /// The record already holds 20 knowledge areas.
    TooManyKnowledgeAreas,
    /// The record is inactive. No operation returns this at present: a record
    /// that was deactivated still accepts every operation.
    AgentInactive,
    /// The identity claim is empty.
    InvalidCarvId,
    /// The identity claim is longer than 42 bytes.
    CarvIdTooLong,
    /// The operation needs a verified identity, and the record has none.
    CarvIdNotVerified,
    /// The verification proof is shorter than 10 bytes.
    InvalidVerificationProof,
    /// The record already holds 10 credentials.
    TooManyCredentials,
    /// The record already holds 20 achievements.
    TooManyAchievements,
    /// The caller is not the owner of the record.
    Unauthorized,
    /// A counter of the record cannot take what the operation would add to it.
    CounterOverflow,
}

/// The classes into which the reasons fall. Exceeded capacity is a list that is
/// full, or a counter that is.
#[derive(Clone, Copy, Debug, PartialEq, Eq, Structural)]
pub enum ErrorKind {
    FieldTooLong,
    CapacityExceeded,
    IdentityFormatInvalid,
    IdentityNotVerified,
    VerificationProofTooShort,
    Unauthorized,
    RecordInactive,
}

impl ErrorCode {
    /// The class of each reason.
    pub open spec fn spec_kind(self) -> ErrorKind {
        match self {
            ErrorCode::AgentNameTooLong => ErrorKind::FieldTooLong,
            ErrorCode::PersonalityTooLong => ErrorKind::FieldTooLong,
            ErrorCode::KnowledgeAreaTooLong => ErrorKind::FieldTooLong,
            ErrorCode::CarvIdTooLong => ErrorKind::FieldTooLong,
            ErrorCode::TooManyKnowledgeAreas => ErrorKind::CapacityExceeded,
            ErrorCode::TooManyCredentials => ErrorKind::CapacityExceeded,
            ErrorCode::TooManyAchievements => ErrorKind::CapacityExceeded,
            ErrorCode::CounterOverflow => ErrorKind::CapacityExceeded,
            ErrorCode::InvalidCarvId => ErrorKind::IdentityFormatInvalid,
            ErrorCode::CarvIdNotVerified => ErrorKind::IdentityNotVerified,
            ErrorCode::InvalidVerificationProof => ErrorKind::VerificationProofTooShort,
            ErrorCode::Unauthorized => ErrorKind::Unauthorized,
            ErrorCode::AgentInactive => ErrorKind::RecordInactive,
        }
    }

    /// The class of this reason.
    #[verifier::when_used_as_spec(spec_kind)]
    pub fn kind(self) -> (kind: ErrorKind)
        ensures
            kind == self.spec_kind(),
    {
        match self {
            ErrorCode::AgentNameTooLong
            | ErrorCode::PersonalityTooLong
            | ErrorCode::KnowledgeAreaTooLong
            | ErrorCode::CarvIdTooLong => ErrorKind::FieldTooLong,
            ErrorCode::TooManyKnowledgeAreas
            | ErrorCode::TooManyCredentials
            | ErrorCode::TooManyAchievements
            | ErrorCode::CounterOverflow => ErrorKind::CapacityExceeded,
            ErrorCode::InvalidCarvId => ErrorKind::IdentityFormatInvalid,
            ErrorCode::CarvIdNotVerified => ErrorKind::IdentityNotVerified,
            ErrorCode::InvalidVerificationProof => ErrorKind::VerificationProofTooShort,
            ErrorCode::Unauthorized => ErrorKind::Unauthorized,
            ErrorCode::AgentInactive => ErrorKind::RecordInactive,
        }
    }

    /// The text of each reason.
    pub open spec fn spec_message(self) -> Seq<char> {
        match self {
            ErrorCode::AgentNameTooLong => "Agent name is too long (max 50 characters)."@,
            ErrorCode::PersonalityTooLong => {
                "Personality description is too long (max 200 characters)."@
            },
            ErrorCode::KnowledgeAreaTooLong => {
                "Knowledge area name is too long (max 30 characters)."@
            },
            ErrorCode::TooManyKnowledgeAreas => "Too many knowledge areas (max 20)."@,
            ErrorCode::AgentInactive => "Agent is currently inactive."@,
            ErrorCode::InvalidCarvId => "Invalid Carv ID format."@,
            ErrorCode::CarvIdTooLong => "Carv ID is too long (max 42 characters)."@,
            ErrorCode::CarvIdNotVerified => "Carv ID is not verified."@,
            ErrorCode::InvalidVerificationProof => "Invalid verification proof."@,
            ErrorCode::TooManyCredentials => "Too many credentials (max 10)."@,
            ErrorCode::TooManyAchievements => "Too many achievements (max 20)."@,
            ErrorCode::Unauthorized => "The caller does not own this agent."@,
            ErrorCode::CounterOverflow => "A counter of the agent is full."@,
        }
    }

    /// The text that describes this reason to a caller.
    pub fn message(self) -> (text: &'static str)
        ensures
            text@ == self.spec_message(),
    {
        match self {
            ErrorCode::AgentNameTooLong => "Agent name is too long (max 50 characters).",
            ErrorCode::PersonalityTooLong => {
                "Personality description is too long (max 200 characters)."
            },
            ErrorCode::KnowledgeAreaTooLong => {
                "Knowledge area name is too long (max 30 characters)."
            },
            ErrorCode::TooManyKnowledgeAreas => "Too many knowledge areas (max 20).",
            ErrorCode::AgentInactive => "Agent is currently inactive.",
            ErrorCode::InvalidCarvId => "Invalid Carv ID format.",
            ErrorCode::CarvIdTooLong => "Carv ID is too long (max 42 characters).",
            ErrorCode::CarvIdNotVerified => "Carv ID is not verified.",
            ErrorCode::InvalidVerificationProof => "Invalid verification proof.",
            ErrorCode::TooManyCredentials => "Too many credentials (max 10).",
            ErrorCode::TooManyAchievements => "Too many achievements (max 20).",
            ErrorCode::Unauthorized => "The caller does not own this agent.",
            ErrorCode::CounterOverflow => "A counter of the agent is full.",
        }
    }
}

} // verus!
