//! What an operation is called with besides its own arguments: the record, its
//! address, and the identity of the caller. Whoever calls has made sure of the
//! caller's identity; the operations compare it with the owner of the record.

use vstd::prelude::*;
use crate::key::IdentityKey;
use crate::types::IncarraAgent;

verus! {

/// The setting in which a record is created.
#[derive(Clone, Debug, PartialEq, Eq)]
pub struct CreateIncarraAgent {
    /// The address under which the new record will be stored.
    pub agent_id: IdentityKey,
    /// The caller, who becomes the owner of the new record.
    pub user: IdentityKey,
}

/// The setting in which a record is changed.
#[derive(Clone, Debug, PartialEq, Eq)]
pub struct UpdateIncarra {
    /// The address under which the record is stored.
    pub agent_id: IdentityKey,
    /// The record.
    pub incarra_agent: IncarraAgent,
    /// The caller. An operation goes through only if this is the owner of the
    /// record.
    pub owner: IdentityKey,
}

/// The setting in which a record is read. Anyone may read.
#[derive(Clone, Debug, PartialEq, Eq)]
pub struct ReadIncarra {
    /// The record.
    pub incarra_agent: IncarraAgent,
}

} // verus!
