//! State-transition logic of a personal agent record.
//!
//! Each owner has one record. Every change goes through one of a fixed set of
//! operations (module [`incarra_agent`]), which validates its input, updates the
//! record and hands back the event that describes the change. An operation that
//! fails leaves the record as it was.
//!
//! The operations are specified against a mathematical model of the record
//! ([`model`]) and of the calls that change it ([`machine`]). What holds of the
//! operations taken together is proved of that model in [`laws`]: whatever calls
//! come, the invariant of the record holds, its owner stays, its counters and
//! lists only grow, and its level is the one that belongs to its experience.
//!
//! The record and the values read from it are in [`types`], the events in
//! [`events`], what an operation is called with in [`accounts`], the rules that
//! the operations check in [`validation`], levels and reputation in
//! [`progression`], the bounds and the space of a record in [`limits`], the
//! reasons for a rejection in [`error`], identity keys in [`key`].

pub mod accounts;
pub mod error;
pub mod events;
pub mod incarra_agent;
pub mod key;
pub mod laws;
pub mod limits;
pub mod machine;
pub mod model;
pub mod progression;
pub mod types;
pub mod validation;
