//! Deterministic keyspace, counter allocation and role-capability
//! authorization for a small ledger of attendance records.
//!
//! Every record lives at an address derived from a namespace tag and the
//! fields that tell it apart; every family of records is numbered by its own
//! counter; every mutation is gated by the possession of a role credential or
//! by ownership of the record. An operation either commits as a whole or
//! fails and changes nothing.
//!
//! - [`identity`], [`keys`], [`text`]: identities, key derivation, text fields.
//! - [`records`], [`ledger`]: the accounts, and the store that holds one per
//!   address.
//! - [`counter`], [`auth`]: the counters and the authorization gate.
//! - [`registry`], [`gated`]: the operations.
//! - [`laws`], [`laws_keyspace`], [`laws_workflow`], [`laws_caps`],
//!   [`laws_bootstrap`]: what holds of the operations taken together.

pub mod identity;
pub mod errors;
pub mod keys;
pub mod text;
pub mod records;
pub mod ledger;
pub mod counter;
pub mod auth;
pub mod registry;
pub mod gated;
pub mod laws;
pub mod laws_keyspace;
pub mod laws_workflow;
pub mod laws_caps;
pub mod laws_bootstrap;
