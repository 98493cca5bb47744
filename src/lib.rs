//! An ownership and approval ledger for a collection of uniquely identified
//! non-fungible tokens: a registry of tokens, a per-owner index kept in step
//! with it, per-token approvals with nonce ids, and the event records that
//! each successful mutation produces.
use vstd::prelude::*;

pub mod account;
pub mod table;
pub mod metadata;
pub mod events;
pub mod index;
pub mod contract;
pub mod laws;
pub mod template;

