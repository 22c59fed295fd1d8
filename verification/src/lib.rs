//! An on-ledger record-keeping and marketplace engine for autonomous software
//! agents.
//!
//! The engine keeps a tamper-evident, hash-linked audit trail of agent
//! decisions and their attested outcomes, drives a bounded reputation score
//! from those attestations, and runs a marketplace in which creators publish
//! priced memory modules and agents purchase them, with proceeds split
//! deterministically between the platform treasury, the module creator and an
//! optional referrer.
//!
//! All records live in an explicit keyed store ([`state::AgentMemory`]) with
//! create-if-absent semantics: replaying a create request collides with the
//! occupied key and is rejected, which is what makes decision logs,
//! attestations, modules and purchases non-replayable. The host runtime is
//! expected to apply each operation atomically and to perform the actual
//! value transfers that a purchase stages.

pub mod account;
pub mod errors;
pub mod hashing;
pub mod identity;
pub mod marketplace;
pub mod memory;
pub mod purchase;
pub mod revenue;
pub mod state;
