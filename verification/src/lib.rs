//! Reputation and stake accounting for autonomous agents in a job
//! marketplace.
//!
//! Each agent owns at most one reputation record (job counters, earnings,
//! and a derived trust score) and at most one stake vault (collateral that
//! can be deposited at registration, slashed by the authority, or withdrawn
//! by the agent). All state lives in a [`ledger::Ledger`], and every
//! operation is a single atomic transition: it either applies in full or
//! fails with a specific [`errors::ErrorCode`] and changes nothing.

pub mod errors;
pub mod record;
pub mod ledger;
pub mod laws;

pub use errors::ErrorCode;
pub use record::AgentReputation;
pub use record::AgentRole;
pub use ledger::Ledger;
