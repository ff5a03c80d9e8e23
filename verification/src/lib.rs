//! Escrow-and-billing engine for metered, recurring service agreements.
//!
//! Agents post a refundable bond, are billed per closed epoch for the usage
//! windows they consumed, must settle the resulting debt within a grace
//! period, and are penalized (credit-score decay, bond slashing, forced
//! suspension) when they fail to do so. The host environment that supplies
//! caller identities, the epoch counter and asset custody hands this library
//! plain values; every decision and every piece of arithmetic is made here,
//! under contract.

pub mod types;
pub mod escrow;
pub mod transitions;
pub mod laws;

pub use types::AgentInfo;
pub use types::AgentStatus;
pub use types::AgentAccount;
pub use types::BillingRecord;
pub use types::Config;
pub use types::EpochState;
pub use types::EscrowError;
pub use escrow::StreamAgencyEscrow;
