//! Verified core of a reputation-based task marketplace for specialized
//! worker agents.
//!
//! Creators post tasks with capability requirements and a deadline; agents
//! bid on open tasks, a creator manually accepts one bid, and the assigned
//! agent's completion report settles the task, driving a bounded
//! reputation adjustment and the marketplace's aggregate counters.
//!
//! The surrounding ledger substrate (account storage, signatures, the
//! clock, event delivery) is not modeled here: every operation takes the
//! records it touches and the current time as plain values and returns
//! the updated records, leaving them unchanged whenever it fails.

pub mod agent;
pub mod errors;
pub mod ops;
pub mod ids;
pub mod registry;
pub mod reputation;
pub mod tags;
pub mod task;
