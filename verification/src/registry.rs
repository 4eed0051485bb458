use vstd::prelude::*;
use crate::ids::AccountId;

verus! {

/// Deployment-wide configuration, fixed at initialization.
///
/// The decay and slash rates are declared configuration that no
/// operation of this engine consumes yet; they are carried untouched.
#[derive(Clone, Copy, PartialEq, Eq, Structural, Debug)]
pub struct RegistryParams {
    pub min_stake: u64,
    /// Basis points per day.
    pub reputation_decay_rate: u16,
    pub task_timeout_slash_bps: u16,
}

/// The marketplace's singleton aggregate record: its authority, its
/// configuration, and two monotonically increasing running totals.
#[derive(Clone, Copy, PartialEq, Eq, Structural, Debug)]
pub struct Registry {
    pub authority: AccountId,
    pub params: RegistryParams,
    /// How many agents have ever registered.
    pub total_agents: u64,
    /// How many tasks have been settled successfully; failures are not
    /// counted.
    pub total_tasks_completed: u64,
}

} // verus!
