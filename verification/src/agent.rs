use vstd::prelude::*;
use crate::ids::AccountId;
use crate::reputation::MAX_REPUTATION;
use crate::tags::tags_within_bounds;

verus! {

/// Closed set of specializations an agent registers under.
#[derive(Clone, Copy, PartialEq, Eq, Structural, Debug)]
pub enum AgentType {
    /// Research and discovery.
    Scout,
    /// Monitoring and security.
    Sentinel,
    /// Strategy and execution.
    Arbiter,
    /// Documentation and analysis.
    Scribe,
    /// Data and prediction.
    Oracle,
}

/// Whether an agent is currently taking part in the marketplace. Only
/// the agent's owner may change it.
#[derive(Clone, Copy, PartialEq, Eq, Structural, Debug)]
pub enum AgentStatus {
    Active,
    Inactive,
    Suspended,
}

/// Most capability tags one agent record may carry.
pub const MAX_AGENT_CAPABILITIES: usize = 10;

/// One registered worker agent: an archival record created at
/// registration, mutated only by task settlement (score and stats) and
/// by its owner (status), and never destroyed.
#[derive(Clone, Debug)]
pub struct Agent {
    pub owner: AccountId,
    pub agent_type: AgentType,
    pub capabilities: Vec<String>,
    pub reputation_score: u16,
    pub tasks_completed: u64,
    pub tasks_failed: u64,
    pub total_earnings: u64,
    pub registered_at: i64,
    pub last_active: i64,
    pub status: AgentStatus,
}

/// Mathematical model of an agent record: the capability list as a
/// sequence of character sequences, everything else as plain values.
#[verifier::ext_equal]
pub struct AgentView {
    pub owner: AccountId,
    pub agent_type: AgentType,
    pub capabilities: Seq<Seq<char>>,
    pub reputation_score: u16,
    pub tasks_completed: u64,
    pub tasks_failed: u64,
    pub total_earnings: u64,
    pub registered_at: i64,
    pub last_active: i64,
    pub status: AgentStatus,
}

impl AgentView {
    /// Well-formedness of an agent record: the trust score is in range
    /// and the capability list respects its record-size budget.
    pub open spec fn wf(self) -> bool {
        &&& self.reputation_score <= MAX_REPUTATION
        &&& self.capabilities.len() <= MAX_AGENT_CAPABILITIES
        &&& tags_within_bounds(self.capabilities)
    }
}

impl View for Agent {
    type V = AgentView;

    open spec fn view(&self) -> AgentView {
        AgentView {
            owner: self.owner,
            agent_type: self.agent_type,
            capabilities: self.capabilities.deep_view(),
            reputation_score: self.reputation_score,
            tasks_completed: self.tasks_completed,
            tasks_failed: self.tasks_failed,
            total_earnings: self.total_earnings,
            registered_at: self.registered_at,
            last_active: self.last_active,
            status: self.status,
        }
    }
}

} // verus!
