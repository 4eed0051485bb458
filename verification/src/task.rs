use vstd::prelude::*;
use crate::ids::AccountId;
use crate::tags::tags_within_bounds;

verus! {

/// Closed set of task categories.
#[derive(Clone, Copy, PartialEq, Eq, Structural, Debug)]
pub enum TaskType {
    Research,
    Monitor,
    Execute,
    Analyze,
    Predict,
}

/// Lifecycle state of a task.
///
/// A task moves `Open -> Assigned -> {Completed, Failed}`. `Cancelled`
/// is a terminal state reachable only through a peer subsystem's own
/// authority; no operation of this engine produces it.
#[derive(Clone, Copy, PartialEq, Eq, Structural, Debug)]
pub enum TaskStatus {
    Open,
    Assigned,
    Completed,
    Failed,
    Cancelled,
}

/// One agent's offer to perform a task: price, estimated completion
/// time, and when it was submitted. Immutable once appended.
#[derive(Clone, Copy, PartialEq, Eq, Structural, Debug)]
pub struct Bid {
    pub agent: AccountId,
    pub bid_amount: u64,
    pub estimated_completion: i64,
    pub submitted_at: i64,
}

/// Most bids one task may collect.
pub const MAX_BIDS: usize = 5;

/// Most capability tags a task may require.
pub const MAX_REQUIRED_CAPABILITIES: usize = 5;

/// What an eligible bidder must bring: a reputation floor and a set of
/// capability tags the agent must all possess.
#[derive(Clone, Debug)]
pub struct TaskRequirements {
    pub min_reputation: u16,
    pub required_capabilities: Vec<String>,
}

/// Mathematical model of a task's matching requirements.
#[verifier::ext_equal]
pub struct TaskRequirementsView {
    pub min_reputation: u16,
    pub required_capabilities: Seq<Seq<char>>,
}

impl TaskRequirementsView {
    /// The required-capability list respects its record-size budget.
    pub open spec fn wf(self) -> bool {
        &&& self.required_capabilities.len() <= MAX_REQUIRED_CAPABILITIES
        &&& tags_within_bounds(self.required_capabilities)
    }
}

impl View for TaskRequirements {
    type V = TaskRequirementsView;

    open spec fn view(&self) -> TaskRequirementsView {
        TaskRequirementsView {
            min_reputation: self.min_reputation,
            required_capabilities: self.required_capabilities.deep_view(),
        }
    }
}

/// One posted unit of work, from creation through competitive bidding
/// to settlement. Never destroyed.
#[derive(Clone, Debug)]
pub struct Task {
    pub creator: AccountId,
    pub task_type: TaskType,
    pub description_hash: [u8; 32],
    pub reward: u64,
    pub deadline: i64,
    pub requirements: TaskRequirements,
    pub status: TaskStatus,
    pub created_at: i64,
    pub assigned_agent: Option<AccountId>,
    pub accepted_bid: Option<Bid>,
    pub bids: Vec<Bid>,
    pub completed_at: Option<i64>,
    pub performance_score: Option<u8>,
}

/// Mathematical model of a task record: the bid list as a sequence,
/// the description hash as a byte sequence, everything else plain.
#[verifier::ext_equal]
pub struct TaskView {
    pub creator: AccountId,
    pub task_type: TaskType,
    pub description_hash: Seq<u8>,
    pub reward: u64,
    pub deadline: i64,
    pub requirements: TaskRequirementsView,
    pub status: TaskStatus,
    pub created_at: i64,
    pub assigned_agent: Option<AccountId>,
    pub accepted_bid: Option<Bid>,
    pub bids: Seq<Bid>,
    pub completed_at: Option<i64>,
    pub performance_score: Option<u8>,
}

impl TaskView {
    /// The task has left the Open state for an assignee.
    pub open spec fn has_assignee_status(self) -> bool {
        self.status is Assigned || self.status is Completed || self.status is Failed
    }

    /// Well-formedness of a task record: the bid list respects its
    /// bound, the requirements are well formed, an assigned agent is
    /// recorded exactly in the states that have one, and an accepted
    /// bid snapshot exists exactly when an agent is assigned.
    pub open spec fn wf(self) -> bool {
        &&& self.bids.len() <= MAX_BIDS
        &&& self.requirements.wf()
        &&& (self.assigned_agent is Some <==> self.has_assignee_status())
        &&& (self.accepted_bid is Some <==> self.assigned_agent is Some)
    }
}

impl View for Task {
    type V = TaskView;

    open spec fn view(&self) -> TaskView {
        TaskView {
            creator: self.creator,
            task_type: self.task_type,
            description_hash: self.description_hash@,
            reward: self.reward,
            deadline: self.deadline,
            requirements: self.requirements@,
            status: self.status,
            created_at: self.created_at,
            assigned_agent: self.assigned_agent,
            accepted_bid: self.accepted_bid,
            bids: self.bids@,
            completed_at: self.completed_at,
            performance_score: self.performance_score,
        }
    }
}

} // verus!
