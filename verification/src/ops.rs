use vstd::prelude::*;
use crate::agent::{Agent, AgentStatus, AgentType, AgentView, MAX_AGENT_CAPABILITIES};
use crate::errors::RegistryError;
use crate::ids::AccountId;
use crate::registry::{Registry, RegistryParams};
use crate::reputation;
use crate::reputation::{
    adjusted_reputation, INITIAL_REPUTATION, MAX_PERFORMANCE_SCORE, MAX_REPUTATION,
};
use crate::tags::{all_tags_fit, covers_all_tags, covers_required_tags, tags_within_bounds};
use crate::task::{
    Bid, Task, TaskRequirements, TaskRequirementsView, TaskStatus, TaskType, TaskView, MAX_BIDS,
    MAX_REQUIRED_CAPABILITIES,
};

verus! {

/// Set up the marketplace's singleton record for an authority, with
/// both running totals at zero.
pub fn initialize(authority: AccountId, params: RegistryParams) -> (registry: Registry)
    ensures
        registry == (Registry { authority, params, total_agents: 0, total_tasks_completed: 0 }),
{
    Registry { authority, params, total_agents: 0, total_tasks_completed: 0 }
}

/// Why a registration request is rejected, or `None` when it is
/// accepted: the capability list must fit its record budget, every tag
/// its byte budget, and the agent counter must have room.
pub open spec fn register_agent_rejection(
    capabilities: Seq<Seq<char>>,
    registry: Registry,
) -> Option<RegistryError> {
    if capabilities.len() > MAX_AGENT_CAPABILITIES {
        Some(RegistryError::TooManyCapabilities)
    } else if !tags_within_bounds(capabilities) {
        Some(RegistryError::CapabilityTagTooLong)
    } else if registry.total_agents == u64::MAX {
        Some(RegistryError::CounterOverflow)
    } else {
        None
    }
}

/// The agent record a successful registration creates: neutral
/// reputation, zero stats, Active, both timestamps at registration.
pub open spec fn fresh_agent(
    owner: AccountId,
    specialization: AgentType,
    capabilities: Seq<Seq<char>>,
    now: i64,
) -> AgentView {
    AgentView {
        owner,
        agent_type: specialization,
        capabilities,
        reputation_score: INITIAL_REPUTATION,
        tasks_completed: 0,
        tasks_failed: 0,
        total_earnings: 0,
        registered_at: now,
        last_active: now,
        status: AgentStatus::Active,
    }
}

/// Register a new agent under an owner, with a specialization and a
/// bounded list of capability tags, and count it in the registry.
pub fn register_agent(
    registry: &mut Registry,
    owner: AccountId,
    specialization: AgentType,
    capabilities: Vec<String>,
    now: i64,
) -> (result: Result<Agent, RegistryError>)
    ensures
        result is Ok <==> register_agent_rejection(capabilities.deep_view(), *old(registry))
            is None,
        result matches Err(e) ==> {
            &&& register_agent_rejection(capabilities.deep_view(), *old(registry)) == Some(e)
            &&& *final(registry) == *old(registry)
        },
        result matches Ok(agent) ==> {
            &&& agent@ == fresh_agent(owner, specialization, capabilities.deep_view(), now)
            &&& agent@.wf()
            &&& *final(registry) == (Registry {
                total_agents: (old(registry).total_agents + 1) as u64,
                ..*old(registry)
            })
        },
{
    if capabilities.len() > MAX_AGENT_CAPABILITIES {
        return Err(RegistryError::TooManyCapabilities);
    }
    if !all_tags_fit(&capabilities) {
        return Err(RegistryError::CapabilityTagTooLong);
    }
    if registry.total_agents == u64::MAX {
        return Err(RegistryError::CounterOverflow);
    }
    registry.total_agents = registry.total_agents + 1;
    Ok(
        Agent {
            owner,
            agent_type: specialization,
            capabilities,
            reputation_score: INITIAL_REPUTATION,
            tasks_completed: 0,
            tasks_failed: 0,
            total_earnings: 0,
            registered_at: now,
            last_active: now,
            status: AgentStatus::Active,
        },
    )
}

/// Why a task-creation request is rejected, or `None` when it is
/// accepted: creation always succeeds for a well-formed request, so
/// only the requirement bounds are checked.
pub open spec fn create_task_rejection(requirements: TaskRequirementsView) -> Option<
    RegistryError,
> {
    if requirements.required_capabilities.len() > MAX_REQUIRED_CAPABILITIES {
        Some(RegistryError::TooManyCapabilities)
    } else if !tags_within_bounds(requirements.required_capabilities) {
        Some(RegistryError::CapabilityTagTooLong)
    } else {
        None
    }
}

/// The task record a successful creation posts: open, with an empty bid
/// list and no assignment.
pub open spec fn fresh_task(
    creator: AccountId,
    task_type: TaskType,
    description_hash: Seq<u8>,
    reward: u64,
    deadline: i64,
    requirements: TaskRequirementsView,
    now: i64,
) -> TaskView {
    TaskView {
        creator,
        task_type,
        description_hash,
        reward,
        deadline,
        requirements,
        status: TaskStatus::Open,
        created_at: now,
        assigned_agent: None,
        accepted_bid: None,
        bids: Seq::empty(),
        completed_at: None,
        performance_score: None,
    }
}

/// Post a task that agents can bid on.
pub fn create_task(
    creator: AccountId,
    task_type: TaskType,
    description_hash: [u8; 32],
    reward: u64,
    deadline: i64,
    requirements: TaskRequirements,
    now: i64,
) -> (result: Result<Task, RegistryError>)
    ensures
        result is Ok <==> create_task_rejection(requirements@) is None,
        result matches Err(e) ==> create_task_rejection(requirements@) == Some(e),
        result matches Ok(task) ==> {
            &&& task@ == fresh_task(
                creator,
                task_type,
                description_hash@,
                reward,
                deadline,
                requirements@,
                now,
            )
            &&& task@.wf()
        },
{
    if requirements.required_capabilities.len() > MAX_REQUIRED_CAPABILITIES {
        return Err(RegistryError::TooManyCapabilities);
    }
    if !all_tags_fit(&requirements.required_capabilities) {
        return Err(RegistryError::CapabilityTagTooLong);
    }
    Ok(
        Task {
            creator,
            task_type,
            description_hash,
            reward,
            deadline,
            requirements,
            status: TaskStatus::Open,
            created_at: now,
            assigned_agent: None,
            accepted_bid: None,
            bids: Vec::new(),
            completed_at: None,
            performance_score: None,
        },
    )
}

/// Why a bid submission is rejected, or `None` when it is accepted.
/// The guards run in this order: the task must still be open, its
/// deadline not yet reached, the agent must clear the reputation floor
/// and cover every required capability, and the bid list must have
/// room. An ineligible bid therefore never enters the collection.
pub open spec fn submit_bid_rejection(task: TaskView, agent: AgentView, now: i64) -> Option<
    RegistryError,
> {
    if !(task.status is Open) {
        Some(RegistryError::TaskNotOpen)
    } else if now >= task.deadline {
        Some(RegistryError::TaskExpired)
    } else if agent.reputation_score < task.requirements.min_reputation {
        Some(RegistryError::InsufficientReputation)
    } else if !covers_all_tags(agent.capabilities, task.requirements.required_capabilities) {
        Some(RegistryError::MissingCapability)
    } else if task.bids.len() >= MAX_BIDS {
        Some(RegistryError::BidCollectionFull)
    } else {
        None
    }
}

/// The task after a bid is appended: only the bid list changes.
pub open spec fn with_bid(task: TaskView, bid: Bid) -> TaskView {
    TaskView { bids: task.bids.push(bid), ..task }
}

/// Submit an agent's offer for an open task. On success the bid is
/// appended, in submission order; nothing is accepted automatically.
pub fn bid_on_task(
    task: &mut Task,
    agent: &Agent,
    agent_id: AccountId,
    bid_amount: u64,
    estimated_completion: i64,
    now: i64,
) -> (result: Result<(), RegistryError>)
    requires
        old(task)@.wf(),
    ensures
        final(task)@.wf(),
        result is Ok <==> submit_bid_rejection(old(task)@, agent@, now) is None,
        result matches Err(e) ==> {
            &&& submit_bid_rejection(old(task)@, agent@, now) == Some(e)
            &&& *final(task) == *old(task)
        },
        result is Ok ==> final(task)@ == with_bid(
            old(task)@,
            (Bid { agent: agent_id, bid_amount, estimated_completion, submitted_at: now }),
        ),
        now >= old(task)@.deadline ==> result is Err,
        !covers_all_tags(agent@.capabilities, old(task)@.requirements.required_capabilities)
            ==> result is Err,
{
    if !matches!(task.status, TaskStatus::Open) {
        return Err(RegistryError::TaskNotOpen);
    }
    if now >= task.deadline {
        return Err(RegistryError::TaskExpired);
    }
    if agent.reputation_score < task.requirements.min_reputation {
        return Err(RegistryError::InsufficientReputation);
    }
    if !covers_required_tags(&agent.capabilities, &task.requirements.required_capabilities) {
        return Err(RegistryError::MissingCapability);
    }
    if task.bids.len() >= MAX_BIDS {
        return Err(RegistryError::BidCollectionFull);
    }
    task.bids.push(Bid { agent: agent_id, bid_amount, estimated_completion, submitted_at: now });
    Ok(())
}

/// Why accepting a bid is rejected, or `None` when it succeeds: only
/// the task's creator may accept, only while the task is open, and only
/// a bid that exists. Eligibility is not re-validated here: an
/// ineligible bid can never have entered the collection.
pub open spec fn accept_bid_rejection(task: TaskView, caller: AccountId, bid_index: u16) -> Option<
    RegistryError,
> {
    if caller != task.creator {
        Some(RegistryError::Unauthorized)
    } else if !(task.status is Open) {
        Some(RegistryError::TaskNotOpen)
    } else if bid_index >= task.bids.len() {
        Some(RegistryError::InvalidBidIndex)
    } else {
        None
    }
}

/// The task after the bid at `bid_index` is accepted: the chosen bid is
/// snapshotted, its agent becomes the assignee, and the task moves to
/// Assigned.
pub open spec fn with_accepted_bid(task: TaskView, bid_index: u16) -> TaskView {
    TaskView {
        status: TaskStatus::Assigned,
        assigned_agent: Some(task.bids[bid_index as int].agent),
        accepted_bid: Some(task.bids[bid_index as int]),
        ..task
    }
}

/// The creator manually selects one bid and assigns the task to that
/// bid's agent. There is no scoring or ranking by the engine.
pub fn accept_bid(task: &mut Task, caller: AccountId, bid_index: u16) -> (result: Result<
    (),
    RegistryError,
>)
    requires
        old(task)@.wf(),
    ensures
        final(task)@.wf(),
        result is Ok <==> accept_bid_rejection(old(task)@, caller, bid_index) is None,
        result matches Err(e) ==> {
            &&& accept_bid_rejection(old(task)@, caller, bid_index) == Some(e)
            &&& *final(task) == *old(task)
        },
        result is Ok ==> final(task)@ == with_accepted_bid(old(task)@, bid_index),
        !(old(task)@.status is Open) ==> result is Err,
        caller != old(task)@.creator ==> result is Err,
{
    if caller != task.creator {
        return Err(RegistryError::Unauthorized);
    }
    if !matches!(task.status, TaskStatus::Open) {
        return Err(RegistryError::TaskNotOpen);
    }
    if (bid_index as usize) >= task.bids.len() {
        return Err(RegistryError::InvalidBidIndex);
    }
    let accepted: Bid = task.bids[bid_index as usize];
    task.assigned_agent = Some(accepted.agent);
    task.status = TaskStatus::Assigned;
    task.accepted_bid = Some(accepted);
    Ok(())
}

/// Accepting a bid cannot be re-issued: a successful acceptance leaves
/// the Open state, so the same acceptance a second time is rejected as
/// not-open and the task can never be assigned twice.
pub proof fn lemma_accept_bid_not_repeatable(task: TaskView, caller: AccountId, bid_index: u16)
    requires
        accept_bid_rejection(task, caller, bid_index) is None,
    ensures
        accept_bid_rejection(with_accepted_bid(task, bid_index), caller, bid_index) == Some(
            RegistryError::TaskNotOpen,
        ),
{
}

/// The reward credited on a successful settlement: the accepted bid's
/// price.
pub open spec fn accepted_amount(task: TaskView) -> int {
    match task.accepted_bid {
        Some(bid) => bid.bid_amount as int,
        None => 0,
    }
}

/// Why a completion report is rejected, or `None` when it settles.
/// The guards run in this order: the task must be assigned, the
/// reporting agent must be its assignee, the performance score must be
/// meaningful, and every counter the settlement would touch must have
/// room — all checked before any mutation.
pub open spec fn complete_task_rejection(
    task: TaskView,
    agent: AgentView,
    agent_id: AccountId,
    registry: Registry,
    success: bool,
    performance_score: u8,
) -> Option<RegistryError> {
    if !(task.status is Assigned) {
        Some(RegistryError::TaskNotAssigned)
    } else if task.assigned_agent != Some(agent_id) {
        Some(RegistryError::UnauthorizedAgent)
    } else if performance_score > MAX_PERFORMANCE_SCORE {
        Some(RegistryError::InvalidPerformanceScore)
    } else if success && agent.tasks_completed == u64::MAX {
        Some(RegistryError::CounterOverflow)
    } else if success && agent.total_earnings + accepted_amount(task) > u64::MAX {
        Some(RegistryError::CounterOverflow)
    } else if success && registry.total_tasks_completed == u64::MAX {
        Some(RegistryError::CounterOverflow)
    } else if !success && agent.tasks_failed == u64::MAX {
        Some(RegistryError::CounterOverflow)
    } else {
        None
    }
}

/// The task after settlement: a terminal status by outcome, with the
/// completion timestamp and the reported score recorded.
pub open spec fn settled_task(
    task: TaskView,
    success: bool,
    performance_score: u8,
    now: i64,
) -> TaskView {
    TaskView {
        status: if success {
            TaskStatus::Completed
        } else {
            TaskStatus::Failed
        },
        completed_at: Some(now),
        performance_score: Some(performance_score),
        ..task
    }
}

/// The agent after settlement: adjusted reputation, the outcome counted,
/// earnings credited on success, and activity refreshed.
pub open spec fn settled_agent(
    agent: AgentView,
    success: bool,
    performance_score: u8,
    reward: int,
    now: i64,
) -> AgentView {
    AgentView {
        reputation_score: adjusted_reputation(
            agent.reputation_score,
            success,
            performance_score,
        ) as u16,
        tasks_completed: if success {
            (agent.tasks_completed + 1) as u64
        } else {
            agent.tasks_completed
        },
        tasks_failed: if success {
            agent.tasks_failed
        } else {
            (agent.tasks_failed + 1) as u64
        },
        total_earnings: if success {
            (agent.total_earnings + reward) as u64
        } else {
            agent.total_earnings
        },
        last_active: now,
        ..agent
    }
}

/// The one operation that changes a trust score keeps it in range: a
/// settled agent's reputation never leaves `[0, MAX_REPUTATION]`,
/// whatever the outcome and whatever the reported score.
pub proof fn lemma_settlement_keeps_score_in_range(
    agent: AgentView,
    success: bool,
    performance_score: u8,
    reward: int,
    now: i64,
)
    requires
        agent.wf(),
    ensures
        settled_agent(agent, success, performance_score, reward, now).reputation_score
            <= MAX_REPUTATION,
{
    crate::reputation::lemma_adjust_in_range(agent.reputation_score, success, performance_score);
}

/// The registry after settlement: the completed-task counter advances
/// only on success.
pub open spec fn settled_registry(registry: Registry, success: bool) -> Registry {
    if success {
        Registry {
            total_tasks_completed: (registry.total_tasks_completed + 1) as u64,
            ..registry
        }
    } else {
        registry
    }
}

/// The assigned agent reports the task's outcome, settling it: the task
/// reaches a terminal state, the agent's reputation and stats are
/// updated, and the marketplace counts the success. On success the
/// result carries the agent's new reputation. Fails atomically: on any
/// rejection no record changes.
pub fn complete_task(
    task: &mut Task,
    agent: &mut Agent,
    agent_id: AccountId,
    registry: &mut Registry,
    success: bool,
    performance_score: u8,
    now: i64,
) -> (result: Result<u16, RegistryError>)
    requires
        old(task)@.wf(),
        old(agent)@.wf(),
    ensures
        final(task)@.wf(),
        final(agent)@.wf(),
        result is Ok <==> complete_task_rejection(
            old(task)@,
            old(agent)@,
            agent_id,
            *old(registry),
            success,
            performance_score,
        ) is None,
        result matches Err(e) ==> {
            &&& complete_task_rejection(
                old(task)@,
                old(agent)@,
                agent_id,
                *old(registry),
                success,
                performance_score,
            ) == Some(e)
            &&& *final(task) == *old(task)
            &&& *final(agent) == *old(agent)
            &&& *final(registry) == *old(registry)
        },
        result matches Ok(new_reputation) ==> {
            &&& new_reputation == adjusted_reputation(
                old(agent)@.reputation_score,
                success,
                performance_score,
            )
            &&& final(task)@ == settled_task(old(task)@, success, performance_score, now)
            &&& final(agent)@ == settled_agent(
                old(agent)@,
                success,
                performance_score,
                accepted_amount(old(task)@),
                now,
            )
            &&& *final(registry) == settled_registry(*old(registry), success)
        },
        !(old(task)@.status is Assigned) ==> result is Err,
        old(task)@.assigned_agent != Some(agent_id) ==> result is Err,
{
    if !matches!(task.status, TaskStatus::Assigned) {
        return Err(RegistryError::TaskNotAssigned);
    }
    let reported_by_assignee: bool = match task.assigned_agent {
        Some(assignee) => assignee == agent_id,
        None => false,
    };
    if !reported_by_assignee {
        return Err(RegistryError::UnauthorizedAgent);
    }
    if performance_score > MAX_PERFORMANCE_SCORE {
        return Err(RegistryError::InvalidPerformanceScore);
    }
    let reward_amount: u64 = match task.accepted_bid {
        Some(bid) => bid.bid_amount,
        None => 0,
    };
    if success {
        if agent.tasks_completed == u64::MAX {
            return Err(RegistryError::CounterOverflow);
        }
        if agent.total_earnings > u64::MAX - reward_amount {
            return Err(RegistryError::CounterOverflow);
        }
        if registry.total_tasks_completed == u64::MAX {
            return Err(RegistryError::CounterOverflow);
        }
    } else {
        if agent.tasks_failed == u64::MAX {
            return Err(RegistryError::CounterOverflow);
        }
    }
    task.status = if success {
        TaskStatus::Completed
    } else {
        TaskStatus::Failed
    };
    task.completed_at = Some(now);
    task.performance_score = Some(performance_score);
    let new_reputation: u16 = reputation::adjust(agent.reputation_score, success, performance_score);
    agent.reputation_score = new_reputation;
    if success {
        agent.tasks_completed = agent.tasks_completed + 1;
        agent.total_earnings = agent.total_earnings + reward_amount;
        registry.total_tasks_completed = registry.total_tasks_completed + 1;
    } else {
        agent.tasks_failed = agent.tasks_failed + 1;
    }
    agent.last_active = now;
    Ok(new_reputation)
}

/// Why a status update is rejected, or `None` when it succeeds: only
/// the agent's owner may change the status.
pub open spec fn update_status_rejection(agent: AgentView, caller: AccountId) -> Option<
    RegistryError,
> {
    if caller != agent.owner {
        Some(RegistryError::Unauthorized)
    } else {
        None
    }
}

/// The agent after a status update: the new status, activity refreshed.
pub open spec fn with_status(agent: AgentView, new_status: AgentStatus, now: i64) -> AgentView {
    AgentView { status: new_status, last_active: now, ..agent }
}

/// The owner sets the agent's participation status.
pub fn update_agent_status(
    agent: &mut Agent,
    caller: AccountId,
    new_status: AgentStatus,
    now: i64,
) -> (result: Result<(), RegistryError>)
    ensures
        result is Ok <==> update_status_rejection(old(agent)@, caller) is None,
        result matches Err(e) ==> {
            &&& update_status_rejection(old(agent)@, caller) == Some(e)
            &&& *final(agent) == *old(agent)
        },
        result is Ok ==> final(agent)@ == with_status(old(agent)@, new_status, now),
        old(agent)@.wf() ==> final(agent)@.wf(),
{
    if caller != agent.owner {
        return Err(RegistryError::Unauthorized);
    }
    agent.status = new_status;
    agent.last_active = now;
    Ok(())
}

/// Agent recommendation is a declared placeholder: the engine does no
/// ranking of its own (bid selection is manual by the creator), so the
/// recommendation list is always empty.
pub fn recommend_agents(_task_type: TaskType, _limit: u8) -> (recommended: Vec<AccountId>)
    ensures
        recommended@.len() == 0,
{
    let recommended: Vec<AccountId> = Vec::new();
    recommended
}

} // verus!
