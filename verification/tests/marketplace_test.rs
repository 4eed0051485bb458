use agent_registry::agent::{Agent, AgentStatus, AgentType};
use agent_registry::errors::RegistryError;
use agent_registry::ids::AccountId;
use agent_registry::ops::{
    accept_bid, bid_on_task, complete_task, create_task, initialize, recommend_agents,
    register_agent, update_agent_status,
};
use agent_registry::registry::{Registry, RegistryParams};
use agent_registry::task::{Task, TaskRequirements, TaskStatus, TaskType};

const NOW: i64 = 1000;
const DEADLINE: i64 = NOW + 3600;

fn aid(n: u128) -> AccountId {
    AccountId { hi: 0, lo: n }
}

fn params() -> RegistryParams {
    RegistryParams { min_stake: 1000, reputation_decay_rate: 10, task_timeout_slash_bps: 500 }
}

fn tag_list(tags: &[&str]) -> Vec<String> {
    tags.iter().map(|t| t.to_string()).collect()
}

/// A registry plus a registered scout agent owned by `aid(1)`.
fn registry_with_agent() -> (Registry, Agent) {
    let mut registry = initialize(aid(9), params());
    let agent = register_agent(
        &mut registry,
        aid(1),
        AgentType::Scout,
        tag_list(&["scout", "sentinel"]),
        NOW,
    )
    .unwrap();
    (registry, agent)
}

fn open_task(creator: AccountId, min_reputation: u16, required: &[&str]) -> Task {
    create_task(
        creator,
        TaskType::Research,
        [7u8; 32],
        250,
        DEADLINE,
        TaskRequirements {
            min_reputation,
            required_capabilities: tag_list(required),
        },
        NOW,
    )
    .unwrap()
}

#[test]
fn initialize_records_authority_and_zeroes_totals() {
    let registry = initialize(aid(9), params());
    assert_eq!(registry.authority, aid(9));
    assert_eq!(registry.params, params());
    assert_eq!(registry.total_agents, 0);
    assert_eq!(registry.total_tasks_completed, 0);
}

#[test]
fn register_agent_starts_neutral_and_active() {
    let (registry, agent) = registry_with_agent();
    assert_eq!(agent.owner, aid(1));
    assert_eq!(agent.agent_type, AgentType::Scout);
    assert_eq!(agent.reputation_score, 500);
    assert_eq!(agent.tasks_completed, 0);
    assert_eq!(agent.tasks_failed, 0);
    assert_eq!(agent.total_earnings, 0);
    assert_eq!(agent.registered_at, NOW);
    assert_eq!(agent.last_active, NOW);
    assert_eq!(agent.status, AgentStatus::Active);
    assert_eq!(registry.total_agents, 1);
}

#[test]
fn register_agent_rejects_eleventh_capability() {
    let mut registry = initialize(aid(9), params());
    let too_many = tag_list(&["a", "b", "c", "d", "e", "f", "g", "h", "i", "j", "k"]);
    let result = register_agent(&mut registry, aid(1), AgentType::Scout, too_many, NOW);
    assert_eq!(result.unwrap_err(), RegistryError::TooManyCapabilities);
    assert_eq!(registry.total_agents, 0);
}

#[test]
fn register_agent_rejects_tag_over_forty_bytes() {
    let mut registry = initialize(aid(9), params());
    let long_tag: String = "x".repeat(41);
    let result =
        register_agent(&mut registry, aid(1), AgentType::Scout, vec![long_tag], NOW);
    assert_eq!(result.unwrap_err(), RegistryError::CapabilityTagTooLong);
    assert_eq!(registry.total_agents, 0);
}

#[test]
fn register_agent_accepts_tag_of_exactly_forty_bytes() {
    let mut registry = initialize(aid(9), params());
    let tag: String = "y".repeat(40);
    let agent =
        register_agent(&mut registry, aid(1), AgentType::Sentinel, vec![tag], NOW).unwrap();
    assert_eq!(agent.capabilities.len(), 1);
    assert_eq!(registry.total_agents, 1);
}

#[test]
fn register_agent_rejects_full_agent_counter() {
    let mut registry = initialize(aid(9), params());
    registry.total_agents = u64::MAX;
    let result =
        register_agent(&mut registry, aid(1), AgentType::Scout, tag_list(&["scout"]), NOW);
    assert_eq!(result.unwrap_err(), RegistryError::CounterOverflow);
    assert_eq!(registry.total_agents, u64::MAX);
}

#[test]
fn create_task_opens_with_empty_bids() {
    let task = open_task(aid(2), 500, &["scout"]);
    assert_eq!(task.creator, aid(2));
    assert_eq!(task.status, TaskStatus::Open);
    assert_eq!(task.reward, 250);
    assert_eq!(task.deadline, DEADLINE);
    assert_eq!(task.created_at, NOW);
    assert!(task.bids.is_empty());
    assert_eq!(task.assigned_agent, None);
    assert_eq!(task.accepted_bid, None);
    assert_eq!(task.completed_at, None);
    assert_eq!(task.performance_score, None);
}

#[test]
fn create_task_rejects_sixth_required_capability() {
    let result = create_task(
        aid(2),
        TaskType::Research,
        [0u8; 32],
        250,
        DEADLINE,
        TaskRequirements {
            min_reputation: 0,
            required_capabilities: tag_list(&["a", "b", "c", "d", "e", "f"]),
        },
        NOW,
    );
    assert_eq!(result.unwrap_err(), RegistryError::TooManyCapabilities);
}

#[test]
fn create_task_rejects_required_tag_over_forty_bytes() {
    let result = create_task(
        aid(2),
        TaskType::Monitor,
        [0u8; 32],
        250,
        DEADLINE,
        TaskRequirements {
            min_reputation: 0,
            required_capabilities: vec!["z".repeat(41)],
        },
        NOW,
    );
    assert_eq!(result.unwrap_err(), RegistryError::CapabilityTagTooLong);
}

#[test]
fn bid_lands_at_index_zero() {
    // Task requires ["scout"] with a floor of 500; the agent offers
    // ["scout", "sentinel"] at reputation 600.
    let (_registry, mut agent) = registry_with_agent();
    agent.reputation_score = 600;
    let mut task = open_task(aid(2), 500, &["scout"]);
    let result = bid_on_task(&mut task, &agent, aid(3), 200, NOW + 600, NOW + 10);
    assert!(result.is_ok());
    assert_eq!(task.bids.len(), 1);
    assert_eq!(task.bids[0].agent, aid(3));
    assert_eq!(task.bids[0].bid_amount, 200);
    assert_eq!(task.bids[0].estimated_completion, NOW + 600);
    assert_eq!(task.bids[0].submitted_at, NOW + 10);
    assert_eq!(task.status, TaskStatus::Open);
}

#[test]
fn bid_fails_at_the_deadline() {
    let (_registry, agent) = registry_with_agent();
    let mut task = open_task(aid(2), 0, &[]);
    let result = bid_on_task(&mut task, &agent, aid(3), 200, DEADLINE + 600, DEADLINE);
    assert_eq!(result.unwrap_err(), RegistryError::TaskExpired);
    assert!(task.bids.is_empty());
}

#[test]
fn bid_fails_after_the_deadline_whatever_the_status() {
    let (_registry, agent) = registry_with_agent();

    // Open task, deadline passed.
    let mut task = open_task(aid(2), 0, &[]);
    let late = DEADLINE + 1;
    assert_eq!(
        bid_on_task(&mut task, &agent, aid(3), 200, late + 600, late).unwrap_err(),
        RegistryError::TaskExpired
    );

    // Assigned task, deadline passed: still fails, here as not-open.
    let mut assigned = open_task(aid(2), 0, &[]);
    bid_on_task(&mut assigned, &agent, aid(3), 200, NOW + 600, NOW + 10).unwrap();
    accept_bid(&mut assigned, aid(2), 0).unwrap();
    assert_eq!(
        bid_on_task(&mut assigned, &agent, aid(3), 180, late + 600, late).unwrap_err(),
        RegistryError::TaskNotOpen
    );
    assert_eq!(assigned.bids.len(), 1);
}

#[test]
fn bid_fails_without_every_required_capability() {
    let (_registry, agent) = registry_with_agent();
    // The agent offers ["scout", "sentinel"] but not "oracle".
    let mut task = open_task(aid(2), 0, &["scout", "oracle"]);
    let result = bid_on_task(&mut task, &agent, aid(3), 200, NOW + 600, NOW + 10);
    assert_eq!(result.unwrap_err(), RegistryError::MissingCapability);
    assert!(task.bids.is_empty());
}

#[test]
fn bid_fails_below_the_reputation_floor() {
    let (_registry, agent) = registry_with_agent();
    let mut task = open_task(aid(2), 501, &["scout"]);
    let result = bid_on_task(&mut task, &agent, aid(3), 200, NOW + 600, NOW + 10);
    assert_eq!(result.unwrap_err(), RegistryError::InsufficientReputation);
    assert!(task.bids.is_empty());
}

#[test]
fn bid_fails_once_the_collection_is_full() {
    let (_registry, agent) = registry_with_agent();
    let mut task = open_task(aid(2), 0, &[]);
    for i in 0..5u64 {
        bid_on_task(&mut task, &agent, aid(10 + i as u128), 200 + i, NOW + 600, NOW + 10)
            .unwrap();
    }
    assert_eq!(task.bids.len(), 5);
    let result = bid_on_task(&mut task, &agent, aid(20), 100, NOW + 600, NOW + 10);
    assert_eq!(result.unwrap_err(), RegistryError::BidCollectionFull);
    assert_eq!(task.bids.len(), 5);
}

#[test]
fn bid_fails_on_an_assigned_task() {
    let (_registry, agent) = registry_with_agent();
    let mut task = open_task(aid(2), 0, &[]);
    bid_on_task(&mut task, &agent, aid(3), 200, NOW + 600, NOW + 10).unwrap();
    accept_bid(&mut task, aid(2), 0).unwrap();
    let result = bid_on_task(&mut task, &agent, aid(4), 150, NOW + 600, NOW + 20);
    assert_eq!(result.unwrap_err(), RegistryError::TaskNotOpen);
}

#[test]
fn accept_bid_assigns_the_chosen_agent() {
    let (_registry, agent) = registry_with_agent();
    let mut task = open_task(aid(2), 0, &[]);
    bid_on_task(&mut task, &agent, aid(3), 200, NOW + 600, NOW + 10).unwrap();
    let snapshot = task.bids[0];

    accept_bid(&mut task, aid(2), 0).unwrap();
    assert_eq!(task.status, TaskStatus::Assigned);
    assert_eq!(task.assigned_agent, Some(aid(3)));
    assert_eq!(task.accepted_bid, Some(snapshot));
    // The bid list itself is untouched by acceptance.
    assert_eq!(task.bids.len(), 1);
    assert_eq!(task.bids[0], snapshot);
}

#[test]
fn accept_bid_rejects_a_caller_other_than_the_creator() {
    let (_registry, agent) = registry_with_agent();
    let mut task = open_task(aid(2), 0, &[]);
    bid_on_task(&mut task, &agent, aid(3), 200, NOW + 600, NOW + 10).unwrap();
    let result = accept_bid(&mut task, aid(5), 0);
    assert_eq!(result.unwrap_err(), RegistryError::Unauthorized);
    assert_eq!(task.status, TaskStatus::Open);
    assert_eq!(task.assigned_agent, None);
}

#[test]
fn accept_bid_rejects_an_index_out_of_bounds() {
    let (_registry, agent) = registry_with_agent();
    let mut task = open_task(aid(2), 0, &[]);
    bid_on_task(&mut task, &agent, aid(3), 200, NOW + 600, NOW + 10).unwrap();
    let result = accept_bid(&mut task, aid(2), 1);
    assert_eq!(result.unwrap_err(), RegistryError::InvalidBidIndex);
    assert_eq!(task.status, TaskStatus::Open);
}

#[test]
fn accept_bid_cannot_be_reissued() {
    let (_registry, agent) = registry_with_agent();
    let mut task = open_task(aid(2), 0, &[]);
    bid_on_task(&mut task, &agent, aid(3), 200, NOW + 600, NOW + 10).unwrap();
    accept_bid(&mut task, aid(2), 0).unwrap();

    let again = accept_bid(&mut task, aid(2), 0);
    assert_eq!(again.unwrap_err(), RegistryError::TaskNotOpen);
    assert_eq!(task.status, TaskStatus::Assigned);
    assert_eq!(task.assigned_agent, Some(aid(3)));
}

/// Create a task, submit one bid by the agent under `agent_id`, and
/// accept it, leaving the task assigned.
fn assigned_task(agent: &Agent, agent_id: AccountId) -> Task {
    let mut task = open_task(aid(2), 0, &[]);
    bid_on_task(&mut task, agent, agent_id, 250, NOW + 600, NOW + 10).unwrap();
    accept_bid(&mut task, aid(2), 0).unwrap();
    task
}

#[test]
fn complete_task_success_settles_everything() {
    let (mut registry, mut agent) = registry_with_agent();
    let mut task = assigned_task(&agent, aid(3));
    let settled_at = NOW + 700;

    let new_reputation =
        complete_task(&mut task, &mut agent, aid(3), &mut registry, true, 80, settled_at)
            .unwrap();
    // increase = min(80 * 2, 100) = 100, new = min(500 + 100, 1000) = 600
    assert_eq!(new_reputation, 600);
    assert_eq!(agent.reputation_score, 600);
    assert_eq!(agent.tasks_completed, 1);
    assert_eq!(agent.tasks_failed, 0);
    assert_eq!(agent.total_earnings, 250);
    assert_eq!(agent.last_active, settled_at);
    assert_eq!(task.status, TaskStatus::Completed);
    assert_eq!(task.completed_at, Some(settled_at));
    assert_eq!(task.performance_score, Some(80));
    assert_eq!(registry.total_tasks_completed, 1);
}

#[test]
fn complete_task_failure_deducts_and_counts() {
    let (mut registry, mut agent) = registry_with_agent();
    let mut task = assigned_task(&agent, aid(3));

    let new_reputation =
        complete_task(&mut task, &mut agent, aid(3), &mut registry, false, 80, NOW + 700)
            .unwrap();
    assert_eq!(new_reputation, 450);
    assert_eq!(agent.reputation_score, 450);
    assert_eq!(agent.tasks_completed, 0);
    assert_eq!(agent.tasks_failed, 1);
    assert_eq!(agent.total_earnings, 0);
    assert_eq!(task.status, TaskStatus::Failed);
    assert_eq!(registry.total_tasks_completed, 0);
}

#[test]
fn complete_task_failure_floors_reputation_at_zero() {
    let (mut registry, mut agent) = registry_with_agent();
    agent.reputation_score = 30;
    let mut task = assigned_task(&agent, aid(3));

    let new_reputation =
        complete_task(&mut task, &mut agent, aid(3), &mut registry, false, 0, NOW + 700)
            .unwrap();
    assert_eq!(new_reputation, 0);
    assert_eq!(agent.reputation_score, 0);
}

#[test]
fn complete_task_rejects_a_task_not_assigned() {
    let (mut registry, mut agent) = registry_with_agent();
    let mut task = open_task(aid(2), 0, &[]);
    let result =
        complete_task(&mut task, &mut agent, aid(3), &mut registry, true, 80, NOW + 700);
    assert_eq!(result.unwrap_err(), RegistryError::TaskNotAssigned);
    assert_eq!(task.status, TaskStatus::Open);
    assert_eq!(agent.reputation_score, 500);
}

#[test]
fn complete_task_rejects_an_agent_other_than_the_assignee() {
    let (mut registry, mut agent) = registry_with_agent();
    let mut task = assigned_task(&agent, aid(3));
    let result =
        complete_task(&mut task, &mut agent, aid(4), &mut registry, true, 80, NOW + 700);
    assert_eq!(result.unwrap_err(), RegistryError::UnauthorizedAgent);
    assert_eq!(task.status, TaskStatus::Assigned);
    assert_eq!(agent.reputation_score, 500);
    assert_eq!(registry.total_tasks_completed, 0);
}

#[test]
fn complete_task_rejects_a_score_above_one_hundred() {
    let (mut registry, mut agent) = registry_with_agent();
    let mut task = assigned_task(&agent, aid(3));
    let result =
        complete_task(&mut task, &mut agent, aid(3), &mut registry, true, 101, NOW + 700);
    assert_eq!(result.unwrap_err(), RegistryError::InvalidPerformanceScore);
    assert_eq!(task.status, TaskStatus::Assigned);
}

#[test]
fn complete_task_rejects_counter_overflow_without_mutating() {
    let (mut registry, mut agent) = registry_with_agent();
    let mut task = assigned_task(&agent, aid(3));
    agent.total_earnings = u64::MAX;

    let result =
        complete_task(&mut task, &mut agent, aid(3), &mut registry, true, 80, NOW + 700);
    assert_eq!(result.unwrap_err(), RegistryError::CounterOverflow);
    assert_eq!(task.status, TaskStatus::Assigned);
    assert_eq!(agent.reputation_score, 500);
    assert_eq!(agent.tasks_completed, 0);
    assert_eq!(registry.total_tasks_completed, 0);

    agent.total_earnings = 0;
    agent.tasks_failed = u64::MAX;
    let failure =
        complete_task(&mut task, &mut agent, aid(3), &mut registry, false, 0, NOW + 700);
    assert_eq!(failure.unwrap_err(), RegistryError::CounterOverflow);
    assert_eq!(task.status, TaskStatus::Assigned);
}

#[test]
fn update_agent_status_by_the_owner() {
    let (_registry, mut agent) = registry_with_agent();
    let result = update_agent_status(&mut agent, aid(1), AgentStatus::Suspended, NOW + 50);
    assert!(result.is_ok());
    assert_eq!(agent.status, AgentStatus::Suspended);
    assert_eq!(agent.last_active, NOW + 50);
}

#[test]
fn update_agent_status_rejects_a_stranger() {
    let (_registry, mut agent) = registry_with_agent();
    let result = update_agent_status(&mut agent, aid(5), AgentStatus::Inactive, NOW + 50);
    assert_eq!(result.unwrap_err(), RegistryError::Unauthorized);
    assert_eq!(agent.status, AgentStatus::Active);
    assert_eq!(agent.last_active, NOW);
}

#[test]
fn recommend_agents_returns_no_recommendations() {
    let recommended = recommend_agents(TaskType::Predict, 5);
    assert!(recommended.is_empty());
}

#[test]
fn error_messages_name_each_failure() {
    assert_eq!(RegistryError::TaskNotOpen.message(), "Task is not open for bidding");
    assert_eq!(RegistryError::TaskExpired.message(), "Task has expired");
    assert_eq!(
        RegistryError::InsufficientReputation.message(),
        "Insufficient reputation"
    );
    assert_eq!(RegistryError::MissingCapability.message(), "Missing required capability");
    assert_eq!(RegistryError::Unauthorized.message(), "Unauthorized");
    assert_eq!(RegistryError::InvalidBidIndex.message(), "Invalid bid index");
    assert_eq!(RegistryError::TaskNotAssigned.message(), "Task is not assigned");
    assert_eq!(RegistryError::UnauthorizedAgent.message(), "Unauthorized agent");
}

#[test]
fn bid_succeeds_exactly_at_the_reputation_floor() {
    let (_registry, agent) = registry_with_agent();
    // The agent's reputation of 500 meets a floor of exactly 500.
    let mut task = open_task(aid(2), 500, &["scout"]);
    assert!(bid_on_task(&mut task, &agent, aid(3), 200, NOW + 600, NOW + 10).is_ok());
    assert_eq!(task.bids.len(), 1);
}

#[test]
fn bid_succeeds_just_before_the_deadline() {
    let (_registry, agent) = registry_with_agent();
    let mut task = open_task(aid(2), 0, &[]);
    assert!(bid_on_task(&mut task, &agent, aid(3), 200, DEADLINE + 600, DEADLINE - 1).is_ok());
    assert_eq!(task.bids[0].submitted_at, DEADLINE - 1);
}
