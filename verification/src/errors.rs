use vstd::prelude::*;

verus! {

/// Everything a marketplace operation can fail with.
///
/// Every failure is synchronous and terminal for its call: the operation
/// returns the error and leaves all the records it took unchanged.
#[derive(Clone, Copy, PartialEq, Eq, Structural, Debug)]
pub enum RegistryError {
    /// The task is not open for bidding.
    TaskNotOpen,
    /// The task's bidding deadline has passed.
    TaskExpired,
    /// The agent's reputation is below the task's floor.
    InsufficientReputation,
    /// The agent lacks a capability the task requires.
    MissingCapability,
    /// The caller is neither the record's owner nor its creator.
    Unauthorized,
    /// The bid index points outside the task's bid list.
    InvalidBidIndex,
    /// The task has no assigned agent to settle.
    TaskNotAssigned,
    /// The reporting agent is not the task's assigned agent.
    UnauthorizedAgent,
    /// A capability list is longer than its record budget allows.
    TooManyCapabilities,
    /// A capability tag is longer than its byte budget allows.
    CapabilityTagTooLong,
    /// The task's bid list has reached its bound.
    BidCollectionFull,
    /// The performance score lies outside the meaningful range.
    InvalidPerformanceScore,
    /// A cumulative counter would overflow its integer width.
    CounterOverflow,
}

impl RegistryError {
    /// The short description each failure carries.
    pub open spec fn message_spec(self) -> Seq<char> {
        match self {
            RegistryError::TaskNotOpen => "Task is not open for bidding"@,
            RegistryError::TaskExpired => "Task has expired"@,
            RegistryError::InsufficientReputation => "Insufficient reputation"@,
            RegistryError::MissingCapability => "Missing required capability"@,
            RegistryError::Unauthorized => "Unauthorized"@,
            RegistryError::InvalidBidIndex => "Invalid bid index"@,
            RegistryError::TaskNotAssigned => "Task is not assigned"@,
            RegistryError::UnauthorizedAgent => "Unauthorized agent"@,
            RegistryError::TooManyCapabilities => "Too many capability tags"@,
            RegistryError::CapabilityTagTooLong => "Capability tag is too long"@,
            RegistryError::BidCollectionFull => "Bid collection is full"@,
            RegistryError::InvalidPerformanceScore => "Performance score is out of range"@,
            RegistryError::CounterOverflow => "Counter would overflow"@,
        }
    }

    /// Short human-readable description of the failure.
    pub fn message(&self) -> (msg: &'static str)
        ensures
            msg@ == self.message_spec(),
    {
        match self {
            RegistryError::TaskNotOpen => "Task is not open for bidding",
            RegistryError::TaskExpired => "Task has expired",
            RegistryError::InsufficientReputation => "Insufficient reputation",
            RegistryError::MissingCapability => "Missing required capability",
            RegistryError::Unauthorized => "Unauthorized",
            RegistryError::InvalidBidIndex => "Invalid bid index",
            RegistryError::TaskNotAssigned => "Task is not assigned",
            RegistryError::UnauthorizedAgent => "Unauthorized agent",
            RegistryError::TooManyCapabilities => "Too many capability tags",
            RegistryError::CapabilityTagTooLong => "Capability tag is too long",
            RegistryError::BidCollectionFull => "Bid collection is full",
            RegistryError::InvalidPerformanceScore => "Performance score is out of range",
            RegistryError::CounterOverflow => "Counter would overflow",
        }
    }
}

} // verus!
