//! The kernel's domain errors.
use crate::clock::Id;
use vstd::prelude::*;

verus! {

/// Core domain errors of the kernel.
#[derive(Debug)]
pub enum DomainError {
    /// An agent with this identifier does not exist.
    AgentNotFound(Id),
    /// A lifecycle transition that the agent's state does not allow.
    InvalidStateTransition(Id, String),
    /// The agent has exceeded its token or cost budget.
    BudgetExceeded(Id, String),
    /// Saving or loading the agent's state failed.
    PersistenceError(Id, String),
    /// Any other failure inside the kernel.
    Internal(String),
}

/// The result of a domain operation.
pub type DomainResult<T> = Result<T, DomainError>;

/// Whether `e` is the error `InvalidStateTransition(id, detail)` with a
/// detail text of `detail`.
pub open spec fn is_invalid_transition(e: DomainError, id: Id, detail: Seq<char>) -> bool {
    e matches DomainError::InvalidStateTransition(i, d) && i == id && d@ == detail
}

/// Whether `e` is the error `BudgetExceeded(id, detail)` with a detail text
/// of `detail`.
pub open spec fn is_budget_exceeded(e: DomainError, id: Id, detail: Seq<char>) -> bool {
    e matches DomainError::BudgetExceeded(i, d) && i == id && d@ == detail
}

/// Whether `e` is the error `Internal(detail)` with a detail text of
/// `detail`.
pub open spec fn is_internal(e: DomainError, detail: Seq<char>) -> bool {
    e matches DomainError::Internal(d) && d@ == detail
}

} // verus!
