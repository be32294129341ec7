//! Chronos: the verified core of an agent operating-system kernel.
//!
//! The library holds the kernel's domain model (agents and their
//! lifecycle, budgets, cognitive checkpoints, identities, missions, the
//! tool registry) and the decisions of its services (the cognitive step,
//! the shadow audit, mission planning and the kernel's request handling),
//! each with a contract that states what it does.

pub mod clock;
pub mod text;
pub mod error;
pub mod budget;
pub mod agent;
pub mod checkpoint;
pub mod mission;
pub mod identity;
pub mod tool;
pub mod llm;
pub mod tools;
pub mod audit;
pub mod cognition;
pub mod shadow;
pub mod orchestration;
pub mod kernel;
pub mod storage;
