use chronos::agent::{Agent, AgentState};
use chronos::budget::Budget;
use chronos::clock::new_id;
use chronos::error::DomainError;
use chronos::identity::Identity;
use chronos::mission::{Mission, MissionStatus};
use chronos::tool::ToolRegistry;

/// Dollars as the micro-dollars the library counts in.
fn usd(dollars: f64) -> u64 {
    (dollars * 1_000_000.0).round() as u64
}

/// Micro-dollars as dollars.
fn dollars(micros: u64) -> f64 {
    micros as f64 / 1_000_000.0
}

#[test]
fn test_agent_state_transitions() {
    let mut agent = Agent::new("Test".to_string(), "model".to_string(), usd(1.0), 1000);

    assert_eq!(agent.state, AgentState::Pending);

    // Start agent
    agent.start().expect("Should start");
    assert_eq!(agent.state, AgentState::Running);

    // Pause agent
    agent.pause().expect("Should pause");
    assert_eq!(agent.state, AgentState::Suspended);

    // Resume agent
    agent.start().expect("Should resume");
    assert_eq!(agent.state, AgentState::Running);

    // Stop agent
    agent.stop();
    assert_eq!(agent.state, AgentState::Terminated);
}

#[test]
fn test_budget_consumption() {
    let mut budget = Budget::new(usd(0.01), 100);
    let id = new_id();

    // Valid consumption
    budget.consume(id, 50, usd(0.005)).expect("Should consume");
    assert_eq!(budget.remaining_tokens(), 50);
    assert_eq!(dollars(budget.remaining_cost()), 0.005);

    // Exceed tokens
    let result = budget.consume(id, 60, usd(0.001));
    assert!(result.is_err(), "Should fail due to token limit");

    // Exceed cost
    let result = budget.consume(id, 1, usd(0.01));
    assert!(result.is_err(), "Should fail due to cost limit");
}

#[test]
fn test_identity_boot_prompt() {
    let mut identity = Identity::new("Architect".to_string(), "You design systems.".to_string());
    identity.allow_tool("shell_execute");

    let prompt = identity.boot_prompt();
    assert!(prompt.contains("Architect"));
    assert!(prompt.contains("AETHER-OS KERNEL INSTRUCTIONS"));
    assert!(prompt.contains("shell_execute"));
}

#[test]
fn test_mission_management() {
    let mut mission = Mission::new("Build App".to_string(), "Create a React app.".to_string());
    let agent_id = new_id();

    assert_eq!(mission.status, MissionStatus::Queued);
    mission.add_agent(agent_id);
    assert!(mission.agent_ids.contains(&agent_id));
}

struct MockTool;

#[test]
fn test_tool_registry() {
    let mut registry: ToolRegistry<MockTool> = ToolRegistry::new();
    registry.register("mock".to_string(), "{}".to_string(), MockTool);

    assert!(registry.get("mock").is_some());
    assert!(registry.get("unknown").is_none());
    assert!(registry.combined_schema().contains("{}"));
}

#[test]
fn budget_refusals_name_limit_and_attempt() {
    let mut budget = Budget::new(10_000, 100);
    let id = new_id();
    budget.consume(id, 90, 5_000).unwrap();
    match budget.consume(id, 20, 0) {
        Err(DomainError::BudgetExceeded(who, detail)) => {
            assert_eq!(who, id);
            assert_eq!(detail, "Token limit 100 exceeded (attempted to use 110)");
        }
        other => panic!("unexpected {:?}", other),
    }
    match budget.consume(id, 1, 10_000) {
        Err(DomainError::BudgetExceeded(who, detail)) => {
            assert_eq!(who, id);
            assert_eq!(detail, "Cost limit $0.0100 exceeded (attempted to spend $0.0150)");
        }
        other => panic!("unexpected {:?}", other),
    }
    // Refusals leave the budget as it was.
    assert_eq!(budget.current_tokens, 90);
    assert_eq!(budget.current_cost_micros, 5_000);
}

#[test]
fn budget_cost_detail_rounds_to_four_decimals() {
    let mut budget = Budget::new(1_234_549, 10);
    match budget.consume(0, 1, 2_000_050) {
        Err(DomainError::BudgetExceeded(_, detail)) => {
            assert_eq!(detail, "Cost limit $1.2345 exceeded (attempted to spend $2.0000)");
        }
        other => panic!("unexpected {:?}", other),
    }
    // Ties round to the even fourth decimal, as float formatting does for
    // exactly representable amounts.
    let mut budget = Budget::new(31_250, 10);
    match budget.consume(0, 1, 31_350) {
        Err(DomainError::BudgetExceeded(_, detail)) => {
            assert_eq!(detail, "Cost limit $0.0312 exceeded (attempted to spend $0.0314)");
            assert_eq!(format!("{:.4}", 0.03125f64), "0.0312");
        }
        other => panic!("unexpected {:?}", other),
    }
}

#[test]
fn budget_accepts_exactly_up_to_its_limits() {
    let mut budget = Budget::new(100, 10);
    budget.consume(1, 10, 100).unwrap();
    assert_eq!(budget.remaining_tokens(), 0);
    assert_eq!(budget.remaining_cost(), 0);
    assert!(budget.consume(1, 0, 0).is_ok());
    assert!(budget.consume(1, 1, 0).is_err());
    assert!(budget.consume(1, 0, 1).is_err());
}

#[test]
fn budget_consumption_is_additive() {
    let mut two_steps = Budget::new(1_000, 100);
    two_steps.consume(7, 30, 200).unwrap();
    two_steps.consume(7, 20, 300).unwrap();
    let mut one_step = Budget::new(1_000, 100);
    one_step.consume(7, 50, 500).unwrap();
    assert_eq!(two_steps, one_step);
}

#[test]
fn budget_remaining_saturates_at_zero() {
    let budget = Budget { max_cost_micros: 10, max_tokens: 5, current_cost_micros: 20, current_tokens: 9 };
    assert_eq!(budget.remaining_tokens(), 0);
    assert_eq!(budget.remaining_cost(), 0);
}

#[test]
fn agent_refused_transitions_leave_it_unchanged() {
    let mut agent = Agent::new("A".to_string(), "m".to_string(), 1, 1);
    let before = agent.updated_at;
    match agent.pause() {
        Err(DomainError::InvalidStateTransition(id, detail)) => {
            assert_eq!(id, agent.id);
            assert_eq!(detail, "Only running agents can be paused (current: Pending)");
        }
        other => panic!("unexpected {:?}", other),
    }
    assert_eq!(agent.state, AgentState::Pending);
    assert_eq!(agent.updated_at, before);
    agent.start().unwrap();
    match agent.start() {
        Err(DomainError::InvalidStateTransition(_, detail)) => {
            assert_eq!(detail, "Cannot start agent from Running state");
        }
        other => panic!("unexpected {:?}", other),
    }
}

#[test]
fn agent_terminated_or_failed_cannot_start_or_pause() {
    let mut agent = Agent::new("A".to_string(), "m".to_string(), 1, 1);
    agent.stop();
    assert!(agent.start().is_err());
    assert!(agent.pause().is_err());
    assert_eq!(agent.state, AgentState::Terminated);
    let mut failed = Agent::new("B".to_string(), "m".to_string(), 1, 1);
    failed.start().unwrap();
    failed.fail();
    assert_eq!(failed.state, AgentState::Error);
    match failed.start() {
        Err(DomainError::InvalidStateTransition(_, detail)) => {
            assert_eq!(detail, "Cannot start agent from Error state");
        }
        other => panic!("unexpected {:?}", other),
    }
}

#[test]
fn agent_new_is_pending_with_fresh_budget() {
    let agent = Agent::new("Name".to_string(), "gpt-4".to_string(), 5_000_000, 50_000);
    assert_eq!(agent.name, "Name");
    assert_eq!(agent.model_id, "gpt-4");
    assert_eq!(agent.budget, Budget::new(5_000_000, 50_000));
    assert_eq!(agent.created_at, agent.updated_at);
    assert!(agent.created_at.nanos < 1_000_000_000);
}

#[test]
fn state_names_round_trip() {
    for s in [
        AgentState::Pending,
        AgentState::Running,
        AgentState::Suspended,
        AgentState::Terminated,
        AgentState::Error,
    ] {
        assert_eq!(AgentState::from_name(s.name()), Some(s));
        assert_eq!(s.name(), format!("{:?}", s));
    }
    assert_eq!(AgentState::from_name("running"), None);
}

#[test]
fn identity_allows_each_tool_once() {
    let mut identity = Identity::new("R".to_string(), "P".to_string());
    identity.allow_tool("a");
    identity.allow_tool("b");
    identity.allow_tool("a");
    assert_eq!(identity.allowed_tools, vec!["a".to_string(), "b".to_string()]);
    assert_eq!(
        identity.boot_prompt(),
        "P\n\n[AETHER-OS KERNEL INSTRUCTIONS]\n1. You are running as a managed process in AetherOS.\n2. Every action is checkpointed for persistence.\n3. Available Tools: {\"a\", \"b\"}\n4. If you exceed your budget, you will be suspended.\n5. Your role: R"
    );
}

#[test]
fn identity_boot_prompt_escapes_tool_names() {
    let mut identity = Identity::new("R".to_string(), "P".to_string());
    assert!(identity.boot_prompt().contains("Available Tools: {}\n"));
    identity.allow_tool("say \"hi\"");
    assert!(identity.boot_prompt().contains("Available Tools: {\"say \\\"hi\\\"\"}\n"));
}

#[test]
fn mission_add_agent_twice_adds_once() {
    let mut mission = Mission::new("T".to_string(), "D".to_string());
    let a = new_id();
    mission.add_agent(a);
    mission.add_agent(a);
    assert_eq!(mission.agent_ids.len(), 1);
    assert_ne!(mission.id, mission.shared_context_id);
}

#[test]
fn tool_registry_replaces_by_name_and_keeps_order() {
    let mut registry: ToolRegistry<u32> = ToolRegistry::default();
    assert_eq!(registry.combined_schema(), "[]");
    registry.register("a".to_string(), "{\"a\":1}".to_string(), 1);
    registry.register("b".to_string(), "{\"b\":2}".to_string(), 2);
    registry.register("a".to_string(), "{\"a\":3}".to_string(), 3);
    assert_eq!(registry.get("a"), Some(&3));
    assert_eq!(registry.get("b"), Some(&2));
    assert_eq!(registry.combined_schema(), "[{\"a\":3},{\"b\":2}]");
}

#[test]
fn new_ids_are_random_version_four() {
    let a = new_id();
    let b = new_id();
    assert_ne!(a, b);
    assert_eq!(a & 0xF000_C000_0000_0000_0000, 0x4000_8000_0000_0000_0000);
    assert_eq!(uuid::Uuid::from_u128(a).get_version_num(), 4);
}
