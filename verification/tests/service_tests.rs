use chronos::agent::{Agent, AgentState};
use chronos::audit::AuditVerdict;
use chronos::budget::Budget;
use chronos::checkpoint::{Checkpoint, Message, MessageRole};
use chronos::cognition::{complete_step, next_loop_action, step_interval_seconds, step_prompt, LoopAction, LoopEvent};
use chronos::error::DomainError;
use chronos::llm::{
    api_error, bearer, chat_messages, completions_url, estimate_cost_micros, interpret_chat_reply,
    wire_role, ChatUsage, LlmResponse, MockLlmProvider,
};
use chronos::orchestration::plan_dev_mission;
use chronos::shadow::{audit_model, audit_prompt, audit_report, inject_heal_impulse, judge_answer, verdict_from_lowercase};
use chronos::mission::MissionStatus;

fn running_agent(tokens: u32, cost: u64) -> Agent {
    let mut agent = Agent::new("Worker".to_string(), "gpt-4".to_string(), cost, tokens);
    agent.start().unwrap();
    agent
}

fn response(content: &str, prompt: u32, completion: u32, cost: u64) -> LlmResponse {
    LlmResponse {
        content: content.to_string(),
        prompt_tokens: prompt,
        completion_tokens: completion,
        total_cost_micros: cost,
    }
}

#[test]
fn mock_provider_quotes_last_message() {
    let mock = MockLlmProvider;
    let r = mock.completion("m", &[]).unwrap();
    assert_eq!(r.content, "I am a simulated response to: 'No input'. I am processing your task.");
    assert_eq!((r.prompt_tokens, r.completion_tokens, r.total_cost_micros), (10, 20, 100));
    let ms = vec![
        Message::now(MessageRole::System, "first".to_string()),
        Message::now(MessageRole::User, "last one".to_string()),
    ];
    let r = mock.completion("m", &ms).unwrap();
    assert_eq!(r.content, "I am a simulated response to: 'last one'. I am processing your task.");
}

#[test]
fn chat_api_rules() {
    assert_eq!(wire_role(MessageRole::System), "system");
    assert_eq!(wire_role(MessageRole::User), "user");
    assert_eq!(wire_role(MessageRole::Assistant), "assistant");
    assert_eq!(wire_role(MessageRole::Tool), "user");
    assert_eq!(estimate_cost_micros(ChatUsage { prompt_tokens: 10, completion_tokens: 20 }), 50);
    assert_eq!(completions_url("https://api.openai.com/v1"), "https://api.openai.com/v1/chat/completions");
    assert_eq!(bearer("k"), "Bearer k");
    match api_error("boom") {
        DomainError::Internal(d) => assert_eq!(d, "API error: boom"),
        other => panic!("unexpected {:?}", other),
    }
    let ms = vec![Message::now(MessageRole::Tool, "out".to_string())];
    let chat = chat_messages(&ms);
    assert_eq!(chat.len(), 1);
    assert_eq!(chat[0].role, "user");
    assert_eq!(chat[0].content, "out");
}

#[test]
fn chat_reply_interpretation() {
    match interpret_chat_reply(None, None) {
        Err(DomainError::Internal(d)) => assert_eq!(d, "No choices returned from LLM"),
        other => panic!("unexpected {:?}", other),
    }
    match interpret_chat_reply(Some(None), None) {
        Err(DomainError::Internal(d)) => assert_eq!(d, "Empty message content returned from LLM"),
        other => panic!("unexpected {:?}", other),
    }
    let r = interpret_chat_reply(Some(Some("hi".to_string())), None).unwrap();
    assert_eq!((r.content.as_str(), r.prompt_tokens, r.completion_tokens, r.total_cost_micros), ("hi", 0, 0, 0));
    let usage = ChatUsage { prompt_tokens: 1000, completion_tokens: 500 };
    let r = interpret_chat_reply(Some(Some("x".to_string())), Some(usage)).unwrap();
    assert_eq!((r.prompt_tokens, r.completion_tokens, r.total_cost_micros), (1000, 500, 2000));
}

#[test]
fn step_prompt_requires_running_agent() {
    let agent = Agent::new("Idle".to_string(), "m".to_string(), 1, 1);
    match step_prompt(&agent, "[]") {
        Err(DomainError::InvalidStateTransition(id, d)) => {
            assert_eq!(id, agent.id);
            assert_eq!(d, "Agent is not in Running state");
        }
        other => panic!("unexpected {:?}", other.map(|m| m.len())),
    }
    let agent = running_agent(100, 100);
    let ms = step_prompt(&agent, "[{}]").unwrap();
    assert_eq!(ms.len(), 2);
    assert_eq!(ms[0].role, MessageRole::System);
    assert_eq!(
        ms[0].content,
        "You are a Chronos Agent. You have access to the following tools: [{}]. If you need to perform an action, output a JSON object with 'tool_call' containing 'tool_name' and 'arguments'."
    );
    assert_eq!(ms[1].role, MessageRole::User);
    assert_eq!(ms[1].content, "Continue your work for agent Worker");
}

#[test]
fn step_records_answer_and_tool_observation() {
    let mut agent = running_agent(1000, 1000);
    let prompt = step_prompt(&agent, "[]").unwrap();
    let cp = complete_step(&mut agent, prompt, response("{\"tool_call\": {}}", 10, 20, 100)).unwrap();
    assert_eq!(cp.agent_id, agent.id);
    assert_eq!(cp.messages.len(), 4);
    assert_eq!(cp.messages[2].role, MessageRole::Assistant);
    assert_eq!(cp.messages[2].content, "{\"tool_call\": {}}");
    assert_eq!(cp.messages[3].role, MessageRole::Tool);
    assert_eq!(cp.messages[3].content, "Tool executed successfully.");
    assert!(cp.tools.is_empty());
    assert_eq!(agent.budget.current_tokens, 30);
    assert_eq!(agent.budget.current_cost_micros, 100);

    let prompt = step_prompt(&agent, "[]").unwrap();
    let cp = complete_step(&mut agent, prompt, response("just thinking about tool_call", 1, 1, 1)).unwrap();
    assert_eq!(cp.messages.len(), 3);
    assert_eq!(cp.messages[2].content, "just thinking about tool_call");
}

#[test]
fn step_over_budget_changes_nothing() {
    let mut agent = running_agent(25, 1000);
    let prompt = step_prompt(&agent, "[]").unwrap();
    match complete_step(&mut agent, prompt, response("x", 10, 20, 1)) {
        Err(DomainError::BudgetExceeded(id, d)) => {
            assert_eq!(id, agent.id);
            assert_eq!(d, "Token limit 25 exceeded (attempted to use 30)");
        }
        other => panic!("unexpected {:?}", other.map(|c| c.messages.len())),
    }
    assert_eq!(agent.budget, Budget::new(1000, 25));
    assert_eq!(agent.state, AgentState::Running);
}

#[test]
fn background_loop_rule() {
    assert_eq!(next_loop_action(LoopEvent::AgentLoaded(AgentState::Running)), LoopAction::RunStep);
    assert_eq!(next_loop_action(LoopEvent::AgentLoaded(AgentState::Suspended)), LoopAction::Finish);
    assert_eq!(next_loop_action(LoopEvent::AgentLoaded(AgentState::Error)), LoopAction::Finish);
    assert_eq!(next_loop_action(LoopEvent::AgentUnavailable), LoopAction::Finish);
    assert_eq!(next_loop_action(LoopEvent::StepSucceeded), LoopAction::WaitThenReload);
    assert_eq!(next_loop_action(LoopEvent::StepFailed), LoopAction::FailAgentAndFinish);
    assert_eq!(step_interval_seconds(), 5);
}

#[test]
fn audit_verdicts() {
    assert!(matches!(judge_answer("{\"Verdict\": \"PASS\"}"), AuditVerdict::Pass));
    assert!(matches!(verdict_from_lowercase("{\"verdict\": \"pass\"}"), AuditVerdict::Pass));
    assert!(matches!(verdict_from_lowercase("{\"Verdict\": \"PASS\"}"), AuditVerdict::Fail { .. }));
    match judge_answer("I am a simulated response to: 'x'.") {
        AuditVerdict::Fail { error_log, suggested_fix, severity } => {
            assert_eq!(error_log, "Audit detected anomalies in the execution.");
            assert_eq!(suggested_fix, "Review the system logs and correct the syntax/logic.");
            assert_eq!(severity, 3);
        }
        AuditVerdict::Pass => panic!("should fail"),
    }
    let report = audit_report(1, 2, "Some bad code");
    assert_eq!((report.worker_agent_id, report.checkpoint_id), (1, 2));
    assert!(!report.is_success());
    assert!(audit_report(1, 2, "\"verdict\": \"pass\"").is_success());
    assert_eq!(audit_model(), "gpt-4o");
}

#[test]
fn audit_prompt_boots_the_auditor() {
    let ms = audit_prompt("Some bad code");
    assert_eq!(ms.len(), 2);
    assert_eq!(ms[0].role, MessageRole::System);
    assert!(ms[0].content.starts_with("You are the internal AetherOS Kernel Auditor."));
    assert!(ms[0].content.ends_with("\n5. Your role: Kernel Shadow Auditor"));
    assert!(ms[0].content.contains("Available Tools: {}"));
    assert_eq!(ms[1].content, "Verify this execution result:\nSome bad code");
}

#[test]
fn heal_impulse_is_appended() {
    let mut cp = Checkpoint::new(7, vec![Message::now(MessageRole::User, "hi".to_string())], vec![]);
    let id = cp.id;
    inject_heal_impulse(&mut cp, "use a loop");
    assert_eq!(cp.id, id);
    assert_eq!(cp.agent_id, 7);
    assert_eq!(cp.messages.len(), 2);
    assert_eq!(cp.messages[1].role, MessageRole::System);
    assert_eq!(
        cp.messages[1].content,
        "[KERNEL DEEP-HEAL IMPULSE]\nYour last action was rejected by the Shadow Auditor. Correct your path using this instruction:\nuse a loop"
    );
}

#[test]
fn dev_mission_plan() {
    let plan = plan_dev_mission("Test Mission".to_string(), "Build a test".to_string());
    assert_eq!(plan.mission.status, MissionStatus::Active);
    assert_eq!(plan.mission.description, "Build a test");
    assert_eq!(plan.mission.agent_ids.len(), 2);
    assert!(plan.mission.agent_ids.contains(&plan.architect.id));
    assert!(plan.mission.agent_ids.contains(&plan.coder.id));
    assert_eq!(plan.architect.name, "Test Mission-Architect");
    assert_eq!(plan.coder.name, "Test Mission-Coder");
    assert_eq!(plan.architect.budget.max_tokens, 50000);
    assert_eq!(plan.architect.budget.max_cost_micros, 5_000_000);
    assert_eq!(plan.coder.budget.max_tokens, 100000);
    assert_eq!(plan.coder.budget.max_cost_micros, 10_000_000);
    assert_eq!(plan.architect.state, AgentState::Pending);
    assert_eq!(plan.launch, vec![plan.architect.id]);
    for id in [plan.mission.id, plan.mission.shared_context_id, plan.architect.id, plan.coder.id] {
        assert_eq!(id & 0xF000_C000_0000_0000_0000, 0x4000_8000_0000_0000_0000);
    }
    assert_eq!(plan.architect.created_at, plan.architect.updated_at);
    assert_eq!(plan.architect_identity.role_name, "Lead Architect");
    assert_eq!(plan.coder_identity.role_name, "Senior Developer");
}
