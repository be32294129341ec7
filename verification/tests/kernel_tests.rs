use chronos::agent::AgentState;
use chronos::error::DomainError;
use chronos::kernel::{
    monitor_key_action, monitor_label, next_selection, previous_selection, selection_after_refresh,
    spawn_agent, state_label, stats_of, BudgetRequest, InputMode, MonitorAction, MonitorKey,
};
use chronos::storage::{
    agent_id_from_text, agent_id_text, agent_row, checkpoint_keys, decode_state, listed_agent, read_id,
    restore_agent, restore_checkpoint,
};
use chronos::agent::Agent;
use chronos::checkpoint::Checkpoint;
use chronos::clock::{now, Timestamp};
use chronos::tools::{FileSystemTool, ShellTool};

#[test]
fn spawned_agents_run_with_requested_or_default_budget() {
    let a = spawn_agent("n".to_string(), "m".to_string(), None);
    assert_eq!(a.state, AgentState::Running);
    assert_eq!((a.budget.max_cost_micros, a.budget.max_tokens), (1_000_000, 10000));
    let b = spawn_agent("n".to_string(), "m".to_string(), Some(BudgetRequest { max_cost_micros: 7, max_tokens: 8 }));
    assert_eq!((b.budget.max_cost_micros, b.budget.max_tokens), (7, 8));
    let s = stats_of(&b);
    assert_eq!((s.tokens_consumed, s.cost_micros, s.step_count), (0, 0, 0));
}

#[test]
fn wire_codes_and_labels() {
    let states = [
        AgentState::Pending,
        AgentState::Running,
        AgentState::Suspended,
        AgentState::Terminated,
        AgentState::Error,
    ];
    let labels = ["PENDING", "RUNNING", "SUSPENDED", "TERMINATED", "ERROR"];
    for (i, s) in states.iter().enumerate() {
        assert_eq!(s.wire_code(), i as i32);
        assert_eq!(state_label(s.wire_code()), labels[i]);
    }
    assert_eq!(state_label(9), "UNKNOWN");
    assert_eq!(monitor_label(1), "RUN");
    assert_eq!(monitor_label(2), "PAUSE");
    assert_eq!(monitor_label(4), "ERR");
    assert_eq!(monitor_label(0), "IDLE");
    assert_eq!(monitor_label(3), "IDLE");
}

#[test]
fn monitor_selection_wraps() {
    assert_eq!(next_selection(None, 3), Some(0));
    assert_eq!(next_selection(Some(0), 3), Some(1));
    assert_eq!(next_selection(Some(2), 3), Some(0));
    assert_eq!(previous_selection(Some(0), 3), Some(2));
    assert_eq!(previous_selection(Some(2), 3), Some(1));
    assert_eq!(previous_selection(None, 3), Some(0));
    assert_eq!(next_selection(Some(4), 0), Some(4));
    assert_eq!(previous_selection(None, 0), None);
    assert_eq!(previous_selection(next_selection(Some(1), 3), 3), Some(1));
    assert_eq!(selection_after_refresh(None, 2), Some(0));
    assert_eq!(selection_after_refresh(None, 0), None);
    assert_eq!(selection_after_refresh(Some(1), 2), Some(1));
}

#[test]
fn monitor_key_bindings() {
    assert_eq!(monitor_key_action(InputMode::Normal, MonitorKey::Char('q')), MonitorAction::Quit);
    assert_eq!(monitor_key_action(InputMode::Normal, MonitorKey::Char('i')), MonitorAction::StartEditing);
    assert_eq!(monitor_key_action(InputMode::Normal, MonitorKey::Char('/')), MonitorAction::StartEditing);
    assert_eq!(monitor_key_action(InputMode::Normal, MonitorKey::Down), MonitorAction::SelectNext);
    assert_eq!(monitor_key_action(InputMode::Normal, MonitorKey::Up), MonitorAction::SelectPrevious);
    assert_eq!(monitor_key_action(InputMode::Normal, MonitorKey::Char('p')), MonitorAction::PauseSelected);
    assert_eq!(monitor_key_action(InputMode::Normal, MonitorKey::Char('r')), MonitorAction::ResumeSelected);
    assert_eq!(monitor_key_action(InputMode::Normal, MonitorKey::Char('k')), MonitorAction::StopSelected);
    assert_eq!(monitor_key_action(InputMode::Normal, MonitorKey::Enter), MonitorAction::Nothing);
    assert_eq!(monitor_key_action(InputMode::Editing, MonitorKey::Char('q')), MonitorAction::TypeChar('q'));
    assert_eq!(monitor_key_action(InputMode::Editing, MonitorKey::Enter), MonitorAction::SendCommand);
    assert_eq!(monitor_key_action(InputMode::Editing, MonitorKey::Backspace), MonitorAction::DeleteChar);
    assert_eq!(monitor_key_action(InputMode::Editing, MonitorKey::Esc), MonitorAction::StopEditing);
    assert_eq!(monitor_key_action(InputMode::Editing, MonitorKey::Up), MonitorAction::Nothing);
}

#[test]
fn stored_rows_are_read_back() {
    let id = uuid::Uuid::new_v4();
    let t = now();
    let a = restore_agent(
        &id.to_string(),
        "PersistTest".to_string(),
        "gpt-4".to_string(),
        "Running",
        1_000_000,
        1000,
        5,
        (1i64 << 32) + 6,
        t,
        Timestamp { seconds: t.seconds + 1, nanos: 0 },
    )
    .unwrap();
    assert_eq!(a.id, id.as_u128());
    assert_eq!(a.name, "PersistTest");
    assert_eq!(a.model_id, "gpt-4");
    assert_eq!(a.state, AgentState::Running);
    assert_eq!(a.budget.max_tokens, 1000);
    assert_eq!(a.budget.current_tokens, 6);
    assert_eq!(a.created_at, t);
    match restore_agent("x", String::new(), String::new(), "Sleeping", 0, 0, 0, 0, t, t) {
        Err(DomainError::Internal(d)) => assert_eq!(d, "Unknown agent state: Sleeping"),
        other => panic!("unexpected {:?}", other),
    }
    assert_eq!(decode_state("Suspended").unwrap(), AgentState::Suspended);
    assert_eq!(read_id("not a uuid"), 0);
    assert_eq!(read_id(&id.simple().to_string()), id.as_u128());
    let cp = restore_checkpoint(&id.to_string(), 3, vec![], vec![], t);
    assert_eq!((cp.id, cp.agent_id), (id.as_u128(), 3));
}

#[test]
fn file_tool_checks_arguments_and_reports() {
    let tool = FileSystemTool;
    assert_eq!(tool.name(), "fs_write");
    assert!(tool.schema().contains("\"name\": \"fs_write\""));
    match tool.write_request(None, Some("c")) {
        Err(DomainError::Internal(d)) => assert_eq!(d, "Missing 'path' argument"),
        other => panic!("unexpected {:?}", other),
    }
    match tool.write_request(Some("p"), None) {
        Err(DomainError::Internal(d)) => assert_eq!(d, "Missing 'content' argument"),
        other => panic!("unexpected {:?}", other),
    }
    let (p, c) = tool.write_request(Some("test_file.txt"), Some("Hello AetherOS")).unwrap();
    assert_eq!((p.as_str(), c.as_str()), ("test_file.txt", "Hello AetherOS"));
    let ok = tool.write_outcome("test_file.txt", None);
    assert_eq!((ok.tool_name.as_str(), ok.result.as_str(), ok.is_error), ("fs_write", "Successfully wrote to test_file.txt", false));
    let bad = tool.write_outcome("/x", Some("denied"));
    assert_eq!((bad.result.as_str(), bad.is_error), ("Error writing file: denied", true));
}

#[test]
fn shell_tool_reports() {
    let tool = ShellTool;
    assert_eq!(tool.name(), "shell_execute");
    assert!(tool.schema().contains("\"command\""));
    match tool.command(None) {
        Err(DomainError::Internal(d)) => assert_eq!(d, "Missing 'command' argument"),
        other => panic!("unexpected {:?}", other),
    }
    assert_eq!(tool.command(Some("echo 'test'")).unwrap(), "echo 'test'");
    match tool.launch_error("no such file") {
        DomainError::Internal(d) => assert_eq!(d, "Failed to execute command: no such file"),
        other => panic!("unexpected {:?}", other),
    }
    let quiet = tool.outcome(b"test\n", b"", true);
    assert_eq!((quiet.result.as_str(), quiet.is_error), ("test", false));
    let noisy = tool.outcome(b"out\n", b"warning\n", true);
    assert_eq!((noisy.result.as_str(), noisy.is_error), ("STDOUT:\nout\n\nSTDERR:\nwarning", false));
    let failed = tool.outcome(b"", b"bash: non_existent_command_123: command not found\n", false);
    assert!(failed.is_error);
    assert!(failed.result.contains("STDERR"));
    assert_eq!(failed.result, "STDOUT:\n\nSTDERR:\nbash: non_existent_command_123: command not found");
    let lossy = tool.outcome(b"\xffok\t \xe2\x80\x83", b"", true);
    assert_eq!(lossy.result, "\u{fffd}ok");
    assert_eq!(tool.outcome(b"  \n", b"", false).result, "STDOUT:\n  \n\nSTDERR:");
}

#[test]
fn request_ids_are_parsed_or_refused() {
    let id = uuid::Uuid::new_v4();
    assert_eq!(agent_id_from_text(&id.to_string()).unwrap(), id.as_u128());
    match agent_id_from_text("not-an-id") {
        Err(DomainError::Internal(d)) => assert_eq!(d, "Invalid Agent ID"),
        other => panic!("unexpected {:?}", other),
    }
    assert_eq!(agent_id_text(id.as_u128()), id.hyphenated().to_string());
    assert_eq!(agent_id_text(0x0123_4567_89ab_cdef_0011_2233_4455_6677), "01234567-89ab-cdef-0011-223344556677");
}

#[test]
fn stored_agents_read_back_as_written() {
    let mut agent = Agent::new("PersistTest".to_string(), "gpt-4".to_string(), 1_000_000, 1000);
    agent.start().unwrap();
    agent.budget.consume(agent.id, 30, 100).unwrap();
    let row = agent_row(&agent);
    assert_eq!(row.id, uuid::Uuid::from_u128(agent.id).to_string());
    assert_eq!(row.state, "Running");
    let back = restore_agent(
        &row.id, row.name.clone(), row.model_id.clone(), &row.state, row.max_cost_micros, row.max_tokens,
        row.current_cost_micros, row.current_tokens, row.created_at, row.updated_at,
    )
    .unwrap();
    assert_eq!(back.id, agent.id);
    assert_eq!(back.name, agent.name);
    assert_eq!(back.model_id, agent.model_id);
    assert_eq!(back.state, agent.state);
    assert_eq!(back.budget, agent.budget);
    assert_eq!((back.created_at, back.updated_at), (agent.created_at, agent.updated_at));
    let listed = listed_agent(
        &row.id, row.name, row.model_id, "Sleeping", 0, 0, 0, 0, row.created_at, row.updated_at,
    );
    assert!(listed.is_none());
}

#[test]
fn checkpoint_keys_read_back() {
    let cp = Checkpoint::new(42, vec![], vec![]);
    let keys = checkpoint_keys(&cp);
    assert_eq!(read_id(&keys.id), cp.id);
    assert_eq!(read_id(&keys.agent_id), 42);
    let back = restore_checkpoint(&keys.id, 42, vec![], vec![], cp.created_at);
    assert_eq!((back.id, back.agent_id, back.created_at), (cp.id, cp.agent_id, cp.created_at));
}
