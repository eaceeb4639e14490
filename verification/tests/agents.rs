use rustcode::agents::{
    build_child_history, build_direct_history, AgentBrief,
    agent_memory_dir_under, agent_memory_prompt, agent_permissions, build_child_task_contract,
    build_direct_task_contract, build_parent_context_summary, get_agent_memory_entrypoint,
    recent_assistant_summary, sanitize_agent_dir, should_continue_agent_turn, truncate,
    AgentContextStrategy, AgentMemoryScope, AgentPermissionMode, AgentTask, AgentTaskStatus,
    AgentTaskStore,
};
use rustcode::permissions::{PermissionMode, PermissionsSettings};
use rustcode::runtime::{
    PendingApproval, QueryTurnResult, RuntimeMessage, RuntimeRole, RuntimeToolCall, TurnStatus,
};
use rustcode::session::SessionKind;

fn turn(
    content: &str,
    finish_reason: Option<&str>,
    tool_call_count: usize,
    status: TurnStatus,
) -> QueryTurnResult {
    QueryTurnResult {
        history: Vec::new(),
        assistant_message: Some(RuntimeMessage::assistant(content.to_string())),
        usage: None,
        model: "test".to_string(),
        finish_reason: finish_reason.map(str::to_string),
        tool_call_count,
        status,
        pending_approval: None,
        was_compacted: false,
        compaction_summary: None,
    }
}

#[test]
fn memory_entrypoint_uses_project_scope_dir() {
    let root = "F:/repo";
    let path = get_agent_memory_entrypoint("explore", AgentMemoryScope::Project, Some(root));
    assert!(std::path::Path::new(&path).ends_with("rustcode/agent-memory/explore/MEMORY.md"));
}

#[test]
fn child_task_contract_includes_lineage() {
    let task = AgentTask {
        id: "task-1".to_string(),
        parent_session_id: Some("parent-1".to_string()),
        ..AgentTask::default()
    };

    let contract = build_child_task_contract(&task, "Explore Agent", Some(3));

    assert!(contract.contains("task task-1"));
    assert!(contract.contains("Parent session: parent-1"));
    assert!(contract.contains("Max turns: 3"));
}

#[test]
fn should_continue_agent_turn_on_length_finish() {
    let turn = turn("partial", Some("length"), 0, TurnStatus::Completed);

    assert!(should_continue_agent_turn(&turn, 1, 2));
}

#[test]
fn should_continue_agent_turn_after_empty_tool_turn() {
    let turn = turn("", None, 1, TurnStatus::Completed);

    assert!(should_continue_agent_turn(&turn, 1, 2));
}

#[test]
fn should_not_continue_when_max_turns_used() {
    let turn = turn("", None, 1, TurnStatus::Completed);

    assert!(!should_continue_agent_turn(&turn, 2, 2));
}

#[test]
fn should_not_continue_when_awaiting_approval() {
    let turn = turn("", Some("length"), 1, TurnStatus::AwaitingApproval);

    assert!(!should_continue_agent_turn(&turn, 1, 3));
}

#[test]
fn mark_awaiting_approval_persists_pending_tool() {
    let store = AgentTaskStore::new("/tmp/tasks".to_string());
    let mut task = AgentTask::new_pending(
        "task-9".to_string(),
        "subject".to_string(),
        "description".to_string(),
        "explore".to_string(),
        Some("parent-session".to_string()),
        "{}".to_string(),
        1,
    );
    assert_eq!(store.task_path(&task.id), "/tmp/tasks/task-9.json");

    let pending = PendingApproval {
        tool_call: RuntimeToolCall {
            id: "call-1".to_string(),
            name: "execute_command".to_string(),
            arguments: "{\"command\":\"cargo test\"}".to_string(),
        },
        reason: "approval required".to_string(),
    };
    task.mark_awaiting_approval(&pending, 2);

    assert_eq!(task.status, AgentTaskStatus::AwaitingApproval);
    assert_eq!(
        task.pending_approval.as_ref().map(|item| &item.tool_call),
        Some(&pending.tool_call)
    );
}

#[test]
fn task_life_cycle_and_delivery() {
    let mut task = AgentTask::new_pending(
        "t".to_string(),
        "s".to_string(),
        "d".to_string(),
        "explore".to_string(),
        Some("p".to_string()),
        "{}".to_string(),
        1,
    );
    assert!(!task.is_deliverable());
    task.mark_running(2);
    assert_eq!(task.status, AgentTaskStatus::Running);
    task.fail("boom".to_string(), 3);
    assert_eq!(task.error.as_deref(), Some("boom"));
    assert!(task.is_deliverable());
    assert!(task.belongs_to("p"));
    assert!(!task.belongs_to("q"));
    task.mark_delivered(4);
    assert!(!task.is_deliverable());
    assert_eq!(task.delivered_to_parent_at, Some(4));
    task.complete("done".to_string(), 5);
    assert_eq!(task.error, None);
    assert_eq!(task.result_summary.as_deref(), Some("done"));
    task.update_metadata(None, Some("{\"k\":1}".to_string()), 6);
    assert_eq!(task.description, "d");
    assert_eq!(task.metadata, "{\"k\":1}");
    assert_eq!(task.updated_at, 6);
}

#[test]
fn memory_paths_sanitize_agent_types() {
    assert_eq!(sanitize_agent_dir("plugin:review"), "plugin-review");
    assert_eq!(
        agent_memory_dir_under("a:b", AgentMemoryScope::Local, None, &None),
        "./rustcode/agent-memory-local/a-b"
    );
    assert_eq!(
        agent_memory_dir_under("x", AgentMemoryScope::User, None, &Some("/home/u".to_string())),
        "/home/u/.rustcode/agent-memory/x"
    );
}

#[test]
fn memory_prompt_skips_blank_files() {
    assert_eq!(agent_memory_prompt(AgentMemoryScope::User, " \n "), None);
    let prompt = agent_memory_prompt(AgentMemoryScope::Project, "\n remember this \n").unwrap();
    assert!(prompt.starts_with("Persistent agent memory (project scope)."));
    assert!(prompt.ends_with("\n\nremember this"));
}

#[test]
fn contracts_and_truncation() {
    assert!(build_direct_task_contract("Explorer").starts_with("You are running as specialized agent 'Explorer'."));
    let task = AgentTask::default();
    let contract = build_child_task_contract(&task, "A", Some(0));
    assert!(contract.contains("Parent session: unknown."));
    assert!(contract.contains("Max turns: 1."));
    assert_eq!(truncate("héllo", 2), "hé...");
    assert_eq!(truncate("hi", 2), "hi");
}

#[test]
fn parent_context_prefers_summary_then_recent_turns() {
    let history = vec![
        RuntimeMessage::user("first".to_string()),
        RuntimeMessage::compact_summary("old stuff".to_string()),
        RuntimeMessage::assistant("  ".to_string()),
        RuntimeMessage::user("second".to_string()),
    ];
    let summary = build_parent_context_summary(&history, None, AgentContextStrategy::TaskPlusCompactSummary).unwrap();
    assert!(summary.starts_with("Parent compact summary:\nPrevious conversation compacted into summary:\n"));
    let recent = recent_assistant_summary(&history, 2).unwrap();
    assert_eq!(recent, "Parent recent context:\nUser: second");
    assert_eq!(
        build_parent_context_summary(&Vec::new(), Some(("p1", SessionKind::ChildAgent)), AgentContextStrategy::TaskOnly),
        Some("Parent session context: session p1 (ChildAgent) spawned this child task.".to_string())
    );
}

#[test]
fn background_agents_turn_ask_into_deny() {
    let settings = PermissionsSettings {
        mode: PermissionMode::Ask,
        allow_tools: vec!["file_read".to_string()],
        deny_tools: vec!["FILE_WRITE".to_string()],
        ask_tools: vec!["execute_command".to_string(), "file_write".to_string()],
    };
    let p = agent_permissions(settings, AgentPermissionMode::BackgroundSafe);
    assert_eq!(p.mode, PermissionMode::DenyAll);
    assert_eq!(p.deny_tools, vec!["FILE_WRITE", "execute_command"]);
    assert!(p.ask_tools.is_empty());
    let q = agent_permissions(PermissionsSettings::default(), AgentPermissionMode::DenySensitive);
    assert_eq!(q.deny_tools, vec!["execute_command", "file_write", "file_edit"]);
}

#[test]
fn task_store_for_project_uses_state_dir() {
    let store = AgentTaskStore::for_project(None, Some("/w")).unwrap();
    assert_eq!(store.tasks_dir(), "/w/rustcode/state/tasks");
    assert!(AgentTaskStore::for_project(None, None).is_err());
}

fn test_agent() -> AgentBrief {
    AgentBrief {
        name: "Explore Agent".to_string(),
        system_prompt: "system".to_string(),
        prompt_preamble: None,
        max_turns: Some(1),
        context_strategy: Some(AgentContextStrategy::TaskPlusRecentAssistantSummary),
    }
}

#[test]
fn child_history_ends_with_user_task_message() {
    let task = AgentTask {
        id: "task-1".to_string(),
        description: "inspect code".to_string(),
        ..AgentTask::default()
    };
    let history = build_child_history(&Vec::new(), &task, &test_agent(), None, None);
    assert_eq!(history.last().map(|msg| msg.role), Some(RuntimeRole::User));
}

#[test]
fn child_history_is_system_prompt_contract_and_task() {
    let task = AgentTask {
        id: "task-7".to_string(),
        description: "inspect code".to_string(),
        ..AgentTask::default()
    };
    let history = build_child_history(&Vec::new(), &task, &test_agent(), None, None);
    assert_eq!(history.len(), 3);
    assert_eq!(history[0].role, RuntimeRole::System);
    assert_eq!(history[0].content, "system");
    assert!(history[1].content.contains("task task-7"));
    assert!(history[1].content.contains("Max turns: 1"));
    assert_eq!(history[2].content, "inspect code");
}

#[test]
fn direct_history_includes_preamble_memory_and_parent_context() {
    let mut agent = test_agent();
    agent.prompt_preamble = Some("be brief".to_string());
    let parent = vec![
        RuntimeMessage::user("hello".to_string()),
        RuntimeMessage::assistant("hi there".to_string()),
    ];
    let history = build_direct_history(
        &parent,
        "look around",
        &agent,
        Some(("parent-1", SessionKind::Primary)),
        Some("remembered".to_string()),
    );
    let contents: Vec<&str> = history.iter().map(|m| m.content.as_str()).collect();
    assert_eq!(contents.len(), 6);
    assert_eq!(contents[0], "system");
    assert_eq!(contents[1], "be brief");
    assert_eq!(contents[2], "remembered");
    assert_eq!(contents[3], "Parent recent context:\nUser: hello\nAssistant: hi there");
    assert!(contents[4].starts_with("You are running as specialized agent 'Explore Agent'."));
    assert_eq!(contents[5], "look around");
    assert_eq!(history[5].role, RuntimeRole::User);
}

#[test]
fn blank_preamble_is_left_out_and_parent_session_named() {
    let mut agent = test_agent();
    agent.prompt_preamble = Some("   ".to_string());
    agent.context_strategy = Some(AgentContextStrategy::TaskOnly);
    let history = build_direct_history(
        &Vec::new(),
        "go",
        &agent,
        Some(("parent-1", SessionKind::Forked)),
        None,
    );
    assert_eq!(history.len(), 4);
    assert_eq!(
        history[1].content,
        "Parent session context: session parent-1 (Forked) spawned this child task."
    );
}

#[test]
fn approval_resumes_task_and_child_session_is_recorded() {
    let mut task = AgentTask::new_pending(
        "t".to_string(),
        "s".to_string(),
        "d".to_string(),
        "explore".to_string(),
        None,
        "{}".to_string(),
        1,
    );
    task.attach_child_session("child-1", 4);
    assert_eq!(task.child_session_id.as_deref(), Some("child-1"));
    assert_eq!(task.updated_at, 4);
    task.fail("blocked".to_string(), 5);
    task.resume_after_approval(6);
    assert_eq!(task.status, AgentTaskStatus::Running);
    assert_eq!(task.error, None);
    assert_eq!(task.updated_at, 6);
    task.complete("all good".to_string(), 7);
    let note = rustcode::agents::AgentTaskNotification::from_task(&task);
    assert_eq!(note.id, "t");
    assert_eq!(note.status, AgentTaskStatus::Completed);
    assert_eq!(note.result_summary.as_deref(), Some("all good"));
}
