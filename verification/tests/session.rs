use rustcode::ids::new_uuid;
use rustcode::runtime::{PendingApproval, RuntimeMessage, RuntimeToolCall, RuntimeToolResult};
use rustcode::session::{
    filter_sessions, reconcile_messages, summarize_session_text, Message, Session, SessionInfo,
    SessionKind, SessionManager, SessionQuery, SessionStatus, StoredPendingApproval,
    TranscriptEntryType,
};

fn entry(id: &str, role: &str, content: &str, parent: Option<&str>) -> Message {
    Message {
        id: id.to_string(),
        role: role.to_string(),
        content: content.to_string(),
        tool_calls: Vec::new(),
        tool_result: None,
        entry_type: TranscriptEntryType::Message,
        parent_id: parent.map(str::to_string),
        timestamp: 0,
    }
}

#[test]
fn restore_pending_approval_round_trip() {
    let pending = PendingApproval {
        tool_call: RuntimeToolCall {
            id: "call-1".to_string(),
            name: "file_read".to_string(),
            arguments: "{\"path\":\"src/main.rs\"}".to_string(),
        },
        reason: "Tool file_read requires approval".to_string(),
    };

    let session = Session {
        pending_approval: Some(StoredPendingApproval::from_pending(&pending)),
        status: SessionStatus::AwaitingApproval,
        ..Session::default()
    };

    let restored = session
        .restore_pending_approval()
        .expect("pending approval");
    assert_eq!(restored, pending);
}

#[test]
fn runtime_history_drops_orphaned_leading_tool_result() {
    let tool_result = RuntimeToolResult {
        tool_call_id: "call-1".to_string(),
        name: "file_read".to_string(),
        content: "ignored".to_string(),
        is_error: false,
    };
    let session = Session {
        messages: vec![Message {
            id: "tool-1".to_string(),
            role: "tool".to_string(),
            content: "ignored".to_string(),
            tool_calls: Vec::new(),
            tool_result: Some(tool_result),
            entry_type: TranscriptEntryType::Message,
            parent_id: None,
            timestamp: 0,
        }],
        ..Session::default()
    };

    assert!(session.runtime_history().is_empty());
}

#[test]
fn create_fork_session_clones_history_with_new_ids() {
    let source = Session {
        id: "source".to_string(),
        name: "Source".to_string(),
        messages: vec![
            entry("user-1", "user", "first", None),
            entry("assistant-1", "assistant", "answer", Some("user-1")),
        ],
        ..Session::default()
    };

    let fork = Session::new_fork(
        &source,
        Some("user-1"),
        Some("Fork"),
        new_uuid(),
        0,
        None,
        new_uuid(),
    )
    .unwrap();
    assert_eq!(fork.session_kind, SessionKind::Forked);
    assert_eq!(fork.messages.len(), 2);
    assert_ne!(fork.messages[0].id, "user-1");
    assert_eq!(
        fork.messages[1].entry_type,
        TranscriptEntryType::SystemNotice
    );
    assert_eq!(fork.forked_from_session_id.as_deref(), Some("source"));
}

#[test]
fn create_child_session_includes_lineage_notice() {
    let child = Session::new_child(
        new_uuid(),
        Some("parent-1"),
        "task-1",
        Some("Child"),
        0,
        None,
        new_uuid(),
    );

    assert_eq!(child.session_kind, SessionKind::ChildAgent);
    assert_eq!(child.messages.len(), 1);
    assert_eq!(
        child.messages[0].entry_type,
        TranscriptEntryType::SystemNotice
    );
    assert!(child.messages[0].content.contains("task task-1"));
}

#[test]
fn restore_runtime_state_reports_child_lineage() {
    let session = Session {
        id: "child-session".to_string(),
        parent_session_id: Some("parent-1".to_string()),
        spawned_by_task_id: Some("task-1".to_string()),
        session_kind: SessionKind::ChildAgent,
        ..Session::default()
    };

    let restored = session.restore_runtime_state();
    assert!(restored
        .status_message
        .contains("child session child-session for task task-1"));
    assert!(restored.restore_notice.is_some());
    assert_eq!(
        restored.lineage_summary.as_deref(),
        Some("child session child-session for task task-1")
    );
}

#[test]
fn compact_summary_is_persisted_as_compact_boundary() {
    let message = Message::from_runtime(&RuntimeMessage::compact_summary("summary".to_string()));

    assert_eq!(message.entry_type, TranscriptEntryType::CompactBoundary);
}

#[test]
fn save_runtime_state_auto_names_primary_session_from_first_user_turn() {
    let mut session = Session {
        id: "session-1".to_string(),
        name: "New Session".to_string(),
        session_kind: SessionKind::Primary,
        ..Session::default()
    };

    session.apply_runtime_state(
        &vec![
            RuntimeMessage::user("Investigate why the Android build keeps failing".to_string()),
            RuntimeMessage::assistant("Looking into it".to_string()),
        ],
        SessionStatus::Completed,
        None,
        0,
    );

    assert!(session
        .name
        .starts_with("Investigate why the Android build"));
}

#[test]
fn session_info_captures_latest_user_summary() {
    let session = Session {
        messages: vec![
            Message::from_runtime(&RuntimeMessage::user("first prompt".to_string())),
            Message::from_runtime(&RuntimeMessage::assistant("response".to_string())),
            Message::from_runtime(&RuntimeMessage::user("latest prompt summary text".to_string())),
        ],
        ..Session::default()
    };

    let info = SessionInfo::from_session(&session);
    assert_eq!(
        info.latest_user_summary.as_deref(),
        Some("latest prompt summary text")
    );
}

#[test]
fn session_kind_parse_filter_accepts_aliases() {
    assert_eq!(
        SessionKind::parse_filter("branch"),
        Some(SessionKind::Forked)
    );
    assert_eq!(
        SessionKind::parse_filter("subagent"),
        Some(SessionKind::ChildAgent)
    );
    assert_eq!(
        SessionKind::parse_filter("main"),
        Some(SessionKind::Primary)
    );
    assert_eq!(SessionKind::parse_filter("unknown"), None);
}

#[test]
fn orphaned_tool_result_after_history_becomes_notice() {
    let answered = RuntimeToolResult {
        tool_call_id: "call-1".to_string(),
        name: "file_read".to_string(),
        content: "ok".to_string(),
        is_error: false,
    };
    let orphan = RuntimeToolResult {
        tool_call_id: "call-9".to_string(),
        name: "search".to_string(),
        content: "lost".to_string(),
        is_error: false,
    };
    let mut assistant = entry("a1", "assistant", "", Some("u1"));
    assistant.tool_calls = vec![RuntimeToolCall {
        id: "call-1".to_string(),
        name: "file_read".to_string(),
        arguments: "{}".to_string(),
    }];
    let mut tool1 = entry("t1", "tool", "ok", Some("a1"));
    tool1.tool_result = Some(answered);
    let mut tool2 = entry("t2", "tool", "lost", Some("t1"));
    tool2.tool_result = Some(orphan);
    let session = Session {
        messages: vec![entry("u1", "user", "go", None), assistant, tool1, tool2],
        ..Session::default()
    };
    let history = session.runtime_history();
    assert_eq!(history.len(), 4);
    assert_eq!(
        history[3].content,
        "Recovered orphaned tool result for search during session restore."
    );
}

#[test]
fn reconcile_keeps_matching_prefix_and_relinks() {
    let existing = vec![
        entry("u1", "user", "hello", None),
        entry("a1", "assistant", "old answer", Some("u1")),
    ];
    let history = vec![
        RuntimeMessage::user("hello".to_string()),
        RuntimeMessage::assistant("new answer".to_string()),
        RuntimeMessage::user("more".to_string()),
    ];
    let out = reconcile_messages(&existing, &history);
    assert_eq!(out.len(), 3);
    assert_eq!(out[0].id, "u1");
    assert_eq!(out[0].parent_id, None);
    assert_ne!(out[1].id, "a1");
    assert_eq!(out[1].content, "new answer");
    assert_eq!(out[1].parent_id.as_deref(), Some("u1"));
    assert_eq!(out[2].parent_id.as_deref(), Some(out[1].id.as_str()));
}

#[test]
fn rewind_requires_a_user_message() {
    let mut session = Session {
        id: "s".to_string(),
        messages: vec![
            entry("u1", "user", "first", None),
            entry("a1", "assistant", "answer", Some("u1")),
            entry("u2", "USER", "second", Some("a1")),
            entry("a2", "assistant", "answer 2", Some("u2")),
        ],
        status: SessionStatus::AwaitingApproval,
        ..Session::default()
    };
    assert_eq!(
        session.rewind_to_message("a1", 5).unwrap_err().message(),
        "Rewind requires a user message id, got role assistant"
    );
    assert_eq!(
        session.rewind_to_message("zz", 5).unwrap_err().message(),
        "Message not found: zz"
    );
    assert_eq!(session.rewind_to_message("u2", 5).unwrap(), "second");
    assert_eq!(session.messages.len(), 3);
    assert_eq!(session.status, SessionStatus::Completed);
    assert_eq!(session.updated_at, 5);
}

#[test]
fn fork_requires_user_message_and_renames_after_source() {
    let source = Session {
        id: "src".to_string(),
        name: "Source".to_string(),
        messages: vec![entry("u1", "user", "first", None), entry("a1", "assistant", "x", Some("u1"))],
        ..Session::default()
    };
    let err = Session::new_fork(&source, Some("a1"), None, "f".to_string(), 1, None, "n".to_string());
    assert_eq!(
        err.unwrap_err().message(),
        "Branch requires a user message id, got role assistant"
    );
    let fork = Session::new_fork(&source, None, None, "f".to_string(), 1, None, "n".to_string()).unwrap();
    assert_eq!(fork.name, "Source (branch)");
    assert_eq!(fork.messages.len(), 3);
    assert_eq!(fork.messages[2].content, "Forked from session src.");
    assert_eq!(fork.messages[2].parent_id.as_deref(), Some(fork.messages[1].id.as_str()));
}

#[test]
fn summaries_collapse_whitespace_and_truncate() {
    assert_eq!(summarize_session_text("  a \n b\tc ", 72), "a b c");
    assert_eq!(summarize_session_text("abcdef", 3), "abc...");
}

#[test]
fn search_filters_by_kind_text_and_limit() {
    let mk = |id: &str, name: &str, kind: SessionKind| {
        SessionInfo::from_session(&Session {
            id: id.to_string(),
            name: name.to_string(),
            session_kind: kind,
            ..Session::default()
        })
    };
    let sessions = vec![
        mk("abc123", "Alpha", SessionKind::Primary),
        mk("def456", "Beta fork", SessionKind::Forked),
        mk("abd789", "Gamma", SessionKind::Forked),
    ];
    let query = SessionQuery {
        text: Some("  AB ".to_string()),
        kind: None,
        limit: None,
    };
    let found = filter_sessions(sessions, &query);
    let ids: Vec<&str> = found.iter().map(|s| s.id.as_str()).collect();
    assert_eq!(ids, vec!["abc123", "abd789"]);

    let sessions = vec![
        mk("abc123", "Alpha", SessionKind::Primary),
        mk("def456", "Beta fork", SessionKind::Forked),
        mk("abd789", "Gamma", SessionKind::Forked),
    ];
    let query = SessionQuery {
        text: None,
        kind: Some(SessionKind::Forked),
        limit: Some(1),
    };
    let found = filter_sessions(sessions, &query);
    assert_eq!(found.len(), 1);
    assert_eq!(found[0].id, "def456");
}

#[test]
fn manager_paths_follow_the_project() {
    let manager = SessionManager::for_working_dir(Some("/work/app"));
    assert_eq!(manager.sessions_dir(), "/work/app/rustcode/sessions");
    assert_eq!(manager.session_path("s1"), "/work/app/rustcode/sessions/s1.json");
    assert_eq!(manager.project_root().as_deref(), Some("/work/app"));
}

#[test]
fn normalize_completes_sessions_without_pending_approval() {
    let mut session = Session {
        status: SessionStatus::AwaitingApproval,
        messages: vec![entry("", "user", "hi", Some("x")), entry("b", "assistant", "yo", None)],
        ..Session::default()
    };
    session.normalize_for_runtime();
    assert_eq!(session.status, SessionStatus::Completed);
    assert_eq!(session.messages[0].id.len(), 36);
    assert_eq!(session.messages[0].parent_id, None);
    assert_eq!(session.messages[1].id, "b");
    assert_eq!(session.messages[1].parent_id.as_deref(), Some(session.messages[0].id.as_str()));
}

fn info(id: &str, updated_at: i64) -> rustcode::session::SessionInfo {
    let mut s = rustcode::session::Session::new_primary(id.to_string(), None, 0, None);
    s.updated_at = updated_at;
    rustcode::session::SessionInfo::from_session(&s)
}

#[test]
fn sessions_are_listed_newest_first() {
    let sorted = rustcode::session::sort_sessions_by_recency(vec![
        info("a", 5),
        info("b", 9),
        info("c", 5),
        info("d", 1),
    ]);
    let ids: Vec<&str> = sorted.iter().map(|i| i.id.as_str()).collect();
    assert_eq!(ids, vec!["b", "a", "c", "d"]);
}

#[test]
fn session_status_and_pending_setters() {
    let mut session = Session::new_primary("s-1".to_string(), None, 0, None);
    session.set_status(SessionStatus::Interrupted, 5);
    assert_eq!(session.status, SessionStatus::Interrupted);
    assert_eq!(session.updated_at, 5);
    let pending = PendingApproval {
        tool_call: RuntimeToolCall {
            id: "c1".to_string(),
            name: "file_write".to_string(),
            arguments: "{}".to_string(),
        },
        reason: "needs ok".to_string(),
    };
    session.set_pending_approval(Some(StoredPendingApproval::from_pending(&pending)), 6);
    assert_eq!(session.status, SessionStatus::AwaitingApproval);
    let kept = rustcode::session::clone_stored(&session.pending_approval);
    assert_eq!(kept.map(|p| p.to_pending().reason), Some("needs ok".to_string()));
    session.apply_transcript(&vec![RuntimeMessage::user("hi".to_string())], 7);
    assert_eq!(session.status, SessionStatus::AwaitingApproval);
    assert_eq!(session.messages.len(), 1);
    assert_eq!(session.updated_at, 7);
    session.set_pending_approval(None, 8);
    assert_eq!(session.status, SessionStatus::Completed);
}
