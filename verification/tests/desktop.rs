use rustcode::agents::AgentTask;
use rustcode::desktop::{
    clip_line, rewind_preview, sorted_unique, successor_after_delete, task_summary_line, turn_preview, user_turn_targets,
};
use rustcode::file_history::{FileChangeDescriptor, FileHistoryOrigin};
use rustcode::session::{Message, Session, SessionInfo, TranscriptEntryType};

fn entry(id: &str, role: &str, content: &str, timestamp: i64) -> Message {
    Message {
        id: id.to_string(),
        role: role.to_string(),
        content: content.to_string(),
        tool_calls: Vec::new(),
        tool_result: None,
        entry_type: TranscriptEntryType::Message,
        parent_id: None,
        timestamp,
    }
}

fn descriptor(path: &str, truncated: bool) -> FileChangeDescriptor {
    FileChangeDescriptor { path: path.to_string(), origin: FileHistoryOrigin::FileEdit, truncated }
}

#[test]
fn turn_previews_are_one_line_and_clipped() {
    assert_eq!(turn_preview("   \n "), "(empty)");
    assert_eq!(turn_preview("fix\nthe bug"), "fix the bug");
    let long = "x".repeat(130);
    assert_eq!(turn_preview(&long).chars().count(), 120);
    assert_eq!(clip_line("héllo\nwörld", 7), "héllo w");
}

#[test]
fn task_summary_prefers_result_then_error_then_description() {
    let mut task = AgentTask { description: "line one\nline two".to_string(), ..AgentTask::default() };
    assert_eq!(task_summary_line(&task), "line one line two");
    task.error = Some("boom".to_string());
    assert_eq!(task_summary_line(&task), "boom");
    task.result_summary = Some("done".to_string());
    assert_eq!(task_summary_line(&task), "done");
}

#[test]
fn turn_targets_list_user_turns_only() {
    let messages = vec![
        entry("user-0123456789", "user", "first\nask", 5),
        entry("a-1", "assistant", "reply", 6),
        entry("u-2", "User", " ", 7),
    ];
    let targets = user_turn_targets(&messages);
    assert_eq!(targets.len(), 2);
    assert_eq!(targets[0].short_id, "user-012");
    assert_eq!(targets[0].content_preview, "first ask");
    assert_eq!(targets[0].timestamp, 5);
    assert_eq!(targets[1].message_id, "u-2");
    assert_eq!(targets[1].content_preview, "(empty)");
}

#[test]
fn sorted_unique_sorts_and_drops_repeats() {
    let v = vec!["b".to_string(), "a".to_string(), "b".to_string(), "B".to_string()];
    assert_eq!(sorted_unique(v), vec!["B".to_string(), "a".to_string(), "b".to_string()]);
}

#[test]
fn rewind_preview_lists_files_and_warnings() {
    let messages = vec![entry("u-1", "user", "write it", 0), entry("a-1", "assistant", "ok", 1)];
    let ds = vec![descriptor("src/b.rs", true), descriptor("README.md", false), descriptor("src/b.rs", true)];
    let p = rewind_preview(&messages, "u-1", &ds).unwrap();
    assert_eq!(p.message_id, "u-1");
    assert_eq!(p.restored_input, "write it");
    assert_eq!(p.modified_files, vec!["README.md".to_string(), "src/b.rs".to_string()]);
    assert!(p.deleted_files.is_empty());
    assert_eq!(p.warnings, vec!["Tracked file list is truncated after src/b.rs".to_string()]);
}

#[test]
fn rewind_preview_rejects_missing_and_non_user_turns() {
    let messages = vec![entry("u-1", "user", "write it", 0), entry("a-1", "assistant", "ok", 1)];
    assert_eq!(rewind_preview(&messages, "zz", &Vec::new()), Err("Message not found: zz".to_string()));
    assert_eq!(
        rewind_preview(&messages, "a-1", &Vec::new()),
        Err("Rewind requires a user message id, got assistant".to_string())
    );
}

fn info(id: &str) -> SessionInfo {
    SessionInfo::from_session(&Session::new_primary(id.to_string(), None, 0, None))
}

#[test]
fn successor_is_first_other_session() {
    let list = vec![info("a"), info("b"), info("c")];
    assert_eq!(successor_after_delete(&list, "a"), Some(1));
    assert_eq!(successor_after_delete(&list, "b"), Some(0));
    assert_eq!(successor_after_delete(&vec![info("a")], "a"), None);
}

#[test]
fn blank_prompts_are_refused() {
    assert_eq!(rustcode::desktop::submitted_prompt("  \n"), Err("Prompt cannot be empty".to_string()));
    assert_eq!(rustcode::desktop::submitted_prompt(" fix it "), Ok("fix it".to_string()));
}
