use rustcode::compact::{
    assemble_compacted_history, build_compact_messages, summary_from_reply, with_auto_compaction,
    CompactDecision, CompactError, CompactOutcome, CompactService,
};
use rustcode::settings::compact_summary_model;
use rustcode::runtime::{QueryTurnResult, RuntimeMessage, TurnStatus};
use rustcode::settings::Settings;

#[test]
fn auto_compact_uses_turn_threshold_without_usage() {
    let mut settings = Settings::default();
    settings.compact.max_turns_before_compact = 3;
    let service = CompactService::new(settings);
    let history = vec![
        RuntimeMessage::user("one".to_string()),
        RuntimeMessage::assistant("two".to_string()),
        RuntimeMessage::user("three".to_string()),
    ];

    assert!(service.should_auto_compact(&history, None));
}

#[test]
fn auto_compact_uses_token_threshold() {
    let settings = Settings::default();
    let service = CompactService::new(settings);
    let history = vec![RuntimeMessage::user("one".to_string())];

    assert!(service.should_auto_compact(&history, Some(32_000)));
    assert!(!service.should_auto_compact(&history, Some(10)));
}

#[test]
fn reactive_compact_uses_pending_message_budget() {
    let mut settings = Settings::default();
    settings.compact.max_tokens_before_compact = 64;
    settings.compact.reserved_completion_budget = 32;
    let service = CompactService::new(settings);
    let history = vec![RuntimeMessage::user("small".to_string())];
    let pending = RuntimeMessage::user(
        "this prompt is large enough to push the estimate over budget".to_string(),
    );

    assert!(service.should_reactive_compact(&history, Some(&pending)));
}

#[test]
fn micro_compact_can_trigger_with_minimal_history() {
    let mut settings = Settings::default();
    settings.compact.max_tokens_before_compact = 32;
    settings.compact.reserved_completion_budget = 16;
    let service = CompactService::new(settings);
    let history = vec![
        RuntimeMessage::user("short".to_string()),
        RuntimeMessage::assistant("small reply".to_string()),
    ];

    assert_eq!(
        service.compact_decision(&history, Some(32), true),
        CompactDecision::MicroCompact
    );
}

#[test]
fn disabled_compaction_never_acts() {
    let mut settings = Settings::default();
    settings.compact.enabled = false;
    let service = CompactService::new(settings);
    let history = vec![RuntimeMessage::user("x".repeat(500000))];
    assert_eq!(
        service.compact_decision(&history, Some(1_000_000), true),
        CompactDecision::NoAction
    );
}

#[test]
fn compaction_split_keeps_recent_turns() {
    let mut settings = Settings::default();
    let service = CompactService::new(Settings::default());
    assert_eq!(service.compaction_split(10, CompactDecision::FullCompact), Ok(2));
    assert_eq!(service.compaction_split(8, CompactDecision::FullCompact), Err(CompactError::NotEnoughMessages));
    assert_eq!(service.compaction_split(3, CompactDecision::MicroCompact), Ok(2));
    settings.compact.enabled = false;
    let disabled = CompactService::new(settings);
    assert_eq!(disabled.compaction_split(10, CompactDecision::FullCompact), Err(CompactError::Disabled));
}

#[test]
fn compacted_history_is_summary_then_tail() {
    let history = vec![
        RuntimeMessage::user("a".to_string()),
        RuntimeMessage::assistant("b".to_string()),
        RuntimeMessage::user("c".to_string()),
    ];
    let out = assemble_compacted_history(&history, 2, "sum".to_string(), false);
    assert_eq!(out.len(), 2);
    assert!(out[0].is_compact_summary());
    assert_eq!(out[1].content, "c");
}

#[test]
fn summary_from_reply_needs_text() {
    assert_eq!(summary_from_reply(Some("  the gist \n")), Ok("the gist".to_string()));
    assert_eq!(summary_from_reply(Some("   ")), Err(CompactError::EmptySummary));
    assert_eq!(summary_from_reply(None), Err(CompactError::EmptySummary));
}

#[test]
fn compact_request_carries_transcript_and_instructions() {
    let history = vec![RuntimeMessage::user("hello".to_string())];
    let (system, user) = build_compact_messages(&history, Some("  keep names "));
    assert!(system.starts_with("You are compacting a coding-assistant transcript."));
    assert!(user.starts_with("Summarize the following conversation for future continuation."));
    assert!(user.contains("hello"));
    assert!(user.ends_with("\n\nAdditional instructions:\nkeep names"));
    let (_, plain) = build_compact_messages(&history, Some("   "));
    assert!(!plain.contains("Additional instructions"));
}

#[test]
fn summary_model_defaults_to_session_model() {
    let mut settings = Settings::default();
    settings.model = "m1".to_string();
    assert_eq!(compact_summary_model(&settings), "m1");
    settings.compact.summary_model = Some("small".to_string());
    assert_eq!(compact_summary_model(&settings), "small");
}

fn finished_turn(history: Vec<RuntimeMessage>, status: TurnStatus) -> QueryTurnResult {
    QueryTurnResult {
        history,
        assistant_message: None,
        usage: None,
        model: "m".to_string(),
        finish_reason: None,
        tool_call_count: 0,
        status,
        pending_approval: None,
        was_compacted: false,
        compaction_summary: None,
    }
}

#[test]
fn auto_compaction_only_after_completed_turns() {
    let mut settings = Settings::default();
    settings.compact.max_turns_before_compact = 2;
    settings.compact.enable_microcompact = false;
    let service = CompactService::new(settings);
    let history = vec![RuntimeMessage::user("a".to_string()), RuntimeMessage::assistant("b".to_string())];
    let done = finished_turn(history.clone(), TurnStatus::Completed);
    assert_eq!(service.auto_compact_decision(&done), CompactDecision::FullCompact);
    let waiting = finished_turn(history, TurnStatus::AwaitingApproval);
    assert_eq!(service.auto_compact_decision(&waiting), CompactDecision::NoAction);
}

#[test]
fn micro_compaction_summary_is_marked() {
    let turn = finished_turn(vec![RuntimeMessage::user("a".to_string())], TurnStatus::Completed);
    let outcome = CompactOutcome {
        history: vec![RuntimeMessage::assistant("kept".to_string())],
        summary: "gist".to_string(),
        was_micro: true,
    };
    let r = with_auto_compaction(turn, Some(outcome));
    assert!(r.was_compacted);
    assert_eq!(r.compaction_summary.as_deref(), Some("[micro] gist"));
    assert_eq!(r.history.len(), 1);
    let untouched = with_auto_compaction(finished_turn(Vec::new(), TurnStatus::Completed), None);
    assert!(!untouched.was_compacted);
    assert_eq!(untouched.compaction_summary, None);
}
