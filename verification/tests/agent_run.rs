use rustcode::agent_run::{effective_max_turns, task_turn_outcome, AgentRun, AgentStep, TaskTurnOutcome};
use rustcode::runtime::{PendingApproval, QueryTurnResult, RuntimeMessage, RuntimeRole, RuntimeToolCall, TurnStatus};
use rustcode::session::SessionStatus;

fn turn(content: Option<&str>, finish: Option<&str>, tools: usize, status: TurnStatus) -> QueryTurnResult {
    QueryTurnResult {
        history: vec![RuntimeMessage::user("task".to_string())],
        assistant_message: content.map(|c| RuntimeMessage::assistant(c.to_string())),
        usage: None,
        model: "m".to_string(),
        finish_reason: finish.map(|f| f.to_string()),
        tool_call_count: tools,
        status,
        pending_approval: None,
        was_compacted: false,
        compaction_summary: None,
    }
}

#[test]
fn agent_turn_limit_is_at_least_one() {
    assert_eq!(effective_max_turns(None), 1);
    assert_eq!(effective_max_turns(Some(0)), 1);
    assert_eq!(effective_max_turns(Some(4)), 4);
}

#[test]
fn a_run_starts_with_the_last_user_message() {
    let history = vec![RuntimeMessage::system("sys".to_string()), RuntimeMessage::user("do it".to_string())];
    let (run, step) = AgentRun::start(&history, Some(3), false).ok().unwrap();
    assert_eq!(run.max_turns, 3);
    assert_eq!(run.turns_used, 0);
    match step {
        AgentStep::SubmitTurn { prefix, message } => {
            assert_eq!(prefix.len(), 1);
            assert_eq!(prefix[0].role, RuntimeRole::System);
            assert_eq!(message.content, "do it");
        }
        _ => panic!("expected a turn"),
    }
}

#[test]
fn a_run_needs_a_final_user_message() {
    assert_eq!(AgentRun::start(&Vec::new(), None, false).err(), Some("Agent history must end with a user message".to_string()));
    let history = vec![RuntimeMessage::assistant("hi".to_string())];
    assert_eq!(
        AgentRun::start(&history, None, false).err(),
        Some("Agent history must end with a user message before execution".to_string())
    );
}

#[test]
fn a_cut_off_answer_takes_another_turn_within_the_limit() {
    let mut run = AgentRun::after_approval(Some(2), false);
    match run.on_turn(turn(Some("partial"), Some("length"), 0, TurnStatus::Completed)) {
        AgentStep::SubmitTurn { prefix, message } => {
            assert_eq!(prefix.len(), 1);
            assert_eq!(message.role, RuntimeRole::User);
            assert!(message.content.starts_with("Continue until the assigned task is complete."));
        }
        _ => panic!("expected another turn"),
    }
    match run.on_turn(turn(Some("partial"), Some("length"), 0, TurnStatus::Completed)) {
        AgentStep::Done(t) => assert_eq!(t.assistant_text(), Some("partial")),
        _ => panic!("expected the run to end at its limit"),
    }
    assert_eq!(run.turns_used, 2);
}

#[test]
fn a_run_that_may_not_wait_fails_on_approval() {
    let mut run = AgentRun::after_approval(Some(5), true);
    match run.on_turn(turn(None, None, 1, TurnStatus::AwaitingApproval)) {
        AgentStep::Failed(m) => assert_eq!(m, "Agent execution requires interactive approval. Re-run in TUI."),
        _ => panic!("expected a failure"),
    }
}

#[test]
fn finished_turns_update_their_task() {
    let (outcome, status) = task_turn_outcome(&turn(None, None, 0, TurnStatus::Completed)).ok().unwrap();
    assert_eq!(status, SessionStatus::Completed);
    match outcome {
        TaskTurnOutcome::Completed(s) => assert_eq!(s, "Child agent completed without a text response."),
        _ => panic!("expected completion"),
    }
    let mut waiting = turn(Some("x"), None, 1, TurnStatus::AwaitingApproval);
    assert_eq!(
        task_turn_outcome(&waiting).err(),
        Some("Awaiting approval turn missing pending approval".to_string())
    );
    waiting.pending_approval = Some(PendingApproval {
        tool_call: RuntimeToolCall { id: "c".to_string(), name: "bash".to_string(), arguments: "{}".to_string() },
        reason: "needs approval".to_string(),
    });
    let (outcome, status) = task_turn_outcome(&waiting).ok().unwrap();
    assert_eq!(status, SessionStatus::AwaitingApproval);
    assert!(matches!(outcome, TaskTurnOutcome::AwaitingApproval(p) if p.tool_call.name == "bash"));
}
