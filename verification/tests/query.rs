use rustcode::permissions::{PermissionDecision, PermissionMode, PermissionsSettings};
use rustcode::query::{plan_approval, GatewayResponse, QueryTurn, TurnAction, TurnPhase, MAX_MODEL_CALLS};
use rustcode::runtime::{
    ApprovalAction, PendingApproval, QueryTurnResult, RuntimeMessage, RuntimeRole, RuntimeToolCall,
    RuntimeToolResult, RuntimeUsage, TurnStatus,
};

/// Runs a turn to its end with the given model, gate and tools; records
/// what the model was sent each time.
fn drive(
    start: (QueryTurn, TurnAction),
    model: &mut dyn FnMut(&[RuntimeMessage]) -> GatewayResponse,
    gate: &dyn Fn(&RuntimeToolCall) -> PermissionDecision,
    tools: &mut dyn FnMut(&RuntimeToolCall) -> RuntimeToolResult,
) -> Result<QueryTurnResult, String> {
    let (mut turn, mut action) = start;
    loop {
        action = match action {
            TurnAction::CallModel => {
                let response = model(turn.history());
                turn.on_model_reply(response).action
            }
            TurnAction::CheckPermission(call) => turn.on_permission(gate(&call)).action,
            TurnAction::ExecuteTool(call) => turn.on_tool_result(tools(&call)).action,
            TurnAction::Finished(result) => return Ok(result),
            TurnAction::Failed(message) => return Err(message),
        };
    }
}

fn list_files_call() -> RuntimeToolCall {
    RuntimeToolCall {
        id: "call_1".to_string(),
        name: "list_files".to_string(),
        arguments: "{\"path\":\".\"}".to_string(),
    }
}

/// First asks for `list_files`, then answers `done`.
fn tool_loop_gateway() -> impl FnMut(&[RuntimeMessage]) -> GatewayResponse {
    let mut step = 0;
    move |messages: &[RuntimeMessage]| {
        if step == 0 {
            step = 1;
            GatewayResponse {
                assistant_message: Some(RuntimeMessage::assistant_with_tool_calls(vec![list_files_call()])),
                usage: None,
                model: "test-model".to_string(),
                finish_reason: Some("tool_calls".to_string()),
            }
        } else {
            assert_eq!(messages.last().unwrap().role, RuntimeRole::Tool);
            GatewayResponse {
                assistant_message: Some(RuntimeMessage::assistant("done".to_string())),
                usage: None,
                model: "test-model".to_string(),
                finish_reason: Some("stop".to_string()),
            }
        }
    }
}

fn recording_tools(executed: &mut Vec<String>) -> impl FnMut(&RuntimeToolCall) -> RuntimeToolResult + '_ {
    move |call: &RuntimeToolCall| {
        executed.push(call.name.clone());
        RuntimeToolResult {
            tool_call_id: call.id.clone(),
            name: call.name.clone(),
            content: "file_a\nfile_b".to_string(),
            is_error: false,
        }
    }
}

fn allow_all(_call: &RuntimeToolCall) -> PermissionDecision {
    PermissionDecision::Allow
}

#[test]
fn submit_turn_appends_user_and_assistant_messages() {
    let mut sent: Vec<RuntimeMessage> = Vec::new();
    let history = vec![RuntimeMessage::system("system prompt".to_string())];
    let mut model = |messages: &[RuntimeMessage]| {
        sent = messages.to_vec();
        GatewayResponse {
            assistant_message: Some(RuntimeMessage::assistant("answer".to_string())),
            usage: Some(RuntimeUsage { prompt_tokens: 3, completion_tokens: 2, total_tokens: 5 }),
            model: "test-model".to_string(),
            finish_reason: Some("stop".to_string()),
        }
    };
    let mut executed = Vec::new();
    let result = drive(
        QueryTurn::start(&history, RuntimeMessage::user("hello".to_string())),
        &mut model,
        &allow_all,
        &mut recording_tools(&mut executed),
    )
    .unwrap();

    assert_eq!(sent.len(), 2);
    assert_eq!(sent[0].role, RuntimeRole::System);
    assert_eq!(sent[1].role, RuntimeRole::User);
    assert_eq!(result.history.len(), 3);
    assert_eq!(result.assistant_text(), Some("answer"));
    assert_eq!(result.model, "test-model");
    assert_eq!(result.finish_reason.as_deref(), Some("stop"));
    assert_eq!(result.usage.unwrap().total_tokens, 5);
    assert_eq!(result.tool_call_count, 0);
    assert_eq!(result.status, TurnStatus::Completed);
}

#[test]
fn submit_turn_handles_empty_assistant_message() {
    let history = vec![RuntimeMessage::new(RuntimeRole::User, "hi".to_string())];
    let mut model = |_: &[RuntimeMessage]| GatewayResponse {
        assistant_message: None,
        usage: None,
        model: "test-model".to_string(),
        finish_reason: None,
    };
    let mut executed = Vec::new();
    let result = drive(
        QueryTurn::start(&history, RuntimeMessage::user("next".to_string())),
        &mut model,
        &allow_all,
        &mut recording_tools(&mut executed),
    )
    .unwrap();

    assert_eq!(result.history.len(), 2);
    assert!(result.assistant_message.is_none());
    assert_eq!(result.status, TurnStatus::Completed);
}

#[test]
fn submit_turn_executes_tool_calls_before_final_answer() {
    let mut executed = Vec::new();
    let result = drive(
        QueryTurn::start(&Vec::new(), RuntimeMessage::user("inspect project".to_string())),
        &mut tool_loop_gateway(),
        &allow_all,
        &mut recording_tools(&mut executed),
    )
    .unwrap();

    assert_eq!(executed.as_slice(), ["list_files"]);
    assert_eq!(result.assistant_text(), Some("done"));
    assert_eq!(result.tool_call_count, 1);
    assert_eq!(result.status, TurnStatus::Completed);
    assert_eq!(result.history.iter().filter(|message| message.role == RuntimeRole::Tool).count(), 1);
}

#[test]
fn submit_turn_injects_error_tool_result_when_permission_denies_tool() {
    let mut executed = Vec::new();
    let result = drive(
        QueryTurn::start(&Vec::new(), RuntimeMessage::user("inspect project".to_string())),
        &mut tool_loop_gateway(),
        &|_call: &RuntimeToolCall| PermissionDecision::Deny("tool denied".to_string()),
        &mut recording_tools(&mut executed),
    )
    .unwrap();

    let tool_message = result
        .history
        .iter()
        .find(|message| message.role == RuntimeRole::Tool)
        .and_then(|message| message.tool_result.as_ref())
        .unwrap();

    assert!(tool_message.is_error);
    assert!(tool_message.content.contains("tool denied"));
    assert!(executed.is_empty());
}

#[test]
fn submit_turn_pauses_when_permission_requires_approval() {
    let mut executed = Vec::new();
    let result = drive(
        QueryTurn::start(&Vec::new(), RuntimeMessage::user("inspect project".to_string())),
        &mut tool_loop_gateway(),
        &|call: &RuntimeToolCall| PermissionDecision::Ask(format!("{} requires approval", call.name)),
        &mut recording_tools(&mut executed),
    )
    .unwrap();

    assert_eq!(result.status, TurnStatus::AwaitingApproval);
    let pending = result.pending_approval.unwrap();
    assert_eq!(pending.tool_call.name, "list_files");
    assert!(pending.reason.contains("requires approval"));
}

#[test]
fn a_turn_asks_the_model_at_most_eight_times() {
    let mut asked = 0;
    let mut model = |_: &[RuntimeMessage]| {
        asked += 1;
        GatewayResponse {
            assistant_message: Some(RuntimeMessage::assistant_with_tool_calls(vec![list_files_call()])),
            usage: None,
            model: "m".to_string(),
            finish_reason: None,
        }
    };
    let mut executed = Vec::new();
    let outcome = drive(
        QueryTurn::start(&Vec::new(), RuntimeMessage::user("loop".to_string())),
        &mut model,
        &allow_all,
        &mut recording_tools(&mut executed),
    );
    assert_eq!(outcome.err(), Some("Tool loop exceeded maximum iterations for one turn".to_string()));
    assert_eq!(asked, MAX_MODEL_CALLS);
    assert_eq!(executed.len(), 8);
}

#[test]
fn several_calls_are_handled_in_order() {
    let calls = vec![
        RuntimeToolCall { id: "a".to_string(), name: "read".to_string(), arguments: "{}".to_string() },
        RuntimeToolCall { id: "b".to_string(), name: "rm".to_string(), arguments: "{}".to_string() },
    ];
    let (mut turn, _) = QueryTurn::start(&Vec::new(), RuntimeMessage::user("go".to_string()));
    let step = turn.on_model_reply(GatewayResponse {
        assistant_message: Some(RuntimeMessage::assistant_with_tool_calls(calls)),
        usage: None,
        model: "m".to_string(),
        finish_reason: None,
    });
    assert_eq!(turn.tool_call_count(), 2);
    assert_eq!(turn.phase(), TurnPhase::AwaitPermission);
    match step.action {
        TurnAction::CheckPermission(c) => assert_eq!(c.id, "a"),
        _ => panic!("expected a permission check"),
    }
    let step = turn.on_permission(PermissionDecision::Deny("no".to_string()));
    let denied = step.recorded.unwrap();
    assert_eq!(denied.tool_call_id, "a");
    assert!(denied.is_error);
    match step.action {
        TurnAction::CheckPermission(c) => assert_eq!(c.id, "b"),
        _ => panic!("expected a permission check"),
    }
    let step = turn.on_permission(PermissionDecision::Allow);
    assert!(matches!(step.action, TurnAction::ExecuteTool(ref c) if c.id == "b"));
    assert_eq!(turn.phase(), TurnPhase::AwaitTool);
    let step = turn.on_tool_result(RuntimeToolResult {
        tool_call_id: "b".to_string(),
        name: "rm".to_string(),
        content: "ok".to_string(),
        is_error: false,
    });
    assert!(matches!(step.action, TurnAction::CallModel));
    let roles: Vec<RuntimeRole> = turn.history().iter().map(|m| m.role).collect();
    assert_eq!(roles, vec![RuntimeRole::User, RuntimeRole::Assistant, RuntimeRole::Tool, RuntimeRole::Tool]);
}

#[test]
fn resuming_counts_the_calls_already_made() {
    let history = vec![
        RuntimeMessage::user("go".to_string()),
        RuntimeMessage::assistant_with_tool_calls(vec![list_files_call()]),
    ];
    let result = RuntimeToolResult {
        tool_call_id: "call_1".to_string(),
        name: "list_files".to_string(),
        content: "x".to_string(),
        is_error: false,
    };
    let (turn, action) = QueryTurn::resume(&history, result);
    assert!(matches!(action, TurnAction::CallModel));
    assert_eq!(turn.tool_call_count(), 1);
    assert_eq!(turn.history().len(), 3);
    assert_eq!(turn.history()[2].role, RuntimeRole::Tool);
}

fn pending() -> PendingApproval {
    PendingApproval { tool_call: list_files_call(), reason: "Tool list_files requires approval".to_string() }
}

#[test]
fn approvals_plan_what_to_run_and_save() {
    let settings = PermissionsSettings {
        mode: PermissionMode::Ask,
        allow_tools: Vec::new(),
        deny_tools: vec!["list_files".to_string()],
        ask_tools: Vec::new(),
    };
    let once = plan_approval(&ApprovalAction::AllowOnce(pending()), &settings);
    assert_eq!(once.run.unwrap().id, "call_1");
    assert!(once.denied.is_none() && once.permissions_to_save.is_none());

    let always = plan_approval(&ApprovalAction::AlwaysAllow(pending()), &settings);
    let saved = always.permissions_to_save.unwrap();
    assert_eq!(saved.allow_tools, vec!["list_files".to_string()]);
    assert!(saved.deny_tools.is_empty());

    let refuse = plan_approval(&ApprovalAction::AlwaysDeny(pending()), &settings);
    assert!(refuse.run.is_none());
    let denied = refuse.denied.unwrap();
    assert_eq!(denied.content, "Tool list_files requires approval");
    assert!(denied.is_error);
    assert_eq!(refuse.permissions_to_save.unwrap().deny_tools, vec!["list_files".to_string()]);

    let deny_once = plan_approval(&ApprovalAction::DenyOnce(pending()), &settings);
    assert!(deny_once.permissions_to_save.is_none());
    assert_eq!(deny_once.denied.unwrap().tool_call_id, "call_1");
}
