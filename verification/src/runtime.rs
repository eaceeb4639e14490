//! Transcript messages exchanged between the user, the model and tools.

use vstd::prelude::*;

verus! {

/// Who produced a message.
#[derive(Debug, Clone, Copy, PartialEq, Eq, Structural)]
pub enum RuntimeRole {
    System,
    User,
    Assistant,
    Tool,
}

/// The wire name of a role.
pub open spec fn role_name(r: RuntimeRole) -> Seq<char> {
    match r {
        RuntimeRole::System => "system"@,
        RuntimeRole::User => "user"@,
        RuntimeRole::Assistant => "assistant"@,
        RuntimeRole::Tool => "tool"@,
    }
}

impl RuntimeRole {
    /// The wire name of the role.
    pub fn as_str(self) -> (s: &'static str)
        ensures
            s@ == role_name(self),
    {
        match self {
            RuntimeRole::System => "system",
            RuntimeRole::User => "user",
            RuntimeRole::Assistant => "assistant",
            RuntimeRole::Tool => "tool",
        }
    }
}

/// A tool invocation requested by the model. `arguments` holds the call's
/// arguments as compact JSON text.
#[derive(Debug, PartialEq, Eq)]
pub struct RuntimeToolCall {
    pub id: String,
    pub name: String,
    pub arguments: String,
}

/// The mathematical value of a tool call.
pub struct ToolCallView {
    pub id: Seq<char>,
    pub name: Seq<char>,
    pub arguments: Seq<char>,
}

impl View for RuntimeToolCall {
    type V = ToolCallView;

    open spec fn view(&self) -> ToolCallView {
        ToolCallView { id: self.id@, name: self.name@, arguments: self.arguments@ }
    }
}

impl Clone for RuntimeToolCall {
    fn clone(&self) -> (r: Self)
        ensures
            r@ == self@,
    {
        RuntimeToolCall {
            id: self.id.clone(),
            name: self.name.clone(),
            arguments: self.arguments.clone(),
        }
    }
}

/// The outcome of running a tool.
#[derive(Debug, PartialEq, Eq)]
pub struct RuntimeToolResult {
    pub tool_call_id: String,
    pub name: String,
    pub content: String,
    pub is_error: bool,
}

/// The mathematical value of a tool result.
pub struct ToolResultView {
    pub tool_call_id: Seq<char>,
    pub name: Seq<char>,
    pub content: Seq<char>,
    pub is_error: bool,
}

impl View for RuntimeToolResult {
    type V = ToolResultView;

    open spec fn view(&self) -> ToolResultView {
        ToolResultView {
            tool_call_id: self.tool_call_id@,
            name: self.name@,
            content: self.content@,
            is_error: self.is_error,
        }
    }
}

impl Clone for RuntimeToolResult {
    fn clone(&self) -> (r: Self)
        ensures
            r@ == self@,
    {
        RuntimeToolResult {
            tool_call_id: self.tool_call_id.clone(),
            name: self.name.clone(),
            content: self.content.clone(),
            is_error: self.is_error,
        }
    }
}

/// The views of a list of tool calls.
pub open spec fn calls_view(v: Seq<RuntimeToolCall>) -> Seq<ToolCallView> {
    v.map_values(|c: RuntimeToolCall| c@)
}

/// The view of an optional tool result.
pub open spec fn result_view(r: Option<RuntimeToolResult>) -> Option<ToolResultView> {
    match r {
        Some(x) => Some(x@),
        None => None,
    }
}

/// One entry of a conversation.
#[derive(Debug, PartialEq, Eq)]
pub struct RuntimeMessage {
    pub role: RuntimeRole,
    pub content: String,
    pub tool_calls: Vec<RuntimeToolCall>,
    pub tool_result: Option<RuntimeToolResult>,
}

/// The mathematical value of a message.
pub struct MessageView {
    pub role: RuntimeRole,
    pub content: Seq<char>,
    pub tool_calls: Seq<ToolCallView>,
    pub tool_result: Option<ToolResultView>,
}

impl View for RuntimeMessage {
    type V = MessageView;

    open spec fn view(&self) -> MessageView {
        MessageView {
            role: self.role,
            content: self.content@,
            tool_calls: calls_view(self.tool_calls@),
            tool_result: result_view(self.tool_result),
        }
    }
}

/// The views of a list of messages.
pub open spec fn messages_view(v: Seq<RuntimeMessage>) -> Seq<MessageView> {
    v.map_values(|m: RuntimeMessage| m@)
}

/// A copy of a list of tool calls.
pub fn clone_calls(v: &Vec<RuntimeToolCall>) -> (r: Vec<RuntimeToolCall>)
    ensures
        calls_view(r@) == calls_view(v@),
{
    let mut r: Vec<RuntimeToolCall> = Vec::new();
    let mut i: usize = 0;
    while i < v.len()
        invariant
            i <= v.len(),
            calls_view(r@) == calls_view(v@.subrange(0, i as int)),
        decreases v.len() - i,
    {
        let c = v[i].clone();
        let ghost old_r = r@;
        r.push(c);
        assert(calls_view(r@) =~= calls_view(old_r).push(c@));
        i = i + 1;
        assert(calls_view(v@.subrange(0, i as int)) =~= calls_view(v@.subrange(0, i - 1)).push(
            v@[i - 1]@,
        ));
    }
    assert(v@.subrange(0, v.len() as int) =~= v@);
    r
}

/// A copy of an optional tool result.
pub fn clone_result(r: &Option<RuntimeToolResult>) -> (c: Option<RuntimeToolResult>)
    ensures
        result_view(c) == result_view(*r),
{
    match r {
        Some(x) => Some(x.clone()),
        None => None,
    }
}

impl Clone for RuntimeMessage {
    fn clone(&self) -> (r: Self)
        ensures
            r@ == self@,
    {
        RuntimeMessage {
            role: self.role,
            content: self.content.clone(),
            tool_calls: clone_calls(&self.tool_calls),
            tool_result: clone_result(&self.tool_result),
        }
    }
}

/// A copy of a list of messages.
pub fn clone_messages(v: &Vec<RuntimeMessage>) -> (r: Vec<RuntimeMessage>)
    ensures
        messages_view(r@) == messages_view(v@),
{
    let mut r: Vec<RuntimeMessage> = Vec::new();
    let mut i: usize = 0;
    while i < v.len()
        invariant
            i <= v.len(),
            messages_view(r@) == messages_view(v@.subrange(0, i as int)),
        decreases v.len() - i,
    {
        let c = v[i].clone();
        let ghost old_r = r@;
        r.push(c);
        assert(messages_view(r@) =~= messages_view(old_r).push(c@));
        i = i + 1;
        assert(messages_view(v@.subrange(0, i as int)) =~= messages_view(
            v@.subrange(0, i - 1),
        ).push(v@[i - 1]@));
    }
    assert(v@.subrange(0, v.len() as int) =~= v@);
    r
}

impl RuntimeMessage {
    /// A message with the given role and text, no tool calls and no tool result.
    pub fn new(role: RuntimeRole, content: String) -> (m: Self)
        ensures
            m.role == role,
            m.content@ == content@,
            m.tool_calls@.len() == 0,
            m.tool_result is None,
    {
        RuntimeMessage { role, content, tool_calls: Vec::new(), tool_result: None }
    }

    /// A system message.
    pub fn system(content: String) -> (m: Self)
        ensures
            m.role == RuntimeRole::System,
            m.content@ == content@,
            m.tool_calls@.len() == 0,
            m.tool_result is None,
    {
        Self::new(RuntimeRole::System, content)
    }

    /// A user message.
    pub fn user(content: String) -> (m: Self)
        ensures
            m.role == RuntimeRole::User,
            m.content@ == content@,
            m.tool_calls@.len() == 0,
            m.tool_result is None,
    {
        Self::new(RuntimeRole::User, content)
    }

    /// An assistant message.
    pub fn assistant(content: String) -> (m: Self)
        ensures
            m.role == RuntimeRole::Assistant,
            m.content@ == content@,
            m.tool_calls@.len() == 0,
            m.tool_result is None,
    {
        Self::new(RuntimeRole::Assistant, content)
    }

    /// An assistant message that only requests tool calls.
    pub fn assistant_with_tool_calls(tool_calls: Vec<RuntimeToolCall>) -> (m: Self)
        ensures
            m.role == RuntimeRole::Assistant,
            m.content@.len() == 0,
            m.tool_calls@ == tool_calls@,
            m.tool_result is None,
    {
        RuntimeMessage {
            role: RuntimeRole::Assistant,
            content: String::new(),
            tool_calls,
            tool_result: None,
        }
    }

    /// The message that carries a tool result back to the model.
    pub fn tool_result(result: RuntimeToolResult) -> (m: Self)
        ensures
            m.role == RuntimeRole::Tool,
            m.content@ == result.content@,
            m.tool_calls@.len() == 0,
            m.tool_result == Some(result),
    {
        let content = result.content.clone();
        RuntimeMessage {
            role: RuntimeRole::Tool,
            content,
            tool_calls: Vec::new(),
            tool_result: Some(result),
        }
    }

    /// Whether the message requests any tool call.
    pub fn has_tool_calls(&self) -> (b: bool)
        ensures
            b == (self.tool_calls@.len() > 0),
    {
        self.tool_calls.len() > 0
    }
}

/// Token counts of a turn.
#[derive(Debug, Clone, Copy, PartialEq, Eq, Structural)]
pub struct RuntimeUsage {
    pub prompt_tokens: usize,
    pub completion_tokens: usize,
    pub total_tokens: usize,
}

/// A tool call waiting for the user's approval, and why.
#[derive(Debug, PartialEq, Eq)]
pub struct PendingApproval {
    pub tool_call: RuntimeToolCall,
    pub reason: String,
}

/// The mathematical value of a pending approval.
pub struct PendingView {
    pub tool_call: ToolCallView,
    pub reason: Seq<char>,
}

impl View for PendingApproval {
    type V = PendingView;

    open spec fn view(&self) -> PendingView {
        PendingView { tool_call: self.tool_call@, reason: self.reason@ }
    }
}

impl Clone for PendingApproval {
    fn clone(&self) -> (r: Self)
        ensures
            r@ == self@,
    {
        PendingApproval { tool_call: self.tool_call.clone(), reason: self.reason.clone() }
    }
}

/// How a turn ended.
#[derive(Debug, Clone, Copy, PartialEq, Eq, Structural)]
pub enum TurnStatus {
    Completed,
    AwaitingApproval,
}

/// The user's answer to a pending approval.
#[derive(Debug, PartialEq, Eq)]
pub enum ApprovalAction {
    AllowOnce(PendingApproval),
    DenyOnce(PendingApproval),
    AlwaysAllow(PendingApproval),
    AlwaysDeny(PendingApproval),
}

/// The outcome of one model turn.
#[derive(Debug)]
pub struct QueryTurnResult {
    pub history: Vec<RuntimeMessage>,
    pub assistant_message: Option<RuntimeMessage>,
    pub usage: Option<RuntimeUsage>,
    pub model: String,
    pub finish_reason: Option<String>,
    pub tool_call_count: usize,
    pub status: TurnStatus,
    pub pending_approval: Option<PendingApproval>,
    pub was_compacted: bool,
    pub compaction_summary: Option<String>,
}

impl QueryTurnResult {
    /// The text of the assistant's message, if the turn produced one.
    pub fn assistant_text(&self) -> (r: Option<&str>)
        ensures
            match (r, self.assistant_message) {
                (Some(t), Some(m)) => t@ == m.content@,
                (None, None) => true,
                _ => false,
            },
    {
        match &self.assistant_message {
            Some(m) => Some(m.content.as_str()),
            None => None,
        }
    }
}

} // verus!
