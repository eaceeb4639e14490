//! The decisions of one model turn: when to ask the model, which tool
//! calls to put to the permission gate and to run, and when the turn is
//! over. The caller does the asking and the running and reports back;
//! each report moves the turn on and names the next thing to do.

use vstd::prelude::*;
use crate::permissions::{
    after_allow, after_deny, DecisionView, PermissionDecision, PermissionsSettings,
    PermissionsView, SettingsPermissionGate,
};
use crate::runtime::{
    calls_view, clone_messages, messages_view, ApprovalAction, MessageView, PendingApproval, PendingView,
    QueryTurnResult, RuntimeMessage, RuntimeRole, RuntimeToolCall, RuntimeToolResult,
    RuntimeUsage, ToolCallView, ToolResultView, TurnStatus,
};
use crate::text::{clone_opt, opt_view};

verus! {

/// How many times one turn may ask the model.
pub const MAX_MODEL_CALLS: usize = 8;

/// What the model gave back for one request.
#[derive(Debug)]
pub struct GatewayResponse {
    pub assistant_message: Option<RuntimeMessage>,
    pub usage: Option<RuntimeUsage>,
    pub model: String,
    pub finish_reason: Option<String>,
}

/// The view of an optional message.
pub open spec fn message_opt(m: Option<RuntimeMessage>) -> Option<MessageView> {
    match m {
        Some(x) => Some(x@),
        None => None,
    }
}

/// The mathematical value of a model response.
pub struct ReplyView {
    pub assistant_message: Option<MessageView>,
    pub usage: Option<RuntimeUsage>,
    pub model: Seq<char>,
    pub finish_reason: Option<Seq<char>>,
}

impl View for GatewayResponse {
    type V = ReplyView;

    open spec fn view(&self) -> ReplyView {
        ReplyView {
            assistant_message: message_opt(self.assistant_message),
            usage: self.usage,
            model: self.model@,
            finish_reason: opt_view(self.finish_reason),
        }
    }
}

fn clone_message_opt(m: &Option<RuntimeMessage>) -> (r: Option<RuntimeMessage>)
    ensures
        message_opt(r) == message_opt(*m),
{
    match m {
        Some(x) => Some(x.clone()),
        None => None,
    }
}

/// The mathematical value of a turn's outcome.
pub struct TurnResultView {
    pub history: Seq<MessageView>,
    pub assistant_message: Option<MessageView>,
    pub usage: Option<RuntimeUsage>,
    pub model: Seq<char>,
    pub finish_reason: Option<Seq<char>>,
    pub tool_call_count: usize,
    pub status: TurnStatus,
    pub pending_approval: Option<PendingView>,
    pub was_compacted: bool,
    pub compaction_summary: Option<Seq<char>>,
}

/// The view of an optional pending approval.
pub open spec fn pending_opt(p: Option<PendingApproval>) -> Option<PendingView> {
    match p {
        Some(x) => Some(x@),
        None => None,
    }
}

impl View for QueryTurnResult {
    type V = TurnResultView;

    open spec fn view(&self) -> TurnResultView {
        TurnResultView {
            history: messages_view(self.history@),
            assistant_message: message_opt(self.assistant_message),
            usage: self.usage,
            model: self.model@,
            finish_reason: opt_view(self.finish_reason),
            tool_call_count: self.tool_call_count,
            status: self.status,
            pending_approval: pending_opt(self.pending_approval),
            was_compacted: self.was_compacted,
            compaction_summary: opt_view(self.compaction_summary),
        }
    }
}

/// Where a turn stands.
#[derive(Debug, Clone, Copy, PartialEq, Eq, Structural)]
pub enum TurnPhase {
    /// Waiting for the model's response.
    AwaitModel,
    /// Waiting for the permission gate's verdict on the next tool call.
    AwaitPermission,
    /// Waiting for the result of an allowed tool call.
    AwaitTool,
    /// The turn has ended.
    Over,
}

/// What the caller is to do next.
#[derive(Debug)]
pub enum TurnAction {
    /// Ask the model, with the turn's history as the conversation.
    CallModel,
    /// Show the tool call, then ask the permission gate about it.
    CheckPermission(RuntimeToolCall),
    /// Run the tool call.
    ExecuteTool(RuntimeToolCall),
    /// The turn has ended with this outcome.
    Finished(QueryTurnResult),
    /// The turn has failed with this message.
    Failed(String),
}

/// The mathematical value of a `TurnAction`.
pub enum ActionView {
    CallModel,
    CheckPermission(ToolCallView),
    ExecuteTool(ToolCallView),
    Finished(TurnResultView),
    Failed(Seq<char>),
}

impl View for TurnAction {
    type V = ActionView;

    open spec fn view(&self) -> ActionView {
        match self {
            TurnAction::CallModel => ActionView::CallModel,
            TurnAction::CheckPermission(c) => ActionView::CheckPermission(c@),
            TurnAction::ExecuteTool(c) => ActionView::ExecuteTool(c@),
            TurnAction::Finished(r) => ActionView::Finished(r@),
            TurnAction::Failed(m) => ActionView::Failed(m@),
        }
    }
}

/// One step of a turn: the tool result it added to the history, if any
/// (to be shown), and what to do next.
pub struct TurnStep {
    pub recorded: Option<RuntimeToolResult>,
    pub action: TurnAction,
}

/// The view of an optional tool result.
pub open spec fn recorded_view(r: Option<RuntimeToolResult>) -> Option<ToolResultView> {
    match r {
        Some(x) => Some(x@),
        None => None,
    }
}

/// A turn in progress.
pub struct QueryTurn {
    history: Vec<RuntimeMessage>,
    tool_call_count: usize,
    model_calls: usize,
    phase: TurnPhase,
    reply: Option<GatewayResponse>,
    next: usize,
}

/// The mathematical value of a turn in progress: the conversation so far,
/// the tool calls counted, how often the model was asked, the phase, the
/// response whose tool calls are being handled and the position of the
/// call in hand.
pub struct TurnView {
    pub history: Seq<MessageView>,
    pub tool_call_count: usize,
    pub model_calls: usize,
    pub phase: TurnPhase,
    pub reply: Option<ReplyView>,
    pub next: usize,
}

impl View for QueryTurn {
    type V = TurnView;

    closed spec fn view(&self) -> TurnView {
        TurnView {
            history: messages_view(self.history@),
            tool_call_count: self.tool_call_count,
            model_calls: self.model_calls,
            phase: self.phase,
            reply: match self.reply {
                Some(r) => Some(r@),
                None => None,
            },
            next: self.next,
        }
    }
}

/// The assistant message whose tool calls are being handled.
pub open spec fn reply_message(v: TurnView) -> MessageView {
    match v.reply {
        Some(r) => match r.assistant_message {
            Some(m) => m,
            None => arbitrary(),
        },
        None => arbitrary(),
    }
}

/// The message that carries a tool result back to the model.
pub open spec fn tool_message(r: ToolResultView) -> MessageView {
    MessageView { role: RuntimeRole::Tool, content: r.content, tool_calls: Seq::empty(), tool_result: Some(r) }
}

/// The error result for a refused call.
pub open spec fn denied_result(c: ToolCallView, message: Seq<char>) -> ToolResultView {
    ToolResultView { tool_call_id: c.id, name: c.name, content: message, is_error: true }
}

/// The message a turn fails with when it asks the model too often.
pub open spec fn loop_limit_message() -> Seq<char> {
    "Tool loop exceeded maximum iterations for one turn"@
}

/// The history ends with `m` followed by `k` tool messages.
pub open spec fn answered(h: Seq<MessageView>, m: MessageView, k: int) -> bool {
    &&& 0 <= k
    &&& h.len() >= k + 1
    &&& h[h.len() - k - 1] == m
    &&& forall|j: int| h.len() - k <= j < h.len() ==> #[trigger] h[j].role == RuntimeRole::Tool
}

/// A turn is handling a response with tool calls: the call in hand is one
/// of them, and the history ends with the response's message followed by
/// one tool message per call already handled.
pub open spec fn handling(v: TurnView) -> bool {
    &&& v.reply matches Some(r)
    &&& r.assistant_message is Some
    &&& reply_message(v).tool_calls.len() <= usize::MAX
    &&& v.next < reply_message(v).tool_calls.len()
    &&& answered(v.history, reply_message(v), v.next as int)
}

/// The turn's invariant: the model is asked at most `MAX_MODEL_CALLS`
/// times, and while tool calls are handled the history shows them.
pub open spec fn turn_wf(v: TurnView) -> bool {
    &&& v.model_calls <= MAX_MODEL_CALLS
    &&& v.phase == TurnPhase::AwaitModel ==> v.model_calls < MAX_MODEL_CALLS
    &&& (v.phase == TurnPhase::AwaitPermission || v.phase == TurnPhase::AwaitTool) ==> handling(v)
}

/// The outcome of a turn.
pub open spec fn turn_result(
    history: Seq<MessageView>,
    r: ReplyView,
    message: Option<MessageView>,
    count: usize,
    status: TurnStatus,
    pending: Option<PendingView>,
) -> TurnResultView {
    TurnResultView {
        history,
        assistant_message: message,
        usage: r.usage,
        model: r.model,
        finish_reason: r.finish_reason,
        tool_call_count: count,
        status,
        pending_approval: pending,
        was_compacted: false,
        compaction_summary: None,
    }
}

/// The step after a tool call: the next call of the response goes to the
/// permission gate; when none is left, the model is asked again if the
/// limit allows it, and otherwise the turn fails.
pub open spec fn proceed(v: TurnView) -> (TurnView, ActionView) {
    let calls = reply_message(v).tool_calls;
    if v.next < calls.len() {
        (TurnView { phase: TurnPhase::AwaitPermission, ..v }, ActionView::CheckPermission(calls[v.next as int]))
    } else if v.model_calls < MAX_MODEL_CALLS {
        (TurnView { phase: TurnPhase::AwaitModel, reply: None, next: 0, ..v }, ActionView::CallModel)
    } else {
        (TurnView { phase: TurnPhase::Over, ..v }, ActionView::Failed(loop_limit_message()))
    }
}

/// A model response taken in: without a message, or with a message that
/// asks for no tool, the turn is complete; otherwise its calls are counted
/// and handled in order.
pub open spec fn on_reply_spec(v: TurnView, r: ReplyView) -> (TurnView, ActionView) {
    let asked = (v.model_calls + 1) as usize;
    match r.assistant_message {
        None => (
            TurnView { phase: TurnPhase::Over, model_calls: asked, ..v },
            ActionView::Finished(turn_result(v.history, r, None, v.tool_call_count, TurnStatus::Completed, None)),
        ),
        Some(m) => {
            let h = v.history.push(m);
            if m.tool_calls.len() == 0 {
                (
                    TurnView { phase: TurnPhase::Over, model_calls: asked, history: h, ..v },
                    ActionView::Finished(
                        turn_result(h, r, Some(m), v.tool_call_count, TurnStatus::Completed, None),
                    ),
                )
            } else {
                proceed(
                    TurnView {
                        history: h,
                        tool_call_count: (v.tool_call_count + m.tool_calls.len()) as usize,
                        model_calls: asked,
                        phase: v.phase,
                        reply: Some(r),
                        next: 0,
                    },
                )
            }
        },
    }
}

/// A verdict taken in: an allowed call is to be run; a refused call gets
/// an error result in the history and the turn goes on; a call that needs
/// approval ends the turn, waiting for the user.
pub open spec fn on_decision_spec(v: TurnView, d: DecisionView) -> (TurnView, ActionView, Option<ToolResultView>) {
    let m = reply_message(v);
    let c = m.tool_calls[v.next as int];
    match d {
        DecisionView::Allow => (TurnView { phase: TurnPhase::AwaitTool, ..v }, ActionView::ExecuteTool(c), None),
        DecisionView::Deny(msg) => {
            let res = denied_result(c, msg);
            let (nv, a) = proceed(TurnView { history: v.history.push(tool_message(res)), next: (v.next + 1) as usize, ..v });
            (nv, a, Some(res))
        },
        DecisionView::Ask(reason) => (
            TurnView { phase: TurnPhase::Over, ..v },
            ActionView::Finished(
                turn_result(
                    v.history,
                    v.reply->0,
                    Some(m),
                    v.tool_call_count,
                    TurnStatus::AwaitingApproval,
                    Some(PendingView { tool_call: c, reason }),
                ),
            ),
            None,
        ),
    }
}

/// A tool result taken in: it joins the history and the turn goes on.
pub open spec fn on_tool_result_spec(v: TurnView, res: ToolResultView) -> (TurnView, ActionView) {
    proceed(TurnView { history: v.history.push(tool_message(res)), next: (v.next + 1) as usize, ..v })
}

/// The number of tool calls a conversation holds.
pub open spec fn total_calls(h: Seq<MessageView>) -> nat
    decreases h.len(),
{
    if h.len() == 0 {
        0
    } else {
        total_calls(h.drop_last()) + h.last().tool_calls.len()
    }
}

/// `s` begins with `p`.
pub open spec fn extends(s: Seq<MessageView>, p: Seq<MessageView>) -> bool {
    s.len() >= p.len() && s.subrange(0, p.len() as int) == p
}

proof fn lemma_proceed(v: TurnView)
    requires
        v.model_calls <= MAX_MODEL_CALLS,
        v.reply matches Some(r) && r.assistant_message is Some,
        v.next <= reply_message(v).tool_calls.len() <= usize::MAX,
        answered(v.history, reply_message(v), v.next as int),
    ensures
        turn_wf(proceed(v).0),
        proceed(v).0.history == v.history,
        proceed(v).1 is CallModel ==> answered(
            v.history,
            reply_message(v),
            reply_message(v).tool_calls.len() as int,
        ),
{
}

/// A turn asks the model at most `MAX_MODEL_CALLS` times: every step
/// keeps the turn's invariant, taking in a response counts one request
/// more, no other step changes the count, and the model is asked again
/// only while the count is below the limit.
pub proof fn law_model_calls_bounded(v: TurnView, r: ReplyView, d: DecisionView, res: ToolResultView)
    requires
        turn_wf(v),
    ensures
        v.phase == TurnPhase::AwaitModel && (r.assistant_message matches Some(m) ==> v.tool_call_count
            + m.tool_calls.len() <= usize::MAX) ==> {
            let (nv, a) = on_reply_spec(v, r);
            &&& turn_wf(nv)
            &&& nv.model_calls == v.model_calls + 1
            &&& (a is CallModel ==> nv.model_calls < MAX_MODEL_CALLS)
        },
        v.phase == TurnPhase::AwaitPermission ==> {
            let (nv, a, rec) = on_decision_spec(v, d);
            &&& turn_wf(nv)
            &&& nv.model_calls == v.model_calls
            &&& (a is CallModel ==> nv.model_calls < MAX_MODEL_CALLS)
        },
        v.phase == TurnPhase::AwaitTool ==> {
            let (nv, a) = on_tool_result_spec(v, res);
            &&& turn_wf(nv)
            &&& nv.model_calls == v.model_calls
            &&& (a is CallModel ==> nv.model_calls < MAX_MODEL_CALLS)
        },
{
    if v.phase == TurnPhase::AwaitModel {
        if let Some(m) = r.assistant_message {
            if m.tool_calls.len() > 0 && v.tool_call_count + m.tool_calls.len() <= usize::MAX {
                let w = TurnView {
                    history: v.history.push(m),
                    tool_call_count: (v.tool_call_count + m.tool_calls.len()) as usize,
                    model_calls: (v.model_calls + 1) as usize,
                    phase: v.phase,
                    reply: Some(r),
                    next: 0,
                };
                assert(reply_message(w) == m);
                lemma_proceed(w);
            }
        }
    } else if v.phase == TurnPhase::AwaitPermission {
        let m = reply_message(v);
        if let DecisionView::Deny(msg) = d {
            let w = TurnView {
                history: v.history.push(tool_message(denied_result(m.tool_calls[v.next as int], msg))),
                next: (v.next + 1) as usize,
                ..v
            };
            assert(reply_message(w) == m);
            lemma_proceed(w);
        }
    } else if v.phase == TurnPhase::AwaitTool {
        let m = reply_message(v);
        let w = TurnView {
            history: v.history.push(tool_message(res)),
            next: (v.next + 1) as usize,
            ..v
        };
        assert(reply_message(w) == m);
        lemma_proceed(w);
    }
}

impl QueryTurn {
    fn record(&mut self, result: RuntimeToolResult) -> (recorded: RuntimeToolResult)
        ensures
            final(self)@ == (TurnView {
                history: old(self)@.history.push(tool_message(result@)),
                ..old(self)@
            }),
            recorded@ == result@,
    {
        let copy = result.clone();
        let ghost before = self.history@;
        let m = RuntimeMessage::tool_result(result);
        assert(calls_view(m.tool_calls@) =~= Seq::<ToolCallView>::empty());
        assert(m@ == tool_message(copy@));
        self.history.push(m);
        assert(messages_view(self.history@) =~= messages_view(before).push(tool_message(copy@)));
        copy
    }

    fn calls_in_hand(&self) -> (n: usize)
        requires
            self@.reply matches Some(r) && r.assistant_message is Some,
        ensures
            n == reply_message(self@).tool_calls.len(),
    {
        match &self.reply {
            Some(r) => match &r.assistant_message {
                Some(m) => m.tool_calls.len(),
                None => 0,
            },
            None => 0,
        }
    }

    fn proceed_exec(&mut self) -> (a: TurnAction)
        requires
            old(self)@.reply matches Some(r) && r.assistant_message is Some,
        ensures
            (final(self)@, a@) == proceed(old(self)@),
    {
        proof {
            reveal_strlit("Tool loop exceeded maximum iterations for one turn");
        }
        let n = match &self.reply {
            Some(r) => match &r.assistant_message {
                Some(m) => m.tool_calls.len(),
                None => 0,
            },
            None => 0,
        };
        if self.next < n {
            self.phase = TurnPhase::AwaitPermission;
            let call = match &self.reply {
                Some(r) => match &r.assistant_message {
                    Some(m) => m.tool_calls[self.next].clone(),
                    None => {
                        proof {
                            assert(false);
                        }
                        return TurnAction::CallModel;
                    },
                },
                None => {
                    proof {
                        assert(false);
                    }
                    return TurnAction::CallModel;
                },
            };
            TurnAction::CheckPermission(call)
        } else if self.model_calls < MAX_MODEL_CALLS {
            self.phase = TurnPhase::AwaitModel;
            self.reply = None;
            self.next = 0;
            TurnAction::CallModel
        } else {
            self.phase = TurnPhase::Over;
            TurnAction::Failed(String::from_str("Tool loop exceeded maximum iterations for one turn"))
        }
    }

    fn finished(
        &self,
        message: Option<RuntimeMessage>,
        r: &GatewayResponse,
        status: TurnStatus,
        pending: Option<PendingApproval>,
    ) -> (a: TurnAction)
        ensures
            a@ == ActionView::Finished(
                turn_result(
                    self@.history,
                    r@,
                    message_opt(message),
                    self@.tool_call_count,
                    status,
                    pending_opt(pending),
                ),
            ),
    {
        TurnAction::Finished(
            QueryTurnResult {
                history: clone_messages(&self.history),
                assistant_message: message,
                usage: r.usage,
                model: r.model.clone(),
                finish_reason: clone_opt(&r.finish_reason),
                tool_call_count: self.tool_call_count,
                status,
                pending_approval: pending,
                was_compacted: false,
                compaction_summary: None,
            },
        )
    }

    /// A turn that starts from `history` with the user's message; the
    /// model is to be asked first.
    pub fn start(history: &Vec<RuntimeMessage>, user_message: RuntimeMessage) -> (r: (
        QueryTurn,
        TurnAction,
    ))
        ensures
            r.0@ == (TurnView {
                history: messages_view(history@).push(user_message@),
                tool_call_count: 0,
                model_calls: 0,
                phase: TurnPhase::AwaitModel,
                reply: None,
                next: 0,
            }),
            r.1 is CallModel,
            turn_wf(r.0@),
    {
        let mut h = clone_messages(history);
        let ghost before = h@;
        let ghost m = user_message@;
        h.push(user_message);
        assert(messages_view(h@) =~= messages_view(before).push(m));
        (
            QueryTurn {
                history: h,
                tool_call_count: 0,
                model_calls: 0,
                phase: TurnPhase::AwaitModel,
                reply: None,
                next: 0,
            },
            TurnAction::CallModel,
        )
    }

    /// A turn that goes on from `history` after a tool result that the
    /// user's approval produced; the tool calls already in the history
    /// are counted, and the model is to be asked first.
    pub fn resume(history: &Vec<RuntimeMessage>, tool_result: RuntimeToolResult) -> (r: (
        QueryTurn,
        TurnAction,
    ))
        requires
            total_calls(messages_view(history@)) <= usize::MAX,
        ensures
            r.0@ == (TurnView {
                history: messages_view(history@).push(tool_message(tool_result@)),
                tool_call_count: total_calls(messages_view(history@)) as usize,
                model_calls: 0,
                phase: TurnPhase::AwaitModel,
                reply: None,
                next: 0,
            }),
            r.1 is CallModel,
            turn_wf(r.0@),
    {
        let ghost hv = messages_view(history@);
        let mut count: usize = 0;
        let mut i: usize = 0;
        while i < history.len()
            invariant
                i <= history.len(),
                hv == messages_view(history@),
                total_calls(hv) <= usize::MAX,
                count == total_calls(hv.subrange(0, i as int)),
            decreases history.len() - i,
        {
            let ghost sub = hv.subrange(0, i + 1);
            assert(sub.drop_last() =~= hv.subrange(0, i as int));
            proof {
                lemma_total_calls_prefix(hv, i + 1);
            }
            count = count + history[i].tool_calls.len();
            i = i + 1;
        }
        assert(hv.subrange(0, history.len() as int) =~= hv);
        let mut turn = QueryTurn {
            history: clone_messages(history),
            tool_call_count: count,
            model_calls: 0,
            phase: TurnPhase::AwaitModel,
            reply: None,
            next: 0,
        };
        let _ = turn.record(tool_result);
        (turn, TurnAction::CallModel)
    }

    /// The conversation so far (what the model is to be asked with).
    pub fn history(&self) -> (h: &Vec<RuntimeMessage>)
        ensures
            messages_view(h@) == self@.history,
    {
        &self.history
    }

    /// Where the turn stands.
    pub fn phase(&self) -> (p: TurnPhase)
        ensures
            p == self@.phase,
    {
        self.phase
    }

    /// The tool calls counted so far.
    pub fn tool_call_count(&self) -> (n: usize)
        ensures
            n == self@.tool_call_count,
    {
        self.tool_call_count
    }

    /// Takes in the model's response.
    pub fn on_model_reply(&mut self, response: GatewayResponse) -> (step: TurnStep)
        requires
            old(self)@.phase == TurnPhase::AwaitModel,
            turn_wf(old(self)@),
            match response.assistant_message {
                Some(m) => old(self)@.tool_call_count + m.tool_calls.len() <= usize::MAX,
                None => true,
            },
        ensures
            (final(self)@, step.action@) == on_reply_spec(old(self)@, response@),
            step.recorded is None,
            turn_wf(final(self)@),
            extends(final(self)@.history, old(self)@.history),
    {
        let ghost v = self@;
        let asked = self.model_calls + 1;
        match &response.assistant_message {
            None => {
                self.phase = TurnPhase::Over;
                self.model_calls = asked;
                let action = self.finished(None, &response, TurnStatus::Completed, None);
                assert(self@.history.subrange(0, v.history.len() as int) =~= v.history);
                TurnStep { recorded: None, action }
            },
            Some(m) => {
                let copy = m.clone();
                let ghost before = self.history@;
                self.history.push(copy);
                assert(messages_view(self.history@) =~= messages_view(before).push(m@));
                assert(self@.history.subrange(0, v.history.len() as int) =~= v.history);
                self.model_calls = asked;
                if m.tool_calls.len() == 0 {
                    self.phase = TurnPhase::Over;
                    let message = m.clone();
                    let action = self.finished(Some(message), &response, TurnStatus::Completed, None);
                    TurnStep { recorded: None, action }
                } else {
                    self.tool_call_count = self.tool_call_count + m.tool_calls.len();
                    self.next = 0;
                    self.reply = Some(response);
                    proof {
                        lemma_proceed(self@);
                    }
                    let action = self.proceed_exec();
                    TurnStep { recorded: None, action }
                }
            },
        }
    }

    /// Takes in the permission gate's verdict on the call in hand.
    pub fn on_permission(&mut self, decision: PermissionDecision) -> (step: TurnStep)
        requires
            old(self)@.phase == TurnPhase::AwaitPermission,
            turn_wf(old(self)@),
        ensures
            (final(self)@, step.action@, recorded_view(step.recorded)) == on_decision_spec(
                old(self)@,
                decision@,
            ),
            turn_wf(final(self)@),
            extends(final(self)@.history, old(self)@.history),
            step.action is CallModel ==> answered(
                final(self)@.history,
                reply_message(old(self)@),
                reply_message(old(self)@).tool_calls.len() as int,
            ),
    {
        let ghost v = self@;
        let call = match &self.reply {
            Some(r) => match &r.assistant_message {
                Some(m) => m.tool_calls[self.next].clone(),
                None => {
                    proof {
                        assert(false);
                    }
                    return TurnStep { recorded: None, action: TurnAction::CallModel };
                },
            },
            None => {
                proof {
                    assert(false);
                }
                return TurnStep { recorded: None, action: TurnAction::CallModel };
            },
        };
        match decision {
            PermissionDecision::Allow => {
                self.phase = TurnPhase::AwaitTool;
                assert(self@.history.subrange(0, v.history.len() as int) =~= v.history);
                TurnStep { recorded: None, action: TurnAction::ExecuteTool(call) }
            },
            PermissionDecision::Deny(message) => {
                let result = SettingsPermissionGate::denied_tool_result(&call, message);
                let n = self.calls_in_hand();
                let recorded = self.record(result);
                assert(self.next < n);
                self.next = self.next + 1;
                assert(self@.history.subrange(0, v.history.len() as int) =~= v.history);
                proof {
                    lemma_proceed(self@);
                }
                let action = self.proceed_exec();
                TurnStep { recorded: Some(recorded), action }
            },
            PermissionDecision::Ask(reason) => {
                self.phase = TurnPhase::Over;
                let message = match &self.reply {
                    Some(r) => clone_message_opt(&r.assistant_message),
                    None => None,
                };
                let pending = PendingApproval { tool_call: call, reason };
                assert(self@.history.subrange(0, v.history.len() as int) =~= v.history);
                let action = match &self.reply {
                    Some(r) => self.finished(message, r, TurnStatus::AwaitingApproval, Some(pending)),
                    None => {
                        proof {
                            assert(false);
                        }
                        TurnAction::CallModel
                    },
                };
                TurnStep { recorded: None, action }
            },
        }
    }

    /// Takes in the result of the allowed call in hand.
    pub fn on_tool_result(&mut self, result: RuntimeToolResult) -> (step: TurnStep)
        requires
            old(self)@.phase == TurnPhase::AwaitTool,
            turn_wf(old(self)@),
        ensures
            (final(self)@, step.action@) == on_tool_result_spec(old(self)@, result@),
            recorded_view(step.recorded) == Some(result@),
            turn_wf(final(self)@),
            extends(final(self)@.history, old(self)@.history),
            step.action is CallModel ==> answered(
                final(self)@.history,
                reply_message(old(self)@),
                reply_message(old(self)@).tool_calls.len() as int,
            ),
    {
        let ghost v = self@;
        let n = self.calls_in_hand();
        let recorded = self.record(result);
        assert(self.next < n);
        self.next = self.next + 1;
        assert(self@.history.subrange(0, v.history.len() as int) =~= v.history);
        proof {
            lemma_proceed(self@);
        }
        let action = self.proceed_exec();
        TurnStep { recorded: Some(recorded), action }
    }
}

proof fn lemma_total_calls_prefix(h: Seq<MessageView>, k: int)
    requires
        0 <= k <= h.len(),
    ensures
        total_calls(h.subrange(0, k)) <= total_calls(h),
    decreases h.len() - k,
{
    if k < h.len() {
        lemma_total_calls_prefix(h, k + 1);
        assert(h.subrange(0, k + 1).drop_last() =~= h.subrange(0, k));
    } else {
        assert(h.subrange(0, k) =~= h);
    }
}

/// What the user's answer to a pending approval asks of the caller: the
/// permission settings to save (for an "always" answer), the call to run
/// (when allowed), or the error result to resume with (when refused).
pub struct ApprovalPlan {
    pub permissions_to_save: Option<PermissionsSettings>,
    pub run: Option<RuntimeToolCall>,
    pub denied: Option<RuntimeToolResult>,
}

/// The pending approval an answer is about.
pub open spec fn answered_pending(a: ApprovalAction) -> PendingApproval {
    match a {
        ApprovalAction::AllowOnce(p) => p,
        ApprovalAction::DenyOnce(p) => p,
        ApprovalAction::AlwaysAllow(p) => p,
        ApprovalAction::AlwaysDeny(p) => p,
    }
}

/// What an answer asks: allowing answers run the call, refusing answers
/// resume with an error result whose text is the approval's reason, and
/// "always" answers save the settings with the tool moved to the allow or
/// deny list.
pub fn plan_approval(action: &ApprovalAction, permissions: &PermissionsSettings) -> (plan: ApprovalPlan)
    ensures
        ({
            let p = answered_pending(*action);
            &&& match action {
                ApprovalAction::AllowOnce(_) | ApprovalAction::AlwaysAllow(_) => {
                    &&& plan.run matches Some(c) && c@ == p.tool_call@
                    &&& plan.denied is None
                },
                _ => {
                    &&& plan.run is None
                    &&& plan.denied matches Some(r) && r@ == denied_result(p.tool_call@, p.reason@)
                },
            }
            &&& match action {
                ApprovalAction::AlwaysAllow(_) => plan.permissions_to_save matches Some(s) && s@
                    == after_allow(permissions@, p.tool_call@.name),
                ApprovalAction::AlwaysDeny(_) => plan.permissions_to_save matches Some(s) && s@
                    == after_deny(permissions@, p.tool_call@.name),
                _ => plan.permissions_to_save is None,
            }
        }),
{
    let (pending, allow, always) = match action {
        ApprovalAction::AllowOnce(p) => (p, true, false),
        ApprovalAction::DenyOnce(p) => (p, false, false),
        ApprovalAction::AlwaysAllow(p) => (p, true, true),
        ApprovalAction::AlwaysDeny(p) => (p, false, true),
    };
    let run = if allow {
        Some(pending.tool_call.clone())
    } else {
        None
    };
    let denied = if allow {
        None
    } else {
        Some(SettingsPermissionGate::denied_tool_result(&pending.tool_call, pending.reason.clone()))
    };
    let permissions_to_save = if always {
        let mut gate = SettingsPermissionGate::new(permissions.clone());
        if allow {
            gate.add_allow_rule(pending.tool_call.name.as_str());
        } else {
            gate.add_deny_rule(pending.tool_call.name.as_str());
        }
        Some(gate.settings().clone())
    } else {
        None
    };
    ApprovalPlan { permissions_to_save, run, denied }
}

/// The parts a turn is run with: the model gateway, the tool executor and
/// the permission gate. The caller drives a [`QueryTurn`] with them.
pub struct QueryLoop<G, T, P> {
    gateway: G,
    tool_executor: T,
    permission_gate: P,
}

impl<G, T, P> QueryLoop<G, T, P> {
    /// A loop over the given parts.
    pub fn new(gateway: G, tool_executor: T, permission_gate: P) -> (l: Self)
        ensures
            l.gateway_spec() == gateway,
            l.tool_executor_spec() == tool_executor,
            l.permission_gate_spec() == permission_gate,
    {
        QueryLoop { gateway, tool_executor, permission_gate }
    }

    /// The model gateway.
    pub closed spec fn gateway_spec(&self) -> G {
        self.gateway
    }

    /// The tool executor.
    pub closed spec fn tool_executor_spec(&self) -> T {
        self.tool_executor
    }

    /// The permission gate.
    pub closed spec fn permission_gate_spec(&self) -> P {
        self.permission_gate
    }

    /// The model gateway.
    pub fn gateway(&self) -> (g: &G)
        ensures
            *g == self.gateway_spec(),
    {
        &self.gateway
    }

    /// The tool executor.
    pub fn tool_executor(&self) -> (t: &T)
        ensures
            *t == self.tool_executor_spec(),
    {
        &self.tool_executor
    }

    /// The permission gate.
    pub fn permission_gate(&self) -> (p: &P)
        ensures
            *p == self.permission_gate_spec(),
    {
        &self.permission_gate
    }

    /// A new turn from `history` with the user's message.
    pub fn submit_turn(&self, history: &Vec<RuntimeMessage>, user_message: RuntimeMessage) -> (r: (
        QueryTurn,
        TurnAction,
    ))
        ensures
            r.0@.history == messages_view(history@).push(user_message@),
            r.0@.phase == TurnPhase::AwaitModel,
            r.1 is CallModel,
            turn_wf(r.0@),
    {
        QueryTurn::start(history, user_message)
    }

    /// A turn that goes on from `history` after a tool result.
    pub fn resume_turn(&self, history: &Vec<RuntimeMessage>, tool_result: RuntimeToolResult) -> (r: (
        QueryTurn,
        TurnAction,
    ))
        requires
            total_calls(messages_view(history@)) <= usize::MAX,
        ensures
            r.0@.history == messages_view(history@).push(tool_message(tool_result@)),
            r.0@.tool_call_count == total_calls(messages_view(history@)),
            r.0@.phase == TurnPhase::AwaitModel,
            r.1 is CallModel,
            turn_wf(r.0@),
    {
        QueryTurn::resume(history, tool_result)
    }
}

} // verus!
