//! The turns of an agent run: the run submits turns until one gives a final
//! answer, needs the user, or the agent's turn limit is reached; and what
//! a finished turn means for the agent's task.

use vstd::prelude::*;
use crate::agents::continue_spec;
use crate::query::TurnResultView;
use crate::runtime::{
    clone_messages, messages_view, MessageView, PendingApproval, QueryTurnResult,
    RuntimeMessage, RuntimeRole, ToolCallView, TurnStatus,
};
use crate::session::SessionStatus;

verus! {

/// The number of turns an agent may take: its own limit, at least one,
/// and one when it sets none.
pub open spec fn max_turns_spec(max_turns: Option<usize>) -> usize {
    match max_turns {
        Some(n) => if n == 0 {
            1
        } else {
            n
        },
        None => 1,
    }
}

/// The number of turns an agent may take.
pub fn effective_max_turns(max_turns: Option<usize>) -> (n: usize)
    ensures
        n == max_turns_spec(max_turns),
        n >= 1,
{
    match max_turns {
        Some(n) => if n == 0 {
            1
        } else {
            n
        },
        None => 1,
    }
}

/// The prompt that asks an agent to go on.
pub open spec fn continue_prompt() -> Seq<char> {
    "Continue until the assigned task is complete. If you are blocked, report the blocker concisely."@
}

/// The failure of a run that may not stop for the user's approval.
pub open spec fn interactive_failure() -> Seq<char> {
    "Agent execution requires interactive approval. Re-run in TUI."@
}

/// Whether a run goes on after a turn, by the turn's outcome.
pub open spec fn turn_continues(t: TurnResultView, turns_used: usize, max_turns: usize) -> bool {
    continue_spec(
        match t.assistant_message {
            Some(m) => Some(m.content),
            None => None,
        },
        t.finish_reason,
        t.tool_call_count,
        t.status,
        turns_used,
        max_turns,
    )
}

/// What an agent run asks of the caller.
#[derive(Debug)]
pub enum AgentStep {
    /// Submit `message` as a turn that follows `prefix`.
    SubmitTurn { prefix: Vec<RuntimeMessage>, message: RuntimeMessage },
    /// The run ended with this turn.
    Done(QueryTurnResult),
    /// The run failed with this message.
    Failed(String),
}

/// The mathematical value of an `AgentStep`.
pub enum AgentStepView {
    SubmitTurn { prefix: Seq<MessageView>, message: MessageView },
    Done(TurnResultView),
    Failed(Seq<char>),
}

impl View for AgentStep {
    type V = AgentStepView;

    open spec fn view(&self) -> AgentStepView {
        match self {
            AgentStep::SubmitTurn { prefix, message } => AgentStepView::SubmitTurn {
                prefix: messages_view(prefix@),
                message: message@,
            },
            AgentStep::Done(t) => AgentStepView::Done(t@),
            AgentStep::Failed(m) => AgentStepView::Failed(m@),
        }
    }
}

/// A user message with the given text.
pub open spec fn user_message(text: Seq<char>) -> MessageView {
    MessageView { role: RuntimeRole::User, content: text, tool_calls: Seq::empty(), tool_result: None }
}

/// An agent run in progress: the turns taken, the limit, and whether it
/// fails rather than wait for the user's approval.
pub struct AgentRun {
    pub turns_used: usize,
    pub max_turns: usize,
    pub interactive_error: bool,
}

/// The step after a turn: failure if the run may not wait for approval
/// and the turn does; another turn if the turn calls for one within the
/// limit; otherwise the run ends with the turn.
pub open spec fn after_turn_spec(run: AgentRun, t: TurnResultView) -> AgentStepView {
    let used = (run.turns_used + 1) as usize;
    if run.interactive_error && t.status == TurnStatus::AwaitingApproval {
        AgentStepView::Failed(interactive_failure())
    } else if turn_continues(t, used, run.max_turns) {
        AgentStepView::SubmitTurn { prefix: t.history, message: user_message(continue_prompt()) }
    } else {
        AgentStepView::Done(t)
    }
}

/// An agent takes at most its limit of turns: a run asks for another turn
/// only while the turns taken stay below the limit.
pub proof fn law_agent_turns_bounded(run: AgentRun, t: TurnResultView)
    requires
        run.turns_used < run.max_turns,
    ensures
        after_turn_spec(run, t) is SubmitTurn ==> run.turns_used + 1 < run.max_turns,
{
}

impl AgentRun {
    /// A run of a new task from `history`, which must end with the user's
    /// message; the first turn submits that message after the rest.
    pub fn start(history: &Vec<RuntimeMessage>, max_turns: Option<usize>, interactive_error: bool) -> (r: Result<
        (AgentRun, AgentStep),
        String,
    >)
        ensures
            match r {
                Ok((run, step)) => {
                    &&& history@.len() > 0
                    &&& history@.last().role == RuntimeRole::User
                    &&& run == (AgentRun {
                        turns_used: 0,
                        max_turns: max_turns_spec(max_turns),
                        interactive_error,
                    })
                    &&& step@ == (AgentStepView::SubmitTurn {
                        prefix: messages_view(history@).drop_last(),
                        message: history@.last()@,
                    })
                },
                Err(m) => if history@.len() == 0 {
                    m@ == "Agent history must end with a user message"@
                } else {
                    &&& history@.last().role != RuntimeRole::User
                    &&& m@ == "Agent history must end with a user message before execution"@
                },
            },
    {
        let n = history.len();
        if n == 0 {
            return Err(String::from_str("Agent history must end with a user message"));
        }
        if history[n - 1].role != RuntimeRole::User {
            return Err(String::from_str("Agent history must end with a user message before execution"));
        }
        let mut prefix = clone_messages(history);
        let ghost hv = messages_view(history@);
        let ghost whole = prefix@;
        assert(messages_view(whole)[n - 1] == whole[n - 1]@);
        assert(hv[n - 1] == history@[n - 1]@);
        let message = match prefix.pop() {
            Some(m) => m,
            None => {
                return Err(String::from_str("Agent history must end with a user message"));
            },
        };
        assert(message@ == history@.last()@);
        assert(messages_view(prefix@) =~= hv.drop_last());
        let run = AgentRun { turns_used: 0, max_turns: effective_max_turns(max_turns), interactive_error };
        Ok((run, AgentStep::SubmitTurn { prefix, message }))
    }

    /// A run that goes on after the user answered an approval; the turn
    /// that answer produces is its first.
    pub fn after_approval(max_turns: Option<usize>, interactive_error: bool) -> (run: AgentRun)
        ensures
            run == (AgentRun { turns_used: 0, max_turns: max_turns_spec(max_turns), interactive_error }),
    {
        AgentRun { turns_used: 0, max_turns: effective_max_turns(max_turns), interactive_error }
    }

    /// Takes in a finished turn.
    pub fn on_turn(&mut self, turn: QueryTurnResult) -> (step: AgentStep)
        requires
            old(self).turns_used < old(self).max_turns,
        ensures
            step@ == after_turn_spec(*old(self), turn@),
            final(self).turns_used == old(self).turns_used + 1,
            final(self).max_turns == old(self).max_turns,
            final(self).interactive_error == old(self).interactive_error,
            step is SubmitTurn ==> final(self).turns_used < final(self).max_turns,
    {
        proof {
            reveal_strlit("Agent execution requires interactive approval. Re-run in TUI.");
        }
        self.turns_used = self.turns_used + 1;
        if self.interactive_error && turn.status == TurnStatus::AwaitingApproval {
            return AgentStep::Failed(
                String::from_str("Agent execution requires interactive approval. Re-run in TUI."),
            );
        }
        if crate::agents::should_continue_agent_turn(&turn, self.turns_used, self.max_turns) {
            let m = RuntimeMessage::user(
                String::from_str(
                    "Continue until the assigned task is complete. If you are blocked, report the blocker concisely.",
                ),
            );
            assert(m@.tool_calls =~= Seq::<ToolCallView>::empty());
            AgentStep::SubmitTurn { prefix: turn.history, message: m }
        } else {
            AgentStep::Done(turn)
        }
    }
}

/// What a finished turn means for its task.
#[derive(Debug)]
pub enum TaskTurnOutcome {
    /// The task waits for the user's answer to this approval.
    AwaitingApproval(PendingApproval),
    /// The task is complete with this summary.
    Completed(String),
}

/// The summary of a completed task: the answer's text, or a note that
/// there was none.
pub open spec fn task_summary(t: TurnResultView) -> Seq<char> {
    match t.assistant_message {
        Some(m) => m.content,
        None => "Child agent completed without a text response."@,
    }
}

/// What a finished turn means for its task, and the session status that
/// goes with it; a turn that waits for approval without saying what for
/// is an error.
pub fn task_turn_outcome(turn: &QueryTurnResult) -> (r: Result<(TaskTurnOutcome, SessionStatus), String>)
    ensures
        match r {
            Ok((TaskTurnOutcome::AwaitingApproval(p), status)) => {
                &&& turn.status == TurnStatus::AwaitingApproval
                &&& turn.pending_approval matches Some(q) && p@ == q@
                &&& status == SessionStatus::AwaitingApproval
            },
            Ok((TaskTurnOutcome::Completed(summary), status)) => {
                &&& turn.status != TurnStatus::AwaitingApproval
                &&& summary@ == task_summary(turn@)
                &&& status == SessionStatus::Completed
            },
            Err(m) => {
                &&& turn.status == TurnStatus::AwaitingApproval
                &&& turn.pending_approval is None
                &&& m@ == "Awaiting approval turn missing pending approval"@
            },
        },
{
    if turn.status == TurnStatus::AwaitingApproval {
        match &turn.pending_approval {
            Some(p) => Ok((TaskTurnOutcome::AwaitingApproval(p.clone()), SessionStatus::AwaitingApproval)),
            None => Err(String::from_str("Awaiting approval turn missing pending approval")),
        }
    } else {
        let summary = match turn.assistant_text() {
            Some(t) => String::from_str(t),
            None => String::from_str("Child agent completed without a text response."),
        };
        Ok((TaskTurnOutcome::Completed(summary), SessionStatus::Completed))
    }
}

} // verus!
