//! Sub-agents: where their memory lives, the contracts that scope them,
//! the parent context they are given, when a run continues, the
//! permissions they run under, and the life cycle of their tasks.

use vstd::prelude::*;
use crate::compact::is_compact_summary_spec;
use crate::config::push_ci_spec;
use crate::paths::{config_dir_spec, config_dir_under, join_path, path_join, str_view};
use crate::permissions::{PermissionMode, PermissionsSettings, PermissionsView};
use crate::runtime::{
    MessageView, PendingApproval, PendingView, QueryTurnResult, RuntimeMessage, RuntimeRole,
    TurnStatus, messages_view,
};
use crate::session::SessionKind;
use crate::text::{
    chars_of, clone_opt, concat, join, join_strs, opt_view, replace_all, replace_str, str_eq,
    string_of_range, trim, trim_str, views,
};

verus! {

/// Whose memory an agent keeps.
#[derive(Debug, Clone, Copy, PartialEq, Eq, Structural)]
pub enum AgentMemoryScope {
    User,
    Project,
    Local,
}

/// Which permissions an agent runs under.
#[derive(Debug, Clone, Copy, PartialEq, Eq, Structural)]
pub enum AgentPermissionMode {
    Inherit,
    DenySensitive,
    BackgroundSafe,
}

impl Default for AgentPermissionMode {
    fn default() -> (m: Self)
        ensures
            m == AgentPermissionMode::BackgroundSafe,
    {
        AgentPermissionMode::BackgroundSafe
    }
}

/// What an agent is told of its parent's conversation.
#[derive(Debug, Clone, Copy, PartialEq, Eq, Structural)]
pub enum AgentContextStrategy {
    TaskOnly,
    TaskPlusCompactSummary,
    TaskPlusRecentAssistantSummary,
}

impl Default for AgentContextStrategy {
    fn default() -> (s: Self)
        ensures
            s == AgentContextStrategy::TaskPlusCompactSummary,
    {
        AgentContextStrategy::TaskPlusCompactSummary
    }
}

/// Where an agent task stands.
#[derive(Debug, Clone, Copy, PartialEq, Eq, Structural)]
pub enum AgentTaskStatus {
    Pending,
    Running,
    AwaitingApproval,
    Completed,
    Failed,
    Cancelled,
}

impl Default for AgentTaskStatus {
    fn default() -> (s: Self)
        ensures
            s == AgentTaskStatus::Pending,
    {
        AgentTaskStatus::Pending
    }
}

/// The directory name of an agent type: `:` becomes `-`.
pub open spec fn agent_dir_name(agent_type: Seq<char>) -> Seq<char> {
    replace_all(agent_type, ":"@, "-"@)
}

/// The directory name of an agent type.
pub fn sanitize_agent_dir(agent_type: &str) -> (r: String)
    ensures
        r@ == agent_dir_name(agent_type@),
{
    proof {
        reveal_strlit(":");
    }
    replace_str(agent_type, ":", "-")
}

/// The memory directory of an agent: under the global configuration
/// directory for the user scope, under `<root>/rustcode/agent-memory` or
/// `<root>/rustcode/agent-memory-local` for the project and local scopes
/// (the root being `.` when none is given).
pub open spec fn memory_dir_spec(
    agent_type: Seq<char>,
    scope: AgentMemoryScope,
    project_root: Option<Seq<char>>,
    home: Option<Seq<char>>,
) -> Seq<char> {
    let root = match project_root {
        Some(r) => r,
        None => "."@,
    };
    match scope {
        AgentMemoryScope::User => path_join(path_join(config_dir_spec(home), "agent-memory"@), agent_dir_name(agent_type)),
        AgentMemoryScope::Project => path_join(
            path_join(path_join(root, "rustcode"@), "agent-memory"@),
            agent_dir_name(agent_type),
        ),
        AgentMemoryScope::Local => path_join(
            path_join(path_join(root, "rustcode"@), "agent-memory-local"@),
            agent_dir_name(agent_type),
        ),
    }
}

/// The memory directory of an agent, given the home directory.
pub fn agent_memory_dir_under(
    agent_type: &str,
    scope: AgentMemoryScope,
    project_root: Option<&str>,
    home: &Option<String>,
) -> (r: String)
    ensures
        r@ == memory_dir_spec(agent_type@, scope, str_view(project_root), opt_view(*home)),
{
    let agent_dir = sanitize_agent_dir(agent_type);
    let root = match project_root {
        Some(r) => r,
        None => ".",
    };
    match scope {
        AgentMemoryScope::User => {
            let config = config_dir_under(home);
            let base = join_path(config.as_str(), "agent-memory");
            join_path(base.as_str(), agent_dir.as_str())
        },
        AgentMemoryScope::Project => {
            let a = join_path(root, "rustcode");
            let b = join_path(a.as_str(), "agent-memory");
            join_path(b.as_str(), agent_dir.as_str())
        },
        AgentMemoryScope::Local => {
            let a = join_path(root, "rustcode");
            let b = join_path(a.as_str(), "agent-memory-local");
            join_path(b.as_str(), agent_dir.as_str())
        },
    }
}

/// The memory directory of an agent.
pub fn get_agent_memory_dir(agent_type: &str, scope: AgentMemoryScope, project_root: Option<&str>) -> (r: String)
    ensures
        exists|home: Option<Seq<char>>| r@ == memory_dir_spec(agent_type@, scope, str_view(project_root), home),
        scope != AgentMemoryScope::User ==> r@ == memory_dir_spec(agent_type@, scope, str_view(project_root), None),
{
    let home = crate::paths::home_dir();
    agent_memory_dir_under(agent_type, scope, project_root, &home)
}

/// The memory file of an agent: `MEMORY.md` in its memory directory.
pub fn get_agent_memory_entrypoint(agent_type: &str, scope: AgentMemoryScope, project_root: Option<&str>) -> (r: String)
    ensures
        exists|home: Option<Seq<char>>|
            r@ == path_join(memory_dir_spec(agent_type@, scope, str_view(project_root), home), "MEMORY.md"@),
        scope != AgentMemoryScope::User ==> r@ == path_join(
            memory_dir_spec(agent_type@, scope, str_view(project_root), None),
            "MEMORY.md"@,
        ),
{
    let dir = get_agent_memory_dir(agent_type, scope, project_root);
    join_path(dir.as_str(), "MEMORY.md")
}

/// What an agent is told about the scope of its memory.
pub open spec fn scope_note(scope: AgentMemoryScope) -> Seq<char> {
    match scope {
        AgentMemoryScope::User => "Persistent agent memory (user scope). Keep learnings generally applicable across projects."@,
        AgentMemoryScope::Project => "Persistent agent memory (project scope). Tailor decisions and terminology to this project."@,
        AgentMemoryScope::Local => "Persistent agent memory (local scope). This memory is machine-local and project-local."@,
    }
}

/// The prompt made of an agent's memory file: nothing when the file is
/// blank, else the scope note and the trimmed memory.
pub open spec fn memory_prompt_spec(scope: AgentMemoryScope, content: Seq<char>) -> Option<Seq<char>> {
    if trim(content).len() == 0 {
        None
    } else {
        Some(scope_note(scope) + "\n\nRead and use the following memory when relevant:\n\n"@ + trim(content))
    }
}

/// The prompt made of an agent's memory file (read by the caller).
pub fn agent_memory_prompt(scope: AgentMemoryScope, content: &str) -> (r: Option<String>)
    ensures
        opt_view(r) == memory_prompt_spec(scope, content@),
{
    let trimmed = trim_str(content);
    if trimmed.as_str().unicode_len() == 0 {
        return None;
    }
    let note = match scope {
        AgentMemoryScope::User => "Persistent agent memory (user scope). Keep learnings generally applicable across projects.",
        AgentMemoryScope::Project => "Persistent agent memory (project scope). Tailor decisions and terminology to this project.",
        AgentMemoryScope::Local => "Persistent agent memory (local scope). This memory is machine-local and project-local.",
    };
    let mut out = concat(note, "\n\nRead and use the following memory when relevant:\n\n");
    out.append(trimmed.as_str());
    Some(out)
}

/// The first `max` characters of a text, with `...` when it was longer.
pub open spec fn truncate_spec(content: Seq<char>, max: nat) -> Seq<char> {
    if content.len() > max {
        content.take(max as int) + "..."@
    } else {
        content
    }
}

/// The first `max_chars` characters of `content`, with `...` appended when
/// it was longer.
pub fn truncate(content: &str, max_chars: usize) -> (r: String)
    ensures
        r@ == truncate_spec(content@, max_chars as nat),
{
    let v = chars_of(content);
    if v.len() > max_chars {
        let head = string_of_range(&v, 0, max_chars);
        assert(head@ =~= content@.take(max_chars as int));
        concat(head.as_str(), "...")
    } else {
        String::from_str(content)
    }
}

/// The contract that scopes a directly invoked agent.
pub open spec fn direct_contract_spec(agent_name: Seq<char>) -> Seq<char> {
    "You are running as specialized agent '"@ + agent_name
        + "'.\nStay tightly scoped to the user request.\nDo not create subagents.\nIf blocked by permissions or missing context, report the blocker concisely in your final answer."@
}

/// The contract that scopes a directly invoked agent named `agent_name`.
pub fn build_direct_task_contract(agent_name: &str) -> (r: String)
    ensures
        r@ == direct_contract_spec(agent_name@),
{
    let mut out = concat("You are running as specialized agent '", agent_name);
    out.append(
        "'.\nStay tightly scoped to the user request.\nDo not create subagents.\nIf blocked by permissions or missing context, report the blocker concisely in your final answer.",
    );
    out
}

/// The contract that scopes a child agent running a task: its name, the
/// task, the parent session, and its turn budget (at least one).
pub open spec fn child_contract_spec(agent_name: Seq<char>, task_id: Seq<char>, parent: Option<Seq<char>>, max_turns: nat) -> Seq<char> {
    "You are running as child agent '"@ + agent_name + "' for task "@ + task_id + ".\nParent session: "@
        + match parent {
        Some(p) => p,
        None => "unknown"@,
    } + ".\nMax turns: "@ + crate::numbers::decimal(max_turns)
        + ".\nStay strictly within the assigned scope.\nDo not create subagents.\nIf blocked by permissions or missing context, report the blocker concisely in your final answer.\nFocus only on the task described by the user message."@
}

/// The turn budget of an agent: its configured maximum, at least one.
pub open spec fn turn_budget(max_turns: Option<usize>) -> nat {
    match max_turns {
        Some(n) => if n < 1 {
            1
        } else {
            n as nat
        },
        None => 1,
    }
}

/// The contract that scopes the child agent `agent_name` running `task`
/// with the configured turn maximum `max_turns`.
pub fn build_child_task_contract(task: &AgentTask, agent_name: &str, max_turns: Option<usize>) -> (r: String)
    ensures
        r@ == child_contract_spec(agent_name@, task.id@, opt_view(task.parent_session_id), turn_budget(max_turns)),
{
    let budget: usize = match max_turns {
        Some(n) => if n < 1 {
            1
        } else {
            n
        },
        None => 1,
    };
    let mut out = concat("You are running as child agent '", agent_name);
    out.append("' for task ");
    out.append(task.id.as_str());
    out.append(".\nParent session: ");
    match &task.parent_session_id {
        Some(p) => out.append(p.as_str()),
        None => out.append("unknown"),
    }
    out.append(".\nMax turns: ");
    out.append(crate::numbers::usize_to_string(budget).as_str());
    out.append(
        ".\nStay strictly within the assigned scope.\nDo not create subagents.\nIf blocked by permissions or missing context, report the blocker concisely in your final answer.\nFocus only on the task described by the user message.",
    );
    out
}

/// The conversation turns (user and assistant messages) of a history.
pub open spec fn conversation(h: Seq<MessageView>) -> Seq<MessageView>
    decreases h.len(),
{
    if h.len() == 0 {
        Seq::empty()
    } else {
        let r = conversation(h.drop_last());
        if h.last().role == RuntimeRole::User || h.last().role == RuntimeRole::Assistant {
            r.push(h.last())
        } else {
            r
        }
    }
}

/// The last `n` elements of `s` (all of them when there are fewer).
pub open spec fn last_n<A>(s: Seq<A>, n: nat) -> Seq<A> {
    if s.len() > n {
        s.skip(s.len() - n)
    } else {
        s
    }
}

/// The summary lines of the non-blank messages among `ms`, each labelled
/// with its role and cut to 500 characters.
pub open spec fn summary_lines(ms: Seq<MessageView>) -> Seq<Seq<char>>
    decreases ms.len(),
{
    if ms.len() == 0 {
        Seq::empty()
    } else {
        let r = summary_lines(ms.drop_last());
        let m = ms.last();
        if trim(m.content).len() == 0 {
            r
        } else {
            r.push(
                (if m.role == RuntimeRole::User {
                    "User"@
                } else {
                    "Assistant"@
                }) + ": "@ + truncate_spec(trim(m.content), 500),
            )
        }
    }
}

/// The recent conversation of a parent, for a child agent: the last
/// `max_messages` user and assistant messages, blank ones left out.
pub open spec fn recent_summary_spec(h: Seq<MessageView>, max_messages: nat) -> Option<Seq<char>> {
    let lines = summary_lines(last_n(conversation(h), max_messages));
    if lines.len() == 0 {
        None
    } else {
        Some("Parent recent context:\n"@ + join(lines, "\n"@))
    }
}

/// The recent conversation of a parent history, for a child agent.
pub fn recent_assistant_summary(history: &Vec<RuntimeMessage>, max_messages: usize) -> (r: Option<String>)
    ensures
        opt_view(r) == recent_summary_spec(messages_view(history@), max_messages as nat),
{
    let ghost hv = messages_view(history@);
    let mut convo: Vec<usize> = Vec::new();
    let ghost mut cv: Seq<MessageView> = Seq::empty();
    let mut i: usize = 0;
    while i < history.len()
        invariant
            i <= history.len(),
            hv == messages_view(history@),
            cv == conversation(hv.subrange(0, i as int)),
            convo@.len() == cv.len(),
            forall|j: int| 0 <= j < convo@.len() ==> #[trigger] convo@[j] < history.len() && cv[j]
                == hv[convo@[j] as int],
        decreases history.len() - i,
    {
        let ghost pre = hv.subrange(0, i + 1);
        assert(pre.drop_last() =~= hv.subrange(0, i as int));
        assert(pre.last() == history@[i as int]@);
        if history[i].role == RuntimeRole::User || history[i].role == RuntimeRole::Assistant {
            convo.push(i);
            proof {
                cv = cv.push(hv[i as int]);
            }
        }
        i = i + 1;
    }
    assert(hv.subrange(0, history.len() as int) =~= hv);
    let start: usize = if convo.len() > max_messages { convo.len() - max_messages } else { 0 };
    let ghost sel = last_n(cv, max_messages as nat);
    assert(sel =~= cv.skip(start as int));
    let mut lines: Vec<String> = Vec::new();
    let mut k: usize = start;
    while k < convo.len()
        invariant
            start <= k <= convo@.len(),
            convo@.len() == cv.len(),
            hv == messages_view(history@),
            sel == cv.skip(start as int),
            forall|j: int| 0 <= j < convo@.len() ==> #[trigger] convo@[j] < history.len() && cv[j]
                == hv[convo@[j] as int],
            views(lines@) == summary_lines(sel.subrange(0, k - start)),
        decreases convo@.len() - k,
    {
        let idx = convo[k];
        let ghost pre = sel.subrange(0, k - start + 1);
        assert(pre.drop_last() =~= sel.subrange(0, k - start));
        assert(pre.last() == cv[k as int]);
        assert(cv[k as int] == hv[idx as int]);
        assert(hv[idx as int] == history@[idx as int]@);
        let message = &history[idx];
        let content = trim_str(message.content.as_str());
        if content.as_str().unicode_len() > 0 {
            let label = if message.role == RuntimeRole::User { "User" } else { "Assistant" };
            let mut line = concat(label, ": ");
            line.append(truncate(content.as_str(), 500).as_str());
            let ghost before = views(lines@);
            lines.push(line);
            assert(views(lines@) =~= before.push(line@));
        }
        k = k + 1;
    }
    assert(sel.subrange(0, convo@.len() - start) =~= sel);
    if lines.len() == 0 {
        None
    } else {
        let joined = join_strs(&lines, "\n");
        Some(concat("Parent recent context:\n", joined.as_str()))
    }
}

/// The latest compaction summary of a parent history.
pub open spec fn latest_summary_spec(h: Seq<MessageView>) -> Option<Seq<char>>
    decreases h.len(),
{
    if h.len() == 0 {
        None
    } else if h.last().role == RuntimeRole::System && is_compact_summary_spec(h.last().content) {
        Some("Parent compact summary:\n"@ + h.last().content)
    } else {
        latest_summary_spec(h.drop_last())
    }
}

/// The latest compaction summary of a parent history, for a child agent.
pub fn latest_compact_summary(history: &Vec<RuntimeMessage>) -> (r: Option<String>)
    ensures
        opt_view(r) == latest_summary_spec(messages_view(history@)),
{
    let ghost hv = messages_view(history@);
    let mut k: usize = history.len();
    assert(hv.subrange(0, k as int) =~= hv);
    while k > 0
        invariant
            k <= history.len(),
            hv == messages_view(history@),
            latest_summary_spec(hv) == latest_summary_spec(hv.subrange(0, k as int)),
        decreases k,
    {
        let ghost pre = hv.subrange(0, k as int);
        assert(pre.last() == history@[k - 1]@);
        assert(pre.drop_last() =~= hv.subrange(0, k - 1));
        if history[k - 1].is_compact_summary() {
            return Some(concat("Parent compact summary:\n", history[k - 1].content.as_str()));
        }
        k = k - 1;
    }
    None
}

/// How a session kind is written in the parent-context line.
pub open spec fn kind_debug(k: SessionKind) -> Seq<char> {
    match k {
        SessionKind::Primary => "Primary"@,
        SessionKind::Forked => "Forked"@,
        SessionKind::ChildAgent => "ChildAgent"@,
    }
}

/// What a child agent is told of its parent: per the strategy, the latest
/// compaction summary or the recent conversation; failing that, a line
/// naming the parent session.
pub open spec fn parent_context_spec(
    h: Seq<MessageView>,
    parent: Option<(Seq<char>, SessionKind)>,
    strategy: AgentContextStrategy,
) -> Option<Seq<char>> {
    let from_history = match strategy {
        AgentContextStrategy::TaskOnly => None,
        AgentContextStrategy::TaskPlusCompactSummary => match latest_summary_spec(h) {
            Some(s) => Some(s),
            None => recent_summary_spec(h, 6),
        },
        AgentContextStrategy::TaskPlusRecentAssistantSummary => recent_summary_spec(h, 6),
    };
    match from_history {
        Some(s) => Some(s),
        None => match parent {
            Some((id, kind)) => Some(
                "Parent session context: session "@ + id + " ("@ + kind_debug(kind) + ") spawned this child task."@,
            ),
            None => None,
        },
    }
}

/// What a child agent is told of its parent: `parent` is the parent
/// session's id and kind, when there is one.
pub fn build_parent_context_summary(
    history: &Vec<RuntimeMessage>,
    parent: Option<(&str, SessionKind)>,
    strategy: AgentContextStrategy,
) -> (r: Option<String>)
    ensures
        opt_view(r) == parent_context_spec(
            messages_view(history@),
            match parent {
                Some((id, kind)) => Some((id@, kind)),
                None => None,
            },
            strategy,
        ),
{
    let from_history = match strategy {
        AgentContextStrategy::TaskOnly => None,
        AgentContextStrategy::TaskPlusCompactSummary => match latest_compact_summary(history) {
            Some(s) => Some(s),
            None => recent_assistant_summary(history, 6),
        },
        AgentContextStrategy::TaskPlusRecentAssistantSummary => recent_assistant_summary(history, 6),
    };
    match from_history {
        Some(s) => Some(s),
        None => match parent {
            Some((id, kind)) => {
                let mut out = concat("Parent session context: session ", id);
                out.append(" (");
                out.append(
                    match kind {
                        SessionKind::Primary => "Primary",
                        SessionKind::Forked => "Forked",
                        SessionKind::ChildAgent => "ChildAgent",
                    },
                );
                out.append(") spawned this child task.");
                Some(out)
            },
            None => None,
        },
    }
}

/// What briefing an agent needs of its definition: its name, its system
/// prompt, an optional preamble, its turn maximum and how much of its
/// parent's conversation it is told.
pub struct AgentBrief {
    pub name: String,
    pub system_prompt: String,
    pub prompt_preamble: Option<String>,
    pub max_turns: Option<usize>,
    pub context_strategy: Option<AgentContextStrategy>,
}

/// A system message with content `c`.
pub open spec fn system_message_spec(c: Seq<char>) -> MessageView {
    MessageView { role: RuntimeRole::System, content: c, tool_calls: Seq::empty(), tool_result: None }
}

/// A user message with content `c`.
pub open spec fn user_message_spec(c: Seq<char>) -> MessageView {
    MessageView { role: RuntimeRole::User, content: c, tool_calls: Seq::empty(), tool_result: None }
}

/// A system message with content `c`, by its view.
fn system_message(c: String) -> (m: RuntimeMessage)
    ensures
        m@ == system_message_spec(c@),
{
    let m = RuntimeMessage::system(c);
    assert(crate::runtime::calls_view(m.tool_calls@) =~= Seq::empty());
    m
}

/// A user message with content `c`, by its view.
fn user_message(c: String) -> (m: RuntimeMessage)
    ensures
        m@ == user_message_spec(c@),
{
    let m = RuntimeMessage::user(c);
    assert(crate::runtime::calls_view(m.tool_calls@) =~= Seq::empty());
    m
}

/// One system message with `c`, when there is one.
pub open spec fn optional_system(c: Option<Seq<char>>) -> Seq<MessageView> {
    match c {
        Some(x) => seq![system_message_spec(x)],
        None => Seq::empty(),
    }
}

/// The strategy an agent uses: its own, or the default one.
pub open spec fn strategy_of(s: Option<AgentContextStrategy>) -> AgentContextStrategy {
    match s {
        Some(x) => x,
        None => AgentContextStrategy::TaskPlusCompactSummary,
    }
}

/// The messages that open an agent's history: its system prompt, its
/// preamble unless blank, its memory and what it is told of its parent.
pub open spec fn preamble_spec(
    system_prompt: Seq<char>,
    preamble: Option<Seq<char>>,
    memory: Option<Seq<char>>,
    summary: Option<Seq<char>>,
) -> Seq<MessageView> {
    seq![system_message_spec(system_prompt)] + optional_system(
        match preamble {
            Some(p) => if trim(p).len() == 0 {
                None
            } else {
                Some(p)
            },
            None => None,
        },
    ) + optional_system(memory) + optional_system(summary)
}

/// The preamble of `agent` over `history`.
pub open spec fn agent_preamble_spec(
    history: Seq<MessageView>,
    agent: AgentBrief,
    parent: Option<(Seq<char>, SessionKind)>,
    memory: Option<Seq<char>>,
) -> Seq<MessageView> {
    preamble_spec(
        agent.system_prompt@,
        opt_view(agent.prompt_preamble),
        memory,
        parent_context_spec(history, parent, strategy_of(agent.context_strategy)),
    )
}

/// The view of an optional parent session given by id and kind.
pub open spec fn parent_view(parent: Option<(&str, SessionKind)>) -> Option<(Seq<char>, SessionKind)> {
    match parent {
        Some((id, kind)) => Some((id@, kind)),
        None => None,
    }
}

/// The opening messages of an agent's history. `memory_prompt` is the
/// agent's memory as read for its scope, if any.
pub fn build_agent_preamble(
    parent_history: &Vec<RuntimeMessage>,
    agent: &AgentBrief,
    parent: Option<(&str, SessionKind)>,
    memory_prompt: Option<String>,
) -> (r: Vec<RuntimeMessage>)
    ensures
        messages_view(r@) == agent_preamble_spec(
            messages_view(parent_history@),
            *agent,
            parent_view(parent),
            opt_view(memory_prompt),
        ),
{
    let ghost pre = opt_view(agent.prompt_preamble);
    let ghost mem = opt_view(memory_prompt);
    let mut history: Vec<RuntimeMessage> = Vec::new();
    history.push(system_message(agent.system_prompt.clone()));
    let ghost s0 = messages_view(history@);
    assert(s0 =~= seq![system_message_spec(agent.system_prompt@)]);
    match &agent.prompt_preamble {
        Some(p) => {
            if !crate::text::is_blank_str(p.as_str()) {
                history.push(system_message(p.clone()));
            }
        },
        None => {},
    }
    let ghost p_opt: Option<Seq<char>> = match pre {
        Some(p) => if trim(p).len() == 0 {
            None
        } else {
            Some(p)
        },
        None => None,
    };
    let ghost s1 = messages_view(history@);
    assert(s1 =~= s0 + optional_system(p_opt));
    match memory_prompt {
        Some(m) => history.push(system_message(m)),
        None => {},
    }
    let ghost s2 = messages_view(history@);
    assert(s2 =~= s1 + optional_system(mem));
    let strategy = match agent.context_strategy {
        Some(s) => s,
        None => AgentContextStrategy::TaskPlusCompactSummary,
    };
    let summary = build_parent_context_summary(parent_history, parent, strategy);
    let ghost sum = opt_view(summary);
    match summary {
        Some(s) => history.push(system_message(s)),
        None => {},
    }
    assert(messages_view(history@) =~= s2 + optional_system(sum));
    history
}

/// The history of an agent invoked directly with `prompt`: its preamble,
/// the contract that scopes it, and the prompt as a user message.
pub fn build_direct_history(
    parent_history: &Vec<RuntimeMessage>,
    prompt: &str,
    agent: &AgentBrief,
    parent: Option<(&str, SessionKind)>,
    memory_prompt: Option<String>,
) -> (r: Vec<RuntimeMessage>)
    ensures
        messages_view(r@) == agent_preamble_spec(
            messages_view(parent_history@),
            *agent,
            parent_view(parent),
            opt_view(memory_prompt),
        ) + seq![system_message_spec(direct_contract_spec(agent.name@)), user_message_spec(prompt@)],
{
    let mut history = build_agent_preamble(parent_history, agent, parent, memory_prompt);
    let ghost s0 = messages_view(history@);
    history.push(system_message(build_direct_task_contract(agent.name.as_str())));
    history.push(user_message(String::from_str(prompt)));
    assert(messages_view(history@) =~= s0 + seq![
        system_message_spec(direct_contract_spec(agent.name@)),
        user_message_spec(prompt@),
    ]);
    history
}

/// The history of a child agent running `task`: its preamble, the
/// contract that scopes it to the task, and the task's description as a
/// user message.
pub fn build_child_history(
    parent_history: &Vec<RuntimeMessage>,
    task: &AgentTask,
    agent: &AgentBrief,
    parent: Option<(&str, SessionKind)>,
    memory_prompt: Option<String>,
) -> (r: Vec<RuntimeMessage>)
    ensures
        messages_view(r@) == agent_preamble_spec(
            messages_view(parent_history@),
            *agent,
            parent_view(parent),
            opt_view(memory_prompt),
        ) + seq![
            system_message_spec(
                child_contract_spec(agent.name@, task.id@, opt_view(task.parent_session_id), turn_budget(agent.max_turns)),
            ),
            user_message_spec(task.description@),
        ],
{
    let mut history = build_agent_preamble(parent_history, agent, parent, memory_prompt);
    let ghost s0 = messages_view(history@);
    history.push(system_message(build_child_task_contract(task, agent.name.as_str(), agent.max_turns)));
    history.push(user_message(task.description.clone()));
    assert(messages_view(history@) =~= s0 + seq![
        system_message_spec(
            child_contract_spec(agent.name@, task.id@, opt_view(task.parent_session_id), turn_budget(agent.max_turns)),
        ),
        user_message_spec(task.description@),
    ]);
    history
}

/// A briefed agent's history always ends with its request as a user
/// message, right after the contract that scopes it, whatever the parent's
/// history, preamble, memory or context strategy.
pub proof fn law_agent_history_ends_with_request(
    history: Seq<MessageView>,
    agent: AgentBrief,
    parent: Option<(Seq<char>, SessionKind)>,
    memory: Option<Seq<char>>,
    contract: Seq<char>,
    request: Seq<char>,
)
    ensures
        ({
            let h = agent_preamble_spec(history, agent, parent, memory) + seq![
                system_message_spec(contract),
                user_message_spec(request),
            ];
            &&& h.last().role == RuntimeRole::User
            &&& h.last().content == request
            &&& h[h.len() - 2].role == RuntimeRole::System
            &&& h[h.len() - 2].content == contract
            &&& h[0] == system_message_spec(agent.system_prompt@)
        }),
{
    let pre = agent_preamble_spec(history, agent, parent, memory);
    let h = pre + seq![system_message_spec(contract), user_message_spec(request)];
    assert(h[h.len() - 1] == user_message_spec(request));
    assert(h[h.len() - 2] == system_message_spec(contract));
    assert(pre[0] == system_message_spec(agent.system_prompt@));
    assert(h[0] == pre[0]);
}

/// Whether an agent run takes another turn: not once the turn budget is
/// used or an approval is pending; otherwise when the reply was cut off by
/// length, or when it was blank but called tools.
pub open spec fn continue_spec(
    assistant_text: Option<Seq<char>>,
    finish_reason: Option<Seq<char>>,
    tool_call_count: usize,
    status: TurnStatus,
    turns_used: usize,
    max_turns: usize,
) -> bool {
    if turns_used >= max_turns || status == TurnStatus::AwaitingApproval {
        false
    } else {
        finish_reason == Some("length"@) || (trim(
            match assistant_text {
                Some(t) => t,
                None => Seq::empty(),
            },
        ).len() == 0 && tool_call_count > 0)
    }
}

/// Whether an agent run takes another turn after `turn`.
pub fn should_continue_agent_turn(turn: &QueryTurnResult, turns_used: usize, max_turns: usize) -> (b: bool)
    ensures
        b == continue_spec(
            match turn.assistant_message {
                Some(m) => Some(m.content@),
                None => None,
            },
            opt_view(turn.finish_reason),
            turn.tool_call_count,
            turn.status,
            turns_used,
            max_turns,
        ),
{
    if turns_used >= max_turns || turn.status == TurnStatus::AwaitingApproval {
        return false;
    }
    let text = match turn.assistant_text() {
        Some(t) => t,
        None => "",
    };
    let blank = crate::text::is_blank_str(text);
    let length_cut = match &turn.finish_reason {
        Some(r) => str_eq(r.as_str(), "length"),
        None => false,
    };
    proof {
        reveal_strlit("");
    }
    length_cut || (blank && turn.tool_call_count > 0)
}

/// The permissions an agent runs under: inherited as they are; with the
/// sensitive tools (command execution, file writes and edits) denied; or,
/// for background work, with `ask` turned into `deny` (both as the mode
/// and for every tool that asked).
pub open spec fn agent_permissions_spec(p: PermissionsView, mode: AgentPermissionMode) -> PermissionsView {
    match mode {
        AgentPermissionMode::Inherit => p,
        AgentPermissionMode::DenySensitive => PermissionsView {
            deny: push_ci_spec(push_ci_spec(push_ci_spec(p.deny, "execute_command"@), "file_write"@), "file_edit"@),
            ..p
        },
        AgentPermissionMode::BackgroundSafe => PermissionsView {
            mode: if p.mode == PermissionMode::Ask {
                PermissionMode::DenyAll
            } else {
                p.mode
            },
            deny: crate::config::merge_rules_spec(p.deny, p.ask),
            ask: Seq::empty(),
            ..p
        },
    }
}

/// The permissions an agent runs under, derived from the session's.
pub fn agent_permissions(permissions: PermissionsSettings, mode: AgentPermissionMode) -> (r: PermissionsSettings)
    ensures
        r@ == agent_permissions_spec(permissions@, mode),
{
    let mut p = permissions;
    match mode {
        AgentPermissionMode::Inherit => p,
        AgentPermissionMode::DenySensitive => {
            extend_unique(&mut p.deny_tools, "execute_command");
            extend_unique(&mut p.deny_tools, "file_write");
            extend_unique(&mut p.deny_tools, "file_edit");
            p
        },
        AgentPermissionMode::BackgroundSafe => {
            if p.mode == PermissionMode::Ask {
                p.mode = PermissionMode::DenyAll;
            }
            let mut ask: Vec<String> = Vec::new();
            std::mem::swap(&mut ask, &mut p.ask_tools);
            let deny = crate::config::merge_rule_lists(&p.deny_tools, &ask);
            p.deny_tools = deny;
            assert(views(p.ask_tools@) =~= Seq::<Seq<char>>::empty());
            p
        },
    }
}

/// Adds `tool_name` to `rules` unless an entry equal to it up to ASCII case
/// is already there.
pub fn extend_unique(rules: &mut Vec<String>, tool_name: &str)
    ensures
        views(final(rules)@) == push_ci_spec(views(old(rules)@), tool_name@),
{
    crate::config::project_permissions_push(rules, tool_name);
}

/// A tool call an agent task waits to have approved.
#[derive(Debug, PartialEq, Eq)]
pub struct AgentTaskPendingApproval {
    pub tool_call: crate::runtime::RuntimeToolCall,
    pub reason: String,
}

/// A task run by a sub-agent. Times are milliseconds since the Unix epoch;
/// `metadata` is JSON text.
#[derive(Debug)]
pub struct AgentTask {
    pub id: String,
    pub subject: String,
    pub description: String,
    pub agent_type: String,
    pub parent_session_id: Option<String>,
    pub child_session_id: Option<String>,
    pub status: AgentTaskStatus,
    pub created_at: i64,
    pub updated_at: i64,
    pub result_summary: Option<String>,
    pub error: Option<String>,
    pub pending_approval: Option<AgentTaskPendingApproval>,
    pub metadata: String,
    pub delivered_to_parent_at: Option<i64>,
}

impl Default for AgentTask {
    /// An empty pending task at the epoch, with `null` metadata.
    fn default() -> (t: Self)
        ensures
            t.id@.len() == 0 && t.subject@.len() == 0 && t.description@.len() == 0,
            t.agent_type@.len() == 0,
            t.parent_session_id is None && t.child_session_id is None,
            t.status == AgentTaskStatus::Pending,
            t.created_at == 0 && t.updated_at == 0,
            t.result_summary is None && t.error is None && t.pending_approval is None,
            t.metadata@ == "null"@,
            t.delivered_to_parent_at is None,
    {
        AgentTask {
            id: String::new(),
            subject: String::new(),
            description: String::new(),
            agent_type: String::new(),
            parent_session_id: None,
            child_session_id: None,
            status: AgentTaskStatus::Pending,
            created_at: 0,
            updated_at: 0,
            result_summary: None,
            error: None,
            pending_approval: None,
            metadata: String::from_str("null"),
            delivered_to_parent_at: None,
        }
    }
}

impl AgentTask {
    /// A new pending task `id`, created at `now`.
    pub fn new_pending(
        id: String,
        subject: String,
        description: String,
        agent_type: String,
        parent_session_id: Option<String>,
        metadata: String,
        now: i64,
    ) -> (t: Self)
        ensures
            t.id@ == id@ && t.subject@ == subject@ && t.description@ == description@,
            t.agent_type@ == agent_type@,
            opt_view(t.parent_session_id) == opt_view(parent_session_id),
            t.child_session_id is None,
            t.status == AgentTaskStatus::Pending,
            t.created_at == now && t.updated_at == now,
            t.result_summary is None && t.error is None && t.pending_approval is None,
            t.metadata@ == metadata@,
            t.delivered_to_parent_at is None,
    {
        AgentTask {
            id,
            subject,
            description,
            agent_type,
            parent_session_id,
            child_session_id: None,
            status: AgentTaskStatus::Pending,
            created_at: now,
            updated_at: now,
            result_summary: None,
            error: None,
            pending_approval: None,
            metadata,
            delivered_to_parent_at: None,
        }
    }

    /// The task starts (or resumes) running at `now`: no error, no pending
    /// approval.
    pub fn mark_running(&mut self, now: i64)
        ensures
            *final(self) == (AgentTask {
                status: AgentTaskStatus::Running,
                updated_at: now,
                error: None,
                pending_approval: None,
                ..*old(self)
            }),
    {
        self.status = AgentTaskStatus::Running;
        self.updated_at = now;
        self.error = None;
        self.pending_approval = None;
    }

    /// The task continues after its pending tool call was answered.
    pub fn resume_after_approval(&mut self, now: i64)
        ensures
            *final(self) == (AgentTask {
                status: AgentTaskStatus::Running,
                updated_at: now,
                error: None,
                pending_approval: None,
                ..*old(self)
            }),
    {
        self.mark_running(now);
    }

    /// Records the child session that runs the task.
    pub fn attach_child_session(&mut self, child_session_id: &str, now: i64)
        ensures
            opt_view(final(self).child_session_id) == Some(child_session_id@),
            *final(self) == (AgentTask {
                child_session_id: final(self).child_session_id,
                updated_at: now,
                ..*old(self)
            }),
    {
        self.child_session_id = Some(String::from_str(child_session_id));
        self.updated_at = now;
    }

    /// The task completed with `summary`.
    pub fn complete(&mut self, summary: String, now: i64)
        ensures
            opt_view(final(self).result_summary) == Some(summary@),
            *final(self) == (AgentTask {
                status: AgentTaskStatus::Completed,
                updated_at: now,
                result_summary: final(self).result_summary,
                error: None,
                pending_approval: None,
                ..*old(self)
            }),
    {
        self.status = AgentTaskStatus::Completed;
        self.updated_at = now;
        self.result_summary = Some(summary);
        self.error = None;
        self.pending_approval = None;
    }

    /// The task failed with `error`.
    pub fn fail(&mut self, error: String, now: i64)
        ensures
            opt_view(final(self).error) == Some(error@),
            *final(self) == (AgentTask {
                status: AgentTaskStatus::Failed,
                updated_at: now,
                error: final(self).error,
                pending_approval: None,
                ..*old(self)
            }),
    {
        self.status = AgentTaskStatus::Failed;
        self.updated_at = now;
        self.error = Some(error);
        self.pending_approval = None;
    }

    /// The task waits for the approval of `pending`.
    pub fn mark_awaiting_approval(&mut self, pending: &PendingApproval, now: i64)
        ensures
            final(self).pending_approval matches Some(p) && p.tool_call@ == pending.tool_call@
                && p.reason@ == pending.reason@,
            *final(self) == (AgentTask {
                status: AgentTaskStatus::AwaitingApproval,
                updated_at: now,
                error: None,
                pending_approval: final(self).pending_approval,
                ..*old(self)
            }),
    {
        self.status = AgentTaskStatus::AwaitingApproval;
        self.updated_at = now;
        self.error = None;
        self.pending_approval = Some(
            AgentTaskPendingApproval { tool_call: pending.tool_call.clone(), reason: pending.reason.clone() },
        );
    }

    /// Replaces the description and the metadata where new ones are given.
    pub fn update_metadata(&mut self, description: Option<String>, metadata: Option<String>, now: i64)
        ensures
            final(self).description@ == match description {
                Some(d) => d@,
                None => old(self).description@,
            },
            final(self).metadata@ == match metadata {
                Some(m) => m@,
                None => old(self).metadata@,
            },
            *final(self) == (AgentTask {
                description: final(self).description,
                metadata: final(self).metadata,
                updated_at: now,
                ..*old(self)
            }),
    {
        match description {
            Some(d) => {
                self.description = d;
            },
            None => {},
        }
        match metadata {
            Some(m) => {
                self.metadata = m;
            },
            None => {},
        }
        self.updated_at = now;
    }

    /// Whether the task's outcome still has to be reported to its parent:
    /// it finished (completed or failed) and was not reported yet.
    pub fn is_deliverable(&self) -> (b: bool)
        ensures
            b == (self.delivered_to_parent_at is None && (self.status == AgentTaskStatus::Completed
                || self.status == AgentTaskStatus::Failed)),
    {
        self.delivered_to_parent_at.is_none() && (self.status == AgentTaskStatus::Completed
            || self.status == AgentTaskStatus::Failed)
    }

    /// Records that the outcome was reported to the parent at `now`.
    pub fn mark_delivered(&mut self, now: i64)
        ensures
            *final(self) == (AgentTask {
                delivered_to_parent_at: Some(now),
                updated_at: now,
                ..*old(self)
            }),
    {
        self.delivered_to_parent_at = Some(now);
        self.updated_at = now;
    }

    /// Whether the task belongs to the parent session `parent_id`.
    pub fn belongs_to(&self, parent_id: &str) -> (b: bool)
        ensures
            b == (opt_view(self.parent_session_id) == Some(parent_id@)),
    {
        match &self.parent_session_id {
            Some(p) => str_eq(p.as_str(), parent_id),
            None => false,
        }
    }
}

/// What a parent is told about a finished task.
#[derive(Debug)]
pub struct AgentTaskNotification {
    pub id: String,
    pub subject: String,
    pub status: AgentTaskStatus,
    pub result_summary: Option<String>,
    pub error: Option<String>,
}

impl AgentTaskNotification {
    /// The notification of a task.
    pub fn from_task(t: &AgentTask) -> (n: Self)
        ensures
            n.id@ == t.id@ && n.subject@ == t.subject@ && n.status == t.status,
            opt_view(n.result_summary) == opt_view(t.result_summary),
            opt_view(n.error) == opt_view(t.error),
    {
        AgentTaskNotification {
            id: t.id.clone(),
            subject: t.subject.clone(),
            status: t.status,
            result_summary: clone_opt(&t.result_summary),
            error: clone_opt(&t.error),
        }
    }
}

/// Why a task store could not be set up.
#[derive(Debug, Clone, PartialEq, Eq)]
pub enum AgentStoreError {
    NoProjectDirectory,
}

impl AgentStoreError {
    /// The message shown to the user.
    pub fn message(&self) -> (m: String)
        ensures
            m@ == "Unable to determine project task directory"@,
    {
        String::from_str("Unable to determine project task directory")
    }
}

/// Where the tasks of a project are kept.
#[derive(Debug)]
pub struct AgentTaskStore {
    tasks_dir: String,
}

impl AgentTaskStore {
    /// The store in `tasks_dir`.
    pub fn new(tasks_dir: String) -> (s: Self)
        ensures
            s.dir_spec() == tasks_dir@,
    {
        AgentTaskStore { tasks_dir }
    }

    /// The directory of the store.
    pub closed spec fn dir_spec(&self) -> Seq<char> {
        self.tasks_dir@
    }

    /// The directory of the store.
    pub fn tasks_dir(&self) -> (d: &String)
        ensures
            d@ == self.dir_spec(),
    {
        &self.tasks_dir
    }

    /// The store of a project: `<root>/rustcode/state/tasks`, the root being
    /// `project_root`, else the working directory `current_dir`.
    pub fn for_project(project_root: Option<&str>, current_dir: Option<&str>) -> (r: Result<Self, AgentStoreError>)
        ensures
            match crate::paths::root_spec(str_view(project_root), str_view(current_dir)) {
                Some(root) => r matches Ok(s) && s.dir_spec() == path_join(
                    path_join(path_join(root, "rustcode"@), "state"@),
                    "tasks"@,
                ),
                None => r matches Err(AgentStoreError::NoProjectDirectory),
            },
    {
        match crate::paths::project_tasks_dir(project_root, current_dir) {
            Some(d) => Ok(AgentTaskStore::new(d)),
            None => Err(AgentStoreError::NoProjectDirectory),
        }
    }

    /// The file of task `id`: `<dir>/<id>.json`.
    pub fn task_path(&self, id: &str) -> (p: String)
        ensures
            p@ == path_join(self.dir_spec(), id@ + ".json"@),
    {
        let file = concat(id, ".json");
        join_path(self.tasks_dir.as_str(), file.as_str())
    }
}

/// Background agents never stop to ask: under the background-safe mode
/// there is no ask rule and the mode is not `Ask`, and every tool that would
/// have asked is denied instead (up to ASCII case), next to the earlier
/// deny rules, which stay.
pub proof fn law_background_agents_never_ask(p: PermissionsView)
    ensures
        agent_permissions_spec(p, AgentPermissionMode::BackgroundSafe).ask.len() == 0,
        agent_permissions_spec(p, AgentPermissionMode::BackgroundSafe).mode != PermissionMode::Ask,
        agent_permissions_spec(p, AgentPermissionMode::BackgroundSafe).deny.subrange(0, p.deny.len() as int)
            == p.deny,
        forall|j: int|
            0 <= j < p.ask.len() ==> crate::config::mentions(
                agent_permissions_spec(p, AgentPermissionMode::BackgroundSafe).deny,
                #[trigger] p.ask[j],
            ),
{
    crate::config::law_merge_is_union(p.deny, p.ask);
}

} // verus!
