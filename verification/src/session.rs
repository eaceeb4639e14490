//! Sessions: their stored transcript, lineage (forks and child-agent
//! sessions), how a stored transcript becomes runtime history again, and
//! how a runtime history is stored back.

use vstd::prelude::*;
use crate::compact::{is_compact_summary_content, is_compact_summary_spec};
use crate::ids::{new_uuid, now_millis};
use crate::runtime::{
    MessageView, PendingApproval, PendingView, RuntimeMessage, RuntimeRole, RuntimeToolCall,
    RuntimeToolResult, ToolCallView, ToolResultView, calls_view, clone_calls, clone_result,
    messages_view, result_view, role_name,
};
use crate::text::{
    clone_opt, concat, eq_ignore_case, eq_ignore_case_str, lower, opt_view, str_eq, to_lower_str,
    trim, trim_str,
};

verus! {

/// What kind of session this is.
#[derive(Debug, Clone, Copy, PartialEq, Eq, Structural)]
pub enum SessionKind {
    Primary,
    Forked,
    ChildAgent,
}

impl Default for SessionKind {
    fn default() -> (k: Self)
        ensures
            k == SessionKind::Primary,
    {
        SessionKind::Primary
    }
}

/// The stored name of a session kind.
pub open spec fn kind_name(k: SessionKind) -> Seq<char> {
    match k {
        SessionKind::Primary => "primary"@,
        SessionKind::Forked => "forked"@,
        SessionKind::ChildAgent => "child_agent"@,
    }
}

/// The session kind a filter word selects (already trimmed and
/// lower-cased).
pub open spec fn kind_filter(key: Seq<char>) -> Option<SessionKind> {
    if key == "primary"@ || key == "main"@ || key == "root"@ {
        Some(SessionKind::Primary)
    } else if key == "fork"@ || key == "forked"@ || key == "branch"@ || key == "branched"@ {
        Some(SessionKind::Forked)
    } else if key == "child"@ || key == "child_agent"@ || key == "child-agent"@ || key == "agent"@
        || key == "subagent"@ {
        Some(SessionKind::ChildAgent)
    } else {
        None
    }
}

impl SessionKind {
    /// The stored name of the kind.
    pub fn as_str(self) -> (s: &'static str)
        ensures
            s@ == kind_name(self),
    {
        match self {
            SessionKind::Primary => "primary",
            SessionKind::Forked => "forked",
            SessionKind::ChildAgent => "child_agent",
        }
    }

    /// The kind a filter word selects, ignoring surrounding whitespace and
    /// ASCII case; it accepts aliases such as `main`, `branch` and
    /// `subagent`.
    pub fn parse_filter(value: &str) -> (r: Option<Self>)
        ensures
            r == kind_filter(lower(trim(value@))),
    {
        let k = to_lower_str(trim_str(value).as_str());
        let key = k.as_str();
        if str_eq(key, "primary") || str_eq(key, "main") || str_eq(key, "root") {
            Some(SessionKind::Primary)
        } else if str_eq(key, "fork") || str_eq(key, "forked") || str_eq(key, "branch") || str_eq(
            key,
            "branched",
        ) {
            Some(SessionKind::Forked)
        } else if str_eq(key, "child") || str_eq(key, "child_agent") || str_eq(key, "child-agent")
            || str_eq(key, "agent") || str_eq(key, "subagent") {
            Some(SessionKind::ChildAgent)
        } else {
            None
        }
    }
}

/// Where a session stands.
#[derive(Debug, Clone, Copy, PartialEq, Eq, Structural)]
pub enum SessionStatus {
    Active,
    AwaitingApproval,
    Interrupted,
    Completed,
}

impl Default for SessionStatus {
    fn default() -> (s: Self)
        ensures
            s == SessionStatus::Completed,
    {
        SessionStatus::Completed
    }
}

/// What a stored transcript entry is.
#[derive(Debug, Clone, Copy, PartialEq, Eq, Structural)]
pub enum TranscriptEntryType {
    Message,
    CommandResult,
    CompactBoundary,
    SystemNotice,
}

impl Default for TranscriptEntryType {
    fn default() -> (t: Self)
        ensures
            t == TranscriptEntryType::Message,
    {
        TranscriptEntryType::Message
    }
}

/// A stored transcript entry. The timestamp is in milliseconds since the
/// Unix epoch.
#[derive(Debug, PartialEq, Eq)]
pub struct Message {
    pub id: String,
    pub role: String,
    pub content: String,
    pub tool_calls: Vec<RuntimeToolCall>,
    pub tool_result: Option<RuntimeToolResult>,
    pub entry_type: TranscriptEntryType,
    pub parent_id: Option<String>,
    pub timestamp: i64,
}

/// The mathematical value of a stored transcript entry.
pub struct EntryView {
    pub id: Seq<char>,
    pub role: Seq<char>,
    pub content: Seq<char>,
    pub tool_calls: Seq<ToolCallView>,
    pub tool_result: Option<ToolResultView>,
    pub entry_type: TranscriptEntryType,
    pub parent_id: Option<Seq<char>>,
    pub timestamp: i64,
}

impl View for Message {
    type V = EntryView;

    open spec fn view(&self) -> EntryView {
        EntryView {
            id: self.id@,
            role: self.role@,
            content: self.content@,
            tool_calls: calls_view(self.tool_calls@),
            tool_result: result_view(self.tool_result),
            entry_type: self.entry_type,
            parent_id: opt_view(self.parent_id),
            timestamp: self.timestamp,
        }
    }
}

impl Clone for Message {
    fn clone(&self) -> (r: Self)
        ensures
            r@ == self@,
    {
        Message {
            id: self.id.clone(),
            role: self.role.clone(),
            content: self.content.clone(),
            tool_calls: clone_calls(&self.tool_calls),
            tool_result: clone_result(&self.tool_result),
            entry_type: self.entry_type,
            parent_id: clone_opt(&self.parent_id),
            timestamp: self.timestamp,
        }
    }
}

/// The views of stored entries.
pub open spec fn entries_view(v: Seq<Message>) -> Seq<EntryView> {
    v.map_values(|m: Message| m@)
}

/// A copy of a list of stored entries.
pub fn clone_entries(v: &Vec<Message>) -> (r: Vec<Message>)
    ensures
        entries_view(r@) == entries_view(v@),
{
    let mut r: Vec<Message> = Vec::new();
    let mut i: usize = 0;
    while i < v.len()
        invariant
            i <= v.len(),
            entries_view(r@) == entries_view(v@.subrange(0, i as int)),
        decreases v.len() - i,
    {
        let c = v[i].clone();
        let ghost old_r = r@;
        r.push(c);
        assert(entries_view(r@) =~= entries_view(old_r).push(c@));
        i = i + 1;
        assert(entries_view(v@.subrange(0, i as int)) =~= entries_view(v@.subrange(0, i - 1)).push(
            v@[i - 1]@,
        ));
    }
    assert(v@.subrange(0, v.len() as int) =~= v@);
    r
}

/// The runtime role a stored role name stands for; unknown names are the
/// user's.
pub open spec fn role_of(name: Seq<char>) -> RuntimeRole {
    if name == "system"@ {
        RuntimeRole::System
    } else if name == "assistant"@ {
        RuntimeRole::Assistant
    } else if name == "tool"@ {
        RuntimeRole::Tool
    } else {
        RuntimeRole::User
    }
}

/// The runtime message a stored entry gives back.
pub open spec fn runtime_of(m: EntryView) -> MessageView {
    MessageView {
        role: role_of(m.role),
        content: m.content,
        tool_calls: m.tool_calls,
        tool_result: m.tool_result,
    }
}

/// The runtime message a stored entry gives back.
pub fn runtime_message_of(m: &Message) -> (r: RuntimeMessage)
    ensures
        r@ == runtime_of(m@),
{
    let name = m.role.as_str();
    let role = if str_eq(name, "system") {
        RuntimeRole::System
    } else if str_eq(name, "assistant") {
        RuntimeRole::Assistant
    } else if str_eq(name, "tool") {
        RuntimeRole::Tool
    } else {
        RuntimeRole::User
    };
    RuntimeMessage {
        role,
        content: m.content.clone(),
        tool_calls: clone_calls(&m.tool_calls),
        tool_result: clone_result(&m.tool_result),
    }
}

/// How a runtime message is filed in the transcript: compaction summaries
/// as compaction boundaries, other system messages as notices, the rest as
/// messages.
pub open spec fn entry_type_of(m: MessageView) -> TranscriptEntryType {
    if is_compact_summary_spec(m.content) {
        TranscriptEntryType::CompactBoundary
    } else if m.role == RuntimeRole::System {
        TranscriptEntryType::SystemNotice
    } else {
        TranscriptEntryType::Message
    }
}

/// The stored entry of a runtime message, under the identifier `id` and
/// at the time `timestamp`, with no parent yet.
pub open spec fn entry_of(m: MessageView, id: Seq<char>, timestamp: i64) -> EntryView {
    EntryView {
        id,
        role: role_name(m.role),
        content: m.content,
        tool_calls: m.tool_calls,
        tool_result: m.tool_result,
        entry_type: entry_type_of(m),
        parent_id: None,
        timestamp,
    }
}

impl Message {
    /// The stored entry of `runtime` under the identifier `id` at the time
    /// `timestamp`.
    pub fn from_runtime_at(runtime: &RuntimeMessage, id: String, timestamp: i64) -> (m: Self)
        ensures
            m@ == entry_of(runtime@, id@, timestamp),
    {
        let entry_type = if is_compact_summary_content(runtime.content.as_str()) {
            TranscriptEntryType::CompactBoundary
        } else if runtime.role == RuntimeRole::System {
            TranscriptEntryType::SystemNotice
        } else {
            TranscriptEntryType::Message
        };
        Message {
            id,
            role: String::from_str(runtime.role.as_str()),
            content: runtime.content.clone(),
            tool_calls: clone_calls(&runtime.tool_calls),
            tool_result: clone_result(&runtime.tool_result),
            entry_type,
            parent_id: None,
            timestamp,
        }
    }

    /// The stored entry of `runtime`, under a fresh identifier and the
    /// current time.
    pub fn from_runtime(runtime: &RuntimeMessage) -> (m: Self)
        ensures
            m@ == entry_of(runtime@, m@.id, m@.timestamp),
            m@.id.len() == 36,
    {
        let id = new_uuid();
        let now = now_millis();
        Message::from_runtime_at(runtime, id, now)
    }
}

/// A pending approval as stored with a session. `arguments` is the tool
/// call's arguments as JSON text.
#[derive(Debug, PartialEq, Eq)]
pub struct StoredPendingApproval {
    pub tool_name: String,
    pub tool_call_id: String,
    pub arguments: String,
    pub reason: String,
}

impl Clone for StoredPendingApproval {
    fn clone(&self) -> (r: Self)
        ensures
            r.tool_name@ == self.tool_name@,
            r.tool_call_id@ == self.tool_call_id@,
            r.arguments@ == self.arguments@,
            r.reason@ == self.reason@,
    {
        StoredPendingApproval {
            tool_name: self.tool_name.clone(),
            tool_call_id: self.tool_call_id.clone(),
            arguments: self.arguments.clone(),
            reason: self.reason.clone(),
        }
    }
}

/// The pending approval a stored one stands for.
pub open spec fn pending_of(s: StoredPendingApproval) -> PendingView {
    PendingView {
        tool_call: ToolCallView { id: s.tool_call_id@, name: s.tool_name@, arguments: s.arguments@ },
        reason: s.reason@,
    }
}

impl StoredPendingApproval {
    /// The stored form of a pending approval.
    pub fn from_pending(p: &PendingApproval) -> (s: Self)
        ensures
            pending_of(s) == p@,
    {
        StoredPendingApproval {
            tool_name: p.tool_call.name.clone(),
            tool_call_id: p.tool_call.id.clone(),
            arguments: p.tool_call.arguments.clone(),
            reason: p.reason.clone(),
        }
    }

    /// The pending approval this stands for.
    pub fn to_pending(&self) -> (p: PendingApproval)
        ensures
            p@ == pending_of(*self),
    {
        PendingApproval {
            tool_call: RuntimeToolCall {
                id: self.tool_call_id.clone(),
                name: self.tool_name.clone(),
                arguments: self.arguments.clone(),
            },
            reason: self.reason.clone(),
        }
    }
}

/// A stored session. Times are in milliseconds since the Unix epoch.
#[derive(Debug)]
pub struct Session {
    pub id: String,
    pub name: String,
    pub created_at: i64,
    pub updated_at: i64,
    pub project_root: Option<String>,
    pub parent_session_id: Option<String>,
    pub forked_from_session_id: Option<String>,
    pub forked_from_message_id: Option<String>,
    pub spawned_by_task_id: Option<String>,
    pub session_kind: SessionKind,
    pub status: SessionStatus,
    pub pending_approval: Option<StoredPendingApproval>,
    pub messages: Vec<Message>,
}

/// `Some(s)` shown as `s`, `None` as `unknown`.
pub open spec fn or_unknown(o: Option<Seq<char>>) -> Seq<char> {
    match o {
        Some(s) => s,
        None => "unknown"@,
    }
}

/// `prefix` followed by `s` when there is one; nothing otherwise.
pub open spec fn opt_suffix(prefix: Seq<char>, o: Option<Seq<char>>) -> Seq<char> {
    match o {
        Some(s) => prefix + s,
        None => Seq::empty(),
    }
}

/// The notice telling where a session comes from.
pub open spec fn lineage_notice_spec(s: Session) -> Option<Seq<char>> {
    match s.session_kind {
        SessionKind::Forked => Some(
            "Forked from session "@ + or_unknown(opt_view(s.forked_from_session_id)) + opt_suffix(
                " at "@,
                opt_view(s.forked_from_message_id),
            ) + "."@,
        ),
        SessionKind::ChildAgent => Some(
            "Child agent session for task "@ + or_unknown(opt_view(s.spawned_by_task_id))
                + opt_suffix(" from parent "@, opt_view(s.parent_session_id)) + "."@,
        ),
        SessionKind::Primary => None,
    }
}

/// The short description of a session's lineage.
pub open spec fn lineage_summary_spec(s: Session) -> Option<Seq<char>> {
    match s.session_kind {
        SessionKind::Forked => Some(
            "forked session "@ + s.id@ + " from "@ + or_unknown(opt_view(s.forked_from_session_id)),
        ),
        SessionKind::ChildAgent => Some(
            "child session "@ + s.id@ + " for task "@ + or_unknown(opt_view(s.spawned_by_task_id)),
        ),
        SessionKind::Primary => None,
    }
}

fn or_unknown_exec(o: &Option<String>) -> (r: &str)
    ensures
        r@ == or_unknown(opt_view(*o)),
{
    match o {
        Some(s) => s.as_str(),
        None => "unknown",
    }
}

fn append_opt_suffix(out: &mut String, prefix: &str, o: &Option<String>)
    ensures
        final(out)@ == old(out)@ + opt_suffix(prefix@, opt_view(*o)),
{
    match o {
        Some(s) => {
            out.append(prefix);
            out.append(s.as_str());
        },
        None => {
            assert(old(out)@ + Seq::<char>::empty() =~= old(out)@);
        },
    }
}

/// A stored pending approval, copied.
pub fn clone_stored(p: &Option<StoredPendingApproval>) -> (r: Option<StoredPendingApproval>)
    ensures
        match (r, *p) {
            (Some(a), Some(b)) => pending_of(a) == pending_of(b),
            (None, None) => true,
            _ => false,
        },
{
    match p {
        Some(x) => Some(x.clone()),
        None => None,
    }
}

impl Session {
    /// The notice telling where a forked or child-agent session comes from.
    pub fn lineage_notice(&self) -> (r: Option<String>)
        ensures
            opt_view(r) == lineage_notice_spec(*self),
    {
        match self.session_kind {
            SessionKind::Forked => {
                let mut out = String::from_str("Forked from session ");
                out.append(or_unknown_exec(&self.forked_from_session_id));
                append_opt_suffix(&mut out, " at ", &self.forked_from_message_id);
                out.append(".");
                Some(out)
            },
            SessionKind::ChildAgent => {
                let mut out = String::from_str("Child agent session for task ");
                out.append(or_unknown_exec(&self.spawned_by_task_id));
                append_opt_suffix(&mut out, " from parent ", &self.parent_session_id);
                out.append(".");
                Some(out)
            },
            SessionKind::Primary => None,
        }
    }

    /// The short description of a forked or child-agent session's lineage.
    pub fn lineage_summary(&self) -> (r: Option<String>)
        ensures
            opt_view(r) == lineage_summary_spec(*self),
    {
        match self.session_kind {
            SessionKind::Forked => {
                let mut out = String::from_str("forked session ");
                out.append(self.id.as_str());
                out.append(" from ");
                out.append(or_unknown_exec(&self.forked_from_session_id));
                Some(out)
            },
            SessionKind::ChildAgent => {
                let mut out = String::from_str("child session ");
                out.append(self.id.as_str());
                out.append(" for task ");
                out.append(or_unknown_exec(&self.spawned_by_task_id));
                Some(out)
            },
            SessionKind::Primary => None,
        }
    }

    /// The approval the session was waiting for, if any.
    pub fn restore_pending_approval(&self) -> (r: Option<PendingApproval>)
        ensures
            match (r, self.pending_approval) {
                (Some(p), Some(s)) => p@ == pending_of(s),
                (None, None) => true,
                _ => false,
            },
    {
        match &self.pending_approval {
            Some(s) => Some(s.to_pending()),
            None => None,
        }
    }
}

/// Whether an earlier assistant message in `h` requested the tool call that
/// the stored tool result `m` answers.
pub open spec fn answers_call(h: Seq<MessageView>, m: EntryView) -> bool {
    exists|i: int, j: int|
        0 <= i < h.len() && h[i].role == RuntimeRole::Assistant && 0 <= j < h[i].tool_calls.len()
            && m.tool_result is Some && m.tool_result->0.tool_call_id == #[trigger] h[i].tool_calls[j].id
}

/// The notice that stands in for a tool result whose call is missing.
pub open spec fn orphan_notice(m: EntryView) -> MessageView {
    MessageView {
        role: RuntimeRole::System,
        content: "Recovered orphaned tool result for "@ + match m.tool_result {
            Some(r) => r.name,
            None => "unknown tool"@,
        } + " during session restore."@,
        tool_calls: Seq::empty(),
        tool_result: None,
    }
}

/// The runtime history a stored transcript gives back: a tool result at the
/// start is dropped, one whose call no earlier assistant message requested
/// becomes a notice, and every other entry comes back as it was stored.
pub open spec fn restored_history(ms: Seq<EntryView>) -> Seq<MessageView>
    decreases ms.len(),
{
    if ms.len() == 0 {
        Seq::empty()
    } else {
        let h = restored_history(ms.drop_last());
        let m = ms.last();
        let rt = runtime_of(m);
        if rt.role == RuntimeRole::Tool && h.len() == 0 {
            h
        } else if rt.role == RuntimeRole::Tool && !answers_call(h, m) {
            h.push(orphan_notice(m))
        } else {
            h.push(rt)
        }
    }
}

fn answers_call_exec(h: &Vec<RuntimeMessage>, m: &Message) -> (b: bool)
    ensures
        b == answers_call(messages_view(h@), m@),
{
    let ghost hv = messages_view(h@);
    let call_id = match &m.tool_result {
        Some(r) => r.tool_call_id.as_str(),
        None => {
            return false;
        },
    };
    let mut i: usize = 0;
    while i < h.len()
        invariant
            i <= h.len(),
            hv == messages_view(h@),
            m.tool_result is Some,
            call_id@ == m@.tool_result->0.tool_call_id,
            forall|a: int, j: int|
                0 <= a < i && hv[a].role == RuntimeRole::Assistant && 0 <= j < hv[a].tool_calls.len()
                    ==> call_id@ != #[trigger] hv[a].tool_calls[j].id,
        decreases h.len() - i,
    {
        assert(hv[i as int] == h@[i as int]@);
        if h[i].role == RuntimeRole::Assistant {
            let calls = &h[i].tool_calls;
            let mut j: usize = 0;
            while j < calls.len()
                invariant
                    j <= calls.len(),
                    i < h.len(),
                    hv == messages_view(h@),
                    hv[i as int] == h@[i as int]@,
                    calls@ == h@[i as int].tool_calls@,
                    h@[i as int].role == RuntimeRole::Assistant,
                    m.tool_result is Some,
                    call_id@ == m@.tool_result->0.tool_call_id,
                    forall|k: int| 0 <= k < j ==> call_id@ != #[trigger] hv[i as int].tool_calls[k].id,
                decreases calls.len() - j,
            {
                assert(hv[i as int].tool_calls[j as int] == calls@[j as int]@);
                if str_eq(calls[j].id.as_str(), call_id) {
                    assert(call_id@ == hv[i as int].tool_calls[j as int].id);
                    return true;
                }
                j = j + 1;
            }
        }
        i = i + 1;
    }
    false
}

fn orphan_notice_exec(m: &Message) -> (r: RuntimeMessage)
    ensures
        r@ == orphan_notice(m@),
{
    let mut text = String::from_str("Recovered orphaned tool result for ");
    match &m.tool_result {
        Some(r) => text.append(r.name.as_str()),
        None => text.append("unknown tool"),
    }
    text.append(" during session restore.");
    let r = RuntimeMessage::system(text);
    assert(r@.tool_calls =~= Seq::<ToolCallView>::empty());
    r
}

/// The state a restored session starts from.
#[derive(Debug)]
pub struct SessionRestoreState {
    pub history: Vec<RuntimeMessage>,
    pub pending_approval: Option<PendingApproval>,
    pub status_message: String,
    pub restore_notice: Option<String>,
    pub lineage_summary: Option<String>,
}

/// The status line shown when a session is restored.
pub open spec fn restore_status_spec(s: Session) -> Seq<char> {
    match lineage_summary_spec(s) {
        Some(summary) => if s.pending_approval is Some {
            "Restored "@ + summary + " with pending approval"@
        } else {
            "Restored "@ + summary
        },
        None => if s.pending_approval is Some {
            "Restored session "@ + s.id@ + " with pending approval"@
        } else {
            "Restored session "@ + s.id@
        },
    }
}

impl Session {
    /// The runtime history the stored transcript gives back.
    pub fn runtime_history(&self) -> (r: Vec<RuntimeMessage>)
        ensures
            messages_view(r@) == restored_history(entries_view(self.messages@)),
    {
        let ghost ev = entries_view(self.messages@);
        let mut history: Vec<RuntimeMessage> = Vec::new();
        let mut i: usize = 0;
        while i < self.messages.len()
            invariant
                i <= self.messages.len(),
                ev == entries_view(self.messages@),
                messages_view(history@) == restored_history(ev.subrange(0, i as int)),
            decreases self.messages.len() - i,
        {
            let ghost pre = ev.subrange(0, i + 1);
            let ghost before = messages_view(history@);
            assert(pre.drop_last() =~= ev.subrange(0, i as int));
            assert(pre.last() == self.messages@[i as int]@);
            let message = &self.messages[i];
            let runtime = runtime_message_of(message);
            if runtime.role == RuntimeRole::Tool && history.len() == 0 {
            } else if runtime.role == RuntimeRole::Tool && !answers_call_exec(&history, message) {
                let notice = orphan_notice_exec(message);
                history.push(notice);
                assert(messages_view(history@) =~= before.push(orphan_notice(pre.last())));
            } else {
                let ghost rv = runtime@;
                history.push(runtime);
                assert(messages_view(history@) =~= before.push(rv));
            }
            i = i + 1;
        }
        assert(ev.subrange(0, self.messages.len() as int) =~= ev);
        history
    }

    /// Everything needed to continue the session: its runtime history, the
    /// approval it waits for, a status line, and its lineage.
    pub fn restore_runtime_state(&self) -> (r: SessionRestoreState)
        ensures
            messages_view(r.history@) == restored_history(entries_view(self.messages@)),
            match (r.pending_approval, self.pending_approval) {
                (Some(p), Some(s)) => p@ == pending_of(s),
                (None, None) => true,
                _ => false,
            },
            r.status_message@ == restore_status_spec(*self),
            opt_view(r.restore_notice) == lineage_notice_spec(*self),
            opt_view(r.lineage_summary) == lineage_summary_spec(*self),
    {
        let pending_approval = self.restore_pending_approval();
        let lineage_summary = self.lineage_summary();
        let restore_notice = self.lineage_notice();
        let status_message = match &lineage_summary {
            Some(summary) => {
                let mut m = concat("Restored ", summary.as_str());
                if pending_approval.is_some() {
                    m.append(" with pending approval");
                }
                m
            },
            None => {
                let mut m = concat("Restored session ", self.id.as_str());
                if pending_approval.is_some() {
                    m.append(" with pending approval");
                }
                m
            },
        };
        SessionRestoreState {
            history: self.runtime_history(),
            pending_approval,
            status_message,
            restore_notice,
            lineage_summary,
        }
    }
}

/// A text on one line, its words separated by single spaces, cut to `max`
/// characters with `...` appended when longer.
pub open spec fn summarize_spec(text: Seq<char>, max: nat) -> Seq<char> {
    let compact = crate::text::join(crate::text::words(text), " "@);
    if compact.len() <= max {
        compact
    } else {
        compact.take(max as int) + "..."@
    }
}

/// A text on one line, cut to `max` characters.
pub fn summarize_session_text(text: &str, max: usize) -> (r: String)
    ensures
        r@ == summarize_spec(text@, max as nat),
{
    let ws = crate::text::split_ws(text);
    let compact = crate::text::join_strs(&ws, " ");
    let v = crate::text::chars_of(compact.as_str());
    if v.len() <= max {
        compact
    } else {
        let head = crate::text::string_of_range(&v, 0, max);
        assert(head@ =~= compact@.take(max as int));
        concat(head.as_str(), "...")
    }
}

/// What a session list shows of a session.
#[derive(Debug)]
pub struct SessionInfo {
    pub id: String,
    pub name: String,
    pub created_at: i64,
    pub updated_at: i64,
    pub status: SessionStatus,
    pub session_kind: SessionKind,
    pub forked_from_session_id: Option<String>,
    pub parent_session_id: Option<String>,
    pub spawned_by_task_id: Option<String>,
    pub message_count: usize,
    pub latest_user_summary: Option<String>,
}

/// The content of the last entry whose role is `user` (ignoring ASCII
/// case).
pub open spec fn last_user_content(ms: Seq<EntryView>) -> Option<Seq<char>>
    decreases ms.len(),
{
    if ms.len() == 0 {
        None
    } else if eq_ignore_case(ms.last().role, "user"@) {
        Some(ms.last().content)
    } else {
        last_user_content(ms.drop_last())
    }
}

impl SessionInfo {
    /// The list entry of a session; the latest user message, summarised to
    /// 72 characters, describes it.
    pub fn from_session(s: &Session) -> (i: Self)
        ensures
            i.id@ == s.id@,
            i.name@ == s.name@,
            i.created_at == s.created_at,
            i.updated_at == s.updated_at,
            i.status == s.status,
            i.session_kind == s.session_kind,
            opt_view(i.forked_from_session_id) == opt_view(s.forked_from_session_id),
            opt_view(i.parent_session_id) == opt_view(s.parent_session_id),
            opt_view(i.spawned_by_task_id) == opt_view(s.spawned_by_task_id),
            i.message_count == s.messages@.len(),
            opt_view(i.latest_user_summary) == match last_user_content(entries_view(s.messages@)) {
                Some(c) => Some(summarize_spec(c, 72)),
                None => None,
            },
    {
        let ghost ev = entries_view(s.messages@);
        assert(ev.subrange(0, s.messages.len() as int) =~= ev);
        let mut k: usize = s.messages.len();
        let mut found = false;
        while k > 0 && !found
            invariant
                k <= s.messages.len(),
                ev == entries_view(s.messages@),
                !found ==> last_user_content(ev) == last_user_content(ev.subrange(0, k as int)),
                found ==> k < s.messages.len() && last_user_content(ev) == Some(ev[k as int].content),
            decreases k + (if found { 0int } else { 1int }),
        {
            let ghost pre = ev.subrange(0, k as int);
            assert(pre.last() == s.messages@[k - 1]@);
            assert(pre.drop_last() =~= ev.subrange(0, k - 1));
            if eq_ignore_case_str(s.messages[k - 1].role.as_str(), "user") {
                found = true;
            }
            k = k - 1;
        }
        proof {
            if !found {
                assert(ev.subrange(0, 0) =~= Seq::<EntryView>::empty());
            }
        }
        assert(ev.subrange(0, s.messages.len() as int) =~= ev);
        let latest_user_summary = if found {
            assert(ev[k as int] == s.messages@[k as int]@);
            Some(summarize_session_text(s.messages[k].content.as_str(), 72))
        } else {
            None
        };
        SessionInfo {
            id: s.id.clone(),
            name: s.name.clone(),
            created_at: s.created_at,
            updated_at: s.updated_at,
            status: s.status,
            session_kind: s.session_kind,
            forked_from_session_id: clone_opt(&s.forked_from_session_id),
            parent_session_id: clone_opt(&s.parent_session_id),
            spawned_by_task_id: clone_opt(&s.spawned_by_task_id),
            message_count: s.messages.len(),
            latest_user_summary,
        }
    }
}

/// Whether a primary session still carries a placeholder name (blank, its
/// own id, or one of the default names) and should be named from its
/// first prompt.
pub open spec fn refresh_name_spec(kind: SessionKind, name: Seq<char>, id: Seq<char>) -> bool {
    kind == SessionKind::Primary && (trim(name).len() == 0 || name == id || eq_ignore_case(
        name,
        "tui-session"@,
    ) || eq_ignore_case(name, "Desktop Session"@) || eq_ignore_case(name, "New Session"@))
}

/// Whether the session should be named from its first prompt.
pub fn should_refresh_session_name(session: &Session) -> (b: bool)
    ensures
        b == refresh_name_spec(session.session_kind, session.name@, session.id@),
{
    if session.session_kind != SessionKind::Primary {
        return false;
    }
    crate::text::is_blank_str(session.name.as_str()) || str_eq(session.name.as_str(), session.id.as_str())
        || eq_ignore_case_str(session.name.as_str(), "tui-session") || eq_ignore_case_str(
        session.name.as_str(),
        "Desktop Session",
    ) || eq_ignore_case_str(session.name.as_str(), "New Session")
}

/// The content of the first user message with some non-blank text.
pub open spec fn first_user_text(h: Seq<MessageView>) -> Option<Seq<char>>
    decreases h.len(),
{
    if h.len() == 0 {
        None
    } else if h[0].role == RuntimeRole::User && trim(h[0].content).len() > 0 {
        Some(h[0].content)
    } else {
        first_user_text(h.drop_first())
    }
}

proof fn lemma_first_user_text_at(h: Seq<MessageView>, i: int)
    requires
        0 <= i < h.len(),
        h[i].role == RuntimeRole::User && trim(h[i].content).len() > 0,
        forall|j: int| 0 <= j < i ==> !(#[trigger] h[j].role == RuntimeRole::User && trim(h[j].content).len() > 0),
    ensures
        first_user_text(h) == Some(h[i].content),
    decreases i,
{
    if i > 0 {
        let rest = h.drop_first();
        assert forall|j: int| 0 <= j < i - 1 implies !(#[trigger] rest[j].role == RuntimeRole::User
            && trim(rest[j].content).len() > 0) by {
            assert(rest[j] == h[j + 1]);
        }
        lemma_first_user_text_at(rest, i - 1);
    }
}

proof fn lemma_first_user_text_none(h: Seq<MessageView>)
    requires
        forall|j: int| 0 <= j < h.len() ==> !(#[trigger] h[j].role == RuntimeRole::User && trim(h[j].content).len() > 0),
    ensures
        first_user_text(h) is None,
    decreases h.len(),
{
    if h.len() > 0 {
        let rest = h.drop_first();
        assert forall|j: int| 0 <= j < rest.len() implies !(#[trigger] rest[j].role == RuntimeRole::User
            && trim(rest[j].content).len() > 0) by {
            assert(rest[j] == h[j + 1]);
        }
        lemma_first_user_text_none(rest);
    }
}

/// The name a session gets from its history: the first non-blank user
/// prompt summarised to 48 characters, else `Session` and the first eight
/// characters of its id (when it has one).
pub open spec fn inferred_name_spec(id: Seq<char>, h: Seq<MessageView>) -> Option<Seq<char>> {
    let from_prompt = match first_user_text(h) {
        Some(c) => if summarize_spec(c, 48).len() > 0 {
            Some(summarize_spec(c, 48))
        } else {
            None
        },
        None => None,
    };
    match from_prompt {
        Some(n) => Some(n),
        None => if id.len() > 0 {
            Some("Session "@ + id.take(if id.len() < 8 { id.len() as int } else { 8 }))
        } else {
            None
        },
    }
}

/// The name a session gets from its history.
pub fn infer_session_name(session: &Session, history: &Vec<RuntimeMessage>) -> (r: Option<String>)
    ensures
        opt_view(r) == inferred_name_spec(session.id@, messages_view(history@)),
{
    let ghost hv = messages_view(history@);
    let mut i: usize = 0;
    let mut found: Option<String> = None;
    while i < history.len() && found.is_none()
        invariant
            i <= history.len(),
            hv == messages_view(history@),
            found is None ==> forall|j: int| 0 <= j < i ==> !(#[trigger] hv[j].role == RuntimeRole::User
                && trim(hv[j].content).len() > 0),
            found matches Some(c) ==> first_user_text(hv) == Some(c@),
        decreases history.len() - i,
    {
        assert(hv[i as int] == history@[i as int]@);
        if history[i].role == RuntimeRole::User && !crate::text::is_blank_str(history[i].content.as_str()) {
            proof {
                lemma_first_user_text_at(hv, i as int);
            }
            found = Some(history[i].content.clone());
        }
        i = i + 1;
    }
    proof {
        if found is None {
            lemma_first_user_text_none(hv);
        }
    }
    let from_prompt = match found {
        Some(c) => {
            let n = summarize_session_text(c.as_str(), 48);
            if n.as_str().unicode_len() > 0 {
                Some(n)
            } else {
                None
            }
        },
        None => None,
    };
    match from_prompt {
        Some(n) => Some(n),
        None => {
            let v = crate::text::chars_of(session.id.as_str());
            if v.len() > 0 {
                let end = if v.len() < 8 { v.len() } else { 8 };
                let head = crate::text::string_of_range(&v, 0, end);
                assert(head@ =~= session.id@.take(end as int));
                Some(concat("Session ", head.as_str()))
            } else {
                None
            }
        },
    }
}

/// Whether a stored entry still records a runtime message unchanged.
pub open spec fn entry_matches(e: EntryView, m: MessageView) -> bool {
    e.role == role_name(m.role) && e.content == m.content && e.tool_calls == m.tool_calls
        && e.tool_result == m.tool_result
}

fn calls_equal(a: &Vec<RuntimeToolCall>, b: &Vec<RuntimeToolCall>) -> (r: bool)
    ensures
        r == (calls_view(a@) == calls_view(b@)),
{
    if a.len() != b.len() {
        proof {
            assert(calls_view(a@).len() != calls_view(b@).len());
        }
        return false;
    }
    let mut i: usize = 0;
    while i < a.len()
        invariant
            i <= a.len() == b.len(),
            forall|j: int| 0 <= j < i ==> #[trigger] calls_view(a@)[j] == calls_view(b@)[j],
        decreases a.len() - i,
    {
        assert(calls_view(a@)[i as int] == a@[i as int]@);
        assert(calls_view(b@)[i as int] == b@[i as int]@);
        if !(str_eq(a[i].id.as_str(), b[i].id.as_str()) && str_eq(a[i].name.as_str(), b[i].name.as_str())
            && str_eq(a[i].arguments.as_str(), b[i].arguments.as_str())) {
            return false;
        }
        i = i + 1;
    }
    assert(calls_view(a@) =~= calls_view(b@));
    true
}

fn results_equal(a: &Option<RuntimeToolResult>, b: &Option<RuntimeToolResult>) -> (r: bool)
    ensures
        r == (result_view(*a) == result_view(*b)),
{
    match (a, b) {
        (Some(x), Some(y)) => str_eq(x.tool_call_id.as_str(), y.tool_call_id.as_str()) && str_eq(
            x.name.as_str(),
            y.name.as_str(),
        ) && str_eq(x.content.as_str(), y.content.as_str()) && x.is_error == y.is_error,
        (None, None) => true,
        _ => false,
    }
}

fn entry_matches_exec(runtime: &RuntimeMessage, message: &Message) -> (r: bool)
    ensures
        r == entry_matches(message@, runtime@),
{
    str_eq(message.role.as_str(), runtime.role.as_str()) && str_eq(
        message.content.as_str(),
        runtime.content.as_str(),
    ) && calls_equal(&message.tool_calls, &runtime.tool_calls) && results_equal(
        &message.tool_result,
        &runtime.tool_result,
    )
}

/// The number of leading history messages that the stored entries still
/// record unchanged, entry for entry.
pub open spec fn kept_prefix(existing: Seq<EntryView>, h: Seq<MessageView>, k: int) -> bool {
    &&& 0 <= k <= h.len()
    &&& k <= existing.len()
    &&& forall|i: int| 0 <= i < k ==> entry_matches(#[trigger] existing[i], h[i])
    &&& (k < h.len() ==> k == existing.len() || !entry_matches(existing[k], h[k]))
}

/// Whether entry `i` of `r` reuses entry `i` of `existing` (its parent
/// aside).
pub open spec fn reused_entry(existing: Seq<EntryView>, r: Seq<EntryView>, i: int) -> bool {
    r[i] == (EntryView { parent_id: r[i].parent_id, ..existing[i] })
}

/// Whether entry `i` of `r` newly stores message `i` of `h` under a fresh
/// 36-character identifier (its parent aside).
pub open spec fn fresh_entry(h: Seq<MessageView>, r: Seq<EntryView>, i: int) -> bool {
    r[i] == (EntryView { parent_id: r[i].parent_id, ..entry_of(h[i], r[i].id, r[i].timestamp) })
        && r[i].id.len() == 36
}

/// Whether the parent of entry `i` of `r` is the entry before it.
pub open spec fn linked_entry(r: Seq<EntryView>, i: int) -> bool {
    r[i].parent_id == (if i == 0 {
        None
    } else {
        Some(r[i - 1].id)
    })
}

/// Whether `r` stores the history `h` over the earlier transcript
/// `existing`, with `k` entries kept: one entry per message; the kept
/// prefix reuses the earlier entries, later messages get new entries; each
/// entry's parent is the entry before it.
pub open spec fn reconciled_at(existing: Seq<EntryView>, h: Seq<MessageView>, r: Seq<EntryView>, k: int) -> bool {
    &&& r.len() == h.len()
    &&& kept_prefix(existing, h, k)
    &&& forall|i: int| 0 <= i < k ==> #[trigger] reused_entry(existing, r, i)
    &&& forall|i: int| k <= i < h.len() ==> #[trigger] fresh_entry(h, r, i)
    &&& forall|i: int| 0 <= i < r.len() ==> #[trigger] linked_entry(r, i)
}

/// Whether `r` stores the history `h` over the earlier transcript
/// `existing` (see `reconciled_at`).
pub open spec fn reconciled(existing: Seq<EntryView>, h: Seq<MessageView>, r: Seq<EntryView>) -> bool {
    exists|k: int| reconciled_at(existing, h, r, k)
}

/// The transcript that stores `history`, reusing the entries of `existing`
/// for as long as they still record the same messages.
pub fn reconcile_messages(existing: &Vec<Message>, history: &Vec<RuntimeMessage>) -> (r: Vec<Message>)
    ensures
        reconciled(entries_view(existing@), messages_view(history@), entries_view(r@)),
{
    let ghost ev = entries_view(existing@);
    let ghost hv = messages_view(history@);
    let mut kept: usize = 0;
    while kept < history.len() && kept < existing.len() && entry_matches_exec(&history[kept], &existing[kept])
        invariant
            kept <= history.len(),
            kept <= existing.len(),
            ev == entries_view(existing@),
            hv == messages_view(history@),
            forall|j: int| 0 <= j < kept ==> entry_matches(#[trigger] ev[j], hv[j]),
        decreases history.len() - kept,
    {
        assert(ev[kept as int] == existing@[kept as int]@);
        assert(hv[kept as int] == history@[kept as int]@);
        kept = kept + 1;
    }
    proof {
        if kept < history.len() && kept < existing.len() {
            assert(ev[kept as int] == existing@[kept as int]@);
            assert(hv[kept as int] == history@[kept as int]@);
        }
        assert(kept_prefix(ev, hv, kept as int));
    }
    let ghost mut rv: Seq<EntryView> = Seq::empty();
    let mut out: Vec<Message> = Vec::new();
    let mut parent_id: Option<String> = None;
    let mut i: usize = 0;
    while i < history.len()
        invariant
            i <= history.len(),
            kept <= history.len(),
            kept <= existing.len(),
            ev == entries_view(existing@),
            hv == messages_view(history@),
            rv == entries_view(out@),
            rv.len() == i,
            forall|j: int| 0 <= j < i && j < kept ==> #[trigger] reused_entry(ev, rv, j),
            forall|j: int| kept <= j < i ==> #[trigger] fresh_entry(hv, rv, j),
            forall|j: int| 0 <= j < i ==> #[trigger] linked_entry(rv, j),
            i == 0 ==> parent_id is None,
            i > 0 ==> opt_view(parent_id) == Some(rv[i - 1].id),
        decreases history.len() - i,
    {
        let mut message = if i < kept {
            assert(ev[i as int] == existing@[i as int]@);
            existing[i].clone()
        } else {
            assert(hv[i as int] == history@[i as int]@);
            Message::from_runtime(&history[i])
        };
        message.parent_id = clone_opt(&parent_id);
        parent_id = Some(message.id.clone());
        let ghost mv = message@;
        out.push(message);
        proof {
            let prev = rv;
            rv = rv.push(mv);
            assert(entries_view(out@) =~= rv);
            assert(linked_entry(rv, i as int));
            if i < kept {
                assert(reused_entry(ev, rv, i as int));
            } else {
                assert(fresh_entry(hv, rv, i as int));
            }
            assert forall|j: int| 0 <= j < i && j < kept implies #[trigger] reused_entry(ev, rv, j) by {
                assert(reused_entry(ev, prev, j));
                assert(rv[j] == prev[j]);
            }
            assert forall|j: int| kept <= j < i implies #[trigger] fresh_entry(hv, rv, j) by {
                assert(fresh_entry(hv, prev, j));
                assert(rv[j] == prev[j]);
            }
            assert forall|j: int| 0 <= j < i implies #[trigger] linked_entry(rv, j) by {
                assert(linked_entry(prev, j));
                assert(rv[j] == prev[j]);
                if j > 0 {
                    assert(rv[j - 1] == prev[j - 1]);
                }
            }
        }
        i = i + 1;
    }
    assert(reconciled_at(ev, hv, rv, kept as int));
    out
}

/// The status a transcript is saved with: waiting for approval while one
/// is pending, completed otherwise.
pub open spec fn transcript_status_spec(pending: bool) -> SessionStatus {
    if pending {
        SessionStatus::AwaitingApproval
    } else {
        SessionStatus::Completed
    }
}

impl Session {
    /// Records the runtime state at the time `now`: the status, the pending
    /// approval, the history (reusing unchanged entries), and, for a primary
    /// session with a placeholder name, a name taken from its history.
    pub fn apply_runtime_state(
        &mut self,
        history: &Vec<RuntimeMessage>,
        status: SessionStatus,
        pending_approval: Option<&PendingApproval>,
        now: i64,
    )
        ensures
            final(self).updated_at == now,
            final(self).status == status,
            match (final(self).pending_approval, pending_approval) {
                (Some(a), Some(b)) => pending_of(a) == b@,
                (None, None) => true,
                _ => false,
            },
            reconciled(entries_view(old(self).messages@), messages_view(history@), entries_view(final(self).messages@)),
            final(self).name@ == if refresh_name_spec(old(self).session_kind, old(self).name@, old(self).id@) {
                match inferred_name_spec(old(self).id@, messages_view(history@)) {
                    Some(n) => n,
                    None => old(self).name@,
                }
            } else {
                old(self).name@
            },
            final(self).id == old(self).id,
            final(self).created_at == old(self).created_at,
            final(self).project_root == old(self).project_root,
            final(self).parent_session_id == old(self).parent_session_id,
            final(self).forked_from_session_id == old(self).forked_from_session_id,
            final(self).forked_from_message_id == old(self).forked_from_message_id,
            final(self).spawned_by_task_id == old(self).spawned_by_task_id,
            final(self).session_kind == old(self).session_kind,
    {
        self.updated_at = now;
        self.status = status;
        self.pending_approval = match pending_approval {
            Some(p) => Some(StoredPendingApproval::from_pending(p)),
            None => None,
        };
        self.messages = reconcile_messages(&self.messages, history);
        if should_refresh_session_name(self) {
            match infer_session_name(self, history) {
                Some(name) => {
                    self.name = name;
                },
                None => {},
            }
        }
    }

    /// Records `history` with the status and pending approval the session
    /// already has, at the time `now`.
    pub fn apply_transcript(&mut self, history: &Vec<RuntimeMessage>, now: i64)
        ensures
            final(self).updated_at == now,
            final(self).status == transcript_status_spec(old(self).pending_approval is Some),
            match (final(self).pending_approval, old(self).pending_approval) {
                (Some(a), Some(b)) => pending_of(a) == pending_of(b),
                (None, None) => true,
                _ => false,
            },
            reconciled(entries_view(old(self).messages@), messages_view(history@), entries_view(final(self).messages@)),
            final(self).id == old(self).id,
            final(self).session_kind == old(self).session_kind,
    {
        let status = if self.pending_approval.is_some() {
            SessionStatus::AwaitingApproval
        } else {
            SessionStatus::Completed
        };
        let pending = self.restore_pending_approval();
        match &pending {
            Some(p) => self.apply_runtime_state(history, status, Some(p), now),
            None => self.apply_runtime_state(history, status, None, now),
        }
    }

    /// Replaces the pending approval at the time `now`; the status follows
    /// it.
    pub fn set_pending_approval(&mut self, pending: Option<StoredPendingApproval>, now: i64)
        ensures
            *final(self) == (Session {
                updated_at: now,
                pending_approval: pending,
                status: transcript_status_spec(pending is Some),
                ..*old(self)
            }),
    {
        self.updated_at = now;
        let has = pending.is_some();
        self.pending_approval = pending;
        self.status = if has {
            SessionStatus::AwaitingApproval
        } else {
            SessionStatus::Completed
        };
    }

    /// Sets the status at the time `now`.
    pub fn set_status(&mut self, status: SessionStatus, now: i64)
        ensures
            *final(self) == (Session { updated_at: now, status, ..*old(self) }),
    {
        self.updated_at = now;
        self.status = status;
    }
}

/// Why a session operation was refused.
#[derive(Debug, Clone, PartialEq, Eq)]
pub enum SessionError {
    MessageNotFound(String),
    BranchNeedsUserMessage(String),
    RewindNeedsUserMessage(String),
}

impl SessionError {
    /// The message shown to the user.
    pub fn message(&self) -> (m: String)
        ensures
            match self {
                SessionError::MessageNotFound(id) => m@ == "Message not found: "@ + id@,
                SessionError::BranchNeedsUserMessage(role) => m@
                    == "Branch requires a user message id, got role "@ + role@,
                SessionError::RewindNeedsUserMessage(role) => m@
                    == "Rewind requires a user message id, got role "@ + role@,
            },
    {
        match self {
            SessionError::MessageNotFound(id) => concat("Message not found: ", id.as_str()),
            SessionError::BranchNeedsUserMessage(role) => concat(
                "Branch requires a user message id, got role ",
                role.as_str(),
            ),
            SessionError::RewindNeedsUserMessage(role) => concat(
                "Rewind requires a user message id, got role ",
                role.as_str(),
            ),
        }
    }
}

/// The index of the first entry with identifier `id`.
pub open spec fn position_of(ms: Seq<EntryView>, id: Seq<char>) -> Option<int>
    decreases ms.len(),
{
    if ms.len() == 0 {
        None
    } else if ms[0].id == id {
        Some(0)
    } else {
        match position_of(ms.drop_first(), id) {
            Some(i) => Some(i + 1),
            None => None,
        }
    }
}

proof fn lemma_position_at(ms: Seq<EntryView>, id: Seq<char>, i: int)
    requires
        0 <= i < ms.len(),
        ms[i].id == id,
        forall|j: int| 0 <= j < i ==> (#[trigger] ms[j]).id != id,
    ensures
        position_of(ms, id) == Some(i),
    decreases i,
{
    if i > 0 {
        let rest = ms.drop_first();
        assert forall|j: int| 0 <= j < i - 1 implies (#[trigger] rest[j]).id != id by {
            assert(rest[j] == ms[j + 1]);
        }
        lemma_position_at(rest, id, i - 1);
    }
}

proof fn lemma_position_none(ms: Seq<EntryView>, id: Seq<char>)
    requires
        forall|j: int| 0 <= j < ms.len() ==> (#[trigger] ms[j]).id != id,
    ensures
        position_of(ms, id) is None,
    decreases ms.len(),
{
    if ms.len() > 0 {
        let rest = ms.drop_first();
        assert forall|j: int| 0 <= j < rest.len() implies (#[trigger] rest[j]).id != id by {
            assert(rest[j] == ms[j + 1]);
        }
        lemma_position_none(rest, id);
    }
}

proof fn lemma_position_bounds(ms: Seq<EntryView>, id: Seq<char>)
    ensures
        position_of(ms, id) matches Some(i) ==> 0 <= i < ms.len() && ms[i].id == id,
    decreases ms.len(),
{
    if ms.len() > 0 {
        lemma_position_bounds(ms.drop_first(), id);
    }
}

/// The index of the first stored entry with identifier `id`.
pub fn find_message(messages: &Vec<Message>, id: &str) -> (r: Option<usize>)
    ensures
        match r {
            Some(i) => position_of(entries_view(messages@), id@) == Some(i as int) && i < messages.len(),
            None => position_of(entries_view(messages@), id@) is None,
        },
{
    let ghost ev = entries_view(messages@);
    let mut i: usize = 0;
    while i < messages.len()
        invariant
            i <= messages.len(),
            ev == entries_view(messages@),
            forall|j: int| 0 <= j < i ==> (#[trigger] ev[j]).id != id@,
        decreases messages.len() - i,
    {
        assert(ev[i as int] == messages@[i as int]@);
        if str_eq(messages[i].id.as_str(), id) {
            proof {
                lemma_position_at(ev, id@, i as int);
            }
            return Some(i);
        }
        i = i + 1;
    }
    proof {
        lemma_position_none(ev, id@);
    }
    None
}

/// Whether entry `i` of `r` is entry `i` of `ms` under a new identifier,
/// its parent being entry `i - 1` of `r`.
pub open spec fn relinked_entry(ms: Seq<EntryView>, r: Seq<EntryView>, i: int) -> bool {
    r[i] == (EntryView {
        id: r[i].id,
        parent_id: if i == 0 {
            None
        } else {
            Some(r[i - 1].id)
        },
        ..ms[i]
    })
}

/// Whether `r` copies the entries `ms` under fresh 36-character
/// identifiers, each entry's parent being the copy before it.
pub open spec fn relinked_copy(ms: Seq<EntryView>, r: Seq<EntryView>) -> bool {
    &&& r.len() == ms.len()
    &&& forall|i: int| 0 <= i < r.len() ==> #[trigger] relinked_entry(ms, r, i) && r[i].id.len() == 36
}

/// The outcome of copying a transcript for a fork up to and including the
/// user message `up_to` (all of it when `None`).
pub open spec fn fork_copy_spec(ms: Seq<EntryView>, up_to: Option<Seq<char>>, r: Result<Vec<Message>, SessionError>) -> bool {
    match up_to {
        None => r matches Ok(v) && relinked_copy(ms, entries_view(v@)),
        Some(id) => match position_of(ms, id) {
            None => r matches Err(SessionError::MessageNotFound(x)) && x@ == id,
            Some(i) => if eq_ignore_case(ms[i].role, "user"@) {
                r matches Ok(v) && relinked_copy(ms.take(i + 1), entries_view(v@))
            } else {
                r matches Err(SessionError::BranchNeedsUserMessage(x)) && x@ == ms[i].role
            },
        },
    }
}

fn relinked_prefix(messages: &Vec<Message>, end: usize) -> (r: Vec<Message>)
    requires
        end <= messages@.len(),
    ensures
        relinked_copy(entries_view(messages@).take(end as int), entries_view(r@)),
{
    let ghost ev = entries_view(messages@).take(end as int);
    let ghost mut rv: Seq<EntryView> = Seq::empty();
    let mut out: Vec<Message> = Vec::new();
    let mut parent_id: Option<String> = None;
    let mut i: usize = 0;
    while i < end
        invariant
            i <= end <= messages@.len(),
            ev == entries_view(messages@).take(end as int),
            rv == entries_view(out@),
            rv.len() == i,
            forall|j: int| 0 <= j < i ==> #[trigger] relinked_entry(ev, rv, j),
            forall|j: int| 0 <= j < i ==> (#[trigger] rv[j]).id.len() == 36,
            i == 0 ==> parent_id is None,
            i > 0 ==> opt_view(parent_id) == Some(rv[i - 1].id),
        decreases end - i,
    {
        assert(ev[i as int] == messages@[i as int]@);
        let mut forked = messages[i].clone();
        forked.id = new_uuid();
        forked.parent_id = clone_opt(&parent_id);
        parent_id = Some(forked.id.clone());
        let ghost fv = forked@;
        out.push(forked);
        proof {
            let prev = rv;
            rv = rv.push(fv);
            assert(entries_view(out@) =~= rv);
            assert(rv[i as int].id.len() == 36);
            assert(relinked_entry(ev, rv, i as int));
            assert forall|j: int| 0 <= j < i implies #[trigger] relinked_entry(ev, rv, j) by {
                assert(relinked_entry(ev, prev, j));
                assert(rv[j] == prev[j]);
                if j > 0 {
                    assert(rv[j - 1] == prev[j - 1]);
                }
            }
        }
        i = i + 1;
    }
    out
}

impl Session {
    /// A copy of the transcript for a fork, up to and including the user
    /// message `up_to_message_id` (all of it when `None`), under fresh
    /// identifiers.
    pub fn clone_for_fork(&self, up_to_message_id: Option<&str>) -> (r: Result<Vec<Message>, SessionError>)
        ensures
            fork_copy_spec(
                entries_view(self.messages@),
                match up_to_message_id {
                    Some(id) => Some(id@),
                    None => None::<Seq<char>>,
                },
                r,
            ),
    {
        let ghost ev = entries_view(self.messages@);
        let end = match up_to_message_id {
            Some(message_id) => match find_message(&self.messages, message_id) {
                None => {
                    return Err(SessionError::MessageNotFound(String::from_str(message_id)));
                },
                Some(index) => {
                    assert(ev[index as int] == self.messages@[index as int]@);
                    assert(index < self.messages@.len());
                    if !eq_ignore_case_str(self.messages[index].role.as_str(), "user") {
                        return Err(SessionError::BranchNeedsUserMessage(self.messages[index].role.clone()));
                    }
                    index + 1
                },
            },
            None => self.messages.len(),
        };
        proof {
            if up_to_message_id is None {
                assert(ev.take(end as int) =~= ev);
            }
        }
        Ok(relinked_prefix(&self.messages, end))
    }

    /// Rewinds the transcript to the user message `message_id` at the time
    /// `now`, dropping what follows it and any pending approval; returns the
    /// text of that message so it can be edited and sent again.
    pub fn rewind_to_message(&mut self, message_id: &str, now: i64) -> (r: Result<String, SessionError>)
        ensures
            match position_of(entries_view(old(self).messages@), message_id@) {
                None => r matches Err(SessionError::MessageNotFound(x)) && x@ == message_id@
                    && *final(self) == *old(self),
                Some(i) => if eq_ignore_case(old(self).messages@[i]@.role, "user"@) {
                    &&& r matches Ok(text)
                    &&& text@ == old(self).messages@[i]@.content
                    &&& final(self).messages@ == old(self).messages@.take(i + 1)
                    &&& *final(self) == (Session {
                        messages: final(self).messages,
                        pending_approval: None,
                        status: SessionStatus::Completed,
                        updated_at: now,
                        ..*old(self)
                    })
                } else {
                    r matches Err(SessionError::RewindNeedsUserMessage(x)) && x@ == old(
                        self,
                    ).messages@[i]@.role && *final(self) == *old(self)
                },
            },
    {
        let index = match find_message(&self.messages, message_id) {
            None => {
                return Err(SessionError::MessageNotFound(String::from_str(message_id)));
            },
            Some(i) => i,
        };
        if !eq_ignore_case_str(self.messages[index].role.as_str(), "user") {
            return Err(SessionError::RewindNeedsUserMessage(self.messages[index].role.clone()));
        }
        let restored = self.messages[index].content.clone();
        self.messages.truncate(index + 1);
        self.pending_approval = None;
        self.status = SessionStatus::Completed;
        self.updated_at = now;
        Ok(restored)
    }

    /// Makes a loaded session consistent: a session waiting for an approval
    /// it no longer holds is completed, blank entry identifiers are
    /// replaced by fresh ones, and each entry's parent is the entry before
    /// it.
    pub fn normalize_for_runtime(&mut self)
        ensures
            final(self).status == if old(self).status == SessionStatus::AwaitingApproval
                && old(self).pending_approval is None {
                SessionStatus::Completed
            } else {
                old(self).status
            },
            entries_view(final(self).messages@).len() == old(self).messages@.len(),
            forall|i: int|
                0 <= i < old(self).messages@.len() ==> #[trigger] normalized_entry(
                    entries_view(old(self).messages@),
                    entries_view(final(self).messages@),
                    i,
                ),
            *final(self) == (Session {
                status: final(self).status,
                messages: final(self).messages,
                ..*old(self)
            }),
    {
        if self.status == SessionStatus::AwaitingApproval && self.pending_approval.is_none() {
            self.status = SessionStatus::Completed;
        }
        let old_messages = clone_entries(&self.messages);
        let ghost ov = entries_view(old_messages@);
        assert(ov == entries_view(self.messages@));
        let ghost mut rv: Seq<EntryView> = Seq::empty();
        let mut out: Vec<Message> = Vec::new();
        let mut parent_id: Option<String> = None;
        let mut i: usize = 0;
        while i < old_messages.len()
            invariant
                i <= old_messages.len(),
                ov == entries_view(old_messages@),
                rv == entries_view(out@),
                rv.len() == i,
                forall|j: int| 0 <= j < i ==> #[trigger] normalized_entry(ov, rv, j),
                i == 0 ==> parent_id is None,
                i > 0 ==> opt_view(parent_id) == Some(rv[i - 1].id),
            decreases old_messages.len() - i,
        {
            assert(ov[i as int] == old_messages@[i as int]@);
            let mut m = old_messages[i].clone();
            if crate::text::is_blank_str(m.id.as_str()) {
                m.id = new_uuid();
            }
            m.parent_id = clone_opt(&parent_id);
            parent_id = Some(m.id.clone());
            let ghost mv = m@;
            out.push(m);
            proof {
                let prev = rv;
                rv = rv.push(mv);
                assert(entries_view(out@) =~= rv);
                assert(normalized_entry(ov, rv, i as int));
                assert forall|j: int| 0 <= j < i implies #[trigger] normalized_entry(ov, rv, j) by {
                    assert(normalized_entry(ov, prev, j));
                    assert(rv[j] == prev[j]);
                    if j > 0 {
                        assert(rv[j - 1] == prev[j - 1]);
                    }
                }
            }
            i = i + 1;
        }
        self.messages = out;
    }
}

/// Whether entry `i` of `r` normalizes entry `i` of `ms`: a blank
/// identifier becomes a fresh 36-character one, any other stays, and the
/// parent is entry `i - 1` of `r`.
pub open spec fn normalized_entry(ms: Seq<EntryView>, r: Seq<EntryView>, i: int) -> bool {
    &&& r[i] == (EntryView {
        id: r[i].id,
        parent_id: if i == 0 {
            None
        } else {
            Some(r[i - 1].id)
        },
        ..ms[i]
    })
    &&& if trim(ms[i].id).len() == 0 {
        r[i].id.len() == 36
    } else {
        r[i].id == ms[i].id
    }
}

/// The notice that opens a child-agent session.
pub open spec fn child_notice_spec(task_id: Seq<char>, parent: Option<Seq<char>>) -> Seq<char> {
    "Child agent session for task "@ + task_id + opt_suffix(" from parent "@, parent) + "."@
}

/// The notice that closes the copied transcript of a fork.
pub open spec fn fork_notice_spec(source_id: Seq<char>, message_id: Option<Seq<char>>) -> Seq<char> {
    "Forked from session "@ + source_id + opt_suffix(" at "@, message_id) + "."@
}

fn str_opt(o: Option<&str>) -> (r: Option<String>)
    ensures
        opt_view(r) == crate::paths::str_view(o),
{
    match o {
        Some(s) => Some(String::from_str(s)),
        None => None,
    }
}

fn notice_entry(id: String, content: String, parent_id: Option<String>, timestamp: i64) -> (m: Message)
    ensures
        m@ == (EntryView {
            id: id@,
            role: "system"@,
            content: content@,
            tool_calls: Seq::empty(),
            tool_result: None,
            entry_type: TranscriptEntryType::SystemNotice,
            parent_id: opt_view(parent_id),
            timestamp,
        }),
{
    let m = Message {
        id,
        role: String::from_str("system"),
        content,
        tool_calls: Vec::new(),
        tool_result: None,
        entry_type: TranscriptEntryType::SystemNotice,
        parent_id,
        timestamp,
    };
    assert(m@.tool_calls =~= Seq::<ToolCallView>::empty());
    m
}

impl Session {
    /// A new active primary session `id`, created at `now`, named `name`
    /// (its id when none is given).
    pub fn new_primary(id: String, name: Option<&str>, now: i64, project_root: Option<String>) -> (s: Self)
        ensures
            s.id@ == id@,
            s.name@ == match name {
                Some(n) => n@,
                None => id@,
            },
            s.created_at == now && s.updated_at == now,
            opt_view(s.project_root) == opt_view(project_root),
            s.parent_session_id is None && s.forked_from_session_id is None,
            s.forked_from_message_id is None && s.spawned_by_task_id is None,
            s.session_kind == SessionKind::Primary,
            s.status == SessionStatus::Active,
            s.pending_approval is None,
            s.messages@.len() == 0,
    {
        let session_name = match name {
            Some(n) => String::from_str(n),
            None => id.clone(),
        };
        Session {
            id,
            name: session_name,
            created_at: now,
            updated_at: now,
            project_root,
            parent_session_id: None,
            forked_from_session_id: None,
            forked_from_message_id: None,
            spawned_by_task_id: None,
            session_kind: SessionKind::Primary,
            status: SessionStatus::Active,
            pending_approval: None,
            messages: Vec::new(),
        }
    }

    /// A new active child-agent session `id` for the task `task_id`,
    /// created at `now`, whose transcript opens with a notice of its
    /// lineage (entry `notice_id`).
    pub fn new_child(
        id: String,
        parent_session_id: Option<&str>,
        task_id: &str,
        name: Option<&str>,
        now: i64,
        project_root: Option<String>,
        notice_id: String,
    ) -> (s: Self)
        ensures
            s.id@ == id@,
            s.name@ == match name {
                Some(n) => n@,
                None => "child-agent-session"@,
            },
            s.created_at == now && s.updated_at == now,
            opt_view(s.project_root) == opt_view(project_root),
            opt_view(s.parent_session_id) == crate::paths::str_view(parent_session_id),
            s.forked_from_session_id is None && s.forked_from_message_id is None,
            opt_view(s.spawned_by_task_id) == Some(task_id@),
            s.session_kind == SessionKind::ChildAgent,
            s.status == SessionStatus::Active,
            s.pending_approval is None,
            entries_view(s.messages@) == seq![
                EntryView {
                    id: notice_id@,
                    role: "system"@,
                    content: child_notice_spec(task_id@, crate::paths::str_view(parent_session_id)),
                    tool_calls: Seq::empty(),
                    tool_result: None,
                    entry_type: TranscriptEntryType::SystemNotice,
                    parent_id: None,
                    timestamp: now,
                },
            ],
    {
        let parent = str_opt(parent_session_id);
        let mut notice = concat("Child agent session for task ", task_id);
        append_opt_suffix(&mut notice, " from parent ", &parent);
        notice.append(".");
        let entry = notice_entry(notice_id, notice, None, now);
        let ghost ev = entry@;
        let mut messages: Vec<Message> = Vec::new();
        messages.push(entry);
        assert(entries_view(messages@) =~= seq![ev]);
        Session {
            id,
            name: match name {
                Some(n) => String::from_str(n),
                None => String::from_str("child-agent-session"),
            },
            created_at: now,
            updated_at: now,
            project_root,
            parent_session_id: parent,
            forked_from_session_id: None,
            forked_from_message_id: None,
            spawned_by_task_id: Some(String::from_str(task_id)),
            session_kind: SessionKind::ChildAgent,
            status: SessionStatus::Active,
            pending_approval: None,
            messages,
        }
    }
}

/// How many entries of `ms` a fork up to the user message `up_to` keeps
/// (all of them for `None`); nothing when there is no such user message.
pub open spec fn fork_end(ms: Seq<EntryView>, up_to: Option<Seq<char>>) -> Option<int> {
    match up_to {
        None => Some(ms.len() as int),
        Some(id) => match position_of(ms, id) {
            Some(i) => if eq_ignore_case(ms[i].role, "user"@) {
                Some(i + 1)
            } else {
                None
            },
            None => None,
        },
    }
}

impl Session {
    /// A fork `id` of `source`, created at `now`: the transcript up to and
    /// including the user message `up_to_message_id` (all of it when
    /// `None`) under fresh identifiers, followed by a notice of the fork
    /// (entry `notice_id`). Named `name`, else after the source with
    /// ` (branch)`; in `project_root`, else in the source's.
    pub fn new_fork(
        source: &Session,
        up_to_message_id: Option<&str>,
        name: Option<&str>,
        id: String,
        now: i64,
        project_root: Option<String>,
        notice_id: String,
    ) -> (r: Result<Session, SessionError>)
        ensures
            ({
                let ms = entries_view(source.messages@);
                let up_to = crate::paths::str_view(up_to_message_id);
                match fork_end(ms, up_to) {
                    None => match up_to {
                        Some(mid) => match position_of(ms, mid) {
                            None => r matches Err(SessionError::MessageNotFound(x)) && x@ == mid,
                            Some(i) => r matches Err(SessionError::BranchNeedsUserMessage(x)) && x@
                                == ms[i].role,
                        },
                        None => false,
                    },
                    Some(end) => {
                        &&& r matches Ok(s)
                        &&& s.id@ == id@
                        &&& s.name@ == match name {
                            Some(n) => n@,
                            None => source.name@ + " (branch)"@,
                        }
                        &&& s.created_at == now && s.updated_at == now
                        &&& opt_view(s.project_root) == match opt_view(project_root) {
                            Some(p) => Some(p),
                            None => opt_view(source.project_root),
                        }
                        &&& opt_view(s.parent_session_id) == Some(source.id@)
                        &&& opt_view(s.forked_from_session_id) == Some(source.id@)
                        &&& opt_view(s.forked_from_message_id) == up_to
                        &&& s.spawned_by_task_id is None
                        &&& s.session_kind == SessionKind::Forked
                        &&& s.status == SessionStatus::Completed
                        &&& s.pending_approval is None
                        &&& entries_view(s.messages@).len() == end + 1
                        &&& relinked_copy(ms.take(end), entries_view(s.messages@).take(end))
                        &&& entries_view(s.messages@)[end] == (EntryView {
                            id: notice_id@,
                            role: "system"@,
                            content: fork_notice_spec(source.id@, up_to),
                            tool_calls: Seq::empty(),
                            tool_result: None,
                            entry_type: TranscriptEntryType::SystemNotice,
                            parent_id: if end == 0 {
                                None
                            } else {
                                Some(entries_view(s.messages@)[end - 1].id)
                            },
                            timestamp: now,
                        })
                    },
                }
            }),
    {
        let mut messages = match source.clone_for_fork(up_to_message_id) {
            Ok(v) => v,
            Err(e) => {
                return Err(e);
            },
        };
        let ghost copied = entries_view(messages@);
        proof {
            let ms = entries_view(source.messages@);
            if up_to_message_id is None {
                assert(ms.take(ms.len() as int) =~= ms);
            } else {
                lemma_position_bounds(ms, up_to_message_id.unwrap()@);
            }
        }
        let up_to = str_opt(up_to_message_id);
        let mut notice = concat("Forked from session ", source.id.as_str());
        append_opt_suffix(&mut notice, " at ", &up_to);
        notice.append(".");
        let parent_id = if messages.len() > 0 {
            assert(entries_view(messages@)[messages.len() - 1] == messages@[messages.len() - 1]@);
            Some(messages[messages.len() - 1].id.clone())
        } else {
            None
        };
        let entry = notice_entry(notice_id, notice, parent_id, now);
        let ghost nv = entry@;
        messages.push(entry);
        assert(entries_view(messages@) =~= copied.push(nv));
        assert(entries_view(messages@).take(copied.len() as int) =~= copied);
        let session_name = match name {
            Some(n) => String::from_str(n),
            None => concat(source.name.as_str(), " (branch)"),
        };
        let root = match project_root {
            Some(p) => Some(p),
            None => clone_opt(&source.project_root),
        };
        Ok(
            Session {
                id,
                name: session_name,
                created_at: now,
                updated_at: now,
                project_root: root,
                parent_session_id: Some(source.id.clone()),
                forked_from_session_id: Some(source.id.clone()),
                forked_from_message_id: up_to,
                spawned_by_task_id: None,
                session_kind: SessionKind::Forked,
                status: SessionStatus::Completed,
                pending_approval: None,
                messages,
            },
        )
    }
}

impl Default for Session {
    /// An empty, completed primary session with no id or name, created now.
    fn default() -> (s: Self)
        ensures
            s.id@.len() == 0 && s.name@.len() == 0,
            s.created_at == s.updated_at,
            s.project_root is None && s.parent_session_id is None,
            s.forked_from_session_id is None && s.forked_from_message_id is None,
            s.spawned_by_task_id is None,
            s.session_kind == SessionKind::Primary,
            s.status == SessionStatus::Completed,
            s.pending_approval is None,
            s.messages@.len() == 0,
    {
        let now = now_millis();
        Session {
            id: String::new(),
            name: String::new(),
            created_at: now,
            updated_at: now,
            project_root: None,
            parent_session_id: None,
            forked_from_session_id: None,
            forked_from_message_id: None,
            spawned_by_task_id: None,
            session_kind: SessionKind::Primary,
            status: SessionStatus::Completed,
            pending_approval: None,
            messages: Vec::new(),
        }
    }
}

/// Where sessions are stored and for which project.
#[derive(Debug)]
pub struct SessionManager {
    sessions_dir: String,
    project_root: Option<String>,
}

impl SessionManager {
    /// The manager of the sessions under the home directory `home`
    /// (`.` when unknown): `<home>/.rustcode/sessions`, no project.
    pub fn under_home(home: &Option<String>) -> (m: Self)
        ensures
            m.sessions_dir_spec() == crate::paths::path_join(crate::paths::config_dir_spec(opt_view(*home)), "sessions"@),
            m.root_spec() is None,
    {
        let dir = crate::paths::config_dir_under(home);
        SessionManager { sessions_dir: crate::paths::join_path(dir.as_str(), "sessions"), project_root: None }
    }

    /// The manager of the sessions under the user's home directory.
    pub fn new() -> (m: Self)
        ensures
            exists|home: Option<Seq<char>>|
                m.sessions_dir_spec() == crate::paths::path_join(crate::paths::config_dir_spec(home), "sessions"@),
            m.root_spec() is None,
    {
        let home = crate::paths::home_dir();
        SessionManager::under_home(&home)
    }

    /// The manager for a project working directory: its sessions live in
    /// `<cwd>/rustcode/sessions`; without a directory, those under the home
    /// directory.
    pub fn for_working_dir(cwd: Option<&str>) -> (m: Self)
        ensures
            match cwd {
                Some(root) => m.sessions_dir_spec() == crate::paths::path_join(
                    crate::paths::path_join(root@, "rustcode"@),
                    "sessions"@,
                ) && m.root_spec() == Some(root@),
                None => m.root_spec() is None && exists|home: Option<Seq<char>>|
                    m.sessions_dir_spec() == crate::paths::path_join(
                        crate::paths::config_dir_spec(home),
                        "sessions"@,
                    ),
            },
    {
        match cwd {
            Some(root) => {
                let dir = crate::paths::project_sessions_dir(Some(root), None);
                match dir {
                    Some(d) => SessionManager { sessions_dir: d, project_root: Some(String::from_str(root)) },
                    None => SessionManager::new(),
                }
            },
            None => SessionManager::new(),
        }
    }

    /// The directory the sessions are stored in.
    pub closed spec fn sessions_dir_spec(&self) -> Seq<char> {
        self.sessions_dir@
    }

    /// The directory the sessions are stored in.
    pub fn sessions_dir(&self) -> (d: &String)
        ensures
            d@ == self.sessions_dir_spec(),
    {
        &self.sessions_dir
    }

    /// The project the sessions belong to, if any.
    pub closed spec fn root_spec(&self) -> Option<Seq<char>> {
        opt_view(self.project_root)
    }

    /// The project the sessions belong to, if any.
    pub fn project_root(&self) -> (r: &Option<String>)
        ensures
            opt_view(*r) == self.root_spec(),
    {
        &self.project_root
    }

    /// The file of session `id`: `<dir>/<id>.json`.
    pub fn session_path(&self, id: &str) -> (p: String)
        ensures
            p@ == crate::paths::path_join(self.sessions_dir_spec(), id@ + ".json"@),
    {
        let file = concat(id, ".json");
        crate::paths::join_path(self.sessions_dir.as_str(), file.as_str())
    }
}

/// Which sessions a search wants.
#[derive(Debug, Default)]
pub struct SessionQuery {
    pub text: Option<String>,
    pub kind: Option<SessionKind>,
    pub limit: Option<usize>,
}

/// The lower-cased, trimmed search text, when it is not blank.
pub open spec fn needle_of(text: Option<Seq<char>>) -> Option<Seq<char>> {
    match text {
        Some(t) => if trim(t).len() > 0 {
            Some(lower(trim(t)))
        } else {
            None
        },
        None => None,
    }
}

/// Whether a search keeps a session: of the wanted kind, and matching the
/// search text by id prefix, name, latest user summary or kind name (all
/// compared lower-cased).
pub open spec fn query_keeps(s: SessionInfo, kind: Option<SessionKind>, needle: Option<Seq<char>>) -> bool {
    &&& match kind {
        Some(k) => s.session_kind == k,
        None => true,
    }
    &&& match needle {
        Some(n) => crate::text::has_prefix(lower(s.id@), n) || crate::text::contains(lower(s.name@), n)
            || match opt_view(s.latest_user_summary) {
            Some(t) => crate::text::contains(lower(t), n),
            None => false,
        } || crate::text::contains(kind_name(s.session_kind), n),
        None => true,
    }
}

/// The sessions a search keeps, in order.
pub open spec fn kept_sessions(v: Seq<SessionInfo>, kind: Option<SessionKind>, needle: Option<Seq<char>>) -> Seq<SessionInfo>
    decreases v.len(),
{
    if v.len() == 0 {
        Seq::empty()
    } else {
        let r = kept_sessions(v.drop_last(), kind, needle);
        if query_keeps(v.last(), kind, needle) {
            r.push(v.last())
        } else {
            r
        }
    }
}

/// The result of a search: the kept sessions, in order, at most `limit`.
pub open spec fn search_spec(v: Seq<SessionInfo>, q: SessionQuery) -> Seq<SessionInfo> {
    let kept = kept_sessions(v, q.kind, needle_of(opt_view(q.text)));
    match q.limit {
        Some(l) => if l < kept.len() {
            kept.take(l as int)
        } else {
            kept
        },
        None => kept,
    }
}

proof fn lemma_kept_contains(v: Seq<SessionInfo>, kind: Option<SessionKind>, needle: Option<Seq<char>>, i: int)
    requires
        0 <= i < v.len(),
        query_keeps(v[i], kind, needle),
    ensures
        kept_sessions(v, kind, needle).contains(v[i]),
    decreases v.len(),
{
    let r = kept_sessions(v.drop_last(), kind, needle);
    if i == v.len() - 1 {
        assert(kept_sessions(v, kind, needle)[r.len() as int] == v[i]);
    } else {
        assert(v.drop_last()[i] == v[i]);
        lemma_kept_contains(v.drop_last(), kind, needle, i);
        let k = choose|k: int| 0 <= k < r.len() && r[k] == v[i];
        if query_keeps(v.last(), kind, needle) {
            assert(kept_sessions(v, kind, needle)[k] == r[k]);
        }
    }
}

/// A search without a limit finds every listed session whose latest user
/// message, lower-cased, contains the trimmed, lower-cased search text,
/// whatever its id and name, as long as it is of the kind asked for.
pub proof fn law_search_finds_latest_user_message(sessions: Seq<SessionInfo>, q: SessionQuery, i: int, text: Seq<char>, summary: Seq<char>)
    requires
        0 <= i < sessions.len(),
        opt_view(q.text) == Some(text),
        trim(text).len() > 0,
        opt_view(sessions[i].latest_user_summary) == Some(summary),
        crate::text::contains(lower(summary), lower(trim(text))),
        q.kind is None || q.kind == Some(sessions[i].session_kind),
        q.limit is None,
    ensures
        search_spec(sessions, q).contains(sessions[i]),
{
    lemma_kept_contains(sessions, q.kind, needle_of(opt_view(q.text)), i);
}

/// A search without a limit finds every listed session of the kind asked
/// for whose lower-cased id starts with, or whose lower-cased name
/// contains, the trimmed, lower-cased search text.
pub proof fn law_search_finds_id_or_name(sessions: Seq<SessionInfo>, q: SessionQuery, i: int, text: Seq<char>)
    requires
        0 <= i < sessions.len(),
        opt_view(q.text) == Some(text),
        trim(text).len() > 0,
        crate::text::has_prefix(lower(sessions[i].id@), lower(trim(text))) || crate::text::contains(
            lower(sessions[i].name@),
            lower(trim(text)),
        ),
        q.kind is None || q.kind == Some(sessions[i].session_kind),
        q.limit is None,
    ensures
        search_spec(sessions, q).contains(sessions[i]),
{
    lemma_kept_contains(sessions, q.kind, needle_of(opt_view(q.text)), i);
}

proof fn lemma_kept_kind(v: Seq<SessionInfo>, kind: Option<SessionKind>, needle: Option<Seq<char>>)
    ensures
        forall|j: int| 0 <= j < kept_sessions(v, kind, needle).len() ==> v.contains(
            #[trigger] kept_sessions(v, kind, needle)[j],
        ) && (kind is None || kind == Some(kept_sessions(v, kind, needle)[j].session_kind)),
        kept_sessions(v, kind, needle).len() <= v.len(),
    decreases v.len(),
{
    if v.len() > 0 {
        lemma_kept_kind(v.drop_last(), kind, needle);
        let r = kept_sessions(v.drop_last(), kind, needle);
        assert forall|j: int| 0 <= j < kept_sessions(v, kind, needle).len() implies v.contains(
            #[trigger] kept_sessions(v, kind, needle)[j],
        ) && (kind is None || kind == Some(kept_sessions(v, kind, needle)[j].session_kind)) by {
            if j < r.len() {
                assert(kept_sessions(v, kind, needle)[j] == r[j]);
                let k = choose|k: int| 0 <= k < v.drop_last().len() && v.drop_last()[k] == r[j];
                assert(v[k] == v.drop_last()[k]);
            } else {
                assert(v[v.len() - 1] == v.last());
            }
        }
    }
}

/// A search returns only listed sessions, only of the kind asked for, and
/// never more than the limit.
pub proof fn law_search_results_are_listed(sessions: Seq<SessionInfo>, q: SessionQuery)
    ensures
        forall|j: int| 0 <= j < search_spec(sessions, q).len() ==> sessions.contains(
            #[trigger] search_spec(sessions, q)[j],
        ) && (q.kind is None || q.kind == Some(search_spec(sessions, q)[j].session_kind)),
        search_spec(sessions, q).len() <= sessions.len(),
        match q.limit {
            Some(l) => search_spec(sessions, q).len() <= l,
            None => true,
        },
{
    let kept = kept_sessions(sessions, q.kind, needle_of(opt_view(q.text)));
    lemma_kept_kind(sessions, q.kind, needle_of(opt_view(q.text)));
    match q.limit {
        Some(l) => if l < kept.len() {
            assert forall|j: int| 0 <= j < search_spec(sessions, q).len() implies sessions.contains(
                #[trigger] search_spec(sessions, q)[j],
            ) && (q.kind is None || q.kind == Some(search_spec(sessions, q)[j].session_kind)) by {
                assert(search_spec(sessions, q)[j] == kept[j]);
            }
        },
        None => {},
    }
}

fn keeps_exec(s: &SessionInfo, kind: Option<SessionKind>, needle: &Option<String>) -> (b: bool)
    ensures
        b == query_keeps(*s, kind, opt_view(*needle)),
{
    let kind_ok = match kind {
        Some(k) => s.session_kind == k,
        None => true,
    };
    if !kind_ok {
        return false;
    }
    match needle {
        None => true,
        Some(n) => {
            let id = to_lower_str(s.id.as_str());
            let name = to_lower_str(s.name.as_str());
            crate::text::starts_with_str(id.as_str(), n.as_str()) || crate::text::contains_str(
                name.as_str(),
                n.as_str(),
            ) || match &s.latest_user_summary {
                Some(t) => crate::text::contains_str(to_lower_str(t.as_str()).as_str(), n.as_str()),
                None => false,
            } || crate::text::contains_str(s.session_kind.as_str(), n.as_str())
        },
    }
}

/// Sessions ordered from the most recently updated to the least.
pub open spec fn newest_first(s: Seq<SessionInfo>) -> bool {
    forall|i: int, j: int| 0 <= i < j < s.len() ==> s[i].updated_at >= s[j].updated_at
}

/// The sessions ordered by last update, newest first; sessions updated at
/// the same time keep their order.
pub fn sort_sessions_by_recency(sessions: Vec<SessionInfo>) -> (r: Vec<SessionInfo>)
    ensures
        newest_first(r@),
        r@.to_multiset() == sessions@.to_multiset(),
{
    let ghost all = sessions@;
    let mut rest = sessions;
    let mut out: Vec<SessionInfo> = Vec::new();
    let ghost mut taken: int = 0;
    assert(all.subrange(0, 0) =~= Seq::<SessionInfo>::empty());
    while rest.len() > 0
        invariant
            0 <= taken <= all.len(),
            rest@ == all.subrange(taken, all.len() as int),
            out@.to_multiset() == all.subrange(0, taken).to_multiset(),
            newest_first(out@),
        decreases rest.len(),
    {
        let ghost rest_before = rest@;
        let x = rest.remove(0);
        assert(x == all[taken]);
        assert(rest@ =~= all.subrange(taken + 1, all.len() as int));
        let mut p: usize = 0;
        while p < out.len() && out[p].updated_at >= x.updated_at
            invariant
                p <= out.len(),
                forall|j: int| 0 <= j < p ==> #[trigger] out@[j].updated_at >= x.updated_at,
            decreases out.len() - p,
        {
            p = p + 1;
        }
        let ghost before = out@;
        let ghost key = x.updated_at;
        proof {
            assert(p < before.len() ==> before[p as int].updated_at < key);
            assert forall|j: int| p <= j < before.len() implies #[trigger] before[j].updated_at < key by {
                if j > p {
                    assert(before[p as int].updated_at >= before[j].updated_at);
                }
            }
        }
        out.insert(p, x);
        proof {
            assert(out@ == before.insert(p as int, all[taken]));
            vstd::seq_lib::to_multiset_insert(before, p as int, all[taken]);
            assert(all.subrange(0, taken + 1) =~= all.subrange(0, taken).push(all[taken]));
            vstd::seq_lib::to_multiset_build(all.subrange(0, taken), all[taken]);
            taken = taken + 1;
            assert forall|i: int, j: int| 0 <= i < j < out@.len() implies out@[i].updated_at
                >= out@[j].updated_at by {
                if j < p {
                    assert(out@[i] == before[i] && out@[j] == before[j]);
                } else if j == p {
                    assert(out@[i] == before[i]);
                } else if i < p {
                    assert(out@[i] == before[i] && out@[j] == before[j - 1]);
                } else if i == p {
                    assert(out@[j] == before[j - 1]);
                } else {
                    assert(out@[i] == before[i - 1] && out@[j] == before[j - 1]);
                }
            }
        }
    }
    assert(all.subrange(0, all.len() as int) =~= all);
    out
}

/// The sessions a search keeps, in order, at most `query.limit` of them.
pub fn filter_sessions(sessions: Vec<SessionInfo>, query: &SessionQuery) -> (r: Vec<SessionInfo>)
    ensures
        r@ == search_spec(sessions@, *query),
{
    let needle = match &query.text {
        Some(t) => {
            let trimmed = trim_str(t.as_str());
            if trimmed.as_str().unicode_len() > 0 {
                Some(to_lower_str(trimmed.as_str()))
            } else {
                None
            }
        },
        None => None,
    };
    let ghost v = sessions@;
    let ghost needle_v = needle_of(opt_view(query.text));
    assert(opt_view(needle) == needle_v);
    let mut flags: Vec<bool> = Vec::new();
    let mut i: usize = 0;
    while i < sessions.len()
        invariant
            i <= sessions.len(),
            v == sessions@,
            opt_view(needle) == needle_v,
            flags@.len() == i,
            forall|j: int| 0 <= j < i ==> #[trigger] flags@[j] == query_keeps(v[j], query.kind, needle_v),
        decreases sessions.len() - i,
    {
        let keep = keeps_exec(&sessions[i], query.kind, &needle);
        flags.push(keep);
        i = i + 1;
    }
    let mut rest = sessions;
    let mut out: Vec<SessionInfo> = Vec::new();
    while rest.len() > 0
        invariant
            rest@ == v.take(rest@.len() as int),
            rest@.len() <= v.len(),
            flags@.len() == v.len(),
            forall|j: int| 0 <= j < v.len() ==> #[trigger] flags@[j] == query_keeps(v[j], query.kind, needle_v),
            kept_sessions(v, query.kind, needle_v) == kept_sessions(rest@, query.kind, needle_v) + out@,
        decreases rest@.len(),
    {
        let ghost before = rest@;
        let n = rest.len();
        let item = rest.pop().unwrap();
        assert(before.drop_last() =~= rest@);
        assert(before.last() == item);
        assert(rest@ =~= v.take(rest@.len() as int));
        assert(item == v[n - 1]);
        if flags[n - 1] {
            let ghost old_out = out@;
            out.insert(0, item);
            assert(out@ =~= seq![item] + old_out);
            assert(kept_sessions(before, query.kind, needle_v) == kept_sessions(rest@, query.kind, needle_v).push(item));
            assert(kept_sessions(rest@, query.kind, needle_v).push(item) + old_out =~= kept_sessions(
                rest@,
                query.kind,
                needle_v,
            ) + out@);
        }
    }
    assert(rest@ =~= Seq::<SessionInfo>::empty());
    assert(kept_sessions(v, query.kind, needle_v) =~= out@);
    match query.limit {
        Some(l) => {
            if l < out.len() {
                out.truncate(l);
            }
        },
        None => {},
    }
    out
}

/// Whether a runtime history comes back unchanged from its stored
/// transcript: no tool result opens it, and each tool result answers a call
/// that an earlier assistant message requested.
pub open spec fn restorable(h: Seq<MessageView>) -> bool {
    forall|k: int|
        0 <= k < h.len() && (#[trigger] h[k]).role == RuntimeRole::Tool ==> k > 0 && answers_call(
            h.take(k),
            entry_of(h[k], Seq::empty(), 0),
        )
}

proof fn lemma_role_round_trip(r: RuntimeRole)
    ensures
        role_of(role_name(r)) == r,
{
    reveal_strlit("system");
    reveal_strlit("user");
    reveal_strlit("assistant");
    reveal_strlit("tool");
    assert("user"@ != "system"@ && "user"@ != "assistant"@ && "user"@ != "tool"@) by {
        assert("user"@.len() == 4 && "system"@.len() == 6 && "assistant"@.len() == 9);
        assert("user"@[0] != "tool"@[0]);
    }
    assert("assistant"@ != "system"@) by {
        assert("assistant"@.len() == 9 && "system"@.len() == 6);
    }
    assert("tool"@ != "system"@ && "tool"@ != "assistant"@) by {
        assert("tool"@.len() == 4);
    }
}

proof fn lemma_stored_entry_restores(existing: Seq<EntryView>, h: Seq<MessageView>, r: Seq<EntryView>, k: int, i: int)
    requires
        reconciled_at(existing, h, r, k),
        0 <= i < h.len(),
    ensures
        runtime_of(r[i]) == h[i],
        r[i].tool_result == h[i].tool_result,
{
    lemma_role_round_trip(h[i].role);
    if i < k {
        assert(reused_entry(existing, r, i));
        assert(entry_matches(existing[i], h[i]));
    } else {
        assert(fresh_entry(h, r, i));
    }
}

proof fn lemma_restore_prefix(existing: Seq<EntryView>, h: Seq<MessageView>, r: Seq<EntryView>, k: int, n: int)
    requires
        reconciled_at(existing, h, r, k),
        0 <= n <= r.len(),
        restorable(h),
    ensures
        restored_history(r.take(n)) == h.take(n),
    decreases n,
{
    if n == 0 {
        assert(r.take(0) =~= Seq::<EntryView>::empty());
        assert(h.take(0) =~= Seq::<MessageView>::empty());
    } else {
        let m = n - 1;
        lemma_restore_prefix(existing, h, r, k, m);
        lemma_stored_entry_restores(existing, h, r, k, m);
        let pre = r.take(n);
        assert(pre.drop_last() =~= r.take(m));
        assert(pre.last() == r[m]);
        assert(h.take(n) =~= h.take(m).push(h[m]));
        if h[m].role == RuntimeRole::Tool {
            assert(m > 0 && answers_call(h.take(m), entry_of(h[m], Seq::empty(), 0)));
            let (a, b) = choose|a: int, b: int|
                0 <= a < h.take(m).len() && h.take(m)[a].role == RuntimeRole::Assistant && 0 <= b
                    < h.take(m)[a].tool_calls.len() && entry_of(h[m], Seq::empty(), 0).tool_result is Some
                    && entry_of(h[m], Seq::empty(), 0).tool_result->0.tool_call_id == #[trigger] h.take(
                    m,
                )[a].tool_calls[b].id;
            assert(answers_call(h.take(m), r[m]));
        }
    }
}

/// What a read gives back of a write: storing a restorable runtime history
/// over any earlier transcript and restoring it gives back that history.
pub proof fn law_store_then_restore(existing: Seq<EntryView>, h: Seq<MessageView>, r: Seq<EntryView>)
    requires
        reconciled(existing, h, r),
        restorable(h),
    ensures
        restored_history(r) == h,
{
    let k = choose|k: int| reconciled_at(existing, h, r, k);
    lemma_restore_prefix(existing, h, r, k, r.len() as int);
    assert(r.take(r.len() as int) =~= r);
    assert(h.take(h.len() as int) =~= h);
}

/// What saving a runtime history stores, over any earlier transcript: one
/// entry per message, each giving back its message, each entry the child
/// of the one before it.
pub proof fn law_saved_entries_give_back_history(existing: Seq<EntryView>, h: Seq<MessageView>, r: Seq<EntryView>)
    requires
        reconciled(existing, h, r),
    ensures
        r.len() == h.len(),
        forall|i: int| 0 <= i < r.len() ==> runtime_of(#[trigger] r[i]) == h[i],
        forall|i: int| 0 <= i < r.len() ==> (#[trigger] r[i]).parent_id == (if i == 0 {
            None
        } else {
            Some(r[i - 1].id)
        }),
{
    let k = choose|k: int| reconciled_at(existing, h, r, k);
    assert forall|i: int| 0 <= i < r.len() implies runtime_of(#[trigger] r[i]) == h[i] by {
        lemma_role_round_trip(h[i].role);
        if i < k {
            assert(reused_entry(existing, r, i));
            assert(entry_matches(existing[i], h[i]));
        } else {
            assert(fresh_entry(h, r, i));
        }
    }
    assert forall|i: int| 0 <= i < r.len() implies (#[trigger] r[i]).parent_id == (if i == 0 {
        None
    } else {
        Some(r[i - 1].id)
    }) by {
        assert(linked_entry(r, i));
    }
}

/// Every session kind's stored name selects that kind again as a filter.
pub proof fn law_kind_name_round_trip(k: SessionKind)
    ensures
        kind_filter(lower(trim(kind_name(k)))) == Some(k),
{
    reveal_strlit("primary");
    reveal_strlit("forked");
    reveal_strlit("child_agent");
    reveal_strlit("main");
    reveal_strlit("root");
    reveal_strlit("fork");
    reveal_strlit("branch");
    reveal_strlit("branched");
    reveal_strlit("child");
    crate::text::lemma_plain_key(kind_name(k));
    match k {
        SessionKind::Primary => {},
        SessionKind::Forked => {
            assert("forked"@ != "primary"@ && "forked"@ != "fork"@ && "forked"@ != "branch"@);
            assert("forked"@[0] != "main"@[0] && "forked"@[0] != "root"@[0]);
        },
        SessionKind::ChildAgent => {
            assert("child_agent"@.len() == 11);
            assert("child_agent"@ != "branched"@ && "child_agent"@ != "primary"@);
            assert("child_agent"@ != "child"@);
        },
    }
}

} // verus!
